//! Thumbnail composition: join a list of groups with the per-group
//! result of a bounded file lookup, producing one enriched entry per
//! group in the input order.
//!
//! A failed per-group lookup is absorbed into a defined degraded entry
//! (`thumbnail_image = None`, `photo_count = 0`) instead of failing the
//! whole composition. `photo_count` is the number of files the bounded
//! lookup actually observed — with a lookup cap of one, zero or one —
//! not the group's true file count; that observed-count meaning is kept
//! deliberately and stated in the contracts.

use vstd::prelude::*;

use crate::errors::ApiError;
use crate::models::{GroupWithThumbnail, PinataFile, PinataGroup};

verus! {

/// How one composed entry relates to its group and the outcome of that
/// group's file lookup: the group's fields are carried over; a
/// successful lookup contributes its first file as the thumbnail and
/// its observed count; a failed lookup leaves the degraded entry.
pub open spec fn spec_composed(
    g: PinataGroup,
    lookup: Result<Vec<PinataFile>, ApiError>,
    r: GroupWithThumbnail,
) -> bool {
    &&& r.id == g.id
    &&& r.name == g.name
    &&& r.is_public == g.is_public
    &&& r.created_at == g.created_at
    &&& match lookup {
        Ok(files) => r.photo_count == files@.len() && r.thumbnail_image == (
        if files@.len() > 0 {
            Some(files@[0])
        } else {
            None::<PinataFile>
        }),
        Err(_) => r.thumbnail_image is None && r.photo_count == 0,
    }
}

/// Composes one entry from a group and its lookup outcome.
pub fn compose_entry(group: PinataGroup, lookup: Result<Vec<PinataFile>, ApiError>) -> (r:
    GroupWithThumbnail)
    ensures
        spec_composed(group, lookup, r),
{
    let (thumbnail, count) = match lookup {
        Ok(mut files) => {
            let count = files.len();
            let thumbnail = if files.len() > 0 {
                Some(files.remove(0))
            } else {
                None
            };
            (thumbnail, count)
        },
        Err(_) => (None, 0),
    };
    GroupWithThumbnail {
        id: group.id,
        name: group.name,
        is_public: group.is_public,
        created_at: group.created_at,
        thumbnail_image: thumbnail,
        photo_count: count,
    }
}

/// Composes every group with the outcome of its own lookup, one entry
/// per group, in the input order. A failure in `lookups[i]` degrades
/// entry `i` and never disturbs the other entries.
pub fn compose(
    groups: Vec<PinataGroup>,
    lookups: Vec<Result<Vec<PinataFile>, ApiError>>,
) -> (r: Vec<GroupWithThumbnail>)
    requires
        groups@.len() == lookups@.len(),
    ensures
        r@.len() == groups@.len(),
        forall|i: int| 0 <= i < r@.len() ==> spec_composed(groups@[i], lookups@[i], r@[i]),
{
    let ghost all_groups = groups@;
    let ghost all_lookups = lookups@;
    let mut groups = groups;
    let mut lookups = lookups;
    let mut out: Vec<GroupWithThumbnail> = Vec::new();
    while groups.len() > 0
        invariant
            groups@.len() == lookups@.len(),
            out@.len() + groups@.len() == all_groups.len(),
            all_groups.len() == all_lookups.len(),
            groups@ == all_groups.skip(out@.len() as int),
            lookups@ == all_lookups.skip(out@.len() as int),
            forall|i: int|
                0 <= i < out@.len() ==> spec_composed(all_groups[i], all_lookups[i], out@[i]),
        decreases groups@.len(),
    {
        let ghost n = out@.len() as int;
        let group = groups.remove(0);
        let lookup = lookups.remove(0);
        proof {
            assert(group == all_groups[n]);
            assert(lookup == all_lookups[n]);
            assert(groups@ =~= all_groups.skip(n + 1));
            assert(lookups@ =~= all_lookups.skip(n + 1));
        }
        let entry = compose_entry(group, lookup);
        out.push(entry);
    }
    out
}

/// Law: composition never shrinks or reorders — over `M` groups it
/// returns `M` entries, entry `i` from group `i` — and when every
/// lookup failed, every entry is the degraded one.
pub proof fn lemma_compose_all_failed(
    groups: Seq<PinataGroup>,
    lookups: Seq<Result<Vec<PinataFile>, ApiError>>,
    out: Seq<GroupWithThumbnail>,
)
    requires
        groups.len() == lookups.len(),
        out.len() == groups.len(),
        forall|i: int| 0 <= i < out.len() ==> spec_composed(groups[i], lookups[i], out[i]),
        forall|i: int| 0 <= i < lookups.len() ==> lookups[i] is Err,
    ensures
        forall|i: int|
            0 <= i < out.len() ==> out[i].thumbnail_image is None && out[i].photo_count == 0,
        forall|i: int| 0 <= i < out.len() ==> out[i].id == groups[i].id,
{
}

} // verus!
