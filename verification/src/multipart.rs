//! Intake of an upload request's multipart fields: dispatch each field
//! by its name, fold the fields into the upload batch, and pair every
//! file with its metadata.
//!
//! Fields arrive in form order. A repeated file or metadata id replaces
//! the stored entry in place, and the later of two control fields wins,
//! so the batch is a deterministic function of the field sequence. A
//! file without metadata fails the whole batch with the first such id.

use vstd::prelude::*;

use crate::errors::ApiError;
use crate::models::PhotoMetadata;
use crate::text::{spec_has_prefix, str_eq, str_starts_with};

verus! {

/// What a multipart field's name says it carries.
#[derive(Debug, Clone, PartialEq, Eq)]
pub enum FieldKind {
    /// The flag asking for a new group.
    CreateNewGroup,
    /// The id of an existing target group.
    GroupId,
    /// The name for a group to create.
    GroupName,
    /// A file part; the field name itself is the file's id.
    FileData { file_id: String },
    /// A metadata part; the id of the file it belongs to follows the
    /// prefix.
    Metadata { file_id: String },
    /// Anything else, ignored.
    Other,
}

/// Dispatches a multipart field by its name: the three control names,
/// then the `file_` and `metadata_` prefixes, in that order; anything
/// else is ignored.
pub fn classify_field(name: &str) -> (k: FieldKind)
    ensures
        name@ == "createNewGroup"@ ==> k == FieldKind::CreateNewGroup,
        name@ == "groupId"@ ==> k == FieldKind::GroupId,
        name@ == "groupName"@ ==> k == FieldKind::GroupName,
        name@ != "createNewGroup"@ && name@ != "groupId"@ && name@ != "groupName"@ ==> {
            if spec_has_prefix(name@, "file_"@) {
                k matches FieldKind::FileData { file_id } && file_id@ == name@
            } else if spec_has_prefix(name@, "metadata_"@) {
                k matches FieldKind::Metadata { file_id } && file_id@ == name@.skip(
                    "metadata_"@.len() as int,
                )
            } else {
                k == FieldKind::Other
            }
        },
{
    proof {
        reveal_strlit("createNewGroup");
        reveal_strlit("groupId");
        reveal_strlit("groupName");
        assert("createNewGroup"@.len() == 14);
        assert("groupId"@.len() == 7);
        assert("groupName"@.len() == 9);
    }
    if str_eq(name, "createNewGroup") {
        FieldKind::CreateNewGroup
    } else if str_eq(name, "groupId") {
        FieldKind::GroupId
    } else if str_eq(name, "groupName") {
        FieldKind::GroupName
    } else if str_starts_with(name, "file_") {
        FieldKind::FileData { file_id: name.to_owned() }
    } else if str_starts_with(name, "metadata_") {
        let plen = "metadata_".unicode_len();
        let id = name.substring_char(plen, name.unicode_len()).to_owned();
        proof {
            assert(name@.subrange("metadata_"@.len() as int, name@.len() as int) =~= name@.skip(
                "metadata_"@.len() as int,
            ));
        }
        FieldKind::Metadata { file_id: id }
    } else {
        FieldKind::Other
    }
}

/// How the group-creation flag reads its field text: exactly the text
/// `true` sets it; anything else (including `false` and junk) leaves it
/// unset.
pub fn parse_bool_flag(s: &str) -> (r: bool)
    ensures
        r == (s@ == "true"@),
{
    str_eq(s, "true")
}

/// One stored file part.
#[derive(Debug, Clone, PartialEq, Eq)]
pub struct FileEntry {
    pub file_id: String,
    pub file_name: String,
    pub data: Vec<u8>,
}

/// One stored metadata part.
#[derive(Debug, Clone, PartialEq, Eq)]
pub struct MetaEntry {
    pub file_id: String,
    pub metadata: PhotoMetadata,
}

/// One multipart field after its payload was read, ready to fold into
/// the batch.
#[derive(Debug, Clone, PartialEq, Eq)]
pub enum ParsedField {
    /// The raw text of the group-creation flag.
    CreateNewGroup(String),
    /// The id of an existing target group.
    GroupId(String),
    /// The name for a group to create.
    GroupName(String),
    /// A file part: its id, its file name, its bytes.
    FileData { file_id: String, file_name: String, data: Vec<u8> },
    /// A metadata part: the id of its file and the decoded metadata.
    Metadata { file_id: String, metadata: PhotoMetadata },
    /// An ignored field.
    Other,
}

/// One file ready to upload, with everything an attempt needs.
#[derive(Debug, Clone, PartialEq, Eq)]
pub struct UploadJob {
    pub file_id: String,
    pub file_name: String,
    pub data: Vec<u8>,
    pub metadata: PhotoMetadata,
}

/// The whole upload request after intake: the group-targeting fields
/// and one job per file, in first-seen order.
#[derive(Debug, Clone, PartialEq, Eq)]
pub struct UploadBatch {
    pub create_new_group: bool,
    pub group_id: Option<String>,
    pub group_name: Option<String>,
    pub jobs: Vec<UploadJob>,
}

/// Stores a file entry: replaces the entry of the same id in place, or
/// appends a first-seen id at the end.
pub open spec fn spec_store_file(files: Seq<FileEntry>, e: FileEntry) -> Seq<FileEntry>
    decreases files.len(),
{
    if files.len() == 0 {
        seq![e]
    } else if files[0].file_id@ == e.file_id@ {
        seq![e] + files.drop_first()
    } else {
        seq![files[0]] + spec_store_file(files.drop_first(), e)
    }
}

/// Stores a metadata entry, as `spec_store_file` does for files.
pub open spec fn spec_store_meta(metas: Seq<MetaEntry>, e: MetaEntry) -> Seq<MetaEntry>
    decreases metas.len(),
{
    if metas.len() == 0 {
        seq![e]
    } else if metas[0].file_id@ == e.file_id@ {
        seq![e] + metas.drop_first()
    } else {
        seq![metas[0]] + spec_store_meta(metas.drop_first(), e)
    }
}

/// The metadata stored for a file id, if any.
pub open spec fn spec_find_meta(metas: Seq<MetaEntry>, id: Seq<char>) -> Option<PhotoMetadata>
    decreases metas.len(),
{
    if metas.len() == 0 {
        None
    } else if metas[0].file_id@ == id {
        Some(metas[0].metadata)
    } else {
        spec_find_meta(metas.drop_first(), id)
    }
}

#[verifier::loop_isolation(false)]
fn store_file(files: &mut Vec<FileEntry>, e: FileEntry)
    ensures
        final(files)@ == spec_store_file(old(files)@, e),
{
    let ghost orig = old(files)@;
    let mut i: usize = 0;
    proof {
        assert(orig.take(0) =~= Seq::<FileEntry>::empty());
        assert(orig.skip(0) =~= orig);
        assert(Seq::<FileEntry>::empty() + spec_store_file(orig, e) =~= spec_store_file(orig, e));
    }
    while i < files.len()
        invariant
            i <= orig.len(),
            files@ == orig,
            spec_store_file(orig, e) == orig.take(i as int) + spec_store_file(
                orig.skip(i as int),
                e,
            ),
            forall|j: int| 0 <= j < i ==> orig[j].file_id@ != e.file_id@,
        decreases orig.len() - i,
    {
        proof {
            assert(orig.skip(i as int)[0] == orig[i as int]);
            assert(orig.skip(i as int).drop_first() =~= orig.skip(i as int + 1));
        }
        if str_eq(files[i].file_id.as_str(), e.file_id.as_str()) {
            files.remove(i);
            files.insert(i, e);
            proof {
                assert(files@ =~= orig.take(i as int) + (seq![e] + orig.skip(i as int + 1)));
            }
            return ;
        }
        proof {
            assert(orig.take(i as int).push(orig[i as int]) =~= orig.take(i as int + 1));
            assert(orig.take(i as int) + (seq![orig[i as int]] + spec_store_file(
                orig.skip(i as int + 1),
                e,
            )) =~= orig.take(i as int + 1) + spec_store_file(orig.skip(i as int + 1), e));
        }
        i = i + 1;
    }
    proof {
        assert(orig.skip(orig.len() as int) =~= Seq::<FileEntry>::empty());
    }
    files.push(e);
    proof {
        assert(files@ =~= orig.take(orig.len() as int) + seq![e]);
    }
}

#[verifier::loop_isolation(false)]
fn store_meta(metas: &mut Vec<MetaEntry>, e: MetaEntry)
    ensures
        final(metas)@ == spec_store_meta(old(metas)@, e),
{
    let ghost orig = old(metas)@;
    let mut i: usize = 0;
    proof {
        assert(orig.take(0) =~= Seq::<MetaEntry>::empty());
        assert(orig.skip(0) =~= orig);
        assert(Seq::<MetaEntry>::empty() + spec_store_meta(orig, e) =~= spec_store_meta(orig, e));
    }
    while i < metas.len()
        invariant
            i <= orig.len(),
            metas@ == orig,
            spec_store_meta(orig, e) == orig.take(i as int) + spec_store_meta(
                orig.skip(i as int),
                e,
            ),
            forall|j: int| 0 <= j < i ==> orig[j].file_id@ != e.file_id@,
        decreases orig.len() - i,
    {
        proof {
            assert(orig.skip(i as int)[0] == orig[i as int]);
            assert(orig.skip(i as int).drop_first() =~= orig.skip(i as int + 1));
        }
        if str_eq(metas[i].file_id.as_str(), e.file_id.as_str()) {
            metas.remove(i);
            metas.insert(i, e);
            proof {
                assert(metas@ =~= orig.take(i as int) + (seq![e] + orig.skip(i as int + 1)));
            }
            return ;
        }
        proof {
            assert(orig.take(i as int).push(orig[i as int]) =~= orig.take(i as int + 1));
            assert(orig.take(i as int) + (seq![orig[i as int]] + spec_store_meta(
                orig.skip(i as int + 1),
                e,
            )) =~= orig.take(i as int + 1) + spec_store_meta(orig.skip(i as int + 1), e));
        }
        i = i + 1;
    }
    proof {
        assert(orig.skip(orig.len() as int) =~= Seq::<MetaEntry>::empty());
    }
    metas.push(e);
    proof {
        assert(metas@ =~= orig.take(orig.len() as int) + seq![e]);
    }
}

#[verifier::loop_isolation(false)]
fn find_meta(metas: &Vec<MetaEntry>, id: &str) -> (r: Option<PhotoMetadata>)
    ensures
        r == spec_find_meta(metas@, id@),
{
    let mut i: usize = 0;
    proof {
        assert(metas@.skip(0) =~= metas@);
    }
    while i < metas.len()
        invariant
            i <= metas@.len(),
            spec_find_meta(metas@, id@) == spec_find_meta(metas@.skip(i as int), id@),
        decreases metas@.len() - i,
    {
        proof {
            assert(metas@.skip(i as int)[0] == metas@[i as int]);
            assert(metas@.skip(i as int).drop_first() =~= metas@.skip(i as int + 1));
        }
        if str_eq(metas[i].file_id.as_str(), id) {
            return Some(metas[i].metadata.duplicate());
        }
        i = i + 1;
    }
    proof {
        assert(metas@.skip(metas@.len() as int) =~= Seq::<MetaEntry>::empty());
    }
    None
}

/// The batch state after folding the fields, in order, into
/// `(create_new_group, group_id, group_name, files, metas)`.
pub open spec fn spec_collect_rec(
    fields: Seq<ParsedField>,
    st: (bool, Option<String>, Option<String>, Seq<FileEntry>, Seq<MetaEntry>),
) -> (bool, Option<String>, Option<String>, Seq<FileEntry>, Seq<MetaEntry>)
    decreases fields.len(),
{
    if fields.len() == 0 {
        st
    } else {
        let st2 = match fields[0] {
            ParsedField::CreateNewGroup(v) => ((v@ == "true"@), st.1, st.2, st.3, st.4),
            ParsedField::GroupId(v) => (st.0, Some(v), st.2, st.3, st.4),
            ParsedField::GroupName(v) => (st.0, st.1, Some(v), st.3, st.4),
            ParsedField::FileData { file_id, file_name, data } => (
                st.0,
                st.1,
                st.2,
                spec_store_file(st.3, FileEntry { file_id, file_name, data }),
                st.4,
            ),
            ParsedField::Metadata { file_id, metadata } => (
                st.0,
                st.1,
                st.2,
                st.3,
                spec_store_meta(st.4, MetaEntry { file_id, metadata }),
            ),
            ParsedField::Other => st,
        };
        spec_collect_rec(fields.drop_first(), st2)
    }
}

/// The batch state after folding the fields from an empty start.
pub open spec fn spec_collect(fields: Seq<ParsedField>) -> (
    bool,
    Option<String>,
    Option<String>,
    Seq<FileEntry>,
    Seq<MetaEntry>,
) {
    spec_collect_rec(
        fields,
        (false, None::<String>, None::<String>, Seq::<FileEntry>::empty(), Seq::<
            MetaEntry,
        >::empty()),
    )
}

/// Pairs every file with its metadata, in order; the first file whose
/// id has no stored metadata fails the whole pairing with that id.
pub open spec fn spec_jobs(files: Seq<FileEntry>, metas: Seq<MetaEntry>) -> Result<
    Seq<UploadJob>,
    Seq<char>,
>
    decreases files.len(),
{
    if files.len() == 0 {
        Ok(Seq::empty())
    } else {
        match spec_find_meta(metas, files[0].file_id@) {
            None => Err(files[0].file_id@),
            Some(m) => match spec_jobs(files.drop_first(), metas) {
                Ok(rest) => Ok(
                    seq![
                        UploadJob {
                            file_id: files[0].file_id,
                            file_name: files[0].file_name,
                            data: files[0].data,
                            metadata: m,
                        },
                    ] + rest,
                ),
                Err(id) => Err(id),
            },
        }
    }
}

#[verifier::loop_isolation(false)]
fn pair_jobs(files: Vec<FileEntry>, metas: &Vec<MetaEntry>) -> (r: Result<Vec<UploadJob>, ApiError>)
    ensures
        match spec_jobs(files@, metas@) {
            Ok(js) => r matches Ok(v) && v@ == js,
            Err(id) => r matches Err(e) && e matches ApiError::Api(msg) && msg@
                == "Missing metadata for file: "@ + id,
        },
{
    let ghost orig = files@;
    let mut files = files;
    let mut out: Vec<UploadJob> = Vec::new();
    proof {
        if spec_jobs(orig, metas@) is Ok {
            assert(Seq::<UploadJob>::empty() + spec_jobs(orig, metas@)->Ok_0 =~= spec_jobs(
                orig,
                metas@,
            )->Ok_0);
        }
    }
    while files.len() > 0
        invariant
            match spec_jobs(files@, metas@) {
                Ok(rest) => spec_jobs(orig, metas@) == Ok::<Seq<UploadJob>, Seq<char>>(
                    out@ + rest,
                ),
                Err(id) => spec_jobs(orig, metas@) == Err::<Seq<UploadJob>, Seq<char>>(id),
            },
        decreases files@.len(),
    {
        let ghost before = files@;
        let f = files.remove(0);
        proof {
            assert(files@ =~= before.drop_first());
        }
        match find_meta(metas, f.file_id.as_str()) {
            None => {
                let mut msg = String::from_str("Missing metadata for file: ");
                msg.append(f.file_id.as_str());
                return Err(ApiError::Api(msg));
            },
            Some(m) => {
                let ghost prev = out@;
                let job = UploadJob {
                    file_id: f.file_id,
                    file_name: f.file_name,
                    data: f.data,
                    metadata: m,
                };
                out.push(job);
                proof {
                    if spec_jobs(files@, metas@) is Ok {
                        assert(prev + (seq![job] + spec_jobs(files@, metas@)->Ok_0) =~= out@
                            + spec_jobs(files@, metas@)->Ok_0);
                    }
                }
            },
        }
    }
    proof {
        assert(files@ =~= Seq::<FileEntry>::empty());
        if spec_jobs(files@, metas@) is Ok {
            assert(out@ + spec_jobs(files@, metas@)->Ok_0 =~= out@);
        }
    }
    Ok(out)
}

/// Folds an upload request's parsed fields into the batch: the control
/// fields as the last occurrence of each says, and one job per file in
/// first-seen order, each paired with its metadata. A file without
/// metadata fails the batch, naming the first such file id.
#[verifier::loop_isolation(false)]
pub fn collect_upload_batch(fields: Vec<ParsedField>) -> (r: Result<UploadBatch, ApiError>)
    ensures
        ({
            let st = spec_collect(fields@);
            match spec_jobs(st.3, st.4) {
                Ok(js) => r matches Ok(b) && b.create_new_group == st.0 && b.group_id == st.1
                    && b.group_name == st.2 && b.jobs@ == js,
                Err(id) => r matches Err(e) && e matches ApiError::Api(msg) && msg@
                    == "Missing metadata for file: "@ + id,
            }
        }),
{
    let ghost all_fields = fields@;
    let mut fields = fields;
    let mut create_new_group = false;
    let mut group_id: Option<String> = None;
    let mut group_name: Option<String> = None;
    let mut files: Vec<FileEntry> = Vec::new();
    let mut metas: Vec<MetaEntry> = Vec::new();
    proof {
        assert(files@ =~= Seq::<FileEntry>::empty());
        assert(metas@ =~= Seq::<MetaEntry>::empty());
    }
    while fields.len() > 0
        invariant
            spec_collect_rec(
                fields@,
                (create_new_group, group_id, group_name, files@, metas@),
            ) == spec_collect(all_fields),
        decreases fields@.len(),
    {
        let ghost before = fields@;
        let field = fields.remove(0);
        proof {
            assert(fields@ =~= before.drop_first());
        }
        match field {
            ParsedField::CreateNewGroup(v) => {
                create_new_group = parse_bool_flag(v.as_str());
            },
            ParsedField::GroupId(v) => {
                group_id = Some(v);
            },
            ParsedField::GroupName(v) => {
                group_name = Some(v);
            },
            ParsedField::FileData { file_id, file_name, data } => {
                store_file(&mut files, FileEntry { file_id, file_name, data });
            },
            ParsedField::Metadata { file_id, metadata } => {
                store_meta(&mut metas, MetaEntry { file_id, metadata });
            },
            ParsedField::Other => {},
        }
    }
    let jobs = match pair_jobs(files, &metas) {
        Ok(jobs) => jobs,
        Err(e) => {
            return Err(e);
        },
    };
    Ok(UploadBatch { create_new_group, group_id, group_name, jobs })
}

} // verus!
