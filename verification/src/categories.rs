//! Category filtering: parse a raw comma-separated category string into
//! category names, render the remote-query predicate the upstream
//! service understands, and apply the defensive client-side result cap.
//!
//! No categories yield no filter clause; one category yields an
//! `eq`-operator predicate; several yield an `in`-operator predicate
//! over all of them, in order.

use vstd::prelude::*;

use crate::models::PinataFile;
use crate::text::{spec_split_commas, spec_trim, split_commas, trim_str};

verus! {

/// The category names of a raw comma-separated string: the pieces
/// between the commas, each without surrounding whitespace.
pub open spec fn spec_parse_categories(s: Seq<char>) -> Seq<Seq<char>> {
    spec_split_commas(s).map_values(|p: Seq<char>| spec_trim(p))
}

/// Parses a raw comma-separated category string.
pub fn parse_categories(s: &str) -> (r: Vec<String>)
    ensures
        r.deep_view() == spec_parse_categories(s@),
{
    let pieces = split_commas(s);
    let mut out: Vec<String> = Vec::new();
    let mut i: usize = 0;
    while i < pieces.len()
        invariant
            i <= pieces@.len(),
            pieces.deep_view() == spec_split_commas(s@),
            out.deep_view().len() == i,
            forall|j: int|
                0 <= j < i ==> out.deep_view()[j] == spec_trim(pieces.deep_view()[j]),
        decreases pieces@.len() - i,
    {
        let ghost prev_dv = out.deep_view();
        let trimmed = trim_str(pieces[i].as_str()).to_owned();
        out.push(trimmed);
        proof {
            assert(out.deep_view() =~= prev_dv.push(trimmed@));
        }
        i = i + 1;
    }
    proof {
        assert(out.deep_view() =~= spec_parse_categories(s@));
    }
    out
}

/// The `eq`-operator predicate over one category.
pub open spec fn spec_eq_filter_json(cat: Seq<char>) -> Seq<char> {
    "{\"category\":{\"value\":\""@ + cat + "\",\"op\":\"eq\"}}"@
}

/// The category names each in double quotes, joined by commas.
pub open spec fn spec_quoted_join(cats: Seq<Seq<char>>) -> Seq<char>
    decreases cats.len(),
{
    if cats.len() == 0 {
        Seq::empty()
    } else {
        "\""@ + cats[0] + "\""@ + (if cats.len() > 1 {
            ","@ + spec_quoted_join(cats.drop_first())
        } else {
            Seq::empty()
        })
    }
}

/// The `in`-operator predicate over several categories.
pub open spec fn spec_in_filter_json(cats: Seq<Seq<char>>) -> Seq<char> {
    "{\"category\":{\"value\":["@ + spec_quoted_join(cats) + "],\"op\":\"in\"}}"@
}

/// The filter clause for a list of category names: none when the list
/// is empty, the `eq` predicate for one name, the `in` predicate for
/// several.
pub open spec fn spec_category_filter_json(cats: Seq<Seq<char>>) -> Option<Seq<char>> {
    if cats.len() == 0 {
        None
    } else if cats.len() == 1 {
        Some(spec_eq_filter_json(cats[0]))
    } else {
        Some(spec_in_filter_json(cats))
    }
}

/// Renders the remote-query filter clause for the given category names.
pub fn category_filter_json(categories: &Vec<String>) -> (r: Option<String>)
    ensures
        r is Some <==> categories@.len() > 0,
        r is Some ==> Some(r->0@) == spec_category_filter_json(categories.deep_view()),
{
    let n = categories.len();
    if n == 0 {
        return None;
    }
    if n == 1 {
        let mut s = String::from_str("{\"category\":{\"value\":\"");
        s.append(categories[0].as_str());
        s.append("\",\"op\":\"eq\"}}");
        proof {
            assert(s@ =~= spec_eq_filter_json(categories.deep_view()[0]));
        }
        return Some(s);
    }
    let ghost dv = categories.deep_view();
    let mut joined = String::new();
    let mut i: usize = 0;
    while i < n
        invariant
            i <= n,
            n == categories@.len(),
            dv == categories.deep_view(),
            i == 0 ==> joined@ == Seq::<char>::empty(),
            0 < i < n ==> joined@ + ","@ + spec_quoted_join(dv.skip(i as int))
                == spec_quoted_join(dv),
            i == n ==> joined@ == spec_quoted_join(dv),
        decreases n - i,
    {
        if i > 0 {
            joined.append(",");
        }
        joined.append("\"");
        joined.append(categories[i].as_str());
        joined.append("\"");
        proof {
            assert(dv.skip(i as int)[0] == dv[i as int]);
            assert(dv.skip(i as int).drop_first() =~= dv.skip(i as int + 1));
            if i == 0 {
                assert(joined@ =~= "\""@ + dv[0] + "\""@);
            }
        }
        i = i + 1;
        proof {
            if i < n {
                assert(joined@ + ","@ + spec_quoted_join(dv.skip(i as int)) =~= spec_quoted_join(
                    dv,
                ));
            } else {
                assert(joined@ =~= spec_quoted_join(dv));
            }
        }
    }
    let mut s = String::from_str("{\"category\":{\"value\":[");
    s.append(joined.as_str());
    s.append("],\"op\":\"in\"}}");
    proof {
        assert(s@ =~= spec_in_filter_json(dv));
    }
    Some(s)
}

/// Applies the defensive client-side cap: at most `limit` files, the
/// earliest kept, the order untouched; no cap leaves the list as it is.
pub fn apply_limit(files: Vec<PinataFile>, limit: Option<usize>) -> (r: Vec<PinataFile>)
    ensures
        match limit {
            None => r@ == files@,
            Some(cap) => if files@.len() <= cap {
                r@ == files@
            } else {
                r@ == files@.take(cap as int)
            },
        },
{
    let mut files = files;
    if let Some(cap) = limit {
        files.truncate(cap);
    }
    files
}

} // verus!
