//! The commit filter: author substring (case-insensitive) and an inclusive
//! time window.

use vstd::prelude::*;

verus! {

/// `needle` occurs as a contiguous run inside `hay` (the empty run occurs
/// everywhere).
pub open spec fn contains_seq(hay: Seq<char>, needle: Seq<char>) -> bool {
    exists|i: int|
        0 <= i && i + needle.len() <= hay.len() && #[trigger] hay.subrange(i, i + needle.len())
            == needle
}

/// What `str::to_lowercase` makes of a string.
pub uninterp spec fn lower_of(s: Seq<char>) -> Seq<char>;

/// Author condition: an empty filter admits every author; otherwise the
/// lower-cased filter must occur in the lower-cased author name.
pub open spec fn author_matches(author: Seq<char>, filter: Seq<char>) -> bool {
    filter.len() == 0 || contains_seq(lower_of(author), lower_of(filter))
}

/// Time condition: both bounds inclusive.
pub open spec fn in_window(time: int, start: int, end: int) -> bool {
    start <= time <= end
}

/// The whole filter: both conditions.
pub open spec fn passes_filter(
    author: Seq<char>,
    time: int,
    filter: Seq<char>,
    start: int,
    end: int,
) -> bool {
    author_matches(author, filter) && in_window(time, start, end)
}

/// Relies on `str::to_lowercase`: the result depends on the characters alone.
#[verifier::external_body]
fn lowercase(s: &str) -> (r: String)
    ensures
        r@ == lower_of(s@),
{
    s.to_lowercase()
}

/// Relies on `str::contains` with a `&str` pattern: true exactly when the
/// pattern occurs as a substring.
#[verifier::external_body]
fn str_contains(hay: &str, needle: &str) -> (r: bool)
    ensures
        r == contains_seq(hay@, needle@),
{
    hay.contains(needle)
}

/// The filter once both names are lower-cased: `folded_author` and
/// `folded_filter` stand for the lower-cased author name and filter, and
/// `filter` for the filter as given (its emptiness decides).
pub fn matches_folded(
    folded_author: &str,
    filter: &str,
    folded_filter: &str,
    time: i64,
    start: i64,
    end: i64,
) -> (r: bool)
    ensures
        r == ((filter@.len() == 0 || contains_seq(folded_author@, folded_filter@)) && in_window(
            time as int,
            start as int,
            end as int,
        )),
{
    if time < start || time > end {
        return false;
    }
    if filter.is_empty() {
        return true;
    }
    str_contains(folded_author, folded_filter)
}

/// Does a commit by `author_name` at `commit_time` pass the query?
pub fn commit_matches(
    author_name: &str,
    commit_time: i64,
    author_filter: &str,
    start_time: i64,
    end_time: i64,
) -> (r: bool)
    ensures
        r == passes_filter(
            author_name@,
            commit_time as int,
            author_filter@,
            start_time as int,
            end_time as int,
        ),
{
    let folded_author = lowercase(author_name);
    let folded_filter = lowercase(author_filter);
    matches_folded(
        folded_author.as_str(),
        author_filter,
        folded_filter.as_str(),
        commit_time,
        start_time,
        end_time,
    )
}

} // verus!
