//! The commit record handed to callers, and the defaults that fill it.

use vstd::prelude::*;

verus! {

/// Earliest second that renders as a calendar date (year -262143, January 1).
pub const MIN_DISPLAY_SECS: i64 = -8334601228800;

/// Latest second that renders as a calendar date (year 262142, December 31,
/// 23:59:59).
pub const MAX_DISPLAY_SECS: i64 = 8210266876799;

/// The timestamp can be rendered as `YYYY-MM-DD HH:MM:SS`.
pub open spec fn displayable_time(secs: int) -> bool {
    MIN_DISPLAY_SECS <= secs <= MAX_DISPLAY_SECS
}

/// What `%Y-%m-%d %H:%M:%S` renders for a UTC timestamp.
pub uninterp spec fn utc_text_of(secs: i64) -> Seq<char>;

/// Relies on `chrono::DateTime::from_timestamp` (`None` exactly outside the
/// representable range of dates) and on its `format` with
/// `%Y-%m-%d %H:%M:%S`, whose text depends on the timestamp alone.
#[verifier::external_body]
fn format_timestamp(secs: i64) -> (r: Option<String>)
    ensures
        r.is_some() == displayable_time(secs as int),
        r matches Some(t) ==> t@ == utc_text_of(secs),
{
    match chrono::DateTime::from_timestamp(secs, 0) {
        Some(dt) => Some(dt.format("%Y-%m-%d %H:%M:%S").to_string()),
        None => None,
    }
}

/// The commit time as `YYYY-MM-DD HH:MM:SS` in UTC, or `None` where the
/// timestamp lies outside the dates that can be rendered.
pub fn render_time(secs: i64) -> (r: Option<String>)
    ensures
        r.is_some() == displayable_time(secs as int),
        r matches Some(t) ==> t@ == utc_text_of(secs),
{
    format_timestamp(secs)
}

/// One commit that passed the query.
pub struct CommitInfo {
    pub id: String,
    pub message: String,
    pub author: String,
    pub email: String,
    pub time: i64,
    pub formatted_time: String,
    pub lines_added: usize,
    pub lines_deleted: usize,
}

/// The sentinel that stands for a missing author name.
pub open spec fn unknown_author() -> Seq<char> {
    seq!['U', 'n', 'k', 'n', 'o', 'w', 'n']
}

/// The author name, or `"Unknown"` when the commit records none.
pub fn author_or_unknown(name: Option<String>) -> (r: String)
    ensures
        r@ == match name {
            Some(n) => n@,
            None => unknown_author(),
        },
{
    match name {
        Some(n) => n,
        None => {
            let r = String::from_str("Unknown");
            proof {
                reveal_strlit("Unknown");
                assert(r@ =~= unknown_author());
            }
            r
        },
    }
}

/// The text, or the empty string when it is missing.
pub fn text_or_empty(text: Option<String>) -> (r: String)
    ensures
        r@ == match text {
            Some(t) => t@,
            None => Seq::<char>::empty(),
        },
{
    match text {
        Some(t) => t,
        None => String::new(),
    }
}

impl CommitInfo {
    /// Builds the record of a commit that passed the filter; missing message
    /// and email become empty, and missing line counts become `(0, 0)`.
    pub fn assemble(
        id: String,
        message: Option<String>,
        author: String,
        email: Option<String>,
        time: i64,
        formatted_time: String,
        stats: Option<(usize, usize)>,
    ) -> (r: CommitInfo)
        ensures
            r.id@ == id@,
            r.message@ == (match message {
                Some(m) => m@,
                None => Seq::<char>::empty(),
            }),
            r.author@ == author@,
            r.email@ == (match email {
                Some(e) => e@,
                None => Seq::<char>::empty(),
            }),
            r.time == time,
            r.formatted_time@ == formatted_time@,
            r.lines_added == (match stats {
                Some(s) => s.0,
                None => 0,
            }),
            r.lines_deleted == (match stats {
                Some(s) => s.1,
                None => 0,
            }),
    {
        let (lines_added, lines_deleted) = match stats {
            Some(s) => s,
            None => (0, 0),
        };
        CommitInfo {
            id,
            message: text_or_empty(message),
            author,
            email: text_or_empty(email),
            time,
            formatted_time,
            lines_added,
            lines_deleted,
        }
    }
}

} // verus!
