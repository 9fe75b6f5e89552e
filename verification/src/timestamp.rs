//! Timestamp parsing.
//!
//! The service sends timestamps as RFC 3339-like strings.  This is the
//! one attribute whose text is assumed well-formed: a string that does
//! not parse is surfaced to the caller of the normalizer as an error,
//! not downgraded to absence.  The parsed value is carried as
//! milliseconds since the Unix epoch, a plain integer.

use vstd::prelude::*;

verus! {

/// What parsing an RFC 3339-like timestamp string yields, in
/// milliseconds since the Unix epoch: `None` exactly when the text
/// does not parse.  The result is a function of the characters alone.
pub uninterp spec fn parsed_timestamp(s: Seq<char>) -> Option<i64>;

/// Relies on chrono's `FromStr` for `DateTime<Utc>` (a relaxed form of
/// RFC 3339) and `timestamp_millis`: success and value depend on the
/// input text alone, and the instant fits an `i64` of milliseconds for
/// every date chrono can represent.
#[verifier::external_body]
pub fn parse_timestamp(s: &str) -> (r: Option<i64>)
    ensures
        r == parsed_timestamp(s@),
{
    match s.parse::<chrono::DateTime<chrono::Utc>>() {
        Ok(t) => Some(t.timestamp_millis()),
        Err(_) => None,
    }
}

} // verus!
