//! The boundary with the external date/time library.
//!
//! The core hands the library a fixed layout pattern and the token region of
//! a line; the library answers with a concrete instant-with-offset or a
//! parse failure. What it answers is a pure function of the two strings, but
//! far too intricate to restate here, so the result is only given a name,
//! `delegated_parse`, and every contract above this boundary speaks of that
//! name.

use vstd::prelude::*;

use crate::timestamp::Timestamp;

use chrono::Datelike;
use chrono::Timelike;

verus! {

pub uninterp spec fn delegated_parse(pattern: Seq<char>, text: Seq<char>) -> Option<Timestamp>;

/// Relies on chrono's `DateTime::parse_from_str` (together with the
/// `Datelike`/`Timelike` field accessors and `FixedOffset::local_minus_utc`):
/// it parses `text` against the strftime pattern `pattern`, returning a
/// result that depends on the two strings alone, and it never panics.
#[verifier::external_body]
pub(crate) fn parse_with_layout(text: &str, pattern: &str) -> (r: Option<Timestamp>)
    ensures
        r == delegated_parse(pattern@, text@),
{
    match chrono::DateTime::parse_from_str(text, pattern) {
        Ok(d) => Some(Timestamp {
            year: d.year(),
            month: d.month(),
            day: d.day(),
            hour: d.hour(),
            minute: d.minute(),
            second: d.second(),
            offset_seconds: d.offset().local_minus_utc(),
        }),
        Err(_) => None,
    }
}

} // verus!
