//! The values a successful extraction produces, and the ways it can fail.

use vstd::prelude::*;

verus! {

/// A timezone-aware timestamp: a calendar date, a time of day, and a fixed
/// UTC offset in seconds (positive east of UTC, negative west of it).
#[derive(Clone, Copy, Debug, PartialEq, Eq, Structural)]
pub struct Timestamp {
    pub year: i32,
    pub month: u32,
    pub day: u32,
    pub hour: u32,
    pub minute: u32,
    pub second: u32,
    pub offset_seconds: i32,
}

/// Why extracting a timestamp from one line failed. Never fatal: the caller
/// is expected to skip or report the offending line and continue.
#[derive(Clone, Copy, Debug, PartialEq, Eq, Structural)]
pub enum ParseFailure {
    /// The line does not carry the literal text that the format declares
    /// around the token region.
    WrappingMismatch,
    /// The token region of the line does not conform to the fixed layout
    /// chosen from the format's token order.
    MalformedTokenText,
}

} // verus!
