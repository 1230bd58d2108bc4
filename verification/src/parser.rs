//! The parser abstraction and its implementation backed by chrono.

use vstd::prelude::*;

use crate::format::FormatSpecification;
use crate::format::extract_spec;
use crate::format::validate;
use crate::markers::has_marker;
use crate::timestamp::ParseFailure;
use crate::timestamp::Timestamp;

verus! {

/// A capability for turning one line of text into a timestamp.
pub trait DateTimeParser {
    fn parse_datetime(&self, text: &str) -> Result<Timestamp, ParseFailure>;
}

/// A parser configured with a validated format, delegating the token region
/// of each line to chrono.
pub struct ChronoDateTimeParser {
    specification: FormatSpecification,
}

impl ChronoDateTimeParser {
    /// The validated format this parser was configured with.
    pub closed spec fn format_spec(&self) -> FormatSpecification {
        self.specification
    }

    /// Accepts a line format exactly when it contains both token markers.
    pub fn new(line_format: &str) -> (r: Option<ChronoDateTimeParser>)
        ensures
            (r is Some) <==> (has_marker(line_format@, 'd') && has_marker(line_format@, 't')),
            r matches Some(p) ==> p.format_spec().wf() && p.format_spec().source_seq()
                == line_format@,
    {
        match validate(line_format) {
            Some(sp) => Some(ChronoDateTimeParser { specification: sp }),
            None => None,
        }
    }
}

impl DateTimeParser for ChronoDateTimeParser {
    fn parse_datetime(&self, text: &str) -> (r: Result<Timestamp, ParseFailure>)
        ensures
            r == extract_spec(self.format_spec(), text@),
    {
        self.specification.extract(text)
    }
}

} // verus!
