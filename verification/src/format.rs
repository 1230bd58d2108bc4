//! The validated format specification and the per-line timestamp extraction.
//!
//! A format string is accepted when it contains both the date marker `%d`
//! and the time marker `%t`. The accepted specification records which
//! marker occurs earlier (the order fact) and the literal text standing
//! before the first marker and after the last one (the declared wrapping).
//! Extraction strips that wrapping from a line and hands the remaining
//! token region, under the fixed layout chosen by the order fact, to the
//! external date/time library.

use vstd::prelude::*;

use crate::delegate::delegated_parse;
use crate::delegate::parse_with_layout;
use crate::markers::find_marker;
use crate::markers::first_marker;
use crate::markers::has_marker;
use crate::markers::lemma_first_marker;
use crate::markers::lemma_markers_distinct;
use crate::markers::marker_at;
use crate::timestamp::ParseFailure;
use crate::timestamp::Timestamp;

verus! {

/// Which token marker occurs earlier in the format string.
#[derive(Clone, Copy, Debug, PartialEq, Eq, Structural)]
pub enum TokenOrder {
    DateFirst,
    TimeFirst,
}

/// The fixed internal layout applied when the date token comes first:
/// day/month-name/year, a colon, the time of day, a space, the offset.
pub open spec fn date_first_layout() -> Seq<char> {
    "%d/%b/%Y:%H:%M:%S %z"@
}

/// The fixed internal layout applied when the time token comes first:
/// the time of day, a space, the offset, a colon, day/month-name/year.
pub open spec fn time_first_layout() -> Seq<char> {
    "%H:%M:%S %z:%d/%b/%Y"@
}

/// The layout pattern chosen once from the order fact.
pub open spec fn layout_for(order: TokenOrder) -> Seq<char> {
    match order {
        TokenOrder::DateFirst => date_first_layout(),
        TokenOrder::TimeFirst => time_first_layout(),
    }
}

/// A validated format: the original format string together with the two
/// facts derived from it at construction time. Immutable once built, and
/// only ever built with both markers present.
pub struct FormatSpecification {
    source: String,
    order: TokenOrder,
    prefix: String,
    suffix: String,
}

impl FormatSpecification {
    /// The characters of the format string this specification was built from.
    pub closed spec fn source_seq(&self) -> Seq<char> {
        self.source@
    }

    /// The derived order fact.
    pub closed spec fn order_fact(&self) -> TokenOrder {
        self.order
    }

    /// The literal text the format declares before the token region.
    pub closed spec fn prefix_seq(&self) -> Seq<char> {
        self.prefix@
    }

    /// The literal text the format declares after the token region.
    pub closed spec fn suffix_seq(&self) -> Seq<char> {
        self.suffix@
    }

    /// Well-formedness: both markers occur in the source, the order fact
    /// names whichever occurs earlier, and prefix and suffix are exactly
    /// the source text before the earlier marker and after the later one.
    pub open spec fn wf(&self) -> bool {
        let s = self.source_seq();
        &&& first_marker(s, 'd') is Some
        &&& first_marker(s, 't') is Some
        &&& {
            let di = first_marker(s, 'd')->Some_0;
            let ti = first_marker(s, 't')->Some_0;
            let start = if di < ti { di } else { ti };
            let last = if di < ti { ti } else { di };
            &&& self.order_fact() == (if ti < di {
                TokenOrder::TimeFirst
            } else {
                TokenOrder::DateFirst
            })
            &&& self.prefix_seq() == s.subrange(0, start)
            &&& self.suffix_seq() == s.subrange(last + 2, s.len() as int)
        }
    }
}

impl FormatSpecification {
    /// The derived order fact.
    pub fn order(&self) -> (r: TokenOrder)
        ensures
            r == self.order_fact(),
    {
        self.order
    }

    /// The format string this specification was built from.
    pub fn source_text(&self) -> (r: &str)
        ensures
            r@ == self.source_seq(),
    {
        self.source.as_str()
    }

    /// The literal text the format declares before the token region.
    pub fn prefix_text(&self) -> (r: &str)
        ensures
            r@ == self.prefix_seq(),
    {
        self.prefix.as_str()
    }

    /// The literal text the format declares after the token region.
    pub fn suffix_text(&self) -> (r: &str)
        ensures
            r@ == self.suffix_seq(),
    {
        self.suffix.as_str()
    }
}

/// Accepts a format string exactly when it contains both the date marker
/// and the time marker, and then derives the order fact and the declared
/// wrapping from the earliest occurrence of each marker.
pub fn validate(format: &str) -> (r: Option<FormatSpecification>)
    ensures
        (r is Some) <==> (has_marker(format@, 'd') && has_marker(format@, 't')),
        r matches Some(sp) ==> sp.wf() && sp.source_seq() == format@,
{
    proof {
        lemma_first_marker(format@, 'd');
        lemma_first_marker(format@, 't');
    }
    let dm = find_marker(format, 'd');
    let tm = find_marker(format, 't');
    match (dm, tm) {
        (Some(di), Some(ti)) => {
            proof {
                if di == ti {
                    lemma_markers_distinct(format@, di as int, 'd', 't');
                }
            }
            let start: usize = if di < ti { di } else { ti };
            let last: usize = if di < ti { ti } else { di };
            let n: usize = format.unicode_len();
            let prefix = format.substring_char(0, start).to_owned();
            let suffix = format.substring_char(last + 2, n).to_owned();
            let order = if ti < di {
                TokenOrder::TimeFirst
            } else {
                TokenOrder::DateFirst
            };
            Some(FormatSpecification { source: format.to_owned(), order, prefix, suffix })
        },
        _ => None,
    }
}

/// The line begins with the declared prefix and ends with the declared
/// suffix, with room for both.
pub open spec fn carries_wrapping(prefix: Seq<char>, suffix: Seq<char>, line: Seq<char>) -> bool {
    &&& prefix.len() + suffix.len() <= line.len()
    &&& line.subrange(0, prefix.len() as int) == prefix
    &&& line.subrange(line.len() - suffix.len(), line.len() as int) == suffix
}

/// What is left of the line once the declared wrapping is stripped.
pub open spec fn token_region(prefix: Seq<char>, suffix: Seq<char>, line: Seq<char>) -> Seq<char> {
    line.subrange(prefix.len() as int, line.len() - suffix.len())
}

/// The outcome of extraction, as a pure function of the specification and
/// the line: a wrapping mismatch when the line does not carry the declared
/// literal text, otherwise exactly what the delegated parse answers for the
/// stripped token region under the chosen layout.
pub open spec fn extract_spec(sp: FormatSpecification, line: Seq<char>) -> Result<
    Timestamp,
    ParseFailure,
> {
    if !carries_wrapping(sp.prefix_seq(), sp.suffix_seq(), line) {
        Err(ParseFailure::WrappingMismatch)
    } else {
        match delegated_parse(layout_for(sp.order_fact()), token_region(sp.prefix_seq(), sp.suffix_seq(), line)) {
            Some(t) => Ok(t),
            None => Err(ParseFailure::MalformedTokenText),
        }
    }
}

/// True exactly when the `expected` characters stand in `line` starting at
/// position `at`.
fn chars_match_at(line: &str, at: usize, expected: &str) -> (r: bool)
    requires
        at + expected@.len() <= line@.len(),
        at + expected@.len() <= usize::MAX,
    ensures
        r <==> line@.subrange(at as int, at + expected@.len()) == expected@,
{
    let m = expected.unicode_len();
    let mut j: usize = 0;
    while j < m
        invariant
            m == expected@.len(),
            at + m <= line@.len(),
            at + m <= usize::MAX,
            j <= m,
            forall|k: int| 0 <= k < j ==> line@[at + k] == expected@[k],
        decreases m - j,
    {
        if line.get_char(at + j) != expected.get_char(j) {
            assert(line@.subrange(at as int, at + expected@.len())[j as int] != expected@[j as int]);
            return false;
        }
        j = j + 1;
    }
    assert(line@.subrange(at as int, at + expected@.len()) =~= expected@);
    true
}

impl FormatSpecification {
    /// Extracts a timestamp from one line: strips the declared wrapping,
    /// then applies the delegated parse under the layout chosen once from
    /// the order fact. Pure; a failure is reported, never retried.
    pub fn extract(&self, line: &str) -> (r: Result<Timestamp, ParseFailure>)
        ensures
            r == extract_spec(*self, line@),
    {
        let n: usize = line.unicode_len();
        let pn: usize = self.prefix.as_str().unicode_len();
        let sn: usize = self.suffix.as_str().unicode_len();
        if n < pn || n - pn < sn {
            return Err(ParseFailure::WrappingMismatch);
        }
        if !chars_match_at(line, 0, self.prefix.as_str()) {
            return Err(ParseFailure::WrappingMismatch);
        }
        if !chars_match_at(line, n - sn, self.suffix.as_str()) {
            return Err(ParseFailure::WrappingMismatch);
        }
        let region = line.substring_char(pn, n - sn);
        let pattern: &str = match self.order {
            TokenOrder::DateFirst => "%d/%b/%Y:%H:%M:%S %z",
            TokenOrder::TimeFirst => "%H:%M:%S %z:%d/%b/%Y",
        };
        match parse_with_layout(region, pattern) {
            Some(t) => Ok(t),
            None => Err(ParseFailure::MalformedTokenText),
        }
    }
}

} // verus!
