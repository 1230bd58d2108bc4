//! Properties of validation and extraction that hold for every input.

use vstd::prelude::*;

use crate::delegate::delegated_parse;
use crate::format::FormatSpecification;
use crate::format::TokenOrder;
use crate::format::carries_wrapping;
use crate::format::extract_spec;
use crate::format::layout_for;
use crate::format::token_region;
use crate::markers::first_marker;
use crate::markers::lemma_first_marker;
use crate::markers::marker_at;
use crate::timestamp::ParseFailure;
use crate::timestamp::Timestamp;

verus! {

/// A well-formed specification's order fact names whichever marker occurs
/// earlier in its source: date-first exactly when the earliest date marker
/// stands before the earliest time marker.
pub proof fn lemma_order_fact_matches_earlier_marker(
    sp: FormatSpecification,
    di: int,
    ti: int,
)
    requires
        sp.wf(),
        marker_at(sp.source_seq(), di, 'd'),
        forall|j: int| 0 <= j < di ==> !marker_at(sp.source_seq(), j, 'd'),
        marker_at(sp.source_seq(), ti, 't'),
        forall|j: int| 0 <= j < ti ==> !marker_at(sp.source_seq(), j, 't'),
    ensures
        sp.order_fact() == (if di < ti {
            TokenOrder::DateFirst
        } else {
            TokenOrder::TimeFirst
        }),
{
    let s = sp.source_seq();
    lemma_first_marker(s, 'd');
    lemma_first_marker(s, 't');
    let kd = first_marker(s, 'd')->Some_0;
    let kt = first_marker(s, 't')->Some_0;
    assert(kd == di);
    assert(kt == ti);
}

/// Wrapping recovery: when a line is exactly the declared literal prefix,
/// then some token region, then the declared literal suffix, extraction
/// strips precisely that wrapping, and its outcome is exactly what the
/// delegated parse answers for the token region under the layout chosen
/// from the order fact.
pub proof fn lemma_extraction_reaches_token_region(
    sp: FormatSpecification,
    region: Seq<char>,
    line: Seq<char>,
)
    requires
        line == sp.prefix_seq() + region + sp.suffix_seq(),
    ensures
        extract_spec(sp, line) == (match delegated_parse(layout_for(sp.order_fact()), region) {
            Some(t) => Ok::<Timestamp, ParseFailure>(t),
            None => Err::<Timestamp, ParseFailure>(ParseFailure::MalformedTokenText),
        }),
{
    let p = sp.prefix_seq();
    let s = sp.suffix_seq();
    assert(line.len() == p.len() + region.len() + s.len());
    assert(line.subrange(0, p.len() as int) =~= p);
    assert(line.subrange(line.len() - s.len(), line.len() as int) =~= s);
    assert(carries_wrapping(p, s, line));
    assert(token_region(p, s, line) =~= region);
}

/// Extraction is a pure function of the specification and the line: any
/// two outcomes that the extractor's contract allows for the same pair are
/// one and the same. Re-running extraction can never change the answer.
pub proof fn lemma_extraction_deterministic(
    sp: FormatSpecification,
    line: Seq<char>,
    r1: Result<Timestamp, ParseFailure>,
    r2: Result<Timestamp, ParseFailure>,
)
    requires
        r1 == extract_spec(sp, line),
        r2 == extract_spec(sp, line),
    ensures
        r1 == r2,
{
}

} // verus!
