//! Scanning a format string for its two-character token markers.
//!
//! A token marker is a `'%'` immediately followed by a designator character
//! (`'d'` for the calendar date, `'t'` for the time of day). Everything here
//! is generic over the designator, and identifies the *earliest* occurrence
//! of a marker in the string.

use vstd::prelude::*;

verus! {

/// A marker for `mark` starts at position `i` of `s`.
pub open spec fn marker_at(s: Seq<char>, i: int, mark: char) -> bool {
    &&& 0 <= i
    &&& i + 2 <= s.len()
    &&& s[i] == '%'
    &&& s[i + 1] == mark
}

/// `s` contains a marker for `mark` somewhere.
pub open spec fn has_marker(s: Seq<char>, mark: char) -> bool {
    exists|i: int| marker_at(s, i, mark)
}

/// The earliest position at or after `i` where a marker for `mark` starts.
pub open spec fn first_marker_from(s: Seq<char>, mark: char, i: int) -> Option<int>
    decreases s.len() - i,
{
    if i < 0 || i + 2 > s.len() {
        None
    } else if s[i] == '%' && s[i + 1] == mark {
        Some(i)
    } else {
        first_marker_from(s, mark, i + 1)
    }
}

/// The earliest position in `s` where a marker for `mark` starts.
pub open spec fn first_marker(s: Seq<char>, mark: char) -> Option<int> {
    first_marker_from(s, mark, 0)
}

/// What `first_marker_from` returns is the least marker position at or
/// after `i`, and it returns nothing exactly when no marker starts there.
proof fn lemma_first_marker_from(s: Seq<char>, mark: char, i: int)
    requires
        0 <= i,
    ensures
        match first_marker_from(s, mark, i) {
            Some(k) => {
                &&& i <= k
                &&& marker_at(s, k, mark)
                &&& forall|j: int| i <= j < k ==> !marker_at(s, j, mark)
            },
            None => forall|j: int| i <= j ==> !marker_at(s, j, mark),
        },
    decreases s.len() - i,
{
    if i + 2 > s.len() {
    } else if s[i] == '%' && s[i + 1] == mark {
    } else {
        lemma_first_marker_from(s, mark, i + 1);
        assert(!marker_at(s, i, mark));
    }
}

/// `first_marker` finds the least marker position, and finds one exactly
/// when the string has a marker at all.
pub proof fn lemma_first_marker(s: Seq<char>, mark: char)
    ensures
        match first_marker(s, mark) {
            Some(k) => {
                &&& marker_at(s, k, mark)
                &&& forall|j: int| 0 <= j < k ==> !marker_at(s, j, mark)
            },
            None => !has_marker(s, mark),
        },
        (first_marker(s, mark) is Some) <==> has_marker(s, mark),
{
    lemma_first_marker_from(s, mark, 0);
}

/// One position cannot start a marker for two distinct designators.
pub proof fn lemma_markers_distinct(s: Seq<char>, i: int, m1: char, m2: char)
    requires
        marker_at(s, i, m1),
        marker_at(s, i, m2),
    ensures
        m1 == m2,
{
}

/// Finds the earliest marker for `mark` in `s`, if there is one.
pub fn find_marker(s: &str, mark: char) -> (r: Option<usize>)
    ensures
        r matches Some(i) ==> first_marker(s@, mark) == Some(i as int),
        r is None ==> first_marker(s@, mark) is None,
{
    let n = s.unicode_len();
    if n < 2 {
        return None;
    }
    let mut i: usize = 0;
    while i <= n - 2
        invariant
            n == s@.len(),
            2 <= n,
            i <= n - 1,
            first_marker(s@, mark) == first_marker_from(s@, mark, i as int),
        decreases n - i,
    {
        let c0 = s.get_char(i);
        let c1 = s.get_char(i + 1);
        if c0 == '%' && c1 == mark {
            return Some(i);
        }
        i = i + 1;
    }
    None
}

} // verus!
