//! The order in which an error lists locale codes: shorter codes first, then
//! alphabetically.

use vstd::prelude::*;
use std::cmp::Ordering;
use crate::text::{chars_of, compare_text, text_lt, Comparison};

verus! {

/// `a` is listed before `b`: it is shorter, or as long and alphabetically first.
pub open spec fn code_before(a: Seq<char>, b: Seq<char>) -> bool {
    a.len() < b.len() || (a.len() == b.len() && text_lt(a, b))
}

/// No code of `s` is listed before one that precedes it.
pub open spec fn listed_in_order(s: Seq<Seq<char>>) -> bool {
    forall|i: int, j: int| 0 <= i < j < s.len() ==> !code_before(#[trigger] s[j], #[trigger] s[i])
}

/// Compares two codes in listing order.
pub fn order_codes(a: &&str, b: &&str) -> (r: Ordering)
    ensures
        (r == Ordering::Less) == code_before(a@, b@),
        (r == Ordering::Greater) == code_before(b@, a@),
        (r == Ordering::Equal) == (a@ == b@),
{
    let x = chars_of(*a);
    let y = chars_of(*b);
    if x.len() < y.len() {
        Ordering::Less
    } else if y.len() < x.len() {
        Ordering::Greater
    } else {
        match compare_text(&x, &y) {
            Comparison::Before => Ordering::Less,
            Comparison::Same => Ordering::Equal,
            Comparison::After => Ordering::Greater,
        }
    }
}

/// std's `slice::sort_by`, with `order_codes` as the comparison: the codes
/// afterwards are the same codes, in listing order.
#[verifier::external_body]
pub(crate) fn sort_codes(codes: &mut Vec<&str>)
    ensures
        final(codes)@.map_values(|c: &str| c@).to_multiset() == old(codes)@.map_values(
            |c: &str| c@,
        ).to_multiset(),
        listed_in_order(final(codes)@.map_values(|c: &str| c@)),
{
    codes.sort_by(|a, b| order_codes(a, b));
}

} // verus!
