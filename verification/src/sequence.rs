//! Comparison of wrapping tick numbers.

use vstd::prelude::*;

verus! {

/// `s1` comes after `s2` on the wrapping `u16` tick circle: it is ahead by at
/// most half the circle.
pub open spec fn seq_greater(s1: u16, s2: u16) -> bool {
    ((s1 > s2) && (s1 - s2 <= 32768)) || ((s1 < s2) && (s2 - s1 > 32768))
}

/// Calls `naia_shared::sequence_greater_than`. The contract claims that it
/// computes exactly `seq_greater`, the formula its source holds.
#[verifier::external_body]
pub(crate) fn sequence_greater_than(s1: u16, s2: u16) -> (r: bool)
    ensures
        r == seq_greater(s1, s2),
{
    naia_shared::sequence_greater_than(s1, s2)
}

} // verus!
