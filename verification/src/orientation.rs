//! The cyclic orientation group of a corner piece.
//!
//! A corner can sit in its slot untwisted (value 0) or twisted one of two
//! ways (values 1 and 2); stacking twists adds them modulo 3.

use vstd::prelude::*;

verus! {

/// Addition in the cyclic group of corner orientations: the twist a piece
/// already carries plus the twist a turn imparts, modulo 3.
pub open spec fn orientation_sum(a: u8, b: u8) -> u8 {
    ((a + b) % 3) as u8
}

/// Orientation composition is associative, as addition modulo 3 must be.
pub proof fn lemma_orientation_sum_associative(a: u8, b: u8, c: u8)
    requires
        a < 3,
        b < 3,
        c < 3,
    ensures
        orientation_sum(orientation_sum(a, b), c) == orientation_sum(a, orientation_sum(b, c)),
{
}

/// Combines two corner orientation values by an explicit, total table over
/// all nine pairs of the cyclic group; the contract pins each entry to
/// addition modulo 3.
pub fn compose_orientation(a: u8, b: u8) -> (r: u8)
    requires
        a < 3,
        b < 3,
    ensures
        r == orientation_sum(a, b),
        r < 3,
{
    match (a, b) {
        (0, 0) => 0,
        (0, 1) => 1,
        (0, 2) => 2,
        (1, 0) => 1,
        (1, 1) => 2,
        (1, 2) => 0,
        (2, 0) => 2,
        (2, 1) => 0,
        (2, 2) => 1,
        _ => 0,
    }
}

} // verus!
