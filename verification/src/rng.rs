//! The one place where chance enters: drawing the cell a pickup spawns on.

use rand::Rng;
use vstd::prelude::*;

verus! {

/// Draws a number below `bound` with `rand::Rng::gen_range` on the generator
/// that `rand::thread_rng` hands out. Trusted: `gen_range(0..bound)` returns
/// a value of the half-open range and panics on an empty one, which
/// `requires` rules out. Two draws with the same bound may differ.
#[verifier::external_body]
pub(crate) fn random_below(bound: u16) -> (drawn: u16)
    requires
        bound > 0,
    ensures
        drawn < bound,
{
    rand::thread_rng().gen_range(0..bound)
}

} // verus!
