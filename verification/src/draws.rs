//! Draws from a random number generator, told apart by their bounds.
use vstd::prelude::*;

verus! {

/// One call of `rand::Rng::random_range` with the range `0..total` took the generator
/// from `before` to `after` and gave `roll`.
///
/// All that can be said of such a draw is that it lies in the range. The definition is
/// sealed in this module all the same: elsewhere nothing but the call itself shows that
/// a number was drawn, and with which bound.
pub closed spec fn one_draw<G>(before: G, total: u64, roll: u64, after: G) -> bool {
    roll < total
}

/// A number that was drawn lies below its bound.
pub proof fn law_draws_lie_below_the_bound<G>(before: G, total: u64, roll: u64, after: G)
    requires
        one_draw(before, total, roll, after),
    ensures
        roll < total,
{
}

} // verus!
