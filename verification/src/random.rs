//! The source of randomness behind spin initialisation and site selection.

use vstd::prelude::*;
use crate::grid::is_spin;

verus! {

/// The spin that a draw from `{0, 1}` stands for: `0` is down, anything else is up.
pub open spec fn spin_of_draw(draw: usize) -> i32 {
    if draw == 0 {
        -1i32
    } else {
        1i32
    }
}

/// Draws an index below `bound` from the thread-local generator.
///
/// Trusted: the body calls `rand::random_range` on the half-open range
/// `0..bound`. That function panics on an empty range, which `requires`
/// rules out, and otherwise returns a member of the range; this is all the
/// contract claims. The draw is not a function of `bound`: two calls may
/// differ. The generator seeds itself from the operating system on first use
/// and panics if that fails, which no argument decides.
#[verifier::external_body]
pub(crate) fn uniform_index(bound: usize) -> (index: usize)
    requires
        bound > 0,
    ensures
        index < bound,
{
    rand::random_range(0..bound)
}

/// Maps a draw from `{0, 1}` to a spin.
pub fn spin_from_draw(draw: usize) -> (spin: i32)
    ensures
        spin == spin_of_draw(draw),
        is_spin(spin),
{
    if draw == 0 {
        -1
    } else {
        1
    }
}

/// A fresh spin, down or up with equal probability.
pub fn random_spin() -> (spin: i32)
    ensures
        is_spin(spin),
{
    spin_from_draw(uniform_index(2))
}

} // verus!
