use vstd::prelude::*;

use rand::Rng;

verus! {

/// Draws a `u64` from the thread-local generator of `rand`
/// (`rand::thread_rng().gen::<u64>()`). Nothing is promised of the value:
/// it depends on chance.
#[verifier::external_body]
pub(crate) fn random_u64() -> u64 {
    rand::thread_rng().gen::<u64>()
}

/// Draws a `usize` in `[low, high)` with the thread-local generator of `rand`
/// (`rand::thread_rng().gen_range(low..high)`). `Rng::gen_range` panics on an
/// empty range, hence the `requires`; the value is promised to lie in the range
/// and nothing more, since it depends on chance.
#[verifier::external_body]
pub(crate) fn random_range(low: usize, high: usize) -> (r: usize)
    requires
        low < high,
    ensures
        low <= r < high,
{
    rand::thread_rng().gen_range(low..high)
}

} // verus!
