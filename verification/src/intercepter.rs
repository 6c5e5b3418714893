use vstd::prelude::*;

use crate::random::random_range;

verus! {

/// One frame in this many sees an intercepter appear.
pub const SPAWN_RATE: usize = 10;

/// Health of an intercepter.
pub const HEALTH: u32 = 3;

/// Whether an intercepter appears, given a roll drawn in `[0, SPAWN_RATE)`:
/// it does on a roll of zero.
pub fn appears(roll: usize) -> (b: bool)
    requires
        roll < SPAWN_RATE,
    ensures
        b == (roll == 0),
{
    roll == 0
}

/// Whether an intercepter appears this frame: one chance in `SPAWN_RATE`.
pub fn spawn() -> bool {
    appears(random_range(0, SPAWN_RATE))
}

} // verus!
