use vstd::prelude::*;

use crate::random::random_range;

verus! {

/// One frame in this many sees an asteroid appear.
pub const SPAWN_RATE: usize = 10;

/// Least health of an asteroid.
pub const HEALTH_MIN: u32 = 10;

/// Greatest health of an asteroid.
pub const HEALTH_MAX: u32 = 60;

/// Whether an asteroid appears, given a roll drawn in `[0, SPAWN_RATE)`:
/// it does on a roll of zero.
pub fn appears(roll: usize) -> (b: bool)
    requires
        roll < SPAWN_RATE,
    ensures
        b == (roll == 0),
{
    roll == 0
}

/// The asteroid of a frame, given a roll drawn in `[0, SPAWN_RATE)` and a
/// health drawn in `[HEALTH_MIN, HEALTH_MAX]`: an asteroid of that health on
/// a roll of zero, none otherwise.
pub fn spawn_from(roll: usize, draw: usize) -> (health: Option<u32>)
    requires
        roll < SPAWN_RATE,
        HEALTH_MIN <= draw <= HEALTH_MAX,
    ensures
        health == (if roll == 0 { Some(draw as u32) } else { None::<u32> }),
{
    if appears(roll) {
        Some(draw as u32)
    } else {
        None
    }
}

/// Whether an asteroid appears this frame (one chance in `SPAWN_RATE`), and
/// with what health, drawn in `[HEALTH_MIN, HEALTH_MAX]`.
pub fn spawn() -> (health: Option<u32>)
    ensures
        health matches Some(h) ==> HEALTH_MIN <= h <= HEALTH_MAX,
{
    let roll = random_range(0, SPAWN_RATE);
    if appears(roll) {
        spawn_from(roll, random_range(HEALTH_MIN as usize, HEALTH_MAX as usize + 1))
    } else {
        None
    }
}

} // verus!
