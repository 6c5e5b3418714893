use vstd::prelude::*;

use crate::random::random_range;

verus! {

/// Each edge of the boss fires, on average, once in this many frames.
pub const ATTACK_RATE: usize = 10;

/// Health of the core of the boss.
pub const CORE_HEALTH: u32 = 50;

/// Health of each edge of the boss.
pub const EDGE_HEALTH: u32 = 15;

/// Number of edges of the boss.
pub const EDGES: usize = 8;

/// Whether an edge of the boss fires, given a roll drawn in
/// `[0, ATTACK_RATE)`: it does on a roll of zero.
pub fn fires(roll: usize) -> (b: bool)
    requires
        roll < ATTACK_RATE,
    ensures
        b == (roll == 0),
{
    roll == 0
}

/// Whether an edge of the boss fires this frame: one chance in
/// `ATTACK_RATE`.
pub fn attack() -> bool {
    fires(random_range(0, ATTACK_RATE))
}

/// Whether the core of the boss loses its indestructibility: it is there and
/// no edge is left to protect it.
pub fn lone_core(core_present: bool, edges_left: usize) -> (exposed: bool)
    ensures
        exposed == (core_present && edges_left == 0),
{
    core_present && edges_left == 0
}

} // verus!
