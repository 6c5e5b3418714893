use vstd::prelude::*;

verus! {

/// Divisor turning the violence of a crash into damages.
pub const CRASH_DAMAGE_DIVISOR: u32 = 2000;

/// The health of a part hit by `damages`: unchanged when the part is
/// indestructible, lowered by `damages` down to zero otherwise.
pub open spec fn damaged(health: u32, damages: u32, indestructible: bool) -> u32 {
    if indestructible {
        health
    } else if damages >= health {
        0
    } else {
        (health - damages) as u32
    }
}

/// How damages wear a destructible part down: no damage changes nothing, a
/// damage of one takes exactly one point from a part still standing, a
/// destroyed part stays destroyed, and two hits in a row do what one hit of
/// their sum does. An indestructible part keeps its health whatever hits it.
pub proof fn law_damages_wear_health_down(health: u32, d1: u32, d2: u32)
    requires
        d1 + d2 <= u32::MAX,
    ensures
        damaged(health, 0, false) == health,
        health >= 1 ==> damaged(health, 1, false) == health - 1,
        damaged(0, d1, false) == 0,
        damaged(damaged(health, d1, false), d2, false) == damaged(health, (d1 + d2) as u32, false),
        damaged(health, d1, true) == health,
{
}

/// Applies the damages of a collision to its two parts. Each part takes the
/// damages that the other part carries (`damages1`, `damages2`: a projectile's
/// fixed damages) or else the violence of the crash of the other part
/// (`crash1`, `crash2`: the square root of its mass times the relative speed
/// along the normal, rounded down), divided by `CRASH_DAMAGE_DIVISOR`.
/// Indestructible parts take nothing.
pub fn apply(
    healths: &mut [u32; 2],
    indestructible: [bool; 2],
    damages1: Option<u32>,
    damages2: Option<u32>,
    crash1: u32,
    crash2: u32,
)
    ensures
        ({
            let taken1 = match damages2 {
                Some(d) => d,
                None => crash2 / CRASH_DAMAGE_DIVISOR,
            };
            let taken2 = match damages1 {
                Some(d) => d,
                None => crash1 / CRASH_DAMAGE_DIVISOR,
            };
            &&& final(healths)@[0] == damaged(old(healths)@[0], taken1, indestructible@[0])
            &&& final(healths)@[1] == damaged(old(healths)@[1], taken2, indestructible@[1])
        }),
        final(healths)@[0] <= old(healths)@[0],
        final(healths)@[1] <= old(healths)@[1],
{
    let taken1 = match damages2 {
        Some(d) => d,
        None => crash2 / CRASH_DAMAGE_DIVISOR,
    };
    let taken2 = match damages1 {
        Some(d) => d,
        None => crash1 / CRASH_DAMAGE_DIVISOR,
    };
    if !indestructible[0] {
        healths[0] = healths[0].saturating_sub(taken1);
    }
    if !indestructible[1] {
        healths[1] = healths[1].saturating_sub(taken2);
    }
}

} // verus!
