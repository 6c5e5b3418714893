use vstd::prelude::*;

use crate::keyboard::{any_just_pressed, just_pressed_has, KeyboardBindings, KEY_DOWN, KEY_LEFT, KEY_RIGHT, KEY_UP};

verus! {

/// Health of the spaceship when a game starts.
pub const HEALTH: u32 = 100;

/// Damages of a shot of the spaceship.
pub const FIRE_DAMAGES: u32 = 1;

/// Which way the pilot turns the spaceship.
#[derive(Clone, Copy, Debug, PartialEq, Eq, Structural)]
pub enum Turn {
    Left,
    Right,
    Straight,
}

/// Whether the pilot pushes the spaceship forward or backward.
#[derive(Clone, Copy, Debug, PartialEq, Eq, Structural)]
pub enum Thrust {
    Forward,
    Backward,
    Coast,
}

/// The commands of the pilot, given the keys held down: the rotate-left key
/// (or left) turns left, or else the rotate-right key (or right) turns right;
/// the accelerate key (or up) pushes forward, or else the decelerate key (or
/// down) pushes backward.
pub fn controls(pressed: &Vec<u32>, bindings: &KeyboardBindings) -> (c: (Turn, Thrust))
    ensures
        c.0 == (if pressed@.contains(bindings.0@[2]) || pressed@.contains(KEY_LEFT) {
            Turn::Left
        } else if pressed@.contains(bindings.0@[3]) || pressed@.contains(KEY_RIGHT) {
            Turn::Right
        } else {
            Turn::Straight
        }),
        c.1 == (if pressed@.contains(bindings.0@[0]) || pressed@.contains(KEY_UP) {
            Thrust::Forward
        } else if pressed@.contains(bindings.0@[1]) || pressed@.contains(KEY_DOWN) {
            Thrust::Backward
        } else {
            Thrust::Coast
        }),
{
    let turn = if any_just_pressed(pressed, bindings.rotate_left(), KEY_LEFT) {
        Turn::Left
    } else if any_just_pressed(pressed, bindings.rotate_right(), KEY_RIGHT) {
        Turn::Right
    } else {
        Turn::Straight
    };
    let thrust = if any_just_pressed(pressed, bindings.accelerate(), KEY_UP) {
        Thrust::Forward
    } else if any_just_pressed(pressed, bindings.decelerate(), KEY_DOWN) {
        Thrust::Backward
    } else {
        Thrust::Coast
    };
    (turn, thrust)
}

/// Whether the spaceship fires this frame: the fire key was just pressed.
pub fn attack(just_pressed: &Vec<u32>, bindings: &KeyboardBindings) -> (fires: bool)
    ensures
        fires == just_pressed@.contains(bindings.0@[4]),
{
    just_pressed_has(just_pressed, bindings.fire())
}

} // verus!
