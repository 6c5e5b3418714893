use vstd::prelude::*;

use crate::keyboard::{just_pressed_has, KEY_ESCAPE, KEY_RETURN};

verus! {

/// How a mission ends.
#[derive(Clone, Copy, Debug, PartialEq, Eq, Structural)]
pub enum MissionOutcome {
    /// The spaceship is destroyed.
    Failed,
    /// The boss is destroyed while the spaceship stands; the spaceship then
    /// becomes indestructible.
    Cleared,
}

/// What the end-of-mission text asks of the game.
#[derive(Clone, Copy, Debug, PartialEq, Eq, Structural)]
pub enum GameOverAction {
    /// Back to the main menu: the lights go down.
    BackToMenu,
    /// Leave the application.
    Quit,
}

/// Whether the mission ends this frame, given the health of the spaceship
/// and of the boss, when they are there.
pub fn spawn_text(spaceship_health: Option<u32>, boss_health: Option<u32>) -> (outcome: Option<MissionOutcome>)
    ensures
        outcome == (match spaceship_health {
            Some(h) => if h == 0 {
                Some(MissionOutcome::Failed)
            } else if boss_health == Some(0u32) {
                Some(MissionOutcome::Cleared)
            } else {
                None
            },
            None => None,
        }),
{
    match spaceship_health {
        Some(h) => {
            if h == 0 {
                Some(MissionOutcome::Failed)
            } else {
                match boss_health {
                    Some(b) => if b == 0 {
                        Some(MissionOutcome::Cleared)
                    } else {
                        None
                    },
                    None => None,
                }
            }
        },
        None => None,
    }
}

/// What the end-of-mission text does with the keys just pressed: return goes
/// back to the main menu, or else escape quits.
pub fn update_text(just_pressed: &Vec<u32>) -> (action: Option<GameOverAction>)
    ensures
        action == (if just_pressed@.contains(KEY_RETURN) {
            Some(GameOverAction::BackToMenu)
        } else if just_pressed@.contains(KEY_ESCAPE) {
            Some(GameOverAction::Quit)
        } else {
            None
        }),
{
    if just_pressed_has(just_pressed, KEY_RETURN) {
        Some(GameOverAction::BackToMenu)
    } else if just_pressed_has(just_pressed, KEY_ESCAPE) {
        Some(GameOverAction::Quit)
    } else {
        None
    }
}

} // verus!
