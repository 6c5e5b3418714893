use vstd::prelude::*;

use crate::game_state::GameState;

verus! {

/// Number of frames that a fade of the lights lasts.
pub const DIM_TIMER: u32 = 50;

/// One frame of the lights going down. After `DIM_TIMER` frames the timer is
/// reset and the game goes to `GameSetup` when leaving the main menu, to
/// `MainMenu` otherwise.
pub fn turn_down(timer: &mut u32, main_menu_present: bool) -> (next: Option<GameState>)
    requires
        *old(timer) < DIM_TIMER,
    ensures
        *final(timer) < DIM_TIMER,
        *old(timer) + 1 == DIM_TIMER ==> *final(timer) == 0 && next == Some(
            if main_menu_present { GameState::GameSetup } else { GameState::MainMenu },
        ),
        *old(timer) + 1 < DIM_TIMER ==> *final(timer) == *old(timer) + 1 && next.is_none(),
{
    *timer = *timer + 1;
    if *timer == DIM_TIMER {
        *timer = 0;
        if main_menu_present {
            Some(GameState::GameSetup)
        } else {
            Some(GameState::MainMenu)
        }
    } else {
        None
    }
}

/// One frame of the lights going up. After `DIM_TIMER` frames the timer is
/// reset and the game goes on (`InGame`).
pub fn turn_up(timer: &mut u32) -> (next: Option<GameState>)
    requires
        *old(timer) < DIM_TIMER,
    ensures
        *final(timer) < DIM_TIMER,
        *old(timer) + 1 == DIM_TIMER ==> *final(timer) == 0 && next == Some(GameState::InGame),
        *old(timer) + 1 < DIM_TIMER ==> *final(timer) == *old(timer) + 1 && next.is_none(),
{
    *timer = *timer + 1;
    if *timer == DIM_TIMER {
        *timer = 0;
        Some(GameState::InGame)
    } else {
        None
    }
}

} // verus!
