use vstd::prelude::*;

use crate::game_state::{ingame_to_paused, pause_asked};
use crate::keyboard::{any_just_pressed, KeyboardBindings, KEY_DOWN, KEY_ESCAPE, KEY_RETURN, KEY_UP};

verus! {

/// Number of items of the pause menu: resume, exit game, quit.
pub const PAUSE_MENU_ITEMS: usize = 3;

/// The pause menu, with the index of its highlighted item.
#[derive(Clone, Copy, Debug)]
pub struct PauseMenu(pub usize);

/// What the pause menu asks of the game after a frame.
#[derive(Clone, Copy, Debug, PartialEq, Eq, Structural)]
pub enum PauseMenuAction {
    /// Nothing beyond a possible move of the highlight.
    Stay,
    /// Back to the game, the user interface hidden; the menu stays laid out.
    Resume,
    /// Back to the game, the menu closed and the user interface hidden.
    ResumeAndClose,
    /// Leave the game for the main menu: the lights go down.
    ExitGame,
    /// Leave the application.
    Quit,
}

/// Whether the game pauses this frame (and shows the user interface): the
/// spaceship is still there and escape or the pause key was just pressed.
pub fn in_game(spaceship_present: bool, just_pressed: &Vec<u32>, bindings: &KeyboardBindings) -> (pause: bool)
    ensures
        pause == (spaceship_present && pause_asked(just_pressed@, *bindings)),
{
    ingame_to_paused(spaceship_present, just_pressed, bindings).is_some()
}

impl PauseMenu {
    /// One frame of the pause menu. Escape (or the pause key) resumes;
    /// otherwise up (or the accelerate key) and down (or the decelerate key)
    /// move the highlight within the menu; otherwise return (or the fire key)
    /// selects the highlighted item.
    pub fn paused(&mut self, just_pressed: &Vec<u32>, bindings: &KeyboardBindings) -> (action: PauseMenuAction)
        requires
            old(self).0 < PAUSE_MENU_ITEMS,
        ensures
            final(self).0 < PAUSE_MENU_ITEMS,
            ({
                let k = just_pressed@;
                let up = k.contains(KEY_UP) || k.contains(bindings.0@[0]);
                let down = k.contains(KEY_DOWN) || k.contains(bindings.0@[1]);
                let select = k.contains(KEY_RETURN) || k.contains(bindings.0@[4]);
                let i = old(self).0 as int;
                if pause_asked(k, *bindings) {
                    action == PauseMenuAction::Resume && final(self).0 == i
                } else if up {
                    action == PauseMenuAction::Stay && final(self).0 == (if i > 0 { i - 1 } else { i })
                } else if down {
                    action == PauseMenuAction::Stay
                        && final(self).0 == (if i < PAUSE_MENU_ITEMS - 1 { i + 1 } else { i })
                } else if select {
                    final(self).0 == i && action == (if i == 0 {
                        PauseMenuAction::ResumeAndClose
                    } else if i == 1 {
                        PauseMenuAction::ExitGame
                    } else {
                        PauseMenuAction::Quit
                    })
                } else {
                    action == PauseMenuAction::Stay && final(self).0 == i
                }
            }),
    {
        if any_just_pressed(just_pressed, KEY_ESCAPE, bindings.pause()) {
            PauseMenuAction::Resume
        } else if any_just_pressed(just_pressed, KEY_UP, bindings.accelerate()) {
            if self.0 > 0 {
                self.0 = self.0 - 1;
            }
            PauseMenuAction::Stay
        } else if any_just_pressed(just_pressed, KEY_DOWN, bindings.decelerate()) {
            if self.0 < PAUSE_MENU_ITEMS - 1 {
                self.0 = self.0 + 1;
            }
            PauseMenuAction::Stay
        } else if any_just_pressed(just_pressed, KEY_RETURN, bindings.fire()) {
            if self.0 == 0 {
                PauseMenuAction::ResumeAndClose
            } else if self.0 == 1 {
                PauseMenuAction::ExitGame
            } else {
                PauseMenuAction::Quit
            }
        } else {
            PauseMenuAction::Stay
        }
    }
}

} // verus!
