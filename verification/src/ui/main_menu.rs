use vstd::prelude::*;

use crate::keyboard::{any_just_pressed, just_pressed_has, KeyboardBindings, KEY_DOWN, KEY_ESCAPE, KEY_RETURN, KEY_UP};

verus! {

/// Number of items of the main menu: start a new game, settings, quit.
pub const MAIN_MENU_ITEMS: usize = 3;

/// The main menu, with the index of its highlighted item.
#[derive(Clone, Copy, Debug)]
pub struct MainMenu(pub usize);

/// What the main menu asks of the game after a frame.
#[derive(Clone, Copy, Debug, PartialEq, Eq, Structural)]
pub enum MainMenuAction {
    /// Nothing beyond a possible move of the highlight.
    Stay,
    /// Leave the application.
    Exit,
    /// Start a new game: the lights go down.
    NewGame,
    /// Hide the main menu and open the settings.
    Settings,
}

impl MainMenu {
    /// One frame of the main menu. Escape quits; otherwise up (or the
    /// accelerate key) moves the highlight up and down (or the decelerate key)
    /// moves it down, within the menu; otherwise return (or the fire key)
    /// selects the highlighted item.
    pub fn update(&mut self, just_pressed: &Vec<u32>, bindings: &KeyboardBindings) -> (action: MainMenuAction)
        requires
            old(self).0 < MAIN_MENU_ITEMS,
        ensures
            final(self).0 < MAIN_MENU_ITEMS,
            ({
                let k = just_pressed@;
                let up = k.contains(KEY_UP) || k.contains(bindings.0@[0]);
                let down = k.contains(KEY_DOWN) || k.contains(bindings.0@[1]);
                let select = k.contains(KEY_RETURN) || k.contains(bindings.0@[4]);
                let i = old(self).0 as int;
                if k.contains(KEY_ESCAPE) {
                    action == MainMenuAction::Exit && final(self).0 == i
                } else if up {
                    action == MainMenuAction::Stay && final(self).0 == (if i > 0 { i - 1 } else { i })
                } else if down {
                    action == MainMenuAction::Stay
                        && final(self).0 == (if i < MAIN_MENU_ITEMS - 1 { i + 1 } else { i })
                } else if select {
                    final(self).0 == i && action == (if i == 0 {
                        MainMenuAction::NewGame
                    } else if i == 1 {
                        MainMenuAction::Settings
                    } else {
                        MainMenuAction::Exit
                    })
                } else {
                    action == MainMenuAction::Stay && final(self).0 == i
                }
            }),
    {
        if just_pressed_has(just_pressed, KEY_ESCAPE) {
            MainMenuAction::Exit
        } else if any_just_pressed(just_pressed, KEY_UP, bindings.accelerate()) {
            if self.0 > 0 {
                self.0 = self.0 - 1;
            }
            MainMenuAction::Stay
        } else if any_just_pressed(just_pressed, KEY_DOWN, bindings.decelerate()) {
            if self.0 < MAIN_MENU_ITEMS - 1 {
                self.0 = self.0 + 1;
            }
            MainMenuAction::Stay
        } else if any_just_pressed(just_pressed, KEY_RETURN, bindings.fire()) {
            if self.0 == 0 {
                MainMenuAction::NewGame
            } else if self.0 == 1 {
                MainMenuAction::Settings
            } else {
                MainMenuAction::Exit
            }
        } else {
            MainMenuAction::Stay
        }
    }
}

} // verus!
