use vstd::prelude::*;

use crate::keyboard::{any_just_pressed, KeyboardBindings, KEY_C, KEY_ESCAPE, KEY_SPACE};

verus! {

/// The states of the game.
#[derive(Clone, Copy, Debug, PartialEq, Eq, Structural, Hash)]
pub enum GameState {
    MainMenu,
    GameSetup,
    InGame,
    Paused,
    GameOver,
    TurnDownLight,
    TurnUpLight,
    Settings,
}

/// The state that follows `GameSetup` once the scene is built.
pub fn gamesetup_to_turnuplight() -> (s: GameState)
    ensures
        s == GameState::TurnUpLight,
{
    GameState::TurnUpLight
}

/// Whether the stars of new sectors are to be spawned in `state`.
pub fn gamesetup_or_ingame(state: GameState) -> (b: bool)
    ensures
        b <==> (state == GameState::GameSetup || state == GameState::InGame),
{
    state == GameState::GameSetup || state == GameState::InGame
}

/// Pausing is asked when escape or the pause key was just pressed.
pub open spec fn pause_asked(just_pressed: Seq<u32>, bindings: KeyboardBindings) -> bool {
    just_pressed.contains(KEY_ESCAPE) || just_pressed.contains(bindings.0@[6])
}

/// Only escape and the pause key ask for a pause: with nothing pressed no
/// pause is asked, escape or the pause key alone asks for one, and pressing
/// any other key as well changes nothing.
pub proof fn law_only_escape_or_pause_key_pauses(k: Seq<u32>, bindings: KeyboardBindings, key: u32)
    ensures
        !pause_asked(Seq::empty(), bindings),
        pause_asked(seq![KEY_ESCAPE], bindings),
        pause_asked(seq![bindings.0@[6]], bindings),
        key != KEY_ESCAPE && key != bindings.0@[6] ==> pause_asked(k.push(key), bindings) == pause_asked(k, bindings),
{
    assert(seq![KEY_ESCAPE][0] == KEY_ESCAPE);
    assert(seq![bindings.0@[6]][0] == bindings.0@[6]);
    if key != KEY_ESCAPE && key != bindings.0@[6] {
        let k2 = k.push(key);
        assert(k2.contains(KEY_ESCAPE) ==> k.contains(KEY_ESCAPE)) by {
            if k2.contains(KEY_ESCAPE) {
                let w = choose|w: int| 0 <= w < k2.len() && k2[w] == KEY_ESCAPE;
                assert(w < k.len() && k[w] == KEY_ESCAPE);
            }
        }
        assert(k2.contains(bindings.0@[6]) ==> k.contains(bindings.0@[6])) by {
            if k2.contains(bindings.0@[6]) {
                let w = choose|w: int| 0 <= w < k2.len() && k2[w] == bindings.0@[6];
                assert(w < k.len() && k[w] == bindings.0@[6]);
            }
        }
        assert(k.contains(KEY_ESCAPE) ==> k2.contains(KEY_ESCAPE)) by {
            if k.contains(KEY_ESCAPE) {
                let w = choose|w: int| 0 <= w < k.len() && k[w] == KEY_ESCAPE;
                assert(k2[w] == KEY_ESCAPE);
            }
        }
        assert(k.contains(bindings.0@[6]) ==> k2.contains(bindings.0@[6])) by {
            if k.contains(bindings.0@[6]) {
                let w = choose|w: int| 0 <= w < k.len() && k[w] == bindings.0@[6];
                assert(k2[w] == bindings.0@[6]);
            }
        }
    }
}

/// The state to enter while in game: `Paused` when the spaceship is still
/// there and escape or the pause key was just pressed, none otherwise.
pub fn ingame_to_paused(
    spaceship_present: bool,
    just_pressed: &Vec<u32>,
    bindings: &KeyboardBindings,
) -> (next: Option<GameState>)
    ensures
        next == (if spaceship_present && pause_asked(just_pressed@, *bindings) {
            Some(GameState::Paused)
        } else {
            None
        }),
{
    if spaceship_present && any_just_pressed(just_pressed, KEY_ESCAPE, bindings.pause()) {
        Some(GameState::Paused)
    } else {
        None
    }
}

/// Whether the game is cleared away for the main menu: the spaceship is gone
/// and space or C was just pressed.
pub fn game_cleanup(spaceship_present: bool, just_pressed: &Vec<u32>) -> (cleanup: bool)
    ensures
        cleanup == (!spaceship_present && (just_pressed@.contains(KEY_SPACE) || just_pressed@.contains(KEY_C))),
{
    !spaceship_present && any_just_pressed(just_pressed, KEY_SPACE, KEY_C)
}

} // verus!
