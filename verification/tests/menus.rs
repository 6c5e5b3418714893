use asteroids::game_state::GameState;
use asteroids::keyboard::{
    KeyboardBindings, KEY_DOWN, KEY_ESCAPE, KEY_K, KEY_L, KEY_LEFT, KEY_O, KEY_P, KEY_R, KEY_RETURN, KEY_SPACE,
    KEY_UP,
};
use asteroids::ui::main_menu::{MainMenu, MainMenuAction};
use asteroids::ui::pause_menu::{in_game, PauseMenu, PauseMenuAction};
use asteroids::ui::settings_menu::{bind_key, is_permanent, SettingsMenu, SettingsState};

fn bindings() -> KeyboardBindings {
    KeyboardBindings::default()
}

#[test]
fn main_menu_moves_within_its_items() {
    let b = bindings();
    let mut menu = MainMenu(0);
    assert_eq!(menu.update(&vec![KEY_UP], &b), MainMenuAction::Stay);
    assert_eq!(menu.0, 0);
    assert_eq!(menu.update(&vec![KEY_DOWN], &b), MainMenuAction::Stay);
    assert_eq!(menu.0, 1);
    // The decelerate binding (L) moves down too.
    assert_eq!(menu.update(&vec![KEY_L], &b), MainMenuAction::Stay);
    assert_eq!(menu.0, 2);
    assert_eq!(menu.update(&vec![KEY_DOWN], &b), MainMenuAction::Stay);
    assert_eq!(menu.0, 2);
    // The accelerate binding (O) moves up.
    assert_eq!(menu.update(&vec![KEY_O], &b), MainMenuAction::Stay);
    assert_eq!(menu.0, 1);
}

#[test]
fn main_menu_selects_its_items() {
    let b = bindings();
    assert_eq!(MainMenu(0).update(&vec![KEY_RETURN], &b), MainMenuAction::NewGame);
    assert_eq!(MainMenu(1).update(&vec![KEY_RETURN], &b), MainMenuAction::Settings);
    // The fire binding (R) selects too.
    assert_eq!(MainMenu(2).update(&vec![KEY_R], &b), MainMenuAction::Exit);
    assert_eq!(MainMenu(1).update(&vec![KEY_ESCAPE, KEY_RETURN], &b), MainMenuAction::Exit);
    assert_eq!(MainMenu(1).update(&vec![], &b), MainMenuAction::Stay);
}

#[test]
fn pause_menu_resumes_or_leaves() {
    let b = bindings();
    let mut menu = PauseMenu(1);
    assert_eq!(menu.paused(&vec![KEY_P], &b), PauseMenuAction::Resume);
    assert_eq!(menu.0, 1);
    assert_eq!(menu.paused(&vec![KEY_ESCAPE], &b), PauseMenuAction::Resume);
    assert_eq!(PauseMenu(0).paused(&vec![KEY_RETURN], &b), PauseMenuAction::ResumeAndClose);
    assert_eq!(PauseMenu(1).paused(&vec![KEY_RETURN], &b), PauseMenuAction::ExitGame);
    assert_eq!(PauseMenu(2).paused(&vec![KEY_RETURN], &b), PauseMenuAction::Quit);
    let mut menu = PauseMenu(0);
    menu.paused(&vec![KEY_DOWN], &b);
    menu.paused(&vec![KEY_DOWN], &b);
    menu.paused(&vec![KEY_DOWN], &b);
    assert_eq!(menu.0, 2);
}

#[test]
fn the_game_pauses_only_with_a_spaceship() {
    let b = bindings();
    assert!(in_game(true, &vec![KEY_ESCAPE], &b));
    assert!(in_game(true, &vec![KEY_P], &b));
    assert!(!in_game(false, &vec![KEY_P], &b));
    assert!(!in_game(true, &vec![KEY_SPACE], &b));
}

#[test]
fn settings_menu_rebinds_a_key() {
    let mut b = bindings();
    let mut menu = SettingsMenu(0);
    let mut state = SettingsState::default();
    assert_eq!(menu.update(&mut state, &mut b, &vec![KEY_DOWN], None, true), None);
    assert_eq!(menu.0, 1);
    assert_eq!(menu.update(&mut state, &mut b, &vec![KEY_RETURN], None, true), None);
    assert_eq!(state, SettingsState::BindKey);
    assert_eq!(menu.item_key(state, &b, 1), None);
    assert_eq!(menu.item_key(state, &b, 0), Some(KEY_O));
    // Nothing pressed yet: still waiting.
    menu.update(&mut state, &mut b, &vec![], None, true);
    assert_eq!(state, SettingsState::BindKey);
    // A permanent key is refused.
    menu.update(&mut state, &mut b, &vec![], Some(KEY_LEFT), true);
    assert_eq!(state, SettingsState::BindKey);
    assert_eq!(b.0[1], KEY_L);
    // Binding K, which rotates left, to decelerate: rotate left takes L.
    menu.update(&mut state, &mut b, &vec![], Some(KEY_K), true);
    assert_eq!(state, SettingsState::SelectItem);
    assert_eq!(b.0[1], KEY_K);
    assert_eq!(b.0[2], KEY_L);
    assert_eq!(menu.item_key(state, &b, 1), Some(KEY_K));
}

#[test]
fn settings_menu_leaves_with_escape() {
    let mut b = bindings();
    let mut state = SettingsState::SelectItem;
    assert_eq!(SettingsMenu(0).update(&mut state, &mut b, &vec![KEY_ESCAPE], None, true), Some(GameState::MainMenu));
    assert_eq!(SettingsMenu(0).update(&mut state, &mut b, &vec![KEY_ESCAPE], None, false), Some(GameState::Paused));
}

#[test]
fn settings_menu_at_the_top_can_still_choose() {
    // Up at the top falls through to the choice, as both keys were pressed.
    let mut b = bindings();
    let mut state = SettingsState::SelectItem;
    let mut menu = SettingsMenu(0);
    menu.update(&mut state, &mut b, &vec![KEY_UP, KEY_RETURN], None, true);
    assert_eq!(menu.0, 0);
    assert_eq!(state, SettingsState::BindKey);
}

#[test]
fn rebinding_never_binds_a_key_twice() {
    let mut b = bindings();
    for slot in 0..7 {
        for key in [KEY_O, KEY_SPACE, KEY_P, 3, 50] {
            bind_key(&mut b, slot, key);
            assert_eq!(b.0[slot], key);
            for x in 0..7 {
                for y in 0..7 {
                    if x != y {
                        assert_ne!(b.0[x], b.0[y]);
                    }
                }
            }
        }
    }
}

#[test]
fn permanent_keys() {
    for k in [KEY_UP, KEY_DOWN, KEY_LEFT, KEY_ESCAPE] {
        assert!(is_permanent(k));
    }
    assert!(!is_permanent(KEY_RETURN));
}
