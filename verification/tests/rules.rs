use asteroids::camera::CameraPositioning;
use asteroids::collision::damages::apply;
use asteroids::game_over::{spawn_text, update_text as game_over_text, GameOverAction, MissionOutcome};
use asteroids::game_state::{gamesetup_or_ingame, gamesetup_to_turnuplight, game_cleanup, ingame_to_paused, GameState};
use asteroids::keyboard::{
    any_just_pressed, key_code_string, KeyboardBindings, KEY_C, KEY_ESCAPE, KEY_K, KEY_LEFT, KEY_M, KEY_O, KEY_P,
    KEY_R, KEY_RETURN, KEY_SPACE, KEY_UP,
};
use asteroids::light::{turn_down, turn_up, DIM_TIMER};
use asteroids::objective::{update_text as objective_text, ObjectiveStep};
use asteroids::spaceship::{attack, controls, Thrust, Turn};
use asteroids::{asteroid, boss};

#[test]
fn default_bindings() {
    let b = KeyboardBindings::default();
    assert_eq!(b.0, [KEY_O, 21, KEY_K, KEY_M, KEY_R, KEY_SPACE, KEY_P]);
    assert_eq!(b.accelerate(), KEY_O);
    assert_eq!(b.decelerate(), 21);
    assert_eq!(b.rotate_left(), KEY_K);
    assert_eq!(b.rotate_right(), KEY_M);
    assert_eq!(b.fire(), KEY_R);
    assert_eq!(b.camera(), KEY_SPACE);
    assert_eq!(b.pause(), KEY_P);
}

#[test]
fn key_names() {
    assert_eq!(key_code_string(0), "1");
    assert_eq!(key_code_string(KEY_O), "O");
    assert_eq!(key_code_string(KEY_ESCAPE), "Escape");
    assert_eq!(key_code_string(KEY_UP), "Up");
    assert_eq!(key_code_string(KEY_SPACE), "Space");
    assert_eq!(key_code_string(162), "Cut");
}

#[test]
fn just_pressed_keys() {
    assert!(any_just_pressed(&vec![3, KEY_C], KEY_C, KEY_P));
    assert!(!any_just_pressed(&vec![3], KEY_C, KEY_P));
}

#[test]
fn game_states() {
    assert!(gamesetup_or_ingame(GameState::GameSetup));
    assert!(gamesetup_or_ingame(GameState::InGame));
    assert!(!gamesetup_or_ingame(GameState::Paused));
    assert_eq!(gamesetup_to_turnuplight(), GameState::TurnUpLight);
    let b = KeyboardBindings::default();
    assert_eq!(ingame_to_paused(true, &vec![KEY_P], &b), Some(GameState::Paused));
    assert_eq!(ingame_to_paused(false, &vec![KEY_P], &b), None);
    assert!(game_cleanup(false, &vec![KEY_C]));
    assert!(game_cleanup(false, &vec![KEY_SPACE]));
    assert!(!game_cleanup(true, &vec![KEY_C]));
}

#[test]
fn lights_fade_for_dim_timer_frames() {
    let mut timer = 0;
    for _ in 0..DIM_TIMER - 1 {
        assert_eq!(turn_down(&mut timer, true), None);
    }
    assert_eq!(turn_down(&mut timer, true), Some(GameState::GameSetup));
    assert_eq!(timer, 0);
    for _ in 0..DIM_TIMER - 1 {
        assert_eq!(turn_down(&mut timer, false), None);
    }
    assert_eq!(turn_down(&mut timer, false), Some(GameState::MainMenu));
    for _ in 0..DIM_TIMER - 1 {
        assert_eq!(turn_up(&mut timer), None);
    }
    assert_eq!(turn_up(&mut timer), Some(GameState::InGame));
    assert_eq!(timer, 0);
}

#[test]
fn objective_text_brightens_dims_and_goes() {
    let mut timer = 0;
    for _ in 0..125 {
        assert_eq!(objective_text(&mut timer, false), ObjectiveStep::Brighten);
    }
    for _ in 0..125 {
        assert_eq!(objective_text(&mut timer, false), ObjectiveStep::Dim);
    }
    assert_eq!(objective_text(&mut timer, false), ObjectiveStep::Despawn);
    assert_eq!(timer, 0);
    objective_text(&mut timer, false);
    assert_eq!(objective_text(&mut timer, true), ObjectiveStep::Despawn);
    assert_eq!(timer, 0);
}

#[test]
fn mission_outcomes() {
    assert_eq!(spawn_text(Some(0), Some(0)), Some(MissionOutcome::Failed));
    assert_eq!(spawn_text(Some(5), Some(0)), Some(MissionOutcome::Cleared));
    assert_eq!(spawn_text(Some(5), Some(3)), None);
    assert_eq!(spawn_text(Some(5), None), None);
    assert_eq!(spawn_text(None, Some(0)), None);
    assert_eq!(game_over_text(&vec![KEY_RETURN, KEY_ESCAPE]), Some(GameOverAction::BackToMenu));
    assert_eq!(game_over_text(&vec![KEY_ESCAPE]), Some(GameOverAction::Quit));
    assert_eq!(game_over_text(&vec![]), None);
}

#[test]
fn camera_key_switches_positioning() {
    assert_eq!(CameraPositioning::Synchronized.update(true), CameraPositioning::Ahead);
    assert_eq!(CameraPositioning::Ahead.update(true), CameraPositioning::Synchronized);
    assert_eq!(CameraPositioning::Ahead.update(false), CameraPositioning::Ahead);
}

#[test]
fn damages_of_a_collision() {
    // A shot carries fixed damages; a crash hurts by its violence / 2000.
    let mut healths = [10, 10];
    apply(&mut healths, [false, false], Some(1), None, 0, 9000);
    assert_eq!(healths, [6, 9]);
    // Health stops at zero; indestructible parts take nothing.
    let mut healths = [3, 3];
    apply(&mut healths, [false, true], Some(7), Some(7), 0, 0);
    assert_eq!(healths, [0, 3]);
}

#[test]
fn pilot_controls() {
    let b = KeyboardBindings::default();
    assert_eq!(controls(&vec![KEY_K, KEY_O], &b), (Turn::Left, Thrust::Forward));
    assert_eq!(controls(&vec![KEY_M, 21], &b), (Turn::Right, Thrust::Backward));
    assert_eq!(controls(&vec![KEY_LEFT, KEY_M], &b), (Turn::Left, Thrust::Coast));
    assert_eq!(controls(&vec![], &b), (Turn::Straight, Thrust::Coast));
    assert!(attack(&vec![KEY_R], &b));
    assert!(!attack(&vec![KEY_RETURN], &b));
}

#[test]
fn boss_core_exposed_without_edges() {
    assert!(boss::lone_core(true, 0));
    assert!(!boss::lone_core(true, 2));
    assert!(!boss::lone_core(false, 0));
}

#[test]
fn asteroids_appear_now_and_then() {
    let rolls: Vec<Option<u32>> = (0..400).map(|_| asteroid::spawn()).collect();
    assert!(rolls.iter().any(|r| r.is_none()));
    assert!(rolls.iter().any(|r| r.is_some()));
    assert!(rolls.iter().flatten().all(|h| (10..=60).contains(h)));
    assert!(rolls.iter().flatten().any(|h| *h != 10));
}

#[test]
fn boss_and_intercepters_attack_now_and_then() {
    let attacks: Vec<bool> = (0..400).map(|_| boss::attack()).collect();
    assert!(attacks.iter().any(|a| *a) && attacks.iter().any(|a| !*a));
    let spawns: Vec<bool> = (0..400).map(|_| asteroids::intercepter::spawn()).collect();
    assert!(spawns.iter().any(|a| *a) && spawns.iter().any(|a| !*a));
}

#[test]
fn only_a_zero_roll_spawns_or_fires() {
    assert!(asteroid::appears(0));
    assert!(!asteroid::appears(3));
    assert!(asteroids::intercepter::appears(0));
    assert!(!asteroids::intercepter::appears(9));
    assert!(boss::fires(0));
    assert!(!boss::fires(1));
}

#[test]
fn an_asteroid_has_the_drawn_health_on_a_zero_roll() {
    assert_eq!(asteroid::spawn_from(0, 37), Some(37));
    assert_eq!(asteroid::spawn_from(0, 10), Some(10));
    assert_eq!(asteroid::spawn_from(4, 60), None);
}
