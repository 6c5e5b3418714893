//! The rules of an Asteroids-like space shooter: game states and their
//! transitions, menus and key bindings, the collision cache, damages, and the
//! map of sectors that grows around the camera.

pub mod asteroid;
pub mod boss;
pub mod camera;
pub mod collision;
pub mod game_over;
pub mod game_state;
pub mod intercepter;
pub mod keyboard;
pub mod light;
pub mod map;
pub mod objective;
pub mod random;
pub mod spaceship;
pub mod ui;
