//! The menus: what each key does to them.

pub mod main_menu;
pub mod pause_menu;
pub mod settings_menu;
