//! The in-game lobby's menus, driven by the menu input.
pub mod common_menu;
pub mod lobby;
