//! Helpers for small games: saves, timed mini events, easing, buttons and input fields.

pub mod bin_asset_loader;
pub mod camera;
pub mod color;
pub mod crypt;
pub mod easing;
pub mod mini_event;
pub mod save;
pub mod setting;
pub mod timer;
pub mod transform;
pub mod ui;
