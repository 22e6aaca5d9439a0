//! Moving and fading entities.

pub mod fading;
pub mod movement;
