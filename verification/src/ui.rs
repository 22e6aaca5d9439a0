//! User interface pieces: number fields and button effects.

pub mod button;
pub mod number_input;
