//! Easing effects on scale and translation.
use vstd::prelude::*;

pub mod fraction;
pub mod popout;
pub mod scale;
pub mod translation;

verus! {

/// The state that stands for "any state" where a plugin takes a list of states.
#[derive(Clone, Copy, PartialEq, Eq, Structural, Debug)]
pub struct DummyState {}

} // verus!
