//! Fading in and out.
use vstd::prelude::*;

verus! {

/// The direction of a fade.
#[derive(PartialEq, Eq, Structural, Debug, Clone, Copy)]
pub enum Fade {
    In,
    Out,
}

impl Default for Fade {
    fn default() -> (r: Self)
        ensures
            r == Fade::In,
    {
        Fade::In
    }
}

impl Fade {
    /// Whether an update of this fade makes the entity visible: fading in does.
    pub fn shows_entity(&self) -> (r: bool)
        ensures
            r == (*self == Fade::In),
    {
        match self {
            Fade::In => true,
            Fade::Out => false,
        }
    }
}

/// The state of a fading entity, field by field.
pub struct FadeState<T> {
    pub timer: T,
    pub fade: Fade,
    pub despawn_on_finish: bool,
}

/// An entity fading in or out over the time of a timer (`T`, carried, not read), removed at
/// the end of a fade-out when `despawn_on_finish` is set.
pub struct FadeSupport<T> {
    timer: T,
    fade: Fade,
    despawn_on_finish: bool,
}

impl<T> View for FadeSupport<T> {
    type V = FadeState<T>;

    closed spec fn view(&self) -> FadeState<T> {
        FadeState { timer: self.timer, fade: self.fade, despawn_on_finish: self.despawn_on_finish }
    }
}

impl<T> FadeSupport<T> {
    /// A fade along `timer`.
    pub fn new(timer: T, fade: Fade, despawn_on_finish: bool) -> (r: Self)
        ensures
            r@ == (FadeState { timer, fade, despawn_on_finish }),
    {
        FadeSupport { timer, fade, despawn_on_finish }
    }

    /// The fade turns to `fade`.
    pub fn change(&mut self, fade: Fade)
        ensures
            final(self)@ == (FadeState { fade, ..old(self)@ }),
    {
        self.fade = fade;
    }

    /// The direction of the fade.
    pub fn fade(&self) -> (r: Fade)
        ensures
            r == self@.fade,
    {
        self.fade
    }

    /// Whether the entity is removed at the end of a fade-out.
    pub fn despawn_on_finish(&self) -> (r: bool)
        ensures
            r == self@.despawn_on_finish,
    {
        self.despawn_on_finish
    }

    /// The timer of the fade.
    pub fn timer(&self) -> (r: &T)
        ensures
            *r == self@.timer,
    {
        &self.timer
    }

    /// The timer of the fade, to advance, reset or restart it.
    pub fn timer_mut(&mut self) -> (r: &mut T)
        ensures
            *r == old(self)@.timer,
            final(self)@ == (FadeState { timer: *final(r), ..old(self)@ }),
    {
        &mut self.timer
    }
}

} // verus!
