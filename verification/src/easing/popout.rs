//! Popping an entity out to a target scale over a duration in milliseconds. The vector type
//! `V` is carried, not read.
use vstd::prelude::*;

verus! {

/// The state of a pop-out, field by field.
pub struct PopoutState<V> {
    pub target_scale: V,
    pub orig_scale: Option<V>,
    pub duration_ms: u128,
    pub elapsed: u128,
}

/// A pop-out in progress.
pub struct PopoutEffect<V> {
    target_scale: V,
    orig_scale: Option<V>,
    duration_ms: u128,
    elapsed: u128,
}

impl<V> View for PopoutEffect<V> {
    type V = PopoutState<V>;

    closed spec fn view(&self) -> PopoutState<V> {
        PopoutState {
            target_scale: self.target_scale,
            orig_scale: self.orig_scale,
            duration_ms: self.duration_ms,
            elapsed: self.elapsed,
        }
    }
}

impl<V: Copy> PopoutEffect<V> {
    /// A pop-out to `target_scale` over `duration_ms`.
    pub fn new(target_scale: V, duration_ms: u128) -> (r: Self)
        ensures
            r@ == (PopoutState { target_scale, orig_scale: None, duration_ms, elapsed: 0 }),
    {
        PopoutEffect { target_scale, duration_ms, orig_scale: None, elapsed: 0 }
    }

    /// The scale the entity had when the effect first ran.
    pub fn orig_scale(&self) -> (r: Option<V>)
        ensures
            r == self@.orig_scale,
    {
        self.orig_scale
    }

    /// The scale the entity pops out to.
    pub fn target_scale(&self) -> (r: V)
        ensures
            r == self@.target_scale,
    {
        self.target_scale
    }

    /// Milliseconds popped so far.
    pub fn elapsed(&self) -> (r: u128)
        ensures
            r == self@.elapsed,
    {
        self.elapsed
    }

    /// The duration of the pop-out in milliseconds.
    pub fn duration_ms(&self) -> (r: u128)
        ensures
            r == self@.duration_ms,
    {
        self.duration_ms
    }

    /// Whether adding `delta_ms` to the elapsed time of an unfinished pop-out stays in range.
    pub fn can_advance(&self, delta_ms: u128) -> (r: bool)
        ensures
            r == (self@.elapsed <= self@.duration_ms ==> self@.elapsed + delta_ms <= u128::MAX),
    {
        if self.elapsed <= self.duration_ms {
            self.elapsed <= u128::MAX - delta_ms
        } else {
            true
        }
    }

    /// An update, `delta_ms` after the last, on an entity whose scale is `current`: the
    /// original scale is recorded first where none was. A pop-out past its duration stops
    /// there (`None`); else `delta_ms` is added to the elapsed time and the original scale is
    /// given to ease from.
    pub fn advance(&mut self, current: V, delta_ms: u128) -> (r: Option<V>)
        requires
            old(self)@.elapsed <= old(self)@.duration_ms ==> old(self)@.elapsed + delta_ms <= u128::MAX,
        ensures
            ({
                let orig = match old(self)@.orig_scale {
                    Some(o) => o,
                    None => current,
                };
                if old(self)@.elapsed > old(self)@.duration_ms {
                    &&& final(self)@ == (PopoutState { orig_scale: Some(orig), ..old(self)@ })
                    &&& r is None
                } else {
                    &&& final(self)@ == (PopoutState {
                        orig_scale: Some(orig),
                        elapsed: (old(self)@.elapsed + delta_ms) as u128,
                        ..old(self)@
                    })
                    &&& r == Some(orig)
                }
            }),
    {
        if self.orig_scale.is_none() {
            self.orig_scale = Some(current);
        }
        if self.elapsed > self.duration_ms {
            return None;
        }
        self.elapsed = self.elapsed + delta_ms;
        self.orig_scale
    }
}

} // verus!
