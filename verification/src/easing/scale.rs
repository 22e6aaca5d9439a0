//! Easing the scale of an entity from a start scale by a gap, over a duration in
//! milliseconds. The vector type `V` and the easing function `F` are carried, not read: the
//! eased value itself is computed where the curve is sampled.
use vstd::prelude::*;
use crate::easing::fraction::{f32_ratio_reaches_one, reached_end, lemma_small_values_are_exact, F32_EXACT_LIMIT};

verus! {

/// Reports that a scale easing reached its end, with the function it eased by.
pub struct ScaleEasingEnded<F>(pub F);

/// The state of a scale easing, field by field.
pub struct ScaleEasingState<V, F> {
    pub scale_gap: V,
    pub scale_orig: Option<V>,
    pub scale_start: Option<V>,
    pub duration_ms: u128,
    pub elapsed: u128,
    pub function: Option<F>,
    pub repeat: bool,
}

impl<V, F> ScaleEasingState<V, F> {
    /// An update advances the effect: it has an easing function and has not passed its
    /// duration.
    pub open spec fn is_running(&self) -> bool {
        &&& self.elapsed <= self.duration_ms
        &&& self.function is Some
    }

    /// The state after a running effect was updated `delta_ms` after the last update, on an
    /// entity whose scale is `current`: `current` is recorded as the original scale and the
    /// original as the start where none was set, and `delta_ms` is added to the elapsed time.
    pub open spec fn advanced(self, current: V, delta_ms: u128) -> Self {
        let orig = match self.scale_orig {
            Some(o) => o,
            None => current,
        };
        let start = match self.scale_start {
            Some(s) => s,
            None => orig,
        };
        ScaleEasingState {
            scale_orig: Some(orig),
            scale_start: Some(start),
            elapsed: (self.elapsed + delta_ms) as u128,
            ..self
        }
    }

    /// The eased fraction, `elapsed as f32 / duration_ms as f32`, is at least 1.
    pub open spec fn reaches_end(&self) -> bool {
        f32_ratio_reaches_one(self.elapsed as nat, self.duration_ms as nat)
    }

    /// The state after the eased scale was applied: a repeating effect that reached its end
    /// starts over.
    pub open spec fn finished(self) -> Self {
        if self.reaches_end() && self.repeat {
            ScaleEasingState { elapsed: 0, ..self }
        } else {
            self
        }
    }
}

/// A scale easing in progress.
pub struct ScaleEasingEffect<V, F> {
    pub scale_gap: V,
    pub scale_orig: Option<V>,
    pub scale_start: Option<V>,
    pub duration_ms: u128,
    elapsed: u128,
    pub function: Option<F>,
    pub repeat: bool,
}

impl<V, F> View for ScaleEasingEffect<V, F> {
    type V = ScaleEasingState<V, F>;

    closed spec fn view(&self) -> ScaleEasingState<V, F> {
        ScaleEasingState {
            scale_gap: self.scale_gap,
            scale_orig: self.scale_orig,
            scale_start: self.scale_start,
            duration_ms: self.duration_ms,
            elapsed: self.elapsed,
            function: self.function,
            repeat: self.repeat,
        }
    }
}

impl<V: Copy, F: Copy> ScaleEasingEffect<V, F> {
    /// A still effect: gap `scale_gap`, no duration, no function, no repeat.
    pub fn new(scale_gap: V) -> (r: Self)
        ensures
            r@ == (ScaleEasingState::<V, F> {
                scale_gap,
                scale_orig: None,
                scale_start: None,
                duration_ms: 0,
                elapsed: 0,
                function: None,
                repeat: false,
            }),
    {
        ScaleEasingEffect {
            scale_gap,
            scale_orig: None,
            scale_start: None,
            duration_ms: 0,
            elapsed: 0,
            function: None,
            repeat: false,
        }
    }

    /// Milliseconds eased so far.
    pub fn elapsed(&self) -> (r: u128)
        ensures
            r == self@.elapsed,
    {
        self.elapsed
    }

    /// The scale the entity had when the effect first ran.
    pub fn orig_scale(&self) -> (r: Option<V>)
        ensures
            r == self@.scale_orig,
    {
        self.scale_orig
    }

    /// A pop-out: grows by `scale_gap` over `duration_ms` along `function` (the elastic-out
    /// curve in the game), once.
    pub fn popout(scale_gap: V, duration_ms: u128, function: F) -> (r: Self)
        ensures
            r@ == (ScaleEasingState {
                scale_gap,
                scale_orig: None,
                scale_start: None,
                duration_ms,
                elapsed: 0,
                function: Some(function),
                repeat: false,
            }),
    {
        ScaleEasingEffect {
            scale_gap,
            scale_orig: None,
            scale_start: None,
            duration_ms,
            elapsed: 0,
            function: Some(function),
            repeat: false,
        }
    }

    /// The same effect over `duration_ms`.
    pub fn with_duration(self, duration_ms: u128) -> (r: Self)
        ensures
            r@ == (ScaleEasingState { duration_ms, ..self@ }),
    {
        let mut r = self;
        r.duration_ms = duration_ms;
        r
    }

    /// The same effect with gap `scale`.
    pub fn with_scale_gap(self, scale: V) -> (r: Self)
        ensures
            r@ == (ScaleEasingState { scale_gap: scale, ..self@ }),
    {
        let mut r = self;
        r.scale_gap = scale;
        r
    }

    /// The same effect along `ease_function`.
    pub fn with_ease_function(self, ease_function: F) -> (r: Self)
        ensures
            r@ == (ScaleEasingState { function: Some(ease_function), ..self@ }),
    {
        let mut r = self;
        r.function = Some(ease_function);
        r
    }

    /// The same effect, repeating or not.
    pub fn with_repeat(self, repeat: bool) -> (r: Self)
        ensures
            r@ == (ScaleEasingState { repeat, ..self@ }),
    {
        let mut r = self;
        r.repeat = repeat;
        r
    }

    /// Starts the easing over: nothing eased yet.
    pub fn reset(&mut self)
        ensures
            final(self)@ == (ScaleEasingState { elapsed: 0, ..old(self)@ }),
    {
        self.elapsed = 0;
    }

    /// Whether adding `delta_ms` to the elapsed time of a running effect stays in range.
    pub fn can_advance(&self, delta_ms: u128) -> (r: bool)
        ensures
            r == (self@.is_running() ==> self@.elapsed + delta_ms <= u128::MAX),
    {
        if self.elapsed <= self.duration_ms && self.function.is_some() {
            self.elapsed <= u128::MAX - delta_ms
        } else {
            true
        }
    }

    /// An update, `delta_ms` after the last, on an entity whose scale is `current`. A
    /// running effect first records `current` as the original scale and the original as the
    /// start where none was set, then adds `delta_ms` to the elapsed time and gives the start
    /// scale to ease from; an effect that does not run is left alone (`None`).
    pub fn advance(&mut self, current: V, delta_ms: u128) -> (r: Option<V>)
        requires
            old(self)@.is_running() ==> old(self)@.elapsed + delta_ms <= u128::MAX,
        ensures
            !old(self)@.is_running() ==> r is None && final(self)@ == old(self)@,
            old(self)@.is_running() ==> {
                &&& final(self)@ == old(self)@.advanced(current, delta_ms)
                &&& r == final(self)@.scale_start
                &&& r == Some(
                    match old(self)@.scale_start {
                        Some(st) => st,
                        None => match old(self)@.scale_orig {
                            Some(o) => o,
                            None => current,
                        },
                    },
                )
                &&& final(self)@.elapsed == old(self)@.elapsed + delta_ms
            },
    {
        if self.elapsed > self.duration_ms || self.function.is_none() {
            return None;
        }
        if self.scale_orig.is_none() {
            self.scale_orig = Some(current);
        }
        if self.scale_start.is_none() {
            self.scale_start = self.scale_orig;
        }
        self.elapsed = self.elapsed + delta_ms;
        self.scale_start
    }

    /// After the eased scale was applied: when the easing reached its end (the eased
    /// fraction is at least 1) the end is reported with the easing function, and a repeating
    /// effect starts over; else nothing changes.
    pub fn finish(&mut self) -> (r: Option<ScaleEasingEnded<F>>)
        ensures
            (old(self)@.reaches_end() && old(self)@.function is Some) ==> (r matches Some(e) && Some(e.0)
                == old(self)@.function),
            !(old(self)@.reaches_end() && old(self)@.function is Some) ==> r is None,
            final(self)@ == old(self)@.finished(),
            !old(self)@.reaches_end() ==> final(self)@ == old(self)@,
            !old(self)@.repeat ==> final(self)@ == old(self)@,
            old(self)@.reaches_end() && old(self)@.repeat ==> final(self)@ == (ScaleEasingState {
                elapsed: 0,
                ..old(self)@
            }),
    {
        if reached_end(self.elapsed, self.duration_ms) {
            if self.repeat {
                self.reset();
            }
            match self.function {
                Some(f) => Some(ScaleEasingEnded(f)),
                None => None,
            }
        } else {
            None
        }
    }
}

/// Once an effect ran, its original and start scales stay as they were set: later updates
/// never record new ones.
pub proof fn lemma_scale_start_is_kept<V, F>(s: ScaleEasingState<V, F>, first: V, d1: u128, later: V, d2: u128)
    ensures
        s.advanced(first, d1).advanced(later, d2).scale_orig == s.advanced(first, d1).scale_orig,
        s.advanced(first, d1).advanced(later, d2).scale_start == s.advanced(first, d1).scale_start,
{
}

/// Updates add up: two updates advance the elapsed time by the sum of their steps.
pub proof fn lemma_scale_updates_add_up<V, F>(s: ScaleEasingState<V, F>, c1: V, d1: u128, c2: V, d2: u128)
    requires
        s.elapsed + d1 + d2 <= u128::MAX,
    ensures
        s.advanced(c1, d1).advanced(c2, d2).elapsed == s.elapsed + d1 + d2,
{
}

/// A repeating effect that reached its end starts over and runs again (when it has an
/// easing function); one that does not repeat keeps its state.
pub proof fn lemma_scale_repeat_restarts<V, F>(s: ScaleEasingState<V, F>)
    ensures
        s.reaches_end() && s.repeat && s.function is Some ==> s.finished().is_running() && s.finished().elapsed == 0,
        !s.repeat ==> s.finished() == s,
{
}

/// Before its end an effect keeps running, repeating or not: an update that leaves the
/// elapsed time below a duration under `2^24` ms is kept whole by `finish`, so a repeating
/// effect starts over only at its end.
pub proof fn lemma_scale_runs_until_its_end<V, F>(s: ScaleEasingState<V, F>, current: V, delta_ms: u128)
    requires
        s.is_running(),
        s.elapsed + delta_ms < s.duration_ms,
        s.duration_ms < F32_EXACT_LIMIT,
    ensures
        !s.advanced(current, delta_ms).reaches_end(),
        s.advanced(current, delta_ms).finished().elapsed == s.elapsed + delta_ms,
        s.advanced(current, delta_ms).finished().is_running(),
{
    lemma_small_values_are_exact((s.elapsed + delta_ms) as nat, s.duration_ms as nat);
}

/// The first update of an effect that has no original and no start scale eases from the
/// scale the entity has then, and records it as both.
pub proof fn lemma_scale_first_update_starts_here<V, F>(s: ScaleEasingState<V, F>, current: V, delta_ms: u128)
    requires
        s.scale_orig is None,
        s.scale_start is None,
    ensures
        s.advanced(current, delta_ms).scale_start == Some(current),
        s.advanced(current, delta_ms).scale_orig == Some(current),
{
}

} // verus!
