//! Easing the translation of an entity from a start position by a gap, over a duration in
//! milliseconds. The vector type `V` and the easing function `F` are carried, not read.
use vstd::prelude::*;
use crate::easing::fraction::{f32_ratio_reaches_one, reached_end};

verus! {

/// The state of a translation easing, field by field.
pub struct TranslationEasingState<V, F> {
    pub translation_gap: V,
    pub translation_orig: Option<V>,
    pub translation_start: Option<V>,
    pub duration_ms: u128,
    pub elapsed: u128,
    pub function: Option<F>,
}

impl<V, F> TranslationEasingState<V, F> {
    /// An update advances the effect: it has an easing function and has not passed its
    /// duration.
    pub open spec fn is_running(&self) -> bool {
        &&& self.elapsed <= self.duration_ms
        &&& self.function is Some
    }

    /// The state after a running effect was updated `delta_ms` after the last update, on an
    /// entity at `current`: `current` is recorded as the original position and the original
    /// as the start where none was set, and `delta_ms` is added to the elapsed time.
    pub open spec fn advanced(self, current: V, delta_ms: u128) -> Self {
        let orig = match self.translation_orig {
            Some(o) => o,
            None => current,
        };
        let start = match self.translation_start {
            Some(s) => s,
            None => orig,
        };
        TranslationEasingState {
            translation_orig: Some(orig),
            translation_start: Some(start),
            elapsed: (self.elapsed + delta_ms) as u128,
            ..self
        }
    }
}

/// A translation easing in progress.
pub struct TranslationEasingEffect<V, F> {
    translation_gap: V,
    translation_orig: Option<V>,
    translation_start: Option<V>,
    duration_ms: u128,
    elapsed: u128,
    function: Option<F>,
}

impl<V, F> View for TranslationEasingEffect<V, F> {
    type V = TranslationEasingState<V, F>;

    closed spec fn view(&self) -> TranslationEasingState<V, F> {
        TranslationEasingState {
            translation_gap: self.translation_gap,
            translation_orig: self.translation_orig,
            translation_start: self.translation_start,
            duration_ms: self.duration_ms,
            elapsed: self.elapsed,
            function: self.function,
        }
    }
}

impl<V: Copy, F: Copy> TranslationEasingEffect<V, F> {
    /// A still effect: gap `translation_gap`, no duration, no function.
    pub fn new(translation_gap: V) -> (r: Self)
        ensures
            r@ == (TranslationEasingState::<V, F> {
                translation_gap,
                translation_orig: None,
                translation_start: None,
                duration_ms: 0,
                elapsed: 0,
                function: None,
            }),
    {
        TranslationEasingEffect {
            translation_gap,
            translation_orig: None,
            translation_start: None,
            duration_ms: 0,
            elapsed: 0,
            function: None,
        }
    }

    /// The position the entity had when the effect first ran, or was given.
    pub fn orig_translation(&self) -> (r: Option<V>)
        ensures
            r == self@.translation_orig,
    {
        self.translation_orig
    }

    /// The gap the entity is eased by.
    pub fn translation_gap(&self) -> (r: V)
        ensures
            r == self@.translation_gap,
    {
        self.translation_gap
    }

    /// The function the entity is eased along.
    pub fn function(&self) -> (r: Option<F>)
        ensures
            r == self@.function,
    {
        self.function
    }

    /// Milliseconds eased so far.
    pub fn elapsed(&self) -> (r: u128)
        ensures
            r == self@.elapsed,
    {
        self.elapsed
    }

    /// The duration of the easing in milliseconds.
    pub fn duration_ms(&self) -> (r: u128)
        ensures
            r == self@.duration_ms,
    {
        self.duration_ms
    }

    /// A shake around `translation_orig`: it starts at `translation_start` (the original
    /// position less the gap) and is eased by `translation_gap` along `function` (an elastic
    /// curve in the game) over `duration_ms`.
    pub fn shake(
        translation_gap: V,
        translation_orig: V,
        translation_start: V,
        duration_ms: u128,
        function: F,
    ) -> (r: Self)
        ensures
            r@ == (TranslationEasingState {
                translation_gap,
                translation_orig: Some(translation_orig),
                translation_start: Some(translation_start),
                duration_ms,
                elapsed: 0,
                function: Some(function),
            }),
    {
        TranslationEasingEffect {
            translation_gap,
            translation_orig: Some(translation_orig),
            translation_start: Some(translation_start),
            duration_ms,
            elapsed: 0,
            function: Some(function),
        }
    }

    /// The same effect over `duration_ms`.
    pub fn with_duration(self, duration_ms: u128) -> (r: Self)
        ensures
            r@ == (TranslationEasingState { duration_ms, ..self@ }),
    {
        let mut r = self;
        r.duration_ms = duration_ms;
        r
    }

    /// The same effect with gap `translation`.
    pub fn with_translation_gap(self, translation: V) -> (r: Self)
        ensures
            r@ == (TranslationEasingState { translation_gap: translation, ..self@ }),
    {
        let mut r = self;
        r.translation_gap = translation;
        r
    }

    /// The same effect along `ease_function`.
    pub fn with_ease_function(self, ease_function: F) -> (r: Self)
        ensures
            r@ == (TranslationEasingState { function: Some(ease_function), ..self@ }),
    {
        let mut r = self;
        r.function = Some(ease_function);
        r
    }

    /// Whether the easing reached its end: the eased fraction, `elapsed as f32 /
    /// duration_ms as f32`, is at least 1.
    pub fn reached_end(&self) -> (r: bool)
        ensures
            r == f32_ratio_reaches_one(self@.elapsed as nat, self@.duration_ms as nat),
    {
        reached_end(self.elapsed, self.duration_ms)
    }

    /// Whether adding `delta_ms` to the elapsed time of a running effect stays in range.
    pub fn can_advance(&self, delta_ms: u128) -> (r: bool)
        ensures
            r == (self@.is_running() ==> self@.elapsed + delta_ms <= u128::MAX),
    {
        if self.elapsed <= self.duration_ms && self.function.is_some() {
            self.elapsed <= u128::MAX - delta_ms
        } else {
            true
        }
    }

    /// An update, `delta_ms` after the last, on an entity at `current`. A running effect
    /// first records `current` as the original position and the original as the start where
    /// none was set, then adds `delta_ms` to the elapsed time and gives the start to ease
    /// from; an effect that does not run is left alone (`None`).
    pub fn advance(&mut self, current: V, delta_ms: u128) -> (r: Option<V>)
        requires
            old(self)@.is_running() ==> old(self)@.elapsed + delta_ms <= u128::MAX,
        ensures
            !old(self)@.is_running() ==> r is None && final(self)@ == old(self)@,
            old(self)@.is_running() ==> {
                &&& final(self)@ == old(self)@.advanced(current, delta_ms)
                &&& r == final(self)@.translation_start
                &&& r == Some(
                    match old(self)@.translation_start {
                        Some(st) => st,
                        None => match old(self)@.translation_orig {
                            Some(o) => o,
                            None => current,
                        },
                    },
                )
                &&& final(self)@.translation_orig == Some(
                    match old(self)@.translation_orig {
                        Some(o) => o,
                        None => current,
                    },
                )
                &&& final(self)@.elapsed == old(self)@.elapsed + delta_ms
            },
    {
        if self.elapsed > self.duration_ms || self.function.is_none() {
            return None;
        }
        if self.translation_orig.is_none() {
            self.translation_orig = Some(current);
        }
        if self.translation_start.is_none() {
            self.translation_start = self.translation_orig;
        }
        self.elapsed = self.elapsed + delta_ms;
        self.translation_start
    }
}

/// A shake eases from the original position less the gap, and keeps that start and the
/// original position whatever the entity's position at the updates.
pub proof fn lemma_shake_keeps_its_start<V, F>(gap: V, orig: V, start: V, duration_ms: u128, f: F, current: V, delta_ms: u128)
    ensures
        ({
            let s = TranslationEasingState {
                translation_gap: gap,
                translation_orig: Some(orig),
                translation_start: Some(start),
                duration_ms,
                elapsed: 0,
                function: Some(f),
            };
            &&& s.is_running()
            &&& s.advanced(current, delta_ms).translation_start == Some(start)
            &&& s.advanced(current, delta_ms).translation_orig == Some(orig)
        }),
{
}

/// Every update of a running effect leaves it with a start to ease from: the first update
/// of an effect that has no original and no start position eases from the position the
/// entity has then, and records it as both.
pub proof fn lemma_translation_first_update_starts_here<V, F>(
    s: TranslationEasingState<V, F>,
    current: V,
    delta_ms: u128,
)
    ensures
        s.advanced(current, delta_ms).translation_start is Some,
        s.advanced(current, delta_ms).translation_orig is Some,
        s.translation_orig is None && s.translation_start is None ==> {
            &&& s.advanced(current, delta_ms).translation_start == Some(current)
            &&& s.advanced(current, delta_ms).translation_orig == Some(current)
        },
{
}

} // verus!
