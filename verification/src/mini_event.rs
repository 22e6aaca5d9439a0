//! Mini events: after a random gap an event begins, later it ends and the next gap is drawn.
//! Two timers drive it, one that counts down to the next event and one that times the event
//! in progress; this module decides which of them runs, what an update reports and how the
//! timers are set again.
use vstd::prelude::*;

verus! {

/// The random number generator that the game shares, a component of bevy_rand.
#[verifier::external_type_specification]
#[verifier::external_body]
pub struct ExWyRand(bevy_rand::prelude::WyRand);

/// Asks for a mini event to be scheduled; `.0` identifies it.
pub struct StartMiniEvent(pub u64);

/// Asks for the mini events to stop; `.0` identifies the event.
pub struct StopMiniEvent(pub u64);

/// Reports that a mini event began.
pub struct MiniEventBegin;

/// Reports that a mini event ended.
pub struct MiniEventEnd;

/// Asks for the event in progress to last `.0` milliseconds longer.
pub struct MiniEventExtend(pub u64);

/// Bounds of the gap between two mini events, in milliseconds.
pub struct MiniEventSetting {
    pub min_gap: u64,
    pub max_gap: u64,
}

/// What an update reports.
#[derive(PartialEq, Eq, Structural, Debug)]
pub enum MiniEventSignal {
    Begin,
    End,
}

/// The timer that an update advances.
#[derive(PartialEq, Eq, Structural, Debug)]
pub enum TickTarget {
    /// The countdown to the next event.
    NextEvent,
    /// The timer of the event in progress.
    CurrentEvent,
    /// Neither: both are paused.
    Idle,
}

/// How the timers are set once an event ended: the countdown to the next event gets
/// `next_gap_ms`, is reset and runs; the event timer is paused.
pub struct Reschedule {
    pub next_gap_ms: u64,
}

/// Nanoseconds in a millisecond.
pub const NANOS_PER_MILLI: u128 = 1_000_000;

/// `rand::Rng::random_range(rng, low..high)`: a number drawn from `rng` in `low..high`
/// (it panics for an empty range, hence `low < high`).
#[verifier::external_body]
fn draw_in_range(rng: &mut bevy_rand::prelude::WyRand, low: u64, high: u64) -> (r: u64)
    requires
        low < high,
    ensures
        low <= r < high,
{
    rand::Rng::random_range(rng, low..high)
}

impl MiniEventSetting {
    /// `gap` is a gap these bounds allow: drawn from `min_gap..max_gap` when that range is not
    /// empty, `max_gap` when both bounds agree, 0 when they are the wrong way round.
    pub open spec fn allows_gap(&self, gap: u64) -> bool {
        if self.max_gap > self.min_gap {
            self.min_gap <= gap < self.max_gap
        } else if self.max_gap == self.min_gap {
            gap == self.max_gap
        } else {
            gap == 0
        }
    }

    /// The gap before the next mini event, in milliseconds.
    pub fn next_gap_ms(&self, rng: &mut bevy_rand::prelude::WyRand) -> (gap: u64)
        ensures
            self.allows_gap(gap),
    {
        if self.max_gap > self.min_gap {
            draw_in_range(rng, self.min_gap, self.max_gap)
        } else if self.max_gap == self.min_gap {
            self.max_gap
        } else {
            0
        }
    }

    /// How the timers are set after an event ended.
    pub fn reschedule(&self, rng: &mut bevy_rand::prelude::WyRand) -> (r: Reschedule)
        ensures
            self.allows_gap(r.next_gap_ms),
    {
        Reschedule { next_gap_ms: self.next_gap_ms(rng) }
    }
}

impl Default for MiniEventSetting {
    fn default() -> (r: Self)
        ensures
            r.min_gap == 0,
            r.max_gap == 0,
    {
        MiniEventSetting { min_gap: 0, max_gap: 0 }
    }
}

/// The timer that an update advances: the countdown while it runs, else the event timer
/// while it runs.
pub fn tick_target(next_paused: bool, event_paused: bool) -> (r: TickTarget)
    ensures
        r == (if !next_paused {
            TickTarget::NextEvent
        } else if !event_paused {
            TickTarget::CurrentEvent
        } else {
            TickTarget::Idle
        }),
{
    if !next_paused {
        TickTarget::NextEvent
    } else if !event_paused {
        TickTarget::CurrentEvent
    } else {
        TickTarget::Idle
    }
}

/// What an update reports once the timers advanced: an event begins when the countdown just
/// finished, else one ends when the event timer just finished.
pub fn tick_signal(next_just_finished: bool, event_just_finished: bool) -> (r: Option<MiniEventSignal>)
    ensures
        r == (if next_just_finished {
            Some(MiniEventSignal::Begin)
        } else if event_just_finished {
            Some(MiniEventSignal::End)
        } else {
            None
        }),
{
    if next_just_finished {
        Some(MiniEventSignal::Begin)
    } else if event_just_finished {
        Some(MiniEventSignal::End)
    } else {
        None
    }
}

/// Whether the event timer, at `elapsed_ns`, can be set back by `msg.0` milliseconds
/// without going below zero.
pub fn can_extend(elapsed_ns: u128, msg: &MiniEventExtend) -> (r: bool)
    ensures
        r == (msg.0 * NANOS_PER_MILLI <= elapsed_ns),
{
    (msg.0 as u128) * NANOS_PER_MILLI <= elapsed_ns
}

/// The elapsed time of the event timer, in nanoseconds, after the event was extended by
/// `msg.0` milliseconds: that much less.
pub fn extended_elapsed_ns(elapsed_ns: u128, msg: &MiniEventExtend) -> (r: u128)
    requires
        msg.0 * NANOS_PER_MILLI <= elapsed_ns,
    ensures
        r == elapsed_ns - msg.0 * NANOS_PER_MILLI,
{
    elapsed_ns - (msg.0 as u128) * NANOS_PER_MILLI
}

} // verus!
