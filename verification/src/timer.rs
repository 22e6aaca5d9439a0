//! Timers that act when they finish.
use vstd::prelude::*;

verus! {

/// What happens to the entity of a timer once the timer finished.
#[derive(PartialEq, Eq, Structural, Debug, Clone, Copy)]
pub enum ActionOnFinish {
    Nothing,
    Despawn,
    Remove,
}

impl Default for ActionOnFinish {
    fn default() -> (r: Self)
        ensures
            r == ActionOnFinish::Nothing,
    {
        ActionOnFinish::Nothing
    }
}

/// Reports that a timer finished.
pub struct AutoTimerFinished;

/// What an update of a timer leads to: when the timer just finished, the finish is reported
/// and `action` is carried out (`Some(action)`); else nothing happens.
pub fn on_timer_update(just_finished: bool, action: ActionOnFinish) -> (r: Option<(AutoTimerFinished, ActionOnFinish)>)
    ensures
        just_finished ==> (r matches Some(p) && p.1 == action),
        !just_finished ==> r is None,
{
    if just_finished {
        Some((AutoTimerFinished, action))
    } else {
        None
    }
}

} // verus!
