//! What holds of the dial in every state and over every run of presses.

use crate::control::{dial_after_all, Button};
use crate::dial::{DialState, SPINAL_TAP_MAX, SPINAL_TAP_MIN};
use vstd::prelude::*;

verus! {

/// Each operation takes a valid state to a valid state.
pub proof fn lemma_operations_keep_valid(d: DialState)
    requires
        d.valid(),
    ensures
        d.increment().valid(),
        d.decrement().valid(),
        d.toggle_mute().valid(),
{
}

/// Saturation: whatever keys are pressed, volume up and volume down among
/// them, in whatever order and however often, the level of a valid dial stays
/// between `SPINAL_TAP_MIN` and `SPINAL_TAP_MAX`, and the state stays valid.
pub proof fn lemma_level_stays_on_dial(d: DialState, presses: Seq<Button>)
    requires
        d.valid(),
    ensures
        dial_after_all(d, presses).valid(),
        SPINAL_TAP_MIN <= dial_after_all(d, presses).level <= SPINAL_TAP_MAX,
    decreases presses.len(),
{
    if presses.len() > 0 {
        lemma_level_stays_on_dial(d, presses.drop_last());
        lemma_operations_keep_valid(dial_after_all(d, presses.drop_last()));
    }
}

/// At the ends of the dial a step changes nothing: a step up at the top and a
/// step down at the bottom leave the whole state as it was.
pub proof fn lemma_step_at_the_end_is_idle(d: DialState)
    requires
        d.valid(),
    ensures
        d.level == SPINAL_TAP_MAX ==> d.increment() == d,
        d.level == SPINAL_TAP_MIN ==> d.decrement() == d,
{
}

/// A step that arrives at an audible level is remembered; a step that arrives
/// at mute leaves the remembered level as it was.
pub proof fn lemma_step_remembers_audible_level(d: DialState)
    ensures
        d.increment().level > SPINAL_TAP_MIN ==> d.increment().last_audible == d.increment().level,
        d.decrement().level > SPINAL_TAP_MIN ==> d.decrement().last_audible == d.decrement().level,
        d.increment().level == SPINAL_TAP_MIN ==> d.increment().last_audible == d.last_audible,
        d.decrement().level == SPINAL_TAP_MIN ==> d.decrement().last_audible == d.last_audible,
{
}

/// Toggling mute twice gives back the state it started from, on an audible
/// dial and on a muted one.
pub proof fn lemma_toggle_mute_twice(d: DialState)
    requires
        d.valid(),
    ensures
        d.toggle_mute().toggle_mute() == d,
{
}

/// A run of mute presses ends where it began if their number is even, and one
/// toggle away if it is odd.
pub proof fn lemma_toggle_mute_times(d: DialState, times: nat)
    requires
        d.valid(),
    ensures
        times % 2 == 0 ==> d.toggle_mute_times(times) == d,
        times % 2 == 1 ==> d.toggle_mute_times(times) == d.toggle_mute(),
    decreases times,
{
    if times > 0 {
        lemma_toggle_mute_times(d, (times - 1) as nat);
        lemma_toggle_mute_twice(d);
    }
}

/// Muting an audible dial and unmuting it brings back the level it had before
/// the mute, also when further pairs of mute presses come in between. Until
/// the last press the dial is mute.
pub proof fn lemma_unmute_restores_level(d: DialState, pairs: nat)
    requires
        d.valid(),
        d.level > SPINAL_TAP_MIN,
    ensures
        d.toggle_mute_times(2 * pairs + 1).level == SPINAL_TAP_MIN,
        d.toggle_mute_times(2 * pairs + 1).last_audible == d.level,
        d.toggle_mute_times(2 * pairs + 2).level == d.level,
{
    lemma_toggle_mute_times(d, 2 * pairs + 1);
    lemma_toggle_mute_times(d, 2 * pairs + 2);
}

} // verus!
