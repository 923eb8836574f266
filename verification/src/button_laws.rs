//! What holds of a button over whole runs of samples.

use crate::button::{accepted_edge, ButtonEvent, ButtonState, LONG_PRESS_TICKS};
use crate::debounce::{all_samples, shift_in, Transition, DEBOUNCE_SAMPLES};
use vstd::prelude::*;

verus! {

impl ButtonState {
    /// The state after `inputs` have been sampled in order, one per tick.
    pub open spec fn run(self, inputs: Seq<bool>) -> ButtonState
        decreases inputs.len(),
    {
        if inputs.len() == 0 {
            self
        } else {
            self.run(inputs.drop_last()).next(inputs.last())
        }
    }

    /// The event of tick `i` of a run over `inputs`.
    pub open spec fn event_at(self, inputs: Seq<bool>, i: int) -> Option<ButtonEvent>
        recommends
            0 <= i < inputs.len(),
    {
        self.run(inputs.take(i)).emits(inputs[i])
    }

    /// Whether a run over `inputs` has emitted `LongPress` and no `Press`
    /// after it.
    pub open spec fn long_press_seen(self, inputs: Seq<bool>) -> bool
        decreases inputs.len(),
    {
        if inputs.len() == 0 {
            false
        } else {
            match self.run(inputs.drop_last()).emits(inputs.last()) {
                Some(ButtonEvent::Press) => false,
                Some(ButtonEvent::LongPress) => true,
                _ => self.long_press_seen(inputs.drop_last()),
            }
        }
    }
}

/// A register of six samples cannot be all high and all low at once.
pub proof fn lemma_uniform_exclusive(samples: Seq<bool>)
    requires
        samples.len() == DEBOUNCE_SAMPLES,
    ensures
        !(all_samples(samples, true) && all_samples(samples, false)),
{
    if all_samples(samples, true) {
        assert(samples[0]);
    }
}

/// The state of a button that has never been sampled is valid.
pub proof fn lemma_initial_valid()
    ensures
        ButtonState::initial().valid(),
{
    assert(!ButtonState::initial().samples[0]);
}

/// A tick takes a valid state to a valid state.
pub proof fn lemma_next_valid(state: ButtonState, pressed: bool)
    requires
        state.valid(),
    ensures
        state.next(pressed).valid(),
{
    lemma_uniform_exclusive(shift_in(state.samples, pressed));
}

/// A run takes a valid state to a valid state.
pub proof fn lemma_run_valid(state: ButtonState, inputs: Seq<bool>)
    requires
        state.valid(),
    ensures
        state.run(inputs).valid(),
    decreases inputs.len(),
{
    if inputs.len() > 0 {
        lemma_run_valid(state, inputs.drop_last());
        lemma_next_valid(state.run(inputs.drop_last()), inputs.last());
    }
}

/// A run over the first `i + 1` inputs is the run over the first `i`,
/// followed by one tick.
pub proof fn lemma_run_step(state: ButtonState, inputs: Seq<bool>, i: int)
    requires
        0 <= i < inputs.len(),
    ensures
        state.run(inputs.take(i + 1)) == state.run(inputs.take(i)).next(inputs[i]),
{
    assert(inputs.take(i + 1).drop_last() =~= inputs.take(i));
}

/// Every event comes with a register in which all six samples agree with
/// the newest one: a press or a long press with six pressed samples, a
/// release with six released ones.
pub proof fn lemma_event_needs_agreement(state: ButtonState, pressed: bool)
    requires
        state.valid(),
    ensures
        state.emits(pressed) is Some ==> all_samples(shift_in(state.samples, pressed), pressed),
        state.emits(pressed) == Some(ButtonEvent::Press) ==> pressed && !state.level,
        state.emits(pressed) == Some(ButtonEvent::LongPress) ==> pressed && state.level,
        state.emits(pressed) == Some(ButtonEvent::Release) ==> !pressed && state.level,
        state.emits(pressed) == Some(ButtonEvent::LongRelease) ==> !pressed && state.level,
{
    let samples = shift_in(state.samples, pressed);
    assert(samples[DEBOUNCE_SAMPLES - 1] == pressed);
    lemma_uniform_exclusive(samples);
    if all_samples(samples, true) && state.level && !pressed {
        assert(samples[DEBOUNCE_SAMPLES - 1]);
    }
    if state.emits(pressed) == Some(ButtonEvent::LongPress) && !state.level {
        assert(accepted_edge(samples, state.level) == Some(Transition::Rising));
    }
}

/// The hold counter restarts from zero on an accepted press and on no other
/// tick; on every other tick it stays or grows by one, and it never passes
/// the largest value its byte can hold.
pub proof fn law_counter_restarts_on_press(state: ButtonState, pressed: bool)
    requires
        state.valid(),
    ensures
        state.emits(pressed) == Some(ButtonEvent::Press) ==> state.next(pressed).held_for == 0,
        state.emits(pressed) != Some(ButtonEvent::Press) ==> state.held_for <= state.next(
            pressed,
        ).held_for <= state.held_for + 1,
        state.next(pressed).held_for <= u8::MAX,
{
}

/// The register after a run holds the last six samples of what it held
/// before, followed by the inputs.
pub proof fn lemma_register_is_window(state: ButtonState, inputs: Seq<bool>)
    requires
        state.valid(),
    ensures
        state.run(inputs).samples == (state.samples + inputs).subrange(
            inputs.len() as int,
            inputs.len() + DEBOUNCE_SAMPLES,
        ),
    decreases inputs.len(),
{
    if inputs.len() == 0 {
        assert(state.samples =~= (state.samples + inputs).subrange(0, DEBOUNCE_SAMPLES as int));
    } else {
        let before = inputs.drop_last();
        lemma_register_is_window(state, before);
        lemma_run_valid(state, before);
        assert(state.run(inputs).samples =~= (state.samples + inputs).subrange(
            inputs.len() as int,
            inputs.len() + DEBOUNCE_SAMPLES,
        ));
    }
}

/// No event without six agreeing samples: when tick `i` of a run emits an
/// event, the six samples up to and including tick `i` are all equal, as far
/// as the run reaches back.
pub proof fn law_event_needs_six_agreeing(state: ButtonState, inputs: Seq<bool>, i: int)
    requires
        state.valid(),
        0 <= i < inputs.len(),
        state.event_at(inputs, i) is Some,
    ensures
        forall|k: int| 0 <= k <= i && i - k < DEBOUNCE_SAMPLES ==> inputs[k] == inputs[i],
{
    let before = state.run(inputs.take(i));
    lemma_run_valid(state, inputs.take(i));
    lemma_event_needs_agreement(before, inputs[i]);
    lemma_run_step(state, inputs, i);
    lemma_register_is_window(state, inputs.take(i + 1));
    let register = shift_in(before.samples, inputs[i]);
    assert forall|k: int| 0 <= k <= i && i - k < DEBOUNCE_SAMPLES implies inputs[k] == inputs[i] by {
        let at = k - (i + 1) + DEBOUNCE_SAMPLES;
        assert(register[at] == (state.samples + inputs.take(i + 1))[i + 1 + at]);
        assert(register[at] == inputs[i]);
    }
}

/// A button that has never been sampled stays released through its first
/// five ticks.
pub proof fn lemma_fresh_button_released(inputs: Seq<bool>)
    requires
        inputs.len() < DEBOUNCE_SAMPLES,
    ensures
        !ButtonState::initial().run(inputs).level,
    decreases inputs.len(),
{
    let fresh = ButtonState::initial();
    lemma_initial_valid();
    if inputs.len() > 0 {
        lemma_fresh_button_released(inputs.drop_last());
        lemma_register_is_window(fresh, inputs);
        assert(!fresh.run(inputs).samples[0]);
    }
}

/// A button that has never been sampled emits nothing before its sixth
/// tick, and then only after six equal samples.
pub proof fn law_fresh_button_waits(inputs: Seq<bool>, i: int)
    requires
        0 <= i < inputs.len(),
        ButtonState::initial().event_at(inputs, i) is Some,
    ensures
        i >= DEBOUNCE_SAMPLES - 1,
        forall|k: int| i - DEBOUNCE_SAMPLES < k <= i ==> inputs[k] == inputs[i],
{
    let fresh = ButtonState::initial();
    lemma_initial_valid();
    law_event_needs_six_agreeing(fresh, inputs, i);
    if i < DEBOUNCE_SAMPLES - 1 {
        let before = fresh.run(inputs.take(i));
        lemma_run_valid(fresh, inputs.take(i));
        lemma_fresh_button_released(inputs.take(i));
        lemma_run_step(fresh, inputs, i);
        lemma_register_is_window(fresh, inputs.take(i + 1));
        let register = shift_in(before.samples, inputs[i]);
        assert(!register[0]);
        lemma_event_needs_agreement(before, inputs[i]);
    }
}

/// The hold counter has passed the long-press threshold exactly when a long
/// press was emitted and no press after it.
pub proof fn lemma_counter_tracks_long_press(state: ButtonState, inputs: Seq<bool>)
    requires
        state.valid(),
        state.held_for <= LONG_PRESS_TICKS,
    ensures
        state.run(inputs).held_for > LONG_PRESS_TICKS <==> state.long_press_seen(inputs),
    decreases inputs.len(),
{
    if inputs.len() > 0 {
        lemma_counter_tracks_long_press(state, inputs.drop_last());
    }
}

/// `LongPress` comes once per hold: on the tick that emits it, none has been
/// emitted since the last `Press`, and from then on one has.
pub proof fn law_long_press_once(state: ButtonState, inputs: Seq<bool>, i: int)
    requires
        state.valid(),
        state.held_for <= LONG_PRESS_TICKS,
        0 <= i < inputs.len(),
        state.event_at(inputs, i) == Some(ButtonEvent::LongPress),
    ensures
        !state.long_press_seen(inputs.take(i)),
        state.long_press_seen(inputs.take(i + 1)),
{
    lemma_counter_tracks_long_press(state, inputs.take(i));
    assert(inputs.take(i + 1).drop_last() =~= inputs.take(i));
}

/// Every accepted release emits exactly one of `Release` and `LongRelease`:
/// `LongRelease` when the hold has emitted its `LongPress`, `Release` when it
/// has not.
pub proof fn law_release_kind(state: ButtonState, inputs: Seq<bool>, i: int)
    requires
        state.valid(),
        state.held_for <= LONG_PRESS_TICKS,
        0 <= i < inputs.len(),
    ensures
        ({
            let before = state.run(inputs.take(i));
            let falling = accepted_edge(shift_in(before.samples, inputs[i]), before.level) == Some(
                Transition::Falling,
            );
            let event = state.event_at(inputs, i);
            &&& falling && state.long_press_seen(inputs.take(i)) <==> event == Some(
                ButtonEvent::LongRelease,
            )
            &&& falling && !state.long_press_seen(inputs.take(i)) <==> event == Some(
                ButtonEvent::Release,
            )
        }),
{
    lemma_counter_tracks_long_press(state, inputs.take(i));
}

/// A run over `first` followed by `second` is a run over `first`, then a
/// run over `second` from where that ended.
pub proof fn lemma_run_concat(state: ButtonState, first: Seq<bool>, second: Seq<bool>)
    ensures
        state.run(first + second) == state.run(first).run(second),
    decreases second.len(),
{
    if second.len() == 0 {
        assert(first + second =~= first);
    } else {
        lemma_run_concat(state, first, second.drop_last());
        assert((first + second).drop_last() =~= first + second.drop_last());
    }
}

/// The event of tick `j` of a run is the event of tick `j - i` of the run
/// that starts where the first `i` ticks ended.
pub proof fn lemma_event_of_later_run(state: ButtonState, inputs: Seq<bool>, i: int, j: int)
    requires
        0 <= i <= j < inputs.len(),
    ensures
        state.event_at(inputs, j) == state.run(inputs.take(i)).event_at(inputs.skip(i), j - i),
{
    lemma_run_concat(state, inputs.take(i), inputs.skip(i).take(j - i));
    assert(inputs.take(i) + inputs.skip(i).take(j - i) =~= inputs.take(j));
}

/// `LongPress` is never repeated while the button is still held: between
/// two `LongPress` events of a run there is a `Press`.
pub proof fn law_long_press_not_repeated(state: ButtonState, inputs: Seq<bool>, i: int, j: int)
    requires
        state.valid(),
        0 <= i < j < inputs.len(),
        state.event_at(inputs, i) == Some(ButtonEvent::LongPress),
        state.event_at(inputs, j) == Some(ButtonEvent::LongPress),
    ensures
        exists|k: int| i < k < j && state.event_at(inputs, k) == Some(ButtonEvent::Press),
{
    let start = state.run(inputs.take(i));
    let rest = inputs.skip(i);
    lemma_run_valid(state, inputs.take(i));
    lemma_event_of_later_run(state, inputs, i, i);
    lemma_event_of_later_run(state, inputs, i, j);
    law_long_press_once(start, rest, j - i);
    lemma_press_since(start, rest, 0, j - i);
    let found = choose|k: int|
        0 < k < j - i && start.event_at(rest, k) == Some(ButtonEvent::Press);
    lemma_event_of_later_run(state, inputs, i, i + found);
    assert(state.event_at(inputs, i + found) == Some(ButtonEvent::Press));
}

/// If tick `i` emitted `LongPress` and by tick `j` none counts as seen, a
/// `Press` came in between.
proof fn lemma_press_since(state: ButtonState, inputs: Seq<bool>, i: int, j: int)
    requires
        0 <= i < j <= inputs.len(),
        state.event_at(inputs, i) == Some(ButtonEvent::LongPress),
        !state.long_press_seen(inputs.take(j)),
    ensures
        exists|k: int| i < k < j && state.event_at(inputs, k) == Some(ButtonEvent::Press),
    decreases j - i,
{
    let last = j - 1;
    assert(inputs.take(j).drop_last() =~= inputs.take(last));
    assert(inputs.take(j).last() == inputs[last]);
    if state.event_at(inputs, last) != Some(ButtonEvent::Press) {
        lemma_press_since(state, inputs, i, last);
    }
}

} // verus!
