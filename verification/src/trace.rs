//! Runs of the recognizer over sequences of inputs.

use vstd::prelude::*;
use crate::engine::{GestureEngineView, TouchInput};
use crate::event::TouchEvent;
use crate::position::{lemma_transformed_reading_in_range, RawSample};

verus! {

impl GestureEngineView {
    /// The recognizer after a sequence of inputs.
    pub open spec fn after(self, inputs: Seq<TouchInput>) -> GestureEngineView
        decreases inputs.len(),
    {
        if inputs.len() == 0 {
            self
        } else {
            self.after(inputs.drop_last()).next(inputs.last())
        }
    }

    /// The events that a sequence of inputs makes the recognizer report, in
    /// the order in which it reports them.
    pub open spec fn events(self, inputs: Seq<TouchInput>) -> Seq<TouchEvent>
        decreases inputs.len(),
    {
        if inputs.len() == 0 {
            Seq::empty()
        } else {
            let before = inputs.drop_last();
            match self.after(before).emitted(inputs.last()) {
                Some(event) => self.events(before).push(event),
                None => self.events(before),
            }
        }
    }
}

/// The inputs that a sequence of sensor samples makes.
pub open spec fn samples(readings: Seq<RawSample>) -> Seq<TouchInput> {
    Seq::new(readings.len(), |i: int| TouchInput::Sample(readings[i]))
}

/// A well-formed recognizer stays well-formed under any input.
pub proof fn lemma_next_preserves_wf(e: GestureEngineView, input: TouchInput)
    requires
        e.wf(),
    ensures
        e.next(input).wf(),
{
    match input {
        TouchInput::Sample(sample) => {
            lemma_transformed_reading_in_range(e.transform, sample.x[0] as int);
            lemma_transformed_reading_in_range(e.transform, sample.y[0] as int);
        },
        TouchInput::Timeout => {},
    }
}

/// A well-formed recognizer stays well-formed under any sequence of inputs,
/// and no input changes its transform.
pub proof fn lemma_after_preserves_wf(e: GestureEngineView, inputs: Seq<TouchInput>)
    requires
        e.wf(),
    ensures
        e.after(inputs).wf(),
        e.after(inputs).transform == e.transform,
    decreases inputs.len(),
{
    if inputs.len() > 0 {
        lemma_after_preserves_wf(e, inputs.drop_last());
        lemma_next_preserves_wf(e.after(inputs.drop_last()), inputs.last());
    }
}

/// For any sequence of inputs the recognizer reports at most one event per
/// input.
pub proof fn lemma_at_most_one_event_per_input(e: GestureEngineView, inputs: Seq<TouchInput>)
    ensures
        e.events(inputs).len() <= inputs.len(),
    decreases inputs.len(),
{
    if inputs.len() > 0 {
        lemma_at_most_one_event_per_input(e, inputs.drop_last());
    }
}

/// A run over one input is one step.
pub proof fn lemma_run_one(e: GestureEngineView, input: TouchInput)
    ensures
        e.after(seq![input]) == e.next(input),
        e.events(seq![input]) == match e.emitted(input) {
            Some(event) => seq![event],
            None => Seq::<TouchEvent>::empty(),
        },
{
    let inputs = seq![input];
    assert(inputs.drop_last() =~= Seq::<TouchInput>::empty());
    assert(inputs.last() == input);
    assert(e.after(inputs.drop_last()) == e);
    assert(e.events(inputs.drop_last()) =~= Seq::<TouchEvent>::empty());
    match e.emitted(input) {
        Some(event) => {
            assert(e.events(inputs) =~= seq![event]);
        },
        None => {},
    }
}

/// A run over two sequences of inputs, one after the other, is the run over
/// the first followed by the run over the second from where the first ended.
pub proof fn lemma_run_concat(e: GestureEngineView, first: Seq<TouchInput>, second: Seq<TouchInput>)
    ensures
        e.after(first + second) == e.after(first).after(second),
        e.events(first + second) == e.events(first) + e.after(first).events(second),
    decreases second.len(),
{
    let all = first + second;
    if second.len() == 0 {
        assert(all =~= first);
        assert(e.events(first) + e.after(first).events(second) =~= e.events(first));
    } else {
        lemma_run_concat(e, first, second.drop_last());
        assert(all.drop_last() =~= first + second.drop_last());
        assert(all.last() == second.last());
        let mid = e.after(first);
        match mid.after(second.drop_last()).emitted(second.last()) {
            Some(event) => {
                assert(e.events(all) =~= e.events(first) + mid.events(second));
            },
            None => {},
        }
    }
}

} // verus!
