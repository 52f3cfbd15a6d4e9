//! Properties of runs of the adapter over several calls.
use vstd::prelude::*;
use crate::adapter::{awaits_input, poll_post, resume_post, CoderAdapter, Phase, Step, Upstream};

verus! {

/// The state before the `i`-th call of a run that starts in `start` and passes
/// through `states`.
pub open spec fn before(start: CoderAdapter, states: Seq<CoderAdapter>, i: int) -> CoderAdapter {
    if i == 0 {
        start
    } else {
        states[i - 1]
    }
}

proof fn finished_at(start: CoderAdapter, states: Seq<CoderAdapter>, steps: Seq<Step>, i: int)
    requires
        start@.phase == Phase::Finished,
        steps.len() == states.len(),
        forall|j: int|
            0 <= j < states.len() ==> poll_post(#[trigger] before(start, states, j), states[j], steps[j]),
        0 <= i < states.len(),
    ensures
        steps[i] is End,
        states[i] == start,
    decreases i,
{
    if i > 0 {
        finished_at(start, states, steps, i - 1);
    }
    assert(poll_post(before(start, states, i), states[i], steps[i]));
}

/// Once an adapter has finished, every further poll yields the end of the output and
/// leaves the adapter as it was, however often it is polled.
pub proof fn finished_stays_finished(
    start: CoderAdapter,
    states: Seq<CoderAdapter>,
    steps: Seq<Step>,
)
    requires
        start@.phase == Phase::Finished,
        steps.len() == states.len(),
        forall|i: int|
            0 <= i < states.len() ==> poll_post(#[trigger] before(start, states, i), states[i], steps[i]),
    ensures
        forall|i: int| 0 <= i < states.len() ==> #[trigger] steps[i] is End && states[i] == start,
{
    assert forall|i: int| 0 <= i < states.len() implies #[trigger] steps[i] is End && states[i] == start by {
        finished_at(start, states, steps, i);
    }
}

proof fn waiting_at(
    start: CoderAdapter,
    polled: Seq<CoderAdapter>,
    asks: Seq<Step>,
    states: Seq<CoderAdapter>,
    answers: Seq<Step>,
    i: int,
)
    requires
        start.wf(),
        awaits_input(start@),
        polled.len() == states.len(),
        asks.len() == states.len(),
        answers.len() == states.len(),
        forall|j: int|
            0 <= j < states.len() ==> {
                &&& poll_post(#[trigger] before(start, states, j), polled[j], asks[j])
                &&& resume_post(polled[j], Upstream::NotReady, states[j], answers[j])
            },
        0 <= i < states.len(),
    ensures
        asks[i] is NeedInput,
        answers[i] is Pending,
        polled[i] == start,
        states[i] == start,
    decreases i,
{
    if i > 0 {
        waiting_at(start, polled, asks, states, answers, i - 1);
    }
    assert(poll_post(before(start, states, i), polled[i], asks[i]));
    assert(resume_post(polled[i], Upstream::NotReady, states[i], answers[i]));
}

/// While the upstream source keeps answering "not ready", each round of a poll and the
/// hand-over of that answer yields "not ready" and leaves the adapter exactly as it
/// was, scratch buffer and coder included; the chunk that comes at last therefore
/// meets the adapter in the state it would have met without the wait.
pub proof fn waiting_leaves_no_trace(
    start: CoderAdapter,
    polled: Seq<CoderAdapter>,
    asks: Seq<Step>,
    states: Seq<CoderAdapter>,
    answers: Seq<Step>,
)
    requires
        start.wf(),
        awaits_input(start@),
        polled.len() == states.len(),
        asks.len() == states.len(),
        answers.len() == states.len(),
        forall|i: int|
            0 <= i < states.len() ==> {
                &&& poll_post(#[trigger] before(start, states, i), polled[i], asks[i])
                &&& resume_post(polled[i], Upstream::NotReady, states[i], answers[i])
            },
    ensures
        forall|i: int|
            0 <= i < states.len() ==> {
                &&& #[trigger] asks[i] is NeedInput
                &&& answers[i] is Pending
                &&& polled[i] == start
                &&& states[i] == start
            },
{
    assert forall|i: int| 0 <= i < states.len() implies {
        &&& #[trigger] asks[i] is NeedInput
        &&& answers[i] is Pending
        &&& polled[i] == start
        &&& states[i] == start
    } by {
        waiting_at(start, polled, asks, states, answers, i);
    }
}

} // verus!
