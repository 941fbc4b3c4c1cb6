//! Whole conversations between an operation and the native library: what the operation
//! asks for, hands out and ends with when it is fed a sequence of events, and what holds
//! of that for the operations of the binding.

use vstd::prelude::*;

use crate::dataset::Dataset;
use crate::native::{Answer, Call, Event, RunView};

verus! {

/// How a conversation stands after its last event.
pub ghost enum End<V> {
    /// The operation goes on, from this state.
    Pending(RunView),
    /// The operation ended at the last event, with this result.
    Finished(V),
    /// An event did not answer what was asked, or came after the operation had ended.
    Broken,
}

/// What an operation did over a sequence of events.
pub ghost struct Trace<V> {
    /// The native calls that it asked for, in order.
    pub calls: Seq<Call>,
    /// The datasets that it handed out for the callback, in order.
    pub yields: Seq<Dataset>,
    /// How it stands after the last event.
    pub end: End<V>,
}

impl<V> Trace<V> {
    /// The trace of no events.
    pub open spec fn idle(run: RunView) -> Trace<V> {
        Trace { calls: Seq::empty(), yields: Seq::empty(), end: End::Pending(run) }
    }

    /// The trace of a conversation that went wrong at its first event.
    pub open spec fn broken() -> Trace<V> {
        Trace { calls: Seq::empty(), yields: Seq::empty(), end: End::Broken }
    }

    /// The trace of a conversation that ended at its first event.
    pub open spec fn finished(result: V) -> Trace<V> {
        Trace { calls: Seq::empty(), yields: Seq::empty(), end: End::Finished(result) }
    }

    /// This trace, after a step that asked for a call.
    pub open spec fn asked(self, call: Call) -> Trace<V> {
        Trace { calls: seq![call] + self.calls, ..self }
    }

    /// This trace, after a step that handed out a dataset.
    pub open spec fn handed(self, dataset: Dataset) -> Trace<V> {
        Trace { yields: seq![dataset] + self.yields, ..self }
    }

    /// This trace, followed by another.
    pub open spec fn followed_by(self, next: Trace<V>) -> Trace<V> {
        Trace { calls: self.calls + next.calls, yields: self.yields + next.yields, end: next.end }
    }
}

/// The conversation of an operation, from a state, over a sequence of events: each event
/// is answered by one step, and the next event meets the state that the step left.
pub open spec fn play<V>(
    op: spec_fn(RunView, Event) -> Answer<V>,
    run: RunView,
    events: Seq<Event>,
) -> Trace<V>
    decreases events.len(),
{
    if events.len() == 0 {
        Trace::idle(run)
    } else {
        let rest = events.drop_first();
        match op(run, events[0]) {
            Answer::Call(call, next) => play(op, next, rest).asked(call),
            Answer::Await(next) => play(op, next, rest),
            Answer::Yield(dataset, next) => play(op, next, rest).handed(dataset),
            Answer::Done(result) => if rest.len() == 0 {
                Trace::finished(result)
            } else {
                Trace::broken()
            },
            Answer::Stray(_) => Trace::broken(),
        }
    }
}

/// A conversation can be told in two parts: the second part starts where the first
/// left the operation.
pub proof fn play_in_parts<V>(
    op: spec_fn(RunView, Event) -> Answer<V>,
    run: RunView,
    first: Seq<Event>,
    second: Seq<Event>,
)
    requires
        play(op, run, first).end is Pending,
    ensures
        play(op, run, first + second) == play(op, run, first).followed_by(
            play(op, play(op, run, first).end->Pending_0, second),
        ),
    decreases first.len(),
{
    let whole = first + second;
    let told = play(op, run, first);
    if first.len() == 0 {
        assert(whole =~= second);
        let next = play(op, run, second);
        assert(told.followed_by(next).calls =~= next.calls);
        assert(told.followed_by(next).yields =~= next.yields);
    } else {
        assert(whole[0] == first[0]);
        assert(whole.drop_first() =~= first.drop_first() + second);
        let rest = first.drop_first();
        match op(run, first[0]) {
            Answer::Call(call, next) => {
                play_in_parts(op, next, rest, second);
                let a = play(op, next, rest);
                let b = play(op, a.end->Pending_0, second);
                assert(a.followed_by(b).asked(call).calls =~= a.asked(call).followed_by(b).calls);
            },
            Answer::Await(next) => {
                play_in_parts(op, next, rest, second);
            },
            Answer::Yield(dataset, next) => {
                play_in_parts(op, next, rest, second);
                let a = play(op, next, rest);
                let b = play(op, a.end->Pending_0, second);
                assert(a.followed_by(b).handed(dataset).yields =~= a.handed(dataset).followed_by(b).yields);
            },
            Answer::Done(_) => {},
            Answer::Stray(_) => {},
        }
    }
}

/// A conversation can be told from its first event on.
pub proof fn play_from_first<V>(
    op: spec_fn(RunView, Event) -> Answer<V>,
    run: RunView,
    event: Event,
    rest: Seq<Event>,
)
    ensures
        play(op, run, seq![event] + rest) == match op(run, event) {
            Answer::Call(call, next) => play(op, next, rest).asked(call),
            Answer::Await(next) => play(op, next, rest),
            Answer::Yield(dataset, next) => play(op, next, rest).handed(dataset),
            Answer::Done(result) => if rest.len() == 0 {
                Trace::finished(result)
            } else {
                Trace::broken()
            },
            Answer::Stray(_) => Trace::broken(),
        },
{
    let events = seq![event] + rest;
    assert(events[0] == event);
    assert(events.drop_first() =~= rest);
}

/// An answer seen through a translation of its call, its state and its result.
pub open spec fn seen<V, W>(
    answer: Answer<V>,
    call: spec_fn(Call) -> Call,
    state: spec_fn(RunView) -> RunView,
    result: spec_fn(V) -> W,
) -> Answer<W> {
    match answer {
        Answer::Call(asked, next) => Answer::Call(call(asked), state(next)),
        Answer::Await(next) => Answer::Await(state(next)),
        Answer::Yield(dataset, next) => Answer::Yield(dataset, state(next)),
        Answer::Done(value) => Answer::Done(result(value)),
        Answer::Stray(left) => Answer::Stray(state(left)),
    }
}

/// A trace seen through a translation of its calls, its state and its result.
pub open spec fn trace_seen<V, W>(
    trace: Trace<V>,
    call: spec_fn(Call) -> Call,
    state: spec_fn(RunView) -> RunView,
    result: spec_fn(V) -> W,
) -> Trace<W> {
    Trace {
        calls: Seq::new(trace.calls.len(), |i: int| call(trace.calls[i])),
        yields: trace.yields,
        end: match trace.end {
            End::Pending(left) => End::Pending(state(left)),
            End::Finished(value) => End::Finished(result(value)),
            End::Broken => End::Broken,
        },
    }
}

/// Whether an operation does, step by step, what another does, seen through a
/// translation.
pub open spec fn mirrors<V, W>(
    op: spec_fn(RunView, Event) -> Answer<W>,
    model: spec_fn(RunView, Event) -> Answer<V>,
    call: spec_fn(Call) -> Call,
    state: spec_fn(RunView) -> RunView,
    result: spec_fn(V) -> W,
) -> bool {
    forall|run: RunView, event: Event| #[trigger]
        op(state(run), event) == seen(model(run, event), call, state, result)
}

/// An operation that mirrors another, step by step, mirrors it over every conversation:
/// what holds of the one's traces holds, through the translation, of the other's.
pub proof fn play_mirrors<V, W>(
    op: spec_fn(RunView, Event) -> Answer<W>,
    model: spec_fn(RunView, Event) -> Answer<V>,
    call: spec_fn(Call) -> Call,
    state: spec_fn(RunView) -> RunView,
    result: spec_fn(V) -> W,
    run: RunView,
    events: Seq<Event>,
)
    requires
        mirrors(op, model, call, state, result),
    ensures
        play(op, state(run), events) == trace_seen(
            play(model, run, events),
            call,
            state,
            result,
        ),
    decreases events.len(),
{
    let told = play(op, state(run), events);
    let meant = trace_seen(play(model, run, events), call, state, result);
    if events.len() == 0 {
        assert(told.calls =~= meant.calls);
    } else {
        let rest = events.drop_first();
        assert(op(state(run), events[0]) == seen(model(run, events[0]), call, state, result));
        match model(run, events[0]) {
            Answer::Call(_, next) => {
                play_mirrors(op, model, call, state, result, next, rest);
                assert(told.calls =~= meant.calls);
            },
            Answer::Await(next) => {
                play_mirrors(op, model, call, state, result, next, rest);
            },
            Answer::Yield(_, next) => {
                play_mirrors(op, model, call, state, result, next, rest);
                assert(told.calls =~= meant.calls);
                assert(told.yields =~= meant.yields);
            },
            Answer::Done(_) => {
                assert(told.calls =~= meant.calls);
            },
            Answer::Stray(_) => {
                assert(told.calls =~= meant.calls);
            },
        }
    }
}

/// The events by which an enumeration pushes the given handles, in order.
pub open spec fn items(handles: Seq<usize>) -> Seq<Event> {
    Seq::new(handles.len(), |i: int| Event::Item(handles[i]))
}

/// The given handles as datasets of one context, in order.
pub open spec fn wrapped(libzfs: usize, handles: Seq<usize>) -> Seq<Dataset> {
    Seq::new(handles.len(), |i: int| Dataset { libzfs, handle: handles[i] })
}

/// The calls that close the given datasets, in order.
pub open spec fn closings(datasets: Seq<Dataset>) -> Seq<Call> {
    Seq::new(datasets.len(), |i: int| Call::DatasetClose { dataset: datasets[i].handle })
}

/// As many returns of a call without a result as asked.
pub open spec fn acknowledgements(count: nat) -> Seq<Event> {
    Seq::new(count, |i: int| Event::Returned)
}

/// None of the handles is null.
pub open spec fn none_null(handles: Seq<usize>) -> bool {
    forall|i: int| 0 <= i < handles.len() ==> handles[i] != 0
}

} // verus!
