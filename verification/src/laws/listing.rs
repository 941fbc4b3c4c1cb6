//! Enumerations: what the two shapes return and hand out, in which order, and what
//! becomes of the handles when the enumeration fails.

use vstd::prelude::*;

use crate::bridge::{failing, spec_collect, spec_forward, spec_gather};
use crate::conversation::{
    acknowledgements,
    closings,
    items,
    none_null,
    play,
    play_from_first,
    play_in_parts,
    wrapped,
    End,
    Trace,
};
use crate::dataset::Dataset;
use crate::error::{Error, SysError, ZfsError, ZfsErrorCode};
use crate::native::{Answer, Call, Event, RunView, Stage};

verus! {

/// The events of an enumeration that pushes the given handles and then succeeds.
pub open spec fn enumeration(handles: Seq<usize>) -> Seq<Event> {
    seq![Event::Begin] + items(handles) + seq![Event::Status(0)]
}

/// The events of an enumeration that pushes the given handles and then fails with the
/// given status, and of reading the failure.
pub open spec fn failed_enumeration(
    handles: Seq<usize>,
    status: i32,
    slot: ZfsError,
    system: SysError,
) -> Seq<Event> {
    seq![Event::Begin] + items(handles) + seq![Event::Status(status)] + readings(slot, system)
}

/// What the error slot and the system are read as after a failure: the slot, and the
/// system's last error if the slot holds the unknown code.
pub open spec fn readings(slot: ZfsError, system: SysError) -> Seq<Event> {
    if slot.code != ZfsErrorCode::EZFS_UNKNOWN {
        seq![Event::LibraryError(slot)]
    } else {
        seq![Event::LibraryError(slot), Event::SystemError(system)]
    }
}

/// The calls by which a failure is read from the given error slot.
pub open spec fn diagnosis(libzfs: usize, slot: ZfsError) -> Seq<Call> {
    if slot.code != ZfsErrorCode::EZFS_UNKNOWN {
        seq![Call::LibraryError { libzfs }]
    } else {
        seq![Call::LibraryError { libzfs }, Call::SystemError]
    }
}

/// The failure that is read from the given error slot: the slot itself, or the system's
/// last error if the slot holds the unknown code.
pub open spec fn diagnosed(slot: ZfsError, system: SysError) -> Error {
    if slot.code != ZfsErrorCode::EZFS_UNKNOWN {
        Error::Zfs(slot)
    } else {
        Error::Sys(system)
    }
}

/// An enumeration in the list shape, as an operation.
pub open spec fn collecting(libzfs: usize, call: Call) -> spec_fn(RunView, Event) -> Answer<
    Result<Seq<Dataset>, Error>,
> {
    |run: RunView, event: Event| spec_collect(libzfs, call, run, event)
}

/// An enumeration in the callback shape, as an operation.
pub open spec fn forwarding(libzfs: usize, call: Call) -> spec_fn(RunView, Event) -> Answer<
    Result<(), Error>,
> {
    |run: RunView, event: Event| spec_forward(libzfs, call, run, event)
}

/// Whether an operation, once its enumerating call is made, gathers what is pushed as the
/// list shape does.
pub open spec fn gathers(
    op: spec_fn(RunView, Event) -> Answer<Result<Seq<Dataset>, Error>>,
    libzfs: usize,
) -> bool {
    forall|run: RunView, handle: usize|
        run.stage == Stage::Asked ==> #[trigger] op(run, Event::Item(handle)) == spec_gather(
            libzfs,
            run,
            Event::Item(handle),
        )
}

/// Whether an operation, once its enumeration has failed, reads the failure and closes
/// what it gathered as the list shape does.
pub open spec fn discards(
    op: spec_fn(RunView, Event) -> Answer<Result<Seq<Dataset>, Error>>,
    libzfs: usize,
) -> bool {
    forall|run: RunView, event: Event|
        (run.stage == Stage::Asked && event is Status && event != Event::Status(0)) || run.stage
            == Stage::LibraryError || run.stage == Stage::SystemError || run.stage
            == Stage::Discarding ==> #[trigger] op(run, event) == spec_gather(libzfs, run, event)
}

/// While the enumerating call runs, an operation that gathers asks for nothing and hands
/// nothing out: it appends the handles that are pushed, in the order in which they come,
/// to what it has gathered.
pub proof fn gathering_keeps_the_order(
    op: spec_fn(RunView, Event) -> Answer<Result<Seq<Dataset>, Error>>,
    libzfs: usize,
    run: RunView,
    handles: Seq<usize>,
)
    requires
        gathers(op, libzfs),
        run.stage == Stage::Asked,
        none_null(handles),
    ensures
        play(op, run, items(handles)) == Trace::<Result<Seq<Dataset>, Error>>::idle(
            RunView { datasets: run.datasets + wrapped(libzfs, handles), ..run },
        ),
    decreases handles.len(),
{
    if handles.len() == 0 {
        assert(run.datasets + wrapped(libzfs, handles) =~= run.datasets);
    } else {
        let next = RunView {
            datasets: run.datasets.push(Dataset { libzfs, handle: handles[0] }),
            ..run
        };
        assert(items(handles)[0] == Event::Item(handles[0]));
        assert(op(run, Event::Item(handles[0])) == Answer::<Result<Seq<Dataset>, Error>>::Await(
            next,
        ));
        assert(items(handles).drop_first() =~= items(handles.drop_first()));
        gathering_keeps_the_order(op, libzfs, next, handles.drop_first());
        assert(next.datasets + wrapped(libzfs, handles.drop_first()) =~= run.datasets + wrapped(
            libzfs,
            handles,
        ));
    }
}

/// While the enumerating call runs, the callback shape asks for nothing and keeps
/// nothing: it hands out the handles that are pushed, in the order in which they come.
pub proof fn forwarding_hands_out_in_order(
    libzfs: usize,
    call: Call,
    run: RunView,
    handles: Seq<usize>,
)
    requires
        run.stage == Stage::Asked,
        none_null(handles),
    ensures
        play(forwarding(libzfs, call), run, items(handles)) == (Trace::<Result<(), Error>> {
            calls: Seq::empty(),
            yields: wrapped(libzfs, handles),
            end: End::Pending(run),
        }),
    decreases handles.len(),
{
    let op = forwarding(libzfs, call);
    if handles.len() == 0 {
        assert(wrapped(libzfs, handles) =~= Seq::<Dataset>::empty());
    } else {
        let first = Dataset { libzfs, handle: handles[0] };
        assert(items(handles)[0] == Event::Item(handles[0]));
        assert(op(run, items(handles)[0]) == Answer::<Result<(), Error>>::Yield(first, run));
        assert(items(handles).drop_first() =~= items(handles.drop_first()));
        forwarding_hands_out_in_order(libzfs, call, run, handles.drop_first());
        assert(seq![first] + wrapped(libzfs, handles.drop_first()) =~= wrapped(libzfs, handles));
    }
}

/// After a failure is known, each return of a closing call is answered by closing the
/// next gathered dataset; when the last one is closed the operation ends with the failure.
pub proof fn discarding_closes_the_rest(
    op: spec_fn(RunView, Event) -> Answer<Result<Seq<Dataset>, Error>>,
    libzfs: usize,
    run: RunView,
    error: Error,
)
    requires
        discards(op, libzfs),
        run.stage == Stage::Discarding,
        run.failure == Some(error),
        run.next < run.datasets.len(),
    ensures
        play(op, run, acknowledgements((run.datasets.len() - run.next) as nat)) == (Trace {
            calls: closings(run.datasets).subrange(
                run.next as int + 1,
                run.datasets.len() as int,
            ),
            yields: Seq::empty(),
            end: End::Finished(Err::<Seq<Dataset>, Error>(error)),
        }),
    decreases run.datasets.len() - run.next,
{
    let count = (run.datasets.len() - run.next) as nat;
    let rest = acknowledgements((count - 1) as nat);
    assert(acknowledgements(count) =~= seq![Event::Returned] + rest);
    play_from_first(op, run, Event::Returned, rest);
    let next = RunView { next: run.next + 1, ..run };
    let trace = play(op, run, acknowledgements(count));
    let expected = closings(run.datasets).subrange(run.next as int + 1, run.datasets.len() as int);
    if next.next < next.datasets.len() {
        discarding_closes_the_rest(op, libzfs, next, error);
        assert(trace.calls =~= expected);
    } else {
        assert(trace.calls =~= expected);
    }
}

/// Once an enumeration has failed, in a state that holds what was gathered: the failure
/// is read from the error slot, before anything else is asked of the library; then every
/// gathered dataset is closed, each once and in the order in which it came, and the
/// operation ends with the failure.
pub proof fn failure_closes_what_was_gathered(
    op: spec_fn(RunView, Event) -> Answer<Result<Seq<Dataset>, Error>>,
    libzfs: usize,
    run: RunView,
    status: i32,
    slot: ZfsError,
    system: SysError,
)
    requires
        discards(op, libzfs),
        run.stage == Stage::Asked,
        status != 0,
    ensures
        play(
            op,
            run,
            seq![Event::Status(status)] + readings(slot, system) + acknowledgements(
                run.datasets.len(),
            ),
        ) == (Trace {
            calls: diagnosis(libzfs, slot) + closings(run.datasets),
            yields: Seq::empty(),
            end: End::Finished(Err::<Seq<Dataset>, Error>(diagnosed(slot, system))),
        }),
{
    let gathered = run.datasets;
    let error = diagnosed(slot, system);
    let acks = acknowledgements(gathered.len());
    let read = run.at(Stage::LibraryError);
    let doomed = failing(read, error);
    if gathered.len() > 0 {
        discarding_closes_the_rest(op, libzfs, doomed, error);
    }
    let tail = seq![Event::Status(status)] + readings(slot, system) + acks;
    if slot.code != ZfsErrorCode::EZFS_UNKNOWN {
        assert(tail =~= seq![Event::Status(status)] + (seq![Event::LibraryError(slot)] + acks));
        play_from_first(op, run, Event::Status(status), seq![Event::LibraryError(slot)] + acks);
        play_from_first(op, read, Event::LibraryError(slot), acks);
    } else {
        let last = seq![Event::SystemError(system)] + acks;
        assert(tail =~= seq![Event::Status(status)] + (seq![Event::LibraryError(slot)] + last));
        play_from_first(op, run, Event::Status(status), seq![Event::LibraryError(slot)] + last);
        play_from_first(op, read, Event::LibraryError(slot), last);
        play_from_first(op, read.at(Stage::SystemError), Event::SystemError(system), acks);
        assert(failing(read.at(Stage::SystemError), error) == doomed);
    }
    let ended = play(op, run, tail);
    assert(ended.calls =~= diagnosis(libzfs, slot) + closings(gathered)) by {
        if gathered.len() > 0 {
            assert(closings(gathered) =~= seq![
                Call::DatasetClose { dataset: gathered[0].handle },
            ] + closings(gathered).subrange(1, gathered.len() as int));
        } else {
            assert(closings(gathered) =~= Seq::<Call>::empty());
        }
    }
    assert(ended.yields =~= Seq::<Dataset>::empty());
}

/// An enumeration that succeeds, in the list shape: the enumerating call is the only
/// call, and the result is the handles that were pushed, each wrapped with the context,
/// all of them and in the order in which they came.
pub proof fn listing_returns_what_was_pushed(libzfs: usize, call: Call, handles: Seq<usize>)
    requires
        none_null(handles),
    ensures
        play(collecting(libzfs, call), RunView::fresh(), enumeration(handles)) == (Trace {
            calls: seq![call],
            yields: Seq::empty(),
            end: End::Finished(Ok::<Seq<Dataset>, Error>(wrapped(libzfs, handles))),
        }),
{
    let op = collecting(libzfs, call);
    let fresh = RunView::fresh();
    let none = Seq::<Event>::empty();
    let asked = fresh.at(Stage::Asked);
    let full = RunView { datasets: asked.datasets + wrapped(libzfs, handles), ..asked };
    assert(full.datasets =~= wrapped(libzfs, handles));
    gathering_keeps_the_order(op, libzfs, asked, handles);
    assert(seq![Event::Status(0)] =~= seq![Event::Status(0)] + none);
    play_from_first(op, full, Event::Status(0), none);
    play_in_parts(op, asked, items(handles), seq![Event::Status(0)]);
    assert(enumeration(handles) =~= seq![Event::Begin] + (items(handles) + seq![
        Event::Status(0),
    ]));
    play_from_first(op, fresh, Event::Begin, items(handles) + seq![Event::Status(0)]);
    let trace = play(op, fresh, enumeration(handles));
    assert(trace.calls =~= seq![call]);
    assert(trace.yields =~= Seq::<Dataset>::empty());
}

/// An enumeration that succeeds, in the callback shape: the enumerating call is the only
/// call, and the handles that were pushed are handed out, each wrapped with the context,
/// all of them and in the order in which they came.
pub proof fn callback_gets_what_was_pushed(libzfs: usize, call: Call, handles: Seq<usize>)
    requires
        none_null(handles),
    ensures
        play(forwarding(libzfs, call), RunView::fresh(), enumeration(handles)) == (Trace {
            calls: seq![call],
            yields: wrapped(libzfs, handles),
            end: End::Finished(Ok::<(), Error>(())),
        }),
{
    let op = forwarding(libzfs, call);
    let fresh = RunView::fresh();
    let none = Seq::<Event>::empty();
    let asked = fresh.at(Stage::Asked);
    forwarding_hands_out_in_order(libzfs, call, asked, handles);
    assert(seq![Event::Status(0)] =~= seq![Event::Status(0)] + none);
    play_from_first(op, asked, Event::Status(0), none);
    play_in_parts(op, asked, items(handles), seq![Event::Status(0)]);
    assert(enumeration(handles) =~= seq![Event::Begin] + (items(handles) + seq![
        Event::Status(0),
    ]));
    play_from_first(op, fresh, Event::Begin, items(handles) + seq![Event::Status(0)]);
    let trace = play(op, fresh, enumeration(handles));
    assert(trace.calls =~= seq![call]);
    assert(trace.yields =~= wrapped(libzfs, handles));
}

/// Over the same enumeration the two shapes agree: they make the same call, and the list
/// that the one returns is what the other hands out, dataset by dataset in the same
/// order.
pub proof fn both_shapes_agree(libzfs: usize, call: Call, handles: Seq<usize>)
    requires
        none_null(handles),
    ensures
        ({
            let listed = play(collecting(libzfs, call), RunView::fresh(), enumeration(handles));
            let called = play(forwarding(libzfs, call), RunView::fresh(), enumeration(handles));
            &&& listed.calls == called.calls
            &&& listed.end == End::Finished(Ok::<Seq<Dataset>, Error>(called.yields))
            &&& called.end == End::Finished(Ok::<(), Error>(()))
        }),
{
    listing_returns_what_was_pushed(libzfs, call, handles);
    callback_gets_what_was_pushed(libzfs, call, handles);
}

/// The list keeps the order of the enumeration: if the native library pushes the handles
/// oldest first, as it does for the ordered enumeration of snapshots, the list is oldest
/// first, whatever the age of a handle is.
pub proof fn listing_keeps_the_order(
    libzfs: usize,
    call: Call,
    handles: Seq<usize>,
    age: spec_fn(usize) -> int,
)
    requires
        none_null(handles),
        forall|i: int, j: int| 0 <= i <= j < handles.len() ==> age(handles[i]) <= age(handles[j]),
    ensures
        play(collecting(libzfs, call), RunView::fresh(), enumeration(handles)).end matches End::Finished(
            Ok(list),
        ) && list.len() == handles.len() && forall|i: int, j: int|
            0 <= i <= j < list.len() ==> age(list[i].handle) <= age(list[j].handle),
{
    listing_returns_what_was_pushed(libzfs, call, handles);
}

/// An enumeration that fails, in the list shape. After the status the failure is read
/// from the error slot, before anything else is asked of the library. Then every dataset
/// that was gathered is closed, each once and in the order in which it came, and the
/// operation ends with the failure: nothing of what was gathered is returned, and nothing
/// is left open.
pub proof fn failed_listing_closes_what_it_gathered(
    libzfs: usize,
    call: Call,
    handles: Seq<usize>,
    status: i32,
    slot: ZfsError,
    system: SysError,
)
    requires
        none_null(handles),
        status != 0,
    ensures
        play(
            collecting(libzfs, call),
            RunView::fresh(),
            failed_enumeration(handles, status, slot, system) + acknowledgements(handles.len()),
        ) == (Trace {
            calls: seq![call] + diagnosis(libzfs, slot) + closings(wrapped(libzfs, handles)),
            yields: Seq::empty(),
            end: End::Finished(Err::<Seq<Dataset>, Error>(diagnosed(slot, system))),
        }),
{
    let op = collecting(libzfs, call);
    let fresh = RunView::fresh();
    let asked = fresh.at(Stage::Asked);
    let gathered = wrapped(libzfs, handles);
    let full = RunView { datasets: asked.datasets + gathered, ..asked };
    assert(full.datasets =~= gathered);
    let acks = acknowledgements(handles.len());
    let tail = seq![Event::Status(status)] + readings(slot, system) + acks;
    let events = failed_enumeration(handles, status, slot, system) + acks;
    failure_closes_what_was_gathered(op, libzfs, full, status, slot, system);
    gathering_keeps_the_order(op, libzfs, asked, handles);
    play_in_parts(op, asked, items(handles), tail);
    assert(events =~= seq![Event::Begin] + (items(handles) + tail));
    play_from_first(op, fresh, Event::Begin, items(handles) + tail);
    let trace = play(op, fresh, events);
    assert(trace.calls =~= seq![call] + diagnosis(libzfs, slot) + closings(gathered));
    assert(trace.yields =~= Seq::<Dataset>::empty());
}

/// An enumeration that fails, in the callback shape. What was pushed before the failure
/// was handed out, in order, and stays handed out; after the status the failure is read
/// from the error slot and the operation ends with it.
pub proof fn failed_callback_keeps_what_it_handed_out(
    libzfs: usize,
    call: Call,
    handles: Seq<usize>,
    status: i32,
    slot: ZfsError,
    system: SysError,
)
    requires
        none_null(handles),
        status != 0,
    ensures
        play(
            forwarding(libzfs, call),
            RunView::fresh(),
            failed_enumeration(handles, status, slot, system),
        ) == (Trace {
            calls: seq![call] + diagnosis(libzfs, slot),
            yields: wrapped(libzfs, handles),
            end: End::Finished(Err::<(), Error>(diagnosed(slot, system))),
        }),
{
    let op = forwarding(libzfs, call);
    let fresh = RunView::fresh();
    let none = Seq::<Event>::empty();
    let asked = fresh.at(Stage::Asked);
    let read = asked.at(Stage::LibraryError);
    let tail = if slot.code != ZfsErrorCode::EZFS_UNKNOWN {
        seq![Event::Status(status), Event::LibraryError(slot)]
    } else {
        seq![Event::Status(status), Event::LibraryError(slot), Event::SystemError(system)]
    };
    if slot.code != ZfsErrorCode::EZFS_UNKNOWN {
        assert(tail =~= seq![Event::Status(status)] + (seq![Event::LibraryError(slot)] + none));
        play_from_first(op, asked, Event::Status(status), seq![Event::LibraryError(slot)] + none);
        play_from_first(op, read, Event::LibraryError(slot), none);
    } else {
        let last = seq![Event::SystemError(system)] + none;
        assert(tail =~= seq![Event::Status(status)] + (seq![Event::LibraryError(slot)] + last));
        play_from_first(op, asked, Event::Status(status), seq![Event::LibraryError(slot)] + last);
        play_from_first(op, read, Event::LibraryError(slot), last);
        play_from_first(op, read.at(Stage::SystemError), Event::SystemError(system), none);
    }
    let ended = play(op, asked, tail);
    assert(ended.calls =~= diagnosis(libzfs, slot));
    forwarding_hands_out_in_order(libzfs, call, asked, handles);
    play_in_parts(op, asked, items(handles), tail);
    let events = failed_enumeration(handles, status, slot, system);
    assert(events =~= seq![Event::Begin] + (items(handles) + tail));
    play_from_first(op, fresh, Event::Begin, items(handles) + tail);
    let trace = play(op, fresh, events);
    assert(trace.calls =~= seq![call] + diagnosis(libzfs, slot));
    assert(trace.yields =~= wrapped(libzfs, handles));
}

/// Listing the snapshots of a dataset, as an operation: oldest first, or in the library's
/// own order.
pub open spec fn listing_snapshots(dataset: Dataset, ordered: bool) -> spec_fn(
    RunView,
    Event,
) -> Answer<Result<Seq<Dataset>, Error>> {
    if ordered {
        |run: RunView, event: Event| dataset.spec_get_snapshots_ordered(run, event)
    } else {
        |run: RunView, event: Event| dataset.spec_get_snapshots(run, event)
    }
}

/// Handing the snapshots of a dataset to a callback, as an operation: oldest first, or in
/// the library's own order.
pub open spec fn calling_for_snapshots(dataset: Dataset, ordered: bool) -> spec_fn(
    RunView,
    Event,
) -> Answer<Result<(), Error>> {
    if ordered {
        |run: RunView, event: Event| dataset.spec_foreach_snapshot_ordered(run, event)
    } else {
        |run: RunView, event: Event| dataset.spec_foreach_snapshot(run, event)
    }
}

/// The call that enumerates the snapshots of a dataset: oldest first, or in the library's
/// own order.
pub open spec fn snapshots_call(dataset: Dataset, ordered: bool) -> Call {
    if ordered {
        dataset.snapshots_ordered_call()
    } else {
        dataset.snapshots_call()
    }
}

/// The operations of a dataset that enumerate are the two shapes, each with its own
/// enumerating call: what holds of the shapes holds of them.
pub proof fn enumerations_of_a_dataset(dataset: Dataset, ordered: bool)
    ensures
        listing_snapshots(dataset, ordered) == collecting(
            dataset.libzfs,
            snapshots_call(dataset, ordered),
        ),
        calling_for_snapshots(dataset, ordered) == forwarding(
            dataset.libzfs,
            snapshots_call(dataset, ordered),
        ),
        (|run: RunView, event: Event| dataset.spec_get_child_filesystems(run, event))
            == collecting(dataset.libzfs, Call::IterFilesystems { dataset: dataset.handle }),
        (|run: RunView, event: Event| dataset.spec_get_all_dependents(run, event)) == collecting(
            dataset.libzfs,
            Call::IterDependents { dataset: dataset.handle, recurse: true },
        ),
{
    assert(listing_snapshots(dataset, ordered) =~= collecting(
        dataset.libzfs,
        snapshots_call(dataset, ordered),
    ));
    assert(calling_for_snapshots(dataset, ordered) =~= forwarding(
        dataset.libzfs,
        snapshots_call(dataset, ordered),
    ));
    assert((|run: RunView, event: Event| dataset.spec_get_child_filesystems(run, event))
        =~= collecting(dataset.libzfs, Call::IterFilesystems { dataset: dataset.handle }));
    assert((|run: RunView, event: Event| dataset.spec_get_all_dependents(run, event))
        =~= collecting(
        dataset.libzfs,
        Call::IterDependents { dataset: dataset.handle, recurse: true },
    ));
}

/// The ordered listing of snapshots asks the native library for its enumeration that is
/// sorted by creation, and returns the snapshots in the order in which that enumeration
/// pushes them: oldest first, whatever the time of creation of a handle is.
pub proof fn ordered_snapshots_are_oldest_first(
    dataset: Dataset,
    handles: Seq<usize>,
    created: spec_fn(usize) -> int,
)
    requires
        none_null(handles),
        forall|i: int, j: int|
            0 <= i <= j < handles.len() ==> created(handles[i]) <= created(handles[j]),
    ensures
        ({
            let trace = play(listing_snapshots(dataset, true), RunView::fresh(), enumeration(handles));
            &&& trace.calls == seq![
                Call::IterSnapshotsSorted { dataset: dataset.handle, min_txg: 0, max_txg: 0 },
            ]
            &&& trace.end matches End::Finished(Ok(list)) && list.len() == handles.len()
                && forall|i: int, j: int|
                0 <= i <= j < list.len() ==> created(list[i].handle) <= created(list[j].handle)
        }),
{
    enumerations_of_a_dataset(dataset, true);
    listing_returns_what_was_pushed(dataset.libzfs, dataset.snapshots_ordered_call(), handles);
}

/// Over the same snapshots, the list and the callback agree, ordered or not: the
/// snapshots that the list returns are those that the callback is given, one by one in
/// the same order.
pub proof fn list_and_callback_see_the_same_snapshots(
    dataset: Dataset,
    ordered: bool,
    handles: Seq<usize>,
)
    requires
        none_null(handles),
    ensures
        ({
            let listed = play(
                listing_snapshots(dataset, ordered),
                RunView::fresh(),
                enumeration(handles),
            );
            let called = play(
                calling_for_snapshots(dataset, ordered),
                RunView::fresh(),
                enumeration(handles),
            );
            &&& listed.calls == called.calls
            &&& listed.end == End::Finished(Ok::<Seq<Dataset>, Error>(called.yields))
            &&& called.end == End::Finished(Ok::<(), Error>(()))
        }),
{
    enumerations_of_a_dataset(dataset, ordered);
    both_shapes_agree(dataset.libzfs, snapshots_call(dataset, ordered), handles);
}

} // verus!
