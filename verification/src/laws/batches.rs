//! Batches of snapshots: when the batch call is made, with which names, and that the name
//! set is freed whatever happens.

use vstd::prelude::*;

use crate::context::{submission, LibZfs};
use crate::conversation::{acknowledgements, play, play_from_first, play_in_parts, End, Trace};
use crate::error::{Error, SysError, ZfsError, ZfsErrorCode};
use crate::laws::listing::{diagnosed, diagnosis, readings};
use crate::native::{Answer, Call, Event, RunView, Stage};
use crate::string::SafeString;

verus! {

/// A batch call on the given names, as an operation.
pub open spec fn batching(libzfs: LibZfs, names: Seq<SafeString>, destroy: bool) -> spec_fn(
    RunView,
    Event,
) -> Answer<Result<(), Error>> {
    |run: RunView, event: Event| libzfs.spec_batch(names, destroy, run, event)
}

/// Creating snapshots is the batch call that creates, and destroying them the batch call
/// that destroys: what holds of batch calls holds of them.
pub proof fn batches_of_a_context(libzfs: LibZfs, names: Seq<SafeString>)
    ensures
        (|run: RunView, event: Event| libzfs.spec_create_snapshots(names, run, event))
            == batching(libzfs, names, false),
        (|run: RunView, event: Event| libzfs.spec_destroy_snapshots(names, run, event))
            == batching(libzfs, names, true),
{
    assert((|run: RunView, event: Event| libzfs.spec_create_snapshots(names, run, event))
        =~= batching(libzfs, names, false));
    assert((|run: RunView, event: Event| libzfs.spec_destroy_snapshots(names, run, event))
        =~= batching(libzfs, names, true));
}

/// The calls that add the given names to a set, in order.
pub open spec fn additions(set: usize, names: Seq<SafeString>) -> Seq<Call> {
    Seq::new(names.len(), |i: int| Call::NameSetAdd { set, name: names[i] })
}

/// The events of building a name set of as many names as given: the start, the
/// allocation, and the return of each addition.
pub open spec fn building(set: usize, count: nat) -> Seq<Event> {
    seq![Event::Begin, Event::Allocated { status: 0, set }] + acknowledgements(count)
}

/// Whether a call is a batch call on snapshots.
pub open spec fn is_submission(call: Call) -> bool {
    call is SnapshotCreate || call is SnapshotDestroy
}

/// With no name, no step of the operation ever asks for the batch call, whatever state and
/// event it meets: the native call, which does not survive an empty set, is never made.
pub proof fn empty_batch_never_submits(libzfs: LibZfs, destroy: bool, run: RunView, event: Event)
    ensures
        !(libzfs.spec_batch(Seq::empty(), destroy, run, event) matches Answer::Call(call, _)
            && is_submission(call)),
{
}

/// With no name, the operation succeeds: the set is allocated and freed, and nothing
/// else is asked of the library.
pub proof fn empty_batch_succeeds(libzfs: LibZfs, destroy: bool, set: usize)
    requires
        set != 0,
    ensures
        play(
            batching(libzfs, Seq::empty(), destroy),
            RunView::fresh(),
            building(set, 0) + seq![Event::Returned],
        ) == (Trace {
            calls: seq![Call::NameSetAlloc, Call::NameSetFree { set }],
            yields: Seq::empty(),
            end: End::Finished(Ok::<(), Error>(())),
        }),
{
    let op = batching(libzfs, Seq::empty(), destroy);
    let fresh = RunView::fresh();
    let none = Seq::<Event>::empty();
    let allocated = Event::Allocated { status: 0, set };
    let events = building(set, 0) + seq![Event::Returned];
    let last = seq![Event::Returned] + none;
    assert(events =~= seq![Event::Begin] + (seq![allocated] + last));
    play_from_first(op, fresh, Event::Begin, seq![allocated] + last);
    let allocating = op(fresh, Event::Begin)->Call_1;
    play_from_first(op, allocating, allocated, last);
    let freeing = op(allocating, allocated)->Call_1;
    play_from_first(op, freeing, Event::Returned, none);
    assert(play(op, fresh, events).calls =~= seq![Call::NameSetAlloc, Call::NameSetFree { set }]);
}

/// While names are left, each return of an addition is answered by adding the next name;
/// the return of the last addition is answered by the batch call, with the set.
proof fn filling_adds_the_rest(
    libzfs: LibZfs,
    names: Seq<SafeString>,
    destroy: bool,
    run: RunView,
)
    requires
        run.stage == Stage::Adding,
        run.next < names.len(),
    ensures
        play(
            batching(libzfs, names, destroy),
            run,
            acknowledgements((names.len() - run.next) as nat),
        ) == (Trace {
            calls: additions(run.set, names).subrange(run.next as int + 1, names.len() as int)
                + seq![submission(libzfs.handle, run.set, destroy)],
            yields: Seq::empty(),
            end: End::<Result<(), Error>>::Pending(
                RunView { stage: Stage::Submitting, set: run.set, ..RunView::fresh() },
            ),
        }),
    decreases names.len() - run.next,
{
    let op = batching(libzfs, names, destroy);
    let count = (names.len() - run.next) as nat;
    let rest = acknowledgements((count - 1) as nat);
    assert(acknowledgements(count) =~= seq![Event::Returned] + rest);
    play_from_first(op, run, Event::Returned, rest);
    let next = RunView { next: run.next + 1, ..run };
    let trace = play(op, run, acknowledgements(count));
    let expected = additions(run.set, names).subrange(run.next as int + 1, names.len() as int)
        + seq![submission(libzfs.handle, run.set, destroy)];
    if next.next < names.len() {
        filling_adds_the_rest(libzfs, names, destroy, next);
        assert(trace.calls =~= expected);
    } else {
        assert(rest =~= Seq::<Event>::empty());
        assert(trace.calls =~= expected);
    }
}

/// Building the set for one name or more: the set is allocated, each name is added to
/// it, once and in the order given, and then the batch call is made, with that set.
proof fn building_adds_every_name(
    libzfs: LibZfs,
    names: Seq<SafeString>,
    destroy: bool,
    set: usize,
)
    requires
        names.len() > 0,
        set != 0,
    ensures
        play(batching(libzfs, names, destroy), RunView::fresh(), building(set, names.len()))
            == (Trace {
            calls: seq![Call::NameSetAlloc] + additions(set, names) + seq![
                submission(libzfs.handle, set, destroy),
            ],
            yields: Seq::empty(),
            end: End::<Result<(), Error>>::Pending(RunView { stage: Stage::Submitting, set, ..RunView::fresh() }),
        }),
{
    let op = batching(libzfs, names, destroy);
    let fresh = RunView::fresh();
    let allocated = Event::Allocated { status: 0, set };
    let acks = acknowledgements(names.len());
    let events = building(set, names.len());
    assert(events =~= seq![Event::Begin] + (seq![allocated] + acks));
    play_from_first(op, fresh, Event::Begin, seq![allocated] + acks);
    let allocating = op(fresh, Event::Begin)->Call_1;
    play_from_first(op, allocating, allocated, acks);
    let adding = op(allocating, allocated)->Call_1;
    filling_adds_the_rest(libzfs, names, destroy, adding);
    let all = additions(set, names);
    assert(all =~= seq![Call::NameSetAdd { set, name: names[0] }] + all.subrange(
        1,
        names.len() as int,
    ));
    assert(play(op, fresh, events).calls =~= seq![Call::NameSetAlloc] + all + seq![
        submission(libzfs.handle, set, destroy),
    ]);
}

/// A batch that succeeds. The set is allocated; each name is added to it, once and in the
/// order given; the batch call is made exactly once, with that set, to create or to
/// destroy as asked, a destruction never deferred; the set is freed; the operation
/// succeeds.
pub proof fn batch_submits_the_names_once(
    libzfs: LibZfs,
    names: Seq<SafeString>,
    destroy: bool,
    set: usize,
)
    requires
        names.len() > 0,
        set != 0,
    ensures
        play(
            batching(libzfs, names, destroy),
            RunView::fresh(),
            building(set, names.len()) + seq![Event::Status(0), Event::Returned],
        ) == (Trace {
            calls: seq![Call::NameSetAlloc] + additions(set, names) + seq![
                submission(libzfs.handle, set, destroy),
                Call::NameSetFree { set },
            ],
            yields: Seq::empty(),
            end: End::Finished(Ok::<(), Error>(())),
        }),
{
    let op = batching(libzfs, names, destroy);
    let fresh = RunView::fresh();
    let none = Seq::<Event>::empty();
    let submitted = RunView { stage: Stage::Submitting, set, ..fresh };
    let tail = seq![Event::Status(0), Event::Returned];
    building_adds_every_name(libzfs, names, destroy, set);
    let last = seq![Event::Returned] + none;
    assert(tail =~= seq![Event::Status(0)] + last);
    play_from_first(op, submitted, Event::Status(0), last);
    let freeing = op(submitted, Event::Status(0))->Call_1;
    play_from_first(op, freeing, Event::Returned, none);
    play_in_parts(op, fresh, building(set, names.len()), tail);
    let trace = play(op, fresh, building(set, names.len()) + tail);
    assert(trace.calls =~= seq![Call::NameSetAlloc] + additions(set, names) + seq![
        submission(libzfs.handle, set, destroy),
        Call::NameSetFree { set },
    ]);
    assert(trace.yields =~= Seq::<crate::dataset::Dataset>::empty());
}

/// A batch that fails. After a status other than zero the failure is read from the error
/// slot, before anything else is asked of the library; then the set is freed, and the
/// operation ends with the failure: a code of the library with its description, or the
/// system's last error if the slot holds the unknown code.
pub proof fn failed_batch_reports_and_frees(
    libzfs: LibZfs,
    names: Seq<SafeString>,
    destroy: bool,
    set: usize,
    status: i32,
    slot: ZfsError,
    system: SysError,
)
    requires
        names.len() > 0,
        set != 0,
        status != 0,
    ensures
        play(
            batching(libzfs, names, destroy),
            RunView::fresh(),
            building(set, names.len()) + (seq![Event::Status(status)] + readings(slot, system)
                + seq![Event::Returned]),
        ) == (Trace {
            calls: seq![Call::NameSetAlloc] + additions(set, names) + seq![
                submission(libzfs.handle, set, destroy),
            ] + diagnosis(libzfs.handle, slot) + seq![Call::NameSetFree { set }],
            yields: Seq::empty(),
            end: End::Finished(Err::<(), Error>(diagnosed(slot, system))),
        }),
{
    let op = batching(libzfs, names, destroy);
    let fresh = RunView::fresh();
    let none = Seq::<Event>::empty();
    let submitted = RunView { stage: Stage::Submitting, set, ..fresh };
    let read = submitted.at(Stage::LibraryError);
    let tail = seq![Event::Status(status)] + readings(slot, system) + seq![Event::Returned];
    let last = seq![Event::Returned] + none;
    building_adds_every_name(libzfs, names, destroy, set);
    if slot.code != ZfsErrorCode::EZFS_UNKNOWN {
        assert(tail =~= seq![Event::Status(status)] + (seq![Event::LibraryError(slot)] + last));
        play_from_first(op, submitted, Event::Status(status), seq![Event::LibraryError(slot)] + last);
        play_from_first(op, read, Event::LibraryError(slot), last);
        let freeing = op(read, Event::LibraryError(slot))->Call_1;
        play_from_first(op, freeing, Event::Returned, none);
    } else {
        let more = seq![Event::SystemError(system)] + last;
        assert(tail =~= seq![Event::Status(status)] + (seq![Event::LibraryError(slot)] + more));
        play_from_first(op, submitted, Event::Status(status), seq![Event::LibraryError(slot)] + more);
        play_from_first(op, read, Event::LibraryError(slot), more);
        let asking = read.at(Stage::SystemError);
        play_from_first(op, asking, Event::SystemError(system), last);
        let freeing = op(asking, Event::SystemError(system))->Call_1;
        play_from_first(op, freeing, Event::Returned, none);
    }
    let ended = play(op, submitted, tail);
    assert(ended.calls =~= diagnosis(libzfs.handle, slot) + seq![Call::NameSetFree { set }]);
    play_in_parts(op, fresh, building(set, names.len()), tail);
    let trace = play(op, fresh, building(set, names.len()) + tail);
    assert(trace.calls =~= seq![Call::NameSetAlloc] + additions(set, names) + seq![
        submission(libzfs.handle, set, destroy),
    ] + diagnosis(libzfs.handle, slot) + seq![Call::NameSetFree { set }]);
    assert(trace.yields =~= Seq::<crate::dataset::Dataset>::empty());
}

/// A batch whose set cannot be allocated: the failure is read from the error slot and
/// the operation ends with it. No name is added, no batch call is made, and nothing is
/// freed, since nothing was allocated.
pub proof fn unallocated_batch_reports(
    libzfs: LibZfs,
    names: Seq<SafeString>,
    destroy: bool,
    status: i32,
    set: usize,
    slot: ZfsError,
    system: SysError,
)
    requires
        status != 0,
    ensures
        play(
            batching(libzfs, names, destroy),
            RunView::fresh(),
            seq![Event::Begin, Event::Allocated { status, set }] + readings(slot, system),
        ) == (Trace {
            calls: seq![Call::NameSetAlloc] + diagnosis(libzfs.handle, slot),
            yields: Seq::empty(),
            end: End::Finished(Err::<(), Error>(diagnosed(slot, system))),
        }),
{
    let op = batching(libzfs, names, destroy);
    let fresh = RunView::fresh();
    let none = Seq::<Event>::empty();
    let refused = Event::Allocated { status, set };
    let events = seq![Event::Begin, refused] + readings(slot, system);
    let allocating = op(fresh, Event::Begin)->Call_1;
    let read = op(allocating, refused)->Call_1;
    if slot.code != ZfsErrorCode::EZFS_UNKNOWN {
        let last = seq![Event::LibraryError(slot)] + none;
        assert(events =~= seq![Event::Begin] + (seq![refused] + last));
        play_from_first(op, fresh, Event::Begin, seq![refused] + last);
        play_from_first(op, allocating, refused, last);
        play_from_first(op, read, Event::LibraryError(slot), none);
    } else {
        let last = seq![Event::SystemError(system)] + none;
        let more = seq![Event::LibraryError(slot)] + last;
        assert(events =~= seq![Event::Begin] + (seq![refused] + more));
        play_from_first(op, fresh, Event::Begin, seq![refused] + more);
        play_from_first(op, allocating, refused, more);
        play_from_first(op, read, Event::LibraryError(slot), last);
        let asking = op(read, Event::LibraryError(slot))->Call_1;
        play_from_first(op, asking, Event::SystemError(system), none);
    }
    assert(play(op, fresh, events).calls =~= seq![Call::NameSetAlloc] + diagnosis(
        libzfs.handle,
        slot,
    ));
}

} // verus!
