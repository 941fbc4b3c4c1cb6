//! Handles: each one that the native library gives out is closed exactly once.

use vstd::multiset::Multiset;
use vstd::prelude::*;

use crate::context::LibZfs;
use crate::conversation::{play, play_from_first, End, Trace};
use crate::dataset::Dataset;
use crate::kinds::DatasetTypeMask;
use crate::laws::opening::{opening_dataset, opening_dataset_succeeds};
use crate::native::{Answer, Call, Event, RunView, Stage};
use crate::pool::ZPool;
use crate::string::SafeString;

verus! {

/// The handle that an event puts into the binding's hands, if it puts one there. A
/// borrowed handle is not put there: it stays the native library's.
pub open spec fn given(event: Event) -> Multiset<usize> {
    match event {
        Event::Handle(handle) if handle != 0 => Multiset::singleton(handle),
        Event::Item(handle) if handle != 0 => Multiset::singleton(handle),
        Event::Allocated { status, set } if status == 0 && set != 0 => Multiset::singleton(set),
        _ => Multiset::empty(),
    }
}

/// The handle that a call gives back to the native library, if it gives one back.
pub open spec fn taken(call: Call) -> Multiset<usize> {
    match call {
        Call::Fini { libzfs } => Multiset::singleton(libzfs),
        Call::PoolClose { pool } => Multiset::singleton(pool),
        Call::DatasetClose { dataset } => Multiset::singleton(dataset),
        Call::NameSetFree { set } => Multiset::singleton(set),
        _ => Multiset::empty(),
    }
}

/// The handles that a sequence of events has put into the binding's hands, each as often
/// as it came.
pub open spec fn delivered(events: Seq<Event>) -> Multiset<usize>
    decreases events.len(),
{
    if events.len() == 0 {
        Multiset::empty()
    } else {
        given(events[0]).add(delivered(events.drop_first()))
    }
}

/// The handles that a sequence of calls has given back, each as often as it was given
/// back.
pub open spec fn released(calls: Seq<Call>) -> Multiset<usize>
    decreases calls.len(),
{
    if calls.len() == 0 {
        Multiset::empty()
    } else {
        taken(calls[0]).add(released(calls.drop_first()))
    }
}

/// Duplicating a dataset, as an operation.
pub open spec fn duplicating(dataset: Dataset) -> spec_fn(RunView, Event) -> Answer<Dataset> {
    |run: RunView, event: Event| dataset.spec_duplicate(run, event)
}

/// A dataset that is opened and closed at once leaves nothing open: over the opening and
/// the closing, what the calls have given back is exactly what the events had delivered.
pub proof fn opened_then_closed_leaks_nothing(
    libzfs: LibZfs,
    name: SafeString,
    types: DatasetTypeMask,
    handle: usize,
)
    requires
        handle != 0,
    ensures
        ({
            let opening = seq![Event::Begin, Event::Handle(handle)];
            let opened = play(opening_dataset(libzfs, name, types), RunView::fresh(), opening);
            opened.end matches End::Finished(Ok(dataset)) && released(
                opened.calls.push(dataset.closing()),
            ) == delivered(opening.push(Event::Returned))
        }),
{
    opening_dataset_succeeds(libzfs, name, types, handle);
    let calls = seq![
        Call::DatasetOpen { libzfs: libzfs.handle, name, types },
        Call::DatasetClose { dataset: handle },
    ];
    let events = seq![Event::Begin, Event::Handle(handle), Event::Returned];
    let opening = seq![Event::Begin, Event::Handle(handle)];
    let opened = play(opening_dataset(libzfs, name, types), RunView::fresh(), opening);
    assert(opened.calls.push(Call::DatasetClose { dataset: handle }) =~= calls);
    assert(opening.push(Event::Returned) =~= events);
    reveal_with_fuel(released, 3);
    reveal_with_fuel(delivered, 4);
    assert(calls.drop_first() =~= seq![Call::DatasetClose { dataset: handle }]);
    assert(calls.drop_first().drop_first() =~= Seq::<Call>::empty());
    assert(events.drop_first() =~= seq![Event::Handle(handle), Event::Returned]);
    assert(events.drop_first().drop_first() =~= seq![Event::Returned]);
    assert(events.drop_first().drop_first().drop_first() =~= Seq::<Event>::empty());
    assert(released(calls) =~= Multiset::singleton(handle));
    assert(delivered(events) =~= Multiset::singleton(handle));
}

/// Asking for the pool of a dataset, as an operation.
pub open spec fn asking_for_the_pool(dataset: Dataset) -> spec_fn(RunView, Event) -> Answer<
    ZPool,
> {
    |run: RunView, event: Event| dataset.spec_get_pool(run, event)
}

/// The calls that close the given pools: one for each pool that owns its handle, in
/// order.
pub open spec fn closings_of(pools: Seq<ZPool>) -> Seq<Call>
    decreases pools.len(),
{
    if pools.len() == 0 {
        Seq::empty()
    } else {
        match pools[0].closing() {
            Some(call) => seq![call] + closings_of(pools.drop_first()),
            None => closings_of(pools.drop_first()),
        }
    }
}

/// The pool of a dataset is borrowed. Asking for it takes one call and delivers no handle
/// into the binding's hands; the pool that is returned has the handle that the native
/// library answered, which is the dataset's own and the same each time. However often
/// the pool is asked for, closing what was returned asks for no call at all: the handle
/// is closed by the dataset alone, once.
pub proof fn pool_of_a_dataset_is_borrowed(dataset: Dataset, handle: usize, times: nat)
    requires
        handle != 0,
    ensures
        ({
            let pool = ZPool { libzfs: dataset.libzfs, handle, owned: false };
            let asking = seq![Event::Begin, Event::Borrowed(handle)];
            &&& play(asking_for_the_pool(dataset), RunView::fresh(), asking) == (Trace {
                calls: seq![Call::DatasetPool { dataset: dataset.handle }],
                yields: Seq::empty(),
                end: End::Finished(pool),
            })
            &&& delivered(asking) == Multiset::<usize>::empty()
            &&& pool.closing() is None
            &&& closings_of(Seq::new(times, |i: int| pool)) == Seq::<Call>::empty()
        }),
    decreases times,
{
    let pool = ZPool { libzfs: dataset.libzfs, handle, owned: false };
    let op = asking_for_the_pool(dataset);
    let fresh = RunView::fresh();
    let none = Seq::<Event>::empty();
    let asking = seq![Event::Begin, Event::Borrowed(handle)];
    assert(asking =~= seq![Event::Begin] + (seq![Event::Borrowed(handle)] + none));
    play_from_first(op, fresh, Event::Begin, seq![Event::Borrowed(handle)] + none);
    play_from_first(op, fresh.at(Stage::Asked), Event::Borrowed(handle), none);
    assert(play(op, fresh, asking).calls =~= seq![
        Call::DatasetPool { dataset: dataset.handle },
    ]);
    reveal_with_fuel(delivered, 3);
    assert(asking.drop_first() =~= seq![Event::Borrowed(handle)]);
    assert(asking.drop_first().drop_first() =~= none);
    assert(delivered(asking) =~= Multiset::<usize>::empty());
    let all = Seq::new(times, |i: int| pool);
    if times > 0 {
        pool_of_a_dataset_is_borrowed(dataset, handle, (times - 1) as nat);
        assert(all.drop_first() =~= Seq::new((times - 1) as nat, |i: int| pool));
    }
}

/// A duplicate is a dataset of its own. Duplicating takes one call, and the handle that
/// comes back is the duplicate's. Closing the duplicate names the duplicate's handle and
/// never the handle it was made from, and the other way round; closing both takes two closing calls,
/// one for each handle.
pub proof fn duplicate_is_closed_on_its_own(source: Dataset, handle: usize)
    requires
        handle != 0,
    ensures
        ({
            let copy = Dataset { libzfs: source.libzfs, handle };
            &&& play(
                duplicating(source),
                RunView::fresh(),
                seq![Event::Begin, Event::Handle(handle)],
            ) == (Trace {
                calls: seq![Call::DatasetDup { dataset: source.handle }],
                yields: Seq::empty(),
                end: End::Finished(copy),
            })
            &&& taken(source.closing()) == Multiset::singleton(source.handle)
            &&& taken(copy.closing()) == Multiset::singleton(handle)
            &&& released(seq![source.closing(), copy.closing()]) == Multiset::singleton(
                source.handle,
            ).insert(handle)
        }),
{
    let copy = Dataset { libzfs: source.libzfs, handle };
    let op = duplicating(source);
    let fresh = RunView::fresh();
    let none = Seq::<Event>::empty();
    let events = seq![Event::Begin, Event::Handle(handle)];
    assert(events =~= seq![Event::Begin] + (seq![Event::Handle(handle)] + none));
    play_from_first(op, fresh, Event::Begin, seq![Event::Handle(handle)] + none);
    play_from_first(op, fresh.at(Stage::Asked), Event::Handle(handle), none);
    assert(play(op, fresh, events).calls =~= seq![
        Call::DatasetDup { dataset: source.handle },
    ]);
    let calls = seq![source.closing(), copy.closing()];
    reveal_with_fuel(released, 3);
    assert(calls.drop_first() =~= seq![copy.closing()]);
    assert(calls.drop_first().drop_first() =~= Seq::<Call>::empty());
    assert(released(calls) =~= Multiset::singleton(source.handle).insert(handle));
}

} // verus!
