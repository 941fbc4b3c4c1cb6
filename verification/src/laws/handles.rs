//! Handles are never null: whatever the native library answers, no operation gathers,
//! hands out or returns a pool or a dataset with the null handle.

use vstd::prelude::*;

use crate::context::LibZfs;
use crate::conversation::{play, End};
use crate::dataset::Dataset;
use crate::error::Error;
use crate::laws::listing::{calling_for_snapshots, collecting, forwarding, listing_snapshots};
use crate::laws::pools::{listing_datasets, listing_pools};
use crate::native::{Answer, Call, Event, RunView};
use crate::pool::ZPool;

verus! {

/// Whether none of the datasets has the null handle.
pub open spec fn datasets_wf(datasets: Seq<Dataset>) -> bool {
    forall|i: int| 0 <= i < datasets.len() ==> (#[trigger] datasets[i]).wf()
}

/// Whether none of the pools has the null handle, and each owns its handle.
pub open spec fn pools_wf(pools: Seq<ZPool>) -> bool {
    forall|i: int| 0 <= i < pools.len() ==> (#[trigger] pools[i]).wf() && pools[i].owned
}

/// Whether a state holds no pool and no dataset with the null handle.
pub open spec fn sound(run: RunView) -> bool {
    datasets_wf(run.datasets) && pools_wf(run.pools)
}

/// Whether a list of datasets, if the operation returned one, holds none with the null
/// handle.
pub open spec fn sound_datasets(result: Result<Seq<Dataset>, Error>) -> bool {
    result matches Ok(list) ==> datasets_wf(list)
}

/// Whether a list of pools, if the operation returned one, holds none with the null
/// handle.
pub open spec fn sound_pools(result: Result<Seq<ZPool>, Error>) -> bool {
    result matches Ok(list) ==> pools_wf(list)
}

/// Whether every step of an operation, from a sound state, leaves a sound state, hands
/// out no dataset with the null handle, and ends only with a good result.
pub open spec fn stays_sound<V>(
    op: spec_fn(RunView, Event) -> Answer<V>,
    good: spec_fn(V) -> bool,
) -> bool {
    forall|run: RunView, event: Event|
        sound(run) ==> match #[trigger] op(run, event) {
            Answer::Call(_, next) => sound(next),
            Answer::Await(next) => sound(next),
            Answer::Yield(dataset, next) => dataset.wf() && sound(next),
            Answer::Done(result) => good(result),
            Answer::Stray(_) => true,
        }
}

/// An operation of which every step stays sound stays sound over every conversation.
pub proof fn conversation_stays_sound<V>(
    op: spec_fn(RunView, Event) -> Answer<V>,
    good: spec_fn(V) -> bool,
    run: RunView,
    events: Seq<Event>,
)
    requires
        stays_sound(op, good),
        sound(run),
    ensures
        datasets_wf(play(op, run, events).yields),
        match play(op, run, events).end {
            End::Pending(left) => sound(left),
            End::Finished(result) => good(result),
            End::Broken => true,
        },
    decreases events.len(),
{
    if events.len() > 0 {
        let rest = events.drop_first();
        match op(run, events[0]) {
            Answer::Call(_, next) => {
                conversation_stays_sound(op, good, next, rest);
            },
            Answer::Await(next) => {
                conversation_stays_sound(op, good, next, rest);
            },
            Answer::Yield(dataset, next) => {
                conversation_stays_sound(op, good, next, rest);
                let later = play(op, next, rest).yields;
                let all = play(op, run, events).yields;
                assert forall|i: int| 0 <= i < all.len() implies (#[trigger] all[i]).wf() by {
                    if i > 0 {
                        assert(all[i] == later[i - 1]);
                    }
                }
            },
            Answer::Done(_) => {},
            Answer::Stray(_) => {},
        }
    }
}

/// An operation that never hands a dataset out has handed none out, whatever the
/// conversation.
pub proof fn yields_nothing<V>(
    op: spec_fn(RunView, Event) -> Answer<V>,
    run: RunView,
    events: Seq<Event>,
)
    requires
        forall|run: RunView, event: Event| !(#[trigger] op(run, event) is Yield),
    ensures
        play(op, run, events).yields == Seq::<Dataset>::empty(),
    decreases events.len(),
{
    if events.len() > 0 {
        let rest = events.drop_first();
        match op(run, events[0]) {
            Answer::Call(_, next) => {
                yields_nothing(op, next, rest);
            },
            Answer::Await(next) => {
                yields_nothing(op, next, rest);
            },
            _ => {},
        }
    }
}

/// Every step of an enumeration in the list shape stays sound.
proof fn collecting_stays_sound(libzfs: usize, call: Call)
    ensures
        stays_sound(collecting(libzfs, call), |result| sound_datasets(result)),
{
}

/// Every step of an enumeration in the callback shape stays sound.
proof fn forwarding_stays_sound(libzfs: usize, call: Call)
    ensures
        stays_sound(forwarding(libzfs, call), |result: Result<(), Error>| true),
{
}

/// Every step of listing the datasets of a pool stays sound.
proof fn listing_datasets_stays_sound(pool: ZPool)
    ensures
        stays_sound(listing_datasets(pool), |result| sound_datasets(result)),
{
    let op = listing_datasets(pool);
    assert forall|run: RunView, event: Event| sound(run) implies match #[trigger] op(run, event) {
        Answer::Call(_, next) => sound(next),
        Answer::Await(next) => sound(next),
        Answer::Yield(dataset, next) => dataset.wf() && sound(next),
        Answer::Done(result) => sound_datasets(result),
        Answer::Stray(_) => true,
    } by {
        if run.next < run.datasets.len() {
            let fewer = run.datasets.remove(run.next as int);
            assert forall|i: int| 0 <= i < fewer.len() implies (#[trigger] fewer[i]).wf() by {
                if i < run.next {
                    assert(fewer[i] == run.datasets[i]);
                } else {
                    assert(fewer[i] == run.datasets[i + 1]);
                }
            }
        }
    }
}

/// Every step of listing all pools stays sound.
proof fn listing_pools_stays_sound(libzfs: LibZfs)
    ensures
        stays_sound(listing_pools(libzfs), |result| sound_pools(result)),
{
}

/// Whatever the native library answers, the operations that enumerate below a dataset
/// never return, and never hand to the callback, a dataset with the null handle.
pub proof fn enumerated_datasets_are_never_null(
    dataset: Dataset,
    ordered: bool,
    events: Seq<Event>,
)
    ensures
        play(listing_snapshots(dataset, ordered), RunView::fresh(), events).end matches End::Finished(
            Ok(list),
        ) ==> datasets_wf(list),
        datasets_wf(play(calling_for_snapshots(dataset, ordered), RunView::fresh(), events).yields),
        play(
            collecting(dataset.libzfs, Call::IterFilesystems { dataset: dataset.handle }),
            RunView::fresh(),
            events,
        ).end matches End::Finished(Ok(list)) ==> datasets_wf(list),
        play(
            collecting(
                dataset.libzfs,
                Call::IterDependents { dataset: dataset.handle, recurse: true },
            ),
            RunView::fresh(),
            events,
        ).end matches End::Finished(Ok(list)) ==> datasets_wf(list),
{
    let fresh = RunView::fresh();
    crate::laws::listing::enumerations_of_a_dataset(dataset, ordered);
    let call = crate::laws::listing::snapshots_call(dataset, ordered);
    collecting_stays_sound(dataset.libzfs, call);
    conversation_stays_sound(
        collecting(dataset.libzfs, call),
        |result| sound_datasets(result),
        fresh,
        events,
    );
    forwarding_stays_sound(dataset.libzfs, call);
    conversation_stays_sound(
        forwarding(dataset.libzfs, call),
        |result: Result<(), Error>| true,
        fresh,
        events,
    );
    let children = Call::IterFilesystems { dataset: dataset.handle };
    collecting_stays_sound(dataset.libzfs, children);
    conversation_stays_sound(
        collecting(dataset.libzfs, children),
        |result| sound_datasets(result),
        fresh,
        events,
    );
    let dependents = Call::IterDependents { dataset: dataset.handle, recurse: true };
    collecting_stays_sound(dataset.libzfs, dependents);
    conversation_stays_sound(
        collecting(dataset.libzfs, dependents),
        |result| sound_datasets(result),
        fresh,
        events,
    );
}

/// Whatever the native library answers, the listings of pools and of the datasets of a
/// pool never return a pool or a dataset with the null handle, and every pool that is
/// listed owns its handle.
pub proof fn listed_pools_and_datasets_are_never_null(
    libzfs: LibZfs,
    pool: ZPool,
    events: Seq<Event>,
)
    ensures
        play(listing_pools(libzfs), RunView::fresh(), events).end matches End::Finished(Ok(list))
            ==> pools_wf(list),
        play(listing_datasets(pool), RunView::fresh(), events).end matches End::Finished(
            Ok(list),
        ) ==> datasets_wf(list),
{
    let fresh = RunView::fresh();
    listing_pools_stays_sound(libzfs);
    conversation_stays_sound(listing_pools(libzfs), |result| sound_pools(result), fresh, events);
    listing_datasets_stays_sound(pool);
    conversation_stays_sound(
        listing_datasets(pool),
        |result| sound_datasets(result),
        fresh,
        events,
    );
}

} // verus!
