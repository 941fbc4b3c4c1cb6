//! Pools: which of the datasets below a pool are listed, and what becomes of the others.

use vstd::prelude::*;

use crate::conversation::{
    acknowledgements,
    closings,
    items,
    mirrors,
    none_null,
    play,
    play_from_first,
    play_in_parts,
    play_mirrors,
    seen,
    wrapped,
    End,
    Trace,
};
use crate::context::LibZfs;
use crate::dataset::Dataset;
use crate::error::{Error, SysError, ZfsError, ZfsErrorCode};
use crate::kinds::{DatasetType, DatasetTypeMask};
use crate::laws::listing::{
    collecting,
    diagnosed,
    diagnosis,
    discards,
    failed_enumeration,
    failed_listing_closes_what_it_gathered,
    failure_closes_what_was_gathered,
    gathering_keeps_the_order,
    gathers,
    listing_returns_what_was_pushed,
    readings,
};
use crate::native::{Answer, Call, Event, RunView, Stage};
use crate::pool::ZPool;
use crate::string::SafeString;

verus! {

/// Listing the filesystems and volumes of a pool, as an operation.
pub open spec fn listing_datasets(pool: ZPool) -> spec_fn(RunView, Event) -> Answer<
    Result<Seq<Dataset>, Error>,
> {
    |run: RunView, event: Event| pool.spec_get_datasets(run, event)
}

/// The events by which the root filesystem of a pool is found: the start, the pool's
/// name, and the handle of the filesystem of that name.
pub open spec fn rooting(name: SafeString, root: usize) -> Seq<Event> {
    seq![Event::Begin, Event::Name(name), Event::Handle(root)]
}

/// The calls by which the root filesystem of a pool is found: the pool's name is asked,
/// and the filesystem of that name is opened.
pub open spec fn rooting_calls(pool: ZPool, name: SafeString) -> Seq<Call> {
    seq![
        Call::PoolName { pool: pool.handle },
        Call::DatasetOpen {
            libzfs: pool.libzfs,
            name,
            types: DatasetTypeMask(DatasetType::Filesystem.raw()),
        },
    ]
}

/// What the native library answers about datasets of the given kinds, asked one after the
/// other: the kind of each, and after the kind of a snapshot or a bookmark the return of
/// the call that closes it.
pub open spec fn verdicts(kinds: Seq<DatasetType>) -> Seq<Event>
    decreases kinds.len(),
{
    if kinds.len() == 0 {
        Seq::empty()
    } else if kinds[0].is_derived() {
        seq![Event::DatasetType(kinds[0].raw()), Event::Returned] + verdicts(kinds.drop_first())
    } else {
        seq![Event::DatasetType(kinds[0].raw())] + verdicts(kinds.drop_first())
    }
}

/// The calls about datasets of the given kinds: for each, in order, the question about
/// its kind, and for a snapshot or a bookmark the call that closes it.
pub open spec fn inquiries(datasets: Seq<Dataset>, kinds: Seq<DatasetType>) -> Seq<Call>
    decreases datasets.len(),
{
    if datasets.len() == 0 || kinds.len() == 0 {
        Seq::empty()
    } else if kinds[0].is_derived() {
        seq![
            Call::DatasetType { dataset: datasets[0].handle },
            Call::DatasetClose { dataset: datasets[0].handle },
        ] + inquiries(datasets.drop_first(), kinds.drop_first())
    } else {
        seq![Call::DatasetType { dataset: datasets[0].handle }] + inquiries(
            datasets.drop_first(),
            kinds.drop_first(),
        )
    }
}

/// Of datasets of the given kinds, those that are neither snapshot nor bookmark, in
/// their order.
pub open spec fn kept(datasets: Seq<Dataset>, kinds: Seq<DatasetType>) -> Seq<Dataset>
    decreases datasets.len(),
{
    if datasets.len() == 0 || kinds.len() == 0 {
        Seq::empty()
    } else if kinds[0].is_derived() {
        kept(datasets.drop_first(), kinds.drop_first())
    } else {
        seq![datasets[0]] + kept(datasets.drop_first(), kinds.drop_first())
    }
}

/// Listing the datasets of a pool gathers and discards as the list shape does.
pub proof fn listing_datasets_gathers(pool: ZPool)
    ensures
        gathers(listing_datasets(pool), pool.libzfs),
        discards(listing_datasets(pool), pool.libzfs),
{
}

/// While the kind of a gathered dataset is being asked: datasets before it have been kept;
/// it and those after it are kept or closed, each by its kind, and the operation ends
/// with those that were kept, in the order in which they came.
proof fn sifting_keeps_by_kind(pool: ZPool, run: RunView, kinds: Seq<DatasetType>)
    requires
        run.stage == Stage::Sifting,
        run.next + kinds.len() == run.datasets.len(),
        kinds.len() > 0,
    ensures
        play(listing_datasets(pool), run, verdicts(kinds)) == (Trace {
            calls: inquiries(
                run.datasets.subrange(run.next as int, run.datasets.len() as int),
                kinds,
            ).drop_first(),
            yields: Seq::empty(),
            end: End::Finished(
                Ok::<Seq<Dataset>, Error>(
                    run.datasets.subrange(0, run.next as int) + kept(
                        run.datasets.subrange(run.next as int, run.datasets.len() as int),
                        kinds,
                    ),
                ),
            ),
        }),
    decreases kinds.len(),
{
    let op = listing_datasets(pool);
    let all = run.datasets;
    let at = run.next as int;
    let before = all.subrange(0, at);
    let rest = all.subrange(at, all.len() as int);
    let later = kinds.drop_first();
    let asked = Event::DatasetType(kinds[0].raw());
    let trace = play(op, run, verdicts(kinds));
    DatasetType::of_raw_of_raw(kinds[0]);
    assert(rest[0] == all[at]);
    if kinds[0].is_derived() {
        let more = seq![Event::Returned] + verdicts(later);
        assert(verdicts(kinds) =~= seq![asked] + more);
        play_from_first(op, run, asked, more);
        let dropping = run.at(Stage::Dropping);
        play_from_first(op, dropping, Event::Returned, verdicts(later));
        let fewer = all.remove(at);
        assert(fewer.subrange(0, at) =~= before);
        assert(fewer.subrange(at, fewer.len() as int) =~= rest.drop_first());
        if later.len() > 0 {
            let sifting = RunView { datasets: fewer, ..dropping }.at(Stage::Sifting);
            sifting_keeps_by_kind(pool, sifting, later);
            let inner = inquiries(rest.drop_first(), later);
            assert(inner[0] == Call::DatasetType { dataset: fewer[at].handle });
            assert(seq![inner[0]] + inner.drop_first() =~= inner);
            assert(trace.calls =~= inquiries(rest, kinds).drop_first());
        } else {
            assert(verdicts(later) =~= Seq::<Event>::empty());
            assert(inquiries(rest.drop_first(), later) =~= Seq::<Call>::empty());
            assert(kept(rest.drop_first(), later) =~= Seq::<Dataset>::empty());
            assert(fewer =~= before);
            assert(trace.calls =~= inquiries(rest, kinds).drop_first());
            assert(before + kept(rest, kinds) =~= before);
        }
    } else {
        assert(verdicts(kinds) =~= seq![asked] + verdicts(later));
        play_from_first(op, run, asked, verdicts(later));
        let kept_one = all.subrange(0, at + 1);
        assert(kept_one =~= before + seq![rest[0]]);
        assert(all.subrange(at + 1, all.len() as int) =~= rest.drop_first());
        if later.len() > 0 {
            let sifting = RunView { next: run.next + 1, ..run };
            sifting_keeps_by_kind(pool, sifting, later);
            let inner = inquiries(rest.drop_first(), later);
            assert(inner[0] == Call::DatasetType { dataset: all[at + 1].handle });
            assert(seq![inner[0]] + inner.drop_first() =~= inner);
            assert(trace.calls =~= inquiries(rest, kinds).drop_first());
            assert(before + kept(rest, kinds) =~= kept_one + kept(rest.drop_first(), later));
        } else {
            assert(verdicts(later) =~= Seq::<Event>::empty());
            assert(inquiries(rest.drop_first(), later) =~= Seq::<Call>::empty());
            assert(kept(rest.drop_first(), later) =~= Seq::<Dataset>::empty());
            assert(all =~= kept_one);
            assert(trace.calls =~= inquiries(rest, kinds).drop_first());
            assert(before + kept(rest, kinds) =~= all);
        }
    }
}

/// Listing the datasets of a pool, when the enumeration succeeds. The pool's name is
/// asked and the filesystem of that name, the root, is opened; everything that depends on
/// it, at any depth, is enumerated. Then the kind of each dataset is asked, the root
/// first and the others in the order in which they came; each snapshot and each bookmark
/// is closed, once, right after its kind is known. The result is the other datasets, all
/// of them and in the order in which they came.
pub proof fn pool_lists_filesystems_and_volumes(
    pool: ZPool,
    name: SafeString,
    root: usize,
    handles: Seq<usize>,
    kinds: Seq<DatasetType>,
)
    requires
        root != 0,
        none_null(handles),
        kinds.len() == handles.len() + 1,
    ensures
        ({
            let gathered = seq![Dataset { libzfs: pool.libzfs, handle: root }] + wrapped(
                pool.libzfs,
                handles,
            );
            play(
                listing_datasets(pool),
                RunView::fresh(),
                rooting(name, root) + items(handles) + seq![Event::Status(0)] + verdicts(kinds),
            ) == (Trace {
                calls: rooting_calls(pool, name) + seq![
                    Call::IterDependents { dataset: root, recurse: true },
                ] + inquiries(gathered, kinds),
                yields: Seq::empty(),
                end: End::Finished(Ok::<Seq<Dataset>, Error>(kept(gathered, kinds))),
            })
        }),
{
    let op = listing_datasets(pool);
    let fresh = RunView::fresh();
    let first = Dataset { libzfs: pool.libzfs, handle: root };
    let gathered = seq![first] + wrapped(pool.libzfs, handles);
    let naming = fresh.at(Stage::Naming);
    let opening = fresh.at(Stage::Opening);
    let asked = RunView { stage: Stage::Asked, datasets: fresh.datasets.push(first), ..fresh };
    let full = RunView { datasets: asked.datasets + wrapped(pool.libzfs, handles), ..asked };
    assert(full.datasets =~= gathered);
    // The questions about the kinds.
    let sifting = RunView { next: 0, ..full }.at(Stage::Sifting);
    sifting_keeps_by_kind(pool, sifting, kinds);
    assert(gathered.subrange(0, gathered.len() as int) =~= gathered);
    assert(gathered.subrange(0, 0) + kept(gathered, kinds) =~= kept(gathered, kinds));
    let tail = seq![Event::Status(0)] + verdicts(kinds);
    play_from_first(op, full, Event::Status(0), verdicts(kinds));
    let all = inquiries(gathered, kinds);
    assert(all[0] == Call::DatasetType { dataset: root });
    assert(seq![all[0]] + all.drop_first() =~= all);
    assert(play(op, full, tail).calls =~= all);
    // The enumeration.
    listing_datasets_gathers(pool);
    gathering_keeps_the_order(op, pool.libzfs, asked, handles);
    play_in_parts(op, asked, items(handles), tail);
    // The way to the root.
    let events = rooting(name, root) + items(handles) + seq![Event::Status(0)] + verdicts(kinds);
    let after_root = items(handles) + tail;
    let after_name = seq![Event::Handle(root)] + after_root;
    assert(events =~= seq![Event::Begin] + (seq![Event::Name(name)] + after_name));
    play_from_first(op, fresh, Event::Begin, seq![Event::Name(name)] + after_name);
    play_from_first(op, naming, Event::Name(name), after_name);
    play_from_first(op, opening, Event::Handle(root), after_root);
    let trace = play(op, fresh, events);
    assert(trace.calls =~= rooting_calls(pool, name) + seq![
        Call::IterDependents { dataset: root, recurse: true },
    ] + all);
    assert(trace.yields =~= Seq::<Dataset>::empty());
}

/// Listing the datasets of a pool whose root filesystem does not open: the failure is
/// read from the error slot and is the result. Nothing is enumerated.
pub proof fn pool_listing_needs_the_root(
    pool: ZPool,
    name: SafeString,
    slot: ZfsError,
    system: SysError,
)
    ensures
        play(listing_datasets(pool), RunView::fresh(), rooting(name, 0) + readings(slot, system))
            == (Trace {
            calls: rooting_calls(pool, name) + diagnosis(pool.libzfs, slot),
            yields: Seq::empty(),
            end: End::Finished(Err::<Seq<Dataset>, Error>(diagnosed(slot, system))),
        }),
{
    let op = listing_datasets(pool);
    let fresh = RunView::fresh();
    let none = Seq::<Event>::empty();
    let naming = fresh.at(Stage::Naming);
    let opening = fresh.at(Stage::Opening);
    let read = fresh.at(Stage::LibraryError);
    let events = rooting(name, 0) + readings(slot, system);
    let after_name = seq![Event::Handle(0)] + readings(slot, system);
    assert(events =~= seq![Event::Begin] + (seq![Event::Name(name)] + after_name));
    play_from_first(op, fresh, Event::Begin, seq![Event::Name(name)] + after_name);
    play_from_first(op, naming, Event::Name(name), after_name);
    play_from_first(op, opening, Event::Handle(0), readings(slot, system));
    if slot.code != ZfsErrorCode::EZFS_UNKNOWN {
        assert(readings(slot, system) =~= seq![Event::LibraryError(slot)] + none);
        play_from_first(op, read, Event::LibraryError(slot), none);
    } else {
        let last = seq![Event::SystemError(system)] + none;
        assert(readings(slot, system) =~= seq![Event::LibraryError(slot)] + last);
        play_from_first(op, read, Event::LibraryError(slot), last);
        play_from_first(op, read.at(Stage::SystemError), Event::SystemError(system), none);
    }
    let trace = play(op, fresh, events);
    assert(trace.calls =~= rooting_calls(pool, name) + diagnosis(pool.libzfs, slot));
    assert(trace.yields =~= Seq::<Dataset>::empty());
}

/// Listing the datasets of a pool, when the enumeration fails. The failure is read from
/// the error slot; then everything that was gathered is closed, the root first and the
/// others in the order in which they came, each once; the failure is the result, and no
/// kind is asked.
pub proof fn failed_pool_listing_closes_what_it_gathered(
    pool: ZPool,
    name: SafeString,
    root: usize,
    handles: Seq<usize>,
    status: i32,
    slot: ZfsError,
    system: SysError,
)
    requires
        root != 0,
        none_null(handles),
        status != 0,
    ensures
        ({
            let gathered = seq![Dataset { libzfs: pool.libzfs, handle: root }] + wrapped(
                pool.libzfs,
                handles,
            );
            play(
                listing_datasets(pool),
                RunView::fresh(),
                rooting(name, root) + items(handles) + seq![Event::Status(status)] + readings(
                    slot,
                    system,
                ) + acknowledgements(gathered.len()),
            ) == (Trace {
                calls: rooting_calls(pool, name) + seq![
                    Call::IterDependents { dataset: root, recurse: true },
                ] + diagnosis(pool.libzfs, slot) + closings(gathered),
                yields: Seq::empty(),
                end: End::Finished(Err::<Seq<Dataset>, Error>(diagnosed(slot, system))),
            })
        }),
{
    let op = listing_datasets(pool);
    let fresh = RunView::fresh();
    let first = Dataset { libzfs: pool.libzfs, handle: root };
    let gathered = seq![first] + wrapped(pool.libzfs, handles);
    let naming = fresh.at(Stage::Naming);
    let opening = fresh.at(Stage::Opening);
    let asked = RunView { stage: Stage::Asked, datasets: fresh.datasets.push(first), ..fresh };
    let full = RunView { datasets: asked.datasets + wrapped(pool.libzfs, handles), ..asked };
    assert(full.datasets =~= gathered);
    listing_datasets_gathers(pool);
    let tail = seq![Event::Status(status)] + readings(slot, system) + acknowledgements(
        gathered.len(),
    );
    failure_closes_what_was_gathered(op, pool.libzfs, full, status, slot, system);
    gathering_keeps_the_order(op, pool.libzfs, asked, handles);
    play_in_parts(op, asked, items(handles), tail);
    let events = rooting(name, root) + items(handles) + seq![Event::Status(status)] + readings(
        slot,
        system,
    ) + acknowledgements(gathered.len());
    let after_root = items(handles) + tail;
    let after_name = seq![Event::Handle(root)] + after_root;
    assert(events =~= seq![Event::Begin] + (seq![Event::Name(name)] + after_name));
    play_from_first(op, fresh, Event::Begin, seq![Event::Name(name)] + after_name);
    play_from_first(op, naming, Event::Name(name), after_name);
    play_from_first(op, opening, Event::Handle(root), after_root);
    let trace = play(op, fresh, events);
    assert(trace.calls =~= rooting_calls(pool, name) + seq![
        Call::IterDependents { dataset: root, recurse: true },
    ] + diagnosis(pool.libzfs, slot) + closings(gathered));
    assert(trace.yields =~= Seq::<Dataset>::empty());
}

/// Listing all pools, as an operation.
pub open spec fn listing_pools(libzfs: LibZfs) -> spec_fn(RunView, Event) -> Answer<
    Result<Seq<ZPool>, Error>,
> {
    |run: RunView, event: Event| libzfs.spec_get_zpools(run, event)
}

/// The given handles as pools of one context, each owning its handle, in order.
pub open spec fn wrapped_pools(libzfs: usize, handles: Seq<usize>) -> Seq<ZPool> {
    Seq::new(handles.len(), |i: int| ZPool { libzfs, handle: handles[i], owned: true })
}

/// The calls that close the given pools, in order.
pub open spec fn pool_closings(pools: Seq<ZPool>) -> Seq<Call> {
    Seq::new(pools.len(), |i: int| Call::PoolClose { pool: pools[i].handle })
}

/// A dataset's place and handle, as a pool that owns the handle.
pub open spec fn as_pool(dataset: Dataset) -> ZPool {
    ZPool { libzfs: dataset.libzfs, handle: dataset.handle, owned: true }
}

/// Datasets' places and handles, as pools that own the handles, in order.
pub open spec fn as_pools(datasets: Seq<Dataset>) -> Seq<ZPool> {
    Seq::new(datasets.len(), |i: int| as_pool(datasets[i]))
}

/// The state of a listing of pools that has gathered, as pools, what a listing of
/// datasets has gathered.
pub open spec fn with_pools() -> spec_fn(RunView) -> RunView {
    |run: RunView| RunView { pools: as_pools(run.datasets), datasets: Seq::empty(), ..run }
}

/// The call on a pool that stands for a call on a dataset: closing for closing.
pub open spec fn on_pools() -> spec_fn(Call) -> Call {
    |call: Call|
        match call {
            Call::DatasetClose { dataset } => Call::PoolClose { pool: dataset },
            _ => call,
        }
}

/// A list of pools for a list of datasets, or the failure as it is.
pub open spec fn of_pools() -> spec_fn(Result<Seq<Dataset>, Error>) -> Result<Seq<ZPool>, Error> {
    |result: Result<Seq<Dataset>, Error>|
        match result {
            Ok(list) => Ok(as_pools(list)),
            Err(error) => Err(error),
        }
}

/// The listing of all pools is an enumeration in the list shape, with pools for
/// datasets and the closing of a pool for the closing of a dataset: step by step it does
/// what that shape does.
pub proof fn listing_pools_is_the_list_shape(libzfs: LibZfs)
    ensures
        mirrors(
            listing_pools(libzfs),
            collecting(libzfs.handle, Call::PoolIter { libzfs: libzfs.handle }),
            on_pools(),
            with_pools(),
            of_pools(),
        ),
{
    let op = listing_pools(libzfs);
    let model = collecting(libzfs.handle, Call::PoolIter { libzfs: libzfs.handle });
    let state = with_pools();
    assert forall|run: RunView, event: Event| #[trigger]
        op(state(run), event) == seen(model(run, event), on_pools(), state, of_pools()) by {
        if let Event::Item(handle) = event {
            let one = Dataset { libzfs: libzfs.handle, handle };
            assert(as_pools(run.datasets.push(one)) =~= as_pools(run.datasets).push(as_pool(one)));
        }
    }
}

/// Listing all pools, when the enumeration succeeds: the enumerating call is the only
/// call, and the result is the handles that were pushed, each wrapped with the context,
/// all of them and in the order in which they came.
pub proof fn all_pools_are_listed(libzfs: LibZfs, handles: Seq<usize>)
    requires
        none_null(handles),
    ensures
        play(
            listing_pools(libzfs),
            RunView::fresh(),
            seq![Event::Begin] + items(handles) + seq![Event::Status(0)],
        ) == (Trace {
            calls: seq![Call::PoolIter { libzfs: libzfs.handle }],
            yields: Seq::empty(),
            end: End::Finished(
                Ok::<Seq<ZPool>, Error>(wrapped_pools(libzfs.handle, handles)),
            ),
        }),
{
    let call = Call::PoolIter { libzfs: libzfs.handle };
    let events = seq![Event::Begin] + items(handles) + seq![Event::Status(0)];
    let fresh = RunView::fresh();
    listing_returns_what_was_pushed(libzfs.handle, call, handles);
    listing_pools_is_the_list_shape(libzfs);
    play_mirrors(
        listing_pools(libzfs),
        collecting(libzfs.handle, call),
        on_pools(),
        with_pools(),
        of_pools(),
        fresh,
        events,
    );
    assert(with_pools()(fresh) =~= fresh) by {
        assert(as_pools(fresh.datasets) =~= fresh.pools);
    }
    let trace = play(listing_pools(libzfs), fresh, events);
    assert(trace.calls =~= seq![call]);
    assert(as_pools(wrapped(libzfs.handle, handles)) =~= wrapped_pools(libzfs.handle, handles));
}

/// Listing all pools, when the enumeration fails. After the status the failure is read
/// from the error slot, before anything else is asked of the library. Then every pool
/// that was gathered is closed, each once and in the order in which it came, and the
/// operation ends with the failure.
pub proof fn failed_listing_closes_the_pools(
    libzfs: LibZfs,
    handles: Seq<usize>,
    status: i32,
    slot: ZfsError,
    system: SysError,
)
    requires
        none_null(handles),
        status != 0,
    ensures
        play(
            listing_pools(libzfs),
            RunView::fresh(),
            seq![Event::Begin] + items(handles) + seq![Event::Status(status)] + readings(
                slot,
                system,
            ) + acknowledgements(handles.len()),
        ) == (Trace {
            calls: seq![Call::PoolIter { libzfs: libzfs.handle }] + diagnosis(
                libzfs.handle,
                slot,
            ) + pool_closings(wrapped_pools(libzfs.handle, handles)),
            yields: Seq::empty(),
            end: End::Finished(Err::<Seq<ZPool>, Error>(diagnosed(slot, system))),
        }),
{
    let call = Call::PoolIter { libzfs: libzfs.handle };
    let events = failed_enumeration(handles, status, slot, system) + acknowledgements(
        handles.len(),
    );
    let fresh = RunView::fresh();
    failed_listing_closes_what_it_gathered(libzfs.handle, call, handles, status, slot, system);
    listing_pools_is_the_list_shape(libzfs);
    play_mirrors(
        listing_pools(libzfs),
        collecting(libzfs.handle, call),
        on_pools(),
        with_pools(),
        of_pools(),
        fresh,
        events,
    );
    assert(with_pools()(fresh) =~= fresh) by {
        assert(as_pools(fresh.datasets) =~= fresh.pools);
    }
    let trace = play(listing_pools(libzfs), fresh, events);
    assert(trace.calls =~= seq![call] + diagnosis(libzfs.handle, slot) + pool_closings(
        wrapped_pools(libzfs.handle, handles),
    ));
}

} // verus!
