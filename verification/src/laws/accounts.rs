//! The account of handles: over every conversation, whatever the native library answers,
//! each handle that came into the binding's hands has been given back to the library,
//! or handed to the caller, or is still held by the operation.

use vstd::multiset::Multiset;
use vstd::prelude::*;

use crate::context::LibZfs;
use crate::conversation::{play, play_mirrors, End};
use crate::dataset::Dataset;
use crate::error::Error;
use crate::kinds::DatasetTypeMask;
use crate::laws::batches::batching;
use crate::laws::custody::{
    asking_for_the_pool,
    delivered,
    duplicating,
    given,
    released,
    taken,
};
use crate::laws::handles::yields_nothing;
use crate::laws::listing::{collecting, forwarding};
use crate::laws::opening::{initialising, opening_dataset, opening_pool};
use crate::laws::pools::{
    as_pools,
    listing_datasets,
    listing_pools,
    listing_pools_is_the_list_shape,
    of_pools,
    on_pools,
    with_pools,
};
use crate::native::{Answer, Call, Event, RunView, Stage};
use crate::pool::ZPool;
use crate::string::SafeString;

verus! {

broadcast use vstd::multiset::group_multiset_axioms;

/// The handles of the given datasets, each as often as it occurs.
pub open spec fn dataset_handles(datasets: Seq<Dataset>) -> Multiset<usize>
    decreases datasets.len(),
{
    if datasets.len() == 0 {
        Multiset::empty()
    } else {
        Multiset::singleton(datasets[0].handle).add(dataset_handles(datasets.drop_first()))
    }
}

/// The handles of a list of datasets, if the operation returned one.
pub open spec fn listed_handles(result: Result<Seq<Dataset>, Error>) -> Multiset<usize> {
    match result {
        Ok(list) => dataset_handles(list),
        Err(_) => Multiset::empty(),
    }
}

/// Whether an answer keeps the account: what the operation had, with what the event
/// brought, is what the call gives back, what is handed out, and what the operation holds
/// or returns after; and the state after is one that the operation can be in.
pub open spec fn balanced<V>(
    answer: Answer<V>,
    had: Multiset<usize>,
    valid: spec_fn(RunView) -> bool,
    holding: spec_fn(RunView) -> Multiset<usize>,
    returned: spec_fn(V) -> Multiset<usize>,
) -> bool {
    match answer {
        Answer::Call(call, next) => valid(next) && had == taken(call).add(holding(next)),
        Answer::Await(next) => valid(next) && had == holding(next),
        Answer::Yield(dataset, next) => valid(next) && had == holding(next).insert(
            dataset.handle,
        ),
        Answer::Done(result) => had == returned(result),
        Answer::Stray(_) => true,
    }
}

/// Whether every step of an operation keeps the account, from every state that the
/// operation can be in.
pub open spec fn keeps_account<V>(
    op: spec_fn(RunView, Event) -> Answer<V>,
    valid: spec_fn(RunView) -> bool,
    holding: spec_fn(RunView) -> Multiset<usize>,
    returned: spec_fn(V) -> Multiset<usize>,
) -> bool {
    forall|run: RunView, event: Event|
        valid(run) ==> balanced(
            #[trigger] op(run, event),
            holding(run).add(given(event)),
            valid,
            holding,
            returned,
        )
}

/// An operation of which every step keeps the account keeps it over every conversation:
/// what it held at first and what the events delivered is what its calls have given
/// back, what it has handed out, and what it holds or has returned at the end.
pub proof fn conversation_keeps_account<V>(
    op: spec_fn(RunView, Event) -> Answer<V>,
    valid: spec_fn(RunView) -> bool,
    holding: spec_fn(RunView) -> Multiset<usize>,
    returned: spec_fn(V) -> Multiset<usize>,
    run: RunView,
    events: Seq<Event>,
)
    requires
        keeps_account(op, valid, holding, returned),
        valid(run),
    ensures
        ({
            let trace = play(op, run, events);
            let gone = released(trace.calls).add(dataset_handles(trace.yields));
            match trace.end {
                End::Pending(left) => valid(left) && holding(run).add(delivered(events))
                    == gone.add(holding(left)),
                End::Finished(result) => holding(run).add(delivered(events)) == gone.add(
                    returned(result),
                ),
                End::Broken => true,
            }
        }),
    decreases events.len(),
{
    let trace = play(op, run, events);
    let gone = released(trace.calls).add(dataset_handles(trace.yields));
    if events.len() == 0 {
        assert(holding(run).add(delivered(events)) =~= gone.add(holding(run)));
    } else {
        let rest = events.drop_first();
        let brought = given(events[0]);
        assert(delivered(events) == brought.add(delivered(rest)));
        match op(run, events[0]) {
            Answer::Call(call, next) => {
                conversation_keeps_account(op, valid, holding, returned, next, rest);
                let later = play(op, next, rest);
                let gone_later = released(later.calls).add(dataset_handles(later.yields));
                assert(trace.calls.drop_first() =~= later.calls);
                assert(trace.calls[0] == call);
                assert(released(trace.calls) == taken(call).add(released(later.calls)));
                assert(trace.yields == later.yields);
                assert(gone =~= taken(call).add(gone_later));
                assert(holding(run).add(delivered(events)) =~= holding(run).add(brought).add(
                    delivered(rest),
                ));
                match later.end {
                    End::Pending(left) => {
                        assert(taken(call).add(holding(next)).add(delivered(rest)) =~= taken(
                            call,
                        ).add(holding(next).add(delivered(rest))));
                        assert(taken(call).add(gone_later.add(holding(left))) =~= gone.add(
                            holding(left),
                        ));
                    },
                    End::Finished(result) => {
                        assert(taken(call).add(holding(next)).add(delivered(rest)) =~= taken(
                            call,
                        ).add(holding(next).add(delivered(rest))));
                        assert(taken(call).add(gone_later.add(returned(result))) =~= gone.add(
                            returned(result),
                        ));
                    },
                    End::Broken => {},
                }
            },
            Answer::Await(next) => {
                conversation_keeps_account(op, valid, holding, returned, next, rest);
                assert(holding(run).add(delivered(events)) =~= holding(run).add(brought).add(
                    delivered(rest),
                ));
            },
            Answer::Yield(dataset, next) => {
                conversation_keeps_account(op, valid, holding, returned, next, rest);
                let later = play(op, next, rest);
                let gone_later = released(later.calls).add(dataset_handles(later.yields));
                let one = Multiset::singleton(dataset.handle);
                assert(trace.yields.drop_first() =~= later.yields);
                assert(trace.yields[0] == dataset);
                assert(dataset_handles(trace.yields) == one.add(dataset_handles(later.yields)));
                assert(trace.calls == later.calls);
                assert(gone =~= one.add(gone_later));
                assert(holding(next).insert(dataset.handle) =~= one.add(holding(next)));
                assert(holding(run).add(delivered(events)) =~= holding(run).add(brought).add(
                    delivered(rest),
                ));
                match later.end {
                    End::Pending(left) => {
                        assert(one.add(holding(next)).add(delivered(rest)) =~= one.add(
                            holding(next).add(delivered(rest)),
                        ));
                        assert(one.add(gone_later.add(holding(left))) =~= gone.add(holding(left)));
                    },
                    End::Finished(result) => {
                        assert(one.add(holding(next)).add(delivered(rest)) =~= one.add(
                            holding(next).add(delivered(rest)),
                        ));
                        assert(one.add(gone_later.add(returned(result))) =~= gone.add(
                            returned(result),
                        ));
                    },
                    End::Broken => {},
                }
            },
            Answer::Done(result) => {
                if rest.len() == 0 {
                    assert(delivered(rest) =~= Multiset::empty());
                    assert(gone =~= Multiset::empty());
                    assert(holding(run).add(delivered(events)) =~= gone.add(returned(result)));
                }
            },
            Answer::Stray(_) => {},
        }
    }
}

/// The handles of datasets, when one more is appended.
pub proof fn handles_with_one_more(datasets: Seq<Dataset>, last: Dataset)
    ensures
        dataset_handles(datasets.push(last)) == dataset_handles(datasets).insert(last.handle),
    decreases datasets.len(),
{
    let more = datasets.push(last);
    if datasets.len() == 0 {
        assert(more.drop_first() =~= Seq::<Dataset>::empty());
        assert(dataset_handles(more.drop_first()) =~= Multiset::empty());
        assert(more[0] == last);
        assert(dataset_handles(more) =~= dataset_handles(datasets).insert(last.handle));
    } else {
        handles_with_one_more(datasets.drop_first(), last);
        assert(more.drop_first() =~= datasets.drop_first().push(last));
        assert(more[0] == datasets[0]);
        assert(dataset_handles(more) =~= dataset_handles(datasets).insert(last.handle));
    }
}

/// The handles of datasets, when one is taken out.
pub proof fn handles_with_one_less(datasets: Seq<Dataset>, at: int)
    requires
        0 <= at < datasets.len(),
    ensures
        dataset_handles(datasets) == dataset_handles(datasets.remove(at)).insert(
            datasets[at].handle,
        ),
    decreases datasets.len(),
{
    let fewer = datasets.remove(at);
    if at == 0 {
        assert(fewer =~= datasets.drop_first());
        assert(dataset_handles(datasets) =~= dataset_handles(fewer).insert(datasets[at].handle));
    } else {
        handles_with_one_less(datasets.drop_first(), at - 1);
        assert(fewer.drop_first() =~= datasets.drop_first().remove(at - 1));
        assert(fewer[0] == datasets[0]);
        assert(dataset_handles(datasets) =~= dataset_handles(fewer).insert(datasets[at].handle));
    }
}

/// The handles of the datasets from a place on: the handle at that place, and those
/// after it.
pub proof fn handles_from(datasets: Seq<Dataset>, at: int)
    requires
        0 <= at < datasets.len(),
    ensures
        dataset_handles(datasets.subrange(at, datasets.len() as int)) == dataset_handles(
            datasets.subrange(at + 1, datasets.len() as int),
        ).insert(datasets[at].handle),
{
    let from = datasets.subrange(at, datasets.len() as int);
    let after = datasets.subrange(at + 1, datasets.len() as int);
    assert(from.drop_first() =~= after);
    assert(from[0] == datasets[at]);
    assert(dataset_handles(from) =~= dataset_handles(after).insert(datasets[at].handle));
}

/// What an enumeration in the list shape holds: what it has gathered; once it closes
/// what it gathered, what it has not closed yet.
pub open spec fn collecting_holds() -> spec_fn(RunView) -> Multiset<usize> {
    |run: RunView|
        match run.stage {
            Stage::Asked | Stage::LibraryError | Stage::SystemError => dataset_handles(
                run.datasets,
            ),
            Stage::Discarding => dataset_handles(
                run.datasets.subrange(run.next as int + 1, run.datasets.len() as int),
            ),
            _ => Multiset::empty(),
        }
}

/// The states that an enumeration in the list shape can be in.
pub open spec fn collecting_valid() -> spec_fn(RunView) -> bool {
    |run: RunView|
        match run.stage {
            Stage::Fresh => run.datasets.len() == 0,
            Stage::Discarding => run.next < run.datasets.len() && run.failure is Some,
            _ => true,
        }
}

/// Every step of an enumeration in the list shape keeps the account.
pub proof fn collecting_keeps_account(libzfs: usize, call: Call)
    requires
        taken(call) == Multiset::<usize>::empty(),
    ensures
        keeps_account(
            collecting(libzfs, call),
            collecting_valid(),
            collecting_holds(),
            |result| listed_handles(result),
        ),
{
    let op = collecting(libzfs, call);
    let valid = collecting_valid();
    let holding = collecting_holds();
    let returned = |result| listed_handles(result);
    assert forall|run: RunView, event: Event| valid(run) implies balanced(
        #[trigger] op(run, event),
        holding(run).add(given(event)),
        valid,
        holding,
        returned,
    ) by {
        let all = run.datasets;
        let size = all.len() as int;
        match op(run, event) {
            Answer::Call(call, next) => {
                if next.stage == Stage::Discarding {
                    assert(all.subrange(0, size) =~= all);
                    handles_from(all, next.next as int);
                }
                assert(holding(run).add(given(event)) =~= taken(call).add(holding(next)));
            },
            Answer::Await(next) => {
                if let Event::Item(handle) = event {
                    handles_with_one_more(all, Dataset { libzfs, handle });
                }
                assert(holding(run).add(given(event)) =~= holding(next));
            },
            Answer::Yield(dataset, next) => {},
            Answer::Done(result) => {
                if run.stage == Stage::Discarding {
                    assert(all.subrange(run.next as int + 1, size) =~= Seq::<Dataset>::empty());
                }
                assert(holding(run).add(given(event)) =~= listed_handles(result));
            },
            Answer::Stray(_) => {},
        }
    }
}

/// What an operation holds that passes on what it is brought: nothing.
pub open spec fn nothing_held() -> spec_fn(RunView) -> Multiset<usize> {
    |run: RunView| Multiset::empty()
}

/// Every state, for an operation that can be in any.
pub open spec fn any_state() -> spec_fn(RunView) -> bool {
    |run: RunView| true
}

/// Whether an operation passes on what it is brought: each handle that an event brings
/// is at once handed out or returned, and no call gives a handle back.
pub open spec fn passes_on<V>(
    op: spec_fn(RunView, Event) -> Answer<V>,
    returned: spec_fn(V) -> Multiset<usize>,
) -> bool {
    forall|run: RunView, event: Event|
        match #[trigger] op(run, event) {
            Answer::Call(call, _) => given(event) == taken(call),
            Answer::Await(_) => given(event) == Multiset::<usize>::empty(),
            Answer::Yield(dataset, _) => given(event) == Multiset::singleton(dataset.handle),
            Answer::Done(result) => given(event) == returned(result),
            Answer::Stray(_) => true,
        }
}

/// Every step of an operation that passes on what it is brought keeps the account, with
/// nothing held.
pub proof fn passing_on_keeps_account<V>(
    op: spec_fn(RunView, Event) -> Answer<V>,
    returned: spec_fn(V) -> Multiset<usize>,
)
    requires
        passes_on(op, returned),
    ensures
        keeps_account(op, any_state(), nothing_held(), returned),
{
    let valid = any_state();
    let holding = nothing_held();
    assert forall|run: RunView, event: Event| valid(run) implies balanced(
        #[trigger] op(run, event),
        holding(run).add(given(event)),
        valid,
        holding,
        returned,
    ) by {
        let had = holding(run).add(given(event));
        assert(had =~= given(event));
        match op(run, event) {
            Answer::Call(call, next) => {
                assert(had =~= taken(call).add(holding(next)));
            },
            Answer::Yield(dataset, next) => {
                assert(had =~= holding(next).insert(dataset.handle));
            },
            _ => {},
        }
    }
}

/// What the listing of the datasets of a pool holds: what it has gathered, but for the
/// dataset that it is closing.
pub open spec fn listing_datasets_holds() -> spec_fn(RunView) -> Multiset<usize> {
    |run: RunView|
        match run.stage {
            Stage::Asked | Stage::LibraryError | Stage::SystemError | Stage::Sifting => dataset_handles(
                run.datasets,
            ),
            Stage::Dropping => dataset_handles(run.datasets.remove(run.next as int)),
            Stage::Discarding => dataset_handles(
                run.datasets.subrange(run.next as int + 1, run.datasets.len() as int),
            ),
            _ => Multiset::empty(),
        }
}

/// The states that the listing of the datasets of a pool can be in.
pub open spec fn listing_datasets_valid() -> spec_fn(RunView) -> bool {
    |run: RunView|
        match run.stage {
            Stage::Fresh | Stage::Naming | Stage::Opening => run.datasets.len() == 0,
            Stage::Sifting | Stage::Dropping => run.next < run.datasets.len(),
            Stage::Discarding => run.next < run.datasets.len() && run.failure is Some,
            _ => true,
        }
}

/// Every step of listing the datasets of a pool keeps the account.
pub proof fn listing_datasets_keeps_account(pool: ZPool)
    ensures
        keeps_account(
            listing_datasets(pool),
            listing_datasets_valid(),
            listing_datasets_holds(),
            |result| listed_handles(result),
        ),
{
    let op = listing_datasets(pool);
    let valid = listing_datasets_valid();
    let holding = listing_datasets_holds();
    let returned = |result| listed_handles(result);
    assert forall|run: RunView, event: Event| valid(run) implies balanced(
        #[trigger] op(run, event),
        holding(run).add(given(event)),
        valid,
        holding,
        returned,
    ) by {
        let all = run.datasets;
        let size = all.len() as int;
        let at = run.next as int;
        match op(run, event) {
            Answer::Call(call, next) => {
                if next.stage == Stage::Discarding {
                    assert(all.subrange(0, size) =~= all);
                    handles_from(all, next.next as int);
                }
                if next.stage == Stage::Dropping {
                    handles_with_one_less(all, at);
                }
                if run.stage == Stage::Opening {
                    assert(all =~= Seq::<Dataset>::empty());
                    if let Event::Handle(root) = event {
                        handles_with_one_more(all, Dataset { libzfs: pool.libzfs, handle: root });
                    }
                }
                assert(holding(run).add(given(event)) =~= taken(call).add(holding(next)));
            },
            Answer::Await(next) => {
                if let Event::Item(handle) = event {
                    handles_with_one_more(all, Dataset { libzfs: pool.libzfs, handle });
                }
                assert(holding(run).add(given(event)) =~= holding(next));
            },
            Answer::Yield(dataset, next) => {},
            Answer::Done(result) => {
                if run.stage == Stage::Discarding {
                    assert(all.subrange(at + 1, size) =~= Seq::<Dataset>::empty());
                }
                assert(holding(run).add(given(event)) =~= listed_handles(result));
            },
            Answer::Stray(_) => {},
        }
    }
}

/// The handles of the given pools, each as often as it occurs.
pub open spec fn pool_handles(pools: Seq<ZPool>) -> Multiset<usize>
    decreases pools.len(),
{
    if pools.len() == 0 {
        Multiset::empty()
    } else {
        Multiset::singleton(pools[0].handle).add(pool_handles(pools.drop_first()))
    }
}

/// The handles of a list of pools, if the operation returned one.
pub open spec fn listed_pool_handles(result: Result<Seq<ZPool>, Error>) -> Multiset<usize> {
    match result {
        Ok(list) => pool_handles(list),
        Err(_) => Multiset::empty(),
    }
}

/// The pools that stand for datasets have the handles of those datasets.
proof fn handles_as_pools(datasets: Seq<Dataset>)
    ensures
        pool_handles(as_pools(datasets)) == dataset_handles(datasets),
    decreases datasets.len(),
{
    if datasets.len() > 0 {
        handles_as_pools(datasets.drop_first());
        assert(as_pools(datasets).drop_first() =~= as_pools(datasets.drop_first()));
    }
}

/// Closing pools gives back what closing the datasets in their place gives back.
proof fn released_on_pools(calls: Seq<Call>)
    ensures
        released(Seq::new(calls.len(), |i: int| on_pools()(calls[i]))) == released(calls),
    decreases calls.len(),
{
    let on = Seq::new(calls.len(), |i: int| on_pools()(calls[i]));
    if calls.len() > 0 {
        let rest = calls.drop_first();
        released_on_pools(rest);
        assert(on.drop_first() =~= Seq::new(rest.len(), |i: int| on_pools()(rest[i])));
        assert(taken(on[0]) == taken(calls[0]));
    }
}

/// What a batch call holds: the name set, from its allocation until the call that frees
/// it.
pub open spec fn batching_holds() -> spec_fn(RunView) -> Multiset<usize> {
    |run: RunView|
        match run.stage {
            Stage::Adding | Stage::Submitting => Multiset::singleton(run.set),
            Stage::LibraryError | Stage::SystemError => if run.set != 0 {
                Multiset::singleton(run.set)
            } else {
                Multiset::empty()
            },
            _ => Multiset::empty(),
        }
}

/// The states that a batch call can be in.
pub open spec fn batching_valid() -> spec_fn(RunView) -> bool {
    |run: RunView|
        match run.stage {
            Stage::Adding | Stage::Submitting => run.set != 0,
            _ => true,
        }
}

/// Every step of a batch call keeps the account.
pub proof fn batching_keeps_account(libzfs: LibZfs, names: Seq<SafeString>, destroy: bool)
    ensures
        keeps_account(
            batching(libzfs, names, destroy),
            batching_valid(),
            batching_holds(),
            |result: Result<(), Error>| Multiset::empty(),
        ),
{
    let op = batching(libzfs, names, destroy);
    let valid = batching_valid();
    let holding = batching_holds();
    let returned = |result: Result<(), Error>| Multiset::<usize>::empty();
    assert forall|run: RunView, event: Event| valid(run) implies balanced(
        #[trigger] op(run, event),
        holding(run).add(given(event)),
        valid,
        holding,
        returned,
    ) by {
        match op(run, event) {
            Answer::Call(call, next) => {
                assert(holding(run).add(given(event)) =~= taken(call).add(holding(next)));
            },
            Answer::Await(next) => {},
            Answer::Yield(dataset, next) => {},
            Answer::Done(result) => {
                assert(holding(run).add(given(event)) =~= Multiset::<usize>::empty());
            },
            Answer::Stray(_) => {},
        }
    }
}

/// Building a name set, as an operation.
pub open spec fn building_a_set(libzfs: LibZfs, names: Seq<SafeString>) -> spec_fn(
    RunView,
    Event,
) -> Answer<Result<usize, Error>> {
    |run: RunView, event: Event| libzfs.spec_build_nvlist(names, run, event)
}

/// What the building of a name set holds: the set, while names are added to it.
pub open spec fn building_holds() -> spec_fn(RunView) -> Multiset<usize> {
    |run: RunView|
        match run.stage {
            Stage::Adding => Multiset::singleton(run.set),
            _ => Multiset::empty(),
        }
}

/// The states that the building of a name set can be in.
pub open spec fn building_valid() -> spec_fn(RunView) -> bool {
    |run: RunView| run.stage == Stage::Adding ==> run.set != 0
}

/// Every step of building a name set keeps the account.
pub proof fn building_keeps_account(libzfs: LibZfs, names: Seq<SafeString>)
    ensures
        keeps_account(
            building_a_set(libzfs, names),
            building_valid(),
            building_holds(),
            |result| opened(result, |set: usize| set),
        ),
{
    let op = building_a_set(libzfs, names);
    let valid = building_valid();
    let holding = building_holds();
    let returned = |result| opened(result, |set: usize| set);
    assert forall|run: RunView, event: Event| valid(run) implies balanced(
        #[trigger] op(run, event),
        holding(run).add(given(event)),
        valid,
        holding,
        returned,
    ) by {
        match op(run, event) {
            Answer::Call(call, next) => {
                assert(holding(run).add(given(event)) =~= taken(call).add(holding(next)));
            },
            Answer::Done(result) => {
                assert(holding(run).add(given(event)) =~= opened(result, |set: usize| set));
            },
            _ => {},
        }
    }
}

/// The handle of what an operation opened, if it opened it.
pub open spec fn opened<T>(result: Result<T, Error>, handle: spec_fn(T) -> usize) -> Multiset<
    usize,
> {
    match result {
        Ok(what) => Multiset::singleton(handle(what)),
        Err(_) => Multiset::empty(),
    }
}

/// The account at the end of an operation that held nothing at first. Whatever the
/// events, when the operation is over, what the events delivered is what the calls have
/// given back, what was handed out, and what is returned.
pub proof fn account_at_the_end<V>(
    op: spec_fn(RunView, Event) -> Answer<V>,
    valid: spec_fn(RunView) -> bool,
    holding: spec_fn(RunView) -> Multiset<usize>,
    returned: spec_fn(V) -> Multiset<usize>,
    events: Seq<Event>,
)
    requires
        keeps_account(op, valid, holding, returned),
        valid(RunView::fresh()),
        holding(RunView::fresh()) == Multiset::<usize>::empty(),
    ensures
        ({
            let trace = play(op, RunView::fresh(), events);
            let back = released(trace.calls);
            let out = dataset_handles(trace.yields);
            trace.end matches End::Finished(result) ==> {
                &&& delivered(events) == back.add(out).add(returned(result))
                &&& trace.yields.len() == 0 ==> delivered(events) == back.add(returned(result))
                &&& returned(result) == Multiset::<usize>::empty() ==> delivered(events)
                    == back.add(out)
                &&& trace.yields.len() == 0 && returned(result) == Multiset::<usize>::empty()
                    ==> delivered(events) == back
            }
        }),
{
    let fresh = RunView::fresh();
    conversation_keeps_account(op, valid, holding, returned, fresh, events);
    let trace = play(op, fresh, events);
    let back = released(trace.calls);
    let out = dataset_handles(trace.yields);
    if let End::Finished(result) = trace.end {
        let kept = returned(result);
        assert(holding(fresh).add(delivered(events)) =~= delivered(events));
        assert(trace.yields.len() == 0 ==> out =~= Multiset::<usize>::empty());
        assert(out == Multiset::<usize>::empty() ==> back.add(out).add(kept) =~= back.add(kept));
        assert(kept == Multiset::<usize>::empty() ==> back.add(out).add(kept) =~= back.add(out));
        assert(out == Multiset::<usize>::empty() && kept == Multiset::<usize>::empty()
            ==> back.add(out).add(kept) =~= back);
    }
}

/// No enumeration below a dataset loses a handle. Whatever the native library answers,
/// when the operation is over, the handles that the library delivered are those that the
/// operation has closed again and those of the datasets that it has returned or handed
/// to the callback, each as often as it was delivered; after a failure, those that it has
/// closed again and those that it had handed to the callback before.
pub proof fn no_enumeration_loses_a_handle(libzfs: usize, call: Call, events: Seq<Event>)
    requires
        taken(call) == Multiset::<usize>::empty(),
    ensures
        ({
            let trace = play(collecting(libzfs, call), RunView::fresh(), events);
            trace.end matches End::Finished(result) ==> delivered(events) == released(
                trace.calls,
            ).add(listed_handles(result))
        }),
        ({
            let trace = play(forwarding(libzfs, call), RunView::fresh(), events);
            trace.end is Finished ==> delivered(events) == released(trace.calls).add(
                dataset_handles(trace.yields),
            )
        }),
{
    let fresh = RunView::fresh();
    collecting_keeps_account(libzfs, call);
    account_at_the_end(
        collecting(libzfs, call),
        collecting_valid(),
        collecting_holds(),
        |result| listed_handles(result),
        events,
    );
    yields_nothing(collecting(libzfs, call), fresh, events);
    let nothing = |result: Result<(), Error>| Multiset::<usize>::empty();
    passing_on_keeps_account(forwarding(libzfs, call), nothing);
    account_at_the_end(forwarding(libzfs, call), any_state(), nothing_held(), nothing, events);
}

/// No listing of pools, or of the datasets of a pool, loses a handle. Whatever the native
/// library answers, when the operation is over, the handles that the library delivered
/// are those that the operation has closed again and those of what it has returned, each
/// as often as it was delivered.
pub proof fn no_listing_loses_a_handle(libzfs: LibZfs, pool: ZPool, events: Seq<Event>)
    ensures
        ({
            let trace = play(listing_pools(libzfs), RunView::fresh(), events);
            trace.end matches End::Finished(result) ==> delivered(events) == released(
                trace.calls,
            ).add(listed_pool_handles(result))
        }),
        ({
            let trace = play(listing_datasets(pool), RunView::fresh(), events);
            trace.end matches End::Finished(result) ==> delivered(events) == released(
                trace.calls,
            ).add(listed_handles(result))
        }),
{
    let fresh = RunView::fresh();
    let call = Call::PoolIter { libzfs: libzfs.handle };
    no_enumeration_loses_a_handle(libzfs.handle, call, events);
    listing_pools_is_the_list_shape(libzfs);
    play_mirrors(
        listing_pools(libzfs),
        collecting(libzfs.handle, call),
        on_pools(),
        with_pools(),
        of_pools(),
        fresh,
        events,
    );
    assert(with_pools()(fresh) =~= fresh) by {
        assert(as_pools(fresh.datasets) =~= fresh.pools);
    }
    let model = play(collecting(libzfs.handle, call), fresh, events);
    released_on_pools(model.calls);
    if let End::Finished(Ok(list)) = model.end {
        handles_as_pools(list);
    }
    listing_datasets_keeps_account(pool);
    account_at_the_end(
        listing_datasets(pool),
        listing_datasets_valid(),
        listing_datasets_holds(),
        |result| listed_handles(result),
        events,
    );
    yields_nothing(listing_datasets(pool), fresh, events);
}

/// No batch call loses its name set. Whatever the native library answers, when the
/// operation is over, with success or with a failure, every name set that was allocated
/// has been freed, once.
pub proof fn no_batch_loses_its_name_set(
    libzfs: LibZfs,
    names: Seq<SafeString>,
    destroy: bool,
    events: Seq<Event>,
)
    ensures
        ({
            let trace = play(batching(libzfs, names, destroy), RunView::fresh(), events);
            trace.end is Finished ==> delivered(events) == released(trace.calls)
        }),
{
    let fresh = RunView::fresh();
    batching_keeps_account(libzfs, names, destroy);
    account_at_the_end(
        batching(libzfs, names, destroy),
        batching_valid(),
        batching_holds(),
        |result: Result<(), Error>| Multiset::<usize>::empty(),
        events,
    );
    yields_nothing(batching(libzfs, names, destroy), fresh, events);
}

/// Whatever the native library answers, the pool that a dataset is asked for is borrowed.
proof fn borrowed_is_all_that_is_asked(dataset: Dataset, run: RunView, events: Seq<Event>)
    ensures
        play(asking_for_the_pool(dataset), run, events).end matches End::Finished(pool)
            ==> !pool.owned,
    decreases events.len(),
{
    if events.len() > 0 {
        match asking_for_the_pool(dataset)(run, events[0]) {
            Answer::Call(_, next) => {
                borrowed_is_all_that_is_asked(dataset, next, events.drop_first());
            },
            Answer::Await(next) => {
                borrowed_is_all_that_is_asked(dataset, next, events.drop_first());
            },
            Answer::Yield(_, next) => {
                borrowed_is_all_that_is_asked(dataset, next, events.drop_first());
            },
            _ => {},
        }
    }
}

/// Building a name set, or asking for the pool of a dataset, loses no handle. Whatever
/// the native library answers, when the building is over, the only handle that the
/// library delivered is the set that the operation returns, and nothing was delivered if
/// it failed. Asking for the pool of a dataset delivers nothing and gives nothing back:
/// the pool is borrowed, and closing it asks for no call.
pub proof fn no_asking_loses_a_handle(
    libzfs: LibZfs,
    names: Seq<SafeString>,
    dataset: Dataset,
    events: Seq<Event>,
)
    ensures
        ({
            let trace = play(building_a_set(libzfs, names), RunView::fresh(), events);
            trace.end matches End::Finished(result) ==> delivered(events) == released(
                trace.calls,
            ).add(opened(result, |set: usize| set))
        }),
        ({
            let trace = play(asking_for_the_pool(dataset), RunView::fresh(), events);
            trace.end matches End::Finished(pool) ==> delivered(events) == released(trace.calls)
                && pool.closing() is None
        }),
{
    let fresh = RunView::fresh();
    building_keeps_account(libzfs, names);
    account_at_the_end(
        building_a_set(libzfs, names),
        building_valid(),
        building_holds(),
        |result| opened(result, |set: usize| set),
        events,
    );
    yields_nothing(building_a_set(libzfs, names), fresh, events);
    let nothing = |pool: ZPool| Multiset::<usize>::empty();
    passing_on_keeps_account(asking_for_the_pool(dataset), nothing);
    account_at_the_end(asking_for_the_pool(dataset), any_state(), nothing_held(), nothing, events);
    yields_nothing(asking_for_the_pool(dataset), fresh, events);
    borrowed_is_all_that_is_asked(dataset, fresh, events);
}

/// No opening loses a handle. Whatever the native library answers, when the operation
/// is over, the only handle that the library delivered is the handle of what the
/// operation returns, and nothing was delivered if it failed; the operation closes
/// nothing.
pub proof fn no_opening_loses_a_handle(
    libzfs: LibZfs,
    name: SafeString,
    types: DatasetTypeMask,
    dataset: Dataset,
    events: Seq<Event>,
)
    ensures
        ({
            let trace = play(initialising(), RunView::fresh(), events);
            trace.end matches End::Finished(result) ==> delivered(events) == released(
                trace.calls,
            ).add(opened(result, |context: LibZfs| context.handle))
        }),
        ({
            let trace = play(opening_pool(libzfs, name), RunView::fresh(), events);
            trace.end matches End::Finished(result) ==> delivered(events) == released(
                trace.calls,
            ).add(opened(result, |pool: ZPool| pool.handle))
        }),
        ({
            let trace = play(opening_dataset(libzfs, name, types), RunView::fresh(), events);
            trace.end matches End::Finished(result) ==> delivered(events) == released(
                trace.calls,
            ).add(opened(result, |dataset: Dataset| dataset.handle))
        }),
        ({
            let trace = play(duplicating(dataset), RunView::fresh(), events);
            trace.end matches End::Finished(copy) ==> delivered(events) == released(
                trace.calls,
            ).insert(copy.handle)
        }),
{
    let fresh = RunView::fresh();
    let context = |result| opened(result, |context: LibZfs| context.handle);
    passing_on_keeps_account(initialising(), context);
    account_at_the_end(initialising(), any_state(), nothing_held(), context, events);
    yields_nothing(initialising(), fresh, events);
    let pool = |result| opened(result, |pool: ZPool| pool.handle);
    passing_on_keeps_account(opening_pool(libzfs, name), pool);
    account_at_the_end(opening_pool(libzfs, name), any_state(), nothing_held(), pool, events);
    yields_nothing(opening_pool(libzfs, name), fresh, events);
    let opened_dataset = |result| opened(result, |dataset: Dataset| dataset.handle);
    passing_on_keeps_account(opening_dataset(libzfs, name, types), opened_dataset);
    account_at_the_end(
        opening_dataset(libzfs, name, types),
        any_state(),
        nothing_held(),
        opened_dataset,
        events,
    );
    yields_nothing(opening_dataset(libzfs, name, types), fresh, events);
    let copy = |copy: Dataset| Multiset::singleton(copy.handle);
    passing_on_keeps_account(duplicating(dataset), copy);
    account_at_the_end(duplicating(dataset), any_state(), nothing_held(), copy, events);
    yields_nothing(duplicating(dataset), fresh, events);
    let trace = play(duplicating(dataset), fresh, events);
    if let End::Finished(made) = trace.end {
        assert(released(trace.calls).add(Multiset::singleton(made.handle)) =~= released(
            trace.calls,
        ).insert(made.handle));
    }
}

} // verus!
