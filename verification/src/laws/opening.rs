//! Opening by name: what comes back, and which failure is reported.

use vstd::prelude::*;

use crate::context::{spec_lookup, LibZfs};
use crate::conversation::{play, play_from_first, End, Trace};
use crate::dataset::Dataset;
use crate::error::{Error, SysError, ZfsError, ZfsErrorCode};
use crate::kinds::DatasetTypeMask;
use crate::laws::listing::{diagnosed, diagnosis, readings};
use crate::native::{Answer, Call, Event, RunView, Stage};
use crate::pool::ZPool;
use crate::string::SafeString;

verus! {

/// Opening a pool by name, as an operation.
pub open spec fn opening_pool(libzfs: LibZfs, name: SafeString) -> spec_fn(
    RunView,
    Event,
) -> Answer<Result<ZPool, Error>> {
    |run: RunView, event: Event| libzfs.spec_pool_by_name(name, run, event)
}

/// Opening a dataset by name, as an operation.
pub open spec fn opening_dataset(
    libzfs: LibZfs,
    name: SafeString,
    types: DatasetTypeMask,
) -> spec_fn(RunView, Event) -> Answer<Result<Dataset, Error>> {
    |run: RunView, event: Event| libzfs.spec_dataset_by_name(name, types, run, event)
}

/// Initialising the library, as an operation.
pub open spec fn initialising() -> spec_fn(RunView, Event) -> Answer<Result<LibZfs, Error>> {
    |run: RunView, event: Event| LibZfs::spec_new(run, event)
}

/// Initialising the library takes one call; the handle that comes back, if it is not
/// null, is the context. After a null handle the system's last error is read, and
/// nothing else, and is the failure.
pub proof fn initialising_succeeds_or_reports_the_system(handle: usize, system: SysError)
    ensures
        handle != 0 ==> play(
            initialising(),
            RunView::fresh(),
            seq![Event::Begin, Event::Handle(handle)],
        ) == (Trace {
            calls: seq![Call::Init],
            yields: Seq::empty(),
            end: End::Finished(Ok::<LibZfs, Error>(LibZfs { handle })),
        }),
        play(
            initialising(),
            RunView::fresh(),
            seq![Event::Begin, Event::Handle(0), Event::SystemError(system)],
        ) == (Trace {
            calls: seq![Call::Init, Call::SystemError],
            yields: Seq::empty(),
            end: End::Finished(Err::<LibZfs, Error>(Error::Sys(system))),
        }),
{
    let op = initialising();
    let fresh = RunView::fresh();
    let none = Seq::<Event>::empty();
    if handle != 0 {
        let events = seq![Event::Begin, Event::Handle(handle)];
        assert(events =~= seq![Event::Begin] + (seq![Event::Handle(handle)] + none));
        play_from_first(op, fresh, Event::Begin, seq![Event::Handle(handle)] + none);
        let asked = op(fresh, Event::Begin)->Call_1;
        play_from_first(op, asked, Event::Handle(handle), none);
        assert(play(op, fresh, events).calls =~= seq![Call::Init]);
    }
    let events = seq![Event::Begin, Event::Handle(0), Event::SystemError(system)];
    let last = seq![Event::SystemError(system)] + none;
    assert(events =~= seq![Event::Begin] + (seq![Event::Handle(0)] + last));
    play_from_first(op, fresh, Event::Begin, seq![Event::Handle(0)] + last);
    let asked = op(fresh, Event::Begin)->Call_1;
    play_from_first(op, asked, Event::Handle(0), last);
    let failed = op(asked, Event::Handle(0))->Call_1;
    play_from_first(op, failed, Event::SystemError(system), none);
    assert(play(op, fresh, events).calls =~= seq![Call::Init, Call::SystemError]);
}

/// Judging what was opened: the handle wrapped, or the failure as it is.
pub open spec fn wrapping<T>(wrap: spec_fn(usize) -> T) -> spec_fn(Result<usize, Error>) -> Result<
    T,
    Error,
> {
    |found: Result<usize, Error>|
        match found {
            Ok(handle) => Ok(wrap(handle)),
            Err(error) => Err(error),
        }
}

/// Whether an operation opens one thing: makes the given call once, and wraps the handle
/// that comes back.
pub open spec fn opens<T>(
    op: spec_fn(RunView, Event) -> Answer<Result<T, Error>>,
    libzfs: usize,
    call: Call,
    wrap: spec_fn(usize) -> T,
) -> bool {
    forall|run: RunView, event: Event| #[trigger]
        op(run, event) == spec_lookup(libzfs, call, run, event).map(wrapping(wrap))
}

/// Opening what exists takes one call; the handle that comes back, wrapped, is the
/// result.
pub proof fn opening_succeeds<T>(
    op: spec_fn(RunView, Event) -> Answer<Result<T, Error>>,
    libzfs: usize,
    call: Call,
    wrap: spec_fn(usize) -> T,
    handle: usize,
)
    requires
        opens(op, libzfs, call, wrap),
        handle != 0,
    ensures
        play(op, RunView::fresh(), seq![Event::Begin, Event::Handle(handle)]) == (Trace {
            calls: seq![call],
            yields: Seq::empty(),
            end: End::Finished(Ok::<T, Error>(wrap(handle))),
        }),
{
    let fresh = RunView::fresh();
    let none = Seq::<Event>::empty();
    let events = seq![Event::Begin, Event::Handle(handle)];
    assert(events =~= seq![Event::Begin] + (seq![Event::Handle(handle)] + none));
    play_from_first(op, fresh, Event::Begin, seq![Event::Handle(handle)] + none);
    play_from_first(op, fresh.at(Stage::Asked), Event::Handle(handle), none);
    assert(play(op, fresh, events).calls =~= seq![call]);
}

/// Opening what does not exist: the failure is what the error slot holds. The slot is
/// read right after the call. If it holds a code of the library, the failure is that code
/// with its description, and the system's error is not read. If it holds the unknown
/// code, the system's last error is read and is the failure.
pub proof fn opening_reports_the_error_slot<T>(
    op: spec_fn(RunView, Event) -> Answer<Result<T, Error>>,
    libzfs: usize,
    call: Call,
    wrap: spec_fn(usize) -> T,
    slot: ZfsError,
    system: SysError,
)
    requires
        opens(op, libzfs, call, wrap),
    ensures
        play(
            op,
            RunView::fresh(),
            seq![Event::Begin, Event::Handle(0)] + readings(slot, system),
        ) == (Trace {
            calls: seq![call] + diagnosis(libzfs, slot),
            yields: Seq::empty(),
            end: End::Finished(Err::<T, Error>(diagnosed(slot, system))),
        }),
{
    let fresh = RunView::fresh();
    let none = Seq::<Event>::empty();
    let asked = fresh.at(Stage::Asked);
    let read = fresh.at(Stage::LibraryError);
    let events = seq![Event::Begin, Event::Handle(0)] + readings(slot, system);
    assert(events =~= seq![Event::Begin] + (seq![Event::Handle(0)] + readings(slot, system)));
    play_from_first(op, fresh, Event::Begin, seq![Event::Handle(0)] + readings(slot, system));
    play_from_first(op, asked, Event::Handle(0), readings(slot, system));
    if slot.code != ZfsErrorCode::EZFS_UNKNOWN {
        assert(readings(slot, system) =~= seq![Event::LibraryError(slot)] + none);
        play_from_first(op, read, Event::LibraryError(slot), none);
    } else {
        let last = seq![Event::SystemError(system)] + none;
        assert(readings(slot, system) =~= seq![Event::LibraryError(slot)] + last);
        play_from_first(op, read, Event::LibraryError(slot), last);
        play_from_first(op, read.at(Stage::SystemError), Event::SystemError(system), none);
    }
    assert(play(op, fresh, events).calls =~= seq![call] + diagnosis(libzfs, slot));
}

/// Opening a pool by name is an operation that opens: its call names the pool as it was
/// given, and the pool that it returns owns the handle and remembers the context.
pub proof fn pool_is_opened(libzfs: LibZfs, name: SafeString)
    ensures
        opens(
            opening_pool(libzfs, name),
            libzfs.handle,
            Call::PoolOpen { libzfs: libzfs.handle, name },
            |handle: usize| ZPool { libzfs: libzfs.handle, handle, owned: true },
        ),
{
}

/// Opening a dataset by name is an operation that opens: its call has the name and the
/// mask as they were given, and the dataset that it returns remembers the context.
pub proof fn dataset_is_opened(libzfs: LibZfs, name: SafeString, types: DatasetTypeMask)
    ensures
        opens(
            opening_dataset(libzfs, name, types),
            libzfs.handle,
            Call::DatasetOpen { libzfs: libzfs.handle, name, types },
            |handle: usize| Dataset { libzfs: libzfs.handle, handle },
        ),
{
}

/// Opening a pool that exists takes one call, with the name as it was given; the handle
/// that comes back is the pool's, and the pool remembers the context.
pub proof fn opening_pool_succeeds(libzfs: LibZfs, name: SafeString, handle: usize)
    requires
        handle != 0,
    ensures
        play(
            opening_pool(libzfs, name),
            RunView::fresh(),
            seq![Event::Begin, Event::Handle(handle)],
        ) == (Trace {
            calls: seq![Call::PoolOpen { libzfs: libzfs.handle, name }],
            yields: Seq::empty(),
            end: End::Finished(
                Ok::<ZPool, Error>(ZPool { libzfs: libzfs.handle, handle, owned: true }),
            ),
        }),
{
    pool_is_opened(libzfs, name);
    opening_succeeds(
        opening_pool(libzfs, name),
        libzfs.handle,
        Call::PoolOpen { libzfs: libzfs.handle, name },
        |handle: usize| ZPool { libzfs: libzfs.handle, handle, owned: true },
        handle,
    );
}

/// Opening a pool that does not exist: the failure is what the error slot holds, the
/// library's code with its description or, under the unknown code, the system's last error.
pub proof fn opening_pool_reports_the_error_slot(
    libzfs: LibZfs,
    name: SafeString,
    slot: ZfsError,
    system: SysError,
)
    ensures
        play(
            opening_pool(libzfs, name),
            RunView::fresh(),
            seq![Event::Begin, Event::Handle(0)] + readings(slot, system),
        ) == (Trace {
            calls: seq![Call::PoolOpen { libzfs: libzfs.handle, name }] + diagnosis(
                libzfs.handle,
                slot,
            ),
            yields: Seq::empty(),
            end: End::Finished(Err::<ZPool, Error>(diagnosed(slot, system))),
        }),
{
    pool_is_opened(libzfs, name);
    opening_reports_the_error_slot(
        opening_pool(libzfs, name),
        libzfs.handle,
        Call::PoolOpen { libzfs: libzfs.handle, name },
        |handle: usize| ZPool { libzfs: libzfs.handle, handle, owned: true },
        slot,
        system,
    );
}

/// Opening a dataset that exists takes one call, with the name and the mask as they were
/// given; the handle that comes back is the dataset's, and the dataset remembers the
/// context.
pub proof fn opening_dataset_succeeds(
    libzfs: LibZfs,
    name: SafeString,
    types: DatasetTypeMask,
    handle: usize,
)
    requires
        handle != 0,
    ensures
        play(
            opening_dataset(libzfs, name, types),
            RunView::fresh(),
            seq![Event::Begin, Event::Handle(handle)],
        ) == (Trace {
            calls: seq![Call::DatasetOpen { libzfs: libzfs.handle, name, types }],
            yields: Seq::empty(),
            end: End::Finished(Ok::<Dataset, Error>(Dataset { libzfs: libzfs.handle, handle })),
        }),
{
    dataset_is_opened(libzfs, name, types);
    opening_succeeds(
        opening_dataset(libzfs, name, types),
        libzfs.handle,
        Call::DatasetOpen { libzfs: libzfs.handle, name, types },
        |handle: usize| Dataset { libzfs: libzfs.handle, handle },
        handle,
    );
}

/// Opening a dataset that does not exist: the failure is what the error slot holds, as
/// for a pool.
pub proof fn opening_dataset_reports_the_error_slot(
    libzfs: LibZfs,
    name: SafeString,
    types: DatasetTypeMask,
    slot: ZfsError,
    system: SysError,
)
    ensures
        play(
            opening_dataset(libzfs, name, types),
            RunView::fresh(),
            seq![Event::Begin, Event::Handle(0)] + readings(slot, system),
        ) == (Trace {
            calls: seq![Call::DatasetOpen { libzfs: libzfs.handle, name, types }] + diagnosis(
                libzfs.handle,
                slot,
            ),
            yields: Seq::empty(),
            end: End::Finished(Err::<Dataset, Error>(diagnosed(slot, system))),
        }),
{
    dataset_is_opened(libzfs, name, types);
    opening_reports_the_error_slot(
        opening_dataset(libzfs, name, types),
        libzfs.handle,
        Call::DatasetOpen { libzfs: libzfs.handle, name, types },
        |handle: usize| Dataset { libzfs: libzfs.handle, handle },
        slot,
        system,
    );
}

} // verus!
