//! The library context: the one connection to the native library, through which pools and
//! datasets are opened and snapshots are created and destroyed in batches.

use vstd::prelude::*;

use crate::bridge::{diagnose, failing, spec_diagnose, Verdict};
use crate::dataset::Dataset;
use crate::error::Error;
use crate::kinds::DatasetTypeMask;
use crate::native::{listing, Answer, Call, Event, Run, RunView, Stage, Step};
use crate::pool::ZPool;
use crate::string::SafeString;

verus! {

/// The initialised native library. Every pool and dataset opened through it keeps its
/// handle, to read the error slot after a failure, and must be closed before it.
#[derive(Debug, PartialEq, Eq)]
pub struct LibZfs {
    pub handle: usize,
}

/// A handle as the result of an operation: `ptr` itself if it is not null; if it is
/// null, the failure, which is read next.
pub open spec fn spec_ptr_or_err(libzfs: usize, ptr: usize, run: RunView) -> Answer<
    Result<usize, Error>,
> {
    if ptr != 0 {
        Answer::Done(Ok(ptr))
    } else {
        Answer::Call(Call::LibraryError { libzfs }, run.at(Stage::LibraryError))
    }
}

/// An operation that opens something, once its call has been made: a handle that is not
/// null is the result; after a null handle the failure is read and is the result.
pub open spec fn spec_found(libzfs: usize, run: RunView, event: Event) -> Answer<
    Result<usize, Error>,
> {
    match run.stage {
        Stage::Asked => match event {
            Event::Handle(ptr) => spec_ptr_or_err(libzfs, ptr, run),
            _ => Answer::Stray(run),
        },
        Stage::LibraryError | Stage::SystemError => match spec_diagnose(run.stage, event) {
            Verdict::Ask(call, stage) => Answer::Call(call, run.at(stage)),
            Verdict::Known(error) => Answer::Done(Err(error)),
            Verdict::Stray => Answer::Stray(run),
        },
        _ => Answer::Stray(run),
    }
}

/// An operation that opens something: its call is made once, and what it returns is
/// judged.
pub open spec fn spec_lookup(libzfs: usize, call: Call, run: RunView, event: Event) -> Answer<
    Result<usize, Error>,
> {
    match run.stage {
        Stage::Fresh => match event {
            Event::Begin => Answer::Call(call, run.at(Stage::Asked)),
            _ => Answer::Stray(run),
        },
        _ => spec_found(libzfs, run, event),
    }
}

/// The batch call for a name set: to create the snapshots it names, or to destroy them
/// at once.
pub open spec fn submission(libzfs: usize, set: usize, destroy: bool) -> Call {
    if destroy {
        Call::SnapshotDestroy { libzfs, set, defer: false }
    } else {
        Call::SnapshotCreate { libzfs, set }
    }
}

/// Adding the names to the set one by one, from the first; once none is left, the set is
/// the result.
pub open spec fn spec_fill(names: Seq<SafeString>, run: RunView) -> Answer<Result<usize, Error>> {
    if run.next < names.len() {
        Answer::Call(Call::NameSetAdd { set: run.set, name: names[run.next as int] }, run)
    } else {
        Answer::Done(Ok(run.set))
    }
}

/// Freeing the name set, after which the operation ends: with the failure, if there was one.
pub open spec fn spec_free(run: RunView, failure: Option<Error>) -> Answer<Result<(), Error>> {
    Answer::Call(
        Call::NameSetFree { set: run.set },
        RunView { stage: Stage::Freeing, failure, ..run },
    )
}

/// Adds the next name to the set, or ends with the set.
fn fill(names: &Vec<SafeString>, run: Run) -> (step: Step<Result<usize, Error>>)
    ensures
        step.plain() == spec_fill(names@, run@),
{
    if run.next < names.len() {
        let name = names[run.next].clone();
        Step::Call(Call::NameSetAdd { set: run.set, name }, run)
    } else {
        Step::Done(Ok(run.set))
    }
}

/// Frees the name set, keeping the failure to end with.
fn free(run: Run, failure: Option<Error>) -> (step: Step<Result<(), Error>>)
    ensures
        step.plain() == spec_free(run@, failure),
{
    let mut run = run;
    let set = run.set;
    run.stage = Stage::Freeing;
    run.failure = failure;
    Step::Call(Call::NameSetFree { set }, run)
}

/// Closing the gathered pools one by one, from the first; once none is left, the failure
/// is the result.
pub open spec fn spec_discard_pools(run: RunView) -> Answer<Result<Seq<ZPool>, Error>> {
    if run.next < run.pools.len() {
        Answer::Call(Call::PoolClose { pool: run.pools[run.next as int].handle }, run)
    } else {
        match run.failure {
            Some(error) => Answer::Done(Err(error)),
            None => Answer::Stray(run),
        }
    }
}

/// Closes the next gathered pool, or ends with the failure.
fn discard_pools(run: Run) -> (step: Step<Result<Vec<ZPool>, Error>>)
    ensures
        listing(step) == spec_discard_pools(run@),
{
    if run.next < run.pools.len() {
        let pool = run.pools[run.next].handle;
        Step::Call(Call::PoolClose { pool }, run)
    } else {
        match run.failure {
            Some(error) => Step::Done(Err(error)),
            None => Step::Stray(run),
        }
    }
}

impl LibZfs {
    /// The handle is not null.
    pub open spec fn wf(&self) -> bool {
        self.handle != 0
    }

    /// Initialising the native library. The call is made once; a handle that is not null
    /// is the context; after a null handle the system's last error is read and is the
    /// failure.
    pub open spec fn spec_new(run: RunView, event: Event) -> Answer<Result<LibZfs, Error>> {
        match (run.stage, event) {
            (Stage::Fresh, Event::Begin) => Answer::Call(Call::Init, run.at(Stage::Asked)),
            (Stage::Asked, Event::Handle(handle)) => if handle != 0 {
                Answer::Done(Ok(LibZfs { handle }))
            } else {
                Answer::Call(Call::SystemError, run.at(Stage::SystemError))
            },
            (Stage::SystemError, Event::SystemError(e)) => Answer::Done(Err(Error::Sys(e))),
            _ => Answer::Stray(run),
        }
    }

    /// One step of initialising the native library.
    pub fn new(run: Run, event: Event) -> (step: Step<Result<LibZfs, Error>>)
        ensures
            step.plain() == Self::spec_new(run@, event),
            step matches Step::Done(Ok(libzfs)) ==> libzfs.wf(),
    {
        match (run.stage, event) {
            (Stage::Fresh, Event::Begin) => Step::Call(Call::Init, run.at(Stage::Asked)),
            (Stage::Asked, Event::Handle(handle)) => {
                if handle != 0 {
                    Step::Done(Ok(LibZfs { handle }))
                } else {
                    Step::Call(Call::SystemError, run.at(Stage::SystemError))
                }
            },
            (Stage::SystemError, Event::SystemError(e)) => Step::Done(Err(Error::Sys(e))),
            _ => Step::Stray(run),
        }
    }

    /// The call that releases the native library.
    pub open spec fn closing(self) -> Call {
        Call::Fini { libzfs: self.handle }
    }

    /// Releases the native library: gives the context up, so that nothing can be opened
    /// through it again, and names the one call that releases its handle.
    pub fn close(self) -> (call: Call)
        ensures
            call == self.closing(),
    {
        Call::Fini { libzfs: self.handle }
    }

    /// Reading why the last native call on this context failed: the library's error slot
    /// first; if it holds a code of the library, that code and its description are the
    /// failure; if it holds the unknown code, the system's last error is read and is the
    /// failure.
    pub open spec fn spec_get_last_error(self, run: RunView, event: Event) -> Answer<Error> {
        match run.stage {
            Stage::Fresh => match event {
                Event::Begin => Answer::Call(
                    Call::LibraryError { libzfs: self.handle },
                    run.at(Stage::LibraryError),
                ),
                _ => Answer::Stray(run),
            },
            Stage::LibraryError | Stage::SystemError => match spec_diagnose(run.stage, event) {
                Verdict::Ask(call, stage) => Answer::Call(call, run.at(stage)),
                Verdict::Known(error) => Answer::Done(error),
                Verdict::Stray => Answer::Stray(run),
            },
            _ => Answer::Stray(run),
        }
    }

    /// One step of reading why the last native call on this context failed.
    pub fn get_last_error(&self, run: Run, event: Event) -> (step: Step<Error>)
        ensures
            step.plain() == self.spec_get_last_error(run@, event),
    {
        match run.stage {
            Stage::Fresh => match event {
                Event::Begin => Step::Call(
                    Call::LibraryError { libzfs: self.handle },
                    run.at(Stage::LibraryError),
                ),
                _ => Step::Stray(run),
            },
            Stage::LibraryError | Stage::SystemError => match diagnose(run.stage, event) {
                Verdict::Ask(call, stage) => Step::Call(call, run.at(stage)),
                Verdict::Known(error) => Step::Done(error),
                Verdict::Stray => Step::Stray(run),
            },
            _ => Step::Stray(run),
        }
    }

    /// Judges the handle that a native call returned: it is the result if it is not null;
    /// if it is null the call has failed, and the failure is read next.
    pub fn ptr_or_err(&self, ptr: usize, run: Run) -> (step: Step<Result<usize, Error>>)
        ensures
            step.plain() == spec_ptr_or_err(self.handle, ptr, run@),
    {
        if ptr != 0 {
            Step::Done(Ok(ptr))
        } else {
            Step::Call(Call::LibraryError { libzfs: self.handle }, run.at(Stage::LibraryError))
        }
    }

    /// One step of an operation that opens something, after its call was made.
    fn found(&self, run: Run, event: Event) -> (step: Step<Result<usize, Error>>)
        ensures
            step.plain() == spec_found(self.handle, run@, event),
    {
        match run.stage {
            Stage::Asked => match event {
                Event::Handle(ptr) => self.ptr_or_err(ptr, run),
                _ => Step::Stray(run),
            },
            Stage::LibraryError | Stage::SystemError => match diagnose(run.stage, event) {
                Verdict::Ask(call, stage) => Step::Call(call, run.at(stage)),
                Verdict::Known(error) => Step::Done(Err(error)),
                Verdict::Stray => Step::Stray(run),
            },
            _ => Step::Stray(run),
        }
    }

    /// Opening a pool by its name.
    pub open spec fn spec_pool_by_name(self, name: SafeString, run: RunView, event: Event) -> Answer<
        Result<ZPool, Error>,
    > {
        spec_lookup(self.handle, Call::PoolOpen { libzfs: self.handle, name }, run, event).map(
            |found: Result<usize, Error>|
                match found {
                    Ok(handle) => Ok(ZPool { libzfs: self.handle, handle, owned: true }),
                    Err(error) => Err(error),
                },
        )
    }

    /// One step of opening a pool by its name.
    pub fn pool_by_name(&self, name: &SafeString, run: Run, event: Event) -> (step: Step<
        Result<ZPool, Error>,
    >)
        ensures
            step.plain() == self.spec_pool_by_name(*name, run@, event),
            step matches Step::Done(Ok(pool)) ==> pool.wf() && pool.owned,
    {
        if run.stage == Stage::Fresh {
            return match event {
                Event::Begin => Step::Call(
                    Call::PoolOpen { libzfs: self.handle, name: name.clone() },
                    run.at(Stage::Asked),
                ),
                _ => Step::Stray(run),
            };
        }
        match self.found(run, event) {
            Step::Call(call, run) => Step::Call(call, run),
            Step::Await(run) => Step::Await(run),
            Step::Yield(dataset, run) => Step::Yield(dataset, run),
            Step::Done(Ok(handle)) => Step::Done(
                Ok(ZPool { libzfs: self.handle, handle, owned: true }),
            ),
            Step::Done(Err(error)) => Step::Done(Err(error)),
            Step::Stray(run) => Step::Stray(run),
        }
    }

    /// Opening a dataset by its name, if its kind is in the mask.
    pub open spec fn spec_dataset_by_name(
        self,
        name: SafeString,
        types: DatasetTypeMask,
        run: RunView,
        event: Event,
    ) -> Answer<Result<Dataset, Error>> {
        spec_lookup(
            self.handle,
            Call::DatasetOpen { libzfs: self.handle, name, types },
            run,
            event,
        ).map(
            |found: Result<usize, Error>|
                match found {
                    Ok(handle) => Ok(Dataset { libzfs: self.handle, handle }),
                    Err(error) => Err(error),
                },
        )
    }

    /// One step of opening a dataset by its name.
    pub fn dataset_by_name(
        &self,
        name: &SafeString,
        types: DatasetTypeMask,
        run: Run,
        event: Event,
    ) -> (step: Step<Result<Dataset, Error>>)
        ensures
            step.plain() == self.spec_dataset_by_name(*name, types, run@, event),
            step matches Step::Done(Ok(dataset)) ==> dataset.wf(),
    {
        if run.stage == Stage::Fresh {
            return match event {
                Event::Begin => Step::Call(
                    Call::DatasetOpen { libzfs: self.handle, name: name.clone(), types },
                    run.at(Stage::Asked),
                ),
                _ => Step::Stray(run),
            };
        }
        match self.found(run, event) {
            Step::Call(call, run) => Step::Call(call, run),
            Step::Await(run) => Step::Await(run),
            Step::Yield(dataset, run) => Step::Yield(dataset, run),
            Step::Done(Ok(handle)) => Step::Done(Ok(Dataset { libzfs: self.handle, handle })),
            Step::Done(Err(error)) => Step::Done(Err(error)),
            Step::Stray(run) => Step::Stray(run),
        }
    }

    /// Building the name set for a batch call: the set is allocated; if that fails, the
    /// failure is read and is the result; else the names are added one by one, in their
    /// order, and the set is the result.
    pub open spec fn spec_build_nvlist(
        self,
        names: Seq<SafeString>,
        run: RunView,
        event: Event,
    ) -> Answer<Result<usize, Error>> {
        match run.stage {
            Stage::Fresh => match event {
                Event::Begin => Answer::Call(Call::NameSetAlloc, run.at(Stage::Allocating)),
                _ => Answer::Stray(run),
            },
            Stage::Allocating => match event {
                Event::Allocated { status, set } => if status != 0 {
                    Answer::Call(
                        Call::LibraryError { libzfs: self.handle },
                        RunView { stage: Stage::LibraryError, set: 0, ..run },
                    )
                } else if set != 0 {
                    spec_fill(names, RunView { stage: Stage::Adding, set, next: 0, ..run })
                } else {
                    Answer::Stray(run)
                },
                _ => Answer::Stray(run),
            },
            Stage::Adding => match event {
                Event::Returned => if run.next < names.len() {
                    spec_fill(names, RunView { next: run.next + 1, ..run })
                } else {
                    Answer::Stray(run)
                },
                _ => Answer::Stray(run),
            },
            Stage::LibraryError | Stage::SystemError => if run.set == 0 {
                match spec_diagnose(run.stage, event) {
                    Verdict::Ask(call, stage) => Answer::Call(call, run.at(stage)),
                    Verdict::Known(error) => Answer::Done(Err(error)),
                    Verdict::Stray => Answer::Stray(run),
                }
            } else {
                Answer::Stray(run)
            },
            _ => Answer::Stray(run),
        }
    }

    /// One step of building the name set for a batch call.
    pub fn build_nvlist(&self, names: &Vec<SafeString>, run: Run, event: Event) -> (step: Step<
        Result<usize, Error>,
    >)
        ensures
            step.plain() == self.spec_build_nvlist(names@, run@, event),
    {
        match run.stage {
            Stage::Fresh => match event {
                Event::Begin => Step::Call(Call::NameSetAlloc, run.at(Stage::Allocating)),
                _ => Step::Stray(run),
            },
            Stage::Allocating => match event {
                Event::Allocated { status, set } => {
                    if status != 0 {
                        let mut run = run;
                        run.stage = Stage::LibraryError;
                        run.set = 0;
                        Step::Call(Call::LibraryError { libzfs: self.handle }, run)
                    } else if set != 0 {
                        let mut run = run;
                        run.stage = Stage::Adding;
                        run.set = set;
                        run.next = 0;
                        fill(names, run)
                    } else {
                        Step::Stray(run)
                    }
                },
                _ => Step::Stray(run),
            },
            Stage::Adding => match event {
                Event::Returned => {
                    if run.next < names.len() {
                        let mut run = run;
                        run.next = run.next + 1;
                        fill(names, run)
                    } else {
                        Step::Stray(run)
                    }
                },
                _ => Step::Stray(run),
            },
            Stage::LibraryError | Stage::SystemError => {
                if run.set == 0 {
                    match diagnose(run.stage, event) {
                        Verdict::Ask(call, stage) => Step::Call(call, run.at(stage)),
                        Verdict::Known(error) => Step::Done(Err(error)),
                        Verdict::Stray => Step::Stray(run),
                    }
                } else {
                    Step::Stray(run)
                }
            },
            _ => Step::Stray(run),
        }
    }

    /// A batch call on snapshots by name. The name set is built. If no name was given,
    /// the set is freed and the operation succeeds without the batch call, which does not
    /// survive an empty set. Else the batch call is made once with the set; after a status
    /// other than zero the failure is read. In either case the set is freed before the
    /// operation ends, with the failure if there was one.
    pub open spec fn spec_batch(
        self,
        names: Seq<SafeString>,
        destroy: bool,
        run: RunView,
        event: Event,
    ) -> Answer<Result<(), Error>> {
        match run.stage {
            Stage::Fresh | Stage::Allocating | Stage::Adding => match self.spec_build_nvlist(
                names,
                run,
                event,
            ) {
                Answer::Done(Ok(set)) => if names.len() == 0 {
                    spec_free(RunView { set, ..RunView::fresh() }, None)
                } else {
                    Answer::Call(
                        submission(self.handle, set, destroy),
                        RunView { stage: Stage::Submitting, set, ..RunView::fresh() },
                    )
                },
                Answer::Done(Err(error)) => Answer::Done(Err(error)),
                Answer::Call(call, next) => Answer::Call(call, next),
                Answer::Await(next) => Answer::Await(next),
                Answer::Yield(dataset, next) => Answer::Yield(dataset, next),
                Answer::Stray(next) => Answer::Stray(next),
            },
            Stage::Submitting => match event {
                Event::Status(status) => if status == 0 {
                    spec_free(run, None)
                } else {
                    Answer::Call(
                        Call::LibraryError { libzfs: self.handle },
                        run.at(Stage::LibraryError),
                    )
                },
                _ => Answer::Stray(run),
            },
            Stage::LibraryError | Stage::SystemError => if run.set == 0 {
                self.spec_build_nvlist(names, run, event).map(
                    |built: Result<usize, Error>|
                        match built {
                            Ok(_) => Ok(()),
                            Err(error) => Err(error),
                        },
                )
            } else {
                match spec_diagnose(run.stage, event) {
                    Verdict::Ask(call, stage) => Answer::Call(call, run.at(stage)),
                    Verdict::Known(error) => spec_free(run, Some(error)),
                    Verdict::Stray => Answer::Stray(run),
                }
            },
            Stage::Freeing => match event {
                Event::Returned => Answer::Done(
                    match run.failure {
                        Some(error) => Err(error),
                        None => Ok(()),
                    },
                ),
                _ => Answer::Stray(run),
            },
            _ => Answer::Stray(run),
        }
    }

    /// One step of a batch call on snapshots by name.
    fn batch(&self, names: &Vec<SafeString>, destroy: bool, run: Run, event: Event) -> (step:
        Step<Result<(), Error>>)
        ensures
            step.plain() == self.spec_batch(names@, destroy, run@, event),
    {
        match run.stage {
            Stage::Fresh | Stage::Allocating | Stage::Adding => {
                match self.build_nvlist(names, run, event) {
                    Step::Done(Ok(set)) => {
                        // The run was used up by the last step of the building; what the
                        // operation holds from here on is the set alone.
                        let mut held = Run::new();
                        held.set = set;
                        if names.len() == 0 {
                            free(held, None)
                        } else {
                            let call = if destroy {
                                Call::SnapshotDestroy { libzfs: self.handle, set, defer: false }
                            } else {
                                Call::SnapshotCreate { libzfs: self.handle, set }
                            };
                            held.stage = Stage::Submitting;
                            Step::Call(call, held)
                        }
                    },
                    Step::Done(Err(error)) => Step::Done(Err(error)),
                    Step::Call(call, run) => Step::Call(call, run),
                    Step::Await(run) => Step::Await(run),
                    Step::Yield(dataset, run) => Step::Yield(dataset, run),
                    Step::Stray(run) => Step::Stray(run),
                }
            },
            Stage::Submitting => match event {
                Event::Status(status) => {
                    if status == 0 {
                        free(run, None)
                    } else {
                        Step::Call(
                            Call::LibraryError { libzfs: self.handle },
                            run.at(Stage::LibraryError),
                        )
                    }
                },
                _ => Step::Stray(run),
            },
            Stage::LibraryError | Stage::SystemError => {
                if run.set == 0 {
                    match self.build_nvlist(names, run, event) {
                        Step::Done(Ok(_)) => Step::Done(Ok(())),
                        Step::Done(Err(error)) => Step::Done(Err(error)),
                        Step::Call(call, run) => Step::Call(call, run),
                        Step::Await(run) => Step::Await(run),
                        Step::Yield(dataset, run) => Step::Yield(dataset, run),
                        Step::Stray(run) => Step::Stray(run),
                    }
                } else {
                    match diagnose(run.stage, event) {
                        Verdict::Ask(call, stage) => Step::Call(call, run.at(stage)),
                        Verdict::Known(error) => free(run, Some(error)),
                        Verdict::Stray => Step::Stray(run),
                    }
                }
            },
            Stage::Freeing => match event {
                Event::Returned => Step::Done(
                    match run.failure {
                        Some(error) => Err(error),
                        None => Ok(()),
                    },
                ),
                _ => Step::Stray(run),
            },
            _ => Step::Stray(run),
        }
    }

    /// Creating the named snapshots, all or none: a batch call that creates.
    pub open spec fn spec_create_snapshots(
        self,
        names: Seq<SafeString>,
        run: RunView,
        event: Event,
    ) -> Answer<Result<(), Error>> {
        self.spec_batch(names, false, run, event)
    }

    /// One step of creating the named snapshots.
    pub fn create_snapshots(&self, names: &Vec<SafeString>, run: Run, event: Event) -> (step:
        Step<Result<(), Error>>)
        ensures
            step.plain() == self.spec_create_snapshots(names@, run@, event),
    {
        self.batch(names, false, run, event)
    }

    /// Destroying the named snapshots at once: a batch call that destroys, never deferred.
    pub open spec fn spec_destroy_snapshots(
        self,
        names: Seq<SafeString>,
        run: RunView,
        event: Event,
    ) -> Answer<Result<(), Error>> {
        self.spec_batch(names, true, run, event)
    }

    /// One step of destroying the named snapshots.
    pub fn destroy_snapshots(&self, names: &Vec<SafeString>, run: Run, event: Event) -> (step:
        Step<Result<(), Error>>)
        ensures
            step.plain() == self.spec_destroy_snapshots(names@, run@, event),
    {
        self.batch(names, true, run, event)
    }

    /// Listing all pools. The enumerating call is made once; every handle that it pushes
    /// is wrapped, with this context, and appended to what was gathered; a zero status
    /// ends the operation with the list, in the order in which the handles came. After
    /// any other status the failure is read, every gathered pool is closed, and the
    /// failure is the result.
    pub open spec fn spec_get_zpools(self, run: RunView, event: Event) -> Answer<
        Result<Seq<ZPool>, Error>,
    > {
        match run.stage {
            Stage::Fresh => match event {
                Event::Begin => Answer::Call(
                    Call::PoolIter { libzfs: self.handle },
                    run.at(Stage::Asked),
                ),
                _ => Answer::Stray(run),
            },
            Stage::Asked => match event {
                Event::Item(handle) => if handle != 0 {
                    Answer::Await(
                        RunView {
                            pools: run.pools.push(
                                ZPool { libzfs: self.handle, handle, owned: true },
                            ),
                            ..run
                        },
                    )
                } else {
                    Answer::Stray(run)
                },
                Event::Status(status) => if status == 0 {
                    Answer::Done(Ok(run.pools))
                } else {
                    Answer::Call(
                        Call::LibraryError { libzfs: self.handle },
                        run.at(Stage::LibraryError),
                    )
                },
                _ => Answer::Stray(run),
            },
            Stage::LibraryError | Stage::SystemError => match spec_diagnose(run.stage, event) {
                Verdict::Ask(call, stage) => Answer::Call(call, run.at(stage)),
                Verdict::Known(error) => spec_discard_pools(failing(run, error)),
                Verdict::Stray => Answer::Stray(run),
            },
            Stage::Discarding => match event {
                Event::Returned => if run.next < run.pools.len() && run.failure is Some {
                    spec_discard_pools(RunView { next: run.next + 1, ..run })
                } else {
                    Answer::Stray(run)
                },
                _ => Answer::Stray(run),
            },
            _ => Answer::Stray(run),
        }
    }

    /// One step of listing all pools.
    pub fn get_zpools(&self, run: Run, event: Event) -> (step: Step<Result<Vec<ZPool>, Error>>)
        ensures
            listing(step) == self.spec_get_zpools(run@, event),
    {
        match run.stage {
            Stage::Fresh => match event {
                Event::Begin => Step::Call(
                    Call::PoolIter { libzfs: self.handle },
                    run.at(Stage::Asked),
                ),
                _ => Step::Stray(run),
            },
            Stage::Asked => match event {
                Event::Item(handle) => {
                    if handle != 0 {
                        let mut run = run;
                        run.pools.push(ZPool { libzfs: self.handle, handle, owned: true });
                        Step::Await(run)
                    } else {
                        Step::Stray(run)
                    }
                },
                Event::Status(status) => {
                    if status == 0 {
                        Step::Done(Ok(run.pools))
                    } else {
                        Step::Call(
                            Call::LibraryError { libzfs: self.handle },
                            run.at(Stage::LibraryError),
                        )
                    }
                },
                _ => Step::Stray(run),
            },
            Stage::LibraryError | Stage::SystemError => match diagnose(run.stage, event) {
                Verdict::Ask(call, stage) => Step::Call(call, run.at(stage)),
                Verdict::Known(error) => {
                    let mut run = run;
                    run.stage = Stage::Discarding;
                    run.next = 0;
                    run.failure = Some(error);
                    discard_pools(run)
                },
                Verdict::Stray => Step::Stray(run),
            },
            Stage::Discarding => match event {
                Event::Returned => {
                    if run.next < run.pools.len() && run.failure.is_some() {
                        let mut run = run;
                        run.next = run.next + 1;
                        discard_pools(run)
                    } else {
                        Step::Stray(run)
                    }
                },
                _ => Step::Stray(run),
            },
            _ => Step::Stray(run),
        }
    }
}

} // verus!
