//! Pools: their name, their state, and the datasets they hold.

use vstd::prelude::*;

use crate::bridge::{gather, spec_gather};
use crate::dataset::Dataset;
use crate::error::Error;
use crate::kinds::{DatasetType, DatasetTypeMask, ZPoolState};
use crate::native::{listing, Answer, Call, Event, Run, RunView, Stage, Step};
use crate::string::SafeString;

verus! {

/// An open pool: its native handle, and the handle of the library context that opened it.
/// The context must outlive the pool.
///
/// A pool that was opened by name or listed owns its handle and closes it. The pool of
/// a dataset is borrowed: its handle is the dataset's, lives as long as the dataset, and
/// is not closed with the pool.
#[derive(Debug, PartialEq, Eq)]
pub struct ZPool {
    pub libzfs: usize,
    pub handle: usize,
    /// Whether the handle is this pool's to close.
    pub owned: bool,
}

/// Asking the kind of the gathered datasets one by one, from the one at `next`; once none
/// is left, those that were kept are the result.
pub open spec fn spec_sift(run: RunView) -> Answer<Result<Seq<Dataset>, Error>> {
    if run.next < run.datasets.len() {
        Answer::Call(
            Call::DatasetType { dataset: run.datasets[run.next as int].handle },
            run.at(Stage::Sifting),
        )
    } else {
        Answer::Done(Ok(run.datasets))
    }
}

/// Asks the kind of the next gathered dataset, or ends with those that were kept.
fn sift(run: Run) -> (step: Step<Result<Vec<Dataset>, Error>>)
    ensures
        listing(step) == spec_sift(run@),
{
    if run.next < run.datasets.len() {
        let dataset = run.datasets[run.next].handle;
        Step::Call(Call::DatasetType { dataset }, run.at(Stage::Sifting))
    } else {
        Step::Done(Ok(run.datasets))
    }
}

impl ZPool {
    /// The handle is not null.
    pub open spec fn wf(&self) -> bool {
        self.handle != 0
    }

    /// Asking the state of the pool: one call, whose answer is a number of the native
    /// enumeration and is read as the state with that number. (The step does not take
    /// another number; here such an answer counts as none.)
    pub open spec fn spec_get_state(self, run: RunView, event: Event) -> Answer<ZPoolState> {
        match (run.stage, event) {
            (Stage::Fresh, Event::Begin) => Answer::Call(
                Call::PoolState { pool: self.handle },
                run.at(Stage::Asked),
            ),
            (Stage::Asked, Event::PoolState(raw)) => match ZPoolState::of_raw(raw) {
                Some(state) => Answer::Done(state),
                None => Answer::Stray(run),
            },
            _ => Answer::Stray(run),
        }
    }

    /// One step of asking the state of the pool. A state that the native library answers
    /// must be a number of its enumeration: any other is a broken promise of the library,
    /// for which there is no result, and is for the caller to stop at.
    pub fn get_state(&self, run: Run, event: Event) -> (step: Step<ZPoolState>)
        requires
            event matches Event::PoolState(raw) ==> ZPoolState::of_raw(raw) is Some,
        ensures
            step.plain() == self.spec_get_state(run@, event),
            step matches Step::Done(state) ==> event matches Event::PoolState(raw) && state.raw()
                == raw,
    {
        match (run.stage, event) {
            (Stage::Fresh, Event::Begin) => Step::Call(
                Call::PoolState { pool: self.handle },
                run.at(Stage::Asked),
            ),
            (Stage::Asked, Event::PoolState(raw)) => Step::Done(ZPoolState::from(raw)),
            _ => Step::Stray(run),
        }
    }

    /// Asking the name of the pool: one call.
    pub open spec fn spec_get_name(self, run: RunView, event: Event) -> Answer<SafeString> {
        match (run.stage, event) {
            (Stage::Fresh, Event::Begin) => Answer::Call(
                Call::PoolName { pool: self.handle },
                run.at(Stage::Asked),
            ),
            (Stage::Asked, Event::Name(name)) => Answer::Done(name),
            _ => Answer::Stray(run),
        }
    }

    /// One step of asking the name of the pool.
    pub fn get_name(&self, run: Run, event: Event) -> (step: Step<SafeString>)
        ensures
            step.plain() == self.spec_get_name(run@, event),
    {
        match (run.stage, event) {
            (Stage::Fresh, Event::Begin) => Step::Call(
                Call::PoolName { pool: self.handle },
                run.at(Stage::Asked),
            ),
            (Stage::Asked, Event::Name(name)) => Step::Done(name),
            _ => Step::Stray(run),
        }
    }

    /// The call that closes the pool, if its handle is its own; none for a borrowed pool.
    pub open spec fn closing(self) -> Option<Call> {
        if self.owned {
            Some(Call::PoolClose { pool: self.handle })
        } else {
            None
        }
    }

    /// Closes the pool: gives it up, so that it cannot be used or closed again. For a pool
    /// that owns its handle, names the one call that closes the handle; for a borrowed
    /// pool there is no call to make.
    pub fn close(self) -> (call: Option<Call>)
        ensures
            call == self.closing(),
    {
        if self.owned {
            Some(Call::PoolClose { pool: self.handle })
        } else {
            None
        }
    }

    /// Listing the filesystems and volumes of the pool. The pool's name is asked and its
    /// root filesystem opened by that name; after a null handle the failure is read and
    /// is the result. Everything that depends on the root, at any depth, is enumerated and
    /// gathered behind the root. After a status other than zero the failure is read, all
    /// that was gathered is closed, the root too, and the failure is the result. After a
    /// zero status the kind of each gathered dataset is asked, in order: a snapshot or a
    /// bookmark is closed and leaves the list, anything else stays; the datasets that
    /// stayed, in the order in which they came, are the result.
    pub open spec fn spec_get_datasets(self, run: RunView, event: Event) -> Answer<
        Result<Seq<Dataset>, Error>,
    > {
        match run.stage {
            Stage::Fresh => match event {
                Event::Begin => Answer::Call(
                    Call::PoolName { pool: self.handle },
                    run.at(Stage::Naming),
                ),
                _ => Answer::Stray(run),
            },
            Stage::Naming => match event {
                Event::Name(name) => Answer::Call(
                    Call::DatasetOpen {
                        libzfs: self.libzfs,
                        name,
                        types: DatasetTypeMask(DatasetType::Filesystem.raw()),
                    },
                    run.at(Stage::Opening),
                ),
                _ => Answer::Stray(run),
            },
            Stage::Opening => match event {
                Event::Handle(root) => if root != 0 {
                    Answer::Call(
                        Call::IterDependents { dataset: root, recurse: true },
                        RunView {
                            stage: Stage::Asked,
                            datasets: run.datasets.push(
                                Dataset { libzfs: self.libzfs, handle: root },
                            ),
                            ..run
                        },
                    )
                } else {
                    Answer::Call(
                        Call::LibraryError { libzfs: self.libzfs },
                        run.at(Stage::LibraryError),
                    )
                },
                _ => Answer::Stray(run),
            },
            Stage::Asked => match event {
                Event::Status(status) => if status == 0 {
                    spec_sift(RunView { next: 0, ..run })
                } else {
                    spec_gather(self.libzfs, run, event)
                },
                _ => spec_gather(self.libzfs, run, event),
            },
            Stage::Sifting => match event {
                Event::DatasetType(raw) => if run.next < run.datasets.len() {
                    match DatasetType::of_raw(raw) {
                        Some(kind) => if kind.is_derived() {
                            Answer::Call(
                                Call::DatasetClose {
                                    dataset: run.datasets[run.next as int].handle,
                                },
                                run.at(Stage::Dropping),
                            )
                        } else {
                            spec_sift(RunView { next: run.next + 1, ..run })
                        },
                        None => Answer::Stray(run),
                    }
                } else {
                    Answer::Stray(run)
                },
                _ => Answer::Stray(run),
            },
            Stage::Dropping => match event {
                Event::Returned => if run.next < run.datasets.len() {
                    spec_sift(RunView { datasets: run.datasets.remove(run.next as int), ..run })
                } else {
                    Answer::Stray(run)
                },
                _ => Answer::Stray(run),
            },
            _ => spec_gather(self.libzfs, run, event),
        }
    }

    /// One step of listing the filesystems and volumes of the pool. A kind that the
    /// native library answers must be a number of its enumeration: any other is a broken
    /// promise of the library, for which there is no result, and is for the caller to
    /// stop at.
    pub fn get_datasets(&self, run: Run, event: Event) -> (step: Step<
        Result<Vec<Dataset>, Error>,
    >)
        requires
            event matches Event::DatasetType(raw) ==> DatasetType::of_raw(raw) is Some,
        ensures
            listing(step) == self.spec_get_datasets(run@, event),
    {
        match run.stage {
            Stage::Fresh => match event {
                Event::Begin => Step::Call(
                    Call::PoolName { pool: self.handle },
                    run.at(Stage::Naming),
                ),
                _ => Step::Stray(run),
            },
            Stage::Naming => match event {
                Event::Name(name) => Step::Call(
                    Call::DatasetOpen {
                        libzfs: self.libzfs,
                        name,
                        types: DatasetTypeMask::from(DatasetType::Filesystem),
                    },
                    run.at(Stage::Opening),
                ),
                _ => Step::Stray(run),
            },
            Stage::Opening => match event {
                Event::Handle(root) => {
                    if root != 0 {
                        let mut run = run;
                        run.stage = Stage::Asked;
                        run.datasets.push(Dataset { libzfs: self.libzfs, handle: root });
                        Step::Call(Call::IterDependents { dataset: root, recurse: true }, run)
                    } else {
                        Step::Call(
                            Call::LibraryError { libzfs: self.libzfs },
                            run.at(Stage::LibraryError),
                        )
                    }
                },
                _ => Step::Stray(run),
            },
            Stage::Asked => match event {
                Event::Status(status) => {
                    if status == 0 {
                        let mut run = run;
                        run.next = 0;
                        sift(run)
                    } else {
                        gather(self.libzfs, run, Event::Status(status))
                    }
                },
                event => gather(self.libzfs, run, event),
            },
            Stage::Sifting => match event {
                Event::DatasetType(raw) => {
                    if run.next < run.datasets.len() {
                        let kind = DatasetType::from(raw);
                        if kind == DatasetType::Bookmark || kind == DatasetType::Snapshot {
                            let dataset = run.datasets[run.next].handle;
                            Step::Call(Call::DatasetClose { dataset }, run.at(Stage::Dropping))
                        } else {
                            let mut run = run;
                            run.next = run.next + 1;
                            sift(run)
                        }
                    } else {
                        Step::Stray(run)
                    }
                },
                _ => Step::Stray(run),
            },
            Stage::Dropping => match event {
                Event::Returned => {
                    if run.next < run.datasets.len() {
                        let mut run = run;
                        let _closed = run.datasets.remove(run.next);
                        sift(run)
                    } else {
                        Step::Stray(run)
                    }
                },
                _ => Step::Stray(run),
            },
            _ => gather(self.libzfs, run, event),
        }
    }
}

} // verus!
