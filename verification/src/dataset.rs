//! Datasets: what they are, and what lies below them.

use vstd::prelude::*;

use crate::bridge::{collect, forward, spec_collect, spec_forward};
use crate::error::Error;
use crate::kinds::DatasetType;
use crate::native::{listing, Answer, Call, Event, Run, RunView, Stage, Step};
use crate::pool::ZPool;
use crate::string::SafeString;

verus! {

/// An open dataset: its native handle, and the handle of the library context that opened
/// it. The context must outlive the dataset.
#[derive(Debug, PartialEq, Eq)]
pub struct Dataset {
    pub libzfs: usize,
    pub handle: usize,
}

impl Dataset {
    /// The handle is not null.
    pub open spec fn wf(&self) -> bool {
        self.handle != 0
    }

    /// The call that enumerates the snapshots of this dataset in the library's own order.
    pub open spec fn snapshots_call(self) -> Call {
        Call::IterSnapshots { dataset: self.handle, simple: false, min_txg: 0, max_txg: 0 }
    }

    /// The call that enumerates the snapshots of this dataset, oldest first.
    pub open spec fn snapshots_ordered_call(self) -> Call {
        Call::IterSnapshotsSorted { dataset: self.handle, min_txg: 0, max_txg: 0 }
    }

    /// Asking the kind of the dataset: one call, whose answer is a number of the native
    /// enumeration and is read as the kind with that number. (The step does not take
    /// another number; here such an answer counts as none.)
    pub open spec fn spec_get_type(self, run: RunView, event: Event) -> Answer<DatasetType> {
        match (run.stage, event) {
            (Stage::Fresh, Event::Begin) => Answer::Call(
                Call::DatasetType { dataset: self.handle },
                run.at(Stage::Asked),
            ),
            (Stage::Asked, Event::DatasetType(raw)) => match DatasetType::of_raw(raw) {
                Some(kind) => Answer::Done(kind),
                None => Answer::Stray(run),
            },
            _ => Answer::Stray(run),
        }
    }

    /// One step of asking the kind of the dataset. A kind that the native library
    /// answers must be a number of its enumeration: any other is a broken promise of the
    /// library, for which there is no result, and is for the caller to stop at.
    pub fn get_type(&self, run: Run, event: Event) -> (step: Step<DatasetType>)
        requires
            event matches Event::DatasetType(raw) ==> DatasetType::of_raw(raw) is Some,
        ensures
            step.plain() == self.spec_get_type(run@, event),
            step matches Step::Done(kind) ==> event matches Event::DatasetType(raw) && kind.raw()
                == raw,
    {
        match (run.stage, event) {
            (Stage::Fresh, Event::Begin) => Step::Call(
                Call::DatasetType { dataset: self.handle },
                run.at(Stage::Asked),
            ),
            (Stage::Asked, Event::DatasetType(raw)) => Step::Done(DatasetType::from(raw)),
            _ => Step::Stray(run),
        }
    }

    /// Asking the name of the dataset: one call.
    pub open spec fn spec_get_name(self, run: RunView, event: Event) -> Answer<SafeString> {
        match (run.stage, event) {
            (Stage::Fresh, Event::Begin) => Answer::Call(
                Call::DatasetName { dataset: self.handle },
                run.at(Stage::Asked),
            ),
            (Stage::Asked, Event::Name(name)) => Answer::Done(name),
            _ => Answer::Stray(run),
        }
    }

    /// One step of asking the name of the dataset.
    pub fn get_name(&self, run: Run, event: Event) -> (step: Step<SafeString>)
        ensures
            step.plain() == self.spec_get_name(run@, event),
    {
        match (run.stage, event) {
            (Stage::Fresh, Event::Begin) => Step::Call(
                Call::DatasetName { dataset: self.handle },
                run.at(Stage::Asked),
            ),
            (Stage::Asked, Event::Name(name)) => Step::Done(name),
            _ => Step::Stray(run),
        }
    }

    /// Asking for the pool that the dataset belongs to: one call, whose answer must not
    /// be the null handle. The handle stays the dataset's: the pool is borrowed, however
    /// often it is asked for, and closing it asks for no call.
    pub open spec fn spec_get_pool(self, run: RunView, event: Event) -> Answer<ZPool> {
        match (run.stage, event) {
            (Stage::Fresh, Event::Begin) => Answer::Call(
                Call::DatasetPool { dataset: self.handle },
                run.at(Stage::Asked),
            ),
            (Stage::Asked, Event::Borrowed(handle)) => if handle != 0 {
                Answer::Done(ZPool { libzfs: self.libzfs, handle, owned: false })
            } else {
                Answer::Stray(run)
            },
            _ => Answer::Stray(run),
        }
    }

    /// One step of asking for the pool that the dataset belongs to.
    pub fn get_pool(&self, run: Run, event: Event) -> (step: Step<ZPool>)
        ensures
            step.plain() == self.spec_get_pool(run@, event),
            step matches Step::Done(pool) ==> pool.wf() && !pool.owned,
    {
        match (run.stage, event) {
            (Stage::Fresh, Event::Begin) => Step::Call(
                Call::DatasetPool { dataset: self.handle },
                run.at(Stage::Asked),
            ),
            (Stage::Asked, Event::Borrowed(handle)) => {
                if handle != 0 {
                    Step::Done(ZPool { libzfs: self.libzfs, handle, owned: false })
                } else {
                    Step::Stray(run)
                }
            },
            _ => Step::Stray(run),
        }
    }

    /// Asking the name of the pool that the dataset belongs to: one call.
    pub open spec fn spec_get_pool_name(self, run: RunView, event: Event) -> Answer<SafeString> {
        match (run.stage, event) {
            (Stage::Fresh, Event::Begin) => Answer::Call(
                Call::DatasetPoolName { dataset: self.handle },
                run.at(Stage::Asked),
            ),
            (Stage::Asked, Event::Name(name)) => Answer::Done(name),
            _ => Answer::Stray(run),
        }
    }

    /// One step of asking the name of the pool that the dataset belongs to.
    pub fn get_pool_name(&self, run: Run, event: Event) -> (step: Step<SafeString>)
        ensures
            step.plain() == self.spec_get_pool_name(run@, event),
    {
        match (run.stage, event) {
            (Stage::Fresh, Event::Begin) => Step::Call(
                Call::DatasetPoolName { dataset: self.handle },
                run.at(Stage::Asked),
            ),
            (Stage::Asked, Event::Name(name)) => Step::Done(name),
            _ => Step::Stray(run),
        }
    }

    /// Listing the snapshots of the dataset, in the library's own order.
    pub open spec fn spec_get_snapshots(self, run: RunView, event: Event) -> Answer<
        Result<Seq<Dataset>, Error>,
    > {
        spec_collect(self.libzfs, self.snapshots_call(), run, event)
    }

    /// One step of listing the snapshots of the dataset.
    pub fn get_snapshots(&self, run: Run, event: Event) -> (step: Step<
        Result<Vec<Dataset>, Error>,
    >)
        ensures
            listing(step) == self.spec_get_snapshots(run@, event),
    {
        let call = Call::IterSnapshots {
            dataset: self.handle,
            simple: false,
            min_txg: 0,
            max_txg: 0,
        };
        collect(self.libzfs, call, run, event)
    }

    /// Listing the snapshots of the dataset, oldest first: the order is the native
    /// library's, and the list keeps it.
    pub open spec fn spec_get_snapshots_ordered(self, run: RunView, event: Event) -> Answer<
        Result<Seq<Dataset>, Error>,
    > {
        spec_collect(self.libzfs, self.snapshots_ordered_call(), run, event)
    }

    /// One step of listing the snapshots of the dataset, oldest first.
    pub fn get_snapshots_ordered(&self, run: Run, event: Event) -> (step: Step<
        Result<Vec<Dataset>, Error>,
    >)
        ensures
            listing(step) == self.spec_get_snapshots_ordered(run@, event),
    {
        let call = Call::IterSnapshotsSorted { dataset: self.handle, min_txg: 0, max_txg: 0 };
        collect(self.libzfs, call, run, event)
    }

    /// Handing each snapshot of the dataset to a callback, in the library's own order.
    pub open spec fn spec_foreach_snapshot(self, run: RunView, event: Event) -> Answer<
        Result<(), Error>,
    > {
        spec_forward(self.libzfs, self.snapshots_call(), run, event)
    }

    /// One step of handing each snapshot of the dataset to a callback. The callback is the
    /// caller's: each [`Step::Yield`] carries the dataset to call it with.
    pub fn foreach_snapshot(&self, run: Run, event: Event) -> (step: Step<Result<(), Error>>)
        ensures
            step.plain() == self.spec_foreach_snapshot(run@, event),
    {
        let call = Call::IterSnapshots {
            dataset: self.handle,
            simple: false,
            min_txg: 0,
            max_txg: 0,
        };
        forward(self.libzfs, call, run, event)
    }

    /// Handing each snapshot of the dataset to a callback, oldest first.
    pub open spec fn spec_foreach_snapshot_ordered(self, run: RunView, event: Event) -> Answer<
        Result<(), Error>,
    > {
        spec_forward(self.libzfs, self.snapshots_ordered_call(), run, event)
    }

    /// One step of handing each snapshot of the dataset to a callback, oldest first.
    pub fn foreach_snapshot_ordered(&self, run: Run, event: Event) -> (step: Step<
        Result<(), Error>,
    >)
        ensures
            step.plain() == self.spec_foreach_snapshot_ordered(run@, event),
    {
        let call = Call::IterSnapshotsSorted { dataset: self.handle, min_txg: 0, max_txg: 0 };
        forward(self.libzfs, call, run, event)
    }

    /// Listing the filesystems directly below the dataset.
    pub open spec fn spec_get_child_filesystems(self, run: RunView, event: Event) -> Answer<
        Result<Seq<Dataset>, Error>,
    > {
        spec_collect(self.libzfs, Call::IterFilesystems { dataset: self.handle }, run, event)
    }

    /// One step of listing the filesystems directly below the dataset.
    pub fn get_child_filesystems(&self, run: Run, event: Event) -> (step: Step<
        Result<Vec<Dataset>, Error>,
    >)
        ensures
            listing(step) == self.spec_get_child_filesystems(run@, event),
    {
        collect(self.libzfs, Call::IterFilesystems { dataset: self.handle }, run, event)
    }

    /// Listing everything that depends on the dataset, at any depth and of any kind.
    pub open spec fn spec_get_all_dependents(self, run: RunView, event: Event) -> Answer<
        Result<Seq<Dataset>, Error>,
    > {
        spec_collect(
            self.libzfs,
            Call::IterDependents { dataset: self.handle, recurse: true },
            run,
            event,
        )
    }

    /// One step of listing everything that depends on the dataset.
    pub fn get_all_dependents(&self, run: Run, event: Event) -> (step: Step<
        Result<Vec<Dataset>, Error>,
    >)
        ensures
            listing(step) == self.spec_get_all_dependents(run@, event),
    {
        let call = Call::IterDependents { dataset: self.handle, recurse: true };
        collect(self.libzfs, call, run, event)
    }

    /// Duplicating the dataset: one call, which makes a second handle of its own to the
    /// same dataset and must not answer with the null handle.
    pub open spec fn spec_duplicate(self, run: RunView, event: Event) -> Answer<Dataset> {
        match (run.stage, event) {
            (Stage::Fresh, Event::Begin) => Answer::Call(
                Call::DatasetDup { dataset: self.handle },
                run.at(Stage::Asked),
            ),
            (Stage::Asked, Event::Handle(handle)) => if handle != 0 {
                Answer::Done(Dataset { libzfs: self.libzfs, handle })
            } else {
                Answer::Stray(run)
            },
            _ => Answer::Stray(run),
        }
    }

    /// One step of duplicating the dataset.
    pub fn duplicate(&self, run: Run, event: Event) -> (step: Step<Dataset>)
        ensures
            step.plain() == self.spec_duplicate(run@, event),
            step matches Step::Done(copy) ==> copy.wf(),
    {
        match (run.stage, event) {
            (Stage::Fresh, Event::Begin) => Step::Call(
                Call::DatasetDup { dataset: self.handle },
                run.at(Stage::Asked),
            ),
            (Stage::Asked, Event::Handle(handle)) => {
                if handle != 0 {
                    Step::Done(Dataset { libzfs: self.libzfs, handle })
                } else {
                    Step::Stray(run)
                }
            },
            _ => Step::Stray(run),
        }
    }

    /// The call that closes the dataset.
    pub open spec fn closing(self) -> Call {
        Call::DatasetClose { dataset: self.handle }
    }

    /// Closes the dataset: gives it up, so that its handle cannot be used or closed again,
    /// and names the one call that closes its handle.
    pub fn close(self) -> (call: Call)
        ensures
            call == self.closing(),
    {
        Call::DatasetClose { dataset: self.handle }
    }
}

} // verus!
