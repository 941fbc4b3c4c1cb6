//! The native library as the core sees it: calls it asks for, events it is told of, and
//! the state of an operation between the two.

use vstd::prelude::*;

use crate::dataset::Dataset;
use crate::error::{Error, SysError, ZfsError};
use crate::kinds::DatasetTypeMask;
use crate::pool::ZPool;
use crate::string::SafeString;

verus! {

/// A native call for the embedding program to make. Handles are native addresses as
/// numbers; zero is the null handle.
#[derive(Debug, PartialEq, Eq)]
pub enum Call {
    /// Initialise the library. Answered by [`Event::Handle`].
    Init,
    /// Release the library. Answered by [`Event::Returned`].
    Fini { libzfs: usize },
    /// Read the code and the description in the library's error slot. Answered by
    /// [`Event::LibraryError`].
    LibraryError { libzfs: usize },
    /// Read the last error of the system. Answered by [`Event::SystemError`].
    SystemError,
    /// Open a pool by name. Answered by [`Event::Handle`].
    PoolOpen { libzfs: usize, name: SafeString },
    /// Close a pool. Answered by [`Event::Returned`].
    PoolClose { pool: usize },
    /// Ask a pool's name. Answered by [`Event::Name`].
    PoolName { pool: usize },
    /// Ask a pool's state. Answered by [`Event::PoolState`].
    PoolState { pool: usize },
    /// Enumerate all pools. Answered by one [`Event::Item`] for each pool, then by
    /// [`Event::Status`].
    PoolIter { libzfs: usize },
    /// Open a dataset by name, if its kind is in the mask. Answered by [`Event::Handle`].
    DatasetOpen { libzfs: usize, name: SafeString, types: DatasetTypeMask },
    /// Close a dataset. Answered by [`Event::Returned`].
    DatasetClose { dataset: usize },
    /// Make a second, independent handle to a dataset. Answered by [`Event::Handle`].
    DatasetDup { dataset: usize },
    /// Ask a dataset's kind. Answered by [`Event::DatasetType`].
    DatasetType { dataset: usize },
    /// Ask a dataset's name. Answered by [`Event::Name`].
    DatasetName { dataset: usize },
    /// Ask for the pool of a dataset. Answered by [`Event::Borrowed`]: the handle stays
    /// the dataset's.
    DatasetPool { dataset: usize },
    /// Ask the name of the pool of a dataset. Answered by [`Event::Name`].
    DatasetPoolName { dataset: usize },
    /// Enumerate the filesystems directly below a dataset. Answered by items, then a status.
    IterFilesystems { dataset: usize },
    /// Enumerate the snapshots of a dataset in the library's own order, between two
    /// transaction groups (zero: no bound). Answered by items, then a status.
    IterSnapshots { dataset: usize, simple: bool, min_txg: u64, max_txg: u64 },
    /// Enumerate the snapshots of a dataset, oldest first, between two transaction groups
    /// (zero: no bound). Answered by items, then a status.
    IterSnapshotsSorted { dataset: usize, min_txg: u64, max_txg: u64 },
    /// Enumerate what depends on a dataset, and with `recurse` what depends on that, and
    /// so on. Answered by items, then a status.
    IterDependents { dataset: usize, recurse: bool },
    /// Allocate an empty name set that keeps each name once. Answered by
    /// [`Event::Allocated`].
    NameSetAlloc,
    /// Add a name to a name set. Answered by [`Event::Returned`].
    NameSetAdd { set: usize, name: SafeString },
    /// Free a name set. Answered by [`Event::Returned`].
    NameSetFree { set: usize },
    /// Create the snapshots named in a set, all or none. Answered by [`Event::Status`].
    SnapshotCreate { libzfs: usize, set: usize },
    /// Destroy the snapshots named in a set, at once or, with `defer`, when they are no
    /// longer in use. Answered by [`Event::Status`].
    SnapshotDestroy { libzfs: usize, set: usize, defer: bool },
}

/// What the embedding program tells the core: the start of an operation, or what the
/// native library answered.
#[derive(Debug, PartialEq, Eq)]
pub enum Event {
    /// Nothing was asked yet: the operation starts.
    Begin,
    /// The handle that a call returned, which the binding now owns; zero if the call
    /// failed.
    Handle(usize),
    /// The status that a call returned; zero if it succeeded.
    Status(i32),
    /// One handle of an enumeration in progress, which the core now owns.
    Item(usize),
    /// A handle that a call returned and that stays the native library's own: it is
    /// valid as long as what it was asked of, and is never to be closed.
    Borrowed(usize),
    /// The name that a call returned.
    Name(SafeString),
    /// The native number of the pool state that a call returned.
    PoolState(u32),
    /// The native number of the dataset kind that a call returned.
    DatasetType(u32),
    /// What the library's error slot held.
    LibraryError(ZfsError),
    /// What the last error of the system was.
    SystemError(SysError),
    /// The status of an allocation and, if it is zero, the handle of the new name set.
    Allocated { status: i32, set: usize },
    /// A call that returns nothing has returned.
    Returned,
}

/// Where an operation stands.
#[derive(Debug, Copy, Clone, PartialEq, Eq, Structural)]
pub enum Stage {
    /// Nothing was asked yet.
    Fresh,
    /// The call that the operation is about was asked.
    Asked,
    /// A pool's name was asked, to open its root filesystem.
    Naming,
    /// The root filesystem of a pool is being opened.
    Opening,
    /// The kind of a gathered dataset was asked.
    Sifting,
    /// A gathered dataset of an unwanted kind is being closed.
    Dropping,
    /// A name set was asked for.
    Allocating,
    /// A name is being added to the name set.
    Adding,
    /// The name set was handed to the batch call.
    Submitting,
    /// The library's error slot is being read.
    LibraryError,
    /// The last error of the system is being read.
    SystemError,
    /// After a failure, what was gathered is being closed.
    Discarding,
    /// The name set is being freed.
    Freeing,
}

/// The state of one operation between two steps: where it stands and what it holds.
#[derive(Debug, PartialEq, Eq)]
pub struct Run {
    /// Where the operation stands.
    pub stage: Stage,
    /// The datasets gathered so far, in the order in which they came.
    pub datasets: Vec<Dataset>,
    /// The pools gathered so far, in the order in which they came.
    pub pools: Vec<ZPool>,
    /// How many of the gathered handles, or of the names, have been dealt with.
    pub next: usize,
    /// The name set that the operation holds; zero if it holds none.
    pub set: usize,
    /// The failure to report once what the operation holds has been released.
    pub failure: Option<Error>,
}

/// A [`Run`] with its sequences as mathematical sequences.
pub ghost struct RunView {
    pub stage: Stage,
    pub datasets: Seq<Dataset>,
    pub pools: Seq<ZPool>,
    pub next: nat,
    pub set: usize,
    pub failure: Option<Error>,
}

impl RunView {
    /// The state of an operation that has not started.
    pub open spec fn fresh() -> RunView {
        RunView {
            stage: Stage::Fresh,
            datasets: Seq::empty(),
            pools: Seq::empty(),
            next: 0,
            set: 0,
            failure: None,
        }
    }

    /// The same state at another stage.
    pub open spec fn at(self, stage: Stage) -> RunView {
        RunView { stage, ..self }
    }
}

impl View for Run {
    type V = RunView;

    open spec fn view(&self) -> RunView {
        RunView {
            stage: self.stage,
            datasets: self.datasets@,
            pools: self.pools@,
            next: self.next as nat,
            set: self.set,
            failure: self.failure,
        }
    }
}

impl Run {
    /// The state of an operation that has not started.
    pub fn new() -> (run: Run)
        ensures
            run@ == RunView::fresh(),
    {
        Run {
            stage: Stage::Fresh,
            datasets: Vec::new(),
            pools: Vec::new(),
            next: 0,
            set: 0,
            failure: None,
        }
    }

    /// The same state at another stage.
    pub fn at(self, stage: Stage) -> (run: Run)
        ensures
            run@ == self@.at(stage),
    {
        Run { stage, ..self }
    }
}

/// What the core answers to an event.
#[derive(Debug, PartialEq, Eq)]
pub enum Step<T> {
    /// Make this native call and come back with its answer.
    Call(Call, Run),
    /// Go on with the enumeration in progress and come back with its next event.
    Await(Run),
    /// Hand this dataset to the caller's callback, then go on with the enumeration in
    /// progress and come back with its next event.
    Yield(Dataset, Run),
    /// The operation is over, with this result.
    Done(T),
    /// The event does not answer what the operation asked; nothing has changed.
    Stray(Run),
}

/// A [`Step`] as a mathematical value.
pub ghost enum Answer<V> {
    Call(Call, RunView),
    Await(RunView),
    Yield(Dataset, RunView),
    Done(V),
    Stray(RunView),
}

impl<V> Answer<V> {
    /// The same answer with another result.
    pub open spec fn map<W>(self, f: spec_fn(V) -> W) -> Answer<W> {
        match self {
            Answer::Call(call, run) => Answer::Call(call, run),
            Answer::Await(run) => Answer::Await(run),
            Answer::Yield(dataset, run) => Answer::Yield(dataset, run),
            Answer::Done(result) => Answer::Done(f(result)),
            Answer::Stray(run) => Answer::Stray(run),
        }
    }
}

impl<T> Step<T> {
    /// The step as a mathematical value, its result left as it is.
    pub open spec fn plain(self) -> Answer<T> {
        match self {
            Step::Call(call, run) => Answer::Call(call, run@),
            Step::Await(run) => Answer::Await(run@),
            Step::Yield(dataset, run) => Answer::Yield(dataset, run@),
            Step::Done(result) => Answer::Done(result),
            Step::Stray(run) => Answer::Stray(run@),
        }
    }
}

/// A step whose result is a list of handles, as a mathematical value.
pub open spec fn listing<H>(step: Step<Result<Vec<H>, Error>>) -> Answer<Result<Seq<H>, Error>> {
    match step {
        Step::Call(call, run) => Answer::Call(call, run@),
        Step::Await(run) => Answer::Await(run@),
        Step::Yield(dataset, run) => Answer::Yield(dataset, run@),
        Step::Done(result) => Answer::Done(listed(result)),
        Step::Stray(run) => Answer::Stray(run@),
    }
}

/// A list of handles, or the failure, as a mathematical value.
pub open spec fn listed<H>(result: Result<Vec<H>, Error>) -> Result<Seq<H>, Error> {
    match result {
        Ok(list) => Ok(list@),
        Err(error) => Err(error),
    }
}

} // verus!
