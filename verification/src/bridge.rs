//! The bridge between the native library's way of enumerating, which pushes one handle at
//! a time into a function of the caller, and the two shapes that the binding offers: a
//! list of all handles, or a callback of the user's for each. Also what every operation
//! does when a native call has failed.

use vstd::prelude::*;

use crate::dataset::Dataset;
use crate::error::{Error, ZfsErrorCode};
use crate::native::{listing, Answer, Call, Event, Run, RunView, Stage, Step};

verus! {

/// What the reading of the error slot has led to.
#[derive(Debug)]
pub enum Verdict {
    /// Another reading is needed: make this call, at this stage.
    Ask(Call, Stage),
    /// The failure is known.
    Known(Error),
    /// The event is not the reading that was asked for.
    Stray,
}

/// The rule that tells a failure of the library from one of the system: the library's
/// slot is read first, and only if it holds the unknown code is the system's last error
/// read and reported instead.
pub open spec fn spec_diagnose(stage: Stage, event: Event) -> Verdict {
    match (stage, event) {
        (Stage::LibraryError, Event::LibraryError(e)) => if e.code != ZfsErrorCode::EZFS_UNKNOWN {
            Verdict::Known(Error::Zfs(e))
        } else {
            Verdict::Ask(Call::SystemError, Stage::SystemError)
        },
        (Stage::SystemError, Event::SystemError(e)) => Verdict::Known(Error::Sys(e)),
        _ => Verdict::Stray,
    }
}

/// Takes a reading of an error slot and says what the failure is, or what to read next.
pub fn diagnose(stage: Stage, event: Event) -> (verdict: Verdict)
    ensures
        verdict == spec_diagnose(stage, event),
{
    match (stage, event) {
        (Stage::LibraryError, Event::LibraryError(e)) => {
            if e.code != ZfsErrorCode::EZFS_UNKNOWN {
                Verdict::Known(Error::Zfs(e))
            } else {
                Verdict::Ask(Call::SystemError, Stage::SystemError)
            }
        },
        (Stage::SystemError, Event::SystemError(e)) => Verdict::Known(Error::Sys(e)),
        _ => Verdict::Stray,
    }
}

/// The state in which a failure is known and the gathered handles are about to be closed.
pub open spec fn failing(run: RunView, error: Error) -> RunView {
    RunView { stage: Stage::Discarding, next: 0, failure: Some(error), ..run }
}

/// Closing the gathered datasets one by one, from the first; once none is left, the
/// failure is the result.
pub open spec fn spec_discard(run: RunView) -> Answer<Result<Seq<Dataset>, Error>> {
    if run.next < run.datasets.len() {
        Answer::Call(Call::DatasetClose { dataset: run.datasets[run.next as int].handle }, run)
    } else {
        match run.failure {
            Some(error) => Answer::Done(Err(error)),
            None => Answer::Stray(run),
        }
    }
}

/// Closes the next gathered dataset, or ends with the failure.
pub fn discard(run: Run) -> (step: Step<Result<Vec<Dataset>, Error>>)
    ensures
        listing(step) == spec_discard(run@),
{
    if run.next < run.datasets.len() {
        let dataset = run.datasets[run.next].handle;
        Step::Call(Call::DatasetClose { dataset }, run)
    } else {
        match run.failure {
            Some(error) => Step::Done(Err(error)),
            None => Step::Stray(run),
        }
    }
}

/// The list shape, once the enumerating call has been made. Every handle that the call
/// pushes is wrapped, with the context it belongs to, and appended to what was gathered; a
/// zero status ends the operation with the list, in the order in which the handles came.
/// After any other status the failure is read, every gathered dataset is closed, and the
/// failure is the result.
pub open spec fn spec_gather(libzfs: usize, run: RunView, event: Event) -> Answer<
    Result<Seq<Dataset>, Error>,
> {
    match run.stage {
        Stage::Asked => match event {
            Event::Item(handle) => if handle != 0 {
                Answer::Await(
                    RunView { datasets: run.datasets.push(Dataset { libzfs, handle }), ..run },
                )
            } else {
                Answer::Stray(run)
            },
            Event::Status(status) => if status == 0 {
                Answer::Done(Ok(run.datasets))
            } else {
                Answer::Call(Call::LibraryError { libzfs }, run.at(Stage::LibraryError))
            },
            _ => Answer::Stray(run),
        },
        Stage::LibraryError | Stage::SystemError => match spec_diagnose(run.stage, event) {
            Verdict::Ask(call, stage) => Answer::Call(call, run.at(stage)),
            Verdict::Known(error) => spec_discard(failing(run, error)),
            Verdict::Stray => Answer::Stray(run),
        },
        Stage::Discarding => match event {
            Event::Returned => if run.next < run.datasets.len() && run.failure is Some {
                spec_discard(RunView { next: run.next + 1, ..run })
            } else {
                Answer::Stray(run)
            },
            _ => Answer::Stray(run),
        },
        _ => Answer::Stray(run),
    }
}

/// One step of an enumeration in the list shape, after the call was made.
pub fn gather(libzfs: usize, run: Run, event: Event) -> (step: Step<Result<Vec<Dataset>, Error>>)
    ensures
        listing(step) == spec_gather(libzfs, run@, event),
{
    match run.stage {
        Stage::Asked => match event {
            Event::Item(handle) => {
                if handle != 0 {
                    let mut run = run;
                    run.datasets.push(Dataset { libzfs, handle });
                    Step::Await(run)
                } else {
                    Step::Stray(run)
                }
            },
            Event::Status(status) => {
                if status == 0 {
                    Step::Done(Ok(run.datasets))
                } else {
                    Step::Call(Call::LibraryError { libzfs }, run.at(Stage::LibraryError))
                }
            },
            _ => Step::Stray(run),
        },
        Stage::LibraryError | Stage::SystemError => match diagnose(run.stage, event) {
            Verdict::Ask(call, stage) => Step::Call(call, run.at(stage)),
            Verdict::Known(error) => {
                let mut run = run;
                run.stage = Stage::Discarding;
                run.next = 0;
                run.failure = Some(error);
                discard(run)
            },
            Verdict::Stray => Step::Stray(run),
        },
        Stage::Discarding => match event {
            Event::Returned => {
                if run.next < run.datasets.len() && run.failure.is_some() {
                    let mut run = run;
                    run.next = run.next + 1;
                    discard(run)
                } else {
                    Step::Stray(run)
                }
            },
            _ => Step::Stray(run),
        },
        _ => Step::Stray(run),
    }
}

/// The list shape: the enumerating call is made once, and what it pushes is gathered.
pub open spec fn spec_collect(libzfs: usize, call: Call, run: RunView, event: Event) -> Answer<
    Result<Seq<Dataset>, Error>,
> {
    match run.stage {
        Stage::Fresh => match event {
            Event::Begin => Answer::Call(call, run.at(Stage::Asked)),
            _ => Answer::Stray(run),
        },
        _ => spec_gather(libzfs, run, event),
    }
}

/// One step of an enumeration in the list shape.
pub fn collect(libzfs: usize, call: Call, run: Run, event: Event) -> (step: Step<
    Result<Vec<Dataset>, Error>,
>)
    ensures
        listing(step) == spec_collect(libzfs, call, run@, event),
{
    match run.stage {
        Stage::Fresh => match event {
            Event::Begin => Step::Call(call, run.at(Stage::Asked)),
            _ => Step::Stray(run),
        },
        _ => gather(libzfs, run, event),
    }
}

/// The callback shape. The call is made once; every handle that it pushes is wrapped,
/// with the context it belongs to, and handed out for the user's callback, in the order
/// in which the handles came; a zero status ends the operation. After any other status
/// the failure is read and is the result; what was handed out stays with the callback.
pub open spec fn spec_forward(libzfs: usize, call: Call, run: RunView, event: Event) -> Answer<
    Result<(), Error>,
> {
    match run.stage {
        Stage::Fresh => match event {
            Event::Begin => Answer::Call(call, run.at(Stage::Asked)),
            _ => Answer::Stray(run),
        },
        Stage::Asked => match event {
            Event::Item(handle) => if handle != 0 {
                Answer::Yield(Dataset { libzfs, handle }, run)
            } else {
                Answer::Stray(run)
            },
            Event::Status(status) => if status == 0 {
                Answer::Done(Ok(()))
            } else {
                Answer::Call(Call::LibraryError { libzfs }, run.at(Stage::LibraryError))
            },
            _ => Answer::Stray(run),
        },
        Stage::LibraryError | Stage::SystemError => match spec_diagnose(run.stage, event) {
            Verdict::Ask(call, stage) => Answer::Call(call, run.at(stage)),
            Verdict::Known(error) => Answer::Done(Err(error)),
            Verdict::Stray => Answer::Stray(run),
        },
        _ => Answer::Stray(run),
    }
}

/// One step of an enumeration in the callback shape.
pub fn forward(libzfs: usize, call: Call, run: Run, event: Event) -> (step: Step<
    Result<(), Error>,
>)
    ensures
        step.plain() == spec_forward(libzfs, call, run@, event),
{
    match run.stage {
        Stage::Fresh => match event {
            Event::Begin => Step::Call(call, run.at(Stage::Asked)),
            _ => Step::Stray(run),
        },
        Stage::Asked => match event {
            Event::Item(handle) => {
                if handle != 0 {
                    Step::Yield(Dataset { libzfs, handle }, run)
                } else {
                    Step::Stray(run)
                }
            },
            Event::Status(status) => {
                if status == 0 {
                    Step::Done(Ok(()))
                } else {
                    Step::Call(Call::LibraryError { libzfs }, run.at(Stage::LibraryError))
                }
            },
            _ => Step::Stray(run),
        },
        Stage::LibraryError | Stage::SystemError => match diagnose(run.stage, event) {
            Verdict::Ask(call, stage) => Step::Call(call, run.at(stage)),
            Verdict::Known(error) => Step::Done(Err(error)),
            Verdict::Stray => Step::Stray(run),
        },
        _ => Step::Stray(run),
    }
}

} // verus!
