//! Verified core of a binding to the ZFS management library.
//!
//! The native library is reached through a narrow interface. The core names each native
//! call that it wants made, as a [`Call`]; the embedding program makes the call; what came
//! back is handed to the core as an [`Event`]. Every operation of the binding is a
//! function from the state of its run ([`Run`]) and the latest event to the next
//! [`Step`]: another call to make, a dataset to hand to the caller's callback, or the
//! result. An operation starts from [`Run::new`] with [`Event::Begin`] and is over at
//! [`Step::Done`].
//!
//! So the order of the native calls, the reading of the error slot after a failure, and
//! the release of every handle are decided here, and proved: each operation's contract
//! states its step exactly, and [`laws`] states what follows for whole conversations with
//! the native library.
//!
//! The library context must outlive every pool and dataset that was opened through it,
//! and one context must not be used from two threads at once: the error slot that is
//! read after a failure is the context's.

pub mod bridge;
pub mod context;
pub mod conversation;
pub mod dataset;
pub mod error;
pub mod kinds;
pub mod laws;
pub mod native;
pub mod pool;
pub mod string;

pub use context::LibZfs;
pub use dataset::Dataset;
pub use error::{Error, SysError, ZfsError, ZfsErrorCode};
pub use kinds::{DatasetType, DatasetTypeMask, ZPoolState};
pub use native::{Answer, Call, Event, Run, RunView, Stage, Step};
pub use pool::ZPool;
pub use string::SafeString;
