//! What holds of the binding's operations over whole conversations with the native
//! library.
//!
//! - [`opening`]: what opening by name returns, and which failure it reports.
//! - [`listing`]: what the list and the callback return and hand out, and in which order.
//! - [`pools`]: which datasets of a pool are listed, and how all pools are.
//! - [`batches`]: when the batch call is made, and with which names.
//! - [`custody`] and [`accounts`]: that no handle is lost, and none closed twice.
//! - [`handles`]: that no handle that is handed out is null.
//! - [`strays`]: that an event which answers nothing changes nothing.

pub mod accounts;
pub mod batches;
pub mod custody;
pub mod handles;
pub mod listing;
pub mod opening;
pub mod pools;
pub mod strays;
