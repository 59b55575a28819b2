//! Scoped event-loop management over `tokio-core`.
//!
//! A reactor handle is made available for exactly the dynamic extent of one
//! driving call: the driver builds a reactor, installs its handle into a
//! scoped registry slot, runs caller-supplied initialization, drives the
//! reactor until the resulting work settles, and empties the slot again on
//! every return path. Accessors and scheduling helpers read the slot and
//! refuse to act when no drive is in progress.
//!
//! The slot is an explicit value, handed to the initialization step, so the
//! flow of the handle is explicit in every signature; a caller
//! who wants the handle ambient instead keeps one slot per thread in
//! thread-local storage outside this crate and forwards to these functions.

pub mod driver;
mod reactor;
pub mod registry;
pub mod sched;
