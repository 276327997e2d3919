//! Panic containment for work run on its own thread.
//!
//! The library holds the logic of a recoverable launch: how a captured fault
//! is turned into text, and in which order the work, the error handler and
//! the finalizer of a launch run. Spawning threads and intercepting unwinds
//! belong to the host; the host drives a [`launch::Launch`] and hands it the
//! outcome of each guarded call.
pub mod capability;
pub mod fault;
pub mod launch;

pub use capability::{ErrorHandlerFunction, RecoverableFunction};
pub use fault::{spawn_error_to_string, FaultPayload, Outcome};
pub use launch::{Action, Launch, LaunchKind, Stage};
