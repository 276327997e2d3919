//! What a caller may hand to a launch.
//!
//! Both capabilities are structural: every callable of the right shape that
//! can move to another thread, be shared between threads and outlive the call
//! that made it has them, with nothing to register.
use vstd::prelude::*;

verus! {

/// A unit of work: callable with no argument, sendable, shareable, and free
/// of borrowed data.
pub trait RecoverableFunction: Fn() + Send + Sync + 'static {}

impl<T> RecoverableFunction for T where T: Fn() + Send + Sync + 'static {}

/// An error handler: callable with the text of a fault, sendable, shareable,
/// and free of borrowed data.
pub trait ErrorHandlerFunction: Fn(&str) + Send + Sync + 'static {}

impl<T> ErrorHandlerFunction for T where T: Fn(&str) + Send + Sync + 'static {}

} // verus!
