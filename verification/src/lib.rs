//! Guarded execution of asynchronous work over cleanup-sensitive resources.
//!
//! A unit of work holds an externally owned resource while a concurrently
//! running watchdog keeps checking that the resource is still valid. The
//! supervising combinator duplicates the caller's resource state, disarms the
//! duplicate, and drives the work until it either completes or the watchdog
//! invalidates it; in both cases the caller gets the untouched original state
//! back and the watchdog is stopped exactly once.
//!
//! The combinator is an explicit state machine: an embedding runtime performs
//! the actual scheduling, sleeping and wake-ups, and reports what it observed
//! through the methods of [`guard::GuardExecutor`].

pub mod guard;
pub mod periodic;
pub mod resource;
