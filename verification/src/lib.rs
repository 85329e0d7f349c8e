//! Logging scopes tied to resumable computations.
//!
//! With synchronous code a contextual logger is established by running a block
//! inside a dynamically scoped "current logger" context, restored when the
//! block exits. An asynchronous computation does not run as one continuous
//! call: a host runtime resumes it many times, interleaved with unrelated work
//! on the same thread, so a scope entered once around its creation does not
//! cover its actual execution.
//!
//! The [`SlogScope`] wrapper solves this by tying the logger to the
//! computation itself: on every resumption it enters the logger as the ambient
//! one, resumes the inner computation, and leaves the scope again before
//! control returns — whether the computation completed, is still pending, or
//! failed. The ambient context therefore never leaks past the boundary of a
//! single resumption.
//!
//! The scope context is modelled by an explicit [`scope::ScopeStack`] that the
//! driver owns and threads through every resumption; [`task::Task`] is the
//! poll-style interface the host runtime drives.

use vstd::prelude::*;

pub mod leaf;
pub mod resume;
pub mod scope;
pub mod task;

use crate::scope::BorrowLogger;

verus! {

/// A resumable computation wrapped in a logging scope.
///
/// Generic over the logger handle `L` — owned or borrowed, anything that can
/// be viewed as a logger reference — and the inner computation `F`.
pub struct SlogScope<L, F> {
    /// The logger to enter on every resumption; never replaced after
    /// construction.
    pub logger: L,
    /// The wrapped computation, moved in at construction.
    pub inner: F,
}

impl<L: BorrowLogger, F> SlogScope<L, F> {
    /// Wrap a computation in a logging scope. Pure data assembly: no scope is
    /// entered until the wrapper is first resumed.
    pub fn new(logger: L, inner: F) -> (r: Self)
        ensures
            r.logger == logger,
            r.inner == inner,
    {
        SlogScope { logger, inner }
    }
}

} // verus!
