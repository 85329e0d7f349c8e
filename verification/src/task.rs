use vstd::prelude::*;

use crate::scope::ScopeStack;

verus! {

/// The outcome of one resumption of a computation.
#[derive(Debug, PartialEq, Eq)]
pub enum Resumption<T> {
    /// The computation suspended; it must be resumed again to make progress.
    Pending,
    /// The computation finished with its final value.
    Complete(T),
}

/// A resumable computation, driven by a host runtime through a poll-style
/// interface: each call to [`Task::resume`] moves the computation one step,
/// either suspending or completing.
///
/// The behaviour of a task is pinned down by two specification functions of
/// its state and of the scope stack it is resumed under: `next_spec` gives the
/// state it is left in, `outcome_spec` the outcome it reports. The contract of
/// `resume` obliges every task to hand the scope stack back exactly as it
/// received it, however the step came out — a suspension never holds a scope
/// open across the pending interval.
pub trait Task: Sized {
    /// The type of the final value.
    type Output;

    /// The state the task is left in by one resumption under the given scope
    /// stack.
    spec fn next_spec(self, ambient: Seq<u64>) -> Self;

    /// The outcome of one resumption under the given scope stack.
    spec fn outcome_spec(self, ambient: Seq<u64>) -> Resumption<Self::Output>;

    /// Drive the computation one step under the given scope stack.
    fn resume(&mut self, scopes: &mut ScopeStack) -> (r: Resumption<Self::Output>)
        ensures
            final(scopes)@ == old(scopes)@,
            *final(self) == (*old(self)).next_spec(old(scopes)@),
            r == (*old(self)).outcome_spec(old(scopes)@),
    ;
}

} // verus!
