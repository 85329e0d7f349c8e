use vstd::prelude::*;

use crate::scope::ambient_logger;
use crate::scope::ScopeStack;
use crate::task::Resumption;
use crate::task::Task;

verus! {

/// A computation that completes immediately with a fixed value, whatever the
/// ambient logger, and never touches the scope stack.
pub struct Ready<T> {
    /// The value the computation completes with.
    pub value: T,
}

impl<T: Copy> Task for Ready<T> {
    type Output = T;

    open spec fn next_spec(self, ambient: Seq<u64>) -> Self {
        self
    }

    open spec fn outcome_spec(self, ambient: Seq<u64>) -> Resumption<T> {
        Resumption::Complete(self.value)
    }

    fn resume(&mut self, scopes: &mut ScopeStack) -> (r: Resumption<T>) {
        Resumption::Complete(self.value)
    }
}

/// A computation that completes immediately with the ambient logger it
/// observes — the probe with which tests watch the scope discipline from
/// inside a resumption.
pub struct Probe {}

impl Task for Probe {
    type Output = Option<u64>;

    open spec fn next_spec(self, ambient: Seq<u64>) -> Self {
        self
    }

    open spec fn outcome_spec(self, ambient: Seq<u64>) -> Resumption<Option<u64>> {
        Resumption::Complete(ambient_logger(ambient))
    }

    fn resume(&mut self, scopes: &mut ScopeStack) -> (r: Resumption<Option<u64>>) {
        Resumption::Complete(scopes.current())
    }
}

/// A computation that suspends on its first resumption and from the second on
/// behaves as the computation it carries.
pub struct PendingOnce<F> {
    /// Whether the first resumption has already happened.
    pub fired: bool,
    /// The computation that takes over after the suspension.
    pub sub: F,
}

impl<F> PendingOnce<F> {
    /// A computation that suspends once, then behaves as `sub`.
    pub fn new(sub: F) -> (r: Self)
        ensures
            r.fired == false,
            r.sub == sub,
    {
        PendingOnce { fired: false, sub }
    }
}

impl<F: Task> Task for PendingOnce<F> {
    type Output = F::Output;

    open spec fn next_spec(self, ambient: Seq<u64>) -> Self {
        if self.fired {
            PendingOnce { fired: true, sub: self.sub.next_spec(ambient) }
        } else {
            PendingOnce { fired: true, sub: self.sub }
        }
    }

    open spec fn outcome_spec(self, ambient: Seq<u64>) -> Resumption<F::Output> {
        if self.fired {
            self.sub.outcome_spec(ambient)
        } else {
            Resumption::Pending
        }
    }

    fn resume(&mut self, scopes: &mut ScopeStack) -> (r: Resumption<F::Output>) {
        if self.fired {
            self.sub.resume(scopes)
        } else {
            self.fired = true;
            Resumption::Pending
        }
    }
}

/// A computation that resumes the computation it carries, then reports, beside
/// that outcome, the ambient logger it observes once the sub-computation has
/// returned — the probe with which tests watch a nested wrapper tear its scope
/// down while the surrounding resumption is still under way.
pub struct ProbeAfter<F> {
    /// The computation resumed before probing.
    pub sub: F,
}

impl<F: Task> Task for ProbeAfter<F> {
    type Output = (Resumption<F::Output>, Option<u64>);

    open spec fn next_spec(self, ambient: Seq<u64>) -> Self {
        ProbeAfter { sub: self.sub.next_spec(ambient) }
    }

    open spec fn outcome_spec(self, ambient: Seq<u64>) -> Resumption<
        (Resumption<F::Output>, Option<u64>),
    > {
        Resumption::Complete((self.sub.outcome_spec(ambient), ambient_logger(ambient)))
    }

    fn resume(&mut self, scopes: &mut ScopeStack) -> (r: Resumption<
        (Resumption<F::Output>, Option<u64>),
    >) {
        let sub_outcome = self.sub.resume(scopes);
        let seen = scopes.current();
        Resumption::Complete((sub_outcome, seen))
    }
}

} // verus!
