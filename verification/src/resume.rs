use vstd::prelude::*;

use crate::scope::ambient_logger;
use crate::scope::BorrowLogger;
use crate::scope::ScopeStack;
use crate::task::Resumption;
use crate::task::Task;
use crate::SlogScope;

verus! {

impl<L: BorrowLogger, F: Task> Task for SlogScope<L, F> {
    type Output = F::Output;

    open spec fn next_spec(self, ambient: Seq<u64>) -> Self {
        SlogScope {
            logger: self.logger,
            inner: self.inner.next_spec(ambient.push(self.logger.logger_id())),
        }
    }

    open spec fn outcome_spec(self, ambient: Seq<u64>) -> Resumption<F::Output> {
        self.inner.outcome_spec(ambient.push(self.logger.logger_id()))
    }

    /// One resumption of the wrapper: enter the wrapper's logger as the
    /// ambient one, resume the inner computation, and leave the scope again
    /// before the outcome — pending or complete — is handed to the caller.
    fn resume(&mut self, scopes: &mut ScopeStack) -> (r: Resumption<F::Output>) {
        let id = self.logger.borrow_logger().id;
        scopes.enter(id);
        let r = self.inner.resume(scopes);
        let _left = scopes.exit();
        proof {
            assert(scopes@ =~= old(scopes)@);
        }
        r
    }
}

/// Convenience trait for wrapping a computation in a logging scope via method
/// chaining; implemented for every task.
pub trait FutureExt: Task {
    /// Wrap `self` in a logging scope.
    fn with_logger<L: BorrowLogger>(self, logger: L) -> (r: SlogScope<L, Self>)
        ensures
            r.logger == logger,
            r.inner == self,
    ;
}

impl<F: Task> FutureExt for F {
    fn with_logger<L: BorrowLogger>(self, logger: L) -> (r: SlogScope<L, Self>) {
        SlogScope::new(logger, self)
    }
}

/// During any resumption of a wrapper, the inner computation runs with the
/// wrapper's logger entered as the ambient one: on a given scope stack the
/// wrapper steps and reports exactly as the inner computation does on that
/// stack with the wrapper's logger pushed, where it is the most recently
/// entered — hence the ambient — logger.
pub proof fn lemma_inner_runs_under_wrapper_logger<L: BorrowLogger, F: Task>(
    w: SlogScope<L, F>,
    ambient: Seq<u64>,
)
    ensures
        w.outcome_spec(ambient) == w.inner.outcome_spec(ambient.push(w.logger.logger_id())),
        w.next_spec(ambient) == (SlogScope {
            logger: w.logger,
            inner: w.inner.next_spec(ambient.push(w.logger.logger_id())),
        }),
        ambient_logger(ambient.push(w.logger.logger_id())) == Some(w.logger.logger_id()),
{
}

/// A failure signalled by the inner computation reaches the caller unchanged:
/// the wrapper neither suppresses nor translates it. Restoration of the scope
/// stack is not conditioned on success — the contract of `resume` promises it
/// for every outcome alike.
pub proof fn lemma_failure_propagates_unchanged<L: BorrowLogger, V, E, F: Task<
    Output = Result<V, E>,
>>(w: SlogScope<L, F>, ambient: Seq<u64>, e: E)
    requires
        w.inner.outcome_spec(ambient.push(w.logger.logger_id())) == Resumption::<Result<V, E>>::Complete(
            Err(e),
        ),
    ensures
        w.outcome_spec(ambient) == Resumption::<Result<V, E>>::Complete(Err(e)),
{
}

/// Two wrappers over the same logger and the same inner computation — one made
/// by explicit construction, one by the chaining convenience — are the same
/// value, and so behave identically, resumption for resumption, on every scope
/// stack.
pub proof fn lemma_chaining_matches_construction<L: BorrowLogger, F: Task>(
    a: SlogScope<L, F>,
    b: SlogScope<L, F>,
    ambient: Seq<u64>,
)
    requires
        a.logger == b.logger,
        a.inner == b.inner,
    ensures
        a == b,
        a.next_spec(ambient) == b.next_spec(ambient),
        a.outcome_spec(ambient) == b.outcome_spec(ambient),
{
}

} // verus!
