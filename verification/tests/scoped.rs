use slog_scope_futures::leaf::PendingOnce;
use slog_scope_futures::leaf::Probe;
use slog_scope_futures::leaf::ProbeAfter;
use slog_scope_futures::leaf::Ready;
use slog_scope_futures::resume::FutureExt;
use slog_scope_futures::scope::Logger;
use slog_scope_futures::scope::ScopeStack;
use slog_scope_futures::task::Resumption;
use slog_scope_futures::task::Task;
use slog_scope_futures::SlogScope;

#[test]
fn scope_stack_enter_and_exit() {
    let mut stack = ScopeStack::new();
    assert_eq!(stack.depth(), 0);
    assert_eq!(stack.current(), None);
    stack.enter(1);
    assert_eq!(stack.current(), Some(1));
    stack.enter(2);
    assert_eq!(stack.current(), Some(2));
    assert_eq!(stack.depth(), 2);
    let left: u64 = stack.exit();
    assert_eq!(left, 2);
    assert_eq!(stack.current(), Some(1));
    assert_eq!(stack.depth(), 1);
}

#[test]
fn construction_leaves_ambient_untouched() {
    let mut stack = ScopeStack::new();
    assert_eq!(stack.current(), None);
    let wrapper = SlogScope::new(Logger::new(1), Ready { value: 42u64 });
    assert_eq!(stack.current(), None);
    assert_eq!(stack.depth(), 0);
    stack.enter(7);
    let other = SlogScope::new(Logger::new(2), Ready { value: 0u64 });
    assert_eq!(stack.current(), Some(7));
    assert_eq!(stack.depth(), 1);
    let _ = (wrapper, other);
}

#[test]
fn immediate_completion_yields_value() {
    let mut stack = ScopeStack::new();
    let mut wrapper = SlogScope::new(Logger::new(1), Ready { value: 42u64 });
    let outcome = wrapper.resume(&mut stack);
    assert_eq!(outcome, Resumption::Complete(42u64));
    assert_eq!(stack.current(), None);
    assert_eq!(stack.depth(), 0);
}

#[test]
fn inner_computation_observes_wrapper_logger() {
    let mut stack = ScopeStack::new();
    let mut wrapper = SlogScope::new(Logger::new(1), Probe {});
    let outcome = wrapper.resume(&mut stack);
    assert_eq!(outcome, Resumption::Complete(Some(1)));
    assert_eq!(stack.current(), None);
}

#[test]
fn pending_then_complete_restores_in_between() {
    let mut stack = ScopeStack::new();
    let mut wrapper = SlogScope::new(Logger::new(1), PendingOnce::new(Ready { value: "done" }));
    let first = wrapper.resume(&mut stack);
    assert_eq!(first, Resumption::Pending);
    assert_eq!(stack.current(), None);
    assert_eq!(stack.depth(), 0);
    let second = wrapper.resume(&mut stack);
    assert_eq!(second, Resumption::Complete("done"));
    assert_eq!(stack.current(), None);
    assert_eq!(stack.depth(), 0);
}

#[test]
fn logger_ambient_only_while_resuming() {
    let mut stack = ScopeStack::new();
    stack.enter(9);
    let mut wrapper = SlogScope::new(Logger::new(1), PendingOnce::new(Probe {}));
    assert_eq!(wrapper.resume(&mut stack), Resumption::Pending);
    assert_eq!(stack.current(), Some(9));
    assert_eq!(stack.depth(), 1);
    let second = wrapper.resume(&mut stack);
    assert_eq!(second, Resumption::Complete(Some(1)));
    assert_eq!(stack.current(), Some(9));
    assert_eq!(stack.depth(), 1);
}

#[test]
fn repeated_resumption_leaves_no_residue() {
    let mut stack = ScopeStack::new();
    stack.enter(3);
    let mut wrapper = SlogScope::new(Logger::new(1), Probe {});
    let mut round: u64 = 0;
    while round < 5 {
        let outcome = wrapper.resume(&mut stack);
        assert_eq!(outcome, Resumption::Complete(Some(1)));
        assert_eq!(stack.current(), Some(3));
        assert_eq!(stack.depth(), 1);
        round += 1;
    }
}

#[test]
fn failure_propagates_after_restore() {
    let mut stack = ScopeStack::new();
    stack.enter(5);
    let mut wrapper = SlogScope::new(Logger::new(1), Ready { value: Err::<u64, u64>(17) });
    let outcome = wrapper.resume(&mut stack);
    assert_eq!(outcome, Resumption::Complete(Err(17)));
    assert_eq!(stack.current(), Some(5));
    assert_eq!(stack.depth(), 1);
}

#[test]
fn nested_wrappers_stack_in_order() {
    let mut stack = ScopeStack::new();
    let inner = SlogScope::new(Logger::new(2), Probe {});
    let mut outer = SlogScope::new(Logger::new(1), ProbeAfter { sub: inner });
    let outcome = outer.resume(&mut stack);
    assert_eq!(
        outcome,
        Resumption::Complete((Resumption::Complete(Some(2)), Some(1)))
    );
    assert_eq!(stack.current(), None);
    assert_eq!(stack.depth(), 0);
}

#[test]
fn chaining_matches_explicit_construction() {
    let mut stack_a = ScopeStack::new();
    let mut stack_b = ScopeStack::new();
    let mut by_new = SlogScope::new(Logger::new(3), PendingOnce::new(Probe {}));
    let mut by_chain = PendingOnce::new(Probe {}).with_logger(Logger::new(3));
    assert_eq!(by_new.resume(&mut stack_a), by_chain.resume(&mut stack_b));
    assert_eq!(by_new.resume(&mut stack_a), by_chain.resume(&mut stack_b));
    assert_eq!(stack_a.current(), stack_b.current());
    assert_eq!(stack_a.depth(), stack_b.depth());
}

#[test]
fn borrowed_logger_handle() {
    let mut stack = ScopeStack::new();
    let logger = Logger::new(4);
    let mut first = SlogScope::new(&logger, Probe {});
    assert_eq!(first.resume(&mut stack), Resumption::Complete(Some(4)));
    let mut second = SlogScope::new(&logger, Probe {});
    assert_eq!(second.resume(&mut stack), Resumption::Complete(Some(4)));
    assert_eq!(logger.id, 4);
}
