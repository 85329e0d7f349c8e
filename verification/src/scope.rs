use vstd::prelude::*;

verus! {

/// A handle to a structured logger.
///
/// The scope discipline never reads anything of a logger except its identity:
/// which logger is currently in effect. A handle therefore carries a stable
/// identifier and nothing more; the actual logging machinery lives with an
/// outside collaborator.
#[derive(Clone, Copy, Debug, PartialEq, Eq)]
pub struct Logger {
    /// Stable identity of the logger; never changes once the handle is made.
    pub id: u64,
}

impl Logger {
    /// Make a handle with the given identity.
    pub fn new(id: u64) -> (r: Logger)
        ensures
            r.id == id,
    {
        Logger { id }
    }
}

/// Anything that can be viewed, without mutation, as a reference to a logger:
/// either an owned `Logger` or a stable reference to one owned elsewhere.
pub trait BorrowLogger: Sized {
    /// The identity of the logger this handle designates.
    spec fn logger_id(self) -> u64;

    /// View the handle as a logger reference.
    fn borrow_logger(&self) -> (r: &Logger)
        ensures
            r.id == self.logger_id(),
    ;
}

impl BorrowLogger for Logger {
    open spec fn logger_id(self) -> u64 {
        self.id
    }

    fn borrow_logger(&self) -> (r: &Logger) {
        self
    }
}

impl<'a> BorrowLogger for &'a Logger {
    open spec fn logger_id(self) -> u64 {
        self.id
    }

    fn borrow_logger(&self) -> (r: &Logger) {
        *self
    }
}

/// The ambient logger determined by a stack of scope entries: the most
/// recently entered one, or none when no scope has been entered.
pub open spec fn ambient_logger(entries: Seq<u64>) -> Option<u64> {
    if entries.len() > 0 {
        Some(entries.last())
    } else {
        None
    }
}

/// The process-wide scope stack, held as an explicit value.
///
/// The dynamically scoped "current logger" context follows a stack
/// discipline: the most recently entered scope wins, and leaving a scope
/// restores whatever was in effect before. This type is that stack; whoever
/// drives the computations owns it and threads it through every resumption.
pub struct ScopeStack {
    entries: Vec<u64>,
}

impl View for ScopeStack {
    type V = Seq<u64>;

    closed spec fn view(&self) -> Seq<u64> {
        self.entries@
    }
}

impl ScopeStack {
    /// An empty stack: no scope has been entered, no logger is ambient.
    pub fn new() -> (r: ScopeStack)
        ensures
            r@ == Seq::<u64>::empty(),
    {
        ScopeStack { entries: Vec::new() }
    }

    /// The logger currently in effect, if any scope has been entered.
    pub fn current(&self) -> (r: Option<u64>)
        ensures
            r == ambient_logger(self@),
    {
        if self.entries.len() > 0 {
            Some(self.entries[self.entries.len() - 1])
        } else {
            None
        }
    }

    /// How many scopes are entered at the moment.
    pub fn depth(&self) -> (r: usize)
        ensures
            r == self@.len(),
    {
        self.entries.len()
    }

    /// Enter a scope: the given logger becomes the ambient one.
    pub fn enter(&mut self, logger: u64)
        ensures
            final(self)@ == old(self)@.push(logger),
    {
        self.entries.push(logger);
    }

    /// Leave the most recently entered scope, restoring the one below it,
    /// and hand back the logger that was in effect.
    pub fn exit(&mut self) -> (r: u64)
        requires
            old(self)@.len() > 0,
        ensures
            final(self)@ == old(self)@.drop_last(),
            r == old(self)@.last(),
    {
        self.entries.pop().unwrap()
    }
}

} // verus!
