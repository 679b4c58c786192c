//! Units of work and what runs them.
use vstd::prelude::*;

verus! {

/// What runs units of work.
pub trait Run<T: Task>: Sized {
    /// What handing over a unit of work comes to.
    type Outcome;

    /// The invariant of the executor.
    spec fn ready(&self) -> bool;

    /// Whether an executor of this kind takes `task` at all.
    spec fn runs(task: T) -> bool;

    /// Runs the task on the underlying executor.
    fn run(&mut self, task: T) -> (r: Self::Outcome)
        requires
            old(self).ready(),
            Self::runs(task),
        ensures
            final(self).ready(),
    ;
}

/// A value that can run a unit of work.
pub trait Task: Send + Sized {
    /// Whether the unit of work may be run.
    open spec fn runnable(&self) -> bool {
        true
    }

    /// What holds once the unit of work has been run.
    open spec fn done(&self) -> bool {
        true
    }

    /// Run the unit of work.
    fn run(self)
        requires
            self.runnable(),
        ensures
            self.done(),
    ;
}

impl<F: FnOnce() + Send> Task for F {
    /// The function may be called.
    open spec fn runnable(&self) -> bool {
        call_requires(*self, ())
    }

    /// The function has been called.
    open spec fn done(&self) -> bool {
        call_ensures(*self, (), ())
    }

    fn run(self) {
        self()
    }
}

} // verus!
