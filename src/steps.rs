use vstd::prelude::*;

verus! {

/// A fixed sequence of steps that the caller carries out one at a time, in
/// order, reporting each outcome back. The first failure ends the run: no
/// step is retried and no later step is handed out.
pub struct StepRun<T> {
    steps: Vec<T>,
    next: usize,
    failed: bool,
}

impl<T> StepRun<T> {
    /// The steps of the run, in order.
    pub closed spec fn steps(&self) -> Seq<T> {
        self.steps@
    }

    /// How many steps have succeeded so far.
    pub closed spec fn done(&self) -> nat {
        self.next as nat
    }

    /// Whether a step has failed.
    pub closed spec fn has_failed(&self) -> bool {
        self.failed
    }

    pub closed spec fn well_formed(&self) -> bool {
        &&& self.next <= self.steps@.len()
        &&& self.failed ==> self.next < self.steps@.len()
    }

    /// Whether a step is still to be carried out.
    pub open spec fn is_running(&self) -> bool {
        !self.has_failed() && self.done() < self.steps().len()
    }

    pub fn new(steps: Vec<T>) -> (r: Self)
        ensures
            r.well_formed(),
            r.steps() == steps@,
            r.done() == 0,
            !r.has_failed(),
    {
        StepRun { steps, next: 0, failed: false }
    }

    /// The step to carry out now, if the run goes on.
    pub fn current(&self) -> (r: Option<&T>)
        requires
            self.well_formed(),
        ensures
            r == (if self.is_running() {
                Some(&self.steps()[self.done() as int])
            } else {
                None
            }),
    {
        if !self.failed && self.next < self.steps.len() {
            Some(&self.steps[self.next])
        } else {
            None
        }
    }

    /// Records the outcome of the current step. Once the run has ended this
    /// changes nothing.
    pub fn record(&mut self, succeeded: bool)
        requires
            old(self).well_formed(),
        ensures
            final(self).well_formed(),
            final(self).steps() == old(self).steps(),
            old(self).is_running() && succeeded ==> final(self).done() == old(self).done() + 1
                && !final(self).has_failed(),
            old(self).is_running() && !succeeded ==> final(self).done() == old(self).done()
                && final(self).has_failed(),
            !old(self).is_running() ==> final(self).done() == old(self).done()
                && final(self).has_failed() == old(self).has_failed(),
    {
        if !self.failed && self.next < self.steps.len() {
            if succeeded {
                self.next = self.next + 1;
            } else {
                self.failed = true;
            }
        }
    }

    /// Whether every step has succeeded.
    pub fn is_complete(&self) -> (r: bool)
        requires
            self.well_formed(),
        ensures
            r == (!self.has_failed() && self.done() == self.steps().len()),
    {
        !self.failed && self.next == self.steps.len()
    }

    /// The step that failed, if one did.
    pub fn failed_step(&self) -> (r: Option<&T>)
        requires
            self.well_formed(),
        ensures
            r == (if self.has_failed() {
                Some(&self.steps()[self.done() as int])
            } else {
                None
            }),
    {
        if self.failed {
            Some(&self.steps[self.next])
        } else {
            None
        }
    }
}

} // verus!
