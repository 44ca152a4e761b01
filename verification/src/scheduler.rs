//! The movement scheduler: it adds up the time that frames take and says
//! when a step of the game logic is due.

use vstd::prelude::*;

verus! {

/// Elapsed time since the last step, and the time between two steps.
pub struct Scheduler {
    period: u64,
    elapsed: u64,
}

/// Whether a step is due once `delta` more microseconds have passed.
pub open spec fn step_due(period: u64, elapsed: u64, delta: u64) -> bool {
    elapsed + delta >= period
}

impl Scheduler {
    /// The time between two steps, in microseconds.
    pub closed spec fn spec_period(&self) -> u64 {
        self.period
    }

    /// The time counted since the last step, in microseconds.
    pub closed spec fn spec_elapsed(&self) -> u64 {
        self.elapsed
    }

    /// A scheduler that asks for a step every `period` microseconds and has
    /// counted no time yet.
    pub fn new(period: u64) -> (scheduler: Scheduler)
        ensures
            scheduler.spec_period() == period,
            scheduler.spec_elapsed() == 0,
    {
        Scheduler { period, elapsed: 0 }
    }

    /// The time between two steps, in microseconds.
    #[verifier::when_used_as_spec(spec_period)]
    pub fn period(&self) -> (p: u64)
        ensures
            p == self.spec_period(),
    {
        self.period
    }

    /// The time counted since the last step, in microseconds.
    #[verifier::when_used_as_spec(spec_elapsed)]
    pub fn elapsed(&self) -> (e: u64)
        ensures
            e == self.spec_elapsed(),
    {
        self.elapsed
    }

    /// Counts `delta` more microseconds. If the count reaches the period a
    /// step is due: the call says so and the count starts again from zero,
    /// dropping what went beyond the period. One call asks for at most one
    /// step, however long the frame took.
    pub fn advance(&mut self, delta: u64) -> (fire: bool)
        ensures
            fire == step_due(old(self).period(), old(self).elapsed(), delta),
            final(self).period() == old(self).period(),
            fire ==> final(self).elapsed() == 0,
            !fire ==> final(self).elapsed() == old(self).elapsed() + delta,
            !fire ==> final(self).elapsed() < final(self).period(),
    {
        let due: bool = match self.elapsed.checked_add(delta) {
            Some(sum) => sum >= self.period,
            None => true,
        };
        if due {
            self.elapsed = 0;
        } else {
            self.elapsed = self.elapsed + delta;
        }
        due
    }
}

} // verus!
