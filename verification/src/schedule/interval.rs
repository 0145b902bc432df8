use vstd::prelude::*;

use super::Schedule;
use crate::duration::Duration;

verus! {

/// Runs the task over and over with a fixed wait between executions.
///
/// The wait is measured from the end of one execution to the start of the
/// next, so the task's own running time stretches the cadence: with a
/// ten-second interval and a three-second execution, consecutive starts
/// lie thirteen seconds apart.
pub struct IntervalSchedule {
    delay: Option<Duration>,
    interval: Duration,
}

impl IntervalSchedule {
    /// The fixed wait between executions.
    pub closed spec fn spec_interval(self) -> Duration {
        self.interval
    }

    /// The wait before the first execution: the configured one-time delay
    /// if there is one, else the interval itself.
    pub closed spec fn spec_initial(self) -> Duration {
        match self.delay {
            Option::Some(d) => d,
            Option::None => self.interval,
        }
    }

    /// Whether a one-time initial delay was configured.
    pub closed spec fn has_initial_delay(self) -> bool {
        self.delay is Some
    }

    /// Without a configured one-time delay, the initial wait is the
    /// interval itself.
    pub proof fn lemma_initial_is_interval(self)
        requires
            !self.has_initial_delay(),
        ensures
            self.spec_initial() == self.spec_interval(),
    {
    }

    /// A schedule whose every wait, the first one included, is `interval`.
    pub fn every(interval: Duration) -> (r: IntervalSchedule)
        ensures
            r.spec_interval() == interval,
            !r.has_initial_delay(),
    {
        IntervalSchedule { delay: Option::None, interval }
    }

    /// A schedule whose first wait is `delay` and whose every later wait
    /// is `interval`.
    pub fn with_initial_delay(interval: Duration, delay: Duration) -> (r: IntervalSchedule)
        ensures
            r.spec_interval() == interval,
            r.has_initial_delay(),
            r.spec_initial() == delay,
    {
        IntervalSchedule { delay: Option::Some(delay), interval }
    }
}

impl<T> Schedule<T> for IntervalSchedule {
    open spec fn initial_ok(&self, r: Option<Duration>) -> bool {
        r == Option::Some(self.spec_initial())
    }

    open spec fn next_ok(
        pre: IntervalSchedule,
        output: T,
        post: IntervalSchedule,
        r: Option<Duration>,
    ) -> bool {
        post == pre && r == Option::Some(pre.spec_interval())
    }

    open spec fn next_on_panic_ok(
        pre: IntervalSchedule,
        post: IntervalSchedule,
        r: Option<Duration>,
    ) -> bool {
        post == pre && r == Option::Some(pre.spec_initial())
    }

    fn initial(&self) -> (r: Option<Duration>) {
        match self.delay {
            Option::Some(d) => Option::Some(d),
            Option::None => Option::Some(self.interval),
        }
    }

    fn next(&mut self, _task_output: T) -> (r: Option<Duration>) {
        Option::Some(self.interval)
    }

    fn next_on_task_panic(&mut self) -> (r: Option<Duration>) {
        match self.delay {
            Option::Some(d) => Option::Some(d),
            Option::None => Option::Some(self.interval),
        }
    }
}

} // verus!
