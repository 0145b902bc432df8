use vstd::prelude::*;

use super::Schedule;
use crate::duration::Duration;

verus! {

/// Schedules an execution every fixed period, with an optional one-time
/// delay before the first execution.
pub struct PeriodicSchedule {
    delay: Option<Duration>,
    period: Duration,
}

impl PeriodicSchedule {
    /// The fixed wait between executions.
    pub closed spec fn spec_period(self) -> Duration {
        self.period
    }

    /// The wait before the first execution: the configured one-time delay
    /// if there is one, else the period itself.
    pub closed spec fn spec_initial(self) -> Duration {
        match self.delay {
            Option::Some(d) => d,
            Option::None => self.period,
        }
    }

    /// Whether a one-time initial delay was configured.
    pub closed spec fn has_initial_delay(self) -> bool {
        self.delay is Some
    }

    /// A schedule whose every wait, the first one included, is `period`.
    pub fn every(period: Duration) -> (r: PeriodicSchedule)
        ensures
            r.spec_period() == period,
            r.spec_initial() == period,
            !r.has_initial_delay(),
    {
        PeriodicSchedule { delay: Option::None, period }
    }

    /// A schedule whose first wait is `delay` and whose every later wait
    /// is `period`.
    pub fn with_initial_delay(period: Duration, delay: Duration) -> (r: PeriodicSchedule)
        ensures
            r.spec_period() == period,
            r.has_initial_delay(),
            r.spec_initial() == delay,
    {
        PeriodicSchedule { delay: Option::Some(delay), period }
    }
}

impl<T> Schedule<T> for PeriodicSchedule {
    open spec fn initial_ok(&self, r: Option<Duration>) -> bool {
        r == Option::Some(self.spec_initial())
    }

    open spec fn next_ok(
        pre: PeriodicSchedule,
        output: T,
        post: PeriodicSchedule,
        r: Option<Duration>,
    ) -> bool {
        post == pre && r == Option::Some(pre.spec_period())
    }

    open spec fn next_on_panic_ok(
        pre: PeriodicSchedule,
        post: PeriodicSchedule,
        r: Option<Duration>,
    ) -> bool {
        post == pre && r == Option::Some(pre.spec_initial())
    }

    fn initial(&self) -> (r: Option<Duration>) {
        match self.delay {
            Option::Some(d) => Option::Some(d),
            Option::None => Option::Some(self.period),
        }
    }

    fn next(&mut self, _task_output: T) -> (r: Option<Duration>) {
        Option::Some(self.period)
    }

    fn next_on_task_panic(&mut self) -> (r: Option<Duration>) {
        match self.delay {
            Option::Some(d) => Option::Some(d),
            Option::None => Option::Some(self.period),
        }
    }
}

} // verus!
