use vstd::prelude::*;

use super::Schedule;
use crate::duration::Duration;

verus! {

/// Runs the task a single time, after a configured wait. Whatever that
/// one execution does — succeed or fail — nothing further is ever
/// scheduled.
pub struct OneShot {
    delay: Duration,
}

impl OneShot {
    /// The wait before the single execution.
    pub closed spec fn spec_delay(self) -> Duration {
        self.delay
    }

    /// A schedule that has the task run once, `delay` from now.
    pub fn after(delay: Duration) -> (r: OneShot)
        ensures
            r.spec_delay() == delay,
    {
        OneShot { delay }
    }
}

impl<T> Schedule<T> for OneShot {
    open spec fn initial_ok(&self, r: Option<Duration>) -> bool {
        r == Option::Some(self.spec_delay())
    }

    open spec fn next_ok(pre: OneShot, output: T, post: OneShot, r: Option<Duration>) -> bool {
        post == pre && r is None
    }

    open spec fn next_on_panic_ok(pre: OneShot, post: OneShot, r: Option<Duration>) -> bool {
        post == pre && r is None
    }

    fn initial(&self) -> (r: Option<Duration>) {
        Option::Some(self.delay)
    }

    fn next(&mut self, _task_output: T) -> (r: Option<Duration>) {
        Option::None
    }

    fn next_on_task_panic(&mut self) -> (r: Option<Duration>) {
        Option::None
    }
}

} // verus!
