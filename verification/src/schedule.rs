use vstd::prelude::*;

use crate::duration::Duration;

mod backoff;

pub use self::backoff::BackoffSchedule;

mod cron;

pub use self::cron::CronParseError;
pub use self::cron::CronSchedule;

mod interval;

pub use interval::IntervalSchedule;

mod oneshot;

pub use oneshot::OneShot;

mod periodic;

pub use periodic::PeriodicSchedule;

verus! {

/// A timing policy for one registered task. Every answer is the length of
/// the wait that must pass before the task's next execution begins, and
/// `None` retires the task for good.
///
/// Each implementation also supplies three spec relations that pin down, as
/// precisely as the policy allows, how every call may change the policy's
/// state and which wait it may hand back. Deterministic policies pin the
/// result exactly; policies that consult a wall clock leave it open.
///
/// A schedule instance is owned by the single driver loop it was registered
/// with, which calls into it strictly sequentially through `&mut self`: no
/// two calls for the same task are ever in flight at once, and sharing one
/// schedule between two drivers is ruled out by ownership.
pub trait Schedule<T>: Sized {
    /// What `initial` may return. The default relation admits any answer;
    /// a policy overrides it with something sharper where its answers are
    /// predictable.
    open spec fn initial_ok(&self, r: Option<Duration>) -> bool {
        true
    }

    /// How `next` may step the policy state `pre` to `post` while returning
    /// `r`, after an execution produced `output`. The default relation
    /// admits any step; a policy overrides it with something sharper where
    /// its behaviour is predictable.
    open spec fn next_ok(pre: Self, output: T, post: Self, r: Option<Duration>) -> bool {
        true
    }

    /// How `next_on_task_panic` may step the policy state while returning
    /// `r`. The default relation admits any step; a policy overrides it
    /// with something sharper where its behaviour is predictable.
    open spec fn next_on_panic_ok(pre: Self, post: Self, r: Option<Duration>) -> bool {
        true
    }

    /// The wait before the very first execution, for which no previous
    /// output can exist yet. Answering `None` here means the task is never
    /// run at all.
    fn initial(&self) -> (r: Option<Duration>)
        ensures
            self.initial_ok(r),
    ;

    /// The wait before the next execution, decided after a successful one.
    /// `task_output` is what that execution produced; a policy may branch
    /// on it or ignore it. Answering `None` retires the task.
    fn next(&mut self, task_output: T) -> (r: Option<Duration>)
        ensures
            Self::next_ok(*old(self), task_output, *final(self), r),
    ;

    /// The wait before the next execution when the previous one failed
    /// abruptly, so that no output exists to hand to `next`. Answering
    /// `None` retires the task.
    fn next_on_task_panic(&mut self) -> (r: Option<Duration>)
        ensures
            Self::next_on_panic_ok(*old(self), *final(self), r),
    ;
}

} // verus!
