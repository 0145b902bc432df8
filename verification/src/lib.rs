//! A library for recurring work: register a task together with an
//! independent timing policy, and let a driver carry it through repeated
//! executions — surviving the task's failures and stopping cleanly on
//! cancellation.
//!
//! The pieces fit together like this. A [`Task`] is the work itself. A
//! [`Schedule`] decides, after each execution, how long to wait before the
//! next one — built-in policies cover fixed intervals
//! ([`IntervalSchedule`], [`PeriodicSchedule`]), a single delayed run
//! ([`OneShot`]), cron expressions ([`CronSchedule`]) and exponential
//! backoff ([`BackoffSchedule`]). A [`Driver`] owns one schedule and
//! advances through wait → execute → consult, one resolved execution at a
//! time; its contracts pin down exactly which consultation every outcome
//! triggers, and its ghost history carries proofs such as the interval
//! execution bound and the one-shot at-most-once guarantee. The
//! [`Scheduler`] is the registry in front of it all: it allocates
//! [`TaskIdentifier`]s, couples tasks to drivers, and decides
//! cancellations.
//!
//! Waits, isolated execution units and aborts are a runtime adapter's
//! business: an adapter loops over [`Driver::pending_delay`], performs the
//! wait, runs the task, and hands the [`Outcome`] to [`Driver::step`].

mod driver;
mod duration;
mod laws;
mod schedule;
mod schedulers;

pub use driver::Driver;
pub use driver::DriverState;
pub use driver::Outcome;
pub use driver::consult_ok;
pub use driver::delay_state;
pub use driver::handle_task_result;
pub use driver::valid_run;
pub use duration::Duration;
pub use laws::lemma_interval_execution_upper_bound;
pub use laws::lemma_interval_survives_failures;
pub use laws::lemma_interval_waits;
pub use laws::lemma_one_shot_at_most_once;
pub use laws::lemma_output_piping;
pub use laws::total_nanos;
pub use schedule::BackoffSchedule;
pub use schedule::CronParseError;
pub use schedule::CronSchedule;
pub use schedule::IntervalSchedule;
pub use schedule::OneShot;
pub use schedule::PeriodicSchedule;
pub use schedule::Schedule;
pub use schedulers::NotFoundError;
pub use schedulers::Registration;
pub use schedulers::Scheduler;
pub use schedulers::TaskIdentifier;

use vstd::prelude::*;

verus! {

/// A blocking unit of work, run to completion on an ordinary thread each
/// time its schedule says so.
///
/// The engine never calls `run` itself: it hands the task, together with
/// its driver, to a runtime adapter that executes `run` in an isolated
/// unit of work. `run` may therefore fail abruptly without affecting the
/// driver; the driver only ever sees the outcome.
pub trait Task<T> {
    /// Performs one execution of the work.
    fn run(&self) -> T;
}

/// Adds two machine-word counters.
pub fn add(a: usize, b: usize) -> (r: usize)
    requires
        a + b <= usize::MAX,
    ensures
        r == a + b,
{
    a + b
}

} // verus!
