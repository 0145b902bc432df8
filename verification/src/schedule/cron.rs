use vstd::prelude::*;

use super::Schedule;
use crate::duration::Duration;
use std::str::FromStr;

verus! {

/// Whether `cron`'s parser accepts an expression. Parsing is deterministic,
/// so this names its verdict; nothing in this crate claims which strings
/// are accepted.
pub uninterp spec fn cron_accepts(s: Seq<char>) -> bool;

/// Relies on `<cron::Schedule as FromStr>::from_str`: parsing a cron
/// expression is a deterministic function of the string alone, succeeding
/// exactly when the expression is acceptable.
#[verifier::external_body]
fn cron_is_valid(s: &str) -> (r: bool)
    ensures
        r == cron_accepts(s@),
{
    cron::Schedule::from_str(s).is_ok()
}

/// Relies on `cron::Schedule::upcoming` and `chrono::Utc::now`: the wait
/// from the present moment until the expression's next matching instant,
/// clipped to zero if that instant has just passed, or `None` when no
/// instant ever matches again. The result depends on the clock, so nothing
/// is promised of its value. Reading the civil clock assumes the system
/// time is at or after the epoch, as `Utc::now` itself does.
#[verifier::external_body]
fn upcoming_wait(s: &str) -> (r: Option<Duration>)
    requires
        cron_accepts(s@),
{
    let cron = match cron::Schedule::from_str(s) {
        Ok(cron) => cron,
        Err(_) => return None,
    };
    let dt = match cron.upcoming(chrono::Utc).next() {
        Some(dt) => dt,
        None => return None,
    };
    let now = chrono::Utc::now();
    let delta = dt.signed_duration_since(&now);
    let d = delta.to_std().unwrap_or(std::time::Duration::from_secs(0));
    Some(Duration::new(d.as_secs(), d.subsec_nanos()))
}

/// The expression handed to [`CronSchedule::from_cron_str`] is not a valid
/// cron expression. The parser's own diagnostic does not cross the
/// boundary: this error says only that the expression was rejected.
#[derive(Clone, Copy, Debug, PartialEq, Eq, Structural)]
pub struct CronParseError;

/// Schedules executions at the instants described by a cron expression:
/// every wait it hands out runs from the present moment to the
/// expression's next matching instant. The expression is validated when
/// the schedule is built and held as the schedule's own state.
pub struct CronSchedule {
    expression: String,
}

impl CronSchedule {
    #[verifier::type_invariant]
    spec fn type_inv(self) -> bool {
        cron_accepts(self.expression@)
    }

    /// The cron expression this schedule follows.
    pub closed spec fn spec_expression(self) -> Seq<char> {
        self.expression@
    }

    /// Builds a [`CronSchedule`] from a cron expression, succeeding if and
    /// only if the expression parses.
    pub fn from_cron_str(cron_str: &str) -> (r: Result<CronSchedule, CronParseError>)
        ensures
            r is Ok <==> cron_accepts(cron_str@),
            r matches Result::Ok(s) ==> s.spec_expression() == cron_str@,
    {
        if cron_is_valid(cron_str) {
            Result::Ok(CronSchedule::from_cron_schedule(cron_str))
        } else {
            Result::Err(CronParseError)
        }
    }

    /// Builds a [`CronSchedule`] from an expression already known to be
    /// acceptable — the counterpart of handing over a schedule parsed in
    /// advance. [`CronSchedule::from_cron_str`] performs the check and
    /// then comes here.
    pub fn from_cron_schedule(expression: &str) -> (r: CronSchedule)
        requires
            cron_accepts(expression@),
        ensures
            r.spec_expression() == expression@,
    {
        CronSchedule { expression: expression.to_owned() }
    }

    /// The wait until the expression's next matching instant, if any.
    fn calculate_next(&self) -> Option<Duration> {
        proof {
            use_type_invariant(self);
        }
        upcoming_wait(self.expression.as_str())
    }
}

impl<T> Schedule<T> for CronSchedule {
    /// The wait depends on the clock, so any answer is admissible.
    open spec fn initial_ok(&self, r: Option<Duration>) -> bool {
        true
    }

    /// The expression itself never changes; the wait depends on the clock.
    open spec fn next_ok(
        pre: CronSchedule,
        output: T,
        post: CronSchedule,
        r: Option<Duration>,
    ) -> bool {
        post == pre
    }

    /// The expression itself never changes; the wait depends on the clock.
    open spec fn next_on_panic_ok(
        pre: CronSchedule,
        post: CronSchedule,
        r: Option<Duration>,
    ) -> bool {
        post == pre
    }

    fn initial(&self) -> (r: Option<Duration>) {
        self.calculate_next()
    }

    fn next(&mut self, _task_output: T) -> (r: Option<Duration>) {
        self.calculate_next()
    }

    fn next_on_task_panic(&mut self) -> (r: Option<Duration>) {
        self.calculate_next()
    }
}

} // verus!
