use vstd::prelude::*;

use super::Schedule;
use crate::duration::Duration;

verus! {

#[verifier::external_type_specification]
#[verifier::external_body]
#[verifier::reject_recursive_types(C)]
pub struct ExExponentialBackoff<C>(backoff::exponential::ExponentialBackoff<C>);

#[verifier::external_type_specification]
#[verifier::external_body]
pub struct ExSystemClock(backoff::SystemClock);

/// The largest value, in nanoseconds, that a [`BackoffSchedule`] accepts
/// for its policy's starting and ceiling intervals: about a century and a
/// half. Any sane retry policy fits with room to spare.
pub const MAX_BACKOFF_INTERVAL_NANOS: u128 = 0x4000_0000_0000_0000;

/// That a policy came from this library's own builder call with exactly
/// this configuration: a starting interval of `initial` nanoseconds, a
/// ceiling of `max` nanoseconds, a give-up budget of `elapsed` nanoseconds
/// if any, the crate's default randomization factor and multiplier, and a
/// start time read from the monotonic clock at the build or at a later
/// reset. The `backoff` source changes none of the three configuration
/// fields after construction, so advancing or resetting such a policy
/// leaves it configured the same way; and with both intervals within
/// [`MAX_BACKOFF_INTERVAL_NANOS`] its internal duration arithmetic — the
/// elapsed time since its start plus one jittered interval — stays far
/// below what a duration can represent, so advancing it returns normally.
/// A policy assembled elsewhere, with its public fields set to extreme
/// values, has no such guarantee, which is why this library only ever
/// holds policies it built itself.
pub uninterp spec fn backoff_configured(
    b: backoff::ExponentialBackoff,
    initial: nat,
    max: nat,
    elapsed: Option<nat>,
) -> bool;

/// Relies on `backoff::ExponentialBackoffBuilder`: builds an exponential
/// policy whose waits start at `initial`, stretch up to `max`, and end —
/// the policy answering `None` from then on — once `max_elapsed` has
/// passed since this build or the latest reset. The crate's default
/// randomization factor and multiplier apply; the start time is read from
/// the monotonic clock now.
#[verifier::external_body]
fn build_backoff(
    initial: &Duration,
    max: &Duration,
    max_elapsed: &Option<Duration>,
) -> (r: backoff::ExponentialBackoff)
    requires
        initial@ <= MAX_BACKOFF_INTERVAL_NANOS,
        max@ <= MAX_BACKOFF_INTERVAL_NANOS,
    ensures
        backoff_configured(
            r,
            initial@,
            max@,
            match *max_elapsed {
                Option::Some(d) => Option::Some(d@),
                Option::None => Option::None,
            },
        ),
{
    let max_elapsed = match max_elapsed {
        Some(d) => Some(std::time::Duration::new(d.as_secs(), d.subsec_nanos())),
        None => None,
    };
    backoff::ExponentialBackoffBuilder::new()
        .with_initial_interval(std::time::Duration::new(initial.as_secs(), initial.subsec_nanos()))
        .with_max_interval(std::time::Duration::new(max.as_secs(), max.subsec_nanos()))
        .with_max_elapsed_time(max_elapsed)
        .build()
}

/// Relies on `backoff::backoff::Backoff::reset` for the exponential
/// policy: winds the current interval back to the starting one and reads
/// the start time from the monotonic clock again — the one operation the
/// ghost reset odometer counts. It writes nothing else: the configuration
/// persists, the policy stays configured as built, and the ghost
/// bookkeeping fields, which no compiled code can touch, carry over.
#[verifier::external_body]
fn reset_backoff(s: &mut BackoffSchedule)
    requires
        backoff_configured(
            old(s).backoff,
            old(s).config@.0,
            old(s).config@.1,
            old(s).config@.2,
        ),
    ensures
        final(s).config == old(s).config,
        backoff_configured(
            final(s).backoff,
            old(s).config@.0,
            old(s).config@.1,
            old(s).config@.2,
        ),
        final(s).resets@ == old(s).resets@ + 1,
        final(s).advances@ == old(s).advances@,
{
    backoff::backoff::Backoff::reset(&mut s.backoff)
}

/// Relies on `backoff::backoff::Backoff::next_backoff` for the
/// exponential policy: one consultation of the policy — the one operation
/// the ghost advance odometer counts — answering the wait before the next
/// execution, or `None` once the give-up budget has passed. The answer
/// mixes the monotonic clock and a random jitter, so nothing is promised
/// of its value. For a policy configured within the interval caps the
/// call returns normally — the current interval never exceeds the bounded
/// starting and ceiling ones, so the elapsed time plus one jittered
/// interval cannot overflow. Only the current interval is written: the
/// configuration persists, and the ghost bookkeeping fields, which no
/// compiled code can touch, carry over but for the advance count.
#[verifier::external_body]
fn next_backoff_wait(s: &mut BackoffSchedule) -> (r: Option<Duration>)
    requires
        backoff_configured(
            old(s).backoff,
            old(s).config@.0,
            old(s).config@.1,
            old(s).config@.2,
        ),
        old(s).config@.0 <= MAX_BACKOFF_INTERVAL_NANOS,
        old(s).config@.1 <= MAX_BACKOFF_INTERVAL_NANOS,
    ensures
        final(s).config == old(s).config,
        backoff_configured(
            final(s).backoff,
            old(s).config@.0,
            old(s).config@.1,
            old(s).config@.2,
        ),
        final(s).resets@ == old(s).resets@,
        final(s).advances@ == old(s).advances@ + 1,
{
    match backoff::backoff::Backoff::next_backoff(&mut s.backoff) {
        Some(d) => Some(Duration::new(d.as_secs(), d.subsec_nanos())),
        None => None,
    }
}

/// Spaces executions out with the `backoff` crate's exponential policy.
///
/// Works for tasks producing a [`Result`]: an `Ok` outcome winds the
/// policy back to its starting interval before advancing it, while an
/// `Err` outcome — or an execution that failed abruptly — advances it
/// without a reset, letting the wait stretch. The consultation relations
/// state exactly that discipline over two ghost odometers, since the
/// waits themselves depend on the clock and a random jitter.
///
/// The driver owning this schedule calls into it through `&mut self`, so
/// the policy's state needs no interior mutability: the single sequential
/// owner mutates it directly.
pub struct BackoffSchedule {
    backoff: backoff::ExponentialBackoff,
    config: Ghost<(nat, nat, Option<nat>)>,
    resets: Ghost<nat>,
    advances: Ghost<nat>,
}

impl BackoffSchedule {
    #[verifier::type_invariant]
    spec fn type_inv(self) -> bool {
        &&& backoff_configured(self.backoff, self.config@.0, self.config@.1, self.config@.2)
        &&& self.config@.0 <= MAX_BACKOFF_INTERVAL_NANOS
        &&& self.config@.1 <= MAX_BACKOFF_INTERVAL_NANOS
    }

    /// The starting interval the held policy was built with, in
    /// nanoseconds.
    pub closed spec fn spec_initial_interval(self) -> nat {
        self.config@.0
    }

    /// The ceiling interval the held policy was built with, in
    /// nanoseconds.
    pub closed spec fn spec_max_interval(self) -> nat {
        self.config@.1
    }

    /// The give-up budget the held policy was built with, in nanoseconds.
    pub closed spec fn spec_max_elapsed(self) -> Option<nat> {
        self.config@.2
    }

    /// How many times the held policy has been wound back to its starting
    /// interval.
    pub closed spec fn spec_resets(self) -> nat {
        self.resets@
    }

    /// How many times the held policy has been consulted for a wait.
    pub closed spec fn spec_advances(self) -> nat {
        self.advances@
    }

    /// A schedule over a fresh exponential policy: after failures the
    /// waits start near `initial_interval` and stretch up to
    /// `max_interval`, and once `max_elapsed_time` has passed — measured
    /// from construction or from the reset an `Ok` outcome causes — the
    /// policy gives up and the task is retired. Both intervals are capped
    /// so that the policy's internal time arithmetic cannot overflow.
    pub fn from_backoff(
        initial_interval: Duration,
        max_interval: Duration,
        max_elapsed_time: Option<Duration>,
    ) -> (r: BackoffSchedule)
        requires
            initial_interval@ <= MAX_BACKOFF_INTERVAL_NANOS,
            max_interval@ <= MAX_BACKOFF_INTERVAL_NANOS,
        ensures
            r.spec_initial_interval() == initial_interval@,
            r.spec_max_interval() == max_interval@,
            r.spec_max_elapsed() == (match max_elapsed_time {
                Option::Some(d) => Option::Some(d@),
                Option::None => Option::None,
            }),
            r.spec_resets() == 0,
            r.spec_advances() == 0,
    {
        let ghost config = (
            initial_interval@,
            max_interval@,
            match max_elapsed_time {
                Option::Some(d) => Option::Some(d@),
                Option::None => Option::None,
            },
        );
        BackoffSchedule {
            backoff: build_backoff(&initial_interval, &max_interval, &max_elapsed_time),
            config: Ghost(config),
            resets: Ghost(0),
            advances: Ghost(0),
        }
    }
}

/// That `post` is `pre` with its policy consulted exactly once more, still
/// configured as built, and wound back to the starting interval just
/// beforehand exactly when `reset` says so.
pub open spec fn backoff_consulted(pre: BackoffSchedule, post: BackoffSchedule, reset: bool) -> bool {
    &&& post.spec_initial_interval() == pre.spec_initial_interval()
    &&& post.spec_max_interval() == pre.spec_max_interval()
    &&& post.spec_max_elapsed() == pre.spec_max_elapsed()
    &&& post.spec_advances() == pre.spec_advances() + 1
    &&& post.spec_resets() == pre.spec_resets() + (if reset {
        1nat
    } else {
        0nat
    })
}

impl<T, E> Schedule<Result<T, E>> for BackoffSchedule {
    /// The first execution is immediate.
    open spec fn initial_ok(&self, r: Option<Duration>) -> bool {
        r matches Option::Some(d) && d@ == 0
    }

    /// An `Ok` output winds the policy back and then advances it; any
    /// other output advances it untouched. The wait's value is the
    /// policy's own (clock and jitter).
    open spec fn next_ok(
        pre: BackoffSchedule,
        output: Result<T, E>,
        post: BackoffSchedule,
        r: Option<Duration>,
    ) -> bool {
        backoff_consulted(pre, post, output is Ok)
    }

    /// An abrupt failure advances the policy with no reset, exactly like
    /// an `Err` output. The wait's value is the policy's own.
    open spec fn next_on_panic_ok(
        pre: BackoffSchedule,
        post: BackoffSchedule,
        r: Option<Duration>,
    ) -> bool {
        backoff_consulted(pre, post, false)
    }

    fn initial(&self) -> (r: Option<Duration>) {
        Option::Some(Duration::from_secs(0))
    }

    fn next(&mut self, task_output: Result<T, E>) -> (r: Option<Duration>) {
        proof {
            use_type_invariant(&*self);
        }
        if task_output.is_ok() {
            reset_backoff(self);
        }
        next_backoff_wait(self)
    }

    fn next_on_task_panic(&mut self) -> (r: Option<Duration>) {
        proof {
            use_type_invariant(&*self);
        }
        next_backoff_wait(self)
    }
}

} // verus!
