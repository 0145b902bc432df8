use vstd::prelude::*;

use crate::driver::DriverState;
use crate::driver::Outcome;
use crate::driver::consult_ok;
use crate::driver::valid_run;
use crate::duration::Duration;
use crate::schedule::IntervalSchedule;
use crate::schedule::OneShot;
use crate::schedule::Schedule;

verus! {

/// The total waited time of a run, in nanoseconds.
pub open spec fn total_nanos(delays: Seq<Duration>) -> nat
    decreases delays.len(),
{
    if delays.len() == 0 {
        0
    } else {
        total_nanos(delays.drop_last()) + delays.last()@
    }
}

proof fn lemma_total_nanos_constant(delays: Seq<Duration>, v: nat)
    requires
        forall|i: int| 0 <= i < delays.len() ==> delays[i]@ == v,
    ensures
        total_nanos(delays) == delays.len() * v,
    decreases delays.len(),
{
    if delays.len() > 0 {
        lemma_total_nanos_constant(delays.drop_last(), v);
        assert(delays.len() * v == (delays.len() - 1) * v + v)
            by (nonlinear_arith);
    }
}

/// Output piping: in any run, the schedule is consulted exactly once per
/// execution, in execution order, and the consultation for execution `i`
/// receives exactly that execution's outcome — in particular, a completed
/// execution's own return value goes to `next`. The chain starts at the
/// registered schedule, each consultation starts from the state the
/// previous one left behind, and the first wait is the one `initial`
/// prescribed.
pub proof fn lemma_output_piping<T, S: Schedule<T>>(
    init: S,
    outcomes: Seq<Outcome<T>>,
    delays: Seq<Duration>,
    scheds: Seq<S>,
    sched: S,
    state: DriverState,
)
    requires
        valid_run(init, outcomes, delays, scheds, sched, state),
    ensures
        delays.len() == outcomes.len(),
        scheds.len() == outcomes.len(),
        outcomes.len() > 0 ==> scheds[0] == init,
        outcomes.len() > 0 ==> init.initial_ok(Option::Some(delays[0])),
        outcomes.len() == 0 ==> sched == init,
        outcomes.len() == 0 ==> (state matches DriverState::AwaitingDelay(d) ==> init.initial_ok(
            Option::Some(d),
        )),
        forall|i: int|
            0 <= i < outcomes.len() ==> consult_ok(
                scheds[i],
                outcomes[i],
                if i + 1 < outcomes.len() {
                    scheds[i + 1]
                } else {
                    sched
                },
                if i + 1 < outcomes.len() {
                    DriverState::AwaitingDelay(delays[i + 1])
                } else {
                    state
                },
            ),
    decreases outcomes.len(),
{
    if outcomes.len() > 0 {
        let n = outcomes.len() as int;
        lemma_output_piping(
            init,
            outcomes.drop_last(),
            delays.drop_last(),
            scheds.drop_last(),
            scheds.last(),
            DriverState::AwaitingDelay(delays.last()),
        );
        if n == 1 {
            assert(scheds[0] == init);
        } else {
            assert(delays.drop_last()[0] == delays[0]);
            assert(scheds.drop_last()[0] == scheds[0]);
        }
        assert forall|i: int| 0 <= i < n implies consult_ok(
            scheds[i],
            outcomes[i],
            if i + 1 < n {
                scheds[i + 1]
            } else {
                sched
            },
            if i + 1 < n {
                DriverState::AwaitingDelay(delays[i + 1])
            } else {
                state
            },
        ) by {
            if i < n - 1 {
                assert(outcomes.drop_last()[i] == outcomes[i]);
                assert(scheds.drop_last()[i] == scheds[i]);
                if i + 1 < n - 1 {
                    assert(scheds.drop_last()[i + 1] == scheds[i + 1]);
                    assert(delays.drop_last()[i + 1] == delays[i + 1]);
                }
            }
        }
    }
}

/// An interval schedule built with `every` prescribes its interval for
/// every single wait of any run: the wait before the first execution, the
/// wait after every completed execution, and the wait after every failed
/// one. The schedule's state never changes, and the pending wait, if the
/// driver is still live, is again the interval.
pub proof fn lemma_interval_waits<T>(
    init: IntervalSchedule,
    outcomes: Seq<Outcome<T>>,
    delays: Seq<Duration>,
    scheds: Seq<IntervalSchedule>,
    sched: IntervalSchedule,
    state: DriverState,
)
    requires
        valid_run::<T, IntervalSchedule>(init, outcomes, delays, scheds, sched, state),
        !init.has_initial_delay(),
    ensures
        sched == init,
        delays.len() == outcomes.len(),
        forall|i: int| 0 <= i < delays.len() ==> delays[i] == init.spec_interval(),
        state matches DriverState::AwaitingDelay(d) ==> d == init.spec_interval(),
    decreases outcomes.len(),
{
    init.lemma_initial_is_interval();
    if outcomes.len() > 0 {
        lemma_interval_waits(
            init,
            outcomes.drop_last(),
            delays.drop_last(),
            scheds.drop_last(),
            scheds.last(),
            DriverState::AwaitingDelay(delays.last()),
        );
        assert forall|i: int| 0 <= i < delays.len() implies delays[i] == init.spec_interval() by {
            if i < delays.len() - 1 {
                assert(delays.drop_last()[i] == delays[i]);
            }
        }
    }
}

/// Interval upper bound: an interval schedule of period `P` admits at most
/// `budget / P` executions within any total waiting budget, because every
/// execution is preceded by a full wait of `P`. Wall-clock time only adds
/// the executions' own running times on top of the waits, so a run observed
/// for wall-clock time `D` has at most `D / P` executions.
pub proof fn lemma_interval_execution_upper_bound<T>(
    init: IntervalSchedule,
    outcomes: Seq<Outcome<T>>,
    delays: Seq<Duration>,
    scheds: Seq<IntervalSchedule>,
    sched: IntervalSchedule,
    state: DriverState,
    budget: nat,
)
    requires
        valid_run::<T, IntervalSchedule>(init, outcomes, delays, scheds, sched, state),
        !init.has_initial_delay(),
        init.spec_interval()@ > 0,
        total_nanos(delays) <= budget,
    ensures
        outcomes.len() <= budget / init.spec_interval()@,
{
    let p = init.spec_interval()@;
    let n = outcomes.len();
    lemma_interval_waits(init, outcomes, delays, scheds, sched, state);
    lemma_total_nanos_constant(delays, p);
    vstd::arithmetic::div_mod::lemma_div_is_ordered((n * p) as int, budget as int, p as int);
    vstd::arithmetic::div_mod::lemma_div_multiples_vanish(n as int, p as int);
    assert(n * p == p * n) by (nonlinear_arith);
}

/// Panic resilience: under any interval schedule, a run in which no
/// execution was aborted from outside never terminates the driver — however
/// many executions failed, the driver still owes a wait and will invoke the
/// task again. Only the schedule or a cancellation can stop the task, never
/// a failure by itself.
pub proof fn lemma_interval_survives_failures<T>(
    init: IntervalSchedule,
    outcomes: Seq<Outcome<T>>,
    delays: Seq<Duration>,
    scheds: Seq<IntervalSchedule>,
    sched: IntervalSchedule,
    state: DriverState,
)
    requires
        valid_run::<T, IntervalSchedule>(init, outcomes, delays, scheds, sched, state),
        forall|i: int| 0 <= i < outcomes.len() ==> !(outcomes[i] is Aborted),
    ensures
        state is AwaitingDelay,
        sched == init,
    decreases outcomes.len(),
{
    if outcomes.len() > 0 {
        assert forall|i: int| 0 <= i < outcomes.drop_last().len() implies !(outcomes.drop_last()[i]
            is Aborted) by {
            assert(outcomes.drop_last()[i] == outcomes[i]);
        }
        lemma_interval_survives_failures(
            init,
            outcomes.drop_last(),
            delays.drop_last(),
            scheds.drop_last(),
            scheds.last(),
            DriverState::AwaitingDelay(delays.last()),
        );
        assert(!(outcomes.last() is Aborted));
    }
}

/// One-shot exactly once: under a one-shot schedule, any run holds at most
/// one execution. While none has happened the driver owes exactly the
/// configured delay; once one has happened — whether it completed, failed
/// or was aborted — the driver is terminated, so no further execution can
/// ever occur.
pub proof fn lemma_one_shot_at_most_once<T>(
    init: OneShot,
    outcomes: Seq<Outcome<T>>,
    delays: Seq<Duration>,
    scheds: Seq<OneShot>,
    sched: OneShot,
    state: DriverState,
)
    requires
        valid_run::<T, OneShot>(init, outcomes, delays, scheds, sched, state),
    ensures
        outcomes.len() <= 1,
        sched == init,
        delays.len() == outcomes.len(),
        outcomes.len() == 0 ==> state == DriverState::AwaitingDelay(init.spec_delay()),
        outcomes.len() == 1 ==> state is Terminated,
        outcomes.len() == 1 ==> delays[0] == init.spec_delay(),
    decreases outcomes.len(),
{
    if outcomes.len() > 0 {
        lemma_one_shot_at_most_once(
            init,
            outcomes.drop_last(),
            delays.drop_last(),
            scheds.drop_last(),
            scheds.last(),
            DriverState::AwaitingDelay(delays.last()),
        );
    }
}

} // verus!
