use vstd::prelude::*;

use crate::duration::Duration;
use crate::schedule::Schedule;

verus! {

/// The outcome of one isolated execution of a task, as the runtime adapter
/// reports it back to the driver.
pub enum Outcome<T> {
    /// The task's `run` returned this value.
    Completed(T),
    /// The task failed abruptly (a panic, or the execution unit could not
    /// be joined at all), so no value is available.
    Failed,
    /// The execution unit was aborted from outside by a cancellation.
    Aborted,
}

/// The state of a driver between executions: either it owes the runtime a
/// wait of the given length before the next execution, or the task will
/// never run again under this driver.
#[derive(Clone, Copy, Debug)]
pub enum DriverState {
    AwaitingDelay(Duration),
    Terminated,
}

/// The driver state that a schedule's answer `r` prescribes.
pub open spec fn delay_state(r: Option<Duration>) -> DriverState {
    match r {
        Option::Some(d) => DriverState::AwaitingDelay(d),
        Option::None => DriverState::Terminated,
    }
}

/// How one consultation of the schedule may resolve: after `outcome`, the
/// schedule steps from `pre` to `post` and the driver enters `state`. An
/// aborted execution never consults the schedule and terminates the driver
/// at once.
pub open spec fn consult_ok<T, S: Schedule<T>>(
    pre: S,
    outcome: Outcome<T>,
    post: S,
    state: DriverState,
) -> bool {
    match outcome {
        Outcome::Completed(v) => match state {
            DriverState::AwaitingDelay(d) => S::next_ok(pre, v, post, Option::Some(d)),
            DriverState::Terminated => S::next_ok(pre, v, post, Option::None),
        },
        Outcome::Failed => match state {
            DriverState::AwaitingDelay(d) => S::next_on_panic_ok(pre, post, Option::Some(d)),
            DriverState::Terminated => S::next_on_panic_ok(pre, post, Option::None),
        },
        Outcome::Aborted => post == pre && state is Terminated,
    }
}

/// A complete account of one driver's life so far. Starting from the
/// schedule `init`, the driver waited `delays[i]` before execution `i`,
/// observed `outcomes[i]` for it, and consulted the schedule while it held
/// state `scheds[i]`; it now holds schedule state `sched` in driver state
/// `state`. Every consultation along the way obeyed the schedule's own
/// relations, and an aborted execution consulted nothing and terminated.
pub open spec fn valid_run<T, S: Schedule<T>>(
    init: S,
    outcomes: Seq<Outcome<T>>,
    delays: Seq<Duration>,
    scheds: Seq<S>,
    sched: S,
    state: DriverState,
) -> bool
    decreases outcomes.len(),
{
    if outcomes.len() == 0 {
        &&& delays.len() == 0
        &&& scheds.len() == 0
        &&& sched == init
        &&& match state {
            DriverState::AwaitingDelay(d) => init.initial_ok(Option::Some(d)),
            DriverState::Terminated => init.initial_ok(Option::None),
        }
    } else {
        &&& delays.len() == outcomes.len()
        &&& scheds.len() == outcomes.len()
        &&& valid_run(
            init,
            outcomes.drop_last(),
            delays.drop_last(),
            scheds.drop_last(),
            scheds.last(),
            DriverState::AwaitingDelay(delays.last()),
        )
        &&& consult_ok(scheds.last(), outcomes.last(), sched, state)
    }
}

/// Consults the schedule about one resolved execution, exactly as the
/// outcome demands: a value goes to `next`, an abrupt failure to
/// `next_on_task_panic`, and an abort terminates without consulting the
/// schedule at all.
pub fn handle_task_result<T, S: Schedule<T>>(outcome: Outcome<T>, schedule: &mut S) -> (r: Option<
    Duration,
>)
    ensures
        consult_ok(*old(schedule), outcome, *final(schedule), delay_state(r)),
{
    match outcome {
        Outcome::Completed(v) => schedule.next(v),
        Outcome::Failed => schedule.next_on_task_panic(),
        Outcome::Aborted => Option::None,
    }
}

/// The per-task execution loop's state machine. One driver owns one
/// schedule, exclusively; a runtime adapter repeatedly asks it for the
/// pending wait, performs the wait and one isolated execution, and hands
/// the outcome back through `step`. The ghost history records every
/// outcome, every waited delay and every consulted schedule state, and the
/// driver's invariant says the whole history is a valid run of the owned
/// schedule.
pub struct Driver<T, S: Schedule<T>> {
    schedule: S,
    state: DriverState,
    init: Ghost<S>,
    outcomes: Ghost<Seq<Outcome<T>>>,
    delays: Ghost<Seq<Duration>>,
    scheds: Ghost<Seq<S>>,
}

impl<T, S: Schedule<T>> Driver<T, S> {
    /// The schedule exactly as it was handed in at registration.
    pub closed spec fn spec_init(self) -> S {
        self.init@
    }

    /// The outcomes of all executions so far, in execution order.
    pub closed spec fn spec_outcomes(self) -> Seq<Outcome<T>> {
        self.outcomes@
    }

    /// The waits performed so far: `spec_delays()[i]` was waited
    /// immediately before execution `i`.
    pub closed spec fn spec_delays(self) -> Seq<Duration> {
        self.delays@
    }

    /// The schedule states consulted so far: execution `i`'s outcome was
    /// put to the schedule while it held state `spec_scheds()[i]`.
    pub closed spec fn spec_scheds(self) -> Seq<S> {
        self.scheds@
    }

    /// The current schedule state.
    pub closed spec fn spec_schedule(self) -> S {
        self.schedule
    }

    /// The current driver state.
    pub closed spec fn spec_state(self) -> DriverState {
        self.state
    }

    /// The driver's invariant: its history is a valid run.
    pub open spec fn wf(self) -> bool {
        valid_run(
            self.spec_init(),
            self.spec_outcomes(),
            self.spec_delays(),
            self.spec_scheds(),
            self.spec_schedule(),
            self.spec_state(),
        )
    }

    /// Couples a fresh driver to `schedule`. The initial state comes from
    /// `schedule.initial()`: a wait of the returned length, or immediate
    /// termination if the schedule never wants the task run.
    pub fn new(schedule: S) -> (d: Driver<T, S>)
        ensures
            d.wf(),
            d.spec_init() == schedule,
            d.spec_outcomes() == Seq::<Outcome<T>>::empty(),
            d.spec_delays() == Seq::<Duration>::empty(),
            d.spec_scheds() == Seq::<S>::empty(),
    {
        let ghost init = schedule;
        let r = schedule.initial();
        let state = match r {
            Option::Some(dur) => DriverState::AwaitingDelay(dur),
            Option::None => DriverState::Terminated,
        };
        Driver {
            schedule,
            state,
            init: Ghost(init),
            outcomes: Ghost(Seq::empty()),
            delays: Ghost(Seq::empty()),
            scheds: Ghost(Seq::empty()),
        }
    }

    /// The schedule as the driver currently holds it.
    pub fn schedule(&self) -> (r: &S)
        ensures
            *r == self.spec_schedule(),
    {
        &self.schedule
    }

    /// The wait the driver owes before the next execution, or `None` if it
    /// has terminated and the task will never run again.
    pub fn pending_delay(&self) -> (r: Option<Duration>)
        ensures
            match self.spec_state() {
                DriverState::AwaitingDelay(d) => r == Option::Some(d),
                DriverState::Terminated => r is None,
            },
    {
        match self.state {
            DriverState::AwaitingDelay(d) => Option::Some(d),
            DriverState::Terminated => Option::None,
        }
    }

    /// Advances the driver by one resolved execution: the pending wait was
    /// performed, the task ran in isolation, and `outcome` is how it ended.
    pub fn step(&mut self, outcome: Outcome<T>)
        requires
            old(self).wf(),
            old(self).spec_state() is AwaitingDelay,
        ensures
            final(self).wf(),
            final(self).spec_init() == old(self).spec_init(),
            final(self).spec_outcomes() == old(self).spec_outcomes().push(outcome),
            final(self).spec_delays() == old(self).spec_delays().push(old(self).spec_state()->0),
            final(self).spec_scheds() == old(self).spec_scheds().push(old(self).spec_schedule()),
            consult_ok(
                old(self).spec_schedule(),
                outcome,
                final(self).spec_schedule(),
                final(self).spec_state(),
            ),
            outcome is Aborted ==> final(self).spec_state() is Terminated
                && final(self).spec_schedule() == old(self).spec_schedule(),
    {
        let ghost pre = *self;
        let ghost o = outcome;
        let r = handle_task_result(outcome, &mut self.schedule);
        self.state = match r {
            Option::Some(dur) => DriverState::AwaitingDelay(dur),
            Option::None => DriverState::Terminated,
        };
        self.outcomes = Ghost(self.outcomes@.push(o));
        self.delays = Ghost(self.delays@.push(pre.state->0));
        self.scheds = Ghost(self.scheds@.push(pre.schedule));
        proof {
            assert(self.outcomes@.drop_last() =~= pre.outcomes@);
            assert(self.delays@.drop_last() =~= pre.delays@);
            assert(self.scheds@.drop_last() =~= pre.scheds@);
        }
    }
}

} // verus!
