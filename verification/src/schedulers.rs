use vstd::prelude::*;

use crate::Task;
use crate::driver::Driver;
use crate::driver::Outcome;
use crate::schedule::Schedule;

verus! {

/// The handle a [`Scheduler`] hands out for each registration; presenting
/// it back is how a caller cancels that task. Identifiers are allocated by
/// counting up and are never reused within one scheduler's lifetime, even
/// after a cancellation.
#[derive(Clone, Copy, Debug, Hash, PartialEq, Eq, Structural)]
pub struct TaskIdentifier(usize);

impl View for TaskIdentifier {
    type V = nat;

    closed spec fn view(&self) -> nat {
        self.0 as nat
    }
}

impl Default for TaskIdentifier {
    /// The first identifier a fresh scheduler hands out.
    fn default() -> (r: TaskIdentifier)
        ensures
            r@ == 0,
    {
        TaskIdentifier(0)
    }
}

impl TaskIdentifier {
    /// The identifier's numeric value.
    pub fn as_usize(&self) -> (r: usize)
        ensures
            r == self@,
    {
        self.0
    }

    /// The identifier that follows this one.
    pub fn next(&self) -> (r: TaskIdentifier)
        requires
            self@ < usize::MAX,
        ensures
            r@ == self@ + 1,
    {
        TaskIdentifier(self.0 + 1)
    }
}

/// The identifier handed to a cancellation was not registered with this
/// scheduler, or was cancelled already.
#[derive(Clone, Copy, Debug, PartialEq, Eq, Structural)]
pub struct NotFoundError;

/// Everything a runtime adapter needs to run one registered task: the task
/// itself and the driver that owns its schedule. The adapter performs the
/// driver's pending waits, runs the task in isolated execution units, and
/// feeds each outcome back into the driver.
pub struct Registration<T, K, S: Schedule<T>> {
    /// The registered unit of work.
    pub task: K,
    /// The driver coupling that work to its schedule.
    pub driver: Driver<T, S>,
}

/// The core scheduler: a registry that allocates task identifiers,
/// couples each registered task to a driver for its schedule, and decides
/// cancellations. Running the drivers — waits, isolated executions, aborts
/// — is the runtime adapter's business; this registry is the single
/// authority on which identifiers are active and which identifier comes
/// next.
pub struct Scheduler {
    next_identifier: TaskIdentifier,
    active: Vec<TaskIdentifier>,
}

impl Scheduler {
    /// The identifier the next registration will receive.
    pub closed spec fn spec_next_id(self) -> nat {
        self.next_identifier@
    }

    /// The identifiers of the registered, not yet cancelled tasks, in
    /// registration order.
    pub closed spec fn spec_active(self) -> Seq<TaskIdentifier> {
        self.active@
    }

    /// The registry's invariant: every active identifier was allocated
    /// before the counter's current position, and no identifier is
    /// registered twice.
    pub open spec fn wf(self) -> bool {
        &&& forall|i: int|
            0 <= i < self.spec_active().len() ==> (#[trigger] self.spec_active()[i])@
                < self.spec_next_id()
        &&& forall|i: int, j: int|
            0 <= i < j < self.spec_active().len() ==> self.spec_active()[i]
                != self.spec_active()[j]
    }

    /// An empty registry whose first identifier is the default one.
    pub fn new() -> (s: Scheduler)
        ensures
            s.wf(),
            s.spec_active() == Seq::<TaskIdentifier>::empty(),
            s.spec_next_id() == 0,
    {
        Scheduler { next_identifier: TaskIdentifier::default(), active: Vec::new() }
    }

    /// Whether the identifier counter still has room for a registration.
    pub fn has_capacity(&self) -> (r: bool)
        ensures
            r == (self.spec_next_id() < usize::MAX),
    {
        self.next_identifier.0 < usize::MAX
    }

    /// Allocates a fresh identifier and records it as active.
    fn allocate(&mut self) -> (id: TaskIdentifier)
        requires
            old(self).wf(),
            old(self).spec_next_id() < usize::MAX,
        ensures
            final(self).wf(),
            id@ == old(self).spec_next_id(),
            !old(self).spec_active().contains(id),
            final(self).spec_active() == old(self).spec_active().push(id),
            final(self).spec_next_id() == old(self).spec_next_id() + 1,
    {
        let id = self.next_identifier;
        self.next_identifier = id.next();
        self.active.push(id);
        proof {
            let pre = old(self).spec_active();
            assert forall|i: int| 0 <= i < pre.len() implies pre[i] != id by {
                assert(pre[i]@ < id@);
            }
            if pre.contains(id) {
                let w = choose|i: int| 0 <= i < pre.len() && pre[i] == id;
                assert(pre[w] != id);
            }
        }
        id
    }

    /// Takes in a blocking [`Task`] and couples it to `schedule`.
    ///
    /// Hands back a fresh [`TaskIdentifier`], under which the task can
    /// later be cancelled, together with the registration for the runtime
    /// adapter: the task and a fresh driver owning `schedule`. The
    /// adapter is expected to run the task's isolated execution units on
    /// a pool reserved for blocking work.
    pub fn add_sync_task<T, K: Task<T>, S: Schedule<T>>(
        &mut self,
        task: K,
        schedule: S,
    ) -> (r: (TaskIdentifier, Registration<T, K, S>))
        requires
            old(self).wf(),
            old(self).spec_next_id() < usize::MAX,
        ensures
            final(self).wf(),
            r.0@ == old(self).spec_next_id(),
            !old(self).spec_active().contains(r.0),
            final(self).spec_active() == old(self).spec_active().push(r.0),
            final(self).spec_next_id() == old(self).spec_next_id() + 1,
            r.1.driver.wf(),
            r.1.driver.spec_init() == schedule,
            r.1.driver.spec_outcomes() == Seq::<Outcome<T>>::empty(),
            r.1.task == task,
    {
        let id = self.allocate();
        (id, Registration { task, driver: Driver::new(schedule) })
    }

    /// Takes in an asynchronous task and couples it to `schedule`.
    ///
    /// The task type is opaque to the registry: an asynchronous task's
    /// `run` hands back an awaitable, which only the runtime adapter can
    /// drive, so the registry passes the task through untouched. The
    /// returned registration carries it beside a fresh driver owning
    /// `schedule`, exactly as for a synchronous task.
    pub fn add_async_task<T, K, S: Schedule<T>>(&mut self, task: K, schedule: S) -> (r: (
        TaskIdentifier,
        Registration<T, K, S>,
    ))
        requires
            old(self).wf(),
            old(self).spec_next_id() < usize::MAX,
        ensures
            final(self).wf(),
            r.0@ == old(self).spec_next_id(),
            !old(self).spec_active().contains(r.0),
            final(self).spec_active() == old(self).spec_active().push(r.0),
            final(self).spec_next_id() == old(self).spec_next_id() + 1,
            r.1.driver.wf(),
            r.1.driver.spec_init() == schedule,
            r.1.driver.spec_outcomes() == Seq::<Outcome<T>>::empty(),
            r.1.task == task,
    {
        let id = self.allocate();
        (id, Registration { task, driver: Driver::new(schedule) })
    }

    /// The index of `identifier` among the active ones, if it is active.
    fn find_index(ids: &Vec<TaskIdentifier>, identifier: TaskIdentifier) -> (r: Option<usize>)
        ensures
            match r {
                Option::Some(i) => 0 <= i < ids@.len() && ids@[i as int] == identifier,
                Option::None => !ids@.contains(identifier),
            },
    {
        let n = ids.len();
        let mut i: usize = 0;
        while i < n
            invariant
                0 <= i <= n,
                n == ids@.len(),
                forall|j: int| 0 <= j < i ==> ids@[j] != identifier,
            decreases n - i,
        {
            if ids[i] == identifier {
                return Option::Some(i);
            }
            i += 1;
        }
        proof {
            if ids@.contains(identifier) {
                let w = choose|j: int| 0 <= j < ids@.len() && ids@[j] == identifier;
                assert(ids@[w] != identifier);
            }
        }
        Option::None
    }

    /// Withdraws a task from all future scheduling. An execution that is
    /// already under way may still run until its runtime adapter aborts
    /// it.
    ///
    /// Returns `Ok(())`, and removes the identifier from the registry, if
    /// and only if the identifier was active. Otherwise nothing changes
    /// and a not-found error is returned; in particular, cancelling the
    /// same identifier a second time reports not-found rather than
    /// touching any other task.
    pub fn cancel_task(&mut self, identifier: TaskIdentifier) -> (r: Result<(), NotFoundError>)
        requires
            old(self).wf(),
        ensures
            final(self).wf(),
            final(self).spec_next_id() == old(self).spec_next_id(),
            r is Ok <==> old(self).spec_active().contains(identifier),
            final(self).spec_active() == old(self).spec_active().remove_value(identifier),
            !final(self).spec_active().contains(identifier),
    {
        match Self::find_index(&self.active, identifier) {
            Option::Some(i) => {
                let ghost pre = self.active@;
                self.active.remove(i);
                proof {
                    pre.index_of_first_ensures(identifier);
                    let k = pre.index_of_first(identifier)->0;
                    assert(pre[k] == identifier && pre[i as int] == identifier);
                    assert(k == i);
                    lemma_removal_keeps_wf(pre, old(self).spec_next_id(), i as int);
                    assert forall|j: int|
                        0 <= j < self.active@.len() implies self.active@[j] != identifier by {
                        if j < i {
                            assert(pre[j] == self.active@[j]);
                        } else {
                            assert(pre[j + 1] == self.active@[j]);
                        }
                    }
                    if self.active@.contains(identifier) {
                        let w = choose|j: int|
                            0 <= j < self.active@.len() && self.active@[j] == identifier;
                        assert(self.active@[w] != identifier);
                    }
                }
                Result::Ok(())
            },
            Option::None => {
                proof {
                    self.active@.index_of_first_ensures(identifier);
                }
                Result::Err(NotFoundError)
            },
        }
    }
}

/// Removing one entry of a duplicate-free, bounded registry keeps it
/// duplicate-free and bounded.
proof fn lemma_removal_keeps_wf(pre: Seq<TaskIdentifier>, bound: nat, at: int)
    requires
        0 <= at < pre.len(),
        forall|i: int| 0 <= i < pre.len() ==> (#[trigger] pre[i])@ < bound,
        forall|i: int, j: int| 0 <= i < j < pre.len() ==> pre[i] != pre[j],
    ensures
        forall|i: int| 0 <= i < pre.remove(at).len() ==> (#[trigger] pre.remove(at)[i])@ < bound,
        forall|i: int, j: int|
            0 <= i < j < pre.remove(at).len() ==> pre.remove(at)[i] != pre.remove(at)[j],
{
    let post = pre.remove(at);
    assert forall|i: int| 0 <= i < post.len() implies (#[trigger] post[i])@ < bound by {
        if i < at {
            assert(post[i] == pre[i]);
        } else {
            assert(post[i] == pre[i + 1]);
        }
    }
    assert forall|i: int, j: int| 0 <= i < j < post.len() implies post[i] != post[j] by {
        let pi: int = if i < at { i } else { i + 1 };
        let pj: int = if j < at { j } else { j + 1 };
        assert(post[i] == pre[pi] && post[j] == pre[pj]);
    }
}

} // verus!
