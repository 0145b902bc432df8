use periodically::Duration;
use periodically::IntervalSchedule;
use periodically::NotFoundError;
use periodically::OneShot;
use periodically::Scheduler;
use periodically::Task;

struct NoopTask;

impl Task<()> for NoopTask {
    fn run(&self) {}
}

#[test]
fn adds() {
    assert_eq!(periodically::add(1, 2), 3);
}

#[test]
fn registration_returns_distinct_identifiers() {
    let mut scheduler = Scheduler::new();
    let (first, _reg_a) = scheduler.add_sync_task(
        NoopTask,
        IntervalSchedule::every(Duration::from_millis(10)),
    );
    let (second, _reg_b) = scheduler.add_sync_task(
        NoopTask,
        OneShot::after(Duration::from_millis(10)),
    );
    assert_ne!(first, second);
}

#[test]
fn cancelling_twice_reports_not_found() {
    let mut scheduler = Scheduler::new();
    let (id, _reg) = scheduler.add_sync_task(
        NoopTask,
        IntervalSchedule::every(Duration::from_millis(10)),
    );
    assert_eq!(scheduler.cancel_task(id), Ok(()));
    assert_eq!(scheduler.cancel_task(id), Err(NotFoundError));
}

#[test]
fn cancelling_an_unknown_identifier_reports_not_found() {
    let mut scheduler = Scheduler::new();
    let (id, _reg) = scheduler.add_sync_task(
        NoopTask,
        IntervalSchedule::every(Duration::from_millis(10)),
    );
    let (other, _reg) = scheduler.add_async_task::<(), NoopTask, OneShot>(
        NoopTask,
        OneShot::after(Duration::from_millis(10)),
    );
    assert_eq!(scheduler.cancel_task(id), Ok(()));
    assert_eq!(scheduler.cancel_task(id), Err(NotFoundError));
    assert_eq!(scheduler.cancel_task(other), Ok(()));
}

#[test]
fn identifiers_are_not_reused_after_cancellation() {
    let mut scheduler = Scheduler::new();
    let (first, _reg) = scheduler.add_sync_task(
        NoopTask,
        IntervalSchedule::every(Duration::from_millis(10)),
    );
    assert_eq!(scheduler.cancel_task(first), Ok(()));
    let (second, _reg) = scheduler.add_sync_task(
        NoopTask,
        IntervalSchedule::every(Duration::from_millis(10)),
    );
    assert_ne!(first, second);
}

#[test]
fn a_registration_couples_the_task_to_a_live_driver() {
    let mut scheduler = Scheduler::new();
    let (_id, reg) = scheduler.add_sync_task(
        NoopTask,
        IntervalSchedule::every(Duration::from_millis(10)),
    );
    assert_eq!(reg.driver.pending_delay(), Some(Duration::from_millis(10)));
    reg.task.run();
}
