use periodically::Driver;
use periodically::Duration;
use periodically::IntervalSchedule;
use periodically::OneShot;
use periodically::Outcome;
use periodically::Schedule;
use periodically::handle_task_result;

/// A schedule that records every value handed to `next`, stops once it
/// sees an error value, and counts its consultations.
struct RecordingSchedule {
    consultations: usize,
    captured: Vec<usize>,
}

impl Schedule<Result<usize, ()>> for RecordingSchedule {
    fn initial(&self) -> Option<Duration> {
        Some(Duration::from_secs(0))
    }

    fn next(&mut self, task_output: Result<usize, ()>) -> Option<Duration> {
        self.consultations += 1;
        match task_output {
            Ok(v) => {
                self.captured.push(v);
                Some(Duration::from_secs(0))
            }
            Err(()) => None,
        }
    }

    fn next_on_task_panic(&mut self) -> Option<Duration> {
        self.initial()
    }
}

#[test]
fn task_outputs_are_piped_to_the_schedule_in_order() {
    let schedule = RecordingSchedule { consultations: 0, captured: Vec::new() };
    let mut driver: Driver<Result<usize, ()>, RecordingSchedule> = Driver::new(schedule);

    let mut remaining: usize = 5;
    while driver.pending_delay().is_some() {
        let output: Result<usize, ()> = if remaining == 0 {
            Err(())
        } else {
            let v = remaining;
            remaining -= 1;
            Ok(v)
        };
        driver.step(Outcome::Completed(output));
    }

    assert_eq!(driver.schedule().consultations, 6);
    assert_eq!(driver.schedule().captured, vec![5, 4, 3, 2, 1]);
}

#[test]
fn failing_executions_keep_an_interval_task_scheduled() {
    let schedule = IntervalSchedule::every(Duration::from_millis(10));
    let mut driver: Driver<(), IntervalSchedule> = Driver::new(schedule);

    let mut completions: usize = 0;
    for round in 0..10 {
        assert_eq!(driver.pending_delay(), Some(Duration::from_millis(10)));
        if round % 2 == 0 {
            driver.step(Outcome::Failed);
        } else {
            driver.step(Outcome::Completed(()));
            completions += 1;
        }
    }

    assert!(completions >= 5);
    assert_eq!(driver.pending_delay(), Some(Duration::from_millis(10)));
}

#[test]
fn one_shot_runs_exactly_once_when_it_completes() {
    let mut driver: Driver<(), OneShot> = Driver::new(OneShot::after(Duration::from_millis(50)));
    assert_eq!(driver.pending_delay(), Some(Duration::from_millis(50)));
    driver.step(Outcome::Completed(()));
    assert_eq!(driver.pending_delay(), None);
}

#[test]
fn one_shot_runs_exactly_once_when_it_fails() {
    let mut driver: Driver<(), OneShot> = Driver::new(OneShot::after(Duration::from_millis(50)));
    driver.step(Outcome::Failed);
    assert_eq!(driver.pending_delay(), None);
}

#[test]
fn an_aborted_execution_terminates_the_driver_without_consulting() {
    let schedule = RecordingSchedule { consultations: 0, captured: Vec::new() };
    let mut driver: Driver<Result<usize, ()>, RecordingSchedule> = Driver::new(schedule);
    driver.step(Outcome::Completed(Ok(9)));
    driver.step(Outcome::Aborted);
    assert_eq!(driver.pending_delay(), None);
    assert_eq!(driver.schedule().consultations, 1);
    assert_eq!(driver.schedule().captured, vec![9]);
}

#[test]
fn interval_waits_bound_the_execution_count() {
    let schedule = IntervalSchedule::every(Duration::from_millis(10));
    let mut driver: Driver<(), IntervalSchedule> = Driver::new(schedule);

    let budget_nanos: u128 = 100_000_000;
    let mut waited: u128 = 0;
    let mut executions: usize = 0;
    while let Some(delay) = driver.pending_delay() {
        if waited + delay.as_nanos() > budget_nanos {
            break;
        }
        waited += delay.as_nanos();
        driver.step(Outcome::Completed(()));
        executions += 1;
    }

    assert_eq!(executions, 10);
}

#[test]
fn handle_task_result_consults_the_right_operation() {
    let mut schedule = IntervalSchedule::with_initial_delay(
        Duration::from_millis(30),
        Duration::from_millis(5),
    );
    let after_value = handle_task_result(Outcome::Completed(()), &mut schedule);
    assert_eq!(after_value, Some(Duration::from_millis(30)));
    let after_failure = handle_task_result(Outcome::<()>::Failed, &mut schedule);
    assert_eq!(after_failure, Some(Duration::from_millis(5)));
    let after_abort = handle_task_result(Outcome::<()>::Aborted, &mut schedule);
    assert_eq!(after_abort, None);
}
