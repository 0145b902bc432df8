use periodically::BackoffSchedule;
use periodically::CronSchedule;
use periodically::Duration;
use periodically::IntervalSchedule;
use periodically::OneShot;
use periodically::PeriodicSchedule;
use periodically::Schedule;

#[test]
fn duration_from_millis_splits_into_parts() {
    let d = Duration::from_millis(1500);
    assert_eq!(d.as_secs(), 1);
    assert_eq!(d.subsec_nanos(), 500_000_000);
    assert_eq!(d.as_nanos(), 1_500_000_000);
}

#[test]
fn duration_new_keeps_its_parts() {
    let d = Duration::new(3, 250_000_000);
    assert_eq!(d.as_secs(), 3);
    assert_eq!(d.subsec_nanos(), 250_000_000);
    assert_eq!(d, Duration::from_millis(3250));
}

#[test]
fn duration_from_nanos_round_trips() {
    let d = Duration::from_nanos(2_000_000_123);
    assert_eq!(d.as_secs(), 2);
    assert_eq!(d.subsec_nanos(), 123);
    assert_eq!(d.as_nanos(), 2_000_000_123);
    assert_eq!(Duration::from_secs(7).as_nanos(), 7_000_000_000);
}

#[test]
fn interval_every_always_returns_interval() {
    let mut interval = IntervalSchedule::every(Duration::from_secs(1));
    let first = <IntervalSchedule as Schedule<()>>::initial(&interval);
    assert_eq!(first, Some(Duration::from_secs(1)));
    let next = <IntervalSchedule as Schedule<()>>::next(&mut interval, ());
    assert_eq!(next, Some(Duration::from_secs(1)));
    let after_panic = <IntervalSchedule as Schedule<()>>::next_on_task_panic(&mut interval);
    assert_eq!(after_panic, Some(Duration::from_secs(1)));
}

#[test]
fn interval_with_initial_delay_starts_with_delay() {
    let mut interval = IntervalSchedule::with_initial_delay(
        Duration::from_secs(2),
        Duration::from_secs(1),
    );
    let first = <IntervalSchedule as Schedule<()>>::initial(&interval);
    assert_eq!(first, Some(Duration::from_secs(1)));
    let next = <IntervalSchedule as Schedule<()>>::next(&mut interval, ());
    assert_eq!(next, Some(Duration::from_secs(2)));
}

#[test]
fn one_shot_never_reschedules() {
    let mut one_shot = OneShot::after(Duration::from_secs(1));
    let first = <OneShot as Schedule<()>>::initial(&one_shot);
    assert_eq!(first, Some(Duration::from_secs(1)));
    let next = <OneShot as Schedule<()>>::next(&mut one_shot, ());
    assert_eq!(next, None);
    let after_panic = <OneShot as Schedule<()>>::next_on_task_panic(&mut one_shot);
    assert_eq!(after_panic, None);
}

#[test]
fn periodic_every_always_returns_period() {
    let mut periodic = PeriodicSchedule::every(Duration::from_millis(250));
    let first = <PeriodicSchedule as Schedule<()>>::initial(&periodic);
    assert_eq!(first, Some(Duration::from_millis(250)));
    let next = <PeriodicSchedule as Schedule<()>>::next(&mut periodic, ());
    assert_eq!(next, Some(Duration::from_millis(250)));
}

#[test]
fn periodic_with_initial_delay_starts_with_delay() {
    let mut periodic = PeriodicSchedule::with_initial_delay(
        Duration::from_millis(250),
        Duration::from_millis(10),
    );
    let first = <PeriodicSchedule as Schedule<()>>::initial(&periodic);
    assert_eq!(first, Some(Duration::from_millis(10)));
    let next = <PeriodicSchedule as Schedule<()>>::next(&mut periodic, ());
    assert_eq!(next, Some(Duration::from_millis(250)));
}

#[test]
fn cron_schedule_waits_less_than_one_minute() {
    let expression = "0 * * * * *";
    let mut cron = CronSchedule::from_cron_str(expression).unwrap();
    let first = <CronSchedule as Schedule<()>>::initial(&cron).unwrap();
    assert!(first.as_nanos() < 60_000_000_000);
    let next = <CronSchedule as Schedule<()>>::next(&mut cron, ()).unwrap();
    assert!(next.as_nanos() < 60_000_000_000);
}

#[test]
fn cron_rejects_a_malformed_expression() {
    assert!(CronSchedule::from_cron_str("not a cron expression").is_err());
}

#[test]
fn backoff_schedule_backs_off_under_a_second() {
    let mut schedule = BackoffSchedule::from_backoff(
        Duration::from_millis(500),
        Duration::from_secs(60),
        Some(Duration::from_secs(900)),
    );
    let first = <BackoffSchedule as Schedule<Result<(), ()>>>::initial(&schedule);
    assert_eq!(first, Some(Duration::from_secs(0)));
    let next = <BackoffSchedule as Schedule<Result<(), ()>>>::next(&mut schedule, Err(()));
    assert!(next.unwrap().as_nanos() < 1_000_000_000);
}

#[test]
fn backoff_schedule_resets_after_a_success() {
    let mut schedule = BackoffSchedule::from_backoff(
        Duration::from_millis(100),
        Duration::from_secs(60),
        None,
    );
    for _ in 0..5 {
        let after_failure =
            <BackoffSchedule as Schedule<Result<(), ()>>>::next(&mut schedule, Err(()));
        assert!(after_failure.is_some());
    }
    let after_success = <BackoffSchedule as Schedule<Result<(), ()>>>::next(&mut schedule, Ok(()));
    // An Ok outcome winds the policy back near its starting interval:
    // at most 100ms plus half of it of jitter.
    assert!(after_success.unwrap().as_nanos() < 200_000_000);
}
