use timelapse_cam::scheduler::{CaptureScheduler, ScheduleStep, SchedulerError};
use timelapse_cam::Config;

#[test]
fn hour_in_six_pictures_means_ten_minute_delay() {
    let scheduler = CaptureScheduler::new(3_600_000, 6).expect("six pictures is valid");
    assert_eq!(scheduler.count, 6);
    assert_eq!(scheduler.delay_ms, 600_000);
}

#[test]
fn schedule_alternates_and_ends_on_a_capture() {
    let scheduler = CaptureScheduler::new(3_600_000, 6).unwrap();
    let plan = scheduler.schedule();
    assert_eq!(plan.len(), 11);
    let captures = plan
        .iter()
        .filter(|s| matches!(s, ScheduleStep::Capture(_)))
        .count();
    let sleeps = plan
        .iter()
        .filter(|s| matches!(s, ScheduleStep::Sleep(_)))
        .count();
    assert_eq!(captures, 6);
    assert_eq!(sleeps, 5);
    for (j, step) in plan.iter().enumerate() {
        if j % 2 == 0 {
            assert_eq!(*step, ScheduleStep::Capture((j / 2) as u32));
        } else {
            assert_eq!(*step, ScheduleStep::Sleep(600_000));
        }
    }
    assert_eq!(plan.last(), Some(&ScheduleStep::Capture(5)));
}

#[test]
fn single_picture_has_no_sleep() {
    let scheduler = CaptureScheduler::new(3_600_000, 1).unwrap();
    let plan = scheduler.schedule();
    assert_eq!(plan, vec![ScheduleStep::Capture(0)]);
}

#[test]
fn zero_pictures_is_a_configuration_error() {
    assert_eq!(
        CaptureScheduler::new(3_600_000, 0),
        Err(SchedulerError::ZeroPictureCount)
    );
    assert_eq!(
        CaptureScheduler::from_period("1h", 0),
        Err(SchedulerError::ZeroPictureCount)
    );
}

#[test]
fn one_hour_period_string_parses_to_an_hour() {
    let scheduler = CaptureScheduler::from_period("1h", 6).expect("1h parses");
    assert_eq!(scheduler.count, 6);
    assert_eq!(scheduler.delay_ms, 600_000);
}

#[test]
fn compound_period_string_parses_exactly() {
    let scheduler = CaptureScheduler::from_period("2h 37min", 1).expect("compound span parses");
    assert_eq!(scheduler.delay_ms, 9_420_000);
}

#[test]
fn nonsense_period_string_is_rejected() {
    assert_eq!(
        CaptureScheduler::from_period("soon", 6),
        Err(SchedulerError::InvalidPeriod)
    );
}

#[test]
fn default_config_plans_six_pictures_over_an_hour() {
    let config = Config::default();
    assert_eq!(config.picture_count, 6);
    assert_eq!(config.timelapse_period, "1h");
    let scheduler = config.capture_scheduler().expect("the default is valid");
    assert_eq!(scheduler.count, 6);
    assert_eq!(scheduler.delay_ms, 600_000);
}

#[test]
fn delay_division_truncates() {
    let scheduler = CaptureScheduler::new(100, 3).unwrap();
    assert_eq!(scheduler.delay_ms, 33);
}
