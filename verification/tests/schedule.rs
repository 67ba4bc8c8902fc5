use chrono::{TimeZone, Utc};
use cronback::schedule::{Recurring, RunAt, Schedule, ScheduleIter, TriggerError};

fn iter_of(schedule: &Schedule, after: Option<i64>) -> ScheduleIter {
    match ScheduleIter::from_schedule(schedule, after) {
        Ok(it) => it,
        Err(TriggerError::CronParse(m)) => panic!("cron refused: {m}"),
        Err(TriggerError::InvalidTimezone(z)) => panic!("zone refused: {z}"),
    }
}

#[test]
fn future_ticks_parsing_cron() {
    let pattern = "0 5 * * * *"; // fifth minute of every hour
    let schedule = Schedule::Recurring(Recurring {
        cron: pattern.to_string(),
        timezone: "Etc/UTC".into(),
        limit: None,
        remaining: None,
    });
    assert!(schedule.limit().is_none());

    let after = Utc.with_ymd_and_hms(2021, 10, 27, 0, 5, 0).unwrap().timestamp();

    let mut result = iter_of(&schedule, Some(after));
    assert!(result.is_cron_pattern());
    assert!(result.remaining().is_none());

    assert!(result.peek().is_some());
    let head = result.peek().unwrap();
    assert_eq!(None, result.tick_zone());

    // The immediate next tick should be on 2021-10-27 01:05:00 UTC.
    let expected = chrono_tz::UTC.with_ymd_and_hms(2021, 10, 27, 1, 5, 0).unwrap().timestamp();
    assert_eq!(expected, head);
    // move the iterator
    assert_eq!(head, result.next().unwrap());

    // The next tick should be on 2021-10-27 02:05:00 UTC.
    let expected = chrono_tz::UTC.with_ymd_and_hms(2021, 10, 27, 2, 5, 0).unwrap().timestamp();
    let head = result.peek().unwrap();
    assert_eq!(expected, head);
    assert_eq!(head, result.next().unwrap());
}

#[test]
fn future_ticks_parsing_cron_with_limits() {
    //  sec  min   hour   day of month   month   day of week   year
    //  A specific second in the future, this should yield exactly one time
    // point.
    let schedule = Schedule::Recurring(Recurring {
        cron: "0 5 4 20 3 * 2040".to_owned(),
        timezone: "Etc/UTC".into(),
        limit: Some(4),
        remaining: None,
    });
    assert_eq!(4, schedule.limit().unwrap());

    let after = Utc.with_ymd_and_hms(2021, 10, 27, 0, 5, 0).unwrap().timestamp();
    let mut result = iter_of(&schedule, Some(after));

    assert_eq!(4, result.remaining().unwrap());

    // A specific timepoint.
    let expected = chrono_tz::UTC.with_ymd_and_hms(2040, 3, 20, 4, 5, 0).unwrap().timestamp();

    let head = result.next().unwrap();
    assert_eq!(expected, head);
    assert_eq!(3, result.remaining().unwrap());
    //  No more time points.
    assert!(result.next().is_none());
    // The remaining value is still 3 because we only ran 1 out of the limit
    // which was 4.
    assert_eq!(3, result.remaining().unwrap());
}

#[test]
fn future_ticks_parsing_run_at() {
    // generating some time points, one in the past, and three in the
    // future.
    let past = chrono_tz::Egypt.with_ymd_and_hms(2021, 10, 27, 0, 4, 0).unwrap().timestamp();
    // <- We will start the iterator from 0:05:00
    let after_2m = chrono_tz::Egypt.with_ymd_and_hms(2021, 10, 27, 0, 7, 0).unwrap().timestamp();
    let after_3m = chrono_tz::Egypt.with_ymd_and_hms(2021, 10, 27, 0, 8, 0).unwrap().timestamp();

    let timepoints = vec![past, after_2m, after_3m];

    let schedule = Schedule::RunAt(RunAt { timepoints, remaining: None });

    // Egypt was UTC+2 in 2021-10-27, so we assume that now is the 26th of
    // October at 22:05
    let after = Utc.with_ymd_and_hms(2021, 10, 26, 22, 5, 0).unwrap().timestamp();
    let mut result = iter_of(&schedule, Some(after));
    assert!(!result.is_cron_pattern());
    assert_eq!(2, result.remaining().unwrap());
    assert_eq!(after_2m, result.next().unwrap());
    assert_eq!(1, result.remaining().unwrap());
    assert_eq!(after_3m, result.next().unwrap());
    assert_eq!(0, result.remaining().unwrap());
    assert!(result.next().is_none());
    // it won't overflow to negative.
    assert_eq!(0, result.remaining().unwrap());
}

#[test]
fn run_at_ticks_come_in_order() {
    let schedule = Schedule::RunAt(RunAt { timepoints: vec![50, 10, 30, 10, 5], remaining: None });
    let mut it = iter_of(&schedule, Some(7));
    assert_eq!(it.remaining(), Some(4));
    assert_eq!(it.peek(), Some(10));
    assert_eq!(it.next(), Some(10));
    assert_eq!(it.next(), Some(10));
    assert_eq!(it.next(), Some(30));
    assert_eq!(it.next(), Some(50));
    assert_eq!(it.next(), None);
    assert_eq!(schedule.limit(), Some(5));
}

#[test]
fn run_at_without_start_uses_now() {
    let schedule = Schedule::RunAt(RunAt { timepoints: vec![0, i64::MAX], remaining: None });
    let mut it = iter_of(&schedule, None);
    assert_eq!(it.remaining(), Some(1));
    assert_eq!(it.next(), Some(i64::MAX));
}

#[test]
fn cron_remaining_from_state() {
    let schedule = Schedule::Recurring(Recurring {
        cron: "0 0 * * * *".to_string(),
        timezone: "Europe/Berlin".to_string(),
        limit: Some(10),
        remaining: Some(2),
    });
    let mut it = iter_of(&schedule, Some(0));
    assert_eq!(it.remaining(), Some(2));
    assert_eq!(it.next(), Some(3600));
    assert_eq!(it.next(), Some(7200));
    assert_eq!(it.remaining(), Some(0));
    assert_eq!(it.next(), None);
    assert_eq!(it.peek(), None);
}

#[test]
fn cron_without_start_uses_zone() {
    let schedule = Schedule::Recurring(Recurring {
        cron: "0 0 0 * * *".to_string(),
        timezone: "Asia/Tokyo".to_string(),
        limit: None,
        remaining: None,
    });
    let mut it = iter_of(&schedule, None);
    let t = it.next().unwrap();
    // midnight in Tokyo is 15:00 UTC
    assert_eq!(t.rem_euclid(86_400), 15 * 3600);
    assert!(t > Utc::now().timestamp() - 1);
}

#[test]
fn invalid_schedules() {
    let bad_cron = Schedule::Recurring(Recurring {
        cron: "not a cron".to_string(),
        timezone: "Etc/UTC".to_string(),
        limit: None,
        remaining: None,
    });
    assert!(matches!(ScheduleIter::from_schedule(&bad_cron, Some(0)), Err(TriggerError::CronParse(_))));
    let bad_zone = Schedule::Recurring(Recurring {
        cron: "0 5 * * * *".to_string(),
        timezone: "Mars/Olympus".to_string(),
        limit: None,
        remaining: None,
    });
    match ScheduleIter::from_schedule(&bad_zone, Some(0)) {
        Err(TriggerError::InvalidTimezone(z)) => assert_eq!(z, "Mars/Olympus"),
        _ => panic!("unknown zone accepted"),
    }
}

#[test]
fn estimated_runs() {
    let schedule = Schedule::Recurring(Recurring {
        cron: "0 5 * * * *".to_string(),
        timezone: "Etc/UTC".to_string(),
        limit: None,
        remaining: None,
    });
    assert_eq!(schedule.estimated_future_runs(0, 3), vec![300, 3900, 7500]);
    let one_shot = Schedule::RunAt(RunAt { timepoints: vec![5, 1, 9], remaining: None });
    assert_eq!(one_shot.estimated_future_runs(2, 5), vec![5, 9]);
    assert_eq!(one_shot.estimated_future_runs(2, 0), Vec::<i64>::new());
}

#[test]
fn set_remaining_keeps_schedule() {
    let mut s = Schedule::RunAt(RunAt { timepoints: vec![1, 2], remaining: None });
    s.set_remaining(Some(1));
    match s {
        Schedule::RunAt(r) => {
            assert_eq!(r.remaining, Some(1));
            assert_eq!(r.timepoints, vec![1, 2]);
        },
        _ => panic!(),
    }
}

#[test]
fn ticks_zone_follows_start() {
    let schedule = Schedule::Recurring(Recurring {
        cron: "0 5 * * * *".to_string(),
        timezone: "Europe/London".into(),
        limit: None,
        remaining: None,
    });
    assert_eq!(iter_of(&schedule, None).tick_zone(), Some("Europe/London".to_string()));
    assert_eq!(iter_of(&schedule, Some(1_635_293_100)).tick_zone(), None);
}
