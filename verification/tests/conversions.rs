use std::str::FromStr;

use tasklog::duration::{parse_duration, DurationField};
use tasklog::models::{LSType, PomoStatus, PomoType, Priority, TaskStatus};

#[test]
fn test_task_status_conversions() {
    // Test from_usize
    assert_eq!(TaskStatus::from_usize(0), TaskStatus::Open);
    assert_eq!(TaskStatus::from_usize(1), TaskStatus::Done);
    assert_eq!(TaskStatus::from_usize(2), TaskStatus::All);
    assert_eq!(TaskStatus::from_usize(999), TaskStatus::All); // Invalid value defaults to All

    // Test to_usize
    assert_eq!(TaskStatus::Open.to_usize(), 0);
    assert_eq!(TaskStatus::Done.to_usize(), 1);
    assert_eq!(TaskStatus::All.to_usize(), 2);

    // Test from String
    assert_eq!(TaskStatus::from("done".to_string()), TaskStatus::Done);
    assert_eq!(TaskStatus::from("open".to_string()), TaskStatus::Open);
    assert_eq!(TaskStatus::from("invalid".to_string()), TaskStatus::All);

    // Test to String
    assert_eq!(String::from(TaskStatus::Done), "Done");
    assert_eq!(String::from(TaskStatus::Open), "Open");
    assert_eq!(String::from(TaskStatus::All), "All");

    // Test boolean conversions
    assert_eq!(TaskStatus::from_bool(true), TaskStatus::Done);
    assert_eq!(TaskStatus::from_bool(false), TaskStatus::Open);
}

#[test]
fn test_priority_conversions() {
    // Test from_usize
    assert_eq!(Priority::from_usize(1), Priority::Low);
    assert_eq!(Priority::from_usize(2), Priority::Medium);
    assert_eq!(Priority::from_usize(3), Priority::High);
    assert_eq!(Priority::from_usize(4), Priority::Urgent);
    assert_eq!(Priority::from_usize(999), Priority::Medium); // Invalid value defaults to Medium

    // Test to_usize
    assert_eq!(Priority::Low.to_usize(), 1);
    assert_eq!(Priority::Medium.to_usize(), 2);
    assert_eq!(Priority::High.to_usize(), 3);
    assert_eq!(Priority::Urgent.to_usize(), 4);

    // Test from String
    assert_eq!(Priority::from("low".to_string()), Priority::Low);
    assert_eq!(Priority::from("medium".to_string()), Priority::Medium);
    assert_eq!(Priority::from("high".to_string()), Priority::High);
    assert_eq!(Priority::from("urgent".to_string()), Priority::Urgent);
    assert_eq!(Priority::from("invalid".to_string()), Priority::Medium);

    // Test to String
    assert_eq!(String::from(Priority::Low), "Low");
    assert_eq!(String::from(Priority::Medium), "Medium");
    assert_eq!(String::from(Priority::High), "High");
    assert_eq!(String::from(Priority::Urgent), "Urgent");
}

#[test]
fn test_pomo_type_conversions() {
    // Test from_usize
    assert_eq!(PomoType::from_usize(0), PomoType::Rest);
    assert_eq!(PomoType::from_usize(1), PomoType::Work);
    assert_eq!(PomoType::from_usize(999), PomoType::Work); // Invalid value defaults to Work

    // Test to_usize
    assert_eq!(PomoType::Rest.to_usize(), 0);
    assert_eq!(PomoType::Work.to_usize(), 1);

    // Test from String
    assert_eq!(PomoType::from("rest".to_string()), PomoType::Rest);
    assert_eq!(PomoType::from("work".to_string()), PomoType::Work);
    assert_eq!(PomoType::from("invalid".to_string()), PomoType::Work);

    // Test to String
    assert_eq!(String::from(PomoType::Rest), "Rest");
    assert_eq!(String::from(PomoType::Work), "Work");

    // Test helper methods
    assert!(PomoType::Rest.is_rest());
    assert!(!PomoType::Rest.is_work());
    assert!(PomoType::Work.is_work());
    assert!(!PomoType::Work.is_rest());
}

#[test]
fn test_pomo_status_conversions() {
    // Test from_usize
    assert_eq!(PomoStatus::from_usize(0), PomoStatus::Running);
    assert_eq!(PomoStatus::from_usize(1), PomoStatus::Paused);
    assert_eq!(PomoStatus::from_usize(2), PomoStatus::Finished);
    assert_eq!(PomoStatus::from_usize(999), PomoStatus::Running); // Invalid value defaults to Running

    // Test to_usize
    assert_eq!(PomoStatus::Running.to_usize(), 0);
    assert_eq!(PomoStatus::Paused.to_usize(), 1);
    assert_eq!(PomoStatus::Finished.to_usize(), 2);

    // Test from String
    assert_eq!(PomoStatus::from("running".to_string()), PomoStatus::Running);
    assert_eq!(PomoStatus::from("paused".to_string()), PomoStatus::Paused);
    assert_eq!(PomoStatus::from("finished".to_string()), PomoStatus::Finished);
    assert_eq!(PomoStatus::from("invalid".to_string()), PomoStatus::Running);

    // Test to String
    assert_eq!(String::from(PomoStatus::Running), "Running");
    assert_eq!(String::from(PomoStatus::Paused), "Paused");
    assert_eq!(String::from(PomoStatus::Finished), "Finished");
}

#[test]
fn test_duration_field_conversions() {
    // Test from string parsing
    assert_eq!(DurationField::from_str("30s").unwrap().to_i64(), 30);
    assert_eq!(DurationField::from_str("5m").unwrap().to_i64(), 300);
    assert_eq!(DurationField::from_str("2h").unwrap().to_i64(), 7200);
    assert_eq!(DurationField::from_str("500ms").unwrap().to_i64(), 500);

    // Test invalid formats
    assert!(DurationField::from_str("").is_err());
    assert!(DurationField::from_str("abc").is_err());
    assert!(DurationField::from_str("5x").is_err());

    // Test to string formatting
    assert_eq!(String::from(DurationField::from_str("30s").unwrap()), "30s");
    assert_eq!(String::from(DurationField::from_str("5m").unwrap()), "5m");
    assert_eq!(String::from(DurationField::from_str("2h").unwrap()), "2h");
    assert_eq!(String::from(DurationField::from_str("500ms").unwrap()), "500ms");

    // Test to/from i64
    let duration = DurationField::from_i64(300); // 5 minutes
    assert_eq!(duration.to_i64(), 300);
}

#[test]
fn names_are_read_in_any_case() {
    assert_eq!(Priority::from("URGENT".to_string()), Priority::Urgent);
    assert_eq!(Priority::from("Low".to_string()), Priority::Low);
    assert_eq!(TaskStatus::from("DONE".to_string()), TaskStatus::Done);
    assert_eq!(PomoType::from("Rest".to_string()), PomoType::Rest);
    assert_eq!(PomoStatus::from("FINISHED".to_string()), PomoStatus::Finished);
    assert_eq!(LSType::from("POMO".to_string()), LSType::Pomo);
    assert_eq!(LSType::from("task".to_string()), LSType::Task);
    assert_eq!(LSType::from("other".to_string()), LSType::Task);
}

#[test]
fn lowercase_names_are_read_exactly() {
    assert_eq!(Priority::from_lowercase("high"), Priority::High);
    assert_eq!(Priority::from_lowercase("HIGH"), Priority::Medium);
    assert_eq!(TaskStatus::from_lowercase("open"), TaskStatus::Open);
    assert_eq!(TaskStatus::from_lowercase("Open"), TaskStatus::All);
    assert_eq!(PomoType::from_lowercase("rest"), PomoType::Rest);
    assert_eq!(PomoStatus::from_lowercase("paused"), PomoStatus::Paused);
    assert_eq!(LSType::from_lowercase("pomo"), LSType::Pomo);
}

#[test]
fn stored_integers_round_trip() {
    for p in [Priority::Low, Priority::Medium, Priority::High, Priority::Urgent] {
        assert_eq!(Priority::from_usize(p.to_usize()), p);
    }
    for s in [TaskStatus::Open, TaskStatus::Done, TaskStatus::All] {
        assert_eq!(TaskStatus::from_usize(s.to_usize()), s);
    }
    for t in [PomoType::Rest, PomoType::Work] {
        assert_eq!(PomoType::from_usize(t.to_usize()), t);
    }
    for s in [PomoStatus::Running, PomoStatus::Paused, PomoStatus::Finished] {
        assert_eq!(PomoStatus::from_usize(s.to_usize()), s);
    }
    assert_eq!(LSType::from_usize(LSType::Task.to_usize()), LSType::Task);
    assert_eq!(LSType::from_usize(LSType::Pomo.to_usize()), LSType::Pomo);
    assert_eq!(String::from(LSType::Task), "Task");
    assert_eq!(String::from(LSType::Pomo), "Pomo");
}

#[test]
fn priorities_are_ordered() {
    assert!(Priority::Low < Priority::Medium);
    assert!(Priority::Medium < Priority::High);
    assert!(Priority::High < Priority::Urgent);
}

#[test]
fn enumerations_have_their_defaults() {
    assert_eq!(TaskStatus::default(), TaskStatus::Open);
    assert_eq!(PomoType::default(), PomoType::Work);
    assert_eq!(PomoStatus::default(), PomoStatus::Running);
    assert_eq!(LSType::default(), LSType::Pomo);
    assert!(TaskStatus::Done.is_done());
    assert!(!TaskStatus::Open.is_done());
    assert!(TaskStatus::Open.is_pending());
    assert!(!TaskStatus::All.is_pending());
}

#[test]
fn durations_are_read() {
    assert_eq!(parse_duration("25m").unwrap().millis(), 1_500_000);
    assert_eq!(parse_duration("1h").unwrap().millis(), 3_600_000);
    assert_eq!(parse_duration("90s").unwrap().millis(), 90_000);
    assert_eq!(parse_duration("7ms").unwrap().millis(), 7);
    assert_eq!(parse_duration("+3s").unwrap().millis(), 3_000);
    assert_eq!(parse_duration("-3s").unwrap().millis(), -3_000);
    assert_eq!(parse_duration("007s").unwrap().millis(), 7_000);
    assert_eq!(parse_duration("0s").unwrap().millis(), 0);
}

#[test]
fn bad_durations_say_why() {
    assert_eq!(
        parse_duration("").unwrap_err(),
        "Duration format must be a number followed by a unit (ms, s, m, h)"
    );
    assert_eq!(
        parse_duration("s").unwrap_err(),
        "Duration format must be a number followed by a unit (ms, s, m, h)"
    );
    assert_eq!(parse_duration("abc").unwrap_err(), "Cannot parse 'ab' as a number");
    assert_eq!(parse_duration("ms").unwrap_err(), "Cannot parse '' as a number");
    assert_eq!(parse_duration("1.5h").unwrap_err(), "Cannot parse '1.5' as a number");
    assert_eq!(
        parse_duration("5x").unwrap_err(),
        "Invalid duration unit 'x'. Must be 'ms', 's', 'm', or 'h'"
    );
    assert_eq!(parse_duration("9223372036854775807h").unwrap_err(), "Duration is out of range");
    assert_eq!(
        parse_duration("99999999999999999999s").unwrap_err(),
        "Cannot parse '99999999999999999999' as a number"
    );
}

#[test]
fn durations_are_written_in_their_largest_unit() {
    assert_eq!(parse_duration("999ms").unwrap().text(), "999ms");
    assert_eq!(parse_duration("1000ms").unwrap().text(), "1s");
    assert_eq!(parse_duration("59s").unwrap().text(), "59s");
    assert_eq!(parse_duration("60s").unwrap().text(), "1m");
    assert_eq!(parse_duration("25m").unwrap().text(), "25m");
    assert_eq!(parse_duration("60m").unwrap().text(), "1h");
    assert_eq!(parse_duration("1500ms").unwrap().text(), "1s");
    assert_eq!(parse_duration("-5s").unwrap().text(), "-5000ms");
    assert_eq!(DurationField::default().text(), "25m");
}

#[test]
fn durations_count_down_in_whole_seconds() {
    assert_eq!(parse_duration("25m").unwrap().to_time_duration(), 1500);
    assert_eq!(parse_duration("3s").unwrap().to_time_duration(), 3);
    assert_eq!(parse_duration("1999ms").unwrap().to_time_duration(), 1);
    assert_eq!(parse_duration("-3s").unwrap().to_time_duration(), 0);
    assert_eq!(parse_duration("-1999ms").unwrap().seconds(), -1);
    assert!(parse_duration("0m").unwrap().is_zero());
    assert!(DurationField::from_millis(i64::MIN).is_none());
    assert_eq!(DurationField::from_millis(-5).unwrap().millis(), -5);
    assert_eq!(DurationField::from_i64(i64::MAX).millis(), i64::MAX);
    assert_eq!(DurationField::from_i64(i64::MIN).millis(), -i64::MAX);
}
