use tasklog::date::{parse_date, parse_date_form, DateForm};
use tasklog::instant::{Instant, MAX_SECONDS, MIN_SECONDS};

fn at(seconds: i64, offset: i32) -> Instant {
    Instant::new(seconds, offset).unwrap()
}

#[test]
fn instants_are_in_range() {
    assert!(Instant::new(0, 0).is_some());
    assert!(Instant::new(MIN_SECONDS, 0).is_some());
    assert!(Instant::new(MAX_SECONDS, 0).is_some());
    assert!(Instant::new(MIN_SECONDS - 1, 0).is_none());
    assert!(Instant::new(MAX_SECONDS + 1, 0).is_none());
    assert!(Instant::new(0, 86_399).is_some());
    assert!(Instant::new(0, -86_399).is_some());
    assert!(Instant::new(0, 86_400).is_none());
    assert!(Instant::new(0, -86_400).is_none());
    assert!(Instant::from_parts(None).is_none());
    assert_eq!(Instant::from_parts(Some((5, 60))), Instant::new(5, 60));
    assert_eq!(at(5, 60).seconds(), 5);
    assert_eq!(at(5, 60).offset(), 60);
}

#[test]
fn instants_are_written_as_rfc3339() {
    assert_eq!(at(1_000_000_000, 0).to_rfc3339(), "2001-09-09T01:46:40+00:00");
    assert_eq!(at(1_000_000_000, 3600).to_rfc3339(), "2001-09-09T02:46:40+01:00");
    assert_eq!(at(1_000_000_000, -19_800).to_rfc3339(), "2001-09-08T20:16:40-05:30");
    assert_eq!(at(0, 0).to_rfc3339(), "1970-01-01T00:00:00+00:00");
    assert_eq!(at(MIN_SECONDS, 0).to_rfc3339(), "0000-01-01T00:00:00+00:00");
    assert_eq!(at(MAX_SECONDS, 0).to_rfc3339(), "9999-12-31T23:59:59+00:00");
    assert_eq!(at(1_000_000_000, 3600).in_utc().to_rfc3339(), "2001-09-09T01:46:40+00:00");
}

#[test]
fn instants_at_the_edges_are_written_in_any_offset() {
    assert_eq!(at(MIN_SECONDS, -86_399).to_rfc3339(), "-0001-12-31T00:00:01-24:00");
    assert_eq!(at(MAX_SECONDS, 86_399).to_rfc3339(), "+10000-01-01T23:59:58+24:00");
    assert_eq!(at(MAX_SECONDS, 86_399).format_date(), "+10000-01-01");
    assert_eq!(at(MIN_SECONDS, -86_399).format_date_time(), "-0001-12-31 00:00:01");
}

#[test]
fn rfc3339_is_read() {
    let read = Instant::parse_rfc3339("2001-09-09T02:46:40+01:00").unwrap();
    assert_eq!(read.seconds(), 1_000_000_000);
    assert_eq!(read.offset(), 3600);
    let zulu = Instant::parse_rfc3339("2001-09-09T01:46:40Z").unwrap();
    assert_eq!(zulu, at(1_000_000_000, 0));
    let fraction = Instant::parse_rfc3339("2001-09-09T01:46:40.750+00:00").unwrap();
    assert_eq!(fraction, at(1_000_000_000, 0));
    assert!(Instant::parse_rfc3339("2001-09-09").is_none());
    assert!(Instant::parse_rfc3339("").is_none());
    assert!(Instant::parse_rfc3339("yesterday").is_none());
    assert!(Instant::parse_rfc3339("2001-13-09T01:46:40Z").is_none());
}

#[test]
fn written_instants_are_read_back() {
    for (seconds, offset) in [(0, 0), (1_000_000_000, 3600), (1_773_576_000, -28_800), (-1, 60)] {
        let t = at(seconds, offset);
        assert_eq!(Instant::parse_rfc3339(&t.to_rfc3339()), Some(t));
    }
}

#[test]
fn instants_are_shown_as_dates() {
    assert_eq!(at(1_000_000_000, 0).format_date(), "2001-09-09");
    assert_eq!(at(1_000_000_000, 0).format_date_time(), "2001-09-09 01:46:40");
    assert_eq!(at(1_000_000_000, -7200).format_date(), "2001-09-08");
    assert_eq!(at(1_000_000_000, -7200).format_date_time(), "2001-09-08 23:46:40");
}

#[test]
fn instants_are_ordered_by_their_seconds() {
    let early = at(100, 3600);
    let late = at(200, -3600);
    assert!(early.is_before(&late));
    assert!(!late.is_before(&early));
    assert!(!early.is_before(&early));
    assert!(!at(100, 0).is_before(&at(100, 3600)));
    assert_eq!(Instant::later_of(early, late), late);
    assert_eq!(Instant::later_of(late, early), late);
    assert_eq!(Instant::later_of(at(100, 0), at(100, 60)), at(100, 0));
    assert_eq!(early.in_offset_of(&late), at(100, -3600));
}

#[test]
fn seconds_and_days_are_added() {
    assert_eq!(at(100, 60).plus_seconds(50), Some(at(150, 60)));
    assert_eq!(at(100, 60).plus_seconds(-150), Some(at(-50, 60)));
    assert_eq!(at(100, 60).plus_days(1), Some(at(86_500, 60)));
    assert_eq!(at(100, 60).plus_days(365), Some(at(100 + 365 * 86_400, 60)));
    assert_eq!(at(100, 60).plus_days(0), Some(at(100, 60)));
    assert_eq!(at(MAX_SECONDS, 0).plus_seconds(1), None);
    assert_eq!(at(MAX_SECONDS, 0).plus_days(1), None);
    assert_eq!(at(0, 0).plus_seconds(i64::MAX), None);
    assert_eq!(at(0, 0).plus_days(u64::MAX), None);
    assert_eq!(at(MIN_SECONDS, 0).plus_seconds(-1), None);
    assert_eq!(at(MAX_SECONDS - 86_400, 0).plus_days(1), Some(at(MAX_SECONDS, 0)));
}

#[test]
fn months_are_added_by_the_calendar() {
    assert_eq!(at(1_000_000_000, 0).plus_months(1), Some(at(1_002_592_000, 0)));
    // The last day of January leads to the last day of February.
    assert_eq!(at(980_899_200, 0).plus_months(1), Some(at(983_318_400, 0)));
    assert_eq!(at(1_000_000_000, 3600).plus_months(0), Some(at(1_000_000_000, 3600)));
    assert_eq!(at(1_773_576_000, 0).plus_months(12), Some(at(1_805_112_000, 0)));
    assert_eq!(at(MAX_SECONDS, 0).plus_months(1), None);
    assert_eq!(at(0, 0).plus_months(u32::MAX), None);
    assert_eq!(at(5, 60).moved_to(Some(7)), Some(at(7, 60)));
    assert_eq!(at(5, 60).moved_to(Some(MAX_SECONDS + 1)), None);
    assert_eq!(at(5, 60).moved_to(None), None);
}

#[test]
fn calendar_dates_start_in_the_offset_of_now() {
    assert_eq!(at(0, 0).parse_date("2025-10-01"), Some(at(1_759_276_800, 0)));
    assert_eq!(at(0, 7200).parse_date("2025-10-01"), Some(at(1_759_276_800 - 7200, 7200)));
    assert_eq!(at(0, 0).parse_date("2025-02-30"), None);
    assert_eq!(at(0, 0).parse_date("01.10.2025"), None);
    assert_eq!(at(0, 0).parse_date(""), None);
    assert_eq!(at(0, 60).date_in_offset(Some(600)), Some(at(540, 60)));
    assert_eq!(at(0, 60).date_in_offset(None), None);
    assert_eq!(at(0, 60).date_in_offset(Some(i64::MIN)), None);
    assert_eq!(at(0, -60).date_in_offset(Some(MAX_SECONDS)), None);
}

#[test]
fn written_dates_have_a_form() {
    assert_eq!(parse_date_form("10d"), Ok(DateForm::Days(10)));
    assert_eq!(parse_date_form("2m"), Ok(DateForm::Months(2)));
    assert_eq!(parse_date_form("1y"), Ok(DateForm::Years(1)));
    assert_eq!(parse_date_form("0d"), Ok(DateForm::Days(0)));
    assert_eq!(parse_date_form("4294967295d"), Ok(DateForm::Days(u32::MAX)));
    assert_eq!(parse_date_form("2025-10-01"), Ok(DateForm::Absolute));
    assert_eq!(parse_date_form("12x"), Ok(DateForm::Absolute));
    assert_eq!(
        parse_date_form("d").unwrap_err(),
        "argument format must be a number followed by a unit (d, m, y) like 10d for 10 days"
    );
    assert_eq!(
        parse_date_form("").unwrap_err(),
        "argument format must be a number followed by a unit (d, m, y) like 10d for 10 days"
    );
    assert_eq!(parse_date_form("xd").unwrap_err(), "Cannot parse 'x' as a number");
    assert_eq!(parse_date_form("-1d").unwrap_err(), "Cannot parse '-1' as a number");
    assert_eq!(
        parse_date_form("4294967296d").unwrap_err(),
        "Cannot parse '4294967296' as a number"
    );
}

#[test]
fn written_dates_are_resolved_from_now() {
    let now = at(1_773_576_000, 0); // 2026-03-15 12:00:00 UTC
    assert_eq!(parse_date("1d", &now), Ok(at(1_773_662_400, 0)));
    assert_eq!(parse_date("5d", &now), Ok(at(1_774_008_000, 0)));
    assert_eq!(parse_date("2m", &now), Ok(at(1_778_846_400, 0)));
    assert_eq!(parse_date("1y", &now), Ok(at(1_805_112_000, 0)));
    assert_eq!(parse_date("2025-10-01", &now), Ok(at(1_759_276_800, 0)));
    assert_eq!(parse_date("9999999d", &now).unwrap_err(), "could not parse date 9999999d");
    assert_eq!(parse_date("400000000y", &now).unwrap_err(), "could not parse date 400000000y");
    assert_eq!(parse_date("99999y", &now).unwrap_err(), "could not parse date 99999y");
    assert_eq!(parse_date("tomorrow", &now).unwrap_err(), "could not parse date tomorrow");
    assert_eq!(parse_date("zd", &now).unwrap_err(), "Cannot parse 'z' as a number");
}
