use chrono::{Datelike, Local, NaiveDate};
use rsm::due::{Due, DueError, LocalTime};

fn noon() -> LocalTime {
    LocalTime::new(2024, 2, 28, 12, 0, 0, 0).unwrap()
}

#[test]
fn a_moment_needs_a_date_that_exists_and_a_time_in_range() {
    assert!(LocalTime::new(2024, 2, 29, 23, 59, 59, 999_999_999).is_some());
    assert!(LocalTime::new(2024, 2, 29, 23, 59, 59, 1_999_999_999).is_some());
    assert!(LocalTime::new(2023, 2, 29, 0, 0, 0, 0).is_none());
    assert!(LocalTime::new(2024, 13, 1, 0, 0, 0, 0).is_none());
    assert!(LocalTime::new(2024, 1, 1, 24, 0, 0, 0).is_none());
    assert!(LocalTime::new(2024, 1, 1, 0, 60, 0, 0).is_none());
    assert!(LocalTime::new(2024, 1, 1, 0, 0, 60, 0).is_none());
    assert!(LocalTime::new(2024, 1, 1, 0, 0, 0, 2_000_000_000).is_none());
    let t = LocalTime::new(2024, 1, 2, 3, 4, 5, 6).unwrap();
    assert_eq!((t.year, t.month, t.day, t.hour, t.minute, t.second, t.nano), (2024, 1, 2, 3, 4, 5, 6));
}

#[test]
fn time_still_to_come_is_today() {
    let due = Due::parse_at("13:30", &noon()).unwrap();
    assert_eq!(due.as_str(), "2024-02-28T13:30:00");
    let due = Due::parse_at("23:59", &noon()).unwrap();
    assert_eq!(due.into_string(), "2024-02-28T23:59:00");
}

#[test]
fn time_that_has_passed_is_tomorrow() {
    let due = Due::parse_at("11:59", &noon()).unwrap();
    assert_eq!(due.as_str(), "2024-02-29T11:59:00");
    let due = Due::parse_at("00:00", &noon()).unwrap();
    assert_eq!(due.as_str(), "2024-02-29T00:00:00");
}

#[test]
fn the_time_of_this_very_moment_is_today() {
    let due = Due::parse_at("12:00", &noon()).unwrap();
    assert_eq!(due.as_str(), "2024-02-28T12:00:00");
}

#[test]
fn a_minute_that_has_begun_has_passed() {
    let now = LocalTime::new(2024, 2, 28, 12, 0, 0, 1).unwrap();
    assert_eq!(Due::parse_at("12:00", &now).unwrap().as_str(), "2024-02-29T12:00:00");
    let now = LocalTime::new(2024, 2, 28, 12, 0, 1, 0).unwrap();
    assert_eq!(Due::parse_at("12:00", &now).unwrap().as_str(), "2024-02-29T12:00:00");
    assert_eq!(Due::parse_at("12:01", &now).unwrap().as_str(), "2024-02-28T12:01:00");
}

#[test]
fn tomorrow_can_be_next_month_or_next_year() {
    let now = LocalTime::new(2023, 2, 28, 12, 0, 0, 0).unwrap();
    assert_eq!(Due::parse_at("09:00", &now).unwrap().as_str(), "2023-03-01T09:00:00");
    let now = LocalTime::new(2023, 12, 31, 23, 59, 59, 0).unwrap();
    assert_eq!(Due::parse_at("09:00", &now).unwrap().as_str(), "2024-01-01T09:00:00");
}

#[test]
fn date_and_time_pass_through() {
    for (input, expected) in [
        ("2024-03-05 07:15", "2024-03-05T07:15:00"),
        ("1999-12-31 23:59", "1999-12-31T23:59:00"),
        ("2024-02-29 00:00", "2024-02-29T00:00:00"),
        ("  2030-01-01   10:30 \n", "2030-01-01T10:30:00"),
    ] {
        assert_eq!(Due::parse_at(input, &noon()).unwrap().as_str(), expected);
        assert_eq!(Due::from_str(input).unwrap().as_str(), expected);
    }
}

#[test]
fn a_date_in_the_past_is_not_checked_against_the_clock() {
    assert_eq!(Due::parse_at("2001-01-01 00:00", &noon()).unwrap().as_str(), "2001-01-01T00:00:00");
}

#[test]
fn white_space_around_the_time_is_dropped() {
    assert_eq!(Due::parse_at("  13:30\t", &noon()).unwrap().as_str(), "2024-02-28T13:30:00");
}

#[test]
fn the_time_is_written_as_it_was_given() {
    assert_eq!(Due::parse_at("7:05", &noon()).unwrap().as_str(), "2024-02-29T7:05:00");
}

#[test]
fn rejects_what_is_no_due_time() {
    for text in ["25:00", "12:60", "2024-13-01 10:00", "", "a b c", "10", "10-10 10:10"] {
        assert!(Due::parse_at(text, &noon()).is_err(), "{text}");
        assert!(Due::from_str(text).is_err(), "{text}");
    }
}

#[test]
fn each_failure_has_its_reason() {
    let reason = |text: &str| Due::parse_at(text, &noon()).unwrap_err();
    assert_eq!(reason(""), DueError::InvalidDateTimeFormat);
    assert_eq!(reason("   "), DueError::InvalidDateTimeFormat);
    assert_eq!(reason("a b c"), DueError::InvalidDateTimeFormat);
    assert_eq!(reason("10"), DueError::InvalidTime);
    assert_eq!(reason("10:10:10"), DueError::InvalidTime);
    assert_eq!(reason("25:00"), DueError::InvalidTimeFormat);
    assert_eq!(reason("12:60"), DueError::InvalidTimeFormat);
    assert_eq!(reason("ab:cd"), DueError::InvalidTimeFormat);
    assert_eq!(reason("10-10 10:10"), DueError::InvalidDate);
    assert_eq!(reason("2024-13-01 10:00"), DueError::InvalidDate);
    assert_eq!(reason("2023-02-29 10:00"), DueError::InvalidDate);
    assert_eq!(reason("2024-01-01 1000"), DueError::InvalidTime);
    assert_eq!(reason("2024-13-01 1000"), DueError::InvalidTime);
    assert_eq!(reason("2024-01-01 24:00"), DueError::InvalidTimeFormat);
}

#[test]
fn each_reason_has_its_message() {
    assert_eq!(DueError::InvalidDateTimeFormat.message(), "Invalid date and time format");
    assert_eq!(DueError::InvalidTime.message(), "Invalid time");
    assert_eq!(DueError::InvalidTimeFormat.message(), "Invalid time format");
    assert_eq!(DueError::InvalidDate.message(), "Invalid date");
}

#[test]
fn by_the_clock_a_time_alone_falls_on_today_or_tomorrow() {
    let before = Local::now().date_naive();
    let due = Due::from_str("12:34").unwrap().into_string();
    let after = Local::now().date_naive();
    let day = |d: NaiveDate| format!("{:04}-{:02}-{:02}T12:34:00", d.year(), d.month(), d.day());
    let candidates = [
        day(before),
        day(before.succ_opt().unwrap()),
        day(after),
        day(after.succ_opt().unwrap()),
    ];
    assert!(candidates.contains(&due), "{due}");
}

#[test]
fn a_due_time_can_be_copied() {
    let due = Due::parse_at("2024-03-05 07:15", &noon()).unwrap();
    assert_eq!(due.clone().as_str(), due.as_str());
}
