use chrono::{Datelike, NaiveDate};
use rsm::calendar::{
    date_exists, digit_char, leap_year, month_length, push_decimal, push_two_digits, tomorrow,
    write_date, MAX_YEAR, MIN_YEAR,
};

fn text(v: &[char]) -> String {
    v.iter().collect()
}

#[test]
fn leap_years_follow_the_gregorian_rule() {
    assert!(leap_year(2024));
    assert!(!leap_year(2023));
    assert!(!leap_year(1900));
    assert!(leap_year(2000));
    assert!(leap_year(0));
    assert!(leap_year(-4));
    assert!(!leap_year(-100));
    assert!(leap_year(-400));
    assert!(!leap_year(i32::MAX));
    assert!(leap_year(i32::MIN));
}

#[test]
fn months_have_their_lengths() {
    let lengths = [31, 28, 31, 30, 31, 30, 31, 31, 30, 31, 30, 31];
    for m in 1..=12u32 {
        assert_eq!(month_length(2023, m), lengths[(m - 1) as usize]);
    }
    assert_eq!(month_length(2024, 2), 29);
    assert_eq!(month_length(1900, 2), 28);
}

#[test]
fn a_date_exists_where_chrono_has_one() {
    let years = [MIN_YEAR - 1, MIN_YEAR, -401, -400, -1, 0, 1, 1900, 2000, 2023, 2024, 9999, 10000,
        MAX_YEAR, MAX_YEAR + 1];
    for y in years {
        for m in 0..=13u32 {
            for d in 0..=32u32 {
                assert_eq!(
                    date_exists(y, m, d),
                    NaiveDate::from_ymd_opt(y, m, d).is_some(),
                    "{y}-{m}-{d}"
                );
            }
        }
    }
}

#[test]
fn tomorrow_is_the_day_chrono_puts_next() {
    let mut day = NaiveDate::from_ymd_opt(1999, 12, 25).unwrap();
    for _ in 0..1600 {
        let next = day.succ_opt().unwrap();
        assert_eq!(
            tomorrow(day.year(), day.month(), day.day()),
            (next.year(), next.month(), next.day())
        );
        day = next;
    }
    assert_eq!(tomorrow(2024, 2, 28), (2024, 2, 29));
    assert_eq!(tomorrow(2023, 2, 28), (2023, 3, 1));
    assert_eq!(tomorrow(2023, 12, 31), (2024, 1, 1));
    assert_eq!(tomorrow(-1, 12, 31), (0, 1, 1));
}

#[test]
fn digits_are_written_in_decimal() {
    assert_eq!(digit_char(0), '0');
    assert_eq!(digit_char(7), '7');
    assert_eq!(digit_char(9), '9');
    let mut out = vec!['x'];
    push_two_digits(&mut out, 5);
    push_two_digits(&mut out, 42);
    push_two_digits(&mut out, 123);
    assert_eq!(text(&out), "x054223");
    let mut out = Vec::new();
    push_decimal(&mut out, 0, 0);
    push_decimal(&mut out, 7, 4);
    push_decimal(&mut out, 123456, 4);
    push_decimal(&mut out, 90, 1);
    assert_eq!(text(&out), "0000712345690");
}

#[test]
fn a_date_is_written_as_chrono_writes_it() {
    let dates = [
        (2024, 2, 29),
        (2024, 12, 1),
        (1, 1, 1),
        (0, 6, 15),
        (9999, 12, 31),
        (10000, 1, 1),
        (-1, 3, 4),
        (-12345, 10, 20),
        (MAX_YEAR, 12, 31),
        (MIN_YEAR, 1, 1),
    ];
    for (y, m, d) in dates {
        let expected = NaiveDate::from_ymd_opt(y, m, d).unwrap().to_string();
        assert_eq!(text(&write_date(y, m, d)), expected);
    }
    assert_eq!(text(&write_date(2024, 2, 29)), "2024-02-29");
    assert_eq!(text(&write_date(10000, 1, 1)), "+10000-01-01");
    assert_eq!(text(&write_date(-1, 3, 4)), "-0001-03-04");
}
