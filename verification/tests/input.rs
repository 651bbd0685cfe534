use rsm::error::{Error, ResolveFailure};
use rsm::input::{parse_range, pick, read_line_number, resolve, select, LineSelector};

const FILE: &str = "a\nb\nc\n";

fn failure(detail: ResolveFailure) -> Error {
    Error::FailedToResolveFile { detail }
}

#[test]
fn whole_file_without_a_selector() {
    assert_eq!(resolve(Some(FILE), None, None, None).unwrap(), "a\nb\nc\n");
}

#[test]
fn a_single_line() {
    assert_eq!(resolve(Some(FILE), Some(2), None, None).unwrap(), "b");
    assert_eq!(resolve(Some(FILE), Some(1), None, None).unwrap(), "a");
    assert_eq!(resolve(Some(FILE), Some(3), None, None).unwrap(), "c");
}

#[test]
fn a_range_of_lines() {
    assert_eq!(resolve(Some(FILE), None, Some((1, 3)), None).unwrap(), "a\nb");
    assert_eq!(resolve(Some(FILE), None, Some((1, 4)), None).unwrap(), "a\nb\nc");
    assert_eq!(resolve(Some(FILE), None, Some((3, 4)), None).unwrap(), "c");
    assert_eq!(resolve(Some(FILE), None, Some((2, 3)), None).unwrap(), "b");
}

#[test]
fn a_line_past_the_end_fails() {
    assert_eq!(
        resolve(Some(FILE), Some(10), None, None).unwrap_err(),
        failure(ResolveFailure::LineOutOfRange)
    );
    assert_eq!(
        resolve(Some(FILE), Some(4), None, None).unwrap_err(),
        failure(ResolveFailure::LineOutOfRange)
    );
    assert_eq!(
        resolve(Some(FILE), Some(0), None, None).unwrap_err(),
        failure(ResolveFailure::LineOutOfRange)
    );
    assert_eq!(
        resolve(Some(""), Some(1), None, None).unwrap_err(),
        failure(ResolveFailure::LineOutOfRange)
    );
}

#[test]
fn without_a_file_the_inline_text_or_nothing() {
    assert_eq!(resolve(None, None, None, Some("x")).unwrap(), "x");
    assert_eq!(resolve(None, None, None, None).unwrap(), "");
    assert_eq!(resolve(None, Some(3), Some((0, 0)), Some("x\n")).unwrap(), "x\n");
}

#[test]
fn with_a_file_the_inline_text_is_not_used() {
    assert_eq!(resolve(Some(FILE), Some(2), None, Some("x")).unwrap(), "b");
}

#[test]
fn a_line_and_a_range_together_fail() {
    assert_eq!(
        resolve(Some(FILE), Some(1), Some((1, 2)), None).unwrap_err(),
        failure(ResolveFailure::BothSelectors)
    );
    assert_eq!(select(Some(1), Some((1, 2))).unwrap_err(), failure(ResolveFailure::BothSelectors));
}

#[test]
fn a_range_has_to_start_at_line_one_or_later_before_its_end() {
    assert_eq!(
        resolve(Some(FILE), None, Some((2, 2)), None).unwrap_err(),
        failure(ResolveFailure::EmptyRange)
    );
    assert_eq!(
        resolve(Some(FILE), None, Some((3, 1)), None).unwrap_err(),
        failure(ResolveFailure::EmptyRange)
    );
    assert_eq!(
        resolve(Some(FILE), None, Some((0, 0)), None).unwrap_err(),
        failure(ResolveFailure::EmptyRange)
    );
    assert_eq!(
        resolve(Some(FILE), None, Some((0, 2)), None).unwrap_err(),
        failure(ResolveFailure::RangeStartsAtZero)
    );
}

#[test]
fn a_range_past_the_end_fails() {
    assert_eq!(
        resolve(Some(FILE), None, Some((1, 5)), None).unwrap_err(),
        failure(ResolveFailure::RangePastEnd)
    );
    assert_eq!(
        resolve(Some(FILE), None, Some((4, 5)), None).unwrap_err(),
        failure(ResolveFailure::RangePastEnd)
    );
    assert_eq!(
        resolve(Some(""), None, Some((1, 2)), None).unwrap_err(),
        failure(ResolveFailure::RangePastEnd)
    );
}

#[test]
fn selectors_are_made_of_what_was_given() {
    assert_eq!(select(None, None).unwrap(), None);
    assert_eq!(select(Some(7), None).unwrap(), Some(LineSelector::Single(7)));
    assert_eq!(
        select(None, Some((2, 9))).unwrap(),
        Some(LineSelector::Range { start: 2, end: 9 })
    );
    assert_eq!(select(None, Some((9, 2))).unwrap_err(), failure(ResolveFailure::EmptyRange));
    assert_eq!(LineSelector::range(2, 9), Some(LineSelector::Range { start: 2, end: 9 }));
    assert_eq!(LineSelector::range(2, 2), None);
}

#[test]
fn pick_takes_what_the_selector_says() {
    let text = "one\r\ntwo\nthree";
    assert_eq!(pick(text, None).unwrap(), text);
    assert_eq!(pick(text, Some(LineSelector::Single(1))).unwrap(), "one");
    assert_eq!(pick(text, Some(LineSelector::Single(3))).unwrap(), "three");
    assert_eq!(
        pick(text, Some(LineSelector::Range { start: 1, end: 4 })).unwrap(),
        "one\ntwo\nthree"
    );
    assert_eq!(
        pick(text, Some(LineSelector::Range { start: 3, end: 2 })).unwrap_err(),
        failure(ResolveFailure::EmptyRange)
    );
}

#[test]
fn trailing_line_feeds_of_the_whole_file_are_kept() {
    assert_eq!(resolve(Some("x\n\n"), None, None, None).unwrap(), "x\n\n");
}

#[test]
fn a_range_is_two_numbers_with_two_dots_between() {
    assert_eq!(parse_range("1..3"), Some((1, 3)));
    assert_eq!(parse_range("0..0"), Some((0, 0)));
    assert_eq!(parse_range("10..2"), Some((10, 2)));
    assert_eq!(parse_range("007..65535"), Some((7, 65535)));
    assert_eq!(parse_range("1..65536"), None);
    assert_eq!(parse_range("99999999999999999999..1"), None);
    assert_eq!(parse_range(""), None);
    assert_eq!(parse_range(".."), None);
    assert_eq!(parse_range("1.."), None);
    assert_eq!(parse_range("..3"), None);
    assert_eq!(parse_range("1.3"), None);
    assert_eq!(parse_range("1...3"), None);
    assert_eq!(parse_range("1..3..5"), None);
    assert_eq!(parse_range("a..3"), None);
    assert_eq!(parse_range("1..+3"), None);
    assert_eq!(parse_range(" 1..3"), None);
    assert_eq!(parse_range("13"), None);
}

#[test]
fn a_line_number_is_digits_that_fit_sixteen_bits() {
    let v: Vec<char> = "x123y".chars().collect();
    assert_eq!(read_line_number(&v, 1, 4), Some(123));
    assert_eq!(read_line_number(&v, 1, 1), None);
    assert_eq!(read_line_number(&v, 0, 4), None);
    assert_eq!(read_line_number(&v, 1, 5), None);
    let v: Vec<char> = "65535".chars().collect();
    assert_eq!(read_line_number(&v, 0, 5), Some(65535));
    let v: Vec<char> = "65536".chars().collect();
    assert_eq!(read_line_number(&v, 0, 5), None);
}
