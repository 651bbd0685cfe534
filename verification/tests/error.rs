use rsm::error::{Error, ResolveFailure};

#[test]
fn each_reason_is_put_in_words() {
    assert_eq!(ResolveFailure::BothSelectors.detail(), "a line and a range cannot both be given");
    assert_eq!(ResolveFailure::LineOutOfRange.detail(), "the file has no such line");
    assert_eq!(ResolveFailure::RangeStartsAtZero.detail(), "lines are counted from 1");
    assert_eq!(ResolveFailure::EmptyRange.detail(), "the range has to start before it ends");
    assert_eq!(ResolveFailure::RangePastEnd.detail(), "the range reaches past the end of the file");
    assert_eq!(ResolveFailure::Unreadable.detail(), "the file could not be read");
}

#[test]
fn failures_compare_by_kind_and_reason() {
    assert_eq!(Error::NoAuth, Error::NoAuth);
    assert_ne!(Error::NoAuth, Error::LoginFail);
    assert_ne!(
        Error::FailedToResolveFile { detail: ResolveFailure::EmptyRange },
        Error::FailedToResolveFile { detail: ResolveFailure::RangePastEnd }
    );
}
