use aaxsplit::error::SplitError;
use aaxsplit::validators::{bitrate, file_name, DEFAULT_BITRATE};

#[test]
fn default_bitrate_is_256k() {
    assert_eq!(DEFAULT_BITRATE, "256k");
    assert_eq!(bitrate(DEFAULT_BITRATE), Ok(()));
}

#[test]
fn bitrate_may_be_a_plain_number() {
    assert_eq!(bitrate("128000"), Ok(()));
    assert_eq!(bitrate("0"), Ok(()));
    assert_eq!(bitrate("7"), Ok(()));
}

#[test]
fn bitrate_may_end_in_k_or_m() {
    assert_eq!(bitrate("256k"), Ok(()));
    assert_eq!(bitrate("64k"), Ok(()));
    assert_eq!(bitrate("1M"), Ok(()));
    assert_eq!(bitrate("12M"), Ok(()));
}

#[test]
fn bitrate_of_letters_is_refused() {
    assert_eq!(bitrate("abc"), Err(SplitError::ValidationError));
}

#[test]
fn bitrate_needs_a_digit() {
    assert_eq!(bitrate(""), Err(SplitError::ValidationError));
    assert_eq!(bitrate("k"), Err(SplitError::ValidationError));
    assert_eq!(bitrate("M"), Err(SplitError::ValidationError));
}

#[test]
fn bitrate_takes_one_unit_at_the_end() {
    assert_eq!(bitrate("12kk"), Err(SplitError::ValidationError));
    assert_eq!(bitrate("12kM"), Err(SplitError::ValidationError));
    assert_eq!(bitrate("k12"), Err(SplitError::ValidationError));
    assert_eq!(bitrate("1k2"), Err(SplitError::ValidationError));
    assert_eq!(bitrate("12K"), Err(SplitError::ValidationError));
    assert_eq!(bitrate("12m"), Err(SplitError::ValidationError));
    assert_eq!(bitrate("12G"), Err(SplitError::ValidationError));
}

#[test]
fn bitrate_takes_nothing_but_digits_before_the_unit() {
    assert_eq!(bitrate("12 k"), Err(SplitError::ValidationError));
    assert_eq!(bitrate(" 12k"), Err(SplitError::ValidationError));
    assert_eq!(bitrate("12k "), Err(SplitError::ValidationError));
    assert_eq!(bitrate("-12k"), Err(SplitError::ValidationError));
    assert_eq!(bitrate("1.5M"), Err(SplitError::ValidationError));
    assert_eq!(bitrate("0x10"), Err(SplitError::ValidationError));
    assert_eq!(bitrate("\u{ff11}\u{ff12}k"), Err(SplitError::ValidationError));
    assert_eq!(bitrate("12\u{ff4b}"), Err(SplitError::ValidationError));
}

#[test]
fn file_name_must_not_be_empty_and_must_be_there() {
    assert_eq!(file_name("book.aax", true), Ok(()));
    assert_eq!(file_name("book.aax", false), Err(SplitError::ValidationError));
    assert_eq!(file_name("", true), Err(SplitError::ValidationError));
    assert_eq!(file_name("", false), Err(SplitError::ValidationError));
}
