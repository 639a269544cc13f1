use ff::args::{fmt_ranges, parse_as_range, RangeError};

#[test]
fn test_parser() {
    assert_eq!(parse_as_range("10").unwrap(), 10..=10);
    assert_eq!(parse_as_range("20-27").unwrap(), 20..=27);
    assert_eq!(parse_as_range("0-1").unwrap(), 0..=1);
}

#[test]
fn fmt_range_test() {
    assert_eq!(fmt_ranges(&[]), "");

    assert_eq!(fmt_ranges(&[1]), "1");
    assert_eq!(fmt_ranges(&[1, 2]), "1-2");
    assert_eq!(fmt_ranges(&[1, 2, 3, 4, 5]), "1-5");
    assert_eq!(fmt_ranges(&[1, 2, 3, 4, 5, 9]), "1-5, 9");
    assert_eq!(fmt_ranges(&[1, 2, 4, 8, 9, 15]), "1-2, 4, 8-9, 15");
}

#[test]
fn parse_range_errors() {
    assert_eq!(parse_as_range(""), Err(RangeError::BadStart));
    assert_eq!(parse_as_range("x"), Err(RangeError::BadStart));
    assert_eq!(parse_as_range("-5"), Err(RangeError::BadStart));
    assert_eq!(parse_as_range("5-"), Err(RangeError::MissingEnd));
    assert_eq!(parse_as_range("5-x"), Err(RangeError::BadEnd));
    assert_eq!(parse_as_range("5-6-7"), Err(RangeError::BadEnd));
    assert_eq!(parse_as_range("18446744073709551616"), Err(RangeError::BadStart));
}

#[test]
fn parse_range_edges() {
    assert_eq!(parse_as_range("+3-+4").unwrap(), 3..=4);
    assert_eq!(parse_as_range("007").unwrap(), 7..=7);
    assert_eq!(
        parse_as_range("0-18446744073709551615").unwrap(),
        0..=u64::MAX
    );
    assert_eq!(parse_as_range("9-2").unwrap(), 9..=2);
}

#[test]
fn fmt_ranges_edges() {
    assert_eq!(fmt_ranges(&[0]), "0");
    assert_eq!(fmt_ranges(&[3, 3]), "3, 3");
    assert_eq!(fmt_ranges(&[5, 4]), "5, 4");
    assert_eq!(
        fmt_ranges(&[u64::MAX - 1, u64::MAX, 0, 1]),
        "18446744073709551614-18446744073709551615, 0-1"
    );
    assert_eq!(fmt_ranges(&[10, 11, 12, 100]), "10-12, 100");
}
