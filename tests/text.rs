use ff::text::{find_either, has_char, parse_u32_in, parse_u64_in, same_text};

#[test]
fn u64_text_is_read_like_std() {
    let cases = ["0", "42", "+7", "007", "18446744073709551615", "18446744073709551616", "", "+", "-1", "1 ", "x1", "99999999999999999999999"];
    for c in cases {
        let n = c.chars().count();
        assert_eq!(parse_u64_in(c, 0, n), c.parse::<u64>().ok(), "{c:?}");
    }
}

#[test]
fn u32_text_is_read_like_std() {
    let cases = ["0", "4294967295", "4294967296", "+12", "abc", ""];
    for c in cases {
        let n = c.chars().count();
        assert_eq!(parse_u32_in(c, 0, n), c.parse::<u32>().ok(), "{c:?}");
    }
}

#[test]
fn numbers_inside_a_text() {
    assert_eq!(parse_u64_in("ab123cd", 2, 5), Some(123));
    assert_eq!(parse_u64_in("ab123cd", 2, 2), None);
    assert_eq!(parse_u64_in("é12", 1, 3), Some(12));
}

#[test]
fn separators_are_found_from_a_position() {
    assert_eq!(find_either("6.16.5-arch", 0, '.', '-'), 1);
    assert_eq!(find_either("6.16.5-arch", 2, '.', '-'), 4);
    assert_eq!(find_either("6.16.5-arch", 5, '.', '-'), 6);
    assert_eq!(find_either("6.16.5-arch", 7, '.', '-'), 11);
    assert_eq!(find_either("", 0, ',', ','), 0);
}

#[test]
fn texts_compare_by_characters() {
    assert!(same_text("sync", "sync"));
    assert!(!same_text("sync", "async"));
    assert!(!same_text("sync", "synd"));
    assert!(same_text("", ""));
    assert!(has_char("data=journal", '='));
    assert!(!has_char("journal", '='));
}
