use gps_correct::scan::{find, matches_at};

#[test]
fn find_gives_the_first_offset() {
    assert_eq!(find("abcabc".as_bytes(), "bc".as_bytes(), 0), Some(1));
    assert_eq!(find("abcabc".as_bytes(), "bc".as_bytes(), 1), Some(1));
    assert_eq!(find("abcabc".as_bytes(), "bc".as_bytes(), 2), Some(4));
    assert_eq!(find("abcabc".as_bytes(), "bc".as_bytes(), 5), None);
    assert_eq!(find("abcabc".as_bytes(), "cab".as_bytes(), 0), Some(2));
    assert_eq!(find("abcabc".as_bytes(), "abcabc".as_bytes(), 0), Some(0));
}

#[test]
fn find_without_a_match() {
    assert_eq!(find("abcabc".as_bytes(), "cb".as_bytes(), 0), None);
    assert_eq!(find("abc".as_bytes(), "abcd".as_bytes(), 0), None);
    assert_eq!(find("".as_bytes(), "a".as_bytes(), 0), None);
    assert_eq!(find("abc".as_bytes(), "a".as_bytes(), 7), None);
}

#[test]
fn the_empty_needle_lies_everywhere() {
    assert_eq!(find("abc".as_bytes(), "".as_bytes(), 0), Some(0));
    assert_eq!(find("abc".as_bytes(), "".as_bytes(), 3), Some(3));
    assert_eq!(find("abc".as_bytes(), "".as_bytes(), 4), None);
    assert_eq!(find("".as_bytes(), "".as_bytes(), 0), Some(0));
}

#[test]
fn matches_at_looks_at_one_offset() {
    assert!(matches_at("abcabc".as_bytes(), "ca".as_bytes(), 2));
    assert!(!matches_at("abcabc".as_bytes(), "ca".as_bytes(), 1));
    assert!(!matches_at("abcabc".as_bytes(), "ca".as_bytes(), 5));
    assert!(!matches_at("abcabc".as_bytes(), "ca".as_bytes(), 60));
    assert!(matches_at("abc".as_bytes(), "".as_bytes(), 3));
    assert!(!matches_at("abc".as_bytes(), "".as_bytes(), 4));
}
