use searchb::search::{find_first, needs_target};

#[test]
fn slice_in_the_middle_is_found() {
    assert_eq!(find_first(b"xxabcyy", b"abc"), Some(2));
}

#[test]
fn absent_pattern_is_not_found() {
    assert_eq!(find_first(b"xyz", b"abc"), None);
}

#[test]
fn empty_query_matches_at_zero() {
    assert_eq!(find_first(b"anything", b""), Some(0));
}

#[test]
fn empty_query_matches_empty_target() {
    assert_eq!(find_first(b"", b""), Some(0));
}

#[test]
fn empty_target_never_matches_nonempty_query() {
    assert_eq!(find_first(b"", b"abc"), None);
}

#[test]
fn leftmost_match_wins() {
    assert_eq!(find_first(b"abcabc", b"abc"), Some(0));
    assert_eq!(find_first(b"xabcabc", b"abc"), Some(1));
}

#[test]
fn repeated_slice_reports_an_earlier_identical_match() {
    let t = b"ababab";
    let q = &t[2..4];
    let r = find_first(t, q).expect("a contained slice must be found");
    assert!(r <= 2);
    assert_eq!(&t[r..r + q.len()], q);
    assert_eq!(r, 0);
}

#[test]
fn query_with_absent_byte_is_not_found() {
    assert_eq!(find_first(b"aaaa", b"aza"), None);
}

#[test]
fn query_longer_than_target_is_not_found() {
    assert_eq!(find_first(b"ab", b"abc"), None);
}

#[test]
fn single_byte_queries() {
    assert_eq!(find_first(b"hello", b"l"), Some(2));
    assert_eq!(find_first(b"hello", b"q"), None);
}

#[test]
fn match_at_the_very_end() {
    assert_eq!(find_first(b"xxabc", b"abc"), Some(2));
    assert_eq!(find_first(b"abc", b"abc"), Some(0));
}

#[test]
fn only_a_nonempty_query_needs_the_target() {
    assert!(!needs_target(b""));
    assert!(needs_target(b"a"));
}
