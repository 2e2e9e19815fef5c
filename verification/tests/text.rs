use dashboard_core::text::{
    chars_of, decimal, eq_ignore_ascii_case, find_in, joined, matches_at, same_text, starts_with,
};

#[test]
fn decimal_numerals() {
    assert_eq!(decimal(0), "0");
    assert_eq!(decimal(7), "7");
    assert_eq!(decimal(10), "10");
    assert_eq!(decimal(905), "905");
    assert_eq!(decimal(u64::MAX), "18446744073709551615");
}

#[test]
fn joined_texts() {
    assert_eq!(joined("ab", "cd"), "abcd");
    assert_eq!(joined("", ""), "");
    assert_eq!(joined("é", "•"), "é•");
}

#[test]
fn chars_are_scalar_values() {
    assert_eq!(chars_of("a•b"), vec!['a', '•', 'b']);
    assert_eq!(chars_of(""), Vec::<char>::new());
}

#[test]
fn finds_least_occurrence() {
    let hay = chars_of("a://b://c");
    let needle = chars_of("://");
    assert_eq!(find_in(&hay, &needle, 0), Some(1));
    assert_eq!(find_in(&hay, &needle, 2), Some(5));
    assert_eq!(find_in(&hay, &needle, 6), None);
    assert_eq!(find_in(&hay, &needle, 100), None);
    assert!(matches_at(&hay, &needle, 5));
    assert!(!matches_at(&hay, &needle, 4));
    assert!(!matches_at(&hay, &needle, 8));
}

#[test]
fn empty_needle_occurs_everywhere() {
    let hay = chars_of("ab");
    let needle = chars_of("");
    assert_eq!(find_in(&hay, &needle, 0), Some(0));
    assert_eq!(find_in(&hay, &needle, 2), Some(2));
    assert_eq!(find_in(&hay, &needle, 3), None);
}

#[test]
fn prefixes() {
    assert!(starts_with("Cached • updated 3m ago", "Cached"));
    assert!(starts_with("Cached", "Cached"));
    assert!(!starts_with("Cache", "Cached"));
    assert!(!starts_with("Offline • Cached", "Cached"));
    assert!(starts_with("anything", ""));
}

#[test]
fn equality_with_and_without_case() {
    assert!(same_text("abc", "abc"));
    assert!(!same_text("abc", "abd"));
    assert!(!same_text("abc", "ab"));
    assert!(eq_ignore_ascii_case("Top Stories", "top stories"));
    assert!(eq_ignore_ascii_case("TOP STORIES", "Top Stories"));
    assert!(!eq_ignore_ascii_case("Top Stories", "Top Story"));
    assert!(!eq_ignore_ascii_case("É", "é"));
    assert!(!eq_ignore_ascii_case("@", "`"));
    assert!(!eq_ignore_ascii_case("[", "{"));
}
