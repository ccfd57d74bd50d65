use codex_core::text::{int_to_string, is_blank, str_lt, trim_str};
use codex_core::util::{normalize_thread_name, resolve_path};

#[test]
fn integers_render_in_decimal() {
    assert_eq!(int_to_string(0), "0");
    assert_eq!(int_to_string(42), "42");
    assert_eq!(int_to_string(-7), "-7");
    assert_eq!(int_to_string(i64::MAX), i64::MAX.to_string());
    assert_eq!(int_to_string(i64::MIN), i64::MIN.to_string());
}

#[test]
fn strings_compare_like_str() {
    for (a, b) in [("a", "b"), ("ab", "a"), ("", "x"), ("same", "same"), ("Z", "a"), ("é", "e")] {
        assert_eq!(str_lt(a, b), a < b, "{a} < {b}");
    }
}

#[test]
fn trimming_and_blankness() {
    assert_eq!(trim_str("  a b \t\n"), "a b");
    assert_eq!(trim_str(""), "");
    assert!(is_blank(" \n\t"));
    assert!(!is_blank(" x "));
}

#[test]
fn paths_resolve_against_base() {
    assert_eq!(resolve_path("/home/u", "/etc/x"), "/etc/x");
    assert_eq!(resolve_path("/home/u", "docs/a.md"), "/home/u/docs/a.md");
    assert_eq!(resolve_path("/home/u/", "a"), "/home/u/a");
    assert_eq!(resolve_path("", "a"), "a");
}

#[test]
fn thread_names_are_trimmed() {
    assert_eq!(normalize_thread_name("  my thread "), Some("my thread".to_string()));
    assert_eq!(normalize_thread_name(" \t "), None);
    assert_eq!(normalize_thread_name(""), None);
}
