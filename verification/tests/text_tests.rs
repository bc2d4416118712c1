use tunno_sync::norm::normalize_string;
use tunno_sync::numfmt::{i64_to_string, u64_to_string};
use tunno_sync::order::{sort_strings, str_lex_le};
use tunno_sync::store::sql_placeholders;
use tunno_sync::text::str_eq;

#[test]
fn normalization_trims_lowercases_and_collapses() {
    assert_eq!(normalize_string("  Hello   World  "), "hello world");
    assert_eq!(normalize_string("PLAIN"), "plain");
    assert_eq!(normalize_string("a\t\n b"), "a b");
    assert_eq!(normalize_string("   "), "");
    assert_eq!(normalize_string(""), "");
}

#[test]
fn decimal_rendering_matches_standard_formatting() {
    assert_eq!(u64_to_string(0), "0");
    assert_eq!(u64_to_string(42), "42");
    assert_eq!(u64_to_string(18446744073709551615), "18446744073709551615");
    assert_eq!(i64_to_string(-5), "-5");
    assert_eq!(i64_to_string(180), "180");
    assert_eq!(i64_to_string(i64::MIN), "-9223372036854775808");
}

#[test]
fn string_equality_is_exact() {
    assert!(str_eq("abc", "abc"));
    assert!(!str_eq("abc", "abd"));
    assert!(!str_eq("abc", "abcd"));
    assert!(str_eq("", ""));
}

#[test]
fn lexicographic_order_follows_code_points() {
    assert!(str_lex_le("apple", "banana"));
    assert!(str_lex_le("app", "apple"));
    assert!(!str_lex_le("apple", "app"));
    assert!(str_lex_le("same", "same"));
    assert!(str_lex_le("Z", "a")); // uppercase code points come first
}

#[test]
fn sorting_strings_orders_and_keeps_duplicates() {
    let v = vec!["pear".to_string(), "apple".to_string(), "pear".to_string(), "fig".to_string()];
    let sorted = sort_strings(&v);
    assert_eq!(
        sorted,
        vec!["apple".to_string(), "fig".to_string(), "pear".to_string(), "pear".to_string()]
    );
}

#[test]
fn placeholder_lists_grow_one_question_mark_per_key() {
    assert_eq!(sql_placeholders(0), "");
    assert_eq!(sql_placeholders(1), "?");
    assert_eq!(sql_placeholders(3), "?,?,?");
}
