use eva_runtime::text::{
    ascii_lowercase, contains, contains_string, dash_list, decimal_string, ends_with, insert_sorted,
    join_or_strings, join_strings, lines, sort_dedup, starts_with, str_eq, str_lt, trimmed, trimmed_start,
};

fn strings(v: &[&str]) -> Vec<String> {
    v.iter().map(|s| s.to_string()).collect()
}

#[test]
fn comparisons_follow_characters() {
    assert!(str_eq("abc", "abc"));
    assert!(!str_eq("abc", "abd"));
    assert!(starts_with("src/core/x.rs", "src/core/"));
    assert!(!starts_with("src", "src/"));
    assert!(ends_with("a/Cargo.toml", "/Cargo.toml"));
    assert!(contains("tests/replay.rs", "replay"));
    assert!(!contains("tests", "replay"));
    assert!(str_lt("a", "b"));
    assert!(str_lt("ab", "abc"));
    assert!(!str_lt("b", "a"));
    assert!(!str_lt("a", "a"));
}

#[test]
fn sorted_sets_of_strings() {
    assert_eq!(sort_dedup(strings(&["b", "a", "b", "c"])), strings(&["a", "b", "c"]));
    let mut v = strings(&["a", "c"]);
    insert_sorted(&mut v, "b".to_string());
    insert_sorted(&mut v, "c".to_string());
    assert_eq!(v, strings(&["a", "b", "c"]));
    assert!(contains_string(&v, "b"));
    assert!(!contains_string(&v, "d"));
}

#[test]
fn numbers_and_joins() {
    assert_eq!(decimal_string(0), "0");
    assert_eq!(decimal_string(1234567890), "1234567890");
    assert_eq!(join_strings(&strings(&["a", "b", "c"]), ", "), "a, b, c");
    assert_eq!(join_strings(&Vec::new(), ", "), "");
    assert_eq!(join_or_strings(&Vec::new(), ",", "none"), "none");
    assert_eq!(join_or_strings(&strings(&["x"]), ",", "none"), "x");
}

#[test]
fn trimming_and_case() {
    assert_eq!(trimmed("  a b \t\n"), "a b");
    assert_eq!(trimmed_start("  a b "), "a b ");
    assert_eq!(ascii_lowercase("AbC-Ж"), "abc-Ж");
}

#[test]
fn lines_match_the_standard_library() {
    for text in ["a\nb\r\nc", "a\n\nb\n", "", "\n", "x\r\n"] {
        let expected: Vec<String> = text.lines().map(|s| s.to_string()).collect();
        assert_eq!(lines(text), expected);
    }
}

#[test]
fn dash_lists_prefix_each_item() {
    assert_eq!(dash_list(&strings(&["a", "b"])), "- a\n- b");
}
