use minelander::strutil::{
    contains_lower, contains_sub, ends_with_char, join_with, parse_i32, replace_all, rfind_char,
    split_any, split_char, split_whitespace_vec, str_cmp, str_eq, u64_to_dec,
};

#[test]
fn equality_is_by_characters() {
    assert!(str_eq("abc", "abc"));
    assert!(!str_eq("abc", "abd"));
    assert!(!str_eq("abc", "ab"));
    assert!(str_eq("", ""));
}

#[test]
fn substring_search() {
    assert!(contains_sub("path/to/natives.jar", "natives.jar"));
    assert!(!contains_sub("path/to/client.jar", "natives.jar"));
    assert!(contains_sub("anything", ""));
    assert!(!contains_sub("ab", "abc"));
}

#[test]
fn search_ignores_ascii_case() {
    assert!(contains_lower("My-Fabric-Pack", "fabric"));
    assert!(contains_lower("FORGE-1.12", "forge"));
    assert!(!contains_lower("vanilla", "fabric"));
}

#[test]
fn replacement_is_left_to_right_and_total() {
    assert_eq!(replace_all("a.b.c", ".", "/"), "a/b/c");
    assert_eq!(replace_all("${v} and ${v}", "${v}", "x"), "x and x");
    assert_eq!(replace_all("nothing here", "${v}", "x"), "nothing here");
    assert_eq!(replace_all("aaa", "aa", "b"), "ba");
    assert_eq!(replace_all("1.2.3", ".", ""), "123");
}

#[test]
fn splitting_keeps_empty_pieces() {
    assert_eq!(split_char("a:b:c", ':'), vec!["a", "b", "c"]);
    assert_eq!(split_char("a::c", ':'), vec!["a", "", "c"]);
    assert_eq!(split_char("", ':'), vec![""]);
    assert_eq!(split_any("1.20-pre1", &vec!['.', '-']), vec!["1", "20", "pre1"]);
}

#[test]
fn whitespace_split_drops_empty_words() {
    assert_eq!(split_whitespace_vec("a  b\tc"), vec!["a", "b", "c"]);
    assert_eq!(split_whitespace_vec("  "), Vec::<String>::new());
}

#[test]
fn joining_with_a_separator() {
    let parts = vec![String::from("a"), String::from("b"), String::from("c")];
    assert_eq!(join_with(&parts, "/"), "a/b/c");
    assert_eq!(join_with(&Vec::new(), "/"), "");
}

#[test]
fn integer_parsing_matches_the_standard_reader() {
    assert_eq!(parse_i32("42"), Some(42));
    assert_eq!(parse_i32("-42"), Some(-42));
    assert_eq!(parse_i32("+7"), Some(7));
    assert_eq!(parse_i32("2147483647"), Some(i32::MAX));
    assert_eq!(parse_i32("-2147483648"), Some(i32::MIN));
    assert_eq!(parse_i32("2147483648"), None);
    assert_eq!(parse_i32("-2147483649"), None);
    assert_eq!(parse_i32(""), None);
    assert_eq!(parse_i32("-"), None);
    assert_eq!(parse_i32("1a"), None);
    assert_eq!(parse_i32("007"), Some(7));
    assert_eq!(parse_i32("99999999999999999999"), None);
}

#[test]
fn decimal_rendering() {
    assert_eq!(u64_to_dec(0), "0");
    assert_eq!(u64_to_dec(7), "7");
    assert_eq!(u64_to_dec(2560), "2560");
    assert_eq!(u64_to_dec(18446744073709551615), "18446744073709551615");
}

#[test]
fn lexicographic_comparison() {
    assert_eq!(str_cmp("pre1", "pre2"), std::cmp::Ordering::Less);
    assert_eq!(str_cmp("pre2", "pre2"), std::cmp::Ordering::Equal);
    assert_eq!(str_cmp("pre10", "pre2"), std::cmp::Ordering::Less);
    assert_eq!(str_cmp("b", "a"), std::cmp::Ordering::Greater);
    assert_eq!(str_cmp("", "a"), std::cmp::Ordering::Less);
}

#[test]
fn end_and_rfind_helpers() {
    assert!(ends_with_char("https://maven.example/", '/'));
    assert!(!ends_with_char("https://maven.example", '/'));
    assert!(!ends_with_char("", '/'));
    assert_eq!(rfind_char("/a/b/c", '/'), Some(4));
    assert_eq!(rfind_char("abc", '/'), None);
}
