use zcash_artifacts::path::{is_file_name, join_path};
use zcash_artifacts::text::{
    clone_names, clone_optional, decimal_string, holds_char, join_names, phrase, phrase_pair,
    same_text, signed_decimal_string,
};

#[test]
fn decimal_of_zero() {
    assert_eq!(decimal_string(0), "0");
}

#[test]
fn decimal_of_small_and_large_numbers() {
    assert_eq!(decimal_string(7), "7");
    assert_eq!(decimal_string(10), "10");
    assert_eq!(decimal_string(1759155663), "1759155663");
    assert_eq!(decimal_string(u64::MAX), "18446744073709551615");
}

#[test]
fn signed_decimal_keeps_the_sign() {
    assert_eq!(signed_decimal_string(0), "0");
    assert_eq!(signed_decimal_string(2), "2");
    assert_eq!(signed_decimal_string(-1), "-1");
    assert_eq!(signed_decimal_string(i32::MIN), "-2147483648");
    assert_eq!(signed_decimal_string(i32::MAX), "2147483647");
}

#[test]
fn holds_char_finds_a_character_anywhere() {
    assert!(holds_char("a|b", '|'));
    assert!(holds_char("|", '|'));
    assert!(holds_char("ab+", '+'));
    assert!(!holds_char("abc", '|'));
    assert!(!holds_char("", '|'));
}

#[test]
fn same_text_compares_whole_texts() {
    assert!(same_text("linux-x86_64", "linux-x86_64"));
    assert!(!same_text("linux-x86_64", "linux-x86_6"));
    assert!(same_text("", ""));
}

#[test]
fn join_names_puts_the_separator_between() {
    let none: Vec<String> = vec![];
    assert_eq!(join_names(&none, ", "), "");
    assert_eq!(join_names(&vec!["gcc".to_string()], ", "), "gcc");
    assert_eq!(
        join_names(&vec!["gcc".to_string(), "make".to_string(), "perl".to_string()], ", "),
        "gcc, make, perl"
    );
}

#[test]
fn copies_keep_their_content() {
    let names = vec!["a".to_string(), "bc".to_string()];
    assert_eq!(clone_names(&names), names);
    assert_eq!(clone_optional(&Some("x".to_string())), Some("x".to_string()));
    assert_eq!(clone_optional(&None), None);
}

#[test]
fn phrases_are_concatenations() {
    assert_eq!(phrase("stat ", "/bin/true"), "stat /bin/true");
    assert_eq!(phrase_pair("rename ", "a.tmp", " to ", "a"), "rename a.tmp to a");
}

#[test]
fn join_path_puts_one_slash_between() {
    assert_eq!(join_path("/cache", "zcashd"), "/cache/zcashd");
    assert_eq!(join_path("/cache/", "zcashd"), "/cache/zcashd");
    assert_eq!(join_path("", "zcashd"), "zcashd");
    assert_eq!(join_path("repo", "src/zcashd"), "repo/src/zcashd");
}

#[test]
fn join_path_keeps_an_absolute_path() {
    assert_eq!(join_path("/repo", "/opt/bin/zcashd"), "/opt/bin/zcashd");
}

#[test]
fn file_names_hold_no_slash() {
    assert!(is_file_name("zcashd"));
    assert!(!is_file_name(""));
    assert!(!is_file_name("src/zcashd"));
}
