//! The character-level building blocks: replacement, escaping, names.

use hoare::text::{
    assert_label, chars_eq, chars_of, escape_quote_chars, loop_label, replace_chars, result_name,
    return_kw,
};

fn n(s: &str) -> Vec<char> {
    s.chars().collect()
}

fn s(v: &Vec<char>) -> String {
    String::from_iter(v.iter())
}

#[test]
fn chars_round_trip() {
    assert_eq!(chars_of("hello"), n("hello"));
    assert_eq!(chars_of(""), n(""));
    assert!(chars_eq(&n("abc"), &n("abc")));
    assert!(!chars_eq(&n("abc"), &n("abd")));
    assert!(!chars_eq(&n("abc"), &n("ab")));
}

#[test]
fn replacement_is_left_to_right_and_non_overlapping() {
    let out = replace_chars(&n("return + return"), &return_kw(), &n("__result_0"));
    assert_eq!(s(&out), "__result_0 + __result_0");
    let out = replace_chars(&n("aaa"), &n("aa"), &n("b"));
    assert_eq!(s(&out), "ba");
    let out = replace_chars(&n("no match"), &n("zz"), &n("b"));
    assert_eq!(s(&out), "no match");
}

#[test]
fn quotes_are_escaped() {
    let out = escape_quote_chars(&n("a \"b\" c"));
    assert_eq!(s(&out), "a \\\"b\\\" c");
}

#[test]
fn labels_follow_the_reported_format() {
    let label = assert_label("Precondition", &n("half"), &n("x >= -100"));
    assert_eq!(s(&label), "Precondition of half (x >= -100)");
    let label = assert_label("Invariant leaving", &n("push"), &n("self.len() > 0"));
    assert_eq!(s(&label), "Invariant leaving of push (self.len() > 0)");
}

#[test]
fn synthesized_names_carry_the_instance_number() {
    assert_eq!(s(&result_name(0)), "__result_0");
    assert_eq!(s(&result_name(4294967295)), "__result_4294967295");
    assert_eq!(s(&loop_label(17)), "'__hoare_17");
}
