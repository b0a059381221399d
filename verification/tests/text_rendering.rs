use sysprobe::text::{
    c_str_prefix, chars_of, decimal_string, last_segment, push_decimal, push_signed_decimal,
    remove_char, string_of, trim, until_nul,
};

#[test]
fn decimal_of_small_and_large_numbers() {
    assert_eq!(decimal_string(0), "0");
    assert_eq!(decimal_string(7), "7");
    assert_eq!(decimal_string(10), "10");
    assert_eq!(decimal_string(1234567890), "1234567890");
    assert_eq!(decimal_string(u64::MAX), "18446744073709551615");
}

#[test]
fn push_decimal_appends() {
    let mut s = String::from("n=");
    push_decimal(&mut s, 405);
    assert_eq!(s, "n=405");
}

#[test]
fn signed_decimal_has_a_sign_only_when_negative() {
    let mut s = String::new();
    push_signed_decimal(&mut s, 0);
    s.push(' ');
    push_signed_decimal(&mut s, -1);
    s.push(' ');
    push_signed_decimal(&mut s, 42);
    s.push(' ');
    push_signed_decimal(&mut s, i64::MIN);
    s.push(' ');
    push_signed_decimal(&mut s, i64::MAX);
    assert_eq!(s, "0 -1 42 -9223372036854775808 9223372036854775807");
}

#[test]
fn chars_and_substrings() {
    let chars = chars_of("héllo");
    assert_eq!(chars, vec!['h', 'é', 'l', 'l', 'o']);
    assert_eq!(string_of(&chars, 1, 4), "éll");
    assert_eq!(string_of(&chars, 2, 2), "");
    assert_eq!(string_of(&chars, 0, 5), "héllo");
}

#[test]
fn trim_removes_white_space_at_both_ends_only() {
    assert_eq!(trim("  14.5\n"), "14.5");
    assert_eq!(trim("a b"), "a b");
    assert_eq!(trim("\t a  b \r\n"), "a  b");
    assert_eq!(trim("   "), "");
    assert_eq!(trim(""), "");
    assert_eq!(trim("\u{a0}x\u{2003}"), "x");
}

#[test]
fn last_segment_follows_the_last_separator() {
    assert_eq!(last_segment("/bin/zsh", '/'), "zsh");
    assert_eq!(last_segment("fish", '/'), "fish");
    assert_eq!(last_segment("/usr/bin/", '/'), "");
    assert_eq!(last_segment("", '/'), "");
    assert_eq!(last_segment("/", '/'), "");
    assert_eq!(last_segment("a/b", '/'), "b");
}

#[test]
fn remove_char_drops_every_occurrence() {
    assert_eq!(remove_char("\"https://example.org/\"", '"'), "https://example.org/");
    assert_eq!(remove_char("a\"b\"\"c", '"'), "abc");
    assert_eq!(remove_char("plain", '"'), "plain");
    assert_eq!(remove_char("\"\"", '"'), "");
}

#[test]
fn buffers_are_cut_at_the_first_nul() {
    assert_eq!(until_nul(&vec![b'a', b'b', 0, b'c', 0]), Some(vec![b'a', b'b']));
    assert_eq!(until_nul(&vec![0, b'c']), Some(vec![]));
    assert_eq!(until_nul(&vec![b'a', b'b']), None);
    assert_eq!(until_nul(&vec![]), None);
    assert_eq!(c_str_prefix(&vec![b'a', b'b', 0, b'c']), vec![b'a', b'b']);
    assert_eq!(c_str_prefix(&vec![b'a', b'b']), vec![b'a', b'b']);
    assert_eq!(c_str_prefix(&vec![]), Vec::<u8>::new());
}
