use tangara::text::{
    chars_of, i64_to_string, indent, join_strings, split_str, string_of, u64_to_string,
    without_last,
};

#[test]
fn numbers_in_decimal() {
    assert_eq!(u64_to_string(0), "0");
    assert_eq!(u64_to_string(7), "7");
    assert_eq!(u64_to_string(10), "10");
    assert_eq!(u64_to_string(1234567890), "1234567890");
    assert_eq!(u64_to_string(u64::MAX), "18446744073709551615");
    for n in [0u64, 9, 10, 99, 100, 101, 65535, 4294967296, u64::MAX - 1] {
        assert_eq!(u64_to_string(n), n.to_string());
    }
}

#[test]
fn signed_numbers_in_decimal() {
    assert_eq!(i64_to_string(0), "0");
    assert_eq!(i64_to_string(-1), "-1");
    assert_eq!(i64_to_string(42), "42");
    assert_eq!(i64_to_string(i64::MAX), "9223372036854775807");
    assert_eq!(i64_to_string(i64::MIN), "-9223372036854775808");
    for n in [-128i64, -10, -9, 127, 32767, -32768, i64::MIN + 1] {
        assert_eq!(i64_to_string(n), n.to_string());
    }
}

#[test]
fn splitting_as_std_splits() {
    assert_eq!(split_str("a.b.c", "."), vec!["a", "b", "c"]);
    assert_eq!(split_str("a::b", "::"), vec!["a", "b"]);
    assert_eq!(split_str("abc", "."), vec!["abc"]);
    assert_eq!(split_str("", "."), vec![""]);
    assert_eq!(split_str(".a.", "."), vec!["", "a", ""]);
    assert_eq!(split_str("a..b", "."), vec!["a", "", "b"]);
    assert_eq!(split_str("ab", ""), vec!["", "a", "b", ""]);
    assert_eq!(split_str("", ""), vec!["", ""]);
    for (s, sep) in [
        ("aaa", "aa"),
        ("aaaa", "aa"),
        ("abab", "ab"),
        ("ab", "abc"),
        ("héllo wörld", "ö"),
        ("héllo", ""),
        ("a:::b", "::"),
    ] {
        let expected: Vec<String> = s.split(sep).map(|p| p.to_string()).collect();
        assert_eq!(split_str(s, sep), expected);
    }
}

#[test]
fn joining() {
    assert_eq!(join_strings(&vec![], ", "), "");
    assert_eq!(join_strings(&vec!["a".to_string()], ", "), "a");
    assert_eq!(join_strings(&vec!["a".to_string(), "b".to_string()], ", "), "a, b");
    assert_eq!(join_strings(&vec!["".to_string(), "".to_string(), "".to_string()], "-"), "--");
}

#[test]
fn characters_of_a_string_and_back() {
    assert_eq!(chars_of("héllo"), vec!['h', 'é', 'l', 'l', 'o']);
    assert_eq!(string_of(&vec!['h', 'é', 'y']), "héy");
    assert_eq!(string_of(&chars_of("")), "");
}

#[test]
fn indenting() {
    assert_eq!(indent("a\nb\n", "\t"), "a\n\tb\n\t");
    assert_eq!(indent("a\nb\n", "\t\t"), "a\n\t\tb\n\t\t");
    assert_eq!(indent("no line break", "\t"), "no line break");
    assert_eq!(indent("", "\t"), "");
    assert_eq!(indent("a\nb\n", "\t"), "a\nb\n".replace("\n", "\n\t"));
}

#[test]
fn dropping_the_last_character() {
    assert_eq!(without_last("abc"), "ab");
    assert_eq!(without_last("a\n\t"), "a\n");
    assert_eq!(without_last("é"), "");
    assert_eq!(without_last(""), "");
}
