use clockwork_orange::text::{
    eq_ignore_ascii_case, signed_decimal, split_once, str_eq, to_chars, unsigned_decimal,
};

fn pair(head: &str, tail: &str) -> Option<(String, String)> {
    Some((head.to_string(), tail.to_string()))
}

#[test]
fn split_once_takes_the_first_separator() {
    assert_eq!(split_once("a:b:c", ':'), pair("a", "b:c"));
    assert_eq!(split_once("mark-as-read:42", ':'), pair("mark-as-read", "42"));
}

#[test]
fn split_once_allows_empty_parts() {
    assert_eq!(split_once(":", ':'), pair("", ""));
    assert_eq!(split_once(":tail", ':'), pair("", "tail"));
    assert_eq!(split_once("head:", ':'), pair("head", ""));
}

#[test]
fn split_once_without_separator() {
    assert_eq!(split_once("", ':'), None);
    assert_eq!(split_once("no colon here", ':'), None);
}

#[test]
fn split_once_agrees_with_std() {
    for text in ["", "a", "a b", " a", "a ", "Привет мир", "x  y", "🎉 🎉 🎉"] {
        let ours = split_once(text, ' ');
        let theirs = text.split_once(' ').map(|(h, t)| (h.to_string(), t.to_string()));
        assert_eq!(ours, theirs);
    }
}

#[test]
fn to_chars_keeps_order() {
    assert_eq!(to_chars("aё🎉"), vec!['a', 'ё', '🎉']);
    assert_eq!(to_chars(""), Vec::<char>::new());
}

#[test]
fn str_eq_compares_characters() {
    assert!(str_eq("", ""));
    assert!(str_eq("utterstep", "utterstep"));
    assert!(!str_eq("utterstep", "Utterstep"));
    assert!(!str_eq("abc", "ab"));
    assert!(!str_eq("ab", "abc"));
}

#[test]
fn eq_ignore_ascii_case_folds_ascii_only() {
    assert!(eq_ignore_ascii_case("MyNameBot", "mynamebot"));
    assert!(eq_ignore_ascii_case("", ""));
    assert!(eq_ignore_ascii_case("a_Z-9", "A_z-9"));
    assert!(!eq_ignore_ascii_case("bot1", "bot2"));
    assert!(!eq_ignore_ascii_case("bot", "bots"));
    assert!(!eq_ignore_ascii_case("Ёж", "ёж"));
    assert!(!eq_ignore_ascii_case("@", "`"));
    assert!(!eq_ignore_ascii_case("[", "{"));
}

#[test]
fn eq_ignore_ascii_case_agrees_with_std() {
    let words = ["", "a", "A", "Z", "z", "@", "`", "[", "{", "Bot", "bOT", "bot_", "ёЖ", "ёж"];
    for a in words {
        for b in words {
            assert_eq!(eq_ignore_ascii_case(a, b), a.eq_ignore_ascii_case(b));
        }
    }
}

#[test]
fn unsigned_decimal_exact() {
    assert_eq!(unsigned_decimal(0), "0");
    assert_eq!(unsigned_decimal(7), "7");
    assert_eq!(unsigned_decimal(10), "10");
    assert_eq!(unsigned_decimal(1234567890), "1234567890");
    assert_eq!(unsigned_decimal(u64::MAX), "18446744073709551615");
}

#[test]
fn signed_decimal_exact() {
    assert_eq!(signed_decimal(0), "0");
    assert_eq!(signed_decimal(-1), "-1");
    assert_eq!(signed_decimal(42), "42");
    assert_eq!(signed_decimal(-2147483648), "-2147483648");
    assert_eq!(signed_decimal(i64::MAX), "9223372036854775807");
    assert_eq!(signed_decimal(i64::MIN), "-9223372036854775808");
}

#[test]
fn decimal_agrees_with_to_string() {
    for n in [0i64, 1, 9, 10, 99, 100, 101, 65535, -5, -10, -99999] {
        assert_eq!(signed_decimal(n), n.to_string());
    }
    for n in [0u64, 5, 19, 20, 1000, 123456789012345] {
        assert_eq!(unsigned_decimal(n), n.to_string());
    }
}
