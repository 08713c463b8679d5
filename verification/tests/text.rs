use bitter::config::TimeoutAction;
use bitter::number::{
    decimal_text, fault_text, parse_signed, parse_unsigned, signed_text, NumberFault,
};
use bitter::text::{
    contains, find_first_word, join2, join3, repeat, replace, replace_char, same, split,
    starts_with, trim, trim_end_matches,
};

#[test]
fn texts_are_joined_and_told_apart() {
    assert_eq!(join2("a", "b"), "ab");
    assert_eq!(join3("a", "", "c"), "ac");
    assert!(same("ä", "ä"));
    assert!(!same("a", "A"));
}

#[test]
fn texts_are_searched() {
    assert!(contains("hello", "ell"));
    assert!(contains("hello", ""));
    assert!(!contains("hello", "elo"));
    assert!(!contains("he", "hello"));
    assert!(starts_with("hello", "he"));
    assert!(!starts_with("hello", "el"));
}

#[test]
fn texts_are_split() {
    assert_eq!(split("a.b..c", '.'), ["a", "b", "", "c"]);
    assert_eq!(split("", '.'), [""]);
    assert_eq!(split(".", '.'), ["", ""]);
}

#[test]
fn texts_are_trimmed() {
    assert_eq!(trim(" \t\u{2003}a b\n"), "a b");
    assert_eq!(trim("\u{a0}\u{3000}"), "");
    assert_eq!(trim_end_matches("https://a//", '/'), "https://a");
    assert_eq!(trim_end_matches("///", '/'), "");
    assert_eq!(find_first_word("  ann tty1").as_deref(), Some("ann"));
    assert_eq!(find_first_word("  "), None);
}

#[test]
fn texts_are_replaced() {
    assert_eq!(replace("aaa", "aa", "b"), "ba");
    assert_eq!(replace("abab", "ab", ""), "");
    assert_eq!(replace_char("a-b-c", '-', '+'), "a+b+c");
    assert_eq!(repeat('=', 3), "===");
    assert_eq!(repeat('=', 0), "");
}

#[test]
fn numbers_are_written_and_read() {
    assert_eq!(decimal_text(0), "0");
    assert_eq!(decimal_text(u64::MAX), "18446744073709551615");
    assert_eq!(signed_text(-42), "-42");
    assert_eq!(signed_text(i32::MIN), "-2147483648");
    assert_eq!(parse_unsigned("0042", 100).ok(), Some(42));
    assert_eq!(parse_unsigned("+7", 100).ok(), Some(7));
    assert_eq!(parse_signed("-2147483648").ok(), Some(i32::MIN));
}

#[test]
fn faults_of_numbers_are_those_of_std() {
    let unsigned = |s: &str| fault_text(parse_unsigned(s, 255).unwrap_err());
    for s in ["", "x", "+", "-", "256", "-1", "1 "] {
        assert_eq!(unsigned(s), s.parse::<u8>().unwrap_err().to_string(), "{:?}", s);
    }
    let signed = |s: &str| fault_text(parse_signed(s).unwrap_err());
    for s in ["", "x", "+", "-", "2147483648", "-2147483649", "--1"] {
        assert_eq!(signed(s), s.parse::<i32>().unwrap_err().to_string(), "{:?}", s);
    }
    assert!(matches!(parse_unsigned("", 1), Err(NumberFault::Empty)));
}

#[test]
fn actions_are_named() {
    assert_eq!(TimeoutAction::parse("LOCK").unwrap(), TimeoutAction::Lock);
    assert_eq!("logout".parse::<TimeoutAction>().unwrap(), TimeoutAction::Logout);
    assert_eq!(
        TimeoutAction::parse("x").unwrap_err(),
        "Invalid timeout action 'x'. Expected 'lock' or 'logout'"
    );
    assert_eq!(TimeoutAction::Logout.name(), "Logout");
}
