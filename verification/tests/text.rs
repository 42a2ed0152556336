use rot8::text::{characters, decimal_text, parse_integer, same_text, split_lines};

#[test]
fn lines_are_split_at_line_feeds() {
    assert_eq!(split_lines(""), vec![""]);
    assert_eq!(split_lines("a"), vec!["a"]);
    assert_eq!(split_lines("a\n"), vec!["a", ""]);
    assert_eq!(split_lines("\n"), vec!["", ""]);
    assert_eq!(split_lines("a\nbc\n\nd"), vec!["a", "bc", "", "d"]);
    assert_eq!(split_lines("ä\r\nö"), vec!["ä\r", "ö"]);
    let text = "one\ntwo\n\nthrée\n";
    assert_eq!(split_lines(text), text.split('\n').collect::<Vec<&str>>());
}

#[test]
fn characters_of_text() {
    assert_eq!(characters(""), Vec::<char>::new());
    assert_eq!(characters("aé\n"), vec!['a', 'é', '\n']);
}

#[test]
fn decimal_notation() {
    assert_eq!(decimal_text(0), "0");
    assert_eq!(decimal_text(7), "7");
    assert_eq!(decimal_text(-1), "-1");
    assert_eq!(decimal_text(10), "10");
    assert_eq!(decimal_text(1234567890), "1234567890");
    assert_eq!(decimal_text(i64::MAX), i64::MAX.to_string());
    assert_eq!(decimal_text(i64::MIN), i64::MIN.to_string());
}

#[test]
fn integers_are_parsed() {
    assert_eq!(parse_integer("0"), Some(0));
    assert_eq!(parse_integer("-0"), Some(0));
    assert_eq!(parse_integer("+12"), Some(12));
    assert_eq!(parse_integer("007"), Some(7));
    assert_eq!(parse_integer("-270"), Some(-270));
    assert_eq!(parse_integer("9223372036854775807"), Some(i64::MAX));
    assert_eq!(parse_integer("-9223372036854775808"), Some(i64::MIN));
    assert_eq!(parse_integer("9223372036854775808"), None);
    assert_eq!(parse_integer("-9223372036854775809"), None);
    assert_eq!(parse_integer("123456789012345678901234567890123456789012345"), None);
    for bad in ["", "+", "-", "--1", "1-", " 1", "1 ", "1.5", "1e3", "٣", "0x10"] {
        assert_eq!(parse_integer(bad), None);
    }
    for v in [-1000i64, -1, 0, 1, 90, 4096] {
        assert_eq!(parse_integer(&decimal_text(v)), Some(v));
    }
}

#[test]
fn texts_are_compared_by_content() {
    assert!(same_text("", ""));
    assert!(same_text("eDP-1", "eDP-1"));
    assert!(!same_text("eDP-1", "eDP-2"));
    assert!(!same_text("eDP-1", "eDP-1 "));
}
