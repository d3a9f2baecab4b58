use sadmadbotlad::alert::{sample_alert, test_alert};
use sadmadbotlad::text::{
    chars_of, i64_to_string, parse_i64, remove_crlf, split_char, split_lines, split_whitespace,
    str_eq, trim_bounds, u64_to_string,
};
use sadmadbotlad::AlertEventType;

fn chars(s: &str) -> Vec<char> {
    s.chars().collect()
}

#[test]
fn decimal_formatting() {
    assert_eq!(u64_to_string(0), "0");
    assert_eq!(u64_to_string(1234567890), "1234567890");
    assert_eq!(u64_to_string(u64::MAX), "18446744073709551615");
    assert_eq!(i64_to_string(-42), "-42");
    assert_eq!(i64_to_string(i64::MIN), "-9223372036854775808");
}

#[test]
fn decimal_parsing_matches_std() {
    for s in ["0", "42", "-42", "+7", "-0", "9223372036854775807", "-9223372036854775808"] {
        assert_eq!(parse_i64(&chars(s)), s.parse::<i64>().ok(), "{s}");
    }
    for s in ["", "-", "+", "1a", " 1", "9223372036854775808", "-9223372036854775809", "--1"] {
        assert_eq!(parse_i64(&chars(s)), None, "{s}");
        assert!(s.parse::<i64>().is_err());
    }
}

#[test]
fn decimal_round_trip() {
    for n in [0i64, 1, -1, 99, -12345, i64::MAX, i64::MIN] {
        assert_eq!(parse_i64(&chars(&i64_to_string(n))), Some(n));
    }
}

#[test]
fn splitting_and_trimming() {
    assert_eq!(split_char(&chars("a;b;;c"), ';'), vec!["a", "b", "", "c"]);
    assert_eq!(split_char(&chars(""), ';'), vec![""]);
    assert_eq!(split_whitespace(&chars("  one two\tthree ")), vec!["one", "two", "three"]);
    assert_eq!(split_lines("a\r\nb\nc\n"), vec!["a", "b", "c"]);
    let c = chars("  hi there \n");
    let (start, end) = trim_bounds(&c, 0, c.len());
    assert_eq!(c[start..end].iter().collect::<String>(), "hi there");
    assert_eq!(remove_crlf(&chars("a\r\nb\r\r\n\n")), "ab\r\n");
    assert_eq!(chars_of("h\u{e9}"), vec!['h', '\u{e9}']);
    assert!(str_eq("abc", "abc"));
    assert!(!str_eq("abc", "abd"));
}

#[test]
fn test_alert_names_ignore_case() {
    assert!(matches!(test_alert("RAID").alert_type, AlertEventType::Raid { .. }));
    assert!(matches!(test_alert("GiftSub").alert_type, AlertEventType::GiftSub { .. }));
    match test_alert("ASD").alert_type {
        AlertEventType::Raid { from, .. } => assert_eq!(from, "asd"),
        other => panic!("unexpected {other:?}"),
    }
    match sample_alert("unknown").alert_type {
        AlertEventType::Raid { from, viewers } => {
            assert_eq!(from, "lmao");
            assert_eq!(viewers, 9999);
        }
        other => panic!("unexpected {other:?}"),
    }
}
