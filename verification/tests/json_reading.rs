use sadmadbotlad::json::{bool_of, element_in, field_in, is_json, is_object, parse_u64_digits, str_of, u64_of};

#[test]
fn json_is_read_one_level_at_a_time() {
    let top = Some(String::from(r#"{"a":{"b":[10,"x",true]},"c":"d"}"#));
    assert!(is_json(top.as_deref().unwrap()));
    assert!(!is_json("{"));
    let a = field_in(&top, "a");
    assert!(is_object(&a));
    let b = field_in(&a, "b");
    assert_eq!(u64_of(&element_in(&b, 0)), Some(10));
    assert_eq!(str_of(&element_in(&b, 1)).as_deref(), Some("x"));
    assert_eq!(bool_of(&element_in(&b, 2)), Some(true));
    assert!(element_in(&b, 3).is_none());
    assert_eq!(str_of(&field_in(&top, "c")).as_deref(), Some("d"));
    assert!(field_in(&top, "missing").is_none());
    assert!(field_in(&b, "a").is_none());
    assert!(str_of(&None).is_none());
}

#[test]
fn whole_numbers_are_read_from_digits() {
    assert_eq!(parse_u64_digits("0"), Some(0));
    assert_eq!(parse_u64_digits("18446744073709551615"), Some(u64::MAX));
    assert_eq!(parse_u64_digits("18446744073709551616"), None);
    assert_eq!(parse_u64_digits("-1"), None);
    assert_eq!(parse_u64_digits("1.0"), None);
    assert_eq!(parse_u64_digits(""), None);
}
