use zenkit::util::{is_uuid, join, parse_i64, parse_u64, str_eq, to_decimal, to_signed_decimal};

#[test]
fn test_join() {
    assert_eq!(&join(",", &Vec::<String>::new()), "", "empty array");
    assert_eq!(&join(",", &vec!["ab"]), "ab", "1-list");
    assert_eq!(&join(",", &vec!["ab", "cd"]), "ab,cd", "2-list");
    assert_eq!(&join(",", &vec!["ab", "cd", "ef"]), "ab,cd,ef", "3-list");
    assert_eq!(&join("", &vec!["ab", "cd"]), "abcd", "empty sep");
    assert_eq!(&join("/", &vec!["", "home", "user"]), "/home/user", "mixed");
}

#[test]
fn test_uuid() {
    for s in vec![
        "00000000-0000-0000-0000-000000000000",
        "abcdef00-1234-5678-9999-abcdefabcdef",
    ]
    .iter()
    {
        assert_eq!(is_uuid(s), true, "expect good: {}", s);
    }

    for s in vec![
        "",
        "00000000",
        "zzzzzzzz-0000-0000-0000-000000000000",
        "000000000000000000000000000000000000",
    ]
    .iter()
    {
        assert_ne!(is_uuid(s), true, "expect bad: {}", s);
    }
}

#[test]
fn uuid_takes_upper_case_and_wants_hyphens_in_place() {
    assert!(is_uuid("ABCDEF00-1234-5678-9999-ABCDEFABCDEF"));
    assert!(!is_uuid("abcdef001-234-5678-9999-abcdefabcdef"));
    assert!(!is_uuid("abcdef00-1234-5678-9999-abcdefabcdeg"));
    assert!(!is_uuid("abcdef00-1234-5678-9999-abcdefabcde"));
    assert!(!is_uuid("abcdef00-1234-5678-9999-abcdefabcdef0"));
    assert!(!is_uuid("+bcdef00-1234-5678-9999-abcdefabcdef"));
    assert!(!is_uuid("äbcdef0-1234-5678-9999-abcdefabcdef"));
}

#[test]
fn join_of_owned_strings() {
    let parts = vec![String::from("x"), String::from("y")];
    assert_eq!(join(", ", &parts), "x, y");
}

#[test]
fn str_eq_compares_text() {
    assert!(str_eq("", ""));
    assert!(str_eq("Marketing", "Marketing"));
    assert!(!str_eq("Marketing", "marketing"));
    assert!(!str_eq("ab", "abc"));
    assert!(str_eq("grüße", "grüße"));
}

#[test]
fn decimal_rendering() {
    assert_eq!(to_decimal(0), "0");
    assert_eq!(to_decimal(7), "7");
    assert_eq!(to_decimal(42), "42");
    assert_eq!(to_decimal(1000), "1000");
    assert_eq!(to_decimal(u64::MAX), "18446744073709551615");
    assert_eq!(to_signed_decimal(-1), "-1");
    assert_eq!(to_signed_decimal(0), "0");
    assert_eq!(to_signed_decimal(i64::MIN), "-9223372036854775808");
    assert_eq!(to_signed_decimal(i64::MAX), "9223372036854775807");
}

#[test]
fn signed_decimal_parsing() {
    assert_eq!(parse_i64("12"), Some(12));
    assert_eq!(parse_i64("+12"), Some(12));
    assert_eq!(parse_i64("-12"), Some(-12));
    assert_eq!(parse_i64("007"), Some(7));
    assert_eq!(parse_i64("0"), Some(0));
    assert_eq!(parse_i64("-0"), Some(0));
    assert_eq!(parse_i64("12.5"), None);
    assert_eq!(parse_i64(""), None);
    assert_eq!(parse_i64("-"), None);
    assert_eq!(parse_i64("+"), None);
    assert_eq!(parse_i64(" 1"), None);
    assert_eq!(parse_i64("1 "), None);
    assert_eq!(parse_i64("١٢"), None);
    assert_eq!(parse_i64("9223372036854775807"), Some(i64::MAX));
    assert_eq!(parse_i64("9223372036854775808"), None);
    assert_eq!(parse_i64("-9223372036854775808"), Some(i64::MIN));
    assert_eq!(parse_i64("-9223372036854775809"), None);
    assert_eq!(parse_i64("00000000000000000000000000000000000001"), Some(1));
    assert_eq!(parse_i64("99999999999999999999999999"), None);
}

#[test]
fn signed_decimal_parsing_agrees_with_std() {
    for s in ["5", "-5", "+5", "x", "", "1e3", "0x10", "--1", "+-1", "123456789012345678901"] {
        assert_eq!(parse_i64(s), s.parse::<i64>().ok(), "{}", s);
    }
}

#[test]
fn unsigned_decimal_parsing() {
    assert_eq!(parse_u64("42"), Some(42));
    assert_eq!(parse_u64("+42"), Some(42));
    assert_eq!(parse_u64("0"), Some(0));
    assert_eq!(parse_u64("007"), Some(7));
    assert_eq!(parse_u64("18446744073709551615"), Some(u64::MAX));
    assert_eq!(parse_u64("18446744073709551616"), None);
    assert_eq!(parse_u64("18446744073709551620"), None);
    assert_eq!(parse_u64("184467440737095516150"), None);
    assert_eq!(parse_u64("-1"), None);
    assert_eq!(parse_u64("-0"), None);
    assert_eq!(parse_u64(""), None);
    assert_eq!(parse_u64("+"), None);
    assert_eq!(parse_u64("4 2"), None);
    for s in ["5", "+5", "-5", "x", "", "1e3", "++1", "18446744073709551615", "18446744073709551616"] {
        assert_eq!(parse_u64(s), s.parse::<u64>().ok(), "{}", s);
    }
}
