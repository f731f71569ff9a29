use rest_api_server::text::{
    i64_to_string, parse_i64, parse_u32, parse_u64, parse_u8, starts_with, str_eq, u64_to_string,
};

#[test]
fn numerals_of_unsigned_numbers() {
    assert_eq!(u64_to_string(0), "0");
    assert_eq!(u64_to_string(7), "7");
    assert_eq!(u64_to_string(10), "10");
    assert_eq!(u64_to_string(1234567890), "1234567890");
    assert_eq!(u64_to_string(u64::MAX), "18446744073709551615");
}

#[test]
fn numerals_of_signed_numbers() {
    assert_eq!(i64_to_string(0), "0");
    assert_eq!(i64_to_string(-1), "-1");
    assert_eq!(i64_to_string(1431648000), "1431648000");
    assert_eq!(i64_to_string(i64::MAX), "9223372036854775807");
    assert_eq!(i64_to_string(i64::MIN), "-9223372036854775808");
}

#[test]
fn numerals_are_read_as_std_reads_them() {
    for text in ["0", "1", "42", "+5", "007", "", "+", "-", "-0", "12a", " 1", "1 ", "٣", "18446744073709551615", "18446744073709551616", "99999999999999999999999"] {
        assert_eq!(parse_u64(text), text.parse::<u64>().ok(), "u64 of {:?}", text);
        assert_eq!(parse_u32(text), text.parse::<u32>().ok(), "u32 of {:?}", text);
        assert_eq!(parse_u8(text), text.parse::<u8>().ok(), "u8 of {:?}", text);
    }
    for text in ["0", "-1", "+1", "-", "+", "", "--1", "-+1", "+-1", "9223372036854775807", "9223372036854775808", "-9223372036854775808", "-9223372036854775809", "-é", "1.5"] {
        assert_eq!(parse_i64(text), text.parse::<i64>().ok(), "i64 of {:?}", text);
    }
}

#[test]
fn limits_of_small_numerals() {
    assert_eq!(parse_u8("255"), Some(255));
    assert_eq!(parse_u8("256"), None);
    assert_eq!(parse_u32("4294967295"), Some(u32::MAX));
    assert_eq!(parse_u32("4294967296"), None);
}

#[test]
fn numerals_come_back() {
    for n in [0u64, 1, 9, 10, 99, 100, 65535, u64::MAX] {
        assert_eq!(parse_u64(&u64_to_string(n)), Some(n));
    }
    for i in [0i64, -1, 1, i64::MIN, i64::MAX, -1000] {
        assert_eq!(parse_i64(&i64_to_string(i)), Some(i));
    }
}

#[test]
fn strings_are_compared_by_their_characters() {
    assert!(str_eq("", ""));
    assert!(str_eq("username", "username"));
    assert!(!str_eq("username", "usernamE"));
    assert!(!str_eq("user", "username"));
    assert!(str_eq("é", "é"));
    assert!(!str_eq("é", "e"));
}

#[test]
fn prefixes() {
    assert!(starts_with("$rpbkdf2$0$AAAABQ==$x", "$rpbkdf2$0$AAAABQ==$"));
    assert!(starts_with("abc", ""));
    assert!(starts_with("abc", "abc"));
    assert!(!starts_with("ab", "abc"));
    assert!(!starts_with("xbc", "abc"));
    assert!(starts_with("éa", "é"));
}
