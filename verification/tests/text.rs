use invoicy::text::{join_strings, parse_i64, parse_u16, parse_u32, parse_u64, split_str, trim, u64_to_string};

#[test]
fn integer_parsing_follows_std() {
    for t in ["0", "42", "+7", "-1", "", "+", "18446744073709551615", "18446744073709551616", "1_000", " 1", "007"] {
        assert_eq!(parse_u64(t), t.parse::<u64>().ok(), "u64 {:?}", t);
        assert_eq!(parse_u32(t), t.parse::<u32>().ok(), "u32 {:?}", t);
        assert_eq!(parse_u16(t), t.parse::<u16>().ok(), "u16 {:?}", t);
        assert_eq!(parse_i64(t), t.parse::<i64>().ok(), "i64 {:?}", t);
    }
    for t in ["-9223372036854775808", "9223372036854775807", "9223372036854775808", "-0", "--1"] {
        assert_eq!(parse_i64(t), t.parse::<i64>().ok(), "i64 {:?}", t);
    }
}

#[test]
fn decimal_rendering() {
    assert_eq!(u64_to_string(0), "0");
    assert_eq!(u64_to_string(1234567890), "1234567890");
    assert_eq!(u64_to_string(u64::MAX), u64::MAX.to_string());
}

#[test]
fn split_trim_join() {
    assert_eq!(split_str("a/b//c", '/'), vec!["a", "b", "", "c"]);
    assert_eq!(split_str("", '/'), vec![""]);
    assert_eq!(trim("  x y \t\n"), "x y");
    assert_eq!(trim("   "), "");
    let parts = vec!["a".to_string(), "b".to_string()];
    assert_eq!(join_strings(&parts, ", "), "a, b");
    assert_eq!(join_strings(&vec![], ", "), "");
}
