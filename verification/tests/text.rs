use agent_pulse::text::{
    format_i64, format_i64_padded, format_u64, format_u64_padded, parse_i32, parse_u32, parse_u64,
    trim,
};

#[test]
fn decimal_formatting() {
    assert_eq!(format_u64(0), "0");
    assert_eq!(format_u64(u64::MAX), u64::MAX.to_string());
    assert_eq!(format_u64_padded(5, 2), "05");
    assert_eq!(format_u64_padded(123, 2), "123");
    assert_eq!(format_i64(-42), "-42");
    assert_eq!(format_i64_padded(-1, 4), "-001");
    assert_eq!(format_i64_padded(i64::MIN, 0), i64::MIN.to_string());
}

#[test]
fn integer_parsing_matches_std() {
    for s in ["0", "+7", "-7", "2147483647", "-2147483648", "2147483648", "", "+", "1a", " 1"] {
        assert_eq!(parse_i32(s), s.parse::<i32>().ok(), "parsing {s:?}");
    }
    for s in ["0", "+9", "-1", "18446744073709551615", "18446744073709551616", "", "x"] {
        assert_eq!(parse_u64(s), s.parse::<u64>().ok(), "parsing {s:?}");
    }
    for s in ["4294967295", "4294967296", "12", "+0"] {
        assert_eq!(parse_u32(s), s.parse::<u32>().ok(), "parsing {s:?}");
    }
}

#[test]
fn trimming_matches_std() {
    for s in ["", "   ", "  a b  ", "\u{3000}x\u{2029}", "\t\nname\r", "\u{85}\u{a0}y", "no-space", "\u{200b}z"] {
        assert_eq!(trim(s), s.trim(), "trimming {s:?}");
    }
}
