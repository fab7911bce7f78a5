use memflow_win32::text::{
    char_digit, digit_str, parse_u64, push_decimal, push_hex_fixed, push_hex_upper,
};

fn hex_fixed(value: u64, digits: u8) -> String {
    let mut s = String::new();
    push_hex_fixed(&mut s, value, digits);
    s
}

fn hex_upper(value: u64) -> String {
    let mut s = String::new();
    push_hex_upper(&mut s, value);
    s
}

fn decimal(value: u64) -> String {
    let mut s = String::new();
    push_decimal(&mut s, value);
    s
}

#[test]
fn digits_are_upper_case() {
    let all: Vec<&str> = (0..16u8).map(digit_str).collect();
    assert_eq!(all.concat(), "0123456789ABCDEF");
}

#[test]
fn hex_fixed_pads_and_truncates() {
    assert_eq!(hex_fixed(0xece191a2, 8), "ECE191A2");
    assert_eq!(hex_fixed(0xcff, 4), "0CFF");
    assert_eq!(hex_fixed(0, 2), "00");
    assert_eq!(hex_fixed(0x1234, 2), "34");
    assert_eq!(hex_fixed(7, 0), "");
    assert_eq!(hex_fixed(u64::MAX, 16), "FFFFFFFFFFFFFFFF");
    for v in [0u64, 9, 10, 0xabc, 0xdead_beef] {
        assert_eq!(hex_fixed(v, 8), format!("{:08X}", v));
    }
}

#[test]
fn hex_upper_has_no_leading_zeros() {
    assert_eq!(hex_upper(0), "0");
    assert_eq!(hex_upper(1), "1");
    assert_eq!(hex_upper(0x10), "10");
    assert_eq!(hex_upper(0xabcdef), "ABCDEF");
    for v in [15u64, 16, 255, 256, 4026553840, u64::MAX] {
        assert_eq!(hex_upper(v), format!("{:X}", v));
    }
}

#[test]
fn decimal_has_no_leading_zeros() {
    assert_eq!(decimal(0), "0");
    assert_eq!(decimal(7601), "7601");
    assert_eq!(decimal(4026553840), "4026553840");
    for v in [9u64, 10, 99, 100, 18362, u64::MAX] {
        assert_eq!(decimal(v), v.to_string());
    }
}

#[test]
fn push_appends_to_what_is_there() {
    let mut s = String::from("x=");
    push_decimal(&mut s, 42);
    push_hex_upper(&mut s, 255);
    push_hex_fixed(&mut s, 1, 3);
    assert_eq!(s, "x=42FF001");
}

#[test]
fn char_digit_knows_both_cases() {
    assert_eq!(char_digit('0', 10), Some(0));
    assert_eq!(char_digit('9', 10), Some(9));
    assert_eq!(char_digit('a', 10), None);
    assert_eq!(char_digit('a', 16), Some(10));
    assert_eq!(char_digit('F', 16), Some(15));
    assert_eq!(char_digit('g', 16), None);
    assert_eq!(char_digit('z', 36), Some(35));
    assert_eq!(char_digit(' ', 16), None);
    assert_eq!(char_digit('é', 36), None);
}

#[test]
fn parse_u64_agrees_with_std() {
    let samples = [
        "", "+", "0", "+0", "007", "12345", "-1", " 1", "1 ", "1_000", "ff", "FF", "+ff", "0x10",
        "18446744073709551615", "18446744073709551616", "99999999999999999999", "ffffffffffffffff",
        "10000000000000000", "fffff80002a10000", "1ab000", "++1", "1+", "é",
    ];
    for s in samples {
        assert_eq!(parse_u64(s, 10), s.parse::<u64>().ok(), "decimal {:?}", s);
        assert_eq!(parse_u64(s, 16), u64::from_str_radix(s, 16).ok(), "hex {:?}", s);
    }
    assert_eq!(parse_u64("1ab000", 16), Some(0x1ab000));
    assert_eq!(parse_u64("123", 10), Some(123));
    assert_eq!(parse_u64("18446744073709551615", 10), Some(u64::MAX));
    assert_eq!(parse_u64("18446744073709551616", 10), None);
}

#[test]
fn parsing_reads_back_what_was_written() {
    for v in [0u64, 1, 9, 10, 255, 7601, 0xffff_f800_0000_0000, u64::MAX] {
        assert_eq!(parse_u64(&decimal(v), 10), Some(v));
        assert_eq!(parse_u64(&hex_upper(v), 16), Some(v));
        assert_eq!(parse_u64(&hex_fixed(v, 16), 16), Some(v));
    }
}
