use node_exporter::decimal::format_decimal;

fn read_decimal(t: &str) -> i128 {
    let (neg, digits) = match t.strip_prefix('-') {
        Some(d) => (true, d),
        None => (false, t),
    };
    let mut v: i128 = 0;
    for c in digits.bytes() {
        assert!(c.is_ascii_digit());
        v = v * 10 + (c - b'0') as i128;
    }
    if neg { -v } else { v }
}

#[test]
fn decimal_text_of_numbers() {
    assert_eq!(format_decimal(0), "0");
    assert_eq!(format_decimal(7), "7");
    assert_eq!(format_decimal(10), "10");
    assert_eq!(format_decimal(-42), "-42");
    assert_eq!(format_decimal(u64::MAX as i128), "18446744073709551615");
    assert_eq!(format_decimal(i64::MIN as i128), "-9223372036854775808");
}

#[test]
fn decimal_text_reads_back() {
    for v in [0i128, 1, -1, 9, 10, 99, 100, 12345, -987654321, u64::MAX as i128, i64::MIN as i128] {
        let t = format_decimal(v);
        assert_eq!(read_decimal(&t), v);
        assert!(!t.contains('\n') && !t.contains('"') && !t.contains('}'));
    }
}
