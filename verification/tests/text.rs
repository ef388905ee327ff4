use cndrv::text::{decimal_string, signed_decimal_string, text_until_nul};

#[test]
fn decimal_matches_std_rendering() {
    for n in [0u64, 1, 9, 10, 11, 99, 100, 1234567890, u64::MAX] {
        assert_eq!(decimal_string(n), n.to_string());
    }
}

#[test]
fn signed_decimal_matches_std_rendering() {
    for i in [0i64, 1, -1, 42, -42, i64::MAX, i64::MIN, i32::MIN as i64] {
        assert_eq!(signed_decimal_string(i), i.to_string());
    }
}

#[test]
fn text_until_first_zero() {
    assert_eq!(text_until_nul(b"abc\0def"), "abc");
    assert_eq!(text_until_nul(b"\0abc"), "");
    assert_eq!(text_until_nul(b""), "");
    assert_eq!(text_until_nul("ünï\0".as_bytes()), "ünï");
}
