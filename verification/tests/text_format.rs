use scene_core::text_format::{format_status, i32_dec, u64_dec};

#[test]
fn unsigned_decimal_rendering() {
    assert_eq!(u64_dec(0), "0".to_string());
    assert_eq!(u64_dec(7), "7".to_string());
    assert_eq!(u64_dec(12345), "12345".to_string());
    assert_eq!(u64_dec(u64::MAX), "18446744073709551615".to_string());
}

#[test]
fn signed_decimal_rendering() {
    assert_eq!(i32_dec(-42), "-42".to_string());
    assert_eq!(i32_dec(0), "0".to_string());
    assert_eq!(i32_dec(i32::MIN), "-2147483648".to_string());
}

#[test]
fn status_line_formatting() {
    assert_eq!(
        format_status(true, -3, 61),
        "main: true wheel: -3 fps: 61".to_string()
    );
    assert_eq!(
        format_status(false, 0, 0),
        "main: false wheel: 0 fps: 0".to_string()
    );
}
