use httq::bytes::{bytes_equal, concat_bytes, starts_with_bytes};
use httq::text::decimal_text;

#[test]
fn decimal_notation() {
    assert_eq!(decimal_text(0), "0");
    assert_eq!(decimal_text(7), "7");
    assert_eq!(decimal_text(10), "10");
    assert_eq!(decimal_text(4096), "4096");
    assert_eq!(decimal_text(u32::MAX), "4294967295");
}

#[test]
fn byte_helpers() {
    assert!(starts_with_bytes(b"abcdef", b"abc"));
    assert!(starts_with_bytes(b"abc", b""));
    assert!(!starts_with_bytes(b"ab", b"abc"));
    assert!(!starts_with_bytes(b"abd", b"abc"));
    assert!(bytes_equal(b"xy", b"xy"));
    assert!(!bytes_equal(b"xy", b"xyz"));
    assert!(!bytes_equal(b"xy", b"xz"));
    assert_eq!(concat_bytes(b"ab", b"cd"), b"abcd".to_vec());
    assert_eq!(concat_bytes(b"", b""), Vec::<u8>::new());
}
