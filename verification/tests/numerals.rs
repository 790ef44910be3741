use cam_server::bytes::bytes_eq;
use cam_server::bytes::find_byte;
use cam_server::bytes::parse_u32;
use cam_server::bytes::subvec;
use cam_server::bytes::u64_to_dec;

#[test]
fn decimal_rendering_is_exact() {
    assert_eq!(u64_to_dec(0), b"0".to_vec());
    assert_eq!(u64_to_dec(7), b"7".to_vec());
    assert_eq!(u64_to_dec(1700000000), b"1700000000".to_vec());
    assert_eq!(u64_to_dec(18446744073709551615), b"18446744073709551615".to_vec());
}

#[test]
fn parse_u32_accepts_exact_range() {
    assert_eq!(parse_u32(&b"0".to_vec()), Some(0));
    assert_eq!(parse_u32(&b"4294967295".to_vec()), Some(u32::MAX));
    assert_eq!(parse_u32(&b"4294967296".to_vec()), None);
}

#[test]
fn parse_u32_rejects_non_numerals() {
    assert_eq!(parse_u32(&Vec::new()), None);
    assert_eq!(parse_u32(&b"12a".to_vec()), None);
    assert_eq!(parse_u32(&b"-1".to_vec()), None);
}

#[test]
fn find_byte_finds_first_occurrence_from_start() {
    let v = b"a?b?c".to_vec();
    assert_eq!(find_byte(&v, 0, b'?'), 1);
    assert_eq!(find_byte(&v, 2, b'?'), 3);
    assert_eq!(find_byte(&v, 4, b'?'), 5);
}

#[test]
fn byte_vector_equality_and_slicing() {
    let v = b"abcdef".to_vec();
    assert_eq!(subvec(&v, 1, 4), b"bcd".to_vec());
    assert!(bytes_eq(&b"abc".to_vec(), &b"abc".to_vec()));
    assert!(!bytes_eq(&b"abc".to_vec(), &b"abd".to_vec()));
    assert!(!bytes_eq(&b"abc".to_vec(), &b"ab".to_vec()));
}
