use iso9660::fixed_str::ArrStr;
use iso9660::fixed_str::Charset;
use iso9660::fixed_str::InvalidChar;
use iso9660::fixed_str::StrA;
use iso9660::fixed_str::StrD;
use iso9660::fixed_str::TooBig;
use iso9660::fixed_str::str_a_char_set;

#[test]
fn test_bit_mask() {
    let set = str_a_char_set();
    let s = StrA::<83>::from_slice(set.as_slice()).unwrap();
    assert_eq!(s.len(), 83);
    // make sure space is present in char set A
    assert!(set.contains(&32));
}

#[test]
fn test_charset_a_accepts_punctuation() {
    let mut buf = vec![b' '; 16];
    buf[0] = b'A';
    buf[1] = b'!';
    buf[2] = b'/';
    buf[3] = b'?';
    buf[4] = b'z';
    let s = StrA::<16>::from_slice(&buf).unwrap();
    assert_eq!(s.len(), 5);
    assert_eq!(&s.raw_bytes()[..5], b"A!/?z");
}

#[test]
fn test_charset_a_rejects_hash() {
    // '#' is not part of the "A" set.
    let mut buf = vec![b' '; 16];
    buf[0] = b'A';
    buf[3] = b'#';
    let err = StrA::<16>::from_slice(&buf).unwrap_err();
    assert_eq!(err, InvalidChar { code_point: b'#', alphabet: Charset::A });
}

#[test]
fn test_charset_d_rejects_interior_space() {
    let mut buf = vec![b' '; 8];
    buf[0] = b'A';
    buf[2] = b'B';
    let err = StrD::<8>::from_slice(&buf).unwrap_err();
    assert_eq!(err, InvalidChar { code_point: b' ', alphabet: Charset::D });
}

#[test]
fn test_charset_d_rejects_punctuation() {
    let mut buf = vec![0u8; 8];
    buf[0] = b'!';
    let err = StrD::<8>::from_slice(&buf).unwrap_err();
    assert_eq!(err, InvalidChar { code_point: b'!', alphabet: Charset::D });
}

#[test]
fn test_charset_d_accepts_lowercase() {
    let mut buf = vec![0u8; 8];
    buf[..5].copy_from_slice(b"ab_z9");
    let s = StrD::<8>::from_slice(&buf).unwrap();
    assert_eq!(s.len(), 5);
}

#[test]
fn test_pad_trimming_mixtures() {
    // Content followed by any mixture of trailing space and zero bytes
    // trims to the same logical length.
    let with_spaces = b"HELLO   ";
    let with_zeros = b"HELLO\0\0\0";
    let mixed_a = b"HELLO \0 ";
    let mixed_b = b"HELLO\0 \0";
    for buf in [&with_spaces[..], &with_zeros[..], &mixed_a[..], &mixed_b[..]] {
        let s = StrA::<8>::from_slice(buf).unwrap();
        assert_eq!(s.len(), 5);
        assert_eq!(&s.raw_bytes()[..5], b"HELLO");
    }
}

#[test]
fn test_all_pad_is_empty() {
    let s = StrA::<6>::from_slice(b" \0  \0 ").unwrap();
    assert!(s.is_empty());
    assert_eq!(s.len(), 0);
}

#[test]
fn test_pad_only_trailing() {
    // An interior space in an "A" string is content, not padding.
    let s = StrA::<8>::from_slice(b"AB CD   ").unwrap();
    assert_eq!(s.len(), 5);
}

#[test]
fn test_invalid_byte_in_pad_run_is_ignored() {
    // A bad byte after the trim point is padding territory and never
    // scanned; only the logical prefix is validated.
    let s = StrD::<8>::from_slice(b"AB\0\0\0\0\0\0").unwrap();
    assert_eq!(s.len(), 2);
}

#[test]
fn test_try_from_bytes_fits() {
    let a = ArrStr::<8>::try_from_bytes(b"abc").unwrap();
    assert_eq!(a.len(), 3);
    assert_eq!(a.raw_bytes().len(), 8);
    assert_eq!(&a.raw_bytes()[..3], b"abc");
}

#[test]
fn test_try_from_bytes_too_big() {
    let err = ArrStr::<4>::try_from_bytes(b"abcde").unwrap_err();
    assert_eq!(err, TooBig);
}

#[test]
fn test_arr_str_default_is_empty() {
    let a = ArrStr::<8>::default();
    assert_eq!(a.len(), 0);
    assert!(a.is_empty());
    assert_eq!(a.raw_bytes().as_slice(), &[0u8; 8]);
}

#[test]
fn test_str_d_default_is_empty() {
    let s = StrD::<37>::default();
    assert!(s.is_empty());
}
