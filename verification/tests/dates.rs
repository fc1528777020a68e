use iso9660::date_time::DateRange;
use iso9660::date_time::DecDateTime;
use iso9660::date_time::DecDateTimeErr;
use iso9660::directory::DirectoryRecordDate;
use iso9660::fixed_str::StrD;

fn date_buf(digits: &[u8; 16], tz: u8) -> Vec<u8> {
    let mut v = digits.to_vec();
    v.push(tz);
    v
}

#[test]
fn test_date_sentinel_is_none() {
    // Sixteen ASCII zero digits and a zero offset byte mean "unset".
    let buf = date_buf(b"0000000000000000", 0);
    let r = DecDateTime::try_parse(&buf).unwrap();
    assert!(r.is_none());
}

#[test]
fn test_date_sentinel_needs_zero_offset() {
    // The same digits with a non-zero 17th byte are a normal date, and
    // the all-zero year is out of range.
    let buf = date_buf(b"0000000000000000", 8);
    let err = DecDateTime::try_parse(&buf).unwrap_err();
    assert_eq!(err, DecDateTimeErr::InvalidDate { range: DateRange::Year, actual: 0 });
}

#[test]
fn test_date_raw_zero_bytes_are_not_the_sentinel() {
    // Raw zero bytes are not the ASCII digit pattern: the buffer is
    // treated as a normal date, whose empty year is out of range.
    let buf = vec![0u8; 17];
    let err = DecDateTime::try_parse(&buf).unwrap_err();
    assert_eq!(err, DecDateTimeErr::InvalidDate { range: DateRange::Year, actual: 0 });
}

#[test]
fn test_date_valid() {
    let buf = date_buf(b"2024013112595999", 8);
    let d = DecDateTime::try_parse(&buf).unwrap().unwrap();
    let expected = DecDateTime {
        year: StrD::<4>::from_slice(b"2024").unwrap(),
        month: StrD::<2>::from_slice(b"01").unwrap(),
        day: StrD::<2>::from_slice(b"31").unwrap(),
        hour: StrD::<2>::from_slice(b"12").unwrap(),
        minute: StrD::<2>::from_slice(b"59").unwrap(),
        second: StrD::<2>::from_slice(b"59").unwrap(),
        centi_sec: StrD::<2>::from_slice(b"99").unwrap(),
        time_zone: 8,
    };
    assert_eq!(d, expected);
}

#[test]
fn test_date_month_checked_against_its_own_value() {
    // The month is validated against the month's own parsed value, not
    // against any other sub-field's.
    let buf = date_buf(b"2024130112000000", 0);
    let err = DecDateTime::try_parse(&buf).unwrap_err();
    assert_eq!(err, DecDateTimeErr::InvalidDate { range: DateRange::Month, actual: 13 });
}

#[test]
fn test_date_each_field_range() {
    let cases: [(&[u8; 16], DateRange, u16); 5] = [
        (b"2024013224000000", DateRange::Day, 32),
        (b"2024013124000000", DateRange::Hour, 24),
        (b"2024013123600000", DateRange::Minute, 60),
        (b"2024013123596000", DateRange::Second, 60),
        (b"0000013123595900", DateRange::Year, 0),
    ];
    for (digits, range, actual) in cases {
        let buf = date_buf(digits, 0);
        let err = DecDateTime::try_parse(&buf).unwrap_err();
        assert_eq!(err, DecDateTimeErr::InvalidDate { range, actual });
    }
}

#[test]
fn test_date_bad_character() {
    // A byte outside the "D" set in a sub-field is an invalid character.
    let buf = date_buf(b"2024!11212000000", 0);
    let err = DecDateTime::try_parse(&buf).unwrap_err();
    assert_eq!(err, DecDateTimeErr::InvalidChar(b'!'));
}

#[test]
fn test_date_letter_is_no_digit() {
    // A letter passes the character set but can take no part in a
    // decimal number.
    let buf = date_buf(b"2024AB1212000000", 0);
    let err = DecDateTime::try_parse(&buf).unwrap_err();
    assert_eq!(err, DecDateTimeErr::InvalidChar(b'A'));
}

#[test]
fn test_date_default() {
    let d = DecDateTime::default();
    assert_eq!(&d.year.raw_bytes()[..1], b"1");
    assert_eq!(d.year.len(), 1);
    assert_eq!(&d.month.raw_bytes()[..1], b"1");
    assert_eq!(&d.hour.raw_bytes()[..1], b"0");
    assert_eq!(d.time_zone, 12);
}

#[test]
fn test_directory_record_date_parse() {
    let buf = date_buf(b"1999123123595900", 4);
    let d = DirectoryRecordDate::try_parse(&buf).unwrap().unwrap();
    let expected = DirectoryRecordDate {
        year: StrD::<4>::from_slice(b"1999").unwrap(),
        month: StrD::<2>::from_slice(b"12").unwrap(),
        day: StrD::<2>::from_slice(b"31").unwrap(),
        hour: StrD::<2>::from_slice(b"23").unwrap(),
        minute: StrD::<2>::from_slice(b"59").unwrap(),
        second: StrD::<2>::from_slice(b"59").unwrap(),
        time_zone: 4,
    };
    assert_eq!(d, expected);
}

#[test]
fn test_directory_record_date_sentinel() {
    let buf = date_buf(b"0000000000000000", 0);
    assert!(DirectoryRecordDate::try_parse(&buf).unwrap().is_none());
}

#[test]
fn test_directory_record_date_validates_centiseconds() {
    // The centisecond sub-field is not kept, but it is still validated.
    let buf = date_buf(b"19991231235959AA", 0);
    let err = DirectoryRecordDate::try_parse(&buf).unwrap_err();
    assert_eq!(err, DecDateTimeErr::InvalidChar(b'A'));
}

#[test]
fn test_directory_record_date_default() {
    let d = DirectoryRecordDate::default();
    assert_eq!(&d.year.raw_bytes()[..1], b"1");
    assert_eq!(d.time_zone, 12);
}

#[test]
fn test_date_range_bounds() {
    assert_eq!(DateRange::Year.min_value(), 1);
    assert_eq!(DateRange::Year.max_value(), 9999);
    assert_eq!(DateRange::Month.max_value(), 12);
    assert_eq!(DateRange::Day.max_value(), 31);
    assert_eq!(DateRange::Hour.max_value(), 23);
    assert_eq!(DateRange::Minute.max_value(), 59);
    assert_eq!(DateRange::Second.max_value(), 59);
    assert_eq!(DateRange::CentiSec.max_value(), 99);
}
