use iso9660::boot_record::BootRecord;
use iso9660::double_endian;
use iso9660::fixed_str::StrA;
use iso9660::fixed_str::StrD;
use iso9660::header::VDErr;
use iso9660::pvd::PVD;
use iso9660::sequence::Descriptor;
use iso9660::sequence::parse_descriptor;
use iso9660::sequence::walk_descriptors;
use iso9660::DATA_START;
use iso9660::SECTOR_SIZE;

#[test]
fn test_constants() {
    assert_eq!(SECTOR_SIZE, 2048);
    assert_eq!(DATA_START, 32768);
    assert_eq!(DATA_START, 16 * SECTOR_SIZE as u64);
}

#[test]
fn test_dual_endian_u16() {
    let buf = [0x34u8, 0x12, 0x12, 0x34];
    assert_eq!(double_endian::u16(&buf), 0x1234);
    assert_eq!(double_endian::u16_checked(&buf).unwrap(), 0x1234);
    let bad = [0x34u8, 0x12, 0x12, 0x35];
    assert!(double_endian::u16_checked(&bad).is_err());
}

#[test]
fn test_dual_endian_u32() {
    let buf = [0x78u8, 0x56, 0x34, 0x12, 0x12, 0x34, 0x56, 0x78];
    assert_eq!(double_endian::u32(&buf), 0x12345678);
    assert_eq!(double_endian::u32_checked(&buf).unwrap(), 0x12345678);
    let bad = [0x78u8, 0x56, 0x34, 0x12, 0, 0, 0, 0];
    assert!(double_endian::u32_checked(&bad).is_err());
}

#[test]
fn test_dual_endian_signed() {
    assert_eq!(double_endian::i16(&[0xff, 0xff, 0xff, 0xff]), -1);
    assert_eq!(double_endian::i16(&[0x00, 0x80, 0x80, 0x00]), -32768);
    assert_eq!(double_endian::i16(&[0x10, 0x00, 0x00, 0x10]), 16);
    assert_eq!(double_endian::i32(&[0xff; 8]), -1);
    assert_eq!(double_endian::i32(&[0x00, 0x00, 0x00, 0x80, 0, 0, 0, 0]), i32::MIN);
}

#[test]
fn test_dual_endian_dump() {
    assert_eq!(double_endian::dump_u16(0x1234), vec![0x34, 0x12, 0x12, 0x34]);
    assert_eq!(
        double_endian::dump_u32(0x01020304),
        vec![0x04, 0x03, 0x02, 0x01, 0x01, 0x02, 0x03, 0x04]
    );
    // the dump decodes back from either half
    let d = double_endian::dump_u32(0xCAFEBABE);
    assert_eq!(double_endian::u32(&d), 0xCAFEBABE);
    assert_eq!(double_endian::u32_checked(&d).unwrap(), 0xCAFEBABE);
}

fn put(buf: &mut [u8], at: usize, bytes: &[u8]) {
    buf[at..at + bytes.len()].copy_from_slice(bytes);
}

fn pvd_sector() -> Vec<u8> {
    let mut s = vec![0u8; 2048];
    s[0] = 1;
    put(&mut s, 1, b"CD001");
    s[6] = 1;
    put(&mut s, 8, b"LINUX");
    put(&mut s, 40, b"DISK1");
    // volume space size, both endians
    put(&mut s, 80, &[0x45, 0x23, 0x01, 0x00, 0x00, 0x01, 0x23, 0x45]);
    // set size, sequence number, logical block size
    put(&mut s, 120, &[0x01, 0x00, 0x00, 0x01]);
    put(&mut s, 124, &[0x01, 0x00, 0x00, 0x01]);
    put(&mut s, 128, &[0x00, 0x08, 0x08, 0x00]);
    // path table size, both endians
    put(&mut s, 132, &[0x00, 0x10, 0x00, 0x00, 0x00, 0x00, 0x10, 0x00]);
    // L path table at 19, no optional; M path table at 20, no optional
    put(&mut s, 140, &[19, 0, 0, 0]);
    put(&mut s, 148, &[0, 0, 0, 20]);
    // the four date fields: unset sentinels
    for off in [813, 830, 847, 864] {
        put(&mut s, off, b"0000000000000000");
        s[off + 16] = 0;
    }
    s[881] = 1;
    s
}

#[test]
fn test_pvd_parse_minimal() {
    let s = pvd_sector();
    let p = PVD::try_parse(&s).unwrap();
    assert_eq!(p.sys_ident, Some(StrA::<32>::from_slice(&s[8..40]).unwrap()));
    assert_eq!(p.vol_ident, Some(StrD::<32>::from_slice(&s[40..72]).unwrap()));
    assert_eq!(p.vol_space_size, 0x12345);
    assert_eq!(p.vol_set_size, 1);
    assert_eq!(p.vol_seq_num, 1);
    assert_eq!(p.logical_block_size, 2048);
    assert_eq!(p.path_table_size, 0x1000);
    assert_eq!(p.path_table_l_location, 19);
    assert_eq!(p.opt_path_table_l_location, None);
    assert_eq!(p.path_table_m_location, 20);
    assert_eq!(p.opt_path_table_m_location, None);
    assert_eq!(p.vol_set_ident, None);
    assert_eq!(p.publisher_ident, None);
    assert_eq!(p.data_prep_ident, None);
    assert_eq!(p.app_ident, None);
    assert_eq!(p.copyright_file_name, None);
    assert_eq!(p.abstract_file_name, None);
    assert_eq!(p.bibliographic_file_name, None);
    assert_eq!(p.vol_create_date_time, None);
    assert_eq!(p.vol_mod_date_time, None);
    assert_eq!(p.vol_expiration_date_time, None);
    assert_eq!(p.vol_effective_date_time, None);
    assert_eq!(p.application_used, None);
}

#[test]
fn test_pvd_gated_identifiers() {
    let mut s = pvd_sector();
    s[318] = 0x5f;
    put(&mut s, 319, b"THE PUBLISHER");
    for b in &mut s[319 + 13..446] {
        *b = 0x20;
    }
    s[574] = 0x5f;
    put(&mut s, 575, b"SOME APP");
    for b in &mut s[575 + 8..702] {
        *b = 0x20;
    }
    for (i, b) in s[883..1395].iter_mut().enumerate() {
        *b = (i % 251) as u8;
    }
    let p = PVD::try_parse(&s).unwrap();
    assert_eq!(p.publisher_ident, Some(StrA::<127>::from_slice(&s[319..446]).unwrap()));
    assert_eq!(p.data_prep_ident, None);
    assert_eq!(p.app_ident, Some(StrA::<127>::from_slice(&s[575..702]).unwrap()));
    let used = p.application_used.unwrap();
    assert_eq!(used.as_slice(), &s[883..1395]);
}

#[test]
fn test_pvd_parses_dates() {
    let mut s = pvd_sector();
    put(&mut s, 813, b"2024013112595999");
    s[813 + 16] = 8;
    let p = PVD::try_parse(&s).unwrap();
    let d = p.vol_create_date_time.unwrap();
    assert_eq!(&d.year.raw_bytes()[..4], b"2024");
    assert_eq!(d.time_zone, 8);
    assert_eq!(p.vol_mod_date_time, None);
}

#[test]
fn test_pvd_date_error_is_reported() {
    let mut s = pvd_sector();
    put(&mut s, 830, b"2024130112000000");
    let err = PVD::try_parse(&s).unwrap_err();
    assert!(matches!(err, VDErr::InvalidDate { actual: 13, .. }));
}

#[test]
fn test_pvd_bad_version() {
    let mut s = pvd_sector();
    s[881] = 0;
    let err = PVD::try_parse(&s).unwrap_err();
    assert_eq!(err, VDErr::UnknownVersion(0));
}

#[test]
fn test_pvd_bad_sys_ident() {
    let mut s = pvd_sector();
    s[10] = b'#';
    let err = PVD::try_parse(&s).unwrap_err();
    assert!(matches!(err, VDErr::InvalidAlphabet { code_point: b'#', .. }));
}

fn boot_record_sector() -> Vec<u8> {
    let mut s = vec![0u8; 2048];
    s[0] = 0;
    put(&mut s, 1, b"CD001");
    s[6] = 1;
    put(&mut s, 7, b"SYSID");
    put(&mut s, 39, b"BOOT PART");
    put(&mut s, 71, &[18, 0, 0, 0]);
    s
}

#[test]
fn test_boot_record_parse() {
    let s = boot_record_sector();
    let br = BootRecord::try_parse(&s).unwrap();
    assert_eq!(br.boot_sys_ident, Some(StrA::<32>::from_slice(&s[7..39]).unwrap()));
    assert_eq!(br.boot_ident, Some(StrA::<32>::from_slice(&s[39..71]).unwrap()));
    assert_eq!(BootRecord::read_el_torino_boot_catalog_off(&s), 18);
}

#[test]
fn test_boot_record_dump() {
    let br = BootRecord { boot_sys_ident: None, boot_ident: None };
    let out = br.dump(18);
    assert_eq!(out.len(), 2048);
    assert_eq!(out[0], 0);
    assert_eq!(&out[1..6], b"CD001");
    assert_eq!(&out[6..29], b"EL TORITO SPECIFICATION");
    assert!(out[29..71].iter().all(|&b| b == 0));
    assert_eq!(&out[71..75], &[18, 0, 0, 0]);
    assert!(out[75..2048].iter().all(|&b| b == 0));
}

#[test]
fn test_boot_record_dump_round_trip() {
    // What survives a dump: the fixed identifier content and the
    // catalog address.
    let out = BootRecord { boot_sys_ident: None, boot_ident: None }.dump(77);
    let back = BootRecord::try_parse(&out).unwrap();
    let sys = back.boot_sys_ident.unwrap();
    assert_eq!(&sys.raw_bytes()[..sys.len()], b"L TORITO SPECIFICATION");
    assert_eq!(back.boot_ident, None);
    assert_eq!(BootRecord::read_el_torino_boot_catalog_off(&out), 77);
}

fn terminator_sector() -> Vec<u8> {
    let mut s = vec![0u8; 2048];
    s[0] = 255;
    put(&mut s, 1, b"CD001");
    s[6] = 1;
    s
}

#[test]
fn test_parse_descriptor_dispatch() {
    assert!(matches!(parse_descriptor(&pvd_sector()).unwrap(), Descriptor::Primary(_)));
    assert!(matches!(parse_descriptor(&boot_record_sector()).unwrap(), Descriptor::Boot(_)));
    assert!(matches!(parse_descriptor(&terminator_sector()).unwrap(), Descriptor::Terminator));
    let mut evd = terminator_sector();
    evd[0] = 2;
    assert!(matches!(parse_descriptor(&evd).unwrap(), Descriptor::Supplementary));
    let mut part = terminator_sector();
    part[0] = 3;
    assert!(matches!(parse_descriptor(&part).unwrap(), Descriptor::Partition));
}

#[test]
fn test_walk_primary_then_terminator() {
    // One primary descriptor, then the terminator: exactly one parsed
    // descriptor comes back, and nothing past the terminator is read --
    // the garbage third sector would fail any parse.
    let mut data = pvd_sector();
    data.extend_from_slice(&terminator_sector());
    data.extend_from_slice(&vec![0xFFu8; 2048]);
    let ds = walk_descriptors(&data).unwrap();
    assert_eq!(ds.len(), 1);
    assert!(matches!(ds[0], Descriptor::Primary(_)));
}

#[test]
fn test_walk_boot_record_chain() {
    let mut data = boot_record_sector();
    data.extend_from_slice(&pvd_sector());
    data.extend_from_slice(&terminator_sector());
    let ds = walk_descriptors(&data).unwrap();
    assert_eq!(ds.len(), 2);
    assert!(matches!(ds[0], Descriptor::Boot(_)));
    assert!(matches!(ds[1], Descriptor::Primary(_)));
}

#[test]
fn test_walk_without_terminator() {
    let data = pvd_sector();
    let err = walk_descriptors(&data).unwrap_err();
    assert_eq!(err, VDErr::UnexpectedEnd);
}

#[test]
fn test_walk_bad_sector_is_fatal() {
    let mut bad = pvd_sector();
    bad[0] = 9;
    let mut data = bad;
    data.extend_from_slice(&terminator_sector());
    let err = walk_descriptors(&data).unwrap_err();
    assert_eq!(err, VDErr::UnknownVersion(9));
}
