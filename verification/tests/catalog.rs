use iso9660::boot_catalog::BootIndicator;
use iso9660::boot_catalog::BootMedia;
use iso9660::boot_catalog::HeaderIndicator;
use iso9660::boot_catalog::InitialEntry;
use iso9660::boot_catalog::Platform;
use iso9660::boot_catalog::SectionEntry;
use iso9660::boot_catalog::SectionHeaderEntry;
use iso9660::boot_catalog::SelectionCriteria;
use iso9660::boot_catalog::ValidationEntry;
use iso9660::fixed_str::StrA;
use iso9660::header::VDErr;

#[test]
fn test_validation_entry_dump_concrete() {
    // The fixed layout of a minimal validation entry.
    let e = ValidationEntry { header_id: 1, platform_id: Platform::X86, manufacturer_id: None };
    let out = e.dump();
    assert_eq!(out.len(), 32);
    assert_eq!(out[0], 1);
    assert_eq!(out[1], 0);
    assert_eq!(&out[2..4], &[0, 0]);
    assert!(out[4..28].iter().all(|&b| b == 0x20));
    assert_eq!(&out[28..30], &[0, 0]);
    assert_eq!(out[30], 0x55);
    assert_eq!(out[31], 0xAA);
}

#[test]
fn test_validation_entry_round_trip() {
    let manufacturer = StrA::<24>::from_slice(b"ACME CORP.              ").unwrap();
    let e = ValidationEntry {
        header_id: 1,
        platform_id: Platform::UEFI,
        manufacturer_id: Some(manufacturer),
    };
    let out = e.dump();
    let back = ValidationEntry::try_parse(&out).unwrap();
    assert_eq!(back, e);
}

#[test]
fn test_validation_entry_unknown_platform() {
    let mut buf = vec![0u8; 32];
    buf[1] = 9;
    let err = ValidationEntry::try_parse(&buf).unwrap_err();
    assert_eq!(err, VDErr::UnknownPlatformId(9));
}

#[test]
fn test_validation_entry_bad_manufacturer_byte() {
    let mut buf = vec![0u8; 32];
    buf[1] = 0;
    for b in &mut buf[4..28] {
        *b = 0x20;
    }
    buf[5] = b'#';
    let err = ValidationEntry::try_parse(&buf).unwrap_err();
    assert!(matches!(err, VDErr::InvalidAlphabet { code_point: b'#', .. }));
}

#[test]
fn test_initial_entry_round_trip() {
    let e = InitialEntry {
        boot_indicator: BootIndicator::Bootable,
        boot_media: BootMedia::Floppy1_44,
        load_segment: 0x07c0,
        sys_type: 0,
        sector_count: 4,
        virtual_disk_addr: 19,
    };
    let out = e.dump();
    assert_eq!(out.len(), 32);
    assert_eq!(out[0], 0x88);
    assert_eq!(out[1], 2);
    assert_eq!(&out[2..4], &[0xc0, 0x07]);
    assert_eq!(out[4], 0);
    assert_eq!(out[5], 0);
    assert_eq!(&out[6..8], &[4, 0]);
    assert_eq!(&out[8..12], &[19, 0, 0, 0]);
    assert!(out[12..32].iter().all(|&b| b == 0));
    let back = InitialEntry::try_parse(&out).unwrap();
    assert_eq!(back, e);
}

#[test]
fn test_initial_entry_hard_drive_round_trip() {
    // The initial entry stores its media tag as a whole byte, so even
    // the hard-drive tag survives a round trip here.
    let e = InitialEntry {
        boot_indicator: BootIndicator::NotBootable,
        boot_media: BootMedia::HardDrive,
        load_segment: 0,
        sys_type: 6,
        sector_count: 1,
        virtual_disk_addr: 0x01020304,
    };
    let back = InitialEntry::try_parse(&e.dump()).unwrap();
    assert_eq!(back, e);
}

#[test]
fn test_initial_entry_unknown_indicator() {
    let mut buf = vec![0u8; 32];
    buf[0] = 5;
    let err = InitialEntry::try_parse(&buf).unwrap_err();
    assert_eq!(err, VDErr::UnknownBootIndicator(5));
}

#[test]
fn test_initial_entry_unknown_media() {
    let mut buf = vec![0u8; 32];
    buf[0] = 0x88;
    buf[1] = 7;
    let err = InitialEntry::try_parse(&buf).unwrap_err();
    assert_eq!(err, VDErr::UnknownBootMedia(7));
}

#[test]
fn test_section_header_round_trip() {
    let e = SectionHeaderEntry {
        header_indicator: HeaderIndicator::Final,
        platform_id: Platform::X86,
        nb_section_entries: 1,
        id_str: None,
    };
    let out = e.dump();
    assert_eq!(out.len(), 32);
    assert_eq!(out[0], 0x91);
    assert_eq!(out[1], 0);
    assert_eq!(&out[2..4], &[1, 0]);
    assert!(out[4..32].iter().all(|&b| b == 0x20));
    let back = SectionHeaderEntry::try_parse(&out).unwrap();
    assert_eq!(back, e);
}

#[test]
fn test_section_header_with_id_round_trip() {
    let id = StrA::<28>::from_slice(b"LINUX                       ").unwrap();
    let e = SectionHeaderEntry {
        header_indicator: HeaderIndicator::Partial,
        platform_id: Platform::PPC,
        nb_section_entries: 513,
        id_str: Some(id),
    };
    let back = SectionHeaderEntry::try_parse(&e.dump()).unwrap();
    assert_eq!(back, e);
}

#[test]
fn test_section_header_unknown_indicator() {
    let mut buf = vec![0u8; 32];
    buf[0] = 0x10;
    let err = SectionHeaderEntry::try_parse(&buf).unwrap_err();
    assert_eq!(err, VDErr::UnknownHeaderIndicator(0x10));
}

#[test]
fn test_section_entry_round_trip() {
    let e = SectionEntry {
        boot_indicator: BootIndicator::Bootable,
        boot_media: BootMedia::Floppy1_44,
        has_continuation_entry: true,
        image_contains_atapi_driver: false,
        image_contains_scsi_driver: true,
        load_segment: 0x1000,
        sys_type: 0x83,
        sector_count: 64,
        virtual_disk_addr: 0xDEADBEEF,
        selection_criteria: SelectionCriteria::LanguageAndVersion,
        selection_criteria_bytes: (1..=19).collect(),
    };
    let out = e.dump();
    assert_eq!(out.len(), 32);
    // media tag in bits 0-1, flags in bits 5 and 7
    assert_eq!(out[1], 2 | 0x20 | 0x80);
    assert_eq!(out[12], 1);
    assert_eq!(&out[13..32], (1..=19).collect::<Vec<u8>>().as_slice());
    let back = SectionEntry::try_parse(&out).unwrap();
    assert_eq!(back, e);
}

#[test]
fn test_section_entry_flag_bits_parse() {
    // media 1 in the low bits, continuation and SCSI flags set.
    let mut buf = vec![0u8; 32];
    buf[0] = 0x88;
    buf[1] = 0b1010_0001;
    let e = SectionEntry::try_parse(&buf).unwrap();
    assert_eq!(e.boot_media, BootMedia::Floppy1_2);
    assert!(e.has_continuation_entry);
    assert!(!e.image_contains_atapi_driver);
    assert!(e.image_contains_scsi_driver);
}

#[test]
fn test_section_entry_unknown_indicator() {
    let mut buf = vec![0u8; 32];
    buf[0] = 1;
    let err = SectionEntry::try_parse(&buf).unwrap_err();
    assert_eq!(err, VDErr::UnknownBootIndicator(1));
}

#[test]
fn test_selection_criteria_bytes() {
    assert_eq!(SelectionCriteria::from_u8(0), SelectionCriteria::NoCriteria);
    assert_eq!(SelectionCriteria::from_u8(1), SelectionCriteria::LanguageAndVersion);
    assert_eq!(SelectionCriteria::from_u8(7), SelectionCriteria::Unknown(7));
    for b in [0u8, 1, 2, 7, 255] {
        assert_eq!(SelectionCriteria::from_u8(b).to_u8(), b);
    }
}

#[test]
fn test_platform_bytes() {
    assert_eq!(Platform::try_from(0).unwrap(), Platform::X86);
    assert_eq!(Platform::try_from(1).unwrap(), Platform::PPC);
    assert_eq!(Platform::try_from(2).unwrap(), Platform::Mac);
    assert_eq!(Platform::try_from(0xef).unwrap(), Platform::UEFI);
    assert_eq!(Platform::UEFI.as_u8(), 0xef);
    assert!(Platform::try_from(3).is_err());
}
