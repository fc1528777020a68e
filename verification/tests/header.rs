use iso9660::header::UnknownVersion;
use iso9660::header::VD;
use iso9660::header::VDErr;
use iso9660::header::VDType;

#[test]
fn test_header_parse_primary() {
    let buf = [1u8, b'C', b'D', b'0', b'0', b'1', 1];
    let vd = VD::read_header(&buf).unwrap();
    assert_eq!(vd, VD { ty: VDType::PrimaryVD, version: 1 });
}

#[test]
fn test_header_unknown_ident() {
    let buf = [1u8, b'X', b'X', b'X', b'X', b'X', 1];
    let err = VD::read_header(&buf).unwrap_err();
    assert_eq!(err, VDErr::UnknownIdent([b'X', b'X', b'X', b'X', b'X']));
}

#[test]
fn test_header_unknown_version() {
    let buf = [1u8, b'C', b'D', b'0', b'0', b'1', 2];
    let err = VD::read_header(&buf).unwrap_err();
    assert_eq!(err, VDErr::UnknownVersion(2));
}

#[test]
fn test_header_unknown_type() {
    let buf = [9u8, b'C', b'D', b'0', b'0', b'1', 1];
    let err = VD::read_header(&buf).unwrap_err();
    assert_eq!(err, VDErr::UnknownVersion(9));
}

#[test]
fn test_header_all_types() {
    for (byte, ty) in [
        (0u8, VDType::BootRecord),
        (1, VDType::PrimaryVD),
        (2, VDType::EVD),
        (3, VDType::PartDes),
        (255, VDType::VDEnd),
    ] {
        let buf = [byte, b'C', b'D', b'0', b'0', b'1', 1];
        let vd = VD::read_header(&buf).unwrap();
        assert_eq!(vd.ty, ty);
        assert_eq!(ty.as_u8(), byte);
    }
    assert_eq!(VDType::try_from(77).unwrap_err(), UnknownVersion(77));
}

#[test]
fn test_header_dump_round_trip() {
    let vd = VD { ty: VDType::BootRecord, version: 1 };
    let bytes = vd.dump();
    assert_eq!(bytes, vec![0, b'C', b'D', b'0', b'0', b'1', 1]);
    let back = VD::read_header(&bytes).unwrap();
    assert_eq!(back, vd);
}
