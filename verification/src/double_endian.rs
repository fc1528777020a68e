use vstd::prelude::*;

verus! {

/// Value of a two-byte little-endian window.
pub open spec fn le16(b0: u8, b1: u8) -> u16 {
    (b0 + 256 * b1) as u16
}

/// Value of a two-byte big-endian window.
pub open spec fn be16(b0: u8, b1: u8) -> u16 {
    (b1 + 256 * b0) as u16
}

/// Value of a four-byte little-endian window.
pub open spec fn le32(b0: u8, b1: u8, b2: u8, b3: u8) -> u32 {
    (b0 + 0x100 * b1 + 0x10000 * b2 + 0x1000000 * b3) as u32
}

/// Value of a four-byte big-endian window.
pub open spec fn be32(b0: u8, b1: u8, b2: u8, b3: u8) -> u32 {
    (b3 + 0x100 * b2 + 0x10000 * b1 + 0x1000000 * b0) as u32
}

/// The 16-bit pattern reinterpreted as a signed value.
pub open spec fn as_i16(v: u16) -> i16 {
    if v < 0x8000 {
        v as i16
    } else {
        (v - 0x10000) as i16
    }
}

/// The 32-bit pattern reinterpreted as a signed value.
pub open spec fn as_i32(v: u32) -> i32 {
    if v < 0x8000_0000 {
        v as i32
    } else {
        (v - 0x1_0000_0000) as i32
    }
}

/// The two halves of a dual-endian window decoded to different values:
/// the image is corrupt or non-conformant.
#[derive(Clone, Copy, Debug, PartialEq, Eq, Structural)]
pub struct RedundancyMismatch;

/// Decode a dual-endian 16-bit field: the window holds the value twice,
/// little-endian first, and the canonical decode reads the little-endian
/// half.
pub fn u16(slice: &[u8]) -> (r: u16)
    requires
        slice@.len() >= 4,
    ensures
        r == le16(slice@[0], slice@[1]),
{
    let b0 = *vstd::slice::slice_index_get(slice, 0);
    let b1 = *vstd::slice::slice_index_get(slice, 1);
    b0 as u16 + 256 * (b1 as u16)
}

/// Decode a dual-endian 32-bit field, reading the little-endian half.
pub fn u32(slice: &[u8]) -> (r: u32)
    requires
        slice@.len() >= 8,
    ensures
        r == le32(slice@[0], slice@[1], slice@[2], slice@[3]),
{
    let b0 = *vstd::slice::slice_index_get(slice, 0);
    let b1 = *vstd::slice::slice_index_get(slice, 1);
    let b2 = *vstd::slice::slice_index_get(slice, 2);
    let b3 = *vstd::slice::slice_index_get(slice, 3);
    b0 as u32 + 0x100 * (b1 as u32) + 0x10000 * (b2 as u32) + 0x1000000 * (b3 as u32)
}

/// Decode a dual-endian signed 16-bit field, reading the little-endian
/// half.
pub fn i16(slice: &[u8]) -> (r: i16)
    requires
        slice@.len() >= 4,
    ensures
        r == as_i16(le16(slice@[0], slice@[1])),
{
    let v = u16(slice);
    if v < 0x8000 {
        v as i16
    } else {
        ((v as i32) - 0x10000) as i16
    }
}

/// Decode a dual-endian signed 32-bit field, reading the little-endian
/// half.
pub fn i32(slice: &[u8]) -> (r: i32)
    requires
        slice@.len() >= 8,
    ensures
        r == as_i32(le32(slice@[0], slice@[1], slice@[2], slice@[3])),
{
    let v = u32(slice);
    if v < 0x8000_0000 {
        v as i32
    } else {
        ((v as i64) - 0x1_0000_0000) as i32
    }
}

/// Decode a dual-endian 16-bit field and check that the big-endian half
/// agrees with the little-endian half.
pub fn u16_checked(slice: &[u8]) -> (r: Result<u16, RedundancyMismatch>)
    requires
        slice@.len() >= 4,
    ensures
        match r {
            Ok(v) => v == le16(slice@[0], slice@[1]) && v == be16(slice@[2], slice@[3]),
            Err(RedundancyMismatch) => le16(slice@[0], slice@[1]) != be16(slice@[2], slice@[3]),
        },
{
    let v = u16(slice);
    let b2 = *vstd::slice::slice_index_get(slice, 2);
    let b3 = *vstd::slice::slice_index_get(slice, 3);
    let w = b3 as u16 + 256 * (b2 as u16);
    if v == w {
        Ok(v)
    } else {
        Err(RedundancyMismatch)
    }
}

/// Decode a dual-endian 32-bit field and check that the big-endian half
/// agrees with the little-endian half.
pub fn u32_checked(slice: &[u8]) -> (r: Result<u32, RedundancyMismatch>)
    requires
        slice@.len() >= 8,
    ensures
        match r {
            Ok(v) => v == le32(slice@[0], slice@[1], slice@[2], slice@[3]) && v == be32(
                slice@[4],
                slice@[5],
                slice@[6],
                slice@[7],
            ),
            Err(RedundancyMismatch) => le32(slice@[0], slice@[1], slice@[2], slice@[3]) != be32(
                slice@[4],
                slice@[5],
                slice@[6],
                slice@[7],
            ),
        },
{
    let v = u32(slice);
    let b4 = *vstd::slice::slice_index_get(slice, 4);
    let b5 = *vstd::slice::slice_index_get(slice, 5);
    let b6 = *vstd::slice::slice_index_get(slice, 6);
    let b7 = *vstd::slice::slice_index_get(slice, 7);
    let w = b7 as u32 + 0x100 * (b6 as u32) + 0x10000 * (b5 as u32) + 0x1000000 * (b4 as u32);
    if v == w {
        Ok(v)
    } else {
        Err(RedundancyMismatch)
    }
}

/// Read a plain little-endian 32-bit field (single encoding).
pub fn u32_le(slice: &[u8]) -> (r: u32)
    requires
        slice@.len() >= 4,
    ensures
        r == le32(slice@[0], slice@[1], slice@[2], slice@[3]),
{
    let b0 = *vstd::slice::slice_index_get(slice, 0);
    let b1 = *vstd::slice::slice_index_get(slice, 1);
    let b2 = *vstd::slice::slice_index_get(slice, 2);
    let b3 = *vstd::slice::slice_index_get(slice, 3);
    b0 as u32 + 0x100 * (b1 as u32) + 0x10000 * (b2 as u32) + 0x1000000 * (b3 as u32)
}

/// Read a plain big-endian 32-bit field (single encoding).
pub fn u32_be(slice: &[u8]) -> (r: u32)
    requires
        slice@.len() >= 4,
    ensures
        r == be32(slice@[0], slice@[1], slice@[2], slice@[3]),
{
    let b0 = *vstd::slice::slice_index_get(slice, 0);
    let b1 = *vstd::slice::slice_index_get(slice, 1);
    let b2 = *vstd::slice::slice_index_get(slice, 2);
    let b3 = *vstd::slice::slice_index_get(slice, 3);
    b3 as u32 + 0x100 * (b2 as u32) + 0x10000 * (b1 as u32) + 0x1000000 * (b0 as u32)
}

/// Read a plain little-endian 16-bit field (single encoding).
pub fn u16_le(slice: &[u8]) -> (r: u16)
    requires
        slice@.len() >= 2,
    ensures
        r == le16(slice@[0], slice@[1]),
{
    let b0 = *vstd::slice::slice_index_get(slice, 0);
    let b1 = *vstd::slice::slice_index_get(slice, 1);
    b0 as u16 + 256 * (b1 as u16)
}

/// The low byte of a 16-bit value.
pub open spec fn lo16(v: u16) -> u8 {
    (v % 256) as u8
}

/// The high byte of a 16-bit value.
pub open spec fn hi16(v: u16) -> u8 {
    (v / 256) as u8
}

/// The bytes of a 32-bit value, least significant first.
pub open spec fn byte32(v: u32, i: int) -> u8 {
    if i == 0 {
        (v % 0x100) as u8
    } else if i == 1 {
        ((v / 0x100) % 0x100) as u8
    } else if i == 2 {
        ((v / 0x10000) % 0x100) as u8
    } else {
        ((v / 0x1000000) % 0x100) as u8
    }
}

/// The four bytes a dual-endian 16-bit dump writes: the value
/// little-endian, then the same value big-endian.
pub open spec fn dual16_bytes(v: u16) -> Seq<u8> {
    seq![lo16(v), hi16(v), hi16(v), lo16(v)]
}

/// The eight bytes a dual-endian 32-bit dump writes.
pub open spec fn dual32_bytes(v: u32) -> Seq<u8> {
    seq![
        byte32(v, 0),
        byte32(v, 1),
        byte32(v, 2),
        byte32(v, 3),
        byte32(v, 3),
        byte32(v, 2),
        byte32(v, 1),
        byte32(v, 0),
    ]
}

/// Both halves of a dual-endian 16-bit dump decode back to the value.
pub proof fn lemma_dual16_round_trip(v: u16)
    ensures
        le16(dual16_bytes(v)[0], dual16_bytes(v)[1]) == v,
        be16(dual16_bytes(v)[2], dual16_bytes(v)[3]) == v,
{
    assert(v % 256 + 256 * (v / 256) == v) by (nonlinear_arith);
}

/// Both halves of a dual-endian 32-bit dump decode back to the value.
pub proof fn lemma_dual32_round_trip(v: u32)
    ensures
        le32(dual32_bytes(v)[0], dual32_bytes(v)[1], dual32_bytes(v)[2], dual32_bytes(v)[3]) == v,
        be32(dual32_bytes(v)[4], dual32_bytes(v)[5], dual32_bytes(v)[6], dual32_bytes(v)[7]) == v,
{
    assert(v % 0x100 + 0x100 * ((v / 0x100) % 0x100) + 0x10000 * ((v / 0x10000) % 0x100)
        + 0x1000000 * ((v / 0x1000000) % 0x100) == v) by (nonlinear_arith);
}

/// Splitting a 16-bit value into its bytes and reading them back
/// little-endian recovers the value.
pub proof fn lemma_le16_bytes(v: u16)
    ensures
        le16(lo16(v), hi16(v)) == v,
{
    assert(v % 256 + 256 * (v / 256) == v) by (nonlinear_arith);
}

/// Splitting a 32-bit value into its bytes and reading them back
/// little-endian recovers the value.
pub proof fn lemma_le32_bytes(v: u32)
    ensures
        le32(byte32(v, 0), byte32(v, 1), byte32(v, 2), byte32(v, 3)) == v,
{
    assert(v % 0x100 + 0x100 * ((v / 0x100) % 0x100) + 0x10000 * ((v / 0x10000) % 0x100)
        + 0x1000000 * ((v / 0x1000000) % 0x100) == v) by (nonlinear_arith);
}

/// Write a dual-endian 16-bit field.
pub fn dump_u16(v: u16) -> (out: Vec<u8>)
    ensures
        out@ == dual16_bytes(v),
{
    let lo = (v % 256) as u8;
    let hi = (v / 256) as u8;
    let mut out: Vec<u8> = Vec::new();
    out.push(lo);
    out.push(hi);
    out.push(hi);
    out.push(lo);
    proof {
        assert(out@ =~= dual16_bytes(v));
    }
    out
}

/// Write a dual-endian 32-bit field.
pub fn dump_u32(v: u32) -> (out: Vec<u8>)
    ensures
        out@ == dual32_bytes(v),
{
    let b0 = (v % 0x100) as u8;
    let b1 = ((v / 0x100) % 0x100) as u8;
    let b2 = ((v / 0x10000) % 0x100) as u8;
    let b3 = ((v / 0x1000000) % 0x100) as u8;
    let mut out: Vec<u8> = Vec::new();
    out.push(b0);
    out.push(b1);
    out.push(b2);
    out.push(b3);
    out.push(b3);
    out.push(b2);
    out.push(b1);
    out.push(b0);
    proof {
        assert(out@ =~= dual32_bytes(v));
    }
    out
}

} // verus!
