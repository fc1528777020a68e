use vstd::prelude::*;

use crate::date_time::DateRange;
use crate::date_time::DecDateTimeErr;
use crate::fixed_str::Charset;
use crate::fixed_str::InvalidChar;

verus! {

/// The five descriptor types a volume-descriptor header can announce.
#[derive(Clone, Copy, Debug, PartialEq, Eq, Structural)]
pub enum VDType {
    BootRecord,
    PrimaryVD,
    EVD,
    PartDes,
    VDEnd,
}

/// A type or version byte outside the recognized set.
#[derive(Clone, Copy, Debug, PartialEq, Eq, Structural)]
pub struct UnknownVersion(pub u8);

impl VDType {
    /// The tag byte each descriptor type is stored as.
    pub open spec fn spec_byte(self) -> u8 {
        match self {
            VDType::BootRecord => 0,
            VDType::PrimaryVD => 1,
            VDType::EVD => 2,
            VDType::PartDes => 3,
            VDType::VDEnd => 255,
        }
    }

    /// The descriptor type a tag byte announces, if any.
    pub open spec fn spec_of_byte(b: u8) -> Option<VDType> {
        if b == 0 {
            Some(VDType::BootRecord)
        } else if b == 1 {
            Some(VDType::PrimaryVD)
        } else if b == 2 {
            Some(VDType::EVD)
        } else if b == 3 {
            Some(VDType::PartDes)
        } else if b == 255 {
            Some(VDType::VDEnd)
        } else {
            None
        }
    }

    pub fn try_from(value: u8) -> (r: Result<VDType, UnknownVersion>)
        ensures
            match r {
                Ok(t) => VDType::spec_of_byte(value) == Some(t) && t.spec_byte() == value,
                Err(UnknownVersion(v)) => VDType::spec_of_byte(value) is None && v == value,
            },
    {
        match value {
            0 => Ok(VDType::BootRecord),
            1 => Ok(VDType::PrimaryVD),
            2 => Ok(VDType::EVD),
            3 => Ok(VDType::PartDes),
            255 => Ok(VDType::VDEnd),
            _ => Err(UnknownVersion(value)),
        }
    }

    pub fn as_u8(&self) -> (r: u8)
        ensures
            r == self.spec_byte(),
    {
        match self {
            VDType::BootRecord => 0,
            VDType::PrimaryVD => 1,
            VDType::EVD => 2,
            VDType::PartDes => 3,
            VDType::VDEnd => 255,
        }
    }
}

/// The common 7-byte volume-descriptor header: type tag, the 5-byte
/// magic identifier, and the version byte.
#[derive(Clone, Copy, Debug, PartialEq, Eq, Structural)]
pub struct VD {
    pub ty: VDType,
    pub version: u8,
}

/// Every way a descriptor-level parse can fail.
#[derive(Clone, Copy, Debug, PartialEq, Eq)]
pub enum VDErr {
    /// A type or version byte other than the recognized ones.
    UnknownVersion(u8),
    /// The magic identifier was not the expected five bytes.
    UnknownIdent([u8; 5]),
    /// A string field held a byte outside its declared character set.
    InvalidAlphabet { code_point: u8, alphabet: Charset },
    /// A date sub-field fell outside its declared numeric range.
    InvalidDate { range: DateRange, actual: u16 },
    /// A platform tag byte outside the recognized set.
    UnknownPlatformId(u8),
    /// A boot-media tag byte outside the recognized set.
    UnknownBootMedia(u8),
    /// A boot-indicator byte outside the recognized set.
    UnknownBootIndicator(u8),
    /// A section-header indicator byte outside the recognized set.
    UnknownHeaderIndicator(u8),
    /// The descriptor sequence ran out of sectors before a terminator
    /// descriptor: where a stream is behind the buffer, the read that
    /// failed would surface here.
    UnexpectedEnd,
}

impl VDErr {
    /// How a string-field error surfaces at descriptor level.
    pub open spec fn spec_from_char(e: InvalidChar) -> VDErr {
        VDErr::InvalidAlphabet { code_point: e.code_point, alphabet: e.alphabet }
    }

    pub fn from_char(e: InvalidChar) -> (r: VDErr)
        ensures
            r == VDErr::spec_from_char(e),
    {
        VDErr::InvalidAlphabet { code_point: e.code_point, alphabet: e.alphabet }
    }

    /// How a date-field error surfaces at descriptor level: a bad byte is
    /// charged to the "D" set the date strings are held to.
    pub open spec fn spec_from_date_err(e: DecDateTimeErr) -> VDErr {
        match e {
            DecDateTimeErr::InvalidChar(c) => VDErr::InvalidAlphabet {
                code_point: c,
                alphabet: Charset::D,
            },
            DecDateTimeErr::InvalidDate { range, actual } => VDErr::InvalidDate { range, actual },
        }
    }

    pub fn from_date_err(e: DecDateTimeErr) -> (r: VDErr)
        ensures
            r == VDErr::spec_from_date_err(e),
    {
        match e {
            DecDateTimeErr::InvalidChar(c) => VDErr::InvalidAlphabet {
                code_point: c,
                alphabet: Charset::D,
            },
            DecDateTimeErr::InvalidDate { range, actual } => VDErr::InvalidDate { range, actual },
        }
    }
}

/// The magic identifier holds "CD001".
pub open spec fn ident_ok(b: Seq<u8>) -> bool {
    &&& b[1] == 0x43
    &&& b[2] == 0x44
    &&& b[3] == 0x30
    &&& b[4] == 0x30
    &&& b[5] == 0x31
}

/// What parsing the 7-byte header yields: the type byte must be a known
/// tag, the identifier must be the magic exactly, and the version byte
/// must be 1.
pub open spec fn header_parse(b: Seq<u8>) -> Result<VD, VDErr> {
    match VDType::spec_of_byte(b[0]) {
        None => Err(VDErr::UnknownVersion(b[0])),
        Some(ty) => {
            if !ident_ok(b) {
                Err(VDErr::UnknownIdent([b[1], b[2], b[3], b[4], b[5]]))
            } else if b[6] != 1 {
                Err(VDErr::UnknownVersion(b[6]))
            } else {
                Ok(VD { ty, version: b[6] })
            }
        },
    }
}

impl VD {
    /// Decode the common header from the start of a sector.
    pub fn read_header(buffer: &[u8]) -> (r: Result<Self, VDErr>)
        requires
            buffer@.len() >= 7,
        ensures
            r == header_parse(buffer@),
    {
        let ty = match VDType::try_from(*vstd::slice::slice_index_get(buffer, 0)) {
            Ok(t) => t,
            Err(UnknownVersion(v)) => {
                return Err(VDErr::UnknownVersion(v));
            },
        };
        let i1 = *vstd::slice::slice_index_get(buffer, 1);
        let i2 = *vstd::slice::slice_index_get(buffer, 2);
        let i3 = *vstd::slice::slice_index_get(buffer, 3);
        let i4 = *vstd::slice::slice_index_get(buffer, 4);
        let i5 = *vstd::slice::slice_index_get(buffer, 5);
        if !(i1 == 0x43 && i2 == 0x44 && i3 == 0x30 && i4 == 0x30 && i5 == 0x31) {
            return Err(VDErr::UnknownIdent([i1, i2, i3, i4, i5]));
        }
        let version = *vstd::slice::slice_index_get(buffer, 6);
        if version != 1 {
            return Err(VDErr::UnknownVersion(version));
        }
        Ok(VD { ty, version })
    }

    /// The seven bytes this header dumps to.
    pub open spec fn header_bytes(self) -> Seq<u8> {
        seq![self.ty.spec_byte(), 0x43, 0x44, 0x30, 0x30, 0x31, self.version]
    }

    /// Write the common header: type tag, magic identifier, version.
    pub fn dump(&self) -> (out: Vec<u8>)
        ensures
            out@ == self.header_bytes(),
    {
        let mut out: Vec<u8> = Vec::new();
        out.push(self.ty.as_u8());
        out.push(0x43);
        out.push(0x44);
        out.push(0x30);
        out.push(0x30);
        out.push(0x31);
        out.push(self.version);
        proof {
            assert(out@ =~= self.header_bytes());
        }
        out
    }
}

/// A header a dump writes with version 1 reads back as itself.
pub proof fn lemma_header_round_trip(v: VD)
    requires
        v.version == 1,
    ensures
        header_parse(v.header_bytes()) == Ok::<VD, VDErr>(v),
{
}

} // verus!
