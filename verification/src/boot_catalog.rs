use vstd::prelude::*;

use crate::double_endian::le16;
use crate::double_endian::le32;
use crate::double_endian::lo16;
use crate::double_endian::hi16;
use crate::double_endian::byte32;
use crate::double_endian::lemma_le16_bytes;
use crate::double_endian::lemma_le32_bytes;
use crate::fixed_str::Charset;
use crate::fixed_str::StrA;
use crate::fixed_str::opt_a_view;
use crate::fixed_str::opt_a_wf;
use crate::fixed_str::pad_to;
use crate::fixed_str::parsed_opt_str;
use crate::fixed_str::str_parse;
use crate::fixed_str::lemma_str_parse_padded;
use crate::header::VDErr;

verus! {

/// The platform a boot image targets.
#[derive(Clone, Copy, Debug, PartialEq, Eq, Structural)]
pub enum Platform {
    X86,
    PPC,
    Mac,
    UEFI,
}

#[derive(Clone, Copy, Debug, PartialEq, Eq, Structural)]
pub struct UnknownPlatformId(pub u8);

impl Platform {
    pub open spec fn spec_byte(self) -> u8 {
        match self {
            Platform::X86 => 0,
            Platform::PPC => 1,
            Platform::Mac => 2,
            Platform::UEFI => 0xef,
        }
    }

    pub open spec fn spec_of_byte(b: u8) -> Option<Platform> {
        if b == 0 {
            Some(Platform::X86)
        } else if b == 1 {
            Some(Platform::PPC)
        } else if b == 2 {
            Some(Platform::Mac)
        } else if b == 0xef {
            Some(Platform::UEFI)
        } else {
            None
        }
    }

    pub fn try_from(value: u8) -> (r: Result<Platform, UnknownPlatformId>)
        ensures
            match r {
                Ok(p) => Platform::spec_of_byte(value) == Some(p) && p.spec_byte() == value,
                Err(UnknownPlatformId(v)) => Platform::spec_of_byte(value) is None && v == value,
            },
    {
        match value {
            0 => Ok(Platform::X86),
            1 => Ok(Platform::PPC),
            2 => Ok(Platform::Mac),
            0xef => Ok(Platform::UEFI),
            _ => Err(UnknownPlatformId(value)),
        }
    }

    pub fn as_u8(&self) -> (r: u8)
        ensures
            r == self.spec_byte(),
    {
        match self {
            Platform::X86 => 0,
            Platform::PPC => 1,
            Platform::Mac => 2,
            Platform::UEFI => 0xef,
        }
    }
}

/// Whether an entry's image is bootable.
#[derive(Clone, Copy, Debug, PartialEq, Eq, Structural)]
pub enum BootIndicator {
    NotBootable,
    Bootable,
}

#[derive(Clone, Copy, Debug, PartialEq, Eq, Structural)]
pub struct UnknownBootIndicator(pub u8);

impl BootIndicator {
    pub open spec fn spec_byte(self) -> u8 {
        match self {
            BootIndicator::NotBootable => 0,
            BootIndicator::Bootable => 0x88,
        }
    }

    pub open spec fn spec_of_byte(b: u8) -> Option<BootIndicator> {
        if b == 0 {
            Some(BootIndicator::NotBootable)
        } else if b == 0x88 {
            Some(BootIndicator::Bootable)
        } else {
            None
        }
    }

    pub fn try_from(value: u8) -> (r: Result<BootIndicator, UnknownBootIndicator>)
        ensures
            match r {
                Ok(p) => BootIndicator::spec_of_byte(value) == Some(p) && p.spec_byte() == value,
                Err(UnknownBootIndicator(v)) => BootIndicator::spec_of_byte(value) is None && v
                    == value,
            },
    {
        match value {
            0 => Ok(BootIndicator::NotBootable),
            0x88 => Ok(BootIndicator::Bootable),
            _ => Err(UnknownBootIndicator(value)),
        }
    }

    pub fn as_u8(&self) -> (r: u8)
        ensures
            r == self.spec_byte(),
    {
        match self {
            BootIndicator::NotBootable => 0,
            BootIndicator::Bootable => 0x88,
        }
    }
}

/// The emulation an entry's image asks for.
#[derive(Clone, Copy, Debug, PartialEq, Eq, Structural)]
pub enum BootMedia {
    NoEmulation,
    Floppy1_2,
    Floppy1_44,
    Floppy2_88,
    HardDrive,
}

#[derive(Clone, Copy, Debug, PartialEq, Eq, Structural)]
pub struct UnknownBootMedia(pub u8);

impl BootMedia {
    pub open spec fn spec_byte(self) -> u8 {
        match self {
            BootMedia::NoEmulation => 0,
            BootMedia::Floppy1_2 => 1,
            BootMedia::Floppy1_44 => 2,
            BootMedia::Floppy2_88 => 3,
            BootMedia::HardDrive => 4,
        }
    }

    pub open spec fn spec_of_byte(b: u8) -> Option<BootMedia> {
        if b == 0 {
            Some(BootMedia::NoEmulation)
        } else if b == 1 {
            Some(BootMedia::Floppy1_2)
        } else if b == 2 {
            Some(BootMedia::Floppy1_44)
        } else if b == 3 {
            Some(BootMedia::Floppy2_88)
        } else if b == 4 {
            Some(BootMedia::HardDrive)
        } else {
            None
        }
    }

    pub fn try_from(value: u8) -> (r: Result<BootMedia, UnknownBootMedia>)
        ensures
            match r {
                Ok(p) => BootMedia::spec_of_byte(value) == Some(p) && p.spec_byte() == value,
                Err(UnknownBootMedia(v)) => BootMedia::spec_of_byte(value) is None && v == value,
            },
    {
        match value {
            0 => Ok(BootMedia::NoEmulation),
            1 => Ok(BootMedia::Floppy1_2),
            2 => Ok(BootMedia::Floppy1_44),
            3 => Ok(BootMedia::Floppy2_88),
            4 => Ok(BootMedia::HardDrive),
            _ => Err(UnknownBootMedia(value)),
        }
    }

    pub fn as_u8(&self) -> (r: u8)
        ensures
            r == self.spec_byte(),
    {
        match self {
            BootMedia::NoEmulation => 0,
            BootMedia::Floppy1_2 => 1,
            BootMedia::Floppy1_44 => 2,
            BootMedia::Floppy2_88 => 3,
            BootMedia::HardDrive => 4,
        }
    }
}

/// Whether a section header is the last of the catalog.
#[derive(Clone, Copy, Debug, PartialEq, Eq, Structural)]
pub enum HeaderIndicator {
    Partial,
    Final,
}

#[derive(Clone, Copy, Debug, PartialEq, Eq, Structural)]
pub struct UnknownHeaderIndicator(pub u8);

impl HeaderIndicator {
    pub open spec fn spec_byte(self) -> u8 {
        match self {
            HeaderIndicator::Partial => 0x90,
            HeaderIndicator::Final => 0x91,
        }
    }

    pub open spec fn spec_of_byte(b: u8) -> Option<HeaderIndicator> {
        if b == 0x90 {
            Some(HeaderIndicator::Partial)
        } else if b == 0x91 {
            Some(HeaderIndicator::Final)
        } else {
            None
        }
    }

    pub fn try_from(value: u8) -> (r: Result<HeaderIndicator, UnknownHeaderIndicator>)
        ensures
            match r {
                Ok(p) => HeaderIndicator::spec_of_byte(value) == Some(p) && p.spec_byte() == value,
                Err(UnknownHeaderIndicator(v)) => HeaderIndicator::spec_of_byte(value) is None && v
                    == value,
            },
    {
        match value {
            0x90 => Ok(HeaderIndicator::Partial),
            0x91 => Ok(HeaderIndicator::Final),
            _ => Err(UnknownHeaderIndicator(value)),
        }
    }

    pub fn as_u8(&self) -> (r: u8)
        ensures
            r == self.spec_byte(),
    {
        match self {
            HeaderIndicator::Partial => 0x90,
            HeaderIndicator::Final => 0x91,
        }
    }
}

/// The selection-criteria tag of a section entry.  Every byte maps to a
/// tag: unrecognized values are carried, not dropped.
#[derive(Clone, Copy, Debug, PartialEq, Eq, Structural)]
pub enum SelectionCriteria {
    NoCriteria,
    LanguageAndVersion,
    Unknown(u8),
}

impl SelectionCriteria {
    pub open spec fn spec_byte(self) -> u8 {
        match self {
            SelectionCriteria::NoCriteria => 0,
            SelectionCriteria::LanguageAndVersion => 1,
            SelectionCriteria::Unknown(v) => v,
        }
    }

    pub open spec fn spec_of_byte(b: u8) -> SelectionCriteria {
        if b == 0 {
            SelectionCriteria::NoCriteria
        } else if b == 1 {
            SelectionCriteria::LanguageAndVersion
        } else {
            SelectionCriteria::Unknown(b)
        }
    }

    /// The unknown variant only carries bytes outside the recognized
    /// tags, as decoding only ever produces.
    pub open spec fn wf(self) -> bool {
        self matches SelectionCriteria::Unknown(v) ==> v >= 2
    }

    pub fn from_u8(value: u8) -> (r: SelectionCriteria)
        ensures
            r == SelectionCriteria::spec_of_byte(value),
            r.wf(),
    {
        match value {
            0 => SelectionCriteria::NoCriteria,
            1 => SelectionCriteria::LanguageAndVersion,
            _ => SelectionCriteria::Unknown(value),
        }
    }

    pub fn to_u8(&self) -> (r: u8)
        ensures
            r == self.spec_byte(),
    {
        match self {
            SelectionCriteria::NoCriteria => 0,
            SelectionCriteria::LanguageAndVersion => 1,
            SelectionCriteria::Unknown(v) => *v,
        }
    }
}

/// The first entry of a boot catalog: header id, platform, and an
/// optional manufacturer string, closed by the fixed 0x55 0xAA pair.
#[derive(Debug, PartialEq, Eq)]
pub struct ValidationEntry {
    pub header_id: u8,
    pub platform_id: Platform,
    pub manufacturer_id: Option<StrA<24>>,
}

impl ValidationEntry {
    pub open spec fn wf(&self) -> bool {
        opt_a_wf(self.manufacturer_id)
    }

    /// The error decoding a validation-entry slot reports, if any: an
    /// unknown platform tag, else a bad manufacturer byte.
    pub open spec fn parse_err(b: Seq<u8>) -> Option<VDErr> {
        if Platform::spec_of_byte(b[1]) is None {
            Some(VDErr::UnknownPlatformId(b[1]))
        } else if str_parse(b.subrange(4, 28), Charset::A) is Err {
            Some(VDErr::spec_from_char(str_parse(b.subrange(4, 28), Charset::A)->Err_0))
        } else {
            None
        }
    }

    /// The entry holds exactly what the slot's bytes say.
    pub open spec fn parsed_from(self, b: Seq<u8>) -> bool {
        &&& self.header_id == b[0]
        &&& Platform::spec_of_byte(b[1]) == Some(self.platform_id)
        &&& opt_a_view(self.manufacturer_id) == parsed_opt_str(b.subrange(4, 28), Charset::A)
    }

    /// Decode a 32-byte validation-entry slot.
    pub fn try_parse(buffer: &[u8]) -> (r: Result<Self, VDErr>)
        requires
            buffer@.len() >= 32,
        ensures
            match r {
                Ok(e) => {
                    &&& Self::parse_err(buffer@) is None
                    &&& e.wf()
                    &&& e.parsed_from(buffer@)
                },
                Err(er) => Self::parse_err(buffer@) == Some(er),
            },
    {
        let header_id = *vstd::slice::slice_index_get(buffer, 0);
        let platform_id = match Platform::try_from(*vstd::slice::slice_index_get(buffer, 1)) {
            Ok(p) => p,
            Err(UnknownPlatformId(v)) => {
                return Err(VDErr::UnknownPlatformId(v));
            },
        };
        let manufacturer_id = match StrA::<24>::from_slice(
            vstd::slice::slice_subrange(buffer, 4, 28),
        ) {
            Ok(s) => {
                if s.is_empty() {
                    None
                } else {
                    Some(s)
                }
            },
            Err(e) => {
                return Err(VDErr::from_char(e));
            },
        };
        Ok(ValidationEntry { header_id, platform_id, manufacturer_id })
    }

    /// The 32 bytes this entry dumps to: id, platform tag, the
    /// manufacturer field space-padded, and the fixed terminator pair.
    pub open spec fn dump_bytes(self) -> Seq<u8> {
        Seq::new(
            32,
            |i: int|
                {
                    if i == 0 {
                        self.header_id
                    } else if i == 1 {
                        self.platform_id.spec_byte()
                    } else if i < 4 {
                        0
                    } else if i < 28 {
                        match self.manufacturer_id {
                            Some(s) => pad_to(s@, 24)[i - 4],
                            None => 0x20,
                        }
                    } else if i < 30 {
                        0
                    } else if i == 30 {
                        0x55
                    } else {
                        0xaa
                    }
                },
        )
    }

    /// Write the entry into a fresh 32-byte slot.
    pub fn dump(&self) -> (out: Vec<u8>)
        requires
            self.wf(),
        ensures
            out@ == self.dump_bytes(),
            out@.len() == 32,
    {
        let mut out: Vec<u8> = Vec::new();
        out.push(self.header_id);
        out.push(self.platform_id.as_u8());
        out.push(0);
        out.push(0);
        let mut field = dump_opt_a_24(&self.manufacturer_id);
        out.append(&mut field);
        out.push(0);
        out.push(0);
        out.push(0x55);
        out.push(0xaa);
        proof {
            assert(out@ =~= self.dump_bytes());
        }
        out
    }
}

/// The manufacturer window a dump writes: the content space-padded, or
/// all spaces when the field is absent.
fn dump_opt_a_24(o: &Option<StrA<24>>) -> (out: Vec<u8>)
    requires
        opt_a_wf(*o),
    ensures
        out@.len() == 24,
        out@ == match *o {
            Some(s) => pad_to(s@, 24),
            None => pad_to(Seq::<u8>::empty(), 24),
        },
{
    match o {
        Some(s) => s.dump(),
        None => spaces(24),
    }
}

/// A run of space bytes.
fn spaces(n: usize) -> (out: Vec<u8>)
    ensures
        out@ == pad_to(Seq::<u8>::empty(), n as nat),
        out@.len() == n,
{
    let mut out: Vec<u8> = Vec::new();
    let mut i: usize = 0;
    while i < n
        invariant
            i <= n,
            out@.len() == i,
            forall|k: int| 0 <= k < i ==> out@[k] == 0x20,
        decreases n - i,
    {
        out.push(0x20);
        i = i + 1;
    }
    proof {
        assert(out@ =~= pad_to(Seq::<u8>::empty(), n as nat));
    }
    out
}

/// Dumping a well-formed validation entry and parsing the slot back
/// yields the entry again: the parse succeeds and recovers every field.
pub proof fn lemma_validation_entry_round_trip(e: ValidationEntry)
    requires
        e.wf(),
    ensures
        ValidationEntry::parse_err(e.dump_bytes()) is None,
        e.parsed_from(e.dump_bytes()),
{
    let b = e.dump_bytes();
    let win = b.subrange(4, 28);
    match e.manufacturer_id {
        Some(s) => {
            assert(win =~= pad_to(s@, 24));
            lemma_str_parse_padded(s@, Charset::A, 24);
        },
        None => {
            assert(win =~= pad_to(Seq::<u8>::empty(), 24));
            lemma_str_parse_padded(Seq::<u8>::empty(), Charset::A, 24);
        },
    }
}

/// The default-boot entry of the catalog.
#[derive(Clone, Copy, Debug, PartialEq, Eq, Structural)]
pub struct InitialEntry {
    pub boot_indicator: BootIndicator,
    pub boot_media: BootMedia,
    pub load_segment: u16,
    pub sys_type: u8,
    pub sector_count: u16,
    pub virtual_disk_addr: u32,
}

/// What decoding a 32-byte initial-entry slot yields.
pub open spec fn ie_parse(b: Seq<u8>) -> Result<InitialEntry, VDErr> {
    match BootIndicator::spec_of_byte(b[0]) {
        None => Err(VDErr::UnknownBootIndicator(b[0])),
        Some(boot_indicator) => match BootMedia::spec_of_byte(b[1]) {
            None => Err(VDErr::UnknownBootMedia(b[1])),
            Some(boot_media) => Ok(
                InitialEntry {
                    boot_indicator,
                    boot_media,
                    load_segment: le16(b[2], b[3]),
                    sys_type: b[4],
                    sector_count: le16(b[6], b[7]),
                    virtual_disk_addr: le32(b[8], b[9], b[10], b[11]),
                },
            ),
        },
    }
}

impl InitialEntry {
    /// Decode a 32-byte initial-entry slot.
    pub fn try_parse(buffer: &[u8]) -> (r: Result<Self, VDErr>)
        requires
            buffer@.len() >= 32,
        ensures
            r == ie_parse(buffer@),
    {
        let boot_indicator = match BootIndicator::try_from(
            *vstd::slice::slice_index_get(buffer, 0),
        ) {
            Ok(p) => p,
            Err(UnknownBootIndicator(v)) => {
                return Err(VDErr::UnknownBootIndicator(v));
            },
        };
        let boot_media = match BootMedia::try_from(*vstd::slice::slice_index_get(buffer, 1)) {
            Ok(p) => p,
            Err(UnknownBootMedia(v)) => {
                return Err(VDErr::UnknownBootMedia(v));
            },
        };
        let load_segment = crate::double_endian::u16_le(vstd::slice::slice_subrange(buffer, 2, 4));
        let sys_type = *vstd::slice::slice_index_get(buffer, 4);
        let sector_count = crate::double_endian::u16_le(vstd::slice::slice_subrange(buffer, 6, 8));
        let virtual_disk_addr = crate::double_endian::u32_le(
            vstd::slice::slice_subrange(buffer, 8, 12),
        );
        Ok(
            InitialEntry {
                boot_indicator,
                boot_media,
                load_segment,
                sys_type,
                sector_count,
                virtual_disk_addr,
            },
        )
    }

    /// The 32 bytes this entry dumps to; bytes 5 and 12 through 31 are
    /// reserved and written as zero.
    pub open spec fn dump_bytes(self) -> Seq<u8> {
        Seq::new(
            32,
            |i: int|
                {
                    if i == 0 {
                        self.boot_indicator.spec_byte()
                    } else if i == 1 {
                        self.boot_media.spec_byte()
                    } else if i == 2 {
                        lo16(self.load_segment)
                    } else if i == 3 {
                        hi16(self.load_segment)
                    } else if i == 4 {
                        self.sys_type
                    } else if i == 6 {
                        lo16(self.sector_count)
                    } else if i == 7 {
                        hi16(self.sector_count)
                    } else if 8 <= i < 12 {
                        byte32(self.virtual_disk_addr, i - 8)
                    } else {
                        0
                    }
                },
        )
    }

    /// Write the entry into a fresh 32-byte slot.
    pub fn dump(&self) -> (out: Vec<u8>)
        ensures
            out@ == self.dump_bytes(),
            out@.len() == 32,
    {
        let mut out: Vec<u8> = Vec::new();
        out.push(self.boot_indicator.as_u8());
        out.push(self.boot_media.as_u8());
        out.push((self.load_segment % 256) as u8);
        out.push((self.load_segment / 256) as u8);
        out.push(self.sys_type);
        out.push(0);
        out.push((self.sector_count % 256) as u8);
        out.push((self.sector_count / 256) as u8);
        let v = self.virtual_disk_addr;
        out.push((v % 0x100) as u8);
        out.push(((v / 0x100) % 0x100) as u8);
        out.push(((v / 0x10000) % 0x100) as u8);
        out.push(((v / 0x1000000) % 0x100) as u8);
        let mut i: usize = 12;
        while i < 32
            invariant
                12 <= i <= 32,
                out@.len() == i,
                forall|k: int| 0 <= k < 12 ==> out@[k] == self.dump_bytes()[k],
                forall|k: int| 12 <= k < i ==> out@[k] == 0,
            decreases 32 - i,
        {
            out.push(0);
            i = i + 1;
        }
        proof {
            assert(out@ =~= self.dump_bytes());
        }
        out
    }
}

/// Dumping any initial entry and parsing the slot back yields the entry
/// again, every field included.
pub proof fn lemma_initial_entry_round_trip(e: InitialEntry)
    ensures
        ie_parse(e.dump_bytes()) == Ok::<InitialEntry, VDErr>(e),
{
    lemma_le16_bytes(e.load_segment);
    lemma_le16_bytes(e.sector_count);
    lemma_le32_bytes(e.virtual_disk_addr);
}

/// A section header: groups the section entries that follow it.
#[derive(Debug, PartialEq, Eq)]
pub struct SectionHeaderEntry {
    pub header_indicator: HeaderIndicator,
    pub platform_id: Platform,
    pub nb_section_entries: u16,
    pub id_str: Option<StrA<28>>,
}

impl SectionHeaderEntry {
    pub open spec fn wf(&self) -> bool {
        opt_a_wf(self.id_str)
    }

    /// The error decoding a section-header slot reports, if any.
    pub open spec fn parse_err(b: Seq<u8>) -> Option<VDErr> {
        if HeaderIndicator::spec_of_byte(b[0]) is None {
            Some(VDErr::UnknownHeaderIndicator(b[0]))
        } else if Platform::spec_of_byte(b[1]) is None {
            Some(VDErr::UnknownPlatformId(b[1]))
        } else if str_parse(b.subrange(4, 32), Charset::A) is Err {
            Some(VDErr::spec_from_char(str_parse(b.subrange(4, 32), Charset::A)->Err_0))
        } else {
            None
        }
    }

    /// The entry holds exactly what the slot's bytes say.
    pub open spec fn parsed_from(self, b: Seq<u8>) -> bool {
        &&& HeaderIndicator::spec_of_byte(b[0]) == Some(self.header_indicator)
        &&& Platform::spec_of_byte(b[1]) == Some(self.platform_id)
        &&& self.nb_section_entries == le16(b[2], b[3])
        &&& opt_a_view(self.id_str) == parsed_opt_str(b.subrange(4, 32), Charset::A)
    }

    /// Decode a 32-byte section-header slot.
    pub fn try_parse(buffer: &[u8]) -> (r: Result<Self, VDErr>)
        requires
            buffer@.len() >= 32,
        ensures
            match r {
                Ok(e) => {
                    &&& Self::parse_err(buffer@) is None
                    &&& e.wf()
                    &&& e.parsed_from(buffer@)
                },
                Err(er) => Self::parse_err(buffer@) == Some(er),
            },
    {
        let header_indicator = match HeaderIndicator::try_from(
            *vstd::slice::slice_index_get(buffer, 0),
        ) {
            Ok(p) => p,
            Err(UnknownHeaderIndicator(v)) => {
                return Err(VDErr::UnknownHeaderIndicator(v));
            },
        };
        let platform_id = match Platform::try_from(*vstd::slice::slice_index_get(buffer, 1)) {
            Ok(p) => p,
            Err(UnknownPlatformId(v)) => {
                return Err(VDErr::UnknownPlatformId(v));
            },
        };
        let nb_section_entries = crate::double_endian::u16_le(
            vstd::slice::slice_subrange(buffer, 2, 4),
        );
        let id_str = match StrA::<28>::from_slice(vstd::slice::slice_subrange(buffer, 4, 32)) {
            Ok(s) => {
                if s.is_empty() {
                    None
                } else {
                    Some(s)
                }
            },
            Err(e) => {
                return Err(VDErr::from_char(e));
            },
        };
        Ok(SectionHeaderEntry { header_indicator, platform_id, nb_section_entries, id_str })
    }

    /// The 32 bytes this entry dumps to.
    pub open spec fn dump_bytes(self) -> Seq<u8> {
        Seq::new(
            32,
            |i: int|
                {
                    if i == 0 {
                        self.header_indicator.spec_byte()
                    } else if i == 1 {
                        self.platform_id.spec_byte()
                    } else if i == 2 {
                        lo16(self.nb_section_entries)
                    } else if i == 3 {
                        hi16(self.nb_section_entries)
                    } else {
                        match self.id_str {
                            Some(s) => pad_to(s@, 28)[i - 4],
                            None => 0x20,
                        }
                    }
                },
        )
    }

    /// Write the entry into a fresh 32-byte slot.
    pub fn dump(&self) -> (out: Vec<u8>)
        requires
            self.wf(),
        ensures
            out@ == self.dump_bytes(),
            out@.len() == 32,
    {
        let mut out: Vec<u8> = Vec::new();
        out.push(self.header_indicator.as_u8());
        out.push(self.platform_id.as_u8());
        out.push((self.nb_section_entries % 256) as u8);
        out.push((self.nb_section_entries / 256) as u8);
        let mut field = match &self.id_str {
            Some(s) => s.dump(),
            None => spaces(28),
        };
        out.append(&mut field);
        proof {
            assert(out@ =~= self.dump_bytes());
        }
        out
    }
}

/// Dumping a well-formed section header and parsing the slot back
/// yields the entry again, every field included.
pub proof fn lemma_section_header_round_trip(e: SectionHeaderEntry)
    requires
        e.wf(),
    ensures
        SectionHeaderEntry::parse_err(e.dump_bytes()) is None,
        e.parsed_from(e.dump_bytes()),
{
    let b = e.dump_bytes();
    let win = b.subrange(4, 32);
    match e.id_str {
        Some(s) => {
            assert(win =~= pad_to(s@, 28));
            lemma_str_parse_padded(s@, Charset::A, 28);
        },
        None => {
            assert(win =~= pad_to(Seq::<u8>::empty(), 28));
            lemma_str_parse_padded(Seq::<u8>::empty(), Charset::A, 28);
        },
    }
    lemma_le16_bytes(e.nb_section_entries);
}

/// One bootable-image entry of a section.  The media byte packs the
/// boot-media tag into bits 0 and 1 and three capability flags into
/// bits 5, 6 and 7.
#[derive(Debug, PartialEq, Eq)]
pub struct SectionEntry {
    pub boot_indicator: BootIndicator,
    pub boot_media: BootMedia,
    pub has_continuation_entry: bool,
    pub image_contains_atapi_driver: bool,
    pub image_contains_scsi_driver: bool,
    pub load_segment: u16,
    pub sys_type: u8,
    pub sector_count: u16,
    pub virtual_disk_addr: u32,
    pub selection_criteria: SelectionCriteria,
    pub selection_criteria_bytes: Vec<u8>,
}

impl SectionEntry {
    /// A section entry's media tag must fit the two bits it is stored
    /// in, so the hard-drive tag cannot appear here; the unknown
    /// selection tag never shadows a recognized one; and the trailing
    /// criteria region is exactly 19 bytes.
    pub open spec fn wf(&self) -> bool {
        &&& self.boot_media.spec_byte() < 4
        &&& self.selection_criteria.wf()
        &&& self.selection_criteria_bytes@.len() == 19
    }

    /// The error decoding a section-entry slot reports, if any: only the
    /// boot indicator can be unrecognized, since the two media bits
    /// always name a medium and every selection byte is carried.
    pub open spec fn parse_err(b: Seq<u8>) -> Option<VDErr> {
        if BootIndicator::spec_of_byte(b[0]) is None {
            Some(VDErr::UnknownBootIndicator(b[0]))
        } else {
            None
        }
    }

    /// The entry holds exactly what the slot's bytes say.
    pub open spec fn parsed_from(self, b: Seq<u8>) -> bool {
        &&& BootIndicator::spec_of_byte(b[0]) == Some(self.boot_indicator)
        &&& BootMedia::spec_of_byte((b[1] & 3) as u8) == Some(self.boot_media)
        &&& self.has_continuation_entry == ((b[1] & 0x20) != 0)
        &&& self.image_contains_atapi_driver == ((b[1] & 0x40) != 0)
        &&& self.image_contains_scsi_driver == ((b[1] & 0x80) != 0)
        &&& self.load_segment == le16(b[2], b[3])
        &&& self.sys_type == b[4]
        &&& self.sector_count == le16(b[6], b[7])
        &&& self.virtual_disk_addr == le32(b[8], b[9], b[10], b[11])
        &&& self.selection_criteria == SelectionCriteria::spec_of_byte(b[12])
        &&& self.selection_criteria_bytes@ == b.subrange(13, 32)
    }

    /// Decode a 32-byte section-entry slot.
    pub fn try_parse(buffer: &[u8]) -> (r: Result<Self, VDErr>)
        requires
            buffer@.len() >= 32,
        ensures
            match r {
                Ok(e) => {
                    &&& Self::parse_err(buffer@) is None
                    &&& e.wf()
                    &&& e.parsed_from(buffer@)
                },
                Err(er) => Self::parse_err(buffer@) == Some(er),
            },
    {
        let boot_indicator = match BootIndicator::try_from(
            *vstd::slice::slice_index_get(buffer, 0),
        ) {
            Ok(p) => p,
            Err(UnknownBootIndicator(v)) => {
                return Err(VDErr::UnknownBootIndicator(v));
            },
        };
        let media_byte = *vstd::slice::slice_index_get(buffer, 1);
        let media_bits = media_byte & 3;
        proof {
            assert(media_byte & 3 < 4) by (bit_vector);
        }
        let boot_media = match BootMedia::try_from(media_bits) {
            Ok(p) => p,
            Err(UnknownBootMedia(_)) => vstd::pervasive::unreached(),
        };
        let has_continuation_entry = media_byte & 0x20 != 0;
        let image_contains_atapi_driver = media_byte & 0x40 != 0;
        let image_contains_scsi_driver = media_byte & 0x80 != 0;
        let load_segment = crate::double_endian::u16_le(vstd::slice::slice_subrange(buffer, 2, 4));
        let sys_type = *vstd::slice::slice_index_get(buffer, 4);
        let sector_count = crate::double_endian::u16_le(vstd::slice::slice_subrange(buffer, 6, 8));
        let virtual_disk_addr = crate::double_endian::u32_le(
            vstd::slice::slice_subrange(buffer, 8, 12),
        );
        let selection_criteria = SelectionCriteria::from_u8(
            *vstd::slice::slice_index_get(buffer, 12),
        );
        let selection_criteria_bytes = vstd::slice::slice_to_vec(
            vstd::slice::slice_subrange(buffer, 13, 32),
        );
        Ok(
            SectionEntry {
                boot_indicator,
                boot_media,
                has_continuation_entry,
                image_contains_atapi_driver,
                image_contains_scsi_driver,
                load_segment,
                sys_type,
                sector_count,
                virtual_disk_addr,
                selection_criteria,
                selection_criteria_bytes,
            },
        )
    }

    /// The packed media byte: the media tag in bits 0 and 1, the three
    /// capability flags in bits 5, 6 and 7.
    pub open spec fn media_byte(self) -> u8 {
        self.boot_media.spec_byte() | (if self.has_continuation_entry {
            0x20u8
        } else {
            0u8
        }) | (if self.image_contains_atapi_driver {
            0x40u8
        } else {
            0u8
        }) | (if self.image_contains_scsi_driver {
            0x80u8
        } else {
            0u8
        })
    }

    /// The 32 bytes this entry dumps to; byte 5 is reserved and written
    /// as zero.
    pub open spec fn dump_bytes(self) -> Seq<u8> {
        Seq::new(
            32,
            |i: int|
                {
                    if i == 0 {
                        self.boot_indicator.spec_byte()
                    } else if i == 1 {
                        self.media_byte()
                    } else if i == 2 {
                        lo16(self.load_segment)
                    } else if i == 3 {
                        hi16(self.load_segment)
                    } else if i == 4 {
                        self.sys_type
                    } else if i == 6 {
                        lo16(self.sector_count)
                    } else if i == 7 {
                        hi16(self.sector_count)
                    } else if 8 <= i < 12 {
                        byte32(self.virtual_disk_addr, i - 8)
                    } else if i == 12 {
                        self.selection_criteria.spec_byte()
                    } else if 13 <= i {
                        self.selection_criteria_bytes@[i - 13]
                    } else {
                        0
                    }
                },
        )
    }

    /// Write the entry into a fresh 32-byte slot.
    pub fn dump(&self) -> (out: Vec<u8>)
        requires
            self.wf(),
        ensures
            out@ == self.dump_bytes(),
            out@.len() == 32,
    {
        let mut out: Vec<u8> = Vec::new();
        out.push(self.boot_indicator.as_u8());
        let cont: u8 = if self.has_continuation_entry {
            0x20
        } else {
            0
        };
        let atapi: u8 = if self.image_contains_atapi_driver {
            0x40
        } else {
            0
        };
        let scsi: u8 = if self.image_contains_scsi_driver {
            0x80
        } else {
            0
        };
        let second: u8 = self.boot_media.as_u8() | cont | atapi | scsi;
        out.push(second);
        out.push((self.load_segment % 256) as u8);
        out.push((self.load_segment / 256) as u8);
        out.push(self.sys_type);
        out.push(0);
        out.push((self.sector_count % 256) as u8);
        out.push((self.sector_count / 256) as u8);
        let v = self.virtual_disk_addr;
        out.push((v % 0x100) as u8);
        out.push(((v / 0x100) % 0x100) as u8);
        out.push(((v / 0x10000) % 0x100) as u8);
        out.push(((v / 0x1000000) % 0x100) as u8);
        out.push(self.selection_criteria.to_u8());
        let mut i: usize = 0;
        while i < 19
            invariant
                i <= 19,
                self.wf(),
                out@.len() == 13 + i,
                forall|k: int| 0 <= k < 13 ==> out@[k] == self.dump_bytes()[k],
                forall|k: int| 0 <= k < i ==> out@[13 + k] == self.selection_criteria_bytes@[k],
            decreases 19 - i,
    {
            out.push(self.selection_criteria_bytes[i]);
            i = i + 1;
        }
        proof {
            assert(out@ =~= self.dump_bytes());
        }
        out
    }
}

/// How the packed media byte reads back: the low two bits give the
/// media tag, and each flag bit reads independently.
proof fn lemma_media_flag_bits(m: u8, a: u8, b: u8, c: u8)
    requires
        m < 4,
        a == 0 || a == 0x20,
        b == 0 || b == 0x40,
        c == 0 || c == 0x80,
    ensures
        ((m | a | b | c) & 3) == m,
        ((m | a | b | c) & 0x20) == a,
        ((m | a | b | c) & 0x40) == b,
        ((m | a | b | c) & 0x80) == c,
{
    assert(((m | a | b | c) & 3) == m && ((m | a | b | c) & 0x20) == a && ((m | a | b | c) & 0x40)
        == b && ((m | a | b | c) & 0x80) == c) by (bit_vector)
        requires
            m < 4,
            a == 0 || a == 0x20,
            b == 0 || b == 0x40,
            c == 0 || c == 0x80,
    ;
}

/// Dumping a well-formed section entry and parsing the slot back yields
/// the entry again: the media tag and the three capability flags come
/// back out of the packed byte, and every other field is recovered.
pub proof fn lemma_section_entry_round_trip(e: SectionEntry)
    requires
        e.wf(),
    ensures
        SectionEntry::parse_err(e.dump_bytes()) is None,
        e.parsed_from(e.dump_bytes()),
{
    let b = e.dump_bytes();
    lemma_media_flag_bits(
        e.boot_media.spec_byte(),
        if e.has_continuation_entry {
            0x20u8
        } else {
            0u8
        },
        if e.image_contains_atapi_driver {
            0x40u8
        } else {
            0u8
        },
        if e.image_contains_scsi_driver {
            0x80u8
        } else {
            0u8
        },
    );
    lemma_le16_bytes(e.load_segment);
    lemma_le16_bytes(e.sector_count);
    lemma_le32_bytes(e.virtual_disk_addr);
    assert(b.subrange(13, 32) =~= e.selection_criteria_bytes@);
}

} // verus!
