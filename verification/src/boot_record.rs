use vstd::prelude::*;

use crate::double_endian::byte32;
use crate::double_endian::le32;
use crate::double_endian::lemma_le32_bytes;
use crate::fixed_str::Charset;
use crate::fixed_str::StrA;
use crate::fixed_str::opt_a_view;
use crate::fixed_str::opt_a_wf;
use crate::fixed_str::parsed_opt_str;
use crate::fixed_str::str_parse;
use crate::fixed_str::lemma_str_parse_content_pads;
use crate::header::VDErr;

verus! {

/// The boot-record descriptor: optional system and boot identifier
/// strings, and a little-endian pointer to the boot catalog's first
/// sector at offset 71.
#[derive(Debug, PartialEq, Eq)]
pub struct BootRecord {
    pub boot_sys_ident: Option<StrA<32>>,
    pub boot_ident: Option<StrA<32>>,
}

/// The fixed specification-name string a boot-record dump writes at
/// offset 6.
pub open spec fn el_torito_str() -> Seq<u8> {
    seq![
        0x45u8,
        0x4c,
        0x20,
        0x54,
        0x4f,
        0x52,
        0x49,
        0x54,
        0x4f,
        0x20,
        0x53,
        0x50,
        0x45,
        0x43,
        0x49,
        0x46,
        0x49,
        0x43,
        0x41,
        0x54,
        0x49,
        0x4f,
        0x4e,
    ]
}

impl BootRecord {
    pub open spec fn wf(&self) -> bool {
        &&& opt_a_wf(self.boot_sys_ident)
        &&& opt_a_wf(self.boot_ident)
    }

    /// The error decoding a boot-record sector reports, if any: a bad
    /// byte in the system identifier, else one in the boot identifier.
    pub open spec fn parse_err(b: Seq<u8>) -> Option<VDErr> {
        if str_parse(b.subrange(7, 39), Charset::A) is Err {
            Some(VDErr::spec_from_char(str_parse(b.subrange(7, 39), Charset::A)->Err_0))
        } else if str_parse(b.subrange(39, 71), Charset::A) is Err {
            Some(VDErr::spec_from_char(str_parse(b.subrange(39, 71), Charset::A)->Err_0))
        } else {
            None
        }
    }

    /// The record holds exactly what the sector's bytes say.
    pub open spec fn parsed_from(self, b: Seq<u8>) -> bool {
        &&& opt_a_view(self.boot_sys_ident) == parsed_opt_str(b.subrange(7, 39), Charset::A)
        &&& opt_a_view(self.boot_ident) == parsed_opt_str(b.subrange(39, 71), Charset::A)
    }

    /// Decode a boot-record sector (past its common header).
    pub fn try_parse(buffer: &[u8]) -> (r: Result<Self, VDErr>)
        requires
            buffer@.len() >= 71,
        ensures
            match r {
                Ok(e) => {
                    &&& Self::parse_err(buffer@) is None
                    &&& e.wf()
                    &&& e.parsed_from(buffer@)
                },
                Err(er) => Self::parse_err(buffer@) == Some(er),
            },
    {
        let boot_sys_ident = match StrA::<32>::from_slice(
            vstd::slice::slice_subrange(buffer, 7, 39),
        ) {
            Ok(s) => {
                if s.is_empty() {
                    None
                } else {
                    Some(s)
                }
            },
            Err(e) => {
                return Err(VDErr::from_char(e));
            },
        };
        let boot_ident = match StrA::<32>::from_slice(vstd::slice::slice_subrange(buffer, 39, 71)) {
            Ok(s) => {
                if s.is_empty() {
                    None
                } else {
                    Some(s)
                }
            },
            Err(e) => {
                return Err(VDErr::from_char(e));
            },
        };
        Ok(BootRecord { boot_sys_ident, boot_ident })
    }

    /// Read the little-endian boot-catalog sector pointer at offset 71.
    pub fn read_el_torino_boot_catalog_off(buffer: &[u8]) -> (r: u32)
        requires
            buffer@.len() >= 75,
        ensures
            r == le32(buffer@[71], buffer@[72], buffer@[73], buffer@[74]),
    {
        crate::double_endian::u32_le(vstd::slice::slice_subrange(buffer, 71, 75))
    }

    /// The full sector a boot-record dump writes: type tag zero, the
    /// magic identifier, the fixed specification-name string at offset
    /// 6, the catalog pointer at 71, and zero everywhere else.
    pub open spec fn dump_sector(boot_record_addr: u32) -> Seq<u8> {
        Seq::new(
            2048,
            |i: int|
                {
                    if i == 0 {
                        0u8
                    } else if i == 1 {
                        0x43
                    } else if i == 2 {
                        0x44
                    } else if i == 3 {
                        0x30
                    } else if i == 4 {
                        0x30
                    } else if i == 5 {
                        0x31
                    } else if i < 29 {
                        el_torito_str()[i - 6]
                    } else if 71 <= i < 75 {
                        byte32(boot_record_addr, i - 71)
                    } else {
                        0
                    }
                },
        )
    }

    /// Write the boot-record sector for a catalog at the given sector
    /// address.  As the identifier regions hold fixed content, only the
    /// address survives a round trip verbatim.
    pub fn dump(&self, boot_record_addr: u32) -> (out: Vec<u8>)
        ensures
            out@ == BootRecord::dump_sector(boot_record_addr),
            out@.len() == 2048,
    {
        let mut out: Vec<u8> = Vec::new();
        out.push(0);
        out.push(0x43);
        out.push(0x44);
        out.push(0x30);
        out.push(0x30);
        out.push(0x31);
        let mut name = el_torito_bytes();
        out.append(&mut name);
        let mut i: usize = 29;
        while i < 71
            invariant
                29 <= i <= 71,
                out@.len() == i,
                forall|k: int| 0 <= k < 29 ==> out@[k] == BootRecord::dump_sector(boot_record_addr)[k],
                forall|k: int| 29 <= k < i ==> out@[k] == 0,
            decreases 71 - i,
        {
            out.push(0);
            i = i + 1;
        }
        let v = boot_record_addr;
        out.push((v % 0x100) as u8);
        out.push(((v / 0x100) % 0x100) as u8);
        out.push(((v / 0x10000) % 0x100) as u8);
        out.push(((v / 0x1000000) % 0x100) as u8);
        let mut j: usize = 75;
        while j < 2048
            invariant
                75 <= j <= 2048,
                out@.len() == j,
                forall|k: int| 0 <= k < 75 ==> out@[k] == BootRecord::dump_sector(boot_record_addr)[k],
                forall|k: int| 75 <= k < j ==> out@[k] == 0,
            decreases 2048 - j,
        {
            out.push(0);
            j = j + 1;
        }
        proof {
            assert(out@ =~= BootRecord::dump_sector(boot_record_addr));
        }
        out
    }
}

/// The specification-name string as runtime bytes.
fn el_torito_bytes() -> (out: Vec<u8>)
    ensures
        out@ == el_torito_str(),
        out@.len() == 23,
{
    let mut out: Vec<u8> = Vec::new();
    out.push(0x45);
    out.push(0x4c);
    out.push(0x20);
    out.push(0x54);
    out.push(0x4f);
    out.push(0x52);
    out.push(0x49);
    out.push(0x54);
    out.push(0x4f);
    out.push(0x20);
    out.push(0x53);
    out.push(0x50);
    out.push(0x45);
    out.push(0x43);
    out.push(0x49);
    out.push(0x46);
    out.push(0x49);
    out.push(0x43);
    out.push(0x41);
    out.push(0x54);
    out.push(0x49);
    out.push(0x4f);
    out.push(0x4e);
    proof {
        assert(out@ =~= el_torito_str());
    }
    out
}

/// What the system-identifier window of a dumped boot-record sector
/// holds: the specification-name string from its second byte on, since
/// the string starts one byte before the window.
pub open spec fn el_torito_sys_ident() -> Seq<u8> {
    el_torito_str().drop_first()
}

/// Parsing a dumped boot-record sector succeeds and recovers the fixed
/// identifiers and the catalog address: a record holding the fixed
/// system identifier and no boot identifier round-trips, and the
/// address always does.
pub proof fn lemma_boot_record_round_trip(e: BootRecord, addr: u32)
    requires
        e.boot_sys_ident matches Some(s) && s@ == el_torito_sys_ident(),
        e.boot_ident is None,
    ensures
        BootRecord::parse_err(BootRecord::dump_sector(addr)) is None,
        e.parsed_from(BootRecord::dump_sector(addr)),
        le32(
            BootRecord::dump_sector(addr)[71],
            BootRecord::dump_sector(addr)[72],
            BootRecord::dump_sector(addr)[73],
            BootRecord::dump_sector(addr)[74],
        ) == addr,
{
    let b = BootRecord::dump_sector(addr);
    let tail = el_torito_sys_ident();
    let zeros10 = Seq::new(10, |i: int| 0u8);
    let zeros32 = Seq::new(32, |i: int| 0u8);
    assert(b.subrange(7, 39) =~= tail + zeros10);
    assert(forall|j: int|
        0 <= j < tail.len() ==> crate::fixed_str::charset_contains(
            Charset::A,
            #[trigger] tail[j],
        ));
    lemma_str_parse_content_pads(tail, zeros10, Charset::A);
    assert(b.subrange(39, 71) =~= Seq::<u8>::empty() + zeros32);
    lemma_str_parse_content_pads(Seq::<u8>::empty(), zeros32, Charset::A);
    lemma_le32_bytes(addr);
}

} // verus!
