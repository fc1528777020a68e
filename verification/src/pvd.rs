use vstd::prelude::*;

use crate::date_time::DecDateTime;
use crate::date_time::date_err;
use crate::date_time::date_unset;
use crate::double_endian::be32;
use crate::double_endian::le16;
use crate::double_endian::le32;
use crate::fixed_str::Charset;
use crate::fixed_str::StrA;
use crate::fixed_str::StrD;
use crate::fixed_str::opt_a_view;
use crate::fixed_str::opt_a_wf;
use crate::fixed_str::opt_d_view;
use crate::fixed_str::opt_d_wf;
use crate::fixed_str::parsed_opt_str;
use crate::fixed_str::str_parse;
use crate::header::VDErr;

verus! {

/// The primary volume descriptor: every field of the main descriptor
/// sector, at the offsets the format fixes.  Empty string fields and
/// zero optional locations decode as absent; the three long identifier
/// fields are gated by a marker byte; the application-defined region is
/// kept only alongside an application identifier.
#[derive(Debug, PartialEq, Eq)]
pub struct PVD {
    pub sys_ident: Option<StrA<32>>,
    pub vol_ident: Option<StrD<32>>,
    pub vol_space_size: u32,
    pub vol_set_size: u16,
    pub vol_seq_num: u16,
    pub logical_block_size: u16,
    pub path_table_size: u32,
    pub path_table_l_location: u32,
    pub opt_path_table_l_location: Option<u32>,
    pub path_table_m_location: u32,
    pub opt_path_table_m_location: Option<u32>,
    pub vol_set_ident: Option<StrD<128>>,
    pub publisher_ident: Option<StrA<127>>,
    pub data_prep_ident: Option<StrA<127>>,
    pub app_ident: Option<StrA<127>>,
    pub copyright_file_name: Option<StrD<37>>,
    pub abstract_file_name: Option<StrD<37>>,
    pub bibliographic_file_name: Option<StrD<37>>,
    pub vol_create_date_time: Option<DecDateTime>,
    pub vol_mod_date_time: Option<DecDateTime>,
    pub vol_expiration_date_time: Option<DecDateTime>,
    pub vol_effective_date_time: Option<DecDateTime>,
    pub application_used: Option<Vec<u8>>,
}

/// The marker byte that announces a present long identifier field.
pub open spec fn gated(b: Seq<u8>, at: int) -> bool {
    b[at] == 0x5f
}

/// An optional date field decodes as this stored value.
pub open spec fn opt_date_matches(o: Option<DecDateTime>, w: Seq<u8>) -> bool {
    match o {
        None => date_unset(w),
        Some(d) => !date_unset(w) && d.parsed_from(w),
    }
}

impl PVD {
    pub open spec fn wf(&self) -> bool {
        &&& opt_a_wf(self.sys_ident)
        &&& opt_d_wf(self.vol_ident)
        &&& opt_d_wf(self.vol_set_ident)
        &&& (self.publisher_ident matches Some(s) ==> s.wf())
        &&& (self.data_prep_ident matches Some(s) ==> s.wf())
        &&& (self.app_ident matches Some(s) ==> s.wf())
        &&& opt_d_wf(self.copyright_file_name)
        &&& opt_d_wf(self.abstract_file_name)
        &&& opt_d_wf(self.bibliographic_file_name)
        &&& (self.vol_create_date_time matches Some(d) ==> d.wf())
        &&& (self.vol_mod_date_time matches Some(d) ==> d.wf())
        &&& (self.vol_expiration_date_time matches Some(d) ==> d.wf())
        &&& (self.vol_effective_date_time matches Some(d) ==> d.wf())
        &&& (self.application_used matches Some(v) ==> v@.len() == 512)
        &&& (self.application_used is Some <==> self.app_ident is Some)
    }

    /// The first error a primary-descriptor sector forces, in the order
    /// the fields are read: the string fields, the three gated long
    /// identifiers, the file-name fields, the four dates, and last the
    /// descriptor version byte, which must be 1.
    pub open spec fn parse_err(b: Seq<u8>) -> Option<VDErr> {
        if str_parse(b.subrange(8, 40), Charset::A) is Err {
            Some(VDErr::spec_from_char(str_parse(b.subrange(8, 40), Charset::A)->Err_0))
        } else if str_parse(b.subrange(40, 72), Charset::D) is Err {
            Some(VDErr::spec_from_char(str_parse(b.subrange(40, 72), Charset::D)->Err_0))
        } else if str_parse(b.subrange(190, 318), Charset::D) is Err {
            Some(VDErr::spec_from_char(str_parse(b.subrange(190, 318), Charset::D)->Err_0))
        } else if gated(b, 318) && str_parse(b.subrange(319, 446), Charset::A) is Err {
            Some(VDErr::spec_from_char(str_parse(b.subrange(319, 446), Charset::A)->Err_0))
        } else if gated(b, 446) && str_parse(b.subrange(447, 574), Charset::A) is Err {
            Some(VDErr::spec_from_char(str_parse(b.subrange(447, 574), Charset::A)->Err_0))
        } else if gated(b, 574) && str_parse(b.subrange(575, 702), Charset::A) is Err {
            Some(VDErr::spec_from_char(str_parse(b.subrange(575, 702), Charset::A)->Err_0))
        } else if str_parse(b.subrange(702, 739), Charset::D) is Err {
            Some(VDErr::spec_from_char(str_parse(b.subrange(702, 739), Charset::D)->Err_0))
        } else if str_parse(b.subrange(739, 776), Charset::D) is Err {
            Some(VDErr::spec_from_char(str_parse(b.subrange(739, 776), Charset::D)->Err_0))
        } else if str_parse(b.subrange(776, 813), Charset::D) is Err {
            Some(VDErr::spec_from_char(str_parse(b.subrange(776, 813), Charset::D)->Err_0))
        } else if !date_unset(b.subrange(813, 830)) && date_err(b.subrange(813, 830)) is Some {
            Some(VDErr::spec_from_date_err(date_err(b.subrange(813, 830))->Some_0))
        } else if !date_unset(b.subrange(830, 847)) && date_err(b.subrange(830, 847)) is Some {
            Some(VDErr::spec_from_date_err(date_err(b.subrange(830, 847))->Some_0))
        } else if !date_unset(b.subrange(847, 864)) && date_err(b.subrange(847, 864)) is Some {
            Some(VDErr::spec_from_date_err(date_err(b.subrange(847, 864))->Some_0))
        } else if !date_unset(b.subrange(864, 881)) && date_err(b.subrange(864, 881)) is Some {
            Some(VDErr::spec_from_date_err(date_err(b.subrange(864, 881))->Some_0))
        } else if b[881] != 1 {
            Some(VDErr::UnknownVersion(b[881]))
        } else {
            None
        }
    }

    /// The descriptor holds exactly what the sector's bytes say, field
    /// by field at the format's offsets.
    pub open spec fn parsed_from(self, b: Seq<u8>) -> bool {
        &&& opt_a_view(self.sys_ident) == parsed_opt_str(b.subrange(8, 40), Charset::A)
        &&& opt_d_view(self.vol_ident) == parsed_opt_str(b.subrange(40, 72), Charset::D)
        &&& self.vol_space_size == le32(b[80], b[81], b[82], b[83])
        &&& self.vol_set_size == le16(b[120], b[121])
        &&& self.vol_seq_num == le16(b[124], b[125])
        &&& self.logical_block_size == le16(b[128], b[129])
        &&& self.path_table_size == le32(b[132], b[133], b[134], b[135])
        &&& self.path_table_l_location == le32(b[140], b[141], b[142], b[143])
        &&& self.opt_path_table_l_location == (if le32(b[144], b[145], b[146], b[147]) == 0 {
            Option::<u32>::None
        } else {
            Some(le32(b[144], b[145], b[146], b[147]))
        })
        &&& self.path_table_m_location == be32(b[148], b[149], b[150], b[151])
        &&& self.opt_path_table_m_location == (if be32(b[152], b[153], b[154], b[155]) == 0 {
            Option::<u32>::None
        } else {
            Some(be32(b[152], b[153], b[154], b[155]))
        })
        &&& opt_d_view(self.vol_set_ident) == parsed_opt_str(b.subrange(190, 318), Charset::D)
        &&& (if gated(b, 318) {
            self.publisher_ident matches Some(s) && s@ == str_parse(
                b.subrange(319, 446),
                Charset::A,
            )->Ok_0
        } else {
            self.publisher_ident is None
        })
        &&& (if gated(b, 446) {
            self.data_prep_ident matches Some(s) && s@ == str_parse(
                b.subrange(447, 574),
                Charset::A,
            )->Ok_0
        } else {
            self.data_prep_ident is None
        })
        &&& (if gated(b, 574) {
            self.app_ident matches Some(s) && s@ == str_parse(
                b.subrange(575, 702),
                Charset::A,
            )->Ok_0
        } else {
            self.app_ident is None
        })
        &&& opt_d_view(self.copyright_file_name) == parsed_opt_str(
            b.subrange(702, 739),
            Charset::D,
        )
        &&& opt_d_view(self.abstract_file_name) == parsed_opt_str(
            b.subrange(739, 776),
            Charset::D,
        )
        &&& opt_d_view(self.bibliographic_file_name) == parsed_opt_str(
            b.subrange(776, 813),
            Charset::D,
        )
        &&& opt_date_matches(self.vol_create_date_time, b.subrange(813, 830))
        &&& opt_date_matches(self.vol_mod_date_time, b.subrange(830, 847))
        &&& opt_date_matches(self.vol_expiration_date_time, b.subrange(847, 864))
        &&& opt_date_matches(self.vol_effective_date_time, b.subrange(864, 881))
        &&& (if gated(b, 574) {
            self.application_used matches Some(v) && v@ == b.subrange(883, 1395)
        } else {
            self.application_used is None
        })
    }

    /// Decode a primary-volume-descriptor sector.
    pub fn try_parse(buffer: &[u8]) -> (r: Result<Self, VDErr>)
        requires
            buffer@.len() >= 1395,
        ensures
            match r {
                Ok(p) => {
                    &&& PVD::parse_err(buffer@) is None
                    &&& p.wf()
                    &&& p.parsed_from(buffer@)
                },
                Err(e) => PVD::parse_err(buffer@) == Some(e),
            },
    {
        let sys_ident = match StrA::<32>::from_slice(vstd::slice::slice_subrange(buffer, 8, 40)) {
            Ok(s) => {
                if s.is_empty() {
                    None
                } else {
                    Some(s)
                }
            },
            Err(e) => {
                return Err(VDErr::from_char(e));
            },
        };
        let vol_ident = match StrD::<32>::from_slice(vstd::slice::slice_subrange(buffer, 40, 72)) {
            Ok(s) => {
                if s.is_empty() {
                    None
                } else {
                    Some(s)
                }
            },
            Err(e) => {
                return Err(VDErr::from_char(e));
            },
        };
        let vol_space_size = crate::double_endian::u32(
            vstd::slice::slice_subrange(buffer, 80, 88),
        );
        let vol_set_size = crate::double_endian::u16(
            vstd::slice::slice_subrange(buffer, 120, 124),
        );
        let vol_seq_num = crate::double_endian::u16(vstd::slice::slice_subrange(buffer, 124, 128));
        let logical_block_size = crate::double_endian::u16(
            vstd::slice::slice_subrange(buffer, 128, 132),
        );
        let path_table_size = crate::double_endian::u32(
            vstd::slice::slice_subrange(buffer, 132, 140),
        );
        let path_table_l_location = crate::double_endian::u32_le(
            vstd::slice::slice_subrange(buffer, 140, 144),
        );
        let opt_path_table_l_location = {
            let v = crate::double_endian::u32_le(vstd::slice::slice_subrange(buffer, 144, 148));
            if v == 0 {
                None
            } else {
                Some(v)
            }
        };
        let path_table_m_location = crate::double_endian::u32_be(
            vstd::slice::slice_subrange(buffer, 148, 152),
        );
        let opt_path_table_m_location = {
            let v = crate::double_endian::u32_be(vstd::slice::slice_subrange(buffer, 152, 156));
            if v == 0 {
                None
            } else {
                Some(v)
            }
        };
        let vol_set_ident = match StrD::<128>::from_slice(
            vstd::slice::slice_subrange(buffer, 190, 318),
        ) {
            Ok(s) => {
                if s.is_empty() {
                    None
                } else {
                    Some(s)
                }
            },
            Err(e) => {
                return Err(VDErr::from_char(e));
            },
        };
        let publisher_ident = if *vstd::slice::slice_index_get(buffer, 318) == 0x5f {
            match StrA::<127>::from_slice(vstd::slice::slice_subrange(buffer, 319, 446)) {
                Ok(s) => Some(s),
                Err(e) => {
                    return Err(VDErr::from_char(e));
                },
            }
        } else {
            None
        };
        let data_prep_ident = if *vstd::slice::slice_index_get(buffer, 446) == 0x5f {
            match StrA::<127>::from_slice(vstd::slice::slice_subrange(buffer, 447, 574)) {
                Ok(s) => Some(s),
                Err(e) => {
                    return Err(VDErr::from_char(e));
                },
            }
        } else {
            None
        };
        let app_ident = if *vstd::slice::slice_index_get(buffer, 574) == 0x5f {
            match StrA::<127>::from_slice(vstd::slice::slice_subrange(buffer, 575, 702)) {
                Ok(s) => Some(s),
                Err(e) => {
                    return Err(VDErr::from_char(e));
                },
            }
        } else {
            None
        };
        let copyright_file_name = match StrD::<37>::from_slice(
            vstd::slice::slice_subrange(buffer, 702, 739),
        ) {
            Ok(s) => {
                if s.is_empty() {
                    None
                } else {
                    Some(s)
                }
            },
            Err(e) => {
                return Err(VDErr::from_char(e));
            },
        };
        let abstract_file_name = match StrD::<37>::from_slice(
            vstd::slice::slice_subrange(buffer, 739, 776),
        ) {
            Ok(s) => {
                if s.is_empty() {
                    None
                } else {
                    Some(s)
                }
            },
            Err(e) => {
                return Err(VDErr::from_char(e));
            },
        };
        let bibliographic_file_name = match StrD::<37>::from_slice(
            vstd::slice::slice_subrange(buffer, 776, 813),
        ) {
            Ok(s) => {
                if s.is_empty() {
                    None
                } else {
                    Some(s)
                }
            },
            Err(e) => {
                return Err(VDErr::from_char(e));
            },
        };
        let vol_create_date_time = match DecDateTime::try_parse(
            vstd::slice::slice_subrange(buffer, 813, 830),
        ) {
            Ok(o) => o,
            Err(e) => {
                return Err(VDErr::from_date_err(e));
            },
        };
        let vol_mod_date_time = match DecDateTime::try_parse(
            vstd::slice::slice_subrange(buffer, 830, 847),
        ) {
            Ok(o) => o,
            Err(e) => {
                return Err(VDErr::from_date_err(e));
            },
        };
        let vol_expiration_date_time = match DecDateTime::try_parse(
            vstd::slice::slice_subrange(buffer, 847, 864),
        ) {
            Ok(o) => o,
            Err(e) => {
                return Err(VDErr::from_date_err(e));
            },
        };
        let vol_effective_date_time = match DecDateTime::try_parse(
            vstd::slice::slice_subrange(buffer, 864, 881),
        ) {
            Ok(o) => o,
            Err(e) => {
                return Err(VDErr::from_date_err(e));
            },
        };
        let version = *vstd::slice::slice_index_get(buffer, 881);
        if version != 1 {
            return Err(VDErr::UnknownVersion(version));
        }
        let application_used = if app_ident.is_some() {
            Some(vstd::slice::slice_to_vec(vstd::slice::slice_subrange(buffer, 883, 1395)))
        } else {
            None
        };
        Ok(
            PVD {
                sys_ident,
                vol_ident,
                vol_space_size,
                vol_set_size,
                vol_seq_num,
                logical_block_size,
                path_table_size,
                path_table_l_location,
                opt_path_table_l_location,
                path_table_m_location,
                opt_path_table_m_location,
                vol_set_ident,
                publisher_ident,
                data_prep_ident,
                app_ident,
                copyright_file_name,
                abstract_file_name,
                bibliographic_file_name,
                vol_create_date_time,
                vol_mod_date_time,
                vol_expiration_date_time,
                vol_effective_date_time,
                application_used,
            },
        )
    }
}

} // verus!
