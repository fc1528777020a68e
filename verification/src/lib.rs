use vstd::prelude::*;

pub mod boot_catalog;
pub mod boot_record;
pub mod date_time;
pub mod directory;
pub mod double_endian;
pub mod fixed_str;
pub mod flags;
pub mod header;
pub mod pvd;
pub mod sequence;

pub use crate::boot_catalog::BootIndicator;
pub use crate::boot_catalog::BootMedia;
pub use crate::boot_catalog::HeaderIndicator;
pub use crate::boot_catalog::InitialEntry;
pub use crate::boot_catalog::Platform;
pub use crate::boot_catalog::SectionEntry;
pub use crate::boot_catalog::SectionHeaderEntry;
pub use crate::boot_catalog::SelectionCriteria;
pub use crate::boot_catalog::UnknownBootIndicator;
pub use crate::boot_catalog::UnknownBootMedia;
pub use crate::boot_catalog::UnknownHeaderIndicator;
pub use crate::boot_catalog::UnknownPlatformId;
pub use crate::boot_catalog::ValidationEntry;
pub use crate::boot_record::BootRecord;
pub use crate::date_time::DateRange;
pub use crate::date_time::DecDateTime;
pub use crate::date_time::DecDateTimeErr;
pub use crate::directory::DirectoryRecord;
pub use crate::directory::DirectoryRecordDate;
pub use crate::fixed_str::ArrStr;
pub use crate::fixed_str::Charset;
pub use crate::fixed_str::InvalidChar;
pub use crate::fixed_str::StrA;
pub use crate::fixed_str::StrD;
pub use crate::fixed_str::TooBig;
pub use crate::fixed_str::str_a_char_set;
pub use crate::header::UnknownVersion;
pub use crate::header::VD;
pub use crate::header::VDErr;
pub use crate::header::VDType;
pub use crate::pvd::PVD;
pub use crate::sequence::Descriptor;

verus! {

/// Size in bytes of one disc sector, the atomic unit of every parse and dump.
pub const SECTOR_SIZE: usize = 2048;

/// Byte offset of the volume-descriptor data area (sector 16) in an image.
pub const DATA_START: u64 = 32768;

} // verus!
