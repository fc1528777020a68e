use vstd::prelude::*;

verus! {

/// The file-flag bits of a directory record.
pub const HIDDEN: u8 = 1;

pub const DIR: u8 = 2;

pub const ASSOCIATED: u8 = 4;

pub const EXT_ATTR_FORMAT: u8 = 8;

pub const EXT_ATTR_PERM: u8 = 16;

pub const IS_PARTIAL: u8 = 128;

} // verus!
