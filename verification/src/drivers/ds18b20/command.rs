use vstd::prelude::*;

verus! {

pub const SEARCH_ROM: u8 = 0xF0;
pub const MATCH_ROM: u8 = 0x55;
pub const SKIP_ROM: u8 = 0xCC;
pub const CONVERT_T: u8 = 0x44;
pub const READ_SCRATCHPAD: u8 = 0xBE;
} // verus!
