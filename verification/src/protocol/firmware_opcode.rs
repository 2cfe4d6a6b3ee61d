use vstd::prelude::*;

verus! {

pub const BEGIN: u8 = 0;
pub const DATA: u8 = 1;
pub const FINISH: u8 = 2;
pub const ACTIVATE: u8 = 3;
pub const ABORT: u8 = 4;
pub const STATUS: u8 = 5;
pub const ACK: u8 = 6;
pub const STATUS_RESPONSE: u8 = 7;
} // verus!
