use vstd::prelude::*;

verus! {

pub const NODE_CLAIM: u8 = 0;
pub const DISCOVER: u8 = 1;
pub const DISCOVERY_RESPONSE: u8 = 2;
pub const IDENTIFY: u8 = 3;
pub const ASSIGN_NODE: u8 = 4;
pub const CLEAR_NODE: u8 = 5;
pub const RESULT: u8 = 6;
} // verus!
