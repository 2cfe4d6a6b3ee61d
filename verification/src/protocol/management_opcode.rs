use vstd::prelude::*;

verus! {

pub const HEARTBEAT: u8 = 0;
pub const NODE_INFO: u8 = 1;
pub const BINDING: u8 = 2;
} // verus!
