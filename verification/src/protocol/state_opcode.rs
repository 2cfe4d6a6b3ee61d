use vstd::prelude::*;

verus! {

pub const NODE: u8 = 0;
pub const FAN: u8 = 1;
} // verus!
