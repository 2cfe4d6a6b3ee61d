use vstd::prelude::*;

verus! {

pub const POWER: u8 = 0;
pub const TEMPERATURE: u8 = 1;
} // verus!
