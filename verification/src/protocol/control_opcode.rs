use vstd::prelude::*;

verus! {

pub const EMERGENCY_DISABLE: u8 = 0;
pub const SET_CARRIER_POLICY: u8 = 1;
pub const ACKNOWLEDGE_EMERGENCY: u8 = 2;
pub const REQUEST_STATUS: u8 = 3;
pub const SET_FAN: u8 = 4;
pub const SET_BINDING: u8 = 5;
} // verus!
