use vstd::prelude::*;

verus! {

pub const CONFIG: u8 = 0x00;
pub const ADC_CONFIG: u8 = 0x01;
pub const SHUNT_CAL: u8 = 0x02;
pub const VSHUNT: u8 = 0x04;
pub const VBUS: u8 = 0x05;
pub const DIE_TEMP: u8 = 0x06;
pub const CURRENT: u8 = 0x07;
pub const POWER: u8 = 0x08;
pub const DIAG_ALERT: u8 = 0x0B;
} // verus!
