use vstd::prelude::*;

verus! {

pub const CHIP_VERSION: u16 = 0x0000;
pub const SYSTEM_MAX_POWER: u16 = 0x0002;
pub const FAST_CHARGE_STATUS: u16 = 0x0009;
pub const SYSTEM_STATUS: u16 = 0x000A;
pub const ONLINE_STATUS: u16 = 0x000D;
pub const I2C_ENABLE_AND_BANK: u16 = 0x0010;
pub const PORT_CONTROL: u16 = 0x0011;
pub const FORCE_ENABLE: u16 = 0x0015;
pub const FORCE_CONTROL: u16 = 0x0016;
pub const APPLY_FORCED_CURRENT: u16 = 0x0017;
pub const FORCED_CURRENT_LOW: u16 = 0x0038;
pub const FORCED_CURRENT_HIGH: u16 = 0x0039;
pub const ADC_SELECT: u16 = 0x0040;
pub const ADC_DATA_LOW: u16 = 0x0041;
pub const ADC_DATA_HIGH: u16 = 0x0042;
pub const ADC_NTC_CONFIG: u16 = 0x0044;
pub const PD_COMMAND: u16 = 0x00A7;
pub const RETURN_TO_BASE_BANK: u16 = 0x0180;
pub const PD_CONTROL: u16 = 0x0122;
pub const PD_VOLTAGE_ENABLE: u16 = 0x0124;
pub const PD_FIXED_CURRENT_CONTROL: u16 = 0x0125;
pub const PD_5V_CURRENT_HIGH: u16 = 0x0126;
pub const PD_9V_CURRENT_HIGH: u16 = 0x0127;
pub const PD_12V_CURRENT_HIGH: u16 = 0x0128;
pub const PD_15V_CURRENT_HIGH: u16 = 0x0129;
pub const PD_20V_CURRENT_HIGH: u16 = 0x012A;
pub const PD_FIXED_CURRENT_LOW: u16 = 0x012B;
} // verus!
