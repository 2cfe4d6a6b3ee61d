//! Rev B, the prototype with per-slot input-power gates on a PCA9554. The
//! expander has room for eight ports; this board populates six.
use vstd::prelude::*;

use crate::port::model::{BoardDefinition, FanMode, HardwareRevision, PortBitmap};

verus! {

pub const CAN_NOMINAL_BITRATE: u32 = 1_000_000;
pub const CAN_DATA_BITRATE: u32 = 2_000_000;
pub const CAN_BIT_RATE_SWITCHING: bool = true;
pub const EMBASSY_TIME_DRIVER: &'static str = "TIM3";
pub const CONFIG_FLASH_START: u32 = 0x0803_E000;
pub const CONFIG_FLASH_LENGTH: u32 = 8 * 1024;
pub const MUX_RESET_AVAILABLE: bool = false;

/// A conservative wait until rail rise and SW3538 reset release have been
/// measured on this board.
pub const POWER_GATE_SETTLE_MS_PROVISIONAL: u64 = 10;
pub const POWER_EXPANDER_ADDRESS: u8 = 0x20;

#[allow(non_snake_case)]
pub fn REV_B() -> (r: BoardDefinition)
    ensures
        r.hardware_revision == HardwareRevision::RevB,
        r.supported_ports@ == 0x3F,
        r.mux_channel_by_port@ == seq![Some(0u8), Some(1u8), Some(2u8), Some(3u8), Some(4u8), Some(5u8), None, None],
        r.power_gate_bit_by_port@ == seq![Some(0u8), Some(1u8), Some(2u8), Some(3u8), Some(4u8), Some(5u8), None, None],
        r.default_fan_mode == FanMode::ThreeWire,
{
    let r = BoardDefinition {
        hardware_revision: HardwareRevision::RevB,
        supported_ports: PortBitmap::from_bits(0x3F),
        mux_channel_by_port: [Some(0), Some(1), Some(2), Some(3), Some(4), Some(5), None, None],
        power_gate_bit_by_port: [Some(0), Some(1), Some(2), Some(3), Some(4), Some(5), None, None],
        default_fan_mode: FanMode::ThreeWire,
    };
    assert(r.mux_channel_by_port@ =~= seq![Some(0u8), Some(1u8), Some(2u8), Some(3u8), Some(4u8), Some(5u8), None, None]);
    assert(r.power_gate_bit_by_port@ =~= seq![Some(0u8), Some(1u8), Some(2u8), Some(3u8), Some(4u8), Some(5u8), None, None]);
    r
}

} // verus!
