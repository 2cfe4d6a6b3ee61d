//! The backplane board: pin assignment, capabilities, descriptor and the
//! aggregate power monitor's configuration.
use vstd::prelude::*;
use crate::types::{
    CapabilityFlags, HardwareRevision, NodeDescriptor, NodeRole, UpdateImpact,
};
use crate::drivers::ina237::{AdcRange, Config as Ina237Config};

pub mod pins;

verus! {

pub const MCU: &'static str = "STM32C092GCU6";
pub const CAN_NOMINAL_BITRATE: u32 = 500_000;
pub const CAN_DATA_BITRATE: u32 = 2_000_000;
pub const PARTITION_LAYOUT_VERSION: u8 = 1;

#[derive(Clone, Copy, Debug, PartialEq, Eq, Structural)]
pub enum GpioPort {
    A,
    B,
    C,
}

#[derive(Clone, Copy, Debug, PartialEq, Eq, Structural)]
pub struct Pin {
    pub port: GpioPort,
    pub number: u8,
}

impl Pin {
    pub fn new(port: GpioPort, number: u8) -> (r: Self)
        ensures
            r == (Pin { port, number }),
    {
        Pin { port, number }
    }
}

/// Firmware update, fan control and tachometers, internal and external
/// temperature, and aggregate power.
#[allow(non_snake_case)]
pub fn CAPABILITIES() -> (r: CapabilityFlags)
    ensures
        r.spec_bits() == 2800,
{
    assert((((((2048u64 | 16u64) | 32u64) | 64u64) | 128u64) | 512u64) == 2800u64) by (bit_vector);
    CapabilityFlags::FIRMWARE_UPDATE().union(CapabilityFlags::FAN_CONTROL()).union(
        CapabilityFlags::FAN_TACHOMETER(),
    ).union(CapabilityFlags::INTERNAL_TEMPERATURE()).union(CapabilityFlags::EXTERNAL_TEMPERATURE()).union(
        CapabilityFlags::AGGREGATE_POWER(),
    )
}

#[allow(non_snake_case)]
pub fn DESCRIPTOR() -> (r: NodeDescriptor)
    ensures
        r.role == NodeRole::Backplane,
        r.carrier_profile is None,
        r.hardware_revision == HardwareRevision::spec_new(1),
        r.capabilities.spec_bits() == 2800,
        r.update_impact == UpdateImpact::Interrupt,
        r.output_count == 0,
        r.fan_count == 2,
        r.external_temperature_capacity == 0xFF,
        r.spec_validate() == Ok::<NodeDescriptor, crate::types::InvalidNodeDescriptor>(r),
{
    let r = NodeDescriptor {
        role: NodeRole::Backplane,
        carrier_profile: None,
        hardware_revision: HardwareRevision::REV_A(),
        capabilities: CAPABILITIES(),
        update_impact: UpdateImpact::Interrupt,
        output_count: 0,
        fan_count: 2,
        external_temperature_capacity: 0xFF,
    };
    assert(2800u64 & 2048 == 2048) by (bit_vector);
    r
}

/// The 1 mOhm aggregate shunt on the narrow range with a 1 mA current LSB.
#[allow(non_snake_case)]
pub fn INA237_CONFIG() -> (r: Ina237Config)
    ensures
        r == (Ina237Config {
            adc_range: AdcRange::Narrow,
            adc_config: 0xFB68,
            shunt_microohms: 1_000,
            current_lsb_microamps: 1_000,
        }),
{
    Ina237Config {
        adc_range: AdcRange::Narrow,
        adc_config: 0xFB68,
        shunt_microohms: 1_000,
        current_lsb_microamps: 1_000,
    }
}

} // verus!
