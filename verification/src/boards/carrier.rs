//! The SW3538 carrier board: pin assignment, capabilities, descriptor, PD
//! ceiling and the output power monitor's configuration.
use vstd::prelude::*;
use crate::types::{
    CapabilityFlags, CarrierProfile, HardwareRevision, NodeDescriptor, NodeRole, PdLimits, UpdateImpact,
};
use crate::drivers::ina237::{AdcRange, Config as Ina237Config};

pub mod pins;

verus! {

pub const MCU: &'static str = "STM32C092GCU6";
pub const CAN_NOMINAL_BITRATE: u32 = 500_000;
pub const CAN_DATA_BITRATE: u32 = 2_000_000;
pub const PARTITION_LAYOUT_VERSION: u8 = 1;

#[derive(Clone, Copy, Debug, PartialEq, Eq, Structural)]
pub enum GpioPort {
    A,
    B,
    C,
}

#[derive(Clone, Copy, Debug, PartialEq, Eq, Structural)]
pub struct Pin {
    pub port: GpioPort,
    pub number: u8,
}

impl Pin {
    pub fn new(port: GpioPort, number: u8) -> (r: Self)
        ensures
            r == (Pin { port, number }),
    {
        Pin { port, number }
    }
}

/// Firmware update, a switchable and monitored output, USB-PD control and
/// status, internal temperature and a user button.
#[allow(non_snake_case)]
pub fn CAPABILITIES() -> (r: CapabilityFlags)
    ensures
        r.spec_bits() == 3151,
{
    assert(((((((2048u64 | 1u64) | 2u64) | 4u64) | 8u64) | 64u64) | 1024u64) == 3151u64) by (bit_vector);
    CapabilityFlags::FIRMWARE_UPDATE().union(CapabilityFlags::SWITCHABLE_OUTPUT()).union(
        CapabilityFlags::LOAD_MONITORING(),
    ).union(CapabilityFlags::USB_PD_CONTROL()).union(CapabilityFlags::USB_PD_STATUS()).union(
        CapabilityFlags::INTERNAL_TEMPERATURE(),
    ).union(CapabilityFlags::USER_BUTTON())
}

#[allow(non_snake_case)]
pub fn DESCRIPTOR() -> (r: NodeDescriptor)
    ensures
        r.role == NodeRole::Carrier,
        r.carrier_profile == Some(CarrierProfile::Sw3538),
        r.hardware_revision == HardwareRevision::spec_new(1),
        r.capabilities.spec_bits() == 3151,
        r.update_impact == UpdateImpact::Interrupt,
        r.output_count == 1,
        r.fan_count == 0,
        r.external_temperature_capacity == 0,
        r.spec_validate() == Ok::<NodeDescriptor, crate::types::InvalidNodeDescriptor>(r),
{
    let r = NodeDescriptor {
        role: NodeRole::Carrier,
        carrier_profile: Some(CarrierProfile::Sw3538),
        hardware_revision: HardwareRevision::REV_A(),
        capabilities: CAPABILITIES(),
        update_impact: UpdateImpact::Interrupt,
        output_count: 1,
        fan_count: 0,
        external_temperature_capacity: 0,
    };
    assert(3151u64 & 2048 == 2048) by (bit_vector);
    r
}

/// The carrier's PD ceiling: the SW3538 safe maximum.
#[allow(non_snake_case)]
pub fn PD_LIMITS() -> (r: PdLimits)
    ensures
        r == PdLimits::spec_sw3538_safe_max(),
{
    PdLimits::SW3538_SAFE_MAX()
}

/// The 6 mOhm carrier shunt on the wide range with a 500 uA current LSB.
#[allow(non_snake_case)]
pub fn INA237_CONFIG() -> (r: Ina237Config)
    ensures
        r == (Ina237Config {
            adc_range: AdcRange::Wide,
            adc_config: 0xFB68,
            shunt_microohms: 6_000,
            current_lsb_microamps: 500,
        }),
{
    Ina237Config { adc_range: AdcRange::Wide, adc_config: 0xFB68, shunt_microohms: 6_000, current_lsb_microamps: 500 }
}

} // verus!
