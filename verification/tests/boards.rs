use pdcan::boards::backplane;
use pdcan::boards::carrier;
use pdcan::drivers::ina237::AdcRange;
use pdcan::types::{CapabilityFlags, CarrierProfile, UpdateImpact};

#[test]
fn finalized_descriptor_has_two_fans_and_dynamic_one_wire_capacity() {
    let descriptor = backplane::DESCRIPTOR();
    assert_eq!(descriptor.validate(), Ok(descriptor));
    assert_eq!(descriptor.fan_count, 2);
    assert_eq!(descriptor.external_temperature_capacity, 0xFF);
    assert!(backplane::CAPABILITIES().contains(CapabilityFlags::FIRMWARE_UPDATE()));
}

#[test]
fn pin_contract_matches_the_newest_production_netlist() {
    assert_eq!(backplane::pins::CAN_RX(), backplane::Pin::new(backplane::GpioPort::B, 0));
    assert_eq!(backplane::pins::CAN_TX(), backplane::Pin::new(backplane::GpioPort::B, 1));
    assert_eq!(backplane::pins::LED_DATA(), backplane::Pin::new(backplane::GpioPort::A, 1));
    assert_eq!(backplane::pins::FAN_1_PWM(), backplane::Pin::new(backplane::GpioPort::A, 2));
    assert_eq!(backplane::pins::FAN_1_TACH(), backplane::Pin::new(backplane::GpioPort::B, 8));
    assert_eq!(backplane::pins::FAN_2_PWM(), backplane::Pin::new(backplane::GpioPort::A, 0));
    assert_eq!(backplane::pins::FAN_2_TACH(), backplane::Pin::new(backplane::GpioPort::A, 8));
    assert_eq!(backplane::pins::DS18B20_DATA(), backplane::Pin::new(backplane::GpioPort::A, 15));
}

#[test]
fn aggregate_ina237_configuration_matches_the_one_milliohm_shunt() {
    assert_eq!(backplane::INA237_CONFIG().shunt_calibration(), Ok(819));
    assert_eq!(backplane::INA237_CONFIG().adc_range, AdcRange::Narrow);
}

#[test]
fn current_carrier_is_explicitly_interrupt_update_capable() {
    let descriptor = carrier::DESCRIPTOR();
    assert_eq!(descriptor.validate(), Ok(descriptor));
    assert_eq!(descriptor.carrier_profile, Some(CarrierProfile::Sw3538));
    assert_eq!(descriptor.update_impact, UpdateImpact::Interrupt);
    assert!(carrier::CAPABILITIES().contains(CapabilityFlags::FIRMWARE_UPDATE()));
}

#[test]
fn finalized_pin_contract_has_only_local_i2c_and_direct_can() {
    assert_eq!(carrier::pins::CAN_RX(), carrier::Pin::new(carrier::GpioPort::B, 0));
    assert_eq!(carrier::pins::CAN_TX(), carrier::Pin::new(carrier::GpioPort::B, 1));
    assert_eq!(carrier::pins::I2C_SCL(), carrier::Pin::new(carrier::GpioPort::B, 6));
    assert_eq!(carrier::pins::I2C_SDA(), carrier::Pin::new(carrier::GpioPort::B, 7));
    assert_eq!(carrier::pins::PD_ENABLE(), carrier::Pin::new(carrier::GpioPort::B, 3));
    assert_eq!(carrier::pins::LED_DATA(), carrier::Pin::new(carrier::GpioPort::B, 8));
}

#[test]
fn carrier_ina237_configuration_matches_the_six_milliohm_shunt() {
    assert_eq!(carrier::INA237_CONFIG().shunt_calibration(), Ok(2_458));
    assert_eq!(carrier::INA237_CONFIG().adc_range, AdcRange::Wide);
}

#[test]
fn board_capability_bits_are_exact() {
    assert_eq!(backplane::CAPABILITIES().bits(), 0xAF0);
    assert_eq!(carrier::CAPABILITIES().bits(), 0xC4F);
    assert_eq!(backplane::MCU, "STM32C092GCU6");
    assert_eq!(carrier::PD_LIMITS().max_power_mw, 100_000);
}
