use std::collections::VecDeque;

use pdcan::drivers::sw3538::access::{AccessFault, RegisterAccess, Transfer};
use pdcan::drivers::sw3538::{
    adc_select_step, cc_undriven_step, modified_value, register, source_capabilities_step,
    AdcChannel, AdcSample, AdcUnit, Error, FixedPdoPlan, Identity, PdoStep, Status, Sw3538,
};
use pdcan::types::{CarrierPolicy, PdLimits};

const DEVICE_ADDRESS: u8 = 0x3C;

#[derive(Debug)]
enum Expected {
    Write(Vec<u8>),
    WriteRead { register: u8, response: u8 },
    Fail,
}

struct FakeBus {
    expected: VecDeque<Expected>,
}

impl FakeBus {
    fn new(expected: impl IntoIterator<Item = Expected>) -> Self {
        Self { expected: expected.into_iter().collect() }
    }

    fn assert_done(&self) {
        assert!(self.expected.is_empty(), "unused steps: {:?}", self.expected);
    }

    fn transfer(&mut self, transfer: Transfer) -> Result<u8, ()> {
        match (self.expected.pop_front().expect("unexpected transfer"), transfer) {
            (Expected::Fail, _) => Err(()),
            (Expected::Write(bytes), Transfer::Write { wire_register, value }) => {
                assert_eq!(bytes, vec![wire_register, value]);
                Ok(0)
            }
            (Expected::WriteRead { register, response }, Transfer::WriteRead { wire_register }) => {
                assert_eq!(register, wire_register);
                Ok(response)
            }
            (expected, transfer) => panic!("expected {expected:?}, got {transfer:?}"),
        }
    }
}

/// Issues an access the way the bus owner does and reports back to the driver.
fn run(device: &mut Sw3538, access: RegisterAccess, bus: &mut FakeBus) -> Result<u8, Error<()>> {
    let mut read = 0;
    for transfer in &access.transfers {
        match bus.transfer(*transfer) {
            Ok(value) => read = value,
            Err(()) => {
                device.transfer_failed();
                return Err(Error::Bus(()));
            }
        }
    }
    device.access_completed(&access);
    match access.fault {
        Some(fault) => Err(fault.to_error()),
        None => Ok(read),
    }
}

fn read(device: &mut Sw3538, bus: &mut FakeBus, register: u16) -> Result<u8, Error<()>> {
    let access = device.read_access(register);
    run(device, access, bus)
}

fn write(device: &mut Sw3538, bus: &mut FakeBus, register: u16, value: u8) -> Result<(), Error<()>> {
    let access = device.write_access(register, value);
    run(device, access, bus).map(|_| ())
}

fn step(device: &mut Sw3538, bus: &mut FakeBus, step: PdoStep) -> Result<(), Error<()>> {
    match step {
        PdoStep::Write { register, value } => write(device, bus, register, value),
        PdoStep::Modify { register, mask, value } => {
            let current = read(device, bus, register)?;
            write(device, bus, register, modified_value(current, mask, value))
        }
    }
}

fn unlock_steps() -> [Expected; 3] {
    [
        Expected::Write(vec![0x10, 0x20]),
        Expected::Write(vec![0x10, 0x40]),
        Expected::Write(vec![0x10, 0x80]),
    ]
}

#[test]
fn identity_reads_only_documented_base_registers() {
    let mut bus = FakeBus::new([
        Expected::WriteRead { register: 0x00, response: 0x02 },
        Expected::WriteRead { register: 0x02, response: 100 },
    ]);
    let mut device = Sw3538::assuming_base_bank(DEVICE_ADDRESS);
    let chip = read(&mut device, &mut bus, register::CHIP_VERSION).unwrap();
    let power = read(&mut device, &mut bus, register::SYSTEM_MAX_POWER).unwrap();
    assert_eq!(
        Identity::from_registers(chip, power),
        Identity { chip_version: 2, system_max_power_w: 100 }
    );
    bus.assert_done();
}

#[test]
fn adc_read_unlocks_selects_and_then_reads_the_latched_pair() {
    let mut expected = Vec::from(unlock_steps());
    expected.extend([
        Expected::Write(vec![0x40, 5]),
        Expected::WriteRead { register: 0x41, response: 0x34 },
        Expected::WriteRead { register: 0x42, response: 0x02 },
    ]);
    let mut bus = FakeBus::new(expected);
    let mut device = Sw3538::assuming_base_bank(DEVICE_ADDRESS);
    step(&mut device, &mut bus, adc_select_step(AdcChannel::OutputVoltage)).unwrap();
    let low = read(&mut device, &mut bus, register::ADC_DATA_LOW).unwrap();
    let high = read(&mut device, &mut bus, register::ADC_DATA_HIGH).unwrap();
    let sample = AdcSample::from_registers(AdcChannel::OutputVoltage, low, high);
    assert_eq!(sample.raw, 0x234);
    assert_eq!(sample.unit, AdcUnit::Microvolts);
    assert_eq!(sample.value(), 0x234 * 6_000);
    bus.assert_done();
}

#[test]
fn successful_extended_write_restores_the_base_bank() {
    let mut expected = Vec::from(unlock_steps());
    expected.extend([
        Expected::Write(vec![0x10, 0x81]),
        Expected::Write(vec![0x22, 0x01]),
        Expected::Write(vec![0x80, 0x00]),
        Expected::WriteRead { register: 0x00, response: 0x02 },
        Expected::WriteRead { register: 0x02, response: 100 },
    ]);
    let mut bus = FakeBus::new(expected);
    let mut device = Sw3538::assuming_base_bank(DEVICE_ADDRESS);

    write(&mut device, &mut bus, register::PD_CONTROL, 1).unwrap();
    read(&mut device, &mut bus, register::CHIP_VERSION).unwrap();
    read(&mut device, &mut bus, register::SYSTEM_MAX_POWER).unwrap();
    bus.assert_done();
}

#[test]
fn extended_reads_select_the_bank_once_and_base_reads_return_from_it() {
    let mut expected = Vec::from(unlock_steps());
    expected.extend([
        Expected::Write(vec![0x10, 0x81]),
        Expected::WriteRead { register: 0x24, response: 0x0F },
        Expected::WriteRead { register: 0x25, response: 0x20 },
        Expected::Write(vec![0x80, 0x00]),
        Expected::WriteRead { register: 0x0A, response: 0x07 },
    ]);
    let mut bus = FakeBus::new(expected);
    let mut device = Sw3538::assuming_base_bank(DEVICE_ADDRESS);
    assert_eq!(read(&mut device, &mut bus, register::PD_VOLTAGE_ENABLE), Ok(0x0F));
    assert_eq!(read(&mut device, &mut bus, register::PD_FIXED_CURRENT_CONTROL), Ok(0x20));
    assert_eq!(read(&mut device, &mut bus, register::SYSTEM_STATUS), Ok(0x07));
    bus.assert_done();
}

#[test]
fn a_failed_transfer_leaves_the_bank_unknown_until_assumed() {
    let mut bus = FakeBus::new([Expected::Write(vec![0x10, 0x20]), Expected::Fail]);
    let mut device = Sw3538::assuming_base_bank(DEVICE_ADDRESS);
    assert_eq!(write(&mut device, &mut bus, register::PD_COMMAND, 10), Err(Error::Bus(())));
    bus.assert_done();

    let access = device.read_access(register::CHIP_VERSION);
    assert!(access.transfers.is_empty());
    assert_eq!(access.fault, Some(AccessFault::BankStateUnknown));
    let access = device.write_access(register::PD_CONTROL, 1);
    assert!(access.transfers.is_empty());
    assert_eq!(access.fault, Some(AccessFault::BankStateUnknown));

    device.assume_base_bank();
    let mut bus = FakeBus::new([Expected::WriteRead { register: 0x00, response: 0x01 }]);
    assert_eq!(read(&mut device, &mut bus, register::CHIP_VERSION), Ok(0x01));
    bus.assert_done();
}

#[test]
fn registers_beyond_the_extended_window_are_refused() {
    let mut device = Sw3538::assuming_base_bank(DEVICE_ADDRESS);
    let access = device.read_access(register::RETURN_TO_BASE_BANK);
    assert!(access.transfers.is_empty());
    assert_eq!(access.fault, Some(AccessFault::UnsupportedRegister(0x0180)));

    let mut bus = FakeBus::new(unlock_steps());
    assert_eq!(
        write(&mut device, &mut bus, 0x0150, 1),
        Err(Error::UnsupportedRegister(0x0150))
    );
    bus.assert_done();
    let mut bus = FakeBus::new([Expected::WriteRead { register: 0x00, response: 0x02 }]);
    assert_eq!(read(&mut device, &mut bus, register::CHIP_VERSION), Ok(0x02));
    bus.assert_done();
}

#[test]
fn fixed_pdo_plan_programs_every_register_behind_the_unlock_sequence() {
    let plan = FixedPdoPlan::from_policy(CarrierPolicy {
        enabled: true,
        pd_limits: Some(PdLimits { max_voltage_mv: 12_000, max_current_ma: 3_000, max_power_mw: 36_000 }),
    })
    .unwrap();
    let mut device = Sw3538::assuming_base_bank(DEVICE_ADDRESS);
    let mut expected = Vec::new();
    let extended_write = |expected: &mut Vec<Expected>, wire: u8, value: u8| {
        expected.extend(unlock_steps());
        expected.extend([
            Expected::Write(vec![0x10, 0x81]),
            Expected::Write(vec![wire, value]),
            Expected::Write(vec![0x80, 0x00]),
        ]);
    };
    let extended_read = |expected: &mut Vec<Expected>, wire: u8, response: u8| {
        expected.extend(unlock_steps());
        expected.extend([
            Expected::Write(vec![0x10, 0x81]),
            Expected::WriteRead { register: wire, response },
        ]);
    };
    let current_low = plan.fixed_current_low();
    extended_read(&mut expected, 0x22, 0xF1);
    expected.push(Expected::Write(vec![0x80, 0x00]));
    extended_write(&mut expected, 0x22, 0xF0);
    extended_write(&mut expected, 0x24, plan.enabled_voltage_bits);
    extended_read(&mut expected, 0x25, 0xFF);
    expected.push(Expected::Write(vec![0x80, 0x00]));
    extended_write(&mut expected, 0x25, 0x0C | 0x20 | (plan.current_5v_10ma as u8 & 0x03));
    extended_write(&mut expected, 0x26, (plan.current_5v_10ma >> 2) as u8);
    extended_write(&mut expected, 0x27, (plan.current_9v_10ma >> 2) as u8);
    extended_write(&mut expected, 0x28, (plan.current_12v_10ma >> 2) as u8);
    extended_write(&mut expected, 0x29, 0);
    extended_write(&mut expected, 0x2A, 0);
    extended_write(&mut expected, 0x2B, current_low);
    extended_read(&mut expected, 0x22, 0xF0);
    expected.push(Expected::Write(vec![0x80, 0x00]));
    extended_write(&mut expected, 0x22, 0xF1);
    let mut bus = FakeBus::new(expected);
    for planned in plan.register_steps() {
        step(&mut device, &mut bus, planned).unwrap();
    }
    bus.assert_done();
    assert_eq!(plan.current_5v_10ma, 300);
    assert_eq!(plan.current_12v_10ma, 300);
}

#[test]
fn cc_and_source_capability_steps_use_their_documented_registers() {
    assert_eq!(
        cc_undriven_step(true),
        PdoStep::Modify { register: register::PORT_CONTROL, mask: 0x02, value: 0x02 }
    );
    assert_eq!(
        cc_undriven_step(false),
        PdoStep::Modify { register: register::PORT_CONTROL, mask: 0x02, value: 0 }
    );
    assert_eq!(source_capabilities_step(), PdoStep::Write { register: register::PD_COMMAND, value: 10 });
    let mut bus = FakeBus::new(unlock_steps().into_iter().chain([Expected::Write(vec![0xA7, 10])]));
    let mut device = Sw3538::assuming_base_bank(DEVICE_ADDRESS);
    step(&mut device, &mut bus, source_capabilities_step()).unwrap();
    bus.assert_done();
}

#[test]
fn status_reads_the_three_base_status_registers() {
    let mut bus = FakeBus::new([
        Expected::WriteRead { register: 0x0A, response: 0b101 },
        Expected::WriteRead { register: 0x0D, response: 0b10 },
        Expected::WriteRead { register: 0x09, response: 0xE5 },
    ]);
    let mut device = Sw3538::assuming_base_bank(DEVICE_ADDRESS);
    let system = read(&mut device, &mut bus, register::SYSTEM_STATUS).unwrap();
    let online = read(&mut device, &mut bus, register::ONLINE_STATUS).unwrap();
    let fast = read(&mut device, &mut bus, register::FAST_CHARGE_STATUS).unwrap();
    bus.assert_done();
    assert_eq!(
        Status::from_registers(system, online, fast),
        Status {
            buck_enabled: true,
            port_1_enabled: true,
            port_2_enabled: false,
            port_1_online: true,
            port_2_online: false,
            pd_revision: 2,
            protocol: 5,
            fast_charge: true,
        }
    );
}
