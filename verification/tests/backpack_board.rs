use pdcan::backpack::board::{rev_a, rev_b};
use pdcan::backpack::fan::FanDrive;
use pdcan::drivers::tca9548a::{selection_for_port, ChannelSelectionError};
use pdcan::drivers::sw3538::{register as sw_register, WRITE_ENABLE_SEQUENCE, WRITE_ENABLE_WRITES};
use pdcan::port::model::{
    BoardDefinition, FanConfig, FanMode, HardwareRevision, InvalidFanDuty, PolicyValidationError, PortBitmap, PortId,
    PortPolicy,
};

#[test]
fn only_ports_zero_through_five_are_supported() {
    let board = rev_a::REV_A();
    for raw_port in 0..=7 {
        let port = PortId::new(raw_port).unwrap();
        assert_eq!(board.supports(port), raw_port < 6);
        assert_eq!(board.mux_channel(port), (raw_port < 6).then_some(raw_port));
    }
}

#[test]
fn fixed_board_contract_matches_v1_plan() {
    assert_eq!(rev_a::CAN_NOMINAL_BITRATE, 1_000_000);
    assert_eq!(rev_a::CAN_DATA_BITRATE, 2_000_000);
    assert!(rev_a::CAN_BIT_RATE_SWITCHING);
    assert_eq!(rev_a::EMBASSY_TIME_DRIVER, "TIM3");
    assert_eq!(rev_a::CONFIG_FLASH_START + rev_a::CONFIG_FLASH_LENGTH, 0x0804_0000);
}

#[test]
fn six_prototype_slots_map_directly_to_p0_through_p5() {
    let board = rev_b::REV_B();
    for raw_port in 0..=7 {
        let port = PortId::new(raw_port).unwrap();
        assert_eq!(board.supports(port), raw_port < 6);
        assert_eq!(board.mux_channel(port), (raw_port < 6).then_some(raw_port));
        assert_eq!(board.power_gate_bit(port), (raw_port < 6).then_some(raw_port));
    }
}

#[test]
fn fixed_board_contract_matches_prototype_schematic() {
    assert_eq!(rev_b::REV_B().power_gate_mask(), 0x3F);
    assert!(!rev_b::MUX_RESET_AVAILABLE);
    assert_eq!(rev_b::POWER_EXPANDER_ADDRESS, 0x20);
    assert_eq!(rev_b::POWER_EXPANDER_ADDRESS, pdcan::drivers::pca9554::DEFAULT_ADDRESS);
    assert_ne!(rev_b::POWER_EXPANDER_ADDRESS, pdcan::drivers::tca9548a::DEFAULT_ADDRESS);
    assert_eq!(rev_b::POWER_GATE_SETTLE_MS_PROVISIONAL, 10);
    assert_eq!(rev_b::CONFIG_FLASH_START + rev_b::CONFIG_FLASH_LENGTH, 0x0804_0000);
}

#[test]
fn rev_a_has_no_power_gates_and_rev_b_has_six() {
    assert!(!rev_a::REV_A().has_power_gates());
    assert_eq!(rev_a::REV_A().power_gate_mask(), 0);
    assert!(rev_b::REV_B().has_power_gates());
}

#[test]
fn boot_safe_state_turns_on_the_default_three_wire_fan() {
    assert_eq!(FanDrive::BOOT_SAFE().pa0_high_percent, 100);
    assert_eq!(FanDrive::BOOT_SAFE().frequency_hz, 30);
}

#[test]
fn four_wire_drive_accounts_for_the_open_drain_inversion() {
    let drive =
        FanDrive::from_config(FanConfig { mode: FanMode::FourWire, duty_percent: 70 }, false).unwrap();
    assert_eq!(drive.frequency_hz, 25_000);
    assert_eq!(drive.pa0_high_percent, 30);
    assert_eq!(
        FanDrive::from_config(FanConfig { mode: FanMode::FourWire, duty_percent: 20 }, true)
            .unwrap()
            .pa0_high_percent,
        0
    );
}

#[test]
fn fan_drive_rejects_an_impossible_duty() {
    assert_eq!(
        FanDrive::from_config(FanConfig { mode: FanMode::ThreeWire, duty_percent: 101 }, false),
        Err(InvalidFanDuty(101))
    );
    assert_eq!(
        FanDrive::from_config(FanConfig { mode: FanMode::ThreeWire, duty_percent: 40 }, false)
            .unwrap()
            .pa0_high_percent,
        40
    );
}

#[test]
fn tca9548a_rev_a_maps_ports_zero_through_five_to_one_hot_channels() {
    for raw_port in 0..6 {
        let port = PortId::new(raw_port).unwrap();
        assert_eq!(selection_for_port(rev_a::REV_A(), port), Ok(1 << raw_port));
    }
}

#[test]
fn tca9548a_rev_a_never_selects_test_pad_channels_as_ports() {
    for raw_port in 6..8 {
        let port = PortId::new(raw_port).unwrap();
        assert_eq!(
            selection_for_port(rev_a::REV_A(), port),
            Err(ChannelSelectionError::UnsupportedPort(port))
        );
    }
}

fn rev_a_board() -> BoardDefinition {
    BoardDefinition {
        hardware_revision: HardwareRevision::RevA,
        supported_ports: PortBitmap::from_bits(0x3F),
        mux_channel_by_port: [Some(0), Some(1), Some(2), Some(3), Some(4), Some(5), None, None],
        power_gate_bit_by_port: [None; 8],
        default_fan_mode: FanMode::ThreeWire,
    }
}

#[test]
fn rev_a_maps_ports_zero_through_five_to_one_hot_channels() {
    for raw_port in 0..6 {
        let port = PortId::new(raw_port).unwrap();
        assert_eq!(selection_for_port(rev_a_board(), port), Ok(1 << raw_port));
    }
}

#[test]
fn rev_a_never_selects_test_pad_channels_as_ports() {
    for raw_port in 6..8 {
        let port = PortId::new(raw_port).unwrap();
        assert_eq!(selection_for_port(rev_a_board(), port), Err(ChannelSelectionError::UnsupportedPort(port)));
    }
}

#[test]
fn write_enable_sequence_matches_registry_order() {
    assert_eq!(WRITE_ENABLE_SEQUENCE(), [0x20, 0x40, 0x80]);
    assert!(WRITE_ENABLE_WRITES().iter().all(|write| write.register == sw_register::I2C_ENABLE_AND_BANK));
}

#[test]
fn nonstandard_seven_amp_policy_is_rejected() {
    let policy = PortPolicy { enabled: true, max_voltage_mv: 20_000, max_current_ma: 7_000, max_power_mw: 100_000 };
    assert_eq!(policy.validate(), Err(PolicyValidationError::CurrentTooHigh));
}
