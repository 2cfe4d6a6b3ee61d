use pdcan::drivers::config_record::{
    decode, encode, generation_is_newer, select_newest, DecodeError, Payload, Record, RecordKind,
    COMMIT_OFFSET, ERASED_WORD,
};
use pdcan::drivers::ds18b20::bus::{bits_to_byte, byte_to_bits, conversion_bytes, scratchpad_request_bytes};
use pdcan::drivers::ds18b20::{crc8, decode_scratchpad_centi_c, RomCode, RomError, ScratchpadError, SearchState};
use pdcan::drivers::ina237::{
    die_temperature_centi_c, measurement_reads, register as ina_register, register_u16, register_u24,
    shunt_voltage_uv, AdcRange, Config, Ina237,
    DEFAULT_ADDRESS as INA_ADDRESS,
};
use pdcan::drivers::pca9554::{ConfigurationError, Error as PcaError, Pca9554, DEFAULT_ADDRESS as PCA_ADDRESS};
use pdcan::drivers::sw3538::{
    encode_forced_current_limit, register as sw_register, validate_v1_policy, FixedPdoPlan,
    ForcedCurrentEncodingError, ForcedCurrentLimit, PolicyError,
    WRITE_ENABLE_SEQUENCE, WRITE_ENABLE_WRITES,
};
use pdcan::drivers::tmp102::{decode_temperature_centi_c, Tmp102, DEFAULT_ADDRESS as TMP102_ADDRESS, TEMPERATURE_REGISTER};
use pdcan::drivers::tca9548a::{Error as TcaError, Tca9548a, DEFAULT_ADDRESS as TCA_ADDRESS, DESELECT_ALL};
use pdcan::types::{CarrierPolicy, InvalidPdLimits, PdLimits};

const PAYLOAD_OFFSET: usize = 16;

fn record(generation: u32) -> Record {
    Record {
        kind: RecordKind::CarrierConfiguration,
        generation,
        payload: Payload::new(&[1, 2, 3, 4]).unwrap(),
    }
}

#[test]
fn record_round_trip_preserves_kind_generation_and_payload() {
    let record = record(17);
    assert_eq!(decode(&encode(record)), Ok(record));
}

#[test]
fn commit_word_is_written_last_and_required() {
    let mut bytes = encode(record(1));
    bytes[COMMIT_OFFSET..].copy_from_slice(&ERASED_WORD());
    assert_eq!(decode(&bytes), Err(DecodeError::Uncommitted));
}

#[test]
fn checksum_rejects_interrupted_or_corrupted_payloads() {
    let mut bytes = encode(record(1));
    bytes[PAYLOAD_OFFSET + 1] ^= 0x80;
    assert_eq!(decode(&bytes), Err(DecodeError::Checksum));
}

#[test]
fn newest_valid_slot_survives_generation_wrap() {
    let first = encode(record(u32::MAX));
    let second = encode(record(0));
    assert_eq!(select_newest(&first, &second), Some(record(0)));
}

#[test]
fn record_layout_and_generation_order() {
    let bytes = encode(record(0x0102_0304));
    assert_eq!(&bytes[..8], &[0x50, 0x44, 0x43, 0x32, 1, 2, 4, 0]);
    assert_eq!(&bytes[8..12], &[0x04, 0x03, 0x02, 0x01]);
    assert_eq!(&bytes[92..], &[0x50, 0x44, 0x43, 0x32]);
    assert!(generation_is_newer(1, 0));
    assert!(generation_is_newer(0, u32::MAX));
    assert!(!generation_is_newer(5, 5));
    assert!(!generation_is_newer(0, 1));
    let erased = [0xFF; 96];
    assert_eq!(select_newest(&erased, &erased), None);
    assert_eq!(select_newest(&erased, &bytes), Some(record(0x0102_0304)));
    assert!(Payload::new(&[0; 73]).is_err());
    assert_eq!(Payload::new(&[7, 8]).unwrap().as_bytes(), &[7, 8]);
}

#[test]
fn datasheet_rom_example_passes_crc_and_preserves_all_64_bits() {
    let bytes = [0x28, 0xFF, 0x15, 0x8A, 0x74, 0x16, 0x04, 0x72];
    let rom = RomCode::from_bytes(bytes).unwrap();
    assert_eq!(rom.as_bytes(), &bytes);
    assert_eq!(rom.identifier(), u64::from_le_bytes(bytes));
}

#[test]
fn scratchpad_crc_and_positive_temperature_are_checked() {
    let scratchpad = [0x50, 0x05, 0x4B, 0x46, 0x7F, 0xFF, 0x0C, 0x10, 0x1C];
    assert_eq!(crc8(&scratchpad[..8]), scratchpad[8]);
    assert_eq!(decode_scratchpad_centi_c(scratchpad), Ok(8_500));
}

#[test]
fn negative_temperature_rounds_symmetrically() {
    let mut scratchpad = [0; 9];
    let raw = (-162_i16).to_le_bytes();
    scratchpad[0] = raw[0];
    scratchpad[1] = raw[1];
    scratchpad[8] = crc8(&scratchpad[..8]);
    assert_eq!(decode_scratchpad_centi_c(scratchpad), Ok(-1_013));
}

#[test]
fn rom_family_and_crc_are_both_mandatory() {
    assert!(matches!(RomCode::from_bytes([0; 8]), Err(RomError::WrongFamily(0))));
    assert_eq!(RomCode::from_bytes([0x28, 1, 2, 3, 4, 5, 6, 7]), Err(RomError::Crc));
}

#[test]
fn scratchpad_with_a_bad_crc_is_refused() {
    let scratchpad = [0x50, 0x05, 0x4B, 0x46, 0x7F, 0xFF, 0x0C, 0x10, 0x1D];
    assert_eq!(decode_scratchpad_centi_c(scratchpad), Err(ScratchpadError::Crc));
}

#[test]
fn rom_search_follows_the_single_device_and_completes() {
    let code = [0x28, 0xFF, 0x15, 0x8A, 0x74, 0x16, 0x04, 0x72];
    let mut search = SearchState::new();
    let mut last_zero = 0;
    for bit_number in 1..=64u8 {
        let index = usize::from(bit_number - 1);
        let bit = code[index / 8] & (1 << (index % 8)) != 0;
        let (direction, next_zero) = search.search_bit(bit_number, bit, !bit, last_zero).unwrap();
        assert_eq!(direction, bit);
        last_zero = next_zero;
    }
    assert_eq!(last_zero, 0);
    let found = search.finish_pass(last_zero).unwrap().unwrap();
    assert_eq!(found.as_bytes(), &code);
    assert!(search.is_complete());
    assert_eq!(search.search_bit(1, true, true, 0), None);
    search.restart();
    assert!(!search.is_complete());
}

const CARRIER_CONFIG: Config = Config {
    adc_range: AdcRange::Wide,
    adc_config: 0xFB68,
    shunt_microohms: 6_000,
    current_lsb_microamps: 500,
};

#[test]
fn carrier_and_backplane_calibration_values_fit_the_register() {
    assert_eq!(CARRIER_CONFIG.shunt_calibration(), Ok(2_458));
    let backplane = Config {
        shunt_microohms: 1_000,
        current_lsb_microamps: 1_000,
        adc_range: AdcRange::Narrow,
        adc_config: 0xFB68,
    };
    assert_eq!(backplane.shunt_calibration(), Ok(819));
}

#[test]
fn configure_writes_big_endian_register_values() {
    let device = Ina237::new(INA_ADDRESS, CARRIER_CONFIG);
    let writes = device.configuration_writes::<()>().unwrap();
    assert_eq!(
        writes,
        [
            [ina_register::CONFIG, 0x00, 0x00],
            [ina_register::ADC_CONFIG, 0xFB, 0x68],
            [ina_register::SHUNT_CAL, 0x09, 0x9A],
        ]
    );
}

#[test]
fn measurement_reads_voltage_current_power_temperature_and_alerts() {
    let device = Ina237::new(INA_ADDRESS, CARRIER_CONFIG);
    let measurement = device
        .measurement::<()>(0x03E8, 0x1E00, 0x1900, 0x1388, 0x01E848, 0x0002)
        .unwrap();
    assert_eq!(measurement.bus_voltage_mv, 24_000);
    assert_eq!(measurement.shunt_voltage_uv, 5_000);
    assert_eq!(measurement.current_ma, 2_500);
    assert_eq!(measurement.power_mw, 12_500);
    assert_eq!(measurement.die_temperature_centi_c, 5_000);
    assert_eq!(measurement.diagnostic_flags, 2);
}

#[test]
fn signed_narrow_range_and_temperature_scaling_round_correctly() {
    assert_eq!(shunt_voltage_uv(-3, AdcRange::Narrow), -4);
    assert_eq!(die_temperature_centi_c((-16_i16) << 4), -200);
}

#[test]
fn calibration_rejects_zero_and_oversized_scales() {
    let zero = Config { shunt_microohms: 0, ..CARRIER_CONFIG };
    assert!(zero.shunt_calibration().is_err());
    let huge = Config { shunt_microohms: 1_000_000, current_lsb_microamps: 1_000_000, ..CARRIER_CONFIG };
    assert!(huge.shunt_calibration().is_err());
    assert_eq!(Config { adc_range: AdcRange::Narrow, ..CARRIER_CONFIG }.config_register(), 0x10);
}

#[test]
fn sw3538_write_enable_sequence_matches_registry_order() {
    assert_eq!(WRITE_ENABLE_SEQUENCE(), [0x20, 0x40, 0x80]);
    assert!(WRITE_ENABLE_WRITES().iter().all(|write| write.register == sw_register::I2C_ENABLE_AND_BANK));
}

#[test]
fn sw3538_nonstandard_seven_amp_policy_is_rejected() {
    let policy = CarrierPolicy {
        enabled: true,
        pd_limits: Some(PdLimits { max_voltage_mv: 20_000, max_current_ma: 7_000, max_power_mw: 100_000 }),
    };
    assert_eq!(validate_v1_policy(policy), Err(PolicyError::Limits(InvalidPdLimits::Current)));
}

#[test]
fn fixed_pdo_plan_never_exceeds_current_power_or_voltage_policy() {
    let plan = FixedPdoPlan::from_policy(CarrierPolicy {
        enabled: true,
        pd_limits: Some(PdLimits { max_voltage_mv: 20_000, max_current_ma: 5_000, max_power_mw: 60_000 }),
    })
    .unwrap();
    assert_eq!(plan.enabled_voltage_bits, 0x0F);
    assert_eq!(plan.current_5v_10ma, 500);
    assert_eq!(plan.current_9v_10ma, 500);
    assert_eq!(plan.current_12v_10ma, 500);
    assert_eq!(plan.current_15v_10ma, 400);
    assert_eq!(plan.current_20v_10ma, 300);

    let lower_voltage = FixedPdoPlan::from_policy(CarrierPolicy {
        enabled: true,
        pd_limits: Some(PdLimits { max_voltage_mv: 12_000, max_current_ma: 5_000, max_power_mw: 60_000 }),
    })
    .unwrap();
    assert_eq!(lower_voltage.enabled_voltage_bits, 0x03);
    assert_eq!(lower_voltage.current_15v_10ma, 0);
    assert_eq!(lower_voltage.current_20v_10ma, 0);
}

#[test]
fn forced_current_encoding_rounds_down_and_holds_the_v1_cap() {
    assert_eq!(
        encode_forced_current_limit(1_049),
        Ok(ForcedCurrentLimit { register_value: 0, effective_ma: 1_000 })
    );
    assert_eq!(
        encode_forced_current_limit(5_000),
        Ok(ForcedCurrentLimit { register_value: 80, effective_ma: 5_000 })
    );
    assert_eq!(encode_forced_current_limit(5_001), Err(ForcedCurrentEncodingError::AboveV1Maximum));
}

#[test]
fn fixed_pdo_register_steps_split_the_ten_bit_currents() {
    let plan = FixedPdoPlan::from_policy(CarrierPolicy {
        enabled: false,
        pd_limits: Some(PdLimits::SW3538_SAFE_MAX()),
    })
    .unwrap();
    assert!(!plan.pd_enabled);
    assert_eq!(plan.current_5v_10ma, 0);
    let full = FixedPdoPlan::from_policy(CarrierPolicy {
        enabled: true,
        pd_limits: Some(PdLimits::SW3538_SAFE_MAX()),
    })
    .unwrap();
    assert_eq!(full.current_20v_10ma, 500);
    assert_eq!(full.fixed_current_low(), 0);
    let steps = full.register_steps();
    assert_eq!(steps.len(), 10);
    assert_eq!(encode_forced_current_limit(999), Err(ForcedCurrentEncodingError::BelowHardwareMinimum));
}

#[test]
fn initialization_latches_low_before_enabling_six_outputs() {
    let mut expander = Pca9554::default_address();
    let writes = expander.begin_initialize::<()>(0x3F).unwrap();
    assert_eq!(writes, [[0x01, 0], [0x03, 0xC0]]);
    expander.finish_initialize(0x3F);
    assert_eq!(expander.address(), PCA_ADDRESS);
    assert!(expander.initialized());
    assert_eq!(expander.output_mask(), 0x3F);
    assert_eq!(expander.output_shadow(), 0);
}

#[test]
fn port_updates_preserve_the_other_output_bits() {
    let mut expander = Pca9554::default_address();
    expander.begin_initialize::<()>(0x3F).unwrap();
    expander.finish_initialize(0x3F);
    let mut written = Vec::new();
    for (bit, enabled) in [(1, true), (4, true), (1, false)] {
        let outputs = expander.output_update::<()>(bit, enabled).unwrap();
        written.push(expander.outputs_write::<()>(outputs).unwrap());
        expander.outputs_written(outputs);
    }
    assert_eq!(expander.output_shadow(), 0x10);
    assert_eq!(written, [[0x01, 0x02], [0x01, 0x12], [0x01, 0x10]]);
}

#[test]
fn all_off_is_available_before_configuration() {
    let mut expander = Pca9554::default_address();
    assert_eq!(expander.all_off_write(), [0x01, 0]);
    expander.outputs_written(0);
    assert!(!expander.initialized());
}

#[test]
fn failed_configuration_never_reports_initialized() {
    let mut expander = Pca9554::default_address();
    expander.begin_initialize::<()>(0x3F).unwrap();
    // The second write fails, so initialization is never finished.
    assert!(!expander.initialized());
    assert_eq!(expander.output_mask(), 0);
    assert_eq!(expander.output_shadow(), 0);
}

#[test]
fn unused_bits_and_uninitialized_updates_are_rejected_without_bus_io() {
    let mut expander = Pca9554::default_address();
    assert_eq!(
        expander.output_update::<()>(0, true),
        Err(PcaError::Configuration(ConfigurationError::NotInitialized))
    );
    expander.begin_initialize::<()>(0x3F).unwrap();
    expander.finish_initialize(0x3F);
    assert_eq!(
        expander.output_update::<()>(6, true),
        Err(PcaError::Configuration(ConfigurationError::InvalidOutputBit(6)))
    );
    assert_eq!(
        expander.outputs_write::<()>(0x80),
        Err(PcaError::Configuration(ConfigurationError::BitsOutsideOutputMask(0x80)))
    );
    assert_eq!(
        expander.begin_initialize::<()>(0),
        Err(PcaError::Configuration(ConfigurationError::NoOutputs))
    );
}

#[test]
fn decodes_signed_12_bit_samples_and_rounds_to_nearest_centi_degree() {
    assert_eq!(decode_temperature_centi_c([0x19, 0x10]), 2_506);
    assert_eq!(decode_temperature_centi_c([0xff, 0xf0]), -6);
    assert_eq!(decode_temperature_centi_c([0xe7, 0x00]), -2_500);
    assert_eq!(decode_temperature_centi_c([0x7f, 0xf0]), 12_794);
    assert_eq!(decode_temperature_centi_c([0x80, 0x00]), -12_800);
}

#[test]
fn supports_non_default_address_straps() {
    assert_eq!(Tmp102::new(0x4b).address(), 0x4b);
}

#[test]
fn reads_temperature_register_at_ground_strapped_address() {
    assert_eq!(Tmp102::default_address().address(), TMP102_ADDRESS);
    assert_eq!(TEMPERATURE_REGISTER, 0x00);
    assert_eq!(decode_temperature_centi_c([0x19, 0x00]), 2_500);
}

#[test]
fn tca9548a_selects_at_most_one_channel() {
    let mux = Tca9548a::default_address();
    assert_eq!(mux.address(), TCA_ADDRESS);
    assert_eq!(Tca9548a::new(0x71).address(), 0x71);
    for channel in 0..8 {
        assert_eq!(mux.selection_write::<()>(1 << channel), Ok([1 << channel]));
        assert_eq!(mux.check_selection::<()>(1 << channel), Ok(1 << channel));
    }
    assert_eq!(mux.selection_write::<()>(0), Ok([0]));
    assert_eq!(mux.deselect_all_write(), [DESELECT_ALL]);
    assert_eq!(
        mux.selection_write::<()>(0x03),
        Err(TcaError::InvalidSelectionReadback(0x03))
    );
    assert_eq!(
        mux.check_selection::<()>(0x81),
        Err(TcaError::InvalidSelectionReadback(0x81))
    );
}

#[test]
fn one_wire_bytes_travel_least_significant_bit_first() {
    assert_eq!(byte_to_bits(0xF0), [false, false, false, false, true, true, true, true]);
    assert_eq!(byte_to_bits(0x01), [true, false, false, false, false, false, false, false]);
    for byte in 0..=255u8 {
        assert_eq!(bits_to_byte(byte_to_bits(byte)), byte);
    }
    assert_eq!(conversion_bytes(), [0xCC, 0x44]);
    let rom_bytes = [0x28, 0xFF, 0x15, 0x8A, 0x74, 0x16, 0x04, 0x72];
    let rom = RomCode::from_bytes(rom_bytes).unwrap();
    assert_eq!(
        scratchpad_request_bytes(rom),
        [0x55, 0x28, 0xFF, 0x15, 0x8A, 0x74, 0x16, 0x04, 0x72, 0xBE]
    );
}

#[test]
fn ina237_measurement_registers_are_read_most_significant_byte_first() {
    assert_eq!(
        measurement_reads(),
        [
            (ina_register::VSHUNT, 2),
            (ina_register::VBUS, 2),
            (ina_register::DIE_TEMP, 2),
            (ina_register::CURRENT, 2),
            (ina_register::POWER, 3),
            (ina_register::DIAG_ALERT, 2),
        ]
    );
    assert_eq!(register_u16([0x12, 0x34]), 0x1234);
    assert_eq!(register_u16([0xFF, 0xFE]) as i16, -2);
    assert_eq!(register_u24([0x01, 0x02, 0x03]), 0x010203);
}
