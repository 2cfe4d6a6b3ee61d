//! INA237 power monitor: calibration, register encodings and the unit
//! conversions of its measurements. The I2C transfers are the application's.
use vstd::prelude::*;

pub mod register;

verus! {

pub const DEFAULT_ADDRESS: u8 = 0x40;

#[derive(Clone, Copy, Debug, PartialEq, Eq, Structural)]
pub enum AdcRange {
    Wide,
    Narrow,
}

#[derive(Clone, Copy, Debug, PartialEq, Eq, Structural)]
pub struct Config {
    pub adc_range: AdcRange,
    pub adc_config: u16,
    pub shunt_microohms: u32,
    pub current_lsb_microamps: u32,
}

#[derive(Clone, Copy, Debug, PartialEq, Eq, Structural)]
pub enum ConfigError {
    ZeroScale,
    CalibrationOutOfRange,
}

/// The datasheet's `SHUNT_CAL = 819.2e6 * CURRENT_LSB[A] * RSHUNT[ohm]`,
/// rounded to the nearest integer, before it is checked against the register.
pub open spec fn calibration_value(c: Config) -> int {
    (c.current_lsb_microamps * c.shunt_microohms * 8192 + 5_000_000) / 10_000_000
}

pub open spec fn spec_shunt_calibration(c: Config) -> Result<u16, ConfigError> {
    if c.shunt_microohms == 0 || c.current_lsb_microamps == 0 {
        Err(ConfigError::ZeroScale)
    } else if c.current_lsb_microamps * c.shunt_microohms * 8192 + 5_000_000 > u64::MAX {
        Err(ConfigError::CalibrationOutOfRange)
    } else if calibration_value(c) == 0 || calibration_value(c) > 0x7FFF {
        Err(ConfigError::CalibrationOutOfRange)
    } else {
        Ok(calibration_value(c) as u16)
    }
}

impl Config {
    pub fn shunt_calibration(self) -> (r: Result<u16, ConfigError>)
        ensures
            r == spec_shunt_calibration(self),
    {
        if self.shunt_microohms == 0 || self.current_lsb_microamps == 0 {
            return Err(ConfigError::ZeroScale);
        }
        let product = match (self.current_lsb_microamps as u64).checked_mul(self.shunt_microohms as u64) {
            Some(value) => value,
            None => {
                return Err(ConfigError::CalibrationOutOfRange);
            },
        };
        let numerator = match product.checked_mul(8_192) {
            Some(value) => value,
            None => {
                proof {
                    assert(self.current_lsb_microamps * self.shunt_microohms * 8192 > u64::MAX);
                }
                return Err(ConfigError::CalibrationOutOfRange);
            },
        };
        let biased = match numerator.checked_add(5_000_000) {
            Some(value) => value,
            None => {
                return Err(ConfigError::CalibrationOutOfRange);
            },
        };
        let rounded = biased / 10_000_000;
        if rounded == 0 || rounded > 0x7FFF {
            return Err(ConfigError::CalibrationOutOfRange);
        }
        Ok(rounded as u16)
    }

    /// The CONFIG register: bit 4 selects the narrow shunt range.
    pub fn config_register(self) -> (r: u16)
        ensures
            r == (match self.adc_range {
                AdcRange::Wide => 0u16,
                AdcRange::Narrow => 16u16,
            }),
    {
        match self.adc_range {
            AdcRange::Wide => 0,
            AdcRange::Narrow => 0x10,
        }
    }
}

#[derive(Clone, Copy, Debug, PartialEq, Eq)]
pub enum Error<E> {
    Bus(E),
    Config(ConfigError),
    ConversionOverflow,
}

#[derive(Clone, Copy, Debug, PartialEq, Eq, Structural)]
pub struct Measurement {
    pub bus_voltage_mv: u32,
    pub shunt_voltage_uv: i32,
    pub current_ma: i32,
    pub power_mw: u32,
    pub die_temperature_centi_c: i16,
    pub diagnostic_flags: u16,
}

pub struct Ina237 {
    address: u8,
    config: Config,
}

/// The big-endian bytes of a 16-bit register write, after the register number.
pub open spec fn register_write(register: u8, value: u16) -> [u8; 3] {
    [register, (value >> 8u16) as u8, (value & 0xFF) as u8]
}

impl Ina237 {
    pub fn new(address: u8, config: Config) -> (r: Self)
        ensures
            r.spec_address() == address,
            r.spec_config() == config,
    {
        Ina237 { address, config }
    }

    pub closed spec fn spec_address(&self) -> u8 {
        self.address
    }

    pub closed spec fn spec_config(&self) -> Config {
        self.config
    }

    pub fn address(&self) -> (r: u8)
        ensures
            r == self.spec_address(),
    {
        self.address
    }

    pub fn config(&self) -> (r: Config)
        ensures
            r == self.spec_config(),
    {
        self.config
    }

    /// The three register writes that configure the device, in order:
    /// CONFIG, ADC_CONFIG and SHUNT_CAL, each as register number and
    /// big-endian value; or the calibration error, before any write.
    pub fn configuration_writes<E>(&self) -> (r: Result<[[u8; 3]; 3], Error<E>>)
        ensures
            match spec_shunt_calibration(self.spec_config()) {
                Err(e) => r == Err::<[[u8; 3]; 3], Error<E>>(Error::Config(e)),
                Ok(cal) => r matches Ok(w) && w@ == seq![
                    register_write(0x00, (match self.spec_config().adc_range {
                        AdcRange::Wide => 0u16,
                        AdcRange::Narrow => 16u16,
                    })),
                    register_write(0x01, self.spec_config().adc_config),
                    register_write(0x02, cal),
                ],
            },
    {
        let shunt_cal = match self.config.shunt_calibration() {
            Ok(value) => value,
            Err(e) => {
                return Err(Error::Config(e));
            },
        };
        let config_value = self.config.config_register();
        let writes = [
            be_write(register::CONFIG, config_value),
            be_write(register::ADC_CONFIG, self.config.adc_config),
            be_write(register::SHUNT_CAL, shunt_cal),
        ];
        assert(writes@ =~= seq![
            register_write(0x00, config_value),
            register_write(0x01, self.config.adc_config),
            register_write(0x02, shunt_cal),
        ]);
        Ok(writes)
    }

    /// The measurement that raw register contents give under this device's
    /// configuration: VSHUNT, VBUS, DIE_TEMP and CURRENT as read (16 bits,
    /// the signed ones as two's complement), POWER as its 24-bit value and
    /// DIAG_ALERT as read.
    pub fn measurement<E>(
        &self,
        shunt: u16,
        bus_voltage: u16,
        temperature: u16,
        current: u16,
        power: u32,
        diagnostic_flags: u16,
    ) -> (r: Result<Measurement, Error<E>>)
        ensures
            match (
                spec_current_ma(current as i16, self.spec_config().current_lsb_microamps),
                spec_power_mw(power, self.spec_config().current_lsb_microamps),
            ) {
                (Some(current_ma), Some(power_mw)) => r == Ok::<Measurement, Error<E>>(
                    Measurement {
                        bus_voltage_mv: spec_bus_voltage_mv(bus_voltage),
                        shunt_voltage_uv: spec_shunt_voltage_uv(shunt as i16, self.spec_config().adc_range),
                        current_ma,
                        power_mw,
                        die_temperature_centi_c: spec_die_temperature_centi_c(temperature as i16),
                        diagnostic_flags,
                    },
                ),
                _ => r == Err::<Measurement, Error<E>>(Error::ConversionOverflow),
            },
    {
        let current_ma = match current_ma(current as i16, self.config.current_lsb_microamps) {
            Some(value) => value,
            None => {
                return Err(Error::ConversionOverflow);
            },
        };
        let power_mw = match power_mw(power, self.config.current_lsb_microamps) {
            Some(value) => value,
            None => {
                return Err(Error::ConversionOverflow);
            },
        };
        Ok(
            Measurement {
                bus_voltage_mv: bus_voltage_mv(bus_voltage),
                shunt_voltage_uv: shunt_voltage_uv(shunt as i16, self.config.adc_range),
                current_ma,
                power_mw,
                die_temperature_centi_c: die_temperature_centi_c(temperature as i16),
                diagnostic_flags,
            },
        )
    }
}

/// The registers a measurement reads, in order, with how many bytes each
/// returns: VSHUNT, VBUS, DIE_TEMP and CURRENT, the 24-bit POWER, then DIAG_ALERT.
pub fn measurement_reads() -> (r: [(u8, u8); 6])
    ensures
        r@ == seq![(0x04u8, 2u8), (0x05u8, 2u8), (0x06u8, 2u8), (0x07u8, 2u8), (0x08u8, 3u8), (0x0Bu8, 2u8)],
{
    let r = [
        (register::VSHUNT, 2u8),
        (register::VBUS, 2u8),
        (register::DIE_TEMP, 2u8),
        (register::CURRENT, 2u8),
        (register::POWER, 3u8),
        (register::DIAG_ALERT, 2u8),
    ];
    assert(r@ =~= seq![(0x04u8, 2u8), (0x05u8, 2u8), (0x06u8, 2u8), (0x07u8, 2u8), (0x08u8, 3u8), (0x0Bu8, 2u8)]);
    r
}

/// A 16-bit register as read: most significant byte first.
pub fn register_u16(bytes: [u8; 2]) -> (r: u16)
    ensures
        r == bytes[0] * 256 + bytes[1],
{
    (bytes[0] as u16) * 256 + (bytes[1] as u16)
}

/// The 24-bit POWER register as read: most significant byte first.
pub fn register_u24(bytes: [u8; 3]) -> (r: u32)
    ensures
        r == bytes[0] * 65536 + bytes[1] * 256 + bytes[2],
{
    (bytes[0] as u32) * 65536 + (bytes[1] as u32) * 256 + (bytes[2] as u32)
}

fn be_write(register: u8, value: u16) -> (r: [u8; 3])
    ensures
        r == register_write(register, value),
{
    [register, (value >> 8u16) as u8, (value & 0xFF) as u8]
}

/// 3.125 mV per bit, rounded to the nearest millivolt.
pub open spec fn spec_bus_voltage_mv(raw: u16) -> u32 {
    ((raw * 25 + 4) / 8) as u32
}

pub fn bus_voltage_mv(raw: u16) -> (r: u32)
    ensures
        r == spec_bus_voltage_mv(raw),
{
    (raw as u32 * 25 + 4) / 8
}

/// 5 uV per bit on the wide range; 1.25 uV per bit on the narrow one,
/// rounded half away from zero.
pub open spec fn spec_shunt_voltage_uv(raw: i16, range: AdcRange) -> i32 {
    match range {
        AdcRange::Wide => (raw * 5) as i32,
        AdcRange::Narrow => if raw >= 0 {
            ((raw * 5 + 2) / 4) as i32
        } else {
            (-((-raw * 5 + 2) / 4)) as i32
        },
    }
}

pub fn shunt_voltage_uv(raw: i16, range: AdcRange) -> (r: i32)
    ensures
        r == spec_shunt_voltage_uv(raw, range),
{
    match range {
        AdcRange::Wide => raw as i32 * 5,
        AdcRange::Narrow => {
            let scaled = raw as i32 * 5;
            if scaled >= 0 {
                (scaled + 2) / 4
            } else {
                -((2 - scaled) / 4)
            }
        },
    }
}

/// The signed 12-bit sample in bits 15:4 at 0.125 degree per bit, in
/// hundredths of a degree rounded half away from zero.
pub open spec fn spec_die_temperature_centi_c(raw_register: i16) -> i16 {
    let sample = raw_register >> 4u16;
    if sample >= 0 {
        ((sample * 25 + 1) / 2) as i16
    } else {
        (-((-sample * 25 + 1) / 2)) as i16
    }
}

pub fn die_temperature_centi_c(raw_register: i16) -> (r: i16)
    ensures
        r == spec_die_temperature_centi_c(raw_register),
{
    let sample = raw_register >> 4u16;
    proof {
        assert(-2048 <= sample <= 2047) by (bit_vector)
            requires
                sample == raw_register >> 4u16,
        ;
    }
    let scaled = sample as i32 * 25;
    let rounded: i32 = if scaled >= 0 {
        (scaled + 1) / 2
    } else {
        -((1 - scaled) / 2)
    };
    rounded as i16
}

/// The current in milliamps, truncated toward zero, when it fits.
pub open spec fn spec_current_ma(raw: i16, current_lsb_microamps: u32) -> Option<i32> {
    let microamps = raw * current_lsb_microamps;
    let milliamps = if microamps >= 0 {
        microamps / 1000
    } else {
        -(-microamps / 1000)
    };
    if i32::MIN <= milliamps <= i32::MAX {
        Some(milliamps as i32)
    } else {
        None
    }
}

pub fn current_ma(raw: i16, current_lsb_microamps: u32) -> (r: Option<i32>)
    ensures
        r == spec_current_ma(raw, current_lsb_microamps),
{
    proof {
        assert(-32768 * 4294967295 <= raw * current_lsb_microamps <= 32767 * 4294967295) by (nonlinear_arith)
            requires
                -32768 <= raw <= 32767,
                0 <= current_lsb_microamps <= 4294967295,
        ;
    }
    let microamps = (raw as i64) * (current_lsb_microamps as i64);
    let milliamps: i64 = if microamps >= 0 {
        microamps / 1000
    } else {
        -((-microamps) / 1000)
    };
    if milliamps < -2147483648 || milliamps > 2147483647 {
        None
    } else {
        Some(milliamps as i32)
    }
}

/// POWER_LSB is 0.2 * CURRENT_LSB; the power in milliwatts, truncated, when it fits.
pub open spec fn spec_power_mw(raw: u32, current_lsb_microamps: u32) -> Option<u32> {
    let milliwatts = raw * current_lsb_microamps / 5000;
    if milliwatts <= u32::MAX {
        Some(milliwatts as u32)
    } else {
        None
    }
}

pub fn power_mw(raw: u32, current_lsb_microamps: u32) -> (r: Option<u32>)
    ensures
        r == spec_power_mw(raw, current_lsb_microamps),
{
    proof {
        assert(raw * current_lsb_microamps <= 4294967295 * 4294967295) by (nonlinear_arith)
            requires
                raw <= 4294967295,
                current_lsb_microamps <= 4294967295,
        ;
    }
    let numerator = (raw as u64) * (current_lsb_microamps as u64);
    let milliwatts = numerator / 5_000;
    if milliwatts > 0xFFFF_FFFF {
        None
    } else {
        Some(milliwatts as u32)
    }
}

/// The current is the product of the raw reading and the current LSB in
/// microamps, converted to milliamps with the sign kept and the magnitude
/// truncated toward zero; there is none exactly when that does not fit an
/// `i32`.
pub proof fn lemma_current_ma_keeps_sign_and_truncates(raw: i16, current_lsb_microamps: u32)
    ensures
        ({
            let p = raw * current_lsb_microamps;
            match spec_current_ma(raw, current_lsb_microamps) {
                Some(m) => {
                    &&& p >= 0 ==> 0 <= m && m * 1000 <= p && p < m * 1000 + 1000
                    &&& p < 0 ==> m <= 0 && p <= m * 1000 && m * 1000 - 1000 < p
                },
                None => p > 2_147_483_647_999 || p < -2_147_483_648_999,
            }
        }),
        spec_current_ma(raw, current_lsb_microamps) is None <==> (raw * current_lsb_microamps > 2_147_483_647_999
            || raw * current_lsb_microamps < -2_147_483_648_999),
{
    let p = raw * current_lsb_microamps;
    if p >= 0 {
        let q = p / 1000;
        assert(q * 1000 <= p && p < q * 1000 + 1000) by (nonlinear_arith)
            requires
                q == p / 1000,
                p >= 0,
        ;
    } else {
        let q = (-p) / 1000;
        assert(q * 1000 <= -p && -p < q * 1000 + 1000) by (nonlinear_arith)
            requires
                q == (-p) / 1000,
                -p >= 0,
        ;
    }
}

/// The bus voltage is 3.125 mV (25/8 mV) per bit, to the nearest millivolt.
pub proof fn lemma_bus_voltage_is_nearest_millivolt(raw: u16)
    ensures
        spec_bus_voltage_mv(raw) * 8 <= raw * 25 + 4 < spec_bus_voltage_mv(raw) * 8 + 8,
{
    let q = (raw * 25 + 4) / 8;
    assert(q * 8 <= raw * 25 + 4 < q * 8 + 8) by (nonlinear_arith)
        requires
            q == (raw * 25 + 4) / 8,
            raw >= 0,
    ;
}

/// The shunt voltage is 5 uV per bit on the wide range; on the narrow
/// range 1.25 uV per bit, rounded to the nearest microvolt with halves away
/// from zero, so the sign of the reading is kept.
pub proof fn lemma_shunt_voltage_scales_the_reading(raw: i16, range: AdcRange)
    ensures
        range == AdcRange::Wide ==> spec_shunt_voltage_uv(raw, range) == raw * 5,
        range == AdcRange::Narrow && raw >= 0 ==> ({
            let v = spec_shunt_voltage_uv(raw, range);
            v >= 0 && v * 4 - 2 <= raw * 5 < v * 4 + 2
        }),
        range == AdcRange::Narrow && raw < 0 ==> ({
            let v = spec_shunt_voltage_uv(raw, range);
            v <= 0 && v * 4 - 2 < raw * 5 <= v * 4 + 2
        }),
{
    if raw >= 0 {
        let q = (raw * 5 + 2) / 4;
        assert(q * 4 <= raw * 5 + 2 < q * 4 + 4 && q >= 0) by (nonlinear_arith)
            requires
                q == (raw * 5 + 2) / 4,
                raw >= 0,
        ;
    } else {
        let q = (-raw * 5 + 2) / 4;
        assert(q * 4 <= -raw * 5 + 2 < q * 4 + 4 && q >= 0) by (nonlinear_arith)
            requires
                q == (-raw * 5 + 2) / 4,
                raw < 0,
        ;
    }
}

/// The die temperature is the signed sample in bits 15:4 at 12.5
/// hundredths of a degree per bit, rounded to the nearest hundredth with
/// halves away from zero.
pub proof fn lemma_die_temperature_scales_the_sample(raw_register: i16)
    ensures
        ({
            let sample = raw_register >> 4u16;
            let t = spec_die_temperature_centi_c(raw_register);
            &&& sample >= 0 ==> t >= 0 && t * 2 - 1 <= sample * 25 < t * 2 + 1
            &&& sample < 0 ==> t <= 0 && t * 2 - 1 < sample * 25 <= t * 2 + 1
        }),
{
    let sample = raw_register >> 4u16;
    assert(-2048 <= sample <= 2047) by (bit_vector)
        requires
            sample == raw_register >> 4u16,
    ;
    if sample >= 0 {
        let q = (sample * 25 + 1) / 2;
        assert(q * 2 <= sample * 25 + 1 < q * 2 + 2 && q >= 0) by (nonlinear_arith)
            requires
                q == (sample * 25 + 1) / 2,
                sample >= 0,
        ;
    } else {
        let q = (-sample * 25 + 1) / 2;
        assert(q * 2 <= -sample * 25 + 1 < q * 2 + 2 && q >= 0) by (nonlinear_arith)
            requires
                q == (-sample * 25 + 1) / 2,
                sample < 0,
        ;
    }
}

/// The power is the reading times 0.2 current LSB, in milliwatts rounded
/// down; there is none exactly when that does not fit a `u32`.
pub proof fn lemma_power_mw_truncates(raw: u32, current_lsb_microamps: u32)
    ensures
        match spec_power_mw(raw, current_lsb_microamps) {
            Some(m) => m * 5000 <= raw * current_lsb_microamps < m * 5000 + 5000,
            None => raw * current_lsb_microamps >= (u32::MAX + 1) * 5000,
        },
{
    let p = raw * current_lsb_microamps;
    let q = p / 5000;
    assert(p >= 0) by (nonlinear_arith)
        requires
            p == raw * current_lsb_microamps,
            raw >= 0,
            current_lsb_microamps >= 0,
    ;
    assert(q * 5000 <= p < q * 5000 + 5000) by (nonlinear_arith)
        requires
            q == p / 5000,
            p >= 0,
    ;
}

/// An accepted calibration is the datasheet's `819.2e6 * LSB * RSHUNT`
/// (in microamps and microohms, `8192 * LSB * RSHUNT / 10^7`) rounded to
/// the nearest integer, and lies in 1 ..= 0x7FFF; a zero scale is refused.
pub proof fn lemma_shunt_calibration_rounds_the_datasheet_value(c: Config)
    ensures
        spec_shunt_calibration(c) matches Ok(cal) ==> ({
            let exact = c.current_lsb_microamps * c.shunt_microohms * 8192;
            &&& 1 <= cal <= 0x7FFF
            &&& cal * 10_000_000 - 5_000_000 <= exact < cal * 10_000_000 + 5_000_000
        }),
        (c.shunt_microohms == 0 || c.current_lsb_microamps == 0) ==> spec_shunt_calibration(c)
            == Err::<u16, ConfigError>(ConfigError::ZeroScale),
{
    let exact = c.current_lsb_microamps * c.shunt_microohms * 8192;
    assert(exact >= 0) by (nonlinear_arith)
        requires
            exact == c.current_lsb_microamps * c.shunt_microohms * 8192,
            c.current_lsb_microamps >= 0,
            c.shunt_microohms >= 0,
    ;
    let q = (exact + 5_000_000) / 10_000_000;
    assert(q * 10_000_000 <= exact + 5_000_000 < q * 10_000_000 + 10_000_000) by (nonlinear_arith)
        requires
            q == (exact + 5_000_000) / 10_000_000,
            exact >= 0,
    ;
}

} // verus!