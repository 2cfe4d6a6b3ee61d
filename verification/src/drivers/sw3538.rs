//! SW3538 USB-PD controller: the fixed-PDO plan derived from a carrier
//! policy, register encodings, the decoding of status and ADC registers and
//! the register-bank protocol. The bus owner issues the I2C transfers.
use vstd::prelude::*;
use crate::types::{CarrierPolicy, InvalidPdLimits, PdLimits};

pub mod access;
pub mod register;

verus! {

pub const DEFAULT_ADDRESS: u8 = 0x3C;

/// The unlock values written, in order, to I2C_ENABLE_AND_BANK before a protected write.
#[allow(non_snake_case)]
pub fn WRITE_ENABLE_SEQUENCE() -> (r: [u8; 3])
    ensures
        r@ == seq![0x20u8, 0x40, 0x80],
{
    let r = [0x20u8, 0x40, 0x80];
    assert(r@ =~= seq![0x20u8, 0x40, 0x80]);
    r
}

#[derive(Clone, Copy, Debug, PartialEq, Eq, Structural)]
pub struct RegisterWrite {
    pub register: u16,
    pub value: u8,
}

/// The unlock sequence as register writes.
#[allow(non_snake_case)]
pub fn WRITE_ENABLE_WRITES() -> (r: [RegisterWrite; 3])
    ensures
        r@ == seq![
            RegisterWrite { register: 0x0010, value: 0x20 },
            RegisterWrite { register: 0x0010, value: 0x40 },
            RegisterWrite { register: 0x0010, value: 0x80 },
        ],
{
    let sequence = WRITE_ENABLE_SEQUENCE();
    let r = [
        RegisterWrite { register: register::I2C_ENABLE_AND_BANK, value: sequence[0] },
        RegisterWrite { register: register::I2C_ENABLE_AND_BANK, value: sequence[1] },
        RegisterWrite { register: register::I2C_ENABLE_AND_BANK, value: sequence[2] },
    ];
    assert(r@ =~= seq![
        RegisterWrite { register: 0x0010, value: 0x20 },
        RegisterWrite { register: 0x0010, value: 0x40 },
        RegisterWrite { register: 0x0010, value: 0x80 },
    ]);
    r
}

#[derive(Clone, Copy, Debug, PartialEq, Eq)]
pub enum Error<E> {
    Bus(E),
    BankStateUnknown,
    UnsupportedRegister(u16),
}

#[derive(Clone, Copy, Debug, PartialEq, Eq, Structural)]
pub struct Identity {
    pub chip_version: u8,
    pub system_max_power_w: u8,
}

impl Identity {
    /// The identity in the CHIP_VERSION and SYSTEM_MAX_POWER registers.
    pub fn from_registers(chip_version: u8, system_max_power: u8) -> (r: Identity)
        ensures
            r == (Identity { chip_version: chip_version & 0x03, system_max_power_w: system_max_power & 0x7F }),
    {
        Identity { chip_version: chip_version & 0x03, system_max_power_w: system_max_power & 0x7F }
    }
}

#[derive(Clone, Copy, Debug, PartialEq, Eq, Structural)]
pub struct Status {
    pub buck_enabled: bool,
    pub port_1_enabled: bool,
    pub port_2_enabled: bool,
    pub port_1_online: bool,
    pub port_2_online: bool,
    pub pd_revision: u8,
    pub protocol: u8,
    pub fast_charge: bool,
}

impl Status {
    /// The status in the SYSTEM_STATUS, ONLINE_STATUS and FAST_CHARGE_STATUS registers.
    pub fn from_registers(system: u8, online: u8, fast_charge: u8) -> (r: Status)
        ensures
            r == (Status {
                buck_enabled: system & 4 != 0,
                port_1_enabled: system & 1 != 0,
                port_2_enabled: system & 2 != 0,
                port_1_online: online & 2 != 0,
                port_2_online: online & 1 != 0,
                pd_revision: (fast_charge >> 4u8) & 0x03,
                protocol: fast_charge & 0x0F,
                fast_charge: fast_charge & 0xC0 != 0,
            }),
    {
        Status {
            buck_enabled: system & 4 != 0,
            port_1_enabled: system & 1 != 0,
            port_2_enabled: system & 2 != 0,
            port_1_online: online & 2 != 0,
            port_2_online: online & 1 != 0,
            pd_revision: (fast_charge >> 4u8) & 0x03,
            protocol: fast_charge & 0x0F,
            fast_charge: fast_charge & 0xC0 != 0,
        }
    }
}

#[derive(Clone, Copy, Debug, PartialEq, Eq, Structural)]
pub enum AdcChannel {
    Port1Current,
    Port2Current,
    OutputVoltage,
    InputVoltage,
    NtcVoltage,
    ConvertedOutputVoltage,
}

impl AdcChannel {
    /// The ADC_SELECT value of the channel.
    pub open spec fn spec_code(self) -> u8 {
        match self {
            AdcChannel::Port1Current => 1,
            AdcChannel::Port2Current => 2,
            AdcChannel::OutputVoltage => 5,
            AdcChannel::InputVoltage => 6,
            AdcChannel::NtcVoltage => 7,
            AdcChannel::ConvertedOutputVoltage => 11,
        }
    }

    pub fn code(self) -> (r: u8)
        ensures
            r == self.spec_code(),
    {
        match self {
            AdcChannel::Port1Current => 1,
            AdcChannel::Port2Current => 2,
            AdcChannel::OutputVoltage => 5,
            AdcChannel::InputVoltage => 6,
            AdcChannel::NtcVoltage => 7,
            AdcChannel::ConvertedOutputVoltage => 11,
        }
    }
}

#[derive(Clone, Copy, Debug, PartialEq, Eq, Structural)]
pub enum AdcUnit {
    Microamps,
    Microvolts,
}

#[derive(Clone, Copy, Debug, PartialEq, Eq, Structural)]
pub struct AdcSample {
    pub raw: u16,
    pub units_per_bit: u16,
    pub unit: AdcUnit,
}

/// The scale of a channel: 2.5 mA per bit for the port currents, 6 mV, 10 mV,
/// 1.2 mV and 1 mV per bit for the output, input, NTC and converted output
/// voltages.
pub open spec fn channel_scale(channel: AdcChannel) -> (u16, AdcUnit) {
    match channel {
        AdcChannel::Port1Current | AdcChannel::Port2Current => (2_500, AdcUnit::Microamps),
        AdcChannel::OutputVoltage => (6_000, AdcUnit::Microvolts),
        AdcChannel::InputVoltage => (10_000, AdcUnit::Microvolts),
        AdcChannel::NtcVoltage => (1_200, AdcUnit::Microvolts),
        AdcChannel::ConvertedOutputVoltage => (1_000, AdcUnit::Microvolts),
    }
}

impl AdcSample {
    /// The sample in ADC_DATA_LOW and ADC_DATA_HIGH for `channel`: 12 bits,
    /// or 15 for the converted output voltage.
    pub fn from_registers(channel: AdcChannel, low: u8, high: u8) -> (r: AdcSample)
        ensures
            r.raw == ((low as u16) | (((high & (if channel == AdcChannel::ConvertedOutputVoltage {
                0x7Fu8
            } else {
                0x0Fu8
            })) as u16) << 8u16)),
            (r.units_per_bit, r.unit) == channel_scale(channel),
    {
        let high_mask: u8 = if channel == AdcChannel::ConvertedOutputVoltage {
            0x7F
        } else {
            0x0F
        };
        let raw = (low as u16) | (((high & high_mask) as u16) << 8u16);
        let (units_per_bit, unit) = match channel {
            AdcChannel::Port1Current | AdcChannel::Port2Current => (2_500u16, AdcUnit::Microamps),
            AdcChannel::OutputVoltage => (6_000, AdcUnit::Microvolts),
            AdcChannel::InputVoltage => (10_000, AdcUnit::Microvolts),
            AdcChannel::NtcVoltage => (1_200, AdcUnit::Microvolts),
            AdcChannel::ConvertedOutputVoltage => (1_000, AdcUnit::Microvolts),
        };
        AdcSample { raw, units_per_bit, unit }
    }

    /// The sample in microamps or microvolts.
    pub fn value(self) -> (r: u32)
        ensures
            r == self.raw * self.units_per_bit,
    {
        proof {
            assert(self.raw * self.units_per_bit <= 65535 * 65535) by (nonlinear_arith)
                requires
                    self.raw <= 65535,
                    self.units_per_bit <= 65535,
            ;
        }
        self.raw as u32 * self.units_per_bit as u32
    }
}

#[derive(Clone, Copy, Debug, PartialEq, Eq, Structural)]
pub enum ForcedCurrentEncodingError {
    BelowHardwareMinimum,
    AboveV1Maximum,
}

#[derive(Clone, Copy, Debug, PartialEq, Eq, Structural)]
pub struct ForcedCurrentLimit {
    pub register_value: u8,
    pub effective_ma: u16,
}

/// A forced current limit in 50 mA steps from 1 A, rounded down, up to 5 A.
pub fn encode_forced_current_limit(requested_ma: u16) -> (r: Result<ForcedCurrentLimit, ForcedCurrentEncodingError>)
    ensures
        requested_ma < 1000 ==> r == Err::<ForcedCurrentLimit, ForcedCurrentEncodingError>(
            ForcedCurrentEncodingError::BelowHardwareMinimum,
        ),
        requested_ma > 5000 ==> r == Err::<ForcedCurrentLimit, ForcedCurrentEncodingError>(
            ForcedCurrentEncodingError::AboveV1Maximum,
        ),
        1000 <= requested_ma <= 5000 ==> r == Ok::<ForcedCurrentLimit, ForcedCurrentEncodingError>(
            ForcedCurrentLimit {
                register_value: ((requested_ma - 1000) / 50) as u8,
                effective_ma: (1000 + (requested_ma - 1000) / 50 * 50) as u16,
            },
        ),
        r matches Ok(limit) ==> limit.effective_ma == 1000 + 50 * limit.register_value && limit.register_value
            <= 80 && limit.effective_ma <= requested_ma < limit.effective_ma + 50,
{
    if requested_ma < 1_000 {
        return Err(ForcedCurrentEncodingError::BelowHardwareMinimum);
    }
    if requested_ma > 5_000 {
        return Err(ForcedCurrentEncodingError::AboveV1Maximum);
    }
    let steps = (requested_ma - 1_000) / 50;
    Ok(ForcedCurrentLimit { register_value: steps as u8, effective_ma: 1_000 + steps * 50 })
}

#[derive(Clone, Copy, Debug, PartialEq, Eq, Structural)]
pub enum PolicyError {
    PdLimitsRequired,
    Limits(InvalidPdLimits),
}

/// The v1 SW3538 carrier requires PD limits within its safe ceiling.
pub open spec fn spec_validate_v1_policy(policy: CarrierPolicy) -> Result<CarrierPolicy, PolicyError> {
    match policy.pd_limits {
        None => Err(PolicyError::PdLimitsRequired),
        Some(limits) => match limits.spec_validate_for(PdLimits::spec_sw3538_safe_max()) {
            Ok(_) => Ok(policy),
            Err(e) => Err(PolicyError::Limits(e)),
        },
    }
}

pub fn validate_v1_policy(policy: CarrierPolicy) -> (r: Result<CarrierPolicy, PolicyError>)
    ensures
        r == spec_validate_v1_policy(policy),
{
    let limits = match policy.pd_limits {
        Some(limits) => limits,
        None => {
            return Err(PolicyError::PdLimitsRequired);
        },
    };
    match limits.validate_for(PdLimits::SW3538_SAFE_MAX()) {
        Ok(_) => Ok(policy),
        Err(e) => Err(PolicyError::Limits(e)),
    }
}

#[derive(Clone, Copy, Debug, PartialEq, Eq, Structural)]
pub struct FixedPdoPlan {
    pub pd_enabled: bool,
    pub enabled_voltage_bits: u8,
    pub current_5v_10ma: u16,
    pub current_9v_10ma: u16,
    pub current_12v_10ma: u16,
    pub current_15v_10ma: u16,
    pub current_20v_10ma: u16,
}

/// The current offered at `voltage_mv`, in 10 mA units: the lower of the
/// current limit and the power limit at that voltage, capped at the 10-bit
/// register maximum.
pub open spec fn pdo_current_10ma(limits: PdLimits, voltage_mv: int) -> u16 {
    let power_limited_ma = limits.max_power_mw * 1000 / voltage_mv;
    let current_ma = if limits.max_current_ma <= power_limited_ma {
        limits.max_current_ma as int
    } else {
        power_limited_ma
    };
    if current_ma / 10 <= 0x3FF {
        (current_ma / 10) as u16
    } else {
        0x3FF
    }
}

/// The current at `voltage_mv` if that voltage is offered, else zero.
pub open spec fn offered_current(limits: PdLimits, voltage_mv: int) -> u16 {
    if limits.max_voltage_mv >= voltage_mv {
        pdo_current_10ma(limits, voltage_mv)
    } else {
        0
    }
}

pub open spec fn voltage_bit(limits: PdLimits, voltage_mv: int, shift: u8) -> u8 {
    if limits.max_voltage_mv >= voltage_mv {
        1u8 << shift
    } else {
        0
    }
}

pub open spec fn spec_fixed_pdo_plan(policy: CarrierPolicy) -> Result<FixedPdoPlan, PolicyError> {
    match spec_validate_v1_policy(policy) {
        Err(e) => Err(e),
        Ok(_) => {
            let limits = policy.pd_limits->Some_0;
            if !policy.enabled {
                Ok(
                    FixedPdoPlan {
                        pd_enabled: false,
                        enabled_voltage_bits: 0,
                        current_5v_10ma: 0,
                        current_9v_10ma: 0,
                        current_12v_10ma: 0,
                        current_15v_10ma: 0,
                        current_20v_10ma: 0,
                    },
                )
            } else {
                Ok(
                    FixedPdoPlan {
                        pd_enabled: true,
                        enabled_voltage_bits: voltage_bit(limits, 9_000, 0) | voltage_bit(
                            limits,
                            12_000,
                            1,
                        ) | voltage_bit(limits, 15_000, 2) | voltage_bit(limits, 20_000, 3),
                        current_5v_10ma: pdo_current_10ma(limits, 5_000),
                        current_9v_10ma: offered_current(limits, 9_000),
                        current_12v_10ma: offered_current(limits, 12_000),
                        current_15v_10ma: offered_current(limits, 15_000),
                        current_20v_10ma: offered_current(limits, 20_000),
                    },
                )
            }
        },
    }
}

fn current_for(limits: PdLimits, voltage_mv: u32) -> (r: u16)
    requires
        limits.max_power_mw <= 100_000,
        voltage_mv > 0,
    ensures
        r == pdo_current_10ma(limits, voltage_mv as int),
{
    let power_limited_ma = limits.max_power_mw * 1_000 / voltage_mv;
    let current_ma = if limits.max_current_ma <= power_limited_ma {
        limits.max_current_ma
    } else {
        power_limited_ma
    };
    if current_ma / 10 <= 0x3FF {
        (current_ma / 10) as u16
    } else {
        0x3FF
    }
}

fn voltage_flag(limits: PdLimits, voltage_mv: u32, shift: u8) -> (r: u8)
    requires
        shift < 8,
    ensures
        r == voltage_bit(limits, voltage_mv as int, shift),
{
    if limits.max_voltage_mv >= voltage_mv {
        1u8 << shift
    } else {
        0
    }
}

impl FixedPdoPlan {
    /// The fixed PDOs that a v1 carrier policy allows: 5 V always, 9, 12,
    /// 15 and 20 V up to the voltage limit, each at the current that both
    /// the current and the power limit allow.
    pub fn from_policy(policy: CarrierPolicy) -> (r: Result<Self, PolicyError>)
        ensures
            r == spec_fixed_pdo_plan(policy),
    {
        let limits = match policy.pd_limits {
            Some(limits) => limits,
            None => {
                return Err(PolicyError::PdLimitsRequired);
            },
        };
        if let Err(e) = limits.validate_for(PdLimits::SW3538_SAFE_MAX()) {
            return Err(PolicyError::Limits(e));
        }
        if !policy.enabled {
            return Ok(
                FixedPdoPlan {
                    pd_enabled: false,
                    enabled_voltage_bits: 0,
                    current_5v_10ma: 0,
                    current_9v_10ma: 0,
                    current_12v_10ma: 0,
                    current_15v_10ma: 0,
                    current_20v_10ma: 0,
                },
            );
        }
        let enabled_voltage_bits = voltage_flag(limits, 9_000, 0) | voltage_flag(limits, 12_000, 1)
            | voltage_flag(limits, 15_000, 2) | voltage_flag(limits, 20_000, 3);
        Ok(
            FixedPdoPlan {
                pd_enabled: true,
                enabled_voltage_bits,
                current_5v_10ma: current_for(limits, 5_000),
                current_9v_10ma: if limits.max_voltage_mv >= 9_000 {
                    current_for(limits, 9_000)
                } else {
                    0
                },
                current_12v_10ma: if limits.max_voltage_mv >= 12_000 {
                    current_for(limits, 12_000)
                } else {
                    0
                },
                current_15v_10ma: if limits.max_voltage_mv >= 15_000 {
                    current_for(limits, 15_000)
                } else {
                    0
                },
                current_20v_10ma: if limits.max_voltage_mv >= 20_000 {
                    current_for(limits, 20_000)
                } else {
                    0
                },
            },
        )
    }

    /// PD_FIXED_CURRENT_LOW: the two low bits of the 20, 15, 12 and 9 V currents.
    pub open spec fn spec_fixed_current_low(self) -> u8 {
        (((self.current_20v_10ma as u8) & 0x03) << 6u8) | (((self.current_15v_10ma as u8) & 0x03)
            << 4u8) | (((self.current_12v_10ma as u8) & 0x03) << 2u8) | ((self.current_9v_10ma as u8)
            & 0x03)
    }

    pub fn fixed_current_low(self) -> (r: u8)
        ensures
            r == self.spec_fixed_current_low(),
    {
        (((self.current_20v_10ma as u8) & 0x03) << 6u8) | (((self.current_15v_10ma as u8) & 0x03)
            << 4u8) | (((self.current_12v_10ma as u8) & 0x03) << 2u8) | ((self.current_9v_10ma as u8)
            & 0x03)
    }

    /// The register steps that program the plan, in order: PD off, the
    /// voltage enables, the 5 V low current bits, the high current bits of
    /// each voltage, the low bits of the others, then PD on or off as planned.
    pub fn register_steps(self) -> (r: [PdoStep; 10])
        ensures
            r@ == seq![
                PdoStep::Modify { register: 0x0122, mask: 0x01, value: 0 },
                PdoStep::Write { register: 0x0124, value: self.enabled_voltage_bits },
                PdoStep::Modify {
                    register: 0x0125,
                    mask: 0xF3,
                    value: 0x20 | ((self.current_5v_10ma as u8) & 0x03),
                },
                PdoStep::Write { register: 0x0126, value: (self.current_5v_10ma >> 2u16) as u8 },
                PdoStep::Write { register: 0x0127, value: (self.current_9v_10ma >> 2u16) as u8 },
                PdoStep::Write { register: 0x0128, value: (self.current_12v_10ma >> 2u16) as u8 },
                PdoStep::Write { register: 0x0129, value: (self.current_15v_10ma >> 2u16) as u8 },
                PdoStep::Write { register: 0x012A, value: (self.current_20v_10ma >> 2u16) as u8 },
                PdoStep::Write { register: 0x012B, value: self.spec_fixed_current_low() },
                PdoStep::Modify {
                    register: 0x0122,
                    mask: 0x01,
                    value: if self.pd_enabled {
                        1u8
                    } else {
                        0u8
                    },
                },
            ],
    {
        let r = [
            PdoStep::Modify { register: register::PD_CONTROL, mask: 0x01, value: 0 },
            PdoStep::Write { register: register::PD_VOLTAGE_ENABLE, value: self.enabled_voltage_bits },
            PdoStep::Modify {
                register: register::PD_FIXED_CURRENT_CONTROL,
                mask: 0xF3,
                value: 0x20 | ((self.current_5v_10ma as u8) & 0x03),
            },
            PdoStep::Write {
                register: register::PD_5V_CURRENT_HIGH,
                value: (self.current_5v_10ma >> 2u16) as u8,
            },
            PdoStep::Write {
                register: register::PD_9V_CURRENT_HIGH,
                value: (self.current_9v_10ma >> 2u16) as u8,
            },
            PdoStep::Write {
                register: register::PD_12V_CURRENT_HIGH,
                value: (self.current_12v_10ma >> 2u16) as u8,
            },
            PdoStep::Write {
                register: register::PD_15V_CURRENT_HIGH,
                value: (self.current_15v_10ma >> 2u16) as u8,
            },
            PdoStep::Write {
                register: register::PD_20V_CURRENT_HIGH,
                value: (self.current_20v_10ma >> 2u16) as u8,
            },
            PdoStep::Write { register: register::PD_FIXED_CURRENT_LOW, value: self.fixed_current_low() },
            PdoStep::Modify {
                register: register::PD_CONTROL,
                mask: 0x01,
                value: if self.pd_enabled {
                    1
                } else {
                    0
                },
            },
        ];
        assert(r@ =~= seq![
            PdoStep::Modify { register: 0x0122, mask: 0x01, value: 0 },
            PdoStep::Write { register: 0x0124, value: self.enabled_voltage_bits },
            PdoStep::Modify {
                register: 0x0125,
                mask: 0xF3,
                value: 0x20 | ((self.current_5v_10ma as u8) & 0x03),
            },
            PdoStep::Write { register: 0x0126, value: (self.current_5v_10ma >> 2u16) as u8 },
            PdoStep::Write { register: 0x0127, value: (self.current_9v_10ma >> 2u16) as u8 },
            PdoStep::Write { register: 0x0128, value: (self.current_12v_10ma >> 2u16) as u8 },
            PdoStep::Write { register: 0x0129, value: (self.current_15v_10ma >> 2u16) as u8 },
            PdoStep::Write { register: 0x012A, value: (self.current_20v_10ma >> 2u16) as u8 },
            PdoStep::Write { register: 0x012B, value: self.spec_fixed_current_low() },
            PdoStep::Modify {
                register: 0x0122,
                mask: 0x01,
                value: if self.pd_enabled {
                    1u8
                } else {
                    0u8
                },
            },
        ]);
        r
    }
}

/// One register operation of a plan: a protected write, or a
/// read-modify-write that changes only the bits of `mask`.
#[derive(Clone, Copy, Debug, PartialEq, Eq, Structural)]
pub enum PdoStep {
    Modify { register: u16, mask: u8, value: u8 },
    Write { register: u16, value: u8 },
}

/// The step that leaves the CC lines undriven or drives them: bit 1 of
/// PORT_CONTROL set where they are to be left undriven, cleared where they
/// are driven.
pub fn cc_undriven_step(undriven: bool) -> (r: PdoStep)
    ensures
        r == (PdoStep::Modify {
            register: 0x0011,
            mask: 0x02,
            value: if undriven {
                2u8
            } else {
                0u8
            },
        }),
{
    PdoStep::Modify {
        register: register::PORT_CONTROL,
        mask: 0x02,
        value: if undriven {
            2
        } else {
            0
        },
    }
}

/// The step that makes the controller send its source capabilities again: PD command 10.
pub fn source_capabilities_step() -> (r: PdoStep)
    ensures
        r == (PdoStep::Write { register: 0x00A7, value: 10 }),
{
    PdoStep::Write { register: register::PD_COMMAND, value: 10 }
}

/// The step that selects an ADC channel before its data registers are read.
pub fn adc_select_step(channel: AdcChannel) -> (r: PdoStep)
    ensures
        r == (PdoStep::Write { register: 0x0040, value: channel.spec_code() }),
{
    PdoStep::Write { register: register::ADC_SELECT, value: channel.code() }
}

/// The value a read-modify-write stores: `current` outside `mask`, `value` inside it.
pub fn modified_value(current: u8, mask: u8, value: u8) -> (r: u8)
    ensures
        r == (current & !mask) | (value & mask),
{
    (current & !mask) | (value & mask)
}

/// No PDO of a plan offers more current than the policy's current limit,
/// more power than its power limit, or a voltage above its voltage limit;
/// a disabled policy offers nothing.
pub proof fn lemma_fixed_pdo_plan_within_policy(policy: CarrierPolicy)
    requires
        spec_fixed_pdo_plan(policy) is Ok,
    ensures
        ({
            let plan = spec_fixed_pdo_plan(policy)->Ok_0;
            let limits = policy.pd_limits->Some_0;
            &&& !policy.enabled ==> plan.enabled_voltage_bits == 0 && plan.current_5v_10ma == 0
                && !plan.pd_enabled
            &&& plan.current_5v_10ma * 10 <= limits.max_current_ma
            &&& plan.current_5v_10ma * 10 * 5_000 <= limits.max_power_mw * 1000
            &&& plan.current_9v_10ma * 10 <= limits.max_current_ma
            &&& plan.current_9v_10ma * 10 * 9_000 <= limits.max_power_mw * 1000
            &&& plan.current_12v_10ma * 10 <= limits.max_current_ma
            &&& plan.current_12v_10ma * 10 * 12_000 <= limits.max_power_mw * 1000
            &&& plan.current_15v_10ma * 10 <= limits.max_current_ma
            &&& plan.current_15v_10ma * 10 * 15_000 <= limits.max_power_mw * 1000
            &&& plan.current_20v_10ma * 10 <= limits.max_current_ma
            &&& plan.current_20v_10ma * 10 * 20_000 <= limits.max_power_mw * 1000
            &&& (limits.max_voltage_mv < 9_000 ==> plan.current_9v_10ma == 0)
            &&& (limits.max_voltage_mv < 12_000 ==> plan.current_12v_10ma == 0)
            &&& (limits.max_voltage_mv < 15_000 ==> plan.current_15v_10ma == 0)
            &&& (limits.max_voltage_mv < 20_000 ==> plan.current_20v_10ma == 0)
        }),
{
    let limits = policy.pd_limits->Some_0;
    lemma_pdo_current_within(limits, 5_000);
    lemma_pdo_current_within(limits, 9_000);
    lemma_pdo_current_within(limits, 12_000);
    lemma_pdo_current_within(limits, 15_000);
    lemma_pdo_current_within(limits, 20_000);
}

proof fn lemma_pdo_current_within(limits: PdLimits, v: int)
    requires
        v > 0,
    ensures
        pdo_current_10ma(limits, v) * 10 <= limits.max_current_ma,
        pdo_current_10ma(limits, v) * 10 * v <= limits.max_power_mw * 1000,
{
    let p = limits.max_power_mw * 1000;
    let power_limited = p / v;
    let current: int = if limits.max_current_ma <= power_limited {
        limits.max_current_ma as int
    } else {
        power_limited
    };
    let c = pdo_current_10ma(limits, v) as int;
    assert(c <= current / 10);
    assert((current / 10) * 10 <= current) by (nonlinear_arith)
        requires
            current >= 0,
    ;
    assert(power_limited * v <= p) by (nonlinear_arith)
        requires
            power_limited == p / v,
            v > 0,
            p >= 0,
    ;
    assert(c * 10 * v <= current * v) by (nonlinear_arith)
        requires
            c * 10 <= current,
            v > 0,
    ;
    assert(current * v <= power_limited * v) by (nonlinear_arith)
        requires
            current <= power_limited,
            v > 0,
    ;
}

/// Local I2C register driver state: its address and the register bank it
/// believes is selected. Construct it only where the base bank is known to
/// be active.
pub struct Sw3538 {
    address: u8,
    bank: Bank,
}

#[derive(Clone, Copy, Debug, PartialEq, Eq, Structural)]
pub enum Bank {
    Base,
    Extended,
    Unknown,
}

impl Sw3538 {
    pub closed spec fn spec_address(&self) -> u8 {
        self.address
    }

    pub closed spec fn spec_bank(&self) -> Bank {
        self.bank
    }

    pub fn assuming_base_bank(address: u8) -> (r: Self)
        ensures
            r.spec_address() == address,
            r.spec_bank() == Bank::Base,
    {
        Sw3538 { address, bank: Bank::Base }
    }

    pub fn address(&self) -> (r: u8)
        ensures
            r == self.spec_address(),
    {
        self.address
    }

    /// Declares the base bank active again; the bus owner calls this only
    /// once it has separately established that this is so.
    pub fn assume_base_bank(&mut self)
        ensures
            final(self).spec_address() == old(self).spec_address(),
            final(self).spec_bank() == Bank::Base,
    {
        self.bank = Bank::Base;
    }
}

/// `current_10ma` is what a PDO at `voltage_mv` may offer under `limits`:
/// the lower of the current limit and the power limit at that voltage,
/// in whole 10 mA steps rounded down, or the 10-bit register maximum when
/// that is lower still.
pub open spec fn offers_at(current_10ma: u16, limits: PdLimits, voltage_mv: int) -> bool {
    let power_ma = limits.max_power_mw * 1000 / voltage_mv;
    let allowed_ma = if limits.max_current_ma <= power_ma {
        limits.max_current_ma as int
    } else {
        power_ma
    };
    &&& current_10ma <= 0x3FF
    &&& current_10ma * 10 <= allowed_ma
    &&& (current_10ma == 0x3FF || allowed_ma < current_10ma * 10 + 10)
}

proof fn lemma_pdo_current_offers(limits: PdLimits, v: int)
    requires
        v > 0,
    ensures
        offers_at(pdo_current_10ma(limits, v), limits, v),
{
    let power_ma = limits.max_power_mw * 1000 / v;
    assert(power_ma >= 0) by (nonlinear_arith)
        requires
            power_ma == limits.max_power_mw * 1000 / v,
            v > 0,
            limits.max_power_mw >= 0,
    ;
    let allowed: int = if limits.max_current_ma <= power_ma {
        limits.max_current_ma as int
    } else {
        power_ma
    };
    let q = allowed / 10;
    assert(q * 10 <= allowed && allowed < q * 10 + 10) by (nonlinear_arith)
        requires
            q == allowed / 10,
            allowed >= 0,
    ;
}

proof fn lemma_voltage_bits(a: u8, b: u8, c: u8, d: u8)
    requires
        a == 0 || a == (1u8 << 0u8),
        b == 0 || b == (1u8 << 1u8),
        c == 0 || c == (1u8 << 2u8),
        d == 0 || d == (1u8 << 3u8),
    ensures
        ((a | b | c | d) & 1 != 0) == (a != 0),
        ((a | b | c | d) & 2 != 0) == (b != 0),
        ((a | b | c | d) & 4 != 0) == (c != 0),
        ((a | b | c | d) & 8 != 0) == (d != 0),
        (a | b | c | d) & 0xF0 == 0,
        (1u8 << 0u8) != 0 && (1u8 << 1u8) != 0 && (1u8 << 2u8) != 0 && (1u8 << 3u8) != 0,
{
    assert((1u8 << 0u8) != 0 && (1u8 << 1u8) != 0 && (1u8 << 2u8) != 0 && (1u8 << 3u8) != 0 && ((a | b | c | d) & 1 != 0) == (a != 0) && ((a | b | c | d) & 2 != 0) == (b != 0) && ((a | b | c
        | d) & 4 != 0) == (c != 0) && ((a | b | c | d) & 8 != 0) == (d != 0) && (a | b | c | d) & 0xF0
        == 0) by (bit_vector)
        requires
            a == 0 || a == (1u8 << 0u8),
            b == 0 || b == (1u8 << 1u8),
            c == 0 || c == (1u8 << 2u8),
            d == 0 || d == (1u8 << 3u8),
    ;
}

/// An enabled policy's plan offers 5 V and exactly the fixed voltages of
/// 9, 12, 15 and 20 V that its voltage limit allows (bits 0 to 3), each at
/// the current that its current and power limits allow; a voltage above
/// the limit is offered no current.
pub proof fn lemma_fixed_pdo_plan_offers_every_allowed_voltage(policy: CarrierPolicy)
    requires
        spec_fixed_pdo_plan(policy) is Ok,
        policy.enabled,
    ensures
        ({
            let plan = spec_fixed_pdo_plan(policy)->Ok_0;
            let limits = policy.pd_limits->Some_0;
            &&& plan.pd_enabled
            &&& (plan.enabled_voltage_bits & 1 != 0) == (limits.max_voltage_mv >= 9_000)
            &&& (plan.enabled_voltage_bits & 2 != 0) == (limits.max_voltage_mv >= 12_000)
            &&& (plan.enabled_voltage_bits & 4 != 0) == (limits.max_voltage_mv >= 15_000)
            &&& (plan.enabled_voltage_bits & 8 != 0) == (limits.max_voltage_mv >= 20_000)
            &&& plan.enabled_voltage_bits & 0xF0 == 0
            &&& offers_at(plan.current_5v_10ma, limits, 5_000)
            &&& if limits.max_voltage_mv >= 9_000 {
                offers_at(plan.current_9v_10ma, limits, 9_000)
            } else {
                plan.current_9v_10ma == 0
            }
            &&& if limits.max_voltage_mv >= 12_000 {
                offers_at(plan.current_12v_10ma, limits, 12_000)
            } else {
                plan.current_12v_10ma == 0
            }
            &&& if limits.max_voltage_mv >= 15_000 {
                offers_at(plan.current_15v_10ma, limits, 15_000)
            } else {
                plan.current_15v_10ma == 0
            }
            &&& if limits.max_voltage_mv >= 20_000 {
                offers_at(plan.current_20v_10ma, limits, 20_000)
            } else {
                plan.current_20v_10ma == 0
            }
        }),
{
    let limits = policy.pd_limits->Some_0;
    lemma_pdo_current_offers(limits, 5_000);
    lemma_pdo_current_offers(limits, 9_000);
    lemma_pdo_current_offers(limits, 12_000);
    lemma_pdo_current_offers(limits, 15_000);
    lemma_pdo_current_offers(limits, 20_000);
    lemma_voltage_bits(
        voltage_bit(limits, 9_000, 0),
        voltage_bit(limits, 12_000, 1),
        voltage_bit(limits, 15_000, 2),
        voltage_bit(limits, 20_000, 3),
    );
}

} // verus!