use vstd::prelude::*;

use crate::types::NodeId;

verus! {

/// The number of logical ports a backpack addresses.
pub const MAX_PORTS: usize = 8;

/// A logical port in `0..8`.
#[derive(Clone, Copy, Debug, PartialEq, Eq, Structural)]
pub struct PortId(u8);

#[derive(Clone, Copy, Debug, PartialEq, Eq, Structural)]
pub struct InvalidPortId(pub u8);

impl PortId {
    pub const MIN: u8 = 0;
    pub const MAX: u8 = 7;

    pub closed spec fn spec_new(value: u8) -> PortId {
        PortId(value)
    }

    pub closed spec fn spec_get(self) -> u8 {
        self.0
    }

    pub broadcast proof fn lemma_new_get(value: u8)
        ensures
            #[trigger] PortId::spec_new(value).spec_get() == value,
    {
    }

    pub broadcast proof fn lemma_get_new(id: PortId)
        ensures
            PortId::spec_new(#[trigger] id.spec_get()) == id,
    {
    }

    #[verifier::type_invariant]
    spec fn in_range(self) -> bool {
        self.0 < 8
    }

    pub fn new(value: u8) -> (r: Result<PortId, InvalidPortId>)
        ensures
            r == (if value < 8 {
                Ok::<PortId, InvalidPortId>(PortId::spec_new(value))
            } else {
                Err(InvalidPortId(value))
            }),
    {
        if value <= Self::MAX {
            Ok(PortId(value))
        } else {
            Err(InvalidPortId(value))
        }
    }

    pub fn get(self) -> (r: u8)
        ensures
            r == self.spec_get(),
            r < 8,
    {
        proof {
            use_type_invariant(&self);
        }
        self.0
    }

    pub fn index(self) -> (r: usize)
        ensures
            r == self.spec_get(),
            r < 8,
    {
        proof {
            use_type_invariant(&self);
        }
        self.0 as usize
    }
}

/// Whether bit `p` of `bits` is set.
pub open spec fn has_bit(bits: u8, p: int) -> bool {
    (bits >> (p as u8)) & 1 == 1
}

/// `bits` with bit `p` set.
pub open spec fn with_bit(bits: u8, p: int) -> u8 {
    bits | (1u8 << (p as u8))
}

/// `bits` with bit `p` clear.
pub open spec fn without_bit(bits: u8, p: int) -> u8 {
    bits & !(1u8 << (p as u8))
}

pub proof fn lemma_bits(bits: u8, p: u8, q: u8)
    by (bit_vector)
    requires
        p < 8,
        q < 8,
    ensures
        ((bits | (1u8 << p)) >> q) & 1 == 1 <==> (q == p || (bits >> q) & 1 == 1),
        ((bits & !(1u8 << p)) >> q) & 1 == 1 <==> (q != p && (bits >> q) & 1 == 1),
        (0u8 >> q) & 1 != 1,
{
}

/// A set of ports, one bit per port.
#[derive(Clone, Copy, Debug, PartialEq, Eq, Structural)]
pub struct PortBitmap(u8);

impl View for PortBitmap {
    type V = u8;

    closed spec fn view(&self) -> u8 {
        self.0
    }
}

impl PortBitmap {
    pub fn empty() -> (r: Self)
        ensures
            r@ == 0,
    {
        PortBitmap(0)
    }

    pub fn from_bits(bits: u8) -> (r: Self)
        ensures
            r@ == bits,
    {
        PortBitmap(bits)
    }

    pub fn bits(self) -> (r: u8)
        ensures
            r == self@,
    {
        self.0
    }

    pub fn contains(self, port: PortId) -> (r: bool)
        ensures
            r == has_bit(self@, port.spec_get() as int),
    {
        let p = port.get();
        (self.0 >> p) & 1 == 1
    }

    pub fn insert(&mut self, port: PortId)
        ensures
            final(self)@ == with_bit(old(self)@, port.spec_get() as int),
    {
        let p = port.get();
        self.0 = self.0 | (1u8 << p);
    }

    pub fn remove(&mut self, port: PortId)
        ensures
            final(self)@ == without_bit(old(self)@, port.spec_get() as int),
    {
        let p = port.get();
        self.0 = self.0 & !(1u8 << p);
    }
}

/// The USB-PD limits and switch state of one port.
#[derive(Clone, Copy, Debug, PartialEq, Eq, Structural)]
pub struct PortPolicy {
    pub enabled: bool,
    pub max_voltage_mv: u16,
    pub max_current_ma: u16,
    pub max_power_mw: u32,
}

#[derive(Clone, Copy, Debug, PartialEq, Eq, Structural)]
pub enum PolicyValidationError {
    VoltageOutOfRange,
    CurrentTooHigh,
    PowerOutOfRange,
}

/// Whether a policy lies within what the SW3538 may be asked for: 1 mV to
/// 20 V, 1 mA to 5 A and 1 mW to 100 W.
pub open spec fn spec_policy_check(p: PortPolicy) -> Result<PortPolicy, PolicyValidationError> {
    if p.max_voltage_mv == 0 || p.max_voltage_mv > 20_000 {
        Err(PolicyValidationError::VoltageOutOfRange)
    } else if p.max_current_ma == 0 || p.max_current_ma > 5_000 {
        Err(PolicyValidationError::CurrentTooHigh)
    } else if p.max_power_mw == 0 || p.max_power_mw > 100_000 {
        Err(PolicyValidationError::PowerOutOfRange)
    } else {
        Ok(p)
    }
}

impl PortPolicy {
    /// A switched-off port with the SW3538's full limits.
    #[allow(non_snake_case)]
    pub fn SAFE_DISABLED() -> (r: PortPolicy)
        ensures
            r == (PortPolicy {
                enabled: false,
                max_voltage_mv: 20_000,
                max_current_ma: 5_000,
                max_power_mw: 100_000,
            }),
    {
        PortPolicy { enabled: false, max_voltage_mv: 20_000, max_current_ma: 5_000, max_power_mw: 100_000 }
    }

    pub fn validate(self) -> (r: Result<PortPolicy, PolicyValidationError>)
        ensures
            r == spec_policy_check(self),
    {
        if self.max_voltage_mv == 0 || self.max_voltage_mv > 20_000 {
            Err(PolicyValidationError::VoltageOutOfRange)
        } else if self.max_current_ma == 0 || self.max_current_ma > 5_000 {
            Err(PolicyValidationError::CurrentTooHigh)
        } else if self.max_power_mw == 0 || self.max_power_mw > 100_000 {
            Err(PolicyValidationError::PowerOutOfRange)
        } else {
            Ok(self)
        }
    }
}

/// How the backpack's fan is wired.
#[derive(Clone, Copy, Debug, PartialEq, Eq, Structural)]
pub enum FanMode {
    ThreeWire,
    FourWire,
}

/// The fan's wiring and its requested duty.
#[derive(Clone, Copy, Debug, PartialEq, Eq, Structural)]
pub struct FanConfig {
    pub mode: FanMode,
    pub duty_percent: u8,
}

#[derive(Clone, Copy, Debug, PartialEq, Eq, Structural)]
pub struct InvalidFanDuty(pub u8);

impl FanConfig {
    pub fn validate(self) -> (r: Result<FanConfig, InvalidFanDuty>)
        ensures
            r == (if self.duty_percent <= 100 {
                Ok::<FanConfig, InvalidFanDuty>(self)
            } else {
                Err(InvalidFanDuty(self.duty_percent))
            }),
    {
        if self.duty_percent <= 100 {
            Ok(self)
        } else {
            Err(InvalidFanDuty(self.duty_percent))
        }
    }
}

/// A settings revision: the count of mutations requested, wrapping.
#[derive(Clone, Copy, Debug, PartialEq, Eq, Structural)]
pub struct ConfigRevision(pub u32);

/// The identity of one dispatched hardware operation.
#[derive(Clone, Copy, Debug, PartialEq, Eq, Structural)]
pub struct OperationId(pub u32);

/// How many times a slot's module has been invalidated, wrapping.
#[derive(Clone, Copy, Debug, PartialEq, Eq, Structural)]
pub struct SlotEpoch(pub u32);

/// What a backpack keeps in flash.
#[derive(Clone, Copy, Debug, PartialEq, Eq)]
pub struct PersistentSettings {
    pub node_id: Option<NodeId>,
    pub port_policy: [PortPolicy; 8],
    pub fan: FanConfig,
    pub emergency_latched: bool,
}

impl PersistentSettings {
    /// No address, every port off at the SW3538's limits, the fan at full
    /// speed in three-wire mode, no emergency.
    #[allow(non_snake_case)]
    pub fn FACTORY_DEFAULT() -> (r: PersistentSettings)
        ensures
            r.node_id is None,
            forall|i: int| 0 <= i < 8 ==> r.port_policy@[i] == (PortPolicy {
                enabled: false,
                max_voltage_mv: 20_000,
                max_current_ma: 5_000,
                max_power_mw: 100_000,
            }),
            r.fan == (FanConfig { mode: FanMode::ThreeWire, duty_percent: 100 }),
            !r.emergency_latched,
    {
        PersistentSettings {
            node_id: None,
            port_policy: [PortPolicy::SAFE_DISABLED(); 8usize],
            fan: FanConfig { mode: FanMode::ThreeWire, duty_percent: 100 },
            emergency_latched: false,
        }
    }
}

/// The two backpack board revisions.
#[derive(Clone, Copy, Debug, PartialEq, Eq, Structural)]
pub enum HardwareRevision {
    RevA,
    RevB,
}

/// What a board revision provides: which ports exist, the multiplexer
/// channel of each and, on boards with input-power gates, each port's gate
/// bit.
#[derive(Clone, Copy, Debug, PartialEq, Eq)]
pub struct BoardDefinition {
    pub hardware_revision: HardwareRevision,
    pub supported_ports: PortBitmap,
    pub mux_channel_by_port: [Option<u8>; 8],
    pub power_gate_bit_by_port: [Option<u8>; 8],
    pub default_fan_mode: FanMode,
}

impl BoardDefinition {
    pub open spec fn spec_supports(self, p: int) -> bool {
        has_bit(self.supported_ports@, p)
    }

    pub open spec fn spec_mux_channel(self, p: int) -> Option<u8> {
        if self.spec_supports(p) {
            self.mux_channel_by_port@[p]
        } else {
            None
        }
    }

    pub open spec fn spec_gate_bit(self, p: int) -> Option<u8> {
        if self.spec_supports(p) {
            self.power_gate_bit_by_port@[p]
        } else {
            None
        }
    }

    pub open spec fn spec_gated(self, p: int) -> bool {
        self.spec_gate_bit(p) is Some
    }

    pub open spec fn spec_has_power_gates(self) -> bool {
        exists|p: int| 0 <= p < 8 && #[trigger] self.spec_gated(p)
    }

    /// One bit per gated port below `n`, at that port's output bit.
    pub open spec fn spec_gate_mask_below(self, n: int) -> u8
        decreases n,
    {
        if n <= 0 {
            0
        } else {
            let below = self.spec_gate_mask_below(n - 1);
            match self.spec_gate_bit(n - 1) {
                Some(bit) => if bit < 8 {
                    below | (1u8 << bit)
                } else {
                    below
                },
                None => below,
            }
        }
    }

    pub fn supports(self, port: PortId) -> (r: bool)
        ensures
            r == self.spec_supports(port.spec_get() as int),
    {
        self.supported_ports.contains(port)
    }

    pub fn mux_channel(self, port: PortId) -> (r: Option<u8>)
        ensures
            r == self.spec_mux_channel(port.spec_get() as int),
    {
        if self.supports(port) {
            self.mux_channel_by_port[port.index()]
        } else {
            None
        }
    }

    pub fn power_gate_bit(self, port: PortId) -> (r: Option<u8>)
        ensures
            r == self.spec_gate_bit(port.spec_get() as int),
    {
        if self.supports(port) {
            self.power_gate_bit_by_port[port.index()]
        } else {
            None
        }
    }

    pub fn has_power_gates(self) -> (r: bool)
        ensures
            r == self.spec_has_power_gates(),
    {
        let mut raw: u8 = 0;
        while raw < 8
            invariant
                raw <= 8,
                forall|p: int| 0 <= p < raw ==> !self.spec_gated(p),
            decreases 8 - raw,
        {
            let port = PortId::new(raw).unwrap();
            proof {
                PortId::lemma_new_get(raw);
            }
            if self.power_gate_bit(port).is_some() {
                assert(self.spec_gated(raw as int));
                return true;
            }
            raw = raw + 1;
        }
        false
    }

    /// One bit per gated port, at that port's output bit: the outputs that
    /// the power expander drives.
    pub fn power_gate_mask(self) -> (r: u8)
        ensures
            r == self.spec_gate_mask_below(8),
    {
        let mut mask: u8 = 0;
        let mut raw: u8 = 0;
        while raw < 8
            invariant
                raw <= 8,
                mask == self.spec_gate_mask_below(raw as int),
            decreases 8 - raw,
        {
            let port = PortId::new(raw).unwrap();
            proof {
                PortId::lemma_new_get(raw);
            }
            match self.power_gate_bit(port) {
                Some(bit) => {
                    if bit < 8 {
                        mask = mask | (1u8 << bit);
                    }
                },
                None => {},
            }
            raw = raw + 1;
        }
        mask
    }
}

pub broadcast group group_port_lemmas {
    PortId::lemma_new_get,
    PortId::lemma_get_new,
}

/// A port policy is accepted exactly when its voltage is 1 mV to 20 V, its
/// current 1 mA to 5 A and its power 1 mW to 100 W, and is then kept as
/// given; a current above 5 A with a valid voltage is refused as
/// `CurrentTooHigh`.
pub proof fn lemma_port_policy_accepted_within_sw3538_range(p: PortPolicy)
    ensures
        spec_policy_check(p) is Ok <==> (1 <= p.max_voltage_mv <= 20_000 && 1 <= p.max_current_ma <= 5_000 && 1
            <= p.max_power_mw <= 100_000),
        spec_policy_check(p) is Ok ==> spec_policy_check(p) == Ok::<PortPolicy, PolicyValidationError>(p),
        (1 <= p.max_voltage_mv <= 20_000 && p.max_current_ma > 5_000) ==> spec_policy_check(p) == Err::<
            PortPolicy,
            PolicyValidationError,
        >(PolicyValidationError::CurrentTooHigh),
{
}

} // verus!