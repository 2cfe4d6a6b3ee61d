//! Identifiers, descriptors and value types shared by every node of the
//! power-distribution bus.
use vstd::prelude::*;

verus! {

pub const SHA256_DIGEST_LENGTH: usize = 32;
pub const BACKPLANE_FAN_COUNT: usize = 2;

/// An operational node address in `1..=0xFE`.
#[derive(Clone, Copy, Debug, PartialEq, Eq, Structural)]
pub struct NodeId(u8);

impl NodeId {
    pub const MIN: u8 = 1;
    pub const MAX: u8 = 0xFE;

    pub closed spec fn spec_new(value: u8) -> NodeId {
        NodeId(value)
    }

    pub closed spec fn spec_get(self) -> u8 {
        self.0
    }

    pub open spec fn valid_raw(value: u8) -> bool {
        1 <= value <= 0xFE
    }

    pub broadcast proof fn lemma_new_get(value: u8)
        ensures
            #[trigger] NodeId::spec_new(value).spec_get() == value,
    {
    }

    pub broadcast proof fn lemma_get_new(id: NodeId)
        ensures
            NodeId::spec_new(#[trigger] id.spec_get()) == id,
    {
    }

    pub fn new(value: u8) -> (r: Result<NodeId, InvalidNodeId>)
        ensures
            r == (if NodeId::valid_raw(value) {
                Ok::<NodeId, InvalidNodeId>(NodeId::spec_new(value))
            } else {
                Err(InvalidNodeId(value))
            }),
    {
        if value >= Self::MIN && value <= Self::MAX {
            Ok(NodeId(value))
        } else {
            Err(InvalidNodeId(value))
        }
    }

    pub fn get(self) -> (r: u8)
        ensures
            r == self.spec_get(),
            NodeId::valid_raw(r),
    {
        proof {
            use_type_invariant(&self);
        }
        self.0
    }

    /// Every node address is operational: neither broadcast nor invalid.
    #[verifier::type_invariant]
    spec fn operational(self) -> bool {
        NodeId::valid_raw(self.0)
    }
}

#[derive(Clone, Copy, Debug, PartialEq, Eq, Structural)]
pub struct InvalidNodeId(pub u8);

/// The STM32 factory-programmed 96-bit unique device identifier.
#[derive(Clone, Copy, Debug, PartialEq, Eq, PartialOrd, Ord, Hash)]
pub struct NodeUid([u8; 12]);

impl NodeUid {
    pub const LENGTH: usize = 12;

    pub closed spec fn spec_new(bytes: [u8; 12]) -> NodeUid {
        NodeUid(bytes)
    }

    /// The twelve identifier bytes.
    pub closed spec fn spec_bytes(self) -> Seq<u8> {
        self.0@
    }

    pub broadcast proof fn lemma_bytes(bytes: [u8; 12])
        ensures
            #[trigger] NodeUid::spec_new(bytes).spec_bytes() == bytes@,
    {
    }

    pub broadcast proof fn lemma_len(uid: NodeUid)
        ensures
            (#[trigger] uid.spec_bytes()).len() == 12,
    {
    }

    /// Two identifiers with the same bytes are the same identifier.
    pub broadcast proof fn lemma_ext(a: NodeUid, b: NodeUid)
        requires
            #[trigger] a.spec_bytes() == #[trigger] b.spec_bytes(),
        ensures
            a == b,
    {
        assert(forall|i: int| 0 <= i < 12 ==> a.0[i] == b.0[i]);
        assert(a.0 =~= b.0);
    }

    pub fn from_bytes(bytes: [u8; 12]) -> (r: NodeUid)
        ensures
            r == NodeUid::spec_new(bytes),
            r.spec_bytes() == bytes@,
    {
        NodeUid(bytes)
    }

    pub fn to_bytes(self) -> (r: [u8; 12])
        ensures
            r@ == self.spec_bytes(),
    {
        self.0
    }

    pub fn as_bytes(&self) -> (r: &[u8; 12])
        ensures
            r@ == self.spec_bytes(),
    {
        &self.0
    }

    /// Byte-wise identity of two identifiers.
    pub fn same_as(&self, other: &NodeUid) -> (r: bool)
        ensures
            r == (*self == *other),
    {
        let mut i: usize = 0;
        while i < 12
            invariant
                i <= 12,
                forall|j: int| 0 <= j < i ==> self.0@[j] == other.0@[j],
            decreases 12 - i,
        {
            if self.0[i] != other.0[i] {
                proof {
                    if *self == *other {
                        assert(self.0@[i as int] == other.0@[i as int]);
                    }
                }
                return false;
            }
            i = i + 1;
        }
        proof {
            assert(self.0 =~= other.0);
        }
        true
    }
}

/// A 4-bit requester number; zero is reserved for protocol-originated traffic.
#[derive(Clone, Copy, Debug, PartialEq, Eq, PartialOrd, Ord, Structural)]
pub struct RequesterId(u8);

impl RequesterId {
    pub const MAX: u8 = 15;

    pub closed spec fn spec_new(value: u8) -> RequesterId {
        RequesterId(value)
    }

    pub closed spec fn spec_get(self) -> u8 {
        self.0
    }

    pub broadcast proof fn lemma_new_get(value: u8)
        ensures
            #[trigger] RequesterId::spec_new(value).spec_get() == value,
    {
    }

    pub broadcast proof fn lemma_get_new(id: RequesterId)
        ensures
            RequesterId::spec_new(#[trigger] id.spec_get()) == id,
    {
    }

    /// The reserved requester of protocol-originated traffic.
    #[allow(non_snake_case)]
    pub fn PROTOCOL() -> (r: RequesterId)
        ensures
            r == RequesterId::spec_new(0),
    {
        RequesterId(0)
    }

    /// The requester used by the host tool unless told otherwise.
    #[allow(non_snake_case)]
    pub fn PDCAN_DEFAULT() -> (r: RequesterId)
        ensures
            r == RequesterId::spec_new(15),
    {
        RequesterId(15)
    }

    pub fn new(value: u8) -> (r: Result<RequesterId, InvalidRequesterId>)
        ensures
            r == (if value <= 15 {
                Ok::<RequesterId, InvalidRequesterId>(RequesterId::spec_new(value))
            } else {
                Err(InvalidRequesterId(value))
            }),
    {
        if value <= Self::MAX {
            Ok(RequesterId(value))
        } else {
            Err(InvalidRequesterId(value))
        }
    }

    pub fn get(self) -> (r: u8)
        ensures
            r == self.spec_get(),
            r <= 15,
    {
        proof {
            use_type_invariant(&self);
        }
        self.0
    }

    /// A requester number has four bits.
    #[verifier::type_invariant]
    spec fn four_bits(self) -> bool {
        self.0 <= 15
    }

    pub fn is_protocol_reserved(self) -> (r: bool)
        ensures
            r == (self.spec_get() == 0),
    {
        self.0 == 0
    }
}

#[derive(Clone, Copy, Debug, PartialEq, Eq, Structural)]
pub struct InvalidRequesterId(pub u8);

#[derive(Clone, Copy, Debug, PartialEq, Eq, PartialOrd, Ord, Structural)]
pub struct RequestId(pub u64);

#[derive(Clone, Copy, Debug, PartialEq, Eq, PartialOrd, Ord, Structural)]
pub struct UpdateSessionId(pub u32);

#[derive(Clone, Copy, Debug, PartialEq, Eq, Structural)]
pub enum CommissioningState {
    Uncommissioned,
    Claiming,
    Commissioned,
    AddressConflict,
}

impl CommissioningState {
    /// The wire code of this value.
    pub open spec fn spec_code(self) -> u8 {
        match self {
            CommissioningState::Uncommissioned => 0,
            CommissioningState::Claiming => 1,
            CommissioningState::Commissioned => 2,
            CommissioningState::AddressConflict => 3,
        }
    }

    /// The value whose wire code is `value`, if there is one.
    pub open spec fn from_code(value: u8) -> Option<CommissioningState> {
        if value == 0 {
            Some(CommissioningState::Uncommissioned)
        } else if value == 1 {
            Some(CommissioningState::Claiming)
        } else if value == 2 {
            Some(CommissioningState::Commissioned)
        } else if value == 3 {
            Some(CommissioningState::AddressConflict)
        } else {
            None
        }
    }

    pub fn code(self) -> (r: u8)
        ensures
            r == self.spec_code(),
            CommissioningState::from_code(r) == Some(self),
    {
        match self {
            CommissioningState::Uncommissioned => 0,
            CommissioningState::Claiming => 1,
            CommissioningState::Commissioned => 2,
            CommissioningState::AddressConflict => 3,
        }
    }

    pub fn try_from(value: u8) -> (r: Result<CommissioningState, InvalidCommissioningState>)
        ensures
            r == (match CommissioningState::from_code(value) {
                Some(v) => Ok::<CommissioningState, InvalidCommissioningState>(v),
                None => Err(InvalidCommissioningState(value)),
            }),
    {
        match value {
            0 => Ok(CommissioningState::Uncommissioned),
            1 => Ok(CommissioningState::Claiming),
            2 => Ok(CommissioningState::Commissioned),
            3 => Ok(CommissioningState::AddressConflict),
            _ => Err(InvalidCommissioningState(value)),
        }
    }
}

#[derive(Clone, Copy, Debug, PartialEq, Eq, Structural)]
pub struct InvalidCommissioningState(pub u8);

#[derive(Clone, Copy, Debug, PartialEq, Eq, Structural)]
pub enum NodeRole {
    Backplane,
    Carrier,
}

impl NodeRole {
    /// The wire code of this value.
    pub open spec fn spec_code(self) -> u8 {
        match self {
            NodeRole::Backplane => 1,
            NodeRole::Carrier => 2,
        }
    }

    /// The value whose wire code is `value`, if there is one.
    pub open spec fn from_code(value: u8) -> Option<NodeRole> {
        if value == 1 {
            Some(NodeRole::Backplane)
        } else if value == 2 {
            Some(NodeRole::Carrier)
        } else {
            None
        }
    }

    pub fn code(self) -> (r: u8)
        ensures
            r == self.spec_code(),
            NodeRole::from_code(r) == Some(self),
    {
        match self {
            NodeRole::Backplane => 1,
            NodeRole::Carrier => 2,
        }
    }

    pub fn try_from(value: u8) -> (r: Result<NodeRole, InvalidNodeRole>)
        ensures
            r == (match NodeRole::from_code(value) {
                Some(v) => Ok::<NodeRole, InvalidNodeRole>(v),
                None => Err(InvalidNodeRole(value)),
            }),
    {
        match value {
            1 => Ok(NodeRole::Backplane),
            2 => Ok(NodeRole::Carrier),
            _ => Err(InvalidNodeRole(value)),
        }
    }
}

#[derive(Clone, Copy, Debug, PartialEq, Eq, Structural)]
pub struct InvalidNodeRole(pub u8);

#[derive(Clone, Copy, Debug, PartialEq, Eq, Structural)]
pub enum CarrierProfile {
    Sw3538,
    Basic,
    Accessory,
    HighPower240W,
}

impl CarrierProfile {
    /// The wire code of this value.
    pub open spec fn spec_code(self) -> u8 {
        match self {
            CarrierProfile::Sw3538 => 1,
            CarrierProfile::Basic => 2,
            CarrierProfile::Accessory => 3,
            CarrierProfile::HighPower240W => 4,
        }
    }

    /// The value whose wire code is `value`, if there is one.
    pub open spec fn from_code(value: u8) -> Option<CarrierProfile> {
        if value == 1 {
            Some(CarrierProfile::Sw3538)
        } else if value == 2 {
            Some(CarrierProfile::Basic)
        } else if value == 3 {
            Some(CarrierProfile::Accessory)
        } else if value == 4 {
            Some(CarrierProfile::HighPower240W)
        } else {
            None
        }
    }

    pub fn code(self) -> (r: u8)
        ensures
            r == self.spec_code(),
            CarrierProfile::from_code(r) == Some(self),
    {
        match self {
            CarrierProfile::Sw3538 => 1,
            CarrierProfile::Basic => 2,
            CarrierProfile::Accessory => 3,
            CarrierProfile::HighPower240W => 4,
        }
    }

    pub fn try_from(value: u8) -> (r: Result<CarrierProfile, InvalidCarrierProfile>)
        ensures
            r == (match CarrierProfile::from_code(value) {
                Some(v) => Ok::<CarrierProfile, InvalidCarrierProfile>(v),
                None => Err(InvalidCarrierProfile(value)),
            }),
    {
        match value {
            1 => Ok(CarrierProfile::Sw3538),
            2 => Ok(CarrierProfile::Basic),
            3 => Ok(CarrierProfile::Accessory),
            4 => Ok(CarrierProfile::HighPower240W),
            _ => Err(InvalidCarrierProfile(value)),
        }
    }
}

#[derive(Clone, Copy, Debug, PartialEq, Eq, Structural)]
pub struct InvalidCarrierProfile(pub u8);

/// Whether activating an update preserves the declared service (`Live`) or may interrupt it (`Interrupt`).
#[derive(Clone, Copy, Debug, PartialEq, Eq, Structural)]
pub enum UpdateImpact {
    Live,
    Interrupt,
}

impl UpdateImpact {
    /// The wire code of this value.
    pub open spec fn spec_code(self) -> u8 {
        match self {
            UpdateImpact::Live => 1,
            UpdateImpact::Interrupt => 2,
        }
    }

    /// The value whose wire code is `value`, if there is one.
    pub open spec fn from_code(value: u8) -> Option<UpdateImpact> {
        if value == 1 {
            Some(UpdateImpact::Live)
        } else if value == 2 {
            Some(UpdateImpact::Interrupt)
        } else {
            None
        }
    }

    pub fn code(self) -> (r: u8)
        ensures
            r == self.spec_code(),
            UpdateImpact::from_code(r) == Some(self),
    {
        match self {
            UpdateImpact::Live => 1,
            UpdateImpact::Interrupt => 2,
        }
    }

    pub fn try_from(value: u8) -> (r: Result<UpdateImpact, InvalidUpdateImpact>)
        ensures
            r == (match UpdateImpact::from_code(value) {
                Some(v) => Ok::<UpdateImpact, InvalidUpdateImpact>(v),
                None => Err(InvalidUpdateImpact(value)),
            }),
    {
        match value {
            1 => Ok(UpdateImpact::Live),
            2 => Ok(UpdateImpact::Interrupt),
            _ => Err(InvalidUpdateImpact(value)),
        }
    }
}

#[derive(Clone, Copy, Debug, PartialEq, Eq, Structural)]
pub struct InvalidUpdateImpact(pub u8);

/// Capability bits are the behavioral contract. Profile names identify
/// hardware but must not be used as a substitute for capability discovery.
#[derive(Clone, Copy, Debug, Default, PartialEq, Eq, Structural)]
pub struct CapabilityFlags(u64);

impl CapabilityFlags {
    pub closed spec fn spec_from_bits(bits: u64) -> CapabilityFlags {
        CapabilityFlags(bits)
    }

    pub closed spec fn spec_bits(self) -> u64 {
        self.0
    }

    pub broadcast proof fn lemma_from_bits(bits: u64)
        ensures
            #[trigger] CapabilityFlags::spec_from_bits(bits).spec_bits() == bits,
    {
    }

    pub broadcast proof fn lemma_bits_from(flags: CapabilityFlags)
        ensures
            CapabilityFlags::spec_from_bits(#[trigger] flags.spec_bits()) == flags,
    {
    }

    pub open spec fn spec_contains(self, required: CapabilityFlags) -> bool {
        self.spec_bits() & required.spec_bits() == required.spec_bits()
    }

    #[allow(non_snake_case)]
    pub fn NONE() -> (r: Self)
        ensures
            r.spec_bits() == 0,
    {
        CapabilityFlags(0)
    }

    #[allow(non_snake_case)]
    pub fn SWITCHABLE_OUTPUT() -> (r: Self)
        ensures
            r.spec_bits() == 1,
    {
        CapabilityFlags(1)
    }

    #[allow(non_snake_case)]
    pub fn LOAD_MONITORING() -> (r: Self)
        ensures
            r.spec_bits() == 2,
    {
        CapabilityFlags(2)
    }

    #[allow(non_snake_case)]
    pub fn USB_PD_CONTROL() -> (r: Self)
        ensures
            r.spec_bits() == 4,
    {
        CapabilityFlags(4)
    }

    #[allow(non_snake_case)]
    pub fn USB_PD_STATUS() -> (r: Self)
        ensures
            r.spec_bits() == 8,
    {
        CapabilityFlags(8)
    }

    #[allow(non_snake_case)]
    pub fn FAN_CONTROL() -> (r: Self)
        ensures
            r.spec_bits() == 16,
    {
        CapabilityFlags(16)
    }

    #[allow(non_snake_case)]
    pub fn FAN_TACHOMETER() -> (r: Self)
        ensures
            r.spec_bits() == 32,
    {
        CapabilityFlags(32)
    }

    #[allow(non_snake_case)]
    pub fn INTERNAL_TEMPERATURE() -> (r: Self)
        ensures
            r.spec_bits() == 64,
    {
        CapabilityFlags(64)
    }

    #[allow(non_snake_case)]
    pub fn EXTERNAL_TEMPERATURE() -> (r: Self)
        ensures
            r.spec_bits() == 128,
    {
        CapabilityFlags(128)
    }

    #[allow(non_snake_case)]
    pub fn AUXILIARY_IO() -> (r: Self)
        ensures
            r.spec_bits() == 256,
    {
        CapabilityFlags(256)
    }

    #[allow(non_snake_case)]
    pub fn AGGREGATE_POWER() -> (r: Self)
        ensures
            r.spec_bits() == 512,
    {
        CapabilityFlags(512)
    }

    #[allow(non_snake_case)]
    pub fn USER_BUTTON() -> (r: Self)
        ensures
            r.spec_bits() == 1024,
    {
        CapabilityFlags(1024)
    }

    #[allow(non_snake_case)]
    pub fn FIRMWARE_UPDATE() -> (r: Self)
        ensures
            r.spec_bits() == 2048,
    {
        CapabilityFlags(2048)
    }

    pub fn from_bits_retain(bits: u64) -> (r: Self)
        ensures
            r == CapabilityFlags::spec_from_bits(bits),
    {
        CapabilityFlags(bits)
    }

    pub fn bits(self) -> (r: u64)
        ensures
            r == self.spec_bits(),
    {
        self.0
    }

    pub fn contains(self, required: Self) -> (r: bool)
        ensures
            r == self.spec_contains(required),
    {
        self.0 & required.0 == required.0
    }

    pub fn union(self, other: Self) -> (r: Self)
        ensures
            r.spec_bits() == self.spec_bits() | other.spec_bits(),
    {
        CapabilityFlags(self.0 | other.0)
    }
}

/// A board hardware revision; `0` and `0xFF` are reserved.
#[derive(Clone, Copy, Debug, PartialEq, Eq, PartialOrd, Ord, Structural)]
pub struct HardwareRevision(u8);

impl HardwareRevision {
    pub closed spec fn spec_new(value: u8) -> HardwareRevision {
        HardwareRevision(value)
    }

    pub closed spec fn spec_get(self) -> u8 {
        self.0
    }

    pub open spec fn valid_raw(value: u8) -> bool {
        value != 0 && value != 0xFF
    }

    pub broadcast proof fn lemma_new_get(value: u8)
        ensures
            #[trigger] HardwareRevision::spec_new(value).spec_get() == value,
    {
    }

    pub broadcast proof fn lemma_get_new(rev: HardwareRevision)
        ensures
            HardwareRevision::spec_new(#[trigger] rev.spec_get()) == rev,
    {
    }

    #[allow(non_snake_case)]
    pub fn REV_A() -> (r: Self)
        ensures
            r == HardwareRevision::spec_new(1),
    {
        HardwareRevision(1)
    }

    #[allow(non_snake_case)]
    pub fn SIMULATOR() -> (r: Self)
        ensures
            r == HardwareRevision::spec_new(0xFE),
    {
        HardwareRevision(0xFE)
    }

    pub fn new(value: u8) -> (r: Result<Self, InvalidHardwareRevision>)
        ensures
            r == (if HardwareRevision::valid_raw(value) {
                Ok::<HardwareRevision, InvalidHardwareRevision>(HardwareRevision::spec_new(value))
            } else {
                Err(InvalidHardwareRevision(value))
            }),
    {
        if value == 0 || value == 0xFF {
            Err(InvalidHardwareRevision(value))
        } else {
            Ok(HardwareRevision(value))
        }
    }

    pub fn get(self) -> (r: u8)
        ensures
            r == self.spec_get(),
            HardwareRevision::valid_raw(r),
    {
        proof {
            use_type_invariant(&self);
        }
        self.0
    }

    /// A revision is never one of the reserved values.
    #[verifier::type_invariant]
    spec fn not_reserved(self) -> bool {
        HardwareRevision::valid_raw(self.0)
    }
}

#[derive(Clone, Copy, Debug, PartialEq, Eq, Structural)]
pub struct InvalidHardwareRevision(pub u8);

#[derive(Clone, Copy, Debug, PartialEq, Eq, Structural)]
pub struct NodeDescriptor {
    pub role: NodeRole,
    pub carrier_profile: Option<CarrierProfile>,
    pub hardware_revision: HardwareRevision,
    pub capabilities: CapabilityFlags,
    /// Carrier profiles use this field to declare whether activation preserves
    /// their service. It is also reported by updateable backplanes.
    pub update_impact: UpdateImpact,
    pub output_count: u8,
    pub fan_count: u8,
    /// `0xFF` means that external sensor capacity is dynamically discovered.
    pub external_temperature_capacity: u8,
}

impl NodeDescriptor {
    /// The first rule that the descriptor breaks, in the order they are checked.
    pub open spec fn first_violation(self) -> Option<InvalidNodeDescriptor> {
        if self.role == NodeRole::Backplane && self.carrier_profile is Some {
            Some(InvalidNodeDescriptor::BackplaneHasCarrierProfile)
        } else if self.role == NodeRole::Carrier && self.carrier_profile is None {
            Some(InvalidNodeDescriptor::CarrierMissingProfile)
        } else if !(self.capabilities.spec_bits() & 2048 == 2048) {
            Some(InvalidNodeDescriptor::FirmwareUpdateRequired)
        } else if self.role == NodeRole::Backplane && self.output_count != 0 {
            Some(InvalidNodeDescriptor::BackplaneHasOutputs)
        } else if self.role == NodeRole::Carrier && self.fan_count != 0 {
            Some(InvalidNodeDescriptor::CarrierHasBackplaneFans)
        } else {
            None
        }
    }

    pub open spec fn spec_validate(self) -> Result<NodeDescriptor, InvalidNodeDescriptor> {
        match self.first_violation() {
            None => Ok(self),
            Some(e) => Err(e),
        }
    }

    pub fn validate(self) -> (r: Result<Self, InvalidNodeDescriptor>)
        ensures
            r == self.spec_validate(),
    {
        match (self.role, self.carrier_profile) {
            (NodeRole::Backplane, Some(_)) => {
                return Err(InvalidNodeDescriptor::BackplaneHasCarrierProfile);
            },
            (NodeRole::Carrier, None) => {
                return Err(InvalidNodeDescriptor::CarrierMissingProfile);
            },
            _ => {},
        }
        if !self.capabilities.contains(CapabilityFlags::FIRMWARE_UPDATE()) {
            return Err(InvalidNodeDescriptor::FirmwareUpdateRequired);
        }
        match self.role {
            NodeRole::Backplane => {
                if self.output_count != 0 {
                    return Err(InvalidNodeDescriptor::BackplaneHasOutputs);
                }
            },
            NodeRole::Carrier => {
                if self.fan_count != 0 {
                    return Err(InvalidNodeDescriptor::CarrierHasBackplaneFans);
                }
            },
        }
        Ok(self)
    }
}

#[derive(Clone, Copy, Debug, PartialEq, Eq, Structural)]
pub enum InvalidNodeDescriptor {
    BackplaneHasCarrierProfile,
    CarrierMissingProfile,
    FirmwareUpdateRequired,
    BackplaneHasOutputs,
    CarrierHasBackplaneFans,
}

#[derive(Clone, Copy, Debug, PartialEq, Eq, Structural)]
pub struct FirmwareVersion {
    pub major: u16,
    pub minor: u16,
    pub patch: u16,
}

impl FirmwareVersion {
    #[allow(non_snake_case)]
    pub fn ZERO() -> (r: Self)
        ensures
            r == (FirmwareVersion { major: 0, minor: 0, patch: 0 }),
    {
        FirmwareVersion { major: 0, minor: 0, patch: 0 }
    }
}

/// A zero-based backplane slot index; `0xFF` is reserved for "unbound".
#[derive(Clone, Copy, Debug, PartialEq, Eq, PartialOrd, Ord, Structural)]
pub struct SlotIndex(u8);

impl SlotIndex {
    pub const MAX: u8 = 0xFE;

    pub closed spec fn spec_new(value: u8) -> SlotIndex {
        SlotIndex(value)
    }

    pub closed spec fn spec_get(self) -> u8 {
        self.0
    }

    pub broadcast proof fn lemma_new_get(value: u8)
        ensures
            #[trigger] SlotIndex::spec_new(value).spec_get() == value,
    {
    }

    pub broadcast proof fn lemma_get_new(slot: SlotIndex)
        ensures
            SlotIndex::spec_new(#[trigger] slot.spec_get()) == slot,
    {
    }

    pub fn new(value: u8) -> (r: Result<Self, InvalidSlotIndex>)
        ensures
            r == (if value <= 0xFE {
                Ok::<SlotIndex, InvalidSlotIndex>(SlotIndex::spec_new(value))
            } else {
                Err(InvalidSlotIndex(value))
            }),
    {
        if value <= Self::MAX {
            Ok(SlotIndex(value))
        } else {
            Err(InvalidSlotIndex(value))
        }
    }

    pub fn get(self) -> (r: u8)
        ensures
            r == self.spec_get(),
    {
        self.0
    }
}

#[derive(Clone, Copy, Debug, PartialEq, Eq, Structural)]
pub struct InvalidSlotIndex(pub u8);

#[derive(Clone, Copy, Debug, PartialEq, Eq)]
pub struct CarrierBinding {
    pub backplane_uid: NodeUid,
    pub slot: SlotIndex,
}

/// One of the two backplane fans.
#[derive(Clone, Copy, Debug, PartialEq, Eq, PartialOrd, Ord, Structural)]
pub struct FanId(u8);

impl FanId {
    pub const MIN: u8 = 0;
    pub const MAX: u8 = 1;

    pub closed spec fn spec_new(value: u8) -> FanId {
        FanId(value)
    }

    pub closed spec fn spec_get(self) -> u8 {
        self.0
    }

    pub broadcast proof fn lemma_new_get(value: u8)
        ensures
            #[trigger] FanId::spec_new(value).spec_get() == value,
    {
    }

    pub broadcast proof fn lemma_get_new(fan: FanId)
        ensures
            FanId::spec_new(#[trigger] fan.spec_get()) == fan,
    {
    }

    pub fn new(value: u8) -> (r: Result<Self, InvalidFanId>)
        ensures
            r == (if value <= 1 {
                Ok::<FanId, InvalidFanId>(FanId::spec_new(value))
            } else {
                Err(InvalidFanId(value))
            }),
    {
        if value <= Self::MAX {
            Ok(FanId(value))
        } else {
            Err(InvalidFanId(value))
        }
    }

    pub fn get(self) -> (r: u8)
        ensures
            r == self.spec_get(),
    {
        self.0
    }

    pub fn index(self) -> (r: usize)
        ensures
            r == self.spec_get(),
            r < 2,
    {
        proof {
            use_type_invariant(&self);
        }
        self.0 as usize
    }

    /// A fan identifier names one of the two fans.
    #[verifier::type_invariant]
    spec fn in_range(self) -> bool {
        self.0 <= 1
    }
}

#[derive(Clone, Copy, Debug, PartialEq, Eq, Structural)]
pub struct InvalidFanId(pub u8);

#[derive(Clone, Copy, Debug, PartialEq, Eq, Structural)]
pub struct FanConfig {
    pub duty_percent: u8,
}

impl FanConfig {
    #[allow(non_snake_case)]
    pub fn SAFE_DEFAULT() -> (r: Self)
        ensures
            r == (FanConfig { duty_percent: 100 }),
    {
        FanConfig { duty_percent: 100 }
    }

    pub fn validate(self) -> (r: Result<Self, InvalidFanDuty>)
        ensures
            r == (if self.duty_percent <= 100 {
                Ok::<FanConfig, InvalidFanDuty>(self)
            } else {
                Err(InvalidFanDuty(self.duty_percent))
            }),
    {
        if self.duty_percent <= 100 {
            Ok(self)
        } else {
            Err(InvalidFanDuty(self.duty_percent))
        }
    }
}

#[derive(Clone, Copy, Debug, PartialEq, Eq, Structural)]
pub struct InvalidFanDuty(pub u8);

#[derive(Clone, Copy, Debug, PartialEq, Eq, Structural)]
pub struct PdLimits {
    pub max_voltage_mv: u32,
    pub max_current_ma: u32,
    pub max_power_mw: u32,
}

impl PdLimits {
    /// The ceiling that the SW3538 carrier hardware supports today.
    #[allow(non_snake_case)]
    pub fn SW3538_SAFE_MAX() -> (r: Self)
        ensures
            r == PdLimits::spec_sw3538_safe_max(),
    {
        PdLimits { max_voltage_mv: 20_000, max_current_ma: 5_000, max_power_mw: 100_000 }
    }

    pub open spec fn spec_sw3538_safe_max() -> PdLimits {
        PdLimits { max_voltage_mv: 20_000, max_current_ma: 5_000, max_power_mw: 100_000 }
    }

    pub open spec fn spec_validate_for(self, ceiling: PdLimits) -> Result<PdLimits, InvalidPdLimits> {
        if self.max_voltage_mv == 0 || self.max_voltage_mv > ceiling.max_voltage_mv {
            Err(InvalidPdLimits::Voltage)
        } else if self.max_current_ma == 0 || self.max_current_ma > ceiling.max_current_ma {
            Err(InvalidPdLimits::Current)
        } else if self.max_power_mw == 0 || self.max_power_mw > ceiling.max_power_mw {
            Err(InvalidPdLimits::Power)
        } else {
            Ok(self)
        }
    }

    pub fn validate_for(self, ceiling: Self) -> (r: Result<Self, InvalidPdLimits>)
        ensures
            r == self.spec_validate_for(ceiling),
    {
        if self.max_voltage_mv == 0 || self.max_voltage_mv > ceiling.max_voltage_mv {
            return Err(InvalidPdLimits::Voltage);
        }
        if self.max_current_ma == 0 || self.max_current_ma > ceiling.max_current_ma {
            return Err(InvalidPdLimits::Current);
        }
        if self.max_power_mw == 0 || self.max_power_mw > ceiling.max_power_mw {
            return Err(InvalidPdLimits::Power);
        }
        Ok(self)
    }
}

#[derive(Clone, Copy, Debug, PartialEq, Eq, Structural)]
pub enum InvalidPdLimits {
    Voltage,
    Current,
    Power,
}

#[derive(Clone, Copy, Debug, PartialEq, Eq, Structural)]
pub struct CarrierPolicy {
    pub enabled: bool,
    /// Absent for carriers that do not expose negotiated USB-PD limits.
    pub pd_limits: Option<PdLimits>,
}

impl CarrierPolicy {
    #[allow(non_snake_case)]
    pub fn SW3538_SAFE_DISABLED() -> (r: Self)
        ensures
            r == (CarrierPolicy { enabled: false, pd_limits: Some(PdLimits::spec_sw3538_safe_max()) }),
    {
        CarrierPolicy { enabled: false, pd_limits: Some(PdLimits::SW3538_SAFE_MAX()) }
    }

    pub open spec fn spec_validate_for(
        self,
        descriptor: NodeDescriptor,
        ceiling: Option<PdLimits>,
    ) -> Result<CarrierPolicy, InvalidCarrierPolicy> {
        if descriptor.role != NodeRole::Carrier {
            Err(InvalidCarrierPolicy::NotCarrier)
        } else if descriptor.capabilities.spec_bits() & 4 == 4 {
            match (self.pd_limits, ceiling) {
                (Some(limits), Some(maximum)) => match limits.spec_validate_for(maximum) {
                    Ok(_) => Ok(self),
                    Err(e) => Err(InvalidCarrierPolicy::Limits(e)),
                },
                _ => Err(InvalidCarrierPolicy::PdLimitsRequired),
            }
        } else if self.pd_limits is None {
            Ok(self)
        } else {
            Err(InvalidCarrierPolicy::PdLimitsUnsupported)
        }
    }

    pub fn validate_for(self, descriptor: NodeDescriptor, ceiling: Option<PdLimits>) -> (r: Result<
        Self,
        InvalidCarrierPolicy,
    >)
        ensures
            r == self.spec_validate_for(descriptor, ceiling),
    {
        if descriptor.role != NodeRole::Carrier {
            return Err(InvalidCarrierPolicy::NotCarrier);
        }
        let supports_pd = descriptor.capabilities.contains(CapabilityFlags::USB_PD_CONTROL());
        if supports_pd {
            match (self.pd_limits, ceiling) {
                (Some(limits), Some(maximum)) => match limits.validate_for(maximum) {
                    Ok(_) => Ok(self),
                    Err(e) => Err(InvalidCarrierPolicy::Limits(e)),
                },
                _ => Err(InvalidCarrierPolicy::PdLimitsRequired),
            }
        } else {
            match self.pd_limits {
                None => Ok(self),
                Some(_) => Err(InvalidCarrierPolicy::PdLimitsUnsupported),
            }
        }
    }
}

#[derive(Clone, Copy, Debug, PartialEq, Eq, Structural)]
pub enum InvalidCarrierPolicy {
    NotCarrier,
    PdLimitsRequired,
    PdLimitsUnsupported,
    Limits(InvalidPdLimits),
}

#[derive(Clone, Copy, Debug, Default, PartialEq, Eq, Structural)]
pub struct FaultFlags(u32);

impl FaultFlags {
    pub closed spec fn spec_from_bits(bits: u32) -> FaultFlags {
        FaultFlags(bits)
    }

    pub closed spec fn spec_bits(self) -> u32 {
        self.0
    }

    pub broadcast proof fn lemma_from_bits(bits: u32)
        ensures
            #[trigger] FaultFlags::spec_from_bits(bits).spec_bits() == bits,
    {
    }

    pub broadcast proof fn lemma_bits_from(flags: FaultFlags)
        ensures
            FaultFlags::spec_from_bits(#[trigger] flags.spec_bits()) == flags,
    {
    }

    #[allow(non_snake_case)]
    pub fn NONE() -> (r: Self)
        ensures
            r.spec_bits() == 0,
    {
        FaultFlags(0)
    }

    #[allow(non_snake_case)]
    pub fn EMERGENCY_LATCHED() -> (r: Self)
        ensures
            r.spec_bits() == 1,
    {
        FaultFlags(1)
    }

    #[allow(non_snake_case)]
    pub fn HOUSEKEEPING_POWER_BAD() -> (r: Self)
        ensures
            r.spec_bits() == 2,
    {
        FaultFlags(2)
    }

    #[allow(non_snake_case)]
    pub fn OUTPUT_POWER_BAD() -> (r: Self)
        ensures
            r.spec_bits() == 4,
    {
        FaultFlags(4)
    }

    #[allow(non_snake_case)]
    pub fn POWER_MONITOR() -> (r: Self)
        ensures
            r.spec_bits() == 8,
    {
        FaultFlags(8)
    }

    #[allow(non_snake_case)]
    pub fn LOCAL_BUS() -> (r: Self)
        ensures
            r.spec_bits() == 16,
    {
        FaultFlags(16)
    }

    #[allow(non_snake_case)]
    pub fn PD_CONTROLLER() -> (r: Self)
        ensures
            r.spec_bits() == 32,
    {
        FaultFlags(32)
    }

    #[allow(non_snake_case)]
    pub fn FAN_STALLED() -> (r: Self)
        ensures
            r.spec_bits() == 64,
    {
        FaultFlags(64)
    }

    #[allow(non_snake_case)]
    pub fn TEMPERATURE() -> (r: Self)
        ensures
            r.spec_bits() == 128,
    {
        FaultFlags(128)
    }

    #[allow(non_snake_case)]
    pub fn CONFIGURATION() -> (r: Self)
        ensures
            r.spec_bits() == 256,
    {
        FaultFlags(256)
    }

    #[allow(non_snake_case)]
    pub fn UPDATE() -> (r: Self)
        ensures
            r.spec_bits() == 512,
    {
        FaultFlags(512)
    }

    #[allow(non_snake_case)]
    pub fn WATCHDOG() -> (r: Self)
        ensures
            r.spec_bits() == 1024,
    {
        FaultFlags(1024)
    }

    pub fn from_bits_retain(bits: u32) -> (r: Self)
        ensures
            r == FaultFlags::spec_from_bits(bits),
    {
        FaultFlags(bits)
    }

    pub fn bits(self) -> (r: u32)
        ensures
            r == self.spec_bits(),
    {
        self.0
    }

    pub fn contains(self, required: Self) -> (r: bool)
        ensures
            r == (self.spec_bits() & required.spec_bits() == required.spec_bits()),
    {
        self.0 & required.0 == required.0
    }

    pub fn union(self, other: Self) -> (r: Self)
        ensures
            r.spec_bits() == self.spec_bits() | other.spec_bits(),
    {
        FaultFlags(self.0 | other.0)
    }
}

#[derive(Clone, Copy, Debug, PartialEq, Eq, Structural)]
pub enum ServiceState {
    Starting,
    Disabled,
    Enabling,
    Enabled,
    Faulted,
    Updating,
}

impl ServiceState {
    /// The wire code of this value.
    pub open spec fn spec_code(self) -> u8 {
        match self {
            ServiceState::Starting => 0,
            ServiceState::Disabled => 1,
            ServiceState::Enabling => 2,
            ServiceState::Enabled => 3,
            ServiceState::Faulted => 4,
            ServiceState::Updating => 5,
        }
    }

    /// The value whose wire code is `value`, if there is one.
    pub open spec fn from_code(value: u8) -> Option<ServiceState> {
        if value == 0 {
            Some(ServiceState::Starting)
        } else if value == 1 {
            Some(ServiceState::Disabled)
        } else if value == 2 {
            Some(ServiceState::Enabling)
        } else if value == 3 {
            Some(ServiceState::Enabled)
        } else if value == 4 {
            Some(ServiceState::Faulted)
        } else if value == 5 {
            Some(ServiceState::Updating)
        } else {
            None
        }
    }

    pub fn code(self) -> (r: u8)
        ensures
            r == self.spec_code(),
            ServiceState::from_code(r) == Some(self),
    {
        match self {
            ServiceState::Starting => 0,
            ServiceState::Disabled => 1,
            ServiceState::Enabling => 2,
            ServiceState::Enabled => 3,
            ServiceState::Faulted => 4,
            ServiceState::Updating => 5,
        }
    }

    pub fn try_from(value: u8) -> (r: Result<ServiceState, InvalidServiceState>)
        ensures
            r == (match ServiceState::from_code(value) {
                Some(v) => Ok::<ServiceState, InvalidServiceState>(v),
                None => Err(InvalidServiceState(value)),
            }),
    {
        match value {
            0 => Ok(ServiceState::Starting),
            1 => Ok(ServiceState::Disabled),
            2 => Ok(ServiceState::Enabling),
            3 => Ok(ServiceState::Enabled),
            4 => Ok(ServiceState::Faulted),
            5 => Ok(ServiceState::Updating),
            _ => Err(InvalidServiceState(value)),
        }
    }
}

#[derive(Clone, Copy, Debug, PartialEq, Eq, Structural)]
pub struct InvalidServiceState(pub u8);

#[derive(Clone, Copy, Debug, PartialEq, Eq, Structural)]
pub enum PowerSource {
    BackplaneInput,
    CarrierInput,
}

impl PowerSource {
    /// The wire code of this value.
    pub open spec fn spec_code(self) -> u8 {
        match self {
            PowerSource::BackplaneInput => 1,
            PowerSource::CarrierInput => 2,
        }
    }

    /// The value whose wire code is `value`, if there is one.
    pub open spec fn from_code(value: u8) -> Option<PowerSource> {
        if value == 1 {
            Some(PowerSource::BackplaneInput)
        } else if value == 2 {
            Some(PowerSource::CarrierInput)
        } else {
            None
        }
    }

    pub fn code(self) -> (r: u8)
        ensures
            r == self.spec_code(),
            PowerSource::from_code(r) == Some(self),
    {
        match self {
            PowerSource::BackplaneInput => 1,
            PowerSource::CarrierInput => 2,
        }
    }

    pub fn try_from(value: u8) -> (r: Result<PowerSource, InvalidPowerSource>)
        ensures
            r == (match PowerSource::from_code(value) {
                Some(v) => Ok::<PowerSource, InvalidPowerSource>(v),
                None => Err(InvalidPowerSource(value)),
            }),
    {
        match value {
            1 => Ok(PowerSource::BackplaneInput),
            2 => Ok(PowerSource::CarrierInput),
            _ => Err(InvalidPowerSource(value)),
        }
    }
}

#[derive(Clone, Copy, Debug, PartialEq, Eq, Structural)]
pub struct InvalidPowerSource(pub u8);

#[derive(Clone, Copy, Debug, PartialEq, Eq, Structural)]
pub struct PowerReading {
    pub source: PowerSource,
    pub sequence: u16,
    pub voltage_mv: u32,
    pub current_ma: i32,
    pub power_mw: i32,
}

#[derive(Clone, Copy, Debug, PartialEq, Eq, Structural)]
pub enum TemperatureSource {
    Stm32Die,
    Ina237Die,
    OneWire,
}

impl TemperatureSource {
    /// The wire code of this value.
    pub open spec fn spec_code(self) -> u8 {
        match self {
            TemperatureSource::Stm32Die => 1,
            TemperatureSource::Ina237Die => 2,
            TemperatureSource::OneWire => 3,
        }
    }

    /// The value whose wire code is `value`, if there is one.
    pub open spec fn from_code(value: u8) -> Option<TemperatureSource> {
        if value == 1 {
            Some(TemperatureSource::Stm32Die)
        } else if value == 2 {
            Some(TemperatureSource::Ina237Die)
        } else if value == 3 {
            Some(TemperatureSource::OneWire)
        } else {
            None
        }
    }

    pub fn code(self) -> (r: u8)
        ensures
            r == self.spec_code(),
            TemperatureSource::from_code(r) == Some(self),
    {
        match self {
            TemperatureSource::Stm32Die => 1,
            TemperatureSource::Ina237Die => 2,
            TemperatureSource::OneWire => 3,
        }
    }

    pub fn try_from(value: u8) -> (r: Result<TemperatureSource, InvalidTemperatureSource>)
        ensures
            r == (match TemperatureSource::from_code(value) {
                Some(v) => Ok::<TemperatureSource, InvalidTemperatureSource>(v),
                None => Err(InvalidTemperatureSource(value)),
            }),
    {
        match value {
            1 => Ok(TemperatureSource::Stm32Die),
            2 => Ok(TemperatureSource::Ina237Die),
            3 => Ok(TemperatureSource::OneWire),
            _ => Err(InvalidTemperatureSource(value)),
        }
    }
}

#[derive(Clone, Copy, Debug, PartialEq, Eq, Structural)]
pub struct InvalidTemperatureSource(pub u8);

#[derive(Clone, Copy, Debug, PartialEq, Eq, Structural)]
pub struct TemperatureSensorId {
    pub source: TemperatureSource,
    /// Zero for board-local die sensors; the full ROM code for 1-Wire sensors.
    pub identifier: u64,
}

impl TemperatureSensorId {
    #[allow(non_snake_case)]
    pub fn STM32_DIE() -> (r: Self)
        ensures
            r == (TemperatureSensorId { source: TemperatureSource::Stm32Die, identifier: 0 }),
    {
        TemperatureSensorId { source: TemperatureSource::Stm32Die, identifier: 0 }
    }

    #[allow(non_snake_case)]
    pub fn INA237_DIE() -> (r: Self)
        ensures
            r == (TemperatureSensorId { source: TemperatureSource::Ina237Die, identifier: 0 }),
    {
        TemperatureSensorId { source: TemperatureSource::Ina237Die, identifier: 0 }
    }

    pub fn one_wire(rom_code: u64) -> (r: Self)
        ensures
            r == (TemperatureSensorId { source: TemperatureSource::OneWire, identifier: rom_code }),
    {
        TemperatureSensorId { source: TemperatureSource::OneWire, identifier: rom_code }
    }

    /// Die sensors carry identifier zero; 1-Wire sensors a non-zero ROM code.
    pub open spec fn spec_is_valid(self) -> bool {
        match self.source {
            TemperatureSource::OneWire => self.identifier != 0,
            _ => self.identifier == 0,
        }
    }

    pub fn validate(self) -> (r: Result<Self, InvalidTemperatureSensorId>)
        ensures
            r == (if self.spec_is_valid() {
                Ok::<TemperatureSensorId, InvalidTemperatureSensorId>(self)
            } else {
                Err(InvalidTemperatureSensorId)
            }),
    {
        match self.source {
            TemperatureSource::OneWire => {
                if self.identifier != 0 {
                    Ok(self)
                } else {
                    Err(InvalidTemperatureSensorId)
                }
            },
            _ => {
                if self.identifier == 0 {
                    Ok(self)
                } else {
                    Err(InvalidTemperatureSensorId)
                }
            },
        }
    }
}

#[derive(Clone, Copy, Debug, PartialEq, Eq, Structural)]
pub struct InvalidTemperatureSensorId;

#[derive(Clone, Copy, Debug, PartialEq, Eq, Structural)]
pub enum SampleStatus {
    Valid,
    Stale,
    Unavailable,
    Invalid,
}

impl SampleStatus {
    /// The wire code of this value.
    pub open spec fn spec_code(self) -> u8 {
        match self {
            SampleStatus::Valid => 0,
            SampleStatus::Stale => 1,
            SampleStatus::Unavailable => 2,
            SampleStatus::Invalid => 3,
        }
    }

    /// The value whose wire code is `value`, if there is one.
    pub open spec fn from_code(value: u8) -> Option<SampleStatus> {
        if value == 0 {
            Some(SampleStatus::Valid)
        } else if value == 1 {
            Some(SampleStatus::Stale)
        } else if value == 2 {
            Some(SampleStatus::Unavailable)
        } else if value == 3 {
            Some(SampleStatus::Invalid)
        } else {
            None
        }
    }

    pub fn code(self) -> (r: u8)
        ensures
            r == self.spec_code(),
            SampleStatus::from_code(r) == Some(self),
    {
        match self {
            SampleStatus::Valid => 0,
            SampleStatus::Stale => 1,
            SampleStatus::Unavailable => 2,
            SampleStatus::Invalid => 3,
        }
    }

    pub fn try_from(value: u8) -> (r: Result<SampleStatus, InvalidSampleStatus>)
        ensures
            r == (match SampleStatus::from_code(value) {
                Some(v) => Ok::<SampleStatus, InvalidSampleStatus>(v),
                None => Err(InvalidSampleStatus(value)),
            }),
    {
        match value {
            0 => Ok(SampleStatus::Valid),
            1 => Ok(SampleStatus::Stale),
            2 => Ok(SampleStatus::Unavailable),
            3 => Ok(SampleStatus::Invalid),
            _ => Err(InvalidSampleStatus(value)),
        }
    }
}

#[derive(Clone, Copy, Debug, PartialEq, Eq, Structural)]
pub struct InvalidSampleStatus(pub u8);

#[derive(Clone, Copy, Debug, PartialEq, Eq, Structural)]
pub struct TemperatureReading {
    pub sensor: TemperatureSensorId,
    pub sequence: u16,
    pub status: SampleStatus,
    pub temperature_centi_c: Option<i16>,
}

impl TemperatureReading {
    /// A valid or stale sample carries a value; an unavailable or invalid one does not.
    pub open spec fn spec_validate(self) -> Result<TemperatureReading, InvalidTemperatureReading> {
        if !self.sensor.spec_is_valid() {
            Err(InvalidTemperatureReading::Sensor)
        } else {
            match (self.status, self.temperature_centi_c) {
                (SampleStatus::Valid, None) | (SampleStatus::Stale, None) => Err(
                    InvalidTemperatureReading::ValueMissing,
                ),
                (SampleStatus::Unavailable, Some(_)) | (SampleStatus::Invalid, Some(_)) => Err(
                    InvalidTemperatureReading::UnexpectedValue,
                ),
                _ => Ok(self),
            }
        }
    }

    pub fn validate(self) -> (r: Result<Self, InvalidTemperatureReading>)
        ensures
            r == self.spec_validate(),
    {
        if self.sensor.validate().is_err() {
            return Err(InvalidTemperatureReading::Sensor);
        }
        match (self.status, self.temperature_centi_c) {
            (SampleStatus::Valid, None) | (SampleStatus::Stale, None) => Err(
                InvalidTemperatureReading::ValueMissing,
            ),
            (SampleStatus::Unavailable, Some(_)) | (SampleStatus::Invalid, Some(_)) => Err(
                InvalidTemperatureReading::UnexpectedValue,
            ),
            _ => Ok(self),
        }
    }
}

#[derive(Clone, Copy, Debug, PartialEq, Eq, Structural)]
pub enum InvalidTemperatureReading {
    Sensor,
    ValueMissing,
    UnexpectedValue,
}

#[derive(Clone, Copy, Debug, PartialEq, Eq)]
pub struct Sha256Digest([u8; 32]);

impl Sha256Digest {
    pub closed spec fn spec_new(bytes: [u8; 32]) -> Sha256Digest {
        Sha256Digest(bytes)
    }

    pub closed spec fn spec_bytes(self) -> Seq<u8> {
        self.0@
    }

    pub broadcast proof fn lemma_bytes(bytes: [u8; 32])
        ensures
            #[trigger] Sha256Digest::spec_new(bytes).spec_bytes() == bytes@,
    {
    }

    pub broadcast proof fn lemma_len(digest: Sha256Digest)
        ensures
            (#[trigger] digest.spec_bytes()).len() == 32,
    {
    }

    /// Two digests with the same bytes are the same digest.
    pub broadcast proof fn lemma_ext(a: Sha256Digest, b: Sha256Digest)
        requires
            #[trigger] a.spec_bytes() == #[trigger] b.spec_bytes(),
        ensures
            a == b,
    {
        assert(forall|i: int| 0 <= i < 32 ==> a.0[i] == b.0[i]);
        assert(a.0 =~= b.0);
    }

    pub fn from_bytes(bytes: [u8; 32]) -> (r: Self)
        ensures
            r == Sha256Digest::spec_new(bytes),
            r.spec_bytes() == bytes@,
    {
        Sha256Digest(bytes)
    }

    pub fn as_bytes(&self) -> (r: &[u8; 32])
        ensures
            r@ == self.spec_bytes(),
    {
        &self.0
    }
}

#[derive(Clone, Copy, Debug, PartialEq, Eq, Structural)]
pub struct ImageTarget {
    pub role: NodeRole,
    pub carrier_profile: Option<CarrierProfile>,
    pub hardware_revision: HardwareRevision,
    pub partition_layout: u8,
}

impl ImageTarget {
    /// A backplane image names no carrier profile; a carrier image names one.
    pub open spec fn spec_is_valid(self) -> bool {
        (self.role == NodeRole::Backplane && self.carrier_profile is None) || (self.role
            == NodeRole::Carrier && self.carrier_profile is Some)
    }

    pub fn validate(self) -> (r: Result<Self, InvalidImageTarget>)
        ensures
            r == (if self.spec_is_valid() {
                Ok::<ImageTarget, InvalidImageTarget>(self)
            } else {
                Err(InvalidImageTarget)
            }),
    {
        match (self.role, self.carrier_profile) {
            (NodeRole::Backplane, None) | (NodeRole::Carrier, Some(_)) => Ok(self),
            _ => Err(InvalidImageTarget),
        }
    }
}

#[derive(Clone, Copy, Debug, PartialEq, Eq, Structural)]
pub struct InvalidImageTarget;

#[derive(Clone, Copy, Debug, PartialEq, Eq)]
pub struct UpdateManifest {
    pub target: ImageTarget,
    pub version: FirmwareVersion,
    pub image_size: u32,
    pub digest: Sha256Digest,
}

#[derive(Clone, Copy, Debug, PartialEq, Eq, Structural)]
pub enum UpdateState {
    Idle,
    Receiving,
    Verifying,
    Staged,
    Activating,
    Trial,
    Confirmed,
    Rollback,
    Failed,
}

impl UpdateState {
    /// The wire code of this value.
    pub open spec fn spec_code(self) -> u8 {
        match self {
            UpdateState::Idle => 0,
            UpdateState::Receiving => 1,
            UpdateState::Verifying => 2,
            UpdateState::Staged => 3,
            UpdateState::Activating => 4,
            UpdateState::Trial => 5,
            UpdateState::Confirmed => 6,
            UpdateState::Rollback => 7,
            UpdateState::Failed => 8,
        }
    }

    /// The value whose wire code is `value`, if there is one.
    pub open spec fn from_code(value: u8) -> Option<UpdateState> {
        if value == 0 {
            Some(UpdateState::Idle)
        } else if value == 1 {
            Some(UpdateState::Receiving)
        } else if value == 2 {
            Some(UpdateState::Verifying)
        } else if value == 3 {
            Some(UpdateState::Staged)
        } else if value == 4 {
            Some(UpdateState::Activating)
        } else if value == 5 {
            Some(UpdateState::Trial)
        } else if value == 6 {
            Some(UpdateState::Confirmed)
        } else if value == 7 {
            Some(UpdateState::Rollback)
        } else if value == 8 {
            Some(UpdateState::Failed)
        } else {
            None
        }
    }

    pub fn code(self) -> (r: u8)
        ensures
            r == self.spec_code(),
            UpdateState::from_code(r) == Some(self),
    {
        match self {
            UpdateState::Idle => 0,
            UpdateState::Receiving => 1,
            UpdateState::Verifying => 2,
            UpdateState::Staged => 3,
            UpdateState::Activating => 4,
            UpdateState::Trial => 5,
            UpdateState::Confirmed => 6,
            UpdateState::Rollback => 7,
            UpdateState::Failed => 8,
        }
    }

    pub fn try_from(value: u8) -> (r: Result<UpdateState, InvalidUpdateState>)
        ensures
            r == (match UpdateState::from_code(value) {
                Some(v) => Ok::<UpdateState, InvalidUpdateState>(v),
                None => Err(InvalidUpdateState(value)),
            }),
    {
        match value {
            0 => Ok(UpdateState::Idle),
            1 => Ok(UpdateState::Receiving),
            2 => Ok(UpdateState::Verifying),
            3 => Ok(UpdateState::Staged),
            4 => Ok(UpdateState::Activating),
            5 => Ok(UpdateState::Trial),
            6 => Ok(UpdateState::Confirmed),
            7 => Ok(UpdateState::Rollback),
            8 => Ok(UpdateState::Failed),
            _ => Err(InvalidUpdateState(value)),
        }
    }
}

#[derive(Clone, Copy, Debug, PartialEq, Eq, Structural)]
pub struct InvalidUpdateState(pub u8);

#[derive(Clone, Copy, Debug, PartialEq, Eq, Structural)]
pub enum UpdateError {
    NoError,
    Busy,
    InvalidManifest,
    WrongTarget,
    Oversize,
    Offset,
    ConflictingData,
    Storage,
    Digest,
    NotStaged,
    InterruptionNotAuthorized,
    SafetyFault,
    Internal,
}

impl UpdateError {
    /// The wire code of this value.
    pub open spec fn spec_code(self) -> u8 {
        match self {
            UpdateError::NoError => 0,
            UpdateError::Busy => 1,
            UpdateError::InvalidManifest => 2,
            UpdateError::WrongTarget => 3,
            UpdateError::Oversize => 4,
            UpdateError::Offset => 5,
            UpdateError::ConflictingData => 6,
            UpdateError::Storage => 7,
            UpdateError::Digest => 8,
            UpdateError::NotStaged => 9,
            UpdateError::InterruptionNotAuthorized => 10,
            UpdateError::SafetyFault => 11,
            UpdateError::Internal => 12,
        }
    }

    /// The value whose wire code is `value`, if there is one.
    pub open spec fn from_code(value: u8) -> Option<UpdateError> {
        if value == 0 {
            Some(UpdateError::NoError)
        } else if value == 1 {
            Some(UpdateError::Busy)
        } else if value == 2 {
            Some(UpdateError::InvalidManifest)
        } else if value == 3 {
            Some(UpdateError::WrongTarget)
        } else if value == 4 {
            Some(UpdateError::Oversize)
        } else if value == 5 {
            Some(UpdateError::Offset)
        } else if value == 6 {
            Some(UpdateError::ConflictingData)
        } else if value == 7 {
            Some(UpdateError::Storage)
        } else if value == 8 {
            Some(UpdateError::Digest)
        } else if value == 9 {
            Some(UpdateError::NotStaged)
        } else if value == 10 {
            Some(UpdateError::InterruptionNotAuthorized)
        } else if value == 11 {
            Some(UpdateError::SafetyFault)
        } else if value == 12 {
            Some(UpdateError::Internal)
        } else {
            None
        }
    }

    pub fn code(self) -> (r: u8)
        ensures
            r == self.spec_code(),
            UpdateError::from_code(r) == Some(self),
    {
        match self {
            UpdateError::NoError => 0,
            UpdateError::Busy => 1,
            UpdateError::InvalidManifest => 2,
            UpdateError::WrongTarget => 3,
            UpdateError::Oversize => 4,
            UpdateError::Offset => 5,
            UpdateError::ConflictingData => 6,
            UpdateError::Storage => 7,
            UpdateError::Digest => 8,
            UpdateError::NotStaged => 9,
            UpdateError::InterruptionNotAuthorized => 10,
            UpdateError::SafetyFault => 11,
            UpdateError::Internal => 12,
        }
    }

    pub fn try_from(value: u8) -> (r: Result<UpdateError, InvalidUpdateError>)
        ensures
            r == (match UpdateError::from_code(value) {
                Some(v) => Ok::<UpdateError, InvalidUpdateError>(v),
                None => Err(InvalidUpdateError(value)),
            }),
    {
        match value {
            0 => Ok(UpdateError::NoError),
            1 => Ok(UpdateError::Busy),
            2 => Ok(UpdateError::InvalidManifest),
            3 => Ok(UpdateError::WrongTarget),
            4 => Ok(UpdateError::Oversize),
            5 => Ok(UpdateError::Offset),
            6 => Ok(UpdateError::ConflictingData),
            7 => Ok(UpdateError::Storage),
            8 => Ok(UpdateError::Digest),
            9 => Ok(UpdateError::NotStaged),
            10 => Ok(UpdateError::InterruptionNotAuthorized),
            11 => Ok(UpdateError::SafetyFault),
            12 => Ok(UpdateError::Internal),
            _ => Err(InvalidUpdateError(value)),
        }
    }
}

#[derive(Clone, Copy, Debug, PartialEq, Eq, Structural)]
pub struct InvalidUpdateError(pub u8);

pub broadcast group group_type_lemmas {
    NodeId::lemma_new_get,
    NodeId::lemma_get_new,
    NodeUid::lemma_bytes,
    NodeUid::lemma_len,
    NodeUid::lemma_ext,
    RequesterId::lemma_new_get,
    RequesterId::lemma_get_new,
    CapabilityFlags::lemma_from_bits,
    CapabilityFlags::lemma_bits_from,
    HardwareRevision::lemma_new_get,
    HardwareRevision::lemma_get_new,
    SlotIndex::lemma_new_get,
    SlotIndex::lemma_get_new,
    FanId::lemma_new_get,
    FanId::lemma_get_new,
    FaultFlags::lemma_from_bits,
    FaultFlags::lemma_bits_from,
    Sha256Digest::lemma_bytes,
    Sha256Digest::lemma_len,
    Sha256Digest::lemma_ext,
}

/// PD limits are accepted against a ceiling exactly when every limit is
/// positive and at most the ceiling's, and then they are kept as given.
pub proof fn lemma_pd_limits_accepted_within_ceiling(limits: PdLimits, ceiling: PdLimits)
    ensures
        limits.spec_validate_for(ceiling) is Ok <==> (0 < limits.max_voltage_mv <= ceiling.max_voltage_mv && 0
            < limits.max_current_ma <= ceiling.max_current_ma && 0 < limits.max_power_mw
            <= ceiling.max_power_mw),
        limits.spec_validate_for(ceiling) is Ok ==> limits.spec_validate_for(ceiling) == Ok::<
            PdLimits,
            InvalidPdLimits,
        >(limits),
        !(0 < limits.max_voltage_mv <= ceiling.max_voltage_mv) ==> limits.spec_validate_for(ceiling) == Err::<
            PdLimits,
            InvalidPdLimits,
        >(InvalidPdLimits::Voltage),
{
}

} // verus!