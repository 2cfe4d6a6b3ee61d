//! Node-side state machines: duplicate-address commissioning, carrier output
//! safety, backplane fan safety and firmware-update sequencing. Persistence,
//! flash writes and hashing stay with the board application; these machines
//! decide what is safe and what the application must do next.
use vstd::prelude::*;
use crate::types::{
    group_type_lemmas, CarrierPolicy, CommissioningState, FanConfig, FanId, FaultFlags,
    ImageTarget, NodeDescriptor, NodeId, NodeRole, NodeUid, PdLimits, ServiceState, UpdateError,
    UpdateImpact, UpdateManifest, UpdateSessionId, UpdateState,
};

verus! {

broadcast use group_type_lemmas;

/// The largest application image that the active partition holds.
pub const ACTIVE_APPLICATION_BYTES: u32 = 110 * 1024;

/// `flags` with the bits of `bits` set as well.
pub open spec fn with_faults(flags: FaultFlags, bits: u32) -> FaultFlags {
    FaultFlags::spec_from_bits(flags.spec_bits() | bits)
}

/// `flags` with the emergency-latched bit cleared and every other bit kept.
pub open spec fn without_emergency(flags: FaultFlags) -> FaultFlags {
    FaultFlags::spec_from_bits(flags.spec_bits() & !1u32)
}

// ---------------------------------------------------------------------------
// Commissioning
// ---------------------------------------------------------------------------

/// Duplicate-address and commissioning state. It decides only when ordinary
/// Node-ID traffic is safe; persisting the address is the application's work.
#[derive(Clone, Copy, Debug, PartialEq, Eq)]
pub struct Commissioning {
    uid: NodeUid,
    node_id: Option<NodeId>,
    state: CommissioningState,
    conflicting_uid: Option<NodeUid>,
}

/// What a [`Commissioning`] holds.
pub struct CommissioningModel {
    pub uid: NodeUid,
    pub node_id: Option<NodeId>,
    pub state: CommissioningState,
    pub conflicting_uid: Option<NodeUid>,
}

impl View for Commissioning {
    type V = CommissioningModel;

    closed spec fn view(&self) -> CommissioningModel {
        CommissioningModel {
            uid: self.uid,
            node_id: self.node_id,
            state: self.state,
            conflicting_uid: self.conflicting_uid,
        }
    }
}

/// A node with an address first claims it; one without waits to be commissioned.
pub open spec fn initial_commissioning_state(node_id: Option<NodeId>) -> CommissioningState {
    if node_id is Some {
        CommissioningState::Claiming
    } else {
        CommissioningState::Uncommissioned
    }
}

pub open spec fn spec_commissioning_new(uid: NodeUid, node_id: Option<NodeId>) -> CommissioningModel {
    CommissioningModel {
        uid,
        node_id,
        state: initial_commissioning_state(node_id),
        conflicting_uid: None,
    }
}

/// Another node's claim of `node_id` is a conflict when the address is ours and the UID is not.
pub open spec fn spec_observe_claim(c: CommissioningModel, uid: NodeUid, node_id: NodeId) -> CommissioningModel {
    if c.node_id == Some(node_id) && uid != c.uid {
        CommissioningModel {
            state: CommissioningState::AddressConflict,
            conflicting_uid: Some(uid),
            ..c
        }
    } else {
        c
    }
}

/// A claim window that closes without a conflict commissions the node.
pub open spec fn spec_claim_window_complete(c: CommissioningModel) -> CommissioningModel {
    if c.state == CommissioningState::Claiming {
        CommissioningModel { state: CommissioningState::Commissioned, ..c }
    } else {
        c
    }
}

pub open spec fn spec_apply_persisted_node_id(c: CommissioningModel, node_id: Option<NodeId>) -> CommissioningModel {
    CommissioningModel {
        uid: c.uid,
        node_id,
        state: initial_commissioning_state(node_id),
        conflicting_uid: None,
    }
}

impl Commissioning {
    pub fn new(uid: NodeUid, node_id: Option<NodeId>) -> (r: Self)
        ensures
            r@ == spec_commissioning_new(uid, node_id),
    {
        Commissioning {
            uid,
            node_id,
            state: if node_id.is_some() {
                CommissioningState::Claiming
            } else {
                CommissioningState::Uncommissioned
            },
            conflicting_uid: None,
        }
    }

    pub fn uid(&self) -> (r: NodeUid)
        ensures
            r == self@.uid,
    {
        self.uid
    }

    pub fn node_id(&self) -> (r: Option<NodeId>)
        ensures
            r == self@.node_id,
    {
        self.node_id
    }

    pub fn state(&self) -> (r: CommissioningState)
        ensures
            r == self@.state,
    {
        self.state
    }

    pub fn conflicting_uid(&self) -> (r: Option<NodeUid>)
        ensures
            r == self@.conflicting_uid,
    {
        self.conflicting_uid
    }

    /// Ordinary traffic may be sent only once the node is commissioned.
    pub fn normal_traffic_allowed(&self) -> (r: bool)
        ensures
            r == (self@.state == CommissioningState::Commissioned),
    {
        match self.state {
            CommissioningState::Commissioned => true,
            _ => false,
        }
    }

    pub fn observe_claim(&mut self, uid: NodeUid, node_id: NodeId)
        ensures
            final(self)@ == spec_observe_claim(old(self)@, uid, node_id),
    {
        let ours = match self.node_id {
            Some(id) => id == node_id,
            None => false,
        };
        if ours && !uid.same_as(&self.uid) {
            self.state = CommissioningState::AddressConflict;
            self.conflicting_uid = Some(uid);
        }
    }

    pub fn claim_window_complete(&mut self)
        ensures
            final(self)@ == spec_claim_window_complete(old(self)@),
    {
        if self.state == CommissioningState::Claiming {
            self.state = CommissioningState::Commissioned;
        }
    }

    pub fn apply_persisted_node_id(&mut self, node_id: Option<NodeId>)
        ensures
            final(self)@ == spec_apply_persisted_node_id(old(self)@, node_id),
    {
        self.node_id = node_id;
        self.conflicting_uid = None;
        self.state = if node_id.is_some() {
            CommissioningState::Claiming
        } else {
            CommissioningState::Uncommissioned
        };
    }
}

/// A claim of our address by another UID stops ordinary traffic and records
/// the other UID; neither a later claim nor the end of the claim window lifts
/// the conflict, which only a newly applied address clears.
pub proof fn lemma_duplicate_claim_suppresses_traffic(
    c: CommissioningModel,
    uid: NodeUid,
    node_id: NodeId,
    other_uid: NodeUid,
    other_id: NodeId,
)
    requires
        c.node_id == Some(node_id),
        uid != c.uid,
    ensures
        spec_observe_claim(c, uid, node_id).state == CommissioningState::AddressConflict,
        spec_observe_claim(c, uid, node_id).conflicting_uid == Some(uid),
        spec_claim_window_complete(spec_observe_claim(c, uid, node_id)).state
            == CommissioningState::AddressConflict,
        spec_observe_claim(spec_observe_claim(c, uid, node_id), other_uid, other_id).state
            == CommissioningState::AddressConflict,
{
}

/// Claims of other addresses, and our own UID echoed back, change nothing.
pub proof fn lemma_unrelated_claims_are_ignored(c: CommissioningModel, uid: NodeUid, node_id: NodeId)
    requires
        c.node_id != Some(node_id) || uid == c.uid,
    ensures
        spec_observe_claim(c, uid, node_id) == c,
{
}

// ---------------------------------------------------------------------------
// Carrier output safety
// ---------------------------------------------------------------------------

#[derive(Clone, Copy, Debug, PartialEq, Eq, Structural)]
pub struct CarrierSettings {
    pub policy: CarrierPolicy,
    pub emergency_latched: bool,
}

impl CarrierSettings {
    /// A factory-fresh SW3538 carrier: output disabled at the safe PD ceiling, no latch.
    #[allow(non_snake_case)]
    pub fn SW3538_FACTORY_DEFAULT() -> (r: Self)
        ensures
            r == (CarrierSettings {
                policy: CarrierPolicy { enabled: false, pd_limits: Some(PdLimits::spec_sw3538_safe_max()) },
                emergency_latched: false,
            }),
    {
        CarrierSettings { policy: CarrierPolicy::SW3538_SAFE_DISABLED(), emergency_latched: false }
    }
}

#[derive(Clone, Copy, Debug, PartialEq, Eq, Structural)]
pub enum CarrierAction {
    PersistSettings(CarrierSettings),
    DriveOutput(bool),
    DriveOutputThenPersistEmergency,
}

#[derive(Clone, Copy, Debug, PartialEq, Eq, Structural)]
pub enum CarrierError {
    InvalidDescriptor,
    InvalidPolicy,
    EmergencyLatched,
    EmergencyAlreadyClear,
    HardwareNotReady,
}

/// Safety state of one carrier node. The output starts off; a persisted
/// enable is restored only after the UID-derived startup delay, once the
/// application has reported healthy local hardware.
#[derive(Clone, Copy, Debug, PartialEq, Eq)]
pub struct CarrierController {
    descriptor: NodeDescriptor,
    ceiling: Option<PdLimits>,
    settings: CarrierSettings,
    service: ServiceState,
    faults: FaultFlags,
    housekeeping_good: bool,
    output_power_good: bool,
}

/// What a [`CarrierController`] holds.
pub struct CarrierModel {
    pub descriptor: NodeDescriptor,
    pub ceiling: Option<PdLimits>,
    pub settings: CarrierSettings,
    pub service: ServiceState,
    pub faults: FaultFlags,
    pub housekeeping_good: bool,
    pub output_power_good: bool,
}

impl View for CarrierController {
    type V = CarrierModel;

    closed spec fn view(&self) -> CarrierModel {
        CarrierModel {
            descriptor: self.descriptor,
            ceiling: self.ceiling,
            settings: self.settings,
            service: self.service,
            faults: self.faults,
            housekeeping_good: self.housekeeping_good,
            output_power_good: self.output_power_good,
        }
    }
}

pub open spec fn spec_carrier_new(
    descriptor: NodeDescriptor,
    ceiling: Option<PdLimits>,
    settings: CarrierSettings,
) -> Result<CarrierModel, CarrierError> {
    if descriptor.spec_validate() is Err || descriptor.role != NodeRole::Carrier {
        Err(CarrierError::InvalidDescriptor)
    } else if settings.policy.spec_validate_for(descriptor, ceiling) is Err {
        Err(CarrierError::InvalidPolicy)
    } else {
        Ok(
            CarrierModel {
                descriptor,
                ceiling,
                settings,
                service: ServiceState::Starting,
                faults: FaultFlags::spec_from_bits(
                    if settings.emergency_latched {
                        1
                    } else {
                        0
                    },
                ),
                housekeeping_good: false,
                output_power_good: false,
            },
        )
    }
}

pub open spec fn spec_set_housekeeping_good(c: CarrierModel, good: bool) -> CarrierModel {
    if good {
        CarrierModel {
            housekeeping_good: true,
            service: if c.service == ServiceState::Starting {
                ServiceState::Disabled
            } else {
                c.service
            },
            ..c
        }
    } else {
        CarrierModel {
            housekeeping_good: false,
            faults: with_faults(c.faults, 2),
            service: ServiceState::Faulted,
            ..c
        }
    }
}

pub open spec fn spec_restore_after_startup_delay(c: CarrierModel) -> (
    CarrierModel,
    Result<Option<CarrierAction>, CarrierError>,
) {
    if !c.housekeeping_good {
        (c, Err(CarrierError::HardwareNotReady))
    } else if c.settings.emergency_latched {
        (c, Err(CarrierError::EmergencyLatched))
    } else if c.settings.policy.enabled {
        (CarrierModel { service: ServiceState::Enabling, ..c }, Ok(Some(CarrierAction::DriveOutput(true))))
    } else {
        (CarrierModel { service: ServiceState::Disabled, ..c }, Ok(None))
    }
}

pub open spec fn spec_set_policy(c: CarrierModel, policy: CarrierPolicy) -> (
    CarrierModel,
    Result<CarrierAction, CarrierError>,
) {
    if policy.spec_validate_for(c.descriptor, c.ceiling) is Err {
        (c, Err(CarrierError::InvalidPolicy))
    } else if policy.enabled && c.settings.emergency_latched {
        (c, Err(CarrierError::EmergencyLatched))
    } else {
        let settings = CarrierSettings { policy, ..c.settings };
        (
            CarrierModel {
                settings,
                service: if policy.enabled {
                    ServiceState::Enabling
                } else {
                    ServiceState::Disabled
                },
                ..c
            },
            Ok(CarrierAction::PersistSettings(settings)),
        )
    }
}

pub open spec fn spec_observe_output_power_good(c: CarrierModel, good: bool) -> CarrierModel {
    if good && c.service == ServiceState::Enabling {
        CarrierModel { output_power_good: good, service: ServiceState::Enabled, ..c }
    } else if !good && c.service == ServiceState::Enabled {
        CarrierModel {
            output_power_good: good,
            faults: with_faults(c.faults, 4),
            service: ServiceState::Faulted,
            ..c
        }
    } else {
        CarrierModel { output_power_good: good, ..c }
    }
}

pub open spec fn spec_carrier_emergency_disable(c: CarrierModel) -> CarrierModel {
    CarrierModel {
        settings: CarrierSettings {
            emergency_latched: true,
            policy: CarrierPolicy { enabled: false, ..c.settings.policy },
        },
        output_power_good: false,
        faults: with_faults(c.faults, 1),
        service: ServiceState::Disabled,
        ..c
    }
}

pub open spec fn spec_carrier_acknowledge_emergency(c: CarrierModel) -> (
    CarrierModel,
    Result<CarrierAction, CarrierError>,
) {
    if !c.settings.emergency_latched {
        (c, Err(CarrierError::EmergencyAlreadyClear))
    } else {
        let settings = CarrierSettings { emergency_latched: false, ..c.settings };
        (
            CarrierModel { settings, faults: without_emergency(c.faults), ..c },
            Ok(CarrierAction::PersistSettings(settings)),
        )
    }
}

impl CarrierController {
    pub fn new(descriptor: NodeDescriptor, ceiling: Option<PdLimits>, settings: CarrierSettings) -> (r:
        Result<Self, CarrierError>)
        ensures
            r is Ok <==> spec_carrier_new(descriptor, ceiling, settings) is Ok,
            r matches Ok(c) ==> spec_carrier_new(descriptor, ceiling, settings) == Ok::<
                CarrierModel,
                CarrierError,
            >(c@),
            r matches Err(e) ==> spec_carrier_new(descriptor, ceiling, settings) == Err::<
                CarrierModel,
                CarrierError,
            >(e),
    {
        if descriptor.validate().is_err() {
            return Err(CarrierError::InvalidDescriptor);
        }
        match descriptor.role {
            NodeRole::Carrier => {},
            _ => {
                return Err(CarrierError::InvalidDescriptor);
            },
        }
        if settings.policy.validate_for(descriptor, ceiling).is_err() {
            return Err(CarrierError::InvalidPolicy);
        }
        Ok(
            CarrierController {
                descriptor,
                ceiling,
                settings,
                service: ServiceState::Starting,
                faults: if settings.emergency_latched {
                    FaultFlags::EMERGENCY_LATCHED()
                } else {
                    FaultFlags::NONE()
                },
                housekeeping_good: false,
                output_power_good: false,
            },
        )
    }

    pub fn descriptor(&self) -> (r: NodeDescriptor)
        ensures
            r == self@.descriptor,
    {
        self.descriptor
    }

    pub fn settings(&self) -> (r: CarrierSettings)
        ensures
            r == self@.settings,
    {
        self.settings
    }

    pub fn service(&self) -> (r: ServiceState)
        ensures
            r == self@.service,
    {
        self.service
    }

    pub fn faults(&self) -> (r: FaultFlags)
        ensures
            r == self@.faults,
    {
        self.faults
    }

    pub fn output_power_good(&self) -> (r: bool)
        ensures
            r == self@.output_power_good,
    {
        self.output_power_good
    }

    pub fn set_housekeeping_good(&mut self, good: bool)
        ensures
            final(self)@ == spec_set_housekeeping_good(old(self)@, good),
    {
        self.housekeeping_good = good;
        if good {
            if self.service == ServiceState::Starting {
                self.service = ServiceState::Disabled;
            }
        } else {
            self.faults = self.faults.union(FaultFlags::HOUSEKEEPING_POWER_BAD());
            self.service = ServiceState::Faulted;
        }
    }

    pub fn restore_after_startup_delay(&mut self) -> (r: Result<Option<CarrierAction>, CarrierError>)
        ensures
            (final(self)@, r) == spec_restore_after_startup_delay(old(self)@),
    {
        if !self.housekeeping_good {
            return Err(CarrierError::HardwareNotReady);
        }
        if self.settings.emergency_latched {
            return Err(CarrierError::EmergencyLatched);
        }
        if self.settings.policy.enabled {
            self.service = ServiceState::Enabling;
            Ok(Some(CarrierAction::DriveOutput(true)))
        } else {
            self.service = ServiceState::Disabled;
            Ok(None)
        }
    }

    pub fn set_policy(&mut self, policy: CarrierPolicy) -> (r: Result<CarrierAction, CarrierError>)
        ensures
            (final(self)@, r) == spec_set_policy(old(self)@, policy),
    {
        if policy.validate_for(self.descriptor, self.ceiling).is_err() {
            return Err(CarrierError::InvalidPolicy);
        }
        if policy.enabled && self.settings.emergency_latched {
            return Err(CarrierError::EmergencyLatched);
        }
        self.settings.policy = policy;
        self.service = if policy.enabled {
            ServiceState::Enabling
        } else {
            ServiceState::Disabled
        };
        Ok(CarrierAction::PersistSettings(self.settings))
    }

    /// Once the new policy is durable, the output follows it.
    pub fn policy_persisted(&self) -> (r: CarrierAction)
        ensures
            r == CarrierAction::DriveOutput(self@.settings.policy.enabled),
    {
        CarrierAction::DriveOutput(self.settings.policy.enabled)
    }

    pub fn observe_output_power_good(&mut self, good: bool)
        ensures
            final(self)@ == spec_observe_output_power_good(old(self)@, good),
    {
        self.output_power_good = good;
        if good && self.service == ServiceState::Enabling {
            self.service = ServiceState::Enabled;
        } else if !good && self.service == ServiceState::Enabled {
            self.faults = self.faults.union(FaultFlags::OUTPUT_POWER_BAD());
            self.service = ServiceState::Faulted;
        }
    }

    pub fn emergency_disable(&mut self) -> (r: CarrierAction)
        ensures
            final(self)@ == spec_carrier_emergency_disable(old(self)@),
            r == CarrierAction::DriveOutputThenPersistEmergency,
    {
        self.settings.emergency_latched = true;
        self.settings.policy.enabled = false;
        self.output_power_good = false;
        self.faults = self.faults.union(FaultFlags::EMERGENCY_LATCHED());
        self.service = ServiceState::Disabled;
        CarrierAction::DriveOutputThenPersistEmergency
    }

    pub fn acknowledge_emergency(&mut self) -> (r: Result<CarrierAction, CarrierError>)
        ensures
            (final(self)@, r) == spec_carrier_acknowledge_emergency(old(self)@),
    {
        if !self.settings.emergency_latched {
            return Err(CarrierError::EmergencyAlreadyClear);
        }
        self.settings.emergency_latched = false;
        self.faults = FaultFlags::from_bits_retain(
            self.faults.bits() & !FaultFlags::EMERGENCY_LATCHED().bits(),
        );
        Ok(CarrierAction::PersistSettings(self.settings))
    }
}

/// An emergency stop latches: the output is disabled and reported off, the
/// latch fault is raised, and while the latch stands no policy change, health
/// report or power observation enables the output or clears the latch; only
/// an acknowledgement does.
pub proof fn lemma_carrier_emergency_latches(c: CarrierModel, policy: CarrierPolicy, good: bool)
    ensures
        spec_carrier_emergency_disable(c).settings.emergency_latched,
        !spec_carrier_emergency_disable(c).settings.policy.enabled,
        !spec_carrier_emergency_disable(c).output_power_good,
        spec_carrier_emergency_disable(c).faults.spec_bits() & 1 == 1,
        ({
            let d = spec_carrier_emergency_disable(c);
            &&& spec_restore_after_startup_delay(d).1 is Err
            &&& spec_set_policy(d, policy).1 is Ok ==> !policy.enabled
            &&& spec_set_policy(d, policy).0.settings.emergency_latched
            &&& spec_set_housekeeping_good(d, good).settings.emergency_latched
            &&& spec_observe_output_power_good(d, good).settings.emergency_latched
            &&& !spec_carrier_acknowledge_emergency(d).0.settings.emergency_latched
            &&& spec_carrier_acknowledge_emergency(d).1 is Ok
        }),
{
    let bits = c.faults.spec_bits();
    assert((bits | 1u32) & 1u32 == 1u32) by (bit_vector);
}

/// The output is driven on at startup only with healthy housekeeping power,
/// no emergency latch and an enabled policy.
pub proof fn lemma_restore_requires_health(c: CarrierModel)
    ensures
        spec_restore_after_startup_delay(c).1 == Ok::<Option<CarrierAction>, CarrierError>(
            Some(CarrierAction::DriveOutput(true)),
        ) <==> (c.housekeeping_good && !c.settings.emergency_latched && c.settings.policy.enabled),
{
}

/// Acknowledging an emergency clears the latch fault and keeps every other fault.
pub proof fn lemma_acknowledge_keeps_other_faults(c: CarrierModel)
    requires
        c.settings.emergency_latched,
    ensures
        spec_carrier_acknowledge_emergency(c).0.faults.spec_bits() & 1 == 0,
        spec_carrier_acknowledge_emergency(c).0.faults.spec_bits() & !1u32 == c.faults.spec_bits()
            & !1u32,
{
    let bits = c.faults.spec_bits();
    assert((bits & !1u32) & 1u32 == 0u32) by (bit_vector);
    assert((bits & !1u32) & !1u32 == bits & !1u32) by (bit_vector);
}

// ---------------------------------------------------------------------------
// Backplane fan safety
// ---------------------------------------------------------------------------

#[derive(Clone, Copy, Debug, PartialEq, Eq)]
pub struct BackplaneSettings {
    pub fans: [FanConfig; 2],
    pub emergency_latched: bool,
}

/// Both fans at the safe full-speed duty.
pub open spec fn all_fans_safe(fans: [FanConfig; 2]) -> bool {
    fans@ == seq![FanConfig { duty_percent: 100 }, FanConfig { duty_percent: 100 }]
}

impl BackplaneSettings {
    /// Both fans at full speed and no emergency latch.
    #[allow(non_snake_case)]
    pub fn FACTORY_DEFAULT() -> (r: Self)
        ensures
            all_fans_safe(r.fans),
            !r.emergency_latched,
    {
        let r = BackplaneSettings {
            fans: [FanConfig::SAFE_DEFAULT(), FanConfig::SAFE_DEFAULT()],
            emergency_latched: false,
        };
        assert(r.fans@ =~= seq![FanConfig { duty_percent: 100 }, FanConfig { duty_percent: 100 }]);
        r
    }
}

#[derive(Clone, Copy, Debug, PartialEq, Eq)]
pub enum BackplaneAction {
    PersistSettings(BackplaneSettings),
    DriveFan { fan: FanId, config: FanConfig },
    DriveAllFansSafeThenPersistEmergency,
}

#[derive(Clone, Copy, Debug, PartialEq, Eq, Structural)]
pub enum BackplaneError {
    InvalidDescriptor,
    InvalidFanDuty,
    EmergencyAlreadyClear,
}

#[derive(Clone, Copy, Debug, PartialEq, Eq)]
pub struct BackplaneController {
    descriptor: NodeDescriptor,
    settings: BackplaneSettings,
    faults: FaultFlags,
}

/// What a [`BackplaneController`] holds.
pub struct BackplaneModel {
    pub descriptor: NodeDescriptor,
    pub settings: BackplaneSettings,
    pub faults: FaultFlags,
}

impl View for BackplaneController {
    type V = BackplaneModel;

    closed spec fn view(&self) -> BackplaneModel {
        BackplaneModel { descriptor: self.descriptor, settings: self.settings, faults: self.faults }
    }
}

pub open spec fn spec_backplane_new(descriptor: NodeDescriptor, settings: BackplaneSettings) -> Result<
    BackplaneModel,
    BackplaneError,
> {
    if descriptor.spec_validate() is Err || descriptor.role != NodeRole::Backplane
        || descriptor.fan_count != 2 {
        Err(BackplaneError::InvalidDescriptor)
    } else if settings.fans[0].duty_percent > 100 || settings.fans[1].duty_percent > 100 {
        Err(BackplaneError::InvalidFanDuty)
    } else {
        Ok(
            BackplaneModel {
                descriptor,
                settings,
                faults: FaultFlags::spec_from_bits(
                    if settings.emergency_latched {
                        1
                    } else {
                        0
                    },
                ),
            },
        )
    }
}

impl BackplaneController {
    pub fn new(descriptor: NodeDescriptor, settings: BackplaneSettings) -> (r: Result<Self, BackplaneError>)
        ensures
            r is Ok <==> spec_backplane_new(descriptor, settings) is Ok,
            r matches Ok(b) ==> spec_backplane_new(descriptor, settings) == Ok::<
                BackplaneModel,
                BackplaneError,
            >(b@),
            r matches Err(e) ==> spec_backplane_new(descriptor, settings) == Err::<
                BackplaneModel,
                BackplaneError,
            >(e),
    {
        if descriptor.validate().is_err() {
            return Err(BackplaneError::InvalidDescriptor);
        }
        let is_backplane = match descriptor.role {
            NodeRole::Backplane => true,
            _ => false,
        };
        if !is_backplane || descriptor.fan_count != 2 {
            return Err(BackplaneError::InvalidDescriptor);
        }
        let mut i: usize = 0;
        while i < 2
            invariant
                i <= 2,
                descriptor.spec_validate() is Ok,
                descriptor.role == NodeRole::Backplane,
                descriptor.fan_count == 2,
                forall|j: int| 0 <= j < i ==> settings.fans[j].duty_percent <= 100,
            decreases 2 - i,
        {
            if settings.fans[i].validate().is_err() {
                assert(settings.fans[i as int].duty_percent > 100);
                return Err(BackplaneError::InvalidFanDuty);
            }
            i = i + 1;
        }
        Ok(
            BackplaneController {
                descriptor,
                settings,
                faults: if settings.emergency_latched {
                    FaultFlags::EMERGENCY_LATCHED()
                } else {
                    FaultFlags::NONE()
                },
            },
        )
    }

    pub fn descriptor(&self) -> (r: NodeDescriptor)
        ensures
            r == self@.descriptor,
    {
        self.descriptor
    }

    pub fn settings(&self) -> (r: BackplaneSettings)
        ensures
            r == self@.settings,
    {
        self.settings
    }

    pub fn faults(&self) -> (r: FaultFlags)
        ensures
            r == self@.faults,
    {
        self.faults
    }

    /// Records a fan's new duty; only that fan's setting changes.
    pub fn set_fan(&mut self, fan: FanId, config: FanConfig) -> (r: Result<BackplaneAction, BackplaneError>)
        ensures
            config.duty_percent > 100 ==> r == Err::<BackplaneAction, BackplaneError>(
                BackplaneError::InvalidFanDuty,
            ) && final(self)@ == old(self)@,
            config.duty_percent <= 100 ==> {
                &&& final(self)@.descriptor == old(self)@.descriptor
                &&& final(self)@.faults == old(self)@.faults
                &&& final(self)@.settings.emergency_latched == old(self)@.settings.emergency_latched
                &&& final(self)@.settings.fans@ == old(self)@.settings.fans@.update(
                    fan.spec_get() as int,
                    config,
                )
                &&& r == Ok::<BackplaneAction, BackplaneError>(
                    BackplaneAction::PersistSettings(final(self)@.settings),
                )
            },
    {
        if config.validate().is_err() {
            return Err(BackplaneError::InvalidFanDuty);
        }
        let index = fan.index();
        self.settings.fans[index] = config;
        Ok(BackplaneAction::PersistSettings(self.settings))
    }

    /// Once a fan's setting is durable, the fan is driven at it.
    pub fn fan_settings_persisted(&self, fan: FanId) -> (r: BackplaneAction)
        ensures
            fan.spec_get() < 2,
            r == (BackplaneAction::DriveFan { fan, config: self@.settings.fans[fan.spec_get() as int] }),
    {
        let index = fan.index();
        BackplaneAction::DriveFan { fan, config: self.settings.fans[index] }
    }

    /// Latches the emergency and forces both fans to the safe full-speed duty.
    pub fn emergency_disable(&mut self) -> (r: BackplaneAction)
        ensures
            final(self)@.descriptor == old(self)@.descriptor,
            final(self)@.settings.emergency_latched,
            all_fans_safe(final(self)@.settings.fans),
            final(self)@.faults == with_faults(old(self)@.faults, 1),
            r == BackplaneAction::DriveAllFansSafeThenPersistEmergency,
    {
        self.settings.emergency_latched = true;
        self.settings.fans = [FanConfig::SAFE_DEFAULT(), FanConfig::SAFE_DEFAULT()];
        assert(self.settings.fans@ =~= seq![
            FanConfig { duty_percent: 100 },
            FanConfig { duty_percent: 100 },
        ]);
        self.faults = self.faults.union(FaultFlags::EMERGENCY_LATCHED());
        BackplaneAction::DriveAllFansSafeThenPersistEmergency
    }

    pub fn acknowledge_emergency(&mut self) -> (r: Result<BackplaneAction, BackplaneError>)
        ensures
            !old(self)@.settings.emergency_latched ==> r == Err::<BackplaneAction, BackplaneError>(
                BackplaneError::EmergencyAlreadyClear,
            ) && final(self)@ == old(self)@,
            old(self)@.settings.emergency_latched ==> {
                &&& final(self)@.descriptor == old(self)@.descriptor
                &&& final(self)@.settings == (BackplaneSettings {
                    emergency_latched: false,
                    ..old(self)@.settings
                })
                &&& final(self)@.faults == without_emergency(old(self)@.faults)
                &&& r == Ok::<BackplaneAction, BackplaneError>(
                    BackplaneAction::PersistSettings(final(self)@.settings),
                )
            },
    {
        if !self.settings.emergency_latched {
            return Err(BackplaneError::EmergencyAlreadyClear);
        }
        self.settings.emergency_latched = false;
        self.faults = FaultFlags::from_bits_retain(
            self.faults.bits() & !FaultFlags::EMERGENCY_LATCHED().bits(),
        );
        Ok(BackplaneAction::PersistSettings(self.settings))
    }
}

// ---------------------------------------------------------------------------
// Firmware-update sequencing
// ---------------------------------------------------------------------------

#[derive(Clone, Copy, Debug, PartialEq, Eq, Structural)]
pub enum ChunkDisposition {
    Write,
    Duplicate,
}

#[derive(Clone, Copy, Debug, PartialEq, Eq, Structural)]
pub struct ActivationPlan {
    pub disable_service: bool,
}

/// Transport-independent update sequencing.
#[derive(Clone, Copy, Debug, PartialEq, Eq)]
pub struct UpdateController {
    target: ImageTarget,
    impact: UpdateImpact,
    state: UpdateState,
    error: UpdateError,
    session: UpdateSessionId,
    manifest: Option<UpdateManifest>,
    next_offset: u32,
}

/// What an [`UpdateController`] holds.
pub struct UpdateModel {
    pub target: ImageTarget,
    pub impact: UpdateImpact,
    pub state: UpdateState,
    pub error: UpdateError,
    pub session: UpdateSessionId,
    pub manifest: Option<UpdateManifest>,
    pub next_offset: u32,
}

impl View for UpdateController {
    type V = UpdateModel;

    closed spec fn view(&self) -> UpdateModel {
        UpdateModel {
            target: self.target,
            impact: self.impact,
            state: self.state,
            error: self.error,
            session: self.session,
            manifest: self.manifest,
            next_offset: self.next_offset,
        }
    }
}

/// A state in which an image is being received or has been completely received.
pub open spec fn holds_image(state: UpdateState) -> bool {
    state == UpdateState::Receiving || state == UpdateState::Verifying || state
        == UpdateState::Staged || state == UpdateState::Activating
}

/// A state that only a completely received image reaches.
pub open spec fn image_complete_state(state: UpdateState) -> bool {
    state == UpdateState::Verifying || state == UpdateState::Staged || state == UpdateState::Activating
}

/// What every reachable update state satisfies: while an image is held there
/// is a manifest for this node's target, of a size that fits, and the
/// received prefix never passes its end; an image is verified, staged or
/// activated only when all of it has been received.
pub open spec fn update_invariant(u: UpdateModel) -> bool {
    &&& holds_image(u.state) ==> match u.manifest {
        Some(m) => {
            &&& m.target == u.target
            &&& 0 < m.image_size <= ACTIVE_APPLICATION_BYTES
            &&& u.next_offset <= m.image_size
            &&& image_complete_state(u.state) ==> u.next_offset == m.image_size
        },
        None => false,
    }
}

pub open spec fn rejected(u: UpdateModel, error: UpdateError) -> UpdateModel {
    UpdateModel { error, ..u }
}

pub open spec fn failed(u: UpdateModel, error: UpdateError) -> UpdateModel {
    UpdateModel { error, state: UpdateState::Failed, ..u }
}

pub open spec fn spec_update_new(target: ImageTarget, impact: UpdateImpact) -> UpdateModel {
    UpdateModel {
        target,
        impact,
        state: UpdateState::Idle,
        error: UpdateError::NoError,
        session: UpdateSessionId(0),
        manifest: None,
        next_offset: 0,
    }
}

pub open spec fn spec_begin(u: UpdateModel, session: UpdateSessionId, manifest: UpdateManifest) -> (
    UpdateModel,
    Result<(), UpdateError>,
) {
    if !(u.state == UpdateState::Idle || u.state == UpdateState::Failed) {
        (rejected(u, UpdateError::Busy), Err(UpdateError::Busy))
    } else if manifest.target != u.target {
        (failed(u, UpdateError::WrongTarget), Err(UpdateError::WrongTarget))
    } else if manifest.image_size == 0 || manifest.image_size > ACTIVE_APPLICATION_BYTES {
        (failed(u, UpdateError::Oversize), Err(UpdateError::Oversize))
    } else {
        (
            UpdateModel {
                session,
                manifest: Some(manifest),
                next_offset: 0,
                error: UpdateError::NoError,
                state: UpdateState::Receiving,
                ..u
            },
            Ok(()),
        )
    }
}

pub open spec fn spec_accept_chunk(u: UpdateModel, session: UpdateSessionId, offset: u32, len: u8) -> (
    UpdateModel,
    Result<ChunkDisposition, UpdateError>,
) {
    if u.state != UpdateState::Receiving || session != u.session {
        (rejected(u, UpdateError::Busy), Err(UpdateError::Busy))
    } else {
        match u.manifest {
            None => (failed(u, UpdateError::InvalidManifest), Err(UpdateError::InvalidManifest)),
            Some(m) => if offset + len > u32::MAX || len == 0 || offset + len > m.image_size {
                (rejected(u, UpdateError::Offset), Err(UpdateError::Offset))
            } else if offset == u.next_offset {
                (
                    UpdateModel {
                        next_offset: (offset + len) as u32,
                        error: UpdateError::NoError,
                        ..u
                    },
                    Ok(ChunkDisposition::Write),
                )
            } else if offset + len <= u.next_offset {
                (UpdateModel { error: UpdateError::NoError, ..u }, Ok(ChunkDisposition::Duplicate))
            } else {
                (rejected(u, UpdateError::Offset), Err(UpdateError::Offset))
            },
        }
    }
}

pub open spec fn spec_begin_verification(u: UpdateModel, session: UpdateSessionId) -> (
    UpdateModel,
    Result<UpdateManifest, UpdateError>,
) {
    if u.state != UpdateState::Receiving || session != u.session {
        (rejected(u, UpdateError::Busy), Err(UpdateError::Busy))
    } else {
        match u.manifest {
            None => (failed(u, UpdateError::InvalidManifest), Err(UpdateError::InvalidManifest)),
            Some(m) => if u.next_offset != m.image_size {
                (rejected(u, UpdateError::Offset), Err(UpdateError::Offset))
            } else {
                (UpdateModel { state: UpdateState::Verifying, ..u }, Ok(m))
            },
        }
    }
}

pub open spec fn spec_verification_complete(u: UpdateModel, valid: bool) -> (
    UpdateModel,
    Result<(), UpdateError>,
) {
    if u.state != UpdateState::Verifying {
        (failed(u, UpdateError::Busy), Err(UpdateError::Busy))
    } else if !valid {
        (failed(u, UpdateError::Digest), Err(UpdateError::Digest))
    } else {
        (UpdateModel { state: UpdateState::Staged, error: UpdateError::NoError, ..u }, Ok(()))
    }
}

pub open spec fn spec_activate(u: UpdateModel, session: UpdateSessionId, allow_interruption: bool) -> (
    UpdateModel,
    Result<ActivationPlan, UpdateError>,
) {
    if u.state != UpdateState::Staged || session != u.session {
        (rejected(u, UpdateError::NotStaged), Err(UpdateError::NotStaged))
    } else if u.impact == UpdateImpact::Interrupt && !allow_interruption {
        (
            rejected(u, UpdateError::InterruptionNotAuthorized),
            Err(UpdateError::InterruptionNotAuthorized),
        )
    } else {
        (
            UpdateModel { state: UpdateState::Activating, error: UpdateError::NoError, ..u },
            Ok(ActivationPlan { disable_service: u.impact == UpdateImpact::Interrupt }),
        )
    }
}

pub open spec fn spec_abort(u: UpdateModel, session: UpdateSessionId) -> (
    UpdateModel,
    Result<(), UpdateError>,
) {
    if session != u.session || u.state == UpdateState::Activating || u.state == UpdateState::Trial {
        (rejected(u, UpdateError::Busy), Err(UpdateError::Busy))
    } else {
        (
            UpdateModel {
                state: UpdateState::Idle,
                error: UpdateError::NoError,
                session: UpdateSessionId(0),
                manifest: None,
                next_offset: 0,
                ..u
            },
            Ok(()),
        )
    }
}

impl UpdateController {
    #[verifier::type_invariant]
    spec fn sequenced(self) -> bool {
        update_invariant(self@)
    }

    pub fn new(target: ImageTarget, impact: UpdateImpact) -> (r: Self)
        ensures
            r@ == spec_update_new(target, impact),
            update_invariant(r@),
    {
        UpdateController {
            target,
            impact,
            state: UpdateState::Idle,
            error: UpdateError::NoError,
            session: UpdateSessionId(0),
            manifest: None,
            next_offset: 0,
        }
    }

    pub fn state(&self) -> (r: UpdateState)
        ensures
            r == self@.state,
            update_invariant(self@),
    {
        proof {
            use_type_invariant(self);
        }
        self.state
    }

    pub fn error(&self) -> (r: UpdateError)
        ensures
            r == self@.error,
    {
        self.error
    }

    pub fn session(&self) -> (r: UpdateSessionId)
        ensures
            r == self@.session,
    {
        self.session
    }

    pub fn manifest(&self) -> (r: Option<UpdateManifest>)
        ensures
            r == self@.manifest,
    {
        self.manifest
    }

    pub fn next_offset(&self) -> (r: u32)
        ensures
            r == self@.next_offset,
    {
        self.next_offset
    }

    fn fail<T>(&mut self, error: UpdateError) -> (r: Result<T, UpdateError>)
        ensures
            final(self)@ == failed(old(self)@, error),
            r matches Err(e) && e == error,
    {
        proof {
            use_type_invariant(&*self);
        }
        self.error = error;
        self.state = UpdateState::Failed;
        Err(error)
    }

    fn reject<T>(&mut self, error: UpdateError) -> (r: Result<T, UpdateError>)
        ensures
            final(self)@ == rejected(old(self)@, error),
            r matches Err(e) && e == error,
    {
        proof {
            use_type_invariant(&*self);
        }
        self.error = error;
        Err(error)
    }

    /// Opens a session for `manifest` when no other update is in progress.
    pub fn begin(&mut self, session: UpdateSessionId, manifest: UpdateManifest) -> (r: Result<
        (),
        UpdateError,
    >)
        ensures
            (final(self)@, r) == spec_begin(old(self)@, session, manifest),
            update_invariant(final(self)@),
    {
        proof {
            use_type_invariant(&*self);
        }
        let idle = match self.state {
            UpdateState::Idle | UpdateState::Failed => true,
            _ => false,
        };
        if !idle {
            return self.reject(UpdateError::Busy);
        }
        if manifest.target != self.target {
            return self.fail(UpdateError::WrongTarget);
        }
        if manifest.image_size == 0 || manifest.image_size > ACTIVE_APPLICATION_BYTES {
            return self.fail(UpdateError::Oversize);
        }
        self.session = session;
        self.manifest = Some(manifest);
        self.next_offset = 0;
        self.error = UpdateError::NoError;
        self.state = UpdateState::Receiving;
        proof {
            use_type_invariant(&*self);
        }
        Ok(())
    }

    /// Accepts the chunk at `offset` when it continues the received prefix
    /// (`Write`) or lies wholly inside it (`Duplicate`, which the storage owner
    /// must still compare with what it wrote).
    pub fn accept_chunk(&mut self, session: UpdateSessionId, offset: u32, len: u8) -> (r: Result<
        ChunkDisposition,
        UpdateError,
    >)
        ensures
            (final(self)@, r) == spec_accept_chunk(old(self)@, session, offset, len),
            update_invariant(final(self)@),
    {
        proof {
            use_type_invariant(&*self);
        }
        if self.state != UpdateState::Receiving || session != self.session {
            return self.reject(UpdateError::Busy);
        }
        let manifest = match self.manifest {
            Some(manifest) => manifest,
            None => {
                return self.fail(UpdateError::InvalidManifest);
            },
        };
        let end = match offset.checked_add(len as u32) {
            Some(end) => end,
            None => {
                return self.reject(UpdateError::Offset);
            },
        };
        if len == 0 || end > manifest.image_size {
            return self.reject(UpdateError::Offset);
        }
        let disposition = if offset == self.next_offset {
            self.next_offset = end;
            ChunkDisposition::Write
        } else if end <= self.next_offset {
            ChunkDisposition::Duplicate
        } else {
            return self.reject(UpdateError::Offset);
        };
        self.error = UpdateError::NoError;
        proof {
            use_type_invariant(&*self);
        }
        Ok(disposition)
    }

    /// Hands the manifest to the verifier once every byte of the image has arrived.
    pub fn begin_verification(&mut self, session: UpdateSessionId) -> (r: Result<
        UpdateManifest,
        UpdateError,
    >)
        ensures
            (final(self)@, r) == spec_begin_verification(old(self)@, session),
            update_invariant(final(self)@),
    {
        proof {
            use_type_invariant(&*self);
        }
        if self.state != UpdateState::Receiving || session != self.session {
            return self.reject(UpdateError::Busy);
        }
        let manifest = match self.manifest {
            Some(manifest) => manifest,
            None => {
                return self.fail(UpdateError::InvalidManifest);
            },
        };
        if self.next_offset != manifest.image_size {
            return self.reject(UpdateError::Offset);
        }
        self.state = UpdateState::Verifying;
        proof {
            use_type_invariant(&*self);
        }
        Ok(manifest)
    }

    pub fn verification_complete(&mut self, valid: bool) -> (r: Result<(), UpdateError>)
        ensures
            (final(self)@, r) == spec_verification_complete(old(self)@, valid),
            update_invariant(final(self)@),
    {
        proof {
            use_type_invariant(&*self);
        }
        if self.state != UpdateState::Verifying {
            return self.fail(UpdateError::Busy);
        }
        if !valid {
            return self.fail(UpdateError::Digest);
        }
        self.state = UpdateState::Staged;
        self.error = UpdateError::NoError;
        proof {
            use_type_invariant(&*self);
        }
        Ok(())
    }

    pub fn activate(&mut self, session: UpdateSessionId, allow_interruption: bool) -> (r: Result<
        ActivationPlan,
        UpdateError,
    >)
        ensures
            (final(self)@, r) == spec_activate(old(self)@, session, allow_interruption),
            update_invariant(final(self)@),
    {
        proof {
            use_type_invariant(&*self);
        }
        if self.state != UpdateState::Staged || session != self.session {
            return self.reject(UpdateError::NotStaged);
        }
        if self.impact == UpdateImpact::Interrupt && !allow_interruption {
            return self.reject(UpdateError::InterruptionNotAuthorized);
        }
        self.state = UpdateState::Activating;
        self.error = UpdateError::NoError;
        proof {
            use_type_invariant(&*self);
        }
        Ok(ActivationPlan { disable_service: self.impact == UpdateImpact::Interrupt })
    }

    pub fn abort(&mut self, session: UpdateSessionId) -> (r: Result<(), UpdateError>)
        ensures
            (final(self)@, r) == spec_abort(old(self)@, session),
            update_invariant(final(self)@),
    {
        proof {
            use_type_invariant(&*self);
        }
        if session != self.session || self.state == UpdateState::Activating || self.state
            == UpdateState::Trial {
            return self.reject(UpdateError::Busy);
        }
        self.state = UpdateState::Idle;
        self.error = UpdateError::NoError;
        self.session = UpdateSessionId(0);
        self.manifest = None;
        self.next_offset = 0;
        Ok(())
    }
}

/// Chunks are taken strictly in order: a written chunk starts exactly at the
/// received prefix and extends it by its length, a duplicate lies wholly
/// inside it and changes nothing, and a gap, an overrun or a stale session is
/// refused without touching the state, session, manifest or resume offset.
pub proof fn lemma_chunks_are_sequential(u: UpdateModel, session: UpdateSessionId, offset: u32, len: u8)
    requires
        update_invariant(u),
    ensures
        ({
            let (v, r) = spec_accept_chunk(u, session, offset, len);
            &&& update_invariant(v)
            &&& r == Ok::<ChunkDisposition, UpdateError>(ChunkDisposition::Write) ==> offset
                == u.next_offset && v.next_offset == offset + len
            &&& r == Ok::<ChunkDisposition, UpdateError>(ChunkDisposition::Duplicate) ==> offset + len
                <= u.next_offset && v.next_offset == u.next_offset
            &&& r is Err ==> v.state == u.state && v.session == u.session && v.manifest
                == u.manifest && v.next_offset == u.next_offset
        }),
{
}

/// An image is never verified, and so never staged, before all of it has
/// arrived: verification of a partial image is refused and leaves the update
/// receiving at the same offset.
pub proof fn lemma_partial_images_never_stage(u: UpdateModel, session: UpdateSessionId, valid: bool)
    requires
        update_invariant(u),
        u.manifest matches Some(m) && u.next_offset != m.image_size,
    ensures
        spec_begin_verification(u, session).1 is Err,
        spec_begin_verification(u, session).0.state == u.state,
        spec_begin_verification(u, session).0.next_offset == u.next_offset,
        spec_verification_complete(u, valid).0.state == UpdateState::Staged ==> u.state
            == UpdateState::Verifying && valid,
        !image_complete_state(u.state),
{
}

/// An update whose activation interrupts service is activated only with
/// explicit authority; without it the staged image stays staged.
pub proof fn lemma_interruption_requires_authority(u: UpdateModel, session: UpdateSessionId)
    requires
        u.impact == UpdateImpact::Interrupt,
    ensures
        spec_activate(u, session, false).1 is Err,
        spec_activate(u, session, false).0.state == u.state,
        spec_activate(u, session, true).1 is Ok ==> spec_activate(u, session, true).1
            == Ok::<ActivationPlan, UpdateError>(ActivationPlan { disable_service: true }),
{
}

/// An image for another target, an empty one, or one larger than the active
/// partition is refused at the start of a session.
pub proof fn lemma_foreign_and_oversized_images_are_refused(
    u: UpdateModel,
    session: UpdateSessionId,
    manifest: UpdateManifest,
)
    requires
        u.state == UpdateState::Idle || u.state == UpdateState::Failed,
        manifest.target != u.target || manifest.image_size == 0 || manifest.image_size
            > ACTIVE_APPLICATION_BYTES,
    ensures
        spec_begin(u, session, manifest).1 is Err,
        spec_begin(u, session, manifest).0.state == UpdateState::Failed,
        spec_begin(u, session, manifest).0.manifest == u.manifest,
{
}

// ---------------------------------------------------------------------------
// Startup stagger
// ---------------------------------------------------------------------------

/// The 32-bit FNV-1a hash of `bytes`.
pub open spec fn fnv1a(bytes: Seq<u8>) -> u32
    decreases bytes.len(),
{
    if bytes.len() == 0 {
        0x811C_9DC5
    } else {
        (((fnv1a(bytes.drop_last()) ^ (bytes.last() as u32)) as nat * 0x0100_0193nat) % 0x1_0000_0000nat) as u32
    }
}

/// The startup delay of a carrier: a deterministic value in 100..=899 ms
/// drawn from its UID, which staggers power restoration on a shared supply.
pub open spec fn spec_startup_delay_ms(uid: NodeUid) -> u16 {
    (100 + fnv1a(uid.spec_bytes()) % 800) as u16
}

pub fn carrier_startup_delay_ms(uid: NodeUid) -> (r: u16)
    ensures
        r == spec_startup_delay_ms(uid),
        100 <= r <= 899,
{
    let bytes = uid.as_bytes();
    let mut hash: u32 = 0x811C_9DC5;
    let mut i: usize = 0;
    while i < 12
        invariant
            i <= 12,
            bytes@ == uid.spec_bytes(),
            hash == fnv1a(bytes@.take(i as int)),
        decreases 12 - i,
    {
        assert(bytes@.take(i + 1).drop_last() =~= bytes@.take(i as int));
        hash = hash ^ (bytes[i] as u32);
        hash = hash.wrapping_mul(0x0100_0193);
        i = i + 1;
    }
    assert(bytes@.take(12) =~= bytes@);
    100 + ((hash % 800) as u16)
}

/// An enabled carrier that loses its output power is faulted: its service
/// becomes `Faulted` and its faults gain `OUTPUT_POWER_BAD` (4) while every
/// fault it had stays; its settings are untouched. A carrier that is
/// enabling and sees power good becomes enabled, with no new fault.
pub proof fn lemma_lost_output_faults_an_enabled_carrier(c: CarrierModel)
    ensures
        c.service == ServiceState::Enabled ==> ({
            let n = spec_observe_output_power_good(c, false);
            &&& n.service == ServiceState::Faulted
            &&& n.faults.spec_bits() & 4 == 4
            &&& n.faults.spec_bits() & c.faults.spec_bits() == c.faults.spec_bits()
            &&& n.faults.spec_bits() & !4u32 == c.faults.spec_bits() & !4u32
            &&& !n.output_power_good
            &&& n.settings == c.settings
        }),
        c.service == ServiceState::Enabling ==> ({
            let n = spec_observe_output_power_good(c, true);
            &&& n.service == ServiceState::Enabled
            &&& n.faults == c.faults
            &&& n.output_power_good
        }),
{
    lemma_set_fault_bit(c.faults.spec_bits(), 4);
}

/// Setting bit `b` of `f` sets it, keeps every bit of `f` and changes no
/// other bit.
proof fn lemma_set_fault_bit(f: u32, b: u32)
    by (bit_vector)
    ensures
        (f | b) & b == b,
        (f | b) & f == f,
        (f | b) & !b == f & !b,
{
}

/// Interruption authority is needed only to activate an update that
/// interrupts service: a staged update of a node whose impact is `Live`
/// is activated whatever `allow_interruption` says, and its plan keeps the
/// service running; an `Interrupt` update is activated, with its service
/// disabled, exactly when interruption is allowed.
pub proof fn lemma_live_update_needs_no_interruption_authority(
    u: UpdateModel,
    session: UpdateSessionId,
    allow_interruption: bool,
)
    requires
        u.state == UpdateState::Staged,
        session == u.session,
    ensures
        u.impact == UpdateImpact::Live ==> spec_activate(u, session, allow_interruption).1
            == Ok::<ActivationPlan, UpdateError>(ActivationPlan { disable_service: false })
            && spec_activate(u, session, allow_interruption).0.state == UpdateState::Activating,
        u.impact == UpdateImpact::Interrupt ==> (spec_activate(u, session, allow_interruption).1 is Ok
            <==> allow_interruption),
        u.impact == UpdateImpact::Interrupt && allow_interruption ==> spec_activate(u, session, true).1
            == Ok::<ActivationPlan, UpdateError>(ActivationPlan { disable_service: true }),
        u.impact == UpdateImpact::Interrupt && !allow_interruption ==> spec_activate(u, session, false).1
            == Err::<ActivationPlan, UpdateError>(UpdateError::InterruptionNotAuthorized),
        u.impact == UpdateImpact::Live ==> spec_activate(u, session, true) == spec_activate(u, session, false),
{
}

/// A policy change is accepted exactly when the policy is valid for the
/// carrier and does not enable a latched carrier. An accepted policy
/// replaces the stored one (the latch stays as it was), is handed on to be
/// persisted, and sets the service enabling or disabled by whether it
/// enables the output; faults and health are untouched. A refused one
/// changes nothing.
pub proof fn lemma_policy_change_is_applied_and_persisted(c: CarrierModel, policy: CarrierPolicy)
    ensures
        ({
            let (n, r) = spec_set_policy(c, policy);
            &&& r is Ok <==> (policy.spec_validate_for(c.descriptor, c.ceiling) is Ok && !(policy.enabled
                && c.settings.emergency_latched))
            &&& r is Ok ==> {
                &&& n.settings.policy == policy
                &&& n.settings.emergency_latched == c.settings.emergency_latched
                &&& r == Ok::<CarrierAction, CarrierError>(CarrierAction::PersistSettings(n.settings))
                &&& n.service == (if policy.enabled {
                    ServiceState::Enabling
                } else {
                    ServiceState::Disabled
                })
                &&& n.faults == c.faults
                &&& n.housekeeping_good == c.housekeeping_good
                &&& n.output_power_good == c.output_power_good
            }
            &&& r is Err ==> n == c
        }),
{
}

/// Losing housekeeping power faults the carrier: the service becomes
/// `Faulted` and the faults gain `HOUSEKEEPING_POWER_BAD` (2), keeping every
/// other fault. Regaining it adds no fault, and moves a starting carrier to
/// disabled while leaving any other service as it was.
pub proof fn lemma_housekeeping_loss_faults_the_carrier(c: CarrierModel)
    ensures
        ({
            let n = spec_set_housekeeping_good(c, false);
            &&& n.service == ServiceState::Faulted
            &&& !n.housekeeping_good
            &&& n.faults.spec_bits() & 2 == 2
            &&& n.faults.spec_bits() & !2u32 == c.faults.spec_bits() & !2u32
            &&& n.settings == c.settings
        }),
        ({
            let n = spec_set_housekeeping_good(c, true);
            &&& n.housekeeping_good
            &&& n.faults == c.faults
            &&& n.service == (if c.service == ServiceState::Starting {
                ServiceState::Disabled
            } else {
                c.service
            })
            &&& n.settings == c.settings
        }),
{
    lemma_set_fault_bit(c.faults.spec_bits(), 2);
}

/// At startup a healthy, unlatched carrier restores its stored policy: it
/// drives the output on and starts enabling when the policy is enabled, and
/// otherwise stays disabled with nothing to drive; an unhealthy or latched
/// carrier is refused and unchanged.
pub proof fn lemma_restore_follows_the_stored_policy(c: CarrierModel)
    ensures
        ({
            let (n, r) = spec_restore_after_startup_delay(c);
            &&& (c.housekeeping_good && !c.settings.emergency_latched && c.settings.policy.enabled) ==> r
                == Ok::<Option<CarrierAction>, CarrierError>(Some(CarrierAction::DriveOutput(true))) && n.service
                == ServiceState::Enabling
            &&& (c.housekeeping_good && !c.settings.emergency_latched && !c.settings.policy.enabled) ==> r
                == Ok::<Option<CarrierAction>, CarrierError>(None) && n.service == ServiceState::Disabled
            &&& !c.housekeeping_good ==> r == Err::<Option<CarrierAction>, CarrierError>(
                CarrierError::HardwareNotReady,
            ) && n == c
            &&& (c.housekeeping_good && c.settings.emergency_latched) ==> r == Err::<
                Option<CarrierAction>,
                CarrierError,
            >(CarrierError::EmergencyLatched) && n == c
            &&& n.settings == c.settings && n.faults == c.faults
        }),
{
}

/// An update runs to staging: a session begins for a manifest of this
/// node's target whose size is 1 ..= the active partition when idle or
/// failed; a chunk at the received offset that stays inside the image is
/// written and advances the offset by its length; a completely received
/// image starts verifying; a valid verification stages it, an invalid one
/// fails the update.
pub proof fn lemma_update_progresses_to_staged(
    u: UpdateModel,
    session: UpdateSessionId,
    manifest: UpdateManifest,
    offset: u32,
    len: u8,
    valid: bool,
)
    ensures
        ((u.state == UpdateState::Idle || u.state == UpdateState::Failed) && manifest.target == u.target && 0
            < manifest.image_size <= ACTIVE_APPLICATION_BYTES) ==> ({
            let (v, r) = spec_begin(u, session, manifest);
            &&& r is Ok
            &&& v.state == UpdateState::Receiving && v.session == session && v.manifest == Some(manifest)
                && v.next_offset == 0
        }),
        (u.state == UpdateState::Receiving && session == u.session && u.manifest is Some && len > 0 && offset
            == u.next_offset && offset + len <= u.manifest->Some_0.image_size) ==> ({
            let (v, r) = spec_accept_chunk(u, session, offset, len);
            &&& r == Ok::<ChunkDisposition, UpdateError>(ChunkDisposition::Write)
            &&& v.next_offset == offset + len && v.state == UpdateState::Receiving
        }),
        (u.state == UpdateState::Receiving && session == u.session && u.manifest is Some && u.next_offset
            == u.manifest->Some_0.image_size) ==> ({
            let (v, r) = spec_begin_verification(u, session);
            &&& r == Ok::<UpdateManifest, UpdateError>(u.manifest->Some_0)
            &&& v.state == UpdateState::Verifying
        }),
        u.state == UpdateState::Verifying ==> ({
            let (v, r) = spec_verification_complete(u, valid);
            &&& (r is Ok <==> valid)
            &&& v.state == (if valid {
                UpdateState::Staged
            } else {
                UpdateState::Failed
            })
        }),
{
}

} // verus!