use pdcan::node::{
    carrier_startup_delay_ms, ActivationPlan, BackplaneAction, BackplaneController,
    BackplaneSettings, CarrierAction, CarrierController, CarrierError, CarrierSettings,
    ChunkDisposition, Commissioning, UpdateController, ACTIVE_APPLICATION_BYTES,
};
use pdcan::types::{
    CapabilityFlags, CarrierPolicy, CarrierProfile, CommissioningState, FanConfig, FanId, FirmwareVersion,
    HardwareRevision, ImageTarget, NodeDescriptor, NodeId, NodeRole, NodeUid, PdLimits,
    ServiceState, Sha256Digest, UpdateError, UpdateImpact, UpdateManifest, UpdateSessionId,
    UpdateState,
};

fn carrier_capabilities() -> CapabilityFlags {
    CapabilityFlags::FIRMWARE_UPDATE()
        .union(CapabilityFlags::SWITCHABLE_OUTPUT())
        .union(CapabilityFlags::LOAD_MONITORING())
        .union(CapabilityFlags::USB_PD_CONTROL())
}

fn backplane_capabilities() -> CapabilityFlags {
    CapabilityFlags::FIRMWARE_UPDATE()
        .union(CapabilityFlags::FAN_CONTROL())
        .union(CapabilityFlags::FAN_TACHOMETER())
        .union(CapabilityFlags::AGGREGATE_POWER())
}

fn carrier_descriptor() -> NodeDescriptor {
    NodeDescriptor {
        role: NodeRole::Carrier,
        carrier_profile: Some(CarrierProfile::Sw3538),
        hardware_revision: HardwareRevision::REV_A(),
        capabilities: carrier_capabilities(),
        update_impact: UpdateImpact::Interrupt,
        output_count: 1,
        fan_count: 0,
        external_temperature_capacity: 0,
    }
}

fn backplane_descriptor() -> NodeDescriptor {
    NodeDescriptor {
        role: NodeRole::Backplane,
        carrier_profile: None,
        hardware_revision: HardwareRevision::REV_A(),
        capabilities: backplane_capabilities(),
        update_impact: UpdateImpact::Interrupt,
        output_count: 0,
        fan_count: 2,
        external_temperature_capacity: 0xFF,
    }
}

fn manifest() -> UpdateManifest {
    UpdateManifest {
        target: ImageTarget {
            role: NodeRole::Carrier,
            carrier_profile: Some(CarrierProfile::Sw3538),
            hardware_revision: HardwareRevision::REV_A(),
            partition_layout: 1,
        },
        version: FirmwareVersion { major: 2, minor: 0, patch: 0 },
        image_size: 96,
        digest: Sha256Digest::from_bytes([0xA5; 32]),
    }
}

#[test]
fn duplicate_node_claims_suppress_normal_traffic() {
    let uid = NodeUid::from_bytes([1; 12]);
    let other = NodeUid::from_bytes([2; 12]);
    let id = NodeId::new(7).unwrap();
    let mut commissioning = Commissioning::new(uid, Some(id));
    commissioning.claim_window_complete();
    assert!(commissioning.normal_traffic_allowed());
    commissioning.observe_claim(other, id);
    assert!(!commissioning.normal_traffic_allowed());
    assert_eq!(commissioning.conflicting_uid(), Some(other));
}

#[test]
fn carrier_output_is_off_until_health_and_stagger_complete() {
    let mut carrier = CarrierController::new(
        carrier_descriptor(),
        Some(PdLimits::SW3538_SAFE_MAX()),
        CarrierSettings {
            policy: CarrierPolicy { enabled: true, pd_limits: Some(PdLimits::SW3538_SAFE_MAX()) },
            emergency_latched: false,
        },
    )
    .unwrap();
    assert_eq!(carrier.service(), ServiceState::Starting);
    assert_eq!(carrier.restore_after_startup_delay(), Err(CarrierError::HardwareNotReady));
    carrier.set_housekeeping_good(true);
    assert_eq!(carrier.restore_after_startup_delay(), Ok(Some(CarrierAction::DriveOutput(true))));
}

#[test]
fn emergency_disables_carrier_and_forces_backplane_cooling_safe() {
    let mut carrier = CarrierController::new(
        carrier_descriptor(),
        Some(PdLimits::SW3538_SAFE_MAX()),
        CarrierSettings::SW3538_FACTORY_DEFAULT(),
    )
    .unwrap();
    assert_eq!(carrier.emergency_disable(), CarrierAction::DriveOutputThenPersistEmergency);
    assert!(carrier.settings().emergency_latched);

    let mut backplane =
        BackplaneController::new(backplane_descriptor(), BackplaneSettings::FACTORY_DEFAULT()).unwrap();
    assert_eq!(backplane.emergency_disable(), BackplaneAction::DriveAllFansSafeThenPersistEmergency);
    assert_eq!(backplane.settings().fans, [FanConfig::SAFE_DEFAULT(); 2]);
}

#[test]
fn update_is_sequential_and_partial_images_never_stage() {
    let mut update = UpdateController::new(manifest().target, UpdateImpact::Interrupt);
    let session = UpdateSessionId(5);
    update.begin(session, manifest()).unwrap();
    assert_eq!(update.accept_chunk(session, 0, 48), Ok(ChunkDisposition::Write));
    assert_eq!(update.accept_chunk(session, 0, 48), Ok(ChunkDisposition::Duplicate));
    assert_eq!(update.begin_verification(session), Err(UpdateError::Offset));
    assert_eq!(update.state(), UpdateState::Receiving);
    assert_eq!(update.next_offset(), 48);
    assert_eq!(update.accept_chunk(session, 48, 48), Ok(ChunkDisposition::Write));
    assert_eq!(update.error(), UpdateError::NoError);
}

#[test]
fn gaps_and_stale_sessions_are_rejected_without_destroying_resume_state() {
    let mut update = UpdateController::new(manifest().target, UpdateImpact::Interrupt);
    let session = UpdateSessionId(5);
    update.begin(session, manifest()).unwrap();
    update.accept_chunk(session, 0, 48).unwrap();

    assert_eq!(update.accept_chunk(session, 72, 24), Err(UpdateError::Offset));
    assert_eq!(update.state(), UpdateState::Receiving);
    assert_eq!(update.next_offset(), 48);
    assert_eq!(update.accept_chunk(UpdateSessionId(6), 48, 48), Err(UpdateError::Busy));
    assert_eq!(update.state(), UpdateState::Receiving);
    assert_eq!(update.next_offset(), 48);
}

#[test]
fn interrupt_profiles_require_explicit_activation_authority() {
    let mut update = UpdateController::new(manifest().target, UpdateImpact::Interrupt);
    let session = UpdateSessionId(8);
    update.begin(session, manifest()).unwrap();
    update.accept_chunk(session, 0, 48).unwrap();
    update.accept_chunk(session, 48, 48).unwrap();
    update.begin_verification(session).unwrap();
    update.verification_complete(true).unwrap();
    assert_eq!(update.activate(session, false), Err(UpdateError::InterruptionNotAuthorized));
    assert_eq!(update.state(), UpdateState::Staged);
    assert_eq!(update.activate(session, true), Ok(ActivationPlan { disable_service: true }));
}

#[test]
fn wrong_role_images_and_oversized_images_are_rejected() {
    let mut update = UpdateController::new(manifest().target, UpdateImpact::Interrupt);
    let mut wrong = manifest();
    wrong.target.role = NodeRole::Backplane;
    wrong.target.carrier_profile = None;
    assert_eq!(update.begin(UpdateSessionId(1), wrong), Err(UpdateError::WrongTarget));

    let mut update = UpdateController::new(manifest().target, UpdateImpact::Interrupt);
    let mut oversized = manifest();
    oversized.image_size = ACTIVE_APPLICATION_BYTES + 1;
    assert_eq!(update.begin(UpdateSessionId(2), oversized), Err(UpdateError::Oversize));
}

#[test]
fn startup_stagger_is_deterministic_and_bounded() {
    let uid = NodeUid::from_bytes([0x42; 12]);
    let delay = carrier_startup_delay_ms(uid);
    assert!((100..=899).contains(&delay));
    assert_eq!(carrier_startup_delay_ms(uid), delay);
}

#[test]
fn startup_stagger_matches_fnv1a_of_the_uid() {
    let uid = NodeUid::from_bytes([0; 12]);
    let mut hash: u32 = 0x811C_9DC5;
    for _ in 0..12 {
        hash ^= 0;
        hash = hash.wrapping_mul(0x0100_0193);
    }
    assert_eq!(carrier_startup_delay_ms(uid), 100 + (hash % 800) as u16);
}

#[test]
fn conflict_persists_until_a_new_address_is_applied() {
    let uid = NodeUid::from_bytes([1; 12]);
    let id = NodeId::new(7).unwrap();
    let mut commissioning = Commissioning::new(uid, Some(id));
    commissioning.observe_claim(NodeUid::from_bytes([2; 12]), id);
    commissioning.claim_window_complete();
    assert!(!commissioning.normal_traffic_allowed());
    commissioning.apply_persisted_node_id(Some(NodeId::new(8).unwrap()));
    assert_eq!(commissioning.conflicting_uid(), None);
    commissioning.claim_window_complete();
    assert!(commissioning.normal_traffic_allowed());
}

#[test]
fn emergency_latch_blocks_enable_until_acknowledged() {
    let mut carrier = CarrierController::new(
        carrier_descriptor(),
        Some(PdLimits::SW3538_SAFE_MAX()),
        CarrierSettings::SW3538_FACTORY_DEFAULT(),
    )
    .unwrap();
    carrier.set_housekeeping_good(true);
    carrier.emergency_disable();
    let enable = CarrierPolicy { enabled: true, pd_limits: Some(PdLimits::SW3538_SAFE_MAX()) };
    assert_eq!(carrier.set_policy(enable), Err(CarrierError::EmergencyLatched));
    assert_eq!(carrier.restore_after_startup_delay(), Err(CarrierError::EmergencyLatched));
    assert!(carrier.acknowledge_emergency().is_ok());
    assert_eq!(carrier.faults().bits() & 1, 0);
    assert!(carrier.set_policy(enable).is_ok());
    assert_eq!(carrier.policy_persisted(), CarrierAction::DriveOutput(true));
    assert_eq!(carrier.acknowledge_emergency(), Err(CarrierError::EmergencyAlreadyClear));
}

#[test]
fn backplane_fan_update_changes_only_that_fan() {
    let mut backplane =
        BackplaneController::new(backplane_descriptor(), BackplaneSettings::FACTORY_DEFAULT()).unwrap();
    let fan = FanId::new(1).unwrap();
    assert!(backplane.set_fan(fan, FanConfig { duty_percent: 101 }).is_err());
    backplane.set_fan(fan, FanConfig { duty_percent: 40 }).unwrap();
    assert_eq!(backplane.settings().fans, [FanConfig { duty_percent: 100 }, FanConfig { duty_percent: 40 }]);
    assert_eq!(
        backplane.fan_settings_persisted(fan),
        BackplaneAction::DriveFan { fan, config: FanConfig { duty_percent: 40 } }
    );
}

#[test]
fn abort_resets_the_session_except_while_activating() {
    let mut update = UpdateController::new(manifest().target, UpdateImpact::Live);
    let session = UpdateSessionId(3);
    update.begin(session, manifest()).unwrap();
    assert_eq!(update.abort(UpdateSessionId(4)), Err(UpdateError::Busy));
    assert_eq!(update.abort(session), Ok(()));
    assert_eq!(update.state(), UpdateState::Idle);
    assert_eq!(update.manifest(), None);
    update.begin(session, manifest()).unwrap();
    update.accept_chunk(session, 0, 96).unwrap();
    update.begin_verification(session).unwrap();
    assert_eq!(update.verification_complete(false), Err(UpdateError::Digest));
    assert_eq!(update.state(), UpdateState::Failed);
}

#[test]
fn duplicate_claim_keeps_persisted_id_but_suppresses_normal_traffic() {
    let own_uid = NodeUid::from_bytes([1; NodeUid::LENGTH]);
    let other_uid = NodeUid::from_bytes([2; NodeUid::LENGTH]);
    let node = NodeId::new(7).unwrap();
    let mut commissioning = Commissioning::new(own_uid, Some(node));

    assert_eq!(commissioning.state(), CommissioningState::Claiming);
    assert!(!commissioning.normal_traffic_allowed());
    commissioning.claim_window_complete();
    assert!(commissioning.normal_traffic_allowed());

    commissioning.observe_claim(other_uid, node);
    assert_eq!(commissioning.state(), CommissioningState::AddressConflict);
    assert_eq!(commissioning.node_id(), Some(node));
    assert_eq!(commissioning.conflicting_uid(), Some(other_uid));
    assert!(!commissioning.normal_traffic_allowed());
}

#[test]
fn assigning_or_clearing_a_node_restarts_commissioning_state() {
    let uid = NodeUid::from_bytes([3; NodeUid::LENGTH]);
    let node = NodeId::new(42).unwrap();
    let mut commissioning = Commissioning::new(uid, None);
    assert_eq!(commissioning.state(), CommissioningState::Uncommissioned);

    commissioning.apply_persisted_node_id(Some(node));
    assert_eq!(commissioning.state(), CommissioningState::Claiming);
    commissioning.claim_window_complete();
    assert_eq!(commissioning.state(), CommissioningState::Commissioned);

    commissioning.apply_persisted_node_id(None);
    assert_eq!(commissioning.state(), CommissioningState::Uncommissioned);
    assert!(!commissioning.normal_traffic_allowed());
}
