use pdcan::codec::{encode_control_request, ControlCommand, ControlRequest};
use pdcan::commissioning::{decode_commissioning, encode_commissioning, CommissioningMessage};
use pdcan::telemetry::{decode_node_state, NodeState};
use pdcan::firmware::{
    decode_firmware_ack, decode_firmware_status, encode_firmware_request, FirmwareRequest,
};
use pdcan::protocol::{FIRMWARE_CHUNK_BYTES, PROTOCOL_MAJOR};
use pdcan::sim::options::{parse_options, OptionsError, DEFAULT_UID};
use pdcan::sim::{SimulatedNode, SimulatedProfile, PARTITION_LAYOUT_VERSION};
use pdcan::text::NodeTextError;
use pdcan::types::{
    CapabilityFlags, CarrierPolicy, CarrierProfile, FirmwareVersion, HardwareRevision, ImageTarget, NodeId, PdLimits,
    NodeRole, NodeUid, RequestId, RequesterId, Sha256Digest, UpdateError, UpdateImpact,
    UpdateManifest, UpdateSessionId, UpdateState,
};
use sha2::{Digest, Sha256};

fn uid() -> NodeUid {
    NodeUid::from_bytes([0x42; 12])
}

fn node() -> NodeId {
    NodeId::new(7).unwrap()
}

fn requester() -> RequesterId {
    RequesterId::PDCAN_DEFAULT()
}

#[test]
fn profile_controls_role_capabilities_and_update_impact() {
    let current = SimulatedProfile::Carrier {
        profile: CarrierProfile::Sw3538,
        update_impact: UpdateImpact::Interrupt,
    }
    .descriptor();
    assert_eq!(current.role, NodeRole::Carrier);
    assert_eq!(current.update_impact, UpdateImpact::Interrupt);
    assert!(current.capabilities.contains(CapabilityFlags::USB_PD_CONTROL()));

    let future_live = SimulatedProfile::Carrier {
        profile: CarrierProfile::Accessory,
        update_impact: UpdateImpact::Live,
    }
    .descriptor();
    assert_eq!(future_live.update_impact, UpdateImpact::Live);
    assert!(future_live.capabilities.contains(CapabilityFlags::AUXILIARY_IO()));
}

#[test]
fn discovery_reports_complete_gen2_identity() {
    let mut node = SimulatedNode::new(SimulatedProfile::Backplane, uid(), Some(node()));
    let discover =
        encode_commissioning(requester(), CommissioningMessage::Discover { nonce: 99 }).unwrap();
    let responses = node.handle_frame(discover.id(), discover.payload());
    let (_, CommissioningMessage::DiscoveryResponse { info, .. }) =
        decode_commissioning(responses[0].id(), responses[0].payload()).unwrap()
    else {
        panic!("expected discovery response");
    };
    assert_eq!(info.node_info.descriptor.role, NodeRole::Backplane);
    assert_eq!(info.node_info.descriptor.fan_count, 2);
    assert_eq!(info.protocol_major, PROTOCOL_MAJOR);
}

#[test]
fn update_retries_are_idempotent_and_interrupt_activation_is_guarded() {
    let profile = SimulatedProfile::Carrier {
        profile: CarrierProfile::Sw3538,
        update_impact: UpdateImpact::Interrupt,
    };
    let mut node = SimulatedNode::new(profile, uid(), Some(node()));
    let image = [0xA5; FIRMWARE_CHUNK_BYTES];
    let digest: [u8; 32] = Sha256::digest(image).into();
    let session = UpdateSessionId(12);
    let manifest = UpdateManifest {
        target: ImageTarget {
            role: NodeRole::Carrier,
            carrier_profile: Some(CarrierProfile::Sw3538),
            hardware_revision: HardwareRevision::SIMULATOR(),
            partition_layout: PARTITION_LAYOUT_VERSION,
        },
        version: FirmwareVersion { major: 1, minor: 2, patch: 3 },
        image_size: u32::try_from(image.len()).unwrap(),
        digest: Sha256Digest::from_bytes(digest),
    };

    let begin = encode_firmware_request(
        self::node(),
        requester(),
        FirmwareRequest::Begin { request_id: RequestId(1), session, manifest },
    )
    .unwrap();
    node.handle_frame(begin.id(), begin.payload());

    let mut bytes = [0; FIRMWARE_CHUNK_BYTES];
    bytes.copy_from_slice(&image);
    let data = encode_firmware_request(
        self::node(),
        requester(),
        FirmwareRequest::Data {
            session,
            offset: 0,
            len: u8::try_from(FIRMWARE_CHUNK_BYTES).unwrap(),
            bytes,
        },
    )
    .unwrap();
    node.handle_frame(data.id(), data.payload());
    let retry = node.handle_frame(data.id(), data.payload());
    let retry_ack = decode_firmware_ack(retry[0].id(), retry[0].payload()).unwrap();
    assert_eq!(retry_ack.error, UpdateError::NoError);
    assert_eq!(retry_ack.next_offset, u32::try_from(FIRMWARE_CHUNK_BYTES).unwrap());

    let finish = encode_firmware_request(
        self::node(),
        requester(),
        FirmwareRequest::Finish { request_id: RequestId(2), session },
    )
    .unwrap();
    node.handle_frame(finish.id(), finish.payload());

    let denied = encode_firmware_request(
        self::node(),
        requester(),
        FirmwareRequest::Activate { request_id: RequestId(3), session, allow_interruption: false },
    )
    .unwrap();
    let denied_response = node.handle_frame(denied.id(), denied.payload());
    assert_eq!(
        decode_firmware_ack(denied_response[0].id(), denied_response[0].payload()).unwrap().error,
        UpdateError::InterruptionNotAuthorized
    );

    let status = encode_firmware_request(
        self::node(),
        requester(),
        FirmwareRequest::Status { request_id: RequestId(4) },
    )
    .unwrap();
    let status_response = node.handle_frame(status.id(), status.payload());
    assert_eq!(
        decode_firmware_status(status_response[0].id(), status_response[0].payload())
            .unwrap()
            .state,
        UpdateState::Staged
    );
}

#[test]
fn conflicting_duplicate_chunk_is_reported() {
    let profile = SimulatedProfile::Carrier {
        profile: CarrierProfile::Basic,
        update_impact: UpdateImpact::Live,
    };
    let mut node = SimulatedNode::new(profile, uid(), Some(self::node()));
    let session = UpdateSessionId(2);
    let manifest = UpdateManifest {
        target: ImageTarget {
            role: NodeRole::Carrier,
            carrier_profile: Some(CarrierProfile::Basic),
            hardware_revision: HardwareRevision::SIMULATOR(),
            partition_layout: PARTITION_LAYOUT_VERSION,
        },
        version: FirmwareVersion { major: 1, minor: 0, patch: 0 },
        image_size: 48,
        digest: Sha256Digest::from_bytes([0; 32]),
    };
    let begin = encode_firmware_request(
        self::node(),
        requester(),
        FirmwareRequest::Begin { request_id: RequestId(1), session, manifest },
    )
    .unwrap();
    node.handle_frame(begin.id(), begin.payload());
    let first = encode_firmware_request(
        self::node(),
        requester(),
        FirmwareRequest::Data { session, offset: 0, len: 48, bytes: [1; 48] },
    )
    .unwrap();
    node.handle_frame(first.id(), first.payload());
    let changed = encode_firmware_request(
        self::node(),
        requester(),
        FirmwareRequest::Data { session, offset: 0, len: 48, bytes: [2; 48] },
    )
    .unwrap();
    let response = node.handle_frame(changed.id(), changed.payload());
    assert_eq!(
        decode_firmware_ack(response[0].id(), response[0].payload()).unwrap().error,
        UpdateError::ConflictingData
    );
    let finish = encode_firmware_request(
        self::node(),
        requester(),
        FirmwareRequest::Finish { request_id: RequestId(2), session },
    )
    .unwrap();
    let response = node.handle_frame(finish.id(), finish.payload());
    let ack = decode_firmware_ack(response[0].id(), response[0].payload()).unwrap();
    assert_eq!(ack.error, UpdateError::Digest);
    assert_eq!(ack.state, UpdateState::Failed);
}

fn strings(values: &[&str]) -> Vec<String> {
    values.iter().map(|value| (*value).to_owned()).collect()
}

#[test]
fn default_is_the_current_interrupt_carrier() {
    let options = parse_options(&Vec::new()).unwrap();
    assert_eq!(
        options.profile,
        SimulatedProfile::Carrier {
            profile: CarrierProfile::Sw3538,
            update_impact: UpdateImpact::Interrupt,
        }
    );
}

#[test]
fn mixed_future_profiles_and_live_capability_are_explicit() {
    let options = parse_options(&strings(&[
        "--profile",
        "accessory",
        "--update-impact",
        "live",
        "--node",
        "9",
    ]))
    .unwrap();
    assert_eq!(
        options.profile,
        SimulatedProfile::Carrier {
            profile: CarrierProfile::Accessory,
            update_impact: UpdateImpact::Live,
        }
    );
    assert_eq!(options.node_id, Some(NodeId::new(9).unwrap()));
}

#[test]
fn simulator_defaults_and_option_errors() {
    let options = parse_options(&Vec::new()).unwrap();
    assert_eq!(options.node_id, Some(NodeId::new(3).unwrap()));
    assert_eq!(options.uid, DEFAULT_UID());
    assert_eq!(options.interface, None);
    assert_eq!(options.max_requests, None);

    let options = parse_options(&strings(&[
        "--role", "backplane", "-i", "vcan0", "--max-requests", "5", "--node", "none",
    ]))
    .unwrap();
    assert_eq!(options.profile, SimulatedProfile::Backplane);
    assert_eq!(options.interface, Some("vcan0".to_owned()));
    assert_eq!(options.max_requests, Some(5));
    assert_eq!(options.node_id, None);

    assert_eq!(
        parse_options(&strings(&["--role"])),
        Err(OptionsError::MissingValue { index: 0 })
    );
    assert_eq!(
        parse_options(&strings(&["--role", "gateway"])),
        Err(OptionsError::InvalidRole)
    );
    assert_eq!(
        parse_options(&strings(&["--profile", "100w"])),
        Err(OptionsError::InvalidProfile)
    );
    assert_eq!(
        parse_options(&strings(&["--update-impact", "never"])),
        Err(OptionsError::InvalidUpdateImpact)
    );
    assert_eq!(
        parse_options(&strings(&["--uid", "1234"])),
        Err(OptionsError::InvalidUid)
    );
    assert_eq!(
        parse_options(&strings(&["--node", "255"])),
        Err(OptionsError::InvalidNode { index: 1, error: NodeTextError::OutOfRange(255) })
    );
    assert_eq!(
        parse_options(&strings(&["--max-requests", "many"])),
        Err(OptionsError::InvalidRequestCount { index: 1 })
    );
    assert_eq!(
        parse_options(&strings(&["--max-requests", "0"])),
        Err(OptionsError::ZeroRequests)
    );
    assert_eq!(
        parse_options(&strings(&["--verbose"])),
        Err(OptionsError::UnknownOption { index: 0 })
    );
}

fn control(node: u8, request_id: u64, command: ControlCommand) -> pdcan::protocol::WireFrame {
    encode_control_request(ControlRequest {
        node,
        requester: requester(),
        request_id: RequestId(request_id),
        command,
    })
    .unwrap()
}

fn state_of(node: &mut SimulatedNode) -> NodeState {
    let status = control(7, 100, ControlCommand::RequestStatus);
    let responses = node.handle_frame(status.id(), status.payload());
    decode_node_state(responses[1].id(), responses[1].payload()).unwrap()
}

#[test]
fn broadcast_emergency_latches_and_acknowledge_keeps_output_off() {
    let profile = SimulatedProfile::Carrier {
        profile: CarrierProfile::Sw3538,
        update_impact: UpdateImpact::Interrupt,
    };
    let mut node = SimulatedNode::new(profile, uid(), Some(self::node()));
    let enable = control(
        7,
        1,
        ControlCommand::SetCarrierPolicy(CarrierPolicy {
            enabled: true,
            pd_limits: Some(PdLimits::SW3538_SAFE_MAX()),
        }),
    );
    node.handle_frame(enable.id(), enable.payload());
    assert!(state_of(&mut node).output_enabled);

    let emergency = control(0, 2, ControlCommand::EmergencyDisable);
    assert!(node.handle_frame(emergency.id(), emergency.payload()).len() == 1);
    let latched = state_of(&mut node);
    assert!(latched.emergency_latched);
    assert!(!latched.output_enabled);

    let acknowledge = control(7, 3, ControlCommand::AcknowledgeEmergency);
    node.handle_frame(acknowledge.id(), acknowledge.payload());
    let cleared = state_of(&mut node);
    assert!(!cleared.emergency_latched);
    assert!(!cleared.output_enabled);

    let mut unaddressed = SimulatedNode::new(profile, uid(), None);
    assert!(unaddressed.handle_frame(emergency.id(), emergency.payload()).is_empty());
    let other = control(8, 4, ControlCommand::RequestStatus);
    assert!(node.handle_frame(other.id(), other.payload()).is_empty());
}
