use pdcan::codec::{decode_control_request, encode_control_request, ControlCommand, ControlRequest};
use pdcan::commissioning::{
    decode_commissioning, encode_commissioning, CommissioningMessage, DiscoveryInfo,
};
use pdcan::firmware::{
    decode_firmware_request, decode_firmware_status, encode_firmware_request,
    encode_firmware_status, FirmwareRequest, FirmwareStatus,
};
use pdcan::commissioning::{commissioning_token, node_claim_token};
use pdcan::protocol::{control_opcode, InvalidHeader, INVALID_NODE};
use pdcan::protocol::definitions::MESSAGE_DEFINITIONS;
use pdcan::protocol::{
    is_can_fd_length, Header, MessageClass, FIRMWARE_CHUNK_BYTES, MAX_OPCODE, MAX_PRIORITY,
    NODE_TARGET, PROTOCOL_MAJOR, PROTOCOL_MINOR,
};
use pdcan::telemetry::{
    decode_binding, decode_node_info, decode_power, decode_temperature, encode_binding,
    encode_node_info, encode_power, encode_temperature, BindingInfo, NodeInfo, PowerTelemetry,
    TemperatureTelemetry,
};
use pdcan::types::{
    CapabilityFlags, CarrierBinding, CarrierPolicy, CarrierProfile, CommissioningState, FanConfig,
    FanId, FirmwareVersion, HardwareRevision, ImageTarget, NodeDescriptor, NodeId, NodeRole,
    NodeUid, PdLimits, PowerReading, PowerSource, RequestId, RequesterId, SampleStatus,
    Sha256Digest, SlotIndex, TemperatureReading, TemperatureSensorId, UpdateError, UpdateImpact,
    UpdateManifest, UpdateSessionId, UpdateState,
};

fn carrier_capabilities() -> CapabilityFlags {
    CapabilityFlags::FIRMWARE_UPDATE()
        .union(CapabilityFlags::SWITCHABLE_OUTPUT())
        .union(CapabilityFlags::LOAD_MONITORING())
        .union(CapabilityFlags::USB_PD_CONTROL())
        .union(CapabilityFlags::USB_PD_STATUS())
        .union(CapabilityFlags::INTERNAL_TEMPERATURE())
        .union(CapabilityFlags::USER_BUTTON())
}

fn node_info(node: u8) -> NodeInfo {
    NodeInfo {
        node,
        descriptor: NodeDescriptor {
            role: NodeRole::Carrier,
            carrier_profile: Some(CarrierProfile::Sw3538),
            hardware_revision: HardwareRevision::REV_A(),
            capabilities: carrier_capabilities(),
            update_impact: UpdateImpact::Interrupt,
            output_count: 1,
            fan_count: 0,
            external_temperature_capacity: 0,
        },
        firmware: FirmwareVersion { major: 1, minor: 2, patch: 3 },
        bootloader: FirmwareVersion { major: 0, minor: 7, patch: 0 },
        partition_layout: 1,
    }
}

#[test]
fn protocol_major_is_a_clean_gen2_break() {
    assert_eq!(PROTOCOL_MAJOR, 1);
    assert_eq!(PROTOCOL_MINOR, 0);
    assert!(!MESSAGE_DEFINITIONS()
        .iter()
        .any(|definition| definition.name.contains("PORT") || definition.name.contains("BOARD")));
}

#[test]
fn every_message_uses_a_legal_can_fd_length() {
    for definition in MESSAGE_DEFINITIONS() {
        assert!(is_can_fd_length(definition.payload_len));
        assert!(definition.opcode <= MAX_OPCODE);
        assert!(definition.priority <= MAX_PRIORITY);
    }
}

#[test]
fn header_round_trip_preserves_requester() {
    let header = Header::new(
        1,
        MessageClass::Control,
        3,
        NODE_TARGET,
        RequesterId::PDCAN_DEFAULT(),
        control_opcode::REQUEST_STATUS,
    )
    .unwrap();
    assert_eq!(Header::decode(header.encode()), Ok(header));
}

#[test]
fn carrier_policy_and_two_fan_targets_round_trip() {
    let policy = ControlRequest {
        node: 7,
        requester: RequesterId::PDCAN_DEFAULT(),
        request_id: RequestId(42),
        command: ControlCommand::SetCarrierPolicy(CarrierPolicy {
            enabled: true,
            pd_limits: Some(PdLimits::SW3538_SAFE_MAX()),
        }),
    };
    let frame = encode_control_request(policy).unwrap();
    assert_eq!(decode_control_request(frame.id(), frame.payload()), Ok(policy));

    for raw in FanId::MIN..=FanId::MAX {
        let request = ControlRequest {
            command: ControlCommand::SetFan {
                fan: FanId::new(raw).unwrap(),
                config: FanConfig { duty_percent: 73 },
            },
            ..policy
        };
        let frame = encode_control_request(request).unwrap();
        assert_eq!(decode_control_request(frame.id(), frame.payload()), Ok(request));
    }
}

#[test]
fn binding_round_trip_keeps_full_backplane_uid() {
    let info = BindingInfo {
        node: 9,
        binding: Some(CarrierBinding {
            backplane_uid: NodeUid::from_bytes([0xA5; 12]),
            slot: SlotIndex::new(0).unwrap(),
        }),
    };
    let frame = encode_binding(info).unwrap();
    assert_eq!(decode_binding(frame.id(), frame.payload()), Ok(info));
}

#[test]
fn node_info_advertises_profile_and_interrupt_update_impact() {
    let info = node_info(7);
    let frame = encode_node_info(info).unwrap();
    assert_eq!(decode_node_info(frame.id(), frame.payload()), Ok(info));
}

#[test]
fn discovery_includes_the_complete_gen2_identity() {
    let message = CommissioningMessage::DiscoveryResponse {
        nonce: 0x0102_0304_0506_0708,
        info: DiscoveryInfo {
            uid: NodeUid::from_bytes([0x3C; 12]),
            node_id: Some(NodeId::new(7).unwrap()),
            state: CommissioningState::Commissioned,
            protocol_major: PROTOCOL_MAJOR,
            protocol_minor: PROTOCOL_MINOR,
            node_info: node_info(7),
        },
    };
    let frame = encode_commissioning(RequesterId::PDCAN_DEFAULT(), message).unwrap();
    assert_eq!(frame.payload().len(), 64);
    assert_eq!(decode_commissioning(frame.id(), frame.payload()).unwrap().1, message);
}

#[test]
fn power_and_all_temperature_sources_remain_distinct() {
    let power = PowerTelemetry {
        node: 3,
        reading: PowerReading {
            source: PowerSource::CarrierInput,
            sequence: 1,
            voltage_mv: 24_000,
            current_ma: 4_100,
            power_mw: 98_400,
        },
    };
    let frame = encode_power(power).unwrap();
    assert_eq!(decode_power(frame.id(), frame.payload()), Ok(power));

    for sensor in [
        TemperatureSensorId::STM32_DIE(),
        TemperatureSensorId::INA237_DIE(),
        TemperatureSensorId::one_wire(0x28AA_0102_0304_056B),
    ] {
        let temperature = TemperatureTelemetry {
            node: 3,
            reading: TemperatureReading {
                sensor,
                sequence: 2,
                status: SampleStatus::Valid,
                temperature_centi_c: Some(3_125),
            },
        };
        let frame = encode_temperature(temperature).unwrap();
        assert_eq!(decode_temperature(frame.id(), frame.payload()), Ok(temperature));
    }
}

#[test]
fn firmware_begin_and_48_byte_chunks_round_trip() {
    let begin = FirmwareRequest::Begin {
        request_id: RequestId(99),
        session: UpdateSessionId(0x1234_5678),
        manifest: UpdateManifest {
            target: ImageTarget {
                role: NodeRole::Carrier,
                carrier_profile: Some(CarrierProfile::Sw3538),
                hardware_revision: HardwareRevision::REV_A(),
                partition_layout: 1,
            },
            version: FirmwareVersion { major: 2, minor: 0, patch: 1 },
            image_size: 100 * 1024,
            digest: Sha256Digest::from_bytes([0x5A; 32]),
        },
    };
    let node = NodeId::new(3).unwrap();
    let frame = encode_firmware_request(node, RequesterId::PDCAN_DEFAULT(), begin).unwrap();
    assert_eq!(
        decode_firmware_request(frame.id(), frame.payload()),
        Ok((node, RequesterId::PDCAN_DEFAULT(), begin))
    );

    let data = FirmwareRequest::Data {
        session: UpdateSessionId(0x1234_5678),
        offset: 48,
        len: 48,
        bytes: [0xA5; FIRMWARE_CHUNK_BYTES],
    };
    let frame = encode_firmware_request(node, RequesterId::PDCAN_DEFAULT(), data).unwrap();
    assert_eq!(
        decode_firmware_request(frame.id(), frame.payload()),
        Ok((node, RequesterId::PDCAN_DEFAULT(), data))
    );
}

#[test]
fn interrupt_activation_is_explicit_on_the_wire() {
    let request = FirmwareRequest::Activate {
        request_id: RequestId(10),
        session: UpdateSessionId(5),
        allow_interruption: true,
    };
    let node = NodeId::new(4).unwrap();
    let frame = encode_firmware_request(node, RequesterId::PDCAN_DEFAULT(), request).unwrap();
    assert_eq!(frame.payload()[12], 1);
    assert_eq!(
        decode_firmware_request(frame.id(), frame.payload()),
        Ok((node, RequesterId::PDCAN_DEFAULT(), request))
    );
}

#[test]
fn status_carries_running_staged_state_and_full_digest() {
    let status = FirmwareStatus {
        node: 8,
        requester: RequesterId::PDCAN_DEFAULT(),
        request_id: RequestId(77),
        state: UpdateState::Staged,
        error: UpdateError::NoError,
        impact: UpdateImpact::Interrupt,
        running: FirmwareVersion { major: 1, minor: 0, patch: 0 },
        staged: Some(FirmwareVersion { major: 1, minor: 1, patch: 0 }),
        session: UpdateSessionId(22),
        next_offset: 100 * 1024,
        digest: Sha256Digest::from_bytes([0xCC; 32]),
    };
    let frame = encode_firmware_status(status).unwrap();
    assert_eq!(decode_firmware_status(frame.id(), frame.payload()), Ok(status));
}

#[test]
fn golden_header_vector_includes_requester_id() {
    let header = Header::new(1, MessageClass::Control, 3, 4, RequesterId::PDCAN_DEFAULT(), 2).unwrap();
    let encoded = header.encode();
    assert_eq!(encoded.get(), 0x0400_D3C2);
    assert_eq!(Header::decode(encoded), Ok(header));
}

#[test]
fn invalid_node_and_opcode_are_rejected() {
    assert!(matches!(
        Header::new(1, MessageClass::Control, INVALID_NODE, 0, RequesterId::PDCAN_DEFAULT(), 0),
        Err(InvalidHeader::Node(INVALID_NODE))
    ));
    assert!(matches!(
        Header::new(1, MessageClass::Control, 1, 0, RequesterId::PDCAN_DEFAULT(), 64),
        Err(InvalidHeader::Opcode(64))
    ));
}

#[test]
fn commissioning_token_has_a_golden_crc_vector() {
    let uid = NodeUid::from_bytes([0, 1, 2, 3, 4, 5, 6, 7, 8, 9, 10, 11]);
    assert_eq!(commissioning_token(uid, 0x0102_0304_0506_0708), 0x387);
    assert_eq!(node_claim_token(uid, NodeId::new(7).unwrap(), 0), 0xe2b);
}

#[test]
fn rotating_discovery_nonce_separates_a_real_twelve_bit_collision() {
    let mut by_token: Vec<Option<NodeUid>> = vec![None; 4096];
    let mut collision = None;
    for suffix in 0..=u16::MAX {
        let suffix_bytes = suffix.to_le_bytes();
        let uid = NodeUid::from_bytes([0, 1, 2, 3, 4, 5, 6, 7, 8, 9, suffix_bytes[0], suffix_bytes[1]]);
        let token = usize::from(commissioning_token(uid, 1));
        if let Some(other) = by_token[token] {
            if commissioning_token(other, 2) != commissioning_token(uid, 2) {
                collision = Some((other, uid));
                break;
            }
        }
        by_token[token] = Some(uid);
    }
    let (first, second) = collision.expect("pigeonhole search finds a nonce-rotatable collision");
    assert_eq!(commissioning_token(first, 1), commissioning_token(second, 1));
    assert_ne!(commissioning_token(first, 2), commissioning_token(second, 2));
}

#[test]
fn every_allocated_message_fits_header_and_can_fd_payload() {
    for definition in MESSAGE_DEFINITIONS() {
        assert!(definition.opcode <= MAX_OPCODE);
        assert!(definition.priority <= MAX_PRIORITY);
        assert!(matches!(definition.payload_len, 0..=8 | 12 | 16 | 20 | 24 | 32 | 48 | 64));
    }
    assert_eq!(
        pdcan::protocol::WireFrame::new(pdcan::protocol::ExtendedId::new(1).unwrap(), &[0; 9]),
        Err(pdcan::protocol::FrameError::InvalidCanFdLength(9))
    );
}
