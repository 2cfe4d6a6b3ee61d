use pdcan::commissioning::CommissioningHeader;
use pdcan::port::commissioning::{
    decode_commissioning, encode_commissioning, CommandResult, CommissioningMessage, DiscoveryInfo,
    PROTOCOL_MAJOR, PROTOCOL_MINOR,
};
use pdcan::port::control::{
    decode_command_response, decode_control_request, decode_request_id, encode_command_response,
    encode_control_request, encode_request_id, CommandResponse, ControlCommand, ControlRequest,
    RequestError,
};
use pdcan::port::model::{PolicyValidationError, PortId, PortPolicy};
use pdcan::port::status::{
    decode_board_info, decode_heartbeat, decode_port_power, decode_port_state, encode_board_info,
    encode_heartbeat, encode_port_power, encode_port_state, BoardInfo, Heartbeat, PortPower,
    PortState, PortStateFlags, ResetFlags,
};
use pdcan::protocol::commissioning_opcode;
use pdcan::protocol::{CodecError, ExtendedId, InvalidHeader, PayloadError};
use pdcan::types::{CommissioningState, FaultFlags, FirmwareVersion, NodeId, NodeUid, RequestId, RequesterId};

#[test]
fn discovery_response_golden_id_and_round_trip() {
    let uid = NodeUid::from_bytes([0, 1, 2, 3, 4, 5, 6, 7, 8, 9, 10, 11]);
    let message = CommissioningMessage::DiscoveryResponse {
        nonce: 0x0102_0304_0506_0708,
        info: DiscoveryInfo {
            uid,
            node_id: Some(NodeId::new(3).unwrap()),
            state: CommissioningState::Commissioned,
            protocol_major: PROTOCOL_MAJOR,
            protocol_minor: PROTOCOL_MINOR,
            firmware: FirmwareVersion { major: 1, minor: 2, patch: 513 },
            hardware_revision: 1,
            supported_ports: 0x3f,
        },
    };
    let frame = encode_commissioning(RequesterId::PDCAN_DEFAULT(), message).unwrap();
    assert_eq!(frame.id().get(), 0x1B8E_1FC2);
    assert_eq!(
        decode_commissioning(frame.id(), frame.payload()),
        Ok((
            CommissioningHeader::new(
                6,
                0x387,
                RequesterId::PDCAN_DEFAULT(),
                commissioning_opcode::DISCOVERY_RESPONSE,
            )
            .unwrap(),
            message,
        ))
    );
}

#[test]
fn every_commissioning_message_round_trips() {
    let uid = NodeUid::from_bytes([0x5a; 12]);
    let node = NodeId::new(17).unwrap();
    let request_id = RequestId(0x1234_5678_9abc_def0);
    let messages = [
        CommissioningMessage::NodeClaim {
            uid,
            node_id: node,
            state: CommissioningState::Claiming,
            claim_nonce: 0,
        },
        CommissioningMessage::Discover { nonce: 77 },
        CommissioningMessage::DiscoveryResponse {
            nonce: 77,
            info: DiscoveryInfo {
                uid,
                node_id: Some(node),
                state: CommissioningState::Commissioned,
                protocol_major: PROTOCOL_MAJOR,
                protocol_minor: PROTOCOL_MINOR,
                firmware: FirmwareVersion { major: 0, minor: 1, patch: 0 },
                hardware_revision: 1,
                supported_ports: 0xff,
            },
        },
        CommissioningMessage::Identify { request_id, uid, duration_seconds: 30 },
        CommissioningMessage::AssignNode { request_id, uid, node_id: node },
        CommissioningMessage::ClearNode { request_id, uid },
        CommissioningMessage::Result {
            request_id,
            uid,
            request_opcode: commissioning_opcode::ASSIGN_NODE,
            result: CommandResult::Success,
            node_id: Some(node),
            state: CommissioningState::Claiming,
        },
    ];
    for message in messages {
        let requester = if matches!(message, CommissioningMessage::NodeClaim { .. }) {
            RequesterId::PROTOCOL()
        } else {
            RequesterId::new(5).unwrap()
        };
        let frame = encode_commissioning(requester, message).unwrap();
        let (header, decoded) = decode_commissioning(frame.id(), frame.payload()).unwrap();
        assert_eq!(header.requester, requester);
        assert_eq!(decoded, message);
    }
}

#[test]
fn corrupted_commissioning_token_is_rejected() {
    let message = CommissioningMessage::DiscoveryResponse {
        nonce: 1,
        info: DiscoveryInfo {
            uid: NodeUid::from_bytes([9; 12]),
            node_id: None,
            state: CommissioningState::Uncommissioned,
            protocol_major: PROTOCOL_MAJOR,
            protocol_minor: PROTOCOL_MINOR,
            firmware: FirmwareVersion { major: 0, minor: 1, patch: 0 },
            hardware_revision: 1,
            supported_ports: 0x3f,
        },
    };
    let frame = encode_commissioning(RequesterId::PDCAN_DEFAULT(), message).unwrap();
    assert_eq!(frame.payload().len(), 32);
    let corrupted_id = ExtendedId::new(frame.id().get() ^ (1 << 10)).unwrap();
    assert!(matches!(
        decode_commissioning(corrupted_id, frame.payload()),
        Err(CodecError::InvalidCommissioningToken(_))
    ));
}

#[test]
fn first_generation_result_codes_reach_sixteen() {
    assert_eq!(CommandResult::try_from(15), Ok(CommandResult::InternalError));
    assert_eq!(CommandResult::InternalError.code(), 15);
    assert_eq!(
        CommandResult::try_from(16),
        Err(PayloadError::InvalidValue { offset: 10, value: 16 })
    );
}

#[test]
fn request_id_is_explicit_little_endian() {
    let mut payload = vec![0u8; 16];
    let request_id = RequestId(0x0102_0304_0506_0708);
    encode_request_id(request_id, &mut payload).unwrap();
    assert_eq!(&payload[..8], &[8, 7, 6, 5, 4, 3, 2, 1]);
    assert_eq!(decode_request_id(&payload), Ok(request_id));
    assert_eq!(decode_request_id(&payload[..7]), Err(RequestError::TooShort));
}

#[test]
fn set_policy_golden_vector_is_strict_little_endian() {
    let policy =
        PortPolicy { enabled: true, max_voltage_mv: 20_000, max_current_ma: 5_000, max_power_mw: 100_000 };
    let request = ControlRequest {
        node: 3,
        requester: RequesterId::PDCAN_DEFAULT(),
        request_id: RequestId(0x0102_0304_0506_0708),
        command: ControlCommand::SetPortPolicy { port: PortId::new(2).unwrap(), policy },
    };
    let frame = encode_control_request(request).unwrap();
    assert_eq!(frame.id().get(), 0x0400_CBC1);
    assert_eq!(
        frame.payload(),
        &[
            0x08, 0x07, 0x06, 0x05, 0x04, 0x03, 0x02, 0x01, 0x01, 0x00, 0x20, 0x4e, 0x88, 0x13, 0x00,
            0x00, 0xa0, 0x86, 0x01, 0x00,
        ]
    );
    assert_eq!(decode_control_request(frame.id(), frame.payload()), Ok(request));
}

#[test]
fn policy_decoder_rejects_reserved_bits_and_non_exact_lengths() {
    let request = ControlRequest {
        node: 1,
        requester: RequesterId::PDCAN_DEFAULT(),
        request_id: RequestId(1),
        command: ControlCommand::SetPortPolicy {
            port: PortId::new(0).unwrap(),
            policy: PortPolicy::SAFE_DISABLED(),
        },
    };
    let frame = encode_control_request(request).unwrap();
    let mut payload = [0; 20];
    payload.copy_from_slice(frame.payload());
    payload[14] = 1;
    assert_eq!(
        decode_control_request(frame.id(), &payload),
        Err(RequestError::Codec(CodecError::Payload(PayloadError::ReservedNonZero { offset: 14 })))
    );
    assert_eq!(
        decode_control_request(frame.id(), &payload[..19]),
        Err(RequestError::Codec(CodecError::Payload(PayloadError::WrongLength {
            expected: 20,
            actual: 19
        })))
    );
}

#[test]
fn seven_amp_policy_is_refused_by_the_decoder() {
    let request = ControlRequest {
        node: 1,
        requester: RequesterId::PDCAN_DEFAULT(),
        request_id: RequestId(1),
        command: ControlCommand::SetPortPolicy {
            port: PortId::new(0).unwrap(),
            policy: PortPolicy {
                enabled: true,
                max_voltage_mv: 20_000,
                max_current_ma: 7_000,
                max_power_mw: 100_000,
            },
        },
    };
    let frame = encode_control_request(request).unwrap();
    assert_eq!(
        decode_control_request(frame.id(), frame.payload()),
        Err(RequestError::InvalidPolicy(PolicyValidationError::CurrentTooHigh))
    );
}

#[test]
fn command_response_round_trip_preserves_requester_and_request_id() {
    let response = CommandResponse {
        node: 9,
        requester: RequesterId::new(4).unwrap(),
        request_id: RequestId(u64::MAX - 4),
        request_opcode: 1,
        request_target: 7,
        result: CommandResult::SuccessPending,
        detail: 0xAABB_CCDD,
    };
    let frame = encode_command_response(response).unwrap();
    assert_eq!(decode_command_response(frame.id(), frame.payload()), Ok(response));
}

#[test]
fn reserved_requester_and_broadcast_scope_are_strict() {
    let request = ControlRequest {
        node: 3,
        requester: RequesterId::PROTOCOL(),
        request_id: RequestId(1),
        command: ControlCommand::RequestStatus { port: PortId::new(0).unwrap() },
    };
    assert_eq!(
        encode_control_request(request),
        Err(RequestError::Codec(CodecError::InvalidHeader(InvalidHeader::Requester(0))))
    );
    assert!(matches!(
        encode_control_request(ControlRequest {
            node: 0,
            requester: RequesterId::PDCAN_DEFAULT(),
            ..request
        }),
        Err(RequestError::Codec(CodecError::InvalidHeader(InvalidHeader::Node(0))))
    ));
    assert!(encode_control_request(ControlRequest {
        node: 0,
        requester: RequesterId::PDCAN_DEFAULT(),
        command: ControlCommand::EmergencyDisable,
        ..request
    })
    .is_ok());

    let uid = NodeUid::from_bytes([1; 12]);
    assert_eq!(
        encode_commissioning(RequesterId::PROTOCOL(), CommissioningMessage::Discover { nonce: 1 }),
        Err(CodecError::InvalidHeader(InvalidHeader::Requester(0)))
    );
    assert_eq!(
        encode_commissioning(
            RequesterId::PDCAN_DEFAULT(),
            CommissioningMessage::NodeClaim {
                uid,
                node_id: NodeId::new(1).unwrap(),
                state: CommissioningState::Claiming,
                claim_nonce: 0,
            }
        ),
        Err(CodecError::InvalidHeader(InvalidHeader::Requester(15)))
    );
}

#[test]
fn state_telemetry_and_management_payloads_round_trip() {
    let port = PortId::new(5).unwrap();
    let state = PortState {
        node: 3,
        port,
        sequence: 0x1234,
        flags: PortStateFlags::from_bits(PortStateFlags::ENABLED | PortStateFlags::MODULE_PRESENT),
        faults: FaultFlags::from_bits_retain(0xa5a5_0001),
        uptime_seconds: 77,
        active_profile: 4,
        slot_generation: 9,
    };
    let state_frame = encode_port_state(state).unwrap();
    assert_eq!(decode_port_state(state_frame.id(), state_frame.payload()), Ok(state));

    let power = PortPower {
        node: 3,
        port,
        sequence: 8,
        voltage_mv: 19_987,
        current_ma: 4_999,
        power_mw: 99_123,
        temperature_centi_c: -1_250,
        contract_voltage_mv: 20_000,
        contract_current_ma: 5_000,
    };
    let power_frame = encode_port_power(power).unwrap();
    assert_eq!(decode_port_power(power_frame.id(), power_frame.payload()), Ok(power));

    let heartbeat = Heartbeat {
        node: 3,
        protocol_major: PROTOCOL_MAJOR,
        protocol_minor: PROTOCOL_MINOR,
        firmware: FirmwareVersion { major: 1, minor: 2, patch: 3 },
        hardware_revision: 1,
        health_flags: 2,
        supported_ports: 0x3f,
        online_ports: 0x21,
        enabled_ports: 1,
        faulted_ports: 0x20,
        emergency_latched: true,
        commissioning_state: CommissioningState::Commissioned,
        reset_flags: ResetFlags::from_bits(ResetFlags::POWER | ResetFlags::INDEPENDENT_WATCHDOG),
        uptime_seconds: 0x0102_0304,
    };
    let heartbeat_frame = encode_heartbeat(heartbeat).unwrap();
    assert_eq!(decode_heartbeat(heartbeat_frame.id(), heartbeat_frame.payload()), Ok(heartbeat));
}

#[test]
fn board_info_retains_versions_and_full_uid() {
    let info = BoardInfo {
        node: 17,
        uid: NodeUid::from_bytes([0x77; 12]),
        commissioning_state: CommissioningState::Commissioned,
        hardware_revision: 1,
        supported_ports: 0x3f,
        firmware: FirmwareVersion { major: 300, minor: 2, patch: 999 },
        protocol_major: PROTOCOL_MAJOR,
        protocol_minor: PROTOCOL_MINOR,
    };
    let frame = encode_board_info(info).unwrap();
    assert_eq!(decode_board_info(frame.id(), frame.payload()), Ok(info));
}

#[test]
fn unknown_port_state_flags_are_refused_by_byte() {
    let state = PortState {
        node: 3,
        port: PortId::new(1).unwrap(),
        sequence: 0,
        flags: PortStateFlags::from_bits(0x0100),
        faults: FaultFlags::from_bits_retain(0),
        uptime_seconds: 0,
        active_profile: 0xff,
        slot_generation: 0,
    };
    assert_eq!(
        encode_port_state(state),
        Err(RequestError::Codec(CodecError::Payload(PayloadError::InvalidValue { offset: 3, value: 1 })))
    );
    assert_eq!(
        encode_port_state(PortState { flags: PortStateFlags::from_bits(0x0080), ..state }),
        Err(RequestError::Codec(CodecError::Payload(PayloadError::InvalidValue { offset: 2, value: 0x80 })))
    );
}
