use pdcan::firmware::{FirmwareAck, FirmwareRequest, FirmwareStatus};
use pdcan::codec::ControlCommand;
use pdcan::commissioning::{CommissioningMessage, DecodedHeader, DiscoveryInfo};
use pdcan::host::scan::ScanResults;
use pdcan::host::args::{parse_network_options, NetworkArgError, NetworkOption};
use pdcan::host::commands::{
    answers_command, answers_commissioning, bind_command, command_outcome, commissioning_request,
    discovery_matches, fan_command, node_command, policy_command, status_step, CommandArgError,
    CommandKind, StatusProgress,
};
use pdcan::telemetry::{
    encode_command_response, encode_node_info, encode_node_state, CommandResponse, CommandResult,
    NodeInfo, NodeState,
};
use pdcan::text::{parse_uid, NodeTextError};
use pdcan::host::{
    abort_request_id, activate_request_id, activation_check, data_window, decode_id,
    finish_request_id, stage_session, window_ack_step, window_advance, ActivationRefusal, CliError,
    DecodeIdError, WindowAckStep,
};
use pdcan::protocol::{CodecError, Header, InvalidHeader, MessageClass, PROTOCOL_MAJOR, PROTOCOL_MINOR};
use pdcan::node::UpdateController;
use pdcan::types::{
    CapabilityFlags, CarrierBinding, CarrierPolicy, CarrierProfile, CommissioningState, FanConfig,
    FanId, FaultFlags, NodeDescriptor, NodeUid, ServiceState,
    FirmwareVersion, HardwareRevision, ImageTarget, NodeId, NodeRole, PdLimits, RequestId,
    RequesterId, Sha256Digest, SlotIndex, UpdateError, UpdateImpact, UpdateManifest,
    UpdateSessionId, UpdateState,
};

fn node() -> NodeId {
    NodeId::new(9).unwrap()
}

fn ack(next_offset: u32, error: UpdateError) -> FirmwareAck {
    FirmwareAck {
        node: 9,
        requester: RequesterId::PDCAN_DEFAULT(),
        request_id: RequestId(0),
        session: UpdateSessionId(44),
        next_offset,
        state: UpdateState::Receiving,
        error,
        window_frames: 8,
        detail: 0,
    }
}

fn status(state: UpdateState, impact: UpdateImpact) -> FirmwareStatus {
    FirmwareStatus {
        node: 9,
        requester: RequesterId::PDCAN_DEFAULT(),
        request_id: RequestId(1),
        state,
        error: UpdateError::NoError,
        impact,
        running: FirmwareVersion { major: 1, minor: 0, patch: 0 },
        staged: None,
        session: UpdateSessionId(44),
        next_offset: 0,
        digest: Sha256Digest::from_bytes([0; 32]),
    }
}

#[test]
fn json_error_contract_uses_stable_code() {
    let error = CliError::InterruptionRequired;
    assert_eq!(error.code(), "interruption_required");
    assert_eq!(error.exit_code(), 8);
}

#[test]
fn every_failure_has_a_stable_code_exit_status_and_message() {
    let cases = [
        (CliError::InvalidInput("a".into()), "invalid_input", 2),
        (CliError::Artifact("b".into()), "artifact", 3),
        (CliError::Transport("c".into()), "transport", 4),
        (CliError::Timeout("d".into()), "timeout", 5),
        (CliError::Codec("e".into()), "codec", 6),
        (CliError::NodeRejected("f".into()), "node_rejected", 7),
        (CliError::Internal("g".into()), "internal", 1),
    ];
    for (error, code, exit) in cases {
        assert_eq!(error.code(), code);
        assert_eq!(error.exit_code(), exit);
        assert_eq!(error.message().len(), 1);
    }
    assert_eq!(
        CliError::InterruptionRequired.message(),
        "node reports interrupt update impact; pass --allow-interruption to activate"
    );
    let error: CliError = String::from("bad node").into();
    assert_eq!(error.code(), "invalid_input");
    assert_eq!(error.message(), "bad node");
}

#[test]
fn staging_session_and_step_identifiers_derive_from_the_run_identifier() {
    assert_eq!(stage_session(RequestId(0x1234_5678_9ABC_DEF0), node()), UpdateSessionId(0x9ABC_DEF9));
    assert_eq!(finish_request_id(RequestId(7)), RequestId(8));
    assert_eq!(activate_request_id(RequestId(7)), RequestId(9));
    assert_eq!(abort_request_id(RequestId(u64::MAX - 1)), RequestId(1));
}

#[test]
fn a_data_window_carries_consecutive_chunks_up_to_eight_frames() {
    let image: Vec<u8> = (0..1000u32).map(|i| (i % 251) as u8).collect();
    let session = UpdateSessionId(44);
    let (frames, sent_until) = data_window(session, &image, 0);
    assert_eq!(frames.len(), 8);
    assert_eq!(sent_until, 384);
    for (index, frame) in frames.iter().enumerate() {
        let FirmwareRequest::Data { session: s, offset, len, bytes } = frame else {
            panic!("window frames carry data");
        };
        assert_eq!(*s, session);
        assert_eq!(*offset as usize, index * 48);
        assert_eq!(*len, 48);
        assert_eq!(&bytes[..], &image[index * 48..index * 48 + 48]);
    }

    let (frames, sent_until) = data_window(session, &image, 960);
    assert_eq!(frames.len(), 1);
    assert_eq!(sent_until, 1000);
    let FirmwareRequest::Data { offset, len, bytes, .. } = frames[0] else {
        panic!("window frames carry data");
    };
    assert_eq!((offset, len), (960, 40));
    assert_eq!(&bytes[..40], &image[960..]);
    assert!(bytes[40..].iter().all(|byte| *byte == 0));

    let (frames, sent_until) = data_window(session, &image, 1000);
    assert!(frames.is_empty());
    assert_eq!(sent_until, 1000);
}

#[test]
fn a_node_accepts_every_frame_of_a_window_in_order() {
    let target = ImageTarget {
        role: NodeRole::Carrier,
        carrier_profile: Some(CarrierProfile::Sw3538),
        hardware_revision: HardwareRevision::REV_A(),
        partition_layout: 1,
    };
    let image: Vec<u8> = vec![0x5A; 500];
    let mut controller = UpdateController::new(target, UpdateImpact::Interrupt);
    let manifest = UpdateManifest {
        target,
        version: FirmwareVersion { major: 1, minor: 2, patch: 3 },
        image_size: 500,
        digest: Sha256Digest::from_bytes([0; 32]),
    };
    let session = UpdateSessionId(44);
    controller.begin(session, manifest).unwrap();
    let mut offset = 0;
    while offset < 500 {
        let (frames, sent_until) = data_window(session, &image, offset);
        for frame in frames {
            let FirmwareRequest::Data { session, offset, len, .. } = frame else {
                panic!("window frames carry data");
            };
            assert!(controller.accept_chunk(session, offset, len).is_ok());
        }
        assert_eq!(controller.next_offset(), sent_until);
        offset = sent_until;
    }
    assert_eq!(controller.next_offset(), 500);
}

#[test]
fn window_acknowledgements_are_filtered_and_classified() {
    let session = UpdateSessionId(44);
    let requester = RequesterId::PDCAN_DEFAULT();
    assert_eq!(
        window_ack_step(node(), requester, session, 384, &ack(384, UpdateError::NoError)),
        WindowAckStep::Complete { next_offset: 384 }
    );
    assert_eq!(
        window_ack_step(node(), requester, session, 384, &ack(96, UpdateError::NoError)),
        WindowAckStep::Progress { next_offset: 96 }
    );
    assert_eq!(
        window_ack_step(node(), requester, session, 384, &ack(96, UpdateError::Offset)),
        WindowAckStep::Rejected { error: UpdateError::Offset, next_offset: 96 }
    );
    let mut foreign = ack(384, UpdateError::NoError);
    foreign.session = UpdateSessionId(45);
    assert_eq!(window_ack_step(node(), requester, session, 384, &foreign), WindowAckStep::Ignore);
    let mut other_node = ack(384, UpdateError::NoError);
    other_node.node = 10;
    assert_eq!(window_ack_step(node(), requester, session, 384, &other_node), WindowAckStep::Ignore);

    assert_eq!(window_advance(0, Some(96)), Some(96));
    assert_eq!(window_advance(96, Some(96)), None);
    assert_eq!(window_advance(96, None), None);
}

#[test]
fn activation_needs_a_staged_image_and_consent_to_interrupt() {
    assert_eq!(
        activation_check(&status(UpdateState::Receiving, UpdateImpact::Live), true),
        Err(ActivationRefusal::NotStaged(UpdateState::Receiving))
    );
    assert_eq!(
        activation_check(&status(UpdateState::Staged, UpdateImpact::Interrupt), false),
        Err(ActivationRefusal::InterruptionRequired)
    );
    assert_eq!(activation_check(&status(UpdateState::Staged, UpdateImpact::Interrupt), true), Ok(()));
    assert_eq!(activation_check(&status(UpdateState::Staged, UpdateImpact::Live), false), Ok(()));
}

#[test]
fn identifiers_on_the_command_line_decode_to_their_headers() {
    let header = Header::new(1, MessageClass::Control, 3, 15, RequesterId::PDCAN_DEFAULT(), 1).unwrap();
    let raw = header.encode().get();
    assert_eq!(decode_id(&format!("{raw:#x}")), Ok((raw, DecodedHeader::Operational(header))));
    assert_eq!(decode_id(&raw.to_string()), Ok((raw, DecodedHeader::Operational(header))));
    assert_eq!(decode_id("twelve"), Err(DecodeIdError::InvalidNumber));
    assert_eq!(decode_id("0x100000000"), Err(DecodeIdError::InvalidNumber));
    assert_eq!(decode_id("0x20000000"), Err(DecodeIdError::NotExtended(0x2000_0000)));
    assert_eq!(
        decode_id("0x01C00000"),
        Err(DecodeIdError::Header(CodecError::InvalidHeader(InvalidHeader::Class(7))))
    );
}

fn strings(values: &[&str]) -> Vec<String> {
    values.iter().map(|value| (*value).to_owned()).collect()
}

#[test]
fn network_options_are_taken_out_of_the_command_line() {
    let (options, command) = parse_network_options(&strings(&[
        "status", "--interface", "vcan1", "7", "--requester", "3", "--request-id", "0x10",
        "--timeout-ms", "250", "--retries", "0", "--json",
    ]))
    .unwrap();
    assert_eq!(command, strings(&["status", "7"]));
    assert_eq!(options.interface, "vcan1");
    assert_eq!(options.requester, RequesterId::new(3).unwrap());
    assert_eq!(options.request_id, Some(RequestId(16)));
    assert_eq!(options.timeout_ms, 250);
    assert_eq!(options.retries, 0);
    assert!(options.json);

    let (defaults, command) = parse_network_options(&strings(&["scan"])).unwrap();
    assert_eq!(command, strings(&["scan"]));
    assert_eq!(defaults.interface, "can0");
    assert_eq!(defaults.requester, RequesterId::PDCAN_DEFAULT());
    assert_eq!(defaults.request_id, None);
    assert_eq!(defaults.timeout_ms, 500);
    assert_eq!(defaults.retries, 3);
    assert!(!defaults.json);

    let refused = |args: &[&str]| parse_network_options(&strings(args)).unwrap_err();
    assert_eq!(refused(&["-i"]), NetworkArgError::MissingValue(NetworkOption::Interface));
    assert_eq!(refused(&["--requester", "0"]), NetworkArgError::ReservedRequester);
    assert_eq!(refused(&["--requester", "16"]), NetworkArgError::InvalidRequester);
    assert_eq!(refused(&["--request-id", "x"]), NetworkArgError::InvalidInteger { index: 1 });
    assert_eq!(refused(&["--timeout-ms", "0"]), NetworkArgError::InvalidTimeout);
    assert_eq!(refused(&["--timeout-ms", "60001"]), NetworkArgError::InvalidTimeout);
    assert_eq!(refused(&["--retries", "11"]), NetworkArgError::InvalidRetries);
}

#[test]
fn control_commands_are_built_from_their_words() {
    let policy = policy_command(&strings(&[
        "7", "--max-current-ma", "3000", "--enabled", "--max-voltage-mv", "12000",
        "--max-power-mw", "36000",
    ]))
    .unwrap();
    assert_eq!(
        policy,
        (
            7,
            ControlCommand::SetCarrierPolicy(CarrierPolicy {
                enabled: true,
                pd_limits: Some(PdLimits {
                    max_voltage_mv: 12_000,
                    max_current_ma: 3_000,
                    max_power_mw: 36_000,
                }),
            })
        )
    );
    assert_eq!(
        policy_command(&strings(&["7", "--disabled"])),
        Ok((7, ControlCommand::SetCarrierPolicy(CarrierPolicy { enabled: false, pd_limits: None })))
    );
    assert_eq!(policy_command(&strings(&[])), Err(CommandArgError::Usage(CommandKind::SetPolicy)));
    assert_eq!(
        policy_command(&strings(&["7", "--enabled", "--disabled"])),
        Err(CommandArgError::PolicyState)
    );
    assert_eq!(
        policy_command(&strings(&["7", "--enabled", "--max-power-mw", "1"])),
        Err(CommandArgError::PartialLimits)
    );
    assert_eq!(
        policy_command(&strings(&["7", "--enabled", "--max-power-mw"])),
        Err(CommandArgError::MissingValue { index: 2 })
    );
    assert_eq!(
        policy_command(&strings(&["0", "--enabled"])),
        Err(CommandArgError::InvalidNode(NodeTextError::OutOfRange(0)))
    );

    assert_eq!(
        fan_command(&strings(&["2", "1", "--duty", "40"])),
        Ok((
            2,
            ControlCommand::SetFan { fan: FanId::new(1).unwrap(), config: FanConfig { duty_percent: 40 } }
        ))
    );
    assert_eq!(fan_command(&strings(&["2", "2", "--duty", "40"])), Err(CommandArgError::InvalidFan));
    assert_eq!(fan_command(&strings(&["2", "1", "--speed", "40"])), Err(CommandArgError::Usage(CommandKind::SetFan)));

    let uid = "504443414e2d53494d2d3031";
    let (node, command) = bind_command(&strings(&["4", uid, "3"])).unwrap();
    assert_eq!(node, 4);
    assert_eq!(
        command,
        ControlCommand::SetBinding(Some(CarrierBinding {
            backplane_uid: parse_uid(uid).unwrap(),
            slot: SlotIndex::new(3).unwrap(),
        }))
    );
    assert_eq!(bind_command(&strings(&["4", uid, "255"])), Err(CommandArgError::InvalidSlot));
    assert_eq!(bind_command(&strings(&["4", "abc", "3"])), Err(CommandArgError::InvalidUid));

    assert_eq!(
        node_command(CommandKind::EmergencyDisable, &strings(&["all"])),
        Ok((0, ControlCommand::EmergencyDisable))
    );
    assert_eq!(
        node_command(CommandKind::Status, &strings(&["all"])),
        Err(CommandArgError::InvalidNode(NodeTextError::Invalid))
    );
    assert_eq!(
        node_command(CommandKind::ClearBinding, &strings(&["9"])),
        Ok((9, ControlCommand::SetBinding(None)))
    );
    assert_eq!(
        node_command(CommandKind::AcknowledgeResolved, &strings(&["9", "10"])),
        Err(CommandArgError::Usage(CommandKind::AcknowledgeResolved))
    );
}

#[test]
fn commissioning_requests_and_their_results() {
    let uid = "504443414e2d53494d2d3031";
    let request_id = RequestId(77);
    let identify = commissioning_request(CommandKind::Identify, &strings(&[uid]), request_id).unwrap();
    assert_eq!(
        identify,
        CommissioningMessage::Identify { request_id, uid: parse_uid(uid).unwrap(), duration_seconds: 10 }
    );
    assert_eq!(
        commissioning_request(CommandKind::Identify, &strings(&[uid, "--seconds", "30"]), request_id),
        Ok(CommissioningMessage::Identify { request_id, uid: parse_uid(uid).unwrap(), duration_seconds: 30 })
    );
    assert_eq!(
        commissioning_request(CommandKind::Identify, &strings(&[uid, "--seconds", "70000"]), request_id),
        Err(CommandArgError::InvalidSeconds)
    );
    assert_eq!(
        commissioning_request(CommandKind::Assign, &strings(&[uid, "12"]), request_id),
        Ok(CommissioningMessage::AssignNode {
            request_id,
            uid: parse_uid(uid).unwrap(),
            node_id: NodeId::new(12).unwrap()
        })
    );
    assert_eq!(
        commissioning_request(CommandKind::ClearNode, &strings(&[uid, "12"]), request_id),
        Err(CommandArgError::Usage(CommandKind::ClearNode))
    );
    let result = CommissioningMessage::Result {
        request_id,
        uid: parse_uid(uid).unwrap(),
        request_opcode: 4,
        result: CommandResult::Success,
        node_id: Some(NodeId::new(12).unwrap()),
        state: CommissioningState::Commissioned,
    };
    assert!(answers_commissioning(&result, request_id, CommandKind::Assign));
    assert!(!answers_commissioning(&result, request_id, CommandKind::Identify));
    assert!(!answers_commissioning(&result, RequestId(78), CommandKind::Assign));

    let response = CommandResponse {
        node: 9,
        requester: RequesterId::PDCAN_DEFAULT(),
        request_id,
        request_opcode: ControlCommand::RequestStatus.opcode(),
        request_target: 15,
        result: CommandResult::Unsupported,
        detail: 0,
    };
    assert!(answers_command(&response, RequesterId::PDCAN_DEFAULT(), request_id, ControlCommand::RequestStatus));
    assert!(!answers_command(&response, RequesterId::PDCAN_DEFAULT(), request_id, ControlCommand::EmergencyDisable));
    assert_eq!(command_outcome(response.result), Err(CommandResult::Unsupported));
    assert_eq!(command_outcome(CommandResult::Success), Ok(()));

    assert!(discovery_matches(5, 5, None, None));
    assert!(discovery_matches(5, 5, Some(node()), Some(node())));
    assert!(!discovery_matches(5, 5, None, Some(node())));
    assert!(!discovery_matches(5, 6, Some(node()), None));
}

fn discovery(uid_byte: u8, last: u8, node: Option<u8>) -> DiscoveryInfo {
    let mut bytes = [uid_byte; 12];
    bytes[11] = last;
    DiscoveryInfo {
        uid: NodeUid::from_bytes(bytes),
        node_id: node.map(|raw| NodeId::new(raw).unwrap()),
        state: CommissioningState::Commissioned,
        protocol_major: PROTOCOL_MAJOR,
        protocol_minor: PROTOCOL_MINOR,
        node_info: NodeInfo {
            node: node.unwrap_or(0),
            descriptor: NodeDescriptor {
                role: NodeRole::Backplane,
                carrier_profile: None,
                hardware_revision: HardwareRevision::REV_A(),
                capabilities: CapabilityFlags::FIRMWARE_UPDATE(),
                update_impact: UpdateImpact::Interrupt,
                output_count: 0,
                fan_count: 2,
                external_temperature_capacity: 0,
            },
            firmware: FirmwareVersion { major: 1, minor: 0, patch: 0 },
            bootloader: FirmwareVersion { major: 0, minor: 1, patch: 0 },
            partition_layout: 1,
        },
    }
}

#[test]
fn scan_results_hold_one_response_per_uid_in_uid_order() {
    let mut results = ScanResults::new();
    assert!(results.is_empty());
    results.record(discovery(0x20, 1, Some(3)));
    results.record(discovery(0x10, 9, None));
    results.record(discovery(0x20, 0, Some(4)));
    results.record(discovery(0x20, 1, Some(5)));
    assert_eq!(results.len(), 3);
    let uids: Vec<[u8; 12]> = results.infos().iter().map(|info| info.uid.to_bytes()).collect();
    let mut expected_first = [0x10; 12];
    expected_first[11] = 9;
    let mut expected_second = [0x20; 12];
    expected_second[11] = 0;
    let mut expected_third = [0x20; 12];
    expected_third[11] = 1;
    assert_eq!(uids, vec![expected_first, expected_second, expected_third]);
    assert_eq!(results.infos()[2].node_id, Some(NodeId::new(5).unwrap()));
}

#[test]
fn status_replies_complete_once_response_state_and_info_arrived() {
    let node = node();
    let requester = RequesterId::PDCAN_DEFAULT();
    let request_id = RequestId(5);
    let mut progress = StatusProgress::new();
    let response = encode_command_response(CommandResponse {
        node: 9,
        requester,
        request_id,
        request_opcode: ControlCommand::RequestStatus.opcode(),
        request_target: 15,
        result: CommandResult::Success,
        detail: 0,
    })
    .unwrap();
    progress = status_step(progress, node, requester, request_id, response.id(), response.payload()).unwrap();
    assert!(progress.accepted && !progress.complete());
    let state = encode_node_state(NodeState {
        node: 9,
        sequence: 1,
        service: ServiceState::Disabled,
        faults: FaultFlags::NONE(),
        uptime_seconds: 1,
        output_enabled: false,
        power_good: false,
        emergency_latched: false,
    })
    .unwrap();
    progress = status_step(progress, node, requester, request_id, state.id(), state.payload()).unwrap();
    let mut info = discovery(1, 1, Some(9)).node_info;
    info.node = 9;
    let info_frame = encode_node_info(info).unwrap();
    progress = status_step(progress, node, requester, request_id, info_frame.id(), info_frame.payload()).unwrap();
    assert!(progress.complete());

    let refused = encode_command_response(CommandResponse {
        node: 9,
        requester,
        request_id,
        request_opcode: ControlCommand::RequestStatus.opcode(),
        request_target: 15,
        result: CommandResult::Unsupported,
        detail: 0,
    })
    .unwrap();
    assert_eq!(
        status_step(StatusProgress::new(), node, requester, request_id, refused.id(), refused.payload()),
        Err(CommandResult::Unsupported)
    );
    let other = encode_node_state(NodeState {
        node: 8,
        sequence: 1,
        service: ServiceState::Disabled,
        faults: FaultFlags::NONE(),
        uptime_seconds: 1,
        output_enabled: false,
        power_good: false,
        emergency_latched: false,
    })
    .unwrap();
    assert_eq!(
        status_step(StatusProgress::new(), node, requester, request_id, other.id(), other.payload()),
        Ok(StatusProgress::new())
    );
}
