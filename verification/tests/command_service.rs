use pdcan::backpack::board::rev_a::REV_A;
use pdcan::backpack::command_service::{CommandService, Reply, ServiceOutput};
use pdcan::port::commissioning::{decode_commissioning, CommandResult, CommissioningMessage};
use pdcan::port::control::{decode_command_response, ControlCommand, ControlRequest};
use pdcan::port::controller::{Action, CompletionOutcome, Controller};
use pdcan::port::model::{FanConfig, FanMode, PersistentSettings, PortId, PortPolicy};
use pdcan::port::status::{decode_heartbeat, decode_port_state, PortStateFlags, ResetFlags};
use pdcan::protocol::WireFrame;
use pdcan::types::{CommissioningState, FirmwareVersion, NodeId, NodeUid, RequestId, RequesterId};

fn uid() -> NodeUid {
    NodeUid::from_bytes([0x44; NodeUid::LENGTH])
}

fn version() -> FirmwareVersion {
    FirmwareVersion { major: 0, minor: 1, patch: 0 }
}

fn setup(node_id: Option<NodeId>) -> (Controller, CommandService) {
    let settings = PersistentSettings { node_id, ..PersistentSettings::FACTORY_DEFAULT() };
    (Controller::new(REV_A(), settings), CommandService::new(REV_A(), version(), uid(), node_id))
}

fn complete_next_persist(controller: &mut Controller, service: &mut CommandService) -> ServiceOutput {
    loop {
        match controller.next_action().expect("pending controller action") {
            Action::Pd { operation, port, slot_epoch, .. } => {
                controller.complete_pd_operation(port, operation, slot_epoch, CompletionOutcome::Succeeded)
            }
            Action::PersistConfig { revision, .. } => {
                let completion = controller.complete_persist(revision, CompletionOutcome::Succeeded);
                return service.complete_persist(completion);
            }
            Action::PowerGate { operation, port, slot_epoch, enabled, .. } => controller
                .complete_power_gate_operation(port, operation, slot_epoch, enabled, CompletionOutcome::Succeeded),
            Action::PowerOutputs { operation, kind } => {
                controller.complete_power_outputs_operation(operation, kind, CompletionOutcome::Succeeded)
            }
        }
    }
}

fn frames(output: &ServiceOutput) -> Vec<WireFrame> {
    output.frames()
}

fn commissioning_message(frame: &WireFrame) -> CommissioningMessage {
    decode_commissioning(frame.id(), frame.payload()).unwrap().1
}

#[test]
fn persistent_command_response_waits_for_durable_completion() {
    let node = NodeId::new(3).unwrap();
    let (mut controller, mut service) = setup(Some(node));
    service.claim_window_complete();
    let request = ControlRequest {
        node: node.get(),
        requester: RequesterId::PDCAN_DEFAULT(),
        request_id: RequestId(1),
        command: ControlCommand::SetPortPolicy {
            port: PortId::new(0).unwrap(),
            policy: PortPolicy { enabled: true, ..PortPolicy::SAFE_DISABLED() },
        },
    };
    assert_eq!(frames(&service.handle_control(&mut controller, request)).len(), 0);

    let output = complete_next_persist(&mut controller, &mut service);
    let frame = frames(&output)[0];
    let response = decode_command_response(frame.id(), frame.payload()).unwrap();
    assert_eq!(response.request_id, RequestId(1));
    assert_eq!(response.result, CommandResult::SuccessPending);
}

#[test]
fn exact_retry_replays_completed_response_without_mutating_again() {
    let node = NodeId::new(3).unwrap();
    let (mut controller, mut service) = setup(Some(node));
    service.claim_window_complete();
    let request = ControlRequest {
        node: node.get(),
        requester: RequesterId::new(4).unwrap(),
        request_id: RequestId(2),
        command: ControlCommand::SetFanConfig {
            config: FanConfig { mode: FanMode::FourWire, duty_percent: 60 },
        },
    };
    assert!(frames(&service.handle_control(&mut controller, request)).is_empty());
    let completed = complete_next_persist(&mut controller, &mut service);
    let replay = service.handle_control(&mut controller, request);
    assert_eq!(frames(&replay), frames(&completed));
    assert!(controller.next_action().is_none());
}

#[test]
fn ordinary_durable_mutations_are_serialized() {
    let node = NodeId::new(3).unwrap();
    let (mut controller, mut service) = setup(Some(node));
    service.claim_window_complete();
    let first = ControlRequest {
        node: node.get(),
        requester: RequesterId::PDCAN_DEFAULT(),
        request_id: RequestId(20),
        command: ControlCommand::SetFanConfig {
            config: FanConfig { mode: FanMode::FourWire, duty_percent: 60 },
        },
    };
    assert!(frames(&service.handle_control(&mut controller, first)).is_empty());
    let overlapping = ControlRequest {
        request_id: RequestId(21),
        command: ControlCommand::SetPortPolicy {
            port: PortId::new(0).unwrap(),
            policy: PortPolicy::SAFE_DISABLED(),
        },
        ..first
    };
    let busy = frames(&service.handle_control(&mut controller, overlapping));
    let response = decode_command_response(busy[0].id(), busy[0].payload()).unwrap();
    assert_eq!(response.result, CommandResult::Busy);

    let _ = complete_next_persist(&mut controller, &mut service);
    let accepted = frames(&service.handle_control(&mut controller, overlapping));
    assert!(matches!(
        accepted.first().map(|frame| decode_command_response(frame.id(), frame.payload()).unwrap().result),
        Some(CommandResult::SuccessPending)
    ));
}

#[test]
fn a_new_emergency_cancels_an_in_flight_clear_response() {
    let node = NodeId::new(3).unwrap();
    let (mut controller, mut service) = setup(Some(node));
    service.claim_window_complete();
    let latch = ControlRequest {
        node: node.get(),
        requester: RequesterId::PDCAN_DEFAULT(),
        request_id: RequestId(22),
        command: ControlCommand::EmergencyDisable,
    };
    assert!(frames(&service.handle_control(&mut controller, latch)).is_empty());
    let _ = complete_next_persist(&mut controller, &mut service);

    let clear = ControlRequest {
        request_id: RequestId(23),
        command: ControlCommand::AcknowledgeEmergencyResolved,
        ..latch
    };
    assert!(frames(&service.handle_control(&mut controller, clear)).is_empty());
    let Action::PersistConfig { revision: clear_revision, settings } = controller.next_action().unwrap() else {
        panic!("expected the clear write to be in flight")
    };
    assert!(!settings.emergency_latched);

    let relatch = ControlRequest { request_id: RequestId(24), command: ControlCommand::EmergencyDisable, ..latch };
    let cancellation = frames(&service.handle_control(&mut controller, relatch));
    let cancelled = decode_command_response(cancellation[0].id(), cancellation[0].payload()).unwrap();
    assert_eq!(cancelled.request_id, clear.request_id);
    assert_eq!(cancelled.result, CommandResult::EmergencyLatched);

    let stale_clear =
        service.complete_persist(controller.complete_persist(clear_revision, CompletionOutcome::Succeeded));
    assert!(frames(&stale_clear).is_empty());
    assert!(controller.emergency_latched());

    let relatch_completed = frames(&complete_next_persist(&mut controller, &mut service));
    let response = decode_command_response(relatch_completed[0].id(), relatch_completed[0].payload()).unwrap();
    assert_eq!(response.request_id, relatch.request_id);
    assert_eq!(response.result, CommandResult::Success);
}

#[test]
fn assignment_result_and_claim_are_emitted_only_after_persistence() {
    let (mut controller, mut service) = setup(None);
    let output = service.handle_commissioning(
        &mut controller,
        RequesterId::PDCAN_DEFAULT(),
        CommissioningMessage::AssignNode { request_id: RequestId(3), uid: uid(), node_id: NodeId::new(8).unwrap() },
    );
    assert!(frames(&output).is_empty());

    let output = frames(&complete_next_persist(&mut controller, &mut service));
    let messages: Vec<CommissioningMessage> = output.iter().map(commissioning_message).collect();
    assert!(matches!(messages[0], CommissioningMessage::Result { result: CommandResult::Success, .. }));
    assert!(matches!(messages[1], CommissioningMessage::NodeClaim { .. }));
    assert_eq!(service.commissioning().state(), CommissioningState::Claiming);
}

#[test]
fn assignment_retries_wait_for_persistence_and_request_id_reuse_is_rejected() {
    let (mut controller, mut service) = setup(None);
    let requester = RequesterId::new(4).unwrap();
    let request =
        CommissioningMessage::AssignNode { request_id: RequestId(30), uid: uid(), node_id: NodeId::new(8).unwrap() };
    assert!(frames(&service.handle_commissioning(&mut controller, requester, request)).is_empty());
    assert!(
        frames(&service.handle_commissioning(&mut controller, requester, request)).is_empty(),
        "an exact retry must wait for the original durable completion"
    );

    let conflicting = frames(&service.handle_commissioning(
        &mut controller,
        requester,
        CommissioningMessage::AssignNode { request_id: RequestId(30), uid: uid(), node_id: NodeId::new(9).unwrap() },
    ));
    assert!(matches!(
        conflicting.first().map(commissioning_message),
        Some(CommissioningMessage::Result { result: CommandResult::InvalidArgument, .. })
    ));

    let completed = frames(&complete_next_persist(&mut controller, &mut service));
    let replay = frames(&service.handle_commissioning(&mut controller, requester, request));
    assert_eq!(replay[0], completed[0]);
    assert!(controller.next_action().is_none());

    let foreign = service.handle_commissioning(
        &mut controller,
        requester,
        CommissioningMessage::ClearNode {
            request_id: RequestId(30),
            uid: NodeUid::from_bytes([0x99; NodeUid::LENGTH]),
        },
    );
    assert!(frames(&foreign).is_empty());
}

#[test]
fn status_reports_supplied_monotonic_uptime() {
    let node = NodeId::new(3).unwrap();
    let (mut controller, mut service) = setup(Some(node));
    service.claim_window_complete();
    service.set_uptime_seconds(42);
    controller.module_detected(PortId::new(0).unwrap()).unwrap();
    let output = frames(&service.handle_control(
        &mut controller,
        ControlRequest {
            node: node.get(),
            requester: RequesterId::PDCAN_DEFAULT(),
            request_id: RequestId(31),
            command: ControlCommand::RequestStatus { port: PortId::new(0).unwrap() },
        },
    ));
    let state = decode_port_state(output[1].id(), output[1].payload()).unwrap();
    assert_eq!(state.uptime_seconds, 42);
    assert_ne!(state.flags.bits() & PortStateFlags::MODULE_PRESENT, 0);
    assert_ne!(state.flags.bits() & PortStateFlags::POLICY_PENDING, 0);
    assert_ne!(state.flags.bits() & PortStateFlags::INPUT_POWERED, 0);
}

#[test]
fn heartbeat_reports_reset_cause_uptime_and_capability_bitmaps() {
    let node = NodeId::new(3).unwrap();
    let (controller, mut service) = setup(Some(node));
    service.claim_window_complete();
    service.set_uptime_seconds(123);
    let reset_flags = ResetFlags::from_bits(ResetFlags::POWER | ResetFlags::INDEPENDENT_WATCHDOG);
    service.set_reset_flags(reset_flags);

    let output = frames(&service.heartbeat(&controller));
    let frame = output[0];
    let heartbeat = decode_heartbeat(frame.id(), frame.payload()).unwrap();
    assert_eq!(heartbeat.node, node.get());
    assert_eq!(heartbeat.supported_ports, 0x3f);
    assert_eq!(heartbeat.reset_flags, reset_flags);
    assert_eq!(heartbeat.uptime_seconds, 123);
}

#[test]
fn reassigning_the_same_persisted_id_recovers_from_conflict() {
    let node = NodeId::new(3).unwrap();
    let (mut controller, mut service) = setup(Some(node));
    service.claim_window_complete();
    let _ = service.handle_commissioning(
        &mut controller,
        RequesterId::PROTOCOL(),
        CommissioningMessage::NodeClaim {
            uid: NodeUid::from_bytes([0x55; NodeUid::LENGTH]),
            node_id: node,
            state: CommissioningState::Commissioned,
            claim_nonce: 0,
        },
    );
    assert_eq!(service.commissioning().state(), CommissioningState::AddressConflict);

    let output = frames(&service.handle_commissioning(
        &mut controller,
        RequesterId::PDCAN_DEFAULT(),
        CommissioningMessage::AssignNode { request_id: RequestId(32), uid: uid(), node_id: node },
    ));
    assert_eq!(service.commissioning().state(), CommissioningState::Claiming);
    assert!(matches!(output.get(1).map(commissioning_message), Some(CommissioningMessage::NodeClaim { .. })));
    assert!(controller.next_action().is_none());
}

#[test]
fn conflict_suppresses_operational_responses_but_discovery_still_works() {
    let node = NodeId::new(3).unwrap();
    let (mut controller, mut service) = setup(Some(node));
    service.claim_window_complete();
    let conflict_reply = frames(&service.handle_commissioning(
        &mut controller,
        RequesterId::PROTOCOL(),
        CommissioningMessage::NodeClaim {
            uid: NodeUid::from_bytes([0x55; NodeUid::LENGTH]),
            node_id: node,
            state: CommissioningState::Claiming,
            claim_nonce: 0,
        },
    ));
    assert!(matches!(
        conflict_reply.first().map(commissioning_message),
        Some(CommissioningMessage::NodeClaim { state: CommissioningState::AddressConflict, .. })
    ));
    let operational = service.handle_control(
        &mut controller,
        ControlRequest {
            node: node.get(),
            requester: RequesterId::PDCAN_DEFAULT(),
            request_id: RequestId(4),
            command: ControlCommand::RequestStatus { port: PortId::new(0).unwrap() },
        },
    );
    assert!(frames(&operational).is_empty());

    let discovery = service.handle_commissioning(
        &mut controller,
        RequesterId::PDCAN_DEFAULT(),
        CommissioningMessage::Discover { nonce: 9 },
    );
    assert_eq!(frames(&discovery).len(), 1, "UID discovery remains available in conflict");
}

#[test]
fn claim_round_carries_the_nonce_and_startup_uses_zero() {
    let node = NodeId::new(3).unwrap();
    let (_controller, service) = setup(Some(node));
    let round = service.claim_round(7);
    assert!(matches!(
        round.replies[0],
        Reply::Commissioning { message: CommissioningMessage::NodeClaim { claim_nonce: 7, .. }, .. }
    ));
    let startup = service.startup_claim();
    assert!(matches!(
        startup.replies[0],
        Reply::Commissioning { message: CommissioningMessage::NodeClaim { claim_nonce: 0, .. }, .. }
    ));
    let (_controller, unassigned) = setup(None);
    assert!(unassigned.claim_round(7).replies.is_empty());
}

#[test]
fn identify_lights_the_led_and_is_replayed_on_exact_retry() {
    let (mut controller, mut service) = setup(None);
    let request = CommissioningMessage::Identify { request_id: RequestId(40), uid: uid(), duration_seconds: 5 };
    let first = service.handle_commissioning(&mut controller, RequesterId::PDCAN_DEFAULT(), request);
    assert_eq!(first.identify_seconds, Some(5));
    let retry = service.handle_commissioning(&mut controller, RequesterId::PDCAN_DEFAULT(), request);
    assert_eq!(retry.identify_seconds, None);
    assert_eq!(frames(&retry), frames(&first));
}

#[test]
fn a_reused_control_request_id_is_refused() {
    let node = NodeId::new(3).unwrap();
    let (mut controller, mut service) = setup(Some(node));
    service.claim_window_complete();
    let status = ControlRequest {
        node: node.get(),
        requester: RequesterId::PDCAN_DEFAULT(),
        request_id: RequestId(50),
        command: ControlCommand::RequestStatus { port: PortId::new(7).unwrap() },
    };
    let first = frames(&service.handle_control(&mut controller, status));
    let response = decode_command_response(first[0].id(), first[0].payload()).unwrap();
    assert_eq!(response.result, CommandResult::InvalidTarget);
    let reused = ControlRequest { command: ControlCommand::RequestStatus { port: PortId::new(1).unwrap() }, ..status };
    let refused = frames(&service.handle_control(&mut controller, reused));
    let response = decode_command_response(refused[0].id(), refused[0].payload()).unwrap();
    assert_eq!(response.result, CommandResult::InvalidArgument);
    assert_eq!(response.detail, 1);
}

#[test]
fn requests_for_another_node_are_ignored_but_a_broadcast_emergency_is_not() {
    let node = NodeId::new(3).unwrap();
    let (mut controller, mut service) = setup(Some(node));
    service.claim_window_complete();
    let other = ControlRequest {
        node: 4,
        requester: RequesterId::PDCAN_DEFAULT(),
        request_id: RequestId(60),
        command: ControlCommand::RequestStatus { port: PortId::new(0).unwrap() },
    };
    assert!(service.handle_control(&mut controller, other).replies.is_empty());
    let broadcast = ControlRequest { node: 0, request_id: RequestId(61), command: ControlCommand::EmergencyDisable, ..other };
    let _ = service.handle_control(&mut controller, broadcast);
    assert!(controller.emergency_latched());
}

#[test]
fn a_stale_completion_releases_nothing() {
    let node = NodeId::new(3).unwrap();
    let (mut controller, mut service) = setup(Some(node));
    service.claim_window_complete();
    let request = ControlRequest {
        node: node.get(),
        requester: RequesterId::PDCAN_DEFAULT(),
        request_id: RequestId(70),
        command: ControlCommand::SetFanConfig { config: FanConfig { mode: FanMode::FourWire, duty_percent: 40 } },
    };
    let _ = service.handle_control(&mut controller, request);
    let output = service.complete_persist(pdcan::port::controller::PersistCompletion::IgnoredStale);
    assert!(output.replies.is_empty());
    let released = complete_next_persist(&mut controller, &mut service);
    assert_eq!(released.replies.len(), 1);
}
