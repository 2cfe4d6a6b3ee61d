use pdcan::backpack::reporting::{heartbeat_report, port_state_report};
use pdcan::port::status::{PortStateFlags, ResetFlags};
use pdcan::types::FirmwareVersion;
use pdcan::backpack::controller_loop::{
    claim_step, claim_timer_at_start, fan_refresh_needed, heartbeat_step, queue_for, status_for,
    ClaimStep, Queue,
};
use pdcan::backpack::status::StatusState;
use pdcan::types::CommissioningState;
use pdcan::backpack::pd_bus::{
    next_bus_work, wake_deadline, BusWork, IdentityRead, PendingBusCommands, PortEvent, ProbeOutcome,
    ProbeState, ProbeStep,
};
use pdcan::backpack::board::rev_a::REV_A;
use pdcan::backpack::board::rev_b::REV_B;
use pdcan::port::controller::{
    revision_covers, Action, CompletionOutcome, Controller, ControllerError, PdActionKind,
    PersistCompletion, PowerGateState, PowerOutputsActionKind,
};
use pdcan::backpack::action_executor::{
    command_for, ExecutorCommand, PdBusCommand, PersistCommand, PowerGateCommand,
};
use pdcan::port::model::{
    ConfigRevision, OperationId, PersistentSettings, PortId, PortPolicy, SlotEpoch,
};
use pdcan::types::NodeId;

fn port(value: u8) -> PortId {
    PortId::new(value).unwrap()
}

fn enabled_policy() -> PortPolicy {
    PortPolicy { enabled: true, ..PortPolicy::SAFE_DISABLED() }
}

fn arm_power_outputs(controller: &mut Controller) {
    let Action::PowerOutputs { operation, kind } = controller.next_action().unwrap() else {
        panic!("power-gated boards must establish all-off before port power")
    };
    assert_eq!(kind, PowerOutputsActionKind::ArmAllOff);
    controller.complete_power_outputs_operation(operation, kind, CompletionOutcome::Succeeded);
}

#[test]
fn rev_a_rejects_ports_six_and_seven_as_unsupported() {
    let mut controller = Controller::new(REV_A(), PersistentSettings::FACTORY_DEFAULT());
    assert_eq!(controller.module_detected(port(6)), Err(ControllerError::UnsupportedPort(port(6))));
    assert_eq!(controller.diagnostics().rejected_unsupported_targets, 1);
    assert!(controller.next_action().is_none());
}

#[test]
fn rev_b_restores_a_persisted_enabled_port_in_safe_order() {
    let mut settings = PersistentSettings::FACTORY_DEFAULT();
    settings.port_policy[0] = enabled_policy();
    let mut controller = Controller::new(REV_B(), settings);

    assert_eq!(controller.port_powered(port(0)), Some(false));
    arm_power_outputs(&mut controller);
    let Action::PowerGate { operation, port: action_port, slot_epoch, output_bit, enabled } =
        controller.next_action().unwrap()
    else {
        panic!("persisted policy must schedule its input gate")
    };
    assert_eq!(action_port, port(0));
    assert_eq!(output_bit, 0);
    assert!(enabled);
    controller.complete_power_gate_operation(
        action_port,
        operation,
        slot_epoch,
        enabled,
        CompletionOutcome::Succeeded,
    );
    assert_eq!(controller.port_powered(port(0)), Some(true));
    assert_eq!(controller.port_online(port(0)), Some(false));

    controller.module_detected(port(0)).unwrap();
    assert!(matches!(
        controller.next_action(),
        Some(Action::Pd { kind: PdActionKind::ApplyPolicy(policy), .. }) if policy == enabled_policy()
    ));
}

#[test]
fn late_detection_cannot_revive_an_unpowered_rev_b_port() {
    let mut controller = Controller::new(REV_B(), PersistentSettings::FACTORY_DEFAULT());
    let epoch = controller.slot_epoch(port(0)).unwrap();

    assert_eq!(controller.module_detected(port(0)), Ok(epoch));
    assert_eq!(controller.port_online(port(0)), Some(false));
    assert_eq!(controller.port_powered(port(0)), Some(false));
    assert!(matches!(
        controller.next_action(),
        Some(Action::PowerOutputs { kind: PowerOutputsActionKind::ArmAllOff, .. })
    ));
}

#[test]
fn a_new_enable_is_durable_before_rev_b_energizes_the_port() {
    let mut controller = Controller::new(REV_B(), PersistentSettings::FACTORY_DEFAULT());
    arm_power_outputs(&mut controller);
    let required =
        controller.set_port_policy(port(2), enabled_policy()).unwrap().persist_revision.unwrap();

    let Action::PersistConfig { revision, .. } = controller.next_action().unwrap() else {
        panic!("persistence must precede power-on")
    };
    assert_eq!(revision, required);
    assert_eq!(controller.port_powered(port(2)), Some(false));
    controller.complete_persist(revision, CompletionOutcome::Succeeded);

    assert!(matches!(
        controller.next_action(),
        Some(Action::PowerGate { port: action_port, output_bit: 2, enabled: true, .. })
            if action_port == port(2)
    ));
}

#[test]
fn failed_policy_application_on_rev_b_fails_closed() {
    let mut settings = PersistentSettings::FACTORY_DEFAULT();
    settings.port_policy[0] = enabled_policy();
    let mut controller = Controller::new(REV_B(), settings);
    arm_power_outputs(&mut controller);
    let Action::PowerGate { operation, slot_epoch, .. } = controller.next_action().unwrap() else {
        panic!("expected gate-on")
    };
    controller.complete_power_gate_operation(
        port(0),
        operation,
        slot_epoch,
        true,
        CompletionOutcome::Succeeded,
    );
    controller.module_detected(port(0)).unwrap();
    let Action::Pd { operation, slot_epoch, .. } = controller.next_action().unwrap() else {
        panic!("expected policy application")
    };
    controller.complete_pd_operation(port(0), operation, slot_epoch, CompletionOutcome::Failed);

    assert!(matches!(
        controller.next_action(),
        Some(Action::PowerGate { port: action_port, enabled: false, .. }) if action_port == port(0)
    ));
}

#[test]
fn emergency_uses_global_output_disable_and_clear_does_not_restore_ports() {
    let mut settings = PersistentSettings::FACTORY_DEFAULT();
    settings.port_policy[0] = enabled_policy();
    let mut controller = Controller::new(REV_B(), settings);
    arm_power_outputs(&mut controller);
    let stale_gate = controller.next_action().unwrap();

    controller.emergency_disable();
    let Action::PowerOutputs { operation, kind } = controller.next_action().unwrap() else {
        panic!("global output disable must outrank persistence")
    };
    assert_eq!(kind, PowerOutputsActionKind::EmergencyDisableAll);
    controller.complete_power_outputs_operation(operation, kind, CompletionOutcome::Succeeded);
    assert_eq!(controller.port_powered(port(0)), Some(false));

    let Action::PersistConfig { revision, .. } = controller.next_action().unwrap() else {
        panic!("emergency latch must be persisted")
    };
    controller.complete_persist(revision, CompletionOutcome::Succeeded);
    let clear = controller.acknowledge_emergency_resolved().unwrap();
    let Action::PersistConfig { revision, .. } = controller.next_action().unwrap() else {
        panic!("emergency clear must be persisted")
    };
    assert_eq!(revision, clear);
    controller.complete_persist(revision, CompletionOutcome::Succeeded);
    arm_power_outputs(&mut controller);
    assert!(controller.next_action().is_none());

    let Action::PowerGate { operation, port: stale_port, slot_epoch, enabled, .. } = stale_gate else {
        panic!("expected the pre-emergency gate command")
    };
    controller.complete_power_gate_operation(
        stale_port,
        operation,
        slot_epoch,
        enabled,
        CompletionOutcome::Succeeded,
    );
    assert_eq!(controller.diagnostics().stale_power_completions, 1);
    assert_eq!(controller.port_powered(port(0)), Some(false));
}

#[test]
fn failed_global_output_command_faults_every_gate_and_retries_all_off() {
    let mut controller = Controller::new(REV_B(), PersistentSettings::FACTORY_DEFAULT());
    let Action::PowerOutputs { operation, kind } = controller.next_action().unwrap() else {
        panic!("Rev B must initialize its power controller all-off")
    };
    assert_eq!(kind, PowerOutputsActionKind::ArmAllOff);

    controller.complete_power_outputs_operation(operation, kind, CompletionOutcome::Failed);

    for raw_port in 0..6 {
        assert_eq!(controller.power_gate_state(port(raw_port)), Some(PowerGateState::Faulted));
    }
    assert_eq!(controller.diagnostics().failed_power_operations, 1);
    assert!(matches!(
        controller.next_action(),
        Some(Action::PowerOutputs { kind: PowerOutputsActionKind::EmergencyDisableAll, .. })
    ));
}

#[test]
fn emergency_actions_outrank_persistence_and_policy() {
    let mut controller = Controller::new(REV_A(), PersistentSettings::FACTORY_DEFAULT());
    for raw_port in 0..6 {
        controller.module_detected(port(raw_port)).unwrap();
    }
    controller.emergency_disable();

    for raw_port in 0..6 {
        let Action::Pd { port: action_port, kind, .. } = controller.next_action().unwrap() else {
            panic!("PD emergency action must precede persistence");
        };
        assert_eq!(action_port, port(raw_port));
        assert_eq!(kind, PdActionKind::EmergencyDisable);
    }

    assert!(matches!(controller.next_action(), Some(Action::PersistConfig { .. })));
}

#[test]
fn a_failed_port_does_not_starve_other_pending_ports() {
    let mut controller = Controller::new(REV_A(), PersistentSettings::FACTORY_DEFAULT());
    controller.module_detected(port(0)).unwrap();
    controller.module_detected(port(1)).unwrap();

    let Action::Pd { operation, port: first_port, slot_epoch, .. } = controller.next_action().unwrap()
    else {
        panic!("module detection must schedule a policy action");
    };
    assert_eq!(first_port, port(0));
    controller.complete_pd_operation(first_port, operation, slot_epoch, CompletionOutcome::Failed);

    let Action::Pd { port: second_port, .. } = controller.next_action().unwrap() else {
        panic!("the other pending port must remain dispatchable");
    };
    assert_eq!(second_port, port(1));
}

#[test]
fn emergency_clear_takes_effect_only_after_durable_completion() {
    let mut settings = PersistentSettings::FACTORY_DEFAULT();
    settings.port_policy[0] = enabled_policy();
    let mut controller = Controller::new(REV_A(), settings);
    controller.module_detected(port(0)).unwrap();
    let initial_policy = controller.next_action().unwrap();
    let Action::Pd { operation, slot_epoch, .. } = initial_policy else {
        panic!("expected initial policy action");
    };
    controller.complete_pd_operation(port(0), operation, slot_epoch, CompletionOutcome::Succeeded);

    controller.emergency_disable();
    let emergency = controller.next_action().unwrap();
    let Action::Pd { operation, slot_epoch, .. } = emergency else {
        panic!("expected emergency action");
    };
    controller.complete_pd_operation(port(0), operation, slot_epoch, CompletionOutcome::Succeeded);

    let Action::PersistConfig { revision: latch_revision, settings: persisted } =
        controller.next_action().unwrap()
    else {
        panic!("expected latched persistence");
    };
    assert!(persisted.emergency_latched);
    controller.complete_persist(latch_revision, CompletionOutcome::Succeeded);

    let clear_revision = controller.acknowledge_emergency_resolved().unwrap();
    assert!(controller.emergency_latched());
    let Action::PersistConfig { revision, settings: persisted } = controller.next_action().unwrap() else {
        panic!("expected cleared persistence");
    };
    assert_eq!(revision, clear_revision);
    assert!(!persisted.emergency_latched);
    assert!(controller.emergency_latched());

    controller.complete_persist(clear_revision, CompletionOutcome::Succeeded);
    assert!(!controller.emergency_latched());
    assert!(controller.next_action().is_none());

    controller.set_port_policy(port(0), enabled_policy()).unwrap();
    assert!(matches!(
        controller.next_action(),
        Some(Action::Pd { kind: PdActionKind::ApplyPolicy(_), .. })
    ));
}

#[test]
fn stale_operation_completion_is_ignored_and_recorded() {
    let mut controller = Controller::new(REV_A(), PersistentSettings::FACTORY_DEFAULT());
    let epoch = controller.module_detected(port(0)).unwrap();
    let Action::Pd { operation, .. } = controller.next_action().unwrap() else {
        panic!("expected policy action");
    };
    controller.module_removed(port(0)).unwrap();

    controller.complete_pd_operation(port(0), operation, epoch, CompletionOutcome::Succeeded);

    assert_eq!(controller.diagnostics().stale_operation_completions, 1);
    assert_eq!(controller.port_online(port(0)), Some(false));
}

#[test]
fn enabled_policy_is_rejected_while_emergency_is_latched() {
    let mut controller = Controller::new(REV_A(), PersistentSettings::FACTORY_DEFAULT());
    controller.emergency_disable();
    assert_eq!(
        controller.set_port_policy(port(0), enabled_policy()),
        Err(ControllerError::EmergencyLatched)
    );
}

#[test]
fn coalesced_write_durably_covers_every_earlier_mutation() {
    let mut controller = Controller::new(REV_A(), PersistentSettings::FACTORY_DEFAULT());
    let first =
        controller.set_port_policy(port(0), enabled_policy()).unwrap().persist_revision.unwrap();
    let second = controller.set_node_id(Some(NodeId::new(9).unwrap())).persist_revision.unwrap();

    let Action::PersistConfig { revision, .. } = controller.next_action().unwrap() else {
        panic!("expected the coalesced configuration write");
    };
    assert_eq!(revision, second);
    assert!(revision_covers(revision, first));
    assert_eq!(
        controller.complete_persist(revision, CompletionOutcome::Succeeded),
        PersistCompletion::DurableThrough(second)
    );
}

#[test]
fn failed_emergency_clear_remains_latched_and_retries_the_clear() {
    let mut settings = PersistentSettings::FACTORY_DEFAULT();
    settings.emergency_latched = true;
    let mut controller = Controller::new(REV_A(), settings);
    let requested = controller.acknowledge_emergency_resolved().unwrap();

    let Action::PersistConfig { revision, settings } = controller.next_action().unwrap() else {
        panic!("expected clear persistence");
    };
    assert_eq!(revision, requested);
    assert!(!settings.emergency_latched);
    assert_eq!(
        controller.complete_persist(revision, CompletionOutcome::Failed),
        PersistCompletion::RetryScheduled
    );
    assert!(controller.emergency_latched());
    assert!(!controller.settings().emergency_latched);

    let Action::PersistConfig { revision: retry, settings } = controller.next_action().unwrap() else {
        panic!("expected retried clear persistence");
    };
    assert!(!settings.emergency_latched);
    assert!(revision_covers(retry, requested));
    assert_eq!(
        controller.complete_persist(retry, CompletionOutcome::Succeeded),
        PersistCompletion::DurableThrough(retry)
    );
    assert!(!controller.emergency_latched());
}

#[test]
fn revision_coverage_wraps_at_half_the_range() {
    assert!(revision_covers(ConfigRevision(5), ConfigRevision(5)));
    assert!(revision_covers(ConfigRevision(1), ConfigRevision(u32::MAX)));
    assert!(!revision_covers(ConfigRevision(4), ConfigRevision(5)));
    assert!(!revision_covers(ConfigRevision(0x8000_0005), ConfigRevision(5)));
}

#[test]
fn pd_bus_serves_emergencies_before_periodic_work() {
    let none = PendingBusCommands { power_emergency: false, power_off: false, pd_emergency: false };
    let all = PendingBusCommands { power_emergency: true, power_off: true, pd_emergency: true };
    assert_eq!(next_bus_work(all, 1_000, 0, Some(0)), BusWork::PowerEmergency);
    assert_eq!(
        next_bus_work(PendingBusCommands { power_emergency: false, ..all }, 1_000, 0, Some(0)),
        BusWork::PowerOff
    );
    assert_eq!(
        next_bus_work(PendingBusCommands { pd_emergency: true, ..none }, 1_000, 0, Some(0)),
        BusWork::PdEmergency
    );
    assert_eq!(next_bus_work(none, 1_000, 0, Some(1_000)), BusWork::BoardTemperature);
    assert_eq!(next_bus_work(none, 1_000, 1_000, None), BusWork::Probe);
    assert_eq!(next_bus_work(none, 999, 1_000, Some(2_000)), BusWork::Wait);
    assert_eq!(wake_deadline(250, Some(100)), 100);
    assert_eq!(wake_deadline(250, None), 250);
}

#[test]
fn probe_reports_a_powered_port_once_and_forgets_it_when_unpowered() {
    let board = REV_B();
    let mut state = ProbeState::new();
    assert_eq!(state.begin_probe(board, 0), ProbeStep::Skip);
    assert_eq!(state.next_port, 1);

    let mut state = ProbeState::new();
    let step = state.begin_probe(board, 0x01);
    assert_eq!(
        step,
        ProbeStep::Probe { port: port(0), report_initial: true, assume_base_bank: true }
    );
    let found = ProbeOutcome::Selected { identity: IdentityRead::Found, deselected: true };
    assert_eq!(state.finish_probe(port(0), true, found), (Some(PortEvent::ModuleDetected(port(0))), false));
    assert!(state.present[0]);

    state.next_port = 0;
    let step = state.begin_probe(board, 0x01);
    assert_eq!(
        step,
        ProbeStep::Probe { port: port(0), report_initial: false, assume_base_bank: false }
    );
    assert_eq!(state.finish_probe(port(0), false, found), (None, false));

    let unknown = ProbeOutcome::Selected { identity: IdentityRead::BankUnknown, deselected: true };
    assert_eq!(state.finish_probe(port(0), false, unknown), (None, true));
    assert!(state.present[0]);
    assert_eq!(
        state.finish_probe(port(0), false, ProbeOutcome::SelectFailed),
        (Some(PortEvent::ModuleRemoved(port(0))), true)
    );

    state.next_port = 0;
    assert_eq!(state.begin_probe(board, 0), ProbeStep::Skip);
    assert!(!state.observed_powered[0]);
}

#[test]
fn probe_reports_an_initial_absence_after_power_up() {
    let mut state = ProbeState::new();
    let ProbeStep::Probe { report_initial, .. } = state.begin_probe(REV_B(), 0x01) else {
        panic!("a powered port is probed");
    };
    let absent = ProbeOutcome::Selected { identity: IdentityRead::Absent, deselected: true };
    assert_eq!(
        state.finish_probe(port(0), report_initial, absent),
        (Some(PortEvent::ModuleRemoved(port(0))), false)
    );
}

#[test]
fn action_mapping_preserves_stale_completion_guards() {
    let command = ExecutorCommand::from(Action::Pd {
        operation: OperationId(17),
        port: PortId::new(5).unwrap(),
        slot_epoch: SlotEpoch(9),
        kind: PdActionKind::ApplyPolicy(PortPolicy::SAFE_DISABLED()),
    });
    assert_eq!(
        command,
        ExecutorCommand::Pd(PdBusCommand {
            operation: OperationId(17),
            port: PortId::new(5).unwrap(),
            slot_epoch: SlotEpoch(9),
            kind: PdActionKind::ApplyPolicy(PortPolicy::SAFE_DISABLED()),
        })
    );
}

#[test]
fn persistence_mapping_preserves_revision_and_emergency_latch() {
    let mut settings = PersistentSettings::FACTORY_DEFAULT();
    settings.emergency_latched = true;
    assert_eq!(
        command_for(Action::PersistConfig { revision: ConfigRevision(8), settings }),
        ExecutorCommand::Persist(PersistCommand { revision: ConfigRevision(8), settings })
    );
}

#[test]
fn power_gate_mapping_preserves_output_and_epoch() {
    assert_eq!(
        ExecutorCommand::from(Action::PowerGate {
            operation: OperationId(3),
            port: PortId::new(2).unwrap(),
            slot_epoch: SlotEpoch(4),
            output_bit: 5,
            enabled: true,
        }),
        ExecutorCommand::PowerGate(PowerGateCommand {
            operation: OperationId(3),
            port: PortId::new(2).unwrap(),
            slot_epoch: SlotEpoch(4),
            output_bit: 5,
            enabled: true,
        })
    );
}

#[test]
fn controller_loop_routes_emergencies_to_their_own_queues() {
    let gate_off = ExecutorCommand::PowerGate(PowerGateCommand {
        operation: OperationId(1),
        port: port(0),
        slot_epoch: SlotEpoch(0),
        output_bit: 0,
        enabled: false,
    });
    assert_eq!(queue_for(&gate_off), Queue::PowerOff);
    let pd = ExecutorCommand::Pd(PdBusCommand {
        operation: OperationId(2),
        port: port(1),
        slot_epoch: SlotEpoch(0),
        kind: PdActionKind::EmergencyDisable,
    });
    assert_eq!(queue_for(&pd), Queue::PdEmergency);
    assert_eq!(status_for(true, CommissioningState::Commissioned), StatusState::EmergencyLatched);
    assert_eq!(status_for(false, CommissioningState::Claiming), StatusState::Uncommissioned);
    assert_eq!(status_for(false, CommissioningState::AddressConflict), StatusState::AddressConflict);
    assert!(fan_refresh_needed(true, false));
    assert!(!fan_refresh_needed(false, false));
    assert_eq!(heartbeat_step(1_000, 1_000), (true, 2_000));
    assert_eq!(heartbeat_step(999, 1_000), (false, 1_000));
}

#[test]
fn claim_schedule_sends_two_rounds_then_closes_the_window() {
    let mut timer = claim_timer_at_start(true, 0);
    assert_eq!(timer.window_deadline, Some(500));
    let (next, step) = claim_step(timer, CommissioningState::Claiming, 150);
    assert_eq!(step.round_nonce, Some(1));
    timer = next;
    let (next, step) = claim_step(timer, CommissioningState::Claiming, 300);
    assert_eq!(step.round_nonce, Some(2));
    assert_eq!(next.next_round, None);
    timer = next;
    let (next, step) = claim_step(timer, CommissioningState::Claiming, 500);
    assert_eq!(step, ClaimStep { round_nonce: None, window_complete: true });
    assert_eq!(next.window_deadline, None);
    assert_eq!(claim_timer_at_start(false, 0).window_deadline, None);
}

#[test]
fn reports_read_the_port_controller() {
    let mut settings = PersistentSettings::FACTORY_DEFAULT();
    settings.port_policy[0] = enabled_policy();
    let mut controller = Controller::new(REV_A(), settings);
    controller.module_detected(port(0)).unwrap();
    let node = NodeId::new(4).unwrap();
    let heartbeat = heartbeat_report(
        &controller,
        node,
        CommissioningState::Commissioned,
        FirmwareVersion { major: 0, minor: 1, patch: 0 },
        ResetFlags::from_bits(ResetFlags::PIN),
        12,
    );
    assert_eq!(heartbeat.node, 4);
    assert_eq!(heartbeat.hardware_revision, 1);
    assert_eq!(heartbeat.supported_ports, 0x3f);
    assert_eq!(heartbeat.online_ports, 0x01);
    assert_eq!(heartbeat.enabled_ports, 0x01);
    assert!(!heartbeat.emergency_latched);
    assert_eq!(heartbeat.uptime_seconds, 12);

    let state = port_state_report(&controller, node, port(0), 7, 12).unwrap();
    assert_eq!(
        state.flags.bits(),
        PortStateFlags::ENABLED
            | PortStateFlags::MODULE_PRESENT
            | PortStateFlags::POLICY_PENDING
            | PortStateFlags::INPUT_POWERED
    );
    assert_eq!(state.sequence, 7);
    assert_eq!(state.active_profile, 0xff);
    assert!(port_state_report(&controller, node, port(6), 8, 12).is_none());
}
