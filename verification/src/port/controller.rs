use vstd::prelude::*;

use crate::port::model::{
    group_port_lemmas, has_bit, with_bit, without_bit, BoardDefinition, ConfigRevision, FanConfig,
    OperationId, PersistentSettings, PolicyValidationError, PortBitmap, PortId, PortPolicy,
    SlotEpoch, spec_policy_check,
};
use crate::types::NodeId;

verus! {

/// The outcome of a mutation: the settings revision that must be durable
/// before the requester may be told that it took effect, if it changed
/// anything.
#[derive(Clone, Copy, Debug, PartialEq, Eq, Structural)]
pub struct Mutation {
    pub persist_revision: Option<ConfigRevision>,
}

#[derive(Clone, Copy, Debug, PartialEq, Eq, Structural)]
pub enum PersistCompletion {
    IgnoredStale,
    RetryScheduled,
    DurableThrough(ConfigRevision),
}

#[derive(Clone, Copy, Debug, PartialEq, Eq, Structural)]
pub enum PdActionKind {
    ApplyPolicy(PortPolicy),
    EmergencyDisable,
}

#[derive(Clone, Copy, Debug, PartialEq, Eq, Structural)]
pub enum PowerOutputsActionKind {
    /// Initialize the board's power-control mechanism in a known all-off state.
    ArmAllOff,
    /// Command every firmware-controlled input-power output off.
    EmergencyDisableAll,
}

#[derive(Clone, Copy, Debug, PartialEq, Eq, Structural)]
pub enum PowerGateState {
    Off,
    SwitchingOn,
    On,
    SwitchingOff,
    Faulted,
}

/// Work the controller hands to the hardware or to flash.
#[derive(Clone, Copy, Debug, PartialEq, Eq)]
pub enum Action {
    Pd { operation: OperationId, port: PortId, slot_epoch: SlotEpoch, kind: PdActionKind },
    PersistConfig { revision: ConfigRevision, settings: PersistentSettings },
    PowerGate {
        operation: OperationId,
        port: PortId,
        slot_epoch: SlotEpoch,
        output_bit: u8,
        enabled: bool,
    },
    PowerOutputs { operation: OperationId, kind: PowerOutputsActionKind },
}

#[derive(Clone, Copy, Debug, PartialEq, Eq, Structural)]
pub struct Diagnostics {
    pub stale_operation_completions: u32,
    pub stale_power_completions: u32,
    pub stale_persistence_completions: u32,
    pub rejected_unsupported_targets: u32,
    pub failed_pd_operations: u32,
    pub failed_power_operations: u32,
    pub failed_persistence_operations: u32,
}

#[derive(Clone, Copy, Debug, PartialEq, Eq, Structural)]
pub enum ControllerError {
    UnsupportedPort(PortId),
    InvalidPolicy(PolicyValidationError),
    InvalidFanDuty(u8),
    EmergencyLatched,
    EmergencyAlreadyClear,
    EmergencyClearInProgress,
}

#[derive(Clone, Copy, Debug, PartialEq, Eq, Structural)]
pub enum CompletionOutcome {
    Succeeded,
    Failed,
}

#[derive(Clone, Copy, Debug, PartialEq, Eq, Structural)]
pub enum ActiveOperationKind {
    Pd(PdActionKind),
    PowerGate(bool),
}

/// What the controller knows of one slot.
#[derive(Clone, Copy, Debug, PartialEq, Eq, Structural)]
pub struct SlotState {
    pub epoch: SlotEpoch,
    pub online: bool,
    pub power_gate: PowerGateState,
    pub active_operation: Option<OperationId>,
    pub active_kind: Option<ActiveOperationKind>,
    /// The revision that must be durable before this slot's enabled policy
    /// may be applied or its gate energized.
    pub policy_after_revision: Option<ConfigRevision>,
}

pub open spec fn initial_slot() -> SlotState {
    SlotState {
        epoch: SlotEpoch(0),
        online: false,
        power_gate: PowerGateState::Off,
        active_operation: None,
        active_kind: None,
        policy_after_revision: None,
    }
}

/// The controller's state. Port sets are bit masks, one bit per port.
#[verifier::ext_equal]
pub struct ControllerModel {
    pub board: BoardDefinition,
    pub settings: PersistentSettings,
    pub slots: Seq<SlotState>,
    pub pending_emergency: u8,
    pub pending_policy: u8,
    pub pending_power_on: u8,
    pub pending_power_off: u8,
    pub pending_power_emergency: bool,
    pub pending_power_arm: bool,
    pub outputs_enabled: bool,
    pub active_power_outputs: Option<(OperationId, PowerOutputsActionKind)>,
    pub pending_persist: Option<ConfigRevision>,
    pub persist_in_flight: Option<ConfigRevision>,
    pub durable_revision: ConfigRevision,
    pub clearing_emergency_at: Option<ConfigRevision>,
    pub emergency_latched_runtime: bool,
    pub next_operation: u32,
    pub next_config_revision: u32,
    pub emergency_cursor: u8,
    pub policy_cursor: u8,
    pub power_on_cursor: u8,
    pub power_off_cursor: u8,
    pub diagnostics: Diagnostics,
}

/// The port controller of a backpack: it turns detections, requests and
/// completions into the next hardware, persistence or power action.
pub struct Controller {
    board: BoardDefinition,
    settings: PersistentSettings,
    slots: [SlotState; 8],
    pending_emergency: PortBitmap,
    pending_policy: PortBitmap,
    pending_power_on: PortBitmap,
    pending_power_off: PortBitmap,
    pending_power_emergency: bool,
    pending_power_arm: bool,
    outputs_enabled: bool,
    active_power_outputs: Option<(OperationId, PowerOutputsActionKind)>,
    pending_persist: Option<ConfigRevision>,
    persist_in_flight: Option<ConfigRevision>,
    durable_revision: ConfigRevision,
    clearing_emergency_at: Option<ConfigRevision>,
    emergency_latched_runtime: bool,
    next_operation: u32,
    next_config_revision: u32,
    emergency_cursor: u8,
    policy_cursor: u8,
    power_on_cursor: u8,
    power_off_cursor: u8,
    diagnostics: Diagnostics,
}

impl View for Controller {
    type V = ControllerModel;

    closed spec fn view(&self) -> ControllerModel {
        ControllerModel {
            board: self.board,
            settings: self.settings,
            slots: self.slots@,
            pending_emergency: self.pending_emergency@,
            pending_policy: self.pending_policy@,
            pending_power_on: self.pending_power_on@,
            pending_power_off: self.pending_power_off@,
            pending_power_emergency: self.pending_power_emergency,
            pending_power_arm: self.pending_power_arm,
            outputs_enabled: self.outputs_enabled,
            active_power_outputs: self.active_power_outputs,
            pending_persist: self.pending_persist,
            persist_in_flight: self.persist_in_flight,
            durable_revision: self.durable_revision,
            clearing_emergency_at: self.clearing_emergency_at,
            emergency_latched_runtime: self.emergency_latched_runtime,
            next_operation: self.next_operation,
            next_config_revision: self.next_config_revision,
            emergency_cursor: self.emergency_cursor,
            policy_cursor: self.policy_cursor,
            power_on_cursor: self.power_on_cursor,
            power_off_cursor: self.power_off_cursor,
            diagnostics: self.diagnostics,
        }
    }
}

pub open spec fn wrap_inc(x: u32) -> u32 {
    if x == u32::MAX {
        0
    } else {
        (x + 1) as u32
    }
}

pub open spec fn sat_inc(x: u32) -> u32 {
    if x == u32::MAX {
        x
    } else {
        (x + 1) as u32
    }
}

/// `durable` is `required` or lies less than half the revision space after
/// it, counting with wrap-around.
pub open spec fn spec_revision_covers(durable: ConfigRevision, required: ConfigRevision) -> bool {
    let diff = if durable.0 >= required.0 {
        durable.0 - required.0
    } else {
        durable.0 + 0x1_0000_0000 - required.0
    };
    durable.0 == required.0 || diff < 0x8000_0000
}

/// Whether a successful coalesced write at `durable` includes the settings
/// mutation requested at `required`, ordering revisions over half the
/// wrapping range as the flash journal orders its sequence numbers.
pub fn revision_covers(durable: ConfigRevision, required: ConfigRevision) -> (r: bool)
    ensures
        r == spec_revision_covers(durable, required),
{
    let diff: u32 = if durable.0 >= required.0 {
        durable.0 - required.0
    } else {
        ((durable.0 as u64 + 0x1_0000_0000u64) - required.0 as u64) as u32
    };
    durable.0 == required.0 || diff < 0x8000_0000
}

pub open spec fn next_port(p: int) -> int {
    if p == 7 {
        0
    } else {
        p + 1
    }
}

/// The first port, from `start` on and round the ring, within `steps`
/// ports, that satisfies `pred`.
pub open spec fn scan_from(start: int, steps: nat, pred: spec_fn(int) -> bool) -> Option<int>
    decreases steps,
{
    if steps == 0 {
        None
    } else if pred(start) {
        Some(start)
    } else {
        scan_from(next_port(start), (steps - 1) as nat, pred)
    }
}

pub proof fn lemma_scan_found(start: int, steps: nat, pred: spec_fn(int) -> bool)
    requires
        0 <= start < 8,
    ensures
        scan_from(start, steps, pred) matches Some(p) ==> pred(p) && 0 <= p < 8,
    decreases steps,
{
    if steps > 0 && !pred(start) {
        lemma_scan_found(next_port(start), (steps - 1) as nat, pred);
    }
}

pub open spec fn invalidated(s: SlotState) -> SlotState {
    SlotState { epoch: SlotEpoch(wrap_inc(s.epoch.0)), active_operation: None, active_kind: None, ..s }
}

pub open spec fn with_slot(c: ControllerModel, p: int, s: SlotState) -> ControllerModel {
    ControllerModel { slots: c.slots.update(p, s), ..c }
}

pub open spec fn gated(c: ControllerModel, p: int) -> bool {
    c.board.spec_gated(p)
}

/// Whether the durability that slot `p`'s enabled policy waits for has come.
pub open spec fn persistence_ready(c: ControllerModel, p: int) -> bool {
    match c.slots[p].policy_after_revision {
        None => true,
        Some(required) => spec_revision_covers(c.durable_revision, required),
    }
}

pub open spec fn spec_request_persist(c: ControllerModel) -> (ControllerModel, ConfigRevision) {
    let n = wrap_inc(c.next_config_revision);
    (
        ControllerModel { next_config_revision: n, pending_persist: Some(ConfigRevision(n)), ..c },
        ConfigRevision(n),
    )
}

pub open spec fn spec_reject(c: ControllerModel) -> ControllerModel {
    ControllerModel {
        diagnostics: Diagnostics {
            rejected_unsupported_targets: sat_inc(c.diagnostics.rejected_unsupported_targets),
            ..c.diagnostics
        },
        ..c
    }
}

/// Stop slot `p`'s pending work and, unless its gate is already off,
/// invalidate it and queue its gate off.
pub open spec fn spec_schedule_power_off(c: ControllerModel, p: int) -> ControllerModel {
    let c1 = ControllerModel {
        pending_power_on: without_bit(c.pending_power_on, p),
        pending_policy: without_bit(c.pending_policy, p),
        pending_emergency: without_bit(c.pending_emergency, p),
        ..c
    };
    if c.slots[p].power_gate == PowerGateState::Off {
        with_slot(c1, p, SlotState { online: false, ..c.slots[p] })
    } else {
        ControllerModel {
            slots: c1.slots.update(p, SlotState { online: false, ..invalidated(c.slots[p]) }),
            pending_power_off: with_bit(c1.pending_power_off, p),
            ..c1
        }
    }
}

pub open spec fn spec_fail_port(c: ControllerModel, p: int) -> ControllerModel {
    if !gated(c, p) {
        c
    } else {
        ControllerModel {
            slots: c.slots.update(
                p,
                SlotState { online: false, power_gate: PowerGateState::Faulted, ..invalidated(c.slots[p]) },
            ),
            pending_power_on: without_bit(c.pending_power_on, p),
            pending_power_off: without_bit(c.pending_power_off, p),
            pending_policy: without_bit(c.pending_policy, p),
            ..c
        }
    }
}

pub open spec fn spec_fail_ports(c: ControllerModel, n: int) -> ControllerModel
    decreases n,
{
    if n <= 0 {
        c
    } else {
        spec_fail_port(spec_fail_ports(c, n - 1), n - 1)
    }
}

/// Without rail feedback a failed power command leaves every gated port
/// unknown: fault them all, stop their work and retry all-off.
pub open spec fn spec_fail_all_power_closed(c: ControllerModel) -> ControllerModel {
    spec_fail_ports(
        ControllerModel {
            outputs_enabled: false,
            pending_power_emergency: true,
            pending_power_arm: false,
            ..c
        },
        8,
    )
}

pub open spec fn spec_emergency_port(c: ControllerModel, p: int) -> ControllerModel {
    if !c.board.spec_supports(p) {
        c
    } else if gated(c, p) {
        let s0 = c.slots[p];
        let s1 = if s0.online || s0.active_operation is Some || s0.power_gate == PowerGateState::On
            || s0.power_gate == PowerGateState::SwitchingOn {
            invalidated(s0)
        } else {
            s0
        };
        let s2 = SlotState {
            online: false,
            power_gate: if s1.power_gate == PowerGateState::Off {
                PowerGateState::Off
            } else {
                PowerGateState::SwitchingOff
            },
            ..s1
        };
        ControllerModel {
            slots: c.slots.update(p, s2),
            pending_power_on: without_bit(c.pending_power_on, p),
            pending_power_off: without_bit(c.pending_power_off, p),
            pending_policy: without_bit(c.pending_policy, p),
            ..c
        }
    } else if c.slots[p].online {
        ControllerModel {
            pending_emergency: with_bit(c.pending_emergency, p),
            pending_policy: without_bit(c.pending_policy, p),
            ..c
        }
    } else {
        c
    }
}

pub open spec fn spec_emergency_ports(c: ControllerModel, n: int) -> ControllerModel
    decreases n,
{
    if n <= 0 {
        c
    } else {
        spec_emergency_port(spec_emergency_ports(c, n - 1), n - 1)
    }
}

pub open spec fn spec_emergency_disable(c: ControllerModel) -> (ControllerModel, Mutation) {
    let c1 = ControllerModel { emergency_latched_runtime: true, clearing_emergency_at: None, ..c };
    let persisted = if c.settings.emergency_latched {
        (c1, None::<ConfigRevision>)
    } else {
        let requested = spec_request_persist(
            ControllerModel { settings: PersistentSettings { emergency_latched: true, ..c1.settings }, ..c1 },
        );
        (requested.0, Some(requested.1))
    };
    let c2 = persisted.0;
    let c3 = if c.board.spec_has_power_gates() {
        ControllerModel {
            pending_power_emergency: true,
            pending_power_arm: false,
            outputs_enabled: false,
            active_power_outputs: None,
            ..c2
        }
    } else {
        c2
    };
    (spec_emergency_ports(c3, 8), Mutation { persist_revision: persisted.1 })
}

pub open spec fn spec_module_detected(c: ControllerModel, port: PortId) -> (ControllerModel, Result<
    SlotEpoch,
    ControllerError,
>) {
    let p = port.spec_get() as int;
    if !c.board.spec_supports(p) {
        (spec_reject(c), Err(ControllerError::UnsupportedPort(port)))
    } else if gated(c, p) && c.slots[p].power_gate != PowerGateState::On {
        (c, Ok(c.slots[p].epoch))
    } else {
        let c1 = with_slot(c, p, SlotState { online: true, ..c.slots[p] });
        let c2 = if gated(c, p) && (c.emergency_latched_runtime
            || !c.settings.port_policy@[p].enabled) {
            spec_schedule_power_off(c1, p)
        } else if c.emergency_latched_runtime {
            ControllerModel { pending_emergency: with_bit(c1.pending_emergency, p), ..c1 }
        } else {
            ControllerModel { pending_policy: with_bit(c1.pending_policy, p), ..c1 }
        };
        (c2, Ok(c2.slots[p].epoch))
    }
}

pub open spec fn spec_module_removed(c: ControllerModel, port: PortId) -> (ControllerModel, Result<
    SlotEpoch,
    ControllerError,
>) {
    let p = port.spec_get() as int;
    if !c.board.spec_supports(p) {
        (spec_reject(c), Err(ControllerError::UnsupportedPort(port)))
    } else {
        let s = c.slots[p];
        let s1 = if s.online || s.active_operation is Some || s.power_gate != PowerGateState::Off {
            invalidated(s)
        } else {
            s
        };
        let s2 = SlotState { online: false, ..s1 };
        let c1 = ControllerModel {
            slots: c.slots.update(p, s2),
            pending_emergency: without_bit(c.pending_emergency, p),
            pending_policy: without_bit(c.pending_policy, p),
            pending_power_on: without_bit(c.pending_power_on, p),
            ..c
        };
        let c2 = if gated(c, p) && s2.power_gate != PowerGateState::Off {
            ControllerModel { pending_power_off: with_bit(c1.pending_power_off, p), ..c1 }
        } else {
            c1
        };
        (c2, Ok(s2.epoch))
    }
}

pub open spec fn spec_set_port_policy(c: ControllerModel, port: PortId, policy: PortPolicy) -> (
    ControllerModel,
    Result<Mutation, ControllerError>,
) {
    let p = port.spec_get() as int;
    if !c.board.spec_supports(p) {
        (spec_reject(c), Err(ControllerError::UnsupportedPort(port)))
    } else if spec_policy_check(policy) is Err {
        (c, Err(ControllerError::InvalidPolicy(spec_policy_check(policy)->Err_0)))
    } else if c.emergency_latched_runtime && policy.enabled {
        (c, Err(ControllerError::EmergencyLatched))
    } else {
        let changed = c.settings.port_policy@[p] != policy;
        let c1 = ControllerModel {
            settings: PersistentSettings {
                port_policy: vstd::array::spec_array_update(c.settings.port_policy, p, policy),
                ..c.settings
            },
            ..c
        };
        let c2 = if changed {
            spec_request_persist(c1).0
        } else {
            c1
        };
        let revision = if changed {
            Some(spec_request_persist(c1).1)
        } else {
            None
        };
        let s = c2.slots[p];
        let c3 = if gated(c, p) {
            if policy.enabled {
                let c4 = with_slot(c2, p, SlotState { policy_after_revision: revision, ..s });
                if s.power_gate == PowerGateState::On && s.online {
                    ControllerModel { pending_policy: with_bit(c4.pending_policy, p), ..c4 }
                } else if s.power_gate == PowerGateState::Off || s.power_gate
                    == PowerGateState::Faulted || s.power_gate == PowerGateState::SwitchingOff {
                    ControllerModel { pending_power_on: with_bit(c4.pending_power_on, p), ..c4 }
                } else {
                    c4
                }
            } else {
                spec_schedule_power_off(
                    with_slot(c2, p, SlotState { policy_after_revision: None, ..s }),
                    p,
                )
            }
        } else if s.online {
            let c4 = with_slot(c2, p, SlotState { policy_after_revision: revision, ..s });
            if c.emergency_latched_runtime {
                ControllerModel { pending_emergency: with_bit(c4.pending_emergency, p), ..c4 }
            } else {
                ControllerModel { pending_policy: with_bit(c4.pending_policy, p), ..c4 }
            }
        } else {
            c2
        };
        (c3, Ok(Mutation { persist_revision: revision }))
    }
}

/// Record a node address; a change is written to flash.
pub open spec fn spec_set_node_id(c: ControllerModel, node_id: Option<NodeId>) -> (ControllerModel, Mutation) {
    if c.settings.node_id == node_id {
        (c, Mutation { persist_revision: None })
    } else {
        let r = spec_request_persist(
            ControllerModel { settings: PersistentSettings { node_id, ..c.settings }, ..c },
        );
        (r.0, Mutation { persist_revision: Some(r.1) })
    }
}

/// Record a fan configuration with a duty of at most 100; a change is
/// written to flash.
pub open spec fn spec_set_fan_config(c: ControllerModel, fan: FanConfig) -> (ControllerModel, Result<
    Mutation,
    ControllerError,
>) {
    if fan.duty_percent > 100 {
        (c, Err(ControllerError::InvalidFanDuty(fan.duty_percent)))
    } else if c.settings.fan == fan {
        (c, Ok(Mutation { persist_revision: None }))
    } else {
        let r = spec_request_persist(
            ControllerModel { settings: PersistentSettings { fan, ..c.settings }, ..c },
        );
        (r.0, Ok(Mutation { persist_revision: Some(r.1) }))
    }
}

pub open spec fn spec_acknowledge(c: ControllerModel) -> (ControllerModel, Result<
    ConfigRevision,
    ControllerError,
>) {
    if c.clearing_emergency_at is Some {
        (c, Err(ControllerError::EmergencyClearInProgress))
    } else if !c.emergency_latched_runtime {
        (c, Err(ControllerError::EmergencyAlreadyClear))
    } else {
        let requested = spec_request_persist(
            ControllerModel { settings: PersistentSettings { emergency_latched: false, ..c.settings }, ..c },
        );
        (ControllerModel { clearing_emergency_at: Some(requested.1), ..requested.0 }, Ok(requested.1))
    }
}

pub open spec fn pred_power_off(c: ControllerModel) -> spec_fn(int) -> bool {
    |p: int| has_bit(c.pending_power_off, p) && c.slots[p].active_operation is None
}

pub open spec fn pred_emergency(c: ControllerModel) -> spec_fn(int) -> bool {
    |p: int| has_bit(c.pending_emergency, p) && c.slots[p].online && c.slots[p].active_operation is None
}

pub open spec fn pred_power_on(c: ControllerModel) -> spec_fn(int) -> bool {
    |p: int|
        has_bit(c.pending_power_on, p) && c.slots[p].active_operation is None && (
        c.slots[p].power_gate == PowerGateState::Off || c.slots[p].power_gate
            == PowerGateState::Faulted) && persistence_ready(c, p)
}

pub open spec fn pred_policy(c: ControllerModel) -> spec_fn(int) -> bool {
    |p: int|
        has_bit(c.pending_policy, p) && c.slots[p].online && c.slots[p].active_operation is None
            && persistence_ready(c, p)
}

pub open spec fn spec_start_pd(c: ControllerModel, p: int, kind: PdActionKind) -> (ControllerModel, Action) {
    let n = wrap_inc(c.next_operation);
    let s = c.slots[p];
    (
        ControllerModel {
            next_operation: n,
            slots: c.slots.update(
                p,
                SlotState {
                    active_operation: Some(OperationId(n)),
                    active_kind: Some(ActiveOperationKind::Pd(kind)),
                    ..s
                },
            ),
            ..c
        },
        Action::Pd { operation: OperationId(n), port: PortId::spec_new(p as u8), slot_epoch: s.epoch, kind },
    )
}

pub open spec fn spec_start_gate(c: ControllerModel, p: int, enabled: bool) -> (ControllerModel, Action) {
    let n = wrap_inc(c.next_operation);
    let s = c.slots[p];
    (
        ControllerModel {
            next_operation: n,
            slots: c.slots.update(
                p,
                SlotState {
                    active_operation: Some(OperationId(n)),
                    active_kind: Some(ActiveOperationKind::PowerGate(enabled)),
                    power_gate: if enabled {
                        PowerGateState::SwitchingOn
                    } else {
                        PowerGateState::SwitchingOff
                    },
                    ..s
                },
            ),
            ..c
        },
        Action::PowerGate {
            operation: OperationId(n),
            port: PortId::spec_new(p as u8),
            slot_epoch: s.epoch,
            output_bit: match c.board.spec_gate_bit(p) {
                Some(bit) => bit,
                None => 0,
            },
            enabled,
        },
    )
}

pub open spec fn spec_start_outputs(c: ControllerModel, kind: PowerOutputsActionKind) -> (ControllerModel, Action) {
    let n = wrap_inc(c.next_operation);
    (
        ControllerModel { next_operation: n, active_power_outputs: Some((OperationId(n), kind)), ..c },
        Action::PowerOutputs { operation: OperationId(n), kind },
    )
}

pub open spec fn some_action(r: (ControllerModel, Action)) -> (ControllerModel, Option<Action>) {
    (r.0, Some(r.1))
}

/// The next action, emergencies first: the all-outputs emergency, gates
/// to turn off, per-port emergency disables, then a settings write, arming
/// the outputs, gates to turn on and finally policies to apply, the last
/// three only while no emergency is latched. Each per-port queue is served
/// round-robin from its cursor.
pub open spec fn spec_next_action(c: ControllerModel) -> (ControllerModel, Option<Action>) {
    if c.pending_power_emergency {
        some_action(
            spec_start_outputs(
                ControllerModel { pending_power_emergency: false, ..c },
                PowerOutputsActionKind::EmergencyDisableAll,
            ),
        )
    } else {
        match scan_from((c.power_off_cursor % 8) as int, 8, pred_power_off(c)) {
            Some(p) => some_action(
                spec_start_gate(
                    ControllerModel {
                        pending_power_off: without_bit(c.pending_power_off, p),
                        power_off_cursor: next_port(p) as u8,
                        ..c
                    },
                    p,
                    false,
                ),
            ),
            None => match scan_from((c.emergency_cursor % 8) as int, 8, pred_emergency(c)) {
                Some(p) => some_action(
                    spec_start_pd(
                        ControllerModel {
                            pending_emergency: without_bit(c.pending_emergency, p),
                            emergency_cursor: next_port(p) as u8,
                            ..c
                        },
                        p,
                        PdActionKind::EmergencyDisable,
                    ),
                ),
                None => spec_next_routine_action(c),
            },
        }
    }
}

/// The part of `spec_next_action` after every emergency has been served.
pub open spec fn spec_next_routine_action(c: ControllerModel) -> (ControllerModel, Option<Action>) {
    if c.persist_in_flight is None && c.pending_persist is Some {
        let revision = c.pending_persist->0;
        (
            ControllerModel { pending_persist: None, persist_in_flight: Some(revision), ..c },
            Some(Action::PersistConfig { revision, settings: c.settings }),
        )
    } else if !c.emergency_latched_runtime && c.pending_power_arm && c.active_power_outputs is None {
        some_action(
            spec_start_outputs(
                ControllerModel { pending_power_arm: false, ..c },
                PowerOutputsActionKind::ArmAllOff,
            ),
        )
    } else if c.emergency_latched_runtime {
        (c, None)
    } else {
        let on = if c.outputs_enabled {
            scan_from((c.power_on_cursor % 8) as int, 8, pred_power_on(c))
        } else {
            None
        };
        match on {
            Some(p) => some_action(
                spec_start_gate(
                    ControllerModel {
                        pending_power_on: without_bit(c.pending_power_on, p),
                        power_on_cursor: next_port(p) as u8,
                        ..c
                    },
                    p,
                    true,
                ),
            ),
            None => match scan_from((c.policy_cursor % 8) as int, 8, pred_policy(c)) {
                Some(p) => some_action(
                    spec_start_pd(
                        ControllerModel {
                            pending_policy: without_bit(c.pending_policy, p),
                            policy_cursor: next_port(p) as u8,
                            slots: c.slots.update(
                                p,
                                SlotState { policy_after_revision: None, ..c.slots[p] },
                            ),
                            ..c
                        },
                        p,
                        PdActionKind::ApplyPolicy(c.settings.port_policy@[p]),
                    ),
                ),
                None => (c, None),
            },
        }
    }
}

pub open spec fn spec_outputs_port(c: ControllerModel, p: int, kind: PowerOutputsActionKind) -> ControllerModel {
    if !gated(c, p) {
        c
    } else {
        match kind {
            PowerOutputsActionKind::EmergencyDisableAll => with_slot(
                c,
                p,
                SlotState { power_gate: PowerGateState::Off, online: false, ..c.slots[p] },
            ),
            PowerOutputsActionKind::ArmAllOff => with_slot(
                c,
                p,
                SlotState { power_gate: PowerGateState::Off, ..c.slots[p] },
            ),
        }
    }
}

pub open spec fn spec_outputs_ports(c: ControllerModel, n: int, kind: PowerOutputsActionKind) -> ControllerModel
    decreases n,
{
    if n <= 0 {
        c
    } else {
        spec_outputs_port(spec_outputs_ports(c, n - 1, kind), n - 1, kind)
    }
}

pub open spec fn spec_complete_outputs(
    c: ControllerModel,
    operation: OperationId,
    kind: PowerOutputsActionKind,
    outcome: CompletionOutcome,
) -> ControllerModel {
    if c.active_power_outputs != Some((operation, kind)) {
        ControllerModel {
            diagnostics: Diagnostics {
                stale_power_completions: sat_inc(c.diagnostics.stale_power_completions),
                ..c.diagnostics
            },
            ..c
        }
    } else {
        let c1 = ControllerModel { active_power_outputs: None, ..c };
        if outcome == CompletionOutcome::Failed {
            spec_fail_all_power_closed(
                ControllerModel {
                    diagnostics: Diagnostics {
                        failed_power_operations: sat_inc(c.diagnostics.failed_power_operations),
                        ..c.diagnostics
                    },
                    ..c1
                },
            )
        } else {
            match kind {
                PowerOutputsActionKind::EmergencyDisableAll => spec_outputs_ports(
                    ControllerModel { outputs_enabled: false, ..c1 },
                    8,
                    kind,
                ),
                PowerOutputsActionKind::ArmAllOff => spec_outputs_ports(
                    ControllerModel { outputs_enabled: true, ..c1 },
                    8,
                    kind,
                ),
            }
        }
    }
}

pub open spec fn spec_complete_gate(
    c: ControllerModel,
    port: PortId,
    operation: OperationId,
    slot_epoch: SlotEpoch,
    enabled: bool,
    outcome: CompletionOutcome,
) -> ControllerModel {
    let p = port.spec_get() as int;
    let s = c.slots[p];
    if s.epoch != slot_epoch || s.active_operation != Some(operation) || s.active_kind != Some(
        ActiveOperationKind::PowerGate(enabled),
    ) {
        ControllerModel {
            diagnostics: Diagnostics {
                stale_power_completions: sat_inc(c.diagnostics.stale_power_completions),
                ..c.diagnostics
            },
            ..c
        }
    } else {
        let s1 = SlotState { active_operation: None, active_kind: None, ..s };
        if outcome == CompletionOutcome::Failed {
            spec_fail_all_power_closed(
                ControllerModel {
                    slots: c.slots.update(p, s1),
                    diagnostics: Diagnostics {
                        failed_power_operations: sat_inc(c.diagnostics.failed_power_operations),
                        ..c.diagnostics
                    },
                    ..c
                },
            )
        } else {
            with_slot(
                c,
                p,
                SlotState {
                    power_gate: if enabled {
                        PowerGateState::On
                    } else {
                        PowerGateState::Off
                    },
                    online: enabled && s1.online,
                    ..s1
                },
            )
        }
    }
}

pub open spec fn spec_complete_pd(
    c: ControllerModel,
    port: PortId,
    operation: OperationId,
    slot_epoch: SlotEpoch,
    outcome: CompletionOutcome,
) -> ControllerModel {
    let p = port.spec_get() as int;
    let s = c.slots[p];
    if s.epoch != slot_epoch || s.active_operation != Some(operation) || !(s.active_kind matches Some(
        ActiveOperationKind::Pd(_),
    )) {
        ControllerModel {
            diagnostics: Diagnostics {
                stale_operation_completions: sat_inc(c.diagnostics.stale_operation_completions),
                ..c.diagnostics
            },
            ..c
        }
    } else {
        let kind = s.active_kind->0->Pd_0;
        let c1 = with_slot(c, p, SlotState { active_operation: None, active_kind: None, ..s });
        if outcome == CompletionOutcome::Failed {
            let c2 = ControllerModel {
                diagnostics: Diagnostics {
                    failed_pd_operations: sat_inc(c.diagnostics.failed_pd_operations),
                    ..c.diagnostics
                },
                ..c1
            };
            if gated(c, p) && kind is ApplyPolicy {
                spec_schedule_power_off(c2, p)
            } else if s.online {
                if c.emergency_latched_runtime || kind == PdActionKind::EmergencyDisable {
                    ControllerModel { pending_emergency: with_bit(c2.pending_emergency, p), ..c2 }
                } else {
                    ControllerModel { pending_policy: with_bit(c2.pending_policy, p), ..c2 }
                }
            } else {
                c2
            }
        } else {
            c1
        }
    }
}

pub open spec fn spec_complete_persist(
    c: ControllerModel,
    revision: ConfigRevision,
    outcome: CompletionOutcome,
) -> (ControllerModel, PersistCompletion) {
    if c.persist_in_flight != Some(revision) {
        (
            ControllerModel {
                diagnostics: Diagnostics {
                    stale_persistence_completions: sat_inc(c.diagnostics.stale_persistence_completions),
                    ..c.diagnostics
                },
                ..c
            },
            PersistCompletion::IgnoredStale,
        )
    } else if outcome == CompletionOutcome::Failed {
        (
            spec_request_persist(
                ControllerModel {
                    persist_in_flight: None,
                    diagnostics: Diagnostics {
                        failed_persistence_operations: sat_inc(
                            c.diagnostics.failed_persistence_operations,
                        ),
                        ..c.diagnostics
                    },
                    ..c
                },
            ).0,
            PersistCompletion::RetryScheduled,
        )
    } else {
        let c1 = ControllerModel { persist_in_flight: None, durable_revision: revision, ..c };
        let c2 = match c.clearing_emergency_at {
            Some(clear) => if spec_revision_covers(revision, clear) {
                let c3 = ControllerModel {
                    clearing_emergency_at: None,
                    emergency_latched_runtime: false,
                    ..c1
                };
                if c.board.spec_has_power_gates() {
                    ControllerModel { pending_power_arm: true, pending_power_on: 0, ..c3 }
                } else {
                    c3
                }
            } else {
                c1
            },
            None => c1,
        };
        (c2, PersistCompletion::DurableThrough(revision))
    }
}

/// The gates restored at power-up: every gated port of the board below `n`
/// whose persisted policy is enabled.
pub open spec fn spec_restore_bits(board: BoardDefinition, settings: PersistentSettings, n: int) -> u8
    decreases n,
{
    if n <= 0 {
        0
    } else {
        let below = spec_restore_bits(board, settings, n - 1);
        if board.spec_gated(n - 1) && settings.port_policy@[n - 1].enabled {
            with_bit(below, n - 1)
        } else {
            below
        }
    }
}

pub open spec fn spec_new(board: BoardDefinition, settings: PersistentSettings) -> ControllerModel {
    let gates = board.spec_has_power_gates();
    ControllerModel {
        board,
        settings,
        slots: Seq::new(8, |i: int| initial_slot()),
        pending_emergency: 0,
        pending_policy: 0,
        pending_power_on: if gates && !settings.emergency_latched {
            spec_restore_bits(board, settings, 8)
        } else {
            0
        },
        pending_power_off: 0,
        pending_power_emergency: gates && settings.emergency_latched,
        pending_power_arm: gates && !settings.emergency_latched,
        outputs_enabled: !gates,
        active_power_outputs: None,
        pending_persist: None,
        persist_in_flight: None,
        durable_revision: ConfigRevision(0),
        clearing_emergency_at: None,
        emergency_latched_runtime: settings.emergency_latched,
        next_operation: 0,
        next_config_revision: 0,
        emergency_cursor: 0,
        policy_cursor: 0,
        power_on_cursor: 0,
        power_off_cursor: 0,
        diagnostics: Diagnostics {
            stale_operation_completions: 0,
            stale_power_completions: 0,
            stale_persistence_completions: 0,
            rejected_unsupported_targets: 0,
            failed_pd_operations: 0,
            failed_power_operations: 0,
            failed_persistence_operations: 0,
        },
    }
}

/// The board's ports below `n` that satisfy `pred`, as a mask.
pub open spec fn spec_port_bits(c: ControllerModel, n: int, pred: spec_fn(int) -> bool) -> u8
    decreases n,
{
    if n <= 0 {
        0
    } else {
        let below = spec_port_bits(c, n - 1, pred);
        if c.board.spec_supports(n - 1) && pred(n - 1) {
            with_bit(below, n - 1)
        } else {
            below
        }
    }
}

pub open spec fn spec_policy_pending(c: ControllerModel, p: int) -> bool {
    let s = c.slots[p];
    has_bit(c.pending_policy, p) || has_bit(c.pending_power_on, p) || has_bit(c.pending_power_off, p)
        || (s.active_kind matches Some(ActiveOperationKind::Pd(PdActionKind::ApplyPolicy(_))))
        || (s.active_kind matches Some(ActiveOperationKind::PowerGate(_))) || (gated(c, p)
        && c.settings.port_policy@[p].enabled && !s.online && s.power_gate == PowerGateState::On)
}

impl Controller {
    fn set_slot(&mut self, i: usize, s: SlotState)
        requires
            i < 8,
        ensures
            final(self)@ == with_slot(old(self)@, i as int, s),
    {
        self.slots[i] = s;
        assert(self.slots@ =~= old(self).slots@.update(i as int, s));
        assert(self@ =~= with_slot(old(self)@, i as int, s));
    }

    fn request_persist(&mut self) -> (r: ConfigRevision)
        ensures
            (final(self)@, r) == spec_request_persist(old(self)@),
    {
        self.next_config_revision = if self.next_config_revision == u32::MAX {
            0
        } else {
            self.next_config_revision + 1
        };
        let revision = ConfigRevision(self.next_config_revision);
        self.pending_persist = Some(revision);
        assert(self@ =~= spec_request_persist(old(self)@).0);
        revision
    }

    fn reject(&mut self)
        ensures
            final(self)@ == spec_reject(old(self)@),
    {
        let n = self.diagnostics.rejected_unsupported_targets;
        self.diagnostics.rejected_unsupported_targets = if n == u32::MAX { n } else { n + 1 };
        assert(self@ =~= spec_reject(old(self)@));
    }

    fn invalidate(s: SlotState) -> (r: SlotState)
        ensures
            r == invalidated(s),
    {
        SlotState {
            epoch: SlotEpoch(if s.epoch.0 == u32::MAX { 0 } else { s.epoch.0 + 1 }),
            active_operation: None,
            active_kind: None,
            ..s
        }
    }

    fn schedule_power_off(&mut self, port: PortId)
        ensures
            final(self)@ == spec_schedule_power_off(old(self)@, port.spec_get() as int),
    {
        let i = port.index();
        self.pending_power_on.remove(port);
        self.pending_policy.remove(port);
        self.pending_emergency.remove(port);
        let s = self.slots[i];
        if s.power_gate == PowerGateState::Off {
            self.set_slot(i, SlotState { online: false, ..s });
        } else {
            self.set_slot(i, SlotState { online: false, ..Self::invalidate(s) });
            self.pending_power_off.insert(port);
        }
        assert(self@ =~= spec_schedule_power_off(old(self)@, i as int));
    }

    fn fail_port(&mut self, raw: u8)
        requires
            raw < 8,
        ensures
            final(self)@ == spec_fail_port(old(self)@, raw as int),
    {
        let port = PortId::new(raw).unwrap();
        broadcast use group_port_lemmas;

        if self.board.power_gate_bit(port).is_none() {
            return;
        }
        let i = port.index();
        let s = self.slots[i];
        self.set_slot(
            i,
            SlotState { online: false, power_gate: PowerGateState::Faulted, ..Self::invalidate(s) },
        );
        self.pending_power_on.remove(port);
        self.pending_power_off.remove(port);
        self.pending_policy.remove(port);
        assert(self@ =~= spec_fail_port(old(self)@, raw as int));
    }

    fn fail_all_power_closed(&mut self)
        ensures
            final(self)@ == spec_fail_all_power_closed(old(self)@),
    {
        self.outputs_enabled = false;
        self.pending_power_emergency = true;
        self.pending_power_arm = false;
        let ghost start = self@;
        assert(start =~= ControllerModel {
            outputs_enabled: false,
            pending_power_emergency: true,
            pending_power_arm: false,
            ..old(self)@
        });
        let mut raw: u8 = 0;
        while raw < 8
            invariant
                raw <= 8,
                self@ == spec_fail_ports(start, raw as int),
            decreases 8 - raw,
        {
            self.fail_port(raw);
            raw = raw + 1;
        }
    }

    fn emergency_port(&mut self, raw: u8)
        requires
            raw < 8,
        ensures
            final(self)@ == spec_emergency_port(old(self)@, raw as int),
    {
        let port = PortId::new(raw).unwrap();
        broadcast use group_port_lemmas;

        if !self.board.supports(port) {
            return;
        }
        let i = port.index();
        if self.board.power_gate_bit(port).is_some() {
            let s0 = self.slots[i];
            let s1 = if s0.online || s0.active_operation.is_some() || s0.power_gate == PowerGateState::On
                || s0.power_gate == PowerGateState::SwitchingOn {
                Self::invalidate(s0)
            } else {
                s0
            };
            let gate = if s1.power_gate == PowerGateState::Off {
                PowerGateState::Off
            } else {
                PowerGateState::SwitchingOff
            };
            self.set_slot(i, SlotState { online: false, power_gate: gate, ..s1 });
            self.pending_power_on.remove(port);
            self.pending_power_off.remove(port);
            self.pending_policy.remove(port);
        } else if self.slots[i].online {
            self.pending_emergency.insert(port);
            self.pending_policy.remove(port);
        }
        assert(self@ =~= spec_emergency_port(old(self)@, raw as int));
    }

    fn outputs_port(&mut self, raw: u8, kind: PowerOutputsActionKind)
        requires
            raw < 8,
        ensures
            final(self)@ == spec_outputs_port(old(self)@, raw as int, kind),
    {
        let port = PortId::new(raw).unwrap();
        broadcast use group_port_lemmas;

        if self.board.power_gate_bit(port).is_none() {
            return;
        }
        let i = port.index();
        let s = self.slots[i];
        match kind {
            PowerOutputsActionKind::EmergencyDisableAll => {
                self.set_slot(i, SlotState { power_gate: PowerGateState::Off, online: false, ..s });
            },
            PowerOutputsActionKind::ArmAllOff => {
                self.set_slot(i, SlotState { power_gate: PowerGateState::Off, ..s });
            },
        }
    }

    fn start_pd_action(&mut self, port: PortId, kind: PdActionKind) -> (r: Action)
        ensures
            (final(self)@, r) == spec_start_pd(old(self)@, port.spec_get() as int, kind),
    {
        broadcast use group_port_lemmas;

        self.next_operation = if self.next_operation == u32::MAX { 0 } else { self.next_operation + 1 };
        let operation = OperationId(self.next_operation);
        let i = port.index();
        let s = self.slots[i];
        self.set_slot(
            i,
            SlotState {
                active_operation: Some(operation),
                active_kind: Some(ActiveOperationKind::Pd(kind)),
                ..s
            },
        );
        assert(self@ =~= spec_start_pd(old(self)@, i as int, kind).0);
        Action::Pd { operation, port, slot_epoch: s.epoch, kind }
    }

    fn start_power_gate_action(&mut self, port: PortId, enabled: bool) -> (r: Action)
        ensures
            (final(self)@, r) == spec_start_gate(old(self)@, port.spec_get() as int, enabled),
    {
        broadcast use group_port_lemmas;

        self.next_operation = if self.next_operation == u32::MAX { 0 } else { self.next_operation + 1 };
        let operation = OperationId(self.next_operation);
        let i = port.index();
        let s = self.slots[i];
        let gate = if enabled {
            PowerGateState::SwitchingOn
        } else {
            PowerGateState::SwitchingOff
        };
        self.set_slot(
            i,
            SlotState {
                active_operation: Some(operation),
                active_kind: Some(ActiveOperationKind::PowerGate(enabled)),
                power_gate: gate,
                ..s
            },
        );
        assert(self@ =~= spec_start_gate(old(self)@, i as int, enabled).0);
        let output_bit = match self.board.power_gate_bit(port) {
            Some(bit) => bit,
            None => 0,
        };
        Action::PowerGate { operation, port, slot_epoch: s.epoch, output_bit, enabled }
    }

    fn start_power_outputs_action(&mut self, kind: PowerOutputsActionKind) -> (r: Action)
        ensures
            (final(self)@, r) == spec_start_outputs(old(self)@, kind),
    {
        self.next_operation = if self.next_operation == u32::MAX { 0 } else { self.next_operation + 1 };
        let operation = OperationId(self.next_operation);
        self.active_power_outputs = Some((operation, kind));
        assert(self@ =~= spec_start_outputs(old(self)@, kind).0);
        Action::PowerOutputs { operation, kind }
    }
}

impl Controller {

    fn slot_ready(&self, i: usize) -> (r: bool)
        requires
            i < 8,
        ensures
            r == persistence_ready(self@, i as int),
    {
        match self.slots[i].policy_after_revision {
            None => true,
            Some(required) => revision_covers(self.durable_revision, required),
        }
    }

    fn scan_power_off(&self) -> (r: Option<u8>)
        ensures
            r matches Some(p) ==> p < 8,
            scan_from((self@.power_off_cursor % 8) as int, 8, pred_power_off(self@)) == (match r {
                Some(p) => Some(p as int),
                None => None::<int>,
            }),
    {
        broadcast use group_port_lemmas;

        let ghost pred = pred_power_off(self@);
        let mut raw: u8 = self.power_off_cursor % 8;
        let mut k: u8 = 0;
        while k < 8
            invariant
                k <= 8,
                raw < 8,
                pred == pred_power_off(self@),
                scan_from((self@.power_off_cursor % 8) as int, 8, pred) == scan_from(raw as int, (8 - k) as nat, pred),
            decreases 8 - k,
        {
            let port = PortId::new(raw).unwrap();
            proof {
                PortId::lemma_new_get(raw);
            }
            let i = port.index();
            assert(i == raw);
            assert(self@.pending_power_off == self.pending_power_off@);
            if self.pending_power_off.contains(port) && self.slots[i].active_operation.is_none() {
                assert(pred(raw as int));
                return Some(raw);
            }
            assert(!pred(raw as int));
            raw = if raw == 7 { 0 } else { raw + 1 };
            k = k + 1;
        }
        None
    }

    fn scan_emergency(&self) -> (r: Option<u8>)
        ensures
            r matches Some(p) ==> p < 8,
            scan_from((self@.emergency_cursor % 8) as int, 8, pred_emergency(self@)) == (match r {
                Some(p) => Some(p as int),
                None => None::<int>,
            }),
    {
        broadcast use group_port_lemmas;

        let ghost pred = pred_emergency(self@);
        let mut raw: u8 = self.emergency_cursor % 8;
        let mut k: u8 = 0;
        while k < 8
            invariant
                k <= 8,
                raw < 8,
                pred == pred_emergency(self@),
                scan_from((self@.emergency_cursor % 8) as int, 8, pred) == scan_from(raw as int, (8 - k) as nat, pred),
            decreases 8 - k,
        {
            let port = PortId::new(raw).unwrap();
            proof {
                PortId::lemma_new_get(raw);
            }
            let i = port.index();
            if self.pending_emergency.contains(port) && self.slots[i].online && self.slots[i].active_operation.is_none() {
                assert(pred(raw as int));
                return Some(raw);
            }
            assert(!pred(raw as int));
            raw = if raw == 7 { 0 } else { raw + 1 };
            k = k + 1;
        }
        None
    }

    fn scan_power_on(&self) -> (r: Option<u8>)
        ensures
            r matches Some(p) ==> p < 8,
            scan_from((self@.power_on_cursor % 8) as int, 8, pred_power_on(self@)) == (match r {
                Some(p) => Some(p as int),
                None => None::<int>,
            }),
    {
        broadcast use group_port_lemmas;

        let ghost pred = pred_power_on(self@);
        let mut raw: u8 = self.power_on_cursor % 8;
        let mut k: u8 = 0;
        while k < 8
            invariant
                k <= 8,
                raw < 8,
                pred == pred_power_on(self@),
                scan_from((self@.power_on_cursor % 8) as int, 8, pred) == scan_from(raw as int, (8 - k) as nat, pred),
            decreases 8 - k,
        {
            let port = PortId::new(raw).unwrap();
            proof {
                PortId::lemma_new_get(raw);
            }
            let i = port.index();
            if self.pending_power_on.contains(port) && self.slots[i].active_operation.is_none() && (self.slots[i].power_gate == PowerGateState::Off || self.slots[i].power_gate == PowerGateState::Faulted) && self.slot_ready(i) {
                assert(pred(raw as int));
                return Some(raw);
            }
            assert(!pred(raw as int));
            raw = if raw == 7 { 0 } else { raw + 1 };
            k = k + 1;
        }
        None
    }

    fn scan_policy(&self) -> (r: Option<u8>)
        ensures
            r matches Some(p) ==> p < 8,
            scan_from((self@.policy_cursor % 8) as int, 8, pred_policy(self@)) == (match r {
                Some(p) => Some(p as int),
                None => None::<int>,
            }),
    {
        broadcast use group_port_lemmas;

        let ghost pred = pred_policy(self@);
        let mut raw: u8 = self.policy_cursor % 8;
        let mut k: u8 = 0;
        while k < 8
            invariant
                k <= 8,
                raw < 8,
                pred == pred_policy(self@),
                scan_from((self@.policy_cursor % 8) as int, 8, pred) == scan_from(raw as int, (8 - k) as nat, pred),
            decreases 8 - k,
        {
            let port = PortId::new(raw).unwrap();
            proof {
                PortId::lemma_new_get(raw);
            }
            let i = port.index();
            if self.pending_policy.contains(port) && self.slots[i].online && self.slots[i].active_operation.is_none() && self.slot_ready(i) {
                assert(pred(raw as int));
                return Some(raw);
            }
            assert(!pred(raw as int));
            raw = if raw == 7 { 0 } else { raw + 1 };
            k = k + 1;
        }
        None
    }
}

impl Controller {
    /// A controller for `board` starting from persisted `settings`. A gated
    /// board first arms its outputs all off (or, if an emergency was
    /// persisted, disables them) and then restores each enabled port's gate.
    pub fn new(board: BoardDefinition, settings: PersistentSettings) -> (r: Controller)
        ensures
            r@ == spec_new(board, settings),
    {
        broadcast use group_port_lemmas;

        let gates = board.has_power_gates();
        let mut pending_power_on = PortBitmap::empty();
        if gates && !settings.emergency_latched {
            let mut raw: u8 = 0;
            while raw < 8
                invariant
                    raw <= 8,
                    pending_power_on@ == spec_restore_bits(board, settings, raw as int),
                decreases 8 - raw,
            {
                let port = PortId::new(raw).unwrap();
                proof {
                    PortId::lemma_new_get(raw);
                }
                if board.power_gate_bit(port).is_some() && settings.port_policy[port.index()].enabled {
                    pending_power_on.insert(port);
                }
                raw = raw + 1;
            }
        }
        let initial = SlotState {
            epoch: SlotEpoch(0),
            online: false,
            power_gate: PowerGateState::Off,
            active_operation: None,
            active_kind: None,
            policy_after_revision: None,
        };
        let r = Controller {
            board,
            settings,
            slots: [initial; 8usize],
            pending_emergency: PortBitmap::empty(),
            pending_policy: PortBitmap::empty(),
            pending_power_on,
            pending_power_off: PortBitmap::empty(),
            pending_power_emergency: gates && settings.emergency_latched,
            pending_power_arm: gates && !settings.emergency_latched,
            outputs_enabled: !gates,
            active_power_outputs: None,
            pending_persist: None,
            persist_in_flight: None,
            durable_revision: ConfigRevision(0),
            clearing_emergency_at: None,
            emergency_latched_runtime: settings.emergency_latched,
            next_operation: 0,
            next_config_revision: 0,
            emergency_cursor: 0,
            policy_cursor: 0,
            power_on_cursor: 0,
            power_off_cursor: 0,
            diagnostics: Diagnostics {
                stale_operation_completions: 0,
                stale_power_completions: 0,
                stale_persistence_completions: 0,
                rejected_unsupported_targets: 0,
                failed_pd_operations: 0,
                failed_power_operations: 0,
                failed_persistence_operations: 0,
            },
        };
        assert(r.slots@ =~= Seq::new(8, |i: int| initial_slot()));
        assert(r@ =~= spec_new(board, settings));
        r
    }

    pub fn board(&self) -> (r: BoardDefinition)
        ensures
            r == self@.board,
    {
        self.board
    }

    pub fn settings(&self) -> (r: PersistentSettings)
        ensures
            r == self@.settings,
    {
        self.settings
    }

    pub fn diagnostics(&self) -> (r: Diagnostics)
        ensures
            r == self@.diagnostics,
    {
        self.diagnostics
    }

    /// Whether an emergency holds the outputs off.
    pub fn emergency_latched(&self) -> (r: bool)
        ensures
            r == self@.emergency_latched_runtime,
    {
        self.emergency_latched_runtime
    }

    pub fn port_online(&self, port: PortId) -> (r: Option<bool>)
        ensures
            r == (if self@.board.spec_supports(port.spec_get() as int) {
                Some(self@.slots[port.spec_get() as int].online)
            } else {
                None
            }),
    {
        if self.board.supports(port) {
            Some(self.slots[port.index()].online)
        } else {
            None
        }
    }

    /// Whether the port's input power is on; always so on ungated ports.
    pub fn port_powered(&self, port: PortId) -> (r: Option<bool>)
        ensures
            r == (if !self@.board.spec_supports(port.spec_get() as int) {
                None
            } else if !self@.board.spec_gated(port.spec_get() as int) {
                Some(true)
            } else {
                Some(self@.slots[port.spec_get() as int].power_gate == PowerGateState::On)
            }),
    {
        if !self.board.supports(port) {
            return None;
        }
        if self.board.power_gate_bit(port).is_none() {
            return Some(true);
        }
        Some(self.slots[port.index()].power_gate == PowerGateState::On)
    }

    pub fn power_gate_state(&self, port: PortId) -> (r: Option<PowerGateState>)
        ensures
            r == (if self@.board.spec_gated(port.spec_get() as int) {
                Some(self@.slots[port.spec_get() as int].power_gate)
            } else {
                None
            }),
    {
        if self.board.power_gate_bit(port).is_some() {
            Some(self.slots[port.index()].power_gate)
        } else {
            None
        }
    }

    pub fn slot_epoch(&self, port: PortId) -> (r: Option<SlotEpoch>)
        ensures
            r == (if self@.board.spec_supports(port.spec_get() as int) {
                Some(self@.slots[port.spec_get() as int].epoch)
            } else {
                None
            }),
    {
        if self.board.supports(port) {
            Some(self.slots[port.index()].epoch)
        } else {
            None
        }
    }

    /// Whether the port's policy has not yet fully taken effect.
    pub fn port_policy_pending(&self, port: PortId) -> (r: Option<bool>)
        ensures
            r == (if self@.board.spec_supports(port.spec_get() as int) {
                Some(spec_policy_pending(self@, port.spec_get() as int))
            } else {
                None
            }),
    {
        if !self.board.supports(port) {
            return None;
        }
        let i = port.index();
        let slot = self.slots[i];
        let applying = match slot.active_kind {
            Some(ActiveOperationKind::Pd(PdActionKind::ApplyPolicy(_))) => true,
            Some(ActiveOperationKind::PowerGate(_)) => true,
            _ => false,
        };
        Some(
            self.pending_policy.contains(port) || self.pending_power_on.contains(port)
                || self.pending_power_off.contains(port) || applying || (
            self.board.power_gate_bit(port).is_some() && self.settings.port_policy[i].enabled
                && !slot.online && slot.power_gate == PowerGateState::On),
        )
    }

    pub fn online_ports(&self) -> (r: PortBitmap)
        ensures
            r@ == spec_port_bits(self@, 8, |p: int| self@.slots[p].online),
    {
        broadcast use group_port_lemmas;

        let ghost pred = |p: int| self@.slots[p].online;
        let mut ports = PortBitmap::empty();
        let mut raw: u8 = 0;
        while raw < 8
            invariant
                raw <= 8,
                pred == (|p: int| self@.slots[p].online),
                ports@ == spec_port_bits(self@, raw as int, pred),
            decreases 8 - raw,
        {
            let port = PortId::new(raw).unwrap();
            proof {
                PortId::lemma_new_get(raw);
            }
            if self.board.supports(port) && self.slots[port.index()].online {
                ports.insert(port);
            }
            raw = raw + 1;
        }
        ports
    }

    pub fn enabled_ports(&self) -> (r: PortBitmap)
        ensures
            r@ == spec_port_bits(self@, 8, |p: int| self@.settings.port_policy@[p].enabled),
    {
        broadcast use group_port_lemmas;

        let ghost pred = |p: int| self@.settings.port_policy@[p].enabled;
        let mut ports = PortBitmap::empty();
        let mut raw: u8 = 0;
        while raw < 8
            invariant
                raw <= 8,
                pred == (|p: int| self@.settings.port_policy@[p].enabled),
                ports@ == spec_port_bits(self@, raw as int, pred),
            decreases 8 - raw,
        {
            let port = PortId::new(raw).unwrap();
            proof {
                PortId::lemma_new_get(raw);
            }
            if self.board.supports(port) && self.settings.port_policy[port.index()].enabled {
                ports.insert(port);
            }
            raw = raw + 1;
        }
        ports
    }
}

impl Controller {
    fn require_supported(&mut self, port: PortId) -> (r: bool)
        ensures
            r == old(self)@.board.spec_supports(port.spec_get() as int),
            final(self)@ == (if r {
                old(self)@
            } else {
                spec_reject(old(self)@)
            }),
    {
        if self.board.supports(port) {
            true
        } else {
            self.reject();
            false
        }
    }

    /// A module answered in `port`'s slot. On a gated port whose gate is not
    /// on, a late answer from an earlier powered session changes nothing.
    pub fn module_detected(&mut self, port: PortId) -> (r: Result<SlotEpoch, ControllerError>)
        ensures
            (final(self)@, r) == spec_module_detected(old(self)@, port),
    {
        if !self.require_supported(port) {
            return Err(ControllerError::UnsupportedPort(port));
        }
        let i = port.index();
        let gated = self.board.power_gate_bit(port).is_some();
        if gated && self.slots[i].power_gate != PowerGateState::On {
            return Ok(self.slots[i].epoch);
        }
        let s = self.slots[i];
        self.set_slot(i, SlotState { online: true, ..s });
        if gated && (self.emergency_latched_runtime || !self.settings.port_policy[i].enabled) {
            self.schedule_power_off(port);
        } else if self.emergency_latched_runtime {
            self.pending_emergency.insert(port);
        } else {
            self.pending_policy.insert(port);
        }
        assert(self@ =~= spec_module_detected(old(self)@, port).0);
        Ok(self.slots[i].epoch)
    }

    /// The module in `port`'s slot went away.
    pub fn module_removed(&mut self, port: PortId) -> (r: Result<SlotEpoch, ControllerError>)
        ensures
            (final(self)@, r) == spec_module_removed(old(self)@, port),
    {
        if !self.require_supported(port) {
            return Err(ControllerError::UnsupportedPort(port));
        }
        let i = port.index();
        let s = self.slots[i];
        let s1 = if s.online || s.active_operation.is_some() || s.power_gate != PowerGateState::Off {
            Self::invalidate(s)
        } else {
            s
        };
        self.set_slot(i, SlotState { online: false, ..s1 });
        self.pending_emergency.remove(port);
        self.pending_policy.remove(port);
        self.pending_power_on.remove(port);
        if self.board.power_gate_bit(port).is_some() && s1.power_gate != PowerGateState::Off {
            self.pending_power_off.insert(port);
        }
        assert(self@ =~= spec_module_removed(old(self)@, port).0);
        Ok(s1.epoch)
    }

    /// Set `port`'s policy. An enabling policy is refused while an emergency
    /// is latched; an enabled gated port is energized, and an enabled policy
    /// applied, only once the change is durable.
    pub fn set_port_policy(&mut self, port: PortId, policy: PortPolicy) -> (r: Result<
        Mutation,
        ControllerError,
    >)
        ensures
            (final(self)@, r) == spec_set_port_policy(old(self)@, port, policy),
    {
        broadcast use vstd::array::group_array_axioms;

        if !self.require_supported(port) {
            return Err(ControllerError::UnsupportedPort(port));
        }
        match policy.validate() {
            Err(e) => {
                return Err(ControllerError::InvalidPolicy(e));
            },
            Ok(_) => {},
        }
        if self.emergency_latched_runtime && policy.enabled {
            return Err(ControllerError::EmergencyLatched);
        }
        let i = port.index();
        let changed = self.settings.port_policy[i] != policy;
        let mut policies = self.settings.port_policy;
        policies[i] = policy;
        self.settings.port_policy = policies;
        let ghost c1 = self@;
        assert(c1.settings.port_policy@ =~= vstd::array::spec_array_update(
            old(self)@.settings.port_policy,
            i as int,
            policy,
        )@);
        let persist_revision = if changed {
            Some(self.request_persist())
        } else {
            None
        };
        let s = self.slots[i];
        if self.board.power_gate_bit(port).is_some() {
            if policy.enabled {
                self.set_slot(i, SlotState { policy_after_revision: persist_revision, ..s });
                if s.power_gate == PowerGateState::On && s.online {
                    self.pending_policy.insert(port);
                } else if s.power_gate == PowerGateState::Off || s.power_gate
                    == PowerGateState::Faulted || s.power_gate == PowerGateState::SwitchingOff {
                    self.pending_power_on.insert(port);
                }
            } else {
                self.set_slot(i, SlotState { policy_after_revision: None, ..s });
                self.schedule_power_off(port);
            }
        } else if s.online {
            self.set_slot(i, SlotState { policy_after_revision: persist_revision, ..s });
            if self.emergency_latched_runtime {
                self.pending_emergency.insert(port);
            } else {
                self.pending_policy.insert(port);
            }
        }
        assert(self@ =~= spec_set_port_policy(old(self)@, port, policy).0);
        Ok(Mutation { persist_revision })
    }

    /// Latch an emergency: every gated output off at once and every other
    /// online port's USB-PD output disabled, persisted so that it survives a
    /// reset.
    pub fn emergency_disable(&mut self) -> (r: Mutation)
        ensures
            (final(self)@, r) == spec_emergency_disable(old(self)@),
    {
        self.emergency_latched_runtime = true;
        self.clearing_emergency_at = None;
        let persist_revision = if self.settings.emergency_latched {
            None
        } else {
            self.settings.emergency_latched = true;
            Some(self.request_persist())
        };
        if self.board.has_power_gates() {
            self.pending_power_emergency = true;
            self.pending_power_arm = false;
            self.outputs_enabled = false;
            self.active_power_outputs = None;
        }
        let ghost start = self@;
        let ghost c = old(self)@;
        let ghost c1 = ControllerModel { emergency_latched_runtime: true, clearing_emergency_at: None, ..c };
        assert(!c.settings.emergency_latched ==> spec_request_persist(
            ControllerModel { settings: PersistentSettings { emergency_latched: true, ..c1.settings }, ..c1 },
        ).0 =~= ControllerModel {
            next_config_revision: spec_request_persist(
                ControllerModel { settings: PersistentSettings { emergency_latched: true, ..c1.settings }, ..c1 },
            ).0.next_config_revision,
            pending_persist: spec_request_persist(
                ControllerModel { settings: PersistentSettings { emergency_latched: true, ..c1.settings }, ..c1 },
            ).0.pending_persist,
            settings: PersistentSettings { emergency_latched: true, ..c.settings },
            ..c1
        });
        let mut raw: u8 = 0;
        while raw < 8
            invariant
                raw <= 8,
                self@ == spec_emergency_ports(start, raw as int),
            decreases 8 - raw,
        {
            self.emergency_port(raw);
            raw = raw + 1;
        }
        proof {
            let expected = spec_emergency_disable(c);
            assert(start =~= {
                let persisted = if c.settings.emergency_latched {
                    (c1, None::<ConfigRevision>)
                } else {
                    let requested = spec_request_persist(
                        ControllerModel { settings: PersistentSettings { emergency_latched: true, ..c1.settings }, ..c1 },
                    );
                    (requested.0, Some(requested.1))
                };
                if c.board.spec_has_power_gates() {
                    ControllerModel {
                        pending_power_emergency: true,
                        pending_power_arm: false,
                        outputs_enabled: false,
                        active_power_outputs: None,
                        ..persisted.0
                    }
                } else {
                    persisted.0
                }
            });
        }
        Mutation { persist_revision }
    }

    pub fn set_node_id(&mut self, node_id: Option<NodeId>) -> (r: Mutation)
        ensures
            (final(self)@, r) == spec_set_node_id(old(self)@, node_id),
    {
        let same = match (self.settings.node_id, node_id) {
            (None, None) => true,
            (Some(a), Some(b)) => a == b,
            _ => false,
        };
        if same {
            return Mutation { persist_revision: None };
        }
        self.settings.node_id = node_id;
        let ghost c = self@;
        assert(c =~= ControllerModel { settings: PersistentSettings { node_id, ..old(self)@.settings }, ..old(self)@ });
        let revision = self.request_persist();
        Mutation { persist_revision: Some(revision) }
    }

    pub fn set_fan_config(&mut self, fan: FanConfig) -> (r: Result<Mutation, ControllerError>)
        ensures
            (final(self)@, r) == spec_set_fan_config(old(self)@, fan),
    {
        match fan.validate() {
            Err(error) => {
                return Err(ControllerError::InvalidFanDuty(error.0));
            },
            Ok(_) => {},
        }
        if self.settings.fan == fan {
            return Ok(Mutation { persist_revision: None });
        }
        self.settings.fan = fan;
        let ghost c = self@;
        assert(c =~= ControllerModel { settings: PersistentSettings { fan, ..old(self)@.settings }, ..old(self)@ });
        let revision = self.request_persist();
        Ok(Mutation { persist_revision: Some(revision) })
    }

    /// Ask to clear a latched emergency: the clear is written to flash and
    /// takes effect only when that write is durable.
    pub fn acknowledge_emergency_resolved(&mut self) -> (r: Result<ConfigRevision, ControllerError>)
        ensures
            (final(self)@, r) == spec_acknowledge(old(self)@),
    {
        if self.clearing_emergency_at.is_some() {
            return Err(ControllerError::EmergencyClearInProgress);
        }
        if !self.emergency_latched_runtime {
            return Err(ControllerError::EmergencyAlreadyClear);
        }
        self.settings.emergency_latched = false;
        let ghost c = self@;
        assert(c =~= ControllerModel {
            settings: PersistentSettings { emergency_latched: false, ..old(self)@.settings },
            ..old(self)@
        });
        let revision = self.request_persist();
        self.clearing_emergency_at = Some(revision);
        assert(self@ =~= spec_acknowledge(old(self)@).0);
        Ok(revision)
    }
}

impl Controller {
    /// The next action to perform, if any.
    pub fn next_action(&mut self) -> (r: Option<Action>)
        ensures
            (final(self)@, r) == spec_next_action(old(self)@),
    {
        broadcast use group_port_lemmas;

        if self.pending_power_emergency {
            self.pending_power_emergency = false;
            return Some(self.start_power_outputs_action(PowerOutputsActionKind::EmergencyDisableAll));
        }
        match self.scan_power_off() {
            Some(raw) => {
                let port = PortId::new(raw).unwrap();
                self.pending_power_off.remove(port);
                self.power_off_cursor = if raw == 7 { 0 } else { raw + 1 };
                return Some(self.start_power_gate_action(port, false));
            },
            None => {},
        }
        match self.scan_emergency() {
            Some(raw) => {
                let port = PortId::new(raw).unwrap();
                self.pending_emergency.remove(port);
                self.emergency_cursor = if raw == 7 { 0 } else { raw + 1 };
                return Some(self.start_pd_action(port, PdActionKind::EmergencyDisable));
            },
            None => {},
        }
        self.next_routine_action()
    }

    fn next_routine_action(&mut self) -> (r: Option<Action>)
        ensures
            (final(self)@, r) == spec_next_routine_action(old(self)@),
    {
        broadcast use group_port_lemmas;

        if self.persist_in_flight.is_none() {
            match self.pending_persist {
                Some(revision) => {
                    self.pending_persist = None;
                    self.persist_in_flight = Some(revision);
                    return Some(Action::PersistConfig { revision, settings: self.settings });
                },
                None => {},
            }
        }
        if !self.emergency_latched_runtime && self.pending_power_arm && self.active_power_outputs.is_none() {
            self.pending_power_arm = false;
            return Some(self.start_power_outputs_action(PowerOutputsActionKind::ArmAllOff));
        }
        if self.emergency_latched_runtime {
            return None;
        }
        let on = if self.outputs_enabled {
            self.scan_power_on()
        } else {
            None
        };
        match on {
            Some(raw) => {
                let port = PortId::new(raw).unwrap();
                self.pending_power_on.remove(port);
                self.power_on_cursor = if raw == 7 { 0 } else { raw + 1 };
                return Some(self.start_power_gate_action(port, true));
            },
            None => {},
        }
        match self.scan_policy() {
            Some(raw) => {
                let port = PortId::new(raw).unwrap();
                let i = port.index();
                self.pending_policy.remove(port);
                self.policy_cursor = if raw == 7 { 0 } else { raw + 1 };
                let s = self.slots[i];
                self.set_slot(i, SlotState { policy_after_revision: None, ..s });
                let policy = self.settings.port_policy[i];
                Some(self.start_pd_action(port, PdActionKind::ApplyPolicy(policy)))
            },
            None => None,
        }
    }

    /// The outcome of an all-outputs action. A completion that does not
    /// match the action in flight only counts as stale.
    pub fn complete_power_outputs_operation(
        &mut self,
        operation: OperationId,
        kind: PowerOutputsActionKind,
        outcome: CompletionOutcome,
    )
        ensures
            final(self)@ == spec_complete_outputs(old(self)@, operation, kind, outcome),
    {
        let current = match self.active_power_outputs {
            Some((op, k)) => op == operation && k == kind,
            None => false,
        };
        if !current {
            let n = self.diagnostics.stale_power_completions;
            self.diagnostics.stale_power_completions = if n == u32::MAX { n } else { n + 1 };
            assert(self@ =~= spec_complete_outputs(old(self)@, operation, kind, outcome));
            return;
        }
        self.active_power_outputs = None;
        if outcome == CompletionOutcome::Failed {
            let n = self.diagnostics.failed_power_operations;
            self.diagnostics.failed_power_operations = if n == u32::MAX { n } else { n + 1 };
            let ghost mid = self@;
            self.fail_all_power_closed();
            assert(mid =~= ControllerModel {
                active_power_outputs: None,
                diagnostics: Diagnostics {
                    failed_power_operations: sat_inc(old(self)@.diagnostics.failed_power_operations),
                    ..old(self)@.diagnostics
                },
                ..old(self)@
            });
            return;
        }
        self.outputs_enabled = match kind {
            PowerOutputsActionKind::EmergencyDisableAll => false,
            PowerOutputsActionKind::ArmAllOff => true,
        };
        let ghost start = self@;
        let mut raw: u8 = 0;
        while raw < 8
            invariant
                raw <= 8,
                self@ == spec_outputs_ports(start, raw as int, kind),
            decreases 8 - raw,
        {
            self.outputs_port(raw, kind);
            raw = raw + 1;
        }
        assert(start =~= ControllerModel {
            outputs_enabled: kind == PowerOutputsActionKind::ArmAllOff,
            active_power_outputs: None,
            ..old(self)@
        });
    }

    /// The outcome of a gate action. A completion for another operation,
    /// epoch or direction only counts as stale; a failure faults every gate.
    pub fn complete_power_gate_operation(
        &mut self,
        port: PortId,
        operation: OperationId,
        slot_epoch: SlotEpoch,
        enabled: bool,
        outcome: CompletionOutcome,
    )
        ensures
            final(self)@ == spec_complete_gate(old(self)@, port, operation, slot_epoch, enabled, outcome),
    {
        let i = port.index();
        let s = self.slots[i];
        let current = s.epoch == slot_epoch && match (s.active_operation, s.active_kind) {
            (Some(op), Some(ActiveOperationKind::PowerGate(e))) => op == operation && e == enabled,
            _ => false,
        };
        if !current {
            let n = self.diagnostics.stale_power_completions;
            self.diagnostics.stale_power_completions = if n == u32::MAX { n } else { n + 1 };
            assert(self@ =~= spec_complete_gate(old(self)@, port, operation, slot_epoch, enabled, outcome));
            return;
        }
        let s1 = SlotState { active_operation: None, active_kind: None, ..s };
        if outcome == CompletionOutcome::Failed {
            self.set_slot(i, s1);
            let n = self.diagnostics.failed_power_operations;
            self.diagnostics.failed_power_operations = if n == u32::MAX { n } else { n + 1 };
            let ghost mid = self@;
            self.fail_all_power_closed();
            assert(mid =~= ControllerModel {
                slots: old(self)@.slots.update(i as int, s1),
                diagnostics: Diagnostics {
                    failed_power_operations: sat_inc(old(self)@.diagnostics.failed_power_operations),
                    ..old(self)@.diagnostics
                },
                ..old(self)@
            });
            return;
        }
        let gate = if enabled {
            PowerGateState::On
        } else {
            PowerGateState::Off
        };
        self.set_slot(i, SlotState { power_gate: gate, online: enabled && s1.online, ..s1 });
    }

    /// The outcome of a USB-PD action. A completion for another operation or
    /// epoch only counts as stale. A failed policy on a gated port turns the
    /// gate off; any other failure on an online port is retried.
    pub fn complete_pd_operation(
        &mut self,
        port: PortId,
        operation: OperationId,
        slot_epoch: SlotEpoch,
        outcome: CompletionOutcome,
    )
        ensures
            final(self)@ == spec_complete_pd(old(self)@, port, operation, slot_epoch, outcome),
    {
        let i = port.index();
        let s = self.slots[i];
        let kind = match (s.active_operation, s.active_kind) {
            (Some(op), Some(ActiveOperationKind::Pd(k))) => if s.epoch == slot_epoch && op == operation {
                Some(k)
            } else {
                None
            },
            _ => None,
        };
        let kind = match kind {
            Some(k) => k,
            None => {
                let n = self.diagnostics.stale_operation_completions;
                self.diagnostics.stale_operation_completions = if n == u32::MAX { n } else { n + 1 };
                assert(self@ =~= spec_complete_pd(old(self)@, port, operation, slot_epoch, outcome));
                return;
            },
        };
        self.set_slot(i, SlotState { active_operation: None, active_kind: None, ..s });
        if outcome == CompletionOutcome::Failed {
            let n = self.diagnostics.failed_pd_operations;
            self.diagnostics.failed_pd_operations = if n == u32::MAX { n } else { n + 1 };
            let apply = match kind {
                PdActionKind::ApplyPolicy(_) => true,
                PdActionKind::EmergencyDisable => false,
            };
            if self.board.power_gate_bit(port).is_some() && apply {
                self.schedule_power_off(port);
            } else if s.online {
                if self.emergency_latched_runtime || !apply {
                    self.pending_emergency.insert(port);
                } else {
                    self.pending_policy.insert(port);
                }
            }
        }
        assert(self@ =~= spec_complete_pd(old(self)@, port, operation, slot_epoch, outcome));
    }

    /// The outcome of a settings write. A completion for a write not in
    /// flight only counts as stale; a failure schedules the write again; a
    /// success makes everything up to `revision` durable and, if it covers a
    /// requested clear, clears the emergency without restoring any port.
    pub fn complete_persist(&mut self, revision: ConfigRevision, outcome: CompletionOutcome) -> (r:
        PersistCompletion)
        ensures
            (final(self)@, r) == spec_complete_persist(old(self)@, revision, outcome),
    {
        let in_flight = match self.persist_in_flight {
            Some(r) => r == revision,
            None => false,
        };
        if !in_flight {
            let n = self.diagnostics.stale_persistence_completions;
            self.diagnostics.stale_persistence_completions = if n == u32::MAX { n } else { n + 1 };
            assert(self@ =~= spec_complete_persist(old(self)@, revision, outcome).0);
            return PersistCompletion::IgnoredStale;
        }
        self.persist_in_flight = None;
        if outcome == CompletionOutcome::Failed {
            let n = self.diagnostics.failed_persistence_operations;
            self.diagnostics.failed_persistence_operations = if n == u32::MAX { n } else { n + 1 };
            let ghost mid = self@;
            self.request_persist();
            assert(mid =~= ControllerModel {
                persist_in_flight: None,
                diagnostics: Diagnostics {
                    failed_persistence_operations: sat_inc(
                        old(self)@.diagnostics.failed_persistence_operations,
                    ),
                    ..old(self)@.diagnostics
                },
                ..old(self)@
            });
            return PersistCompletion::RetryScheduled;
        }
        self.durable_revision = revision;
        let clears = match self.clearing_emergency_at {
            Some(clear) => revision_covers(revision, clear),
            None => false,
        };
        if clears {
            self.clearing_emergency_at = None;
            self.emergency_latched_runtime = false;
            if self.board.has_power_gates() {
                self.pending_power_arm = true;
                self.pending_power_on = PortBitmap::empty();
            }
        }
        assert(self@ =~= spec_complete_persist(old(self)@, revision, outcome).0);
        PersistCompletion::DurableThrough(revision)
    }
}

/// A gate is switched on only for a port whose enabling revision is durable
/// (or that waits for none), and only once the outputs have been armed.
pub proof fn lemma_gate_on_waits_for_durable_enable(c: ControllerModel)
    ensures
        spec_next_action(c).1 matches Some(Action::PowerGate { port, enabled, .. }) ==> (enabled
            ==> persistence_ready(c, port.spec_get() as int) && c.outputs_enabled
            && !c.emergency_latched_runtime),
{
    broadcast use group_port_lemmas;

    lemma_scan_found((c.power_on_cursor % 8) as int, 8, pred_power_on(c));
    lemma_scan_found((c.power_off_cursor % 8) as int, 8, pred_power_off(c));
    lemma_scan_found((c.emergency_cursor % 8) as int, 8, pred_emergency(c));
    lemma_scan_found((c.policy_cursor % 8) as int, 8, pred_policy(c));
    match scan_from((c.power_on_cursor % 8) as int, 8, pred_power_on(c)) {
        Some(p) => {
            assert(PortId::spec_new(p as u8).spec_get() == p as u8);
        },
        None => {},
    }
}

/// Enabling a gated port whose policy changes ties the port to the revision
/// that records the enable: its policy is applied, and its gate switched on,
/// only once that revision is durable.
pub proof fn lemma_enable_records_its_revision(c: ControllerModel, port: PortId, policy: PortPolicy)
    requires
        c.slots.len() == 8,
        port.spec_get() < 8,
        gated(c, port.spec_get() as int),
        policy.enabled,
        spec_set_port_policy(c, port, policy).1 matches Ok(m) && m.persist_revision is Some,
    ensures
        spec_set_port_policy(c, port, policy).0.slots[port.spec_get() as int].policy_after_revision
            == spec_set_port_policy(c, port, policy).1->Ok_0.persist_revision,
{
}

/// A latched emergency is cleared only by the successful, in-flight write
/// that covers the requested clear; no other step clears it.
pub proof fn lemma_clear_only_after_durable_write(
    c: ControllerModel,
    port: PortId,
    policy: PortPolicy,
    operation: OperationId,
    epoch: SlotEpoch,
    enabled: bool,
    kind: PowerOutputsActionKind,
    revision: ConfigRevision,
    outcome: CompletionOutcome,
)
    requires
        c.emergency_latched_runtime,
    ensures
        spec_next_action(c).0.emergency_latched_runtime,
        spec_acknowledge(c).0.emergency_latched_runtime,
        spec_set_port_policy(c, port, policy).0.emergency_latched_runtime,
        spec_module_detected(c, port).0.emergency_latched_runtime,
        spec_module_removed(c, port).0.emergency_latched_runtime,
        spec_emergency_disable(c).0.emergency_latched_runtime,
        spec_complete_pd(c, port, operation, epoch, outcome).emergency_latched_runtime,
        spec_complete_gate(c, port, operation, epoch, enabled, outcome).emergency_latched_runtime,
        spec_complete_outputs(c, operation, kind, outcome).emergency_latched_runtime,
        !spec_complete_persist(c, revision, outcome).0.emergency_latched_runtime ==> (
        c.clearing_emergency_at matches Some(clear) && spec_revision_covers(revision, clear) && outcome
            == CompletionOutcome::Succeeded && c.persist_in_flight == Some(revision)),
{
    let f = ControllerModel {
        outputs_enabled: false,
        pending_power_emergency: true,
        pending_power_arm: false,
        ..c
    };
    lemma_fail_ports_keep_latch(f, 8);
    lemma_fail_ports_keep_latch(
        ControllerModel {
            outputs_enabled: false,
            pending_power_emergency: true,
            pending_power_arm: false,
            active_power_outputs: None,
            diagnostics: Diagnostics {
                failed_power_operations: sat_inc(c.diagnostics.failed_power_operations),
                ..c.diagnostics
            },
            ..c
        },
        8,
    );
    lemma_fail_ports_keep_latch(
        ControllerModel {
            outputs_enabled: false,
            pending_power_emergency: true,
            pending_power_arm: false,
            slots: c.slots.update(
                port.spec_get() as int,
                SlotState { active_operation: None, active_kind: None, ..c.slots[port.spec_get() as int] },
            ),
            diagnostics: Diagnostics {
                failed_power_operations: sat_inc(c.diagnostics.failed_power_operations),
                ..c.diagnostics
            },
            ..c
        },
        8,
    );
    lemma_outputs_ports_keep_latch(
        ControllerModel { outputs_enabled: false, active_power_outputs: None, ..c },
        8,
        kind,
    );
    lemma_outputs_ports_keep_latch(
        ControllerModel { outputs_enabled: true, active_power_outputs: None, ..c },
        8,
        kind,
    );
    let e = spec_emergency_disable(c);
    let c1 = ControllerModel { emergency_latched_runtime: true, clearing_emergency_at: None, ..c };
    let persisted = if c.settings.emergency_latched {
        c1
    } else {
        spec_request_persist(
            ControllerModel { settings: PersistentSettings { emergency_latched: true, ..c1.settings }, ..c1 },
        ).0
    };
    let c3 = if c.board.spec_has_power_gates() {
        ControllerModel {
            pending_power_emergency: true,
            pending_power_arm: false,
            outputs_enabled: false,
            active_power_outputs: None,
            ..persisted
        }
    } else {
        persisted
    };
    lemma_emergency_ports_keep_latch(c3, 8);
}

pub proof fn lemma_fail_ports_keep_latch(c: ControllerModel, n: int)
    ensures
        spec_fail_ports(c, n).emergency_latched_runtime == c.emergency_latched_runtime,
    decreases n,
{
    if n > 0 {
        lemma_fail_ports_keep_latch(c, n - 1);
    }
}

pub proof fn lemma_outputs_ports_keep_latch(c: ControllerModel, n: int, kind: PowerOutputsActionKind)
    ensures
        spec_outputs_ports(c, n, kind).emergency_latched_runtime == c.emergency_latched_runtime,
    decreases n,
{
    if n > 0 {
        lemma_outputs_ports_keep_latch(c, n - 1, kind);
    }
}

pub proof fn lemma_emergency_ports_keep_latch(c: ControllerModel, n: int)
    ensures
        spec_emergency_ports(c, n).emergency_latched_runtime == c.emergency_latched_runtime,
    decreases n,
{
    if n > 0 {
        lemma_emergency_ports_keep_latch(c, n - 1);
    }
}

/// Emergency work outranks everything else: a pending all-outputs
/// emergency is served first, and no settings write, arming, gate-on or
/// policy is dispatched while an emergency action is dispatchable.
pub proof fn lemma_emergency_actions_outrank_persistence_and_policy(c: ControllerModel)
    ensures
        c.pending_power_emergency ==> (spec_next_action(c).1 matches Some(Action::PowerOutputs { kind, .. })
            && kind == PowerOutputsActionKind::EmergencyDisableAll),
        ({
            let a = spec_next_action(c).1;
            (a matches Some(Action::PersistConfig { .. })) || (a matches Some(
                Action::Pd { kind: PdActionKind::ApplyPolicy(_), .. },
            )) || (a matches Some(Action::PowerGate { enabled: true, .. })) || (a matches Some(
                Action::PowerOutputs { kind: PowerOutputsActionKind::ArmAllOff, .. },
            ))
        }) ==> !c.pending_power_emergency && scan_from(
            (c.power_off_cursor % 8) as int,
            8,
            pred_power_off(c),
        ) is None && scan_from((c.emergency_cursor % 8) as int, 8, pred_emergency(c)) is None,
{
}

/// `after` differs from `before` in its diagnostics alone.
pub open spec fn only_diagnostics_changed(before: ControllerModel, after: ControllerModel) -> bool {
    after == ControllerModel { diagnostics: after.diagnostics, ..before }
}

/// A completion that does not match the work in flight changes nothing but
/// the diagnostics.
pub proof fn lemma_stale_completion_changes_only_diagnostics(
    c: ControllerModel,
    port: PortId,
    operation: OperationId,
    epoch: SlotEpoch,
    enabled: bool,
    kind: PowerOutputsActionKind,
    revision: ConfigRevision,
    outcome: CompletionOutcome,
)
    ensures
        (c.slots[port.spec_get() as int].epoch != epoch || c.slots[port.spec_get() as int].active_operation
            != Some(operation) || !(c.slots[port.spec_get() as int].active_kind matches Some(
            ActiveOperationKind::Pd(_),
        ))) ==> only_diagnostics_changed(c, spec_complete_pd(c, port, operation, epoch, outcome)),
        (c.slots[port.spec_get() as int].epoch != epoch || c.slots[port.spec_get() as int].active_operation
            != Some(operation) || c.slots[port.spec_get() as int].active_kind != Some(
            ActiveOperationKind::PowerGate(enabled),
        )) ==> only_diagnostics_changed(
            c,
            spec_complete_gate(c, port, operation, epoch, enabled, outcome),
        ),
        c.active_power_outputs != Some((operation, kind)) ==> only_diagnostics_changed(
            c,
            spec_complete_outputs(c, operation, kind, outcome),
        ),
        c.persist_in_flight != Some(revision) ==> only_diagnostics_changed(
            c,
            spec_complete_persist(c, revision, outcome).0,
        ),
{
}

/// A write at a revision up to half the revision space after another, with
/// wrap-around, durably covers it: a coalesced write covers every earlier
/// mutation it includes.
pub proof fn lemma_later_revision_covers(earlier: u32, distance: u32)
    requires
        distance < 0x8000_0000,
    ensures
        spec_revision_covers(
            ConfigRevision(((earlier as int + distance as int) % 0x1_0000_0000) as u32),
            ConfigRevision(earlier),
        ),
{
    let sum = earlier as int + distance as int;
    if sum < 0x1_0000_0000 {
        assert(sum % 0x1_0000_0000 == sum);
    } else {
        assert(sum % 0x1_0000_0000 == sum - 0x1_0000_0000);
    }
}

/// One call of a mutating controller operation, with its arguments.
pub enum ControllerStep {
    ModuleDetected(PortId),
    ModuleRemoved(PortId),
    SetPortPolicy(PortId, PortPolicy),
    EmergencyDisable,
    SetNodeId(Option<NodeId>),
    SetFanConfig(FanConfig),
    AcknowledgeEmergencyResolved,
    NextAction,
    CompletePd(PortId, OperationId, SlotEpoch, CompletionOutcome),
    CompleteGate(PortId, OperationId, SlotEpoch, bool, CompletionOutcome),
    CompleteOutputs(OperationId, PowerOutputsActionKind, CompletionOutcome),
    CompletePersist(ConfigRevision, CompletionOutcome),
}

/// The controller after one step, as that operation's contract states it.
pub open spec fn controller_step(c: ControllerModel, step: ControllerStep) -> ControllerModel {
    match step {
        ControllerStep::ModuleDetected(port) => spec_module_detected(c, port).0,
        ControllerStep::ModuleRemoved(port) => spec_module_removed(c, port).0,
        ControllerStep::SetPortPolicy(port, policy) => spec_set_port_policy(c, port, policy).0,
        ControllerStep::EmergencyDisable => spec_emergency_disable(c).0,
        ControllerStep::SetNodeId(node_id) => spec_set_node_id(c, node_id).0,
        ControllerStep::SetFanConfig(fan) => spec_set_fan_config(c, fan).0,
        ControllerStep::AcknowledgeEmergencyResolved => spec_acknowledge(c).0,
        ControllerStep::NextAction => spec_next_action(c).0,
        ControllerStep::CompletePd(port, operation, epoch, outcome) => spec_complete_pd(c, port, operation, epoch, outcome),
        ControllerStep::CompleteGate(port, operation, epoch, enabled, outcome) => spec_complete_gate(
            c,
            port,
            operation,
            epoch,
            enabled,
            outcome,
        ),
        ControllerStep::CompleteOutputs(operation, kind, outcome) => spec_complete_outputs(c, operation, kind, outcome),
        ControllerStep::CompletePersist(revision, outcome) => spec_complete_persist(c, revision, outcome).0,
    }
}

/// The controller after each step of `steps` in turn.
pub open spec fn run_controller(c: ControllerModel, steps: Seq<ControllerStep>) -> ControllerModel
    decreases steps.len(),
{
    if steps.len() == 0 {
        c
    } else {
        controller_step(run_controller(c, steps.drop_last()), steps.last())
    }
}

/// Whether `step`, taken in state `c`, is the successful completion of the
/// write in flight that covers the requested emergency clear.
pub open spec fn completes_covering_clear(c: ControllerModel, step: ControllerStep) -> bool {
    match step {
        ControllerStep::CompletePersist(revision, outcome) => match c.clearing_emergency_at {
            Some(clear) => spec_revision_covers(revision, clear) && outcome == CompletionOutcome::Succeeded
                && c.persist_in_flight == Some(revision),
            None => false,
        },
        _ => false,
    }
}

/// No step of `steps` completes a covering clear in the state it meets.
pub open spec fn no_covering_clear(c: ControllerModel, steps: Seq<ControllerStep>) -> bool
    decreases steps.len(),
{
    steps.len() == 0 || (no_covering_clear(c, steps.drop_last()) && !completes_covering_clear(
        run_controller(c, steps.drop_last()),
        steps.last(),
    ))
}

/// A latched emergency stays latched through any sequence of operations
/// until one of them is the successful completion of the in-flight
/// settings write that covers the requested clear.
pub proof fn lemma_latch_holds_until_covering_durable_clear(c: ControllerModel, steps: Seq<ControllerStep>)
    requires
        c.emergency_latched_runtime,
        no_covering_clear(c, steps),
    ensures
        run_controller(c, steps).emergency_latched_runtime,
    decreases steps.len(),
{
    if steps.len() > 0 {
        lemma_latch_holds_until_covering_durable_clear(c, steps.drop_last());
        let prev = run_controller(c, steps.drop_last());
        let p0 = PortPolicy { enabled: false, max_voltage_mv: 0, max_current_ma: 0, max_power_mw: 0 };
        let port0 = PortId::spec_new(0);
        let op0 = OperationId(0);
        let ep0 = SlotEpoch(0);
        let k0 = PowerOutputsActionKind::ArmAllOff;
        let r0 = ConfigRevision(0);
        let o0 = CompletionOutcome::Succeeded;
        match steps.last() {
            ControllerStep::ModuleDetected(port) => {
                lemma_clear_only_after_durable_write(prev, port, p0, op0, ep0, false, k0, r0, o0);
            },
            ControllerStep::ModuleRemoved(port) => {
                lemma_clear_only_after_durable_write(prev, port, p0, op0, ep0, false, k0, r0, o0);
            },
            ControllerStep::SetPortPolicy(port, policy) => {
                lemma_clear_only_after_durable_write(prev, port, policy, op0, ep0, false, k0, r0, o0);
            },
            ControllerStep::CompletePd(port, operation, epoch, outcome) => {
                lemma_clear_only_after_durable_write(prev, port, p0, operation, epoch, false, k0, r0, outcome);
            },
            ControllerStep::CompleteGate(port, operation, epoch, enabled, outcome) => {
                lemma_clear_only_after_durable_write(prev, port, p0, operation, epoch, enabled, k0, r0, outcome);
            },
            ControllerStep::CompleteOutputs(operation, kind, outcome) => {
                lemma_clear_only_after_durable_write(prev, port0, p0, operation, ep0, false, kind, r0, outcome);
            },
            ControllerStep::CompletePersist(revision, outcome) => {
                lemma_clear_only_after_durable_write(prev, port0, p0, op0, ep0, false, k0, revision, outcome);
            },
            _ => {
                lemma_clear_only_after_durable_write(prev, port0, p0, op0, ep0, false, k0, r0, o0);
            },
        }
    }
}

} // verus!