//! The status a commissioned backpack reports: its heartbeat and the state
//! of each port, read off the port controller.
use vstd::prelude::*;

use crate::port::commissioning::{PROTOCOL_MAJOR, PROTOCOL_MINOR};
use crate::port::controller::{spec_policy_pending, spec_port_bits, Controller, PowerGateState};
use crate::port::model::{has_bit, HardwareRevision, PortId};
use crate::port::status::{Heartbeat, PortState, PortStateFlags, ResetFlags};
use crate::types::{CommissioningState, FaultFlags, FirmwareVersion, NodeId};

verus! {

pub open spec fn revision_byte(r: HardwareRevision) -> u8 {
    match r {
        HardwareRevision::RevA => 1,
        HardwareRevision::RevB => 2,
    }
}

/// The heartbeat of a node whose address may be used: the board and
/// firmware it runs, the ports it has, has online and has enabled, whether
/// an emergency is latched, and its address state, reset cause and uptime.
pub open spec fn spec_heartbeat_report(
    c: crate::port::controller::ControllerModel,
    node: NodeId,
    state: CommissioningState,
    firmware: FirmwareVersion,
    reset_flags: ResetFlags,
    uptime_seconds: u32,
) -> Heartbeat {
    Heartbeat {
        node: node.spec_get(),
        protocol_major: 0,
        protocol_minor: 1,
        firmware,
        hardware_revision: revision_byte(c.board.hardware_revision),
        health_flags: 0,
        supported_ports: c.board.supported_ports@,
        online_ports: spec_port_bits(c, 8, |p: int| c.slots[p].online),
        enabled_ports: spec_port_bits(c, 8, |p: int| c.settings.port_policy@[p].enabled),
        faulted_ports: 0,
        emergency_latched: c.emergency_latched_runtime,
        commissioning_state: state,
        reset_flags,
        uptime_seconds,
    }
}

pub fn heartbeat_report(
    controller: &Controller,
    node: NodeId,
    state: CommissioningState,
    firmware: FirmwareVersion,
    reset_flags: ResetFlags,
    uptime_seconds: u32,
) -> (r: Heartbeat)
    ensures
        r == spec_heartbeat_report(controller@, node, state, firmware, reset_flags, uptime_seconds),
{
    let board = controller.board();
    Heartbeat {
        node: node.get(),
        protocol_major: PROTOCOL_MAJOR,
        protocol_minor: PROTOCOL_MINOR,
        firmware,
        hardware_revision: match board.hardware_revision {
            HardwareRevision::RevA => 1,
            HardwareRevision::RevB => 2,
        },
        health_flags: 0,
        supported_ports: board.supported_ports.bits(),
        online_ports: controller.online_ports().bits(),
        enabled_ports: controller.enabled_ports().bits(),
        faulted_ports: 0,
        emergency_latched: controller.emergency_latched(),
        commissioning_state: state,
        reset_flags,
        uptime_seconds,
    }
}

/// The state flags of a port of the board: enabled, module present, policy
/// pending, emergency latched and input powered.
pub open spec fn spec_port_flags(c: crate::port::controller::ControllerModel, p: int) -> u16 {
    (if c.settings.port_policy@[p].enabled { 1u16 } else { 0u16 }) | (if c.slots[p].online {
        2u16
    } else {
        0u16
    }) | (if spec_policy_pending(c, p) { 4u16 } else { 0u16 }) | (if c.emergency_latched_runtime {
        8u16
    } else {
        0u16
    }) | (if !c.board.spec_gated(p) || c.slots[p].power_gate == PowerGateState::On {
        64u16
    } else {
        0u16
    })
}

/// The state report of `port`, numbered `sequence`, or `None` for a port
/// the board does not have. The slot generation is the low byte of the
/// slot's epoch.
pub open spec fn spec_port_state_report(
    c: crate::port::controller::ControllerModel,
    node: NodeId,
    port: PortId,
    sequence: u16,
    uptime_seconds: u32,
) -> Option<PortState> {
    let p = port.spec_get() as int;
    if !c.board.spec_supports(p) {
        None
    } else {
        Some(
            PortState {
                node: node.spec_get(),
                port,
                sequence,
                flags: PortStateFlags(spec_port_flags(c, p)),
                faults: FaultFlags::spec_from_bits(0),
                uptime_seconds,
                active_profile: 0xFF,
                slot_generation: (c.slots[p].epoch.0 % 256) as u8,
            },
        )
    }
}

pub fn port_state_report(
    controller: &Controller,
    node: NodeId,
    port: PortId,
    sequence: u16,
    uptime_seconds: u32,
) -> (r: Option<PortState>)
    ensures
        r == spec_port_state_report(controller@, node, port, sequence, uptime_seconds),
{
    let online = match controller.port_online(port) {
        Some(online) => online,
        None => {
            return None;
        },
    };
    let policy = controller.settings().port_policy[port.index()];
    let pending = match controller.port_policy_pending(port) {
        Some(pending) => pending,
        None => {
            return None;
        },
    };
    let powered = match controller.port_powered(port) {
        Some(powered) => powered,
        None => {
            return None;
        },
    };
    let epoch = match controller.slot_epoch(port) {
        Some(epoch) => epoch,
        None => {
            return None;
        },
    };
    let flags: u16 = (if policy.enabled { 1u16 } else { 0u16 }) | (if online { 2u16 } else { 0u16 }) | (
    if pending { 4u16 } else { 0u16 }) | (if controller.emergency_latched() { 8u16 } else { 0u16 }) | (
    if powered { 64u16 } else { 0u16 });
    Some(
        PortState {
            node: node.get(),
            port,
            sequence,
            flags: PortStateFlags(flags),
            faults: FaultFlags::from_bits_retain(0),
            uptime_seconds,
            active_profile: 0xFF,
            slot_generation: (epoch.0 % 256) as u8,
        },
    )
}

} // verus!
