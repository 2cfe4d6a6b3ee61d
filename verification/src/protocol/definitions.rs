//! The registry of every message: name, class, opcode, priority, target,
//! payload length, scoping and direction.
use vstd::prelude::*;
use crate::protocol::{
    commissioning_opcode, control_opcode, firmware_opcode, management_opcode, response_opcode,
    spec_is_can_fd_length, state_opcode, telemetry_opcode, MessageClass, MessageDefinition,
    MessageSender, TargetKind,
};

verus! {

/// A registry entry.
pub open spec fn definition(
    name: &'static str,
    class: MessageClass,
    opcode: u8,
    priority: u8,
    target: TargetKind,
    payload_len: u8,
    requester_scoped: bool,
    has_request_id: bool,
    sender: MessageSender,
) -> MessageDefinition {
    MessageDefinition {
        name,
        class,
        opcode,
        priority,
        target,
        payload_len,
        requester_scoped,
        has_request_id,
        sender,
    }
}

fn message(
    name: &'static str,
    class: MessageClass,
    opcode: u8,
    priority: u8,
    target: TargetKind,
    payload_len: u8,
    requester_scoped: bool,
    has_request_id: bool,
    sender: MessageSender,
) -> (r: MessageDefinition)
    ensures
        r == definition(
            name,
            class,
            opcode,
            priority,
            target,
            payload_len,
            requester_scoped,
            has_request_id,
            sender,
        ),
{
    MessageDefinition {
        name,
        class,
        opcode,
        priority,
        target,
        payload_len,
        requester_scoped,
        has_request_id,
        sender,
    }
}

/// Every definition fits the header's opcode and priority fields and a legal
/// CAN-FD payload length, and no two share a class and an opcode.
pub open spec fn registry_consistent(s: Seq<MessageDefinition>) -> bool {
    &&& forall|i: int|
        0 <= i < s.len() ==> spec_is_can_fd_length(#[trigger] s[i].payload_len) && s[i].opcode <= 0x3F
            && s[i].priority <= 0x07
    &&& forall|i: int, j: int|
        0 <= i < j < s.len() ==> !(#[trigger] s[i].class == #[trigger] s[j].class && s[i].opcode
            == s[j].opcode)
}

/// The message registry, in its documented order.
pub open spec fn spec_message_definitions() -> Seq<MessageDefinition> {
    seq![
        definition("EMERGENCY_DISABLE", MessageClass::Control, control_opcode::EMERGENCY_DISABLE, 0, TargetKind::Node, 8, true, true, MessageSender::Host),
        definition("SET_CARRIER_POLICY", MessageClass::Control, control_opcode::SET_CARRIER_POLICY, 1, TargetKind::Node, 24, true, true, MessageSender::Host),
        definition("ACKNOWLEDGE_EMERGENCY", MessageClass::Control, control_opcode::ACKNOWLEDGE_EMERGENCY, 1, TargetKind::Node, 8, true, true, MessageSender::Host),
        definition("REQUEST_STATUS", MessageClass::Control, control_opcode::REQUEST_STATUS, 1, TargetKind::Node, 8, true, true, MessageSender::Host),
        definition("SET_FAN", MessageClass::Control, control_opcode::SET_FAN, 1, TargetKind::Fan, 12, true, true, MessageSender::Host),
        definition("SET_BINDING", MessageClass::Control, control_opcode::SET_BINDING, 1, TargetKind::Node, 24, true, true, MessageSender::Host),
        definition("COMMAND_RESPONSE", MessageClass::Response, response_opcode::COMMAND, 2, TargetKind::Node, 16, true, true, MessageSender::Node),
        definition("NODE_STATE", MessageClass::State, state_opcode::NODE, 3, TargetKind::Node, 16, false, false, MessageSender::Node),
        definition("FAN_STATE", MessageClass::State, state_opcode::FAN, 3, TargetKind::Fan, 12, false, false, MessageSender::Node),
        definition("POWER", MessageClass::Telemetry, telemetry_opcode::POWER, 4, TargetKind::Node, 16, false, false, MessageSender::Node),
        definition("TEMPERATURE", MessageClass::Telemetry, telemetry_opcode::TEMPERATURE, 4, TargetKind::Node, 16, false, false, MessageSender::Node),
        definition("HEARTBEAT", MessageClass::Management, management_opcode::HEARTBEAT, 5, TargetKind::Node, 16, false, false, MessageSender::Node),
        definition("NODE_INFO", MessageClass::Management, management_opcode::NODE_INFO, 5, TargetKind::Node, 32, false, false, MessageSender::Node),
        definition("BINDING", MessageClass::Management, management_opcode::BINDING, 5, TargetKind::Node, 16, false, false, MessageSender::Node),
        definition("FW_BEGIN", MessageClass::Firmware, firmware_opcode::BEGIN, 5, TargetKind::Node, 64, true, true, MessageSender::Host),
        definition("FW_DATA", MessageClass::Firmware, firmware_opcode::DATA, 5, TargetKind::Node, 64, true, false, MessageSender::Host),
        definition("FW_FINISH", MessageClass::Firmware, firmware_opcode::FINISH, 5, TargetKind::Node, 16, true, true, MessageSender::Host),
        definition("FW_ACTIVATE", MessageClass::Firmware, firmware_opcode::ACTIVATE, 5, TargetKind::Node, 16, true, true, MessageSender::Host),
        definition("FW_ABORT", MessageClass::Firmware, firmware_opcode::ABORT, 5, TargetKind::Node, 16, true, true, MessageSender::Host),
        definition("FW_STATUS", MessageClass::Firmware, firmware_opcode::STATUS, 5, TargetKind::Node, 8, true, true, MessageSender::Host),
        definition("FW_ACK", MessageClass::Firmware, firmware_opcode::ACK, 5, TargetKind::Node, 24, true, true, MessageSender::Node),
        definition("FW_STATUS_RESPONSE", MessageClass::Firmware, firmware_opcode::STATUS_RESPONSE, 5, TargetKind::Node, 64, true, true, MessageSender::Node),
        definition("NODE_CLAIM", MessageClass::Commissioning, commissioning_opcode::NODE_CLAIM, 6, TargetKind::Commissioning, 16, false, false, MessageSender::Node),
        definition("DISCOVER", MessageClass::Commissioning, commissioning_opcode::DISCOVER, 6, TargetKind::Commissioning, 8, true, false, MessageSender::Host),
        definition("DISCOVERY_RESPONSE", MessageClass::Commissioning, commissioning_opcode::DISCOVERY_RESPONSE, 6, TargetKind::Commissioning, 64, true, false, MessageSender::Node),
        definition("IDENTIFY", MessageClass::Commissioning, commissioning_opcode::IDENTIFY, 6, TargetKind::Commissioning, 24, true, true, MessageSender::Host),
        definition("ASSIGN_NODE", MessageClass::Commissioning, commissioning_opcode::ASSIGN_NODE, 6, TargetKind::Commissioning, 24, true, true, MessageSender::Host),
        definition("CLEAR_NODE", MessageClass::Commissioning, commissioning_opcode::CLEAR_NODE, 6, TargetKind::Commissioning, 20, true, true, MessageSender::Host),
        definition("COMMISSIONING_RESULT", MessageClass::Commissioning, commissioning_opcode::RESULT, 6, TargetKind::Commissioning, 24, true, true, MessageSender::Node)
    ]
}

/// The registry is consistent.
pub proof fn lemma_registry_consistent()
    ensures
        registry_consistent(spec_message_definitions()),
{
}

/// The message registry.
#[allow(non_snake_case)]
#[verifier::rlimit(60)]
pub fn MESSAGE_DEFINITIONS() -> (r: Vec<MessageDefinition>)
    ensures
        r@ == spec_message_definitions(),
        r@.len() == 29,
        registry_consistent(r@),
{
    let mut r: Vec<MessageDefinition> = Vec::new();
    r.push(message("EMERGENCY_DISABLE", MessageClass::Control, control_opcode::EMERGENCY_DISABLE, 0, TargetKind::Node, 8, true, true, MessageSender::Host));
    r.push(message("SET_CARRIER_POLICY", MessageClass::Control, control_opcode::SET_CARRIER_POLICY, 1, TargetKind::Node, 24, true, true, MessageSender::Host));
    r.push(message("ACKNOWLEDGE_EMERGENCY", MessageClass::Control, control_opcode::ACKNOWLEDGE_EMERGENCY, 1, TargetKind::Node, 8, true, true, MessageSender::Host));
    r.push(message("REQUEST_STATUS", MessageClass::Control, control_opcode::REQUEST_STATUS, 1, TargetKind::Node, 8, true, true, MessageSender::Host));
    r.push(message("SET_FAN", MessageClass::Control, control_opcode::SET_FAN, 1, TargetKind::Fan, 12, true, true, MessageSender::Host));
    r.push(message("SET_BINDING", MessageClass::Control, control_opcode::SET_BINDING, 1, TargetKind::Node, 24, true, true, MessageSender::Host));
    r.push(message("COMMAND_RESPONSE", MessageClass::Response, response_opcode::COMMAND, 2, TargetKind::Node, 16, true, true, MessageSender::Node));
    r.push(message("NODE_STATE", MessageClass::State, state_opcode::NODE, 3, TargetKind::Node, 16, false, false, MessageSender::Node));
    r.push(message("FAN_STATE", MessageClass::State, state_opcode::FAN, 3, TargetKind::Fan, 12, false, false, MessageSender::Node));
    r.push(message("POWER", MessageClass::Telemetry, telemetry_opcode::POWER, 4, TargetKind::Node, 16, false, false, MessageSender::Node));
    r.push(message("TEMPERATURE", MessageClass::Telemetry, telemetry_opcode::TEMPERATURE, 4, TargetKind::Node, 16, false, false, MessageSender::Node));
    r.push(message("HEARTBEAT", MessageClass::Management, management_opcode::HEARTBEAT, 5, TargetKind::Node, 16, false, false, MessageSender::Node));
    r.push(message("NODE_INFO", MessageClass::Management, management_opcode::NODE_INFO, 5, TargetKind::Node, 32, false, false, MessageSender::Node));
    r.push(message("BINDING", MessageClass::Management, management_opcode::BINDING, 5, TargetKind::Node, 16, false, false, MessageSender::Node));
    r.push(message("FW_BEGIN", MessageClass::Firmware, firmware_opcode::BEGIN, 5, TargetKind::Node, 64, true, true, MessageSender::Host));
    r.push(message("FW_DATA", MessageClass::Firmware, firmware_opcode::DATA, 5, TargetKind::Node, 64, true, false, MessageSender::Host));
    r.push(message("FW_FINISH", MessageClass::Firmware, firmware_opcode::FINISH, 5, TargetKind::Node, 16, true, true, MessageSender::Host));
    r.push(message("FW_ACTIVATE", MessageClass::Firmware, firmware_opcode::ACTIVATE, 5, TargetKind::Node, 16, true, true, MessageSender::Host));
    r.push(message("FW_ABORT", MessageClass::Firmware, firmware_opcode::ABORT, 5, TargetKind::Node, 16, true, true, MessageSender::Host));
    r.push(message("FW_STATUS", MessageClass::Firmware, firmware_opcode::STATUS, 5, TargetKind::Node, 8, true, true, MessageSender::Host));
    r.push(message("FW_ACK", MessageClass::Firmware, firmware_opcode::ACK, 5, TargetKind::Node, 24, true, true, MessageSender::Node));
    r.push(message("FW_STATUS_RESPONSE", MessageClass::Firmware, firmware_opcode::STATUS_RESPONSE, 5, TargetKind::Node, 64, true, true, MessageSender::Node));
    r.push(message("NODE_CLAIM", MessageClass::Commissioning, commissioning_opcode::NODE_CLAIM, 6, TargetKind::Commissioning, 16, false, false, MessageSender::Node));
    r.push(message("DISCOVER", MessageClass::Commissioning, commissioning_opcode::DISCOVER, 6, TargetKind::Commissioning, 8, true, false, MessageSender::Host));
    r.push(message("DISCOVERY_RESPONSE", MessageClass::Commissioning, commissioning_opcode::DISCOVERY_RESPONSE, 6, TargetKind::Commissioning, 64, true, false, MessageSender::Node));
    r.push(message("IDENTIFY", MessageClass::Commissioning, commissioning_opcode::IDENTIFY, 6, TargetKind::Commissioning, 24, true, true, MessageSender::Host));
    r.push(message("ASSIGN_NODE", MessageClass::Commissioning, commissioning_opcode::ASSIGN_NODE, 6, TargetKind::Commissioning, 24, true, true, MessageSender::Host));
    r.push(message("CLEAR_NODE", MessageClass::Commissioning, commissioning_opcode::CLEAR_NODE, 6, TargetKind::Commissioning, 20, true, true, MessageSender::Host));
    r.push(message("COMMISSIONING_RESULT", MessageClass::Commissioning, commissioning_opcode::RESULT, 6, TargetKind::Commissioning, 24, true, true, MessageSender::Node));
    proof {
        assert(r@ =~= spec_message_definitions());
        lemma_registry_consistent();
    }
    r
}

} // verus!
