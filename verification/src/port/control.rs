//! The first-generation control requests and command responses, addressed
//! to one port (`0..8`), to all ports (`0x0E`) or to the board (`0x0F`).
use vstd::prelude::*;
use crate::types::{group_type_lemmas, NodeId, RequestId, RequesterId};
use crate::wire::{
    lemma_rd_put16, lemma_rd_put32, lemma_rd_put64, put16, put32, put64, put_u16, put_u32, put_u64,
    rd16, rd32, rd64, rd_u16, rd_u32, rd_u64, zeros, lemma_first_nonzero_none,
};
use crate::protocol::{
    require_zero, spec_require_zero,
    group_id_lemmas, lemma_header_round_trip, require_host_requester, require_len,
    require_operational_node, require_priority, require_target, require_zero_range,
    spec_header_decode, spec_header_encode, spec_header_new, spec_require_host_requester,
    spec_require_len, spec_require_operational_node, spec_require_priority, spec_require_target,
    spec_require_zero_range, CodecError, ExtendedId, Header, InvalidHeader, MessageClass, PayloadError,
    WireFrame,
};
use crate::codec::{decode_id, finish_frame, frame_matches, lift_header, new_header, spec_frame};
use crate::port::commissioning::CommandResult;
use crate::port::model::{
    group_port_lemmas, spec_policy_check, FanConfig, FanMode, PolicyValidationError, PortId,
    PortPolicy,
};

verus! {

broadcast use {group_type_lemmas, group_id_lemmas, group_port_lemmas};

pub const ALL_PORTS_TARGET: u8 = 0x0E;
pub const BOARD_TARGET: u8 = 0x0F;

/// Why a first-generation request or response cannot be encoded or decoded.
#[derive(Clone, Copy, Debug, PartialEq, Eq, Structural)]
pub enum RequestError {
    Codec(CodecError),
    /// A payload shorter than its request identifier.
    TooShort,
    InvalidPortId(u8),
    InvalidPolicy(PolicyValidationError),
    InvalidBoolean { offset: u8, value: u8 },
}

pub open spec fn lift(r: Result<(), CodecError>) -> Result<(), RequestError> {
    match r {
        Ok(()) => Ok(()),
        Err(e) => Err(RequestError::Codec(e)),
    }
}

#[derive(Clone, Copy, Debug, PartialEq, Eq, Structural)]
pub enum ControlCommand {
    EmergencyDisable,
    SetPortPolicy { port: PortId, policy: PortPolicy },
    AcknowledgeEmergencyResolved,
    RequestStatus { port: PortId },
    SetFanConfig { config: FanConfig },
}

impl ControlCommand {
    pub open spec fn spec_opcode(self) -> u8 {
        match self {
            ControlCommand::EmergencyDisable => 0,
            ControlCommand::SetPortPolicy { .. } => 1,
            ControlCommand::AcknowledgeEmergencyResolved => 2,
            ControlCommand::RequestStatus { .. } => 3,
            ControlCommand::SetFanConfig { .. } => 4,
        }
    }

    pub open spec fn spec_target(self) -> u8 {
        match self {
            ControlCommand::EmergencyDisable => 0x0E,
            ControlCommand::SetPortPolicy { port, .. } => port.spec_get(),
            ControlCommand::RequestStatus { port } => port.spec_get(),
            _ => 0x0F,
        }
    }

    pub open spec fn spec_priority(self) -> u8 {
        if self is EmergencyDisable {
            0
        } else {
            1
        }
    }

    pub fn opcode(self) -> (r: u8)
        ensures
            r == self.spec_opcode(),
    {
        match self {
            ControlCommand::EmergencyDisable => 0,
            ControlCommand::SetPortPolicy { .. } => 1,
            ControlCommand::AcknowledgeEmergencyResolved => 2,
            ControlCommand::RequestStatus { .. } => 3,
            ControlCommand::SetFanConfig { .. } => 4,
        }
    }

    pub fn target(self) -> (r: u8)
        ensures
            r == self.spec_target(),
    {
        match self {
            ControlCommand::EmergencyDisable => ALL_PORTS_TARGET,
            ControlCommand::SetPortPolicy { port, .. } => port.get(),
            ControlCommand::RequestStatus { port } => port.get(),
            _ => BOARD_TARGET,
        }
    }

    pub fn priority(self) -> (r: u8)
        ensures
            r == self.spec_priority(),
    {
        match self {
            ControlCommand::EmergencyDisable => 0,
            _ => 1,
        }
    }
}

#[derive(Clone, Copy, Debug, PartialEq, Eq, Structural)]
pub struct ControlRequest {
    pub node: u8,
    pub requester: RequesterId,
    pub request_id: RequestId,
    pub command: ControlCommand,
}

pub open spec fn fan_mode_byte(mode: FanMode) -> u8 {
    match mode {
        FanMode::ThreeWire => 0,
        FanMode::FourWire => 1,
    }
}

/// The 20-byte control payload before it is cut to the command's length.
pub open spec fn spec_control_body(request_id: RequestId, command: ControlCommand) -> Seq<u8> {
    let p = put64(zeros(20), 0, request_id.0);
    match command {
        ControlCommand::SetPortPolicy { policy, .. } => put32(
            put16(
                put16(p.update(8, if policy.enabled { 1u8 } else { 0u8 }), 10, policy.max_voltage_mv),
                12,
                policy.max_current_ma,
            ),
            16,
            policy.max_power_mw,
        ),
        ControlCommand::SetFanConfig { config } => p.update(8, fan_mode_byte(config.mode)).update(
            9,
            config.duty_percent,
        ),
        _ => p,
    }
}

pub open spec fn control_len(command: ControlCommand) -> int {
    match command {
        ControlCommand::SetPortPolicy { .. } => 20,
        ControlCommand::SetFanConfig { .. } => 12,
        _ => 8,
    }
}

pub open spec fn lift_frame(r: Result<(u32, Seq<u8>), CodecError>) -> Result<(u32, Seq<u8>), RequestError> {
    match r {
        Ok(f) => Ok(f),
        Err(e) => Err(RequestError::Codec(e)),
    }
}

pub open spec fn request_frame_matches(
    r: Result<WireFrame, RequestError>,
    s: Result<(u32, Seq<u8>), RequestError>,
) -> bool {
    match s {
        Ok((id, p)) => r matches Ok(f) && f.spec_id().spec_get() == id && f.spec_payload() == p,
        Err(e) => r == Err::<WireFrame, RequestError>(e),
    }
}

/// The frame of a control request: a host requester, an operational node
/// unless it is an emergency disable (which may be broadcast).
pub open spec fn spec_encode_control_request(request: ControlRequest) -> Result<
    (u32, Seq<u8>),
    RequestError,
> {
    let c = request.command;
    if let Err(e) = spec_require_host_requester(request.requester) {
        Err(RequestError::Codec(e))
    } else if !(c is EmergencyDisable) && spec_require_operational_node(request.node) is Err {
        Err(RequestError::Codec(spec_require_operational_node(request.node)->Err_0))
    } else {
        match lift_header(
            spec_header_new(
                c.spec_priority(),
                MessageClass::Control,
                request.node,
                c.spec_target(),
                request.requester,
                c.spec_opcode(),
            ),
        ) {
            Err(e) => Err(RequestError::Codec(e)),
            Ok(header) => lift_frame(
                spec_frame(header, spec_control_body(request.request_id, c).take(control_len(c))),
            ),
        }
    }
}

pub fn encode_control_request(request: ControlRequest) -> (r: Result<WireFrame, RequestError>)
    ensures
        request_frame_matches(r, spec_encode_control_request(request)),
{
    let command = request.command;
    if let Err(e) = require_host_requester(request.requester) {
        return Err(RequestError::Codec(e));
    }
    match command {
        ControlCommand::EmergencyDisable => {},
        _ => {
            if let Err(e) = require_operational_node(request.node) {
                return Err(RequestError::Codec(e));
            }
        },
    }
    let header = match new_header(
        command.priority(),
        MessageClass::Control,
        request.node,
        command.target(),
        request.requester,
        command.opcode(),
    ) {
        Ok(h) => h,
        Err(e) => {
            return Err(RequestError::Codec(e));
        },
    };
    let mut payload = vec![0u8; 20];
    put_u64(&mut payload, 0, request.request_id.0);
    let len: usize = match command {
        ControlCommand::SetPortPolicy { policy, .. } => {
            payload.set(8, if policy.enabled { 1 } else { 0 });
            put_u16(&mut payload, 10, policy.max_voltage_mv);
            put_u16(&mut payload, 12, policy.max_current_ma);
            put_u32(&mut payload, 16, policy.max_power_mw);
            20
        },
        ControlCommand::SetFanConfig { config } => {
            payload.set(
                8,
                match config.mode {
                    FanMode::ThreeWire => 0,
                    FanMode::FourWire => 1,
                },
            );
            payload.set(9, config.duty_percent);
            12
        },
        _ => 8,
    };
    assert(payload@ == spec_control_body(request.request_id, command));
    match finish_frame(header, vstd::slice::slice_subrange(payload.as_slice(), 0, len)) {
        Ok(f) => Ok(f),
        Err(e) => Err(RequestError::Codec(e)),
    }
}

/// The command a control payload carries, before its priority and node are
/// checked.
pub open spec fn spec_decode_control_command(header: Header, p: Seq<u8>) -> Result<
    ControlCommand,
    RequestError,
> {
    if header.opcode == 0 {
        if let Err(e) = lift(spec_require_target(header.target, 0x0E)) {
            Err(e)
        } else if let Err(e) = lift(spec_require_len(p, 8)) {
            Err(e)
        } else {
            Ok(ControlCommand::EmergencyDisable)
        }
    } else if header.opcode == 1 {
        if let Err(e) = lift(spec_require_len(p, 20)) {
            Err(e)
        } else if header.target >= 8 {
            Err(RequestError::InvalidPortId(header.target))
        } else if let Err(e) = lift(spec_require_zero_range(p, 9, 10)) {
            Err(e)
        } else if let Err(e) = lift(spec_require_zero_range(p, 14, 16)) {
            Err(e)
        } else if p[8] > 1 {
            Err(RequestError::Codec(CodecError::Payload(PayloadError::InvalidValue { offset: 8, value: p[8] })))
        } else {
            let policy = PortPolicy {
                enabled: p[8] != 0,
                max_voltage_mv: rd16(p, 10),
                max_current_ma: rd16(p, 12),
                max_power_mw: rd32(p, 16),
            };
            match spec_policy_check(policy) {
                Err(e) => Err(RequestError::InvalidPolicy(e)),
                Ok(_) => Ok(ControlCommand::SetPortPolicy { port: PortId::spec_new(header.target), policy }),
            }
        }
    } else if header.opcode == 2 {
        if let Err(e) = lift(spec_require_target(header.target, 0x0F)) {
            Err(e)
        } else if let Err(e) = lift(spec_require_len(p, 8)) {
            Err(e)
        } else {
            Ok(ControlCommand::AcknowledgeEmergencyResolved)
        }
    } else if header.opcode == 3 {
        if let Err(e) = lift(spec_require_len(p, 8)) {
            Err(e)
        } else if header.target >= 8 {
            Err(RequestError::InvalidPortId(header.target))
        } else {
            Ok(ControlCommand::RequestStatus { port: PortId::spec_new(header.target) })
        }
    } else if header.opcode == 4 {
        if let Err(e) = lift(spec_require_target(header.target, 0x0F)) {
            Err(e)
        } else if let Err(e) = lift(spec_require_len(p, 12)) {
            Err(e)
        } else if let Err(e) = lift(spec_require_zero_range(p, 10, 12)) {
            Err(e)
        } else if p[8] > 1 {
            Err(RequestError::Codec(CodecError::Payload(PayloadError::InvalidValue { offset: 8, value: p[8] })))
        } else if p[9] > 100 {
            Err(RequestError::Codec(CodecError::Payload(PayloadError::InvalidValue { offset: 9, value: p[9] })))
        } else {
            Ok(
                ControlCommand::SetFanConfig {
                    config: FanConfig {
                        mode: if p[8] == 0 {
                            FanMode::ThreeWire
                        } else {
                            FanMode::FourWire
                        },
                        duty_percent: p[9],
                    },
                },
            )
        }
    } else {
        Err(RequestError::Codec(CodecError::UnknownOpcode(header.opcode)))
    }
}

/// The control request a frame carries, or why it carries none.
pub open spec fn spec_decode_control_request(id: u32, p: Seq<u8>) -> Result<ControlRequest, RequestError> {
    match lift_header(spec_header_decode(id)) {
        Err(e) => Err(RequestError::Codec(e)),
        Ok(header) => if header.class != MessageClass::Control {
            Err(RequestError::Codec(CodecError::UnexpectedClass(header.class.spec_code())))
        } else if let Err(e) = lift(spec_require_host_requester(header.requester)) {
            Err(e)
        } else if p.len() < 8 {
            Err(RequestError::TooShort)
        } else {
            match spec_decode_control_command(header, p) {
                Err(e) => Err(e),
                Ok(command) => if let Err(e) = lift(spec_require_priority(header.priority, command.spec_priority())) {
                    Err(e)
                } else if !(command is EmergencyDisable) && spec_require_operational_node(header.node) is Err {
                    Err(RequestError::Codec(spec_require_operational_node(header.node)->Err_0))
                } else {
                    Ok(
                        ControlRequest {
                            node: header.node,
                            requester: header.requester,
                            request_id: RequestId(rd64(p, 0)),
                            command,
                        },
                    )
                },
            }
        },
    }
}

fn decode_control_command(header: Header, payload: &[u8]) -> (r: Result<ControlCommand, RequestError>)
    requires
        payload@.len() >= 8,
    ensures
        r == spec_decode_control_command(header, payload@),
{
    match header.opcode {
        0 => {
            if let Err(e) = require_target(header.target, ALL_PORTS_TARGET) {
                return Err(RequestError::Codec(e));
            }
            if let Err(e) = require_len(payload, 8) {
                return Err(RequestError::Codec(e));
            }
            Ok(ControlCommand::EmergencyDisable)
        },
        1 => {
            if let Err(e) = require_len(payload, 20) {
                return Err(RequestError::Codec(e));
            }
            let port = match PortId::new(header.target) {
                Ok(port) => port,
                Err(error) => {
                    return Err(RequestError::InvalidPortId(error.0));
                },
            };
            if let Err(e) = require_zero_range(payload, 9, 10) {
                return Err(RequestError::Codec(e));
            }
            if let Err(e) = require_zero_range(payload, 14, 16) {
                return Err(RequestError::Codec(e));
            }
            if payload[8] > 1 {
                return Err(
                    RequestError::Codec(CodecError::Payload(PayloadError::InvalidValue { offset: 8, value: payload[8] })),
                );
            }
            let policy = PortPolicy {
                enabled: payload[8] != 0,
                max_voltage_mv: rd_u16(payload, 10),
                max_current_ma: rd_u16(payload, 12),
                max_power_mw: rd_u32(payload, 16),
            };
            match policy.validate() {
                Err(e) => Err(RequestError::InvalidPolicy(e)),
                Ok(_) => Ok(ControlCommand::SetPortPolicy { port, policy }),
            }
        },
        2 => {
            if let Err(e) = require_target(header.target, BOARD_TARGET) {
                return Err(RequestError::Codec(e));
            }
            if let Err(e) = require_len(payload, 8) {
                return Err(RequestError::Codec(e));
            }
            Ok(ControlCommand::AcknowledgeEmergencyResolved)
        },
        3 => {
            if let Err(e) = require_len(payload, 8) {
                return Err(RequestError::Codec(e));
            }
            match PortId::new(header.target) {
                Ok(port) => Ok(ControlCommand::RequestStatus { port }),
                Err(error) => Err(RequestError::InvalidPortId(error.0)),
            }
        },
        4 => {
            if let Err(e) = require_target(header.target, BOARD_TARGET) {
                return Err(RequestError::Codec(e));
            }
            if let Err(e) = require_len(payload, 12) {
                return Err(RequestError::Codec(e));
            }
            if let Err(e) = require_zero_range(payload, 10, 12) {
                return Err(RequestError::Codec(e));
            }
            let mode = match payload[8] {
                0 => FanMode::ThreeWire,
                1 => FanMode::FourWire,
                value => {
                    return Err(RequestError::Codec(CodecError::Payload(PayloadError::InvalidValue { offset: 8, value })));
                },
            };
            let config = FanConfig { mode, duty_percent: payload[9] };
            match config.validate() {
                Ok(config) => Ok(ControlCommand::SetFanConfig { config }),
                Err(error) => Err(
                    RequestError::Codec(CodecError::Payload(PayloadError::InvalidValue { offset: 9, value: error.0 })),
                ),
            }
        },
        opcode => Err(RequestError::Codec(CodecError::UnknownOpcode(opcode))),
    }
}

pub fn decode_control_request(id: ExtendedId, payload: &[u8]) -> (r: Result<ControlRequest, RequestError>)
    ensures
        r == spec_decode_control_request(id.spec_get(), payload@),
{
    let header = match decode_id(id) {
        Ok(h) => h,
        Err(e) => {
            return Err(RequestError::Codec(e));
        },
    };
    if header.class != MessageClass::Control {
        return Err(RequestError::Codec(CodecError::UnexpectedClass(header.class.code())));
    }
    if let Err(e) = require_host_requester(header.requester) {
        return Err(RequestError::Codec(e));
    }
    if payload.len() < 8 {
        return Err(RequestError::TooShort);
    }
    let request_id = RequestId(rd_u64(payload, 0));
    let command = decode_control_command(header, payload)?;
    if let Err(e) = require_priority(header.priority, command.priority()) {
        return Err(RequestError::Codec(e));
    }
    match command {
        ControlCommand::EmergencyDisable => {},
        _ => {
            if let Err(e) = require_operational_node(header.node) {
                return Err(RequestError::Codec(e));
            }
        },
    }
    Ok(ControlRequest { node: header.node, requester: header.requester, request_id, command })
}

/// The validity that the identifier types promise, and a policy and fan
/// duty that a backpack would accept.
pub open spec fn spec_control_request_valid(request: ControlRequest) -> bool {
    &&& request.requester.spec_get() <= 15
    &&& match request.command {
        ControlCommand::SetPortPolicy { port, policy } => port.spec_get() < 8 && spec_policy_check(
            policy,
        ) is Ok,
        ControlCommand::RequestStatus { port } => port.spec_get() < 8,
        ControlCommand::SetFanConfig { config } => config.duty_percent <= 100,
        _ => true,
    }
}

/// Every valid control request that can be encoded decodes back to itself.
pub proof fn lemma_control_request_round_trip(request: ControlRequest)
    requires
        spec_control_request_valid(request),
        spec_encode_control_request(request) is Ok,
    ensures
        spec_decode_control_request(
            spec_encode_control_request(request)->Ok_0.0,
            spec_encode_control_request(request)->Ok_0.1,
        ) == Ok::<ControlRequest, RequestError>(request),
{
    let c = request.command;
    let h = Header {
        priority: c.spec_priority(),
        class: MessageClass::Control,
        node: request.node,
        target: c.spec_target(),
        requester: request.requester,
        opcode: c.spec_opcode(),
    };
    lemma_header_round_trip(h);
    let body = spec_control_body(request.request_id, c);
    let p = body.take(control_len(c));
    let base = put64(zeros(20), 0, request.request_id.0);
    lemma_rd_put64(zeros(20), 0, request.request_id.0);
    assert(rd64(p, 0) == rd64(base, 0));
    match c {
        ControlCommand::SetPortPolicy { port, policy } => {
            let q0 = base.update(8, if policy.enabled { 1u8 } else { 0u8 });
            let q1 = put16(q0, 10, policy.max_voltage_mv);
            let q2 = put16(q1, 12, policy.max_current_ma);
            lemma_rd_put16(q0, 10, policy.max_voltage_mv);
            lemma_rd_put16(q1, 12, policy.max_current_ma);
            lemma_rd_put32(q2, 16, policy.max_power_mw);
            assert(rd16(p, 10) == rd16(q1, 10));
            assert(rd16(p, 12) == rd16(q2, 12));
            lemma_first_nonzero_none(p, 9, 10);
            lemma_first_nonzero_none(p, 14, 16);
            assert(PortId::spec_new(port.spec_get()) == port);
        },
        ControlCommand::RequestStatus { port } => {
            assert(PortId::spec_new(port.spec_get()) == port);
        },
        ControlCommand::SetFanConfig { config } => {
            lemma_first_nonzero_none(p, 10, 12);
        },
        _ => {},
    }
}

#[derive(Clone, Copy, Debug, PartialEq, Eq, Structural)]
pub struct CommandResponse {
    pub node: u8,
    pub requester: RequesterId,
    pub request_id: RequestId,
    pub request_opcode: u8,
    pub request_target: u8,
    pub result: CommandResult,
    pub detail: u32,
}

pub open spec fn spec_command_response_payload(r: CommandResponse) -> Seq<u8> {
    put32(
        put64(zeros(16), 0, r.request_id.0).update(8, r.request_opcode).update(9, r.request_target).update(
            10,
            r.result.spec_code(),
        ),
        12,
        r.detail,
    )
}

pub open spec fn spec_encode_command_response(r: CommandResponse) -> Result<(u32, Seq<u8>), RequestError> {
    if let Err(e) = lift(spec_require_operational_node(r.node)) {
        Err(e)
    } else if let Err(e) = lift(spec_require_host_requester(r.requester)) {
        Err(e)
    } else {
        match lift_header(spec_header_new(2, MessageClass::Response, r.node, 0x0F, r.requester, 0)) {
            Err(e) => Err(RequestError::Codec(e)),
            Ok(h) => lift_frame(spec_frame(h, spec_command_response_payload(r))),
        }
    }
}

pub fn encode_command_response(response: CommandResponse) -> (r: Result<WireFrame, RequestError>)
    ensures
        request_frame_matches(r, spec_encode_command_response(response)),
{
    if let Err(e) = require_operational_node(response.node) {
        return Err(RequestError::Codec(e));
    }
    if let Err(e) = require_host_requester(response.requester) {
        return Err(RequestError::Codec(e));
    }
    let header = match new_header(2, MessageClass::Response, response.node, BOARD_TARGET, response.requester, 0) {
        Ok(h) => h,
        Err(e) => {
            return Err(RequestError::Codec(e));
        },
    };
    let mut payload = vec![0u8; 16];
    put_u64(&mut payload, 0, response.request_id.0);
    payload.set(8, response.request_opcode);
    payload.set(9, response.request_target);
    payload.set(10, response.result.code());
    put_u32(&mut payload, 12, response.detail);
    assert(payload@ == spec_command_response_payload(response));
    match finish_frame(header, payload.as_slice()) {
        Ok(f) => Ok(f),
        Err(e) => Err(RequestError::Codec(e)),
    }
}

/// The response a frame carries. Its class and opcode are checked first,
/// then node, requester, priority, target, length and reserved byte.
pub open spec fn spec_decode_command_response(id: u32, p: Seq<u8>) -> Result<CommandResponse, RequestError> {
    match lift_header(spec_header_decode(id)) {
        Err(e) => Err(RequestError::Codec(e)),
        Ok(h) => if h.class != MessageClass::Response {
            Err(RequestError::Codec(CodecError::UnexpectedClass(h.class.spec_code())))
        } else if h.opcode != 0 {
            Err(RequestError::Codec(CodecError::UnknownOpcode(h.opcode)))
        } else if let Err(e) = lift(spec_require_operational_node(h.node)) {
            Err(e)
        } else if let Err(e) = lift(spec_require_host_requester(h.requester)) {
            Err(e)
        } else if let Err(e) = lift(spec_require_priority(h.priority, 2)) {
            Err(e)
        } else if let Err(e) = lift(spec_require_target(h.target, 0x0F)) {
            Err(e)
        } else if let Err(e) = lift(spec_require_len(p, 16)) {
            Err(e)
        } else if let Err(e) = lift(spec_require_zero(p, 11)) {
            Err(e)
        } else {
            match CommandResult::from_code(p[10]) {
                None => Err(RequestError::Codec(CodecError::Payload(PayloadError::InvalidValue { offset: 10, value: p[10] }))),
                Some(result) => Ok(
                    CommandResponse {
                        node: h.node,
                        requester: h.requester,
                        request_id: RequestId(rd64(p, 0)),
                        request_opcode: p[8],
                        request_target: p[9],
                        result,
                        detail: rd32(p, 12),
                    },
                ),
            }
        },
    }
}

pub fn decode_command_response(id: ExtendedId, payload: &[u8]) -> (r: Result<CommandResponse, RequestError>)
    ensures
        r == spec_decode_command_response(id.spec_get(), payload@),
{
    let header = match decode_id(id) {
        Ok(h) => h,
        Err(e) => {
            return Err(RequestError::Codec(e));
        },
    };
    if header.class != MessageClass::Response {
        return Err(RequestError::Codec(CodecError::UnexpectedClass(header.class.code())));
    }
    if header.opcode != 0 {
        return Err(RequestError::Codec(CodecError::UnknownOpcode(header.opcode)));
    }
    if let Err(e) = require_operational_node(header.node) {
        return Err(RequestError::Codec(e));
    }
    if let Err(e) = require_host_requester(header.requester) {
        return Err(RequestError::Codec(e));
    }
    if let Err(e) = require_priority(header.priority, 2) {
        return Err(RequestError::Codec(e));
    }
    if let Err(e) = require_target(header.target, BOARD_TARGET) {
        return Err(RequestError::Codec(e));
    }
    if let Err(e) = require_len(payload, 16) {
        return Err(RequestError::Codec(e));
    }
    if let Err(e) = require_zero(payload, 11) {
        return Err(RequestError::Codec(e));
    }
    let result = match CommandResult::try_from(payload[10]) {
        Ok(result) => result,
        Err(e) => {
            return Err(RequestError::Codec(CodecError::Payload(e)));
        },
    };
    Ok(
        CommandResponse {
            node: header.node,
            requester: header.requester,
            request_id: RequestId(rd_u64(payload, 0)),
            request_opcode: payload[8],
            request_target: payload[9],
            result,
            detail: rd_u32(payload, 12),
        },
    )
}

/// Every command response that can be encoded decodes back to itself.
pub proof fn lemma_command_response_round_trip(r: CommandResponse)
    requires
        r.requester.spec_get() <= 15,
        spec_encode_command_response(r) is Ok,
    ensures
        spec_decode_command_response(
            spec_encode_command_response(r)->Ok_0.0,
            spec_encode_command_response(r)->Ok_0.1,
        ) == Ok::<CommandResponse, RequestError>(r),
{
    let h = Header {
        priority: 2,
        class: MessageClass::Response,
        node: r.node,
        target: 0x0F,
        requester: r.requester,
        opcode: 0,
    };
    lemma_header_round_trip(h);
    let base = put64(zeros(16), 0, r.request_id.0);
    lemma_rd_put64(zeros(16), 0, r.request_id.0);
    let q = base.update(8, r.request_opcode).update(9, r.request_target).update(10, r.result.spec_code());
    lemma_rd_put32(q, 12, r.detail);
    let p = spec_command_response_payload(r);
    assert(rd64(p, 0) == rd64(base, 0));
}

/// Write the request identifier, little-endian, into the first eight bytes.
pub fn encode_request_id(request_id: RequestId, output: &mut Vec<u8>) -> (r: Result<(), RequestError>)
    ensures
        old(output)@.len() < 8 ==> r == Err::<(), RequestError>(RequestError::TooShort)
            && final(output)@ == old(output)@,
        old(output)@.len() >= 8 ==> r == Ok::<(), RequestError>(()) && final(output)@ == put64(
            old(output)@,
            0,
            request_id.0,
        ),
{
    if output.len() < 8 {
        return Err(RequestError::TooShort);
    }
    put_u64(output, 0, request_id.0);
    Ok(())
}

/// The little-endian request identifier in the first eight bytes.
pub fn decode_request_id(payload: &[u8]) -> (r: Result<RequestId, RequestError>)
    ensures
        r == (if payload@.len() < 8 {
            Err(RequestError::TooShort)
        } else {
            Ok::<RequestId, RequestError>(RequestId(rd64(payload@, 0)))
        }),
{
    if payload.len() < 8 {
        return Err(RequestError::TooShort);
    }
    Ok(RequestId(rd_u64(payload, 0)))
}

} // verus!
