//! Codecs of command responses, node and fan state, telemetry and management
//! messages.
use vstd::prelude::*;
use crate::types::{
    group_type_lemmas, CapabilityFlags, CarrierBinding, CarrierProfile, FanConfig, FanId, FaultFlags,
    FirmwareVersion, HardwareRevision, NodeDescriptor, NodeId, NodeRole, PowerReading, PowerSource,
    RequestId, RequesterId, SampleStatus, ServiceState, SlotIndex, TemperatureReading,
    TemperatureSensorId, TemperatureSource, UpdateImpact, UpdateState,
};
use crate::wire::{
    lemma_first_nonzero_none, lemma_rd_put16, lemma_rd_put32, lemma_rd_put64, put16, put32, put64,
    put_bytes, put_slice, put_u16, put_u32, put_u64, rd16, rd32, rd64, rd_u16, rd_u32, rd_u64,
    zeros,
};
use crate::protocol::{
    group_id_lemmas, lemma_header_round_trip, lemma_rd_put_version, lemma_rd_uid, put_version,
    rd_uid, rd_version, read_request_id, read_uid, read_version, require_bool,
    require_host_requester, require_len, require_operational_node, require_priority,
    require_target, require_zero, require_zero_range, spec_header_decode, spec_header_new,
    spec_read_request_id, spec_require_bool, spec_require_host_requester, spec_require_len,
    spec_require_operational_node, spec_require_priority, spec_require_target, spec_require_zero,
    spec_require_zero_range, write_version, CodecError, ExtendedId, Header, MessageClass,
    PayloadError, WireFrame, NODE_TARGET,
};
use crate::codec::{
    bool_byte, bool_u8, decode_id, finish_frame, frame_matches, lift_header, new_header,
    protocol_header, require_class, require_node_message, require_opcode,
    require_protocol_header, spec_frame, spec_protocol_header, spec_require_class,
    spec_require_node_message, spec_require_opcode, spec_require_protocol_header,
};

verus! {

broadcast use {group_type_lemmas, group_id_lemmas};

#[derive(Clone, Copy, Debug, PartialEq, Eq, Structural)]
pub enum CommandResult {
    Success,
    Pending,
    InvalidArgument,
    InvalidTarget,
    Unsupported,
    Busy,
    NotReady,
    HardwareFault,
    Storage,
    Timeout,
    VerifyFailed,
    AddressConflict,
    EmergencyLatched,
    Internal,
}

impl CommandResult {
    /// The wire code of this value.
    pub open spec fn spec_code(self) -> u8 {
        match self {
            CommandResult::Success => 0,
            CommandResult::Pending => 1,
            CommandResult::InvalidArgument => 2,
            CommandResult::InvalidTarget => 3,
            CommandResult::Unsupported => 4,
            CommandResult::Busy => 5,
            CommandResult::NotReady => 6,
            CommandResult::HardwareFault => 7,
            CommandResult::Storage => 8,
            CommandResult::Timeout => 9,
            CommandResult::VerifyFailed => 10,
            CommandResult::AddressConflict => 11,
            CommandResult::EmergencyLatched => 12,
            CommandResult::Internal => 13,
        }
    }

    /// The value whose wire code is `value`, if there is one.
    pub open spec fn from_code(value: u8) -> Option<CommandResult> {
        if value == 0 {
            Some(CommandResult::Success)
        } else if value == 1 {
            Some(CommandResult::Pending)
        } else if value == 2 {
            Some(CommandResult::InvalidArgument)
        } else if value == 3 {
            Some(CommandResult::InvalidTarget)
        } else if value == 4 {
            Some(CommandResult::Unsupported)
        } else if value == 5 {
            Some(CommandResult::Busy)
        } else if value == 6 {
            Some(CommandResult::NotReady)
        } else if value == 7 {
            Some(CommandResult::HardwareFault)
        } else if value == 8 {
            Some(CommandResult::Storage)
        } else if value == 9 {
            Some(CommandResult::Timeout)
        } else if value == 10 {
            Some(CommandResult::VerifyFailed)
        } else if value == 11 {
            Some(CommandResult::AddressConflict)
        } else if value == 12 {
            Some(CommandResult::EmergencyLatched)
        } else if value == 13 {
            Some(CommandResult::Internal)
        } else {
            None
        }
    }

    pub fn code(self) -> (r: u8)
        ensures
            r == self.spec_code(),
            CommandResult::from_code(r) == Some(self),
    {
        match self {
            CommandResult::Success => 0,
            CommandResult::Pending => 1,
            CommandResult::InvalidArgument => 2,
            CommandResult::InvalidTarget => 3,
            CommandResult::Unsupported => 4,
            CommandResult::Busy => 5,
            CommandResult::NotReady => 6,
            CommandResult::HardwareFault => 7,
            CommandResult::Storage => 8,
            CommandResult::Timeout => 9,
            CommandResult::VerifyFailed => 10,
            CommandResult::AddressConflict => 11,
            CommandResult::EmergencyLatched => 12,
            CommandResult::Internal => 13,
        }
    }

    pub fn try_from(value: u8) -> (r: Result<CommandResult, PayloadError>)
        ensures
            r == (match CommandResult::from_code(value) {
                Some(v) => Ok::<CommandResult, PayloadError>(v),
                None => Err(PayloadError::InvalidValue { offset: 10, value: value }),
            }),
    {
        match value {
            0 => Ok(CommandResult::Success),
            1 => Ok(CommandResult::Pending),
            2 => Ok(CommandResult::InvalidArgument),
            3 => Ok(CommandResult::InvalidTarget),
            4 => Ok(CommandResult::Unsupported),
            5 => Ok(CommandResult::Busy),
            6 => Ok(CommandResult::NotReady),
            7 => Ok(CommandResult::HardwareFault),
            8 => Ok(CommandResult::Storage),
            9 => Ok(CommandResult::Timeout),
            10 => Ok(CommandResult::VerifyFailed),
            11 => Ok(CommandResult::AddressConflict),
            12 => Ok(CommandResult::EmergencyLatched),
            13 => Ok(CommandResult::Internal),
            _ => Err(PayloadError::InvalidValue { offset: 10, value: value }),
        }
    }
}

#[derive(Clone, Copy, Debug, PartialEq, Eq)]
pub struct CommandResponse {
    pub node: u8,
    pub requester: RequesterId,
    pub request_id: RequestId,
    pub request_opcode: u8,
    pub request_target: u8,
    pub result: CommandResult,
    pub detail: u32,
}

pub open spec fn spec_command_response_payload(r: CommandResponse) -> Seq<u8> {
    put32(
        put64(zeros(16), 0, r.request_id.0).update(8, r.request_opcode).update(9, r.request_target).update(
            10,
            r.result.spec_code(),
        ),
        12,
        r.detail,
    )
}

pub open spec fn spec_encode_command_response(r: CommandResponse) -> Result<(u32, Seq<u8>), CodecError> {
    if let Err(e) = spec_require_operational_node(r.node) {
        Err(e)
    } else if let Err(e) = spec_require_host_requester(r.requester) {
        Err(e)
    } else {
        match lift_header(spec_header_new(2, MessageClass::Response, r.node, 0x0F, r.requester, 0)) {
            Err(e) => Err(e),
            Ok(h) => spec_frame(h, spec_command_response_payload(r)),
        }
    }
}

pub fn encode_command_response(response: CommandResponse) -> (r: Result<WireFrame, CodecError>)
    ensures
        frame_matches(r, spec_encode_command_response(response)),
{
    require_operational_node(response.node)?;
    require_host_requester(response.requester)?;
    let header = new_header(
        2,
        MessageClass::Response,
        response.node,
        NODE_TARGET,
        response.requester,
        0,
    )?;
    let mut payload = vec![0u8; 16];
    put_u64(&mut payload, 0, response.request_id.0);
    payload.set(8, response.request_opcode);
    payload.set(9, response.request_target);
    payload.set(10, response.result.code());
    put_u32(&mut payload, 12, response.detail);
    assert(payload@ == spec_command_response_payload(response));
    finish_frame(header, payload.as_slice())
}

pub open spec fn spec_decode_command_response(id: u32, p: Seq<u8>) -> Result<CommandResponse, CodecError> {
    match lift_header(spec_header_decode(id)) {
        Err(e) => Err(e),
        Ok(h) => if let Err(e) = spec_require_class(h, MessageClass::Response) {
            Err(e)
        } else if let Err(e) = spec_require_priority(h.priority, 2) {
            Err(e)
        } else if let Err(e) = spec_require_operational_node(h.node) {
            Err(e)
        } else if let Err(e) = spec_require_target(h.target, 0x0F) {
            Err(e)
        } else if let Err(e) = spec_require_host_requester(h.requester) {
            Err(e)
        } else if h.opcode != 0 {
            Err(CodecError::UnknownOpcode(h.opcode))
        } else if let Err(e) = spec_require_len(p, 16) {
            Err(e)
        } else if let Err(e) = spec_require_zero(p, 11) {
            Err(e)
        } else {
            match CommandResult::from_code(p[10]) {
                None => Err(CodecError::Payload(PayloadError::InvalidValue { offset: 10, value: p[10] })),
                Some(result) => Ok(
                    CommandResponse {
                        node: h.node,
                        requester: h.requester,
                        request_id: RequestId(rd64(p, 0)),
                        request_opcode: p[8],
                        request_target: p[9],
                        result,
                        detail: rd32(p, 12),
                    },
                ),
            }
        },
    }
}

pub fn decode_command_response(id: ExtendedId, payload: &[u8]) -> (r: Result<CommandResponse, CodecError>)
    ensures
        r == spec_decode_command_response(id.spec_get(), payload@),
{
    let header = decode_id(id)?;
    require_class(header, MessageClass::Response)?;
    require_priority(header.priority, 2)?;
    require_operational_node(header.node)?;
    require_target(header.target, NODE_TARGET)?;
    require_host_requester(header.requester)?;
    if header.opcode != 0 {
        return Err(CodecError::UnknownOpcode(header.opcode));
    }
    require_len(payload, 16)?;
    require_zero(payload, 11)?;
    let request_id = read_request_id(payload)?;
    let result = match CommandResult::try_from(payload[10]) {
        Ok(result) => result,
        Err(e) => return Err(CodecError::Payload(e)),
    };
    Ok(
        CommandResponse {
            node: header.node,
            requester: header.requester,
            request_id,
            request_opcode: payload[8],
            request_target: payload[9],
            result,
            detail: rd_u32(payload, 12),
        },
    )
}

/// Every command response that can be encoded decodes back to itself.
pub proof fn lemma_command_response_round_trip(r: CommandResponse)
    requires
        r.requester.spec_get() <= 15,
        spec_encode_command_response(r) is Ok,
    ensures
        spec_decode_command_response(
            spec_encode_command_response(r)->Ok_0.0,
            spec_encode_command_response(r)->Ok_0.1,
        ) == Ok::<CommandResponse, CodecError>(r),
{
    let h = Header {
        priority: 2,
        class: MessageClass::Response,
        node: r.node,
        target: 0x0F,
        requester: r.requester,
        opcode: 0,
    };
    lemma_header_round_trip(h);
    let base = put64(zeros(16), 0, r.request_id.0);
    let q = base.update(8, r.request_opcode).update(9, r.request_target).update(10, r.result.spec_code());
    lemma_rd_put64(zeros(16), 0, r.request_id.0);
    lemma_rd_put32(q, 12, r.detail);
    let p = spec_command_response_payload(r);
    assert(rd64(p, 0) == rd64(base, 0));
}

#[derive(Clone, Copy, Debug, PartialEq, Eq)]
pub struct NodeState {
    pub node: u8,
    pub sequence: u16,
    pub service: ServiceState,
    pub faults: FaultFlags,
    pub uptime_seconds: u32,
    pub output_enabled: bool,
    pub power_good: bool,
    pub emergency_latched: bool,
}

/// The packed output, power-good and emergency bits of a state byte.
pub open spec fn state_flags(a: bool, b: bool, c: bool) -> u8 {
    bool_byte(a) | (bool_byte(b) << 1u8) | (bool_byte(c) << 2u8)
}

proof fn lemma_state_flags(a: bool, b: bool, c: bool)
    ensures
        state_flags(a, b, c) & !7u8 == 0,
        (state_flags(a, b, c) & 1 != 0) == a,
        (state_flags(a, b, c) & 2 != 0) == b,
        (state_flags(a, b, c) & 4 != 0) == c,
{
    let x = bool_byte(a);
    let y = bool_byte(b);
    let z = bool_byte(c);
    assert((x <= 1 && y <= 1 && z <= 1) ==> ({
        let f = x | (y << 1u8) | (z << 2u8);
        &&& f & !7u8 == 0
        &&& (f & 1 != 0) == (x == 1)
        &&& (f & 2 != 0) == (y == 1)
        &&& (f & 4 != 0) == (z == 1)
    })) by (bit_vector);
}

pub open spec fn spec_node_state_payload(s: NodeState) -> Seq<u8> {
    put32(
        put32(
            put16(zeros(16), 0, s.sequence).update(2, s.service.spec_code()).update(
                3,
                state_flags(s.output_enabled, s.power_good, s.emergency_latched),
            ),
            4,
            s.faults.spec_bits(),
        ),
        8,
        s.uptime_seconds,
    )
}

pub open spec fn spec_encode_node_state(s: NodeState) -> Result<(u32, Seq<u8>), CodecError> {
    if let Err(e) = spec_require_operational_node(s.node) {
        Err(e)
    } else {
        match spec_protocol_header(3, MessageClass::State, s.node, 0x0F, 0) {
            Err(e) => Err(e),
            Ok(h) => spec_frame(h, spec_node_state_payload(s)),
        }
    }
}

pub fn encode_node_state(state: NodeState) -> (r: Result<WireFrame, CodecError>)
    ensures
        frame_matches(r, spec_encode_node_state(state)),
{
    require_operational_node(state.node)?;
    let header = protocol_header(3, MessageClass::State, state.node, NODE_TARGET, 0)?;
    let mut payload = vec![0u8; 16];
    put_u16(&mut payload, 0, state.sequence);
    payload.set(2, state.service.code());
    payload.set(
        3,
        bool_u8(state.output_enabled) | (bool_u8(state.power_good) << 1u8) | (bool_u8(
            state.emergency_latched,
        ) << 2u8),
    );
    put_u32(&mut payload, 4, state.faults.bits());
    put_u32(&mut payload, 8, state.uptime_seconds);
    assert(payload@ == spec_node_state_payload(state));
    finish_frame(header, payload.as_slice())
}

pub open spec fn spec_decode_node_state(id: u32, p: Seq<u8>) -> Result<NodeState, CodecError> {
    match spec_require_node_message(id, p, MessageClass::State, 0, 3, 16) {
        Err(e) => Err(e),
        Ok(h) => if let Err(e) = spec_require_zero_range(p, 12, 16) {
            Err(e)
        } else if p[3] & !7u8 != 0 {
            Err(CodecError::Payload(PayloadError::InvalidValue { offset: 3, value: p[3] }))
        } else {
            match ServiceState::from_code(p[2]) {
                None => Err(CodecError::Payload(PayloadError::InvalidValue { offset: 2, value: p[2] })),
                Some(service) => Ok(
                    NodeState {
                        node: h.node,
                        sequence: rd16(p, 0),
                        service,
                        output_enabled: p[3] & 1 != 0,
                        power_good: p[3] & 2 != 0,
                        emergency_latched: p[3] & 4 != 0,
                        faults: FaultFlags::spec_from_bits(rd32(p, 4)),
                        uptime_seconds: rd32(p, 8),
                    },
                ),
            }
        },
    }
}

pub fn decode_node_state(id: ExtendedId, payload: &[u8]) -> (r: Result<NodeState, CodecError>)
    ensures
        r == spec_decode_node_state(id.spec_get(), payload@),
{
    let header = require_node_message(id, payload, MessageClass::State, 0, 3, 16)?;
    require_zero_range(payload, 12, 16)?;
    if payload[3] & !7u8 != 0 {
        return Err(CodecError::Payload(PayloadError::InvalidValue { offset: 3, value: payload[3] }));
    }
    let service = match ServiceState::try_from(payload[2]) {
        Ok(service) => service,
        Err(error) => return Err(
            CodecError::Payload(PayloadError::InvalidValue { offset: 2, value: error.0 }),
        ),
    };
    Ok(
        NodeState {
            node: header.node,
            sequence: rd_u16(payload, 0),
            service,
            output_enabled: payload[3] & 1 != 0,
            power_good: payload[3] & 2 != 0,
            emergency_latched: payload[3] & 4 != 0,
            faults: FaultFlags::from_bits_retain(rd_u32(payload, 4)),
            uptime_seconds: rd_u32(payload, 8),
        },
    )
}

/// Every node state that can be encoded decodes back to itself.
pub proof fn lemma_node_state_round_trip(s: NodeState)
    requires
        spec_encode_node_state(s) is Ok,
    ensures
        spec_decode_node_state(
            spec_encode_node_state(s)->Ok_0.0,
            spec_encode_node_state(s)->Ok_0.1,
        ) == Ok::<NodeState, CodecError>(s),
{
    let h = Header {
        priority: 3,
        class: MessageClass::State,
        node: s.node,
        target: 0x0F,
        requester: RequesterId::spec_new(0),
        opcode: 0,
    };
    lemma_header_round_trip(h);
    lemma_state_flags(s.output_enabled, s.power_good, s.emergency_latched);
    let q0 = zeros(16);
    let q1 = put16(q0, 0, s.sequence).update(2, s.service.spec_code()).update(
        3,
        state_flags(s.output_enabled, s.power_good, s.emergency_latched),
    );
    let q2 = put32(q1, 4, s.faults.spec_bits());
    let p = spec_node_state_payload(s);
    lemma_rd_put16(q0, 0, s.sequence);
    lemma_rd_put32(q1, 4, s.faults.spec_bits());
    lemma_rd_put32(q2, 8, s.uptime_seconds);
    assert(rd16(p, 0) == rd16(put16(q0, 0, s.sequence), 0));
    assert(rd32(p, 4) == rd32(q2, 4));
    lemma_first_nonzero_none(p, 12, 16);
}

#[derive(Clone, Copy, Debug, PartialEq, Eq)]
pub struct FanState {
    pub node: u8,
    pub fan: FanId,
    pub sequence: u16,
    pub duty_percent: u8,
    pub rpm: u16,
    pub stalled: bool,
}

pub open spec fn spec_fan_state_payload(s: FanState) -> Seq<u8> {
    put16(put16(zeros(12), 0, s.sequence).update(2, s.duty_percent).update(3, bool_byte(s.stalled)), 4, s.rpm)
}

pub open spec fn spec_encode_fan_state(s: FanState) -> Result<(u32, Seq<u8>), CodecError> {
    if let Err(e) = spec_require_operational_node(s.node) {
        Err(e)
    } else if s.duty_percent > 100 {
        Err(CodecError::Payload(PayloadError::InvalidValue { offset: 2, value: s.duty_percent }))
    } else {
        match spec_protocol_header(3, MessageClass::State, s.node, s.fan.spec_get(), 1) {
            Err(e) => Err(e),
            Ok(h) => spec_frame(h, spec_fan_state_payload(s)),
        }
    }
}

pub fn encode_fan_state(state: FanState) -> (r: Result<WireFrame, CodecError>)
    ensures
        frame_matches(r, spec_encode_fan_state(state)),
{
    require_operational_node(state.node)?;
    if (FanConfig { duty_percent: state.duty_percent }).validate().is_err() {
        return Err(
            CodecError::Payload(PayloadError::InvalidValue { offset: 2, value: state.duty_percent }),
        );
    }
    let header = protocol_header(3, MessageClass::State, state.node, state.fan.get(), 1)?;
    let mut payload = vec![0u8; 12];
    put_u16(&mut payload, 0, state.sequence);
    payload.set(2, state.duty_percent);
    payload.set(3, bool_u8(state.stalled));
    put_u16(&mut payload, 4, state.rpm);
    assert(payload@ == spec_fan_state_payload(state));
    finish_frame(header, payload.as_slice())
}

pub open spec fn spec_decode_fan_state(id: u32, p: Seq<u8>) -> Result<FanState, CodecError> {
    match lift_header(spec_header_decode(id)) {
        Err(e) => Err(e),
        Ok(h) => if let Err(e) = spec_require_protocol_header(h, MessageClass::State, 1, 3) {
            Err(e)
        } else if let Err(e) = spec_require_operational_node(h.node) {
            Err(e)
        } else if let Err(e) = spec_require_len(p, 12) {
            Err(e)
        } else if let Err(e) = spec_require_bool(p[3], 3) {
            Err(e)
        } else if let Err(e) = spec_require_zero_range(p, 6, 12) {
            Err(e)
        } else if h.target > 1 {
            Err(CodecError::Payload(PayloadError::InvalidFanId(h.target)))
        } else if p[2] > 100 {
            Err(CodecError::Payload(PayloadError::InvalidValue { offset: 2, value: p[2] }))
        } else {
            Ok(
                FanState {
                    node: h.node,
                    fan: FanId::spec_new(h.target),
                    sequence: rd16(p, 0),
                    duty_percent: p[2],
                    rpm: rd16(p, 4),
                    stalled: p[3] != 0,
                },
            )
        },
    }
}

pub fn decode_fan_state(id: ExtendedId, payload: &[u8]) -> (r: Result<FanState, CodecError>)
    ensures
        r == spec_decode_fan_state(id.spec_get(), payload@),
{
    let header = decode_id(id)?;
    require_protocol_header(header, MessageClass::State, 1, 3)?;
    require_operational_node(header.node)?;
    require_len(payload, 12)?;
    require_bool(payload[3], 3)?;
    require_zero_range(payload, 6, 12)?;
    let fan = match FanId::new(header.target) {
        Ok(fan) => fan,
        Err(error) => return Err(CodecError::Payload(PayloadError::InvalidFanId(error.0))),
    };
    if (FanConfig { duty_percent: payload[2] }).validate().is_err() {
        return Err(CodecError::Payload(PayloadError::InvalidValue { offset: 2, value: payload[2] }));
    }
    Ok(
        FanState {
            node: header.node,
            fan,
            sequence: rd_u16(payload, 0),
            duty_percent: payload[2],
            rpm: rd_u16(payload, 4),
            stalled: payload[3] != 0,
        },
    )
}

/// Every fan state that can be encoded decodes back to itself.
pub proof fn lemma_fan_state_round_trip(s: FanState)
    requires
        s.fan.spec_get() <= 1,
        spec_encode_fan_state(s) is Ok,
    ensures
        spec_decode_fan_state(
            spec_encode_fan_state(s)->Ok_0.0,
            spec_encode_fan_state(s)->Ok_0.1,
        ) == Ok::<FanState, CodecError>(s),
{
    let h = Header {
        priority: 3,
        class: MessageClass::State,
        node: s.node,
        target: s.fan.spec_get(),
        requester: RequesterId::spec_new(0),
        opcode: 1,
    };
    lemma_header_round_trip(h);
    let q0 = zeros(12);
    let q1 = put16(q0, 0, s.sequence).update(2, s.duty_percent).update(3, bool_byte(s.stalled));
    let p = spec_fan_state_payload(s);
    lemma_rd_put16(q0, 0, s.sequence);
    lemma_rd_put16(q1, 4, s.rpm);
    assert(rd16(p, 0) == rd16(put16(q0, 0, s.sequence), 0));
    lemma_first_nonzero_none(p, 6, 12);
}

#[derive(Clone, Copy, Debug, PartialEq, Eq)]
pub struct PowerTelemetry {
    pub node: u8,
    pub reading: PowerReading,
}

pub open spec fn spec_power_payload(t: PowerTelemetry) -> Seq<u8> {
    put32(
        put32(
            put32(put16(zeros(16), 0, t.reading.sequence).update(2, t.reading.source.spec_code()), 4, t.reading.voltage_mv),
            8,
            t.reading.current_ma as u32,
        ),
        12,
        t.reading.power_mw as u32,
    )
}

pub open spec fn spec_encode_power(t: PowerTelemetry) -> Result<(u32, Seq<u8>), CodecError> {
    if let Err(e) = spec_require_operational_node(t.node) {
        Err(e)
    } else {
        match spec_protocol_header(4, MessageClass::Telemetry, t.node, 0x0F, 0) {
            Err(e) => Err(e),
            Ok(h) => spec_frame(h, spec_power_payload(t)),
        }
    }
}

pub fn encode_power(telemetry: PowerTelemetry) -> (r: Result<WireFrame, CodecError>)
    ensures
        frame_matches(r, spec_encode_power(telemetry)),
{
    require_operational_node(telemetry.node)?;
    let header = protocol_header(4, MessageClass::Telemetry, telemetry.node, NODE_TARGET, 0)?;
    let mut payload = vec![0u8; 16];
    put_u16(&mut payload, 0, telemetry.reading.sequence);
    payload.set(2, telemetry.reading.source.code());
    put_u32(&mut payload, 4, telemetry.reading.voltage_mv);
    put_u32(&mut payload, 8, telemetry.reading.current_ma as u32);
    put_u32(&mut payload, 12, telemetry.reading.power_mw as u32);
    assert(payload@ == spec_power_payload(telemetry));
    finish_frame(header, payload.as_slice())
}

pub open spec fn spec_decode_power(id: u32, p: Seq<u8>) -> Result<PowerTelemetry, CodecError> {
    match spec_require_node_message(id, p, MessageClass::Telemetry, 0, 4, 16) {
        Err(e) => Err(e),
        Ok(h) => if let Err(e) = spec_require_zero(p, 3) {
            Err(e)
        } else {
            match PowerSource::from_code(p[2]) {
                None => Err(CodecError::Payload(PayloadError::InvalidValue { offset: 2, value: p[2] })),
                Some(source) => Ok(
                    PowerTelemetry {
                        node: h.node,
                        reading: PowerReading {
                            source,
                            sequence: rd16(p, 0),
                            voltage_mv: rd32(p, 4),
                            current_ma: rd32(p, 8) as i32,
                            power_mw: rd32(p, 12) as i32,
                        },
                    },
                ),
            }
        },
    }
}

pub fn decode_power(id: ExtendedId, payload: &[u8]) -> (r: Result<PowerTelemetry, CodecError>)
    ensures
        r == spec_decode_power(id.spec_get(), payload@),
{
    let header = require_node_message(id, payload, MessageClass::Telemetry, 0, 4, 16)?;
    require_zero(payload, 3)?;
    let source = match PowerSource::try_from(payload[2]) {
        Ok(source) => source,
        Err(error) => return Err(
            CodecError::Payload(PayloadError::InvalidValue { offset: 2, value: error.0 }),
        ),
    };
    Ok(
        PowerTelemetry {
            node: header.node,
            reading: PowerReading {
                source,
                sequence: rd_u16(payload, 0),
                voltage_mv: rd_u32(payload, 4),
                current_ma: rd_u32(payload, 8) as i32,
                power_mw: rd_u32(payload, 12) as i32,
            },
        },
    )
}

proof fn lemma_i32_bits(v: i32)
    ensures
        (v as u32) as i32 == v,
{
    assert((v as u32) as i32 == v) by (bit_vector);
}

proof fn lemma_i16_bits(v: i16)
    ensures
        (v as u16) as i16 == v,
{
    assert((v as u16) as i16 == v) by (bit_vector);
}

/// Every power reading that can be encoded decodes back to itself.
pub proof fn lemma_power_round_trip(t: PowerTelemetry)
    requires
        spec_encode_power(t) is Ok,
    ensures
        spec_decode_power(spec_encode_power(t)->Ok_0.0, spec_encode_power(t)->Ok_0.1) == Ok::<
            PowerTelemetry,
            CodecError,
        >(t),
{
    let h = Header {
        priority: 4,
        class: MessageClass::Telemetry,
        node: t.node,
        target: 0x0F,
        requester: RequesterId::spec_new(0),
        opcode: 0,
    };
    lemma_header_round_trip(h);
    let r = t.reading;
    let q0 = zeros(16);
    let q1 = put16(q0, 0, r.sequence).update(2, r.source.spec_code());
    let q2 = put32(q1, 4, r.voltage_mv);
    let q3 = put32(q2, 8, r.current_ma as u32);
    let p = spec_power_payload(t);
    lemma_rd_put16(q0, 0, r.sequence);
    lemma_rd_put32(q1, 4, r.voltage_mv);
    lemma_rd_put32(q2, 8, r.current_ma as u32);
    lemma_rd_put32(q3, 12, r.power_mw as u32);
    lemma_i32_bits(r.current_ma);
    lemma_i32_bits(r.power_mw);
    assert(rd16(p, 0) == rd16(put16(q0, 0, r.sequence), 0));
    assert(rd32(p, 4) == rd32(q2, 4));
    assert(rd32(p, 8) == rd32(q3, 8));
}

#[derive(Clone, Copy, Debug, PartialEq, Eq)]
pub struct TemperatureTelemetry {
    pub node: u8,
    pub reading: TemperatureReading,
}

pub open spec fn spec_temperature_payload(t: TemperatureTelemetry) -> Seq<u8> {
    let r = t.reading;
    let p = put16(zeros(16), 0, r.sequence).update(2, r.sensor.source.spec_code()).update(
        3,
        r.status.spec_code(),
    );
    let p = match r.temperature_centi_c {
        Some(v) => put16(p, 4, v as u16),
        None => p,
    };
    put64(p, 8, r.sensor.identifier)
}

pub open spec fn spec_encode_temperature(t: TemperatureTelemetry) -> Result<(u32, Seq<u8>), CodecError> {
    if let Err(e) = spec_require_operational_node(t.node) {
        Err(e)
    } else if t.reading.spec_validate() is Err {
        Err(CodecError::Payload(PayloadError::InvalidTemperature))
    } else {
        match spec_protocol_header(4, MessageClass::Telemetry, t.node, 0x0F, 1) {
            Err(e) => Err(e),
            Ok(h) => spec_frame(h, spec_temperature_payload(t)),
        }
    }
}

pub fn encode_temperature(telemetry: TemperatureTelemetry) -> (r: Result<WireFrame, CodecError>)
    ensures
        frame_matches(r, spec_encode_temperature(telemetry)),
{
    require_operational_node(telemetry.node)?;
    if telemetry.reading.validate().is_err() {
        return Err(CodecError::Payload(PayloadError::InvalidTemperature));
    }
    let header = protocol_header(4, MessageClass::Telemetry, telemetry.node, NODE_TARGET, 1)?;
    let mut payload = vec![0u8; 16];
    put_u16(&mut payload, 0, telemetry.reading.sequence);
    payload.set(2, telemetry.reading.sensor.source.code());
    payload.set(3, telemetry.reading.status.code());
    match telemetry.reading.temperature_centi_c {
        Some(value) => put_u16(&mut payload, 4, value as u16),
        None => {},
    }
    put_u64(&mut payload, 8, telemetry.reading.sensor.identifier);
    assert(payload@ == spec_temperature_payload(telemetry));
    finish_frame(header, payload.as_slice())
}

pub open spec fn spec_decode_temperature(id: u32, p: Seq<u8>) -> Result<TemperatureTelemetry, CodecError> {
    match spec_require_node_message(id, p, MessageClass::Telemetry, 1, 4, 16) {
        Err(e) => Err(e),
        Ok(h) => if let Err(e) = spec_require_zero_range(p, 6, 8) {
            Err(e)
        } else {
            match SampleStatus::from_code(p[3]) {
                None => Err(CodecError::Payload(PayloadError::InvalidValue { offset: 3, value: p[3] })),
                Some(status) => match TemperatureSource::from_code(p[2]) {
                    None => Err(CodecError::Payload(PayloadError::InvalidValue { offset: 2, value: p[2] })),
                    Some(source) => {
                        let has_value = status == SampleStatus::Valid || status == SampleStatus::Stale;
                        let zero_check = if has_value {
                            Ok(())
                        } else {
                            spec_require_zero_range(p, 4, 6)
                        };
                        if let Err(e) = zero_check {
                            Err(e)
                        } else {
                            let reading = TemperatureReading {
                                sensor: TemperatureSensorId { source, identifier: rd64(p, 8) },
                                sequence: rd16(p, 0),
                                status,
                                temperature_centi_c: if has_value {
                                    Some(rd16(p, 4) as i16)
                                } else {
                                    None
                                },
                            };
                            if reading.spec_validate() is Err {
                                Err(CodecError::Payload(PayloadError::InvalidTemperature))
                            } else {
                                Ok(TemperatureTelemetry { node: h.node, reading })
                            }
                        }
                    },
                },
            }
        },
    }
}

pub fn decode_temperature(id: ExtendedId, payload: &[u8]) -> (r: Result<TemperatureTelemetry, CodecError>)
    ensures
        r == spec_decode_temperature(id.spec_get(), payload@),
{
    let header = require_node_message(id, payload, MessageClass::Telemetry, 1, 4, 16)?;
    require_zero_range(payload, 6, 8)?;
    let status = match SampleStatus::try_from(payload[3]) {
        Ok(status) => status,
        Err(error) => return Err(
            CodecError::Payload(PayloadError::InvalidValue { offset: 3, value: error.0 }),
        ),
    };
    let source = match TemperatureSource::try_from(payload[2]) {
        Ok(source) => source,
        Err(error) => return Err(
            CodecError::Payload(PayloadError::InvalidValue { offset: 2, value: error.0 }),
        ),
    };
    let identifier = rd_u64(payload, 8);
    let sequence = rd_u16(payload, 0);
    let temperature_centi_c = match status {
        SampleStatus::Valid | SampleStatus::Stale => Some(rd_u16(payload, 4) as i16),
        SampleStatus::Unavailable | SampleStatus::Invalid => {
            require_zero_range(payload, 4, 6)?;
            None
        },
    };
    let reading = TemperatureReading {
        sensor: TemperatureSensorId { source, identifier },
        sequence,
        status,
        temperature_centi_c,
    };
    if reading.validate().is_err() {
        return Err(CodecError::Payload(PayloadError::InvalidTemperature));
    }
    Ok(TemperatureTelemetry { node: header.node, reading })
}

/// Every temperature reading that can be encoded decodes back to itself.
pub proof fn lemma_temperature_round_trip(t: TemperatureTelemetry)
    requires
        spec_encode_temperature(t) is Ok,
    ensures
        spec_decode_temperature(
            spec_encode_temperature(t)->Ok_0.0,
            spec_encode_temperature(t)->Ok_0.1,
        ) == Ok::<TemperatureTelemetry, CodecError>(t),
{
    let h = Header {
        priority: 4,
        class: MessageClass::Telemetry,
        node: t.node,
        target: 0x0F,
        requester: RequesterId::spec_new(0),
        opcode: 1,
    };
    lemma_header_round_trip(h);
    let r = t.reading;
    let q0 = zeros(16);
    let q1 = put16(q0, 0, r.sequence).update(2, r.sensor.source.spec_code()).update(
        3,
        r.status.spec_code(),
    );
    let q2 = match r.temperature_centi_c {
        Some(v) => put16(q1, 4, v as u16),
        None => q1,
    };
    let p = spec_temperature_payload(t);
    lemma_rd_put16(q0, 0, r.sequence);
    lemma_rd_put64(q2, 8, r.sensor.identifier);
    assert(rd16(p, 0) == rd16(put16(q0, 0, r.sequence), 0));
    lemma_first_nonzero_none(p, 6, 8);
    match r.temperature_centi_c {
        Some(v) => {
            lemma_rd_put16(q1, 4, v as u16);
            lemma_i16_bits(v);
            assert(rd16(p, 4) == rd16(q2, 4));
        },
        None => {
            lemma_first_nonzero_none(p, 4, 6);
        },
    }
}

#[derive(Clone, Copy, Debug, PartialEq, Eq, Structural)]
pub struct NodeInfo {
    pub node: u8,
    pub descriptor: NodeDescriptor,
    pub firmware: FirmwareVersion,
    pub bootloader: FirmwareVersion,
    pub partition_layout: u8,
}

pub open spec fn profile_byte(profile: Option<CarrierProfile>) -> u8 {
    match profile {
        Some(c) => c.spec_code(),
        None => 0,
    }
}

/// The 32-byte identity block of a node: descriptor, partition layout and versions.
pub open spec fn spec_node_info_bytes(info: NodeInfo) -> Seq<u8> {
    let d = info.descriptor;
    let p = zeros(32).update(0, d.role.spec_code()).update(1, profile_byte(d.carrier_profile)).update(
        2,
        d.hardware_revision.spec_get(),
    ).update(3, d.update_impact.spec_code());
    let p = put64(p, 4, d.capabilities.spec_bits());
    let p = p.update(12, d.output_count).update(13, d.fan_count).update(
        14,
        d.external_temperature_capacity,
    ).update(15, info.partition_layout);
    put_version(put_version(p, 16, info.firmware), 22, info.bootloader)
}

pub open spec fn spec_encode_node_info_payload(info: NodeInfo) -> Result<Seq<u8>, CodecError> {
    if info.descriptor.spec_validate() is Err {
        Err(CodecError::Payload(PayloadError::InvalidDescriptor))
    } else {
        Ok(spec_node_info_bytes(info))
    }
}

pub fn encode_node_info_payload(info: NodeInfo) -> (r: Result<Vec<u8>, CodecError>)
    ensures
        match spec_encode_node_info_payload(info) {
            Ok(p) => r matches Ok(v) && v@ == p,
            Err(e) => r == Err::<Vec<u8>, CodecError>(e),
        },
{
    if info.descriptor.validate().is_err() {
        return Err(CodecError::Payload(PayloadError::InvalidDescriptor));
    }
    let d = info.descriptor;
    let mut payload = vec![0u8; 32];
    payload.set(0, d.role.code());
    payload.set(
        1,
        match d.carrier_profile {
            Some(profile) => profile.code(),
            None => 0,
        },
    );
    payload.set(2, d.hardware_revision.get());
    payload.set(3, d.update_impact.code());
    put_u64(&mut payload, 4, d.capabilities.bits());
    payload.set(12, d.output_count);
    payload.set(13, d.fan_count);
    payload.set(14, d.external_temperature_capacity);
    payload.set(15, info.partition_layout);
    write_version(info.firmware, &mut payload, 16);
    write_version(info.bootloader, &mut payload, 22);
    assert(payload@ == spec_node_info_bytes(info));
    Ok(payload)
}

/// The node identity that a 32-byte block carries, or why it carries none.
pub open spec fn spec_decode_node_info_payload(node: u8, p: Seq<u8>) -> Result<NodeInfo, CodecError> {
    if let Err(e) = spec_require_len(p, 32) {
        Err(e)
    } else if let Err(e) = spec_require_zero_range(p, 28, 32) {
        Err(e)
    } else {
        match NodeRole::from_code(p[0]) {
            None => Err(CodecError::Payload(PayloadError::InvalidValue { offset: 0, value: p[0] })),
            Some(role) => if p[1] != 0 && CarrierProfile::from_code(p[1]) is None {
                Err(CodecError::Payload(PayloadError::InvalidValue { offset: 1, value: p[1] }))
            } else if !HardwareRevision::valid_raw(p[2]) {
                Err(CodecError::Payload(PayloadError::InvalidValue { offset: 2, value: p[2] }))
            } else {
                match UpdateImpact::from_code(p[3]) {
                    None => Err(CodecError::Payload(PayloadError::InvalidValue { offset: 3, value: p[3] })),
                    Some(update_impact) => {
                        let descriptor = NodeDescriptor {
                            role,
                            carrier_profile: if p[1] == 0 {
                                None
                            } else {
                                CarrierProfile::from_code(p[1])
                            },
                            hardware_revision: HardwareRevision::spec_new(p[2]),
                            update_impact,
                            capabilities: CapabilityFlags::spec_from_bits(rd64(p, 4)),
                            output_count: p[12],
                            fan_count: p[13],
                            external_temperature_capacity: p[14],
                        };
                        if descriptor.spec_validate() is Err {
                            Err(CodecError::Payload(PayloadError::InvalidDescriptor))
                        } else {
                            Ok(
                                NodeInfo {
                                    node,
                                    descriptor,
                                    partition_layout: p[15],
                                    firmware: rd_version(p, 16),
                                    bootloader: rd_version(p, 22),
                                },
                            )
                        }
                    },
                }
            },
        }
    }
}

pub fn decode_node_info_payload(node: u8, payload: &[u8]) -> (r: Result<NodeInfo, CodecError>)
    ensures
        r == spec_decode_node_info_payload(node, payload@),
{
    require_len(payload, 32)?;
    require_zero_range(payload, 28, 32)?;
    let role = match NodeRole::try_from(payload[0]) {
        Ok(role) => role,
        Err(error) => return Err(
            CodecError::Payload(PayloadError::InvalidValue { offset: 0, value: error.0 }),
        ),
    };
    let carrier_profile = if payload[1] == 0 {
        None
    } else {
        match CarrierProfile::try_from(payload[1]) {
            Ok(profile) => Some(profile),
            Err(error) => return Err(
                CodecError::Payload(PayloadError::InvalidValue { offset: 1, value: error.0 }),
            ),
        }
    };
    let hardware_revision = match HardwareRevision::new(payload[2]) {
        Ok(revision) => revision,
        Err(error) => return Err(
            CodecError::Payload(PayloadError::InvalidValue { offset: 2, value: error.0 }),
        ),
    };
    let update_impact = match UpdateImpact::try_from(payload[3]) {
        Ok(impact) => impact,
        Err(error) => return Err(
            CodecError::Payload(PayloadError::InvalidValue { offset: 3, value: error.0 }),
        ),
    };
    let descriptor = NodeDescriptor {
        role,
        carrier_profile,
        hardware_revision,
        update_impact,
        capabilities: CapabilityFlags::from_bits_retain(rd_u64(payload, 4)),
        output_count: payload[12],
        fan_count: payload[13],
        external_temperature_capacity: payload[14],
    };
    if descriptor.validate().is_err() {
        return Err(CodecError::Payload(PayloadError::InvalidDescriptor));
    }
    Ok(
        NodeInfo {
            node,
            descriptor,
            partition_layout: payload[15],
            firmware: read_version(payload, 16),
            bootloader: read_version(payload, 22),
        },
    )
}

/// The validity that the identifier types promise for a node identity.
pub open spec fn spec_node_info_valid(info: NodeInfo) -> bool {
    HardwareRevision::valid_raw(info.descriptor.hardware_revision.spec_get())
}

/// Every encodable node identity block decodes back to itself.
pub proof fn lemma_node_info_payload_round_trip(info: NodeInfo)
    requires
        spec_node_info_valid(info),
        spec_encode_node_info_payload(info) is Ok,
    ensures
        spec_decode_node_info_payload(info.node, spec_node_info_bytes(info)) == Ok::<
            NodeInfo,
            CodecError,
        >(info),
{
    let d = info.descriptor;
    let q0 = zeros(32).update(0, d.role.spec_code()).update(1, profile_byte(d.carrier_profile)).update(
        2,
        d.hardware_revision.spec_get(),
    ).update(3, d.update_impact.spec_code());
    let q1 = put64(q0, 4, d.capabilities.spec_bits());
    let q2 = q1.update(12, d.output_count).update(13, d.fan_count).update(
        14,
        d.external_temperature_capacity,
    ).update(15, info.partition_layout);
    let q3 = put_version(q2, 16, info.firmware);
    let p = spec_node_info_bytes(info);
    lemma_rd_put64(q0, 4, d.capabilities.spec_bits());
    lemma_rd_put_version(q2, 16, info.firmware);
    lemma_rd_put_version(q3, 22, info.bootloader);
    assert(rd64(p, 4) == rd64(q1, 4));
    assert(rd_version(p, 16) == rd_version(q3, 16));
    lemma_first_nonzero_none(p, 28, 32);
    match d.carrier_profile {
        Some(c) => {
            assert(CarrierProfile::from_code(c.spec_code()) == Some(c));
        },
        None => {},
    }
    assert(NodeRole::from_code(d.role.spec_code()) == Some(d.role));
    assert(UpdateImpact::from_code(d.update_impact.spec_code()) == Some(d.update_impact));
}

pub open spec fn spec_encode_node_info(info: NodeInfo) -> Result<(u32, Seq<u8>), CodecError> {
    if let Err(e) = spec_require_operational_node(info.node) {
        Err(e)
    } else {
        match spec_protocol_header(5, MessageClass::Management, info.node, 0x0F, 1) {
            Err(e) => Err(e),
            Ok(h) => match spec_encode_node_info_payload(info) {
                Err(e) => Err(e),
                Ok(p) => spec_frame(h, p),
            },
        }
    }
}

pub fn encode_node_info(info: NodeInfo) -> (r: Result<WireFrame, CodecError>)
    ensures
        frame_matches(r, spec_encode_node_info(info)),
{
    require_operational_node(info.node)?;
    let header = protocol_header(5, MessageClass::Management, info.node, NODE_TARGET, 1)?;
    let payload = encode_node_info_payload(info)?;
    finish_frame(header, payload.as_slice())
}

pub open spec fn spec_decode_node_info(id: u32, p: Seq<u8>) -> Result<NodeInfo, CodecError> {
    match spec_require_node_message(id, p, MessageClass::Management, 1, 5, 32) {
        Err(e) => Err(e),
        Ok(h) => spec_decode_node_info_payload(h.node, p),
    }
}

pub fn decode_node_info(id: ExtendedId, payload: &[u8]) -> (r: Result<NodeInfo, CodecError>)
    ensures
        r == spec_decode_node_info(id.spec_get(), payload@),
{
    let header = require_node_message(id, payload, MessageClass::Management, 1, 5, 32)?;
    decode_node_info_payload(header.node, payload)
}

/// Every node identity that can be encoded decodes back to itself.
pub proof fn lemma_node_info_round_trip(info: NodeInfo)
    requires
        spec_node_info_valid(info),
        spec_encode_node_info(info) is Ok,
    ensures
        spec_decode_node_info(spec_encode_node_info(info)->Ok_0.0, spec_encode_node_info(info)->Ok_0.1)
            == Ok::<NodeInfo, CodecError>(info),
{
    let h = Header {
        priority: 5,
        class: MessageClass::Management,
        node: info.node,
        target: 0x0F,
        requester: RequesterId::spec_new(0),
        opcode: 1,
    };
    lemma_header_round_trip(h);
    lemma_node_info_payload_round_trip(info);
}

#[derive(Clone, Copy, Debug, PartialEq, Eq)]
pub struct Heartbeat {
    pub node: u8,
    pub sequence: u16,
    pub service: ServiceState,
    pub update: UpdateState,
    pub faults: FaultFlags,
    pub uptime_seconds: u32,
}

pub open spec fn spec_heartbeat_payload(b: Heartbeat) -> Seq<u8> {
    put32(
        put32(
            put16(zeros(16), 0, b.sequence).update(2, b.service.spec_code()).update(3, b.update.spec_code()),
            4,
            b.faults.spec_bits(),
        ),
        8,
        b.uptime_seconds,
    )
}

pub open spec fn spec_encode_heartbeat(b: Heartbeat) -> Result<(u32, Seq<u8>), CodecError> {
    if let Err(e) = spec_require_operational_node(b.node) {
        Err(e)
    } else {
        match spec_protocol_header(5, MessageClass::Management, b.node, 0x0F, 0) {
            Err(e) => Err(e),
            Ok(h) => spec_frame(h, spec_heartbeat_payload(b)),
        }
    }
}

pub fn encode_heartbeat(heartbeat: Heartbeat) -> (r: Result<WireFrame, CodecError>)
    ensures
        frame_matches(r, spec_encode_heartbeat(heartbeat)),
{
    require_operational_node(heartbeat.node)?;
    let header = protocol_header(5, MessageClass::Management, heartbeat.node, NODE_TARGET, 0)?;
    let mut payload = vec![0u8; 16];
    put_u16(&mut payload, 0, heartbeat.sequence);
    payload.set(2, heartbeat.service.code());
    payload.set(3, heartbeat.update.code());
    put_u32(&mut payload, 4, heartbeat.faults.bits());
    put_u32(&mut payload, 8, heartbeat.uptime_seconds);
    assert(payload@ == spec_heartbeat_payload(heartbeat));
    finish_frame(header, payload.as_slice())
}

pub open spec fn spec_decode_heartbeat(id: u32, p: Seq<u8>) -> Result<Heartbeat, CodecError> {
    match spec_require_node_message(id, p, MessageClass::Management, 0, 5, 16) {
        Err(e) => Err(e),
        Ok(h) => if let Err(e) = spec_require_zero_range(p, 12, 16) {
            Err(e)
        } else {
            match ServiceState::from_code(p[2]) {
                None => Err(CodecError::Payload(PayloadError::InvalidValue { offset: 2, value: p[2] })),
                Some(service) => match UpdateState::from_code(p[3]) {
                    None => Err(CodecError::Payload(PayloadError::InvalidValue { offset: 3, value: p[3] })),
                    Some(update) => Ok(
                        Heartbeat {
                            node: h.node,
                            sequence: rd16(p, 0),
                            service,
                            update,
                            faults: FaultFlags::spec_from_bits(rd32(p, 4)),
                            uptime_seconds: rd32(p, 8),
                        },
                    ),
                },
            }
        },
    }
}

pub fn decode_heartbeat(id: ExtendedId, payload: &[u8]) -> (r: Result<Heartbeat, CodecError>)
    ensures
        r == spec_decode_heartbeat(id.spec_get(), payload@),
{
    let header = require_node_message(id, payload, MessageClass::Management, 0, 5, 16)?;
    require_zero_range(payload, 12, 16)?;
    let service = match ServiceState::try_from(payload[2]) {
        Ok(service) => service,
        Err(error) => return Err(
            CodecError::Payload(PayloadError::InvalidValue { offset: 2, value: error.0 }),
        ),
    };
    let update = match UpdateState::try_from(payload[3]) {
        Ok(update) => update,
        Err(error) => return Err(
            CodecError::Payload(PayloadError::InvalidValue { offset: 3, value: error.0 }),
        ),
    };
    Ok(
        Heartbeat {
            node: header.node,
            sequence: rd_u16(payload, 0),
            service,
            update,
            faults: FaultFlags::from_bits_retain(rd_u32(payload, 4)),
            uptime_seconds: rd_u32(payload, 8),
        },
    )
}

/// Every heartbeat that can be encoded decodes back to itself.
pub proof fn lemma_heartbeat_round_trip(b: Heartbeat)
    requires
        spec_encode_heartbeat(b) is Ok,
    ensures
        spec_decode_heartbeat(spec_encode_heartbeat(b)->Ok_0.0, spec_encode_heartbeat(b)->Ok_0.1)
            == Ok::<Heartbeat, CodecError>(b),
{
    let h = Header {
        priority: 5,
        class: MessageClass::Management,
        node: b.node,
        target: 0x0F,
        requester: RequesterId::spec_new(0),
        opcode: 0,
    };
    lemma_header_round_trip(h);
    let q0 = zeros(16);
    let q1 = put16(q0, 0, b.sequence).update(2, b.service.spec_code()).update(3, b.update.spec_code());
    let q2 = put32(q1, 4, b.faults.spec_bits());
    let p = spec_heartbeat_payload(b);
    lemma_rd_put16(q0, 0, b.sequence);
    lemma_rd_put32(q1, 4, b.faults.spec_bits());
    lemma_rd_put32(q2, 8, b.uptime_seconds);
    assert(rd16(p, 0) == rd16(put16(q0, 0, b.sequence), 0));
    assert(rd32(p, 4) == rd32(q2, 4));
    lemma_first_nonzero_none(p, 12, 16);
}

#[derive(Clone, Copy, Debug, PartialEq, Eq)]
pub struct BindingInfo {
    pub node: u8,
    pub binding: Option<CarrierBinding>,
}

pub open spec fn spec_binding_payload(info: BindingInfo) -> Seq<u8> {
    match info.binding {
        Some(b) => put_bytes(zeros(16).update(0, 1).update(1, b.slot.spec_get()), 4, b.backplane_uid.spec_bytes()),
        None => zeros(16).update(1, 0xFF),
    }
}

pub open spec fn spec_encode_binding(info: BindingInfo) -> Result<(u32, Seq<u8>), CodecError> {
    if let Err(e) = spec_require_operational_node(info.node) {
        Err(e)
    } else {
        match spec_protocol_header(5, MessageClass::Management, info.node, 0x0F, 2) {
            Err(e) => Err(e),
            Ok(h) => spec_frame(h, spec_binding_payload(info)),
        }
    }
}

pub fn encode_binding(info: BindingInfo) -> (r: Result<WireFrame, CodecError>)
    ensures
        frame_matches(r, spec_encode_binding(info)),
{
    require_operational_node(info.node)?;
    let header = protocol_header(5, MessageClass::Management, info.node, NODE_TARGET, 2)?;
    let mut payload = vec![0u8; 16];
    match info.binding {
        Some(binding) => {
            payload.set(0, 1);
            payload.set(1, binding.slot.get());
            put_slice(&mut payload, 4, binding.backplane_uid.as_bytes());
        },
        None => {
            payload.set(1, 0xFF);
        },
    }
    assert(payload@ == spec_binding_payload(info));
    finish_frame(header, payload.as_slice())
}

pub open spec fn spec_decode_binding(id: u32, p: Seq<u8>) -> Result<BindingInfo, CodecError> {
    match spec_require_node_message(id, p, MessageClass::Management, 2, 5, 16) {
        Err(e) => Err(e),
        Ok(h) => if let Err(e) = spec_require_bool(p[0], 0) {
            Err(e)
        } else if let Err(e) = spec_require_zero_range(p, 2, 4) {
            Err(e)
        } else if p[0] == 0 {
            if p[1] != 0xFF {
                Err(CodecError::Payload(PayloadError::InvalidValue { offset: 1, value: p[1] }))
            } else if let Err(e) = spec_require_zero_range(p, 4, 16) {
                Err(e)
            } else {
                Ok(BindingInfo { node: h.node, binding: None })
            }
        } else if p[1] > 0xFE {
            Err(CodecError::Payload(PayloadError::InvalidValue { offset: 1, value: p[1] }))
        } else {
            Ok(
                BindingInfo {
                    node: h.node,
                    binding: Some(
                        CarrierBinding { backplane_uid: rd_uid(p, 4), slot: SlotIndex::spec_new(p[1]) },
                    ),
                },
            )
        },
    }
}

pub fn decode_binding(id: ExtendedId, payload: &[u8]) -> (r: Result<BindingInfo, CodecError>)
    ensures
        r == spec_decode_binding(id.spec_get(), payload@),
{
    let header = require_node_message(id, payload, MessageClass::Management, 2, 5, 16)?;
    require_bool(payload[0], 0)?;
    require_zero_range(payload, 2, 4)?;
    let binding = if payload[0] == 0 {
        if payload[1] != 0xFF {
            return Err(
                CodecError::Payload(PayloadError::InvalidValue { offset: 1, value: payload[1] }),
            );
        }
        require_zero_range(payload, 4, 16)?;
        None
    } else {
        let backplane_uid = read_uid(payload, 4);
        let slot = match SlotIndex::new(payload[1]) {
            Ok(slot) => slot,
            Err(error) => return Err(
                CodecError::Payload(PayloadError::InvalidValue { offset: 1, value: error.0 }),
            ),
        };
        Some(CarrierBinding { backplane_uid, slot })
    };
    Ok(BindingInfo { node: header.node, binding })
}

/// Every binding report that can be encoded decodes back to itself.
pub proof fn lemma_binding_round_trip(info: BindingInfo)
    requires
        info.binding matches Some(b) ==> b.slot.spec_get() <= 0xFE,
        spec_encode_binding(info) is Ok,
    ensures
        spec_decode_binding(spec_encode_binding(info)->Ok_0.0, spec_encode_binding(info)->Ok_0.1)
            == Ok::<BindingInfo, CodecError>(info),
{
    let h = Header {
        priority: 5,
        class: MessageClass::Management,
        node: info.node,
        target: 0x0F,
        requester: RequesterId::spec_new(0),
        opcode: 2,
    };
    lemma_header_round_trip(h);
    let p = spec_binding_payload(info);
    lemma_first_nonzero_none(p, 2, 4);
    match info.binding {
        Some(b) => {
            assert(p.subrange(4, 16) =~= b.backplane_uid.spec_bytes());
            lemma_rd_uid(p, 4, b.backplane_uid);
        },
        None => {
            lemma_first_nonzero_none(p, 4, 16);
        },
    }
}

} // verus!
