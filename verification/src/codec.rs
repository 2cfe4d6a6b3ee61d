//! Codecs of the operational (non-commissioning, non-firmware) messages.
use vstd::prelude::*;
use crate::types::{
    group_type_lemmas, CarrierBinding, CarrierPolicy, FanConfig, FanId, FaultFlags, NodeId,
    NodeUid, PdLimits, RequestId, RequesterId, ServiceState, SlotIndex,
};
use crate::wire::{
    lemma_first_nonzero_none, put32, put64, put_bytes, put_slice, put_u32, put_u64, rd32, rd64,
    rd_u32, zeros,
};
use crate::protocol::{
    control_opcode, group_id_lemmas, lemma_header_round_trip, lemma_rd_uid, read_request_id,
    read_uid, rd_uid, require_bool, require_host_requester, require_len, require_operational_node,
    require_priority, require_target, require_zero_range, spec_frame_check, spec_header_decode,
    spec_header_encode, spec_header_new, spec_read_request_id, spec_require_bool,
    spec_require_host_requester, spec_require_len, spec_require_operational_node,
    spec_require_priority, spec_require_target, spec_require_zero_range, CodecError, ExtendedId,
    FrameError, Header, InvalidHeader, MessageClass, PayloadError, WireFrame, NODE_TARGET,
};

verus! {

broadcast use {group_type_lemmas, group_id_lemmas};

/// Whether an encoder's result is the frame (identifier and payload) or the error that `s` names.
pub open spec fn frame_matches(
    r: Result<WireFrame, CodecError>,
    s: Result<(u32, Seq<u8>), CodecError>,
) -> bool {
    match s {
        Ok((id, p)) => r matches Ok(f) && f.spec_id().spec_get() == id && f.spec_payload() == p,
        Err(e) => r == Err::<WireFrame, CodecError>(e),
    }
}

/// The frame that carries payload `p` under header `h`.
pub open spec fn spec_frame(h: Header, p: Seq<u8>) -> Result<(u32, Seq<u8>), CodecError> {
    match spec_frame_check(p) {
        None => Ok((spec_header_encode(h), p)),
        Some(e) => Err(CodecError::InvalidFrame(e)),
    }
}

pub fn finish_frame(h: Header, p: &[u8]) -> (r: Result<WireFrame, CodecError>)
    ensures
        frame_matches(r, spec_frame(h, p@)),
{
    match WireFrame::new(h.encode(), p) {
        Ok(f) => Ok(f),
        Err(e) => Err(CodecError::InvalidFrame(e)),
    }
}

pub open spec fn lift_header(r: Result<Header, InvalidHeader>) -> Result<Header, CodecError> {
    match r {
        Ok(h) => Ok(h),
        Err(e) => Err(CodecError::InvalidHeader(e)),
    }
}

pub fn new_header(
    priority: u8,
    class: MessageClass,
    node: u8,
    target: u8,
    requester: RequesterId,
    opcode: u8,
) -> (r: Result<Header, CodecError>)
    ensures
        r == lift_header(spec_header_new(priority, class, node, target, requester, opcode)),
{
    match Header::new(priority, class, node, target, requester, opcode) {
        Ok(h) => Ok(h),
        Err(e) => Err(CodecError::InvalidHeader(e)),
    }
}

pub fn decode_id(id: ExtendedId) -> (r: Result<Header, CodecError>)
    ensures
        r == lift_header(spec_header_decode(id.spec_get())),
{
    match Header::decode(id) {
        Ok(h) => Ok(h),
        Err(e) => Err(CodecError::InvalidHeader(e)),
    }
}

/// A header for protocol-originated traffic (requester zero).
pub open spec fn spec_protocol_header(
    priority: u8,
    class: MessageClass,
    node: u8,
    target: u8,
    opcode: u8,
) -> Result<Header, CodecError> {
    lift_header(spec_header_new(priority, class, node, target, RequesterId::spec_new(0), opcode))
}

pub fn protocol_header(priority: u8, class: MessageClass, node: u8, target: u8, opcode: u8) -> (r:
    Result<Header, CodecError>)
    ensures
        r == spec_protocol_header(priority, class, node, target, opcode),
{
    new_header(priority, class, node, target, RequesterId::PROTOCOL(), opcode)
}

pub open spec fn spec_require_class(header: Header, expected: MessageClass) -> Result<(), CodecError> {
    if header.class == expected {
        Ok(())
    } else {
        Err(CodecError::UnexpectedClass(header.class.spec_code()))
    }
}

pub fn require_class(header: Header, expected: MessageClass) -> (r: Result<(), CodecError>)
    ensures
        r == spec_require_class(header, expected),
{
    if header.class == expected {
        Ok(())
    } else {
        Err(CodecError::UnexpectedClass(header.class.code()))
    }
}

pub open spec fn spec_require_opcode(header: Header, opcode: u8) -> Result<(), CodecError> {
    if header.opcode == opcode {
        Ok(())
    } else {
        Err(CodecError::UnknownOpcode(header.opcode))
    }
}

pub fn require_opcode(header: Header, opcode: u8) -> (r: Result<(), CodecError>)
    ensures
        r == spec_require_opcode(header, opcode),
{
    if header.opcode == opcode {
        Ok(())
    } else {
        Err(CodecError::UnknownOpcode(header.opcode))
    }
}

/// Class, opcode, priority and the protocol requester of node-originated traffic.
pub open spec fn spec_require_protocol_header(
    header: Header,
    class: MessageClass,
    opcode: u8,
    priority: u8,
) -> Result<(), CodecError> {
    if let Err(e) = spec_require_class(header, class) {
        Err(e)
    } else if let Err(e) = spec_require_opcode(header, opcode) {
        Err(e)
    } else if let Err(e) = spec_require_priority(header.priority, priority) {
        Err(e)
    } else {
        crate::protocol::spec_require_protocol_requester(header.requester)
    }
}

pub fn require_protocol_header(header: Header, class: MessageClass, opcode: u8, priority: u8) -> (r:
    Result<(), CodecError>)
    ensures
        r == spec_require_protocol_header(header, class, opcode, priority),
{
    require_class(header, class)?;
    require_opcode(header, opcode)?;
    require_priority(header.priority, priority)?;
    crate::protocol::require_protocol_requester(header.requester)
}

/// The shared checks of a node-originated, node-targeted message.
pub open spec fn spec_require_node_message(
    id: u32,
    payload: Seq<u8>,
    class: MessageClass,
    opcode: u8,
    priority: u8,
    len: u8,
) -> Result<Header, CodecError> {
    match lift_header(spec_header_decode(id)) {
        Err(e) => Err(e),
        Ok(header) => if let Err(e) = spec_require_protocol_header(header, class, opcode, priority) {
            Err(e)
        } else if let Err(e) = spec_require_operational_node(header.node) {
            Err(e)
        } else if let Err(e) = spec_require_target(header.target, 0x0F) {
            Err(e)
        } else if let Err(e) = spec_require_len(payload, len) {
            Err(e)
        } else {
            Ok(header)
        },
    }
}

pub fn require_node_message(
    id: ExtendedId,
    payload: &[u8],
    class: MessageClass,
    opcode: u8,
    priority: u8,
    len: u8,
) -> (r: Result<Header, CodecError>)
    requires
        len < 255,
    ensures
        r == spec_require_node_message(id.spec_get(), payload@, class, opcode, priority, len),
        r is Ok ==> payload@.len() == len,
{
    let header = decode_id(id)?;
    require_protocol_header(header, class, opcode, priority)?;
    require_operational_node(header.node)?;
    require_target(header.target, NODE_TARGET)?;
    require_len(payload, len)?;
    Ok(header)
}

/// The shared checks of a node-originated answer to a host requester.
pub open spec fn spec_require_node_message_scoped(
    id: u32,
    payload: Seq<u8>,
    class: MessageClass,
    opcode: u8,
    priority: u8,
    len: u8,
) -> Result<Header, CodecError> {
    match lift_header(spec_header_decode(id)) {
        Err(e) => Err(e),
        Ok(header) => if let Err(e) = spec_require_class(header, class) {
            Err(e)
        } else if let Err(e) = spec_require_opcode(header, opcode) {
            Err(e)
        } else if let Err(e) = spec_require_priority(header.priority, priority) {
            Err(e)
        } else if let Err(e) = spec_require_operational_node(header.node) {
            Err(e)
        } else if let Err(e) = spec_require_target(header.target, 0x0F) {
            Err(e)
        } else if let Err(e) = spec_require_host_requester(header.requester) {
            Err(e)
        } else if let Err(e) = spec_require_len(payload, len) {
            Err(e)
        } else {
            Ok(header)
        },
    }
}

pub fn require_node_message_scoped(
    id: ExtendedId,
    payload: &[u8],
    class: MessageClass,
    opcode: u8,
    priority: u8,
    len: u8,
) -> (r: Result<Header, CodecError>)
    requires
        len < 255,
    ensures
        r == spec_require_node_message_scoped(id.spec_get(), payload@, class, opcode, priority, len),
        r is Ok ==> payload@.len() == len,
{
    let header = decode_id(id)?;
    require_class(header, class)?;
    require_opcode(header, opcode)?;
    require_priority(header.priority, priority)?;
    require_operational_node(header.node)?;
    require_target(header.target, NODE_TARGET)?;
    require_host_requester(header.requester)?;
    require_len(payload, len)?;
    Ok(header)
}

/// A host-requested control action, before it is addressed.
#[derive(Clone, Copy, Debug, PartialEq, Eq)]
pub enum ControlCommand {
    EmergencyDisable,
    SetCarrierPolicy(CarrierPolicy),
    AcknowledgeEmergency,
    RequestStatus,
    SetFan { fan: FanId, config: FanConfig },
    SetBinding(Option<CarrierBinding>),
}

impl ControlCommand {
    pub open spec fn spec_opcode(self) -> u8 {
        match self {
            ControlCommand::EmergencyDisable => 0,
            ControlCommand::SetCarrierPolicy(_) => 1,
            ControlCommand::AcknowledgeEmergency => 2,
            ControlCommand::RequestStatus => 3,
            ControlCommand::SetFan { .. } => 4,
            ControlCommand::SetBinding(_) => 5,
        }
    }

    pub fn opcode(self) -> (r: u8)
        ensures
            r == self.spec_opcode(),
    {
        match self {
            ControlCommand::EmergencyDisable => control_opcode::EMERGENCY_DISABLE,
            ControlCommand::SetCarrierPolicy(_) => control_opcode::SET_CARRIER_POLICY,
            ControlCommand::AcknowledgeEmergency => control_opcode::ACKNOWLEDGE_EMERGENCY,
            ControlCommand::RequestStatus => control_opcode::REQUEST_STATUS,
            ControlCommand::SetFan { .. } => control_opcode::SET_FAN,
            ControlCommand::SetBinding(_) => control_opcode::SET_BINDING,
        }
    }
}

#[derive(Clone, Copy, Debug, PartialEq, Eq)]
pub struct ControlRequest {
    pub node: u8,
    pub requester: RequesterId,
    pub request_id: RequestId,
    pub command: ControlCommand,
}

pub open spec fn bool_byte(b: bool) -> u8 {
    if b {
        1
    } else {
        0
    }
}

pub fn bool_u8(b: bool) -> (r: u8)
    ensures
        r == bool_byte(b),
{
    if b {
        1
    } else {
        0
    }
}

/// The 24-byte control payload before it is cut to the command's length.
pub open spec fn spec_control_body(request_id: RequestId, command: ControlCommand) -> Seq<u8> {
    let p = put64(zeros(24), 0, request_id.0);
    match command {
        ControlCommand::SetCarrierPolicy(policy) => {
            let p = p.update(8, bool_byte(policy.enabled));
            match policy.pd_limits {
                Some(limits) => put32(
                    put32(put32(p.update(9, 1), 12, limits.max_voltage_mv), 16, limits.max_current_ma),
                    20,
                    limits.max_power_mw,
                ),
                None => p,
            }
        },
        ControlCommand::SetFan { config, .. } => p.update(8, config.duty_percent),
        ControlCommand::SetBinding(binding) => match binding {
            Some(b) => put_bytes(p.update(8, 1).update(9, b.slot.spec_get()), 12, b.backplane_uid.spec_bytes()),
            None => p.update(9, 0xFF),
        },
        _ => p,
    }
}

pub open spec fn control_len(command: ControlCommand) -> int {
    match command {
        ControlCommand::SetCarrierPolicy(_) => 24,
        ControlCommand::SetFan { .. } => 12,
        ControlCommand::SetBinding(_) => 24,
        _ => 8,
    }
}

/// The frame of a control request, or why it cannot be sent.
pub open spec fn spec_encode_control_request(request: ControlRequest) -> Result<
    (u32, Seq<u8>),
    CodecError,
> {
    let is_emergency = request.command is EmergencyDisable;
    if let Err(e) = spec_require_host_requester(request.requester) {
        Err(e)
    } else if (!is_emergency || request.node != 0) && !NodeId::valid_raw(request.node) {
        Err(CodecError::InvalidHeader(InvalidHeader::Node(request.node)))
    } else {
        let target: u8 = match request.command {
            ControlCommand::SetFan { fan, .. } => fan.spec_get(),
            _ => 0x0F,
        };
        match lift_header(
            spec_header_new(
                if is_emergency {
                    0
                } else {
                    1
                },
                MessageClass::Control,
                request.node,
                target,
                request.requester,
                request.command.spec_opcode(),
            ),
        ) {
            Err(e) => Err(e),
            Ok(header) => match request.command {
                ControlCommand::SetFan { config, .. } if config.duty_percent > 100 => Err(
                    CodecError::Payload(
                        PayloadError::InvalidValue { offset: 8, value: config.duty_percent },
                    ),
                ),
                _ => spec_frame(
                    header,
                    spec_control_body(request.request_id, request.command).take(
                        control_len(request.command),
                    ),
                ),
            },
        }
    }
}

pub fn encode_control_request(request: ControlRequest) -> (r: Result<WireFrame, CodecError>)
    ensures
        frame_matches(r, spec_encode_control_request(request)),
{
    require_host_requester(request.requester)?;
    let is_emergency = match request.command {
        ControlCommand::EmergencyDisable => true,
        _ => false,
    };
    if is_emergency {
        if request.node != 0 {
            require_operational_node(request.node)?;
        }
    } else {
        require_operational_node(request.node)?;
    }
    let target = match request.command {
        ControlCommand::SetFan { fan, .. } => fan.get(),
        _ => NODE_TARGET,
    };
    let header = new_header(
        if is_emergency {
            0
        } else {
            1
        },
        MessageClass::Control,
        request.node,
        target,
        request.requester,
        request.command.opcode(),
    )?;
    let mut payload = vec![0u8; 24];
    put_u64(&mut payload, 0, request.request_id.0);
    let len: usize = match request.command {
        ControlCommand::EmergencyDisable | ControlCommand::AcknowledgeEmergency
        | ControlCommand::RequestStatus => 8,
        ControlCommand::SetCarrierPolicy(policy) => {
            payload.set(8, bool_u8(policy.enabled));
            match policy.pd_limits {
                Some(limits) => {
                    payload.set(9, 1);
                    put_u32(&mut payload, 12, limits.max_voltage_mv);
                    put_u32(&mut payload, 16, limits.max_current_ma);
                    put_u32(&mut payload, 20, limits.max_power_mw);
                },
                None => {},
            }
            24
        },
        ControlCommand::SetFan { config, .. } => {
            if config.validate().is_err() {
                return Err(
                    CodecError::Payload(
                        PayloadError::InvalidValue { offset: 8, value: config.duty_percent },
                    ),
                );
            }
            payload.set(8, config.duty_percent);
            12
        },
        ControlCommand::SetBinding(binding) => {
            match binding {
                Some(b) => {
                    payload.set(8, 1);
                    payload.set(9, b.slot.get());
                    put_slice(&mut payload, 12, b.backplane_uid.as_bytes());
                },
                None => {
                    payload.set(9, 0xFF);
                },
            }
            24
        },
    };
    assert(payload@ == spec_control_body(request.request_id, request.command));
    finish_frame(header, vstd::slice::slice_subrange(payload.as_slice(), 0, len))
}

/// The checks of a control header that addresses a whole node.
pub open spec fn spec_require_standard_control_header(header: Header) -> Result<(), CodecError> {
    if let Err(e) = spec_require_priority(header.priority, 1) {
        Err(e)
    } else if let Err(e) = spec_require_operational_node(header.node) {
        Err(e)
    } else {
        spec_require_target(header.target, 0x0F)
    }
}

pub fn require_standard_control_header(header: Header) -> (r: Result<(), CodecError>)
    ensures
        r == spec_require_standard_control_header(header),
{
    require_priority(header.priority, 1)?;
    require_operational_node(header.node)?;
    require_target(header.target, NODE_TARGET)
}

/// The command that a control payload of a known opcode carries.
pub open spec fn spec_decode_control_command(header: Header, p: Seq<u8>) -> Result<
    ControlCommand,
    CodecError,
> {
    if header.opcode == 0 {
        if let Err(e) = spec_require_priority(header.priority, 0) {
            Err(e)
        } else if let Err(e) = spec_require_target(header.target, 0x0F) {
            Err(e)
        } else if let Err(e) = spec_require_len(p, 8) {
            Err(e)
        } else if header.node != 0 && !NodeId::valid_raw(header.node) {
            Err(CodecError::InvalidHeader(InvalidHeader::Node(header.node)))
        } else {
            Ok(ControlCommand::EmergencyDisable)
        }
    } else if header.opcode == 1 {
        if let Err(e) = spec_require_standard_control_header(header) {
            Err(e)
        } else if let Err(e) = spec_require_len(p, 24) {
            Err(e)
        } else if let Err(e) = spec_require_bool(p[8], 8) {
            Err(e)
        } else if let Err(e) = spec_require_bool(p[9], 9) {
            Err(e)
        } else if let Err(e) = spec_require_zero_range(p, 10, 12) {
            Err(e)
        } else if p[9] == 0 {
            if let Err(e) = spec_require_zero_range(p, 12, 24) {
                Err(e)
            } else {
                Ok(ControlCommand::SetCarrierPolicy(CarrierPolicy { enabled: p[8] != 0, pd_limits: None }))
            }
        } else {
            Ok(
                ControlCommand::SetCarrierPolicy(
                    CarrierPolicy {
                        enabled: p[8] != 0,
                        pd_limits: Some(
                            PdLimits {
                                max_voltage_mv: rd32(p, 12),
                                max_current_ma: rd32(p, 16),
                                max_power_mw: rd32(p, 20),
                            },
                        ),
                    },
                ),
            )
        }
    } else if header.opcode == 2 || header.opcode == 3 {
        if let Err(e) = spec_require_standard_control_header(header) {
            Err(e)
        } else if let Err(e) = spec_require_len(p, 8) {
            Err(e)
        } else if header.opcode == 2 {
            Ok(ControlCommand::AcknowledgeEmergency)
        } else {
            Ok(ControlCommand::RequestStatus)
        }
    } else if header.opcode == 4 {
        if let Err(e) = spec_require_priority(header.priority, 1) {
            Err(e)
        } else if let Err(e) = spec_require_operational_node(header.node) {
            Err(e)
        } else if let Err(e) = spec_require_len(p, 12) {
            Err(e)
        } else if let Err(e) = spec_require_zero_range(p, 9, 12) {
            Err(e)
        } else if header.target > 1 {
            Err(CodecError::Payload(PayloadError::InvalidFanId(header.target)))
        } else if p[8] > 100 {
            Err(CodecError::Payload(PayloadError::InvalidValue { offset: 8, value: p[8] }))
        } else {
            Ok(
                ControlCommand::SetFan {
                    fan: FanId::spec_new(header.target),
                    config: FanConfig { duty_percent: p[8] },
                },
            )
        }
    } else if header.opcode == 5 {
        if let Err(e) = spec_require_standard_control_header(header) {
            Err(e)
        } else if let Err(e) = spec_require_len(p, 24) {
            Err(e)
        } else if let Err(e) = spec_require_bool(p[8], 8) {
            Err(e)
        } else if let Err(e) = spec_require_zero_range(p, 10, 12) {
            Err(e)
        } else if p[8] == 0 {
            if p[9] != 0xFF {
                Err(CodecError::Payload(PayloadError::InvalidValue { offset: 9, value: p[9] }))
            } else if let Err(e) = spec_require_zero_range(p, 12, 24) {
                Err(e)
            } else {
                Ok(ControlCommand::SetBinding(None))
            }
        } else if p[9] > 0xFE {
            Err(CodecError::Payload(PayloadError::InvalidValue { offset: 9, value: p[9] }))
        } else {
            Ok(
                ControlCommand::SetBinding(
                    Some(
                        CarrierBinding {
                            backplane_uid: rd_uid(p, 12),
                            slot: SlotIndex::spec_new(p[9]),
                        },
                    ),
                ),
            )
        }
    } else {
        Err(CodecError::UnknownOpcode(header.opcode))
    }
}

/// The control request that a frame carries, or why it carries none.
pub open spec fn spec_decode_control_request(id: u32, p: Seq<u8>) -> Result<
    ControlRequest,
    CodecError,
> {
    match lift_header(spec_header_decode(id)) {
        Err(e) => Err(e),
        Ok(header) => if let Err(e) = spec_require_class(header, MessageClass::Control) {
            Err(e)
        } else if let Err(e) = spec_require_host_requester(header.requester) {
            Err(e)
        } else {
            match spec_read_request_id(p) {
                Err(e) => Err(e),
                Ok(request_id) => match spec_decode_control_command(header, p) {
                    Err(e) => Err(e),
                    Ok(command) => Ok(
                        ControlRequest {
                            node: header.node,
                            requester: header.requester,
                            request_id,
                            command,
                        },
                    ),
                },
            }
        },
    }
}

pub fn decode_control_request(id: ExtendedId, payload: &[u8]) -> (r: Result<
    ControlRequest,
    CodecError,
>)
    ensures
        r == spec_decode_control_request(id.spec_get(), payload@),
{
    let header = decode_id(id)?;
    require_class(header, MessageClass::Control)?;
    require_host_requester(header.requester)?;
    let request_id = read_request_id(payload)?;
    let command = match header.opcode {
        0 => {
            require_priority(header.priority, 0)?;
            require_target(header.target, NODE_TARGET)?;
            require_len(payload, 8)?;
            if header.node != 0 {
                require_operational_node(header.node)?;
            }
            ControlCommand::EmergencyDisable
        },
        1 => {
            require_standard_control_header(header)?;
            require_len(payload, 24)?;
            require_bool(payload[8], 8)?;
            require_bool(payload[9], 9)?;
            require_zero_range(payload, 10, 12)?;
            let pd_limits = if payload[9] == 0 {
                require_zero_range(payload, 12, 24)?;
                None
            } else {
                Some(
                    PdLimits {
                        max_voltage_mv: rd_u32(payload, 12),
                        max_current_ma: rd_u32(payload, 16),
                        max_power_mw: rd_u32(payload, 20),
                    },
                )
            };
            ControlCommand::SetCarrierPolicy(CarrierPolicy { enabled: payload[8] != 0, pd_limits })
        },
        2 => {
            require_standard_control_header(header)?;
            require_len(payload, 8)?;
            ControlCommand::AcknowledgeEmergency
        },
        3 => {
            require_standard_control_header(header)?;
            require_len(payload, 8)?;
            ControlCommand::RequestStatus
        },
        4 => {
            require_priority(header.priority, 1)?;
            require_operational_node(header.node)?;
            require_len(payload, 12)?;
            require_zero_range(payload, 9, 12)?;
            let fan = match FanId::new(header.target) {
                Ok(fan) => fan,
                Err(error) => return Err(CodecError::Payload(PayloadError::InvalidFanId(error.0))),
            };
            let config = FanConfig { duty_percent: payload[8] };
            if config.validate().is_err() {
                return Err(
                    CodecError::Payload(PayloadError::InvalidValue { offset: 8, value: payload[8] }),
                );
            }
            ControlCommand::SetFan { fan, config }
        },
        5 => {
            require_standard_control_header(header)?;
            require_len(payload, 24)?;
            require_bool(payload[8], 8)?;
            require_zero_range(payload, 10, 12)?;
            let binding = if payload[8] == 0 {
                if payload[9] != 0xFF {
                    return Err(
                        CodecError::Payload(
                            PayloadError::InvalidValue { offset: 9, value: payload[9] },
                        ),
                    );
                }
                require_zero_range(payload, 12, 24)?;
                None
            } else {
                let backplane_uid = read_uid(payload, 12);
                let slot = match SlotIndex::new(payload[9]) {
                    Ok(slot) => slot,
                    Err(error) => return Err(
                        CodecError::Payload(PayloadError::InvalidValue { offset: 9, value: error.0 }),
                    ),
                };
                Some(CarrierBinding { backplane_uid, slot })
            };
            ControlCommand::SetBinding(binding)
        },
        opcode => {
            return Err(CodecError::UnknownOpcode(opcode));
        },
    };
    Ok(ControlRequest { node: header.node, requester: header.requester, request_id, command })
}

/// The validity that the identifier types promise: a 4-bit requester, a fan
/// index of 0 or 1 and a slot index other than the unbound marker.
pub open spec fn spec_control_request_valid(request: ControlRequest) -> bool {
    &&& request.requester.spec_get() <= 15
    &&& match request.command {
        ControlCommand::SetFan { fan, .. } => fan.spec_get() <= 1,
        ControlCommand::SetBinding(Some(b)) => b.slot.spec_get() <= 0xFE,
        _ => true,
    }
}

/// Every control request that can be encoded decodes back to itself.
pub proof fn lemma_control_request_round_trip(request: ControlRequest)
    requires
        spec_control_request_valid(request),
        spec_encode_control_request(request) is Ok,
    ensures
        spec_decode_control_request(
            spec_encode_control_request(request)->Ok_0.0,
            spec_encode_control_request(request)->Ok_0.1,
        ) == Ok::<ControlRequest, CodecError>(request),
{
    let is_emergency = request.command is EmergencyDisable;
    let target: u8 = match request.command {
        ControlCommand::SetFan { fan, .. } => fan.spec_get(),
        _ => 0x0F,
    };
    let h = Header {
        priority: if is_emergency {
            0
        } else {
            1
        },
        class: MessageClass::Control,
        node: request.node,
        target,
        requester: request.requester,
        opcode: request.command.spec_opcode(),
    };
    lemma_header_round_trip(h);
    let body = spec_control_body(request.request_id, request.command);
    let p = body.take(control_len(request.command));
    let base = put64(zeros(24), 0, request.request_id.0);
    crate::wire::lemma_rd_put64(zeros(24), 0, request.request_id.0);
    assert(rd64(p, 0) == rd64(base, 0));
    match request.command {
        ControlCommand::SetCarrierPolicy(policy) => {
            let q = base.update(8, bool_byte(policy.enabled));
            match policy.pd_limits {
                Some(limits) => {
                    let q1 = q.update(9, 1);
                    let q2 = put32(q1, 12, limits.max_voltage_mv);
                    let q3 = put32(q2, 16, limits.max_current_ma);
                    crate::wire::lemma_rd_put32(q1, 12, limits.max_voltage_mv);
                    crate::wire::lemma_rd_put32(q2, 16, limits.max_current_ma);
                    crate::wire::lemma_rd_put32(q3, 20, limits.max_power_mw);
                    assert(rd32(p, 12) == rd32(q2, 12));
                    assert(rd32(p, 16) == rd32(q3, 16));
                    lemma_first_nonzero_none(p, 10, 12);
                },
                None => {
                    lemma_first_nonzero_none(p, 10, 12);
                    lemma_first_nonzero_none(p, 12, 24);
                },
            }
        },
        ControlCommand::SetFan { fan, config } => {
            lemma_first_nonzero_none(p, 9, 12);
        },
        ControlCommand::SetBinding(binding) => {
            lemma_first_nonzero_none(p, 10, 12);
            match binding {
                Some(b) => {
                    let q = base.update(8, 1).update(9, b.slot.spec_get());
                    assert(p.subrange(12, 24) =~= b.backplane_uid.spec_bytes());
                    lemma_rd_uid(p, 12, b.backplane_uid);
                },
                None => {
                    lemma_first_nonzero_none(p, 12, 24);
                },
            }
        },
        _ => {},
    }
}

} // verus!
