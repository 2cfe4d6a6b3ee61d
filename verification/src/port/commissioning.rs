//! The first-generation commissioning codec: the same UID-addressed
//! messages and token-carrying identifiers as the current protocol, with the
//! backpack's 32-byte discovery response (firmware version, raw hardware
//! revision and port mask) and its sixteen command results.
use vstd::prelude::*;
use crate::types::{
    group_type_lemmas, CommissioningState, FirmwareVersion, NodeId, NodeUid, RequestId, RequesterId,
};
use crate::wire::{
    lemma_rd_put16, lemma_rd_put64, put16, put64, put_bytes, put_slice, put_u16, put_u64,
    rd16, rd64, rd_u16, rd_u64, zeros,
};
use crate::protocol::{
    decode_commissioning_state, decode_node, encode_node, group_id_lemmas, lemma_rd_uid,
    node_byte, rd_uid, read_request_id, read_uid, require_host_requester, require_len,
    require_priority, require_protocol_requester, require_token, require_zero_range,
    spec_decode_commissioning_state, spec_decode_node, spec_require_host_requester,
    spec_require_len, spec_require_priority, spec_require_protocol_requester, spec_require_token,
    spec_require_zero_range, CodecError, ExtendedId, PayloadError, WireFrame,
};
use crate::wire::lemma_first_nonzero_none;
use crate::codec::frame_matches;
use crate::commissioning::{
    commissioning_token, lemma_commissioning_header_round_trip, node_claim_token,
    spec_commissioning_header_decode, spec_commissioning_header_encode,
    spec_commissioning_header_new, spec_commissioning_token, spec_node_claim_token,
    CommissioningHeader,
};

verus! {

broadcast use {group_type_lemmas, group_id_lemmas};

/// The protocol version a first-generation backpack announces.
pub const PROTOCOL_MAJOR: u8 = 0;
pub const PROTOCOL_MINOR: u8 = 1;

/// The outcome a backpack reports for a request.
#[derive(Clone, Copy, Debug, PartialEq, Eq, Structural)]
pub enum CommandResult {
    Success,
    SuccessPending,
    InvalidArgument,
    InvalidTarget,
    Unsupported,
    Busy,
    NoModule,
    NotReady,
    I2cError,
    PdControllerError,
    Timeout,
    VerifyFailed,
    AddressConflict,
    PersistFailed,
    EmergencyLatched,
    InternalError,
}

impl CommandResult {
    pub open spec fn spec_code(self) -> u8 {
        match self {
            CommandResult::Success => 0,
            CommandResult::SuccessPending => 1,
            CommandResult::InvalidArgument => 2,
            CommandResult::InvalidTarget => 3,
            CommandResult::Unsupported => 4,
            CommandResult::Busy => 5,
            CommandResult::NoModule => 6,
            CommandResult::NotReady => 7,
            CommandResult::I2cError => 8,
            CommandResult::PdControllerError => 9,
            CommandResult::Timeout => 10,
            CommandResult::VerifyFailed => 11,
            CommandResult::AddressConflict => 12,
            CommandResult::PersistFailed => 13,
            CommandResult::EmergencyLatched => 14,
            CommandResult::InternalError => 15,
        }
    }

    pub open spec fn from_code(value: u8) -> Option<CommandResult> {
        if value == 0 {
            Some(CommandResult::Success)
        } else        if value == 1 {
            Some(CommandResult::SuccessPending)
        } else        if value == 2 {
            Some(CommandResult::InvalidArgument)
        } else        if value == 3 {
            Some(CommandResult::InvalidTarget)
        } else        if value == 4 {
            Some(CommandResult::Unsupported)
        } else        if value == 5 {
            Some(CommandResult::Busy)
        } else        if value == 6 {
            Some(CommandResult::NoModule)
        } else        if value == 7 {
            Some(CommandResult::NotReady)
        } else        if value == 8 {
            Some(CommandResult::I2cError)
        } else        if value == 9 {
            Some(CommandResult::PdControllerError)
        } else        if value == 10 {
            Some(CommandResult::Timeout)
        } else        if value == 11 {
            Some(CommandResult::VerifyFailed)
        } else        if value == 12 {
            Some(CommandResult::AddressConflict)
        } else        if value == 13 {
            Some(CommandResult::PersistFailed)
        } else        if value == 14 {
            Some(CommandResult::EmergencyLatched)
        } else        if value == 15 {
            Some(CommandResult::InternalError)
        } else {
            None
        }
    }

    pub fn code(self) -> (r: u8)
        ensures
            r == self.spec_code(),
            CommandResult::from_code(r) == Some(self),
    {
        match self {
            CommandResult::Success => 0,
            CommandResult::SuccessPending => 1,
            CommandResult::InvalidArgument => 2,
            CommandResult::InvalidTarget => 3,
            CommandResult::Unsupported => 4,
            CommandResult::Busy => 5,
            CommandResult::NoModule => 6,
            CommandResult::NotReady => 7,
            CommandResult::I2cError => 8,
            CommandResult::PdControllerError => 9,
            CommandResult::Timeout => 10,
            CommandResult::VerifyFailed => 11,
            CommandResult::AddressConflict => 12,
            CommandResult::PersistFailed => 13,
            CommandResult::EmergencyLatched => 14,
            CommandResult::InternalError => 15,
        }
    }

    pub fn try_from(value: u8) -> (r: Result<CommandResult, PayloadError>)
        ensures
            r == (match CommandResult::from_code(value) {
                Some(v) => Ok::<CommandResult, PayloadError>(v),
                None => Err(PayloadError::InvalidValue { offset: 10, value: value }),
            }),
    {
        match value {
            0 => Ok(CommandResult::Success),
            1 => Ok(CommandResult::SuccessPending),
            2 => Ok(CommandResult::InvalidArgument),
            3 => Ok(CommandResult::InvalidTarget),
            4 => Ok(CommandResult::Unsupported),
            5 => Ok(CommandResult::Busy),
            6 => Ok(CommandResult::NoModule),
            7 => Ok(CommandResult::NotReady),
            8 => Ok(CommandResult::I2cError),
            9 => Ok(CommandResult::PdControllerError),
            10 => Ok(CommandResult::Timeout),
            11 => Ok(CommandResult::VerifyFailed),
            12 => Ok(CommandResult::AddressConflict),
            13 => Ok(CommandResult::PersistFailed),
            14 => Ok(CommandResult::EmergencyLatched),
            15 => Ok(CommandResult::InternalError),
            _ => Err(PayloadError::InvalidValue { offset: 10, value }),
        }
    }
}

#[derive(Clone, Copy, Debug, PartialEq, Eq)]
pub struct DiscoveryInfo {
    pub uid: NodeUid,
    pub node_id: Option<NodeId>,
    pub state: CommissioningState,
    pub protocol_major: u8,
    pub protocol_minor: u8,
    pub firmware: FirmwareVersion,
    /// The raw revision, so that an older host can report an unknown one
    /// instead of refusing the response.
    pub hardware_revision: u8,
    pub supported_ports: u8,
}

#[derive(Clone, Copy, Debug, PartialEq, Eq)]
pub enum CommissioningMessage {
    NodeClaim { uid: NodeUid, node_id: NodeId, state: CommissioningState, claim_nonce: u16 },
    Discover { nonce: u64 },
    DiscoveryResponse { nonce: u64, info: DiscoveryInfo },
    Identify { request_id: RequestId, uid: NodeUid, duration_seconds: u16 },
    AssignNode { request_id: RequestId, uid: NodeUid, node_id: NodeId },
    ClearNode { request_id: RequestId, uid: NodeUid },
    Result {
        request_id: RequestId,
        uid: NodeUid,
        request_opcode: u8,
        result: CommandResult,
        node_id: Option<NodeId>,
        state: CommissioningState,
    },
}

/// The request identifier then the twelve UID bytes, in a 32-byte buffer.
pub open spec fn request_prefix(request_id: RequestId, uid: NodeUid) -> Seq<u8> {
    put_bytes(put64(zeros(32), 0, request_id.0), 8, uid.spec_bytes())
}

/// The discovery response's bytes before its nonce.
pub open spec fn discovery_fields(info: DiscoveryInfo) -> Seq<u8> {
    put16(
        put16(
            put16(
                put_bytes(zeros(32), 0, info.uid.spec_bytes()).update(12, node_byte(info.node_id)).update(
                    13,
                    info.state.spec_code(),
                ).update(14, info.protocol_major).update(15, info.protocol_minor),
                16,
                info.firmware.major,
            ),
            18,
            info.firmware.minor,
        ),
        20,
        info.firmware.patch,
    ).update(22, info.hardware_revision).update(23, info.supported_ports)
}

/// The opcode, token, 32-byte body and length of a message.
pub open spec fn spec_commissioning_body(message: CommissioningMessage) -> (u8, u16, Seq<u8>, int) {
    match message {
        CommissioningMessage::NodeClaim { uid, node_id, state, claim_nonce } => (
            0u8,
            spec_node_claim_token(uid, node_id, claim_nonce),
            put16(
                put_bytes(zeros(32), 0, uid.spec_bytes()).update(12, node_id.spec_get()).update(
                    13,
                    state.spec_code(),
                ),
                14,
                claim_nonce,
            ),
            16int,
        ),
        CommissioningMessage::Discover { nonce } => (1u8, 0u16, put64(zeros(32), 0, nonce), 8int),
        CommissioningMessage::DiscoveryResponse { nonce, info } => (
            2u8,
            spec_commissioning_token(info.uid, nonce),
            put64(discovery_fields(info), 24, nonce),
            32int,
        ),
        CommissioningMessage::Identify { request_id, uid, duration_seconds } => (
            3u8,
            spec_commissioning_token(uid, request_id.0),
            put16(request_prefix(request_id, uid), 20, duration_seconds),
            24int,
        ),
        CommissioningMessage::AssignNode { request_id, uid, node_id } => (
            4u8,
            spec_commissioning_token(uid, request_id.0),
            request_prefix(request_id, uid).update(20, node_id.spec_get()),
            24int,
        ),
        CommissioningMessage::ClearNode { request_id, uid } => (
            5u8,
            spec_commissioning_token(uid, request_id.0),
            request_prefix(request_id, uid),
            20int,
        ),
        CommissioningMessage::Result { request_id, uid, request_opcode, result, node_id, state } => (
            6u8,
            spec_commissioning_token(uid, request_id.0),
            request_prefix(request_id, uid).update(20, request_opcode).update(
                21,
                result.spec_code(),
            ).update(22, node_byte(node_id)).update(23, state.spec_code()),
            24int,
        ),
    }
}

/// The frame of a message sent by `requester`: a node claim comes from the
/// protocol requester, everything else from a host.
pub open spec fn spec_encode_commissioning(
    requester: RequesterId,
    message: CommissioningMessage,
) -> Result<(u32, Seq<u8>), CodecError> {
    let requester_check = if message is NodeClaim {
        spec_require_protocol_requester(requester)
    } else {
        spec_require_host_requester(requester)
    };
    if let Err(e) = requester_check {
        Err(e)
    } else {
        let (opcode, token, body, len) = spec_commissioning_body(message);
        match spec_commissioning_header_new(6, token, requester, opcode) {
            Err(e) => Err(e),
            Ok(h) => match crate::protocol::spec_frame_check(body.take(len)) {
                Some(e) => Err(CodecError::InvalidFrame(e)),
                None => Ok((spec_commissioning_header_encode(h), body.take(len))),
            },
        }
    }
}

fn write_request_prefix(payload: &mut Vec<u8>, request_id: RequestId, uid: NodeUid)
    requires
        old(payload)@ == zeros(32),
    ensures
        final(payload)@ == request_prefix(request_id, uid),
{
    put_u64(payload, 0, request_id.0);
    put_slice(payload, 8, uid.as_bytes());
}

/// The opcode, token, body and length of `message`.
fn encode_commissioning_payload(message: CommissioningMessage) -> (r: (u8, u16, Vec<u8>, usize))
    ensures
        (r.0, r.1, r.2@, r.3 as int) == spec_commissioning_body(message),
        r.2@.len() == 32,
{
    let mut payload = vec![0u8; 32];
    assert(payload@ =~= zeros(32));
    let (opcode, token, len): (u8, u16, usize) = match message {
        CommissioningMessage::NodeClaim { uid, node_id, state, claim_nonce } => {
            put_slice(&mut payload, 0, uid.as_bytes());
            payload.set(12, node_id.get());
            payload.set(13, state.code());
            put_u16(&mut payload, 14, claim_nonce);
            (0, node_claim_token(uid, node_id, claim_nonce), 16)
        },
        CommissioningMessage::Discover { nonce } => {
            put_u64(&mut payload, 0, nonce);
            (1, 0, 8)
        },
        CommissioningMessage::DiscoveryResponse { nonce, info } => {
            put_slice(&mut payload, 0, info.uid.as_bytes());
            payload.set(12, encode_node(info.node_id));
            payload.set(13, info.state.code());
            payload.set(14, info.protocol_major);
            payload.set(15, info.protocol_minor);
            put_u16(&mut payload, 16, info.firmware.major);
            put_u16(&mut payload, 18, info.firmware.minor);
            put_u16(&mut payload, 20, info.firmware.patch);
            payload.set(22, info.hardware_revision);
            payload.set(23, info.supported_ports);
            assert(payload@ == discovery_fields(info));
            put_u64(&mut payload, 24, nonce);
            (2, commissioning_token(info.uid, nonce), 32)
        },
        CommissioningMessage::Identify { request_id, uid, duration_seconds } => {
            write_request_prefix(&mut payload, request_id, uid);
            put_u16(&mut payload, 20, duration_seconds);
            (3, commissioning_token(uid, request_id.0), 24)
        },
        CommissioningMessage::AssignNode { request_id, uid, node_id } => {
            write_request_prefix(&mut payload, request_id, uid);
            payload.set(20, node_id.get());
            (4, commissioning_token(uid, request_id.0), 24)
        },
        CommissioningMessage::ClearNode { request_id, uid } => {
            write_request_prefix(&mut payload, request_id, uid);
            (5, commissioning_token(uid, request_id.0), 20)
        },
        CommissioningMessage::Result { request_id, uid, request_opcode, result, node_id, state } => {
            write_request_prefix(&mut payload, request_id, uid);
            payload.set(20, request_opcode);
            payload.set(21, result.code());
            payload.set(22, encode_node(node_id));
            payload.set(23, state.code());
            (6, commissioning_token(uid, request_id.0), 24)
        },
    };
    (opcode, token, payload, len)
}

pub fn encode_commissioning(requester: RequesterId, message: CommissioningMessage) -> (r: Result<
    WireFrame,
    CodecError,
>)
    ensures
        frame_matches(r, spec_encode_commissioning(requester, message)),
{
    match message {
        CommissioningMessage::NodeClaim { .. } => require_protocol_requester(requester)?,
        _ => require_host_requester(requester)?,
    }
    let (opcode, token, payload, len) = encode_commissioning_payload(message);
    let header = CommissioningHeader::new(6, token, requester, opcode)?;
    match WireFrame::new(header.encode(), vstd::slice::slice_subrange(payload.as_slice(), 0, len)) {
        Ok(f) => Ok(f),
        Err(e) => Err(CodecError::InvalidFrame(e)),
    }
}

/// The message that a payload under header `h` carries. A discovery
/// response's token is checked before its node and state.
pub open spec fn spec_decode_commissioning_message(h: CommissioningHeader, p: Seq<u8>) -> Result<
    CommissioningMessage,
    CodecError,
> {
    if h.opcode == 0 {
        if let Err(e) = spec_require_len(p, 16) {
            Err(e)
        } else {
            let uid = rd_uid(p, 0);
            match spec_decode_node(p[12]) {
                Err(e) => Err(e),
                Ok(None) => Err(CodecError::Payload(PayloadError::InvalidNodeId(0))),
                Ok(Some(node_id)) => match spec_decode_commissioning_state(p[13], 13) {
                    Err(e) => Err(e),
                    Ok(state) => if let Err(e) = spec_require_token(
                        h.token,
                        spec_node_claim_token(uid, node_id, rd16(p, 14)),
                    ) {
                        Err(e)
                    } else {
                        Ok(CommissioningMessage::NodeClaim { uid, node_id, state, claim_nonce: rd16(p, 14) })
                    },
                },
            }
        }
    } else if h.opcode == 1 {
        if let Err(e) = spec_require_len(p, 8) {
            Err(e)
        } else if let Err(e) = spec_require_token(h.token, 0) {
            Err(e)
        } else {
            Ok(CommissioningMessage::Discover { nonce: rd64(p, 0) })
        }
    } else if h.opcode == 2 {
        if let Err(e) = spec_require_len(p, 32) {
            Err(e)
        } else if let Err(e) = spec_require_token(h.token, spec_commissioning_token(rd_uid(p, 0), rd64(p, 24))) {
            Err(e)
        } else {
            match spec_decode_node(p[12]) {
                Err(e) => Err(e),
                Ok(node_id) => match spec_decode_commissioning_state(p[13], 13) {
                    Err(e) => Err(e),
                    Ok(state) => Ok(
                        CommissioningMessage::DiscoveryResponse {
                            nonce: rd64(p, 24),
                            info: DiscoveryInfo {
                                uid: rd_uid(p, 0),
                                node_id,
                                state,
                                protocol_major: p[14],
                                protocol_minor: p[15],
                                firmware: FirmwareVersion {
                                    major: rd16(p, 16),
                                    minor: rd16(p, 18),
                                    patch: rd16(p, 20),
                                },
                                hardware_revision: p[22],
                                supported_ports: p[23],
                            },
                        },
                    ),
                },
            }
        }
    } else if h.opcode == 3 {
        if let Err(e) = spec_require_len(p, 24) {
            Err(e)
        } else if let Err(e) = spec_require_zero_range(p, 22, 24) {
            Err(e)
        } else if let Err(e) = spec_require_token(
            h.token,
            spec_commissioning_token(rd_uid(p, 8), rd64(p, 0)),
        ) {
            Err(e)
        } else {
            Ok(
                CommissioningMessage::Identify {
                    request_id: RequestId(rd64(p, 0)),
                    uid: rd_uid(p, 8),
                    duration_seconds: rd16(p, 20),
                },
            )
        }
    } else if h.opcode == 4 {
        if let Err(e) = spec_require_len(p, 24) {
            Err(e)
        } else if let Err(e) = spec_require_zero_range(p, 21, 24) {
            Err(e)
        } else {
            match spec_decode_node(p[20]) {
                Err(e) => Err(e),
                Ok(None) => Err(CodecError::Payload(PayloadError::InvalidNodeId(0))),
                Ok(Some(node_id)) => if let Err(e) = spec_require_token(
                    h.token,
                    spec_commissioning_token(rd_uid(p, 8), rd64(p, 0)),
                ) {
                    Err(e)
                } else {
                    Ok(
                        CommissioningMessage::AssignNode {
                            request_id: RequestId(rd64(p, 0)),
                            uid: rd_uid(p, 8),
                            node_id,
                        },
                    )
                },
            }
        }
    } else if h.opcode == 5 {
        if let Err(e) = spec_require_len(p, 20) {
            Err(e)
        } else if let Err(e) = spec_require_token(
            h.token,
            spec_commissioning_token(rd_uid(p, 8), rd64(p, 0)),
        ) {
            Err(e)
        } else {
            Ok(CommissioningMessage::ClearNode { request_id: RequestId(rd64(p, 0)), uid: rd_uid(p, 8) })
        }
    } else if h.opcode == 6 {
        if let Err(e) = spec_require_len(p, 24) {
            Err(e)
        } else if let Err(e) = spec_require_token(
            h.token,
            spec_commissioning_token(rd_uid(p, 8), rd64(p, 0)),
        ) {
            Err(e)
        } else {
            match CommandResult::from_code(p[21]) {
                None => Err(CodecError::Payload(PayloadError::InvalidValue { offset: 10, value: p[21] })),
                Some(result) => match spec_decode_node(p[22]) {
                    Err(e) => Err(e),
                    Ok(node_id) => match spec_decode_commissioning_state(p[23], 23) {
                        Err(e) => Err(e),
                        Ok(state) => Ok(
                            CommissioningMessage::Result {
                                request_id: RequestId(rd64(p, 0)),
                                uid: rd_uid(p, 8),
                                request_opcode: p[20],
                                result,
                                node_id,
                                state,
                            },
                        ),
                    },
                },
            }
        }
    } else {
        Err(CodecError::UnknownOpcode(h.opcode))
    }
}

pub open spec fn spec_decode_commissioning(id: u32, p: Seq<u8>) -> Result<
    (CommissioningHeader, CommissioningMessage),
    CodecError,
> {
    match spec_commissioning_header_decode(id) {
        Err(e) => Err(e),
        Ok(h) => if let Err(e) = spec_require_priority(h.priority, 6) {
            Err(e)
        } else if let Err(e) = (if h.opcode == 0 {
            spec_require_protocol_requester(h.requester)
        } else {
            spec_require_host_requester(h.requester)
        }) {
            Err(e)
        } else {
            match spec_decode_commissioning_message(h, p) {
                Err(e) => Err(e),
                Ok(m) => Ok((h, m)),
            }
        },
    }
}

fn decode_commissioning_message(header: CommissioningHeader, payload: &[u8]) -> (r: Result<
    CommissioningMessage,
    CodecError,
>)
    ensures
        r == spec_decode_commissioning_message(header, payload@),
{
    match header.opcode {
        0 => {
            require_len(payload, 16)?;
            let uid = read_uid(payload, 0);
            let node_id = match decode_node(payload[12])? {
                Some(node_id) => node_id,
                None => return Err(CodecError::Payload(PayloadError::InvalidNodeId(0))),
            };
            let state = decode_commissioning_state(payload[13], 13)?;
            let claim_nonce = rd_u16(payload, 14);
            require_token(header.token, node_claim_token(uid, node_id, claim_nonce))?;
            Ok(CommissioningMessage::NodeClaim { uid, node_id, state, claim_nonce })
        },
        1 => {
            require_len(payload, 8)?;
            require_token(header.token, 0)?;
            Ok(CommissioningMessage::Discover { nonce: rd_u64(payload, 0) })
        },
        2 => {
            require_len(payload, 32)?;
            let uid = read_uid(payload, 0);
            let nonce = rd_u64(payload, 24);
            require_token(header.token, commissioning_token(uid, nonce))?;
            let node_id = decode_node(payload[12])?;
            let state = decode_commissioning_state(payload[13], 13)?;
            Ok(
                CommissioningMessage::DiscoveryResponse {
                    nonce,
                    info: DiscoveryInfo {
                        uid,
                        node_id,
                        state,
                        protocol_major: payload[14],
                        protocol_minor: payload[15],
                        firmware: FirmwareVersion {
                            major: rd_u16(payload, 16),
                            minor: rd_u16(payload, 18),
                            patch: rd_u16(payload, 20),
                        },
                        hardware_revision: payload[22],
                        supported_ports: payload[23],
                    },
                },
            )
        },
        3 => {
            require_len(payload, 24)?;
            require_zero_range(payload, 22, 24)?;
            let request_id = read_request_id(payload)?;
            let uid = read_uid(payload, 8);
            require_token(header.token, commissioning_token(uid, request_id.0))?;
            Ok(CommissioningMessage::Identify { request_id, uid, duration_seconds: rd_u16(payload, 20) })
        },
        4 => {
            require_len(payload, 24)?;
            require_zero_range(payload, 21, 24)?;
            let request_id = read_request_id(payload)?;
            let uid = read_uid(payload, 8);
            let node_id = match decode_node(payload[20])? {
                Some(node_id) => node_id,
                None => return Err(CodecError::Payload(PayloadError::InvalidNodeId(0))),
            };
            require_token(header.token, commissioning_token(uid, request_id.0))?;
            Ok(CommissioningMessage::AssignNode { request_id, uid, node_id })
        },
        5 => {
            require_len(payload, 20)?;
            let request_id = read_request_id(payload)?;
            let uid = read_uid(payload, 8);
            require_token(header.token, commissioning_token(uid, request_id.0))?;
            Ok(CommissioningMessage::ClearNode { request_id, uid })
        },
        6 => {
            require_len(payload, 24)?;
            let request_id = read_request_id(payload)?;
            let uid = read_uid(payload, 8);
            require_token(header.token, commissioning_token(uid, request_id.0))?;
            let result = match CommandResult::try_from(payload[21]) {
                Ok(result) => result,
                Err(e) => return Err(CodecError::Payload(e)),
            };
            let node_id = decode_node(payload[22])?;
            let state = decode_commissioning_state(payload[23], 23)?;
            Ok(
                CommissioningMessage::Result {
                    request_id,
                    uid,
                    request_opcode: payload[20],
                    result,
                    node_id,
                    state,
                },
            )
        },
        opcode => Err(CodecError::UnknownOpcode(opcode)),
    }
}

pub fn decode_commissioning(id: ExtendedId, payload: &[u8]) -> (r: Result<
    (CommissioningHeader, CommissioningMessage),
    CodecError,
>)
    ensures
        r == spec_decode_commissioning(id.spec_get(), payload@),
{
    let header = CommissioningHeader::decode(id)?;
    require_priority(header.priority, 6)?;
    if header.opcode == 0 {
        require_protocol_requester(header.requester)?;
    } else {
        require_host_requester(header.requester)?;
    }
    let message = decode_commissioning_message(header, payload)?;
    Ok((header, message))
}

/// The validity that the identifier types promise for a message.
pub open spec fn spec_commissioning_message_valid(requester: RequesterId, m: CommissioningMessage) -> bool {
    &&& requester.spec_get() <= 15
    &&& match m {
        CommissioningMessage::NodeClaim { node_id, .. } => NodeId::valid_raw(node_id.spec_get()),
        CommissioningMessage::DiscoveryResponse { info, .. } => info.node_id matches Some(n)
            ==> NodeId::valid_raw(n.spec_get()),
        CommissioningMessage::AssignNode { node_id, .. } => NodeId::valid_raw(node_id.spec_get()),
        CommissioningMessage::Result { node_id, .. } => node_id matches Some(n) ==> NodeId::valid_raw(
            n.spec_get(),
        ),
        _ => true,
    }
}

proof fn lemma_node_byte_round_trip(node: Option<NodeId>)
    requires
        node matches Some(n) ==> NodeId::valid_raw(n.spec_get()),
    ensures
        spec_decode_node(node_byte(node)) == Ok::<Option<NodeId>, CodecError>(node),
{
}

proof fn lemma_request_prefix(request_id: RequestId, uid: NodeUid, p: Seq<u8>)
    requires
        p.len() >= 20,
        forall|i: int| 0 <= i < 20 ==> p[i] == request_prefix(request_id, uid)[i],
    ensures
        rd64(p, 0) == request_id.0,
        rd_uid(p, 8) == uid,
{
    let q = put64(zeros(32), 0, request_id.0);
    lemma_rd_put64(zeros(32), 0, request_id.0);
    assert(rd64(p, 0) == rd64(q, 0));
    assert(p.subrange(8, 20) =~= uid.spec_bytes());
    lemma_rd_uid(p, 8, uid);
}

/// Every message decodes back to itself, under a header that names the same
/// requester.
#[verifier::rlimit(40)]
pub proof fn lemma_commissioning_round_trip(requester: RequesterId, message: CommissioningMessage)
    requires
        spec_commissioning_message_valid(requester, message),
        spec_encode_commissioning(requester, message) is Ok,
    ensures
        spec_decode_commissioning(
            spec_encode_commissioning(requester, message)->Ok_0.0,
            spec_encode_commissioning(requester, message)->Ok_0.1,
        ) matches Ok((h, m)) && m == message && h.requester == requester,
{
    let (opcode, token, body, len) = spec_commissioning_body(message);
    let h = CommissioningHeader { priority: 6, token, requester, opcode };
    lemma_commissioning_header_round_trip(h);
    let p = body.take(len);
    match message {
        CommissioningMessage::NodeClaim { uid, node_id, state, claim_nonce } => {
            let q = put_bytes(zeros(32), 0, uid.spec_bytes()).update(12, node_id.spec_get()).update(
                13,
                state.spec_code(),
            );
            lemma_rd_put16(q, 14, claim_nonce);
            assert(rd16(p, 14) == rd16(body, 14));
            assert(p.subrange(0, 12) =~= uid.spec_bytes());
            lemma_rd_uid(p, 0, uid);
        },
        CommissioningMessage::Discover { nonce } => {
            lemma_rd_put64(zeros(32), 0, nonce);
            assert(rd64(p, 0) == rd64(body, 0));
        },
        CommissioningMessage::DiscoveryResponse { nonce, info } => {
            let q0 = put_bytes(zeros(32), 0, info.uid.spec_bytes()).update(12, node_byte(info.node_id)).update(
                13,
                info.state.spec_code(),
            ).update(14, info.protocol_major).update(15, info.protocol_minor);
            let q1 = put16(q0, 16, info.firmware.major);
            let q2 = put16(q1, 18, info.firmware.minor);
            let q3 = put16(q2, 20, info.firmware.patch);
            lemma_rd_put16(q0, 16, info.firmware.major);
            lemma_rd_put16(q1, 18, info.firmware.minor);
            lemma_rd_put16(q2, 20, info.firmware.patch);
            let f = discovery_fields(info);
            lemma_rd_put64(f, 24, nonce);
            assert(rd16(p, 16) == rd16(q1, 16));
            assert(rd16(p, 18) == rd16(q2, 18));
            assert(rd16(p, 20) == rd16(q3, 20));
            assert(p.subrange(0, 12) =~= info.uid.spec_bytes());
            lemma_rd_uid(p, 0, info.uid);
            lemma_node_byte_round_trip(info.node_id);
        },
        CommissioningMessage::Identify { request_id, uid, duration_seconds } => {
            lemma_request_prefix(request_id, uid, p);
            lemma_rd_put16(request_prefix(request_id, uid), 20, duration_seconds);
            lemma_first_nonzero_none(p, 22, 24);
        },
        CommissioningMessage::AssignNode { request_id, uid, node_id } => {
            lemma_request_prefix(request_id, uid, p);
            lemma_first_nonzero_none(p, 21, 24);
        },
        CommissioningMessage::ClearNode { request_id, uid } => {
            lemma_request_prefix(request_id, uid, p);
        },
        CommissioningMessage::Result { request_id, uid, request_opcode, result, node_id, state } => {
            lemma_request_prefix(request_id, uid, p);
            lemma_node_byte_round_trip(node_id);
        },
    }
}

} // verus!
