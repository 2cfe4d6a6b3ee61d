//! Commissioning traffic: UID-addressed discovery, identification and address
//! assignment, whose identifiers carry a 12-bit anti-collision token.
use vstd::prelude::*;
use crate::types::{
    group_type_lemmas, CommissioningState, NodeId, NodeUid, RequestId, RequesterId,
};
use crate::wire::{
    lemma_first_nonzero_none, lemma_rd_put16, lemma_rd_put64, put16, put64, put_bytes, put_slice,
    put_u16, put_u64, rd16, rd64, rd_u16, rd_u64, zeros,
};
use crate::protocol::{
    decode_commissioning_state, decode_node, encode_node, group_id_lemmas, lemma_rd_uid,
    node_byte, rd_uid, read_request_id, read_uid, require_host_requester, require_len,
    require_priority, require_protocol_requester, require_token, require_zero_range,
    spec_decode_commissioning_state, spec_decode_node, spec_header_decode, spec_read_request_id,
    spec_require_host_requester, spec_require_len, spec_require_priority,
    spec_require_protocol_requester, spec_require_token, spec_require_zero_range, CodecError,
    ExtendedId, Header, InvalidHeader, PayloadError, WireFrame,
};
use crate::codec::{frame_matches, lift_header};
use crate::telemetry::{
    decode_node_info_payload, encode_node_info_payload, lemma_node_info_payload_round_trip,
    spec_decode_node_info_payload, spec_encode_node_info_payload, spec_node_info_bytes,
    spec_node_info_valid, CommandResult, NodeInfo,
};

verus! {

broadcast use {group_type_lemmas, group_id_lemmas};

/// The identifier fields of commissioning traffic, whose node and target bits
/// carry a token instead of an address.
#[derive(Clone, Copy, Debug, PartialEq, Eq, Structural)]
pub struct CommissioningHeader {
    pub priority: u8,
    pub token: u16,
    pub requester: RequesterId,
    pub opcode: u8,
}

pub open spec fn spec_commissioning_header_new(
    priority: u8,
    token: u16,
    requester: RequesterId,
    opcode: u8,
) -> Result<CommissioningHeader, CodecError> {
    if priority > 7 {
        Err(CodecError::InvalidHeader(InvalidHeader::Priority(priority)))
    } else if token > 0x0FFF {
        Err(CodecError::InvalidCommissioningToken(token))
    } else if opcode > 63 {
        Err(CodecError::InvalidHeader(InvalidHeader::Opcode(opcode)))
    } else {
        Ok(CommissioningHeader { priority, token, requester, opcode })
    }
}

pub open spec fn spec_commissioning_header_encode(h: CommissioningHeader) -> u32 {
    ((h.priority as u32) << 26u32) | (14u32 << 22u32) | ((h.token as u32) << 10u32) | ((
    h.requester.spec_get() as u32) << 6u32) | (h.opcode as u32)
}

pub open spec fn spec_commissioning_header_decode(raw: u32) -> Result<CommissioningHeader, CodecError> {
    if crate::protocol::id_class(raw) != 14 {
        Err(CodecError::UnexpectedClass(crate::protocol::id_class(raw)))
    } else {
        spec_commissioning_header_new(
            crate::protocol::id_priority(raw),
            crate::protocol::id_token(raw),
            RequesterId::spec_new(crate::protocol::id_requester(raw)),
            crate::protocol::id_opcode(raw),
        )
    }
}

impl CommissioningHeader {
    pub const MAX_TOKEN: u16 = 0x0FFF;

    pub fn new(priority: u8, token: u16, requester: RequesterId, opcode: u8) -> (r: Result<
        Self,
        CodecError,
    >)
        ensures
            r == spec_commissioning_header_new(priority, token, requester, opcode),
    {
        if priority > 7 {
            return Err(CodecError::InvalidHeader(InvalidHeader::Priority(priority)));
        }
        if token > Self::MAX_TOKEN {
            return Err(CodecError::InvalidCommissioningToken(token));
        }
        if opcode > 63 {
            return Err(CodecError::InvalidHeader(InvalidHeader::Opcode(opcode)));
        }
        Ok(CommissioningHeader { priority, token, requester, opcode })
    }

    pub fn encode(self) -> (r: ExtendedId)
        ensures
            r == ExtendedId::spec_new(spec_commissioning_header_encode(self)),
    {
        let raw = ((self.priority as u32) << 26u32) | (14u32 << 22u32) | ((self.token as u32)
            << 10u32) | ((self.requester.get() as u32) << 6u32) | (self.opcode as u32);
        let r = crate::protocol::extended_id_unchecked(raw);
        r
    }

    pub fn decode(id: ExtendedId) -> (r: Result<Self, CodecError>)
        ensures
            r == spec_commissioning_header_decode(id.spec_get()),
    {
        let raw = id.get();
        let class = ((raw >> 22u32) & 15) as u8;
        if class != 14 {
            return Err(CodecError::UnexpectedClass(class));
        }
        let requester_raw = ((raw >> 6u32) & 15) as u8;
        assert((raw >> 6u32) & 15 <= 15) by (bit_vector);
        let requester = match RequesterId::new(requester_raw) {
            Ok(requester) => requester,
            Err(error) => return Err(CodecError::InvalidHeader(InvalidHeader::Requester(error.0))),
        };
        Self::new(
            ((raw >> 26u32) & 7) as u8,
            ((raw >> 10u32) & 0x0FFF) as u16,
            requester,
            (raw & 63) as u8,
        )
    }
}

/// A valid commissioning header survives encoding and decoding.
pub proof fn lemma_commissioning_header_round_trip(h: CommissioningHeader)
    requires
        h.priority <= 7,
        h.token <= 0x0FFF,
        h.requester.spec_get() <= 15,
        h.opcode <= 63,
    ensures
        spec_commissioning_header_decode(spec_commissioning_header_encode(h)) == Ok::<
            CommissioningHeader,
            CodecError,
        >(h),
{
    let p = h.priority as u32;
    let t = h.token as u32;
    let q = h.requester.spec_get() as u32;
    let o = h.opcode as u32;
    assert(({
        let raw = (p << 26u32) | (14u32 << 22u32) | (t << 10u32) | (q << 6u32) | o;
        &&& ((raw >> 26u32) & 7) == p
        &&& ((raw >> 22u32) & 15) == 14
        &&& ((raw >> 10u32) & 0x0FFF) == t
        &&& ((raw >> 6u32) & 15) == q
        &&& (raw & 63) == o
    })) by (bit_vector)
        requires
            p <= 7,
            t <= 0x0FFF,
            q <= 15,
            o <= 63,
    ;
}

#[derive(Clone, Copy, Debug, PartialEq, Eq, Structural)]
pub enum DecodedHeader {
    Operational(Header),
    Commissioning(CommissioningHeader),
}

pub open spec fn spec_decode_header(raw: u32) -> Result<DecodedHeader, CodecError> {
    if crate::protocol::id_class(raw) == 14 {
        match spec_commissioning_header_decode(raw) {
            Ok(h) => Ok(DecodedHeader::Commissioning(h)),
            Err(e) => Err(e),
        }
    } else {
        match lift_header(spec_header_decode(raw)) {
            Ok(h) => Ok(DecodedHeader::Operational(h)),
            Err(e) => Err(e),
        }
    }
}

/// Either kind of header, told apart by the class bits.
pub fn decode_header(id: ExtendedId) -> (r: Result<DecodedHeader, CodecError>)
    ensures
        r == spec_decode_header(id.spec_get()),
{
    let class = ((id.get() >> 22u32) & 15) as u8;
    if class == 14 {
        match CommissioningHeader::decode(id) {
            Ok(h) => Ok(DecodedHeader::Commissioning(h)),
            Err(e) => Err(e),
        }
    } else {
        match Header::decode(id) {
            Ok(h) => Ok(DecodedHeader::Operational(h)),
            Err(e) => Err(CodecError::InvalidHeader(e)),
        }
    }
}

/// One step of the reflected CRC-32 (polynomial 0xEDB88320).
pub open spec fn crc_bit(crc: u32) -> u32 {
    if crc & 1 == 1 {
        (crc >> 1u32) ^ 0xEDB8_8320
    } else {
        crc >> 1u32
    }
}

pub open spec fn crc_rounds(crc: u32, k: nat) -> u32
    decreases k,
{
    if k == 0 {
        crc
    } else {
        crc_rounds(crc_bit(crc), (k - 1) as nat)
    }
}

/// The CRC-32 register after absorbing `s`.
pub open spec fn crc_update(crc: u32, s: Seq<u8>) -> u32
    decreases s.len(),
{
    if s.len() == 0 {
        crc
    } else {
        crc_update(crc_rounds(crc ^ (s[0] as u32), 8), s.drop_first())
    }
}

/// The standard CRC-32 of `s`.
pub open spec fn spec_crc32(s: Seq<u8>) -> u32 {
    !crc_update(0xFFFF_FFFFu32, s)
}

pub fn crc32(bytes: &[u8]) -> (r: u32)
    ensures
        r == spec_crc32(bytes@),
{
    let mut crc: u32 = 0xFFFF_FFFF;
    let mut i: usize = 0;
    assert(bytes@.subrange(0, bytes@.len() as int) =~= bytes@);
    while i < bytes.len()
        invariant
            i <= bytes@.len(),
            crc_update(crc, bytes@.subrange(i as int, bytes@.len() as int)) == crc_update(
                0xFFFF_FFFFu32,
                bytes@,
            ),
        decreases bytes@.len() - i,
    {
        let ghost rest = bytes@.subrange(i as int, bytes@.len() as int);
        assert(rest.drop_first() =~= bytes@.subrange(i + 1, bytes@.len() as int));
        crc = crc ^ (bytes[i] as u32);
        let mut k: usize = 0;
        let ghost start = crc;
        while k < 8
            invariant
                k <= 8,
                crc_rounds(crc, (8 - k) as nat) == crc_rounds(start, 8),
            decreases 8 - k,
        {
            if crc & 1 == 1 {
                crc = (crc >> 1u32) ^ 0xEDB8_8320;
            } else {
                crc = crc >> 1u32;
            }
            k = k + 1;
        }
        i = i + 1;
    }
    assert(bytes@.subrange(i as int, bytes@.len() as int).len() == 0);
    !crc
}

/// A 32-bit finalizer that spreads every input bit over the output.
pub open spec fn spec_avalanche32(v: u32) -> u32 {
    let v = v ^ (v >> 16u32);
    let v = vstd::wrapping::u32_specs::wrapping_mul(v, 0x85EB_CA6B);
    let v = v ^ (v >> 13u32);
    let v = vstd::wrapping::u32_specs::wrapping_mul(v, 0xC2B2_AE35);
    v ^ (v >> 16u32)
}

pub fn avalanche32(value: u32) -> (r: u32)
    ensures
        r == spec_avalanche32(value),
{
    let mut value = value;
    value = value ^ (value >> 16u32);
    value = value.wrapping_mul(0x85EB_CA6B);
    value = value ^ (value >> 13u32);
    value = value.wrapping_mul(0xC2B2_AE35);
    value ^ (value >> 16u32)
}

pub open spec fn rotl13(v: u32) -> u32 {
    (v << 13u32) | (v >> 19u32)
}

/// The 12-bit token that binds a commissioning frame to a UID and a nonce.
pub open spec fn spec_commissioning_token(uid: NodeUid, nonce: u64) -> u16 {
    let low = (nonce & 0xFFFF_FFFF) as u32;
    let high = (nonce >> 32u64) as u32;
    (spec_avalanche32(spec_crc32(uid.spec_bytes()) ^ low ^ rotl13(high)) & 0x0FFF) as u16
}

pub fn commissioning_token(uid: NodeUid, nonce: u64) -> (r: u16)
    ensures
        r == spec_commissioning_token(uid, nonce),
        r <= 0x0FFF,
{
    let low = (nonce & 0xFFFF_FFFF) as u32;
    let high = (nonce >> 32u64) as u32;
    let crc = crc32(uid.as_bytes());
    let mixed = avalanche32(crc ^ low ^ ((high << 13u32) | (high >> 19u32)));
    assert(mixed & 0x0FFF <= 0x0FFF) by (bit_vector);
    (mixed & 0x0FFF) as u16
}

/// The domain separator that keeps claim tokens apart from request tokens.
pub const CLAIM_DOMAIN: u64 = 0x5044_4341_4E43_4C4D;

pub open spec fn spec_node_claim_token(uid: NodeUid, node_id: NodeId, claim_nonce: u16) -> u16 {
    spec_commissioning_token(
        uid,
        CLAIM_DOMAIN ^ ((node_id.spec_get() as u64) << 16u64) ^ (claim_nonce as u64),
    )
}

pub fn node_claim_token(uid: NodeUid, node_id: NodeId, claim_nonce: u16) -> (r: u16)
    ensures
        r == spec_node_claim_token(uid, node_id, claim_nonce),
        r <= 0x0FFF,
{
    commissioning_token(
        uid,
        CLAIM_DOMAIN ^ ((node_id.get() as u64) << 16u64) ^ (claim_nonce as u64),
    )
}

#[derive(Clone, Copy, Debug, PartialEq, Eq)]
pub struct DiscoveryInfo {
    pub uid: NodeUid,
    pub node_id: Option<NodeId>,
    pub state: CommissioningState,
    pub protocol_major: u8,
    pub protocol_minor: u8,
    pub node_info: NodeInfo,
}

#[derive(Clone, Copy, Debug, PartialEq, Eq)]
pub enum CommissioningMessage {
    NodeClaim { uid: NodeUid, node_id: NodeId, state: CommissioningState, claim_nonce: u16 },
    Discover { nonce: u64 },
    DiscoveryResponse { nonce: u64, info: DiscoveryInfo },
    Identify { request_id: RequestId, uid: NodeUid, duration_seconds: u16 },
    AssignNode { request_id: RequestId, uid: NodeUid, node_id: NodeId },
    ClearNode { request_id: RequestId, uid: NodeUid },
    Result {
        request_id: RequestId,
        uid: NodeUid,
        request_opcode: u8,
        result: CommandResult,
        node_id: Option<NodeId>,
        state: CommissioningState,
    },
}

/// The UID-addressed request prefix: request identifier then the twelve UID bytes.
pub open spec fn request_prefix(request_id: RequestId, uid: NodeUid) -> Seq<u8> {
    put_bytes(put64(zeros(64), 0, request_id.0), 8, uid.spec_bytes())
}

/// The opcode, token, 64-byte body and length of a commissioning message.
pub open spec fn spec_commissioning_body(message: CommissioningMessage) -> Result<
    (u8, u16, Seq<u8>, int),
    CodecError,
> {
    match message {
        CommissioningMessage::NodeClaim { uid, node_id, state, claim_nonce } => Ok(
            (
                0u8,
                spec_node_claim_token(uid, node_id, claim_nonce),
                put16(
                    put_bytes(zeros(64), 0, uid.spec_bytes()).update(12, node_id.spec_get()).update(
                        13,
                        state.spec_code(),
                    ),
                    14,
                    claim_nonce,
                ),
                16int,
            ),
        ),
        CommissioningMessage::Discover { nonce } => Ok((1u8, 0u16, put64(zeros(64), 0, nonce), 8int)),
        CommissioningMessage::DiscoveryResponse { nonce, info } => {
            if info.node_info.node != node_byte(info.node_id) {
                Err(CodecError::Payload(PayloadError::InvalidDescriptor))
            } else {
                match spec_encode_node_info_payload(info.node_info) {
                    Err(e) => Err(e),
                    Ok(block) => Ok(
                        (
                            2u8,
                            spec_commissioning_token(info.uid, nonce),
                            put64(
                                put_bytes(
                                    put_bytes(zeros(64), 0, info.uid.spec_bytes()).update(
                                        12,
                                        node_byte(info.node_id),
                                    ).update(13, info.state.spec_code()).update(
                                        14,
                                        info.protocol_major,
                                    ).update(15, info.protocol_minor),
                                    16,
                                    block,
                                ),
                                48,
                                nonce,
                            ),
                            64int,
                        ),
                    ),
                }
            }
        },
        CommissioningMessage::Identify { request_id, uid, duration_seconds } => Ok(
            (
                3u8,
                spec_commissioning_token(uid, request_id.0),
                put16(request_prefix(request_id, uid), 20, duration_seconds),
                24int,
            ),
        ),
        CommissioningMessage::AssignNode { request_id, uid, node_id } => Ok(
            (
                4u8,
                spec_commissioning_token(uid, request_id.0),
                request_prefix(request_id, uid).update(20, node_id.spec_get()),
                24int,
            ),
        ),
        CommissioningMessage::ClearNode { request_id, uid } => Ok(
            (5u8, spec_commissioning_token(uid, request_id.0), request_prefix(request_id, uid), 20int),
        ),
        CommissioningMessage::Result { request_id, uid, request_opcode, result, node_id, state } => Ok(
            (
                6u8,
                spec_commissioning_token(uid, request_id.0),
                request_prefix(request_id, uid).update(20, request_opcode).update(
                    21,
                    result.spec_code(),
                ).update(22, node_byte(node_id)).update(23, state.spec_code()),
                24int,
            ),
        ),
    }
}

/// The frame of a commissioning message, or why it cannot be sent.
pub open spec fn spec_encode_commissioning(
    requester: RequesterId,
    message: CommissioningMessage,
) -> Result<(u32, Seq<u8>), CodecError> {
    let requester_check = if message is NodeClaim {
        spec_require_protocol_requester(requester)
    } else {
        spec_require_host_requester(requester)
    };
    if let Err(e) = requester_check {
        Err(e)
    } else {
        match spec_commissioning_body(message) {
            Err(e) => Err(e),
            Ok((opcode, token, body, len)) => match spec_commissioning_header_new(
                6,
                token,
                requester,
                opcode,
            ) {
                Err(e) => Err(e),
                Ok(h) => match crate::protocol::spec_frame_check(body.take(len)) {
                    Some(e) => Err(CodecError::InvalidFrame(e)),
                    None => Ok((spec_commissioning_header_encode(h), body.take(len))),
                },
            },
        }
    }
}

fn write_request_prefix(payload: &mut Vec<u8>, request_id: RequestId, uid: NodeUid)
    requires
        old(payload)@ == zeros(64),
    ensures
        final(payload)@ == request_prefix(request_id, uid),
{
    put_u64(payload, 0, request_id.0);
    put_slice(payload, 8, uid.as_bytes());
}

pub fn encode_commissioning(requester: RequesterId, message: CommissioningMessage) -> (r: Result<
    WireFrame,
    CodecError,
>)
    ensures
        frame_matches(r, spec_encode_commissioning(requester, message)),
{
    match message {
        CommissioningMessage::NodeClaim { .. } => require_protocol_requester(requester)?,
        _ => require_host_requester(requester)?,
    }
    let mut payload = vec![0u8; 64];
    assert(payload@ =~= zeros(64));
    let (opcode, token, len): (u8, u16, usize) = match message {
        CommissioningMessage::NodeClaim { uid, node_id, state, claim_nonce } => {
            put_slice(&mut payload, 0, uid.as_bytes());
            payload.set(12, node_id.get());
            payload.set(13, state.code());
            put_u16(&mut payload, 14, claim_nonce);
            (0, node_claim_token(uid, node_id, claim_nonce), 16)
        },
        CommissioningMessage::Discover { nonce } => {
            put_u64(&mut payload, 0, nonce);
            (1, 0, 8)
        },
        CommissioningMessage::DiscoveryResponse { nonce, info } => {
            if info.node_info.node != encode_node(info.node_id) {
                return Err(CodecError::Payload(PayloadError::InvalidDescriptor));
            }
            let block = encode_node_info_payload(info.node_info)?;
            put_slice(&mut payload, 0, info.uid.as_bytes());
            payload.set(12, encode_node(info.node_id));
            payload.set(13, info.state.code());
            payload.set(14, info.protocol_major);
            payload.set(15, info.protocol_minor);
            put_slice(&mut payload, 16, block.as_slice());
            put_u64(&mut payload, 48, nonce);
            (2, commissioning_token(info.uid, nonce), 64)
        },
        CommissioningMessage::Identify { request_id, uid, duration_seconds } => {
            write_request_prefix(&mut payload, request_id, uid);
            put_u16(&mut payload, 20, duration_seconds);
            (3, commissioning_token(uid, request_id.0), 24)
        },
        CommissioningMessage::AssignNode { request_id, uid, node_id } => {
            write_request_prefix(&mut payload, request_id, uid);
            payload.set(20, node_id.get());
            (4, commissioning_token(uid, request_id.0), 24)
        },
        CommissioningMessage::ClearNode { request_id, uid } => {
            write_request_prefix(&mut payload, request_id, uid);
            (5, commissioning_token(uid, request_id.0), 20)
        },
        CommissioningMessage::Result { request_id, uid, request_opcode, result, node_id, state } => {
            write_request_prefix(&mut payload, request_id, uid);
            payload.set(20, request_opcode);
            payload.set(21, result.code());
            payload.set(22, encode_node(node_id));
            payload.set(23, state.code());
            (6, commissioning_token(uid, request_id.0), 24)
        },
    };
    assert(spec_commissioning_body(message) == Ok::<(u8, u16, Seq<u8>, int), CodecError>(
        (opcode, token, payload@, len as int),
    ));
    let header = CommissioningHeader::new(6, token, requester, opcode)?;
    match WireFrame::new(header.encode(), vstd::slice::slice_subrange(payload.as_slice(), 0, len)) {
        Ok(f) => Ok(f),
        Err(e) => Err(CodecError::InvalidFrame(e)),
    }
}

/// The message that a commissioning payload of a known opcode carries.
pub open spec fn spec_decode_commissioning_message(h: CommissioningHeader, p: Seq<u8>) -> Result<
    CommissioningMessage,
    CodecError,
> {
    if h.opcode == 0 {
        if let Err(e) = spec_require_len(p, 16) {
            Err(e)
        } else {
            let uid = rd_uid(p, 0);
            match spec_decode_node(p[12]) {
                Err(e) => Err(e),
                Ok(None) => Err(CodecError::Payload(PayloadError::InvalidNodeId(0))),
                Ok(Some(node_id)) => match spec_decode_commissioning_state(p[13], 13) {
                    Err(e) => Err(e),
                    Ok(state) => if let Err(e) = spec_require_token(
                        h.token,
                        spec_node_claim_token(uid, node_id, rd16(p, 14)),
                    ) {
                        Err(e)
                    } else {
                        Ok(
                            CommissioningMessage::NodeClaim {
                                uid,
                                node_id,
                                state,
                                claim_nonce: rd16(p, 14),
                            },
                        )
                    },
                },
            }
        }
    } else if h.opcode == 1 {
        if let Err(e) = spec_require_len(p, 8) {
            Err(e)
        } else if let Err(e) = spec_require_token(h.token, 0) {
            Err(e)
        } else {
            Ok(CommissioningMessage::Discover { nonce: rd64(p, 0) })
        }
    } else if h.opcode == 2 {
        if let Err(e) = spec_require_len(p, 64) {
            Err(e)
        } else if let Err(e) = spec_require_zero_range(p, 56, 64) {
            Err(e)
        } else {
            let uid = rd_uid(p, 0);
            match spec_decode_node(p[12]) {
                Err(e) => Err(e),
                Ok(node_id) => if let Err(e) = spec_require_token(
                    h.token,
                    spec_commissioning_token(uid, rd64(p, 48)),
                ) {
                    Err(e)
                } else {
                    match spec_decode_commissioning_state(p[13], 13) {
                        Err(e) => Err(e),
                        Ok(state) => match spec_decode_node_info_payload(
                            node_byte(node_id),
                            p.subrange(16, 48),
                        ) {
                            Err(e) => Err(e),
                            Ok(node_info) => Ok(
                                CommissioningMessage::DiscoveryResponse {
                                    nonce: rd64(p, 48),
                                    info: DiscoveryInfo {
                                        uid,
                                        node_id,
                                        state,
                                        protocol_major: p[14],
                                        protocol_minor: p[15],
                                        node_info,
                                    },
                                },
                            ),
                        },
                    }
                },
            }
        }
    } else if h.opcode == 3 {
        if let Err(e) = spec_require_len(p, 24) {
            Err(e)
        } else if let Err(e) = spec_require_zero_range(p, 22, 24) {
            Err(e)
        } else if let Err(e) = spec_require_token(
            h.token,
            spec_commissioning_token(rd_uid(p, 8), rd64(p, 0)),
        ) {
            Err(e)
        } else {
            Ok(
                CommissioningMessage::Identify {
                    request_id: RequestId(rd64(p, 0)),
                    uid: rd_uid(p, 8),
                    duration_seconds: rd16(p, 20),
                },
            )
        }
    } else if h.opcode == 4 {
        if let Err(e) = spec_require_len(p, 24) {
            Err(e)
        } else if let Err(e) = spec_require_zero_range(p, 21, 24) {
            Err(e)
        } else {
            match spec_decode_node(p[20]) {
                Err(e) => Err(e),
                Ok(None) => Err(CodecError::Payload(PayloadError::InvalidNodeId(0))),
                Ok(Some(node_id)) => if let Err(e) = spec_require_token(
                    h.token,
                    spec_commissioning_token(rd_uid(p, 8), rd64(p, 0)),
                ) {
                    Err(e)
                } else {
                    Ok(
                        CommissioningMessage::AssignNode {
                            request_id: RequestId(rd64(p, 0)),
                            uid: rd_uid(p, 8),
                            node_id,
                        },
                    )
                },
            }
        }
    } else if h.opcode == 5 {
        if let Err(e) = spec_require_len(p, 20) {
            Err(e)
        } else if let Err(e) = spec_require_token(
            h.token,
            spec_commissioning_token(rd_uid(p, 8), rd64(p, 0)),
        ) {
            Err(e)
        } else {
            Ok(CommissioningMessage::ClearNode { request_id: RequestId(rd64(p, 0)), uid: rd_uid(p, 8) })
        }
    } else if h.opcode == 6 {
        if let Err(e) = spec_require_len(p, 24) {
            Err(e)
        } else if let Err(e) = spec_require_token(
            h.token,
            spec_commissioning_token(rd_uid(p, 8), rd64(p, 0)),
        ) {
            Err(e)
        } else {
            match CommandResult::from_code(p[21]) {
                None => Err(CodecError::Payload(PayloadError::InvalidValue { offset: 10, value: p[21] })),
                Some(result) => match spec_decode_node(p[22]) {
                    Err(e) => Err(e),
                    Ok(node_id) => match spec_decode_commissioning_state(p[23], 23) {
                        Err(e) => Err(e),
                        Ok(state) => Ok(
                            CommissioningMessage::Result {
                                request_id: RequestId(rd64(p, 0)),
                                uid: rd_uid(p, 8),
                                request_opcode: p[20],
                                result,
                                node_id,
                                state,
                            },
                        ),
                    },
                },
            }
        }
    } else {
        Err(CodecError::UnknownOpcode(h.opcode))
    }
}

pub open spec fn spec_decode_commissioning(id: u32, p: Seq<u8>) -> Result<
    (CommissioningHeader, CommissioningMessage),
    CodecError,
> {
    match spec_commissioning_header_decode(id) {
        Err(e) => Err(e),
        Ok(h) => if let Err(e) = spec_require_priority(h.priority, 6) {
            Err(e)
        } else if let Err(e) = (if h.opcode == 0 {
            spec_require_protocol_requester(h.requester)
        } else {
            spec_require_host_requester(h.requester)
        }) {
            Err(e)
        } else {
            match spec_decode_commissioning_message(h, p) {
                Err(e) => Err(e),
                Ok(m) => Ok((h, m)),
            }
        },
    }
}

pub fn decode_commissioning(id: ExtendedId, payload: &[u8]) -> (r: Result<
    (CommissioningHeader, CommissioningMessage),
    CodecError,
>)
    ensures
        r == spec_decode_commissioning(id.spec_get(), payload@),
{
    let header = CommissioningHeader::decode(id)?;
    require_priority(header.priority, 6)?;
    if header.opcode == 0 {
        require_protocol_requester(header.requester)?;
    } else {
        require_host_requester(header.requester)?;
    }
    let message = match header.opcode {
        0 => {
            require_len(payload, 16)?;
            let uid = read_uid(payload, 0);
            let node_id = match decode_node(payload[12])? {
                Some(node_id) => node_id,
                None => return Err(CodecError::Payload(PayloadError::InvalidNodeId(0))),
            };
            let state = decode_commissioning_state(payload[13], 13)?;
            let claim_nonce = rd_u16(payload, 14);
            require_token(header.token, node_claim_token(uid, node_id, claim_nonce))?;
            CommissioningMessage::NodeClaim { uid, node_id, state, claim_nonce }
        },
        1 => {
            require_len(payload, 8)?;
            require_token(header.token, 0)?;
            CommissioningMessage::Discover { nonce: rd_u64(payload, 0) }
        },
        2 => {
            require_len(payload, 64)?;
            require_zero_range(payload, 56, 64)?;
            let uid = read_uid(payload, 0);
            let node_id = decode_node(payload[12])?;
            let nonce = rd_u64(payload, 48);
            require_token(header.token, commissioning_token(uid, nonce))?;
            let state = decode_commissioning_state(payload[13], 13)?;
            let node_info = decode_node_info_payload(
                encode_node(node_id),
                vstd::slice::slice_subrange(payload, 16, 48),
            )?;
            CommissioningMessage::DiscoveryResponse {
                nonce,
                info: DiscoveryInfo {
                    uid,
                    node_id,
                    state,
                    protocol_major: payload[14],
                    protocol_minor: payload[15],
                    node_info,
                },
            }
        },
        3 => {
            require_len(payload, 24)?;
            require_zero_range(payload, 22, 24)?;
            let request_id = read_request_id(payload)?;
            let uid = read_uid(payload, 8);
            require_token(header.token, commissioning_token(uid, request_id.0))?;
            CommissioningMessage::Identify { request_id, uid, duration_seconds: rd_u16(payload, 20) }
        },
        4 => {
            require_len(payload, 24)?;
            require_zero_range(payload, 21, 24)?;
            let request_id = read_request_id(payload)?;
            let uid = read_uid(payload, 8);
            let node_id = match decode_node(payload[20])? {
                Some(node_id) => node_id,
                None => return Err(CodecError::Payload(PayloadError::InvalidNodeId(0))),
            };
            require_token(header.token, commissioning_token(uid, request_id.0))?;
            CommissioningMessage::AssignNode { request_id, uid, node_id }
        },
        5 => {
            require_len(payload, 20)?;
            let request_id = read_request_id(payload)?;
            let uid = read_uid(payload, 8);
            require_token(header.token, commissioning_token(uid, request_id.0))?;
            CommissioningMessage::ClearNode { request_id, uid }
        },
        6 => {
            require_len(payload, 24)?;
            let request_id = read_request_id(payload)?;
            let uid = read_uid(payload, 8);
            require_token(header.token, commissioning_token(uid, request_id.0))?;
            let result = match CommandResult::try_from(payload[21]) {
                Ok(result) => result,
                Err(e) => return Err(CodecError::Payload(e)),
            };
            let node_id = decode_node(payload[22])?;
            let state = decode_commissioning_state(payload[23], 23)?;
            CommissioningMessage::Result {
                request_id,
                uid,
                request_opcode: payload[20],
                result,
                node_id,
                state,
            }
        },
        opcode => {
            return Err(CodecError::UnknownOpcode(opcode));
        },
    };
    Ok((header, message))
}

/// The validity that the identifier types promise for a commissioning message.
pub open spec fn spec_commissioning_message_valid(requester: RequesterId, m: CommissioningMessage) -> bool {
    &&& requester.spec_get() <= 15
    &&& match m {
        CommissioningMessage::NodeClaim { node_id, .. } => NodeId::valid_raw(node_id.spec_get()),
        CommissioningMessage::DiscoveryResponse { info, .. } => {
            &&& (info.node_id matches Some(n) ==> NodeId::valid_raw(n.spec_get()))
            &&& spec_node_info_valid(info.node_info)
        },
        CommissioningMessage::AssignNode { node_id, .. } => NodeId::valid_raw(node_id.spec_get()),
        CommissioningMessage::Result { node_id, .. } => node_id matches Some(n) ==> NodeId::valid_raw(
            n.spec_get(),
        ),
        _ => true,
    }
}

proof fn lemma_node_byte_round_trip(node: Option<NodeId>)
    requires
        node matches Some(n) ==> NodeId::valid_raw(n.spec_get()),
    ensures
        spec_decode_node(node_byte(node)) == Ok::<Option<NodeId>, CodecError>(node),
{
}

proof fn lemma_request_prefix(request_id: RequestId, uid: NodeUid, p: Seq<u8>)
    requires
        p.len() >= 20,
        forall|i: int| 0 <= i < 20 ==> p[i] == request_prefix(request_id, uid)[i],
    ensures
        rd64(p, 0) == request_id.0,
        rd_uid(p, 8) == uid,
{
    let q = put64(zeros(64), 0, request_id.0);
    lemma_rd_put64(zeros(64), 0, request_id.0);
    assert(rd64(p, 0) == rd64(q, 0));
    assert(p.subrange(8, 20) =~= uid.spec_bytes());
    lemma_rd_uid(p, 8, uid);
}

/// Every commissioning message that can be encoded decodes back to itself,
/// under a header that names the same requester.
#[verifier::rlimit(40)]
pub proof fn lemma_commissioning_round_trip(requester: RequesterId, message: CommissioningMessage)
    requires
        spec_commissioning_message_valid(requester, message),
        spec_encode_commissioning(requester, message) is Ok,
    ensures
        spec_decode_commissioning(
            spec_encode_commissioning(requester, message)->Ok_0.0,
            spec_encode_commissioning(requester, message)->Ok_0.1,
        ) matches Ok((h, m)) && m == message && h.requester == requester,
{
    let (opcode, token, body, len) = spec_commissioning_body(message)->Ok_0;
    let h = CommissioningHeader { priority: 6, token, requester, opcode };
    lemma_commissioning_header_round_trip(h);
    let p = body.take(len);
    match message {
        CommissioningMessage::NodeClaim { uid, node_id, state, claim_nonce } => {
            let q = put_bytes(zeros(64), 0, uid.spec_bytes()).update(12, node_id.spec_get()).update(
                13,
                state.spec_code(),
            );
            lemma_rd_put16(q, 14, claim_nonce);
            assert(rd16(p, 14) == rd16(body, 14));
            assert(p.subrange(0, 12) =~= uid.spec_bytes());
            lemma_rd_uid(p, 0, uid);
        },
        CommissioningMessage::Discover { nonce } => {
            lemma_rd_put64(zeros(64), 0, nonce);
            assert(rd64(p, 0) == rd64(body, 0));
        },
        CommissioningMessage::DiscoveryResponse { nonce, info } => {
            let block = spec_node_info_bytes(info.node_info);
            let q = put_bytes(
                put_bytes(zeros(64), 0, info.uid.spec_bytes()).update(12, node_byte(info.node_id)).update(
                    13,
                    info.state.spec_code(),
                ).update(14, info.protocol_major).update(15, info.protocol_minor),
                16,
                block,
            );
            lemma_rd_put64(q, 48, nonce);
            assert(p.subrange(0, 12) =~= info.uid.spec_bytes());
            lemma_rd_uid(p, 0, info.uid);
            assert(p.subrange(16, 48) =~= block);
            lemma_node_info_payload_round_trip(info.node_info);
            lemma_node_byte_round_trip(info.node_id);
            lemma_first_nonzero_none(p, 56, 64);
        },
        CommissioningMessage::Identify { request_id, uid, duration_seconds } => {
            lemma_request_prefix(request_id, uid, p);
            lemma_rd_put16(request_prefix(request_id, uid), 20, duration_seconds);
            lemma_first_nonzero_none(p, 22, 24);
        },
        CommissioningMessage::AssignNode { request_id, uid, node_id } => {
            lemma_request_prefix(request_id, uid, p);
            lemma_first_nonzero_none(p, 21, 24);
        },
        CommissioningMessage::ClearNode { request_id, uid } => {
            lemma_request_prefix(request_id, uid, p);
        },
        CommissioningMessage::Result { request_id, uid, request_opcode, result, node_id, state } => {
            lemma_request_prefix(request_id, uid, p);
            lemma_node_byte_round_trip(node_id);
        },
    }
}

/// `raw` with its 12-bit token field (bits 10 to 21) replaced by `token`.
pub open spec fn with_token(raw: u32, token: u16) -> u32 {
    (raw & 0xFFC0_03FFu32) | ((token as u32) << 10u32)
}

proof fn lemma_with_token_fields(raw: u32, token: u16)
    requires
        token <= 0x0FFF,
    ensures
        crate::protocol::id_class(with_token(raw, token)) == crate::protocol::id_class(raw),
        crate::protocol::id_priority(with_token(raw, token)) == crate::protocol::id_priority(raw),
        crate::protocol::id_requester(with_token(raw, token)) == crate::protocol::id_requester(raw),
        crate::protocol::id_opcode(with_token(raw, token)) == crate::protocol::id_opcode(raw),
        crate::protocol::id_token(with_token(raw, token)) == token,
{
    let t: u32 = token as u32;
    assert((((raw & 0xFFC0_03FFu32) | (t << 10u32)) >> 22u32) & 15 == (raw >> 22u32) & 15) by (bit_vector)
        requires
            t <= 0x0FFF,
    ;
    assert((((raw & 0xFFC0_03FFu32) | (t << 10u32)) >> 26u32) & 7 == (raw >> 26u32) & 7) by (bit_vector)
        requires
            t <= 0x0FFF,
    ;
    assert((((raw & 0xFFC0_03FFu32) | (t << 10u32)) >> 6u32) & 15 == (raw >> 6u32) & 15) by (bit_vector)
        requires
            t <= 0x0FFF,
    ;
    assert(((raw & 0xFFC0_03FFu32) | (t << 10u32)) & 63 == raw & 63) by (bit_vector)
        requires
            t <= 0x0FFF,
    ;
    assert((((raw & 0xFFC0_03FFu32) | (t << 10u32)) >> 10u32) & 0x0FFF == t) by (bit_vector)
        requires
            t <= 0x0FFF,
    ;
}

/// A commissioning identifier whose token has been changed to any other
/// 12-bit value is refused, and the refusal names the token it carried:
/// every message kind checks its token against the payload.
pub proof fn lemma_corrupted_token_is_rejected(raw: u32, p: Seq<u8>, token: u16)
    requires
        spec_decode_commissioning(raw, p) is Ok,
        token <= 0x0FFF,
        token != crate::protocol::id_token(raw),
    ensures
        spec_decode_commissioning(with_token(raw, token), p) == Err::<
            (CommissioningHeader, CommissioningMessage),
            CodecError,
        >(CodecError::InvalidCommissioningToken(token)),
{
    lemma_with_token_fields(raw, token);
    let h = spec_commissioning_header_decode(raw)->Ok_0;
    let h2 = spec_commissioning_header_decode(with_token(raw, token))->Ok_0;
    assert(h2 == CommissioningHeader { token, ..h });
}

/// Every frame that encodes a valid commissioning message is refused once
/// its token is changed to any other 12-bit value.
pub proof fn lemma_encoded_frame_with_corrupted_token_is_rejected(
    requester: RequesterId,
    message: CommissioningMessage,
    token: u16,
)
    requires
        spec_commissioning_message_valid(requester, message),
        spec_encode_commissioning(requester, message) is Ok,
        token <= 0x0FFF,
        token != crate::protocol::id_token(spec_encode_commissioning(requester, message)->Ok_0.0),
    ensures
        spec_decode_commissioning(
            with_token(spec_encode_commissioning(requester, message)->Ok_0.0, token),
            spec_encode_commissioning(requester, message)->Ok_0.1,
        ) == Err::<(CommissioningHeader, CommissioningMessage), CodecError>(
            CodecError::InvalidCommissioningToken(token),
        ),
{
    lemma_commissioning_round_trip(requester, message);
    let f = spec_encode_commissioning(requester, message)->Ok_0;
    lemma_corrupted_token_is_rejected(f.0, f.1, token);
}

} // verus!