//! Codecs of the firmware-update messages: manifest, data chunks, staging,
//! activation and status.
use vstd::prelude::*;
use crate::types::{
    group_type_lemmas, CarrierProfile, FirmwareVersion, HardwareRevision, ImageTarget, NodeId,
    NodeRole, RequestId, RequesterId, Sha256Digest, UpdateError, UpdateImpact, UpdateManifest,
    UpdateSessionId, UpdateState,
};
use crate::wire::{
    first_nonzero, find_nonzero, lemma_first_nonzero_none, lemma_rd_put32, lemma_rd_put64, put32,
    put64, put_bytes, put_slice, put_u32, put_u64, rd32, rd64, rd_u32, zeros,
};
use crate::protocol::{
    group_id_lemmas, lemma_header_round_trip, lemma_rd_digest, lemma_rd_put_version, put_version,
    rd_digest, rd_version, read_digest, read_request_id, read_version, require_bool,
    require_host_requester, require_len, require_operational_node, require_priority,
    require_target, require_zero, require_zero_range, spec_header_decode, spec_header_new,
    spec_require_bool, spec_require_host_requester, spec_require_len,
    spec_require_operational_node, spec_require_priority, spec_require_target,
    spec_require_zero, spec_require_zero_range, write_version, CodecError, ExtendedId, Header,
    InvalidHeader, MessageClass, PayloadError, WireFrame, NODE_TARGET,
};
use crate::codec::{
    decode_id, finish_frame, frame_matches, lift_header, new_header, require_class,
    require_node_message_scoped, spec_frame, spec_require_class, spec_require_node_message_scoped,
};
use crate::telemetry::profile_byte;

verus! {

broadcast use {group_type_lemmas, group_id_lemmas};

#[derive(Clone, Copy, Debug, PartialEq, Eq)]
pub enum FirmwareRequest {
    Begin { request_id: RequestId, session: UpdateSessionId, manifest: UpdateManifest },
    Data { session: UpdateSessionId, offset: u32, len: u8, bytes: [u8; 48] },
    Finish { request_id: RequestId, session: UpdateSessionId },
    Activate { request_id: RequestId, session: UpdateSessionId, allow_interruption: bool },
    Abort { request_id: RequestId, session: UpdateSessionId },
    Status { request_id: RequestId },
}

/// The request identifier and session that open most firmware payloads.
pub open spec fn session_prefix(request_id: RequestId, session: UpdateSessionId) -> Seq<u8> {
    put32(put64(zeros(64), 0, request_id.0), 8, session.0)
}

/// The opcode, 64-byte body and length of a firmware request.
pub open spec fn spec_firmware_body(request: FirmwareRequest) -> Result<(u8, Seq<u8>, int), CodecError> {
    match request {
        FirmwareRequest::Begin { request_id, session, manifest } => if !manifest.target.spec_is_valid() {
            Err(CodecError::Payload(PayloadError::InvalidImageTarget))
        } else {
            let t = manifest.target;
            Ok(
                (
                    0u8,
                    put_bytes(
                        put_version(
                            put32(session_prefix(request_id, session), 12, manifest.image_size).update(
                                16,
                                t.role.spec_code(),
                            ).update(17, profile_byte(t.carrier_profile)).update(
                                18,
                                t.hardware_revision.spec_get(),
                            ).update(19, t.partition_layout),
                            20,
                            manifest.version,
                        ),
                        32,
                        manifest.digest.spec_bytes(),
                    ),
                    64int,
                ),
            )
        },
        FirmwareRequest::Data { session, offset, len, bytes } => if len == 0 || len > 48 {
            Err(CodecError::Payload(PayloadError::InvalidValue { offset: 8, value: len }))
        } else if first_nonzero(bytes@, len as int, 48) is Some {
            Err(CodecError::Payload(PayloadError::ReservedNonZero { offset: (len + 16) as u8 }))
        } else {
            Ok(
                (
                    1u8,
                    put_bytes(
                        put32(put32(zeros(64), 0, session.0), 4, offset).update(8, len),
                        16,
                        bytes@,
                    ),
                    64int,
                ),
            )
        },
        FirmwareRequest::Finish { request_id, session } => Ok(
            (2u8, session_prefix(request_id, session), 16int),
        ),
        FirmwareRequest::Activate { request_id, session, allow_interruption } => Ok(
            (
                3u8,
                session_prefix(request_id, session).update(
                    12,
                    if allow_interruption {
                        1u8
                    } else {
                        0u8
                    },
                ),
                16int,
            ),
        ),
        FirmwareRequest::Abort { request_id, session } => Ok(
            (4u8, session_prefix(request_id, session), 16int),
        ),
        FirmwareRequest::Status { request_id } => Ok((5u8, put64(zeros(64), 0, request_id.0), 8int)),
    }
}

pub open spec fn spec_encode_firmware_request(
    node: NodeId,
    requester: RequesterId,
    request: FirmwareRequest,
) -> Result<(u32, Seq<u8>), CodecError> {
    if let Err(e) = spec_require_host_requester(requester) {
        Err(e)
    } else {
        match spec_firmware_body(request) {
            Err(e) => Err(e),
            Ok((opcode, body, len)) => match lift_header(
                spec_header_new(5, MessageClass::Firmware, node.spec_get(), 0x0F, requester, opcode),
            ) {
                Err(e) => Err(e),
                Ok(h) => spec_frame(h, body.take(len)),
            },
        }
    }
}

fn write_session_prefix(payload: &mut Vec<u8>, request_id: RequestId, session: UpdateSessionId)
    requires
        old(payload)@ == zeros(64),
    ensures
        final(payload)@ == session_prefix(request_id, session),
{
    put_u64(payload, 0, request_id.0);
    put_u32(payload, 8, session.0);
}

pub fn encode_firmware_request(node: NodeId, requester: RequesterId, request: FirmwareRequest) -> (r:
    Result<WireFrame, CodecError>)
    ensures
        frame_matches(r, spec_encode_firmware_request(node, requester, request)),
{
    require_host_requester(requester)?;
    let mut payload = vec![0u8; 64];
    assert(payload@ =~= zeros(64));
    let (opcode, len): (u8, usize) = match request {
        FirmwareRequest::Begin { request_id, session, manifest } => {
            if manifest.target.validate().is_err() {
                return Err(CodecError::Payload(PayloadError::InvalidImageTarget));
            }
            write_session_prefix(&mut payload, request_id, session);
            put_u32(&mut payload, 12, manifest.image_size);
            payload.set(16, manifest.target.role.code());
            payload.set(
                17,
                match manifest.target.carrier_profile {
                    Some(profile) => profile.code(),
                    None => 0,
                },
            );
            payload.set(18, manifest.target.hardware_revision.get());
            payload.set(19, manifest.target.partition_layout);
            write_version(manifest.version, &mut payload, 20);
            put_slice(&mut payload, 32, manifest.digest.as_bytes());
            (0, 64)
        },
        FirmwareRequest::Data { session, offset, len, bytes } => {
            if len == 0 || len > 48 {
                return Err(CodecError::Payload(PayloadError::InvalidValue { offset: 8, value: len }));
            }
            if find_nonzero(&bytes, len as usize, 48).is_some() {
                return Err(CodecError::Payload(PayloadError::ReservedNonZero { offset: len + 16 }));
            }
            put_u32(&mut payload, 0, session.0);
            put_u32(&mut payload, 4, offset);
            payload.set(8, len);
            put_slice(&mut payload, 16, &bytes);
            (1, 64)
        },
        FirmwareRequest::Finish { request_id, session } => {
            write_session_prefix(&mut payload, request_id, session);
            (2, 16)
        },
        FirmwareRequest::Activate { request_id, session, allow_interruption } => {
            write_session_prefix(&mut payload, request_id, session);
            payload.set(
                12,
                if allow_interruption {
                    1
                } else {
                    0
                },
            );
            (3, 16)
        },
        FirmwareRequest::Abort { request_id, session } => {
            write_session_prefix(&mut payload, request_id, session);
            (4, 16)
        },
        FirmwareRequest::Status { request_id } => {
            put_u64(&mut payload, 0, request_id.0);
            (5, 8)
        },
    };
    assert(spec_firmware_body(request) == Ok::<(u8, Seq<u8>, int), CodecError>(
        (opcode, payload@, len as int),
    ));
    let header = new_header(5, MessageClass::Firmware, node.get(), NODE_TARGET, requester, opcode)?;
    finish_frame(header, vstd::slice::slice_subrange(payload.as_slice(), 0, len))
}

/// The 48-byte chunk whose bytes stand at offset 16 of `p`.
pub open spec fn rd_chunk(p: Seq<u8>) -> [u8; 48] {
    choose|a: [u8; 48]| a@ == p.subrange(16, 64)
}

proof fn lemma_rd_chunk(p: Seq<u8>, a: [u8; 48])
    requires
        a@ == p.subrange(16, 64),
    ensures
        rd_chunk(p) == a,
{
    let b = rd_chunk(p);
    assert(b@ == p.subrange(16, 64));
    assert(forall|i: int| 0 <= i < 48 ==> b[i] == a[i]);
    assert(b =~= a);
}

fn read_chunk(payload: &[u8]) -> (r: [u8; 48])
    requires
        payload@.len() == 64,
    ensures
        r == rd_chunk(payload@),
{
    let mut bytes = [0u8; 48];
    let mut i: usize = 0;
    while i < 48
        invariant
            i <= 48,
            payload@.len() == 64,
            forall|j: int| 0 <= j < i ==> bytes@[j] == payload@[16 + j],
        decreases 48 - i,
    {
        bytes[i] = payload[16 + i];
        i = i + 1;
    }
    assert(bytes@ =~= payload@.subrange(16, 64));
    proof {
        lemma_rd_chunk(payload@, bytes);
    }
    bytes
}

/// The request that a firmware payload of a known opcode carries.
pub open spec fn spec_decode_firmware_body(h: Header, p: Seq<u8>) -> Result<FirmwareRequest, CodecError> {
    if h.opcode == 0 {
        if let Err(e) = spec_require_len(p, 64) {
            Err(e)
        } else if let Err(e) = spec_require_zero_range(p, 26, 32) {
            Err(e)
        } else {
            match NodeRole::from_code(p[16]) {
                None => Err(CodecError::Payload(PayloadError::InvalidValue { offset: 16, value: p[16] })),
                Some(role) => if p[17] != 0 && CarrierProfile::from_code(p[17]) is None {
                    Err(CodecError::Payload(PayloadError::InvalidValue { offset: 17, value: p[17] }))
                } else if !HardwareRevision::valid_raw(p[18]) {
                    Err(CodecError::Payload(PayloadError::InvalidValue { offset: 18, value: p[18] }))
                } else {
                    let target = ImageTarget {
                        role,
                        carrier_profile: if p[17] == 0 {
                            None
                        } else {
                            CarrierProfile::from_code(p[17])
                        },
                        hardware_revision: HardwareRevision::spec_new(p[18]),
                        partition_layout: p[19],
                    };
                    if !target.spec_is_valid() {
                        Err(CodecError::Payload(PayloadError::InvalidImageTarget))
                    } else {
                        Ok(
                            FirmwareRequest::Begin {
                                request_id: RequestId(rd64(p, 0)),
                                session: UpdateSessionId(rd32(p, 8)),
                                manifest: UpdateManifest {
                                    target,
                                    version: rd_version(p, 20),
                                    image_size: rd32(p, 12),
                                    digest: rd_digest(p, 32),
                                },
                            },
                        )
                    }
                },
            }
        }
    } else if h.opcode == 1 {
        if let Err(e) = spec_require_len(p, 64) {
            Err(e)
        } else if let Err(e) = spec_require_zero_range(p, 9, 16) {
            Err(e)
        } else if p[8] == 0 || p[8] > 48 {
            Err(CodecError::Payload(PayloadError::InvalidValue { offset: 8, value: p[8] }))
        } else if first_nonzero(p, 16 + p[8], 64) is Some {
            Err(CodecError::Payload(PayloadError::ReservedNonZero { offset: (p[8] + 16) as u8 }))
        } else {
            Ok(
                FirmwareRequest::Data {
                    session: UpdateSessionId(rd32(p, 0)),
                    offset: rd32(p, 4),
                    len: p[8],
                    bytes: rd_chunk(p),
                },
            )
        }
    } else if h.opcode == 2 || h.opcode == 4 {
        if let Err(e) = spec_require_len(p, 16) {
            Err(e)
        } else if let Err(e) = spec_require_zero_range(p, 12, 16) {
            Err(e)
        } else if h.opcode == 2 {
            Ok(FirmwareRequest::Finish { request_id: RequestId(rd64(p, 0)), session: UpdateSessionId(rd32(p, 8)) })
        } else {
            Ok(FirmwareRequest::Abort { request_id: RequestId(rd64(p, 0)), session: UpdateSessionId(rd32(p, 8)) })
        }
    } else if h.opcode == 3 {
        if let Err(e) = spec_require_len(p, 16) {
            Err(e)
        } else if let Err(e) = spec_require_bool(p[12], 12) {
            Err(e)
        } else if let Err(e) = spec_require_zero_range(p, 13, 16) {
            Err(e)
        } else {
            Ok(
                FirmwareRequest::Activate {
                    request_id: RequestId(rd64(p, 0)),
                    session: UpdateSessionId(rd32(p, 8)),
                    allow_interruption: p[12] != 0,
                },
            )
        }
    } else if h.opcode == 5 {
        if let Err(e) = spec_require_len(p, 8) {
            Err(e)
        } else {
            Ok(FirmwareRequest::Status { request_id: RequestId(rd64(p, 0)) })
        }
    } else {
        Err(CodecError::UnknownOpcode(h.opcode))
    }
}

pub open spec fn spec_decode_firmware_request(id: u32, p: Seq<u8>) -> Result<
    (NodeId, RequesterId, FirmwareRequest),
    CodecError,
> {
    match lift_header(spec_header_decode(id)) {
        Err(e) => Err(e),
        Ok(h) => if let Err(e) = spec_require_class(h, MessageClass::Firmware) {
            Err(e)
        } else if let Err(e) = spec_require_priority(h.priority, 5) {
            Err(e)
        } else if let Err(e) = spec_require_target(h.target, 0x0F) {
            Err(e)
        } else if let Err(e) = spec_require_host_requester(h.requester) {
            Err(e)
        } else if !NodeId::valid_raw(h.node) {
            Err(CodecError::InvalidHeader(InvalidHeader::Node(h.node)))
        } else {
            match spec_decode_firmware_body(h, p) {
                Err(e) => Err(e),
                Ok(request) => Ok((NodeId::spec_new(h.node), h.requester, request)),
            }
        },
    }
}

pub fn decode_firmware_request(id: ExtendedId, payload: &[u8]) -> (r: Result<
    (NodeId, RequesterId, FirmwareRequest),
    CodecError,
>)
    ensures
        r == spec_decode_firmware_request(id.spec_get(), payload@),
{
    let header = decode_id(id)?;
    require_class(header, MessageClass::Firmware)?;
    require_priority(header.priority, 5)?;
    require_target(header.target, NODE_TARGET)?;
    require_host_requester(header.requester)?;
    let node = match NodeId::new(header.node) {
        Ok(node) => node,
        Err(error) => return Err(CodecError::InvalidHeader(InvalidHeader::Node(error.0))),
    };
    let request = match header.opcode {
        0 => {
            require_len(payload, 64)?;
            require_zero_range(payload, 26, 32)?;
            let role = match NodeRole::try_from(payload[16]) {
                Ok(role) => role,
                Err(error) => return Err(
                    CodecError::Payload(PayloadError::InvalidValue { offset: 16, value: error.0 }),
                ),
            };
            let carrier_profile = if payload[17] == 0 {
                None
            } else {
                match CarrierProfile::try_from(payload[17]) {
                    Ok(profile) => Some(profile),
                    Err(error) => return Err(
                        CodecError::Payload(PayloadError::InvalidValue { offset: 17, value: error.0 }),
                    ),
                }
            };
            let hardware_revision = match HardwareRevision::new(payload[18]) {
                Ok(revision) => revision,
                Err(error) => return Err(
                    CodecError::Payload(PayloadError::InvalidValue { offset: 18, value: error.0 }),
                ),
            };
            let target = ImageTarget {
                role,
                carrier_profile,
                hardware_revision,
                partition_layout: payload[19],
            };
            if target.validate().is_err() {
                return Err(CodecError::Payload(PayloadError::InvalidImageTarget));
            }
            let digest = read_digest(payload, 32);
            FirmwareRequest::Begin {
                request_id: read_request_id(payload)?,
                session: UpdateSessionId(rd_u32(payload, 8)),
                manifest: UpdateManifest {
                    target,
                    version: read_version(payload, 20),
                    image_size: rd_u32(payload, 12),
                    digest,
                },
            }
        },
        1 => {
            require_len(payload, 64)?;
            require_zero_range(payload, 9, 16)?;
            let len = payload[8];
            if len == 0 || len > 48 {
                return Err(CodecError::Payload(PayloadError::InvalidValue { offset: 8, value: len }));
            }
            let bytes = read_chunk(payload);
            if find_nonzero(payload, 16 + len as usize, 64).is_some() {
                return Err(CodecError::Payload(PayloadError::ReservedNonZero { offset: len + 16 }));
            }
            FirmwareRequest::Data {
                session: UpdateSessionId(rd_u32(payload, 0)),
                offset: rd_u32(payload, 4),
                len,
                bytes,
            }
        },
        2 => {
            require_len(payload, 16)?;
            require_zero_range(payload, 12, 16)?;
            FirmwareRequest::Finish {
                request_id: read_request_id(payload)?,
                session: UpdateSessionId(rd_u32(payload, 8)),
            }
        },
        3 => {
            require_len(payload, 16)?;
            require_bool(payload[12], 12)?;
            require_zero_range(payload, 13, 16)?;
            FirmwareRequest::Activate {
                request_id: read_request_id(payload)?,
                session: UpdateSessionId(rd_u32(payload, 8)),
                allow_interruption: payload[12] != 0,
            }
        },
        4 => {
            require_len(payload, 16)?;
            require_zero_range(payload, 12, 16)?;
            FirmwareRequest::Abort {
                request_id: read_request_id(payload)?,
                session: UpdateSessionId(rd_u32(payload, 8)),
            }
        },
        5 => {
            require_len(payload, 8)?;
            FirmwareRequest::Status { request_id: read_request_id(payload)? }
        },
        opcode => {
            return Err(CodecError::UnknownOpcode(opcode));
        },
    };
    Ok((node, header.requester, request))
}

/// A node's acknowledgement of a firmware request or of a window of data chunks.
#[derive(Clone, Copy, Debug, PartialEq, Eq)]
pub struct FirmwareAck {
    pub node: u8,
    pub requester: RequesterId,
    /// Zero for data-window acknowledgements, whose chunks carry no request identifier.
    pub request_id: RequestId,
    pub session: UpdateSessionId,
    pub next_offset: u32,
    pub state: UpdateState,
    pub error: UpdateError,
    pub window_frames: u8,
    pub detail: u32,
}

pub open spec fn spec_firmware_ack_payload(ack: FirmwareAck) -> Seq<u8> {
    put32(
        put32(put32(put64(zeros(24), 0, ack.request_id.0), 8, ack.session.0), 12, ack.next_offset).update(
            16,
            ack.state.spec_code(),
        ).update(17, ack.error.spec_code()).update(18, ack.window_frames),
        20,
        ack.detail,
    )
}

pub open spec fn spec_encode_firmware_ack(ack: FirmwareAck) -> Result<(u32, Seq<u8>), CodecError> {
    if let Err(e) = spec_require_operational_node(ack.node) {
        Err(e)
    } else if let Err(e) = spec_require_host_requester(ack.requester) {
        Err(e)
    } else {
        match lift_header(spec_header_new(5, MessageClass::Firmware, ack.node, 0x0F, ack.requester, 6)) {
            Err(e) => Err(e),
            Ok(h) => spec_frame(h, spec_firmware_ack_payload(ack)),
        }
    }
}

pub fn encode_firmware_ack(ack: FirmwareAck) -> (r: Result<WireFrame, CodecError>)
    ensures
        frame_matches(r, spec_encode_firmware_ack(ack)),
{
    require_operational_node(ack.node)?;
    require_host_requester(ack.requester)?;
    let header = new_header(5, MessageClass::Firmware, ack.node, NODE_TARGET, ack.requester, 6)?;
    let mut payload = vec![0u8; 24];
    put_u64(&mut payload, 0, ack.request_id.0);
    put_u32(&mut payload, 8, ack.session.0);
    put_u32(&mut payload, 12, ack.next_offset);
    payload.set(16, ack.state.code());
    payload.set(17, ack.error.code());
    payload.set(18, ack.window_frames);
    put_u32(&mut payload, 20, ack.detail);
    assert(payload@ == spec_firmware_ack_payload(ack));
    finish_frame(header, payload.as_slice())
}

pub open spec fn spec_decode_firmware_ack(id: u32, p: Seq<u8>) -> Result<FirmwareAck, CodecError> {
    match spec_require_node_message_scoped(id, p, MessageClass::Firmware, 6, 5, 24) {
        Err(e) => Err(e),
        Ok(h) => if let Err(e) = spec_require_zero(p, 19) {
            Err(e)
        } else {
            match UpdateState::from_code(p[16]) {
                None => Err(CodecError::Payload(PayloadError::InvalidValue { offset: 16, value: p[16] })),
                Some(state) => match UpdateError::from_code(p[17]) {
                    None => Err(CodecError::Payload(PayloadError::InvalidValue { offset: 17, value: p[17] })),
                    Some(error) => Ok(
                        FirmwareAck {
                            node: h.node,
                            requester: h.requester,
                            request_id: RequestId(rd64(p, 0)),
                            session: UpdateSessionId(rd32(p, 8)),
                            next_offset: rd32(p, 12),
                            state,
                            error,
                            window_frames: p[18],
                            detail: rd32(p, 20),
                        },
                    ),
                },
            }
        },
    }
}

pub fn decode_firmware_ack(id: ExtendedId, payload: &[u8]) -> (r: Result<FirmwareAck, CodecError>)
    ensures
        r == spec_decode_firmware_ack(id.spec_get(), payload@),
{
    let header = require_node_message_scoped(id, payload, MessageClass::Firmware, 6, 5, 24)?;
    require_zero(payload, 19)?;
    let request_id = read_request_id(payload)?;
    let state = match UpdateState::try_from(payload[16]) {
        Ok(state) => state,
        Err(error) => return Err(
            CodecError::Payload(PayloadError::InvalidValue { offset: 16, value: error.0 }),
        ),
    };
    let error = match UpdateError::try_from(payload[17]) {
        Ok(error) => error,
        Err(invalid) => return Err(
            CodecError::Payload(PayloadError::InvalidValue { offset: 17, value: invalid.0 }),
        ),
    };
    Ok(
        FirmwareAck {
            node: header.node,
            requester: header.requester,
            request_id,
            session: UpdateSessionId(rd_u32(payload, 8)),
            next_offset: rd_u32(payload, 12),
            state,
            error,
            window_frames: payload[18],
            detail: rd_u32(payload, 20),
        },
    )
}

/// Every acknowledgement that can be encoded decodes back to itself.
pub proof fn lemma_firmware_ack_round_trip(ack: FirmwareAck)
    requires
        ack.requester.spec_get() <= 15,
        spec_encode_firmware_ack(ack) is Ok,
    ensures
        spec_decode_firmware_ack(
            spec_encode_firmware_ack(ack)->Ok_0.0,
            spec_encode_firmware_ack(ack)->Ok_0.1,
        ) == Ok::<FirmwareAck, CodecError>(ack),
{
    let h = Header {
        priority: 5,
        class: MessageClass::Firmware,
        node: ack.node,
        target: 0x0F,
        requester: ack.requester,
        opcode: 6,
    };
    lemma_header_round_trip(h);
    let s0 = put64(zeros(24), 0, ack.request_id.0);
    let s1 = put32(s0, 8, ack.session.0);
    let s2 = put32(s1, 12, ack.next_offset);
    let s3 = s2.update(16, ack.state.spec_code()).update(17, ack.error.spec_code()).update(
        18,
        ack.window_frames,
    );
    lemma_rd_put64(zeros(24), 0, ack.request_id.0);
    lemma_rd_put32(s0, 8, ack.session.0);
    lemma_rd_put32(s1, 12, ack.next_offset);
    lemma_rd_put32(s3, 20, ack.detail);
    let p = spec_firmware_ack_payload(ack);
    assert(rd64(p, 0) == rd64(s0, 0));
    assert(rd32(p, 8) == rd32(s1, 8));
    assert(rd32(p, 12) == rd32(s2, 12));
}

/// A node's answer to a firmware status request.
#[derive(Clone, Copy, Debug, PartialEq, Eq)]
pub struct FirmwareStatus {
    pub node: u8,
    pub requester: RequesterId,
    pub request_id: RequestId,
    pub state: UpdateState,
    pub error: UpdateError,
    pub impact: UpdateImpact,
    pub running: FirmwareVersion,
    pub staged: Option<FirmwareVersion>,
    pub session: UpdateSessionId,
    pub next_offset: u32,
    pub digest: Sha256Digest,
}

pub open spec fn spec_firmware_status_head(status: FirmwareStatus) -> Seq<u8> {
    let s = put_version(
        put64(zeros(64), 0, status.request_id.0).update(8, status.state.spec_code()).update(
            9,
            status.error.spec_code(),
        ).update(10, status.impact.spec_code()).update(
            11,
            if status.staged is Some {
                1u8
            } else {
                0u8
            },
        ),
        12,
        status.running,
    );
    match status.staged {
        Some(staged) => put_version(s, 18, staged),
        None => s,
    }
}

pub open spec fn spec_firmware_status_payload(status: FirmwareStatus) -> Seq<u8> {
    put_bytes(
        put32(put32(spec_firmware_status_head(status), 24, status.session.0), 28, status.next_offset),
        32,
        status.digest.spec_bytes(),
    )
}

pub open spec fn spec_encode_firmware_status(status: FirmwareStatus) -> Result<(u32, Seq<u8>), CodecError> {
    if let Err(e) = spec_require_operational_node(status.node) {
        Err(e)
    } else if let Err(e) = spec_require_host_requester(status.requester) {
        Err(e)
    } else {
        match lift_header(
            spec_header_new(5, MessageClass::Firmware, status.node, 0x0F, status.requester, 7),
        ) {
            Err(e) => Err(e),
            Ok(h) => spec_frame(h, spec_firmware_status_payload(status)),
        }
    }
}

pub fn encode_firmware_status(status: FirmwareStatus) -> (r: Result<WireFrame, CodecError>)
    ensures
        frame_matches(r, spec_encode_firmware_status(status)),
{
    require_operational_node(status.node)?;
    require_host_requester(status.requester)?;
    let header = new_header(5, MessageClass::Firmware, status.node, NODE_TARGET, status.requester, 7)?;
    let mut payload = vec![0u8; 64];
    put_u64(&mut payload, 0, status.request_id.0);
    payload.set(8, status.state.code());
    payload.set(9, status.error.code());
    payload.set(10, status.impact.code());
    payload.set(
        11,
        if status.staged.is_some() {
            1
        } else {
            0
        },
    );
    write_version(status.running, &mut payload, 12);
    if let Some(staged) = status.staged {
        write_version(staged, &mut payload, 18);
    }
    assert(payload@ == spec_firmware_status_head(status));
    put_u32(&mut payload, 24, status.session.0);
    put_u32(&mut payload, 28, status.next_offset);
    put_slice(&mut payload, 32, status.digest.as_bytes());
    assert(payload@ == spec_firmware_status_payload(status));
    finish_frame(header, payload.as_slice())
}

pub open spec fn spec_decode_firmware_status(id: u32, p: Seq<u8>) -> Result<FirmwareStatus, CodecError> {
    match spec_require_node_message_scoped(id, p, MessageClass::Firmware, 7, 5, 64) {
        Err(e) => Err(e),
        Ok(h) => if let Err(e) = spec_require_bool(p[11], 11) {
            Err(e)
        } else if let Err(e) = (if p[11] == 0 {
            spec_require_zero_range(p, 18, 24)
        } else {
            Ok(())
        }) {
            Err(e)
        } else {
            match UpdateState::from_code(p[8]) {
                None => Err(CodecError::Payload(PayloadError::InvalidValue { offset: 8, value: p[8] })),
                Some(state) => match UpdateError::from_code(p[9]) {
                    None => Err(CodecError::Payload(PayloadError::InvalidValue { offset: 9, value: p[9] })),
                    Some(error) => match UpdateImpact::from_code(p[10]) {
                        None => Err(
                            CodecError::Payload(PayloadError::InvalidValue { offset: 10, value: p[10] }),
                        ),
                        Some(impact) => Ok(
                            FirmwareStatus {
                                node: h.node,
                                requester: h.requester,
                                request_id: RequestId(rd64(p, 0)),
                                state,
                                error,
                                impact,
                                running: rd_version(p, 12),
                                staged: if p[11] == 0 {
                                    None
                                } else {
                                    Some(rd_version(p, 18))
                                },
                                session: UpdateSessionId(rd32(p, 24)),
                                next_offset: rd32(p, 28),
                                digest: rd_digest(p, 32),
                            },
                        ),
                    },
                },
            }
        },
    }
}

pub fn decode_firmware_status(id: ExtendedId, payload: &[u8]) -> (r: Result<FirmwareStatus, CodecError>)
    ensures
        r == spec_decode_firmware_status(id.spec_get(), payload@),
{
    let header = require_node_message_scoped(id, payload, MessageClass::Firmware, 7, 5, 64)?;
    require_bool(payload[11], 11)?;
    let staged = if payload[11] == 0 {
        require_zero_range(payload, 18, 24)?;
        None
    } else {
        Some(read_version(payload, 18))
    };
    let digest = read_digest(payload, 32);
    let request_id = read_request_id(payload)?;
    let state = match UpdateState::try_from(payload[8]) {
        Ok(state) => state,
        Err(error) => return Err(
            CodecError::Payload(PayloadError::InvalidValue { offset: 8, value: error.0 }),
        ),
    };
    let error = match UpdateError::try_from(payload[9]) {
        Ok(error) => error,
        Err(invalid) => return Err(
            CodecError::Payload(PayloadError::InvalidValue { offset: 9, value: invalid.0 }),
        ),
    };
    let impact = match UpdateImpact::try_from(payload[10]) {
        Ok(impact) => impact,
        Err(invalid) => return Err(
            CodecError::Payload(PayloadError::InvalidValue { offset: 10, value: invalid.0 }),
        ),
    };
    Ok(
        FirmwareStatus {
            node: header.node,
            requester: header.requester,
            request_id,
            state,
            error,
            impact,
            running: read_version(payload, 12),
            staged,
            session: UpdateSessionId(rd_u32(payload, 24)),
            next_offset: rd_u32(payload, 28),
            digest,
        },
    )
}

/// Every status that can be encoded decodes back to itself.
pub proof fn lemma_firmware_status_round_trip(status: FirmwareStatus)
    requires
        status.requester.spec_get() <= 15,
        spec_encode_firmware_status(status) is Ok,
    ensures
        spec_decode_firmware_status(
            spec_encode_firmware_status(status)->Ok_0.0,
            spec_encode_firmware_status(status)->Ok_0.1,
        ) == Ok::<FirmwareStatus, CodecError>(status),
{
    let h = Header {
        priority: 5,
        class: MessageClass::Firmware,
        node: status.node,
        target: 0x0F,
        requester: status.requester,
        opcode: 7,
    };
    lemma_header_round_trip(h);
    let s0 = put64(zeros(64), 0, status.request_id.0);
    lemma_rd_put64(zeros(64), 0, status.request_id.0);
    let s1 = s0.update(8, status.state.spec_code()).update(9, status.error.spec_code()).update(
        10,
        status.impact.spec_code(),
    ).update(
        11,
        if status.staged is Some {
            1u8
        } else {
            0u8
        },
    );
    let s2 = put_version(s1, 12, status.running);
    lemma_rd_put_version(s1, 12, status.running);
    let head = spec_firmware_status_head(status);
    match status.staged {
        Some(staged) => {
            lemma_rd_put_version(s2, 18, staged);
        },
        None => {},
    }
    let t1 = put32(head, 24, status.session.0);
    let t2 = put32(t1, 28, status.next_offset);
    lemma_rd_put32(head, 24, status.session.0);
    lemma_rd_put32(t1, 28, status.next_offset);
    let p = spec_firmware_status_payload(status);
    assert(p.subrange(32, 64) =~= status.digest.spec_bytes());
    lemma_rd_digest(p, 32, status.digest);
    assert(forall|i: int| 0 <= i < 24 ==> p[i] == head[i]);
    assert(forall|i: int| 0 <= i < 18 ==> head[i] == s2[i]);
    assert(forall|i: int| 0 <= i < 12 ==> s2[i] == s1[i]);
    assert(forall|i: int| 0 <= i < 8 ==> s1[i] == s0[i]);
    assert(rd64(p, 0) == rd64(s0, 0));
    assert(rd_version(p, 12) == rd_version(s2, 12));
    assert(rd32(p, 24) == rd32(t1, 24));
    assert(rd32(p, 28) == rd32(t2, 28));
    if status.staged is None {
        lemma_first_nonzero_none(p, 18, 24);
    } else {
        assert(rd_version(p, 18) == rd_version(head, 18));
    }
}

/// The validity that the identifier types promise: an operational node, a
/// 4-bit requester and a hardware revision that is neither 0 nor 0xFF.
pub open spec fn spec_firmware_request_valid(node: NodeId, requester: RequesterId, request: FirmwareRequest) -> bool {
    &&& NodeId::valid_raw(node.spec_get())
    &&& requester.spec_get() <= 15
    &&& match request {
        FirmwareRequest::Begin { manifest, .. } => HardwareRevision::valid_raw(
            manifest.target.hardware_revision.spec_get(),
        ),
        _ => true,
    }
}

/// Every firmware request that can be encoded decodes back to itself.
#[verifier::rlimit(40)]
pub proof fn lemma_firmware_request_round_trip(node: NodeId, requester: RequesterId, request: FirmwareRequest)
    requires
        spec_firmware_request_valid(node, requester, request),
        spec_encode_firmware_request(node, requester, request) is Ok,
    ensures
        spec_decode_firmware_request(
            spec_encode_firmware_request(node, requester, request)->Ok_0.0,
            spec_encode_firmware_request(node, requester, request)->Ok_0.1,
        ) == Ok::<(NodeId, RequesterId, FirmwareRequest), CodecError>((node, requester, request)),
{
    let (opcode, body, len) = spec_firmware_body(request)->Ok_0;
    let h = Header {
        priority: 5,
        class: MessageClass::Firmware,
        node: node.spec_get(),
        target: 0x0F,
        requester,
        opcode,
    };
    lemma_header_round_trip(h);
    let p = body.take(len);
    match request {
        FirmwareRequest::Begin { request_id, session, manifest } => {
            let t = manifest.target;
            let s0 = put64(zeros(64), 0, request_id.0);
            let s1 = put32(s0, 8, session.0);
            let s2 = put32(s1, 12, manifest.image_size);
            let s3 = s2.update(16, t.role.spec_code()).update(17, profile_byte(t.carrier_profile)).update(
                18,
                t.hardware_revision.spec_get(),
            ).update(19, t.partition_layout);
            let s4 = put_version(s3, 20, manifest.version);
            lemma_rd_put64(zeros(64), 0, request_id.0);
            lemma_rd_put32(s0, 8, session.0);
            lemma_rd_put32(s1, 12, manifest.image_size);
            lemma_rd_put_version(s3, 20, manifest.version);
            assert(p.subrange(32, 64) =~= manifest.digest.spec_bytes());
            lemma_rd_digest(p, 32, manifest.digest);
            assert(forall|i: int| 0 <= i < 32 ==> p[i] == s4[i]);
            assert(forall|i: int| 0 <= i < 20 ==> s4[i] == s3[i]);
            assert(rd64(p, 0) == rd64(s0, 0));
            assert(rd32(p, 8) == rd32(s1, 8));
            assert(rd32(p, 12) == rd32(s2, 12));
            assert(rd_version(p, 20) == rd_version(s4, 20));
            lemma_first_nonzero_none(p, 26, 32);
        },
        FirmwareRequest::Data { session, offset, len: n, bytes } => {
            let s0 = put32(zeros(64), 0, session.0);
            let s1 = put32(s0, 4, offset);
            lemma_rd_put32(zeros(64), 0, session.0);
            lemma_rd_put32(s0, 4, offset);
            assert(forall|i: int| 0 <= i < 16 ==> p[i] == s1.update(8, n)[i]);
            assert(rd32(p, 0) == rd32(s0, 0));
            assert(rd32(p, 4) == rd32(s1, 4));
            lemma_first_nonzero_none(p, 9, 16);
            crate::wire::lemma_first_nonzero_some(bytes@, n as int, 48);
            assert(forall|i: int| 16 + n <= i < 64 ==> p[i] == bytes@[i - 16]);
            lemma_first_nonzero_none(p, 16 + n, 64);
            assert(p.subrange(16, 64) =~= bytes@);
            lemma_rd_chunk(p, bytes);
        },
        FirmwareRequest::Finish { request_id, session } => {
            let s0 = put64(zeros(64), 0, request_id.0);
            lemma_rd_put64(zeros(64), 0, request_id.0);
            lemma_rd_put32(s0, 8, session.0);
            assert(rd64(p, 0) == rd64(s0, 0));
            lemma_first_nonzero_none(p, 12, 16);
        },
        FirmwareRequest::Abort { request_id, session } => {
            let s0 = put64(zeros(64), 0, request_id.0);
            lemma_rd_put64(zeros(64), 0, request_id.0);
            lemma_rd_put32(s0, 8, session.0);
            assert(rd64(p, 0) == rd64(s0, 0));
            lemma_first_nonzero_none(p, 12, 16);
        },
        FirmwareRequest::Activate { request_id, session, allow_interruption } => {
            let s0 = put64(zeros(64), 0, request_id.0);
            let s1 = put32(s0, 8, session.0);
            lemma_rd_put64(zeros(64), 0, request_id.0);
            lemma_rd_put32(s0, 8, session.0);
            assert(rd64(p, 0) == rd64(s0, 0));
            assert(rd32(p, 8) == rd32(s1, 8));
            lemma_first_nonzero_none(p, 13, 16);
        },
        FirmwareRequest::Status { request_id } => {
            lemma_rd_put64(zeros(64), 0, request_id.0);
        },
    }
}

} // verus!
