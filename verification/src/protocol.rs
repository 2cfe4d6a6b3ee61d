//! The CAN-FD extended-identifier layout, frame container and shared
//! validation rules of the generation-2 bus protocol.
use vstd::prelude::*;
use crate::types::{
    group_type_lemmas, CommissioningState, FirmwareVersion, NodeId, NodeUid, RequestId,
    RequesterId, Sha256Digest,
};
use crate::wire::{find_nonzero, first_nonzero, lemma_rd_put16, put16, put_u16, rd16, rd64, rd_u16, rd_u64};

pub mod control_opcode;
pub mod response_opcode;
pub mod state_opcode;
pub mod telemetry_opcode;
pub mod management_opcode;
pub mod firmware_opcode;
pub mod commissioning_opcode;
pub mod definitions;

verus! {

broadcast use group_type_lemmas;

pub const EXTENDED_ID_MASK: u32 = 0x1FFF_FFFF;
pub const BROADCAST_NODE: u8 = 0;
pub const INVALID_NODE: u8 = 0xFF;
pub const NODE_TARGET: u8 = 0x0F;
pub const PROTOCOL_MAJOR: u8 = 1;
pub const PROTOCOL_MINOR: u8 = 0;
pub const FIRMWARE_CHUNK_BYTES: usize = 48;
pub const FIRMWARE_WINDOW_FRAMES: u8 = 8;

pub const PRIORITY_SHIFT: u32 = 26;
pub const CLASS_SHIFT: u32 = 22;
pub const NODE_SHIFT: u32 = 14;
pub const TARGET_SHIFT: u32 = 10;
pub const REQUESTER_SHIFT: u32 = 6;
pub const MAX_PRIORITY: u8 = 0x07;
pub const MAX_TARGET: u8 = 0x0F;
pub const MAX_OPCODE: u8 = 0x3F;

#[derive(Clone, Copy, Debug, PartialEq, Eq, Structural)]
pub enum MessageClass {
    Control,
    Response,
    State,
    Telemetry,
    Management,
    Configuration,
    Firmware,
    Commissioning,
    Debug,
}

impl MessageClass {
    /// The wire code of this value.
    pub open spec fn spec_code(self) -> u8 {
        match self {
            MessageClass::Control => 0,
            MessageClass::Response => 1,
            MessageClass::State => 2,
            MessageClass::Telemetry => 3,
            MessageClass::Management => 4,
            MessageClass::Configuration => 5,
            MessageClass::Firmware => 6,
            MessageClass::Commissioning => 14,
            MessageClass::Debug => 15,
        }
    }

    /// The value whose wire code is `value`, if there is one.
    pub open spec fn from_code(value: u8) -> Option<MessageClass> {
        if value == 0 {
            Some(MessageClass::Control)
        } else if value == 1 {
            Some(MessageClass::Response)
        } else if value == 2 {
            Some(MessageClass::State)
        } else if value == 3 {
            Some(MessageClass::Telemetry)
        } else if value == 4 {
            Some(MessageClass::Management)
        } else if value == 5 {
            Some(MessageClass::Configuration)
        } else if value == 6 {
            Some(MessageClass::Firmware)
        } else if value == 14 {
            Some(MessageClass::Commissioning)
        } else if value == 15 {
            Some(MessageClass::Debug)
        } else {
            None
        }
    }

    pub fn code(self) -> (r: u8)
        ensures
            r == self.spec_code(),
            MessageClass::from_code(r) == Some(self),
    {
        match self {
            MessageClass::Control => 0,
            MessageClass::Response => 1,
            MessageClass::State => 2,
            MessageClass::Telemetry => 3,
            MessageClass::Management => 4,
            MessageClass::Configuration => 5,
            MessageClass::Firmware => 6,
            MessageClass::Commissioning => 14,
            MessageClass::Debug => 15,
        }
    }

    pub fn try_from(value: u8) -> (r: Result<MessageClass, InvalidClass>)
        ensures
            r == (match MessageClass::from_code(value) {
                Some(v) => Ok::<MessageClass, InvalidClass>(v),
                None => Err(InvalidClass(value)),
            }),
    {
        match value {
            0 => Ok(MessageClass::Control),
            1 => Ok(MessageClass::Response),
            2 => Ok(MessageClass::State),
            3 => Ok(MessageClass::Telemetry),
            4 => Ok(MessageClass::Management),
            5 => Ok(MessageClass::Configuration),
            6 => Ok(MessageClass::Firmware),
            14 => Ok(MessageClass::Commissioning),
            15 => Ok(MessageClass::Debug),
            _ => Err(InvalidClass(value)),
        }
    }
}

#[derive(Clone, Copy, Debug, PartialEq, Eq, Structural)]
pub struct InvalidClass(pub u8);

/// The operational (non-commissioning) identifier fields.
#[derive(Clone, Copy, Debug, PartialEq, Eq, Structural)]
pub struct Header {
    pub priority: u8,
    pub class: MessageClass,
    pub node: u8,
    pub target: u8,
    pub requester: RequesterId,
    pub opcode: u8,
}

/// The header-construction rules, in the order they are checked.
pub open spec fn spec_header_new(
    priority: u8,
    class: MessageClass,
    node: u8,
    target: u8,
    requester: RequesterId,
    opcode: u8,
) -> Result<Header, InvalidHeader> {
    if priority > 7 {
        Err(InvalidHeader::Priority(priority))
    } else if node == 0xFF {
        Err(InvalidHeader::Node(node))
    } else if target > 15 {
        Err(InvalidHeader::Target(target))
    } else if opcode > 63 {
        Err(InvalidHeader::Opcode(opcode))
    } else {
        Ok(Header { priority, class, node, target, requester, opcode })
    }
}

/// The identifier bits of a header.
pub open spec fn spec_header_encode(h: Header) -> u32 {
    ((h.priority as u32) << 26u32) | ((h.class.spec_code() as u32) << 22u32) | ((h.node as u32)
        << 14u32) | ((h.target as u32) << 10u32) | ((h.requester.spec_get() as u32) << 6u32) | (
    h.opcode as u32)
}

pub open spec fn id_priority(raw: u32) -> u8 {
    ((raw >> 26u32) & 7) as u8
}

pub open spec fn id_class(raw: u32) -> u8 {
    ((raw >> 22u32) & 15) as u8
}

pub open spec fn id_node(raw: u32) -> u8 {
    ((raw >> 14u32) & 255) as u8
}

pub open spec fn id_target(raw: u32) -> u8 {
    ((raw >> 10u32) & 15) as u8
}

pub open spec fn id_token(raw: u32) -> u16 {
    ((raw >> 10u32) & 0x0FFF) as u16
}

pub open spec fn id_requester(raw: u32) -> u8 {
    ((raw >> 6u32) & 15) as u8
}

pub open spec fn id_opcode(raw: u32) -> u8 {
    (raw & 63) as u8
}

/// The header that an identifier carries, or why it carries none.
pub open spec fn spec_header_decode(raw: u32) -> Result<Header, InvalidHeader> {
    match MessageClass::from_code(id_class(raw)) {
        None => Err(InvalidHeader::Class(id_class(raw))),
        Some(class) => spec_header_new(
            id_priority(raw),
            class,
            id_node(raw),
            id_target(raw),
            RequesterId::spec_new(id_requester(raw)),
            id_opcode(raw),
        ),
    }
}

impl Header {
    pub open spec fn spec_is_valid(self) -> bool {
        &&& self.priority <= 7
        &&& self.node != 0xFF
        &&& self.target <= 15
        &&& self.requester.spec_get() <= 15
        &&& self.opcode <= 63
    }

    pub fn new(
        priority: u8,
        class: MessageClass,
        node: u8,
        target: u8,
        requester: RequesterId,
        opcode: u8,
    ) -> (r: Result<Self, InvalidHeader>)
        ensures
            r == spec_header_new(priority, class, node, target, requester, opcode),
    {
        if priority > MAX_PRIORITY {
            return Err(InvalidHeader::Priority(priority));
        }
        if node == INVALID_NODE {
            return Err(InvalidHeader::Node(node));
        }
        if target > MAX_TARGET {
            return Err(InvalidHeader::Target(target));
        }
        if opcode > MAX_OPCODE {
            return Err(InvalidHeader::Opcode(opcode));
        }
        Ok(Header { priority, class, node, target, requester, opcode })
    }

    pub fn encode(self) -> (r: ExtendedId)
        ensures
            r == ExtendedId::spec_new(spec_header_encode(self)),
    {
        ExtendedId(
            ((self.priority as u32) << PRIORITY_SHIFT) | ((self.class.code() as u32) << CLASS_SHIFT)
                | ((self.node as u32) << NODE_SHIFT) | ((self.target as u32) << TARGET_SHIFT) | ((
            self.requester.get() as u32) << REQUESTER_SHIFT) | (self.opcode as u32),
        )
    }

    pub fn decode(id: ExtendedId) -> (r: Result<Self, InvalidHeader>)
        ensures
            r == spec_header_decode(id.spec_get()),
    {
        let raw = id.get();
        let priority = ((raw >> PRIORITY_SHIFT) & 7) as u8;
        let class_raw = ((raw >> CLASS_SHIFT) & 15) as u8;
        let node = ((raw >> NODE_SHIFT) & 255) as u8;
        let target = ((raw >> TARGET_SHIFT) & 15) as u8;
        let requester_raw = ((raw >> REQUESTER_SHIFT) & 15) as u8;
        let opcode = (raw & 63) as u8;
        assert((raw >> 6u32) & 15 <= 15) by (bit_vector);
        let class = match MessageClass::try_from(class_raw) {
            Ok(class) => class,
            Err(InvalidClass(value)) => return Err(InvalidHeader::Class(value)),
        };
        let requester = match RequesterId::new(requester_raw) {
            Ok(requester) => requester,
            Err(error) => return Err(InvalidHeader::Requester(error.0)),
        };
        Self::new(priority, class, node, target, requester, opcode)
    }
}

/// Every valid header survives encoding to an identifier and decoding back.
pub proof fn lemma_header_round_trip(h: Header)
    requires
        h.spec_is_valid(),
    ensures
        spec_header_decode(spec_header_encode(h)) == Ok::<Header, InvalidHeader>(h),
{
    let p = h.priority;
    let c = h.class.spec_code();
    let n = h.node;
    let t = h.target;
    let q = h.requester.spec_get();
    let o = h.opcode;
    assert(c <= 15) by {
        reveal_class_codes(h.class);
    }
    let raw = spec_header_encode(h);
    assert(raw == ((p as u32) << 26u32) | ((c as u32) << 22u32) | ((n as u32) << 14u32) | ((
    t as u32) << 10u32) | ((q as u32) << 6u32) | (o as u32));
    lemma_id_fields(p, c, n, t, q, o);
    reveal_class_codes(h.class);
}

proof fn reveal_class_codes(c: MessageClass)
    ensures
        c.spec_code() <= 15,
        MessageClass::from_code(c.spec_code()) == Some(c),
{
}

/// The identifier bit fields are independent of one another.
pub proof fn lemma_id_fields(p: u8, c: u8, n: u8, t: u8, q: u8, o: u8)
    requires
        p <= 7,
        c <= 15,
        t <= 15,
        q <= 15,
        o <= 63,
    ensures
        ({
            let raw = ((p as u32) << 26u32) | ((c as u32) << 22u32) | ((n as u32) << 14u32) | ((
            t as u32) << 10u32) | ((q as u32) << 6u32) | (o as u32);
            &&& id_priority(raw) == p
            &&& id_class(raw) == c
            &&& id_node(raw) == n
            &&& id_target(raw) == t
            &&& id_requester(raw) == q
            &&& id_opcode(raw) == o
            &&& raw <= 0x1FFF_FFFF
        }),
{
    let p32 = p as u32;
    let c32 = c as u32;
    let n32 = n as u32;
    let t32 = t as u32;
    let q32 = q as u32;
    let o32 = o as u32;
    assert(({
        let raw = (p32 << 26u32) | (c32 << 22u32) | (n32 << 14u32) | (t32 << 10u32) | (q32 << 6u32)
            | o32;
        &&& ((raw >> 26u32) & 7) == p32
        &&& ((raw >> 22u32) & 15) == c32
        &&& ((raw >> 14u32) & 255) == n32
        &&& ((raw >> 10u32) & 15) == t32
        &&& ((raw >> 6u32) & 15) == q32
        &&& (raw & 63) == o32
        &&& raw <= 0x1FFF_FFFF
    })) by (bit_vector)
        requires
            p32 <= 7,
            c32 <= 15,
            n32 <= 255,
            t32 <= 15,
            q32 <= 15,
            o32 <= 63,
    ;
}

#[derive(Clone, Copy, Debug, PartialEq, Eq, Structural)]
pub enum InvalidHeader {
    Priority(u8),
    Class(u8),
    Node(u8),
    Target(u8),
    Requester(u8),
    Opcode(u8),
}

/// A 29-bit CAN extended identifier.
#[derive(Clone, Copy, Debug, PartialEq, Eq, Structural)]
pub struct ExtendedId(u32);

impl ExtendedId {
    pub closed spec fn spec_new(raw: u32) -> ExtendedId {
        ExtendedId(raw)
    }

    pub closed spec fn spec_get(self) -> u32 {
        self.0
    }

    pub broadcast proof fn lemma_new_get(raw: u32)
        ensures
            #[trigger] ExtendedId::spec_new(raw).spec_get() == raw,
    {
    }

    pub broadcast proof fn lemma_get_new(id: ExtendedId)
        ensures
            ExtendedId::spec_new(#[trigger] id.spec_get()) == id,
    {
    }

    pub fn new(raw: u32) -> (r: Result<Self, InvalidExtendedId>)
        ensures
            r == (if raw <= 0x1FFF_FFFF {
                Ok::<ExtendedId, InvalidExtendedId>(ExtendedId::spec_new(raw))
            } else {
                Err(InvalidExtendedId(raw))
            }),
    {
        if raw <= EXTENDED_ID_MASK {
            Ok(ExtendedId(raw))
        } else {
            Err(InvalidExtendedId(raw))
        }
    }

    pub fn get(self) -> (r: u32)
        ensures
            r == self.spec_get(),
    {
        self.0
    }
}

/// An identifier built from already-positioned header bits.
pub fn extended_id_unchecked(raw: u32) -> (r: ExtendedId)
    ensures
        r == ExtendedId::spec_new(raw),
{
    ExtendedId(raw)
}

pub broadcast group group_id_lemmas {
    ExtendedId::lemma_new_get,
    ExtendedId::lemma_get_new,
}

#[derive(Clone, Copy, Debug, PartialEq, Eq, Structural)]
pub struct InvalidExtendedId(pub u32);

#[derive(Clone, Copy, Debug, PartialEq, Eq, Structural)]
pub enum TargetKind {
    Node,
    Fan,
    Commissioning,
}

#[derive(Clone, Copy, Debug, PartialEq, Eq, Structural)]
pub enum MessageSender {
    Host,
    Node,
}

/// A message's registered identity, shape and direction.
#[derive(Clone, Copy, Debug, PartialEq, Eq)]
pub struct MessageDefinition {
    pub name: &'static str,
    pub class: MessageClass,
    pub opcode: u8,
    pub priority: u8,
    pub target: TargetKind,
    pub payload_len: u8,
    pub requester_scoped: bool,
    pub has_request_id: bool,
    pub sender: MessageSender,
}

/// The payload lengths that CAN-FD can carry.
pub open spec fn spec_is_can_fd_length(length: u8) -> bool {
    length <= 8 || length == 12 || length == 16 || length == 20 || length == 24 || length == 32
        || length == 48 || length == 64
}

pub fn is_can_fd_length(length: u8) -> (r: bool)
    ensures
        r == spec_is_can_fd_length(length),
{
    length <= 8 || length == 12 || length == 16 || length == 20 || length == 24 || length == 32
        || length == 48 || length == 64
}

/// One CAN-FD frame: an identifier and up to 64 payload bytes.
#[derive(Clone, Copy, Debug, PartialEq, Eq)]
pub struct WireFrame {
    id: ExtendedId,
    payload: [u8; 64],
    len: u8,
}

/// What constructing a frame from `payload` yields.
pub open spec fn spec_frame_check(payload: Seq<u8>) -> Option<FrameError> {
    if payload.len() > 255 {
        Some(FrameError::PayloadTooLong)
    } else if !spec_is_can_fd_length(payload.len() as u8) {
        Some(FrameError::InvalidCanFdLength(payload.len() as u8))
    } else {
        None
    }
}

impl WireFrame {
    #[verifier::type_invariant]
    spec fn inv(self) -> bool {
        self.len <= 64
    }

    pub closed spec fn spec_id(self) -> ExtendedId {
        self.id
    }

    pub closed spec fn spec_payload(self) -> Seq<u8> {
        self.payload@.take(self.len as int)
    }

    pub fn new(id: ExtendedId, payload: &[u8]) -> (r: Result<Self, FrameError>)
        ensures
            match spec_frame_check(payload@) {
                None => r matches Ok(f) && f.spec_id() == id && f.spec_payload() == payload@,
                Some(e) => r == Err::<WireFrame, FrameError>(e),
            },
    {
        if payload.len() > 255 {
            return Err(FrameError::PayloadTooLong);
        }
        let len = payload.len() as u8;
        if !is_can_fd_length(len) {
            return Err(FrameError::InvalidCanFdLength(len));
        }
        let mut storage = [0u8; 64];
        let mut i: usize = 0;
        while i < payload.len()
            invariant
                i <= payload@.len() <= 64,
                forall|j: int| 0 <= j < i ==> storage@[j] == payload@[j],
            decreases payload@.len() - i,
        {
            storage[i] = payload[i];
            i = i + 1;
        }
        let frame = WireFrame { id, payload: storage, len };
        assert(frame.spec_payload() =~= payload@);
        Ok(frame)
    }

    pub fn id(&self) -> (r: ExtendedId)
        ensures
            r == self.spec_id(),
    {
        self.id
    }

    pub fn payload(&self) -> (r: &[u8])
        ensures
            r@ == self.spec_payload(),
    {
        proof {
            use_type_invariant(self);
        }
        vstd::slice::slice_subrange(self.payload.as_slice(), 0, self.len as usize)
    }
}

#[derive(Clone, Copy, Debug, PartialEq, Eq, Structural)]
pub enum FrameError {
    PayloadTooLong,
    InvalidCanFdLength(u8),
}

#[derive(Clone, Copy, Debug, PartialEq, Eq, Structural)]
pub enum PayloadError {
    WrongLength { expected: u8, actual: u8 },
    ReservedNonZero { offset: u8 },
    InvalidValue { offset: u8, value: u8 },
    InvalidNodeId(u8),
    InvalidFanId(u8),
    InvalidDescriptor,
    InvalidPolicy,
    InvalidTemperature,
    InvalidImageTarget,
}

#[derive(Clone, Copy, Debug, PartialEq, Eq, Structural)]
pub enum CodecError {
    InvalidHeader(InvalidHeader),
    InvalidFrame(FrameError),
    Payload(PayloadError),
    UnexpectedClass(u8),
    UnknownOpcode(u8),
    WrongTarget(u8),
    InvalidCommissioningToken(u16),
}

/// The length byte that length checks report: the length itself, saturated at 255.
pub open spec fn len_byte(n: nat) -> u8 {
    if n <= 255 {
        n as u8
    } else {
        255
    }
}

pub open spec fn spec_require_len(payload: Seq<u8>, expected: u8) -> Result<(), CodecError> {
    if len_byte(payload.len()) == expected {
        Ok(())
    } else {
        Err(
            CodecError::Payload(
                PayloadError::WrongLength { expected, actual: len_byte(payload.len()) },
            ),
        )
    }
}

pub fn require_len(payload: &[u8], expected: u8) -> (r: Result<(), CodecError>)
    ensures
        r == spec_require_len(payload@, expected),
{
    let actual: u8 = if payload.len() <= 255 {
        payload.len() as u8
    } else {
        255
    };
    if actual == expected {
        Ok(())
    } else {
        Err(CodecError::Payload(PayloadError::WrongLength { expected, actual }))
    }
}

pub open spec fn spec_require_target(actual: u8, expected: u8) -> Result<(), CodecError> {
    if actual == expected {
        Ok(())
    } else {
        Err(CodecError::WrongTarget(actual))
    }
}

pub fn require_target(actual: u8, expected: u8) -> (r: Result<(), CodecError>)
    ensures
        r == spec_require_target(actual, expected),
{
    if actual == expected {
        Ok(())
    } else {
        Err(CodecError::WrongTarget(actual))
    }
}

pub open spec fn spec_require_priority(actual: u8, expected: u8) -> Result<(), CodecError> {
    if actual == expected {
        Ok(())
    } else {
        Err(CodecError::InvalidHeader(InvalidHeader::Priority(actual)))
    }
}

pub fn require_priority(actual: u8, expected: u8) -> (r: Result<(), CodecError>)
    ensures
        r == spec_require_priority(actual, expected),
{
    if actual == expected {
        Ok(())
    } else {
        Err(CodecError::InvalidHeader(InvalidHeader::Priority(actual)))
    }
}

/// Protocol-originated traffic carries the reserved requester zero.
pub open spec fn spec_require_protocol_requester(requester: RequesterId) -> Result<(), CodecError> {
    if requester.spec_get() == 0 {
        Ok(())
    } else {
        Err(CodecError::InvalidHeader(InvalidHeader::Requester(requester.spec_get())))
    }
}

pub fn require_protocol_requester(requester: RequesterId) -> (r: Result<(), CodecError>)
    ensures
        r == spec_require_protocol_requester(requester),
{
    if requester.get() == 0 {
        Ok(())
    } else {
        Err(CodecError::InvalidHeader(InvalidHeader::Requester(requester.get())))
    }
}

/// Host traffic never carries the reserved requester zero.
pub open spec fn spec_require_host_requester(requester: RequesterId) -> Result<(), CodecError> {
    if requester.spec_get() == 0 {
        Err(CodecError::InvalidHeader(InvalidHeader::Requester(requester.spec_get())))
    } else {
        Ok(())
    }
}

pub fn require_host_requester(requester: RequesterId) -> (r: Result<(), CodecError>)
    ensures
        r == spec_require_host_requester(requester),
{
    if requester.is_protocol_reserved() {
        Err(CodecError::InvalidHeader(InvalidHeader::Requester(requester.get())))
    } else {
        Ok(())
    }
}

pub open spec fn spec_require_operational_node(node: u8) -> Result<(), CodecError> {
    if NodeId::valid_raw(node) {
        Ok(())
    } else {
        Err(CodecError::InvalidHeader(InvalidHeader::Node(node)))
    }
}

pub fn require_operational_node(node: u8) -> (r: Result<(), CodecError>)
    ensures
        r == spec_require_operational_node(node),
{
    match NodeId::new(node) {
        Ok(_) => Ok(()),
        Err(error) => Err(CodecError::InvalidHeader(InvalidHeader::Node(error.0))),
    }
}

pub open spec fn spec_require_bool(value: u8, offset: u8) -> Result<(), CodecError> {
    if value <= 1 {
        Ok(())
    } else {
        Err(CodecError::Payload(PayloadError::InvalidValue { offset, value }))
    }
}

pub fn require_bool(value: u8, offset: u8) -> (r: Result<(), CodecError>)
    ensures
        r == spec_require_bool(value, offset),
{
    if value <= 1 {
        Ok(())
    } else {
        Err(CodecError::Payload(PayloadError::InvalidValue { offset, value }))
    }
}

pub open spec fn spec_require_token(actual: u16, expected: u16) -> Result<(), CodecError> {
    if actual == expected {
        Ok(())
    } else {
        Err(CodecError::InvalidCommissioningToken(actual))
    }
}

pub fn require_token(actual: u16, expected: u16) -> (r: Result<(), CodecError>)
    ensures
        r == spec_require_token(actual, expected),
{
    if actual == expected {
        Ok(())
    } else {
        Err(CodecError::InvalidCommissioningToken(actual))
    }
}

/// The offset byte that reserved-byte errors report.
pub open spec fn offset_byte(offset: int) -> u8 {
    if 0 <= offset <= 255 {
        offset as u8
    } else {
        255
    }
}

pub open spec fn spec_require_zero(payload: Seq<u8>, offset: int) -> Result<(), CodecError> {
    if payload[offset] == 0 {
        Ok(())
    } else {
        Err(CodecError::Payload(PayloadError::ReservedNonZero { offset: offset_byte(offset) }))
    }
}

pub fn require_zero(payload: &[u8], offset: usize) -> (r: Result<(), CodecError>)
    requires
        offset < payload@.len(),
    ensures
        r == spec_require_zero(payload@, offset as int),
{
    if payload[offset] == 0 {
        Ok(())
    } else {
        let reported: u8 = if offset <= 255 {
            offset as u8
        } else {
            255
        };
        Err(CodecError::Payload(PayloadError::ReservedNonZero { offset: reported }))
    }
}

/// Every reserved byte in `start..end` must be zero; the first that is not is reported.
pub open spec fn spec_require_zero_range(payload: Seq<u8>, start: int, end: int) -> Result<
    (),
    CodecError,
> {
    match first_nonzero(payload, start, end) {
        None => Ok(()),
        Some(k) => Err(CodecError::Payload(PayloadError::ReservedNonZero { offset: offset_byte(k) })),
    }
}

pub fn require_zero_range(payload: &[u8], start: usize, end: usize) -> (r: Result<(), CodecError>)
    requires
        start <= end <= payload@.len(),
    ensures
        r == spec_require_zero_range(payload@, start as int, end as int),
{
    match find_nonzero(payload, start, end) {
        None => Ok(()),
        Some(k) => {
            let reported: u8 = if k <= 255 {
                k as u8
            } else {
                255
            };
            Err(CodecError::Payload(PayloadError::ReservedNonZero { offset: reported }))
        },
    }
}

pub open spec fn spec_decode_node(raw: u8) -> Result<Option<NodeId>, CodecError> {
    if raw == 0 {
        Ok(None)
    } else if NodeId::valid_raw(raw) {
        Ok(Some(NodeId::spec_new(raw)))
    } else {
        Err(CodecError::Payload(PayloadError::InvalidNodeId(raw)))
    }
}

pub fn decode_node(raw: u8) -> (r: Result<Option<NodeId>, CodecError>)
    ensures
        r == spec_decode_node(raw),
{
    if raw == BROADCAST_NODE {
        Ok(None)
    } else {
        match NodeId::new(raw) {
            Ok(id) => Ok(Some(id)),
            Err(error) => Err(CodecError::Payload(PayloadError::InvalidNodeId(error.0))),
        }
    }
}

/// The address byte of an optional node: zero when absent.
pub open spec fn node_byte(node: Option<NodeId>) -> u8 {
    match node {
        Some(id) => id.spec_get(),
        None => 0,
    }
}

pub fn encode_node(node: Option<NodeId>) -> (r: u8)
    ensures
        r == node_byte(node),
{
    match node {
        Some(id) => id.get(),
        None => BROADCAST_NODE,
    }
}

pub open spec fn spec_decode_commissioning_state(raw: u8, offset: u8) -> Result<
    CommissioningState,
    CodecError,
> {
    match CommissioningState::from_code(raw) {
        Some(s) => Ok(s),
        None => Err(CodecError::Payload(PayloadError::InvalidValue { offset, value: raw })),
    }
}

pub fn decode_commissioning_state(raw: u8, offset: u8) -> (r: Result<CommissioningState, CodecError>)
    ensures
        r == spec_decode_commissioning_state(raw, offset),
{
    match CommissioningState::try_from(raw) {
        Ok(s) => Ok(s),
        Err(error) => Err(CodecError::Payload(PayloadError::InvalidValue { offset, value: error.0 })),
    }
}

pub open spec fn spec_read_request_id(payload: Seq<u8>) -> Result<RequestId, CodecError> {
    if payload.len() < 8 {
        Err(
            CodecError::Payload(
                PayloadError::WrongLength { expected: 8, actual: len_byte(payload.len()) },
            ),
        )
    } else {
        Ok(RequestId(rd64(payload, 0)))
    }
}

pub fn read_request_id(payload: &[u8]) -> (r: Result<RequestId, CodecError>)
    ensures
        r == spec_read_request_id(payload@),
{
    if payload.len() < 8 {
        let actual: u8 = if payload.len() <= 255 {
            payload.len() as u8
        } else {
            255
        };
        return Err(CodecError::Payload(PayloadError::WrongLength { expected: 8, actual }));
    }
    Ok(RequestId(rd_u64(payload, 0)))
}

pub open spec fn put_version(s: Seq<u8>, o: int, v: FirmwareVersion) -> Seq<u8> {
    put16(put16(put16(s, o, v.major), o + 2, v.minor), o + 4, v.patch)
}

pub open spec fn rd_version(s: Seq<u8>, o: int) -> FirmwareVersion {
    FirmwareVersion { major: rd16(s, o), minor: rd16(s, o + 2), patch: rd16(s, o + 4) }
}

pub proof fn lemma_rd_put_version(s: Seq<u8>, o: int, v: FirmwareVersion)
    requires
        0 <= o,
        o + 6 <= s.len(),
    ensures
        rd_version(put_version(s, o, v), o) == v,
        put_version(s, o, v).len() == s.len(),
        forall|i: int| 0 <= i < s.len() && !(o <= i < o + 6) ==> put_version(s, o, v)[i] == s[i],
{
    let s1 = put16(s, o, v.major);
    let s2 = put16(s1, o + 2, v.minor);
    let s3 = put16(s2, o + 4, v.patch);
    lemma_rd_put16(s, o, v.major);
    lemma_rd_put16(s1, o + 2, v.minor);
    lemma_rd_put16(s2, o + 4, v.patch);
    assert(rd16(s3, o) == rd16(s1, o));
    assert(rd16(s3, o + 2) == rd16(s2, o + 2));
}

pub fn write_version(version: FirmwareVersion, payload: &mut Vec<u8>, offset: usize)
    requires
        offset + 6 <= old(payload)@.len(),
    ensures
        final(payload)@ == put_version(old(payload)@, offset as int, version),
{
    let _n = payload.len();
    put_u16(payload, offset, version.major);
    put_u16(payload, offset + 2, version.minor);
    put_u16(payload, offset + 4, version.patch);
}

pub fn read_version(payload: &[u8], offset: usize) -> (r: FirmwareVersion)
    requires
        offset + 6 <= payload@.len(),
    ensures
        r == rd_version(payload@, offset as int),
{
    let _n = payload.len();
    FirmwareVersion {
        major: rd_u16(payload, offset),
        minor: rd_u16(payload, offset + 2),
        patch: rd_u16(payload, offset + 4),
    }
}

/// The identifier whose twelve bytes stand at offset `o` of `s`.
pub open spec fn rd_uid(s: Seq<u8>, o: int) -> NodeUid {
    choose|u: NodeUid| u.spec_bytes() == s.subrange(o, o + 12)
}

/// Reading an identifier gives the one with exactly those bytes.
pub proof fn lemma_rd_uid(s: Seq<u8>, o: int, uid: NodeUid)
    requires
        uid.spec_bytes() == s.subrange(o, o + 12),
    ensures
        rd_uid(s, o) == uid,
{
    let u = rd_uid(s, o);
    assert(u.spec_bytes() == s.subrange(o, o + 12));
    NodeUid::lemma_ext(u, uid);
}

pub fn read_uid(bytes: &[u8], offset: usize) -> (r: NodeUid)
    requires
        offset + 12 <= bytes@.len(),
    ensures
        r == rd_uid(bytes@, offset as int),
        r.spec_bytes() == bytes@.subrange(offset as int, offset + 12),
{
    let _n = bytes.len();
    let mut uid = [0u8; 12];
    let mut i: usize = 0;
    while i < 12
        invariant
            i <= 12,
            offset + 12 <= bytes@.len(),
            bytes@.len() <= usize::MAX,
            forall|j: int| 0 <= j < i ==> uid@[j] == bytes@[offset + j],
        decreases 12 - i,
    {
        uid[i] = bytes[offset + i];
        i = i + 1;
    }
    let r = NodeUid::from_bytes(uid);
    assert(r.spec_bytes() =~= bytes@.subrange(offset as int, offset + 12));
    proof {
        lemma_rd_uid(bytes@, offset as int, r);
    }
    r
}

/// The digest whose thirty-two bytes stand at offset `o` of `s`.
pub open spec fn rd_digest(s: Seq<u8>, o: int) -> Sha256Digest {
    choose|d: Sha256Digest| d.spec_bytes() == s.subrange(o, o + 32)
}

pub proof fn lemma_rd_digest(s: Seq<u8>, o: int, digest: Sha256Digest)
    requires
        digest.spec_bytes() == s.subrange(o, o + 32),
    ensures
        rd_digest(s, o) == digest,
{
    let d = rd_digest(s, o);
    assert(d.spec_bytes() == s.subrange(o, o + 32));
    Sha256Digest::lemma_ext(d, digest);
}

pub fn read_digest(bytes: &[u8], offset: usize) -> (r: Sha256Digest)
    requires
        offset + 32 <= bytes@.len(),
    ensures
        r == rd_digest(bytes@, offset as int),
{
    let _n = bytes.len();
    let mut digest = [0u8; 32];
    let mut i: usize = 0;
    while i < 32
        invariant
            i <= 32,
            offset + 32 <= bytes@.len(),
            bytes@.len() <= usize::MAX,
            forall|j: int| 0 <= j < i ==> digest@[j] == bytes@[offset + j],
        decreases 32 - i,
    {
        digest[i] = bytes[offset + i];
        i = i + 1;
    }
    let r = Sha256Digest::from_bytes(digest);
    assert(r.spec_bytes() =~= bytes@.subrange(offset as int, offset + 32));
    proof {
        lemma_rd_digest(bytes@, offset as int, r);
    }
    r
}

} // verus!
