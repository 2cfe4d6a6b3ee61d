//! The 96-byte configuration record that nodes keep in two flash slots.
//!
//! Layout: magic `PDC2` (0..4), format 1 (4), kind (5), payload length (6),
//! a reserved zero (7), the generation (8..12), a CRC-32 (12..16) over bytes
//! 0..12 and 16..92, up to 72 payload bytes zero-padded (16..88), zeros
//! (88..92) and the commit word (92..96), which is written last.
use vstd::prelude::*;
use crate::wire::{
    first_nonzero, find_nonzero, lemma_first_nonzero_none, lemma_rd_put32, put32, put_bytes,
    put_slice, put_u32, rd32, rd_u32, zeros,
};
use crate::commissioning::{crc_bit, crc_rounds, crc_update, spec_crc32};

verus! {

pub const RECORD_BYTES: usize = 96;
pub const PAYLOAD_BYTES: usize = 72;
pub const COMMIT_OFFSET: usize = RECORD_BYTES - 4;
const FORMAT_VERSION: u8 = 1;
const PAYLOAD_OFFSET: usize = 16;

pub open spec fn erased_word() -> Seq<u8> {
    seq![0xFFu8, 0xFF, 0xFF, 0xFF]
}

pub open spec fn commit_word() -> Seq<u8> {
    seq![0x50u8, 0x44, 0x43, 0x32]
}

/// The record magic `PDC2`, which is also the commit word.
pub open spec fn record_magic() -> Seq<u8> {
    seq![0x50u8, 0x44, 0x43, 0x32]
}

/// What a slot holds after an erase.
#[allow(non_snake_case)]
pub fn ERASED_WORD() -> (r: [u8; 4])
    ensures
        r@ == erased_word(),
{
    let r = [0xFFu8; 4];
    assert(r@ =~= erased_word());
    r
}

/// The word that marks a fully written record.
#[allow(non_snake_case)]
pub fn COMMIT_WORD() -> (r: [u8; 4])
    ensures
        r@ == commit_word(),
{
    let r = [0x50u8, 0x44, 0x43, 0x32];
    assert(r@ =~= commit_word());
    r
}

fn magic() -> (r: [u8; 4])
    ensures
        r@ == record_magic(),
{
    let r = [0x50u8, 0x44, 0x43, 0x32];
    assert(r@ =~= record_magic());
    r
}

#[derive(Clone, Copy, Debug, PartialEq, Eq, Structural)]
pub enum RecordKind {
    BackplaneConfiguration,
    CarrierConfiguration,
    StagedUpdate,
}

impl RecordKind {
    pub open spec fn spec_code(self) -> u8 {
        match self {
            RecordKind::BackplaneConfiguration => 1,
            RecordKind::CarrierConfiguration => 2,
            RecordKind::StagedUpdate => 3,
        }
    }

    pub open spec fn from_code(value: u8) -> Option<RecordKind> {
        if value == 1 {
            Some(RecordKind::BackplaneConfiguration)
        } else if value == 2 {
            Some(RecordKind::CarrierConfiguration)
        } else if value == 3 {
            Some(RecordKind::StagedUpdate)
        } else {
            None
        }
    }

    pub fn code(self) -> (r: u8)
        ensures
            r == self.spec_code(),
    {
        match self {
            RecordKind::BackplaneConfiguration => 1,
            RecordKind::CarrierConfiguration => 2,
            RecordKind::StagedUpdate => 3,
        }
    }

    pub fn try_from(value: u8) -> (r: Result<RecordKind, DecodeError>)
        ensures
            r == (match RecordKind::from_code(value) {
                Some(k) => Ok::<RecordKind, DecodeError>(k),
                None => Err(DecodeError::InvalidKind(value)),
            }),
    {
        match value {
            1 => Ok(RecordKind::BackplaneConfiguration),
            2 => Ok(RecordKind::CarrierConfiguration),
            3 => Ok(RecordKind::StagedUpdate),
            _ => Err(DecodeError::InvalidKind(value)),
        }
    }
}

/// Up to 72 payload bytes, stored zero-padded.
#[derive(Clone, Copy, Debug, PartialEq, Eq)]
pub struct Payload {
    bytes: [u8; 72],
    len: u8,
}

impl Payload {
    /// The payload's bytes.
    pub closed spec fn spec_bytes(self) -> Seq<u8> {
        self.bytes@.take(self.len as int)
    }

    /// At most 72 bytes are used and the padding after them is zero.
    pub closed spec fn wf(self) -> bool {
        &&& self.len <= 72
        &&& forall|i: int| self.len <= i < 72 ==> self.bytes@[i] == 0
    }

    #[verifier::type_invariant]
    spec fn padded(self) -> bool {
        self.wf()
    }

    /// The 72-byte zero-padded storage of a well-formed payload.
    pub proof fn lemma_storage(self)
        requires
            self.wf(),
        ensures
            self.spec_bytes().len() <= 72,
            self.storage() == self.spec_bytes() + zeros((72 - self.spec_bytes().len()) as nat),
    {
        assert(self.storage() =~= self.spec_bytes() + zeros((72 - self.spec_bytes().len()) as nat));
    }

    pub closed spec fn storage(self) -> Seq<u8> {
        self.bytes@
    }

    /// Two well-formed payloads with the same bytes are the same payload.
    pub proof fn lemma_ext(a: Payload, b: Payload)
        requires
            a.wf(),
            b.wf(),
            a.spec_bytes() == b.spec_bytes(),
        ensures
            a == b,
    {
        assert(a.spec_bytes().len() == a.len);
        assert(b.spec_bytes().len() == b.len);
        assert(a.len == b.len);
        assert forall|i: int| 0 <= i < 72 implies a.bytes@[i] == b.bytes@[i] by {
            if i < a.len {
                assert(a.spec_bytes()[i] == a.bytes@[i]);
                assert(b.spec_bytes()[i] == b.bytes@[i]);
            }
        }
        assert(a.bytes =~= b.bytes);
    }

    pub fn new(bytes: &[u8]) -> (r: Result<Self, EncodeError>)
        ensures
            bytes@.len() > 72 ==> r == Err::<Payload, EncodeError>(EncodeError::PayloadTooLong),
            bytes@.len() <= 72 ==> (r matches Ok(p) && p.wf() && p.spec_bytes() == bytes@),
    {
        if bytes.len() > PAYLOAD_BYTES {
            return Err(EncodeError::PayloadTooLong);
        }
        let len = bytes.len() as u8;
        let mut storage = [0u8; 72];
        let mut i: usize = 0;
        while i < bytes.len()
            invariant
                i <= bytes@.len() <= 72,
                forall|j: int| 0 <= j < i ==> storage@[j] == bytes@[j],
                forall|j: int| i <= j < 72 ==> storage@[j] == 0,
            decreases bytes@.len() - i,
        {
            storage[i] = bytes[i];
            i = i + 1;
        }
        let p = Payload { bytes: storage, len };
        assert(p.spec_bytes() =~= bytes@);
        Ok(p)
    }

    pub fn as_bytes(&self) -> (r: &[u8])
        ensures
            r@ == self.spec_bytes(),
    {
        proof {
            use_type_invariant(self);
        }
        vstd::slice::slice_subrange(self.bytes.as_slice(), 0, self.len as usize)
    }
}

#[derive(Clone, Copy, Debug, PartialEq, Eq)]
pub struct Record {
    pub kind: RecordKind,
    pub generation: u32,
    pub payload: Payload,
}

/// A record as plain values: its kind, generation and payload bytes.
pub struct RecordModel {
    pub kind: RecordKind,
    pub generation: u32,
    pub payload: Seq<u8>,
}

pub open spec fn record_model(record: Record) -> RecordModel {
    RecordModel { kind: record.kind, generation: record.generation, payload: record.payload.spec_bytes() }
}

#[derive(Clone, Copy, Debug, PartialEq, Eq, Structural)]
pub enum EncodeError {
    PayloadTooLong,
}

#[derive(Clone, Copy, Debug, PartialEq, Eq, Structural)]
pub enum DecodeError {
    Uncommitted,
    InvalidMagic,
    InvalidVersion(u8),
    InvalidKind(u8),
    InvalidLength(u8),
    ReservedNonZero,
    Checksum,
}

/// The record bytes before the checksum and commit word are written.
pub open spec fn record_body(m: RecordModel) -> Seq<u8> {
    put_bytes(
        put32(
            put_bytes(zeros(96), 0, record_magic()).update(4, 1).update(5, m.kind.spec_code()).update(
                6,
                m.payload.len() as u8,
            ),
            8,
            m.generation,
        ),
        16,
        m.payload,
    )
}

/// The CRC-32 that covers the header bytes 0..12 and the payload area 16..92.
pub open spec fn record_checksum(b: Seq<u8>) -> u32 {
    spec_crc32(b.subrange(0, 12) + b.subrange(16, 92))
}

pub open spec fn spec_encode(m: RecordModel) -> Seq<u8> {
    put_bytes(
        put32(record_body(m), 12, record_checksum(record_body(m))),
        92,
        commit_word(),
    )
}

/// The record that 96 bytes hold, or the first rule they break, in the order checked.
pub open spec fn spec_decode(b: Seq<u8>) -> Result<RecordModel, DecodeError> {
    if b.subrange(92, 96) != commit_word() {
        Err(DecodeError::Uncommitted)
    } else if b.subrange(0, 4) != record_magic() {
        Err(DecodeError::InvalidMagic)
    } else if b[4] != 1 {
        Err(DecodeError::InvalidVersion(b[4]))
    } else if b[7] != 0 {
        Err(DecodeError::ReservedNonZero)
    } else if b[6] > 72 {
        Err(DecodeError::InvalidLength(b[6]))
    } else if first_nonzero(b, 16 + b[6], 92) is Some {
        Err(DecodeError::ReservedNonZero)
    } else if rd32(b, 12) != record_checksum(b) {
        Err(DecodeError::Checksum)
    } else {
        match RecordKind::from_code(b[5]) {
            None => Err(DecodeError::InvalidKind(b[5])),
            Some(kind) => Ok(
                RecordModel { kind, generation: rd32(b, 8), payload: b.subrange(16, 16 + b[6]) },
            ),
        }
    }
}

/// Absorbing `a` then `b` is absorbing `a + b`.
pub proof fn lemma_crc_update_append(crc: u32, a: Seq<u8>, b: Seq<u8>)
    ensures
        crc_update(crc, a + b) == crc_update(crc_update(crc, a), b),
    decreases a.len(),
{
    if a.len() > 0 {
        assert((a + b).drop_first() =~= a.drop_first() + b);
        lemma_crc_update_append(crc_rounds(crc ^ (a[0] as u32), 8), a.drop_first(), b);
    } else {
        assert(a + b =~= b);
    }
}

fn crc_absorb(crc: u32, bytes: &[u8]) -> (r: u32)
    ensures
        r == crc_update(crc, bytes@),
{
    let mut value = crc;
    let mut i: usize = 0;
    assert(bytes@.subrange(0, bytes@.len() as int) =~= bytes@);
    while i < bytes.len()
        invariant
            i <= bytes@.len(),
            crc_update(value, bytes@.subrange(i as int, bytes@.len() as int)) == crc_update(crc, bytes@),
        decreases bytes@.len() - i,
    {
        let ghost rest = bytes@.subrange(i as int, bytes@.len() as int);
        assert(rest.drop_first() =~= bytes@.subrange(i + 1, bytes@.len() as int));
        value = value ^ (bytes[i] as u32);
        let ghost start = value;
        let mut k: usize = 0;
        while k < 8
            invariant
                k <= 8,
                crc_rounds(value, (8 - k) as nat) == crc_rounds(start, 8),
            decreases 8 - k,
        {
            let mask = 0u32.wrapping_sub(value & 1);
            proof {
                let v = value;
                assert(v & 1 == 1 || v & 1 == 0) by (bit_vector);
                assert(((v >> 1u32) ^ (0xEDB8_8320u32 & 0xFFFF_FFFFu32)) == ((v >> 1u32)
                    ^ 0xEDB8_8320u32)) by (bit_vector);
                assert(((v >> 1u32) ^ (0xEDB8_8320u32 & 0u32)) == (v >> 1u32)) by (bit_vector);
                assert(((value >> 1u32) ^ (0xEDB8_8320u32 & mask)) == crc_bit(value));
            }
            value = (value >> 1u32) ^ (0xEDB8_8320u32 & mask);
            k = k + 1;
        }
        i = i + 1;
    }
    assert(bytes@.subrange(i as int, bytes@.len() as int).len() == 0);
    value
}

/// The CRC-32 of `header` followed by `payload`.
fn checksum(header: &[u8], payload: &[u8]) -> (r: u32)
    ensures
        r == spec_crc32(header@ + payload@),
{
    let crc = crc_absorb(0xFFFF_FFFF, header);
    let crc = crc_absorb(crc, payload);
    proof {
        lemma_crc_update_append(0xFFFF_FFFFu32, header@, payload@);
    }
    !crc
}

/// Writes a record: its fields, the checksum over them and, last, the commit word.
pub fn encode(record: Record) -> (r: [u8; 96])
    ensures
        r@ == spec_encode(record_model(record)),
{
    proof {
        use_type_invariant(&record.payload);
        record.payload.lemma_storage();
    }
    let ghost m = record_model(record);
    let mut bytes: Vec<u8> = vec![0u8; 96];
    assert(bytes@ =~= zeros(96));
    let magic = magic();
    put_slice(&mut bytes, 0, &magic);
    bytes.set(4, FORMAT_VERSION);
    bytes.set(5, record.kind.code());
    bytes.set(6, record.payload.len);
    put_u32(&mut bytes, 8, record.generation);
    let ghost before = bytes@;
    put_slice(&mut bytes, 16, &record.payload.bytes);
    proof {
        assert(record.payload.storage() == record.payload.bytes@);
        assert(forall|i: int| 16 <= i < 96 ==> before[i] == 0);
        assert(bytes@ =~= record_body(m));
    }
    let sum = checksum(
        vstd::slice::slice_subrange(bytes.as_slice(), 0, 12),
        vstd::slice::slice_subrange(bytes.as_slice(), 16, 92),
    );
    put_u32(&mut bytes, 12, sum);
    let commit = COMMIT_WORD();
    put_slice(&mut bytes, 92, &commit);
    let mut out = [0u8; 96];
    let mut i: usize = 0;
    while i < 96
        invariant
            i <= 96,
            bytes@.len() == 96,
            forall|j: int| 0 <= j < i ==> out@[j] == bytes@[j],
        decreases 96 - i,
    {
        out[i] = bytes[i];
        i = i + 1;
    }
    assert(out@ =~= bytes@);
    out
}

fn word_matches(bytes: &[u8; 96], offset: usize, word: &[u8; 4]) -> (r: bool)
    requires
        offset + 4 <= 96,
    ensures
        r == (bytes@.subrange(offset as int, offset + 4) == word@),
{
    let mut i: usize = 0;
    while i < 4
        invariant
            i <= 4,
            offset + 4 <= 96,
            forall|j: int| 0 <= j < i ==> bytes@[offset + j] == word@[j],
        decreases 4 - i,
    {
        if bytes[offset + i] != word[i] {
            assert(bytes@.subrange(offset as int, offset + 4)[i as int] != word@[i as int]);
            return false;
        }
        i = i + 1;
    }
    assert(bytes@.subrange(offset as int, offset + 4) =~= word@);
    true
}

/// Reads a committed record, checking its magic, format, padding and checksum.
pub fn decode(bytes: &[u8; 96]) -> (r: Result<Record, DecodeError>)
    ensures
        match spec_decode(bytes@) {
            Ok(m) => r matches Ok(record) && record_model(record) == m && record.payload.wf(),
            Err(e) => r == Err::<Record, DecodeError>(e),
        },
{
    let commit = COMMIT_WORD();
    if !word_matches(bytes, 92, &commit) {
        return Err(DecodeError::Uncommitted);
    }
    let magic = magic();
    if !word_matches(bytes, 0, &magic) {
        return Err(DecodeError::InvalidMagic);
    }
    if bytes[4] != FORMAT_VERSION {
        return Err(DecodeError::InvalidVersion(bytes[4]));
    }
    if bytes[7] != 0 {
        return Err(DecodeError::ReservedNonZero);
    }
    let len = bytes[6];
    if len as usize > PAYLOAD_BYTES {
        return Err(DecodeError::InvalidLength(len));
    }
    let all = bytes.as_slice();
    if find_nonzero(all, PAYLOAD_OFFSET + len as usize, COMMIT_OFFSET).is_some() {
        return Err(DecodeError::ReservedNonZero);
    }
    let expected = checksum(
        vstd::slice::slice_subrange(all, 0, 12),
        vstd::slice::slice_subrange(all, PAYLOAD_OFFSET, COMMIT_OFFSET),
    );
    if rd_u32(all, 12) != expected {
        return Err(DecodeError::Checksum);
    }
    let kind = RecordKind::try_from(bytes[5])?;
    let payload = match Payload::new(
        vstd::slice::slice_subrange(all, PAYLOAD_OFFSET, PAYLOAD_OFFSET + len as usize),
    ) {
        Ok(payload) => payload,
        Err(_) => {
            return Err(DecodeError::InvalidLength(len));
        },
    };
    Ok(Record { kind, generation: rd_u32(all, 8), payload })
}

/// Whether generation `candidate` follows `current` in wrapping order: it
/// differs and lies less than half the counter range ahead.
pub open spec fn spec_generation_is_newer(candidate: u32, current: u32) -> bool {
    candidate != current && vstd::wrapping::u32_specs::wrapping_sub(candidate, current) < 0x8000_0000
}

pub fn generation_is_newer(candidate: u32, current: u32) -> (r: bool)
    ensures
        r == spec_generation_is_newer(candidate, current),
{
    candidate != current && candidate.wrapping_sub(current) < 0x8000_0000
}

/// The newer of two valid slots, the only valid one, or none.
pub open spec fn spec_select_newest(first: Seq<u8>, second: Seq<u8>) -> Option<RecordModel> {
    match (spec_decode(first), spec_decode(second)) {
        (Ok(a), Ok(b)) => Some(
            if spec_generation_is_newer(b.generation, a.generation) {
                b
            } else {
                a
            },
        ),
        (Ok(a), Err(_)) => Some(a),
        (Err(_), Ok(b)) => Some(b),
        (Err(_), Err(_)) => None,
    }
}

/// Selects the newest valid record using wrapping generation order.
pub fn select_newest(first: &[u8; 96], second: &[u8; 96]) -> (r: Option<Record>)
    ensures
        match spec_select_newest(first@, second@) {
            Some(m) => r matches Some(record) && record_model(record) == m && record.payload.wf(),
            None => r is None,
        },
{
    match (decode(first), decode(second)) {
        (Ok(a), Ok(b)) => Some(
            if generation_is_newer(b.generation, a.generation) {
                b
            } else {
                a
            },
        ),
        (Ok(record), Err(_)) => Some(record),
        (Err(_), Ok(record)) => Some(record),
        (Err(_), Err(_)) => None,
    }
}

/// Every record with a payload of at most 72 bytes reads back as written.
pub proof fn lemma_record_round_trip(m: RecordModel)
    requires
        m.payload.len() <= 72,
    ensures
        spec_decode(spec_encode(m)) == Ok::<RecordModel, DecodeError>(m),
{
    let z0 = put_bytes(zeros(96), 0, record_magic()).update(4, 1).update(5, m.kind.spec_code()).update(
        6,
        m.payload.len() as u8,
    );
    let z1 = put32(z0, 8, m.generation);
    let body = record_body(m);
    let sum = record_checksum(body);
    let z2 = put32(body, 12, sum);
    let b = spec_encode(m);
    lemma_rd_put32(z0, 8, m.generation);
    lemma_rd_put32(body, 12, sum);
    assert(b.subrange(92, 96) =~= commit_word());
    assert(forall|i: int| 0 <= i < 92 ==> b[i] == z2[i]);
    assert(forall|i: int| 0 <= i < 16 ==> body[i] == z1[i]);
    assert(forall|i: int| 0 <= i < 8 ==> z1[i] == z0[i]);
    assert(b.subrange(0, 4) =~= record_magic());
    assert(rd32(b, 8) == rd32(z1, 8));
    assert(rd32(b, 12) == rd32(z2, 12));
    assert(b.subrange(0, 12) =~= body.subrange(0, 12));
    assert(b.subrange(16, 92) =~= body.subrange(16, 92));
    assert(forall|i: int| 16 + m.payload.len() <= i < 92 ==> b[i] == 0);
    lemma_first_nonzero_none(b, 16 + m.payload.len() as int, 92);
    assert(b.subrange(16, 16 + m.payload.len() as int) =~= m.payload);
}

/// A generation's wrapping successor is newer than it, and of two distinct
/// generations at most one is newer than the other.
pub proof fn lemma_generation_order(g: u32, a: u32, b: u32)
    ensures
        spec_generation_is_newer(vstd::wrapping::u32_specs::wrapping_add(g, 1), g),
        !(spec_generation_is_newer(a, b) && spec_generation_is_newer(b, a)),
        !spec_generation_is_newer(a, a),
{
}

/// Of two valid slots whose generations are consecutive in wrapping order,
/// the later one is selected whichever slot holds it, also across the wrap
/// from `u32::MAX` to 0.
pub proof fn lemma_select_newest_takes_successor(first: Seq<u8>, second: Seq<u8>)
    requires
        spec_decode(first) is Ok,
        spec_decode(second) is Ok,
        spec_decode(second)->Ok_0.generation == vstd::wrapping::u32_specs::wrapping_add(
            spec_decode(first)->Ok_0.generation,
            1,
        ),
    ensures
        spec_select_newest(first, second) == Some(spec_decode(second)->Ok_0),
        spec_select_newest(second, first) == Some(spec_decode(second)->Ok_0),
{
    lemma_generation_order(spec_decode(first)->Ok_0.generation, 0, 0);
    let a = spec_decode(first)->Ok_0.generation;
    let b = spec_decode(second)->Ok_0.generation;
    lemma_generation_order(a, b, a);
}

} // verus!
