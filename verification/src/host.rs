//! The host tool's logic: its failure kinds, the identifiers it decodes,
//! its command lines (`args`, `commands`), the nodes a scan found (`scan`),
//! and the decisions of a firmware update run from the host (the session
//! number, the data frames of a transfer window, what an acknowledgement
//! means for the window, when a window made progress and when activation
//! may be requested). Sockets, timeouts and retries stay with the caller,
//! which feeds each reply back.
use vstd::prelude::*;
use crate::firmware::{FirmwareAck, FirmwareRequest, FirmwareStatus};
use crate::node::{spec_accept_chunk, ChunkDisposition, UpdateModel};
use crate::commissioning::{decode_header, spec_decode_header, DecodedHeader};
use crate::protocol::{CodecError, ExtendedId};
use crate::text::{parse_u32, spec_parse_u64};
use vstd::string::StringSliceAdditionalSpecFns;
use crate::types::{
    NodeId, RequestId, RequesterId, UpdateError, UpdateImpact, UpdateSessionId, UpdateState,
};

pub mod args;
pub mod commands;
pub mod scan;

verus! {

/// Failures of the host tool after a valid command line was accepted.
#[derive(Debug)]
pub enum CliError {
    InvalidInput(String),
    Artifact(String),
    Transport(String),
    Timeout(String),
    Codec(String),
    NodeRejected(String),
    InterruptionRequired,
    Internal(String),
}

impl CliError {
    /// The stable machine-readable name of the failure.
    pub fn code(&self) -> (r: &'static str)
        ensures
            r@ == (match self {
                CliError::InvalidInput(_) => "invalid_input"@,
                CliError::Artifact(_) => "artifact"@,
                CliError::Transport(_) => "transport"@,
                CliError::Timeout(_) => "timeout"@,
                CliError::Codec(_) => "codec"@,
                CliError::NodeRejected(_) => "node_rejected"@,
                CliError::InterruptionRequired => "interruption_required"@,
                CliError::Internal(_) => "internal"@,
            }),
    {
        match self {
            CliError::InvalidInput(_) => "invalid_input",
            CliError::Artifact(_) => "artifact",
            CliError::Transport(_) => "transport",
            CliError::Timeout(_) => "timeout",
            CliError::Codec(_) => "codec",
            CliError::NodeRejected(_) => "node_rejected",
            CliError::InterruptionRequired => "interruption_required",
            CliError::Internal(_) => "internal",
        }
    }

    /// The process exit status of the failure.
    pub fn exit_code(&self) -> (r: u8)
        ensures
            r == (match self {
                CliError::InvalidInput(_) => 2u8,
                CliError::Artifact(_) => 3u8,
                CliError::Transport(_) => 4u8,
                CliError::Timeout(_) => 5u8,
                CliError::Codec(_) => 6u8,
                CliError::NodeRejected(_) => 7u8,
                CliError::InterruptionRequired => 8u8,
                CliError::Internal(_) => 1u8,
            }),
    {
        match self {
            CliError::InvalidInput(_) => 2,
            CliError::Artifact(_) => 3,
            CliError::Transport(_) => 4,
            CliError::Timeout(_) => 5,
            CliError::Codec(_) => 6,
            CliError::NodeRejected(_) => 7,
            CliError::InterruptionRequired => 8,
            CliError::Internal(_) => 1,
        }
    }

    /// The human-readable message of the failure.
    pub fn message(&self) -> (r: String)
        ensures
            r@ == (match self {
                CliError::InvalidInput(m) => m@,
                CliError::Artifact(m) => m@,
                CliError::Transport(m) => m@,
                CliError::Timeout(m) => m@,
                CliError::Codec(m) => m@,
                CliError::NodeRejected(m) => m@,
                CliError::InterruptionRequired => interruption_required_message(),
                CliError::Internal(m) => m@,
            }),
    {
        match self {
            CliError::InvalidInput(m) => m.clone(),
            CliError::Artifact(m) => m.clone(),
            CliError::Transport(m) => m.clone(),
            CliError::Timeout(m) => m.clone(),
            CliError::Codec(m) => m.clone(),
            CliError::NodeRejected(m) => m.clone(),
            CliError::InterruptionRequired => {
                "node reports interrupt update impact; pass --allow-interruption to activate".to_owned()
            },
            CliError::Internal(m) => m.clone(),
        }
    }
}

pub open spec fn interruption_required_message() -> Seq<char> {
    "node reports interrupt update impact; pass --allow-interruption to activate"@
}

impl From<String> for CliError {
    fn from(message: String) -> (r: CliError) {
        CliError::InvalidInput(message)
    }
}

impl vstd::std_specs::convert::FromSpecImpl<String> for CliError {
    open spec fn obeys_from_spec() -> bool {
        true
    }

    open spec fn from_spec(message: String) -> CliError {
        CliError::InvalidInput(message)
    }
}

/// The session a staging run opens: the low 32 bits of its request
/// identifier, with the node address mixed into the low byte.
pub open spec fn spec_stage_session(request_id: RequestId, node: NodeId) -> UpdateSessionId {
    UpdateSessionId(((request_id.0 % 0x1_0000_0000) as u32) ^ (node.spec_get() as u32))
}

pub fn stage_session(request_id: RequestId, node: NodeId) -> (r: UpdateSessionId)
    ensures
        r == spec_stage_session(request_id, node),
{
    UpdateSessionId(((request_id.0 % 0x1_0000_0000) as u32) ^ (node.get() as u32))
}

/// The request identifiers of the later steps of one update run: finishing
/// the transfer, activating and aborting use the run's identifier plus one,
/// two and three, wrapping.
pub fn finish_request_id(request_id: RequestId) -> (r: RequestId)
    ensures
        r.0 == (request_id.0 + 1) % 0x1_0000_0000_0000_0000,
{
    RequestId(request_id.0.wrapping_add(1))
}

pub fn activate_request_id(request_id: RequestId) -> (r: RequestId)
    ensures
        r.0 == (request_id.0 + 2) % 0x1_0000_0000_0000_0000,
{
    RequestId(request_id.0.wrapping_add(2))
}

pub fn abort_request_id(request_id: RequestId) -> (r: RequestId)
    ensures
        r.0 == (request_id.0 + 3) % 0x1_0000_0000_0000_0000,
{
    RequestId(request_id.0.wrapping_add(3))
}

/// The bytes of the chunk that starts at `start`: at most 48 of them, the
/// rest of the frame zero.
pub open spec fn chunk_len(image_size: int, start: int) -> int {
    if image_size - start < 48 {
        image_size - start
    } else {
        48
    }
}

pub open spec fn chunk_bytes(image: Seq<u8>, start: int) -> Seq<u8> {
    Seq::new(
        48,
        |j: int|
            if j < chunk_len(image.len() as int, start) {
                image[start + j]
            } else {
                0u8
            },
    )
}

/// The data frame of a session that carries the chunk of `image` at `start`.
pub open spec fn is_window_frame(
    frame: FirmwareRequest,
    session: UpdateSessionId,
    image: Seq<u8>,
    start: int,
) -> bool {
    match frame {
        FirmwareRequest::Data { session: s, offset, len, bytes } => {
            &&& s == session
            &&& offset == start
            &&& len == chunk_len(image.len() as int, start)
            &&& bytes@ == chunk_bytes(image, start)
        },
        _ => false,
    }
}

/// Whether `frames`, ending at `sent_until`, are the data window that
/// starts at `offset`: consecutive chunks of 48 bytes from `offset` (the
/// last one shorter where the image ends), eight of them unless the image
/// ends first, and none where `offset` is already at its end.
pub open spec fn is_data_window(
    frames: Seq<FirmwareRequest>,
    sent_until: u32,
    session: UpdateSessionId,
    image: Seq<u8>,
    offset: u32,
) -> bool {
    let n = frames.len() as int;
    let size = image.len() as int;
    &&& n <= 8
    &&& forall|i: int| 0 <= i < n ==> #[trigger] is_window_frame(frames[i], session, image, offset + 48 * i)
    &&& if offset >= size {
        n == 0 && sent_until == offset
    } else {
        &&& n > 0
        &&& offset + 48 * (n - 1) < size
        &&& sent_until == (if offset + 48 * n < size { offset + 48 * n } else { size })
        &&& n < 8 ==> sent_until == size
    }
}

fn window_frame(session: UpdateSessionId, image: &[u8], start: u32) -> (r: FirmwareRequest)
    requires
        start < image@.len(),
    ensures
        is_window_frame(r, session, image@, start as int),
{
    let total = image.len();
    let remaining = total - start as usize;
    let len: usize = if remaining < 48 {
        remaining
    } else {
        48
    };
    let mut bytes = [0u8; 48];
    let mut j: usize = 0;
    while j < len
        invariant
            len == chunk_len(image@.len() as int, start as int),
            start < image@.len(),
            start + len <= image@.len(),
            total == image@.len(),
            j <= len,
            forall|k: int| 0 <= k < j ==> bytes@[k] == image@[start + k],
            forall|k: int| j <= k < 48 ==> bytes@[k] == 0u8,
        decreases len - j,
    {
        let b = image[start as usize + j];
        bytes[j] = b;
        j = j + 1;
    }
    assert(bytes@ =~= chunk_bytes(image@, start as int));
    FirmwareRequest::Data { session, offset: start, len: len as u8, bytes }
}

/// The data frames sent for one window of a transfer from `offset`, and
/// the offset reached after them.
pub fn data_window(session: UpdateSessionId, image: &[u8], offset: u32) -> (r: (Vec<FirmwareRequest>, u32))
    requires
        image@.len() <= u32::MAX,
    ensures
        is_data_window(r.0@, r.1, session, image@, offset),
{
    let size = image.len() as u32;
    let mut frames: Vec<FirmwareRequest> = Vec::new();
    let mut sent_until = offset;
    let mut k: usize = 0;
    while k < 8 && sent_until < size
        invariant
            size == image@.len(),
            frames@.len() == k,
            k <= 8,
            forall|i: int| 0 <= i < k ==> #[trigger] is_window_frame(frames@[i], session, image@, offset + 48 * i),
            offset >= size ==> k == 0 && sent_until == offset,
            offset < size ==> sent_until == (if offset + 48 * k < size {
                offset + 48 * k
            } else {
                size as int
            }),
            offset < size && k > 0 ==> offset + 48 * (k - 1) < size,
        decreases 8 - k,
    {
        assert(sent_until == offset + 48 * k);
        let frame = window_frame(session, image, sent_until);
        let remaining = size - sent_until;
        let len: u32 = if remaining < 48 {
            remaining
        } else {
            48
        };
        frames.push(frame);
        sent_until = sent_until + len;
        k = k + 1;
    }
    (frames, sent_until)
}

/// What one acknowledgement means while a window is outstanding.
#[derive(Clone, Copy, Debug, PartialEq, Eq, Structural)]
pub enum WindowAckStep {
    /// Not for this node, requester and session.
    Ignore,
    /// The node refused the transfer; the error and the offset it reported.
    Rejected { error: UpdateError, next_offset: u32 },
    /// The node has received everything before `next_offset`, short of the window's end.
    Progress { next_offset: u32 },
    /// The node has received the whole window.
    Complete { next_offset: u32 },
}

pub open spec fn spec_window_ack_step(
    node: NodeId,
    requester: RequesterId,
    session: UpdateSessionId,
    sent_until: u32,
    ack: FirmwareAck,
) -> WindowAckStep {
    if ack.node != node.spec_get() || ack.requester != requester || ack.session != session {
        WindowAckStep::Ignore
    } else if ack.error != UpdateError::NoError {
        WindowAckStep::Rejected { error: ack.error, next_offset: ack.next_offset }
    } else if ack.next_offset >= sent_until {
        WindowAckStep::Complete { next_offset: ack.next_offset }
    } else {
        WindowAckStep::Progress { next_offset: ack.next_offset }
    }
}

pub fn window_ack_step(
    node: NodeId,
    requester: RequesterId,
    session: UpdateSessionId,
    sent_until: u32,
    ack: &FirmwareAck,
) -> (r: WindowAckStep)
    ensures
        r == spec_window_ack_step(node, requester, session, sent_until, *ack),
{
    if ack.node != node.get() || ack.requester != requester || ack.session != session {
        WindowAckStep::Ignore
    } else if ack.error != UpdateError::NoError {
        WindowAckStep::Rejected { error: ack.error, next_offset: ack.next_offset }
    } else if ack.next_offset >= sent_until {
        WindowAckStep::Complete { next_offset: ack.next_offset }
    } else {
        WindowAckStep::Progress { next_offset: ack.next_offset }
    }
}

/// Where a transfer continues after one attempt at the window that starts
/// at `window_start`: at the last offset the node acknowledged, when that
/// passes the window's start; otherwise the attempt made no progress.
pub fn window_advance(window_start: u32, acknowledged: Option<u32>) -> (r: Option<u32>)
    ensures
        r == (match acknowledged {
            Some(next) => if next > window_start {
                Some(next)
            } else {
                None
            },
            None => None,
        }),
{
    match acknowledged {
        Some(next) => if next > window_start {
            Some(next)
        } else {
            None
        },
        None => None,
    }
}

/// Why activation is not requested.
#[derive(Clone, Copy, Debug, PartialEq, Eq, Structural)]
pub enum ActivationRefusal {
    /// The node holds no staged image; the state it reported.
    NotStaged(UpdateState),
    /// The node's update interrupts its outputs and the operator did not allow that.
    InterruptionRequired,
}

/// Whether activation may be requested of a node that reported `status`.
pub fn activation_check(status: &FirmwareStatus, allow_interruption: bool) -> (r: Result<
    (),
    ActivationRefusal,
>)
    ensures
        r == (if status.state != UpdateState::Staged {
            Err(ActivationRefusal::NotStaged(status.state))
        } else if status.impact == UpdateImpact::Interrupt && !allow_interruption {
            Err(ActivationRefusal::InterruptionRequired)
        } else {
            Ok(())
        }),
{
    if status.state != UpdateState::Staged {
        Err(ActivationRefusal::NotStaged(status.state))
    } else if status.impact == UpdateImpact::Interrupt && !allow_interruption {
        Err(ActivationRefusal::InterruptionRequired)
    } else {
        Ok(())
    }
}

/// What a node's update state becomes when `frames` arrive one after the
/// other, and whether it took every one of them as new data.
pub open spec fn feed_frames(u: UpdateModel, frames: Seq<FirmwareRequest>) -> (UpdateModel, bool)
    decreases frames.len(),
{
    if frames.len() == 0 {
        (u, true)
    } else {
        match frames[0] {
            FirmwareRequest::Data { session, offset, len, .. } => {
                let (next, r) = spec_accept_chunk(u, session, offset, len);
                let (last, rest) = feed_frames(next, frames.drop_first());
                (last, r == Ok::<ChunkDisposition, UpdateError>(ChunkDisposition::Write) && rest)
            },
            _ => (u, false),
        }
    }
}

/// The update state that a node receiving `image` in `session` has once it
/// holds everything before `next_offset`.
pub open spec fn receiving(u: UpdateModel, session: UpdateSessionId, image: Seq<u8>, next_offset: int) -> bool {
    &&& u.state == UpdateState::Receiving
    &&& u.session == session
    &&& u.manifest matches Some(m) && m.image_size == image.len()
    &&& u.next_offset == next_offset
}

proof fn lemma_feed_consecutive(
    u: UpdateModel,
    frames: Seq<FirmwareRequest>,
    session: UpdateSessionId,
    image: Seq<u8>,
    start: int,
)
    requires
        receiving(u, session, image, start),
        forall|k: int| 0 <= k < frames.len() ==> #[trigger] is_window_frame(frames[k], session, image, start + 48 * k),
        frames.len() > 0 ==> start + 48 * (frames.len() - 1) < image.len(),
    ensures
        ({
            let n = frames.len() as int;
            let end = if n == 0 {
                start
            } else if start + 48 * n < image.len() {
                start + 48 * n
            } else {
                image.len() as int
            };
            let (last, all_written) = feed_frames(u, frames);
            &&& all_written
            &&& last == (if n == 0 {
                u
            } else {
                UpdateModel { next_offset: end as u32, error: UpdateError::NoError, ..u }
            })
        }),
    decreases frames.len(),
{
    if frames.len() > 0 {
        assert(is_window_frame(frames[0], session, image, start + 48 * 0));
        let size = image.len() as int;
        let len = chunk_len(size, start);
        let next = UpdateModel { next_offset: (start + len) as u32, error: UpdateError::NoError, ..u };
        let rest = frames.drop_first();
        assert forall|k: int| 0 <= k < rest.len() implies #[trigger] is_window_frame(
            rest[k],
            session,
            image,
            (start + len) + 48 * k,
        ) by {
            assert(is_window_frame(frames[k + 1], session, image, start + 48 * (k + 1)));
        }
        lemma_feed_consecutive(next, rest, session, image, start + len);
    }
}

/// A node that is receiving the image of the run's session, and has
/// everything before a window's first offset, takes every frame of that
/// window in order as new data, and then has everything before the window's
/// end.
pub proof fn lemma_window_is_accepted_in_order(
    u: UpdateModel,
    frames: Seq<FirmwareRequest>,
    sent_until: u32,
    session: UpdateSessionId,
    image: Seq<u8>,
    offset: u32,
)
    requires
        receiving(u, session, image, offset as int),
        is_data_window(frames, sent_until, session, image, offset),
    ensures
        feed_frames(u, frames).1,
        feed_frames(u, frames).0 == (if frames.len() == 0 {
            u
        } else {
            UpdateModel { next_offset: sent_until, error: UpdateError::NoError, ..u }
        }),
{
    lemma_feed_consecutive(u, frames, session, image, offset as int);
}

/// Why an identifier given on the command line is not decoded.
#[derive(Clone, Copy, Debug, PartialEq, Eq, Structural)]
pub enum DecodeIdError {
    /// Not a 32-bit number in decimal or `0x` hexadecimal.
    InvalidNumber,
    /// A number wider than 29 bits.
    NotExtended(u32),
    /// A 29-bit identifier that carries no valid header.
    Header(CodecError),
}

/// The raw identifier and the header it carries, from an identifier written
/// as text in decimal or `0x` hexadecimal.
pub fn decode_id(text: &str) -> (r: Result<(u32, DecodedHeader), DecodeIdError>)
    ensures
        r == (match spec_parse_u64(text.spec_bytes()) {
            Some(v) => if v > u32::MAX {
                Err(DecodeIdError::InvalidNumber)
            } else if v > 0x1FFF_FFFF {
                Err(DecodeIdError::NotExtended(v as u32))
            } else {
                match spec_decode_header(v as u32) {
                    Ok(header) => Ok((v as u32, header)),
                    Err(e) => Err(DecodeIdError::Header(e)),
                }
            },
            None => Err(DecodeIdError::InvalidNumber),
        }),
{
    broadcast use crate::protocol::group_id_lemmas;

    let raw = match parse_u32(text) {
        Some(raw) => raw,
        None => {
            return Err(DecodeIdError::InvalidNumber);
        },
    };
    let id = match ExtendedId::new(raw) {
        Ok(id) => id,
        Err(_) => {
            return Err(DecodeIdError::NotExtended(raw));
        },
    };
    match decode_header(id) {
        Ok(header) => Ok((raw, header)),
        Err(e) => Err(DecodeIdError::Header(e)),
    }
}

} // verus!
