//! The backpack's request service: it answers control and commissioning
//! requests against the port controller, holds back the answer to every
//! mutation until the settings revision that records it is durable, replays
//! the answer to an exact retry without mutating again, refuses a reused
//! request identifier, and serialises durable mutations.
use vstd::prelude::*;

use crate::node::{
    spec_apply_persisted_node_id, spec_claim_window_complete, spec_commissioning_new,
    spec_observe_claim, Commissioning, CommissioningModel,
};
use crate::port::commissioning::{
    encode_commissioning, spec_encode_commissioning, CommandResult, CommissioningMessage, DiscoveryInfo,
    PROTOCOL_MAJOR, PROTOCOL_MINOR,
};
use crate::port::status::{encode_heartbeat, encode_port_state, spec_encode_heartbeat, spec_encode_port_state};
use crate::protocol::WireFrame;
use crate::port::control::{encode_command_response, spec_encode_command_response, CommandResponse, ControlCommand, ControlRequest};
use crate::port::controller::{
    revision_covers, spec_acknowledge, spec_emergency_disable, spec_revision_covers,
    spec_set_fan_config, spec_set_node_id, spec_set_port_policy, ControllerModel, Controller, ControllerError, Mutation,
    PersistCompletion,
};
use crate::port::model::{BoardDefinition, ConfigRevision, HardwareRevision, PortId};
use crate::port::status::{Heartbeat, PortState, ResetFlags};
use crate::backpack::reporting::{
    heartbeat_report, port_state_report, revision_byte, spec_heartbeat_report,
    spec_port_state_report,
};
use crate::types::{CommissioningState, FirmwareVersion, NodeId, NodeUid, RequestId, RequesterId};

verus! {

pub const MAX_PENDING_RESPONSES: usize = 8;
pub const RESPONSE_BATCH_CAPACITY: usize = 10;
pub const COMPLETED_CACHE_CAPACITY: usize = 8;

/// A mutation whose answer waits for durability.
#[derive(Clone, Copy, Debug, PartialEq, Eq)]
pub enum PendingKind {
    Control { request: ControlRequest, result: CommandResult },
    AssignNode { requester: RequesterId, request_id: RequestId, node_id: NodeId },
    ClearNode { requester: RequesterId, request_id: RequestId },
}

#[derive(Clone, Copy, Debug, PartialEq, Eq)]
pub struct PendingResponse {
    pub required_revision: ConfigRevision,
    pub kind: PendingKind,
}

#[derive(Clone, Copy, Debug, PartialEq, Eq)]
pub struct CompletedControl {
    pub request: ControlRequest,
    pub response: CommandResponse,
}

#[derive(Clone, Copy, Debug, PartialEq, Eq)]
pub struct CompletedCommissioning {
    pub requester: RequesterId,
    pub request: CommissioningMessage,
    pub response: CommissioningMessage,
}

/// One message the service sends.
#[derive(Clone, Copy, Debug, PartialEq, Eq)]
pub enum Reply {
    Operational(CommandResponse),
    Commissioning { requester: RequesterId, message: CommissioningMessage },
    PortState(PortState),
    Heartbeat(Heartbeat),
}

/// The messages a step sends, in order, and an identify request for the
/// status LED.
#[derive(Clone, Debug)]
pub struct ServiceOutput {
    pub replies: Vec<Reply>,
    pub identify_seconds: Option<u16>,
}

#[verifier::ext_equal]
pub struct OutModel {
    pub replies: Seq<Reply>,
    pub identify_seconds: Option<u16>,
}

impl View for ServiceOutput {
    type V = OutModel;

    open spec fn view(&self) -> OutModel {
        OutModel { replies: self.replies@, identify_seconds: self.identify_seconds }
    }
}

pub open spec fn empty_out() -> OutModel {
    OutModel { replies: Seq::empty(), identify_seconds: None }
}

pub open spec fn with_reply(o: OutModel, r: Reply) -> OutModel {
    OutModel { replies: o.replies.push(r), ..o }
}

impl ServiceOutput {
    pub fn empty() -> (r: ServiceOutput)
        ensures
            r@ == empty_out(),
    {
        ServiceOutput { replies: Vec::new(), identify_seconds: None }
    }

    fn push(&mut self, reply: Reply)
        ensures
            final(self)@ == with_reply(old(self)@, reply),
    {
        self.replies.push(reply);
    }

    /// Append `other`'s messages; its identify request, if any, wins.
    pub fn merge(&mut self, other: ServiceOutput)
        ensures
            final(self)@ == (OutModel {
                replies: old(self)@.replies + other@.replies,
                identify_seconds: if other@.identify_seconds is Some {
                    other@.identify_seconds
                } else {
                    old(self)@.identify_seconds
                },
            }),
    {
        let mut other = other;
        self.replies.append(&mut other.replies);
        if other.identify_seconds.is_some() {
            self.identify_seconds = other.identify_seconds;
        }
    }
}

#[verifier::ext_equal]
pub struct ServiceModel {
    pub board: BoardDefinition,
    pub firmware: FirmwareVersion,
    pub commissioning: CommissioningModel,
    pub pending: Seq<Option<PendingResponse>>,
    pub completed: Seq<Option<CompletedControl>>,
    pub completed_cursor: int,
    pub completed_commissioning: Seq<Option<CompletedCommissioning>>,
    pub completed_commissioning_cursor: int,
    pub state_sequence: u16,
    pub uptime_seconds: u32,
    pub reset_flags: ResetFlags,
}

pub struct CommandService {
    board: BoardDefinition,
    firmware: FirmwareVersion,
    commissioning: Commissioning,
    pending: [Option<PendingResponse>; 8],
    completed: [Option<CompletedControl>; 8],
    completed_cursor: usize,
    completed_commissioning: [Option<CompletedCommissioning>; 8],
    completed_commissioning_cursor: usize,
    state_sequence: u16,
    uptime_seconds: u32,
    reset_flags: ResetFlags,
}

impl View for CommandService {
    type V = ServiceModel;

    closed spec fn view(&self) -> ServiceModel {
        ServiceModel {
            board: self.board,
            firmware: self.firmware,
            commissioning: self.commissioning@,
            pending: self.pending@,
            completed: self.completed@,
            completed_cursor: self.completed_cursor as int,
            completed_commissioning: self.completed_commissioning@,
            completed_commissioning_cursor: self.completed_commissioning_cursor as int,
            state_sequence: self.state_sequence,
            uptime_seconds: self.uptime_seconds,
            reset_flags: self.reset_flags,
        }
    }
}

/// The cursors of the replay caches stay within them.
pub open spec fn service_wf(s: ServiceModel) -> bool {
    &&& s.pending.len() == 8
    &&& s.completed.len() == 8
    &&& s.completed_commissioning.len() == 8
    &&& 0 <= s.completed_cursor < 8
    &&& 0 <= s.completed_commissioning_cursor < 8
}

pub open spec fn traffic_allowed(s: ServiceModel) -> bool {
    s.commissioning.state == CommissioningState::Commissioned
}

pub open spec fn node_byte_of(s: ServiceModel) -> u8 {
    match s.commissioning.node_id {
        Some(n) => n.spec_get(),
        None => 0,
    }
}

/// The answer to `request`.
pub open spec fn spec_control_response(s: ServiceModel, request: ControlRequest, result: CommandResult, detail: u32) -> CommandResponse {
    CommandResponse {
        node: node_byte_of(s),
        requester: request.requester,
        request_id: request.request_id,
        request_opcode: request.command.spec_opcode(),
        request_target: request.command.spec_target(),
        result,
        detail,
    }
}

/// Operational answers are sent only while ordinary traffic is allowed.
pub open spec fn spec_push_operational(s: ServiceModel, o: OutModel, response: CommandResponse) -> OutModel {
    if traffic_allowed(s) {
        with_reply(o, Reply::Operational(response))
    } else {
        o
    }
}

/// Remember an answer for replay, overwriting the oldest.
pub open spec fn spec_complete_control(s: ServiceModel, request: ControlRequest, response: CommandResponse) -> ServiceModel {
    ServiceModel {
        completed: s.completed.update(s.completed_cursor, Some(CompletedControl { request, response })),
        completed_cursor: (s.completed_cursor + 1) % 8,
        ..s
    }
}

pub open spec fn spec_complete_commissioning(
    s: ServiceModel,
    requester: RequesterId,
    request: CommissioningMessage,
    response: CommissioningMessage,
) -> ServiceModel {
    ServiceModel {
        completed_commissioning: s.completed_commissioning.update(
            s.completed_commissioning_cursor,
            Some(CompletedCommissioning { requester, request, response }),
        ),
        completed_commissioning_cursor: (s.completed_commissioning_cursor + 1) % 8,
        ..s
    }
}

/// The first free pending slot below `n`.
pub open spec fn first_free(pending: Seq<Option<PendingResponse>>, n: int) -> Option<int>
    decreases n,
{
    if n <= 0 {
        None
    } else {
        match first_free(pending, n - 1) {
            Some(i) => Some(i),
            None => if pending[n - 1] is None {
                Some(n - 1)
            } else {
                None
            },
        }
    }
}

/// Queue a held answer in the first free slot; with none free it is lost.
pub open spec fn spec_enqueue(s: ServiceModel, p: PendingResponse) -> ServiceModel {
    match first_free(s.pending, 8) {
        Some(i) => ServiceModel { pending: s.pending.update(i, Some(p)), ..s },
        None => s,
    }
}

pub open spec fn any_pending(s: ServiceModel) -> bool {
    exists|i: int| 0 <= i < 8 && #[trigger] s.pending[i] is Some
}

/// The first cached answer, below `n`, to a request of the same requester
/// and identifier.
pub open spec fn find_completed(s: ServiceModel, request: ControlRequest, n: int) -> Option<int>
    decreases n,
{
    if n <= 0 {
        None
    } else {
        match find_completed(s, request, n - 1) {
            Some(i) => Some(i),
            None => match s.completed[n - 1] {
                Some(e) => if e.request.requester == request.requester && e.request.request_id
                    == request.request_id {
                    Some(n - 1)
                } else {
                    None
                },
                None => None,
            },
        }
    }
}

pub open spec fn pending_control_matches(p: Option<PendingResponse>, request: ControlRequest) -> bool {
    p matches Some(e) && e.kind matches PendingKind::Control { request: r, .. } && r.requester
        == request.requester && r.request_id == request.request_id
}

/// The first held control answer, below `n`, for the same requester and
/// identifier.
pub open spec fn find_pending_control(s: ServiceModel, request: ControlRequest, n: int) -> Option<int>
    decreases n,
{
    if n <= 0 {
        None
    } else {
        match find_pending_control(s, request, n - 1) {
            Some(i) => Some(i),
            None => if pending_control_matches(s.pending[n - 1], request) {
                Some(n - 1)
            } else {
                None
            },
        }
    }
}

/// A state report of `port`, numbered with the next sequence number, for a
/// node with an address and a port the board has.
pub open spec fn spec_port_state(s: ServiceModel, c: ControllerModel, port: PortId) -> (ServiceModel, Option<PortState>) {
    match s.commissioning.node_id {
        None => (s, None),
        Some(node) => {
            let seq = if s.state_sequence == u16::MAX { 0u16 } else { (s.state_sequence + 1) as u16 };
            match spec_port_state_report(c, node, port, seq, s.uptime_seconds) {
                None => (s, None),
                Some(st) => (ServiceModel { state_sequence: seq, ..s }, Some(st)),
            }
        },
    }
}

pub open spec fn with_state(o: OutModel, st: Option<PortState>) -> OutModel {
    match st {
        Some(x) => with_reply(o, Reply::PortState(x)),
        None => o,
    }
}

pub open spec fn map_controller_error(e: ControllerError) -> CommandResult {
    match e {
        ControllerError::UnsupportedPort(_) => CommandResult::InvalidTarget,
        ControllerError::InvalidPolicy(_) => CommandResult::InvalidArgument,
        ControllerError::InvalidFanDuty(_) => CommandResult::InvalidArgument,
        ControllerError::EmergencyLatched => CommandResult::EmergencyLatched,
        ControllerError::EmergencyAlreadyClear => CommandResult::InvalidArgument,
        ControllerError::EmergencyClearInProgress => CommandResult::Busy,
    }
}

pub fn controller_error_result(e: ControllerError) -> (r: CommandResult)
    ensures
        r == map_controller_error(e),
{
    match e {
        ControllerError::UnsupportedPort(_) => CommandResult::InvalidTarget,
        ControllerError::InvalidPolicy(_) => CommandResult::InvalidArgument,
        ControllerError::InvalidFanDuty(_) => CommandResult::InvalidArgument,
        ControllerError::EmergencyLatched => CommandResult::EmergencyLatched,
        ControllerError::EmergencyAlreadyClear => CommandResult::InvalidArgument,
        ControllerError::EmergencyClearInProgress => CommandResult::Busy,
    }
}

impl CommandService {
    pub fn new(board: BoardDefinition, firmware: FirmwareVersion, uid: NodeUid, node_id: Option<NodeId>) -> (r: CommandService)
        ensures
            r@ == (ServiceModel {
                board,
                firmware,
                commissioning: spec_commissioning_new(uid, node_id),
                pending: Seq::new(8, |i: int| None),
                completed: Seq::new(8, |i: int| None),
                completed_cursor: 0,
                completed_commissioning: Seq::new(8, |i: int| None),
                completed_commissioning_cursor: 0,
                state_sequence: 0,
                uptime_seconds: 0,
                reset_flags: ResetFlags(0),
            }),
            service_wf(r@),
            identities_unique(r@),
            comm_identities_unique(r@),
    {
        let r = CommandService {
            board,
            firmware,
            commissioning: Commissioning::new(uid, node_id),
            pending: [None; 8usize],
            completed: [None; 8usize],
            completed_cursor: 0,
            completed_commissioning: [None; 8usize],
            completed_commissioning_cursor: 0,
            state_sequence: 0,
            uptime_seconds: 0,
            reset_flags: ResetFlags(0),
        };
        assert(r.pending@ =~= Seq::new(8, |i: int| None::<PendingResponse>));
        assert(r.completed@ =~= Seq::new(8, |i: int| None::<CompletedControl>));
        assert(r.completed_commissioning@ =~= Seq::new(8, |i: int| None::<CompletedCommissioning>));
        r
    }

    pub fn commissioning(&self) -> (r: Commissioning)
        ensures
            r@ == self@.commissioning,
    {
        self.commissioning
    }

    pub fn set_uptime_seconds(&mut self, uptime_seconds: u32)
        ensures
            final(self)@ == (ServiceModel { uptime_seconds, ..old(self)@ }),
    {
        self.uptime_seconds = uptime_seconds;
        assert(self@ =~= ServiceModel { uptime_seconds, ..old(self)@ });
    }

    pub fn set_reset_flags(&mut self, reset_flags: ResetFlags)
        ensures
            final(self)@ == (ServiceModel { reset_flags, ..old(self)@ }),
    {
        self.reset_flags = reset_flags;
        assert(self@ =~= ServiceModel { reset_flags, ..old(self)@ });
    }

    pub fn claim_window_complete(&mut self)
        ensures
            final(self)@ == (ServiceModel { commissioning: spec_claim_window_complete(old(self)@.commissioning), ..old(self)@ }),
    {
        self.commissioning.claim_window_complete();
        assert(self@ =~= ServiceModel { commissioning: spec_claim_window_complete(old(self)@.commissioning), ..old(self)@ });
    }

    fn control_response(&self, request: ControlRequest, result: CommandResult, detail: u32) -> (r: CommandResponse)
        ensures
            r == spec_control_response(self@, request, result, detail),
    {
        CommandResponse {
            node: match self.commissioning.node_id() {
                Some(n) => n.get(),
                None => 0,
            },
            requester: request.requester,
            request_id: request.request_id,
            request_opcode: request.command.opcode(),
            request_target: request.command.target(),
            result,
            detail,
        }
    }

    fn push_operational(&self, output: &mut ServiceOutput, response: CommandResponse)
        ensures
            final(output)@ == spec_push_operational(self@, old(output)@, response),
    {
        if self.commissioning.normal_traffic_allowed() {
            output.push(Reply::Operational(response));
        }
    }

    fn complete_control(&mut self, request: ControlRequest, response: CommandResponse)
        requires
            service_wf(old(self)@),
        ensures
            final(self)@ == spec_complete_control(old(self)@, request, response),
            service_wf(final(self)@),
    {
        let cursor = self.completed_cursor;
        self.completed[cursor] = Some(CompletedControl { request, response });
        self.completed_cursor = (cursor + 1) % 8;
        assert(self@ =~= spec_complete_control(old(self)@, request, response));
    }

    fn complete_commissioning(&mut self, requester: RequesterId, request: CommissioningMessage, response: CommissioningMessage)
        requires
            service_wf(old(self)@),
        ensures
            final(self)@ == spec_complete_commissioning(old(self)@, requester, request, response),
            service_wf(final(self)@),
    {
        let cursor = self.completed_commissioning_cursor;
        self.completed_commissioning[cursor] = Some(CompletedCommissioning { requester, request, response });
        self.completed_commissioning_cursor = (cursor + 1) % 8;
        assert(self@ =~= spec_complete_commissioning(old(self)@, requester, request, response));
    }

    fn enqueue(&mut self, p: PendingResponse)
        requires
            service_wf(old(self)@),
        ensures
            final(self)@ == spec_enqueue(old(self)@, p),
            service_wf(final(self)@),
    {
        let mut i: usize = 0;
        while i < 8
            invariant
                i <= 8,
                self@ == old(self)@,
                service_wf(self@),
                first_free(self@.pending, i as int) is None,
            decreases 8 - i,
        {
            if self.pending[i].is_none() {
                self.pending[i] = Some(p);
                assert(first_free(old(self)@.pending, (i + 1) as int) == Some(i as int));
                proof { lemma_first_free_stable(old(self)@.pending, (i + 1) as int, 8); }
                assert(self@ =~= spec_enqueue(old(self)@, p));
                return;
            }
            i = i + 1;
        }
    }

    fn any_pending(&self) -> (r: bool)
        requires
            service_wf(self@),
        ensures
            r == any_pending(self@),
    {
        let mut i: usize = 0;
        while i < 8
            invariant
                i <= 8,
                service_wf(self@),
                forall|j: int| 0 <= j < i ==> self@.pending[j] is None,
            decreases 8 - i,
        {
            if self.pending[i].is_some() {
                assert(self@.pending[i as int] is Some);
                return true;
            }
            i = i + 1;
        }
        false
    }

    fn find_completed(&self, request: ControlRequest) -> (r: Option<usize>)
        requires
            service_wf(self@),
        ensures
            r matches Some(i) ==> i < 8,
            find_completed(self@, request, 8) == (match r {
                Some(i) => Some(i as int),
                None => None::<int>,
            }),
    {
        let mut i: usize = 0;
        while i < 8
            invariant
                i <= 8,
                service_wf(self@),
                find_completed(self@, request, i as int) is None,
            decreases 8 - i,
        {
            match self.completed[i] {
                Some(e) => {
                    if e.request.requester == request.requester && e.request.request_id == request.request_id {
                        proof { lemma_find_completed_stable(self@, request, (i + 1) as int, 8); }
                        return Some(i);
                    }
                },
                None => {},
            }
            i = i + 1;
        }
        None
    }

    fn find_pending_control(&self, request: ControlRequest) -> (r: Option<usize>)
        requires
            service_wf(self@),
        ensures
            r matches Some(i) ==> i < 8,
            find_pending_control(self@, request, 8) == (match r {
                Some(i) => Some(i as int),
                None => None::<int>,
            }),
    {
        let mut i: usize = 0;
        while i < 8
            invariant
                i <= 8,
                service_wf(self@),
                find_pending_control(self@, request, i as int) is None,
            decreases 8 - i,
        {
            let hit = match self.pending[i] {
                Some(e) => match e.kind {
                    PendingKind::Control { request: r, .. } => r.requester == request.requester && r.request_id
                        == request.request_id,
                    _ => false,
                },
                None => false,
            };
            if hit {
                proof { lemma_find_pending_stable(self@, request, (i + 1) as int, 8); }
                return Some(i);
            }
            i = i + 1;
        }
        None
    }

    fn port_state(&mut self, controller: &Controller, port: PortId) -> (r: Option<PortState>)
        ensures
            (final(self)@, r) == spec_port_state(old(self)@, controller@, port),
    {
        let node = match self.commissioning.node_id() {
            Some(n) => n,
            None => {
                return None;
            },
        };
        let seq = if self.state_sequence == u16::MAX { 0 } else { self.state_sequence + 1 };
        match port_state_report(controller, node, port, seq, self.uptime_seconds) {
            None => None,
            Some(st) => {
                self.state_sequence = seq;
                assert(self@ =~= ServiceModel { state_sequence: seq, ..old(self)@ });
                Some(st)
            },
        }
    }
}

pub proof fn lemma_first_free_stable(pending: Seq<Option<PendingResponse>>, k: int, n: int)
    requires
        0 <= k <= n,
        first_free(pending, k) is Some,
    ensures
        first_free(pending, n) == first_free(pending, k),
    decreases n - k,
{
    if n > k {
        lemma_first_free_stable(pending, k, n - 1);
    }
}

pub proof fn lemma_find_completed_stable(s: ServiceModel, request: ControlRequest, k: int, n: int)
    requires
        0 <= k <= n,
        find_completed(s, request, k) is Some,
    ensures
        find_completed(s, request, n) == find_completed(s, request, k),
    decreases n - k,
{
    if n > k {
        lemma_find_completed_stable(s, request, k, n - 1);
    }
}

pub proof fn lemma_find_pending_stable(s: ServiceModel, request: ControlRequest, k: int, n: int)
    requires
        0 <= k <= n,
        find_pending_control(s, request, k) is Some,
    ensures
        find_pending_control(s, request, n) == find_pending_control(s, request, k),
    decreases n - k,
{
    if n > k {
        lemma_find_pending_stable(s, request, k, n - 1);
    }
}

pub open spec fn is_clear_request(p: Option<PendingResponse>) -> bool {
    p matches Some(e) && e.kind matches PendingKind::Control { request, .. } && request.command
        is AcknowledgeEmergencyResolved
}

/// A new emergency answers a held emergency clear at slot `i` as refused.
pub open spec fn spec_cancel_clear_at(s: ServiceModel, o: OutModel, i: int) -> (ServiceModel, OutModel) {
    if is_clear_request(s.pending[i]) {
        let request = s.pending[i]->0.kind->Control_request;
        let s1 = ServiceModel { pending: s.pending.update(i, None), ..s };
        let response = spec_control_response(s1, request, CommandResult::EmergencyLatched, 0);
        (spec_complete_control(s1, request, response), spec_push_operational(s1, o, response))
    } else {
        (s, o)
    }
}

pub open spec fn spec_cancel_clears(s: ServiceModel, o: OutModel, n: int) -> (ServiceModel, OutModel)
    decreases n,
{
    if n <= 0 {
        (s, o)
    } else {
        let r = spec_cancel_clears(s, o, n - 1);
        spec_cancel_clear_at(r.0, r.1, n - 1)
    }
}

/// After a mutation: a revision to wait for holds the answer back,
/// otherwise it is given at once (and remembered for replay).
pub open spec fn spec_finish(
    s: ServiceModel,
    c: ControllerModel,
    o: OutModel,
    request: ControlRequest,
    mutation: Result<Mutation, ControllerError>,
    result: CommandResult,
) -> (ServiceModel, ControllerModel, OutModel) {
    match mutation {
        Ok(m) => match m.persist_revision {
            Some(required_revision) => (
                spec_enqueue(s, PendingResponse { required_revision, kind: PendingKind::Control { request, result } }),
                c,
                o,
            ),
            None => {
                let response = spec_control_response(s, request, result, 0);
                (spec_complete_control(s, request, response), c, spec_push_operational(s, o, response))
            },
        },
        Err(e) => {
            let response = spec_control_response(s, request, map_controller_error(e), 0);
            (spec_complete_control(s, request, response), c, spec_push_operational(s, o, response))
        },
    }
}

pub open spec fn ack_mutation(r: Result<ConfigRevision, ControllerError>) -> Result<Mutation, ControllerError> {
    match r {
        Ok(revision) => Ok(Mutation { persist_revision: Some(revision) }),
        Err(e) => Err(e),
    }
}

/// A request that is neither a replay nor a duplicate.
pub open spec fn spec_apply_new_control(s: ServiceModel, c: ControllerModel, request: ControlRequest) -> (
    ServiceModel,
    ControllerModel,
    OutModel,
) {
    match request.command {
        ControlCommand::EmergencyDisable => {
            let e = spec_emergency_disable(c);
            let r = spec_cancel_clears(s, empty_out(), 8);
            spec_finish(r.0, e.0, r.1, request, Ok(e.1), CommandResult::Success)
        },
        ControlCommand::SetPortPolicy { port, policy } => {
            let r = spec_set_port_policy(c, port, policy);
            spec_finish(s, r.0, empty_out(), request, r.1, CommandResult::SuccessPending)
        },
        ControlCommand::AcknowledgeEmergencyResolved => {
            let r = spec_acknowledge(c);
            spec_finish(s, r.0, empty_out(), request, ack_mutation(r.1), CommandResult::Success)
        },
        ControlCommand::RequestStatus { port } => {
            let result = if s.board.spec_supports(port.spec_get() as int) {
                CommandResult::Success
            } else {
                CommandResult::InvalidTarget
            };
            let response = spec_control_response(s, request, result, 0);
            let s1 = spec_complete_control(s, request, response);
            let o1 = spec_push_operational(s1, empty_out(), response);
            if result == CommandResult::Success {
                let st = spec_port_state(s1, c, port);
                (st.0, c, with_state(o1, st.1))
            } else {
                (s1, c, o1)
            }
        },
        ControlCommand::SetFanConfig { config } => {
            let r = spec_set_fan_config(c, config);
            spec_finish(s, r.0, empty_out(), request, r.1, CommandResult::Success)
        },
    }
}

/// A control request is answered when it is addressed to this node while
/// its address may be used, or is a broadcast emergency disable.
pub open spec fn control_addressed(s: ServiceModel, request: ControlRequest) -> bool {
    (traffic_allowed(s) && node_matches(s.commissioning.node_id, request.node)) || (request.node == 0
        && request.command is EmergencyDisable)
}

pub open spec fn node_matches(node_id: Option<NodeId>, node: u8) -> bool {
    match node_id {
        Some(n) => n.spec_get() == node,
        None => false,
    }
}

pub open spec fn serialized_persistent(command: ControlCommand) -> bool {
    command is SetPortPolicy || command is AcknowledgeEmergencyResolved || command is SetFanConfig
}

/// A control request: an exact retry of an answered request replays its
/// answer (and, for a status request, a fresh state report) without
/// mutating again; a reused identifier, or a retry of a request whose
/// answer is held, is refused or ignored; a durable mutation while another
/// is held is refused as busy.
pub open spec fn spec_handle_control(s: ServiceModel, c: ControllerModel, request: ControlRequest) -> (
    ServiceModel,
    ControllerModel,
    OutModel,
) {
    if !control_addressed(s, request) {
        (s, c, empty_out())
    } else {
        match find_completed(s, request, 8) {
            Some(i) => {
                let entry = s.completed[i]->0;
                let exact = entry.request == request;
                let response = if exact {
                    entry.response
                } else {
                    spec_control_response(s, request, CommandResult::InvalidArgument, 1)
                };
                let o = spec_push_operational(s, empty_out(), response);
                match request.command {
                    ControlCommand::RequestStatus { port } => if exact && response.result
                        == CommandResult::Success {
                        let st = spec_port_state(s, c, port);
                        (st.0, c, with_state(o, st.1))
                    } else {
                        (s, c, o)
                    },
                    _ => (s, c, o),
                }
            },
            None => match find_pending_control(s, request, 8) {
                Some(i) => if s.pending[i]->0.kind->Control_request == request {
                    (s, c, empty_out())
                } else {
                    (
                        s,
                        c,
                        spec_push_operational(
                            s,
                            empty_out(),
                            spec_control_response(s, request, CommandResult::InvalidArgument, 1),
                        ),
                    )
                },
                None => if serialized_persistent(request.command) && any_pending(s) {
                    (
                        s,
                        c,
                        spec_push_operational(
                            s,
                            empty_out(),
                            spec_control_response(s, request, CommandResult::Busy, 0),
                        ),
                    )
                } else {
                    spec_apply_new_control(s, c, request)
                },
            },
        }
    }
}

impl CommandService {
    fn cancel_clear_at(&mut self, output: &mut ServiceOutput, i: usize)
        requires
            service_wf(old(self)@),
            i < 8,
        ensures
            (final(self)@, final(output)@) == spec_cancel_clear_at(old(self)@, old(output)@, i as int),
            service_wf(final(self)@),
    {
        let request = match self.pending[i] {
            Some(e) => match e.kind {
                PendingKind::Control { request, .. } => match request.command {
                    ControlCommand::AcknowledgeEmergencyResolved => request,
                    _ => {
                        return;
                    },
                },
                _ => {
                    return;
                },
            },
            None => {
                return;
            },
        };
        self.pending[i] = None;
        assert(self@ =~= ServiceModel { pending: old(self)@.pending.update(i as int, None), ..old(self)@ });
        let response = self.control_response(request, CommandResult::EmergencyLatched, 0);
        self.push_operational(output, response);
        self.complete_control(request, response);
    }

    fn cancel_pending_emergency_clear(&mut self, output: &mut ServiceOutput)
        requires
            service_wf(old(self)@),
        ensures
            (final(self)@, final(output)@) == spec_cancel_clears(old(self)@, old(output)@, 8),
            service_wf(final(self)@),
    {
        let mut i: usize = 0;
        while i < 8
            invariant
                i <= 8,
                service_wf(self@),
                (self@, output@) == spec_cancel_clears(old(self)@, old(output)@, i as int),
            decreases 8 - i,
        {
            self.cancel_clear_at(output, i);
            i = i + 1;
        }
    }

    fn finish(
        &mut self,
        output: &mut ServiceOutput,
        request: ControlRequest,
        mutation: Result<Mutation, ControllerError>,
        result: CommandResult,
        Ghost(c): Ghost<ControllerModel>,
    )
        requires
            service_wf(old(self)@),
        ensures
            (final(self)@, c, final(output)@) == spec_finish(old(self)@, c, old(output)@, request, mutation, result),
            service_wf(final(self)@),
    {
        match mutation {
            Ok(m) => match m.persist_revision {
                Some(required_revision) => {
                    self.enqueue(PendingResponse { required_revision, kind: PendingKind::Control { request, result } });
                },
                None => {
                    let response = self.control_response(request, result, 0);
                    self.push_operational(output, response);
                    self.complete_control(request, response);
                },
            },
            Err(e) => {
                let response = self.control_response(request, controller_error_result(e), 0);
                self.push_operational(output, response);
                self.complete_control(request, response);
            },
        }
    }

    fn apply_new_control(&mut self, controller: &mut Controller, request: ControlRequest) -> (r: ServiceOutput)
        requires
            service_wf(old(self)@),
        ensures
            (final(self)@, final(controller)@, r@) == spec_apply_new_control(old(self)@, old(controller)@, request),
            service_wf(final(self)@),
    {
        let mut output = ServiceOutput::empty();
        match request.command {
            ControlCommand::EmergencyDisable => {
                let mutation = controller.emergency_disable();
                self.cancel_pending_emergency_clear(&mut output);
                self.finish(&mut output, request, Ok(mutation), CommandResult::Success, Ghost(controller@));
            },
            ControlCommand::SetPortPolicy { port, policy } => {
                let mutation = controller.set_port_policy(port, policy);
                self.finish(&mut output, request, mutation, CommandResult::SuccessPending, Ghost(controller@));
            },
            ControlCommand::AcknowledgeEmergencyResolved => {
                let mutation = match controller.acknowledge_emergency_resolved() {
                    Ok(revision) => Ok(Mutation { persist_revision: Some(revision) }),
                    Err(e) => Err(e),
                };
                self.finish(&mut output, request, mutation, CommandResult::Success, Ghost(controller@));
            },
            ControlCommand::RequestStatus { port } => {
                let result = if self.board.supports(port) {
                    CommandResult::Success
                } else {
                    CommandResult::InvalidTarget
                };
                let response = self.control_response(request, result, 0);
                self.complete_control(request, response);
                self.push_operational(&mut output, response);
                if result == CommandResult::Success {
                    match self.port_state(controller, port) {
                        Some(st) => output.push(Reply::PortState(st)),
                        None => {},
                    }
                }
            },
            ControlCommand::SetFanConfig { config } => {
                let mutation = controller.set_fan_config(config);
                self.finish(&mut output, request, mutation, CommandResult::Success, Ghost(controller@));
            },
        }
        output
    }

    /// Answer a control request; see `spec_handle_control`.
    pub fn handle_control(&mut self, controller: &mut Controller, request: ControlRequest) -> (r: ServiceOutput)
        requires
            service_wf(old(self)@),
        ensures
            (final(self)@, final(controller)@, r@) == spec_handle_control(old(self)@, old(controller)@, request),
            service_wf(final(self)@),
            identities_unique(old(self)@) ==> identities_unique(final(self)@),
            comm_identities_unique(old(self)@) ==> comm_identities_unique(final(self)@),
    {
        proof {
            if identities_unique(self@) {
                lemma_handle_control_keeps_unique(self@, controller@, request);
            }
            if comm_identities_unique(self@) {
                lemma_handle_control_keeps_comm_unique(self@, controller@, request);
            }
        }
        let mut output = ServiceOutput::empty();
        let broadcast_emergency = request.node == 0 && match request.command {
            ControlCommand::EmergencyDisable => true,
            _ => false,
        };
        let addressed = self.commissioning.normal_traffic_allowed() && match self.commissioning.node_id() {
            Some(node) => node.get() == request.node,
            None => false,
        };
        if !addressed && !broadcast_emergency {
            return output;
        }
        proof {
            lemma_find_completed_hit(self@, request, 8);
            lemma_find_pending_hit(self@, request, 8);
        }
        match self.find_completed(request) {
            Some(i) => {
                let entry = self.completed[i].unwrap();
                let exact = entry.request == request;
                let response = if exact {
                    entry.response
                } else {
                    self.control_response(request, CommandResult::InvalidArgument, 1)
                };
                self.push_operational(&mut output, response);
                if exact && response.result == CommandResult::Success {
                    match request.command {
                        ControlCommand::RequestStatus { port } => {
                            match self.port_state(controller, port) {
                                Some(st) => output.push(Reply::PortState(st)),
                                None => {},
                            }
                        },
                        _ => {},
                    }
                }
                return output;
            },
            None => {},
        }
        match self.find_pending_control(request) {
            Some(i) => {
                let same = match self.pending[i] {
                    Some(e) => match e.kind {
                        PendingKind::Control { request: held, .. } => held == request,
                        _ => false,
                    },
                    None => false,
                };
                if !same {
                    let response = self.control_response(request, CommandResult::InvalidArgument, 1);
                    self.push_operational(&mut output, response);
                }
                return output;
            },
            None => {},
        }
        let serialized = match request.command {
            ControlCommand::SetPortPolicy { .. } | ControlCommand::AcknowledgeEmergencyResolved
            | ControlCommand::SetFanConfig { .. } => true,
            _ => false,
        };
        if serialized && self.any_pending() {
            let response = self.control_response(request, CommandResult::Busy, 0);
            self.push_operational(&mut output, response);
            return output;
        }
        self.apply_new_control(controller, request)
    }
}

pub proof fn lemma_find_completed_hit(s: ServiceModel, request: ControlRequest, n: int)
    ensures
        find_completed(s, request, n) matches Some(i) ==> (s.completed[i] matches Some(e)
            && e.request.requester == request.requester && e.request.request_id == request.request_id
            && 0 <= i < n),
    decreases n,
{
    if n > 0 {
        lemma_find_completed_hit(s, request, n - 1);
    }
}

pub proof fn lemma_find_pending_hit(s: ServiceModel, request: ControlRequest, n: int)
    ensures
        find_pending_control(s, request, n) matches Some(i) ==> (0 <= i < n && pending_control_matches(
            s.pending[i],
            request,
        )),
    decreases n,
{
    if n > 0 {
        lemma_find_pending_hit(s, request, n - 1);
    }
}

pub open spec fn spec_commissioning_result(
    s: ServiceModel,
    request_id: RequestId,
    request_opcode: u8,
    result: CommandResult,
) -> CommissioningMessage {
    CommissioningMessage::Result {
        request_id,
        uid: s.commissioning.uid,
        request_opcode,
        result,
        node_id: s.commissioning.node_id,
        state: s.commissioning.state,
    }
}

pub open spec fn spec_push_commissioning(o: OutModel, requester: RequesterId, message: CommissioningMessage) -> OutModel {
    with_reply(o, Reply::Commissioning { requester, message })
}

/// A claim of the node's address, from the protocol requester, when it has one.
pub open spec fn spec_claim(s: ServiceModel, o: OutModel, claim_nonce: u16) -> OutModel {
    match s.commissioning.node_id {
        Some(node_id) => with_reply(
            o,
            Reply::Commissioning {
                requester: RequesterId::spec_new(0),
                message: CommissioningMessage::NodeClaim {
                    uid: s.commissioning.uid,
                    node_id,
                    state: s.commissioning.state,
                    claim_nonce,
                },
            },
        ),
        None => o,
    }
}

pub open spec fn spec_assign_done(s: ServiceModel, o: OutModel, requester: RequesterId, request_id: RequestId, node_id: NodeId) -> (ServiceModel, OutModel) {
    let s1 = ServiceModel { commissioning: spec_apply_persisted_node_id(s.commissioning, Some(node_id)), ..s };
    let result = spec_commissioning_result(s1, request_id, 4, CommandResult::Success);
    let o1 = spec_push_commissioning(o, requester, result);
    let s2 = spec_complete_commissioning(
        s1,
        requester,
        CommissioningMessage::AssignNode { request_id, uid: s1.commissioning.uid, node_id },
        result,
    );
    (s2, spec_claim(s2, o1, 0))
}

pub open spec fn spec_clear_done(s: ServiceModel, o: OutModel, requester: RequesterId, request_id: RequestId) -> (ServiceModel, OutModel) {
    let s1 = ServiceModel { commissioning: spec_apply_persisted_node_id(s.commissioning, None), ..s };
    let result = spec_commissioning_result(s1, request_id, 5, CommandResult::Success);
    let o1 = spec_push_commissioning(o, requester, result);
    let s2 = spec_complete_commissioning(
        s1,
        requester,
        CommissioningMessage::ClearNode { request_id, uid: s1.commissioning.uid },
        result,
    );
    (s2, o1)
}

pub open spec fn covered(p: Option<PendingResponse>, durable: ConfigRevision) -> bool {
    p matches Some(e) && spec_revision_covers(durable, e.required_revision)
}

/// Release the held answer in slot `i` if `durable` covers its revision.
pub open spec fn spec_release_at(s: ServiceModel, o: OutModel, durable: ConfigRevision, i: int) -> (ServiceModel, OutModel) {
    if !covered(s.pending[i], durable) {
        (s, o)
    } else {
        let p = s.pending[i]->0;
        let s1 = ServiceModel { pending: s.pending.update(i, None), ..s };
        match p.kind {
            PendingKind::Control { request, result } => {
                let response = spec_control_response(s1, request, result, 0);
                (spec_complete_control(s1, request, response), spec_push_operational(s1, o, response))
            },
            PendingKind::AssignNode { requester, request_id, node_id } => spec_assign_done(
                s1,
                o,
                requester,
                request_id,
                node_id,
            ),
            PendingKind::ClearNode { requester, request_id } => spec_clear_done(s1, o, requester, request_id),
        }
    }
}

pub open spec fn spec_release(s: ServiceModel, o: OutModel, durable: ConfigRevision, n: int) -> (ServiceModel, OutModel)
    decreases n,
{
    if n <= 0 {
        (s, o)
    } else {
        let r = spec_release(s, o, durable, n - 1);
        spec_release_at(r.0, r.1, durable, n - 1)
    }
}

/// A durable settings write releases, in slot order, every held answer
/// whose revision it covers; any other completion releases nothing.
pub open spec fn spec_service_complete_persist(s: ServiceModel, completion: PersistCompletion) -> (ServiceModel, OutModel) {
    match completion {
        PersistCompletion::DurableThrough(durable) => spec_release(s, empty_out(), durable, 8),
        _ => (s, empty_out()),
    }
}

pub open spec fn request_identity(m: CommissioningMessage) -> Option<(RequestId, u8)> {
    match m {
        CommissioningMessage::Identify { request_id, .. } => Some((request_id, 3u8)),
        CommissioningMessage::AssignNode { request_id, .. } => Some((request_id, 4u8)),
        CommissioningMessage::ClearNode { request_id, .. } => Some((request_id, 5u8)),
        _ => None,
    }
}

pub open spec fn targets_uid(m: CommissioningMessage, uid: NodeUid) -> bool {
    match m {
        CommissioningMessage::Identify { uid: t, .. } => t == uid,
        CommissioningMessage::AssignNode { uid: t, .. } => t == uid,
        CommissioningMessage::ClearNode { uid: t, .. } => t == uid,
        _ => true,
    }
}

pub open spec fn pending_identity(kind: PendingKind) -> Option<(RequesterId, RequestId)> {
    match kind {
        PendingKind::AssignNode { requester, request_id, .. } => Some((requester, request_id)),
        PendingKind::ClearNode { requester, request_id } => Some((requester, request_id)),
        PendingKind::Control { .. } => None,
    }
}

pub open spec fn pending_matches(kind: PendingKind, request: CommissioningMessage, uid: NodeUid) -> bool {
    match (kind, request) {
        (
            PendingKind::AssignNode { request_id: pid, node_id: pnode, .. },
            CommissioningMessage::AssignNode { request_id, uid: ruid, node_id },
        ) => pid == request_id && pnode == node_id && ruid == uid,
        (
            PendingKind::ClearNode { request_id: pid, .. },
            CommissioningMessage::ClearNode { request_id, uid: ruid },
        ) => pid == request_id && ruid == uid,
        _ => false,
    }
}

pub open spec fn completed_comm_matches(e: Option<CompletedCommissioning>, requester: RequesterId, id: RequestId) -> bool {
    match e {
        Some(x) => x.requester == requester && match request_identity(x.request) {
            Some((cid, _)) => cid == id,
            None => false,
        },
        None => false,
    }
}

pub open spec fn find_completed_comm(s: ServiceModel, requester: RequesterId, id: RequestId, n: int) -> Option<int>
    decreases n,
{
    if n <= 0 {
        None
    } else {
        match find_completed_comm(s, requester, id, n - 1) {
            Some(i) => Some(i),
            None => if completed_comm_matches(s.completed_commissioning[n - 1], requester, id) {
                Some(n - 1)
            } else {
                None
            },
        }
    }
}

pub open spec fn pending_comm_matches(p: Option<PendingResponse>, requester: RequesterId, id: RequestId) -> bool {
    p matches Some(e) && pending_identity(e.kind) == Some((requester, id))
}

pub open spec fn find_pending_comm(s: ServiceModel, requester: RequesterId, id: RequestId, n: int) -> Option<int>
    decreases n,
{
    if n <= 0 {
        None
    } else {
        match find_pending_comm(s, requester, id, n - 1) {
            Some(i) => Some(i),
            None => if pending_comm_matches(s.pending[n - 1], requester, id) {
                Some(n - 1)
            } else {
                None
            },
        }
    }
}

/// The answer to a repeated UID-addressed request: the remembered answer to
/// an exact retry, nothing while the same request is held, and a refusal
/// for a reused identifier.
pub open spec fn spec_replay(s: ServiceModel, requester: RequesterId, request: CommissioningMessage) -> Option<OutModel> {
    match request_identity(request) {
        None => None,
        Some((id, opcode)) => match find_completed_comm(s, requester, id, 8) {
            Some(i) => {
                let e = s.completed_commissioning[i]->0;
                let response = if e.request == request {
                    e.response
                } else {
                    spec_commissioning_result(s, id, opcode, CommandResult::InvalidArgument)
                };
                Some(spec_push_commissioning(empty_out(), requester, response))
            },
            None => match find_pending_comm(s, requester, id, 8) {
                Some(i) => if pending_matches(s.pending[i]->0.kind, request, s.commissioning.uid) {
                    Some(empty_out())
                } else {
                    Some(
                        spec_push_commissioning(
                            empty_out(),
                            requester,
                            spec_commissioning_result(s, id, opcode, CommandResult::InvalidArgument),
                        ),
                    )
                },
                None => None,
            },
        },
    }
}

pub open spec fn spec_handle_assign(
    s: ServiceModel,
    c: ControllerModel,
    requester: RequesterId,
    request_id: RequestId,
    node_id: NodeId,
) -> (ServiceModel, ControllerModel, OutModel) {
    if any_pending(s) {
        (s, c, spec_push_commissioning(empty_out(), requester, spec_commissioning_result(s, request_id, 4, CommandResult::Busy)))
    } else {
        let m = spec_set_node_id(c, Some(node_id));
        match m.1.persist_revision {
            Some(required_revision) => (
                spec_enqueue(
                    s,
                    PendingResponse { required_revision, kind: PendingKind::AssignNode { requester, request_id, node_id } },
                ),
                m.0,
                empty_out(),
            ),
            None => {
                let d = spec_assign_done(s, empty_out(), requester, request_id, node_id);
                (d.0, m.0, d.1)
            },
        }
    }
}

pub open spec fn spec_handle_clear(s: ServiceModel, c: ControllerModel, requester: RequesterId, request_id: RequestId) -> (
    ServiceModel,
    ControllerModel,
    OutModel,
) {
    if any_pending(s) {
        (s, c, spec_push_commissioning(empty_out(), requester, spec_commissioning_result(s, request_id, 5, CommandResult::Busy)))
    } else {
        let m = spec_set_node_id(c, None);
        match m.1.persist_revision {
            Some(required_revision) => (
                spec_enqueue(
                    s,
                    PendingResponse { required_revision, kind: PendingKind::ClearNode { requester, request_id } },
                ),
                m.0,
                empty_out(),
            ),
            None => {
                let d = spec_clear_done(s, empty_out(), requester, request_id);
                (d.0, m.0, d.1)
            },
        }
    }
}

pub open spec fn spec_discovery_info(s: ServiceModel) -> DiscoveryInfo {
    DiscoveryInfo {
        uid: s.commissioning.uid,
        node_id: s.commissioning.node_id,
        state: s.commissioning.state,
        protocol_major: 0,
        protocol_minor: 1,
        firmware: s.firmware,
        hardware_revision: revision_byte(s.board.hardware_revision),
        supported_ports: s.board.supported_ports@,
    }
}

/// A commissioning message: requests for another UID are ignored, repeats
/// are replayed or refused, discovery is answered, identify is answered and
/// lights the LED, assignment and clearing go through durable settings,
/// and a foreign claim of this node's address marks a conflict and is
/// answered with this node's own claim.
pub open spec fn spec_handle_commissioning(
    s: ServiceModel,
    c: ControllerModel,
    requester: RequesterId,
    message: CommissioningMessage,
) -> (ServiceModel, ControllerModel, OutModel) {
    if request_identity(message) is Some && !targets_uid(message, s.commissioning.uid) {
        (s, c, empty_out())
    } else {
        match spec_replay(s, requester, message) {
            Some(o) => (s, c, o),
            None => match message {
                CommissioningMessage::Discover { nonce } => (
                    s,
                    c,
                    spec_push_commissioning(
                        empty_out(),
                        requester,
                        CommissioningMessage::DiscoveryResponse { nonce, info: spec_discovery_info(s) },
                    ),
                ),
                CommissioningMessage::Identify { request_id, duration_seconds, .. } => {
                    let result = spec_commissioning_result(s, request_id, 3, CommandResult::Success);
                    (
                        spec_complete_commissioning(s, requester, message, result),
                        c,
                        spec_push_commissioning(
                            OutModel { replies: Seq::empty(), identify_seconds: Some(duration_seconds) },
                            requester,
                            result,
                        ),
                    )
                },
                CommissioningMessage::AssignNode { request_id, node_id, .. } => spec_handle_assign(
                    s,
                    c,
                    requester,
                    request_id,
                    node_id,
                ),
                CommissioningMessage::ClearNode { request_id, .. } => spec_handle_clear(s, c, requester, request_id),
                CommissioningMessage::NodeClaim { uid, node_id, claim_nonce, .. } => {
                    let answer = uid != s.commissioning.uid && s.commissioning.node_id == Some(node_id)
                        && s.commissioning.state != CommissioningState::AddressConflict;
                    let s1 = ServiceModel {
                        commissioning: spec_observe_claim(s.commissioning, uid, node_id),
                        ..s
                    };
                    (
                        s1,
                        c,
                        if answer {
                            spec_claim(s1, empty_out(), if claim_nonce == u16::MAX { 0u16 } else { (claim_nonce + 1) as u16 })
                        } else {
                            empty_out()
                        },
                    )
                },
                _ => (s, c, empty_out()),
            },
        }
    }
}

/// The periodic heartbeat, sent only while the node's address may be used:
/// the service's own board, the controller's port and emergency state.
pub open spec fn spec_service_heartbeat(s: ServiceModel, c: ControllerModel) -> OutModel {
    match s.commissioning.node_id {
        Some(node) => if traffic_allowed(s) {
            with_reply(
                empty_out(),
                Reply::Heartbeat(
                    Heartbeat {
                        hardware_revision: revision_byte(s.board.hardware_revision),
                        supported_ports: s.board.supported_ports@,
                        ..spec_heartbeat_report(c, node, s.commissioning.state, s.firmware, s.reset_flags, s.uptime_seconds)
                    },
                ),
            )
        } else {
            empty_out()
        },
        None => empty_out(),
    }
}

fn opt_node_eq(a: Option<NodeId>, b: Option<NodeId>) -> (r: bool)
    ensures
        r == (a == b),
{
    match (a, b) {
        (None, None) => true,
        (Some(x), Some(y)) => x == y,
        _ => false,
    }
}

/// Field-by-field equality of two commissioning messages.
pub fn same_message(a: &CommissioningMessage, b: &CommissioningMessage) -> (r: bool)
    ensures
        r == (*a == *b),
{
    match (a, b) {
        (
            CommissioningMessage::NodeClaim { uid: u1, node_id: n1, state: s1, claim_nonce: c1 },
            CommissioningMessage::NodeClaim { uid: u2, node_id: n2, state: s2, claim_nonce: c2 },
        ) => u1.same_as(u2) && n1 == n2 && s1 == s2 && c1 == c2,
        (CommissioningMessage::Discover { nonce: x }, CommissioningMessage::Discover { nonce: y }) => x == y,
        (
            CommissioningMessage::DiscoveryResponse { nonce: x, info: i1 },
            CommissioningMessage::DiscoveryResponse { nonce: y, info: i2 },
        ) => x == y && i1.uid.same_as(&i2.uid) && opt_node_eq(i1.node_id, i2.node_id) && i1.state == i2.state
            && i1.protocol_major == i2.protocol_major && i1.protocol_minor == i2.protocol_minor
            && i1.firmware == i2.firmware && i1.hardware_revision == i2.hardware_revision
            && i1.supported_ports == i2.supported_ports,
        (
            CommissioningMessage::Identify { request_id: r1, uid: u1, duration_seconds: d1 },
            CommissioningMessage::Identify { request_id: r2, uid: u2, duration_seconds: d2 },
        ) => r1 == r2 && u1.same_as(u2) && d1 == d2,
        (
            CommissioningMessage::AssignNode { request_id: r1, uid: u1, node_id: n1 },
            CommissioningMessage::AssignNode { request_id: r2, uid: u2, node_id: n2 },
        ) => r1 == r2 && u1.same_as(u2) && n1 == n2,
        (
            CommissioningMessage::ClearNode { request_id: r1, uid: u1 },
            CommissioningMessage::ClearNode { request_id: r2, uid: u2 },
        ) => r1 == r2 && u1.same_as(u2),
        (
            CommissioningMessage::Result {
                request_id: r1,
                uid: u1,
                request_opcode: o1,
                result: x1,
                node_id: n1,
                state: s1,
            },
            CommissioningMessage::Result {
                request_id: r2,
                uid: u2,
                request_opcode: o2,
                result: x2,
                node_id: n2,
                state: s2,
            },
        ) => r1 == r2 && u1.same_as(u2) && o1 == o2 && x1 == x2 && opt_node_eq(*n1, *n2) && s1 == s2,
        _ => false,
    }
}

fn identity_of(m: CommissioningMessage) -> (r: Option<(RequestId, u8)>)
    ensures
        r == request_identity(m),
{
    match m {
        CommissioningMessage::Identify { request_id, .. } => Some((request_id, 3u8)),
        CommissioningMessage::AssignNode { request_id, .. } => Some((request_id, 4u8)),
        CommissioningMessage::ClearNode { request_id, .. } => Some((request_id, 5u8)),
        _ => None,
    }
}

fn addressed_to(m: CommissioningMessage, uid: &NodeUid) -> (r: bool)
    ensures
        r == targets_uid(m, *uid),
{
    match m {
        CommissioningMessage::Identify { uid: t, .. } => t.same_as(uid),
        CommissioningMessage::AssignNode { uid: t, .. } => t.same_as(uid),
        CommissioningMessage::ClearNode { uid: t, .. } => t.same_as(uid),
        _ => true,
    }
}

fn held_matches(kind: PendingKind, request: CommissioningMessage, uid: &NodeUid) -> (r: bool)
    ensures
        r == pending_matches(kind, request, *uid),
{
    match (kind, request) {
        (
            PendingKind::AssignNode { request_id: pid, node_id: pnode, .. },
            CommissioningMessage::AssignNode { request_id, uid: ruid, node_id },
        ) => pid == request_id && pnode == node_id && ruid.same_as(uid),
        (
            PendingKind::ClearNode { request_id: pid, .. },
            CommissioningMessage::ClearNode { request_id, uid: ruid },
        ) => pid == request_id && ruid.same_as(uid),
        _ => false,
    }
}

fn hardware_revision_byte(r: HardwareRevision) -> (b: u8)
    ensures
        b == revision_byte(r),
{
    match r {
        HardwareRevision::RevA => 1,
        HardwareRevision::RevB => 2,
    }
}

pub proof fn lemma_find_completed_comm_stable(s: ServiceModel, requester: RequesterId, id: RequestId, k: int, n: int)
    requires
        0 <= k <= n,
        find_completed_comm(s, requester, id, k) is Some,
    ensures
        find_completed_comm(s, requester, id, n) == find_completed_comm(s, requester, id, k),
    decreases n - k,
{
    if n > k {
        lemma_find_completed_comm_stable(s, requester, id, k, n - 1);
    }
}

pub proof fn lemma_find_pending_comm_stable(s: ServiceModel, requester: RequesterId, id: RequestId, k: int, n: int)
    requires
        0 <= k <= n,
        find_pending_comm(s, requester, id, k) is Some,
    ensures
        find_pending_comm(s, requester, id, n) == find_pending_comm(s, requester, id, k),
    decreases n - k,
{
    if n > k {
        lemma_find_pending_comm_stable(s, requester, id, k, n - 1);
    }
}

pub proof fn lemma_find_completed_comm_hit(s: ServiceModel, requester: RequesterId, id: RequestId, n: int)
    ensures
        find_completed_comm(s, requester, id, n) matches Some(i) ==> (0 <= i < n && completed_comm_matches(
            s.completed_commissioning[i],
            requester,
            id,
        )),
    decreases n,
{
    if n > 0 {
        lemma_find_completed_comm_hit(s, requester, id, n - 1);
    }
}

pub proof fn lemma_find_pending_comm_hit(s: ServiceModel, requester: RequesterId, id: RequestId, n: int)
    ensures
        find_pending_comm(s, requester, id, n) matches Some(i) ==> (0 <= i < n && pending_comm_matches(
            s.pending[i],
            requester,
            id,
        )),
    decreases n,
{
    if n > 0 {
        lemma_find_pending_comm_hit(s, requester, id, n - 1);
    }
}

impl CommandService {
    fn commissioning_result(&self, request_id: RequestId, request_opcode: u8, result: CommandResult) -> (r:
        CommissioningMessage)
        ensures
            r == spec_commissioning_result(self@, request_id, request_opcode, result),
    {
        CommissioningMessage::Result {
            request_id,
            uid: self.commissioning.uid(),
            request_opcode,
            result,
            node_id: self.commissioning.node_id(),
            state: self.commissioning.state(),
        }
    }

    fn push_claim(&self, output: &mut ServiceOutput, claim_nonce: u16)
        ensures
            final(output)@ == spec_claim(self@, old(output)@, claim_nonce),
    {
        match self.commissioning.node_id() {
            Some(node_id) => {
                output.push(
                    Reply::Commissioning {
                        requester: RequesterId::PROTOCOL(),
                        message: CommissioningMessage::NodeClaim {
                            uid: self.commissioning.uid(),
                            node_id,
                            state: self.commissioning.state(),
                            claim_nonce,
                        },
                    },
                );
            },
            None => {},
        }
    }

    fn assign_done(&mut self, output: &mut ServiceOutput, requester: RequesterId, request_id: RequestId, node_id: NodeId)
        requires
            service_wf(old(self)@),
        ensures
            (final(self)@, final(output)@) == spec_assign_done(old(self)@, old(output)@, requester, request_id, node_id),
            service_wf(final(self)@),
    {
        self.commissioning.apply_persisted_node_id(Some(node_id));
        let ghost s1 = self@;
        assert(s1 == ServiceModel {
            commissioning: spec_apply_persisted_node_id(old(self)@.commissioning, Some(node_id)),
            ..old(self)@
        });
        let result = self.commissioning_result(request_id, 4, CommandResult::Success);
        output.push(Reply::Commissioning { requester, message: result });
        let uid = self.commissioning.uid();
        self.complete_commissioning(requester, CommissioningMessage::AssignNode { request_id, uid, node_id }, result);
        self.push_claim(output, 0);
    }

    fn clear_done(&mut self, output: &mut ServiceOutput, requester: RequesterId, request_id: RequestId)
        requires
            service_wf(old(self)@),
        ensures
            (final(self)@, final(output)@) == spec_clear_done(old(self)@, old(output)@, requester, request_id),
            service_wf(final(self)@),
    {
        self.commissioning.apply_persisted_node_id(None);
        let ghost s1 = self@;
        assert(s1 == ServiceModel {
            commissioning: spec_apply_persisted_node_id(old(self)@.commissioning, None),
            ..old(self)@
        });
        let result = self.commissioning_result(request_id, 5, CommandResult::Success);
        output.push(Reply::Commissioning { requester, message: result });
        let uid = self.commissioning.uid();
        self.complete_commissioning(requester, CommissioningMessage::ClearNode { request_id, uid }, result);
    }

    fn release_at(&mut self, output: &mut ServiceOutput, durable: ConfigRevision, i: usize)
        requires
            service_wf(old(self)@),
            i < 8,
        ensures
            (final(self)@, final(output)@) == spec_release_at(old(self)@, old(output)@, durable, i as int),
            service_wf(final(self)@),
    {
        let p = match self.pending[i] {
            Some(p) => p,
            None => {
                return;
            },
        };
        if !revision_covers(durable, p.required_revision) {
            return;
        }
        self.pending[i] = None;
        assert(self@ =~= ServiceModel { pending: old(self)@.pending.update(i as int, None), ..old(self)@ });
        match p.kind {
            PendingKind::Control { request, result } => {
                let response = self.control_response(request, result, 0);
                self.push_operational(output, response);
                self.complete_control(request, response);
            },
            PendingKind::AssignNode { requester, request_id, node_id } => {
                self.assign_done(output, requester, request_id, node_id);
            },
            PendingKind::ClearNode { requester, request_id } => {
                self.clear_done(output, requester, request_id);
            },
        }
    }

    /// Release the answers that a settings write made durable; see
    /// `spec_service_complete_persist`.
    pub fn complete_persist(&mut self, completion: PersistCompletion) -> (r: ServiceOutput)
        requires
            service_wf(old(self)@),
        ensures
            (final(self)@, r@) == spec_service_complete_persist(old(self)@, completion),
            service_wf(final(self)@),
            identities_unique(old(self)@) ==> identities_unique(final(self)@),
            comm_identities_unique(old(self)@) ==> comm_identities_unique(final(self)@),
    {
        proof {
            if identities_unique(self@) {
                lemma_complete_persist_keeps_unique(self@, completion);
            }
            if comm_identities_unique(self@) {
                lemma_complete_persist_keeps_comm_unique(self@, completion);
            }
        }
        let mut output = ServiceOutput::empty();
        let durable = match completion {
            PersistCompletion::DurableThrough(d) => d,
            _ => {
                return output;
            },
        };
        let mut i: usize = 0;
        while i < 8
            invariant
                i <= 8,
                service_wf(self@),
                (self@, output@) == spec_release(old(self)@, empty_out(), durable, i as int),
            decreases 8 - i,
        {
            self.release_at(&mut output, durable, i);
            i = i + 1;
        }
        output
    }
}

impl CommandService {
    fn find_completed_comm(&self, requester: RequesterId, id: RequestId) -> (r: Option<usize>)
        requires
            service_wf(self@),
        ensures
            r matches Some(i) ==> i < 8,
            find_completed_comm(self@, requester, id, 8) == (match r {
                Some(i) => Some(i as int),
                None => None::<int>,
            }),
    {
        let mut i: usize = 0;
        while i < 8
            invariant
                i <= 8,
                service_wf(self@),
                find_completed_comm(self@, requester, id, i as int) is None,
            decreases 8 - i,
        {
            let hit = match self.completed_commissioning[i] {
                Some(e) => e.requester == requester && match identity_of(e.request) {
                    Some((cid, _)) => cid == id,
                    None => false,
                },
                None => false,
            };
            if hit {
                proof { lemma_find_completed_comm_stable(self@, requester, id, (i + 1) as int, 8); }
                return Some(i);
            }
            i = i + 1;
        }
        None
    }

    fn find_pending_comm(&self, requester: RequesterId, id: RequestId) -> (r: Option<usize>)
        requires
            service_wf(self@),
        ensures
            r matches Some(i) ==> i < 8,
            find_pending_comm(self@, requester, id, 8) == (match r {
                Some(i) => Some(i as int),
                None => None::<int>,
            }),
    {
        let mut i: usize = 0;
        while i < 8
            invariant
                i <= 8,
                service_wf(self@),
                find_pending_comm(self@, requester, id, i as int) is None,
            decreases 8 - i,
        {
            let hit = match self.pending[i] {
                Some(e) => match e.kind {
                    PendingKind::AssignNode { requester: who, request_id, .. } => who == requester && request_id == id,
                    PendingKind::ClearNode { requester: who, request_id } => who == requester && request_id == id,
                    PendingKind::Control { .. } => false,
                },
                None => false,
            };
            if hit {
                proof { lemma_find_pending_comm_stable(self@, requester, id, (i + 1) as int, 8); }
                return Some(i);
            }
            i = i + 1;
        }
        None
    }

    fn replay_commissioning(&self, requester: RequesterId, request: CommissioningMessage) -> (r: Option<ServiceOutput>)
        requires
            service_wf(self@),
        ensures
            spec_replay(self@, requester, request) == (match r {
                Some(o) => Some(o@),
                None => None::<OutModel>,
            }),
    {
        let (id, opcode) = match identity_of(request) {
            Some(x) => x,
            None => {
                return None;
            },
        };
        proof {
            lemma_find_completed_comm_hit(self@, requester, id, 8);
            lemma_find_pending_comm_hit(self@, requester, id, 8);
        }
        match self.find_completed_comm(requester, id) {
            Some(i) => {
                let e = self.completed_commissioning[i].unwrap();
                let response = if same_message(&e.request, &request) {
                    e.response
                } else {
                    self.commissioning_result(id, opcode, CommandResult::InvalidArgument)
                };
                let mut output = ServiceOutput::empty();
                output.push(Reply::Commissioning { requester, message: response });
                return Some(output);
            },
            None => {},
        }
        match self.find_pending_comm(requester, id) {
            Some(i) => {
                let e = self.pending[i].unwrap();
                let uid = self.commissioning.uid();
                if held_matches(e.kind, request, &uid) {
                    return Some(ServiceOutput::empty());
                }
                let result = self.commissioning_result(id, opcode, CommandResult::InvalidArgument);
                let mut output = ServiceOutput::empty();
                output.push(Reply::Commissioning { requester, message: result });
                Some(output)
            },
            None => None,
        }
    }

    fn handle_assign_node(
        &mut self,
        controller: &mut Controller,
        requester: RequesterId,
        request_id: RequestId,
        node_id: NodeId,
    ) -> (r: ServiceOutput)
        requires
            service_wf(old(self)@),
        ensures
            (final(self)@, final(controller)@, r@) == spec_handle_assign(
                old(self)@,
                old(controller)@,
                requester,
                request_id,
                node_id,
            ),
            service_wf(final(self)@),
    {
        let mut output = ServiceOutput::empty();
        if self.any_pending() {
            let result = self.commissioning_result(request_id, 4, CommandResult::Busy);
            output.push(Reply::Commissioning { requester, message: result });
            return output;
        }
        let mutation = controller.set_node_id(Some(node_id));
        match mutation.persist_revision {
            Some(required_revision) => {
                self.enqueue(
                    PendingResponse { required_revision, kind: PendingKind::AssignNode { requester, request_id, node_id } },
                );
            },
            None => {
                self.assign_done(&mut output, requester, request_id, node_id);
            },
        }
        output
    }

    fn handle_clear_node(&mut self, controller: &mut Controller, requester: RequesterId, request_id: RequestId) -> (r:
        ServiceOutput)
        requires
            service_wf(old(self)@),
        ensures
            (final(self)@, final(controller)@, r@) == spec_handle_clear(old(self)@, old(controller)@, requester, request_id),
            service_wf(final(self)@),
    {
        let mut output = ServiceOutput::empty();
        if self.any_pending() {
            let result = self.commissioning_result(request_id, 5, CommandResult::Busy);
            output.push(Reply::Commissioning { requester, message: result });
            return output;
        }
        let mutation = controller.set_node_id(None);
        match mutation.persist_revision {
            Some(required_revision) => {
                self.enqueue(PendingResponse { required_revision, kind: PendingKind::ClearNode { requester, request_id } });
            },
            None => {
                self.clear_done(&mut output, requester, request_id);
            },
        }
        output
    }

    /// Answer a commissioning message; see `spec_handle_commissioning`.
    pub fn handle_commissioning(
        &mut self,
        controller: &mut Controller,
        requester: RequesterId,
        message: CommissioningMessage,
    ) -> (r: ServiceOutput)
        requires
            service_wf(old(self)@),
        ensures
            (final(self)@, final(controller)@, r@) == spec_handle_commissioning(
                old(self)@,
                old(controller)@,
                requester,
                message,
            ),
            service_wf(final(self)@),
            identities_unique(old(self)@) ==> identities_unique(final(self)@),
            comm_identities_unique(old(self)@) ==> comm_identities_unique(final(self)@),
    {
        proof {
            if identities_unique(self@) {
                lemma_handle_commissioning_keeps_unique(self@, controller@, requester, message);
            }
            if comm_identities_unique(self@) {
                lemma_handle_commissioning_keeps_comm_unique(self@, controller@, requester, message);
            }
        }
        let uid = self.commissioning.uid();
        if identity_of(message).is_some() && !addressed_to(message, &uid) {
            return ServiceOutput::empty();
        }
        match self.replay_commissioning(requester, message) {
            Some(o) => {
                return o;
            },
            None => {},
        }
        let mut output = ServiceOutput::empty();
        match message {
            CommissioningMessage::Discover { nonce } => {
                let info = DiscoveryInfo {
                    uid,
                    node_id: self.commissioning.node_id(),
                    state: self.commissioning.state(),
                    protocol_major: PROTOCOL_MAJOR,
                    protocol_minor: PROTOCOL_MINOR,
                    firmware: self.firmware,
                    hardware_revision: hardware_revision_byte(self.board.hardware_revision),
                    supported_ports: self.board.supported_ports.bits(),
                };
                output.push(
                    Reply::Commissioning { requester, message: CommissioningMessage::DiscoveryResponse { nonce, info } },
                );
            },
            CommissioningMessage::Identify { request_id, duration_seconds, .. } => {
                output.identify_seconds = Some(duration_seconds);
                let result = self.commissioning_result(request_id, 3, CommandResult::Success);
                output.push(Reply::Commissioning { requester, message: result });
                self.complete_commissioning(requester, message, result);
            },
            CommissioningMessage::AssignNode { request_id, node_id, .. } => {
                return self.handle_assign_node(controller, requester, request_id, node_id);
            },
            CommissioningMessage::ClearNode { request_id, .. } => {
                return self.handle_clear_node(controller, requester, request_id);
            },
            CommissioningMessage::NodeClaim { uid: claimed, node_id, claim_nonce, .. } => {
                let ours = match self.commissioning.node_id() {
                    Some(n) => n == node_id,
                    None => false,
                };
                let answer = !claimed.same_as(&uid) && ours && self.commissioning.state()
                    != CommissioningState::AddressConflict;
                self.commissioning.observe_claim(claimed, node_id);
                assert(self@ =~= ServiceModel {
                    commissioning: spec_observe_claim(old(self)@.commissioning, claimed, node_id),
                    ..old(self)@
                });
                if answer {
                    let next = if claim_nonce == u16::MAX { 0 } else { claim_nonce + 1 };
                    self.push_claim(&mut output, next);
                }
            },
            _ => {},
        }
        output
    }

    /// The periodic heartbeat; see `spec_service_heartbeat`.
    pub fn heartbeat(&self, controller: &Controller) -> (r: ServiceOutput)
        ensures
            r@ == spec_service_heartbeat(self@, controller@),
    {
        let mut output = ServiceOutput::empty();
        match self.commissioning.node_id() {
            Some(node) => {
                if self.commissioning.normal_traffic_allowed() {
                    let hb = heartbeat_report(
                        controller,
                        node,
                        self.commissioning.state(),
                        self.firmware,
                        self.reset_flags,
                        self.uptime_seconds,
                    );
                    let hb = Heartbeat {
                        hardware_revision: hardware_revision_byte(self.board.hardware_revision),
                        supported_ports: self.board.supported_ports.bits(),
                        ..hb
                    };
                    output.push(Reply::Heartbeat(hb));
                }
            },
            None => {},
        }
        output
    }

    /// A claim round: this node's claim of its address, if it has one.
    pub fn claim_round(&self, claim_nonce: u16) -> (r: ServiceOutput)
        ensures
            r@ == spec_claim(self@, empty_out(), claim_nonce),
    {
        let mut output = ServiceOutput::empty();
        self.push_claim(&mut output, claim_nonce);
        output
    }

    /// The first claim round after start-up.
    pub fn startup_claim(&self) -> (r: ServiceOutput)
        ensures
            r@ == spec_claim(self@, empty_out(), 0),
    {
        self.claim_round(0)
    }
}

/// A remembered answer to a request of the same requester and identifier.
pub open spec fn same_identity(e: Option<CompletedControl>, request: ControlRequest) -> bool {
    match e {
        Some(x) => x.request.requester == request.requester && x.request.request_id == request.request_id,
        None => false,
    }
}

/// A remembered answer to exactly this request.
pub open spec fn exact_entry(e: Option<CompletedControl>, request: ControlRequest) -> bool {
    match e {
        Some(x) => x.request == request,
        None => false,
    }
}

/// A held answer to `request`, waiting for `revision`.
pub open spec fn held_for(p: Option<PendingResponse>, request: ControlRequest, revision: ConfigRevision) -> bool {
    match p {
        Some(x) => x.required_revision == revision && match x.kind {
            PendingKind::Control { request: held, .. } => held == request,
            _ => false,
        },
        None => false,
    }
}

/// An exact retry of an answered control request, addressed to this node,
/// changes neither the controller nor the held or remembered answers nor
/// the node's commissioning; only the state-report counter may advance.
/// While traffic is allowed its first reply is the remembered answer.
/// (`identities_unique` holds of every service: `new` makes it and every
/// operation keeps it.)
pub proof fn lemma_exact_retry_replays(s: ServiceModel, c: ControllerModel, request: ControlRequest, i: int)
    requires
        service_wf(s),
        control_addressed(s, request),
        0 <= i < 8,
        identities_unique(s),
        exact_entry(s.completed[i], request),
    ensures
        ({
            let r = spec_handle_control(s, c, request);
            &&& r.1 == c
            &&& r.0 == (ServiceModel { state_sequence: r.0.state_sequence, ..s })
            &&& traffic_allowed(s) ==> r.2.replies.len() >= 1 && r.2.replies[0] == Reply::Operational(
                s.completed[i]->0.response,
            )
        }),
{
    lemma_find_completed_hit(s, request, 8);
    if find_completed(s, request, 8) is None {
        lemma_find_completed_complete(s, request, 8, i);
    }
    let j = find_completed(s, request, 8)->0;
    if j != i {
        assert(cached_request(s.completed[j]) is Some && cached_request(s.completed[i]) is Some);
        assert(same_id(cached_request(s.completed[j])->0, cached_request(s.completed[i])->0));
    }
    assert(j == i);
    let e = s.completed[j]->0;
    assert(e.request == request);
    let o = spec_push_operational(s, empty_out(), e.response);
    match request.command {
        ControlCommand::RequestStatus { port } => {
            let st = spec_port_state(s, c, port);
            assert(st.0 == (ServiceModel { state_sequence: st.0.state_sequence, ..s }));
        },
        _ => {},
    }
    if traffic_allowed(s) {
        let r = spec_handle_control(s, c, request);
        assert(o.replies[0] == Reply::Operational(e.response));
        assert(r.2.replies[0] == Reply::Operational(e.response));
    }
}

/// A cache entry for the request's requester and identifier is found.
pub proof fn lemma_find_completed_complete(s: ServiceModel, request: ControlRequest, n: int, i: int)
    requires
        0 <= i < n,
        same_identity(s.completed[i], request),
    ensures
        find_completed(s, request, n) is Some,
    decreases n,
{
    if n - 1 > i {
        lemma_find_completed_complete(s, request, n - 1, i);
    }
}

/// The controller's outcome of a request that changes durable settings.
pub open spec fn durable_mutation(c: ControllerModel, command: ControlCommand) -> Result<Mutation, ControllerError> {
    match command {
        ControlCommand::SetPortPolicy { port, policy } => spec_set_port_policy(c, port, policy).1,
        ControlCommand::AcknowledgeEmergencyResolved => ack_mutation(spec_acknowledge(c).1),
        ControlCommand::SetFanConfig { config } => spec_set_fan_config(c, config).1,
        _ => Ok(Mutation { persist_revision: None }),
    }
}

/// A new request that changes durable settings, and whose change must be
/// written, is not answered at once: nothing is sent, and its answer is
/// held until the revision it waits for.
pub proof fn lemma_durable_answer_is_held(s: ServiceModel, c: ControllerModel, request: ControlRequest, revision: ConfigRevision)
    requires
        service_wf(s),
        control_addressed(s, request),
        find_completed(s, request, 8) is None,
        find_pending_control(s, request, 8) is None,
        !any_pending(s),
        serialized_persistent(request.command),
        durable_mutation(c, request.command) == Ok::<Mutation, ControllerError>(Mutation { persist_revision: Some(revision) }),
    ensures
        ({
            let r = spec_handle_control(s, c, request);
            &&& r.2.replies.len() == 0
            &&& held_for(r.0.pending[0], request, revision)
        }),
{
    assert(s.pending[0] is None);
    assert(first_free(s.pending, 0) is None);
    assert(first_free(s.pending, 1) == Some(0int));
    lemma_first_free_stable(s.pending, 1, 8);
}

/// A durable settings write releases exactly the held answers whose
/// revision it covers: each of those slots is emptied, every other held
/// answer stays where it was. Any other completion changes nothing and
/// sends nothing.
pub proof fn lemma_release_only_covered(s: ServiceModel, completion: PersistCompletion)
    requires
        service_wf(s),
    ensures
        ({
            let r = spec_service_complete_persist(s, completion);
            match completion {
                PersistCompletion::DurableThrough(durable) => forall|i: int|
                    0 <= i < 8 ==> if covered(#[trigger] s.pending[i], durable) {
                        r.0.pending[i] is None
                    } else {
                        r.0.pending[i] == s.pending[i]
                    },
                _ => r.0 == s && r.1 == empty_out(),
            }
        }),
{
    match completion {
        PersistCompletion::DurableThrough(durable) => {
            lemma_release_prefix(s, empty_out(), durable, 8);
        },
        _ => {},
    }
}

pub proof fn lemma_release_prefix(s: ServiceModel, o: OutModel, durable: ConfigRevision, n: int)
    requires
        service_wf(s),
        0 <= n <= 8,
    ensures
        ({
            let r = spec_release(s, o, durable, n).0;
            &&& service_wf(r)
            &&& forall|i: int|
                0 <= i < 8 ==> if i < n && covered(s.pending[i], durable) {
                    (#[trigger] r.pending[i]) is None
                } else {
                    r.pending[i] == s.pending[i]
                }
        }),
    decreases n,
{
    if n > 0 {
        lemma_release_prefix(s, o, durable, n - 1);
        let prev = spec_release(s, o, durable, n - 1);
        let r = spec_release_at(prev.0, prev.1, durable, n - 1);
        assert(prev.0.pending[n - 1] == s.pending[n - 1]);
        assert forall|i: int| 0 <= i < 8 && i != n - 1 implies #[trigger] r.0.pending[i] == prev.0.pending[i] by {}
    }
}

/// The identifier of a UID-addressed commissioning request.
pub open spec fn request_id_of(m: CommissioningMessage) -> RequestId {
    match request_identity(m) {
        Some((id, _)) => id,
        None => RequestId(0),
    }
}

/// A remembered commissioning answer to exactly this request of this requester.
pub open spec fn exact_comm_entry(e: Option<CompletedCommissioning>, requester: RequesterId, request: CommissioningMessage) -> bool {
    match e {
        Some(x) => x.requester == requester && x.request == request,
        None => false,
    }
}

/// An exact retry of an answered UID-addressed commissioning request changes
/// nothing, neither the service nor the controller, and is answered with
/// one message: the remembered answer. (`comm_identities_unique` holds of
/// every service: `new` makes it and every operation keeps it.)
pub proof fn lemma_exact_commissioning_retry_replays(
    s: ServiceModel,
    c: ControllerModel,
    requester: RequesterId,
    request: CommissioningMessage,
    i: int,
)
    requires
        service_wf(s),
        request_identity(request) is Some,
        targets_uid(request, s.commissioning.uid),
        0 <= i < 8,
        comm_identities_unique(s),
        exact_comm_entry(s.completed_commissioning[i], requester, request),
    ensures
        ({
            let r = spec_handle_commissioning(s, c, requester, request);
            &&& r.0 == s
            &&& r.1 == c
            &&& r.2 == spec_push_commissioning(empty_out(), requester, s.completed_commissioning[i]->0.response)
        }),
{
    let id = request_id_of(request);
    lemma_find_completed_comm_hit(s, requester, id, 8);
    if find_completed_comm(s, requester, id, 8) is None {
        lemma_find_completed_comm_complete(s, requester, id, 8, i);
    }
    let j = find_completed_comm(s, requester, id, 8)->0;
    if j != i {
        assert(cached_comm(s.completed_commissioning[j]) == cached_comm(s.completed_commissioning[i]));
    }
    assert(j == i);
}

pub proof fn lemma_find_completed_comm_complete(s: ServiceModel, requester: RequesterId, id: RequestId, n: int, i: int)
    requires
        0 <= i < n,
        completed_comm_matches(s.completed_commissioning[i], requester, id),
    ensures
        find_completed_comm(s, requester, id, n) is Some,
    decreases n,
{
    if n - 1 > i {
        lemma_find_completed_comm_complete(s, requester, id, n - 1, i);
    }
}

/// The frame of one reply, where it can be encoded.
pub open spec fn spec_reply_frame(r: Reply) -> Option<(u32, Seq<u8>)> {
    match r {
        Reply::Operational(response) => match spec_encode_command_response(response) {
            Ok(f) => Some(f),
            Err(_) => None,
        },
        Reply::Commissioning { requester, message } => match spec_encode_commissioning(requester, message) {
            Ok(f) => Some(f),
            Err(_) => None,
        },
        Reply::PortState(state) => match spec_encode_port_state(state) {
            Ok(f) => Some(f),
            Err(_) => None,
        },
        Reply::Heartbeat(heartbeat) => match spec_encode_heartbeat(heartbeat) {
            Ok(f) => Some(f),
            Err(_) => None,
        },
    }
}

/// The frames of the first `n` replies, in order: a reply that cannot be
/// encoded is skipped, and a batch holds at most `RESPONSE_BATCH_CAPACITY`.
pub open spec fn spec_frames(replies: Seq<Reply>, n: int) -> Seq<(u32, Seq<u8>)>
    decreases n,
{
    if n <= 0 {
        Seq::empty()
    } else {
        let prev = spec_frames(replies, n - 1);
        match spec_reply_frame(replies[n - 1]) {
            Some(f) => if prev.len() < RESPONSE_BATCH_CAPACITY {
                prev.push(f)
            } else {
                prev
            },
            None => prev,
        }
    }
}

pub open spec fn frames_match(frames: Seq<WireFrame>, expected: Seq<(u32, Seq<u8>)>) -> bool {
    &&& frames.len() == expected.len()
    &&& forall|k: int|
        0 <= k < frames.len() ==> (#[trigger] frames[k]).spec_id().spec_get() == expected[k].0
            && frames[k].spec_payload() == expected[k].1
}

fn reply_frame(reply: Reply) -> (r: Option<WireFrame>)
    ensures
        match spec_reply_frame(reply) {
            Some((id, p)) => r matches Some(f) && f.spec_id().spec_get() == id && f.spec_payload() == p,
            None => r is None,
        },
{
    match reply {
        Reply::Operational(response) => match encode_command_response(response) {
            Ok(f) => Some(f),
            Err(_) => None,
        },
        Reply::Commissioning { requester, message } => match encode_commissioning(requester, message) {
            Ok(f) => Some(f),
            Err(_) => None,
        },
        Reply::PortState(state) => match encode_port_state(state) {
            Ok(f) => Some(f),
            Err(_) => None,
        },
        Reply::Heartbeat(heartbeat) => match encode_heartbeat(heartbeat) {
            Ok(f) => Some(f),
            Err(_) => None,
        },
    }
}

impl ServiceOutput {
    /// The frames to send; see `spec_frames`.
    pub fn frames(&self) -> (r: Vec<WireFrame>)
        ensures
            frames_match(r@, spec_frames(self@.replies, self@.replies.len() as int)),
    {
        let mut out: Vec<WireFrame> = Vec::new();
        let mut i: usize = 0;
        while i < self.replies.len()
            invariant
                i <= self.replies.len(),
                frames_match(out@, spec_frames(self@.replies, i as int)),
            decreases self.replies.len() - i,
        {
            match reply_frame(self.replies[i]) {
                Some(f) => {
                    if out.len() < RESPONSE_BATCH_CAPACITY {
                        out.push(f);
                    }
                },
                None => {},
            }
            i = i + 1;
        }
        out
    }
}

/// Two control requests of the same requester with the same identifier.
pub open spec fn same_id(a: ControlRequest, b: ControlRequest) -> bool {
    a.requester == b.requester && a.request_id == b.request_id
}

/// The control request whose answer a slot holds back, if any.
pub open spec fn held_request(p: Option<PendingResponse>) -> Option<ControlRequest> {
    match p {
        Some(x) => match x.kind {
            PendingKind::Control { request, .. } => Some(request),
            _ => None,
        },
        None => None,
    }
}

/// The control request whose answer a cache entry remembers, if any.
pub open spec fn cached_request(e: Option<CompletedControl>) -> Option<ControlRequest> {
    match e {
        Some(x) => Some(x.request),
        None => None,
    }
}

/// Neither remembered nor held: `request`'s identity is free.
pub open spec fn identity_free(s: ServiceModel, request: ControlRequest) -> bool {
    &&& forall|k: int|
        0 <= k < 8 && (#[trigger] cached_request(s.completed[k])) is Some ==> !same_id(
            cached_request(s.completed[k])->0,
            request,
        )
    &&& forall|j: int|
        0 <= j < 8 && (#[trigger] held_request(s.pending[j])) is Some ==> !same_id(
            held_request(s.pending[j])->0,
            request,
        )
}

/// Each control identity is remembered at most once or held at most once,
/// and never both.
pub open spec fn identities_unique(s: ServiceModel) -> bool {
    &&& forall|j: int, k: int|
        0 <= j < 8 && 0 <= k < 8 && j != k && (#[trigger] cached_request(s.completed[j])) is Some && (
        #[trigger] cached_request(s.completed[k])) is Some ==> !same_id(
            cached_request(s.completed[j])->0,
            cached_request(s.completed[k])->0,
        )
    &&& forall|j: int, k: int|
        0 <= j < 8 && 0 <= k < 8 && j != k && (#[trigger] held_request(s.pending[j])) is Some && (
        #[trigger] held_request(s.pending[k])) is Some ==> !same_id(
            held_request(s.pending[j])->0,
            held_request(s.pending[k])->0,
        )
    &&& forall|j: int, k: int|
        0 <= j < 8 && 0 <= k < 8 && (#[trigger] held_request(s.pending[j])) is Some && (
        #[trigger] cached_request(s.completed[k])) is Some ==> !same_id(
            held_request(s.pending[j])->0,
            cached_request(s.completed[k])->0,
        )
}

proof fn lemma_cache_insert(s: ServiceModel, request: ControlRequest, response: CommandResponse)
    requires
        service_wf(s),
        identities_unique(s),
        identity_free(s, request),
    ensures
        identities_unique(spec_complete_control(s, request, response)),
        service_wf(spec_complete_control(s, request, response)),
{
    let s2 = spec_complete_control(s, request, response);
    let cur = s.completed_cursor;
    assert forall|k: int| 0 <= k < 8 && k != cur implies #[trigger] s2.completed[k] == s.completed[k] by {}
    assert(cached_request(s2.completed[cur]) == Some(request));
    assert(s2.pending == s.pending);
}

proof fn lemma_first_free_range(pending: Seq<Option<PendingResponse>>, n: int)
    ensures
        first_free(pending, n) matches Some(i) ==> 0 <= i < n && pending[i] is None,
    decreases n,
{
    if n > 0 {
        lemma_first_free_range(pending, n - 1);
    }
}

proof fn lemma_enqueue_keeps_unique(s: ServiceModel, p: PendingResponse)
    requires
        service_wf(s),
        identities_unique(s),
        held_request(Some(p)) is Some ==> identity_free(s, held_request(Some(p))->0),
    ensures
        identities_unique(spec_enqueue(s, p)),
        service_wf(spec_enqueue(s, p)),
{
    lemma_first_free_range(s.pending, 8);
    match first_free(s.pending, 8) {
        Some(i) => {
            let s2 = spec_enqueue(s, p);
            assert forall|k: int| 0 <= k < 8 && k != i implies #[trigger] s2.pending[k] == s.pending[k] by {}
            assert(s2.pending[i] == Some(p));
            assert(s2.completed == s.completed);
        },
        None => {},
    }
}

/// Emptying slot `i` keeps identities unique and frees the identity it held.
proof fn lemma_unhold(s: ServiceModel, i: int)
    requires
        service_wf(s),
        identities_unique(s),
        0 <= i < 8,
    ensures
        service_wf(ServiceModel { pending: s.pending.update(i, None), ..s }),
        identities_unique(ServiceModel { pending: s.pending.update(i, None), ..s }),
        held_request(s.pending[i]) is Some ==> identity_free(
            ServiceModel { pending: s.pending.update(i, None), ..s },
            held_request(s.pending[i])->0,
        ),
{
    let s1 = ServiceModel { pending: s.pending.update(i, None), ..s };
    assert forall|k: int| 0 <= k < 8 && k != i implies #[trigger] s1.pending[k] == s.pending[k] by {}
    assert(held_request(s1.pending[i]) is None);
}

proof fn lemma_finish_keeps_unique(
    s: ServiceModel,
    c: ControllerModel,
    o: OutModel,
    request: ControlRequest,
    mutation: Result<Mutation, ControllerError>,
    result: CommandResult,
)
    requires
        service_wf(s),
        identities_unique(s),
        identity_free(s, request),
    ensures
        identities_unique(spec_finish(s, c, o, request, mutation, result).0),
        service_wf(spec_finish(s, c, o, request, mutation, result).0),
{
    match mutation {
        Ok(m) => match m.persist_revision {
            Some(required_revision) => {
                lemma_enqueue_keeps_unique(
                    s,
                    PendingResponse { required_revision, kind: PendingKind::Control { request, result } },
                );
            },
            None => {
                lemma_cache_insert(s, request, spec_control_response(s, request, result, 0));
            },
        },
        Err(e) => {
            lemma_cache_insert(s, request, spec_control_response(s, request, map_controller_error(e), 0));
        },
    }
}

proof fn lemma_cancel_clears_keep_unique(s: ServiceModel, o: OutModel, request: ControlRequest, n: int)
    requires
        service_wf(s),
        identities_unique(s),
        identity_free(s, request),
        0 <= n <= 8,
    ensures
        service_wf(spec_cancel_clears(s, o, n).0),
        identities_unique(spec_cancel_clears(s, o, n).0),
        identity_free(spec_cancel_clears(s, o, n).0, request),
    decreases n,
{
    if n > 0 {
        lemma_cancel_clears_keep_unique(s, o, request, n - 1);
        let r = spec_cancel_clears(s, o, n - 1);
        let t = r.0;
        if is_clear_request(t.pending[n - 1]) {
            let held = t.pending[n - 1]->0.kind->Control_request;
            assert(held_request(t.pending[n - 1]) == Some(held));
            lemma_unhold(t, n - 1);
            let s1 = ServiceModel { pending: t.pending.update(n - 1, None), ..t };
            let response = spec_control_response(s1, held, CommandResult::EmergencyLatched, 0);
            lemma_cache_insert(s1, held, response);
            let s2 = spec_complete_control(s1, held, response);
            assert forall|k: int| 0 <= k < 8 && (#[trigger] cached_request(s2.completed[k])) is Some implies !same_id(
                cached_request(s2.completed[k])->0,
                request,
            ) by {
                if k != s1.completed_cursor {
                    assert(s2.completed[k] == t.completed[k]);
                }
            }
            assert forall|j: int| 0 <= j < 8 && (#[trigger] held_request(s2.pending[j])) is Some implies !same_id(
                held_request(s2.pending[j])->0,
                request,
            ) by {
                assert(s2.pending[j] == s1.pending[j]);
                if j != n - 1 {
                    assert(s1.pending[j] == t.pending[j]);
                }
            }
        }
    }
}

proof fn lemma_find_pending_complete(s: ServiceModel, request: ControlRequest, n: int, i: int)
    requires
        0 <= i < n,
        pending_control_matches(s.pending[i], request),
    ensures
        find_pending_control(s, request, n) is Some,
    decreases n,
{
    if n - 1 > i {
        lemma_find_pending_complete(s, request, n - 1, i);
    }
}

/// A request that is neither remembered nor held has a free identity.
proof fn lemma_unfound_is_free(s: ServiceModel, request: ControlRequest)
    requires
        find_completed(s, request, 8) is None,
        find_pending_control(s, request, 8) is None,
    ensures
        identity_free(s, request),
{
    assert forall|k: int| 0 <= k < 8 && (#[trigger] cached_request(s.completed[k])) is Some implies !same_id(
        cached_request(s.completed[k])->0,
        request,
    ) by {
        if same_id(cached_request(s.completed[k])->0, request) {
            assert(same_identity(s.completed[k], request));
            lemma_find_completed_complete(s, request, 8, k);
        }
    }
    assert forall|j: int| 0 <= j < 8 && (#[trigger] held_request(s.pending[j])) is Some implies !same_id(
        held_request(s.pending[j])->0,
        request,
    ) by {
        if same_id(held_request(s.pending[j])->0, request) {
            assert(pending_control_matches(s.pending[j], request));
            lemma_find_pending_complete(s, request, 8, j);
        }
    }
}

/// Handling a control request keeps every control identity remembered or
/// held at most once.
pub proof fn lemma_handle_control_keeps_unique(s: ServiceModel, c: ControllerModel, request: ControlRequest)
    requires
        service_wf(s),
        identities_unique(s),
    ensures
        identities_unique(spec_handle_control(s, c, request).0),
{
    if control_addressed(s, request) && find_completed(s, request, 8) is None && find_pending_control(s, request, 8)
        is None && !(serialized_persistent(request.command) && any_pending(s)) {
        lemma_unfound_is_free(s, request);
        match request.command {
            ControlCommand::EmergencyDisable => {
                let e = spec_emergency_disable(c);
                lemma_cancel_clears_keep_unique(s, empty_out(), request, 8);
                let r = spec_cancel_clears(s, empty_out(), 8);
                lemma_finish_keeps_unique(r.0, e.0, r.1, request, Ok(e.1), CommandResult::Success);
            },
            ControlCommand::SetPortPolicy { port, policy } => {
                let r = spec_set_port_policy(c, port, policy);
                lemma_finish_keeps_unique(s, r.0, empty_out(), request, r.1, CommandResult::SuccessPending);
            },
            ControlCommand::AcknowledgeEmergencyResolved => {
                let r = spec_acknowledge(c);
                lemma_finish_keeps_unique(s, r.0, empty_out(), request, ack_mutation(r.1), CommandResult::Success);
            },
            ControlCommand::RequestStatus { port } => {
                let result = if s.board.spec_supports(port.spec_get() as int) {
                    CommandResult::Success
                } else {
                    CommandResult::InvalidTarget
                };
                lemma_cache_insert(s, request, spec_control_response(s, request, result, 0));
            },
            ControlCommand::SetFanConfig { config } => {
                let r = spec_set_fan_config(c, config);
                lemma_finish_keeps_unique(s, r.0, empty_out(), request, r.1, CommandResult::Success);
            },
        }
    }
}

proof fn lemma_release_keeps_unique(s: ServiceModel, o: OutModel, durable: ConfigRevision, n: int)
    requires
        service_wf(s),
        identities_unique(s),
        0 <= n <= 8,
    ensures
        service_wf(spec_release(s, o, durable, n).0),
        identities_unique(spec_release(s, o, durable, n).0),
    decreases n,
{
    if n > 0 {
        lemma_release_keeps_unique(s, o, durable, n - 1);
        let r = spec_release(s, o, durable, n - 1);
        let t = r.0;
        if covered(t.pending[n - 1], durable) {
            lemma_unhold(t, n - 1);
            let s1 = ServiceModel { pending: t.pending.update(n - 1, None), ..t };
            match t.pending[n - 1]->0.kind {
                PendingKind::Control { request, result } => {
                    assert(held_request(t.pending[n - 1]) == Some(request));
                    lemma_cache_insert(s1, request, spec_control_response(s1, request, result, 0));
                },
                _ => {},
            }
        }
    }
}

/// A settings-write completion keeps every control identity remembered or
/// held at most once.
pub proof fn lemma_complete_persist_keeps_unique(s: ServiceModel, completion: PersistCompletion)
    requires
        service_wf(s),
        identities_unique(s),
    ensures
        identities_unique(spec_service_complete_persist(s, completion).0),
{
    match completion {
        PersistCompletion::DurableThrough(durable) => {
            lemma_release_keeps_unique(s, empty_out(), durable, 8);
        },
        _ => {},
    }
}

/// Handling a commissioning message keeps every control identity
/// remembered or held at most once.
pub proof fn lemma_handle_commissioning_keeps_unique(
    s: ServiceModel,
    c: ControllerModel,
    requester: RequesterId,
    message: CommissioningMessage,
)
    requires
        service_wf(s),
        identities_unique(s),
    ensures
        identities_unique(spec_handle_commissioning(s, c, requester, message).0),
{
    match message {
        CommissioningMessage::AssignNode { request_id, node_id, .. } => {
            let m = spec_set_node_id(c, Some(node_id));
            match m.1.persist_revision {
                Some(required_revision) => {
                    lemma_enqueue_keeps_unique(
                        s,
                        PendingResponse { required_revision, kind: PendingKind::AssignNode { requester, request_id, node_id } },
                    );
                },
                None => {},
            }
        },
        CommissioningMessage::ClearNode { request_id, .. } => {
            let m = spec_set_node_id(c, None);
            match m.1.persist_revision {
                Some(required_revision) => {
                    lemma_enqueue_keeps_unique(
                        s,
                        PendingResponse { required_revision, kind: PendingKind::ClearNode { requester, request_id } },
                    );
                },
                None => {},
            }
        },
        _ => {},
    }
}

/// The requester and identifier of a remembered commissioning answer.
pub open spec fn cached_comm(e: Option<CompletedCommissioning>) -> Option<(RequesterId, RequestId)> {
    match e {
        Some(x) => match request_identity(x.request) {
            Some((id, _)) => Some((x.requester, id)),
            None => None,
        },
        None => None,
    }
}

/// The requester and identifier of a held commissioning answer.
pub open spec fn held_comm(p: Option<PendingResponse>) -> Option<(RequesterId, RequestId)> {
    match p {
        Some(x) => pending_identity(x.kind),
        None => None,
    }
}

/// Each commissioning request identity is remembered at most once or held
/// at most once, and never both.
pub open spec fn comm_identities_unique(s: ServiceModel) -> bool {
    &&& forall|j: int, k: int|
        0 <= j < 8 && 0 <= k < 8 && j != k && (#[trigger] cached_comm(s.completed_commissioning[j])) is Some
            && cached_comm(s.completed_commissioning[j]) == #[trigger] cached_comm(s.completed_commissioning[k])
            ==> false
    &&& forall|j: int, k: int|
        0 <= j < 8 && 0 <= k < 8 && j != k && (#[trigger] held_comm(s.pending[j])) is Some && held_comm(
            s.pending[j],
        ) == #[trigger] held_comm(s.pending[k]) ==> false
    &&& forall|j: int, k: int|
        0 <= j < 8 && 0 <= k < 8 && (#[trigger] held_comm(s.pending[j])) is Some && held_comm(s.pending[j])
            == #[trigger] cached_comm(s.completed_commissioning[k]) ==> false
}

/// Neither remembered nor held: the commissioning identity `id` is free.
pub open spec fn comm_identity_free(s: ServiceModel, id: (RequesterId, RequestId)) -> bool {
    &&& forall|k: int| 0 <= k < 8 ==> #[trigger] cached_comm(s.completed_commissioning[k]) != Some(id)
    &&& forall|j: int| 0 <= j < 8 ==> #[trigger] held_comm(s.pending[j]) != Some(id)
}

proof fn lemma_comm_cache_insert(
    s: ServiceModel,
    requester: RequesterId,
    request: CommissioningMessage,
    response: CommissioningMessage,
)
    requires
        service_wf(s),
        comm_identities_unique(s),
        request_identity(request) matches Some((id, _)) ==> comm_identity_free(s, (requester, id)),
    ensures
        comm_identities_unique(spec_complete_commissioning(s, requester, request, response)),
{
    let s2 = spec_complete_commissioning(s, requester, request, response);
    let cur = s.completed_commissioning_cursor;
    assert forall|k: int| 0 <= k < 8 && k != cur implies #[trigger] s2.completed_commissioning[k]
        == s.completed_commissioning[k] by {}
    assert(s2.pending == s.pending);
}

/// A change that keeps the commissioning cache and every slot's held
/// commissioning identity keeps commissioning identities unique.
proof fn lemma_comm_frame(s: ServiceModel, s2: ServiceModel)
    requires
        comm_identities_unique(s),
        s2.completed_commissioning == s.completed_commissioning,
        forall|j: int| 0 <= j < 8 ==> #[trigger] held_comm(s2.pending[j]) == held_comm(s.pending[j]),
    ensures
        comm_identities_unique(s2),
{
}

proof fn lemma_comm_enqueue(s: ServiceModel, p: PendingResponse)
    requires
        service_wf(s),
        comm_identities_unique(s),
        held_comm(Some(p)) is Some ==> comm_identity_free(s, held_comm(Some(p))->0),
    ensures
        comm_identities_unique(spec_enqueue(s, p)),
        held_comm(Some(p)) is None ==> forall|j: int|
            0 <= j < 8 ==> #[trigger] held_comm(spec_enqueue(s, p).pending[j]) == held_comm(s.pending[j]),
{
    lemma_first_free_range(s.pending, 8);
    match first_free(s.pending, 8) {
        Some(i) => {
            let s2 = spec_enqueue(s, p);
            assert forall|k: int| 0 <= k < 8 && k != i implies #[trigger] s2.pending[k] == s.pending[k] by {}
            assert(s2.pending[i] == Some(p));
        },
        None => {},
    }
}

proof fn lemma_comm_unhold(s: ServiceModel, i: int)
    requires
        service_wf(s),
        comm_identities_unique(s),
        0 <= i < 8,
    ensures
        comm_identities_unique(ServiceModel { pending: s.pending.update(i, None), ..s }),
        held_comm(s.pending[i]) is Some ==> comm_identity_free(
            ServiceModel { pending: s.pending.update(i, None), ..s },
            held_comm(s.pending[i])->0,
        ),
        held_comm(s.pending[i]) is None ==> forall|j: int|
            0 <= j < 8 ==> #[trigger] held_comm(s.pending.update(i, None)[j]) == held_comm(s.pending[j]),
{
    let s1 = ServiceModel { pending: s.pending.update(i, None), ..s };
    assert forall|k: int| 0 <= k < 8 && k != i implies #[trigger] s1.pending[k] == s.pending[k] by {}
}

proof fn lemma_comm_cancel_clears(s: ServiceModel, o: OutModel, n: int)
    requires
        service_wf(s),
        0 <= n <= 8,
    ensures
        service_wf(spec_cancel_clears(s, o, n).0),
        spec_cancel_clears(s, o, n).0.completed_commissioning == s.completed_commissioning,
        forall|j: int| 0 <= j < 8 ==> #[trigger] held_comm(spec_cancel_clears(s, o, n).0.pending[j]) == held_comm(
            s.pending[j],
        ),
    decreases n,
{
    if n > 0 {
        lemma_comm_cancel_clears(s, o, n - 1);
        let t = spec_cancel_clears(s, o, n - 1).0;
        if is_clear_request(t.pending[n - 1]) {
            let s1 = ServiceModel { pending: t.pending.update(n - 1, None), ..t };
            let r2 = spec_cancel_clears(s, o, n).0;
            assert(r2.pending == s1.pending);
            assert(held_comm(t.pending[n - 1]) is None);
            assert forall|j: int| 0 <= j < 8 implies #[trigger] held_comm(r2.pending[j]) == held_comm(s.pending[j]) by {
                if j != n - 1 {
                    assert(r2.pending[j] == t.pending[j]);
                }
            }
        }
    }
}

proof fn lemma_comm_finish(
    s: ServiceModel,
    c: ControllerModel,
    o: OutModel,
    request: ControlRequest,
    mutation: Result<Mutation, ControllerError>,
    result: CommandResult,
)
    requires
        service_wf(s),
        comm_identities_unique(s),
    ensures
        comm_identities_unique(spec_finish(s, c, o, request, mutation, result).0),
{
    match mutation {
        Ok(m) => match m.persist_revision {
            Some(required_revision) => {
                lemma_comm_enqueue(
                    s,
                    PendingResponse { required_revision, kind: PendingKind::Control { request, result } },
                );
            },
            None => {},
        },
        Err(e) => {},
    }
}

/// Handling a control request keeps commissioning identities unique.
pub proof fn lemma_handle_control_keeps_comm_unique(s: ServiceModel, c: ControllerModel, request: ControlRequest)
    requires
        service_wf(s),
        comm_identities_unique(s),
    ensures
        comm_identities_unique(spec_handle_control(s, c, request).0),
{
    if control_addressed(s, request) && find_completed(s, request, 8) is None && find_pending_control(s, request, 8)
        is None && !(serialized_persistent(request.command) && any_pending(s)) {
        match request.command {
            ControlCommand::EmergencyDisable => {
                let e = spec_emergency_disable(c);
                lemma_comm_cancel_clears(s, empty_out(), 8);
                let r = spec_cancel_clears(s, empty_out(), 8);
                lemma_comm_frame(s, r.0);
                lemma_comm_finish(r.0, e.0, r.1, request, Ok(e.1), CommandResult::Success);
            },
            ControlCommand::SetPortPolicy { port, policy } => {
                let r = spec_set_port_policy(c, port, policy);
                lemma_comm_finish(s, r.0, empty_out(), request, r.1, CommandResult::SuccessPending);
            },
            ControlCommand::AcknowledgeEmergencyResolved => {
                let r = spec_acknowledge(c);
                lemma_comm_finish(s, r.0, empty_out(), request, ack_mutation(r.1), CommandResult::Success);
            },
            ControlCommand::SetFanConfig { config } => {
                let r = spec_set_fan_config(c, config);
                lemma_comm_finish(s, r.0, empty_out(), request, r.1, CommandResult::Success);
            },
            _ => {},
        }
    }
}

proof fn lemma_comm_release(s: ServiceModel, o: OutModel, durable: ConfigRevision, n: int)
    requires
        service_wf(s),
        comm_identities_unique(s),
        0 <= n <= 8,
    ensures
        comm_identities_unique(spec_release(s, o, durable, n).0),
    decreases n,
{
    if n > 0 {
        lemma_comm_release(s, o, durable, n - 1);
        lemma_release_keeps_wf(s, o, durable, n - 1);
        let t = spec_release(s, o, durable, n - 1).0;
        if covered(t.pending[n - 1], durable) {
            lemma_comm_unhold(t, n - 1);
            let s1 = ServiceModel { pending: t.pending.update(n - 1, None), ..t };
            match t.pending[n - 1]->0.kind {
                PendingKind::Control { .. } => {},
                PendingKind::AssignNode { requester, request_id, node_id } => {
                    let s1b = ServiceModel {
                        commissioning: spec_apply_persisted_node_id(s1.commissioning, Some(node_id)),
                        ..s1
                    };
                    lemma_comm_cache_insert(
                        s1b,
                        requester,
                        CommissioningMessage::AssignNode { request_id, uid: s1b.commissioning.uid, node_id },
                        spec_commissioning_result(s1b, request_id, 4, CommandResult::Success),
                    );
                },
                PendingKind::ClearNode { requester, request_id } => {
                    let s1b = ServiceModel {
                        commissioning: spec_apply_persisted_node_id(s1.commissioning, None),
                        ..s1
                    };
                    lemma_comm_cache_insert(
                        s1b,
                        requester,
                        CommissioningMessage::ClearNode { request_id, uid: s1b.commissioning.uid },
                        spec_commissioning_result(s1b, request_id, 5, CommandResult::Success),
                    );
                },
            }
        }
    }
}

proof fn lemma_release_keeps_wf(s: ServiceModel, o: OutModel, durable: ConfigRevision, n: int)
    requires
        service_wf(s),
        0 <= n <= 8,
    ensures
        service_wf(spec_release(s, o, durable, n).0),
    decreases n,
{
    if n > 0 {
        lemma_release_keeps_wf(s, o, durable, n - 1);
    }
}

/// A settings-write completion keeps commissioning identities unique.
pub proof fn lemma_complete_persist_keeps_comm_unique(s: ServiceModel, completion: PersistCompletion)
    requires
        service_wf(s),
        comm_identities_unique(s),
    ensures
        comm_identities_unique(spec_service_complete_persist(s, completion).0),
{
    match completion {
        PersistCompletion::DurableThrough(durable) => {
            lemma_comm_release(s, empty_out(), durable, 8);
        },
        _ => {},
    }
}

proof fn lemma_find_pending_comm_complete(s: ServiceModel, requester: RequesterId, id: RequestId, n: int, i: int)
    requires
        0 <= i < n,
        pending_comm_matches(s.pending[i], requester, id),
    ensures
        find_pending_comm(s, requester, id, n) is Some,
    decreases n,
{
    if n - 1 > i {
        lemma_find_pending_comm_complete(s, requester, id, n - 1, i);
    }
}

/// A commissioning identity that the replay search does not find is free.
proof fn lemma_unreplayed_is_free(s: ServiceModel, requester: RequesterId, id: RequestId)
    requires
        find_completed_comm(s, requester, id, 8) is None,
        find_pending_comm(s, requester, id, 8) is None,
    ensures
        comm_identity_free(s, (requester, id)),
{
    assert forall|k: int| 0 <= k < 8 implies #[trigger] cached_comm(s.completed_commissioning[k]) != Some((requester, id)) by {
        if cached_comm(s.completed_commissioning[k]) == Some((requester, id)) {
            assert(completed_comm_matches(s.completed_commissioning[k], requester, id));
            lemma_find_completed_comm_complete(s, requester, id, 8, k);
        }
    }
    assert forall|j: int| 0 <= j < 8 implies #[trigger] held_comm(s.pending[j]) != Some((requester, id)) by {
        if held_comm(s.pending[j]) == Some((requester, id)) {
            assert(pending_comm_matches(s.pending[j], requester, id));
            lemma_find_pending_comm_complete(s, requester, id, 8, j);
        }
    }
}

/// Handling a commissioning message keeps commissioning identities unique.
pub proof fn lemma_handle_commissioning_keeps_comm_unique(
    s: ServiceModel,
    c: ControllerModel,
    requester: RequesterId,
    message: CommissioningMessage,
)
    requires
        service_wf(s),
        comm_identities_unique(s),
    ensures
        comm_identities_unique(spec_handle_commissioning(s, c, requester, message).0),
{
    if !(request_identity(message) is Some && !targets_uid(message, s.commissioning.uid)) && spec_replay(
        s,
        requester,
        message,
    ) is None {
        match message {
            CommissioningMessage::Identify { request_id, .. } => {
                lemma_unreplayed_is_free(s, requester, request_id);
                let result = spec_commissioning_result(s, request_id, 3, CommandResult::Success);
                lemma_comm_cache_insert(s, requester, message, result);
            },
            CommissioningMessage::AssignNode { request_id, node_id, .. } => {
                lemma_unreplayed_is_free(s, requester, request_id);
                if !any_pending(s) {
                    let m = spec_set_node_id(c, Some(node_id));
                    match m.1.persist_revision {
                        Some(required_revision) => {
                            lemma_comm_enqueue(
                                s,
                                PendingResponse {
                                    required_revision,
                                    kind: PendingKind::AssignNode { requester, request_id, node_id },
                                },
                            );
                        },
                        None => {
                            let s1 = ServiceModel {
                                commissioning: spec_apply_persisted_node_id(s.commissioning, Some(node_id)),
                                ..s
                            };
                            lemma_comm_cache_insert(
                                s1,
                                requester,
                                CommissioningMessage::AssignNode { request_id, uid: s1.commissioning.uid, node_id },
                                spec_commissioning_result(s1, request_id, 4, CommandResult::Success),
                            );
                        },
                    }
                }
            },
            CommissioningMessage::ClearNode { request_id, .. } => {
                lemma_unreplayed_is_free(s, requester, request_id);
                if !any_pending(s) {
                    let m = spec_set_node_id(c, None);
                    match m.1.persist_revision {
                        Some(required_revision) => {
                            lemma_comm_enqueue(
                                s,
                                PendingResponse { required_revision, kind: PendingKind::ClearNode { requester, request_id } },
                            );
                        },
                        None => {
                            let s1 = ServiceModel {
                                commissioning: spec_apply_persisted_node_id(s.commissioning, None),
                                ..s
                            };
                            lemma_comm_cache_insert(
                                s1,
                                requester,
                                CommissioningMessage::ClearNode { request_id, uid: s1.commissioning.uid },
                                spec_commissioning_result(s1, request_id, 5, CommandResult::Success),
                            );
                        },
                    }
                }
            },
            _ => {},
        }
    }
}

} // verus!