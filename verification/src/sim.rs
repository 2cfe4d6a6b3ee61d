//! A deterministic simulated node that answers the Generation-2 protocol:
//! commissioning, control requests and firmware updates, with the update
//! sequenced by the same [`UpdateController`] the boards use.
use vstd::prelude::*;
use crate::types::{
    group_type_lemmas, CapabilityFlags, CarrierBinding, CarrierPolicy, CarrierProfile,
    CommissioningState, FanConfig, FaultFlags, FirmwareVersion, HardwareRevision, ImageTarget,
    NodeDescriptor, NodeId, NodeRole, NodeUid, RequestId, RequesterId, ServiceState, Sha256Digest,
    UpdateError, UpdateImpact, UpdateSessionId, UpdateState,
};
use crate::protocol::{
    commissioning_opcode, ExtendedId, MessageClass, WireFrame, BROADCAST_NODE,
    FIRMWARE_WINDOW_FRAMES, NODE_TARGET, PROTOCOL_MAJOR, PROTOCOL_MINOR,
};
use crate::codec::{decode_control_request, spec_decode_control_request, ControlCommand};
use crate::telemetry::{
    encode_binding, encode_command_response, encode_node_info, encode_node_state,
    spec_encode_binding, spec_encode_command_response, spec_encode_node_info,
    spec_encode_node_state, BindingInfo, CommandResponse, CommandResult, NodeInfo, NodeState,
};
use crate::commissioning::{
    decode_commissioning, decode_header, encode_commissioning, spec_decode_commissioning,
    spec_decode_header, spec_encode_commissioning, CommissioningMessage, DecodedHeader,
    DiscoveryInfo,
};
use crate::firmware::{
    decode_firmware_request, encode_firmware_ack, encode_firmware_status,
    spec_decode_firmware_request, spec_encode_firmware_ack, spec_encode_firmware_status,
    FirmwareAck, FirmwareRequest, FirmwareStatus,
};
use crate::protocol::CodecError;
use crate::codec::frame_matches;
use crate::node::{
    holds_image, spec_abort, spec_accept_chunk, spec_activate, spec_begin,
    spec_begin_verification, spec_update_new, spec_verification_complete, update_invariant,
    ChunkDisposition, UpdateController, UpdateModel,
};
use crate::artifact::{check_digest, sha256, sha256_of, spec_check_digest};

pub mod options;

verus! {

broadcast use group_type_lemmas;

pub const PARTITION_LAYOUT_VERSION: u8 = 1;

#[allow(non_snake_case)]
pub fn SIMULATED_FIRMWARE() -> (r: FirmwareVersion)
    ensures
        r == (FirmwareVersion { major: 0, minor: 1, patch: 0 }),
{
    FirmwareVersion { major: 0, minor: 1, patch: 0 }
}

#[allow(non_snake_case)]
pub fn SIMULATED_BOOTLOADER() -> (r: FirmwareVersion)
    ensures
        r == (FirmwareVersion { major: 0, minor: 1, patch: 0 }),
{
    FirmwareVersion { major: 0, minor: 1, patch: 0 }
}

#[derive(Clone, Copy, Debug, PartialEq, Eq, Structural)]
pub enum SimulatedProfile {
    Backplane,
    Carrier { profile: CarrierProfile, update_impact: UpdateImpact },
}

/// The capability bits of a simulated carrier: firmware update and internal
/// temperature always, then what its profile offers.
pub open spec fn carrier_capability_bits(profile: CarrierProfile) -> u64 {
    match profile {
        CarrierProfile::Sw3538 => 3151,
        CarrierProfile::Basic => 2115,
        CarrierProfile::Accessory => 2368,
        CarrierProfile::HighPower240W => 2127,
    }
}

pub open spec fn spec_profile_descriptor(profile: SimulatedProfile) -> NodeDescriptor {
    match profile {
        SimulatedProfile::Backplane => NodeDescriptor {
            role: NodeRole::Backplane,
            carrier_profile: None,
            hardware_revision: HardwareRevision::spec_new(0xFE),
            capabilities: CapabilityFlags::spec_from_bits(2800),
            update_impact: UpdateImpact::Interrupt,
            output_count: 0,
            fan_count: 2,
            external_temperature_capacity: 0xFF,
        },
        SimulatedProfile::Carrier { profile, update_impact } => NodeDescriptor {
            role: NodeRole::Carrier,
            carrier_profile: Some(profile),
            hardware_revision: HardwareRevision::spec_new(0xFE),
            capabilities: CapabilityFlags::spec_from_bits(carrier_capability_bits(profile)),
            update_impact,
            output_count: if profile == CarrierProfile::Accessory {
                0
            } else {
                1
            },
            fan_count: 0,
            external_temperature_capacity: 0,
        },
    }
}

fn carrier_capabilities(profile: CarrierProfile) -> (r: CapabilityFlags)
    ensures
        r == CapabilityFlags::spec_from_bits(carrier_capability_bits(profile)),
{
    let base = CapabilityFlags::FIRMWARE_UPDATE().union(CapabilityFlags::INTERNAL_TEMPERATURE());
    let r = match profile {
        CarrierProfile::Sw3538 => base.union(CapabilityFlags::SWITCHABLE_OUTPUT()).union(
            CapabilityFlags::LOAD_MONITORING(),
        ).union(CapabilityFlags::USB_PD_CONTROL()).union(CapabilityFlags::USB_PD_STATUS()).union(
            CapabilityFlags::USER_BUTTON(),
        ),
        CarrierProfile::Basic => base.union(CapabilityFlags::SWITCHABLE_OUTPUT()).union(
            CapabilityFlags::LOAD_MONITORING(),
        ),
        CarrierProfile::Accessory => base.union(CapabilityFlags::AUXILIARY_IO()),
        CarrierProfile::HighPower240W => base.union(CapabilityFlags::SWITCHABLE_OUTPUT()).union(
            CapabilityFlags::LOAD_MONITORING(),
        ).union(CapabilityFlags::USB_PD_CONTROL()).union(CapabilityFlags::USB_PD_STATUS()),
    };
    assert((((((2048u64 | 64u64) | 1u64) | 2u64) | 4u64) | 8u64) | 1024u64 == 3151u64
        && (((2048u64 | 64u64) | 1u64) | 2u64) == 2115u64 && ((2048u64 | 64u64) | 256u64) == 2368u64
        && ((((2048u64 | 64u64) | 1u64) | 2u64) | 4u64) | 8u64 == 2127u64) by (bit_vector);
    r
}

impl SimulatedProfile {
    pub fn descriptor(self) -> (r: NodeDescriptor)
        ensures
            r == spec_profile_descriptor(self),
    {
        match self {
            SimulatedProfile::Backplane => {
                let capabilities = CapabilityFlags::FIRMWARE_UPDATE().union(
                    CapabilityFlags::FAN_CONTROL(),
                ).union(CapabilityFlags::FAN_TACHOMETER()).union(
                    CapabilityFlags::INTERNAL_TEMPERATURE(),
                ).union(CapabilityFlags::EXTERNAL_TEMPERATURE()).union(
                    CapabilityFlags::AGGREGATE_POWER(),
                );
                assert((((((2048u64 | 16u64) | 32u64) | 64u64) | 128u64) | 512u64) == 2800u64)
                    by (bit_vector);
                NodeDescriptor {
                    role: NodeRole::Backplane,
                    carrier_profile: None,
                    hardware_revision: HardwareRevision::SIMULATOR(),
                    capabilities,
                    update_impact: UpdateImpact::Interrupt,
                    output_count: 0,
                    fan_count: 2,
                    external_temperature_capacity: 0xFF,
                }
            },
            SimulatedProfile::Carrier { profile, update_impact } => NodeDescriptor {
                role: NodeRole::Carrier,
                carrier_profile: Some(profile),
                hardware_revision: HardwareRevision::SIMULATOR(),
                capabilities: carrier_capabilities(profile),
                update_impact,
                output_count: match profile {
                    CarrierProfile::Accessory => 0,
                    _ => 1,
                },
                fan_count: 0,
                external_temperature_capacity: 0,
            },
        }
    }
}

#[derive(Debug)]
pub struct SimulatedNode {
    profile: SimulatedProfile,
    uid: NodeUid,
    node_id: Option<NodeId>,
    state: CommissioningState,
    binding: Option<CarrierBinding>,
    policy: CarrierPolicy,
    fans: [FanConfig; 2],
    emergency_latched: bool,
    firmware: FirmwareVersion,
    update: UpdateController,
    image: Vec<u8>,
}

/// What a [`SimulatedNode`] holds.
pub struct SimulatedNodeModel {
    pub profile: SimulatedProfile,
    pub uid: NodeUid,
    pub node_id: Option<NodeId>,
    pub state: CommissioningState,
    pub binding: Option<CarrierBinding>,
    pub policy: CarrierPolicy,
    pub fans: Seq<FanConfig>,
    pub emergency_latched: bool,
    pub firmware: FirmwareVersion,
    pub update: UpdateModel,
    pub image: Seq<u8>,
}

impl View for SimulatedNode {
    type V = SimulatedNodeModel;

    closed spec fn view(&self) -> SimulatedNodeModel {
        SimulatedNodeModel {
            profile: self.profile,
            uid: self.uid,
            node_id: self.node_id,
            state: self.state,
            binding: self.binding,
            policy: self.policy,
            fans: self.fans@,
            emergency_latched: self.emergency_latched,
            firmware: self.firmware,
            update: self.update@,
            image: self.image@,
        }
    }
}

/// While an image is being received or held, the simulated flash has
/// exactly the manifest's size.
pub open spec fn sim_consistent(m: SimulatedNodeModel) -> bool {
    &&& m.fans.len() == 2
    &&& holds_image(m.update.state) ==> (m.update.manifest matches Some(manifest)
        && m.image.len() == manifest.image_size)
}

/// Both fans at the safe full-speed duty.
pub open spec fn safe_fans() -> Seq<FanConfig> {
    seq![FanConfig { duty_percent: 100 }, FanConfig { duty_percent: 100 }]
}

pub open spec fn spec_sim_new(profile: SimulatedProfile, uid: NodeUid, node_id: Option<NodeId>) -> SimulatedNodeModel {
    let d = spec_profile_descriptor(profile);
    SimulatedNodeModel {
        profile,
        uid,
        node_id,
        state: if node_id is Some {
            CommissioningState::Commissioned
        } else {
            CommissioningState::Uncommissioned
        },
        binding: None,
        policy: if d.capabilities.spec_bits() & 4 == 4 {
            CarrierPolicy { enabled: false, pd_limits: Some(crate::types::PdLimits::spec_sw3538_safe_max()) }
        } else {
            CarrierPolicy { enabled: false, pd_limits: None }
        },
        fans: safe_fans(),
        emergency_latched: false,
        firmware: FirmwareVersion { major: 0, minor: 1, patch: 0 },
        update: spec_update_new(
            ImageTarget {
                role: d.role,
                carrier_profile: d.carrier_profile,
                hardware_revision: d.hardware_revision,
                partition_layout: 1,
            },
            d.update_impact,
        ),
        image: Seq::empty(),
    }
}

/// A commissioning request changes the node only when it assigns or clears
/// this node's address by its UID.
pub open spec fn spec_sim_commissioning(m: SimulatedNodeModel, id: u32, p: Seq<u8>) -> SimulatedNodeModel {
    match spec_decode_commissioning(id, p) {
        Ok((_, CommissioningMessage::AssignNode { uid, node_id, .. })) => if uid == m.uid {
            SimulatedNodeModel { node_id: Some(node_id), state: CommissioningState::Commissioned, ..m }
        } else {
            m
        },
        Ok((_, CommissioningMessage::ClearNode { uid, .. })) => if uid == m.uid {
            SimulatedNodeModel { node_id: None, state: CommissioningState::Uncommissioned, ..m }
        } else {
            m
        },
        _ => m,
    }
}

/// The effect of a control command that reached this node.
pub open spec fn spec_sim_control_command(m: SimulatedNodeModel, command: ControlCommand) -> SimulatedNodeModel {
    let role = spec_profile_descriptor(m.profile).role;
    match command {
        ControlCommand::EmergencyDisable => SimulatedNodeModel {
            emergency_latched: true,
            policy: CarrierPolicy { enabled: false, ..m.policy },
            fans: safe_fans(),
            ..m
        },
        ControlCommand::AcknowledgeEmergency => SimulatedNodeModel { emergency_latched: false, ..m },
        ControlCommand::SetCarrierPolicy(policy) => if role == NodeRole::Carrier {
            SimulatedNodeModel { policy, ..m }
        } else {
            m
        },
        ControlCommand::SetFan { fan, config } => if role == NodeRole::Backplane {
            SimulatedNodeModel { fans: m.fans.update(fan.spec_get() as int, config), ..m }
        } else {
            m
        },
        ControlCommand::SetBinding(binding) => if role == NodeRole::Carrier {
            SimulatedNodeModel { binding, ..m }
        } else {
            m
        },
        ControlCommand::RequestStatus => m,
    }
}

/// A control request applies to this node when it is addressed to its
/// address, or when it is the broadcast emergency stop.
pub open spec fn spec_sim_control(m: SimulatedNodeModel, id: u32, p: Seq<u8>) -> SimulatedNodeModel {
    match spec_decode_control_request(id, p) {
        Err(_) => m,
        Ok(request) => if (request.node == 0 && request.command == ControlCommand::EmergencyDisable) || (
        m.node_id matches Some(node) && node.spec_get() == request.node) {
            spec_sim_control_command(m, request.command)
        } else {
            m
        },
    }
}

/// `image` with `bytes[..len]` copied in at `offset`.
pub open spec fn with_chunk(image: Seq<u8>, offset: int, len: int, bytes: Seq<u8>) -> Seq<u8> {
    image.take(offset) + bytes.take(len) + image.skip(offset + len)
}

/// The effect of a firmware request addressed to this node.
pub open spec fn spec_sim_firmware_request(m: SimulatedNodeModel, request: FirmwareRequest) -> SimulatedNodeModel {
    match request {
        FirmwareRequest::Status { .. } => m,
        FirmwareRequest::Begin { session, manifest, .. } => {
            let (u, r) = spec_begin(m.update, session, manifest);
            SimulatedNodeModel {
                update: u,
                image: if r is Ok {
                    Seq::new(manifest.image_size as nat, |i: int| 0u8)
                } else {
                    m.image
                },
                ..m
            }
        },
        FirmwareRequest::Data { session, offset, len, bytes } => {
            let (u, r) = spec_accept_chunk(m.update, session, offset, len);
            SimulatedNodeModel {
                update: u,
                image: if r == Ok::<ChunkDisposition, UpdateError>(ChunkDisposition::Write) {
                    with_chunk(m.image, offset as int, len as int, bytes@)
                } else {
                    m.image
                },
                ..m
            }
        },
        FirmwareRequest::Finish { session, .. } => {
            let (u, r) = spec_begin_verification(m.update, session);
            match r {
                Ok(manifest) => SimulatedNodeModel {
                    update: spec_verification_complete(
                        u,
                        spec_check_digest(sha256_of(m.image), manifest.digest) is Ok,
                    ).0,
                    ..m
                },
                Err(_) => SimulatedNodeModel { update: u, ..m },
            }
        },
        FirmwareRequest::Activate { session, allow_interruption, .. } => {
            let (u, r) = spec_activate(m.update, session, allow_interruption);
            if r is Ok {
                SimulatedNodeModel {
                    update: u,
                    firmware: match u.manifest {
                        Some(manifest) => manifest.version,
                        None => m.firmware,
                    },
                    policy: CarrierPolicy { enabled: false, ..m.policy },
                    ..m
                }
            } else {
                SimulatedNodeModel { update: u, ..m }
            }
        },
        FirmwareRequest::Abort { session, .. } => {
            let (u, r) = spec_abort(m.update, session);
            SimulatedNodeModel {
                update: u,
                image: if r is Ok {
                    Seq::empty()
                } else {
                    m.image
                },
                ..m
            }
        },
    }
}

pub open spec fn spec_sim_firmware(m: SimulatedNodeModel, id: u32, p: Seq<u8>) -> SimulatedNodeModel {
    match spec_decode_firmware_request(id, p) {
        Err(_) => m,
        Ok((node, _, request)) => if m.node_id == Some(node) {
            spec_sim_firmware_request(m, request)
        } else {
            m
        },
    }
}

/// The node after one frame: commissioning, control and firmware frames are
/// handled, anything else is ignored.
pub open spec fn spec_sim_handle_frame(m: SimulatedNodeModel, id: u32, p: Seq<u8>) -> SimulatedNodeModel {
    match spec_decode_header(id) {
        Ok(DecodedHeader::Commissioning(_)) => spec_sim_commissioning(m, id, p),
        Ok(DecodedHeader::Operational(h)) => if h.class == MessageClass::Control {
            spec_sim_control(m, id, p)
        } else if h.class == MessageClass::Firmware {
            spec_sim_firmware(m, id, p)
        } else {
            m
        },
        Err(_) => m,
    }
}

/// A frame as it goes on the wire: its identifier and payload.
pub open spec fn wire(frames: Seq<WireFrame>) -> Seq<(u32, Seq<u8>)> {
    frames.map_values(|f: WireFrame| (f.spec_id().spec_get(), f.spec_payload()))
}

/// The frame an encoding gives, or none where it fails.
pub open spec fn emitted(s: Result<(u32, Seq<u8>), CodecError>) -> Seq<(u32, Seq<u8>)> {
    match s {
        Ok(frame) => seq![frame],
        Err(_) => Seq::empty(),
    }
}

/// The address byte of an optional node address; zero for none.
pub open spec fn node_byte_of(node_id: Option<NodeId>) -> u8 {
    match node_id {
        Some(node) => node.spec_get(),
        None => 0,
    }
}

/// The firmware acknowledgement a node in state `m` sends.
pub open spec fn spec_sim_ack(
    m: SimulatedNodeModel,
    requester: RequesterId,
    request_id: RequestId,
    error: UpdateError,
) -> FirmwareAck {
    FirmwareAck {
        node: node_byte_of(m.node_id),
        requester,
        request_id,
        session: m.update.session,
        next_offset: m.update.next_offset,
        state: m.update.state,
        error,
        window_frames: 8,
        detail: 0,
    }
}

/// The firmware status a node in state `m` reports.
pub open spec fn spec_sim_status(m: SimulatedNodeModel, requester: RequesterId, request_id: RequestId) -> FirmwareStatus {
    FirmwareStatus {
        node: node_byte_of(m.node_id),
        requester,
        request_id,
        state: m.update.state,
        error: m.update.error,
        impact: spec_profile_descriptor(m.profile).update_impact,
        running: m.firmware,
        staged: if m.update.state == UpdateState::Staged {
            match m.update.manifest {
                Some(manifest) => Some(manifest.version),
                None => None,
            }
        } else {
            None
        },
        session: m.update.session,
        next_offset: m.update.next_offset,
        digest: match m.update.manifest {
            Some(manifest) => manifest.digest,
            None => Sha256Digest::spec_new([0u8; 32usize]),
        },
    }
}

/// Whether the received image already holds `bytes[..len]` at `offset`.
pub open spec fn chunk_present(image: Seq<u8>, offset: int, len: int, bytes: Seq<u8>) -> bool {
    offset + len <= image.len() && image.subrange(offset, offset + len) == bytes.take(len)
}

pub open spec fn update_error_of<T>(r: Result<T, UpdateError>) -> UpdateError {
    match r {
        Ok(_) => UpdateError::NoError,
        Err(e) => e,
    }
}

/// The error a node in state `m` reports for a firmware request other than
/// a status request: a resent chunk that differs from what was received is
/// reported as conflicting data.
pub open spec fn spec_sim_firmware_error(m: SimulatedNodeModel, request: FirmwareRequest) -> UpdateError {
    match request {
        FirmwareRequest::Status { .. } => UpdateError::NoError,
        FirmwareRequest::Begin { session, manifest, .. } => update_error_of(spec_begin(m.update, session, manifest).1),
        FirmwareRequest::Data { session, offset, len, bytes } => match spec_accept_chunk(m.update, session, offset, len).1 {
            Ok(ChunkDisposition::Write) => UpdateError::NoError,
            Ok(ChunkDisposition::Duplicate) => if chunk_present(m.image, offset as int, len as int, bytes@) {
                UpdateError::NoError
            } else {
                UpdateError::ConflictingData
            },
            Err(e) => e,
        },
        FirmwareRequest::Finish { session, .. } => {
            let (u, r) = spec_begin_verification(m.update, session);
            match r {
                Ok(manifest) => update_error_of(
                    spec_verification_complete(
                        u,
                        spec_check_digest(sha256_of(m.image), manifest.digest) is Ok,
                    ).1,
                ),
                Err(e) => e,
            }
        },
        FirmwareRequest::Activate { session, allow_interruption, .. } => update_error_of(
            spec_activate(m.update, session, allow_interruption).1,
        ),
        FirmwareRequest::Abort { session, .. } => update_error_of(spec_abort(m.update, session).1),
    }
}

/// The request identifier an acknowledgement echoes; data chunks carry none.
pub open spec fn acked_request_id(request: FirmwareRequest) -> RequestId {
    match request {
        FirmwareRequest::Begin { request_id, .. } => request_id,
        FirmwareRequest::Data { .. } => RequestId(0),
        FirmwareRequest::Finish { request_id, .. } => request_id,
        FirmwareRequest::Activate { request_id, .. } => request_id,
        FirmwareRequest::Abort { request_id, .. } => request_id,
        FirmwareRequest::Status { request_id } => request_id,
    }
}

/// What a node in state `m` answers to a firmware frame: a status request
/// its status, any other request for its own address one acknowledgement of
/// the state it is left in.
pub open spec fn spec_sim_firmware_reply(m: SimulatedNodeModel, id: u32, p: Seq<u8>) -> Seq<(u32, Seq<u8>)> {
    match spec_decode_firmware_request(id, p) {
        Err(_) => Seq::empty(),
        Ok((node, requester, request)) => if m.node_id != Some(node) {
            Seq::empty()
        } else {
            match request {
                FirmwareRequest::Status { request_id } => emitted(
                    spec_encode_firmware_status(spec_sim_status(m, requester, request_id)),
                ),
                _ => emitted(
                    spec_encode_firmware_ack(
                        spec_sim_ack(
                            spec_sim_firmware_request(m, request),
                            requester,
                            acked_request_id(request),
                            spec_sim_firmware_error(m, request),
                        ),
                    ),
                ),
            }
        },
    }
}

/// The node information a node in state `m` reports.
pub open spec fn spec_sim_node_info(m: SimulatedNodeModel) -> NodeInfo {
    NodeInfo {
        node: node_byte_of(m.node_id),
        descriptor: spec_profile_descriptor(m.profile),
        firmware: m.firmware,
        bootloader: FirmwareVersion { major: 0, minor: 1, patch: 0 },
        partition_layout: 1,
    }
}

/// The result of a commissioning request, reported in state `m`.
pub open spec fn spec_sim_result(m: SimulatedNodeModel, request_id: RequestId, request_opcode: u8) -> CommissioningMessage {
    CommissioningMessage::Result {
        request_id,
        uid: m.uid,
        request_opcode,
        result: CommandResult::Success,
        node_id: m.node_id,
        state: m.state,
    }
}

/// What a node in state `m` answers to a commissioning frame: its
/// discovery response to a discovery, and the result of an identify,
/// assign or clear request for its UID, in the state that leaves it in.
pub open spec fn spec_sim_commissioning_reply(m: SimulatedNodeModel, id: u32, p: Seq<u8>) -> Seq<(u32, Seq<u8>)> {
    let after = spec_sim_commissioning(m, id, p);
    match spec_decode_commissioning(id, p) {
        Ok((header, CommissioningMessage::Discover { nonce })) => emitted(
            spec_encode_commissioning(
                header.requester,
                CommissioningMessage::DiscoveryResponse {
                    nonce,
                    info: DiscoveryInfo {
                        uid: m.uid,
                        node_id: m.node_id,
                        state: m.state,
                        protocol_major: PROTOCOL_MAJOR,
                        protocol_minor: PROTOCOL_MINOR,
                        node_info: spec_sim_node_info(m),
                    },
                },
            ),
        ),
        Ok((header, CommissioningMessage::Identify { request_id, uid, .. })) => if uid == m.uid {
            emitted(spec_encode_commissioning(header.requester, spec_sim_result(after, request_id, 3)))
        } else {
            Seq::empty()
        },
        Ok((header, CommissioningMessage::AssignNode { request_id, uid, .. })) => if uid == m.uid {
            emitted(spec_encode_commissioning(header.requester, spec_sim_result(after, request_id, 4)))
        } else {
            Seq::empty()
        },
        Ok((header, CommissioningMessage::ClearNode { request_id, uid })) => if uid == m.uid {
            emitted(spec_encode_commissioning(header.requester, spec_sim_result(after, request_id, 5)))
        } else {
            Seq::empty()
        },
        _ => Seq::empty(),
    }
}

/// How a control command that reached a node in state `m` ends: commands
/// for another role are unsupported.
pub open spec fn spec_sim_command_result(m: SimulatedNodeModel, command: ControlCommand) -> CommandResult {
    let role = spec_profile_descriptor(m.profile).role;
    match command {
        ControlCommand::SetCarrierPolicy(_) => if role == NodeRole::Carrier {
            CommandResult::Success
        } else {
            CommandResult::Unsupported
        },
        ControlCommand::SetFan { .. } => if role == NodeRole::Backplane {
            CommandResult::Success
        } else {
            CommandResult::Unsupported
        },
        ControlCommand::SetBinding(_) => if role == NodeRole::Carrier {
            CommandResult::Success
        } else {
            CommandResult::Unsupported
        },
        _ => CommandResult::Success,
    }
}

/// The state a node in state `m` reports under the address `node`.
pub open spec fn spec_sim_node_state(m: SimulatedNodeModel, node: NodeId) -> NodeState {
    NodeState {
        node: node.spec_get(),
        sequence: 1,
        service: if m.emergency_latched {
            ServiceState::Faulted
        } else if m.policy.enabled {
            ServiceState::Enabled
        } else {
            ServiceState::Disabled
        },
        faults: if m.emergency_latched {
            FaultFlags::spec_from_bits(1)
        } else {
            FaultFlags::spec_from_bits(0)
        },
        uptime_seconds: 1,
        output_enabled: m.policy.enabled,
        power_good: m.policy.enabled,
        emergency_latched: m.emergency_latched,
    }
}

/// What a node in state `m` answers to a control frame that reaches it,
/// once it has an address: the command response, and for a status request
/// its state, its information and, on a carrier, its binding, as they are
/// after the command.
pub open spec fn spec_sim_control_reply(m: SimulatedNodeModel, id: u32, p: Seq<u8>) -> Seq<(u32, Seq<u8>)> {
    match spec_decode_control_request(id, p) {
        Err(_) => Seq::empty(),
        Ok(request) => if !((request.node == 0 && request.command == ControlCommand::EmergencyDisable) || (
        m.node_id matches Some(node) && node.spec_get() == request.node)) {
            Seq::empty()
        } else {
            let after = spec_sim_control_command(m, request.command);
            match after.node_id {
                None => Seq::empty(),
                Some(node) => {
                    let response = CommandResponse {
                        node: node.spec_get(),
                        requester: request.requester,
                        request_id: request.request_id,
                        request_opcode: request.command.spec_opcode(),
                        request_target: match request.command {
                            ControlCommand::SetFan { fan, .. } => fan.spec_get(),
                            _ => 15,
                        },
                        result: spec_sim_command_result(m, request.command),
                        detail: 0,
                    };
                    emitted(spec_encode_command_response(response)) + if request.command
                        == ControlCommand::RequestStatus {
                        emitted(spec_encode_node_state(spec_sim_node_state(after, node))) + emitted(
                            spec_encode_node_info(spec_sim_node_info(after)),
                        ) + if spec_profile_descriptor(m.profile).role == NodeRole::Carrier {
                            emitted(
                                spec_encode_binding(BindingInfo { node: node.spec_get(), binding: after.binding }),
                            )
                        } else {
                            Seq::empty()
                        }
                    } else {
                        Seq::empty()
                    }
                },
            }
        },
    }
}

/// What a node in state `m` answers to one frame.
pub open spec fn spec_sim_reply(m: SimulatedNodeModel, id: u32, p: Seq<u8>) -> Seq<(u32, Seq<u8>)> {
    match spec_decode_header(id) {
        Ok(DecodedHeader::Commissioning(_)) => spec_sim_commissioning_reply(m, id, p),
        Ok(DecodedHeader::Operational(h)) => if h.class == MessageClass::Control {
            spec_sim_control_reply(m, id, p)
        } else if h.class == MessageClass::Firmware {
            spec_sim_firmware_reply(m, id, p)
        } else {
            Seq::empty()
        },
        Err(_) => Seq::empty(),
    }
}

impl SimulatedNode {
    pub closed spec fn wf(&self) -> bool {
        &&& sim_consistent(self@)
        &&& update_invariant(self.update@)
    }

    pub fn new(profile: SimulatedProfile, uid: NodeUid, node_id: Option<NodeId>) -> (r: Self)
        ensures
            r@ == spec_sim_new(profile, uid, node_id),
            r.wf(),
    {
        let descriptor = profile.descriptor();
        let update = UpdateController::new(
            ImageTarget {
                role: descriptor.role,
                carrier_profile: descriptor.carrier_profile,
                hardware_revision: descriptor.hardware_revision,
                partition_layout: PARTITION_LAYOUT_VERSION,
            },
            descriptor.update_impact,
        );
        let r = SimulatedNode {
            profile,
            uid,
            node_id,
            state: if node_id.is_some() {
                CommissioningState::Commissioned
            } else {
                CommissioningState::Uncommissioned
            },
            binding: None,
            policy: if descriptor.capabilities.contains(CapabilityFlags::USB_PD_CONTROL()) {
                CarrierPolicy::SW3538_SAFE_DISABLED()
            } else {
                CarrierPolicy { enabled: false, pd_limits: None }
            },
            fans: [FanConfig::SAFE_DEFAULT(), FanConfig::SAFE_DEFAULT()],
            emergency_latched: false,
            firmware: SIMULATED_FIRMWARE(),
            update,
            image: Vec::new(),
        };
        assert(r.fans@ =~= safe_fans());
        r
    }

    pub fn descriptor(&self) -> (r: NodeDescriptor)
        ensures
            r == spec_profile_descriptor(self@.profile),
    {
        self.profile.descriptor()
    }

    pub fn node_id(&self) -> (r: Option<NodeId>)
        ensures
            r == self@.node_id,
    {
        self.node_id
    }

    /// Handles one received frame and gives the frames to send in answer.
    pub fn handle_frame(&mut self, id: ExtendedId, payload: &[u8]) -> (r: Vec<WireFrame>)
        requires
            old(self).wf(),
        ensures
            final(self).wf(),
            final(self)@ == spec_sim_handle_frame(old(self)@, id.spec_get(), payload@),
            wire(r@) == spec_sim_reply(old(self)@, id.spec_get(), payload@),
            r@.len() <= 4,
    {
        match decode_header(id) {
            Ok(DecodedHeader::Commissioning(_)) => self.handle_commissioning(id, payload),
            Ok(DecodedHeader::Operational(header)) => {
                if header.class == MessageClass::Control {
                    self.handle_control(id, payload)
                } else if header.class == MessageClass::Firmware {
                    self.handle_firmware(id, payload)
                } else {
                    Vec::new()
                }
            },
            Err(_) => Vec::new(),
        }
    }

    fn handle_commissioning(&mut self, id: ExtendedId, payload: &[u8]) -> (r: Vec<WireFrame>)
        requires
            old(self).wf(),
        ensures
            final(self).wf(),
            final(self)@ == spec_sim_commissioning(old(self)@, id.spec_get(), payload@),
            wire(r@) == spec_sim_commissioning_reply(old(self)@, id.spec_get(), payload@),
            r@.len() <= 1,
    {
        let (header, request) = match decode_commissioning(id, payload) {
            Ok(decoded) => decoded,
            Err(_) => {
                return Vec::new();
            },
        };
        let response = match request {
            CommissioningMessage::Discover { nonce } => CommissioningMessage::DiscoveryResponse {
                nonce,
                info: DiscoveryInfo {
                    uid: self.uid,
                    node_id: self.node_id,
                    state: self.state,
                    protocol_major: PROTOCOL_MAJOR,
                    protocol_minor: PROTOCOL_MINOR,
                    node_info: self.node_info(),
                },
            },
            CommissioningMessage::Identify { request_id, uid, .. } => {
                if !uid.same_as(&self.uid) {
                    return Vec::new();
                }
                self.commissioning_result(request_id, commissioning_opcode::IDENTIFY, CommandResult::Success)
            },
            CommissioningMessage::AssignNode { request_id, uid, node_id } => {
                if !uid.same_as(&self.uid) {
                    return Vec::new();
                }
                self.node_id = Some(node_id);
                self.state = CommissioningState::Commissioned;
                self.commissioning_result(
                    request_id,
                    commissioning_opcode::ASSIGN_NODE,
                    CommandResult::Success,
                )
            },
            CommissioningMessage::ClearNode { request_id, uid } => {
                if !uid.same_as(&self.uid) {
                    return Vec::new();
                }
                self.node_id = None;
                self.state = CommissioningState::Uncommissioned;
                self.commissioning_result(request_id, commissioning_opcode::CLEAR_NODE, CommandResult::Success)
            },
            _ => {
                return Vec::new();
            },
        };
        let mut frames = Vec::new();
        if let Ok(frame) = encode_commissioning(header.requester, response) {
            frames.push(frame);
        }
        frames
    }

    fn commissioning_result(&self, request_id: RequestId, request_opcode: u8, result: CommandResult) -> (r:
        CommissioningMessage)
        ensures
            r == (CommissioningMessage::Result {
                request_id,
                uid: self@.uid,
                request_opcode,
                result,
                node_id: self@.node_id,
                state: self@.state,
            }),
    {
        CommissioningMessage::Result {
            request_id,
            uid: self.uid,
            request_opcode,
            result,
            node_id: self.node_id,
            state: self.state,
        }
    }

    fn handle_control(&mut self, id: ExtendedId, payload: &[u8]) -> (r: Vec<WireFrame>)
        requires
            old(self).wf(),
        ensures
            final(self).wf(),
            final(self)@ == spec_sim_control(old(self)@, id.spec_get(), payload@),
            wire(r@) == spec_sim_control_reply(old(self)@, id.spec_get(), payload@),
            r@.len() <= 4,
    {
        let request = match decode_control_request(id, payload) {
            Ok(request) => request,
            Err(_) => {
                return Vec::new();
            },
        };
        let is_emergency = match request.command {
            ControlCommand::EmergencyDisable => true,
            _ => false,
        };
        let is_broadcast_emergency = request.node == BROADCAST_NODE && is_emergency;
        let addressed = match self.node_id {
            Some(node) => node.get() == request.node,
            None => false,
        };
        if !is_broadcast_emergency && !addressed {
            return Vec::new();
        }
        let role = self.descriptor().role;
        let result = match request.command {
            ControlCommand::EmergencyDisable => {
                self.emergency_latched = true;
                self.policy.enabled = false;
                self.fans = [FanConfig::SAFE_DEFAULT(), FanConfig::SAFE_DEFAULT()];
                assert(self.fans@ =~= safe_fans());
                CommandResult::Success
            },
            ControlCommand::AcknowledgeEmergency => {
                self.emergency_latched = false;
                CommandResult::Success
            },
            ControlCommand::RequestStatus => CommandResult::Success,
            ControlCommand::SetCarrierPolicy(policy) => {
                if role == NodeRole::Carrier {
                    self.policy = policy;
                    CommandResult::Success
                } else {
                    CommandResult::Unsupported
                }
            },
            ControlCommand::SetFan { fan, config } => {
                if role == NodeRole::Backplane {
                    let index = fan.index();
                    self.fans[index] = config;
                    assert(self.fans@ =~= old(self)@.fans.update(fan.spec_get() as int, config));
                    CommandResult::Success
                } else {
                    CommandResult::Unsupported
                }
            },
            ControlCommand::SetBinding(binding) => {
                if role == NodeRole::Carrier {
                    self.binding = binding;
                    CommandResult::Success
                } else {
                    CommandResult::Unsupported
                }
            },
        };
        let node = match self.node_id {
            Some(node) => node,
            None => {
                return Vec::new();
            },
        };
        let mut frames = Vec::new();
        let response = CommandResponse {
            node: node.get(),
            requester: request.requester,
            request_id: request.request_id,
            request_opcode: request.command.opcode(),
            request_target: match request.command {
                ControlCommand::SetFan { fan, .. } => fan.get(),
                _ => NODE_TARGET,
            },
            result,
            detail: 0,
        };
        if let Ok(frame) = encode_command_response(response) {
            frames.push(frame);
        }
        let is_status_request = match request.command {
            ControlCommand::RequestStatus => true,
            _ => false,
        };
        if is_status_request {
            if let Ok(frame) = encode_node_state(self.node_state(node)) {
                frames.push(frame);
            }
            if let Ok(frame) = encode_node_info(self.node_info()) {
                frames.push(frame);
            }
            if role == NodeRole::Carrier {
                if let Ok(frame) = encode_binding(BindingInfo { node: node.get(), binding: self.binding }) {
                    frames.push(frame);
                }
            }
        }
        frames
    }

    fn handle_firmware(&mut self, id: ExtendedId, payload: &[u8]) -> (r: Vec<WireFrame>)
        requires
            old(self).wf(),
        ensures
            final(self).wf(),
            final(self)@ == spec_sim_firmware(old(self)@, id.spec_get(), payload@),
            wire(r@) == spec_sim_firmware_reply(old(self)@, id.spec_get(), payload@),
            r@.len() <= 1,
    {
        let (node, requester, request) = match decode_firmware_request(id, payload) {
            Ok(decoded) => decoded,
            Err(_) => {
                return Vec::new();
            },
        };
        let ours = match self.node_id {
            Some(own) => own == node,
            None => false,
        };
        if !ours {
            return Vec::new();
        }
        if let FirmwareRequest::Status { request_id } = request {
            let mut frames = Vec::new();
            if let Ok(frame) = self.firmware_status(requester, request_id) {
                frames.push(frame);
            }
            proof {
                assert(wire(frames@) =~= spec_sim_firmware_reply(old(self)@, id.spec_get(), payload@));
            }
            return frames;
        }
        let (request_id, error) = self.apply_firmware_request(request);
        let mut frames = Vec::new();
        if let Ok(frame) = self.firmware_ack(requester, request_id, error) {
            frames.push(frame);
        }
        proof {
            assert(wire(frames@) =~= spec_sim_firmware_reply(old(self)@, id.spec_get(), payload@));
        }
        frames
    }

    /// Applies a firmware request; gives the request identifier to
    /// acknowledge and the error to report.
    #[verifier::rlimit(50)]
    fn apply_firmware_request(&mut self, request: FirmwareRequest) -> (r: (RequestId, Option<UpdateError>))
        requires
            old(self).wf(),
            request matches FirmwareRequest::Data { len, .. } ==> len <= 48,
        ensures
            final(self).wf(),
            final(self)@ == spec_sim_firmware_request(old(self)@, request),
            r.0 == acked_request_id(request),
            (match r.1 {
                Some(e) => e,
                None => UpdateError::NoError,
            }) == spec_sim_firmware_error(old(self)@, request),
    {
        match request {
            FirmwareRequest::Status { request_id } => (request_id, None),
            FirmwareRequest::Begin { request_id, session, manifest } => {
                let result = self.update.begin(session, manifest);
                if result.is_ok() {
                    self.image = vec![0u8; manifest.image_size as usize];
                    assert(self.image@ =~= Seq::new(manifest.image_size as nat, |i: int| 0u8));
                }
                (
                    request_id,
                    match result {
                        Ok(_) => None,
                        Err(e) => Some(e),
                    },
                )
            },
            FirmwareRequest::Data { session, offset, len, bytes } => {
                let mut error = None;
                match self.update.accept_chunk(session, offset, len) {
                    Ok(ChunkDisposition::Write) => {
                        self.write_chunk(offset as usize, len as usize, &bytes);
                    },
                    Ok(ChunkDisposition::Duplicate) => {
                        if !self.chunk_matches(offset as usize, len as usize, &bytes) {
                            error = Some(UpdateError::ConflictingData);
                        }
                    },
                    Err(update_error) => {
                        error = Some(update_error);
                    },
                }
                (RequestId(0), error)
            },
            FirmwareRequest::Finish { request_id, session } => {
                let error = match self.update.begin_verification(session) {
                    Ok(manifest) => {
                        let digest = sha256(self.image.as_slice());
                        let valid = check_digest(&digest, manifest.digest).is_ok();
                        match self.update.verification_complete(valid) {
                            Ok(_) => None,
                            Err(e) => Some(e),
                        }
                    },
                    Err(update_error) => Some(update_error),
                };
                (request_id, error)
            },
            FirmwareRequest::Activate { request_id, session, allow_interruption } => {
                let result = self.update.activate(session, allow_interruption);
                if result.is_ok() {
                    if let Some(manifest) = self.update.manifest() {
                        self.firmware = manifest.version;
                    }
                    self.policy.enabled = false;
                }
                (
                    request_id,
                    match result {
                        Ok(_) => None,
                        Err(e) => Some(e),
                    },
                )
            },
            FirmwareRequest::Abort { request_id, session } => {
                let result = self.update.abort(session);
                if result.is_ok() {
                    self.image.clear();
                }
                (
                    request_id,
                    match result {
                        Ok(_) => None,
                        Err(e) => Some(e),
                    },
                )
            },
        }
    }

    fn write_chunk(&mut self, offset: usize, len: usize, bytes: &[u8; 48])
        requires
            len <= 48,
            offset + len <= old(self)@.image.len(),
        ensures
            final(self)@ == (SimulatedNodeModel {
                image: with_chunk(old(self)@.image, offset as int, len as int, bytes@),
                ..old(self)@
            }),
    {
        let ghost start = self.image@;
        let _n = self.image.len();
        let mut i: usize = 0;
        while i < len
            invariant
                i <= len <= 48,
                offset + len <= start.len(),
                start.len() <= usize::MAX,
                self.image@.len() == start.len(),
                forall|j: int| 0 <= j < offset ==> self.image@[j] == start[j],
                forall|j: int| offset <= j < offset + i ==> self.image@[j] == bytes@[j - offset],
                forall|j: int| offset + i <= j < start.len() ==> self.image@[j] == start[j],
                self@ == (SimulatedNodeModel { image: self.image@, ..old(self)@ }),
            decreases len - i,
        {
            self.image.set(offset + i, bytes[i]);
            i = i + 1;
        }
        assert(self.image@ =~= with_chunk(start, offset as int, len as int, bytes@));
    }

    fn chunk_matches(&self, offset: usize, len: usize, bytes: &[u8; 48]) -> (r: bool)
        requires
            len <= 48,
        ensures
            r == chunk_present(self@.image, offset as int, len as int, bytes@),
    {
        if offset > self.image.len() || len > self.image.len() - offset {
            return false;
        }
        let mut i: usize = 0;
        while i < len
            invariant
                i <= len <= 48,
                offset + len <= self@.image.len(),
                self@.image.len() <= usize::MAX,
                forall|j: int| 0 <= j < i ==> self@.image[offset + j] == bytes@[j],
            decreases len - i,
        {
            if self.image[offset + i] != bytes[i] {
                assert(self@.image.subrange(offset as int, offset + len)[i as int] != bytes@.take(len as int)[i as int]);
                return false;
            }
            i = i + 1;
        }
        assert(self@.image.subrange(offset as int, offset + len) =~= bytes@.take(len as int));
        true
    }

    fn node_info(&self) -> (r: NodeInfo)
        ensures
            r == spec_sim_node_info(self@),
    {
        NodeInfo {
            node: match self.node_id {
                Some(node) => node.get(),
                None => 0,
            },
            descriptor: self.descriptor(),
            firmware: self.firmware,
            bootloader: SIMULATED_BOOTLOADER(),
            partition_layout: PARTITION_LAYOUT_VERSION,
        }
    }

    fn node_state(&self, node: NodeId) -> (r: NodeState)
        ensures
            r == spec_sim_node_state(self@, node),
    {
        NodeState {
            node: node.get(),
            sequence: 1,
            service: if self.emergency_latched {
                ServiceState::Faulted
            } else if self.policy.enabled {
                ServiceState::Enabled
            } else {
                ServiceState::Disabled
            },
            faults: if self.emergency_latched {
                FaultFlags::EMERGENCY_LATCHED()
            } else {
                FaultFlags::NONE()
            },
            uptime_seconds: 1,
            output_enabled: self.policy.enabled,
            power_good: self.policy.enabled,
            emergency_latched: self.emergency_latched,
        }
    }

    fn firmware_ack(&self, requester: RequesterId, request_id: RequestId, error: Option<UpdateError>) -> (r:
        Result<WireFrame, CodecError>)
        ensures
            frame_matches(
                r,
                spec_encode_firmware_ack(
                    spec_sim_ack(
                        self@,
                        requester,
                        request_id,
                        match error {
                            Some(e) => e,
                            None => UpdateError::NoError,
                        },
                    ),
                ),
            ),
    {
        let node = match self.node_id {
            Some(node) => node.get(),
            None => 0,
        };
        encode_firmware_ack(
            FirmwareAck {
                node,
                requester,
                request_id,
                session: self.update.session(),
                next_offset: self.update.next_offset(),
                state: self.update.state(),
                error: match error {
                    Some(e) => e,
                    None => UpdateError::NoError,
                },
                window_frames: FIRMWARE_WINDOW_FRAMES,
                detail: 0,
            },
        )
    }

    fn firmware_status(&self, requester: RequesterId, request_id: RequestId) -> (r: Result<
        WireFrame,
        CodecError,
    >)
        ensures
            frame_matches(r, spec_encode_firmware_status(spec_sim_status(self@, requester, request_id))),
    {
        let manifest = self.update.manifest();
        let state = self.update.state();
        let node = match self.node_id {
            Some(node) => node.get(),
            None => 0,
        };
        encode_firmware_status(
            FirmwareStatus {
                node,
                requester,
                request_id,
                state,
                error: self.update.error(),
                impact: self.descriptor().update_impact,
                running: self.firmware,
                staged: if state == UpdateState::Staged {
                    match manifest {
                        Some(value) => Some(value.version),
                        None => None,
                    }
                } else {
                    None
                },
                session: self.update.session(),
                next_offset: self.update.next_offset(),
                digest: match manifest {
                    Some(value) => value.digest,
                    None => Sha256Digest::from_bytes([0u8; 32]),
                },
            },
        )
    }
}

/// An emergency disable latches the emergency, turns the output off and
/// sets both fans to the safe duty, whatever state the node was in; a later
/// acknowledgement clears the latch but leaves the output off and the fans safe.
pub proof fn lemma_emergency_disables_and_acknowledge_keeps_output_off(m: SimulatedNodeModel)
    ensures
        ({
            let e = spec_sim_control_command(m, ControlCommand::EmergencyDisable);
            let a = spec_sim_control_command(e, ControlCommand::AcknowledgeEmergency);
            &&& e.emergency_latched && !e.policy.enabled && e.fans == safe_fans()
            &&& !a.emergency_latched && !a.policy.enabled && a.fans == safe_fans()
        }),
{
}

/// A broadcast emergency disable reaches every node, whether it has an
/// address or not.
pub proof fn lemma_broadcast_emergency_reaches_every_node(m: SimulatedNodeModel, id: u32, p: Seq<u8>)
    requires
        spec_decode_control_request(id, p) matches Ok(request) && request.node == 0
            && request.command == ControlCommand::EmergencyDisable,
    ensures
        spec_sim_control(m, id, p) == spec_sim_control_command(m, ControlCommand::EmergencyDisable),
{
}

/// Sending a data chunk again after the node took it changes neither the
/// update state nor the received image.
pub proof fn lemma_data_retry_is_idempotent(
    m: SimulatedNodeModel,
    session: UpdateSessionId,
    offset: u32,
    len: u8,
    bytes: [u8; 48],
)
    requires
        spec_accept_chunk(m.update, session, offset, len).1 == Ok::<ChunkDisposition, UpdateError>(
            ChunkDisposition::Write,
        ),
    ensures
        ({
            let data = FirmwareRequest::Data { session, offset, len, bytes };
            let once = spec_sim_firmware_request(m, data);
            let twice = spec_sim_firmware_request(once, data);
            &&& twice.update == once.update
            &&& twice.image == once.image
            &&& spec_accept_chunk(once.update, session, offset, len).1 == Ok::<
                ChunkDisposition,
                UpdateError,
            >(ChunkDisposition::Duplicate)
        }),
{
}

/// A successful activation runs the staged version and turns the output off.
pub proof fn lemma_activation_turns_output_off(
    m: SimulatedNodeModel,
    session: UpdateSessionId,
    allow_interruption: bool,
    request_id: RequestId,
)
    requires
        spec_activate(m.update, session, allow_interruption).1 is Ok,
    ensures
        ({
            let a = spec_sim_firmware_request(
                m,
                FirmwareRequest::Activate { request_id, session, allow_interruption },
            );
            &&& !a.policy.enabled
            &&& a.update == spec_activate(m.update, session, allow_interruption).0
            &&& (a.update.manifest matches Some(manifest) ==> a.firmware == manifest.version)
        }),
{
}

} // verus!
