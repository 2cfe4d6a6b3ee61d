//! The first-generation status traffic a backpack sends: per-port state and
//! power, the board heartbeat and the board information.
use vstd::prelude::*;
use crate::types::{group_type_lemmas, CommissioningState, FaultFlags, FirmwareVersion, NodeUid, RequesterId};
use crate::wire::{lemma_first_nonzero_none, lemma_rd_put16, lemma_rd_put32, put16, put32, put_bytes, put_slice, put_u16, put_u32, rd16, rd32, rd_u16, rd_u32, zeros};
use crate::protocol::{
    decode_commissioning_state, group_id_lemmas, lemma_header_round_trip, lemma_rd_uid, read_uid, rd_uid, require_len,
    require_operational_node, require_priority, require_protocol_requester, require_target,
    require_zero_range, spec_decode_commissioning_state, spec_header_decode, spec_header_new,
    spec_require_len, spec_require_operational_node, spec_require_priority,
    spec_require_protocol_requester, spec_require_target, spec_require_zero_range, CodecError,
    ExtendedId, Header, InvalidHeader, MessageClass, PayloadError, WireFrame,
};
use crate::codec::{decode_id, finish_frame, lift_header, new_header, spec_frame};
use crate::port::control::{lift, lift_frame, request_frame_matches, RequestError, BOARD_TARGET};
use crate::port::model::{group_port_lemmas, PortId};

verus! {

broadcast use {group_type_lemmas, group_id_lemmas, group_port_lemmas};

/// What a port reports of itself, one bit each: enabled, module present,
/// policy pending, emergency latched, USB connected, contract valid and
/// input commanded on (on boards without input switches, always on).
#[derive(Clone, Copy, Debug, PartialEq, Eq, Structural)]
pub struct PortStateFlags(pub u16);

impl PortStateFlags {
    pub const ENABLED: u16 = 1;
    pub const MODULE_PRESENT: u16 = 2;
    pub const POLICY_PENDING: u16 = 4;
    pub const EMERGENCY_LATCHED: u16 = 8;
    pub const USB_CONNECTED: u16 = 16;
    pub const CONTRACT_VALID: u16 = 32;
    pub const INPUT_POWERED: u16 = 64;

    pub fn from_bits(bits: u16) -> (r: Self)
        ensures
            r.0 == bits,
    {
        PortStateFlags(bits)
    }

    pub fn bits(self) -> (r: u16)
        ensures
            r == self.0,
    {
        self.0
    }
}

/// Flags above the seven known ones are refused; the first byte that holds
/// one is reported.
pub open spec fn spec_require_port_state_flags(flags: u16) -> Result<(), RequestError> {
    let unknown = flags & 0xFF80u16;
    if unknown == 0 {
        Ok(())
    } else if unknown & 0xFF == 0 {
        Err(RequestError::Codec(CodecError::Payload(PayloadError::InvalidValue { offset: 3, value: (unknown >> 8u16) as u8 })))
    } else {
        Err(RequestError::Codec(CodecError::Payload(PayloadError::InvalidValue { offset: 2, value: (unknown & 0xFF) as u8 })))
    }
}

fn require_port_state_flags(flags: u16) -> (r: Result<(), RequestError>)
    ensures
        r == spec_require_port_state_flags(flags),
{
    let unknown = flags & 0xFF80u16;
    if unknown == 0 {
        Ok(())
    } else if unknown & 0xFF == 0 {
        Err(RequestError::Codec(CodecError::Payload(PayloadError::InvalidValue { offset: 3, value: (unknown >> 8u16) as u8 })))
    } else {
        Err(RequestError::Codec(CodecError::Payload(PayloadError::InvalidValue { offset: 2, value: (unknown & 0xFF) as u8 })))
    }
}

/// Errors on headers that must come from the protocol requester.
pub open spec fn spec_require_protocol(h: Header) -> Result<(), RequestError> {
    if h.requester.spec_get() != 0 {
        Err(RequestError::Codec(CodecError::InvalidHeader(InvalidHeader::Requester(h.requester.spec_get()))))
    } else {
        Ok(())
    }
}

#[derive(Clone, Copy, Debug, PartialEq, Eq)]
pub struct PortState {
    pub node: u8,
    pub port: PortId,
    pub sequence: u16,
    pub flags: PortStateFlags,
    pub faults: FaultFlags,
    pub uptime_seconds: u32,
    /// `0xff` when no active profile is known.
    pub active_profile: u8,
    pub slot_generation: u8,
}

pub open spec fn spec_port_state_payload(s: PortState) -> Seq<u8> {
    put32(
        put32(put16(put16(zeros(16), 0, s.sequence), 2, s.flags.0), 4, s.faults.spec_bits()),
        8,
        s.uptime_seconds,
    ).update(12, s.active_profile).update(13, s.slot_generation)
}

pub open spec fn spec_encode_port_state(s: PortState) -> Result<(u32, Seq<u8>), RequestError> {
    if let Err(e) = lift(spec_require_operational_node(s.node)) {
        Err(e)
    } else if let Err(e) = spec_require_port_state_flags(s.flags.0) {
        Err(e)
    } else {
        match lift_header(
            spec_header_new(3, MessageClass::State, s.node, s.port.spec_get(), RequesterId::spec_new(0), 0),
        ) {
            Err(e) => Err(RequestError::Codec(e)),
            Ok(h) => lift_frame(spec_frame(h, spec_port_state_payload(s))),
        }
    }
}

pub fn encode_port_state(state: PortState) -> (r: Result<WireFrame, RequestError>)
    ensures
        request_frame_matches(r, spec_encode_port_state(state)),
{
    if let Err(e) = require_operational_node(state.node) {
        return Err(RequestError::Codec(e));
    }
    require_port_state_flags(state.flags.bits())?;
    let header = match new_header(3, MessageClass::State, state.node, state.port.get(), RequesterId::PROTOCOL(), 0) {
        Ok(h) => h,
        Err(e) => {
            return Err(RequestError::Codec(e));
        },
    };
    let mut payload = vec![0u8; 16];
    put_u16(&mut payload, 0, state.sequence);
    put_u16(&mut payload, 2, state.flags.bits());
    put_u32(&mut payload, 4, state.faults.bits());
    put_u32(&mut payload, 8, state.uptime_seconds);
    payload.set(12, state.active_profile);
    payload.set(13, state.slot_generation);
    assert(payload@ == spec_port_state_payload(state));
    match finish_frame(header, payload.as_slice()) {
        Ok(f) => Ok(f),
        Err(e) => Err(RequestError::Codec(e)),
    }
}

pub open spec fn spec_decode_port_state(id: u32, p: Seq<u8>) -> Result<PortState, RequestError> {
    match lift_header(spec_header_decode(id)) {
        Err(e) => Err(RequestError::Codec(e)),
        Ok(h) => if h.class != MessageClass::State {
            Err(RequestError::Codec(CodecError::UnexpectedClass(h.class.spec_code())))
        } else if h.opcode != 0 {
            Err(RequestError::Codec(CodecError::UnknownOpcode(h.opcode)))
        } else if let Err(e) = lift(spec_require_priority(h.priority, 3)) {
            Err(e)
        } else if let Err(e) = lift(spec_require_operational_node(h.node)) {
            Err(e)
        } else if let Err(e) = spec_require_protocol(h) {
            Err(e)
        } else if let Err(e) = lift(spec_require_len(p, 16)) {
            Err(e)
        } else if let Err(e) = lift(spec_require_zero_range(p, 14, 16)) {
            Err(e)
        } else if let Err(e) = spec_require_port_state_flags(rd16(p, 2)) {
            Err(e)
        } else if h.target >= 8 {
            Err(RequestError::InvalidPortId(h.target))
        } else {
            Ok(
                PortState {
                    node: h.node,
                    port: PortId::spec_new(h.target),
                    sequence: rd16(p, 0),
                    flags: PortStateFlags(rd16(p, 2)),
                    faults: FaultFlags::spec_from_bits(rd32(p, 4)),
                    uptime_seconds: rd32(p, 8),
                    active_profile: p[12],
                    slot_generation: p[13],
                },
            )
        },
    }
}

fn header_of(id: ExtendedId) -> (r: Result<Header, RequestError>)
    ensures
        r == (match lift_header(spec_header_decode(id.spec_get())) {
            Ok(h) => Ok::<Header, RequestError>(h),
            Err(e) => Err(RequestError::Codec(e)),
        }),
{
    match decode_id(id) {
        Ok(h) => Ok(h),
        Err(e) => Err(RequestError::Codec(e)),
    }
}

fn check(r: Result<(), CodecError>) -> (o: Result<(), RequestError>)
    ensures
        o == lift(r),
{
    match r {
        Ok(()) => Ok(()),
        Err(e) => Err(RequestError::Codec(e)),
    }
}

fn require_protocol(h: Header) -> (r: Result<(), RequestError>)
    ensures
        r == spec_require_protocol(h),
{
    let raw = h.requester.get();
    if raw != 0 {
        Err(RequestError::Codec(CodecError::InvalidHeader(InvalidHeader::Requester(raw))))
    } else {
        Ok(())
    }
}

pub fn decode_port_state(id: ExtendedId, payload: &[u8]) -> (r: Result<PortState, RequestError>)
    ensures
        r == spec_decode_port_state(id.spec_get(), payload@),
{
    let h = header_of(id)?;
    if h.class != MessageClass::State {
        return Err(RequestError::Codec(CodecError::UnexpectedClass(h.class.code())));
    }
    if h.opcode != 0 {
        return Err(RequestError::Codec(CodecError::UnknownOpcode(h.opcode)));
    }
    check(require_priority(h.priority, 3))?;
    check(require_operational_node(h.node))?;
    require_protocol(h)?;
    check(require_len(payload, 16))?;
    check(require_zero_range(payload, 14, 16))?;
    let flags = rd_u16(payload, 2);
    require_port_state_flags(flags)?;
    let port = match PortId::new(h.target) {
        Ok(port) => port,
        Err(error) => {
            return Err(RequestError::InvalidPortId(error.0));
        },
    };
    Ok(
        PortState {
            node: h.node,
            port,
            sequence: rd_u16(payload, 0),
            flags: PortStateFlags(flags),
            faults: FaultFlags::from_bits_retain(rd_u32(payload, 4)),
            uptime_seconds: rd_u32(payload, 8),
            active_profile: payload[12],
            slot_generation: payload[13],
        },
    )
}

#[derive(Clone, Copy, Debug, PartialEq, Eq, Structural)]
pub struct PortPower {
    pub node: u8,
    pub port: PortId,
    pub sequence: u16,
    pub voltage_mv: u16,
    pub current_ma: u16,
    pub power_mw: u32,
    pub temperature_centi_c: i16,
    pub contract_voltage_mv: u16,
    pub contract_current_ma: u16,
}

pub open spec fn spec_port_power_payload(w: PortPower) -> Seq<u8> {
    put16(
        put16(
            put16(
                put32(put16(put16(put16(zeros(16), 0, w.sequence), 2, w.voltage_mv), 4, w.current_ma), 6, w.power_mw),
                10,
                w.temperature_centi_c as u16,
            ),
            12,
            w.contract_voltage_mv,
        ),
        14,
        w.contract_current_ma,
    )
}

pub open spec fn spec_encode_port_power(w: PortPower) -> Result<(u32, Seq<u8>), RequestError> {
    if let Err(e) = lift(spec_require_operational_node(w.node)) {
        Err(e)
    } else {
        match lift_header(
            spec_header_new(4, MessageClass::Telemetry, w.node, w.port.spec_get(), RequesterId::spec_new(0), 0),
        ) {
            Err(e) => Err(RequestError::Codec(e)),
            Ok(h) => lift_frame(spec_frame(h, spec_port_power_payload(w))),
        }
    }
}

pub fn encode_port_power(power: PortPower) -> (r: Result<WireFrame, RequestError>)
    ensures
        request_frame_matches(r, spec_encode_port_power(power)),
{
    check(require_operational_node(power.node))?;
    let header = match new_header(4, MessageClass::Telemetry, power.node, power.port.get(), RequesterId::PROTOCOL(), 0) {
        Ok(h) => h,
        Err(e) => {
            return Err(RequestError::Codec(e));
        },
    };
    let mut payload = vec![0u8; 16];
    put_u16(&mut payload, 0, power.sequence);
    put_u16(&mut payload, 2, power.voltage_mv);
    put_u16(&mut payload, 4, power.current_ma);
    put_u32(&mut payload, 6, power.power_mw);
    put_u16(&mut payload, 10, power.temperature_centi_c as u16);
    put_u16(&mut payload, 12, power.contract_voltage_mv);
    put_u16(&mut payload, 14, power.contract_current_ma);
    assert(payload@ == spec_port_power_payload(power));
    match finish_frame(header, payload.as_slice()) {
        Ok(f) => Ok(f),
        Err(e) => Err(RequestError::Codec(e)),
    }
}

pub open spec fn spec_decode_port_power(id: u32, p: Seq<u8>) -> Result<PortPower, RequestError> {
    match lift_header(spec_header_decode(id)) {
        Err(e) => Err(RequestError::Codec(e)),
        Ok(h) => if h.class != MessageClass::Telemetry {
            Err(RequestError::Codec(CodecError::UnexpectedClass(h.class.spec_code())))
        } else if h.opcode != 0 {
            Err(RequestError::Codec(CodecError::UnknownOpcode(h.opcode)))
        } else if let Err(e) = lift(spec_require_priority(h.priority, 4)) {
            Err(e)
        } else if let Err(e) = lift(spec_require_operational_node(h.node)) {
            Err(e)
        } else if let Err(e) = spec_require_protocol(h) {
            Err(e)
        } else if let Err(e) = lift(spec_require_len(p, 16)) {
            Err(e)
        } else if h.target >= 8 {
            Err(RequestError::InvalidPortId(h.target))
        } else {
            Ok(
                PortPower {
                    node: h.node,
                    port: PortId::spec_new(h.target),
                    sequence: rd16(p, 0),
                    voltage_mv: rd16(p, 2),
                    current_ma: rd16(p, 4),
                    power_mw: rd32(p, 6),
                    temperature_centi_c: rd16(p, 10) as i16,
                    contract_voltage_mv: rd16(p, 12),
                    contract_current_ma: rd16(p, 14),
                },
            )
        },
    }
}

pub fn decode_port_power(id: ExtendedId, payload: &[u8]) -> (r: Result<PortPower, RequestError>)
    ensures
        r == spec_decode_port_power(id.spec_get(), payload@),
{
    let h = header_of(id)?;
    if h.class != MessageClass::Telemetry {
        return Err(RequestError::Codec(CodecError::UnexpectedClass(h.class.code())));
    }
    if h.opcode != 0 {
        return Err(RequestError::Codec(CodecError::UnknownOpcode(h.opcode)));
    }
    check(require_priority(h.priority, 4))?;
    check(require_operational_node(h.node))?;
    require_protocol(h)?;
    check(require_len(payload, 16))?;
    let port = match PortId::new(h.target) {
        Ok(port) => port,
        Err(error) => {
            return Err(RequestError::InvalidPortId(error.0));
        },
    };
    Ok(
        PortPower {
            node: h.node,
            port,
            sequence: rd_u16(payload, 0),
            voltage_mv: rd_u16(payload, 2),
            current_ma: rd_u16(payload, 4),
            power_mw: rd_u32(payload, 6),
            temperature_centi_c: rd_u16(payload, 10) as i16,
            contract_voltage_mv: rd_u16(payload, 12),
            contract_current_ma: rd_u16(payload, 14),
        },
    )
}

/// Why the backpack last reset, one bit each: option byte, pin, power,
/// software, independent watchdog, window watchdog and low power.
#[derive(Clone, Copy, Debug, PartialEq, Eq, Structural)]
pub struct ResetFlags(pub u8);

impl ResetFlags {
    pub const OPTION_BYTE: u8 = 1;
    pub const PIN: u8 = 2;
    pub const POWER: u8 = 4;
    pub const SOFTWARE: u8 = 8;
    pub const INDEPENDENT_WATCHDOG: u8 = 16;
    pub const WINDOW_WATCHDOG: u8 = 32;
    pub const LOW_POWER: u8 = 64;

    pub fn from_bits(bits: u8) -> (r: Self)
        ensures
            r.0 == bits,
    {
        ResetFlags(bits)
    }

    pub fn bits(self) -> (r: u8)
        ensures
            r == self.0,
    {
        self.0
    }
}

#[derive(Clone, Copy, Debug, PartialEq, Eq)]
pub struct Heartbeat {
    pub node: u8,
    pub protocol_major: u8,
    pub protocol_minor: u8,
    pub firmware: FirmwareVersion,
    pub hardware_revision: u8,
    pub health_flags: u8,
    pub supported_ports: u8,
    pub online_ports: u8,
    pub enabled_ports: u8,
    pub faulted_ports: u8,
    pub emergency_latched: bool,
    pub commissioning_state: CommissioningState,
    pub reset_flags: ResetFlags,
    pub uptime_seconds: u32,
}

pub open spec fn spec_heartbeat_payload(b: Heartbeat) -> Seq<u8> {
    put32(
        put16(
            put16(
                put16(zeros(24).update(0, b.protocol_major).update(1, b.protocol_minor), 2, b.firmware.major),
                4,
                b.firmware.minor,
            ),
            6,
            b.firmware.patch,
        ).update(8, b.hardware_revision).update(9, b.health_flags).update(10, b.supported_ports).update(
            11,
            b.online_ports,
        ).update(12, b.enabled_ports).update(13, b.faulted_ports).update(
            14,
            if b.emergency_latched {
                1u8
            } else {
                0u8
            },
        ).update(15, b.commissioning_state.spec_code()).update(16, b.reset_flags.0),
        20,
        b.uptime_seconds,
    )
}

pub open spec fn spec_encode_heartbeat(b: Heartbeat) -> Result<(u32, Seq<u8>), RequestError> {
    if let Err(e) = lift(spec_require_operational_node(b.node)) {
        Err(e)
    } else {
        match lift_header(spec_header_new(5, MessageClass::Management, b.node, 0x0F, RequesterId::spec_new(0), 0)) {
            Err(e) => Err(RequestError::Codec(e)),
            Ok(h) => lift_frame(spec_frame(h, spec_heartbeat_payload(b))),
        }
    }
}

pub fn encode_heartbeat(heartbeat: Heartbeat) -> (r: Result<WireFrame, RequestError>)
    ensures
        request_frame_matches(r, spec_encode_heartbeat(heartbeat)),
{
    check(require_operational_node(heartbeat.node))?;
    let header = match new_header(5, MessageClass::Management, heartbeat.node, BOARD_TARGET, RequesterId::PROTOCOL(), 0) {
        Ok(h) => h,
        Err(e) => {
            return Err(RequestError::Codec(e));
        },
    };
    let mut payload = vec![0u8; 24];
    payload.set(0, heartbeat.protocol_major);
    payload.set(1, heartbeat.protocol_minor);
    put_u16(&mut payload, 2, heartbeat.firmware.major);
    put_u16(&mut payload, 4, heartbeat.firmware.minor);
    put_u16(&mut payload, 6, heartbeat.firmware.patch);
    payload.set(8, heartbeat.hardware_revision);
    payload.set(9, heartbeat.health_flags);
    payload.set(10, heartbeat.supported_ports);
    payload.set(11, heartbeat.online_ports);
    payload.set(12, heartbeat.enabled_ports);
    payload.set(13, heartbeat.faulted_ports);
    payload.set(14, if heartbeat.emergency_latched { 1 } else { 0 });
    payload.set(15, heartbeat.commissioning_state.code());
    payload.set(16, heartbeat.reset_flags.bits());
    put_u32(&mut payload, 20, heartbeat.uptime_seconds);
    assert(payload@ == spec_heartbeat_payload(heartbeat));
    match finish_frame(header, payload.as_slice()) {
        Ok(f) => Ok(f),
        Err(e) => Err(RequestError::Codec(e)),
    }
}

pub open spec fn spec_decode_heartbeat(id: u32, p: Seq<u8>) -> Result<Heartbeat, RequestError> {
    match lift_header(spec_header_decode(id)) {
        Err(e) => Err(RequestError::Codec(e)),
        Ok(h) => if h.class != MessageClass::Management {
            Err(RequestError::Codec(CodecError::UnexpectedClass(h.class.spec_code())))
        } else if h.opcode != 0 {
            Err(RequestError::Codec(CodecError::UnknownOpcode(h.opcode)))
        } else if let Err(e) = lift(spec_require_priority(h.priority, 5)) {
            Err(e)
        } else if let Err(e) = lift(spec_require_operational_node(h.node)) {
            Err(e)
        } else if let Err(e) = lift(spec_require_protocol_requester(h.requester)) {
            Err(e)
        } else if let Err(e) = lift(spec_require_target(h.target, 0x0F)) {
            Err(e)
        } else if let Err(e) = lift(spec_require_len(p, 24)) {
            Err(e)
        } else if let Err(e) = lift(spec_require_zero_range(p, 17, 20)) {
            Err(e)
        } else if p[14] > 1 {
            Err(RequestError::InvalidBoolean { offset: 14, value: p[14] })
        } else if p[16] & 0x80 != 0 {
            Err(RequestError::Codec(CodecError::Payload(PayloadError::InvalidValue { offset: 16, value: p[16] })))
        } else {
            match spec_decode_commissioning_state(p[15], 15) {
                Err(e) => Err(RequestError::Codec(e)),
                Ok(state) => Ok(
                    Heartbeat {
                        node: h.node,
                        protocol_major: p[0],
                        protocol_minor: p[1],
                        firmware: FirmwareVersion { major: rd16(p, 2), minor: rd16(p, 4), patch: rd16(p, 6) },
                        hardware_revision: p[8],
                        health_flags: p[9],
                        supported_ports: p[10],
                        online_ports: p[11],
                        enabled_ports: p[12],
                        faulted_ports: p[13],
                        emergency_latched: p[14] == 1,
                        commissioning_state: state,
                        reset_flags: ResetFlags(p[16]),
                        uptime_seconds: rd32(p, 20),
                    },
                ),
            }
        },
    }
}

pub fn decode_heartbeat(id: ExtendedId, payload: &[u8]) -> (r: Result<Heartbeat, RequestError>)
    ensures
        r == spec_decode_heartbeat(id.spec_get(), payload@),
{
    let h = header_of(id)?;
    if h.class != MessageClass::Management {
        return Err(RequestError::Codec(CodecError::UnexpectedClass(h.class.code())));
    }
    if h.opcode != 0 {
        return Err(RequestError::Codec(CodecError::UnknownOpcode(h.opcode)));
    }
    check(require_priority(h.priority, 5))?;
    check(require_operational_node(h.node))?;
    check(require_protocol_requester(h.requester))?;
    check(require_target(h.target, BOARD_TARGET))?;
    check(require_len(payload, 24))?;
    check(require_zero_range(payload, 17, 20))?;
    let emergency_latched = match payload[14] {
        0 => false,
        1 => true,
        value => {
            return Err(RequestError::InvalidBoolean { offset: 14, value });
        },
    };
    if payload[16] & 0x80 != 0 {
        return Err(RequestError::Codec(CodecError::Payload(PayloadError::InvalidValue { offset: 16, value: payload[16] })));
    }
    let state = match decode_commissioning_state(payload[15], 15) {
        Ok(state) => state,
        Err(e) => {
            return Err(RequestError::Codec(e));
        },
    };
    Ok(
        Heartbeat {
            node: h.node,
            protocol_major: payload[0],
            protocol_minor: payload[1],
            firmware: FirmwareVersion {
                major: rd_u16(payload, 2),
                minor: rd_u16(payload, 4),
                patch: rd_u16(payload, 6),
            },
            hardware_revision: payload[8],
            health_flags: payload[9],
            supported_ports: payload[10],
            online_ports: payload[11],
            enabled_ports: payload[12],
            faulted_ports: payload[13],
            emergency_latched,
            commissioning_state: state,
            reset_flags: ResetFlags(payload[16]),
            uptime_seconds: rd_u32(payload, 20),
        },
    )
}

#[derive(Clone, Copy, Debug, PartialEq, Eq)]
pub struct BoardInfo {
    pub node: u8,
    pub uid: NodeUid,
    pub commissioning_state: CommissioningState,
    pub hardware_revision: u8,
    pub supported_ports: u8,
    pub firmware: FirmwareVersion,
    pub protocol_major: u8,
    pub protocol_minor: u8,
}

pub open spec fn spec_board_info_payload(i: BoardInfo) -> Seq<u8> {
    put16(
        put16(
            put16(
                put_bytes(zeros(24), 0, i.uid.spec_bytes()).update(12, i.node).update(
                    13,
                    i.commissioning_state.spec_code(),
                ).update(14, i.hardware_revision).update(15, i.supported_ports),
                16,
                i.firmware.major,
            ),
            18,
            i.firmware.minor,
        ),
        20,
        i.firmware.patch,
    ).update(22, i.protocol_major).update(23, i.protocol_minor)
}

pub open spec fn spec_encode_board_info(i: BoardInfo) -> Result<(u32, Seq<u8>), RequestError> {
    if let Err(e) = lift(spec_require_operational_node(i.node)) {
        Err(e)
    } else {
        match lift_header(spec_header_new(5, MessageClass::Management, i.node, 0x0F, RequesterId::spec_new(0), 1)) {
            Err(e) => Err(RequestError::Codec(e)),
            Ok(h) => lift_frame(spec_frame(h, spec_board_info_payload(i))),
        }
    }
}

pub fn encode_board_info(info: BoardInfo) -> (r: Result<WireFrame, RequestError>)
    ensures
        request_frame_matches(r, spec_encode_board_info(info)),
{
    check(require_operational_node(info.node))?;
    let header = match new_header(5, MessageClass::Management, info.node, BOARD_TARGET, RequesterId::PROTOCOL(), 1) {
        Ok(h) => h,
        Err(e) => {
            return Err(RequestError::Codec(e));
        },
    };
    let mut payload = vec![0u8; 24];
    put_slice(&mut payload, 0, info.uid.as_bytes());
    payload.set(12, info.node);
    payload.set(13, info.commissioning_state.code());
    payload.set(14, info.hardware_revision);
    payload.set(15, info.supported_ports);
    put_u16(&mut payload, 16, info.firmware.major);
    put_u16(&mut payload, 18, info.firmware.minor);
    put_u16(&mut payload, 20, info.firmware.patch);
    payload.set(22, info.protocol_major);
    payload.set(23, info.protocol_minor);
    assert(payload@ == spec_board_info_payload(info));
    match finish_frame(header, payload.as_slice()) {
        Ok(f) => Ok(f),
        Err(e) => Err(RequestError::Codec(e)),
    }
}

pub open spec fn spec_decode_board_info(id: u32, p: Seq<u8>) -> Result<BoardInfo, RequestError> {
    match lift_header(spec_header_decode(id)) {
        Err(e) => Err(RequestError::Codec(e)),
        Ok(h) => if h.class != MessageClass::Management {
            Err(RequestError::Codec(CodecError::UnexpectedClass(h.class.spec_code())))
        } else if h.opcode != 1 {
            Err(RequestError::Codec(CodecError::UnknownOpcode(h.opcode)))
        } else if let Err(e) = lift(spec_require_priority(h.priority, 5)) {
            Err(e)
        } else if let Err(e) = lift(spec_require_operational_node(h.node)) {
            Err(e)
        } else if let Err(e) = lift(spec_require_protocol_requester(h.requester)) {
            Err(e)
        } else if let Err(e) = lift(spec_require_target(h.target, 0x0F)) {
            Err(e)
        } else if let Err(e) = lift(spec_require_len(p, 24)) {
            Err(e)
        } else if p[12] != h.node {
            Err(RequestError::Codec(CodecError::Payload(PayloadError::InvalidNodeId(p[12]))))
        } else {
            match spec_decode_commissioning_state(p[13], 13) {
                Err(e) => Err(RequestError::Codec(e)),
                Ok(state) => Ok(
                    BoardInfo {
                        node: h.node,
                        uid: rd_uid(p, 0),
                        commissioning_state: state,
                        hardware_revision: p[14],
                        supported_ports: p[15],
                        firmware: FirmwareVersion { major: rd16(p, 16), minor: rd16(p, 18), patch: rd16(p, 20) },
                        protocol_major: p[22],
                        protocol_minor: p[23],
                    },
                ),
            }
        },
    }
}

pub fn decode_board_info(id: ExtendedId, payload: &[u8]) -> (r: Result<BoardInfo, RequestError>)
    ensures
        r == spec_decode_board_info(id.spec_get(), payload@),
{
    let h = header_of(id)?;
    if h.class != MessageClass::Management {
        return Err(RequestError::Codec(CodecError::UnexpectedClass(h.class.code())));
    }
    if h.opcode != 1 {
        return Err(RequestError::Codec(CodecError::UnknownOpcode(h.opcode)));
    }
    check(require_priority(h.priority, 5))?;
    check(require_operational_node(h.node))?;
    check(require_protocol_requester(h.requester))?;
    check(require_target(h.target, BOARD_TARGET))?;
    check(require_len(payload, 24))?;
    if payload[12] != h.node {
        return Err(RequestError::Codec(CodecError::Payload(PayloadError::InvalidNodeId(payload[12]))));
    }
    let state = match decode_commissioning_state(payload[13], 13) {
        Ok(state) => state,
        Err(e) => {
            return Err(RequestError::Codec(e));
        },
    };
    Ok(
        BoardInfo {
            node: h.node,
            uid: read_uid(payload, 0),
            commissioning_state: state,
            hardware_revision: payload[14],
            supported_ports: payload[15],
            firmware: FirmwareVersion {
                major: rd_u16(payload, 16),
                minor: rd_u16(payload, 18),
                patch: rd_u16(payload, 20),
            },
            protocol_major: payload[22],
            protocol_minor: payload[23],
        },
    )
}

/// Every port state that can be sent decodes back to itself.
pub proof fn lemma_port_state_round_trip(s: PortState)
    requires
        s.port.spec_get() < 8,
        spec_encode_port_state(s) is Ok,
    ensures
        spec_decode_port_state(spec_encode_port_state(s)->Ok_0.0, spec_encode_port_state(s)->Ok_0.1)
            == Ok::<PortState, RequestError>(s),
{
    let h = Header {
        priority: 3,
        class: MessageClass::State,
        node: s.node,
        target: s.port.spec_get(),
        requester: RequesterId::spec_new(0),
        opcode: 0,
    };
    lemma_header_round_trip(h);
    let q0 = put16(zeros(16), 0, s.sequence);
    let q1 = put16(q0, 2, s.flags.0);
    let q2 = put32(q1, 4, s.faults.spec_bits());
    let p = spec_port_state_payload(s);
    lemma_rd_put16(zeros(16), 0, s.sequence);
    lemma_rd_put16(q0, 2, s.flags.0);
    lemma_rd_put32(q1, 4, s.faults.spec_bits());
    lemma_rd_put32(q2, 8, s.uptime_seconds);
    assert(rd16(p, 0) == rd16(q0, 0));
    assert(rd16(p, 2) == rd16(q1, 2));
    assert(rd32(p, 4) == rd32(q2, 4));
    lemma_first_nonzero_none(p, 14, 16);
    assert(PortId::spec_new(s.port.spec_get()) == s.port);
}

/// Every port power report that can be sent decodes back to itself.
pub proof fn lemma_port_power_round_trip(w: PortPower)
    requires
        w.port.spec_get() < 8,
        spec_encode_port_power(w) is Ok,
    ensures
        spec_decode_port_power(spec_encode_port_power(w)->Ok_0.0, spec_encode_port_power(w)->Ok_0.1)
            == Ok::<PortPower, RequestError>(w),
{
    let h = Header {
        priority: 4,
        class: MessageClass::Telemetry,
        node: w.node,
        target: w.port.spec_get(),
        requester: RequesterId::spec_new(0),
        opcode: 0,
    };
    lemma_header_round_trip(h);
    let t = w.temperature_centi_c;
    let q0 = put16(zeros(16), 0, w.sequence);
    let q1 = put16(q0, 2, w.voltage_mv);
    let q2 = put16(q1, 4, w.current_ma);
    let q3 = put32(q2, 6, w.power_mw);
    let q4 = put16(q3, 10, t as u16);
    let q5 = put16(q4, 12, w.contract_voltage_mv);
    let p = spec_port_power_payload(w);
    lemma_rd_put16(zeros(16), 0, w.sequence);
    lemma_rd_put16(q0, 2, w.voltage_mv);
    lemma_rd_put16(q1, 4, w.current_ma);
    lemma_rd_put32(q2, 6, w.power_mw);
    lemma_rd_put16(q3, 10, t as u16);
    lemma_rd_put16(q4, 12, w.contract_voltage_mv);
    lemma_rd_put16(q5, 14, w.contract_current_ma);
    assert(rd16(p, 0) == rd16(q0, 0));
    assert(rd16(p, 2) == rd16(q1, 2));
    assert(rd16(p, 4) == rd16(q2, 4));
    assert(rd32(p, 6) == rd32(q3, 6));
    assert(rd16(p, 10) == rd16(q4, 10));
    assert(rd16(p, 12) == rd16(q5, 12));
    assert((t as u16) as i16 == t) by (bit_vector);
    assert(PortId::spec_new(w.port.spec_get()) == w.port);
}

/// Every heartbeat with only known reset causes decodes back to itself.
pub proof fn lemma_heartbeat_round_trip(b: Heartbeat)
    requires
        b.reset_flags.0 < 0x80,
        spec_encode_heartbeat(b) is Ok,
    ensures
        spec_decode_heartbeat(spec_encode_heartbeat(b)->Ok_0.0, spec_encode_heartbeat(b)->Ok_0.1)
            == Ok::<Heartbeat, RequestError>(b),
{
    let h = Header {
        priority: 5,
        class: MessageClass::Management,
        node: b.node,
        target: 0x0F,
        requester: RequesterId::spec_new(0),
        opcode: 0,
    };
    lemma_header_round_trip(h);
    let q0 = zeros(24).update(0, b.protocol_major).update(1, b.protocol_minor);
    let q1 = put16(q0, 2, b.firmware.major);
    let q2 = put16(q1, 4, b.firmware.minor);
    let q3 = put16(q2, 6, b.firmware.patch);
    let q4 = q3.update(8, b.hardware_revision).update(9, b.health_flags).update(10, b.supported_ports).update(
        11,
        b.online_ports,
    ).update(12, b.enabled_ports).update(13, b.faulted_ports).update(
        14,
        if b.emergency_latched {
            1u8
        } else {
            0u8
        },
    ).update(15, b.commissioning_state.spec_code()).update(16, b.reset_flags.0);
    let p = spec_heartbeat_payload(b);
    lemma_rd_put16(q0, 2, b.firmware.major);
    lemma_rd_put16(q1, 4, b.firmware.minor);
    lemma_rd_put16(q2, 6, b.firmware.patch);
    lemma_rd_put32(q4, 20, b.uptime_seconds);
    assert(rd16(p, 2) == rd16(q1, 2));
    assert(rd16(p, 4) == rd16(q2, 4));
    assert(rd16(p, 6) == rd16(q3, 6));
    lemma_first_nonzero_none(p, 17, 20);
    let r = b.reset_flags.0;
    assert(r < 0x80 ==> r & 0x80 == 0) by (bit_vector);
}

/// Every board information report that can be sent decodes back to itself.
pub proof fn lemma_board_info_round_trip(i: BoardInfo)
    requires
        spec_encode_board_info(i) is Ok,
    ensures
        spec_decode_board_info(spec_encode_board_info(i)->Ok_0.0, spec_encode_board_info(i)->Ok_0.1)
            == Ok::<BoardInfo, RequestError>(i),
{
    let h = Header {
        priority: 5,
        class: MessageClass::Management,
        node: i.node,
        target: 0x0F,
        requester: RequesterId::spec_new(0),
        opcode: 1,
    };
    lemma_header_round_trip(h);
    let q0 = put_bytes(zeros(24), 0, i.uid.spec_bytes()).update(12, i.node).update(
        13,
        i.commissioning_state.spec_code(),
    ).update(14, i.hardware_revision).update(15, i.supported_ports);
    let q1 = put16(q0, 16, i.firmware.major);
    let q2 = put16(q1, 18, i.firmware.minor);
    let q3 = put16(q2, 20, i.firmware.patch);
    let p = spec_board_info_payload(i);
    lemma_rd_put16(q0, 16, i.firmware.major);
    lemma_rd_put16(q1, 18, i.firmware.minor);
    lemma_rd_put16(q2, 20, i.firmware.patch);
    assert(rd16(p, 16) == rd16(q1, 16));
    assert(rd16(p, 18) == rd16(q2, 18));
    assert(rd16(p, 20) == rd16(q3, 20));
    assert(p.subrange(0, 12) =~= i.uid.spec_bytes());
    lemma_rd_uid(p, 0, i.uid);
}

} // verus!
