//! The host tool's commands: the control command or commissioning request
//! that the words of a command line ask for, and which replies answer it.
use vstd::prelude::*;
use vstd::string::StringSliceAdditionalSpecFns;
use crate::codec::ControlCommand;
use crate::commissioning::CommissioningMessage;
use crate::protocol::ExtendedId;
use crate::telemetry::{
    decode_command_response, decode_node_info, decode_node_state, spec_decode_command_response,
    spec_decode_node_info, spec_decode_node_state, CommandResponse, CommandResult,
};
use crate::text::{
    arg_text, is_uid_text, is_word, parse_node, parse_u32, parse_u8, parse_uid, parse_radix,
    spec_parse_bounded, spec_parse_node, spec_parse_u64, spec_parse_u8, uid_from_hex,
    NodeTextError,
};
use crate::types::{
    group_type_lemmas, CarrierBinding, CarrierPolicy, FanConfig, FanId, NodeId, PdLimits,
    RequestId, RequesterId, SlotIndex,
};

verus! {

broadcast use group_type_lemmas;

/// The commands that take arguments.
#[derive(Clone, Copy, Debug, PartialEq, Eq, Structural)]
pub enum CommandKind {
    SetPolicy,
    SetFan,
    Bind,
    ClearBinding,
    EmergencyDisable,
    AcknowledgeResolved,
    Status,
    Identify,
    Assign,
    ClearNode,
}

/// Why a command's words are refused.
#[derive(Clone, Copy, Debug, PartialEq, Eq, Structural)]
pub enum CommandArgError {
    /// The words do not have the command's shape.
    Usage(CommandKind),
    /// Not exactly one of `--enabled` and `--disabled`.
    PolicyState,
    /// The option at this index needs a value after it.
    MissingValue { index: usize },
    /// The value at this index is no 32-bit integer.
    InvalidInteger { index: usize },
    /// Some but not all of the voltage, current and power limits.
    PartialLimits,
    InvalidNode(NodeTextError),
    InvalidFan,
    InvalidDuty,
    InvalidUid,
    InvalidSlot,
    InvalidSeconds,
}

pub open spec fn word_enabled() -> Seq<u8> {
    seq![0x2Du8, 0x2D, 0x65, 0x6E, 0x61, 0x62, 0x6C, 0x65, 0x64]
}

pub open spec fn word_disabled() -> Seq<u8> {
    seq![0x2Du8, 0x2D, 0x64, 0x69, 0x73, 0x61, 0x62, 0x6C, 0x65, 0x64]
}

pub open spec fn word_max_voltage() -> Seq<u8> {
    seq![0x2Du8, 0x2D, 0x6D, 0x61, 0x78, 0x2D, 0x76, 0x6F, 0x6C, 0x74, 0x61, 0x67, 0x65, 0x2D, 0x6D, 0x76]
}

pub open spec fn word_max_current() -> Seq<u8> {
    seq![0x2Du8, 0x2D, 0x6D, 0x61, 0x78, 0x2D, 0x63, 0x75, 0x72, 0x72, 0x65, 0x6E, 0x74, 0x2D, 0x6D, 0x61]
}

pub open spec fn word_max_power() -> Seq<u8> {
    seq![0x2Du8, 0x2D, 0x6D, 0x61, 0x78, 0x2D, 0x70, 0x6F, 0x77, 0x65, 0x72, 0x2D, 0x6D, 0x77]
}

pub open spec fn word_duty() -> Seq<u8> {
    seq![0x2Du8, 0x2D, 0x64, 0x75, 0x74, 0x79]
}

pub open spec fn word_all() -> Seq<u8> {
    seq![0x61u8, 0x6C, 0x6C]
}

pub open spec fn word_seconds() -> Seq<u8> {
    seq![0x2Du8, 0x2D, 0x73, 0x65, 0x63, 0x6F, 0x6E, 0x64, 0x73]
}

/// The first index at or after `from` of an argument that is `word`.
pub open spec fn position_from(args: Seq<String>, word: Seq<u8>, from: int) -> Option<int>
    decreases args.len() - from,
{
    if from < 0 || from >= args.len() {
        None
    } else if arg_text(args[from]) == word {
        Some(from)
    } else {
        position_from(args, word, from + 1)
    }
}

fn position(args: &Vec<String>, word: &[u8]) -> (r: Option<usize>)
    ensures
        r matches Some(i) ==> i < args@.len() && position_from(args@, word@, 0) == Some(i as int),
        r is None ==> position_from(args@, word@, 0) is None,
{
    let mut i: usize = 0;
    while i < args.len()
        invariant
            i <= args@.len(),
            position_from(args@, word@, 0) == position_from(args@, word@, i as int),
        decreases args@.len() - i,
    {
        if is_word(&args[i], word) {
            return Some(i);
        }
        i = i + 1;
    }
    None
}

/// The value of an option that may stand anywhere: none where the option
/// is absent, else the 32-bit integer after its first occurrence.
pub open spec fn spec_named_u32(args: Seq<String>, word: Seq<u8>) -> Result<Option<u32>, CommandArgError> {
    match position_from(args, word, 0) {
        None => Ok(None),
        Some(i) => if i + 1 >= args.len() {
            Err(CommandArgError::MissingValue { index: i as usize })
        } else {
            match spec_parse_u64(arg_text(args[i + 1])) {
                Some(v) => if v <= u32::MAX {
                    Ok(Some(v as u32))
                } else {
                    Err(CommandArgError::InvalidInteger { index: (i + 1) as usize })
                },
                None => Err(CommandArgError::InvalidInteger { index: (i + 1) as usize }),
            }
        },
    }
}

fn named_u32(args: &Vec<String>, word: &[u8]) -> (r: Result<Option<u32>, CommandArgError>)
    ensures
        r == spec_named_u32(args@, word@),
{
    let index = match position(args, word) {
        None => {
            return Ok(None);
        },
        Some(index) => index,
    };
    let n = args.len();
    if n - index <= 1 {
        return Err(CommandArgError::MissingValue { index });
    }
    let text = args[index + 1].as_str();
    assert(text.spec_bytes() == arg_text(args@[index + 1]));
    match parse_u32(text) {
        Some(v) => Ok(Some(v)),
        None => Err(CommandArgError::InvalidInteger { index: index + 1 }),
    }
}

pub open spec fn node_error<T>(r: Result<NodeId, NodeTextError>) -> Result<T, CommandArgError> {
    Err(CommandArgError::InvalidNode(r->Err_0))
}

/// `set-policy NODE (--enabled|--disabled) [--max-voltage-mv V --max-current-ma I --max-power-mw P]`:
/// the flags and limits may stand anywhere after the node, and the limits
/// come all together or not at all.
pub open spec fn spec_policy_command(args: Seq<String>) -> Result<(u8, ControlCommand), CommandArgError> {
    let enabled = position_from(args, word_enabled(), 0) is Some;
    let disabled = position_from(args, word_disabled(), 0) is Some;
    if args.len() == 0 {
        Err(CommandArgError::Usage(CommandKind::SetPolicy))
    } else if enabled == disabled {
        Err(CommandArgError::PolicyState)
    } else {
        match (
            spec_named_u32(args, word_max_voltage()),
            spec_named_u32(args, word_max_current()),
            spec_named_u32(args, word_max_power()),
        ) {
            (Err(e), _, _) => Err(e),
            (Ok(_), Err(e), _) => Err(e),
            (Ok(_), Ok(_), Err(e)) => Err(e),
            (Ok(voltage), Ok(current), Ok(power)) => {
                let any = voltage is Some || current is Some || power is Some;
                let all = voltage is Some && current is Some && power is Some;
                if any != all {
                    Err(CommandArgError::PartialLimits)
                } else {
                    match spec_parse_node(arg_text(args[0])) {
                        Err(e) => Err(CommandArgError::InvalidNode(e)),
                        Ok(node) => Ok(
                            (
                                node.spec_get(),
                                ControlCommand::SetCarrierPolicy(
                                    CarrierPolicy {
                                        enabled,
                                        pd_limits: if all {
                                            Some(
                                                PdLimits {
                                                    max_voltage_mv: voltage->Some_0,
                                                    max_current_ma: current->Some_0,
                                                    max_power_mw: power->Some_0,
                                                },
                                            )
                                        } else {
                                            None
                                        },
                                    },
                                ),
                            ),
                        ),
                    }
                }
            },
        }
    }
}

/// The node address and command of a `set-policy` command line.
pub fn policy_command(args: &Vec<String>) -> (r: Result<(u8, ControlCommand), CommandArgError>)
    ensures
        r == spec_policy_command(args@),
{
    let w_enabled = [0x2Du8, 0x2D, 0x65, 0x6E, 0x61, 0x62, 0x6C, 0x65, 0x64];
    assert(w_enabled@ =~= word_enabled());
    let w_disabled = [0x2Du8, 0x2D, 0x64, 0x69, 0x73, 0x61, 0x62, 0x6C, 0x65, 0x64];
    assert(w_disabled@ =~= word_disabled());
    let w_voltage = [
        0x2Du8, 0x2D, 0x6D, 0x61, 0x78, 0x2D, 0x76, 0x6F, 0x6C, 0x74, 0x61, 0x67, 0x65, 0x2D, 0x6D, 0x76,
    ];
    assert(w_voltage@ =~= word_max_voltage());
    let w_current = [
        0x2Du8, 0x2D, 0x6D, 0x61, 0x78, 0x2D, 0x63, 0x75, 0x72, 0x72, 0x65, 0x6E, 0x74, 0x2D, 0x6D, 0x61,
    ];
    assert(w_current@ =~= word_max_current());
    let w_power = [0x2Du8, 0x2D, 0x6D, 0x61, 0x78, 0x2D, 0x70, 0x6F, 0x77, 0x65, 0x72, 0x2D, 0x6D, 0x77];
    assert(w_power@ =~= word_max_power());
    if args.len() == 0 {
        return Err(CommandArgError::Usage(CommandKind::SetPolicy));
    }
    let enabled = position(args, &w_enabled).is_some();
    let disabled = position(args, &w_disabled).is_some();
    if enabled == disabled {
        return Err(CommandArgError::PolicyState);
    }
    let voltage = named_u32(args, &w_voltage)?;
    let current = named_u32(args, &w_current)?;
    let power = named_u32(args, &w_power)?;
    let any = voltage.is_some() || current.is_some() || power.is_some();
    let all = voltage.is_some() && current.is_some() && power.is_some();
    if any != all {
        return Err(CommandArgError::PartialLimits);
    }
    let text = args[0].as_str();
    assert(text.spec_bytes() == arg_text(args@[0]));
    let node = match parse_node(text) {
        Ok(node) => node,
        Err(e) => {
            return Err(CommandArgError::InvalidNode(e));
        },
    };
    let pd_limits = match (voltage, current, power) {
        (Some(max_voltage_mv), Some(max_current_ma), Some(max_power_mw)) => Some(
            PdLimits { max_voltage_mv, max_current_ma, max_power_mw },
        ),
        _ => None,
    };
    Ok((node.get(), ControlCommand::SetCarrierPolicy(CarrierPolicy { enabled, pd_limits })))
}

/// `set-fan NODE FAN --duty PERCENT`.
pub open spec fn spec_fan_command(args: Seq<String>) -> Result<(u8, ControlCommand), CommandArgError> {
    if args.len() < 4 || arg_text(args[2]) != word_duty() {
        Err(CommandArgError::Usage(CommandKind::SetFan))
    } else {
        match spec_parse_node(arg_text(args[0])) {
            Err(e) => Err(CommandArgError::InvalidNode(e)),
            Ok(node) => match spec_parse_u8(arg_text(args[1])) {
                None => Err(CommandArgError::InvalidFan),
                Some(raw) => if raw > 1 {
                    Err(CommandArgError::InvalidFan)
                } else {
                    match spec_parse_u8(arg_text(args[3])) {
                        None => Err(CommandArgError::InvalidDuty),
                        Some(duty_percent) => Ok(
                            (
                                node.spec_get(),
                                ControlCommand::SetFan {
                                    fan: FanId::spec_new(raw),
                                    config: FanConfig { duty_percent },
                                },
                            ),
                        ),
                    }
                },
            },
        }
    }
}

/// The node address and command of a `set-fan` command line.
pub fn fan_command(args: &Vec<String>) -> (r: Result<(u8, ControlCommand), CommandArgError>)
    ensures
        r == spec_fan_command(args@),
{
    let w_duty = [0x2Du8, 0x2D, 0x64, 0x75, 0x74, 0x79];
    assert(w_duty@ =~= word_duty());
    if args.len() < 4 || !is_word(&args[2], &w_duty) {
        return Err(CommandArgError::Usage(CommandKind::SetFan));
    }
    let node_text = args[0].as_str();
    assert(node_text.spec_bytes() == arg_text(args@[0]));
    let node = match parse_node(node_text) {
        Ok(node) => node,
        Err(e) => {
            return Err(CommandArgError::InvalidNode(e));
        },
    };
    let fan_text = args[1].as_str();
    assert(fan_text.spec_bytes() == arg_text(args@[1]));
    let fan = match parse_u8(fan_text) {
        None => {
            return Err(CommandArgError::InvalidFan);
        },
        Some(raw) => match FanId::new(raw) {
            Ok(fan) => fan,
            Err(_) => {
                return Err(CommandArgError::InvalidFan);
            },
        },
    };
    let duty_text = args[3].as_str();
    assert(duty_text.spec_bytes() == arg_text(args@[3]));
    let duty_percent = match parse_u8(duty_text) {
        None => {
            return Err(CommandArgError::InvalidDuty);
        },
        Some(duty) => duty,
    };
    Ok((node.get(), ControlCommand::SetFan { fan, config: FanConfig { duty_percent } }))
}

/// The node address and command of a `bind NODE BACKPLANE_UID SLOT`
/// command line.
pub fn bind_command(args: &Vec<String>) -> (r: Result<(u8, ControlCommand), CommandArgError>)
    ensures
        args@.len() != 3 ==> r == Err::<(u8, ControlCommand), CommandArgError>(
            CommandArgError::Usage(CommandKind::Bind),
        ),
        args@.len() == 3 ==> match spec_parse_node(arg_text(args@[0])) {
            Err(e) => r == Err::<(u8, ControlCommand), CommandArgError>(CommandArgError::InvalidNode(e)),
            Ok(node) => if !is_uid_text(arg_text(args@[1])) {
                r == Err::<(u8, ControlCommand), CommandArgError>(CommandArgError::InvalidUid)
            } else {
                match spec_parse_u8(arg_text(args@[2])) {
                    None => r == Err::<(u8, ControlCommand), CommandArgError>(CommandArgError::InvalidSlot),
                    Some(raw) => if raw > 0xFE {
                        r == Err::<(u8, ControlCommand), CommandArgError>(CommandArgError::InvalidSlot)
                    } else {
                        r matches Ok((n, ControlCommand::SetBinding(Some(b)))) && n == node.spec_get()
                            && b.backplane_uid.spec_bytes() == uid_from_hex(arg_text(args@[1]))
                            && b.slot == SlotIndex::spec_new(raw)
                    },
                }
            },
        },
{
    if args.len() != 3 {
        return Err(CommandArgError::Usage(CommandKind::Bind));
    }
    let node_text = args[0].as_str();
    assert(node_text.spec_bytes() == arg_text(args@[0]));
    let node = match parse_node(node_text) {
        Ok(node) => node,
        Err(e) => {
            return Err(CommandArgError::InvalidNode(e));
        },
    };
    let uid_text = args[1].as_str();
    assert(uid_text.spec_bytes() == arg_text(args@[1]));
    let backplane_uid = match parse_uid(uid_text) {
        Ok(uid) => uid,
        Err(_) => {
            return Err(CommandArgError::InvalidUid);
        },
    };
    let slot_text = args[2].as_str();
    assert(slot_text.spec_bytes() == arg_text(args@[2]));
    let slot = match parse_u8(slot_text) {
        None => {
            return Err(CommandArgError::InvalidSlot);
        },
        Some(raw) => match SlotIndex::new(raw) {
            Ok(slot) => slot,
            Err(_) => {
                return Err(CommandArgError::InvalidSlot);
            },
        },
    };
    Ok((node.get(), ControlCommand::SetBinding(Some(CarrierBinding { backplane_uid, slot }))))
}

/// The command a one-node command line asks for.
pub open spec fn single_node_command(kind: CommandKind) -> ControlCommand {
    match kind {
        CommandKind::ClearBinding => ControlCommand::SetBinding(None),
        CommandKind::EmergencyDisable => ControlCommand::EmergencyDisable,
        CommandKind::AcknowledgeResolved => ControlCommand::AcknowledgeEmergency,
        _ => ControlCommand::RequestStatus,
    }
}

/// `clear-binding NODE`, `emergency-disable NODE|all`,
/// `acknowledge-resolved NODE` and `status NODE`; only an emergency disable
/// may address every node at once.
pub open spec fn spec_node_command(kind: CommandKind, args: Seq<String>) -> Result<(u8, ControlCommand), CommandArgError> {
    if args.len() != 1 {
        Err(CommandArgError::Usage(kind))
    } else if kind == CommandKind::EmergencyDisable && arg_text(args[0]) == word_all() {
        Ok((0u8, ControlCommand::EmergencyDisable))
    } else {
        match spec_parse_node(arg_text(args[0])) {
            Err(e) => Err(CommandArgError::InvalidNode(e)),
            Ok(node) => Ok((node.spec_get(), single_node_command(kind))),
        }
    }
}

pub fn node_command(kind: CommandKind, args: &Vec<String>) -> (r: Result<(u8, ControlCommand), CommandArgError>)
    requires
        kind == CommandKind::ClearBinding || kind == CommandKind::EmergencyDisable || kind
            == CommandKind::AcknowledgeResolved || kind == CommandKind::Status,
    ensures
        r == spec_node_command(kind, args@),
{
    let w_all = [0x61u8, 0x6C, 0x6C];
    assert(w_all@ =~= word_all());
    if args.len() != 1 {
        return Err(CommandArgError::Usage(kind));
    }
    if kind == CommandKind::EmergencyDisable && is_word(&args[0], &w_all) {
        return Ok((0, ControlCommand::EmergencyDisable));
    }
    let node_text = args[0].as_str();
    assert(node_text.spec_bytes() == arg_text(args@[0]));
    let node = match parse_node(node_text) {
        Ok(node) => node,
        Err(e) => {
            return Err(CommandArgError::InvalidNode(e));
        },
    };
    let command = match kind {
        CommandKind::ClearBinding => ControlCommand::SetBinding(None),
        CommandKind::EmergencyDisable => ControlCommand::EmergencyDisable,
        CommandKind::AcknowledgeResolved => ControlCommand::AcknowledgeEmergency,
        _ => ControlCommand::RequestStatus,
    };
    Ok((node.get(), command))
}

/// Whether a command response answers the request this tool sent: same
/// requester, request identifier and command.
pub fn answers_command(
    response: &CommandResponse,
    requester: RequesterId,
    request_id: RequestId,
    command: ControlCommand,
) -> (r: bool)
    ensures
        r == (response.requester == requester && response.request_id == request_id
            && response.request_opcode == command.spec_opcode()),
{
    response.requester == requester && response.request_id == request_id && response.request_opcode
        == command.opcode()
}

/// A command succeeded only where the node says so; otherwise the result
/// it gave.
pub fn command_outcome(result: CommandResult) -> (r: Result<(), CommandResult>)
    ensures
        r == (if result == CommandResult::Success {
            Ok::<(), CommandResult>(())
        } else {
            Err(result)
        }),
{
    if result == CommandResult::Success {
        Ok(())
    } else {
        Err(result)
    }
}

/// The commissioning opcode a request of this kind is answered under.
pub open spec fn spec_commissioning_opcode(kind: CommandKind) -> u8 {
    match kind {
        CommandKind::Identify => 3,
        CommandKind::Assign => 4,
        _ => 5,
    }
}

/// `identify UID [--seconds S]` (ten seconds unless told), `assign UID NODE`
/// and `clear-node UID`.
pub fn commissioning_request(kind: CommandKind, args: &Vec<String>, request_id: RequestId) -> (r: Result<
    CommissioningMessage,
    CommandArgError,
>)
    requires
        kind == CommandKind::Identify || kind == CommandKind::Assign || kind == CommandKind::ClearNode,
    ensures
        ({
            let n = args@.len();
            let shaped = match kind {
                CommandKind::Identify => n == 1 || (n == 3 && arg_text(args@[1]) == word_seconds()),
                CommandKind::Assign => n == 2,
                _ => n == 1,
            };
            if !shaped {
                r == Err::<CommissioningMessage, CommandArgError>(CommandArgError::Usage(kind))
            } else if !is_uid_text(arg_text(args@[0])) {
                r == Err::<CommissioningMessage, CommandArgError>(CommandArgError::InvalidUid)
            } else {
                let uid_bytes = uid_from_hex(arg_text(args@[0]));
                match kind {
                    CommandKind::Identify => {
                        let seconds = if n == 1 {
                            Some(10int)
                        } else {
                            spec_parse_bounded(arg_text(args@[2]), 10, 0xFFFF)
                        };
                        match seconds {
                            None => r == Err::<CommissioningMessage, CommandArgError>(
                                CommandArgError::InvalidSeconds,
                            ),
                            Some(s) => r matches Ok(
                                CommissioningMessage::Identify { request_id: id, uid, duration_seconds },
                            ) && id == request_id && uid.spec_bytes() == uid_bytes && duration_seconds == s,
                        }
                    },
                    CommandKind::Assign => match spec_parse_node(arg_text(args@[1])) {
                        Err(e) => r == Err::<CommissioningMessage, CommandArgError>(
                            CommandArgError::InvalidNode(e),
                        ),
                        Ok(node) => r matches Ok(CommissioningMessage::AssignNode { request_id: id, uid, node_id })
                            && id == request_id && uid.spec_bytes() == uid_bytes && node_id == node,
                    },
                    _ => r matches Ok(CommissioningMessage::ClearNode { request_id: id, uid }) && id
                        == request_id && uid.spec_bytes() == uid_bytes,
                }
            }
        }),
{
    let w_seconds = [0x2Du8, 0x2D, 0x73, 0x65, 0x63, 0x6F, 0x6E, 0x64, 0x73];
    assert(w_seconds@ =~= word_seconds());
    let n = args.len();
    let shaped = match kind {
        CommandKind::Identify => n == 1 || (n == 3 && is_word(&args[1], &w_seconds)),
        CommandKind::Assign => n == 2,
        _ => n == 1,
    };
    if !shaped {
        return Err(CommandArgError::Usage(kind));
    }
    let uid_text = args[0].as_str();
    assert(uid_text.spec_bytes() == arg_text(args@[0]));
    let uid = match parse_uid(uid_text) {
        Ok(uid) => uid,
        Err(_) => {
            return Err(CommandArgError::InvalidUid);
        },
    };
    match kind {
        CommandKind::Identify => {
            let duration_seconds: u16 = if n == 1 {
                10
            } else {
                let text = args[2].as_str();
                assert(text.spec_bytes() == arg_text(args@[2]));
                match parse_radix(text.as_bytes(), 10) {
                    Some(value) => if value <= 0xFFFF {
                        value as u16
                    } else {
                        return Err(CommandArgError::InvalidSeconds);
                    },
                    None => {
                        return Err(CommandArgError::InvalidSeconds);
                    },
                }
            };
            Ok(CommissioningMessage::Identify { request_id, uid, duration_seconds })
        },
        CommandKind::Assign => {
            let node_text = args[1].as_str();
            assert(node_text.spec_bytes() == arg_text(args@[1]));
            match parse_node(node_text) {
                Ok(node_id) => Ok(CommissioningMessage::AssignNode { request_id, uid, node_id }),
                Err(e) => Err(CommandArgError::InvalidNode(e)),
            }
        },
        _ => Ok(CommissioningMessage::ClearNode { request_id, uid }),
    }
}

/// Whether a commissioning message is the result of the request this tool
/// sent: same request identifier and request opcode.
pub fn answers_commissioning(message: &CommissioningMessage, request_id: RequestId, kind: CommandKind) -> (r:
    bool)
    ensures
        r == (message matches CommissioningMessage::Result { request_id: id, request_opcode, .. } && id
            == request_id && request_opcode == spec_commissioning_opcode(kind)),
{
    let expected: u8 = match kind {
        CommandKind::Identify => 3,
        CommandKind::Assign => 4,
        _ => 5,
    };
    match message {
        CommissioningMessage::Result { request_id: id, request_opcode, .. } => *id == request_id
            && *request_opcode == expected,
        _ => false,
    }
}

/// Whether a discovery response belongs to this scan: it echoes the scan's
/// nonce and, where the scan looks for one node, comes from that node.
pub fn discovery_matches(nonce: u64, reply_nonce: u64, node_id: Option<NodeId>, filter: Option<NodeId>) -> (r:
    bool)
    ensures
        r == (reply_nonce == nonce && match filter {
            None => true,
            Some(node) => node_id == Some(node),
        }),
{
    reply_nonce == nonce && match filter {
        None => true,
        Some(node) => match node_id {
            Some(id) => id == node,
            None => false,
        },
    }
}

/// How far a status request has been answered: the command response, the
/// node's state and its information.
#[derive(Clone, Copy, Debug, PartialEq, Eq, Structural)]
pub struct StatusProgress {
    pub accepted: bool,
    pub received_state: bool,
    pub received_info: bool,
}

impl StatusProgress {
    pub fn new() -> (r: Self)
        ensures
            r == (StatusProgress { accepted: false, received_state: false, received_info: false }),
    {
        StatusProgress { accepted: false, received_state: false, received_info: false }
    }

    /// Whether the status is complete: accepted, with state and information.
    pub fn complete(&self) -> (r: bool)
        ensures
            r == (self.accepted && self.received_state && self.received_info),
    {
        self.accepted && self.received_state && self.received_info
    }
}

/// What one received frame adds to a status request of node `node`: a
/// command response to this request (an unsuccessful one ends the request
/// with its result), else the node's state, else its information; any other
/// frame changes nothing.
pub open spec fn spec_status_step(
    progress: StatusProgress,
    node: NodeId,
    requester: RequesterId,
    request_id: RequestId,
    id: u32,
    payload: Seq<u8>,
) -> Result<StatusProgress, CommandResult> {
    match spec_decode_command_response(id, payload) {
        Ok(response) if response.requester == requester && response.request_id == request_id
            && response.request_opcode == crate::protocol::control_opcode::REQUEST_STATUS => if response.result != CommandResult::Success {
            Err(response.result)
        } else {
            Ok(StatusProgress { accepted: true, ..progress })
        },
        _ => match spec_decode_node_state(id, payload) {
            Ok(state) if state.node == node.spec_get() => Ok(
                StatusProgress { received_state: true, ..progress },
            ),
            _ => match spec_decode_node_info(id, payload) {
                Ok(info) if info.node == node.spec_get() => Ok(
                    StatusProgress { received_info: true, ..progress },
                ),
                _ => Ok(progress),
            },
        },
    }
}

pub fn status_step(
    progress: StatusProgress,
    node: NodeId,
    requester: RequesterId,
    request_id: RequestId,
    id: ExtendedId,
    payload: &[u8],
) -> (r: Result<StatusProgress, CommandResult>)
    ensures
        r == spec_status_step(progress, node, requester, request_id, id.spec_get(), payload@),
{
    if let Ok(response) = decode_command_response(id, payload) {
        if response.requester == requester && response.request_id == request_id
            && response.request_opcode == crate::protocol::control_opcode::REQUEST_STATUS {
            if response.result != CommandResult::Success {
                return Err(response.result);
            }
            return Ok(StatusProgress { accepted: true, ..progress });
        }
    }
    if let Ok(state) = decode_node_state(id, payload) {
        if state.node == node.get() {
            return Ok(StatusProgress { received_state: true, ..progress });
        }
    }
    if let Ok(info) = decode_node_info(id, payload) {
        if info.node == node.get() {
            return Ok(StatusProgress { received_info: true, ..progress });
        }
    }
    Ok(progress)
}

/// A `set-fan NODE FAN --duty PERCENT` line drives exactly the fan it names:
/// when it is accepted, the command's fan is the FAN argument's value (0 or
/// 1), its duty is the PERCENT argument's value and its node the NODE
/// argument's address; and every line of that shape whose FAN is 0 or 1,
/// whose NODE is an address and whose PERCENT is a byte is accepted.
pub proof fn lemma_fan_command_drives_the_named_fan(args: Seq<String>)
    ensures
        match spec_fan_command(args) {
            Ok((node, command)) => match command {
                ControlCommand::SetFan { fan, config } => {
                    &&& spec_parse_u8(arg_text(args[1])) == Some(fan.spec_get())
                    &&& fan.spec_get() <= 1
                    &&& spec_parse_u8(arg_text(args[3])) == Some(config.duty_percent)
                    &&& spec_parse_node(arg_text(args[0])) matches Ok(n) && n.spec_get() == node
                },
                _ => false,
            },
            Err(_) => true,
        },
        (args.len() >= 4 && arg_text(args[2]) == word_duty() && spec_parse_node(arg_text(args[0])) is Ok
            && spec_parse_u8(arg_text(args[3])) is Some && match spec_parse_u8(arg_text(args[1])) {
            Some(raw) => raw <= 1,
            None => false,
        }) ==> spec_fan_command(args) is Ok,
{
}

/// The number written after the first occurrence of `word`, if any.
pub open spec fn value_after(args: Seq<String>, word: Seq<u8>) -> Option<u64> {
    match position_from(args, word, 0) {
        Some(i) => if i + 1 < args.len() {
            spec_parse_u64(arg_text(args[i + 1]))
        } else {
            None
        },
        None => None,
    }
}

/// An accepted `set-policy` line sets exactly the policy it names: the
/// node of its first word, enabled exactly when `--enabled` (and not
/// `--disabled`) is given, and either no limits or, when all three limit
/// words are given, the voltage, current and power written after
/// `--max-voltage-mv`, `--max-current-ma` and `--max-power-mw`.
pub proof fn lemma_policy_command_sets_the_named_policy(args: Seq<String>)
    ensures
        match spec_policy_command(args) {
            Ok((node, command)) => match command {
                ControlCommand::SetCarrierPolicy(policy) => {
                    &&& policy.enabled == (position_from(args, word_enabled(), 0) is Some)
                    &&& !policy.enabled == (position_from(args, word_disabled(), 0) is Some)
                    &&& (match spec_parse_node(arg_text(args[0])) {
                        Ok(n) => n.spec_get() == node,
                        Err(_) => false,
                    })
                    &&& match policy.pd_limits {
                        Some(l) => {
                            &&& value_after(args, word_max_voltage()) == Some(l.max_voltage_mv as u64)
                            &&& value_after(args, word_max_current()) == Some(l.max_current_ma as u64)
                            &&& value_after(args, word_max_power()) == Some(l.max_power_mw as u64)
                        },
                        None => {
                            &&& position_from(args, word_max_voltage(), 0) is None
                            &&& position_from(args, word_max_current(), 0) is None
                            &&& position_from(args, word_max_power(), 0) is None
                        },
                    }
                },
                _ => false,
            },
            Err(_) => true,
        },
{
}

/// An accepted one-node line addresses the node of its word (or every
/// node, for `emergency-disable all`) with the command of its kind.
pub proof fn lemma_node_command_addresses_the_named_node(kind: CommandKind, args: Seq<String>)
    ensures
        match spec_node_command(kind, args) {
            Ok((node, command)) => {
                &&& args.len() == 1
                &&& (kind == CommandKind::EmergencyDisable ==> command == ControlCommand::EmergencyDisable)
                &&& (kind == CommandKind::ClearBinding ==> command == ControlCommand::SetBinding(None))
                &&& (kind == CommandKind::AcknowledgeResolved ==> command == ControlCommand::AcknowledgeEmergency)
                &&& (kind == CommandKind::Status ==> command == ControlCommand::RequestStatus)
                &&& (node == 0 ==> kind == CommandKind::EmergencyDisable && arg_text(args[0]) == word_all())
                &&& (node != 0 ==> match spec_parse_node(arg_text(args[0])) {
                    Ok(n) => n.spec_get() == node,
                    Err(_) => false,
                })
            },
            Err(_) => true,
        },
{
}

} // verus!