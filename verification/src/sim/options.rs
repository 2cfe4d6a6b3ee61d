//! The simulator's command line: `--role`, `--profile`, `--update-impact`,
//! `--uid`, `--node`, `--interface` and `--max-requests`.
use vstd::prelude::*;
use vstd::string::StringSliceAdditionalSpecFns;
use crate::types::{group_type_lemmas, CarrierProfile, NodeId, NodeUid, UpdateImpact};
use crate::text::{
    arg_text, is_word, is_uid_text, parse_node, parse_profile, parse_radix, parse_uid,
    spec_parse_bounded, spec_parse_profile, spec_parse_u8, uid_from_hex, NodeTextError,
};
use crate::sim::SimulatedProfile;

verus! {

broadcast use group_type_lemmas;

pub open spec fn word_role() -> Seq<u8> {
    seq![0x2Du8, 0x2D, 0x72, 0x6F, 0x6C, 0x65]
}

pub open spec fn word_backplane() -> Seq<u8> {
    seq![0x62u8, 0x61, 0x63, 0x6B, 0x70, 0x6C, 0x61, 0x6E, 0x65]
}

pub open spec fn word_carrier() -> Seq<u8> {
    seq![0x63u8, 0x61, 0x72, 0x72, 0x69, 0x65, 0x72]
}

pub open spec fn word_profile() -> Seq<u8> {
    seq![0x2Du8, 0x2D, 0x70, 0x72, 0x6F, 0x66, 0x69, 0x6C, 0x65]
}

pub open spec fn word_update_impact() -> Seq<u8> {
    seq![0x2Du8, 0x2D, 0x75, 0x70, 0x64, 0x61, 0x74, 0x65, 0x2D, 0x69, 0x6D, 0x70, 0x61, 0x63, 0x74]
}

pub open spec fn word_live() -> Seq<u8> {
    seq![0x6Cu8, 0x69, 0x76, 0x65]
}

pub open spec fn word_interrupt() -> Seq<u8> {
    seq![0x69u8, 0x6E, 0x74, 0x65, 0x72, 0x72, 0x75, 0x70, 0x74]
}

pub open spec fn word_interface() -> Seq<u8> {
    seq![0x2Du8, 0x2D, 0x69, 0x6E, 0x74, 0x65, 0x72, 0x66, 0x61, 0x63, 0x65]
}

pub open spec fn word_interface_short() -> Seq<u8> {
    seq![0x2Du8, 0x69]
}

pub open spec fn word_uid() -> Seq<u8> {
    seq![0x2Du8, 0x2D, 0x75, 0x69, 0x64]
}

pub open spec fn word_node() -> Seq<u8> {
    seq![0x2Du8, 0x2D, 0x6E, 0x6F, 0x64, 0x65]
}

pub open spec fn word_none() -> Seq<u8> {
    seq![0x6Eu8, 0x6F, 0x6E, 0x65]
}

pub open spec fn word_max_requests() -> Seq<u8> {
    seq![0x2Du8, 0x2D, 0x6D, 0x61, 0x78, 0x2D, 0x72, 0x65, 0x71, 0x75, 0x65, 0x73, 0x74, 0x73]
}

/// The simulator's UID unless told otherwise: `PDCAN-SIM-01`.
pub open spec fn default_uid_bytes() -> Seq<u8> {
    seq![0x50u8, 0x44, 0x43, 0x41, 0x4E, 0x2D, 0x53, 0x49, 0x4D, 0x2D, 0x30, 0x31]
}

#[allow(non_snake_case)]
pub fn DEFAULT_UID() -> (r: NodeUid)
    ensures
        r.spec_bytes() == default_uid_bytes(),
{
    let bytes = [0x50u8, 0x44, 0x43, 0x41, 0x4E, 0x2D, 0x53, 0x49, 0x4D, 0x2D, 0x30, 0x31];
    assert(bytes@ =~= default_uid_bytes());
    NodeUid::from_bytes(bytes)
}

#[derive(Debug, PartialEq, Eq)]
pub struct Options {
    pub profile: SimulatedProfile,
    pub interface: Option<String>,
    pub uid: NodeUid,
    pub node_id: Option<NodeId>,
    pub max_requests: Option<usize>,
}

#[derive(Clone, Copy, Debug, PartialEq, Eq, Structural)]
pub enum OptionsError {
    /// The option at this argument index needs a value after it.
    MissingValue { index: usize },
    InvalidRole,
    InvalidProfile,
    InvalidUpdateImpact,
    InvalidUid,
    /// The node address at this argument index is refused.
    InvalidNode { index: usize, error: NodeTextError },
    /// The request count at this argument index is not a number.
    InvalidRequestCount { index: usize },
    ZeroRequests,
    /// The argument at this index is no option.
    UnknownOption { index: usize },
}

/// The options read so far.
pub struct OptionsModel {
    pub backplane: bool,
    pub profile: CarrierProfile,
    pub impact: UpdateImpact,
    pub interface: Option<Seq<char>>,
    pub uid: Seq<u8>,
    pub node_id: Option<NodeId>,
    pub max_requests: Option<usize>,
}

pub open spec fn default_options() -> OptionsModel {
    OptionsModel {
        backplane: false,
        profile: CarrierProfile::Sw3538,
        impact: UpdateImpact::Interrupt,
        interface: None,
        uid: default_uid_bytes(),
        node_id: Some(NodeId::spec_new(3)),
        max_requests: None,
    }
}

/// The options that `args` give from index `i` on, starting from `m`.
pub open spec fn spec_options_from(args: Seq<String>, i: int, m: OptionsModel) -> Result<OptionsModel, OptionsError>
    decreases args.len() - i,
{
    if i < 0 || i >= args.len() {
        Ok(m)
    } else {
        let o = arg_text(args[i]);
        let known = o == word_role() || o == word_profile() || o == word_update_impact() || o
            == word_interface() || o == word_interface_short() || o == word_uid() || o == word_node()
            || o == word_max_requests();
        if !known {
            Err(OptionsError::UnknownOption { index: i as usize })
        } else if i + 1 >= args.len() {
            Err(OptionsError::MissingValue { index: i as usize })
        } else {
            let v = arg_text(args[i + 1]);
            if o == word_role() {
                if v == word_backplane() {
                    spec_options_from(args, i + 2, OptionsModel { backplane: true, ..m })
                } else if v == word_carrier() {
                    spec_options_from(args, i + 2, OptionsModel { backplane: false, ..m })
                } else {
                    Err(OptionsError::InvalidRole)
                }
            } else if o == word_profile() {
                match spec_parse_profile(v) {
                    Some(profile) => spec_options_from(args, i + 2, OptionsModel { profile, ..m }),
                    None => Err(OptionsError::InvalidProfile),
                }
            } else if o == word_update_impact() {
                if v == word_live() {
                    spec_options_from(args, i + 2, OptionsModel { impact: UpdateImpact::Live, ..m })
                } else if v == word_interrupt() {
                    spec_options_from(args, i + 2, OptionsModel { impact: UpdateImpact::Interrupt, ..m })
                } else {
                    Err(OptionsError::InvalidUpdateImpact)
                }
            } else if o == word_interface() || o == word_interface_short() {
                spec_options_from(args, i + 2, OptionsModel { interface: Some(args[i + 1]@), ..m })
            } else if o == word_uid() {
                if is_uid_text(v) {
                    spec_options_from(args, i + 2, OptionsModel { uid: uid_from_hex(v), ..m })
                } else {
                    Err(OptionsError::InvalidUid)
                }
            } else if o == word_node() {
                if v == word_none() {
                    spec_options_from(args, i + 2, OptionsModel { node_id: None, ..m })
                } else {
                    match spec_parse_u8(v) {
                        None => Err(
                            OptionsError::InvalidNode { index: (i + 1) as usize, error: NodeTextError::Invalid },
                        ),
                        Some(raw) => if NodeId::valid_raw(raw) {
                            spec_options_from(
                                args,
                                i + 2,
                                OptionsModel { node_id: Some(NodeId::spec_new(raw)), ..m },
                            )
                        } else {
                            Err(
                                OptionsError::InvalidNode {
                                    index: (i + 1) as usize,
                                    error: NodeTextError::OutOfRange(raw),
                                },
                            )
                        },
                    }
                }
            } else {
                match spec_parse_bounded(v, 10, usize::MAX as int) {
                    None => Err(OptionsError::InvalidRequestCount { index: (i + 1) as usize }),
                    Some(n) => if n == 0 {
                        Err(OptionsError::ZeroRequests)
                    } else {
                        spec_options_from(args, i + 2, OptionsModel { max_requests: Some(n as usize), ..m })
                    },
                }
            }
        }
    }
}

/// The characters of an optional interface name.
pub open spec fn interface_view(interface: &Option<String>) -> Option<Seq<char>> {
    match interface {
        Some(s) => Some(s@),
        None => None,
    }
}

/// Whether parsed options are what a model of them says.
pub open spec fn options_match(o: Options, m: OptionsModel) -> bool {
    &&& o.profile == (if m.backplane {
        SimulatedProfile::Backplane
    } else {
        SimulatedProfile::Carrier { profile: m.profile, update_impact: m.impact }
    })
    &&& match (o.interface, m.interface) {
        (Some(s), Some(t)) => s@ == t,
        (None, None) => true,
        _ => false,
    }
    &&& o.uid.spec_bytes() == m.uid
    &&& o.node_id == m.node_id
    &&& o.max_requests == m.max_requests
}

/// Reads the simulator's options; later occurrences of an option win.
pub fn parse_options(arguments: &Vec<String>) -> (r: Result<Options, OptionsError>)
    ensures
        match spec_options_from(arguments@, 0, default_options()) {
            Ok(m) => r matches Ok(o) && options_match(o, m),
            Err(e) => r matches Err(f) && f == e,
        },
{
    let w_role = [0x2Du8, 0x2D, 0x72, 0x6F, 0x6C, 0x65];
    assert(w_role@ =~= word_role());
    let w_backplane = [0x62u8, 0x61, 0x63, 0x6B, 0x70, 0x6C, 0x61, 0x6E, 0x65];
    assert(w_backplane@ =~= word_backplane());
    let w_carrier = [0x63u8, 0x61, 0x72, 0x72, 0x69, 0x65, 0x72];
    assert(w_carrier@ =~= word_carrier());
    let w_profile = [0x2Du8, 0x2D, 0x70, 0x72, 0x6F, 0x66, 0x69, 0x6C, 0x65];
    assert(w_profile@ =~= word_profile());
    let w_update_impact = [0x2Du8, 0x2D, 0x75, 0x70, 0x64, 0x61, 0x74, 0x65, 0x2D, 0x69, 0x6D, 0x70, 0x61, 0x63, 0x74];
    assert(w_update_impact@ =~= word_update_impact());
    let w_live = [0x6Cu8, 0x69, 0x76, 0x65];
    assert(w_live@ =~= word_live());
    let w_interrupt = [0x69u8, 0x6E, 0x74, 0x65, 0x72, 0x72, 0x75, 0x70, 0x74];
    assert(w_interrupt@ =~= word_interrupt());
    let w_interface = [0x2Du8, 0x2D, 0x69, 0x6E, 0x74, 0x65, 0x72, 0x66, 0x61, 0x63, 0x65];
    assert(w_interface@ =~= word_interface());
    let w_interface_short = [0x2Du8, 0x69];
    assert(w_interface_short@ =~= word_interface_short());
    let w_uid = [0x2Du8, 0x2D, 0x75, 0x69, 0x64];
    assert(w_uid@ =~= word_uid());
    let w_node = [0x2Du8, 0x2D, 0x6E, 0x6F, 0x64, 0x65];
    assert(w_node@ =~= word_node());
    let w_none = [0x6Eu8, 0x6F, 0x6E, 0x65];
    assert(w_none@ =~= word_none());
    let w_max_requests = [0x2Du8, 0x2D, 0x6D, 0x61, 0x78, 0x2D, 0x72, 0x65, 0x71, 0x75, 0x65, 0x73, 0x74, 0x73];
    assert(w_max_requests@ =~= word_max_requests());
    let mut backplane = false;
    let mut carrier_profile = CarrierProfile::Sw3538;
    let mut impact = UpdateImpact::Interrupt;
    let mut interface: Option<String> = None;
    let mut uid = DEFAULT_UID();
    let mut node_id = match NodeId::new(3) {
        Ok(node) => Some(node),
        Err(_) => None,
    };
    let mut max_requests: Option<usize> = None;
    let mut index: usize = 0;
    let ghost start = default_options();
    while index < arguments.len()
        invariant
            index <= arguments@.len(),
            start == default_options(),
            w_role@ == word_role(),
            w_backplane@ == word_backplane(),
            w_carrier@ == word_carrier(),
            w_profile@ == word_profile(),
            w_update_impact@ == word_update_impact(),
            w_live@ == word_live(),
            w_interrupt@ == word_interrupt(),
            w_interface@ == word_interface(),
            w_interface_short@ == word_interface_short(),
            w_uid@ == word_uid(),
            w_node@ == word_node(),
            w_none@ == word_none(),
            w_max_requests@ == word_max_requests(),
            spec_options_from(arguments@, 0, start) == spec_options_from(
                arguments@,
                index as int,
                OptionsModel {
                    backplane,
                    profile: carrier_profile,
                    impact,
                    interface: interface_view(&interface),
                    uid: uid.spec_bytes(),
                    node_id,
                    max_requests,
                },
            ),
        decreases arguments@.len() - index,
    {
        let ghost m = OptionsModel {
            backplane,
            profile: carrier_profile,
            impact,
            interface: interface_view(&interface),
            uid: uid.spec_bytes(),
            node_id,
            max_requests,
        };
        let option = &arguments[index];
        let is_role = is_word(option, &w_role);
        let is_profile = is_word(option, &w_profile);
        let is_impact = is_word(option, &w_update_impact);
        let is_interface = is_word(option, &w_interface) || is_word(option, &w_interface_short);
        let is_uid = is_word(option, &w_uid);
        let is_node = is_word(option, &w_node);
        let is_max = is_word(option, &w_max_requests);
        if !(is_role || is_profile || is_impact || is_interface || is_uid || is_node || is_max) {
            assert(spec_options_from(arguments@, index as int, m) == Err::<OptionsModel, OptionsError>(
                OptionsError::UnknownOption { index },
            ));
            return Err(OptionsError::UnknownOption { index });
        }
        if index + 1 >= arguments.len() {
            assert(spec_options_from(arguments@, index as int, m) == Err::<OptionsModel, OptionsError>(
                OptionsError::MissingValue { index },
            ));
            return Err(OptionsError::MissingValue { index });
        }
        let value = &arguments[index + 1];
        let text = value.as_str();
        if is_role {
            if is_word(value, &w_backplane) {
                backplane = true;
            } else if is_word(value, &w_carrier) {
                backplane = false;
            } else {
                return Err(OptionsError::InvalidRole);
            }
        } else if is_profile {
            match parse_profile(text) {
                Ok(profile) => {
                    carrier_profile = profile;
                },
                Err(_) => {
                    return Err(OptionsError::InvalidProfile);
                },
            }
        } else if is_impact {
            if is_word(value, &w_live) {
                impact = UpdateImpact::Live;
            } else if is_word(value, &w_interrupt) {
                impact = UpdateImpact::Interrupt;
            } else {
                return Err(OptionsError::InvalidUpdateImpact);
            }
        } else if is_interface {
            interface = Some(value.clone());
        } else if is_uid {
            match parse_uid(text) {
                Ok(parsed) => {
                    uid = parsed;
                },
                Err(_) => {
                    return Err(OptionsError::InvalidUid);
                },
            }
        } else if is_node {
            if is_word(value, &w_none) {
                node_id = None;
            } else {
                match parse_node(text) {
                    Ok(node) => {
                        node_id = Some(node);
                    },
                    Err(e) => {
                        return Err(OptionsError::InvalidNode { index: index + 1, error: e });
                    },
                }
            }
        } else {
            let parsed = parse_radix(text.as_bytes(), 10);
            let ghost v = arg_text(arguments@[index + 1]);
            assert(text.spec_bytes() == v);
            match parsed {
                Some(count) => {
                    if count > usize::MAX as u64 {
                        assert(spec_parse_bounded(v, 10, usize::MAX as int) is None);
                        return Err(OptionsError::InvalidRequestCount { index: index + 1 });
                    }
                    assert(spec_parse_bounded(v, 10, usize::MAX as int) == Some(count as int));
                    if count == 0 {
                        return Err(OptionsError::ZeroRequests);
                    }
                    max_requests = Some(count as usize);
                },
                None => {
                    assert(spec_parse_bounded(v, 10, usize::MAX as int) is None);
                    return Err(OptionsError::InvalidRequestCount { index: index + 1 });
                },
            }
        }
        index = index + 2;
    }
    let profile = if backplane {
        SimulatedProfile::Backplane
    } else {
        SimulatedProfile::Carrier { profile: carrier_profile, update_impact: impact }
    };
    Ok(Options { profile, interface, uid, node_id, max_requests })
}

} // verus!
