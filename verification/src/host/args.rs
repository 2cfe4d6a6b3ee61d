//! The host tool's command line after the subcommand was chosen: the
//! network options that may stand anywhere in it, and the words left for
//! the command.
use vstd::prelude::*;
use vstd::string::StringSliceAdditionalSpecFns;
use crate::text::{arg_text, is_word, parse_u64, parse_u8, spec_parse_u64, spec_parse_u8};
use crate::types::{group_type_lemmas, RequestId, RequesterId};

verus! {

broadcast use group_type_lemmas;

pub open spec fn word_interface() -> Seq<u8> {
    seq![0x2Du8, 0x2D, 0x69, 0x6E, 0x74, 0x65, 0x72, 0x66, 0x61, 0x63, 0x65]
}

pub open spec fn word_interface_short() -> Seq<u8> {
    seq![0x2Du8, 0x69]
}

pub open spec fn word_requester() -> Seq<u8> {
    seq![0x2Du8, 0x2D, 0x72, 0x65, 0x71, 0x75, 0x65, 0x73, 0x74, 0x65, 0x72]
}

pub open spec fn word_request_id() -> Seq<u8> {
    seq![0x2Du8, 0x2D, 0x72, 0x65, 0x71, 0x75, 0x65, 0x73, 0x74, 0x2D, 0x69, 0x64]
}

pub open spec fn word_timeout() -> Seq<u8> {
    seq![0x2Du8, 0x2D, 0x74, 0x69, 0x6D, 0x65, 0x6F, 0x75, 0x74, 0x2D, 0x6D, 0x73]
}

pub open spec fn word_retries() -> Seq<u8> {
    seq![0x2Du8, 0x2D, 0x72, 0x65, 0x74, 0x72, 0x69, 0x65, 0x73]
}

pub open spec fn word_json() -> Seq<u8> {
    seq![0x2Du8, 0x2D, 0x6A, 0x73, 0x6F, 0x6E]
}

/// The options that take a value.
#[derive(Clone, Copy, Debug, PartialEq, Eq, Structural)]
pub enum NetworkOption {
    Interface,
    Requester,
    RequestId,
    TimeoutMs,
    Retries,
}

/// Why the network options are refused.
#[derive(Clone, Copy, Debug, PartialEq, Eq, Structural)]
pub enum NetworkArgError {
    /// The option needs a value after it.
    MissingValue(NetworkOption),
    /// The requester is no number from 0 through 15.
    InvalidRequester,
    /// Requester 0 is reserved for the protocol.
    ReservedRequester,
    /// The value at this argument index is no integer.
    InvalidInteger { index: usize },
    /// The timeout is outside 1 through 60000 milliseconds.
    InvalidTimeout,
    /// The retry count is outside 0 through 10.
    InvalidRetries,
}

/// The network options of a command line. Without `--request-id` the
/// caller makes one up.
#[derive(Debug)]
pub struct NetworkOptions {
    pub interface: String,
    pub requester: RequesterId,
    pub request_id: Option<RequestId>,
    pub timeout_ms: u64,
    pub retries: u8,
    pub json: bool,
}

pub struct NetworkModel {
    pub interface: Seq<char>,
    pub requester: RequesterId,
    pub request_id: Option<RequestId>,
    pub timeout_ms: u64,
    pub retries: u8,
    pub json: bool,
    /// The words left for the command, in order.
    pub command: Seq<Seq<char>>,
}

pub open spec fn default_network() -> NetworkModel {
    NetworkModel {
        interface: "can0"@,
        requester: RequesterId::spec_new(15),
        request_id: None,
        timeout_ms: 500,
        retries: 3,
        json: false,
        command: Seq::empty(),
    }
}

/// What `args` give from index `i` on, starting from `m`.
pub open spec fn spec_network_from(args: Seq<String>, i: int, m: NetworkModel) -> Result<
    NetworkModel,
    NetworkArgError,
>
    decreases args.len() - i,
{
    if i < 0 || i >= args.len() {
        Ok(m)
    } else {
        let o = arg_text(args[i]);
        if o == word_json() {
            spec_network_from(args, i + 1, NetworkModel { json: true, ..m })
        } else if o == word_interface() || o == word_interface_short() {
            if i + 1 >= args.len() {
                Err(NetworkArgError::MissingValue(NetworkOption::Interface))
            } else {
                spec_network_from(args, i + 2, NetworkModel { interface: args[i + 1]@, ..m })
            }
        } else if o == word_requester() {
            if i + 1 >= args.len() {
                Err(NetworkArgError::MissingValue(NetworkOption::Requester))
            } else {
                match spec_parse_u8(arg_text(args[i + 1])) {
                    None => Err(NetworkArgError::InvalidRequester),
                    Some(raw) => if raw > 15 {
                        Err(NetworkArgError::InvalidRequester)
                    } else if raw == 0 {
                        Err(NetworkArgError::ReservedRequester)
                    } else {
                        spec_network_from(
                            args,
                            i + 2,
                            NetworkModel { requester: RequesterId::spec_new(raw), ..m },
                        )
                    },
                }
            }
        } else if o == word_request_id() {
            if i + 1 >= args.len() {
                Err(NetworkArgError::MissingValue(NetworkOption::RequestId))
            } else {
                match spec_parse_u64(arg_text(args[i + 1])) {
                    None => Err(NetworkArgError::InvalidInteger { index: (i + 1) as usize }),
                    Some(id) => spec_network_from(
                        args,
                        i + 2,
                        NetworkModel { request_id: Some(RequestId(id)), ..m },
                    ),
                }
            }
        } else if o == word_timeout() {
            if i + 1 >= args.len() {
                Err(NetworkArgError::MissingValue(NetworkOption::TimeoutMs))
            } else {
                match spec_parse_u64(arg_text(args[i + 1])) {
                    None => Err(NetworkArgError::InvalidInteger { index: (i + 1) as usize }),
                    Some(t) => if t == 0 || t > 60_000 {
                        Err(NetworkArgError::InvalidTimeout)
                    } else {
                        spec_network_from(args, i + 2, NetworkModel { timeout_ms: t, ..m })
                    },
                }
            }
        } else if o == word_retries() {
            if i + 1 >= args.len() {
                Err(NetworkArgError::MissingValue(NetworkOption::Retries))
            } else {
                match spec_parse_u8(arg_text(args[i + 1])) {
                    None => Err(NetworkArgError::InvalidRetries),
                    Some(r) => if r > 10 {
                        Err(NetworkArgError::InvalidRetries)
                    } else {
                        spec_network_from(args, i + 2, NetworkModel { retries: r, ..m })
                    },
                }
            }
        } else {
            spec_network_from(args, i + 1, NetworkModel { command: m.command.push(args[i]@), ..m })
        }
    }
}

pub open spec fn words(command: Seq<String>) -> Seq<Seq<char>> {
    command.map_values(|s: String| s@)
}

/// Whether parsed options and command words are what a model says.
pub open spec fn network_matches(o: NetworkOptions, command: Seq<String>, m: NetworkModel) -> bool {
    &&& o.interface@ == m.interface
    &&& o.requester == m.requester
    &&& o.request_id == m.request_id
    &&& o.timeout_ms == m.timeout_ms
    &&& o.retries == m.retries
    &&& o.json == m.json
    &&& words(command) == m.command
}

/// Separates the network options from the command words; a later option
/// overrides an earlier one.
pub fn parse_network_options(arguments: &Vec<String>) -> (r: Result<
    (NetworkOptions, Vec<String>),
    NetworkArgError,
>)
    ensures
        match spec_network_from(arguments@, 0, default_network()) {
            Ok(m) => r matches Ok((o, command)) && network_matches(o, command@, m),
            Err(e) => r == Err::<(NetworkOptions, Vec<String>), NetworkArgError>(e),
        },
{
    let w_interface = [0x2Du8, 0x2D, 0x69, 0x6E, 0x74, 0x65, 0x72, 0x66, 0x61, 0x63, 0x65];
    assert(w_interface@ =~= word_interface());
    let w_interface_short = [0x2Du8, 0x69];
    assert(w_interface_short@ =~= word_interface_short());
    let w_requester = [0x2Du8, 0x2D, 0x72, 0x65, 0x71, 0x75, 0x65, 0x73, 0x74, 0x65, 0x72];
    assert(w_requester@ =~= word_requester());
    let w_request_id = [0x2Du8, 0x2D, 0x72, 0x65, 0x71, 0x75, 0x65, 0x73, 0x74, 0x2D, 0x69, 0x64];
    assert(w_request_id@ =~= word_request_id());
    let w_timeout = [0x2Du8, 0x2D, 0x74, 0x69, 0x6D, 0x65, 0x6F, 0x75, 0x74, 0x2D, 0x6D, 0x73];
    assert(w_timeout@ =~= word_timeout());
    let w_retries = [0x2Du8, 0x2D, 0x72, 0x65, 0x74, 0x72, 0x69, 0x65, 0x73];
    assert(w_retries@ =~= word_retries());
    let w_json = [0x2Du8, 0x2D, 0x6A, 0x73, 0x6F, 0x6E];
    assert(w_json@ =~= word_json());
    let mut interface = "can0".to_owned();
    let mut requester = RequesterId::PDCAN_DEFAULT();
    let mut request_id: Option<RequestId> = None;
    let mut timeout_ms: u64 = 500;
    let mut retries: u8 = 3;
    let mut json = false;
    let mut command: Vec<String> = Vec::new();
    let mut index: usize = 0;
    let ghost start = default_network();
    assert(words(command@) =~= Seq::<Seq<char>>::empty());
    while index < arguments.len()
        invariant
            index <= arguments@.len(),
            start == default_network(),
            w_interface@ == word_interface(),
            w_interface_short@ == word_interface_short(),
            w_requester@ == word_requester(),
            w_request_id@ == word_request_id(),
            w_timeout@ == word_timeout(),
            w_retries@ == word_retries(),
            w_json@ == word_json(),
            spec_network_from(arguments@, 0, start) == spec_network_from(
                arguments@,
                index as int,
                NetworkModel {
                    interface: interface@,
                    requester,
                    request_id,
                    timeout_ms,
                    retries,
                    json,
                    command: words(command@),
                },
            ),
        decreases arguments@.len() - index,
    {
        let ghost m = NetworkModel {
            interface: interface@,
            requester,
            request_id,
            timeout_ms,
            retries,
            json,
            command: words(command@),
        };
        let option = &arguments[index];
        if is_word(option, &w_json) {
            json = true;
            index = index + 1;
            continue;
        }
        let takes_value = is_word(option, &w_interface) || is_word(option, &w_interface_short)
            || is_word(option, &w_requester) || is_word(option, &w_request_id) || is_word(
            option,
            &w_timeout,
        ) || is_word(option, &w_retries);
        if !takes_value {
            command.push(option.clone());
            proof {
                assert(words(command@) =~= m.command.push(arguments@[index as int]@));
            }
            index = index + 1;
            continue;
        }
        if index + 1 >= arguments.len() {
            let which = if is_word(option, &w_interface) || is_word(option, &w_interface_short) {
                NetworkOption::Interface
            } else if is_word(option, &w_requester) {
                NetworkOption::Requester
            } else if is_word(option, &w_request_id) {
                NetworkOption::RequestId
            } else if is_word(option, &w_timeout) {
                NetworkOption::TimeoutMs
            } else {
                NetworkOption::Retries
            };
            return Err(NetworkArgError::MissingValue(which));
        }
        let value = &arguments[index + 1];
        let text = value.as_str();
        if is_word(option, &w_interface) || is_word(option, &w_interface_short) {
            interface = value.clone();
        } else if is_word(option, &w_requester) {
            match parse_u8(text) {
                None => {
                    return Err(NetworkArgError::InvalidRequester);
                },
                Some(raw) => {
                    if raw > 15 {
                        return Err(NetworkArgError::InvalidRequester);
                    }
                    if raw == 0 {
                        return Err(NetworkArgError::ReservedRequester);
                    }
                    requester = match RequesterId::new(raw) {
                        Ok(r) => r,
                        Err(_) => {
                            return Err(NetworkArgError::InvalidRequester);
                        },
                    };
                },
            }
        } else if is_word(option, &w_request_id) {
            match parse_u64(text) {
                None => {
                    return Err(NetworkArgError::InvalidInteger { index: index + 1 });
                },
                Some(id) => {
                    request_id = Some(RequestId(id));
                },
            }
        } else if is_word(option, &w_timeout) {
            match parse_u64(text) {
                None => {
                    return Err(NetworkArgError::InvalidInteger { index: index + 1 });
                },
                Some(t) => {
                    if t == 0 || t > 60_000 {
                        return Err(NetworkArgError::InvalidTimeout);
                    }
                    timeout_ms = t;
                },
            }
        } else {
            match parse_u8(text) {
                None => {
                    return Err(NetworkArgError::InvalidRetries);
                },
                Some(r) => {
                    if r > 10 {
                        return Err(NetworkArgError::InvalidRetries);
                    }
                    retries = r;
                },
            }
        }
        index = index + 2;
    }
    Ok((NetworkOptions { interface, requester, request_id, timeout_ms, retries, json }, command))
}

} // verus!
