//! The workspace tool's logic: the firmware targets it builds, version
//! numbers on its command line, flash and RAM budgets, the manifest of an
//! update bundle, and the CAN database text rendered from the message
//! registry. Running cargo, reading and writing files stay with the caller.
use vstd::prelude::*;
use vstd::string::StringSliceAdditionalSpecFns;
use crate::commissioning::{spec_commissioning_header_encode, CommissioningHeader};
use crate::protocol::definitions::{registry_consistent, spec_message_definitions, MESSAGE_DEFINITIONS};
use crate::protocol::{
    spec_header_encode, Header, MessageClass, MessageDefinition, MessageSender, TargetKind,
    NODE_TARGET,
};
use crate::artifact::{build_unsigned, sha256, sha256_of, spec_unsigned_header, BundleError};
use crate::text::{bytes_equal, parse_radix, spec_parse_bounded};
use crate::types::{
    CarrierProfile, FirmwareVersion, HardwareRevision, ImageTarget, NodeRole, RequesterId,
    Sha256Digest, UpdateManifest,
};

verus! {

pub open spec fn digit_char(d: int) -> char {
    (48 + d) as char
}

/// The decimal digits of `n`, most significant first.
pub open spec fn decimal(n: nat) -> Seq<char>
    decreases n,
{
    if n < 10 {
        seq![digit_char(n as int)]
    } else {
        decimal(n / 10).push(digit_char((n % 10) as int))
    }
}

fn digit_str(d: u64) -> (r: &'static str)
    requires
        d < 10,
    ensures
        r@ == seq![digit_char(d as int)],
{
    match d {
        0 => {
            proof {
                reveal_strlit("0");
            }
            "0"
        },
        1 => {
            proof {
                reveal_strlit("1");
            }
            "1"
        },
        2 => {
            proof {
                reveal_strlit("2");
            }
            "2"
        },
        3 => {
            proof {
                reveal_strlit("3");
            }
            "3"
        },
        4 => {
            proof {
                reveal_strlit("4");
            }
            "4"
        },
        5 => {
            proof {
                reveal_strlit("5");
            }
            "5"
        },
        6 => {
            proof {
                reveal_strlit("6");
            }
            "6"
        },
        7 => {
            proof {
                reveal_strlit("7");
            }
            "7"
        },
        8 => {
            proof {
                reveal_strlit("8");
            }
            "8"
        },
        _ => {
            proof {
                reveal_strlit("9");
            }
            "9"
        },
    }
}

fn append_decimal(out: &mut String, n: u64)
    ensures
        final(out)@ == old(out)@ + decimal(n as nat),
    decreases n,
{
    if n >= 10 {
        append_decimal(out, n / 10);
    }
    out.append(digit_str(n % 10));
}

/// The database's opening lines: version, the two nodes and a comment on
/// how identifiers are chosen.
pub open spec fn dbc_prelude() -> Seq<char> {
    "VERSION \"PDCAN Gen-2; generated by cargo xtask dbc\"\n\nNS_ :\n\nBS_:\n\nBU_: Node Host\n\n"@
        + "CM_ \"Generated from pdcan_protocol::MESSAGE_DEFINITIONS. Operational IDs use node 1, target 15 (or fan 0), and requester 15; commissioning IDs use representative token 1.\";\n\n"@
}

/// The representative requester of a message: the host tool's default for
/// requester-scoped messages, the protocol's otherwise.
pub open spec fn dbc_requester(d: MessageDefinition) -> RequesterId {
    if d.requester_scoped {
        RequesterId::spec_new(15)
    } else {
        RequesterId::spec_new(0)
    }
}

/// The representative identifier of a message: node 1, target 15 (fan 0
/// for fan messages), or token 1 for commissioning messages.
pub open spec fn dbc_raw_id(d: MessageDefinition) -> u32 {
    if d.class == MessageClass::Commissioning {
        spec_commissioning_header_encode(
            CommissioningHeader {
                priority: d.priority,
                token: 1,
                requester: dbc_requester(d),
                opcode: d.opcode,
            },
        )
    } else {
        spec_header_encode(
            Header {
                priority: d.priority,
                class: d.class,
                node: 1,
                target: if d.target == TargetKind::Fan {
                    0
                } else {
                    15
                },
                requester: dbc_requester(d),
                opcode: d.opcode,
            },
        )
    }
}

pub open spec fn transmitter(sender: MessageSender) -> Seq<char> {
    match sender {
        MessageSender::Host => "Host"@,
        MessageSender::Node => "Node"@,
    }
}

pub open spec fn request_id_signal() -> Seq<char> {
    " SG_ RequestId : 0|64@1+ (1,0) [0|1.8446744073709552e+19] \"\" Vector__XXX\n"@
}

/// The database entry of one message: its extended identifier, name,
/// length and sender, and the request identifier signal where it has one.
pub open spec fn dbc_message(d: MessageDefinition) -> Seq<char> {
    "BO_ "@ + decimal((dbc_raw_id(d) | 0x8000_0000u32) as nat) + " PDCAN_"@ + d.name@ + ": "@
        + decimal(d.payload_len as nat) + " "@ + transmitter(d.sender) + "\n"@ + (if d.has_request_id {
        request_id_signal()
    } else {
        Seq::empty()
    }) + "\n"@
}

pub open spec fn dbc_messages(defs: Seq<MessageDefinition>) -> Seq<char>
    decreases defs.len(),
{
    if defs.len() == 0 {
        Seq::empty()
    } else {
        dbc_messages(defs.drop_last()) + dbc_message(defs.last())
    }
}

/// The whole database: the opening lines, then one entry per registered
/// message in registry order.
pub open spec fn dbc_text() -> Seq<char> {
    dbc_prelude() + dbc_messages(spec_message_definitions())
}

/// The representative identifier of a registered message, as the header
/// builders compute it.
fn definition_id(d: MessageDefinition) -> (r: Result<u32, String>)
    requires
        d.priority <= 7,
        d.opcode <= 63,
    ensures
        r matches Ok(id) && id == dbc_raw_id(d),
{
    broadcast use crate::protocol::group_id_lemmas;
    broadcast use crate::types::group_type_lemmas;

    let target: u8 = match d.target {
        TargetKind::Fan => 0,
        _ => NODE_TARGET,
    };
    let requester = if d.requester_scoped {
        RequesterId::PDCAN_DEFAULT()
    } else {
        RequesterId::PROTOCOL()
    };
    if d.class == MessageClass::Commissioning {
        match CommissioningHeader::new(d.priority, 1, requester, d.opcode) {
            Ok(header) => Ok(header.encode().get()),
            Err(_) => Err("invalid commissioning definition".to_owned()),
        }
    } else {
        match Header::new(d.priority, d.class, 1, target, requester, d.opcode) {
            Ok(header) => Ok(header.encode().get()),
            Err(_) => Err("invalid operational definition".to_owned()),
        }
    }
}

fn append_message(output: &mut String, d: MessageDefinition, id: u32)
    requires
        id == dbc_raw_id(d),
    ensures
        final(output)@ == old(output)@ + dbc_message(d),
{
    output.append("BO_ ");
    append_decimal(output, (id | 0x8000_0000u32) as u64);
    output.append(" PDCAN_");
    output.append(d.name);
    output.append(": ");
    append_decimal(output, d.payload_len as u64);
    output.append(" ");
    match d.sender {
        MessageSender::Host => output.append("Host"),
        MessageSender::Node => output.append("Node"),
    }
    output.append("\n");
    if d.has_request_id {
        output.append(" SG_ RequestId : 0|64@1+ (1,0) [0|1.8446744073709552e+19] \"\" Vector__XXX\n");
    }
    output.append("\n");
    assert(output@ =~= old(output)@ + dbc_message(d));
}

/// Renders the CAN database of every registered message.
pub fn render_dbc() -> (r: Result<String, String>)
    ensures
        r matches Ok(text) && text@ == dbc_text(),
{
    let definitions = MESSAGE_DEFINITIONS();
    let mut output = String::from_str(
        "VERSION \"PDCAN Gen-2; generated by cargo xtask dbc\"\n\nNS_ :\n\nBS_:\n\nBU_: Node Host\n\n",
    );
    output.append(
        "CM_ \"Generated from pdcan_protocol::MESSAGE_DEFINITIONS. Operational IDs use node 1, target 15 (or fan 0), and requester 15; commissioning IDs use representative token 1.\";\n\n",
    );
    let mut i: usize = 0;
    while i < definitions.len()
        invariant
            definitions@ == spec_message_definitions(),
            registry_consistent(definitions@),
            i <= definitions@.len(),
            output@ == dbc_prelude() + dbc_messages(definitions@.take(i as int)),
        decreases definitions@.len() - i,
    {
        let d = definitions[i];
        let id = match definition_id(d) {
            Ok(id) => id,
            Err(error) => {
                return Err(error);
            },
        };
        append_message(&mut output, d, id);
        proof {
            assert(definitions@.take(i + 1).drop_last() =~= definitions@.take(i as int));
        }
        i = i + 1;
    }
    assert(definitions@.take(definitions@.len() as int) =~= definitions@);
    Ok(output)
}

/// The firmware images the workspace builds.
#[derive(Clone, Copy, Debug, PartialEq, Eq, Structural)]
pub enum FirmwareTarget {
    Backplane,
    Carrier,
    Bootloader,
}

pub open spec fn word_backplane() -> Seq<u8> {
    seq![0x62u8, 0x61, 0x63, 0x6B, 0x70, 0x6C, 0x61, 0x6E, 0x65]
}

pub open spec fn word_carrier() -> Seq<u8> {
    seq![0x63u8, 0x61, 0x72, 0x72, 0x69, 0x65, 0x72]
}

pub open spec fn word_bootloader() -> Seq<u8> {
    seq![0x62u8, 0x6F, 0x6F, 0x74, 0x6C, 0x6F, 0x61, 0x64, 0x65, 0x72]
}

/// The target a command-line word names.
pub open spec fn spec_parse_target(word: Seq<u8>) -> Option<FirmwareTarget> {
    if word == word_backplane() {
        Some(FirmwareTarget::Backplane)
    } else if word == word_carrier() {
        Some(FirmwareTarget::Carrier)
    } else if word == word_bootloader() {
        Some(FirmwareTarget::Bootloader)
    } else {
        None
    }
}

/// A word that names no firmware target.
#[derive(Clone, Copy, Debug, PartialEq, Eq, Structural)]
pub struct UnsupportedTarget;

impl FirmwareTarget {
    #[allow(non_snake_case)]
    pub fn ALL() -> (r: [FirmwareTarget; 3])
        ensures
            r@ == seq![FirmwareTarget::Backplane, FirmwareTarget::Carrier, FirmwareTarget::Bootloader],
    {
        let r = [FirmwareTarget::Backplane, FirmwareTarget::Carrier, FirmwareTarget::Bootloader];
        assert(r@ =~= seq![FirmwareTarget::Backplane, FirmwareTarget::Carrier, FirmwareTarget::Bootloader]);
        r
    }

    pub fn name(self) -> (r: &'static str)
        ensures
            r@ == (match self {
                FirmwareTarget::Backplane => "backplane"@,
                FirmwareTarget::Carrier => "carrier"@,
                FirmwareTarget::Bootloader => "bootloader"@,
            }),
    {
        match self {
            FirmwareTarget::Backplane => "backplane",
            FirmwareTarget::Carrier => "carrier",
            FirmwareTarget::Bootloader => "bootloader",
        }
    }

    /// The cargo package that builds the target.
    pub fn package(self) -> (r: &'static str)
        ensures
            r@ == (match self {
                FirmwareTarget::Backplane => "backplane-firmware"@,
                FirmwareTarget::Carrier => "carrier-firmware"@,
                FirmwareTarget::Bootloader => "pdcan-bootloader"@,
            }),
    {
        match self {
            FirmwareTarget::Backplane => "backplane-firmware",
            FirmwareTarget::Carrier => "carrier-firmware",
            FirmwareTarget::Bootloader => "pdcan-bootloader",
        }
    }

    /// The binary the package builds.
    pub fn binary(self) -> (r: &'static str)
        ensures
            r@ == (match self {
                FirmwareTarget::Backplane => "backplane"@,
                FirmwareTarget::Carrier => "carrier"@,
                FirmwareTarget::Bootloader => "pdcan-bootloader"@,
            }),
    {
        match self {
            FirmwareTarget::Backplane => "backplane",
            FirmwareTarget::Carrier => "carrier",
            FirmwareTarget::Bootloader => "pdcan-bootloader",
        }
    }

    /// The cargo features the binary needs, if any.
    pub fn features(self) -> (r: Option<&'static str>)
        ensures
            match self {
                FirmwareTarget::Bootloader => r is None,
                _ => r matches Some(f) && f@ == "firmware-bin"@,
            },
    {
        match self {
            FirmwareTarget::Bootloader => None,
            _ => Some("firmware-bin"),
        }
    }

    pub fn parse(value: &str) -> (r: Result<FirmwareTarget, UnsupportedTarget>)
        ensures
            r == (match spec_parse_target(value.spec_bytes()) {
                Some(target) => Ok::<FirmwareTarget, UnsupportedTarget>(target),
                None => Err(UnsupportedTarget),
            }),
    {
        let backplane = [0x62u8, 0x61, 0x63, 0x6B, 0x70, 0x6C, 0x61, 0x6E, 0x65];
        let carrier = [0x63u8, 0x61, 0x72, 0x72, 0x69, 0x65, 0x72];
        let bootloader = [0x62u8, 0x6F, 0x6F, 0x74, 0x6C, 0x6F, 0x61, 0x64, 0x65, 0x72];
        assert(backplane@ =~= word_backplane());
        assert(carrier@ =~= word_carrier());
        assert(bootloader@ =~= word_bootloader());
        let bytes = value.as_bytes();
        if bytes_equal(bytes, &backplane) {
            Ok(FirmwareTarget::Backplane)
        } else if bytes_equal(bytes, &carrier) {
            Ok(FirmwareTarget::Carrier)
        } else if bytes_equal(bytes, &bootloader) {
            Ok(FirmwareTarget::Bootloader)
        } else {
            Err(UnsupportedTarget)
        }
    }
}

/// Why a version number is refused: not three dot-separated components,
/// or a component that is no unsigned 16-bit integer.
#[derive(Clone, Copy, Debug, PartialEq, Eq, Structural)]
pub enum VersionError {
    Shape,
    Component,
}

/// The first dot at or after `from`, or the end.
pub open spec fn find_dot(s: Seq<u8>, from: int) -> int
    decreases s.len() - from,
{
    if from >= s.len() {
        s.len() as int
    } else if s[from] == 0x2E {
        from
    } else {
        find_dot(s, from + 1)
    }
}

pub open spec fn parse_component(s: Seq<u8>, start: int, end: int) -> Option<u16> {
    match spec_parse_bounded(s.subrange(start, end), 10, 0xFFFF) {
        Some(v) => Some(v as u16),
        None => None,
    }
}

/// `MAJOR.MINOR.PATCH` as the workspace tool reads it: the components are
/// read in order, each must be an unsigned 16-bit integer, and there must be
/// exactly three.
pub open spec fn spec_parse_version(s: Seq<u8>) -> Result<FirmwareVersion, VersionError> {
    let d0 = find_dot(s, 0);
    match parse_component(s, 0, d0) {
        None => Err(VersionError::Component),
        Some(major) => if d0 >= s.len() {
            Err(VersionError::Shape)
        } else {
            let d1 = find_dot(s, d0 + 1);
            match parse_component(s, d0 + 1, d1) {
                None => Err(VersionError::Component),
                Some(minor) => if d1 >= s.len() {
                    Err(VersionError::Shape)
                } else {
                    let d2 = find_dot(s, d1 + 1);
                    match parse_component(s, d1 + 1, d2) {
                        None => Err(VersionError::Component),
                        Some(patch) => if d2 < s.len() {
                            Err(VersionError::Shape)
                        } else {
                            Ok(FirmwareVersion { major, minor, patch })
                        },
                    }
                },
            }
        },
    }
}

fn next_dot(bytes: &[u8], from: usize) -> (r: usize)
    requires
        from <= bytes@.len(),
    ensures
        r == find_dot(bytes@, from as int),
        from <= r <= bytes@.len(),
{
    let mut i = from;
    while i < bytes.len() && bytes[i] != 0x2E
        invariant
            from <= i <= bytes@.len(),
            find_dot(bytes@, i as int) == find_dot(bytes@, from as int),
        decreases bytes@.len() - i,
    {
        i = i + 1;
    }
    i
}

fn component(bytes: &[u8], start: usize, end: usize) -> (r: Option<u16>)
    requires
        start <= end <= bytes@.len(),
    ensures
        r == parse_component(bytes@, start as int, end as int),
{
    let field = vstd::slice::slice_subrange(bytes, start, end);
    match parse_radix(field, 10) {
        Some(value) => if value <= 0xFFFF {
            Some(value as u16)
        } else {
            None
        },
        None => None,
    }
}

/// Reads a `MAJOR.MINOR.PATCH` version number.
pub fn parse_version(value: &str) -> (r: Result<FirmwareVersion, VersionError>)
    ensures
        r == spec_parse_version(value.spec_bytes()),
{
    let bytes = value.as_bytes();
    let d0 = next_dot(bytes, 0);
    let major = match component(bytes, 0, d0) {
        Some(v) => v,
        None => return Err(VersionError::Component),
    };
    if d0 >= bytes.len() {
        return Err(VersionError::Shape);
    }
    let d1 = next_dot(bytes, d0 + 1);
    let minor = match component(bytes, d0 + 1, d1) {
        Some(v) => v,
        None => return Err(VersionError::Component),
    };
    if d1 >= bytes.len() {
        return Err(VersionError::Shape);
    }
    let d2 = next_dot(bytes, d1 + 1);
    let patch = match component(bytes, d1 + 1, d2) {
        Some(v) => v,
        None => return Err(VersionError::Component),
    };
    if d2 < bytes.len() {
        return Err(VersionError::Shape);
    }
    Ok(FirmwareVersion { major, minor, patch })
}

pub const APPLICATION_PARTITION_BYTES: u64 = 112640;
pub const APPLICATION_BUDGET_BYTES: u64 = 102400;
pub const BOOTLOADER_PARTITION_BYTES: u64 = 16384;
pub const SRAM_BYTES: u64 = 30720;
/// Nine tenths of the SRAM.
pub const RAM_BUDGET_BYTES: u64 = 27648;

/// A built image's flash and RAM use, against the limits of its target.
#[derive(Clone, Copy, Debug, PartialEq, Eq, Structural)]
pub struct SizeReport {
    pub flash: u64,
    pub ram: u64,
    pub flash_limit: u64,
    pub flash_budget: u64,
}

/// Which limit a built image passes.
#[derive(Clone, Copy, Debug, PartialEq, Eq, Structural)]
pub enum SizeError {
    FlashPartition { flash: u64, limit: u64 },
    FlashBudget { flash: u64, budget: u64 },
    RamBudget { ram: u64, budget: u64 },
}

pub open spec fn saturating_sum(a: u64, b: u64) -> u64 {
    if a + b > u64::MAX {
        u64::MAX
    } else {
        (a + b) as u64
    }
}

/// Checks the sizes that `llvm-size` reports for a target's image: flash
/// is text plus data, RAM is data plus bss (both saturating); flash must fit
/// the partition and then the growth budget, RAM its budget.
pub fn check_firmware_size(target: FirmwareTarget, text: u64, data: u64, bss: u64) -> (r: Result<
    SizeReport,
    SizeError,
>)
    ensures
        ({
            let flash = saturating_sum(text, data);
            let ram = saturating_sum(data, bss);
            let (limit, budget) = if target == FirmwareTarget::Bootloader {
                (16384u64, 16384u64)
            } else {
                (112640u64, 102400u64)
            };
            r == (if flash > limit {
                Err(SizeError::FlashPartition { flash, limit })
            } else if flash > budget {
                Err(SizeError::FlashBudget { flash, budget })
            } else if ram > 27648 {
                Err(SizeError::RamBudget { ram, budget: 27648 })
            } else {
                Ok(SizeReport { flash, ram, flash_limit: limit, flash_budget: budget })
            })
        }),
{
    let flash = text.saturating_add(data);
    let ram = data.saturating_add(bss);
    let (limit, budget) = if target == FirmwareTarget::Bootloader {
        (BOOTLOADER_PARTITION_BYTES, BOOTLOADER_PARTITION_BYTES)
    } else {
        (APPLICATION_PARTITION_BYTES, APPLICATION_BUDGET_BYTES)
    };
    if flash > limit {
        return Err(SizeError::FlashPartition { flash, limit });
    }
    if flash > budget {
        return Err(SizeError::FlashBudget { flash, budget });
    }
    if ram > RAM_BUDGET_BYTES {
        return Err(SizeError::RamBudget { ram, budget: RAM_BUDGET_BYTES });
    }
    Ok(SizeReport { flash, ram, flash_limit: limit, flash_budget: budget })
}

/// Why no update bundle is made.
#[derive(Clone, Copy, Debug, PartialEq, Eq, Structural)]
pub enum BundleBuildError {
    /// Bootloaders are programmed over SWD and never travel in bundles.
    Bootloader,
    /// The image does not fit the active application partition.
    TooLarge,
    Bundle(BundleError),
}

/// The image target a bundle of `target` names: the first hardware
/// revision, partition layout 1, and the SW3538 profile for carriers.
pub open spec fn spec_bundle_target(target: FirmwareTarget) -> ImageTarget {
    ImageTarget {
        role: if target == FirmwareTarget::Backplane {
            NodeRole::Backplane
        } else {
            NodeRole::Carrier
        },
        carrier_profile: if target == FirmwareTarget::Backplane {
            None
        } else {
            Some(CarrierProfile::Sw3538)
        },
        hardware_revision: HardwareRevision::spec_new(1),
        partition_layout: 1,
    }
}

/// Whether `m` describes `image` as version `version` of `target`, with
/// the image's SHA-256 digest.
pub open spec fn describes(m: UpdateManifest, target: FirmwareTarget, version: FirmwareVersion, image: Seq<u8>) -> bool {
    &&& m.target == spec_bundle_target(target)
    &&& m.version == version
    &&& m.image_size == image.len()
    &&& m.digest.spec_bytes() == sha256_of(image)
}

/// The manifest of an image of `image_len` bytes whose SHA-256 digest is
/// `digest`, as version `version` of `target`.
pub fn describe_image(
    target: FirmwareTarget,
    version: FirmwareVersion,
    image_len: usize,
    digest: [u8; 32],
) -> (r: Result<UpdateManifest, BundleBuildError>)
    ensures
        target == FirmwareTarget::Bootloader ==> r == Err::<UpdateManifest, BundleBuildError>(
            BundleBuildError::Bootloader,
        ),
        target != FirmwareTarget::Bootloader && image_len > 112640 ==> r == Err::<
            UpdateManifest,
            BundleBuildError,
        >(BundleBuildError::TooLarge),
        target != FirmwareTarget::Bootloader && image_len <= 112640 ==> (r matches Ok(m) && m.target
            == spec_bundle_target(target) && m.version == version && m.image_size == image_len
            && m.digest.spec_bytes() == digest@),
{
    broadcast use crate::types::group_type_lemmas;

    let (role, carrier_profile) = match target {
        FirmwareTarget::Backplane => (NodeRole::Backplane, None),
        FirmwareTarget::Carrier => (NodeRole::Carrier, Some(CarrierProfile::Sw3538)),
        FirmwareTarget::Bootloader => {
            return Err(BundleBuildError::Bootloader);
        },
    };
    if image_len > 112640 {
        return Err(BundleBuildError::TooLarge);
    }
    Ok(
        UpdateManifest {
            target: ImageTarget {
                role,
                carrier_profile,
                hardware_revision: HardwareRevision::REV_A(),
                partition_layout: 1,
            },
            version,
            image_size: image_len as u32,
            digest: Sha256Digest::from_bytes(digest),
        },
    )
}

/// The manifest of an update bundle for `image`.
pub fn bundle_manifest(target: FirmwareTarget, version: FirmwareVersion, image: &[u8]) -> (r: Result<
    UpdateManifest,
    BundleBuildError,
>)
    ensures
        target == FirmwareTarget::Bootloader ==> r == Err::<UpdateManifest, BundleBuildError>(
            BundleBuildError::Bootloader,
        ),
        target != FirmwareTarget::Bootloader && image@.len() > 112640 ==> r == Err::<
            UpdateManifest,
            BundleBuildError,
        >(BundleBuildError::TooLarge),
        target != FirmwareTarget::Bootloader && image@.len() <= 112640 ==> (r matches Ok(m)
            && describes(m, target, version, image@)),
{
    if target == FirmwareTarget::Bootloader {
        return Err(BundleBuildError::Bootloader);
    }
    if image.len() > 112640 {
        return Err(BundleBuildError::TooLarge);
    }
    let digest = sha256(image);
    describe_image(target, version, image.len(), digest)
}

/// An unsigned update bundle of `image` as version `version` of `target`:
/// its header, made from the manifest that describes the image, then the image.
pub fn build_bundle(target: FirmwareTarget, version: FirmwareVersion, image: &[u8]) -> (r: Result<
    Vec<u8>,
    BundleBuildError,
>)
    ensures
        target == FirmwareTarget::Bootloader ==> r == Err::<Vec<u8>, BundleBuildError>(
            BundleBuildError::Bootloader,
        ),
        target != FirmwareTarget::Bootloader && image@.len() > 112640 ==> r == Err::<
            Vec<u8>,
            BundleBuildError,
        >(BundleBuildError::TooLarge),
        target != FirmwareTarget::Bootloader && image@.len() <= 112640 ==> (r matches Ok(bytes)
            && exists|m: UpdateManifest|
            describes(m, target, version, image@) && bytes@ == spec_unsigned_header(m) + image@),
{
    let manifest = match bundle_manifest(target, version, image) {
        Ok(manifest) => manifest,
        Err(error) => {
            return Err(error);
        },
    };
    match build_unsigned(manifest, image) {
        Ok(bytes) => {
            assert(describes(manifest, target, version, image@));
            Ok(bytes)
        },
        Err(error) => Err(BundleBuildError::Bundle(error)),
    }
}

} // verus!
