//! The textual forms that the command-line tools accept and print: decimal
//! Node IDs, 24-digit hexadecimal UIDs and carrier profile names.
use vstd::prelude::*;
use vstd::string::StringSliceAdditionalSpecFns;
use crate::types::{group_type_lemmas, CarrierProfile, NodeId, NodeUid};

verus! {

broadcast use group_type_lemmas;

pub open spec fn is_digit(b: u8) -> bool {
    0x30 <= b <= 0x39
}

/// An ASCII hexadecimal digit, either case.
pub open spec fn is_hex_digit(b: u8) -> bool {
    is_digit(b) || (0x61 <= b <= 0x66) || (0x41 <= b <= 0x46)
}

pub open spec fn hex_value(b: u8) -> int {
    if is_digit(b) {
        b - 0x30
    } else if 0x61 <= b <= 0x66 {
        b - 0x61 + 10
    } else {
        b - 0x41 + 10
    }
}

/// A digit of base 10 or base 16.
pub open spec fn is_radix_digit(b: u8, radix: int) -> bool {
    if radix == 16 {
        is_hex_digit(b)
    } else {
        is_digit(b)
    }
}

/// The value of a string of digits in base `radix`.
pub open spec fn radix_value(s: Seq<u8>, radix: int) -> int
    decreases s.len(),
{
    if s.len() == 0 {
        0
    } else {
        radix_value(s.drop_last(), radix) * radix + hex_value(s.last())
    }
}

/// The digits of a number after an optional leading `+`.
pub open spec fn unsigned_digits(s: Seq<u8>) -> Seq<u8> {
    if s.len() > 0 && s[0] == 0x2B {
        s.drop_first()
    } else {
        s
    }
}

pub open spec fn all_radix_digits(s: Seq<u8>, radix: int) -> bool {
    forall|i: int| 0 <= i < s.len() ==> is_radix_digit(#[trigger] s[i], radix)
}

/// What `from_str_radix` reads from `s` in base 10 or 16, before any range
/// check: an optional `+` and then one or more digits.
pub open spec fn spec_parse_radix(s: Seq<u8>, radix: int) -> Option<int> {
    if unsigned_digits(s).len() == 0 || !all_radix_digits(unsigned_digits(s), radix) {
        None
    } else {
        Some(radix_value(unsigned_digits(s), radix))
    }
}

/// What an unsigned integer type of maximum `max` parses from `s`.
pub open spec fn spec_parse_bounded(s: Seq<u8>, radix: int, max: int) -> Option<int> {
    match spec_parse_radix(s, radix) {
        Some(v) => if v <= max {
            Some(v)
        } else {
            None
        },
        None => None,
    }
}

/// What `u8::from_str` gives for `s`.
pub open spec fn spec_parse_u8(s: Seq<u8>) -> Option<u8> {
    match spec_parse_bounded(s, 10, 255) {
        Some(v) => Some(v as u8),
        None => None,
    }
}

proof fn lemma_radix_value_nonnegative(s: Seq<u8>, radix: int)
    requires
        radix == 10 || radix == 16,
        all_radix_digits(s, radix),
    ensures
        radix_value(s, radix) >= 0,
    decreases s.len(),
{
    if s.len() > 0 {
        assert(is_radix_digit(s[s.len() - 1], radix));
        lemma_radix_value_nonnegative(s.drop_last(), radix);
    }
}

proof fn lemma_radix_value_monotone(s: Seq<u8>, k: int, radix: int)
    requires
        0 <= k <= s.len(),
        radix == 10 || radix == 16,
        all_radix_digits(s, radix),
    ensures
        radix_value(s.take(k), radix) <= radix_value(s, radix),
    decreases s.len() - k,
{
    if k < s.len() {
        lemma_radix_value_monotone(s, k + 1, radix);
        assert(s.take(k + 1).drop_last() =~= s.take(k));
        assert(is_radix_digit(s[k], radix));
        lemma_radix_value_nonnegative(s.take(k), radix);
        assert(radix_value(s.take(k), radix) * radix >= radix_value(s.take(k), radix)) by (nonlinear_arith)
            requires
                radix_value(s.take(k), radix) >= 0,
                radix >= 10,
        ;
    } else {
        assert(s.take(k) =~= s);
    }
}

/// Reads an unsigned number in base 10 or 16 as `from_str_radix` does,
/// when it fits in a `u64`.
pub fn parse_radix(bytes: &[u8], radix: u8) -> (r: Option<u64>)
    requires
        radix == 10 || radix == 16,
    ensures
        r == (match spec_parse_bounded(bytes@, radix as int, u64::MAX as int) {
            Some(v) => Some(v as u64),
            None => None::<u64>,
        }),
        r matches Some(x) ==> spec_parse_bounded(bytes@, radix as int, u64::MAX as int) == Some(
            x as int,
        ),
{
    let start: usize = if bytes.len() > 0 && bytes[0] == 0x2B {
        1
    } else {
        0
    };
    let ghost digits = unsigned_digits(bytes@);
    assert(digits =~= bytes@.subrange(start as int, bytes@.len() as int));
    if start == bytes.len() {
        return None;
    }
    let mut value: u64 = 0;
    let mut i: usize = start;
    while i < bytes.len()
        invariant
            start <= i <= bytes@.len(),
            radix == 10 || radix == 16,
            digits == unsigned_digits(bytes@),
            digits =~= bytes@.subrange(start as int, bytes@.len() as int),
            forall|j: int| 0 <= j < i - start ==> is_radix_digit(#[trigger] digits[j], radix as int),
            value == radix_value(digits.take(i - start), radix as int),
        decreases bytes@.len() - i,
    {
        let b = bytes[i];
        let valid = if radix == 16 {
            (b >= 0x30 && b <= 0x39) || (b >= 0x61 && b <= 0x66) || (b >= 0x41 && b <= 0x46)
        } else {
            b >= 0x30 && b <= 0x39
        };
        if !valid {
            assert(!is_radix_digit(digits[i - start], radix as int));
            assert(!all_radix_digits(digits, radix as int));
            return None;
        }
        let digit: u64 = if b <= 0x39 {
            (b - 0x30) as u64
        } else if b >= 0x61 {
            (b - 0x61 + 10) as u64
        } else {
            (b - 0x41 + 10) as u64
        };
        assert(digits.take(i - start + 1).drop_last() =~= digits.take(i - start));
        let next = match value.checked_mul(radix as u64) {
            Some(scaled) => scaled.checked_add(digit),
            None => None,
        };
        i = i + 1;
        match next {
            Some(v) => {
                value = v;
            },
            None => {
                proof {
                    assert(radix_value(digits.take(i - start), radix as int) > u64::MAX) by {
                        lemma_radix_value_nonnegative(digits.take(i - start - 1), radix as int);
                    }
                    if all_radix_digits(digits, radix as int) {
                        lemma_radix_value_monotone(digits, i - start, radix as int);
                    }
                }
                return None;
            },
        }
    }
    assert(digits.take(i - start) =~= digits);
    Some(value)
}

/// Parses a decimal byte as `u8::from_str` does.
pub fn parse_u8(text: &str) -> (r: Option<u8>)
    ensures
        r == spec_parse_u8(text.spec_bytes()),
{
    let bytes = text.as_bytes();
    let parsed = parse_radix(bytes, 10);
    proof {
        match spec_parse_radix(bytes@, 10) {
            Some(v) => {
                lemma_radix_value_nonnegative(unsigned_digits(bytes@), 10);
                if v <= u64::MAX {
                    assert(parsed == Some(v as u64));
                } else {
                    assert(parsed is None);
                }
            },
            None => {},
        }
    }
    match parsed {
        Some(v) => if v <= 255 {
            Some(v as u8)
        } else {
            None
        },
        None => None,
    }
}

/// Whether `s` begins with `0x` or `0X`.
pub open spec fn has_hex_prefix(s: Seq<u8>) -> bool {
    s.len() >= 2 && s[0] == 0x30 && (s[1] == 0x78 || s[1] == 0x58)
}

/// A 64-bit integer written in decimal, or in hexadecimal after `0x` or `0X`.
pub open spec fn spec_parse_u64(s: Seq<u8>) -> Option<u64> {
    let parsed = if has_hex_prefix(s) {
        spec_parse_bounded(s.skip(2), 16, u64::MAX as int)
    } else {
        spec_parse_bounded(s, 10, u64::MAX as int)
    };
    match parsed {
        Some(v) => Some(v as u64),
        None => None,
    }
}

pub fn parse_u64(text: &str) -> (r: Option<u64>)
    ensures
        r == spec_parse_u64(text.spec_bytes()),
{
    let bytes = text.as_bytes();
    if bytes.len() >= 2 && bytes[0] == 0x30 && (bytes[1] == 0x78 || bytes[1] == 0x58) {
        let rest = vstd::slice::slice_subrange(bytes, 2, bytes.len());
        assert(rest@ =~= bytes@.skip(2));
        parse_radix(rest, 16)
    } else {
        parse_radix(bytes, 10)
    }
}

/// A 32-bit integer written as `parse_u64` reads it, when it fits.
pub fn parse_u32(text: &str) -> (r: Option<u32>)
    ensures
        r == (match spec_parse_u64(text.spec_bytes()) {
            Some(v) => if v <= u32::MAX {
                Some(v as u32)
            } else {
                None::<u32>
            },
            None => None::<u32>,
        }),
{
    match parse_u64(text) {
        Some(v) => if v <= 0xFFFF_FFFF {
            Some(v as u32)
        } else {
            None
        },
        None => None,
    }
}

#[derive(Clone, Copy, Debug, PartialEq, Eq, Structural)]
pub enum NodeTextError {
    /// Not a decimal byte.
    Invalid,
    /// A byte, but not an operational address.
    OutOfRange(u8),
}

/// A Node ID written in decimal, within 1..=254, or why `s` is none.
pub open spec fn spec_parse_node(s: Seq<u8>) -> Result<NodeId, NodeTextError> {
    match spec_parse_u8(s) {
        None => Err(NodeTextError::Invalid),
        Some(raw) => if NodeId::valid_raw(raw) {
            Ok(NodeId::spec_new(raw))
        } else {
            Err(NodeTextError::OutOfRange(raw))
        },
    }
}

/// A Node ID written in decimal, within 1..=254.
pub fn parse_node(text: &str) -> (r: Result<NodeId, NodeTextError>)
    ensures
        r == spec_parse_node(text.spec_bytes()),
{
    let raw = match parse_u8(text) {
        Some(raw) => raw,
        None => {
            return Err(NodeTextError::Invalid);
        },
    };
    match NodeId::new(raw) {
        Ok(node) => Ok(node),
        Err(_) => Err(NodeTextError::OutOfRange(raw)),
    }
}

#[derive(Clone, Copy, Debug, PartialEq, Eq, Structural)]
pub struct InvalidUidText;

/// The twelve bytes that 24 hexadecimal digits spell, high digit first.
pub open spec fn uid_from_hex(s: Seq<u8>) -> Seq<u8> {
    Seq::new(12, |i: int| (hex_value(s[2 * i]) * 16 + hex_value(s[2 * i + 1])) as u8)
}

/// Whether `s` is exactly 24 hexadecimal digits.
pub open spec fn is_uid_text(s: Seq<u8>) -> bool {
    s.len() == 24 && forall|i: int| 0 <= i < 24 ==> is_hex_digit(#[trigger] s[i])
}

fn hex_digit_value(b: u8) -> (r: u8)
    requires
        is_hex_digit(b),
    ensures
        r == hex_value(b),
        r < 16,
{
    if b <= 0x39 {
        b - 0x30
    } else if b >= 0x61 {
        b - 0x61 + 10
    } else {
        b - 0x41 + 10
    }
}

/// A UID written as exactly 24 hexadecimal digits.
pub fn parse_uid(text: &str) -> (r: Result<NodeUid, InvalidUidText>)
    ensures
        !is_uid_text(text.spec_bytes()) ==> r == Err::<NodeUid, InvalidUidText>(InvalidUidText),
        is_uid_text(text.spec_bytes()) ==> (r matches Ok(uid) && uid.spec_bytes() == uid_from_hex(
            text.spec_bytes(),
        )),
{
    let s = text.as_bytes();
    if s.len() != 24 {
        return Err(InvalidUidText);
    }
    let mut i: usize = 0;
    while i < 24
        invariant
            i <= 24,
            s@.len() == 24,
            s@ == text.spec_bytes(),
            forall|j: int| 0 <= j < i ==> is_hex_digit(#[trigger] s@[j]),
        decreases 24 - i,
    {
        let b = s[i];
        if !((b >= 0x30 && b <= 0x39) || (b >= 0x61 && b <= 0x66) || (b >= 0x41 && b <= 0x46)) {
            assert(!is_hex_digit(s@[i as int]));
            return Err(InvalidUidText);
        }
        i = i + 1;
    }
    let mut bytes = [0u8; 12];
    let mut k: usize = 0;
    while k < 12
        invariant
            k <= 12,
            s@.len() == 24,
            is_uid_text(s@),
            s@ == text.spec_bytes(),
            forall|j: int| 0 <= j < k ==> bytes@[j] == uid_from_hex(s@)[j],
        decreases 12 - k,
    {
        let high = hex_digit_value(s[2 * k]);
        let low = hex_digit_value(s[2 * k + 1]);
        bytes[k] = high * 16 + low;
        k = k + 1;
    }
    assert(bytes@ =~= uid_from_hex(s@));
    Ok(NodeUid::from_bytes(bytes))
}

/// The lowercase hexadecimal digit of a nibble.
pub open spec fn hex_digit(n: int) -> u8 {
    if n < 10 {
        (0x30 + n) as u8
    } else {
        (0x61 + n - 10) as u8
    }
}

/// The lowercase hexadecimal digits of `bytes`, two per byte, high digit first.
pub open spec fn hex_text(bytes: Seq<u8>) -> Seq<u8> {
    Seq::new(2 * bytes.len(), |i: int| if i % 2 == 0 {
        hex_digit((bytes[i / 2] / 16) as int)
    } else {
        hex_digit((bytes[i / 2] % 16) as int)
    })
}

/// Calls `String::from_utf8`. Trusted: a vector of ASCII bytes is valid UTF-8,
/// and the string it gives is those characters.
#[verifier::external_body]
fn ascii_string(bytes: Vec<u8>) -> (r: String)
    requires
        forall|i: int| 0 <= i < bytes@.len() ==> bytes@[i] < 128,
    ensures
        r@ == bytes@.map_values(|b: u8| b as char),
{
    String::from_utf8(bytes).unwrap()
}

fn nibble_digit(n: u8) -> (r: u8)
    requires
        n < 16,
    ensures
        r == hex_digit(n as int),
        r < 128,
{
    if n < 10 {
        0x30 + n
    } else {
        0x61 + n - 10
    }
}

/// Bytes as lowercase hexadecimal, two digits per byte.
pub fn hex_string(bytes: &[u8]) -> (r: String)
    requires
        2 * bytes@.len() <= usize::MAX,
    ensures
        r@ == hex_text(bytes@).map_values(|b: u8| b as char),
{
    let mut text: Vec<u8> = Vec::new();
    let mut i: usize = 0;
    while i < bytes.len()
        invariant
            i <= bytes@.len(),
            text@.len() == 2 * i,
            forall|j: int| 0 <= j < 2 * i ==> text@[j] == hex_text(bytes@)[j],
            forall|j: int| 0 <= j < text@.len() ==> text@[j] < 128,
        decreases bytes@.len() - i,
    {
        let b = bytes[i];
        text.push(nibble_digit(b / 16));
        text.push(nibble_digit(b % 16));
        i = i + 1;
    }
    assert(text@ =~= hex_text(bytes@));
    ascii_string(text)
}

/// A UID as 24 lowercase hexadecimal digits.
pub fn format_uid(uid: NodeUid) -> (r: String)
    ensures
        r@ == hex_text(uid.spec_bytes()).map_values(|b: u8| b as char),
{
    hex_string(uid.as_bytes())
}

/// A SHA-256 digest as 64 lowercase hexadecimal digits.
pub fn format_digest(digest: &[u8; 32]) -> (r: String)
    ensures
        r@ == hex_text(digest@).map_values(|b: u8| b as char),
{
    hex_string(digest)
}

/// Parsing what `format_uid` prints gives back the same UID.
pub proof fn lemma_uid_text_round_trip(uid: NodeUid)
    ensures
        is_uid_text(hex_text(uid.spec_bytes())),
        uid_from_hex(hex_text(uid.spec_bytes())) == uid.spec_bytes(),
{
    let b = uid.spec_bytes();
    let s = hex_text(b);
    assert forall|i: int| 0 <= i < 24 implies is_hex_digit(#[trigger] s[i]) by {
        assert(0 <= b[i / 2] / 16 < 16);
        assert(0 <= b[i / 2] % 16 < 16);
    }
    assert forall|i: int| 0 <= i < 12 implies #[trigger] uid_from_hex(s)[i] == b[i] by {
        assert(s[2 * i] == hex_digit((b[i] / 16) as int));
        assert(s[2 * i + 1] == hex_digit((b[i] % 16) as int));
        assert(b[i] == (b[i] / 16) * 16 + b[i] % 16);
    }
    assert(uid_from_hex(s) =~= b);
}

#[derive(Clone, Copy, Debug, PartialEq, Eq, Structural)]
pub struct InvalidProfileText;

pub open spec fn profile_name(profile: CarrierProfile) -> Seq<u8> {
    match profile {
        CarrierProfile::Sw3538 => seq![0x73u8, 0x77, 0x33, 0x35, 0x33, 0x38],
        CarrierProfile::Basic => seq![0x62u8, 0x61, 0x73, 0x69, 0x63],
        CarrierProfile::Accessory => seq![0x61u8, 0x63, 0x63, 0x65, 0x73, 0x73, 0x6F, 0x72, 0x79],
        CarrierProfile::HighPower240W => seq![0x32u8, 0x34, 0x30, 0x77],
    }
}

/// The bytes of a command-line argument.
pub open spec fn arg_text(s: String) -> Seq<u8> {
    vstd::utf8::encode_utf8(s@)
}

/// Whether an argument is exactly the word `word`.
pub fn is_word(arg: &String, word: &[u8]) -> (r: bool)
    ensures
        r == (arg_text(*arg) == word@),
{
    bytes_equal(arg.as_str().as_bytes(), word)
}

/// Whether `a` holds exactly the bytes of `b`.
pub fn bytes_equal(a: &[u8], b: &[u8]) -> (r: bool)
    ensures
        r == (a@ == b@),
{
    if a.len() != b.len() {
        return false;
    }
    let mut i: usize = 0;
    while i < a.len()
        invariant
            i <= a@.len(),
            a@.len() == b@.len(),
            forall|j: int| 0 <= j < i ==> a@[j] == b@[j],
        decreases a@.len() - i,
    {
        if a[i] != b[i] {
            return false;
        }
        i = i + 1;
    }
    assert(a@ =~= b@);
    true
}

/// The profile that `s` names, if any.
pub open spec fn spec_parse_profile(s: Seq<u8>) -> Option<CarrierProfile> {
    if s == profile_name(CarrierProfile::Sw3538) {
        Some(CarrierProfile::Sw3538)
    } else if s == profile_name(CarrierProfile::Basic) {
        Some(CarrierProfile::Basic)
    } else if s == profile_name(CarrierProfile::Accessory) {
        Some(CarrierProfile::Accessory)
    } else if s == profile_name(CarrierProfile::HighPower240W) {
        Some(CarrierProfile::HighPower240W)
    } else {
        None
    }
}

/// A carrier profile by name: `sw3538`, `basic`, `accessory` or `240w`.
pub fn parse_profile(text: &str) -> (r: Result<CarrierProfile, InvalidProfileText>)
    ensures
        r == (match spec_parse_profile(text.spec_bytes()) {
            Some(p) => Ok::<CarrierProfile, InvalidProfileText>(p),
            None => Err(InvalidProfileText),
        }),
{
    let s = text.as_bytes();
    let sw3538 = [0x73u8, 0x77, 0x33, 0x35, 0x33, 0x38];
    let basic = [0x62u8, 0x61, 0x73, 0x69, 0x63];
    let accessory = [0x61u8, 0x63, 0x63, 0x65, 0x73, 0x73, 0x6F, 0x72, 0x79];
    let high_power = [0x32u8, 0x34, 0x30, 0x77];
    assert(sw3538@ =~= profile_name(CarrierProfile::Sw3538));
    assert(basic@ =~= profile_name(CarrierProfile::Basic));
    assert(accessory@ =~= profile_name(CarrierProfile::Accessory));
    assert(high_power@ =~= profile_name(CarrierProfile::HighPower240W));
    if bytes_equal(s, &sw3538) {
        Ok(CarrierProfile::Sw3538)
    } else if bytes_equal(s, &basic) {
        Ok(CarrierProfile::Basic)
    } else if bytes_equal(s, &accessory) {
        Ok(CarrierProfile::Accessory)
    } else if bytes_equal(s, &high_power) {
        Ok(CarrierProfile::HighPower240W)
    } else {
        Err(InvalidProfileText)
    }
}

} // verus!
