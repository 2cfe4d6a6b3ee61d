//! DS18B20 1-Wire temperature sensors: ROM codes, the Dallas CRC-8, the
//! scratchpad temperature format and the decisions of the ROM search. The
//! bus transfers themselves are the application's.
use vstd::prelude::*;
use crate::wire::rd64;

pub mod bus;
pub mod command;

verus! {

pub const FAMILY_CODE: u8 = 0x28;
pub const MAX_CONVERSION_TIME_MS: u16 = 750;

/// One bit step of the Dallas/Maxim CRC-8 (reflected polynomial 0x8C).
pub open spec fn crc8_round(crc: u8, input: u8) -> u8 {
    if (crc ^ input) & 1 == 1 {
        (crc >> 1u8) ^ 0x8C
    } else {
        crc >> 1u8
    }
}

/// The CRC register after absorbing the low `k` bits of `input`, lowest first.
pub open spec fn crc8_bits(crc: u8, input: u8, k: nat) -> u8
    decreases k,
{
    if k == 0 {
        crc
    } else {
        crc8_bits(crc8_round(crc, input), input >> 1u8, (k - 1) as nat)
    }
}

pub open spec fn crc8_update(crc: u8, s: Seq<u8>) -> u8
    decreases s.len(),
{
    if s.len() == 0 {
        crc
    } else {
        crc8_update(crc8_bits(crc, s[0], 8), s.drop_first())
    }
}

/// The Dallas/Maxim CRC-8 of `s`.
pub open spec fn spec_crc8(s: Seq<u8>) -> u8 {
    crc8_update(0, s)
}

pub fn crc8(bytes: &[u8]) -> (r: u8)
    ensures
        r == spec_crc8(bytes@),
{
    let mut crc: u8 = 0;
    let mut i: usize = 0;
    assert(bytes@.subrange(0, bytes@.len() as int) =~= bytes@);
    while i < bytes.len()
        invariant
            i <= bytes@.len(),
            crc8_update(crc, bytes@.subrange(i as int, bytes@.len() as int)) == crc8_update(0, bytes@),
        decreases bytes@.len() - i,
    {
        let ghost rest = bytes@.subrange(i as int, bytes@.len() as int);
        assert(rest.drop_first() =~= bytes@.subrange(i + 1, bytes@.len() as int));
        let mut input = bytes[i];
        let ghost start = crc;
        let ghost first = input;
        let mut k: usize = 0;
        while k < 8
            invariant
                k <= 8,
                crc8_bits(crc, input, (8 - k) as nat) == crc8_bits(start, first, 8),
            decreases 8 - k,
        {
            let mix = (crc ^ input) & 1;
            proof {
                let c = crc;
                let x = input;
                assert(((c ^ x) & 1 != 0) == ((c ^ x) & 1 == 1)) by (bit_vector);
            }
            crc = crc >> 1;
            if mix != 0 {
                crc = crc ^ 0x8C;
            }
            input = input >> 1;
            k = k + 1;
        }
        i = i + 1;
    }
    assert(bytes@.subrange(i as int, bytes@.len() as int).len() == 0);
    crc
}

/// A ROM code of the DS18B20 family whose CRC byte is correct.
pub open spec fn valid_rom(bytes: Seq<u8>) -> bool {
    bytes.len() == 8 && bytes[0] == 0x28 && spec_crc8(bytes.take(7)) == bytes[7]
}

/// A sensor's 64-bit ROM code; every one the library hands out is valid.
#[derive(Clone, Copy, Debug, PartialEq, Eq)]
pub struct RomCode([u8; 8]);

#[derive(Clone, Copy, Debug, PartialEq, Eq, Structural)]
pub enum RomError {
    WrongFamily(u8),
    Crc,
}

impl RomCode {
    pub closed spec fn spec_bytes(self) -> Seq<u8> {
        self.0@
    }

    #[verifier::type_invariant]
    spec fn checked(self) -> bool {
        valid_rom(self.0@)
    }

    pub fn from_bytes(bytes: [u8; 8]) -> (r: Result<Self, RomError>)
        ensures
            bytes[0] != 0x28 ==> r == Err::<RomCode, RomError>(RomError::WrongFamily(bytes[0])),
            bytes[0] == 0x28 && spec_crc8(bytes@.take(7)) != bytes[7] ==> r == Err::<
                RomCode,
                RomError,
            >(RomError::Crc),
            valid_rom(bytes@) ==> (r matches Ok(rom) && rom.spec_bytes() == bytes@),
    {
        if bytes[0] != FAMILY_CODE {
            return Err(RomError::WrongFamily(bytes[0]));
        }
        let check = crc8(vstd::slice::slice_subrange(bytes.as_slice(), 0, 7));
        assert(bytes@.subrange(0, 7) =~= bytes@.take(7));
        if check != bytes[7] {
            return Err(RomError::Crc);
        }
        Ok(RomCode(bytes))
    }

    pub fn as_bytes(&self) -> (r: &[u8; 8])
        ensures
            r@ == self.spec_bytes(),
            valid_rom(r@),
    {
        proof {
            use_type_invariant(self);
        }
        &self.0
    }

    /// The ROM code read as a little-endian integer.
    pub fn identifier(self) -> (r: u64)
        ensures
            r == rd64(self.spec_bytes(), 0),
    {
        crate::wire::rd_u64(self.0.as_slice(), 0)
    }
}

#[derive(Clone, Copy, Debug, PartialEq, Eq)]
pub enum Error<E> {
    Bus(E),
    NoPresence,
    SearchProtocol,
    Rom(RomError),
    Scratchpad(ScratchpadError),
}

#[derive(Clone, Copy, Debug, PartialEq, Eq, Structural)]
pub enum ScratchpadError {
    Crc,
    TemperatureOutOfRange,
}

/// `n / d` rounded to the nearest integer, halves away from zero.
pub open spec fn div_round_half_away(n: int, d: int) -> int {
    if n >= 0 {
        (n + d / 2) / d
    } else {
        -((-n + d / 2) / d)
    }
}

/// Rounding half away from zero treats a reading and its negation alike:
/// negative temperatures round symmetrically to positive ones.
pub proof fn lemma_rounding_is_symmetric(n: int, d: int)
    requires
        d > 0,
    ensures
        div_round_half_away(-n, d) == -div_round_half_away(n, d),
{
    if n == 0 {
        assert((d / 2) / d == 0) by (nonlinear_arith)
            requires
                d > 0,
        ;
    }
}

/// The temperature of a scratchpad in hundredths of a degree: the signed
/// 16-bit reading at 1/16 degree per bit, rounded half away from zero.
pub open spec fn scratchpad_centi_c(s: Seq<u8>) -> int {
    div_round_half_away((((s[0] as u16) | ((s[1] as u16) << 8u16)) as i16) * 25, 4)
}

pub open spec fn spec_decode_scratchpad(s: Seq<u8>) -> Result<i16, ScratchpadError> {
    if spec_crc8(s.take(8)) != s[8] {
        Err(ScratchpadError::Crc)
    } else if scratchpad_centi_c(s) < i16::MIN || scratchpad_centi_c(s) > i16::MAX {
        Err(ScratchpadError::TemperatureOutOfRange)
    } else {
        Ok(scratchpad_centi_c(s) as i16)
    }
}

pub fn decode_scratchpad_centi_c(scratchpad: [u8; 9]) -> (r: Result<i16, ScratchpadError>)
    ensures
        r == spec_decode_scratchpad(scratchpad@),
{
    let check = crc8(vstd::slice::slice_subrange(scratchpad.as_slice(), 0, 8));
    assert(scratchpad@.subrange(0, 8) =~= scratchpad@.take(8));
    if check != scratchpad[8] {
        return Err(ScratchpadError::Crc);
    }
    let raw = ((scratchpad[0] as u16) | ((scratchpad[1] as u16) << 8u16)) as i16;
    let scaled = (raw as i32) * 25;
    let centi_c: i32 = if scaled >= 0 {
        (scaled + 2) / 4
    } else {
        -((2 - scaled) / 4)
    };
    if centi_c < -32768 || centi_c > 32767 {
        return Err(ScratchpadError::TemperatureOutOfRange);
    }
    Ok(centi_c as i16)
}

/// Bit `n` (1-based, least significant first) of a ROM code.
pub open spec fn rom_bit(rom: Seq<u8>, n: int) -> bool {
    rom[(n - 1) / 8] & (1u8 << (((n - 1) % 8) as u8)) != 0
}

/// `rom` with bit `n` (1-based) set to `value`.
pub open spec fn with_rom_bit(rom: Seq<u8>, n: int, value: bool) -> Seq<u8> {
    let mask = 1u8 << (((n - 1) % 8) as u8);
    rom.update(
        (n - 1) / 8,
        if value {
            rom[(n - 1) / 8] | mask
        } else {
            rom[(n - 1) / 8] & !mask
        },
    )
}

fn get_bit(rom: [u8; 8], bit_number: u8) -> (r: bool)
    requires
        1 <= bit_number <= 64,
    ensures
        r == rom_bit(rom@, bit_number as int),
{
    let index = bit_number - 1;
    rom[(index / 8) as usize] & (1u8 << (index % 8)) != 0
}

fn set_bit(rom: &mut [u8; 8], bit_number: u8, value: bool)
    requires
        1 <= bit_number <= 64,
    ensures
        final(rom)@ == with_rom_bit(old(rom)@, bit_number as int, value),
{
    let index = bit_number - 1;
    let mask: u8 = 1u8 << (index % 8);
    let position = (index / 8) as usize;
    let byte = rom[position];
    if value {
        rom[position] = byte | mask;
    } else {
        rom[position] = byte & !mask;
    }
    assert(rom@ =~= with_rom_bit(old(rom)@, bit_number as int, value));
}

/// The ROM search's position between passes: the code found by the last
/// pass, the bit of its last unexplored zero branch and whether every
/// device has been found.
#[derive(Clone, Copy, Debug, PartialEq, Eq)]
pub struct SearchState {
    rom: [u8; 8],
    last_discrepancy: u8,
    complete: bool,
}

pub struct SearchModel {
    pub rom: Seq<u8>,
    pub last_discrepancy: u8,
    pub complete: bool,
}

impl View for SearchState {
    type V = SearchModel;

    closed spec fn view(&self) -> SearchModel {
        SearchModel { rom: self.rom@, last_discrepancy: self.last_discrepancy, complete: self.complete }
    }
}

/// The branch a pass takes at bit `n` given the two bits the devices answered:
/// the bit all devices agree on, or at a discrepancy the branch of the last
/// code below the last discrepancy, one at it and zero beyond it.
pub open spec fn search_direction(s: SearchModel, n: int, bit: bool, complement: bool) -> bool {
    if bit != complement {
        bit
    } else if n < s.last_discrepancy {
        rom_bit(s.rom, n)
    } else {
        n == s.last_discrepancy
    }
}

impl SearchState {
    pub fn new() -> (r: Self)
        ensures
            r@.rom == seq![0u8, 0, 0, 0, 0, 0, 0, 0],
            r@.last_discrepancy == 0,
            !r@.complete,
    {
        let r = SearchState { rom: [0u8; 8], last_discrepancy: 0, complete: false };
        assert(r.rom@ =~= seq![0u8, 0, 0, 0, 0, 0, 0, 0]);
        r
    }

    pub fn is_complete(&self) -> (r: bool)
        ensures
            r == self@.complete,
    {
        self.complete
    }

    pub fn restart(&mut self)
        ensures
            final(self)@.rom == seq![0u8, 0, 0, 0, 0, 0, 0, 0],
            final(self)@.last_discrepancy == 0,
            !final(self)@.complete,
    {
        *self = SearchState::new();
    }

    /// Takes one bit of a search pass: `bit` and `complement` are what the
    /// devices answered for bit `bit_number`, `last_zero` the last zero branch
    /// taken at a discrepancy so far in this pass. Gives the branch to write
    /// to the bus and the new `last_zero`, or `None` when both answers are one
    /// (no device took part).
    pub fn search_bit(&mut self, bit_number: u8, bit: bool, complement: bool, last_zero: u8) -> (r:
        Option<(bool, u8)>)
        requires
            1 <= bit_number <= 64,
        ensures
            bit && complement ==> r is None && final(self)@ == old(self)@,
            !(bit && complement) ==> {
                let direction = search_direction(old(self)@, bit_number as int, bit, complement);
                &&& r == Some(
                    (
                        direction,
                        if !direction && !bit && !complement {
                            bit_number
                        } else {
                            last_zero
                        },
                    ),
                )
                &&& final(self)@.rom == with_rom_bit(old(self)@.rom, bit_number as int, direction)
                &&& final(self)@.last_discrepancy == old(self)@.last_discrepancy
                &&& final(self)@.complete == old(self)@.complete
            },
    {
        if bit && complement {
            return None;
        }
        let direction = if bit != complement {
            bit
        } else if bit_number < self.last_discrepancy {
            get_bit(self.rom, bit_number)
        } else {
            bit_number == self.last_discrepancy
        };
        let next_zero = if !direction && !bit && !complement {
            bit_number
        } else {
            last_zero
        };
        set_bit(&mut self.rom, bit_number, direction);
        Some((direction, next_zero))
    }

    /// Ends a pass of 64 bits: remembers its last zero branch, marks the
    /// search complete when there was none, and checks the code found.
    pub fn finish_pass(&mut self, last_zero: u8) -> (r: Result<Option<RomCode>, RomError>)
        ensures
            final(self)@.rom == old(self)@.rom,
            final(self)@.last_discrepancy == last_zero,
            final(self)@.complete == (last_zero == 0),
            valid_rom(old(self)@.rom) ==> (r matches Ok(Some(rom)) && rom.spec_bytes() == old(
                self,
            )@.rom),
            !valid_rom(old(self)@.rom) ==> r == Err::<Option<RomCode>, RomError>(
                if old(self)@.rom[0] != 0x28 {
                    RomError::WrongFamily(old(self)@.rom[0])
                } else {
                    RomError::Crc
                },
            ),
    {
        self.last_discrepancy = last_zero;
        self.complete = last_zero == 0;
        match RomCode::from_bytes(self.rom) {
            Ok(rom) => Ok(Some(rom)),
            Err(e) => Err(e),
        }
    }
}

/// A scratchpad with a good CRC gives its temperature reading, the signed
/// little-endian word of bytes 0 and 1 at 1/16 degree per bit, in
/// hundredths of a degree to the nearest hundredth with halves away from
/// zero (so the sign is kept); a bad CRC is refused.
pub proof fn lemma_scratchpad_reading_is_rounded_sixteenths(s: Seq<u8>)
    requires
        s.len() == 9,
    ensures
        ({
            let word = s[0] + 256 * s[1] - (if s[1] >= 128 {
                65536int
            } else {
                0int
            });
            &&& spec_crc8(s.take(8)) != s[8] ==> spec_decode_scratchpad(s) == Err::<i16, ScratchpadError>(
                ScratchpadError::Crc,
            )
            &&& spec_decode_scratchpad(s) matches Ok(t) ==> {
                &&& word >= 0 ==> t >= 0 && t * 4 - 2 <= word * 25 < t * 4 + 2
                &&& word < 0 ==> t <= 0 && t * 4 - 2 < word * 25 <= t * 4 + 2
            }
        }),
{
    let lo = s[0];
    let hi = s[1];
    let r = ((lo as u16) | ((hi as u16) << 8u16)) as i16;
    assert(r == lo + 256 * hi - (if hi >= 128 { 65536int } else { 0int })) by (bit_vector)
        requires
            r == ((lo as u16) | ((hi as u16) << 8u16)) as i16,
    ;
    let n = r * 25;
    if n >= 0 {
        let q = (n + 2) / 4;
        assert(q * 4 <= n + 2 < q * 4 + 4 && q >= 0) by (nonlinear_arith)
            requires
                q == (n + 2) / 4,
                n >= 0,
        ;
    } else {
        let q = (-n + 2) / 4;
        assert(q * 4 <= -n + 2 < q * 4 + 4 && q >= 0) by (nonlinear_arith)
            requires
                q == (-n + 2) / 4,
                n < 0,
        ;
    }
}

} // verus!