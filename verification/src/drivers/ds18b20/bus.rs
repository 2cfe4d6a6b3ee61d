//! How bytes travel on the 1-Wire bus, least significant bit first, and the
//! byte sequences that follow a reset with presence: a conversion on every
//! sensor, and the scratchpad read of one sensor.
use vstd::prelude::*;
use crate::drivers::ds18b20::RomCode;
use crate::drivers::ds18b20::command;

verus! {

/// The bits of `byte` in the order they are written, least significant first.
pub open spec fn byte_bits(byte: u8) -> Seq<bool> {
    seq![
        byte % 2 == 1,
        (byte / 2) % 2 == 1,
        (byte / 4) % 2 == 1,
        (byte / 8) % 2 == 1,
        (byte / 16) % 2 == 1,
        (byte / 32) % 2 == 1,
        (byte / 64) % 2 == 1,
        (byte / 128) % 2 == 1,
    ]
}

pub open spec fn bit_value(bit: bool, weight: int) -> int {
    if bit {
        weight
    } else {
        0
    }
}

/// The byte that eight bits read in bus order make.
pub open spec fn bits_value(bits: Seq<bool>) -> int {
    bit_value(bits[0], 1) + bit_value(bits[1], 2) + bit_value(bits[2], 4) + bit_value(bits[3], 8)
        + bit_value(bits[4], 16) + bit_value(bits[5], 32) + bit_value(bits[6], 64) + bit_value(
        bits[7],
        128,
    )
}

/// The bits that write `byte`, in bus order.
pub fn byte_to_bits(byte: u8) -> (r: [bool; 8])
    ensures
        r@ == byte_bits(byte),
{
    let r = [
        byte % 2 == 1,
        (byte / 2) % 2 == 1,
        (byte / 4) % 2 == 1,
        (byte / 8) % 2 == 1,
        (byte / 16) % 2 == 1,
        (byte / 32) % 2 == 1,
        (byte / 64) % 2 == 1,
        (byte / 128) % 2 == 1,
    ];
    assert(r@ =~= byte_bits(byte));
    r
}

/// The byte that eight bits read from the bus make.
pub fn bits_to_byte(bits: [bool; 8]) -> (r: u8)
    ensures
        r == bits_value(bits@),
{
    let mut r: u8 = 0;
    if bits[0] {
        r = r + 1;
    }
    if bits[1] {
        r = r + 2;
    }
    if bits[2] {
        r = r + 4;
    }
    if bits[3] {
        r = r + 8;
    }
    if bits[4] {
        r = r + 16;
    }
    if bits[5] {
        r = r + 32;
    }
    if bits[6] {
        r = r + 64;
    }
    if bits[7] {
        r = r + 128;
    }
    r
}

/// Reading back the bits of a byte gives the byte.
pub proof fn lemma_byte_bits_round_trip(byte: u8)
    ensures
        bits_value(byte_bits(byte)) == byte,
{
    assert(byte == byte % 2 + 2 * ((byte / 2) % 2) + 4 * ((byte / 4) % 2) + 8 * ((byte / 8) % 2) + 16
        * ((byte / 16) % 2) + 32 * ((byte / 32) % 2) + 64 * ((byte / 64) % 2) + 128 * ((byte / 128)
        % 2)) by (bit_vector);
}

/// Writing the byte that eight bits make gives those bits.
pub proof fn lemma_bits_byte_round_trip(bits: Seq<bool>)
    requires
        bits.len() == 8,
    ensures
        0 <= bits_value(bits) < 256,
        byte_bits(bits_value(bits) as u8) == bits,
{
    let b0 = bits[0];
    let b1 = bits[1];
    let b2 = bits[2];
    let b3 = bits[3];
    let b4 = bits[4];
    let b5 = bits[5];
    let b6 = bits[6];
    let b7 = bits[7];
    let v: u8 = bits_value(bits) as u8;
    assert(v == (if b0 { 1u8 } else { 0u8 }) + (if b1 { 2u8 } else { 0u8 }) + (if b2 { 4u8 } else { 0u8 })
        + (if b3 { 8u8 } else { 0u8 }) + (if b4 { 16u8 } else { 0u8 }) + (if b5 { 32u8 } else { 0u8 })
        + (if b6 { 64u8 } else { 0u8 }) + (if b7 { 128u8 } else { 0u8 }));
    assert({
        &&& (v % 2 == 1) == b0
        &&& ((v / 2) % 2 == 1) == b1
        &&& ((v / 4) % 2 == 1) == b2
        &&& ((v / 8) % 2 == 1) == b3
        &&& ((v / 16) % 2 == 1) == b4
        &&& ((v / 32) % 2 == 1) == b5
        &&& ((v / 64) % 2 == 1) == b6
        &&& ((v / 128) % 2 == 1) == b7
    }) by (bit_vector)
        requires
            v == (if b0 { 1u8 } else { 0u8 }) + (if b1 { 2u8 } else { 0u8 }) + (if b2 { 4u8 } else { 0u8 })
                + (if b3 { 8u8 } else { 0u8 }) + (if b4 { 16u8 } else { 0u8 }) + (if b5 { 32u8 } else { 0u8 })
                + (if b6 { 64u8 } else { 0u8 }) + (if b7 { 128u8 } else { 0u8 }),
    ;
    assert(byte_bits(v) =~= bits);
}

/// What follows the reset that starts a conversion on every sensor.
pub fn conversion_bytes() -> (r: [u8; 2])
    ensures
        r@ == seq![0xCCu8, 0x44],
{
    let r = [command::SKIP_ROM, command::CONVERT_T];
    assert(r@ =~= seq![0xCCu8, 0x44]);
    r
}

/// What follows the reset that reads the scratchpad of the sensor `rom`,
/// before its nine bytes are read.
pub fn scratchpad_request_bytes(rom: RomCode) -> (r: [u8; 10])
    ensures
        r@ == seq![0x55u8] + rom.spec_bytes() + seq![0xBEu8],
{
    let code = rom.as_bytes();
    let r = [
        command::MATCH_ROM,
        code[0],
        code[1],
        code[2],
        code[3],
        code[4],
        code[5],
        code[6],
        code[7],
        command::READ_SCRATCHPAD,
    ];
    assert(r@ =~= seq![0x55u8] + rom.spec_bytes() + seq![0xBEu8]);
    r
}

} // verus!
