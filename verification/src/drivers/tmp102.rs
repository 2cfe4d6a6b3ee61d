//! TMP102 temperature sensor in its power-up 12-bit continuous mode: the
//! address straps and the register's conversion to hundredths of a degree.
//! The I2C read itself is the application's.
use vstd::prelude::*;

verus! {

/// The address when ADD0 is tied to ground.
pub const DEFAULT_ADDRESS: u8 = 0x48;
pub const TEMPERATURE_REGISTER: u8 = 0x00;

#[derive(Clone, Copy, Debug, PartialEq, Eq, Structural)]
pub struct Tmp102 {
    address: u8,
}

impl Tmp102 {
    pub fn new(address: u8) -> (r: Self)
        ensures
            r.spec_address() == address,
    {
        Tmp102 { address }
    }

    pub fn default_address() -> (r: Self)
        ensures
            r.spec_address() == 0x48,
    {
        Tmp102::new(DEFAULT_ADDRESS)
    }

    pub closed spec fn spec_address(self) -> u8 {
        self.address
    }

    pub fn address(self) -> (r: u8)
        ensures
            r == self.spec_address(),
    {
        self.address
    }
}

/// The signed 12-bit sample in the register's top bits, at 1/16 degree per
/// bit, in hundredths of a degree rounded half away from zero.
pub open spec fn spec_decode_temperature_centi_c(register: [u8; 2]) -> i16 {
    let raw = ((((register[0] as u16) << 8u16) | (register[1] as u16)) as i16) >> 4u16;
    if raw < 0 {
        (-((-raw * 25 + 2) / 4)) as i16
    } else {
        ((raw * 25 + 2) / 4) as i16
    }
}

pub fn decode_temperature_centi_c(register: [u8; 2]) -> (r: i16)
    ensures
        r == spec_decode_temperature_centi_c(register),
        -12_800 <= r <= 12_794,
{
    let high = register[0];
    let low = register[1];
    let raw = ((((high as u16) << 8u16) | (low as u16)) as i16) >> 4u16;
    proof {
        assert(-2048 <= raw <= 2047) by (bit_vector)
            requires
                raw == ((((high as u16) << 8u16) | (low as u16)) as i16) >> 4u16,
        ;
    }
    let scaled = raw as i32 * 25;
    let rounded: i32 = if scaled < 0 {
        -((2 - scaled) / 4)
    } else {
        (scaled + 2) / 4
    };
    rounded as i16
}

/// The temperature is the signed 12-bit sample in the register's top bits
/// (the big-endian word divided by 16, rounded down) at 1/16 degree per
/// bit, in hundredths of a degree to the nearest hundredth with halves away
/// from zero, so the sign is kept.
pub proof fn lemma_temperature_is_rounded_sixteenths(register: [u8; 2])
    ensures
        ({
            let word = register[0] * 256 + register[1] - (if register[0] >= 128 {
                65536int
            } else {
                0int
            });
            let raw = ((((register[0] as u16) << 8u16) | (register[1] as u16)) as i16) >> 4u16;
            let t = spec_decode_temperature_centi_c(register);
            &&& raw * 16 <= word < raw * 16 + 16
            &&& raw >= 0 ==> t >= 0 && t * 4 - 2 <= raw * 25 < t * 4 + 2
            &&& raw < 0 ==> t <= 0 && t * 4 - 2 < raw * 25 <= t * 4 + 2
        }),
{
    let hi = register[0];
    let lo = register[1];
    let raw = ((((hi as u16) << 8u16) | (lo as u16)) as i16) >> 4u16;
    assert(raw * 16 <= hi * 256 + lo - (if hi >= 128 { 65536int } else { 0int }) < raw * 16 + 16
        && -2048 <= raw <= 2047) by (bit_vector)
        requires
            raw == ((((hi as u16) << 8u16) | (lo as u16)) as i16) >> 4u16,
    ;
    let n = raw * 25;
    if n >= 0 {
        let q = (n + 2) / 4;
        assert(q * 4 <= n + 2 < q * 4 + 4 && q >= 0) by (nonlinear_arith)
            requires
                q == (n + 2) / 4,
                n >= 0,
        ;
    } else {
        let q = (-n + 2) / 4;
        assert(q * 4 <= -n + 2 < q * 4 + 4 && q >= 0) by (nonlinear_arith)
            requires
                q == (-n + 2) / 4,
                n < 0,
        ;
    }
}

} // verus!