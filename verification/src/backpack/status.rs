//! The status LED: what each node state looks like and the WS2812 PWM
//! waveform that shows it.
use vstd::prelude::*;

verus! {

#[derive(Clone, Copy, Debug, PartialEq, Eq, Structural)]
pub struct Rgb {
    pub red: u8,
    pub green: u8,
    pub blue: u8,
}

pub const WS2812_DATA_BITS: usize = 24;
pub const WS2812_RESET_WORDS: usize = 64;
pub const STATUS_WORDS: usize = WS2812_DATA_BITS + WS2812_RESET_WORDS;

impl Rgb {
    #[allow(non_snake_case)]
    pub fn OFF() -> (r: Self)
        ensures
            r == (Rgb { red: 0, green: 0, blue: 0 }),
    {
        Rgb { red: 0, green: 0, blue: 0 }
    }

    /// The colour in the order the WS2812 shifts it in: green, red, blue.
    pub open spec fn spec_grb(self) -> Seq<u8> {
        seq![self.green, self.red, self.blue]
    }

    pub fn ws2812_grb(self) -> (r: [u8; 3])
        ensures
            r@ == self.spec_grb(),
    {
        let r = [self.green, self.red, self.blue];
        assert(r@ =~= self.spec_grb());
        r
    }
}

#[derive(Clone, Copy, Debug, PartialEq, Eq, Structural)]
pub enum StatusState {
    Booting,
    Uncommissioned,
    Healthy,
    Degraded,
    AddressConflict,
    EmergencyLatched,
    Fault,
}

#[derive(Clone, Copy, Debug, PartialEq, Eq, Structural)]
pub enum StatusCommand {
    SetBase(StatusState),
    IdentifySeconds(u16),
}

#[allow(non_snake_case)]
pub fn IDENTIFY_COLOR() -> (r: Rgb)
    ensures
        r == (Rgb { red: 24, green: 24, blue: 24 }),
{
    Rgb { red: 24, green: 24, blue: 24 }
}

/// The colour of each state: blue while booting, amber uncommissioned, green
/// healthy, orange degraded, magenta on an address conflict and red for an
/// emergency latch or a fault.
pub open spec fn spec_render(state: StatusState) -> Rgb {
    match state {
        StatusState::Booting => Rgb { red: 0, green: 0, blue: 24 },
        StatusState::Uncommissioned => Rgb { red: 20, green: 12, blue: 0 },
        StatusState::Healthy => Rgb { red: 0, green: 24, blue: 0 },
        StatusState::Degraded => Rgb { red: 24, green: 8, blue: 0 },
        StatusState::AddressConflict => Rgb { red: 24, green: 0, blue: 24 },
        StatusState::EmergencyLatched | StatusState::Fault => Rgb { red: 24, green: 0, blue: 0 },
    }
}

pub fn render(state: StatusState) -> (r: Rgb)
    ensures
        r == spec_render(state),
{
    match state {
        StatusState::Booting => Rgb { red: 0, green: 0, blue: 24 },
        StatusState::Uncommissioned => Rgb { red: 20, green: 12, blue: 0 },
        StatusState::Healthy => Rgb { red: 0, green: 24, blue: 0 },
        StatusState::Degraded => Rgb { red: 24, green: 8, blue: 0 },
        StatusState::AddressConflict => Rgb { red: 24, green: 0, blue: 24 },
        StatusState::EmergencyLatched | StatusState::Fault => Rgb { red: 24, green: 0, blue: 0 },
    }
}

/// `a * b`, or the largest `u16` when that does not fit.
pub open spec fn saturating_mul_u16(a: u16, b: u16) -> u16 {
    if a * b > u16::MAX {
        u16::MAX
    } else {
        (a * b) as u16
    }
}

/// The high time of a `0` bit: 28% of the period.
pub open spec fn zero_high(period_ticks: u16) -> u16 {
    (saturating_mul_u16(period_ticks, 28) / 100) as u16
}

/// The high time of a `1` bit: 56% of the period.
pub open spec fn one_high(period_ticks: u16) -> u16 {
    (saturating_mul_u16(period_ticks, 56) / 100) as u16
}

/// Word `i` of the waveform for `color`: the 24 data bits, most significant
/// first in GRB order, each as its high time, then reset words at zero.
pub open spec fn pwm_word(color: Rgb, period_ticks: u16, i: int) -> u16 {
    if i < 24 {
        if color.spec_grb()[i / 8] & (1u8 << ((7 - i % 8) as u8)) == 0 {
            zero_high(period_ticks)
        } else {
            one_high(period_ticks)
        }
    } else {
        0
    }
}

fn scaled(period_ticks: u16, percent: u16) -> (r: u16)
    requires
        percent <= 100,
    ensures
        r == saturating_mul_u16(period_ticks, percent) / 100,
{
    proof {
        assert(period_ticks * percent <= 65535 * 100) by (nonlinear_arith)
            requires
                period_ticks <= 65535,
                percent <= 100,
        ;
    }
    let product = period_ticks as u32 * percent as u32;
    let saturated: u16 = if product > 0xFFFF {
        0xFFFF
    } else {
        product as u16
    };
    saturated / 100
}

/// Encodes one GRB pixel for an 800 kHz timer.
pub fn encode_ws2812_pwm(color: Rgb, period_ticks: u16, output: &mut [u16; 88])
    ensures
        forall|i: int| 0 <= i < 88 ==> final(output)@[i] == pwm_word(color, period_ticks, i),
{
    let zero = scaled(period_ticks, 28);
    let one = scaled(period_ticks, 56);
    let grb = color.ws2812_grb();
    let mut byte_index: usize = 0;
    while byte_index < 3
        invariant
            byte_index <= 3,
            grb@ == color.spec_grb(),
            zero == zero_high(period_ticks),
            one == one_high(period_ticks),
            forall|i: int| 0 <= i < 8 * byte_index ==> output@[i] == pwm_word(color, period_ticks, i),
        decreases 3 - byte_index,
    {
        let byte = grb[byte_index];
        let mut bit: usize = 0;
        while bit < 8
            invariant
                byte_index < 3,
                bit <= 8,
                byte == color.spec_grb()[byte_index as int],
                zero == zero_high(period_ticks),
                one == one_high(period_ticks),
                forall|i: int| 0 <= i < 8 * byte_index + bit ==> output@[i] == pwm_word(color, period_ticks, i),
            decreases 8 - bit,
        {
            let index = 8 * byte_index + bit;
            let shift = (7 - bit) as u8;
            output[index] = if byte & (1u8 << shift) == 0 {
                zero
            } else {
                one
            };
            proof {
                assert((index as int) / 8 == byte_index as int);
                assert((index as int) % 8 == bit as int);
            }
            bit = bit + 1;
        }
        byte_index = byte_index + 1;
    }
    let mut index: usize = 24;
    while index < 88
        invariant
            24 <= index <= 88,
            forall|i: int| 0 <= i < index ==> output@[i] == pwm_word(color, period_ticks, i),
        decreases 88 - index,
    {
        output[index] = 0;
        index = index + 1;
    }
}

/// A `0` bit is high for 28% and a `1` bit for 56% of the period, rounded
/// down to whole ticks (of at most `u16::MAX` ticks of product), so a `1`
/// is never shorter than a `0`.
pub proof fn lemma_bit_high_times_are_period_fractions(period_ticks: u16)
    ensures
        period_ticks * 56 <= u16::MAX ==> one_high(period_ticks) * 100 <= period_ticks * 56 < one_high(
            period_ticks,
        ) * 100 + 100,
        period_ticks * 28 <= u16::MAX ==> zero_high(period_ticks) * 100 <= period_ticks * 28 < zero_high(
            period_ticks,
        ) * 100 + 100,
        zero_high(period_ticks) <= one_high(period_ticks),
{
    let a = saturating_mul_u16(period_ticks, 28);
    let b = saturating_mul_u16(period_ticks, 56);
    assert(a <= b) by (nonlinear_arith)
        requires
            a == (if period_ticks * 28 > 65535 { 65535 } else { period_ticks * 28 }),
            b == (if period_ticks * 56 > 65535 { 65535 } else { period_ticks * 56 }),
            period_ticks >= 0,
    ;
    assert(a / 100 <= b / 100) by (nonlinear_arith)
        requires
            0 <= a <= b,
    ;
    assert((a / 100) * 100 <= a < (a / 100) * 100 + 100) by (nonlinear_arith)
        requires
            a >= 0,
    ;
    assert((b / 100) * 100 <= b < (b / 100) * 100 + 100) by (nonlinear_arith)
        requires
            b >= 0,
    ;
}

} // verus!