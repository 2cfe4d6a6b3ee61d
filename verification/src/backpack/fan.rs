//! The fan's PWM drive on PA0, which switches transistor Q2.
use vstd::prelude::*;

use crate::port::model::{FanConfig, FanMode, InvalidFanDuty};

verus! {

pub const THREE_WIRE_FREQUENCY_HZ_PROVISIONAL: u32 = 30;
pub const FOUR_WIRE_FREQUENCY_HZ_PROVISIONAL: u32 = 25_000;

#[derive(Clone, Copy, Debug, PartialEq, Eq, Structural)]
pub struct FanDrive {
    pub frequency_hz: u32,
    /// Percentage of time PA0 drives high and turns Q2 on.
    pub pa0_high_percent: u8,
}

impl FanDrive {
    /// Full speed on a three-wire fan, the state held until settings load.
    #[allow(non_snake_case)]
    pub fn BOOT_SAFE() -> (r: FanDrive)
        ensures
            r == (FanDrive { frequency_hz: 30, pa0_high_percent: 100 }),
    {
        FanDrive { frequency_hz: THREE_WIRE_FREQUENCY_HZ_PROVISIONAL, pa0_high_percent: 100 }
    }

    /// The drive for `config`, at full speed when `force_full_speed`. Q2
    /// inverts a four-wire fan's open-drain control input, so there PA0's
    /// high percentage is the complement of the requested duty.
    pub fn from_config(config: FanConfig, force_full_speed: bool) -> (r: Result<FanDrive, InvalidFanDuty>)
        ensures
            config.duty_percent > 100 ==> r == Err::<FanDrive, InvalidFanDuty>(
                InvalidFanDuty(config.duty_percent),
            ),
            config.duty_percent <= 100 ==> r == Ok::<FanDrive, InvalidFanDuty>(
                {
                    let requested: u8 = if force_full_speed {
                        100
                    } else {
                        config.duty_percent
                    };
                    match config.mode {
                        FanMode::ThreeWire => FanDrive { frequency_hz: 30, pa0_high_percent: requested },
                        FanMode::FourWire => FanDrive {
                            frequency_hz: 25_000,
                            pa0_high_percent: (100 - requested) as u8,
                        },
                    }
                },
            ),
    {
        let config = match config.validate() {
            Ok(config) => config,
            Err(error) => {
                return Err(error);
            },
        };
        let requested: u8 = if force_full_speed {
            100
        } else {
            config.duty_percent
        };
        Ok(
            match config.mode {
                FanMode::ThreeWire => FanDrive {
                    frequency_hz: THREE_WIRE_FREQUENCY_HZ_PROVISIONAL,
                    pa0_high_percent: requested,
                },
                FanMode::FourWire => FanDrive {
                    frequency_hz: FOUR_WIRE_FREQUENCY_HZ_PROVISIONAL,
                    pa0_high_percent: 100 - requested,
                },
            },
        )
    }
}

} // verus!
