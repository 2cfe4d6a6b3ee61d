use vstd::prelude::*;
use crate::boards::carrier::{GpioPort, Pin};

verus! {

#[allow(non_snake_case)]
pub fn USER_BUTTON() -> (r: Pin)
    ensures
        r == (Pin { port: GpioPort::C, number: 15 }),
{
    Pin::new(GpioPort::C, 15)
}

#[allow(non_snake_case)]
pub fn CAN_RX() -> (r: Pin)
    ensures
        r == (Pin { port: GpioPort::B, number: 0 }),
{
    Pin::new(GpioPort::B, 0)
}

#[allow(non_snake_case)]
pub fn CAN_TX() -> (r: Pin)
    ensures
        r == (Pin { port: GpioPort::B, number: 1 }),
{
    Pin::new(GpioPort::B, 1)
}

#[allow(non_snake_case)]
pub fn BUCK_POWER_GOOD() -> (r: Pin)
    ensures
        r == (Pin { port: GpioPort::A, number: 8 }),
{
    Pin::new(GpioPort::A, 8)
}

#[allow(non_snake_case)]
pub fn PD_IRQ() -> (r: Pin)
    ensures
        r == (Pin { port: GpioPort::C, number: 6 }),
{
    Pin::new(GpioPort::C, 6)
}

#[allow(non_snake_case)]
pub fn PD_POWER_GOOD() -> (r: Pin)
    ensures
        r == (Pin { port: GpioPort::A, number: 15 }),
{
    Pin::new(GpioPort::A, 15)
}

#[allow(non_snake_case)]
pub fn PD_ENABLE() -> (r: Pin)
    ensures
        r == (Pin { port: GpioPort::B, number: 3 }),
{
    Pin::new(GpioPort::B, 3)
}

#[allow(non_snake_case)]
pub fn INA_ALERT() -> (r: Pin)
    ensures
        r == (Pin { port: GpioPort::B, number: 5 }),
{
    Pin::new(GpioPort::B, 5)
}

#[allow(non_snake_case)]
pub fn I2C_SCL() -> (r: Pin)
    ensures
        r == (Pin { port: GpioPort::B, number: 6 }),
{
    Pin::new(GpioPort::B, 6)
}

#[allow(non_snake_case)]
pub fn I2C_SDA() -> (r: Pin)
    ensures
        r == (Pin { port: GpioPort::B, number: 7 }),
{
    Pin::new(GpioPort::B, 7)
}

#[allow(non_snake_case)]
pub fn LED_DATA() -> (r: Pin)
    ensures
        r == (Pin { port: GpioPort::B, number: 8 }),
{
    Pin::new(GpioPort::B, 8)
}

} // verus!
