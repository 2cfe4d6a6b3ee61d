use vstd::prelude::*;
use crate::boards::backplane::{GpioPort, Pin};

verus! {

#[allow(non_snake_case)]
pub fn FAN_1_PWM() -> (r: Pin)
    ensures
        r == (Pin { port: GpioPort::A, number: 2 }),
{
    Pin::new(GpioPort::A, 2)
}

#[allow(non_snake_case)]
pub fn FAN_1_TACH() -> (r: Pin)
    ensures
        r == (Pin { port: GpioPort::B, number: 8 }),
{
    Pin::new(GpioPort::B, 8)
}

#[allow(non_snake_case)]
pub fn FAN_2_PWM() -> (r: Pin)
    ensures
        r == (Pin { port: GpioPort::A, number: 0 }),
{
    Pin::new(GpioPort::A, 0)
}

#[allow(non_snake_case)]
pub fn FAN_2_TACH() -> (r: Pin)
    ensures
        r == (Pin { port: GpioPort::A, number: 8 }),
{
    Pin::new(GpioPort::A, 8)
}

#[allow(non_snake_case)]
pub fn LED_DATA() -> (r: Pin)
    ensures
        r == (Pin { port: GpioPort::A, number: 1 }),
{
    Pin::new(GpioPort::A, 1)
}

#[allow(non_snake_case)]
pub fn TWELVE_VOLT_POWER_GOOD() -> (r: Pin)
    ensures
        r == (Pin { port: GpioPort::A, number: 3 }),
{
    Pin::new(GpioPort::A, 3)
}

#[allow(non_snake_case)]
pub fn INA_ALERT() -> (r: Pin)
    ensures
        r == (Pin { port: GpioPort::A, number: 4 }),
{
    Pin::new(GpioPort::A, 4)
}

#[allow(non_snake_case)]
pub fn I2C_SDA() -> (r: Pin)
    ensures
        r == (Pin { port: GpioPort::A, number: 6 }),
{
    Pin::new(GpioPort::A, 6)
}

#[allow(non_snake_case)]
pub fn I2C_SCL() -> (r: Pin)
    ensures
        r == (Pin { port: GpioPort::A, number: 7 }),
{
    Pin::new(GpioPort::A, 7)
}

#[allow(non_snake_case)]
pub fn CAN_RX() -> (r: Pin)
    ensures
        r == (Pin { port: GpioPort::B, number: 0 }),
{
    Pin::new(GpioPort::B, 0)
}

#[allow(non_snake_case)]
pub fn CAN_TX() -> (r: Pin)
    ensures
        r == (Pin { port: GpioPort::B, number: 1 }),
{
    Pin::new(GpioPort::B, 1)
}

#[allow(non_snake_case)]
pub fn DS18B20_DATA() -> (r: Pin)
    ensures
        r == (Pin { port: GpioPort::A, number: 15 }),
{
    Pin::new(GpioPort::A, 15)
}

} // verus!
