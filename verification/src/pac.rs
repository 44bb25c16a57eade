//! An example of a register layer over the mock: three peripherals with
//! their registers and bit fields.
use vstd::prelude::*;

pub mod common;
pub mod gpio;
pub mod reg_name;
pub mod spi;
pub mod timer;
pub mod tracing;

use crate::pac::gpio::Gpio;
use crate::pac::spi::Spi;
use crate::pac::timer::Timer;

verus! {

/// The address at which the registers of the GPIO peripheral begin.
pub const GPIO_BASE: usize = 0x8400;

/// The address at which the registers of the SPI peripheral begin.
pub const SPI_BASE: usize = 0x8200;

/// The address at which the registers of the timer peripheral begin.
pub const TIMER_BASE: usize = 0x8000;

/// The GPIO peripheral of the device.
pub fn gpio() -> (r: Gpio)
    ensures
        r.spec_base() == GPIO_BASE,
{
    Gpio::at(GPIO_BASE)
}

/// The SPI peripheral of the device.
pub fn spi() -> (r: Spi)
    ensures
        r.spec_base() == SPI_BASE,
{
    Spi::at(SPI_BASE)
}

/// The timer peripheral of the device.
pub fn timer() -> (r: Timer)
    ensures
        r.spec_base() == TIMER_BASE,
{
    Timer::at(TIMER_BASE)
}

} // verus!
