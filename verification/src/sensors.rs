//! Driver for Hall-effect (or conditioned optical) position sensors on a
//! GPIO input pin, as used for the crank and cam wheels.

use vstd::prelude::*;

verus! {

/// Failure of a position sensor read.
#[derive(Debug, PartialEq, Eq, Clone, Copy, Structural)]
pub enum SensorError {
    /// The pin could not be read.
    ReadError,
}

/// One position sensor wired to an input pin.
pub struct Stm32h7HallSensor<P> {
    pin: P,
}

/// Relies on embedded_hal's InputPin::is_high: samples the pin, yielding
/// its level or nothing if the read failed.
#[verifier::external_body]
fn pin_is_high<P: embedded_hal::digital::v2::InputPin>(pin: &P) -> (level: Option<bool>) {
    pin.is_high().ok()
}

impl<P> Stm32h7HallSensor<P> {
    /// Wrap a pin as a position sensor.
    pub fn new(pin: P) -> Stm32h7HallSensor<P> {
        Stm32h7HallSensor { pin }
    }
}

impl<P: embedded_hal::digital::v2::InputPin> Stm32h7HallSensor<P> {
    /// Current logic level of the sensor, or `ReadError` if the pin read
    /// failed.
    pub fn get_state(&mut self) -> Result<bool, SensorError> {
        match pin_is_high(&self.pin) {
            Option::Some(level) => Ok(level),
            Option::None => Err(SensorError::ReadError),
        }
    }
}

} // verus!
