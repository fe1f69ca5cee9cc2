//! Driver for ignition coils behind a push-pull GPIO output pin.

use vstd::prelude::*;

verus! {

/// Failure of an ignition output: the pin could not be driven.
#[derive(Debug, PartialEq, Eq, Clone, Copy, Structural)]
pub enum IgnitionError {
    /// The pin driver rejected the command.
    ElectricalFailure,
}

/// One ignition coil wired to an output pin: high charges the coil, low
/// fires the spark.
pub struct Stm32h7Coil<P> {
    pin: P,
}

/// Relies on embedded_hal's OutputPin::set_low: commands the pin low and
/// reports only whether the hardware accepted the command.
#[verifier::external_body]
fn pin_set_low<P: embedded_hal::digital::v2::OutputPin>(pin: &mut P) -> (ok: bool) {
    pin.set_low().is_ok()
}

/// Relies on embedded_hal's OutputPin::set_high: commands the pin high and
/// reports only whether the hardware accepted the command.
#[verifier::external_body]
fn pin_set_high<P: embedded_hal::digital::v2::OutputPin>(pin: &mut P) -> (ok: bool) {
    pin.set_high().is_ok()
}

impl<P: embedded_hal::digital::v2::OutputPin> Stm32h7Coil<P> {
    /// Wrap a pin as a coil driver. The coil must start discharged, so the
    /// pin is driven low first.
    pub fn new(pin: P) -> Stm32h7Coil<P> {
        let mut driver = Stm32h7Coil { pin };
        let _ = pin_set_low(&mut driver.pin);
        driver
    }

    /// Begin charging the coil by driving the pin high.
    pub fn start_dwell(&mut self) -> Result<(), IgnitionError> {
        if pin_set_high(&mut self.pin) {
            Ok(())
        } else {
            Err(IgnitionError::ElectricalFailure)
        }
    }

    /// Fire the spark by cutting the current: pin low.
    pub fn coil_fire(&mut self) -> Result<(), IgnitionError> {
        if pin_set_low(&mut self.pin) {
            Ok(())
        } else {
            Err(IgnitionError::ElectricalFailure)
        }
    }
}

} // verus!
