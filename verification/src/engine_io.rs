//! Interfaces between the engine core and the actuator and sensor drivers.
//!
//! The control loop schedules against these capabilities so that any board
//! can supply its own injector, coil and position-sensor drivers.

use vstd::prelude::*;

verus! {

/// Interface to one fuel injector output.
pub trait Injector {
    /// Error the hardware may report.
    type Error;

    /// Open the injector. Non-blocking: the hardware latches the state and
    /// the scheduler closes it again after the pulse width.
    fn open(&mut self) -> Result<(), Self::Error>;

    /// Close the injector immediately.
    fn close(&mut self) -> Result<(), Self::Error>;
}

/// Interface to one ignition coil: charge, then fire.
pub trait IgnitionCoil {
    /// Error the hardware may report.
    type Error;

    /// Start charging the coil (pin high for common smart coils).
    fn start_dwell(&mut self) -> Result<(), Self::Error>;

    /// Cut the current to generate the spark (pin low).
    fn coil_fire(&mut self) -> Result<(), Self::Error>;
}

/// Interface to a position sensor (Hall or conditioned VR), used for the
/// crank and cam wheels.
pub trait RotationSensor {
    /// Error the hardware may report.
    type Error;

    /// Current logic level of the sensor.
    fn get_state(&mut self) -> Result<bool, Self::Error>;

    /// Acknowledge the pending hardware edge interrupt.
    fn clear_sensor_flag(&mut self);
}

} // verus!
