use embedded_hal::digital::v2::{InputPin, OutputPin};
use engine_core::ignition::{IgnitionError, Stm32h7Coil};
use engine_core::sensors::{SensorError, Stm32h7HallSensor};

// A pin that records its commanded level and can be made to fail, standing
// in for a real GPIO pin.
struct MockPin {
    level: bool,
    fail: bool,
}

impl OutputPin for MockPin {
    type Error = ();

    fn set_low(&mut self) -> Result<(), ()> {
        if self.fail {
            Err(())
        } else {
            self.level = false;
            Ok(())
        }
    }

    fn set_high(&mut self) -> Result<(), ()> {
        if self.fail {
            Err(())
        } else {
            self.level = true;
            Ok(())
        }
    }
}

impl InputPin for MockPin {
    type Error = ();

    fn is_high(&self) -> Result<bool, ()> {
        if self.fail {
            Err(())
        } else {
            Ok(self.level)
        }
    }

    fn is_low(&self) -> Result<bool, ()> {
        if self.fail {
            Err(())
        } else {
            Ok(!self.level)
        }
    }
}

#[test]
fn test_coil_dwell_and_fire() {
    let pin = MockPin { level: true, fail: false };
    let mut coil = Stm32h7Coil::new(pin);
    assert_eq!(coil.start_dwell(), Ok(()));
    assert_eq!(coil.coil_fire(), Ok(()));
}

#[test]
fn test_coil_electrical_failure() {
    let pin = MockPin { level: false, fail: true };
    let mut coil = Stm32h7Coil::new(pin);
    assert_eq!(coil.start_dwell(), Err(IgnitionError::ElectricalFailure));
    assert_eq!(coil.coil_fire(), Err(IgnitionError::ElectricalFailure));
}

#[test]
fn test_hall_sensor_reads_level() {
    let mut sensor = Stm32h7HallSensor::new(MockPin { level: true, fail: false });
    assert_eq!(sensor.get_state(), Ok(true));

    let mut low_sensor = Stm32h7HallSensor::new(MockPin { level: false, fail: false });
    assert_eq!(low_sensor.get_state(), Ok(false));
}

#[test]
fn test_hall_sensor_read_error() {
    let mut sensor = Stm32h7HallSensor::new(MockPin { level: false, fail: true });
    assert_eq!(sensor.get_state(), Err(SensorError::ReadError));
}
