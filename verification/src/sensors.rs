//! Sensors: where the wanted rotation comes from, such as an accelerometer.

use crate::error::Result;
use crate::orientation::Rotation;
use vstd::prelude::*;

pub mod dummy;

verus! {

/// A source of rotation.
pub trait Sensor {
    /// Reads the rotation off the sensor, which is used up by it.
    fn get_rotation(self) -> Result<Rotation>;
}

/// Something that knows how to find and open sensors of one kind.
pub trait SensorDriver {
    type Output: Sensor + Sized;

    /// Create a sensor with given arguments.
    fn create_sensor(&self, args: String) -> Result<Self::Output>;

    /// Lists available sensors that the driver knows of.
    fn available_sensors(&self) -> Result<Vec<String>>;
}

} // verus!
