//! A sensor that always reports the rotation it was created with.

use crate::command::texts;
use crate::error::{Error, Result};
use crate::orientation::{signed_rem_360, Rotation};
use crate::sensors::{Sensor, SensorDriver};
use crate::text::{parse_integer, parsed_integer};
use vstd::prelude::*;
use vstd::string::StringExecFns;

verus! {

pub struct DummyCreator {}

pub struct DummySensor {
    rot: Rotation,
}

/// The rotation that the text of a number of degrees stands for: none
/// where the text is no number, an error where the number is no multiple of 90.
pub open spec fn rotation_of_text(args: Seq<char>) -> Result<Rotation> {
    match parsed_integer(args) {
        None => Err(Error::Unknown),
        Some(degrees) => if degrees % 90 == 0 {
            Ok(Rotation::from_quarters(degrees / 90))
        } else {
            Err(Error::InvalidDegrees(signed_rem_360(degrees as int) as isize))
        },
    }
}

/// The degrees that a dummy device can start with.
pub open spec fn dummy_choices() -> Seq<Seq<char>> {
    seq!["0"@, "90"@, "180"@, "270"@]
}

/// Reads a rotation from the text of a number of degrees.
pub fn parse_rotation(args: &str) -> (r: Result<Rotation>)
    ensures
        r == rotation_of_text(args@),
{
    match parse_integer(args) {
        None => Err(Error::Unknown),
        Some(degrees) => {
            let reduced: i64 = degrees % 360;
            Rotation::from_degrees(reduced as isize)
        },
    }
}

/// The four choices of degrees, as strings.
pub fn dummy_names() -> (names: Vec<String>)
    ensures
        texts(names@) == dummy_choices(),
{
    let mut names: Vec<String> = Vec::new();
    names.push(String::from_str("0"));
    names.push(String::from_str("90"));
    names.push(String::from_str("180"));
    names.push(String::from_str("270"));
    assert(texts(names@) == dummy_choices());
    names
}

impl DummySensor {
    /// The rotation that the sensor reports.
    pub closed spec fn rotation(&self) -> Rotation {
        self.rot
    }
}

impl SensorDriver for DummyCreator {
    type Output = DummySensor;

    /// Creates a sensor that reports the rotation of `args` degrees.
    fn create_sensor(&self, args: String) -> (r: Result<DummySensor>)
        ensures
            match rotation_of_text(args@) {
                Ok(rot) => r.is_ok() && r.unwrap().rotation() == rot,
                Err(e) => r == Err::<DummySensor, Error>(e),
            },
    {
        match parse_rotation(args.as_str()) {
            Ok(rot) => Ok(DummySensor { rot }),
            Err(e) => Err(e),
        }
    }

    /// The degrees that a sensor can be created with.
    fn available_sensors(&self) -> (r: Result<Vec<String>>)
        ensures
            r.is_ok(),
            texts(r.unwrap()@) == dummy_choices(),
    {
        Ok(dummy_names())
    }
}

impl Sensor for DummySensor {
    fn get_rotation(self) -> (r: Result<Rotation>)
        ensures
            r == Ok::<Rotation, Error>(self.rotation()),
    {
        Ok(self.rot)
    }
}

} // verus!
