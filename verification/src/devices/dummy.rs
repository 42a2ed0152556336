//! A device that only remembers the orientation it was turned to. It is
//! meant for trying things out.

use crate::command::texts;
use crate::devices::{Rotator, RotatorCreator};
use crate::error::{Error, Result};
use crate::orientation::AbsoluteOrientation;
use crate::sensors::dummy::{dummy_choices, dummy_names, parse_rotation, rotation_of_text};
use vstd::prelude::*;

verus! {

pub struct DummyCreator {}

pub struct DummyDriver {
    state: AbsoluteOrientation,
}

impl DummyDriver {
    /// The orientation that the device is turned to.
    pub closed spec fn orientation(&self) -> AbsoluteOrientation {
        self.state
    }
}

impl RotatorCreator for DummyCreator {
    type Output = DummyDriver;

    /// Creates a device that starts out turned by `args` degrees.
    fn create_rotator(&self, args: String) -> (r: Result<DummyDriver>)
        ensures
            match rotation_of_text(args@) {
                Ok(rot) => r.is_ok() && r.unwrap().orientation() == AbsoluteOrientation::of_rotation(
                    rot,
                ),
                Err(e) => r == Err::<DummyDriver, Error>(e),
            },
    {
        match parse_rotation(args.as_str()) {
            Ok(rot) => Ok(DummyDriver { state: AbsoluteOrientation::from(rot) }),
            Err(e) => Err(e),
        }
    }

    /// The degrees that a device can start with.
    fn available_rotators(&self) -> (r: Result<Vec<String>>)
        ensures
            r.is_ok(),
            texts(r.unwrap()@) == dummy_choices(),
    {
        Ok(dummy_names())
    }
}

impl Rotator for DummyDriver {
    fn get_current_orientation(&self) -> (r: Result<AbsoluteOrientation>)
        ensures
            r == Ok::<AbsoluteOrientation, Error>(self.orientation()),
    {
        Ok(self.state)
    }

    fn set_orientation(&mut self, orientation: AbsoluteOrientation) -> (r: Result<()>)
        ensures
            r == Ok::<(), Error>(()),
            final(self).orientation() == orientation,
    {
        self.state = orientation;
        Ok(())
    }
}

} // verus!
