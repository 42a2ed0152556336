//! Devices that can be rotated.
//!
//! Two kinds matter: displays, and absolute pointing devices such as
//! touchscreens and digitizers. A mouse needs no rotation: its motion does
//! not depend on how the screen is turned.

use crate::error::Result;
use crate::orientation::AbsoluteOrientation;
use vstd::prelude::*;

pub mod dummy;
pub mod xrandr;

verus! {

/// A device that can be turned to an orientation.
pub trait Rotator {
    /// The orientation of the device.
    fn get_current_orientation(&self) -> Result<AbsoluteOrientation>;

    /// Turns the device to `orientation`.
    fn set_orientation(&mut self, orientation: AbsoluteOrientation) -> Result<()>;
}

/// Something that knows how to find and open rotatable devices of one kind.
pub trait RotatorCreator {
    type Output: Rotator + Sized;

    /// Create a rotatable device with the given arguments.
    fn create_rotator(&self, args: String) -> Result<Self::Output>;

    /// List the found rotatable devices.
    fn available_rotators(&self) -> Result<Vec<String>>;
}

} // verus!
