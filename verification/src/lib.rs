//! Screen rotation driven by an accelerometer.
//!
//! The library holds the decisions: the algebra of rotations and
//! orientations, the classifier that turns a gravity vector into one of four
//! orientations, the client of the compositor's output-management protocol,
//! and the backends that name the requests to send and the commands to run.
//! It reads no file, opens no socket and starts no process: whoever uses it
//! reads on its behalf, hands over what was read, and carries out what it
//! answers.

pub mod backends;
pub mod classifier;
pub mod command;
pub mod devices;
pub mod error;
pub mod gravity;
pub mod hyprland;
pub mod mainloop;
pub mod orientation;
pub mod pattern;
pub mod protocol_laws;
pub mod sensors;
pub mod sway;
pub mod text;
pub mod transform;
pub mod wayland;
pub mod xorg;
