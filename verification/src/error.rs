//! Error types.

use vstd::prelude::*;

verus! {

/// `std::io::Error`, carried through as an opaque value.
#[verifier::external_type_specification]
#[verifier::external_body]
pub struct ExIoError(std::io::Error);

/// What can go wrong while reading sensors or talking to a display backend.
#[derive(Debug)]
pub enum Error {
    /// A rotation that is not a multiple of 90 degrees; carries the remainder
    /// of the offending value modulo 360, with the sign of the value.
    InvalidDegrees(isize),
    /// An underlying I/O error.
    IOError(std::io::Error),
    /// The compositor never advertised the output-management extension.
    ProtocolUnsupported,
    /// The configured display was never advertised, or no transform is known for it.
    HeadNotFound,
    /// Tool output did not mention the configured display or device.
    ParseFailure,
    /// An external command could not be started or waited for.
    ExternalToolFailure,
    /// Anything else.
    Unknown,
}

pub type Result<T> = std::result::Result<T, Error>;

} // verus!
