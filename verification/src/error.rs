//! The error kinds that motion planning, the stepper kinematics and the
//! serial codec can raise.

use vstd::prelude::*;

verus! {

/// Everything that can go wrong while planning or executing a motion.
#[derive(Clone, Copy, Debug, PartialEq, Eq, Structural)]
pub enum Error {
    /// The velocity or the path distance is zero, so no duration exists.
    InvalidMotion,
    /// A target's derived physical quantity falls outside the motor's
    /// configured travel range.
    OutOfRange,
    /// A computed step count does not fit the signed 16-bit step
    /// representation.
    StepOverflow,
    /// A channel read or write failed.
    TransportError,
    /// Fewer bytes arrived than a fixed-size step reply requires.
    ProtocolError,
}

impl Error {
    /// A short human-readable description, for diagnostics outside the
    /// library.
    pub fn message(&self) -> (r: &'static str)
    {
        match self {
            Error::InvalidMotion => "velocity or path distance is zero",
            Error::OutOfRange => "target outside the motor's travel range",
            Error::StepOverflow => "step count does not fit 16 bits",
            Error::TransportError => "channel read or write failed",
            Error::ProtocolError => "incomplete step reply",
        }
    }
}

} // verus!
