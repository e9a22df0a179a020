//! The failures that initialization and drawing can report.

use vstd::prelude::*;

verus! {

/// What can go wrong when a generator is initialized or drawn from.
#[derive(Clone, Copy, Debug, PartialEq, Eq, Structural)]
pub enum RngError {
    /// The contract identifier is too short to hold the two byte windows that
    /// seed derivation reads.
    MalformedIdentity,
    /// The underlying generator reported a failure during a fallible draw.
    DrawFailure,
}

impl RngError {
    /// A short description of the failure.
    pub fn message(&self) -> (text: &'static str)
        ensures
            text@ == (match *self {
                RngError::MalformedIdentity => "contract identifier is shorter than 32 bytes"@,
                RngError::DrawFailure => "the underlying generator failed to draw"@,
            }),
    {
        match self {
            RngError::MalformedIdentity => "contract identifier is shorter than 32 bytes",
            RngError::DrawFailure => "the underlying generator failed to draw",
        }
    }
}

} // verus!
