use vstd::prelude::*;

verus! {

/// The ways in which building key parameters or handling secret material can
/// fail. Validation errors are detected before any generation work runs.
#[derive(Debug, Clone, Copy, PartialEq, Eq, Structural)]
pub enum Error {
    /// An RSA key was requested with fewer bits than the accepted minimum.
    InvalidKeySize,
    /// A capability intent is illegal for the chosen algorithm family.
    InvalidUsage,
    /// The named curve is not accepted for ECDSA keys.
    UnsupportedCurve,
    /// A field that needs an explicit decision was never set on the builder.
    MissingField,
    /// Protected secret material did not unlock with the given passphrase.
    ProtectionFailure,
}

} // verus!
