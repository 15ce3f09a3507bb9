//! The ways in which a check of this crate fails.
use vstd::prelude::*;

verus! {

/// Why an operation was refused. No failure is recovered from: whoever gets
/// one of these stops.
#[derive(Clone, Copy, Debug, PartialEq, Eq, Structural)]
pub enum Error {
    /// A proof of possession does not fit the key and the position it was
    /// presented for.
    PoKMismatch,
    /// A signature does not fit the key and the message it was presented for.
    SignatureMismatch,
    /// The bytes of a registry are cut short or hold what is no point.
    DeserializationError,
    /// The message could not be mapped to a point of G2.
    HashToCurveError,
}

} // verus!
