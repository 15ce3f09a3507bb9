//! Key pairs: a secret scalar and the point of G1 that it yields.
use vstd::prelude::*;
use crate::algebra::{fmul, generator};
use crate::g1::G1Point;
use crate::scalar::Scalar;

verus! {

/// The exponent of the public key of `secret`: the generator of G1 multiplied
/// by the secret.
pub open spec fn public_key_of(secret: nat) -> nat {
    fmul(generator(), secret)
}

/// The public key of `secret`.
pub fn public_key(secret: &Scalar) -> (key: G1Point)
    ensures
        key@ == public_key_of(secret@),
{
    G1Point::generator().mul(secret)
}

} // verus!
