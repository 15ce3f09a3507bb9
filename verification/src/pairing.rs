//! The pairing of G1 and G2, as far as the checks of this crate need it.
use vstd::prelude::*;
use ark_bls12_381::{Bls12_381, G1Affine, G2Affine};
use ark_ec::pairing::Pairing;
use ark_serialize::CanonicalDeserialize;
use ark_std::Zero;
use crate::algebra::{fadd, lemma_pairing_product, pairing};
use crate::g1::{g1_decode, is_g1_encoding, G1Point};
use crate::g2::{g2_decode, is_g2_encoding, G2Point};

verus! {

/// Calls `Bls12_381::multi_pairing` on the two pairs and asks `is_zero` of what
/// it returns: whether `e(p, q) * e(u, v)` is the neutral element of GT.
/// The pairing is bilinear and `e(g1, g2)` has order `r`, so that is whether the
/// sum of the two products of exponents is zero modulo `r`.
#[verifier::external_body]
fn pairing_product_is_one(p: &[u8], q: &[u8], u: &[u8], v: &[u8]) -> (one: bool)
    requires
        is_g1_encoding(p@),
        is_g2_encoding(q@),
        is_g1_encoding(u@),
        is_g2_encoding(v@),
    ensures
        one == (fadd(
            pairing(g1_decode(p@).unwrap(), g2_decode(q@).unwrap()),
            pairing(g1_decode(u@).unwrap(), g2_decode(v@).unwrap()),
        ) == 0),
{
    let g1_left = G1Affine::deserialize_uncompressed_unchecked(p).unwrap();
    let g2_left = G2Affine::deserialize_uncompressed_unchecked(q).unwrap();
    let g1_right = G1Affine::deserialize_uncompressed_unchecked(u).unwrap();
    let g2_right = G2Affine::deserialize_uncompressed_unchecked(v).unwrap();
    Bls12_381::multi_pairing([g1_left, g1_right], [g2_left, g2_right]).is_zero()
}

/// Whether `e(p, q)` and `e(u, v)` are the same element of GT. The first
/// pairing is inverted by negating `q`, and the product of the two is compared
/// with the neutral element.
pub fn pairings_agree(p: &G1Point, q: &G2Point, u: &G1Point, v: &G2Point) -> (agree: bool)
    ensures
        agree == (pairing(p@, q@) == pairing(u@, v@)),
{
    let negated = q.neg();
    proof {
        lemma_pairing_product(p@, q@, u@, v@);
    }
    pairing_product_is_one(p.as_bytes(), negated.as_bytes(), u.as_bytes(), v.as_bytes())
}

} // verus!
