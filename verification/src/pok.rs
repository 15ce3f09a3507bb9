//! Proofs of possession: the proof that who registers a public key at a
//! position of the registry holds the secret behind it.
//!
//! Every position has a base point of G2 of its own, and all of them are
//! multiples of one point: the base point of position `i` is `i + 1` times the
//! point of position zero. A proof for a key at a position is that position's
//! base point multiplied by the secret.
use vstd::prelude::*;
use crate::algebra::{
    fmul, generator, lemma_fmul_assoc_comm, lemma_fmul_cancel, lemma_fmul_nonzero,
    lemma_fmul_one, lemma_reduce_bound, lemma_reduce_small, order, pairing,
};
use crate::error::Error;
use crate::g1::G1Point;
use crate::g2::{g2_decode, seeded_g2, G2Point};
use crate::keys::public_key_of;
use crate::pairing::pairings_agree;
use crate::scalar::Scalar;

verus! {

/// The seed from which the base point of position zero is drawn.
pub const POK_SEED: u64 = 20399;

/// The exponent of the base point of position `index`, where `base` is that of
/// position zero.
pub open spec fn base_point_at(base: nat, index: nat) -> nat {
    fmul(base, index + 1)
}

/// The exponent of the proof that the holder of `secret` gives at position
/// `index`.
pub open spec fn proof_over(base: nat, secret: nat, index: nat) -> nat {
    fmul(base_point_at(base, index), secret)
}

/// Whether `proof` is accepted for `key` at position `index`: whether
/// `e(key, base point)` equals `e(generator, proof)`.
pub open spec fn accepts_over(base: nat, key: nat, index: nat, proof: nat) -> bool {
    pairing(key, base_point_at(base, index)) == pairing(generator(), proof)
}

/// The exponent of the base point of position zero of this scheme.
pub open spec fn pok_base() -> nat {
    g2_decode(seeded_g2(POK_SEED)).unwrap()
}

/// The exponent of the base point of position `index` of this scheme.
pub open spec fn pok_point(index: nat) -> nat {
    base_point_at(pok_base(), index)
}

/// The exponent of the proof of this scheme for `secret` at position `index`.
pub open spec fn pok_proof(secret: nat, index: nat) -> nat {
    proof_over(pok_base(), secret, index)
}

/// Whether this scheme accepts `proof` for `key` at position `index`.
pub open spec fn pok_accepts(key: nat, index: nat, proof: nat) -> bool {
    accepts_over(pok_base(), key, index, proof)
}

/// The base point of position zero of this scheme.
pub fn pok_base_point() -> (base: G2Point)
    ensures
        base@ == pok_base(),
{
    G2Point::seeded(POK_SEED)
}

/// The base point of position `index`, where `base` is that of position zero.
pub fn derive_point_from(base: &G2Point, index: usize) -> (point: G2Point)
    ensures
        point@ == base_point_at(base@, index as nat),
{
    let position = Scalar::from_u128(index as u128 + 1);
    base.mul(&position)
}

/// The base point of position `index` of this scheme.
pub fn derive_point_for_pok(index: usize) -> (point: G2Point)
    ensures
        point@ == pok_point(index as nat),
{
    let base = pok_base_point();
    derive_point_from(&base, index)
}

/// The proof of possession of `secret` at position `index`, over the base
/// point `base` of position zero.
pub fn prove_over(base: &G2Point, secret: &Scalar, index: usize) -> (proof: G2Point)
    ensures
        proof@ == proof_over(base@, secret@, index as nat),
{
    derive_point_from(base, index).mul(secret)
}

/// The proof of possession of `secret` at position `index`.
pub fn pok_prove(secret: &Scalar, index: usize) -> (proof: G2Point)
    ensures
        proof@ == pok_proof(secret@, index as nat),
{
    derive_point_for_pok(index).mul(secret)
}

/// Checks `proof` for `key` at position `index`, over the base point `base` of
/// position zero.
pub fn verify_over(base: &G2Point, key: &G1Point, index: usize, proof: &G2Point) -> (checked:
    Result<(), Error>)
    ensures
        checked is Ok <==> accepts_over(base@, key@, index as nat, proof@),
        checked matches Err(e) ==> e == Error::PoKMismatch,
{
    let point = derive_point_from(base, index);
    let g = G1Point::generator();
    if pairings_agree(key, &point, &g, proof) {
        Ok(())
    } else {
        Err(Error::PoKMismatch)
    }
}

/// Checks `proof` for `key` at position `index`.
pub fn pok_verify(key: &G1Point, index: usize, proof: &G2Point) -> (checked: Result<(), Error>)
    ensures
        checked is Ok <==> pok_accepts(key@, index as nat, proof@),
        checked matches Err(e) ==> e == Error::PoKMismatch,
{
    let base = pok_base_point();
    verify_over(&base, key, index, proof)
}

/// An honest proof is accepted: the proof that the holder of a secret gives at
/// a position is accepted for the public key of that secret at that position.
pub proof fn law_honest_proof_accepted(base: nat, secret: nat, index: nat)
    ensures
        accepts_over(base, public_key_of(secret), index, proof_over(base, secret, index)),
        pok_accepts(public_key_of(secret), index, pok_proof(secret, index)),
{
    lemma_honest_proof_accepted(base, secret, index);
    lemma_honest_proof_accepted(pok_base(), secret, index);
}

proof fn lemma_honest_proof_accepted(base: nat, secret: nat, index: nat)
    ensures
        accepts_over(base, public_key_of(secret), index, proof_over(base, secret, index)),
{
    let point = base_point_at(base, index);
    // e(1 * s, H) = e(1, s * H) = e(1, H * s)
    lemma_fmul_assoc_comm(1, secret, point);
    lemma_fmul_assoc_comm(secret, point, 0);
}

/// The two sides of the check at position `index`, for the proof that the
/// holder of `secret` gave at position `origin`, are the two positions (each
/// plus one) multiplied by the same factor.
proof fn lemma_accepts_as_products(base: nat, secret: nat, origin: nat, index: nat)
    ensures
        accepts_over(base, public_key_of(secret), index, proof_over(base, secret, origin)) <==> fmul(
            index + 1,
            fmul(secret, base),
        ) == fmul(origin + 1, fmul(secret, base)),
{
    let x = fmul(secret, base);
    // left: e(1 * s, base * (index + 1))
    lemma_fmul_assoc_comm(1, secret, fmul(base, index + 1));
    lemma_fmul_assoc_comm(secret, base, index + 1);
    lemma_fmul_assoc_comm(x, index + 1, 0);
    lemma_fmul_one(fmul(secret, fmul(base, index + 1)));
    lemma_reduce_bound((secret * fmul(base, index + 1)) as int);
    // right: e(1, (base * (origin + 1)) * s)
    lemma_fmul_assoc_comm(fmul(base, origin + 1), secret, 0);
    lemma_fmul_assoc_comm(secret, base, origin + 1);
    lemma_fmul_assoc_comm(x, origin + 1, 0);
    lemma_fmul_one(fmul(fmul(base, origin + 1), secret));
    lemma_reduce_bound((fmul(base, origin + 1) * secret) as int);
}

/// A proof is bound to its position: the proof that the holder of a secret
/// gave at one position is rejected for the same key at every other position,
/// unless the secret or the base point is zero.
pub proof fn law_proof_bound_to_position(base: nat, secret: nat, origin: nat, index: nat)
    requires
        0 < secret < order(),
        0 < base < order(),
        origin != index,
        origin + 1 < order(),
        index + 1 < order(),
    ensures
        !accepts_over(base, public_key_of(secret), index, proof_over(base, secret, origin)),
{
    lemma_accepts_as_products(base, secret, origin, index);
    let x = fmul(secret, base);
    if fmul(index + 1, x) == fmul(origin + 1, x) {
        lemma_reduce_small(secret as int);
        lemma_reduce_small(base as int);
        lemma_fmul_nonzero(secret, base);
        lemma_reduce_bound((secret * base) as int);
        lemma_reduce_small(x as int);
        lemma_fmul_cancel(index + 1, origin + 1, x);
        lemma_reduce_small((index + 1) as int);
        lemma_reduce_small((origin + 1) as int);
    }
}

/// At most one proof is accepted for a key at a position: whoever replaces an
/// accepted proof by another point has it rejected.
pub proof fn law_accepted_proof_unique(base: nat, key: nat, index: nat, proof: nat, other: nat)
    requires
        proof < order(),
        other < order(),
        accepts_over(base, key, index, proof),
        accepts_over(base, key, index, other),
    ensures
        proof == other,
{
    lemma_fmul_one(proof);
    lemma_fmul_one(other);
}

/// At most one key is accepted with a proof at a position, unless the base
/// point is zero: whoever replaces the key of an accepted entry by another
/// point has the entry rejected.
pub proof fn law_accepted_key_unique(base: nat, key: nat, other: nat, index: nat, proof: nat)
    requires
        0 < base < order(),
        index + 1 < order(),
        key < order(),
        other < order(),
        accepts_over(base, key, index, proof),
        accepts_over(base, other, index, proof),
    ensures
        key == other,
{
    let point = base_point_at(base, index);
    lemma_reduce_small(base as int);
    lemma_reduce_small((index + 1) as int);
    lemma_fmul_nonzero(base, index + 1);
    lemma_reduce_bound((base * (index + 1)) as int);
    lemma_reduce_small(point as int);
    lemma_fmul_cancel(key, other, point);
    lemma_reduce_small(key as int);
    lemma_reduce_small(other as int);
}

} // verus!
