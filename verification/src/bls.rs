//! BLS signatures: a signature is the digest of the message multiplied by the
//! secret, and signatures and keys are aggregated by adding them up.
use vstd::prelude::*;
use crate::algebra::{
    fadd, fmul, generator, law_sum_concat, law_sum_order_free, lemma_fadd_assoc_comm,
    lemma_fmul_assoc_comm, lemma_fmul_one, lemma_reduce_bound, lemma_sum_bound,
    lemma_sum_scaled, lemma_sum_step, pairing, sum,
};
use crate::error::Error;
use crate::g1::G1Point;
use crate::g2::G2Point;
use crate::hash::{digest, hash_to_curve};
use crate::keys::public_key_of;
use crate::pairing::pairings_agree;
use crate::scalar::Scalar;

verus! {

/// The exponent of the signature of the holder of `secret` on a message with
/// digest `digest`.
pub open spec fn signature_over(digest: nat, secret: nat) -> nat {
    fmul(digest, secret)
}

/// Whether `signature` is accepted for `key` on a message with digest
/// `digest`: whether `e(key, digest)` equals `e(generator, signature)`.
pub open spec fn signature_accepted(key: nat, signature: nat, digest: nat) -> bool {
    pairing(key, digest) == pairing(generator(), signature)
}

/// The exponents of a sequence of points of G1.
pub open spec fn g1_exponents(points: Seq<G1Point>) -> Seq<nat> {
    Seq::new(points.len(), |i: int| points[i]@)
}

/// The exponents of a sequence of points of G2.
pub open spec fn g2_exponents(points: Seq<G2Point>) -> Seq<nat> {
    Seq::new(points.len(), |i: int| points[i]@)
}

/// The signature of the holder of `secret` on a message that is hashed to
/// `digest`.
pub fn sign_digest(secret: &Scalar, digest: &G2Point) -> (signature: G2Point)
    ensures
        signature@ == signature_over(digest@, secret@),
{
    digest.mul(secret)
}

/// The signature of the holder of `secret` on `message`.
pub fn bls_sign(secret: &Scalar, message: &[u8]) -> (signature: Result<G2Point, Error>)
    ensures
        match digest(message@) {
            Some(d) => signature is Ok && signature.unwrap()@ == signature_over(d, secret@),
            None => signature matches Err(e) && e == Error::HashToCurveError,
        },
{
    match hash_to_curve(message) {
        Ok(point) => Ok(sign_digest(secret, &point)),
        Err(e) => Err(e),
    }
}

/// Checks `signature` for `key` on a message that is hashed to `digest`.
pub fn verify_digest(key: &G1Point, signature: &G2Point, digest: &G2Point) -> (checked: Result<
    (),
    Error,
>)
    ensures
        checked is Ok <==> signature_accepted(key@, signature@, digest@),
        checked matches Err(e) ==> e == Error::SignatureMismatch,
{
    let g = G1Point::generator();
    if pairings_agree(key, digest, &g, signature) {
        Ok(())
    } else {
        Err(Error::SignatureMismatch)
    }
}

/// Checks `signature` for `key` on `message`.
pub fn bls_verify(key: &G1Point, signature: &G2Point, message: &[u8]) -> (checked: Result<
    (),
    Error,
>)
    ensures
        match digest(message@) {
            Some(d) => {
                &&& checked is Ok <==> signature_accepted(key@, signature@, d)
                &&& checked matches Err(e) ==> e == Error::SignatureMismatch
            },
            None => checked matches Err(e) && e == Error::HashToCurveError,
        },
{
    match hash_to_curve(message) {
        Ok(point) => verify_digest(key, signature, &point),
        Err(e) => Err(e),
    }
}

/// The sum of the given keys; the neutral element for none.
pub fn aggregate_keys(keys: &Vec<G1Point>) -> (aggregate: G1Point)
    ensures
        aggregate@ == sum(g1_exponents(keys@)),
{
    let mut aggregate = G1Point::identity();
    let mut i: usize = 0;
    while i < keys.len()
        invariant
            i <= keys.len(),
            aggregate@ == sum(g1_exponents(keys@).take(i as int)),
        decreases keys.len() - i,
    {
        proof {
            lemma_sum_step(g1_exponents(keys@), i as int);
        }
        aggregate = aggregate.add(&keys[i]);
        i += 1;
    }
    assert(g1_exponents(keys@).take(i as int) =~= g1_exponents(keys@));
    aggregate
}

/// The sum of the given signatures; the neutral element for none.
pub fn aggregate_signatures(signatures: &Vec<G2Point>) -> (aggregate: G2Point)
    ensures
        aggregate@ == sum(g2_exponents(signatures@)),
{
    let mut aggregate = G2Point::identity();
    let mut i: usize = 0;
    while i < signatures.len()
        invariant
            i <= signatures.len(),
            aggregate@ == sum(g2_exponents(signatures@).take(i as int)),
        decreases signatures.len() - i,
    {
        proof {
            lemma_sum_step(g2_exponents(signatures@), i as int);
        }
        aggregate = aggregate.add(&signatures[i]);
        i += 1;
    }
    assert(g2_exponents(signatures@).take(i as int) =~= g2_exponents(signatures@));
    aggregate
}

/// An honest signature is accepted: the signature of the holder of a secret on
/// a message is accepted for the public key of that secret on that message.
pub proof fn law_honest_signature_accepted(secret: nat, digest: nat)
    ensures
        signature_accepted(public_key_of(secret), signature_over(digest, secret), digest),
{
    // e(1 * s, d) = e(1, s * d) = e(1, d * s)
    lemma_fmul_assoc_comm(1, secret, digest);
    lemma_fmul_assoc_comm(secret, digest, 0);
}

/// Aggregation does not depend on the order of what is aggregated, nor on how
/// it is grouped: sequences that hold the same points, each as often as the
/// other, have one aggregate, and the aggregate of two sequences put together
/// is the sum of their aggregates.
pub proof fn law_aggregation_order_free(first: Seq<nat>, second: Seq<nat>)
    ensures
        first.to_multiset() == second.to_multiset() ==> sum(first) == sum(second),
        sum(first + second) == fadd(sum(first), sum(second)),
        sum(first + second) == sum(second + first),
{
    if first.to_multiset() == second.to_multiset() {
        law_sum_order_free(first, second);
    }
    law_sum_concat(first, second);
    law_sum_concat(second, first);
    lemma_fadd_assoc_comm(sum(first), sum(second), 0);
}

/// Honest aggregation is accepted: where every signature is that of the holder
/// of the secret of the same position on one message, the sum of the
/// signatures is accepted for the sum of the public keys on that message.
pub proof fn law_honest_aggregate_accepted(secrets: Seq<nat>, digest: nat)
    ensures
        signature_accepted(
            sum(Seq::new(secrets.len(), |i: int| public_key_of(secrets[i]))),
            sum(Seq::new(secrets.len(), |i: int| signature_over(digest, secrets[i]))),
            digest,
        ),
{
    let keys = Seq::new(secrets.len(), |i: int| public_key_of(secrets[i]));
    let signatures = Seq::new(secrets.len(), |i: int| signature_over(digest, secrets[i]));
    // every signature is its key multiplied by the digest
    assert forall|i: int| 0 <= i < keys.len() implies signatures[i] == fmul(
        #[trigger] keys[i],
        digest,
    ) by {
        lemma_fmul_assoc_comm(1, secrets[i], digest);
        lemma_fmul_assoc_comm(secrets[i], digest, 0);
        lemma_fmul_one(fmul(digest, secrets[i]));
        lemma_reduce_bound((digest * secrets[i]) as int);
    }
    lemma_sum_scaled(keys, signatures, digest);
    lemma_sum_bound(signatures);
    lemma_fmul_one(sum(signatures));
}

} // verus!
