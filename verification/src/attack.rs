//! The rogue key: how a newcomer registers a key whose secret nobody holds,
//! with a proof of possession that is accepted, and then signs alone for the
//! whole registry.
//!
//! The base points of the positions are multiples of one another, so a proof
//! that was accepted at one position can be turned into the proof of the same
//! secret at any other position by whoever sees it. The newcomer at position
//! `n` takes a key pair of its own, registers its public key minus all the
//! keys of the registry, and as proof its own proof minus the proofs of all
//! the others, each turned into a proof at position `n`. The aggregate of all
//! keys is then the newcomer's own public key.
use vstd::prelude::*;
use crate::algebra::{
    fadd, finv, fmul, fsub, is_inverse, lemma_fadd_assoc_comm, lemma_fadd_zero,
    lemma_fmul_assoc_comm, lemma_fmul_distributes, lemma_fmul_one, lemma_fsub_cancel,
    lemma_fsub_fneg, lemma_inverse_exists, lemma_reduce_bound, lemma_reduce_mul,
    lemma_reduce_small, lemma_sum_scaled, lemma_sum_step, order, reduce, sum,
};
use crate::bls::{
    bls_verify, law_honest_signature_accepted, sign_digest, signature_accepted, signature_over,
};
use crate::error::Error;
use crate::g1::G1Point;
use crate::g2::G2Point;
use crate::hash::{digest, hash_to_curve};
use crate::keys::{public_key, public_key_of};
use crate::pok::{
    accepts_over, base_point_at, pok_base, pok_base_point, proof_over, prove_over, verify_over,
};
use crate::registry::{
    aggregate_key, aggregate_key_of, all_accepted_over, decoded_registry, is_registry, keys_of,
    parse_registry, proofs_of, registry_view, verify_all_over, RegistryEntry,
};
use crate::scalar::Scalar;

verus! {

/// What the newcomer presents: the key and the proof to register, and the
/// signature to present for the whole registry.
#[derive(Debug)]
pub struct Forgery {
    pub new_key: G1Point,
    pub new_proof: G2Point,
    pub aggregate_signature: G2Point,
}

impl Clone for Forgery {
    fn clone(&self) -> (copy: Forgery)
        ensures
            copy.new_key@ == self.new_key@,
            copy.new_proof@ == self.new_proof@,
            copy.aggregate_signature@ == self.aggregate_signature@,
    {
        Forgery {
            new_key: self.new_key.clone(),
            new_proof: self.new_proof.clone(),
            aggregate_signature: self.aggregate_signature.clone(),
        }
    }
}

/// The scalar that turns a proof of position `index` into the proof of the
/// same secret at position `target`: `target + 1` divided by `index + 1`.
pub open spec fn coefficient(target: nat, index: nat) -> nat {
    fmul(target + 1, finv(index + 1))
}

/// The proofs of a registry, each turned into a proof at position `target`.
pub open spec fn corrections(proofs: Seq<nat>, target: nat) -> Seq<nat> {
    Seq::new(proofs.len(), |i: int| fmul(proofs[i], coefficient(target, i as nat)))
}

/// The exponent of the key that the newcomer registers: its own public key
/// minus every key of the registry.
pub open spec fn forged_key(registry: Seq<(nat, nat)>, secret: nat) -> nat {
    fsub(public_key_of(secret), sum(keys_of(registry)))
}

/// The exponent of the proof that the newcomer registers: its own proof at its
/// position minus every proof of the registry, turned into one at that
/// position.
pub open spec fn forged_proof(base: nat, registry: Seq<(nat, nat)>, secret: nat) -> nat {
    fsub(
        proof_over(base, secret, registry.len()),
        sum(corrections(proofs_of(registry), registry.len())),
    )
}

/// The exponent of the signature that the newcomer presents: its own
/// signature, from which every proof of the registry is taken away and to
/// which every proof of the registry is then added again.
pub open spec fn forged_signature(digest: nat, registry: Seq<(nat, nat)>, secret: nat) -> nat {
    fadd(fsub(signature_over(digest, secret), sum(proofs_of(registry))), sum(proofs_of(registry)))
}

/// Whether `forgery` is what the newcomer with `secret` presents to
/// `registry`, over the base point `base` of position zero and for a message
/// with digest `digest`; and, where every entry of the registry holds an
/// accepted proof, that it is accepted.
pub open spec fn is_forgery(
    forgery: Forgery,
    base: nat,
    digest: nat,
    registry: Seq<(nat, nat)>,
    secret: nat,
) -> bool {
    &&& forgery.new_key@ == forged_key(registry, secret)
    &&& forgery.new_proof@ == forged_proof(base, registry, secret)
    &&& forgery.aggregate_signature@ == forged_signature(digest, registry, secret)
    &&& all_accepted_over(base, registry) ==> {
        &&& accepts_over(base, forgery.new_key@, registry.len(), forgery.new_proof@)
        &&& signature_accepted(
            aggregate_key_of(registry, Some(forgery.new_key@)),
            forgery.aggregate_signature@,
            digest,
        )
    }
}

/// Whether every position of a registry of `len` entries has an inverse in the
/// scalar field, which `finv` then names.
pub open spec fn positions_invertible(len: nat) -> bool {
    forall|i: nat| i < len ==> is_inverse(i + 1, #[trigger] finv(i + 1))
}

/// The positions of a registry of fewer than `r` entries are invertible.
pub proof fn lemma_positions_invertible(len: nat)
    requires
        len < order(),
    ensures
        positions_invertible(len),
{
    assert forall|i: nat| i < len implies is_inverse(i + 1, #[trigger] finv(i + 1)) by {
        lemma_reduce_small((i + 1) as int);
        lemma_inverse_exists(i + 1);
    }
}

/// An accepted proof of position `index`, multiplied by the coefficient for
/// `target`, is the key multiplied by the base point of position `target`.
proof fn lemma_correction(base: nat, key: nat, proof: nat, index: nat, target: nat)
    requires
        accepts_over(base, key, index, proof),
        is_inverse(index + 1, finv(index + 1)),
    ensures
        fmul(proof, coefficient(target, index)) == fmul(key, base_point_at(base, target)),
{
    let v = finv(index + 1);
    let i = (index + 1) as int;
    let n = (target + 1) as int;
    let a = key as int;
    let b = base as int;
    // proof is congruent to key * (base * i)
    lemma_fmul_one(proof);
    lemma_reduce_mul(a, b * i);
    assert(reduce(proof as int) == reduce(a * (b * i)));
    // so proof * (n * v) is congruent to (a * (b * i)) * (n * v)
    lemma_reduce_mul(proof as int, n * v);
    lemma_reduce_mul(a * (b * i), n * v);
    assert(fmul(proof, coefficient(target, index)) == reduce((a * (b * i)) * (n * v)));
    // which is (a * (b * n)) * (i * v), and i * v is congruent to one
    assert((a * (b * i)) * (n * v) == (a * (b * n)) * (i * v)) by (nonlinear_arith);
    lemma_reduce_mul(a * (b * n), i * v);
    assert((a * (b * n)) * 1 == a * (b * n)) by (nonlinear_arith);
    lemma_reduce_mul(a, b * n);
}

/// The proofs of a registry whose entries are all accepted, turned into proofs
/// at the position behind the last entry, add up to the sum of the keys
/// multiplied by the base point of that position.
proof fn lemma_turned_proofs(base: nat, registry: Seq<(nat, nat)>)
    requires
        all_accepted_over(base, registry),
        positions_invertible(registry.len()),
    ensures
        sum(corrections(proofs_of(registry), registry.len())) == fmul(
            sum(keys_of(registry)),
            base_point_at(base, registry.len()),
        ),
{
    let n = registry.len();
    let keys = keys_of(registry);
    let point = base_point_at(base, n);
    let turned = corrections(proofs_of(registry), n);
    assert forall|i: int| 0 <= i < keys.len() implies turned[i] == fmul(
        #[trigger] keys[i],
        point,
    ) by {
        let entry = registry[i];
        assert(is_inverse((i + 1) as nat, finv((i + 1) as nat)));
        lemma_correction(base, entry.0, entry.1, i as nat, n);
    }
    lemma_sum_scaled(keys, turned, point);
}

/// A key `own - others` is accepted at a position with the proof
/// `own proof - others * base point`: the check is linear in the key.
proof fn lemma_difference_accepted(base: nat, secret: nat, others: nat, index: nat)
    ensures
        accepts_over(
            base,
            fsub(public_key_of(secret), others),
            index,
            fsub(proof_over(base, secret, index), fmul(others, base_point_at(base, index))),
        ),
{
    let point = base_point_at(base, index);
    let own_key = public_key_of(secret);
    let own_proof = proof_over(base, secret, index);
    let key = fsub(own_key, others);
    let proof = fsub(own_proof, fmul(others, point));
    // e(own key, point) is e(generator, own proof)
    assert(fmul(own_key, point) == own_proof) by {
        lemma_fmul_assoc_comm(1, secret, point);
        lemma_fmul_assoc_comm(secret, point, 0);
        lemma_reduce_bound((point * secret) as int);
        lemma_fmul_one(own_proof);
    }
    assert(fmul(key, point) == proof) by {
        lemma_fmul_distributes(own_key, others, point);
    }
    assert(fmul(1, proof) == proof) by {
        lemma_reduce_bound(own_proof - fmul(others, point));
        lemma_fmul_one(proof);
    }
}

/// The forgery is accepted. Where every entry of the registry holds an
/// accepted proof, the key and the proof of the newcomer are accepted at the
/// position behind the last entry, and the signature of the newcomer is
/// accepted for the aggregate of all keys, the new one among them: for every
/// registry, secret and message, and although nobody holds the secret of the
/// new key. The aggregate key is the newcomer's own public key, and the
/// signature its own signature.
pub proof fn law_forgery_accepted(base: nat, digest: nat, registry: Seq<(nat, nat)>, secret: nat)
    requires
        all_accepted_over(base, registry),
        registry.len() < order(),
    ensures
        accepts_over(
            base,
            forged_key(registry, secret),
            registry.len(),
            forged_proof(base, registry, secret),
        ),
        aggregate_key_of(registry, Some(forged_key(registry, secret))) == public_key_of(secret),
        forged_signature(digest, registry, secret) == signature_over(digest, secret),
        signature_accepted(
            aggregate_key_of(registry, Some(forged_key(registry, secret))),
            forged_signature(digest, registry, secret),
            digest,
        ),
{
    let keys = keys_of(registry);
    let proofs = proofs_of(registry);
    assert(accepts_over(
        base,
        forged_key(registry, secret),
        registry.len(),
        forged_proof(base, registry, secret),
    )) by {
        lemma_positions_invertible(registry.len());
        lemma_turned_proofs(base, registry);
        lemma_difference_accepted(base, secret, sum(keys), registry.len());
    }
    assert(aggregate_key_of(registry, Some(forged_key(registry, secret))) == public_key_of(
        secret,
    )) by {
        lemma_reduce_bound((1 * secret) as int);
        lemma_fsub_cancel(public_key_of(secret), sum(keys));
    }
    assert(forged_signature(digest, registry, secret) == signature_over(digest, secret)) by {
        lemma_reduce_bound((digest * secret) as int);
        lemma_fsub_cancel(signature_over(digest, secret), sum(proofs));
    }
    law_honest_signature_accepted(secret, digest);
}

/// What the newcomer presents, over the base point `base` of position zero
/// and for a message that is hashed to `digest`.
pub fn forge_over(
    base: &G2Point,
    digest: &G2Point,
    registry: &Vec<RegistryEntry>,
    secret: &Scalar,
) -> (forgery: Forgery)
    ensures
        is_forgery(forgery, base@, digest@, registry_view(registry@), secret@),
{
    let ghost view = registry_view(registry@);
    let ghost keys = keys_of(view);
    let ghost proofs = proofs_of(view);
    let n = registry.len();
    let ghost turned = corrections(proofs, n as nat);

    // the key: the newcomer's own, minus every key of the registry
    let own_key = public_key(secret);
    let mut new_key = own_key.clone();
    proof {
        use_type_invariant(&own_key);
        own_key.lemma_well_formed();
        lemma_reduce_small(own_key@ as int);
    }
    let mut i: usize = 0;
    while i < n
        invariant
            i <= n,
            n == registry@.len(),
            keys == keys_of(registry_view(registry@)),
            new_key@ == fsub(public_key_of(secret@), sum(keys.take(i as int))),
        decreases n - i,
    {
        proof {
            lemma_sum_step(keys, i as int);
            lemma_fsub_fneg(
                public_key_of(secret@),
                sum(keys.take(i as int)),
                keys[i as int],
            );
        }
        new_key = new_key.add(&registry[i].public_key.neg());
        i += 1;
    }
    assert(keys.take(n as int) =~= keys);

    // the proof: the newcomer's own, minus every proof of the registry turned
    // into a proof at the new position
    let own_proof = prove_over(base, secret, n);
    let target = Scalar::from_u128(n as u128 + 1);
    let mut new_proof = own_proof.clone();
    proof {
        use_type_invariant(&own_proof);
        own_proof.lemma_well_formed();
        lemma_reduce_small(own_proof@ as int);
    }
    let mut i: usize = 0;
    while i < n
        invariant
            i <= n,
            n == registry@.len(),
            target@ == n + 1,
            proofs == proofs_of(registry_view(registry@)),
            turned == corrections(proofs, n as nat),
            new_proof@ == fsub(
                proof_over(base@, secret@, n as nat),
                sum(turned.take(i as int)),
            ),
        decreases n - i,
    {
        let position = Scalar::from_u128(i as u128 + 1);
        let coefficient = match position.inverse() {
            Some(inverse) => target.mul(&inverse),
            None => {
                assert(false);
                target
            },
        };
        proof {
            lemma_sum_step(turned, i as int);
            lemma_fsub_fneg(
                proof_over(base@, secret@, n as nat),
                sum(turned.take(i as int)),
                turned[i as int],
            );
        }
        new_proof = new_proof.add(&registry[i].proof.mul(&coefficient).neg());
        i += 1;
    }
    assert(turned.take(n as int) =~= turned);

    // the signature: the newcomer's own, minus every proof of the registry,
    // plus every proof of the registry
    let own_signature = sign_digest(secret, digest);
    let mut reduced = own_signature.clone();
    proof {
        use_type_invariant(&own_signature);
        own_signature.lemma_well_formed();
        lemma_reduce_small(own_signature@ as int);
    }
    let mut i: usize = 0;
    while i < n
        invariant
            i <= n,
            n == registry@.len(),
            proofs == proofs_of(registry_view(registry@)),
            reduced@ == fsub(signature_over(digest@, secret@), sum(proofs.take(i as int))),
        decreases n - i,
    {
        proof {
            lemma_sum_step(proofs, i as int);
            lemma_fsub_fneg(
                signature_over(digest@, secret@),
                sum(proofs.take(i as int)),
                proofs[i as int],
            );
        }
        reduced = reduced.add(&registry[i].proof.neg());
        i += 1;
    }
    assert(proofs.take(n as int) =~= proofs);
    let mut aggregate_signature = reduced.clone();
    proof {
        use_type_invariant(&reduced);
        reduced.lemma_well_formed();
        lemma_fadd_zero(reduced@);
    }
    let mut i: usize = 0;
    while i < n
        invariant
            i <= n,
            n == registry@.len(),
            proofs == proofs_of(registry_view(registry@)),
            aggregate_signature@ == fadd(reduced@, sum(proofs.take(i as int))),
        decreases n - i,
    {
        proof {
            lemma_sum_step(proofs, i as int);
            lemma_fadd_assoc_comm(
                reduced@,
                sum(proofs.take(i as int)),
                proofs[i as int],
            );
        }
        aggregate_signature = aggregate_signature.add(&registry[i].proof);
        i += 1;
    }
    assert(proofs.take(n as int) =~= proofs);
    proof {
        if all_accepted_over(base@, view) {
            law_forgery_accepted(base@, digest@, view, secret@);
        }
    }
    Forgery { new_key, new_proof, aggregate_signature }
}

/// What the newcomer with `secret` presents to `registry` for `message`.
pub fn forge(registry: &Vec<RegistryEntry>, secret: &Scalar, message: &[u8]) -> (forgery: Result<
    Forgery,
    Error,
>)
    ensures
        match digest(message@) {
            Some(d) => forgery matches Ok(f) && is_forgery(
                f,
                pok_base(),
                d,
                registry_view(registry@),
                secret@,
            ),
            None => forgery matches Err(e) && e == Error::HashToCurveError,
        },
{
    match hash_to_curve(message) {
        Ok(point) => {
            let base = pok_base_point();
            Ok(forge_over(&base, &point, registry, secret))
        },
        Err(e) => Err(e),
    }
}

/// The whole demonstration on a persisted registry: reads it, checks every
/// entry, has the newcomer with `secret` forge its entry and the signature on
/// `message`, and checks both as the registry would. The checks of what was
/// forged never fail, so the only failures are those of the registry as it was
/// found, and of the hashing of the message.
pub fn demonstrate(data: &[u8], secret: &Scalar, message: &[u8]) -> (outcome: Result<
    Forgery,
    Error,
>)
    ensures
        !is_registry(data@) ==> (outcome matches Err(e) && e == Error::DeserializationError),
        is_registry(data@) && !all_accepted_over(pok_base(), decoded_registry(data@))
            ==> (outcome matches Err(e) && e == Error::PoKMismatch),
        is_registry(data@) && all_accepted_over(pok_base(), decoded_registry(data@)) ==> match digest(
            message@,
        ) {
            Some(d) => outcome matches Ok(f) && is_forgery(
                f,
                pok_base(),
                d,
                decoded_registry(data@),
                secret@,
            ),
            None => outcome matches Err(e) && e == Error::HashToCurveError,
        },
{
    let registry = match parse_registry(data) {
        Ok(registry) => registry,
        Err(e) => {
            return Err(e);
        },
    };
    let base = pok_base_point();
    match verify_all_over(&base, &registry) {
        Ok(_) => {},
        Err(e) => {
            return Err(e);
        },
    }
    let forgery = match forge(&registry, secret, message) {
        Ok(forgery) => forgery,
        Err(e) => {
            return Err(e);
        },
    };
    match verify_over(&base, &forgery.new_key, registry.len(), &forgery.new_proof) {
        Ok(_) => {},
        Err(e) => {
            return Err(e);
        },
    }
    let aggregate = aggregate_key(&registry, Some(&forgery.new_key));
    match bls_verify(&aggregate, &forgery.aggregate_signature, message) {
        Ok(_) => {},
        Err(e) => {
            return Err(e);
        },
    }
    Ok(forgery)
}

} // verus!
