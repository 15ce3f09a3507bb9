use ark_bls12_381::{g2::Config, Bls12_381, Fr, G1Affine, G1Projective, G2Affine, G2Projective};
use ark_ec::hashing::{
    curve_maps::wb::WBMap, map_to_curve_hasher::MapToCurveBasedHasher, HashToCurve,
};
use ark_ec::pairing::Pairing;
use ark_ec::{AffineRepr, CurveGroup};
use ark_ff::field_hashers::DefaultFieldHasher;
use ark_ff::Field;
use ark_serialize::CanonicalSerialize;
use ark_std::rand::{rngs::StdRng, SeedableRng};
use ark_std::{UniformRand, Zero};
use bls_pop::attack::{demonstrate, forge, forge_over, Forgery};
use bls_pop::bls::{bls_sign, bls_verify, verify_digest};
use bls_pop::error::Error;
use bls_pop::g1::G1Point;
use bls_pop::g2::G2Point;
use bls_pop::hash::hash_to_curve;
use bls_pop::keys::public_key;
use bls_pop::pok::{pok_base_point, pok_prove, pok_verify, prove_over, verify_over};
use bls_pop::registry::{aggregate_key, verify_all, RegistryEntry};
use bls_pop::scalar::Scalar;
use sha2::Sha256;
use std::ops::{Mul, Neg};

const MESSAGE: &[u8] = b"brozorec";

fn honest_registry(secrets: &[u64]) -> Vec<RegistryEntry> {
    secrets
        .iter()
        .enumerate()
        .map(|(i, s)| {
            let secret = Scalar::from_u64(*s);
            RegistryEntry { public_key: public_key(&secret), proof: pok_prove(&secret, i) }
        })
        .collect()
}

fn persist(entries: &[RegistryEntry]) -> Vec<u8> {
    let mut data = (entries.len() as u64).to_le_bytes().to_vec();
    for entry in entries {
        data.extend_from_slice(&entry.public_key.to_bytes());
        data.extend_from_slice(&entry.proof.to_bytes());
    }
    data
}

fn assert_accepted(registry: &[RegistryEntry], forgery: &Forgery, message: &[u8]) {
    let n = registry.len();
    assert_eq!(pok_verify(&forgery.new_key, n, &forgery.new_proof), Ok(()));
    let aggregate = aggregate_key(&registry.to_vec(), Some(&forgery.new_key));
    assert_eq!(bls_verify(&aggregate, &forgery.aggregate_signature, message), Ok(()));
}

// What follows computes the forgery with the curve library alone.

fn reference_point(i: usize) -> G2Affine {
    let rng = &mut StdRng::seed_from_u64(20399u64);
    G2Affine::rand(rng).mul(Fr::from(i as u64 + 1)).into()
}

fn reference_hash(message: &[u8]) -> G2Affine {
    let hasher = MapToCurveBasedHasher::<
        G2Projective,
        DefaultFieldHasher<Sha256, 128>,
        WBMap<Config>,
    >::new(&[1, 3, 3, 7])
    .unwrap();
    hasher.hash(message).unwrap()
}

fn reference_registry(secrets: &[u64]) -> Vec<(G1Affine, G2Affine)> {
    secrets
        .iter()
        .enumerate()
        .map(|(i, s)| {
            let sk = Fr::from(*s);
            (
                G1Affine::generator().mul(sk).into_affine(),
                reference_point(i).mul(sk).into_affine(),
            )
        })
        .collect()
}

fn reference_forgery(
    public_keys: &[(G1Affine, G2Affine)],
    secret: u64,
    message: &[u8],
) -> (G1Affine, G2Affine, G2Affine) {
    let n = public_keys.len();
    let sk_n = Fr::from(secret);
    let pk_n = G1Affine::generator().mul(sk_n).into_affine();
    let pk_n_prime = public_keys
        .iter()
        .fold(G1Projective::from(pk_n), |acc, (key, _)| acc + key.neg())
        .into_affine();
    let pok_n: G2Affine = reference_point(n).mul(sk_n).into();
    let pok_n_prime = public_keys
        .iter()
        .enumerate()
        .fold(G2Projective::from(pok_n), |acc, (i, (_, proof))| {
            let rhs = Fr::from(n as u128 + 1) * Fr::from(i as u128 + 1).inverse().unwrap();
            acc + proof.mul(rhs).neg()
        })
        .into_affine();
    let sig_n = reference_hash(message).mul(sk_n).into_affine();
    let sig_n_prime = public_keys
        .iter()
        .fold(G2Projective::from(sig_n), |acc, (_, proof)| acc + proof.neg())
        .into_affine();
    let sig_agg_prime = public_keys
        .iter()
        .fold(G2Projective::from(sig_n_prime), |acc, (_, proof)| acc + proof)
        .into_affine();
    (pk_n_prime, pok_n_prime, sig_agg_prime)
}

fn reference_pok_accepts(pk: G1Affine, i: usize, proof: G2Affine) -> bool {
    Bls12_381::multi_pairing(&[pk, G1Affine::generator()], &[reference_point(i).neg(), proof])
        .is_zero()
}

fn reference_bls_accepts(pk: G1Affine, sig: G2Affine, message: &[u8]) -> bool {
    Bls12_381::multi_pairing(&[pk, G1Affine::generator()], &[reference_hash(message).neg(), sig])
        .is_zero()
}

fn g1_bytes(point: G1Affine) -> Vec<u8> {
    let mut bytes = Vec::new();
    point.serialize_uncompressed(&mut bytes).unwrap();
    bytes
}

fn g2_bytes(point: G2Affine) -> Vec<u8> {
    let mut bytes = Vec::new();
    point.serialize_uncompressed(&mut bytes).unwrap();
    bytes
}

#[test]
fn the_rogue_key_breaks_a_registry_of_three() {
    let registry = honest_registry(&[1001, 2002, 3003]);
    assert_eq!(verify_all(&registry), Ok(()));
    let secret = Scalar::from_u64(123);
    let forgery = forge(&registry, &secret, MESSAGE).unwrap();
    assert_eq!(pok_verify(&forgery.new_key, 3, &forgery.new_proof), Ok(()));
    let aggregate = aggregate_key(&registry, Some(&forgery.new_key));
    assert_eq!(bls_verify(&aggregate, &forgery.aggregate_signature, MESSAGE), Ok(()));
}

#[test]
fn the_forged_entry_extends_the_registry() {
    let mut registry = honest_registry(&[1001, 2002, 3003]);
    let forgery = forge(&registry, &Scalar::from_u64(123), MESSAGE).unwrap();
    registry.push(RegistryEntry {
        public_key: forgery.new_key.clone(),
        proof: forgery.new_proof.clone(),
    });
    assert_eq!(verify_all(&registry), Ok(()));
    let aggregate = aggregate_key(&registry, None);
    assert_eq!(bls_verify(&aggregate, &forgery.aggregate_signature, MESSAGE), Ok(()));
}

#[test]
fn the_forgery_is_that_of_the_construction() {
    let secrets = [1001u64, 2002, 3003];
    let registry = honest_registry(&secrets);
    let reference = reference_registry(&secrets);
    for (ours, theirs) in registry.iter().zip(reference.iter()) {
        assert_eq!(ours.public_key.to_bytes(), g1_bytes(theirs.0));
        assert_eq!(ours.proof.to_bytes(), g2_bytes(theirs.1));
    }
    let forgery = forge(&registry, &Scalar::from_u64(123), MESSAGE).unwrap();
    let (key, proof, signature) = reference_forgery(&reference, 123, MESSAGE);
    assert_eq!(forgery.new_key.to_bytes(), g1_bytes(key));
    assert_eq!(forgery.new_proof.to_bytes(), g2_bytes(proof));
    assert_eq!(forgery.aggregate_signature.to_bytes(), g2_bytes(signature));
    assert!(reference_pok_accepts(key, 3, proof));
    let aggregate =
        reference.iter().fold(G1Projective::from(key), |acc, (pk, _)| acc + pk).into_affine();
    assert!(reference_bls_accepts(aggregate, signature, MESSAGE));
    assert_eq!(aggregate_key(&registry, Some(&forgery.new_key)).to_bytes(), g1_bytes(aggregate));
}

#[test]
fn the_forged_key_is_not_the_newcomers_own() {
    let registry = honest_registry(&[1001, 2002, 3003]);
    let secret = Scalar::from_u64(123);
    let forgery = forge(&registry, &secret, MESSAGE).unwrap();
    let own = public_key(&secret);
    assert_ne!(forgery.new_key.to_bytes(), own.to_bytes());
    // own key minus the keys of the others
    let others = public_key(&Scalar::from_u64(6006));
    assert_eq!(forgery.new_key.to_bytes(), own.add(&others.neg()).to_bytes());
    // the aggregate is the newcomer's own key, the signature its own signature
    assert_eq!(aggregate_key(&registry, Some(&forgery.new_key)).to_bytes(), own.to_bytes());
    assert_eq!(
        forgery.aggregate_signature.to_bytes(),
        bls_sign(&secret, MESSAGE).unwrap().to_bytes()
    );
    // the honest proof of the newcomer's own secret does not fit the forged key
    assert_eq!(
        pok_verify(&forgery.new_key, 3, &pok_prove(&secret, 3)),
        Err(Error::PoKMismatch)
    );
}

#[test]
fn the_rogue_key_breaks_registries_of_other_sizes() {
    for secrets in [&[7u64][..], &[7, 8][..], &[5, 5, 5, 5, 5][..], &[9, 1, 8, 2, 7, 3, 6][..]] {
        let registry = honest_registry(secrets);
        assert_eq!(verify_all(&registry), Ok(()));
        for secret in [1u64, 123, u64::MAX] {
            let forgery = forge(&registry, &Scalar::from_u64(secret), MESSAGE).unwrap();
            assert_accepted(&registry, &forgery, MESSAGE);
        }
    }
}

#[test]
fn an_empty_registry_is_joined_honestly() {
    let secret = Scalar::from_u64(123);
    let forgery = forge(&Vec::new(), &secret, MESSAGE).unwrap();
    assert_eq!(forgery.new_key.to_bytes(), public_key(&secret).to_bytes());
    assert_eq!(forgery.new_proof.to_bytes(), pok_prove(&secret, 0).to_bytes());
    assert_eq!(
        forgery.aggregate_signature.to_bytes(),
        bls_sign(&secret, MESSAGE).unwrap().to_bytes()
    );
    assert_accepted(&[], &forgery, MESSAGE);
}

#[test]
fn the_forgery_holds_for_other_messages() {
    let registry = honest_registry(&[1001, 2002, 3003]);
    for message in [&b""[..], &b"a malicious block"[..]] {
        let forgery = forge(&registry, &Scalar::from_u64(77), message).unwrap();
        assert_accepted(&registry, &forgery, message);
        let aggregate = aggregate_key(&registry, Some(&forgery.new_key));
        assert_eq!(
            bls_verify(&aggregate, &forgery.aggregate_signature, b"another"),
            Err(Error::SignatureMismatch)
        );
    }
}

#[test]
fn the_forgery_over_another_base_is_accepted() {
    let base = G2Point::seeded(99);
    let digest = hash_to_curve(b"digest").unwrap();
    let registry: Vec<RegistryEntry> = [11u64, 22, 33]
        .iter()
        .enumerate()
        .map(|(i, s)| {
            let secret = Scalar::from_u64(*s);
            RegistryEntry { public_key: public_key(&secret), proof: prove_over(&base, &secret, i) }
        })
        .collect();
    let forgery = forge_over(&base, &digest, &registry, &Scalar::from_u64(5));
    assert_eq!(verify_over(&base, &forgery.new_key, 3, &forgery.new_proof), Ok(()));
    assert_eq!(
        verify_over(&pok_base_point(), &forgery.new_key, 3, &forgery.new_proof),
        Err(Error::PoKMismatch)
    );
    let aggregate = aggregate_key(&registry, Some(&forgery.new_key));
    assert_eq!(verify_digest(&aggregate, &forgery.aggregate_signature, &digest), Ok(()));
}

#[test]
fn a_registry_with_a_bad_entry_yields_a_forgery_that_fails() {
    let mut registry = honest_registry(&[1001, 2002, 3003]);
    registry[1].proof = pok_prove(&Scalar::from_u64(2002), 2);
    assert_eq!(verify_all(&registry), Err(Error::PoKMismatch));
    let forgery = forge(&registry, &Scalar::from_u64(123), MESSAGE).unwrap();
    assert_eq!(pok_verify(&forgery.new_key, 3, &forgery.new_proof), Err(Error::PoKMismatch));
}

#[test]
fn the_demonstration_succeeds_on_an_honest_registry() {
    let registry = honest_registry(&[1001, 2002, 3003]);
    let data = persist(&registry);
    let secret = Scalar::from_u64(123);
    let forgery = demonstrate(&data, &secret, MESSAGE).expect("the registry is broken");
    let expected = forge(&registry, &secret, MESSAGE).unwrap();
    assert_eq!(forgery.new_key.to_bytes(), expected.new_key.to_bytes());
    assert_eq!(forgery.new_proof.to_bytes(), expected.new_proof.to_bytes());
    assert_eq!(forgery.aggregate_signature.to_bytes(), expected.aggregate_signature.to_bytes());
    assert_accepted(&registry, &forgery, MESSAGE);
}

#[test]
fn the_demonstration_stops_at_malformed_bytes() {
    let data = persist(&honest_registry(&[1001, 2002, 3003]));
    let secret = Scalar::from_u64(123);
    assert_eq!(
        demonstrate(&data[..100], &secret, MESSAGE).err(),
        Some(Error::DeserializationError)
    );
    let mut damaged = data.clone();
    damaged[300] ^= 0xff;
    assert_eq!(demonstrate(&damaged, &secret, MESSAGE).err(), Some(Error::DeserializationError));
}

#[test]
fn the_demonstration_stops_at_a_bad_entry() {
    let mut registry = honest_registry(&[1001, 2002, 3003]);
    registry[2].public_key = G1Point::generator();
    let data = persist(&registry);
    assert_eq!(
        demonstrate(&data, &Scalar::from_u64(123), MESSAGE).err(),
        Some(Error::PoKMismatch)
    );
}
