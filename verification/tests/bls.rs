use ark_bls12_381::{g2::Config, Fr, G2Affine, G2Projective};
use ark_ec::hashing::{
    curve_maps::wb::WBMap, map_to_curve_hasher::MapToCurveBasedHasher, HashToCurve,
};
use ark_ec::CurveGroup;
use ark_ff::field_hashers::DefaultFieldHasher;
use ark_serialize::CanonicalSerialize;
use bls_pop::bls::{
    aggregate_keys, aggregate_signatures, bls_sign, bls_verify, sign_digest, verify_digest,
};
use bls_pop::error::Error;
use bls_pop::g1::G1Point;
use bls_pop::g2::G2Point;
use bls_pop::hash::{hash_to_curve, hasher, Hasher};
use bls_pop::keys::public_key;
use bls_pop::scalar::Scalar;
use sha2::Sha256;
use std::ops::Mul;

fn reference_hash(message: &[u8]) -> G2Affine {
    let hasher = MapToCurveBasedHasher::<
        G2Projective,
        DefaultFieldHasher<Sha256, 128>,
        WBMap<Config>,
    >::new(&[1, 3, 3, 7])
    .unwrap();
    hasher.hash(message).unwrap()
}

fn reference_signature(secret: u64, message: &[u8]) -> G2Affine {
    reference_hash(message).mul(Fr::from(secret)).into_affine()
}

fn bytes(point: G2Affine) -> Vec<u8> {
    let mut bytes = Vec::new();
    point.serialize_uncompressed(&mut bytes).unwrap();
    bytes
}

#[test]
fn hashing_is_that_of_the_construction() {
    for message in [&b"brozorec"[..], &b""[..], &b"a"[..], &[0u8; 300][..]] {
        assert_eq!(hash_to_curve(message).unwrap().to_bytes(), bytes(reference_hash(message)));
    }
}

#[test]
fn hashing_is_deterministic() {
    let first = hash_to_curve(b"brozorec").unwrap();
    let second = hash_to_curve(b"brozorec").unwrap();
    assert_eq!(first.to_bytes(), second.to_bytes());
    assert_eq!(hasher().hash(b"brozorec").unwrap().to_bytes(), first.to_bytes());
    assert_eq!(Hasher::new(&[1, 3, 3, 7]).hash(b"brozorec").unwrap().to_bytes(), first.to_bytes());
}

#[test]
fn hashing_tells_messages_apart() {
    let first = hash_to_curve(b"brozorec").unwrap().to_bytes();
    assert_ne!(first, hash_to_curve(b"brozored").unwrap().to_bytes());
    assert_ne!(first, hash_to_curve(b"brozore").unwrap().to_bytes());
    assert_ne!(first, hash_to_curve(b"").unwrap().to_bytes());
    assert_ne!(first, G2Point::identity().to_bytes());
}

#[test]
fn hashing_tells_domains_apart() {
    let first = hash_to_curve(b"brozorec").unwrap().to_bytes();
    assert_ne!(first, Hasher::new(&[1, 3, 3, 8]).hash(b"brozorec").unwrap().to_bytes());
    assert_ne!(first, Hasher::new(&[]).hash(b"brozorec").unwrap().to_bytes());
    assert_ne!(first, Hasher::new(&[7u8; 300]).hash(b"brozorec").unwrap().to_bytes());
}

#[test]
fn hashed_points_are_points_of_g2() {
    let point = hash_to_curve(b"some message").unwrap();
    assert!(G2Point::from_bytes(&point.to_bytes()).is_some());
}

#[test]
fn signatures_are_the_digest_times_the_secret() {
    for (secret, message) in [(123u64, &b"brozorec"[..]), (1, &b""[..]), (u64::MAX, &b"x"[..])] {
        let signature = bls_sign(&Scalar::from_u64(secret), message).unwrap();
        assert_eq!(signature.to_bytes(), bytes(reference_signature(secret, message)));
        let digest = hash_to_curve(message).unwrap();
        assert_eq!(
            signature.to_bytes(),
            sign_digest(&Scalar::from_u64(secret), &digest).to_bytes()
        );
        assert_eq!(signature.to_bytes(), digest.mul(&Scalar::from_u64(secret)).to_bytes());
    }
}

#[test]
fn honest_signatures_are_accepted() {
    for (secret, message) in [(123u64, &b"brozorec"[..]), (1, &b""[..]), (u64::MAX, &b"x"[..])] {
        let secret = Scalar::from_u64(secret);
        let key = public_key(&secret);
        let signature = bls_sign(&secret, message).unwrap();
        assert_eq!(bls_verify(&key, &signature, message), Ok(()));
        let digest = hash_to_curve(message).unwrap();
        assert_eq!(verify_digest(&key, &signature, &digest), Ok(()));
    }
}

#[test]
fn signatures_are_bound_to_their_message() {
    let secret = Scalar::from_u64(123);
    let key = public_key(&secret);
    let signature = bls_sign(&secret, b"brozorec").unwrap();
    assert_eq!(bls_verify(&key, &signature, b"brozorek"), Err(Error::SignatureMismatch));
    assert_eq!(bls_verify(&key, &signature, b""), Err(Error::SignatureMismatch));
}

#[test]
fn signatures_are_bound_to_their_key() {
    let secret = Scalar::from_u64(123);
    let signature = bls_sign(&secret, b"brozorec").unwrap();
    let other = public_key(&Scalar::from_u64(321));
    assert_eq!(bls_verify(&other, &signature, b"brozorec"), Err(Error::SignatureMismatch));
    assert_eq!(
        bls_verify(&G1Point::identity(), &signature, b"brozorec"),
        Err(Error::SignatureMismatch)
    );
}

#[test]
fn another_signature_is_rejected() {
    let secret = Scalar::from_u64(123);
    let key = public_key(&secret);
    let signature = bls_sign(&secret, b"brozorec").unwrap();
    assert_eq!(bls_verify(&key, &signature.neg(), b"brozorec"), Err(Error::SignatureMismatch));
    assert_eq!(
        bls_verify(&key, &G2Point::identity(), b"brozorec"),
        Err(Error::SignatureMismatch)
    );
    let digest = hash_to_curve(b"brozorec").unwrap();
    assert_eq!(verify_digest(&key, &digest, &digest), Err(Error::SignatureMismatch));
}

#[test]
fn the_public_key_is_the_generator_times_the_secret() {
    let g = G1Point::generator();
    assert_eq!(public_key(&Scalar::from_u64(1)).to_bytes(), g.to_bytes());
    assert_eq!(public_key(&Scalar::from_u64(2)).to_bytes(), g.add(&g).to_bytes());
    assert_eq!(
        public_key(&Scalar::from_u64(123)).to_bytes(),
        g.mul(&Scalar::from_u64(123)).to_bytes()
    );
}

#[test]
fn the_aggregate_of_nothing_is_neutral() {
    assert_eq!(aggregate_keys(&Vec::new()).to_bytes(), G1Point::identity().to_bytes());
    assert_eq!(aggregate_signatures(&Vec::new()).to_bytes(), G2Point::identity().to_bytes());
}

#[test]
fn the_aggregate_of_one_is_that_one() {
    let key = public_key(&Scalar::from_u64(5));
    assert_eq!(aggregate_keys(&vec![key.clone()]).to_bytes(), key.to_bytes());
    let signature = bls_sign(&Scalar::from_u64(5), b"m").unwrap();
    assert_eq!(aggregate_signatures(&vec![signature.clone()]).to_bytes(), signature.to_bytes());
}

#[test]
fn aggregation_adds_up() {
    let keys: Vec<G1Point> = [3u64, 5, 11].iter().map(|s| public_key(&Scalar::from_u64(*s))).collect();
    assert_eq!(aggregate_keys(&keys).to_bytes(), public_key(&Scalar::from_u64(19)).to_bytes());
    let signatures: Vec<G2Point> =
        [3u64, 5, 11].iter().map(|s| bls_sign(&Scalar::from_u64(*s), b"m").unwrap()).collect();
    assert_eq!(
        aggregate_signatures(&signatures).to_bytes(),
        bls_sign(&Scalar::from_u64(19), b"m").unwrap().to_bytes()
    );
}

#[test]
fn aggregation_does_not_depend_on_order() {
    let secrets = [3u64, 5, 11, 5];
    let orders: [[usize; 4]; 4] = [[0, 1, 2, 3], [3, 2, 1, 0], [1, 3, 0, 2], [2, 0, 3, 1]];
    let keys: Vec<G1Point> = secrets.iter().map(|s| public_key(&Scalar::from_u64(*s))).collect();
    let signatures: Vec<G2Point> =
        secrets.iter().map(|s| bls_sign(&Scalar::from_u64(*s), b"m").unwrap()).collect();
    let expected_key = aggregate_keys(&keys).to_bytes();
    let expected_signature = aggregate_signatures(&signatures).to_bytes();
    for order in orders {
        let shuffled: Vec<G1Point> = order.iter().map(|i| keys[*i].clone()).collect();
        assert_eq!(aggregate_keys(&shuffled).to_bytes(), expected_key);
        let shuffled: Vec<G2Point> = order.iter().map(|i| signatures[*i].clone()).collect();
        assert_eq!(aggregate_signatures(&shuffled).to_bytes(), expected_signature);
    }
}

#[test]
fn aggregation_does_not_depend_on_grouping() {
    let keys: Vec<G1Point> =
        [3u64, 5, 11, 13].iter().map(|s| public_key(&Scalar::from_u64(*s))).collect();
    let whole = aggregate_keys(&keys);
    let left = aggregate_keys(&keys[..1].to_vec());
    let right = aggregate_keys(&keys[1..].to_vec());
    assert_eq!(left.add(&right).to_bytes(), whole.to_bytes());
    let left = aggregate_keys(&keys[..3].to_vec());
    let right = aggregate_keys(&keys[3..].to_vec());
    assert_eq!(right.add(&left).to_bytes(), whole.to_bytes());
}

#[test]
fn honest_aggregates_are_accepted() {
    let secrets = [17u64, 4, 99];
    let keys: Vec<G1Point> = secrets.iter().map(|s| public_key(&Scalar::from_u64(*s))).collect();
    let signatures: Vec<G2Point> =
        secrets.iter().map(|s| bls_sign(&Scalar::from_u64(*s), b"block").unwrap()).collect();
    let key = aggregate_keys(&keys);
    let signature = aggregate_signatures(&signatures);
    assert_eq!(bls_verify(&key, &signature, b"block"), Ok(()));
    assert_eq!(bls_verify(&key, &signature, b"other"), Err(Error::SignatureMismatch));
    let fewer = aggregate_signatures(&signatures[..2].to_vec());
    assert_eq!(bls_verify(&key, &fewer, b"block"), Err(Error::SignatureMismatch));
}
