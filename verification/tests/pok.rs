use ark_bls12_381::{Fr, G2Affine};
use ark_serialize::CanonicalSerialize;
use ark_std::rand::{rngs::StdRng, SeedableRng};
use ark_std::UniformRand;
use bls_pop::error::Error;
use bls_pop::g1::G1Point;
use bls_pop::g2::G2Point;
use bls_pop::keys::public_key;
use bls_pop::pok::{
    derive_point_for_pok, derive_point_from, pok_base_point, pok_prove, pok_verify, prove_over,
    verify_over, POK_SEED,
};
use bls_pop::scalar::Scalar;
use std::ops::Mul;

fn reference_point(i: usize) -> G2Affine {
    let rng = &mut StdRng::seed_from_u64(20399u64);
    G2Affine::rand(rng).mul(Fr::from(i as u64 + 1)).into()
}

fn reference_proof(secret: u64, i: usize) -> G2Affine {
    reference_point(i).mul(Fr::from(secret)).into()
}

fn bytes(point: G2Affine) -> Vec<u8> {
    let mut bytes = Vec::new();
    point.serialize_uncompressed(&mut bytes).unwrap();
    bytes
}

#[test]
fn the_seed_of_the_base_point_is_fixed() {
    assert_eq!(POK_SEED, 20399);
    assert_eq!(pok_base_point().to_bytes(), G2Point::seeded(20399).to_bytes());
    assert_eq!(pok_base_point().to_bytes(), bytes(reference_point(0)));
}

#[test]
fn base_points_are_those_of_the_seeded_generator() {
    for i in [0usize, 1, 2, 3, 10, 1000] {
        assert_eq!(derive_point_for_pok(i).to_bytes(), bytes(reference_point(i)));
    }
}

#[test]
fn base_points_are_multiples_of_the_first() {
    let base = derive_point_for_pok(0);
    assert_eq!(base.to_bytes(), pok_base_point().to_bytes());
    assert_eq!(derive_point_for_pok(1).to_bytes(), base.add(&base).to_bytes());
    assert_eq!(derive_point_for_pok(2).to_bytes(), base.add(&base).add(&base).to_bytes());
    assert_eq!(derive_point_for_pok(6).to_bytes(), base.mul(&Scalar::from_u64(7)).to_bytes());
    // (i + 1) * point(n) = (n + 1) * point(i)
    assert_eq!(
        derive_point_for_pok(4).mul(&Scalar::from_u64(3)).to_bytes(),
        derive_point_for_pok(2).mul(&Scalar::from_u64(5)).to_bytes()
    );
}

#[test]
fn base_points_are_the_same_whenever_derived() {
    assert_eq!(derive_point_for_pok(5).to_bytes(), derive_point_for_pok(5).to_bytes());
    assert_ne!(derive_point_for_pok(5).to_bytes(), derive_point_for_pok(6).to_bytes());
}

#[test]
fn the_last_position_has_a_base_point() {
    let base = pok_base_point();
    let expected = base.mul(&Scalar::from_u128(usize::MAX as u128 + 1));
    assert_eq!(derive_point_for_pok(usize::MAX).to_bytes(), expected.to_bytes());
}

#[test]
fn base_points_over_another_base_are_its_multiples() {
    let base = G2Point::seeded(1);
    assert_eq!(derive_point_from(&base, 0).to_bytes(), base.to_bytes());
    assert_eq!(derive_point_from(&base, 2).to_bytes(), base.mul(&Scalar::from_u64(3)).to_bytes());
}

#[test]
fn proofs_are_the_base_point_times_the_secret() {
    for (secret, i) in [(1u64, 0usize), (123, 0), (123, 3), (20399, 7), (u64::MAX, 2)] {
        let proof = pok_prove(&Scalar::from_u64(secret), i);
        assert_eq!(proof.to_bytes(), bytes(reference_proof(secret, i)));
        assert_eq!(
            proof.to_bytes(),
            derive_point_for_pok(i).mul(&Scalar::from_u64(secret)).to_bytes()
        );
    }
}

#[test]
fn proofs_over_another_base_are_its_multiples() {
    let base = G2Point::seeded(2);
    let proof = prove_over(&base, &Scalar::from_u64(5), 3);
    assert_eq!(proof.to_bytes(), base.mul(&Scalar::from_u64(20)).to_bytes());
}

#[test]
fn honest_proofs_are_accepted() {
    for (secret, i) in [(1u64, 0usize), (123, 0), (123, 3), (987654321, 17), (u64::MAX, 2)] {
        let secret = Scalar::from_u64(secret);
        let key = public_key(&secret);
        let proof = pok_prove(&secret, i);
        assert_eq!(pok_verify(&key, i, &proof), Ok(()));
    }
}

#[test]
fn honest_proofs_over_another_base_are_accepted() {
    let base = G2Point::seeded(3);
    let secret = Scalar::from_u64(31337);
    let key = public_key(&secret);
    let proof = prove_over(&base, &secret, 4);
    assert_eq!(verify_over(&base, &key, 4, &proof), Ok(()));
    assert_eq!(verify_over(&base, &key, 5, &proof), Err(Error::PoKMismatch));
    assert_eq!(pok_verify(&key, 4, &proof), Err(Error::PoKMismatch));
}

#[test]
fn proofs_are_bound_to_their_position() {
    let secret = Scalar::from_u64(123);
    let key = public_key(&secret);
    for (i, j) in [(0usize, 1usize), (1, 0), (2, 5), (7, 3)] {
        let proof = pok_prove(&secret, i);
        assert_eq!(pok_verify(&key, j, &proof), Err(Error::PoKMismatch));
    }
}

#[test]
fn proofs_are_bound_to_their_key() {
    let secret = Scalar::from_u64(123);
    let other = public_key(&Scalar::from_u64(124));
    let proof = pok_prove(&secret, 0);
    assert_eq!(pok_verify(&other, 0, &proof), Err(Error::PoKMismatch));
    assert_eq!(pok_verify(&G1Point::identity(), 0, &proof), Err(Error::PoKMismatch));
    assert_eq!(pok_verify(&G1Point::generator(), 0, &proof), Err(Error::PoKMismatch));
}

#[test]
fn another_proof_is_rejected() {
    let secret = Scalar::from_u64(123);
    let key = public_key(&secret);
    let proof = pok_prove(&secret, 2);
    assert_eq!(pok_verify(&key, 2, &proof.neg()), Err(Error::PoKMismatch));
    assert_eq!(pok_verify(&key, 2, &proof.add(&proof)), Err(Error::PoKMismatch));
    assert_eq!(pok_verify(&key, 2, &G2Point::identity()), Err(Error::PoKMismatch));
    assert_eq!(pok_verify(&key, 2, &pok_prove(&Scalar::from_u64(122), 2)), Err(Error::PoKMismatch));
}

#[test]
fn the_zero_secret_proves_for_the_neutral_key_at_every_position() {
    let zero = Scalar::from_u64(0);
    let key = public_key(&zero);
    assert_eq!(key.to_bytes(), G1Point::identity().to_bytes());
    let proof = pok_prove(&zero, 0);
    assert_eq!(proof.to_bytes(), G2Point::identity().to_bytes());
    assert_eq!(pok_verify(&key, 0, &proof), Ok(()));
    assert_eq!(pok_verify(&key, 9, &proof), Ok(()));
}

#[test]
fn a_proof_turns_into_the_proof_of_another_position() {
    let secret = Scalar::from_u64(4242);
    let key = public_key(&secret);
    let proof = pok_prove(&secret, 2);
    // (6 / 3) * proof(2) = proof(5)
    let coefficient = Scalar::from_u64(6).mul(&Scalar::from_u64(3).inverse().unwrap());
    let turned = proof.mul(&coefficient);
    assert_eq!(turned.to_bytes(), pok_prove(&secret, 5).to_bytes());
    assert_eq!(pok_verify(&key, 5, &turned), Ok(()));
}
