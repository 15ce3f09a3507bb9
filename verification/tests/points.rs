use ark_bls12_381::{Fr, G1Affine, G2Affine};
use ark_ec::{AffineRepr, CurveGroup};
use ark_serialize::CanonicalSerialize;
use bls_pop::g1::{G1Point, G1_ENCODED_LEN};
use bls_pop::g2::{G2Point, G2_ENCODED_LEN};
use bls_pop::pairing::pairings_agree;
use bls_pop::scalar::Scalar;
use std::ops::Mul;

const GENERATOR_X: [u8; 48] = [
    0x17, 0xf1, 0xd3, 0xa7, 0x31, 0x97, 0xd7, 0x94, 0x26, 0x95, 0x63, 0x8c, 0x4f, 0xa9, 0xac, 0x0f,
    0xc3, 0x68, 0x8c, 0x4f, 0x97, 0x74, 0xb9, 0x05, 0xa1, 0x4e, 0x3a, 0x3f, 0x17, 0x1b, 0xac, 0x58,
    0x6c, 0x55, 0xe8, 0x3f, 0xf9, 0x7a, 0x1a, 0xef, 0xfb, 0x3a, 0xf0, 0x0a, 0xdb, 0x22, 0xc6, 0xbb,
];

const GENERATOR_Y: [u8; 48] = [
    0x08, 0xb3, 0xf4, 0x81, 0xe3, 0xaa, 0xa0, 0xf1, 0xa0, 0x9e, 0x30, 0xed, 0x74, 0x1d, 0x8a, 0xe4,
    0xfc, 0xf5, 0xe0, 0x95, 0xd5, 0xd0, 0x0a, 0xf6, 0x00, 0xdb, 0x18, 0xcb, 0x2c, 0x04, 0xb3, 0xed,
    0xd0, 0x3c, 0xc7, 0x44, 0xa2, 0x88, 0x8a, 0xe4, 0x0c, 0xaa, 0x23, 0x29, 0x46, 0xc5, 0xe7, 0xe1,
];

fn generator_bytes() -> Vec<u8> {
    let mut bytes = GENERATOR_X.to_vec();
    bytes.extend_from_slice(&GENERATOR_Y);
    bytes
}

fn g1_bytes(point: G1Affine) -> Vec<u8> {
    let mut bytes = Vec::new();
    point.serialize_uncompressed(&mut bytes).unwrap();
    bytes
}

fn g2_bytes(point: G2Affine) -> Vec<u8> {
    let mut bytes = Vec::new();
    point.serialize_uncompressed(&mut bytes).unwrap();
    bytes
}

fn g2_sample(k: u64) -> G2Point {
    G2Point::from_bytes(&g2_bytes(G2Affine::generator().mul(Fr::from(k)).into_affine())).unwrap()
}

#[test]
fn the_generator_of_g1_has_its_standard_encoding() {
    let g = G1Point::generator();
    assert_eq!(g.to_bytes().len(), G1_ENCODED_LEN);
    assert_eq!(g.to_bytes(), generator_bytes());
    assert_eq!(g.to_bytes(), g1_bytes(G1Affine::generator()));
}

#[test]
fn the_neutral_elements_are_encoded_by_the_infinity_flag() {
    let mut expected = vec![0u8; G1_ENCODED_LEN];
    expected[0] = 0x40;
    assert_eq!(G1Point::identity().to_bytes(), expected);
    let mut expected = vec![0u8; G2_ENCODED_LEN];
    expected[0] = 0x40;
    assert_eq!(G2Point::identity().to_bytes(), expected);
}

#[test]
fn points_of_g1_survive_a_round_trip() {
    let g = G1Point::generator();
    let point = g.mul(&Scalar::from_u64(20399));
    let again = G1Point::from_bytes(&point.to_bytes()).expect("an encoded point decodes");
    assert_eq!(again.to_bytes(), point.to_bytes());
    assert!(again.same_encoding(&point));
    assert!(!again.same_encoding(&g));
    let zero = G1Point::from_bytes(&G1Point::identity().to_bytes()).unwrap();
    assert!(zero.same_encoding(&G1Point::identity()));
}

#[test]
fn points_of_g2_survive_a_round_trip() {
    let point = g2_sample(77);
    let again = G2Point::from_bytes(&point.to_bytes()).expect("an encoded point decodes");
    assert_eq!(again.to_bytes(), point.to_bytes());
    assert_eq!(again.to_bytes().len(), G2_ENCODED_LEN);
    assert!(again.same_encoding(&point));
    assert!(!again.same_encoding(&g2_sample(78)));
}

#[test]
fn bytes_of_the_wrong_length_are_no_point() {
    let bytes = generator_bytes();
    assert!(G1Point::from_bytes(&bytes[..95]).is_none());
    assert!(G1Point::from_bytes(&[]).is_none());
    let mut longer = bytes.clone();
    longer.push(0);
    assert!(G1Point::from_bytes(&longer).is_none());
    let g2 = g2_sample(5).to_bytes();
    assert!(G2Point::from_bytes(&g2[..191]).is_none());
    assert!(G2Point::from_bytes(&bytes).is_none());
    assert!(G1Point::from_bytes(&g2).is_none());
}

#[test]
fn coordinates_off_the_curve_are_no_point() {
    let mut bytes = generator_bytes();
    bytes[95] ^= 1;
    assert!(G1Point::from_bytes(&bytes).is_none());
    let mut bytes = generator_bytes();
    bytes[47] ^= 1;
    assert!(G1Point::from_bytes(&bytes).is_none());
    let mut bytes = g2_sample(9).to_bytes();
    bytes[191] ^= 1;
    assert!(G2Point::from_bytes(&bytes).is_none());
}

#[test]
fn coordinates_beyond_the_field_are_no_point() {
    assert!(G1Point::from_bytes(&[0x1f; 96]).is_none());
    assert!(G2Point::from_bytes(&[0x1f; 192]).is_none());
}

#[test]
fn compressed_encodings_are_no_point() {
    let mut bytes = generator_bytes();
    bytes[0] |= 0x80;
    assert!(G1Point::from_bytes(&bytes).is_none());
}

#[test]
fn a_point_of_the_curve_outside_the_subgroup_is_no_point() {
    // x = 0, y = 2 lies on y^2 = x^3 + 4 and has order three
    let mut bytes = vec![0u8; 96];
    bytes[95] = 2;
    assert!(G1Point::from_bytes(&bytes).is_none());
}

#[test]
fn the_unused_flag_of_an_encoding_is_dropped() {
    let mut bytes = generator_bytes();
    bytes[0] |= 0x20;
    let point = G1Point::from_bytes(&bytes).expect("the flag is not read");
    assert_eq!(point.to_bytes(), generator_bytes());
}

#[test]
fn an_infinity_flag_hides_the_coordinates() {
    let mut bytes = generator_bytes();
    bytes[0] |= 0x40;
    let point = G1Point::from_bytes(&bytes).expect("the coordinates are not read");
    assert_eq!(point.to_bytes(), G1Point::identity().to_bytes());
}

#[test]
fn addition_in_g1_is_that_of_the_curve() {
    let g = G1Point::generator();
    let two = g.add(&g);
    let three = two.add(&g);
    assert_eq!(two.to_bytes(), g1_bytes(G1Affine::generator().mul(Fr::from(2u64)).into_affine()));
    assert_eq!(three.to_bytes(), g1_bytes(G1Affine::generator().mul(Fr::from(3u64)).into_affine()));
    assert_eq!(three.to_bytes(), g.add(&two).to_bytes());
    assert_eq!(g.add(&G1Point::identity()).to_bytes(), g.to_bytes());
    assert_eq!(G1Point::identity().add(&g).to_bytes(), g.to_bytes());
}

#[test]
fn negation_in_g1_is_that_of_the_curve() {
    let g = G1Point::generator();
    let minus = g.neg();
    assert_ne!(minus.to_bytes(), g.to_bytes());
    assert_eq!(minus.to_bytes()[..48], GENERATOR_X);
    assert_eq!(minus.to_bytes(), g1_bytes(-G1Affine::generator()));
    assert_eq!(g.add(&minus).to_bytes(), G1Point::identity().to_bytes());
    assert_eq!(minus.neg().to_bytes(), g.to_bytes());
    assert_eq!(G1Point::identity().neg().to_bytes(), G1Point::identity().to_bytes());
}

#[test]
fn multiplication_in_g1_is_that_of_the_curve() {
    let g = G1Point::generator();
    assert_eq!(g.mul(&Scalar::from_u64(0)).to_bytes(), G1Point::identity().to_bytes());
    assert_eq!(g.mul(&Scalar::from_u64(1)).to_bytes(), g.to_bytes());
    assert_eq!(g.mul(&Scalar::from_u64(2)).to_bytes(), g.add(&g).to_bytes());
    assert_eq!(
        g.mul(&Scalar::from_u64(123)).to_bytes(),
        g1_bytes(G1Affine::generator().mul(Fr::from(123u64)).into_affine())
    );
    let five = g.mul(&Scalar::from_u64(5));
    assert_eq!(
        five.mul(&Scalar::from_u64(7)).to_bytes(),
        g.mul(&Scalar::from_u64(35)).to_bytes()
    );
    // the order minus one times the generator is its inverse
    let minus_one = Scalar::from_limbs([
        0xffffffff00000000,
        0x53bda402fffe5bfe,
        0x3339d80809a1d805,
        0x73eda753299d7d48,
    ])
    .unwrap();
    assert_eq!(g.mul(&minus_one).to_bytes(), g.neg().to_bytes());
}

#[test]
fn arithmetic_in_g2_is_that_of_the_curve() {
    let q = g2_sample(1);
    assert_eq!(q.to_bytes(), g2_bytes(G2Affine::generator()));
    let two = q.add(&q);
    assert_eq!(two.to_bytes(), g2_sample(2).to_bytes());
    assert_eq!(q.mul(&Scalar::from_u64(2)).to_bytes(), two.to_bytes());
    assert_eq!(q.mul(&Scalar::from_u64(0)).to_bytes(), G2Point::identity().to_bytes());
    assert_eq!(two.add(&q.neg()).to_bytes(), q.to_bytes());
    assert_eq!(q.neg().to_bytes(), g2_bytes(-G2Affine::generator()));
    assert_eq!(q.add(&q.neg()).to_bytes(), G2Point::identity().to_bytes());
    assert_eq!(q.add(&G2Point::identity()).to_bytes(), q.to_bytes());
    assert_eq!(
        g2_sample(6).mul(&Scalar::from_u64(7)).to_bytes(),
        g2_sample(42).to_bytes()
    );
}

#[test]
fn copies_hold_the_same_point() {
    let p = G1Point::generator().mul(&Scalar::from_u64(9));
    assert_eq!(p.clone().to_bytes(), p.to_bytes());
    let q = g2_sample(9);
    assert_eq!(q.clone().to_bytes(), q.to_bytes());
}

#[test]
fn a_seed_yields_one_point() {
    let first = G2Point::seeded(20399);
    let second = G2Point::seeded(20399);
    assert_eq!(first.to_bytes(), second.to_bytes());
    assert_ne!(first.to_bytes(), G2Point::seeded(20400).to_bytes());
    assert_ne!(first.to_bytes(), G2Point::identity().to_bytes());
    assert!(G2Point::from_bytes(&first.to_bytes()).is_some());
}

#[test]
fn the_pairing_is_bilinear() {
    let g = G1Point::generator();
    let q = g2_sample(1);
    let a = Scalar::from_u64(6);
    let b = Scalar::from_u64(7);
    let ab = Scalar::from_u64(42);
    // e(a g, b q) = e(ab g, q) = e(g, ab q)
    assert!(pairings_agree(&g.mul(&a), &q.mul(&b), &g.mul(&ab), &q));
    assert!(pairings_agree(&g.mul(&a), &q.mul(&b), &g, &q.mul(&ab)));
    assert!(pairings_agree(&g.mul(&b), &q.mul(&a), &g.mul(&a), &q.mul(&b)));
    assert!(!pairings_agree(&g.mul(&a), &q.mul(&b), &g.mul(&a), &q));
    assert!(!pairings_agree(&g.mul(&a), &q.mul(&b), &g, &q.mul(&Scalar::from_u64(41))));
}

#[test]
fn the_pairing_with_a_neutral_element_is_neutral() {
    let g = G1Point::generator();
    let q = g2_sample(3);
    assert!(pairings_agree(&G1Point::identity(), &q, &g, &G2Point::identity()));
    assert!(pairings_agree(&G1Point::identity(), &q, &G1Point::identity(), &q.add(&q)));
    assert!(!pairings_agree(&G1Point::identity(), &q, &g, &q));
    assert!(!pairings_agree(&g, &q, &g, &G2Point::identity()));
}

#[test]
fn the_unused_flag_of_an_encoding_in_g2_is_dropped() {
    let canonical = g2_sample(12).to_bytes();
    let mut bytes = canonical.clone();
    bytes[0] |= 0x20;
    let point = G2Point::from_bytes(&bytes).expect("the flag is not read");
    assert_eq!(point.to_bytes(), canonical);
}

#[test]
fn points_compare_by_what_they_hold() {
    let g = G1Point::generator();
    assert_eq!(g.add(&g), g.mul(&Scalar::from_u64(2)));
    assert_ne!(g.add(&g), g);
    assert_eq!(g.clone(), g);
    let q = g2_sample(4);
    assert_eq!(q.add(&q), g2_sample(8));
    assert_ne!(q, g2_sample(5));
    assert!(g == G1Point::from_bytes(&generator_bytes()).unwrap());
}
