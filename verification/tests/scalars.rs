use bls_pop::scalar::Scalar;

const MODULUS: [u64; 4] =
    [0xffffffff00000001, 0x53bda402fffe5bfe, 0x3339d80809a1d805, 0x73eda753299d7d48];

#[test]
fn small_scalars_have_one_limb() {
    assert_eq!(Scalar::from_u64(0).to_limbs(), [0, 0, 0, 0]);
    assert_eq!(Scalar::from_u64(123).to_limbs(), [123, 0, 0, 0]);
    assert_eq!(Scalar::from_u64(u64::MAX).to_limbs(), [u64::MAX, 0, 0, 0]);
}

#[test]
fn wide_scalars_have_two_limbs() {
    assert_eq!(Scalar::from_u128(7).to_limbs(), [7, 0, 0, 0]);
    assert_eq!(Scalar::from_u128(1u128 << 64).to_limbs(), [0, 1, 0, 0]);
    assert_eq!(
        Scalar::from_u128(0x0123_4567_89ab_cdef_0011_2233_4455_6677).to_limbs(),
        [0x0011_2233_4455_6677, 0x0123_4567_89ab_cdef, 0, 0]
    );
    assert_eq!(Scalar::from_u128(u128::MAX).to_limbs(), [u64::MAX, u64::MAX, 0, 0]);
}

#[test]
fn limbs_below_the_order_are_accepted() {
    let mut below = MODULUS;
    below[0] -= 1;
    let scalar = Scalar::from_limbs(below).expect("the order minus one is a scalar");
    assert_eq!(scalar.to_limbs(), below);
    assert!(Scalar::from_limbs([0, 0, 0, 0]).is_some());
    assert!(Scalar::from_limbs([u64::MAX, u64::MAX, u64::MAX, 0]).is_some());
    assert!(Scalar::from_limbs([u64::MAX, u64::MAX, u64::MAX, 0x73eda753299d7d47]).is_some());
}

#[test]
fn limbs_from_the_order_on_are_refused() {
    assert!(Scalar::from_limbs(MODULUS).is_none());
    let mut above = MODULUS;
    above[0] += 1;
    assert!(Scalar::from_limbs(above).is_none());
    let mut above = MODULUS;
    above[1] += 1;
    above[0] = 0;
    assert!(Scalar::from_limbs(above).is_none());
    let mut above = MODULUS;
    above[2] += 1;
    above[1] = 0;
    assert!(Scalar::from_limbs(above).is_none());
    assert!(Scalar::from_limbs([0, 0, 0, 0x73eda753299d7d49]).is_none());
    assert!(Scalar::from_limbs([u64::MAX; 4]).is_none());
}

#[test]
fn zero_is_recognised() {
    assert!(Scalar::from_u64(0).is_zero());
    assert!(!Scalar::from_u64(1).is_zero());
    assert!(!Scalar::from_u128(1u128 << 64).is_zero());
    assert!(!Scalar::from_limbs([0, 0, 1, 0]).unwrap().is_zero());
    assert!(!Scalar::from_limbs([0, 0, 0, 1]).unwrap().is_zero());
}

#[test]
fn products_are_reduced_modulo_the_order() {
    let three = Scalar::from_u64(3);
    let five = Scalar::from_u64(5);
    assert_eq!(three.mul(&five).to_limbs(), [15, 0, 0, 0]);
    let big = Scalar::from_u64(u64::MAX);
    // (2^64 - 1)^2 = 2^128 - 2^65 + 1
    assert_eq!(big.mul(&big).to_limbs(), [1, u64::MAX - 1, 0, 0]);
    // (r - 1)^2 = 1 modulo r
    let mut below = MODULUS;
    below[0] -= 1;
    let minus_one = Scalar::from_limbs(below).unwrap();
    assert_eq!(minus_one.mul(&minus_one).to_limbs(), [1, 0, 0, 0]);
    // (r - 1) * 2 = r - 2 modulo r
    let mut expected = MODULUS;
    expected[0] -= 2;
    assert_eq!(minus_one.mul(&Scalar::from_u64(2)).to_limbs(), expected);
}

#[test]
fn inverses_multiply_to_one() {
    for value in [1u64, 2, 3, 4, 123, 20399, u64::MAX] {
        let scalar = Scalar::from_u64(value);
        let inverse = scalar.inverse().expect("a scalar that is not zero has an inverse");
        assert_eq!(scalar.mul(&inverse).to_limbs(), [1, 0, 0, 0]);
        assert_eq!(inverse.mul(&scalar).to_limbs(), [1, 0, 0, 0]);
    }
    assert_eq!(Scalar::from_u64(1).inverse().unwrap().to_limbs(), [1, 0, 0, 0]);
}

#[test]
fn the_inverse_of_two_is_half_of_the_order_plus_one() {
    // (r + 1) / 2
    let expected =
        [0x7fffffff80000001, 0xa9ded2017fff2dff, 0x199cec0404d0ec02, 0x39f6d3a994cebea4];
    assert_eq!(Scalar::from_u64(2).inverse().unwrap().to_limbs(), expected);
}

#[test]
fn zero_has_no_inverse() {
    assert!(Scalar::from_u64(0).inverse().is_none());
}

#[test]
fn scalars_compare_by_their_value() {
    assert_eq!(Scalar::from_u64(15), Scalar::from_u64(3).mul(&Scalar::from_u64(5)));
    assert_eq!(Scalar::from_u64(7), Scalar::from_u128(7));
    assert_ne!(Scalar::from_u64(7), Scalar::from_u64(8));
    assert_ne!(Scalar::from_u128(1u128 << 64), Scalar::from_u64(0));
    let three = Scalar::from_u64(3);
    assert_eq!(three.inverse().unwrap().inverse().unwrap(), three);
}
