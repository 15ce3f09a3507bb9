//! The order of the groups is a prime number.
//!
//! The proof is the test of Pocklington. The number `r - 1` is divisible by
//! `2^32 * 11 * 19 * 10177 * 125527 * 859267 * 906349^2`, which exceeds the
//! square root of `r`. Seven to the power `r - 1` is congruent to one modulo
//! `r`, and for each prime `q` of that product seven to the power
//! `(r - 1) / q`, less one, is invertible modulo `r`. The order of seven modulo
//! any prime divisor of `r` is then a multiple of the whole product, while it
//! is less than that divisor: every prime divisor of `r` exceeds the square
//! root of `r`, which leaves `r` itself.
use vstd::prelude::*;
use vstd::arithmetic::div_mod::lemma_small_mod;
use crate::algebra::order;
use crate::number_theory::{
    divides, has_residue, is_order, is_prime, lemma_coprime_product_divides,
    lemma_divisor_bound, lemma_order_below_prime, lemma_order_exists,
    lemma_pocklington_factor, lemma_power_double, lemma_power_small,
    lemma_residue_modulo_divisor, lemma_small_prime_divisor, power,
};

pub mod powers;
pub mod small_primes;

verus! {

/// The factored part of `r - 1`.
pub open spec fn factored_part() -> nat {
    0x260f3900221a5a5d873d435dd00000000nat
}

/// Two to the power 32.
proof fn lemma_two_to_32()
    ensures
        power(2, 32) == 0x1_0000_0000,
{
    lemma_power_small(2);
    lemma_power_double(2, 1, 2);
    lemma_power_double(2, 2, 4);
    lemma_power_double(2, 4, 16);
    lemma_power_double(2, 8, 256);
    lemma_power_double(2, 16, 65536);
}

/// The power of 2 in the factored part divides the order of seven modulo
/// every prime divisor of `r`.
proof fn lemma_factor_2(p: nat, o: nat)
    requires
        p > 1,
        divides(p, order()),
        is_order(7, p, o),
        power(7, (order() - 1) as nat) % p == 1,
    ensures
        divides(power(2, 32), o),
{
    small_primes::lemma_prime_2();
    powers::lemma_seven_to_quotient_by_2();
    lemma_two_to_32();
    lemma_pocklington_factor(
        7,
        order(),
        p,
        o,
        2,
        32,
        0x39f6d3a994cebea4199cec0404d0ec02a9ded2017fff2dff7fffffff80000000nat,
        0x73eda753299d7d483339d80809a1d80553bda402fffe5bfeffffffff00000000nat,
        0x39f6d3a994cebea4199cec0404d0ec02a9ded2017fff2dff7fffffff80000000nat,
        0x39f6d3a994cebea4199cec0404d0ec02a9ded2017fff2dff7fffffff7fffffffnat,
    );
}

/// The power of 11 in the factored part divides the order of seven modulo
/// every prime divisor of `r`.
proof fn lemma_factor_11(p: nat, o: nat)
    requires
        p > 1,
        divides(p, order()),
        is_order(7, p, o),
        power(7, (order() - 1) as nat) % p == 1,
    ensures
        divides(power(11, 1), o),
{
    small_primes::lemma_prime_11();
    powers::lemma_seven_to_quotient_by_11();
    lemma_power_small(11);
    lemma_pocklington_factor(
        7,
        order(),
        p,
        o,
        11,
        1,
        0xa89f7f04999f41dd61c8800bb0eb68c1ee2b1d1ba2e657445d1745d00000000nat,
        0x32e3ee16442ae00d0ade6607de0a05957900e657e09c952e618a16c99985bcdanat,
        0x21b0038d90c92d2f4e3d82590013263bfc90347f3e16e6ce62f44dcc14df65dfnat,
        0xec9c7860d9fe302db75d0d1cff4e80bbf9fa4208a6ea68fa11e7160f4081e06nat,
    );
}

/// The power of 19 in the factored part divides the order of seven modulo
/// every prime divisor of `r`.
proof fn lemma_factor_19(p: nat, o: nat)
    requires
        p > 1,
        divides(p, order()),
        is_order(7, p, o),
        power(7, (order() - 1) as nat) % p == 1,
    ensures
        divides(power(19, 1), o),
{
    small_primes::lemma_prime_19();
    powers::lemma_seven_to_quotient_by_19();
    lemma_power_small(19);
    lemma_pocklington_factor(
        7,
        order(),
        p,
        o,
        19,
        1,
        0x619fb553815c339b1da9f94a230f06c11e18f5e79434835d79435e500000000nat,
        0x4b11569521af839931a5fb948d45c34bf87b7fc14f41215b554781951820e40enat,
        0x2668585e59b360bbdc14240e5a94d50f5b3e97ea0b3ec5cc55f3d2d6721f92d2nat,
        0x18decb3ab61e60b7f419d7fc4002fd07a7f2c7a6b1f63d6fb6e1af20f49d7ca9nat,
    );
}

/// The power of 10177 in the factored part divides the order of seven modulo
/// every prime divisor of `r`.
proof fn lemma_factor_10177(p: nat, o: nat)
    requires
        p > 1,
        divides(p, order()),
        is_order(7, p, o),
        power(7, (order() - 1) as nat) % p == 1,
    ensures
        divides(power(10177, 1), o),
{
    small_primes::lemma_prime_10177();
    powers::lemma_seven_to_quotient_by_10177();
    lemma_power_small(10177);
    lemma_pocklington_factor(
        7,
        order(),
        p,
        o,
        10177,
        1,
        0x2ea88c64c8fb8b17f3d0bf3056626493bd62f0a299b16905017bf00000000nat,
        0x1cba928b731970571e9595239f325fced6538e1240ff7965553667549739ebb9nat,
        0x45ef73ca00730d63c55ef80d6a9d569d74929d70059ad61e251781321cd9c58enat,
        0x1154bf331aa9bf356f481fb96b848be2e15858029f06affcdb0d092b637d580fnat,
    );
}

/// The power of 125527 in the factored part divides the order of seven modulo
/// every prime divisor of `r`.
proof fn lemma_factor_125527(p: nat, o: nat)
    requires
        p > 1,
        divides(p, order()),
        is_order(7, p, o),
        power(7, (order() - 1) as nat) % p == 1,
    ensures
        divides(power(125527, 1), o),
{
    small_primes::lemma_prime_125527();
    powers::lemma_seven_to_quotient_by_125527();
    lemma_power_small(125527);
    lemma_pocklington_factor(
        7,
        order(),
        p,
        o,
        125527,
        1,
        0x3c86504a1f91a36a677a9b5b8ddab737ef243e03188648495e9900000000nat,
        0x3dd479f5454967ce0dcb2b172ac73d5ce93d58a856569621c247fb7ed7f91c4fnat,
        0x64c8f0e82b93864d21a727eeb280596172b06f898587a51eb2d07484bb18f770nat,
        0x35c0d846f2cb975316166eb12e0d2ab4ed6dc6b2249d3088a00e353e789ba41fnat,
    );
}

/// The power of 859267 in the factored part divides the order of seven modulo
/// every prime divisor of `r`.
proof fn lemma_factor_859267(p: nat, o: nat)
    requires
        p > 1,
        divides(p, order()),
        is_order(7, p, o),
        power(7, (order() - 1) as nat) % p == 1,
    ensures
        divides(power(859267, 1), o),
{
    small_primes::lemma_prime_859267();
    powers::lemma_seven_to_quotient_by_859267();
    lemma_power_small(859267);
    lemma_pocklington_factor(
        7,
        order(),
        p,
        o,
        859267,
        1,
        0x8d78125d75c79835b9d4a08c8b4df9daa6ac02e94e9bce6edd500000000nat,
        0x672315bde95b3660335e8a5dcace029b6404f0331eae7401fa8c8374cd50438dnat,
        0x44bfc99dedac5265e202bade79caf4b2dcf1bc39d111262ac758f7a2c7e763b1nat,
        0x3d29dd5f189b4c809719e7d011e34062624697011a0544952c046179c5f1d7cbnat,
    );
}

/// The power of 906349 in the factored part divides the order of seven modulo
/// every prime divisor of `r`.
proof fn lemma_factor_906349(p: nat, o: nat)
    requires
        p > 1,
        divides(p, order()),
        is_order(7, p, o),
        power(7, (order() - 1) as nat) % p == 1,
    ensures
        divides(power(906349, 2), o),
{
    small_primes::lemma_prime_906349();
    powers::lemma_seven_to_quotient_by_906349();
    lemma_power_small(906349);
    lemma_pocklington_factor(
        7,
        order(),
        p,
        o,
        906349,
        2,
        0x861ec289d183279aff9c657418da9b481ba2bf325fff0d0aa9b00000000nat,
        0x67ee5d1f3b069511cd89744d5897256537cb1d8475a21d7924a57ba2b69a4d76nat,
        0x4073079c76e730aa62741bebe6d9531e37410dc18dff928c35a724b5ba8ff759nat,
        0x39c792bf23c9a5c3a85a2860eeb0e29dc967bc946c0c676de16e1e9da2bbd0acnat,
    );
}

/// The factored part of `r - 1` divides the order of seven modulo every
/// prime divisor of `r`.
proof fn lemma_factored_part_in_order(p: nat, o: nat)
    requires
        p > 1,
        divides(p, order()),
        is_order(7, p, o),
        power(7, (order() - 1) as nat) % p == 1,
    ensures
        divides(factored_part(), o),
{
    lemma_factor_2(p, o);
    lemma_factor_11(p, o);
    lemma_factor_19(p, o);
    lemma_factor_10177(p, o);
    lemma_factor_125527(p, o);
    lemma_factor_859267(p, o);
    lemma_factor_906349(p, o);
    lemma_two_to_32();
    small_primes::lemma_prime_11();
    lemma_power_small(11);
    lemma_coprime_product_divides(0x100000000nat, 11, 1, o);
    small_primes::lemma_prime_19();
    lemma_power_small(19);
    lemma_coprime_product_divides(0xb00000000nat, 19, 1, o);
    small_primes::lemma_prime_10177();
    lemma_power_small(10177);
    lemma_coprime_product_divides(0xd100000000nat, 10177, 1, o);
    small_primes::lemma_prime_125527();
    lemma_power_small(125527);
    lemma_coprime_product_divides(0x20749100000000nat, 125527, 1, o);
    small_primes::lemma_prime_859267();
    lemma_power_small(859267);
    lemma_coprime_product_divides(0x3e2a25274700000000nat, 859267, 1, o);
    small_primes::lemma_prime_906349();
    lemma_power_small(906349);
    lemma_coprime_product_divides(0x32f104e9fe9dd5500000000nat, 906349, 2, o);
}

/// The order of G1, G2 and GT is a prime number.
pub proof fn lemma_order_is_prime()
    ensures
        is_prime(order()),
{
    let n = order();
    if !is_prime(n) {
        let p = lemma_small_prime_divisor(n);
        // seven has an order modulo p
        assert(power(7, (n - 1) as nat) % n == 1) by {
            powers::lemma_seven_to_order_minus_one();
            reveal(has_residue);
        }
        lemma_residue_modulo_divisor(power(7, (n - 1) as nat), n, p);
        lemma_small_mod(1, p);
        let o = lemma_order_exists(7, p, (n - 1) as nat);
        // which the factored part divides, and which is below p
        lemma_factored_part_in_order(p, o);
        lemma_divisor_bound(factored_part(), o);
        lemma_order_below_prime(7, p, o);
        let f = factored_part();
        assert(f * f < p * p) by (nonlinear_arith)
            requires
                f < p,
        ;
        assert(f * f > n);
    }
}

} // verus!
