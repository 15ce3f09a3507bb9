//! Elements of the scalar field of BLS12-381: secret keys and the
//! coefficients by which points are multiplied.
use vstd::prelude::*;
use ark_bls12_381::Fr;
use ark_ff::{BigInt, Field, PrimeField};
use crate::algebra::{
    finv, fmul, is_inverse, lemma_fmul_zero, lemma_inverse_unique, lemma_reduce_bound, order,
};

verus! {

/// The number that four 64-bit limbs stand for, least significant limb first.
pub open spec fn limbs_value(limbs: Seq<u64>) -> nat {
    (limbs[0] as nat) + (limbs[1] as nat) * 0x1_0000_0000_0000_0000nat + (limbs[2] as nat)
        * 0x1_0000_0000_0000_0000_0000_0000_0000_0000nat + (limbs[3] as nat)
        * 0x1_0000_0000_0000_0000_0000_0000_0000_0000_0000_0000_0000_0000nat
}

/// A scalar: a number in `0..r`, held as four 64-bit limbs, least
/// significant first.
#[derive(Clone, Copy, Debug)]
pub struct Scalar {
    limbs: [u64; 4],
}

impl View for Scalar {
    type V = nat;

    closed spec fn view(&self) -> nat {
        limbs_value(self.limbs@)
    }
}

/// Calls `Fr::mul` of ark-bls12-381 on the two field elements that the limbs
/// stand for: the limbs of their product modulo `r`.
#[verifier::external_body]
fn fr_mul(a: [u64; 4], b: [u64; 4]) -> (product: [u64; 4])
    requires
        limbs_value(a@) < order(),
        limbs_value(b@) < order(),
    ensures
        limbs_value(product@) == fmul(limbs_value(a@), limbs_value(b@)),
{
    let x = Fr::from_bigint(BigInt::new(a)).unwrap();
    let y = Fr::from_bigint(BigInt::new(b)).unwrap();
    (x * y).into_bigint().0
}

/// Calls `Field::inverse` of ark-ff on the field element that the limbs stand
/// for. It returns nothing for zero and for every other element the one
/// element whose product with it is one.
#[verifier::external_body]
fn fr_inverse(a: [u64; 4]) -> (inverse: Option<[u64; 4]>)
    requires
        limbs_value(a@) < order(),
    ensures
        match inverse {
            Some(b) => is_inverse(limbs_value(a@), limbs_value(b@)),
            None => limbs_value(a@) == 0,
        },
{
    let x = Fr::from_bigint(BigInt::new(a)).unwrap();
    x.inverse().map(|y| y.into_bigint().0)
}

impl Scalar {
    /// What holds of every scalar: the value of its limbs is below the order.
    #[verifier::type_invariant]
    pub closed spec fn in_range(self) -> bool {
        limbs_value(self.limbs@) < order()
    }

    /// The limbs of this scalar, least significant first.
    pub closed spec fn limbs(self) -> Seq<u64> {
        self.limbs@
    }

    /// A scalar is below the order, and is the value of its limbs.
    pub proof fn lemma_in_range(self)
        requires
            self.in_range(),
        ensures
            self@ < order(),
            self@ == limbs_value(self.limbs()),
    {
    }

    /// The scalar `value`.
    pub fn from_u64(value: u64) -> (s: Scalar)
        ensures
            s@ == value,
    {
        Scalar { limbs: [value, 0, 0, 0] }
    }

    /// The scalar `value`.
    pub fn from_u128(value: u128) -> (s: Scalar)
        ensures
            s@ == value,
    {
        let low: u64 = (value & 0xffff_ffff_ffff_ffff) as u64;
        let high: u64 = (value >> 64) as u64;
        assert(value == (value & 0xffff_ffff_ffff_ffff) + (value >> 64) * 0x1_0000_0000_0000_0000
            && (value & 0xffff_ffff_ffff_ffff) <= 0xffff_ffff_ffff_ffff && (value >> 64)
            <= 0xffff_ffff_ffff_ffff) by (bit_vector);
        Scalar { limbs: [low, high, 0, 0] }
    }

    /// The scalar with the given limbs, least significant first, if their
    /// value is below the order.
    pub fn from_limbs(limbs: [u64; 4]) -> (s: Option<Scalar>)
        ensures
            s is Some <==> limbs_value(limbs@) < order(),
            s is Some ==> s.unwrap()@ == limbs_value(limbs@) && s.unwrap().limbs() == limbs@,
    {
        let below = if limbs[3] != 0x73eda753299d7d48 {
            limbs[3] < 0x73eda753299d7d48
        } else if limbs[2] != 0x3339d80809a1d805 {
            limbs[2] < 0x3339d80809a1d805
        } else if limbs[1] != 0x53bda402fffe5bfe {
            limbs[1] < 0x53bda402fffe5bfe
        } else {
            limbs[0] < 0xffffffff00000001
        };
        if below {
            Some(Scalar { limbs })
        } else {
            None
        }
    }

    /// The limbs of this scalar, least significant first.
    pub fn to_limbs(&self) -> (limbs: [u64; 4])
        ensures
            limbs@ == self.limbs(),
            limbs_value(limbs@) == self@,
    {
        self.limbs
    }

    /// Whether this is the scalar zero.
    pub fn is_zero(&self) -> (zero: bool)
        ensures
            zero == (self@ == 0),
    {
        self.limbs[0] == 0 && self.limbs[1] == 0 && self.limbs[2] == 0 && self.limbs[3] == 0
    }

    /// The product of two scalars.
    pub fn mul(&self, rhs: &Scalar) -> (product: Scalar)
        ensures
            product@ == fmul(self@, rhs@),
    {
        proof {
            use_type_invariant(self);
            use_type_invariant(rhs);
        }
        let limbs = fr_mul(self.limbs, rhs.limbs);
        proof {
            lemma_reduce_bound((self@ * rhs@) as int);
        }
        Scalar { limbs }
    }

    /// The multiplicative inverse of this scalar; zero has none.
    pub fn inverse(&self) -> (inverse: Option<Scalar>)
        ensures
            inverse is None <==> self@ == 0,
            inverse is Some ==> is_inverse(self@, inverse.unwrap()@) && inverse.unwrap()@ == finv(
                self@,
            ),
    {
        proof {
            use_type_invariant(self);
        }
        match fr_inverse(self.limbs) {
            Some(limbs) => {
                proof {
                    let b = limbs_value(limbs@);
                    assert(self@ != 0) by {
                        lemma_fmul_zero(b);
                    }
                    lemma_inverse_unique(self@, b, finv(self@));
                }
                Some(Scalar { limbs })
            },
            None => None,
        }
    }
}

impl PartialEq for Scalar {
    /// Whether two scalars are the same number.
    fn eq(&self, other: &Scalar) -> (same: bool) {
        self.limbs[0] == other.limbs[0] && self.limbs[1] == other.limbs[1] && self.limbs[2]
            == other.limbs[2] && self.limbs[3] == other.limbs[3]
    }
}

impl vstd::std_specs::cmp::PartialEqSpecImpl for Scalar {
    open spec fn obeys_eq_spec() -> bool {
        true
    }

    open spec fn eq_spec(&self, other: &Scalar) -> bool {
        self@ == other@
    }
}

impl Eq for Scalar {

}

} // verus!
