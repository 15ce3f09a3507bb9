//! Points of G1, the group of public keys.
use vstd::prelude::*;
use vstd::slice::slice_to_vec;
use ark_bls12_381::{Fr, G1Affine};
use ark_ec::{AffineRepr, CurveGroup};
use ark_ff::{BigInt, PrimeField};
use ark_serialize::{CanonicalDeserialize, CanonicalSerialize, Valid};
use crate::algebra::{fadd, fmul, fneg, generator, order};
use crate::scalar::{limbs_value, Scalar};

verus! {

/// The length of an encoded point of G1: two coordinates of 48 bytes each.
pub const G1_ENCODED_LEN: usize = 96;

/// The point of G1 that 96 bytes stand for, as the exponent of the generator
/// that yields it; `None` for bytes that stand for no point of G1.
///
/// The encoding is the uncompressed one of ark-bls12-381: the big-endian `x`
/// coordinate, then the big-endian `y` coordinate, with the three most
/// significant bits of the first byte as flags, of which the second marks the
/// point at infinity. Bytes stand for a point of G1 where
/// `G1Affine::deserialize_uncompressed_unchecked` reads a point from them and
/// `Valid::check` finds it on the curve and in the subgroup of order `r`.
pub uninterp spec fn g1_decode(encoding: Seq<u8>) -> Option<nat>;

/// Whether `encoding` stands for the point of G1 with exponent `exponent`.
pub open spec fn g1_encodes(encoding: Seq<u8>, exponent: nat) -> bool {
    &&& encoding.len() == G1_ENCODED_LEN
    &&& exponent < order()
    &&& g1_decode(encoding) == Some(exponent)
}

/// Whether `encoding` stands for a point of G1.
pub open spec fn is_g1_encoding(encoding: Seq<u8>) -> bool {
    g1_decode(encoding) is Some && g1_encodes(encoding, g1_decode(encoding).unwrap())
}

/// A point of G1, held in its uncompressed encoding.
#[derive(Debug)]
pub struct G1Point {
    encoding: Vec<u8>,
}

impl View for G1Point {
    type V = nat;

    /// The exponent of the generator that yields this point.
    closed spec fn view(&self) -> nat {
        g1_decode(self.encoding@).unwrap()
    }
}

/// Reads a point with `G1Affine::deserialize_uncompressed_unchecked`, has
/// `Valid::check` test that it lies on the curve and in the subgroup of order
/// `r`, and writes it back with `serialize_uncompressed`. What comes back
/// stands for the point that `bytes` stand for, and nothing comes back where
/// `bytes` stand for none.
#[verifier::external_body]
fn g1_validate(bytes: &[u8]) -> (checked: Option<Vec<u8>>)
    requires
        bytes@.len() == G1_ENCODED_LEN,
    ensures
        match checked {
            Some(encoding) => is_g1_encoding(encoding@) && g1_decode(encoding@) == g1_decode(
                bytes@,
            ),
            None => g1_decode(bytes@) is None,
        },
{
    let point = G1Affine::deserialize_uncompressed_unchecked(bytes).ok()?;
    point.check().ok()?;
    let mut encoding = Vec::new();
    point.serialize_uncompressed(&mut encoding).unwrap();
    Some(encoding)
}

/// Encodes `G1Affine::generator()`, the point whose exponent is one.
#[verifier::external_body]
fn g1_generator() -> (encoding: Vec<u8>)
    ensures
        g1_encodes(encoding@, generator()),
{
    let mut encoding = Vec::new();
    G1Affine::generator().serialize_uncompressed(&mut encoding).unwrap();
    encoding
}

/// Encodes `G1Affine::identity()`, the neutral element, whose exponent is zero.
#[verifier::external_body]
fn g1_identity() -> (encoding: Vec<u8>)
    ensures
        g1_encodes(encoding@, 0),
{
    let mut encoding = Vec::new();
    G1Affine::identity().serialize_uncompressed(&mut encoding).unwrap();
    encoding
}

/// Adds two points with the `+` of ark-ec: the exponent of the sum is the sum
/// of the exponents.
#[verifier::external_body]
fn g1_add(a: &[u8], b: &[u8]) -> (sum: Vec<u8>)
    requires
        is_g1_encoding(a@),
        is_g1_encoding(b@),
    ensures
        g1_encodes(sum@, fadd(g1_decode(a@).unwrap(), g1_decode(b@).unwrap())),
{
    let p = G1Affine::deserialize_uncompressed_unchecked(a).unwrap();
    let q = G1Affine::deserialize_uncompressed_unchecked(b).unwrap();
    let mut sum = Vec::new();
    (p + q).into_affine().serialize_uncompressed(&mut sum).unwrap();
    sum
}

/// Negates a point with the `neg` of ark-ec: the exponent is negated.
#[verifier::external_body]
fn g1_neg(a: &[u8]) -> (negated: Vec<u8>)
    requires
        is_g1_encoding(a@),
    ensures
        g1_encodes(negated@, fneg(g1_decode(a@).unwrap())),
{
    let p = G1Affine::deserialize_uncompressed_unchecked(a).unwrap();
    let mut negated = Vec::new();
    (-p).serialize_uncompressed(&mut negated).unwrap();
    negated
}

/// Multiplies a point by a scalar with the `*` of ark-ec: the exponent is
/// multiplied by the scalar.
#[verifier::external_body]
fn g1_mul(a: &[u8], scalar: [u64; 4]) -> (product: Vec<u8>)
    requires
        is_g1_encoding(a@),
        limbs_value(scalar@) < order(),
    ensures
        g1_encodes(product@, fmul(g1_decode(a@).unwrap(), limbs_value(scalar@))),
{
    let p = G1Affine::deserialize_uncompressed_unchecked(a).unwrap();
    let k = Fr::from_bigint(BigInt::new(scalar)).unwrap();
    let mut product = Vec::new();
    (p * k).into_affine().serialize_uncompressed(&mut product).unwrap();
    product
}

impl G1Point {
    /// What holds of every point: its bytes stand for a point of G1.
    #[verifier::type_invariant]
    pub closed spec fn well_formed(self) -> bool {
        is_g1_encoding(self.encoding@)
    }

    /// The bytes that hold this point.
    pub closed spec fn encoding(self) -> Seq<u8> {
        self.encoding@
    }

    /// The exponent of a point is below the order, and its bytes stand for it.
    pub proof fn lemma_well_formed(self)
        requires
            self.well_formed(),
        ensures
            self@ < order(),
            g1_encodes(self.encoding(), self@),
    {
    }

    /// The point that `bytes` stand for, if they stand for one.
    pub fn from_bytes(bytes: &[u8]) -> (point: Option<G1Point>)
        ensures
            point is Some <==> bytes@.len() == G1_ENCODED_LEN && g1_decode(bytes@) is Some,
            point is Some ==> g1_decode(bytes@) == Some(point.unwrap()@),
    {
        if bytes.len() != G1_ENCODED_LEN {
            return None;
        }
        match g1_validate(bytes) {
            Some(encoding) => Some(G1Point { encoding }),
            None => None,
        }
    }

    /// The bytes that hold this point.
    pub fn to_bytes(&self) -> (bytes: Vec<u8>)
        ensures
            bytes@ == self.encoding(),
            g1_encodes(bytes@, self@),
    {
        proof {
            use_type_invariant(self);
        }
        slice_to_vec(self.encoding.as_slice())
    }

    /// The bytes that hold this point, borrowed.
    pub(crate) fn as_bytes(&self) -> (bytes: &[u8])
        ensures
            bytes@ == self.encoding(),
            is_g1_encoding(bytes@),
            g1_decode(bytes@) == Some(self@),
    {
        proof {
            use_type_invariant(self);
        }
        self.encoding.as_slice()
    }

    /// The generator of G1.
    pub fn generator() -> (g: G1Point)
        ensures
            g@ == generator(),
    {
        G1Point { encoding: g1_generator() }
    }

    /// The neutral element of G1.
    pub fn identity() -> (zero: G1Point)
        ensures
            zero@ == 0,
    {
        G1Point { encoding: g1_identity() }
    }

    /// The sum of two points.
    pub fn add(&self, rhs: &G1Point) -> (sum: G1Point)
        ensures
            sum@ == fadd(self@, rhs@),
    {
        proof {
            use_type_invariant(self);
            use_type_invariant(rhs);
        }
        G1Point { encoding: g1_add(self.encoding.as_slice(), rhs.encoding.as_slice()) }
    }

    /// The inverse of a point.
    pub fn neg(&self) -> (negated: G1Point)
        ensures
            negated@ == fneg(self@),
    {
        proof {
            use_type_invariant(self);
        }
        G1Point { encoding: g1_neg(self.encoding.as_slice()) }
    }

    /// This point multiplied by a scalar.
    pub fn mul(&self, scalar: &Scalar) -> (product: G1Point)
        ensures
            product@ == fmul(self@, scalar@),
    {
        proof {
            use_type_invariant(self);
            use_type_invariant(scalar);
            scalar.lemma_in_range();
        }
        let limbs = scalar.to_limbs();
        G1Point { encoding: g1_mul(self.encoding.as_slice(), limbs) }
    }

    /// Whether two points are held in the same bytes.
    pub fn same_encoding(&self, other: &G1Point) -> (same: bool)
        ensures
            same == (self.encoding() == other.encoding()),
            same ==> self@ == other@,
    {
        proof {
            use_type_invariant(self);
            use_type_invariant(other);
        }
        let mut i: usize = 0;
        while i < G1_ENCODED_LEN
            invariant
                i <= G1_ENCODED_LEN,
                self.encoding@.len() == G1_ENCODED_LEN,
                other.encoding@.len() == G1_ENCODED_LEN,
                forall|j: int| 0 <= j < i ==> self.encoding@[j] == other.encoding@[j],
            decreases G1_ENCODED_LEN - i,
        {
            if self.encoding[i] != other.encoding[i] {
                return false;
            }
            i += 1;
        }
        assert(self.encoding@ =~= other.encoding@);
        true
    }
}

impl PartialEq for G1Point {
    /// Whether two points are held in the same bytes.
    fn eq(&self, other: &G1Point) -> (same: bool) {
        self.same_encoding(other)
    }
}

impl vstd::std_specs::cmp::PartialEqSpecImpl for G1Point {
    open spec fn obeys_eq_spec() -> bool {
        true
    }

    open spec fn eq_spec(&self, other: &G1Point) -> bool {
        self.encoding() == other.encoding()
    }
}

impl Eq for G1Point {

}

impl Clone for G1Point {
    fn clone(&self) -> (copy: G1Point)
        ensures
            copy@ == self@,
            copy.encoding() == self.encoding(),
    {
        proof {
            use_type_invariant(self);
        }
        G1Point { encoding: slice_to_vec(self.encoding.as_slice()) }
    }
}

} // verus!
