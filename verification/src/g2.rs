//! Points of G2, the group of proofs of possession and of signatures.
use vstd::prelude::*;
use vstd::slice::slice_to_vec;
use ark_bls12_381::{Fr, G2Affine};
use ark_ec::{AffineRepr, CurveGroup};
use ark_std::rand::{rngs::StdRng, SeedableRng};
use ark_std::UniformRand;
use ark_ff::{BigInt, PrimeField};
use ark_serialize::{CanonicalDeserialize, CanonicalSerialize, Valid};
use crate::algebra::{fadd, fmul, fneg, order};
use crate::scalar::{limbs_value, Scalar};

verus! {

/// The length of an encoded point of G2: two coordinates of 96 bytes each.
pub const G2_ENCODED_LEN: usize = 192;

/// The point of G2 that 192 bytes stand for, as the exponent of the generator
/// that yields it; `None` for bytes that stand for no point of G2.
///
/// The encoding is the uncompressed one of ark-bls12-381: the `x` coordinate,
/// then the `y` coordinate, each as two big-endian numbers of 48 bytes (the
/// coefficient of `u` first), with the three most significant bits of the
/// first byte as flags, of which the second marks the point at infinity. Bytes
/// stand for a point of G2 where
/// `G2Affine::deserialize_uncompressed_unchecked` reads a point from them and
/// `Valid::check` finds it on the curve and in the subgroup of order `r`.
pub uninterp spec fn g2_decode(encoding: Seq<u8>) -> Option<nat>;

/// The encoding of the point of G2 that `G2Affine::rand` draws from a
/// `StdRng` seeded with `seed`.
pub uninterp spec fn seeded_g2(seed: u64) -> Seq<u8>;

/// Whether `encoding` stands for the point of G2 with exponent `exponent`.
pub open spec fn g2_encodes(encoding: Seq<u8>, exponent: nat) -> bool {
    &&& encoding.len() == G2_ENCODED_LEN
    &&& exponent < order()
    &&& g2_decode(encoding) == Some(exponent)
}

/// Whether `encoding` stands for a point of G2.
pub open spec fn is_g2_encoding(encoding: Seq<u8>) -> bool {
    g2_decode(encoding) is Some && g2_encodes(encoding, g2_decode(encoding).unwrap())
}

/// A point of G2, held in its uncompressed encoding.
#[derive(Debug)]
pub struct G2Point {
    encoding: Vec<u8>,
}

impl View for G2Point {
    type V = nat;

    /// The exponent of the generator that yields this point.
    closed spec fn view(&self) -> nat {
        g2_decode(self.encoding@).unwrap()
    }
}

/// Reads a point with `G2Affine::deserialize_uncompressed_unchecked`, has
/// `Valid::check` test that it lies on the curve and in the subgroup of order
/// `r`, and writes it back with `serialize_uncompressed`. What comes back
/// stands for the point that `bytes` stand for, and nothing comes back where
/// `bytes` stand for none.
#[verifier::external_body]
fn g2_validate(bytes: &[u8]) -> (checked: Option<Vec<u8>>)
    requires
        bytes@.len() == G2_ENCODED_LEN,
    ensures
        match checked {
            Some(encoding) => is_g2_encoding(encoding@) && g2_decode(encoding@) == g2_decode(
                bytes@,
            ),
            None => g2_decode(bytes@) is None,
        },
{
    let point = G2Affine::deserialize_uncompressed_unchecked(bytes).ok()?;
    point.check().ok()?;
    let mut encoding = Vec::new();
    point.serialize_uncompressed(&mut encoding).unwrap();
    Some(encoding)
}

/// Seeds a `StdRng` of ark-std with `StdRng::seed_from_u64` and encodes the
/// point that `G2Affine::rand` draws from it. The generator, ChaCha with twelve
/// rounds in the `rand` that this crate is built with, is deterministic, so the
/// point depends on the seed alone; `rand` multiplies a point of the curve by
/// the cofactor, which puts it in the subgroup of order `r`.
#[verifier::external_body]
fn g2_seeded(seed: u64) -> (encoding: Vec<u8>)
    ensures
        encoding@ == seeded_g2(seed),
        is_g2_encoding(encoding@),
{
    let mut rng = StdRng::seed_from_u64(seed);
    let mut encoding = Vec::new();
    G2Affine::rand(&mut rng).serialize_uncompressed(&mut encoding).unwrap();
    encoding
}

/// Encodes `G2Affine::identity()`, the neutral element, whose exponent is zero.
#[verifier::external_body]
fn g2_identity() -> (encoding: Vec<u8>)
    ensures
        g2_encodes(encoding@, 0),
{
    let mut encoding = Vec::new();
    G2Affine::identity().serialize_uncompressed(&mut encoding).unwrap();
    encoding
}

/// Adds two points with the `+` of ark-ec: the exponent of the sum is the sum
/// of the exponents.
#[verifier::external_body]
fn g2_add(a: &[u8], b: &[u8]) -> (sum: Vec<u8>)
    requires
        is_g2_encoding(a@),
        is_g2_encoding(b@),
    ensures
        g2_encodes(sum@, fadd(g2_decode(a@).unwrap(), g2_decode(b@).unwrap())),
{
    let p = G2Affine::deserialize_uncompressed_unchecked(a).unwrap();
    let q = G2Affine::deserialize_uncompressed_unchecked(b).unwrap();
    let mut sum = Vec::new();
    (p + q).into_affine().serialize_uncompressed(&mut sum).unwrap();
    sum
}

/// Negates a point with the `neg` of ark-ec: the exponent is negated.
#[verifier::external_body]
fn g2_neg(a: &[u8]) -> (negated: Vec<u8>)
    requires
        is_g2_encoding(a@),
    ensures
        g2_encodes(negated@, fneg(g2_decode(a@).unwrap())),
{
    let p = G2Affine::deserialize_uncompressed_unchecked(a).unwrap();
    let mut negated = Vec::new();
    (-p).serialize_uncompressed(&mut negated).unwrap();
    negated
}

/// Multiplies a point by a scalar with the `*` of ark-ec: the exponent is
/// multiplied by the scalar.
#[verifier::external_body]
fn g2_mul(a: &[u8], scalar: [u64; 4]) -> (product: Vec<u8>)
    requires
        is_g2_encoding(a@),
        limbs_value(scalar@) < order(),
    ensures
        g2_encodes(product@, fmul(g2_decode(a@).unwrap(), limbs_value(scalar@))),
{
    let p = G2Affine::deserialize_uncompressed_unchecked(a).unwrap();
    let k = Fr::from_bigint(BigInt::new(scalar)).unwrap();
    let mut product = Vec::new();
    (p * k).into_affine().serialize_uncompressed(&mut product).unwrap();
    product
}

impl G2Point {
    /// What holds of every point: its bytes stand for a point of G2.
    #[verifier::type_invariant]
    pub closed spec fn well_formed(self) -> bool {
        is_g2_encoding(self.encoding@)
    }

    /// The bytes that hold this point.
    pub closed spec fn encoding(self) -> Seq<u8> {
        self.encoding@
    }

    /// The exponent of a point is below the order, and its bytes stand for it.
    pub proof fn lemma_well_formed(self)
        requires
            self.well_formed(),
        ensures
            self@ < order(),
            g2_encodes(self.encoding(), self@),
    {
    }

    /// The point that `bytes` stand for, if they stand for one.
    pub fn from_bytes(bytes: &[u8]) -> (point: Option<G2Point>)
        ensures
            point is Some <==> bytes@.len() == G2_ENCODED_LEN && g2_decode(bytes@) is Some,
            point is Some ==> g2_decode(bytes@) == Some(point.unwrap()@),
    {
        if bytes.len() != G2_ENCODED_LEN {
            return None;
        }
        match g2_validate(bytes) {
            Some(encoding) => Some(G2Point { encoding }),
            None => None,
        }
    }

    /// The bytes that hold this point.
    pub fn to_bytes(&self) -> (bytes: Vec<u8>)
        ensures
            bytes@ == self.encoding(),
            g2_encodes(bytes@, self@),
    {
        proof {
            use_type_invariant(self);
        }
        slice_to_vec(self.encoding.as_slice())
    }

    /// The bytes that hold this point, borrowed.
    pub(crate) fn as_bytes(&self) -> (bytes: &[u8])
        ensures
            bytes@ == self.encoding(),
            is_g2_encoding(bytes@),
            g2_decode(bytes@) == Some(self@),
    {
        proof {
            use_type_invariant(self);
        }
        self.encoding.as_slice()
    }

    /// The point that a generator of random numbers seeded with `seed`
    /// draws first: one point for each seed.
    pub fn seeded(seed: u64) -> (point: G2Point)
        ensures
            point.encoding() == seeded_g2(seed),
            g2_decode(seeded_g2(seed)) == Some(point@),
    {
        G2Point { encoding: g2_seeded(seed) }
    }

    /// The neutral element of G2.
    pub fn identity() -> (zero: G2Point)
        ensures
            zero@ == 0,
    {
        G2Point { encoding: g2_identity() }
    }

    /// The sum of two points.
    pub fn add(&self, rhs: &G2Point) -> (sum: G2Point)
        ensures
            sum@ == fadd(self@, rhs@),
    {
        proof {
            use_type_invariant(self);
            use_type_invariant(rhs);
        }
        G2Point { encoding: g2_add(self.encoding.as_slice(), rhs.encoding.as_slice()) }
    }

    /// The inverse of a point.
    pub fn neg(&self) -> (negated: G2Point)
        ensures
            negated@ == fneg(self@),
    {
        proof {
            use_type_invariant(self);
        }
        G2Point { encoding: g2_neg(self.encoding.as_slice()) }
    }

    /// This point multiplied by a scalar.
    pub fn mul(&self, scalar: &Scalar) -> (product: G2Point)
        ensures
            product@ == fmul(self@, scalar@),
    {
        proof {
            use_type_invariant(self);
            use_type_invariant(scalar);
            scalar.lemma_in_range();
        }
        let limbs = scalar.to_limbs();
        G2Point { encoding: g2_mul(self.encoding.as_slice(), limbs) }
    }

    /// Whether two points are held in the same bytes.
    pub fn same_encoding(&self, other: &G2Point) -> (same: bool)
        ensures
            same == (self.encoding() == other.encoding()),
            same ==> self@ == other@,
    {
        proof {
            use_type_invariant(self);
            use_type_invariant(other);
        }
        let mut i: usize = 0;
        while i < G2_ENCODED_LEN
            invariant
                i <= G2_ENCODED_LEN,
                self.encoding@.len() == G2_ENCODED_LEN,
                other.encoding@.len() == G2_ENCODED_LEN,
                forall|j: int| 0 <= j < i ==> self.encoding@[j] == other.encoding@[j],
            decreases G2_ENCODED_LEN - i,
        {
            if self.encoding[i] != other.encoding[i] {
                return false;
            }
            i += 1;
        }
        assert(self.encoding@ =~= other.encoding@);
        true
    }
}

impl PartialEq for G2Point {
    /// Whether two points are held in the same bytes.
    fn eq(&self, other: &G2Point) -> (same: bool) {
        self.same_encoding(other)
    }
}

impl vstd::std_specs::cmp::PartialEqSpecImpl for G2Point {
    open spec fn obeys_eq_spec() -> bool {
        true
    }

    open spec fn eq_spec(&self, other: &G2Point) -> bool {
        self.encoding() == other.encoding()
    }
}

impl Eq for G2Point {

}

impl Clone for G2Point {
    fn clone(&self) -> (copy: G2Point)
        ensures
            copy@ == self@,
            copy.encoding() == self.encoding(),
    {
        proof {
            use_type_invariant(self);
        }
        G2Point { encoding: slice_to_vec(self.encoding.as_slice()) }
    }
}

} // verus!
