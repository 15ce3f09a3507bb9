//! Hashing of messages to points of G2.
use vstd::prelude::*;
use vstd::slice::slice_to_vec;
use ark_bls12_381::{g2::Config, G2Projective};
use ark_ec::hashing::{
    curve_maps::wb::WBMap, map_to_curve_hasher::MapToCurveBasedHasher, HashToCurve,
    HashToCurveError,
};
use ark_ff::field_hashers::DefaultFieldHasher;
use ark_serialize::CanonicalSerialize;
use sha2::Sha256;
use crate::error::Error;
use crate::g2::{g2_decode, G2Point, G2_ENCODED_LEN};

verus! {

/// The error of ark-ec's hashing to a curve. Nothing is read from it.
#[verifier::external_type_specification]
#[verifier::external_body]
pub struct ExHashToCurveError(HashToCurveError);

/// The encoding of the point of G2 that the hash-to-curve construction of
/// ark-ec (expansion of the message with SHA-256, the Wahby-Boneh map, then
/// clearing of the cofactor) yields for `message` under the domain separation
/// tag `domain`; `None` where the construction fails.
pub uninterp spec fn hash_to_g2(domain: Seq<u8>, message: Seq<u8>) -> Option<Seq<u8>>;

/// The exponent of the point that `message` is hashed to under `domain`, where
/// the construction yields a point of G2.
pub open spec fn digest_under(domain: Seq<u8>, message: Seq<u8>) -> Option<nat> {
    match hash_to_g2(domain, message) {
        Some(encoding) => if encoding.len() == G2_ENCODED_LEN {
            g2_decode(encoding)
        } else {
            None
        },
        None => None,
    }
}

/// The domain separation tag under which this scheme hashes messages.
pub open spec fn domain_tag() -> Seq<u8> {
    seq![1u8, 3u8, 3u8, 7u8]
}

/// The exponent of the point that `message` is hashed to in this scheme.
pub open spec fn digest(message: Seq<u8>) -> Option<nat> {
    digest_under(domain_tag(), message)
}

/// Builds a `MapToCurveBasedHasher` of ark-ec for G2, with SHA-256 and the
/// Wahby-Boneh map, under `domain`, and has it hash `message`. What comes back
/// is a function of the two byte strings alone.
#[verifier::external_body]
fn hash_encoded(domain: &[u8], message: &[u8]) -> (hashed: Result<Vec<u8>, HashToCurveError>)
    ensures
        match hashed {
            Ok(encoding) => hash_to_g2(domain@, message@) == Some(encoding@),
            Err(_) => hash_to_g2(domain@, message@) is None,
        },
{
    let hasher = MapToCurveBasedHasher::<
        G2Projective,
        DefaultFieldHasher<Sha256, 128>,
        WBMap<Config>,
    >::new(domain)?;
    let point = hasher.hash(message)?;
    let mut encoding = Vec::new();
    point.serialize_uncompressed(&mut encoding).unwrap();
    Ok(encoding)
}

/// A hasher of messages to G2 under one domain separation tag.
#[derive(Debug)]
pub struct Hasher {
    domain: Vec<u8>,
}

impl Hasher {
    /// The domain separation tag of this hasher.
    pub closed spec fn domain(self) -> Seq<u8> {
        self.domain@
    }

    /// A hasher under the tag `domain`.
    pub fn new(domain: &[u8]) -> (hasher: Hasher)
        ensures
            hasher.domain() == domain@,
    {
        Hasher { domain: slice_to_vec(domain) }
    }

    /// The point of G2 that `message` is hashed to: the same point for the
    /// same message and tag, whenever it is asked for.
    pub fn hash(&self, message: &[u8]) -> (point: Result<G2Point, Error>)
        ensures
            match digest_under(self.domain(), message@) {
                Some(exponent) => point is Ok && point.unwrap()@ == exponent,
                None => point matches Err(e) && e == Error::HashToCurveError,
            },
    {
        match hash_encoded(self.domain.as_slice(), message) {
            Ok(encoding) => match G2Point::from_bytes(encoding.as_slice()) {
                Some(point) => Ok(point),
                None => Err(Error::HashToCurveError),
            },
            Err(_) => Err(Error::HashToCurveError),
        }
    }
}

/// The hasher of this scheme: the one under the tag `[1, 3, 3, 7]`.
pub fn hasher() -> (hasher: Hasher)
    ensures
        hasher.domain() == domain_tag(),
{
    let mut domain: Vec<u8> = Vec::new();
    domain.push(1);
    domain.push(3);
    domain.push(3);
    domain.push(7);
    assert(domain@ =~= domain_tag());
    Hasher { domain }
}

/// The point of G2 that `message` is hashed to in this scheme.
pub fn hash_to_curve(message: &[u8]) -> (point: Result<G2Point, Error>)
    ensures
        match digest(message@) {
            Some(exponent) => point is Ok && point.unwrap()@ == exponent,
            None => point matches Err(e) && e == Error::HashToCurveError,
        },
{
    hasher().hash(message)
}

/// Hashing is a function: equal messages under equal tags have equal digests.
pub proof fn law_hash_deterministic(domain: Seq<u8>, first: Seq<u8>, second: Seq<u8>)
    requires
        first == second,
    ensures
        digest_under(domain, first) == digest_under(domain, second),
        digest(first) == digest(second),
{
}

} // verus!
