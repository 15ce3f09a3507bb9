//! The registry: the ordered list of public keys and proofs of possession,
//! one entry per position, as it is read from bytes and checked.
//!
//! A registry is persisted as the number of its entries, a 64-bit
//! little-endian integer, followed by the entries in order, each of them the
//! 96 bytes of the key and then the 192 bytes of the proof. Bytes behind the
//! last entry are not read.
use vstd::prelude::*;
use crate::algebra::{
    fadd, lemma_fadd_assoc_comm, lemma_fadd_zero, lemma_sum_bound, lemma_sum_step, sum,
};
use crate::error::Error;
use crate::g1::{g1_decode, G1Point, G1_ENCODED_LEN};
use crate::g2::{g2_decode, G2Point, G2_ENCODED_LEN};
use crate::pok::{accepts_over, pok_accepts, pok_base, pok_base_point, pok_verify, verify_over};

verus! {

/// The length of the count that a persisted registry starts with.
pub const COUNT_LEN: usize = 8;

/// The length of a persisted entry: a key and a proof.
pub const ENTRY_LEN: usize = 288;

/// An entry of the registry: a public key and the proof of possession that was
/// registered with it. Its position is its place in the registry.
#[derive(Debug)]
pub struct RegistryEntry {
    pub public_key: G1Point,
    pub proof: G2Point,
}

impl View for RegistryEntry {
    type V = (nat, nat);

    /// The exponents of the key and of the proof.
    open spec fn view(&self) -> (nat, nat) {
        (self.public_key@, self.proof@)
    }
}

impl PartialEq for RegistryEntry {
    /// Whether two entries hold the same key and the same proof.
    fn eq(&self, other: &RegistryEntry) -> (same: bool) {
        self.public_key == other.public_key && self.proof == other.proof
    }
}

impl vstd::std_specs::cmp::PartialEqSpecImpl for RegistryEntry {
    open spec fn obeys_eq_spec() -> bool {
        true
    }

    open spec fn eq_spec(&self, other: &RegistryEntry) -> bool {
        self.public_key.encoding() == other.public_key.encoding() && self.proof.encoding()
            == other.proof.encoding()
    }
}

impl Eq for RegistryEntry {

}

impl Clone for RegistryEntry {
    fn clone(&self) -> (copy: RegistryEntry)
        ensures
            copy@ == self@,
    {
        RegistryEntry { public_key: self.public_key.clone(), proof: self.proof.clone() }
    }
}

/// The entries of a registry as pairs of exponents: key and proof.
pub open spec fn registry_view(entries: Seq<RegistryEntry>) -> Seq<(nat, nat)> {
    Seq::new(entries.len(), |i: int| entries[i]@)
}

/// The keys of a registry, in order.
pub open spec fn keys_of(registry: Seq<(nat, nat)>) -> Seq<nat> {
    Seq::new(registry.len(), |i: int| registry[i].0)
}

/// The proofs of a registry, in order.
pub open spec fn proofs_of(registry: Seq<(nat, nat)>) -> Seq<nat> {
    Seq::new(registry.len(), |i: int| registry[i].1)
}

/// Whether every entry holds a proof that is accepted for its key at its
/// position, over the base point `base` of position zero.
pub open spec fn all_accepted_over(base: nat, registry: Seq<(nat, nat)>) -> bool {
    forall|i: int|
        0 <= i < registry.len() ==> accepts_over(
            base,
            (#[trigger] registry[i]).0,
            i as nat,
            registry[i].1,
        )
}

/// Whether this scheme accepts every entry at its position.
pub open spec fn all_accepted(registry: Seq<(nat, nat)>) -> bool {
    all_accepted_over(pok_base(), registry)
}

/// The exponent of the aggregate key of a registry, with the key that is
/// about to be registered where there is one.
pub open spec fn aggregate_key_of(registry: Seq<(nat, nat)>, extra: Option<nat>) -> nat {
    match extra {
        Some(key) => fadd(key, sum(keys_of(registry))),
        None => sum(keys_of(registry)),
    }
}

/// The number of entries that persisted bytes announce: the little-endian
/// value of their first eight bytes.
pub open spec fn announced_count(data: Seq<u8>) -> nat {
    (data[0] as nat) + (data[1] as nat) * 0x100 + (data[2] as nat) * 0x1_0000 + (data[3] as nat)
        * 0x100_0000 + (data[4] as nat) * 0x1_0000_0000 + (data[5] as nat) * 0x100_0000_0000 + (
    data[6] as nat) * 0x1_0000_0000_0000 + (data[7] as nat) * 0x100_0000_0000_0000
}

/// Where the entry of position `index` starts in persisted bytes.
pub open spec fn entry_start(index: nat) -> nat {
    COUNT_LEN as nat + index * (ENTRY_LEN as nat)
}

/// The bytes of the key of position `index`.
pub open spec fn key_bytes(data: Seq<u8>, index: nat) -> Seq<u8> {
    data.subrange(entry_start(index) as int, entry_start(index) + G1_ENCODED_LEN)
}

/// The bytes of the proof of position `index`.
pub open spec fn proof_bytes(data: Seq<u8>, index: nat) -> Seq<u8> {
    data.subrange(entry_start(index) + G1_ENCODED_LEN, entry_start(index + 1) as int)
}

/// Whether the bytes are long enough for the count and for as many entries as
/// the count announces.
pub open spec fn is_framed(data: Seq<u8>) -> bool {
    data.len() >= COUNT_LEN && entry_start(announced_count(data)) <= data.len()
}

/// Whether the bytes hold a registry: they are long enough, and every entry
/// holds a point of G1 and a point of G2.
pub open spec fn is_registry(data: Seq<u8>) -> bool {
    &&& is_framed(data)
    &&& forall|i: nat|
        i < announced_count(data) ==> g1_decode(#[trigger] key_bytes(data, i)) is Some
            && g2_decode(proof_bytes(data, i)) is Some
}

/// The registry that the bytes hold, as pairs of exponents.
pub open spec fn decoded_registry(data: Seq<u8>) -> Seq<(nat, nat)> {
    Seq::new(
        announced_count(data),
        |i: int|
            (
                g1_decode(key_bytes(data, i as nat)).unwrap(),
                g2_decode(proof_bytes(data, i as nat)).unwrap(),
            ),
    )
}

/// Reads the count that persisted bytes start with.
fn read_count(data: &[u8]) -> (count: u64)
    requires
        data@.len() >= COUNT_LEN,
    ensures
        count == announced_count(data@),
{
    let b0 = data[0] as u64;
    let b1 = data[1] as u64;
    let b2 = data[2] as u64;
    let b3 = data[3] as u64;
    let b4 = data[4] as u64;
    let b5 = data[5] as u64;
    let b6 = data[6] as u64;
    let b7 = data[7] as u64;
    b0 + b1 * 0x100 + b2 * 0x1_0000 + b3 * 0x100_0000 + b4 * 0x1_0000_0000 + b5
        * 0x100_0000_0000 + b6 * 0x1_0000_0000_0000 + b7 * 0x100_0000_0000_0000
}

/// Reads a registry from its persisted bytes. Bytes that are cut short, or
/// that hold at some position what is no point of the curve or lies outside
/// the subgroup, are refused as a whole.
pub fn parse_registry(data: &[u8]) -> (parsed: Result<Vec<RegistryEntry>, Error>)
    ensures
        parsed is Ok <==> is_registry(data@),
        parsed matches Ok(entries) ==> registry_view(entries@) == decoded_registry(data@),
        parsed matches Err(e) ==> e == Error::DeserializationError,
{
    if data.len() < COUNT_LEN {
        return Err(Error::DeserializationError);
    }
    let count = read_count(data);
    let capacity = (data.len() - COUNT_LEN) / ENTRY_LEN;
    if count > capacity as u64 {
        return Err(Error::DeserializationError);
    }
    let count = count as usize;
    let mut entries: Vec<RegistryEntry> = Vec::new();
    let mut i: usize = 0;
    while i < count
        invariant
            i <= count,
            count == announced_count(data@),
            COUNT_LEN + count * ENTRY_LEN <= data@.len() <= usize::MAX,
            entries@.len() == i,
            forall|j: int|
                0 <= j < i ==> g1_decode(key_bytes(data@, j as nat)) == Some(
                    (#[trigger] entries@[j]).public_key@,
                ) && g2_decode(proof_bytes(data@, j as nat)) == Some(entries@[j].proof@),
        decreases count - i,
    {
        assert((i + 1) * ENTRY_LEN <= count * ENTRY_LEN) by (nonlinear_arith)
            requires
                i < count,
        ;
        assert((i + 1) * ENTRY_LEN == i * ENTRY_LEN + ENTRY_LEN) by (nonlinear_arith);
        let start = COUNT_LEN + i * ENTRY_LEN;
        let middle = start + G1_ENCODED_LEN;
        let end = middle + G2_ENCODED_LEN;
        let key = G1Point::from_bytes(&data[start..middle]);
        let proof = G2Point::from_bytes(&data[middle..end]);
        assert(data@.subrange(start as int, middle as int) == key_bytes(data@, i as nat));
        assert(data@.subrange(middle as int, end as int) == proof_bytes(data@, i as nat));
        match (key, proof) {
            (Some(public_key), Some(proof)) => {
                entries.push(RegistryEntry { public_key, proof });
            },
            _ => {
                return Err(Error::DeserializationError);
            },
        }
        i += 1;
    }
    proof {
        assert forall|j: nat| j < announced_count(data@) implies g1_decode(
            #[trigger] key_bytes(data@, j),
        ) is Some && g2_decode(proof_bytes(data@, j)) is Some by {
            let entry = entries@[j as int];
        }
        assert(registry_view(entries@) =~= decoded_registry(data@));
    }
    Ok(entries)
}

/// Checks every entry of the registry at its position, over the base point
/// `base` of position zero. One entry that fails fails the registry.
pub fn verify_all_over(base: &G2Point, registry: &Vec<RegistryEntry>) -> (checked: Result<
    (),
    Error,
>)
    ensures
        checked is Ok <==> all_accepted_over(base@, registry_view(registry@)),
        checked matches Err(e) ==> e == Error::PoKMismatch,
{
    let mut i: usize = 0;
    while i < registry.len()
        invariant
            i <= registry.len(),
            forall|j: int|
                0 <= j < i ==> accepts_over(
                    base@,
                    (#[trigger] registry_view(registry@)[j]).0,
                    j as nat,
                    registry_view(registry@)[j].1,
                ),
        decreases registry.len() - i,
    {
        let entry = &registry[i];
        if verify_over(base, &entry.public_key, i, &entry.proof).is_err() {
            assert(!accepts_over(
                base@,
                registry_view(registry@)[i as int].0,
                i as nat,
                registry_view(registry@)[i as int].1,
            ));
            return Err(Error::PoKMismatch);
        }
        i += 1;
    }
    Ok(())
}

/// Checks every entry of the registry at its position.
pub fn verify_all(registry: &Vec<RegistryEntry>) -> (checked: Result<(), Error>)
    ensures
        checked is Ok <==> all_accepted(registry_view(registry@)),
        checked matches Err(e) ==> e == Error::PoKMismatch,
{
    let base = pok_base_point();
    verify_all_over(&base, registry)
}

/// Appends `entry` behind the last entry of the registry, if this scheme
/// accepts its proof at that position; the registry is left as it was if not.
pub fn register(registry: &mut Vec<RegistryEntry>, entry: RegistryEntry) -> (registered: Result<
    (),
    Error,
>)
    ensures
        registered is Ok <==> pok_accepts(entry@.0, old(registry)@.len(), entry@.1),
        registered is Ok ==> final(registry)@ == old(registry)@.push(entry),
        registered is Err ==> final(registry)@ == old(registry)@,
        registered matches Err(e) ==> e == Error::PoKMismatch,
{
    match pok_verify(&entry.public_key, registry.len(), &entry.proof) {
        Ok(_) => {
            registry.push(entry);
            Ok(())
        },
        Err(e) => Err(e),
    }
}

/// The sum of the keys of the registry, and of `extra` where there is one.
pub fn aggregate_key(registry: &Vec<RegistryEntry>, extra: Option<&G1Point>) -> (aggregate:
    G1Point)
    ensures
        aggregate@ == aggregate_key_of(
            registry_view(registry@),
            match extra {
                Some(key) => Some(key@),
                None => None,
            },
        ),
{
    let ghost keys = keys_of(registry_view(registry@));
    let ghost first: nat = match extra {
        Some(key) => key@,
        None => 0,
    };
    let mut aggregate = match extra {
        Some(key) => {
            proof {
                use_type_invariant(key);
                key.lemma_well_formed();
                lemma_fadd_zero(key@);
            }
            key.clone()
        },
        None => G1Point::identity(),
    };
    proof {
        lemma_fadd_zero(0);
    }
    let mut i: usize = 0;
    while i < registry.len()
        invariant
            i <= registry.len(),
            keys == keys_of(registry_view(registry@)),
            aggregate@ == fadd(first, sum(keys.take(i as int))),
        decreases registry.len() - i,
    {
        proof {
            lemma_sum_step(keys, i as int);
            lemma_fadd_assoc_comm(first, sum(keys.take(i as int)), keys[i as int]);
        }
        aggregate = aggregate.add(&registry[i].public_key);
        i += 1;
    }
    proof {
        assert(keys.take(i as int) =~= keys);
        if extra is None {
            lemma_sum_bound(keys);
            lemma_fadd_zero(sum(keys));
        }
    }
    aggregate
}

} // verus!
