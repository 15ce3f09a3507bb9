use bls_pop::error::Error;
use bls_pop::g1::G1Point;
use bls_pop::keys::public_key;
use bls_pop::pok::{pok_prove, pok_verify};
use bls_pop::registry::{
    aggregate_key, parse_registry, register, verify_all, RegistryEntry, COUNT_LEN, ENTRY_LEN,
};
use bls_pop::scalar::Scalar;

const SECRETS: [u64; 3] = [1001, 2002, 3003];

fn honest_entry(secret: u64, position: usize) -> RegistryEntry {
    let secret = Scalar::from_u64(secret);
    RegistryEntry { public_key: public_key(&secret), proof: pok_prove(&secret, position) }
}

fn honest_registry() -> Vec<RegistryEntry> {
    SECRETS.iter().enumerate().map(|(i, s)| honest_entry(*s, i)).collect()
}

fn persist(entries: &[RegistryEntry]) -> Vec<u8> {
    let mut data = (entries.len() as u64).to_le_bytes().to_vec();
    for entry in entries {
        data.extend_from_slice(&entry.public_key.to_bytes());
        data.extend_from_slice(&entry.proof.to_bytes());
    }
    data
}

#[test]
fn the_layout_has_fixed_sizes() {
    assert_eq!(COUNT_LEN, 8);
    assert_eq!(ENTRY_LEN, 288);
    assert_eq!(persist(&honest_registry()).len(), 8 + 3 * 288);
}

#[test]
fn a_persisted_registry_is_read_back() {
    let registry = honest_registry();
    let parsed = parse_registry(&persist(&registry)).expect("the registry is well formed");
    assert_eq!(parsed.len(), 3);
    for (read, written) in parsed.iter().zip(registry.iter()) {
        assert_eq!(read.public_key.to_bytes(), written.public_key.to_bytes());
        assert_eq!(read.proof.to_bytes(), written.proof.to_bytes());
    }
}

#[test]
fn an_empty_registry_is_read() {
    assert_eq!(parse_registry(&[0u8; 8]).unwrap().len(), 0);
    assert_eq!(verify_all(&Vec::new()), Ok(()));
}

#[test]
fn bytes_behind_the_last_entry_are_not_read() {
    let mut data = persist(&honest_registry());
    data.extend_from_slice(&[0xaa; 17]);
    assert_eq!(parse_registry(&data).unwrap().len(), 3);
    assert_eq!(parse_registry(&[0, 0, 0, 0, 0, 0, 0, 0, 9]).unwrap().len(), 0);
}

#[test]
fn the_count_is_little_endian() {
    let entries: Vec<RegistryEntry> = (0..257).map(|_| honest_entry(5, 0)).collect();
    let mut data = vec![1u8, 1, 0, 0, 0, 0, 0, 0];
    for entry in &entries {
        data.extend_from_slice(&entry.public_key.to_bytes());
        data.extend_from_slice(&entry.proof.to_bytes());
    }
    assert_eq!(parse_registry(&data).unwrap().len(), 257);
    assert_eq!(data, persist(&entries));
}

#[test]
fn truncated_bytes_are_refused() {
    let data = persist(&honest_registry());
    assert_eq!(parse_registry(&[]).err(), Some(Error::DeserializationError));
    assert_eq!(parse_registry(&data[..7]).err(), Some(Error::DeserializationError));
    assert_eq!(parse_registry(&data[..8]).err(), Some(Error::DeserializationError));
    assert_eq!(parse_registry(&data[..8 + 288]).err(), Some(Error::DeserializationError));
    assert_eq!(
        parse_registry(&data[..data.len() - 1]).err(),
        Some(Error::DeserializationError)
    );
}

#[test]
fn a_count_beyond_the_bytes_is_refused() {
    let mut data = persist(&honest_registry());
    data[0] = 4;
    assert_eq!(parse_registry(&data).err(), Some(Error::DeserializationError));
    data[0] = 3;
    data[7] = 0x80;
    assert_eq!(parse_registry(&data).err(), Some(Error::DeserializationError));
    assert_eq!(parse_registry(&[0xff; 8]).err(), Some(Error::DeserializationError));
}

#[test]
fn a_smaller_count_reads_fewer_entries() {
    let mut data = persist(&honest_registry());
    data[0] = 2;
    assert_eq!(parse_registry(&data).unwrap().len(), 2);
}

#[test]
fn what_is_no_point_is_refused() {
    let data = persist(&honest_registry());
    for position in [8usize, 8 + 95, 8 + 96, 8 + 287, 8 + 288 + 50, 8 + 2 * 288 + 200] {
        let mut damaged = data.clone();
        damaged[position] ^= 0x01;
        assert_eq!(parse_registry(&damaged).err(), Some(Error::DeserializationError));
    }
}

#[test]
fn an_honest_registry_is_accepted() {
    let registry = honest_registry();
    assert_eq!(verify_all(&registry), Ok(()));
    let parsed = parse_registry(&persist(&registry)).unwrap();
    assert_eq!(verify_all(&parsed), Ok(()));
}

#[test]
fn one_bad_entry_fails_the_registry() {
    for bad in 0..3 {
        let mut registry = honest_registry();
        registry[bad] = honest_entry(SECRETS[bad], bad + 1);
        assert_eq!(verify_all(&registry), Err(Error::PoKMismatch));
    }
    let mut registry = honest_registry();
    registry.swap(0, 2);
    assert_eq!(verify_all(&registry), Err(Error::PoKMismatch));
}

#[test]
fn a_replaced_key_or_proof_fails_the_entry() {
    let honest = honest_registry();
    let other = honest_entry(4004, 1);
    let mut registry = honest_registry();
    registry[1].public_key = other.public_key.clone();
    assert_eq!(verify_all(&registry), Err(Error::PoKMismatch));
    assert_eq!(
        pok_verify(&registry[1].public_key, 1, &registry[1].proof),
        Err(Error::PoKMismatch)
    );
    let mut registry = honest_registry();
    registry[1].proof = other.proof.clone();
    assert_eq!(verify_all(&registry), Err(Error::PoKMismatch));
    registry[1].proof = honest[1].proof.clone();
    assert_eq!(verify_all(&registry), Ok(()));
}

#[test]
fn every_damaged_byte_of_an_entry_fails_the_registry() {
    let data = persist(&honest_registry());
    for offset in 0..ENTRY_LEN {
        let mut damaged = data.clone();
        damaged[COUNT_LEN + ENTRY_LEN + offset] ^= 0x01;
        let outcome = match parse_registry(&damaged) {
            Ok(registry) => verify_all(&registry),
            Err(e) => Err(e),
        };
        assert!(
            outcome == Err(Error::DeserializationError) || outcome == Err(Error::PoKMismatch),
            "offset {offset}: {outcome:?}"
        );
    }
}

#[test]
fn the_unused_flag_of_an_encoding_changes_nothing() {
    let mut data = persist(&honest_registry());
    data[COUNT_LEN + ENTRY_LEN] ^= 0x20;
    let registry = parse_registry(&data).expect("the flag is not read");
    assert_eq!(verify_all(&registry), Ok(()));
}

#[test]
fn the_aggregate_key_is_the_sum_of_the_keys() {
    let registry = honest_registry();
    let aggregate = aggregate_key(&registry, None);
    assert_eq!(aggregate.to_bytes(), public_key(&Scalar::from_u64(6006)).to_bytes());
    let extra = public_key(&Scalar::from_u64(4));
    let aggregate = aggregate_key(&registry, Some(&extra));
    assert_eq!(aggregate.to_bytes(), public_key(&Scalar::from_u64(6010)).to_bytes());
}

#[test]
fn the_aggregate_key_of_an_empty_registry() {
    assert_eq!(aggregate_key(&Vec::new(), None).to_bytes(), G1Point::identity().to_bytes());
    let extra = public_key(&Scalar::from_u64(4));
    assert_eq!(aggregate_key(&Vec::new(), Some(&extra)).to_bytes(), extra.to_bytes());
}

#[test]
fn an_honest_entry_is_registered_at_the_end() {
    let mut registry = honest_registry();
    assert_eq!(register(&mut registry, honest_entry(4004, 3)), Ok(()));
    assert_eq!(registry.len(), 4);
    assert_eq!(registry[3].public_key.to_bytes(), public_key(&Scalar::from_u64(4004)).to_bytes());
    assert_eq!(verify_all(&registry), Ok(()));
    let mut empty = Vec::new();
    assert_eq!(register(&mut empty, honest_entry(1, 0)), Ok(()));
    assert_eq!(empty.len(), 1);
}

#[test]
fn an_entry_for_another_position_is_not_registered() {
    let mut registry = honest_registry();
    let before = persist(&registry);
    assert_eq!(register(&mut registry, honest_entry(4004, 2)), Err(Error::PoKMismatch));
    assert_eq!(register(&mut registry, honest_entry(4004, 4)), Err(Error::PoKMismatch));
    assert_eq!(registry.len(), 3);
    assert_eq!(persist(&registry), before);
}

#[test]
fn entries_compare_by_key_and_proof() {
    assert_eq!(honest_entry(5, 1), honest_entry(5, 1));
    assert_ne!(honest_entry(5, 1), honest_entry(5, 2));
    assert_ne!(honest_entry(5, 1), honest_entry(6, 1));
    let registry = honest_registry();
    assert_eq!(parse_registry(&persist(&registry)).unwrap(), registry);
}
