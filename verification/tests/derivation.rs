use blake2::{Blake2s256, Digest};
use wavefunction::{
    derive_record_id, encode_record, ensure_signed, AccountId, Config, Error, Origin, Pallet,
    WaveFunction, WaveFunctions,
};

fn sample_author() -> AccountId {
    AccountId::new([0x11; 32])
}

#[test]
fn encoding_is_author_then_payload() {
    let record = WaveFunction { function: vec![1u8, 2, 3], author: sample_author() };
    let encoded = encode_record(&record);

    let mut expected = vec![0x11u8; 32];
    expected.extend_from_slice(&[1, 2, 3]);
    assert_eq!(encoded, expected);
}

#[test]
fn derived_id_is_blake2s_of_encoding() {
    let record = WaveFunction { function: vec![7u8; 5], author: sample_author() };
    let id = derive_record_id(&record);

    let mut input = vec![0x11u8; 32];
    input.extend_from_slice(&[7u8; 5]);
    let digest: [u8; 32] = Blake2s256::digest(&input).into();
    assert_eq!(id.bytes, digest);
}

#[test]
fn submitted_id_is_blake2s_of_encoding() {
    let mut pallet = Pallet::new(Config { max_bytes: 64 });
    let payload = vec![42u8; 10];
    let id = pallet
        .submit(&Origin::Signed(sample_author()), payload.clone())
        .expect("within bound");

    let mut input = vec![0x11u8; 32];
    input.extend_from_slice(&payload);
    let digest: [u8; 32] = Blake2s256::digest(&input).into();
    assert_eq!(id.bytes, digest);
}

#[test]
fn derivation_is_deterministic() {
    let record = WaveFunction { function: vec![1u8, 2, 3], author: sample_author() };
    assert_eq!(derive_record_id(&record), derive_record_id(&record));
}

#[test]
fn ensure_signed_extracts_the_signer() {
    assert_eq!(ensure_signed(&Origin::Signed(sample_author())), Ok(sample_author()));
    assert_eq!(ensure_signed(&Origin::Unsigned), Err(Error::Unauthenticated));
}

#[test]
fn store_insert_get_and_overwrite() {
    let mut store = WaveFunctions::new();
    assert_eq!(store.len(), 0);

    let first = WaveFunction { function: vec![1u8], author: sample_author() };
    let id = derive_record_id(&first);
    store.insert(id, first.clone());
    assert_eq!(store.len(), 1);
    assert_eq!(store.get(&id), Some(&first));

    let second = WaveFunction { function: vec![2u8], author: sample_author() };
    store.insert(id, second.clone());
    assert_eq!(store.len(), 1);
    assert_eq!(store.get(&id), Some(&second));

    let other = derive_record_id(&second);
    store.insert(other, second.clone());
    assert_eq!(store.len(), 2);
}
