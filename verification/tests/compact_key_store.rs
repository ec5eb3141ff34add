use hash_set_map::compact::{HashSetMapBuilder, HsmWithSha1Hasher, Sha1Hasher};
use hash_set_map::digest::compact_key;
use hash_set_map::keying::KeyingStrategy;
use std::collections::hash_map::DefaultHasher;
use std::sync::Arc;

const ASD: u64 = 0xf10e2821bbbea5;
const DSP: u64 = 0xe0a42df31a8e65;
const FORTY_TWO: u64 = 0x92cfceb39d57d9;
const ONE_TWO_THREE: u64 = 0x40bd001563085f;
const DEZREN: u64 = 0x2b32d67ff2bb66;

#[test]
fn compact_key_packs_seven_leading_bytes() {
    let mut state = [0xffu8; 20];
    state[..7].copy_from_slice(&[0x01, 0x02, 0x03, 0x04, 0x05, 0x06, 0x07]);
    assert_eq!(Sha1Hasher { state }.finish(), 0x01020304050607);
    assert_eq!(compact_key(&state), 0x01020304050607);
}

#[test]
fn compact_key_edges() {
    assert_eq!(compact_key(&[0u8; 20]), 0);
    assert_eq!(compact_key(&[0xffu8; 20]), 0x00ff_ffff_ffff_ffff);
    let mut state = [0u8; 20];
    state[6] = 1;
    assert_eq!(compact_key(&state), 1);
    state[6] = 0;
    state[7] = 0xff;
    assert_eq!(compact_key(&state), 0);
    state[0] = 0x80;
    assert_eq!(compact_key(&state), 0x0080_0000_0000_0000);
    assert_eq!(Sha1Hasher::new().finish(), 0);
}

#[test]
fn compact_write_keeps_only_the_last_bytes() {
    let mut hasher = Sha1Hasher::new();
    hasher.write(b"asd");
    assert_eq!(hasher.finish(), ASD);
    assert_eq!(
        hasher.state,
        [
            0xf1, 0x0e, 0x28, 0x21, 0xbb, 0xbe, 0xa5, 0x27, 0xea, 0x02, 0x20, 0x03, 0x52, 0x31,
            0x3b, 0xc0, 0x59, 0x44, 0x51, 0x90
        ]
    );
    hasher.write(b"dsp");
    assert_eq!(hasher.finish(), DSP);
    assert_eq!(hasher.finish(), DSP);
    assert_eq!(hasher.digest(b"asd"), "f10e2821bbbea527ea02200352313bc059445190");
    assert_eq!(hasher.finish(), DSP);
}

#[test]
fn compact_strategy_through_the_trait() {
    fn key_of<G: KeyingStrategy>(strategy: &mut G, bytes: &[u8]) -> u64 {
        strategy.write(bytes);
        strategy.finish()
    }
    assert_eq!(key_of(&mut Sha1Hasher::new(), b"42"), FORTY_TWO);
    let mut twice = Sha1Hasher::new();
    key_of(&mut twice, b"123");
    assert_eq!(key_of(&mut twice, b"42"), FORTY_TWO);
}

#[test]
fn compact_ten_inserts_leave_five_entries() {
    let register = HsmWithSha1Hasher::new()
        .insert_blind("asd".to_string())
        .insert_blind("asd".to_string())
        .insert_blind("dsp".to_string())
        .insert_blind("42".to_string())
        .insert_blind("asd".to_string())
        .insert_blind("asd".to_string())
        .insert_blind("123".to_string())
        .insert_blind("123".to_string())
        .insert_blind("dsp".to_string())
        .insert_blind("dezren3901234".to_string())
        .build();
    assert_eq!(register.len(), 5);
    assert_eq!(register.get(&ASD).map(|v| v.as_str()), Some("asd"));
    assert_eq!(register.get(&DSP).map(|v| v.as_str()), Some("dsp"));
    assert_eq!(register.get(&FORTY_TWO).map(|v| v.as_str()), Some("42"));
    assert_eq!(register.get(&ONE_TWO_THREE).map(|v| v.as_str()), Some("123"));
    assert_eq!(register.get(&DEZREN).map(|v| v.as_str()), Some("dezren3901234"));
}

#[test]
fn compact_same_value_twice_is_stored_once() {
    let (first_key, previous, wrapper) = HsmWithSha1Hasher::new().insert("asd".to_string());
    assert_eq!(first_key, ASD);
    assert!(previous.is_none());
    let before = wrapper.hsm.len();
    let (second_key, previous, wrapper) = wrapper.insert("asd".to_string());
    assert_eq!(second_key, first_key);
    assert_eq!(previous, Some(Arc::new("asd".to_string())));
    assert_eq!(wrapper.hsm.len(), before);
    assert_eq!(before, 1);
}

#[test]
fn compact_key_is_the_same_on_every_run() {
    let (first, _, _) = HsmWithSha1Hasher::new().insert("dezren3901234".to_string());
    let (second, _, _) = HsmWithSha1Hasher::new().insert("dezren3901234".to_string());
    assert_eq!(first, DEZREN);
    assert_eq!(second, DEZREN);
}

#[test]
fn compact_builder_constructors() {
    let plain: HashSetMapBuilder<String, DefaultHasher> = HashSetMapBuilder::new();
    assert!(plain.hasher.is_some());
    assert!(plain.is_empty());

    let bare: HashSetMapBuilder<String, Sha1Hasher> = HashSetMapBuilder::new_with_capacity(16);
    assert!(bare.hasher.is_none());
    assert_eq!(bare.len(), 0);
    assert!(bare.hash_register.register.capacity() >= 16);

    let handle = Arc::new(Sha1Hasher::new());
    let given: HashSetMapBuilder<String, Sha1Hasher> =
        HashSetMapBuilder::new_with_hasher(handle.clone());
    assert!(given.hasher.is_some());
    let both: HashSetMapBuilder<String, Sha1Hasher> =
        HashSetMapBuilder::new_with_capacity_and_hasher(4, handle.clone());
    assert!(both.hasher.is_some());
    assert!(both.is_empty());
    assert!(both.hash_register.register.capacity() >= 4);

    let later = bare.with_hasher(handle.clone());
    assert!(Arc::ptr_eq(later.hasher.as_ref().unwrap(), &handle));
    let mut in_place: HashSetMapBuilder<String, Sha1Hasher> =
        HashSetMapBuilder::new_with_capacity(0);
    in_place.hasher(handle.clone());
    assert!(Arc::ptr_eq(in_place.hasher.as_ref().unwrap(), &handle));
}

#[test]
fn compact_builder_with_the_general_purpose_strategy() {
    let builder: HashSetMapBuilder<String, DefaultHasher> = HashSetMapBuilder::new();
    let mut fresh = DefaultHasher::new();
    let (key, previous, builder) = builder.insert(&mut fresh, "asd".to_string());
    assert!(previous.is_none());
    let mut other = DefaultHasher::new();
    let (same, previous, builder) = builder.insert(&mut other, "asd".to_string());
    assert_eq!(same, key);
    assert_eq!(previous, Some(Arc::new("asd".to_string())));
    assert_eq!(builder.len(), 1);
    // One strategy fed twice has seen both writes by the second insert.
    let (third, previous, mut builder) = builder.insert(&mut other, "asd".to_string());
    assert_ne!(third, key);
    assert!(previous.is_none());
    assert_eq!(builder.len(), 2);
    builder.clear();
    assert!(builder.is_empty());
    assert!(builder.hasher.is_some());
    assert!(builder.build().is_empty());
}

#[test]
fn compact_stores_compare_by_mapping() {
    let forward = HsmWithSha1Hasher::new()
        .insert_blind("asd".to_string())
        .insert_blind("dsp".to_string());
    let backward = HsmWithSha1Hasher::new()
        .insert_blind("dsp".to_string())
        .insert_blind("asd".to_string());
    let other = HsmWithSha1Hasher::new().insert_blind("asd".to_string());
    assert!(forward.hsm.hash_register == backward.hsm.hash_register);
    assert!(forward.hsm.hash_register != other.hsm.hash_register);
    assert!(forward.hsm.hash_register.clone() == forward.hsm.hash_register);
    assert!(HsmWithSha1Hasher::new().hsm.hash_register == Default::default());
}
