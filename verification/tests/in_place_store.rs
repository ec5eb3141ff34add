use hash_set_map::compact::Sha1Hasher;
use hash_set_map::HashSetMapBuilder;
use std::collections::hash_map::DefaultHasher;
use std::rc::Rc;

#[test]
fn in_place_insert_returns_the_displaced_value() {
    let mut builder: HashSetMapBuilder<String, DefaultHasher> = HashSetMapBuilder::new();
    assert!(builder.has_hasher());
    assert!(builder.is_empty());
    let mut strategy = Sha1Hasher::new();
    assert_eq!(builder.insert(&mut strategy, "asd".to_string()), None);
    assert_eq!(builder.len(), 1);
    assert_eq!(builder.insert(&mut strategy, "asd".to_string()), Some(Rc::new("asd".to_string())));
    assert_eq!(builder.len(), 1);
    assert_eq!(builder.insert(&mut strategy, "dsp".to_string()), None);
    assert_eq!(builder.len(), 2);
    assert_eq!(strategy.finish(), 0xe0a42df31a8e65);
    let register = builder.build();
    assert_eq!(register.len(), 2);
    assert_eq!(register.get(&0xf10e2821bbbea5).map(|v| v.as_str()), Some("asd"));
    assert_eq!(register.get(&0xe0a42df31a8e65).map(|v| v.as_str()), Some("dsp"));
}

#[test]
fn in_place_fresh_general_purpose_strategies_agree() {
    let mut left: HashSetMapBuilder<String, DefaultHasher> = HashSetMapBuilder::new();
    let mut right: HashSetMapBuilder<String, DefaultHasher> = HashSetMapBuilder::new();
    left.insert(&mut DefaultHasher::new(), "dezren3901234".to_string());
    right.insert(&mut DefaultHasher::new(), "dezren3901234".to_string());
    let left = left.build();
    let right = right.build();
    assert_eq!(left.len(), 1);
    assert_eq!(left, right);
}

#[test]
fn in_place_constructors_and_reconfiguration() {
    let bare: HashSetMapBuilder<String, Sha1Hasher> = HashSetMapBuilder::new_with_capacity(32);
    assert!(!bare.has_hasher());
    assert!(bare.is_empty());
    assert_eq!(bare.len(), 0);
    let configured = bare.with_hasher(Rc::new(Sha1Hasher::new()));
    assert!(configured.has_hasher());
    assert!(configured.build().capacity() >= 32);

    let given: HashSetMapBuilder<String, Sha1Hasher> =
        HashSetMapBuilder::new_with_hasher(Rc::new(Sha1Hasher::new()));
    assert!(given.has_hasher());
    assert!(given.is_empty());

    let both: HashSetMapBuilder<String, Sha1Hasher> =
        HashSetMapBuilder::new_with_capacity_and_hasher(7, Rc::new(Sha1Hasher::new()));
    assert!(both.has_hasher());
    assert!(both.build().capacity() >= 7);

    let mut in_place: HashSetMapBuilder<String, Sha1Hasher> =
        HashSetMapBuilder::new_with_capacity(0);
    assert!(!in_place.has_hasher());
    assert!(in_place.hasher(Rc::new(Sha1Hasher::new())).has_hasher());
    assert!(in_place.has_hasher());
    let mut strategy = Sha1Hasher::new();
    in_place.insert(&mut strategy, "42".to_string());
    in_place.insert(&mut strategy, "123".to_string());
    assert_eq!(in_place.len(), 2);
    in_place.clear();
    assert!(in_place.is_empty());
    assert!(in_place.has_hasher());
}

#[test]
fn capacity_only_builders_have_no_strategy() {
    let in_place: HashSetMapBuilder<String, DefaultHasher> = HashSetMapBuilder::new_with_capacity(4);
    assert!(!in_place.has_hasher());
    assert_eq!(in_place.len(), 0);
    let hand_off: hash_set_map::compact::HashSetMapBuilder<String, DefaultHasher> =
        hash_set_map::compact::HashSetMapBuilder::new_with_capacity(4);
    assert!(hand_off.hasher.is_none());
    assert_eq!(hand_off.len(), 0);
    let full: hash_set_map::sha1_hash_map::HashSetMapBuilder<String, DefaultHasher> =
        hash_set_map::sha1_hash_map::HashSetMapBuilder::new_with_capacity(4);
    assert!(full.hasher.is_none());
    assert_eq!(full.len(), 0);
}

#[test]
fn default_builders_are_empty_and_configured() {
    let in_place: HashSetMapBuilder<String, DefaultHasher> = Default::default();
    assert!(in_place.has_hasher());
    assert!(in_place.is_empty());
    let hand_off: hash_set_map::compact::HashSetMapBuilder<String, DefaultHasher> =
        Default::default();
    assert!(hand_off.hasher.is_some());
    assert!(hand_off.is_empty());
    let full: hash_set_map::sha1_hash_map::HashSetMapBuilder<String, DefaultHasher> =
        Default::default();
    assert!(full.hasher.is_some());
    assert!(full.is_empty());
}
