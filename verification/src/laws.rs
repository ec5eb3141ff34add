//! Laws that relate the operations of the stores: which key an insert
//! derives, what a second insert under the same key does, and what a whole
//! run of inserts leaves in the register.
//!
//! They are stated over the mappings and key functions that the contracts of
//! the builders use, for any key type and any kind of shared value.

use crate::compact;
use crate::keying::{canonical_bytes, derived_key, Canonical, KeyingStrategy};
use crate::sha1_hash_map;
use vstd::prelude::*;

verus! {

/// A strategy is stateless when the key it derives for given bytes does not
/// depend on what was written before.
pub open spec fn stateless<G: KeyingStrategy>() -> bool {
    forall|a: G::V, b: G::V, bytes: Seq<u8>|
        #![trigger G::written(a, bytes), G::written(b, bytes)]
        G::key(G::written(a, bytes)) == G::key(G::written(b, bytes))
}

/// The register that a run of inserts leaves, starting from an empty one:
/// each pair is stored under its key in turn.
pub open spec fn register_of<K, V>(inserts: Seq<(K, V)>) -> Map<K, V>
    decreases inserts.len(),
{
    if inserts.len() == 0 {
        Map::empty()
    } else {
        register_of(inserts.drop_last()).insert(inserts.last().0, inserts.last().1)
    }
}

/// Determinism: from equal strategy states, two values with the same
/// canonical string are given the same key.
pub proof fn lemma_key_is_determined<G: KeyingStrategy, T: Canonical>(
    state_a: G::V,
    state_b: G::V,
    a: &T,
    b: &T,
)
    requires
        state_a == state_b,
        a.canonical() == b.canonical(),
    ensures
        derived_key::<G, T>(state_a, a) == derived_key::<G, T>(state_b, b),
{
}

/// With a stateless strategy the key of a value depends on its canonical
/// string alone, whatever was written before.
pub proof fn lemma_stateless_key<G: KeyingStrategy, T: Canonical>(
    state_a: G::V,
    state_b: G::V,
    a: &T,
    b: &T,
)
    requires
        stateless::<G>(),
        a.canonical() == b.canonical(),
    ensures
        derived_key::<G, T>(state_a, a) == derived_key::<G, T>(state_b, b),
{
    let bytes = canonical_bytes(a);
    assert(G::key(G::written(state_a, bytes)) == G::key(G::written(state_b, bytes)));
}

/// The compact-key SHA-1 strategy is stateless, and the key it derives for a
/// string is the compact key of that string.
pub proof fn lemma_sha1_compact_stateless(state: Seq<u8>, value: &String)
    ensures
        stateless::<compact::Sha1Hasher>(),
        derived_key::<compact::Sha1Hasher, String>(state, value) == compact::sha1_compact_key(
            value@,
        ),
{
}

/// Equal strings have equal full keys.
pub proof fn lemma_sha1_hex_key_is_determined(a: Seq<char>, b: Seq<char>)
    requires
        a == b,
    ensures
        sha1_hash_map::sha1_hex_key(a) == sha1_hash_map::sha1_hex_key(b),
{
}

/// Dedup and overwrite: a second insert under a key that is already present
/// leaves the number of entries unchanged, reports the value stored first as
/// the previous one, and leaves the second value in its place.
pub proof fn lemma_second_insert<K, V>(register: Map<K, V>, key: K, first: V, second: V)
    requires
        register.dom().finite(),
    ensures
        ({
            let once = register.insert(key, first);
            let twice = once.insert(key, second);
            &&& once.get(key) == Some(first)
            &&& twice.len() == once.len()
            &&& twice.dom() == once.dom()
            &&& twice[key] == second
            &&& forall|other: K| other != key ==> twice.get(other) == register.get(other)
        }),
{
    let once = register.insert(key, first);
    let twice = once.insert(key, second);
    assert(twice.dom() =~= once.dom());
}

/// Dedup with a stateless strategy: inserting twice a value with the same
/// canonical string derives the same key both times, so the second insert
/// adds no entry and reports the first value.
pub proof fn lemma_dedup<G: KeyingStrategy, T: Canonical, V>(
    register: Map<u64, V>,
    state: G::V,
    first: &T,
    second: &T,
    stored_first: V,
    stored_second: V,
)
    requires
        register.dom().finite(),
        stateless::<G>(),
        first.canonical() == second.canonical(),
    ensures
        ({
            let key = derived_key::<G, T>(state, first);
            let next_state = G::written(state, canonical_bytes(first));
            let next_key = derived_key::<G, T>(next_state, second);
            let once = register.insert(key, stored_first);
            let twice = once.insert(next_key, stored_second);
            &&& next_key == key
            &&& once.get(next_key) == Some(stored_first)
            &&& twice.len() == once.len()
        }),
{
    let next_state = G::written(state, canonical_bytes(first));
    lemma_stateless_key::<G, T>(state, next_state, first, second);
    lemma_second_insert(register, derived_key::<G, T>(state, first), stored_first, stored_second);
}

/// Dedup with the full key: two values with the same canonical string have
/// the same full key, so the second insert adds no entry and reports the
/// first value.
pub proof fn lemma_dedup_full_key<V>(
    register: Map<Seq<char>, V>,
    first: Seq<char>,
    second: Seq<char>,
    stored_first: V,
    stored_second: V,
)
    requires
        register.dom().finite(),
        first == second,
    ensures
        ({
            let key = sha1_hash_map::sha1_hex_key(first);
            let next_key = sha1_hash_map::sha1_hex_key(second);
            let once = register.insert(key, stored_first);
            let twice = once.insert(next_key, stored_second);
            &&& next_key == key
            &&& once.get(next_key) == Some(stored_first)
            &&& twice.len() == once.len()
        }),
{
    lemma_second_insert(register, sha1_hash_map::sha1_hex_key(first), stored_first, stored_second);
}

/// One more insert extends the register of a run by one `insert` of the
/// mapping, which is what each builder's `insert` does to its register.
pub proof fn lemma_register_of_push<K, V>(inserts: Seq<(K, V)>, key: K, value: V)
    ensures
        register_of(inserts.push((key, value))) == register_of(inserts).insert(key, value),
{
    assert(inserts.push((key, value)).drop_last() =~= inserts);
}

/// The register left by a run of inserts is finite and holds no more entries
/// than there were inserts.
pub proof fn lemma_register_of_len<K, V>(inserts: Seq<(K, V)>)
    ensures
        register_of(inserts).dom().finite(),
        register_of(inserts).len() <= inserts.len(),
    decreases inserts.len(),
{
    if inserts.len() > 0 {
        lemma_register_of_len(inserts.drop_last());
        let rest = register_of(inserts.drop_last());
        if rest.contains_key(inserts.last().0) {
            assert(rest.insert(inserts.last().0, inserts.last().1).dom() =~= rest.dom());
        }
    }
}

/// The register left by a run of inserts holds exactly the keys that were
/// inserted.
pub proof fn lemma_register_of_keys<K, V>(inserts: Seq<(K, V)>, key: K)
    ensures
        register_of(inserts).contains_key(key) <==> exists|i: int|
            0 <= i < inserts.len() && (#[trigger] inserts[i]).0 == key,
    decreases inserts.len(),
{
    if inserts.len() > 0 {
        let rest = inserts.drop_last();
        lemma_register_of_keys(rest, key);
        if register_of(inserts).contains_key(key) {
            if inserts.last().0 == key {
                assert(inserts[inserts.len() - 1].0 == key);
            } else {
                let i = choose|i: int| 0 <= i < rest.len() && (#[trigger] rest[i]).0 == key;
                assert(inserts[i].0 == key);
            }
        }
        if exists|i: int| 0 <= i < inserts.len() && (#[trigger] inserts[i]).0 == key {
            let i = choose|i: int| 0 <= i < inserts.len() && (#[trigger] inserts[i]).0 == key;
            if i < rest.len() {
                assert(rest[i].0 == key);
            }
        }
    }
}

/// Under each key the register holds the value of the last insert made
/// under that key: later inserts overwrite earlier ones.
pub proof fn lemma_register_of_last_wins<K, V>(inserts: Seq<(K, V)>, i: int)
    requires
        0 <= i < inserts.len(),
        forall|j: int| i < j < inserts.len() ==> (#[trigger] inserts[j]).0 != inserts[i].0,
    ensures
        register_of(inserts).contains_key(inserts[i].0),
        register_of(inserts)[inserts[i].0] == inserts[i].1,
    decreases inserts.len(),
{
    if i < inserts.len() - 1 {
        let rest = inserts.drop_last();
        assert(inserts[inserts.len() - 1].0 != inserts[i].0);
        assert forall|j: int| i < j < rest.len() implies (#[trigger] rest[j]).0 != rest[i].0 by {
            assert(inserts[j].0 != inserts[i].0);
        }
        lemma_register_of_last_wins(rest, i);
    }
}

} // verus!
