//! The store keyed by the full SHA-1 digest, written as forty lowercase
//! hexadecimal characters, and the strategy that derives that key.
//!
//! The entries are kept in a vector in which no key occurs twice; a key is
//! found by a scan, so an insert costs time linear in the number of entries.

use crate::digest::{hex_lower, hex_of, sha1_digest, sha1_of};
use crate::keying::{canonical_bytes, Canonical};
use std::collections::hash_map::DefaultHasher;
use std::rc::Rc;
use vstd::prelude::*;
use vstd::set_lib::lemma_subset_equality;
use vstd::std_specs::cmp::{PartialEqSpec, PartialEqSpecImpl};
use vstd::utf8::encode_utf8;

verus! {

/// Calls `Rc::clone`, which hands out a second pointer to the same
/// allocation: the result points to the value that `handle` points to.
#[verifier::external_body]
fn share<A>(handle: &Rc<A>) -> (other: Rc<A>)
    ensures
        other == *handle,
{
    Rc::clone(handle)
}

/// The keyed store: a mapping from key to shared value.
#[derive(Debug)]
pub struct HashSetMap<T> {
    entries: Vec<(Rc<String>, Rc<T>)>,
}

impl<T> View for HashSetMap<T> {
    type V = Map<Seq<char>, Rc<T>>;

    closed spec fn view(&self) -> Map<Seq<char>, Rc<T>> {
        Map::new(
            |key: Seq<char>| self.keys().contains(key),
            |key: Seq<char>| self.entries[self.keys().index_of(key)].1,
        )
    }
}

impl<T> HashSetMap<T> {
    /// The keys in the order in which the entries are held.
    spec fn keys(&self) -> Seq<Seq<char>> {
        Seq::new(self.entries.len() as nat, |i: int| self.entries[i].0@)
    }

    #[verifier::type_invariant]
    spec fn distinct_keys(&self) -> bool {
        self.keys().no_duplicates()
    }

    /// An empty store.
    pub fn new() -> (store: Self)
        ensures
            store@ == Map::<Seq<char>, Rc<T>>::empty(),
    {
        let store = HashSetMap { entries: Vec::new() };
        assert(store@ =~= Map::<Seq<char>, Rc<T>>::empty());
        store
    }

    /// An empty store with room reserved for `capacity` entries.
    pub fn with_capacity(capacity: usize) -> (store: Self)
        ensures
            store@ == Map::<Seq<char>, Rc<T>>::empty(),
    {
        let store = HashSetMap { entries: Vec::with_capacity(capacity) };
        assert(store@ =~= Map::<Seq<char>, Rc<T>>::empty());
        store
    }

    /// The number of entries.
    pub fn len(&self) -> (count: usize)
        ensures
            count == self@.len(),
            self@.dom().finite(),
    {
        proof {
            use_type_invariant(self);
            assert(self.keys().to_set() =~= self@.dom());
            self.keys().unique_seq_to_set();
        }
        self.entries.len()
    }

    /// Whether the store holds nothing.
    pub fn is_empty(&self) -> (empty: bool)
        ensures
            empty == (self@.len() == 0),
            empty == (self@ == Map::<Seq<char>, Rc<T>>::empty()),
    {
        let empty = self.entries.is_empty();
        proof {
            use_type_invariant(self);
            assert(self.keys().to_set() =~= self@.dom());
            self.keys().unique_seq_to_set();
            if empty {
                assert(self@ =~= Map::<Seq<char>, Rc<T>>::empty());
            }
        }
        empty
    }

    /// The position of `key` among the entries, if it is present.
    fn position(&self, key: &String) -> (found: Option<usize>)
        ensures
            match found {
                Some(i) => i < self.entries.len() && self.keys()[i as int] == key@,
                None => !self.keys().contains(key@),
            },
    {
        let mut i: usize = 0;
        while i < self.entries.len()
            invariant
                i <= self.entries.len(),
                forall|j: int| 0 <= j < i ==> self.keys()[j] != key@,
            decreases self.entries.len() - i,
        {
            if *self.entries[i].0 == *key {
                return Some(i);
            }
            i = i + 1;
        }
        None
    }

    /// The value stored under `key`, if there is one.
    pub fn get(&self, key: &String) -> (value: Option<&Rc<T>>)
        ensures
            value == match self@.get(key@) {
                Some(stored) => Some(&stored),
                None => None,
            },
    {
        proof {
            use_type_invariant(self);
        }
        match self.position(key) {
            Some(i) => {
                assert(self.keys().contains(key@));
                assert(self.keys().index_of(key@) == i);
                Some(&self.entries[i].1)
            },
            None => None,
        }
    }

    /// Whether a value is stored under `key`.
    pub fn contains_key(&self, key: &String) -> (present: bool)
        ensures
            present == self@.contains_key(key@),
    {
        self.position(key).is_some()
    }

    /// Consumes the store and returns its entries, each key once, in no
    /// particular order.
    pub fn into_entries(self) -> (entries: Vec<(Rc<String>, Rc<T>)>)
        ensures
            entries.len() == self@.len(),
            forall|i: int, j: int|
                0 <= i < j < entries.len() ==> (#[trigger] entries[i]).0@ != (#[trigger] entries[j]).0@,
            forall|i: int|
                0 <= i < entries.len() ==> self@.contains_key((#[trigger] entries[i]).0@)
                    && self@[entries[i].0@] == entries[i].1,
    {
        proof {
            use_type_invariant(&self);
            assert(self.keys().to_set() =~= self@.dom());
            self.keys().unique_seq_to_set();
            assert forall|i: int| 0 <= i < self.entries.len() implies self@.contains_key(
                (#[trigger] self.entries[i]).0@,
            ) && self@[self.entries[i].0@] == self.entries[i].1 by {
                assert(self.keys()[i] == self.entries[i].0@);
                assert(self.keys().index_of(self.entries[i].0@) == i);
            }
            assert forall|i: int, j: int| 0 <= i < j < self.entries.len() implies (
            #[trigger] self.entries[i]).0@ != (#[trigger] self.entries[j]).0@ by {
                assert(self.keys()[i] != self.keys()[j]);
            }
        }
        self.entries
    }

    /// Stores `value` under `key`. Returns the value that was stored under that
    /// key before, if any, and the store that results.
    pub(crate) fn insert(self, key: Rc<String>, value: Rc<T>) -> (result: (Option<Rc<T>>, Self))
        ensures
            result.0 == self@.get(key@),
            result.1@ == self@.insert(key@, value),
    {
        proof {
            use_type_invariant(&self);
        }
        let found = self.position(&*key);
        let mut entries = self.entries;
        entries.push((key, value));
        match found {
            Some(i) => {
                assert(self.keys().contains(key@));
                assert(self.keys().index_of(key@) == i);
                let (_old_key, old_value) = entries.swap_remove(i);
                proof {
                    let keys = Seq::new(entries.len() as nat, |i: int| entries[i].0@);
                    assert(keys =~= self.keys());
                }
                let store = HashSetMap { entries };
                proof {
                    assert(store.keys() =~= self.keys());
                    assert forall|k: Seq<char>| store.keys().contains(k) implies #[trigger] store@[k]
                        == self@.insert(key@, value)[k] by {
                        let j = store.keys().index_of(k);
                        assert(self.keys().index_of(k) == j);
                    }
                    assert(store@ =~= self@.insert(key@, value));
                }
                (Some(old_value), store)
            },
            None => {
                proof {
                    let keys = Seq::new(entries.len() as nat, |i: int| entries[i].0@);
                    assert(keys =~= self.keys().push(key@));
                }
                let store = HashSetMap { entries };
                proof {
                    assert(store.keys() =~= self.keys().push(key@));
                    assert forall|k: Seq<char>| store.keys().contains(k) implies #[trigger] store@[k]
                        == self@.insert(key@, value)[k] by {
                        let j = store.keys().index_of(k);
                        if k != key@ {
                            assert(j < self.keys().len());
                            assert(self.keys()[j] == k);
                            assert(self.keys().index_of(k) == j);
                        }
                    }
                    assert forall|k: Seq<char>| self@.insert(key@, value).contains_key(k) implies
                        store.keys().contains(k) by {
                        if k != key@ {
                            let j = self.keys().index_of(k);
                            assert(store.keys()[j] == k);
                        } else {
                            assert(store.keys()[self.keys().len() as int] == k);
                        }
                    }
                    assert(store@ =~= self@.insert(key@, value));
                }
                (None, store)
            },
        }
    }
}

/// A copy of a store shares every key and every value with the store it was
/// made from.
impl<T> Clone for HashSetMap<T> {
    fn clone(&self) -> (copy: Self)
        ensures
            copy@ == self@,
    {
        proof {
            use_type_invariant(self);
        }
        let mut entries: Vec<(Rc<String>, Rc<T>)> = Vec::with_capacity(self.entries.len());
        let mut i: usize = 0;
        while i < self.entries.len()
            invariant
                i <= self.entries.len(),
                entries@ == self.entries@.subrange(0, i as int),
            decreases self.entries.len() - i,
        {
            entries.push((share(&self.entries[i].0), share(&self.entries[i].1)));
            assert(entries@ =~= self.entries@.subrange(0, i + 1));
            i = i + 1;
        }
        assert(entries@ =~= self.entries@);
        proof {
            let keys = Seq::new(entries.len() as nat, |i: int| entries[i].0@);
            assert(keys =~= self.keys());
        }
        let copy = HashSetMap { entries };
        assert(copy.keys() =~= self.keys());
        assert(copy@ =~= self@);
        copy
    }
}

/// Two stores are equal when they hold the same keys and, under each key,
/// values that are equal.
impl<T: PartialEq> PartialEq for HashSetMap<T> {
    fn eq(&self, other: &Self) -> (same: bool) {
        proof {
            use_type_invariant(self);
            use_type_invariant(other);
            assert(self.keys().to_set() =~= self@.dom());
            assert(other.keys().to_set() =~= other@.dom());
            self.keys().unique_seq_to_set();
            other.keys().unique_seq_to_set();
        }
        if self.entries.len() != other.entries.len() {
            return false;
        }
        let mut i: usize = 0;
        while i < self.entries.len()
            invariant
                i <= self.entries.len(),
                self.keys().no_duplicates(),
                other.keys().no_duplicates(),
                forall|j: int|
                    0 <= j < i ==> other@.contains_key(#[trigger] self.keys()[j]) && (
                    T::obeys_eq_spec() ==> (*self.entries[j].1).eq_spec(&*other@[self.keys()[j]])),
            decreases self.entries.len() - i,
        {
            let ghost key = self.keys()[i as int];
            assert(self.keys().contains(key));
            assert(self.keys().index_of(key) == i);
            match other.position(&*self.entries[i].0) {
                None => {
                    assert(self@.contains_key(key) && !other@.contains_key(key));
                    return false;
                },
                Some(j) => {
                    assert(other.keys().contains(key));
                    assert(other.keys().index_of(key) == j);
                    if !(*self.entries[i].1 == *other.entries[j].1) {
                        assert(self@.contains_key(key));
                        return false;
                    }
                },
            }
            i = i + 1;
        }
        proof {
            assert forall|key: Seq<char>| self@.dom().contains(key) implies other@.dom().contains(
                key,
            ) by {
                let j = self.keys().index_of(key);
                assert(self.keys()[j] == key);
            }
            lemma_subset_equality(self@.dom(), other@.dom());
            if T::obeys_eq_spec() {
                assert forall|key: Seq<char>| #[trigger] self@.contains_key(key) implies (
                *self@[key]).eq_spec(&*other@[key]) by {
                    let j = self.keys().index_of(key);
                    assert(self.keys()[j] == key);
                }
            }
        }
        true
    }
}

impl<T: Eq> Eq for HashSetMap<T> {

}

impl<T: PartialEq> PartialEqSpecImpl for HashSetMap<T> {
    open spec fn obeys_eq_spec() -> bool {
        T::obeys_eq_spec()
    }

    open spec fn eq_spec(&self, other: &Self) -> bool {
        &&& self@.dom() == other@.dom()
        &&& forall|key: Seq<char>| #[trigger]
            self@.contains_key(key) ==> (*self@[key]).eq_spec(&*other@[key])
    }
}

/// Accumulates a [`HashSetMap`] one value at a time.
///
/// `hasher` only records that a strategy was configured; the strategy that
/// derives a key is the one passed to `insert`.
pub struct HashSetMapBuilder<T, H> {
    pub hash_register: HashSetMap<T>,
    pub hasher: Option<Rc<H>>,
}

impl<T, H> View for HashSetMapBuilder<T, H> {
    type V = Map<Seq<char>, Rc<T>>;

    open spec fn view(&self) -> Map<Seq<char>, Rc<T>> {
        self.hash_register@
    }
}

/// The SHA-1 strategy with the full key. `state` holds the digest of the
/// bytes written last.
pub struct Sha1Hasher {
    pub state: [u8; 20],
}

impl View for Sha1Hasher {
    type V = Seq<u8>;

    open spec fn view(&self) -> Seq<u8> {
        self.state@
    }
}

/// One builder bound to one full-key SHA-1 strategy.
pub struct HsmWithSha1Hasher {
    pub hsm: HashSetMapBuilder<String, DefaultHasher>,
    pub hasher: Sha1Hasher,
}

impl View for HsmWithSha1Hasher {
    type V = Map<Seq<char>, Rc<String>>;

    open spec fn view(&self) -> Map<Seq<char>, Rc<String>> {
        self.hsm@
    }
}

/// The full key of the string `text`: the hexadecimal text of the SHA-1
/// digest of its UTF-8 bytes.
pub open spec fn sha1_hex_key(text: Seq<char>) -> Seq<char> {
    hex_lower(sha1_digest(encode_utf8(text)))
}

impl<T> Default for HashSetMap<T> {
    /// An empty store.
    fn default() -> (store: Self)
        ensures
            store@ == Map::<Seq<char>, Rc<T>>::empty(),
    {
        HashSetMap::new()
    }
}

impl<T: Canonical> Default for HashSetMapBuilder<T, DefaultHasher> {
    /// An empty builder configured with the general-purpose strategy in its
    /// initial state.
    fn default() -> (builder: Self)
        ensures
            builder@ == Map::<Seq<char>, Rc<T>>::empty(),
            builder.hasher matches Some(handle) && handle@ == Seq::<Seq<u8>>::empty(),
    {
        HashSetMapBuilder { hash_register: HashSetMap::new(), hasher: Some(Rc::new(DefaultHasher::new())) }
    }
}

impl<T: Canonical> HashSetMapBuilder<T, DefaultHasher> {
    /// An empty builder configured with the general-purpose strategy in its
    /// initial state.
    pub fn new() -> (builder: Self)
        ensures
            builder@ == Map::<Seq<char>, Rc<T>>::empty(),
            builder.hasher matches Some(handle) && handle@ == Seq::<Seq<u8>>::empty(),
    {
        Default::default()
    }
}

impl<T: Canonical, H> HashSetMapBuilder<T, H> {
    /// Derives the key of `input` with `hasher` and stores `input` under it.
    /// Returns the key, the value that was stored under it before, if any,
    /// and the builder.
    ///
    /// A builder without a configured strategy must not be inserted into.
    pub fn insert(self, hasher: &mut Sha1Hasher, input: T) -> (result: (
        Rc<String>,
        Option<Rc<T>>,
        Self,
    ))
        requires
            self.hasher is Some,
        ensures
            final(hasher)@ == sha1_digest(canonical_bytes(&input)),
            result.0@ == sha1_hex_key(input.canonical()),
            result.1 == self@.get(result.0@),
            result.2@ == self@.insert(result.0@, Rc::new(input)),
            result.2.hasher == self.hasher,
    {
        let text = input.canonical_string();
        hasher.write(text.as_str().as_bytes());
        let key = Rc::new(hasher.finish());
        let (previous, hash_register) = self.hash_register.insert(share(&key), Rc::new(input));
        (key, previous, HashSetMapBuilder { hash_register, hasher: self.hasher })
    }

    /// An empty builder with room reserved for `capacity` entries and no
    /// strategy configured.
    pub fn new_with_capacity(capacity: usize) -> (builder: Self)
        ensures
            builder@ == Map::<Seq<char>, Rc<T>>::empty(),
            builder.hasher is None,
    {
        HashSetMapBuilder { hash_register: HashSetMap::with_capacity(capacity), hasher: None }
    }

    /// An empty builder configured with `hasher`.
    pub fn new_with_hasher(hasher: Rc<H>) -> (builder: Self)
        ensures
            builder@ == Map::<Seq<char>, Rc<T>>::empty(),
            builder.hasher == Some(hasher),
    {
        HashSetMapBuilder { hash_register: Default::default(), hasher: Some(hasher) }
    }

    /// An empty builder with room reserved for `capacity` entries, configured
    /// with `hasher`.
    pub fn new_with_capacity_and_hasher(capacity: usize, hasher: Rc<H>) -> (builder: Self)
        ensures
            builder@ == Map::<Seq<char>, Rc<T>>::empty(),
            builder.hasher == Some(hasher),
    {
        HashSetMapBuilder { hash_register: HashSetMap::with_capacity(capacity), hasher: Some(hasher) }
    }

    /// Consumes the builder and returns the finished mapping.
    pub fn build(self) -> (register: HashSetMap<T>)
        ensures
            register@ == self@,
    {
        self.hash_register
    }

    /// The same builder, configured with `hasher` in place of whatever was
    /// configured before.
    pub fn with_hasher(self, hasher: Rc<H>) -> (builder: Self)
        ensures
            builder@ == self@,
            builder.hasher == Some(hasher),
    {
        HashSetMapBuilder { hash_register: self.hash_register, hasher: Some(hasher) }
    }

    /// Configures `hasher` in place of whatever was configured before and
    /// hands the builder back for further calls.
    pub fn hasher(&mut self, hasher: Rc<H>) -> (builder: &mut Self)
        ensures
            builder@ == old(self)@,
            builder.hasher == Some(hasher),
            *final(self) == *final(builder),
    {
        self.hasher = Some(hasher);
        self
    }

    /// The number of entries stored.
    pub fn len(&self) -> (count: usize)
        ensures
            count == self@.len(),
            self@.dom().finite(),
    {
        self.hash_register.len()
    }

    /// Whether nothing is stored.
    pub fn is_empty(&self) -> (empty: bool)
        ensures
            empty == (self@.len() == 0),
            empty == (self@ == Map::<Seq<char>, Rc<T>>::empty()),
    {
        self.hash_register.is_empty()
    }

    /// Removes every entry; the configured strategy stays.
    pub fn clear(&mut self)
        ensures
            final(self)@ == Map::<Seq<char>, Rc<T>>::empty(),
            final(self).hasher == old(self).hasher,
    {
        self.hash_register = Default::default();
    }
}

impl Sha1Hasher {
    /// A strategy whose state is all zero.
    pub fn new() -> (hasher: Self)
        ensures
            hasher@ == Seq::new(20, |i: int| 0u8),
    {
        let hasher = Sha1Hasher { state: [0u8; 20] };
        assert(hasher@ =~= Seq::new(20, |i: int| 0u8));
        hasher
    }

    /// The hexadecimal text of the SHA-1 digest of `data`. The state of
    /// `self` plays no part.
    pub fn digest(&self, data: &[u8]) -> (text: String)
        ensures
            text@ == hex_lower(sha1_digest(data@)),
    {
        let mut hasher = Sha1Hasher::new();
        hasher.write(data);
        hex_of(&hasher.state)
    }

    /// Replaces the state by the SHA-1 digest of `bytes`. Earlier writes
    /// leave no trace.
    pub fn write(&mut self, bytes: &[u8])
        ensures
            final(self)@ == sha1_digest(bytes@),
    {
        self.state = sha1_of(bytes);
    }

    /// The full key of the state: its forty lowercase hexadecimal digits.
    pub fn finish(&self) -> (key: String)
        ensures
            key@ == hex_lower(self@),
            key@.len() == 40,
    {
        hex_of(&self.state)
    }
}

impl HsmWithSha1Hasher {
    /// An empty builder bound to a fresh strategy.
    pub fn new() -> (wrapper: Self)
        ensures
            wrapper@ == Map::<Seq<char>, Rc<String>>::empty(),
            wrapper.hsm.hasher is Some,
            wrapper.hasher@ == Seq::new(20, |i: int| 0u8),
    {
        HsmWithSha1Hasher { hsm: HashSetMapBuilder::new(), hasher: Sha1Hasher::new() }
    }

    /// Stores `input` under its full key. Returns the key, the value that was
    /// stored under it before, if any, and the wrapper.
    pub fn insert(self, input: String) -> (result: (Rc<String>, Option<Rc<String>>, Self))
        requires
            self.hsm.hasher is Some,
        ensures
            result.0@ == sha1_hex_key(input@),
            result.1 == self@.get(result.0@),
            result.2@ == self@.insert(result.0@, Rc::new(input)),
            result.2.hasher@ == sha1_digest(encode_utf8(input@)),
            result.2.hsm.hasher == self.hsm.hasher,
    {
        let mut hasher = self.hasher;
        let (key, previous, hsm) = self.hsm.insert(&mut hasher, input);
        (key, previous, HsmWithSha1Hasher { hsm, hasher })
    }

    /// Stores `input` under its full key and returns the wrapper alone.
    pub fn insert_blind(self, input: String) -> (wrapper: Self)
        requires
            self.hsm.hasher is Some,
        ensures
            wrapper@ == self@.insert(sha1_hex_key(input@), Rc::new(input)),
            wrapper.hasher@ == sha1_digest(encode_utf8(input@)),
            wrapper.hsm.hasher == self.hsm.hasher,
    {
        let (_key, _previous, wrapper) = self.insert(input);
        wrapper
    }

    /// Consumes the wrapper and returns the finished mapping.
    pub fn build(self) -> (register: HashSetMap<String>)
        ensures
            register@ == self@,
    {
        self.hsm.build()
    }
}

} // verus!
