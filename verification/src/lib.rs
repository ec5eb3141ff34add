//! A content-addressed deduplicating map.
//!
//! Each value is stored once, under a key derived from the bytes of its
//! canonical string form. Inserting a value whose key is already present
//! replaces the stored value and hands the displaced one back.
//!
//! This module holds the single-owner store, keyed by a 64-bit integer and
//! filled in place. [`compact`] holds its hand-off form together with the
//! SHA-1 strategy that packs a digest into 64 bits, and [`sha1_hash_map`]
//! the store keyed by the full hexadecimal digest.

pub mod compact;
pub mod digest;
pub mod keying;
pub mod laws;
pub mod sha1_hash_map;

use crate::keying::{canonical_bytes, derived_key, Canonical, KeyingStrategy};
use std::collections::hash_map::DefaultHasher;
use std::collections::HashMap;
use std::rc::Rc;
use vstd::prelude::*;

verus! {

/// The keyed store: a mapping from key to shared value.
#[derive(Debug, Clone, PartialEq, Eq)]
pub struct HashSetMap<T> {
    register: HashMap<u64, Rc<T>>,
}

impl<T> View for HashSetMap<T> {
    type V = Map<u64, Rc<T>>;

    closed spec fn view(&self) -> Map<u64, Rc<T>> {
        self.register@
    }
}

/// Accumulates a [`HashSetMap`] one value at a time.
///
/// The builder holds the store and, optionally, a handle to a keying
/// strategy. The handle only records that a strategy was configured; the
/// strategy that derives a key is the one passed to `insert`.
pub struct HashSetMapBuilder<T, H> {
    hash_register: HashSetMap<T>,
    hasher: Option<Rc<H>>,
}

impl<T, H> View for HashSetMapBuilder<T, H> {
    type V = Map<u64, Rc<T>>;

    closed spec fn view(&self) -> Map<u64, Rc<T>> {
        self.hash_register@
    }
}

impl<T> Default for HashSetMap<T> {
    /// An empty store.
    fn default() -> (store: Self)
        ensures
            store@ == Map::<u64, Rc<T>>::empty(),
    {
        HashSetMap { register: HashMap::new() }
    }
}

impl<T: Canonical> Default for HashSetMapBuilder<T, DefaultHasher> {
    /// An empty builder configured with the general-purpose strategy in its
    /// initial state.
    fn default() -> (builder: Self)
        ensures
            builder@ == Map::<u64, Rc<T>>::empty(),
            builder.configured() matches Some(handle) && handle@ == Seq::<Seq<u8>>::empty(),
    {
        HashSetMapBuilder {
            hash_register: HashSetMap { register: HashMap::new() },
            hasher: Some(Rc::new(DefaultHasher::new())),
        }
    }
}

impl<T: Canonical> HashSetMapBuilder<T, DefaultHasher> {
    /// An empty builder configured with the general-purpose strategy in its
    /// initial state.
    pub fn new() -> (builder: Self)
        ensures
            builder@ == Map::<u64, Rc<T>>::empty(),
            builder.configured() matches Some(handle) && handle@ == Seq::<Seq<u8>>::empty(),
    {
        Default::default()
    }
}

impl<T: Canonical, H> HashSetMapBuilder<T, H> {
    /// The strategy handle the builder was configured with, if any.
    pub closed spec fn configured(&self) -> Option<Rc<H>> {
        self.hasher
    }

    /// Whether a strategy is configured, that is, whether `insert` may be
    /// called.
    pub fn has_hasher(&self) -> (present: bool)
        ensures
            present == (self.configured() is Some),
    {
        self.hasher.is_some()
    }

    /// Derives the key of `input` with `hasher`, stores `input` under it and
    /// returns the value that was stored under that key before, if any.
    ///
    /// A builder without a configured strategy must not be inserted into.
    pub fn insert<G: KeyingStrategy>(&mut self, hasher: &mut G, input: T) -> (previous: Option<
        Rc<T>,
    >)
        requires
            old(self).configured() is Some,
        ensures
            final(hasher)@ == G::written(old(hasher)@, canonical_bytes(&input)),
            final(self)@ == old(self)@.insert(derived_key::<G, T>(old(hasher)@, &input), Rc::new(input)),
            previous == old(self)@.get(derived_key::<G, T>(old(hasher)@, &input)),
            final(self).configured() == old(self).configured(),
    {
        let text = input.canonical_string();
        hasher.write(text.as_str().as_bytes());
        let key = hasher.finish();
        self.hash_register.register.insert(key, Rc::new(input))
    }

    /// An empty builder with room reserved for `capacity` entries and no
    /// strategy configured.
    pub fn new_with_capacity(capacity: usize) -> (builder: Self)
        ensures
            builder@ == Map::<u64, Rc<T>>::empty(),
            builder.configured() is None,
    {
        HashSetMapBuilder {
            hash_register: HashSetMap { register: HashMap::with_capacity(capacity) },
            hasher: None,
        }
    }

    /// An empty builder configured with `hasher`.
    pub fn new_with_hasher(hasher: Rc<H>) -> (builder: Self)
        ensures
            builder@ == Map::<u64, Rc<T>>::empty(),
            builder.configured() == Some(hasher),
    {
        HashSetMapBuilder { hash_register: Default::default(), hasher: Some(hasher) }
    }

    /// An empty builder with room reserved for `capacity` entries, configured
    /// with `hasher`.
    pub fn new_with_capacity_and_hasher(capacity: usize, hasher: Rc<H>) -> (builder: Self)
        ensures
            builder@ == Map::<u64, Rc<T>>::empty(),
            builder.configured() == Some(hasher),
    {
        HashSetMapBuilder {
            hash_register: HashSetMap { register: HashMap::with_capacity(capacity) },
            hasher: Some(hasher),
        }
    }

    /// Consumes the builder and returns the finished mapping.
    pub fn build(self) -> (register: HashMap<u64, Rc<T>>)
        ensures
            register@ == self@,
    {
        self.hash_register.register
    }

    /// The same builder, configured with `hasher` in place of whatever was
    /// configured before.
    pub fn with_hasher(self, hasher: Rc<H>) -> (builder: Self)
        ensures
            builder@ == self@,
            builder.configured() == Some(hasher),
    {
        HashSetMapBuilder { hash_register: self.hash_register, hasher: Some(hasher) }
    }

    /// Configures `hasher` in place of whatever was configured before and
    /// hands the builder back for further calls.
    pub fn hasher(&mut self, hasher: Rc<H>) -> (builder: &mut Self)
        ensures
            builder@ == old(self)@,
            builder.configured() == Some(hasher),
            *final(self) == *final(builder),
    {
        self.hasher = Some(hasher);
        self
    }

    /// The number of entries stored.
    pub fn len(&self) -> (count: usize)
        ensures
            count == self@.len(),
    {
        self.hash_register.register.len()
    }

    /// Whether nothing is stored.
    pub fn is_empty(&self) -> (empty: bool)
        ensures
            empty == (self@.len() == 0),
            empty == (self@ == Map::<u64, Rc<T>>::empty()),
    {
        let empty = self.hash_register.register.is_empty();
        proof {
            if empty {
                assert(self@ =~= Map::<u64, Rc<T>>::empty());
            }
        }
        empty
    }

    /// Removes every entry; the configured strategy stays.
    pub fn clear(&mut self)
        ensures
            final(self)@ == Map::<u64, Rc<T>>::empty(),
            final(self).configured() == old(self).configured(),
    {
        self.hash_register.register.clear();
    }
}

} // verus!

