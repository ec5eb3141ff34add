//! The hand-off form of the integer-keyed store, with values behind `Arc`,
//! and the SHA-1 strategy that reduces a digest to a 64-bit key.
//!
//! `insert` takes the builder by value and hands it back, so a chain of
//! inserts passes one builder along.

use crate::digest::{compact_key, hex_lower, hex_of, pack_be, sha1_digest, sha1_of};
use crate::keying::{canonical_bytes, derived_key, Canonical, KeyingStrategy};
use std::collections::hash_map::DefaultHasher;
use std::collections::HashMap;
use std::sync::Arc;
use vstd::prelude::*;
use vstd::utf8::encode_utf8;

verus! {

/// The keyed store: a mapping from key to shared value.
#[derive(Debug, Clone, PartialEq, Eq)]
pub struct HashSetMap<T> {
    pub register: HashMap<u64, Arc<T>>,
}

impl<T> View for HashSetMap<T> {
    type V = Map<u64, Arc<T>>;

    open spec fn view(&self) -> Map<u64, Arc<T>> {
        self.register@
    }
}

/// Accumulates a [`HashSetMap`] one value at a time.
///
/// `hasher` only records that a strategy was configured; the strategy that
/// derives a key is the one passed to `insert`.
pub struct HashSetMapBuilder<T, H> {
    pub hash_register: HashSetMap<T>,
    pub hasher: Option<Arc<H>>,
}

impl<T, H> View for HashSetMapBuilder<T, H> {
    type V = Map<u64, Arc<T>>;

    open spec fn view(&self) -> Map<u64, Arc<T>> {
        self.hash_register@
    }
}

/// The SHA-1 strategy with a compact key. `state` holds the digest of the
/// bytes written last.
pub struct Sha1Hasher {
    pub state: [u8; 20],
}

impl View for Sha1Hasher {
    type V = Seq<u8>;

    open spec fn view(&self) -> Seq<u8> {
        self.state@
    }
}

/// One builder bound to one compact-key SHA-1 strategy.
pub struct HsmWithSha1Hasher {
    pub hsm: HashSetMapBuilder<String, DefaultHasher>,
    pub hasher: Sha1Hasher,
}

impl View for HsmWithSha1Hasher {
    type V = Map<u64, Arc<String>>;

    open spec fn view(&self) -> Map<u64, Arc<String>> {
        self.hsm@
    }
}

/// The compact key of a digest: its first seven bytes as one integer, first
/// byte most significant, so the key is below 2^56.
pub open spec fn compact_key_of(digest: Seq<u8>) -> u64 {
    pack_be(digest.subrange(0, 7)) as u64
}

/// The compact key of the string `text`.
pub open spec fn sha1_compact_key(text: Seq<char>) -> u64 {
    compact_key_of(sha1_digest(encode_utf8(text)))
}

impl<T> Default for HashSetMap<T> {
    /// An empty store.
    fn default() -> (store: Self)
        ensures
            store@ == Map::<u64, Arc<T>>::empty(),
    {
        HashSetMap { register: HashMap::new() }
    }
}

impl<T: Canonical> Default for HashSetMapBuilder<T, DefaultHasher> {
    /// An empty builder configured with the general-purpose strategy in its
    /// initial state.
    fn default() -> (builder: Self)
        ensures
            builder@ == Map::<u64, Arc<T>>::empty(),
            builder.hasher matches Some(handle) && handle@ == Seq::<Seq<u8>>::empty(),
    {
        HashSetMapBuilder {
            hash_register: HashSetMap { register: HashMap::new() },
            hasher: Some(Arc::new(DefaultHasher::new())),
        }
    }
}

impl<T: Canonical> HashSetMapBuilder<T, DefaultHasher> {
    /// An empty builder configured with the general-purpose strategy in its
    /// initial state.
    pub fn new() -> (builder: Self)
        ensures
            builder@ == Map::<u64, Arc<T>>::empty(),
            builder.hasher matches Some(handle) && handle@ == Seq::<Seq<u8>>::empty(),
    {
        Default::default()
    }
}

impl<T: Canonical, H> HashSetMapBuilder<T, H> {
    /// Derives the key of `input` with `hasher` and stores `input` under it.
    /// Returns the key, the value that was stored under it before, if any,
    /// and the builder.
    ///
    /// A builder without a configured strategy must not be inserted into.
    pub fn insert<G: KeyingStrategy>(self, hasher: &mut G, input: T) -> (result: (
        u64,
        Option<Arc<T>>,
        Self,
    ))
        requires
            self.hasher is Some,
        ensures
            final(hasher)@ == G::written(old(hasher)@, canonical_bytes(&input)),
            result.0 == derived_key::<G, T>(old(hasher)@, &input),
            result.1 == self@.get(result.0),
            result.2@ == self@.insert(result.0, Arc::new(input)),
            result.2.hasher == self.hasher,
    {
        let mut builder = self;
        let text = input.canonical_string();
        hasher.write(text.as_str().as_bytes());
        let key = hasher.finish();
        let previous = builder.hash_register.register.insert(key, Arc::new(input));
        (key, previous, builder)
    }

    /// An empty builder with room reserved for `capacity` entries and no
    /// strategy configured.
    pub fn new_with_capacity(capacity: usize) -> (builder: Self)
        ensures
            builder@ == Map::<u64, Arc<T>>::empty(),
            builder.hasher is None,
    {
        HashSetMapBuilder {
            hash_register: HashSetMap { register: HashMap::with_capacity(capacity) },
            hasher: None,
        }
    }

    /// An empty builder configured with `hasher`.
    pub fn new_with_hasher(hasher: Arc<H>) -> (builder: Self)
        ensures
            builder@ == Map::<u64, Arc<T>>::empty(),
            builder.hasher == Some(hasher),
    {
        HashSetMapBuilder { hash_register: Default::default(), hasher: Some(hasher) }
    }

    /// An empty builder with room reserved for `capacity` entries, configured
    /// with `hasher`.
    pub fn new_with_capacity_and_hasher(capacity: usize, hasher: Arc<H>) -> (builder: Self)
        ensures
            builder@ == Map::<u64, Arc<T>>::empty(),
            builder.hasher == Some(hasher),
    {
        HashSetMapBuilder {
            hash_register: HashSetMap { register: HashMap::with_capacity(capacity) },
            hasher: Some(hasher),
        }
    }

    /// Consumes the builder and returns the finished mapping.
    pub fn build(self) -> (register: HashMap<u64, Arc<T>>)
        ensures
            register@ == self@,
    {
        self.hash_register.register
    }

    /// The same builder, configured with `hasher` in place of whatever was
    /// configured before.
    pub fn with_hasher(self, hasher: Arc<H>) -> (builder: Self)
        ensures
            builder@ == self@,
            builder.hasher == Some(hasher),
    {
        HashSetMapBuilder { hash_register: self.hash_register, hasher: Some(hasher) }
    }

    /// Configures `hasher` in place of whatever was configured before and
    /// hands the builder back for further calls.
    pub fn hasher(&mut self, hasher: Arc<H>) -> (builder: &mut Self)
        ensures
            builder@ == old(self)@,
            builder.hasher == Some(hasher),
            *final(self) == *final(builder),
    {
        self.hasher = Some(hasher);
        self
    }

    /// The number of entries stored.
    pub fn len(&self) -> (count: usize)
        ensures
            count == self@.len(),
    {
        self.hash_register.register.len()
    }

    /// Whether nothing is stored.
    pub fn is_empty(&self) -> (empty: bool)
        ensures
            empty == (self@.len() == 0),
            empty == (self@ == Map::<u64, Arc<T>>::empty()),
    {
        let empty = self.hash_register.register.is_empty();
        proof {
            if empty {
                assert(self@ =~= Map::<u64, Arc<T>>::empty());
            }
        }
        empty
    }

    /// Removes every entry; the configured strategy stays.
    pub fn clear(&mut self)
        ensures
            final(self)@ == Map::<u64, Arc<T>>::empty(),
            final(self).hasher == old(self).hasher,
    {
        self.hash_register.register.clear();
    }
}

impl Sha1Hasher {
    /// A strategy whose state is all zero.
    pub fn new() -> (hasher: Self)
        ensures
            hasher@ == Seq::new(20, |i: int| 0u8),
    {
        let hasher = Sha1Hasher { state: [0u8; 20] };
        assert(hasher@ =~= Seq::new(20, |i: int| 0u8));
        hasher
    }

    /// The hexadecimal text of the SHA-1 digest of `data`. The state of
    /// `self` plays no part.
    pub fn digest(&self, data: &[u8]) -> (text: String)
        ensures
            text@ == hex_lower(sha1_digest(data@)),
    {
        let mut hasher = Sha1Hasher::new();
        hasher.write(data);
        hex_of(&hasher.state)
    }

    /// Replaces the state by the SHA-1 digest of `bytes`. Earlier writes
    /// leave no trace.
    pub fn write(&mut self, bytes: &[u8])
        ensures
            final(self)@ == sha1_digest(bytes@),
    {
        self.state = sha1_of(bytes);
    }

    /// The compact key of the state.
    pub fn finish(&self) -> (key: u64)
        ensures
            key == compact_key_of(self@),
            key < 0x100_0000_0000_0000,
    {
        compact_key(&self.state)
    }
}

impl KeyingStrategy for Sha1Hasher {
    open spec fn written(state: Seq<u8>, bytes: Seq<u8>) -> Seq<u8> {
        sha1_digest(bytes)
    }

    open spec fn key(state: Seq<u8>) -> u64 {
        compact_key_of(state)
    }

    fn write(&mut self, bytes: &[u8]) {
        Sha1Hasher::write(self, bytes)
    }

    fn finish(&self) -> (key: u64) {
        Sha1Hasher::finish(self)
    }
}

impl HsmWithSha1Hasher {
    /// An empty builder bound to a fresh strategy.
    pub fn new() -> (wrapper: Self)
        ensures
            wrapper@ == Map::<u64, Arc<String>>::empty(),
            wrapper.hsm.hasher is Some,
            wrapper.hasher@ == Seq::new(20, |i: int| 0u8),
    {
        HsmWithSha1Hasher { hsm: HashSetMapBuilder::new(), hasher: Sha1Hasher::new() }
    }

    /// Stores `input` under its compact key. Returns the key, the value that
    /// was stored under it before, if any, and the wrapper.
    pub fn insert(self, input: String) -> (result: (u64, Option<Arc<String>>, Self))
        requires
            self.hsm.hasher is Some,
        ensures
            result.0 == sha1_compact_key(input@),
            result.1 == self@.get(result.0),
            result.2@ == self@.insert(result.0, Arc::new(input)),
            result.2.hasher@ == sha1_digest(encode_utf8(input@)),
            result.2.hsm.hasher == self.hsm.hasher,
    {
        let mut hasher = self.hasher;
        let (key, previous, hsm) = self.hsm.insert(&mut hasher, input);
        (key, previous, HsmWithSha1Hasher { hsm, hasher })
    }

    /// Stores `input` under its compact key and returns the wrapper alone.
    pub fn insert_blind(self, input: String) -> (wrapper: Self)
        requires
            self.hsm.hasher is Some,
        ensures
            wrapper@ == self@.insert(sha1_compact_key(input@), Arc::new(input)),
            wrapper.hasher@ == sha1_digest(encode_utf8(input@)),
            wrapper.hsm.hasher == self.hsm.hasher,
    {
        let (_key, _previous, wrapper) = self.insert(input);
        wrapper
    }

    /// Consumes the wrapper and returns the finished mapping.
    pub fn build(self) -> (register: HashMap<u64, Arc<String>>)
        ensures
            register@ == self@,
    {
        self.hsm.build()
    }
}

} // verus!
