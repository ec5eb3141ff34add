//! The two capabilities the store is built on: a keying strategy, which
//! consumes bytes and reports a 64-bit key, and a canonical string form for
//! the values that are stored.

use std::collections::hash_map::DefaultHasher;
use std::hash::Hasher;
use vstd::prelude::*;
use vstd::std_specs::hash::DefaultHasherAdditionalSpecFns;
use vstd::utf8::encode_utf8;

verus! {

/// A keying strategy: it is fed bytes and reports a 64-bit key.
///
/// The view of a strategy is its abstract state. `written` says how feeding
/// bytes changes that state and `key` says which key a state reports, so the
/// key of any sequence of writes is a function of the starting state and the
/// bytes alone.
pub trait KeyingStrategy: View {
    /// The state that follows `state` once `bytes` have been fed.
    spec fn written(state: Self::V, bytes: Seq<u8>) -> Self::V;

    /// The key reported in `state`.
    spec fn key(state: Self::V) -> u64;

    /// Feeds `bytes` to the strategy.
    fn write(&mut self, bytes: &[u8])
        ensures
            final(self)@ == Self::written(old(self)@, bytes@),
    ;

    /// Reports the key of the current state and leaves the state as it is.
    fn finish(&self) -> (key: u64)
        ensures
            key == Self::key(self@),
    ;
}

/// The general-purpose strategy. Its state is the sequence of writes made so
/// far; every write is appended, so the key depends on all of them.
impl KeyingStrategy for DefaultHasher {
    open spec fn written(state: Seq<Seq<u8>>, bytes: Seq<u8>) -> Seq<Seq<u8>> {
        state.push(bytes)
    }

    open spec fn key(state: Seq<Seq<u8>>) -> u64 {
        DefaultHasher::spec_finish(state)
    }

    fn write(&mut self, bytes: &[u8]) {
        Hasher::write(self, bytes)
    }

    fn finish(&self) -> (key: u64) {
        Hasher::finish(self)
    }
}

/// A value with a canonical string form: a deterministic rendering whose
/// bytes are what a keying strategy is fed.
pub trait Canonical {
    /// The canonical string form of the value.
    spec fn canonical(&self) -> Seq<char>;

    /// Renders the canonical string form.
    fn canonical_string(&self) -> (text: String)
        ensures
            text@ == self.canonical(),
    ;
}

/// A string is its own canonical form.
impl Canonical for String {
    open spec fn canonical(&self) -> Seq<char> {
        self@
    }

    fn canonical_string(&self) -> (text: String) {
        self.clone()
    }
}

/// The bytes a keying strategy is fed for `value`: the UTF-8 encoding of its
/// canonical string form.
pub open spec fn canonical_bytes<T: Canonical>(value: &T) -> Seq<u8> {
    encode_utf8(value.canonical())
}

/// The key that strategy `G` derives for `value` when it starts in `state`.
pub open spec fn derived_key<G: KeyingStrategy, T: Canonical>(state: G::V, value: &T) -> u64 {
    G::key(G::written(state, canonical_bytes(value)))
}

} // verus!
