//! SHA-1 digests, their hexadecimal text and their compact 64-bit form.
//!
//! The digest itself comes from the `sha1` crate and the hexadecimal text
//! from the `hex` crate; the two functions that call them are the only ones
//! here whose contracts are taken on trust.

use vstd::prelude::*;

verus! {

/// The SHA-1 digest of a byte string, as the `sha1` crate computes it.
pub uninterp spec fn sha1_digest(data: Seq<u8>) -> Seq<u8>;

/// The lowercase hexadecimal digit that stands for a value below sixteen:
/// `0` to `9` from code 48 on, `a` to `f` from code 97 on.
pub open spec fn hex_digit(nibble: u8) -> char {
    if nibble < 10 {
        (48 + nibble) as char
    } else {
        (87 + nibble) as char
    }
}

/// Lowercase hexadecimal text of a byte string: two digits per byte, the high
/// half of each byte first.
pub open spec fn hex_lower(bytes: Seq<u8>) -> Seq<char> {
    Seq::new(
        2 * bytes.len(),
        |i: int|
            if i % 2 == 0 {
                hex_digit(bytes[i / 2] / 16)
            } else {
                hex_digit(bytes[i / 2] % 16)
            },
    )
}

/// The number whose big-endian base-256 digits are `bytes`.
pub open spec fn pack_be(bytes: Seq<u8>) -> nat
    decreases bytes.len(),
{
    if bytes.len() == 0 {
        0
    } else {
        pack_be(bytes.drop_last()) * 256 + bytes.last() as nat
    }
}

/// Calls `sha1::Sha1::digest` (the one-shot form of `Digest`) on `bytes` and
/// copies the twenty output bytes into an array. The digest is a function of
/// the input bytes alone; nothing else is claimed of it.
#[verifier::external_body]
pub(crate) fn sha1_of(bytes: &[u8]) -> (digest: [u8; 20])
    ensures
        digest@ == sha1_digest(bytes@),
{
    let out = <sha1::Sha1 as sha1::Digest>::digest(bytes);
    let mut digest = [0u8; 20];
    digest.copy_from_slice(out.as_slice());
    digest
}

/// Calls `hex::encode` on `bytes`. That function walks the bytes in order and
/// emits for each one the digit of its high four bits and then the digit of
/// its low four bits, taken from the table `0123456789abcdef`.
#[verifier::external_body]
pub(crate) fn hex_of(bytes: &[u8]) -> (text: String)
    ensures
        text@ == hex_lower(bytes@),
{
    hex::encode(bytes)
}

/// Packs the first seven bytes of a digest into an integer, first byte most
/// significant.
pub fn compact_key(digest: &[u8; 20]) -> (key: u64)
    ensures
        key == pack_be(digest@.subrange(0, 7)),
        key < 0x100_0000_0000_0000,
{
    let mut output: u64 = 0;
    let mut i: usize = 0;
    while i < 7
        invariant
            i <= 7,
            output == pack_be(digest@.subrange(0, i as int)),
            output < pow256(i as nat),
        decreases 7 - i,
    {
        let byte = digest[i];
        proof {
            let next = digest@.subrange(0, i as int + 1);
            assert(next.drop_last() =~= digest@.subrange(0, i as int));
            assert(next.last() == byte);
            reveal_with_fuel(pow256, 8);
        }
        output = output * 256 + byte as u64;
        i = i + 1;
    }
    proof {
        reveal_with_fuel(pow256, 8);
    }
    output
}

/// 256 to the power `n`: the bound on a number of `n` base-256 digits.
spec fn pow256(n: nat) -> nat
    decreases n,
{
    if n == 0 {
        1
    } else {
        256 * pow256((n - 1) as nat)
    }
}

} // verus!
