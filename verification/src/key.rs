//! A 32-byte identity key, held as four little-endian 64-bit limbs so that
//! equality and byte serialization are plain data operations.

use vstd::bytes::{
    lemma_auto_spec_u64_to_from_le_bytes, spec_u64_from_le_bytes, spec_u64_to_le_bytes,
    u64_from_le_bytes, u64_to_le_bytes,
};
use vstd::prelude::*;
use vstd::slice::slice_subrange;

verus! {

/// The number of bytes in a serialized key.
pub const KEY_LEN: usize = 32;

/// A 32-byte identity (an account's address, an owner, a program id).
/// Limb `w0` holds bytes 0..8 of the key, little endian, and so on.
#[derive(Clone, Copy, Debug, PartialEq, Eq, Structural)]
pub struct Key {
    pub w0: u64,
    pub w1: u64,
    pub w2: u64,
    pub w3: u64,
}

/// The 32-byte serialization of a key.
pub open spec fn key_bytes_of(k: Key) -> Seq<u8> {
    spec_u64_to_le_bytes(k.w0) + spec_u64_to_le_bytes(k.w1) + spec_u64_to_le_bytes(k.w2)
        + spec_u64_to_le_bytes(k.w3)
}

/// The key read back from 32 bytes.
pub open spec fn key_of_bytes(b: Seq<u8>) -> Key
    recommends
        b.len() == KEY_LEN,
{
    Key {
        w0: spec_u64_from_le_bytes(b.subrange(0, 8)),
        w1: spec_u64_from_le_bytes(b.subrange(8, 16)),
        w2: spec_u64_from_le_bytes(b.subrange(16, 24)),
        w3: spec_u64_from_le_bytes(b.subrange(24, 32)),
    }
}

/// Serializing a key and reading it back yields the key.
pub proof fn lemma_key_bytes_roundtrip(k: Key)
    ensures
        key_bytes_of(k).len() == KEY_LEN,
        key_of_bytes(key_bytes_of(k)) == k,
{
    lemma_auto_spec_u64_to_from_le_bytes();
    let b = key_bytes_of(k);
    assert(b.subrange(0, 8) =~= spec_u64_to_le_bytes(k.w0));
    assert(b.subrange(8, 16) =~= spec_u64_to_le_bytes(k.w1));
    assert(b.subrange(16, 24) =~= spec_u64_to_le_bytes(k.w2));
    assert(b.subrange(24, 32) =~= spec_u64_to_le_bytes(k.w3));
}

impl Key {
    /// Serializes the key into its 32 bytes.
    pub fn to_bytes(&self) -> (r: Vec<u8>)
        ensures
            r@ == key_bytes_of(*self),
            r@.len() == KEY_LEN,
    {
        let mut out = u64_to_le_bytes(self.w0);
        let mut b1 = u64_to_le_bytes(self.w1);
        let mut b2 = u64_to_le_bytes(self.w2);
        let mut b3 = u64_to_le_bytes(self.w3);
        out.append(&mut b1);
        out.append(&mut b2);
        out.append(&mut b3);
        out
    }

    /// Reads a key from 32 bytes starting at `off`.
    pub fn from_slice(d: &[u8], off: usize) -> (r: Key)
        requires
            off + KEY_LEN <= d@.len(),
        ensures
            r == key_of_bytes(d@.subrange(off as int, off as int + KEY_LEN)),
    {
        let n: usize = d.len();
        let w0 = u64_from_le_bytes(slice_subrange(d, off, off + 8));
        let w1 = u64_from_le_bytes(slice_subrange(d, off + 8, off + 16));
        let w2 = u64_from_le_bytes(slice_subrange(d, off + 16, off + 24));
        let w3 = u64_from_le_bytes(slice_subrange(d, off + 24, off + 32));
        proof {
            let s = d@.subrange(off as int, off as int + 32);
            assert(s.subrange(0, 8) =~= d@.subrange(off as int, off as int + 8));
            assert(s.subrange(8, 16) =~= d@.subrange(off as int + 8, off as int + 16));
            assert(s.subrange(16, 24) =~= d@.subrange(off as int + 16, off as int + 24));
            assert(s.subrange(24, 32) =~= d@.subrange(off as int + 24, off as int + 32));
        }
        Key { w0, w1, w2, w3 }
    }
}

} // verus!
