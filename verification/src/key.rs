//! Keys into the underlying byte store, and per-slot key derivation.
//!
//! A [`Key`] is an opaque 32-byte identifier. [`Key::with_offset`] derives the
//! key of the `n`-th slot of a chunk from the chunk's base key: the last eight
//! bytes are read as a little-endian word, `n` is added with wraparound, and
//! the sum is written back. For a fixed base this derivation is deterministic
//! and injective over all `u32` offsets, which
//! [`lemma_key_offset_injective`] proves.

use vstd::prelude::*;
use vstd::bytes::lemma_auto_spec_u64_to_from_le_bytes;
use vstd::bytes::spec_u64_from_le_bytes;
use vstd::bytes::spec_u64_to_le_bytes;
use vstd::bytes::u64_from_le_bytes;
use vstd::bytes::u64_to_le_bytes;

verus! {

/// A key addressing one cell of the underlying byte store.
#[derive(Clone, Copy, Debug)]
pub struct Key(pub [u8; 32]);

impl View for Key {
    type V = Seq<u8>;

    open spec fn view(&self) -> Seq<u8> {
        self.0@
    }
}

impl PartialEq for Key {
    fn eq(&self, other: &Key) -> (r: bool) {
        let mut i: usize = 0;
        while i < 32
            invariant
                i <= 32,
                forall|j: int| 0 <= j < i ==> self@[j] == other@[j],
            decreases 32 - i,
        {
            if self.0[i] != other.0[i] {
                return false;
            }
            i = i + 1;
        }
        proof {
            assert(self@ =~= other@);
        }
        true
    }
}

impl Eq for Key {

}

impl vstd::std_specs::cmp::PartialEqSpecImpl for Key {
    open spec fn obeys_eq_spec() -> bool {
        true
    }

    open spec fn eq_spec(&self, other: &Key) -> bool {
        self@ == other@
    }
}

/// The key of the `n`-th slot derived from base key `k`: the last eight bytes
/// of `k`, read as a little-endian word, are incremented by `n` with
/// wraparound; the first 24 bytes are kept.
pub open spec fn key_offset(k: Seq<u8>, n: u32) -> Seq<u8> {
    k.take(24) + spec_u64_to_le_bytes(spec_u64_from_le_bytes(k.skip(24)).wrapping_add(n as u64))
}

impl Key {
    /// Derives the key of the `n`-th slot relative to this base key.
    pub fn with_offset(self, n: u32) -> (r: Key)
        ensures
            r@ == key_offset(self@, n),
    {
        proof {
            lemma_auto_spec_u64_to_from_le_bytes();
        }
        let mut tail: Vec<u8> = Vec::new();
        let mut i: usize = 24;
        while i < 32
            invariant
                24 <= i <= 32,
                tail@ =~= self@.subrange(24, i as int),
            decreases 32 - i,
        {
            tail.push(self.0[i]);
            i = i + 1;
        }
        proof {
            assert(tail@ =~= self@.skip(24));
        }
        let word = u64_from_le_bytes(tail.as_slice());
        let sum = word.wrapping_add(n as u64);
        let sum_bytes = u64_to_le_bytes(sum);
        let mut out = self.0;
        let mut j: usize = 0;
        while j < 8
            invariant
                j <= 8,
                sum_bytes@ == spec_u64_to_le_bytes(sum),
                sum_bytes@.len() == 8,
                out@.len() == 32,
                forall|m: int| 0 <= m < 24 ==> out@[m] == self@[m],
                forall|m: int| 0 <= m < j ==> out@[24 + m] == sum_bytes@[m],
            decreases 8 - j,
        {
            out[24 + j] = sum_bytes[j];
            j = j + 1;
        }
        proof {
            assert(out@ =~= key_offset(self@, n));
        }
        Key(out)
    }
}

/// Slot-key derivation is injective: within one base key, two distinct
/// offsets always derive distinct keys, so distinct slots of a chunk can
/// never alias one another in the store.
pub proof fn lemma_key_offset_injective(k: Seq<u8>, n1: u32, n2: u32)
    requires
        k.len() == 32,
        n1 != n2,
    ensures
        key_offset(k, n1) != key_offset(k, n2),
{
    lemma_auto_spec_u64_to_from_le_bytes();
    let t = spec_u64_from_le_bytes(k.skip(24));
    let w1 = t.wrapping_add(n1 as u64);
    let w2 = t.wrapping_add(n2 as u64);
    assert(w1 != w2);
    if key_offset(k, n1) == key_offset(k, n2) {
        assert(key_offset(k, n1).skip(24) =~= spec_u64_to_le_bytes(w1));
        assert(key_offset(k, n2).skip(24) =~= spec_u64_to_le_bytes(w2));
        assert(spec_u64_from_le_bytes(spec_u64_to_le_bytes(w1)) == w1);
        assert(spec_u64_from_le_bytes(spec_u64_to_le_bytes(w2)) == w2);
        assert(false);
    }
}

} // verus!
