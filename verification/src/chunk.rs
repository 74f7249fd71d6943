//! Chunks of raw cells: bounds-checked, offset-addressed access to a
//! contiguous run of store slots, and cell handles for unchecked access to a
//! single slot.
//!
//! A [`RawChunk`] owns a base [`Key`] and a non-zero capacity. Every indexed
//! operation applies the same bounds check — `n` must lie in
//! `[0, capacity)` — before deriving the slot key and touching the store;
//! an out-of-bounds index fails with [`OutOfBounds`] and issues no store
//! access at all. A [`RawChunkCell`] is bound to one already-validated slot
//! key and accesses it without re-deriving or re-checking anything.

use vstd::prelude::*;
use crate::key::Key;
use crate::key::key_offset;
use crate::key::lemma_key_offset_injective;
use crate::store::Store;
use crate::store::cell_of;

verus! {

/// The error raised by every indexed chunk operation whose offset `requested`
/// does not lie in `[0, capacity)`.
#[derive(Clone, Copy, Debug, PartialEq, Eq, Structural)]
pub struct OutOfBounds {
    /// The offset that was asked for.
    pub requested: u32,
    /// The capacity of the chunk it was asked of.
    pub capacity: u32,
}

/// A chunk of raw cells: a base key plus a capacity, addressing the slots
/// `0` up to (excluding) `capacity` of the store.
#[derive(Debug)]
pub struct RawChunk {
    /// The base key from which all slot keys of this chunk are derived.
    key: Key,
    /// The number of addressable slots; at least 1.
    capacity: u32,
}

/// A handle to a single cell of a chunk, bound to the slot's derived key.
///
/// The bounds check was done once, by the [`RawChunk`] operation that created
/// the handle; the handle itself accesses the store directly. It is the
/// creating caller's duty not to keep two live handles to the same slot with
/// conflicting intent.
#[derive(Debug)]
pub struct RawChunkCell {
    /// The derived key of the cell this handle is bound to.
    key: Key,
}

impl RawChunkCell {
    /// The key this handle is bound to.
    pub closed spec fn spec_key(&self) -> Seq<u8> {
        self.key@
    }

    /// Loads the bytes at this cell, or `None` if it holds nothing.
    pub fn load(&self, store: &mut Store) -> (r: Option<Vec<u8>>)
        requires
            old(store).read_count() < u64::MAX,
        ensures
            r.deep_view() == cell_of(old(store)@, self.spec_key()),
            final(store)@ == old(store)@,
            final(store).read_count() == old(store).read_count() + 1,
            final(store).write_count() == old(store).write_count(),
    {
        store.load(&self.key)
    }

    /// Stores `bytes` into this cell, overwriting any prior value.
    pub fn store(&mut self, store: &mut Store, bytes: &[u8])
        requires
            old(store).write_count() < u64::MAX,
        ensures
            final(store)@ == old(store)@.insert(old(self).spec_key(), Some(bytes@)),
            final(store).read_count() == old(store).read_count(),
            final(store).write_count() == old(store).write_count() + 1,
            *final(self) == *old(self),
    {
        store.store(&self.key, bytes)
    }

    /// Removes the bytes stored in this cell, so that a subsequent load
    /// returns `None`.
    pub fn clear(&mut self, store: &mut Store)
        requires
            old(store).write_count() < u64::MAX,
        ensures
            final(store)@ == old(store)@.insert(old(self).spec_key(), None),
            final(store).read_count() == old(store).read_count(),
            final(store).write_count() == old(store).write_count() + 1,
            *final(self) == *old(self),
    {
        store.clear(&self.key)
    }
}

impl RawChunk {
    /// The base key of this chunk.
    pub closed spec fn base(&self) -> Seq<u8> {
        self.key@
    }

    /// The capacity of this chunk.
    pub closed spec fn cap(&self) -> u32 {
        self.capacity
    }

    /// Well-formed chunks have at least one slot.
    pub open spec fn wf(&self) -> bool {
        self.cap() >= 1
    }

    /// The store key of the `n`-th slot of this chunk.
    pub closed spec fn slot(&self, n: u32) -> Seq<u8> {
        key_offset(self.base(), n)
    }

    /// Creates a chunk of `capacity` cells rooted at `key`, or `None` if
    /// `capacity` is zero.
    ///
    /// The caller remains responsible for the one contract this layer cannot
    /// check: that the slot keys derived from `key` do not collide with keys
    /// used by unrelated chunks or other users of the same store.
    pub fn new(key: Key, capacity: u32) -> (r: Option<RawChunk>)
        ensures
            capacity == 0 <==> r is None,
            r matches Some(c) ==> c.wf() && c.base() == key@ && c.cap() == capacity,
    {
        if capacity == 0 {
            None
        } else {
            Some(RawChunk { key, capacity })
        }
    }

    /// Returns the number of addressable slots of this chunk.
    pub fn capacity(&self) -> (r: u32)
        ensures
            r == self.cap(),
    {
        self.capacity
    }

    /// Returns the derived key of the `n`-th slot, or `OutOfBounds` if `n`
    /// is not within `[0, capacity)`.
    fn offset_key(&self, n: u32) -> (r: Result<Key, OutOfBounds>)
        ensures
            n < self.cap() ==> ({
                &&& r matches Ok(k)
                &&& k@ == self.slot(n)
            }),
            n >= self.cap() ==> ({
                &&& r matches Err(e)
                &&& e == (OutOfBounds { requested: n, capacity: self.cap() })
            }),
    {
        if n >= self.capacity {
            return Err(OutOfBounds { requested: n, capacity: self.capacity });
        }
        Ok(self.key.with_offset(n))
    }

    /// Returns a handle to the `n`-th cell, or `OutOfBounds` if `n` is not
    /// within `[0, capacity)`. The handle accesses the slot without further
    /// bounds checks; the caller must not keep two live handles to the same
    /// slot with conflicting intent.
    pub fn cell_at(&mut self, n: u32) -> (r: Result<RawChunkCell, OutOfBounds>)
        ensures
            n < old(self).cap() ==> ({
                &&& r matches Ok(c)
                &&& c.spec_key() == old(self).slot(n)
            }),
            n >= old(self).cap() ==> ({
                &&& r matches Err(e)
                &&& e == (OutOfBounds { requested: n, capacity: old(self).cap() })
            }),
            *final(self) == *old(self),
    {
        match self.offset_key(n) {
            Ok(key) => Ok(RawChunkCell { key }),
            Err(e) => Err(e),
        }
    }

    /// Loads the bytes stored in the `n`-th cell — `None` if it holds
    /// nothing — or fails with `OutOfBounds`, touching the store only when
    /// `n` is within `[0, capacity)`.
    pub fn load(&self, store: &mut Store, n: u32) -> (r: Result<
        Option<Vec<u8>>,
        OutOfBounds,
    >)
        requires
            n < self.cap() ==> old(store).read_count() < u64::MAX,
        ensures
            n < self.cap() ==> ({
                &&& r matches Ok(v)
                &&& v.deep_view() == cell_of(old(store)@, self.slot(n))
                &&& final(store)@ == old(store)@
                &&& final(store).read_count() == old(store).read_count() + 1
                &&& final(store).write_count() == old(store).write_count()
            }),
            n >= self.cap() ==> ({
                &&& r matches Err(e)
                &&& e == (OutOfBounds { requested: n, capacity: self.cap() })
                &&& *final(store) == *old(store)
            }),
    {
        match self.offset_key(n) {
            Ok(key) => Ok(store.load(&key)),
            Err(e) => Err(e),
        }
    }

    /// Stores `bytes` into the `n`-th cell, overwriting any prior value, or
    /// fails with `OutOfBounds`, touching the store only when `n` is within
    /// `[0, capacity)`.
    pub fn store(&mut self, store: &mut Store, n: u32, bytes: &[u8]) -> (r: Result<
        (),
        OutOfBounds,
    >)
        requires
            n < old(self).cap() ==> old(store).write_count() < u64::MAX,
        ensures
            n < old(self).cap() ==> ({
                &&& r is Ok
                &&& final(store)@ == old(store)@.insert(old(self).slot(n), Some(bytes@))
                &&& final(store).read_count() == old(store).read_count()
                &&& final(store).write_count() == old(store).write_count() + 1
            }),
            n >= old(self).cap() ==> ({
                &&& r matches Err(e)
                &&& e == (OutOfBounds { requested: n, capacity: old(self).cap() })
                &&& *final(store) == *old(store)
            }),
            *final(self) == *old(self),
    {
        match self.offset_key(n) {
            Ok(key) => {
                store.store(&key, bytes);
                Ok(())
            },
            Err(e) => Err(e),
        }
    }

    /// Removes the bytes stored in the `n`-th cell, so that a subsequent
    /// load of it returns `None`, or fails with `OutOfBounds`, touching the
    /// store only when `n` is within `[0, capacity)`.
    pub fn clear(&mut self, store: &mut Store, n: u32) -> (r: Result<(), OutOfBounds>)
        requires
            n < old(self).cap() ==> old(store).write_count() < u64::MAX,
        ensures
            n < old(self).cap() ==> ({
                &&& r is Ok
                &&& final(store)@ == old(store)@.insert(old(self).slot(n), None)
                &&& final(store).read_count() == old(store).read_count()
                &&& final(store).write_count() == old(store).write_count() + 1
            }),
            n >= old(self).cap() ==> ({
                &&& r matches Err(e)
                &&& e == (OutOfBounds { requested: n, capacity: old(self).cap() })
                &&& *final(store) == *old(store)
            }),
            *final(self) == *old(self),
    {
        match self.offset_key(n) {
            Ok(key) => {
                store.clear(&key);
                Ok(())
            },
            Err(e) => Err(e),
        }
    }
}

/// In a store that holds nothing — as one freshly created does — every
/// in-bounds slot of any chunk reads absent.
pub proof fn lemma_fresh_store_reads_absent(c: RawChunk, n: u32)
    requires
        c.wf(),
        n < c.cap(),
    ensures
        cell_of(Map::<Seq<u8>, Option<Seq<u8>>>::empty(), c.slot(n)) is None,
{
}

/// Round trip: storing bytes `b` at an in-bounds slot `n` and then loading
/// slot `n` returns exactly `b`.
pub proof fn lemma_store_then_load(
    m: Map<Seq<u8>, Option<Seq<u8>>>,
    c: RawChunk,
    n: u32,
    b: Seq<u8>,
)
    requires
        c.wf(),
        n < c.cap(),
    ensures
        cell_of(m.insert(c.slot(n), Some(b)), c.slot(n)) == Some(b),
{
}

/// Overwrite: storing `b1` and then `b2` at the same in-bounds slot leaves
/// the slot holding `b2`.
pub proof fn lemma_store_overwrites(
    m: Map<Seq<u8>, Option<Seq<u8>>>,
    c: RawChunk,
    n: u32,
    b1: Seq<u8>,
    b2: Seq<u8>,
)
    requires
        c.wf(),
        n < c.cap(),
    ensures
        cell_of(m.insert(c.slot(n), Some(b1)).insert(c.slot(n), Some(b2)), c.slot(n)) == Some(b2),
{
}

/// Clear: storing bytes at an in-bounds slot and then clearing it leaves the
/// slot reading absent.
pub proof fn lemma_clear_after_store(
    m: Map<Seq<u8>, Option<Seq<u8>>>,
    c: RawChunk,
    n: u32,
    b: Seq<u8>,
)
    requires
        c.wf(),
        n < c.cap(),
    ensures
        cell_of(m.insert(c.slot(n), Some(b)).insert(c.slot(n), None), c.slot(n)) is None,
{
}

/// Distinct in-bounds slots of one chunk never alias: their derived store
/// keys differ.
pub proof fn lemma_slots_distinct(c: RawChunk, i: u32, j: u32)
    requires
        c.wf(),
        i < c.cap(),
        j < c.cap(),
        i != j,
    ensures
        c.slot(i) != c.slot(j),
{
    lemma_key_offset_injective(c.base(), i, j);
}

/// Independence: storing into — or clearing — the in-bounds slot `i` does
/// not change what the distinct in-bounds slot `j` reads.
pub proof fn lemma_slots_independent(
    m: Map<Seq<u8>, Option<Seq<u8>>>,
    c: RawChunk,
    i: u32,
    j: u32,
    v: Option<Seq<u8>>,
)
    requires
        c.wf(),
        i < c.cap(),
        j < c.cap(),
        i != j,
    ensures
        cell_of(m.insert(c.slot(i), v), c.slot(j)) == cell_of(m, c.slot(j)),
{
    lemma_slots_distinct(c, i, j);
}

} // verus!
