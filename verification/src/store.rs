//! The key-addressed byte store that chunks and cells operate against.
//!
//! A [`Store`] maps [`Key`]s to byte values. Its view is a
//! `Map<Seq<u8>, Option<Seq<u8>>>`: a key bound to `Some(bytes)` holds those
//! bytes, a key bound to `None` was cleared, and an unbound key was never
//! written. [`cell_of`] reads a cell out of such a map, treating unbound and
//! cleared keys alike as absent.
//!
//! The store also keeps two diagnostic counters, the number of loads and the
//! number of stores and clears performed, so that callers can observe exactly
//! how many accesses an operation issued.

use vstd::prelude::*;
use crate::key::Key;
use vstd::slice::slice_to_vec;

verus! {

/// The value of the cell at key `k` in store contents `m`: the bytes most
/// recently stored there, or `None` if the key was never written or was most
/// recently cleared.
pub open spec fn cell_of(m: Map<Seq<u8>, Option<Seq<u8>>>, k: Seq<u8>) -> Option<Seq<u8>> {
    if m.contains_key(k) {
        m[k]
    } else {
        None
    }
}

/// A sparse, key-addressed byte store.
///
/// Kept as an append-only journal of writes; the view reduces the journal to
/// the map of current cell contents, later entries overriding earlier ones.
#[derive(Debug)]
pub struct Store {
    journal: Vec<(Key, Option<Vec<u8>>)>,
    reads: u64,
    writes: u64,
}

spec fn journal_view(s: Seq<(Key, Option<Vec<u8>>)>) -> Map<Seq<u8>, Option<Seq<u8>>>
    decreases s.len(),
{
    if s.len() == 0 {
        Map::empty()
    } else {
        journal_view(s.drop_last()).insert(s.last().0@, s.last().1.deep_view())
    }
}

impl View for Store {
    type V = Map<Seq<u8>, Option<Seq<u8>>>;

    closed spec fn view(&self) -> Map<Seq<u8>, Option<Seq<u8>>> {
        journal_view(self.journal@)
    }
}

proof fn lemma_journal_skip_last(s: Seq<(Key, Option<Vec<u8>>)>, k: Seq<u8>)
    requires
        s.len() > 0,
        s.last().0@ != k,
    ensures
        cell_of(journal_view(s), k) == cell_of(journal_view(s.drop_last()), k),
{
}

fn clone_value(v: &Option<Vec<u8>>) -> (r: Option<Vec<u8>>)
    ensures
        r.deep_view() == v.deep_view(),
{
    match v {
        Some(bytes) => Some(slice_to_vec(bytes.as_slice())),
        None => None,
    }
}

impl Store {
    /// The number of loads performed so far.
    pub closed spec fn read_count(&self) -> u64 {
        self.reads
    }

    /// The number of stores and clears performed so far.
    pub closed spec fn write_count(&self) -> u64 {
        self.writes
    }

    /// Creates an empty store: no key holds a value, both counters are zero.
    pub fn new() -> (s: Store)
        ensures
            s@ == Map::<Seq<u8>, Option<Seq<u8>>>::empty(),
            s.read_count() == 0,
            s.write_count() == 0,
    {
        Store { journal: Vec::new(), reads: 0, writes: 0 }
    }

    /// Returns the bytes stored at `key`, or `None` if the key holds nothing.
    /// Counts one read; the contents are unchanged.
    pub fn load(&mut self, key: &Key) -> (r: Option<Vec<u8>>)
        requires
            old(self).read_count() < u64::MAX,
        ensures
            r.deep_view() == cell_of(old(self)@, key@),
            final(self)@ == old(self)@,
            final(self).read_count() == old(self).read_count() + 1,
            final(self).write_count() == old(self).write_count(),
    {
        self.reads = self.reads + 1;
        lookup(&self.journal, key)
    }

    /// Stores `bytes` at `key`, overwriting any prior value. Counts one
    /// write; no other key is changed.
    pub fn store(&mut self, key: &Key, bytes: &[u8])
        requires
            old(self).write_count() < u64::MAX,
        ensures
            final(self)@ == old(self)@.insert(key@, Some(bytes@)),
            final(self).read_count() == old(self).read_count(),
            final(self).write_count() == old(self).write_count() + 1,
    {
        self.writes = self.writes + 1;
        let ghost before = self.journal@;
        let owned = slice_to_vec(bytes);
        proof {
            assert(owned.deep_view() =~= bytes@);
        }
        self.journal.push((*key, Some(owned)));
        proof {
            assert(self.journal@.drop_last() =~= before);
        }
    }

    /// Removes any value stored at `key`, so that a subsequent load returns
    /// `None`. Counts one write; no other key is changed.
    pub fn clear(&mut self, key: &Key)
        requires
            old(self).write_count() < u64::MAX,
        ensures
            final(self)@ == old(self)@.insert(key@, None),
            final(self).read_count() == old(self).read_count(),
            final(self).write_count() == old(self).write_count() + 1,
    {
        self.writes = self.writes + 1;
        let ghost before = self.journal@;
        self.journal.push((*key, None));
        proof {
            assert(self.journal@.drop_last() =~= before);
        }
    }

    /// The number of loads performed so far.
    pub fn total_reads(&self) -> (r: u64)
        ensures
            r == self.read_count(),
    {
        self.reads
    }

    /// The number of stores and clears performed so far.
    pub fn total_writes(&self) -> (r: u64)
        ensures
            r == self.write_count(),
    {
        self.writes
    }
}

fn lookup(journal: &Vec<(Key, Option<Vec<u8>>)>, key: &Key) -> (r: Option<Vec<u8>>)
    ensures
        r.deep_view() == cell_of(journal_view(journal@), key@),
{
    let mut i: usize = journal.len();
    proof {
        assert(journal@.take(i as int) =~= journal@);
    }
    while i > 0
        invariant
            i <= journal@.len(),
            cell_of(journal_view(journal@.take(i as int)), key@) == cell_of(
                journal_view(journal@),
                key@,
            ),
        decreases i,
    {
        i = i - 1;
        let entry = &journal[i];
        let ghost prefix = journal@.take(i as int + 1);
        proof {
            assert(prefix.last() == journal@[i as int]);
            assert(prefix.drop_last() =~= journal@.take(i as int));
        }
        if entry.0 == *key {
            return clone_value(&entry.1);
        }
        proof {
            lemma_journal_skip_last(prefix, key@);
        }
    }
    None
}

} // verus!
