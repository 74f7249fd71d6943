use raw_chunk::chunk::OutOfBounds;
use raw_chunk::chunk::RawChunk;
use raw_chunk::key::Key;
use raw_chunk::store::Store;

#[test]
fn simple() {
    const CAPACITY: u32 = 5;
    const WORD_SIZE: usize = 4;

    let mut store = Store::new();
    let mut chunk = RawChunk::new(Key([0x42; 32]), CAPACITY).unwrap();

    // Invariants after initialization
    assert_eq!(chunk.capacity(), CAPACITY);
    for i in 0..CAPACITY {
        assert_eq!(chunk.load(&mut store, i), Ok(None));
    }
    // Out of bounds load.
    assert!(chunk.load(&mut store, CAPACITY).is_err());

    // Store some elements
    for i in 0..CAPACITY {
        assert!(chunk.store(&mut store, i, &[i as u8; WORD_SIZE]).is_ok());
        assert_eq!(chunk.load(&mut store, i), Ok(Some(vec![i as u8; WORD_SIZE])));
    }
    assert_eq!(chunk.capacity(), CAPACITY);

    // Out of bounds storing.
    assert!(chunk.store(&mut store, CAPACITY, &[10; WORD_SIZE]).is_err());

    // Clear all elements.
    for i in 0..CAPACITY {
        assert!(chunk.clear(&mut store, i).is_ok());
        assert_eq!(chunk.load(&mut store, i), Ok(None));
    }
    assert_eq!(chunk.capacity(), CAPACITY);

    // Clear out of bounds.
    assert!(chunk.clear(&mut store, CAPACITY).is_err());
}

#[test]
fn count_reads_writes() {
    const CAPACITY: u32 = 5;
    const WORD_SIZE: usize = 4;

    let mut store = Store::new();
    let mut chunk = RawChunk::new(Key([0x42; 32]), CAPACITY).unwrap();

    // Reads and writes after init.
    assert_eq!(store.total_reads(), 0);
    assert_eq!(store.total_writes(), 0);

    // Loading from all cells.
    for i in 0..CAPACITY {
        chunk.load(&mut store, i).unwrap();
        assert_eq!(store.total_reads(), i as u64 + 1);
        assert_eq!(store.total_writes(), 0);
    }
    assert_eq!(store.total_reads(), CAPACITY as u64);
    assert_eq!(store.total_writes(), 0);

    // Writing to all cells.
    for i in 0..CAPACITY {
        chunk.store(&mut store, i, &[i as u8; WORD_SIZE]).unwrap();
        assert_eq!(store.total_reads(), CAPACITY as u64);
        assert_eq!(store.total_writes(), i as u64 + 1);
    }
    assert_eq!(store.total_reads(), CAPACITY as u64);
    assert_eq!(store.total_writes(), CAPACITY as u64);

    // Loading multiple times from a single cell.
    const LOAD_REPEATS: usize = 3;
    for n in 0..LOAD_REPEATS {
        chunk.load(&mut store, 0).unwrap();
        assert_eq!(store.total_reads(), CAPACITY as u64 + n as u64 + 1);
        assert_eq!(store.total_writes(), CAPACITY as u64);
    }
    assert_eq!(store.total_reads(), CAPACITY as u64 + LOAD_REPEATS as u64);
    assert_eq!(store.total_writes(), CAPACITY as u64);

    // Storing multiple times to a single cell.
    const STORE_REPEATS: usize = 3;
    for n in 0..STORE_REPEATS {
        chunk.store(&mut store, 0, b"test").unwrap();
        assert_eq!(store.total_reads(), CAPACITY as u64 + LOAD_REPEATS as u64);
        assert_eq!(store.total_writes(), CAPACITY as u64 + n as u64 + 1);
    }
    assert_eq!(store.total_reads(), CAPACITY as u64 + LOAD_REPEATS as u64);
    assert_eq!(store.total_writes(), CAPACITY as u64 + STORE_REPEATS as u64);
}

#[test]
fn zero_capacity_is_rejected() {
    assert!(RawChunk::new(Key([0; 32]), 0).is_none());
    assert!(RawChunk::new(Key([0; 32]), 1).is_some());
}

#[test]
fn out_of_bounds_carries_offset_and_capacity() {
    let mut store = Store::new();
    let mut chunk = RawChunk::new(Key([7; 32]), 3).unwrap();
    let err = OutOfBounds { requested: 9, capacity: 3 };

    assert_eq!(chunk.load(&mut store, 9), Err(err));
    assert_eq!(chunk.store(&mut store, 9, b"abc"), Err(err));
    assert_eq!(chunk.clear(&mut store, 9), Err(err));
    assert_eq!(chunk.cell_at(9).unwrap_err(), err);
    // The boundary itself is already out of bounds.
    assert_eq!(chunk.load(&mut store, 3), Err(OutOfBounds { requested: 3, capacity: 3 }));
    // A rejected operation never touches the store.
    assert_eq!(store.total_reads(), 0);
    assert_eq!(store.total_writes(), 0);
}

#[test]
fn store_then_load_round_trips() {
    let mut store = Store::new();
    let mut chunk = RawChunk::new(Key([1; 32]), 4).unwrap();

    chunk.store(&mut store, 2, b"hello").unwrap();
    assert_eq!(chunk.load(&mut store, 2), Ok(Some(b"hello".to_vec())));
    // An empty value is present, not absent.
    chunk.store(&mut store, 0, b"").unwrap();
    assert_eq!(chunk.load(&mut store, 0), Ok(Some(Vec::new())));
}

#[test]
fn store_overwrites_prior_value() {
    let mut store = Store::new();
    let mut chunk = RawChunk::new(Key([1; 32]), 4).unwrap();

    chunk.store(&mut store, 1, b"first").unwrap();
    chunk.store(&mut store, 1, b"second").unwrap();
    assert_eq!(chunk.load(&mut store, 1), Ok(Some(b"second".to_vec())));
}

#[test]
fn clear_makes_slot_absent() {
    let mut store = Store::new();
    let mut chunk = RawChunk::new(Key([1; 32]), 4).unwrap();

    chunk.store(&mut store, 3, b"gone soon").unwrap();
    chunk.clear(&mut store, 3).unwrap();
    assert_eq!(chunk.load(&mut store, 3), Ok(None));
    // Clearing a slot that never held anything is fine too.
    chunk.clear(&mut store, 0).unwrap();
    assert_eq!(chunk.load(&mut store, 0), Ok(None));
}

#[test]
fn distinct_slots_are_independent() {
    let mut store = Store::new();
    let mut chunk = RawChunk::new(Key([9; 32]), 8).unwrap();

    chunk.store(&mut store, 5, b"five").unwrap();
    chunk.store(&mut store, 6, b"six").unwrap();
    assert_eq!(chunk.load(&mut store, 5), Ok(Some(b"five".to_vec())));
    chunk.clear(&mut store, 6).unwrap();
    assert_eq!(chunk.load(&mut store, 5), Ok(Some(b"five".to_vec())));
    assert_eq!(chunk.load(&mut store, 6), Ok(None));
    for i in 0..8 {
        if i != 5 && i != 6 {
            assert_eq!(chunk.load(&mut store, i), Ok(None));
        }
    }
}

#[test]
fn cell_handle_reaches_its_slot() {
    let mut store = Store::new();
    let mut chunk = RawChunk::new(Key([3; 32]), 2).unwrap();

    let mut cell = chunk.cell_at(1).unwrap();
    assert_eq!(cell.load(&mut store), None);
    cell.store(&mut store, b"via cell");
    assert_eq!(cell.load(&mut store), Some(b"via cell".to_vec()));
    // The chunk sees what the cell wrote, and only at that slot.
    assert_eq!(chunk.load(&mut store, 1), Ok(Some(b"via cell".to_vec())));
    assert_eq!(chunk.load(&mut store, 0), Ok(None));
    cell.clear(&mut store);
    assert_eq!(chunk.load(&mut store, 1), Ok(None));
}

#[test]
fn cell_accesses_are_counted_by_the_store() {
    let mut store = Store::new();
    let mut chunk = RawChunk::new(Key([3; 32]), 2).unwrap();
    let mut cell = chunk.cell_at(0).unwrap();

    // Creating the handle touches nothing.
    assert_eq!(store.total_reads(), 0);
    assert_eq!(store.total_writes(), 0);
    cell.store(&mut store, b"x");
    assert_eq!(store.total_writes(), 1);
    cell.load(&mut store);
    assert_eq!(store.total_reads(), 1);
    cell.clear(&mut store);
    assert_eq!(store.total_writes(), 2);
}

#[test]
fn offset_derivation_is_deterministic_and_injective() {
    let base = Key([0xab; 32]);
    assert_eq!(base.with_offset(4), base.with_offset(4));
    assert_ne!(base.with_offset(0), base.with_offset(1));
    assert_ne!(base.with_offset(0), base.with_offset(u32::MAX));
    // The base key itself is slot zero.
    assert_eq!(base.with_offset(0), base);
}

#[test]
fn store_keys_values_not_chunks() {
    // Two chunks with the same base key address the same slots.
    let mut store = Store::new();
    let mut first = RawChunk::new(Key([5; 32]), 2).unwrap();
    let second = RawChunk::new(Key([5; 32]), 2).unwrap();

    first.store(&mut store, 0, b"shared").unwrap();
    assert_eq!(second.load(&mut store, 0), Ok(Some(b"shared".to_vec())));
}
