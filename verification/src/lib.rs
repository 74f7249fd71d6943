//! A fixed-capacity, offset-addressed chunk of raw storage cells, layered on
//! a sparse, key-addressed byte store.
//!
//! A [`chunk::RawChunk`] owns a base [`key::Key`] and a capacity; it derives a
//! distinct key for each slot in `[0, capacity)` and performs bounds-checked
//! loads, stores and clears against a [`store::Store`]. A
//! [`chunk::RawChunkCell`] is a handle bound to one derived key, offering
//! direct access without repeated bounds checks.

pub mod chunk;
pub mod key;
pub mod store;
