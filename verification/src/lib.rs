//! A packed slot reference: one 64-bit word that carries a slot index, the
//! slot's epoch and the id of the storage the slot lives in.
//!
//! The bit layout is fixed in [`layout`]. [`fields`] holds the three numbers
//! that a word stands for and the proof that words and such triples match one
//! to one. The value type and its accessors are in [`bitfield`].

use vstd::prelude::*;

pub mod bitfield;
pub mod fields;
pub mod layout;

verus! {

/// Generation counter of a slot. It is bumped each time the slot is reused,
/// so that a reference taken before the reuse no longer matches.
pub type Epoch = u16;

/// Identifier of the storage that an index is relative to.
pub type StorageId = u8;

} // verus!
