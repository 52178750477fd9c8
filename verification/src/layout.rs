//! The bit layout of a packed reference.
//!
//! From the least significant bit upwards the word holds the index, the epoch
//! and the storage id. The widths, offsets and masks below are the only place
//! where the layout is written down.

use vstd::arithmetic::power2::{lemma2_to64, lemma2_to64_rest, pow2};
use vstd::layout::{layout_of_primitives, size_of};
use vstd::prelude::*;

use crate::{Epoch, StorageId};

verus! {

/// Width of the index field.
pub const INDEX_BITS: u8 = 40;

/// Width of the epoch field.
pub const EPOCH_BITS: u8 = 16;

/// Width of the storage id field.
pub const STORAGE_ID_BITS: u8 = 8;

/// The bits of the index field, which starts at bit 0. As a number it is
/// also the largest index that fits.
pub const INDEX_MASK: u64 = 0x0000_00ff_ffff_ffff;

/// Position of the lowest bit of the epoch field.
pub const EPOCH_OFFSET: u8 = INDEX_BITS;

/// The bits of the epoch field.
pub const EPOCH_MASK: u64 = 0x00ff_ff00_0000_0000;

/// Position of the lowest bit of the storage id field.
pub const STORAGE_ID_OFFSET: u8 = EPOCH_OFFSET + EPOCH_BITS;

/// The bits of the storage id field.
pub const STORAGE_ID_MASK: u64 = 0xff00_0000_0000_0000;

/// The number that the `bits` bits starting at bit `offset` of `word` spell.
pub open spec fn field(word: u64, offset: u8, bits: u8) -> nat {
    (word as nat / pow2(offset as nat)) % pow2(bits as nat)
}

/// The powers of two that the layout gives rise to, as plain numbers: how
/// many values each field holds, and the weight of the lowest bit of the
/// epoch and of the storage id.
pub proof fn lemma_layout_powers()
    ensures
        pow2(0) == 1,
        pow2(INDEX_BITS as nat) == 0x100_0000_0000,
        pow2(EPOCH_BITS as nat) == 0x1_0000,
        pow2(STORAGE_ID_BITS as nat) == 0x100,
        pow2(EPOCH_OFFSET as nat) == 0x100_0000_0000,
        pow2(STORAGE_ID_OFFSET as nat) == 0x100_0000_0000_0000,
{
    lemma2_to64();
    lemma2_to64_rest();
}

/// The three fields lie side by side and fill the word: each starts where
/// the one below it ends, the widths add up to the 64 bits of the word, no
/// bit belongs to two masks and every bit belongs to one.
pub proof fn lemma_fields_tile_word()
    ensures
        EPOCH_OFFSET == INDEX_BITS,
        STORAGE_ID_OFFSET == EPOCH_OFFSET + EPOCH_BITS,
        INDEX_BITS + EPOCH_BITS + STORAGE_ID_BITS == 64,
        INDEX_BITS + EPOCH_BITS + STORAGE_ID_BITS == u64::BITS,
        INDEX_MASK == pow2(INDEX_BITS as nat) - 1,
        EPOCH_MASK == (pow2(EPOCH_BITS as nat) - 1) * pow2(EPOCH_OFFSET as nat),
        STORAGE_ID_MASK == (pow2(STORAGE_ID_BITS as nat) - 1) * pow2(STORAGE_ID_OFFSET as nat),
        INDEX_MASK & EPOCH_MASK == 0,
        INDEX_MASK & STORAGE_ID_MASK == 0,
        EPOCH_MASK & STORAGE_ID_MASK == 0,
        INDEX_MASK | EPOCH_MASK | STORAGE_ID_MASK == u64::MAX,
{
    lemma_layout_powers();
    assert(INDEX_MASK & EPOCH_MASK == 0) by (bit_vector);
    assert(INDEX_MASK & STORAGE_ID_MASK == 0) by (bit_vector);
    assert(EPOCH_MASK & STORAGE_ID_MASK == 0) by (bit_vector);
    assert(INDEX_MASK | EPOCH_MASK | STORAGE_ID_MASK == u64::MAX) by (bit_vector);
}

/// The types that carry an epoch and a storage id have exactly as many bits
/// as their fields. They are wide enough to give back whatever a field
/// holds, and no value of theirs is too large to be stored.
pub proof fn lemma_field_types_match()
    ensures
        size_of::<Epoch>() * 8 >= EPOCH_BITS,
        size_of::<StorageId>() * 8 >= STORAGE_ID_BITS,
        Epoch::BITS == EPOCH_BITS,
        StorageId::BITS == STORAGE_ID_BITS,
        Epoch::MAX == pow2(EPOCH_BITS as nat) - 1,
        StorageId::MAX == pow2(STORAGE_ID_BITS as nat) - 1,
{
    broadcast use layout_of_primitives;

    lemma_layout_powers();
}

} // verus!
