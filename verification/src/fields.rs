//! The three numbers behind a packed reference, and how a word carries them.

use vstd::arithmetic::power2::pow2;
use vstd::prelude::*;

use crate::layout::{
    field, lemma_layout_powers, EPOCH_BITS, EPOCH_MASK, EPOCH_OFFSET, INDEX_BITS, INDEX_MASK,
    STORAGE_ID_BITS, STORAGE_ID_MASK, STORAGE_ID_OFFSET,
};
use crate::{Epoch, StorageId};

verus! {

/// What a packed reference says, as three numbers: which slot, of which
/// generation, in which storage.
pub struct Fields {
    pub index: nat,
    pub epoch: nat,
    pub storage_id: nat,
}

impl Fields {
    /// Each number fits the field that is to hold it.
    pub open spec fn fits(self) -> bool {
        &&& self.index < pow2(INDEX_BITS as nat)
        &&& self.epoch < pow2(EPOCH_BITS as nat)
        &&& self.storage_id < pow2(STORAGE_ID_BITS as nat)
    }

    /// The word that carries each number at the offset of its field.
    pub open spec fn pack(self) -> nat {
        self.index + self.epoch * pow2(EPOCH_OFFSET as nat) + self.storage_id * pow2(
            STORAGE_ID_OFFSET as nat,
        )
    }
}

/// The three numbers that a word carries.
pub open spec fn unpack(word: u64) -> Fields {
    Fields {
        index: field(word, 0, INDEX_BITS),
        epoch: field(word, EPOCH_OFFSET, EPOCH_BITS),
        storage_id: field(word, STORAGE_ID_OFFSET, STORAGE_ID_BITS),
    }
}

/// Reading a field with its mask and offset gives the number that the
/// field's bits spell, and that number fits the type it is handed out in.
pub(crate) proof fn lemma_read(word: u64)
    ensures
        unpack(word).index == word & INDEX_MASK,
        unpack(word).epoch == (word & EPOCH_MASK) >> EPOCH_OFFSET,
        unpack(word).storage_id == (word & STORAGE_ID_MASK) >> STORAGE_ID_OFFSET,
        unpack(word).index <= INDEX_MASK,
        unpack(word).epoch <= Epoch::MAX,
        unpack(word).storage_id <= StorageId::MAX,
{
    lemma_layout_powers();
    assert(word & INDEX_MASK == word % 0x100_0000_0000) by (bit_vector);
    assert((word & EPOCH_MASK) >> EPOCH_OFFSET == (word / 0x100_0000_0000) % 0x1_0000)
        by (bit_vector);
    assert((word & STORAGE_ID_MASK) >> STORAGE_ID_OFFSET == (word / 0x100_0000_0000_0000) % 0x100)
        by (bit_vector);
}

/// Clearing the index bits and putting `value` in their place stores
/// `value` as the index and leaves epoch and storage id alone.
pub(crate) proof fn lemma_write_index(word: u64, value: u64)
    requires
        value <= INDEX_MASK,
    ensures
        unpack((word & !INDEX_MASK) | value) == (Fields { index: value as nat, ..unpack(word) }),
{
    let after = (word & !INDEX_MASK) | value;
    lemma_read(word);
    lemma_read(after);
    assert(after & INDEX_MASK == value) by (bit_vector)
        requires
            after == (word & !INDEX_MASK) | value,
            value <= INDEX_MASK,
    ;
    assert((after & EPOCH_MASK) >> EPOCH_OFFSET == (word & EPOCH_MASK) >> EPOCH_OFFSET)
        by (bit_vector)
        requires
            after == (word & !INDEX_MASK) | value,
            value <= INDEX_MASK,
    ;
    assert((after & STORAGE_ID_MASK) >> STORAGE_ID_OFFSET == (word & STORAGE_ID_MASK)
        >> STORAGE_ID_OFFSET) by (bit_vector)
        requires
            after == (word & !INDEX_MASK) | value,
            value <= INDEX_MASK,
    ;
}

/// Clearing the epoch bits and putting `value`, moved up to the field's
/// offset, in their place stores `value` as the epoch and leaves index and
/// storage id alone.
pub(crate) proof fn lemma_write_epoch(word: u64, value: u64)
    requires
        value <= Epoch::MAX,
    ensures
        unpack((word & !EPOCH_MASK) | (value << EPOCH_OFFSET)) == (Fields {
            epoch: value as nat,
            ..unpack(word)
        }),
{
    let after = (word & !EPOCH_MASK) | (value << EPOCH_OFFSET);
    lemma_read(word);
    lemma_read(after);
    assert(after & INDEX_MASK == word & INDEX_MASK) by (bit_vector)
        requires
            after == (word & !EPOCH_MASK) | (value << EPOCH_OFFSET),
            value <= 0xffff,
    ;
    assert((after & EPOCH_MASK) >> EPOCH_OFFSET == value) by (bit_vector)
        requires
            after == (word & !EPOCH_MASK) | (value << EPOCH_OFFSET),
            value <= 0xffff,
    ;
    assert((after & STORAGE_ID_MASK) >> STORAGE_ID_OFFSET == (word & STORAGE_ID_MASK)
        >> STORAGE_ID_OFFSET) by (bit_vector)
        requires
            after == (word & !EPOCH_MASK) | (value << EPOCH_OFFSET),
            value <= 0xffff,
    ;
}

/// Clearing the storage id bits and putting `value`, moved up to the
/// field's offset, in their place stores `value` as the storage id and
/// leaves index and epoch alone.
pub(crate) proof fn lemma_write_storage_id(word: u64, value: u64)
    requires
        value <= StorageId::MAX,
    ensures
        unpack((word & !STORAGE_ID_MASK) | (value << STORAGE_ID_OFFSET)) == (Fields {
            storage_id: value as nat,
            ..unpack(word)
        }),
{
    let after = (word & !STORAGE_ID_MASK) | (value << STORAGE_ID_OFFSET);
    lemma_read(word);
    lemma_read(after);
    assert(after & INDEX_MASK == word & INDEX_MASK) by (bit_vector)
        requires
            after == (word & !STORAGE_ID_MASK) | (value << STORAGE_ID_OFFSET),
            value <= 0xff,
    ;
    assert((after & EPOCH_MASK) >> EPOCH_OFFSET == (word & EPOCH_MASK) >> EPOCH_OFFSET)
        by (bit_vector)
        requires
            after == (word & !STORAGE_ID_MASK) | (value << STORAGE_ID_OFFSET),
            value <= 0xff,
    ;
    assert((after & STORAGE_ID_MASK) >> STORAGE_ID_OFFSET == value) by (bit_vector)
        requires
            after == (word & !STORAGE_ID_MASK) | (value << STORAGE_ID_OFFSET),
            value <= 0xff,
    ;
}

/// What a word carries always fits: there is no word that spells a
/// number too large for its field.
pub proof fn lemma_unpack_fits(word: u64)
    ensures
        unpack(word).fits(),
{
    lemma_layout_powers();
    lemma_read(word);
}

/// Packing what a word carries gives the word back: every bit of the word
/// belongs to one of the three fields.
pub proof fn lemma_pack_unpack(word: u64)
    ensures
        unpack(word).pack() == word,
{
    lemma_layout_powers();
    lemma_read(word);
    assert(word == (word & INDEX_MASK) + ((word & EPOCH_MASK) >> EPOCH_OFFSET) * 0x100_0000_0000
        + ((word & STORAGE_ID_MASK) >> STORAGE_ID_OFFSET) * 0x100_0000_0000_0000) by (bit_vector);
}

/// Round trip: three numbers that fit their fields pack into a 64-bit
/// word, and that word carries exactly those three numbers.
pub proof fn lemma_unpack_pack(fields: Fields)
    requires
        fields.fits(),
    ensures
        fields.pack() <= u64::MAX,
        unpack(fields.pack() as u64) == fields,
{
    lemma_layout_powers();
}

/// Two words that carry the same three numbers are the same word.
pub proof fn lemma_unpack_injective(a: u64, b: u64)
    requires
        unpack(a) == unpack(b),
    ensures
        a == b,
{
    lemma_pack_unpack(a);
    lemma_pack_unpack(b);
}

} // verus!
