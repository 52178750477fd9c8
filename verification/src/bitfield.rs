//! The packed reference and its accessors.

use vstd::prelude::*;

use crate::fields::{
    lemma_pack_unpack, lemma_read, lemma_unpack_injective, lemma_write_epoch, lemma_write_index,
    lemma_write_storage_id, unpack, Fields,
};
use crate::layout::{
    lemma_layout_powers, EPOCH_MASK, EPOCH_OFFSET, INDEX_MASK, STORAGE_ID_MASK,
    STORAGE_ID_OFFSET,
};
use crate::{Epoch, StorageId};

verus! {

/// A slot index, the slot's epoch and a storage id in one 64-bit word.
///
/// A value owns nothing and is copied freely; two values are equal when
/// their words are.
#[derive(Copy, Clone, Debug, PartialEq, Eq, Structural)]
pub struct PointerData(u64);

impl View for PointerData {
    type V = Fields;

    open spec fn view(&self) -> Fields {
        unpack(self.word())
    }
}

impl PointerData {
    /// The word as it is stored.
    pub closed spec fn word(self) -> u64 {
        self.0
    }

    /// The index came in as a `usize`, so it goes out as one.
    #[verifier::type_invariant]
    spec fn index_is_addressable(self) -> bool {
        self@.index <= usize::MAX
    }

    /// Two references that say the same are the same value.
    pub proof fn lemma_same_fields(self, other: Self)
        requires
            self@ == other@,
        ensures
            self == other,
    {
        lemma_unpack_injective(self.0, other.0);
    }

    /// Packs `index`, `epoch` and `storage` into a reference.
    ///
    /// The index has to fit in 40 bits; [`PointerData::try_new`] takes any.
    #[inline]
    pub fn new(index: usize, epoch: Epoch, storage: StorageId) -> (p: Self)
        requires
            index <= INDEX_MASK,
        ensures
            p@ == (Fields { index: index as nat, epoch: epoch as nat, storage_id: storage as nat }),
            p.word() == p@.pack(),
    {
        proof {
            lemma_layout_powers();
        }
        let mut p = PointerData(0);
        p.set_index(index);
        p.set_epoch(epoch);
        p.set_storage_id(storage);
        proof {
            lemma_pack_unpack(p.0);
        }
        p
    }

    /// Packs `index`, `epoch` and `storage` into a reference if the index
    /// fits in 40 bits, and gives `None` if it does not.
    #[inline]
    pub fn try_new(index: usize, epoch: Epoch, storage: StorageId) -> (made: Option<Self>)
        ensures
            made.is_some() <==> index <= INDEX_MASK,
            made matches Some(p) ==> p@ == (Fields {
                index: index as nat,
                epoch: epoch as nat,
                storage_id: storage as nat,
            }),
    {
        if index as u64 <= INDEX_MASK {
            Some(Self::new(index, epoch, storage))
        } else {
            None
        }
    }

    /// The index of the slot.
    #[inline]
    pub fn get_index(&self) -> (index: usize)
        ensures
            index == self@.index,
            index <= INDEX_MASK,
    {
        proof {
            use_type_invariant(&*self);
            lemma_read(self.0);
        }
        (self.0 & INDEX_MASK) as usize
    }

    /// The epoch that the slot had when the reference was made.
    #[inline]
    pub fn get_epoch(&self) -> (epoch: Epoch)
        ensures
            epoch == self@.epoch,
    {
        proof {
            lemma_read(self.0);
        }
        ((self.0 & EPOCH_MASK) >> EPOCH_OFFSET) as Epoch
    }

    /// The id of the storage that the slot lives in.
    #[inline]
    pub fn get_storage_id(&self) -> (storage: StorageId)
        ensures
            storage == self@.storage_id,
    {
        proof {
            lemma_read(self.0);
        }
        ((self.0 & STORAGE_ID_MASK) >> STORAGE_ID_OFFSET) as StorageId
    }

    /// Makes the reference point at slot `value`. Epoch and storage id stay
    /// as they are, and so does the whole reference if `value` is the index
    /// it has.
    ///
    /// `value` has to fit in 40 bits; [`PointerData::try_set_index`] takes any.
    #[inline]
    pub fn set_index(&mut self, value: usize)
        requires
            value <= INDEX_MASK,
        ensures
            final(self)@.index == value,
            final(self)@.epoch == old(self)@.epoch,
            final(self)@.storage_id == old(self)@.storage_id,
            value == old(self)@.index ==> *final(self) == *old(self),
    {
        let word = (self.0 & !INDEX_MASK) | (value as u64);
        proof {
            lemma_write_index(self.0, value as u64);
            if value == self@.index {
                lemma_unpack_injective(word, self.0);
            }
        }
        self.0 = word;
    }

    /// Makes the reference point at slot `value` if `value` fits in 40 bits,
    /// and says whether it did. A value that does not fit changes nothing.
    #[inline]
    pub fn try_set_index(&mut self, value: usize) -> (done: bool)
        ensures
            done <==> value <= INDEX_MASK,
            done ==> final(self)@.index == value,
            final(self)@.epoch == old(self)@.epoch,
            final(self)@.storage_id == old(self)@.storage_id,
            !done || value == old(self)@.index ==> *final(self) == *old(self),
    {
        if value as u64 <= INDEX_MASK {
            self.set_index(value);
            true
        } else {
            false
        }
    }

    /// Stores `value` as the epoch. Index and storage id stay as they are,
    /// and so does the whole reference if `value` is the epoch it has.
    #[inline]
    pub fn set_epoch(&mut self, value: Epoch)
        ensures
            final(self)@.index == old(self)@.index,
            final(self)@.epoch == value,
            final(self)@.storage_id == old(self)@.storage_id,
            value == old(self)@.epoch ==> *final(self) == *old(self),
    {
        let word = (self.0 & !EPOCH_MASK) | ((value as u64) << EPOCH_OFFSET);
        proof {
            use_type_invariant(&*self);
            lemma_write_epoch(self.0, value as u64);
            if value == self@.epoch {
                lemma_unpack_injective(word, self.0);
            }
        }
        self.0 = word;
    }

    /// Stores `value` as the storage id. Index and epoch stay as they are,
    /// and so does the whole reference if `value` is the storage id it has.
    #[inline]
    pub fn set_storage_id(&mut self, value: StorageId)
        ensures
            final(self)@.index == old(self)@.index,
            final(self)@.epoch == old(self)@.epoch,
            final(self)@.storage_id == value,
            value == old(self)@.storage_id ==> *final(self) == *old(self),
    {
        let word = (self.0 & !STORAGE_ID_MASK) | ((value as u64) << STORAGE_ID_OFFSET);
        proof {
            use_type_invariant(&*self);
            lemma_write_storage_id(self.0, value as u64);
            if value == self@.storage_id {
                lemma_unpack_injective(word, self.0);
            }
        }
        self.0 = word;
    }
}

} // verus!
