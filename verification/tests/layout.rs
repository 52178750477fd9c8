use pointer_data::layout::{
    EPOCH_BITS, EPOCH_MASK, EPOCH_OFFSET, INDEX_BITS, INDEX_MASK, STORAGE_ID_BITS,
    STORAGE_ID_MASK, STORAGE_ID_OFFSET,
};
use pointer_data::{Epoch, StorageId};

#[test]
fn widths_are_forty_sixteen_and_eight() {
    assert_eq!(INDEX_BITS, 40);
    assert_eq!(EPOCH_BITS, 16);
    assert_eq!(STORAGE_ID_BITS, 8);
    assert_eq!(u32::from(INDEX_BITS + EPOCH_BITS + STORAGE_ID_BITS), u64::BITS);
}

#[test]
fn each_field_starts_where_the_one_below_ends() {
    assert_eq!(EPOCH_OFFSET, 40);
    assert_eq!(STORAGE_ID_OFFSET, 56);
    assert_eq!(EPOCH_OFFSET, INDEX_BITS);
    assert_eq!(STORAGE_ID_OFFSET, EPOCH_OFFSET + EPOCH_BITS);
}

#[test]
fn masks_follow_from_widths_and_offsets() {
    assert_eq!(INDEX_MASK, (1u64 << INDEX_BITS) - 1);
    assert_eq!(EPOCH_MASK, ((1u64 << EPOCH_BITS) - 1) << EPOCH_OFFSET);
    assert_eq!(STORAGE_ID_MASK, ((1u64 << STORAGE_ID_BITS) - 1) << STORAGE_ID_OFFSET);
    assert_eq!(INDEX_MASK, 1_099_511_627_775);
    assert_eq!(EPOCH_MASK, 72_056_494_526_300_160);
    assert_eq!(STORAGE_ID_MASK, 18_374_686_479_671_623_680);
}

#[test]
fn masks_share_no_bit_and_leave_none_out() {
    assert_eq!(INDEX_MASK & EPOCH_MASK, 0);
    assert_eq!(INDEX_MASK & STORAGE_ID_MASK, 0);
    assert_eq!(EPOCH_MASK & STORAGE_ID_MASK, 0);
    assert_eq!(INDEX_MASK | EPOCH_MASK | STORAGE_ID_MASK, u64::MAX);
    assert_eq!(
        INDEX_MASK.count_ones() + EPOCH_MASK.count_ones() + STORAGE_ID_MASK.count_ones(),
        64
    );
}

#[test]
fn field_types_are_as_wide_as_their_fields() {
    assert_eq!(Epoch::BITS, u32::from(EPOCH_BITS));
    assert_eq!(StorageId::BITS, u32::from(STORAGE_ID_BITS));
    assert_eq!(u64::from(Epoch::MAX), EPOCH_MASK >> EPOCH_OFFSET);
    assert_eq!(u64::from(StorageId::MAX), STORAGE_ID_MASK >> STORAGE_ID_OFFSET);
}
