use ferrite_forward::arith::{div_ceil_u32, saturating_mul_u32};
use ferrite_forward::ids::{
    ArenaSlotIdx, BindingIdx, BucketM, KDimI32, LayerId, LogicalBlockIdx, NumTokens,
    PhysicalBlockIdx, QTokenIdx, SeqIdx, SlotInBlock,
};
use ferrite_forward::text::{push_decimal, push_signed_decimal};

#[test]
fn newtypes_hold_their_numbers() {
    assert_eq!(LayerId::from(7).get(), 7);
    assert_eq!(ArenaSlotIdx::from(8).get(), 8);
    assert_eq!(BucketM::from(9).get(), 9);
    assert_eq!(NumTokens::from(10).get(), 10);
    assert_eq!(BindingIdx::from(11).get(), 11);
    assert_eq!(KDimI32::from(-12).get(), -12);
    assert_eq!(PhysicalBlockIdx::from(1), PhysicalBlockIdx(1));
    assert_eq!(LogicalBlockIdx::from(2), LogicalBlockIdx(2));
    assert_eq!(SlotInBlock::from(3), SlotInBlock(3));
    assert_eq!(SeqIdx::from(4), SeqIdx(4));
    assert_eq!(QTokenIdx::from(5), QTokenIdx(5));
}

#[test]
fn rounding_and_capping() {
    assert_eq!(div_ceil_u32(0, 3), 0);
    assert_eq!(div_ceil_u32(9, 3), 3);
    assert_eq!(div_ceil_u32(10, 3), 4);
    assert_eq!(div_ceil_u32(u32::MAX, u32::MAX), 1);
    assert_eq!(saturating_mul_u32(65536, 65535), 4294901760);
    assert_eq!(saturating_mul_u32(65536, 65536), u32::MAX);
}

#[test]
fn numbers_in_decimal() {
    let mut s = String::from("n=");
    push_decimal(&mut s, 0);
    push_decimal(&mut s, 1234567890);
    push_decimal(&mut s, u64::MAX);
    assert_eq!(s, "n=0123456789018446744073709551615");
    let mut t = String::new();
    push_signed_decimal(&mut t, -5);
    push_signed_decimal(&mut t, 6);
    push_signed_decimal(&mut t, i64::MIN);
    assert_eq!(t, "-56-9223372036854775808");
}
