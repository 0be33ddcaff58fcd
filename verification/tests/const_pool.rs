use wasmi_store::const_pool::{ConstPool, ConstRef};
use wasmi_store::index::Index;
use wasmi_store::untyped::UntypedValue;

#[test]
fn empty_pool_has_no_constants() {
    let pool = ConstPool::default();
    assert!(pool.is_empty());
    assert_eq!(pool.len(), 0);
}

#[test]
fn equal_values_share_one_handle() {
    let mut pool = ConstPool::default();
    let first = pool.alloc_const(UntypedValue::from_i32(7));
    let second = pool.alloc_const(UntypedValue::from_i32(7));
    assert_eq!(first, second);
    assert_eq!(pool.len(), 1);
    assert_eq!(pool.resolve(first), Some(UntypedValue::from_i32(7)));
}

#[test]
fn distinct_values_get_distinct_handles() {
    let mut pool = ConstPool::default();
    let one = pool.alloc_const(UntypedValue::from_i32(1));
    let two = pool.alloc_const(UntypedValue::from_i32(2));
    assert_ne!(one, two);
    assert_eq!(pool.len(), 2);
}

#[test]
fn resolve_round_trips_every_allocation() {
    let mut pool = ConstPool::default();
    let values = [
        UntypedValue::from_i32(-5),
        UntypedValue::from_i64(1 << 40),
        UntypedValue::from_u32(u32::MAX),
        UntypedValue::from_u64(u64::MAX),
        UntypedValue::from_bool(true),
    ];
    let mut handles = Vec::new();
    for value in values {
        handles.push(pool.alloc_const(value));
    }
    for (handle, value) in handles.iter().zip(values.iter()) {
        assert_eq!(pool.resolve(*handle), Some(*value));
    }
}

#[test]
fn handles_are_handed_out_in_allocation_order() {
    let mut pool = ConstPool::default();
    let first = pool.alloc_const(UntypedValue::from_u32(10));
    let second = pool.alloc_const(UntypedValue::from_u32(20));
    let third = pool.alloc_const(UntypedValue::from_u32(10));
    assert_eq!(first.into_inner(), 0);
    assert_eq!(second.into_inner(), 1);
    assert_eq!(third.into_inner(), 0);
}

#[test]
fn resolve_out_of_range_is_none() {
    let mut pool = ConstPool::default();
    pool.alloc_const(UntypedValue::from_i32(1));
    assert_eq!(pool.resolve(ConstRef(5)), None);
}

#[test]
fn const_ref_round_trips_through_usize() {
    let handle = ConstRef::from_usize(9);
    assert_eq!(handle.into_usize(), 9);
    assert_eq!(handle.into_inner(), 9);
}

#[test]
fn untyped_encoding_matches_the_interpreter_core() {
    assert_eq!(
        UntypedValue::from_i32(-1).to_bits(),
        wasmi_core::RawVal::from(-1i32).to_bits64()
    );
    assert_eq!(
        UntypedValue::from_i64(-2).to_bits(),
        wasmi_core::RawVal::from(-2i64).to_bits64()
    );
    assert_eq!(
        UntypedValue::from_u32(17).to_bits(),
        wasmi_core::RawVal::from(17u32).to_bits64()
    );
    assert_eq!(
        UntypedValue::from_u64(99).to_bits(),
        wasmi_core::RawVal::from(99u64).to_bits64()
    );
    assert_eq!(
        UntypedValue::from_bool(true).to_bits(),
        wasmi_core::RawVal::from(true).to_bits64()
    );
}

#[test]
fn from_i32_zero_extends_the_bit_pattern() {
    assert_eq!(UntypedValue::from_i32(-1).to_bits(), 0xFFFF_FFFF);
    assert_eq!(UntypedValue::from_i32(5).to_bits(), 5);
}

#[test]
fn from_bool_encodes_zero_or_one() {
    assert_eq!(UntypedValue::from_bool(false).to_bits(), 0);
    assert_eq!(UntypedValue::from_bool(true).to_bits(), 1);
}

#[test]
fn equal_bit_patterns_from_different_types_deduplicate() {
    let mut pool = ConstPool::default();
    let as_u64 = pool.alloc_const(UntypedValue::from_u64(1));
    let as_bool = pool.alloc_const(UntypedValue::from_bool(true));
    assert_eq!(as_u64, as_bool);
    assert_eq!(pool.len(), 1);
}

#[test]
fn bits_round_trip() {
    let value = UntypedValue::from_bits(0xDEAD_BEEF_0000_0001);
    assert_eq!(value.to_bits(), 0xDEAD_BEEF_0000_0001);
}
