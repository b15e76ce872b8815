use elephc::codegen::sentinels::{NULL_SENTINEL, UNINITIALIZED_TYPED_PROPERTY_SENTINEL};

/// Locks the canonical null sentinel bit pattern shared by every producer and consumer.
#[test]
fn null_sentinel_constant_value() {
    assert_eq!(NULL_SENTINEL, 0x7fff_ffff_ffff_fffe_u64 as i64);
    assert_eq!(NULL_SENTINEL, i64::MAX - 1);
}

/// Locks the uninitialized-typed-property sentinel bit pattern used in property metadata.
#[test]
fn uninitialized_property_sentinel_constant_value() {
    assert_eq!(
        UNINITIALIZED_TYPED_PROPERTY_SENTINEL,
        0x7fff_ffff_ffff_fffd_u64 as i64
    );
    assert_eq!(UNINITIALIZED_TYPED_PROPERTY_SENTINEL, i64::MAX - 2);
}
