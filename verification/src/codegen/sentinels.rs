//! Purpose:
//! Canonical home for the in-band runtime sentinel constants shared across codegen.
//! Owns the null sentinel and the uninitialized-typed-property sentinel.
//!
//! Key details:
//! - The null sentinel is an in-band i64 (`PHP_INT_MAX - 1`): every i64 bit pattern is a valid
//!   PHP int, so the real integer `9223372036854775806` collides with it. The structural fix
//!   (`NullRepr::Tagged`) replaces sentinel checks with a tagged scalar representation.
//! - The uninitialized-property sentinel lives in a separate metadata word (`offset + 8`),
//!   never in the value word, so it does not collide with property values.

use vstd::prelude::*;

verus! {

/// In-band null marker for unboxed scalar slots: `0x7fff_ffff_ffff_fffe` (= `PHP_INT_MAX - 1`).
pub const NULL_SENTINEL: i64 = 0x7fff_ffff_ffff_fffe;

/// Marker stored in a typed property's metadata word while the property is uninitialized:
/// `0x7fff_ffff_ffff_fffd` (= `PHP_INT_MAX - 2`).
pub const UNINITIALIZED_TYPED_PROPERTY_SENTINEL: i64 = 0x7fff_ffff_ffff_fffd;

/// The null sentinel is `PHP_INT_MAX - 1` and the uninitialized-property sentinel is
/// `PHP_INT_MAX - 2`, so the two markers never coincide.
pub proof fn lemma_sentinels_are_distinct_top_values()
    ensures
        NULL_SENTINEL == i64::MAX - 1,
        UNINITIALIZED_TYPED_PROPERTY_SENTINEL == i64::MAX - 2,
        NULL_SENTINEL != UNINITIALIZED_TYPED_PROPERTY_SENTINEL,
{
}

} // verus!
