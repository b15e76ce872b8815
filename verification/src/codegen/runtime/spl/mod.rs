//! Purpose:
//! Collects runtime helpers for SPL classes whose PHP surface is backed by custom storage.
//! The current module owns the Phase 4 doubly-linked-list family payload layout.
//!
//! Key details:
//! - SPL payload offsets are shared with object cleanup and allocation helpers.

use vstd::prelude::*;

verus! {

/// Offset of the storage pointer in an `SplDoublyLinkedList` payload.
pub const SPL_DLL_STORAGE_OFFSET: usize = 8;
/// Offset of the iteration cursor in an `SplDoublyLinkedList` payload.
pub const SPL_DLL_ITER_INDEX_OFFSET: usize = 16;
/// Offset of the iteration mode in an `SplDoublyLinkedList` payload.
pub const SPL_DLL_ITER_MODE_OFFSET: usize = 24;
/// Offset of the storage pointer in an `SplFixedArray` payload.
pub const SPL_FIXED_STORAGE_OFFSET: usize = 8;

} // verus!
