//! Fiber runtime — cooperative coroutines (PHP 8.1 Fiber semantics).
//!
//! Object layout (allocated via __rt_heap_alloc, "object instance" kind):
//!
//! | Offset | Size | Field             | Notes                                 |
//! |--------|------|-------------------|---------------------------------------|
//! | -8     | 8    | heap kind = 4     | written by allocator                  |
//! | 0      | 8    | class_id          | runtime class id of `Fiber`           |
//! | 8      | 8    | state             | 0=NotStarted 1=Running 2=Suspended 3=Terminated |
//! | 16     | 8    | stack_base        | low address of fiber stack (heap ptr) |
//! | 24     | 8    | stack_top         | high address (initial SP, 16-aligned) |
//! | 32     | 8    | stack_size        | total bytes of the stack region       |
//! | 40     | 8    | saved_sp          | SP saved when fiber is not running    |
//! | 48     | 8    | callable          | closure/function pointer              |
//! | 56     | 8    | callable_wrapper  | generated Fiber entry ABI adapter     |
//! | 64     | 8    | caller            | Fiber* of resumer (NULL = main)       |
//! | 72     | 16   | transfer_value    | mixed cell — value in transit         |
//! | 88     | 8    | pending_throw     | Throwable* to rethrow on resume       |
//! | 96     | 8    | own_exc_head      | saved _exc_handler_top for this fiber |
//! | 104    | 8    | own_call_frame    | saved _exc_call_frame_top for this fiber |
//! | 112    | 56   | start_args[0..7]  | up to 7 Mixed pointers passed to start() (one per AArch64 int arg-reg minus $this) |
//! | 168    | 8    | user_arg_max      | how many start_args slots `start()` may write — leaves trailing slots untouched so `new Fiber(use(...))` captures survive |
//! | 176    | 56   | float_args[0..7]  | parallel slot file for float captures (loaded into d0..d6 by the trampoline) |
//!
//! Total payload = 232 bytes.

pub mod api;

use vstd::prelude::*;
use crate::codegen::platform::Arch;

verus! {

// Fiber object field offsets
pub const FIBER_STATE_OFFSET: i32 = 8;
pub const FIBER_STACK_BASE_OFFSET: i32 = 16;
pub const FIBER_STACK_TOP_OFFSET: i32 = 24;
pub const FIBER_STACK_SIZE_OFFSET: i32 = 32;
pub const FIBER_SAVED_SP_OFFSET: i32 = 40;
pub const FIBER_CALLABLE_OFFSET: i32 = 48;
pub const FIBER_CALLABLE_WRAPPER_OFFSET: i32 = 56;
pub const FIBER_CALLER_OFFSET: i32 = 64;
pub const FIBER_TRANSFER_VALUE_OFFSET: i32 = 72;
pub const FIBER_PENDING_THROW_OFFSET: i32 = 88;
pub const FIBER_OWN_EXC_HEAD_OFFSET: i32 = 96;
pub const FIBER_OWN_CALL_FRAME_OFFSET: i32 = 104;
pub const FIBER_START_ARGS_OFFSET: i32 = 112;
pub const FIBER_START_ARGS_MAX: i32 = 7;
pub const FIBER_USER_ARG_MAX_OFFSET: i32 = 168;
pub const FIBER_FLOAT_ARGS_OFFSET: i32 = 176;
pub const FIBER_FLOAT_ARGS_MAX: i32 = 7;
pub const FIBER_OBJECT_SIZE: i32 = 232;

/// The fiber payload follows the layout table: the fields lie back to back (8 bytes
/// each, 16 for the transfer cell, 8 per start and float argument slot), the argument
/// slot files hold 7 slots each, and the last field ends at the 232-byte payload size.
pub proof fn lemma_fiber_layout_is_contiguous()
    ensures
        FIBER_STATE_OFFSET + 8 == FIBER_STACK_BASE_OFFSET,
        FIBER_STACK_BASE_OFFSET + 8 == FIBER_STACK_TOP_OFFSET,
        FIBER_STACK_TOP_OFFSET + 8 == FIBER_STACK_SIZE_OFFSET,
        FIBER_STACK_SIZE_OFFSET + 8 == FIBER_SAVED_SP_OFFSET,
        FIBER_SAVED_SP_OFFSET + 8 == FIBER_CALLABLE_OFFSET,
        FIBER_CALLABLE_OFFSET + 8 == FIBER_CALLABLE_WRAPPER_OFFSET,
        FIBER_CALLABLE_WRAPPER_OFFSET + 8 == FIBER_CALLER_OFFSET,
        FIBER_CALLER_OFFSET + 8 == FIBER_TRANSFER_VALUE_OFFSET,
        FIBER_TRANSFER_VALUE_OFFSET + 16 == FIBER_PENDING_THROW_OFFSET,
        FIBER_PENDING_THROW_OFFSET + 8 == FIBER_OWN_EXC_HEAD_OFFSET,
        FIBER_OWN_EXC_HEAD_OFFSET + 8 == FIBER_OWN_CALL_FRAME_OFFSET,
        FIBER_OWN_CALL_FRAME_OFFSET + 8 == FIBER_START_ARGS_OFFSET,
        FIBER_START_ARGS_OFFSET + 8 * FIBER_START_ARGS_MAX == FIBER_USER_ARG_MAX_OFFSET,
        FIBER_USER_ARG_MAX_OFFSET + 8 == FIBER_FLOAT_ARGS_OFFSET,
        FIBER_FLOAT_ARGS_OFFSET + 8 * FIBER_FLOAT_ARGS_MAX == FIBER_OBJECT_SIZE,
        FIBER_START_ARGS_MAX == 7 && FIBER_FLOAT_ARGS_MAX == 7,
{
}

// Lifecycle states (stored in FIBER_STATE_OFFSET)
pub const FIBER_STATE_NOT_STARTED: i32 = 0;
pub const FIBER_STATE_RUNNING: i32 = 1;
pub const FIBER_STATE_SUSPENDED: i32 = 2;
pub const FIBER_STATE_TERMINATED: i32 = 3;

// Default per-fiber stack size
pub const FIBER_DEFAULT_STACK_SIZE: i32 = 256 * 1024;

/// Size in bytes of the register-save frame that the context switch restores when it
/// first enters a fiber: AArch64 saves x19-x30 and d8-d15 (20 eight-byte slots);
/// x86_64 saves rbx, rbp and r12-r15 plus the return address, padded to 16 bytes.
pub open spec fn spec_fiber_initial_stack_frame_bytes(arch: Arch) -> i64 {
    match arch {
        Arch::AArch64 => 160,
        Arch::X86_64 => 64,
    }
}

/// Offset inside that frame of the slot the switch returns through (saved x30 on
/// AArch64, the return address above the six saved registers on x86_64).
pub open spec fn spec_fiber_initial_entry_offset(arch: Arch) -> i64 {
    match arch {
        Arch::AArch64 => 88,
        Arch::X86_64 => 48,
    }
}

/// Returns the size of the initial context-switch frame of a fresh fiber stack.
pub fn fiber_initial_stack_frame_bytes(arch: Arch) -> (n: i64)
    ensures
        n == spec_fiber_initial_stack_frame_bytes(arch),
{
    match arch {
        Arch::AArch64 => 160,
        Arch::X86_64 => 64,
    }
}

/// Returns the offset of the entry-address slot in the initial context-switch frame.
pub fn fiber_initial_entry_offset(arch: Arch) -> (n: i64)
    ensures
        n == spec_fiber_initial_entry_offset(arch),
{
    match arch {
        Arch::AArch64 => 88,
        Arch::X86_64 => 48,
    }
}

} // verus!
