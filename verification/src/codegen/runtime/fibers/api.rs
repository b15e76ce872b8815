//! Fiber public-API runtime helpers.
//!
//! These are the functions the codegen will call when lowering Fiber method
//! invocations. Phase 1 wires up the *constructor*, which fully prepares a
//! fiber object and a fake initial frame so a future switch can resume into
//! `__rt_fiber_entry`. The remaining helpers (`start`, `resume`, `suspend`,
//! `throw`, `getCurrent`, `getReturn`, state predicates) are emitted as
//! placeholder stubs that link cleanly while later phases fill in semantics.

use vstd::prelude::*;
use crate::codegen::abi::{self, symbol_address, load_symbol_to_reg, store_reg_to_symbol};
use crate::codegen::emit::{Emitter, Line, ins, ins_int, ins_int2, ins_hex, label, global, comment};
use crate::codegen::platform::{Arch, Target};
use crate::codegen::machine::{
    Env, Machine, Instr, Operand, Address, Cond, decode, defines, find_char, find_label, label_from, read, run, step,
    lemma_step_instruction, lemma_step_passes, lemma_run_step, lemma_run_returned,
};
use crate::codegen::text::decimal;
use crate::codegen::text::join3;
use super::{
    fiber_initial_entry_offset, fiber_initial_stack_frame_bytes, spec_fiber_initial_entry_offset,
    spec_fiber_initial_stack_frame_bytes, FIBER_CALLABLE_OFFSET, FIBER_CALLABLE_WRAPPER_OFFSET,
    FIBER_CALLER_OFFSET, FIBER_DEFAULT_STACK_SIZE, FIBER_FLOAT_ARGS_MAX, FIBER_FLOAT_ARGS_OFFSET,
    FIBER_OBJECT_SIZE, FIBER_OWN_CALL_FRAME_OFFSET, FIBER_OWN_EXC_HEAD_OFFSET,
    FIBER_PENDING_THROW_OFFSET, FIBER_SAVED_SP_OFFSET, FIBER_STACK_BASE_OFFSET,
    FIBER_STACK_SIZE_OFFSET, FIBER_STACK_TOP_OFFSET, FIBER_START_ARGS_MAX,
    FIBER_START_ARGS_OFFSET, FIBER_STATE_NOT_STARTED, FIBER_STATE_OFFSET, FIBER_STATE_RUNNING,
    FIBER_STATE_SUSPENDED, FIBER_STATE_TERMINATED, FIBER_TRANSFER_VALUE_OFFSET,
    FIBER_USER_ARG_MAX_OFFSET,
};

verus! {

pub const X86_64_HEAP_MAGIC_HI32: u64 = 0x454C5048;

/// Appends to `out` the AArch64 stores that clear `n` consecutive fiber words starting at
/// field offset `base`.
pub open spec fn cleared_slots(out: Seq<Line>, base: int, n: nat) -> Seq<Line>
    decreases n,
{
    if n == 0 {
        out
    } else {
        cleared_slots(out, base, (n - 1) as nat).push(ins_int("str xzr, [x21, #", base + (n - 1) * 8, "]"))
    }
}

/// Clearing slots appends the same lines whatever the listing before them.
pub broadcast proof fn lemma_cleared_slots_append(out: Seq<Line>, base: int, n: nat)
    ensures
        #[trigger] cleared_slots(out, base, n) == out + cleared_slots(Seq::empty(), base, n),
    decreases n,
{
    if n == 0 {
        assert(out + Seq::<Line>::empty() =~= out);
    } else {
        lemma_cleared_slots_append(out, base, (n - 1) as nat);
        lemma_cleared_slots_append(Seq::empty(), base, (n - 1) as nat);
        assert(out + cleared_slots(Seq::empty(), base, n) =~= (out + cleared_slots(
            Seq::empty(),
            base,
            (n - 1) as nat,
        )).push(ins_int("str xzr, [x21, #", base + (n - 1) * 8, "]")));
    }
}

/// Appends to `out` the listing that `emit_fiber_throw_state_error` emits for target `t`.
pub open spec fn fiber_throw_state_error(out: Seq<Line>, t: Target) -> Seq<Line> {
    if t.arch == Arch::X86_64 {
        throw_state_error_x86_64(out, t)
    } else {
        fiber_throw_state_error_aarch64(out, t)
    }
}

/// Appends to `out` the AArch64 listing of `emit_fiber_throw_state_error`.
pub open spec fn fiber_throw_state_error_aarch64(out: Seq<Line>, t: Target) -> Seq<Line> {
    let out = out
        .push(Line::Blank)
        .push(comment("--- runtime: fiber_throw_state_error ---"))
        .push(global("__rt_fiber_throw_state_error"))
        .push(ins("sub sp, sp, #32"))
        .push(ins("stp x29, x30, [sp, #16]"))
        .push(ins("stp x19, x20, [sp]"))
        .push(ins("add x29, sp, #16"))
        .push(ins("mov x19, x0"))
        .push(ins("mov x20, x1"))
        .push(ins("mov x0, #24"))
        .push(ins("bl __rt_heap_alloc"))
        .push(ins("mov x9, #4"))
        .push(ins("str x9, [x0, #-8]"));
    let out = out + load_symbol_to_reg(t, "x9"@, "_fiber_error_class_id"@, 0);
    let out = out
        .push(ins("str x9, [x0]"))
        .push(ins("str x19, [x0, #8]"))
        .push(ins("str x20, [x0, #16]"));
    let out = out + store_reg_to_symbol(t, "x0"@, "_exc_value"@, 0);
    let out = out
        .push(ins("bl __rt_throw_current"))
        .push(ins("brk #0xfffe"));
    out
}

/// __rt_fiber_throw_state_error: allocate a `FiberError`, set its message, and
/// raise it through the standard exception runtime. Never returns.
/// Input:  x0 = message bytes pointer, x1 = message length
pub fn emit_fiber_throw_state_error(emitter: &mut Emitter)
    ensures
        final(emitter).target == old(emitter).target,
        final(emitter)@ == fiber_throw_state_error(old(emitter)@, old(emitter).target),
{
    if emitter.target.arch == Arch::X86_64 {
        emit_throw_state_error_x86_64(emitter);
        return;
    }
    emitter.blank();
    emitter.comment("--- runtime: fiber_throw_state_error ---");
    emitter.label_global("__rt_fiber_throw_state_error");
    emitter.instruction("sub sp, sp, #32");    // reserve frame plus saved-callee slots
    emitter.instruction("stp x29, x30, [sp, #16]");    // save frame pointer and return address
    emitter.instruction("stp x19, x20, [sp]");    // preserve caller's x19/x20 — we use them to cache the message across heap_alloc
    emitter.instruction("add x29, sp, #16");    // anchor the new frame pointer
    emitter.instruction("mov x19, x0");    // x19 = message bytes pointer (callee-saved across __rt_heap_alloc)
    emitter.instruction("mov x20, x1");    // x20 = message length (callee-saved across __rt_heap_alloc)
    emitter.instruction("mov x0, #24");    // FiberError object size (8 class_id + 16 message property)
    emitter.instruction("bl __rt_heap_alloc");    // x0 = freshly allocated payload pointer (heap header at -8)
    emitter.instruction("mov x9, #4");    // heap kind 4 = object instance
    emitter.instruction("str x9, [x0, #-8]");    // stamp the kind in the uniform heap header
    abi::emit_load_symbol_to_reg(emitter, "x9", "_fiber_error_class_id", 0);    // x9 = runtime class id of FiberError
    emitter.instruction("str x9, [x0]");    // store FiberError class id at the object header
    emitter.instruction("str x19, [x0, #8]");    // message property low half = bytes pointer (matches Exception's message slot layout)
    emitter.instruction("str x20, [x0, #16]");    // message property high half = byte length
    abi::emit_store_reg_to_symbol(emitter, "x0", "_exc_value", 0);    // _exc_value = the freshly built FiberError, matching the standard `throw` runtime contract
    emitter.instruction("bl __rt_throw_current");    // unwind into the active try/catch chain (no return)
    emitter.instruction("brk #0xfffe");    // defensive trap: __rt_throw_current must not return here
}

/// Appends to `out` the listing that `emit_fiber_construct` emits for target `t`.
pub open spec fn fiber_construct(out: Seq<Line>, t: Target) -> Seq<Line> {
    if t.arch == Arch::X86_64 {
        construct_x86_64(out, t)
    } else {
        fiber_construct_aarch64(out, t)
    }
}

/// Appends to `out` the AArch64 listing of `emit_fiber_construct`.
pub open spec fn fiber_construct_aarch64(out: Seq<Line>, t: Target) -> Seq<Line> {
    let initial_frame_bytes = spec_fiber_initial_stack_frame_bytes(t.arch);
    let initial_entry_offset = spec_fiber_initial_entry_offset(t.arch);
    let out = out
        .push(Line::Blank)
        .push(comment("--- runtime: fiber_construct ---"))
        .push(global("__rt_fiber_construct"))
        .push(ins("sub sp, sp, #64"))
        .push(ins("stp x29, x30, [sp, #48]"))
        .push(ins("stp x19, x20, [sp]"))
        .push(ins("stp x21, x22, [sp, #16]"))
        .push(ins("add x29, sp, #48"))
        .push(ins("mov x19, x0"))
        .push(ins("mov x20, x1"))
        .push(ins("mov x22, x2"))
        .push(ins_int("mov x0, #", FIBER_OBJECT_SIZE as int, ""))
        .push(ins("bl __rt_heap_alloc"))
        .push(ins("mov x21, x0"))
        .push(ins("mov x9, #4"))
        .push(ins("str x9, [x21, #-8]"));
    let out = out
        .push(ins("str x20, [x21]"))
        .push(ins_int("str xzr, [x21, #", FIBER_STATE_OFFSET as int, "]"))
        .push(ins_int("str xzr, [x21, #", FIBER_STACK_BASE_OFFSET as int, "]"))
        .push(ins_int("str xzr, [x21, #", FIBER_STACK_TOP_OFFSET as int, "]"))
        .push(ins_int("str xzr, [x21, #", FIBER_STACK_SIZE_OFFSET as int, "]"))
        .push(ins_int("str xzr, [x21, #", FIBER_SAVED_SP_OFFSET as int, "]"))
        .push(ins_int("str xzr, [x21, #", FIBER_CALLABLE_OFFSET as int, "]"))
        .push(ins_int("str xzr, [x21, #", FIBER_CALLABLE_WRAPPER_OFFSET as int, "]"))
        .push(ins_int("str xzr, [x21, #", FIBER_CALLER_OFFSET as int, "]"))
        .push(ins_int("str xzr, [x21, #", FIBER_TRANSFER_VALUE_OFFSET as int, "]"))
        .push(ins_int("str xzr, [x21, #", (FIBER_TRANSFER_VALUE_OFFSET + 8) as int, "]"))
        .push(ins_int("str xzr, [x21, #", FIBER_PENDING_THROW_OFFSET as int, "]"))
        .push(ins_int("str xzr, [x21, #", FIBER_OWN_EXC_HEAD_OFFSET as int, "]"))
        .push(ins_int("str xzr, [x21, #", FIBER_OWN_CALL_FRAME_OFFSET as int, "]"));
    let out = cleared_slots(out, FIBER_START_ARGS_OFFSET as int, FIBER_START_ARGS_MAX as nat);
    let out = cleared_slots(out, FIBER_FLOAT_ARGS_OFFSET as int, FIBER_FLOAT_ARGS_MAX as nat);
    let out = out
        .push(ins_int("mov x9, #", FIBER_START_ARGS_MAX as int, ""))
        .push(ins_int("str x9, [x21, #", FIBER_USER_ARG_MAX_OFFSET as int, "]"))
        .push(ins_int("str x19, [x21, #", FIBER_CALLABLE_OFFSET as int, "]"))
        .push(ins_int("str x22, [x21, #", FIBER_CALLABLE_WRAPPER_OFFSET as int, "]"))
        .push(ins_int("mov x0, #", FIBER_DEFAULT_STACK_SIZE as int, ""))
        .push(ins("bl __rt_fiber_alloc_stack"))
        .push(ins_int("str x0, [x21, #", FIBER_STACK_BASE_OFFSET as int, "]"))
        .push(ins_int("str x1, [x21, #", FIBER_STACK_TOP_OFFSET as int, "]"))
        .push(ins_int("str x2, [x21, #", FIBER_STACK_SIZE_OFFSET as int, "]"))
        .push(ins_int("sub x10, x1, #", initial_frame_bytes as int, ""))
        .push(ins_int("str x10, [x21, #", FIBER_SAVED_SP_OFFSET as int, "]"))
        .push(ins("mov x11, x10"))
        .push(ins_int("mov x12, #", (initial_frame_bytes / 16) as int, ""))
        .push(label("__rt_fiber_construct_zero_loop"))
        .push(ins("stp xzr, xzr, [x11], #16"))
        .push(ins("subs x12, x12, #1"));
    let out = out
        .push(ins("b.ne __rt_fiber_construct_zero_loop"));
    let out = out + symbol_address(t, "x9"@, "__rt_fiber_entry"@);
    let out = out
        .push(ins_int("str x9, [x10, #", initial_entry_offset as int, "]"))
        .push(ins_int("mov x9, #", FIBER_STATE_NOT_STARTED as int, ""))
        .push(ins_int("str x9, [x21, #", FIBER_STATE_OFFSET as int, "]"))
        .push(ins("mov x0, x21"))
        .push(ins("ldp x21, x22, [sp, #16]"))
        .push(ins("ldp x19, x20, [sp]"))
        .push(ins("ldp x29, x30, [sp, #48]"))
        .push(ins("add sp, sp, #64"))
        .push(ins("ret"));
    out
}

/// __rt_fiber_construct: allocate and initialise a Fiber object.
/// Input:  x0 = callable (closure object pointer; may be NULL for diagnostics)
///         x1 = class_id assigned by the type checker for the Fiber class
///         x2 = wrapper entry that adapts Fiber Mixed traffic to the callable ABI
/// Output: x0 = pointer to the new Fiber object (16-byte heap header sits at -8)
pub fn emit_fiber_construct(emitter: &mut Emitter)
    ensures
        final(emitter).target == old(emitter).target,
        final(emitter)@ == fiber_construct(old(emitter)@, old(emitter).target),
{
    if emitter.target.arch == Arch::X86_64 {
        emit_construct_x86_64(emitter);
        return;
    }
    let initial_frame_bytes = fiber_initial_stack_frame_bytes(emitter.target.arch);
    let initial_entry_offset = fiber_initial_entry_offset(emitter.target.arch);
    emitter.blank();
    emitter.comment("--- runtime: fiber_construct ---");
    emitter.label_global("__rt_fiber_construct");
    // -- frame: keep callable/class/wrapper across the heap calls --
    emitter.instruction("sub sp, sp, #64");    // reserve scratch frame plus saved callee regs
    emitter.instruction("stp x29, x30, [sp, #48]");    // save frame pointer and return address
    emitter.instruction("stp x19, x20, [sp]");    // preserve callee-saved registers used as argument cache
    emitter.instruction("stp x21, x22, [sp, #16]");    // preserve callee-saved registers used for object and wrapper pointers
    emitter.instruction("add x29, sp, #48");    // anchor the new frame pointer
    emitter.instruction("mov x19, x0");    // x19 = callable (preserved across heap_alloc)
    emitter.instruction("mov x20, x1");    // x20 = class_id (preserved across heap_alloc)
    emitter.instruction("mov x22, x2");    // x22 = optional Fiber entry wrapper pointer
    // -- allocate the Fiber object payload --
    emitter.instruction_int("mov x0, #", FIBER_OBJECT_SIZE as i64, "");    // size in bytes for the Fiber object payload
    emitter.instruction("bl __rt_heap_alloc");    // x0 = pointer to the object payload (header at x0-8)
    emitter.instruction("mov x21, x0");    // x21 = Fiber object pointer (kept until return)
    emitter.instruction("mov x9, #4");    // heap kind 4 = object instance
    emitter.instruction("str x9, [x21, #-8]");    // stamp the kind in the uniform heap header
    emitter.instruction("str x20, [x21]");    // store the runtime class_id at the object header
    // -- zero-initialise every Fiber field before populating the meaningful ones --
    emitter.instruction_int("str xzr, [x21, #", FIBER_STATE_OFFSET as i64, "]");    // state placeholder (overwritten below with NotStarted)
    emitter.instruction_int("str xzr, [x21, #", FIBER_STACK_BASE_OFFSET as i64, "]");    // stack_base placeholder (overwritten after stack alloc)
    emitter.instruction_int("str xzr, [x21, #", FIBER_STACK_TOP_OFFSET as i64, "]");    // stack_top placeholder (overwritten after stack alloc)
    emitter.instruction_int("str xzr, [x21, #", FIBER_STACK_SIZE_OFFSET as i64, "]");    // stack_size placeholder (overwritten after stack alloc)
    emitter.instruction_int("str xzr, [x21, #", FIBER_SAVED_SP_OFFSET as i64, "]");    // saved_sp placeholder (overwritten after fake-frame setup)
    emitter.instruction_int("str xzr, [x21, #", FIBER_CALLABLE_OFFSET as i64, "]");    // callable.lo placeholder (overwritten with x19 below)
    emitter.instruction_int("str xzr, [x21, #", FIBER_CALLABLE_WRAPPER_OFFSET as i64, "]");    // callable wrapper placeholder (overwritten with x22 below)
    emitter.instruction_int("str xzr, [x21, #", FIBER_CALLER_OFFSET as i64, "]");    // caller starts NULL (no resumer until start/resume)
    emitter.instruction_int("str xzr, [x21, #", FIBER_TRANSFER_VALUE_OFFSET as i64, "]");    // transfer_value.lo cleared
    emitter.instruction_int("str xzr, [x21, #", (FIBER_TRANSFER_VALUE_OFFSET + 8) as i64, "]");    // transfer_value.hi cleared
    emitter.instruction_int("str xzr, [x21, #", FIBER_PENDING_THROW_OFFSET as i64, "]");    // pending_throw cleared
    emitter.instruction_int("str xzr, [x21, #", FIBER_OWN_EXC_HEAD_OFFSET as i64, "]");    // own_exc_head cleared (no installed handlers yet)
    emitter.instruction_int("str xzr, [x21, #", FIBER_OWN_CALL_FRAME_OFFSET as i64, "]");    // own_call_frame cleared (no activation records on the fresh fiber stack yet)
    let ghost before = emitter@;
    for i in 0..FIBER_START_ARGS_MAX
        invariant
            emitter.target == old(emitter).target,
            emitter@ == cleared_slots(before, FIBER_START_ARGS_OFFSET as int, i as nat),
    {
        emitter.instruction_int("str xzr, [x21, #", (FIBER_START_ARGS_OFFSET + i * 8) as i64, "]");    // start_args[i] cleared
    }
    let ghost before = emitter@;
    for i in 0..FIBER_FLOAT_ARGS_MAX
        invariant
            emitter.target == old(emitter).target,
            emitter@ == cleared_slots(before, FIBER_FLOAT_ARGS_OFFSET as int, i as nat),
    {
        emitter.instruction_int("str xzr, [x21, #", (FIBER_FLOAT_ARGS_OFFSET + i * 8) as i64, "]");    // float_args[i] cleared (raw bits, loaded back into d-regs by the trampoline)
    }
    // user_arg_max defaults to FIBER_START_ARGS_MAX so start() fills every
    // start_args slot when no captures are pre-loaded into the trailing ones.
    // Codegen of `new Fiber(function() use(...) {})` lowers it to the
    // closure's user-param count to keep the captures intact.
    emitter.instruction_int("mov x9, #", FIBER_START_ARGS_MAX as i64, "");    // default user_arg_max = full slot count
    emitter.instruction_int("str x9, [x21, #", FIBER_USER_ARG_MAX_OFFSET as i64, "]");    // user_arg_max stored on the freshly built fiber
    // -- record the captured callable --
    emitter.instruction_int("str x19, [x21, #", FIBER_CALLABLE_OFFSET as i64, "]");    // callable.lo = closure pointer
    emitter.instruction_int("str x22, [x21, #", FIBER_CALLABLE_WRAPPER_OFFSET as i64, "]");    // callable wrapper = Fiber entry ABI adapter
    // -- allocate the per-fiber stack via mmap; alloc returns base/top/total --
    emitter.instruction_int("mov x0, #", FIBER_DEFAULT_STACK_SIZE as i64, "");    // request the default usable fiber stack size in bytes
    emitter.instruction("bl __rt_fiber_alloc_stack");    // x0 = stack_base (mapping start), x1 = stack_top, x2 = total mapped length
    emitter.instruction_int("str x0, [x21, #", FIBER_STACK_BASE_OFFSET as i64, "]");    // stack_base = mmap mapping start (includes the guard page)
    emitter.instruction_int("str x1, [x21, #", FIBER_STACK_TOP_OFFSET as i64, "]");    // stack_top = initial SP target (16-byte aligned high address)
    emitter.instruction_int("str x2, [x21, #", FIBER_STACK_SIZE_OFFSET as i64, "]");    // stack_size = total mapped length, needed verbatim by munmap on free
    // -- carve out a fake initial frame at the very top of the stack --
    emitter.instruction_int("sub x10, x1, #", initial_frame_bytes as i64, "");    // x10 = initial saved_sp (room for the switch save area)
    emitter.instruction_int("str x10, [x21, #", FIBER_SAVED_SP_OFFSET as i64, "]");    // saved_sp points at the bottom of the fake frame
    // -- zero the fake frame so callee-saved registers come back as zero on first switch --
    emitter.instruction("mov x11, x10");    // x11 = cursor through the fake frame
    emitter.instruction_int("mov x12, #", (initial_frame_bytes / 16) as i64, "");    // number of 16-byte chunks to zero
    emitter.label("__rt_fiber_construct_zero_loop");
    emitter.instruction("stp xzr, xzr, [x11], #16");    // zero a 16-byte slice and advance the cursor
    emitter.instruction("subs x12, x12, #1");    // decrement the chunk counter
    emitter.instruction("b.ne __rt_fiber_construct_zero_loop");    // continue until the entire frame is zero
    // -- install __rt_fiber_entry as the saved x30 so the first switch returns into it --
    abi::emit_symbol_address(emitter, "x9", "__rt_fiber_entry");    // x9 = absolute address of the entry trampoline
    emitter.instruction_int("str x9, [x10, #", initial_entry_offset as i64, "]");    // saved x30 slot = entry trampoline address
    // -- finish: state = NotStarted and return the new Fiber pointer --
    emitter.instruction_int("mov x9, #", FIBER_STATE_NOT_STARTED as i64, "");    // FIBER_STATE_NOT_STARTED constant
    emitter.instruction_int("str x9, [x21, #", FIBER_STATE_OFFSET as i64, "]");    // state = NotStarted
    emitter.instruction("mov x0, x21");    // return the freshly built Fiber pointer
    // -- tear down the scratch frame and return --
    emitter.instruction("ldp x21, x22, [sp, #16]");    // restore caller's x21/x22
    emitter.instruction("ldp x19, x20, [sp]");    // restore caller's x19/x20
    emitter.instruction("ldp x29, x30, [sp, #48]");    // restore caller's frame pointer and return address
    emitter.instruction("add sp, sp, #64");    // release the scratch frame
    emitter.instruction("ret");    // hand the new Fiber object back to the constructor caller
}

/// Appends to `out` the listing that `emit_fiber_start` emits for target `t`.
pub open spec fn fiber_start(out: Seq<Line>, t: Target) -> Seq<Line> {
    if t.arch == Arch::X86_64 {
        start_x86_64(out, t)
    } else {
        fiber_start_aarch64(out, t)
    }
}

/// Appends to `out` the AArch64 listing of `emit_fiber_start`.
pub open spec fn fiber_start_aarch64(out: Seq<Line>, t: Target) -> Seq<Line> {
    let out = out
        .push(Line::Blank)
        .push(comment("--- runtime: fiber_start ---"))
        .push(global("__rt_fiber_start"))
        .push(ins("sub sp, sp, #32"))
        .push(ins("stp x29, x30, [sp, #16]"))
        .push(ins("str x19, [sp]"))
        .push(ins("add x29, sp, #16"))
        .push(ins("mov x19, x0"))
        .push(ins_int("ldr x9, [x19, #", FIBER_STATE_OFFSET as int, "]"))
        .push(ins_int("cmp x9, #", FIBER_STATE_NOT_STARTED as int, ""))
        .push(ins("b.eq __rt_fiber_start_state_ok"));
    let out = out + symbol_address(t, "x0"@, "_fiber_msg_already_started"@);
    let out = out
        .push(ins("mov x1, #50"))
        .push(ins("bl __rt_fiber_throw_state_error"))
        .push(label("__rt_fiber_start_state_ok"));
    let out = out + load_symbol_to_reg(t, "x9"@, "_fiber_current"@, 0);
    let out = out
        .push(ins_int("str x9, [x19, #", FIBER_CALLER_OFFSET as int, "]"))
        .push(ins("mov x0, x19"))
        .push(ins("bl __rt_fiber_switch"))
        .push(ins_int("ldr x9, [x19, #", FIBER_STATE_OFFSET as int, "]"))
        .push(ins_int("cmp x9, #", FIBER_STATE_TERMINATED as int, ""))
        .push(ins("b.ne __rt_fiber_start_no_escape"))
        .push(ins_int("ldr x10, [x19, #", FIBER_PENDING_THROW_OFFSET as int, "]"))
        .push(ins("cbz x10, __rt_fiber_start_no_escape"))
        .push(ins_int("str xzr, [x19, #", FIBER_PENDING_THROW_OFFSET as int, "]"));
    let out = out + store_reg_to_symbol(t, "x10"@, "_exc_value"@, 0);
    let out = out
        .push(ins("bl __rt_throw_current"))
        .push(ins("brk #0xfffe"))
        .push(label("__rt_fiber_start_no_escape"))
        .push(ins_int("ldr x9, [x19, #", FIBER_STATE_OFFSET as int, "]"))
        .push(ins_int("cmp x9, #", FIBER_STATE_TERMINATED as int, ""))
        .push(ins("b.ne __rt_fiber_start_return_yield"));
    let out = box_null_mixed(out, t);
    let out = out
        .push(ins("b __rt_fiber_start_return_ready"))
        .push(label("__rt_fiber_start_return_yield"))
        .push(ins_int("ldr x0, [x19, #", FIBER_TRANSFER_VALUE_OFFSET as int, "]"))
        .push(label("__rt_fiber_start_return_ready"))
        .push(ins("ldr x19, [sp]"))
        .push(ins("ldp x29, x30, [sp, #16]"))
        .push(ins("add sp, sp, #32"))
        .push(ins("ret"));
    out
}

/// __rt_fiber_start: switch into a fiber for the first time.
/// Input:  x0 = fiber*
/// Output: x0 = the value the fiber yielded (via Fiber::suspend), or a freshly boxed
///         PHP null when the fiber terminated instead, as PHP's `Fiber::start()` returns
///         null then; the return value itself is read with `__rt_fiber_get_return`.
pub fn emit_fiber_start(emitter: &mut Emitter)
    ensures
        final(emitter).target == old(emitter).target,
        final(emitter)@ == fiber_start(old(emitter)@, old(emitter).target),
{
    if emitter.target.arch == Arch::X86_64 {
        emit_start_x86_64(emitter);
        return;
    }
    emitter.blank();
    emitter.comment("--- runtime: fiber_start ---");
    emitter.label_global("__rt_fiber_start");
    // -- prologue: keep the fiber pointer in x19 across the cooperative switch --
    emitter.instruction("sub sp, sp, #32");    // reserve a frame plus a saved-x19 slot
    emitter.instruction("stp x29, x30, [sp, #16]");    // save frame pointer and return address
    emitter.instruction("str x19, [sp]");    // preserve caller's x19 — we are about to repurpose it
    emitter.instruction("add x29, sp, #16");    // anchor the new frame pointer
    emitter.instruction("mov x19, x0");    // x19 = fiber object pointer (callee-saved across __rt_fiber_switch)
    // -- guard: start() requires state == NotStarted; otherwise raise FiberError --
    emitter.instruction_int("ldr x9, [x19, #", FIBER_STATE_OFFSET as i64, "]");    // x9 = receiver fiber state
    emitter.instruction_int("cmp x9, #", FIBER_STATE_NOT_STARTED as i64, "");    // is the fiber still in the NotStarted state?
    emitter.instruction("b.eq __rt_fiber_start_state_ok");    // proceed when the fiber has not been started yet
    abi::emit_symbol_address(emitter, "x0", "_fiber_msg_already_started");    // x0 = pointer to the static error message
    emitter.instruction("mov x1, #50");    // x1 = error message length in bytes
    emitter.instruction("bl __rt_fiber_throw_state_error");    // raise FiberError; this call does not return
    emitter.label("__rt_fiber_start_state_ok");
    // -- record the resumer (current execution context) as the fiber's caller --
    abi::emit_load_symbol_to_reg(emitter, "x9", "_fiber_current", 0);    // x9 = whoever is running right now (NULL means main thread)
    emitter.instruction_int("str x9, [x19, #", FIBER_CALLER_OFFSET as i64, "]");    // fiber->caller = current execution context
    // -- switch into the fiber; control returns when it suspends or terminates --
    emitter.instruction("mov x0, x19");    // pass fiber* as the switch target
    emitter.instruction("bl __rt_fiber_switch");    // cooperative context switch into the fiber
    // -- check for an escaped exception parked by the trampoline and re-raise it on the caller's stack --
    emitter.instruction_int("ldr x9, [x19, #", FIBER_STATE_OFFSET as i64, "]");    // x9 = current fiber state
    emitter.instruction_int("cmp x9, #", FIBER_STATE_TERMINATED as i64, "");    // is the fiber terminated?
    emitter.instruction("b.ne __rt_fiber_start_no_escape");    // skip the re-raise path when the fiber is still alive
    emitter.instruction_int("ldr x10, [x19, #", FIBER_PENDING_THROW_OFFSET as i64, "]");    // x10 = parked Throwable (NULL when termination was clean)
    emitter.instruction("cbz x10, __rt_fiber_start_no_escape");    // skip the re-raise path when no exception escaped
    emitter.instruction_int("str xzr, [x19, #", FIBER_PENDING_THROW_OFFSET as i64, "]");    // clear pending_throw so subsequent inspections see the clean terminated state
    abi::emit_store_reg_to_symbol(emitter, "x10", "_exc_value", 0);    // _exc_value = the escaped Throwable, ready for __rt_throw_current
    emitter.instruction("bl __rt_throw_current");    // re-raise on the caller's stack chain (no return)
    emitter.instruction("brk #0xfffe");    // defensive trap if __rt_throw_current ever returns
    emitter.label("__rt_fiber_start_no_escape");
    // -- harvest a suspend value, or PHP null when the fiber terminated cleanly --
    emitter.instruction_int("ldr x9, [x19, #", FIBER_STATE_OFFSET as i64, "]");    // x9 = current fiber state after control returned
    emitter.instruction_int("cmp x9, #", FIBER_STATE_TERMINATED as i64, "");    // did the fiber finish instead of suspending?
    emitter.instruction("b.ne __rt_fiber_start_return_yield");    // suspended fibers return their yielded transfer value
    emit_box_null_mixed(emitter);
    emitter.instruction("b __rt_fiber_start_return_ready");    // skip the yielded-value load after boxing PHP null
    emitter.label("__rt_fiber_start_return_yield");
    emitter.instruction_int("ldr x0, [x19, #", FIBER_TRANSFER_VALUE_OFFSET as i64, "]");    // x0 = fiber->transfer_value.lo (suspend yield value)
    emitter.label("__rt_fiber_start_return_ready");
    // -- epilogue --
    emitter.instruction("ldr x19, [sp]");    // restore caller's x19
    emitter.instruction("ldp x29, x30, [sp, #16]");    // restore frame pointer and return address
    emitter.instruction("add sp, sp, #32");    // release the helper frame
    emitter.instruction("ret");    // return the harvested value to the caller
}

/// Appends to `out` the listing that `emit_fiber_resume` emits for target `t`.
pub open spec fn fiber_resume(out: Seq<Line>, t: Target) -> Seq<Line> {
    if t.arch == Arch::X86_64 {
        resume_x86_64(out, t)
    } else {
        fiber_resume_aarch64(out, t)
    }
}

/// Appends to `out` the AArch64 listing of `emit_fiber_resume`.
pub open spec fn fiber_resume_aarch64(out: Seq<Line>, t: Target) -> Seq<Line> {
    let out = out
        .push(Line::Blank)
        .push(comment("--- runtime: fiber_resume ---"))
        .push(global("__rt_fiber_resume"))
        .push(ins("sub sp, sp, #32"))
        .push(ins("stp x29, x30, [sp, #16]"))
        .push(ins("str x19, [sp]"))
        .push(ins("add x29, sp, #16"))
        .push(ins("mov x19, x0"))
        .push(ins("stp x20, x21, [sp, #-16]!"))
        .push(ins("mov x20, x1"))
        .push(ins_int("ldr x9, [x19, #", FIBER_STATE_OFFSET as int, "]"))
        .push(ins_int("cmp x9, #", FIBER_STATE_SUSPENDED as int, ""))
        .push(ins("b.eq __rt_fiber_resume_state_ok"));
    let out = out + symbol_address(t, "x0"@, "_fiber_msg_not_suspended"@);
    let out = out
        .push(ins("mov x1, #43"))
        .push(ins("bl __rt_fiber_throw_state_error"))
        .push(label("__rt_fiber_resume_state_ok"))
        .push(ins("mov x1, x20"))
        .push(ins("ldp x20, x21, [sp], #16"))
        .push(ins_int("str x1, [x19, #", FIBER_TRANSFER_VALUE_OFFSET as int, "]"));
    let out = out + load_symbol_to_reg(t, "x9"@, "_fiber_current"@, 0);
    let out = out
        .push(ins_int("str x9, [x19, #", FIBER_CALLER_OFFSET as int, "]"))
        .push(ins("mov x0, x19"))
        .push(ins("bl __rt_fiber_switch"))
        .push(ins_int("ldr x9, [x19, #", FIBER_STATE_OFFSET as int, "]"))
        .push(ins_int("cmp x9, #", FIBER_STATE_TERMINATED as int, ""))
        .push(ins("b.ne __rt_fiber_resume_no_escape"))
        .push(ins_int("ldr x10, [x19, #", FIBER_PENDING_THROW_OFFSET as int, "]"))
        .push(ins("cbz x10, __rt_fiber_resume_no_escape"))
        .push(ins_int("str xzr, [x19, #", FIBER_PENDING_THROW_OFFSET as int, "]"));
    let out = out + store_reg_to_symbol(t, "x10"@, "_exc_value"@, 0);
    let out = out
        .push(ins("bl __rt_throw_current"))
        .push(ins("brk #0xfffe"))
        .push(label("__rt_fiber_resume_no_escape"))
        .push(ins_int("ldr x9, [x19, #", FIBER_STATE_OFFSET as int, "]"))
        .push(ins_int("cmp x9, #", FIBER_STATE_TERMINATED as int, ""))
        .push(ins("b.ne __rt_fiber_resume_return_yield"));
    let out = box_null_mixed(out, t);
    let out = out
        .push(ins("b __rt_fiber_resume_return_ready"))
        .push(label("__rt_fiber_resume_return_yield"))
        .push(ins_int("ldr x0, [x19, #", FIBER_TRANSFER_VALUE_OFFSET as int, "]"))
        .push(label("__rt_fiber_resume_return_ready"))
        .push(ins("ldr x19, [sp]"))
        .push(ins("ldp x29, x30, [sp, #16]"))
        .push(ins("add sp, sp, #32"))
        .push(ins("ret"));
    out
}

/// __rt_fiber_resume: deliver a value into a suspended fiber and let it run.
/// Input:  x0 = fiber*, x1 = value to deliver to the suspended `Fiber::suspend()` call
/// Output: x0 = the value the fiber yielded next (via suspend), or a freshly boxed
///         PHP null when the fiber terminated instead, as PHP's `Fiber::resume()`
///         returns null then (the return value is read with `__rt_fiber_get_return`).
pub fn emit_fiber_resume(emitter: &mut Emitter)
    ensures
        final(emitter).target == old(emitter).target,
        final(emitter)@ == fiber_resume(old(emitter)@, old(emitter).target),
{
    if emitter.target.arch == Arch::X86_64 {
        emit_resume_x86_64(emitter);
        return;
    }
    emitter.blank();
    emitter.comment("--- runtime: fiber_resume ---");
    emitter.label_global("__rt_fiber_resume");
    emitter.instruction("sub sp, sp, #32");    // reserve frame plus saved-x19 slot
    emitter.instruction("stp x29, x30, [sp, #16]");    // save frame pointer and return address
    emitter.instruction("str x19, [sp]");    // preserve caller's x19 across the switch
    emitter.instruction("add x29, sp, #16");    // anchor the new frame pointer
    emitter.instruction("mov x19, x0");    // x19 = fiber* (callee-saved across the switch)
    // -- guard: resume() requires state == Suspended; otherwise raise FiberError.
    // Hold the resume value in x20 across the helper because x1 is the second
    // argument register, which the throw helper would clobber.
    emitter.instruction("stp x20, x21, [sp, #-16]!");    // preserve caller's x20/x21 — both are callee-saved registers we are about to repurpose
    emitter.instruction("mov x20, x1");    // x20 = $value to deliver, parked across the state check
    emitter.instruction_int("ldr x9, [x19, #", FIBER_STATE_OFFSET as i64, "]");    // x9 = receiver fiber state
    emitter.instruction_int("cmp x9, #", FIBER_STATE_SUSPENDED as i64, "");    // is the fiber currently paused at a Fiber::suspend() call?
    emitter.instruction("b.eq __rt_fiber_resume_state_ok");    // proceed only when the fiber is suspended
    abi::emit_symbol_address(emitter, "x0", "_fiber_msg_not_suspended");    // x0 = pointer to the static error message
    emitter.instruction("mov x1, #43");    // x1 = error message length in bytes
    emitter.instruction("bl __rt_fiber_throw_state_error");    // raise FiberError; this call does not return
    emitter.label("__rt_fiber_resume_state_ok");
    emitter.instruction("mov x1, x20");    // restore the resume value into the second argument register
    emitter.instruction("ldp x20, x21, [sp], #16");    // restore caller's x20/x21 now that the state check is done
    // -- deliver the new value into the fiber's transfer slot --
    emitter.instruction_int("str x1, [x19, #", FIBER_TRANSFER_VALUE_OFFSET as i64, "]");    // fiber->transfer_value.lo = $value passed to resume
    // -- record the resumer as the fiber's caller, then switch in --
    abi::emit_load_symbol_to_reg(emitter, "x9", "_fiber_current", 0);    // x9 = current execution context to remember as the caller
    emitter.instruction_int("str x9, [x19, #", FIBER_CALLER_OFFSET as i64, "]");    // fiber->caller = current context (so suspend knows who to yield back to)
    emitter.instruction("mov x0, x19");    // pass fiber* as the switch target
    emitter.instruction("bl __rt_fiber_switch");    // cooperative context switch into the fiber
    // -- check for an escaped exception parked by the trampoline and re-raise it on the caller's stack --
    emitter.instruction_int("ldr x9, [x19, #", FIBER_STATE_OFFSET as i64, "]");    // x9 = current fiber state
    emitter.instruction_int("cmp x9, #", FIBER_STATE_TERMINATED as i64, "");    // is the fiber terminated?
    emitter.instruction("b.ne __rt_fiber_resume_no_escape");    // skip the re-raise path when the fiber is still alive
    emitter.instruction_int("ldr x10, [x19, #", FIBER_PENDING_THROW_OFFSET as i64, "]");    // x10 = parked Throwable (NULL when termination was clean)
    emitter.instruction("cbz x10, __rt_fiber_resume_no_escape");    // skip the re-raise path when no exception escaped
    emitter.instruction_int("str xzr, [x19, #", FIBER_PENDING_THROW_OFFSET as i64, "]");    // clear pending_throw so subsequent inspections see the clean terminated state
    abi::emit_store_reg_to_symbol(emitter, "x10", "_exc_value", 0);    // _exc_value = the escaped Throwable, ready for __rt_throw_current
    emitter.instruction("bl __rt_throw_current");    // re-raise on the caller's stack chain (no return)
    emitter.instruction("brk #0xfffe");    // defensive trap if __rt_throw_current ever returns
    emitter.label("__rt_fiber_resume_no_escape");
    // -- harvest a suspend value, or PHP null when the fiber terminated cleanly --
    emitter.instruction_int("ldr x9, [x19, #", FIBER_STATE_OFFSET as i64, "]");    // x9 = current fiber state after control returned
    emitter.instruction_int("cmp x9, #", FIBER_STATE_TERMINATED as i64, "");    // did the fiber finish instead of suspending again?
    emitter.instruction("b.ne __rt_fiber_resume_return_yield");    // suspended fibers return their next yielded transfer value
    emit_box_null_mixed(emitter);
    emitter.instruction("b __rt_fiber_resume_return_ready");    // skip the yielded-value load after boxing PHP null
    emitter.label("__rt_fiber_resume_return_yield");
    emitter.instruction_int("ldr x0, [x19, #", FIBER_TRANSFER_VALUE_OFFSET as i64, "]");    // x0 = fiber->transfer_value.lo (next yield value)
    emitter.label("__rt_fiber_resume_return_ready");
    emitter.instruction("ldr x19, [sp]");    // restore caller's x19
    emitter.instruction("ldp x29, x30, [sp, #16]");    // restore frame pointer and return address
    emitter.instruction("add sp, sp, #32");    // release the helper frame
    emitter.instruction("ret");    // return the harvested value
}

/// Appends to `out` the listing that `emit_fiber_suspend` emits for target `t`.
pub open spec fn fiber_suspend(out: Seq<Line>, t: Target) -> Seq<Line> {
    if t.arch == Arch::X86_64 {
        suspend_x86_64(out, t)
    } else {
        fiber_suspend_aarch64(out, t)
    }
}

/// Appends to `out` the AArch64 listing of `emit_fiber_suspend`.
pub open spec fn fiber_suspend_aarch64(out: Seq<Line>, t: Target) -> Seq<Line> {
    let out = out
        .push(Line::Blank)
        .push(comment("--- runtime: fiber_suspend ---"))
        .push(global("__rt_fiber_suspend"))
        .push(ins("sub sp, sp, #32"))
        .push(ins("stp x29, x30, [sp, #16]"))
        .push(ins("str x19, [sp]"))
        .push(ins("add x29, sp, #16"))
        .push(ins("stp x20, x21, [sp, #-16]!"))
        .push(ins("mov x20, x0"));
    let out = out + load_symbol_to_reg(t, "x19"@, "_fiber_current"@, 0);
    let out = out
        .push(ins("cbnz x19, __rt_fiber_suspend_state_ok"));
    let out = out + symbol_address(t, "x0"@, "_fiber_msg_suspend_outside"@);
    let out = out
        .push(ins("mov x1, #33"))
        .push(ins("bl __rt_fiber_throw_state_error"))
        .push(label("__rt_fiber_suspend_state_ok"))
        .push(ins("mov x0, x20"))
        .push(ins("ldp x20, x21, [sp], #16"))
        .push(ins_int("str x0, [x19, #", FIBER_TRANSFER_VALUE_OFFSET as int, "]"))
        .push(ins_int("mov x9, #", FIBER_STATE_SUSPENDED as int, ""))
        .push(ins_int("str x9, [x19, #", FIBER_STATE_OFFSET as int, "]"))
        .push(ins_int("ldr x0, [x19, #", FIBER_CALLER_OFFSET as int, "]"))
        .push(ins("bl __rt_fiber_switch"))
        .push(ins_int("mov x9, #", FIBER_STATE_RUNNING as int, ""))
        .push(ins_int("str x9, [x19, #", FIBER_STATE_OFFSET as int, "]"))
        .push(ins_int("ldr x10, [x19, #", FIBER_PENDING_THROW_OFFSET as int, "]"))
        .push(ins("cbz x10, __rt_fiber_suspend_no_throw"))
        .push(ins_int("str xzr, [x19, #", FIBER_PENDING_THROW_OFFSET as int, "]"));
    let out = out + store_reg_to_symbol(t, "x10"@, "_exc_value"@, 0);
    let out = out
        .push(ins("bl __rt_throw_current"))
        .push(label("__rt_fiber_suspend_no_throw"))
        .push(ins_int("ldr x0, [x19, #", FIBER_TRANSFER_VALUE_OFFSET as int, "]"))
        .push(label("__rt_fiber_suspend_done"))
        .push(ins("ldr x19, [sp]"))
        .push(ins("ldp x29, x30, [sp, #16]"))
        .push(ins("add sp, sp, #32"))
        .push(ins("ret"));
    out
}

/// __rt_fiber_suspend: yield control from the running fiber back to its caller.
/// Input:  x0 = value to deliver to the resumer's `start()` / `resume()` call
/// Output: x0 = the value the next resumer passes back via `resume($v)`
pub fn emit_fiber_suspend(emitter: &mut Emitter)
    ensures
        final(emitter).target == old(emitter).target,
        final(emitter)@ == fiber_suspend(old(emitter)@, old(emitter).target),
{
    if emitter.target.arch == Arch::X86_64 {
        emit_suspend_x86_64(emitter);
        return;
    }
    emitter.blank();
    emitter.comment("--- runtime: fiber_suspend ---");
    emitter.label_global("__rt_fiber_suspend");
    emitter.instruction("sub sp, sp, #32");    // reserve frame plus saved-x19 slot
    emitter.instruction("stp x29, x30, [sp, #16]");    // save frame pointer and return address
    emitter.instruction("str x19, [sp]");    // preserve caller's x19 across the switch
    emitter.instruction("add x29, sp, #16");    // anchor the new frame pointer
    // -- guard: suspend() must be called from inside a fiber; otherwise raise FiberError --
    // Hold the yielded value in x20 across the helper because x0 is its first argument.
    emitter.instruction("stp x20, x21, [sp, #-16]!");    // preserve caller's x20/x21 — both are callee-saved registers we are about to repurpose
    emitter.instruction("mov x20, x0");    // x20 = yielded value, parked across the state check
    abi::emit_load_symbol_to_reg(emitter, "x19", "_fiber_current", 0);    // x19 = currently running fiber* (NULL means called from main)
    emitter.instruction("cbnz x19, __rt_fiber_suspend_state_ok");    // proceed when we are actually executing inside a fiber
    abi::emit_symbol_address(emitter, "x0", "_fiber_msg_suspend_outside");    // x0 = pointer to the static error message
    emitter.instruction("mov x1, #33");    // x1 = error message length in bytes
    emitter.instruction("bl __rt_fiber_throw_state_error");    // raise FiberError; this call does not return
    emitter.label("__rt_fiber_suspend_state_ok");
    emitter.instruction("mov x0, x20");    // restore the yielded value into x0 for the suspend logic below
    emitter.instruction("ldp x20, x21, [sp], #16");    // restore caller's x20/x21 now that the state check is done
    // -- store the value being yielded and mark the fiber Suspended --
    emitter.instruction_int("str x0, [x19, #", FIBER_TRANSFER_VALUE_OFFSET as i64, "]");    // fiber->transfer_value.lo = the yielded value
    emitter.instruction_int("mov x9, #", FIBER_STATE_SUSPENDED as i64, "");    // FIBER_STATE_SUSPENDED constant
    emitter.instruction_int("str x9, [x19, #", FIBER_STATE_OFFSET as i64, "]");    // fiber->state = Suspended
    // -- switch back to the caller; control resumes here when someone calls resume() --
    emitter.instruction_int("ldr x0, [x19, #", FIBER_CALLER_OFFSET as i64, "]");    // x0 = fiber->caller (whoever should regain control)
    emitter.instruction("bl __rt_fiber_switch");    // hand control back to the caller's resume site
    // -- on resume, mark Running again --
    emitter.instruction_int("mov x9, #", FIBER_STATE_RUNNING as i64, "");    // FIBER_STATE_RUNNING constant
    emitter.instruction_int("str x9, [x19, #", FIBER_STATE_OFFSET as i64, "]");    // fiber->state = Running (we are executing again)
    // -- if a Throwable was scheduled by Fiber->throw($e), raise it inside this fiber --
    // Important: hold the Throwable in x10 (caller-saved scratch). Cannot use x9
    // because emit_store_reg_to_symbol uses x9 internally to materialise the
    // symbol address, which would clobber the value we want to write.
    emitter.instruction_int("ldr x10, [x19, #", FIBER_PENDING_THROW_OFFSET as i64, "]");    // x10 = pending Throwable* (NULL if no throw was scheduled)
    emitter.instruction("cbz x10, __rt_fiber_suspend_no_throw");    // skip the raise path when no exception is pending
    emitter.instruction_int("str xzr, [x19, #", FIBER_PENDING_THROW_OFFSET as i64, "]");    // clear pending_throw before re-raising so resume() can fire again
    abi::emit_store_reg_to_symbol(emitter, "x10", "_exc_value", 0);    // _exc_value = the Throwable to raise; matches normal `throw` runtime contract
    emitter.instruction("bl __rt_throw_current");    // unwind into the active try/catch on the fiber's stack (no return)
    emitter.label("__rt_fiber_suspend_no_throw");
    emitter.instruction_int("ldr x0, [x19, #", FIBER_TRANSFER_VALUE_OFFSET as i64, "]");    // x0 = fiber->transfer_value.lo (the value the resumer passed)
    emitter.label("__rt_fiber_suspend_done");
    emitter.instruction("ldr x19, [sp]");    // restore caller's x19
    emitter.instruction("ldp x29, x30, [sp, #16]");    // restore frame pointer and return address
    emitter.instruction("add sp, sp, #32");    // release the helper frame
    emitter.instruction("ret");    // return the resumer-delivered value
}

/// Appends to `out` the listing that `emit_fiber_throw` emits for target `t`.
pub open spec fn fiber_throw(out: Seq<Line>, t: Target) -> Seq<Line> {
    if t.arch == Arch::X86_64 {
        throw_x86_64(out, t)
    } else {
        fiber_throw_aarch64(out, t)
    }
}

/// Appends to `out` the AArch64 listing of `emit_fiber_throw`.
pub open spec fn fiber_throw_aarch64(out: Seq<Line>, t: Target) -> Seq<Line> {
    let out = out
        .push(Line::Blank)
        .push(comment("--- runtime: fiber_throw ---"))
        .push(global("__rt_fiber_throw"))
        .push(ins("sub sp, sp, #32"))
        .push(ins("stp x29, x30, [sp, #16]"))
        .push(ins("str x19, [sp]"))
        .push(ins("add x29, sp, #16"))
        .push(ins("mov x19, x0"))
        .push(ins("stp x20, x21, [sp, #-16]!"))
        .push(ins("mov x20, x1"))
        .push(ins_int("ldr x9, [x19, #", FIBER_STATE_OFFSET as int, "]"))
        .push(ins_int("cmp x9, #", FIBER_STATE_SUSPENDED as int, ""))
        .push(ins("b.eq __rt_fiber_throw_state_ok"));
    let out = out + symbol_address(t, "x0"@, "_fiber_msg_throw_not_suspended"@);
    let out = out
        .push(ins("mov x1, #43"))
        .push(ins("bl __rt_fiber_throw_state_error"))
        .push(label("__rt_fiber_throw_state_ok"))
        .push(ins("mov x1, x20"))
        .push(ins("ldp x20, x21, [sp], #16"))
        .push(ins_int("str x1, [x19, #", FIBER_PENDING_THROW_OFFSET as int, "]"));
    let out = out + load_symbol_to_reg(t, "x9"@, "_fiber_current"@, 0);
    let out = out
        .push(ins_int("str x9, [x19, #", FIBER_CALLER_OFFSET as int, "]"))
        .push(ins("mov x0, x19"))
        .push(ins("bl __rt_fiber_switch"))
        .push(ins_int("ldr x9, [x19, #", FIBER_STATE_OFFSET as int, "]"))
        .push(ins_int("cmp x9, #", FIBER_STATE_TERMINATED as int, ""))
        .push(ins("b.ne __rt_fiber_throw_no_escape"))
        .push(ins_int("ldr x10, [x19, #", FIBER_PENDING_THROW_OFFSET as int, "]"))
        .push(ins("cbz x10, __rt_fiber_throw_no_escape"))
        .push(ins_int("str xzr, [x19, #", FIBER_PENDING_THROW_OFFSET as int, "]"));
    let out = out + store_reg_to_symbol(t, "x10"@, "_exc_value"@, 0);
    let out = out
        .push(ins("bl __rt_throw_current"))
        .push(ins("brk #0xfffe"))
        .push(label("__rt_fiber_throw_no_escape"))
        .push(ins_int("ldr x9, [x19, #", FIBER_STATE_OFFSET as int, "]"))
        .push(ins_int("cmp x9, #", FIBER_STATE_TERMINATED as int, ""))
        .push(ins("b.ne __rt_fiber_throw_return_yield"));
    let out = box_null_mixed(out, t);
    let out = out
        .push(ins("b __rt_fiber_throw_return_ready"))
        .push(label("__rt_fiber_throw_return_yield"))
        .push(ins_int("ldr x0, [x19, #", FIBER_TRANSFER_VALUE_OFFSET as int, "]"))
        .push(label("__rt_fiber_throw_return_ready"))
        .push(ins("ldr x19, [sp]"))
        .push(ins("ldp x29, x30, [sp, #16]"))
        .push(ins("add sp, sp, #32"))
        .push(ins("ret"));
    out
}

/// __rt_fiber_throw: schedule an exception to be raised inside the fiber on
/// resume. The Throwable is parked in `pending_throw`; the resume side of
/// `__rt_fiber_suspend` checks it, clears it, and re-raises via
/// `__rt_throw_current` so the fiber's local try/catch frames see it.
/// Input:  x0 = fiber*, x1 = Throwable*
/// Output: x0 = the value the fiber yields back, or a freshly boxed PHP null when it
///         terminates without further suspends, as PHP's `Fiber::throw()` returns null
///         then (the exception itself unwinds inside the fiber).
pub fn emit_fiber_throw(emitter: &mut Emitter)
    ensures
        final(emitter).target == old(emitter).target,
        final(emitter)@ == fiber_throw(old(emitter)@, old(emitter).target),
{
    if emitter.target.arch == Arch::X86_64 {
        emit_throw_x86_64(emitter);
        return;
    }
    emitter.blank();
    emitter.comment("--- runtime: fiber_throw ---");
    emitter.label_global("__rt_fiber_throw");
    emitter.instruction("sub sp, sp, #32");    // reserve frame plus saved-x19 slot
    emitter.instruction("stp x29, x30, [sp, #16]");    // save frame pointer and return address
    emitter.instruction("str x19, [sp]");    // preserve caller's x19 across the switch
    emitter.instruction("add x29, sp, #16");    // anchor the new frame pointer
    emitter.instruction("mov x19, x0");    // x19 = fiber* (callee-saved across the switch)
    // -- guard: throw() requires state == Suspended; otherwise raise FiberError.
    // Park the Throwable in x20 across the helper because x1 is its argument register.
    emitter.instruction("stp x20, x21, [sp, #-16]!");    // preserve caller's x20/x21 — both are callee-saved registers we are about to repurpose
    emitter.instruction("mov x20, x1");    // x20 = Throwable to deliver, parked across the state check
    emitter.instruction_int("ldr x9, [x19, #", FIBER_STATE_OFFSET as i64, "]");    // x9 = receiver fiber state
    emitter.instruction_int("cmp x9, #", FIBER_STATE_SUSPENDED as i64, "");    // is the fiber currently paused at a Fiber::suspend() call?
    emitter.instruction("b.eq __rt_fiber_throw_state_ok");    // proceed only when the fiber is suspended
    abi::emit_symbol_address(emitter, "x0", "_fiber_msg_throw_not_suspended");    // x0 = pointer to the static error message
    emitter.instruction("mov x1, #43");    // x1 = error message length in bytes
    emitter.instruction("bl __rt_fiber_throw_state_error");    // raise FiberError; this call does not return
    emitter.label("__rt_fiber_throw_state_ok");
    emitter.instruction("mov x1, x20");    // restore the Throwable into the second argument register
    emitter.instruction("ldp x20, x21, [sp], #16");    // restore caller's x20/x21 now that the state check is done
    emitter.instruction_int("str x1, [x19, #", FIBER_PENDING_THROW_OFFSET as i64, "]");    // fiber->pending_throw = Throwable* to raise on resume
    abi::emit_load_symbol_to_reg(emitter, "x9", "_fiber_current", 0);    // x9 = current execution context
    emitter.instruction_int("str x9, [x19, #", FIBER_CALLER_OFFSET as i64, "]");    // fiber->caller = current context
    emitter.instruction("mov x0, x19");    // pass fiber* as the switch target
    emitter.instruction("bl __rt_fiber_switch");    // cooperative switch into the fiber
    // -- check for an escaped exception parked by the trampoline and re-raise it on the caller's stack --
    emitter.instruction_int("ldr x9, [x19, #", FIBER_STATE_OFFSET as i64, "]");    // x9 = current fiber state
    emitter.instruction_int("cmp x9, #", FIBER_STATE_TERMINATED as i64, "");    // is the fiber terminated?
    emitter.instruction("b.ne __rt_fiber_throw_no_escape");    // skip the re-raise path when the fiber is still alive
    emitter.instruction_int("ldr x10, [x19, #", FIBER_PENDING_THROW_OFFSET as i64, "]");    // x10 = parked Throwable (NULL when termination was clean)
    emitter.instruction("cbz x10, __rt_fiber_throw_no_escape");    // skip the re-raise path when no exception escaped
    emitter.instruction_int("str xzr, [x19, #", FIBER_PENDING_THROW_OFFSET as i64, "]");    // clear pending_throw so subsequent inspections see the clean terminated state
    abi::emit_store_reg_to_symbol(emitter, "x10", "_exc_value", 0);    // _exc_value = the escaped Throwable, ready for __rt_throw_current
    emitter.instruction("bl __rt_throw_current");    // re-raise on the caller's stack chain (no return)
    emitter.instruction("brk #0xfffe");    // defensive trap if __rt_throw_current ever returns
    emitter.label("__rt_fiber_throw_no_escape");
    // -- harvest a suspend value, or PHP null when the fiber terminated cleanly --
    emitter.instruction_int("ldr x9, [x19, #", FIBER_STATE_OFFSET as i64, "]");    // x9 = current fiber state after control returned
    emitter.instruction_int("cmp x9, #", FIBER_STATE_TERMINATED as i64, "");    // did the fiber finish instead of suspending again?
    emitter.instruction("b.ne __rt_fiber_throw_return_yield");    // suspended fibers return their next yielded transfer value
    emit_box_null_mixed(emitter);
    emitter.instruction("b __rt_fiber_throw_return_ready");    // skip the yielded-value load after boxing PHP null
    emitter.label("__rt_fiber_throw_return_yield");
    emitter.instruction_int("ldr x0, [x19, #", FIBER_TRANSFER_VALUE_OFFSET as i64, "]");    // x0 = fiber->transfer_value.lo (next yield value)
    emitter.label("__rt_fiber_throw_return_ready");
    emitter.instruction("ldr x19, [sp]");    // restore caller's x19
    emitter.instruction("ldp x29, x30, [sp, #16]");    // restore frame pointer and return address
    emitter.instruction("add sp, sp, #32");    // release the helper frame
    emitter.instruction("ret");    // return the value yielded by the fiber
}

/// Appends to `out` the listing that `emit_fiber_get_current` emits for target `t`.
pub open spec fn fiber_get_current(out: Seq<Line>, t: Target) -> Seq<Line> {
    if t.arch == Arch::X86_64 {
        get_current_x86_64(out, t)
    } else {
        fiber_get_current_aarch64(out, t)
    }
}

/// Appends to `out` the AArch64 listing of `emit_fiber_get_current`.
pub open spec fn fiber_get_current_aarch64(out: Seq<Line>, t: Target) -> Seq<Line> {
    let out = out
        .push(Line::Blank)
        .push(comment("--- runtime: fiber_get_current ---"))
        .push(global("__rt_fiber_get_current"));
    let out = out + load_symbol_to_reg(t, "x1"@, "_fiber_current"@, 0);
    let out = out
        .push(ins("cbz x1, __rt_fiber_get_current_null"))
        .push(ins("mov x0, #6"))
        .push(ins("mov x2, #0"))
        .push(ins("b __rt_mixed_from_value"))
        .push(label("__rt_fiber_get_current_null"))
        .push(ins("mov x0, #8"))
        .push(ins("mov x1, #0"))
        .push(ins("mov x2, #0"))
        .push(ins("b __rt_mixed_from_value"));
    out
}

pub fn emit_fiber_get_current(emitter: &mut Emitter)
    ensures
        final(emitter).target == old(emitter).target,
        final(emitter)@ == fiber_get_current(old(emitter)@, old(emitter).target),
{
    if emitter.target.arch == Arch::X86_64 {
        emit_get_current_x86_64(emitter);
        return;
    }
    emitter.blank();
    emitter.comment("--- runtime: fiber_get_current ---");
    emitter.label_global("__rt_fiber_get_current");
    abi::emit_load_symbol_to_reg(emitter, "x1", "_fiber_current", 0);    // x1 = pointer to the currently running fiber (NULL = main thread)
    emitter.instruction("cbz x1, __rt_fiber_get_current_null");    // main-thread calls return boxed PHP null
    emitter.instruction("mov x0, #6");    // runtime tag 6 = object
    emitter.instruction("mov x2, #0");    // object payloads use only the low word
    emitter.instruction("b __rt_mixed_from_value");    // tail-call the boxer so the caller's link register is preserved
    emitter.label("__rt_fiber_get_current_null");
    emitter.instruction("mov x0, #8");    // runtime tag 8 = PHP null
    emitter.instruction("mov x1, #0");    // null has no low payload word
    emitter.instruction("mov x2, #0");    // null has no high payload word
    emitter.instruction("b __rt_mixed_from_value");    // tail-call the boxer so the caller's link register is preserved
}

/// Appends to `out` the listing that `emit_fiber_get_return` emits for target `t`.
pub open spec fn fiber_get_return(out: Seq<Line>, t: Target) -> Seq<Line> {
    if t.arch == Arch::X86_64 {
        get_return_x86_64(out, t)
    } else {
        fiber_get_return_aarch64(out, t)
    }
}

/// Appends to `out` the AArch64 listing of `emit_fiber_get_return`.
pub open spec fn fiber_get_return_aarch64(out: Seq<Line>, t: Target) -> Seq<Line> {
    let out = out
        .push(Line::Blank)
        .push(comment("--- runtime: fiber_get_return ---"))
        .push(global("__rt_fiber_get_return"))
        .push(ins("sub sp, sp, #32"))
        .push(ins("stp x29, x30, [sp, #16]"))
        .push(ins("str x19, [sp]"))
        .push(ins("add x29, sp, #16"))
        .push(ins("mov x19, x0"))
        .push(ins("cbz x19, __rt_fiber_get_return_null"))
        .push(ins_int("ldr x9, [x19, #", FIBER_STATE_OFFSET as int, "]"))
        .push(ins_int("cmp x9, #", FIBER_STATE_TERMINATED as int, ""))
        .push(ins("b.eq __rt_fiber_get_return_state_ok"));
    let out = out + symbol_address(t, "x0"@, "_fiber_msg_not_terminated"@);
    let out = out
        .push(ins("mov x1, #57"))
        .push(ins("bl __rt_fiber_throw_state_error"))
        .push(label("__rt_fiber_get_return_state_ok"))
        .push(ins_int("ldr x0, [x19, #", FIBER_TRANSFER_VALUE_OFFSET as int, "]"))
        .push(ins("b __rt_fiber_get_return_done"))
        .push(label("__rt_fiber_get_return_null"))
        .push(ins("mov x0, #0"))
        .push(label("__rt_fiber_get_return_done"))
        .push(ins("ldr x19, [sp]"))
        .push(ins("ldp x29, x30, [sp, #16]"))
        .push(ins("add sp, sp, #32"))
        .push(ins("ret"));
    out
}

/// __rt_fiber_get_return: read the value a terminated fiber returned.
/// Input:  x0 = fiber*
/// Output: x0 = fiber->transfer_value.lo (set by the entry trampoline at termination)
pub fn emit_fiber_get_return(emitter: &mut Emitter)
    ensures
        final(emitter).target == old(emitter).target,
        final(emitter)@ == fiber_get_return(old(emitter)@, old(emitter).target),
{
    if emitter.target.arch == Arch::X86_64 {
        emit_get_return_x86_64(emitter);
        return;
    }
    emitter.blank();
    emitter.comment("--- runtime: fiber_get_return ---");
    emitter.label_global("__rt_fiber_get_return");
    emitter.instruction("sub sp, sp, #32");    // reserve frame plus saved-x19 slot
    emitter.instruction("stp x29, x30, [sp, #16]");    // save frame pointer and return address
    emitter.instruction("str x19, [sp]");    // preserve caller's x19 — we use it to remember the receiver across the throw helper
    emitter.instruction("add x29, sp, #16");    // anchor the new frame pointer
    emitter.instruction("mov x19, x0");    // x19 = receiver fiber* (callee-saved across __rt_fiber_throw_state_error)
    emitter.instruction("cbz x19, __rt_fiber_get_return_null");    // null fiber pointer is treated as a diagnostic null result
    // -- guard: getReturn() requires state == Terminated; otherwise raise FiberError --
    emitter.instruction_int("ldr x9, [x19, #", FIBER_STATE_OFFSET as i64, "]");    // x9 = receiver fiber state
    emitter.instruction_int("cmp x9, #", FIBER_STATE_TERMINATED as i64, "");    // has the fiber finished its callable?
    emitter.instruction("b.eq __rt_fiber_get_return_state_ok");    // proceed only when the fiber has terminated
    abi::emit_symbol_address(emitter, "x0", "_fiber_msg_not_terminated");    // x0 = pointer to the static error message
    emitter.instruction("mov x1, #57");    // x1 = error message length in bytes
    emitter.instruction("bl __rt_fiber_throw_state_error");    // raise FiberError; this call does not return
    emitter.label("__rt_fiber_get_return_state_ok");
    emitter.instruction_int("ldr x0, [x19, #", FIBER_TRANSFER_VALUE_OFFSET as i64, "]");    // x0 = fiber->transfer_value.lo (the closure's return value)
    emitter.instruction("b __rt_fiber_get_return_done");    // skip the NULL-receiver fallback once the return value is loaded
    emitter.label("__rt_fiber_get_return_null");
    emitter.instruction("mov x0, #0");    // safe default when a NULL receiver bypassed type checking
    emitter.label("__rt_fiber_get_return_done");
    emitter.instruction("ldr x19, [sp]");    // restore caller's x19
    emitter.instruction("ldp x29, x30, [sp, #16]");    // restore frame pointer and return address
    emitter.instruction("add sp, sp, #32");    // release the helper frame
    emitter.instruction("ret");    // hand the captured value back to the caller
}

/// Appends to `out` the listing that `emit_fiber_state_getter` emits for target `t`.
pub open spec fn fiber_state_getter(out: Seq<Line>, t: Target) -> Seq<Line> {
    if t.arch == Arch::X86_64 {
        state_getter_x86_64(out, t)
    } else {
        fiber_state_getter_aarch64(out, t)
    }
}

/// Appends to `out` the AArch64 listing of `emit_fiber_state_getter`.
pub open spec fn fiber_state_getter_aarch64(out: Seq<Line>, t: Target) -> Seq<Line> {
    let out = out
        .push(Line::Blank)
        .push(comment("--- runtime: fiber_state_eq ---"))
        .push(global("__rt_fiber_state_eq"))
        .push(ins("cbz x0, __rt_fiber_state_eq_false"))
        .push(ins_int("ldr x9, [x0, #", FIBER_STATE_OFFSET as int, "]"))
        .push(ins("cmp x9, x1"))
        .push(ins("cset x0, eq"))
        .push(ins("ret"))
        .push(label("__rt_fiber_state_eq_false"))
        .push(ins("mov x0, #0"))
        .push(ins("ret"));
    out
}

/// Generic state predicate: `x0 = fiber*`, `x1 = expected state value` → `x0 = 1 or 0`.
pub fn emit_fiber_state_getter(emitter: &mut Emitter)
    ensures
        final(emitter).target == old(emitter).target,
        final(emitter)@ == fiber_state_getter(old(emitter)@, old(emitter).target),
{
    if emitter.target.arch == Arch::X86_64 {
        emit_state_getter_x86_64(emitter);
        return;
    }
    emitter.blank();
    emitter.comment("--- runtime: fiber_state_eq ---");
    emitter.label_global("__rt_fiber_state_eq");
    emitter.instruction("cbz x0, __rt_fiber_state_eq_false");    // a NULL fiber pointer never matches any state predicate
    emitter.instruction_int("ldr x9, [x0, #", FIBER_STATE_OFFSET as i64, "]");    // x9 = current state stored on the fiber
    emitter.instruction("cmp x9, x1");    // compare current state to the requested predicate value
    emitter.instruction("cset x0, eq");    // materialise the boolean result (1 when equal, 0 otherwise)
    emitter.instruction("ret");    // return the predicate result
    emitter.label("__rt_fiber_state_eq_false");
    emitter.instruction("mov x0, #0");    // NULL fiber pointer always evaluates to false
    emitter.instruction("ret");    // return false to the caller
}

/// Appends to `out` the listing that `emit_throw_state_error_x86_64` emits for target `t`.
pub open spec fn throw_state_error_x86_64(out: Seq<Line>, t: Target) -> Seq<Line> {
    let out = out
        .push(Line::Blank)
        .push(comment("--- runtime: fiber_throw_state_error ---"))
        .push(global("__rt_fiber_throw_state_error"))
        .push(ins("push rbp"))
        .push(ins("mov rbp, rsp"))
        .push(ins("push r12"))
        .push(ins("push r13"))
        .push(ins("mov r12, rdi"))
        .push(ins("mov r13, rsi"))
        .push(ins("mov rax, 24"))
        .push(ins("call __rt_heap_alloc"))
        .push(ins_hex("mov r10, ", ((X86_64_HEAP_MAGIC_HI32 << 32) | 4) as nat))
        .push(ins("mov QWORD PTR [rax - 8], r10"));
    let out = out + load_symbol_to_reg(t, "r10"@, "_fiber_error_class_id"@, 0);
    let out = out
        .push(ins("mov QWORD PTR [rax], r10"))
        .push(ins("mov QWORD PTR [rax + 8], r12"))
        .push(ins("mov QWORD PTR [rax + 16], r13"));
    let out = out + store_reg_to_symbol(t, "rax"@, "_exc_value"@, 0);
    let out = out
        .push(ins("call __rt_throw_current"))
        .push(ins("ud2"));
    out
}

fn emit_throw_state_error_x86_64(emitter: &mut Emitter)
    ensures
        final(emitter).target == old(emitter).target,
        final(emitter)@ == throw_state_error_x86_64(old(emitter)@, old(emitter).target),
{
    emitter.blank();
    emitter.comment("--- runtime: fiber_throw_state_error ---");
    emitter.label_global("__rt_fiber_throw_state_error");
    emitter.instruction("push rbp");    // preserve the caller frame pointer while building FiberError
    emitter.instruction("mov rbp, rsp");    // establish a stable frame base for the throw helper
    emitter.instruction("push r12");    // preserve the message pointer across heap allocation
    emitter.instruction("push r13");    // preserve the message length across heap allocation
    emitter.instruction("mov r12, rdi");    // r12 = message bytes pointer
    emitter.instruction("mov r13, rsi");    // r13 = message length
    emitter.instruction("mov rax, 24");    // FiberError object size (8 class_id + 16 message property)
    emitter.instruction("call __rt_heap_alloc");    // rax = freshly allocated payload pointer
    emitter.instruction_hex("mov r10, ", (X86_64_HEAP_MAGIC_HI32 << 32) | 4);    // materialize the object heap kind word
    emitter.instruction("mov QWORD PTR [rax - 8], r10");    // stamp the kind in the uniform heap header
    abi::emit_load_symbol_to_reg(emitter, "r10", "_fiber_error_class_id", 0);    // r10 = runtime class id of FiberError
    emitter.instruction("mov QWORD PTR [rax], r10");    // store FiberError class id at the object header
    emitter.instruction("mov QWORD PTR [rax + 8], r12");    // message property low half = bytes pointer
    emitter.instruction("mov QWORD PTR [rax + 16], r13");    // message property high half = byte length
    abi::emit_store_reg_to_symbol(emitter, "rax", "_exc_value", 0);    // _exc_value = the freshly built FiberError
    emitter.instruction("call __rt_throw_current");    // unwind into the active try/catch chain (no return)
    emitter.instruction("ud2");    // defensive trap: __rt_throw_current must not return here
}

/// Appends to `out` the listing that `emit_construct_x86_64` emits for target `t`.
pub open spec fn construct_x86_64(out: Seq<Line>, t: Target) -> Seq<Line> {
    let initial_frame_bytes = spec_fiber_initial_stack_frame_bytes(t.arch);
    let initial_entry_offset = spec_fiber_initial_entry_offset(t.arch);
    let out = out
        .push(Line::Blank)
        .push(comment("--- runtime: fiber_construct ---"))
        .push(global("__rt_fiber_construct"))
        .push(ins("push rbp"))
        .push(ins("mov rbp, rsp"))
        .push(ins("push r12"))
        .push(ins("push r13"))
        .push(ins("push r14"))
        .push(ins("push r15"))
        .push(ins("mov r12, rdi"))
        .push(ins("mov r13, rsi"))
        .push(ins("mov r15, rdx"))
        .push(ins_int("mov rax, ", FIBER_OBJECT_SIZE as int, ""))
        .push(ins("call __rt_heap_alloc"))
        .push(ins("mov r14, rax"))
        .push(ins_hex("mov r10, ", ((X86_64_HEAP_MAGIC_HI32 << 32) | 4) as nat));
    let out = out
        .push(ins("mov QWORD PTR [r14 - 8], r10"))
        .push(ins("mov QWORD PTR [r14], r13"))
        .push(ins("lea r10, [r14 + 8]"))
        .push(ins_int("mov r11, ", ((FIBER_OBJECT_SIZE - 8) / 8) as int, ""))
        .push(label("__rt_fiber_construct_zero_object_loop"))
        .push(ins("mov QWORD PTR [r10], 0"))
        .push(ins("add r10, 8"))
        .push(ins("sub r11, 1"))
        .push(ins("jne __rt_fiber_construct_zero_object_loop"))
        .push(ins_int("mov r10, ", FIBER_START_ARGS_MAX as int, ""))
        .push(ins_int("mov QWORD PTR [r14 + ", FIBER_USER_ARG_MAX_OFFSET as int, "], r10"))
        .push(ins_int("mov QWORD PTR [r14 + ", FIBER_CALLABLE_OFFSET as int, "], r12"))
        .push(ins_int("mov QWORD PTR [r14 + ", FIBER_CALLABLE_WRAPPER_OFFSET as int, "], r15"))
        .push(ins_int("mov edi, ", FIBER_DEFAULT_STACK_SIZE as int, ""))
        .push(ins("call __rt_fiber_alloc_stack"))
        .push(ins_int("mov QWORD PTR [r14 + ", FIBER_STACK_BASE_OFFSET as int, "], rax"));
    let out = out
        .push(ins_int("mov QWORD PTR [r14 + ", FIBER_STACK_TOP_OFFSET as int, "], rdx"))
        .push(ins_int("mov QWORD PTR [r14 + ", FIBER_STACK_SIZE_OFFSET as int, "], rcx"))
        .push(ins_int("lea r10, [rdx - ", initial_frame_bytes as int, "]"))
        .push(ins_int("mov QWORD PTR [r14 + ", FIBER_SAVED_SP_OFFSET as int, "], r10"))
        .push(ins("mov r11, r10"))
        .push(ins_int("mov rcx, ", (initial_frame_bytes / 8) as int, ""))
        .push(label("__rt_fiber_construct_zero_frame_loop"))
        .push(ins("mov QWORD PTR [r11], 0"))
        .push(ins("add r11, 8"))
        .push(ins("sub rcx, 1"))
        .push(ins("jne __rt_fiber_construct_zero_frame_loop"));
    let out = out + symbol_address(t, "r11"@, "__rt_fiber_entry"@);
    let out = out
        .push(ins_int("mov QWORD PTR [r10 + ", initial_entry_offset as int, "], r11"))
        .push(ins_int2("mov QWORD PTR [r14 + ", FIBER_STATE_OFFSET as int, "], ", FIBER_STATE_NOT_STARTED as int, ""))
        .push(ins("mov rax, r14"))
        .push(ins("pop r15"))
        .push(ins("pop r14"))
        .push(ins("pop r13"))
        .push(ins("pop r12"))
        .push(ins("pop rbp"))
        .push(ins("ret"));
    out
}

fn emit_construct_x86_64(emitter: &mut Emitter)
    ensures
        final(emitter).target == old(emitter).target,
        final(emitter)@ == construct_x86_64(old(emitter)@, old(emitter).target),
{
    let initial_frame_bytes = fiber_initial_stack_frame_bytes(emitter.target.arch);
    let initial_entry_offset = fiber_initial_entry_offset(emitter.target.arch);
    emitter.blank();
    emitter.comment("--- runtime: fiber_construct ---");
    emitter.label_global("__rt_fiber_construct");
    // -- frame: keep callable/class/wrapper/object across heap and stack calls --
    emitter.instruction("push rbp");    // preserve the caller frame pointer for the constructor helper
    emitter.instruction("mov rbp, rsp");    // establish a stable frame base while nested helpers run
    emitter.instruction("push r12");    // preserve callable across heap allocation
    emitter.instruction("push r13");    // preserve class_id across heap allocation
    emitter.instruction("push r14");    // preserve the allocated Fiber object pointer
    emitter.instruction("push r15");    // preserve the generated Fiber wrapper pointer
    emitter.instruction("mov r12, rdi");    // r12 = callable pointer
    emitter.instruction("mov r13, rsi");    // r13 = Fiber class_id
    emitter.instruction("mov r15, rdx");    // r15 = generated Fiber wrapper pointer
    // -- allocate the Fiber object payload --
    emitter.instruction_int("mov rax, ", FIBER_OBJECT_SIZE as i64, "");    // size in bytes for the Fiber object payload
    emitter.instruction("call __rt_heap_alloc");    // rax = pointer to the object payload
    emitter.instruction("mov r14, rax");    // r14 = Fiber object pointer kept until return
    emitter.instruction_hex("mov r10, ", (X86_64_HEAP_MAGIC_HI32 << 32) | 4);    // materialize the object heap kind word
    emitter.instruction("mov QWORD PTR [r14 - 8], r10");    // stamp the allocation as an object instance
    emitter.instruction("mov QWORD PTR [r14], r13");    // store the runtime class_id at the object header
    // -- zero-initialise every Fiber field before populating meaningful ones --
    emitter.instruction("lea r10, [r14 + 8]");    // r10 = first runtime-managed Fiber field after class_id
    emitter.instruction_int("mov r11, ", ((FIBER_OBJECT_SIZE - 8) / 8) as i64, "");    // r11 = number of qword fields to clear
    emitter.label("__rt_fiber_construct_zero_object_loop");
    emitter.instruction("mov QWORD PTR [r10], 0");    // clear the current runtime-managed Fiber qword field
    emitter.instruction("add r10, 8");    // advance to the next qword field
    emitter.instruction("sub r11, 1");    // consume one field from the clear count
    emitter.instruction("jne __rt_fiber_construct_zero_object_loop");    // continue until every runtime-managed field is zeroed
    emitter.instruction_int("mov r10, ", FIBER_START_ARGS_MAX as i64, "");    // default user_arg_max = full slot count
    emitter.instruction_int("mov QWORD PTR [r14 + ", FIBER_USER_ARG_MAX_OFFSET as i64, "], r10");    // user_arg_max stored on the freshly built fiber
    emitter.instruction_int("mov QWORD PTR [r14 + ", FIBER_CALLABLE_OFFSET as i64, "], r12");    // callable.lo = closure pointer
    emitter.instruction_int("mov QWORD PTR [r14 + ", FIBER_CALLABLE_WRAPPER_OFFSET as i64, "], r15");    // callable wrapper = Fiber entry ABI adapter
    // -- allocate the per-fiber stack via mmap; alloc returns base/top/total --
    emitter.instruction_int("mov edi, ", FIBER_DEFAULT_STACK_SIZE as i64, "");    // request the default usable fiber stack size in bytes
    emitter.instruction("call __rt_fiber_alloc_stack");    // rax = stack_base, rdx = stack_top, rcx = total mapped length
    emitter.instruction_int("mov QWORD PTR [r14 + ", FIBER_STACK_BASE_OFFSET as i64, "], rax");    // stack_base = mmap mapping start
    emitter.instruction_int("mov QWORD PTR [r14 + ", FIBER_STACK_TOP_OFFSET as i64, "], rdx");    // stack_top = initial SP target
    emitter.instruction_int("mov QWORD PTR [r14 + ", FIBER_STACK_SIZE_OFFSET as i64, "], rcx");    // stack_size = total mapped length
    // -- carve out and zero a fake initial frame at the top of the stack --
    emitter.instruction_int("lea r10, [rdx - ", initial_frame_bytes as i64, "]");    // r10 = initial saved_sp for the switch restore path
    emitter.instruction_int("mov QWORD PTR [r14 + ", FIBER_SAVED_SP_OFFSET as i64, "], r10");    // saved_sp points at the fake switch frame
    emitter.instruction("mov r11, r10");    // r11 = cursor through the fake frame
    emitter.instruction_int("mov rcx, ", (initial_frame_bytes / 8) as i64, "");    // rcx = number of qwords to zero in the fake frame
    emitter.label("__rt_fiber_construct_zero_frame_loop");
    emitter.instruction("mov QWORD PTR [r11], 0");    // zero one saved-register or saved-return slot
    emitter.instruction("add r11, 8");    // advance to the next fake-frame qword
    emitter.instruction("sub rcx, 1");    // consume one fake-frame qword
    emitter.instruction("jne __rt_fiber_construct_zero_frame_loop");    // continue until the fake frame is zeroed
    abi::emit_symbol_address(emitter, "r11", "__rt_fiber_entry");    // r11 = absolute address of the entry trampoline
    emitter.instruction_int("mov QWORD PTR [r10 + ", initial_entry_offset as i64, "], r11");    // saved return address = entry trampoline
    // -- finish: state = NotStarted and return the new Fiber pointer --
    emitter.instruction_int2("mov QWORD PTR [r14 + ", FIBER_STATE_OFFSET as i64, "], ", FIBER_STATE_NOT_STARTED as i64, "");    // state = NotStarted
    emitter.instruction("mov rax, r14");    // return the freshly built Fiber pointer
    emitter.instruction("pop r15");    // restore caller's r15
    emitter.instruction("pop r14");    // restore caller's r14
    emitter.instruction("pop r13");    // restore caller's r13
    emitter.instruction("pop r12");    // restore caller's r12
    emitter.instruction("pop rbp");    // restore caller frame pointer
    emitter.instruction("ret");    // hand the new Fiber object back to the constructor caller
}

/// Appends to `out` the listing that `emit_start_x86_64` emits for target `t`.
pub open spec fn start_x86_64(out: Seq<Line>, t: Target) -> Seq<Line> {
    let out = out
        .push(Line::Blank)
        .push(comment("--- runtime: fiber_start ---"))
        .push(global("__rt_fiber_start"))
        .push(ins("push rbp"))
        .push(ins("mov rbp, rsp"))
        .push(ins("push r12"))
        .push(ins("sub rsp, 8"))
        .push(ins("mov r12, rdi"))
        .push(ins_int("mov r10, QWORD PTR [r12 + ", FIBER_STATE_OFFSET as int, "]"))
        .push(ins_int("cmp r10, ", FIBER_STATE_NOT_STARTED as int, ""))
        .push(ins("je __rt_fiber_start_state_ok"));
    let out = out + symbol_address(t, "rdi"@, "_fiber_msg_already_started"@);
    let out = out
        .push(ins("mov esi, 50"))
        .push(ins("call __rt_fiber_throw_state_error"))
        .push(label("__rt_fiber_start_state_ok"));
    let out = out + load_symbol_to_reg(t, "r10"@, "_fiber_current"@, 0);
    let out = out
        .push(ins_int("mov QWORD PTR [r12 + ", FIBER_CALLER_OFFSET as int, "], r10"))
        .push(ins("mov rdi, r12"))
        .push(ins("call __rt_fiber_switch"));
    let out = check_escape_x86_64(out, t, "start");
    let out = out
        .push(ins_int("mov r10, QWORD PTR [r12 + ", FIBER_STATE_OFFSET as int, "]"))
        .push(ins_int("cmp r10, ", FIBER_STATE_TERMINATED as int, ""))
        .push(ins("jne __rt_fiber_start_return_yield"));
    let out = box_null_mixed(out, t);
    let out = out
        .push(ins("jmp __rt_fiber_start_return_ready"))
        .push(label("__rt_fiber_start_return_yield"))
        .push(ins_int("mov rax, QWORD PTR [r12 + ", FIBER_TRANSFER_VALUE_OFFSET as int, "]"))
        .push(label("__rt_fiber_start_return_ready"))
        .push(ins("add rsp, 8"))
        .push(ins("pop r12"))
        .push(ins("pop rbp"))
        .push(ins("ret"));
    out
}

fn emit_start_x86_64(emitter: &mut Emitter)
    ensures
        final(emitter).target == old(emitter).target,
        final(emitter)@ == start_x86_64(old(emitter)@, old(emitter).target),
{
    emitter.blank();
    emitter.comment("--- runtime: fiber_start ---");
    emitter.label_global("__rt_fiber_start");
    emitter.instruction("push rbp");    // preserve the caller frame pointer while switching fibers
    emitter.instruction("mov rbp, rsp");    // establish a stable frame base for the start helper
    emitter.instruction("push r12");    // preserve the receiver Fiber pointer across the cooperative switch
    emitter.instruction("sub rsp, 8");    // keep the SysV stack aligned after saving one callee-saved register
    emitter.instruction("mov r12, rdi");    // r12 = fiber object pointer
    emitter.instruction_int("mov r10, QWORD PTR [r12 + ", FIBER_STATE_OFFSET as i64, "]");    // r10 = receiver fiber state
    emitter.instruction_int("cmp r10, ", FIBER_STATE_NOT_STARTED as i64, "");    // is the fiber still in the NotStarted state?
    emitter.instruction("je __rt_fiber_start_state_ok");    // proceed when the fiber has not been started yet
    abi::emit_symbol_address(emitter, "rdi", "_fiber_msg_already_started");    // rdi = pointer to the static error message
    emitter.instruction("mov esi, 50");    // rsi = error message length in bytes
    emitter.instruction("call __rt_fiber_throw_state_error");    // raise FiberError; this call does not return
    emitter.label("__rt_fiber_start_state_ok");
    abi::emit_load_symbol_to_reg(emitter, "r10", "_fiber_current", 0);    // r10 = whoever is running right now
    emitter.instruction_int("mov QWORD PTR [r12 + ", FIBER_CALLER_OFFSET as i64, "], r10");    // fiber->caller = current execution context
    emitter.instruction("mov rdi, r12");    // pass fiber* as the switch target
    emitter.instruction("call __rt_fiber_switch");    // cooperative context switch into the fiber
    emit_check_escape_x86_64(emitter, "start");
    emitter.instruction_int("mov r10, QWORD PTR [r12 + ", FIBER_STATE_OFFSET as i64, "]");    // r10 = current fiber state after control returned
    emitter.instruction_int("cmp r10, ", FIBER_STATE_TERMINATED as i64, "");    // did the fiber finish instead of suspending?
    emitter.instruction("jne __rt_fiber_start_return_yield");    // suspended fibers return their yielded transfer value
    emit_box_null_mixed(emitter);
    emitter.instruction("jmp __rt_fiber_start_return_ready");    // skip the yielded-value load after boxing PHP null
    emitter.label("__rt_fiber_start_return_yield");
    emitter.instruction_int("mov rax, QWORD PTR [r12 + ", FIBER_TRANSFER_VALUE_OFFSET as i64, "]");    // rax = fiber->transfer_value.lo
    emitter.label("__rt_fiber_start_return_ready");
    emitter.instruction("add rsp, 8");    // drop the alignment pad
    emitter.instruction("pop r12");    // restore caller's r12
    emitter.instruction("pop rbp");    // restore caller frame pointer
    emitter.instruction("ret");    // return the harvested value to the caller
}

/// Appends to `out` the listing that `emit_resume_x86_64` emits for target `t`.
pub open spec fn resume_x86_64(out: Seq<Line>, t: Target) -> Seq<Line> {
    let out = out
        .push(Line::Blank)
        .push(comment("--- runtime: fiber_resume ---"))
        .push(global("__rt_fiber_resume"))
        .push(ins("push rbp"))
        .push(ins("mov rbp, rsp"))
        .push(ins("push r12"))
        .push(ins("push r13"))
        .push(ins("mov r12, rdi"))
        .push(ins("mov r13, rsi"))
        .push(ins_int("mov r10, QWORD PTR [r12 + ", FIBER_STATE_OFFSET as int, "]"))
        .push(ins_int("cmp r10, ", FIBER_STATE_SUSPENDED as int, ""))
        .push(ins("je __rt_fiber_resume_state_ok"));
    let out = out + symbol_address(t, "rdi"@, "_fiber_msg_not_suspended"@);
    let out = out
        .push(ins("mov esi, 43"))
        .push(ins("call __rt_fiber_throw_state_error"))
        .push(label("__rt_fiber_resume_state_ok"))
        .push(ins_int("mov QWORD PTR [r12 + ", FIBER_TRANSFER_VALUE_OFFSET as int, "], r13"));
    let out = out + load_symbol_to_reg(t, "r10"@, "_fiber_current"@, 0);
    let out = out
        .push(ins_int("mov QWORD PTR [r12 + ", FIBER_CALLER_OFFSET as int, "], r10"))
        .push(ins("mov rdi, r12"))
        .push(ins("call __rt_fiber_switch"));
    let out = check_escape_x86_64(out, t, "resume");
    let out = out
        .push(ins_int("mov r10, QWORD PTR [r12 + ", FIBER_STATE_OFFSET as int, "]"))
        .push(ins_int("cmp r10, ", FIBER_STATE_TERMINATED as int, ""))
        .push(ins("jne __rt_fiber_resume_return_yield"));
    let out = box_null_mixed(out, t);
    let out = out
        .push(ins("jmp __rt_fiber_resume_return_ready"))
        .push(label("__rt_fiber_resume_return_yield"))
        .push(ins_int("mov rax, QWORD PTR [r12 + ", FIBER_TRANSFER_VALUE_OFFSET as int, "]"))
        .push(label("__rt_fiber_resume_return_ready"))
        .push(ins("pop r13"))
        .push(ins("pop r12"))
        .push(ins("pop rbp"))
        .push(ins("ret"));
    out
}

fn emit_resume_x86_64(emitter: &mut Emitter)
    ensures
        final(emitter).target == old(emitter).target,
        final(emitter)@ == resume_x86_64(old(emitter)@, old(emitter).target),
{
    emitter.blank();
    emitter.comment("--- runtime: fiber_resume ---");
    emitter.label_global("__rt_fiber_resume");
    emitter.instruction("push rbp");    // preserve the caller frame pointer while switching fibers
    emitter.instruction("mov rbp, rsp");    // establish a stable frame base for the resume helper
    emitter.instruction("push r12");    // preserve the receiver Fiber pointer across the cooperative switch
    emitter.instruction("push r13");    // preserve the resume value across state validation
    emitter.instruction("mov r12, rdi");    // r12 = fiber object pointer
    emitter.instruction("mov r13, rsi");    // r13 = boxed Mixed value to deliver
    emitter.instruction_int("mov r10, QWORD PTR [r12 + ", FIBER_STATE_OFFSET as i64, "]");    // r10 = receiver fiber state
    emitter.instruction_int("cmp r10, ", FIBER_STATE_SUSPENDED as i64, "");    // is the fiber currently paused at Fiber::suspend()?
    emitter.instruction("je __rt_fiber_resume_state_ok");    // proceed only when the fiber is suspended
    abi::emit_symbol_address(emitter, "rdi", "_fiber_msg_not_suspended");    // rdi = pointer to the static error message
    emitter.instruction("mov esi, 43");    // rsi = error message length in bytes
    emitter.instruction("call __rt_fiber_throw_state_error");    // raise FiberError; this call does not return
    emitter.label("__rt_fiber_resume_state_ok");
    emitter.instruction_int("mov QWORD PTR [r12 + ", FIBER_TRANSFER_VALUE_OFFSET as i64, "], r13");    // fiber->transfer_value.lo = resume value
    abi::emit_load_symbol_to_reg(emitter, "r10", "_fiber_current", 0);    // r10 = current execution context to remember as caller
    emitter.instruction_int("mov QWORD PTR [r12 + ", FIBER_CALLER_OFFSET as i64, "], r10");    // fiber->caller = current execution context
    emitter.instruction("mov rdi, r12");    // pass fiber* as the switch target
    emitter.instruction("call __rt_fiber_switch");    // cooperative context switch into the fiber
    emit_check_escape_x86_64(emitter, "resume");
    emitter.instruction_int("mov r10, QWORD PTR [r12 + ", FIBER_STATE_OFFSET as i64, "]");    // r10 = current fiber state after control returned
    emitter.instruction_int("cmp r10, ", FIBER_STATE_TERMINATED as i64, "");    // did the fiber finish instead of suspending again?
    emitter.instruction("jne __rt_fiber_resume_return_yield");    // suspended fibers return their next yielded transfer value
    emit_box_null_mixed(emitter);
    emitter.instruction("jmp __rt_fiber_resume_return_ready");    // skip the yielded-value load after boxing PHP null
    emitter.label("__rt_fiber_resume_return_yield");
    emitter.instruction_int("mov rax, QWORD PTR [r12 + ", FIBER_TRANSFER_VALUE_OFFSET as i64, "]");    // rax = fiber->transfer_value.lo
    emitter.label("__rt_fiber_resume_return_ready");
    emitter.instruction("pop r13");    // restore caller's r13
    emitter.instruction("pop r12");    // restore caller's r12
    emitter.instruction("pop rbp");    // restore caller frame pointer
    emitter.instruction("ret");    // return the harvested value to the caller
}

/// Appends to `out` the listing that `emit_suspend_x86_64` emits for target `t`.
pub open spec fn suspend_x86_64(out: Seq<Line>, t: Target) -> Seq<Line> {
    let out = out
        .push(Line::Blank)
        .push(comment("--- runtime: fiber_suspend ---"))
        .push(global("__rt_fiber_suspend"))
        .push(ins("push rbp"))
        .push(ins("mov rbp, rsp"))
        .push(ins("push r12"))
        .push(ins("push r13"))
        .push(ins("mov r13, rdi"));
    let out = out + load_symbol_to_reg(t, "r12"@, "_fiber_current"@, 0);
    let out = out
        .push(ins("test r12, r12"))
        .push(ins("jne __rt_fiber_suspend_state_ok"));
    let out = out + symbol_address(t, "rdi"@, "_fiber_msg_suspend_outside"@);
    let out = out
        .push(ins("mov esi, 33"))
        .push(ins("call __rt_fiber_throw_state_error"))
        .push(label("__rt_fiber_suspend_state_ok"))
        .push(ins_int("mov QWORD PTR [r12 + ", FIBER_TRANSFER_VALUE_OFFSET as int, "], r13"))
        .push(ins_int2("mov QWORD PTR [r12 + ", FIBER_STATE_OFFSET as int, "], ", FIBER_STATE_SUSPENDED as int, ""))
        .push(ins_int("mov rdi, QWORD PTR [r12 + ", FIBER_CALLER_OFFSET as int, "]"))
        .push(ins("call __rt_fiber_switch"))
        .push(ins_int2("mov QWORD PTR [r12 + ", FIBER_STATE_OFFSET as int, "], ", FIBER_STATE_RUNNING as int, ""))
        .push(ins_int("mov r10, QWORD PTR [r12 + ", FIBER_PENDING_THROW_OFFSET as int, "]"))
        .push(ins("test r10, r10"))
        .push(ins("je __rt_fiber_suspend_no_throw"))
        .push(ins_int("mov QWORD PTR [r12 + ", FIBER_PENDING_THROW_OFFSET as int, "], 0"));
    let out = out + store_reg_to_symbol(t, "r10"@, "_exc_value"@, 0);
    let out = out
        .push(ins("call __rt_throw_current"))
        .push(label("__rt_fiber_suspend_no_throw"))
        .push(ins_int("mov rax, QWORD PTR [r12 + ", FIBER_TRANSFER_VALUE_OFFSET as int, "]"))
        .push(ins("pop r13"))
        .push(ins("pop r12"))
        .push(ins("pop rbp"))
        .push(ins("ret"));
    out
}

fn emit_suspend_x86_64(emitter: &mut Emitter)
    ensures
        final(emitter).target == old(emitter).target,
        final(emitter)@ == suspend_x86_64(old(emitter)@, old(emitter).target),
{
    emitter.blank();
    emitter.comment("--- runtime: fiber_suspend ---");
    emitter.label_global("__rt_fiber_suspend");
    emitter.instruction("push rbp");    // preserve the caller frame pointer while yielding
    emitter.instruction("mov rbp, rsp");    // establish a stable frame base for the suspend helper
    emitter.instruction("push r12");    // preserve the current Fiber pointer across the cooperative switch
    emitter.instruction("push r13");    // preserve the yielded value across state validation
    emitter.instruction("mov r13, rdi");    // r13 = boxed Mixed value being yielded
    abi::emit_load_symbol_to_reg(emitter, "r12", "_fiber_current", 0);    // r12 = currently running fiber* (NULL means main)
    emitter.instruction("test r12, r12");    // are we executing inside a Fiber?
    emitter.instruction("jne __rt_fiber_suspend_state_ok");    // proceed when suspend() is called from a Fiber
    abi::emit_symbol_address(emitter, "rdi", "_fiber_msg_suspend_outside");    // rdi = pointer to the static error message
    emitter.instruction("mov esi, 33");    // rsi = error message length in bytes
    emitter.instruction("call __rt_fiber_throw_state_error");    // raise FiberError; this call does not return
    emitter.label("__rt_fiber_suspend_state_ok");
    emitter.instruction_int("mov QWORD PTR [r12 + ", FIBER_TRANSFER_VALUE_OFFSET as i64, "], r13");    // fiber->transfer_value.lo = yielded value
    emitter.instruction_int2("mov QWORD PTR [r12 + ", FIBER_STATE_OFFSET as i64, "], ", FIBER_STATE_SUSPENDED as i64, "");    // fiber->state = Suspended
    emitter.instruction_int("mov rdi, QWORD PTR [r12 + ", FIBER_CALLER_OFFSET as i64, "]");    // rdi = fiber->caller
    emitter.instruction("call __rt_fiber_switch");    // hand control back to the caller's resume site
    emitter.instruction_int2("mov QWORD PTR [r12 + ", FIBER_STATE_OFFSET as i64, "], ", FIBER_STATE_RUNNING as i64, "");    // fiber->state = Running
    emitter.instruction_int("mov r10, QWORD PTR [r12 + ", FIBER_PENDING_THROW_OFFSET as i64, "]");    // r10 = pending Throwable*
    emitter.instruction("test r10, r10");    // did Fiber->throw() schedule an exception?
    emitter.instruction("je __rt_fiber_suspend_no_throw");    // skip the raise path when no exception is pending
    emitter.instruction_int("mov QWORD PTR [r12 + ", FIBER_PENDING_THROW_OFFSET as i64, "], 0");    // clear pending_throw before re-raising
    abi::emit_store_reg_to_symbol(emitter, "r10", "_exc_value", 0);    // _exc_value = Throwable to raise inside this Fiber
    emitter.instruction("call __rt_throw_current");    // unwind into the active try/catch on the fiber stack
    emitter.label("__rt_fiber_suspend_no_throw");
    emitter.instruction_int("mov rax, QWORD PTR [r12 + ", FIBER_TRANSFER_VALUE_OFFSET as i64, "]");    // rax = value delivered by resume()
    emitter.instruction("pop r13");    // restore caller's r13
    emitter.instruction("pop r12");    // restore caller's r12
    emitter.instruction("pop rbp");    // restore caller frame pointer
    emitter.instruction("ret");    // return the resumer-delivered value
}

/// Appends to `out` the listing that `emit_throw_x86_64` emits for target `t`.
pub open spec fn throw_x86_64(out: Seq<Line>, t: Target) -> Seq<Line> {
    let out = out
        .push(Line::Blank)
        .push(comment("--- runtime: fiber_throw ---"))
        .push(global("__rt_fiber_throw"))
        .push(ins("push rbp"))
        .push(ins("mov rbp, rsp"))
        .push(ins("push r12"))
        .push(ins("push r13"))
        .push(ins("mov r12, rdi"))
        .push(ins("mov r13, rsi"))
        .push(ins_int("mov r10, QWORD PTR [r12 + ", FIBER_STATE_OFFSET as int, "]"))
        .push(ins_int("cmp r10, ", FIBER_STATE_SUSPENDED as int, ""))
        .push(ins("je __rt_fiber_throw_state_ok"));
    let out = out + symbol_address(t, "rdi"@, "_fiber_msg_throw_not_suspended"@);
    let out = out
        .push(ins("mov esi, 43"))
        .push(ins("call __rt_fiber_throw_state_error"))
        .push(label("__rt_fiber_throw_state_ok"))
        .push(ins_int("mov QWORD PTR [r12 + ", FIBER_PENDING_THROW_OFFSET as int, "], r13"));
    let out = out + load_symbol_to_reg(t, "r10"@, "_fiber_current"@, 0);
    let out = out
        .push(ins_int("mov QWORD PTR [r12 + ", FIBER_CALLER_OFFSET as int, "], r10"))
        .push(ins("mov rdi, r12"))
        .push(ins("call __rt_fiber_switch"));
    let out = check_escape_x86_64(out, t, "throw");
    let out = out
        .push(ins_int("mov r10, QWORD PTR [r12 + ", FIBER_STATE_OFFSET as int, "]"))
        .push(ins_int("cmp r10, ", FIBER_STATE_TERMINATED as int, ""))
        .push(ins("jne __rt_fiber_throw_return_yield"));
    let out = box_null_mixed(out, t);
    let out = out
        .push(ins("jmp __rt_fiber_throw_return_ready"))
        .push(label("__rt_fiber_throw_return_yield"))
        .push(ins_int("mov rax, QWORD PTR [r12 + ", FIBER_TRANSFER_VALUE_OFFSET as int, "]"))
        .push(label("__rt_fiber_throw_return_ready"))
        .push(ins("pop r13"))
        .push(ins("pop r12"))
        .push(ins("pop rbp"))
        .push(ins("ret"));
    out
}

fn emit_throw_x86_64(emitter: &mut Emitter)
    ensures
        final(emitter).target == old(emitter).target,
        final(emitter)@ == throw_x86_64(old(emitter)@, old(emitter).target),
{
    emitter.blank();
    emitter.comment("--- runtime: fiber_throw ---");
    emitter.label_global("__rt_fiber_throw");
    emitter.instruction("push rbp");    // preserve the caller frame pointer while switching fibers
    emitter.instruction("mov rbp, rsp");    // establish a stable frame base for the throw helper
    emitter.instruction("push r12");    // preserve the receiver Fiber pointer across the cooperative switch
    emitter.instruction("push r13");    // preserve the Throwable pointer across state validation
    emitter.instruction("mov r12, rdi");    // r12 = fiber object pointer
    emitter.instruction("mov r13, rsi");    // r13 = Throwable to deliver
    emitter.instruction_int("mov r10, QWORD PTR [r12 + ", FIBER_STATE_OFFSET as i64, "]");    // r10 = receiver fiber state
    emitter.instruction_int("cmp r10, ", FIBER_STATE_SUSPENDED as i64, "");    // is the fiber currently paused at Fiber::suspend()?
    emitter.instruction("je __rt_fiber_throw_state_ok");    // proceed only when the fiber is suspended
    abi::emit_symbol_address(emitter, "rdi", "_fiber_msg_throw_not_suspended");    // rdi = pointer to the static error message
    emitter.instruction("mov esi, 43");    // rsi = error message length in bytes
    emitter.instruction("call __rt_fiber_throw_state_error");    // raise FiberError; this call does not return
    emitter.label("__rt_fiber_throw_state_ok");
    emitter.instruction_int("mov QWORD PTR [r12 + ", FIBER_PENDING_THROW_OFFSET as i64, "], r13");    // fiber->pending_throw = Throwable*
    abi::emit_load_symbol_to_reg(emitter, "r10", "_fiber_current", 0);    // r10 = current execution context
    emitter.instruction_int("mov QWORD PTR [r12 + ", FIBER_CALLER_OFFSET as i64, "], r10");    // fiber->caller = current context
    emitter.instruction("mov rdi, r12");    // pass fiber* as the switch target
    emitter.instruction("call __rt_fiber_switch");    // cooperative switch into the fiber
    emit_check_escape_x86_64(emitter, "throw");
    emitter.instruction_int("mov r10, QWORD PTR [r12 + ", FIBER_STATE_OFFSET as i64, "]");    // r10 = current fiber state after control returned
    emitter.instruction_int("cmp r10, ", FIBER_STATE_TERMINATED as i64, "");    // did the fiber finish instead of suspending again?
    emitter.instruction("jne __rt_fiber_throw_return_yield");    // suspended fibers return their next yielded transfer value
    emit_box_null_mixed(emitter);
    emitter.instruction("jmp __rt_fiber_throw_return_ready");    // skip the yielded-value load after boxing PHP null
    emitter.label("__rt_fiber_throw_return_yield");
    emitter.instruction_int("mov rax, QWORD PTR [r12 + ", FIBER_TRANSFER_VALUE_OFFSET as i64, "]");    // rax = fiber->transfer_value.lo
    emitter.label("__rt_fiber_throw_return_ready");
    emitter.instruction("pop r13");    // restore caller's r13
    emitter.instruction("pop r12");    // restore caller's r12
    emitter.instruction("pop rbp");    // restore caller frame pointer
    emitter.instruction("ret");    // return the value yielded by the fiber
}

/// Appends to `out` the listing that `emit_get_current_x86_64` emits for target `t`.
pub open spec fn get_current_x86_64(out: Seq<Line>, t: Target) -> Seq<Line> {
    let out = out
        .push(Line::Blank)
        .push(comment("--- runtime: fiber_get_current ---"))
        .push(global("__rt_fiber_get_current"));
    let out = out + load_symbol_to_reg(t, "rdi"@, "_fiber_current"@, 0);
    let out = out
        .push(ins("test rdi, rdi"))
        .push(ins("je __rt_fiber_get_current_null"))
        .push(ins("mov rax, 6"))
        .push(ins("xor esi, esi"))
        .push(ins("jmp __rt_mixed_from_value"))
        .push(label("__rt_fiber_get_current_null"))
        .push(ins("mov rax, 8"))
        .push(ins("xor edi, edi"))
        .push(ins("xor esi, esi"))
        .push(ins("jmp __rt_mixed_from_value"));
    out
}

fn emit_get_current_x86_64(emitter: &mut Emitter)
    ensures
        final(emitter).target == old(emitter).target,
        final(emitter)@ == get_current_x86_64(old(emitter)@, old(emitter).target),
{
    emitter.blank();
    emitter.comment("--- runtime: fiber_get_current ---");
    emitter.label_global("__rt_fiber_get_current");
    abi::emit_load_symbol_to_reg(emitter, "rdi", "_fiber_current", 0);    // rdi = pointer to the currently running fiber
    emitter.instruction("test rdi, rdi");    // is this call running on the main thread?
    emitter.instruction("je __rt_fiber_get_current_null");    // main-thread calls return boxed PHP null
    emitter.instruction("mov rax, 6");    // runtime tag 6 = object
    emitter.instruction("xor esi, esi");    // object payloads use only the low word
    emitter.instruction("jmp __rt_mixed_from_value");    // tail-call the boxer so the caller's return address is preserved
    emitter.label("__rt_fiber_get_current_null");
    emitter.instruction("mov rax, 8");    // runtime tag 8 = PHP null
    emitter.instruction("xor edi, edi");    // null has no low payload word
    emitter.instruction("xor esi, esi");    // null has no high payload word
    emitter.instruction("jmp __rt_mixed_from_value");    // tail-call the boxer so the caller's return address is preserved
}

/// Appends to `out` the listing that `emit_get_return_x86_64` emits for target `t`.
pub open spec fn get_return_x86_64(out: Seq<Line>, t: Target) -> Seq<Line> {
    let out = out
        .push(Line::Blank)
        .push(comment("--- runtime: fiber_get_return ---"))
        .push(global("__rt_fiber_get_return"))
        .push(ins("push rbp"))
        .push(ins("mov rbp, rsp"))
        .push(ins("push r12"))
        .push(ins("sub rsp, 8"))
        .push(ins("mov r12, rdi"))
        .push(ins("test r12, r12"))
        .push(ins("je __rt_fiber_get_return_null"))
        .push(ins_int("mov r10, QWORD PTR [r12 + ", FIBER_STATE_OFFSET as int, "]"))
        .push(ins_int("cmp r10, ", FIBER_STATE_TERMINATED as int, ""))
        .push(ins("je __rt_fiber_get_return_state_ok"));
    let out = out + symbol_address(t, "rdi"@, "_fiber_msg_not_terminated"@);
    let out = out
        .push(ins("mov esi, 57"))
        .push(ins("call __rt_fiber_throw_state_error"))
        .push(label("__rt_fiber_get_return_state_ok"))
        .push(ins_int("mov rax, QWORD PTR [r12 + ", FIBER_TRANSFER_VALUE_OFFSET as int, "]"))
        .push(ins("jmp __rt_fiber_get_return_done"))
        .push(label("__rt_fiber_get_return_null"))
        .push(ins("xor eax, eax"))
        .push(label("__rt_fiber_get_return_done"))
        .push(ins("add rsp, 8"))
        .push(ins("pop r12"))
        .push(ins("pop rbp"))
        .push(ins("ret"));
    out
}

fn emit_get_return_x86_64(emitter: &mut Emitter)
    ensures
        final(emitter).target == old(emitter).target,
        final(emitter)@ == get_return_x86_64(old(emitter)@, old(emitter).target),
{
    emitter.blank();
    emitter.comment("--- runtime: fiber_get_return ---");
    emitter.label_global("__rt_fiber_get_return");
    emitter.instruction("push rbp");    // preserve the caller frame pointer while checking state
    emitter.instruction("mov rbp, rsp");    // establish a stable frame base for getReturn
    emitter.instruction("push r12");    // preserve the receiver Fiber pointer across a potential throw
    emitter.instruction("sub rsp, 8");    // keep the SysV stack aligned after saving one callee-saved register
    emitter.instruction("mov r12, rdi");    // r12 = receiver fiber pointer
    emitter.instruction("test r12, r12");    // is the receiver defensively NULL?
    emitter.instruction("je __rt_fiber_get_return_null");    // null fiber pointers return a safe default
    emitter.instruction_int("mov r10, QWORD PTR [r12 + ", FIBER_STATE_OFFSET as i64, "]");    // r10 = receiver fiber state
    emitter.instruction_int("cmp r10, ", FIBER_STATE_TERMINATED as i64, "");    // has the fiber finished its callable?
    emitter.instruction("je __rt_fiber_get_return_state_ok");    // proceed only when the fiber has terminated
    abi::emit_symbol_address(emitter, "rdi", "_fiber_msg_not_terminated");    // rdi = pointer to the static error message
    emitter.instruction("mov esi, 57");    // rsi = error message length in bytes
    emitter.instruction("call __rt_fiber_throw_state_error");    // raise FiberError; this call does not return
    emitter.label("__rt_fiber_get_return_state_ok");
    emitter.instruction_int("mov rax, QWORD PTR [r12 + ", FIBER_TRANSFER_VALUE_OFFSET as i64, "]");    // rax = fiber->transfer_value.lo
    emitter.instruction("jmp __rt_fiber_get_return_done");    // skip the NULL-receiver fallback once the value is loaded
    emitter.label("__rt_fiber_get_return_null");
    emitter.instruction("xor eax, eax");    // safe default when a NULL receiver bypassed type checking
    emitter.label("__rt_fiber_get_return_done");
    emitter.instruction("add rsp, 8");    // drop the alignment pad
    emitter.instruction("pop r12");    // restore caller's r12
    emitter.instruction("pop rbp");    // restore caller frame pointer
    emitter.instruction("ret");    // hand the captured value back to the caller
}

/// Appends to `out` the listing that `emit_state_getter_x86_64` emits for target `t`.
pub open spec fn state_getter_x86_64(out: Seq<Line>, t: Target) -> Seq<Line> {
    let out = out
        .push(Line::Blank)
        .push(comment("--- runtime: fiber_state_eq ---"))
        .push(global("__rt_fiber_state_eq"))
        .push(ins("test rdi, rdi"))
        .push(ins("je __rt_fiber_state_eq_false"))
        .push(ins_int("mov r10, QWORD PTR [rdi + ", FIBER_STATE_OFFSET as int, "]"))
        .push(ins("cmp r10, rsi"))
        .push(ins("sete al"))
        .push(ins("movzx eax, al"))
        .push(ins("ret"))
        .push(label("__rt_fiber_state_eq_false"))
        .push(ins("xor eax, eax"))
        .push(ins("ret"));
    out
}

fn emit_state_getter_x86_64(emitter: &mut Emitter)
    ensures
        final(emitter).target == old(emitter).target,
        final(emitter)@ == state_getter_x86_64(old(emitter)@, old(emitter).target),
{
    emitter.blank();
    emitter.comment("--- runtime: fiber_state_eq ---");
    emitter.label_global("__rt_fiber_state_eq");
    emitter.instruction("test rdi, rdi");    // a NULL fiber pointer never matches any state predicate
    emitter.instruction("je __rt_fiber_state_eq_false");    // return false for NULL receivers
    emitter.instruction_int("mov r10, QWORD PTR [rdi + ", FIBER_STATE_OFFSET as i64, "]");    // r10 = current state stored on the fiber
    emitter.instruction("cmp r10, rsi");    // compare current state to the requested predicate value
    emitter.instruction("sete al");    // materialize the boolean result in the low result byte
    emitter.instruction("movzx eax, al");    // widen the boolean result to the canonical integer register
    emitter.instruction("ret");    // return the predicate result
    emitter.label("__rt_fiber_state_eq_false");
    emitter.instruction("xor eax, eax");    // NULL fiber pointer always evaluates to false
    emitter.instruction("ret");    // return false to the caller
}

/// Appends to `out` the listing that `emit_check_escape_x86_64` emits for target `t`.
pub open spec fn check_escape_x86_64(out: Seq<Line>, t: Target, prefix: &str) -> Seq<Line> {
    let out = out
        .push(ins_int("mov r10, QWORD PTR [r12 + ", FIBER_STATE_OFFSET as int, "]"))
        .push(ins_int("cmp r10, ", FIBER_STATE_TERMINATED as int, ""))
        .push(Line::Instruction("jne __rt_fiber_"@ + prefix@ + "_no_escape"@))
        .push(ins_int("mov r11, QWORD PTR [r12 + ", FIBER_PENDING_THROW_OFFSET as int, "]"))
        .push(ins("test r11, r11"))
        .push(Line::Instruction("je __rt_fiber_"@ + prefix@ + "_no_escape"@))
        .push(ins_int("mov QWORD PTR [r12 + ", FIBER_PENDING_THROW_OFFSET as int, "], 0"));
    let out = out + store_reg_to_symbol(t, "r11"@, "_exc_value"@, 0);
    let out = out
        .push(ins("call __rt_throw_current"))
        .push(ins("ud2"))
        .push(Line::Label("__rt_fiber_"@ + prefix@ + "_no_escape"@));
    out
}

fn emit_check_escape_x86_64(emitter: &mut Emitter, prefix: &str)
    ensures
        final(emitter).target == old(emitter).target,
        final(emitter)@ == check_escape_x86_64(old(emitter)@, old(emitter).target, prefix),
{
    emitter.instruction_int("mov r10, QWORD PTR [r12 + ", FIBER_STATE_OFFSET as i64, "]");    // r10 = current fiber state
    emitter.instruction_int("cmp r10, ", FIBER_STATE_TERMINATED as i64, "");    // is the fiber terminated?
    emitter.instruction(join3("jne __rt_fiber_", prefix, "_no_escape").as_str());    // skip re-raise when the fiber is still alive
    emitter.instruction_int("mov r11, QWORD PTR [r12 + ", FIBER_PENDING_THROW_OFFSET as i64, "]");    // r11 = parked Throwable
    emitter.instruction("test r11, r11");    // did an exception escape from the fiber entry boundary?
    emitter.instruction(join3("je __rt_fiber_", prefix, "_no_escape").as_str());    // skip re-raise when termination was clean
    emitter.instruction_int("mov QWORD PTR [r12 + ", FIBER_PENDING_THROW_OFFSET as i64, "], 0");    // clear pending_throw before re-raising
    abi::emit_store_reg_to_symbol(emitter, "r11", "_exc_value", 0);    // _exc_value = escaped Throwable ready for __rt_throw_current
    emitter.instruction("call __rt_throw_current");    // re-raise on the caller's stack chain
    emitter.instruction("ud2");    // defensive trap if __rt_throw_current ever returns
    emitter.label(join3("__rt_fiber_", prefix, "_no_escape").as_str());
}

/// Appends to `out` the listing that `emit_box_null_mixed` emits for target `t`.
pub open spec fn box_null_mixed(out: Seq<Line>, t: Target) -> Seq<Line> {
    let out = match t.arch {
        Arch::AArch64 => {
            let out = out
                .push(ins("mov x0, #8"))
                .push(ins("mov x1, #0"))
                .push(ins("mov x2, #0"))
                .push(ins("bl __rt_mixed_from_value"));
            out
        },
        Arch::X86_64 => {
            let out = out
                .push(ins("mov rax, 8"))
                .push(ins("xor edi, edi"))
                .push(ins("xor esi, esi"))
                .push(ins("call __rt_mixed_from_value"));
            out
        },
    };
    out
}

fn emit_box_null_mixed(emitter: &mut Emitter)
    ensures
        final(emitter).target == old(emitter).target,
        final(emitter)@ == box_null_mixed(old(emitter)@, old(emitter).target),
{
    match emitter.target.arch {
        Arch::AArch64 => {
            emitter.instruction("mov x0, #8");    // runtime tag 8 = PHP null
            emitter.instruction("mov x1, #0");    // null has no low payload word
            emitter.instruction("mov x2, #0");    // null has no high payload word
            emitter.instruction("bl __rt_mixed_from_value");    // allocate a boxed Mixed null cell for the PHP-visible result
        },
        Arch::X86_64 => {
            emitter.instruction("mov rax, 8");    // runtime tag 8 = PHP null
            emitter.instruction("xor edi, edi");    // null has no low payload word
            emitter.instruction("xor esi, esi");    // null has no high payload word
            emitter.instruction("call __rt_mixed_from_value");    // allocate a boxed Mixed null cell for the PHP-visible result
        },
    }
}

/// `fiber_throw_state_error` appends a block that does not depend on the listing before it.
proof fn lemma_fiber_throw_state_error_appends(out: Seq<Line>, t: Target)
    ensures
        fiber_throw_state_error(out, t) == out + fiber_throw_state_error(Seq::empty(), t),
{
    broadcast use crate::codegen::emit::group_listing;
}

/// `fiber_construct` appends a block that does not depend on the listing before it.
proof fn lemma_fiber_construct_appends(out: Seq<Line>, t: Target)
    ensures
        fiber_construct(out, t) == out + fiber_construct(Seq::empty(), t),
{
    broadcast use crate::codegen::emit::group_listing;
    broadcast use lemma_cleared_slots_append;
}

/// `fiber_start` appends a block that does not depend on the listing before it.
proof fn lemma_fiber_start_appends(out: Seq<Line>, t: Target)
    ensures
        fiber_start(out, t) == out + fiber_start(Seq::empty(), t),
{
    broadcast use crate::codegen::emit::group_listing;
}

/// `fiber_resume` appends a block that does not depend on the listing before it.
proof fn lemma_fiber_resume_appends(out: Seq<Line>, t: Target)
    ensures
        fiber_resume(out, t) == out + fiber_resume(Seq::empty(), t),
{
    broadcast use crate::codegen::emit::group_listing;
}

/// `fiber_suspend` appends a block that does not depend on the listing before it.
proof fn lemma_fiber_suspend_appends(out: Seq<Line>, t: Target)
    ensures
        fiber_suspend(out, t) == out + fiber_suspend(Seq::empty(), t),
{
    broadcast use crate::codegen::emit::group_listing;
}

/// `fiber_throw` appends a block that does not depend on the listing before it.
proof fn lemma_fiber_throw_appends(out: Seq<Line>, t: Target)
    ensures
        fiber_throw(out, t) == out + fiber_throw(Seq::empty(), t),
{
    broadcast use crate::codegen::emit::group_listing;
}

/// `fiber_get_current` appends a block that does not depend on the listing before it.
proof fn lemma_fiber_get_current_appends(out: Seq<Line>, t: Target)
    ensures
        fiber_get_current(out, t) == out + fiber_get_current(Seq::empty(), t),
{
    broadcast use crate::codegen::emit::group_listing;
}

/// `fiber_get_return` appends a block that does not depend on the listing before it.
proof fn lemma_fiber_get_return_appends(out: Seq<Line>, t: Target)
    ensures
        fiber_get_return(out, t) == out + fiber_get_return(Seq::empty(), t),
{
    broadcast use crate::codegen::emit::group_listing;
}

/// `fiber_state_getter` appends a block that does not depend on the listing before it.
proof fn lemma_fiber_state_getter_appends(out: Seq<Line>, t: Target)
    ensures
        fiber_state_getter(out, t) == out + fiber_state_getter(Seq::empty(), t),
{
    broadcast use crate::codegen::emit::group_listing;
}

/// Each emitter of this module only appends: the block it adds depends on the target
/// alone, and the listing it was handed stays in front of that block unchanged.
pub proof fn lemma_fiber_api_emitters_append(out: Seq<Line>, t: Target)
    ensures
        fiber_throw_state_error(out, t) == out + fiber_throw_state_error(Seq::empty(), t),
        fiber_construct(out, t) == out + fiber_construct(Seq::empty(), t),
        fiber_start(out, t) == out + fiber_start(Seq::empty(), t),
        fiber_resume(out, t) == out + fiber_resume(Seq::empty(), t),
        fiber_suspend(out, t) == out + fiber_suspend(Seq::empty(), t),
        fiber_throw(out, t) == out + fiber_throw(Seq::empty(), t),
        fiber_get_current(out, t) == out + fiber_get_current(Seq::empty(), t),
        fiber_get_return(out, t) == out + fiber_get_return(Seq::empty(), t),
        fiber_state_getter(out, t) == out + fiber_state_getter(Seq::empty(), t),
{
    lemma_fiber_throw_state_error_appends(out, t);
    lemma_fiber_construct_appends(out, t);
    lemma_fiber_start_appends(out, t);
    lemma_fiber_resume_appends(out, t);
    lemma_fiber_suspend_appends(out, t);
    lemma_fiber_throw_appends(out, t);
    lemma_fiber_get_current_appends(out, t);
    lemma_fiber_get_return_appends(out, t);
    lemma_fiber_state_getter_appends(out, t);
}

} // verus!
verus! {

/// The AArch64 `__rt_fiber_state_eq` block, line by line, and where its labels are.
proof fn lemma_fiber_state_eq_lines(t: Target)
    requires
        t.arch == Arch::AArch64,
    ensures
        ({
            let lines = fiber_state_getter(Seq::empty(), t);
            &&& lines.len() == 11
            &&& !(lines[2] is Instruction)
            &&& !(lines[8] is Instruction)
            &&& lines[3] == Line::Instruction("cbz x0, __rt_fiber_state_eq_false"@)
            &&& lines[4] == Line::Instruction("ldr x9, [x0, #"@ + decimal(8) + "]"@)
            &&& lines[5] == Line::Instruction("cmp x9, x1"@)
            &&& lines[6] == Line::Instruction("cset x0, eq"@)
            &&& lines[7] == Line::Instruction("ret"@)
            &&& lines[9] == Line::Instruction("mov x0, #0"@)
            &&& lines[10] == Line::Instruction("ret"@)
            &&& find_label(lines, "__rt_fiber_state_eq"@, 0) == 2
            &&& find_label(lines, "__rt_fiber_state_eq_false"@, 0) == 8
        }),
{
    let lines = fiber_state_getter(Seq::empty(), t);
    reveal_with_fuel(find_label, 10);
    reveal_strlit("__rt_fiber_state_eq_false");
    reveal_strlit("__rt_fiber_state_eq");
    assert(lines[2] == Line::Global("__rt_fiber_state_eq"@));
    assert("__rt_fiber_state_eq"@.len() != "__rt_fiber_state_eq_false"@.len());
}

/// The instruction texts of the AArch64 `__rt_fiber_state_eq` block decode as written.
#[verifier::rlimit(50)]
#[verifier::spinoff_prover]
proof fn lemma_fiber_state_eq_decodes()
    ensures
        decode("cbz x0, __rt_fiber_state_eq_false"@) == Some(Instr::Cbz(0, "__rt_fiber_state_eq_false"@)),
        decode("ldr x9, [x0, #"@ + decimal(8) + "]"@) == Some(Instr::Ldr(9, Address::Offset(0, 8))),
        decode("cmp x9, x1"@) == Some(Instr::Cmp(9, Operand::Reg(1))),
        decode("cset x0, eq"@) == Some(Instr::Cset(0, Cond::Eq)),
        decode("ret"@) == Some(Instr::Ret),
        decode("mov x0, #0"@) == Some(Instr::Mov(0, Operand::Imm(0))),
{
    reveal(decode);
    reveal_with_fuel(find_char, 40);
    reveal_strlit("cbz x0, __rt_fiber_state_eq_false");
    reveal_strlit("__rt_fiber_state_eq_false");
    reveal_strlit("ldr x9, [x0, #");
    reveal_strlit("ldr x9, [x0, #8]");
    reveal_strlit("8");
    reveal_strlit("]");
    reveal_strlit("cmp x9, x1");
    reveal_strlit("cset x0, eq");
    reveal_strlit("ret");
    reveal_strlit("mov x0, #0");
    assert(label_from("cbz x0, __rt_fiber_state_eq_false"@, 8) =~= "__rt_fiber_state_eq_false"@);
    assert(decimal(8) =~= "8"@);
    assert("ldr x9, [x0, #"@ + decimal(8) + "]"@ =~= "ldr x9, [x0, #8]"@);
}

/// `__rt_fiber_state_eq` tests the stored state: on AArch64, for a non-null fiber
/// pointer `f` in `x0` and a state value `s` in `x1`, the helper returns, after six
/// lines, with `x0` = 1 when the state word at `f + FIBER_STATE_OFFSET` equals `s` and
/// 0 otherwise; for a null pointer it returns 0.
pub proof fn lemma_fiber_state_eq_tests_the_state(t: Target, env: Env, m: Machine)
    requires
        t.arch == Arch::AArch64,
        m.pc == find_label(fiber_state_getter(Seq::empty(), t), "__rt_fiber_state_eq"@, 0),
        !m.returned,
        !m.stuck,
    ensures
        ({
            let r = run(fiber_state_getter(Seq::empty(), t), env, m, 6);
            &&& r.returned
            &&& read(r, 0) == if read(m, 0) == 0 {
                0int
            } else if (m.mem)(read(m, 0) + FIBER_STATE_OFFSET) == read(m, 1) {
                1int
            } else {
                0int
            }
        }),
{
    let lines = fiber_state_getter(Seq::empty(), t);
    lemma_fiber_state_eq_lines(t);
    lemma_fiber_state_eq_decodes();
    let f = read(m, 0);
    lemma_step_passes(lines, env, m);
    let m1 = step(lines, env, m);
    lemma_step_instruction(lines, env, m1, "cbz x0, __rt_fiber_state_eq_false"@, Instr::Cbz(0, "__rt_fiber_state_eq_false"@));
    let m2 = step(lines, env, m1);
    lemma_run_step(lines, env, m, 5);
    lemma_run_step(lines, env, m1, 4);
    if f == 0 {
        assert(m2.pc == 8);
        lemma_step_passes(lines, env, m2);
        let m3 = step(lines, env, m2);
        lemma_step_instruction(lines, env, m3, "mov x0, #0"@, Instr::Mov(0, Operand::Imm(0)));
        let m4 = step(lines, env, m3);
        lemma_step_instruction(lines, env, m4, "ret"@, Instr::Ret);
        let m5 = step(lines, env, m4);
        lemma_run_step(lines, env, m2, 3);
        lemma_run_step(lines, env, m3, 2);
        lemma_run_step(lines, env, m4, 1);
        lemma_run_step(lines, env, m5, 0);
        lemma_run_returned(lines, env, step(lines, env, m5), 0);
    } else {
        assert(m2.pc == 4);
        lemma_step_instruction(lines, env, m2, "ldr x9, [x0, #"@ + decimal(8) + "]"@, Instr::Ldr(9, Address::Offset(0, 8)));
        let m3 = step(lines, env, m2);
        assert(read(m3, 9) == (m.mem)(f + 8));
        lemma_step_instruction(lines, env, m3, "cmp x9, x1"@, Instr::Cmp(9, Operand::Reg(1)));
        let m4 = step(lines, env, m3);
        lemma_step_instruction(lines, env, m4, "cset x0, eq"@, Instr::Cset(0, Cond::Eq));
        let m5 = step(lines, env, m4);
        lemma_step_instruction(lines, env, m5, "ret"@, Instr::Ret);
        let m6 = step(lines, env, m5);
        lemma_run_step(lines, env, m2, 3);
        lemma_run_step(lines, env, m3, 2);
        lemma_run_step(lines, env, m4, 1);
        lemma_run_step(lines, env, m5, 0);
    }
}

} // verus!
