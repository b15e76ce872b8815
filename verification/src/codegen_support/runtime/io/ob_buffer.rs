//! Purpose:
//! Emits the output-buffering (`ob_*`) runtime helpers that maintain the stack of
//! capture buffers behind PHP's output-control builtins: `__rt_ob_start`,
//! `__rt_ob_append`, `__rt_ob_contents`, `__rt_ob_length`, `__rt_ob_level`,
//! `__rt_ob_clean`, `__rt_ob_end_clean`, `__rt_ob_flush`, `__rt_ob_end_flush`,
//! and `__rt_ob_flush_all`.
//!
//! Used by:
//! - `__rt_stdout_write` and `__rt_pr_write` call `__rt_ob_append` while
//!   `_ob_level` is non-zero so every terminal write is captured.
//!
//! Key details:
//! - State lives in the fixed runtime data section: `_ob_level` plus the 64-slot
//!   parallel arrays `_ob_ptrs`/`_ob_lens`/`_ob_caps` indexed by level-1.
//! - Buffers are heap blocks from `__rt_heap_alloc`; `__rt_ob_append` doubles the
//!   capacity (copy + `__rt_heap_free` of the old block) until the payload fits,
//!   so buffered output is not clamped to a fixed scratch size.
//! - Flushing to the parent sink temporarily decrements `_ob_level` and routes the
//!   bytes back through `__rt_stdout_write`, which re-dispatches to the parent
//!   buffer, the `--web` capture, or the plain `write(1, …)` syscall.
//! - `__rt_ob_flush_all` zeroes `_ob_level` before writing so a fatal-path
//!   re-entry is a no-op and the writes reach the terminal sink directly.

use vstd::prelude::*;
use crate::codegen::abi::{self, symbol_address};
use crate::codegen::emit::{Emitter, Line, ins, ins_int, label, global, comment};
use crate::codegen::platform::{Arch, Platform, Target};
use crate::codegen::emit::{adrp_line, add_lo12_line};
use crate::codegen::machine::{
    Env, Machine, Instr, Operand, Address, decode, find_char, find_label, label_from, read, run, step,
    lemma_step_instruction, lemma_step_passes, lemma_run_step, lemma_run_returned,
};

verus! {

/// Maximum output-buffer nesting depth (slots in `_ob_ptrs`/`_ob_lens`/`_ob_caps`).
pub const OB_MAX_LEVELS: i64 = 64;

/// Initial capacity in bytes of a freshly started output buffer.
pub const OB_INITIAL_CAPACITY: i64 = 1024;

/// Appends to `out` the listing that `emit_ob_start` emits for target `t`.
pub open spec fn ob_start(out: Seq<Line>, t: Target) -> Seq<Line> {
    if t.arch == Arch::X86_64 {
        ob_start_x86_64(out, t)
    } else {
        ob_start_aarch64(out, t)
    }
}

/// Appends to `out` the AArch64 listing of `emit_ob_start`.
pub open spec fn ob_start_aarch64(out: Seq<Line>, t: Target) -> Seq<Line> {
    let out = out
        .push(Line::Blank)
        .push(comment("--- runtime: ob_start ---"))
        .push(global("__rt_ob_start"))
        .push(ins("sub sp, sp, #32"))
        .push(ins("stp x29, x30, [sp, #16]"))
        .push(ins("add x29, sp, #16"));
    let out = out + symbol_address(t, "x9"@, "_ob_level"@);
    let out = out
        .push(ins("ldr x10, [x9]"))
        .push(ins_int("cmp x10, #", OB_MAX_LEVELS as int, ""))
        .push(ins("b.ge __rt_ob_start_fail"))
        .push(ins("str x10, [sp, #0]"))
        .push(ins_int("mov x0, #", OB_INITIAL_CAPACITY as int, ""))
        .push(ins("bl __rt_heap_alloc"))
        .push(ins("ldr x10, [sp, #0]"));
    let out = out + symbol_address(t, "x11"@, "_ob_ptrs"@);
    let out = out
        .push(ins("str x0, [x11, x10, lsl #3]"));
    let out = out + symbol_address(t, "x11"@, "_ob_lens"@);
    let out = out
        .push(ins("str xzr, [x11, x10, lsl #3]"));
    let out = out + symbol_address(t, "x11"@, "_ob_caps"@);
    let out = out
        .push(ins_int("mov x12, #", OB_INITIAL_CAPACITY as int, ""))
        .push(ins("str x12, [x11, x10, lsl #3]"))
        .push(ins("add x10, x10, #1"));
    let out = out + symbol_address(t, "x9"@, "_ob_level"@);
    let out = out
        .push(ins("str x10, [x9]"))
        .push(ins("mov x0, #1"))
        .push(ins("b __rt_ob_start_done"))
        .push(label("__rt_ob_start_fail"))
        .push(ins("mov x0, #0"))
        .push(label("__rt_ob_start_done"))
        .push(ins("ldp x29, x30, [sp, #16]"))
        .push(ins("add sp, sp, #32"))
        .push(ins("ret"));
    out
}

/// Emits `__rt_ob_start`: push a new output buffer onto the stack.
///
/// No inputs. Returns 1 in `x0`/`rax` on success, 0 when the nesting limit is
/// reached. Allocates the initial heap buffer and records it in the top slot.
pub fn emit_ob_start(emitter: &mut Emitter)
    ensures
        final(emitter).target == old(emitter).target,
        final(emitter)@ == ob_start(old(emitter)@, old(emitter).target),
{
    if emitter.target.arch == Arch::X86_64 {
        emit_ob_start_x86_64(emitter);
        return;
    }
    emitter.blank();
    emitter.comment("--- runtime: ob_start ---");
    emitter.label_global("__rt_ob_start");
    emitter.instruction("sub sp, sp, #32");    // allocate the ob_start frame
    emitter.instruction("stp x29, x30, [sp, #16]");    // save frame pointer and return address
    emitter.instruction("add x29, sp, #16");    // establish the ob_start frame pointer
    abi::emit_symbol_address(emitter, "x9", "_ob_level");    // materialize the address of the buffer-stack depth
    emitter.instruction("ldr x10, [x9]");    // load the current buffer-stack depth
    emitter.instruction_int("cmp x10, #", OB_MAX_LEVELS as i64, "");    // is the nesting limit reached?
    emitter.instruction("b.ge __rt_ob_start_fail");    // refuse to push past the nesting limit
    emitter.instruction("str x10, [sp, #0]");    // save the current depth (the new slot index)
    emitter.instruction_int("mov x0, #", OB_INITIAL_CAPACITY as i64, "");    // request the initial buffer capacity
    emitter.instruction("bl __rt_heap_alloc");    // allocate the new capture buffer (raw kind, per heap_alloc contract)
    emitter.instruction("ldr x10, [sp, #0]");    // reload the new slot index
    abi::emit_symbol_address(emitter, "x11", "_ob_ptrs");    // materialize the buffer-pointer slot array
    emitter.instruction("str x0, [x11, x10, lsl #3]");    // record the new buffer base pointer
    abi::emit_symbol_address(emitter, "x11", "_ob_lens");    // materialize the used-bytes slot array
    emitter.instruction("str xzr, [x11, x10, lsl #3]");    // the new buffer starts empty
    abi::emit_symbol_address(emitter, "x11", "_ob_caps");    // materialize the capacity slot array
    emitter.instruction_int("mov x12, #", OB_INITIAL_CAPACITY as i64, "");    // load the initial capacity value
    emitter.instruction("str x12, [x11, x10, lsl #3]");    // record the initial capacity
    emitter.instruction("add x10, x10, #1");    // the stack is now one level deeper
    abi::emit_symbol_address(emitter, "x9", "_ob_level");    // materialize the address of the buffer-stack depth
    emitter.instruction("str x10, [x9]");    // publish the new depth
    emitter.instruction("mov x0, #1");    // report success
    emitter.instruction("b __rt_ob_start_done");    // skip the failure path
    emitter.label("__rt_ob_start_fail");
    emitter.instruction("mov x0, #0");    // report failure (nesting limit reached)
    emitter.label("__rt_ob_start_done");
    emitter.instruction("ldp x29, x30, [sp, #16]");    // restore frame pointer and return address
    emitter.instruction("add sp, sp, #32");    // release the ob_start frame
    emitter.instruction("ret");    // return the success flag
}

/// Appends to `out` the listing that `emit_ob_start_x86_64` emits for target `t`.
pub open spec fn ob_start_x86_64(out: Seq<Line>, t: Target) -> Seq<Line> {
    let out = out
        .push(Line::Blank)
        .push(comment("--- runtime: ob_start ---"))
        .push(global("__rt_ob_start"))
        .push(ins("push rbp"))
        .push(ins("mov rbp, rsp"))
        .push(ins("sub rsp, 16"));
    let out = out + symbol_address(t, "r9"@, "_ob_level"@);
    let out = out
        .push(ins("mov r10, QWORD PTR [r9]"))
        .push(ins_int("cmp r10, ", OB_MAX_LEVELS as int, ""))
        .push(ins("jge __rt_ob_start_fail_x86"))
        .push(ins("mov QWORD PTR [rbp - 8], r10"))
        .push(ins_int("mov rax, ", OB_INITIAL_CAPACITY as int, ""))
        .push(ins("call __rt_heap_alloc"))
        .push(ins("mov r10, QWORD PTR [rbp - 8]"));
    let out = out + symbol_address(t, "r11"@, "_ob_ptrs"@);
    let out = out
        .push(ins("mov QWORD PTR [r11 + r10*8], rax"));
    let out = out + symbol_address(t, "r11"@, "_ob_lens"@);
    let out = out
        .push(ins("mov QWORD PTR [r11 + r10*8], 0"));
    let out = out + symbol_address(t, "r11"@, "_ob_caps"@);
    let out = out
        .push(ins_int("mov QWORD PTR [r11 + r10*8], ", OB_INITIAL_CAPACITY as int, ""))
        .push(ins("add r10, 1"));
    let out = out + symbol_address(t, "r9"@, "_ob_level"@);
    let out = out
        .push(ins("mov QWORD PTR [r9], r10"))
        .push(ins("mov eax, 1"))
        .push(ins("jmp __rt_ob_start_done_x86"))
        .push(label("__rt_ob_start_fail_x86"))
        .push(ins("xor eax, eax"))
        .push(label("__rt_ob_start_done_x86"))
        .push(ins("add rsp, 16"))
        .push(ins("pop rbp"))
        .push(ins("ret"));
    out
}

/// Emits the Linux x86_64 variant of `__rt_ob_start`.
fn emit_ob_start_x86_64(emitter: &mut Emitter)
    ensures
        final(emitter).target == old(emitter).target,
        final(emitter)@ == ob_start_x86_64(old(emitter)@, old(emitter).target),
{
    emitter.blank();
    emitter.comment("--- runtime: ob_start ---");
    emitter.label_global("__rt_ob_start");
    emitter.instruction("push rbp");    // preserve the caller frame pointer
    emitter.instruction("mov rbp, rsp");    // establish the ob_start frame pointer
    emitter.instruction("sub rsp, 16");    // reserve an aligned slot for the new slot index
    abi::emit_symbol_address(emitter, "r9", "_ob_level");    // materialize the address of the buffer-stack depth
    emitter.instruction("mov r10, QWORD PTR [r9]");    // load the current buffer-stack depth
    emitter.instruction_int("cmp r10, ", OB_MAX_LEVELS as i64, "");    // is the nesting limit reached?
    emitter.instruction("jge __rt_ob_start_fail_x86");    // refuse to push past the nesting limit
    emitter.instruction("mov QWORD PTR [rbp - 8], r10");    // save the current depth (the new slot index)
    emitter.instruction_int("mov rax, ", OB_INITIAL_CAPACITY as i64, "");    // request the initial buffer capacity
    emitter.instruction("call __rt_heap_alloc");    // allocate the new capture buffer (raw kind, per heap_alloc contract)
    emitter.instruction("mov r10, QWORD PTR [rbp - 8]");    // reload the new slot index
    abi::emit_symbol_address(emitter, "r11", "_ob_ptrs");    // materialize the buffer-pointer slot array
    emitter.instruction("mov QWORD PTR [r11 + r10*8], rax");    // record the new buffer base pointer
    abi::emit_symbol_address(emitter, "r11", "_ob_lens");    // materialize the used-bytes slot array
    emitter.instruction("mov QWORD PTR [r11 + r10*8], 0");    // the new buffer starts empty
    abi::emit_symbol_address(emitter, "r11", "_ob_caps");    // materialize the capacity slot array
    emitter.instruction_int("mov QWORD PTR [r11 + r10*8], ", OB_INITIAL_CAPACITY as i64, "");    // record the initial capacity
    emitter.instruction("add r10, 1");    // the stack is now one level deeper
    abi::emit_symbol_address(emitter, "r9", "_ob_level");    // materialize the address of the buffer-stack depth
    emitter.instruction("mov QWORD PTR [r9], r10");    // publish the new depth
    emitter.instruction("mov eax, 1");    // report success
    emitter.instruction("jmp __rt_ob_start_done_x86");    // skip the failure path
    emitter.label("__rt_ob_start_fail_x86");
    emitter.instruction("xor eax, eax");    // report failure (nesting limit reached)
    emitter.label("__rt_ob_start_done_x86");
    emitter.instruction("add rsp, 16");    // release the ob_start frame
    emitter.instruction("pop rbp");    // restore the caller frame pointer
    emitter.instruction("ret");    // return the success flag
}

/// Appends to `out` the listing that `emit_ob_append` emits for target `t`.
pub open spec fn ob_append(out: Seq<Line>, t: Target) -> Seq<Line> {
    if t.arch == Arch::X86_64 {
        ob_append_x86_64(out, t)
    } else {
        ob_append_aarch64(out, t)
    }
}

/// Appends to `out` the AArch64 listing of `emit_ob_append`.
pub open spec fn ob_append_aarch64(out: Seq<Line>, t: Target) -> Seq<Line> {
    let out = out
        .push(Line::Blank)
        .push(comment("--- runtime: ob_append ---"))
        .push(global("__rt_ob_append"))
        .push(ins("sub sp, sp, #64"))
        .push(ins("stp x29, x30, [sp, #48]"))
        .push(ins("add x29, sp, #48"))
        .push(ins("str x0, [sp, #0]"))
        .push(ins("str x1, [sp, #8]"));
    let out = out + symbol_address(t, "x9"@, "_ob_level"@);
    let out = out
        .push(ins("ldr x10, [x9]"))
        .push(ins("cbz x10, __rt_ob_append_done"))
        .push(ins("sub x10, x10, #1"))
        .push(ins("str x10, [sp, #16]"));
    let out = out + symbol_address(t, "x11"@, "_ob_lens"@);
    let out = out
        .push(ins("ldr x12, [x11, x10, lsl #3]"))
        .push(ins("str x12, [sp, #24]"));
    let out = out + symbol_address(t, "x13"@, "_ob_caps"@);
    let out = out
        .push(ins("ldr x14, [x13, x10, lsl #3]"))
        .push(ins("ldr x15, [sp, #8]"))
        .push(ins("add x15, x12, x15"))
        .push(ins("cmp x15, x14"))
        .push(ins("b.ls __rt_ob_append_copy"))
        .push(label("__rt_ob_append_grow_size"))
        .push(ins("lsl x14, x14, #1"))
        .push(ins("cmp x14, x15"))
        .push(ins("b.lo __rt_ob_append_grow_size"))
        .push(ins("str x14, [sp, #32]"))
        .push(ins("mov x0, x14"))
        .push(ins("bl __rt_heap_alloc"))
        .push(ins("ldr x10, [sp, #16]"));
    let out = out + symbol_address(t, "x11"@, "_ob_ptrs"@);
    let out = out
        .push(ins("ldr x12, [x11, x10, lsl #3]"))
        .push(ins("ldr x13, [sp, #24]"))
        .push(ins("mov x14, #0"))
        .push(label("__rt_ob_append_grow_copy"))
        .push(ins("cmp x14, x13"))
        .push(ins("b.ge __rt_ob_append_grow_swap"))
        .push(ins("ldrb w15, [x12, x14]"))
        .push(ins("strb w15, [x0, x14]"))
        .push(ins("add x14, x14, #1"))
        .push(ins("b __rt_ob_append_grow_copy"))
        .push(label("__rt_ob_append_grow_swap"))
        .push(ins("str x0, [x11, x10, lsl #3]"));
    let out = out + symbol_address(t, "x13"@, "_ob_caps"@);
    let out = out
        .push(ins("ldr x14, [sp, #32]"))
        .push(ins("str x14, [x13, x10, lsl #3]"))
        .push(ins("mov x0, x12"))
        .push(ins("bl __rt_heap_free"))
        .push(label("__rt_ob_append_copy"))
        .push(ins("ldr x10, [sp, #16]"));
    let out = out + symbol_address(t, "x11"@, "_ob_ptrs"@);
    let out = out
        .push(ins("ldr x12, [x11, x10, lsl #3]"))
        .push(ins("ldr x13, [sp, #24]"))
        .push(ins("add x12, x12, x13"))
        .push(ins("ldr x14, [sp, #0]"))
        .push(ins("ldr x15, [sp, #8]"))
        .push(label("__rt_ob_append_copy_loop"))
        .push(ins("cbz x15, __rt_ob_append_publish"))
        .push(ins("ldrb w9, [x14]"))
        .push(ins("strb w9, [x12]"))
        .push(ins("add x14, x14, #1"))
        .push(ins("add x12, x12, #1"))
        .push(ins("sub x15, x15, #1"))
        .push(ins("b __rt_ob_append_copy_loop"))
        .push(label("__rt_ob_append_publish"))
        .push(ins("ldr x13, [sp, #24]"))
        .push(ins("ldr x14, [sp, #8]"));
    let out = out
        .push(ins("add x13, x13, x14"))
        .push(ins("ldr x10, [sp, #16]"));
    let out = out + symbol_address(t, "x11"@, "_ob_lens"@);
    let out = out
        .push(ins("str x13, [x11, x10, lsl #3]"))
        .push(label("__rt_ob_append_done"))
        .push(ins("ldp x29, x30, [sp, #48]"))
        .push(ins("add sp, sp, #64"))
        .push(ins("ret"));
    out
}

/// Emits `__rt_ob_append`: append bytes to the top output buffer, growing it as
/// needed.
///
/// Inputs: AArch64 `x0`=src pointer, `x1`=length / x86_64 `rdi`=src, `rsi`=length.
/// No result. A zero `_ob_level` makes the call a defensive no-op. Growth doubles
/// the capacity until the payload fits, copies the used prefix, and frees the old
/// block.
pub fn emit_ob_append(emitter: &mut Emitter)
    ensures
        final(emitter).target == old(emitter).target,
        final(emitter)@ == ob_append(old(emitter)@, old(emitter).target),
{
    if emitter.target.arch == Arch::X86_64 {
        emit_ob_append_x86_64(emitter);
        return;
    }
    emitter.blank();
    emitter.comment("--- runtime: ob_append ---");
    emitter.label_global("__rt_ob_append");
    // frame: [0]=src, [8]=len, [16]=slot index, [24]=used, [32]=new capacity
    emitter.instruction("sub sp, sp, #64");    // allocate the ob_append frame
    emitter.instruction("stp x29, x30, [sp, #48]");    // save frame pointer and return address
    emitter.instruction("add x29, sp, #48");    // establish the ob_append frame pointer
    emitter.instruction("str x0, [sp, #0]");    // save the source byte pointer
    emitter.instruction("str x1, [sp, #8]");    // save the source byte length
    abi::emit_symbol_address(emitter, "x9", "_ob_level");    // materialize the address of the buffer-stack depth
    emitter.instruction("ldr x10, [x9]");    // load the current buffer-stack depth
    emitter.instruction("cbz x10, __rt_ob_append_done");    // no active buffer — defensive no-op
    emitter.instruction("sub x10, x10, #1");    // top slot index = depth - 1
    emitter.instruction("str x10, [sp, #16]");    // save the top slot index
    abi::emit_symbol_address(emitter, "x11", "_ob_lens");    // materialize the used-bytes slot array
    emitter.instruction("ldr x12, [x11, x10, lsl #3]");    // load the top buffer's used byte count
    emitter.instruction("str x12, [sp, #24]");    // save the used byte count
    abi::emit_symbol_address(emitter, "x13", "_ob_caps");    // materialize the capacity slot array
    emitter.instruction("ldr x14, [x13, x10, lsl #3]");    // load the top buffer's capacity
    emitter.instruction("ldr x15, [sp, #8]");    // reload the incoming byte length
    emitter.instruction("add x15, x12, x15");    // needed bytes = used + incoming length
    emitter.instruction("cmp x15, x14");    // does the payload fit the current capacity?
    emitter.instruction("b.ls __rt_ob_append_copy");    // fits — skip the growth path
    // -- grow: double the capacity until the payload fits --
    emitter.label("__rt_ob_append_grow_size");
    emitter.instruction("lsl x14, x14, #1");    // double the candidate capacity
    emitter.instruction("cmp x14, x15");    // does the doubled capacity fit the payload?
    emitter.instruction("b.lo __rt_ob_append_grow_size");    // keep doubling until it fits
    emitter.instruction("str x14, [sp, #32]");    // save the new capacity
    emitter.instruction("mov x0, x14");    // request the new capacity from the allocator
    emitter.instruction("bl __rt_heap_alloc");    // allocate the replacement buffer (raw kind, per heap_alloc contract)
    // -- copy the used prefix from the old buffer into the replacement --
    emitter.instruction("ldr x10, [sp, #16]");    // reload the top slot index
    abi::emit_symbol_address(emitter, "x11", "_ob_ptrs");    // materialize the buffer-pointer slot array
    emitter.instruction("ldr x12, [x11, x10, lsl #3]");    // load the old buffer base pointer
    emitter.instruction("ldr x13, [sp, #24]");    // reload the used byte count
    emitter.instruction("mov x14, #0");    // start the copy at offset zero
    emitter.label("__rt_ob_append_grow_copy");
    emitter.instruction("cmp x14, x13");    // copied all used bytes?
    emitter.instruction("b.ge __rt_ob_append_grow_swap");    // yes — publish the replacement buffer
    emitter.instruction("ldrb w15, [x12, x14]");    // load the next byte from the old buffer
    emitter.instruction("strb w15, [x0, x14]");    // store the byte into the replacement buffer
    emitter.instruction("add x14, x14, #1");    // advance the copy cursor
    emitter.instruction("b __rt_ob_append_grow_copy");    // continue copying the used prefix
    emitter.label("__rt_ob_append_grow_swap");
    emitter.instruction("str x0, [x11, x10, lsl #3]");    // publish the replacement buffer base pointer
    abi::emit_symbol_address(emitter, "x13", "_ob_caps");    // materialize the capacity slot array
    emitter.instruction("ldr x14, [sp, #32]");    // reload the new capacity
    emitter.instruction("str x14, [x13, x10, lsl #3]");    // publish the new capacity
    emitter.instruction("mov x0, x12");    // pass the old buffer to the deallocator
    emitter.instruction("bl __rt_heap_free");    // release the old buffer block
    // -- copy the incoming bytes to buffer base + used --
    emitter.label("__rt_ob_append_copy");
    emitter.instruction("ldr x10, [sp, #16]");    // reload the top slot index
    abi::emit_symbol_address(emitter, "x11", "_ob_ptrs");    // materialize the buffer-pointer slot array
    emitter.instruction("ldr x12, [x11, x10, lsl #3]");    // load the (possibly replaced) buffer base pointer
    emitter.instruction("ldr x13, [sp, #24]");    // reload the used byte count
    emitter.instruction("add x12, x12, x13");    // destination cursor = base + used
    emitter.instruction("ldr x14, [sp, #0]");    // reload the source byte pointer
    emitter.instruction("ldr x15, [sp, #8]");    // reload the source byte length
    emitter.label("__rt_ob_append_copy_loop");
    emitter.instruction("cbz x15, __rt_ob_append_publish");    // no bytes left — publish the new length
    emitter.instruction("ldrb w9, [x14]");    // load the next source byte
    emitter.instruction("strb w9, [x12]");    // store the byte at the destination cursor
    emitter.instruction("add x14, x14, #1");    // advance the source cursor
    emitter.instruction("add x12, x12, #1");    // advance the destination cursor
    emitter.instruction("sub x15, x15, #1");    // one byte fewer to copy
    emitter.instruction("b __rt_ob_append_copy_loop");    // continue copying the incoming bytes
    emitter.label("__rt_ob_append_publish");
    emitter.instruction("ldr x13, [sp, #24]");    // reload the used byte count
    emitter.instruction("ldr x14, [sp, #8]");    // reload the incoming byte length
    emitter.instruction("add x13, x13, x14");    // new used count = used + incoming length
    emitter.instruction("ldr x10, [sp, #16]");    // reload the top slot index
    abi::emit_symbol_address(emitter, "x11", "_ob_lens");    // materialize the used-bytes slot array
    emitter.instruction("str x13, [x11, x10, lsl #3]");    // publish the new used byte count
    emitter.label("__rt_ob_append_done");
    emitter.instruction("ldp x29, x30, [sp, #48]");    // restore frame pointer and return address
    emitter.instruction("add sp, sp, #64");    // release the ob_append frame
    emitter.instruction("ret");    // return to caller
}

/// Appends to `out` the listing that `emit_ob_append_x86_64` emits for target `t`.
pub open spec fn ob_append_x86_64(out: Seq<Line>, t: Target) -> Seq<Line> {
    let out = out
        .push(Line::Blank)
        .push(comment("--- runtime: ob_append ---"))
        .push(global("__rt_ob_append"))
        .push(ins("push rbp"))
        .push(ins("mov rbp, rsp"))
        .push(ins("sub rsp, 48"))
        .push(ins("mov QWORD PTR [rbp - 8], rdi"))
        .push(ins("mov QWORD PTR [rbp - 16], rsi"));
    let out = out + symbol_address(t, "r9"@, "_ob_level"@);
    let out = out
        .push(ins("mov r10, QWORD PTR [r9]"))
        .push(ins("test r10, r10"))
        .push(ins("jz __rt_ob_append_done_x86"))
        .push(ins("sub r10, 1"))
        .push(ins("mov QWORD PTR [rbp - 24], r10"));
    let out = out + symbol_address(t, "r11"@, "_ob_lens"@);
    let out = out
        .push(ins("mov rcx, QWORD PTR [r11 + r10*8]"))
        .push(ins("mov QWORD PTR [rbp - 32], rcx"));
    let out = out + symbol_address(t, "r11"@, "_ob_caps"@);
    let out = out
        .push(ins("mov rdx, QWORD PTR [r11 + r10*8]"))
        .push(ins("mov r8, QWORD PTR [rbp - 16]"))
        .push(ins("add r8, rcx"))
        .push(ins("cmp r8, rdx"))
        .push(ins("jbe __rt_ob_append_copy_x86"))
        .push(label("__rt_ob_append_grow_size_x86"))
        .push(ins("shl rdx, 1"))
        .push(ins("cmp rdx, r8"))
        .push(ins("jb __rt_ob_append_grow_size_x86"))
        .push(ins("mov QWORD PTR [rbp - 40], rdx"))
        .push(ins("mov rax, rdx"))
        .push(ins("call __rt_heap_alloc"))
        .push(ins("mov r10, QWORD PTR [rbp - 24]"));
    let out = out + symbol_address(t, "r11"@, "_ob_ptrs"@);
    let out = out
        .push(ins("mov rcx, QWORD PTR [r11 + r10*8]"))
        .push(ins("mov rdx, QWORD PTR [rbp - 32]"))
        .push(ins("xor r8d, r8d"))
        .push(label("__rt_ob_append_grow_copy_x86"))
        .push(ins("cmp r8, rdx"))
        .push(ins("jge __rt_ob_append_grow_swap_x86"))
        .push(ins("mov r9b, BYTE PTR [rcx + r8]"))
        .push(ins("mov BYTE PTR [rax + r8], r9b"))
        .push(ins("add r8, 1"))
        .push(ins("jmp __rt_ob_append_grow_copy_x86"))
        .push(label("__rt_ob_append_grow_swap_x86"))
        .push(ins("mov QWORD PTR [r11 + r10*8], rax"));
    let out = out + symbol_address(t, "r9"@, "_ob_caps"@);
    let out = out
        .push(ins("mov rdx, QWORD PTR [rbp - 40]"))
        .push(ins("mov QWORD PTR [r9 + r10*8], rdx"))
        .push(ins("mov rax, rcx"))
        .push(ins("call __rt_heap_free"))
        .push(label("__rt_ob_append_copy_x86"))
        .push(ins("mov r10, QWORD PTR [rbp - 24]"));
    let out = out + symbol_address(t, "r11"@, "_ob_ptrs"@);
    let out = out
        .push(ins("mov rcx, QWORD PTR [r11 + r10*8]"))
        .push(ins("add rcx, QWORD PTR [rbp - 32]"))
        .push(ins("mov rdx, QWORD PTR [rbp - 8]"))
        .push(ins("mov r8, QWORD PTR [rbp - 16]"))
        .push(label("__rt_ob_append_copy_loop_x86"))
        .push(ins("test r8, r8"))
        .push(ins("jz __rt_ob_append_publish_x86"))
        .push(ins("mov r9b, BYTE PTR [rdx]"))
        .push(ins("mov BYTE PTR [rcx], r9b"))
        .push(ins("add rdx, 1"))
        .push(ins("add rcx, 1"))
        .push(ins("sub r8, 1"))
        .push(ins("jmp __rt_ob_append_copy_loop_x86"))
        .push(label("__rt_ob_append_publish_x86"))
        .push(ins("mov rcx, QWORD PTR [rbp - 32]"))
        .push(ins("add rcx, QWORD PTR [rbp - 16]"));
    let out = out
        .push(ins("mov r10, QWORD PTR [rbp - 24]"));
    let out = out + symbol_address(t, "r11"@, "_ob_lens"@);
    let out = out
        .push(ins("mov QWORD PTR [r11 + r10*8], rcx"))
        .push(label("__rt_ob_append_done_x86"))
        .push(ins("add rsp, 48"))
        .push(ins("pop rbp"))
        .push(ins("ret"));
    out
}

/// Emits the Linux x86_64 variant of `__rt_ob_append`.
fn emit_ob_append_x86_64(emitter: &mut Emitter)
    ensures
        final(emitter).target == old(emitter).target,
        final(emitter)@ == ob_append_x86_64(old(emitter)@, old(emitter).target),
{
    emitter.blank();
    emitter.comment("--- runtime: ob_append ---");
    emitter.label_global("__rt_ob_append");
    // frame: [rbp-8]=src, [rbp-16]=len, [rbp-24]=slot index, [rbp-32]=used, [rbp-40]=new capacity
    emitter.instruction("push rbp");    // preserve the caller frame pointer
    emitter.instruction("mov rbp, rsp");    // establish the ob_append frame pointer
    emitter.instruction("sub rsp, 48");    // reserve the ob_append local slots (16-aligned)
    emitter.instruction("mov QWORD PTR [rbp - 8], rdi");    // save the source byte pointer
    emitter.instruction("mov QWORD PTR [rbp - 16], rsi");    // save the source byte length
    abi::emit_symbol_address(emitter, "r9", "_ob_level");    // materialize the address of the buffer-stack depth
    emitter.instruction("mov r10, QWORD PTR [r9]");    // load the current buffer-stack depth
    emitter.instruction("test r10, r10");    // is any buffer active?
    emitter.instruction("jz __rt_ob_append_done_x86");    // no active buffer — defensive no-op
    emitter.instruction("sub r10, 1");    // top slot index = depth - 1
    emitter.instruction("mov QWORD PTR [rbp - 24], r10");    // save the top slot index
    abi::emit_symbol_address(emitter, "r11", "_ob_lens");    // materialize the used-bytes slot array
    emitter.instruction("mov rcx, QWORD PTR [r11 + r10*8]");    // load the top buffer's used byte count
    emitter.instruction("mov QWORD PTR [rbp - 32], rcx");    // save the used byte count
    abi::emit_symbol_address(emitter, "r11", "_ob_caps");    // materialize the capacity slot array
    emitter.instruction("mov rdx, QWORD PTR [r11 + r10*8]");    // load the top buffer's capacity
    emitter.instruction("mov r8, QWORD PTR [rbp - 16]");    // reload the incoming byte length
    emitter.instruction("add r8, rcx");    // needed bytes = used + incoming length
    emitter.instruction("cmp r8, rdx");    // does the payload fit the current capacity?
    emitter.instruction("jbe __rt_ob_append_copy_x86");    // fits — skip the growth path
    // -- grow: double the capacity until the payload fits --
    emitter.label("__rt_ob_append_grow_size_x86");
    emitter.instruction("shl rdx, 1");    // double the candidate capacity
    emitter.instruction("cmp rdx, r8");    // does the doubled capacity fit the payload?
    emitter.instruction("jb __rt_ob_append_grow_size_x86");    // keep doubling until it fits
    emitter.instruction("mov QWORD PTR [rbp - 40], rdx");    // save the new capacity
    emitter.instruction("mov rax, rdx");    // request the new capacity from the allocator
    emitter.instruction("call __rt_heap_alloc");    // allocate the replacement buffer (raw kind, per heap_alloc contract)
    // -- copy the used prefix from the old buffer into the replacement --
    emitter.instruction("mov r10, QWORD PTR [rbp - 24]");    // reload the top slot index
    abi::emit_symbol_address(emitter, "r11", "_ob_ptrs");    // materialize the buffer-pointer slot array
    emitter.instruction("mov rcx, QWORD PTR [r11 + r10*8]");    // load the old buffer base pointer
    emitter.instruction("mov rdx, QWORD PTR [rbp - 32]");    // reload the used byte count
    emitter.instruction("xor r8d, r8d");    // start the copy at offset zero
    emitter.label("__rt_ob_append_grow_copy_x86");
    emitter.instruction("cmp r8, rdx");    // copied all used bytes?
    emitter.instruction("jge __rt_ob_append_grow_swap_x86");    // yes — publish the replacement buffer
    emitter.instruction("mov r9b, BYTE PTR [rcx + r8]");    // load the next byte from the old buffer
    emitter.instruction("mov BYTE PTR [rax + r8], r9b");    // store the byte into the replacement buffer
    emitter.instruction("add r8, 1");    // advance the copy cursor
    emitter.instruction("jmp __rt_ob_append_grow_copy_x86");    // continue copying the used prefix
    emitter.label("__rt_ob_append_grow_swap_x86");
    emitter.instruction("mov QWORD PTR [r11 + r10*8], rax");    // publish the replacement buffer base pointer
    abi::emit_symbol_address(emitter, "r9", "_ob_caps");    // materialize the capacity slot array
    emitter.instruction("mov rdx, QWORD PTR [rbp - 40]");    // reload the new capacity
    emitter.instruction("mov QWORD PTR [r9 + r10*8], rdx");    // publish the new capacity
    emitter.instruction("mov rax, rcx");    // pass the old buffer to the deallocator
    emitter.instruction("call __rt_heap_free");    // release the old buffer block
    // -- copy the incoming bytes to buffer base + used --
    emitter.label("__rt_ob_append_copy_x86");
    emitter.instruction("mov r10, QWORD PTR [rbp - 24]");    // reload the top slot index
    abi::emit_symbol_address(emitter, "r11", "_ob_ptrs");    // materialize the buffer-pointer slot array
    emitter.instruction("mov rcx, QWORD PTR [r11 + r10*8]");    // load the (possibly replaced) buffer base pointer
    emitter.instruction("add rcx, QWORD PTR [rbp - 32]");    // destination cursor = base + used
    emitter.instruction("mov rdx, QWORD PTR [rbp - 8]");    // reload the source byte pointer
    emitter.instruction("mov r8, QWORD PTR [rbp - 16]");    // reload the source byte length
    emitter.label("__rt_ob_append_copy_loop_x86");
    emitter.instruction("test r8, r8");    // any bytes left to copy?
    emitter.instruction("jz __rt_ob_append_publish_x86");    // no bytes left — publish the new length
    emitter.instruction("mov r9b, BYTE PTR [rdx]");    // load the next source byte
    emitter.instruction("mov BYTE PTR [rcx], r9b");    // store the byte at the destination cursor
    emitter.instruction("add rdx, 1");    // advance the source cursor
    emitter.instruction("add rcx, 1");    // advance the destination cursor
    emitter.instruction("sub r8, 1");    // one byte fewer to copy
    emitter.instruction("jmp __rt_ob_append_copy_loop_x86");    // continue copying the incoming bytes
    emitter.label("__rt_ob_append_publish_x86");
    emitter.instruction("mov rcx, QWORD PTR [rbp - 32]");    // reload the used byte count
    emitter.instruction("add rcx, QWORD PTR [rbp - 16]");    // new used count = used + incoming length
    emitter.instruction("mov r10, QWORD PTR [rbp - 24]");    // reload the top slot index
    abi::emit_symbol_address(emitter, "r11", "_ob_lens");    // materialize the used-bytes slot array
    emitter.instruction("mov QWORD PTR [r11 + r10*8], rcx");    // publish the new used byte count
    emitter.label("__rt_ob_append_done_x86");
    emitter.instruction("add rsp, 48");    // release the ob_append local slots
    emitter.instruction("pop rbp");    // restore the caller frame pointer
    emitter.instruction("ret");    // return to caller
}

/// Appends to `out` the listing that `emit_ob_contents` emits for target `t`.
pub open spec fn ob_contents(out: Seq<Line>, t: Target) -> Seq<Line> {
    if t.arch == Arch::X86_64 {
        ob_contents_x86_64(out, t)
    } else {
        ob_contents_aarch64(out, t)
    }
}

/// Appends to `out` the AArch64 listing of `emit_ob_contents`.
pub open spec fn ob_contents_aarch64(out: Seq<Line>, t: Target) -> Seq<Line> {
    let out = out
        .push(Line::Blank)
        .push(comment("--- runtime: ob_contents ---"))
        .push(global("__rt_ob_contents"))
        .push(ins("stp x29, x30, [sp, #-16]!"))
        .push(ins("mov x29, sp"));
    let out = out + symbol_address(t, "x9"@, "_ob_level"@);
    let out = out
        .push(ins("ldr x10, [x9]"))
        .push(ins("cbz x10, __rt_ob_contents_none"))
        .push(ins("sub x10, x10, #1"));
    let out = out + symbol_address(t, "x11"@, "_ob_ptrs"@);
    let out = out
        .push(ins("ldr x1, [x11, x10, lsl #3]"));
    let out = out + symbol_address(t, "x11"@, "_ob_lens"@);
    let out = out
        .push(ins("ldr x2, [x11, x10, lsl #3]"))
        .push(ins("bl __rt_str_persist"))
        .push(ins("b __rt_ob_contents_done"))
        .push(label("__rt_ob_contents_none"))
        .push(ins("mov x1, #0"))
        .push(ins("mov x2, #0"))
        .push(label("__rt_ob_contents_done"))
        .push(ins("ldp x29, x30, [sp], #16"))
        .push(ins("ret"));
    out
}

/// Emits `__rt_ob_contents`: return a persisted copy of the top buffer contents.
///
/// No inputs. Returns the platform string result pair (AArch64 `x1`=ptr, `x2`=len /
/// x86_64 `rax`=ptr, `rdx`=len); a null pointer signals "no active buffer" so the
/// caller can box PHP `false`.
pub fn emit_ob_contents(emitter: &mut Emitter)
    ensures
        final(emitter).target == old(emitter).target,
        final(emitter)@ == ob_contents(old(emitter)@, old(emitter).target),
{
    if emitter.target.arch == Arch::X86_64 {
        emit_ob_contents_x86_64(emitter);
        return;
    }
    emitter.blank();
    emitter.comment("--- runtime: ob_contents ---");
    emitter.label_global("__rt_ob_contents");
    emitter.instruction("stp x29, x30, [sp, #-16]!");    // save frame pointer and return address
    emitter.instruction("mov x29, sp");    // establish a frame pointer for the persist call
    abi::emit_symbol_address(emitter, "x9", "_ob_level");    // materialize the address of the buffer-stack depth
    emitter.instruction("ldr x10, [x9]");    // load the current buffer-stack depth
    emitter.instruction("cbz x10, __rt_ob_contents_none");    // no active buffer — return the null failure pair
    emitter.instruction("sub x10, x10, #1");    // top slot index = depth - 1
    abi::emit_symbol_address(emitter, "x11", "_ob_ptrs");    // materialize the buffer-pointer slot array
    emitter.instruction("ldr x1, [x11, x10, lsl #3]");    // load the top buffer base pointer
    abi::emit_symbol_address(emitter, "x11", "_ob_lens");    // materialize the used-bytes slot array
    emitter.instruction("ldr x2, [x11, x10, lsl #3]");    // load the top buffer's used byte count
    emitter.instruction("bl __rt_str_persist");    // copy the contents into an owned heap string
    emitter.instruction("b __rt_ob_contents_done");    // return the persisted string pair
    emitter.label("__rt_ob_contents_none");
    emitter.instruction("mov x1, #0");    // null pointer signals "no active buffer"
    emitter.instruction("mov x2, #0");    // zero length for the failure pair
    emitter.label("__rt_ob_contents_done");
    emitter.instruction("ldp x29, x30, [sp], #16");    // restore frame pointer and return address
    emitter.instruction("ret");    // return the string result pair
}

/// Appends to `out` the listing that `emit_ob_contents_x86_64` emits for target `t`.
pub open spec fn ob_contents_x86_64(out: Seq<Line>, t: Target) -> Seq<Line> {
    let out = out
        .push(Line::Blank)
        .push(comment("--- runtime: ob_contents ---"))
        .push(global("__rt_ob_contents"))
        .push(ins("push rbp"))
        .push(ins("mov rbp, rsp"));
    let out = out + symbol_address(t, "r9"@, "_ob_level"@);
    let out = out
        .push(ins("mov r10, QWORD PTR [r9]"))
        .push(ins("test r10, r10"))
        .push(ins("jz __rt_ob_contents_none_x86"))
        .push(ins("sub r10, 1"));
    let out = out + symbol_address(t, "r11"@, "_ob_ptrs"@);
    let out = out
        .push(ins("mov rax, QWORD PTR [r11 + r10*8]"));
    let out = out + symbol_address(t, "r11"@, "_ob_lens"@);
    let out = out
        .push(ins("mov rdx, QWORD PTR [r11 + r10*8]"))
        .push(ins("call __rt_str_persist"))
        .push(ins("jmp __rt_ob_contents_done_x86"))
        .push(label("__rt_ob_contents_none_x86"))
        .push(ins("xor eax, eax"))
        .push(ins("xor edx, edx"))
        .push(label("__rt_ob_contents_done_x86"))
        .push(ins("pop rbp"))
        .push(ins("ret"));
    out
}

/// Emits the Linux x86_64 variant of `__rt_ob_contents`.
fn emit_ob_contents_x86_64(emitter: &mut Emitter)
    ensures
        final(emitter).target == old(emitter).target,
        final(emitter)@ == ob_contents_x86_64(old(emitter)@, old(emitter).target),
{
    emitter.blank();
    emitter.comment("--- runtime: ob_contents ---");
    emitter.label_global("__rt_ob_contents");
    emitter.instruction("push rbp");    // preserve the caller frame pointer across the persist call
    emitter.instruction("mov rbp, rsp");    // establish a frame pointer for the persist call
    abi::emit_symbol_address(emitter, "r9", "_ob_level");    // materialize the address of the buffer-stack depth
    emitter.instruction("mov r10, QWORD PTR [r9]");    // load the current buffer-stack depth
    emitter.instruction("test r10, r10");    // is any buffer active?
    emitter.instruction("jz __rt_ob_contents_none_x86");    // no active buffer — return the null failure pair
    emitter.instruction("sub r10, 1");    // top slot index = depth - 1
    abi::emit_symbol_address(emitter, "r11", "_ob_ptrs");    // materialize the buffer-pointer slot array
    emitter.instruction("mov rax, QWORD PTR [r11 + r10*8]");    // load the top buffer base pointer
    abi::emit_symbol_address(emitter, "r11", "_ob_lens");    // materialize the used-bytes slot array
    emitter.instruction("mov rdx, QWORD PTR [r11 + r10*8]");    // load the top buffer's used byte count
    emitter.instruction("call __rt_str_persist");    // copy the contents into an owned heap string
    emitter.instruction("jmp __rt_ob_contents_done_x86");    // return the persisted string pair
    emitter.label("__rt_ob_contents_none_x86");
    emitter.instruction("xor eax, eax");    // null pointer signals "no active buffer"
    emitter.instruction("xor edx, edx");    // zero length for the failure pair
    emitter.label("__rt_ob_contents_done_x86");
    emitter.instruction("pop rbp");    // restore the caller frame pointer
    emitter.instruction("ret");    // return the string result pair
}

/// Appends to `out` the listing that `emit_ob_queries` emits for target `t`.
pub open spec fn ob_queries(out: Seq<Line>, t: Target) -> Seq<Line> {
    if t.arch == Arch::X86_64 {
        ob_queries_x86_64(out, t)
    } else {
        ob_queries_aarch64(out, t)
    }
}

/// Appends to `out` the AArch64 listing of `emit_ob_queries`.
pub open spec fn ob_queries_aarch64(out: Seq<Line>, t: Target) -> Seq<Line> {
    let out = out
        .push(Line::Blank)
        .push(comment("--- runtime: ob_length / ob_level ---"))
        .push(global("__rt_ob_length"));
    let out = out + symbol_address(t, "x9"@, "_ob_level"@);
    let out = out
        .push(ins("ldr x10, [x9]"))
        .push(ins("cbz x10, __rt_ob_length_none"))
        .push(ins("sub x10, x10, #1"));
    let out = out + symbol_address(t, "x11"@, "_ob_lens"@);
    let out = out
        .push(ins("ldr x0, [x11, x10, lsl #3]"))
        .push(ins("ret"))
        .push(label("__rt_ob_length_none"))
        .push(ins("mov x0, #-1"))
        .push(ins("ret"))
        .push(Line::Blank)
        .push(global("__rt_ob_level"));
    let out = out + symbol_address(t, "x9"@, "_ob_level"@);
    let out = out
        .push(ins("ldr x0, [x9]"))
        .push(ins("ret"));
    out
}

/// Emits `__rt_ob_length` and `__rt_ob_level`: the buffer-stack integer queries.
///
/// `__rt_ob_length` returns the top buffer's used byte count in `x0`/`rax`, or -1
/// when no buffer is active. `__rt_ob_level` returns the nesting depth. Neither
/// takes inputs nor calls other helpers.
pub fn emit_ob_queries(emitter: &mut Emitter)
    ensures
        final(emitter).target == old(emitter).target,
        final(emitter)@ == ob_queries(old(emitter)@, old(emitter).target),
{
    if emitter.target.arch == Arch::X86_64 {
        emit_ob_queries_x86_64(emitter);
        return;
    }
    emitter.blank();
    emitter.comment("--- runtime: ob_length / ob_level ---");
    emitter.label_global("__rt_ob_length");
    abi::emit_symbol_address(emitter, "x9", "_ob_level");    // materialize the address of the buffer-stack depth
    emitter.instruction("ldr x10, [x9]");    // load the current buffer-stack depth
    emitter.instruction("cbz x10, __rt_ob_length_none");    // no active buffer — return the -1 sentinel
    emitter.instruction("sub x10, x10, #1");    // top slot index = depth - 1
    abi::emit_symbol_address(emitter, "x11", "_ob_lens");    // materialize the used-bytes slot array
    emitter.instruction("ldr x0, [x11, x10, lsl #3]");    // return the top buffer's used byte count
    emitter.instruction("ret");    // return the length
    emitter.label("__rt_ob_length_none");
    emitter.instruction("mov x0, #-1");    // -1 signals "no active buffer"
    emitter.instruction("ret");    // return the failure sentinel
    emitter.blank();
    emitter.label_global("__rt_ob_level");
    abi::emit_symbol_address(emitter, "x9", "_ob_level");    // materialize the address of the buffer-stack depth
    emitter.instruction("ldr x0, [x9]");    // return the current nesting depth
    emitter.instruction("ret");    // return the level
}

/// Appends to `out` the listing that `emit_ob_queries_x86_64` emits for target `t`.
pub open spec fn ob_queries_x86_64(out: Seq<Line>, t: Target) -> Seq<Line> {
    let out = out
        .push(Line::Blank)
        .push(comment("--- runtime: ob_length / ob_level ---"))
        .push(global("__rt_ob_length"));
    let out = out + symbol_address(t, "r9"@, "_ob_level"@);
    let out = out
        .push(ins("mov r10, QWORD PTR [r9]"))
        .push(ins("test r10, r10"))
        .push(ins("jz __rt_ob_length_none_x86"))
        .push(ins("sub r10, 1"));
    let out = out + symbol_address(t, "r11"@, "_ob_lens"@);
    let out = out
        .push(ins("mov rax, QWORD PTR [r11 + r10*8]"))
        .push(ins("ret"))
        .push(label("__rt_ob_length_none_x86"))
        .push(ins("mov rax, -1"))
        .push(ins("ret"))
        .push(Line::Blank)
        .push(global("__rt_ob_level"));
    let out = out + symbol_address(t, "r9"@, "_ob_level"@);
    let out = out
        .push(ins("mov rax, QWORD PTR [r9]"))
        .push(ins("ret"));
    out
}

/// Emits the Linux x86_64 variants of `__rt_ob_length` and `__rt_ob_level`.
fn emit_ob_queries_x86_64(emitter: &mut Emitter)
    ensures
        final(emitter).target == old(emitter).target,
        final(emitter)@ == ob_queries_x86_64(old(emitter)@, old(emitter).target),
{
    emitter.blank();
    emitter.comment("--- runtime: ob_length / ob_level ---");
    emitter.label_global("__rt_ob_length");
    abi::emit_symbol_address(emitter, "r9", "_ob_level");    // materialize the address of the buffer-stack depth
    emitter.instruction("mov r10, QWORD PTR [r9]");    // load the current buffer-stack depth
    emitter.instruction("test r10, r10");    // is any buffer active?
    emitter.instruction("jz __rt_ob_length_none_x86");    // no active buffer — return the -1 sentinel
    emitter.instruction("sub r10, 1");    // top slot index = depth - 1
    abi::emit_symbol_address(emitter, "r11", "_ob_lens");    // materialize the used-bytes slot array
    emitter.instruction("mov rax, QWORD PTR [r11 + r10*8]");    // return the top buffer's used byte count
    emitter.instruction("ret");    // return the length
    emitter.label("__rt_ob_length_none_x86");
    emitter.instruction("mov rax, -1");    // -1 signals "no active buffer"
    emitter.instruction("ret");    // return the failure sentinel
    emitter.blank();
    emitter.label_global("__rt_ob_level");
    abi::emit_symbol_address(emitter, "r9", "_ob_level");    // materialize the address of the buffer-stack depth
    emitter.instruction("mov rax, QWORD PTR [r9]");    // return the current nesting depth
    emitter.instruction("ret");    // return the level
}

/// Appends to `out` the listing that `emit_ob_clean` emits for target `t`.
pub open spec fn ob_clean(out: Seq<Line>, t: Target) -> Seq<Line> {
    if t.arch == Arch::X86_64 {
        ob_clean_x86_64(out, t)
    } else {
        ob_clean_aarch64(out, t)
    }
}

/// Appends to `out` the AArch64 listing of `emit_ob_clean`.
pub open spec fn ob_clean_aarch64(out: Seq<Line>, t: Target) -> Seq<Line> {
    let out = out
        .push(Line::Blank)
        .push(comment("--- runtime: ob_clean ---"))
        .push(global("__rt_ob_clean"));
    let out = out + symbol_address(t, "x9"@, "_ob_level"@);
    let out = out
        .push(ins("ldr x10, [x9]"))
        .push(ins("cbz x10, __rt_ob_clean_fail"))
        .push(ins("sub x10, x10, #1"));
    let out = out + symbol_address(t, "x11"@, "_ob_lens"@);
    let out = out
        .push(ins("str xzr, [x11, x10, lsl #3]"))
        .push(ins("mov x0, #1"))
        .push(ins("ret"))
        .push(label("__rt_ob_clean_fail"))
        .push(ins("mov x0, #0"))
        .push(ins("ret"));
    out
}

/// Emits `__rt_ob_clean`: discard the top buffer's contents but keep the buffer.
///
/// No inputs. Returns 1 in `x0`/`rax` on success, 0 when no buffer is active.
pub fn emit_ob_clean(emitter: &mut Emitter)
    ensures
        final(emitter).target == old(emitter).target,
        final(emitter)@ == ob_clean(old(emitter)@, old(emitter).target),
{
    if emitter.target.arch == Arch::X86_64 {
        emit_ob_clean_x86_64(emitter);
        return;
    }
    emitter.blank();
    emitter.comment("--- runtime: ob_clean ---");
    emitter.label_global("__rt_ob_clean");
    abi::emit_symbol_address(emitter, "x9", "_ob_level");    // materialize the address of the buffer-stack depth
    emitter.instruction("ldr x10, [x9]");    // load the current buffer-stack depth
    emitter.instruction("cbz x10, __rt_ob_clean_fail");    // no active buffer — report failure
    emitter.instruction("sub x10, x10, #1");    // top slot index = depth - 1
    abi::emit_symbol_address(emitter, "x11", "_ob_lens");    // materialize the used-bytes slot array
    emitter.instruction("str xzr, [x11, x10, lsl #3]");    // truncate the top buffer to zero bytes
    emitter.instruction("mov x0, #1");    // report success
    emitter.instruction("ret");    // return the success flag
    emitter.label("__rt_ob_clean_fail");
    emitter.instruction("mov x0, #0");    // report failure (no active buffer)
    emitter.instruction("ret");    // return the failure flag
}

/// Appends to `out` the listing that `emit_ob_clean_x86_64` emits for target `t`.
pub open spec fn ob_clean_x86_64(out: Seq<Line>, t: Target) -> Seq<Line> {
    let out = out
        .push(Line::Blank)
        .push(comment("--- runtime: ob_clean ---"))
        .push(global("__rt_ob_clean"));
    let out = out + symbol_address(t, "r9"@, "_ob_level"@);
    let out = out
        .push(ins("mov r10, QWORD PTR [r9]"))
        .push(ins("test r10, r10"))
        .push(ins("jz __rt_ob_clean_fail_x86"))
        .push(ins("sub r10, 1"));
    let out = out + symbol_address(t, "r11"@, "_ob_lens"@);
    let out = out
        .push(ins("mov QWORD PTR [r11 + r10*8], 0"))
        .push(ins("mov eax, 1"))
        .push(ins("ret"))
        .push(label("__rt_ob_clean_fail_x86"))
        .push(ins("xor eax, eax"))
        .push(ins("ret"));
    out
}

/// Emits the Linux x86_64 variant of `__rt_ob_clean`.
fn emit_ob_clean_x86_64(emitter: &mut Emitter)
    ensures
        final(emitter).target == old(emitter).target,
        final(emitter)@ == ob_clean_x86_64(old(emitter)@, old(emitter).target),
{
    emitter.blank();
    emitter.comment("--- runtime: ob_clean ---");
    emitter.label_global("__rt_ob_clean");
    abi::emit_symbol_address(emitter, "r9", "_ob_level");    // materialize the address of the buffer-stack depth
    emitter.instruction("mov r10, QWORD PTR [r9]");    // load the current buffer-stack depth
    emitter.instruction("test r10, r10");    // is any buffer active?
    emitter.instruction("jz __rt_ob_clean_fail_x86");    // no active buffer — report failure
    emitter.instruction("sub r10, 1");    // top slot index = depth - 1
    abi::emit_symbol_address(emitter, "r11", "_ob_lens");    // materialize the used-bytes slot array
    emitter.instruction("mov QWORD PTR [r11 + r10*8], 0");    // truncate the top buffer to zero bytes
    emitter.instruction("mov eax, 1");    // report success
    emitter.instruction("ret");    // return the success flag
    emitter.label("__rt_ob_clean_fail_x86");
    emitter.instruction("xor eax, eax");    // report failure (no active buffer)
    emitter.instruction("ret");    // return the failure flag
}

/// Appends to `out` the listing that `emit_ob_end_clean` emits for target `t`.
pub open spec fn ob_end_clean(out: Seq<Line>, t: Target) -> Seq<Line> {
    if t.arch == Arch::X86_64 {
        ob_end_clean_x86_64(out, t)
    } else {
        ob_end_clean_aarch64(out, t)
    }
}

/// Appends to `out` the AArch64 listing of `emit_ob_end_clean`.
pub open spec fn ob_end_clean_aarch64(out: Seq<Line>, t: Target) -> Seq<Line> {
    let out = out
        .push(Line::Blank)
        .push(comment("--- runtime: ob_end_clean ---"))
        .push(global("__rt_ob_end_clean"))
        .push(ins("stp x29, x30, [sp, #-16]!"))
        .push(ins("mov x29, sp"));
    let out = out + symbol_address(t, "x9"@, "_ob_level"@);
    let out = out
        .push(ins("ldr x10, [x9]"))
        .push(ins("cbz x10, __rt_ob_end_clean_fail"))
        .push(ins("sub x10, x10, #1"))
        .push(ins("str x10, [x9]"));
    let out = out + symbol_address(t, "x11"@, "_ob_ptrs"@);
    let out = out
        .push(ins("ldr x0, [x11, x10, lsl #3]"))
        .push(ins("bl __rt_heap_free"))
        .push(ins("mov x0, #1"))
        .push(ins("b __rt_ob_end_clean_done"))
        .push(label("__rt_ob_end_clean_fail"))
        .push(ins("mov x0, #0"))
        .push(label("__rt_ob_end_clean_done"))
        .push(ins("ldp x29, x30, [sp], #16"))
        .push(ins("ret"));
    out
}

/// Emits `__rt_ob_end_clean`: discard the top buffer and pop the stack.
///
/// No inputs. Returns 1 in `x0`/`rax` on success, 0 when no buffer is active.
/// Publishes the decremented depth before freeing so a fatal inside the
/// deallocator can no longer observe the dying buffer.
pub fn emit_ob_end_clean(emitter: &mut Emitter)
    ensures
        final(emitter).target == old(emitter).target,
        final(emitter)@ == ob_end_clean(old(emitter)@, old(emitter).target),
{
    if emitter.target.arch == Arch::X86_64 {
        emit_ob_end_clean_x86_64(emitter);
        return;
    }
    emitter.blank();
    emitter.comment("--- runtime: ob_end_clean ---");
    emitter.label_global("__rt_ob_end_clean");
    emitter.instruction("stp x29, x30, [sp, #-16]!");    // save frame pointer and return address
    emitter.instruction("mov x29, sp");    // establish a frame pointer for the free call
    abi::emit_symbol_address(emitter, "x9", "_ob_level");    // materialize the address of the buffer-stack depth
    emitter.instruction("ldr x10, [x9]");    // load the current buffer-stack depth
    emitter.instruction("cbz x10, __rt_ob_end_clean_fail");    // no active buffer — report failure
    emitter.instruction("sub x10, x10, #1");    // new depth = old depth - 1 (also the dying slot index)
    emitter.instruction("str x10, [x9]");    // publish the popped depth before freeing
    abi::emit_symbol_address(emitter, "x11", "_ob_ptrs");    // materialize the buffer-pointer slot array
    emitter.instruction("ldr x0, [x11, x10, lsl #3]");    // load the dying buffer base pointer
    emitter.instruction("bl __rt_heap_free");    // release the dying buffer block
    emitter.instruction("mov x0, #1");    // report success
    emitter.instruction("b __rt_ob_end_clean_done");    // skip the failure path
    emitter.label("__rt_ob_end_clean_fail");
    emitter.instruction("mov x0, #0");    // report failure (no active buffer)
    emitter.label("__rt_ob_end_clean_done");
    emitter.instruction("ldp x29, x30, [sp], #16");    // restore frame pointer and return address
    emitter.instruction("ret");    // return the success flag
}

/// Appends to `out` the listing that `emit_ob_end_clean_x86_64` emits for target `t`.
pub open spec fn ob_end_clean_x86_64(out: Seq<Line>, t: Target) -> Seq<Line> {
    let out = out
        .push(Line::Blank)
        .push(comment("--- runtime: ob_end_clean ---"))
        .push(global("__rt_ob_end_clean"))
        .push(ins("push rbp"))
        .push(ins("mov rbp, rsp"));
    let out = out + symbol_address(t, "r9"@, "_ob_level"@);
    let out = out
        .push(ins("mov r10, QWORD PTR [r9]"))
        .push(ins("test r10, r10"))
        .push(ins("jz __rt_ob_end_clean_fail_x86"))
        .push(ins("sub r10, 1"))
        .push(ins("mov QWORD PTR [r9], r10"));
    let out = out + symbol_address(t, "r11"@, "_ob_ptrs"@);
    let out = out
        .push(ins("mov rax, QWORD PTR [r11 + r10*8]"))
        .push(ins("call __rt_heap_free"))
        .push(ins("mov eax, 1"))
        .push(ins("jmp __rt_ob_end_clean_done_x86"))
        .push(label("__rt_ob_end_clean_fail_x86"))
        .push(ins("xor eax, eax"))
        .push(label("__rt_ob_end_clean_done_x86"))
        .push(ins("pop rbp"))
        .push(ins("ret"));
    out
}

/// Emits the Linux x86_64 variant of `__rt_ob_end_clean`.
fn emit_ob_end_clean_x86_64(emitter: &mut Emitter)
    ensures
        final(emitter).target == old(emitter).target,
        final(emitter)@ == ob_end_clean_x86_64(old(emitter)@, old(emitter).target),
{
    emitter.blank();
    emitter.comment("--- runtime: ob_end_clean ---");
    emitter.label_global("__rt_ob_end_clean");
    emitter.instruction("push rbp");    // preserve the caller frame pointer across the free call
    emitter.instruction("mov rbp, rsp");    // establish a frame pointer for the free call
    abi::emit_symbol_address(emitter, "r9", "_ob_level");    // materialize the address of the buffer-stack depth
    emitter.instruction("mov r10, QWORD PTR [r9]");    // load the current buffer-stack depth
    emitter.instruction("test r10, r10");    // is any buffer active?
    emitter.instruction("jz __rt_ob_end_clean_fail_x86");    // no active buffer — report failure
    emitter.instruction("sub r10, 1");    // new depth = old depth - 1 (also the dying slot index)
    emitter.instruction("mov QWORD PTR [r9], r10");    // publish the popped depth before freeing
    abi::emit_symbol_address(emitter, "r11", "_ob_ptrs");    // materialize the buffer-pointer slot array
    emitter.instruction("mov rax, QWORD PTR [r11 + r10*8]");    // load the dying buffer base pointer
    emitter.instruction("call __rt_heap_free");    // release the dying buffer block
    emitter.instruction("mov eax, 1");    // report success
    emitter.instruction("jmp __rt_ob_end_clean_done_x86");    // skip the failure path
    emitter.label("__rt_ob_end_clean_fail_x86");
    emitter.instruction("xor eax, eax");    // report failure (no active buffer)
    emitter.label("__rt_ob_end_clean_done_x86");
    emitter.instruction("pop rbp");    // restore the caller frame pointer
    emitter.instruction("ret");    // return the success flag
}

/// Appends to `out` the listing that `emit_ob_flush` emits for target `t`.
pub open spec fn ob_flush(out: Seq<Line>, t: Target) -> Seq<Line> {
    if t.arch == Arch::X86_64 {
        ob_flush_x86_64(out, t)
    } else {
        ob_flush_aarch64(out, t)
    }
}

/// Appends to `out` the AArch64 listing of `emit_ob_flush`.
pub open spec fn ob_flush_aarch64(out: Seq<Line>, t: Target) -> Seq<Line> {
    let out = out
        .push(Line::Blank)
        .push(comment("--- runtime: ob_flush ---"))
        .push(global("__rt_ob_flush"))
        .push(ins("sub sp, sp, #32"))
        .push(ins("stp x29, x30, [sp, #16]"))
        .push(ins("add x29, sp, #16"));
    let out = out + symbol_address(t, "x9"@, "_ob_level"@);
    let out = out
        .push(ins("ldr x10, [x9]"))
        .push(ins("cbz x10, __rt_ob_flush_fail"))
        .push(ins("str x10, [sp, #0]"))
        .push(ins("sub x11, x10, #1"));
    let out = out + symbol_address(t, "x12"@, "_ob_ptrs"@);
    let out = out
        .push(ins("ldr x0, [x12, x11, lsl #3]"));
    let out = out + symbol_address(t, "x12"@, "_ob_lens"@);
    let out = out
        .push(ins("ldr x1, [x12, x11, lsl #3]"))
        .push(ins("cbz x1, __rt_ob_flush_truncate"))
        .push(ins("str x11, [x9]"))
        .push(ins("bl __rt_stdout_write"));
    let out = out + symbol_address(t, "x9"@, "_ob_level"@);
    let out = out
        .push(ins("ldr x10, [sp, #0]"))
        .push(ins("str x10, [x9]"))
        .push(label("__rt_ob_flush_truncate"))
        .push(ins("ldr x10, [sp, #0]"))
        .push(ins("sub x11, x10, #1"));
    let out = out + symbol_address(t, "x12"@, "_ob_lens"@);
    let out = out
        .push(ins("str xzr, [x12, x11, lsl #3]"))
        .push(ins("mov x0, #1"))
        .push(ins("b __rt_ob_flush_done"))
        .push(label("__rt_ob_flush_fail"))
        .push(ins("mov x0, #0"))
        .push(label("__rt_ob_flush_done"))
        .push(ins("ldp x29, x30, [sp, #16]"))
        .push(ins("add sp, sp, #32"))
        .push(ins("ret"));
    out
}

/// Emits `__rt_ob_flush`: write the top buffer's contents to the parent sink and
/// truncate the buffer, keeping the level.
///
/// No inputs. Returns 1 in `x0`/`rax` on success, 0 when no buffer is active.
/// Temporarily decrements `_ob_level` around the `__rt_stdout_write` call so the
/// bytes route to the parent buffer, the `--web` capture, or the terminal.
pub fn emit_ob_flush(emitter: &mut Emitter)
    ensures
        final(emitter).target == old(emitter).target,
        final(emitter)@ == ob_flush(old(emitter)@, old(emitter).target),
{
    if emitter.target.arch == Arch::X86_64 {
        emit_ob_flush_x86_64(emitter);
        return;
    }
    emitter.blank();
    emitter.comment("--- runtime: ob_flush ---");
    emitter.label_global("__rt_ob_flush");
    emitter.instruction("sub sp, sp, #32");    // allocate the ob_flush frame
    emitter.instruction("stp x29, x30, [sp, #16]");    // save frame pointer and return address
    emitter.instruction("add x29, sp, #16");    // establish the ob_flush frame pointer
    abi::emit_symbol_address(emitter, "x9", "_ob_level");    // materialize the address of the buffer-stack depth
    emitter.instruction("ldr x10, [x9]");    // load the current buffer-stack depth
    emitter.instruction("cbz x10, __rt_ob_flush_fail");    // no active buffer — report failure
    emitter.instruction("str x10, [sp, #0]");    // save the depth across the write call
    emitter.instruction("sub x11, x10, #1");    // top slot index = depth - 1
    abi::emit_symbol_address(emitter, "x12", "_ob_ptrs");    // materialize the buffer-pointer slot array
    emitter.instruction("ldr x0, [x12, x11, lsl #3]");    // pass the top buffer base pointer to the writer
    abi::emit_symbol_address(emitter, "x12", "_ob_lens");    // materialize the used-bytes slot array
    emitter.instruction("ldr x1, [x12, x11, lsl #3]");    // pass the top buffer's used byte count to the writer
    emitter.instruction("cbz x1, __rt_ob_flush_truncate");    // empty buffer — nothing to write
    emitter.instruction("str x11, [x9]");    // temporarily pop the level so the write routes to the parent sink
    emitter.instruction("bl __rt_stdout_write");    // write the buffered bytes to the parent sink
    abi::emit_symbol_address(emitter, "x9", "_ob_level");    // materialize the address of the buffer-stack depth
    emitter.instruction("ldr x10, [sp, #0]");    // reload the saved depth
    emitter.instruction("str x10, [x9]");    // restore the buffer-stack depth
    emitter.label("__rt_ob_flush_truncate");
    emitter.instruction("ldr x10, [sp, #0]");    // reload the saved depth
    emitter.instruction("sub x11, x10, #1");    // top slot index = depth - 1
    abi::emit_symbol_address(emitter, "x12", "_ob_lens");    // materialize the used-bytes slot array
    emitter.instruction("str xzr, [x12, x11, lsl #3]");    // truncate the flushed buffer to zero bytes
    emitter.instruction("mov x0, #1");    // report success
    emitter.instruction("b __rt_ob_flush_done");    // skip the failure path
    emitter.label("__rt_ob_flush_fail");
    emitter.instruction("mov x0, #0");    // report failure (no active buffer)
    emitter.label("__rt_ob_flush_done");
    emitter.instruction("ldp x29, x30, [sp, #16]");    // restore frame pointer and return address
    emitter.instruction("add sp, sp, #32");    // release the ob_flush frame
    emitter.instruction("ret");    // return the success flag
}

/// Appends to `out` the listing that `emit_ob_flush_x86_64` emits for target `t`.
pub open spec fn ob_flush_x86_64(out: Seq<Line>, t: Target) -> Seq<Line> {
    let out = out
        .push(Line::Blank)
        .push(comment("--- runtime: ob_flush ---"))
        .push(global("__rt_ob_flush"))
        .push(ins("push rbp"))
        .push(ins("mov rbp, rsp"))
        .push(ins("sub rsp, 16"));
    let out = out + symbol_address(t, "r9"@, "_ob_level"@);
    let out = out
        .push(ins("mov r10, QWORD PTR [r9]"))
        .push(ins("test r10, r10"))
        .push(ins("jz __rt_ob_flush_fail_x86"))
        .push(ins("mov QWORD PTR [rbp - 8], r10"))
        .push(ins("mov r11, r10"))
        .push(ins("sub r11, 1"));
    let out = out + symbol_address(t, "r8"@, "_ob_ptrs"@);
    let out = out
        .push(ins("mov rdi, QWORD PTR [r8 + r11*8]"));
    let out = out + symbol_address(t, "r8"@, "_ob_lens"@);
    let out = out
        .push(ins("mov rsi, QWORD PTR [r8 + r11*8]"))
        .push(ins("test rsi, rsi"))
        .push(ins("jz __rt_ob_flush_truncate_x86"))
        .push(ins("mov QWORD PTR [r9], r11"))
        .push(ins("call __rt_stdout_write"));
    let out = out + symbol_address(t, "r9"@, "_ob_level"@);
    let out = out
        .push(ins("mov r10, QWORD PTR [rbp - 8]"))
        .push(ins("mov QWORD PTR [r9], r10"))
        .push(label("__rt_ob_flush_truncate_x86"))
        .push(ins("mov r10, QWORD PTR [rbp - 8]"))
        .push(ins("sub r10, 1"));
    let out = out + symbol_address(t, "r11"@, "_ob_lens"@);
    let out = out
        .push(ins("mov QWORD PTR [r11 + r10*8], 0"))
        .push(ins("mov eax, 1"))
        .push(ins("jmp __rt_ob_flush_done_x86"))
        .push(label("__rt_ob_flush_fail_x86"))
        .push(ins("xor eax, eax"))
        .push(label("__rt_ob_flush_done_x86"))
        .push(ins("add rsp, 16"))
        .push(ins("pop rbp"))
        .push(ins("ret"));
    out
}

/// Emits the Linux x86_64 variant of `__rt_ob_flush`.
fn emit_ob_flush_x86_64(emitter: &mut Emitter)
    ensures
        final(emitter).target == old(emitter).target,
        final(emitter)@ == ob_flush_x86_64(old(emitter)@, old(emitter).target),
{
    emitter.blank();
    emitter.comment("--- runtime: ob_flush ---");
    emitter.label_global("__rt_ob_flush");
    emitter.instruction("push rbp");    // preserve the caller frame pointer
    emitter.instruction("mov rbp, rsp");    // establish the ob_flush frame pointer
    emitter.instruction("sub rsp, 16");    // reserve an aligned slot for the saved depth
    abi::emit_symbol_address(emitter, "r9", "_ob_level");    // materialize the address of the buffer-stack depth
    emitter.instruction("mov r10, QWORD PTR [r9]");    // load the current buffer-stack depth
    emitter.instruction("test r10, r10");    // is any buffer active?
    emitter.instruction("jz __rt_ob_flush_fail_x86");    // no active buffer — report failure
    emitter.instruction("mov QWORD PTR [rbp - 8], r10");    // save the depth across the write call
    emitter.instruction("mov r11, r10");    // copy the depth for slot indexing
    emitter.instruction("sub r11, 1");    // top slot index = depth - 1
    abi::emit_symbol_address(emitter, "r8", "_ob_ptrs");    // materialize the buffer-pointer slot array
    emitter.instruction("mov rdi, QWORD PTR [r8 + r11*8]");    // pass the top buffer base pointer to the writer
    abi::emit_symbol_address(emitter, "r8", "_ob_lens");    // materialize the used-bytes slot array
    emitter.instruction("mov rsi, QWORD PTR [r8 + r11*8]");    // pass the top buffer's used byte count to the writer
    emitter.instruction("test rsi, rsi");    // is there anything to write?
    emitter.instruction("jz __rt_ob_flush_truncate_x86");    // empty buffer — nothing to write
    emitter.instruction("mov QWORD PTR [r9], r11");    // temporarily pop the level so the write routes to the parent sink
    emitter.instruction("call __rt_stdout_write");    // write the buffered bytes to the parent sink
    abi::emit_symbol_address(emitter, "r9", "_ob_level");    // materialize the address of the buffer-stack depth
    emitter.instruction("mov r10, QWORD PTR [rbp - 8]");    // reload the saved depth
    emitter.instruction("mov QWORD PTR [r9], r10");    // restore the buffer-stack depth
    emitter.label("__rt_ob_flush_truncate_x86");
    emitter.instruction("mov r10, QWORD PTR [rbp - 8]");    // reload the saved depth
    emitter.instruction("sub r10, 1");    // top slot index = depth - 1
    abi::emit_symbol_address(emitter, "r11", "_ob_lens");    // materialize the used-bytes slot array
    emitter.instruction("mov QWORD PTR [r11 + r10*8], 0");    // truncate the flushed buffer to zero bytes
    emitter.instruction("mov eax, 1");    // report success
    emitter.instruction("jmp __rt_ob_flush_done_x86");    // skip the failure path
    emitter.label("__rt_ob_flush_fail_x86");
    emitter.instruction("xor eax, eax");    // report failure (no active buffer)
    emitter.label("__rt_ob_flush_done_x86");
    emitter.instruction("add rsp, 16");    // release the ob_flush frame
    emitter.instruction("pop rbp");    // restore the caller frame pointer
    emitter.instruction("ret");    // return the success flag
}

/// Appends to `out` the listing that `emit_ob_end_flush` emits for target `t`.
pub open spec fn ob_end_flush(out: Seq<Line>, t: Target) -> Seq<Line> {
    if t.arch == Arch::X86_64 {
        ob_end_flush_x86_64(out, t)
    } else {
        ob_end_flush_aarch64(out, t)
    }
}

/// Appends to `out` the AArch64 listing of `emit_ob_end_flush`.
pub open spec fn ob_end_flush_aarch64(out: Seq<Line>, t: Target) -> Seq<Line> {
    let out = out
        .push(Line::Blank)
        .push(comment("--- runtime: ob_end_flush ---"))
        .push(global("__rt_ob_end_flush"))
        .push(ins("stp x29, x30, [sp, #-16]!"))
        .push(ins("mov x29, sp"))
        .push(ins("bl __rt_ob_flush"))
        .push(ins("cbz x0, __rt_ob_end_flush_done"))
        .push(ins("bl __rt_ob_end_clean"))
        .push(label("__rt_ob_end_flush_done"))
        .push(ins("ldp x29, x30, [sp], #16"))
        .push(ins("ret"));
    out
}

/// Emits `__rt_ob_end_flush`: flush the top buffer to the parent sink, then pop
/// and free it.
///
/// No inputs. Returns 1 in `x0`/`rax` on success, 0 when no buffer is active.
/// Composes `__rt_ob_flush` (write + truncate) with `__rt_ob_end_clean` (pop + free).
pub fn emit_ob_end_flush(emitter: &mut Emitter)
    ensures
        final(emitter).target == old(emitter).target,
        final(emitter)@ == ob_end_flush(old(emitter)@, old(emitter).target),
{
    if emitter.target.arch == Arch::X86_64 {
        emit_ob_end_flush_x86_64(emitter);
        return;
    }
    emitter.blank();
    emitter.comment("--- runtime: ob_end_flush ---");
    emitter.label_global("__rt_ob_end_flush");
    emitter.instruction("stp x29, x30, [sp, #-16]!");    // save frame pointer and return address
    emitter.instruction("mov x29, sp");    // establish a frame pointer for the helper calls
    emitter.instruction("bl __rt_ob_flush");    // write the top buffer's contents to the parent sink
    emitter.instruction("cbz x0, __rt_ob_end_flush_done");    // no active buffer — propagate the failure flag
    emitter.instruction("bl __rt_ob_end_clean");    // pop and free the flushed buffer
    emitter.label("__rt_ob_end_flush_done");
    emitter.instruction("ldp x29, x30, [sp], #16");    // restore frame pointer and return address
    emitter.instruction("ret");    // return the success flag
}

/// Appends to `out` the listing that `emit_ob_end_flush_x86_64` emits for target `t`.
pub open spec fn ob_end_flush_x86_64(out: Seq<Line>, t: Target) -> Seq<Line> {
    let out = out
        .push(Line::Blank)
        .push(comment("--- runtime: ob_end_flush ---"))
        .push(global("__rt_ob_end_flush"))
        .push(ins("push rbp"))
        .push(ins("mov rbp, rsp"))
        .push(ins("call __rt_ob_flush"))
        .push(ins("test rax, rax"))
        .push(ins("jz __rt_ob_end_flush_done_x86"))
        .push(ins("call __rt_ob_end_clean"))
        .push(label("__rt_ob_end_flush_done_x86"))
        .push(ins("pop rbp"))
        .push(ins("ret"));
    out
}

/// Emits the Linux x86_64 variant of `__rt_ob_end_flush`.
fn emit_ob_end_flush_x86_64(emitter: &mut Emitter)
    ensures
        final(emitter).target == old(emitter).target,
        final(emitter)@ == ob_end_flush_x86_64(old(emitter)@, old(emitter).target),
{
    emitter.blank();
    emitter.comment("--- runtime: ob_end_flush ---");
    emitter.label_global("__rt_ob_end_flush");
    emitter.instruction("push rbp");    // preserve the caller frame pointer across the helper calls
    emitter.instruction("mov rbp, rsp");    // establish a frame pointer for the helper calls
    emitter.instruction("call __rt_ob_flush");    // write the top buffer's contents to the parent sink
    emitter.instruction("test rax, rax");    // did the flush find an active buffer?
    emitter.instruction("jz __rt_ob_end_flush_done_x86");    // no active buffer — propagate the failure flag
    emitter.instruction("call __rt_ob_end_clean");    // pop and free the flushed buffer
    emitter.label("__rt_ob_end_flush_done_x86");
    emitter.instruction("pop rbp");    // restore the caller frame pointer
    emitter.instruction("ret");    // return the success flag
}

/// Appends to `out` the listing that `emit_ob_flush_all` emits for target `t`.
pub open spec fn ob_flush_all(out: Seq<Line>, t: Target) -> Seq<Line> {
    if t.arch == Arch::X86_64 {
        ob_flush_all_x86_64(out, t)
    } else {
        ob_flush_all_aarch64(out, t)
    }
}

/// Appends to `out` the AArch64 listing of `emit_ob_flush_all`.
pub open spec fn ob_flush_all_aarch64(out: Seq<Line>, t: Target) -> Seq<Line> {
    let out = out
        .push(Line::Blank)
        .push(comment("--- runtime: ob_flush_all (process-exit drain) ---"))
        .push(global("__rt_ob_flush_all"))
        .push(ins("sub sp, sp, #32"))
        .push(ins("stp x29, x30, [sp, #16]"))
        .push(ins("add x29, sp, #16"));
    let out = out + symbol_address(t, "x9"@, "_ob_level"@);
    let out = out
        .push(ins("ldr x10, [x9]"))
        .push(ins("cbz x10, __rt_ob_flush_all_done"))
        .push(ins("str xzr, [x9]"))
        .push(ins("str x10, [sp, #8]"))
        .push(ins("str xzr, [sp, #0]"))
        .push(label("__rt_ob_flush_all_loop"))
        .push(ins("ldr x10, [sp, #0]"))
        .push(ins("ldr x11, [sp, #8]"))
        .push(ins("cmp x10, x11"))
        .push(ins("b.ge __rt_ob_flush_all_done"));
    let out = out + symbol_address(t, "x12"@, "_ob_ptrs"@);
    let out = out
        .push(ins("ldr x0, [x12, x10, lsl #3]"));
    let out = out + symbol_address(t, "x12"@, "_ob_lens"@);
    let out = out
        .push(ins("ldr x1, [x12, x10, lsl #3]"))
        .push(ins("cbz x1, __rt_ob_flush_all_next"))
        .push(ins("bl __rt_stdout_write"))
        .push(label("__rt_ob_flush_all_next"))
        .push(ins("ldr x10, [sp, #0]"))
        .push(ins("add x10, x10, #1"))
        .push(ins("str x10, [sp, #0]"))
        .push(ins("b __rt_ob_flush_all_loop"))
        .push(label("__rt_ob_flush_all_done"))
        .push(ins("ldp x29, x30, [sp, #16]"))
        .push(ins("add sp, sp, #32"))
        .push(ins("ret"));
    out
}

/// Emits `__rt_ob_flush_all`: write every still-active buffer to the terminal
/// sink, bottom-up, and reset the stack.
///
/// No inputs, no result. Zeroes `_ob_level` first so the writes route past the
/// buffer stack and any fatal-path re-entry is a no-op; buffers are not freed
/// because the process is about to exit.
pub fn emit_ob_flush_all(emitter: &mut Emitter)
    ensures
        final(emitter).target == old(emitter).target,
        final(emitter)@ == ob_flush_all(old(emitter)@, old(emitter).target),
{
    if emitter.target.arch == Arch::X86_64 {
        emit_ob_flush_all_x86_64(emitter);
        return;
    }
    emitter.blank();
    emitter.comment("--- runtime: ob_flush_all (process-exit drain) ---");
    emitter.label_global("__rt_ob_flush_all");
    emitter.instruction("sub sp, sp, #32");    // allocate the flush_all frame
    emitter.instruction("stp x29, x30, [sp, #16]");    // save frame pointer and return address
    emitter.instruction("add x29, sp, #16");    // establish the flush_all frame pointer
    abi::emit_symbol_address(emitter, "x9", "_ob_level");    // materialize the address of the buffer-stack depth
    emitter.instruction("ldr x10, [x9]");    // load the current buffer-stack depth
    emitter.instruction("cbz x10, __rt_ob_flush_all_done");    // nothing buffered — done
    emitter.instruction("str xzr, [x9]");    // zero the depth: route writes to the terminal and guard re-entry
    emitter.instruction("str x10, [sp, #8]");    // save the buffer count
    emitter.instruction("str xzr, [sp, #0]");    // start draining at the bottom slot
    emitter.label("__rt_ob_flush_all_loop");
    emitter.instruction("ldr x10, [sp, #0]");    // reload the drain cursor
    emitter.instruction("ldr x11, [sp, #8]");    // reload the buffer count
    emitter.instruction("cmp x10, x11");    // drained every buffer?
    emitter.instruction("b.ge __rt_ob_flush_all_done");    // yes — done
    abi::emit_symbol_address(emitter, "x12", "_ob_ptrs");    // materialize the buffer-pointer slot array
    emitter.instruction("ldr x0, [x12, x10, lsl #3]");    // pass the buffer base pointer to the writer
    abi::emit_symbol_address(emitter, "x12", "_ob_lens");    // materialize the used-bytes slot array
    emitter.instruction("ldr x1, [x12, x10, lsl #3]");    // pass the buffer's used byte count to the writer
    emitter.instruction("cbz x1, __rt_ob_flush_all_next");    // empty buffer — skip the write
    emitter.instruction("bl __rt_stdout_write");    // write the buffered bytes to the terminal sink
    emitter.label("__rt_ob_flush_all_next");
    emitter.instruction("ldr x10, [sp, #0]");    // reload the drain cursor
    emitter.instruction("add x10, x10, #1");    // advance to the next buffer
    emitter.instruction("str x10, [sp, #0]");    // save the advanced drain cursor
    emitter.instruction("b __rt_ob_flush_all_loop");    // continue draining
    emitter.label("__rt_ob_flush_all_done");
    emitter.instruction("ldp x29, x30, [sp, #16]");    // restore frame pointer and return address
    emitter.instruction("add sp, sp, #32");    // release the flush_all frame
    emitter.instruction("ret");    // return to caller
}

/// Appends to `out` the listing that `emit_ob_flush_all_x86_64` emits for target `t`.
pub open spec fn ob_flush_all_x86_64(out: Seq<Line>, t: Target) -> Seq<Line> {
    let out = out
        .push(Line::Blank)
        .push(comment("--- runtime: ob_flush_all (process-exit drain) ---"))
        .push(global("__rt_ob_flush_all"))
        .push(ins("push rbp"))
        .push(ins("mov rbp, rsp"))
        .push(ins("sub rsp, 16"));
    let out = out + symbol_address(t, "r9"@, "_ob_level"@);
    let out = out
        .push(ins("mov r10, QWORD PTR [r9]"))
        .push(ins("test r10, r10"))
        .push(ins("jz __rt_ob_flush_all_done_x86"))
        .push(ins("mov QWORD PTR [r9], 0"))
        .push(ins("mov QWORD PTR [rbp - 8], r10"))
        .push(ins("mov QWORD PTR [rbp - 16], 0"))
        .push(label("__rt_ob_flush_all_loop_x86"))
        .push(ins("mov r10, QWORD PTR [rbp - 16]"))
        .push(ins("cmp r10, QWORD PTR [rbp - 8]"))
        .push(ins("jge __rt_ob_flush_all_done_x86"));
    let out = out + symbol_address(t, "r11"@, "_ob_ptrs"@);
    let out = out
        .push(ins("mov rdi, QWORD PTR [r11 + r10*8]"));
    let out = out + symbol_address(t, "r11"@, "_ob_lens"@);
    let out = out
        .push(ins("mov rsi, QWORD PTR [r11 + r10*8]"))
        .push(ins("test rsi, rsi"))
        .push(ins("jz __rt_ob_flush_all_next_x86"))
        .push(ins("call __rt_stdout_write"))
        .push(label("__rt_ob_flush_all_next_x86"))
        .push(ins("mov r10, QWORD PTR [rbp - 16]"))
        .push(ins("add r10, 1"))
        .push(ins("mov QWORD PTR [rbp - 16], r10"))
        .push(ins("jmp __rt_ob_flush_all_loop_x86"))
        .push(label("__rt_ob_flush_all_done_x86"))
        .push(ins("add rsp, 16"))
        .push(ins("pop rbp"))
        .push(ins("ret"));
    out
}

/// Emits the Linux x86_64 variant of `__rt_ob_flush_all`.
fn emit_ob_flush_all_x86_64(emitter: &mut Emitter)
    ensures
        final(emitter).target == old(emitter).target,
        final(emitter)@ == ob_flush_all_x86_64(old(emitter)@, old(emitter).target),
{
    emitter.blank();
    emitter.comment("--- runtime: ob_flush_all (process-exit drain) ---");
    emitter.label_global("__rt_ob_flush_all");
    emitter.instruction("push rbp");    // preserve the caller frame pointer
    emitter.instruction("mov rbp, rsp");    // establish the flush_all frame pointer
    emitter.instruction("sub rsp, 16");    // reserve slots for the drain cursor and buffer count
    abi::emit_symbol_address(emitter, "r9", "_ob_level");    // materialize the address of the buffer-stack depth
    emitter.instruction("mov r10, QWORD PTR [r9]");    // load the current buffer-stack depth
    emitter.instruction("test r10, r10");    // is anything buffered?
    emitter.instruction("jz __rt_ob_flush_all_done_x86");    // nothing buffered — done
    emitter.instruction("mov QWORD PTR [r9], 0");    // zero the depth: route writes to the terminal and guard re-entry
    emitter.instruction("mov QWORD PTR [rbp - 8], r10");    // save the buffer count
    emitter.instruction("mov QWORD PTR [rbp - 16], 0");    // start draining at the bottom slot
    emitter.label("__rt_ob_flush_all_loop_x86");
    emitter.instruction("mov r10, QWORD PTR [rbp - 16]");    // reload the drain cursor
    emitter.instruction("cmp r10, QWORD PTR [rbp - 8]");    // drained every buffer?
    emitter.instruction("jge __rt_ob_flush_all_done_x86");    // yes — done
    abi::emit_symbol_address(emitter, "r11", "_ob_ptrs");    // materialize the buffer-pointer slot array
    emitter.instruction("mov rdi, QWORD PTR [r11 + r10*8]");    // pass the buffer base pointer to the writer
    abi::emit_symbol_address(emitter, "r11", "_ob_lens");    // materialize the used-bytes slot array
    emitter.instruction("mov rsi, QWORD PTR [r11 + r10*8]");    // pass the buffer's used byte count to the writer
    emitter.instruction("test rsi, rsi");    // is there anything to write?
    emitter.instruction("jz __rt_ob_flush_all_next_x86");    // empty buffer — skip the write
    emitter.instruction("call __rt_stdout_write");    // write the buffered bytes to the terminal sink
    emitter.label("__rt_ob_flush_all_next_x86");
    emitter.instruction("mov r10, QWORD PTR [rbp - 16]");    // reload the drain cursor
    emitter.instruction("add r10, 1");    // advance to the next buffer
    emitter.instruction("mov QWORD PTR [rbp - 16], r10");    // save the advanced drain cursor
    emitter.instruction("jmp __rt_ob_flush_all_loop_x86");    // continue draining
    emitter.label("__rt_ob_flush_all_done_x86");
    emitter.instruction("add rsp, 16");    // release the flush_all frame
    emitter.instruction("pop rbp");    // restore the caller frame pointer
    emitter.instruction("ret");    // return to caller
}

/// `ob_start` appends a block that does not depend on the listing before it.
#[verifier::rlimit(80)]
#[verifier::spinoff_prover]
proof fn lemma_ob_start_appends(out: Seq<Line>, t: Target)
    ensures
        ob_start(out, t) == out + ob_start(Seq::empty(), t),
{
    broadcast use crate::codegen::emit::group_listing;
}

/// `ob_append` appends a block that does not depend on the listing before it.
#[verifier::rlimit(80)]
#[verifier::spinoff_prover]
proof fn lemma_ob_append_appends(out: Seq<Line>, t: Target)
    ensures
        ob_append(out, t) == out + ob_append(Seq::empty(), t),
{
    broadcast use crate::codegen::emit::group_listing;
}

/// `ob_contents` appends a block that does not depend on the listing before it.
#[verifier::rlimit(80)]
#[verifier::spinoff_prover]
proof fn lemma_ob_contents_appends(out: Seq<Line>, t: Target)
    ensures
        ob_contents(out, t) == out + ob_contents(Seq::empty(), t),
{
    broadcast use crate::codegen::emit::group_listing;
}

/// `ob_queries` appends a block that does not depend on the listing before it.
#[verifier::rlimit(80)]
#[verifier::spinoff_prover]
proof fn lemma_ob_queries_appends(out: Seq<Line>, t: Target)
    ensures
        ob_queries(out, t) == out + ob_queries(Seq::empty(), t),
{
    broadcast use crate::codegen::emit::group_listing;
}

/// `ob_clean` appends a block that does not depend on the listing before it.
#[verifier::rlimit(80)]
#[verifier::spinoff_prover]
proof fn lemma_ob_clean_appends(out: Seq<Line>, t: Target)
    ensures
        ob_clean(out, t) == out + ob_clean(Seq::empty(), t),
{
    broadcast use crate::codegen::emit::group_listing;
}

/// `ob_end_clean` appends a block that does not depend on the listing before it.
#[verifier::rlimit(80)]
#[verifier::spinoff_prover]
proof fn lemma_ob_end_clean_appends(out: Seq<Line>, t: Target)
    ensures
        ob_end_clean(out, t) == out + ob_end_clean(Seq::empty(), t),
{
    broadcast use crate::codegen::emit::group_listing;
}

/// `ob_flush` appends a block that does not depend on the listing before it.
#[verifier::rlimit(80)]
#[verifier::spinoff_prover]
proof fn lemma_ob_flush_appends(out: Seq<Line>, t: Target)
    ensures
        ob_flush(out, t) == out + ob_flush(Seq::empty(), t),
{
    broadcast use crate::codegen::emit::group_listing;
}

/// `ob_end_flush` appends a block that does not depend on the listing before it.
#[verifier::rlimit(80)]
#[verifier::spinoff_prover]
proof fn lemma_ob_end_flush_appends(out: Seq<Line>, t: Target)
    ensures
        ob_end_flush(out, t) == out + ob_end_flush(Seq::empty(), t),
{
    broadcast use crate::codegen::emit::group_listing;
}

/// `ob_flush_all` appends a block that does not depend on the listing before it.
#[verifier::rlimit(80)]
#[verifier::spinoff_prover]
proof fn lemma_ob_flush_all_appends(out: Seq<Line>, t: Target)
    ensures
        ob_flush_all(out, t) == out + ob_flush_all(Seq::empty(), t),
{
    broadcast use crate::codegen::emit::group_listing;
}

/// Each emitter of this module only appends: the block it adds depends on the target
/// alone, and the listing it was handed stays in front of that block unchanged.
pub proof fn lemma_ob_buffer_emitters_append(out: Seq<Line>, t: Target)
    ensures
        ob_start(out, t) == out + ob_start(Seq::empty(), t),
        ob_append(out, t) == out + ob_append(Seq::empty(), t),
        ob_contents(out, t) == out + ob_contents(Seq::empty(), t),
        ob_queries(out, t) == out + ob_queries(Seq::empty(), t),
        ob_clean(out, t) == out + ob_clean(Seq::empty(), t),
        ob_end_clean(out, t) == out + ob_end_clean(Seq::empty(), t),
        ob_flush(out, t) == out + ob_flush(Seq::empty(), t),
        ob_end_flush(out, t) == out + ob_end_flush(Seq::empty(), t),
        ob_flush_all(out, t) == out + ob_flush_all(Seq::empty(), t),
{
    lemma_ob_start_appends(out, t);
    lemma_ob_append_appends(out, t);
    lemma_ob_contents_appends(out, t);
    lemma_ob_queries_appends(out, t);
    lemma_ob_clean_appends(out, t);
    lemma_ob_end_clean_appends(out, t);
    lemma_ob_flush_appends(out, t);
    lemma_ob_end_flush_appends(out, t);
    lemma_ob_flush_all_appends(out, t);
}

/// The block of `ob_start` defines its exported entry label.
proof fn lemma_ob_start_exports_label(t: Target)
    ensures
        ob_start(Seq::empty(), t).contains(global("__rt_ob_start")),
{
    assert(ob_start(Seq::empty(), t)[2] == global("__rt_ob_start"));
}

/// The block of `ob_append` defines its exported entry label.
proof fn lemma_ob_append_exports_label(t: Target)
    ensures
        ob_append(Seq::empty(), t).contains(global("__rt_ob_append")),
{
    assert(ob_append(Seq::empty(), t)[2] == global("__rt_ob_append"));
}

/// The block of `ob_contents` defines its exported entry label.
proof fn lemma_ob_contents_exports_label(t: Target)
    ensures
        ob_contents(Seq::empty(), t).contains(global("__rt_ob_contents")),
{
    assert(ob_contents(Seq::empty(), t)[2] == global("__rt_ob_contents"));
}

/// The block of `ob_queries` defines its exported entry labels.
proof fn lemma_ob_queries_exports_label(t: Target)
    ensures
        ob_queries(Seq::empty(), t).contains(global("__rt_ob_length")),
        ob_queries(Seq::empty(), t).contains(global("__rt_ob_level")),
{
    assert(ob_queries(Seq::empty(), t)[2] == global("__rt_ob_length"));
    if t.arch == Arch::X86_64 {
        assert(ob_queries(Seq::empty(), t)[15] == global("__rt_ob_level"));
    } else {
        assert(ob_queries(Seq::empty(), t)[16] == global("__rt_ob_level"));
    }
}

/// The block of `ob_clean` defines its exported entry label.
proof fn lemma_ob_clean_exports_label(t: Target)
    ensures
        ob_clean(Seq::empty(), t).contains(global("__rt_ob_clean")),
{
    assert(ob_clean(Seq::empty(), t)[2] == global("__rt_ob_clean"));
}

/// The block of `ob_end_clean` defines its exported entry label.
proof fn lemma_ob_end_clean_exports_label(t: Target)
    ensures
        ob_end_clean(Seq::empty(), t).contains(global("__rt_ob_end_clean")),
{
    assert(ob_end_clean(Seq::empty(), t)[2] == global("__rt_ob_end_clean"));
}

/// The block of `ob_flush` defines its exported entry label.
proof fn lemma_ob_flush_exports_label(t: Target)
    ensures
        ob_flush(Seq::empty(), t).contains(global("__rt_ob_flush")),
{
    assert(ob_flush(Seq::empty(), t)[2] == global("__rt_ob_flush"));
}

/// The block of `ob_end_flush` defines its exported entry label.
proof fn lemma_ob_end_flush_exports_label(t: Target)
    ensures
        ob_end_flush(Seq::empty(), t).contains(global("__rt_ob_end_flush")),
{
    assert(ob_end_flush(Seq::empty(), t)[2] == global("__rt_ob_end_flush"));
}

/// The block of `ob_flush_all` defines its exported entry label.
proof fn lemma_ob_flush_all_exports_label(t: Target)
    ensures
        ob_flush_all(Seq::empty(), t).contains(global("__rt_ob_flush_all")),
{
    assert(ob_flush_all(Seq::empty(), t)[2] == global("__rt_ob_flush_all"));
}

/// Every target exports every output-buffering entry point: the block of each helper
/// holds the `.globl` definition of its label (`ob_queries` defines two).
pub proof fn lemma_ob_helpers_export_their_labels(t: Target)
    ensures
        ob_start(Seq::empty(), t).contains(global("__rt_ob_start")),
        ob_append(Seq::empty(), t).contains(global("__rt_ob_append")),
        ob_contents(Seq::empty(), t).contains(global("__rt_ob_contents")),
        ob_queries(Seq::empty(), t).contains(global("__rt_ob_length")),
        ob_clean(Seq::empty(), t).contains(global("__rt_ob_clean")),
        ob_end_clean(Seq::empty(), t).contains(global("__rt_ob_end_clean")),
        ob_flush(Seq::empty(), t).contains(global("__rt_ob_flush")),
        ob_end_flush(Seq::empty(), t).contains(global("__rt_ob_end_flush")),
        ob_flush_all(Seq::empty(), t).contains(global("__rt_ob_flush_all")),
        ob_queries(Seq::empty(), t).contains(global("__rt_ob_level")),
{
    lemma_ob_start_exports_label(t);
    lemma_ob_append_exports_label(t);
    lemma_ob_contents_exports_label(t);
    lemma_ob_queries_exports_label(t);
    lemma_ob_clean_exports_label(t);
    lemma_ob_end_clean_exports_label(t);
    lemma_ob_flush_exports_label(t);
    lemma_ob_end_flush_exports_label(t);
    lemma_ob_flush_all_exports_label(t);
}


/// The text of a line (empty for lines that are not instructions).
spec fn text_of(line: Line) -> Seq<char> {
    match line {
        Line::Instruction(t) => t,
        _ => Seq::empty(),
    }
}

/// The AArch64 `__rt_ob_length` block, line by line, and where its labels are.
proof fn lemma_ob_length_lines(t: Target)
    requires
        t.arch == Arch::AArch64,
    ensures
        ({
            let lines = ob_queries(Seq::empty(), t);
            &&& lines.len() > 14
            &&& !(lines[2] is Instruction)
            &&& !(lines[12] is Instruction)
            &&& lines[3] == adrp_line(t.platform, "x9"@, "_ob_level"@)
            &&& lines[4] == add_lo12_line(t.platform, "x9"@, "x9"@, "_ob_level"@)
            &&& lines[5] == Line::Instruction("ldr x10, [x9]"@)
            &&& lines[6] == Line::Instruction("cbz x10, __rt_ob_length_none"@)
            &&& lines[7] == Line::Instruction("sub x10, x10, #1"@)
            &&& lines[8] == adrp_line(t.platform, "x11"@, "_ob_lens"@)
            &&& lines[9] == add_lo12_line(t.platform, "x11"@, "x11"@, "_ob_lens"@)
            &&& lines[10] == Line::Instruction("ldr x0, [x11, x10, lsl #3]"@)
            &&& lines[11] == Line::Instruction("ret"@)
            &&& lines[13] == Line::Instruction("mov x0, #-1"@)
            &&& lines[14] == Line::Instruction("ret"@)
            &&& find_label(lines, "__rt_ob_length"@, 0) == 2
            &&& find_label(lines, "__rt_ob_length_none"@, 0) == 12
        }),
{
    let lines = ob_queries(Seq::empty(), t);
    reveal_with_fuel(find_label, 14);
    reveal_strlit("__rt_ob_length");
    reveal_strlit("__rt_ob_length_none");
    assert(lines[2] == Line::Global("__rt_ob_length"@));
    assert("__rt_ob_length"@.len() != "__rt_ob_length_none"@.len());
}

#[verifier::rlimit(50)]
#[verifier::spinoff_prover]
proof fn lemma_ob_adrp_x9_macos_decodes()
    ensures
        decode(text_of(adrp_line(Platform::MacOS, "x9"@, "_ob_level"@))) == Some(Instr::Adrp(9, "_ob_level"@)),
{
    reveal(decode);
    reveal_with_fuel(find_char, 40);
    reveal_strlit(", ");
    reveal_strlit(", :lo12:");
    reveal_strlit("@PAGE");
    reveal_strlit("@PAGEOFF");
    reveal_strlit("_ob_level");
    reveal_strlit("add ");
    reveal_strlit("adrp ");
    reveal_strlit("adrp x9, _ob_level@PAGE");
    reveal_strlit("x9");
    assert("adrp "@ + "x9"@ + ", "@ + "_ob_level"@ + "@PAGE"@ =~= "adrp x9, _ob_level@PAGE"@);
    assert("adrp x9, _ob_level@PAGE"@.subrange(9, 18) =~= "_ob_level"@);
}

#[verifier::rlimit(50)]
#[verifier::spinoff_prover]
proof fn lemma_ob_add_x9_macos_decodes()
    ensures
        decode(text_of(add_lo12_line(Platform::MacOS, "x9"@, "x9"@, "_ob_level"@))) == Some(Instr::AddPageOffset(9, 9, "_ob_level"@)),
{
    reveal(decode);
    reveal_with_fuel(find_char, 40);
    reveal_strlit(", ");
    reveal_strlit(", :lo12:");
    reveal_strlit("@PAGE");
    reveal_strlit("@PAGEOFF");
    reveal_strlit("_ob_level");
    reveal_strlit("add ");
    reveal_strlit("add x9, x9, _ob_level@PAGEOFF");
    reveal_strlit("adrp ");
    reveal_strlit("x9");
    assert("add "@ + "x9"@ + ", "@ + "x9"@ + ", "@ + "_ob_level"@ + "@PAGEOFF"@ =~= "add x9, x9, _ob_level@PAGEOFF"@);
    assert("add x9, x9, _ob_level@PAGEOFF"@.subrange(12, 21) =~= "_ob_level"@);
}

#[verifier::rlimit(50)]
#[verifier::spinoff_prover]
proof fn lemma_ob_adrp_x9_linux_decodes()
    ensures
        decode(text_of(adrp_line(Platform::Linux, "x9"@, "_ob_level"@))) == Some(Instr::Adrp(9, "_ob_level"@)),
{
    reveal(decode);
    reveal_with_fuel(find_char, 40);
    reveal_strlit(", ");
    reveal_strlit(", :lo12:");
    reveal_strlit("@PAGE");
    reveal_strlit("@PAGEOFF");
    reveal_strlit("_ob_level");
    reveal_strlit("add ");
    reveal_strlit("adrp ");
    reveal_strlit("adrp x9, _ob_level");
    reveal_strlit("x9");
    assert("adrp "@ + "x9"@ + ", "@ + "_ob_level"@ =~= "adrp x9, _ob_level"@);
    assert("adrp x9, _ob_level"@.subrange(9, 18) =~= "_ob_level"@);
}

#[verifier::rlimit(50)]
#[verifier::spinoff_prover]
proof fn lemma_ob_add_x9_linux_decodes()
    ensures
        decode(text_of(add_lo12_line(Platform::Linux, "x9"@, "x9"@, "_ob_level"@))) == Some(Instr::AddPageOffset(9, 9, "_ob_level"@)),
{
    reveal(decode);
    reveal_with_fuel(find_char, 40);
    reveal_strlit(", ");
    reveal_strlit(", :lo12:");
    reveal_strlit("@PAGE");
    reveal_strlit("@PAGEOFF");
    reveal_strlit("_ob_level");
    reveal_strlit("add ");
    reveal_strlit("add x9, x9, :lo12:_ob_level");
    reveal_strlit("adrp ");
    reveal_strlit("x9");
    assert("add "@ + "x9"@ + ", "@ + "x9"@ + ", :lo12:"@ + "_ob_level"@ =~= "add x9, x9, :lo12:_ob_level"@);
    assert("add x9, x9, :lo12:_ob_level"@.subrange(18, 27) =~= "_ob_level"@);
}

#[verifier::rlimit(50)]
#[verifier::spinoff_prover]
proof fn lemma_ob_adrp_x11_macos_decodes()
    ensures
        decode(text_of(adrp_line(Platform::MacOS, "x11"@, "_ob_lens"@))) == Some(Instr::Adrp(11, "_ob_lens"@)),
{
    reveal(decode);
    reveal_with_fuel(find_char, 40);
    reveal_strlit(", ");
    reveal_strlit(", :lo12:");
    reveal_strlit("@PAGE");
    reveal_strlit("@PAGEOFF");
    reveal_strlit("_ob_lens");
    reveal_strlit("add ");
    reveal_strlit("adrp ");
    reveal_strlit("adrp x11, _ob_lens@PAGE");
    reveal_strlit("x11");
    assert("adrp "@ + "x11"@ + ", "@ + "_ob_lens"@ + "@PAGE"@ =~= "adrp x11, _ob_lens@PAGE"@);
    assert("adrp x11, _ob_lens@PAGE"@.subrange(10, 18) =~= "_ob_lens"@);
}

#[verifier::rlimit(50)]
#[verifier::spinoff_prover]
proof fn lemma_ob_add_x11_macos_decodes()
    ensures
        decode(text_of(add_lo12_line(Platform::MacOS, "x11"@, "x11"@, "_ob_lens"@))) == Some(Instr::AddPageOffset(11, 11, "_ob_lens"@)),
{
    reveal(decode);
    reveal_with_fuel(find_char, 40);
    reveal_strlit(", ");
    reveal_strlit(", :lo12:");
    reveal_strlit("@PAGE");
    reveal_strlit("@PAGEOFF");
    reveal_strlit("_ob_lens");
    reveal_strlit("add ");
    reveal_strlit("add x11, x11, _ob_lens@PAGEOFF");
    reveal_strlit("adrp ");
    reveal_strlit("x11");
    assert("add "@ + "x11"@ + ", "@ + "x11"@ + ", "@ + "_ob_lens"@ + "@PAGEOFF"@ =~= "add x11, x11, _ob_lens@PAGEOFF"@);
    assert("add x11, x11, _ob_lens@PAGEOFF"@.subrange(14, 22) =~= "_ob_lens"@);
}

#[verifier::rlimit(50)]
#[verifier::spinoff_prover]
proof fn lemma_ob_adrp_x11_linux_decodes()
    ensures
        decode(text_of(adrp_line(Platform::Linux, "x11"@, "_ob_lens"@))) == Some(Instr::Adrp(11, "_ob_lens"@)),
{
    reveal(decode);
    reveal_with_fuel(find_char, 40);
    reveal_strlit(", ");
    reveal_strlit(", :lo12:");
    reveal_strlit("@PAGE");
    reveal_strlit("@PAGEOFF");
    reveal_strlit("_ob_lens");
    reveal_strlit("add ");
    reveal_strlit("adrp ");
    reveal_strlit("adrp x11, _ob_lens");
    reveal_strlit("x11");
    assert("adrp "@ + "x11"@ + ", "@ + "_ob_lens"@ =~= "adrp x11, _ob_lens"@);
    assert("adrp x11, _ob_lens"@.subrange(10, 18) =~= "_ob_lens"@);
}

#[verifier::rlimit(50)]
#[verifier::spinoff_prover]
proof fn lemma_ob_add_x11_linux_decodes()
    ensures
        decode(text_of(add_lo12_line(Platform::Linux, "x11"@, "x11"@, "_ob_lens"@))) == Some(Instr::AddPageOffset(11, 11, "_ob_lens"@)),
{
    reveal(decode);
    reveal_with_fuel(find_char, 40);
    reveal_strlit(", ");
    reveal_strlit(", :lo12:");
    reveal_strlit("@PAGE");
    reveal_strlit("@PAGEOFF");
    reveal_strlit("_ob_lens");
    reveal_strlit("add ");
    reveal_strlit("add x11, x11, :lo12:_ob_lens");
    reveal_strlit("adrp ");
    reveal_strlit("x11");
    assert("add "@ + "x11"@ + ", "@ + "x11"@ + ", :lo12:"@ + "_ob_lens"@ =~= "add x11, x11, :lo12:_ob_lens"@);
    assert("add x11, x11, :lo12:_ob_lens"@.subrange(20, 28) =~= "_ob_lens"@);
}

/// The page-address lines of `_ob_level` into `x9` and of `_ob_lens` into `x11` decode
/// to the page and in-page offset of those symbols, on either platform.
#[verifier::rlimit(50)]
#[verifier::spinoff_prover]
proof fn lemma_ob_symbol_lines_decode(p: Platform)
    ensures
        decode(text_of(adrp_line(p, "x9"@, "_ob_level"@))) == Some(Instr::Adrp(9, "_ob_level"@)),
        decode(text_of(add_lo12_line(p, "x9"@, "x9"@, "_ob_level"@))) == Some(Instr::AddPageOffset(9, 9, "_ob_level"@)),
        decode(text_of(adrp_line(p, "x11"@, "_ob_lens"@))) == Some(Instr::Adrp(11, "_ob_lens"@)),
        decode(text_of(add_lo12_line(p, "x11"@, "x11"@, "_ob_lens"@))) == Some(Instr::AddPageOffset(11, 11, "_ob_lens"@)),
{
    lemma_ob_adrp_x9_macos_decodes();
    lemma_ob_add_x9_macos_decodes();
    lemma_ob_adrp_x9_linux_decodes();
    lemma_ob_add_x9_linux_decodes();
    lemma_ob_adrp_x11_macos_decodes();
    lemma_ob_add_x11_macos_decodes();
    lemma_ob_adrp_x11_linux_decodes();
    lemma_ob_add_x11_linux_decodes();
}

/// The other instruction texts of the AArch64 `__rt_ob_length` block decode as written.
#[verifier::rlimit(50)]
#[verifier::spinoff_prover]
proof fn lemma_ob_length_decodes()
    ensures
        decode("ldr x10, [x9]"@) == Some(Instr::Ldr(10, Address::Offset(9, 0))),
        decode("cbz x10, __rt_ob_length_none"@) == Some(Instr::Cbz(10, "__rt_ob_length_none"@)),
        decode("sub x10, x10, #1"@) == Some(Instr::Sub(10, 10, Operand::Imm(1))),
        decode("ldr x0, [x11, x10, lsl #3]"@) == Some(Instr::Ldr(0, Address::Indexed(11, 10, 3))),
        decode("ret"@) == Some(Instr::Ret),
        decode("mov x0, #-1"@) == Some(Instr::Mov(0, Operand::Imm(-1))),
{
    reveal(decode);
    reveal_with_fuel(find_char, 40);
    reveal_strlit("ldr x10, [x9]");
    reveal_strlit("cbz x10, __rt_ob_length_none");
    reveal_strlit("__rt_ob_length_none");
    reveal_strlit("sub x10, x10, #1");
    reveal_strlit("ldr x0, [x11, x10, lsl #3]");
    reveal_strlit("ret");
    reveal_strlit("mov x0, #-1");
    assert(label_from("cbz x10, __rt_ob_length_none"@, 9) =~= "__rt_ob_length_none"@);
}

#[verifier::rlimit(40)]
/// Running the `__rt_ob_length` lines from their entry.
proof fn lemma_ob_length_runs(lines: Seq<Line>, p: Platform, env: Env, m: Machine)
    requires
        lines.len() > 14,
        !(lines[2] is Instruction),
        !(lines[12] is Instruction),
        lines[3] == adrp_line(p, "x9"@, "_ob_level"@),
        lines[4] == add_lo12_line(p, "x9"@, "x9"@, "_ob_level"@),
        lines[5] == Line::Instruction("ldr x10, [x9]"@),
        lines[6] == Line::Instruction("cbz x10, __rt_ob_length_none"@),
        lines[7] == Line::Instruction("sub x10, x10, #1"@),
        lines[8] == adrp_line(p, "x11"@, "_ob_lens"@),
        lines[9] == add_lo12_line(p, "x11"@, "x11"@, "_ob_lens"@),
        lines[10] == Line::Instruction("ldr x0, [x11, x10, lsl #3]"@),
        lines[11] == Line::Instruction("ret"@),
        lines[13] == Line::Instruction("mov x0, #-1"@),
        lines[14] == Line::Instruction("ret"@),
        find_label(lines, "__rt_ob_length_none"@, 0) == 12,
        m.pc == 2,
        !m.returned,
        !m.stuck,
    ensures
        ({
            let r = run(lines, env, m, 10);
            let level = (m.mem)((env.symbol)("_ob_level"@));
            &&& r.returned
            &&& read(r, 0) == if level == 0 {
                -1int
            } else {
                (m.mem)((env.symbol)("_ob_lens"@) + (level - 1) * 8)
            }
        }),
{
    lemma_ob_length_decodes();
    lemma_ob_symbol_lines_decode(p);
    let level = (m.mem)((env.symbol)("_ob_level"@));
    lemma_step_passes(lines, env, m);
    let m1 = step(lines, env, m);
    lemma_step_instruction(lines, env, m1, text_of(lines[3]), Instr::Adrp(9, "_ob_level"@));
    let m2 = step(lines, env, m1);
    lemma_step_instruction(lines, env, m2, text_of(lines[4]), Instr::AddPageOffset(9, 9, "_ob_level"@));
    let m3 = step(lines, env, m2);
    assert(read(m3, 9) == (env.symbol)("_ob_level"@));
    lemma_step_instruction(lines, env, m3, "ldr x10, [x9]"@, Instr::Ldr(10, Address::Offset(9, 0)));
    let m4 = step(lines, env, m3);
    assert(read(m4, 10) == level);
    lemma_step_instruction(lines, env, m4, "cbz x10, __rt_ob_length_none"@, Instr::Cbz(10, "__rt_ob_length_none"@));
    let m5 = step(lines, env, m4);
    lemma_run_step(lines, env, m, 9);
    lemma_run_step(lines, env, m1, 8);
    lemma_run_step(lines, env, m2, 7);
    lemma_run_step(lines, env, m3, 6);
    lemma_run_step(lines, env, m4, 5);
    if level == 0 {
        lemma_step_passes(lines, env, m5);
        let m6 = step(lines, env, m5);
        lemma_step_instruction(lines, env, m6, "mov x0, #-1"@, Instr::Mov(0, Operand::Imm(-1)));
        let m7 = step(lines, env, m6);
        lemma_step_instruction(lines, env, m7, "ret"@, Instr::Ret);
        let m8 = step(lines, env, m7);
        lemma_run_step(lines, env, m5, 4);
        lemma_run_step(lines, env, m6, 3);
        lemma_run_step(lines, env, m7, 2);
        lemma_run_returned(lines, env, m8, 2);
    } else {
        lemma_step_instruction(lines, env, m5, "sub x10, x10, #1"@, Instr::Sub(10, 10, Operand::Imm(1)));
        let m6 = step(lines, env, m5);
        lemma_step_instruction(lines, env, m6, text_of(lines[8]), Instr::Adrp(11, "_ob_lens"@));
        let m7 = step(lines, env, m6);
        lemma_step_instruction(lines, env, m7, text_of(lines[9]), Instr::AddPageOffset(11, 11, "_ob_lens"@));
        let m8 = step(lines, env, m7);
        assert(read(m8, 11) == (env.symbol)("_ob_lens"@));
        assert(read(m8, 10) == level - 1);
        lemma_step_instruction(lines, env, m8, "ldr x0, [x11, x10, lsl #3]"@, Instr::Ldr(0, Address::Indexed(11, 10, 3)));
        let m9 = step(lines, env, m8);
        lemma_step_instruction(lines, env, m9, "ret"@, Instr::Ret);
        lemma_run_step(lines, env, m5, 4);
        lemma_run_step(lines, env, m6, 3);
        lemma_run_step(lines, env, m7, 2);
        lemma_run_step(lines, env, m8, 1);
        lemma_run_step(lines, env, m9, 0);
    }
}

/// `__rt_ob_length` reads the top buffer's length: on AArch64, when the word at
/// `_ob_level` is a depth `L > 0` the helper returns, within ten lines, with `x0` = the
/// word `_ob_lens[L - 1]` (the bytes the top buffer holds), and with -1 when `L` is 0.
pub proof fn lemma_ob_length_reads_the_top_length(t: Target, env: Env, m: Machine)
    requires
        t.arch == Arch::AArch64,
        m.pc == find_label(ob_queries(Seq::empty(), t), "__rt_ob_length"@, 0),
        !m.returned,
        !m.stuck,
    ensures
        ({
            let r = run(ob_queries(Seq::empty(), t), env, m, 10);
            let level = (m.mem)((env.symbol)("_ob_level"@));
            &&& r.returned
            &&& read(r, 0) == if level == 0 {
                -1int
            } else {
                (m.mem)((env.symbol)("_ob_lens"@) + (level - 1) * 8)
            }
        }),
{
    lemma_ob_length_lines(t);
    lemma_ob_length_runs(ob_queries(Seq::empty(), t), t.platform, env, m);
}


/// The AArch64 `__rt_ob_level` block, line by line, and where it starts.
#[verifier::rlimit(50)]
#[verifier::spinoff_prover]
proof fn lemma_ob_level_lines(t: Target)
    requires
        t.arch == Arch::AArch64,
    ensures
        ({
            let lines = ob_queries(Seq::empty(), t);
            &&& lines.len() == 21
            &&& !(lines[16] is Instruction)
            &&& lines[17] == adrp_line(t.platform, "x9"@, "_ob_level"@)
            &&& lines[18] == add_lo12_line(t.platform, "x9"@, "x9"@, "_ob_level"@)
            &&& lines[19] == Line::Instruction("ldr x0, [x9]"@)
            &&& lines[20] == Line::Instruction("ret"@)
            &&& find_label(lines, "__rt_ob_level"@, 0) == 16
        }),
{
    let lines = ob_queries(Seq::empty(), t);
    reveal_strlit("__rt_ob_length");
    reveal_strlit("__rt_ob_length_none");
    reveal_strlit("__rt_ob_level");
    assert(lines[2] == Line::Global("__rt_ob_length"@));
    assert(lines[12] == Line::Label("__rt_ob_length_none"@));
    assert(lines[16] == Line::Global("__rt_ob_level"@));
    assert("__rt_ob_length"@[10] != "__rt_ob_level"@[10]);
    assert("__rt_ob_length_none"@[10] != "__rt_ob_level"@[10]);
    assert(find_label(lines, "__rt_ob_level"@, 16) == 16);
    assert(find_label(lines, "__rt_ob_level"@, 15) == 16);
    assert(find_label(lines, "__rt_ob_level"@, 14) == 16);
    assert(find_label(lines, "__rt_ob_level"@, 13) == 16);
    assert(find_label(lines, "__rt_ob_level"@, 12) == 16);
    assert(find_label(lines, "__rt_ob_level"@, 11) == 16);
    assert(find_label(lines, "__rt_ob_level"@, 10) == 16);
    assert(find_label(lines, "__rt_ob_level"@, 9) == 16);
    assert(find_label(lines, "__rt_ob_level"@, 8) == 16);
    assert(find_label(lines, "__rt_ob_level"@, 7) == 16);
    assert(find_label(lines, "__rt_ob_level"@, 6) == 16);
    assert(find_label(lines, "__rt_ob_level"@, 5) == 16);
    assert(find_label(lines, "__rt_ob_level"@, 4) == 16);
    assert(find_label(lines, "__rt_ob_level"@, 3) == 16);
    assert(find_label(lines, "__rt_ob_level"@, 2) == 16);
    assert(find_label(lines, "__rt_ob_level"@, 1) == 16);
    assert(find_label(lines, "__rt_ob_level"@, 0) == 16);
}

/// The load of `__rt_ob_level` decodes as written.
#[verifier::rlimit(50)]
#[verifier::spinoff_prover]
proof fn lemma_ob_level_decodes()
    ensures
        decode("ldr x0, [x9]"@) == Some(Instr::Ldr(0, Address::Offset(9, 0))),
        decode("ret"@) == Some(Instr::Ret),
{
    reveal(decode);
    reveal_with_fuel(find_char, 16);
    reveal_strlit("ldr x0, [x9]");
    reveal_strlit("ret");
}

/// `__rt_ob_level` reads the buffer-stack depth: on AArch64 the helper returns, within
/// five lines, with `x0` = the word at `_ob_level` (0 when no buffer is active).
#[verifier::rlimit(50)]
pub proof fn lemma_ob_level_reads_the_depth(t: Target, env: Env, m: Machine)
    requires
        t.arch == Arch::AArch64,
        m.pc == find_label(ob_queries(Seq::empty(), t), "__rt_ob_level"@, 0),
        !m.returned,
        !m.stuck,
    ensures
        ({
            let r = run(ob_queries(Seq::empty(), t), env, m, 5);
            &&& r.returned
            &&& read(r, 0) == (m.mem)((env.symbol)("_ob_level"@))
        }),
{
    let lines = ob_queries(Seq::empty(), t);
    lemma_ob_level_lines(t);
    lemma_ob_level_decodes();
    lemma_ob_symbol_lines_decode(t.platform);
    lemma_step_passes(lines, env, m);
    let m1 = step(lines, env, m);
    lemma_step_instruction(lines, env, m1, text_of(lines[17]), Instr::Adrp(9, "_ob_level"@));
    let m2 = step(lines, env, m1);
    lemma_step_instruction(lines, env, m2, text_of(lines[18]), Instr::AddPageOffset(9, 9, "_ob_level"@));
    let m3 = step(lines, env, m2);
    assert(read(m3, 9) == (env.symbol)("_ob_level"@));
    lemma_step_instruction(lines, env, m3, "ldr x0, [x9]"@, Instr::Ldr(0, Address::Offset(9, 0)));
    let m4 = step(lines, env, m3);
    lemma_step_instruction(lines, env, m4, "ret"@, Instr::Ret);
    let m5 = step(lines, env, m4);
    lemma_run_step(lines, env, m, 4);
    lemma_run_step(lines, env, m1, 3);
    lemma_run_step(lines, env, m2, 2);
    lemma_run_step(lines, env, m3, 1);
    lemma_run_step(lines, env, m4, 0);
}

} // verus!
