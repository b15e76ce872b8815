//! Purpose:
//! Emits the `__rt_array_slice_str` runtime helper assembly for slicing a `string`-element indexed
//! array. Each sliced element is a 16-byte string descriptor (pointer + length) whose heap buffer is
//! OWNED by its array (`__rt_array_free_deep` frees string payloads for string arrays), so the slice
//! must `__rt_str_persist` every element into its own owned copy — a raw descriptor copy would share
//! the source's buffers and double-free them when the slice is released.
//!
//! Key details:
//! - Same offset/length normalization as `__rt_array_slice`. All loop state lives on the stack so the
//!   per-element `__rt_str_persist` call (which clobbers caller-saved registers) is safe.

use vstd::prelude::*;
use crate::codegen::emit::{Emitter, Line, ins, label, global, comment};
use crate::codegen::platform::{Arch, Target};

verus! {

/// Appends to `out` the listing that `emit_array_slice_str` emits for target `t`.
pub open spec fn array_slice_str(out: Seq<Line>, t: Target) -> Seq<Line> {
    if t.arch == Arch::X86_64 {
        array_slice_str_linux_x86_64(out, t)
    } else {
        array_slice_str_aarch64(out, t)
    }
}

/// Appends to `out` the AArch64 listing of `emit_array_slice_str`.
pub open spec fn array_slice_str_aarch64(out: Seq<Line>, t: Target) -> Seq<Line> {
    let out = out
        .push(Line::Blank)
        .push(comment("--- runtime: array_slice_str (16-byte string descriptors, per-element persist) ---"))
        .push(global("__rt_array_slice_str"))
        .push(ins("sub sp, sp, #80"))
        .push(ins("stp x29, x30, [sp, #64]"))
        .push(ins("add x29, sp, #64"))
        .push(ins("str x0, [sp, #0]"))
        .push(ins("ldr x9, [x0]"))
        .push(ins("cmp x1, #0"))
        .push(ins("b.ge __rt_array_slice_str_pos_off"))
        .push(ins("add x1, x9, x1"))
        .push(ins("cmp x1, #0"))
        .push(ins("csel x1, xzr, x1, lt"))
        .push(label("__rt_array_slice_str_pos_off"))
        .push(ins("cmp x1, x9"))
        .push(ins("b.ge __rt_array_slice_str_empty"));
    let out = out
        .push(ins("sub x3, x9, x1"))
        .push(ins("cmn x2, #1"))
        .push(ins("csel x2, x3, x2, eq"))
        .push(ins("cmp x2, x3"))
        .push(ins("csel x2, x3, x2, gt"))
        .push(ins("str x1, [sp, #8]"))
        .push(ins("str x2, [sp, #16]"))
        .push(ins("mov x0, x2"))
        .push(ins("mov x1, #16"))
        .push(ins("bl __rt_array_new"))
        .push(ins("str x0, [sp, #24]"))
        .push(ins("str xzr, [sp, #32]"))
        .push(label("__rt_array_slice_str_copy"))
        .push(ins("ldr x6, [sp, #32]"))
        .push(ins("ldr x4, [sp, #16]"))
        .push(ins("cmp x6, x4"));
    let out = out
        .push(ins("b.ge __rt_array_slice_str_done"))
        .push(ins("ldr x3, [sp, #8]"))
        .push(ins("add x7, x3, x6"))
        .push(ins("ldr x5, [sp, #0]"))
        .push(ins("add x10, x5, x7, lsl #4"))
        .push(ins("ldp x1, x2, [x10, #24]"))
        .push(ins("bl __rt_str_persist"))
        .push(ins("ldr x6, [sp, #32]"))
        .push(ins("ldr x0, [sp, #24]"))
        .push(ins("add x12, x0, x6, lsl #4"))
        .push(ins("stp x1, x2, [x12, #24]"))
        .push(ins("add x6, x6, #1"))
        .push(ins("str x6, [sp, #32]"))
        .push(ins("b __rt_array_slice_str_copy"))
        .push(label("__rt_array_slice_str_done"))
        .push(ins("ldr x0, [sp, #24]"));
    let out = out
        .push(ins("ldr x9, [sp, #16]"))
        .push(ins("str x9, [x0]"))
        .push(ins("ldp x29, x30, [sp, #64]"))
        .push(ins("add sp, sp, #80"))
        .push(ins("ret"))
        .push(label("__rt_array_slice_str_empty"))
        .push(ins("mov x0, #0"))
        .push(ins("mov x1, #16"))
        .push(ins("bl __rt_array_new"))
        .push(ins("ldp x29, x30, [sp, #64]"))
        .push(ins("add sp, sp, #80"))
        .push(ins("ret"));
    out
}

/// Emits the `__rt_array_slice_str` runtime helper.
///
/// # ABI
/// - Input: (x0/rdi) = source array pointer, (x1/rsi) = element offset, (x2/rdx) = slice length
///   - length == -1 indicates "read to end of array"
/// - Output: (x0/rax) = pointer to a newly allocated `string`-element array with owned copies
pub fn emit_array_slice_str(emitter: &mut Emitter)
    ensures
        final(emitter).target == old(emitter).target,
        final(emitter)@ == array_slice_str(old(emitter)@, old(emitter).target),
{
    if emitter.target.arch == Arch::X86_64 {
        emit_array_slice_str_linux_x86_64(emitter);
        return;
    }
    emitter.blank();
    emitter.comment("--- runtime: array_slice_str (16-byte string descriptors, per-element persist) ---");
    emitter.label_global("__rt_array_slice_str");
    // stack: [sp,0]=src ptr, [sp,8]=offset, [sp,16]=length, [sp,24]=dst ptr, [sp,32]=i
    emitter.instruction("sub sp, sp, #80");
    emitter.instruction("stp x29, x30, [sp, #64]");
    emitter.instruction("add x29, sp, #64");
    emitter.instruction("str x0, [sp, #0]");    // save source array pointer
    emitter.instruction("ldr x9, [x0]");    // x9 = source element count
    // -- normalize offset --
    emitter.instruction("cmp x1, #0");
    emitter.instruction("b.ge __rt_array_slice_str_pos_off");
    emitter.instruction("add x1, x9, x1");    // offset = len + offset
    emitter.instruction("cmp x1, #0");
    emitter.instruction("csel x1, xzr, x1, lt");    // clamp to 0
    emitter.label("__rt_array_slice_str_pos_off");
    emitter.instruction("cmp x1, x9");
    emitter.instruction("b.ge __rt_array_slice_str_empty");    // offset >= len -> empty
    emitter.instruction("sub x3, x9, x1");    // x3 = remaining
    emitter.instruction("cmn x2, #1");    // length == -1 (to end)?
    emitter.instruction("csel x2, x3, x2, eq");    // use remaining when -1
    emitter.instruction("cmp x2, x3");
    emitter.instruction("csel x2, x3, x2, gt");    // clamp to remaining
    emitter.instruction("str x1, [sp, #8]");    // save offset
    emitter.instruction("str x2, [sp, #16]");    // save length
    // -- allocate result (16-byte string slots) --
    emitter.instruction("mov x0, x2");    // capacity = slice length
    emitter.instruction("mov x1, #16");    // elem_size = 16
    emitter.instruction("bl __rt_array_new");
    emitter.instruction("str x0, [sp, #24]");    // save dest pointer
    emitter.instruction("str xzr, [sp, #32]");    // i = 0
    // -- copy loop: persist each source string into the destination --
    emitter.label("__rt_array_slice_str_copy");
    emitter.instruction("ldr x6, [sp, #32]");    // i
    emitter.instruction("ldr x4, [sp, #16]");    // length
    emitter.instruction("cmp x6, x4");
    emitter.instruction("b.ge __rt_array_slice_str_done");
    emitter.instruction("ldr x3, [sp, #8]");    // offset
    emitter.instruction("add x7, x3, x6");    // source index = offset + i
    emitter.instruction("ldr x5, [sp, #0]");    // source ptr
    emitter.instruction("add x10, x5, x7, lsl #4");    // + (offset+i)*16
    emitter.instruction("ldp x1, x2, [x10, #24]");    // load (ptr,len) past the 24-byte header
    emitter.instruction("bl __rt_str_persist");    // x1 = owned ptr, x2 = owned len
    emitter.instruction("ldr x6, [sp, #32]");    // reload i (persist clobbered regs)
    emitter.instruction("ldr x0, [sp, #24]");    // dest ptr
    emitter.instruction("add x12, x0, x6, lsl #4");    // dest + i*16
    emitter.instruction("stp x1, x2, [x12, #24]");    // store owned (ptr,len)
    emitter.instruction("add x6, x6, #1");    // i += 1
    emitter.instruction("str x6, [sp, #32]");
    emitter.instruction("b __rt_array_slice_str_copy");
    emitter.label("__rt_array_slice_str_done");
    emitter.instruction("ldr x0, [sp, #24]");    // dest ptr
    emitter.instruction("ldr x9, [sp, #16]");    // length
    emitter.instruction("str x9, [x0]");    // publish length
    emitter.instruction("ldp x29, x30, [sp, #64]");
    emitter.instruction("add sp, sp, #80");
    emitter.instruction("ret");
    emitter.label("__rt_array_slice_str_empty");
    emitter.instruction("mov x0, #0");
    emitter.instruction("mov x1, #16");
    emitter.instruction("bl __rt_array_new");
    emitter.instruction("ldp x29, x30, [sp, #64]");
    emitter.instruction("add sp, sp, #80");
    emitter.instruction("ret");
}

/// Appends to `out` the listing that `emit_array_slice_str_linux_x86_64` emits for target `t`.
pub open spec fn array_slice_str_linux_x86_64(out: Seq<Line>, t: Target) -> Seq<Line> {
    let out = out
        .push(Line::Blank)
        .push(comment("--- runtime: array_slice_str (16-byte string descriptors, per-element persist) ---"))
        .push(global("__rt_array_slice_str"))
        .push(ins("push rbp"))
        .push(ins("mov rbp, rsp"))
        .push(ins("sub rsp, 48"))
        .push(ins("mov QWORD PTR [rbp - 8], rdi"))
        .push(ins("mov r10, QWORD PTR [rdi]"))
        .push(ins("cmp rsi, 0"))
        .push(ins("jge __rt_array_slice_str_pos_off_x86"))
        .push(ins("add rsi, r10"))
        .push(ins("cmp rsi, 0"))
        .push(ins("jge __rt_array_slice_str_pos_off_x86"))
        .push(ins("xor esi, esi"))
        .push(label("__rt_array_slice_str_pos_off_x86"))
        .push(ins("cmp rsi, r10"));
    let out = out
        .push(ins("jge __rt_array_slice_str_empty_x86"))
        .push(ins("mov rcx, r10"))
        .push(ins("sub rcx, rsi"))
        .push(ins("cmp rdx, -1"))
        .push(ins("jne __rt_array_slice_str_known_len_x86"))
        .push(ins("mov rdx, rcx"))
        .push(label("__rt_array_slice_str_known_len_x86"))
        .push(ins("cmp rdx, rcx"))
        .push(ins("jle __rt_array_slice_str_len_ready_x86"))
        .push(ins("mov rdx, rcx"))
        .push(label("__rt_array_slice_str_len_ready_x86"))
        .push(ins("mov QWORD PTR [rbp - 16], rsi"))
        .push(ins("mov QWORD PTR [rbp - 24], rdx"))
        .push(ins("mov rdi, rdx"))
        .push(ins("mov rsi, 16"))
        .push(ins("call __rt_array_new"));
    let out = out
        .push(ins("mov QWORD PTR [rbp - 32], rax"))
        .push(ins("mov QWORD PTR [rbp - 40], 0"))
        .push(label("__rt_array_slice_str_copy_x86"))
        .push(ins("mov rax, QWORD PTR [rbp - 40]"))
        .push(ins("cmp rax, QWORD PTR [rbp - 24]"))
        .push(ins("jge __rt_array_slice_str_done_x86"))
        .push(ins("mov rcx, QWORD PTR [rbp - 16]"))
        .push(ins("add rcx, rax"))
        .push(ins("shl rcx, 4"))
        .push(ins("mov r8, QWORD PTR [rbp - 8]"))
        .push(ins("add r8, rcx"))
        .push(ins("mov rax, QWORD PTR [r8 + 24]"))
        .push(ins("mov rdx, QWORD PTR [r8 + 32]"))
        .push(ins("call __rt_str_persist"))
        .push(ins("mov rcx, QWORD PTR [rbp - 40]"))
        .push(ins("shl rcx, 4"));
    let out = out
        .push(ins("mov r8, QWORD PTR [rbp - 32]"))
        .push(ins("add r8, rcx"))
        .push(ins("mov QWORD PTR [r8 + 24], rax"))
        .push(ins("mov QWORD PTR [r8 + 32], rdx"))
        .push(ins("inc QWORD PTR [rbp - 40]"))
        .push(ins("jmp __rt_array_slice_str_copy_x86"))
        .push(label("__rt_array_slice_str_done_x86"))
        .push(ins("mov rax, QWORD PTR [rbp - 32]"))
        .push(ins("mov rcx, QWORD PTR [rbp - 24]"))
        .push(ins("mov QWORD PTR [rax], rcx"))
        .push(ins("add rsp, 48"))
        .push(ins("pop rbp"))
        .push(ins("ret"))
        .push(label("__rt_array_slice_str_empty_x86"))
        .push(ins("mov rdi, 0"))
        .push(ins("mov rsi, 16"));
    let out = out
        .push(ins("call __rt_array_new"))
        .push(ins("add rsp, 48"))
        .push(ins("pop rbp"))
        .push(ins("ret"));
    out
}

/// Emits the `__rt_array_slice_str` runtime helper for x86_64 Linux.
fn emit_array_slice_str_linux_x86_64(emitter: &mut Emitter)
    ensures
        final(emitter).target == old(emitter).target,
        final(emitter)@ == array_slice_str_linux_x86_64(old(emitter)@, old(emitter).target),
{
    emitter.blank();
    emitter.comment("--- runtime: array_slice_str (16-byte string descriptors, per-element persist) ---");
    emitter.label_global("__rt_array_slice_str");
    // stack: [rbp-8]=src ptr, [rbp-16]=offset, [rbp-24]=length, [rbp-32]=dst ptr, [rbp-40]=i
    emitter.instruction("push rbp");
    emitter.instruction("mov rbp, rsp");
    emitter.instruction("sub rsp, 48");
    emitter.instruction("mov QWORD PTR [rbp - 8], rdi");    // source array pointer
    emitter.instruction("mov r10, QWORD PTR [rdi]");    // source element count
    // -- normalize offset --
    emitter.instruction("cmp rsi, 0");
    emitter.instruction("jge __rt_array_slice_str_pos_off_x86");
    emitter.instruction("add rsi, r10");    // offset = len + offset
    emitter.instruction("cmp rsi, 0");
    emitter.instruction("jge __rt_array_slice_str_pos_off_x86");
    emitter.instruction("xor esi, esi");    // clamp to 0
    emitter.label("__rt_array_slice_str_pos_off_x86");
    emitter.instruction("cmp rsi, r10");
    emitter.instruction("jge __rt_array_slice_str_empty_x86");    // offset >= len -> empty
    emitter.instruction("mov rcx, r10");
    emitter.instruction("sub rcx, rsi");    // remaining
    emitter.instruction("cmp rdx, -1");
    emitter.instruction("jne __rt_array_slice_str_known_len_x86");
    emitter.instruction("mov rdx, rcx");    // to-end -> remaining
    emitter.label("__rt_array_slice_str_known_len_x86");
    emitter.instruction("cmp rdx, rcx");
    emitter.instruction("jle __rt_array_slice_str_len_ready_x86");
    emitter.instruction("mov rdx, rcx");    // clamp to remaining
    emitter.label("__rt_array_slice_str_len_ready_x86");
    emitter.instruction("mov QWORD PTR [rbp - 16], rsi");    // offset
    emitter.instruction("mov QWORD PTR [rbp - 24], rdx");    // length
    emitter.instruction("mov rdi, rdx");    // capacity
    emitter.instruction("mov rsi, 16");    // elem_size = 16
    emitter.instruction("call __rt_array_new");
    emitter.instruction("mov QWORD PTR [rbp - 32], rax");    // dest pointer
    emitter.instruction("mov QWORD PTR [rbp - 40], 0");    // i = 0
    // -- copy loop: persist each source string into the destination --
    emitter.label("__rt_array_slice_str_copy_x86");
    emitter.instruction("mov rax, QWORD PTR [rbp - 40]");    // i
    emitter.instruction("cmp rax, QWORD PTR [rbp - 24]");    // i < length?
    emitter.instruction("jge __rt_array_slice_str_done_x86");
    emitter.instruction("mov rcx, QWORD PTR [rbp - 16]");    // offset
    emitter.instruction("add rcx, rax");    // offset + i
    emitter.instruction("shl rcx, 4");    // * 16
    emitter.instruction("mov r8, QWORD PTR [rbp - 8]");    // source ptr
    emitter.instruction("add r8, rcx");    // + (offset+i)*16
    emitter.instruction("mov rax, QWORD PTR [r8 + 24]");    // ptr (past 24-byte header)
    emitter.instruction("mov rdx, QWORD PTR [r8 + 32]");    // len
    emitter.instruction("call __rt_str_persist");    // rax = owned ptr, rdx = owned len
    emitter.instruction("mov rcx, QWORD PTR [rbp - 40]");    // reload i (persist clobbered regs)
    emitter.instruction("shl rcx, 4");    // i * 16
    emitter.instruction("mov r8, QWORD PTR [rbp - 32]");    // dest ptr
    emitter.instruction("add r8, rcx");    // + i*16
    emitter.instruction("mov QWORD PTR [r8 + 24], rax");    // store owned ptr
    emitter.instruction("mov QWORD PTR [r8 + 32], rdx");    // store owned len
    emitter.instruction("inc QWORD PTR [rbp - 40]");    // i += 1
    emitter.instruction("jmp __rt_array_slice_str_copy_x86");
    emitter.label("__rt_array_slice_str_done_x86");
    emitter.instruction("mov rax, QWORD PTR [rbp - 32]");    // dest ptr
    emitter.instruction("mov rcx, QWORD PTR [rbp - 24]");    // length
    emitter.instruction("mov QWORD PTR [rax], rcx");    // publish length
    emitter.instruction("add rsp, 48");
    emitter.instruction("pop rbp");
    emitter.instruction("ret");
    emitter.label("__rt_array_slice_str_empty_x86");
    emitter.instruction("mov rdi, 0");
    emitter.instruction("mov rsi, 16");
    emitter.instruction("call __rt_array_new");
    emitter.instruction("add rsp, 48");
    emitter.instruction("pop rbp");
    emitter.instruction("ret");
}

/// The emitter of this module only appends: the block it adds depends on the target
/// alone, and the listing it was handed stays in front of that block unchanged.
pub proof fn lemma_array_slice_str_emitters_append(out: Seq<Line>, t: Target)
    ensures
        array_slice_str(out, t) == out + array_slice_str(Seq::empty(), t),
{
    broadcast use crate::codegen::emit::group_listing;
}

} // verus!
