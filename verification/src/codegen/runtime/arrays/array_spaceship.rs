//! Purpose:
//! Emits the `__rt_array_spaceship` runtime helper assembly for array `<=>` comparison.
//! Keeps PHP array ordering semantics and target-specific ABI variants in one focused emitter.
//!
//! Key details:
//! - PHP orders arrays by count first (fewer elements sorts smaller regardless of
//!   content), then pairwise element-by-element, short-circuiting on the first
//!   non-zero comparison — the multi-key usort staple `[$a, $b] <=> [$c, $d]`.
//! - The element layout comes from the caller as a compile-time mode flag derived
//!   from the static element type: mode 0 = 8-byte integer slots compared
//!   numerically; mode 1 = 16-byte string ptr/len slots compared through
//!   `__rt_str_spaceship` (numeric strings numerically, otherwise byte order).
//! - Elements start at +24 past the array header (length word at +0), matching the
//!   indexed-array element base used by the inline array-get lowering.

use vstd::prelude::*;
use crate::codegen::emit::{Emitter, Line, ins, label, global, comment};
use crate::codegen::platform::{Arch, Target};
use crate::codegen::machine::{
    Env, Machine, Instr, Operand, Address, Cond, decode, find_char, find_label, instruction_text, read, run,
    step, lemma_step_instruction, lemma_step_passes, lemma_run_step, lemma_run_returned, lemma_run_split,
};

verus! {

/// Appends to `out` the listing that `emit_array_spaceship` emits for target `t`.
pub open spec fn array_spaceship(out: Seq<Line>, t: Target) -> Seq<Line> {
    if t.arch == Arch::X86_64 {
        array_spaceship_linux_x86_64(out, t)
    } else {
        array_spaceship_aarch64(out, t)
    }
}

/// Appends to `out` the AArch64 listing of `emit_array_spaceship`.
pub open spec fn array_spaceship_aarch64(out: Seq<Line>, t: Target) -> Seq<Line> {
    let out = out
        .push(Line::Blank)
        .push(comment("--- runtime: array_spaceship ---"))
        .push(global("__rt_array_spaceship"))
        .push(ins("sub sp, sp, #64"))
        .push(ins("stp x29, x30, [sp, #48]"))
        .push(ins("add x29, sp, #48"))
        .push(ins("stp x19, x20, [sp, #32]"))
        .push(ins("stp x21, x22, [sp, #16]"))
        .push(ins("str x23, [sp, #0]"))
        .push(ins("mov x19, x1"))
        .push(ins("mov x20, x2"))
        .push(ins("mov x23, x3"))
        .push(ins("ldr x21, [x19]"))
        .push(ins("ldr x9, [x20]"))
        .push(ins("cmp x21, x9"))
        .push(ins("b.lt __rt_arr_ss_less"));
    let out = out
        .push(ins("b.gt __rt_arr_ss_greater"))
        .push(ins("mov x22, #0"))
        .push(label("__rt_arr_ss_loop"))
        .push(ins("cmp x22, x21"))
        .push(ins("b.ge __rt_arr_ss_equal"))
        .push(ins("cbnz x23, __rt_arr_ss_str"))
        .push(ins("add x9, x19, #24"))
        .push(ins("ldr x10, [x9, x22, lsl #3]"))
        .push(ins("add x9, x20, #24"))
        .push(ins("ldr x11, [x9, x22, lsl #3]"))
        .push(ins("cmp x10, x11"))
        .push(ins("b.lt __rt_arr_ss_less"))
        .push(ins("b.gt __rt_arr_ss_greater"))
        .push(ins("b __rt_arr_ss_next"))
        .push(label("__rt_arr_ss_str"))
        .push(ins("lsl x9, x22, #4"));
    let out = out
        .push(ins("add x10, x19, #24"))
        .push(ins("add x10, x10, x9"))
        .push(ins("ldr x1, [x10]"))
        .push(ins("ldr x2, [x10, #8]"))
        .push(ins("add x10, x20, #24"))
        .push(ins("add x10, x10, x9"))
        .push(ins("ldr x3, [x10]"))
        .push(ins("ldr x4, [x10, #8]"))
        .push(ins("bl __rt_str_spaceship"))
        .push(ins("cbnz x0, __rt_arr_ss_ret"))
        .push(label("__rt_arr_ss_next"))
        .push(ins("add x22, x22, #1"))
        .push(ins("b __rt_arr_ss_loop"))
        .push(label("__rt_arr_ss_less"))
        .push(ins("mov x0, #-1"))
        .push(ins("b __rt_arr_ss_ret"));
    let out = out
        .push(label("__rt_arr_ss_greater"))
        .push(ins("mov x0, #1"))
        .push(ins("b __rt_arr_ss_ret"))
        .push(label("__rt_arr_ss_equal"))
        .push(ins("mov x0, #0"))
        .push(label("__rt_arr_ss_ret"))
        .push(ins("ldr x23, [sp, #0]"))
        .push(ins("ldp x21, x22, [sp, #16]"))
        .push(ins("ldp x19, x20, [sp, #32]"))
        .push(ins("ldp x29, x30, [sp, #48]"))
        .push(ins("add sp, sp, #64"))
        .push(ins("ret"));
    out
}

/// array_spaceship: PHP `<=>` over two packed arrays with a static element mode.
/// Input:  AArch64 x1 = left array, x2 = right array, x3 = mode (0 int, 1 str)
///         x86_64  rdi = left array, rsi = right array, rdx = mode
/// Output: -1 / 0 / 1 in x0 (AArch64) / rax (x86_64)
pub fn emit_array_spaceship(emitter: &mut Emitter)
    ensures
        final(emitter).target == old(emitter).target,
        final(emitter)@ == array_spaceship(old(emitter)@, old(emitter).target),
{
    if emitter.target.arch == Arch::X86_64 {
        emit_array_spaceship_linux_x86_64(emitter);
        return;
    }
    emitter.blank();
    emitter.comment("--- runtime: array_spaceship ---");
    emitter.label_global("__rt_array_spaceship");
    // -- set up stack frame and preserve callee-saved registers --
    emitter.instruction("sub sp, sp, #64");    // allocate the helper frame
    emitter.instruction("stp x29, x30, [sp, #48]");    // save frame pointer and return address
    emitter.instruction("add x29, sp, #48");    // establish the helper frame pointer
    emitter.instruction("stp x19, x20, [sp, #32]");    // save callee-saved x19/x20
    emitter.instruction("stp x21, x22, [sp, #16]");    // save callee-saved x21/x22
    emitter.instruction("str x23, [sp, #0]");    // save callee-saved x23
    emitter.instruction("mov x19, x1");    // x19 = left array pointer
    emitter.instruction("mov x20, x2");    // x20 = right array pointer
    emitter.instruction("mov x23, x3");    // x23 = element comparison mode
    // -- count comparison decides before any element is inspected --
    emitter.instruction("ldr x21, [x19]");    // x21 = left element count
    emitter.instruction("ldr x9, [x20]");    // x9 = right element count
    emitter.instruction("cmp x21, x9");    // PHP orders by count first
    emitter.instruction("b.lt __rt_arr_ss_less");    // fewer elements sorts smaller
    emitter.instruction("b.gt __rt_arr_ss_greater");    // more elements sorts larger
    emitter.instruction("mov x22, #0");    // element index
    emitter.label("__rt_arr_ss_loop");
    emitter.instruction("cmp x22, x21");    // compared every element pair?
    emitter.instruction("b.ge __rt_arr_ss_equal");    // all pairs equal → arrays equal
    emitter.instruction("cbnz x23, __rt_arr_ss_str");    // mode 1 → string element compare
    // -- mode 0: 8-byte integer slots --
    emitter.instruction("add x9, x19, #24");    // left element base
    emitter.instruction("ldr x10, [x9, x22, lsl #3]");    // left element value
    emitter.instruction("add x9, x20, #24");    // right element base
    emitter.instruction("ldr x11, [x9, x22, lsl #3]");    // right element value
    emitter.instruction("cmp x10, x11");    // signed integer comparison
    emitter.instruction("b.lt __rt_arr_ss_less");    // left element smaller
    emitter.instruction("b.gt __rt_arr_ss_greater");    // left element larger
    emitter.instruction("b __rt_arr_ss_next");    // equal pair: advance
    // -- mode 1: 16-byte string ptr/len slots via __rt_str_spaceship --
    emitter.label("__rt_arr_ss_str");
    emitter.instruction("lsl x9, x22, #4");    // scale index by 16-byte string slots
    emitter.instruction("add x10, x19, #24");    // left element base
    emitter.instruction("add x10, x10, x9");    // left slot address
    emitter.instruction("ldr x1, [x10]");    // left string pointer
    emitter.instruction("ldr x2, [x10, #8]");    // left string length
    emitter.instruction("add x10, x20, #24");    // right element base
    emitter.instruction("add x10, x10, x9");    // right slot address
    emitter.instruction("ldr x3, [x10]");    // right string pointer
    emitter.instruction("ldr x4, [x10, #8]");    // right string length
    emitter.instruction("bl __rt_str_spaceship");    // PHP 8 string spaceship semantics
    emitter.instruction("cbnz x0, __rt_arr_ss_ret");    // first non-zero pair decides
    emitter.label("__rt_arr_ss_next");
    emitter.instruction("add x22, x22, #1");    // advance to the next element pair
    emitter.instruction("b __rt_arr_ss_loop");    // continue comparing
    emitter.label("__rt_arr_ss_less");
    emitter.instruction("mov x0, #-1");    // left sorts before right
    emitter.instruction("b __rt_arr_ss_ret");    // share the epilogue
    emitter.label("__rt_arr_ss_greater");
    emitter.instruction("mov x0, #1");    // left sorts after right
    emitter.instruction("b __rt_arr_ss_ret");    // share the epilogue
    emitter.label("__rt_arr_ss_equal");
    emitter.instruction("mov x0, #0");    // arrays compare equal
    emitter.label("__rt_arr_ss_ret");
    emitter.instruction("ldr x23, [sp, #0]");    // restore callee-saved x23
    emitter.instruction("ldp x21, x22, [sp, #16]");    // restore callee-saved x21/x22
    emitter.instruction("ldp x19, x20, [sp, #32]");    // restore callee-saved x19/x20
    emitter.instruction("ldp x29, x30, [sp, #48]");    // restore frame pointer and return address
    emitter.instruction("add sp, sp, #64");    // release the helper frame
    emitter.instruction("ret");    // return the -1/0/1 ordering
}

/// Appends to `out` the listing that `emit_array_spaceship_linux_x86_64` emits for target `t`.
pub open spec fn array_spaceship_linux_x86_64(out: Seq<Line>, t: Target) -> Seq<Line> {
    let out = out
        .push(Line::Blank)
        .push(comment("--- runtime: array_spaceship ---"))
        .push(global("__rt_array_spaceship"))
        .push(ins("push rbp"))
        .push(ins("mov rbp, rsp"))
        .push(ins("push rbx"))
        .push(ins("push r12"))
        .push(ins("push r13"))
        .push(ins("push r14"))
        .push(ins("push r15"))
        .push(ins("sub rsp, 8"))
        .push(ins("mov rbx, rdi"))
        .push(ins("mov r12, rsi"))
        .push(ins("mov r15, rdx"))
        .push(ins("mov r13, QWORD PTR [rbx]"))
        .push(ins("mov r9, QWORD PTR [r12]"));
    let out = out
        .push(ins("cmp r13, r9"))
        .push(ins("jl __rt_arr_ss_less_x86"))
        .push(ins("jg __rt_arr_ss_greater_x86"))
        .push(ins("xor r14, r14"))
        .push(label("__rt_arr_ss_loop_x86"))
        .push(ins("cmp r14, r13"))
        .push(ins("jge __rt_arr_ss_equal_x86"))
        .push(ins("test r15, r15"))
        .push(ins("jnz __rt_arr_ss_str_x86"))
        .push(ins("mov r10, QWORD PTR [rbx + r14*8 + 24]"))
        .push(ins("mov r11, QWORD PTR [r12 + r14*8 + 24]"))
        .push(ins("cmp r10, r11"))
        .push(ins("jl __rt_arr_ss_less_x86"))
        .push(ins("jg __rt_arr_ss_greater_x86"))
        .push(ins("jmp __rt_arr_ss_next_x86"))
        .push(label("__rt_arr_ss_str_x86"));
    let out = out
        .push(ins("mov r10, r14"))
        .push(ins("shl r10, 4"))
        .push(ins("mov rdi, QWORD PTR [rbx + r10 + 24]"))
        .push(ins("mov rsi, QWORD PTR [rbx + r10 + 32]"))
        .push(ins("mov rdx, QWORD PTR [r12 + r10 + 24]"))
        .push(ins("mov rcx, QWORD PTR [r12 + r10 + 32]"))
        .push(ins("call __rt_str_spaceship"))
        .push(ins("test rax, rax"))
        .push(ins("jnz __rt_arr_ss_ret_x86"))
        .push(label("__rt_arr_ss_next_x86"))
        .push(ins("add r14, 1"))
        .push(ins("jmp __rt_arr_ss_loop_x86"))
        .push(label("__rt_arr_ss_less_x86"))
        .push(ins("mov rax, -1"))
        .push(ins("jmp __rt_arr_ss_ret_x86"))
        .push(label("__rt_arr_ss_greater_x86"));
    let out = out
        .push(ins("mov eax, 1"))
        .push(ins("jmp __rt_arr_ss_ret_x86"))
        .push(label("__rt_arr_ss_equal_x86"))
        .push(ins("xor eax, eax"))
        .push(label("__rt_arr_ss_ret_x86"))
        .push(ins("add rsp, 8"))
        .push(ins("pop r15"))
        .push(ins("pop r14"))
        .push(ins("pop r13"))
        .push(ins("pop r12"))
        .push(ins("pop rbx"))
        .push(ins("pop rbp"))
        .push(ins("ret"));
    out
}

/// Emits the Linux x86_64 variant of `__rt_array_spaceship`.
fn emit_array_spaceship_linux_x86_64(emitter: &mut Emitter)
    ensures
        final(emitter).target == old(emitter).target,
        final(emitter)@ == array_spaceship_linux_x86_64(old(emitter)@, old(emitter).target),
{
    emitter.blank();
    emitter.comment("--- runtime: array_spaceship ---");
    emitter.label_global("__rt_array_spaceship");
    emitter.instruction("push rbp");    // preserve the caller frame pointer
    emitter.instruction("mov rbp, rsp");    // establish the helper frame pointer
    emitter.instruction("push rbx");    // save callee-saved rbx (left array)
    emitter.instruction("push r12");    // save callee-saved r12 (right array)
    emitter.instruction("push r13");    // save callee-saved r13 (element count)
    emitter.instruction("push r14");    // save callee-saved r14 (element index)
    emitter.instruction("push r15");    // save callee-saved r15 (element mode)
    emitter.instruction("sub rsp, 8");    // keep rsp 16-aligned for the string helper's libc calls
    emitter.instruction("mov rbx, rdi");    // rbx = left array pointer
    emitter.instruction("mov r12, rsi");    // r12 = right array pointer
    emitter.instruction("mov r15, rdx");    // r15 = element comparison mode
    emitter.instruction("mov r13, QWORD PTR [rbx]");    // r13 = left element count
    emitter.instruction("mov r9, QWORD PTR [r12]");    // r9 = right element count
    emitter.instruction("cmp r13, r9");    // PHP orders by count first
    emitter.instruction("jl __rt_arr_ss_less_x86");    // fewer elements sorts smaller
    emitter.instruction("jg __rt_arr_ss_greater_x86");    // more elements sorts larger
    emitter.instruction("xor r14, r14");    // element index
    emitter.label("__rt_arr_ss_loop_x86");
    emitter.instruction("cmp r14, r13");    // compared every element pair?
    emitter.instruction("jge __rt_arr_ss_equal_x86");    // all pairs equal → arrays equal
    emitter.instruction("test r15, r15");    // mode 1 → string element compare
    emitter.instruction("jnz __rt_arr_ss_str_x86");    // dispatch to the string pair path
    // -- mode 0: 8-byte integer slots --
    emitter.instruction("mov r10, QWORD PTR [rbx + r14*8 + 24]");    // left element value
    emitter.instruction("mov r11, QWORD PTR [r12 + r14*8 + 24]");    // right element value
    emitter.instruction("cmp r10, r11");    // signed integer comparison
    emitter.instruction("jl __rt_arr_ss_less_x86");    // left element smaller
    emitter.instruction("jg __rt_arr_ss_greater_x86");    // left element larger
    emitter.instruction("jmp __rt_arr_ss_next_x86");    // equal pair: advance
    // -- mode 1: 16-byte string ptr/len slots via __rt_str_spaceship --
    emitter.label("__rt_arr_ss_str_x86");
    emitter.instruction("mov r10, r14");    // copy element index before scaling
    emitter.instruction("shl r10, 4");    // scale index by 16-byte string slots
    emitter.instruction("mov rdi, QWORD PTR [rbx + r10 + 24]");    // left string pointer
    emitter.instruction("mov rsi, QWORD PTR [rbx + r10 + 32]");    // left string length
    emitter.instruction("mov rdx, QWORD PTR [r12 + r10 + 24]");    // right string pointer
    emitter.instruction("mov rcx, QWORD PTR [r12 + r10 + 32]");    // right string length
    emitter.instruction("call __rt_str_spaceship");    // PHP 8 string spaceship semantics
    emitter.instruction("test rax, rax");    // first non-zero pair decides
    emitter.instruction("jnz __rt_arr_ss_ret_x86");    // propagate the element ordering
    emitter.label("__rt_arr_ss_next_x86");
    emitter.instruction("add r14, 1");    // advance to the next element pair
    emitter.instruction("jmp __rt_arr_ss_loop_x86");    // continue comparing
    emitter.label("__rt_arr_ss_less_x86");
    emitter.instruction("mov rax, -1");    // left sorts before right
    emitter.instruction("jmp __rt_arr_ss_ret_x86");    // share the epilogue
    emitter.label("__rt_arr_ss_greater_x86");
    emitter.instruction("mov eax, 1");    // left sorts after right
    emitter.instruction("jmp __rt_arr_ss_ret_x86");    // share the epilogue
    emitter.label("__rt_arr_ss_equal_x86");
    emitter.instruction("xor eax, eax");    // arrays compare equal
    emitter.label("__rt_arr_ss_ret_x86");
    emitter.instruction("add rsp, 8");    // release the alignment pad
    emitter.instruction("pop r15");    // restore callee-saved r15
    emitter.instruction("pop r14");    // restore callee-saved r14
    emitter.instruction("pop r13");    // restore callee-saved r13
    emitter.instruction("pop r12");    // restore callee-saved r12
    emitter.instruction("pop rbx");    // restore callee-saved rbx
    emitter.instruction("pop rbp");    // restore the caller frame pointer
    emitter.instruction("ret");    // return the -1/0/1 ordering
}

/// The emitter of this module only appends: the block it adds depends on the target
/// alone, and the listing it was handed stays in front of that block unchanged.
pub proof fn lemma_array_spaceship_emitters_append(out: Seq<Line>, t: Target)
    ensures
        array_spaceship(out, t) == out + array_spaceship(Seq::empty(), t),
{
    broadcast use crate::codegen::emit::group_listing;
}

#[verifier::rlimit(50)]
#[verifier::spinoff_prover]
proof fn lemma_array_spaceship_line_0(t: Target)
    requires
        t.arch == Arch::AArch64,
    ensures
        array_spaceship(Seq::empty(), t)[0] == Line::Blank,
{
}

#[verifier::rlimit(50)]
#[verifier::spinoff_prover]
proof fn lemma_array_spaceship_line_1(t: Target)
    requires
        t.arch == Arch::AArch64,
    ensures
        array_spaceship(Seq::empty(), t)[1] == comment("--- runtime: array_spaceship ---"),
{
}

#[verifier::rlimit(50)]
#[verifier::spinoff_prover]
proof fn lemma_array_spaceship_line_2(t: Target)
    requires
        t.arch == Arch::AArch64,
    ensures
        array_spaceship(Seq::empty(), t)[2] == global("__rt_array_spaceship"),
{
}

#[verifier::rlimit(50)]
#[verifier::spinoff_prover]
proof fn lemma_array_spaceship_line_3(t: Target)
    requires
        t.arch == Arch::AArch64,
    ensures
        array_spaceship(Seq::empty(), t)[3] == ins("sub sp, sp, #64"),
{
}

#[verifier::rlimit(50)]
#[verifier::spinoff_prover]
proof fn lemma_array_spaceship_line_4(t: Target)
    requires
        t.arch == Arch::AArch64,
    ensures
        array_spaceship(Seq::empty(), t)[4] == ins("stp x29, x30, [sp, #48]"),
{
}

#[verifier::rlimit(50)]
#[verifier::spinoff_prover]
proof fn lemma_array_spaceship_line_5(t: Target)
    requires
        t.arch == Arch::AArch64,
    ensures
        array_spaceship(Seq::empty(), t)[5] == ins("add x29, sp, #48"),
{
}

#[verifier::rlimit(50)]
#[verifier::spinoff_prover]
proof fn lemma_array_spaceship_line_6(t: Target)
    requires
        t.arch == Arch::AArch64,
    ensures
        array_spaceship(Seq::empty(), t)[6] == ins("stp x19, x20, [sp, #32]"),
{
}

#[verifier::rlimit(50)]
#[verifier::spinoff_prover]
proof fn lemma_array_spaceship_line_7(t: Target)
    requires
        t.arch == Arch::AArch64,
    ensures
        array_spaceship(Seq::empty(), t)[7] == ins("stp x21, x22, [sp, #16]"),
{
}

#[verifier::rlimit(50)]
#[verifier::spinoff_prover]
proof fn lemma_array_spaceship_line_8(t: Target)
    requires
        t.arch == Arch::AArch64,
    ensures
        array_spaceship(Seq::empty(), t)[8] == ins("str x23, [sp, #0]"),
{
}

#[verifier::rlimit(50)]
#[verifier::spinoff_prover]
proof fn lemma_array_spaceship_line_9(t: Target)
    requires
        t.arch == Arch::AArch64,
    ensures
        array_spaceship(Seq::empty(), t)[9] == ins("mov x19, x1"),
{
}

#[verifier::rlimit(50)]
#[verifier::spinoff_prover]
proof fn lemma_array_spaceship_line_10(t: Target)
    requires
        t.arch == Arch::AArch64,
    ensures
        array_spaceship(Seq::empty(), t)[10] == ins("mov x20, x2"),
{
}

#[verifier::rlimit(50)]
#[verifier::spinoff_prover]
proof fn lemma_array_spaceship_line_11(t: Target)
    requires
        t.arch == Arch::AArch64,
    ensures
        array_spaceship(Seq::empty(), t)[11] == ins("mov x23, x3"),
{
}

#[verifier::rlimit(50)]
#[verifier::spinoff_prover]
proof fn lemma_array_spaceship_line_12(t: Target)
    requires
        t.arch == Arch::AArch64,
    ensures
        array_spaceship(Seq::empty(), t)[12] == ins("ldr x21, [x19]"),
{
}

#[verifier::rlimit(50)]
#[verifier::spinoff_prover]
proof fn lemma_array_spaceship_line_13(t: Target)
    requires
        t.arch == Arch::AArch64,
    ensures
        array_spaceship(Seq::empty(), t)[13] == ins("ldr x9, [x20]"),
{
}

#[verifier::rlimit(50)]
#[verifier::spinoff_prover]
proof fn lemma_array_spaceship_line_14(t: Target)
    requires
        t.arch == Arch::AArch64,
    ensures
        array_spaceship(Seq::empty(), t)[14] == ins("cmp x21, x9"),
{
}

#[verifier::rlimit(50)]
#[verifier::spinoff_prover]
proof fn lemma_array_spaceship_line_15(t: Target)
    requires
        t.arch == Arch::AArch64,
    ensures
        array_spaceship(Seq::empty(), t)[15] == ins("b.lt __rt_arr_ss_less"),
{
}

#[verifier::rlimit(50)]
#[verifier::spinoff_prover]
proof fn lemma_array_spaceship_line_16(t: Target)
    requires
        t.arch == Arch::AArch64,
    ensures
        array_spaceship(Seq::empty(), t)[16] == ins("b.gt __rt_arr_ss_greater"),
{
}

#[verifier::rlimit(50)]
#[verifier::spinoff_prover]
proof fn lemma_array_spaceship_line_17(t: Target)
    requires
        t.arch == Arch::AArch64,
    ensures
        array_spaceship(Seq::empty(), t)[17] == ins("mov x22, #0"),
{
}

#[verifier::rlimit(50)]
#[verifier::spinoff_prover]
proof fn lemma_array_spaceship_line_18(t: Target)
    requires
        t.arch == Arch::AArch64,
    ensures
        array_spaceship(Seq::empty(), t)[18] == label("__rt_arr_ss_loop"),
{
}

#[verifier::rlimit(50)]
#[verifier::spinoff_prover]
proof fn lemma_array_spaceship_line_19(t: Target)
    requires
        t.arch == Arch::AArch64,
    ensures
        array_spaceship(Seq::empty(), t)[19] == ins("cmp x22, x21"),
{
}

#[verifier::rlimit(50)]
#[verifier::spinoff_prover]
proof fn lemma_array_spaceship_line_20(t: Target)
    requires
        t.arch == Arch::AArch64,
    ensures
        array_spaceship(Seq::empty(), t)[20] == ins("b.ge __rt_arr_ss_equal"),
{
}

#[verifier::rlimit(50)]
#[verifier::spinoff_prover]
proof fn lemma_array_spaceship_line_21(t: Target)
    requires
        t.arch == Arch::AArch64,
    ensures
        array_spaceship(Seq::empty(), t)[21] == ins("cbnz x23, __rt_arr_ss_str"),
{
}

#[verifier::rlimit(50)]
#[verifier::spinoff_prover]
proof fn lemma_array_spaceship_line_22(t: Target)
    requires
        t.arch == Arch::AArch64,
    ensures
        array_spaceship(Seq::empty(), t)[22] == ins("add x9, x19, #24"),
{
}

#[verifier::rlimit(50)]
#[verifier::spinoff_prover]
proof fn lemma_array_spaceship_line_23(t: Target)
    requires
        t.arch == Arch::AArch64,
    ensures
        array_spaceship(Seq::empty(), t)[23] == ins("ldr x10, [x9, x22, lsl #3]"),
{
}

#[verifier::rlimit(50)]
#[verifier::spinoff_prover]
proof fn lemma_array_spaceship_line_24(t: Target)
    requires
        t.arch == Arch::AArch64,
    ensures
        array_spaceship(Seq::empty(), t)[24] == ins("add x9, x20, #24"),
{
}

#[verifier::rlimit(50)]
#[verifier::spinoff_prover]
proof fn lemma_array_spaceship_line_25(t: Target)
    requires
        t.arch == Arch::AArch64,
    ensures
        array_spaceship(Seq::empty(), t)[25] == ins("ldr x11, [x9, x22, lsl #3]"),
{
}

#[verifier::rlimit(50)]
#[verifier::spinoff_prover]
proof fn lemma_array_spaceship_line_26(t: Target)
    requires
        t.arch == Arch::AArch64,
    ensures
        array_spaceship(Seq::empty(), t)[26] == ins("cmp x10, x11"),
{
}

#[verifier::rlimit(50)]
#[verifier::spinoff_prover]
proof fn lemma_array_spaceship_line_27(t: Target)
    requires
        t.arch == Arch::AArch64,
    ensures
        array_spaceship(Seq::empty(), t)[27] == ins("b.lt __rt_arr_ss_less"),
{
}

#[verifier::rlimit(50)]
#[verifier::spinoff_prover]
proof fn lemma_array_spaceship_line_28(t: Target)
    requires
        t.arch == Arch::AArch64,
    ensures
        array_spaceship(Seq::empty(), t)[28] == ins("b.gt __rt_arr_ss_greater"),
{
}

#[verifier::rlimit(50)]
#[verifier::spinoff_prover]
proof fn lemma_array_spaceship_line_29(t: Target)
    requires
        t.arch == Arch::AArch64,
    ensures
        array_spaceship(Seq::empty(), t)[29] == ins("b __rt_arr_ss_next"),
{
}

#[verifier::rlimit(50)]
#[verifier::spinoff_prover]
proof fn lemma_array_spaceship_line_30(t: Target)
    requires
        t.arch == Arch::AArch64,
    ensures
        array_spaceship(Seq::empty(), t)[30] == label("__rt_arr_ss_str"),
{
}

#[verifier::rlimit(50)]
#[verifier::spinoff_prover]
proof fn lemma_array_spaceship_line_31(t: Target)
    requires
        t.arch == Arch::AArch64,
    ensures
        array_spaceship(Seq::empty(), t)[31] == ins("lsl x9, x22, #4"),
{
}

#[verifier::rlimit(50)]
#[verifier::spinoff_prover]
proof fn lemma_array_spaceship_line_32(t: Target)
    requires
        t.arch == Arch::AArch64,
    ensures
        array_spaceship(Seq::empty(), t)[32] == ins("add x10, x19, #24"),
{
}

#[verifier::rlimit(50)]
#[verifier::spinoff_prover]
proof fn lemma_array_spaceship_line_33(t: Target)
    requires
        t.arch == Arch::AArch64,
    ensures
        array_spaceship(Seq::empty(), t)[33] == ins("add x10, x10, x9"),
{
}

#[verifier::rlimit(50)]
#[verifier::spinoff_prover]
proof fn lemma_array_spaceship_line_34(t: Target)
    requires
        t.arch == Arch::AArch64,
    ensures
        array_spaceship(Seq::empty(), t)[34] == ins("ldr x1, [x10]"),
{
}

#[verifier::rlimit(50)]
#[verifier::spinoff_prover]
proof fn lemma_array_spaceship_line_35(t: Target)
    requires
        t.arch == Arch::AArch64,
    ensures
        array_spaceship(Seq::empty(), t)[35] == ins("ldr x2, [x10, #8]"),
{
}

#[verifier::rlimit(50)]
#[verifier::spinoff_prover]
proof fn lemma_array_spaceship_line_36(t: Target)
    requires
        t.arch == Arch::AArch64,
    ensures
        array_spaceship(Seq::empty(), t)[36] == ins("add x10, x20, #24"),
{
}

#[verifier::rlimit(50)]
#[verifier::spinoff_prover]
proof fn lemma_array_spaceship_line_37(t: Target)
    requires
        t.arch == Arch::AArch64,
    ensures
        array_spaceship(Seq::empty(), t)[37] == ins("add x10, x10, x9"),
{
}

#[verifier::rlimit(50)]
#[verifier::spinoff_prover]
proof fn lemma_array_spaceship_line_38(t: Target)
    requires
        t.arch == Arch::AArch64,
    ensures
        array_spaceship(Seq::empty(), t)[38] == ins("ldr x3, [x10]"),
{
}

#[verifier::rlimit(50)]
#[verifier::spinoff_prover]
proof fn lemma_array_spaceship_line_39(t: Target)
    requires
        t.arch == Arch::AArch64,
    ensures
        array_spaceship(Seq::empty(), t)[39] == ins("ldr x4, [x10, #8]"),
{
}

#[verifier::rlimit(50)]
#[verifier::spinoff_prover]
proof fn lemma_array_spaceship_line_40(t: Target)
    requires
        t.arch == Arch::AArch64,
    ensures
        array_spaceship(Seq::empty(), t)[40] == ins("bl __rt_str_spaceship"),
{
}

#[verifier::rlimit(50)]
#[verifier::spinoff_prover]
proof fn lemma_array_spaceship_line_41(t: Target)
    requires
        t.arch == Arch::AArch64,
    ensures
        array_spaceship(Seq::empty(), t)[41] == ins("cbnz x0, __rt_arr_ss_ret"),
{
}

#[verifier::rlimit(50)]
#[verifier::spinoff_prover]
proof fn lemma_array_spaceship_line_42(t: Target)
    requires
        t.arch == Arch::AArch64,
    ensures
        array_spaceship(Seq::empty(), t)[42] == label("__rt_arr_ss_next"),
{
}

#[verifier::rlimit(50)]
#[verifier::spinoff_prover]
proof fn lemma_array_spaceship_line_43(t: Target)
    requires
        t.arch == Arch::AArch64,
    ensures
        array_spaceship(Seq::empty(), t)[43] == ins("add x22, x22, #1"),
{
}

#[verifier::rlimit(50)]
#[verifier::spinoff_prover]
proof fn lemma_array_spaceship_line_44(t: Target)
    requires
        t.arch == Arch::AArch64,
    ensures
        array_spaceship(Seq::empty(), t)[44] == ins("b __rt_arr_ss_loop"),
{
}

#[verifier::rlimit(50)]
#[verifier::spinoff_prover]
proof fn lemma_array_spaceship_line_45(t: Target)
    requires
        t.arch == Arch::AArch64,
    ensures
        array_spaceship(Seq::empty(), t)[45] == label("__rt_arr_ss_less"),
{
}

#[verifier::rlimit(50)]
#[verifier::spinoff_prover]
proof fn lemma_array_spaceship_line_46(t: Target)
    requires
        t.arch == Arch::AArch64,
    ensures
        array_spaceship(Seq::empty(), t)[46] == ins("mov x0, #-1"),
{
}

#[verifier::rlimit(50)]
#[verifier::spinoff_prover]
proof fn lemma_array_spaceship_line_47(t: Target)
    requires
        t.arch == Arch::AArch64,
    ensures
        array_spaceship(Seq::empty(), t)[47] == ins("b __rt_arr_ss_ret"),
{
}

#[verifier::rlimit(50)]
#[verifier::spinoff_prover]
proof fn lemma_array_spaceship_line_48(t: Target)
    requires
        t.arch == Arch::AArch64,
    ensures
        array_spaceship(Seq::empty(), t)[48] == label("__rt_arr_ss_greater"),
{
}

#[verifier::rlimit(50)]
#[verifier::spinoff_prover]
proof fn lemma_array_spaceship_line_49(t: Target)
    requires
        t.arch == Arch::AArch64,
    ensures
        array_spaceship(Seq::empty(), t)[49] == ins("mov x0, #1"),
{
}

#[verifier::rlimit(50)]
#[verifier::spinoff_prover]
proof fn lemma_array_spaceship_line_50(t: Target)
    requires
        t.arch == Arch::AArch64,
    ensures
        array_spaceship(Seq::empty(), t)[50] == ins("b __rt_arr_ss_ret"),
{
}

#[verifier::rlimit(50)]
#[verifier::spinoff_prover]
proof fn lemma_array_spaceship_line_51(t: Target)
    requires
        t.arch == Arch::AArch64,
    ensures
        array_spaceship(Seq::empty(), t)[51] == label("__rt_arr_ss_equal"),
{
}

#[verifier::rlimit(50)]
#[verifier::spinoff_prover]
proof fn lemma_array_spaceship_line_52(t: Target)
    requires
        t.arch == Arch::AArch64,
    ensures
        array_spaceship(Seq::empty(), t)[52] == ins("mov x0, #0"),
{
}

#[verifier::rlimit(50)]
#[verifier::spinoff_prover]
proof fn lemma_array_spaceship_line_53(t: Target)
    requires
        t.arch == Arch::AArch64,
    ensures
        array_spaceship(Seq::empty(), t)[53] == label("__rt_arr_ss_ret"),
{
}

#[verifier::rlimit(50)]
#[verifier::spinoff_prover]
proof fn lemma_array_spaceship_line_54(t: Target)
    requires
        t.arch == Arch::AArch64,
    ensures
        array_spaceship(Seq::empty(), t)[54] == ins("ldr x23, [sp, #0]"),
{
}

#[verifier::rlimit(50)]
#[verifier::spinoff_prover]
proof fn lemma_array_spaceship_line_55(t: Target)
    requires
        t.arch == Arch::AArch64,
    ensures
        array_spaceship(Seq::empty(), t)[55] == ins("ldp x21, x22, [sp, #16]"),
{
}

#[verifier::rlimit(50)]
#[verifier::spinoff_prover]
proof fn lemma_array_spaceship_line_56(t: Target)
    requires
        t.arch == Arch::AArch64,
    ensures
        array_spaceship(Seq::empty(), t)[56] == ins("ldp x19, x20, [sp, #32]"),
{
}

#[verifier::rlimit(50)]
#[verifier::spinoff_prover]
proof fn lemma_array_spaceship_line_57(t: Target)
    requires
        t.arch == Arch::AArch64,
    ensures
        array_spaceship(Seq::empty(), t)[57] == ins("ldp x29, x30, [sp, #48]"),
{
}

#[verifier::rlimit(50)]
#[verifier::spinoff_prover]
proof fn lemma_array_spaceship_line_58(t: Target)
    requires
        t.arch == Arch::AArch64,
    ensures
        array_spaceship(Seq::empty(), t)[58] == ins("add sp, sp, #64"),
{
}

#[verifier::rlimit(50)]
#[verifier::spinoff_prover]
proof fn lemma_array_spaceship_line_59(t: Target)
    requires
        t.arch == Arch::AArch64,
    ensures
        array_spaceship(Seq::empty(), t)[59] == ins("ret"),
{
}

#[verifier::rlimit(50)]
#[verifier::spinoff_prover]
proof fn lemma_array_spaceship_length(t: Target)
    requires
        t.arch == Arch::AArch64,
    ensures
        array_spaceship(Seq::empty(), t).len() == 60,
{
}

/// The lines of the AArch64 `array_spaceship` block.
#[verifier::rlimit(50)]
proof fn lemma_array_spaceship_lines(t: Target)
    requires
        t.arch == Arch::AArch64,
    ensures
        ({
            let lines = array_spaceship(Seq::empty(), t);
            &&& lines.len() == 60
            &&& lines[0] == Line::Blank
            &&& lines[1] == comment("--- runtime: array_spaceship ---")
            &&& lines[2] == global("__rt_array_spaceship")
            &&& lines[3] == ins("sub sp, sp, #64")
            &&& lines[4] == ins("stp x29, x30, [sp, #48]")
            &&& lines[5] == ins("add x29, sp, #48")
            &&& lines[6] == ins("stp x19, x20, [sp, #32]")
            &&& lines[7] == ins("stp x21, x22, [sp, #16]")
            &&& lines[8] == ins("str x23, [sp, #0]")
            &&& lines[9] == ins("mov x19, x1")
            &&& lines[10] == ins("mov x20, x2")
            &&& lines[11] == ins("mov x23, x3")
            &&& lines[12] == ins("ldr x21, [x19]")
            &&& lines[13] == ins("ldr x9, [x20]")
            &&& lines[14] == ins("cmp x21, x9")
            &&& lines[15] == ins("b.lt __rt_arr_ss_less")
            &&& lines[16] == ins("b.gt __rt_arr_ss_greater")
            &&& lines[17] == ins("mov x22, #0")
            &&& lines[18] == label("__rt_arr_ss_loop")
            &&& lines[19] == ins("cmp x22, x21")
            &&& lines[20] == ins("b.ge __rt_arr_ss_equal")
            &&& lines[21] == ins("cbnz x23, __rt_arr_ss_str")
            &&& lines[22] == ins("add x9, x19, #24")
            &&& lines[23] == ins("ldr x10, [x9, x22, lsl #3]")
            &&& lines[24] == ins("add x9, x20, #24")
            &&& lines[25] == ins("ldr x11, [x9, x22, lsl #3]")
            &&& lines[26] == ins("cmp x10, x11")
            &&& lines[27] == ins("b.lt __rt_arr_ss_less")
            &&& lines[28] == ins("b.gt __rt_arr_ss_greater")
            &&& lines[29] == ins("b __rt_arr_ss_next")
            &&& lines[30] == label("__rt_arr_ss_str")
            &&& lines[31] == ins("lsl x9, x22, #4")
            &&& lines[32] == ins("add x10, x19, #24")
            &&& lines[33] == ins("add x10, x10, x9")
            &&& lines[34] == ins("ldr x1, [x10]")
            &&& lines[35] == ins("ldr x2, [x10, #8]")
            &&& lines[36] == ins("add x10, x20, #24")
            &&& lines[37] == ins("add x10, x10, x9")
            &&& lines[38] == ins("ldr x3, [x10]")
            &&& lines[39] == ins("ldr x4, [x10, #8]")
            &&& lines[40] == ins("bl __rt_str_spaceship")
            &&& lines[41] == ins("cbnz x0, __rt_arr_ss_ret")
            &&& lines[42] == label("__rt_arr_ss_next")
            &&& lines[43] == ins("add x22, x22, #1")
            &&& lines[44] == ins("b __rt_arr_ss_loop")
            &&& lines[45] == label("__rt_arr_ss_less")
            &&& lines[46] == ins("mov x0, #-1")
            &&& lines[47] == ins("b __rt_arr_ss_ret")
            &&& lines[48] == label("__rt_arr_ss_greater")
            &&& lines[49] == ins("mov x0, #1")
            &&& lines[50] == ins("b __rt_arr_ss_ret")
            &&& lines[51] == label("__rt_arr_ss_equal")
            &&& lines[52] == ins("mov x0, #0")
            &&& lines[53] == label("__rt_arr_ss_ret")
            &&& lines[54] == ins("ldr x23, [sp, #0]")
            &&& lines[55] == ins("ldp x21, x22, [sp, #16]")
            &&& lines[56] == ins("ldp x19, x20, [sp, #32]")
            &&& lines[57] == ins("ldp x29, x30, [sp, #48]")
            &&& lines[58] == ins("add sp, sp, #64")
            &&& lines[59] == ins("ret")
        }),
{
    lemma_array_spaceship_length(t);
    lemma_array_spaceship_line_0(t);
    lemma_array_spaceship_line_1(t);
    lemma_array_spaceship_line_2(t);
    lemma_array_spaceship_line_3(t);
    lemma_array_spaceship_line_4(t);
    lemma_array_spaceship_line_5(t);
    lemma_array_spaceship_line_6(t);
    lemma_array_spaceship_line_7(t);
    lemma_array_spaceship_line_8(t);
    lemma_array_spaceship_line_9(t);
    lemma_array_spaceship_line_10(t);
    lemma_array_spaceship_line_11(t);
    lemma_array_spaceship_line_12(t);
    lemma_array_spaceship_line_13(t);
    lemma_array_spaceship_line_14(t);
    lemma_array_spaceship_line_15(t);
    lemma_array_spaceship_line_16(t);
    lemma_array_spaceship_line_17(t);
    lemma_array_spaceship_line_18(t);
    lemma_array_spaceship_line_19(t);
    lemma_array_spaceship_line_20(t);
    lemma_array_spaceship_line_21(t);
    lemma_array_spaceship_line_22(t);
    lemma_array_spaceship_line_23(t);
    lemma_array_spaceship_line_24(t);
    lemma_array_spaceship_line_25(t);
    lemma_array_spaceship_line_26(t);
    lemma_array_spaceship_line_27(t);
    lemma_array_spaceship_line_28(t);
    lemma_array_spaceship_line_29(t);
    lemma_array_spaceship_line_30(t);
    lemma_array_spaceship_line_31(t);
    lemma_array_spaceship_line_32(t);
    lemma_array_spaceship_line_33(t);
    lemma_array_spaceship_line_34(t);
    lemma_array_spaceship_line_35(t);
    lemma_array_spaceship_line_36(t);
    lemma_array_spaceship_line_37(t);
    lemma_array_spaceship_line_38(t);
    lemma_array_spaceship_line_39(t);
    lemma_array_spaceship_line_40(t);
    lemma_array_spaceship_line_41(t);
    lemma_array_spaceship_line_42(t);
    lemma_array_spaceship_line_43(t);
    lemma_array_spaceship_line_44(t);
    lemma_array_spaceship_line_45(t);
    lemma_array_spaceship_line_46(t);
    lemma_array_spaceship_line_47(t);
    lemma_array_spaceship_line_48(t);
    lemma_array_spaceship_line_49(t);
    lemma_array_spaceship_line_50(t);
    lemma_array_spaceship_line_51(t);
    lemma_array_spaceship_line_52(t);
    lemma_array_spaceship_line_53(t);
    lemma_array_spaceship_line_54(t);
    lemma_array_spaceship_line_55(t);
    lemma_array_spaceship_line_56(t);
    lemma_array_spaceship_line_57(t);
    lemma_array_spaceship_line_58(t);
    lemma_array_spaceship_line_59(t);
}

/// Where the `array_spaceship` lines define `__rt_array_spaceship`.
proof fn lemma_array_spaceship_finds_rt_array_spaceship(lines: Seq<Line>, t: Target)
    requires
        lines.len() == 60,
        lines[0] == Line::Blank,
        lines[1] == comment("--- runtime: array_spaceship ---"),
        lines[2] == global("__rt_array_spaceship"),
    ensures
        find_label(lines, "__rt_array_spaceship"@, 0) == 2,
{
    reveal_strlit("__rt_array_spaceship");
    assert(find_label(lines, "__rt_array_spaceship"@, 2) == 2);
    assert(find_label(lines, "__rt_array_spaceship"@, 1) == 2);
    assert(find_label(lines, "__rt_array_spaceship"@, 0) == 2);
}

/// Where the `array_spaceship` lines define `__rt_arr_ss_loop`.
proof fn lemma_array_spaceship_finds_rt_arr_ss_loop(lines: Seq<Line>, t: Target)
    requires
        lines.len() == 60,
        lines[0] == Line::Blank,
        lines[1] == comment("--- runtime: array_spaceship ---"),
        lines[2] == global("__rt_array_spaceship"),
        lines[3] == ins("sub sp, sp, #64"),
        lines[4] == ins("stp x29, x30, [sp, #48]"),
        lines[5] == ins("add x29, sp, #48"),
        lines[6] == ins("stp x19, x20, [sp, #32]"),
        lines[7] == ins("stp x21, x22, [sp, #16]"),
        lines[8] == ins("str x23, [sp, #0]"),
        lines[9] == ins("mov x19, x1"),
        lines[10] == ins("mov x20, x2"),
        lines[11] == ins("mov x23, x3"),
        lines[12] == ins("ldr x21, [x19]"),
        lines[13] == ins("ldr x9, [x20]"),
        lines[14] == ins("cmp x21, x9"),
        lines[15] == ins("b.lt __rt_arr_ss_less"),
        lines[16] == ins("b.gt __rt_arr_ss_greater"),
        lines[17] == ins("mov x22, #0"),
        lines[18] == label("__rt_arr_ss_loop"),
    ensures
        find_label(lines, "__rt_arr_ss_loop"@, 0) == 18,
{
    reveal_strlit("__rt_arr_ss_loop");
    reveal_strlit("__rt_array_spaceship");
    assert(find_label(lines, "__rt_arr_ss_loop"@, 18) == 18);
    assert(find_label(lines, "__rt_arr_ss_loop"@, 17) == 18);
    assert(find_label(lines, "__rt_arr_ss_loop"@, 16) == 18);
    assert(find_label(lines, "__rt_arr_ss_loop"@, 15) == 18);
    assert(find_label(lines, "__rt_arr_ss_loop"@, 14) == 18);
    assert(find_label(lines, "__rt_arr_ss_loop"@, 13) == 18);
    assert(find_label(lines, "__rt_arr_ss_loop"@, 12) == 18);
    assert(find_label(lines, "__rt_arr_ss_loop"@, 11) == 18);
    assert(find_label(lines, "__rt_arr_ss_loop"@, 10) == 18);
    assert(find_label(lines, "__rt_arr_ss_loop"@, 9) == 18);
    assert(find_label(lines, "__rt_arr_ss_loop"@, 8) == 18);
    assert(find_label(lines, "__rt_arr_ss_loop"@, 7) == 18);
    assert(find_label(lines, "__rt_arr_ss_loop"@, 6) == 18);
    assert(find_label(lines, "__rt_arr_ss_loop"@, 5) == 18);
    assert(find_label(lines, "__rt_arr_ss_loop"@, 4) == 18);
    assert(find_label(lines, "__rt_arr_ss_loop"@, 3) == 18);
    assert("__rt_array_spaceship"@.len() != "__rt_arr_ss_loop"@.len());
    assert(find_label(lines, "__rt_arr_ss_loop"@, 2) == 18);
    assert(find_label(lines, "__rt_arr_ss_loop"@, 1) == 18);
    assert(find_label(lines, "__rt_arr_ss_loop"@, 0) == 18);
}

/// Where the `array_spaceship` lines define `__rt_arr_ss_str`.
proof fn lemma_array_spaceship_finds_rt_arr_ss_str(lines: Seq<Line>, t: Target)
    requires
        lines.len() == 60,
        lines[0] == Line::Blank,
        lines[1] == comment("--- runtime: array_spaceship ---"),
        lines[2] == global("__rt_array_spaceship"),
        lines[3] == ins("sub sp, sp, #64"),
        lines[4] == ins("stp x29, x30, [sp, #48]"),
        lines[5] == ins("add x29, sp, #48"),
        lines[6] == ins("stp x19, x20, [sp, #32]"),
        lines[7] == ins("stp x21, x22, [sp, #16]"),
        lines[8] == ins("str x23, [sp, #0]"),
        lines[9] == ins("mov x19, x1"),
        lines[10] == ins("mov x20, x2"),
        lines[11] == ins("mov x23, x3"),
        lines[12] == ins("ldr x21, [x19]"),
        lines[13] == ins("ldr x9, [x20]"),
        lines[14] == ins("cmp x21, x9"),
        lines[15] == ins("b.lt __rt_arr_ss_less"),
        lines[16] == ins("b.gt __rt_arr_ss_greater"),
        lines[17] == ins("mov x22, #0"),
        lines[18] == label("__rt_arr_ss_loop"),
        lines[19] == ins("cmp x22, x21"),
        lines[20] == ins("b.ge __rt_arr_ss_equal"),
        lines[21] == ins("cbnz x23, __rt_arr_ss_str"),
        lines[22] == ins("add x9, x19, #24"),
        lines[23] == ins("ldr x10, [x9, x22, lsl #3]"),
        lines[24] == ins("add x9, x20, #24"),
        lines[25] == ins("ldr x11, [x9, x22, lsl #3]"),
        lines[26] == ins("cmp x10, x11"),
        lines[27] == ins("b.lt __rt_arr_ss_less"),
        lines[28] == ins("b.gt __rt_arr_ss_greater"),
        lines[29] == ins("b __rt_arr_ss_next"),
        lines[30] == label("__rt_arr_ss_str"),
    ensures
        find_label(lines, "__rt_arr_ss_str"@, 0) == 30,
{
    reveal_strlit("__rt_arr_ss_loop");
    reveal_strlit("__rt_arr_ss_str");
    reveal_strlit("__rt_array_spaceship");
    assert(find_label(lines, "__rt_arr_ss_str"@, 30) == 30);
    assert(find_label(lines, "__rt_arr_ss_str"@, 29) == 30);
    assert(find_label(lines, "__rt_arr_ss_str"@, 28) == 30);
    assert(find_label(lines, "__rt_arr_ss_str"@, 27) == 30);
    assert(find_label(lines, "__rt_arr_ss_str"@, 26) == 30);
    assert(find_label(lines, "__rt_arr_ss_str"@, 25) == 30);
    assert(find_label(lines, "__rt_arr_ss_str"@, 24) == 30);
    assert(find_label(lines, "__rt_arr_ss_str"@, 23) == 30);
    assert(find_label(lines, "__rt_arr_ss_str"@, 22) == 30);
    assert(find_label(lines, "__rt_arr_ss_str"@, 21) == 30);
    assert(find_label(lines, "__rt_arr_ss_str"@, 20) == 30);
    assert(find_label(lines, "__rt_arr_ss_str"@, 19) == 30);
    assert("__rt_arr_ss_loop"@.len() != "__rt_arr_ss_str"@.len());
    assert(find_label(lines, "__rt_arr_ss_str"@, 18) == 30);
    assert(find_label(lines, "__rt_arr_ss_str"@, 17) == 30);
    assert(find_label(lines, "__rt_arr_ss_str"@, 16) == 30);
    assert(find_label(lines, "__rt_arr_ss_str"@, 15) == 30);
    assert(find_label(lines, "__rt_arr_ss_str"@, 14) == 30);
    assert(find_label(lines, "__rt_arr_ss_str"@, 13) == 30);
    assert(find_label(lines, "__rt_arr_ss_str"@, 12) == 30);
    assert(find_label(lines, "__rt_arr_ss_str"@, 11) == 30);
    assert(find_label(lines, "__rt_arr_ss_str"@, 10) == 30);
    assert(find_label(lines, "__rt_arr_ss_str"@, 9) == 30);
    assert(find_label(lines, "__rt_arr_ss_str"@, 8) == 30);
    assert(find_label(lines, "__rt_arr_ss_str"@, 7) == 30);
    assert(find_label(lines, "__rt_arr_ss_str"@, 6) == 30);
    assert(find_label(lines, "__rt_arr_ss_str"@, 5) == 30);
    assert(find_label(lines, "__rt_arr_ss_str"@, 4) == 30);
    assert(find_label(lines, "__rt_arr_ss_str"@, 3) == 30);
    assert("__rt_array_spaceship"@.len() != "__rt_arr_ss_str"@.len());
    assert(find_label(lines, "__rt_arr_ss_str"@, 2) == 30);
    assert(find_label(lines, "__rt_arr_ss_str"@, 1) == 30);
    assert(find_label(lines, "__rt_arr_ss_str"@, 0) == 30);
}

/// Where the `array_spaceship` lines define `__rt_arr_ss_next`.
proof fn lemma_array_spaceship_finds_rt_arr_ss_next(lines: Seq<Line>, t: Target)
    requires
        lines.len() == 60,
        lines[0] == Line::Blank,
        lines[1] == comment("--- runtime: array_spaceship ---"),
        lines[2] == global("__rt_array_spaceship"),
        lines[3] == ins("sub sp, sp, #64"),
        lines[4] == ins("stp x29, x30, [sp, #48]"),
        lines[5] == ins("add x29, sp, #48"),
        lines[6] == ins("stp x19, x20, [sp, #32]"),
        lines[7] == ins("stp x21, x22, [sp, #16]"),
        lines[8] == ins("str x23, [sp, #0]"),
        lines[9] == ins("mov x19, x1"),
        lines[10] == ins("mov x20, x2"),
        lines[11] == ins("mov x23, x3"),
        lines[12] == ins("ldr x21, [x19]"),
        lines[13] == ins("ldr x9, [x20]"),
        lines[14] == ins("cmp x21, x9"),
        lines[15] == ins("b.lt __rt_arr_ss_less"),
        lines[16] == ins("b.gt __rt_arr_ss_greater"),
        lines[17] == ins("mov x22, #0"),
        lines[18] == label("__rt_arr_ss_loop"),
        lines[19] == ins("cmp x22, x21"),
        lines[20] == ins("b.ge __rt_arr_ss_equal"),
        lines[21] == ins("cbnz x23, __rt_arr_ss_str"),
        lines[22] == ins("add x9, x19, #24"),
        lines[23] == ins("ldr x10, [x9, x22, lsl #3]"),
        lines[24] == ins("add x9, x20, #24"),
        lines[25] == ins("ldr x11, [x9, x22, lsl #3]"),
        lines[26] == ins("cmp x10, x11"),
        lines[27] == ins("b.lt __rt_arr_ss_less"),
        lines[28] == ins("b.gt __rt_arr_ss_greater"),
        lines[29] == ins("b __rt_arr_ss_next"),
        lines[30] == label("__rt_arr_ss_str"),
        lines[31] == ins("lsl x9, x22, #4"),
        lines[32] == ins("add x10, x19, #24"),
        lines[33] == ins("add x10, x10, x9"),
        lines[34] == ins("ldr x1, [x10]"),
        lines[35] == ins("ldr x2, [x10, #8]"),
        lines[36] == ins("add x10, x20, #24"),
        lines[37] == ins("add x10, x10, x9"),
        lines[38] == ins("ldr x3, [x10]"),
        lines[39] == ins("ldr x4, [x10, #8]"),
        lines[40] == ins("bl __rt_str_spaceship"),
        lines[41] == ins("cbnz x0, __rt_arr_ss_ret"),
        lines[42] == label("__rt_arr_ss_next"),
    ensures
        find_label(lines, "__rt_arr_ss_next"@, 0) == 42,
{
    reveal_strlit("__rt_arr_ss_loop");
    reveal_strlit("__rt_arr_ss_next");
    reveal_strlit("__rt_arr_ss_str");
    reveal_strlit("__rt_array_spaceship");
    assert(find_label(lines, "__rt_arr_ss_next"@, 42) == 42);
    assert(find_label(lines, "__rt_arr_ss_next"@, 41) == 42);
    assert(find_label(lines, "__rt_arr_ss_next"@, 40) == 42);
    assert(find_label(lines, "__rt_arr_ss_next"@, 39) == 42);
    assert(find_label(lines, "__rt_arr_ss_next"@, 38) == 42);
    assert(find_label(lines, "__rt_arr_ss_next"@, 37) == 42);
    assert(find_label(lines, "__rt_arr_ss_next"@, 36) == 42);
    assert(find_label(lines, "__rt_arr_ss_next"@, 35) == 42);
    assert(find_label(lines, "__rt_arr_ss_next"@, 34) == 42);
    assert(find_label(lines, "__rt_arr_ss_next"@, 33) == 42);
    assert(find_label(lines, "__rt_arr_ss_next"@, 32) == 42);
    assert(find_label(lines, "__rt_arr_ss_next"@, 31) == 42);
    assert("__rt_arr_ss_str"@.len() != "__rt_arr_ss_next"@.len());
    assert(find_label(lines, "__rt_arr_ss_next"@, 30) == 42);
    assert(find_label(lines, "__rt_arr_ss_next"@, 29) == 42);
    assert(find_label(lines, "__rt_arr_ss_next"@, 28) == 42);
    assert(find_label(lines, "__rt_arr_ss_next"@, 27) == 42);
    assert(find_label(lines, "__rt_arr_ss_next"@, 26) == 42);
    assert(find_label(lines, "__rt_arr_ss_next"@, 25) == 42);
    assert(find_label(lines, "__rt_arr_ss_next"@, 24) == 42);
    assert(find_label(lines, "__rt_arr_ss_next"@, 23) == 42);
    assert(find_label(lines, "__rt_arr_ss_next"@, 22) == 42);
    assert(find_label(lines, "__rt_arr_ss_next"@, 21) == 42);
    assert(find_label(lines, "__rt_arr_ss_next"@, 20) == 42);
    assert(find_label(lines, "__rt_arr_ss_next"@, 19) == 42);
    assert("__rt_arr_ss_loop"@[12] != "__rt_arr_ss_next"@[12]);
    assert(find_label(lines, "__rt_arr_ss_next"@, 18) == 42);
    assert(find_label(lines, "__rt_arr_ss_next"@, 17) == 42);
    assert(find_label(lines, "__rt_arr_ss_next"@, 16) == 42);
    assert(find_label(lines, "__rt_arr_ss_next"@, 15) == 42);
    assert(find_label(lines, "__rt_arr_ss_next"@, 14) == 42);
    assert(find_label(lines, "__rt_arr_ss_next"@, 13) == 42);
    assert(find_label(lines, "__rt_arr_ss_next"@, 12) == 42);
    assert(find_label(lines, "__rt_arr_ss_next"@, 11) == 42);
    assert(find_label(lines, "__rt_arr_ss_next"@, 10) == 42);
    assert(find_label(lines, "__rt_arr_ss_next"@, 9) == 42);
    assert(find_label(lines, "__rt_arr_ss_next"@, 8) == 42);
    assert(find_label(lines, "__rt_arr_ss_next"@, 7) == 42);
    assert(find_label(lines, "__rt_arr_ss_next"@, 6) == 42);
    assert(find_label(lines, "__rt_arr_ss_next"@, 5) == 42);
    assert(find_label(lines, "__rt_arr_ss_next"@, 4) == 42);
    assert(find_label(lines, "__rt_arr_ss_next"@, 3) == 42);
    assert("__rt_array_spaceship"@.len() != "__rt_arr_ss_next"@.len());
    assert(find_label(lines, "__rt_arr_ss_next"@, 2) == 42);
    assert(find_label(lines, "__rt_arr_ss_next"@, 1) == 42);
    assert(find_label(lines, "__rt_arr_ss_next"@, 0) == 42);
}

/// Where the `array_spaceship` lines define `__rt_arr_ss_less`.
proof fn lemma_array_spaceship_finds_rt_arr_ss_less(lines: Seq<Line>, t: Target)
    requires
        lines.len() == 60,
        lines[0] == Line::Blank,
        lines[1] == comment("--- runtime: array_spaceship ---"),
        lines[2] == global("__rt_array_spaceship"),
        lines[3] == ins("sub sp, sp, #64"),
        lines[4] == ins("stp x29, x30, [sp, #48]"),
        lines[5] == ins("add x29, sp, #48"),
        lines[6] == ins("stp x19, x20, [sp, #32]"),
        lines[7] == ins("stp x21, x22, [sp, #16]"),
        lines[8] == ins("str x23, [sp, #0]"),
        lines[9] == ins("mov x19, x1"),
        lines[10] == ins("mov x20, x2"),
        lines[11] == ins("mov x23, x3"),
        lines[12] == ins("ldr x21, [x19]"),
        lines[13] == ins("ldr x9, [x20]"),
        lines[14] == ins("cmp x21, x9"),
        lines[15] == ins("b.lt __rt_arr_ss_less"),
        lines[16] == ins("b.gt __rt_arr_ss_greater"),
        lines[17] == ins("mov x22, #0"),
        lines[18] == label("__rt_arr_ss_loop"),
        lines[19] == ins("cmp x22, x21"),
        lines[20] == ins("b.ge __rt_arr_ss_equal"),
        lines[21] == ins("cbnz x23, __rt_arr_ss_str"),
        lines[22] == ins("add x9, x19, #24"),
        lines[23] == ins("ldr x10, [x9, x22, lsl #3]"),
        lines[24] == ins("add x9, x20, #24"),
        lines[25] == ins("ldr x11, [x9, x22, lsl #3]"),
        lines[26] == ins("cmp x10, x11"),
        lines[27] == ins("b.lt __rt_arr_ss_less"),
        lines[28] == ins("b.gt __rt_arr_ss_greater"),
        lines[29] == ins("b __rt_arr_ss_next"),
        lines[30] == label("__rt_arr_ss_str"),
        lines[31] == ins("lsl x9, x22, #4"),
        lines[32] == ins("add x10, x19, #24"),
        lines[33] == ins("add x10, x10, x9"),
        lines[34] == ins("ldr x1, [x10]"),
        lines[35] == ins("ldr x2, [x10, #8]"),
        lines[36] == ins("add x10, x20, #24"),
        lines[37] == ins("add x10, x10, x9"),
        lines[38] == ins("ldr x3, [x10]"),
        lines[39] == ins("ldr x4, [x10, #8]"),
        lines[40] == ins("bl __rt_str_spaceship"),
        lines[41] == ins("cbnz x0, __rt_arr_ss_ret"),
        lines[42] == label("__rt_arr_ss_next"),
        lines[43] == ins("add x22, x22, #1"),
        lines[44] == ins("b __rt_arr_ss_loop"),
        lines[45] == label("__rt_arr_ss_less"),
    ensures
        find_label(lines, "__rt_arr_ss_less"@, 0) == 45,
{
    reveal_strlit("__rt_arr_ss_less");
    reveal_strlit("__rt_arr_ss_loop");
    reveal_strlit("__rt_arr_ss_next");
    reveal_strlit("__rt_arr_ss_str");
    reveal_strlit("__rt_array_spaceship");
    assert(find_label(lines, "__rt_arr_ss_less"@, 45) == 45);
    assert(find_label(lines, "__rt_arr_ss_less"@, 44) == 45);
    assert(find_label(lines, "__rt_arr_ss_less"@, 43) == 45);
    assert("__rt_arr_ss_next"@[12] != "__rt_arr_ss_less"@[12]);
    assert(find_label(lines, "__rt_arr_ss_less"@, 42) == 45);
    assert(find_label(lines, "__rt_arr_ss_less"@, 41) == 45);
    assert(find_label(lines, "__rt_arr_ss_less"@, 40) == 45);
    assert(find_label(lines, "__rt_arr_ss_less"@, 39) == 45);
    assert(find_label(lines, "__rt_arr_ss_less"@, 38) == 45);
    assert(find_label(lines, "__rt_arr_ss_less"@, 37) == 45);
    assert(find_label(lines, "__rt_arr_ss_less"@, 36) == 45);
    assert(find_label(lines, "__rt_arr_ss_less"@, 35) == 45);
    assert(find_label(lines, "__rt_arr_ss_less"@, 34) == 45);
    assert(find_label(lines, "__rt_arr_ss_less"@, 33) == 45);
    assert(find_label(lines, "__rt_arr_ss_less"@, 32) == 45);
    assert(find_label(lines, "__rt_arr_ss_less"@, 31) == 45);
    assert("__rt_arr_ss_str"@.len() != "__rt_arr_ss_less"@.len());
    assert(find_label(lines, "__rt_arr_ss_less"@, 30) == 45);
    assert(find_label(lines, "__rt_arr_ss_less"@, 29) == 45);
    assert(find_label(lines, "__rt_arr_ss_less"@, 28) == 45);
    assert(find_label(lines, "__rt_arr_ss_less"@, 27) == 45);
    assert(find_label(lines, "__rt_arr_ss_less"@, 26) == 45);
    assert(find_label(lines, "__rt_arr_ss_less"@, 25) == 45);
    assert(find_label(lines, "__rt_arr_ss_less"@, 24) == 45);
    assert(find_label(lines, "__rt_arr_ss_less"@, 23) == 45);
    assert(find_label(lines, "__rt_arr_ss_less"@, 22) == 45);
    assert(find_label(lines, "__rt_arr_ss_less"@, 21) == 45);
    assert(find_label(lines, "__rt_arr_ss_less"@, 20) == 45);
    assert(find_label(lines, "__rt_arr_ss_less"@, 19) == 45);
    assert("__rt_arr_ss_loop"@[13] != "__rt_arr_ss_less"@[13]);
    assert(find_label(lines, "__rt_arr_ss_less"@, 18) == 45);
    assert(find_label(lines, "__rt_arr_ss_less"@, 17) == 45);
    assert(find_label(lines, "__rt_arr_ss_less"@, 16) == 45);
    assert(find_label(lines, "__rt_arr_ss_less"@, 15) == 45);
    assert(find_label(lines, "__rt_arr_ss_less"@, 14) == 45);
    assert(find_label(lines, "__rt_arr_ss_less"@, 13) == 45);
    assert(find_label(lines, "__rt_arr_ss_less"@, 12) == 45);
    assert(find_label(lines, "__rt_arr_ss_less"@, 11) == 45);
    assert(find_label(lines, "__rt_arr_ss_less"@, 10) == 45);
    assert(find_label(lines, "__rt_arr_ss_less"@, 9) == 45);
    assert(find_label(lines, "__rt_arr_ss_less"@, 8) == 45);
    assert(find_label(lines, "__rt_arr_ss_less"@, 7) == 45);
    assert(find_label(lines, "__rt_arr_ss_less"@, 6) == 45);
    assert(find_label(lines, "__rt_arr_ss_less"@, 5) == 45);
    assert(find_label(lines, "__rt_arr_ss_less"@, 4) == 45);
    assert(find_label(lines, "__rt_arr_ss_less"@, 3) == 45);
    assert("__rt_array_spaceship"@.len() != "__rt_arr_ss_less"@.len());
    assert(find_label(lines, "__rt_arr_ss_less"@, 2) == 45);
    assert(find_label(lines, "__rt_arr_ss_less"@, 1) == 45);
    assert(find_label(lines, "__rt_arr_ss_less"@, 0) == 45);
}

/// Where the `array_spaceship` lines define `__rt_arr_ss_greater`.
proof fn lemma_array_spaceship_finds_rt_arr_ss_greater(lines: Seq<Line>, t: Target)
    requires
        lines.len() == 60,
        lines[0] == Line::Blank,
        lines[1] == comment("--- runtime: array_spaceship ---"),
        lines[2] == global("__rt_array_spaceship"),
        lines[3] == ins("sub sp, sp, #64"),
        lines[4] == ins("stp x29, x30, [sp, #48]"),
        lines[5] == ins("add x29, sp, #48"),
        lines[6] == ins("stp x19, x20, [sp, #32]"),
        lines[7] == ins("stp x21, x22, [sp, #16]"),
        lines[8] == ins("str x23, [sp, #0]"),
        lines[9] == ins("mov x19, x1"),
        lines[10] == ins("mov x20, x2"),
        lines[11] == ins("mov x23, x3"),
        lines[12] == ins("ldr x21, [x19]"),
        lines[13] == ins("ldr x9, [x20]"),
        lines[14] == ins("cmp x21, x9"),
        lines[15] == ins("b.lt __rt_arr_ss_less"),
        lines[16] == ins("b.gt __rt_arr_ss_greater"),
        lines[17] == ins("mov x22, #0"),
        lines[18] == label("__rt_arr_ss_loop"),
        lines[19] == ins("cmp x22, x21"),
        lines[20] == ins("b.ge __rt_arr_ss_equal"),
        lines[21] == ins("cbnz x23, __rt_arr_ss_str"),
        lines[22] == ins("add x9, x19, #24"),
        lines[23] == ins("ldr x10, [x9, x22, lsl #3]"),
        lines[24] == ins("add x9, x20, #24"),
        lines[25] == ins("ldr x11, [x9, x22, lsl #3]"),
        lines[26] == ins("cmp x10, x11"),
        lines[27] == ins("b.lt __rt_arr_ss_less"),
        lines[28] == ins("b.gt __rt_arr_ss_greater"),
        lines[29] == ins("b __rt_arr_ss_next"),
        lines[30] == label("__rt_arr_ss_str"),
        lines[31] == ins("lsl x9, x22, #4"),
        lines[32] == ins("add x10, x19, #24"),
        lines[33] == ins("add x10, x10, x9"),
        lines[34] == ins("ldr x1, [x10]"),
        lines[35] == ins("ldr x2, [x10, #8]"),
        lines[36] == ins("add x10, x20, #24"),
        lines[37] == ins("add x10, x10, x9"),
        lines[38] == ins("ldr x3, [x10]"),
        lines[39] == ins("ldr x4, [x10, #8]"),
        lines[40] == ins("bl __rt_str_spaceship"),
        lines[41] == ins("cbnz x0, __rt_arr_ss_ret"),
        lines[42] == label("__rt_arr_ss_next"),
        lines[43] == ins("add x22, x22, #1"),
        lines[44] == ins("b __rt_arr_ss_loop"),
        lines[45] == label("__rt_arr_ss_less"),
        lines[46] == ins("mov x0, #-1"),
        lines[47] == ins("b __rt_arr_ss_ret"),
        lines[48] == label("__rt_arr_ss_greater"),
    ensures
        find_label(lines, "__rt_arr_ss_greater"@, 0) == 48,
{
    reveal_strlit("__rt_arr_ss_greater");
    reveal_strlit("__rt_arr_ss_less");
    reveal_strlit("__rt_arr_ss_loop");
    reveal_strlit("__rt_arr_ss_next");
    reveal_strlit("__rt_arr_ss_str");
    reveal_strlit("__rt_array_spaceship");
    assert(find_label(lines, "__rt_arr_ss_greater"@, 48) == 48);
    assert(find_label(lines, "__rt_arr_ss_greater"@, 47) == 48);
    assert(find_label(lines, "__rt_arr_ss_greater"@, 46) == 48);
    assert("__rt_arr_ss_less"@.len() != "__rt_arr_ss_greater"@.len());
    assert(find_label(lines, "__rt_arr_ss_greater"@, 45) == 48);
    assert(find_label(lines, "__rt_arr_ss_greater"@, 44) == 48);
    assert(find_label(lines, "__rt_arr_ss_greater"@, 43) == 48);
    assert("__rt_arr_ss_next"@.len() != "__rt_arr_ss_greater"@.len());
    assert(find_label(lines, "__rt_arr_ss_greater"@, 42) == 48);
    assert(find_label(lines, "__rt_arr_ss_greater"@, 41) == 48);
    assert(find_label(lines, "__rt_arr_ss_greater"@, 40) == 48);
    assert(find_label(lines, "__rt_arr_ss_greater"@, 39) == 48);
    assert(find_label(lines, "__rt_arr_ss_greater"@, 38) == 48);
    assert(find_label(lines, "__rt_arr_ss_greater"@, 37) == 48);
    assert(find_label(lines, "__rt_arr_ss_greater"@, 36) == 48);
    assert(find_label(lines, "__rt_arr_ss_greater"@, 35) == 48);
    assert(find_label(lines, "__rt_arr_ss_greater"@, 34) == 48);
    assert(find_label(lines, "__rt_arr_ss_greater"@, 33) == 48);
    assert(find_label(lines, "__rt_arr_ss_greater"@, 32) == 48);
    assert(find_label(lines, "__rt_arr_ss_greater"@, 31) == 48);
    assert("__rt_arr_ss_str"@.len() != "__rt_arr_ss_greater"@.len());
    assert(find_label(lines, "__rt_arr_ss_greater"@, 30) == 48);
    assert(find_label(lines, "__rt_arr_ss_greater"@, 29) == 48);
    assert(find_label(lines, "__rt_arr_ss_greater"@, 28) == 48);
    assert(find_label(lines, "__rt_arr_ss_greater"@, 27) == 48);
    assert(find_label(lines, "__rt_arr_ss_greater"@, 26) == 48);
    assert(find_label(lines, "__rt_arr_ss_greater"@, 25) == 48);
    assert(find_label(lines, "__rt_arr_ss_greater"@, 24) == 48);
    assert(find_label(lines, "__rt_arr_ss_greater"@, 23) == 48);
    assert(find_label(lines, "__rt_arr_ss_greater"@, 22) == 48);
    assert(find_label(lines, "__rt_arr_ss_greater"@, 21) == 48);
    assert(find_label(lines, "__rt_arr_ss_greater"@, 20) == 48);
    assert(find_label(lines, "__rt_arr_ss_greater"@, 19) == 48);
    assert("__rt_arr_ss_loop"@.len() != "__rt_arr_ss_greater"@.len());
    assert(find_label(lines, "__rt_arr_ss_greater"@, 18) == 48);
    assert(find_label(lines, "__rt_arr_ss_greater"@, 17) == 48);
    assert(find_label(lines, "__rt_arr_ss_greater"@, 16) == 48);
    assert(find_label(lines, "__rt_arr_ss_greater"@, 15) == 48);
    assert(find_label(lines, "__rt_arr_ss_greater"@, 14) == 48);
    assert(find_label(lines, "__rt_arr_ss_greater"@, 13) == 48);
    assert(find_label(lines, "__rt_arr_ss_greater"@, 12) == 48);
    assert(find_label(lines, "__rt_arr_ss_greater"@, 11) == 48);
    assert(find_label(lines, "__rt_arr_ss_greater"@, 10) == 48);
    assert(find_label(lines, "__rt_arr_ss_greater"@, 9) == 48);
    assert(find_label(lines, "__rt_arr_ss_greater"@, 8) == 48);
    assert(find_label(lines, "__rt_arr_ss_greater"@, 7) == 48);
    assert(find_label(lines, "__rt_arr_ss_greater"@, 6) == 48);
    assert(find_label(lines, "__rt_arr_ss_greater"@, 5) == 48);
    assert(find_label(lines, "__rt_arr_ss_greater"@, 4) == 48);
    assert(find_label(lines, "__rt_arr_ss_greater"@, 3) == 48);
    assert("__rt_array_spaceship"@.len() != "__rt_arr_ss_greater"@.len());
    assert(find_label(lines, "__rt_arr_ss_greater"@, 2) == 48);
    assert(find_label(lines, "__rt_arr_ss_greater"@, 1) == 48);
    assert(find_label(lines, "__rt_arr_ss_greater"@, 0) == 48);
}

/// Where the `array_spaceship` lines define `__rt_arr_ss_equal`.
proof fn lemma_array_spaceship_finds_rt_arr_ss_equal(lines: Seq<Line>, t: Target)
    requires
        lines.len() == 60,
        lines[0] == Line::Blank,
        lines[1] == comment("--- runtime: array_spaceship ---"),
        lines[2] == global("__rt_array_spaceship"),
        lines[3] == ins("sub sp, sp, #64"),
        lines[4] == ins("stp x29, x30, [sp, #48]"),
        lines[5] == ins("add x29, sp, #48"),
        lines[6] == ins("stp x19, x20, [sp, #32]"),
        lines[7] == ins("stp x21, x22, [sp, #16]"),
        lines[8] == ins("str x23, [sp, #0]"),
        lines[9] == ins("mov x19, x1"),
        lines[10] == ins("mov x20, x2"),
        lines[11] == ins("mov x23, x3"),
        lines[12] == ins("ldr x21, [x19]"),
        lines[13] == ins("ldr x9, [x20]"),
        lines[14] == ins("cmp x21, x9"),
        lines[15] == ins("b.lt __rt_arr_ss_less"),
        lines[16] == ins("b.gt __rt_arr_ss_greater"),
        lines[17] == ins("mov x22, #0"),
        lines[18] == label("__rt_arr_ss_loop"),
        lines[19] == ins("cmp x22, x21"),
        lines[20] == ins("b.ge __rt_arr_ss_equal"),
        lines[21] == ins("cbnz x23, __rt_arr_ss_str"),
        lines[22] == ins("add x9, x19, #24"),
        lines[23] == ins("ldr x10, [x9, x22, lsl #3]"),
        lines[24] == ins("add x9, x20, #24"),
        lines[25] == ins("ldr x11, [x9, x22, lsl #3]"),
        lines[26] == ins("cmp x10, x11"),
        lines[27] == ins("b.lt __rt_arr_ss_less"),
        lines[28] == ins("b.gt __rt_arr_ss_greater"),
        lines[29] == ins("b __rt_arr_ss_next"),
        lines[30] == label("__rt_arr_ss_str"),
        lines[31] == ins("lsl x9, x22, #4"),
        lines[32] == ins("add x10, x19, #24"),
        lines[33] == ins("add x10, x10, x9"),
        lines[34] == ins("ldr x1, [x10]"),
        lines[35] == ins("ldr x2, [x10, #8]"),
        lines[36] == ins("add x10, x20, #24"),
        lines[37] == ins("add x10, x10, x9"),
        lines[38] == ins("ldr x3, [x10]"),
        lines[39] == ins("ldr x4, [x10, #8]"),
        lines[40] == ins("bl __rt_str_spaceship"),
        lines[41] == ins("cbnz x0, __rt_arr_ss_ret"),
        lines[42] == label("__rt_arr_ss_next"),
        lines[43] == ins("add x22, x22, #1"),
        lines[44] == ins("b __rt_arr_ss_loop"),
        lines[45] == label("__rt_arr_ss_less"),
        lines[46] == ins("mov x0, #-1"),
        lines[47] == ins("b __rt_arr_ss_ret"),
        lines[48] == label("__rt_arr_ss_greater"),
        lines[49] == ins("mov x0, #1"),
        lines[50] == ins("b __rt_arr_ss_ret"),
        lines[51] == label("__rt_arr_ss_equal"),
    ensures
        find_label(lines, "__rt_arr_ss_equal"@, 0) == 51,
{
    reveal_strlit("__rt_arr_ss_equal");
    reveal_strlit("__rt_arr_ss_greater");
    reveal_strlit("__rt_arr_ss_less");
    reveal_strlit("__rt_arr_ss_loop");
    reveal_strlit("__rt_arr_ss_next");
    reveal_strlit("__rt_arr_ss_str");
    reveal_strlit("__rt_array_spaceship");
    assert(find_label(lines, "__rt_arr_ss_equal"@, 51) == 51);
    assert(find_label(lines, "__rt_arr_ss_equal"@, 50) == 51);
    assert(find_label(lines, "__rt_arr_ss_equal"@, 49) == 51);
    assert("__rt_arr_ss_greater"@.len() != "__rt_arr_ss_equal"@.len());
    assert(find_label(lines, "__rt_arr_ss_equal"@, 48) == 51);
    assert(find_label(lines, "__rt_arr_ss_equal"@, 47) == 51);
    assert(find_label(lines, "__rt_arr_ss_equal"@, 46) == 51);
    assert("__rt_arr_ss_less"@.len() != "__rt_arr_ss_equal"@.len());
    assert(find_label(lines, "__rt_arr_ss_equal"@, 45) == 51);
    assert(find_label(lines, "__rt_arr_ss_equal"@, 44) == 51);
    assert(find_label(lines, "__rt_arr_ss_equal"@, 43) == 51);
    assert("__rt_arr_ss_next"@.len() != "__rt_arr_ss_equal"@.len());
    assert(find_label(lines, "__rt_arr_ss_equal"@, 42) == 51);
    assert(find_label(lines, "__rt_arr_ss_equal"@, 41) == 51);
    assert(find_label(lines, "__rt_arr_ss_equal"@, 40) == 51);
    assert(find_label(lines, "__rt_arr_ss_equal"@, 39) == 51);
    assert(find_label(lines, "__rt_arr_ss_equal"@, 38) == 51);
    assert(find_label(lines, "__rt_arr_ss_equal"@, 37) == 51);
    assert(find_label(lines, "__rt_arr_ss_equal"@, 36) == 51);
    assert(find_label(lines, "__rt_arr_ss_equal"@, 35) == 51);
    assert(find_label(lines, "__rt_arr_ss_equal"@, 34) == 51);
    assert(find_label(lines, "__rt_arr_ss_equal"@, 33) == 51);
    assert(find_label(lines, "__rt_arr_ss_equal"@, 32) == 51);
    assert(find_label(lines, "__rt_arr_ss_equal"@, 31) == 51);
    assert("__rt_arr_ss_str"@.len() != "__rt_arr_ss_equal"@.len());
    assert(find_label(lines, "__rt_arr_ss_equal"@, 30) == 51);
    assert(find_label(lines, "__rt_arr_ss_equal"@, 29) == 51);
    assert(find_label(lines, "__rt_arr_ss_equal"@, 28) == 51);
    assert(find_label(lines, "__rt_arr_ss_equal"@, 27) == 51);
    assert(find_label(lines, "__rt_arr_ss_equal"@, 26) == 51);
    assert(find_label(lines, "__rt_arr_ss_equal"@, 25) == 51);
    assert(find_label(lines, "__rt_arr_ss_equal"@, 24) == 51);
    assert(find_label(lines, "__rt_arr_ss_equal"@, 23) == 51);
    assert(find_label(lines, "__rt_arr_ss_equal"@, 22) == 51);
    assert(find_label(lines, "__rt_arr_ss_equal"@, 21) == 51);
    assert(find_label(lines, "__rt_arr_ss_equal"@, 20) == 51);
    assert(find_label(lines, "__rt_arr_ss_equal"@, 19) == 51);
    assert("__rt_arr_ss_loop"@.len() != "__rt_arr_ss_equal"@.len());
    assert(find_label(lines, "__rt_arr_ss_equal"@, 18) == 51);
    assert(find_label(lines, "__rt_arr_ss_equal"@, 17) == 51);
    assert(find_label(lines, "__rt_arr_ss_equal"@, 16) == 51);
    assert(find_label(lines, "__rt_arr_ss_equal"@, 15) == 51);
    assert(find_label(lines, "__rt_arr_ss_equal"@, 14) == 51);
    assert(find_label(lines, "__rt_arr_ss_equal"@, 13) == 51);
    assert(find_label(lines, "__rt_arr_ss_equal"@, 12) == 51);
    assert(find_label(lines, "__rt_arr_ss_equal"@, 11) == 51);
    assert(find_label(lines, "__rt_arr_ss_equal"@, 10) == 51);
    assert(find_label(lines, "__rt_arr_ss_equal"@, 9) == 51);
    assert(find_label(lines, "__rt_arr_ss_equal"@, 8) == 51);
    assert(find_label(lines, "__rt_arr_ss_equal"@, 7) == 51);
    assert(find_label(lines, "__rt_arr_ss_equal"@, 6) == 51);
    assert(find_label(lines, "__rt_arr_ss_equal"@, 5) == 51);
    assert(find_label(lines, "__rt_arr_ss_equal"@, 4) == 51);
    assert(find_label(lines, "__rt_arr_ss_equal"@, 3) == 51);
    assert("__rt_array_spaceship"@.len() != "__rt_arr_ss_equal"@.len());
    assert(find_label(lines, "__rt_arr_ss_equal"@, 2) == 51);
    assert(find_label(lines, "__rt_arr_ss_equal"@, 1) == 51);
    assert(find_label(lines, "__rt_arr_ss_equal"@, 0) == 51);
}

/// Where the `array_spaceship` lines define `__rt_arr_ss_ret`.
proof fn lemma_array_spaceship_finds_rt_arr_ss_ret(lines: Seq<Line>, t: Target)
    requires
        lines.len() == 60,
        lines[0] == Line::Blank,
        lines[1] == comment("--- runtime: array_spaceship ---"),
        lines[2] == global("__rt_array_spaceship"),
        lines[3] == ins("sub sp, sp, #64"),
        lines[4] == ins("stp x29, x30, [sp, #48]"),
        lines[5] == ins("add x29, sp, #48"),
        lines[6] == ins("stp x19, x20, [sp, #32]"),
        lines[7] == ins("stp x21, x22, [sp, #16]"),
        lines[8] == ins("str x23, [sp, #0]"),
        lines[9] == ins("mov x19, x1"),
        lines[10] == ins("mov x20, x2"),
        lines[11] == ins("mov x23, x3"),
        lines[12] == ins("ldr x21, [x19]"),
        lines[13] == ins("ldr x9, [x20]"),
        lines[14] == ins("cmp x21, x9"),
        lines[15] == ins("b.lt __rt_arr_ss_less"),
        lines[16] == ins("b.gt __rt_arr_ss_greater"),
        lines[17] == ins("mov x22, #0"),
        lines[18] == label("__rt_arr_ss_loop"),
        lines[19] == ins("cmp x22, x21"),
        lines[20] == ins("b.ge __rt_arr_ss_equal"),
        lines[21] == ins("cbnz x23, __rt_arr_ss_str"),
        lines[22] == ins("add x9, x19, #24"),
        lines[23] == ins("ldr x10, [x9, x22, lsl #3]"),
        lines[24] == ins("add x9, x20, #24"),
        lines[25] == ins("ldr x11, [x9, x22, lsl #3]"),
        lines[26] == ins("cmp x10, x11"),
        lines[27] == ins("b.lt __rt_arr_ss_less"),
        lines[28] == ins("b.gt __rt_arr_ss_greater"),
        lines[29] == ins("b __rt_arr_ss_next"),
        lines[30] == label("__rt_arr_ss_str"),
        lines[31] == ins("lsl x9, x22, #4"),
        lines[32] == ins("add x10, x19, #24"),
        lines[33] == ins("add x10, x10, x9"),
        lines[34] == ins("ldr x1, [x10]"),
        lines[35] == ins("ldr x2, [x10, #8]"),
        lines[36] == ins("add x10, x20, #24"),
        lines[37] == ins("add x10, x10, x9"),
        lines[38] == ins("ldr x3, [x10]"),
        lines[39] == ins("ldr x4, [x10, #8]"),
        lines[40] == ins("bl __rt_str_spaceship"),
        lines[41] == ins("cbnz x0, __rt_arr_ss_ret"),
        lines[42] == label("__rt_arr_ss_next"),
        lines[43] == ins("add x22, x22, #1"),
        lines[44] == ins("b __rt_arr_ss_loop"),
        lines[45] == label("__rt_arr_ss_less"),
        lines[46] == ins("mov x0, #-1"),
        lines[47] == ins("b __rt_arr_ss_ret"),
        lines[48] == label("__rt_arr_ss_greater"),
        lines[49] == ins("mov x0, #1"),
        lines[50] == ins("b __rt_arr_ss_ret"),
        lines[51] == label("__rt_arr_ss_equal"),
        lines[52] == ins("mov x0, #0"),
        lines[53] == label("__rt_arr_ss_ret"),
    ensures
        find_label(lines, "__rt_arr_ss_ret"@, 0) == 53,
{
    reveal_strlit("__rt_arr_ss_equal");
    reveal_strlit("__rt_arr_ss_greater");
    reveal_strlit("__rt_arr_ss_less");
    reveal_strlit("__rt_arr_ss_loop");
    reveal_strlit("__rt_arr_ss_next");
    reveal_strlit("__rt_arr_ss_ret");
    reveal_strlit("__rt_arr_ss_str");
    reveal_strlit("__rt_array_spaceship");
    assert(find_label(lines, "__rt_arr_ss_ret"@, 53) == 53);
    assert(find_label(lines, "__rt_arr_ss_ret"@, 52) == 53);
    assert("__rt_arr_ss_equal"@.len() != "__rt_arr_ss_ret"@.len());
    assert(find_label(lines, "__rt_arr_ss_ret"@, 51) == 53);
    assert(find_label(lines, "__rt_arr_ss_ret"@, 50) == 53);
    assert(find_label(lines, "__rt_arr_ss_ret"@, 49) == 53);
    assert("__rt_arr_ss_greater"@.len() != "__rt_arr_ss_ret"@.len());
    assert(find_label(lines, "__rt_arr_ss_ret"@, 48) == 53);
    assert(find_label(lines, "__rt_arr_ss_ret"@, 47) == 53);
    assert(find_label(lines, "__rt_arr_ss_ret"@, 46) == 53);
    assert("__rt_arr_ss_less"@.len() != "__rt_arr_ss_ret"@.len());
    assert(find_label(lines, "__rt_arr_ss_ret"@, 45) == 53);
    assert(find_label(lines, "__rt_arr_ss_ret"@, 44) == 53);
    assert(find_label(lines, "__rt_arr_ss_ret"@, 43) == 53);
    assert("__rt_arr_ss_next"@.len() != "__rt_arr_ss_ret"@.len());
    assert(find_label(lines, "__rt_arr_ss_ret"@, 42) == 53);
    assert(find_label(lines, "__rt_arr_ss_ret"@, 41) == 53);
    assert(find_label(lines, "__rt_arr_ss_ret"@, 40) == 53);
    assert(find_label(lines, "__rt_arr_ss_ret"@, 39) == 53);
    assert(find_label(lines, "__rt_arr_ss_ret"@, 38) == 53);
    assert(find_label(lines, "__rt_arr_ss_ret"@, 37) == 53);
    assert(find_label(lines, "__rt_arr_ss_ret"@, 36) == 53);
    assert(find_label(lines, "__rt_arr_ss_ret"@, 35) == 53);
    assert(find_label(lines, "__rt_arr_ss_ret"@, 34) == 53);
    assert(find_label(lines, "__rt_arr_ss_ret"@, 33) == 53);
    assert(find_label(lines, "__rt_arr_ss_ret"@, 32) == 53);
    assert(find_label(lines, "__rt_arr_ss_ret"@, 31) == 53);
    assert("__rt_arr_ss_str"@[12] != "__rt_arr_ss_ret"@[12]);
    assert(find_label(lines, "__rt_arr_ss_ret"@, 30) == 53);
    assert(find_label(lines, "__rt_arr_ss_ret"@, 29) == 53);
    assert(find_label(lines, "__rt_arr_ss_ret"@, 28) == 53);
    assert(find_label(lines, "__rt_arr_ss_ret"@, 27) == 53);
    assert(find_label(lines, "__rt_arr_ss_ret"@, 26) == 53);
    assert(find_label(lines, "__rt_arr_ss_ret"@, 25) == 53);
    assert(find_label(lines, "__rt_arr_ss_ret"@, 24) == 53);
    assert(find_label(lines, "__rt_arr_ss_ret"@, 23) == 53);
    assert(find_label(lines, "__rt_arr_ss_ret"@, 22) == 53);
    assert(find_label(lines, "__rt_arr_ss_ret"@, 21) == 53);
    assert(find_label(lines, "__rt_arr_ss_ret"@, 20) == 53);
    assert(find_label(lines, "__rt_arr_ss_ret"@, 19) == 53);
    assert("__rt_arr_ss_loop"@.len() != "__rt_arr_ss_ret"@.len());
    assert(find_label(lines, "__rt_arr_ss_ret"@, 18) == 53);
    assert(find_label(lines, "__rt_arr_ss_ret"@, 17) == 53);
    assert(find_label(lines, "__rt_arr_ss_ret"@, 16) == 53);
    assert(find_label(lines, "__rt_arr_ss_ret"@, 15) == 53);
    assert(find_label(lines, "__rt_arr_ss_ret"@, 14) == 53);
    assert(find_label(lines, "__rt_arr_ss_ret"@, 13) == 53);
    assert(find_label(lines, "__rt_arr_ss_ret"@, 12) == 53);
    assert(find_label(lines, "__rt_arr_ss_ret"@, 11) == 53);
    assert(find_label(lines, "__rt_arr_ss_ret"@, 10) == 53);
    assert(find_label(lines, "__rt_arr_ss_ret"@, 9) == 53);
    assert(find_label(lines, "__rt_arr_ss_ret"@, 8) == 53);
    assert(find_label(lines, "__rt_arr_ss_ret"@, 7) == 53);
    assert(find_label(lines, "__rt_arr_ss_ret"@, 6) == 53);
    assert(find_label(lines, "__rt_arr_ss_ret"@, 5) == 53);
    assert(find_label(lines, "__rt_arr_ss_ret"@, 4) == 53);
    assert(find_label(lines, "__rt_arr_ss_ret"@, 3) == 53);
    assert("__rt_array_spaceship"@.len() != "__rt_arr_ss_ret"@.len());
    assert(find_label(lines, "__rt_arr_ss_ret"@, 2) == 53);
    assert(find_label(lines, "__rt_arr_ss_ret"@, 1) == 53);
    assert(find_label(lines, "__rt_arr_ss_ret"@, 0) == 53);
}

#[verifier::rlimit(50)]
#[verifier::spinoff_prover]
proof fn lemma_array_spaceship_decode_3()
    ensures
        decode("sub sp, sp, #64"@) == Some(Instr::Sub(31, 31, Operand::Imm(64))),
{
    reveal(decode);
    reveal_with_fuel(find_char, 19);
    reveal_strlit("sub sp, sp, #64");

}

#[verifier::rlimit(50)]
#[verifier::spinoff_prover]
proof fn lemma_array_spaceship_decode_4()
    ensures
        decode("stp x29, x30, [sp, #48]"@) == Some(Instr::Stp(29, 30, Address::Offset(31, 48))),
{
    reveal(decode);
    reveal_with_fuel(find_char, 27);
    reveal_strlit("stp x29, x30, [sp, #48]");

}

#[verifier::rlimit(50)]
#[verifier::spinoff_prover]
proof fn lemma_array_spaceship_decode_5()
    ensures
        decode("add x29, sp, #48"@) == Some(Instr::Add(29, 31, Operand::Imm(48))),
{
    reveal(decode);
    reveal_with_fuel(find_char, 20);
    reveal_strlit("add x29, sp, #48");

}

#[verifier::rlimit(50)]
#[verifier::spinoff_prover]
proof fn lemma_array_spaceship_decode_6()
    ensures
        decode("stp x19, x20, [sp, #32]"@) == Some(Instr::Stp(19, 20, Address::Offset(31, 32))),
{
    reveal(decode);
    reveal_with_fuel(find_char, 27);
    reveal_strlit("stp x19, x20, [sp, #32]");

}

#[verifier::rlimit(50)]
#[verifier::spinoff_prover]
proof fn lemma_array_spaceship_decode_7()
    ensures
        decode("stp x21, x22, [sp, #16]"@) == Some(Instr::Stp(21, 22, Address::Offset(31, 16))),
{
    reveal(decode);
    reveal_with_fuel(find_char, 27);
    reveal_strlit("stp x21, x22, [sp, #16]");

}

#[verifier::rlimit(50)]
#[verifier::spinoff_prover]
proof fn lemma_array_spaceship_decode_8()
    ensures
        decode("str x23, [sp, #0]"@) == Some(Instr::Str(23, Address::Offset(31, 0))),
{
    reveal(decode);
    reveal_with_fuel(find_char, 21);
    reveal_strlit("str x23, [sp, #0]");

}

#[verifier::rlimit(50)]
#[verifier::spinoff_prover]
proof fn lemma_array_spaceship_decode_9()
    ensures
        decode("mov x19, x1"@) == Some(Instr::Mov(19, Operand::Reg(1))),
{
    reveal(decode);
    reveal_with_fuel(find_char, 15);
    reveal_strlit("mov x19, x1");

}

#[verifier::rlimit(50)]
#[verifier::spinoff_prover]
proof fn lemma_array_spaceship_decode_10()
    ensures
        decode("mov x20, x2"@) == Some(Instr::Mov(20, Operand::Reg(2))),
{
    reveal(decode);
    reveal_with_fuel(find_char, 15);
    reveal_strlit("mov x20, x2");

}

#[verifier::rlimit(50)]
#[verifier::spinoff_prover]
proof fn lemma_array_spaceship_decode_11()
    ensures
        decode("mov x23, x3"@) == Some(Instr::Mov(23, Operand::Reg(3))),
{
    reveal(decode);
    reveal_with_fuel(find_char, 15);
    reveal_strlit("mov x23, x3");

}

#[verifier::rlimit(50)]
#[verifier::spinoff_prover]
proof fn lemma_array_spaceship_decode_12()
    ensures
        decode("ldr x21, [x19]"@) == Some(Instr::Ldr(21, Address::Offset(19, 0))),
{
    reveal(decode);
    reveal_with_fuel(find_char, 18);
    reveal_strlit("ldr x21, [x19]");

}

#[verifier::rlimit(50)]
#[verifier::spinoff_prover]
proof fn lemma_array_spaceship_decode_13()
    ensures
        decode("ldr x9, [x20]"@) == Some(Instr::Ldr(9, Address::Offset(20, 0))),
{
    reveal(decode);
    reveal_with_fuel(find_char, 17);
    reveal_strlit("ldr x9, [x20]");

}

#[verifier::rlimit(50)]
#[verifier::spinoff_prover]
proof fn lemma_array_spaceship_decode_14()
    ensures
        decode("cmp x21, x9"@) == Some(Instr::Cmp(21, Operand::Reg(9))),
{
    reveal(decode);
    reveal_with_fuel(find_char, 15);
    reveal_strlit("cmp x21, x9");

}

#[verifier::rlimit(50)]
#[verifier::spinoff_prover]
proof fn lemma_array_spaceship_decode_15()
    ensures
        decode("b.lt __rt_arr_ss_less"@) == Some(Instr::BCond(Cond::Lt, "__rt_arr_ss_less"@)),
{
    reveal(decode);
    reveal_with_fuel(find_char, 25);
    reveal_strlit("__rt_arr_ss_less");
    reveal_strlit("b.lt __rt_arr_ss_less");
    assert("b.lt __rt_arr_ss_less"@.subrange(5, 21) =~= "__rt_arr_ss_less"@);
}

#[verifier::rlimit(50)]
#[verifier::spinoff_prover]
proof fn lemma_array_spaceship_decode_16()
    ensures
        decode("b.gt __rt_arr_ss_greater"@) == Some(Instr::BCond(Cond::Gt, "__rt_arr_ss_greater"@)),
{
    reveal(decode);
    reveal_with_fuel(find_char, 28);
    reveal_strlit("__rt_arr_ss_greater");
    reveal_strlit("b.gt __rt_arr_ss_greater");
    assert("b.gt __rt_arr_ss_greater"@.subrange(5, 24) =~= "__rt_arr_ss_greater"@);
}

#[verifier::rlimit(50)]
#[verifier::spinoff_prover]
proof fn lemma_array_spaceship_decode_17()
    ensures
        decode("mov x22, #0"@) == Some(Instr::Mov(22, Operand::Imm(0))),
{
    reveal(decode);
    reveal_with_fuel(find_char, 15);
    reveal_strlit("mov x22, #0");

}

#[verifier::rlimit(50)]
#[verifier::spinoff_prover]
proof fn lemma_array_spaceship_decode_19()
    ensures
        decode("cmp x22, x21"@) == Some(Instr::Cmp(22, Operand::Reg(21))),
{
    reveal(decode);
    reveal_with_fuel(find_char, 16);
    reveal_strlit("cmp x22, x21");

}

#[verifier::rlimit(50)]
#[verifier::spinoff_prover]
proof fn lemma_array_spaceship_decode_20()
    ensures
        decode("b.ge __rt_arr_ss_equal"@) == Some(Instr::BCond(Cond::Ge, "__rt_arr_ss_equal"@)),
{
    reveal(decode);
    reveal_with_fuel(find_char, 26);
    reveal_strlit("__rt_arr_ss_equal");
    reveal_strlit("b.ge __rt_arr_ss_equal");
    assert("b.ge __rt_arr_ss_equal"@.subrange(5, 22) =~= "__rt_arr_ss_equal"@);
}

#[verifier::rlimit(50)]
#[verifier::spinoff_prover]
proof fn lemma_array_spaceship_decode_21()
    ensures
        decode("cbnz x23, __rt_arr_ss_str"@) == Some(Instr::Cbnz(23, "__rt_arr_ss_str"@)),
{
    reveal(decode);
    reveal_with_fuel(find_char, 29);
    reveal_strlit("__rt_arr_ss_str");
    reveal_strlit("cbnz x23, __rt_arr_ss_str");
    assert("cbnz x23, __rt_arr_ss_str"@.subrange(10, 25) =~= "__rt_arr_ss_str"@);
}

#[verifier::rlimit(50)]
#[verifier::spinoff_prover]
proof fn lemma_array_spaceship_decode_22()
    ensures
        decode("add x9, x19, #24"@) == Some(Instr::Add(9, 19, Operand::Imm(24))),
{
    reveal(decode);
    reveal_with_fuel(find_char, 20);
    reveal_strlit("add x9, x19, #24");

}

#[verifier::rlimit(50)]
#[verifier::spinoff_prover]
proof fn lemma_array_spaceship_decode_23()
    ensures
        decode("ldr x10, [x9, x22, lsl #3]"@) == Some(Instr::Ldr(10, Address::Indexed(9, 22, 3))),
{
    reveal(decode);
    reveal_with_fuel(find_char, 30);
    reveal_strlit("ldr x10, [x9, x22, lsl #3]");

}

#[verifier::rlimit(50)]
#[verifier::spinoff_prover]
proof fn lemma_array_spaceship_decode_24()
    ensures
        decode("add x9, x20, #24"@) == Some(Instr::Add(9, 20, Operand::Imm(24))),
{
    reveal(decode);
    reveal_with_fuel(find_char, 20);
    reveal_strlit("add x9, x20, #24");

}

#[verifier::rlimit(50)]
#[verifier::spinoff_prover]
proof fn lemma_array_spaceship_decode_25()
    ensures
        decode("ldr x11, [x9, x22, lsl #3]"@) == Some(Instr::Ldr(11, Address::Indexed(9, 22, 3))),
{
    reveal(decode);
    reveal_with_fuel(find_char, 30);
    reveal_strlit("ldr x11, [x9, x22, lsl #3]");

}

#[verifier::rlimit(50)]
#[verifier::spinoff_prover]
proof fn lemma_array_spaceship_decode_26()
    ensures
        decode("cmp x10, x11"@) == Some(Instr::Cmp(10, Operand::Reg(11))),
{
    reveal(decode);
    reveal_with_fuel(find_char, 16);
    reveal_strlit("cmp x10, x11");

}

#[verifier::rlimit(50)]
#[verifier::spinoff_prover]
proof fn lemma_array_spaceship_decode_29()
    ensures
        decode("b __rt_arr_ss_next"@) == Some(Instr::B("__rt_arr_ss_next"@)),
{
    reveal(decode);
    reveal_with_fuel(find_char, 22);
    reveal_strlit("__rt_arr_ss_next");
    reveal_strlit("b __rt_arr_ss_next");
    assert("b __rt_arr_ss_next"@.subrange(2, 18) =~= "__rt_arr_ss_next"@);
}

#[verifier::rlimit(50)]
#[verifier::spinoff_prover]
proof fn lemma_array_spaceship_decode_31()
    ensures
        decode("lsl x9, x22, #4"@) == Some(Instr::LslImm(9, 22, 4)),
{
    reveal(decode);
    reveal_with_fuel(find_char, 19);
    reveal_strlit("lsl x9, x22, #4");

}

#[verifier::rlimit(50)]
#[verifier::spinoff_prover]
proof fn lemma_array_spaceship_decode_32()
    ensures
        decode("add x10, x19, #24"@) == Some(Instr::Add(10, 19, Operand::Imm(24))),
{
    reveal(decode);
    reveal_with_fuel(find_char, 21);
    reveal_strlit("add x10, x19, #24");

}

#[verifier::rlimit(50)]
#[verifier::spinoff_prover]
proof fn lemma_array_spaceship_decode_33()
    ensures
        decode("add x10, x10, x9"@) == Some(Instr::Add(10, 10, Operand::Reg(9))),
{
    reveal(decode);
    reveal_with_fuel(find_char, 20);
    reveal_strlit("add x10, x10, x9");

}

#[verifier::rlimit(50)]
#[verifier::spinoff_prover]
proof fn lemma_array_spaceship_decode_34()
    ensures
        decode("ldr x1, [x10]"@) == Some(Instr::Ldr(1, Address::Offset(10, 0))),
{
    reveal(decode);
    reveal_with_fuel(find_char, 17);
    reveal_strlit("ldr x1, [x10]");

}

#[verifier::rlimit(50)]
#[verifier::spinoff_prover]
proof fn lemma_array_spaceship_decode_35()
    ensures
        decode("ldr x2, [x10, #8]"@) == Some(Instr::Ldr(2, Address::Offset(10, 8))),
{
    reveal(decode);
    reveal_with_fuel(find_char, 21);
    reveal_strlit("ldr x2, [x10, #8]");

}

#[verifier::rlimit(50)]
#[verifier::spinoff_prover]
proof fn lemma_array_spaceship_decode_36()
    ensures
        decode("add x10, x20, #24"@) == Some(Instr::Add(10, 20, Operand::Imm(24))),
{
    reveal(decode);
    reveal_with_fuel(find_char, 21);
    reveal_strlit("add x10, x20, #24");

}

#[verifier::rlimit(50)]
#[verifier::spinoff_prover]
proof fn lemma_array_spaceship_decode_38()
    ensures
        decode("ldr x3, [x10]"@) == Some(Instr::Ldr(3, Address::Offset(10, 0))),
{
    reveal(decode);
    reveal_with_fuel(find_char, 17);
    reveal_strlit("ldr x3, [x10]");

}

#[verifier::rlimit(50)]
#[verifier::spinoff_prover]
proof fn lemma_array_spaceship_decode_39()
    ensures
        decode("ldr x4, [x10, #8]"@) == Some(Instr::Ldr(4, Address::Offset(10, 8))),
{
    reveal(decode);
    reveal_with_fuel(find_char, 21);
    reveal_strlit("ldr x4, [x10, #8]");

}

#[verifier::rlimit(50)]
#[verifier::spinoff_prover]
proof fn lemma_array_spaceship_decode_40()
    ensures
        decode("bl __rt_str_spaceship"@) == Some(Instr::Bl("__rt_str_spaceship"@)),
{
    reveal(decode);
    reveal_with_fuel(find_char, 25);
    reveal_strlit("__rt_str_spaceship");
    reveal_strlit("bl __rt_str_spaceship");
    assert("bl __rt_str_spaceship"@.subrange(3, 21) =~= "__rt_str_spaceship"@);
}

#[verifier::rlimit(50)]
#[verifier::spinoff_prover]
proof fn lemma_array_spaceship_decode_41()
    ensures
        decode("cbnz x0, __rt_arr_ss_ret"@) == Some(Instr::Cbnz(0, "__rt_arr_ss_ret"@)),
{
    reveal(decode);
    reveal_with_fuel(find_char, 28);
    reveal_strlit("__rt_arr_ss_ret");
    reveal_strlit("cbnz x0, __rt_arr_ss_ret");
    assert("cbnz x0, __rt_arr_ss_ret"@.subrange(9, 24) =~= "__rt_arr_ss_ret"@);
}

#[verifier::rlimit(50)]
#[verifier::spinoff_prover]
proof fn lemma_array_spaceship_decode_43()
    ensures
        decode("add x22, x22, #1"@) == Some(Instr::Add(22, 22, Operand::Imm(1))),
{
    reveal(decode);
    reveal_with_fuel(find_char, 20);
    reveal_strlit("add x22, x22, #1");

}

#[verifier::rlimit(50)]
#[verifier::spinoff_prover]
proof fn lemma_array_spaceship_decode_44()
    ensures
        decode("b __rt_arr_ss_loop"@) == Some(Instr::B("__rt_arr_ss_loop"@)),
{
    reveal(decode);
    reveal_with_fuel(find_char, 22);
    reveal_strlit("__rt_arr_ss_loop");
    reveal_strlit("b __rt_arr_ss_loop");
    assert("b __rt_arr_ss_loop"@.subrange(2, 18) =~= "__rt_arr_ss_loop"@);
}

#[verifier::rlimit(50)]
#[verifier::spinoff_prover]
proof fn lemma_array_spaceship_decode_46()
    ensures
        decode("mov x0, #-1"@) == Some(Instr::Mov(0, Operand::Imm(-1))),
{
    reveal(decode);
    reveal_with_fuel(find_char, 15);
    reveal_strlit("mov x0, #-1");

}

#[verifier::rlimit(50)]
#[verifier::spinoff_prover]
proof fn lemma_array_spaceship_decode_47()
    ensures
        decode("b __rt_arr_ss_ret"@) == Some(Instr::B("__rt_arr_ss_ret"@)),
{
    reveal(decode);
    reveal_with_fuel(find_char, 21);
    reveal_strlit("__rt_arr_ss_ret");
    reveal_strlit("b __rt_arr_ss_ret");
    assert("b __rt_arr_ss_ret"@.subrange(2, 17) =~= "__rt_arr_ss_ret"@);
}

#[verifier::rlimit(50)]
#[verifier::spinoff_prover]
proof fn lemma_array_spaceship_decode_49()
    ensures
        decode("mov x0, #1"@) == Some(Instr::Mov(0, Operand::Imm(1))),
{
    reveal(decode);
    reveal_with_fuel(find_char, 14);
    reveal_strlit("mov x0, #1");

}

#[verifier::rlimit(50)]
#[verifier::spinoff_prover]
proof fn lemma_array_spaceship_decode_52()
    ensures
        decode("mov x0, #0"@) == Some(Instr::Mov(0, Operand::Imm(0))),
{
    reveal(decode);
    reveal_with_fuel(find_char, 14);
    reveal_strlit("mov x0, #0");

}

#[verifier::rlimit(50)]
#[verifier::spinoff_prover]
proof fn lemma_array_spaceship_decode_54()
    ensures
        decode("ldr x23, [sp, #0]"@) == Some(Instr::Ldr(23, Address::Offset(31, 0))),
{
    reveal(decode);
    reveal_with_fuel(find_char, 21);
    reveal_strlit("ldr x23, [sp, #0]");

}

#[verifier::rlimit(50)]
#[verifier::spinoff_prover]
proof fn lemma_array_spaceship_decode_55()
    ensures
        decode("ldp x21, x22, [sp, #16]"@) == Some(Instr::Ldp(21, 22, Address::Offset(31, 16))),
{
    reveal(decode);
    reveal_with_fuel(find_char, 27);
    reveal_strlit("ldp x21, x22, [sp, #16]");

}

#[verifier::rlimit(50)]
#[verifier::spinoff_prover]
proof fn lemma_array_spaceship_decode_56()
    ensures
        decode("ldp x19, x20, [sp, #32]"@) == Some(Instr::Ldp(19, 20, Address::Offset(31, 32))),
{
    reveal(decode);
    reveal_with_fuel(find_char, 27);
    reveal_strlit("ldp x19, x20, [sp, #32]");

}

#[verifier::rlimit(50)]
#[verifier::spinoff_prover]
proof fn lemma_array_spaceship_decode_57()
    ensures
        decode("ldp x29, x30, [sp, #48]"@) == Some(Instr::Ldp(29, 30, Address::Offset(31, 48))),
{
    reveal(decode);
    reveal_with_fuel(find_char, 27);
    reveal_strlit("ldp x29, x30, [sp, #48]");

}

#[verifier::rlimit(50)]
#[verifier::spinoff_prover]
proof fn lemma_array_spaceship_decode_58()
    ensures
        decode("add sp, sp, #64"@) == Some(Instr::Add(31, 31, Operand::Imm(64))),
{
    reveal(decode);
    reveal_with_fuel(find_char, 19);
    reveal_strlit("add sp, sp, #64");

}

#[verifier::rlimit(50)]
#[verifier::spinoff_prover]
proof fn lemma_array_spaceship_decode_59()
    ensures
        decode("ret"@) == Some(Instr::Ret),
{
    reveal(decode);
    reveal_with_fuel(find_char, 7);
    reveal_strlit("ret");

}

/// How the model reads the AArch64 `__rt_array_spaceship` lines: what each line on the
/// paths of both element modes decodes to, and where the labels those paths reach stand.
pub open spec fn array_spaceship_shape(lines: Seq<Line>) -> bool {
    &&& lines.len() == 60
    &&& !(lines[2] is Instruction)
    &&& lines[3] is Instruction && decode(instruction_text(lines[3])) == Some(Instr::Sub(31, 31, Operand::Imm(64)))
    &&& lines[4] is Instruction && decode(instruction_text(lines[4])) == Some(Instr::Stp(29, 30, Address::Offset(31, 48)))
    &&& lines[5] is Instruction && decode(instruction_text(lines[5])) == Some(Instr::Add(29, 31, Operand::Imm(48)))
    &&& lines[6] is Instruction && decode(instruction_text(lines[6])) == Some(Instr::Stp(19, 20, Address::Offset(31, 32)))
    &&& lines[7] is Instruction && decode(instruction_text(lines[7])) == Some(Instr::Stp(21, 22, Address::Offset(31, 16)))
    &&& lines[8] is Instruction && decode(instruction_text(lines[8])) == Some(Instr::Str(23, Address::Offset(31, 0)))
    &&& lines[9] is Instruction && decode(instruction_text(lines[9])) == Some(Instr::Mov(19, Operand::Reg(1)))
    &&& lines[10] is Instruction && decode(instruction_text(lines[10])) == Some(Instr::Mov(20, Operand::Reg(2)))
    &&& lines[11] is Instruction && decode(instruction_text(lines[11])) == Some(Instr::Mov(23, Operand::Reg(3)))
    &&& lines[12] is Instruction && decode(instruction_text(lines[12])) == Some(Instr::Ldr(21, Address::Offset(19, 0)))
    &&& lines[13] is Instruction && decode(instruction_text(lines[13])) == Some(Instr::Ldr(9, Address::Offset(20, 0)))
    &&& lines[14] is Instruction && decode(instruction_text(lines[14])) == Some(Instr::Cmp(21, Operand::Reg(9)))
    &&& lines[15] is Instruction && decode(instruction_text(lines[15])) == Some(Instr::BCond(Cond::Lt, "__rt_arr_ss_less"@))
    &&& lines[16] is Instruction && decode(instruction_text(lines[16])) == Some(Instr::BCond(Cond::Gt, "__rt_arr_ss_greater"@))
    &&& lines[17] is Instruction && decode(instruction_text(lines[17])) == Some(Instr::Mov(22, Operand::Imm(0)))
    &&& !(lines[18] is Instruction)
    &&& lines[19] is Instruction && decode(instruction_text(lines[19])) == Some(Instr::Cmp(22, Operand::Reg(21)))
    &&& lines[20] is Instruction && decode(instruction_text(lines[20])) == Some(Instr::BCond(Cond::Ge, "__rt_arr_ss_equal"@))
    &&& lines[21] is Instruction && decode(instruction_text(lines[21])) == Some(Instr::Cbnz(23, "__rt_arr_ss_str"@))
    &&& lines[22] is Instruction && decode(instruction_text(lines[22])) == Some(Instr::Add(9, 19, Operand::Imm(24)))
    &&& lines[23] is Instruction && decode(instruction_text(lines[23])) == Some(Instr::Ldr(10, Address::Indexed(9, 22, 3)))
    &&& lines[24] is Instruction && decode(instruction_text(lines[24])) == Some(Instr::Add(9, 20, Operand::Imm(24)))
    &&& lines[25] is Instruction && decode(instruction_text(lines[25])) == Some(Instr::Ldr(11, Address::Indexed(9, 22, 3)))
    &&& lines[26] is Instruction && decode(instruction_text(lines[26])) == Some(Instr::Cmp(10, Operand::Reg(11)))
    &&& lines[27] is Instruction && decode(instruction_text(lines[27])) == Some(Instr::BCond(Cond::Lt, "__rt_arr_ss_less"@))
    &&& lines[28] is Instruction && decode(instruction_text(lines[28])) == Some(Instr::BCond(Cond::Gt, "__rt_arr_ss_greater"@))
    &&& lines[29] is Instruction && decode(instruction_text(lines[29])) == Some(Instr::B("__rt_arr_ss_next"@))
    &&& !(lines[30] is Instruction)
    &&& lines[31] is Instruction && decode(instruction_text(lines[31])) == Some(Instr::LslImm(9, 22, 4))
    &&& lines[32] is Instruction && decode(instruction_text(lines[32])) == Some(Instr::Add(10, 19, Operand::Imm(24)))
    &&& lines[33] is Instruction && decode(instruction_text(lines[33])) == Some(Instr::Add(10, 10, Operand::Reg(9)))
    &&& lines[34] is Instruction && decode(instruction_text(lines[34])) == Some(Instr::Ldr(1, Address::Offset(10, 0)))
    &&& lines[35] is Instruction && decode(instruction_text(lines[35])) == Some(Instr::Ldr(2, Address::Offset(10, 8)))
    &&& lines[36] is Instruction && decode(instruction_text(lines[36])) == Some(Instr::Add(10, 20, Operand::Imm(24)))
    &&& lines[37] is Instruction && decode(instruction_text(lines[37])) == Some(Instr::Add(10, 10, Operand::Reg(9)))
    &&& lines[38] is Instruction && decode(instruction_text(lines[38])) == Some(Instr::Ldr(3, Address::Offset(10, 0)))
    &&& lines[39] is Instruction && decode(instruction_text(lines[39])) == Some(Instr::Ldr(4, Address::Offset(10, 8)))
    &&& lines[40] is Instruction && decode(instruction_text(lines[40])) == Some(Instr::Bl("__rt_str_spaceship"@))
    &&& lines[41] is Instruction && decode(instruction_text(lines[41])) == Some(Instr::Cbnz(0, "__rt_arr_ss_ret"@))
    &&& !(lines[42] is Instruction)
    &&& lines[43] is Instruction && decode(instruction_text(lines[43])) == Some(Instr::Add(22, 22, Operand::Imm(1)))
    &&& lines[44] is Instruction && decode(instruction_text(lines[44])) == Some(Instr::B("__rt_arr_ss_loop"@))
    &&& !(lines[45] is Instruction)
    &&& lines[46] is Instruction && decode(instruction_text(lines[46])) == Some(Instr::Mov(0, Operand::Imm(-1)))
    &&& lines[47] is Instruction && decode(instruction_text(lines[47])) == Some(Instr::B("__rt_arr_ss_ret"@))
    &&& !(lines[48] is Instruction)
    &&& lines[49] is Instruction && decode(instruction_text(lines[49])) == Some(Instr::Mov(0, Operand::Imm(1)))
    &&& lines[50] is Instruction && decode(instruction_text(lines[50])) == Some(Instr::B("__rt_arr_ss_ret"@))
    &&& !(lines[51] is Instruction)
    &&& lines[52] is Instruction && decode(instruction_text(lines[52])) == Some(Instr::Mov(0, Operand::Imm(0)))
    &&& !(lines[53] is Instruction)
    &&& lines[54] is Instruction && decode(instruction_text(lines[54])) == Some(Instr::Ldr(23, Address::Offset(31, 0)))
    &&& lines[55] is Instruction && decode(instruction_text(lines[55])) == Some(Instr::Ldp(21, 22, Address::Offset(31, 16)))
    &&& lines[56] is Instruction && decode(instruction_text(lines[56])) == Some(Instr::Ldp(19, 20, Address::Offset(31, 32)))
    &&& lines[57] is Instruction && decode(instruction_text(lines[57])) == Some(Instr::Ldp(29, 30, Address::Offset(31, 48)))
    &&& lines[58] is Instruction && decode(instruction_text(lines[58])) == Some(Instr::Add(31, 31, Operand::Imm(64)))
    &&& lines[59] is Instruction && decode(instruction_text(lines[59])) == Some(Instr::Ret)
    &&& find_label(lines, "__rt_array_spaceship"@, 0) == 2
    &&& find_label(lines, "__rt_arr_ss_loop"@, 0) == 18
    &&& find_label(lines, "__rt_arr_ss_str"@, 0) == 30
    &&& find_label(lines, "__rt_arr_ss_next"@, 0) == 42
    &&& find_label(lines, "__rt_arr_ss_less"@, 0) == 45
    &&& find_label(lines, "__rt_arr_ss_greater"@, 0) == 48
    &&& find_label(lines, "__rt_arr_ss_equal"@, 0) == 51
    &&& find_label(lines, "__rt_arr_ss_ret"@, 0) == 53
}

/// The AArch64 `__rt_array_spaceship` listing has the shape the model runs through.
#[verifier::rlimit(60)]
#[verifier::spinoff_prover]
proof fn lemma_array_spaceship_shape(t: Target)
    requires
        t.arch == Arch::AArch64,
    ensures
        array_spaceship_shape(array_spaceship(Seq::empty(), t)),
{
    let lines = array_spaceship(Seq::empty(), t);
    lemma_array_spaceship_lines(t);
    lemma_array_spaceship_finds_rt_array_spaceship(lines, t);
    lemma_array_spaceship_finds_rt_arr_ss_loop(lines, t);
    lemma_array_spaceship_finds_rt_arr_ss_str(lines, t);
    lemma_array_spaceship_finds_rt_arr_ss_next(lines, t);
    lemma_array_spaceship_finds_rt_arr_ss_less(lines, t);
    lemma_array_spaceship_finds_rt_arr_ss_greater(lines, t);
    lemma_array_spaceship_finds_rt_arr_ss_equal(lines, t);
    lemma_array_spaceship_finds_rt_arr_ss_ret(lines, t);
    lemma_array_spaceship_decode_3();
    lemma_array_spaceship_decode_4();
    lemma_array_spaceship_decode_5();
    lemma_array_spaceship_decode_6();
    lemma_array_spaceship_decode_7();
    lemma_array_spaceship_decode_8();
    lemma_array_spaceship_decode_9();
    lemma_array_spaceship_decode_10();
    lemma_array_spaceship_decode_11();
    lemma_array_spaceship_decode_12();
    lemma_array_spaceship_decode_13();
    lemma_array_spaceship_decode_14();
    lemma_array_spaceship_decode_15();
    lemma_array_spaceship_decode_16();
    lemma_array_spaceship_decode_17();
    lemma_array_spaceship_decode_19();
    lemma_array_spaceship_decode_20();
    lemma_array_spaceship_decode_21();
    lemma_array_spaceship_decode_22();
    lemma_array_spaceship_decode_23();
    lemma_array_spaceship_decode_24();
    lemma_array_spaceship_decode_25();
    lemma_array_spaceship_decode_26();
    lemma_array_spaceship_decode_15();
    lemma_array_spaceship_decode_16();
    lemma_array_spaceship_decode_29();
    lemma_array_spaceship_decode_31();
    lemma_array_spaceship_decode_32();
    lemma_array_spaceship_decode_33();
    lemma_array_spaceship_decode_34();
    lemma_array_spaceship_decode_35();
    lemma_array_spaceship_decode_36();
    lemma_array_spaceship_decode_33();
    lemma_array_spaceship_decode_38();
    lemma_array_spaceship_decode_39();
    lemma_array_spaceship_decode_40();
    lemma_array_spaceship_decode_41();
    lemma_array_spaceship_decode_43();
    lemma_array_spaceship_decode_44();
    lemma_array_spaceship_decode_46();
    lemma_array_spaceship_decode_47();
    lemma_array_spaceship_decode_49();
    lemma_array_spaceship_decode_47();
    lemma_array_spaceship_decode_52();
    lemma_array_spaceship_decode_54();
    lemma_array_spaceship_decode_55();
    lemma_array_spaceship_decode_56();
    lemma_array_spaceship_decode_57();
    lemma_array_spaceship_decode_58();
    lemma_array_spaceship_decode_59();
}

/// From the entry: a left array with fewer elements is ordered first.
#[verifier::rlimit(60)]
#[verifier::spinoff_prover]
proof fn lemma_array_spaceship_count_less(lines: Seq<Line>, env: Env, m: Machine)
    requires
        array_spaceship_shape(lines),
        m.pc == 2,
        !m.returned,
        !m.stuck,
        outside_frame(read(m, 1), read(m, 31)) && outside_frame(read(m, 2), read(m, 31)),
        (m.mem)(read(m, 1)) < (m.mem)(read(m, 2)),
    ensures
        run(lines, env, m, 24).returned,
        read(run(lines, env, m, 24), 0) == -1,
{
    let m0 = m;
    lemma_step_passes(lines, env, m0);
    let m1 = step(lines, env, m0);
    assert(m1.pc == 3);
    lemma_step_instruction(lines, env, m1, instruction_text(lines[3]), Instr::Sub(31, 31, Operand::Imm(64)));
    let m2 = step(lines, env, m1);
    assert(m2.pc == 4);
    lemma_step_instruction(lines, env, m2, instruction_text(lines[4]), Instr::Stp(29, 30, Address::Offset(31, 48)));
    let m3 = step(lines, env, m2);
    assert(m3.pc == 5);
    lemma_step_instruction(lines, env, m3, instruction_text(lines[5]), Instr::Add(29, 31, Operand::Imm(48)));
    let m4 = step(lines, env, m3);
    assert(m4.pc == 6);
    lemma_step_instruction(lines, env, m4, instruction_text(lines[6]), Instr::Stp(19, 20, Address::Offset(31, 32)));
    let m5 = step(lines, env, m4);
    assert(m5.pc == 7);
    lemma_step_instruction(lines, env, m5, instruction_text(lines[7]), Instr::Stp(21, 22, Address::Offset(31, 16)));
    let m6 = step(lines, env, m5);
    assert(m6.pc == 8);
    lemma_step_instruction(lines, env, m6, instruction_text(lines[8]), Instr::Str(23, Address::Offset(31, 0)));
    let m7 = step(lines, env, m6);
    assert(m7.pc == 9);
    lemma_step_instruction(lines, env, m7, instruction_text(lines[9]), Instr::Mov(19, Operand::Reg(1)));
    let m8 = step(lines, env, m7);
    assert(m8.pc == 10);
    lemma_step_instruction(lines, env, m8, instruction_text(lines[10]), Instr::Mov(20, Operand::Reg(2)));
    let m9 = step(lines, env, m8);
    assert(m9.pc == 11);
    lemma_step_instruction(lines, env, m9, instruction_text(lines[11]), Instr::Mov(23, Operand::Reg(3)));
    let m10 = step(lines, env, m9);
    assert(m10.pc == 12);
    lemma_step_instruction(lines, env, m10, instruction_text(lines[12]), Instr::Ldr(21, Address::Offset(19, 0)));
    let m11 = step(lines, env, m10);
    assert(m11.pc == 13);
    lemma_step_instruction(lines, env, m11, instruction_text(lines[13]), Instr::Ldr(9, Address::Offset(20, 0)));
    let m12 = step(lines, env, m11);
    assert(m12.pc == 14);
    lemma_step_instruction(lines, env, m12, instruction_text(lines[14]), Instr::Cmp(21, Operand::Reg(9)));
    let m13 = step(lines, env, m12);
    assert(m13.pc == 15);
    lemma_step_instruction(lines, env, m13, instruction_text(lines[15]), Instr::BCond(Cond::Lt, "__rt_arr_ss_less"@));
    let m14 = step(lines, env, m13);
    assert(m14.pc == 45);
    lemma_step_passes(lines, env, m14);
    let m15 = step(lines, env, m14);
    assert(m15.pc == 46);
    lemma_step_instruction(lines, env, m15, instruction_text(lines[46]), Instr::Mov(0, Operand::Imm(-1)));
    let m16 = step(lines, env, m15);
    assert(m16.pc == 47);
    lemma_step_instruction(lines, env, m16, instruction_text(lines[47]), Instr::B("__rt_arr_ss_ret"@));
    let m17 = step(lines, env, m16);
    assert(m17.pc == 53);
    lemma_step_passes(lines, env, m17);
    let m18 = step(lines, env, m17);
    assert(m18.pc == 54);
    lemma_step_instruction(lines, env, m18, instruction_text(lines[54]), Instr::Ldr(23, Address::Offset(31, 0)));
    let m19 = step(lines, env, m18);
    assert(m19.pc == 55);
    lemma_step_instruction(lines, env, m19, instruction_text(lines[55]), Instr::Ldp(21, 22, Address::Offset(31, 16)));
    let m20 = step(lines, env, m19);
    assert(m20.pc == 56);
    lemma_step_instruction(lines, env, m20, instruction_text(lines[56]), Instr::Ldp(19, 20, Address::Offset(31, 32)));
    let m21 = step(lines, env, m20);
    assert(m21.pc == 57);
    lemma_step_instruction(lines, env, m21, instruction_text(lines[57]), Instr::Ldp(29, 30, Address::Offset(31, 48)));
    let m22 = step(lines, env, m21);
    assert(m22.pc == 58);
    lemma_step_instruction(lines, env, m22, instruction_text(lines[58]), Instr::Add(31, 31, Operand::Imm(64)));
    let m23 = step(lines, env, m22);
    assert(m23.pc == 59);
    lemma_step_instruction(lines, env, m23, instruction_text(lines[59]), Instr::Ret);
    let m24 = step(lines, env, m23);
    lemma_run_step(lines, env, m0, 23);
    lemma_run_step(lines, env, m1, 22);
    lemma_run_step(lines, env, m2, 21);
    lemma_run_step(lines, env, m3, 20);
    lemma_run_step(lines, env, m4, 19);
    lemma_run_step(lines, env, m5, 18);
    lemma_run_step(lines, env, m6, 17);
    lemma_run_step(lines, env, m7, 16);
    lemma_run_step(lines, env, m8, 15);
    lemma_run_step(lines, env, m9, 14);
    lemma_run_step(lines, env, m10, 13);
    lemma_run_step(lines, env, m11, 12);
    lemma_run_step(lines, env, m12, 11);
    lemma_run_step(lines, env, m13, 10);
    lemma_run_step(lines, env, m14, 9);
    lemma_run_step(lines, env, m15, 8);
    lemma_run_step(lines, env, m16, 7);
    lemma_run_step(lines, env, m17, 6);
    lemma_run_step(lines, env, m18, 5);
    lemma_run_step(lines, env, m19, 4);
    lemma_run_step(lines, env, m20, 3);
    lemma_run_step(lines, env, m21, 2);
    lemma_run_step(lines, env, m22, 1);
    lemma_run_step(lines, env, m23, 0);
}

/// From the entry: a left array with more elements is ordered last.
#[verifier::rlimit(60)]
#[verifier::spinoff_prover]
proof fn lemma_array_spaceship_count_greater(lines: Seq<Line>, env: Env, m: Machine)
    requires
        array_spaceship_shape(lines),
        m.pc == 2,
        !m.returned,
        !m.stuck,
        outside_frame(read(m, 1), read(m, 31)) && outside_frame(read(m, 2), read(m, 31)),
        (m.mem)(read(m, 1)) > (m.mem)(read(m, 2)),
    ensures
        run(lines, env, m, 25).returned,
        read(run(lines, env, m, 25), 0) == 1,
{
    let m0 = m;
    lemma_step_passes(lines, env, m0);
    let m1 = step(lines, env, m0);
    assert(m1.pc == 3);
    lemma_step_instruction(lines, env, m1, instruction_text(lines[3]), Instr::Sub(31, 31, Operand::Imm(64)));
    let m2 = step(lines, env, m1);
    assert(m2.pc == 4);
    lemma_step_instruction(lines, env, m2, instruction_text(lines[4]), Instr::Stp(29, 30, Address::Offset(31, 48)));
    let m3 = step(lines, env, m2);
    assert(m3.pc == 5);
    lemma_step_instruction(lines, env, m3, instruction_text(lines[5]), Instr::Add(29, 31, Operand::Imm(48)));
    let m4 = step(lines, env, m3);
    assert(m4.pc == 6);
    lemma_step_instruction(lines, env, m4, instruction_text(lines[6]), Instr::Stp(19, 20, Address::Offset(31, 32)));
    let m5 = step(lines, env, m4);
    assert(m5.pc == 7);
    lemma_step_instruction(lines, env, m5, instruction_text(lines[7]), Instr::Stp(21, 22, Address::Offset(31, 16)));
    let m6 = step(lines, env, m5);
    assert(m6.pc == 8);
    lemma_step_instruction(lines, env, m6, instruction_text(lines[8]), Instr::Str(23, Address::Offset(31, 0)));
    let m7 = step(lines, env, m6);
    assert(m7.pc == 9);
    lemma_step_instruction(lines, env, m7, instruction_text(lines[9]), Instr::Mov(19, Operand::Reg(1)));
    let m8 = step(lines, env, m7);
    assert(m8.pc == 10);
    lemma_step_instruction(lines, env, m8, instruction_text(lines[10]), Instr::Mov(20, Operand::Reg(2)));
    let m9 = step(lines, env, m8);
    assert(m9.pc == 11);
    lemma_step_instruction(lines, env, m9, instruction_text(lines[11]), Instr::Mov(23, Operand::Reg(3)));
    let m10 = step(lines, env, m9);
    assert(m10.pc == 12);
    lemma_step_instruction(lines, env, m10, instruction_text(lines[12]), Instr::Ldr(21, Address::Offset(19, 0)));
    let m11 = step(lines, env, m10);
    assert(m11.pc == 13);
    lemma_step_instruction(lines, env, m11, instruction_text(lines[13]), Instr::Ldr(9, Address::Offset(20, 0)));
    let m12 = step(lines, env, m11);
    assert(m12.pc == 14);
    lemma_step_instruction(lines, env, m12, instruction_text(lines[14]), Instr::Cmp(21, Operand::Reg(9)));
    let m13 = step(lines, env, m12);
    assert(m13.pc == 15);
    lemma_step_instruction(lines, env, m13, instruction_text(lines[15]), Instr::BCond(Cond::Lt, "__rt_arr_ss_less"@));
    let m14 = step(lines, env, m13);
    assert(m14.pc == 16);
    lemma_step_instruction(lines, env, m14, instruction_text(lines[16]), Instr::BCond(Cond::Gt, "__rt_arr_ss_greater"@));
    let m15 = step(lines, env, m14);
    assert(m15.pc == 48);
    lemma_step_passes(lines, env, m15);
    let m16 = step(lines, env, m15);
    assert(m16.pc == 49);
    lemma_step_instruction(lines, env, m16, instruction_text(lines[49]), Instr::Mov(0, Operand::Imm(1)));
    let m17 = step(lines, env, m16);
    assert(m17.pc == 50);
    lemma_step_instruction(lines, env, m17, instruction_text(lines[50]), Instr::B("__rt_arr_ss_ret"@));
    let m18 = step(lines, env, m17);
    assert(m18.pc == 53);
    lemma_step_passes(lines, env, m18);
    let m19 = step(lines, env, m18);
    assert(m19.pc == 54);
    lemma_step_instruction(lines, env, m19, instruction_text(lines[54]), Instr::Ldr(23, Address::Offset(31, 0)));
    let m20 = step(lines, env, m19);
    assert(m20.pc == 55);
    lemma_step_instruction(lines, env, m20, instruction_text(lines[55]), Instr::Ldp(21, 22, Address::Offset(31, 16)));
    let m21 = step(lines, env, m20);
    assert(m21.pc == 56);
    lemma_step_instruction(lines, env, m21, instruction_text(lines[56]), Instr::Ldp(19, 20, Address::Offset(31, 32)));
    let m22 = step(lines, env, m21);
    assert(m22.pc == 57);
    lemma_step_instruction(lines, env, m22, instruction_text(lines[57]), Instr::Ldp(29, 30, Address::Offset(31, 48)));
    let m23 = step(lines, env, m22);
    assert(m23.pc == 58);
    lemma_step_instruction(lines, env, m23, instruction_text(lines[58]), Instr::Add(31, 31, Operand::Imm(64)));
    let m24 = step(lines, env, m23);
    assert(m24.pc == 59);
    lemma_step_instruction(lines, env, m24, instruction_text(lines[59]), Instr::Ret);
    let m25 = step(lines, env, m24);
    lemma_run_step(lines, env, m0, 24);
    lemma_run_step(lines, env, m1, 23);
    lemma_run_step(lines, env, m2, 22);
    lemma_run_step(lines, env, m3, 21);
    lemma_run_step(lines, env, m4, 20);
    lemma_run_step(lines, env, m5, 19);
    lemma_run_step(lines, env, m6, 18);
    lemma_run_step(lines, env, m7, 17);
    lemma_run_step(lines, env, m8, 16);
    lemma_run_step(lines, env, m9, 15);
    lemma_run_step(lines, env, m10, 14);
    lemma_run_step(lines, env, m11, 13);
    lemma_run_step(lines, env, m12, 12);
    lemma_run_step(lines, env, m13, 11);
    lemma_run_step(lines, env, m14, 10);
    lemma_run_step(lines, env, m15, 9);
    lemma_run_step(lines, env, m16, 8);
    lemma_run_step(lines, env, m17, 7);
    lemma_run_step(lines, env, m18, 6);
    lemma_run_step(lines, env, m19, 5);
    lemma_run_step(lines, env, m20, 4);
    lemma_run_step(lines, env, m21, 3);
    lemma_run_step(lines, env, m22, 2);
    lemma_run_step(lines, env, m23, 1);
    lemma_run_step(lines, env, m24, 0);
}

/// From the entry: equal counts reach the element loop at index 0, with the frame saved.
#[verifier::rlimit(60)]
#[verifier::spinoff_prover]
proof fn lemma_array_spaceship_enter_loop(lines: Seq<Line>, env: Env, m: Machine)
    requires
        array_spaceship_shape(lines),
        m.pc == 2,
        !m.returned,
        !m.stuck,
        outside_frame(read(m, 1), read(m, 31)) && outside_frame(read(m, 2), read(m, 31)),
        (m.mem)(read(m, 1)) == (m.mem)(read(m, 2)),
    ensures
        ({ let s = run(lines, env, m, 16); &&& s.pc == 18 &&& !s.returned &&& !s.stuck &&& read(s, 19) == read(m, 1) &&& read(s, 20) == read(m, 2) &&& read(s, 21) == (m.mem)(read(m, 1)) &&& read(s, 22) == 0 &&& read(s, 23) == read(m, 3) }),
        forall|a: int| outside_frame(a, read(m, 31)) ==> #[trigger] (run(lines, env, m, 16).mem)(a) == (m.mem)(a),
{
    let m0 = m;
    lemma_step_passes(lines, env, m0);
    let m1 = step(lines, env, m0);
    assert(m1.pc == 3);
    lemma_step_instruction(lines, env, m1, instruction_text(lines[3]), Instr::Sub(31, 31, Operand::Imm(64)));
    let m2 = step(lines, env, m1);
    assert(m2.pc == 4);
    lemma_step_instruction(lines, env, m2, instruction_text(lines[4]), Instr::Stp(29, 30, Address::Offset(31, 48)));
    let m3 = step(lines, env, m2);
    assert(m3.pc == 5);
    lemma_step_instruction(lines, env, m3, instruction_text(lines[5]), Instr::Add(29, 31, Operand::Imm(48)));
    let m4 = step(lines, env, m3);
    assert(m4.pc == 6);
    lemma_step_instruction(lines, env, m4, instruction_text(lines[6]), Instr::Stp(19, 20, Address::Offset(31, 32)));
    let m5 = step(lines, env, m4);
    assert(m5.pc == 7);
    lemma_step_instruction(lines, env, m5, instruction_text(lines[7]), Instr::Stp(21, 22, Address::Offset(31, 16)));
    let m6 = step(lines, env, m5);
    assert(m6.pc == 8);
    lemma_step_instruction(lines, env, m6, instruction_text(lines[8]), Instr::Str(23, Address::Offset(31, 0)));
    let m7 = step(lines, env, m6);
    assert(m7.pc == 9);
    lemma_step_instruction(lines, env, m7, instruction_text(lines[9]), Instr::Mov(19, Operand::Reg(1)));
    let m8 = step(lines, env, m7);
    assert(m8.pc == 10);
    lemma_step_instruction(lines, env, m8, instruction_text(lines[10]), Instr::Mov(20, Operand::Reg(2)));
    let m9 = step(lines, env, m8);
    assert(m9.pc == 11);
    lemma_step_instruction(lines, env, m9, instruction_text(lines[11]), Instr::Mov(23, Operand::Reg(3)));
    let m10 = step(lines, env, m9);
    assert(m10.pc == 12);
    lemma_step_instruction(lines, env, m10, instruction_text(lines[12]), Instr::Ldr(21, Address::Offset(19, 0)));
    let m11 = step(lines, env, m10);
    assert(m11.pc == 13);
    lemma_step_instruction(lines, env, m11, instruction_text(lines[13]), Instr::Ldr(9, Address::Offset(20, 0)));
    let m12 = step(lines, env, m11);
    assert(m12.pc == 14);
    lemma_step_instruction(lines, env, m12, instruction_text(lines[14]), Instr::Cmp(21, Operand::Reg(9)));
    let m13 = step(lines, env, m12);
    assert(m13.pc == 15);
    lemma_step_instruction(lines, env, m13, instruction_text(lines[15]), Instr::BCond(Cond::Lt, "__rt_arr_ss_less"@));
    let m14 = step(lines, env, m13);
    assert(m14.pc == 16);
    lemma_step_instruction(lines, env, m14, instruction_text(lines[16]), Instr::BCond(Cond::Gt, "__rt_arr_ss_greater"@));
    let m15 = step(lines, env, m14);
    assert(m15.pc == 17);
    lemma_step_instruction(lines, env, m15, instruction_text(lines[17]), Instr::Mov(22, Operand::Imm(0)));
    let m16 = step(lines, env, m15);
    lemma_run_step(lines, env, m0, 15);
    lemma_run_step(lines, env, m1, 14);
    lemma_run_step(lines, env, m2, 13);
    lemma_run_step(lines, env, m3, 12);
    lemma_run_step(lines, env, m4, 11);
    lemma_run_step(lines, env, m5, 10);
    lemma_run_step(lines, env, m6, 9);
    lemma_run_step(lines, env, m7, 8);
    lemma_run_step(lines, env, m8, 7);
    lemma_run_step(lines, env, m9, 6);
    lemma_run_step(lines, env, m10, 5);
    lemma_run_step(lines, env, m11, 4);
    lemma_run_step(lines, env, m12, 3);
    lemma_run_step(lines, env, m13, 2);
    lemma_run_step(lines, env, m14, 1);
    lemma_run_step(lines, env, m15, 0);
}

/// In the element loop: with every pair compared, the arrays are equal.
#[verifier::rlimit(60)]
#[verifier::spinoff_prover]
proof fn lemma_array_spaceship_loop_done(lines: Seq<Line>, env: Env, m: Machine)
    requires
        array_spaceship_shape(lines),
        m.pc == 18,
        !m.returned,
        !m.stuck,
        read(m, 22) >= read(m, 21),
    ensures
        run(lines, env, m, 12).returned,
        read(run(lines, env, m, 12), 0) == 0,
{
    let m0 = m;
    lemma_step_passes(lines, env, m0);
    let m1 = step(lines, env, m0);
    assert(m1.pc == 19);
    lemma_step_instruction(lines, env, m1, instruction_text(lines[19]), Instr::Cmp(22, Operand::Reg(21)));
    let m2 = step(lines, env, m1);
    assert(m2.pc == 20);
    lemma_step_instruction(lines, env, m2, instruction_text(lines[20]), Instr::BCond(Cond::Ge, "__rt_arr_ss_equal"@));
    let m3 = step(lines, env, m2);
    assert(m3.pc == 51);
    lemma_step_passes(lines, env, m3);
    let m4 = step(lines, env, m3);
    assert(m4.pc == 52);
    lemma_step_instruction(lines, env, m4, instruction_text(lines[52]), Instr::Mov(0, Operand::Imm(0)));
    let m5 = step(lines, env, m4);
    assert(m5.pc == 53);
    lemma_step_passes(lines, env, m5);
    let m6 = step(lines, env, m5);
    assert(m6.pc == 54);
    lemma_step_instruction(lines, env, m6, instruction_text(lines[54]), Instr::Ldr(23, Address::Offset(31, 0)));
    let m7 = step(lines, env, m6);
    assert(m7.pc == 55);
    lemma_step_instruction(lines, env, m7, instruction_text(lines[55]), Instr::Ldp(21, 22, Address::Offset(31, 16)));
    let m8 = step(lines, env, m7);
    assert(m8.pc == 56);
    lemma_step_instruction(lines, env, m8, instruction_text(lines[56]), Instr::Ldp(19, 20, Address::Offset(31, 32)));
    let m9 = step(lines, env, m8);
    assert(m9.pc == 57);
    lemma_step_instruction(lines, env, m9, instruction_text(lines[57]), Instr::Ldp(29, 30, Address::Offset(31, 48)));
    let m10 = step(lines, env, m9);
    assert(m10.pc == 58);
    lemma_step_instruction(lines, env, m10, instruction_text(lines[58]), Instr::Add(31, 31, Operand::Imm(64)));
    let m11 = step(lines, env, m10);
    assert(m11.pc == 59);
    lemma_step_instruction(lines, env, m11, instruction_text(lines[59]), Instr::Ret);
    let m12 = step(lines, env, m11);
    lemma_run_step(lines, env, m0, 11);
    lemma_run_step(lines, env, m1, 10);
    lemma_run_step(lines, env, m2, 9);
    lemma_run_step(lines, env, m3, 8);
    lemma_run_step(lines, env, m4, 7);
    lemma_run_step(lines, env, m5, 6);
    lemma_run_step(lines, env, m6, 5);
    lemma_run_step(lines, env, m7, 4);
    lemma_run_step(lines, env, m8, 3);
    lemma_run_step(lines, env, m9, 2);
    lemma_run_step(lines, env, m10, 1);
    lemma_run_step(lines, env, m11, 0);
}

/// In the element loop: a smaller left element orders the left array first.
#[verifier::rlimit(60)]
#[verifier::spinoff_prover]
proof fn lemma_array_spaceship_loop_less(lines: Seq<Line>, env: Env, m: Machine)
    requires
        array_spaceship_shape(lines),
        m.pc == 18,
        !m.returned,
        !m.stuck,
        read(m, 22) < read(m, 21),
        read(m, 23) == 0,
        (m.mem)(read(m, 19) + 24 + 8 * read(m, 22)) < (m.mem)(read(m, 20) + 24 + 8 * read(m, 22)),
    ensures
        run(lines, env, m, 20).returned,
        read(run(lines, env, m, 20), 0) == -1,
{
    let m0 = m;
    lemma_step_passes(lines, env, m0);
    let m1 = step(lines, env, m0);
    assert(m1.pc == 19);
    lemma_step_instruction(lines, env, m1, instruction_text(lines[19]), Instr::Cmp(22, Operand::Reg(21)));
    let m2 = step(lines, env, m1);
    assert(m2.pc == 20);
    lemma_step_instruction(lines, env, m2, instruction_text(lines[20]), Instr::BCond(Cond::Ge, "__rt_arr_ss_equal"@));
    let m3 = step(lines, env, m2);
    assert(m3.pc == 21);
    lemma_step_instruction(lines, env, m3, instruction_text(lines[21]), Instr::Cbnz(23, "__rt_arr_ss_str"@));
    let m4 = step(lines, env, m3);
    assert(m4.pc == 22);
    lemma_step_instruction(lines, env, m4, instruction_text(lines[22]), Instr::Add(9, 19, Operand::Imm(24)));
    let m5 = step(lines, env, m4);
    assert(m5.pc == 23);
    lemma_step_instruction(lines, env, m5, instruction_text(lines[23]), Instr::Ldr(10, Address::Indexed(9, 22, 3)));
    let m6 = step(lines, env, m5);
    assert(m6.pc == 24);
    lemma_step_instruction(lines, env, m6, instruction_text(lines[24]), Instr::Add(9, 20, Operand::Imm(24)));
    let m7 = step(lines, env, m6);
    assert(m7.pc == 25);
    lemma_step_instruction(lines, env, m7, instruction_text(lines[25]), Instr::Ldr(11, Address::Indexed(9, 22, 3)));
    let m8 = step(lines, env, m7);
    assert(m8.pc == 26);
    lemma_step_instruction(lines, env, m8, instruction_text(lines[26]), Instr::Cmp(10, Operand::Reg(11)));
    let m9 = step(lines, env, m8);
    assert(m9.pc == 27);
    lemma_step_instruction(lines, env, m9, instruction_text(lines[27]), Instr::BCond(Cond::Lt, "__rt_arr_ss_less"@));
    let m10 = step(lines, env, m9);
    assert(m10.pc == 45);
    lemma_step_passes(lines, env, m10);
    let m11 = step(lines, env, m10);
    assert(m11.pc == 46);
    lemma_step_instruction(lines, env, m11, instruction_text(lines[46]), Instr::Mov(0, Operand::Imm(-1)));
    let m12 = step(lines, env, m11);
    assert(m12.pc == 47);
    lemma_step_instruction(lines, env, m12, instruction_text(lines[47]), Instr::B("__rt_arr_ss_ret"@));
    let m13 = step(lines, env, m12);
    assert(m13.pc == 53);
    lemma_step_passes(lines, env, m13);
    let m14 = step(lines, env, m13);
    assert(m14.pc == 54);
    lemma_step_instruction(lines, env, m14, instruction_text(lines[54]), Instr::Ldr(23, Address::Offset(31, 0)));
    let m15 = step(lines, env, m14);
    assert(m15.pc == 55);
    lemma_step_instruction(lines, env, m15, instruction_text(lines[55]), Instr::Ldp(21, 22, Address::Offset(31, 16)));
    let m16 = step(lines, env, m15);
    assert(m16.pc == 56);
    lemma_step_instruction(lines, env, m16, instruction_text(lines[56]), Instr::Ldp(19, 20, Address::Offset(31, 32)));
    let m17 = step(lines, env, m16);
    assert(m17.pc == 57);
    lemma_step_instruction(lines, env, m17, instruction_text(lines[57]), Instr::Ldp(29, 30, Address::Offset(31, 48)));
    let m18 = step(lines, env, m17);
    assert(m18.pc == 58);
    lemma_step_instruction(lines, env, m18, instruction_text(lines[58]), Instr::Add(31, 31, Operand::Imm(64)));
    let m19 = step(lines, env, m18);
    assert(m19.pc == 59);
    lemma_step_instruction(lines, env, m19, instruction_text(lines[59]), Instr::Ret);
    let m20 = step(lines, env, m19);
    lemma_run_step(lines, env, m0, 19);
    lemma_run_step(lines, env, m1, 18);
    lemma_run_step(lines, env, m2, 17);
    lemma_run_step(lines, env, m3, 16);
    lemma_run_step(lines, env, m4, 15);
    lemma_run_step(lines, env, m5, 14);
    lemma_run_step(lines, env, m6, 13);
    lemma_run_step(lines, env, m7, 12);
    lemma_run_step(lines, env, m8, 11);
    lemma_run_step(lines, env, m9, 10);
    lemma_run_step(lines, env, m10, 9);
    lemma_run_step(lines, env, m11, 8);
    lemma_run_step(lines, env, m12, 7);
    lemma_run_step(lines, env, m13, 6);
    lemma_run_step(lines, env, m14, 5);
    lemma_run_step(lines, env, m15, 4);
    lemma_run_step(lines, env, m16, 3);
    lemma_run_step(lines, env, m17, 2);
    lemma_run_step(lines, env, m18, 1);
    lemma_run_step(lines, env, m19, 0);
}

/// In the element loop: a larger left element orders the left array last.
#[verifier::rlimit(60)]
#[verifier::spinoff_prover]
proof fn lemma_array_spaceship_loop_greater(lines: Seq<Line>, env: Env, m: Machine)
    requires
        array_spaceship_shape(lines),
        m.pc == 18,
        !m.returned,
        !m.stuck,
        read(m, 22) < read(m, 21),
        read(m, 23) == 0,
        (m.mem)(read(m, 19) + 24 + 8 * read(m, 22)) > (m.mem)(read(m, 20) + 24 + 8 * read(m, 22)),
    ensures
        run(lines, env, m, 21).returned,
        read(run(lines, env, m, 21), 0) == 1,
{
    let m0 = m;
    lemma_step_passes(lines, env, m0);
    let m1 = step(lines, env, m0);
    assert(m1.pc == 19);
    lemma_step_instruction(lines, env, m1, instruction_text(lines[19]), Instr::Cmp(22, Operand::Reg(21)));
    let m2 = step(lines, env, m1);
    assert(m2.pc == 20);
    lemma_step_instruction(lines, env, m2, instruction_text(lines[20]), Instr::BCond(Cond::Ge, "__rt_arr_ss_equal"@));
    let m3 = step(lines, env, m2);
    assert(m3.pc == 21);
    lemma_step_instruction(lines, env, m3, instruction_text(lines[21]), Instr::Cbnz(23, "__rt_arr_ss_str"@));
    let m4 = step(lines, env, m3);
    assert(m4.pc == 22);
    lemma_step_instruction(lines, env, m4, instruction_text(lines[22]), Instr::Add(9, 19, Operand::Imm(24)));
    let m5 = step(lines, env, m4);
    assert(m5.pc == 23);
    lemma_step_instruction(lines, env, m5, instruction_text(lines[23]), Instr::Ldr(10, Address::Indexed(9, 22, 3)));
    let m6 = step(lines, env, m5);
    assert(m6.pc == 24);
    lemma_step_instruction(lines, env, m6, instruction_text(lines[24]), Instr::Add(9, 20, Operand::Imm(24)));
    let m7 = step(lines, env, m6);
    assert(m7.pc == 25);
    lemma_step_instruction(lines, env, m7, instruction_text(lines[25]), Instr::Ldr(11, Address::Indexed(9, 22, 3)));
    let m8 = step(lines, env, m7);
    assert(m8.pc == 26);
    lemma_step_instruction(lines, env, m8, instruction_text(lines[26]), Instr::Cmp(10, Operand::Reg(11)));
    let m9 = step(lines, env, m8);
    assert(m9.pc == 27);
    lemma_step_instruction(lines, env, m9, instruction_text(lines[27]), Instr::BCond(Cond::Lt, "__rt_arr_ss_less"@));
    let m10 = step(lines, env, m9);
    assert(m10.pc == 28);
    lemma_step_instruction(lines, env, m10, instruction_text(lines[28]), Instr::BCond(Cond::Gt, "__rt_arr_ss_greater"@));
    let m11 = step(lines, env, m10);
    assert(m11.pc == 48);
    lemma_step_passes(lines, env, m11);
    let m12 = step(lines, env, m11);
    assert(m12.pc == 49);
    lemma_step_instruction(lines, env, m12, instruction_text(lines[49]), Instr::Mov(0, Operand::Imm(1)));
    let m13 = step(lines, env, m12);
    assert(m13.pc == 50);
    lemma_step_instruction(lines, env, m13, instruction_text(lines[50]), Instr::B("__rt_arr_ss_ret"@));
    let m14 = step(lines, env, m13);
    assert(m14.pc == 53);
    lemma_step_passes(lines, env, m14);
    let m15 = step(lines, env, m14);
    assert(m15.pc == 54);
    lemma_step_instruction(lines, env, m15, instruction_text(lines[54]), Instr::Ldr(23, Address::Offset(31, 0)));
    let m16 = step(lines, env, m15);
    assert(m16.pc == 55);
    lemma_step_instruction(lines, env, m16, instruction_text(lines[55]), Instr::Ldp(21, 22, Address::Offset(31, 16)));
    let m17 = step(lines, env, m16);
    assert(m17.pc == 56);
    lemma_step_instruction(lines, env, m17, instruction_text(lines[56]), Instr::Ldp(19, 20, Address::Offset(31, 32)));
    let m18 = step(lines, env, m17);
    assert(m18.pc == 57);
    lemma_step_instruction(lines, env, m18, instruction_text(lines[57]), Instr::Ldp(29, 30, Address::Offset(31, 48)));
    let m19 = step(lines, env, m18);
    assert(m19.pc == 58);
    lemma_step_instruction(lines, env, m19, instruction_text(lines[58]), Instr::Add(31, 31, Operand::Imm(64)));
    let m20 = step(lines, env, m19);
    assert(m20.pc == 59);
    lemma_step_instruction(lines, env, m20, instruction_text(lines[59]), Instr::Ret);
    let m21 = step(lines, env, m20);
    lemma_run_step(lines, env, m0, 20);
    lemma_run_step(lines, env, m1, 19);
    lemma_run_step(lines, env, m2, 18);
    lemma_run_step(lines, env, m3, 17);
    lemma_run_step(lines, env, m4, 16);
    lemma_run_step(lines, env, m5, 15);
    lemma_run_step(lines, env, m6, 14);
    lemma_run_step(lines, env, m7, 13);
    lemma_run_step(lines, env, m8, 12);
    lemma_run_step(lines, env, m9, 11);
    lemma_run_step(lines, env, m10, 10);
    lemma_run_step(lines, env, m11, 9);
    lemma_run_step(lines, env, m12, 8);
    lemma_run_step(lines, env, m13, 7);
    lemma_run_step(lines, env, m14, 6);
    lemma_run_step(lines, env, m15, 5);
    lemma_run_step(lines, env, m16, 4);
    lemma_run_step(lines, env, m17, 3);
    lemma_run_step(lines, env, m18, 2);
    lemma_run_step(lines, env, m19, 1);
    lemma_run_step(lines, env, m20, 0);
}

/// In the element loop: an equal pair moves on to the next index.
#[verifier::rlimit(60)]
#[verifier::spinoff_prover]
proof fn lemma_array_spaceship_loop_next(lines: Seq<Line>, env: Env, m: Machine)
    requires
        array_spaceship_shape(lines),
        m.pc == 18,
        !m.returned,
        !m.stuck,
        read(m, 22) < read(m, 21),
        read(m, 23) == 0,
        (m.mem)(read(m, 19) + 24 + 8 * read(m, 22)) == (m.mem)(read(m, 20) + 24 + 8 * read(m, 22)),
    ensures
        ({ let s = run(lines, env, m, 15); &&& s.pc == 18 &&& !s.returned &&& !s.stuck &&& s.mem == m.mem &&& read(s, 19) == read(m, 19) &&& read(s, 20) == read(m, 20) &&& read(s, 21) == read(m, 21) &&& read(s, 22) == read(m, 22) + 1 &&& read(s, 23) == 0 }),
{
    let m0 = m;
    lemma_step_passes(lines, env, m0);
    let m1 = step(lines, env, m0);
    assert(m1.pc == 19);
    lemma_step_instruction(lines, env, m1, instruction_text(lines[19]), Instr::Cmp(22, Operand::Reg(21)));
    let m2 = step(lines, env, m1);
    assert(m2.pc == 20);
    lemma_step_instruction(lines, env, m2, instruction_text(lines[20]), Instr::BCond(Cond::Ge, "__rt_arr_ss_equal"@));
    let m3 = step(lines, env, m2);
    assert(m3.pc == 21);
    lemma_step_instruction(lines, env, m3, instruction_text(lines[21]), Instr::Cbnz(23, "__rt_arr_ss_str"@));
    let m4 = step(lines, env, m3);
    assert(m4.pc == 22);
    lemma_step_instruction(lines, env, m4, instruction_text(lines[22]), Instr::Add(9, 19, Operand::Imm(24)));
    let m5 = step(lines, env, m4);
    assert(m5.pc == 23);
    lemma_step_instruction(lines, env, m5, instruction_text(lines[23]), Instr::Ldr(10, Address::Indexed(9, 22, 3)));
    let m6 = step(lines, env, m5);
    assert(m6.pc == 24);
    lemma_step_instruction(lines, env, m6, instruction_text(lines[24]), Instr::Add(9, 20, Operand::Imm(24)));
    let m7 = step(lines, env, m6);
    assert(m7.pc == 25);
    lemma_step_instruction(lines, env, m7, instruction_text(lines[25]), Instr::Ldr(11, Address::Indexed(9, 22, 3)));
    let m8 = step(lines, env, m7);
    assert(m8.pc == 26);
    lemma_step_instruction(lines, env, m8, instruction_text(lines[26]), Instr::Cmp(10, Operand::Reg(11)));
    let m9 = step(lines, env, m8);
    assert(m9.pc == 27);
    lemma_step_instruction(lines, env, m9, instruction_text(lines[27]), Instr::BCond(Cond::Lt, "__rt_arr_ss_less"@));
    let m10 = step(lines, env, m9);
    assert(m10.pc == 28);
    lemma_step_instruction(lines, env, m10, instruction_text(lines[28]), Instr::BCond(Cond::Gt, "__rt_arr_ss_greater"@));
    let m11 = step(lines, env, m10);
    assert(m11.pc == 29);
    lemma_step_instruction(lines, env, m11, instruction_text(lines[29]), Instr::B("__rt_arr_ss_next"@));
    let m12 = step(lines, env, m11);
    assert(m12.pc == 42);
    lemma_step_passes(lines, env, m12);
    let m13 = step(lines, env, m12);
    assert(m13.pc == 43);
    lemma_step_instruction(lines, env, m13, instruction_text(lines[43]), Instr::Add(22, 22, Operand::Imm(1)));
    let m14 = step(lines, env, m13);
    assert(m14.pc == 44);
    lemma_step_instruction(lines, env, m14, instruction_text(lines[44]), Instr::B("__rt_arr_ss_loop"@));
    let m15 = step(lines, env, m14);
    lemma_run_step(lines, env, m0, 14);
    lemma_run_step(lines, env, m1, 13);
    lemma_run_step(lines, env, m2, 12);
    lemma_run_step(lines, env, m3, 11);
    lemma_run_step(lines, env, m4, 10);
    lemma_run_step(lines, env, m5, 9);
    lemma_run_step(lines, env, m6, 8);
    lemma_run_step(lines, env, m7, 7);
    lemma_run_step(lines, env, m8, 6);
    lemma_run_step(lines, env, m9, 5);
    lemma_run_step(lines, env, m10, 4);
    lemma_run_step(lines, env, m11, 3);
    lemma_run_step(lines, env, m12, 2);
    lemma_run_step(lines, env, m13, 1);
    lemma_run_step(lines, env, m14, 0);
}

/// In the element loop, string mode: a pair that `__rt_str_spaceship` orders decides.
#[verifier::rlimit(60)]
#[verifier::spinoff_prover]
proof fn lemma_array_spaceship_loop_str_found(lines: Seq<Line>, env: Env, m: Machine)
    requires
        array_spaceship_shape(lines),
        m.pc == 18,
        !m.returned,
        !m.stuck,
        read(m, 22) < read(m, 21),
        read(m, 23) != 0,
        (env.call)("__rt_str_spaceship"@, (m.mem)(str_slot(read(m, 19), read(m, 22))), (m.mem)(str_slot(read(m, 19), read(m, 22)) + 8), (m.mem)(str_slot(read(m, 20), read(m, 22))), (m.mem)(str_slot(read(m, 20), read(m, 22)) + 8)) != 0,
    ensures
        run(lines, env, m, 23).returned,
        read(run(lines, env, m, 23), 0) == (env.call)("__rt_str_spaceship"@, (m.mem)(str_slot(read(m, 19), read(m, 22))), (m.mem)(str_slot(read(m, 19), read(m, 22)) + 8), (m.mem)(str_slot(read(m, 20), read(m, 22))), (m.mem)(str_slot(read(m, 20), read(m, 22)) + 8)),
{
    let m0 = m;
    lemma_step_passes(lines, env, m0);
    let m1 = step(lines, env, m0);
    assert(m1.pc == 19);
    lemma_step_instruction(lines, env, m1, instruction_text(lines[19]), Instr::Cmp(22, Operand::Reg(21)));
    let m2 = step(lines, env, m1);
    assert(m2.pc == 20);
    lemma_step_instruction(lines, env, m2, instruction_text(lines[20]), Instr::BCond(Cond::Ge, "__rt_arr_ss_equal"@));
    let m3 = step(lines, env, m2);
    assert(m3.pc == 21);
    lemma_step_instruction(lines, env, m3, instruction_text(lines[21]), Instr::Cbnz(23, "__rt_arr_ss_str"@));
    let m4 = step(lines, env, m3);
    assert(m4.pc == 30);
    lemma_step_passes(lines, env, m4);
    let m5 = step(lines, env, m4);
    assert(m5.pc == 31);
    lemma_step_instruction(lines, env, m5, instruction_text(lines[31]), Instr::LslImm(9, 22, 4));
    let m6 = step(lines, env, m5);
    assert(m6.pc == 32);
    lemma_step_instruction(lines, env, m6, instruction_text(lines[32]), Instr::Add(10, 19, Operand::Imm(24)));
    let m7 = step(lines, env, m6);
    assert(m7.pc == 33);
    lemma_step_instruction(lines, env, m7, instruction_text(lines[33]), Instr::Add(10, 10, Operand::Reg(9)));
    let m8 = step(lines, env, m7);
    assert(m8.pc == 34);
    lemma_step_instruction(lines, env, m8, instruction_text(lines[34]), Instr::Ldr(1, Address::Offset(10, 0)));
    let m9 = step(lines, env, m8);
    assert(m9.pc == 35);
    lemma_step_instruction(lines, env, m9, instruction_text(lines[35]), Instr::Ldr(2, Address::Offset(10, 8)));
    let m10 = step(lines, env, m9);
    assert(m10.pc == 36);
    lemma_step_instruction(lines, env, m10, instruction_text(lines[36]), Instr::Add(10, 20, Operand::Imm(24)));
    let m11 = step(lines, env, m10);
    assert(m11.pc == 37);
    lemma_step_instruction(lines, env, m11, instruction_text(lines[37]), Instr::Add(10, 10, Operand::Reg(9)));
    let m12 = step(lines, env, m11);
    assert(m12.pc == 38);
    lemma_step_instruction(lines, env, m12, instruction_text(lines[38]), Instr::Ldr(3, Address::Offset(10, 0)));
    let m13 = step(lines, env, m12);
    assert(m13.pc == 39);
    lemma_step_instruction(lines, env, m13, instruction_text(lines[39]), Instr::Ldr(4, Address::Offset(10, 8)));
    let m14 = step(lines, env, m13);
    assert(m14.pc == 40);
    lemma_step_instruction(lines, env, m14, instruction_text(lines[40]), Instr::Bl("__rt_str_spaceship"@));
    let m15 = step(lines, env, m14);
    assert(m15.pc == 41);
    lemma_step_instruction(lines, env, m15, instruction_text(lines[41]), Instr::Cbnz(0, "__rt_arr_ss_ret"@));
    let m16 = step(lines, env, m15);
    assert(m16.pc == 53);
    lemma_step_passes(lines, env, m16);
    let m17 = step(lines, env, m16);
    assert(m17.pc == 54);
    lemma_step_instruction(lines, env, m17, instruction_text(lines[54]), Instr::Ldr(23, Address::Offset(31, 0)));
    let m18 = step(lines, env, m17);
    assert(m18.pc == 55);
    lemma_step_instruction(lines, env, m18, instruction_text(lines[55]), Instr::Ldp(21, 22, Address::Offset(31, 16)));
    let m19 = step(lines, env, m18);
    assert(m19.pc == 56);
    lemma_step_instruction(lines, env, m19, instruction_text(lines[56]), Instr::Ldp(19, 20, Address::Offset(31, 32)));
    let m20 = step(lines, env, m19);
    assert(m20.pc == 57);
    lemma_step_instruction(lines, env, m20, instruction_text(lines[57]), Instr::Ldp(29, 30, Address::Offset(31, 48)));
    let m21 = step(lines, env, m20);
    assert(m21.pc == 58);
    lemma_step_instruction(lines, env, m21, instruction_text(lines[58]), Instr::Add(31, 31, Operand::Imm(64)));
    let m22 = step(lines, env, m21);
    assert(m22.pc == 59);
    lemma_step_instruction(lines, env, m22, instruction_text(lines[59]), Instr::Ret);
    let m23 = step(lines, env, m22);
    lemma_run_step(lines, env, m0, 22);
    lemma_run_step(lines, env, m1, 21);
    lemma_run_step(lines, env, m2, 20);
    lemma_run_step(lines, env, m3, 19);
    lemma_run_step(lines, env, m4, 18);
    lemma_run_step(lines, env, m5, 17);
    lemma_run_step(lines, env, m6, 16);
    lemma_run_step(lines, env, m7, 15);
    lemma_run_step(lines, env, m8, 14);
    lemma_run_step(lines, env, m9, 13);
    lemma_run_step(lines, env, m10, 12);
    lemma_run_step(lines, env, m11, 11);
    lemma_run_step(lines, env, m12, 10);
    lemma_run_step(lines, env, m13, 9);
    lemma_run_step(lines, env, m14, 8);
    lemma_run_step(lines, env, m15, 7);
    lemma_run_step(lines, env, m16, 6);
    lemma_run_step(lines, env, m17, 5);
    lemma_run_step(lines, env, m18, 4);
    lemma_run_step(lines, env, m19, 3);
    lemma_run_step(lines, env, m20, 2);
    lemma_run_step(lines, env, m21, 1);
    lemma_run_step(lines, env, m22, 0);
}

/// In the element loop, string mode: a pair `__rt_str_spaceship` finds equal moves on to the next index.
#[verifier::rlimit(60)]
#[verifier::spinoff_prover]
proof fn lemma_array_spaceship_loop_str_next(lines: Seq<Line>, env: Env, m: Machine)
    requires
        array_spaceship_shape(lines),
        m.pc == 18,
        !m.returned,
        !m.stuck,
        read(m, 22) < read(m, 21),
        read(m, 23) != 0,
        (env.call)("__rt_str_spaceship"@, (m.mem)(str_slot(read(m, 19), read(m, 22))), (m.mem)(str_slot(read(m, 19), read(m, 22)) + 8), (m.mem)(str_slot(read(m, 20), read(m, 22))), (m.mem)(str_slot(read(m, 20), read(m, 22)) + 8)) == 0,
    ensures
        ({ let s = run(lines, env, m, 19); &&& s.pc == 18 &&& !s.returned &&& !s.stuck &&& s.mem == m.mem &&& read(s, 19) == read(m, 19) &&& read(s, 20) == read(m, 20) &&& read(s, 21) == read(m, 21) &&& read(s, 22) == read(m, 22) + 1 &&& read(s, 23) == read(m, 23) }),
{
    let m0 = m;
    lemma_step_passes(lines, env, m0);
    let m1 = step(lines, env, m0);
    assert(m1.pc == 19);
    lemma_step_instruction(lines, env, m1, instruction_text(lines[19]), Instr::Cmp(22, Operand::Reg(21)));
    let m2 = step(lines, env, m1);
    assert(m2.pc == 20);
    lemma_step_instruction(lines, env, m2, instruction_text(lines[20]), Instr::BCond(Cond::Ge, "__rt_arr_ss_equal"@));
    let m3 = step(lines, env, m2);
    assert(m3.pc == 21);
    lemma_step_instruction(lines, env, m3, instruction_text(lines[21]), Instr::Cbnz(23, "__rt_arr_ss_str"@));
    let m4 = step(lines, env, m3);
    assert(m4.pc == 30);
    lemma_step_passes(lines, env, m4);
    let m5 = step(lines, env, m4);
    assert(m5.pc == 31);
    lemma_step_instruction(lines, env, m5, instruction_text(lines[31]), Instr::LslImm(9, 22, 4));
    let m6 = step(lines, env, m5);
    assert(m6.pc == 32);
    lemma_step_instruction(lines, env, m6, instruction_text(lines[32]), Instr::Add(10, 19, Operand::Imm(24)));
    let m7 = step(lines, env, m6);
    assert(m7.pc == 33);
    lemma_step_instruction(lines, env, m7, instruction_text(lines[33]), Instr::Add(10, 10, Operand::Reg(9)));
    let m8 = step(lines, env, m7);
    assert(m8.pc == 34);
    lemma_step_instruction(lines, env, m8, instruction_text(lines[34]), Instr::Ldr(1, Address::Offset(10, 0)));
    let m9 = step(lines, env, m8);
    assert(m9.pc == 35);
    lemma_step_instruction(lines, env, m9, instruction_text(lines[35]), Instr::Ldr(2, Address::Offset(10, 8)));
    let m10 = step(lines, env, m9);
    assert(m10.pc == 36);
    lemma_step_instruction(lines, env, m10, instruction_text(lines[36]), Instr::Add(10, 20, Operand::Imm(24)));
    let m11 = step(lines, env, m10);
    assert(m11.pc == 37);
    lemma_step_instruction(lines, env, m11, instruction_text(lines[37]), Instr::Add(10, 10, Operand::Reg(9)));
    let m12 = step(lines, env, m11);
    assert(m12.pc == 38);
    lemma_step_instruction(lines, env, m12, instruction_text(lines[38]), Instr::Ldr(3, Address::Offset(10, 0)));
    let m13 = step(lines, env, m12);
    assert(m13.pc == 39);
    lemma_step_instruction(lines, env, m13, instruction_text(lines[39]), Instr::Ldr(4, Address::Offset(10, 8)));
    let m14 = step(lines, env, m13);
    assert(m14.pc == 40);
    lemma_step_instruction(lines, env, m14, instruction_text(lines[40]), Instr::Bl("__rt_str_spaceship"@));
    let m15 = step(lines, env, m14);
    assert(m15.pc == 41);
    lemma_step_instruction(lines, env, m15, instruction_text(lines[41]), Instr::Cbnz(0, "__rt_arr_ss_ret"@));
    let m16 = step(lines, env, m15);
    assert(m16.pc == 42);
    lemma_step_passes(lines, env, m16);
    let m17 = step(lines, env, m16);
    assert(m17.pc == 43);
    lemma_step_instruction(lines, env, m17, instruction_text(lines[43]), Instr::Add(22, 22, Operand::Imm(1)));
    let m18 = step(lines, env, m17);
    assert(m18.pc == 44);
    lemma_step_instruction(lines, env, m18, instruction_text(lines[44]), Instr::B("__rt_arr_ss_loop"@));
    let m19 = step(lines, env, m18);
    lemma_run_step(lines, env, m0, 18);
    lemma_run_step(lines, env, m1, 17);
    lemma_run_step(lines, env, m2, 16);
    lemma_run_step(lines, env, m3, 15);
    lemma_run_step(lines, env, m4, 14);
    lemma_run_step(lines, env, m5, 13);
    lemma_run_step(lines, env, m6, 12);
    lemma_run_step(lines, env, m7, 11);
    lemma_run_step(lines, env, m8, 10);
    lemma_run_step(lines, env, m9, 9);
    lemma_run_step(lines, env, m10, 8);
    lemma_run_step(lines, env, m11, 7);
    lemma_run_step(lines, env, m12, 6);
    lemma_run_step(lines, env, m13, 5);
    lemma_run_step(lines, env, m14, 4);
    lemma_run_step(lines, env, m15, 3);
    lemma_run_step(lines, env, m16, 2);
    lemma_run_step(lines, env, m17, 1);
    lemma_run_step(lines, env, m18, 0);
}

/// The address `a` lies outside the 64-byte frame that `__rt_array_spaceship` saves
/// registers into below the stack pointer `sp`.
pub open spec fn outside_frame(a: int, sp: int) -> bool {
    a < sp - 64 || a >= sp
}

/// The address of element `j` of the array at `base`: 8-byte slots from 24 bytes past the
/// array's header.
pub open spec fn element_slot(base: int, j: int) -> int {
    base + 24 + 8 * j
}

/// PHP's pairwise order of two integer arrays of `n` elements each, from index `i`:
/// the first pair that differs decides (-1 when the left element is smaller, 1 when it
/// is larger), and 0 when every pair is equal. Elements are 8-byte slots from 24 bytes
/// past each array's header.
pub open spec fn int_elements_order(mem: spec_fn(int) -> int, left: int, right: int, n: int, i: int) -> int
    decreases n - i,
{
    if i >= n {
        0
    } else {
        let a = mem(element_slot(left, i));
        let b = mem(element_slot(right, i));
        if a < b {
            -1
        } else if a > b {
            1
        } else {
            int_elements_order(mem, left, right, n, i + 1)
        }
    }
}

/// PHP's `<=>` of two integer arrays: the one with fewer elements (the count word at the
/// array's address) is smaller; arrays of equal count are ordered pair by pair.
pub open spec fn int_array_order(mem: spec_fn(int) -> int, left: int, right: int) -> int {
    let n = mem(left);
    let nr = mem(right);
    if n < nr {
        -1
    } else if n > nr {
        1
    } else {
        int_elements_order(mem, left, right, n, 0)
    }
}

/// Two memories that agree on the element slots order the arrays alike.
proof fn lemma_int_elements_order_agree(
    m1: spec_fn(int) -> int,
    m2: spec_fn(int) -> int,
    left: int,
    right: int,
    n: int,
    i: int,
)
    requires
        forall|j: int|
            #![trigger element_slot(left, j)]
            i <= j < n ==> m1(element_slot(left, j)) == m2(element_slot(left, j))
                && m1(element_slot(right, j)) == m2(element_slot(right, j)),
    ensures
        int_elements_order(m1, left, right, n, i) == int_elements_order(m2, left, right, n, i),
    decreases n - i,
{
    if i < n {
        assert(m1(element_slot(left, i)) == m2(element_slot(left, i)));
        assert(m1(element_slot(right, i)) == m2(element_slot(right, i)));
        lemma_int_elements_order_agree(m1, m2, left, right, n, i + 1);
    }
}

/// The element loop of `__rt_array_spaceship` in integer mode, entered at index `i`,
/// returns within 15 lines per remaining pair plus 21 with the pairwise order in `x0`.
#[verifier::rlimit(40)]
proof fn lemma_array_spaceship_loop(lines: Seq<Line>, env: Env, s: Machine, n: int, i: int)
    requires
        array_spaceship_shape(lines),
        s.pc == 18,
        !s.returned,
        !s.stuck,
        read(s, 21) == n,
        read(s, 22) == i,
        read(s, 23) == 0,
        0 <= i <= n,
    ensures
        run(lines, env, s, (15 * (n - i) + 21) as nat).returned,
        read(run(lines, env, s, (15 * (n - i) + 21) as nat), 0)
            == int_elements_order(s.mem, read(s, 19), read(s, 20), n, i),
    decreases n - i,
{
    let total = (15 * (n - i) + 21) as nat;
    let a = (s.mem)(element_slot(read(s, 19), i));
    let b = (s.mem)(element_slot(read(s, 20), i));
    if i >= n {
        lemma_array_spaceship_loop_done(lines, env, s);
        lemma_run_split(lines, env, s, 12, (total - 12) as nat);
        lemma_run_returned(lines, env, run(lines, env, s, 12), (total - 12) as nat);
    } else if a < b {
        lemma_array_spaceship_loop_less(lines, env, s);
        lemma_run_split(lines, env, s, 20, (total - 20) as nat);
        lemma_run_returned(lines, env, run(lines, env, s, 20), (total - 20) as nat);
    } else if a > b {
        lemma_array_spaceship_loop_greater(lines, env, s);
        lemma_run_split(lines, env, s, 21, (total - 21) as nat);
        lemma_run_returned(lines, env, run(lines, env, s, 21), (total - 21) as nat);
    } else {
        lemma_array_spaceship_loop_next(lines, env, s);
        let s2 = run(lines, env, s, 15);
        lemma_array_spaceship_loop(lines, env, s2, n, i + 1);
        lemma_run_split(lines, env, s, 15, (total - 15) as nat);
        assert((total - 15) as nat == (15 * (n - (i + 1)) + 21) as nat);
    }
}

/// `__rt_array_spaceship` orders integer arrays as PHP's `<=>` does: on AArch64, with the
/// left array in `x1`, the right one in `x2` and mode 0 (integer elements) in `x3`, the
/// helper returns, within 15 lines per element plus 37, with `x0` = -1 when the left array
/// has fewer elements, 1 when it has more, and otherwise the sign of the first differing
/// pair (`left[i] < right[i]` gives -1, `left[i] > right[i]` gives 1), or 0 when all pairs
/// are equal. The arrays' words must lie outside the 64 bytes below `sp` where the helper
/// saves registers.
pub proof fn lemma_array_spaceship_orders_int_arrays(t: Target, env: Env, m: Machine)
    requires
        t.arch == Arch::AArch64,
        m.pc == find_label(array_spaceship(Seq::empty(), t), "__rt_array_spaceship"@, 0),
        !m.returned,
        !m.stuck,
        read(m, 3) == 0,
        0 <= (m.mem)(read(m, 1)),
        outside_frame(read(m, 1), read(m, 31)),
        outside_frame(read(m, 2), read(m, 31)),
        forall|j: int|
            #![trigger element_slot(read(m, 1), j)]
            0 <= j < (m.mem)(read(m, 1)) ==> outside_frame(element_slot(read(m, 1), j), read(m, 31))
                && outside_frame(element_slot(read(m, 2), j), read(m, 31)),
    ensures
        ({
            let r = run(array_spaceship(Seq::empty(), t), env, m, (15 * (m.mem)(read(m, 1)) + 37) as nat);
            &&& r.returned
            &&& read(r, 0) == int_array_order(m.mem, read(m, 1), read(m, 2))
        }),
{
    let lines = array_spaceship(Seq::empty(), t);
    lemma_array_spaceship_shape(t);
    let n = (m.mem)(read(m, 1));
    let nr = (m.mem)(read(m, 2));
    let total = (15 * n + 37) as nat;
    if n < nr {
        lemma_array_spaceship_count_less(lines, env, m);
        lemma_run_split(lines, env, m, 24, (total - 24) as nat);
        lemma_run_returned(lines, env, run(lines, env, m, 24), (total - 24) as nat);
    } else if n > nr {
        lemma_array_spaceship_count_greater(lines, env, m);
        lemma_run_split(lines, env, m, 25, (total - 25) as nat);
        lemma_run_returned(lines, env, run(lines, env, m, 25), (total - 25) as nat);
    } else {
        lemma_array_spaceship_enter_loop(lines, env, m);
        let s = run(lines, env, m, 16);
        lemma_array_spaceship_loop(lines, env, s, n, 0);
        lemma_run_split(lines, env, m, 16, (total - 16) as nat);
        assert((total - 16) as nat == (15 * (n - 0) + 21) as nat);
        assert forall|j: int| 0 <= j < n implies (s.mem)(element_slot(read(m, 1), j)) == (m.mem)(element_slot(read(m, 1), j))
            && (s.mem)(element_slot(read(m, 2), j)) == (m.mem)(element_slot(read(m, 2), j)) by {
            assert(outside_frame(element_slot(read(m, 1), j), read(m, 31)));
            assert(outside_frame(element_slot(read(m, 2), j), read(m, 31)));
        }
        lemma_int_elements_order_agree(s.mem, m.mem, read(m, 1), read(m, 2), n, 0);
    }
}

/// The address of string element `j` of the array at `base`: 16-byte pointer/length slots
/// from 24 bytes past the array's header.
pub open spec fn str_slot(base: int, j: int) -> int {
    base + 24 + 16 * j
}

/// PHP's pairwise order of two string arrays of `n` elements each, from index `i`: the
/// first pair that `__rt_str_spaceship` (as `call` reports it, for the left string's
/// pointer and length and the right one's) does not find equal decides, with that
/// helper's result; 0 when every pair is equal.
pub open spec fn str_elements_order(
    mem: spec_fn(int) -> int,
    call: spec_fn(Seq<char>, int, int, int, int) -> int,
    left: int,
    right: int,
    n: int,
    i: int,
) -> int
    decreases n - i,
{
    if i >= n {
        0
    } else {
        let c = call(
            "__rt_str_spaceship"@,
            mem(str_slot(left, i)),
            mem(str_slot(left, i) + 8),
            mem(str_slot(right, i)),
            mem(str_slot(right, i) + 8),
        );
        if c != 0 {
            c
        } else {
            str_elements_order(mem, call, left, right, n, i + 1)
        }
    }
}

/// PHP's `<=>` of two string arrays: the one with fewer elements is smaller; arrays of
/// equal count are ordered pair by pair.
pub open spec fn str_array_order(
    mem: spec_fn(int) -> int,
    call: spec_fn(Seq<char>, int, int, int, int) -> int,
    left: int,
    right: int,
) -> int {
    let n = mem(left);
    let nr = mem(right);
    if n < nr {
        -1
    } else if n > nr {
        1
    } else {
        str_elements_order(mem, call, left, right, n, 0)
    }
}

/// Two memories that agree on the string slots order the arrays alike.
proof fn lemma_str_elements_order_agree(
    m1: spec_fn(int) -> int,
    m2: spec_fn(int) -> int,
    call: spec_fn(Seq<char>, int, int, int, int) -> int,
    left: int,
    right: int,
    n: int,
    i: int,
)
    requires
        forall|j: int|
            #![trigger str_slot(left, j)]
            i <= j < n ==> m1(str_slot(left, j)) == m2(str_slot(left, j))
                && m1(str_slot(left, j) + 8) == m2(str_slot(left, j) + 8)
                && m1(str_slot(right, j)) == m2(str_slot(right, j))
                && m1(str_slot(right, j) + 8) == m2(str_slot(right, j) + 8),
    ensures
        str_elements_order(m1, call, left, right, n, i) == str_elements_order(m2, call, left, right, n, i),
    decreases n - i,
{
    if i < n {
        assert(m1(str_slot(left, i)) == m2(str_slot(left, i)));
        lemma_str_elements_order_agree(m1, m2, call, left, right, n, i + 1);
    }
}

/// The element loop of `__rt_array_spaceship` in string mode, entered at index `i`,
/// returns within 19 lines per remaining pair plus 23 with the pairwise order in `x0`.
#[verifier::rlimit(40)]
proof fn lemma_array_spaceship_str_loop(lines: Seq<Line>, env: Env, s: Machine, n: int, i: int)
    requires
        array_spaceship_shape(lines),
        s.pc == 18,
        !s.returned,
        !s.stuck,
        read(s, 21) == n,
        read(s, 22) == i,
        read(s, 23) != 0,
        0 <= i <= n,
    ensures
        run(lines, env, s, (19 * (n - i) + 23) as nat).returned,
        read(run(lines, env, s, (19 * (n - i) + 23) as nat), 0)
            == str_elements_order(s.mem, env.call, read(s, 19), read(s, 20), n, i),
    decreases n - i,
{
    let total = (19 * (n - i) + 23) as nat;
    let c = (env.call)(
        "__rt_str_spaceship"@,
        (s.mem)(str_slot(read(s, 19), i)),
        (s.mem)(str_slot(read(s, 19), i) + 8),
        (s.mem)(str_slot(read(s, 20), i)),
        (s.mem)(str_slot(read(s, 20), i) + 8),
    );
    if i >= n {
        lemma_array_spaceship_loop_done(lines, env, s);
        lemma_run_split(lines, env, s, 12, (total - 12) as nat);
        lemma_run_returned(lines, env, run(lines, env, s, 12), (total - 12) as nat);
    } else if c != 0 {
        lemma_array_spaceship_loop_str_found(lines, env, s);
        lemma_run_split(lines, env, s, 23, (total - 23) as nat);
        lemma_run_returned(lines, env, run(lines, env, s, 23), (total - 23) as nat);
    } else {
        lemma_array_spaceship_loop_str_next(lines, env, s);
        let s2 = run(lines, env, s, 19);
        lemma_array_spaceship_str_loop(lines, env, s2, n, i + 1);
        lemma_run_split(lines, env, s, 19, (total - 19) as nat);
        assert((total - 19) as nat == (19 * (n - (i + 1)) + 23) as nat);
    }
}

/// `__rt_array_spaceship` orders string arrays as PHP's `<=>` does: on AArch64, with the
/// left array in `x1`, the right one in `x2` and a non-zero mode (string elements) in
/// `x3`, the helper returns, within 19 lines per element plus 39, with `x0` = -1 when the
/// left array has fewer elements, 1 when it has more, and otherwise what
/// `__rt_str_spaceship` reports for the first pair it does not find equal, or 0 when it
/// finds every pair equal. The arrays' words must lie outside the 64 bytes below `sp`
/// where the helper saves registers.
pub proof fn lemma_array_spaceship_orders_string_arrays(t: Target, env: Env, m: Machine)
    requires
        t.arch == Arch::AArch64,
        m.pc == find_label(array_spaceship(Seq::empty(), t), "__rt_array_spaceship"@, 0),
        !m.returned,
        !m.stuck,
        read(m, 3) != 0,
        0 <= (m.mem)(read(m, 1)),
        outside_frame(read(m, 1), read(m, 31)),
        outside_frame(read(m, 2), read(m, 31)),
        forall|j: int|
            #![trigger str_slot(read(m, 1), j)]
            0 <= j < (m.mem)(read(m, 1)) ==> outside_frame(str_slot(read(m, 1), j), read(m, 31))
                && outside_frame(str_slot(read(m, 1), j) + 8, read(m, 31))
                && outside_frame(str_slot(read(m, 2), j), read(m, 31))
                && outside_frame(str_slot(read(m, 2), j) + 8, read(m, 31)),
    ensures
        ({
            let r = run(array_spaceship(Seq::empty(), t), env, m, (19 * (m.mem)(read(m, 1)) + 39) as nat);
            &&& r.returned
            &&& read(r, 0) == str_array_order(m.mem, env.call, read(m, 1), read(m, 2))
        }),
{
    let lines = array_spaceship(Seq::empty(), t);
    lemma_array_spaceship_shape(t);
    let n = (m.mem)(read(m, 1));
    let nr = (m.mem)(read(m, 2));
    let total = (19 * n + 39) as nat;
    if n < nr {
        lemma_array_spaceship_count_less(lines, env, m);
        lemma_run_split(lines, env, m, 24, (total - 24) as nat);
        lemma_run_returned(lines, env, run(lines, env, m, 24), (total - 24) as nat);
    } else if n > nr {
        lemma_array_spaceship_count_greater(lines, env, m);
        lemma_run_split(lines, env, m, 25, (total - 25) as nat);
        lemma_run_returned(lines, env, run(lines, env, m, 25), (total - 25) as nat);
    } else {
        lemma_array_spaceship_enter_loop(lines, env, m);
        let s = run(lines, env, m, 16);
        lemma_array_spaceship_str_loop(lines, env, s, n, 0);
        lemma_run_split(lines, env, m, 16, (total - 16) as nat);
        assert((total - 16) as nat == (19 * (n - 0) + 23) as nat);
        assert forall|j: int| 0 <= j < n implies
            (s.mem)(str_slot(read(m, 1), j)) == (m.mem)(str_slot(read(m, 1), j))
            && (s.mem)(str_slot(read(m, 1), j) + 8) == (m.mem)(str_slot(read(m, 1), j) + 8)
            && (s.mem)(str_slot(read(m, 2), j)) == (m.mem)(str_slot(read(m, 2), j))
            && (s.mem)(str_slot(read(m, 2), j) + 8) == (m.mem)(str_slot(read(m, 2), j) + 8) by {
            assert(outside_frame(str_slot(read(m, 1), j), read(m, 31)));
        }
        lemma_str_elements_order_agree(s.mem, m.mem, env.call, read(m, 1), read(m, 2), n, 0);
    }
}

} // verus!
