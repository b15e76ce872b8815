//! Purpose:
//! Emits the `__rt_array_strict_eq` runtime helper: PHP `===` deep value-equality for
//! two arrays (indexed or associative). Recurses into nested arrays; read-only.
//!
//! Key details:
//! - PHP `===` on arrays requires the SAME count and the SAME key=>value pairs in the SAME
//!   insertion order, with values recursively `===`. Objects compare by identity (pointer),
//!   which the scalar/pointer word-compare gives for free; nested arrays recurse.
//! - Packed/indexed operands (heap kind 2) are normalized to a hash via `__rt_array_to_hash`
//!   so both sides walk uniformly through `__rt_hash_iter_next` in insertion order. The
//!   normalized temporaries are released with `__rt_decref_any` before returning.
//! - Read-only: no refcount changes to the operands; borrowed values are only compared.
//! - value tags: 1=string, 4=indexed-array, 5=assoc-array, 8=null; anything else (int/float/
//!   bool/object) compares by its low+high payload words. heap kind at [ptr-8] & 0xff: 2=indexed.

use vstd::prelude::*;
use crate::codegen::abi::{self, call_label};
use crate::codegen::emit::{Emitter, Line, ins, label, global, comment, lemma_append_assoc, lemma_append_empty, lemma_append_push};
use crate::codegen::platform::{Arch, Target};

verus! {

/// Appends to `out` the listing that `emit_array_strict_eq` emits for target `t`.
pub open spec fn array_strict_eq(out: Seq<Line>, t: Target) -> Seq<Line> {
    if t.arch == Arch::X86_64 {
        array_strict_eq_linux_x86_64(out, t)
    } else {
        array_strict_eq_aarch64(out, t)
    }
}

/// Appends to `out` the AArch64 listing of `emit_array_strict_eq`.
pub open spec fn array_strict_eq_aarch64(out: Seq<Line>, t: Target) -> Seq<Line> {
    let out = out
        .push(Line::Blank)
        .push(comment("--- runtime: array_strict_eq ---"))
        .push(global("__rt_array_strict_eq"))
        .push(ins("sub sp, sp, #144"))
        .push(ins("stp x29, x30, [sp, #128]"))
        .push(ins("add x29, sp, #128"))
        .push(ins("cmp x0, x1"))
        .push(ins("b.eq __rt_array_strict_eq_true_quick"))
        .push(ins("str x0, [sp, #0]"))
        .push(ins("str x1, [sp, #8]"))
        .push(ins("str xzr, [sp, #16]"))
        .push(ins("str xzr, [sp, #24]"))
        .push(ins("ldr x9, [x0, #-8]"))
        .push(ins("and x9, x9, #0xff"))
        .push(ins("cmp x9, #2"))
        .push(ins("b.ne __rt_array_strict_eq_a_norm_done"));
    let out = out
        .push(ins("ldr x0, [sp, #0]"))
        .push(ins("bl __rt_array_to_hash"))
        .push(ins("str x0, [sp, #0]"))
        .push(ins("str x0, [sp, #16]"))
        .push(label("__rt_array_strict_eq_a_norm_done"))
        .push(ins("ldr x0, [sp, #8]"))
        .push(ins("ldr x9, [x0, #-8]"))
        .push(ins("and x9, x9, #0xff"))
        .push(ins("cmp x9, #2"))
        .push(ins("b.ne __rt_array_strict_eq_b_norm_done"))
        .push(ins("ldr x0, [sp, #8]"))
        .push(ins("bl __rt_array_to_hash"))
        .push(ins("str x0, [sp, #8]"))
        .push(ins("str x0, [sp, #24]"))
        .push(label("__rt_array_strict_eq_b_norm_done"))
        .push(ins("ldr x0, [sp, #0]"));
    let out = out
        .push(ins("ldr x0, [x0]"))
        .push(ins("ldr x1, [sp, #8]"))
        .push(ins("ldr x1, [x1]"))
        .push(ins("cmp x0, x1"))
        .push(ins("b.ne __rt_array_strict_eq_false"))
        .push(ins("str xzr, [sp, #32]"))
        .push(ins("str xzr, [sp, #40]"))
        .push(label("__rt_array_strict_eq_loop"))
        .push(ins("ldr x0, [sp, #0]"))
        .push(ins("ldr x1, [sp, #32]"))
        .push(ins("bl __rt_hash_iter_next"))
        .push(ins("cmn x0, #1"))
        .push(ins("b.eq __rt_array_strict_eq_true"))
        .push(ins("str x0, [sp, #32]"))
        .push(ins("str x1, [sp, #56]"))
        .push(ins("str x2, [sp, #64]"));
    let out = out
        .push(ins("str x3, [sp, #72]"))
        .push(ins("str x4, [sp, #80]"))
        .push(ins("str x5, [sp, #88]"))
        .push(ins("ldr x0, [sp, #8]"))
        .push(ins("ldr x1, [sp, #40]"))
        .push(ins("bl __rt_hash_iter_next"))
        .push(ins("str x0, [sp, #40]"))
        .push(ins("str x3, [sp, #96]"))
        .push(ins("str x4, [sp, #104]"))
        .push(ins("str x5, [sp, #112]"))
        .push(ins("mov x3, x1"))
        .push(ins("mov x4, x2"))
        .push(ins("ldr x1, [sp, #56]"))
        .push(ins("ldr x2, [sp, #64]"))
        .push(ins("bl __rt_hash_key_eq"))
        .push(ins("cbz x0, __rt_array_strict_eq_false"));
    let out = out
        .push(ins("ldr x0, [sp, #88]"))
        .push(ins("ldr x1, [sp, #112]"))
        .push(ins("cmp x0, x1"))
        .push(ins("b.ne __rt_array_strict_eq_false"))
        .push(ins("cmp x0, #8"))
        .push(ins("b.eq __rt_array_strict_eq_loop"))
        .push(ins("cmp x0, #1"))
        .push(ins("b.eq __rt_array_strict_eq_cmp_string"))
        .push(ins("cmp x0, #4"))
        .push(ins("b.eq __rt_array_strict_eq_cmp_array"))
        .push(ins("cmp x0, #5"))
        .push(ins("b.eq __rt_array_strict_eq_cmp_array"))
        .push(ins("cmp x0, #7"))
        .push(ins("b.eq __rt_array_strict_eq_cmp_mixed"))
        .push(ins("ldr x0, [sp, #72]"))
        .push(ins("ldr x1, [sp, #96]"));
    let out = out
        .push(ins("cmp x0, x1"))
        .push(ins("b.ne __rt_array_strict_eq_false"))
        .push(ins("ldr x0, [sp, #80]"))
        .push(ins("ldr x1, [sp, #104]"))
        .push(ins("cmp x0, x1"))
        .push(ins("b.ne __rt_array_strict_eq_false"))
        .push(ins("b __rt_array_strict_eq_loop"))
        .push(label("__rt_array_strict_eq_cmp_string"))
        .push(ins("ldr x1, [sp, #72]"))
        .push(ins("ldr x2, [sp, #80]"))
        .push(ins("ldr x3, [sp, #96]"))
        .push(ins("ldr x4, [sp, #104]"))
        .push(ins("bl __rt_str_eq"))
        .push(ins("cbz x0, __rt_array_strict_eq_false"))
        .push(ins("b __rt_array_strict_eq_loop"))
        .push(label("__rt_array_strict_eq_cmp_array"));
    let out = out
        .push(ins("ldr x0, [sp, #72]"))
        .push(ins("ldr x1, [sp, #96]"))
        .push(ins("bl __rt_array_strict_eq"))
        .push(ins("cbz x0, __rt_array_strict_eq_false"))
        .push(ins("b __rt_array_strict_eq_loop"))
        .push(label("__rt_array_strict_eq_cmp_mixed"))
        .push(ins("ldr x0, [sp, #72]"))
        .push(ins("ldr x1, [sp, #96]"))
        .push(ins("bl __rt_mixed_strict_eq"))
        .push(ins("cbz x0, __rt_array_strict_eq_false"))
        .push(ins("b __rt_array_strict_eq_loop"))
        .push(label("__rt_array_strict_eq_true"))
        .push(ins("mov x9, #1"))
        .push(ins("str x9, [sp, #48]"))
        .push(ins("b __rt_array_strict_eq_cleanup"))
        .push(label("__rt_array_strict_eq_false"));
    let out = out
        .push(ins("str xzr, [sp, #48]"))
        .push(label("__rt_array_strict_eq_cleanup"))
        .push(ins("ldr x0, [sp, #16]"))
        .push(ins("cbz x0, __rt_array_strict_eq_no_a_tmp"))
        .push(ins("bl __rt_decref_any"))
        .push(label("__rt_array_strict_eq_no_a_tmp"))
        .push(ins("ldr x0, [sp, #24]"))
        .push(ins("cbz x0, __rt_array_strict_eq_no_b_tmp"))
        .push(ins("bl __rt_decref_any"))
        .push(label("__rt_array_strict_eq_no_b_tmp"))
        .push(ins("ldr x0, [sp, #48]"))
        .push(ins("ldp x29, x30, [sp, #128]"))
        .push(ins("add sp, sp, #144"))
        .push(ins("ret"))
        .push(label("__rt_array_strict_eq_true_quick"))
        .push(ins("mov x0, #1"));
    let out = out
        .push(ins("ldp x29, x30, [sp, #128]"))
        .push(ins("add sp, sp, #144"))
        .push(ins("ret"));
    out
}

/// Compares two array pointers for PHP strict (`===`) value-equality, recursing into nested
/// arrays. Input: x0/rdi = left array, x1/rsi = right array. Returns 1 in x0/rax when strictly
/// equal, 0 otherwise. Read-only; normalized packed temporaries are freed before return.
pub fn emit_array_strict_eq(emitter: &mut Emitter)
    ensures
        final(emitter).target == old(emitter).target,
        final(emitter)@ == array_strict_eq(old(emitter)@, old(emitter).target),
{
    if emitter.target.arch == Arch::X86_64 {
        emit_array_strict_eq_linux_x86_64(emitter);
        return;
    }
    emitter.blank();
    emitter.comment("--- runtime: array_strict_eq ---");
    emitter.label_global("__rt_array_strict_eq");
    // frame slots (sp-relative): 0=a_h 8=b_h 16=a_tmp 24=b_tmp 32=cur_a 40=cur_b 48=result
    // 56=ka_lo 64=ka_hi 72=va_lo 80=va_hi 88=va_tag 96=vb_lo 104=vb_hi 112=vb_tag; 128=x29/x30
    emitter.instruction("sub sp, sp, #144");    // allocate the compare stack frame
    emitter.instruction("stp x29, x30, [sp, #128]");    // save frame pointer and return address
    emitter.instruction("add x29, sp, #128");    // establish the frame
    emitter.instruction("cmp x0, x1");    // fast path: same array pointer is strictly equal
    emitter.instruction("b.eq __rt_array_strict_eq_true_quick");
    emitter.instruction("str x0, [sp, #0]");    // a_h = left (tentative)
    emitter.instruction("str x1, [sp, #8]");    // b_h = right (tentative)
    emitter.instruction("str xzr, [sp, #16]");    // a_tmp = 0
    emitter.instruction("str xzr, [sp, #24]");    // b_tmp = 0
    // normalize left if packed/indexed (heap kind 2)
    emitter.instruction("ldr x9, [x0, #-8]");    // left heap-kind header word
    emitter.instruction("and x9, x9, #0xff");    // isolate the low-byte heap kind
    emitter.instruction("cmp x9, #2");    // is left a packed indexed array?
    emitter.instruction("b.ne __rt_array_strict_eq_a_norm_done");
    emitter.instruction("ldr x0, [sp, #0]");    // reload left pointer
    emitter.instruction("bl __rt_array_to_hash");    // convert packed -> owned hash, x0 = temp
    emitter.instruction("str x0, [sp, #0]");    // a_h = temp hash
    emitter.instruction("str x0, [sp, #16]");    // a_tmp = temp (free later)
    emitter.label("__rt_array_strict_eq_a_norm_done");
    // normalize right if packed/indexed
    emitter.instruction("ldr x0, [sp, #8]");    // right pointer
    emitter.instruction("ldr x9, [x0, #-8]");    // right heap-kind header word
    emitter.instruction("and x9, x9, #0xff");
    emitter.instruction("cmp x9, #2");
    emitter.instruction("b.ne __rt_array_strict_eq_b_norm_done");
    emitter.instruction("ldr x0, [sp, #8]");
    emitter.instruction("bl __rt_array_to_hash");
    emitter.instruction("str x0, [sp, #8]");    // b_h = temp hash
    emitter.instruction("str x0, [sp, #24]");    // b_tmp = temp
    emitter.label("__rt_array_strict_eq_b_norm_done");
    // length check
    emitter.instruction("ldr x0, [sp, #0]");
    emitter.instruction("ldr x0, [x0]");    // len(a_h) at header offset 0
    emitter.instruction("ldr x1, [sp, #8]");
    emitter.instruction("ldr x1, [x1]");    // len(b_h)
    emitter.instruction("cmp x0, x1");
    emitter.instruction("b.ne __rt_array_strict_eq_false");
    emitter.instruction("str xzr, [sp, #32]");    // cursor_a = 0
    emitter.instruction("str xzr, [sp, #40]");    // cursor_b = 0
    emitter.label("__rt_array_strict_eq_loop");
    emitter.instruction("ldr x0, [sp, #0]");    // a_h
    emitter.instruction("ldr x1, [sp, #32]");    // cursor_a
    emitter.instruction("bl __rt_hash_iter_next");    // x0=cur,x1=kp,x2=kl,x3=vlo,x4=vhi,x5=vtag
    emitter.instruction("cmn x0, #1");    // returned cursor == -1 -> done (all matched)
    emitter.instruction("b.eq __rt_array_strict_eq_true");
    emitter.instruction("str x0, [sp, #32]");    // save next cursor_a
    emitter.instruction("str x1, [sp, #56]");    // ka_lo (key ptr / int)
    emitter.instruction("str x2, [sp, #64]");    // ka_hi (key len / -1)
    emitter.instruction("str x3, [sp, #72]");    // va_lo
    emitter.instruction("str x4, [sp, #80]");    // va_hi
    emitter.instruction("str x5, [sp, #88]");    // va_tag
    emitter.instruction("ldr x0, [sp, #8]");    // b_h
    emitter.instruction("ldr x1, [sp, #40]");    // cursor_b
    emitter.instruction("bl __rt_hash_iter_next");    // x0=cur,x1=kb_lo,x2=kb_hi,x3=vb_lo,x4=vb_hi,x5=vb_tag
    emitter.instruction("str x0, [sp, #40]");    // save next cursor_b
    emitter.instruction("str x3, [sp, #96]");    // vb_lo
    emitter.instruction("str x4, [sp, #104]");    // vb_hi
    emitter.instruction("str x5, [sp, #112]");    // vb_tag
    // compare keys: hash_key_eq(x1=ka_lo,x2=ka_hi,x3=kb_lo,x4=kb_hi)
    emitter.instruction("mov x3, x1");    // x3 = kb_lo (from iter b, currently in x1)
    emitter.instruction("mov x4, x2");    // x4 = kb_hi
    emitter.instruction("ldr x1, [sp, #56]");    // x1 = ka_lo
    emitter.instruction("ldr x2, [sp, #64]");    // x2 = ka_hi
    emitter.instruction("bl __rt_hash_key_eq");    // x0 = 1 if keys equal
    emitter.instruction("cbz x0, __rt_array_strict_eq_false");    // differing keys -> not equal
    // compare value tags
    emitter.instruction("ldr x0, [sp, #88]");    // va_tag
    emitter.instruction("ldr x1, [sp, #112]");    // vb_tag
    emitter.instruction("cmp x0, x1");
    emitter.instruction("b.ne __rt_array_strict_eq_false");
    emitter.instruction("cmp x0, #8");    // null?
    emitter.instruction("b.eq __rt_array_strict_eq_loop");    // matching null tags are equal
    emitter.instruction("cmp x0, #1");    // string?
    emitter.instruction("b.eq __rt_array_strict_eq_cmp_string");
    emitter.instruction("cmp x0, #4");    // indexed-array value?
    emitter.instruction("b.eq __rt_array_strict_eq_cmp_array");
    emitter.instruction("cmp x0, #5");    // assoc-array value?
    emitter.instruction("b.eq __rt_array_strict_eq_cmp_array");
    emitter.instruction("cmp x0, #7");    // boxed mixed cell (heterogeneous element)?
    emitter.instruction("b.eq __rt_array_strict_eq_cmp_mixed");
    // else: scalar/object -> compare low + high payload words
    emitter.instruction("ldr x0, [sp, #72]");    // va_lo
    emitter.instruction("ldr x1, [sp, #96]");    // vb_lo
    emitter.instruction("cmp x0, x1");
    emitter.instruction("b.ne __rt_array_strict_eq_false");
    emitter.instruction("ldr x0, [sp, #80]");    // va_hi
    emitter.instruction("ldr x1, [sp, #104]");    // vb_hi
    emitter.instruction("cmp x0, x1");
    emitter.instruction("b.ne __rt_array_strict_eq_false");
    emitter.instruction("b __rt_array_strict_eq_loop");
    emitter.label("__rt_array_strict_eq_cmp_string");
    emitter.instruction("ldr x1, [sp, #72]");    // left string ptr
    emitter.instruction("ldr x2, [sp, #80]");    // left string len
    emitter.instruction("ldr x3, [sp, #96]");    // right string ptr
    emitter.instruction("ldr x4, [sp, #104]");    // right string len
    emitter.instruction("bl __rt_str_eq");
    emitter.instruction("cbz x0, __rt_array_strict_eq_false");
    emitter.instruction("b __rt_array_strict_eq_loop");
    emitter.label("__rt_array_strict_eq_cmp_array");
    emitter.instruction("ldr x0, [sp, #72]");    // left nested array ptr
    emitter.instruction("ldr x1, [sp, #96]");    // right nested array ptr
    emitter.instruction("bl __rt_array_strict_eq");    // recurse into nested arrays
    emitter.instruction("cbz x0, __rt_array_strict_eq_false");
    emitter.instruction("b __rt_array_strict_eq_loop");
    emitter.label("__rt_array_strict_eq_cmp_mixed");
    emitter.instruction("ldr x0, [sp, #72]");    // va_lo (boxed mixed pointer)
    emitter.instruction("ldr x1, [sp, #96]");    // vb_lo (boxed mixed pointer)
    emitter.instruction("bl __rt_mixed_strict_eq");    // unbox + compare a heterogeneous element
    emitter.instruction("cbz x0, __rt_array_strict_eq_false");
    emitter.instruction("b __rt_array_strict_eq_loop");
    emitter.label("__rt_array_strict_eq_true");
    emitter.instruction("mov x9, #1");
    emitter.instruction("str x9, [sp, #48]");    // result = 1
    emitter.instruction("b __rt_array_strict_eq_cleanup");
    emitter.label("__rt_array_strict_eq_false");
    emitter.instruction("str xzr, [sp, #48]");    // result = 0
    emitter.label("__rt_array_strict_eq_cleanup");
    emitter.instruction("ldr x0, [sp, #16]");    // a_tmp
    emitter.instruction("cbz x0, __rt_array_strict_eq_no_a_tmp");
    emitter.instruction("bl __rt_decref_any");    // free the normalized left temp
    emitter.label("__rt_array_strict_eq_no_a_tmp");
    emitter.instruction("ldr x0, [sp, #24]");    // b_tmp
    emitter.instruction("cbz x0, __rt_array_strict_eq_no_b_tmp");
    emitter.instruction("bl __rt_decref_any");
    emitter.label("__rt_array_strict_eq_no_b_tmp");
    emitter.instruction("ldr x0, [sp, #48]");    // result
    emitter.instruction("ldp x29, x30, [sp, #128]");
    emitter.instruction("add sp, sp, #144");
    emitter.instruction("ret");
    emitter.label("__rt_array_strict_eq_true_quick");
    emitter.instruction("mov x0, #1");    // identical pointers -> equal, no temps allocated
    emitter.instruction("ldp x29, x30, [sp, #128]");
    emitter.instruction("add sp, sp, #144");
    emitter.instruction("ret");
}

/// Appends to `out` the listing that `emit_array_strict_eq_linux_x86_64` emits for target `t`.
pub open spec fn array_strict_eq_linux_x86_64(out: Seq<Line>, t: Target) -> Seq<Line> {
    let out = out
        .push(Line::Blank)
        .push(comment("--- runtime: array_strict_eq ---"))
        .push(global("__rt_array_strict_eq"))
        .push(ins("push rbp"))
        .push(ins("mov rbp, rsp"))
        .push(ins("sub rsp, 128"))
        .push(ins("cmp rdi, rsi"))
        .push(ins("je __rt_array_strict_eq_true_quick"))
        .push(ins("mov QWORD PTR [rbp - 8], rdi"))
        .push(ins("mov QWORD PTR [rbp - 16], rsi"))
        .push(ins("mov QWORD PTR [rbp - 24], 0"))
        .push(ins("mov QWORD PTR [rbp - 32], 0"))
        .push(ins("mov rax, QWORD PTR [rdi - 8]"))
        .push(ins("and rax, 0xff"))
        .push(ins("cmp rax, 2"))
        .push(ins("jne __rt_array_strict_eq_a_norm_done"));
    let out = out
        .push(ins("mov rdi, QWORD PTR [rbp - 8]"))
        .push(call_label(t, "__rt_array_to_hash"@))
        .push(ins("mov QWORD PTR [rbp - 8], rax"))
        .push(ins("mov QWORD PTR [rbp - 24], rax"))
        .push(label("__rt_array_strict_eq_a_norm_done"))
        .push(ins("mov rdi, QWORD PTR [rbp - 16]"))
        .push(ins("mov rax, QWORD PTR [rdi - 8]"))
        .push(ins("and rax, 0xff"))
        .push(ins("cmp rax, 2"))
        .push(ins("jne __rt_array_strict_eq_b_norm_done"))
        .push(ins("mov rdi, QWORD PTR [rbp - 16]"))
        .push(call_label(t, "__rt_array_to_hash"@))
        .push(ins("mov QWORD PTR [rbp - 16], rax"))
        .push(ins("mov QWORD PTR [rbp - 32], rax"))
        .push(label("__rt_array_strict_eq_b_norm_done"))
        .push(ins("mov rax, QWORD PTR [rbp - 8]"));
    let out = out
        .push(ins("mov rax, QWORD PTR [rax]"))
        .push(ins("mov rcx, QWORD PTR [rbp - 16]"))
        .push(ins("mov rcx, QWORD PTR [rcx]"))
        .push(ins("cmp rax, rcx"))
        .push(ins("jne __rt_array_strict_eq_false"))
        .push(ins("mov QWORD PTR [rbp - 40], 0"))
        .push(ins("mov QWORD PTR [rbp - 48], 0"))
        .push(label("__rt_array_strict_eq_loop"))
        .push(ins("mov rdi, QWORD PTR [rbp - 8]"))
        .push(ins("mov rsi, QWORD PTR [rbp - 40]"))
        .push(call_label(t, "__rt_hash_iter_next"@))
        .push(ins("cmp rax, -1"))
        .push(ins("je __rt_array_strict_eq_true"))
        .push(ins("mov QWORD PTR [rbp - 40], rax"))
        .push(ins("mov QWORD PTR [rbp - 64], rdi"))
        .push(ins("mov QWORD PTR [rbp - 72], rdx"));
    let out = out
        .push(ins("mov QWORD PTR [rbp - 80], rcx"))
        .push(ins("mov QWORD PTR [rbp - 88], r8"))
        .push(ins("mov QWORD PTR [rbp - 96], r9"))
        .push(ins("mov rdi, QWORD PTR [rbp - 16]"))
        .push(ins("mov rsi, QWORD PTR [rbp - 48]"))
        .push(call_label(t, "__rt_hash_iter_next"@))
        .push(ins("mov QWORD PTR [rbp - 48], rax"))
        .push(ins("mov QWORD PTR [rbp - 104], rcx"))
        .push(ins("mov QWORD PTR [rbp - 112], r8"))
        .push(ins("mov QWORD PTR [rbp - 120], r9"))
        .push(ins("mov rcx, rdx"))
        .push(ins("mov rdx, rdi"))
        .push(ins("mov rdi, QWORD PTR [rbp - 64]"))
        .push(ins("mov rsi, QWORD PTR [rbp - 72]"))
        .push(call_label(t, "__rt_hash_key_eq"@))
        .push(ins("test rax, rax"));
    let out = out
        .push(ins("je __rt_array_strict_eq_false"))
        .push(ins("mov rax, QWORD PTR [rbp - 96]"))
        .push(ins("mov rcx, QWORD PTR [rbp - 120]"))
        .push(ins("cmp rax, rcx"))
        .push(ins("jne __rt_array_strict_eq_false"))
        .push(ins("cmp rax, 8"))
        .push(ins("je __rt_array_strict_eq_loop"))
        .push(ins("cmp rax, 1"))
        .push(ins("je __rt_array_strict_eq_cmp_string"))
        .push(ins("cmp rax, 4"))
        .push(ins("je __rt_array_strict_eq_cmp_array"))
        .push(ins("cmp rax, 5"))
        .push(ins("je __rt_array_strict_eq_cmp_array"))
        .push(ins("cmp rax, 7"))
        .push(ins("je __rt_array_strict_eq_cmp_mixed"))
        .push(ins("mov rax, QWORD PTR [rbp - 80]"));
    let out = out
        .push(ins("cmp rax, QWORD PTR [rbp - 104]"))
        .push(ins("jne __rt_array_strict_eq_false"))
        .push(ins("mov rax, QWORD PTR [rbp - 88]"))
        .push(ins("cmp rax, QWORD PTR [rbp - 112]"))
        .push(ins("jne __rt_array_strict_eq_false"))
        .push(ins("jmp __rt_array_strict_eq_loop"))
        .push(label("__rt_array_strict_eq_cmp_string"))
        .push(ins("mov rdi, QWORD PTR [rbp - 80]"))
        .push(ins("mov rsi, QWORD PTR [rbp - 88]"))
        .push(ins("mov rdx, QWORD PTR [rbp - 104]"))
        .push(ins("mov rcx, QWORD PTR [rbp - 112]"))
        .push(call_label(t, "__rt_str_eq"@))
        .push(ins("test rax, rax"))
        .push(ins("je __rt_array_strict_eq_false"))
        .push(ins("jmp __rt_array_strict_eq_loop"))
        .push(label("__rt_array_strict_eq_cmp_array"));
    let out = out
        .push(ins("mov rdi, QWORD PTR [rbp - 80]"))
        .push(ins("mov rsi, QWORD PTR [rbp - 104]"))
        .push(call_label(t, "__rt_array_strict_eq"@))
        .push(ins("test rax, rax"))
        .push(ins("je __rt_array_strict_eq_false"))
        .push(ins("jmp __rt_array_strict_eq_loop"))
        .push(label("__rt_array_strict_eq_cmp_mixed"))
        .push(ins("mov rdi, QWORD PTR [rbp - 80]"))
        .push(ins("mov rsi, QWORD PTR [rbp - 104]"))
        .push(call_label(t, "__rt_mixed_strict_eq"@))
        .push(ins("test rax, rax"))
        .push(ins("je __rt_array_strict_eq_false"))
        .push(ins("jmp __rt_array_strict_eq_loop"))
        .push(label("__rt_array_strict_eq_true"))
        .push(ins("mov QWORD PTR [rbp - 56], 1"))
        .push(ins("jmp __rt_array_strict_eq_cleanup"));
    let out = out
        .push(label("__rt_array_strict_eq_false"))
        .push(ins("mov QWORD PTR [rbp - 56], 0"))
        .push(label("__rt_array_strict_eq_cleanup"))
        .push(ins("mov rdi, QWORD PTR [rbp - 24]"))
        .push(ins("test rdi, rdi"))
        .push(ins("jz __rt_array_strict_eq_no_a_tmp"))
        .push(call_label(t, "__rt_decref_any"@))
        .push(label("__rt_array_strict_eq_no_a_tmp"))
        .push(ins("mov rdi, QWORD PTR [rbp - 32]"))
        .push(ins("test rdi, rdi"))
        .push(ins("jz __rt_array_strict_eq_no_b_tmp"))
        .push(call_label(t, "__rt_decref_any"@))
        .push(label("__rt_array_strict_eq_no_b_tmp"))
        .push(ins("mov rax, QWORD PTR [rbp - 56]"))
        .push(ins("add rsp, 128"))
        .push(ins("pop rbp"));
    let out = out
        .push(ins("ret"))
        .push(label("__rt_array_strict_eq_true_quick"))
        .push(ins("mov rax, 1"))
        .push(ins("add rsp, 128"))
        .push(ins("pop rbp"))
        .push(ins("ret"));
    out
}

/// x86_64 Linux implementation of `__rt_array_strict_eq`.
/// Input: rdi = left array, rsi = right array. Returns boolean in rax.
fn emit_array_strict_eq_linux_x86_64(emitter: &mut Emitter)
    ensures
        final(emitter).target == old(emitter).target,
        final(emitter)@ == array_strict_eq_linux_x86_64(old(emitter)@, old(emitter).target),
{
    emitter.blank();
    emitter.comment("--- runtime: array_strict_eq ---");
    emitter.label_global("__rt_array_strict_eq");
    // rbp frame slots: -8=a_h -16=b_h -24=a_tmp -32=b_tmp -40=cur_a -48=cur_b -56=result
    // -64=ka_lo -72=ka_hi -80=va_lo -88=va_hi -96=va_tag -104=vb_lo -112=vb_hi -120=vb_tag
    emitter.instruction("push rbp");
    emitter.instruction("mov rbp, rsp");
    emitter.instruction("sub rsp, 128");
    emitter.instruction("cmp rdi, rsi");    // fast path: identical pointers
    emitter.instruction("je __rt_array_strict_eq_true_quick");
    emitter.instruction("mov QWORD PTR [rbp - 8], rdi");    // a_h = left (tentative)
    emitter.instruction("mov QWORD PTR [rbp - 16], rsi");    // b_h = right (tentative)
    emitter.instruction("mov QWORD PTR [rbp - 24], 0");    // a_tmp = 0
    emitter.instruction("mov QWORD PTR [rbp - 32], 0");    // b_tmp = 0
    // normalize left if packed (heap kind 2)
    emitter.instruction("mov rax, QWORD PTR [rdi - 8]");    // left heap-kind header word
    emitter.instruction("and rax, 0xff");
    emitter.instruction("cmp rax, 2");
    emitter.instruction("jne __rt_array_strict_eq_a_norm_done");
    emitter.instruction("mov rdi, QWORD PTR [rbp - 8]");
    abi::emit_call_label(emitter, "__rt_array_to_hash");    // packed -> owned hash in rax
    emitter.instruction("mov QWORD PTR [rbp - 8], rax");
    emitter.instruction("mov QWORD PTR [rbp - 24], rax");
    emitter.label("__rt_array_strict_eq_a_norm_done");
    // normalize right if packed
    emitter.instruction("mov rdi, QWORD PTR [rbp - 16]");
    emitter.instruction("mov rax, QWORD PTR [rdi - 8]");
    emitter.instruction("and rax, 0xff");
    emitter.instruction("cmp rax, 2");
    emitter.instruction("jne __rt_array_strict_eq_b_norm_done");
    emitter.instruction("mov rdi, QWORD PTR [rbp - 16]");
    abi::emit_call_label(emitter, "__rt_array_to_hash");
    emitter.instruction("mov QWORD PTR [rbp - 16], rax");
    emitter.instruction("mov QWORD PTR [rbp - 32], rax");
    emitter.label("__rt_array_strict_eq_b_norm_done");
    // length check
    emitter.instruction("mov rax, QWORD PTR [rbp - 8]");
    emitter.instruction("mov rax, QWORD PTR [rax]");    // len(a_h)
    emitter.instruction("mov rcx, QWORD PTR [rbp - 16]");
    emitter.instruction("mov rcx, QWORD PTR [rcx]");    // len(b_h)
    emitter.instruction("cmp rax, rcx");
    emitter.instruction("jne __rt_array_strict_eq_false");
    emitter.instruction("mov QWORD PTR [rbp - 40], 0");    // cursor_a = 0
    emitter.instruction("mov QWORD PTR [rbp - 48], 0");    // cursor_b = 0
    emitter.label("__rt_array_strict_eq_loop");
    emitter.instruction("mov rdi, QWORD PTR [rbp - 8]");    // a_h
    emitter.instruction("mov rsi, QWORD PTR [rbp - 40]");    // cursor_a
    abi::emit_call_label(emitter, "__rt_hash_iter_next");    // rax=cur,rdi=kp,rdx=kl,rcx=vlo,r8=vhi,r9=vtag
    emitter.instruction("cmp rax, -1");    // done?
    emitter.instruction("je __rt_array_strict_eq_true");
    emitter.instruction("mov QWORD PTR [rbp - 40], rax");    // save next cursor_a
    emitter.instruction("mov QWORD PTR [rbp - 64], rdi");    // ka_lo
    emitter.instruction("mov QWORD PTR [rbp - 72], rdx");    // ka_hi
    emitter.instruction("mov QWORD PTR [rbp - 80], rcx");    // va_lo
    emitter.instruction("mov QWORD PTR [rbp - 88], r8");    // va_hi
    emitter.instruction("mov QWORD PTR [rbp - 96], r9");    // va_tag
    emitter.instruction("mov rdi, QWORD PTR [rbp - 16]");    // b_h
    emitter.instruction("mov rsi, QWORD PTR [rbp - 48]");    // cursor_b
    abi::emit_call_label(emitter, "__rt_hash_iter_next");    // rax=cur,rdi=kb_lo,rdx=kb_hi,rcx=vb_lo,r8=vb_hi,r9=vb_tag
    emitter.instruction("mov QWORD PTR [rbp - 48], rax");    // save next cursor_b
    emitter.instruction("mov QWORD PTR [rbp - 104], rcx");    // vb_lo
    emitter.instruction("mov QWORD PTR [rbp - 112], r8");    // vb_hi
    emitter.instruction("mov QWORD PTR [rbp - 120], r9");    // vb_tag
    // compare keys: hash_key_eq(rdi=ka_lo,rsi=ka_hi,rdx=kb_lo,rcx=kb_hi)
    emitter.instruction("mov rcx, rdx");    // rcx = kb_hi
    emitter.instruction("mov rdx, rdi");    // rdx = kb_lo (iter-b key ptr)
    emitter.instruction("mov rdi, QWORD PTR [rbp - 64]");    // rdi = ka_lo
    emitter.instruction("mov rsi, QWORD PTR [rbp - 72]");    // rsi = ka_hi
    abi::emit_call_label(emitter, "__rt_hash_key_eq");    // rax = 1 if keys equal
    emitter.instruction("test rax, rax");
    emitter.instruction("je __rt_array_strict_eq_false");
    // compare value tags
    emitter.instruction("mov rax, QWORD PTR [rbp - 96]");    // va_tag
    emitter.instruction("mov rcx, QWORD PTR [rbp - 120]");    // vb_tag
    emitter.instruction("cmp rax, rcx");
    emitter.instruction("jne __rt_array_strict_eq_false");
    emitter.instruction("cmp rax, 8");    // null?
    emitter.instruction("je __rt_array_strict_eq_loop");
    emitter.instruction("cmp rax, 1");    // string?
    emitter.instruction("je __rt_array_strict_eq_cmp_string");
    emitter.instruction("cmp rax, 4");    // indexed-array value?
    emitter.instruction("je __rt_array_strict_eq_cmp_array");
    emitter.instruction("cmp rax, 5");    // assoc-array value?
    emitter.instruction("je __rt_array_strict_eq_cmp_array");
    emitter.instruction("cmp rax, 7");    // boxed mixed cell (heterogeneous element)?
    emitter.instruction("je __rt_array_strict_eq_cmp_mixed");
    // else scalar/object -> compare low + high words
    emitter.instruction("mov rax, QWORD PTR [rbp - 80]");    // va_lo
    emitter.instruction("cmp rax, QWORD PTR [rbp - 104]");    // vb_lo
    emitter.instruction("jne __rt_array_strict_eq_false");
    emitter.instruction("mov rax, QWORD PTR [rbp - 88]");    // va_hi
    emitter.instruction("cmp rax, QWORD PTR [rbp - 112]");    // vb_hi
    emitter.instruction("jne __rt_array_strict_eq_false");
    emitter.instruction("jmp __rt_array_strict_eq_loop");
    emitter.label("__rt_array_strict_eq_cmp_string");
    emitter.instruction("mov rdi, QWORD PTR [rbp - 80]");    // left string ptr
    emitter.instruction("mov rsi, QWORD PTR [rbp - 88]");    // left string len
    emitter.instruction("mov rdx, QWORD PTR [rbp - 104]");    // right string ptr
    emitter.instruction("mov rcx, QWORD PTR [rbp - 112]");    // right string len
    abi::emit_call_label(emitter, "__rt_str_eq");
    emitter.instruction("test rax, rax");
    emitter.instruction("je __rt_array_strict_eq_false");
    emitter.instruction("jmp __rt_array_strict_eq_loop");
    emitter.label("__rt_array_strict_eq_cmp_array");
    emitter.instruction("mov rdi, QWORD PTR [rbp - 80]");    // left nested array ptr
    emitter.instruction("mov rsi, QWORD PTR [rbp - 104]");    // right nested array ptr
    abi::emit_call_label(emitter, "__rt_array_strict_eq");    // recurse
    emitter.instruction("test rax, rax");
    emitter.instruction("je __rt_array_strict_eq_false");
    emitter.instruction("jmp __rt_array_strict_eq_loop");
    emitter.label("__rt_array_strict_eq_cmp_mixed");
    emitter.instruction("mov rdi, QWORD PTR [rbp - 80]");    // va_lo (boxed mixed pointer)
    emitter.instruction("mov rsi, QWORD PTR [rbp - 104]");    // vb_lo (boxed mixed pointer)
    abi::emit_call_label(emitter, "__rt_mixed_strict_eq");    // unbox + compare a heterogeneous element
    emitter.instruction("test rax, rax");
    emitter.instruction("je __rt_array_strict_eq_false");
    emitter.instruction("jmp __rt_array_strict_eq_loop");
    emitter.label("__rt_array_strict_eq_true");
    emitter.instruction("mov QWORD PTR [rbp - 56], 1");    // result = 1
    emitter.instruction("jmp __rt_array_strict_eq_cleanup");
    emitter.label("__rt_array_strict_eq_false");
    emitter.instruction("mov QWORD PTR [rbp - 56], 0");    // result = 0
    emitter.label("__rt_array_strict_eq_cleanup");
    emitter.instruction("mov rdi, QWORD PTR [rbp - 24]");    // a_tmp
    emitter.instruction("test rdi, rdi");
    emitter.instruction("jz __rt_array_strict_eq_no_a_tmp");
    abi::emit_call_label(emitter, "__rt_decref_any");    // free normalized left temp
    emitter.label("__rt_array_strict_eq_no_a_tmp");
    emitter.instruction("mov rdi, QWORD PTR [rbp - 32]");    // b_tmp
    emitter.instruction("test rdi, rdi");
    emitter.instruction("jz __rt_array_strict_eq_no_b_tmp");
    abi::emit_call_label(emitter, "__rt_decref_any");
    emitter.label("__rt_array_strict_eq_no_b_tmp");
    emitter.instruction("mov rax, QWORD PTR [rbp - 56]");    // result
    emitter.instruction("add rsp, 128");
    emitter.instruction("pop rbp");
    emitter.instruction("ret");
    emitter.label("__rt_array_strict_eq_true_quick");
    emitter.instruction("mov rax, 1");    // identical pointers -> equal
    emitter.instruction("add rsp, 128");
    emitter.instruction("pop rbp");
    emitter.instruction("ret");
}

/// The emitter of this module only appends: the block it adds depends on the target
/// alone, and the listing it was handed stays in front of that block unchanged.
/// `array_strict_eq_aarch64` appends a block that does not depend on the listing before it.
proof fn lemma_array_strict_eq_aarch64_appends(out: Seq<Line>, t: Target)
    ensures
        array_strict_eq_aarch64(out, t) == out + array_strict_eq_aarch64(Seq::empty(), t),
{
    let a = out;
    let b = Seq::<Line>::empty();
    lemma_append_empty(out);
    lemma_append_push(out, b, Line::Blank);
    let a = a.push(Line::Blank);
    let b = b.push(Line::Blank);
    lemma_append_push(out, b, comment("--- runtime: array_strict_eq ---"));
    let a = a.push(comment("--- runtime: array_strict_eq ---"));
    let b = b.push(comment("--- runtime: array_strict_eq ---"));
    lemma_append_push(out, b, global("__rt_array_strict_eq"));
    let a = a.push(global("__rt_array_strict_eq"));
    let b = b.push(global("__rt_array_strict_eq"));
    lemma_append_push(out, b, ins("sub sp, sp, #144"));
    let a = a.push(ins("sub sp, sp, #144"));
    let b = b.push(ins("sub sp, sp, #144"));
    lemma_append_push(out, b, ins("stp x29, x30, [sp, #128]"));
    let a = a.push(ins("stp x29, x30, [sp, #128]"));
    let b = b.push(ins("stp x29, x30, [sp, #128]"));
    lemma_append_push(out, b, ins("add x29, sp, #128"));
    let a = a.push(ins("add x29, sp, #128"));
    let b = b.push(ins("add x29, sp, #128"));
    lemma_append_push(out, b, ins("cmp x0, x1"));
    let a = a.push(ins("cmp x0, x1"));
    let b = b.push(ins("cmp x0, x1"));
    lemma_append_push(out, b, ins("b.eq __rt_array_strict_eq_true_quick"));
    let a = a.push(ins("b.eq __rt_array_strict_eq_true_quick"));
    let b = b.push(ins("b.eq __rt_array_strict_eq_true_quick"));
    lemma_append_push(out, b, ins("str x0, [sp, #0]"));
    let a = a.push(ins("str x0, [sp, #0]"));
    let b = b.push(ins("str x0, [sp, #0]"));
    lemma_append_push(out, b, ins("str x1, [sp, #8]"));
    let a = a.push(ins("str x1, [sp, #8]"));
    let b = b.push(ins("str x1, [sp, #8]"));
    lemma_append_push(out, b, ins("str xzr, [sp, #16]"));
    let a = a.push(ins("str xzr, [sp, #16]"));
    let b = b.push(ins("str xzr, [sp, #16]"));
    lemma_append_push(out, b, ins("str xzr, [sp, #24]"));
    let a = a.push(ins("str xzr, [sp, #24]"));
    let b = b.push(ins("str xzr, [sp, #24]"));
    lemma_append_push(out, b, ins("ldr x9, [x0, #-8]"));
    let a = a.push(ins("ldr x9, [x0, #-8]"));
    let b = b.push(ins("ldr x9, [x0, #-8]"));
    lemma_append_push(out, b, ins("and x9, x9, #0xff"));
    let a = a.push(ins("and x9, x9, #0xff"));
    let b = b.push(ins("and x9, x9, #0xff"));
    lemma_append_push(out, b, ins("cmp x9, #2"));
    let a = a.push(ins("cmp x9, #2"));
    let b = b.push(ins("cmp x9, #2"));
    lemma_append_push(out, b, ins("b.ne __rt_array_strict_eq_a_norm_done"));
    let a = a.push(ins("b.ne __rt_array_strict_eq_a_norm_done"));
    let b = b.push(ins("b.ne __rt_array_strict_eq_a_norm_done"));
    lemma_append_push(out, b, ins("ldr x0, [sp, #0]"));
    let a = a.push(ins("ldr x0, [sp, #0]"));
    let b = b.push(ins("ldr x0, [sp, #0]"));
    lemma_append_push(out, b, ins("bl __rt_array_to_hash"));
    let a = a.push(ins("bl __rt_array_to_hash"));
    let b = b.push(ins("bl __rt_array_to_hash"));
    lemma_append_push(out, b, ins("str x0, [sp, #0]"));
    let a = a.push(ins("str x0, [sp, #0]"));
    let b = b.push(ins("str x0, [sp, #0]"));
    lemma_append_push(out, b, ins("str x0, [sp, #16]"));
    let a = a.push(ins("str x0, [sp, #16]"));
    let b = b.push(ins("str x0, [sp, #16]"));
    lemma_append_push(out, b, label("__rt_array_strict_eq_a_norm_done"));
    let a = a.push(label("__rt_array_strict_eq_a_norm_done"));
    let b = b.push(label("__rt_array_strict_eq_a_norm_done"));
    lemma_append_push(out, b, ins("ldr x0, [sp, #8]"));
    let a = a.push(ins("ldr x0, [sp, #8]"));
    let b = b.push(ins("ldr x0, [sp, #8]"));
    lemma_append_push(out, b, ins("ldr x9, [x0, #-8]"));
    let a = a.push(ins("ldr x9, [x0, #-8]"));
    let b = b.push(ins("ldr x9, [x0, #-8]"));
    lemma_append_push(out, b, ins("and x9, x9, #0xff"));
    let a = a.push(ins("and x9, x9, #0xff"));
    let b = b.push(ins("and x9, x9, #0xff"));
    lemma_append_push(out, b, ins("cmp x9, #2"));
    let a = a.push(ins("cmp x9, #2"));
    let b = b.push(ins("cmp x9, #2"));
    lemma_append_push(out, b, ins("b.ne __rt_array_strict_eq_b_norm_done"));
    let a = a.push(ins("b.ne __rt_array_strict_eq_b_norm_done"));
    let b = b.push(ins("b.ne __rt_array_strict_eq_b_norm_done"));
    lemma_append_push(out, b, ins("ldr x0, [sp, #8]"));
    let a = a.push(ins("ldr x0, [sp, #8]"));
    let b = b.push(ins("ldr x0, [sp, #8]"));
    lemma_append_push(out, b, ins("bl __rt_array_to_hash"));
    let a = a.push(ins("bl __rt_array_to_hash"));
    let b = b.push(ins("bl __rt_array_to_hash"));
    lemma_append_push(out, b, ins("str x0, [sp, #8]"));
    let a = a.push(ins("str x0, [sp, #8]"));
    let b = b.push(ins("str x0, [sp, #8]"));
    lemma_append_push(out, b, ins("str x0, [sp, #24]"));
    let a = a.push(ins("str x0, [sp, #24]"));
    let b = b.push(ins("str x0, [sp, #24]"));
    lemma_append_push(out, b, label("__rt_array_strict_eq_b_norm_done"));
    let a = a.push(label("__rt_array_strict_eq_b_norm_done"));
    let b = b.push(label("__rt_array_strict_eq_b_norm_done"));
    lemma_append_push(out, b, ins("ldr x0, [sp, #0]"));
    let a = a.push(ins("ldr x0, [sp, #0]"));
    let b = b.push(ins("ldr x0, [sp, #0]"));
    lemma_append_push(out, b, ins("ldr x0, [x0]"));
    let a = a.push(ins("ldr x0, [x0]"));
    let b = b.push(ins("ldr x0, [x0]"));
    lemma_append_push(out, b, ins("ldr x1, [sp, #8]"));
    let a = a.push(ins("ldr x1, [sp, #8]"));
    let b = b.push(ins("ldr x1, [sp, #8]"));
    lemma_append_push(out, b, ins("ldr x1, [x1]"));
    let a = a.push(ins("ldr x1, [x1]"));
    let b = b.push(ins("ldr x1, [x1]"));
    lemma_append_push(out, b, ins("cmp x0, x1"));
    let a = a.push(ins("cmp x0, x1"));
    let b = b.push(ins("cmp x0, x1"));
    lemma_append_push(out, b, ins("b.ne __rt_array_strict_eq_false"));
    let a = a.push(ins("b.ne __rt_array_strict_eq_false"));
    let b = b.push(ins("b.ne __rt_array_strict_eq_false"));
    lemma_append_push(out, b, ins("str xzr, [sp, #32]"));
    let a = a.push(ins("str xzr, [sp, #32]"));
    let b = b.push(ins("str xzr, [sp, #32]"));
    lemma_append_push(out, b, ins("str xzr, [sp, #40]"));
    let a = a.push(ins("str xzr, [sp, #40]"));
    let b = b.push(ins("str xzr, [sp, #40]"));
    lemma_append_push(out, b, label("__rt_array_strict_eq_loop"));
    let a = a.push(label("__rt_array_strict_eq_loop"));
    let b = b.push(label("__rt_array_strict_eq_loop"));
    lemma_append_push(out, b, ins("ldr x0, [sp, #0]"));
    let a = a.push(ins("ldr x0, [sp, #0]"));
    let b = b.push(ins("ldr x0, [sp, #0]"));
    lemma_append_push(out, b, ins("ldr x1, [sp, #32]"));
    let a = a.push(ins("ldr x1, [sp, #32]"));
    let b = b.push(ins("ldr x1, [sp, #32]"));
    lemma_append_push(out, b, ins("bl __rt_hash_iter_next"));
    let a = a.push(ins("bl __rt_hash_iter_next"));
    let b = b.push(ins("bl __rt_hash_iter_next"));
    lemma_append_push(out, b, ins("cmn x0, #1"));
    let a = a.push(ins("cmn x0, #1"));
    let b = b.push(ins("cmn x0, #1"));
    lemma_append_push(out, b, ins("b.eq __rt_array_strict_eq_true"));
    let a = a.push(ins("b.eq __rt_array_strict_eq_true"));
    let b = b.push(ins("b.eq __rt_array_strict_eq_true"));
    lemma_append_push(out, b, ins("str x0, [sp, #32]"));
    let a = a.push(ins("str x0, [sp, #32]"));
    let b = b.push(ins("str x0, [sp, #32]"));
    lemma_append_push(out, b, ins("str x1, [sp, #56]"));
    let a = a.push(ins("str x1, [sp, #56]"));
    let b = b.push(ins("str x1, [sp, #56]"));
    lemma_append_push(out, b, ins("str x2, [sp, #64]"));
    let a = a.push(ins("str x2, [sp, #64]"));
    let b = b.push(ins("str x2, [sp, #64]"));
    lemma_append_push(out, b, ins("str x3, [sp, #72]"));
    let a = a.push(ins("str x3, [sp, #72]"));
    let b = b.push(ins("str x3, [sp, #72]"));
    lemma_append_push(out, b, ins("str x4, [sp, #80]"));
    let a = a.push(ins("str x4, [sp, #80]"));
    let b = b.push(ins("str x4, [sp, #80]"));
    lemma_append_push(out, b, ins("str x5, [sp, #88]"));
    let a = a.push(ins("str x5, [sp, #88]"));
    let b = b.push(ins("str x5, [sp, #88]"));
    lemma_append_push(out, b, ins("ldr x0, [sp, #8]"));
    let a = a.push(ins("ldr x0, [sp, #8]"));
    let b = b.push(ins("ldr x0, [sp, #8]"));
    lemma_append_push(out, b, ins("ldr x1, [sp, #40]"));
    let a = a.push(ins("ldr x1, [sp, #40]"));
    let b = b.push(ins("ldr x1, [sp, #40]"));
    lemma_append_push(out, b, ins("bl __rt_hash_iter_next"));
    let a = a.push(ins("bl __rt_hash_iter_next"));
    let b = b.push(ins("bl __rt_hash_iter_next"));
    lemma_append_push(out, b, ins("str x0, [sp, #40]"));
    let a = a.push(ins("str x0, [sp, #40]"));
    let b = b.push(ins("str x0, [sp, #40]"));
    lemma_append_push(out, b, ins("str x3, [sp, #96]"));
    let a = a.push(ins("str x3, [sp, #96]"));
    let b = b.push(ins("str x3, [sp, #96]"));
    lemma_append_push(out, b, ins("str x4, [sp, #104]"));
    let a = a.push(ins("str x4, [sp, #104]"));
    let b = b.push(ins("str x4, [sp, #104]"));
    lemma_append_push(out, b, ins("str x5, [sp, #112]"));
    let a = a.push(ins("str x5, [sp, #112]"));
    let b = b.push(ins("str x5, [sp, #112]"));
    lemma_append_push(out, b, ins("mov x3, x1"));
    let a = a.push(ins("mov x3, x1"));
    let b = b.push(ins("mov x3, x1"));
    lemma_append_push(out, b, ins("mov x4, x2"));
    let a = a.push(ins("mov x4, x2"));
    let b = b.push(ins("mov x4, x2"));
    lemma_append_push(out, b, ins("ldr x1, [sp, #56]"));
    let a = a.push(ins("ldr x1, [sp, #56]"));
    let b = b.push(ins("ldr x1, [sp, #56]"));
    lemma_append_push(out, b, ins("ldr x2, [sp, #64]"));
    let a = a.push(ins("ldr x2, [sp, #64]"));
    let b = b.push(ins("ldr x2, [sp, #64]"));
    lemma_append_push(out, b, ins("bl __rt_hash_key_eq"));
    let a = a.push(ins("bl __rt_hash_key_eq"));
    let b = b.push(ins("bl __rt_hash_key_eq"));
    lemma_append_push(out, b, ins("cbz x0, __rt_array_strict_eq_false"));
    let a = a.push(ins("cbz x0, __rt_array_strict_eq_false"));
    let b = b.push(ins("cbz x0, __rt_array_strict_eq_false"));
    lemma_append_push(out, b, ins("ldr x0, [sp, #88]"));
    let a = a.push(ins("ldr x0, [sp, #88]"));
    let b = b.push(ins("ldr x0, [sp, #88]"));
    lemma_append_push(out, b, ins("ldr x1, [sp, #112]"));
    let a = a.push(ins("ldr x1, [sp, #112]"));
    let b = b.push(ins("ldr x1, [sp, #112]"));
    lemma_append_push(out, b, ins("cmp x0, x1"));
    let a = a.push(ins("cmp x0, x1"));
    let b = b.push(ins("cmp x0, x1"));
    lemma_append_push(out, b, ins("b.ne __rt_array_strict_eq_false"));
    let a = a.push(ins("b.ne __rt_array_strict_eq_false"));
    let b = b.push(ins("b.ne __rt_array_strict_eq_false"));
    lemma_append_push(out, b, ins("cmp x0, #8"));
    let a = a.push(ins("cmp x0, #8"));
    let b = b.push(ins("cmp x0, #8"));
    lemma_append_push(out, b, ins("b.eq __rt_array_strict_eq_loop"));
    let a = a.push(ins("b.eq __rt_array_strict_eq_loop"));
    let b = b.push(ins("b.eq __rt_array_strict_eq_loop"));
    lemma_append_push(out, b, ins("cmp x0, #1"));
    let a = a.push(ins("cmp x0, #1"));
    let b = b.push(ins("cmp x0, #1"));
    lemma_append_push(out, b, ins("b.eq __rt_array_strict_eq_cmp_string"));
    let a = a.push(ins("b.eq __rt_array_strict_eq_cmp_string"));
    let b = b.push(ins("b.eq __rt_array_strict_eq_cmp_string"));
    lemma_append_push(out, b, ins("cmp x0, #4"));
    let a = a.push(ins("cmp x0, #4"));
    let b = b.push(ins("cmp x0, #4"));
    lemma_append_push(out, b, ins("b.eq __rt_array_strict_eq_cmp_array"));
    let a = a.push(ins("b.eq __rt_array_strict_eq_cmp_array"));
    let b = b.push(ins("b.eq __rt_array_strict_eq_cmp_array"));
    lemma_append_push(out, b, ins("cmp x0, #5"));
    let a = a.push(ins("cmp x0, #5"));
    let b = b.push(ins("cmp x0, #5"));
    lemma_append_push(out, b, ins("b.eq __rt_array_strict_eq_cmp_array"));
    let a = a.push(ins("b.eq __rt_array_strict_eq_cmp_array"));
    let b = b.push(ins("b.eq __rt_array_strict_eq_cmp_array"));
    lemma_append_push(out, b, ins("cmp x0, #7"));
    let a = a.push(ins("cmp x0, #7"));
    let b = b.push(ins("cmp x0, #7"));
    lemma_append_push(out, b, ins("b.eq __rt_array_strict_eq_cmp_mixed"));
    let a = a.push(ins("b.eq __rt_array_strict_eq_cmp_mixed"));
    let b = b.push(ins("b.eq __rt_array_strict_eq_cmp_mixed"));
    lemma_append_push(out, b, ins("ldr x0, [sp, #72]"));
    let a = a.push(ins("ldr x0, [sp, #72]"));
    let b = b.push(ins("ldr x0, [sp, #72]"));
    lemma_append_push(out, b, ins("ldr x1, [sp, #96]"));
    let a = a.push(ins("ldr x1, [sp, #96]"));
    let b = b.push(ins("ldr x1, [sp, #96]"));
    lemma_append_push(out, b, ins("cmp x0, x1"));
    let a = a.push(ins("cmp x0, x1"));
    let b = b.push(ins("cmp x0, x1"));
    lemma_append_push(out, b, ins("b.ne __rt_array_strict_eq_false"));
    let a = a.push(ins("b.ne __rt_array_strict_eq_false"));
    let b = b.push(ins("b.ne __rt_array_strict_eq_false"));
    lemma_append_push(out, b, ins("ldr x0, [sp, #80]"));
    let a = a.push(ins("ldr x0, [sp, #80]"));
    let b = b.push(ins("ldr x0, [sp, #80]"));
    lemma_append_push(out, b, ins("ldr x1, [sp, #104]"));
    let a = a.push(ins("ldr x1, [sp, #104]"));
    let b = b.push(ins("ldr x1, [sp, #104]"));
    lemma_append_push(out, b, ins("cmp x0, x1"));
    let a = a.push(ins("cmp x0, x1"));
    let b = b.push(ins("cmp x0, x1"));
    lemma_append_push(out, b, ins("b.ne __rt_array_strict_eq_false"));
    let a = a.push(ins("b.ne __rt_array_strict_eq_false"));
    let b = b.push(ins("b.ne __rt_array_strict_eq_false"));
    lemma_append_push(out, b, ins("b __rt_array_strict_eq_loop"));
    let a = a.push(ins("b __rt_array_strict_eq_loop"));
    let b = b.push(ins("b __rt_array_strict_eq_loop"));
    lemma_append_push(out, b, label("__rt_array_strict_eq_cmp_string"));
    let a = a.push(label("__rt_array_strict_eq_cmp_string"));
    let b = b.push(label("__rt_array_strict_eq_cmp_string"));
    lemma_append_push(out, b, ins("ldr x1, [sp, #72]"));
    let a = a.push(ins("ldr x1, [sp, #72]"));
    let b = b.push(ins("ldr x1, [sp, #72]"));
    lemma_append_push(out, b, ins("ldr x2, [sp, #80]"));
    let a = a.push(ins("ldr x2, [sp, #80]"));
    let b = b.push(ins("ldr x2, [sp, #80]"));
    lemma_append_push(out, b, ins("ldr x3, [sp, #96]"));
    let a = a.push(ins("ldr x3, [sp, #96]"));
    let b = b.push(ins("ldr x3, [sp, #96]"));
    lemma_append_push(out, b, ins("ldr x4, [sp, #104]"));
    let a = a.push(ins("ldr x4, [sp, #104]"));
    let b = b.push(ins("ldr x4, [sp, #104]"));
    lemma_append_push(out, b, ins("bl __rt_str_eq"));
    let a = a.push(ins("bl __rt_str_eq"));
    let b = b.push(ins("bl __rt_str_eq"));
    lemma_append_push(out, b, ins("cbz x0, __rt_array_strict_eq_false"));
    let a = a.push(ins("cbz x0, __rt_array_strict_eq_false"));
    let b = b.push(ins("cbz x0, __rt_array_strict_eq_false"));
    lemma_append_push(out, b, ins("b __rt_array_strict_eq_loop"));
    let a = a.push(ins("b __rt_array_strict_eq_loop"));
    let b = b.push(ins("b __rt_array_strict_eq_loop"));
    lemma_append_push(out, b, label("__rt_array_strict_eq_cmp_array"));
    let a = a.push(label("__rt_array_strict_eq_cmp_array"));
    let b = b.push(label("__rt_array_strict_eq_cmp_array"));
    lemma_append_push(out, b, ins("ldr x0, [sp, #72]"));
    let a = a.push(ins("ldr x0, [sp, #72]"));
    let b = b.push(ins("ldr x0, [sp, #72]"));
    lemma_append_push(out, b, ins("ldr x1, [sp, #96]"));
    let a = a.push(ins("ldr x1, [sp, #96]"));
    let b = b.push(ins("ldr x1, [sp, #96]"));
    lemma_append_push(out, b, ins("bl __rt_array_strict_eq"));
    let a = a.push(ins("bl __rt_array_strict_eq"));
    let b = b.push(ins("bl __rt_array_strict_eq"));
    lemma_append_push(out, b, ins("cbz x0, __rt_array_strict_eq_false"));
    let a = a.push(ins("cbz x0, __rt_array_strict_eq_false"));
    let b = b.push(ins("cbz x0, __rt_array_strict_eq_false"));
    lemma_append_push(out, b, ins("b __rt_array_strict_eq_loop"));
    let a = a.push(ins("b __rt_array_strict_eq_loop"));
    let b = b.push(ins("b __rt_array_strict_eq_loop"));
    lemma_append_push(out, b, label("__rt_array_strict_eq_cmp_mixed"));
    let a = a.push(label("__rt_array_strict_eq_cmp_mixed"));
    let b = b.push(label("__rt_array_strict_eq_cmp_mixed"));
    lemma_append_push(out, b, ins("ldr x0, [sp, #72]"));
    let a = a.push(ins("ldr x0, [sp, #72]"));
    let b = b.push(ins("ldr x0, [sp, #72]"));
    lemma_append_push(out, b, ins("ldr x1, [sp, #96]"));
    let a = a.push(ins("ldr x1, [sp, #96]"));
    let b = b.push(ins("ldr x1, [sp, #96]"));
    lemma_append_push(out, b, ins("bl __rt_mixed_strict_eq"));
    let a = a.push(ins("bl __rt_mixed_strict_eq"));
    let b = b.push(ins("bl __rt_mixed_strict_eq"));
    lemma_append_push(out, b, ins("cbz x0, __rt_array_strict_eq_false"));
    let a = a.push(ins("cbz x0, __rt_array_strict_eq_false"));
    let b = b.push(ins("cbz x0, __rt_array_strict_eq_false"));
    lemma_append_push(out, b, ins("b __rt_array_strict_eq_loop"));
    let a = a.push(ins("b __rt_array_strict_eq_loop"));
    let b = b.push(ins("b __rt_array_strict_eq_loop"));
    lemma_append_push(out, b, label("__rt_array_strict_eq_true"));
    let a = a.push(label("__rt_array_strict_eq_true"));
    let b = b.push(label("__rt_array_strict_eq_true"));
    lemma_append_push(out, b, ins("mov x9, #1"));
    let a = a.push(ins("mov x9, #1"));
    let b = b.push(ins("mov x9, #1"));
    lemma_append_push(out, b, ins("str x9, [sp, #48]"));
    let a = a.push(ins("str x9, [sp, #48]"));
    let b = b.push(ins("str x9, [sp, #48]"));
    lemma_append_push(out, b, ins("b __rt_array_strict_eq_cleanup"));
    let a = a.push(ins("b __rt_array_strict_eq_cleanup"));
    let b = b.push(ins("b __rt_array_strict_eq_cleanup"));
    lemma_append_push(out, b, label("__rt_array_strict_eq_false"));
    let a = a.push(label("__rt_array_strict_eq_false"));
    let b = b.push(label("__rt_array_strict_eq_false"));
    lemma_append_push(out, b, ins("str xzr, [sp, #48]"));
    let a = a.push(ins("str xzr, [sp, #48]"));
    let b = b.push(ins("str xzr, [sp, #48]"));
    lemma_append_push(out, b, label("__rt_array_strict_eq_cleanup"));
    let a = a.push(label("__rt_array_strict_eq_cleanup"));
    let b = b.push(label("__rt_array_strict_eq_cleanup"));
    lemma_append_push(out, b, ins("ldr x0, [sp, #16]"));
    let a = a.push(ins("ldr x0, [sp, #16]"));
    let b = b.push(ins("ldr x0, [sp, #16]"));
    lemma_append_push(out, b, ins("cbz x0, __rt_array_strict_eq_no_a_tmp"));
    let a = a.push(ins("cbz x0, __rt_array_strict_eq_no_a_tmp"));
    let b = b.push(ins("cbz x0, __rt_array_strict_eq_no_a_tmp"));
    lemma_append_push(out, b, ins("bl __rt_decref_any"));
    let a = a.push(ins("bl __rt_decref_any"));
    let b = b.push(ins("bl __rt_decref_any"));
    lemma_append_push(out, b, label("__rt_array_strict_eq_no_a_tmp"));
    let a = a.push(label("__rt_array_strict_eq_no_a_tmp"));
    let b = b.push(label("__rt_array_strict_eq_no_a_tmp"));
    lemma_append_push(out, b, ins("ldr x0, [sp, #24]"));
    let a = a.push(ins("ldr x0, [sp, #24]"));
    let b = b.push(ins("ldr x0, [sp, #24]"));
    lemma_append_push(out, b, ins("cbz x0, __rt_array_strict_eq_no_b_tmp"));
    let a = a.push(ins("cbz x0, __rt_array_strict_eq_no_b_tmp"));
    let b = b.push(ins("cbz x0, __rt_array_strict_eq_no_b_tmp"));
    lemma_append_push(out, b, ins("bl __rt_decref_any"));
    let a = a.push(ins("bl __rt_decref_any"));
    let b = b.push(ins("bl __rt_decref_any"));
    lemma_append_push(out, b, label("__rt_array_strict_eq_no_b_tmp"));
    let a = a.push(label("__rt_array_strict_eq_no_b_tmp"));
    let b = b.push(label("__rt_array_strict_eq_no_b_tmp"));
    lemma_append_push(out, b, ins("ldr x0, [sp, #48]"));
    let a = a.push(ins("ldr x0, [sp, #48]"));
    let b = b.push(ins("ldr x0, [sp, #48]"));
    lemma_append_push(out, b, ins("ldp x29, x30, [sp, #128]"));
    let a = a.push(ins("ldp x29, x30, [sp, #128]"));
    let b = b.push(ins("ldp x29, x30, [sp, #128]"));
    lemma_append_push(out, b, ins("add sp, sp, #144"));
    let a = a.push(ins("add sp, sp, #144"));
    let b = b.push(ins("add sp, sp, #144"));
    lemma_append_push(out, b, ins("ret"));
    let a = a.push(ins("ret"));
    let b = b.push(ins("ret"));
    lemma_append_push(out, b, label("__rt_array_strict_eq_true_quick"));
    let a = a.push(label("__rt_array_strict_eq_true_quick"));
    let b = b.push(label("__rt_array_strict_eq_true_quick"));
    lemma_append_push(out, b, ins("mov x0, #1"));
    let a = a.push(ins("mov x0, #1"));
    let b = b.push(ins("mov x0, #1"));
    lemma_append_push(out, b, ins("ldp x29, x30, [sp, #128]"));
    let a = a.push(ins("ldp x29, x30, [sp, #128]"));
    let b = b.push(ins("ldp x29, x30, [sp, #128]"));
    lemma_append_push(out, b, ins("add sp, sp, #144"));
    let a = a.push(ins("add sp, sp, #144"));
    let b = b.push(ins("add sp, sp, #144"));
    lemma_append_push(out, b, ins("ret"));
    let a = a.push(ins("ret"));
    let b = b.push(ins("ret"));
    assert(a == array_strict_eq_aarch64(out, t));
    assert(b == array_strict_eq_aarch64(Seq::empty(), t));
}

/// `array_strict_eq_linux_x86_64` appends a block that does not depend on the listing before it.
proof fn lemma_array_strict_eq_linux_x86_64_appends(out: Seq<Line>, t: Target)
    ensures
        array_strict_eq_linux_x86_64(out, t) == out + array_strict_eq_linux_x86_64(Seq::empty(), t),
{
    let a = out;
    let b = Seq::<Line>::empty();
    lemma_append_empty(out);
    lemma_append_push(out, b, Line::Blank);
    let a = a.push(Line::Blank);
    let b = b.push(Line::Blank);
    lemma_append_push(out, b, comment("--- runtime: array_strict_eq ---"));
    let a = a.push(comment("--- runtime: array_strict_eq ---"));
    let b = b.push(comment("--- runtime: array_strict_eq ---"));
    lemma_append_push(out, b, global("__rt_array_strict_eq"));
    let a = a.push(global("__rt_array_strict_eq"));
    let b = b.push(global("__rt_array_strict_eq"));
    lemma_append_push(out, b, ins("push rbp"));
    let a = a.push(ins("push rbp"));
    let b = b.push(ins("push rbp"));
    lemma_append_push(out, b, ins("mov rbp, rsp"));
    let a = a.push(ins("mov rbp, rsp"));
    let b = b.push(ins("mov rbp, rsp"));
    lemma_append_push(out, b, ins("sub rsp, 128"));
    let a = a.push(ins("sub rsp, 128"));
    let b = b.push(ins("sub rsp, 128"));
    lemma_append_push(out, b, ins("cmp rdi, rsi"));
    let a = a.push(ins("cmp rdi, rsi"));
    let b = b.push(ins("cmp rdi, rsi"));
    lemma_append_push(out, b, ins("je __rt_array_strict_eq_true_quick"));
    let a = a.push(ins("je __rt_array_strict_eq_true_quick"));
    let b = b.push(ins("je __rt_array_strict_eq_true_quick"));
    lemma_append_push(out, b, ins("mov QWORD PTR [rbp - 8], rdi"));
    let a = a.push(ins("mov QWORD PTR [rbp - 8], rdi"));
    let b = b.push(ins("mov QWORD PTR [rbp - 8], rdi"));
    lemma_append_push(out, b, ins("mov QWORD PTR [rbp - 16], rsi"));
    let a = a.push(ins("mov QWORD PTR [rbp - 16], rsi"));
    let b = b.push(ins("mov QWORD PTR [rbp - 16], rsi"));
    lemma_append_push(out, b, ins("mov QWORD PTR [rbp - 24], 0"));
    let a = a.push(ins("mov QWORD PTR [rbp - 24], 0"));
    let b = b.push(ins("mov QWORD PTR [rbp - 24], 0"));
    lemma_append_push(out, b, ins("mov QWORD PTR [rbp - 32], 0"));
    let a = a.push(ins("mov QWORD PTR [rbp - 32], 0"));
    let b = b.push(ins("mov QWORD PTR [rbp - 32], 0"));
    lemma_append_push(out, b, ins("mov rax, QWORD PTR [rdi - 8]"));
    let a = a.push(ins("mov rax, QWORD PTR [rdi - 8]"));
    let b = b.push(ins("mov rax, QWORD PTR [rdi - 8]"));
    lemma_append_push(out, b, ins("and rax, 0xff"));
    let a = a.push(ins("and rax, 0xff"));
    let b = b.push(ins("and rax, 0xff"));
    lemma_append_push(out, b, ins("cmp rax, 2"));
    let a = a.push(ins("cmp rax, 2"));
    let b = b.push(ins("cmp rax, 2"));
    lemma_append_push(out, b, ins("jne __rt_array_strict_eq_a_norm_done"));
    let a = a.push(ins("jne __rt_array_strict_eq_a_norm_done"));
    let b = b.push(ins("jne __rt_array_strict_eq_a_norm_done"));
    lemma_append_push(out, b, ins("mov rdi, QWORD PTR [rbp - 8]"));
    let a = a.push(ins("mov rdi, QWORD PTR [rbp - 8]"));
    let b = b.push(ins("mov rdi, QWORD PTR [rbp - 8]"));
    lemma_append_push(out, b, call_label(t, "__rt_array_to_hash"@));
    let a = a.push(call_label(t, "__rt_array_to_hash"@));
    let b = b.push(call_label(t, "__rt_array_to_hash"@));
    lemma_append_push(out, b, ins("mov QWORD PTR [rbp - 8], rax"));
    let a = a.push(ins("mov QWORD PTR [rbp - 8], rax"));
    let b = b.push(ins("mov QWORD PTR [rbp - 8], rax"));
    lemma_append_push(out, b, ins("mov QWORD PTR [rbp - 24], rax"));
    let a = a.push(ins("mov QWORD PTR [rbp - 24], rax"));
    let b = b.push(ins("mov QWORD PTR [rbp - 24], rax"));
    lemma_append_push(out, b, label("__rt_array_strict_eq_a_norm_done"));
    let a = a.push(label("__rt_array_strict_eq_a_norm_done"));
    let b = b.push(label("__rt_array_strict_eq_a_norm_done"));
    lemma_append_push(out, b, ins("mov rdi, QWORD PTR [rbp - 16]"));
    let a = a.push(ins("mov rdi, QWORD PTR [rbp - 16]"));
    let b = b.push(ins("mov rdi, QWORD PTR [rbp - 16]"));
    lemma_append_push(out, b, ins("mov rax, QWORD PTR [rdi - 8]"));
    let a = a.push(ins("mov rax, QWORD PTR [rdi - 8]"));
    let b = b.push(ins("mov rax, QWORD PTR [rdi - 8]"));
    lemma_append_push(out, b, ins("and rax, 0xff"));
    let a = a.push(ins("and rax, 0xff"));
    let b = b.push(ins("and rax, 0xff"));
    lemma_append_push(out, b, ins("cmp rax, 2"));
    let a = a.push(ins("cmp rax, 2"));
    let b = b.push(ins("cmp rax, 2"));
    lemma_append_push(out, b, ins("jne __rt_array_strict_eq_b_norm_done"));
    let a = a.push(ins("jne __rt_array_strict_eq_b_norm_done"));
    let b = b.push(ins("jne __rt_array_strict_eq_b_norm_done"));
    lemma_append_push(out, b, ins("mov rdi, QWORD PTR [rbp - 16]"));
    let a = a.push(ins("mov rdi, QWORD PTR [rbp - 16]"));
    let b = b.push(ins("mov rdi, QWORD PTR [rbp - 16]"));
    lemma_append_push(out, b, call_label(t, "__rt_array_to_hash"@));
    let a = a.push(call_label(t, "__rt_array_to_hash"@));
    let b = b.push(call_label(t, "__rt_array_to_hash"@));
    lemma_append_push(out, b, ins("mov QWORD PTR [rbp - 16], rax"));
    let a = a.push(ins("mov QWORD PTR [rbp - 16], rax"));
    let b = b.push(ins("mov QWORD PTR [rbp - 16], rax"));
    lemma_append_push(out, b, ins("mov QWORD PTR [rbp - 32], rax"));
    let a = a.push(ins("mov QWORD PTR [rbp - 32], rax"));
    let b = b.push(ins("mov QWORD PTR [rbp - 32], rax"));
    lemma_append_push(out, b, label("__rt_array_strict_eq_b_norm_done"));
    let a = a.push(label("__rt_array_strict_eq_b_norm_done"));
    let b = b.push(label("__rt_array_strict_eq_b_norm_done"));
    lemma_append_push(out, b, ins("mov rax, QWORD PTR [rbp - 8]"));
    let a = a.push(ins("mov rax, QWORD PTR [rbp - 8]"));
    let b = b.push(ins("mov rax, QWORD PTR [rbp - 8]"));
    lemma_append_push(out, b, ins("mov rax, QWORD PTR [rax]"));
    let a = a.push(ins("mov rax, QWORD PTR [rax]"));
    let b = b.push(ins("mov rax, QWORD PTR [rax]"));
    lemma_append_push(out, b, ins("mov rcx, QWORD PTR [rbp - 16]"));
    let a = a.push(ins("mov rcx, QWORD PTR [rbp - 16]"));
    let b = b.push(ins("mov rcx, QWORD PTR [rbp - 16]"));
    lemma_append_push(out, b, ins("mov rcx, QWORD PTR [rcx]"));
    let a = a.push(ins("mov rcx, QWORD PTR [rcx]"));
    let b = b.push(ins("mov rcx, QWORD PTR [rcx]"));
    lemma_append_push(out, b, ins("cmp rax, rcx"));
    let a = a.push(ins("cmp rax, rcx"));
    let b = b.push(ins("cmp rax, rcx"));
    lemma_append_push(out, b, ins("jne __rt_array_strict_eq_false"));
    let a = a.push(ins("jne __rt_array_strict_eq_false"));
    let b = b.push(ins("jne __rt_array_strict_eq_false"));
    lemma_append_push(out, b, ins("mov QWORD PTR [rbp - 40], 0"));
    let a = a.push(ins("mov QWORD PTR [rbp - 40], 0"));
    let b = b.push(ins("mov QWORD PTR [rbp - 40], 0"));
    lemma_append_push(out, b, ins("mov QWORD PTR [rbp - 48], 0"));
    let a = a.push(ins("mov QWORD PTR [rbp - 48], 0"));
    let b = b.push(ins("mov QWORD PTR [rbp - 48], 0"));
    lemma_append_push(out, b, label("__rt_array_strict_eq_loop"));
    let a = a.push(label("__rt_array_strict_eq_loop"));
    let b = b.push(label("__rt_array_strict_eq_loop"));
    lemma_append_push(out, b, ins("mov rdi, QWORD PTR [rbp - 8]"));
    let a = a.push(ins("mov rdi, QWORD PTR [rbp - 8]"));
    let b = b.push(ins("mov rdi, QWORD PTR [rbp - 8]"));
    lemma_append_push(out, b, ins("mov rsi, QWORD PTR [rbp - 40]"));
    let a = a.push(ins("mov rsi, QWORD PTR [rbp - 40]"));
    let b = b.push(ins("mov rsi, QWORD PTR [rbp - 40]"));
    lemma_append_push(out, b, call_label(t, "__rt_hash_iter_next"@));
    let a = a.push(call_label(t, "__rt_hash_iter_next"@));
    let b = b.push(call_label(t, "__rt_hash_iter_next"@));
    lemma_append_push(out, b, ins("cmp rax, -1"));
    let a = a.push(ins("cmp rax, -1"));
    let b = b.push(ins("cmp rax, -1"));
    lemma_append_push(out, b, ins("je __rt_array_strict_eq_true"));
    let a = a.push(ins("je __rt_array_strict_eq_true"));
    let b = b.push(ins("je __rt_array_strict_eq_true"));
    lemma_append_push(out, b, ins("mov QWORD PTR [rbp - 40], rax"));
    let a = a.push(ins("mov QWORD PTR [rbp - 40], rax"));
    let b = b.push(ins("mov QWORD PTR [rbp - 40], rax"));
    lemma_append_push(out, b, ins("mov QWORD PTR [rbp - 64], rdi"));
    let a = a.push(ins("mov QWORD PTR [rbp - 64], rdi"));
    let b = b.push(ins("mov QWORD PTR [rbp - 64], rdi"));
    lemma_append_push(out, b, ins("mov QWORD PTR [rbp - 72], rdx"));
    let a = a.push(ins("mov QWORD PTR [rbp - 72], rdx"));
    let b = b.push(ins("mov QWORD PTR [rbp - 72], rdx"));
    lemma_append_push(out, b, ins("mov QWORD PTR [rbp - 80], rcx"));
    let a = a.push(ins("mov QWORD PTR [rbp - 80], rcx"));
    let b = b.push(ins("mov QWORD PTR [rbp - 80], rcx"));
    lemma_append_push(out, b, ins("mov QWORD PTR [rbp - 88], r8"));
    let a = a.push(ins("mov QWORD PTR [rbp - 88], r8"));
    let b = b.push(ins("mov QWORD PTR [rbp - 88], r8"));
    lemma_append_push(out, b, ins("mov QWORD PTR [rbp - 96], r9"));
    let a = a.push(ins("mov QWORD PTR [rbp - 96], r9"));
    let b = b.push(ins("mov QWORD PTR [rbp - 96], r9"));
    lemma_append_push(out, b, ins("mov rdi, QWORD PTR [rbp - 16]"));
    let a = a.push(ins("mov rdi, QWORD PTR [rbp - 16]"));
    let b = b.push(ins("mov rdi, QWORD PTR [rbp - 16]"));
    lemma_append_push(out, b, ins("mov rsi, QWORD PTR [rbp - 48]"));
    let a = a.push(ins("mov rsi, QWORD PTR [rbp - 48]"));
    let b = b.push(ins("mov rsi, QWORD PTR [rbp - 48]"));
    lemma_append_push(out, b, call_label(t, "__rt_hash_iter_next"@));
    let a = a.push(call_label(t, "__rt_hash_iter_next"@));
    let b = b.push(call_label(t, "__rt_hash_iter_next"@));
    lemma_append_push(out, b, ins("mov QWORD PTR [rbp - 48], rax"));
    let a = a.push(ins("mov QWORD PTR [rbp - 48], rax"));
    let b = b.push(ins("mov QWORD PTR [rbp - 48], rax"));
    lemma_append_push(out, b, ins("mov QWORD PTR [rbp - 104], rcx"));
    let a = a.push(ins("mov QWORD PTR [rbp - 104], rcx"));
    let b = b.push(ins("mov QWORD PTR [rbp - 104], rcx"));
    lemma_append_push(out, b, ins("mov QWORD PTR [rbp - 112], r8"));
    let a = a.push(ins("mov QWORD PTR [rbp - 112], r8"));
    let b = b.push(ins("mov QWORD PTR [rbp - 112], r8"));
    lemma_append_push(out, b, ins("mov QWORD PTR [rbp - 120], r9"));
    let a = a.push(ins("mov QWORD PTR [rbp - 120], r9"));
    let b = b.push(ins("mov QWORD PTR [rbp - 120], r9"));
    lemma_append_push(out, b, ins("mov rcx, rdx"));
    let a = a.push(ins("mov rcx, rdx"));
    let b = b.push(ins("mov rcx, rdx"));
    lemma_append_push(out, b, ins("mov rdx, rdi"));
    let a = a.push(ins("mov rdx, rdi"));
    let b = b.push(ins("mov rdx, rdi"));
    lemma_append_push(out, b, ins("mov rdi, QWORD PTR [rbp - 64]"));
    let a = a.push(ins("mov rdi, QWORD PTR [rbp - 64]"));
    let b = b.push(ins("mov rdi, QWORD PTR [rbp - 64]"));
    lemma_append_push(out, b, ins("mov rsi, QWORD PTR [rbp - 72]"));
    let a = a.push(ins("mov rsi, QWORD PTR [rbp - 72]"));
    let b = b.push(ins("mov rsi, QWORD PTR [rbp - 72]"));
    lemma_append_push(out, b, call_label(t, "__rt_hash_key_eq"@));
    let a = a.push(call_label(t, "__rt_hash_key_eq"@));
    let b = b.push(call_label(t, "__rt_hash_key_eq"@));
    lemma_append_push(out, b, ins("test rax, rax"));
    let a = a.push(ins("test rax, rax"));
    let b = b.push(ins("test rax, rax"));
    lemma_append_push(out, b, ins("je __rt_array_strict_eq_false"));
    let a = a.push(ins("je __rt_array_strict_eq_false"));
    let b = b.push(ins("je __rt_array_strict_eq_false"));
    lemma_append_push(out, b, ins("mov rax, QWORD PTR [rbp - 96]"));
    let a = a.push(ins("mov rax, QWORD PTR [rbp - 96]"));
    let b = b.push(ins("mov rax, QWORD PTR [rbp - 96]"));
    lemma_append_push(out, b, ins("mov rcx, QWORD PTR [rbp - 120]"));
    let a = a.push(ins("mov rcx, QWORD PTR [rbp - 120]"));
    let b = b.push(ins("mov rcx, QWORD PTR [rbp - 120]"));
    lemma_append_push(out, b, ins("cmp rax, rcx"));
    let a = a.push(ins("cmp rax, rcx"));
    let b = b.push(ins("cmp rax, rcx"));
    lemma_append_push(out, b, ins("jne __rt_array_strict_eq_false"));
    let a = a.push(ins("jne __rt_array_strict_eq_false"));
    let b = b.push(ins("jne __rt_array_strict_eq_false"));
    lemma_append_push(out, b, ins("cmp rax, 8"));
    let a = a.push(ins("cmp rax, 8"));
    let b = b.push(ins("cmp rax, 8"));
    lemma_append_push(out, b, ins("je __rt_array_strict_eq_loop"));
    let a = a.push(ins("je __rt_array_strict_eq_loop"));
    let b = b.push(ins("je __rt_array_strict_eq_loop"));
    lemma_append_push(out, b, ins("cmp rax, 1"));
    let a = a.push(ins("cmp rax, 1"));
    let b = b.push(ins("cmp rax, 1"));
    lemma_append_push(out, b, ins("je __rt_array_strict_eq_cmp_string"));
    let a = a.push(ins("je __rt_array_strict_eq_cmp_string"));
    let b = b.push(ins("je __rt_array_strict_eq_cmp_string"));
    lemma_append_push(out, b, ins("cmp rax, 4"));
    let a = a.push(ins("cmp rax, 4"));
    let b = b.push(ins("cmp rax, 4"));
    lemma_append_push(out, b, ins("je __rt_array_strict_eq_cmp_array"));
    let a = a.push(ins("je __rt_array_strict_eq_cmp_array"));
    let b = b.push(ins("je __rt_array_strict_eq_cmp_array"));
    lemma_append_push(out, b, ins("cmp rax, 5"));
    let a = a.push(ins("cmp rax, 5"));
    let b = b.push(ins("cmp rax, 5"));
    lemma_append_push(out, b, ins("je __rt_array_strict_eq_cmp_array"));
    let a = a.push(ins("je __rt_array_strict_eq_cmp_array"));
    let b = b.push(ins("je __rt_array_strict_eq_cmp_array"));
    lemma_append_push(out, b, ins("cmp rax, 7"));
    let a = a.push(ins("cmp rax, 7"));
    let b = b.push(ins("cmp rax, 7"));
    lemma_append_push(out, b, ins("je __rt_array_strict_eq_cmp_mixed"));
    let a = a.push(ins("je __rt_array_strict_eq_cmp_mixed"));
    let b = b.push(ins("je __rt_array_strict_eq_cmp_mixed"));
    lemma_append_push(out, b, ins("mov rax, QWORD PTR [rbp - 80]"));
    let a = a.push(ins("mov rax, QWORD PTR [rbp - 80]"));
    let b = b.push(ins("mov rax, QWORD PTR [rbp - 80]"));
    lemma_append_push(out, b, ins("cmp rax, QWORD PTR [rbp - 104]"));
    let a = a.push(ins("cmp rax, QWORD PTR [rbp - 104]"));
    let b = b.push(ins("cmp rax, QWORD PTR [rbp - 104]"));
    lemma_append_push(out, b, ins("jne __rt_array_strict_eq_false"));
    let a = a.push(ins("jne __rt_array_strict_eq_false"));
    let b = b.push(ins("jne __rt_array_strict_eq_false"));
    lemma_append_push(out, b, ins("mov rax, QWORD PTR [rbp - 88]"));
    let a = a.push(ins("mov rax, QWORD PTR [rbp - 88]"));
    let b = b.push(ins("mov rax, QWORD PTR [rbp - 88]"));
    lemma_append_push(out, b, ins("cmp rax, QWORD PTR [rbp - 112]"));
    let a = a.push(ins("cmp rax, QWORD PTR [rbp - 112]"));
    let b = b.push(ins("cmp rax, QWORD PTR [rbp - 112]"));
    lemma_append_push(out, b, ins("jne __rt_array_strict_eq_false"));
    let a = a.push(ins("jne __rt_array_strict_eq_false"));
    let b = b.push(ins("jne __rt_array_strict_eq_false"));
    lemma_append_push(out, b, ins("jmp __rt_array_strict_eq_loop"));
    let a = a.push(ins("jmp __rt_array_strict_eq_loop"));
    let b = b.push(ins("jmp __rt_array_strict_eq_loop"));
    lemma_append_push(out, b, label("__rt_array_strict_eq_cmp_string"));
    let a = a.push(label("__rt_array_strict_eq_cmp_string"));
    let b = b.push(label("__rt_array_strict_eq_cmp_string"));
    lemma_append_push(out, b, ins("mov rdi, QWORD PTR [rbp - 80]"));
    let a = a.push(ins("mov rdi, QWORD PTR [rbp - 80]"));
    let b = b.push(ins("mov rdi, QWORD PTR [rbp - 80]"));
    lemma_append_push(out, b, ins("mov rsi, QWORD PTR [rbp - 88]"));
    let a = a.push(ins("mov rsi, QWORD PTR [rbp - 88]"));
    let b = b.push(ins("mov rsi, QWORD PTR [rbp - 88]"));
    lemma_append_push(out, b, ins("mov rdx, QWORD PTR [rbp - 104]"));
    let a = a.push(ins("mov rdx, QWORD PTR [rbp - 104]"));
    let b = b.push(ins("mov rdx, QWORD PTR [rbp - 104]"));
    lemma_append_push(out, b, ins("mov rcx, QWORD PTR [rbp - 112]"));
    let a = a.push(ins("mov rcx, QWORD PTR [rbp - 112]"));
    let b = b.push(ins("mov rcx, QWORD PTR [rbp - 112]"));
    lemma_append_push(out, b, call_label(t, "__rt_str_eq"@));
    let a = a.push(call_label(t, "__rt_str_eq"@));
    let b = b.push(call_label(t, "__rt_str_eq"@));
    lemma_append_push(out, b, ins("test rax, rax"));
    let a = a.push(ins("test rax, rax"));
    let b = b.push(ins("test rax, rax"));
    lemma_append_push(out, b, ins("je __rt_array_strict_eq_false"));
    let a = a.push(ins("je __rt_array_strict_eq_false"));
    let b = b.push(ins("je __rt_array_strict_eq_false"));
    lemma_append_push(out, b, ins("jmp __rt_array_strict_eq_loop"));
    let a = a.push(ins("jmp __rt_array_strict_eq_loop"));
    let b = b.push(ins("jmp __rt_array_strict_eq_loop"));
    lemma_append_push(out, b, label("__rt_array_strict_eq_cmp_array"));
    let a = a.push(label("__rt_array_strict_eq_cmp_array"));
    let b = b.push(label("__rt_array_strict_eq_cmp_array"));
    lemma_append_push(out, b, ins("mov rdi, QWORD PTR [rbp - 80]"));
    let a = a.push(ins("mov rdi, QWORD PTR [rbp - 80]"));
    let b = b.push(ins("mov rdi, QWORD PTR [rbp - 80]"));
    lemma_append_push(out, b, ins("mov rsi, QWORD PTR [rbp - 104]"));
    let a = a.push(ins("mov rsi, QWORD PTR [rbp - 104]"));
    let b = b.push(ins("mov rsi, QWORD PTR [rbp - 104]"));
    lemma_append_push(out, b, call_label(t, "__rt_array_strict_eq"@));
    let a = a.push(call_label(t, "__rt_array_strict_eq"@));
    let b = b.push(call_label(t, "__rt_array_strict_eq"@));
    lemma_append_push(out, b, ins("test rax, rax"));
    let a = a.push(ins("test rax, rax"));
    let b = b.push(ins("test rax, rax"));
    lemma_append_push(out, b, ins("je __rt_array_strict_eq_false"));
    let a = a.push(ins("je __rt_array_strict_eq_false"));
    let b = b.push(ins("je __rt_array_strict_eq_false"));
    lemma_append_push(out, b, ins("jmp __rt_array_strict_eq_loop"));
    let a = a.push(ins("jmp __rt_array_strict_eq_loop"));
    let b = b.push(ins("jmp __rt_array_strict_eq_loop"));
    lemma_append_push(out, b, label("__rt_array_strict_eq_cmp_mixed"));
    let a = a.push(label("__rt_array_strict_eq_cmp_mixed"));
    let b = b.push(label("__rt_array_strict_eq_cmp_mixed"));
    lemma_append_push(out, b, ins("mov rdi, QWORD PTR [rbp - 80]"));
    let a = a.push(ins("mov rdi, QWORD PTR [rbp - 80]"));
    let b = b.push(ins("mov rdi, QWORD PTR [rbp - 80]"));
    lemma_append_push(out, b, ins("mov rsi, QWORD PTR [rbp - 104]"));
    let a = a.push(ins("mov rsi, QWORD PTR [rbp - 104]"));
    let b = b.push(ins("mov rsi, QWORD PTR [rbp - 104]"));
    lemma_append_push(out, b, call_label(t, "__rt_mixed_strict_eq"@));
    let a = a.push(call_label(t, "__rt_mixed_strict_eq"@));
    let b = b.push(call_label(t, "__rt_mixed_strict_eq"@));
    lemma_append_push(out, b, ins("test rax, rax"));
    let a = a.push(ins("test rax, rax"));
    let b = b.push(ins("test rax, rax"));
    lemma_append_push(out, b, ins("je __rt_array_strict_eq_false"));
    let a = a.push(ins("je __rt_array_strict_eq_false"));
    let b = b.push(ins("je __rt_array_strict_eq_false"));
    lemma_append_push(out, b, ins("jmp __rt_array_strict_eq_loop"));
    let a = a.push(ins("jmp __rt_array_strict_eq_loop"));
    let b = b.push(ins("jmp __rt_array_strict_eq_loop"));
    lemma_append_push(out, b, label("__rt_array_strict_eq_true"));
    let a = a.push(label("__rt_array_strict_eq_true"));
    let b = b.push(label("__rt_array_strict_eq_true"));
    lemma_append_push(out, b, ins("mov QWORD PTR [rbp - 56], 1"));
    let a = a.push(ins("mov QWORD PTR [rbp - 56], 1"));
    let b = b.push(ins("mov QWORD PTR [rbp - 56], 1"));
    lemma_append_push(out, b, ins("jmp __rt_array_strict_eq_cleanup"));
    let a = a.push(ins("jmp __rt_array_strict_eq_cleanup"));
    let b = b.push(ins("jmp __rt_array_strict_eq_cleanup"));
    lemma_append_push(out, b, label("__rt_array_strict_eq_false"));
    let a = a.push(label("__rt_array_strict_eq_false"));
    let b = b.push(label("__rt_array_strict_eq_false"));
    lemma_append_push(out, b, ins("mov QWORD PTR [rbp - 56], 0"));
    let a = a.push(ins("mov QWORD PTR [rbp - 56], 0"));
    let b = b.push(ins("mov QWORD PTR [rbp - 56], 0"));
    lemma_append_push(out, b, label("__rt_array_strict_eq_cleanup"));
    let a = a.push(label("__rt_array_strict_eq_cleanup"));
    let b = b.push(label("__rt_array_strict_eq_cleanup"));
    lemma_append_push(out, b, ins("mov rdi, QWORD PTR [rbp - 24]"));
    let a = a.push(ins("mov rdi, QWORD PTR [rbp - 24]"));
    let b = b.push(ins("mov rdi, QWORD PTR [rbp - 24]"));
    lemma_append_push(out, b, ins("test rdi, rdi"));
    let a = a.push(ins("test rdi, rdi"));
    let b = b.push(ins("test rdi, rdi"));
    lemma_append_push(out, b, ins("jz __rt_array_strict_eq_no_a_tmp"));
    let a = a.push(ins("jz __rt_array_strict_eq_no_a_tmp"));
    let b = b.push(ins("jz __rt_array_strict_eq_no_a_tmp"));
    lemma_append_push(out, b, call_label(t, "__rt_decref_any"@));
    let a = a.push(call_label(t, "__rt_decref_any"@));
    let b = b.push(call_label(t, "__rt_decref_any"@));
    lemma_append_push(out, b, label("__rt_array_strict_eq_no_a_tmp"));
    let a = a.push(label("__rt_array_strict_eq_no_a_tmp"));
    let b = b.push(label("__rt_array_strict_eq_no_a_tmp"));
    lemma_append_push(out, b, ins("mov rdi, QWORD PTR [rbp - 32]"));
    let a = a.push(ins("mov rdi, QWORD PTR [rbp - 32]"));
    let b = b.push(ins("mov rdi, QWORD PTR [rbp - 32]"));
    lemma_append_push(out, b, ins("test rdi, rdi"));
    let a = a.push(ins("test rdi, rdi"));
    let b = b.push(ins("test rdi, rdi"));
    lemma_append_push(out, b, ins("jz __rt_array_strict_eq_no_b_tmp"));
    let a = a.push(ins("jz __rt_array_strict_eq_no_b_tmp"));
    let b = b.push(ins("jz __rt_array_strict_eq_no_b_tmp"));
    lemma_append_push(out, b, call_label(t, "__rt_decref_any"@));
    let a = a.push(call_label(t, "__rt_decref_any"@));
    let b = b.push(call_label(t, "__rt_decref_any"@));
    lemma_append_push(out, b, label("__rt_array_strict_eq_no_b_tmp"));
    let a = a.push(label("__rt_array_strict_eq_no_b_tmp"));
    let b = b.push(label("__rt_array_strict_eq_no_b_tmp"));
    lemma_append_push(out, b, ins("mov rax, QWORD PTR [rbp - 56]"));
    let a = a.push(ins("mov rax, QWORD PTR [rbp - 56]"));
    let b = b.push(ins("mov rax, QWORD PTR [rbp - 56]"));
    lemma_append_push(out, b, ins("add rsp, 128"));
    let a = a.push(ins("add rsp, 128"));
    let b = b.push(ins("add rsp, 128"));
    lemma_append_push(out, b, ins("pop rbp"));
    let a = a.push(ins("pop rbp"));
    let b = b.push(ins("pop rbp"));
    lemma_append_push(out, b, ins("ret"));
    let a = a.push(ins("ret"));
    let b = b.push(ins("ret"));
    lemma_append_push(out, b, label("__rt_array_strict_eq_true_quick"));
    let a = a.push(label("__rt_array_strict_eq_true_quick"));
    let b = b.push(label("__rt_array_strict_eq_true_quick"));
    lemma_append_push(out, b, ins("mov rax, 1"));
    let a = a.push(ins("mov rax, 1"));
    let b = b.push(ins("mov rax, 1"));
    lemma_append_push(out, b, ins("add rsp, 128"));
    let a = a.push(ins("add rsp, 128"));
    let b = b.push(ins("add rsp, 128"));
    lemma_append_push(out, b, ins("pop rbp"));
    let a = a.push(ins("pop rbp"));
    let b = b.push(ins("pop rbp"));
    lemma_append_push(out, b, ins("ret"));
    let a = a.push(ins("ret"));
    let b = b.push(ins("ret"));
    assert(a == array_strict_eq_linux_x86_64(out, t));
    assert(b == array_strict_eq_linux_x86_64(Seq::empty(), t));
}

/// `array_strict_eq` appends a block that does not depend on the listing before it.
proof fn lemma_array_strict_eq_appends(out: Seq<Line>, t: Target)
    ensures
        array_strict_eq(out, t) == out + array_strict_eq(Seq::empty(), t),
{
    lemma_array_strict_eq_linux_x86_64_appends(out, t);
    lemma_array_strict_eq_aarch64_appends(out, t);
}

/// The emitter of this module only appends: the block it adds depends on the target
/// alone, and the listing it was handed stays in front of that block unchanged.
pub proof fn lemma_array_strict_eq_emitters_append(out: Seq<Line>, t: Target)
    ensures
        array_strict_eq(out, t) == out + array_strict_eq(Seq::empty(), t),
{
    lemma_array_strict_eq_appends(out, t);
}

} // verus!
