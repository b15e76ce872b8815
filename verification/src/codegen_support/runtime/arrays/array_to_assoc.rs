//! Purpose:
//! Emits `__rt_array_to_assoc`: coerce an array value to associative (hash) storage,
//! returning an owned pointer. A packed/indexed source (heap kind 2) is converted to a
//! hash via `__rt_array_to_hash` (integer keys 0..n-1); an already-hash source is an
//! owned identity retain (`__rt_incref`).
//!
//! Key details:
//! - Used to lower a `runtime_call` coercion from a statically-indexed `Array(_)` (whose
//!   runtime storage may be packed or hash) to a declared `AssocArray` type, so associative
//!   consumers always receive hash storage. The result is owned; the source is not mutated.

use vstd::prelude::*;
use crate::codegen::abi::{self, call_label};
use crate::codegen::emit::{Emitter, Line, ins, label, global, comment};
use crate::codegen::platform::{Arch, Target};

verus! {

/// Appends to `out` the listing that `emit_array_to_assoc` emits for target `t`.
pub open spec fn array_to_assoc(out: Seq<Line>, t: Target) -> Seq<Line> {
    if t.arch == Arch::X86_64 {
        array_to_assoc_linux_x86_64(out, t)
    } else {
        array_to_assoc_aarch64(out, t)
    }
}

/// Appends to `out` the AArch64 listing of `emit_array_to_assoc`.
pub open spec fn array_to_assoc_aarch64(out: Seq<Line>, t: Target) -> Seq<Line> {
    let out = out
        .push(Line::Blank)
        .push(comment("--- runtime: array_to_assoc ---"))
        .push(global("__rt_array_to_assoc"))
        .push(ins("sub sp, sp, #16"))
        .push(ins("str x30, [sp]"))
        .push(ins("ldr x9, [x0, #-8]"))
        .push(ins("and x9, x9, #0xff"))
        .push(ins("cmp x9, #2"))
        .push(ins("b.ne __rt_array_to_assoc_already_hash"))
        .push(ins("bl __rt_array_to_hash"))
        .push(ins("b __rt_array_to_assoc_done"))
        .push(label("__rt_array_to_assoc_already_hash"))
        .push(ins("bl __rt_incref"))
        .push(label("__rt_array_to_assoc_done"))
        .push(ins("ldr x30, [sp]"))
        .push(ins("add sp, sp, #16"));
    let out = out
        .push(ins("ret"));
    out
}

/// Coerces an array pointer to owned associative (hash) storage.
/// Input: x0/rdi = array pointer. Output: x0/rax = owned hash pointer.
pub fn emit_array_to_assoc(emitter: &mut Emitter)
    ensures
        final(emitter).target == old(emitter).target,
        final(emitter)@ == array_to_assoc(old(emitter)@, old(emitter).target),
{
    if emitter.target.arch == Arch::X86_64 {
        emit_array_to_assoc_linux_x86_64(emitter);
        return;
    }
    emitter.blank();
    emitter.comment("--- runtime: array_to_assoc ---");
    emitter.label_global("__rt_array_to_assoc");
    emitter.instruction("sub sp, sp, #16");    // frame for the helper calls
    emitter.instruction("str x30, [sp]");    // save return address
    emitter.instruction("ldr x9, [x0, #-8]");    // load the heap-kind header word
    emitter.instruction("and x9, x9, #0xff");    // isolate the low-byte heap kind
    emitter.instruction("cmp x9, #2");    // is the source a packed indexed array?
    emitter.instruction("b.ne __rt_array_to_assoc_already_hash");
    emitter.instruction("bl __rt_array_to_hash");    // convert packed -> owned hash (x0 in/out)
    emitter.instruction("b __rt_array_to_assoc_done");
    emitter.label("__rt_array_to_assoc_already_hash");
    emitter.instruction("bl __rt_incref");    // retain the already-hash source (x0 preserved)
    emitter.label("__rt_array_to_assoc_done");
    emitter.instruction("ldr x30, [sp]");    // restore return address
    emitter.instruction("add sp, sp, #16");    // release the frame
    emitter.instruction("ret");    // x0 = owned hash pointer
}

/// Appends to `out` the listing that `emit_array_to_assoc_linux_x86_64` emits for target `t`.
pub open spec fn array_to_assoc_linux_x86_64(out: Seq<Line>, t: Target) -> Seq<Line> {
    let out = out
        .push(Line::Blank)
        .push(comment("--- runtime: array_to_assoc ---"))
        .push(global("__rt_array_to_assoc"))
        .push(ins("push rbp"))
        .push(ins("mov rbp, rsp"))
        .push(ins("sub rsp, 16"))
        .push(ins("mov QWORD PTR [rbp - 8], rdi"))
        .push(ins("mov rax, QWORD PTR [rdi - 8]"))
        .push(ins("and rax, 0xff"))
        .push(ins("cmp rax, 2"))
        .push(ins("jne __rt_array_to_assoc_already_hash"))
        .push(ins("mov rdi, QWORD PTR [rbp - 8]"))
        .push(call_label(t, "__rt_array_to_hash"@))
        .push(ins("add rsp, 16"))
        .push(ins("pop rbp"))
        .push(ins("ret"));
    let out = out
        .push(label("__rt_array_to_assoc_already_hash"))
        .push(ins("mov rax, QWORD PTR [rbp - 8]"))
        .push(call_label(t, "__rt_incref"@))
        .push(ins("add rsp, 16"))
        .push(ins("pop rbp"))
        .push(ins("ret"));
    out
}

/// x86_64 Linux implementation. Input: rdi = array pointer. Output: rax = owned hash pointer.
fn emit_array_to_assoc_linux_x86_64(emitter: &mut Emitter)
    ensures
        final(emitter).target == old(emitter).target,
        final(emitter)@ == array_to_assoc_linux_x86_64(old(emitter)@, old(emitter).target),
{
    emitter.blank();
    emitter.comment("--- runtime: array_to_assoc ---");
    emitter.label_global("__rt_array_to_assoc");
    emitter.instruction("push rbp");
    emitter.instruction("mov rbp, rsp");
    emitter.instruction("sub rsp, 16");
    emitter.instruction("mov QWORD PTR [rbp - 8], rdi");    // save the source array pointer
    emitter.instruction("mov rax, QWORD PTR [rdi - 8]");    // load the heap-kind header word
    emitter.instruction("and rax, 0xff");    // isolate the low-byte heap kind
    emitter.instruction("cmp rax, 2");    // is the source a packed indexed array?
    emitter.instruction("jne __rt_array_to_assoc_already_hash");
    emitter.instruction("mov rdi, QWORD PTR [rbp - 8]");    // packed source -> array_to_hash input
    abi::emit_call_label(emitter, "__rt_array_to_hash");    // rax = owned hash
    emitter.instruction("add rsp, 16");
    emitter.instruction("pop rbp");
    emitter.instruction("ret");
    emitter.label("__rt_array_to_assoc_already_hash");
    emitter.instruction("mov rax, QWORD PTR [rbp - 8]");    // already-hash source -> __rt_incref input (rax) and return value
    abi::emit_call_label(emitter, "__rt_incref");    // retain; rax preserved = source pointer
    emitter.instruction("add rsp, 16");
    emitter.instruction("pop rbp");
    emitter.instruction("ret");    // rax = owned hash pointer
}

/// The emitter of this module only appends: the block it adds depends on the target
/// alone, and the listing it was handed stays in front of that block unchanged.
pub proof fn lemma_array_to_assoc_emitters_append(out: Seq<Line>, t: Target)
    ensures
        array_to_assoc(out, t) == out + array_to_assoc(Seq::empty(), t),
{
    broadcast use crate::codegen::emit::group_listing;
}

} // verus!
