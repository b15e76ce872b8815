//! Purpose:
//! Emits the `__rt_buffer_len`, `__rt_buffer_use_after_free` runtime helper assembly for buffer length reads.
//! Keeps compiler buffer extension checks and fatal paths aligned with generated pointer operations.
//!
//! Key details:
//! - Buffer helpers enforce extension ownership rules, including live headers, bounds checks, and fatal paths before unsafe access.

use vstd::prelude::*;
use crate::codegen::emit::{Emitter, Line, ins, global, comment};
use crate::codegen::platform::{Arch, Target};

verus! {

/// Appends to `out` the listing that `emit_buffer_len` emits for target `t`.
pub open spec fn buffer_len(out: Seq<Line>, t: Target) -> Seq<Line> {
    if t.arch == Arch::X86_64 {
        buffer_len_linux_x86_64(out, t)
    } else {
        buffer_len_aarch64(out, t)
    }
}

/// Appends to `out` the AArch64 listing of `emit_buffer_len`.
pub open spec fn buffer_len_aarch64(out: Seq<Line>, t: Target) -> Seq<Line> {
    let out = out
        .push(Line::Blank)
        .push(comment("--- runtime: buffer_len ---"))
        .push(global("__rt_buffer_len"))
        .push(ins("cbz x0, __rt_buffer_use_after_free"))
        .push(ins("ldr x0, [x0]"))
        .push(ins("ret"));
    out
}

pub fn emit_buffer_len(emitter: &mut Emitter)
    ensures
        final(emitter).target == old(emitter).target,
        final(emitter)@ == buffer_len(old(emitter)@, old(emitter).target),
{
    if emitter.target.arch == Arch::X86_64 {
        emit_buffer_len_linux_x86_64(emitter);
        return;
    }
    emitter.blank();
    emitter.comment("--- runtime: buffer_len ---");
    emitter.label_global("__rt_buffer_len");
    emitter.instruction("cbz x0, __rt_buffer_use_after_free");    // abort deterministically when buffer_len() is called after buffer_free()
    emitter.instruction("ldr x0, [x0]");    // load the logical element count from the buffer header
    emitter.instruction("ret");    // return length in x0
}

/// Appends to `out` the listing that `emit_buffer_len_linux_x86_64` emits for target `t`.
pub open spec fn buffer_len_linux_x86_64(out: Seq<Line>, t: Target) -> Seq<Line> {
    let out = out
        .push(Line::Blank)
        .push(comment("--- runtime: buffer_len ---"))
        .push(global("__rt_buffer_len"))
        .push(ins("test rax, rax"))
        .push(ins("jz __rt_buffer_use_after_free"))
        .push(ins("mov rax, QWORD PTR [rax]"))
        .push(ins("ret"));
    out
}

fn emit_buffer_len_linux_x86_64(emitter: &mut Emitter)
    ensures
        final(emitter).target == old(emitter).target,
        final(emitter)@ == buffer_len_linux_x86_64(old(emitter)@, old(emitter).target),
{
    emitter.blank();
    emitter.comment("--- runtime: buffer_len ---");
    emitter.label_global("__rt_buffer_len");
    emitter.instruction("test rax, rax");    // abort deterministically when buffer_len() is called after buffer_free() nulled the local slot
    emitter.instruction("jz __rt_buffer_use_after_free");    // jump to the shared fatal helper when the buffer header pointer is null
    emitter.instruction("mov rax, QWORD PTR [rax]");    // load the logical element count from the buffer header
    emitter.instruction("ret");    // return the logical length in rax
}

/// The emitter of this module only appends: the block it adds depends on the target
/// alone, and the listing it was handed stays in front of that block unchanged.
pub proof fn lemma_buffer_len_emitters_append(out: Seq<Line>, t: Target)
    ensures
        buffer_len(out, t) == out + buffer_len(Seq::empty(), t),
{
    broadcast use crate::codegen::emit::group_listing;
}

} // verus!
