//! Purpose:
//! Emits the `__rt_class_name_of` runtime helper — the Mixed-receiver arm of the
//! dynamic `$expr::class` resolver (`__elephc_class_name_of`).
//!
//! Key details:
//! - Object and String receivers are handled statically by the lowering; only a
//!   Mixed/Union value reaches here, always as a boxed Mixed cell. An object
//!   payload (tag 6) resolves its class name through the dense
//!   `_class_name_entries` table (class_id → (ptr, len) 16-byte rows); a string
//!   payload (tag 1) is its own class name (PHP `::class` on a string returns the
//!   string). Anything else (or null) returns the empty class name.

use vstd::prelude::*;
use crate::codegen::abi::{self, symbol_address, load_symbol_to_reg};
use crate::codegen::emit::{Emitter, Line, ins, label, global, comment};
use crate::codegen::platform::{Arch, Target};

verus! {

/// Appends to `out` the listing that `emit_class_name_of` emits for target `t`.
pub open spec fn class_name_of(out: Seq<Line>, t: Target) -> Seq<Line> {
    if t.arch == Arch::X86_64 {
        class_name_of_linux_x86_64(out, t)
    } else {
        class_name_of_aarch64(out, t)
    }
}

/// Appends to `out` the AArch64 listing of `emit_class_name_of`.
pub open spec fn class_name_of_aarch64(out: Seq<Line>, t: Target) -> Seq<Line> {
    let out = out
        .push(Line::Blank)
        .push(comment("--- runtime: class_name_of ---"))
        .push(global("__rt_class_name_of"))
        .push(ins("cbz x0, __rt_cno_empty"))
        .push(ins("ldr x9, [x0]"))
        .push(ins("cmp x9, #6"))
        .push(ins("b.eq __rt_cno_object"))
        .push(ins("cmp x9, #1"))
        .push(ins("b.eq __rt_cno_string"))
        .push(ins("b __rt_cno_empty"))
        .push(label("__rt_cno_object"))
        .push(ins("ldr x0, [x0, #8]"))
        .push(ins("cbz x0, __rt_cno_empty"))
        .push(ins("ldr x9, [x0]"));
    let out = out + symbol_address(t, "x10"@, "_class_name_count"@);
    let out = out
        .push(ins("ldr x10, [x10]"))
        .push(ins("cmp x9, x10"))
        .push(ins("b.hs __rt_cno_empty"));
    let out = out + symbol_address(t, "x11"@, "_class_name_entries"@);
    let out = out
        .push(ins("lsl x12, x9, #4"))
        .push(ins("add x11, x11, x12"))
        .push(ins("ldr x1, [x11]"))
        .push(ins("ldr x2, [x11, #8]"))
        .push(ins("ret"))
        .push(label("__rt_cno_string"))
        .push(ins("ldr x1, [x0, #8]"))
        .push(ins("ldr x2, [x0, #16]"))
        .push(ins("ret"))
        .push(label("__rt_cno_empty"));
    let out = out + symbol_address(t, "x1"@, "_class_name_missing"@);
    let out = out
        .push(ins("mov x2, #0"))
        .push(ins("ret"));
    out
}

/// class_name_of: PHP `$expr::class` for a boxed Mixed receiver.
/// Input:  AArch64 x0 = mixed cell; x86_64 rdi = mixed cell
/// Output: string — AArch64 (x1 = ptr, x2 = len); x86_64 (rax = ptr, rdx = len)
pub fn emit_class_name_of(emitter: &mut Emitter)
    ensures
        final(emitter).target == old(emitter).target,
        final(emitter)@ == class_name_of(old(emitter)@, old(emitter).target),
{
    if emitter.target.arch == Arch::X86_64 {
        emit_class_name_of_linux_x86_64(emitter);
        return;
    }
    emitter.blank();
    emitter.comment("--- runtime: class_name_of ---");
    emitter.label_global("__rt_class_name_of");
    emitter.instruction("cbz x0, __rt_cno_empty");    // null value → empty class name
    emitter.instruction("ldr x9, [x0]");    // load the boxed value tag
    emitter.instruction("cmp x9, #6");    // tag 6 = object payload?
    emitter.instruction("b.eq __rt_cno_object");    // resolve the object's class name
    emitter.instruction("cmp x9, #1");    // tag 1 = string payload?
    emitter.instruction("b.eq __rt_cno_string");    // a string is its own class name
    emitter.instruction("b __rt_cno_empty");    // any other payload → empty
    emitter.label("__rt_cno_object");
    emitter.instruction("ldr x0, [x0, #8]");    // unwrap the object pointer from the cell
    emitter.instruction("cbz x0, __rt_cno_empty");    // defensive null guard
    emitter.instruction("ldr x9, [x0]");    // load the object's runtime class id
    abi::emit_symbol_address(emitter, "x10", "_class_name_count");
    emitter.instruction("ldr x10, [x10]");    // load the dense class-name row count
    emitter.instruction("cmp x9, x10");    // validate the class id before indexing
    emitter.instruction("b.hs __rt_cno_empty");    // unknown class id → empty
    abi::emit_symbol_address(emitter, "x11", "_class_name_entries");
    emitter.instruction("lsl x12, x9, #4");    // scale the class id by the 16-byte row size
    emitter.instruction("add x11, x11, x12");    // point at the selected class-name row
    emitter.instruction("ldr x1, [x11]");    // class-name string pointer → result
    emitter.instruction("ldr x2, [x11, #8]");    // class-name string length → result
    emitter.instruction("ret");    // return the class name in x1/x2
    emitter.label("__rt_cno_string");
    emitter.instruction("ldr x1, [x0, #8]");    // string payload pointer → result
    emitter.instruction("ldr x2, [x0, #16]");    // string payload length → result
    emitter.instruction("ret");    // return the string in x1/x2
    emitter.label("__rt_cno_empty");
    abi::emit_symbol_address(emitter, "x1", "_class_name_missing");
    emitter.instruction("mov x2, #0");    // empty class name has zero length
    emitter.instruction("ret");    // return the empty class name
}

/// Appends to `out` the listing that `emit_class_name_of_linux_x86_64` emits for target `t`.
pub open spec fn class_name_of_linux_x86_64(out: Seq<Line>, t: Target) -> Seq<Line> {
    let out = out
        .push(Line::Blank)
        .push(comment("--- runtime: class_name_of ---"))
        .push(global("__rt_class_name_of"))
        .push(ins("test rdi, rdi"))
        .push(ins("je __rt_cno_empty_x86"))
        .push(ins("mov r10, QWORD PTR [rdi]"))
        .push(ins("cmp r10, 6"))
        .push(ins("je __rt_cno_object_x86"))
        .push(ins("cmp r10, 1"))
        .push(ins("je __rt_cno_string_x86"))
        .push(ins("jmp __rt_cno_empty_x86"))
        .push(label("__rt_cno_object_x86"))
        .push(ins("mov rdi, QWORD PTR [rdi + 8]"))
        .push(ins("test rdi, rdi"))
        .push(ins("je __rt_cno_empty_x86"))
        .push(ins("mov r10, QWORD PTR [rdi]"));
    let out = out + load_symbol_to_reg(t, "r11"@, "_class_name_count"@, 0);
    let out = out
        .push(ins("cmp r10, r11"))
        .push(ins("jae __rt_cno_empty_x86"));
    let out = out + symbol_address(t, "r11"@, "_class_name_entries"@);
    let out = out
        .push(ins("shl r10, 4"))
        .push(ins("add r11, r10"))
        .push(ins("mov rax, QWORD PTR [r11]"))
        .push(ins("mov rdx, QWORD PTR [r11 + 8]"))
        .push(ins("ret"))
        .push(label("__rt_cno_string_x86"))
        .push(ins("mov rax, QWORD PTR [rdi + 8]"))
        .push(ins("mov rdx, QWORD PTR [rdi + 16]"))
        .push(ins("ret"))
        .push(label("__rt_cno_empty_x86"));
    let out = out + symbol_address(t, "rax"@, "_class_name_missing"@);
    let out = out
        .push(ins("xor edx, edx"))
        .push(ins("ret"));
    out
}

/// Emits the Linux x86_64 variant of `__rt_class_name_of`.
fn emit_class_name_of_linux_x86_64(emitter: &mut Emitter)
    ensures
        final(emitter).target == old(emitter).target,
        final(emitter)@ == class_name_of_linux_x86_64(old(emitter)@, old(emitter).target),
{
    emitter.blank();
    emitter.comment("--- runtime: class_name_of ---");
    emitter.label_global("__rt_class_name_of");
    emitter.instruction("test rdi, rdi");    // null value → empty class name
    emitter.instruction("je __rt_cno_empty_x86");
    emitter.instruction("mov r10, QWORD PTR [rdi]");    // load the boxed value tag
    emitter.instruction("cmp r10, 6");    // tag 6 = object payload?
    emitter.instruction("je __rt_cno_object_x86");    // resolve the object's class name
    emitter.instruction("cmp r10, 1");    // tag 1 = string payload?
    emitter.instruction("je __rt_cno_string_x86");    // a string is its own class name
    emitter.instruction("jmp __rt_cno_empty_x86");    // any other payload → empty
    emitter.label("__rt_cno_object_x86");
    emitter.instruction("mov rdi, QWORD PTR [rdi + 8]");    // unwrap the object pointer from the cell
    emitter.instruction("test rdi, rdi");    // defensive null guard
    emitter.instruction("je __rt_cno_empty_x86");
    emitter.instruction("mov r10, QWORD PTR [rdi]");    // load the object's runtime class id
    abi::emit_load_symbol_to_reg(emitter, "r11", "_class_name_count", 0);    // dense class-name row count
    emitter.instruction("cmp r10, r11");    // validate the class id before indexing
    emitter.instruction("jae __rt_cno_empty_x86");    // unknown class id → empty
    abi::emit_symbol_address(emitter, "r11", "_class_name_entries");
    emitter.instruction("shl r10, 4");    // scale the class id by the 16-byte row size
    emitter.instruction("add r11, r10");    // point at the selected class-name row
    emitter.instruction("mov rax, QWORD PTR [r11]");    // class-name string pointer → result
    emitter.instruction("mov rdx, QWORD PTR [r11 + 8]");    // class-name string length → result
    emitter.instruction("ret");    // return the class name in rax/rdx
    emitter.label("__rt_cno_string_x86");
    emitter.instruction("mov rax, QWORD PTR [rdi + 8]");    // string payload pointer → result
    emitter.instruction("mov rdx, QWORD PTR [rdi + 16]");    // string payload length → result
    emitter.instruction("ret");    // return the string in rax/rdx
    emitter.label("__rt_cno_empty_x86");
    abi::emit_symbol_address(emitter, "rax", "_class_name_missing");
    emitter.instruction("xor edx, edx");    // empty class name has zero length
    emitter.instruction("ret");    // return the empty class name
}

/// The emitter of this module only appends: the block it adds depends on the target
/// alone, and the listing it was handed stays in front of that block unchanged.
pub proof fn lemma_class_name_of_emitters_append(out: Seq<Line>, t: Target)
    ensures
        class_name_of(out, t) == out + class_name_of(Seq::empty(), t),
{
    broadcast use crate::codegen::emit::group_listing;
}

} // verus!
