//! Purpose:
//! Emits the `__rt_throwable_*` interface-dispatch bodies for the compact
//! Throwable payload: getMessage/getCode/getPrevious/getFile/getLine/
//! getTrace/getTraceAsString/__toString.
//!
//! Key details:
//! - Direct method calls on statically-known throwable receivers lower to
//!   payload reads inline; these bodies
//!   exist for DYNAMIC dispatch — Mixed-receiver and interface-typed calls —
//!   which routes through the class interface tables and previously hit
//!   NULL slots (builtin throwable methods have no compiled PHP bodies).
//! - Calling convention matches interface dispatch: receiver in the first
//!   argument register (`x0` / `rdi`), results in the standard result
//!   registers (strings as ptr/len pairs in `x0`/`x1` / `rax`/`rdx`).
//! - Compact payload layout: [0]=class id, [8]=message ptr, [16]=message
//!   len, [24]=code, [32]=previous (raw object pointer or 0).
//! - `getPrevious` returns the Mixed representation (`?Throwable` is a
//!   union): 0 for null, otherwise a freshly boxed tag-6 object cell.
//! - Receivers arriving as tag-6 Mixed boxes (heap kind 5) are unwrapped
//!   once at entry — dynamic dispatch may hand over the box itself.
//! - The payload records no file, line or trace: `getFile`, `getTrace` and
//!   `getTraceAsString` report the empty string / empty array, `getLine` reports 0,
//!   and `__toString` is the message (it tail-jumps to `getMessage`).

use vstd::prelude::*;
use crate::codegen::abi::{self, symbol_address};
use crate::codegen::emit::{Emitter, Line, ins, label, global, comment};
use crate::codegen::platform::{Arch, Target};

verus! {

/// Appends to `out` the listing that `emit_throwable_methods` emits for target `t`.
pub open spec fn throwable_methods(out: Seq<Line>, t: Target) -> Seq<Line> {
    if t.arch == Arch::X86_64 {
        throwable_methods_x86_64(out, t)
    } else {
        throwable_methods_aarch64(out, t)
    }
}

/// Emits every `__rt_throwable_*` interface-dispatch body.
pub fn emit_throwable_methods(emitter: &mut Emitter)
    ensures
        final(emitter).target == old(emitter).target,
        final(emitter)@ == throwable_methods(old(emitter)@, old(emitter).target),
{
    if emitter.target.arch == Arch::X86_64 {
        emit_throwable_methods_x86_64(emitter);
        return;
    }
    emit_throwable_methods_aarch64(emitter);
}

/// Appends to `out` the listing that `emit_throwable_methods_aarch64` emits for target `t`.
pub open spec fn throwable_methods_aarch64(out: Seq<Line>, t: Target) -> Seq<Line> {
    let out = out
        .push(Line::Blank)
        .push(comment("--- runtime: throwable interface-dispatch bodies ---"))
        .push(global("__rt_throwable_recv"))
        .push(ins("ldr x9, [x0, #-8]"))
        .push(ins("and x9, x9, #0xff"))
        .push(ins("cmp x9, #5"))
        .push(ins("b.ne __rt_throwable_recv_done"))
        .push(ins("ldr x9, [x0]"))
        .push(ins("cmp x9, #6"))
        .push(ins("b.ne __rt_throwable_recv_done"))
        .push(ins("ldr x0, [x0, #8]"))
        .push(label("__rt_throwable_recv_done"))
        .push(ins("ret"))
        .push(global("__rt_throwable_get_message"))
        .push(ins("str x30, [sp, #-16]!"))
        .push(ins("bl __rt_throwable_recv"));
    let out = out
        .push(ins("ldr x30, [sp], #16"))
        .push(ins("ldr x1, [x0, #16]"))
        .push(ins("ldr x0, [x0, #8]"))
        .push(ins("ret"))
        .push(global("__rt_throwable_get_code"))
        .push(ins("str x30, [sp, #-16]!"))
        .push(ins("bl __rt_throwable_recv"))
        .push(ins("ldr x30, [sp], #16"))
        .push(ins("ldr x0, [x0, #24]"))
        .push(ins("ret"))
        .push(global("__rt_throwable_get_previous"))
        .push(ins("str x30, [sp, #-16]!"))
        .push(ins("bl __rt_throwable_recv"))
        .push(ins("ldr x0, [x0, #32]"))
        .push(ins("cbz x0, __rt_throwable_get_previous_null"))
        .push(ins("mov x1, x0"));
    let out = out
        .push(ins("mov x2, xzr"))
        .push(ins("mov x0, #6"))
        .push(ins("bl __rt_mixed_from_value"))
        .push(label("__rt_throwable_get_previous_null"))
        .push(ins("ldr x30, [sp], #16"))
        .push(ins("ret"))
        .push(global("__rt_throwable_get_file"));
    let out = out + symbol_address(t, "x0"@, "_throwable_empty_str"@);
    let out = out
        .push(ins("mov x1, #0"))
        .push(ins("ret"))
        .push(global("__rt_throwable_get_line"))
        .push(ins("mov x0, #0"))
        .push(ins("ret"))
        .push(global("__rt_throwable_get_trace"))
        .push(ins("str x30, [sp, #-16]!"))
        .push(ins("mov x0, #4"))
        .push(ins("mov x1, #8"))
        .push(ins("bl __rt_array_new"))
        .push(ins("ldr x9, [x0, #-8]"))
        .push(ins("mov x12, #0x80ff"))
        .push(ins("and x9, x9, x12"))
        .push(ins("mov x11, #7"))
        .push(ins("lsl x11, x11, #8"))
        .push(ins("orr x9, x9, x11"));
    let out = out
        .push(ins("str x9, [x0, #-8]"))
        .push(ins("ldr x30, [sp], #16"))
        .push(ins("ret"))
        .push(global("__rt_throwable_get_trace_as_string"));
    let out = out + symbol_address(t, "x0"@, "_throwable_empty_str"@);
    let out = out
        .push(ins("mov x1, #0"))
        .push(ins("ret"))
        .push(global("__rt_throwable_to_string"))
        .push(ins("b __rt_throwable_get_message"));
    out
}

fn emit_throwable_methods_aarch64(emitter: &mut Emitter)
    ensures
        final(emitter).target == old(emitter).target,
        final(emitter)@ == throwable_methods_aarch64(old(emitter)@, old(emitter).target),
{
    emitter.blank();
    emitter.comment("--- runtime: throwable interface-dispatch bodies ---");
    // Shared receiver unwrap: tag-6 Mixed boxes (heap kind 5) yield their
    // object payload; raw objects pass through. Result in x0.
    emitter.label_global("__rt_throwable_recv");
    emitter.instruction("ldr x9, [x0, #-8]");    // load the heap kind word from the uniform header
    emitter.instruction("and x9, x9, #0xff");    // isolate the low-byte heap kind tag
    emitter.instruction("cmp x9, #5");    // heap kind 5 marks boxed Mixed cells
    emitter.instruction("b.ne __rt_throwable_recv_done");    // raw object receivers need no unwrap
    emitter.instruction("ldr x9, [x0]");    // load the mixed cell's runtime tag
    emitter.instruction("cmp x9, #6");    // tag 6 marks object payloads
    emitter.instruction("b.ne __rt_throwable_recv_done");    // non-object boxes are left untouched
    emitter.instruction("ldr x0, [x0, #8]");    // unwrap the boxed object payload pointer
    emitter.label("__rt_throwable_recv_done");
    emitter.instruction("ret");
    emitter.label_global("__rt_throwable_get_message");
    emitter.instruction("str x30, [sp, #-16]!");    // preserve the caller return address across the receiver unwrap
    emitter.instruction("bl __rt_throwable_recv");    // normalize boxed receivers to the raw object pointer
    emitter.instruction("ldr x30, [sp], #16");    // restore the caller return address
    emitter.instruction("ldr x1, [x0, #16]");    // load the Throwable message length
    emitter.instruction("ldr x0, [x0, #8]");    // load the Throwable message pointer
    emitter.instruction("ret");
    emitter.label_global("__rt_throwable_get_code");
    emitter.instruction("str x30, [sp, #-16]!");    // preserve the caller return address across the receiver unwrap
    emitter.instruction("bl __rt_throwable_recv");    // normalize boxed receivers to the raw object pointer
    emitter.instruction("ldr x30, [sp], #16");    // restore the caller return address
    emitter.instruction("ldr x0, [x0, #24]");    // load the Throwable code
    emitter.instruction("ret");
    emitter.label_global("__rt_throwable_get_previous");
    emitter.instruction("str x30, [sp, #-16]!");    // preserve the caller return address across nested helper calls
    emitter.instruction("bl __rt_throwable_recv");    // normalize boxed receivers to the raw object pointer
    emitter.instruction("ldr x0, [x0, #32]");    // load the previous throwable pointer (or 0)
    emitter.instruction("cbz x0, __rt_throwable_get_previous_null");    // null previous keeps the Mixed 0 representation
    emitter.instruction("mov x1, x0");    // pass the previous object pointer as the mixed payload low word
    emitter.instruction("mov x2, xzr");    // object payloads only use the low word
    emitter.instruction("mov x0, #6");    // runtime tag 6 = object
    emitter.instruction("bl __rt_mixed_from_value");    // retain the previous object and box it into a mixed cell
    emitter.label("__rt_throwable_get_previous_null");
    emitter.instruction("ldr x30, [sp], #16");    // restore the caller return address
    emitter.instruction("ret");
    emitter.label_global("__rt_throwable_get_file");
    abi::emit_symbol_address(emitter, "x0", "_throwable_empty_str");
    emitter.instruction("mov x1, #0");    // synthesized file/trace strings are empty
    emitter.instruction("ret");
    emitter.label_global("__rt_throwable_get_line");
    emitter.instruction("mov x0, #0");    // synthesized line numbers are zero
    emitter.instruction("ret");
    emitter.label_global("__rt_throwable_get_trace");
    emitter.instruction("str x30, [sp, #-16]!");    // preserve the caller return address across the allocation
    emitter.instruction("mov x0, #4");    // synthesized traces are empty arrays (capacity 4)
    emitter.instruction("mov x1, #8");    // 8-byte slots
    emitter.instruction("bl __rt_array_new");    // allocate the empty trace array
    emitter.instruction("ldr x9, [x0, #-8]");    // load the packed array kind word from the heap header
    emitter.instruction("mov x12, #0x80ff");    // preserve the indexed-array kind and persistent COW flag
    emitter.instruction("and x9, x9, x12");    // keep only the persistent indexed-array metadata bits
    emitter.instruction("mov x11, #7");    // runtime array value_type tag 7 = Mixed elements
    emitter.instruction("lsl x11, x11, #8");    // move the value_type tag into the packed kind-word byte lane
    emitter.instruction("orr x9, x9, x11");    // combine the heap kind with the array value_type tag
    emitter.instruction("str x9, [x0, #-8]");    // persist the packed array kind word in the heap header
    emitter.instruction("ldr x30, [sp], #16");    // restore the caller return address
    emitter.instruction("ret");
    emitter.label_global("__rt_throwable_get_trace_as_string");
    abi::emit_symbol_address(emitter, "x0", "_throwable_empty_str");
    emitter.instruction("mov x1, #0");    // synthesized traces are empty, so their string form is too
    emitter.instruction("ret");
    emitter.label_global("__rt_throwable_to_string");
    emitter.instruction("b __rt_throwable_get_message");    // the compact payload has no file, line or trace: the string form is the message
}

/// Appends to `out` the listing that `emit_throwable_methods_x86_64` emits for target `t`.
pub open spec fn throwable_methods_x86_64(out: Seq<Line>, t: Target) -> Seq<Line> {
    let out = out
        .push(Line::Blank)
        .push(comment("--- runtime: throwable interface-dispatch bodies ---"))
        .push(global("__rt_throwable_recv"))
        .push(ins("mov r10, QWORD PTR [rdi - 8]"))
        .push(ins("and r10, 0xff"))
        .push(ins("cmp r10, 5"))
        .push(ins("jne __rt_throwable_recv_done"))
        .push(ins("mov r10, QWORD PTR [rdi]"))
        .push(ins("cmp r10, 6"))
        .push(ins("jne __rt_throwable_recv_done"))
        .push(ins("mov rdi, QWORD PTR [rdi + 8]"))
        .push(label("__rt_throwable_recv_done"))
        .push(ins("ret"))
        .push(global("__rt_throwable_get_message"))
        .push(ins("call __rt_throwable_recv"))
        .push(ins("mov rax, QWORD PTR [rdi + 8]"));
    let out = out
        .push(ins("mov rdx, QWORD PTR [rdi + 16]"))
        .push(ins("ret"))
        .push(global("__rt_throwable_get_code"))
        .push(ins("call __rt_throwable_recv"))
        .push(ins("mov rax, QWORD PTR [rdi + 24]"))
        .push(ins("ret"))
        .push(global("__rt_throwable_get_previous"))
        .push(ins("call __rt_throwable_recv"))
        .push(ins("mov rax, QWORD PTR [rdi + 32]"))
        .push(ins("test rax, rax"))
        .push(ins("jz __rt_throwable_get_previous_null"))
        .push(ins("push rbp"))
        .push(ins("mov rbp, rsp"))
        .push(ins("mov rdi, rax"))
        .push(ins("xor rsi, rsi"))
        .push(ins("mov rax, 6"));
    let out = out
        .push(ins("call __rt_mixed_from_value"))
        .push(ins("mov rsp, rbp"))
        .push(ins("pop rbp"))
        .push(label("__rt_throwable_get_previous_null"))
        .push(ins("ret"))
        .push(global("__rt_throwable_get_file"))
        .push(ins("lea rax, [rip + _throwable_empty_str]"))
        .push(ins("xor rdx, rdx"))
        .push(ins("ret"))
        .push(global("__rt_throwable_get_line"))
        .push(ins("xor rax, rax"))
        .push(ins("ret"))
        .push(global("__rt_throwable_get_trace"))
        .push(ins("push rbp"))
        .push(ins("mov rbp, rsp"))
        .push(ins("mov rdi, 4"));
    let out = out
        .push(ins("mov rsi, 8"))
        .push(ins("call __rt_array_new"))
        .push(ins("mov r10, QWORD PTR [rax - 8]"))
        .push(ins("mov r11, 0xffffffff000080ff"))
        .push(ins("and r10, r11"))
        .push(ins("mov r11, 7"))
        .push(ins("shl r11, 8"))
        .push(ins("or r10, r11"))
        .push(ins("mov QWORD PTR [rax - 8], r10"))
        .push(ins("mov rsp, rbp"))
        .push(ins("pop rbp"))
        .push(ins("ret"));
    let out = out
        .push(global("__rt_throwable_get_trace_as_string"))
        .push(ins("lea rax, [rip + _throwable_empty_str]"))
        .push(ins("xor rdx, rdx"))
        .push(ins("ret"))
        .push(global("__rt_throwable_to_string"))
        .push(ins("jmp __rt_throwable_get_message"));
    out
}

fn emit_throwable_methods_x86_64(emitter: &mut Emitter)
    ensures
        final(emitter).target == old(emitter).target,
        final(emitter)@ == throwable_methods_x86_64(old(emitter)@, old(emitter).target),
{
    emitter.blank();
    emitter.comment("--- runtime: throwable interface-dispatch bodies ---");
    // Shared receiver unwrap: tag-6 Mixed boxes (heap kind 5) yield their
    // object payload; raw objects pass through. Receiver in rdi, result in rdi.
    emitter.label_global("__rt_throwable_recv");
    emitter.instruction("mov r10, QWORD PTR [rdi - 8]");    // load the heap kind word from the uniform header
    emitter.instruction("and r10, 0xff");    // isolate the low-byte heap kind tag
    emitter.instruction("cmp r10, 5");    // heap kind 5 marks boxed Mixed cells
    emitter.instruction("jne __rt_throwable_recv_done");    // raw object receivers need no unwrap
    emitter.instruction("mov r10, QWORD PTR [rdi]");    // load the mixed cell's runtime tag
    emitter.instruction("cmp r10, 6");    // tag 6 marks object payloads
    emitter.instruction("jne __rt_throwable_recv_done");    // non-object boxes are left untouched
    emitter.instruction("mov rdi, QWORD PTR [rdi + 8]");    // unwrap the boxed object payload pointer
    emitter.label("__rt_throwable_recv_done");
    emitter.instruction("ret");
    emitter.label_global("__rt_throwable_get_message");
    emitter.instruction("call __rt_throwable_recv");    // normalize boxed receivers to the raw object pointer
    emitter.instruction("mov rax, QWORD PTR [rdi + 8]");    // load the Throwable message pointer
    emitter.instruction("mov rdx, QWORD PTR [rdi + 16]");    // load the Throwable message length
    emitter.instruction("ret");
    emitter.label_global("__rt_throwable_get_code");
    emitter.instruction("call __rt_throwable_recv");    // normalize boxed receivers to the raw object pointer
    emitter.instruction("mov rax, QWORD PTR [rdi + 24]");    // load the Throwable code
    emitter.instruction("ret");
    emitter.label_global("__rt_throwable_get_previous");
    emitter.instruction("call __rt_throwable_recv");    // normalize boxed receivers to the raw object pointer
    emitter.instruction("mov rax, QWORD PTR [rdi + 32]");    // load the previous throwable pointer (or 0)
    emitter.instruction("test rax, rax");    // null previous keeps the Mixed 0 representation
    emitter.instruction("jz __rt_throwable_get_previous_null");
    emitter.instruction("push rbp");    // align the stack for the nested boxing helper call
    emitter.instruction("mov rbp, rsp");
    emitter.instruction("mov rdi, rax");    // pass the previous object pointer as the mixed payload low word
    emitter.instruction("xor rsi, rsi");    // object payloads only use the low word
    emitter.instruction("mov rax, 6");    // runtime tag 6 = object
    emitter.instruction("call __rt_mixed_from_value");    // retain the previous object and box it into a mixed cell
    emitter.instruction("mov rsp, rbp");    // release the alignment frame
    emitter.instruction("pop rbp");
    emitter.label("__rt_throwable_get_previous_null");
    emitter.instruction("ret");
    emitter.label_global("__rt_throwable_get_file");
    emitter.instruction("lea rax, [rip + _throwable_empty_str]");    // synthesized file/trace strings are empty
    emitter.instruction("xor rdx, rdx");
    emitter.instruction("ret");
    emitter.label_global("__rt_throwable_get_line");
    emitter.instruction("xor rax, rax");    // synthesized line numbers are zero
    emitter.instruction("ret");
    emitter.label_global("__rt_throwable_get_trace");
    emitter.instruction("push rbp");    // align the stack for the nested allocation call
    emitter.instruction("mov rbp, rsp");
    emitter.instruction("mov rdi, 4");    // synthesized traces are empty arrays (capacity 4)
    emitter.instruction("mov rsi, 8");    // 8-byte slots
    emitter.instruction("call __rt_array_new");    // allocate the empty trace array
    emitter.instruction("mov r10, QWORD PTR [rax - 8]");    // load the packed array kind word from the heap header
    emitter.instruction("mov r11, 0xffffffff000080ff");    // preserve the heap magic marker plus the indexed-array kind and COW flag
    emitter.instruction("and r10, r11");    // keep only the persistent indexed-array metadata bits
    emitter.instruction("mov r11, 7");    // runtime array value_type tag 7 = Mixed elements
    emitter.instruction("shl r11, 8");    // move the value_type tag into the packed kind-word byte lane
    emitter.instruction("or r10, r11");    // combine the heap kind with the array value_type tag
    emitter.instruction("mov QWORD PTR [rax - 8], r10");    // persist the packed array kind word in the heap header
    emitter.instruction("mov rsp, rbp");    // release the alignment frame
    emitter.instruction("pop rbp");
    emitter.instruction("ret");    emitter.label_global("__rt_throwable_get_trace_as_string");
    emitter.instruction("lea rax, [rip + _throwable_empty_str]");    // synthesized traces are empty, so their string form is too
    emitter.instruction("xor rdx, rdx");
    emitter.instruction("ret");
    emitter.label_global("__rt_throwable_to_string");
    emitter.instruction("jmp __rt_throwable_get_message");    // the compact payload has no file, line or trace: the string form is the message
}

/// The emitter of this module only appends: the block it adds depends on the target
/// alone, and the listing it was handed stays in front of that block unchanged.
pub proof fn lemma_throwable_methods_emitters_append(out: Seq<Line>, t: Target)
    ensures
        throwable_methods(out, t) == out + throwable_methods(Seq::empty(), t),
{
    broadcast use crate::codegen::emit::group_listing;
}

/// The AArch64 block defines the exported label of each of the eight method bodies.
proof fn lemma_throwable_methods_aarch64_export_labels(t: Target)
    requires
        t.arch == Arch::AArch64,
    ensures
        throwable_methods_aarch64(Seq::empty(), t).contains(global("__rt_throwable_get_message")),
        throwable_methods_aarch64(Seq::empty(), t).contains(global("__rt_throwable_get_code")),
        throwable_methods_aarch64(Seq::empty(), t).contains(global("__rt_throwable_get_previous")),
        throwable_methods_aarch64(Seq::empty(), t).contains(global("__rt_throwable_get_file")),
        throwable_methods_aarch64(Seq::empty(), t).contains(global("__rt_throwable_get_line")),
        throwable_methods_aarch64(Seq::empty(), t).contains(global("__rt_throwable_get_trace")),
        throwable_methods_aarch64(Seq::empty(), t).contains(global("__rt_throwable_get_trace_as_string")),
        throwable_methods_aarch64(Seq::empty(), t).contains(global("__rt_throwable_to_string")),
{
    assert(throwable_methods_aarch64(Seq::empty(), t)[13] == global("__rt_throwable_get_message"));
    assert(throwable_methods_aarch64(Seq::empty(), t)[20] == global("__rt_throwable_get_code"));
    assert(throwable_methods_aarch64(Seq::empty(), t)[26] == global("__rt_throwable_get_previous"));
    assert(throwable_methods_aarch64(Seq::empty(), t)[38] == global("__rt_throwable_get_file"));
    assert(throwable_methods_aarch64(Seq::empty(), t)[43] == global("__rt_throwable_get_line"));
    assert(throwable_methods_aarch64(Seq::empty(), t)[46] == global("__rt_throwable_get_trace"));
    assert(throwable_methods_aarch64(Seq::empty(), t)[60] == global("__rt_throwable_get_trace_as_string"));
    assert(throwable_methods_aarch64(Seq::empty(), t)[65] == global("__rt_throwable_to_string"));
}

/// The x86_64 block defines the exported label of each of the eight method bodies.
proof fn lemma_throwable_methods_x86_64_export_labels(t: Target)
    ensures
        throwable_methods_x86_64(Seq::empty(), t).contains(global("__rt_throwable_get_message")),
        throwable_methods_x86_64(Seq::empty(), t).contains(global("__rt_throwable_get_code")),
        throwable_methods_x86_64(Seq::empty(), t).contains(global("__rt_throwable_get_previous")),
        throwable_methods_x86_64(Seq::empty(), t).contains(global("__rt_throwable_get_file")),
        throwable_methods_x86_64(Seq::empty(), t).contains(global("__rt_throwable_get_line")),
        throwable_methods_x86_64(Seq::empty(), t).contains(global("__rt_throwable_get_trace")),
        throwable_methods_x86_64(Seq::empty(), t).contains(global("__rt_throwable_get_trace_as_string")),
        throwable_methods_x86_64(Seq::empty(), t).contains(global("__rt_throwable_to_string")),
{
    assert(throwable_methods_x86_64(Seq::empty(), t)[13] == global("__rt_throwable_get_message"));
    assert(throwable_methods_x86_64(Seq::empty(), t)[18] == global("__rt_throwable_get_code"));
    assert(throwable_methods_x86_64(Seq::empty(), t)[22] == global("__rt_throwable_get_previous"));
    assert(throwable_methods_x86_64(Seq::empty(), t)[37] == global("__rt_throwable_get_file"));
    assert(throwable_methods_x86_64(Seq::empty(), t)[41] == global("__rt_throwable_get_line"));
    assert(throwable_methods_x86_64(Seq::empty(), t)[44] == global("__rt_throwable_get_trace"));
    assert(throwable_methods_x86_64(Seq::empty(), t)[60] == global("__rt_throwable_get_trace_as_string"));
    assert(throwable_methods_x86_64(Seq::empty(), t)[64] == global("__rt_throwable_to_string"));
}

/// On every target the helper block exports an interface-dispatch body for each of
/// getMessage, getCode, getPrevious, getFile, getLine, getTrace, getTraceAsString and
/// `__toString`.
pub proof fn lemma_throwable_methods_export_every_method(t: Target)
    ensures
        throwable_methods(Seq::empty(), t).contains(global("__rt_throwable_get_message")),
        throwable_methods(Seq::empty(), t).contains(global("__rt_throwable_get_code")),
        throwable_methods(Seq::empty(), t).contains(global("__rt_throwable_get_previous")),
        throwable_methods(Seq::empty(), t).contains(global("__rt_throwable_get_file")),
        throwable_methods(Seq::empty(), t).contains(global("__rt_throwable_get_line")),
        throwable_methods(Seq::empty(), t).contains(global("__rt_throwable_get_trace")),
        throwable_methods(Seq::empty(), t).contains(global("__rt_throwable_get_trace_as_string")),
        throwable_methods(Seq::empty(), t).contains(global("__rt_throwable_to_string")),
{
    if t.arch == Arch::X86_64 {
        lemma_throwable_methods_x86_64_export_labels(t);
    } else {
        lemma_throwable_methods_aarch64_export_labels(t);
    }
}

} // verus!
