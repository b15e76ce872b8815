//! Purpose:
//! Emits the `__rt_get_debug_type` runtime helper and its `_gdt_*` name table for
//! PHP `get_debug_type()` over boxed `Mixed` values.
//!
//! Key details:
//! - Statically-typed arguments never reach this helper — the EIR frontend folds
//!   them to constant name strings. Only Mixed/Union
//!   values arrive here, boxed by the `Mixed` parameter coercion.
//! - Dispatch is heap-header-adaptive like `__rt_mixed_array_get`: raw arrays/hashes
//!   (heap kinds 2/3) and raw objects (kind 4) received as Mixed report directly;
//!   mixed cells (kind 5) dispatch on the runtime value tag (0 int, 1 string,
//!   2 float, 3 bool, 4/5 array, 6 object, 7 nested cell — unwrapped and re-dispatched,
//!   8 null, 9 resource).
//! - Objects resolve their class name by class_id through the `_classes_by_name`
//!   table (48-byte entries; id column at [16..24), name at [0..16)), matching PHP's
//!   FQCN result. Unknown ids fall back to the literal "object".

use vstd::prelude::*;
use crate::codegen::abi::{self, symbol_address, load_symbol_to_reg};
use crate::codegen::emit::{Emitter, Line, ins, ins_int, label, global, comment};
use crate::codegen::platform::{Arch, Platform, Target};
use crate::codegen::emit::{adrp_line, add_lo12_line};
use crate::codegen::text::decimal;
use crate::codegen::machine::{
    Env, Machine, Instr, Operand, Address, Cond, decode, find_char, find_label, instruction_text, read, run,
    step, lemma_step_instruction, lemma_step_passes, lemma_run_step, lemma_run_returned, lemma_run_split,
};

verus! {

/// One exported data entry: `.globl label`, `label:` and the `.ascii` text `value`.
pub open spec fn ascii_entry(label: &str, value: &str) -> Seq<char> {
    ".globl "@ + label@ + "\n"@ + label@ + ":\n    .ascii \""@ + value@ + "\"\n"@
}

/// The data section text of the `_gdt_*` type-name strings.
pub open spec fn get_debug_type_data() -> Seq<char> {
    ascii_entry("_gdt_int", "int")
        + ascii_entry("_gdt_string", "string")
        + ascii_entry("_gdt_float", "float")
        + ascii_entry("_gdt_bool", "bool")
        + ascii_entry("_gdt_array", "array")
        + ascii_entry("_gdt_null", "null")
        + ascii_entry("_gdt_object", "object")
        + ascii_entry("_gdt_resource", "resource (stream)")
}

/// Appends one exported `.ascii` data entry to `out`.
fn append_ascii_entry(out: &mut String, label: &str, value: &str)
    ensures
        final(out)@ == old(out)@ + ascii_entry(label, value),
{
    out.append(".globl ");
    out.append(label);
    out.append("\n");
    out.append(label);
    out.append(":\n    .ascii \"");
    out.append(value);
    out.append("\"\n");
    assert(final(out)@ =~= old(out)@ + ascii_entry(label, value));
}

/// Returns the `.globl`/`.ascii` assembly for the static type-name strings.
pub fn emit_get_debug_type_data() -> (out: String)
    ensures
        out@ == get_debug_type_data(),
{
    let mut out = String::new();
    append_ascii_entry(&mut out, "_gdt_int", "int");
    append_ascii_entry(&mut out, "_gdt_string", "string");
    append_ascii_entry(&mut out, "_gdt_float", "float");
    append_ascii_entry(&mut out, "_gdt_bool", "bool");
    append_ascii_entry(&mut out, "_gdt_array", "array");
    append_ascii_entry(&mut out, "_gdt_null", "null");
    append_ascii_entry(&mut out, "_gdt_object", "object");
    append_ascii_entry(&mut out, "_gdt_resource", "resource (stream)");
    assert(out@ =~= get_debug_type_data());
    out
}

/// Appends to `out` the listing that `emit_get_debug_type` emits for target `t`.
pub open spec fn get_debug_type(out: Seq<Line>, t: Target) -> Seq<Line> {
    if t.arch == Arch::X86_64 {
        get_debug_type_linux_x86_64(out, t)
    } else {
        get_debug_type_aarch64(out, t)
    }
}

/// Appends to `out` the AArch64 listing of `emit_get_debug_type`.
pub open spec fn get_debug_type_aarch64(out: Seq<Line>, t: Target) -> Seq<Line> {
    let out = out
        .push(Line::Blank)
        .push(comment("--- runtime: get_debug_type ---"))
        .push(global("__rt_get_debug_type"))
        .push(ins("sub sp, sp, #32"))
        .push(ins("stp x29, x30, [sp, #16]"))
        .push(ins("add x29, sp, #16"))
        .push(label("__rt_gdt_dispatch"))
        .push(ins("cbz x0, __rt_gdt_null"))
        .push(ins("ldr x9, [x0, #-8]"))
        .push(ins("and x9, x9, #0xff"))
        .push(ins("cmp x9, #2"))
        .push(ins("b.eq __rt_gdt_array"))
        .push(ins("cmp x9, #3"))
        .push(ins("b.eq __rt_gdt_array"))
        .push(ins("cmp x9, #4"))
        .push(ins("b.eq __rt_gdt_object_from_x0"));
    let out = out
        .push(ins("ldr x9, [x0]"))
        .push(ins("cmp x9, #7"))
        .push(ins("b.ne __rt_gdt_tags"))
        .push(ins("ldr x0, [x0, #8]"))
        .push(ins("b __rt_gdt_dispatch"))
        .push(label("__rt_gdt_tags"))
        .push(ins("cmp x9, #0"))
        .push(ins("b.eq __rt_gdt_int"))
        .push(ins("cmp x9, #1"))
        .push(ins("b.eq __rt_gdt_string"))
        .push(ins("cmp x9, #2"))
        .push(ins("b.eq __rt_gdt_float"))
        .push(ins("cmp x9, #3"))
        .push(ins("b.eq __rt_gdt_bool"))
        .push(ins("cmp x9, #4"))
        .push(ins("b.eq __rt_gdt_array"));
    let out = out
        .push(ins("cmp x9, #5"))
        .push(ins("b.eq __rt_gdt_array"))
        .push(ins("cmp x9, #6"))
        .push(ins("b.eq __rt_gdt_object_cell"))
        .push(ins("cmp x9, #9"))
        .push(ins("b.eq __rt_gdt_resource"))
        .push(ins("b __rt_gdt_null"))
        .push(label("__rt_gdt_object_cell"))
        .push(ins("ldr x0, [x0, #8]"))
        .push(ins("cbz x0, __rt_gdt_null"))
        .push(label("__rt_gdt_object_from_x0"))
        .push(ins("ldr x11, [x0]"));
    let out = out + symbol_address(t, "x9"@, "_classes_by_name_count"@);
    let out = out
        .push(ins("ldr x9, [x9]"));
    let out = out + symbol_address(t, "x10"@, "_classes_by_name"@);
    let out = out
        .push(ins("mov x12, #0"))
        .push(label("__rt_gdt_class_loop"))
        .push(ins("cmp x12, x9"))
        .push(ins("b.ge __rt_gdt_object_fallback"))
        .push(ins("ldr x13, [x10, #16]"))
        .push(ins("cmp x13, x11"))
        .push(ins("b.eq __rt_gdt_class_hit"))
        .push(ins("add x10, x10, #48"))
        .push(ins("add x12, x12, #1"))
        .push(ins("b __rt_gdt_class_loop"))
        .push(label("__rt_gdt_class_hit"))
        .push(ins("ldr x1, [x10, #8]"))
        .push(ins("ldr x0, [x10]"))
        .push(ins("b __rt_gdt_ret"))
        .push(label("__rt_gdt_object_fallback"));
    let out = out + symbol_address(t, "x0"@, "_gdt_object"@);
    let out = out
        .push(ins("mov x1, #6"))
        .push(ins("b __rt_gdt_ret"));
    let out = gdt_name_case(out, t, "__rt_gdt_int", "_gdt_int", 3);
    let out = gdt_name_case(out, t, "__rt_gdt_string", "_gdt_string", 6);
    let out = gdt_name_case(out, t, "__rt_gdt_float", "_gdt_float", 5);
    let out = gdt_name_case(out, t, "__rt_gdt_bool", "_gdt_bool", 4);
    let out = gdt_name_case(out, t, "__rt_gdt_array", "_gdt_array", 5);
    let out = gdt_name_case(out, t, "__rt_gdt_null", "_gdt_null", 4);
    let out = gdt_name_case(out, t, "__rt_gdt_resource", "_gdt_resource", 17);
    let out = out
        .push(label("__rt_gdt_ret"))
        .push(ins("ldp x29, x30, [sp, #16]"))
        .push(ins("add sp, sp, #32"))
        .push(ins("ret"));
    out
}

/// get_debug_type: PHP type-name lookup for a boxed Mixed value.
/// Input:  AArch64 x0 = mixed value; x86_64 rdi = mixed value
/// Output: name string — AArch64 (x0 = ptr, x1 = len); x86_64 (rax = ptr, rdx = len)
pub fn emit_get_debug_type(emitter: &mut Emitter)
    ensures
        final(emitter).target == old(emitter).target,
        final(emitter)@ == get_debug_type(old(emitter)@, old(emitter).target),
{
    if emitter.target.arch == Arch::X86_64 {
        emit_get_debug_type_linux_x86_64(emitter);
        return;
    }
    emitter.blank();
    emitter.comment("--- runtime: get_debug_type ---");
    emitter.label_global("__rt_get_debug_type");
    emitter.instruction("sub sp, sp, #32");    // helper frame
    emitter.instruction("stp x29, x30, [sp, #16]");    // save frame pointer and return address
    emitter.instruction("add x29, sp, #16");    // establish the helper frame pointer
    emitter.label("__rt_gdt_dispatch");
    emitter.instruction("cbz x0, __rt_gdt_null");    // null value → "null"
    emitter.instruction("ldr x9, [x0, #-8]");    // load the uniform heap header
    emitter.instruction("and x9, x9, #0xff");    // isolate the heap kind byte
    emitter.instruction("cmp x9, #2");    // raw indexed array received as Mixed?
    emitter.instruction("b.eq __rt_gdt_array");    // report "array"
    emitter.instruction("cmp x9, #3");    // raw hash received as Mixed?
    emitter.instruction("b.eq __rt_gdt_array");    // report "array"
    emitter.instruction("cmp x9, #4");    // raw object received as Mixed?
    emitter.instruction("b.eq __rt_gdt_object_from_x0");    // resolve the class name from the object
    emitter.instruction("ldr x9, [x0]");    // mixed cell: load the runtime value tag
    emitter.instruction("cmp x9, #7");    // nested boxed-Mixed entry?
    emitter.instruction("b.ne __rt_gdt_tags");    // dispatch plain tags
    emitter.instruction("ldr x0, [x0, #8]");    // unwrap the nested cell payload
    emitter.instruction("b __rt_gdt_dispatch");    // re-dispatch on the inner value
    emitter.label("__rt_gdt_tags");
    emitter.instruction("cmp x9, #0");    // int?
    emitter.instruction("b.eq __rt_gdt_int");
    emitter.instruction("cmp x9, #1");    // string?
    emitter.instruction("b.eq __rt_gdt_string");
    emitter.instruction("cmp x9, #2");    // float?
    emitter.instruction("b.eq __rt_gdt_float");
    emitter.instruction("cmp x9, #3");    // bool?
    emitter.instruction("b.eq __rt_gdt_bool");
    emitter.instruction("cmp x9, #4");    // indexed-array payload?
    emitter.instruction("b.eq __rt_gdt_array");
    emitter.instruction("cmp x9, #5");    // hash payload?
    emitter.instruction("b.eq __rt_gdt_array");
    emitter.instruction("cmp x9, #6");    // object payload?
    emitter.instruction("b.eq __rt_gdt_object_cell");
    emitter.instruction("cmp x9, #9");    // resource payload?
    emitter.instruction("b.eq __rt_gdt_resource");
    emitter.instruction("b __rt_gdt_null");    // tag 8 and anything unknown → "null"
    emitter.label("__rt_gdt_object_cell");
    emitter.instruction("ldr x0, [x0, #8]");    // unwrap the object payload
    emitter.instruction("cbz x0, __rt_gdt_null");    // defensive null guard
    emitter.label("__rt_gdt_object_from_x0");
    emitter.instruction("ldr x11, [x0]");    // x11 = class_id at object offset 0
    abi::emit_symbol_address(emitter, "x9", "_classes_by_name_count");
    emitter.instruction("ldr x9, [x9]");    // x9 = entry count
    abi::emit_symbol_address(emitter, "x10", "_classes_by_name");
    emitter.instruction("mov x12, #0");    // entry index
    emitter.label("__rt_gdt_class_loop");
    emitter.instruction("cmp x12, x9");    // scanned every registered class?
    emitter.instruction("b.ge __rt_gdt_object_fallback");    // unknown id → literal "object"
    emitter.instruction("ldr x13, [x10, #16]");    // entry class_id column
    emitter.instruction("cmp x13, x11");    // id match?
    emitter.instruction("b.eq __rt_gdt_class_hit");    // return the class name
    emitter.instruction("add x10, x10, #48");    // advance to the next 48-byte entry
    emitter.instruction("add x12, x12, #1");    // advance the entry index
    emitter.instruction("b __rt_gdt_class_loop");    // continue scanning
    emitter.label("__rt_gdt_class_hit");
    emitter.instruction("ldr x1, [x10, #8]");    // name length column
    emitter.instruction("ldr x0, [x10]");    // name pointer column
    emitter.instruction("b __rt_gdt_ret");
    emitter.label("__rt_gdt_object_fallback");
    abi::emit_symbol_address(emitter, "x0", "_gdt_object");
    emitter.instruction("mov x1, #6");    // strlen("object")
    emitter.instruction("b __rt_gdt_ret");
    emit_gdt_name_case(emitter, "__rt_gdt_int", "_gdt_int", 3);
    emit_gdt_name_case(emitter, "__rt_gdt_string", "_gdt_string", 6);
    emit_gdt_name_case(emitter, "__rt_gdt_float", "_gdt_float", 5);
    emit_gdt_name_case(emitter, "__rt_gdt_bool", "_gdt_bool", 4);
    emit_gdt_name_case(emitter, "__rt_gdt_array", "_gdt_array", 5);
    emit_gdt_name_case(emitter, "__rt_gdt_null", "_gdt_null", 4);
    emit_gdt_name_case(emitter, "__rt_gdt_resource", "_gdt_resource", 17);
    emitter.label("__rt_gdt_ret");
    emitter.instruction("ldp x29, x30, [sp, #16]");    // restore frame pointer and return address
    emitter.instruction("add sp, sp, #32");    // release the helper frame
    emitter.instruction("ret");    // return the name string in x0/x1
}

/// Appends to `out` the listing that `emit_get_debug_type_linux_x86_64` emits for target `t`.
pub open spec fn get_debug_type_linux_x86_64(out: Seq<Line>, t: Target) -> Seq<Line> {
    let out = out
        .push(Line::Blank)
        .push(comment("--- runtime: get_debug_type ---"))
        .push(global("__rt_get_debug_type"))
        .push(ins("push rbp"))
        .push(ins("mov rbp, rsp"))
        .push(label("__rt_gdt_dispatch_x86"))
        .push(ins("test rdi, rdi"))
        .push(ins("je __rt_gdt_null_x86"))
        .push(ins("mov r10, QWORD PTR [rdi - 8]"))
        .push(ins("and r10, 0xff"))
        .push(ins("cmp r10, 2"))
        .push(ins("je __rt_gdt_array_x86"))
        .push(ins("cmp r10, 3"))
        .push(ins("je __rt_gdt_array_x86"))
        .push(ins("cmp r10, 4"))
        .push(ins("je __rt_gdt_object_from_rdi_x86"));
    let out = out
        .push(ins("mov r10, QWORD PTR [rdi]"))
        .push(ins("cmp r10, 7"))
        .push(ins("jne __rt_gdt_tags_x86"))
        .push(ins("mov rdi, QWORD PTR [rdi + 8]"))
        .push(ins("jmp __rt_gdt_dispatch_x86"))
        .push(label("__rt_gdt_tags_x86"))
        .push(ins("cmp r10, 0"))
        .push(ins("je __rt_gdt_int_x86"))
        .push(ins("cmp r10, 1"))
        .push(ins("je __rt_gdt_string_x86"))
        .push(ins("cmp r10, 2"))
        .push(ins("je __rt_gdt_float_x86"))
        .push(ins("cmp r10, 3"))
        .push(ins("je __rt_gdt_bool_x86"))
        .push(ins("cmp r10, 4"))
        .push(ins("je __rt_gdt_array_x86"));
    let out = out
        .push(ins("cmp r10, 5"))
        .push(ins("je __rt_gdt_array_x86"))
        .push(ins("cmp r10, 6"))
        .push(ins("je __rt_gdt_object_cell_x86"))
        .push(ins("cmp r10, 9"))
        .push(ins("je __rt_gdt_resource_x86"))
        .push(ins("jmp __rt_gdt_null_x86"))
        .push(label("__rt_gdt_object_cell_x86"))
        .push(ins("mov rdi, QWORD PTR [rdi + 8]"))
        .push(ins("test rdi, rdi"))
        .push(ins("je __rt_gdt_null_x86"))
        .push(label("__rt_gdt_object_from_rdi_x86"))
        .push(ins("mov r11, QWORD PTR [rdi]"));
    let out = out + load_symbol_to_reg(t, "r9"@, "_classes_by_name_count"@, 0);
    let out = out + symbol_address(t, "r10"@, "_classes_by_name"@);
    let out = out
        .push(ins("xor r8, r8"))
        .push(label("__rt_gdt_class_loop_x86"))
        .push(ins("cmp r8, r9"))
        .push(ins("jge __rt_gdt_object_fallback_x86"))
        .push(ins("mov rcx, QWORD PTR [r10 + 16]"))
        .push(ins("cmp rcx, r11"))
        .push(ins("je __rt_gdt_class_hit_x86"))
        .push(ins("add r10, 48"))
        .push(ins("add r8, 1"))
        .push(ins("jmp __rt_gdt_class_loop_x86"))
        .push(label("__rt_gdt_class_hit_x86"))
        .push(ins("mov rdx, QWORD PTR [r10 + 8]"))
        .push(ins("mov rax, QWORD PTR [r10]"))
        .push(ins("jmp __rt_gdt_ret_x86"))
        .push(label("__rt_gdt_object_fallback_x86"));
    let out = out + symbol_address(t, "rax"@, "_gdt_object"@);
    let out = out
        .push(ins("mov rdx, 6"))
        .push(ins("jmp __rt_gdt_ret_x86"));
    let out = gdt_name_case_x86_64(out, t, "__rt_gdt_int_x86", "_gdt_int", 3);
    let out = gdt_name_case_x86_64(out, t, "__rt_gdt_string_x86", "_gdt_string", 6);
    let out = gdt_name_case_x86_64(out, t, "__rt_gdt_float_x86", "_gdt_float", 5);
    let out = gdt_name_case_x86_64(out, t, "__rt_gdt_bool_x86", "_gdt_bool", 4);
    let out = gdt_name_case_x86_64(out, t, "__rt_gdt_array_x86", "_gdt_array", 5);
    let out = gdt_name_case_x86_64(out, t, "__rt_gdt_null_x86", "_gdt_null", 4);
    let out = gdt_name_case_x86_64(out, t, "__rt_gdt_resource_x86", "_gdt_resource", 17);
    let out = out
        .push(label("__rt_gdt_ret_x86"))
        .push(ins("pop rbp"))
        .push(ins("ret"));
    out
}

/// Emits the Linux x86_64 variant of `__rt_get_debug_type`.
fn emit_get_debug_type_linux_x86_64(emitter: &mut Emitter)
    ensures
        final(emitter).target == old(emitter).target,
        final(emitter)@ == get_debug_type_linux_x86_64(old(emitter)@, old(emitter).target),
{
    emitter.blank();
    emitter.comment("--- runtime: get_debug_type ---");
    emitter.label_global("__rt_get_debug_type");
    emitter.instruction("push rbp");    // preserve the caller frame pointer
    emitter.instruction("mov rbp, rsp");    // establish the helper frame pointer
    emitter.label("__rt_gdt_dispatch_x86");
    emitter.instruction("test rdi, rdi");    // null value → "null"
    emitter.instruction("je __rt_gdt_null_x86");
    emitter.instruction("mov r10, QWORD PTR [rdi - 8]");    // load the uniform heap header
    emitter.instruction("and r10, 0xff");    // isolate the heap kind byte
    emitter.instruction("cmp r10, 2");    // raw indexed array received as Mixed?
    emitter.instruction("je __rt_gdt_array_x86");
    emitter.instruction("cmp r10, 3");    // raw hash received as Mixed?
    emitter.instruction("je __rt_gdt_array_x86");
    emitter.instruction("cmp r10, 4");    // raw object received as Mixed?
    emitter.instruction("je __rt_gdt_object_from_rdi_x86");
    emitter.instruction("mov r10, QWORD PTR [rdi]");    // mixed cell: load the runtime value tag
    emitter.instruction("cmp r10, 7");    // nested boxed-Mixed entry?
    emitter.instruction("jne __rt_gdt_tags_x86");
    emitter.instruction("mov rdi, QWORD PTR [rdi + 8]");    // unwrap the nested cell payload
    emitter.instruction("jmp __rt_gdt_dispatch_x86");    // re-dispatch on the inner value
    emitter.label("__rt_gdt_tags_x86");
    emitter.instruction("cmp r10, 0");    // int?
    emitter.instruction("je __rt_gdt_int_x86");
    emitter.instruction("cmp r10, 1");    // string?
    emitter.instruction("je __rt_gdt_string_x86");
    emitter.instruction("cmp r10, 2");    // float?
    emitter.instruction("je __rt_gdt_float_x86");
    emitter.instruction("cmp r10, 3");    // bool?
    emitter.instruction("je __rt_gdt_bool_x86");
    emitter.instruction("cmp r10, 4");    // indexed-array payload?
    emitter.instruction("je __rt_gdt_array_x86");
    emitter.instruction("cmp r10, 5");    // hash payload?
    emitter.instruction("je __rt_gdt_array_x86");
    emitter.instruction("cmp r10, 6");    // object payload?
    emitter.instruction("je __rt_gdt_object_cell_x86");
    emitter.instruction("cmp r10, 9");    // resource payload?
    emitter.instruction("je __rt_gdt_resource_x86");
    emitter.instruction("jmp __rt_gdt_null_x86");    // tag 8 and anything unknown → "null"
    emitter.label("__rt_gdt_object_cell_x86");
    emitter.instruction("mov rdi, QWORD PTR [rdi + 8]");    // unwrap the object payload
    emitter.instruction("test rdi, rdi");    // defensive null guard
    emitter.instruction("je __rt_gdt_null_x86");
    emitter.label("__rt_gdt_object_from_rdi_x86");
    emitter.instruction("mov r11, QWORD PTR [rdi]");    // r11 = class_id at object offset 0
    abi::emit_load_symbol_to_reg(emitter, "r9", "_classes_by_name_count", 0);    // r9 = entry count
    abi::emit_symbol_address(emitter, "r10", "_classes_by_name");    // r10 = table base
    emitter.instruction("xor r8, r8");    // entry index
    emitter.label("__rt_gdt_class_loop_x86");
    emitter.instruction("cmp r8, r9");    // scanned every registered class?
    emitter.instruction("jge __rt_gdt_object_fallback_x86");    // unknown id → literal "object"
    emitter.instruction("mov rcx, QWORD PTR [r10 + 16]");    // entry class_id column
    emitter.instruction("cmp rcx, r11");    // id match?
    emitter.instruction("je __rt_gdt_class_hit_x86");    // return the class name
    emitter.instruction("add r10, 48");    // advance to the next 48-byte entry
    emitter.instruction("add r8, 1");    // advance the entry index
    emitter.instruction("jmp __rt_gdt_class_loop_x86");    // continue scanning
    emitter.label("__rt_gdt_class_hit_x86");
    emitter.instruction("mov rdx, QWORD PTR [r10 + 8]");    // name length column
    emitter.instruction("mov rax, QWORD PTR [r10]");    // name pointer column
    emitter.instruction("jmp __rt_gdt_ret_x86");
    emitter.label("__rt_gdt_object_fallback_x86");
    abi::emit_symbol_address(emitter, "rax", "_gdt_object");
    emitter.instruction("mov rdx, 6");    // strlen("object")
    emitter.instruction("jmp __rt_gdt_ret_x86");
    emit_gdt_name_case_x86_64(emitter, "__rt_gdt_int_x86", "_gdt_int", 3);
    emit_gdt_name_case_x86_64(emitter, "__rt_gdt_string_x86", "_gdt_string", 6);
    emit_gdt_name_case_x86_64(emitter, "__rt_gdt_float_x86", "_gdt_float", 5);
    emit_gdt_name_case_x86_64(emitter, "__rt_gdt_bool_x86", "_gdt_bool", 4);
    emit_gdt_name_case_x86_64(emitter, "__rt_gdt_array_x86", "_gdt_array", 5);
    emit_gdt_name_case_x86_64(emitter, "__rt_gdt_null_x86", "_gdt_null", 4);
    emit_gdt_name_case_x86_64(emitter, "__rt_gdt_resource_x86", "_gdt_resource", 17);
    emitter.label("__rt_gdt_ret_x86");
    emitter.instruction("pop rbp");    // restore the caller frame pointer
    emitter.instruction("ret");    // return the name string in rax/rdx
}

/// Appends to `out` the listing that `emit_gdt_name_case` emits for target `t`.
pub open spec fn gdt_name_case(out: Seq<Line>, t: Target, label: &str, symbol: &str, len: i64) -> Seq<Line> {
    let out = out
        .push(Line::Label(label@));
    let out = out + symbol_address(t, "x0"@, symbol@);
    let out = out
        .push(ins_int("mov x1, #", len as int, ""))
        .push(ins("b __rt_gdt_ret"));
    out
}

/// Emits one static type-name result: load the name string's address and length, then
/// branch to the shared epilogue.
fn emit_gdt_name_case(emitter: &mut Emitter, label: &str, symbol: &str, len: i64)
    ensures
        final(emitter).target == old(emitter).target,
        final(emitter)@ == gdt_name_case(old(emitter)@, old(emitter).target, label, symbol, len),
{
    emitter.label(label);
    abi::emit_symbol_address(emitter, "x0", symbol);
    emitter.instruction_int("mov x1, #", len as i64, "");    // static name length
    emitter.instruction("b __rt_gdt_ret");
}

/// Appends to `out` the listing that `emit_gdt_name_case_x86_64` emits for target `t`.
pub open spec fn gdt_name_case_x86_64(out: Seq<Line>, t: Target, label: &str, symbol: &str, len: i64) -> Seq<Line> {
    let out = out
        .push(Line::Label(label@));
    let out = out + symbol_address(t, "rax"@, symbol@);
    let out = out
        .push(ins_int("mov rdx, ", len as int, ""))
        .push(ins("jmp __rt_gdt_ret_x86"));
    out
}

/// Emits one static type-name result of the Linux x86_64 variant.
fn emit_gdt_name_case_x86_64(emitter: &mut Emitter, label: &str, symbol: &str, len: i64)
    ensures
        final(emitter).target == old(emitter).target,
        final(emitter)@ == gdt_name_case_x86_64(old(emitter)@, old(emitter).target, label, symbol, len),
{
    emitter.label(label);
    abi::emit_symbol_address(emitter, "rax", symbol);
    emitter.instruction_int("mov rdx, ", len as i64, "");    // static name length
    emitter.instruction("jmp __rt_gdt_ret_x86");
}

/// The emitter of this module only appends: the block it adds depends on the target
/// alone, and the listing it was handed stays in front of that block unchanged.
#[verifier::rlimit(80)]
#[verifier::spinoff_prover]
pub proof fn lemma_get_debug_type_emitters_append(out: Seq<Line>, t: Target)
    ensures
        get_debug_type(out, t) == out + get_debug_type(Seq::empty(), t),
{
    broadcast use crate::codegen::emit::group_listing;
}

/// The address `a` lies outside the 32-byte frame that `__rt_get_debug_type` sets up
/// below the stack pointer `sp`.
pub open spec fn outside_debug_type_frame(a: int, sp: int) -> bool {
    a < sp - 32 || a >= sp
}

/// The name `get_debug_type()` reports for a value, as (data symbol, name text): a null
/// pointer is `null`; a raw array or hash (heap kind 2 or 3) is `array`; a mixed cell is
/// named by its value tag: 0 `int`, 1 `string`, 2 `float`, 3 `bool`, 4 and 5 `array`,
/// 9 `resource (stream)`, and 8 or any unknown tag `null`.
pub open spec fn debug_type_entry(p: int, mem: spec_fn(int) -> int) -> (Seq<char>, Seq<char>) {
    let kind = mem(p - 8) % 256;
    let tag = mem(p);
    if p == 0 {
        ("_gdt_null"@, "null"@)
    } else if kind == 2 || kind == 3 {
        ("_gdt_array"@, "array"@)
    } else if tag == 0 {
        ("_gdt_int"@, "int"@)
    } else if tag == 1 {
        ("_gdt_string"@, "string"@)
    } else if tag == 2 {
        ("_gdt_float"@, "float"@)
    } else if tag == 3 {
        ("_gdt_bool"@, "bool"@)
    } else if tag == 4 || tag == 5 {
        ("_gdt_array"@, "array"@)
    } else if tag == 9 {
        ("_gdt_resource"@, "resource (stream)"@)
    } else {
        ("_gdt_null"@, "null"@)
    }
}

/// The name lengths of the type-name table.
proof fn lemma_debug_type_name_lengths()
    ensures
        "int"@.len() == 3,
        "string"@.len() == 6,
        "float"@.len() == 5,
        "bool"@.len() == 4,
        "array"@.len() == 5,
        "null"@.len() == 4,
        "resource (stream)"@.len() == 17,
{
    reveal_strlit("int");
    reveal_strlit("string");
    reveal_strlit("float");
    reveal_strlit("bool");
    reveal_strlit("array");
    reveal_strlit("null");
    reveal_strlit("resource (stream)");
}

#[verifier::rlimit(50)]
#[verifier::spinoff_prover]
proof fn lemma_get_debug_type_line_0(t: Target)
    requires
        t.arch == Arch::AArch64,
    ensures
        get_debug_type(Seq::empty(), t)[0] == Line::Blank,
{
}

#[verifier::rlimit(50)]
#[verifier::spinoff_prover]
proof fn lemma_get_debug_type_line_1(t: Target)
    requires
        t.arch == Arch::AArch64,
    ensures
        get_debug_type(Seq::empty(), t)[1] == comment("--- runtime: get_debug_type ---"),
{
}

#[verifier::rlimit(50)]
#[verifier::spinoff_prover]
proof fn lemma_get_debug_type_line_2(t: Target)
    requires
        t.arch == Arch::AArch64,
    ensures
        get_debug_type(Seq::empty(), t)[2] == global("__rt_get_debug_type"),
{
}

#[verifier::rlimit(50)]
#[verifier::spinoff_prover]
proof fn lemma_get_debug_type_line_3(t: Target)
    requires
        t.arch == Arch::AArch64,
    ensures
        get_debug_type(Seq::empty(), t)[3] == ins("sub sp, sp, #32"),
{
}

#[verifier::rlimit(50)]
#[verifier::spinoff_prover]
proof fn lemma_get_debug_type_line_4(t: Target)
    requires
        t.arch == Arch::AArch64,
    ensures
        get_debug_type(Seq::empty(), t)[4] == ins("stp x29, x30, [sp, #16]"),
{
}

#[verifier::rlimit(50)]
#[verifier::spinoff_prover]
proof fn lemma_get_debug_type_line_5(t: Target)
    requires
        t.arch == Arch::AArch64,
    ensures
        get_debug_type(Seq::empty(), t)[5] == ins("add x29, sp, #16"),
{
}

#[verifier::rlimit(50)]
#[verifier::spinoff_prover]
proof fn lemma_get_debug_type_line_6(t: Target)
    requires
        t.arch == Arch::AArch64,
    ensures
        get_debug_type(Seq::empty(), t)[6] == label("__rt_gdt_dispatch"),
{
}

#[verifier::rlimit(50)]
#[verifier::spinoff_prover]
proof fn lemma_get_debug_type_line_7(t: Target)
    requires
        t.arch == Arch::AArch64,
    ensures
        get_debug_type(Seq::empty(), t)[7] == ins("cbz x0, __rt_gdt_null"),
{
}

#[verifier::rlimit(50)]
#[verifier::spinoff_prover]
proof fn lemma_get_debug_type_line_8(t: Target)
    requires
        t.arch == Arch::AArch64,
    ensures
        get_debug_type(Seq::empty(), t)[8] == ins("ldr x9, [x0, #-8]"),
{
}

#[verifier::rlimit(50)]
#[verifier::spinoff_prover]
proof fn lemma_get_debug_type_line_9(t: Target)
    requires
        t.arch == Arch::AArch64,
    ensures
        get_debug_type(Seq::empty(), t)[9] == ins("and x9, x9, #0xff"),
{
}

#[verifier::rlimit(50)]
#[verifier::spinoff_prover]
proof fn lemma_get_debug_type_line_10(t: Target)
    requires
        t.arch == Arch::AArch64,
    ensures
        get_debug_type(Seq::empty(), t)[10] == ins("cmp x9, #2"),
{
}

#[verifier::rlimit(50)]
#[verifier::spinoff_prover]
proof fn lemma_get_debug_type_line_11(t: Target)
    requires
        t.arch == Arch::AArch64,
    ensures
        get_debug_type(Seq::empty(), t)[11] == ins("b.eq __rt_gdt_array"),
{
}

#[verifier::rlimit(50)]
#[verifier::spinoff_prover]
proof fn lemma_get_debug_type_line_12(t: Target)
    requires
        t.arch == Arch::AArch64,
    ensures
        get_debug_type(Seq::empty(), t)[12] == ins("cmp x9, #3"),
{
}

#[verifier::rlimit(50)]
#[verifier::spinoff_prover]
proof fn lemma_get_debug_type_line_13(t: Target)
    requires
        t.arch == Arch::AArch64,
    ensures
        get_debug_type(Seq::empty(), t)[13] == ins("b.eq __rt_gdt_array"),
{
}

#[verifier::rlimit(50)]
#[verifier::spinoff_prover]
proof fn lemma_get_debug_type_line_14(t: Target)
    requires
        t.arch == Arch::AArch64,
    ensures
        get_debug_type(Seq::empty(), t)[14] == ins("cmp x9, #4"),
{
}

#[verifier::rlimit(50)]
#[verifier::spinoff_prover]
proof fn lemma_get_debug_type_line_15(t: Target)
    requires
        t.arch == Arch::AArch64,
    ensures
        get_debug_type(Seq::empty(), t)[15] == ins("b.eq __rt_gdt_object_from_x0"),
{
}

#[verifier::rlimit(50)]
#[verifier::spinoff_prover]
proof fn lemma_get_debug_type_line_16(t: Target)
    requires
        t.arch == Arch::AArch64,
    ensures
        get_debug_type(Seq::empty(), t)[16] == ins("ldr x9, [x0]"),
{
}

#[verifier::rlimit(50)]
#[verifier::spinoff_prover]
proof fn lemma_get_debug_type_line_17(t: Target)
    requires
        t.arch == Arch::AArch64,
    ensures
        get_debug_type(Seq::empty(), t)[17] == ins("cmp x9, #7"),
{
}

#[verifier::rlimit(50)]
#[verifier::spinoff_prover]
proof fn lemma_get_debug_type_line_18(t: Target)
    requires
        t.arch == Arch::AArch64,
    ensures
        get_debug_type(Seq::empty(), t)[18] == ins("b.ne __rt_gdt_tags"),
{
}

#[verifier::rlimit(50)]
#[verifier::spinoff_prover]
proof fn lemma_get_debug_type_line_19(t: Target)
    requires
        t.arch == Arch::AArch64,
    ensures
        get_debug_type(Seq::empty(), t)[19] == ins("ldr x0, [x0, #8]"),
{
}

#[verifier::rlimit(50)]
#[verifier::spinoff_prover]
proof fn lemma_get_debug_type_line_20(t: Target)
    requires
        t.arch == Arch::AArch64,
    ensures
        get_debug_type(Seq::empty(), t)[20] == ins("b __rt_gdt_dispatch"),
{
}

#[verifier::rlimit(50)]
#[verifier::spinoff_prover]
proof fn lemma_get_debug_type_line_21(t: Target)
    requires
        t.arch == Arch::AArch64,
    ensures
        get_debug_type(Seq::empty(), t)[21] == label("__rt_gdt_tags"),
{
}

#[verifier::rlimit(50)]
#[verifier::spinoff_prover]
proof fn lemma_get_debug_type_line_22(t: Target)
    requires
        t.arch == Arch::AArch64,
    ensures
        get_debug_type(Seq::empty(), t)[22] == ins("cmp x9, #0"),
{
}

#[verifier::rlimit(50)]
#[verifier::spinoff_prover]
proof fn lemma_get_debug_type_line_23(t: Target)
    requires
        t.arch == Arch::AArch64,
    ensures
        get_debug_type(Seq::empty(), t)[23] == ins("b.eq __rt_gdt_int"),
{
}

#[verifier::rlimit(50)]
#[verifier::spinoff_prover]
proof fn lemma_get_debug_type_line_24(t: Target)
    requires
        t.arch == Arch::AArch64,
    ensures
        get_debug_type(Seq::empty(), t)[24] == ins("cmp x9, #1"),
{
}

#[verifier::rlimit(50)]
#[verifier::spinoff_prover]
proof fn lemma_get_debug_type_line_25(t: Target)
    requires
        t.arch == Arch::AArch64,
    ensures
        get_debug_type(Seq::empty(), t)[25] == ins("b.eq __rt_gdt_string"),
{
}

#[verifier::rlimit(50)]
#[verifier::spinoff_prover]
proof fn lemma_get_debug_type_line_26(t: Target)
    requires
        t.arch == Arch::AArch64,
    ensures
        get_debug_type(Seq::empty(), t)[26] == ins("cmp x9, #2"),
{
}

#[verifier::rlimit(50)]
#[verifier::spinoff_prover]
proof fn lemma_get_debug_type_line_27(t: Target)
    requires
        t.arch == Arch::AArch64,
    ensures
        get_debug_type(Seq::empty(), t)[27] == ins("b.eq __rt_gdt_float"),
{
}

#[verifier::rlimit(50)]
#[verifier::spinoff_prover]
proof fn lemma_get_debug_type_line_28(t: Target)
    requires
        t.arch == Arch::AArch64,
    ensures
        get_debug_type(Seq::empty(), t)[28] == ins("cmp x9, #3"),
{
}

#[verifier::rlimit(50)]
#[verifier::spinoff_prover]
proof fn lemma_get_debug_type_line_29(t: Target)
    requires
        t.arch == Arch::AArch64,
    ensures
        get_debug_type(Seq::empty(), t)[29] == ins("b.eq __rt_gdt_bool"),
{
}

#[verifier::rlimit(50)]
#[verifier::spinoff_prover]
proof fn lemma_get_debug_type_line_30(t: Target)
    requires
        t.arch == Arch::AArch64,
    ensures
        get_debug_type(Seq::empty(), t)[30] == ins("cmp x9, #4"),
{
}

#[verifier::rlimit(50)]
#[verifier::spinoff_prover]
proof fn lemma_get_debug_type_line_31(t: Target)
    requires
        t.arch == Arch::AArch64,
    ensures
        get_debug_type(Seq::empty(), t)[31] == ins("b.eq __rt_gdt_array"),
{
}

#[verifier::rlimit(50)]
#[verifier::spinoff_prover]
proof fn lemma_get_debug_type_line_32(t: Target)
    requires
        t.arch == Arch::AArch64,
    ensures
        get_debug_type(Seq::empty(), t)[32] == ins("cmp x9, #5"),
{
}

#[verifier::rlimit(50)]
#[verifier::spinoff_prover]
proof fn lemma_get_debug_type_line_33(t: Target)
    requires
        t.arch == Arch::AArch64,
    ensures
        get_debug_type(Seq::empty(), t)[33] == ins("b.eq __rt_gdt_array"),
{
}

#[verifier::rlimit(50)]
#[verifier::spinoff_prover]
proof fn lemma_get_debug_type_line_34(t: Target)
    requires
        t.arch == Arch::AArch64,
    ensures
        get_debug_type(Seq::empty(), t)[34] == ins("cmp x9, #6"),
{
}

#[verifier::rlimit(50)]
#[verifier::spinoff_prover]
proof fn lemma_get_debug_type_line_35(t: Target)
    requires
        t.arch == Arch::AArch64,
    ensures
        get_debug_type(Seq::empty(), t)[35] == ins("b.eq __rt_gdt_object_cell"),
{
}

#[verifier::rlimit(50)]
#[verifier::spinoff_prover]
proof fn lemma_get_debug_type_line_36(t: Target)
    requires
        t.arch == Arch::AArch64,
    ensures
        get_debug_type(Seq::empty(), t)[36] == ins("cmp x9, #9"),
{
}

#[verifier::rlimit(50)]
#[verifier::spinoff_prover]
proof fn lemma_get_debug_type_line_37(t: Target)
    requires
        t.arch == Arch::AArch64,
    ensures
        get_debug_type(Seq::empty(), t)[37] == ins("b.eq __rt_gdt_resource"),
{
}

#[verifier::rlimit(50)]
#[verifier::spinoff_prover]
proof fn lemma_get_debug_type_line_38(t: Target)
    requires
        t.arch == Arch::AArch64,
    ensures
        get_debug_type(Seq::empty(), t)[38] == ins("b __rt_gdt_null"),
{
}

#[verifier::rlimit(50)]
#[verifier::spinoff_prover]
proof fn lemma_get_debug_type_line_39(t: Target)
    requires
        t.arch == Arch::AArch64,
    ensures
        get_debug_type(Seq::empty(), t)[39] == label("__rt_gdt_object_cell"),
{
}

#[verifier::rlimit(50)]
#[verifier::spinoff_prover]
proof fn lemma_get_debug_type_line_40(t: Target)
    requires
        t.arch == Arch::AArch64,
    ensures
        get_debug_type(Seq::empty(), t)[40] == ins("ldr x0, [x0, #8]"),
{
}

#[verifier::rlimit(50)]
#[verifier::spinoff_prover]
proof fn lemma_get_debug_type_line_41(t: Target)
    requires
        t.arch == Arch::AArch64,
    ensures
        get_debug_type(Seq::empty(), t)[41] == ins("cbz x0, __rt_gdt_null"),
{
}

#[verifier::rlimit(50)]
#[verifier::spinoff_prover]
proof fn lemma_get_debug_type_line_42(t: Target)
    requires
        t.arch == Arch::AArch64,
    ensures
        get_debug_type(Seq::empty(), t)[42] == label("__rt_gdt_object_from_x0"),
{
}

#[verifier::rlimit(50)]
#[verifier::spinoff_prover]
proof fn lemma_get_debug_type_line_43(t: Target)
    requires
        t.arch == Arch::AArch64,
    ensures
        get_debug_type(Seq::empty(), t)[43] == ins("ldr x11, [x0]"),
{
}

#[verifier::rlimit(50)]
#[verifier::spinoff_prover]
proof fn lemma_get_debug_type_line_44(t: Target)
    requires
        t.arch == Arch::AArch64,
    ensures
        get_debug_type(Seq::empty(), t)[44] == adrp_line(t.platform, "x9"@, "_classes_by_name_count"@),
{
}

#[verifier::rlimit(50)]
#[verifier::spinoff_prover]
proof fn lemma_get_debug_type_line_45(t: Target)
    requires
        t.arch == Arch::AArch64,
    ensures
        get_debug_type(Seq::empty(), t)[45] == add_lo12_line(t.platform, "x9"@, "x9"@, "_classes_by_name_count"@),
{
}

#[verifier::rlimit(50)]
#[verifier::spinoff_prover]
proof fn lemma_get_debug_type_line_46(t: Target)
    requires
        t.arch == Arch::AArch64,
    ensures
        get_debug_type(Seq::empty(), t)[46] == ins("ldr x9, [x9]"),
{
}

#[verifier::rlimit(50)]
#[verifier::spinoff_prover]
proof fn lemma_get_debug_type_line_47(t: Target)
    requires
        t.arch == Arch::AArch64,
    ensures
        get_debug_type(Seq::empty(), t)[47] == adrp_line(t.platform, "x10"@, "_classes_by_name"@),
{
}

#[verifier::rlimit(50)]
#[verifier::spinoff_prover]
proof fn lemma_get_debug_type_line_48(t: Target)
    requires
        t.arch == Arch::AArch64,
    ensures
        get_debug_type(Seq::empty(), t)[48] == add_lo12_line(t.platform, "x10"@, "x10"@, "_classes_by_name"@),
{
}

#[verifier::rlimit(50)]
#[verifier::spinoff_prover]
proof fn lemma_get_debug_type_line_49(t: Target)
    requires
        t.arch == Arch::AArch64,
    ensures
        get_debug_type(Seq::empty(), t)[49] == ins("mov x12, #0"),
{
}

#[verifier::rlimit(50)]
#[verifier::spinoff_prover]
proof fn lemma_get_debug_type_line_50(t: Target)
    requires
        t.arch == Arch::AArch64,
    ensures
        get_debug_type(Seq::empty(), t)[50] == label("__rt_gdt_class_loop"),
{
}

#[verifier::rlimit(50)]
#[verifier::spinoff_prover]
proof fn lemma_get_debug_type_line_51(t: Target)
    requires
        t.arch == Arch::AArch64,
    ensures
        get_debug_type(Seq::empty(), t)[51] == ins("cmp x12, x9"),
{
}

#[verifier::rlimit(50)]
#[verifier::spinoff_prover]
proof fn lemma_get_debug_type_line_52(t: Target)
    requires
        t.arch == Arch::AArch64,
    ensures
        get_debug_type(Seq::empty(), t)[52] == ins("b.ge __rt_gdt_object_fallback"),
{
}

#[verifier::rlimit(50)]
#[verifier::spinoff_prover]
proof fn lemma_get_debug_type_line_53(t: Target)
    requires
        t.arch == Arch::AArch64,
    ensures
        get_debug_type(Seq::empty(), t)[53] == ins("ldr x13, [x10, #16]"),
{
}

#[verifier::rlimit(50)]
#[verifier::spinoff_prover]
proof fn lemma_get_debug_type_line_54(t: Target)
    requires
        t.arch == Arch::AArch64,
    ensures
        get_debug_type(Seq::empty(), t)[54] == ins("cmp x13, x11"),
{
}

#[verifier::rlimit(50)]
#[verifier::spinoff_prover]
proof fn lemma_get_debug_type_line_55(t: Target)
    requires
        t.arch == Arch::AArch64,
    ensures
        get_debug_type(Seq::empty(), t)[55] == ins("b.eq __rt_gdt_class_hit"),
{
}

#[verifier::rlimit(50)]
#[verifier::spinoff_prover]
proof fn lemma_get_debug_type_line_56(t: Target)
    requires
        t.arch == Arch::AArch64,
    ensures
        get_debug_type(Seq::empty(), t)[56] == ins("add x10, x10, #48"),
{
}

#[verifier::rlimit(50)]
#[verifier::spinoff_prover]
proof fn lemma_get_debug_type_line_57(t: Target)
    requires
        t.arch == Arch::AArch64,
    ensures
        get_debug_type(Seq::empty(), t)[57] == ins("add x12, x12, #1"),
{
}

#[verifier::rlimit(50)]
#[verifier::spinoff_prover]
proof fn lemma_get_debug_type_line_58(t: Target)
    requires
        t.arch == Arch::AArch64,
    ensures
        get_debug_type(Seq::empty(), t)[58] == ins("b __rt_gdt_class_loop"),
{
}

#[verifier::rlimit(50)]
#[verifier::spinoff_prover]
proof fn lemma_get_debug_type_line_59(t: Target)
    requires
        t.arch == Arch::AArch64,
    ensures
        get_debug_type(Seq::empty(), t)[59] == label("__rt_gdt_class_hit"),
{
}

#[verifier::rlimit(50)]
#[verifier::spinoff_prover]
proof fn lemma_get_debug_type_line_60(t: Target)
    requires
        t.arch == Arch::AArch64,
    ensures
        get_debug_type(Seq::empty(), t)[60] == ins("ldr x1, [x10, #8]"),
{
}

#[verifier::rlimit(50)]
#[verifier::spinoff_prover]
proof fn lemma_get_debug_type_line_61(t: Target)
    requires
        t.arch == Arch::AArch64,
    ensures
        get_debug_type(Seq::empty(), t)[61] == ins("ldr x0, [x10]"),
{
}

#[verifier::rlimit(50)]
#[verifier::spinoff_prover]
proof fn lemma_get_debug_type_line_62(t: Target)
    requires
        t.arch == Arch::AArch64,
    ensures
        get_debug_type(Seq::empty(), t)[62] == ins("b __rt_gdt_ret"),
{
}

#[verifier::rlimit(50)]
#[verifier::spinoff_prover]
proof fn lemma_get_debug_type_line_63(t: Target)
    requires
        t.arch == Arch::AArch64,
    ensures
        get_debug_type(Seq::empty(), t)[63] == label("__rt_gdt_object_fallback"),
{
}

#[verifier::rlimit(50)]
#[verifier::spinoff_prover]
proof fn lemma_get_debug_type_line_64(t: Target)
    requires
        t.arch == Arch::AArch64,
    ensures
        get_debug_type(Seq::empty(), t)[64] == adrp_line(t.platform, "x0"@, "_gdt_object"@),
{
}

#[verifier::rlimit(50)]
#[verifier::spinoff_prover]
proof fn lemma_get_debug_type_line_65(t: Target)
    requires
        t.arch == Arch::AArch64,
    ensures
        get_debug_type(Seq::empty(), t)[65] == add_lo12_line(t.platform, "x0"@, "x0"@, "_gdt_object"@),
{
}

#[verifier::rlimit(50)]
#[verifier::spinoff_prover]
proof fn lemma_get_debug_type_line_66(t: Target)
    requires
        t.arch == Arch::AArch64,
    ensures
        get_debug_type(Seq::empty(), t)[66] == ins("mov x1, #6"),
{
}

#[verifier::rlimit(50)]
#[verifier::spinoff_prover]
proof fn lemma_get_debug_type_line_67(t: Target)
    requires
        t.arch == Arch::AArch64,
    ensures
        get_debug_type(Seq::empty(), t)[67] == ins("b __rt_gdt_ret"),
{
}

#[verifier::rlimit(50)]
#[verifier::spinoff_prover]
proof fn lemma_get_debug_type_line_68(t: Target)
    requires
        t.arch == Arch::AArch64,
    ensures
        get_debug_type(Seq::empty(), t)[68] == Line::Label("__rt_gdt_int"@),
{
}

#[verifier::rlimit(50)]
#[verifier::spinoff_prover]
proof fn lemma_get_debug_type_line_69(t: Target)
    requires
        t.arch == Arch::AArch64,
    ensures
        get_debug_type(Seq::empty(), t)[69] == adrp_line(t.platform, "x0"@, "_gdt_int"@),
{
}

#[verifier::rlimit(50)]
#[verifier::spinoff_prover]
proof fn lemma_get_debug_type_line_70(t: Target)
    requires
        t.arch == Arch::AArch64,
    ensures
        get_debug_type(Seq::empty(), t)[70] == add_lo12_line(t.platform, "x0"@, "x0"@, "_gdt_int"@),
{
}

#[verifier::rlimit(50)]
#[verifier::spinoff_prover]
proof fn lemma_get_debug_type_line_71(t: Target)
    requires
        t.arch == Arch::AArch64,
    ensures
        get_debug_type(Seq::empty(), t)[71] == ins_int("mov x1, #", 3, ""),
{
}

#[verifier::rlimit(50)]
#[verifier::spinoff_prover]
proof fn lemma_get_debug_type_line_72(t: Target)
    requires
        t.arch == Arch::AArch64,
    ensures
        get_debug_type(Seq::empty(), t)[72] == ins("b __rt_gdt_ret"),
{
}

#[verifier::rlimit(50)]
#[verifier::spinoff_prover]
proof fn lemma_get_debug_type_line_73(t: Target)
    requires
        t.arch == Arch::AArch64,
    ensures
        get_debug_type(Seq::empty(), t)[73] == Line::Label("__rt_gdt_string"@),
{
}

#[verifier::rlimit(50)]
#[verifier::spinoff_prover]
proof fn lemma_get_debug_type_line_74(t: Target)
    requires
        t.arch == Arch::AArch64,
    ensures
        get_debug_type(Seq::empty(), t)[74] == adrp_line(t.platform, "x0"@, "_gdt_string"@),
{
}

#[verifier::rlimit(50)]
#[verifier::spinoff_prover]
proof fn lemma_get_debug_type_line_75(t: Target)
    requires
        t.arch == Arch::AArch64,
    ensures
        get_debug_type(Seq::empty(), t)[75] == add_lo12_line(t.platform, "x0"@, "x0"@, "_gdt_string"@),
{
}

#[verifier::rlimit(50)]
#[verifier::spinoff_prover]
proof fn lemma_get_debug_type_line_76(t: Target)
    requires
        t.arch == Arch::AArch64,
    ensures
        get_debug_type(Seq::empty(), t)[76] == ins_int("mov x1, #", 6, ""),
{
}

#[verifier::rlimit(50)]
#[verifier::spinoff_prover]
proof fn lemma_get_debug_type_line_77(t: Target)
    requires
        t.arch == Arch::AArch64,
    ensures
        get_debug_type(Seq::empty(), t)[77] == ins("b __rt_gdt_ret"),
{
}

#[verifier::rlimit(50)]
#[verifier::spinoff_prover]
proof fn lemma_get_debug_type_line_78(t: Target)
    requires
        t.arch == Arch::AArch64,
    ensures
        get_debug_type(Seq::empty(), t)[78] == Line::Label("__rt_gdt_float"@),
{
}

#[verifier::rlimit(50)]
#[verifier::spinoff_prover]
proof fn lemma_get_debug_type_line_79(t: Target)
    requires
        t.arch == Arch::AArch64,
    ensures
        get_debug_type(Seq::empty(), t)[79] == adrp_line(t.platform, "x0"@, "_gdt_float"@),
{
}

#[verifier::rlimit(50)]
#[verifier::spinoff_prover]
proof fn lemma_get_debug_type_line_80(t: Target)
    requires
        t.arch == Arch::AArch64,
    ensures
        get_debug_type(Seq::empty(), t)[80] == add_lo12_line(t.platform, "x0"@, "x0"@, "_gdt_float"@),
{
}

#[verifier::rlimit(50)]
#[verifier::spinoff_prover]
proof fn lemma_get_debug_type_line_81(t: Target)
    requires
        t.arch == Arch::AArch64,
    ensures
        get_debug_type(Seq::empty(), t)[81] == ins_int("mov x1, #", 5, ""),
{
}

#[verifier::rlimit(50)]
#[verifier::spinoff_prover]
proof fn lemma_get_debug_type_line_82(t: Target)
    requires
        t.arch == Arch::AArch64,
    ensures
        get_debug_type(Seq::empty(), t)[82] == ins("b __rt_gdt_ret"),
{
}

#[verifier::rlimit(50)]
#[verifier::spinoff_prover]
proof fn lemma_get_debug_type_line_83(t: Target)
    requires
        t.arch == Arch::AArch64,
    ensures
        get_debug_type(Seq::empty(), t)[83] == Line::Label("__rt_gdt_bool"@),
{
}

#[verifier::rlimit(50)]
#[verifier::spinoff_prover]
proof fn lemma_get_debug_type_line_84(t: Target)
    requires
        t.arch == Arch::AArch64,
    ensures
        get_debug_type(Seq::empty(), t)[84] == adrp_line(t.platform, "x0"@, "_gdt_bool"@),
{
}

#[verifier::rlimit(50)]
#[verifier::spinoff_prover]
proof fn lemma_get_debug_type_line_85(t: Target)
    requires
        t.arch == Arch::AArch64,
    ensures
        get_debug_type(Seq::empty(), t)[85] == add_lo12_line(t.platform, "x0"@, "x0"@, "_gdt_bool"@),
{
}

#[verifier::rlimit(50)]
#[verifier::spinoff_prover]
proof fn lemma_get_debug_type_line_86(t: Target)
    requires
        t.arch == Arch::AArch64,
    ensures
        get_debug_type(Seq::empty(), t)[86] == ins_int("mov x1, #", 4, ""),
{
}

#[verifier::rlimit(50)]
#[verifier::spinoff_prover]
proof fn lemma_get_debug_type_line_87(t: Target)
    requires
        t.arch == Arch::AArch64,
    ensures
        get_debug_type(Seq::empty(), t)[87] == ins("b __rt_gdt_ret"),
{
}

#[verifier::rlimit(50)]
#[verifier::spinoff_prover]
proof fn lemma_get_debug_type_line_88(t: Target)
    requires
        t.arch == Arch::AArch64,
    ensures
        get_debug_type(Seq::empty(), t)[88] == Line::Label("__rt_gdt_array"@),
{
}

#[verifier::rlimit(50)]
#[verifier::spinoff_prover]
proof fn lemma_get_debug_type_line_89(t: Target)
    requires
        t.arch == Arch::AArch64,
    ensures
        get_debug_type(Seq::empty(), t)[89] == adrp_line(t.platform, "x0"@, "_gdt_array"@),
{
}

#[verifier::rlimit(50)]
#[verifier::spinoff_prover]
proof fn lemma_get_debug_type_line_90(t: Target)
    requires
        t.arch == Arch::AArch64,
    ensures
        get_debug_type(Seq::empty(), t)[90] == add_lo12_line(t.platform, "x0"@, "x0"@, "_gdt_array"@),
{
}

#[verifier::rlimit(50)]
#[verifier::spinoff_prover]
proof fn lemma_get_debug_type_line_91(t: Target)
    requires
        t.arch == Arch::AArch64,
    ensures
        get_debug_type(Seq::empty(), t)[91] == ins_int("mov x1, #", 5, ""),
{
}

#[verifier::rlimit(50)]
#[verifier::spinoff_prover]
proof fn lemma_get_debug_type_line_92(t: Target)
    requires
        t.arch == Arch::AArch64,
    ensures
        get_debug_type(Seq::empty(), t)[92] == ins("b __rt_gdt_ret"),
{
}

#[verifier::rlimit(50)]
#[verifier::spinoff_prover]
proof fn lemma_get_debug_type_line_93(t: Target)
    requires
        t.arch == Arch::AArch64,
    ensures
        get_debug_type(Seq::empty(), t)[93] == Line::Label("__rt_gdt_null"@),
{
}

#[verifier::rlimit(50)]
#[verifier::spinoff_prover]
proof fn lemma_get_debug_type_line_94(t: Target)
    requires
        t.arch == Arch::AArch64,
    ensures
        get_debug_type(Seq::empty(), t)[94] == adrp_line(t.platform, "x0"@, "_gdt_null"@),
{
}

#[verifier::rlimit(50)]
#[verifier::spinoff_prover]
proof fn lemma_get_debug_type_line_95(t: Target)
    requires
        t.arch == Arch::AArch64,
    ensures
        get_debug_type(Seq::empty(), t)[95] == add_lo12_line(t.platform, "x0"@, "x0"@, "_gdt_null"@),
{
}

#[verifier::rlimit(50)]
#[verifier::spinoff_prover]
proof fn lemma_get_debug_type_line_96(t: Target)
    requires
        t.arch == Arch::AArch64,
    ensures
        get_debug_type(Seq::empty(), t)[96] == ins_int("mov x1, #", 4, ""),
{
}

#[verifier::rlimit(50)]
#[verifier::spinoff_prover]
proof fn lemma_get_debug_type_line_97(t: Target)
    requires
        t.arch == Arch::AArch64,
    ensures
        get_debug_type(Seq::empty(), t)[97] == ins("b __rt_gdt_ret"),
{
}

#[verifier::rlimit(50)]
#[verifier::spinoff_prover]
proof fn lemma_get_debug_type_line_98(t: Target)
    requires
        t.arch == Arch::AArch64,
    ensures
        get_debug_type(Seq::empty(), t)[98] == Line::Label("__rt_gdt_resource"@),
{
}

#[verifier::rlimit(50)]
#[verifier::spinoff_prover]
proof fn lemma_get_debug_type_line_99(t: Target)
    requires
        t.arch == Arch::AArch64,
    ensures
        get_debug_type(Seq::empty(), t)[99] == adrp_line(t.platform, "x0"@, "_gdt_resource"@),
{
}

#[verifier::rlimit(50)]
#[verifier::spinoff_prover]
proof fn lemma_get_debug_type_line_100(t: Target)
    requires
        t.arch == Arch::AArch64,
    ensures
        get_debug_type(Seq::empty(), t)[100] == add_lo12_line(t.platform, "x0"@, "x0"@, "_gdt_resource"@),
{
}

#[verifier::rlimit(50)]
#[verifier::spinoff_prover]
proof fn lemma_get_debug_type_line_101(t: Target)
    requires
        t.arch == Arch::AArch64,
    ensures
        get_debug_type(Seq::empty(), t)[101] == ins_int("mov x1, #", 17, ""),
{
}

#[verifier::rlimit(50)]
#[verifier::spinoff_prover]
proof fn lemma_get_debug_type_line_102(t: Target)
    requires
        t.arch == Arch::AArch64,
    ensures
        get_debug_type(Seq::empty(), t)[102] == ins("b __rt_gdt_ret"),
{
}

#[verifier::rlimit(50)]
#[verifier::spinoff_prover]
proof fn lemma_get_debug_type_line_103(t: Target)
    requires
        t.arch == Arch::AArch64,
    ensures
        get_debug_type(Seq::empty(), t)[103] == label("__rt_gdt_ret"),
{
}

#[verifier::rlimit(50)]
#[verifier::spinoff_prover]
proof fn lemma_get_debug_type_line_104(t: Target)
    requires
        t.arch == Arch::AArch64,
    ensures
        get_debug_type(Seq::empty(), t)[104] == ins("ldp x29, x30, [sp, #16]"),
{
}

#[verifier::rlimit(50)]
#[verifier::spinoff_prover]
proof fn lemma_get_debug_type_line_105(t: Target)
    requires
        t.arch == Arch::AArch64,
    ensures
        get_debug_type(Seq::empty(), t)[105] == ins("add sp, sp, #32"),
{
}

#[verifier::rlimit(50)]
#[verifier::spinoff_prover]
proof fn lemma_get_debug_type_line_106(t: Target)
    requires
        t.arch == Arch::AArch64,
    ensures
        get_debug_type(Seq::empty(), t)[106] == ins("ret"),
{
}

#[verifier::rlimit(50)]
#[verifier::spinoff_prover]
proof fn lemma_get_debug_type_length(t: Target)
    requires
        t.arch == Arch::AArch64,
    ensures
        get_debug_type(Seq::empty(), t).len() == 107,
{
}

/// The lines of the AArch64 `get_debug_type` block.
#[verifier::rlimit(50)]
proof fn lemma_get_debug_type_lines(t: Target)
    requires
        t.arch == Arch::AArch64,
    ensures
        ({
            let lines = get_debug_type(Seq::empty(), t);
            &&& lines.len() == 107
            &&& lines[0] == Line::Blank
            &&& lines[1] == comment("--- runtime: get_debug_type ---")
            &&& lines[2] == global("__rt_get_debug_type")
            &&& lines[3] == ins("sub sp, sp, #32")
            &&& lines[4] == ins("stp x29, x30, [sp, #16]")
            &&& lines[5] == ins("add x29, sp, #16")
            &&& lines[6] == label("__rt_gdt_dispatch")
            &&& lines[7] == ins("cbz x0, __rt_gdt_null")
            &&& lines[8] == ins("ldr x9, [x0, #-8]")
            &&& lines[9] == ins("and x9, x9, #0xff")
            &&& lines[10] == ins("cmp x9, #2")
            &&& lines[11] == ins("b.eq __rt_gdt_array")
            &&& lines[12] == ins("cmp x9, #3")
            &&& lines[13] == ins("b.eq __rt_gdt_array")
            &&& lines[14] == ins("cmp x9, #4")
            &&& lines[15] == ins("b.eq __rt_gdt_object_from_x0")
            &&& lines[16] == ins("ldr x9, [x0]")
            &&& lines[17] == ins("cmp x9, #7")
            &&& lines[18] == ins("b.ne __rt_gdt_tags")
            &&& lines[19] == ins("ldr x0, [x0, #8]")
            &&& lines[20] == ins("b __rt_gdt_dispatch")
            &&& lines[21] == label("__rt_gdt_tags")
            &&& lines[22] == ins("cmp x9, #0")
            &&& lines[23] == ins("b.eq __rt_gdt_int")
            &&& lines[24] == ins("cmp x9, #1")
            &&& lines[25] == ins("b.eq __rt_gdt_string")
            &&& lines[26] == ins("cmp x9, #2")
            &&& lines[27] == ins("b.eq __rt_gdt_float")
            &&& lines[28] == ins("cmp x9, #3")
            &&& lines[29] == ins("b.eq __rt_gdt_bool")
            &&& lines[30] == ins("cmp x9, #4")
            &&& lines[31] == ins("b.eq __rt_gdt_array")
            &&& lines[32] == ins("cmp x9, #5")
            &&& lines[33] == ins("b.eq __rt_gdt_array")
            &&& lines[34] == ins("cmp x9, #6")
            &&& lines[35] == ins("b.eq __rt_gdt_object_cell")
            &&& lines[36] == ins("cmp x9, #9")
            &&& lines[37] == ins("b.eq __rt_gdt_resource")
            &&& lines[38] == ins("b __rt_gdt_null")
            &&& lines[39] == label("__rt_gdt_object_cell")
            &&& lines[40] == ins("ldr x0, [x0, #8]")
            &&& lines[41] == ins("cbz x0, __rt_gdt_null")
            &&& lines[42] == label("__rt_gdt_object_from_x0")
            &&& lines[43] == ins("ldr x11, [x0]")
            &&& lines[44] == adrp_line(t.platform, "x9"@, "_classes_by_name_count"@)
            &&& lines[45] == add_lo12_line(t.platform, "x9"@, "x9"@, "_classes_by_name_count"@)
            &&& lines[46] == ins("ldr x9, [x9]")
            &&& lines[47] == adrp_line(t.platform, "x10"@, "_classes_by_name"@)
            &&& lines[48] == add_lo12_line(t.platform, "x10"@, "x10"@, "_classes_by_name"@)
            &&& lines[49] == ins("mov x12, #0")
            &&& lines[50] == label("__rt_gdt_class_loop")
            &&& lines[51] == ins("cmp x12, x9")
            &&& lines[52] == ins("b.ge __rt_gdt_object_fallback")
            &&& lines[53] == ins("ldr x13, [x10, #16]")
            &&& lines[54] == ins("cmp x13, x11")
            &&& lines[55] == ins("b.eq __rt_gdt_class_hit")
            &&& lines[56] == ins("add x10, x10, #48")
            &&& lines[57] == ins("add x12, x12, #1")
            &&& lines[58] == ins("b __rt_gdt_class_loop")
            &&& lines[59] == label("__rt_gdt_class_hit")
            &&& lines[60] == ins("ldr x1, [x10, #8]")
            &&& lines[61] == ins("ldr x0, [x10]")
            &&& lines[62] == ins("b __rt_gdt_ret")
            &&& lines[63] == label("__rt_gdt_object_fallback")
            &&& lines[64] == adrp_line(t.platform, "x0"@, "_gdt_object"@)
            &&& lines[65] == add_lo12_line(t.platform, "x0"@, "x0"@, "_gdt_object"@)
            &&& lines[66] == ins("mov x1, #6")
            &&& lines[67] == ins("b __rt_gdt_ret")
            &&& lines[68] == Line::Label("__rt_gdt_int"@)
            &&& lines[69] == adrp_line(t.platform, "x0"@, "_gdt_int"@)
            &&& lines[70] == add_lo12_line(t.platform, "x0"@, "x0"@, "_gdt_int"@)
            &&& lines[71] == ins_int("mov x1, #", 3, "")
            &&& lines[72] == ins("b __rt_gdt_ret")
            &&& lines[73] == Line::Label("__rt_gdt_string"@)
            &&& lines[74] == adrp_line(t.platform, "x0"@, "_gdt_string"@)
            &&& lines[75] == add_lo12_line(t.platform, "x0"@, "x0"@, "_gdt_string"@)
            &&& lines[76] == ins_int("mov x1, #", 6, "")
            &&& lines[77] == ins("b __rt_gdt_ret")
            &&& lines[78] == Line::Label("__rt_gdt_float"@)
            &&& lines[79] == adrp_line(t.platform, "x0"@, "_gdt_float"@)
            &&& lines[80] == add_lo12_line(t.platform, "x0"@, "x0"@, "_gdt_float"@)
            &&& lines[81] == ins_int("mov x1, #", 5, "")
            &&& lines[82] == ins("b __rt_gdt_ret")
            &&& lines[83] == Line::Label("__rt_gdt_bool"@)
            &&& lines[84] == adrp_line(t.platform, "x0"@, "_gdt_bool"@)
            &&& lines[85] == add_lo12_line(t.platform, "x0"@, "x0"@, "_gdt_bool"@)
            &&& lines[86] == ins_int("mov x1, #", 4, "")
            &&& lines[87] == ins("b __rt_gdt_ret")
            &&& lines[88] == Line::Label("__rt_gdt_array"@)
            &&& lines[89] == adrp_line(t.platform, "x0"@, "_gdt_array"@)
            &&& lines[90] == add_lo12_line(t.platform, "x0"@, "x0"@, "_gdt_array"@)
            &&& lines[91] == ins_int("mov x1, #", 5, "")
            &&& lines[92] == ins("b __rt_gdt_ret")
            &&& lines[93] == Line::Label("__rt_gdt_null"@)
            &&& lines[94] == adrp_line(t.platform, "x0"@, "_gdt_null"@)
            &&& lines[95] == add_lo12_line(t.platform, "x0"@, "x0"@, "_gdt_null"@)
            &&& lines[96] == ins_int("mov x1, #", 4, "")
            &&& lines[97] == ins("b __rt_gdt_ret")
            &&& lines[98] == Line::Label("__rt_gdt_resource"@)
            &&& lines[99] == adrp_line(t.platform, "x0"@, "_gdt_resource"@)
            &&& lines[100] == add_lo12_line(t.platform, "x0"@, "x0"@, "_gdt_resource"@)
            &&& lines[101] == ins_int("mov x1, #", 17, "")
            &&& lines[102] == ins("b __rt_gdt_ret")
            &&& lines[103] == label("__rt_gdt_ret")
            &&& lines[104] == ins("ldp x29, x30, [sp, #16]")
            &&& lines[105] == ins("add sp, sp, #32")
            &&& lines[106] == ins("ret")
        }),
{
    lemma_get_debug_type_length(t);
    lemma_get_debug_type_line_0(t);
    lemma_get_debug_type_line_1(t);
    lemma_get_debug_type_line_2(t);
    lemma_get_debug_type_line_3(t);
    lemma_get_debug_type_line_4(t);
    lemma_get_debug_type_line_5(t);
    lemma_get_debug_type_line_6(t);
    lemma_get_debug_type_line_7(t);
    lemma_get_debug_type_line_8(t);
    lemma_get_debug_type_line_9(t);
    lemma_get_debug_type_line_10(t);
    lemma_get_debug_type_line_11(t);
    lemma_get_debug_type_line_12(t);
    lemma_get_debug_type_line_13(t);
    lemma_get_debug_type_line_14(t);
    lemma_get_debug_type_line_15(t);
    lemma_get_debug_type_line_16(t);
    lemma_get_debug_type_line_17(t);
    lemma_get_debug_type_line_18(t);
    lemma_get_debug_type_line_19(t);
    lemma_get_debug_type_line_20(t);
    lemma_get_debug_type_line_21(t);
    lemma_get_debug_type_line_22(t);
    lemma_get_debug_type_line_23(t);
    lemma_get_debug_type_line_24(t);
    lemma_get_debug_type_line_25(t);
    lemma_get_debug_type_line_26(t);
    lemma_get_debug_type_line_27(t);
    lemma_get_debug_type_line_28(t);
    lemma_get_debug_type_line_29(t);
    lemma_get_debug_type_line_30(t);
    lemma_get_debug_type_line_31(t);
    lemma_get_debug_type_line_32(t);
    lemma_get_debug_type_line_33(t);
    lemma_get_debug_type_line_34(t);
    lemma_get_debug_type_line_35(t);
    lemma_get_debug_type_line_36(t);
    lemma_get_debug_type_line_37(t);
    lemma_get_debug_type_line_38(t);
    lemma_get_debug_type_line_39(t);
    lemma_get_debug_type_line_40(t);
    lemma_get_debug_type_line_41(t);
    lemma_get_debug_type_line_42(t);
    lemma_get_debug_type_line_43(t);
    lemma_get_debug_type_line_44(t);
    lemma_get_debug_type_line_45(t);
    lemma_get_debug_type_line_46(t);
    lemma_get_debug_type_line_47(t);
    lemma_get_debug_type_line_48(t);
    lemma_get_debug_type_line_49(t);
    lemma_get_debug_type_line_50(t);
    lemma_get_debug_type_line_51(t);
    lemma_get_debug_type_line_52(t);
    lemma_get_debug_type_line_53(t);
    lemma_get_debug_type_line_54(t);
    lemma_get_debug_type_line_55(t);
    lemma_get_debug_type_line_56(t);
    lemma_get_debug_type_line_57(t);
    lemma_get_debug_type_line_58(t);
    lemma_get_debug_type_line_59(t);
    lemma_get_debug_type_line_60(t);
    lemma_get_debug_type_line_61(t);
    lemma_get_debug_type_line_62(t);
    lemma_get_debug_type_line_63(t);
    lemma_get_debug_type_line_64(t);
    lemma_get_debug_type_line_65(t);
    lemma_get_debug_type_line_66(t);
    lemma_get_debug_type_line_67(t);
    lemma_get_debug_type_line_68(t);
    lemma_get_debug_type_line_69(t);
    lemma_get_debug_type_line_70(t);
    lemma_get_debug_type_line_71(t);
    lemma_get_debug_type_line_72(t);
    lemma_get_debug_type_line_73(t);
    lemma_get_debug_type_line_74(t);
    lemma_get_debug_type_line_75(t);
    lemma_get_debug_type_line_76(t);
    lemma_get_debug_type_line_77(t);
    lemma_get_debug_type_line_78(t);
    lemma_get_debug_type_line_79(t);
    lemma_get_debug_type_line_80(t);
    lemma_get_debug_type_line_81(t);
    lemma_get_debug_type_line_82(t);
    lemma_get_debug_type_line_83(t);
    lemma_get_debug_type_line_84(t);
    lemma_get_debug_type_line_85(t);
    lemma_get_debug_type_line_86(t);
    lemma_get_debug_type_line_87(t);
    lemma_get_debug_type_line_88(t);
    lemma_get_debug_type_line_89(t);
    lemma_get_debug_type_line_90(t);
    lemma_get_debug_type_line_91(t);
    lemma_get_debug_type_line_92(t);
    lemma_get_debug_type_line_93(t);
    lemma_get_debug_type_line_94(t);
    lemma_get_debug_type_line_95(t);
    lemma_get_debug_type_line_96(t);
    lemma_get_debug_type_line_97(t);
    lemma_get_debug_type_line_98(t);
    lemma_get_debug_type_line_99(t);
    lemma_get_debug_type_line_100(t);
    lemma_get_debug_type_line_101(t);
    lemma_get_debug_type_line_102(t);
    lemma_get_debug_type_line_103(t);
    lemma_get_debug_type_line_104(t);
    lemma_get_debug_type_line_105(t);
    lemma_get_debug_type_line_106(t);
}

/// Where the `get_debug_type` lines define `__rt_gdt_array`.
proof fn lemma_get_debug_type_finds_rt_gdt_array(lines: Seq<Line>, t: Target)
    requires
        lines.len() == 107,
        lines[0] == Line::Blank,
        lines[1] == comment("--- runtime: get_debug_type ---"),
        lines[2] == global("__rt_get_debug_type"),
        lines[3] == ins("sub sp, sp, #32"),
        lines[4] == ins("stp x29, x30, [sp, #16]"),
        lines[5] == ins("add x29, sp, #16"),
        lines[6] == label("__rt_gdt_dispatch"),
        lines[7] == ins("cbz x0, __rt_gdt_null"),
        lines[8] == ins("ldr x9, [x0, #-8]"),
        lines[9] == ins("and x9, x9, #0xff"),
        lines[10] == ins("cmp x9, #2"),
        lines[11] == ins("b.eq __rt_gdt_array"),
        lines[12] == ins("cmp x9, #3"),
        lines[13] == ins("b.eq __rt_gdt_array"),
        lines[14] == ins("cmp x9, #4"),
        lines[15] == ins("b.eq __rt_gdt_object_from_x0"),
        lines[16] == ins("ldr x9, [x0]"),
        lines[17] == ins("cmp x9, #7"),
        lines[18] == ins("b.ne __rt_gdt_tags"),
        lines[19] == ins("ldr x0, [x0, #8]"),
        lines[20] == ins("b __rt_gdt_dispatch"),
        lines[21] == label("__rt_gdt_tags"),
        lines[22] == ins("cmp x9, #0"),
        lines[23] == ins("b.eq __rt_gdt_int"),
        lines[24] == ins("cmp x9, #1"),
        lines[25] == ins("b.eq __rt_gdt_string"),
        lines[26] == ins("cmp x9, #2"),
        lines[27] == ins("b.eq __rt_gdt_float"),
        lines[28] == ins("cmp x9, #3"),
        lines[29] == ins("b.eq __rt_gdt_bool"),
        lines[30] == ins("cmp x9, #4"),
        lines[31] == ins("b.eq __rt_gdt_array"),
        lines[32] == ins("cmp x9, #5"),
        lines[33] == ins("b.eq __rt_gdt_array"),
        lines[34] == ins("cmp x9, #6"),
        lines[35] == ins("b.eq __rt_gdt_object_cell"),
        lines[36] == ins("cmp x9, #9"),
        lines[37] == ins("b.eq __rt_gdt_resource"),
        lines[38] == ins("b __rt_gdt_null"),
        lines[39] == label("__rt_gdt_object_cell"),
        lines[40] == ins("ldr x0, [x0, #8]"),
        lines[41] == ins("cbz x0, __rt_gdt_null"),
        lines[42] == label("__rt_gdt_object_from_x0"),
        lines[43] == ins("ldr x11, [x0]"),
        lines[44] == adrp_line(t.platform, "x9"@, "_classes_by_name_count"@),
        lines[45] == add_lo12_line(t.platform, "x9"@, "x9"@, "_classes_by_name_count"@),
        lines[46] == ins("ldr x9, [x9]"),
        lines[47] == adrp_line(t.platform, "x10"@, "_classes_by_name"@),
        lines[48] == add_lo12_line(t.platform, "x10"@, "x10"@, "_classes_by_name"@),
        lines[49] == ins("mov x12, #0"),
        lines[50] == label("__rt_gdt_class_loop"),
        lines[51] == ins("cmp x12, x9"),
        lines[52] == ins("b.ge __rt_gdt_object_fallback"),
        lines[53] == ins("ldr x13, [x10, #16]"),
        lines[54] == ins("cmp x13, x11"),
        lines[55] == ins("b.eq __rt_gdt_class_hit"),
        lines[56] == ins("add x10, x10, #48"),
        lines[57] == ins("add x12, x12, #1"),
        lines[58] == ins("b __rt_gdt_class_loop"),
        lines[59] == label("__rt_gdt_class_hit"),
        lines[60] == ins("ldr x1, [x10, #8]"),
        lines[61] == ins("ldr x0, [x10]"),
        lines[62] == ins("b __rt_gdt_ret"),
        lines[63] == label("__rt_gdt_object_fallback"),
        lines[64] == adrp_line(t.platform, "x0"@, "_gdt_object"@),
        lines[65] == add_lo12_line(t.platform, "x0"@, "x0"@, "_gdt_object"@),
        lines[66] == ins("mov x1, #6"),
        lines[67] == ins("b __rt_gdt_ret"),
        lines[68] == Line::Label("__rt_gdt_int"@),
        lines[69] == adrp_line(t.platform, "x0"@, "_gdt_int"@),
        lines[70] == add_lo12_line(t.platform, "x0"@, "x0"@, "_gdt_int"@),
        lines[71] == ins_int("mov x1, #", 3, ""),
        lines[72] == ins("b __rt_gdt_ret"),
        lines[73] == Line::Label("__rt_gdt_string"@),
        lines[74] == adrp_line(t.platform, "x0"@, "_gdt_string"@),
        lines[75] == add_lo12_line(t.platform, "x0"@, "x0"@, "_gdt_string"@),
        lines[76] == ins_int("mov x1, #", 6, ""),
        lines[77] == ins("b __rt_gdt_ret"),
        lines[78] == Line::Label("__rt_gdt_float"@),
        lines[79] == adrp_line(t.platform, "x0"@, "_gdt_float"@),
        lines[80] == add_lo12_line(t.platform, "x0"@, "x0"@, "_gdt_float"@),
        lines[81] == ins_int("mov x1, #", 5, ""),
        lines[82] == ins("b __rt_gdt_ret"),
        lines[83] == Line::Label("__rt_gdt_bool"@),
        lines[84] == adrp_line(t.platform, "x0"@, "_gdt_bool"@),
        lines[85] == add_lo12_line(t.platform, "x0"@, "x0"@, "_gdt_bool"@),
        lines[86] == ins_int("mov x1, #", 4, ""),
        lines[87] == ins("b __rt_gdt_ret"),
        lines[88] == Line::Label("__rt_gdt_array"@),
    ensures
        find_label(lines, "__rt_gdt_array"@, 0) == 88,
{
    reveal_strlit("__rt_gdt_array");
    reveal_strlit("__rt_gdt_bool");
    reveal_strlit("__rt_gdt_class_hit");
    reveal_strlit("__rt_gdt_class_loop");
    reveal_strlit("__rt_gdt_dispatch");
    reveal_strlit("__rt_gdt_float");
    reveal_strlit("__rt_gdt_int");
    reveal_strlit("__rt_gdt_object_cell");
    reveal_strlit("__rt_gdt_object_fallback");
    reveal_strlit("__rt_gdt_object_from_x0");
    reveal_strlit("__rt_gdt_string");
    reveal_strlit("__rt_gdt_tags");
    reveal_strlit("__rt_get_debug_type");
    assert(find_label(lines, "__rt_gdt_array"@, 88) == 88);
    assert(find_label(lines, "__rt_gdt_array"@, 87) == 88);
    assert(find_label(lines, "__rt_gdt_array"@, 86) == 88);
    assert(find_label(lines, "__rt_gdt_array"@, 85) == 88);
    assert(find_label(lines, "__rt_gdt_array"@, 84) == 88);
    assert("__rt_gdt_bool"@.len() != "__rt_gdt_array"@.len());
    assert(find_label(lines, "__rt_gdt_array"@, 83) == 88);
    assert(find_label(lines, "__rt_gdt_array"@, 82) == 88);
    assert(find_label(lines, "__rt_gdt_array"@, 81) == 88);
    assert(find_label(lines, "__rt_gdt_array"@, 80) == 88);
    assert(find_label(lines, "__rt_gdt_array"@, 79) == 88);
    assert("__rt_gdt_float"@[9] != "__rt_gdt_array"@[9]);
    assert(find_label(lines, "__rt_gdt_array"@, 78) == 88);
    assert(find_label(lines, "__rt_gdt_array"@, 77) == 88);
    assert(find_label(lines, "__rt_gdt_array"@, 76) == 88);
    assert(find_label(lines, "__rt_gdt_array"@, 75) == 88);
    assert(find_label(lines, "__rt_gdt_array"@, 74) == 88);
    assert("__rt_gdt_string"@.len() != "__rt_gdt_array"@.len());
    assert(find_label(lines, "__rt_gdt_array"@, 73) == 88);
    assert(find_label(lines, "__rt_gdt_array"@, 72) == 88);
    assert(find_label(lines, "__rt_gdt_array"@, 71) == 88);
    assert(find_label(lines, "__rt_gdt_array"@, 70) == 88);
    assert(find_label(lines, "__rt_gdt_array"@, 69) == 88);
    assert("__rt_gdt_int"@.len() != "__rt_gdt_array"@.len());
    assert(find_label(lines, "__rt_gdt_array"@, 68) == 88);
    assert(find_label(lines, "__rt_gdt_array"@, 67) == 88);
    assert(find_label(lines, "__rt_gdt_array"@, 66) == 88);
    assert(find_label(lines, "__rt_gdt_array"@, 65) == 88);
    assert(find_label(lines, "__rt_gdt_array"@, 64) == 88);
    assert("__rt_gdt_object_fallback"@.len() != "__rt_gdt_array"@.len());
    assert(find_label(lines, "__rt_gdt_array"@, 63) == 88);
    assert(find_label(lines, "__rt_gdt_array"@, 62) == 88);
    assert(find_label(lines, "__rt_gdt_array"@, 61) == 88);
    assert(find_label(lines, "__rt_gdt_array"@, 60) == 88);
    assert("__rt_gdt_class_hit"@.len() != "__rt_gdt_array"@.len());
    assert(find_label(lines, "__rt_gdt_array"@, 59) == 88);
    assert(find_label(lines, "__rt_gdt_array"@, 58) == 88);
    assert(find_label(lines, "__rt_gdt_array"@, 57) == 88);
    assert(find_label(lines, "__rt_gdt_array"@, 56) == 88);
    assert(find_label(lines, "__rt_gdt_array"@, 55) == 88);
    assert(find_label(lines, "__rt_gdt_array"@, 54) == 88);
    assert(find_label(lines, "__rt_gdt_array"@, 53) == 88);
    assert(find_label(lines, "__rt_gdt_array"@, 52) == 88);
    assert(find_label(lines, "__rt_gdt_array"@, 51) == 88);
    assert("__rt_gdt_class_loop"@.len() != "__rt_gdt_array"@.len());
    assert(find_label(lines, "__rt_gdt_array"@, 50) == 88);
    assert(find_label(lines, "__rt_gdt_array"@, 49) == 88);
    assert(find_label(lines, "__rt_gdt_array"@, 48) == 88);
    assert(find_label(lines, "__rt_gdt_array"@, 47) == 88);
    assert(find_label(lines, "__rt_gdt_array"@, 46) == 88);
    assert(find_label(lines, "__rt_gdt_array"@, 45) == 88);
    assert(find_label(lines, "__rt_gdt_array"@, 44) == 88);
    assert(find_label(lines, "__rt_gdt_array"@, 43) == 88);
    assert("__rt_gdt_object_from_x0"@.len() != "__rt_gdt_array"@.len());
    assert(find_label(lines, "__rt_gdt_array"@, 42) == 88);
    assert(find_label(lines, "__rt_gdt_array"@, 41) == 88);
    assert(find_label(lines, "__rt_gdt_array"@, 40) == 88);
    assert("__rt_gdt_object_cell"@.len() != "__rt_gdt_array"@.len());
    assert(find_label(lines, "__rt_gdt_array"@, 39) == 88);
    assert(find_label(lines, "__rt_gdt_array"@, 38) == 88);
    assert(find_label(lines, "__rt_gdt_array"@, 37) == 88);
    assert(find_label(lines, "__rt_gdt_array"@, 36) == 88);
    assert(find_label(lines, "__rt_gdt_array"@, 35) == 88);
    assert(find_label(lines, "__rt_gdt_array"@, 34) == 88);
    assert(find_label(lines, "__rt_gdt_array"@, 33) == 88);
    assert(find_label(lines, "__rt_gdt_array"@, 32) == 88);
    assert(find_label(lines, "__rt_gdt_array"@, 31) == 88);
    assert(find_label(lines, "__rt_gdt_array"@, 30) == 88);
    assert(find_label(lines, "__rt_gdt_array"@, 29) == 88);
    assert(find_label(lines, "__rt_gdt_array"@, 28) == 88);
    assert(find_label(lines, "__rt_gdt_array"@, 27) == 88);
    assert(find_label(lines, "__rt_gdt_array"@, 26) == 88);
    assert(find_label(lines, "__rt_gdt_array"@, 25) == 88);
    assert(find_label(lines, "__rt_gdt_array"@, 24) == 88);
    assert(find_label(lines, "__rt_gdt_array"@, 23) == 88);
    assert(find_label(lines, "__rt_gdt_array"@, 22) == 88);
    assert("__rt_gdt_tags"@.len() != "__rt_gdt_array"@.len());
    assert(find_label(lines, "__rt_gdt_array"@, 21) == 88);
    assert(find_label(lines, "__rt_gdt_array"@, 20) == 88);
    assert(find_label(lines, "__rt_gdt_array"@, 19) == 88);
    assert(find_label(lines, "__rt_gdt_array"@, 18) == 88);
    assert(find_label(lines, "__rt_gdt_array"@, 17) == 88);
    assert(find_label(lines, "__rt_gdt_array"@, 16) == 88);
    assert(find_label(lines, "__rt_gdt_array"@, 15) == 88);
    assert(find_label(lines, "__rt_gdt_array"@, 14) == 88);
    assert(find_label(lines, "__rt_gdt_array"@, 13) == 88);
    assert(find_label(lines, "__rt_gdt_array"@, 12) == 88);
    assert(find_label(lines, "__rt_gdt_array"@, 11) == 88);
    assert(find_label(lines, "__rt_gdt_array"@, 10) == 88);
    assert(find_label(lines, "__rt_gdt_array"@, 9) == 88);
    assert(find_label(lines, "__rt_gdt_array"@, 8) == 88);
    assert(find_label(lines, "__rt_gdt_array"@, 7) == 88);
    assert("__rt_gdt_dispatch"@.len() != "__rt_gdt_array"@.len());
    assert(find_label(lines, "__rt_gdt_array"@, 6) == 88);
    assert(find_label(lines, "__rt_gdt_array"@, 5) == 88);
    assert(find_label(lines, "__rt_gdt_array"@, 4) == 88);
    assert(find_label(lines, "__rt_gdt_array"@, 3) == 88);
    assert("__rt_get_debug_type"@.len() != "__rt_gdt_array"@.len());
    assert(find_label(lines, "__rt_gdt_array"@, 2) == 88);
    assert(find_label(lines, "__rt_gdt_array"@, 1) == 88);
    assert(find_label(lines, "__rt_gdt_array"@, 0) == 88);
}

/// Where the `get_debug_type` lines define `__rt_gdt_bool`.
proof fn lemma_get_debug_type_finds_rt_gdt_bool(lines: Seq<Line>, t: Target)
    requires
        lines.len() == 107,
        lines[0] == Line::Blank,
        lines[1] == comment("--- runtime: get_debug_type ---"),
        lines[2] == global("__rt_get_debug_type"),
        lines[3] == ins("sub sp, sp, #32"),
        lines[4] == ins("stp x29, x30, [sp, #16]"),
        lines[5] == ins("add x29, sp, #16"),
        lines[6] == label("__rt_gdt_dispatch"),
        lines[7] == ins("cbz x0, __rt_gdt_null"),
        lines[8] == ins("ldr x9, [x0, #-8]"),
        lines[9] == ins("and x9, x9, #0xff"),
        lines[10] == ins("cmp x9, #2"),
        lines[11] == ins("b.eq __rt_gdt_array"),
        lines[12] == ins("cmp x9, #3"),
        lines[13] == ins("b.eq __rt_gdt_array"),
        lines[14] == ins("cmp x9, #4"),
        lines[15] == ins("b.eq __rt_gdt_object_from_x0"),
        lines[16] == ins("ldr x9, [x0]"),
        lines[17] == ins("cmp x9, #7"),
        lines[18] == ins("b.ne __rt_gdt_tags"),
        lines[19] == ins("ldr x0, [x0, #8]"),
        lines[20] == ins("b __rt_gdt_dispatch"),
        lines[21] == label("__rt_gdt_tags"),
        lines[22] == ins("cmp x9, #0"),
        lines[23] == ins("b.eq __rt_gdt_int"),
        lines[24] == ins("cmp x9, #1"),
        lines[25] == ins("b.eq __rt_gdt_string"),
        lines[26] == ins("cmp x9, #2"),
        lines[27] == ins("b.eq __rt_gdt_float"),
        lines[28] == ins("cmp x9, #3"),
        lines[29] == ins("b.eq __rt_gdt_bool"),
        lines[30] == ins("cmp x9, #4"),
        lines[31] == ins("b.eq __rt_gdt_array"),
        lines[32] == ins("cmp x9, #5"),
        lines[33] == ins("b.eq __rt_gdt_array"),
        lines[34] == ins("cmp x9, #6"),
        lines[35] == ins("b.eq __rt_gdt_object_cell"),
        lines[36] == ins("cmp x9, #9"),
        lines[37] == ins("b.eq __rt_gdt_resource"),
        lines[38] == ins("b __rt_gdt_null"),
        lines[39] == label("__rt_gdt_object_cell"),
        lines[40] == ins("ldr x0, [x0, #8]"),
        lines[41] == ins("cbz x0, __rt_gdt_null"),
        lines[42] == label("__rt_gdt_object_from_x0"),
        lines[43] == ins("ldr x11, [x0]"),
        lines[44] == adrp_line(t.platform, "x9"@, "_classes_by_name_count"@),
        lines[45] == add_lo12_line(t.platform, "x9"@, "x9"@, "_classes_by_name_count"@),
        lines[46] == ins("ldr x9, [x9]"),
        lines[47] == adrp_line(t.platform, "x10"@, "_classes_by_name"@),
        lines[48] == add_lo12_line(t.platform, "x10"@, "x10"@, "_classes_by_name"@),
        lines[49] == ins("mov x12, #0"),
        lines[50] == label("__rt_gdt_class_loop"),
        lines[51] == ins("cmp x12, x9"),
        lines[52] == ins("b.ge __rt_gdt_object_fallback"),
        lines[53] == ins("ldr x13, [x10, #16]"),
        lines[54] == ins("cmp x13, x11"),
        lines[55] == ins("b.eq __rt_gdt_class_hit"),
        lines[56] == ins("add x10, x10, #48"),
        lines[57] == ins("add x12, x12, #1"),
        lines[58] == ins("b __rt_gdt_class_loop"),
        lines[59] == label("__rt_gdt_class_hit"),
        lines[60] == ins("ldr x1, [x10, #8]"),
        lines[61] == ins("ldr x0, [x10]"),
        lines[62] == ins("b __rt_gdt_ret"),
        lines[63] == label("__rt_gdt_object_fallback"),
        lines[64] == adrp_line(t.platform, "x0"@, "_gdt_object"@),
        lines[65] == add_lo12_line(t.platform, "x0"@, "x0"@, "_gdt_object"@),
        lines[66] == ins("mov x1, #6"),
        lines[67] == ins("b __rt_gdt_ret"),
        lines[68] == Line::Label("__rt_gdt_int"@),
        lines[69] == adrp_line(t.platform, "x0"@, "_gdt_int"@),
        lines[70] == add_lo12_line(t.platform, "x0"@, "x0"@, "_gdt_int"@),
        lines[71] == ins_int("mov x1, #", 3, ""),
        lines[72] == ins("b __rt_gdt_ret"),
        lines[73] == Line::Label("__rt_gdt_string"@),
        lines[74] == adrp_line(t.platform, "x0"@, "_gdt_string"@),
        lines[75] == add_lo12_line(t.platform, "x0"@, "x0"@, "_gdt_string"@),
        lines[76] == ins_int("mov x1, #", 6, ""),
        lines[77] == ins("b __rt_gdt_ret"),
        lines[78] == Line::Label("__rt_gdt_float"@),
        lines[79] == adrp_line(t.platform, "x0"@, "_gdt_float"@),
        lines[80] == add_lo12_line(t.platform, "x0"@, "x0"@, "_gdt_float"@),
        lines[81] == ins_int("mov x1, #", 5, ""),
        lines[82] == ins("b __rt_gdt_ret"),
        lines[83] == Line::Label("__rt_gdt_bool"@),
    ensures
        find_label(lines, "__rt_gdt_bool"@, 0) == 83,
{
    reveal_strlit("__rt_gdt_bool");
    reveal_strlit("__rt_gdt_class_hit");
    reveal_strlit("__rt_gdt_class_loop");
    reveal_strlit("__rt_gdt_dispatch");
    reveal_strlit("__rt_gdt_float");
    reveal_strlit("__rt_gdt_int");
    reveal_strlit("__rt_gdt_object_cell");
    reveal_strlit("__rt_gdt_object_fallback");
    reveal_strlit("__rt_gdt_object_from_x0");
    reveal_strlit("__rt_gdt_string");
    reveal_strlit("__rt_gdt_tags");
    reveal_strlit("__rt_get_debug_type");
    assert(find_label(lines, "__rt_gdt_bool"@, 83) == 83);
    assert(find_label(lines, "__rt_gdt_bool"@, 82) == 83);
    assert(find_label(lines, "__rt_gdt_bool"@, 81) == 83);
    assert(find_label(lines, "__rt_gdt_bool"@, 80) == 83);
    assert(find_label(lines, "__rt_gdt_bool"@, 79) == 83);
    assert("__rt_gdt_float"@.len() != "__rt_gdt_bool"@.len());
    assert(find_label(lines, "__rt_gdt_bool"@, 78) == 83);
    assert(find_label(lines, "__rt_gdt_bool"@, 77) == 83);
    assert(find_label(lines, "__rt_gdt_bool"@, 76) == 83);
    assert(find_label(lines, "__rt_gdt_bool"@, 75) == 83);
    assert(find_label(lines, "__rt_gdt_bool"@, 74) == 83);
    assert("__rt_gdt_string"@.len() != "__rt_gdt_bool"@.len());
    assert(find_label(lines, "__rt_gdt_bool"@, 73) == 83);
    assert(find_label(lines, "__rt_gdt_bool"@, 72) == 83);
    assert(find_label(lines, "__rt_gdt_bool"@, 71) == 83);
    assert(find_label(lines, "__rt_gdt_bool"@, 70) == 83);
    assert(find_label(lines, "__rt_gdt_bool"@, 69) == 83);
    assert("__rt_gdt_int"@.len() != "__rt_gdt_bool"@.len());
    assert(find_label(lines, "__rt_gdt_bool"@, 68) == 83);
    assert(find_label(lines, "__rt_gdt_bool"@, 67) == 83);
    assert(find_label(lines, "__rt_gdt_bool"@, 66) == 83);
    assert(find_label(lines, "__rt_gdt_bool"@, 65) == 83);
    assert(find_label(lines, "__rt_gdt_bool"@, 64) == 83);
    assert("__rt_gdt_object_fallback"@.len() != "__rt_gdt_bool"@.len());
    assert(find_label(lines, "__rt_gdt_bool"@, 63) == 83);
    assert(find_label(lines, "__rt_gdt_bool"@, 62) == 83);
    assert(find_label(lines, "__rt_gdt_bool"@, 61) == 83);
    assert(find_label(lines, "__rt_gdt_bool"@, 60) == 83);
    assert("__rt_gdt_class_hit"@.len() != "__rt_gdt_bool"@.len());
    assert(find_label(lines, "__rt_gdt_bool"@, 59) == 83);
    assert(find_label(lines, "__rt_gdt_bool"@, 58) == 83);
    assert(find_label(lines, "__rt_gdt_bool"@, 57) == 83);
    assert(find_label(lines, "__rt_gdt_bool"@, 56) == 83);
    assert(find_label(lines, "__rt_gdt_bool"@, 55) == 83);
    assert(find_label(lines, "__rt_gdt_bool"@, 54) == 83);
    assert(find_label(lines, "__rt_gdt_bool"@, 53) == 83);
    assert(find_label(lines, "__rt_gdt_bool"@, 52) == 83);
    assert(find_label(lines, "__rt_gdt_bool"@, 51) == 83);
    assert("__rt_gdt_class_loop"@.len() != "__rt_gdt_bool"@.len());
    assert(find_label(lines, "__rt_gdt_bool"@, 50) == 83);
    assert(find_label(lines, "__rt_gdt_bool"@, 49) == 83);
    assert(find_label(lines, "__rt_gdt_bool"@, 48) == 83);
    assert(find_label(lines, "__rt_gdt_bool"@, 47) == 83);
    assert(find_label(lines, "__rt_gdt_bool"@, 46) == 83);
    assert(find_label(lines, "__rt_gdt_bool"@, 45) == 83);
    assert(find_label(lines, "__rt_gdt_bool"@, 44) == 83);
    assert(find_label(lines, "__rt_gdt_bool"@, 43) == 83);
    assert("__rt_gdt_object_from_x0"@.len() != "__rt_gdt_bool"@.len());
    assert(find_label(lines, "__rt_gdt_bool"@, 42) == 83);
    assert(find_label(lines, "__rt_gdt_bool"@, 41) == 83);
    assert(find_label(lines, "__rt_gdt_bool"@, 40) == 83);
    assert("__rt_gdt_object_cell"@.len() != "__rt_gdt_bool"@.len());
    assert(find_label(lines, "__rt_gdt_bool"@, 39) == 83);
    assert(find_label(lines, "__rt_gdt_bool"@, 38) == 83);
    assert(find_label(lines, "__rt_gdt_bool"@, 37) == 83);
    assert(find_label(lines, "__rt_gdt_bool"@, 36) == 83);
    assert(find_label(lines, "__rt_gdt_bool"@, 35) == 83);
    assert(find_label(lines, "__rt_gdt_bool"@, 34) == 83);
    assert(find_label(lines, "__rt_gdt_bool"@, 33) == 83);
    assert(find_label(lines, "__rt_gdt_bool"@, 32) == 83);
    assert(find_label(lines, "__rt_gdt_bool"@, 31) == 83);
    assert(find_label(lines, "__rt_gdt_bool"@, 30) == 83);
    assert(find_label(lines, "__rt_gdt_bool"@, 29) == 83);
    assert(find_label(lines, "__rt_gdt_bool"@, 28) == 83);
    assert(find_label(lines, "__rt_gdt_bool"@, 27) == 83);
    assert(find_label(lines, "__rt_gdt_bool"@, 26) == 83);
    assert(find_label(lines, "__rt_gdt_bool"@, 25) == 83);
    assert(find_label(lines, "__rt_gdt_bool"@, 24) == 83);
    assert(find_label(lines, "__rt_gdt_bool"@, 23) == 83);
    assert(find_label(lines, "__rt_gdt_bool"@, 22) == 83);
    assert("__rt_gdt_tags"@[9] != "__rt_gdt_bool"@[9]);
    assert(find_label(lines, "__rt_gdt_bool"@, 21) == 83);
    assert(find_label(lines, "__rt_gdt_bool"@, 20) == 83);
    assert(find_label(lines, "__rt_gdt_bool"@, 19) == 83);
    assert(find_label(lines, "__rt_gdt_bool"@, 18) == 83);
    assert(find_label(lines, "__rt_gdt_bool"@, 17) == 83);
    assert(find_label(lines, "__rt_gdt_bool"@, 16) == 83);
    assert(find_label(lines, "__rt_gdt_bool"@, 15) == 83);
    assert(find_label(lines, "__rt_gdt_bool"@, 14) == 83);
    assert(find_label(lines, "__rt_gdt_bool"@, 13) == 83);
    assert(find_label(lines, "__rt_gdt_bool"@, 12) == 83);
    assert(find_label(lines, "__rt_gdt_bool"@, 11) == 83);
    assert(find_label(lines, "__rt_gdt_bool"@, 10) == 83);
    assert(find_label(lines, "__rt_gdt_bool"@, 9) == 83);
    assert(find_label(lines, "__rt_gdt_bool"@, 8) == 83);
    assert(find_label(lines, "__rt_gdt_bool"@, 7) == 83);
    assert("__rt_gdt_dispatch"@.len() != "__rt_gdt_bool"@.len());
    assert(find_label(lines, "__rt_gdt_bool"@, 6) == 83);
    assert(find_label(lines, "__rt_gdt_bool"@, 5) == 83);
    assert(find_label(lines, "__rt_gdt_bool"@, 4) == 83);
    assert(find_label(lines, "__rt_gdt_bool"@, 3) == 83);
    assert("__rt_get_debug_type"@.len() != "__rt_gdt_bool"@.len());
    assert(find_label(lines, "__rt_gdt_bool"@, 2) == 83);
    assert(find_label(lines, "__rt_gdt_bool"@, 1) == 83);
    assert(find_label(lines, "__rt_gdt_bool"@, 0) == 83);
}

/// Where the `get_debug_type` lines define `__rt_gdt_class_hit`.
proof fn lemma_get_debug_type_finds_rt_gdt_class_hit(lines: Seq<Line>, t: Target)
    requires
        lines.len() == 107,
        lines[0] == Line::Blank,
        lines[1] == comment("--- runtime: get_debug_type ---"),
        lines[2] == global("__rt_get_debug_type"),
        lines[3] == ins("sub sp, sp, #32"),
        lines[4] == ins("stp x29, x30, [sp, #16]"),
        lines[5] == ins("add x29, sp, #16"),
        lines[6] == label("__rt_gdt_dispatch"),
        lines[7] == ins("cbz x0, __rt_gdt_null"),
        lines[8] == ins("ldr x9, [x0, #-8]"),
        lines[9] == ins("and x9, x9, #0xff"),
        lines[10] == ins("cmp x9, #2"),
        lines[11] == ins("b.eq __rt_gdt_array"),
        lines[12] == ins("cmp x9, #3"),
        lines[13] == ins("b.eq __rt_gdt_array"),
        lines[14] == ins("cmp x9, #4"),
        lines[15] == ins("b.eq __rt_gdt_object_from_x0"),
        lines[16] == ins("ldr x9, [x0]"),
        lines[17] == ins("cmp x9, #7"),
        lines[18] == ins("b.ne __rt_gdt_tags"),
        lines[19] == ins("ldr x0, [x0, #8]"),
        lines[20] == ins("b __rt_gdt_dispatch"),
        lines[21] == label("__rt_gdt_tags"),
        lines[22] == ins("cmp x9, #0"),
        lines[23] == ins("b.eq __rt_gdt_int"),
        lines[24] == ins("cmp x9, #1"),
        lines[25] == ins("b.eq __rt_gdt_string"),
        lines[26] == ins("cmp x9, #2"),
        lines[27] == ins("b.eq __rt_gdt_float"),
        lines[28] == ins("cmp x9, #3"),
        lines[29] == ins("b.eq __rt_gdt_bool"),
        lines[30] == ins("cmp x9, #4"),
        lines[31] == ins("b.eq __rt_gdt_array"),
        lines[32] == ins("cmp x9, #5"),
        lines[33] == ins("b.eq __rt_gdt_array"),
        lines[34] == ins("cmp x9, #6"),
        lines[35] == ins("b.eq __rt_gdt_object_cell"),
        lines[36] == ins("cmp x9, #9"),
        lines[37] == ins("b.eq __rt_gdt_resource"),
        lines[38] == ins("b __rt_gdt_null"),
        lines[39] == label("__rt_gdt_object_cell"),
        lines[40] == ins("ldr x0, [x0, #8]"),
        lines[41] == ins("cbz x0, __rt_gdt_null"),
        lines[42] == label("__rt_gdt_object_from_x0"),
        lines[43] == ins("ldr x11, [x0]"),
        lines[44] == adrp_line(t.platform, "x9"@, "_classes_by_name_count"@),
        lines[45] == add_lo12_line(t.platform, "x9"@, "x9"@, "_classes_by_name_count"@),
        lines[46] == ins("ldr x9, [x9]"),
        lines[47] == adrp_line(t.platform, "x10"@, "_classes_by_name"@),
        lines[48] == add_lo12_line(t.platform, "x10"@, "x10"@, "_classes_by_name"@),
        lines[49] == ins("mov x12, #0"),
        lines[50] == label("__rt_gdt_class_loop"),
        lines[51] == ins("cmp x12, x9"),
        lines[52] == ins("b.ge __rt_gdt_object_fallback"),
        lines[53] == ins("ldr x13, [x10, #16]"),
        lines[54] == ins("cmp x13, x11"),
        lines[55] == ins("b.eq __rt_gdt_class_hit"),
        lines[56] == ins("add x10, x10, #48"),
        lines[57] == ins("add x12, x12, #1"),
        lines[58] == ins("b __rt_gdt_class_loop"),
        lines[59] == label("__rt_gdt_class_hit"),
    ensures
        find_label(lines, "__rt_gdt_class_hit"@, 0) == 59,
{
    reveal_strlit("__rt_gdt_class_hit");
    reveal_strlit("__rt_gdt_class_loop");
    reveal_strlit("__rt_gdt_dispatch");
    reveal_strlit("__rt_gdt_object_cell");
    reveal_strlit("__rt_gdt_object_from_x0");
    reveal_strlit("__rt_gdt_tags");
    reveal_strlit("__rt_get_debug_type");
    assert(find_label(lines, "__rt_gdt_class_hit"@, 59) == 59);
    assert(find_label(lines, "__rt_gdt_class_hit"@, 58) == 59);
    assert(find_label(lines, "__rt_gdt_class_hit"@, 57) == 59);
    assert(find_label(lines, "__rt_gdt_class_hit"@, 56) == 59);
    assert(find_label(lines, "__rt_gdt_class_hit"@, 55) == 59);
    assert(find_label(lines, "__rt_gdt_class_hit"@, 54) == 59);
    assert(find_label(lines, "__rt_gdt_class_hit"@, 53) == 59);
    assert(find_label(lines, "__rt_gdt_class_hit"@, 52) == 59);
    assert(find_label(lines, "__rt_gdt_class_hit"@, 51) == 59);
    assert("__rt_gdt_class_loop"@.len() != "__rt_gdt_class_hit"@.len());
    assert(find_label(lines, "__rt_gdt_class_hit"@, 50) == 59);
    assert(find_label(lines, "__rt_gdt_class_hit"@, 49) == 59);
    assert(find_label(lines, "__rt_gdt_class_hit"@, 48) == 59);
    assert(find_label(lines, "__rt_gdt_class_hit"@, 47) == 59);
    assert(find_label(lines, "__rt_gdt_class_hit"@, 46) == 59);
    assert(find_label(lines, "__rt_gdt_class_hit"@, 45) == 59);
    assert(find_label(lines, "__rt_gdt_class_hit"@, 44) == 59);
    assert(find_label(lines, "__rt_gdt_class_hit"@, 43) == 59);
    assert("__rt_gdt_object_from_x0"@.len() != "__rt_gdt_class_hit"@.len());
    assert(find_label(lines, "__rt_gdt_class_hit"@, 42) == 59);
    assert(find_label(lines, "__rt_gdt_class_hit"@, 41) == 59);
    assert(find_label(lines, "__rt_gdt_class_hit"@, 40) == 59);
    assert("__rt_gdt_object_cell"@.len() != "__rt_gdt_class_hit"@.len());
    assert(find_label(lines, "__rt_gdt_class_hit"@, 39) == 59);
    assert(find_label(lines, "__rt_gdt_class_hit"@, 38) == 59);
    assert(find_label(lines, "__rt_gdt_class_hit"@, 37) == 59);
    assert(find_label(lines, "__rt_gdt_class_hit"@, 36) == 59);
    assert(find_label(lines, "__rt_gdt_class_hit"@, 35) == 59);
    assert(find_label(lines, "__rt_gdt_class_hit"@, 34) == 59);
    assert(find_label(lines, "__rt_gdt_class_hit"@, 33) == 59);
    assert(find_label(lines, "__rt_gdt_class_hit"@, 32) == 59);
    assert(find_label(lines, "__rt_gdt_class_hit"@, 31) == 59);
    assert(find_label(lines, "__rt_gdt_class_hit"@, 30) == 59);
    assert(find_label(lines, "__rt_gdt_class_hit"@, 29) == 59);
    assert(find_label(lines, "__rt_gdt_class_hit"@, 28) == 59);
    assert(find_label(lines, "__rt_gdt_class_hit"@, 27) == 59);
    assert(find_label(lines, "__rt_gdt_class_hit"@, 26) == 59);
    assert(find_label(lines, "__rt_gdt_class_hit"@, 25) == 59);
    assert(find_label(lines, "__rt_gdt_class_hit"@, 24) == 59);
    assert(find_label(lines, "__rt_gdt_class_hit"@, 23) == 59);
    assert(find_label(lines, "__rt_gdt_class_hit"@, 22) == 59);
    assert("__rt_gdt_tags"@.len() != "__rt_gdt_class_hit"@.len());
    assert(find_label(lines, "__rt_gdt_class_hit"@, 21) == 59);
    assert(find_label(lines, "__rt_gdt_class_hit"@, 20) == 59);
    assert(find_label(lines, "__rt_gdt_class_hit"@, 19) == 59);
    assert(find_label(lines, "__rt_gdt_class_hit"@, 18) == 59);
    assert(find_label(lines, "__rt_gdt_class_hit"@, 17) == 59);
    assert(find_label(lines, "__rt_gdt_class_hit"@, 16) == 59);
    assert(find_label(lines, "__rt_gdt_class_hit"@, 15) == 59);
    assert(find_label(lines, "__rt_gdt_class_hit"@, 14) == 59);
    assert(find_label(lines, "__rt_gdt_class_hit"@, 13) == 59);
    assert(find_label(lines, "__rt_gdt_class_hit"@, 12) == 59);
    assert(find_label(lines, "__rt_gdt_class_hit"@, 11) == 59);
    assert(find_label(lines, "__rt_gdt_class_hit"@, 10) == 59);
    assert(find_label(lines, "__rt_gdt_class_hit"@, 9) == 59);
    assert(find_label(lines, "__rt_gdt_class_hit"@, 8) == 59);
    assert(find_label(lines, "__rt_gdt_class_hit"@, 7) == 59);
    assert("__rt_gdt_dispatch"@.len() != "__rt_gdt_class_hit"@.len());
    assert(find_label(lines, "__rt_gdt_class_hit"@, 6) == 59);
    assert(find_label(lines, "__rt_gdt_class_hit"@, 5) == 59);
    assert(find_label(lines, "__rt_gdt_class_hit"@, 4) == 59);
    assert(find_label(lines, "__rt_gdt_class_hit"@, 3) == 59);
    assert("__rt_get_debug_type"@.len() != "__rt_gdt_class_hit"@.len());
    assert(find_label(lines, "__rt_gdt_class_hit"@, 2) == 59);
    assert(find_label(lines, "__rt_gdt_class_hit"@, 1) == 59);
    assert(find_label(lines, "__rt_gdt_class_hit"@, 0) == 59);
}

/// Where the `get_debug_type` lines define `__rt_gdt_class_loop`.
proof fn lemma_get_debug_type_finds_rt_gdt_class_loop(lines: Seq<Line>, t: Target)
    requires
        lines.len() == 107,
        lines[0] == Line::Blank,
        lines[1] == comment("--- runtime: get_debug_type ---"),
        lines[2] == global("__rt_get_debug_type"),
        lines[3] == ins("sub sp, sp, #32"),
        lines[4] == ins("stp x29, x30, [sp, #16]"),
        lines[5] == ins("add x29, sp, #16"),
        lines[6] == label("__rt_gdt_dispatch"),
        lines[7] == ins("cbz x0, __rt_gdt_null"),
        lines[8] == ins("ldr x9, [x0, #-8]"),
        lines[9] == ins("and x9, x9, #0xff"),
        lines[10] == ins("cmp x9, #2"),
        lines[11] == ins("b.eq __rt_gdt_array"),
        lines[12] == ins("cmp x9, #3"),
        lines[13] == ins("b.eq __rt_gdt_array"),
        lines[14] == ins("cmp x9, #4"),
        lines[15] == ins("b.eq __rt_gdt_object_from_x0"),
        lines[16] == ins("ldr x9, [x0]"),
        lines[17] == ins("cmp x9, #7"),
        lines[18] == ins("b.ne __rt_gdt_tags"),
        lines[19] == ins("ldr x0, [x0, #8]"),
        lines[20] == ins("b __rt_gdt_dispatch"),
        lines[21] == label("__rt_gdt_tags"),
        lines[22] == ins("cmp x9, #0"),
        lines[23] == ins("b.eq __rt_gdt_int"),
        lines[24] == ins("cmp x9, #1"),
        lines[25] == ins("b.eq __rt_gdt_string"),
        lines[26] == ins("cmp x9, #2"),
        lines[27] == ins("b.eq __rt_gdt_float"),
        lines[28] == ins("cmp x9, #3"),
        lines[29] == ins("b.eq __rt_gdt_bool"),
        lines[30] == ins("cmp x9, #4"),
        lines[31] == ins("b.eq __rt_gdt_array"),
        lines[32] == ins("cmp x9, #5"),
        lines[33] == ins("b.eq __rt_gdt_array"),
        lines[34] == ins("cmp x9, #6"),
        lines[35] == ins("b.eq __rt_gdt_object_cell"),
        lines[36] == ins("cmp x9, #9"),
        lines[37] == ins("b.eq __rt_gdt_resource"),
        lines[38] == ins("b __rt_gdt_null"),
        lines[39] == label("__rt_gdt_object_cell"),
        lines[40] == ins("ldr x0, [x0, #8]"),
        lines[41] == ins("cbz x0, __rt_gdt_null"),
        lines[42] == label("__rt_gdt_object_from_x0"),
        lines[43] == ins("ldr x11, [x0]"),
        lines[44] == adrp_line(t.platform, "x9"@, "_classes_by_name_count"@),
        lines[45] == add_lo12_line(t.platform, "x9"@, "x9"@, "_classes_by_name_count"@),
        lines[46] == ins("ldr x9, [x9]"),
        lines[47] == adrp_line(t.platform, "x10"@, "_classes_by_name"@),
        lines[48] == add_lo12_line(t.platform, "x10"@, "x10"@, "_classes_by_name"@),
        lines[49] == ins("mov x12, #0"),
        lines[50] == label("__rt_gdt_class_loop"),
    ensures
        find_label(lines, "__rt_gdt_class_loop"@, 0) == 50,
{
    reveal_strlit("__rt_gdt_class_loop");
    reveal_strlit("__rt_gdt_dispatch");
    reveal_strlit("__rt_gdt_object_cell");
    reveal_strlit("__rt_gdt_object_from_x0");
    reveal_strlit("__rt_gdt_tags");
    reveal_strlit("__rt_get_debug_type");
    assert(find_label(lines, "__rt_gdt_class_loop"@, 50) == 50);
    assert(find_label(lines, "__rt_gdt_class_loop"@, 49) == 50);
    assert(find_label(lines, "__rt_gdt_class_loop"@, 48) == 50);
    assert(find_label(lines, "__rt_gdt_class_loop"@, 47) == 50);
    assert(find_label(lines, "__rt_gdt_class_loop"@, 46) == 50);
    assert(find_label(lines, "__rt_gdt_class_loop"@, 45) == 50);
    assert(find_label(lines, "__rt_gdt_class_loop"@, 44) == 50);
    assert(find_label(lines, "__rt_gdt_class_loop"@, 43) == 50);
    assert("__rt_gdt_object_from_x0"@.len() != "__rt_gdt_class_loop"@.len());
    assert(find_label(lines, "__rt_gdt_class_loop"@, 42) == 50);
    assert(find_label(lines, "__rt_gdt_class_loop"@, 41) == 50);
    assert(find_label(lines, "__rt_gdt_class_loop"@, 40) == 50);
    assert("__rt_gdt_object_cell"@.len() != "__rt_gdt_class_loop"@.len());
    assert(find_label(lines, "__rt_gdt_class_loop"@, 39) == 50);
    assert(find_label(lines, "__rt_gdt_class_loop"@, 38) == 50);
    assert(find_label(lines, "__rt_gdt_class_loop"@, 37) == 50);
    assert(find_label(lines, "__rt_gdt_class_loop"@, 36) == 50);
    assert(find_label(lines, "__rt_gdt_class_loop"@, 35) == 50);
    assert(find_label(lines, "__rt_gdt_class_loop"@, 34) == 50);
    assert(find_label(lines, "__rt_gdt_class_loop"@, 33) == 50);
    assert(find_label(lines, "__rt_gdt_class_loop"@, 32) == 50);
    assert(find_label(lines, "__rt_gdt_class_loop"@, 31) == 50);
    assert(find_label(lines, "__rt_gdt_class_loop"@, 30) == 50);
    assert(find_label(lines, "__rt_gdt_class_loop"@, 29) == 50);
    assert(find_label(lines, "__rt_gdt_class_loop"@, 28) == 50);
    assert(find_label(lines, "__rt_gdt_class_loop"@, 27) == 50);
    assert(find_label(lines, "__rt_gdt_class_loop"@, 26) == 50);
    assert(find_label(lines, "__rt_gdt_class_loop"@, 25) == 50);
    assert(find_label(lines, "__rt_gdt_class_loop"@, 24) == 50);
    assert(find_label(lines, "__rt_gdt_class_loop"@, 23) == 50);
    assert(find_label(lines, "__rt_gdt_class_loop"@, 22) == 50);
    assert("__rt_gdt_tags"@.len() != "__rt_gdt_class_loop"@.len());
    assert(find_label(lines, "__rt_gdt_class_loop"@, 21) == 50);
    assert(find_label(lines, "__rt_gdt_class_loop"@, 20) == 50);
    assert(find_label(lines, "__rt_gdt_class_loop"@, 19) == 50);
    assert(find_label(lines, "__rt_gdt_class_loop"@, 18) == 50);
    assert(find_label(lines, "__rt_gdt_class_loop"@, 17) == 50);
    assert(find_label(lines, "__rt_gdt_class_loop"@, 16) == 50);
    assert(find_label(lines, "__rt_gdt_class_loop"@, 15) == 50);
    assert(find_label(lines, "__rt_gdt_class_loop"@, 14) == 50);
    assert(find_label(lines, "__rt_gdt_class_loop"@, 13) == 50);
    assert(find_label(lines, "__rt_gdt_class_loop"@, 12) == 50);
    assert(find_label(lines, "__rt_gdt_class_loop"@, 11) == 50);
    assert(find_label(lines, "__rt_gdt_class_loop"@, 10) == 50);
    assert(find_label(lines, "__rt_gdt_class_loop"@, 9) == 50);
    assert(find_label(lines, "__rt_gdt_class_loop"@, 8) == 50);
    assert(find_label(lines, "__rt_gdt_class_loop"@, 7) == 50);
    assert("__rt_gdt_dispatch"@.len() != "__rt_gdt_class_loop"@.len());
    assert(find_label(lines, "__rt_gdt_class_loop"@, 6) == 50);
    assert(find_label(lines, "__rt_gdt_class_loop"@, 5) == 50);
    assert(find_label(lines, "__rt_gdt_class_loop"@, 4) == 50);
    assert(find_label(lines, "__rt_gdt_class_loop"@, 3) == 50);
    assert("__rt_get_debug_type"@[6] != "__rt_gdt_class_loop"@[6]);
    assert(find_label(lines, "__rt_gdt_class_loop"@, 2) == 50);
    assert(find_label(lines, "__rt_gdt_class_loop"@, 1) == 50);
    assert(find_label(lines, "__rt_gdt_class_loop"@, 0) == 50);
}

/// Where the `get_debug_type` lines define `__rt_gdt_dispatch`.
proof fn lemma_get_debug_type_finds_rt_gdt_dispatch(lines: Seq<Line>, t: Target)
    requires
        lines.len() == 107,
        lines[0] == Line::Blank,
        lines[1] == comment("--- runtime: get_debug_type ---"),
        lines[2] == global("__rt_get_debug_type"),
        lines[3] == ins("sub sp, sp, #32"),
        lines[4] == ins("stp x29, x30, [sp, #16]"),
        lines[5] == ins("add x29, sp, #16"),
        lines[6] == label("__rt_gdt_dispatch"),
    ensures
        find_label(lines, "__rt_gdt_dispatch"@, 0) == 6,
{
    reveal_strlit("__rt_gdt_dispatch");
    reveal_strlit("__rt_get_debug_type");
    assert(find_label(lines, "__rt_gdt_dispatch"@, 6) == 6);
    assert(find_label(lines, "__rt_gdt_dispatch"@, 5) == 6);
    assert(find_label(lines, "__rt_gdt_dispatch"@, 4) == 6);
    assert(find_label(lines, "__rt_gdt_dispatch"@, 3) == 6);
    assert("__rt_get_debug_type"@.len() != "__rt_gdt_dispatch"@.len());
    assert(find_label(lines, "__rt_gdt_dispatch"@, 2) == 6);
    assert(find_label(lines, "__rt_gdt_dispatch"@, 1) == 6);
    assert(find_label(lines, "__rt_gdt_dispatch"@, 0) == 6);
}

/// Where the `get_debug_type` lines define `__rt_gdt_float`.
proof fn lemma_get_debug_type_finds_rt_gdt_float(lines: Seq<Line>, t: Target)
    requires
        lines.len() == 107,
        lines[0] == Line::Blank,
        lines[1] == comment("--- runtime: get_debug_type ---"),
        lines[2] == global("__rt_get_debug_type"),
        lines[3] == ins("sub sp, sp, #32"),
        lines[4] == ins("stp x29, x30, [sp, #16]"),
        lines[5] == ins("add x29, sp, #16"),
        lines[6] == label("__rt_gdt_dispatch"),
        lines[7] == ins("cbz x0, __rt_gdt_null"),
        lines[8] == ins("ldr x9, [x0, #-8]"),
        lines[9] == ins("and x9, x9, #0xff"),
        lines[10] == ins("cmp x9, #2"),
        lines[11] == ins("b.eq __rt_gdt_array"),
        lines[12] == ins("cmp x9, #3"),
        lines[13] == ins("b.eq __rt_gdt_array"),
        lines[14] == ins("cmp x9, #4"),
        lines[15] == ins("b.eq __rt_gdt_object_from_x0"),
        lines[16] == ins("ldr x9, [x0]"),
        lines[17] == ins("cmp x9, #7"),
        lines[18] == ins("b.ne __rt_gdt_tags"),
        lines[19] == ins("ldr x0, [x0, #8]"),
        lines[20] == ins("b __rt_gdt_dispatch"),
        lines[21] == label("__rt_gdt_tags"),
        lines[22] == ins("cmp x9, #0"),
        lines[23] == ins("b.eq __rt_gdt_int"),
        lines[24] == ins("cmp x9, #1"),
        lines[25] == ins("b.eq __rt_gdt_string"),
        lines[26] == ins("cmp x9, #2"),
        lines[27] == ins("b.eq __rt_gdt_float"),
        lines[28] == ins("cmp x9, #3"),
        lines[29] == ins("b.eq __rt_gdt_bool"),
        lines[30] == ins("cmp x9, #4"),
        lines[31] == ins("b.eq __rt_gdt_array"),
        lines[32] == ins("cmp x9, #5"),
        lines[33] == ins("b.eq __rt_gdt_array"),
        lines[34] == ins("cmp x9, #6"),
        lines[35] == ins("b.eq __rt_gdt_object_cell"),
        lines[36] == ins("cmp x9, #9"),
        lines[37] == ins("b.eq __rt_gdt_resource"),
        lines[38] == ins("b __rt_gdt_null"),
        lines[39] == label("__rt_gdt_object_cell"),
        lines[40] == ins("ldr x0, [x0, #8]"),
        lines[41] == ins("cbz x0, __rt_gdt_null"),
        lines[42] == label("__rt_gdt_object_from_x0"),
        lines[43] == ins("ldr x11, [x0]"),
        lines[44] == adrp_line(t.platform, "x9"@, "_classes_by_name_count"@),
        lines[45] == add_lo12_line(t.platform, "x9"@, "x9"@, "_classes_by_name_count"@),
        lines[46] == ins("ldr x9, [x9]"),
        lines[47] == adrp_line(t.platform, "x10"@, "_classes_by_name"@),
        lines[48] == add_lo12_line(t.platform, "x10"@, "x10"@, "_classes_by_name"@),
        lines[49] == ins("mov x12, #0"),
        lines[50] == label("__rt_gdt_class_loop"),
        lines[51] == ins("cmp x12, x9"),
        lines[52] == ins("b.ge __rt_gdt_object_fallback"),
        lines[53] == ins("ldr x13, [x10, #16]"),
        lines[54] == ins("cmp x13, x11"),
        lines[55] == ins("b.eq __rt_gdt_class_hit"),
        lines[56] == ins("add x10, x10, #48"),
        lines[57] == ins("add x12, x12, #1"),
        lines[58] == ins("b __rt_gdt_class_loop"),
        lines[59] == label("__rt_gdt_class_hit"),
        lines[60] == ins("ldr x1, [x10, #8]"),
        lines[61] == ins("ldr x0, [x10]"),
        lines[62] == ins("b __rt_gdt_ret"),
        lines[63] == label("__rt_gdt_object_fallback"),
        lines[64] == adrp_line(t.platform, "x0"@, "_gdt_object"@),
        lines[65] == add_lo12_line(t.platform, "x0"@, "x0"@, "_gdt_object"@),
        lines[66] == ins("mov x1, #6"),
        lines[67] == ins("b __rt_gdt_ret"),
        lines[68] == Line::Label("__rt_gdt_int"@),
        lines[69] == adrp_line(t.platform, "x0"@, "_gdt_int"@),
        lines[70] == add_lo12_line(t.platform, "x0"@, "x0"@, "_gdt_int"@),
        lines[71] == ins_int("mov x1, #", 3, ""),
        lines[72] == ins("b __rt_gdt_ret"),
        lines[73] == Line::Label("__rt_gdt_string"@),
        lines[74] == adrp_line(t.platform, "x0"@, "_gdt_string"@),
        lines[75] == add_lo12_line(t.platform, "x0"@, "x0"@, "_gdt_string"@),
        lines[76] == ins_int("mov x1, #", 6, ""),
        lines[77] == ins("b __rt_gdt_ret"),
        lines[78] == Line::Label("__rt_gdt_float"@),
    ensures
        find_label(lines, "__rt_gdt_float"@, 0) == 78,
{
    reveal_strlit("__rt_gdt_class_hit");
    reveal_strlit("__rt_gdt_class_loop");
    reveal_strlit("__rt_gdt_dispatch");
    reveal_strlit("__rt_gdt_float");
    reveal_strlit("__rt_gdt_int");
    reveal_strlit("__rt_gdt_object_cell");
    reveal_strlit("__rt_gdt_object_fallback");
    reveal_strlit("__rt_gdt_object_from_x0");
    reveal_strlit("__rt_gdt_string");
    reveal_strlit("__rt_gdt_tags");
    reveal_strlit("__rt_get_debug_type");
    assert(find_label(lines, "__rt_gdt_float"@, 78) == 78);
    assert(find_label(lines, "__rt_gdt_float"@, 77) == 78);
    assert(find_label(lines, "__rt_gdt_float"@, 76) == 78);
    assert(find_label(lines, "__rt_gdt_float"@, 75) == 78);
    assert(find_label(lines, "__rt_gdt_float"@, 74) == 78);
    assert("__rt_gdt_string"@.len() != "__rt_gdt_float"@.len());
    assert(find_label(lines, "__rt_gdt_float"@, 73) == 78);
    assert(find_label(lines, "__rt_gdt_float"@, 72) == 78);
    assert(find_label(lines, "__rt_gdt_float"@, 71) == 78);
    assert(find_label(lines, "__rt_gdt_float"@, 70) == 78);
    assert(find_label(lines, "__rt_gdt_float"@, 69) == 78);
    assert("__rt_gdt_int"@.len() != "__rt_gdt_float"@.len());
    assert(find_label(lines, "__rt_gdt_float"@, 68) == 78);
    assert(find_label(lines, "__rt_gdt_float"@, 67) == 78);
    assert(find_label(lines, "__rt_gdt_float"@, 66) == 78);
    assert(find_label(lines, "__rt_gdt_float"@, 65) == 78);
    assert(find_label(lines, "__rt_gdt_float"@, 64) == 78);
    assert("__rt_gdt_object_fallback"@.len() != "__rt_gdt_float"@.len());
    assert(find_label(lines, "__rt_gdt_float"@, 63) == 78);
    assert(find_label(lines, "__rt_gdt_float"@, 62) == 78);
    assert(find_label(lines, "__rt_gdt_float"@, 61) == 78);
    assert(find_label(lines, "__rt_gdt_float"@, 60) == 78);
    assert("__rt_gdt_class_hit"@.len() != "__rt_gdt_float"@.len());
    assert(find_label(lines, "__rt_gdt_float"@, 59) == 78);
    assert(find_label(lines, "__rt_gdt_float"@, 58) == 78);
    assert(find_label(lines, "__rt_gdt_float"@, 57) == 78);
    assert(find_label(lines, "__rt_gdt_float"@, 56) == 78);
    assert(find_label(lines, "__rt_gdt_float"@, 55) == 78);
    assert(find_label(lines, "__rt_gdt_float"@, 54) == 78);
    assert(find_label(lines, "__rt_gdt_float"@, 53) == 78);
    assert(find_label(lines, "__rt_gdt_float"@, 52) == 78);
    assert(find_label(lines, "__rt_gdt_float"@, 51) == 78);
    assert("__rt_gdt_class_loop"@.len() != "__rt_gdt_float"@.len());
    assert(find_label(lines, "__rt_gdt_float"@, 50) == 78);
    assert(find_label(lines, "__rt_gdt_float"@, 49) == 78);
    assert(find_label(lines, "__rt_gdt_float"@, 48) == 78);
    assert(find_label(lines, "__rt_gdt_float"@, 47) == 78);
    assert(find_label(lines, "__rt_gdt_float"@, 46) == 78);
    assert(find_label(lines, "__rt_gdt_float"@, 45) == 78);
    assert(find_label(lines, "__rt_gdt_float"@, 44) == 78);
    assert(find_label(lines, "__rt_gdt_float"@, 43) == 78);
    assert("__rt_gdt_object_from_x0"@.len() != "__rt_gdt_float"@.len());
    assert(find_label(lines, "__rt_gdt_float"@, 42) == 78);
    assert(find_label(lines, "__rt_gdt_float"@, 41) == 78);
    assert(find_label(lines, "__rt_gdt_float"@, 40) == 78);
    assert("__rt_gdt_object_cell"@.len() != "__rt_gdt_float"@.len());
    assert(find_label(lines, "__rt_gdt_float"@, 39) == 78);
    assert(find_label(lines, "__rt_gdt_float"@, 38) == 78);
    assert(find_label(lines, "__rt_gdt_float"@, 37) == 78);
    assert(find_label(lines, "__rt_gdt_float"@, 36) == 78);
    assert(find_label(lines, "__rt_gdt_float"@, 35) == 78);
    assert(find_label(lines, "__rt_gdt_float"@, 34) == 78);
    assert(find_label(lines, "__rt_gdt_float"@, 33) == 78);
    assert(find_label(lines, "__rt_gdt_float"@, 32) == 78);
    assert(find_label(lines, "__rt_gdt_float"@, 31) == 78);
    assert(find_label(lines, "__rt_gdt_float"@, 30) == 78);
    assert(find_label(lines, "__rt_gdt_float"@, 29) == 78);
    assert(find_label(lines, "__rt_gdt_float"@, 28) == 78);
    assert(find_label(lines, "__rt_gdt_float"@, 27) == 78);
    assert(find_label(lines, "__rt_gdt_float"@, 26) == 78);
    assert(find_label(lines, "__rt_gdt_float"@, 25) == 78);
    assert(find_label(lines, "__rt_gdt_float"@, 24) == 78);
    assert(find_label(lines, "__rt_gdt_float"@, 23) == 78);
    assert(find_label(lines, "__rt_gdt_float"@, 22) == 78);
    assert("__rt_gdt_tags"@.len() != "__rt_gdt_float"@.len());
    assert(find_label(lines, "__rt_gdt_float"@, 21) == 78);
    assert(find_label(lines, "__rt_gdt_float"@, 20) == 78);
    assert(find_label(lines, "__rt_gdt_float"@, 19) == 78);
    assert(find_label(lines, "__rt_gdt_float"@, 18) == 78);
    assert(find_label(lines, "__rt_gdt_float"@, 17) == 78);
    assert(find_label(lines, "__rt_gdt_float"@, 16) == 78);
    assert(find_label(lines, "__rt_gdt_float"@, 15) == 78);
    assert(find_label(lines, "__rt_gdt_float"@, 14) == 78);
    assert(find_label(lines, "__rt_gdt_float"@, 13) == 78);
    assert(find_label(lines, "__rt_gdt_float"@, 12) == 78);
    assert(find_label(lines, "__rt_gdt_float"@, 11) == 78);
    assert(find_label(lines, "__rt_gdt_float"@, 10) == 78);
    assert(find_label(lines, "__rt_gdt_float"@, 9) == 78);
    assert(find_label(lines, "__rt_gdt_float"@, 8) == 78);
    assert(find_label(lines, "__rt_gdt_float"@, 7) == 78);
    assert("__rt_gdt_dispatch"@.len() != "__rt_gdt_float"@.len());
    assert(find_label(lines, "__rt_gdt_float"@, 6) == 78);
    assert(find_label(lines, "__rt_gdt_float"@, 5) == 78);
    assert(find_label(lines, "__rt_gdt_float"@, 4) == 78);
    assert(find_label(lines, "__rt_gdt_float"@, 3) == 78);
    assert("__rt_get_debug_type"@.len() != "__rt_gdt_float"@.len());
    assert(find_label(lines, "__rt_gdt_float"@, 2) == 78);
    assert(find_label(lines, "__rt_gdt_float"@, 1) == 78);
    assert(find_label(lines, "__rt_gdt_float"@, 0) == 78);
}

/// Where the `get_debug_type` lines define `__rt_gdt_int`.
proof fn lemma_get_debug_type_finds_rt_gdt_int(lines: Seq<Line>, t: Target)
    requires
        lines.len() == 107,
        lines[0] == Line::Blank,
        lines[1] == comment("--- runtime: get_debug_type ---"),
        lines[2] == global("__rt_get_debug_type"),
        lines[3] == ins("sub sp, sp, #32"),
        lines[4] == ins("stp x29, x30, [sp, #16]"),
        lines[5] == ins("add x29, sp, #16"),
        lines[6] == label("__rt_gdt_dispatch"),
        lines[7] == ins("cbz x0, __rt_gdt_null"),
        lines[8] == ins("ldr x9, [x0, #-8]"),
        lines[9] == ins("and x9, x9, #0xff"),
        lines[10] == ins("cmp x9, #2"),
        lines[11] == ins("b.eq __rt_gdt_array"),
        lines[12] == ins("cmp x9, #3"),
        lines[13] == ins("b.eq __rt_gdt_array"),
        lines[14] == ins("cmp x9, #4"),
        lines[15] == ins("b.eq __rt_gdt_object_from_x0"),
        lines[16] == ins("ldr x9, [x0]"),
        lines[17] == ins("cmp x9, #7"),
        lines[18] == ins("b.ne __rt_gdt_tags"),
        lines[19] == ins("ldr x0, [x0, #8]"),
        lines[20] == ins("b __rt_gdt_dispatch"),
        lines[21] == label("__rt_gdt_tags"),
        lines[22] == ins("cmp x9, #0"),
        lines[23] == ins("b.eq __rt_gdt_int"),
        lines[24] == ins("cmp x9, #1"),
        lines[25] == ins("b.eq __rt_gdt_string"),
        lines[26] == ins("cmp x9, #2"),
        lines[27] == ins("b.eq __rt_gdt_float"),
        lines[28] == ins("cmp x9, #3"),
        lines[29] == ins("b.eq __rt_gdt_bool"),
        lines[30] == ins("cmp x9, #4"),
        lines[31] == ins("b.eq __rt_gdt_array"),
        lines[32] == ins("cmp x9, #5"),
        lines[33] == ins("b.eq __rt_gdt_array"),
        lines[34] == ins("cmp x9, #6"),
        lines[35] == ins("b.eq __rt_gdt_object_cell"),
        lines[36] == ins("cmp x9, #9"),
        lines[37] == ins("b.eq __rt_gdt_resource"),
        lines[38] == ins("b __rt_gdt_null"),
        lines[39] == label("__rt_gdt_object_cell"),
        lines[40] == ins("ldr x0, [x0, #8]"),
        lines[41] == ins("cbz x0, __rt_gdt_null"),
        lines[42] == label("__rt_gdt_object_from_x0"),
        lines[43] == ins("ldr x11, [x0]"),
        lines[44] == adrp_line(t.platform, "x9"@, "_classes_by_name_count"@),
        lines[45] == add_lo12_line(t.platform, "x9"@, "x9"@, "_classes_by_name_count"@),
        lines[46] == ins("ldr x9, [x9]"),
        lines[47] == adrp_line(t.platform, "x10"@, "_classes_by_name"@),
        lines[48] == add_lo12_line(t.platform, "x10"@, "x10"@, "_classes_by_name"@),
        lines[49] == ins("mov x12, #0"),
        lines[50] == label("__rt_gdt_class_loop"),
        lines[51] == ins("cmp x12, x9"),
        lines[52] == ins("b.ge __rt_gdt_object_fallback"),
        lines[53] == ins("ldr x13, [x10, #16]"),
        lines[54] == ins("cmp x13, x11"),
        lines[55] == ins("b.eq __rt_gdt_class_hit"),
        lines[56] == ins("add x10, x10, #48"),
        lines[57] == ins("add x12, x12, #1"),
        lines[58] == ins("b __rt_gdt_class_loop"),
        lines[59] == label("__rt_gdt_class_hit"),
        lines[60] == ins("ldr x1, [x10, #8]"),
        lines[61] == ins("ldr x0, [x10]"),
        lines[62] == ins("b __rt_gdt_ret"),
        lines[63] == label("__rt_gdt_object_fallback"),
        lines[64] == adrp_line(t.platform, "x0"@, "_gdt_object"@),
        lines[65] == add_lo12_line(t.platform, "x0"@, "x0"@, "_gdt_object"@),
        lines[66] == ins("mov x1, #6"),
        lines[67] == ins("b __rt_gdt_ret"),
        lines[68] == Line::Label("__rt_gdt_int"@),
    ensures
        find_label(lines, "__rt_gdt_int"@, 0) == 68,
{
    reveal_strlit("__rt_gdt_class_hit");
    reveal_strlit("__rt_gdt_class_loop");
    reveal_strlit("__rt_gdt_dispatch");
    reveal_strlit("__rt_gdt_int");
    reveal_strlit("__rt_gdt_object_cell");
    reveal_strlit("__rt_gdt_object_fallback");
    reveal_strlit("__rt_gdt_object_from_x0");
    reveal_strlit("__rt_gdt_tags");
    reveal_strlit("__rt_get_debug_type");
    assert(find_label(lines, "__rt_gdt_int"@, 68) == 68);
    assert(find_label(lines, "__rt_gdt_int"@, 67) == 68);
    assert(find_label(lines, "__rt_gdt_int"@, 66) == 68);
    assert(find_label(lines, "__rt_gdt_int"@, 65) == 68);
    assert(find_label(lines, "__rt_gdt_int"@, 64) == 68);
    assert("__rt_gdt_object_fallback"@.len() != "__rt_gdt_int"@.len());
    assert(find_label(lines, "__rt_gdt_int"@, 63) == 68);
    assert(find_label(lines, "__rt_gdt_int"@, 62) == 68);
    assert(find_label(lines, "__rt_gdt_int"@, 61) == 68);
    assert(find_label(lines, "__rt_gdt_int"@, 60) == 68);
    assert("__rt_gdt_class_hit"@.len() != "__rt_gdt_int"@.len());
    assert(find_label(lines, "__rt_gdt_int"@, 59) == 68);
    assert(find_label(lines, "__rt_gdt_int"@, 58) == 68);
    assert(find_label(lines, "__rt_gdt_int"@, 57) == 68);
    assert(find_label(lines, "__rt_gdt_int"@, 56) == 68);
    assert(find_label(lines, "__rt_gdt_int"@, 55) == 68);
    assert(find_label(lines, "__rt_gdt_int"@, 54) == 68);
    assert(find_label(lines, "__rt_gdt_int"@, 53) == 68);
    assert(find_label(lines, "__rt_gdt_int"@, 52) == 68);
    assert(find_label(lines, "__rt_gdt_int"@, 51) == 68);
    assert("__rt_gdt_class_loop"@.len() != "__rt_gdt_int"@.len());
    assert(find_label(lines, "__rt_gdt_int"@, 50) == 68);
    assert(find_label(lines, "__rt_gdt_int"@, 49) == 68);
    assert(find_label(lines, "__rt_gdt_int"@, 48) == 68);
    assert(find_label(lines, "__rt_gdt_int"@, 47) == 68);
    assert(find_label(lines, "__rt_gdt_int"@, 46) == 68);
    assert(find_label(lines, "__rt_gdt_int"@, 45) == 68);
    assert(find_label(lines, "__rt_gdt_int"@, 44) == 68);
    assert(find_label(lines, "__rt_gdt_int"@, 43) == 68);
    assert("__rt_gdt_object_from_x0"@.len() != "__rt_gdt_int"@.len());
    assert(find_label(lines, "__rt_gdt_int"@, 42) == 68);
    assert(find_label(lines, "__rt_gdt_int"@, 41) == 68);
    assert(find_label(lines, "__rt_gdt_int"@, 40) == 68);
    assert("__rt_gdt_object_cell"@.len() != "__rt_gdt_int"@.len());
    assert(find_label(lines, "__rt_gdt_int"@, 39) == 68);
    assert(find_label(lines, "__rt_gdt_int"@, 38) == 68);
    assert(find_label(lines, "__rt_gdt_int"@, 37) == 68);
    assert(find_label(lines, "__rt_gdt_int"@, 36) == 68);
    assert(find_label(lines, "__rt_gdt_int"@, 35) == 68);
    assert(find_label(lines, "__rt_gdt_int"@, 34) == 68);
    assert(find_label(lines, "__rt_gdt_int"@, 33) == 68);
    assert(find_label(lines, "__rt_gdt_int"@, 32) == 68);
    assert(find_label(lines, "__rt_gdt_int"@, 31) == 68);
    assert(find_label(lines, "__rt_gdt_int"@, 30) == 68);
    assert(find_label(lines, "__rt_gdt_int"@, 29) == 68);
    assert(find_label(lines, "__rt_gdt_int"@, 28) == 68);
    assert(find_label(lines, "__rt_gdt_int"@, 27) == 68);
    assert(find_label(lines, "__rt_gdt_int"@, 26) == 68);
    assert(find_label(lines, "__rt_gdt_int"@, 25) == 68);
    assert(find_label(lines, "__rt_gdt_int"@, 24) == 68);
    assert(find_label(lines, "__rt_gdt_int"@, 23) == 68);
    assert(find_label(lines, "__rt_gdt_int"@, 22) == 68);
    assert("__rt_gdt_tags"@.len() != "__rt_gdt_int"@.len());
    assert(find_label(lines, "__rt_gdt_int"@, 21) == 68);
    assert(find_label(lines, "__rt_gdt_int"@, 20) == 68);
    assert(find_label(lines, "__rt_gdt_int"@, 19) == 68);
    assert(find_label(lines, "__rt_gdt_int"@, 18) == 68);
    assert(find_label(lines, "__rt_gdt_int"@, 17) == 68);
    assert(find_label(lines, "__rt_gdt_int"@, 16) == 68);
    assert(find_label(lines, "__rt_gdt_int"@, 15) == 68);
    assert(find_label(lines, "__rt_gdt_int"@, 14) == 68);
    assert(find_label(lines, "__rt_gdt_int"@, 13) == 68);
    assert(find_label(lines, "__rt_gdt_int"@, 12) == 68);
    assert(find_label(lines, "__rt_gdt_int"@, 11) == 68);
    assert(find_label(lines, "__rt_gdt_int"@, 10) == 68);
    assert(find_label(lines, "__rt_gdt_int"@, 9) == 68);
    assert(find_label(lines, "__rt_gdt_int"@, 8) == 68);
    assert(find_label(lines, "__rt_gdt_int"@, 7) == 68);
    assert("__rt_gdt_dispatch"@.len() != "__rt_gdt_int"@.len());
    assert(find_label(lines, "__rt_gdt_int"@, 6) == 68);
    assert(find_label(lines, "__rt_gdt_int"@, 5) == 68);
    assert(find_label(lines, "__rt_gdt_int"@, 4) == 68);
    assert(find_label(lines, "__rt_gdt_int"@, 3) == 68);
    assert("__rt_get_debug_type"@.len() != "__rt_gdt_int"@.len());
    assert(find_label(lines, "__rt_gdt_int"@, 2) == 68);
    assert(find_label(lines, "__rt_gdt_int"@, 1) == 68);
    assert(find_label(lines, "__rt_gdt_int"@, 0) == 68);
}

/// Where the `get_debug_type` lines define `__rt_gdt_null`.
proof fn lemma_get_debug_type_finds_rt_gdt_null(lines: Seq<Line>, t: Target)
    requires
        lines.len() == 107,
        lines[0] == Line::Blank,
        lines[1] == comment("--- runtime: get_debug_type ---"),
        lines[2] == global("__rt_get_debug_type"),
        lines[3] == ins("sub sp, sp, #32"),
        lines[4] == ins("stp x29, x30, [sp, #16]"),
        lines[5] == ins("add x29, sp, #16"),
        lines[6] == label("__rt_gdt_dispatch"),
        lines[7] == ins("cbz x0, __rt_gdt_null"),
        lines[8] == ins("ldr x9, [x0, #-8]"),
        lines[9] == ins("and x9, x9, #0xff"),
        lines[10] == ins("cmp x9, #2"),
        lines[11] == ins("b.eq __rt_gdt_array"),
        lines[12] == ins("cmp x9, #3"),
        lines[13] == ins("b.eq __rt_gdt_array"),
        lines[14] == ins("cmp x9, #4"),
        lines[15] == ins("b.eq __rt_gdt_object_from_x0"),
        lines[16] == ins("ldr x9, [x0]"),
        lines[17] == ins("cmp x9, #7"),
        lines[18] == ins("b.ne __rt_gdt_tags"),
        lines[19] == ins("ldr x0, [x0, #8]"),
        lines[20] == ins("b __rt_gdt_dispatch"),
        lines[21] == label("__rt_gdt_tags"),
        lines[22] == ins("cmp x9, #0"),
        lines[23] == ins("b.eq __rt_gdt_int"),
        lines[24] == ins("cmp x9, #1"),
        lines[25] == ins("b.eq __rt_gdt_string"),
        lines[26] == ins("cmp x9, #2"),
        lines[27] == ins("b.eq __rt_gdt_float"),
        lines[28] == ins("cmp x9, #3"),
        lines[29] == ins("b.eq __rt_gdt_bool"),
        lines[30] == ins("cmp x9, #4"),
        lines[31] == ins("b.eq __rt_gdt_array"),
        lines[32] == ins("cmp x9, #5"),
        lines[33] == ins("b.eq __rt_gdt_array"),
        lines[34] == ins("cmp x9, #6"),
        lines[35] == ins("b.eq __rt_gdt_object_cell"),
        lines[36] == ins("cmp x9, #9"),
        lines[37] == ins("b.eq __rt_gdt_resource"),
        lines[38] == ins("b __rt_gdt_null"),
        lines[39] == label("__rt_gdt_object_cell"),
        lines[40] == ins("ldr x0, [x0, #8]"),
        lines[41] == ins("cbz x0, __rt_gdt_null"),
        lines[42] == label("__rt_gdt_object_from_x0"),
        lines[43] == ins("ldr x11, [x0]"),
        lines[44] == adrp_line(t.platform, "x9"@, "_classes_by_name_count"@),
        lines[45] == add_lo12_line(t.platform, "x9"@, "x9"@, "_classes_by_name_count"@),
        lines[46] == ins("ldr x9, [x9]"),
        lines[47] == adrp_line(t.platform, "x10"@, "_classes_by_name"@),
        lines[48] == add_lo12_line(t.platform, "x10"@, "x10"@, "_classes_by_name"@),
        lines[49] == ins("mov x12, #0"),
        lines[50] == label("__rt_gdt_class_loop"),
        lines[51] == ins("cmp x12, x9"),
        lines[52] == ins("b.ge __rt_gdt_object_fallback"),
        lines[53] == ins("ldr x13, [x10, #16]"),
        lines[54] == ins("cmp x13, x11"),
        lines[55] == ins("b.eq __rt_gdt_class_hit"),
        lines[56] == ins("add x10, x10, #48"),
        lines[57] == ins("add x12, x12, #1"),
        lines[58] == ins("b __rt_gdt_class_loop"),
        lines[59] == label("__rt_gdt_class_hit"),
        lines[60] == ins("ldr x1, [x10, #8]"),
        lines[61] == ins("ldr x0, [x10]"),
        lines[62] == ins("b __rt_gdt_ret"),
        lines[63] == label("__rt_gdt_object_fallback"),
        lines[64] == adrp_line(t.platform, "x0"@, "_gdt_object"@),
        lines[65] == add_lo12_line(t.platform, "x0"@, "x0"@, "_gdt_object"@),
        lines[66] == ins("mov x1, #6"),
        lines[67] == ins("b __rt_gdt_ret"),
        lines[68] == Line::Label("__rt_gdt_int"@),
        lines[69] == adrp_line(t.platform, "x0"@, "_gdt_int"@),
        lines[70] == add_lo12_line(t.platform, "x0"@, "x0"@, "_gdt_int"@),
        lines[71] == ins_int("mov x1, #", 3, ""),
        lines[72] == ins("b __rt_gdt_ret"),
        lines[73] == Line::Label("__rt_gdt_string"@),
        lines[74] == adrp_line(t.platform, "x0"@, "_gdt_string"@),
        lines[75] == add_lo12_line(t.platform, "x0"@, "x0"@, "_gdt_string"@),
        lines[76] == ins_int("mov x1, #", 6, ""),
        lines[77] == ins("b __rt_gdt_ret"),
        lines[78] == Line::Label("__rt_gdt_float"@),
        lines[79] == adrp_line(t.platform, "x0"@, "_gdt_float"@),
        lines[80] == add_lo12_line(t.platform, "x0"@, "x0"@, "_gdt_float"@),
        lines[81] == ins_int("mov x1, #", 5, ""),
        lines[82] == ins("b __rt_gdt_ret"),
        lines[83] == Line::Label("__rt_gdt_bool"@),
        lines[84] == adrp_line(t.platform, "x0"@, "_gdt_bool"@),
        lines[85] == add_lo12_line(t.platform, "x0"@, "x0"@, "_gdt_bool"@),
        lines[86] == ins_int("mov x1, #", 4, ""),
        lines[87] == ins("b __rt_gdt_ret"),
        lines[88] == Line::Label("__rt_gdt_array"@),
        lines[89] == adrp_line(t.platform, "x0"@, "_gdt_array"@),
        lines[90] == add_lo12_line(t.platform, "x0"@, "x0"@, "_gdt_array"@),
        lines[91] == ins_int("mov x1, #", 5, ""),
        lines[92] == ins("b __rt_gdt_ret"),
        lines[93] == Line::Label("__rt_gdt_null"@),
    ensures
        find_label(lines, "__rt_gdt_null"@, 0) == 93,
{
    reveal_strlit("__rt_gdt_array");
    reveal_strlit("__rt_gdt_bool");
    reveal_strlit("__rt_gdt_class_hit");
    reveal_strlit("__rt_gdt_class_loop");
    reveal_strlit("__rt_gdt_dispatch");
    reveal_strlit("__rt_gdt_float");
    reveal_strlit("__rt_gdt_int");
    reveal_strlit("__rt_gdt_null");
    reveal_strlit("__rt_gdt_object_cell");
    reveal_strlit("__rt_gdt_object_fallback");
    reveal_strlit("__rt_gdt_object_from_x0");
    reveal_strlit("__rt_gdt_string");
    reveal_strlit("__rt_gdt_tags");
    reveal_strlit("__rt_get_debug_type");
    assert(find_label(lines, "__rt_gdt_null"@, 93) == 93);
    assert(find_label(lines, "__rt_gdt_null"@, 92) == 93);
    assert(find_label(lines, "__rt_gdt_null"@, 91) == 93);
    assert(find_label(lines, "__rt_gdt_null"@, 90) == 93);
    assert(find_label(lines, "__rt_gdt_null"@, 89) == 93);
    assert("__rt_gdt_array"@.len() != "__rt_gdt_null"@.len());
    assert(find_label(lines, "__rt_gdt_null"@, 88) == 93);
    assert(find_label(lines, "__rt_gdt_null"@, 87) == 93);
    assert(find_label(lines, "__rt_gdt_null"@, 86) == 93);
    assert(find_label(lines, "__rt_gdt_null"@, 85) == 93);
    assert(find_label(lines, "__rt_gdt_null"@, 84) == 93);
    assert("__rt_gdt_bool"@[9] != "__rt_gdt_null"@[9]);
    assert(find_label(lines, "__rt_gdt_null"@, 83) == 93);
    assert(find_label(lines, "__rt_gdt_null"@, 82) == 93);
    assert(find_label(lines, "__rt_gdt_null"@, 81) == 93);
    assert(find_label(lines, "__rt_gdt_null"@, 80) == 93);
    assert(find_label(lines, "__rt_gdt_null"@, 79) == 93);
    assert("__rt_gdt_float"@.len() != "__rt_gdt_null"@.len());
    assert(find_label(lines, "__rt_gdt_null"@, 78) == 93);
    assert(find_label(lines, "__rt_gdt_null"@, 77) == 93);
    assert(find_label(lines, "__rt_gdt_null"@, 76) == 93);
    assert(find_label(lines, "__rt_gdt_null"@, 75) == 93);
    assert(find_label(lines, "__rt_gdt_null"@, 74) == 93);
    assert("__rt_gdt_string"@.len() != "__rt_gdt_null"@.len());
    assert(find_label(lines, "__rt_gdt_null"@, 73) == 93);
    assert(find_label(lines, "__rt_gdt_null"@, 72) == 93);
    assert(find_label(lines, "__rt_gdt_null"@, 71) == 93);
    assert(find_label(lines, "__rt_gdt_null"@, 70) == 93);
    assert(find_label(lines, "__rt_gdt_null"@, 69) == 93);
    assert("__rt_gdt_int"@.len() != "__rt_gdt_null"@.len());
    assert(find_label(lines, "__rt_gdt_null"@, 68) == 93);
    assert(find_label(lines, "__rt_gdt_null"@, 67) == 93);
    assert(find_label(lines, "__rt_gdt_null"@, 66) == 93);
    assert(find_label(lines, "__rt_gdt_null"@, 65) == 93);
    assert(find_label(lines, "__rt_gdt_null"@, 64) == 93);
    assert("__rt_gdt_object_fallback"@.len() != "__rt_gdt_null"@.len());
    assert(find_label(lines, "__rt_gdt_null"@, 63) == 93);
    assert(find_label(lines, "__rt_gdt_null"@, 62) == 93);
    assert(find_label(lines, "__rt_gdt_null"@, 61) == 93);
    assert(find_label(lines, "__rt_gdt_null"@, 60) == 93);
    assert("__rt_gdt_class_hit"@.len() != "__rt_gdt_null"@.len());
    assert(find_label(lines, "__rt_gdt_null"@, 59) == 93);
    assert(find_label(lines, "__rt_gdt_null"@, 58) == 93);
    assert(find_label(lines, "__rt_gdt_null"@, 57) == 93);
    assert(find_label(lines, "__rt_gdt_null"@, 56) == 93);
    assert(find_label(lines, "__rt_gdt_null"@, 55) == 93);
    assert(find_label(lines, "__rt_gdt_null"@, 54) == 93);
    assert(find_label(lines, "__rt_gdt_null"@, 53) == 93);
    assert(find_label(lines, "__rt_gdt_null"@, 52) == 93);
    assert(find_label(lines, "__rt_gdt_null"@, 51) == 93);
    assert("__rt_gdt_class_loop"@.len() != "__rt_gdt_null"@.len());
    assert(find_label(lines, "__rt_gdt_null"@, 50) == 93);
    assert(find_label(lines, "__rt_gdt_null"@, 49) == 93);
    assert(find_label(lines, "__rt_gdt_null"@, 48) == 93);
    assert(find_label(lines, "__rt_gdt_null"@, 47) == 93);
    assert(find_label(lines, "__rt_gdt_null"@, 46) == 93);
    assert(find_label(lines, "__rt_gdt_null"@, 45) == 93);
    assert(find_label(lines, "__rt_gdt_null"@, 44) == 93);
    assert(find_label(lines, "__rt_gdt_null"@, 43) == 93);
    assert("__rt_gdt_object_from_x0"@.len() != "__rt_gdt_null"@.len());
    assert(find_label(lines, "__rt_gdt_null"@, 42) == 93);
    assert(find_label(lines, "__rt_gdt_null"@, 41) == 93);
    assert(find_label(lines, "__rt_gdt_null"@, 40) == 93);
    assert("__rt_gdt_object_cell"@.len() != "__rt_gdt_null"@.len());
    assert(find_label(lines, "__rt_gdt_null"@, 39) == 93);
    assert(find_label(lines, "__rt_gdt_null"@, 38) == 93);
    assert(find_label(lines, "__rt_gdt_null"@, 37) == 93);
    assert(find_label(lines, "__rt_gdt_null"@, 36) == 93);
    assert(find_label(lines, "__rt_gdt_null"@, 35) == 93);
    assert(find_label(lines, "__rt_gdt_null"@, 34) == 93);
    assert(find_label(lines, "__rt_gdt_null"@, 33) == 93);
    assert(find_label(lines, "__rt_gdt_null"@, 32) == 93);
    assert(find_label(lines, "__rt_gdt_null"@, 31) == 93);
    assert(find_label(lines, "__rt_gdt_null"@, 30) == 93);
    assert(find_label(lines, "__rt_gdt_null"@, 29) == 93);
    assert(find_label(lines, "__rt_gdt_null"@, 28) == 93);
    assert(find_label(lines, "__rt_gdt_null"@, 27) == 93);
    assert(find_label(lines, "__rt_gdt_null"@, 26) == 93);
    assert(find_label(lines, "__rt_gdt_null"@, 25) == 93);
    assert(find_label(lines, "__rt_gdt_null"@, 24) == 93);
    assert(find_label(lines, "__rt_gdt_null"@, 23) == 93);
    assert(find_label(lines, "__rt_gdt_null"@, 22) == 93);
    assert("__rt_gdt_tags"@[9] != "__rt_gdt_null"@[9]);
    assert(find_label(lines, "__rt_gdt_null"@, 21) == 93);
    assert(find_label(lines, "__rt_gdt_null"@, 20) == 93);
    assert(find_label(lines, "__rt_gdt_null"@, 19) == 93);
    assert(find_label(lines, "__rt_gdt_null"@, 18) == 93);
    assert(find_label(lines, "__rt_gdt_null"@, 17) == 93);
    assert(find_label(lines, "__rt_gdt_null"@, 16) == 93);
    assert(find_label(lines, "__rt_gdt_null"@, 15) == 93);
    assert(find_label(lines, "__rt_gdt_null"@, 14) == 93);
    assert(find_label(lines, "__rt_gdt_null"@, 13) == 93);
    assert(find_label(lines, "__rt_gdt_null"@, 12) == 93);
    assert(find_label(lines, "__rt_gdt_null"@, 11) == 93);
    assert(find_label(lines, "__rt_gdt_null"@, 10) == 93);
    assert(find_label(lines, "__rt_gdt_null"@, 9) == 93);
    assert(find_label(lines, "__rt_gdt_null"@, 8) == 93);
    assert(find_label(lines, "__rt_gdt_null"@, 7) == 93);
    assert("__rt_gdt_dispatch"@.len() != "__rt_gdt_null"@.len());
    assert(find_label(lines, "__rt_gdt_null"@, 6) == 93);
    assert(find_label(lines, "__rt_gdt_null"@, 5) == 93);
    assert(find_label(lines, "__rt_gdt_null"@, 4) == 93);
    assert(find_label(lines, "__rt_gdt_null"@, 3) == 93);
    assert("__rt_get_debug_type"@.len() != "__rt_gdt_null"@.len());
    assert(find_label(lines, "__rt_gdt_null"@, 2) == 93);
    assert(find_label(lines, "__rt_gdt_null"@, 1) == 93);
    assert(find_label(lines, "__rt_gdt_null"@, 0) == 93);
}

/// Where the `get_debug_type` lines define `__rt_gdt_object_cell`.
proof fn lemma_get_debug_type_finds_rt_gdt_object_cell(lines: Seq<Line>, t: Target)
    requires
        lines.len() == 107,
        lines[0] == Line::Blank,
        lines[1] == comment("--- runtime: get_debug_type ---"),
        lines[2] == global("__rt_get_debug_type"),
        lines[3] == ins("sub sp, sp, #32"),
        lines[4] == ins("stp x29, x30, [sp, #16]"),
        lines[5] == ins("add x29, sp, #16"),
        lines[6] == label("__rt_gdt_dispatch"),
        lines[7] == ins("cbz x0, __rt_gdt_null"),
        lines[8] == ins("ldr x9, [x0, #-8]"),
        lines[9] == ins("and x9, x9, #0xff"),
        lines[10] == ins("cmp x9, #2"),
        lines[11] == ins("b.eq __rt_gdt_array"),
        lines[12] == ins("cmp x9, #3"),
        lines[13] == ins("b.eq __rt_gdt_array"),
        lines[14] == ins("cmp x9, #4"),
        lines[15] == ins("b.eq __rt_gdt_object_from_x0"),
        lines[16] == ins("ldr x9, [x0]"),
        lines[17] == ins("cmp x9, #7"),
        lines[18] == ins("b.ne __rt_gdt_tags"),
        lines[19] == ins("ldr x0, [x0, #8]"),
        lines[20] == ins("b __rt_gdt_dispatch"),
        lines[21] == label("__rt_gdt_tags"),
        lines[22] == ins("cmp x9, #0"),
        lines[23] == ins("b.eq __rt_gdt_int"),
        lines[24] == ins("cmp x9, #1"),
        lines[25] == ins("b.eq __rt_gdt_string"),
        lines[26] == ins("cmp x9, #2"),
        lines[27] == ins("b.eq __rt_gdt_float"),
        lines[28] == ins("cmp x9, #3"),
        lines[29] == ins("b.eq __rt_gdt_bool"),
        lines[30] == ins("cmp x9, #4"),
        lines[31] == ins("b.eq __rt_gdt_array"),
        lines[32] == ins("cmp x9, #5"),
        lines[33] == ins("b.eq __rt_gdt_array"),
        lines[34] == ins("cmp x9, #6"),
        lines[35] == ins("b.eq __rt_gdt_object_cell"),
        lines[36] == ins("cmp x9, #9"),
        lines[37] == ins("b.eq __rt_gdt_resource"),
        lines[38] == ins("b __rt_gdt_null"),
        lines[39] == label("__rt_gdt_object_cell"),
    ensures
        find_label(lines, "__rt_gdt_object_cell"@, 0) == 39,
{
    reveal_strlit("__rt_gdt_dispatch");
    reveal_strlit("__rt_gdt_object_cell");
    reveal_strlit("__rt_gdt_tags");
    reveal_strlit("__rt_get_debug_type");
    assert(find_label(lines, "__rt_gdt_object_cell"@, 39) == 39);
    assert(find_label(lines, "__rt_gdt_object_cell"@, 38) == 39);
    assert(find_label(lines, "__rt_gdt_object_cell"@, 37) == 39);
    assert(find_label(lines, "__rt_gdt_object_cell"@, 36) == 39);
    assert(find_label(lines, "__rt_gdt_object_cell"@, 35) == 39);
    assert(find_label(lines, "__rt_gdt_object_cell"@, 34) == 39);
    assert(find_label(lines, "__rt_gdt_object_cell"@, 33) == 39);
    assert(find_label(lines, "__rt_gdt_object_cell"@, 32) == 39);
    assert(find_label(lines, "__rt_gdt_object_cell"@, 31) == 39);
    assert(find_label(lines, "__rt_gdt_object_cell"@, 30) == 39);
    assert(find_label(lines, "__rt_gdt_object_cell"@, 29) == 39);
    assert(find_label(lines, "__rt_gdt_object_cell"@, 28) == 39);
    assert(find_label(lines, "__rt_gdt_object_cell"@, 27) == 39);
    assert(find_label(lines, "__rt_gdt_object_cell"@, 26) == 39);
    assert(find_label(lines, "__rt_gdt_object_cell"@, 25) == 39);
    assert(find_label(lines, "__rt_gdt_object_cell"@, 24) == 39);
    assert(find_label(lines, "__rt_gdt_object_cell"@, 23) == 39);
    assert(find_label(lines, "__rt_gdt_object_cell"@, 22) == 39);
    assert("__rt_gdt_tags"@.len() != "__rt_gdt_object_cell"@.len());
    assert(find_label(lines, "__rt_gdt_object_cell"@, 21) == 39);
    assert(find_label(lines, "__rt_gdt_object_cell"@, 20) == 39);
    assert(find_label(lines, "__rt_gdt_object_cell"@, 19) == 39);
    assert(find_label(lines, "__rt_gdt_object_cell"@, 18) == 39);
    assert(find_label(lines, "__rt_gdt_object_cell"@, 17) == 39);
    assert(find_label(lines, "__rt_gdt_object_cell"@, 16) == 39);
    assert(find_label(lines, "__rt_gdt_object_cell"@, 15) == 39);
    assert(find_label(lines, "__rt_gdt_object_cell"@, 14) == 39);
    assert(find_label(lines, "__rt_gdt_object_cell"@, 13) == 39);
    assert(find_label(lines, "__rt_gdt_object_cell"@, 12) == 39);
    assert(find_label(lines, "__rt_gdt_object_cell"@, 11) == 39);
    assert(find_label(lines, "__rt_gdt_object_cell"@, 10) == 39);
    assert(find_label(lines, "__rt_gdt_object_cell"@, 9) == 39);
    assert(find_label(lines, "__rt_gdt_object_cell"@, 8) == 39);
    assert(find_label(lines, "__rt_gdt_object_cell"@, 7) == 39);
    assert("__rt_gdt_dispatch"@.len() != "__rt_gdt_object_cell"@.len());
    assert(find_label(lines, "__rt_gdt_object_cell"@, 6) == 39);
    assert(find_label(lines, "__rt_gdt_object_cell"@, 5) == 39);
    assert(find_label(lines, "__rt_gdt_object_cell"@, 4) == 39);
    assert(find_label(lines, "__rt_gdt_object_cell"@, 3) == 39);
    assert("__rt_get_debug_type"@.len() != "__rt_gdt_object_cell"@.len());
    assert(find_label(lines, "__rt_gdt_object_cell"@, 2) == 39);
    assert(find_label(lines, "__rt_gdt_object_cell"@, 1) == 39);
    assert(find_label(lines, "__rt_gdt_object_cell"@, 0) == 39);
}

/// Where the `get_debug_type` lines define `__rt_gdt_object_fallback`.
proof fn lemma_get_debug_type_finds_rt_gdt_object_fallback(lines: Seq<Line>, t: Target)
    requires
        lines.len() == 107,
        lines[0] == Line::Blank,
        lines[1] == comment("--- runtime: get_debug_type ---"),
        lines[2] == global("__rt_get_debug_type"),
        lines[3] == ins("sub sp, sp, #32"),
        lines[4] == ins("stp x29, x30, [sp, #16]"),
        lines[5] == ins("add x29, sp, #16"),
        lines[6] == label("__rt_gdt_dispatch"),
        lines[7] == ins("cbz x0, __rt_gdt_null"),
        lines[8] == ins("ldr x9, [x0, #-8]"),
        lines[9] == ins("and x9, x9, #0xff"),
        lines[10] == ins("cmp x9, #2"),
        lines[11] == ins("b.eq __rt_gdt_array"),
        lines[12] == ins("cmp x9, #3"),
        lines[13] == ins("b.eq __rt_gdt_array"),
        lines[14] == ins("cmp x9, #4"),
        lines[15] == ins("b.eq __rt_gdt_object_from_x0"),
        lines[16] == ins("ldr x9, [x0]"),
        lines[17] == ins("cmp x9, #7"),
        lines[18] == ins("b.ne __rt_gdt_tags"),
        lines[19] == ins("ldr x0, [x0, #8]"),
        lines[20] == ins("b __rt_gdt_dispatch"),
        lines[21] == label("__rt_gdt_tags"),
        lines[22] == ins("cmp x9, #0"),
        lines[23] == ins("b.eq __rt_gdt_int"),
        lines[24] == ins("cmp x9, #1"),
        lines[25] == ins("b.eq __rt_gdt_string"),
        lines[26] == ins("cmp x9, #2"),
        lines[27] == ins("b.eq __rt_gdt_float"),
        lines[28] == ins("cmp x9, #3"),
        lines[29] == ins("b.eq __rt_gdt_bool"),
        lines[30] == ins("cmp x9, #4"),
        lines[31] == ins("b.eq __rt_gdt_array"),
        lines[32] == ins("cmp x9, #5"),
        lines[33] == ins("b.eq __rt_gdt_array"),
        lines[34] == ins("cmp x9, #6"),
        lines[35] == ins("b.eq __rt_gdt_object_cell"),
        lines[36] == ins("cmp x9, #9"),
        lines[37] == ins("b.eq __rt_gdt_resource"),
        lines[38] == ins("b __rt_gdt_null"),
        lines[39] == label("__rt_gdt_object_cell"),
        lines[40] == ins("ldr x0, [x0, #8]"),
        lines[41] == ins("cbz x0, __rt_gdt_null"),
        lines[42] == label("__rt_gdt_object_from_x0"),
        lines[43] == ins("ldr x11, [x0]"),
        lines[44] == adrp_line(t.platform, "x9"@, "_classes_by_name_count"@),
        lines[45] == add_lo12_line(t.platform, "x9"@, "x9"@, "_classes_by_name_count"@),
        lines[46] == ins("ldr x9, [x9]"),
        lines[47] == adrp_line(t.platform, "x10"@, "_classes_by_name"@),
        lines[48] == add_lo12_line(t.platform, "x10"@, "x10"@, "_classes_by_name"@),
        lines[49] == ins("mov x12, #0"),
        lines[50] == label("__rt_gdt_class_loop"),
        lines[51] == ins("cmp x12, x9"),
        lines[52] == ins("b.ge __rt_gdt_object_fallback"),
        lines[53] == ins("ldr x13, [x10, #16]"),
        lines[54] == ins("cmp x13, x11"),
        lines[55] == ins("b.eq __rt_gdt_class_hit"),
        lines[56] == ins("add x10, x10, #48"),
        lines[57] == ins("add x12, x12, #1"),
        lines[58] == ins("b __rt_gdt_class_loop"),
        lines[59] == label("__rt_gdt_class_hit"),
        lines[60] == ins("ldr x1, [x10, #8]"),
        lines[61] == ins("ldr x0, [x10]"),
        lines[62] == ins("b __rt_gdt_ret"),
        lines[63] == label("__rt_gdt_object_fallback"),
    ensures
        find_label(lines, "__rt_gdt_object_fallback"@, 0) == 63,
{
    reveal_strlit("__rt_gdt_class_hit");
    reveal_strlit("__rt_gdt_class_loop");
    reveal_strlit("__rt_gdt_dispatch");
    reveal_strlit("__rt_gdt_object_cell");
    reveal_strlit("__rt_gdt_object_fallback");
    reveal_strlit("__rt_gdt_object_from_x0");
    reveal_strlit("__rt_gdt_tags");
    reveal_strlit("__rt_get_debug_type");
    assert(find_label(lines, "__rt_gdt_object_fallback"@, 63) == 63);
    assert(find_label(lines, "__rt_gdt_object_fallback"@, 62) == 63);
    assert(find_label(lines, "__rt_gdt_object_fallback"@, 61) == 63);
    assert(find_label(lines, "__rt_gdt_object_fallback"@, 60) == 63);
    assert("__rt_gdt_class_hit"@.len() != "__rt_gdt_object_fallback"@.len());
    assert(find_label(lines, "__rt_gdt_object_fallback"@, 59) == 63);
    assert(find_label(lines, "__rt_gdt_object_fallback"@, 58) == 63);
    assert(find_label(lines, "__rt_gdt_object_fallback"@, 57) == 63);
    assert(find_label(lines, "__rt_gdt_object_fallback"@, 56) == 63);
    assert(find_label(lines, "__rt_gdt_object_fallback"@, 55) == 63);
    assert(find_label(lines, "__rt_gdt_object_fallback"@, 54) == 63);
    assert(find_label(lines, "__rt_gdt_object_fallback"@, 53) == 63);
    assert(find_label(lines, "__rt_gdt_object_fallback"@, 52) == 63);
    assert(find_label(lines, "__rt_gdt_object_fallback"@, 51) == 63);
    assert("__rt_gdt_class_loop"@.len() != "__rt_gdt_object_fallback"@.len());
    assert(find_label(lines, "__rt_gdt_object_fallback"@, 50) == 63);
    assert(find_label(lines, "__rt_gdt_object_fallback"@, 49) == 63);
    assert(find_label(lines, "__rt_gdt_object_fallback"@, 48) == 63);
    assert(find_label(lines, "__rt_gdt_object_fallback"@, 47) == 63);
    assert(find_label(lines, "__rt_gdt_object_fallback"@, 46) == 63);
    assert(find_label(lines, "__rt_gdt_object_fallback"@, 45) == 63);
    assert(find_label(lines, "__rt_gdt_object_fallback"@, 44) == 63);
    assert(find_label(lines, "__rt_gdt_object_fallback"@, 43) == 63);
    assert("__rt_gdt_object_from_x0"@.len() != "__rt_gdt_object_fallback"@.len());
    assert(find_label(lines, "__rt_gdt_object_fallback"@, 42) == 63);
    assert(find_label(lines, "__rt_gdt_object_fallback"@, 41) == 63);
    assert(find_label(lines, "__rt_gdt_object_fallback"@, 40) == 63);
    assert("__rt_gdt_object_cell"@.len() != "__rt_gdt_object_fallback"@.len());
    assert(find_label(lines, "__rt_gdt_object_fallback"@, 39) == 63);
    assert(find_label(lines, "__rt_gdt_object_fallback"@, 38) == 63);
    assert(find_label(lines, "__rt_gdt_object_fallback"@, 37) == 63);
    assert(find_label(lines, "__rt_gdt_object_fallback"@, 36) == 63);
    assert(find_label(lines, "__rt_gdt_object_fallback"@, 35) == 63);
    assert(find_label(lines, "__rt_gdt_object_fallback"@, 34) == 63);
    assert(find_label(lines, "__rt_gdt_object_fallback"@, 33) == 63);
    assert(find_label(lines, "__rt_gdt_object_fallback"@, 32) == 63);
    assert(find_label(lines, "__rt_gdt_object_fallback"@, 31) == 63);
    assert(find_label(lines, "__rt_gdt_object_fallback"@, 30) == 63);
    assert(find_label(lines, "__rt_gdt_object_fallback"@, 29) == 63);
    assert(find_label(lines, "__rt_gdt_object_fallback"@, 28) == 63);
    assert(find_label(lines, "__rt_gdt_object_fallback"@, 27) == 63);
    assert(find_label(lines, "__rt_gdt_object_fallback"@, 26) == 63);
    assert(find_label(lines, "__rt_gdt_object_fallback"@, 25) == 63);
    assert(find_label(lines, "__rt_gdt_object_fallback"@, 24) == 63);
    assert(find_label(lines, "__rt_gdt_object_fallback"@, 23) == 63);
    assert(find_label(lines, "__rt_gdt_object_fallback"@, 22) == 63);
    assert("__rt_gdt_tags"@.len() != "__rt_gdt_object_fallback"@.len());
    assert(find_label(lines, "__rt_gdt_object_fallback"@, 21) == 63);
    assert(find_label(lines, "__rt_gdt_object_fallback"@, 20) == 63);
    assert(find_label(lines, "__rt_gdt_object_fallback"@, 19) == 63);
    assert(find_label(lines, "__rt_gdt_object_fallback"@, 18) == 63);
    assert(find_label(lines, "__rt_gdt_object_fallback"@, 17) == 63);
    assert(find_label(lines, "__rt_gdt_object_fallback"@, 16) == 63);
    assert(find_label(lines, "__rt_gdt_object_fallback"@, 15) == 63);
    assert(find_label(lines, "__rt_gdt_object_fallback"@, 14) == 63);
    assert(find_label(lines, "__rt_gdt_object_fallback"@, 13) == 63);
    assert(find_label(lines, "__rt_gdt_object_fallback"@, 12) == 63);
    assert(find_label(lines, "__rt_gdt_object_fallback"@, 11) == 63);
    assert(find_label(lines, "__rt_gdt_object_fallback"@, 10) == 63);
    assert(find_label(lines, "__rt_gdt_object_fallback"@, 9) == 63);
    assert(find_label(lines, "__rt_gdt_object_fallback"@, 8) == 63);
    assert(find_label(lines, "__rt_gdt_object_fallback"@, 7) == 63);
    assert("__rt_gdt_dispatch"@.len() != "__rt_gdt_object_fallback"@.len());
    assert(find_label(lines, "__rt_gdt_object_fallback"@, 6) == 63);
    assert(find_label(lines, "__rt_gdt_object_fallback"@, 5) == 63);
    assert(find_label(lines, "__rt_gdt_object_fallback"@, 4) == 63);
    assert(find_label(lines, "__rt_gdt_object_fallback"@, 3) == 63);
    assert("__rt_get_debug_type"@.len() != "__rt_gdt_object_fallback"@.len());
    assert(find_label(lines, "__rt_gdt_object_fallback"@, 2) == 63);
    assert(find_label(lines, "__rt_gdt_object_fallback"@, 1) == 63);
    assert(find_label(lines, "__rt_gdt_object_fallback"@, 0) == 63);
}

/// Where the `get_debug_type` lines define `__rt_gdt_object_from_x0`.
proof fn lemma_get_debug_type_finds_rt_gdt_object_from_x0(lines: Seq<Line>, t: Target)
    requires
        lines.len() == 107,
        lines[0] == Line::Blank,
        lines[1] == comment("--- runtime: get_debug_type ---"),
        lines[2] == global("__rt_get_debug_type"),
        lines[3] == ins("sub sp, sp, #32"),
        lines[4] == ins("stp x29, x30, [sp, #16]"),
        lines[5] == ins("add x29, sp, #16"),
        lines[6] == label("__rt_gdt_dispatch"),
        lines[7] == ins("cbz x0, __rt_gdt_null"),
        lines[8] == ins("ldr x9, [x0, #-8]"),
        lines[9] == ins("and x9, x9, #0xff"),
        lines[10] == ins("cmp x9, #2"),
        lines[11] == ins("b.eq __rt_gdt_array"),
        lines[12] == ins("cmp x9, #3"),
        lines[13] == ins("b.eq __rt_gdt_array"),
        lines[14] == ins("cmp x9, #4"),
        lines[15] == ins("b.eq __rt_gdt_object_from_x0"),
        lines[16] == ins("ldr x9, [x0]"),
        lines[17] == ins("cmp x9, #7"),
        lines[18] == ins("b.ne __rt_gdt_tags"),
        lines[19] == ins("ldr x0, [x0, #8]"),
        lines[20] == ins("b __rt_gdt_dispatch"),
        lines[21] == label("__rt_gdt_tags"),
        lines[22] == ins("cmp x9, #0"),
        lines[23] == ins("b.eq __rt_gdt_int"),
        lines[24] == ins("cmp x9, #1"),
        lines[25] == ins("b.eq __rt_gdt_string"),
        lines[26] == ins("cmp x9, #2"),
        lines[27] == ins("b.eq __rt_gdt_float"),
        lines[28] == ins("cmp x9, #3"),
        lines[29] == ins("b.eq __rt_gdt_bool"),
        lines[30] == ins("cmp x9, #4"),
        lines[31] == ins("b.eq __rt_gdt_array"),
        lines[32] == ins("cmp x9, #5"),
        lines[33] == ins("b.eq __rt_gdt_array"),
        lines[34] == ins("cmp x9, #6"),
        lines[35] == ins("b.eq __rt_gdt_object_cell"),
        lines[36] == ins("cmp x9, #9"),
        lines[37] == ins("b.eq __rt_gdt_resource"),
        lines[38] == ins("b __rt_gdt_null"),
        lines[39] == label("__rt_gdt_object_cell"),
        lines[40] == ins("ldr x0, [x0, #8]"),
        lines[41] == ins("cbz x0, __rt_gdt_null"),
        lines[42] == label("__rt_gdt_object_from_x0"),
    ensures
        find_label(lines, "__rt_gdt_object_from_x0"@, 0) == 42,
{
    reveal_strlit("__rt_gdt_dispatch");
    reveal_strlit("__rt_gdt_object_cell");
    reveal_strlit("__rt_gdt_object_from_x0");
    reveal_strlit("__rt_gdt_tags");
    reveal_strlit("__rt_get_debug_type");
    assert(find_label(lines, "__rt_gdt_object_from_x0"@, 42) == 42);
    assert(find_label(lines, "__rt_gdt_object_from_x0"@, 41) == 42);
    assert(find_label(lines, "__rt_gdt_object_from_x0"@, 40) == 42);
    assert("__rt_gdt_object_cell"@.len() != "__rt_gdt_object_from_x0"@.len());
    assert(find_label(lines, "__rt_gdt_object_from_x0"@, 39) == 42);
    assert(find_label(lines, "__rt_gdt_object_from_x0"@, 38) == 42);
    assert(find_label(lines, "__rt_gdt_object_from_x0"@, 37) == 42);
    assert(find_label(lines, "__rt_gdt_object_from_x0"@, 36) == 42);
    assert(find_label(lines, "__rt_gdt_object_from_x0"@, 35) == 42);
    assert(find_label(lines, "__rt_gdt_object_from_x0"@, 34) == 42);
    assert(find_label(lines, "__rt_gdt_object_from_x0"@, 33) == 42);
    assert(find_label(lines, "__rt_gdt_object_from_x0"@, 32) == 42);
    assert(find_label(lines, "__rt_gdt_object_from_x0"@, 31) == 42);
    assert(find_label(lines, "__rt_gdt_object_from_x0"@, 30) == 42);
    assert(find_label(lines, "__rt_gdt_object_from_x0"@, 29) == 42);
    assert(find_label(lines, "__rt_gdt_object_from_x0"@, 28) == 42);
    assert(find_label(lines, "__rt_gdt_object_from_x0"@, 27) == 42);
    assert(find_label(lines, "__rt_gdt_object_from_x0"@, 26) == 42);
    assert(find_label(lines, "__rt_gdt_object_from_x0"@, 25) == 42);
    assert(find_label(lines, "__rt_gdt_object_from_x0"@, 24) == 42);
    assert(find_label(lines, "__rt_gdt_object_from_x0"@, 23) == 42);
    assert(find_label(lines, "__rt_gdt_object_from_x0"@, 22) == 42);
    assert("__rt_gdt_tags"@.len() != "__rt_gdt_object_from_x0"@.len());
    assert(find_label(lines, "__rt_gdt_object_from_x0"@, 21) == 42);
    assert(find_label(lines, "__rt_gdt_object_from_x0"@, 20) == 42);
    assert(find_label(lines, "__rt_gdt_object_from_x0"@, 19) == 42);
    assert(find_label(lines, "__rt_gdt_object_from_x0"@, 18) == 42);
    assert(find_label(lines, "__rt_gdt_object_from_x0"@, 17) == 42);
    assert(find_label(lines, "__rt_gdt_object_from_x0"@, 16) == 42);
    assert(find_label(lines, "__rt_gdt_object_from_x0"@, 15) == 42);
    assert(find_label(lines, "__rt_gdt_object_from_x0"@, 14) == 42);
    assert(find_label(lines, "__rt_gdt_object_from_x0"@, 13) == 42);
    assert(find_label(lines, "__rt_gdt_object_from_x0"@, 12) == 42);
    assert(find_label(lines, "__rt_gdt_object_from_x0"@, 11) == 42);
    assert(find_label(lines, "__rt_gdt_object_from_x0"@, 10) == 42);
    assert(find_label(lines, "__rt_gdt_object_from_x0"@, 9) == 42);
    assert(find_label(lines, "__rt_gdt_object_from_x0"@, 8) == 42);
    assert(find_label(lines, "__rt_gdt_object_from_x0"@, 7) == 42);
    assert("__rt_gdt_dispatch"@.len() != "__rt_gdt_object_from_x0"@.len());
    assert(find_label(lines, "__rt_gdt_object_from_x0"@, 6) == 42);
    assert(find_label(lines, "__rt_gdt_object_from_x0"@, 5) == 42);
    assert(find_label(lines, "__rt_gdt_object_from_x0"@, 4) == 42);
    assert(find_label(lines, "__rt_gdt_object_from_x0"@, 3) == 42);
    assert("__rt_get_debug_type"@.len() != "__rt_gdt_object_from_x0"@.len());
    assert(find_label(lines, "__rt_gdt_object_from_x0"@, 2) == 42);
    assert(find_label(lines, "__rt_gdt_object_from_x0"@, 1) == 42);
    assert(find_label(lines, "__rt_gdt_object_from_x0"@, 0) == 42);
}

/// Where the `get_debug_type` lines define `__rt_gdt_resource`.
proof fn lemma_get_debug_type_finds_rt_gdt_resource(lines: Seq<Line>, t: Target)
    requires
        lines.len() == 107,
        lines[0] == Line::Blank,
        lines[1] == comment("--- runtime: get_debug_type ---"),
        lines[2] == global("__rt_get_debug_type"),
        lines[3] == ins("sub sp, sp, #32"),
        lines[4] == ins("stp x29, x30, [sp, #16]"),
        lines[5] == ins("add x29, sp, #16"),
        lines[6] == label("__rt_gdt_dispatch"),
        lines[7] == ins("cbz x0, __rt_gdt_null"),
        lines[8] == ins("ldr x9, [x0, #-8]"),
        lines[9] == ins("and x9, x9, #0xff"),
        lines[10] == ins("cmp x9, #2"),
        lines[11] == ins("b.eq __rt_gdt_array"),
        lines[12] == ins("cmp x9, #3"),
        lines[13] == ins("b.eq __rt_gdt_array"),
        lines[14] == ins("cmp x9, #4"),
        lines[15] == ins("b.eq __rt_gdt_object_from_x0"),
        lines[16] == ins("ldr x9, [x0]"),
        lines[17] == ins("cmp x9, #7"),
        lines[18] == ins("b.ne __rt_gdt_tags"),
        lines[19] == ins("ldr x0, [x0, #8]"),
        lines[20] == ins("b __rt_gdt_dispatch"),
        lines[21] == label("__rt_gdt_tags"),
        lines[22] == ins("cmp x9, #0"),
        lines[23] == ins("b.eq __rt_gdt_int"),
        lines[24] == ins("cmp x9, #1"),
        lines[25] == ins("b.eq __rt_gdt_string"),
        lines[26] == ins("cmp x9, #2"),
        lines[27] == ins("b.eq __rt_gdt_float"),
        lines[28] == ins("cmp x9, #3"),
        lines[29] == ins("b.eq __rt_gdt_bool"),
        lines[30] == ins("cmp x9, #4"),
        lines[31] == ins("b.eq __rt_gdt_array"),
        lines[32] == ins("cmp x9, #5"),
        lines[33] == ins("b.eq __rt_gdt_array"),
        lines[34] == ins("cmp x9, #6"),
        lines[35] == ins("b.eq __rt_gdt_object_cell"),
        lines[36] == ins("cmp x9, #9"),
        lines[37] == ins("b.eq __rt_gdt_resource"),
        lines[38] == ins("b __rt_gdt_null"),
        lines[39] == label("__rt_gdt_object_cell"),
        lines[40] == ins("ldr x0, [x0, #8]"),
        lines[41] == ins("cbz x0, __rt_gdt_null"),
        lines[42] == label("__rt_gdt_object_from_x0"),
        lines[43] == ins("ldr x11, [x0]"),
        lines[44] == adrp_line(t.platform, "x9"@, "_classes_by_name_count"@),
        lines[45] == add_lo12_line(t.platform, "x9"@, "x9"@, "_classes_by_name_count"@),
        lines[46] == ins("ldr x9, [x9]"),
        lines[47] == adrp_line(t.platform, "x10"@, "_classes_by_name"@),
        lines[48] == add_lo12_line(t.platform, "x10"@, "x10"@, "_classes_by_name"@),
        lines[49] == ins("mov x12, #0"),
        lines[50] == label("__rt_gdt_class_loop"),
        lines[51] == ins("cmp x12, x9"),
        lines[52] == ins("b.ge __rt_gdt_object_fallback"),
        lines[53] == ins("ldr x13, [x10, #16]"),
        lines[54] == ins("cmp x13, x11"),
        lines[55] == ins("b.eq __rt_gdt_class_hit"),
        lines[56] == ins("add x10, x10, #48"),
        lines[57] == ins("add x12, x12, #1"),
        lines[58] == ins("b __rt_gdt_class_loop"),
        lines[59] == label("__rt_gdt_class_hit"),
        lines[60] == ins("ldr x1, [x10, #8]"),
        lines[61] == ins("ldr x0, [x10]"),
        lines[62] == ins("b __rt_gdt_ret"),
        lines[63] == label("__rt_gdt_object_fallback"),
        lines[64] == adrp_line(t.platform, "x0"@, "_gdt_object"@),
        lines[65] == add_lo12_line(t.platform, "x0"@, "x0"@, "_gdt_object"@),
        lines[66] == ins("mov x1, #6"),
        lines[67] == ins("b __rt_gdt_ret"),
        lines[68] == Line::Label("__rt_gdt_int"@),
        lines[69] == adrp_line(t.platform, "x0"@, "_gdt_int"@),
        lines[70] == add_lo12_line(t.platform, "x0"@, "x0"@, "_gdt_int"@),
        lines[71] == ins_int("mov x1, #", 3, ""),
        lines[72] == ins("b __rt_gdt_ret"),
        lines[73] == Line::Label("__rt_gdt_string"@),
        lines[74] == adrp_line(t.platform, "x0"@, "_gdt_string"@),
        lines[75] == add_lo12_line(t.platform, "x0"@, "x0"@, "_gdt_string"@),
        lines[76] == ins_int("mov x1, #", 6, ""),
        lines[77] == ins("b __rt_gdt_ret"),
        lines[78] == Line::Label("__rt_gdt_float"@),
        lines[79] == adrp_line(t.platform, "x0"@, "_gdt_float"@),
        lines[80] == add_lo12_line(t.platform, "x0"@, "x0"@, "_gdt_float"@),
        lines[81] == ins_int("mov x1, #", 5, ""),
        lines[82] == ins("b __rt_gdt_ret"),
        lines[83] == Line::Label("__rt_gdt_bool"@),
        lines[84] == adrp_line(t.platform, "x0"@, "_gdt_bool"@),
        lines[85] == add_lo12_line(t.platform, "x0"@, "x0"@, "_gdt_bool"@),
        lines[86] == ins_int("mov x1, #", 4, ""),
        lines[87] == ins("b __rt_gdt_ret"),
        lines[88] == Line::Label("__rt_gdt_array"@),
        lines[89] == adrp_line(t.platform, "x0"@, "_gdt_array"@),
        lines[90] == add_lo12_line(t.platform, "x0"@, "x0"@, "_gdt_array"@),
        lines[91] == ins_int("mov x1, #", 5, ""),
        lines[92] == ins("b __rt_gdt_ret"),
        lines[93] == Line::Label("__rt_gdt_null"@),
        lines[94] == adrp_line(t.platform, "x0"@, "_gdt_null"@),
        lines[95] == add_lo12_line(t.platform, "x0"@, "x0"@, "_gdt_null"@),
        lines[96] == ins_int("mov x1, #", 4, ""),
        lines[97] == ins("b __rt_gdt_ret"),
        lines[98] == Line::Label("__rt_gdt_resource"@),
    ensures
        find_label(lines, "__rt_gdt_resource"@, 0) == 98,
{
    reveal_strlit("__rt_gdt_array");
    reveal_strlit("__rt_gdt_bool");
    reveal_strlit("__rt_gdt_class_hit");
    reveal_strlit("__rt_gdt_class_loop");
    reveal_strlit("__rt_gdt_dispatch");
    reveal_strlit("__rt_gdt_float");
    reveal_strlit("__rt_gdt_int");
    reveal_strlit("__rt_gdt_null");
    reveal_strlit("__rt_gdt_object_cell");
    reveal_strlit("__rt_gdt_object_fallback");
    reveal_strlit("__rt_gdt_object_from_x0");
    reveal_strlit("__rt_gdt_resource");
    reveal_strlit("__rt_gdt_string");
    reveal_strlit("__rt_gdt_tags");
    reveal_strlit("__rt_get_debug_type");
    assert(find_label(lines, "__rt_gdt_resource"@, 98) == 98);
    assert(find_label(lines, "__rt_gdt_resource"@, 97) == 98);
    assert(find_label(lines, "__rt_gdt_resource"@, 96) == 98);
    assert(find_label(lines, "__rt_gdt_resource"@, 95) == 98);
    assert(find_label(lines, "__rt_gdt_resource"@, 94) == 98);
    assert("__rt_gdt_null"@.len() != "__rt_gdt_resource"@.len());
    assert(find_label(lines, "__rt_gdt_resource"@, 93) == 98);
    assert(find_label(lines, "__rt_gdt_resource"@, 92) == 98);
    assert(find_label(lines, "__rt_gdt_resource"@, 91) == 98);
    assert(find_label(lines, "__rt_gdt_resource"@, 90) == 98);
    assert(find_label(lines, "__rt_gdt_resource"@, 89) == 98);
    assert("__rt_gdt_array"@.len() != "__rt_gdt_resource"@.len());
    assert(find_label(lines, "__rt_gdt_resource"@, 88) == 98);
    assert(find_label(lines, "__rt_gdt_resource"@, 87) == 98);
    assert(find_label(lines, "__rt_gdt_resource"@, 86) == 98);
    assert(find_label(lines, "__rt_gdt_resource"@, 85) == 98);
    assert(find_label(lines, "__rt_gdt_resource"@, 84) == 98);
    assert("__rt_gdt_bool"@.len() != "__rt_gdt_resource"@.len());
    assert(find_label(lines, "__rt_gdt_resource"@, 83) == 98);
    assert(find_label(lines, "__rt_gdt_resource"@, 82) == 98);
    assert(find_label(lines, "__rt_gdt_resource"@, 81) == 98);
    assert(find_label(lines, "__rt_gdt_resource"@, 80) == 98);
    assert(find_label(lines, "__rt_gdt_resource"@, 79) == 98);
    assert("__rt_gdt_float"@.len() != "__rt_gdt_resource"@.len());
    assert(find_label(lines, "__rt_gdt_resource"@, 78) == 98);
    assert(find_label(lines, "__rt_gdt_resource"@, 77) == 98);
    assert(find_label(lines, "__rt_gdt_resource"@, 76) == 98);
    assert(find_label(lines, "__rt_gdt_resource"@, 75) == 98);
    assert(find_label(lines, "__rt_gdt_resource"@, 74) == 98);
    assert("__rt_gdt_string"@.len() != "__rt_gdt_resource"@.len());
    assert(find_label(lines, "__rt_gdt_resource"@, 73) == 98);
    assert(find_label(lines, "__rt_gdt_resource"@, 72) == 98);
    assert(find_label(lines, "__rt_gdt_resource"@, 71) == 98);
    assert(find_label(lines, "__rt_gdt_resource"@, 70) == 98);
    assert(find_label(lines, "__rt_gdt_resource"@, 69) == 98);
    assert("__rt_gdt_int"@.len() != "__rt_gdt_resource"@.len());
    assert(find_label(lines, "__rt_gdt_resource"@, 68) == 98);
    assert(find_label(lines, "__rt_gdt_resource"@, 67) == 98);
    assert(find_label(lines, "__rt_gdt_resource"@, 66) == 98);
    assert(find_label(lines, "__rt_gdt_resource"@, 65) == 98);
    assert(find_label(lines, "__rt_gdt_resource"@, 64) == 98);
    assert("__rt_gdt_object_fallback"@.len() != "__rt_gdt_resource"@.len());
    assert(find_label(lines, "__rt_gdt_resource"@, 63) == 98);
    assert(find_label(lines, "__rt_gdt_resource"@, 62) == 98);
    assert(find_label(lines, "__rt_gdt_resource"@, 61) == 98);
    assert(find_label(lines, "__rt_gdt_resource"@, 60) == 98);
    assert("__rt_gdt_class_hit"@.len() != "__rt_gdt_resource"@.len());
    assert(find_label(lines, "__rt_gdt_resource"@, 59) == 98);
    assert(find_label(lines, "__rt_gdt_resource"@, 58) == 98);
    assert(find_label(lines, "__rt_gdt_resource"@, 57) == 98);
    assert(find_label(lines, "__rt_gdt_resource"@, 56) == 98);
    assert(find_label(lines, "__rt_gdt_resource"@, 55) == 98);
    assert(find_label(lines, "__rt_gdt_resource"@, 54) == 98);
    assert(find_label(lines, "__rt_gdt_resource"@, 53) == 98);
    assert(find_label(lines, "__rt_gdt_resource"@, 52) == 98);
    assert(find_label(lines, "__rt_gdt_resource"@, 51) == 98);
    assert("__rt_gdt_class_loop"@.len() != "__rt_gdt_resource"@.len());
    assert(find_label(lines, "__rt_gdt_resource"@, 50) == 98);
    assert(find_label(lines, "__rt_gdt_resource"@, 49) == 98);
    assert(find_label(lines, "__rt_gdt_resource"@, 48) == 98);
    assert(find_label(lines, "__rt_gdt_resource"@, 47) == 98);
    assert(find_label(lines, "__rt_gdt_resource"@, 46) == 98);
    assert(find_label(lines, "__rt_gdt_resource"@, 45) == 98);
    assert(find_label(lines, "__rt_gdt_resource"@, 44) == 98);
    assert(find_label(lines, "__rt_gdt_resource"@, 43) == 98);
    assert("__rt_gdt_object_from_x0"@.len() != "__rt_gdt_resource"@.len());
    assert(find_label(lines, "__rt_gdt_resource"@, 42) == 98);
    assert(find_label(lines, "__rt_gdt_resource"@, 41) == 98);
    assert(find_label(lines, "__rt_gdt_resource"@, 40) == 98);
    assert("__rt_gdt_object_cell"@.len() != "__rt_gdt_resource"@.len());
    assert(find_label(lines, "__rt_gdt_resource"@, 39) == 98);
    assert(find_label(lines, "__rt_gdt_resource"@, 38) == 98);
    assert(find_label(lines, "__rt_gdt_resource"@, 37) == 98);
    assert(find_label(lines, "__rt_gdt_resource"@, 36) == 98);
    assert(find_label(lines, "__rt_gdt_resource"@, 35) == 98);
    assert(find_label(lines, "__rt_gdt_resource"@, 34) == 98);
    assert(find_label(lines, "__rt_gdt_resource"@, 33) == 98);
    assert(find_label(lines, "__rt_gdt_resource"@, 32) == 98);
    assert(find_label(lines, "__rt_gdt_resource"@, 31) == 98);
    assert(find_label(lines, "__rt_gdt_resource"@, 30) == 98);
    assert(find_label(lines, "__rt_gdt_resource"@, 29) == 98);
    assert(find_label(lines, "__rt_gdt_resource"@, 28) == 98);
    assert(find_label(lines, "__rt_gdt_resource"@, 27) == 98);
    assert(find_label(lines, "__rt_gdt_resource"@, 26) == 98);
    assert(find_label(lines, "__rt_gdt_resource"@, 25) == 98);
    assert(find_label(lines, "__rt_gdt_resource"@, 24) == 98);
    assert(find_label(lines, "__rt_gdt_resource"@, 23) == 98);
    assert(find_label(lines, "__rt_gdt_resource"@, 22) == 98);
    assert("__rt_gdt_tags"@.len() != "__rt_gdt_resource"@.len());
    assert(find_label(lines, "__rt_gdt_resource"@, 21) == 98);
    assert(find_label(lines, "__rt_gdt_resource"@, 20) == 98);
    assert(find_label(lines, "__rt_gdt_resource"@, 19) == 98);
    assert(find_label(lines, "__rt_gdt_resource"@, 18) == 98);
    assert(find_label(lines, "__rt_gdt_resource"@, 17) == 98);
    assert(find_label(lines, "__rt_gdt_resource"@, 16) == 98);
    assert(find_label(lines, "__rt_gdt_resource"@, 15) == 98);
    assert(find_label(lines, "__rt_gdt_resource"@, 14) == 98);
    assert(find_label(lines, "__rt_gdt_resource"@, 13) == 98);
    assert(find_label(lines, "__rt_gdt_resource"@, 12) == 98);
    assert(find_label(lines, "__rt_gdt_resource"@, 11) == 98);
    assert(find_label(lines, "__rt_gdt_resource"@, 10) == 98);
    assert(find_label(lines, "__rt_gdt_resource"@, 9) == 98);
    assert(find_label(lines, "__rt_gdt_resource"@, 8) == 98);
    assert(find_label(lines, "__rt_gdt_resource"@, 7) == 98);
    assert("__rt_gdt_dispatch"@[9] != "__rt_gdt_resource"@[9]);
    assert(find_label(lines, "__rt_gdt_resource"@, 6) == 98);
    assert(find_label(lines, "__rt_gdt_resource"@, 5) == 98);
    assert(find_label(lines, "__rt_gdt_resource"@, 4) == 98);
    assert(find_label(lines, "__rt_gdt_resource"@, 3) == 98);
    assert("__rt_get_debug_type"@.len() != "__rt_gdt_resource"@.len());
    assert(find_label(lines, "__rt_gdt_resource"@, 2) == 98);
    assert(find_label(lines, "__rt_gdt_resource"@, 1) == 98);
    assert(find_label(lines, "__rt_gdt_resource"@, 0) == 98);
}

/// Where the `get_debug_type` lines define `__rt_gdt_ret`.
proof fn lemma_get_debug_type_finds_rt_gdt_ret(lines: Seq<Line>, t: Target)
    requires
        lines.len() == 107,
        lines[0] == Line::Blank,
        lines[1] == comment("--- runtime: get_debug_type ---"),
        lines[2] == global("__rt_get_debug_type"),
        lines[3] == ins("sub sp, sp, #32"),
        lines[4] == ins("stp x29, x30, [sp, #16]"),
        lines[5] == ins("add x29, sp, #16"),
        lines[6] == label("__rt_gdt_dispatch"),
        lines[7] == ins("cbz x0, __rt_gdt_null"),
        lines[8] == ins("ldr x9, [x0, #-8]"),
        lines[9] == ins("and x9, x9, #0xff"),
        lines[10] == ins("cmp x9, #2"),
        lines[11] == ins("b.eq __rt_gdt_array"),
        lines[12] == ins("cmp x9, #3"),
        lines[13] == ins("b.eq __rt_gdt_array"),
        lines[14] == ins("cmp x9, #4"),
        lines[15] == ins("b.eq __rt_gdt_object_from_x0"),
        lines[16] == ins("ldr x9, [x0]"),
        lines[17] == ins("cmp x9, #7"),
        lines[18] == ins("b.ne __rt_gdt_tags"),
        lines[19] == ins("ldr x0, [x0, #8]"),
        lines[20] == ins("b __rt_gdt_dispatch"),
        lines[21] == label("__rt_gdt_tags"),
        lines[22] == ins("cmp x9, #0"),
        lines[23] == ins("b.eq __rt_gdt_int"),
        lines[24] == ins("cmp x9, #1"),
        lines[25] == ins("b.eq __rt_gdt_string"),
        lines[26] == ins("cmp x9, #2"),
        lines[27] == ins("b.eq __rt_gdt_float"),
        lines[28] == ins("cmp x9, #3"),
        lines[29] == ins("b.eq __rt_gdt_bool"),
        lines[30] == ins("cmp x9, #4"),
        lines[31] == ins("b.eq __rt_gdt_array"),
        lines[32] == ins("cmp x9, #5"),
        lines[33] == ins("b.eq __rt_gdt_array"),
        lines[34] == ins("cmp x9, #6"),
        lines[35] == ins("b.eq __rt_gdt_object_cell"),
        lines[36] == ins("cmp x9, #9"),
        lines[37] == ins("b.eq __rt_gdt_resource"),
        lines[38] == ins("b __rt_gdt_null"),
        lines[39] == label("__rt_gdt_object_cell"),
        lines[40] == ins("ldr x0, [x0, #8]"),
        lines[41] == ins("cbz x0, __rt_gdt_null"),
        lines[42] == label("__rt_gdt_object_from_x0"),
        lines[43] == ins("ldr x11, [x0]"),
        lines[44] == adrp_line(t.platform, "x9"@, "_classes_by_name_count"@),
        lines[45] == add_lo12_line(t.platform, "x9"@, "x9"@, "_classes_by_name_count"@),
        lines[46] == ins("ldr x9, [x9]"),
        lines[47] == adrp_line(t.platform, "x10"@, "_classes_by_name"@),
        lines[48] == add_lo12_line(t.platform, "x10"@, "x10"@, "_classes_by_name"@),
        lines[49] == ins("mov x12, #0"),
        lines[50] == label("__rt_gdt_class_loop"),
        lines[51] == ins("cmp x12, x9"),
        lines[52] == ins("b.ge __rt_gdt_object_fallback"),
        lines[53] == ins("ldr x13, [x10, #16]"),
        lines[54] == ins("cmp x13, x11"),
        lines[55] == ins("b.eq __rt_gdt_class_hit"),
        lines[56] == ins("add x10, x10, #48"),
        lines[57] == ins("add x12, x12, #1"),
        lines[58] == ins("b __rt_gdt_class_loop"),
        lines[59] == label("__rt_gdt_class_hit"),
        lines[60] == ins("ldr x1, [x10, #8]"),
        lines[61] == ins("ldr x0, [x10]"),
        lines[62] == ins("b __rt_gdt_ret"),
        lines[63] == label("__rt_gdt_object_fallback"),
        lines[64] == adrp_line(t.platform, "x0"@, "_gdt_object"@),
        lines[65] == add_lo12_line(t.platform, "x0"@, "x0"@, "_gdt_object"@),
        lines[66] == ins("mov x1, #6"),
        lines[67] == ins("b __rt_gdt_ret"),
        lines[68] == Line::Label("__rt_gdt_int"@),
        lines[69] == adrp_line(t.platform, "x0"@, "_gdt_int"@),
        lines[70] == add_lo12_line(t.platform, "x0"@, "x0"@, "_gdt_int"@),
        lines[71] == ins_int("mov x1, #", 3, ""),
        lines[72] == ins("b __rt_gdt_ret"),
        lines[73] == Line::Label("__rt_gdt_string"@),
        lines[74] == adrp_line(t.platform, "x0"@, "_gdt_string"@),
        lines[75] == add_lo12_line(t.platform, "x0"@, "x0"@, "_gdt_string"@),
        lines[76] == ins_int("mov x1, #", 6, ""),
        lines[77] == ins("b __rt_gdt_ret"),
        lines[78] == Line::Label("__rt_gdt_float"@),
        lines[79] == adrp_line(t.platform, "x0"@, "_gdt_float"@),
        lines[80] == add_lo12_line(t.platform, "x0"@, "x0"@, "_gdt_float"@),
        lines[81] == ins_int("mov x1, #", 5, ""),
        lines[82] == ins("b __rt_gdt_ret"),
        lines[83] == Line::Label("__rt_gdt_bool"@),
        lines[84] == adrp_line(t.platform, "x0"@, "_gdt_bool"@),
        lines[85] == add_lo12_line(t.platform, "x0"@, "x0"@, "_gdt_bool"@),
        lines[86] == ins_int("mov x1, #", 4, ""),
        lines[87] == ins("b __rt_gdt_ret"),
        lines[88] == Line::Label("__rt_gdt_array"@),
        lines[89] == adrp_line(t.platform, "x0"@, "_gdt_array"@),
        lines[90] == add_lo12_line(t.platform, "x0"@, "x0"@, "_gdt_array"@),
        lines[91] == ins_int("mov x1, #", 5, ""),
        lines[92] == ins("b __rt_gdt_ret"),
        lines[93] == Line::Label("__rt_gdt_null"@),
        lines[94] == adrp_line(t.platform, "x0"@, "_gdt_null"@),
        lines[95] == add_lo12_line(t.platform, "x0"@, "x0"@, "_gdt_null"@),
        lines[96] == ins_int("mov x1, #", 4, ""),
        lines[97] == ins("b __rt_gdt_ret"),
        lines[98] == Line::Label("__rt_gdt_resource"@),
        lines[99] == adrp_line(t.platform, "x0"@, "_gdt_resource"@),
        lines[100] == add_lo12_line(t.platform, "x0"@, "x0"@, "_gdt_resource"@),
        lines[101] == ins_int("mov x1, #", 17, ""),
        lines[102] == ins("b __rt_gdt_ret"),
        lines[103] == label("__rt_gdt_ret"),
    ensures
        find_label(lines, "__rt_gdt_ret"@, 0) == 103,
{
    reveal_strlit("__rt_gdt_array");
    reveal_strlit("__rt_gdt_bool");
    reveal_strlit("__rt_gdt_class_hit");
    reveal_strlit("__rt_gdt_class_loop");
    reveal_strlit("__rt_gdt_dispatch");
    reveal_strlit("__rt_gdt_float");
    reveal_strlit("__rt_gdt_int");
    reveal_strlit("__rt_gdt_null");
    reveal_strlit("__rt_gdt_object_cell");
    reveal_strlit("__rt_gdt_object_fallback");
    reveal_strlit("__rt_gdt_object_from_x0");
    reveal_strlit("__rt_gdt_resource");
    reveal_strlit("__rt_gdt_ret");
    reveal_strlit("__rt_gdt_string");
    reveal_strlit("__rt_gdt_tags");
    reveal_strlit("__rt_get_debug_type");
    assert(find_label(lines, "__rt_gdt_ret"@, 103) == 103);
    assert(find_label(lines, "__rt_gdt_ret"@, 102) == 103);
    assert(find_label(lines, "__rt_gdt_ret"@, 101) == 103);
    assert(find_label(lines, "__rt_gdt_ret"@, 100) == 103);
    assert(find_label(lines, "__rt_gdt_ret"@, 99) == 103);
    assert("__rt_gdt_resource"@.len() != "__rt_gdt_ret"@.len());
    assert(find_label(lines, "__rt_gdt_ret"@, 98) == 103);
    assert(find_label(lines, "__rt_gdt_ret"@, 97) == 103);
    assert(find_label(lines, "__rt_gdt_ret"@, 96) == 103);
    assert(find_label(lines, "__rt_gdt_ret"@, 95) == 103);
    assert(find_label(lines, "__rt_gdt_ret"@, 94) == 103);
    assert("__rt_gdt_null"@.len() != "__rt_gdt_ret"@.len());
    assert(find_label(lines, "__rt_gdt_ret"@, 93) == 103);
    assert(find_label(lines, "__rt_gdt_ret"@, 92) == 103);
    assert(find_label(lines, "__rt_gdt_ret"@, 91) == 103);
    assert(find_label(lines, "__rt_gdt_ret"@, 90) == 103);
    assert(find_label(lines, "__rt_gdt_ret"@, 89) == 103);
    assert("__rt_gdt_array"@.len() != "__rt_gdt_ret"@.len());
    assert(find_label(lines, "__rt_gdt_ret"@, 88) == 103);
    assert(find_label(lines, "__rt_gdt_ret"@, 87) == 103);
    assert(find_label(lines, "__rt_gdt_ret"@, 86) == 103);
    assert(find_label(lines, "__rt_gdt_ret"@, 85) == 103);
    assert(find_label(lines, "__rt_gdt_ret"@, 84) == 103);
    assert("__rt_gdt_bool"@.len() != "__rt_gdt_ret"@.len());
    assert(find_label(lines, "__rt_gdt_ret"@, 83) == 103);
    assert(find_label(lines, "__rt_gdt_ret"@, 82) == 103);
    assert(find_label(lines, "__rt_gdt_ret"@, 81) == 103);
    assert(find_label(lines, "__rt_gdt_ret"@, 80) == 103);
    assert(find_label(lines, "__rt_gdt_ret"@, 79) == 103);
    assert("__rt_gdt_float"@.len() != "__rt_gdt_ret"@.len());
    assert(find_label(lines, "__rt_gdt_ret"@, 78) == 103);
    assert(find_label(lines, "__rt_gdt_ret"@, 77) == 103);
    assert(find_label(lines, "__rt_gdt_ret"@, 76) == 103);
    assert(find_label(lines, "__rt_gdt_ret"@, 75) == 103);
    assert(find_label(lines, "__rt_gdt_ret"@, 74) == 103);
    assert("__rt_gdt_string"@.len() != "__rt_gdt_ret"@.len());
    assert(find_label(lines, "__rt_gdt_ret"@, 73) == 103);
    assert(find_label(lines, "__rt_gdt_ret"@, 72) == 103);
    assert(find_label(lines, "__rt_gdt_ret"@, 71) == 103);
    assert(find_label(lines, "__rt_gdt_ret"@, 70) == 103);
    assert(find_label(lines, "__rt_gdt_ret"@, 69) == 103);
    assert("__rt_gdt_int"@[9] != "__rt_gdt_ret"@[9]);
    assert(find_label(lines, "__rt_gdt_ret"@, 68) == 103);
    assert(find_label(lines, "__rt_gdt_ret"@, 67) == 103);
    assert(find_label(lines, "__rt_gdt_ret"@, 66) == 103);
    assert(find_label(lines, "__rt_gdt_ret"@, 65) == 103);
    assert(find_label(lines, "__rt_gdt_ret"@, 64) == 103);
    assert("__rt_gdt_object_fallback"@.len() != "__rt_gdt_ret"@.len());
    assert(find_label(lines, "__rt_gdt_ret"@, 63) == 103);
    assert(find_label(lines, "__rt_gdt_ret"@, 62) == 103);
    assert(find_label(lines, "__rt_gdt_ret"@, 61) == 103);
    assert(find_label(lines, "__rt_gdt_ret"@, 60) == 103);
    assert("__rt_gdt_class_hit"@.len() != "__rt_gdt_ret"@.len());
    assert(find_label(lines, "__rt_gdt_ret"@, 59) == 103);
    assert(find_label(lines, "__rt_gdt_ret"@, 58) == 103);
    assert(find_label(lines, "__rt_gdt_ret"@, 57) == 103);
    assert(find_label(lines, "__rt_gdt_ret"@, 56) == 103);
    assert(find_label(lines, "__rt_gdt_ret"@, 55) == 103);
    assert(find_label(lines, "__rt_gdt_ret"@, 54) == 103);
    assert(find_label(lines, "__rt_gdt_ret"@, 53) == 103);
    assert(find_label(lines, "__rt_gdt_ret"@, 52) == 103);
    assert(find_label(lines, "__rt_gdt_ret"@, 51) == 103);
    assert("__rt_gdt_class_loop"@.len() != "__rt_gdt_ret"@.len());
    assert(find_label(lines, "__rt_gdt_ret"@, 50) == 103);
    assert(find_label(lines, "__rt_gdt_ret"@, 49) == 103);
    assert(find_label(lines, "__rt_gdt_ret"@, 48) == 103);
    assert(find_label(lines, "__rt_gdt_ret"@, 47) == 103);
    assert(find_label(lines, "__rt_gdt_ret"@, 46) == 103);
    assert(find_label(lines, "__rt_gdt_ret"@, 45) == 103);
    assert(find_label(lines, "__rt_gdt_ret"@, 44) == 103);
    assert(find_label(lines, "__rt_gdt_ret"@, 43) == 103);
    assert("__rt_gdt_object_from_x0"@.len() != "__rt_gdt_ret"@.len());
    assert(find_label(lines, "__rt_gdt_ret"@, 42) == 103);
    assert(find_label(lines, "__rt_gdt_ret"@, 41) == 103);
    assert(find_label(lines, "__rt_gdt_ret"@, 40) == 103);
    assert("__rt_gdt_object_cell"@.len() != "__rt_gdt_ret"@.len());
    assert(find_label(lines, "__rt_gdt_ret"@, 39) == 103);
    assert(find_label(lines, "__rt_gdt_ret"@, 38) == 103);
    assert(find_label(lines, "__rt_gdt_ret"@, 37) == 103);
    assert(find_label(lines, "__rt_gdt_ret"@, 36) == 103);
    assert(find_label(lines, "__rt_gdt_ret"@, 35) == 103);
    assert(find_label(lines, "__rt_gdt_ret"@, 34) == 103);
    assert(find_label(lines, "__rt_gdt_ret"@, 33) == 103);
    assert(find_label(lines, "__rt_gdt_ret"@, 32) == 103);
    assert(find_label(lines, "__rt_gdt_ret"@, 31) == 103);
    assert(find_label(lines, "__rt_gdt_ret"@, 30) == 103);
    assert(find_label(lines, "__rt_gdt_ret"@, 29) == 103);
    assert(find_label(lines, "__rt_gdt_ret"@, 28) == 103);
    assert(find_label(lines, "__rt_gdt_ret"@, 27) == 103);
    assert(find_label(lines, "__rt_gdt_ret"@, 26) == 103);
    assert(find_label(lines, "__rt_gdt_ret"@, 25) == 103);
    assert(find_label(lines, "__rt_gdt_ret"@, 24) == 103);
    assert(find_label(lines, "__rt_gdt_ret"@, 23) == 103);
    assert(find_label(lines, "__rt_gdt_ret"@, 22) == 103);
    assert("__rt_gdt_tags"@.len() != "__rt_gdt_ret"@.len());
    assert(find_label(lines, "__rt_gdt_ret"@, 21) == 103);
    assert(find_label(lines, "__rt_gdt_ret"@, 20) == 103);
    assert(find_label(lines, "__rt_gdt_ret"@, 19) == 103);
    assert(find_label(lines, "__rt_gdt_ret"@, 18) == 103);
    assert(find_label(lines, "__rt_gdt_ret"@, 17) == 103);
    assert(find_label(lines, "__rt_gdt_ret"@, 16) == 103);
    assert(find_label(lines, "__rt_gdt_ret"@, 15) == 103);
    assert(find_label(lines, "__rt_gdt_ret"@, 14) == 103);
    assert(find_label(lines, "__rt_gdt_ret"@, 13) == 103);
    assert(find_label(lines, "__rt_gdt_ret"@, 12) == 103);
    assert(find_label(lines, "__rt_gdt_ret"@, 11) == 103);
    assert(find_label(lines, "__rt_gdt_ret"@, 10) == 103);
    assert(find_label(lines, "__rt_gdt_ret"@, 9) == 103);
    assert(find_label(lines, "__rt_gdt_ret"@, 8) == 103);
    assert(find_label(lines, "__rt_gdt_ret"@, 7) == 103);
    assert("__rt_gdt_dispatch"@.len() != "__rt_gdt_ret"@.len());
    assert(find_label(lines, "__rt_gdt_ret"@, 6) == 103);
    assert(find_label(lines, "__rt_gdt_ret"@, 5) == 103);
    assert(find_label(lines, "__rt_gdt_ret"@, 4) == 103);
    assert(find_label(lines, "__rt_gdt_ret"@, 3) == 103);
    assert("__rt_get_debug_type"@.len() != "__rt_gdt_ret"@.len());
    assert(find_label(lines, "__rt_gdt_ret"@, 2) == 103);
    assert(find_label(lines, "__rt_gdt_ret"@, 1) == 103);
    assert(find_label(lines, "__rt_gdt_ret"@, 0) == 103);
}

/// Where the `get_debug_type` lines define `__rt_gdt_string`.
proof fn lemma_get_debug_type_finds_rt_gdt_string(lines: Seq<Line>, t: Target)
    requires
        lines.len() == 107,
        lines[0] == Line::Blank,
        lines[1] == comment("--- runtime: get_debug_type ---"),
        lines[2] == global("__rt_get_debug_type"),
        lines[3] == ins("sub sp, sp, #32"),
        lines[4] == ins("stp x29, x30, [sp, #16]"),
        lines[5] == ins("add x29, sp, #16"),
        lines[6] == label("__rt_gdt_dispatch"),
        lines[7] == ins("cbz x0, __rt_gdt_null"),
        lines[8] == ins("ldr x9, [x0, #-8]"),
        lines[9] == ins("and x9, x9, #0xff"),
        lines[10] == ins("cmp x9, #2"),
        lines[11] == ins("b.eq __rt_gdt_array"),
        lines[12] == ins("cmp x9, #3"),
        lines[13] == ins("b.eq __rt_gdt_array"),
        lines[14] == ins("cmp x9, #4"),
        lines[15] == ins("b.eq __rt_gdt_object_from_x0"),
        lines[16] == ins("ldr x9, [x0]"),
        lines[17] == ins("cmp x9, #7"),
        lines[18] == ins("b.ne __rt_gdt_tags"),
        lines[19] == ins("ldr x0, [x0, #8]"),
        lines[20] == ins("b __rt_gdt_dispatch"),
        lines[21] == label("__rt_gdt_tags"),
        lines[22] == ins("cmp x9, #0"),
        lines[23] == ins("b.eq __rt_gdt_int"),
        lines[24] == ins("cmp x9, #1"),
        lines[25] == ins("b.eq __rt_gdt_string"),
        lines[26] == ins("cmp x9, #2"),
        lines[27] == ins("b.eq __rt_gdt_float"),
        lines[28] == ins("cmp x9, #3"),
        lines[29] == ins("b.eq __rt_gdt_bool"),
        lines[30] == ins("cmp x9, #4"),
        lines[31] == ins("b.eq __rt_gdt_array"),
        lines[32] == ins("cmp x9, #5"),
        lines[33] == ins("b.eq __rt_gdt_array"),
        lines[34] == ins("cmp x9, #6"),
        lines[35] == ins("b.eq __rt_gdt_object_cell"),
        lines[36] == ins("cmp x9, #9"),
        lines[37] == ins("b.eq __rt_gdt_resource"),
        lines[38] == ins("b __rt_gdt_null"),
        lines[39] == label("__rt_gdt_object_cell"),
        lines[40] == ins("ldr x0, [x0, #8]"),
        lines[41] == ins("cbz x0, __rt_gdt_null"),
        lines[42] == label("__rt_gdt_object_from_x0"),
        lines[43] == ins("ldr x11, [x0]"),
        lines[44] == adrp_line(t.platform, "x9"@, "_classes_by_name_count"@),
        lines[45] == add_lo12_line(t.platform, "x9"@, "x9"@, "_classes_by_name_count"@),
        lines[46] == ins("ldr x9, [x9]"),
        lines[47] == adrp_line(t.platform, "x10"@, "_classes_by_name"@),
        lines[48] == add_lo12_line(t.platform, "x10"@, "x10"@, "_classes_by_name"@),
        lines[49] == ins("mov x12, #0"),
        lines[50] == label("__rt_gdt_class_loop"),
        lines[51] == ins("cmp x12, x9"),
        lines[52] == ins("b.ge __rt_gdt_object_fallback"),
        lines[53] == ins("ldr x13, [x10, #16]"),
        lines[54] == ins("cmp x13, x11"),
        lines[55] == ins("b.eq __rt_gdt_class_hit"),
        lines[56] == ins("add x10, x10, #48"),
        lines[57] == ins("add x12, x12, #1"),
        lines[58] == ins("b __rt_gdt_class_loop"),
        lines[59] == label("__rt_gdt_class_hit"),
        lines[60] == ins("ldr x1, [x10, #8]"),
        lines[61] == ins("ldr x0, [x10]"),
        lines[62] == ins("b __rt_gdt_ret"),
        lines[63] == label("__rt_gdt_object_fallback"),
        lines[64] == adrp_line(t.platform, "x0"@, "_gdt_object"@),
        lines[65] == add_lo12_line(t.platform, "x0"@, "x0"@, "_gdt_object"@),
        lines[66] == ins("mov x1, #6"),
        lines[67] == ins("b __rt_gdt_ret"),
        lines[68] == Line::Label("__rt_gdt_int"@),
        lines[69] == adrp_line(t.platform, "x0"@, "_gdt_int"@),
        lines[70] == add_lo12_line(t.platform, "x0"@, "x0"@, "_gdt_int"@),
        lines[71] == ins_int("mov x1, #", 3, ""),
        lines[72] == ins("b __rt_gdt_ret"),
        lines[73] == Line::Label("__rt_gdt_string"@),
    ensures
        find_label(lines, "__rt_gdt_string"@, 0) == 73,
{
    reveal_strlit("__rt_gdt_class_hit");
    reveal_strlit("__rt_gdt_class_loop");
    reveal_strlit("__rt_gdt_dispatch");
    reveal_strlit("__rt_gdt_int");
    reveal_strlit("__rt_gdt_object_cell");
    reveal_strlit("__rt_gdt_object_fallback");
    reveal_strlit("__rt_gdt_object_from_x0");
    reveal_strlit("__rt_gdt_string");
    reveal_strlit("__rt_gdt_tags");
    reveal_strlit("__rt_get_debug_type");
    assert(find_label(lines, "__rt_gdt_string"@, 73) == 73);
    assert(find_label(lines, "__rt_gdt_string"@, 72) == 73);
    assert(find_label(lines, "__rt_gdt_string"@, 71) == 73);
    assert(find_label(lines, "__rt_gdt_string"@, 70) == 73);
    assert(find_label(lines, "__rt_gdt_string"@, 69) == 73);
    assert("__rt_gdt_int"@.len() != "__rt_gdt_string"@.len());
    assert(find_label(lines, "__rt_gdt_string"@, 68) == 73);
    assert(find_label(lines, "__rt_gdt_string"@, 67) == 73);
    assert(find_label(lines, "__rt_gdt_string"@, 66) == 73);
    assert(find_label(lines, "__rt_gdt_string"@, 65) == 73);
    assert(find_label(lines, "__rt_gdt_string"@, 64) == 73);
    assert("__rt_gdt_object_fallback"@.len() != "__rt_gdt_string"@.len());
    assert(find_label(lines, "__rt_gdt_string"@, 63) == 73);
    assert(find_label(lines, "__rt_gdt_string"@, 62) == 73);
    assert(find_label(lines, "__rt_gdt_string"@, 61) == 73);
    assert(find_label(lines, "__rt_gdt_string"@, 60) == 73);
    assert("__rt_gdt_class_hit"@.len() != "__rt_gdt_string"@.len());
    assert(find_label(lines, "__rt_gdt_string"@, 59) == 73);
    assert(find_label(lines, "__rt_gdt_string"@, 58) == 73);
    assert(find_label(lines, "__rt_gdt_string"@, 57) == 73);
    assert(find_label(lines, "__rt_gdt_string"@, 56) == 73);
    assert(find_label(lines, "__rt_gdt_string"@, 55) == 73);
    assert(find_label(lines, "__rt_gdt_string"@, 54) == 73);
    assert(find_label(lines, "__rt_gdt_string"@, 53) == 73);
    assert(find_label(lines, "__rt_gdt_string"@, 52) == 73);
    assert(find_label(lines, "__rt_gdt_string"@, 51) == 73);
    assert("__rt_gdt_class_loop"@.len() != "__rt_gdt_string"@.len());
    assert(find_label(lines, "__rt_gdt_string"@, 50) == 73);
    assert(find_label(lines, "__rt_gdt_string"@, 49) == 73);
    assert(find_label(lines, "__rt_gdt_string"@, 48) == 73);
    assert(find_label(lines, "__rt_gdt_string"@, 47) == 73);
    assert(find_label(lines, "__rt_gdt_string"@, 46) == 73);
    assert(find_label(lines, "__rt_gdt_string"@, 45) == 73);
    assert(find_label(lines, "__rt_gdt_string"@, 44) == 73);
    assert(find_label(lines, "__rt_gdt_string"@, 43) == 73);
    assert("__rt_gdt_object_from_x0"@.len() != "__rt_gdt_string"@.len());
    assert(find_label(lines, "__rt_gdt_string"@, 42) == 73);
    assert(find_label(lines, "__rt_gdt_string"@, 41) == 73);
    assert(find_label(lines, "__rt_gdt_string"@, 40) == 73);
    assert("__rt_gdt_object_cell"@.len() != "__rt_gdt_string"@.len());
    assert(find_label(lines, "__rt_gdt_string"@, 39) == 73);
    assert(find_label(lines, "__rt_gdt_string"@, 38) == 73);
    assert(find_label(lines, "__rt_gdt_string"@, 37) == 73);
    assert(find_label(lines, "__rt_gdt_string"@, 36) == 73);
    assert(find_label(lines, "__rt_gdt_string"@, 35) == 73);
    assert(find_label(lines, "__rt_gdt_string"@, 34) == 73);
    assert(find_label(lines, "__rt_gdt_string"@, 33) == 73);
    assert(find_label(lines, "__rt_gdt_string"@, 32) == 73);
    assert(find_label(lines, "__rt_gdt_string"@, 31) == 73);
    assert(find_label(lines, "__rt_gdt_string"@, 30) == 73);
    assert(find_label(lines, "__rt_gdt_string"@, 29) == 73);
    assert(find_label(lines, "__rt_gdt_string"@, 28) == 73);
    assert(find_label(lines, "__rt_gdt_string"@, 27) == 73);
    assert(find_label(lines, "__rt_gdt_string"@, 26) == 73);
    assert(find_label(lines, "__rt_gdt_string"@, 25) == 73);
    assert(find_label(lines, "__rt_gdt_string"@, 24) == 73);
    assert(find_label(lines, "__rt_gdt_string"@, 23) == 73);
    assert(find_label(lines, "__rt_gdt_string"@, 22) == 73);
    assert("__rt_gdt_tags"@.len() != "__rt_gdt_string"@.len());
    assert(find_label(lines, "__rt_gdt_string"@, 21) == 73);
    assert(find_label(lines, "__rt_gdt_string"@, 20) == 73);
    assert(find_label(lines, "__rt_gdt_string"@, 19) == 73);
    assert(find_label(lines, "__rt_gdt_string"@, 18) == 73);
    assert(find_label(lines, "__rt_gdt_string"@, 17) == 73);
    assert(find_label(lines, "__rt_gdt_string"@, 16) == 73);
    assert(find_label(lines, "__rt_gdt_string"@, 15) == 73);
    assert(find_label(lines, "__rt_gdt_string"@, 14) == 73);
    assert(find_label(lines, "__rt_gdt_string"@, 13) == 73);
    assert(find_label(lines, "__rt_gdt_string"@, 12) == 73);
    assert(find_label(lines, "__rt_gdt_string"@, 11) == 73);
    assert(find_label(lines, "__rt_gdt_string"@, 10) == 73);
    assert(find_label(lines, "__rt_gdt_string"@, 9) == 73);
    assert(find_label(lines, "__rt_gdt_string"@, 8) == 73);
    assert(find_label(lines, "__rt_gdt_string"@, 7) == 73);
    assert("__rt_gdt_dispatch"@.len() != "__rt_gdt_string"@.len());
    assert(find_label(lines, "__rt_gdt_string"@, 6) == 73);
    assert(find_label(lines, "__rt_gdt_string"@, 5) == 73);
    assert(find_label(lines, "__rt_gdt_string"@, 4) == 73);
    assert(find_label(lines, "__rt_gdt_string"@, 3) == 73);
    assert("__rt_get_debug_type"@.len() != "__rt_gdt_string"@.len());
    assert(find_label(lines, "__rt_gdt_string"@, 2) == 73);
    assert(find_label(lines, "__rt_gdt_string"@, 1) == 73);
    assert(find_label(lines, "__rt_gdt_string"@, 0) == 73);
}

/// Where the `get_debug_type` lines define `__rt_gdt_tags`.
proof fn lemma_get_debug_type_finds_rt_gdt_tags(lines: Seq<Line>, t: Target)
    requires
        lines.len() == 107,
        lines[0] == Line::Blank,
        lines[1] == comment("--- runtime: get_debug_type ---"),
        lines[2] == global("__rt_get_debug_type"),
        lines[3] == ins("sub sp, sp, #32"),
        lines[4] == ins("stp x29, x30, [sp, #16]"),
        lines[5] == ins("add x29, sp, #16"),
        lines[6] == label("__rt_gdt_dispatch"),
        lines[7] == ins("cbz x0, __rt_gdt_null"),
        lines[8] == ins("ldr x9, [x0, #-8]"),
        lines[9] == ins("and x9, x9, #0xff"),
        lines[10] == ins("cmp x9, #2"),
        lines[11] == ins("b.eq __rt_gdt_array"),
        lines[12] == ins("cmp x9, #3"),
        lines[13] == ins("b.eq __rt_gdt_array"),
        lines[14] == ins("cmp x9, #4"),
        lines[15] == ins("b.eq __rt_gdt_object_from_x0"),
        lines[16] == ins("ldr x9, [x0]"),
        lines[17] == ins("cmp x9, #7"),
        lines[18] == ins("b.ne __rt_gdt_tags"),
        lines[19] == ins("ldr x0, [x0, #8]"),
        lines[20] == ins("b __rt_gdt_dispatch"),
        lines[21] == label("__rt_gdt_tags"),
    ensures
        find_label(lines, "__rt_gdt_tags"@, 0) == 21,
{
    reveal_strlit("__rt_gdt_dispatch");
    reveal_strlit("__rt_gdt_tags");
    reveal_strlit("__rt_get_debug_type");
    assert(find_label(lines, "__rt_gdt_tags"@, 21) == 21);
    assert(find_label(lines, "__rt_gdt_tags"@, 20) == 21);
    assert(find_label(lines, "__rt_gdt_tags"@, 19) == 21);
    assert(find_label(lines, "__rt_gdt_tags"@, 18) == 21);
    assert(find_label(lines, "__rt_gdt_tags"@, 17) == 21);
    assert(find_label(lines, "__rt_gdt_tags"@, 16) == 21);
    assert(find_label(lines, "__rt_gdt_tags"@, 15) == 21);
    assert(find_label(lines, "__rt_gdt_tags"@, 14) == 21);
    assert(find_label(lines, "__rt_gdt_tags"@, 13) == 21);
    assert(find_label(lines, "__rt_gdt_tags"@, 12) == 21);
    assert(find_label(lines, "__rt_gdt_tags"@, 11) == 21);
    assert(find_label(lines, "__rt_gdt_tags"@, 10) == 21);
    assert(find_label(lines, "__rt_gdt_tags"@, 9) == 21);
    assert(find_label(lines, "__rt_gdt_tags"@, 8) == 21);
    assert(find_label(lines, "__rt_gdt_tags"@, 7) == 21);
    assert("__rt_gdt_dispatch"@.len() != "__rt_gdt_tags"@.len());
    assert(find_label(lines, "__rt_gdt_tags"@, 6) == 21);
    assert(find_label(lines, "__rt_gdt_tags"@, 5) == 21);
    assert(find_label(lines, "__rt_gdt_tags"@, 4) == 21);
    assert(find_label(lines, "__rt_gdt_tags"@, 3) == 21);
    assert("__rt_get_debug_type"@.len() != "__rt_gdt_tags"@.len());
    assert(find_label(lines, "__rt_gdt_tags"@, 2) == 21);
    assert(find_label(lines, "__rt_gdt_tags"@, 1) == 21);
    assert(find_label(lines, "__rt_gdt_tags"@, 0) == 21);
}

/// Where the `get_debug_type` lines define `__rt_get_debug_type`.
proof fn lemma_get_debug_type_finds_rt_get_debug_type(lines: Seq<Line>, t: Target)
    requires
        lines.len() == 107,
        lines[0] == Line::Blank,
        lines[1] == comment("--- runtime: get_debug_type ---"),
        lines[2] == global("__rt_get_debug_type"),
    ensures
        find_label(lines, "__rt_get_debug_type"@, 0) == 2,
{
    reveal_strlit("__rt_get_debug_type");
    assert(find_label(lines, "__rt_get_debug_type"@, 2) == 2);
    assert(find_label(lines, "__rt_get_debug_type"@, 1) == 2);
    assert(find_label(lines, "__rt_get_debug_type"@, 0) == 2);
}

#[verifier::rlimit(50)]
#[verifier::spinoff_prover]
proof fn lemma_get_debug_type_decode_3()
    ensures
        decode("sub sp, sp, #32"@) == Some(Instr::Sub(31, 31, Operand::Imm(32))),
{
    reveal(decode);
    reveal_with_fuel(find_char, 19);
    reveal_strlit("sub sp, sp, #32");

}

#[verifier::rlimit(50)]
#[verifier::spinoff_prover]
proof fn lemma_get_debug_type_decode_4()
    ensures
        decode("stp x29, x30, [sp, #16]"@) == Some(Instr::Stp(29, 30, Address::Offset(31, 16))),
{
    reveal(decode);
    reveal_with_fuel(find_char, 27);
    reveal_strlit("stp x29, x30, [sp, #16]");

}

#[verifier::rlimit(50)]
#[verifier::spinoff_prover]
proof fn lemma_get_debug_type_decode_5()
    ensures
        decode("add x29, sp, #16"@) == Some(Instr::Add(29, 31, Operand::Imm(16))),
{
    reveal(decode);
    reveal_with_fuel(find_char, 20);
    reveal_strlit("add x29, sp, #16");

}

#[verifier::rlimit(50)]
#[verifier::spinoff_prover]
proof fn lemma_get_debug_type_decode_7()
    ensures
        decode("cbz x0, __rt_gdt_null"@) == Some(Instr::Cbz(0, "__rt_gdt_null"@)),
{
    reveal(decode);
    reveal_with_fuel(find_char, 25);
    reveal_strlit("__rt_gdt_null");
    reveal_strlit("cbz x0, __rt_gdt_null");
    assert("cbz x0, __rt_gdt_null"@.subrange(8, 21) =~= "__rt_gdt_null"@);
}

#[verifier::rlimit(50)]
#[verifier::spinoff_prover]
proof fn lemma_get_debug_type_decode_8()
    ensures
        decode("ldr x9, [x0, #-8]"@) == Some(Instr::Ldr(9, Address::Offset(0, -8))),
{
    reveal(decode);
    reveal_with_fuel(find_char, 21);
    reveal_strlit("ldr x9, [x0, #-8]");

}

#[verifier::rlimit(50)]
#[verifier::spinoff_prover]
proof fn lemma_get_debug_type_decode_9()
    ensures
        decode("and x9, x9, #0xff"@) == Some(Instr::AndImm(9, 9, 255)),
{
    reveal(decode);
    reveal_with_fuel(find_char, 21);
    reveal_strlit("and x9, x9, #0xff");

}

#[verifier::rlimit(50)]
#[verifier::spinoff_prover]
proof fn lemma_get_debug_type_decode_10()
    ensures
        decode("cmp x9, #2"@) == Some(Instr::Cmp(9, Operand::Imm(2))),
{
    reveal(decode);
    reveal_with_fuel(find_char, 14);
    reveal_strlit("cmp x9, #2");

}

#[verifier::rlimit(50)]
#[verifier::spinoff_prover]
proof fn lemma_get_debug_type_decode_11()
    ensures
        decode("b.eq __rt_gdt_array"@) == Some(Instr::BCond(Cond::Eq, "__rt_gdt_array"@)),
{
    reveal(decode);
    reveal_with_fuel(find_char, 23);
    reveal_strlit("__rt_gdt_array");
    reveal_strlit("b.eq __rt_gdt_array");
    assert("b.eq __rt_gdt_array"@.subrange(5, 19) =~= "__rt_gdt_array"@);
}

#[verifier::rlimit(50)]
#[verifier::spinoff_prover]
proof fn lemma_get_debug_type_decode_12()
    ensures
        decode("cmp x9, #3"@) == Some(Instr::Cmp(9, Operand::Imm(3))),
{
    reveal(decode);
    reveal_with_fuel(find_char, 14);
    reveal_strlit("cmp x9, #3");

}

#[verifier::rlimit(50)]
#[verifier::spinoff_prover]
proof fn lemma_get_debug_type_decode_14()
    ensures
        decode("cmp x9, #4"@) == Some(Instr::Cmp(9, Operand::Imm(4))),
{
    reveal(decode);
    reveal_with_fuel(find_char, 14);
    reveal_strlit("cmp x9, #4");

}

#[verifier::rlimit(50)]
#[verifier::spinoff_prover]
proof fn lemma_get_debug_type_decode_15()
    ensures
        decode("b.eq __rt_gdt_object_from_x0"@) == Some(Instr::BCond(Cond::Eq, "__rt_gdt_object_from_x0"@)),
{
    reveal(decode);
    reveal_with_fuel(find_char, 32);
    reveal_strlit("__rt_gdt_object_from_x0");
    reveal_strlit("b.eq __rt_gdt_object_from_x0");
    assert("b.eq __rt_gdt_object_from_x0"@.subrange(5, 28) =~= "__rt_gdt_object_from_x0"@);
}

#[verifier::rlimit(50)]
#[verifier::spinoff_prover]
proof fn lemma_get_debug_type_decode_16()
    ensures
        decode("ldr x9, [x0]"@) == Some(Instr::Ldr(9, Address::Offset(0, 0))),
{
    reveal(decode);
    reveal_with_fuel(find_char, 16);
    reveal_strlit("ldr x9, [x0]");

}

#[verifier::rlimit(50)]
#[verifier::spinoff_prover]
proof fn lemma_get_debug_type_decode_17()
    ensures
        decode("cmp x9, #7"@) == Some(Instr::Cmp(9, Operand::Imm(7))),
{
    reveal(decode);
    reveal_with_fuel(find_char, 14);
    reveal_strlit("cmp x9, #7");

}

#[verifier::rlimit(50)]
#[verifier::spinoff_prover]
proof fn lemma_get_debug_type_decode_18()
    ensures
        decode("b.ne __rt_gdt_tags"@) == Some(Instr::BCond(Cond::Ne, "__rt_gdt_tags"@)),
{
    reveal(decode);
    reveal_with_fuel(find_char, 22);
    reveal_strlit("__rt_gdt_tags");
    reveal_strlit("b.ne __rt_gdt_tags");
    assert("b.ne __rt_gdt_tags"@.subrange(5, 18) =~= "__rt_gdt_tags"@);
}

#[verifier::rlimit(50)]
#[verifier::spinoff_prover]
proof fn lemma_get_debug_type_decode_19()
    ensures
        decode("ldr x0, [x0, #8]"@) == Some(Instr::Ldr(0, Address::Offset(0, 8))),
{
    reveal(decode);
    reveal_with_fuel(find_char, 20);
    reveal_strlit("ldr x0, [x0, #8]");

}

#[verifier::rlimit(50)]
#[verifier::spinoff_prover]
proof fn lemma_get_debug_type_decode_20()
    ensures
        decode("b __rt_gdt_dispatch"@) == Some(Instr::B("__rt_gdt_dispatch"@)),
{
    reveal(decode);
    reveal_with_fuel(find_char, 23);
    reveal_strlit("__rt_gdt_dispatch");
    reveal_strlit("b __rt_gdt_dispatch");
    assert("b __rt_gdt_dispatch"@.subrange(2, 19) =~= "__rt_gdt_dispatch"@);
}

#[verifier::rlimit(50)]
#[verifier::spinoff_prover]
proof fn lemma_get_debug_type_decode_22()
    ensures
        decode("cmp x9, #0"@) == Some(Instr::Cmp(9, Operand::Imm(0))),
{
    reveal(decode);
    reveal_with_fuel(find_char, 14);
    reveal_strlit("cmp x9, #0");

}

#[verifier::rlimit(50)]
#[verifier::spinoff_prover]
proof fn lemma_get_debug_type_decode_23()
    ensures
        decode("b.eq __rt_gdt_int"@) == Some(Instr::BCond(Cond::Eq, "__rt_gdt_int"@)),
{
    reveal(decode);
    reveal_with_fuel(find_char, 21);
    reveal_strlit("__rt_gdt_int");
    reveal_strlit("b.eq __rt_gdt_int");
    assert("b.eq __rt_gdt_int"@.subrange(5, 17) =~= "__rt_gdt_int"@);
}

#[verifier::rlimit(50)]
#[verifier::spinoff_prover]
proof fn lemma_get_debug_type_decode_24()
    ensures
        decode("cmp x9, #1"@) == Some(Instr::Cmp(9, Operand::Imm(1))),
{
    reveal(decode);
    reveal_with_fuel(find_char, 14);
    reveal_strlit("cmp x9, #1");

}

#[verifier::rlimit(50)]
#[verifier::spinoff_prover]
proof fn lemma_get_debug_type_decode_25()
    ensures
        decode("b.eq __rt_gdt_string"@) == Some(Instr::BCond(Cond::Eq, "__rt_gdt_string"@)),
{
    reveal(decode);
    reveal_with_fuel(find_char, 24);
    reveal_strlit("__rt_gdt_string");
    reveal_strlit("b.eq __rt_gdt_string");
    assert("b.eq __rt_gdt_string"@.subrange(5, 20) =~= "__rt_gdt_string"@);
}

#[verifier::rlimit(50)]
#[verifier::spinoff_prover]
proof fn lemma_get_debug_type_decode_27()
    ensures
        decode("b.eq __rt_gdt_float"@) == Some(Instr::BCond(Cond::Eq, "__rt_gdt_float"@)),
{
    reveal(decode);
    reveal_with_fuel(find_char, 23);
    reveal_strlit("__rt_gdt_float");
    reveal_strlit("b.eq __rt_gdt_float");
    assert("b.eq __rt_gdt_float"@.subrange(5, 19) =~= "__rt_gdt_float"@);
}

#[verifier::rlimit(50)]
#[verifier::spinoff_prover]
proof fn lemma_get_debug_type_decode_29()
    ensures
        decode("b.eq __rt_gdt_bool"@) == Some(Instr::BCond(Cond::Eq, "__rt_gdt_bool"@)),
{
    reveal(decode);
    reveal_with_fuel(find_char, 22);
    reveal_strlit("__rt_gdt_bool");
    reveal_strlit("b.eq __rt_gdt_bool");
    assert("b.eq __rt_gdt_bool"@.subrange(5, 18) =~= "__rt_gdt_bool"@);
}

#[verifier::rlimit(50)]
#[verifier::spinoff_prover]
proof fn lemma_get_debug_type_decode_32()
    ensures
        decode("cmp x9, #5"@) == Some(Instr::Cmp(9, Operand::Imm(5))),
{
    reveal(decode);
    reveal_with_fuel(find_char, 14);
    reveal_strlit("cmp x9, #5");

}

#[verifier::rlimit(50)]
#[verifier::spinoff_prover]
proof fn lemma_get_debug_type_decode_34()
    ensures
        decode("cmp x9, #6"@) == Some(Instr::Cmp(9, Operand::Imm(6))),
{
    reveal(decode);
    reveal_with_fuel(find_char, 14);
    reveal_strlit("cmp x9, #6");

}

#[verifier::rlimit(50)]
#[verifier::spinoff_prover]
proof fn lemma_get_debug_type_decode_35()
    ensures
        decode("b.eq __rt_gdt_object_cell"@) == Some(Instr::BCond(Cond::Eq, "__rt_gdt_object_cell"@)),
{
    reveal(decode);
    reveal_with_fuel(find_char, 29);
    reveal_strlit("__rt_gdt_object_cell");
    reveal_strlit("b.eq __rt_gdt_object_cell");
    assert("b.eq __rt_gdt_object_cell"@.subrange(5, 25) =~= "__rt_gdt_object_cell"@);
}

#[verifier::rlimit(50)]
#[verifier::spinoff_prover]
proof fn lemma_get_debug_type_decode_36()
    ensures
        decode("cmp x9, #9"@) == Some(Instr::Cmp(9, Operand::Imm(9))),
{
    reveal(decode);
    reveal_with_fuel(find_char, 14);
    reveal_strlit("cmp x9, #9");

}

#[verifier::rlimit(50)]
#[verifier::spinoff_prover]
proof fn lemma_get_debug_type_decode_37()
    ensures
        decode("b.eq __rt_gdt_resource"@) == Some(Instr::BCond(Cond::Eq, "__rt_gdt_resource"@)),
{
    reveal(decode);
    reveal_with_fuel(find_char, 26);
    reveal_strlit("__rt_gdt_resource");
    reveal_strlit("b.eq __rt_gdt_resource");
    assert("b.eq __rt_gdt_resource"@.subrange(5, 22) =~= "__rt_gdt_resource"@);
}

#[verifier::rlimit(50)]
#[verifier::spinoff_prover]
proof fn lemma_get_debug_type_decode_38()
    ensures
        decode("b __rt_gdt_null"@) == Some(Instr::B("__rt_gdt_null"@)),
{
    reveal(decode);
    reveal_with_fuel(find_char, 19);
    reveal_strlit("__rt_gdt_null");
    reveal_strlit("b __rt_gdt_null");
    assert("b __rt_gdt_null"@.subrange(2, 15) =~= "__rt_gdt_null"@);
}

#[verifier::rlimit(50)]
#[verifier::spinoff_prover]
proof fn lemma_get_debug_type_decode_43()
    ensures
        decode("ldr x11, [x0]"@) == Some(Instr::Ldr(11, Address::Offset(0, 0))),
{
    reveal(decode);
    reveal_with_fuel(find_char, 17);
    reveal_strlit("ldr x11, [x0]");

}

#[verifier::rlimit(50)]
#[verifier::spinoff_prover]
proof fn lemma_get_debug_type_decode_44(p: Platform)
    ensures
        decode(instruction_text(adrp_line(p, "x9"@, "_classes_by_name_count"@))) == Some(Instr::Adrp(9, "_classes_by_name_count"@)),
{
    reveal(decode);
    reveal_with_fuel(find_char, 40);
    if p == Platform::MacOS {
        reveal_strlit(", ");
        reveal_strlit(", :lo12:");
        reveal_strlit("@PAGE");
        reveal_strlit("@PAGEOFF");
        reveal_strlit("_classes_by_name_count");
        reveal_strlit("add ");
        reveal_strlit("adrp ");
        reveal_strlit("adrp x9, _classes_by_name_count@PAGE");
        reveal_strlit("x9");
        assert("adrp "@ + "x9"@ + ", "@ + "_classes_by_name_count"@ + "@PAGE"@ =~= "adrp x9, _classes_by_name_count@PAGE"@);
        assert("adrp x9, _classes_by_name_count@PAGE"@.subrange(9, 31) =~= "_classes_by_name_count"@);
    } else {
        reveal_strlit(", ");
        reveal_strlit(", :lo12:");
        reveal_strlit("@PAGE");
        reveal_strlit("@PAGEOFF");
        reveal_strlit("_classes_by_name_count");
        reveal_strlit("add ");
        reveal_strlit("adrp ");
        reveal_strlit("adrp x9, _classes_by_name_count");
        reveal_strlit("x9");
        assert("adrp "@ + "x9"@ + ", "@ + "_classes_by_name_count"@ =~= "adrp x9, _classes_by_name_count"@);
        assert("adrp x9, _classes_by_name_count"@.subrange(9, 31) =~= "_classes_by_name_count"@);
    }
}

#[verifier::rlimit(50)]
#[verifier::spinoff_prover]
proof fn lemma_get_debug_type_decode_45(p: Platform)
    ensures
        decode(instruction_text(add_lo12_line(p, "x9"@, "x9"@, "_classes_by_name_count"@))) == Some(Instr::AddPageOffset(9, 9, "_classes_by_name_count"@)),
{
    reveal(decode);
    reveal_with_fuel(find_char, 46);
    if p == Platform::MacOS {
        reveal_strlit(", ");
        reveal_strlit(", :lo12:");
        reveal_strlit("@PAGE");
        reveal_strlit("@PAGEOFF");
        reveal_strlit("_classes_by_name_count");
        reveal_strlit("add ");
        reveal_strlit("add x9, x9, _classes_by_name_count@PAGEOFF");
        reveal_strlit("adrp ");
        reveal_strlit("x9");
        assert("add "@ + "x9"@ + ", "@ + "x9"@ + ", "@ + "_classes_by_name_count"@ + "@PAGEOFF"@ =~= "add x9, x9, _classes_by_name_count@PAGEOFF"@);
        assert("add x9, x9, _classes_by_name_count@PAGEOFF"@.subrange(12, 34) =~= "_classes_by_name_count"@);
    } else {
        reveal_strlit(", ");
        reveal_strlit(", :lo12:");
        reveal_strlit("@PAGE");
        reveal_strlit("@PAGEOFF");
        reveal_strlit("_classes_by_name_count");
        reveal_strlit("add ");
        reveal_strlit("add x9, x9, :lo12:_classes_by_name_count");
        reveal_strlit("adrp ");
        reveal_strlit("x9");
        assert("add "@ + "x9"@ + ", "@ + "x9"@ + ", :lo12:"@ + "_classes_by_name_count"@ =~= "add x9, x9, :lo12:_classes_by_name_count"@);
        assert("add x9, x9, :lo12:_classes_by_name_count"@.subrange(18, 40) =~= "_classes_by_name_count"@);
    }
}

#[verifier::rlimit(50)]
#[verifier::spinoff_prover]
proof fn lemma_get_debug_type_decode_46()
    ensures
        decode("ldr x9, [x9]"@) == Some(Instr::Ldr(9, Address::Offset(9, 0))),
{
    reveal(decode);
    reveal_with_fuel(find_char, 16);
    reveal_strlit("ldr x9, [x9]");

}

#[verifier::rlimit(50)]
#[verifier::spinoff_prover]
proof fn lemma_get_debug_type_decode_47(p: Platform)
    ensures
        decode(instruction_text(adrp_line(p, "x10"@, "_classes_by_name"@))) == Some(Instr::Adrp(10, "_classes_by_name"@)),
{
    reveal(decode);
    reveal_with_fuel(find_char, 35);
    if p == Platform::MacOS {
        reveal_strlit(", ");
        reveal_strlit(", :lo12:");
        reveal_strlit("@PAGE");
        reveal_strlit("@PAGEOFF");
        reveal_strlit("_classes_by_name");
        reveal_strlit("add ");
        reveal_strlit("adrp ");
        reveal_strlit("adrp x10, _classes_by_name@PAGE");
        reveal_strlit("x10");
        assert("adrp "@ + "x10"@ + ", "@ + "_classes_by_name"@ + "@PAGE"@ =~= "adrp x10, _classes_by_name@PAGE"@);
        assert("adrp x10, _classes_by_name@PAGE"@.subrange(10, 26) =~= "_classes_by_name"@);
    } else {
        reveal_strlit(", ");
        reveal_strlit(", :lo12:");
        reveal_strlit("@PAGE");
        reveal_strlit("@PAGEOFF");
        reveal_strlit("_classes_by_name");
        reveal_strlit("add ");
        reveal_strlit("adrp ");
        reveal_strlit("adrp x10, _classes_by_name");
        reveal_strlit("x10");
        assert("adrp "@ + "x10"@ + ", "@ + "_classes_by_name"@ =~= "adrp x10, _classes_by_name"@);
        assert("adrp x10, _classes_by_name"@.subrange(10, 26) =~= "_classes_by_name"@);
    }
}

#[verifier::rlimit(50)]
#[verifier::spinoff_prover]
proof fn lemma_get_debug_type_decode_48(p: Platform)
    ensures
        decode(instruction_text(add_lo12_line(p, "x10"@, "x10"@, "_classes_by_name"@))) == Some(Instr::AddPageOffset(10, 10, "_classes_by_name"@)),
{
    reveal(decode);
    reveal_with_fuel(find_char, 42);
    if p == Platform::MacOS {
        reveal_strlit(", ");
        reveal_strlit(", :lo12:");
        reveal_strlit("@PAGE");
        reveal_strlit("@PAGEOFF");
        reveal_strlit("_classes_by_name");
        reveal_strlit("add ");
        reveal_strlit("add x10, x10, _classes_by_name@PAGEOFF");
        reveal_strlit("adrp ");
        reveal_strlit("x10");
        assert("add "@ + "x10"@ + ", "@ + "x10"@ + ", "@ + "_classes_by_name"@ + "@PAGEOFF"@ =~= "add x10, x10, _classes_by_name@PAGEOFF"@);
        assert("add x10, x10, _classes_by_name@PAGEOFF"@.subrange(14, 30) =~= "_classes_by_name"@);
    } else {
        reveal_strlit(", ");
        reveal_strlit(", :lo12:");
        reveal_strlit("@PAGE");
        reveal_strlit("@PAGEOFF");
        reveal_strlit("_classes_by_name");
        reveal_strlit("add ");
        reveal_strlit("add x10, x10, :lo12:_classes_by_name");
        reveal_strlit("adrp ");
        reveal_strlit("x10");
        assert("add "@ + "x10"@ + ", "@ + "x10"@ + ", :lo12:"@ + "_classes_by_name"@ =~= "add x10, x10, :lo12:_classes_by_name"@);
        assert("add x10, x10, :lo12:_classes_by_name"@.subrange(20, 36) =~= "_classes_by_name"@);
    }
}

#[verifier::rlimit(50)]
#[verifier::spinoff_prover]
proof fn lemma_get_debug_type_decode_49()
    ensures
        decode("mov x12, #0"@) == Some(Instr::Mov(12, Operand::Imm(0))),
{
    reveal(decode);
    reveal_with_fuel(find_char, 15);
    reveal_strlit("mov x12, #0");

}

#[verifier::rlimit(50)]
#[verifier::spinoff_prover]
proof fn lemma_get_debug_type_decode_51()
    ensures
        decode("cmp x12, x9"@) == Some(Instr::Cmp(12, Operand::Reg(9))),
{
    reveal(decode);
    reveal_with_fuel(find_char, 15);
    reveal_strlit("cmp x12, x9");

}

#[verifier::rlimit(50)]
#[verifier::spinoff_prover]
proof fn lemma_get_debug_type_decode_52()
    ensures
        decode("b.ge __rt_gdt_object_fallback"@) == Some(Instr::BCond(Cond::Ge, "__rt_gdt_object_fallback"@)),
{
    reveal(decode);
    reveal_with_fuel(find_char, 33);
    reveal_strlit("__rt_gdt_object_fallback");
    reveal_strlit("b.ge __rt_gdt_object_fallback");
    assert("b.ge __rt_gdt_object_fallback"@.subrange(5, 29) =~= "__rt_gdt_object_fallback"@);
}

#[verifier::rlimit(50)]
#[verifier::spinoff_prover]
proof fn lemma_get_debug_type_decode_53()
    ensures
        decode("ldr x13, [x10, #16]"@) == Some(Instr::Ldr(13, Address::Offset(10, 16))),
{
    reveal(decode);
    reveal_with_fuel(find_char, 23);
    reveal_strlit("ldr x13, [x10, #16]");

}

#[verifier::rlimit(50)]
#[verifier::spinoff_prover]
proof fn lemma_get_debug_type_decode_54()
    ensures
        decode("cmp x13, x11"@) == Some(Instr::Cmp(13, Operand::Reg(11))),
{
    reveal(decode);
    reveal_with_fuel(find_char, 16);
    reveal_strlit("cmp x13, x11");

}

#[verifier::rlimit(50)]
#[verifier::spinoff_prover]
proof fn lemma_get_debug_type_decode_55()
    ensures
        decode("b.eq __rt_gdt_class_hit"@) == Some(Instr::BCond(Cond::Eq, "__rt_gdt_class_hit"@)),
{
    reveal(decode);
    reveal_with_fuel(find_char, 27);
    reveal_strlit("__rt_gdt_class_hit");
    reveal_strlit("b.eq __rt_gdt_class_hit");
    assert("b.eq __rt_gdt_class_hit"@.subrange(5, 23) =~= "__rt_gdt_class_hit"@);
}

#[verifier::rlimit(50)]
#[verifier::spinoff_prover]
proof fn lemma_get_debug_type_decode_56()
    ensures
        decode("add x10, x10, #48"@) == Some(Instr::Add(10, 10, Operand::Imm(48))),
{
    reveal(decode);
    reveal_with_fuel(find_char, 21);
    reveal_strlit("add x10, x10, #48");

}

#[verifier::rlimit(50)]
#[verifier::spinoff_prover]
proof fn lemma_get_debug_type_decode_57()
    ensures
        decode("add x12, x12, #1"@) == Some(Instr::Add(12, 12, Operand::Imm(1))),
{
    reveal(decode);
    reveal_with_fuel(find_char, 20);
    reveal_strlit("add x12, x12, #1");

}

#[verifier::rlimit(50)]
#[verifier::spinoff_prover]
proof fn lemma_get_debug_type_decode_58()
    ensures
        decode("b __rt_gdt_class_loop"@) == Some(Instr::B("__rt_gdt_class_loop"@)),
{
    reveal(decode);
    reveal_with_fuel(find_char, 25);
    reveal_strlit("__rt_gdt_class_loop");
    reveal_strlit("b __rt_gdt_class_loop");
    assert("b __rt_gdt_class_loop"@.subrange(2, 21) =~= "__rt_gdt_class_loop"@);
}

#[verifier::rlimit(50)]
#[verifier::spinoff_prover]
proof fn lemma_get_debug_type_decode_60()
    ensures
        decode("ldr x1, [x10, #8]"@) == Some(Instr::Ldr(1, Address::Offset(10, 8))),
{
    reveal(decode);
    reveal_with_fuel(find_char, 21);
    reveal_strlit("ldr x1, [x10, #8]");

}

#[verifier::rlimit(50)]
#[verifier::spinoff_prover]
proof fn lemma_get_debug_type_decode_61()
    ensures
        decode("ldr x0, [x10]"@) == Some(Instr::Ldr(0, Address::Offset(10, 0))),
{
    reveal(decode);
    reveal_with_fuel(find_char, 17);
    reveal_strlit("ldr x0, [x10]");

}

#[verifier::rlimit(50)]
#[verifier::spinoff_prover]
proof fn lemma_get_debug_type_decode_62()
    ensures
        decode("b __rt_gdt_ret"@) == Some(Instr::B("__rt_gdt_ret"@)),
{
    reveal(decode);
    reveal_with_fuel(find_char, 18);
    reveal_strlit("__rt_gdt_ret");
    reveal_strlit("b __rt_gdt_ret");
    assert("b __rt_gdt_ret"@.subrange(2, 14) =~= "__rt_gdt_ret"@);
}

#[verifier::rlimit(50)]
#[verifier::spinoff_prover]
proof fn lemma_get_debug_type_decode_64(p: Platform)
    ensures
        decode(instruction_text(adrp_line(p, "x0"@, "_gdt_object"@))) == Some(Instr::Adrp(0, "_gdt_object"@)),
{
    reveal(decode);
    reveal_with_fuel(find_char, 29);
    if p == Platform::MacOS {
        reveal_strlit(", ");
        reveal_strlit(", :lo12:");
        reveal_strlit("@PAGE");
        reveal_strlit("@PAGEOFF");
        reveal_strlit("_gdt_object");
        reveal_strlit("add ");
        reveal_strlit("adrp ");
        reveal_strlit("adrp x0, _gdt_object@PAGE");
        reveal_strlit("x0");
        assert("adrp "@ + "x0"@ + ", "@ + "_gdt_object"@ + "@PAGE"@ =~= "adrp x0, _gdt_object@PAGE"@);
        assert("adrp x0, _gdt_object@PAGE"@.subrange(9, 20) =~= "_gdt_object"@);
    } else {
        reveal_strlit(", ");
        reveal_strlit(", :lo12:");
        reveal_strlit("@PAGE");
        reveal_strlit("@PAGEOFF");
        reveal_strlit("_gdt_object");
        reveal_strlit("add ");
        reveal_strlit("adrp ");
        reveal_strlit("adrp x0, _gdt_object");
        reveal_strlit("x0");
        assert("adrp "@ + "x0"@ + ", "@ + "_gdt_object"@ =~= "adrp x0, _gdt_object"@);
        assert("adrp x0, _gdt_object"@.subrange(9, 20) =~= "_gdt_object"@);
    }
}

#[verifier::rlimit(50)]
#[verifier::spinoff_prover]
proof fn lemma_get_debug_type_decode_65(p: Platform)
    ensures
        decode(instruction_text(add_lo12_line(p, "x0"@, "x0"@, "_gdt_object"@))) == Some(Instr::AddPageOffset(0, 0, "_gdt_object"@)),
{
    reveal(decode);
    reveal_with_fuel(find_char, 35);
    if p == Platform::MacOS {
        reveal_strlit(", ");
        reveal_strlit(", :lo12:");
        reveal_strlit("@PAGE");
        reveal_strlit("@PAGEOFF");
        reveal_strlit("_gdt_object");
        reveal_strlit("add ");
        reveal_strlit("add x0, x0, _gdt_object@PAGEOFF");
        reveal_strlit("adrp ");
        reveal_strlit("x0");
        assert("add "@ + "x0"@ + ", "@ + "x0"@ + ", "@ + "_gdt_object"@ + "@PAGEOFF"@ =~= "add x0, x0, _gdt_object@PAGEOFF"@);
        assert("add x0, x0, _gdt_object@PAGEOFF"@.subrange(12, 23) =~= "_gdt_object"@);
    } else {
        reveal_strlit(", ");
        reveal_strlit(", :lo12:");
        reveal_strlit("@PAGE");
        reveal_strlit("@PAGEOFF");
        reveal_strlit("_gdt_object");
        reveal_strlit("add ");
        reveal_strlit("add x0, x0, :lo12:_gdt_object");
        reveal_strlit("adrp ");
        reveal_strlit("x0");
        assert("add "@ + "x0"@ + ", "@ + "x0"@ + ", :lo12:"@ + "_gdt_object"@ =~= "add x0, x0, :lo12:_gdt_object"@);
        assert("add x0, x0, :lo12:_gdt_object"@.subrange(18, 29) =~= "_gdt_object"@);
    }
}

#[verifier::rlimit(50)]
#[verifier::spinoff_prover]
proof fn lemma_get_debug_type_decode_66()
    ensures
        decode("mov x1, #6"@) == Some(Instr::Mov(1, Operand::Imm(6))),
{
    reveal(decode);
    reveal_with_fuel(find_char, 14);
    reveal_strlit("mov x1, #6");

}

#[verifier::rlimit(50)]
#[verifier::spinoff_prover]
proof fn lemma_get_debug_type_decode_69(p: Platform)
    ensures
        decode(instruction_text(adrp_line(p, "x0"@, "_gdt_int"@))) == Some(Instr::Adrp(0, "_gdt_int"@)),
{
    reveal(decode);
    reveal_with_fuel(find_char, 26);
    if p == Platform::MacOS {
        reveal_strlit(", ");
        reveal_strlit(", :lo12:");
        reveal_strlit("@PAGE");
        reveal_strlit("@PAGEOFF");
        reveal_strlit("_gdt_int");
        reveal_strlit("add ");
        reveal_strlit("adrp ");
        reveal_strlit("adrp x0, _gdt_int@PAGE");
        reveal_strlit("x0");
        assert("adrp "@ + "x0"@ + ", "@ + "_gdt_int"@ + "@PAGE"@ =~= "adrp x0, _gdt_int@PAGE"@);
        assert("adrp x0, _gdt_int@PAGE"@.subrange(9, 17) =~= "_gdt_int"@);
    } else {
        reveal_strlit(", ");
        reveal_strlit(", :lo12:");
        reveal_strlit("@PAGE");
        reveal_strlit("@PAGEOFF");
        reveal_strlit("_gdt_int");
        reveal_strlit("add ");
        reveal_strlit("adrp ");
        reveal_strlit("adrp x0, _gdt_int");
        reveal_strlit("x0");
        assert("adrp "@ + "x0"@ + ", "@ + "_gdt_int"@ =~= "adrp x0, _gdt_int"@);
        assert("adrp x0, _gdt_int"@.subrange(9, 17) =~= "_gdt_int"@);
    }
}

#[verifier::rlimit(50)]
#[verifier::spinoff_prover]
proof fn lemma_get_debug_type_decode_70(p: Platform)
    ensures
        decode(instruction_text(add_lo12_line(p, "x0"@, "x0"@, "_gdt_int"@))) == Some(Instr::AddPageOffset(0, 0, "_gdt_int"@)),
{
    reveal(decode);
    reveal_with_fuel(find_char, 32);
    if p == Platform::MacOS {
        reveal_strlit(", ");
        reveal_strlit(", :lo12:");
        reveal_strlit("@PAGE");
        reveal_strlit("@PAGEOFF");
        reveal_strlit("_gdt_int");
        reveal_strlit("add ");
        reveal_strlit("add x0, x0, _gdt_int@PAGEOFF");
        reveal_strlit("adrp ");
        reveal_strlit("x0");
        assert("add "@ + "x0"@ + ", "@ + "x0"@ + ", "@ + "_gdt_int"@ + "@PAGEOFF"@ =~= "add x0, x0, _gdt_int@PAGEOFF"@);
        assert("add x0, x0, _gdt_int@PAGEOFF"@.subrange(12, 20) =~= "_gdt_int"@);
    } else {
        reveal_strlit(", ");
        reveal_strlit(", :lo12:");
        reveal_strlit("@PAGE");
        reveal_strlit("@PAGEOFF");
        reveal_strlit("_gdt_int");
        reveal_strlit("add ");
        reveal_strlit("add x0, x0, :lo12:_gdt_int");
        reveal_strlit("adrp ");
        reveal_strlit("x0");
        assert("add "@ + "x0"@ + ", "@ + "x0"@ + ", :lo12:"@ + "_gdt_int"@ =~= "add x0, x0, :lo12:_gdt_int"@);
        assert("add x0, x0, :lo12:_gdt_int"@.subrange(18, 26) =~= "_gdt_int"@);
    }
}

#[verifier::rlimit(50)]
#[verifier::spinoff_prover]
proof fn lemma_get_debug_type_decode_71()
    ensures
        decode("mov x1, #"@ + decimal(3) + ""@) == Some(Instr::Mov(1, Operand::Imm(3))),
{
    reveal(decode);
    reveal_with_fuel(find_char, 14);
    reveal_strlit("");
    reveal_strlit("3");
    reveal_strlit("mov x1, #");
    reveal_strlit("mov x1, #3");
    assert(decimal(3) =~= "3"@);
    assert("mov x1, #"@ + decimal(3) + ""@ =~= "mov x1, #3"@);
}

#[verifier::rlimit(50)]
#[verifier::spinoff_prover]
proof fn lemma_get_debug_type_decode_74(p: Platform)
    ensures
        decode(instruction_text(adrp_line(p, "x0"@, "_gdt_string"@))) == Some(Instr::Adrp(0, "_gdt_string"@)),
{
    reveal(decode);
    reveal_with_fuel(find_char, 29);
    if p == Platform::MacOS {
        reveal_strlit(", ");
        reveal_strlit(", :lo12:");
        reveal_strlit("@PAGE");
        reveal_strlit("@PAGEOFF");
        reveal_strlit("_gdt_string");
        reveal_strlit("add ");
        reveal_strlit("adrp ");
        reveal_strlit("adrp x0, _gdt_string@PAGE");
        reveal_strlit("x0");
        assert("adrp "@ + "x0"@ + ", "@ + "_gdt_string"@ + "@PAGE"@ =~= "adrp x0, _gdt_string@PAGE"@);
        assert("adrp x0, _gdt_string@PAGE"@.subrange(9, 20) =~= "_gdt_string"@);
    } else {
        reveal_strlit(", ");
        reveal_strlit(", :lo12:");
        reveal_strlit("@PAGE");
        reveal_strlit("@PAGEOFF");
        reveal_strlit("_gdt_string");
        reveal_strlit("add ");
        reveal_strlit("adrp ");
        reveal_strlit("adrp x0, _gdt_string");
        reveal_strlit("x0");
        assert("adrp "@ + "x0"@ + ", "@ + "_gdt_string"@ =~= "adrp x0, _gdt_string"@);
        assert("adrp x0, _gdt_string"@.subrange(9, 20) =~= "_gdt_string"@);
    }
}

#[verifier::rlimit(50)]
#[verifier::spinoff_prover]
proof fn lemma_get_debug_type_decode_75(p: Platform)
    ensures
        decode(instruction_text(add_lo12_line(p, "x0"@, "x0"@, "_gdt_string"@))) == Some(Instr::AddPageOffset(0, 0, "_gdt_string"@)),
{
    reveal(decode);
    reveal_with_fuel(find_char, 35);
    if p == Platform::MacOS {
        reveal_strlit(", ");
        reveal_strlit(", :lo12:");
        reveal_strlit("@PAGE");
        reveal_strlit("@PAGEOFF");
        reveal_strlit("_gdt_string");
        reveal_strlit("add ");
        reveal_strlit("add x0, x0, _gdt_string@PAGEOFF");
        reveal_strlit("adrp ");
        reveal_strlit("x0");
        assert("add "@ + "x0"@ + ", "@ + "x0"@ + ", "@ + "_gdt_string"@ + "@PAGEOFF"@ =~= "add x0, x0, _gdt_string@PAGEOFF"@);
        assert("add x0, x0, _gdt_string@PAGEOFF"@.subrange(12, 23) =~= "_gdt_string"@);
    } else {
        reveal_strlit(", ");
        reveal_strlit(", :lo12:");
        reveal_strlit("@PAGE");
        reveal_strlit("@PAGEOFF");
        reveal_strlit("_gdt_string");
        reveal_strlit("add ");
        reveal_strlit("add x0, x0, :lo12:_gdt_string");
        reveal_strlit("adrp ");
        reveal_strlit("x0");
        assert("add "@ + "x0"@ + ", "@ + "x0"@ + ", :lo12:"@ + "_gdt_string"@ =~= "add x0, x0, :lo12:_gdt_string"@);
        assert("add x0, x0, :lo12:_gdt_string"@.subrange(18, 29) =~= "_gdt_string"@);
    }
}

#[verifier::rlimit(50)]
#[verifier::spinoff_prover]
proof fn lemma_get_debug_type_decode_76()
    ensures
        decode("mov x1, #"@ + decimal(6) + ""@) == Some(Instr::Mov(1, Operand::Imm(6))),
{
    reveal(decode);
    reveal_with_fuel(find_char, 14);
    reveal_strlit("");
    reveal_strlit("6");
    reveal_strlit("mov x1, #");
    reveal_strlit("mov x1, #6");
    assert(decimal(6) =~= "6"@);
    assert("mov x1, #"@ + decimal(6) + ""@ =~= "mov x1, #6"@);
}

#[verifier::rlimit(50)]
#[verifier::spinoff_prover]
proof fn lemma_get_debug_type_decode_79(p: Platform)
    ensures
        decode(instruction_text(adrp_line(p, "x0"@, "_gdt_float"@))) == Some(Instr::Adrp(0, "_gdt_float"@)),
{
    reveal(decode);
    reveal_with_fuel(find_char, 28);
    if p == Platform::MacOS {
        reveal_strlit(", ");
        reveal_strlit(", :lo12:");
        reveal_strlit("@PAGE");
        reveal_strlit("@PAGEOFF");
        reveal_strlit("_gdt_float");
        reveal_strlit("add ");
        reveal_strlit("adrp ");
        reveal_strlit("adrp x0, _gdt_float@PAGE");
        reveal_strlit("x0");
        assert("adrp "@ + "x0"@ + ", "@ + "_gdt_float"@ + "@PAGE"@ =~= "adrp x0, _gdt_float@PAGE"@);
        assert("adrp x0, _gdt_float@PAGE"@.subrange(9, 19) =~= "_gdt_float"@);
    } else {
        reveal_strlit(", ");
        reveal_strlit(", :lo12:");
        reveal_strlit("@PAGE");
        reveal_strlit("@PAGEOFF");
        reveal_strlit("_gdt_float");
        reveal_strlit("add ");
        reveal_strlit("adrp ");
        reveal_strlit("adrp x0, _gdt_float");
        reveal_strlit("x0");
        assert("adrp "@ + "x0"@ + ", "@ + "_gdt_float"@ =~= "adrp x0, _gdt_float"@);
        assert("adrp x0, _gdt_float"@.subrange(9, 19) =~= "_gdt_float"@);
    }
}

#[verifier::rlimit(50)]
#[verifier::spinoff_prover]
proof fn lemma_get_debug_type_decode_80(p: Platform)
    ensures
        decode(instruction_text(add_lo12_line(p, "x0"@, "x0"@, "_gdt_float"@))) == Some(Instr::AddPageOffset(0, 0, "_gdt_float"@)),
{
    reveal(decode);
    reveal_with_fuel(find_char, 34);
    if p == Platform::MacOS {
        reveal_strlit(", ");
        reveal_strlit(", :lo12:");
        reveal_strlit("@PAGE");
        reveal_strlit("@PAGEOFF");
        reveal_strlit("_gdt_float");
        reveal_strlit("add ");
        reveal_strlit("add x0, x0, _gdt_float@PAGEOFF");
        reveal_strlit("adrp ");
        reveal_strlit("x0");
        assert("add "@ + "x0"@ + ", "@ + "x0"@ + ", "@ + "_gdt_float"@ + "@PAGEOFF"@ =~= "add x0, x0, _gdt_float@PAGEOFF"@);
        assert("add x0, x0, _gdt_float@PAGEOFF"@.subrange(12, 22) =~= "_gdt_float"@);
    } else {
        reveal_strlit(", ");
        reveal_strlit(", :lo12:");
        reveal_strlit("@PAGE");
        reveal_strlit("@PAGEOFF");
        reveal_strlit("_gdt_float");
        reveal_strlit("add ");
        reveal_strlit("add x0, x0, :lo12:_gdt_float");
        reveal_strlit("adrp ");
        reveal_strlit("x0");
        assert("add "@ + "x0"@ + ", "@ + "x0"@ + ", :lo12:"@ + "_gdt_float"@ =~= "add x0, x0, :lo12:_gdt_float"@);
        assert("add x0, x0, :lo12:_gdt_float"@.subrange(18, 28) =~= "_gdt_float"@);
    }
}

#[verifier::rlimit(50)]
#[verifier::spinoff_prover]
proof fn lemma_get_debug_type_decode_81()
    ensures
        decode("mov x1, #"@ + decimal(5) + ""@) == Some(Instr::Mov(1, Operand::Imm(5))),
{
    reveal(decode);
    reveal_with_fuel(find_char, 14);
    reveal_strlit("");
    reveal_strlit("5");
    reveal_strlit("mov x1, #");
    reveal_strlit("mov x1, #5");
    assert(decimal(5) =~= "5"@);
    assert("mov x1, #"@ + decimal(5) + ""@ =~= "mov x1, #5"@);
}

#[verifier::rlimit(50)]
#[verifier::spinoff_prover]
proof fn lemma_get_debug_type_decode_84(p: Platform)
    ensures
        decode(instruction_text(adrp_line(p, "x0"@, "_gdt_bool"@))) == Some(Instr::Adrp(0, "_gdt_bool"@)),
{
    reveal(decode);
    reveal_with_fuel(find_char, 27);
    if p == Platform::MacOS {
        reveal_strlit(", ");
        reveal_strlit(", :lo12:");
        reveal_strlit("@PAGE");
        reveal_strlit("@PAGEOFF");
        reveal_strlit("_gdt_bool");
        reveal_strlit("add ");
        reveal_strlit("adrp ");
        reveal_strlit("adrp x0, _gdt_bool@PAGE");
        reveal_strlit("x0");
        assert("adrp "@ + "x0"@ + ", "@ + "_gdt_bool"@ + "@PAGE"@ =~= "adrp x0, _gdt_bool@PAGE"@);
        assert("adrp x0, _gdt_bool@PAGE"@.subrange(9, 18) =~= "_gdt_bool"@);
    } else {
        reveal_strlit(", ");
        reveal_strlit(", :lo12:");
        reveal_strlit("@PAGE");
        reveal_strlit("@PAGEOFF");
        reveal_strlit("_gdt_bool");
        reveal_strlit("add ");
        reveal_strlit("adrp ");
        reveal_strlit("adrp x0, _gdt_bool");
        reveal_strlit("x0");
        assert("adrp "@ + "x0"@ + ", "@ + "_gdt_bool"@ =~= "adrp x0, _gdt_bool"@);
        assert("adrp x0, _gdt_bool"@.subrange(9, 18) =~= "_gdt_bool"@);
    }
}

#[verifier::rlimit(50)]
#[verifier::spinoff_prover]
proof fn lemma_get_debug_type_decode_85(p: Platform)
    ensures
        decode(instruction_text(add_lo12_line(p, "x0"@, "x0"@, "_gdt_bool"@))) == Some(Instr::AddPageOffset(0, 0, "_gdt_bool"@)),
{
    reveal(decode);
    reveal_with_fuel(find_char, 33);
    if p == Platform::MacOS {
        reveal_strlit(", ");
        reveal_strlit(", :lo12:");
        reveal_strlit("@PAGE");
        reveal_strlit("@PAGEOFF");
        reveal_strlit("_gdt_bool");
        reveal_strlit("add ");
        reveal_strlit("add x0, x0, _gdt_bool@PAGEOFF");
        reveal_strlit("adrp ");
        reveal_strlit("x0");
        assert("add "@ + "x0"@ + ", "@ + "x0"@ + ", "@ + "_gdt_bool"@ + "@PAGEOFF"@ =~= "add x0, x0, _gdt_bool@PAGEOFF"@);
        assert("add x0, x0, _gdt_bool@PAGEOFF"@.subrange(12, 21) =~= "_gdt_bool"@);
    } else {
        reveal_strlit(", ");
        reveal_strlit(", :lo12:");
        reveal_strlit("@PAGE");
        reveal_strlit("@PAGEOFF");
        reveal_strlit("_gdt_bool");
        reveal_strlit("add ");
        reveal_strlit("add x0, x0, :lo12:_gdt_bool");
        reveal_strlit("adrp ");
        reveal_strlit("x0");
        assert("add "@ + "x0"@ + ", "@ + "x0"@ + ", :lo12:"@ + "_gdt_bool"@ =~= "add x0, x0, :lo12:_gdt_bool"@);
        assert("add x0, x0, :lo12:_gdt_bool"@.subrange(18, 27) =~= "_gdt_bool"@);
    }
}

#[verifier::rlimit(50)]
#[verifier::spinoff_prover]
proof fn lemma_get_debug_type_decode_86()
    ensures
        decode("mov x1, #"@ + decimal(4) + ""@) == Some(Instr::Mov(1, Operand::Imm(4))),
{
    reveal(decode);
    reveal_with_fuel(find_char, 14);
    reveal_strlit("");
    reveal_strlit("4");
    reveal_strlit("mov x1, #");
    reveal_strlit("mov x1, #4");
    assert(decimal(4) =~= "4"@);
    assert("mov x1, #"@ + decimal(4) + ""@ =~= "mov x1, #4"@);
}

#[verifier::rlimit(50)]
#[verifier::spinoff_prover]
proof fn lemma_get_debug_type_decode_89(p: Platform)
    ensures
        decode(instruction_text(adrp_line(p, "x0"@, "_gdt_array"@))) == Some(Instr::Adrp(0, "_gdt_array"@)),
{
    reveal(decode);
    reveal_with_fuel(find_char, 28);
    if p == Platform::MacOS {
        reveal_strlit(", ");
        reveal_strlit(", :lo12:");
        reveal_strlit("@PAGE");
        reveal_strlit("@PAGEOFF");
        reveal_strlit("_gdt_array");
        reveal_strlit("add ");
        reveal_strlit("adrp ");
        reveal_strlit("adrp x0, _gdt_array@PAGE");
        reveal_strlit("x0");
        assert("adrp "@ + "x0"@ + ", "@ + "_gdt_array"@ + "@PAGE"@ =~= "adrp x0, _gdt_array@PAGE"@);
        assert("adrp x0, _gdt_array@PAGE"@.subrange(9, 19) =~= "_gdt_array"@);
    } else {
        reveal_strlit(", ");
        reveal_strlit(", :lo12:");
        reveal_strlit("@PAGE");
        reveal_strlit("@PAGEOFF");
        reveal_strlit("_gdt_array");
        reveal_strlit("add ");
        reveal_strlit("adrp ");
        reveal_strlit("adrp x0, _gdt_array");
        reveal_strlit("x0");
        assert("adrp "@ + "x0"@ + ", "@ + "_gdt_array"@ =~= "adrp x0, _gdt_array"@);
        assert("adrp x0, _gdt_array"@.subrange(9, 19) =~= "_gdt_array"@);
    }
}

#[verifier::rlimit(50)]
#[verifier::spinoff_prover]
proof fn lemma_get_debug_type_decode_90(p: Platform)
    ensures
        decode(instruction_text(add_lo12_line(p, "x0"@, "x0"@, "_gdt_array"@))) == Some(Instr::AddPageOffset(0, 0, "_gdt_array"@)),
{
    reveal(decode);
    reveal_with_fuel(find_char, 34);
    if p == Platform::MacOS {
        reveal_strlit(", ");
        reveal_strlit(", :lo12:");
        reveal_strlit("@PAGE");
        reveal_strlit("@PAGEOFF");
        reveal_strlit("_gdt_array");
        reveal_strlit("add ");
        reveal_strlit("add x0, x0, _gdt_array@PAGEOFF");
        reveal_strlit("adrp ");
        reveal_strlit("x0");
        assert("add "@ + "x0"@ + ", "@ + "x0"@ + ", "@ + "_gdt_array"@ + "@PAGEOFF"@ =~= "add x0, x0, _gdt_array@PAGEOFF"@);
        assert("add x0, x0, _gdt_array@PAGEOFF"@.subrange(12, 22) =~= "_gdt_array"@);
    } else {
        reveal_strlit(", ");
        reveal_strlit(", :lo12:");
        reveal_strlit("@PAGE");
        reveal_strlit("@PAGEOFF");
        reveal_strlit("_gdt_array");
        reveal_strlit("add ");
        reveal_strlit("add x0, x0, :lo12:_gdt_array");
        reveal_strlit("adrp ");
        reveal_strlit("x0");
        assert("add "@ + "x0"@ + ", "@ + "x0"@ + ", :lo12:"@ + "_gdt_array"@ =~= "add x0, x0, :lo12:_gdt_array"@);
        assert("add x0, x0, :lo12:_gdt_array"@.subrange(18, 28) =~= "_gdt_array"@);
    }
}

#[verifier::rlimit(50)]
#[verifier::spinoff_prover]
proof fn lemma_get_debug_type_decode_94(p: Platform)
    ensures
        decode(instruction_text(adrp_line(p, "x0"@, "_gdt_null"@))) == Some(Instr::Adrp(0, "_gdt_null"@)),
{
    reveal(decode);
    reveal_with_fuel(find_char, 27);
    if p == Platform::MacOS {
        reveal_strlit(", ");
        reveal_strlit(", :lo12:");
        reveal_strlit("@PAGE");
        reveal_strlit("@PAGEOFF");
        reveal_strlit("_gdt_null");
        reveal_strlit("add ");
        reveal_strlit("adrp ");
        reveal_strlit("adrp x0, _gdt_null@PAGE");
        reveal_strlit("x0");
        assert("adrp "@ + "x0"@ + ", "@ + "_gdt_null"@ + "@PAGE"@ =~= "adrp x0, _gdt_null@PAGE"@);
        assert("adrp x0, _gdt_null@PAGE"@.subrange(9, 18) =~= "_gdt_null"@);
    } else {
        reveal_strlit(", ");
        reveal_strlit(", :lo12:");
        reveal_strlit("@PAGE");
        reveal_strlit("@PAGEOFF");
        reveal_strlit("_gdt_null");
        reveal_strlit("add ");
        reveal_strlit("adrp ");
        reveal_strlit("adrp x0, _gdt_null");
        reveal_strlit("x0");
        assert("adrp "@ + "x0"@ + ", "@ + "_gdt_null"@ =~= "adrp x0, _gdt_null"@);
        assert("adrp x0, _gdt_null"@.subrange(9, 18) =~= "_gdt_null"@);
    }
}

#[verifier::rlimit(50)]
#[verifier::spinoff_prover]
proof fn lemma_get_debug_type_decode_95(p: Platform)
    ensures
        decode(instruction_text(add_lo12_line(p, "x0"@, "x0"@, "_gdt_null"@))) == Some(Instr::AddPageOffset(0, 0, "_gdt_null"@)),
{
    reveal(decode);
    reveal_with_fuel(find_char, 33);
    if p == Platform::MacOS {
        reveal_strlit(", ");
        reveal_strlit(", :lo12:");
        reveal_strlit("@PAGE");
        reveal_strlit("@PAGEOFF");
        reveal_strlit("_gdt_null");
        reveal_strlit("add ");
        reveal_strlit("add x0, x0, _gdt_null@PAGEOFF");
        reveal_strlit("adrp ");
        reveal_strlit("x0");
        assert("add "@ + "x0"@ + ", "@ + "x0"@ + ", "@ + "_gdt_null"@ + "@PAGEOFF"@ =~= "add x0, x0, _gdt_null@PAGEOFF"@);
        assert("add x0, x0, _gdt_null@PAGEOFF"@.subrange(12, 21) =~= "_gdt_null"@);
    } else {
        reveal_strlit(", ");
        reveal_strlit(", :lo12:");
        reveal_strlit("@PAGE");
        reveal_strlit("@PAGEOFF");
        reveal_strlit("_gdt_null");
        reveal_strlit("add ");
        reveal_strlit("add x0, x0, :lo12:_gdt_null");
        reveal_strlit("adrp ");
        reveal_strlit("x0");
        assert("add "@ + "x0"@ + ", "@ + "x0"@ + ", :lo12:"@ + "_gdt_null"@ =~= "add x0, x0, :lo12:_gdt_null"@);
        assert("add x0, x0, :lo12:_gdt_null"@.subrange(18, 27) =~= "_gdt_null"@);
    }
}

#[verifier::rlimit(50)]
#[verifier::spinoff_prover]
proof fn lemma_get_debug_type_decode_99(p: Platform)
    ensures
        decode(instruction_text(adrp_line(p, "x0"@, "_gdt_resource"@))) == Some(Instr::Adrp(0, "_gdt_resource"@)),
{
    reveal(decode);
    reveal_with_fuel(find_char, 31);
    if p == Platform::MacOS {
        reveal_strlit(", ");
        reveal_strlit(", :lo12:");
        reveal_strlit("@PAGE");
        reveal_strlit("@PAGEOFF");
        reveal_strlit("_gdt_resource");
        reveal_strlit("add ");
        reveal_strlit("adrp ");
        reveal_strlit("adrp x0, _gdt_resource@PAGE");
        reveal_strlit("x0");
        assert("adrp "@ + "x0"@ + ", "@ + "_gdt_resource"@ + "@PAGE"@ =~= "adrp x0, _gdt_resource@PAGE"@);
        assert("adrp x0, _gdt_resource@PAGE"@.subrange(9, 22) =~= "_gdt_resource"@);
    } else {
        reveal_strlit(", ");
        reveal_strlit(", :lo12:");
        reveal_strlit("@PAGE");
        reveal_strlit("@PAGEOFF");
        reveal_strlit("_gdt_resource");
        reveal_strlit("add ");
        reveal_strlit("adrp ");
        reveal_strlit("adrp x0, _gdt_resource");
        reveal_strlit("x0");
        assert("adrp "@ + "x0"@ + ", "@ + "_gdt_resource"@ =~= "adrp x0, _gdt_resource"@);
        assert("adrp x0, _gdt_resource"@.subrange(9, 22) =~= "_gdt_resource"@);
    }
}

#[verifier::rlimit(50)]
#[verifier::spinoff_prover]
proof fn lemma_get_debug_type_decode_100(p: Platform)
    ensures
        decode(instruction_text(add_lo12_line(p, "x0"@, "x0"@, "_gdt_resource"@))) == Some(Instr::AddPageOffset(0, 0, "_gdt_resource"@)),
{
    reveal(decode);
    reveal_with_fuel(find_char, 37);
    if p == Platform::MacOS {
        reveal_strlit(", ");
        reveal_strlit(", :lo12:");
        reveal_strlit("@PAGE");
        reveal_strlit("@PAGEOFF");
        reveal_strlit("_gdt_resource");
        reveal_strlit("add ");
        reveal_strlit("add x0, x0, _gdt_resource@PAGEOFF");
        reveal_strlit("adrp ");
        reveal_strlit("x0");
        assert("add "@ + "x0"@ + ", "@ + "x0"@ + ", "@ + "_gdt_resource"@ + "@PAGEOFF"@ =~= "add x0, x0, _gdt_resource@PAGEOFF"@);
        assert("add x0, x0, _gdt_resource@PAGEOFF"@.subrange(12, 25) =~= "_gdt_resource"@);
    } else {
        reveal_strlit(", ");
        reveal_strlit(", :lo12:");
        reveal_strlit("@PAGE");
        reveal_strlit("@PAGEOFF");
        reveal_strlit("_gdt_resource");
        reveal_strlit("add ");
        reveal_strlit("add x0, x0, :lo12:_gdt_resource");
        reveal_strlit("adrp ");
        reveal_strlit("x0");
        assert("add "@ + "x0"@ + ", "@ + "x0"@ + ", :lo12:"@ + "_gdt_resource"@ =~= "add x0, x0, :lo12:_gdt_resource"@);
        assert("add x0, x0, :lo12:_gdt_resource"@.subrange(18, 31) =~= "_gdt_resource"@);
    }
}

#[verifier::rlimit(50)]
#[verifier::spinoff_prover]
/// The decimal text of the resource name's length.
proof fn lemma_decimal_seventeen()
    ensures
        decimal(17) == "17"@,
{
    reveal_strlit("17");
    reveal_strlit("1");
    reveal_strlit("7");
    reveal_with_fuel(crate::codegen::text::digits_in_base, 3);
    assert(crate::codegen::text::digits_in_base(1, 10) == "1"@);
    assert(crate::codegen::text::digits_in_base(17, 10)
        == crate::codegen::text::digits_in_base(1, 10) + "7"@);
    assert(decimal(17) =~= "17"@);
}

proof fn lemma_get_debug_type_decode_101()
    ensures
        decode("mov x1, #"@ + decimal(17) + ""@) == Some(Instr::Mov(1, Operand::Imm(17))),
{
    lemma_decimal_seventeen();
    reveal_strlit("");
    reveal_strlit("17");
    reveal_strlit("mov x1, #");
    reveal_strlit("mov x1, #17");
    assert("mov x1, #"@ + decimal(17) + ""@ =~= "mov x1, #17"@);
    assert(decode("mov x1, #17"@) == Some(Instr::Mov(1, Operand::Imm(17)))) by {
        reveal(decode);
        reveal_with_fuel(find_char, 15);
        reveal_strlit("mov x1, #17");
    }
}

#[verifier::rlimit(50)]
#[verifier::spinoff_prover]
proof fn lemma_get_debug_type_decode_104()
    ensures
        decode("ldp x29, x30, [sp, #16]"@) == Some(Instr::Ldp(29, 30, Address::Offset(31, 16))),
{
    reveal(decode);
    reveal_with_fuel(find_char, 27);
    reveal_strlit("ldp x29, x30, [sp, #16]");

}

#[verifier::rlimit(50)]
#[verifier::spinoff_prover]
proof fn lemma_get_debug_type_decode_105()
    ensures
        decode("add sp, sp, #32"@) == Some(Instr::Add(31, 31, Operand::Imm(32))),
{
    reveal(decode);
    reveal_with_fuel(find_char, 19);
    reveal_strlit("add sp, sp, #32");

}

#[verifier::rlimit(50)]
#[verifier::spinoff_prover]
proof fn lemma_get_debug_type_decode_106()
    ensures
        decode("ret"@) == Some(Instr::Ret),
{
    reveal(decode);
    reveal_with_fuel(find_char, 7);
    reveal_strlit("ret");

}

/// Where the AArch64 `get_debug_type` lines define the labels that its paths reach.
#[verifier::rlimit(50)]
proof fn lemma_get_debug_type_labels(t: Target)
    requires
        t.arch == Arch::AArch64,
    ensures
        find_label(get_debug_type(Seq::empty(), t), "__rt_gdt_array"@, 0) == 88,
        find_label(get_debug_type(Seq::empty(), t), "__rt_gdt_bool"@, 0) == 83,
        find_label(get_debug_type(Seq::empty(), t), "__rt_gdt_class_hit"@, 0) == 59,
        find_label(get_debug_type(Seq::empty(), t), "__rt_gdt_class_loop"@, 0) == 50,
        find_label(get_debug_type(Seq::empty(), t), "__rt_gdt_dispatch"@, 0) == 6,
        find_label(get_debug_type(Seq::empty(), t), "__rt_gdt_float"@, 0) == 78,
        find_label(get_debug_type(Seq::empty(), t), "__rt_gdt_int"@, 0) == 68,
        find_label(get_debug_type(Seq::empty(), t), "__rt_gdt_null"@, 0) == 93,
        find_label(get_debug_type(Seq::empty(), t), "__rt_gdt_object_cell"@, 0) == 39,
        find_label(get_debug_type(Seq::empty(), t), "__rt_gdt_object_fallback"@, 0) == 63,
        find_label(get_debug_type(Seq::empty(), t), "__rt_gdt_object_from_x0"@, 0) == 42,
        find_label(get_debug_type(Seq::empty(), t), "__rt_gdt_resource"@, 0) == 98,
        find_label(get_debug_type(Seq::empty(), t), "__rt_gdt_ret"@, 0) == 103,
        find_label(get_debug_type(Seq::empty(), t), "__rt_gdt_string"@, 0) == 73,
        find_label(get_debug_type(Seq::empty(), t), "__rt_gdt_tags"@, 0) == 21,
        find_label(get_debug_type(Seq::empty(), t), "__rt_get_debug_type"@, 0) == 2,
{
    let lines = get_debug_type(Seq::empty(), t);
    lemma_get_debug_type_lines(t);
    lemma_get_debug_type_finds_rt_gdt_array(lines, t);
    lemma_get_debug_type_finds_rt_gdt_bool(lines, t);
    lemma_get_debug_type_finds_rt_gdt_class_hit(lines, t);
    lemma_get_debug_type_finds_rt_gdt_class_loop(lines, t);
    lemma_get_debug_type_finds_rt_gdt_dispatch(lines, t);
    lemma_get_debug_type_finds_rt_gdt_float(lines, t);
    lemma_get_debug_type_finds_rt_gdt_int(lines, t);
    lemma_get_debug_type_finds_rt_gdt_null(lines, t);
    lemma_get_debug_type_finds_rt_gdt_object_cell(lines, t);
    lemma_get_debug_type_finds_rt_gdt_object_fallback(lines, t);
    lemma_get_debug_type_finds_rt_gdt_object_from_x0(lines, t);
    lemma_get_debug_type_finds_rt_gdt_resource(lines, t);
    lemma_get_debug_type_finds_rt_gdt_ret(lines, t);
    lemma_get_debug_type_finds_rt_gdt_string(lines, t);
    lemma_get_debug_type_finds_rt_gdt_tags(lines, t);
    lemma_get_debug_type_finds_rt_get_debug_type(lines, t);
}

/// How the model reads some of the AArch64 `get_debug_type` lines.
#[verifier::rlimit(50)]
#[verifier::spinoff_prover]
proof fn lemma_get_debug_type_decodes_0(t: Target)
    requires
        t.arch == Arch::AArch64,
    ensures
        ({
            let lines = get_debug_type(Seq::empty(), t);
            &&& !(lines[2] is Instruction)
            &&& lines[3] is Instruction && decode(instruction_text(lines[3])) == Some(Instr::Sub(31, 31, Operand::Imm(32)))
            &&& lines[4] is Instruction && decode(instruction_text(lines[4])) == Some(Instr::Stp(29, 30, Address::Offset(31, 16)))
            &&& lines[5] is Instruction && decode(instruction_text(lines[5])) == Some(Instr::Add(29, 31, Operand::Imm(16)))
            &&& !(lines[6] is Instruction)
            &&& lines[7] is Instruction && decode(instruction_text(lines[7])) == Some(Instr::Cbz(0, "__rt_gdt_null"@))
            &&& lines[8] is Instruction && decode(instruction_text(lines[8])) == Some(Instr::Ldr(9, Address::Offset(0, -8)))
            &&& lines[9] is Instruction && decode(instruction_text(lines[9])) == Some(Instr::AndImm(9, 9, 255))
            &&& lines[10] is Instruction && decode(instruction_text(lines[10])) == Some(Instr::Cmp(9, Operand::Imm(2)))
            &&& lines[11] is Instruction && decode(instruction_text(lines[11])) == Some(Instr::BCond(Cond::Eq, "__rt_gdt_array"@))
            &&& lines[12] is Instruction && decode(instruction_text(lines[12])) == Some(Instr::Cmp(9, Operand::Imm(3)))
            &&& lines[13] is Instruction && decode(instruction_text(lines[13])) == Some(Instr::BCond(Cond::Eq, "__rt_gdt_array"@))
        }),
{
    lemma_get_debug_type_lines(t);
    lemma_get_debug_type_decode_3();
    lemma_get_debug_type_decode_4();
    lemma_get_debug_type_decode_5();
    lemma_get_debug_type_decode_7();
    lemma_get_debug_type_decode_8();
    lemma_get_debug_type_decode_9();
    lemma_get_debug_type_decode_10();
    lemma_get_debug_type_decode_11();
    lemma_get_debug_type_decode_12();
    lemma_get_debug_type_decode_11();
}

/// How the model reads some of the AArch64 `get_debug_type` lines.
#[verifier::rlimit(50)]
#[verifier::spinoff_prover]
proof fn lemma_get_debug_type_decodes_12(t: Target)
    requires
        t.arch == Arch::AArch64,
    ensures
        ({
            let lines = get_debug_type(Seq::empty(), t);
            &&& lines[14] is Instruction && decode(instruction_text(lines[14])) == Some(Instr::Cmp(9, Operand::Imm(4)))
            &&& lines[15] is Instruction && decode(instruction_text(lines[15])) == Some(Instr::BCond(Cond::Eq, "__rt_gdt_object_from_x0"@))
            &&& lines[16] is Instruction && decode(instruction_text(lines[16])) == Some(Instr::Ldr(9, Address::Offset(0, 0)))
            &&& lines[17] is Instruction && decode(instruction_text(lines[17])) == Some(Instr::Cmp(9, Operand::Imm(7)))
            &&& lines[18] is Instruction && decode(instruction_text(lines[18])) == Some(Instr::BCond(Cond::Ne, "__rt_gdt_tags"@))
            &&& lines[19] is Instruction && decode(instruction_text(lines[19])) == Some(Instr::Ldr(0, Address::Offset(0, 8)))
            &&& lines[20] is Instruction && decode(instruction_text(lines[20])) == Some(Instr::B("__rt_gdt_dispatch"@))
            &&& !(lines[21] is Instruction)
            &&& lines[22] is Instruction && decode(instruction_text(lines[22])) == Some(Instr::Cmp(9, Operand::Imm(0)))
            &&& lines[23] is Instruction && decode(instruction_text(lines[23])) == Some(Instr::BCond(Cond::Eq, "__rt_gdt_int"@))
            &&& lines[24] is Instruction && decode(instruction_text(lines[24])) == Some(Instr::Cmp(9, Operand::Imm(1)))
            &&& lines[25] is Instruction && decode(instruction_text(lines[25])) == Some(Instr::BCond(Cond::Eq, "__rt_gdt_string"@))
        }),
{
    lemma_get_debug_type_lines(t);
    lemma_get_debug_type_decode_14();
    lemma_get_debug_type_decode_15();
    lemma_get_debug_type_decode_16();
    lemma_get_debug_type_decode_17();
    lemma_get_debug_type_decode_18();
    lemma_get_debug_type_decode_19();
    lemma_get_debug_type_decode_20();
    lemma_get_debug_type_decode_22();
    lemma_get_debug_type_decode_23();
    lemma_get_debug_type_decode_24();
    lemma_get_debug_type_decode_25();
}

/// How the model reads some of the AArch64 `get_debug_type` lines.
#[verifier::rlimit(50)]
#[verifier::spinoff_prover]
proof fn lemma_get_debug_type_decodes_24(t: Target)
    requires
        t.arch == Arch::AArch64,
    ensures
        ({
            let lines = get_debug_type(Seq::empty(), t);
            &&& lines[26] is Instruction && decode(instruction_text(lines[26])) == Some(Instr::Cmp(9, Operand::Imm(2)))
            &&& lines[27] is Instruction && decode(instruction_text(lines[27])) == Some(Instr::BCond(Cond::Eq, "__rt_gdt_float"@))
            &&& lines[28] is Instruction && decode(instruction_text(lines[28])) == Some(Instr::Cmp(9, Operand::Imm(3)))
            &&& lines[29] is Instruction && decode(instruction_text(lines[29])) == Some(Instr::BCond(Cond::Eq, "__rt_gdt_bool"@))
            &&& lines[30] is Instruction && decode(instruction_text(lines[30])) == Some(Instr::Cmp(9, Operand::Imm(4)))
            &&& lines[31] is Instruction && decode(instruction_text(lines[31])) == Some(Instr::BCond(Cond::Eq, "__rt_gdt_array"@))
            &&& lines[32] is Instruction && decode(instruction_text(lines[32])) == Some(Instr::Cmp(9, Operand::Imm(5)))
            &&& lines[33] is Instruction && decode(instruction_text(lines[33])) == Some(Instr::BCond(Cond::Eq, "__rt_gdt_array"@))
            &&& lines[34] is Instruction && decode(instruction_text(lines[34])) == Some(Instr::Cmp(9, Operand::Imm(6)))
            &&& lines[35] is Instruction && decode(instruction_text(lines[35])) == Some(Instr::BCond(Cond::Eq, "__rt_gdt_object_cell"@))
            &&& lines[36] is Instruction && decode(instruction_text(lines[36])) == Some(Instr::Cmp(9, Operand::Imm(9)))
            &&& lines[37] is Instruction && decode(instruction_text(lines[37])) == Some(Instr::BCond(Cond::Eq, "__rt_gdt_resource"@))
        }),
{
    lemma_get_debug_type_lines(t);
    lemma_get_debug_type_decode_10();
    lemma_get_debug_type_decode_27();
    lemma_get_debug_type_decode_12();
    lemma_get_debug_type_decode_29();
    lemma_get_debug_type_decode_14();
    lemma_get_debug_type_decode_11();
    lemma_get_debug_type_decode_32();
    lemma_get_debug_type_decode_11();
    lemma_get_debug_type_decode_34();
    lemma_get_debug_type_decode_35();
    lemma_get_debug_type_decode_36();
    lemma_get_debug_type_decode_37();
}

/// How the model reads some of the AArch64 `get_debug_type` lines.
#[verifier::rlimit(50)]
#[verifier::spinoff_prover]
proof fn lemma_get_debug_type_decodes_36(t: Target)
    requires
        t.arch == Arch::AArch64,
    ensures
        ({
            let lines = get_debug_type(Seq::empty(), t);
            &&& lines[38] is Instruction && decode(instruction_text(lines[38])) == Some(Instr::B("__rt_gdt_null"@))
            &&& !(lines[39] is Instruction)
            &&& lines[40] is Instruction && decode(instruction_text(lines[40])) == Some(Instr::Ldr(0, Address::Offset(0, 8)))
            &&& lines[41] is Instruction && decode(instruction_text(lines[41])) == Some(Instr::Cbz(0, "__rt_gdt_null"@))
            &&& !(lines[42] is Instruction)
            &&& lines[43] is Instruction && decode(instruction_text(lines[43])) == Some(Instr::Ldr(11, Address::Offset(0, 0)))
            &&& lines[44] is Instruction && decode(instruction_text(lines[44])) == Some(Instr::Adrp(9, "_classes_by_name_count"@))
            &&& lines[45] is Instruction && decode(instruction_text(lines[45])) == Some(Instr::AddPageOffset(9, 9, "_classes_by_name_count"@))
            &&& lines[46] is Instruction && decode(instruction_text(lines[46])) == Some(Instr::Ldr(9, Address::Offset(9, 0)))
            &&& lines[47] is Instruction && decode(instruction_text(lines[47])) == Some(Instr::Adrp(10, "_classes_by_name"@))
            &&& lines[48] is Instruction && decode(instruction_text(lines[48])) == Some(Instr::AddPageOffset(10, 10, "_classes_by_name"@))
            &&& lines[49] is Instruction && decode(instruction_text(lines[49])) == Some(Instr::Mov(12, Operand::Imm(0)))
        }),
{
    lemma_get_debug_type_lines(t);
    lemma_get_debug_type_decode_38();
    lemma_get_debug_type_decode_19();
    lemma_get_debug_type_decode_7();
    lemma_get_debug_type_decode_43();
    lemma_get_debug_type_decode_44(t.platform);
    lemma_get_debug_type_decode_45(t.platform);
    lemma_get_debug_type_decode_46();
    lemma_get_debug_type_decode_47(t.platform);
    lemma_get_debug_type_decode_48(t.platform);
    lemma_get_debug_type_decode_49();
}

/// How the model reads some of the AArch64 `get_debug_type` lines.
#[verifier::rlimit(50)]
#[verifier::spinoff_prover]
proof fn lemma_get_debug_type_decodes_48(t: Target)
    requires
        t.arch == Arch::AArch64,
    ensures
        ({
            let lines = get_debug_type(Seq::empty(), t);
            &&& !(lines[50] is Instruction)
            &&& lines[51] is Instruction && decode(instruction_text(lines[51])) == Some(Instr::Cmp(12, Operand::Reg(9)))
            &&& lines[52] is Instruction && decode(instruction_text(lines[52])) == Some(Instr::BCond(Cond::Ge, "__rt_gdt_object_fallback"@))
            &&& lines[53] is Instruction && decode(instruction_text(lines[53])) == Some(Instr::Ldr(13, Address::Offset(10, 16)))
            &&& lines[54] is Instruction && decode(instruction_text(lines[54])) == Some(Instr::Cmp(13, Operand::Reg(11)))
            &&& lines[55] is Instruction && decode(instruction_text(lines[55])) == Some(Instr::BCond(Cond::Eq, "__rt_gdt_class_hit"@))
            &&& lines[56] is Instruction && decode(instruction_text(lines[56])) == Some(Instr::Add(10, 10, Operand::Imm(48)))
            &&& lines[57] is Instruction && decode(instruction_text(lines[57])) == Some(Instr::Add(12, 12, Operand::Imm(1)))
            &&& lines[58] is Instruction && decode(instruction_text(lines[58])) == Some(Instr::B("__rt_gdt_class_loop"@))
            &&& !(lines[59] is Instruction)
            &&& lines[60] is Instruction && decode(instruction_text(lines[60])) == Some(Instr::Ldr(1, Address::Offset(10, 8)))
            &&& lines[61] is Instruction && decode(instruction_text(lines[61])) == Some(Instr::Ldr(0, Address::Offset(10, 0)))
        }),
{
    lemma_get_debug_type_lines(t);
    lemma_get_debug_type_decode_51();
    lemma_get_debug_type_decode_52();
    lemma_get_debug_type_decode_53();
    lemma_get_debug_type_decode_54();
    lemma_get_debug_type_decode_55();
    lemma_get_debug_type_decode_56();
    lemma_get_debug_type_decode_57();
    lemma_get_debug_type_decode_58();
    lemma_get_debug_type_decode_60();
    lemma_get_debug_type_decode_61();
}

/// How the model reads some of the AArch64 `get_debug_type` lines.
#[verifier::rlimit(50)]
#[verifier::spinoff_prover]
proof fn lemma_get_debug_type_decodes_60(t: Target)
    requires
        t.arch == Arch::AArch64,
    ensures
        ({
            let lines = get_debug_type(Seq::empty(), t);
            &&& lines[62] is Instruction && decode(instruction_text(lines[62])) == Some(Instr::B("__rt_gdt_ret"@))
            &&& !(lines[63] is Instruction)
            &&& lines[64] is Instruction && decode(instruction_text(lines[64])) == Some(Instr::Adrp(0, "_gdt_object"@))
            &&& lines[65] is Instruction && decode(instruction_text(lines[65])) == Some(Instr::AddPageOffset(0, 0, "_gdt_object"@))
            &&& lines[66] is Instruction && decode(instruction_text(lines[66])) == Some(Instr::Mov(1, Operand::Imm(6)))
            &&& lines[67] is Instruction && decode(instruction_text(lines[67])) == Some(Instr::B("__rt_gdt_ret"@))
            &&& !(lines[68] is Instruction)
            &&& lines[69] is Instruction && decode(instruction_text(lines[69])) == Some(Instr::Adrp(0, "_gdt_int"@))
            &&& lines[70] is Instruction && decode(instruction_text(lines[70])) == Some(Instr::AddPageOffset(0, 0, "_gdt_int"@))
            &&& lines[71] is Instruction && decode(instruction_text(lines[71])) == Some(Instr::Mov(1, Operand::Imm(3)))
            &&& lines[72] is Instruction && decode(instruction_text(lines[72])) == Some(Instr::B("__rt_gdt_ret"@))
            &&& !(lines[73] is Instruction)
        }),
{
    lemma_get_debug_type_lines(t);
    lemma_get_debug_type_decode_62();
    lemma_get_debug_type_decode_64(t.platform);
    lemma_get_debug_type_decode_65(t.platform);
    lemma_get_debug_type_decode_66();
    lemma_get_debug_type_decode_62();
    lemma_get_debug_type_decode_69(t.platform);
    lemma_get_debug_type_decode_70(t.platform);
    lemma_get_debug_type_decode_71();
    lemma_get_debug_type_decode_62();
}

/// How the model reads some of the AArch64 `get_debug_type` lines.
#[verifier::rlimit(50)]
#[verifier::spinoff_prover]
proof fn lemma_get_debug_type_decodes_72(t: Target)
    requires
        t.arch == Arch::AArch64,
    ensures
        ({
            let lines = get_debug_type(Seq::empty(), t);
            &&& lines[74] is Instruction && decode(instruction_text(lines[74])) == Some(Instr::Adrp(0, "_gdt_string"@))
            &&& lines[75] is Instruction && decode(instruction_text(lines[75])) == Some(Instr::AddPageOffset(0, 0, "_gdt_string"@))
            &&& lines[76] is Instruction && decode(instruction_text(lines[76])) == Some(Instr::Mov(1, Operand::Imm(6)))
            &&& lines[77] is Instruction && decode(instruction_text(lines[77])) == Some(Instr::B("__rt_gdt_ret"@))
            &&& !(lines[78] is Instruction)
            &&& lines[79] is Instruction && decode(instruction_text(lines[79])) == Some(Instr::Adrp(0, "_gdt_float"@))
            &&& lines[80] is Instruction && decode(instruction_text(lines[80])) == Some(Instr::AddPageOffset(0, 0, "_gdt_float"@))
            &&& lines[81] is Instruction && decode(instruction_text(lines[81])) == Some(Instr::Mov(1, Operand::Imm(5)))
            &&& lines[82] is Instruction && decode(instruction_text(lines[82])) == Some(Instr::B("__rt_gdt_ret"@))
            &&& !(lines[83] is Instruction)
            &&& lines[84] is Instruction && decode(instruction_text(lines[84])) == Some(Instr::Adrp(0, "_gdt_bool"@))
            &&& lines[85] is Instruction && decode(instruction_text(lines[85])) == Some(Instr::AddPageOffset(0, 0, "_gdt_bool"@))
        }),
{
    lemma_get_debug_type_lines(t);
    lemma_get_debug_type_decode_74(t.platform);
    lemma_get_debug_type_decode_75(t.platform);
    lemma_get_debug_type_decode_76();
    lemma_get_debug_type_decode_62();
    lemma_get_debug_type_decode_79(t.platform);
    lemma_get_debug_type_decode_80(t.platform);
    lemma_get_debug_type_decode_81();
    lemma_get_debug_type_decode_62();
    lemma_get_debug_type_decode_84(t.platform);
    lemma_get_debug_type_decode_85(t.platform);
}

/// How the model reads some of the AArch64 `get_debug_type` lines.
#[verifier::rlimit(50)]
#[verifier::spinoff_prover]
proof fn lemma_get_debug_type_decodes_84(t: Target)
    requires
        t.arch == Arch::AArch64,
    ensures
        ({
            let lines = get_debug_type(Seq::empty(), t);
            &&& lines[86] is Instruction && decode(instruction_text(lines[86])) == Some(Instr::Mov(1, Operand::Imm(4)))
            &&& lines[87] is Instruction && decode(instruction_text(lines[87])) == Some(Instr::B("__rt_gdt_ret"@))
            &&& !(lines[88] is Instruction)
            &&& lines[89] is Instruction && decode(instruction_text(lines[89])) == Some(Instr::Adrp(0, "_gdt_array"@))
            &&& lines[90] is Instruction && decode(instruction_text(lines[90])) == Some(Instr::AddPageOffset(0, 0, "_gdt_array"@))
            &&& lines[91] is Instruction && decode(instruction_text(lines[91])) == Some(Instr::Mov(1, Operand::Imm(5)))
            &&& lines[92] is Instruction && decode(instruction_text(lines[92])) == Some(Instr::B("__rt_gdt_ret"@))
            &&& !(lines[93] is Instruction)
            &&& lines[94] is Instruction && decode(instruction_text(lines[94])) == Some(Instr::Adrp(0, "_gdt_null"@))
            &&& lines[95] is Instruction && decode(instruction_text(lines[95])) == Some(Instr::AddPageOffset(0, 0, "_gdt_null"@))
            &&& lines[96] is Instruction && decode(instruction_text(lines[96])) == Some(Instr::Mov(1, Operand::Imm(4)))
            &&& lines[97] is Instruction && decode(instruction_text(lines[97])) == Some(Instr::B("__rt_gdt_ret"@))
        }),
{
    lemma_get_debug_type_lines(t);
    lemma_get_debug_type_decode_86();
    lemma_get_debug_type_decode_62();
    lemma_get_debug_type_decode_89(t.platform);
    lemma_get_debug_type_decode_90(t.platform);
    lemma_get_debug_type_decode_81();
    lemma_get_debug_type_decode_62();
    lemma_get_debug_type_decode_94(t.platform);
    lemma_get_debug_type_decode_95(t.platform);
    lemma_get_debug_type_decode_86();
    lemma_get_debug_type_decode_62();
}

/// How the model reads some of the AArch64 `get_debug_type` lines.
#[verifier::rlimit(50)]
#[verifier::spinoff_prover]
proof fn lemma_get_debug_type_decodes_96(t: Target)
    requires
        t.arch == Arch::AArch64,
    ensures
        ({
            let lines = get_debug_type(Seq::empty(), t);
            &&& !(lines[98] is Instruction)
            &&& lines[99] is Instruction && decode(instruction_text(lines[99])) == Some(Instr::Adrp(0, "_gdt_resource"@))
            &&& lines[100] is Instruction && decode(instruction_text(lines[100])) == Some(Instr::AddPageOffset(0, 0, "_gdt_resource"@))
            &&& lines[101] is Instruction && decode(instruction_text(lines[101])) == Some(Instr::Mov(1, Operand::Imm(17)))
            &&& lines[102] is Instruction && decode(instruction_text(lines[102])) == Some(Instr::B("__rt_gdt_ret"@))
            &&& !(lines[103] is Instruction)
            &&& lines[104] is Instruction && decode(instruction_text(lines[104])) == Some(Instr::Ldp(29, 30, Address::Offset(31, 16)))
            &&& lines[105] is Instruction && decode(instruction_text(lines[105])) == Some(Instr::Add(31, 31, Operand::Imm(32)))
            &&& lines[106] is Instruction && decode(instruction_text(lines[106])) == Some(Instr::Ret)
        }),
{
    lemma_get_debug_type_lines(t);
    lemma_get_debug_type_decode_99(t.platform);
    lemma_get_debug_type_decode_100(t.platform);
    lemma_get_debug_type_decode_101();
    lemma_get_debug_type_decode_62();
    lemma_get_debug_type_decode_104();
    lemma_get_debug_type_decode_105();
    lemma_get_debug_type_decode_106();
}

/// Running the `get_debug_type` lines along one path.
#[verifier::rlimit(60)]
#[verifier::spinoff_prover]
proof fn lemma_get_debug_type_runs_tag0(lines: Seq<Line>, env: Env, m: Machine)
    requires
        !(lines[6] is Instruction),
        lines[7] is Instruction && decode(instruction_text(lines[7])) == Some(Instr::Cbz(0, "__rt_gdt_null"@)),
        lines[8] is Instruction && decode(instruction_text(lines[8])) == Some(Instr::Ldr(9, Address::Offset(0, -8))),
        lines[9] is Instruction && decode(instruction_text(lines[9])) == Some(Instr::AndImm(9, 9, 255)),
        lines[10] is Instruction && decode(instruction_text(lines[10])) == Some(Instr::Cmp(9, Operand::Imm(2))),
        lines[11] is Instruction && decode(instruction_text(lines[11])) == Some(Instr::BCond(Cond::Eq, "__rt_gdt_array"@)),
        lines[12] is Instruction && decode(instruction_text(lines[12])) == Some(Instr::Cmp(9, Operand::Imm(3))),
        lines[13] is Instruction && decode(instruction_text(lines[13])) == Some(Instr::BCond(Cond::Eq, "__rt_gdt_array"@)),
        lines[14] is Instruction && decode(instruction_text(lines[14])) == Some(Instr::Cmp(9, Operand::Imm(4))),
        lines[15] is Instruction && decode(instruction_text(lines[15])) == Some(Instr::BCond(Cond::Eq, "__rt_gdt_object_from_x0"@)),
        lines[16] is Instruction && decode(instruction_text(lines[16])) == Some(Instr::Ldr(9, Address::Offset(0, 0))),
        lines[17] is Instruction && decode(instruction_text(lines[17])) == Some(Instr::Cmp(9, Operand::Imm(7))),
        lines[18] is Instruction && decode(instruction_text(lines[18])) == Some(Instr::BCond(Cond::Ne, "__rt_gdt_tags"@)),
        !(lines[21] is Instruction),
        lines[22] is Instruction && decode(instruction_text(lines[22])) == Some(Instr::Cmp(9, Operand::Imm(0))),
        lines[23] is Instruction && decode(instruction_text(lines[23])) == Some(Instr::BCond(Cond::Eq, "__rt_gdt_int"@)),
        !(lines[68] is Instruction),
        lines[69] is Instruction && decode(instruction_text(lines[69])) == Some(Instr::Adrp(0, "_gdt_int"@)),
        lines[70] is Instruction && decode(instruction_text(lines[70])) == Some(Instr::AddPageOffset(0, 0, "_gdt_int"@)),
        lines[71] is Instruction && decode(instruction_text(lines[71])) == Some(Instr::Mov(1, Operand::Imm(3))),
        lines[72] is Instruction && decode(instruction_text(lines[72])) == Some(Instr::B("__rt_gdt_ret"@)),
        !(lines[103] is Instruction),
        lines[104] is Instruction && decode(instruction_text(lines[104])) == Some(Instr::Ldp(29, 30, Address::Offset(31, 16))),
        lines[105] is Instruction && decode(instruction_text(lines[105])) == Some(Instr::Add(31, 31, Operand::Imm(32))),
        lines[106] is Instruction && decode(instruction_text(lines[106])) == Some(Instr::Ret),
        find_label(lines, "__rt_gdt_array"@, 0) == 88,
        find_label(lines, "__rt_gdt_int"@, 0) == 68,
        find_label(lines, "__rt_gdt_null"@, 0) == 93,
        find_label(lines, "__rt_gdt_object_from_x0"@, 0) == 42,
        find_label(lines, "__rt_gdt_ret"@, 0) == 103,
        find_label(lines, "__rt_gdt_tags"@, 0) == 21,
        lines.len() == 107,
        m.pc == 6,
        !m.returned,
        !m.stuck,
        (m.mem)(read(m, 0)) == 0,
        read(m, 0) != 0,
        (m.mem)(read(m, 0) - 8) % 256 != 2 && (m.mem)(read(m, 0) - 8) % 256 != 3 && (m.mem)(read(m, 0) - 8) % 256 != 4,
    ensures
        ({
            let r = run(lines, env, m, 40);
            let e = debug_type_entry(read(m, 0), m.mem);
            &&& r.returned
            &&& read(r, 0) == (env.symbol)(e.0)
            &&& read(r, 1) == e.1.len()
        }),
{
    lemma_debug_type_name_lengths();
    let m0 = m;
    lemma_step_passes(lines, env, m0);
    let m1 = step(lines, env, m0);
    assert(m1.pc == 7);
    lemma_step_instruction(lines, env, m1, instruction_text(lines[7]), Instr::Cbz(0, "__rt_gdt_null"@));
    let m2 = step(lines, env, m1);
    assert(m2.pc == 8);
    lemma_step_instruction(lines, env, m2, instruction_text(lines[8]), Instr::Ldr(9, Address::Offset(0, -8)));
    let m3 = step(lines, env, m2);
    assert(m3.pc == 9);
    lemma_step_instruction(lines, env, m3, instruction_text(lines[9]), Instr::AndImm(9, 9, 255));
    let m4 = step(lines, env, m3);
    assert(m4.pc == 10);
    lemma_step_instruction(lines, env, m4, instruction_text(lines[10]), Instr::Cmp(9, Operand::Imm(2)));
    let m5 = step(lines, env, m4);
    assert(m5.pc == 11);
    lemma_step_instruction(lines, env, m5, instruction_text(lines[11]), Instr::BCond(Cond::Eq, "__rt_gdt_array"@));
    let m6 = step(lines, env, m5);
    assert(m6.pc == 12);
    lemma_step_instruction(lines, env, m6, instruction_text(lines[12]), Instr::Cmp(9, Operand::Imm(3)));
    let m7 = step(lines, env, m6);
    assert(m7.pc == 13);
    lemma_step_instruction(lines, env, m7, instruction_text(lines[13]), Instr::BCond(Cond::Eq, "__rt_gdt_array"@));
    let m8 = step(lines, env, m7);
    assert(m8.pc == 14);
    lemma_step_instruction(lines, env, m8, instruction_text(lines[14]), Instr::Cmp(9, Operand::Imm(4)));
    let m9 = step(lines, env, m8);
    assert(m9.pc == 15);
    lemma_step_instruction(lines, env, m9, instruction_text(lines[15]), Instr::BCond(Cond::Eq, "__rt_gdt_object_from_x0"@));
    let m10 = step(lines, env, m9);
    assert(m10.pc == 16);
    lemma_step_instruction(lines, env, m10, instruction_text(lines[16]), Instr::Ldr(9, Address::Offset(0, 0)));
    let m11 = step(lines, env, m10);
    assert(m11.pc == 17);
    lemma_step_instruction(lines, env, m11, instruction_text(lines[17]), Instr::Cmp(9, Operand::Imm(7)));
    let m12 = step(lines, env, m11);
    assert(m12.pc == 18);
    lemma_step_instruction(lines, env, m12, instruction_text(lines[18]), Instr::BCond(Cond::Ne, "__rt_gdt_tags"@));
    let m13 = step(lines, env, m12);
    assert(m13.pc == 21);
    lemma_step_passes(lines, env, m13);
    let m14 = step(lines, env, m13);
    assert(m14.pc == 22);
    lemma_step_instruction(lines, env, m14, instruction_text(lines[22]), Instr::Cmp(9, Operand::Imm(0)));
    let m15 = step(lines, env, m14);
    assert(m15.pc == 23);
    lemma_step_instruction(lines, env, m15, instruction_text(lines[23]), Instr::BCond(Cond::Eq, "__rt_gdt_int"@));
    let m16 = step(lines, env, m15);
    assert(m16.pc == 68);
    lemma_step_passes(lines, env, m16);
    let m17 = step(lines, env, m16);
    assert(m17.pc == 69);
    lemma_step_instruction(lines, env, m17, instruction_text(lines[69]), Instr::Adrp(0, "_gdt_int"@));
    let m18 = step(lines, env, m17);
    assert(m18.pc == 70);
    lemma_step_instruction(lines, env, m18, instruction_text(lines[70]), Instr::AddPageOffset(0, 0, "_gdt_int"@));
    let m19 = step(lines, env, m18);
    assert(m19.pc == 71);
    lemma_step_instruction(lines, env, m19, instruction_text(lines[71]), Instr::Mov(1, Operand::Imm(3)));
    let m20 = step(lines, env, m19);
    assert(m20.pc == 72);
    lemma_step_instruction(lines, env, m20, instruction_text(lines[72]), Instr::B("__rt_gdt_ret"@));
    let m21 = step(lines, env, m20);
    assert(m21.pc == 103);
    lemma_step_passes(lines, env, m21);
    let m22 = step(lines, env, m21);
    assert(m22.pc == 104);
    lemma_step_instruction(lines, env, m22, instruction_text(lines[104]), Instr::Ldp(29, 30, Address::Offset(31, 16)));
    let m23 = step(lines, env, m22);
    assert(m23.pc == 105);
    lemma_step_instruction(lines, env, m23, instruction_text(lines[105]), Instr::Add(31, 31, Operand::Imm(32)));
    let m24 = step(lines, env, m23);
    assert(m24.pc == 106);
    lemma_step_instruction(lines, env, m24, instruction_text(lines[106]), Instr::Ret);
    let m25 = step(lines, env, m24);
    assert(m25.pc == m25.pc);
    lemma_run_step(lines, env, m0, 39);
    lemma_run_step(lines, env, m1, 38);
    lemma_run_step(lines, env, m2, 37);
    lemma_run_step(lines, env, m3, 36);
    lemma_run_step(lines, env, m4, 35);
    lemma_run_step(lines, env, m5, 34);
    lemma_run_step(lines, env, m6, 33);
    lemma_run_step(lines, env, m7, 32);
    lemma_run_step(lines, env, m8, 31);
    lemma_run_step(lines, env, m9, 30);
    lemma_run_step(lines, env, m10, 29);
    lemma_run_step(lines, env, m11, 28);
    lemma_run_step(lines, env, m12, 27);
    lemma_run_step(lines, env, m13, 26);
    lemma_run_step(lines, env, m14, 25);
    lemma_run_step(lines, env, m15, 24);
    lemma_run_step(lines, env, m16, 23);
    lemma_run_step(lines, env, m17, 22);
    lemma_run_step(lines, env, m18, 21);
    lemma_run_step(lines, env, m19, 20);
    lemma_run_step(lines, env, m20, 19);
    lemma_run_step(lines, env, m21, 18);
    lemma_run_step(lines, env, m22, 17);
    lemma_run_step(lines, env, m23, 16);
    lemma_run_step(lines, env, m24, 15);
    lemma_run_returned(lines, env, m25, 15);
}

/// Running the `get_debug_type` lines along one path.
#[verifier::rlimit(60)]
#[verifier::spinoff_prover]
proof fn lemma_get_debug_type_runs_tag1(lines: Seq<Line>, env: Env, m: Machine)
    requires
        !(lines[6] is Instruction),
        lines[7] is Instruction && decode(instruction_text(lines[7])) == Some(Instr::Cbz(0, "__rt_gdt_null"@)),
        lines[8] is Instruction && decode(instruction_text(lines[8])) == Some(Instr::Ldr(9, Address::Offset(0, -8))),
        lines[9] is Instruction && decode(instruction_text(lines[9])) == Some(Instr::AndImm(9, 9, 255)),
        lines[10] is Instruction && decode(instruction_text(lines[10])) == Some(Instr::Cmp(9, Operand::Imm(2))),
        lines[11] is Instruction && decode(instruction_text(lines[11])) == Some(Instr::BCond(Cond::Eq, "__rt_gdt_array"@)),
        lines[12] is Instruction && decode(instruction_text(lines[12])) == Some(Instr::Cmp(9, Operand::Imm(3))),
        lines[13] is Instruction && decode(instruction_text(lines[13])) == Some(Instr::BCond(Cond::Eq, "__rt_gdt_array"@)),
        lines[14] is Instruction && decode(instruction_text(lines[14])) == Some(Instr::Cmp(9, Operand::Imm(4))),
        lines[15] is Instruction && decode(instruction_text(lines[15])) == Some(Instr::BCond(Cond::Eq, "__rt_gdt_object_from_x0"@)),
        lines[16] is Instruction && decode(instruction_text(lines[16])) == Some(Instr::Ldr(9, Address::Offset(0, 0))),
        lines[17] is Instruction && decode(instruction_text(lines[17])) == Some(Instr::Cmp(9, Operand::Imm(7))),
        lines[18] is Instruction && decode(instruction_text(lines[18])) == Some(Instr::BCond(Cond::Ne, "__rt_gdt_tags"@)),
        !(lines[21] is Instruction),
        lines[22] is Instruction && decode(instruction_text(lines[22])) == Some(Instr::Cmp(9, Operand::Imm(0))),
        lines[23] is Instruction && decode(instruction_text(lines[23])) == Some(Instr::BCond(Cond::Eq, "__rt_gdt_int"@)),
        lines[24] is Instruction && decode(instruction_text(lines[24])) == Some(Instr::Cmp(9, Operand::Imm(1))),
        lines[25] is Instruction && decode(instruction_text(lines[25])) == Some(Instr::BCond(Cond::Eq, "__rt_gdt_string"@)),
        !(lines[73] is Instruction),
        lines[74] is Instruction && decode(instruction_text(lines[74])) == Some(Instr::Adrp(0, "_gdt_string"@)),
        lines[75] is Instruction && decode(instruction_text(lines[75])) == Some(Instr::AddPageOffset(0, 0, "_gdt_string"@)),
        lines[76] is Instruction && decode(instruction_text(lines[76])) == Some(Instr::Mov(1, Operand::Imm(6))),
        lines[77] is Instruction && decode(instruction_text(lines[77])) == Some(Instr::B("__rt_gdt_ret"@)),
        !(lines[103] is Instruction),
        lines[104] is Instruction && decode(instruction_text(lines[104])) == Some(Instr::Ldp(29, 30, Address::Offset(31, 16))),
        lines[105] is Instruction && decode(instruction_text(lines[105])) == Some(Instr::Add(31, 31, Operand::Imm(32))),
        lines[106] is Instruction && decode(instruction_text(lines[106])) == Some(Instr::Ret),
        find_label(lines, "__rt_gdt_array"@, 0) == 88,
        find_label(lines, "__rt_gdt_int"@, 0) == 68,
        find_label(lines, "__rt_gdt_null"@, 0) == 93,
        find_label(lines, "__rt_gdt_object_from_x0"@, 0) == 42,
        find_label(lines, "__rt_gdt_ret"@, 0) == 103,
        find_label(lines, "__rt_gdt_string"@, 0) == 73,
        find_label(lines, "__rt_gdt_tags"@, 0) == 21,
        lines.len() == 107,
        m.pc == 6,
        !m.returned,
        !m.stuck,
        (m.mem)(read(m, 0)) == 1,
        read(m, 0) != 0,
        (m.mem)(read(m, 0) - 8) % 256 != 2 && (m.mem)(read(m, 0) - 8) % 256 != 3 && (m.mem)(read(m, 0) - 8) % 256 != 4,
    ensures
        ({
            let r = run(lines, env, m, 40);
            let e = debug_type_entry(read(m, 0), m.mem);
            &&& r.returned
            &&& read(r, 0) == (env.symbol)(e.0)
            &&& read(r, 1) == e.1.len()
        }),
{
    lemma_debug_type_name_lengths();
    let m0 = m;
    lemma_step_passes(lines, env, m0);
    let m1 = step(lines, env, m0);
    assert(m1.pc == 7);
    lemma_step_instruction(lines, env, m1, instruction_text(lines[7]), Instr::Cbz(0, "__rt_gdt_null"@));
    let m2 = step(lines, env, m1);
    assert(m2.pc == 8);
    lemma_step_instruction(lines, env, m2, instruction_text(lines[8]), Instr::Ldr(9, Address::Offset(0, -8)));
    let m3 = step(lines, env, m2);
    assert(m3.pc == 9);
    lemma_step_instruction(lines, env, m3, instruction_text(lines[9]), Instr::AndImm(9, 9, 255));
    let m4 = step(lines, env, m3);
    assert(m4.pc == 10);
    lemma_step_instruction(lines, env, m4, instruction_text(lines[10]), Instr::Cmp(9, Operand::Imm(2)));
    let m5 = step(lines, env, m4);
    assert(m5.pc == 11);
    lemma_step_instruction(lines, env, m5, instruction_text(lines[11]), Instr::BCond(Cond::Eq, "__rt_gdt_array"@));
    let m6 = step(lines, env, m5);
    assert(m6.pc == 12);
    lemma_step_instruction(lines, env, m6, instruction_text(lines[12]), Instr::Cmp(9, Operand::Imm(3)));
    let m7 = step(lines, env, m6);
    assert(m7.pc == 13);
    lemma_step_instruction(lines, env, m7, instruction_text(lines[13]), Instr::BCond(Cond::Eq, "__rt_gdt_array"@));
    let m8 = step(lines, env, m7);
    assert(m8.pc == 14);
    lemma_step_instruction(lines, env, m8, instruction_text(lines[14]), Instr::Cmp(9, Operand::Imm(4)));
    let m9 = step(lines, env, m8);
    assert(m9.pc == 15);
    lemma_step_instruction(lines, env, m9, instruction_text(lines[15]), Instr::BCond(Cond::Eq, "__rt_gdt_object_from_x0"@));
    let m10 = step(lines, env, m9);
    assert(m10.pc == 16);
    lemma_step_instruction(lines, env, m10, instruction_text(lines[16]), Instr::Ldr(9, Address::Offset(0, 0)));
    let m11 = step(lines, env, m10);
    assert(m11.pc == 17);
    lemma_step_instruction(lines, env, m11, instruction_text(lines[17]), Instr::Cmp(9, Operand::Imm(7)));
    let m12 = step(lines, env, m11);
    assert(m12.pc == 18);
    lemma_step_instruction(lines, env, m12, instruction_text(lines[18]), Instr::BCond(Cond::Ne, "__rt_gdt_tags"@));
    let m13 = step(lines, env, m12);
    assert(m13.pc == 21);
    lemma_step_passes(lines, env, m13);
    let m14 = step(lines, env, m13);
    assert(m14.pc == 22);
    lemma_step_instruction(lines, env, m14, instruction_text(lines[22]), Instr::Cmp(9, Operand::Imm(0)));
    let m15 = step(lines, env, m14);
    assert(m15.pc == 23);
    lemma_step_instruction(lines, env, m15, instruction_text(lines[23]), Instr::BCond(Cond::Eq, "__rt_gdt_int"@));
    let m16 = step(lines, env, m15);
    assert(m16.pc == 24);
    lemma_step_instruction(lines, env, m16, instruction_text(lines[24]), Instr::Cmp(9, Operand::Imm(1)));
    let m17 = step(lines, env, m16);
    assert(m17.pc == 25);
    lemma_step_instruction(lines, env, m17, instruction_text(lines[25]), Instr::BCond(Cond::Eq, "__rt_gdt_string"@));
    let m18 = step(lines, env, m17);
    assert(m18.pc == 73);
    lemma_step_passes(lines, env, m18);
    let m19 = step(lines, env, m18);
    assert(m19.pc == 74);
    lemma_step_instruction(lines, env, m19, instruction_text(lines[74]), Instr::Adrp(0, "_gdt_string"@));
    let m20 = step(lines, env, m19);
    assert(m20.pc == 75);
    lemma_step_instruction(lines, env, m20, instruction_text(lines[75]), Instr::AddPageOffset(0, 0, "_gdt_string"@));
    let m21 = step(lines, env, m20);
    assert(m21.pc == 76);
    lemma_step_instruction(lines, env, m21, instruction_text(lines[76]), Instr::Mov(1, Operand::Imm(6)));
    let m22 = step(lines, env, m21);
    assert(m22.pc == 77);
    lemma_step_instruction(lines, env, m22, instruction_text(lines[77]), Instr::B("__rt_gdt_ret"@));
    let m23 = step(lines, env, m22);
    assert(m23.pc == 103);
    lemma_step_passes(lines, env, m23);
    let m24 = step(lines, env, m23);
    assert(m24.pc == 104);
    lemma_step_instruction(lines, env, m24, instruction_text(lines[104]), Instr::Ldp(29, 30, Address::Offset(31, 16)));
    let m25 = step(lines, env, m24);
    assert(m25.pc == 105);
    lemma_step_instruction(lines, env, m25, instruction_text(lines[105]), Instr::Add(31, 31, Operand::Imm(32)));
    let m26 = step(lines, env, m25);
    assert(m26.pc == 106);
    lemma_step_instruction(lines, env, m26, instruction_text(lines[106]), Instr::Ret);
    let m27 = step(lines, env, m26);
    assert(m27.pc == m27.pc);
    lemma_run_step(lines, env, m0, 39);
    lemma_run_step(lines, env, m1, 38);
    lemma_run_step(lines, env, m2, 37);
    lemma_run_step(lines, env, m3, 36);
    lemma_run_step(lines, env, m4, 35);
    lemma_run_step(lines, env, m5, 34);
    lemma_run_step(lines, env, m6, 33);
    lemma_run_step(lines, env, m7, 32);
    lemma_run_step(lines, env, m8, 31);
    lemma_run_step(lines, env, m9, 30);
    lemma_run_step(lines, env, m10, 29);
    lemma_run_step(lines, env, m11, 28);
    lemma_run_step(lines, env, m12, 27);
    lemma_run_step(lines, env, m13, 26);
    lemma_run_step(lines, env, m14, 25);
    lemma_run_step(lines, env, m15, 24);
    lemma_run_step(lines, env, m16, 23);
    lemma_run_step(lines, env, m17, 22);
    lemma_run_step(lines, env, m18, 21);
    lemma_run_step(lines, env, m19, 20);
    lemma_run_step(lines, env, m20, 19);
    lemma_run_step(lines, env, m21, 18);
    lemma_run_step(lines, env, m22, 17);
    lemma_run_step(lines, env, m23, 16);
    lemma_run_step(lines, env, m24, 15);
    lemma_run_step(lines, env, m25, 14);
    lemma_run_step(lines, env, m26, 13);
    lemma_run_returned(lines, env, m27, 13);
}

/// Running the `get_debug_type` lines along one path.
#[verifier::rlimit(60)]
#[verifier::spinoff_prover]
proof fn lemma_get_debug_type_runs_tag2(lines: Seq<Line>, env: Env, m: Machine)
    requires
        !(lines[6] is Instruction),
        lines[7] is Instruction && decode(instruction_text(lines[7])) == Some(Instr::Cbz(0, "__rt_gdt_null"@)),
        lines[8] is Instruction && decode(instruction_text(lines[8])) == Some(Instr::Ldr(9, Address::Offset(0, -8))),
        lines[9] is Instruction && decode(instruction_text(lines[9])) == Some(Instr::AndImm(9, 9, 255)),
        lines[10] is Instruction && decode(instruction_text(lines[10])) == Some(Instr::Cmp(9, Operand::Imm(2))),
        lines[11] is Instruction && decode(instruction_text(lines[11])) == Some(Instr::BCond(Cond::Eq, "__rt_gdt_array"@)),
        lines[12] is Instruction && decode(instruction_text(lines[12])) == Some(Instr::Cmp(9, Operand::Imm(3))),
        lines[13] is Instruction && decode(instruction_text(lines[13])) == Some(Instr::BCond(Cond::Eq, "__rt_gdt_array"@)),
        lines[14] is Instruction && decode(instruction_text(lines[14])) == Some(Instr::Cmp(9, Operand::Imm(4))),
        lines[15] is Instruction && decode(instruction_text(lines[15])) == Some(Instr::BCond(Cond::Eq, "__rt_gdt_object_from_x0"@)),
        lines[16] is Instruction && decode(instruction_text(lines[16])) == Some(Instr::Ldr(9, Address::Offset(0, 0))),
        lines[17] is Instruction && decode(instruction_text(lines[17])) == Some(Instr::Cmp(9, Operand::Imm(7))),
        lines[18] is Instruction && decode(instruction_text(lines[18])) == Some(Instr::BCond(Cond::Ne, "__rt_gdt_tags"@)),
        !(lines[21] is Instruction),
        lines[22] is Instruction && decode(instruction_text(lines[22])) == Some(Instr::Cmp(9, Operand::Imm(0))),
        lines[23] is Instruction && decode(instruction_text(lines[23])) == Some(Instr::BCond(Cond::Eq, "__rt_gdt_int"@)),
        lines[24] is Instruction && decode(instruction_text(lines[24])) == Some(Instr::Cmp(9, Operand::Imm(1))),
        lines[25] is Instruction && decode(instruction_text(lines[25])) == Some(Instr::BCond(Cond::Eq, "__rt_gdt_string"@)),
        lines[26] is Instruction && decode(instruction_text(lines[26])) == Some(Instr::Cmp(9, Operand::Imm(2))),
        lines[27] is Instruction && decode(instruction_text(lines[27])) == Some(Instr::BCond(Cond::Eq, "__rt_gdt_float"@)),
        !(lines[78] is Instruction),
        lines[79] is Instruction && decode(instruction_text(lines[79])) == Some(Instr::Adrp(0, "_gdt_float"@)),
        lines[80] is Instruction && decode(instruction_text(lines[80])) == Some(Instr::AddPageOffset(0, 0, "_gdt_float"@)),
        lines[81] is Instruction && decode(instruction_text(lines[81])) == Some(Instr::Mov(1, Operand::Imm(5))),
        lines[82] is Instruction && decode(instruction_text(lines[82])) == Some(Instr::B("__rt_gdt_ret"@)),
        !(lines[103] is Instruction),
        lines[104] is Instruction && decode(instruction_text(lines[104])) == Some(Instr::Ldp(29, 30, Address::Offset(31, 16))),
        lines[105] is Instruction && decode(instruction_text(lines[105])) == Some(Instr::Add(31, 31, Operand::Imm(32))),
        lines[106] is Instruction && decode(instruction_text(lines[106])) == Some(Instr::Ret),
        find_label(lines, "__rt_gdt_array"@, 0) == 88,
        find_label(lines, "__rt_gdt_float"@, 0) == 78,
        find_label(lines, "__rt_gdt_int"@, 0) == 68,
        find_label(lines, "__rt_gdt_null"@, 0) == 93,
        find_label(lines, "__rt_gdt_object_from_x0"@, 0) == 42,
        find_label(lines, "__rt_gdt_ret"@, 0) == 103,
        find_label(lines, "__rt_gdt_string"@, 0) == 73,
        find_label(lines, "__rt_gdt_tags"@, 0) == 21,
        lines.len() == 107,
        m.pc == 6,
        !m.returned,
        !m.stuck,
        (m.mem)(read(m, 0)) == 2,
        read(m, 0) != 0,
        (m.mem)(read(m, 0) - 8) % 256 != 2 && (m.mem)(read(m, 0) - 8) % 256 != 3 && (m.mem)(read(m, 0) - 8) % 256 != 4,
    ensures
        ({
            let r = run(lines, env, m, 40);
            let e = debug_type_entry(read(m, 0), m.mem);
            &&& r.returned
            &&& read(r, 0) == (env.symbol)(e.0)
            &&& read(r, 1) == e.1.len()
        }),
{
    lemma_debug_type_name_lengths();
    let m0 = m;
    lemma_step_passes(lines, env, m0);
    let m1 = step(lines, env, m0);
    assert(m1.pc == 7);
    lemma_step_instruction(lines, env, m1, instruction_text(lines[7]), Instr::Cbz(0, "__rt_gdt_null"@));
    let m2 = step(lines, env, m1);
    assert(m2.pc == 8);
    lemma_step_instruction(lines, env, m2, instruction_text(lines[8]), Instr::Ldr(9, Address::Offset(0, -8)));
    let m3 = step(lines, env, m2);
    assert(m3.pc == 9);
    lemma_step_instruction(lines, env, m3, instruction_text(lines[9]), Instr::AndImm(9, 9, 255));
    let m4 = step(lines, env, m3);
    assert(m4.pc == 10);
    lemma_step_instruction(lines, env, m4, instruction_text(lines[10]), Instr::Cmp(9, Operand::Imm(2)));
    let m5 = step(lines, env, m4);
    assert(m5.pc == 11);
    lemma_step_instruction(lines, env, m5, instruction_text(lines[11]), Instr::BCond(Cond::Eq, "__rt_gdt_array"@));
    let m6 = step(lines, env, m5);
    assert(m6.pc == 12);
    lemma_step_instruction(lines, env, m6, instruction_text(lines[12]), Instr::Cmp(9, Operand::Imm(3)));
    let m7 = step(lines, env, m6);
    assert(m7.pc == 13);
    lemma_step_instruction(lines, env, m7, instruction_text(lines[13]), Instr::BCond(Cond::Eq, "__rt_gdt_array"@));
    let m8 = step(lines, env, m7);
    assert(m8.pc == 14);
    lemma_step_instruction(lines, env, m8, instruction_text(lines[14]), Instr::Cmp(9, Operand::Imm(4)));
    let m9 = step(lines, env, m8);
    assert(m9.pc == 15);
    lemma_step_instruction(lines, env, m9, instruction_text(lines[15]), Instr::BCond(Cond::Eq, "__rt_gdt_object_from_x0"@));
    let m10 = step(lines, env, m9);
    assert(m10.pc == 16);
    lemma_step_instruction(lines, env, m10, instruction_text(lines[16]), Instr::Ldr(9, Address::Offset(0, 0)));
    let m11 = step(lines, env, m10);
    assert(m11.pc == 17);
    lemma_step_instruction(lines, env, m11, instruction_text(lines[17]), Instr::Cmp(9, Operand::Imm(7)));
    let m12 = step(lines, env, m11);
    assert(m12.pc == 18);
    lemma_step_instruction(lines, env, m12, instruction_text(lines[18]), Instr::BCond(Cond::Ne, "__rt_gdt_tags"@));
    let m13 = step(lines, env, m12);
    assert(m13.pc == 21);
    lemma_step_passes(lines, env, m13);
    let m14 = step(lines, env, m13);
    assert(m14.pc == 22);
    lemma_step_instruction(lines, env, m14, instruction_text(lines[22]), Instr::Cmp(9, Operand::Imm(0)));
    let m15 = step(lines, env, m14);
    assert(m15.pc == 23);
    lemma_step_instruction(lines, env, m15, instruction_text(lines[23]), Instr::BCond(Cond::Eq, "__rt_gdt_int"@));
    let m16 = step(lines, env, m15);
    assert(m16.pc == 24);
    lemma_step_instruction(lines, env, m16, instruction_text(lines[24]), Instr::Cmp(9, Operand::Imm(1)));
    let m17 = step(lines, env, m16);
    assert(m17.pc == 25);
    lemma_step_instruction(lines, env, m17, instruction_text(lines[25]), Instr::BCond(Cond::Eq, "__rt_gdt_string"@));
    let m18 = step(lines, env, m17);
    assert(m18.pc == 26);
    lemma_step_instruction(lines, env, m18, instruction_text(lines[26]), Instr::Cmp(9, Operand::Imm(2)));
    let m19 = step(lines, env, m18);
    assert(m19.pc == 27);
    lemma_step_instruction(lines, env, m19, instruction_text(lines[27]), Instr::BCond(Cond::Eq, "__rt_gdt_float"@));
    let m20 = step(lines, env, m19);
    assert(m20.pc == 78);
    lemma_step_passes(lines, env, m20);
    let m21 = step(lines, env, m20);
    assert(m21.pc == 79);
    lemma_step_instruction(lines, env, m21, instruction_text(lines[79]), Instr::Adrp(0, "_gdt_float"@));
    let m22 = step(lines, env, m21);
    assert(m22.pc == 80);
    lemma_step_instruction(lines, env, m22, instruction_text(lines[80]), Instr::AddPageOffset(0, 0, "_gdt_float"@));
    let m23 = step(lines, env, m22);
    assert(m23.pc == 81);
    lemma_step_instruction(lines, env, m23, instruction_text(lines[81]), Instr::Mov(1, Operand::Imm(5)));
    let m24 = step(lines, env, m23);
    assert(m24.pc == 82);
    lemma_step_instruction(lines, env, m24, instruction_text(lines[82]), Instr::B("__rt_gdt_ret"@));
    let m25 = step(lines, env, m24);
    assert(m25.pc == 103);
    lemma_step_passes(lines, env, m25);
    let m26 = step(lines, env, m25);
    assert(m26.pc == 104);
    lemma_step_instruction(lines, env, m26, instruction_text(lines[104]), Instr::Ldp(29, 30, Address::Offset(31, 16)));
    let m27 = step(lines, env, m26);
    assert(m27.pc == 105);
    lemma_step_instruction(lines, env, m27, instruction_text(lines[105]), Instr::Add(31, 31, Operand::Imm(32)));
    let m28 = step(lines, env, m27);
    assert(m28.pc == 106);
    lemma_step_instruction(lines, env, m28, instruction_text(lines[106]), Instr::Ret);
    let m29 = step(lines, env, m28);
    assert(m29.pc == m29.pc);
    lemma_run_step(lines, env, m0, 39);
    lemma_run_step(lines, env, m1, 38);
    lemma_run_step(lines, env, m2, 37);
    lemma_run_step(lines, env, m3, 36);
    lemma_run_step(lines, env, m4, 35);
    lemma_run_step(lines, env, m5, 34);
    lemma_run_step(lines, env, m6, 33);
    lemma_run_step(lines, env, m7, 32);
    lemma_run_step(lines, env, m8, 31);
    lemma_run_step(lines, env, m9, 30);
    lemma_run_step(lines, env, m10, 29);
    lemma_run_step(lines, env, m11, 28);
    lemma_run_step(lines, env, m12, 27);
    lemma_run_step(lines, env, m13, 26);
    lemma_run_step(lines, env, m14, 25);
    lemma_run_step(lines, env, m15, 24);
    lemma_run_step(lines, env, m16, 23);
    lemma_run_step(lines, env, m17, 22);
    lemma_run_step(lines, env, m18, 21);
    lemma_run_step(lines, env, m19, 20);
    lemma_run_step(lines, env, m20, 19);
    lemma_run_step(lines, env, m21, 18);
    lemma_run_step(lines, env, m22, 17);
    lemma_run_step(lines, env, m23, 16);
    lemma_run_step(lines, env, m24, 15);
    lemma_run_step(lines, env, m25, 14);
    lemma_run_step(lines, env, m26, 13);
    lemma_run_step(lines, env, m27, 12);
    lemma_run_step(lines, env, m28, 11);
    lemma_run_returned(lines, env, m29, 11);
}

/// Running the `get_debug_type` lines along one path.
#[verifier::rlimit(60)]
#[verifier::spinoff_prover]
proof fn lemma_get_debug_type_runs_tag3(lines: Seq<Line>, env: Env, m: Machine)
    requires
        !(lines[6] is Instruction),
        lines[7] is Instruction && decode(instruction_text(lines[7])) == Some(Instr::Cbz(0, "__rt_gdt_null"@)),
        lines[8] is Instruction && decode(instruction_text(lines[8])) == Some(Instr::Ldr(9, Address::Offset(0, -8))),
        lines[9] is Instruction && decode(instruction_text(lines[9])) == Some(Instr::AndImm(9, 9, 255)),
        lines[10] is Instruction && decode(instruction_text(lines[10])) == Some(Instr::Cmp(9, Operand::Imm(2))),
        lines[11] is Instruction && decode(instruction_text(lines[11])) == Some(Instr::BCond(Cond::Eq, "__rt_gdt_array"@)),
        lines[12] is Instruction && decode(instruction_text(lines[12])) == Some(Instr::Cmp(9, Operand::Imm(3))),
        lines[13] is Instruction && decode(instruction_text(lines[13])) == Some(Instr::BCond(Cond::Eq, "__rt_gdt_array"@)),
        lines[14] is Instruction && decode(instruction_text(lines[14])) == Some(Instr::Cmp(9, Operand::Imm(4))),
        lines[15] is Instruction && decode(instruction_text(lines[15])) == Some(Instr::BCond(Cond::Eq, "__rt_gdt_object_from_x0"@)),
        lines[16] is Instruction && decode(instruction_text(lines[16])) == Some(Instr::Ldr(9, Address::Offset(0, 0))),
        lines[17] is Instruction && decode(instruction_text(lines[17])) == Some(Instr::Cmp(9, Operand::Imm(7))),
        lines[18] is Instruction && decode(instruction_text(lines[18])) == Some(Instr::BCond(Cond::Ne, "__rt_gdt_tags"@)),
        !(lines[21] is Instruction),
        lines[22] is Instruction && decode(instruction_text(lines[22])) == Some(Instr::Cmp(9, Operand::Imm(0))),
        lines[23] is Instruction && decode(instruction_text(lines[23])) == Some(Instr::BCond(Cond::Eq, "__rt_gdt_int"@)),
        lines[24] is Instruction && decode(instruction_text(lines[24])) == Some(Instr::Cmp(9, Operand::Imm(1))),
        lines[25] is Instruction && decode(instruction_text(lines[25])) == Some(Instr::BCond(Cond::Eq, "__rt_gdt_string"@)),
        lines[26] is Instruction && decode(instruction_text(lines[26])) == Some(Instr::Cmp(9, Operand::Imm(2))),
        lines[27] is Instruction && decode(instruction_text(lines[27])) == Some(Instr::BCond(Cond::Eq, "__rt_gdt_float"@)),
        lines[28] is Instruction && decode(instruction_text(lines[28])) == Some(Instr::Cmp(9, Operand::Imm(3))),
        lines[29] is Instruction && decode(instruction_text(lines[29])) == Some(Instr::BCond(Cond::Eq, "__rt_gdt_bool"@)),
        !(lines[83] is Instruction),
        lines[84] is Instruction && decode(instruction_text(lines[84])) == Some(Instr::Adrp(0, "_gdt_bool"@)),
        lines[85] is Instruction && decode(instruction_text(lines[85])) == Some(Instr::AddPageOffset(0, 0, "_gdt_bool"@)),
        lines[86] is Instruction && decode(instruction_text(lines[86])) == Some(Instr::Mov(1, Operand::Imm(4))),
        lines[87] is Instruction && decode(instruction_text(lines[87])) == Some(Instr::B("__rt_gdt_ret"@)),
        !(lines[103] is Instruction),
        lines[104] is Instruction && decode(instruction_text(lines[104])) == Some(Instr::Ldp(29, 30, Address::Offset(31, 16))),
        lines[105] is Instruction && decode(instruction_text(lines[105])) == Some(Instr::Add(31, 31, Operand::Imm(32))),
        lines[106] is Instruction && decode(instruction_text(lines[106])) == Some(Instr::Ret),
        find_label(lines, "__rt_gdt_array"@, 0) == 88,
        find_label(lines, "__rt_gdt_bool"@, 0) == 83,
        find_label(lines, "__rt_gdt_float"@, 0) == 78,
        find_label(lines, "__rt_gdt_int"@, 0) == 68,
        find_label(lines, "__rt_gdt_null"@, 0) == 93,
        find_label(lines, "__rt_gdt_object_from_x0"@, 0) == 42,
        find_label(lines, "__rt_gdt_ret"@, 0) == 103,
        find_label(lines, "__rt_gdt_string"@, 0) == 73,
        find_label(lines, "__rt_gdt_tags"@, 0) == 21,
        lines.len() == 107,
        m.pc == 6,
        !m.returned,
        !m.stuck,
        (m.mem)(read(m, 0)) == 3,
        read(m, 0) != 0,
        (m.mem)(read(m, 0) - 8) % 256 != 2 && (m.mem)(read(m, 0) - 8) % 256 != 3 && (m.mem)(read(m, 0) - 8) % 256 != 4,
    ensures
        ({
            let r = run(lines, env, m, 40);
            let e = debug_type_entry(read(m, 0), m.mem);
            &&& r.returned
            &&& read(r, 0) == (env.symbol)(e.0)
            &&& read(r, 1) == e.1.len()
        }),
{
    lemma_debug_type_name_lengths();
    let m0 = m;
    lemma_step_passes(lines, env, m0);
    let m1 = step(lines, env, m0);
    assert(m1.pc == 7);
    lemma_step_instruction(lines, env, m1, instruction_text(lines[7]), Instr::Cbz(0, "__rt_gdt_null"@));
    let m2 = step(lines, env, m1);
    assert(m2.pc == 8);
    lemma_step_instruction(lines, env, m2, instruction_text(lines[8]), Instr::Ldr(9, Address::Offset(0, -8)));
    let m3 = step(lines, env, m2);
    assert(m3.pc == 9);
    lemma_step_instruction(lines, env, m3, instruction_text(lines[9]), Instr::AndImm(9, 9, 255));
    let m4 = step(lines, env, m3);
    assert(m4.pc == 10);
    lemma_step_instruction(lines, env, m4, instruction_text(lines[10]), Instr::Cmp(9, Operand::Imm(2)));
    let m5 = step(lines, env, m4);
    assert(m5.pc == 11);
    lemma_step_instruction(lines, env, m5, instruction_text(lines[11]), Instr::BCond(Cond::Eq, "__rt_gdt_array"@));
    let m6 = step(lines, env, m5);
    assert(m6.pc == 12);
    lemma_step_instruction(lines, env, m6, instruction_text(lines[12]), Instr::Cmp(9, Operand::Imm(3)));
    let m7 = step(lines, env, m6);
    assert(m7.pc == 13);
    lemma_step_instruction(lines, env, m7, instruction_text(lines[13]), Instr::BCond(Cond::Eq, "__rt_gdt_array"@));
    let m8 = step(lines, env, m7);
    assert(m8.pc == 14);
    lemma_step_instruction(lines, env, m8, instruction_text(lines[14]), Instr::Cmp(9, Operand::Imm(4)));
    let m9 = step(lines, env, m8);
    assert(m9.pc == 15);
    lemma_step_instruction(lines, env, m9, instruction_text(lines[15]), Instr::BCond(Cond::Eq, "__rt_gdt_object_from_x0"@));
    let m10 = step(lines, env, m9);
    assert(m10.pc == 16);
    lemma_step_instruction(lines, env, m10, instruction_text(lines[16]), Instr::Ldr(9, Address::Offset(0, 0)));
    let m11 = step(lines, env, m10);
    assert(m11.pc == 17);
    lemma_step_instruction(lines, env, m11, instruction_text(lines[17]), Instr::Cmp(9, Operand::Imm(7)));
    let m12 = step(lines, env, m11);
    assert(m12.pc == 18);
    lemma_step_instruction(lines, env, m12, instruction_text(lines[18]), Instr::BCond(Cond::Ne, "__rt_gdt_tags"@));
    let m13 = step(lines, env, m12);
    assert(m13.pc == 21);
    lemma_step_passes(lines, env, m13);
    let m14 = step(lines, env, m13);
    assert(m14.pc == 22);
    lemma_step_instruction(lines, env, m14, instruction_text(lines[22]), Instr::Cmp(9, Operand::Imm(0)));
    let m15 = step(lines, env, m14);
    assert(m15.pc == 23);
    lemma_step_instruction(lines, env, m15, instruction_text(lines[23]), Instr::BCond(Cond::Eq, "__rt_gdt_int"@));
    let m16 = step(lines, env, m15);
    assert(m16.pc == 24);
    lemma_step_instruction(lines, env, m16, instruction_text(lines[24]), Instr::Cmp(9, Operand::Imm(1)));
    let m17 = step(lines, env, m16);
    assert(m17.pc == 25);
    lemma_step_instruction(lines, env, m17, instruction_text(lines[25]), Instr::BCond(Cond::Eq, "__rt_gdt_string"@));
    let m18 = step(lines, env, m17);
    assert(m18.pc == 26);
    lemma_step_instruction(lines, env, m18, instruction_text(lines[26]), Instr::Cmp(9, Operand::Imm(2)));
    let m19 = step(lines, env, m18);
    assert(m19.pc == 27);
    lemma_step_instruction(lines, env, m19, instruction_text(lines[27]), Instr::BCond(Cond::Eq, "__rt_gdt_float"@));
    let m20 = step(lines, env, m19);
    assert(m20.pc == 28);
    lemma_step_instruction(lines, env, m20, instruction_text(lines[28]), Instr::Cmp(9, Operand::Imm(3)));
    let m21 = step(lines, env, m20);
    assert(m21.pc == 29);
    lemma_step_instruction(lines, env, m21, instruction_text(lines[29]), Instr::BCond(Cond::Eq, "__rt_gdt_bool"@));
    let m22 = step(lines, env, m21);
    assert(m22.pc == 83);
    lemma_step_passes(lines, env, m22);
    let m23 = step(lines, env, m22);
    assert(m23.pc == 84);
    lemma_step_instruction(lines, env, m23, instruction_text(lines[84]), Instr::Adrp(0, "_gdt_bool"@));
    let m24 = step(lines, env, m23);
    assert(m24.pc == 85);
    lemma_step_instruction(lines, env, m24, instruction_text(lines[85]), Instr::AddPageOffset(0, 0, "_gdt_bool"@));
    let m25 = step(lines, env, m24);
    assert(m25.pc == 86);
    lemma_step_instruction(lines, env, m25, instruction_text(lines[86]), Instr::Mov(1, Operand::Imm(4)));
    let m26 = step(lines, env, m25);
    assert(m26.pc == 87);
    lemma_step_instruction(lines, env, m26, instruction_text(lines[87]), Instr::B("__rt_gdt_ret"@));
    let m27 = step(lines, env, m26);
    assert(m27.pc == 103);
    lemma_step_passes(lines, env, m27);
    let m28 = step(lines, env, m27);
    assert(m28.pc == 104);
    lemma_step_instruction(lines, env, m28, instruction_text(lines[104]), Instr::Ldp(29, 30, Address::Offset(31, 16)));
    let m29 = step(lines, env, m28);
    assert(m29.pc == 105);
    lemma_step_instruction(lines, env, m29, instruction_text(lines[105]), Instr::Add(31, 31, Operand::Imm(32)));
    let m30 = step(lines, env, m29);
    assert(m30.pc == 106);
    lemma_step_instruction(lines, env, m30, instruction_text(lines[106]), Instr::Ret);
    let m31 = step(lines, env, m30);
    assert(m31.pc == m31.pc);
    lemma_run_step(lines, env, m0, 39);
    lemma_run_step(lines, env, m1, 38);
    lemma_run_step(lines, env, m2, 37);
    lemma_run_step(lines, env, m3, 36);
    lemma_run_step(lines, env, m4, 35);
    lemma_run_step(lines, env, m5, 34);
    lemma_run_step(lines, env, m6, 33);
    lemma_run_step(lines, env, m7, 32);
    lemma_run_step(lines, env, m8, 31);
    lemma_run_step(lines, env, m9, 30);
    lemma_run_step(lines, env, m10, 29);
    lemma_run_step(lines, env, m11, 28);
    lemma_run_step(lines, env, m12, 27);
    lemma_run_step(lines, env, m13, 26);
    lemma_run_step(lines, env, m14, 25);
    lemma_run_step(lines, env, m15, 24);
    lemma_run_step(lines, env, m16, 23);
    lemma_run_step(lines, env, m17, 22);
    lemma_run_step(lines, env, m18, 21);
    lemma_run_step(lines, env, m19, 20);
    lemma_run_step(lines, env, m20, 19);
    lemma_run_step(lines, env, m21, 18);
    lemma_run_step(lines, env, m22, 17);
    lemma_run_step(lines, env, m23, 16);
    lemma_run_step(lines, env, m24, 15);
    lemma_run_step(lines, env, m25, 14);
    lemma_run_step(lines, env, m26, 13);
    lemma_run_step(lines, env, m27, 12);
    lemma_run_step(lines, env, m28, 11);
    lemma_run_step(lines, env, m29, 10);
    lemma_run_step(lines, env, m30, 9);
    lemma_run_returned(lines, env, m31, 9);
}

/// Running the `get_debug_type` lines along one path.
#[verifier::rlimit(60)]
#[verifier::spinoff_prover]
proof fn lemma_get_debug_type_runs_tag4(lines: Seq<Line>, env: Env, m: Machine)
    requires
        !(lines[6] is Instruction),
        lines[7] is Instruction && decode(instruction_text(lines[7])) == Some(Instr::Cbz(0, "__rt_gdt_null"@)),
        lines[8] is Instruction && decode(instruction_text(lines[8])) == Some(Instr::Ldr(9, Address::Offset(0, -8))),
        lines[9] is Instruction && decode(instruction_text(lines[9])) == Some(Instr::AndImm(9, 9, 255)),
        lines[10] is Instruction && decode(instruction_text(lines[10])) == Some(Instr::Cmp(9, Operand::Imm(2))),
        lines[11] is Instruction && decode(instruction_text(lines[11])) == Some(Instr::BCond(Cond::Eq, "__rt_gdt_array"@)),
        lines[12] is Instruction && decode(instruction_text(lines[12])) == Some(Instr::Cmp(9, Operand::Imm(3))),
        lines[13] is Instruction && decode(instruction_text(lines[13])) == Some(Instr::BCond(Cond::Eq, "__rt_gdt_array"@)),
        lines[14] is Instruction && decode(instruction_text(lines[14])) == Some(Instr::Cmp(9, Operand::Imm(4))),
        lines[15] is Instruction && decode(instruction_text(lines[15])) == Some(Instr::BCond(Cond::Eq, "__rt_gdt_object_from_x0"@)),
        lines[16] is Instruction && decode(instruction_text(lines[16])) == Some(Instr::Ldr(9, Address::Offset(0, 0))),
        lines[17] is Instruction && decode(instruction_text(lines[17])) == Some(Instr::Cmp(9, Operand::Imm(7))),
        lines[18] is Instruction && decode(instruction_text(lines[18])) == Some(Instr::BCond(Cond::Ne, "__rt_gdt_tags"@)),
        !(lines[21] is Instruction),
        lines[22] is Instruction && decode(instruction_text(lines[22])) == Some(Instr::Cmp(9, Operand::Imm(0))),
        lines[23] is Instruction && decode(instruction_text(lines[23])) == Some(Instr::BCond(Cond::Eq, "__rt_gdt_int"@)),
        lines[24] is Instruction && decode(instruction_text(lines[24])) == Some(Instr::Cmp(9, Operand::Imm(1))),
        lines[25] is Instruction && decode(instruction_text(lines[25])) == Some(Instr::BCond(Cond::Eq, "__rt_gdt_string"@)),
        lines[26] is Instruction && decode(instruction_text(lines[26])) == Some(Instr::Cmp(9, Operand::Imm(2))),
        lines[27] is Instruction && decode(instruction_text(lines[27])) == Some(Instr::BCond(Cond::Eq, "__rt_gdt_float"@)),
        lines[28] is Instruction && decode(instruction_text(lines[28])) == Some(Instr::Cmp(9, Operand::Imm(3))),
        lines[29] is Instruction && decode(instruction_text(lines[29])) == Some(Instr::BCond(Cond::Eq, "__rt_gdt_bool"@)),
        lines[30] is Instruction && decode(instruction_text(lines[30])) == Some(Instr::Cmp(9, Operand::Imm(4))),
        lines[31] is Instruction && decode(instruction_text(lines[31])) == Some(Instr::BCond(Cond::Eq, "__rt_gdt_array"@)),
        !(lines[88] is Instruction),
        lines[89] is Instruction && decode(instruction_text(lines[89])) == Some(Instr::Adrp(0, "_gdt_array"@)),
        lines[90] is Instruction && decode(instruction_text(lines[90])) == Some(Instr::AddPageOffset(0, 0, "_gdt_array"@)),
        lines[91] is Instruction && decode(instruction_text(lines[91])) == Some(Instr::Mov(1, Operand::Imm(5))),
        lines[92] is Instruction && decode(instruction_text(lines[92])) == Some(Instr::B("__rt_gdt_ret"@)),
        !(lines[103] is Instruction),
        lines[104] is Instruction && decode(instruction_text(lines[104])) == Some(Instr::Ldp(29, 30, Address::Offset(31, 16))),
        lines[105] is Instruction && decode(instruction_text(lines[105])) == Some(Instr::Add(31, 31, Operand::Imm(32))),
        lines[106] is Instruction && decode(instruction_text(lines[106])) == Some(Instr::Ret),
        find_label(lines, "__rt_gdt_array"@, 0) == 88,
        find_label(lines, "__rt_gdt_bool"@, 0) == 83,
        find_label(lines, "__rt_gdt_float"@, 0) == 78,
        find_label(lines, "__rt_gdt_int"@, 0) == 68,
        find_label(lines, "__rt_gdt_null"@, 0) == 93,
        find_label(lines, "__rt_gdt_object_from_x0"@, 0) == 42,
        find_label(lines, "__rt_gdt_ret"@, 0) == 103,
        find_label(lines, "__rt_gdt_string"@, 0) == 73,
        find_label(lines, "__rt_gdt_tags"@, 0) == 21,
        lines.len() == 107,
        m.pc == 6,
        !m.returned,
        !m.stuck,
        (m.mem)(read(m, 0)) == 4,
        read(m, 0) != 0,
        (m.mem)(read(m, 0) - 8) % 256 != 2 && (m.mem)(read(m, 0) - 8) % 256 != 3 && (m.mem)(read(m, 0) - 8) % 256 != 4,
    ensures
        ({
            let r = run(lines, env, m, 40);
            let e = debug_type_entry(read(m, 0), m.mem);
            &&& r.returned
            &&& read(r, 0) == (env.symbol)(e.0)
            &&& read(r, 1) == e.1.len()
        }),
{
    lemma_debug_type_name_lengths();
    let m0 = m;
    lemma_step_passes(lines, env, m0);
    let m1 = step(lines, env, m0);
    assert(m1.pc == 7);
    lemma_step_instruction(lines, env, m1, instruction_text(lines[7]), Instr::Cbz(0, "__rt_gdt_null"@));
    let m2 = step(lines, env, m1);
    assert(m2.pc == 8);
    lemma_step_instruction(lines, env, m2, instruction_text(lines[8]), Instr::Ldr(9, Address::Offset(0, -8)));
    let m3 = step(lines, env, m2);
    assert(m3.pc == 9);
    lemma_step_instruction(lines, env, m3, instruction_text(lines[9]), Instr::AndImm(9, 9, 255));
    let m4 = step(lines, env, m3);
    assert(m4.pc == 10);
    lemma_step_instruction(lines, env, m4, instruction_text(lines[10]), Instr::Cmp(9, Operand::Imm(2)));
    let m5 = step(lines, env, m4);
    assert(m5.pc == 11);
    lemma_step_instruction(lines, env, m5, instruction_text(lines[11]), Instr::BCond(Cond::Eq, "__rt_gdt_array"@));
    let m6 = step(lines, env, m5);
    assert(m6.pc == 12);
    lemma_step_instruction(lines, env, m6, instruction_text(lines[12]), Instr::Cmp(9, Operand::Imm(3)));
    let m7 = step(lines, env, m6);
    assert(m7.pc == 13);
    lemma_step_instruction(lines, env, m7, instruction_text(lines[13]), Instr::BCond(Cond::Eq, "__rt_gdt_array"@));
    let m8 = step(lines, env, m7);
    assert(m8.pc == 14);
    lemma_step_instruction(lines, env, m8, instruction_text(lines[14]), Instr::Cmp(9, Operand::Imm(4)));
    let m9 = step(lines, env, m8);
    assert(m9.pc == 15);
    lemma_step_instruction(lines, env, m9, instruction_text(lines[15]), Instr::BCond(Cond::Eq, "__rt_gdt_object_from_x0"@));
    let m10 = step(lines, env, m9);
    assert(m10.pc == 16);
    lemma_step_instruction(lines, env, m10, instruction_text(lines[16]), Instr::Ldr(9, Address::Offset(0, 0)));
    let m11 = step(lines, env, m10);
    assert(m11.pc == 17);
    lemma_step_instruction(lines, env, m11, instruction_text(lines[17]), Instr::Cmp(9, Operand::Imm(7)));
    let m12 = step(lines, env, m11);
    assert(m12.pc == 18);
    lemma_step_instruction(lines, env, m12, instruction_text(lines[18]), Instr::BCond(Cond::Ne, "__rt_gdt_tags"@));
    let m13 = step(lines, env, m12);
    assert(m13.pc == 21);
    lemma_step_passes(lines, env, m13);
    let m14 = step(lines, env, m13);
    assert(m14.pc == 22);
    lemma_step_instruction(lines, env, m14, instruction_text(lines[22]), Instr::Cmp(9, Operand::Imm(0)));
    let m15 = step(lines, env, m14);
    assert(m15.pc == 23);
    lemma_step_instruction(lines, env, m15, instruction_text(lines[23]), Instr::BCond(Cond::Eq, "__rt_gdt_int"@));
    let m16 = step(lines, env, m15);
    assert(m16.pc == 24);
    lemma_step_instruction(lines, env, m16, instruction_text(lines[24]), Instr::Cmp(9, Operand::Imm(1)));
    let m17 = step(lines, env, m16);
    assert(m17.pc == 25);
    lemma_step_instruction(lines, env, m17, instruction_text(lines[25]), Instr::BCond(Cond::Eq, "__rt_gdt_string"@));
    let m18 = step(lines, env, m17);
    assert(m18.pc == 26);
    lemma_step_instruction(lines, env, m18, instruction_text(lines[26]), Instr::Cmp(9, Operand::Imm(2)));
    let m19 = step(lines, env, m18);
    assert(m19.pc == 27);
    lemma_step_instruction(lines, env, m19, instruction_text(lines[27]), Instr::BCond(Cond::Eq, "__rt_gdt_float"@));
    let m20 = step(lines, env, m19);
    assert(m20.pc == 28);
    lemma_step_instruction(lines, env, m20, instruction_text(lines[28]), Instr::Cmp(9, Operand::Imm(3)));
    let m21 = step(lines, env, m20);
    assert(m21.pc == 29);
    lemma_step_instruction(lines, env, m21, instruction_text(lines[29]), Instr::BCond(Cond::Eq, "__rt_gdt_bool"@));
    let m22 = step(lines, env, m21);
    assert(m22.pc == 30);
    lemma_step_instruction(lines, env, m22, instruction_text(lines[30]), Instr::Cmp(9, Operand::Imm(4)));
    let m23 = step(lines, env, m22);
    assert(m23.pc == 31);
    lemma_step_instruction(lines, env, m23, instruction_text(lines[31]), Instr::BCond(Cond::Eq, "__rt_gdt_array"@));
    let m24 = step(lines, env, m23);
    assert(m24.pc == 88);
    lemma_step_passes(lines, env, m24);
    let m25 = step(lines, env, m24);
    assert(m25.pc == 89);
    lemma_step_instruction(lines, env, m25, instruction_text(lines[89]), Instr::Adrp(0, "_gdt_array"@));
    let m26 = step(lines, env, m25);
    assert(m26.pc == 90);
    lemma_step_instruction(lines, env, m26, instruction_text(lines[90]), Instr::AddPageOffset(0, 0, "_gdt_array"@));
    let m27 = step(lines, env, m26);
    assert(m27.pc == 91);
    lemma_step_instruction(lines, env, m27, instruction_text(lines[91]), Instr::Mov(1, Operand::Imm(5)));
    let m28 = step(lines, env, m27);
    assert(m28.pc == 92);
    lemma_step_instruction(lines, env, m28, instruction_text(lines[92]), Instr::B("__rt_gdt_ret"@));
    let m29 = step(lines, env, m28);
    assert(m29.pc == 103);
    lemma_step_passes(lines, env, m29);
    let m30 = step(lines, env, m29);
    assert(m30.pc == 104);
    lemma_step_instruction(lines, env, m30, instruction_text(lines[104]), Instr::Ldp(29, 30, Address::Offset(31, 16)));
    let m31 = step(lines, env, m30);
    assert(m31.pc == 105);
    lemma_step_instruction(lines, env, m31, instruction_text(lines[105]), Instr::Add(31, 31, Operand::Imm(32)));
    let m32 = step(lines, env, m31);
    assert(m32.pc == 106);
    lemma_step_instruction(lines, env, m32, instruction_text(lines[106]), Instr::Ret);
    let m33 = step(lines, env, m32);
    assert(m33.pc == m33.pc);
    lemma_run_step(lines, env, m0, 39);
    lemma_run_step(lines, env, m1, 38);
    lemma_run_step(lines, env, m2, 37);
    lemma_run_step(lines, env, m3, 36);
    lemma_run_step(lines, env, m4, 35);
    lemma_run_step(lines, env, m5, 34);
    lemma_run_step(lines, env, m6, 33);
    lemma_run_step(lines, env, m7, 32);
    lemma_run_step(lines, env, m8, 31);
    lemma_run_step(lines, env, m9, 30);
    lemma_run_step(lines, env, m10, 29);
    lemma_run_step(lines, env, m11, 28);
    lemma_run_step(lines, env, m12, 27);
    lemma_run_step(lines, env, m13, 26);
    lemma_run_step(lines, env, m14, 25);
    lemma_run_step(lines, env, m15, 24);
    lemma_run_step(lines, env, m16, 23);
    lemma_run_step(lines, env, m17, 22);
    lemma_run_step(lines, env, m18, 21);
    lemma_run_step(lines, env, m19, 20);
    lemma_run_step(lines, env, m20, 19);
    lemma_run_step(lines, env, m21, 18);
    lemma_run_step(lines, env, m22, 17);
    lemma_run_step(lines, env, m23, 16);
    lemma_run_step(lines, env, m24, 15);
    lemma_run_step(lines, env, m25, 14);
    lemma_run_step(lines, env, m26, 13);
    lemma_run_step(lines, env, m27, 12);
    lemma_run_step(lines, env, m28, 11);
    lemma_run_step(lines, env, m29, 10);
    lemma_run_step(lines, env, m30, 9);
    lemma_run_step(lines, env, m31, 8);
    lemma_run_step(lines, env, m32, 7);
    lemma_run_returned(lines, env, m33, 7);
}

/// Running the `get_debug_type` lines along one path.
#[verifier::rlimit(60)]
#[verifier::spinoff_prover]
proof fn lemma_get_debug_type_runs_tag5(lines: Seq<Line>, env: Env, m: Machine)
    requires
        !(lines[6] is Instruction),
        lines[7] is Instruction && decode(instruction_text(lines[7])) == Some(Instr::Cbz(0, "__rt_gdt_null"@)),
        lines[8] is Instruction && decode(instruction_text(lines[8])) == Some(Instr::Ldr(9, Address::Offset(0, -8))),
        lines[9] is Instruction && decode(instruction_text(lines[9])) == Some(Instr::AndImm(9, 9, 255)),
        lines[10] is Instruction && decode(instruction_text(lines[10])) == Some(Instr::Cmp(9, Operand::Imm(2))),
        lines[11] is Instruction && decode(instruction_text(lines[11])) == Some(Instr::BCond(Cond::Eq, "__rt_gdt_array"@)),
        lines[12] is Instruction && decode(instruction_text(lines[12])) == Some(Instr::Cmp(9, Operand::Imm(3))),
        lines[13] is Instruction && decode(instruction_text(lines[13])) == Some(Instr::BCond(Cond::Eq, "__rt_gdt_array"@)),
        lines[14] is Instruction && decode(instruction_text(lines[14])) == Some(Instr::Cmp(9, Operand::Imm(4))),
        lines[15] is Instruction && decode(instruction_text(lines[15])) == Some(Instr::BCond(Cond::Eq, "__rt_gdt_object_from_x0"@)),
        lines[16] is Instruction && decode(instruction_text(lines[16])) == Some(Instr::Ldr(9, Address::Offset(0, 0))),
        lines[17] is Instruction && decode(instruction_text(lines[17])) == Some(Instr::Cmp(9, Operand::Imm(7))),
        lines[18] is Instruction && decode(instruction_text(lines[18])) == Some(Instr::BCond(Cond::Ne, "__rt_gdt_tags"@)),
        !(lines[21] is Instruction),
        lines[22] is Instruction && decode(instruction_text(lines[22])) == Some(Instr::Cmp(9, Operand::Imm(0))),
        lines[23] is Instruction && decode(instruction_text(lines[23])) == Some(Instr::BCond(Cond::Eq, "__rt_gdt_int"@)),
        lines[24] is Instruction && decode(instruction_text(lines[24])) == Some(Instr::Cmp(9, Operand::Imm(1))),
        lines[25] is Instruction && decode(instruction_text(lines[25])) == Some(Instr::BCond(Cond::Eq, "__rt_gdt_string"@)),
        lines[26] is Instruction && decode(instruction_text(lines[26])) == Some(Instr::Cmp(9, Operand::Imm(2))),
        lines[27] is Instruction && decode(instruction_text(lines[27])) == Some(Instr::BCond(Cond::Eq, "__rt_gdt_float"@)),
        lines[28] is Instruction && decode(instruction_text(lines[28])) == Some(Instr::Cmp(9, Operand::Imm(3))),
        lines[29] is Instruction && decode(instruction_text(lines[29])) == Some(Instr::BCond(Cond::Eq, "__rt_gdt_bool"@)),
        lines[30] is Instruction && decode(instruction_text(lines[30])) == Some(Instr::Cmp(9, Operand::Imm(4))),
        lines[31] is Instruction && decode(instruction_text(lines[31])) == Some(Instr::BCond(Cond::Eq, "__rt_gdt_array"@)),
        lines[32] is Instruction && decode(instruction_text(lines[32])) == Some(Instr::Cmp(9, Operand::Imm(5))),
        lines[33] is Instruction && decode(instruction_text(lines[33])) == Some(Instr::BCond(Cond::Eq, "__rt_gdt_array"@)),
        !(lines[88] is Instruction),
        lines[89] is Instruction && decode(instruction_text(lines[89])) == Some(Instr::Adrp(0, "_gdt_array"@)),
        lines[90] is Instruction && decode(instruction_text(lines[90])) == Some(Instr::AddPageOffset(0, 0, "_gdt_array"@)),
        lines[91] is Instruction && decode(instruction_text(lines[91])) == Some(Instr::Mov(1, Operand::Imm(5))),
        lines[92] is Instruction && decode(instruction_text(lines[92])) == Some(Instr::B("__rt_gdt_ret"@)),
        !(lines[103] is Instruction),
        lines[104] is Instruction && decode(instruction_text(lines[104])) == Some(Instr::Ldp(29, 30, Address::Offset(31, 16))),
        lines[105] is Instruction && decode(instruction_text(lines[105])) == Some(Instr::Add(31, 31, Operand::Imm(32))),
        lines[106] is Instruction && decode(instruction_text(lines[106])) == Some(Instr::Ret),
        find_label(lines, "__rt_gdt_array"@, 0) == 88,
        find_label(lines, "__rt_gdt_bool"@, 0) == 83,
        find_label(lines, "__rt_gdt_float"@, 0) == 78,
        find_label(lines, "__rt_gdt_int"@, 0) == 68,
        find_label(lines, "__rt_gdt_null"@, 0) == 93,
        find_label(lines, "__rt_gdt_object_from_x0"@, 0) == 42,
        find_label(lines, "__rt_gdt_ret"@, 0) == 103,
        find_label(lines, "__rt_gdt_string"@, 0) == 73,
        find_label(lines, "__rt_gdt_tags"@, 0) == 21,
        lines.len() == 107,
        m.pc == 6,
        !m.returned,
        !m.stuck,
        (m.mem)(read(m, 0)) == 5,
        read(m, 0) != 0,
        (m.mem)(read(m, 0) - 8) % 256 != 2 && (m.mem)(read(m, 0) - 8) % 256 != 3 && (m.mem)(read(m, 0) - 8) % 256 != 4,
    ensures
        ({
            let r = run(lines, env, m, 40);
            let e = debug_type_entry(read(m, 0), m.mem);
            &&& r.returned
            &&& read(r, 0) == (env.symbol)(e.0)
            &&& read(r, 1) == e.1.len()
        }),
{
    lemma_debug_type_name_lengths();
    let m0 = m;
    lemma_step_passes(lines, env, m0);
    let m1 = step(lines, env, m0);
    assert(m1.pc == 7);
    lemma_step_instruction(lines, env, m1, instruction_text(lines[7]), Instr::Cbz(0, "__rt_gdt_null"@));
    let m2 = step(lines, env, m1);
    assert(m2.pc == 8);
    lemma_step_instruction(lines, env, m2, instruction_text(lines[8]), Instr::Ldr(9, Address::Offset(0, -8)));
    let m3 = step(lines, env, m2);
    assert(m3.pc == 9);
    lemma_step_instruction(lines, env, m3, instruction_text(lines[9]), Instr::AndImm(9, 9, 255));
    let m4 = step(lines, env, m3);
    assert(m4.pc == 10);
    lemma_step_instruction(lines, env, m4, instruction_text(lines[10]), Instr::Cmp(9, Operand::Imm(2)));
    let m5 = step(lines, env, m4);
    assert(m5.pc == 11);
    lemma_step_instruction(lines, env, m5, instruction_text(lines[11]), Instr::BCond(Cond::Eq, "__rt_gdt_array"@));
    let m6 = step(lines, env, m5);
    assert(m6.pc == 12);
    lemma_step_instruction(lines, env, m6, instruction_text(lines[12]), Instr::Cmp(9, Operand::Imm(3)));
    let m7 = step(lines, env, m6);
    assert(m7.pc == 13);
    lemma_step_instruction(lines, env, m7, instruction_text(lines[13]), Instr::BCond(Cond::Eq, "__rt_gdt_array"@));
    let m8 = step(lines, env, m7);
    assert(m8.pc == 14);
    lemma_step_instruction(lines, env, m8, instruction_text(lines[14]), Instr::Cmp(9, Operand::Imm(4)));
    let m9 = step(lines, env, m8);
    assert(m9.pc == 15);
    lemma_step_instruction(lines, env, m9, instruction_text(lines[15]), Instr::BCond(Cond::Eq, "__rt_gdt_object_from_x0"@));
    let m10 = step(lines, env, m9);
    assert(m10.pc == 16);
    lemma_step_instruction(lines, env, m10, instruction_text(lines[16]), Instr::Ldr(9, Address::Offset(0, 0)));
    let m11 = step(lines, env, m10);
    assert(m11.pc == 17);
    lemma_step_instruction(lines, env, m11, instruction_text(lines[17]), Instr::Cmp(9, Operand::Imm(7)));
    let m12 = step(lines, env, m11);
    assert(m12.pc == 18);
    lemma_step_instruction(lines, env, m12, instruction_text(lines[18]), Instr::BCond(Cond::Ne, "__rt_gdt_tags"@));
    let m13 = step(lines, env, m12);
    assert(m13.pc == 21);
    lemma_step_passes(lines, env, m13);
    let m14 = step(lines, env, m13);
    assert(m14.pc == 22);
    lemma_step_instruction(lines, env, m14, instruction_text(lines[22]), Instr::Cmp(9, Operand::Imm(0)));
    let m15 = step(lines, env, m14);
    assert(m15.pc == 23);
    lemma_step_instruction(lines, env, m15, instruction_text(lines[23]), Instr::BCond(Cond::Eq, "__rt_gdt_int"@));
    let m16 = step(lines, env, m15);
    assert(m16.pc == 24);
    lemma_step_instruction(lines, env, m16, instruction_text(lines[24]), Instr::Cmp(9, Operand::Imm(1)));
    let m17 = step(lines, env, m16);
    assert(m17.pc == 25);
    lemma_step_instruction(lines, env, m17, instruction_text(lines[25]), Instr::BCond(Cond::Eq, "__rt_gdt_string"@));
    let m18 = step(lines, env, m17);
    assert(m18.pc == 26);
    lemma_step_instruction(lines, env, m18, instruction_text(lines[26]), Instr::Cmp(9, Operand::Imm(2)));
    let m19 = step(lines, env, m18);
    assert(m19.pc == 27);
    lemma_step_instruction(lines, env, m19, instruction_text(lines[27]), Instr::BCond(Cond::Eq, "__rt_gdt_float"@));
    let m20 = step(lines, env, m19);
    assert(m20.pc == 28);
    lemma_step_instruction(lines, env, m20, instruction_text(lines[28]), Instr::Cmp(9, Operand::Imm(3)));
    let m21 = step(lines, env, m20);
    assert(m21.pc == 29);
    lemma_step_instruction(lines, env, m21, instruction_text(lines[29]), Instr::BCond(Cond::Eq, "__rt_gdt_bool"@));
    let m22 = step(lines, env, m21);
    assert(m22.pc == 30);
    lemma_step_instruction(lines, env, m22, instruction_text(lines[30]), Instr::Cmp(9, Operand::Imm(4)));
    let m23 = step(lines, env, m22);
    assert(m23.pc == 31);
    lemma_step_instruction(lines, env, m23, instruction_text(lines[31]), Instr::BCond(Cond::Eq, "__rt_gdt_array"@));
    let m24 = step(lines, env, m23);
    assert(m24.pc == 32);
    lemma_step_instruction(lines, env, m24, instruction_text(lines[32]), Instr::Cmp(9, Operand::Imm(5)));
    let m25 = step(lines, env, m24);
    assert(m25.pc == 33);
    lemma_step_instruction(lines, env, m25, instruction_text(lines[33]), Instr::BCond(Cond::Eq, "__rt_gdt_array"@));
    let m26 = step(lines, env, m25);
    assert(m26.pc == 88);
    lemma_step_passes(lines, env, m26);
    let m27 = step(lines, env, m26);
    assert(m27.pc == 89);
    lemma_step_instruction(lines, env, m27, instruction_text(lines[89]), Instr::Adrp(0, "_gdt_array"@));
    let m28 = step(lines, env, m27);
    assert(m28.pc == 90);
    lemma_step_instruction(lines, env, m28, instruction_text(lines[90]), Instr::AddPageOffset(0, 0, "_gdt_array"@));
    let m29 = step(lines, env, m28);
    assert(m29.pc == 91);
    lemma_step_instruction(lines, env, m29, instruction_text(lines[91]), Instr::Mov(1, Operand::Imm(5)));
    let m30 = step(lines, env, m29);
    assert(m30.pc == 92);
    lemma_step_instruction(lines, env, m30, instruction_text(lines[92]), Instr::B("__rt_gdt_ret"@));
    let m31 = step(lines, env, m30);
    assert(m31.pc == 103);
    lemma_step_passes(lines, env, m31);
    let m32 = step(lines, env, m31);
    assert(m32.pc == 104);
    lemma_step_instruction(lines, env, m32, instruction_text(lines[104]), Instr::Ldp(29, 30, Address::Offset(31, 16)));
    let m33 = step(lines, env, m32);
    assert(m33.pc == 105);
    lemma_step_instruction(lines, env, m33, instruction_text(lines[105]), Instr::Add(31, 31, Operand::Imm(32)));
    let m34 = step(lines, env, m33);
    assert(m34.pc == 106);
    lemma_step_instruction(lines, env, m34, instruction_text(lines[106]), Instr::Ret);
    let m35 = step(lines, env, m34);
    assert(m35.pc == m35.pc);
    lemma_run_step(lines, env, m0, 39);
    lemma_run_step(lines, env, m1, 38);
    lemma_run_step(lines, env, m2, 37);
    lemma_run_step(lines, env, m3, 36);
    lemma_run_step(lines, env, m4, 35);
    lemma_run_step(lines, env, m5, 34);
    lemma_run_step(lines, env, m6, 33);
    lemma_run_step(lines, env, m7, 32);
    lemma_run_step(lines, env, m8, 31);
    lemma_run_step(lines, env, m9, 30);
    lemma_run_step(lines, env, m10, 29);
    lemma_run_step(lines, env, m11, 28);
    lemma_run_step(lines, env, m12, 27);
    lemma_run_step(lines, env, m13, 26);
    lemma_run_step(lines, env, m14, 25);
    lemma_run_step(lines, env, m15, 24);
    lemma_run_step(lines, env, m16, 23);
    lemma_run_step(lines, env, m17, 22);
    lemma_run_step(lines, env, m18, 21);
    lemma_run_step(lines, env, m19, 20);
    lemma_run_step(lines, env, m20, 19);
    lemma_run_step(lines, env, m21, 18);
    lemma_run_step(lines, env, m22, 17);
    lemma_run_step(lines, env, m23, 16);
    lemma_run_step(lines, env, m24, 15);
    lemma_run_step(lines, env, m25, 14);
    lemma_run_step(lines, env, m26, 13);
    lemma_run_step(lines, env, m27, 12);
    lemma_run_step(lines, env, m28, 11);
    lemma_run_step(lines, env, m29, 10);
    lemma_run_step(lines, env, m30, 9);
    lemma_run_step(lines, env, m31, 8);
    lemma_run_step(lines, env, m32, 7);
    lemma_run_step(lines, env, m33, 6);
    lemma_run_step(lines, env, m34, 5);
    lemma_run_returned(lines, env, m35, 5);
}

/// Running the `get_debug_type` lines along one path.
#[verifier::rlimit(60)]
#[verifier::spinoff_prover]
proof fn lemma_get_debug_type_runs_tag9(lines: Seq<Line>, env: Env, m: Machine)
    requires
        !(lines[6] is Instruction),
        lines[7] is Instruction && decode(instruction_text(lines[7])) == Some(Instr::Cbz(0, "__rt_gdt_null"@)),
        lines[8] is Instruction && decode(instruction_text(lines[8])) == Some(Instr::Ldr(9, Address::Offset(0, -8))),
        lines[9] is Instruction && decode(instruction_text(lines[9])) == Some(Instr::AndImm(9, 9, 255)),
        lines[10] is Instruction && decode(instruction_text(lines[10])) == Some(Instr::Cmp(9, Operand::Imm(2))),
        lines[11] is Instruction && decode(instruction_text(lines[11])) == Some(Instr::BCond(Cond::Eq, "__rt_gdt_array"@)),
        lines[12] is Instruction && decode(instruction_text(lines[12])) == Some(Instr::Cmp(9, Operand::Imm(3))),
        lines[13] is Instruction && decode(instruction_text(lines[13])) == Some(Instr::BCond(Cond::Eq, "__rt_gdt_array"@)),
        lines[14] is Instruction && decode(instruction_text(lines[14])) == Some(Instr::Cmp(9, Operand::Imm(4))),
        lines[15] is Instruction && decode(instruction_text(lines[15])) == Some(Instr::BCond(Cond::Eq, "__rt_gdt_object_from_x0"@)),
        lines[16] is Instruction && decode(instruction_text(lines[16])) == Some(Instr::Ldr(9, Address::Offset(0, 0))),
        lines[17] is Instruction && decode(instruction_text(lines[17])) == Some(Instr::Cmp(9, Operand::Imm(7))),
        lines[18] is Instruction && decode(instruction_text(lines[18])) == Some(Instr::BCond(Cond::Ne, "__rt_gdt_tags"@)),
        !(lines[21] is Instruction),
        lines[22] is Instruction && decode(instruction_text(lines[22])) == Some(Instr::Cmp(9, Operand::Imm(0))),
        lines[23] is Instruction && decode(instruction_text(lines[23])) == Some(Instr::BCond(Cond::Eq, "__rt_gdt_int"@)),
        lines[24] is Instruction && decode(instruction_text(lines[24])) == Some(Instr::Cmp(9, Operand::Imm(1))),
        lines[25] is Instruction && decode(instruction_text(lines[25])) == Some(Instr::BCond(Cond::Eq, "__rt_gdt_string"@)),
        lines[26] is Instruction && decode(instruction_text(lines[26])) == Some(Instr::Cmp(9, Operand::Imm(2))),
        lines[27] is Instruction && decode(instruction_text(lines[27])) == Some(Instr::BCond(Cond::Eq, "__rt_gdt_float"@)),
        lines[28] is Instruction && decode(instruction_text(lines[28])) == Some(Instr::Cmp(9, Operand::Imm(3))),
        lines[29] is Instruction && decode(instruction_text(lines[29])) == Some(Instr::BCond(Cond::Eq, "__rt_gdt_bool"@)),
        lines[30] is Instruction && decode(instruction_text(lines[30])) == Some(Instr::Cmp(9, Operand::Imm(4))),
        lines[31] is Instruction && decode(instruction_text(lines[31])) == Some(Instr::BCond(Cond::Eq, "__rt_gdt_array"@)),
        lines[32] is Instruction && decode(instruction_text(lines[32])) == Some(Instr::Cmp(9, Operand::Imm(5))),
        lines[33] is Instruction && decode(instruction_text(lines[33])) == Some(Instr::BCond(Cond::Eq, "__rt_gdt_array"@)),
        lines[34] is Instruction && decode(instruction_text(lines[34])) == Some(Instr::Cmp(9, Operand::Imm(6))),
        lines[35] is Instruction && decode(instruction_text(lines[35])) == Some(Instr::BCond(Cond::Eq, "__rt_gdt_object_cell"@)),
        lines[36] is Instruction && decode(instruction_text(lines[36])) == Some(Instr::Cmp(9, Operand::Imm(9))),
        lines[37] is Instruction && decode(instruction_text(lines[37])) == Some(Instr::BCond(Cond::Eq, "__rt_gdt_resource"@)),
        !(lines[98] is Instruction),
        lines[99] is Instruction && decode(instruction_text(lines[99])) == Some(Instr::Adrp(0, "_gdt_resource"@)),
        lines[100] is Instruction && decode(instruction_text(lines[100])) == Some(Instr::AddPageOffset(0, 0, "_gdt_resource"@)),
        lines[101] is Instruction && decode(instruction_text(lines[101])) == Some(Instr::Mov(1, Operand::Imm(17))),
        lines[102] is Instruction && decode(instruction_text(lines[102])) == Some(Instr::B("__rt_gdt_ret"@)),
        !(lines[103] is Instruction),
        lines[104] is Instruction && decode(instruction_text(lines[104])) == Some(Instr::Ldp(29, 30, Address::Offset(31, 16))),
        lines[105] is Instruction && decode(instruction_text(lines[105])) == Some(Instr::Add(31, 31, Operand::Imm(32))),
        lines[106] is Instruction && decode(instruction_text(lines[106])) == Some(Instr::Ret),
        find_label(lines, "__rt_gdt_array"@, 0) == 88,
        find_label(lines, "__rt_gdt_bool"@, 0) == 83,
        find_label(lines, "__rt_gdt_float"@, 0) == 78,
        find_label(lines, "__rt_gdt_int"@, 0) == 68,
        find_label(lines, "__rt_gdt_null"@, 0) == 93,
        find_label(lines, "__rt_gdt_object_cell"@, 0) == 39,
        find_label(lines, "__rt_gdt_object_from_x0"@, 0) == 42,
        find_label(lines, "__rt_gdt_resource"@, 0) == 98,
        find_label(lines, "__rt_gdt_ret"@, 0) == 103,
        find_label(lines, "__rt_gdt_string"@, 0) == 73,
        find_label(lines, "__rt_gdt_tags"@, 0) == 21,
        lines.len() == 107,
        m.pc == 6,
        !m.returned,
        !m.stuck,
        (m.mem)(read(m, 0)) == 9,
        read(m, 0) != 0,
        (m.mem)(read(m, 0) - 8) % 256 != 2 && (m.mem)(read(m, 0) - 8) % 256 != 3 && (m.mem)(read(m, 0) - 8) % 256 != 4,
    ensures
        ({
            let r = run(lines, env, m, 40);
            let e = debug_type_entry(read(m, 0), m.mem);
            &&& r.returned
            &&& read(r, 0) == (env.symbol)(e.0)
            &&& read(r, 1) == e.1.len()
        }),
{
    lemma_debug_type_name_lengths();
    let m0 = m;
    lemma_step_passes(lines, env, m0);
    let m1 = step(lines, env, m0);
    assert(m1.pc == 7);
    lemma_step_instruction(lines, env, m1, instruction_text(lines[7]), Instr::Cbz(0, "__rt_gdt_null"@));
    let m2 = step(lines, env, m1);
    assert(m2.pc == 8);
    lemma_step_instruction(lines, env, m2, instruction_text(lines[8]), Instr::Ldr(9, Address::Offset(0, -8)));
    let m3 = step(lines, env, m2);
    assert(m3.pc == 9);
    lemma_step_instruction(lines, env, m3, instruction_text(lines[9]), Instr::AndImm(9, 9, 255));
    let m4 = step(lines, env, m3);
    assert(m4.pc == 10);
    lemma_step_instruction(lines, env, m4, instruction_text(lines[10]), Instr::Cmp(9, Operand::Imm(2)));
    let m5 = step(lines, env, m4);
    assert(m5.pc == 11);
    lemma_step_instruction(lines, env, m5, instruction_text(lines[11]), Instr::BCond(Cond::Eq, "__rt_gdt_array"@));
    let m6 = step(lines, env, m5);
    assert(m6.pc == 12);
    lemma_step_instruction(lines, env, m6, instruction_text(lines[12]), Instr::Cmp(9, Operand::Imm(3)));
    let m7 = step(lines, env, m6);
    assert(m7.pc == 13);
    lemma_step_instruction(lines, env, m7, instruction_text(lines[13]), Instr::BCond(Cond::Eq, "__rt_gdt_array"@));
    let m8 = step(lines, env, m7);
    assert(m8.pc == 14);
    lemma_step_instruction(lines, env, m8, instruction_text(lines[14]), Instr::Cmp(9, Operand::Imm(4)));
    let m9 = step(lines, env, m8);
    assert(m9.pc == 15);
    lemma_step_instruction(lines, env, m9, instruction_text(lines[15]), Instr::BCond(Cond::Eq, "__rt_gdt_object_from_x0"@));
    let m10 = step(lines, env, m9);
    assert(m10.pc == 16);
    lemma_step_instruction(lines, env, m10, instruction_text(lines[16]), Instr::Ldr(9, Address::Offset(0, 0)));
    let m11 = step(lines, env, m10);
    assert(m11.pc == 17);
    lemma_step_instruction(lines, env, m11, instruction_text(lines[17]), Instr::Cmp(9, Operand::Imm(7)));
    let m12 = step(lines, env, m11);
    assert(m12.pc == 18);
    lemma_step_instruction(lines, env, m12, instruction_text(lines[18]), Instr::BCond(Cond::Ne, "__rt_gdt_tags"@));
    let m13 = step(lines, env, m12);
    assert(m13.pc == 21);
    lemma_step_passes(lines, env, m13);
    let m14 = step(lines, env, m13);
    assert(m14.pc == 22);
    lemma_step_instruction(lines, env, m14, instruction_text(lines[22]), Instr::Cmp(9, Operand::Imm(0)));
    let m15 = step(lines, env, m14);
    assert(m15.pc == 23);
    lemma_step_instruction(lines, env, m15, instruction_text(lines[23]), Instr::BCond(Cond::Eq, "__rt_gdt_int"@));
    let m16 = step(lines, env, m15);
    assert(m16.pc == 24);
    lemma_step_instruction(lines, env, m16, instruction_text(lines[24]), Instr::Cmp(9, Operand::Imm(1)));
    let m17 = step(lines, env, m16);
    assert(m17.pc == 25);
    lemma_step_instruction(lines, env, m17, instruction_text(lines[25]), Instr::BCond(Cond::Eq, "__rt_gdt_string"@));
    let m18 = step(lines, env, m17);
    assert(m18.pc == 26);
    lemma_step_instruction(lines, env, m18, instruction_text(lines[26]), Instr::Cmp(9, Operand::Imm(2)));
    let m19 = step(lines, env, m18);
    assert(m19.pc == 27);
    lemma_step_instruction(lines, env, m19, instruction_text(lines[27]), Instr::BCond(Cond::Eq, "__rt_gdt_float"@));
    let m20 = step(lines, env, m19);
    assert(m20.pc == 28);
    lemma_step_instruction(lines, env, m20, instruction_text(lines[28]), Instr::Cmp(9, Operand::Imm(3)));
    let m21 = step(lines, env, m20);
    assert(m21.pc == 29);
    lemma_step_instruction(lines, env, m21, instruction_text(lines[29]), Instr::BCond(Cond::Eq, "__rt_gdt_bool"@));
    let m22 = step(lines, env, m21);
    assert(m22.pc == 30);
    lemma_step_instruction(lines, env, m22, instruction_text(lines[30]), Instr::Cmp(9, Operand::Imm(4)));
    let m23 = step(lines, env, m22);
    assert(m23.pc == 31);
    lemma_step_instruction(lines, env, m23, instruction_text(lines[31]), Instr::BCond(Cond::Eq, "__rt_gdt_array"@));
    let m24 = step(lines, env, m23);
    assert(m24.pc == 32);
    lemma_step_instruction(lines, env, m24, instruction_text(lines[32]), Instr::Cmp(9, Operand::Imm(5)));
    let m25 = step(lines, env, m24);
    assert(m25.pc == 33);
    lemma_step_instruction(lines, env, m25, instruction_text(lines[33]), Instr::BCond(Cond::Eq, "__rt_gdt_array"@));
    let m26 = step(lines, env, m25);
    assert(m26.pc == 34);
    lemma_step_instruction(lines, env, m26, instruction_text(lines[34]), Instr::Cmp(9, Operand::Imm(6)));
    let m27 = step(lines, env, m26);
    assert(m27.pc == 35);
    lemma_step_instruction(lines, env, m27, instruction_text(lines[35]), Instr::BCond(Cond::Eq, "__rt_gdt_object_cell"@));
    let m28 = step(lines, env, m27);
    assert(m28.pc == 36);
    lemma_step_instruction(lines, env, m28, instruction_text(lines[36]), Instr::Cmp(9, Operand::Imm(9)));
    let m29 = step(lines, env, m28);
    assert(m29.pc == 37);
    lemma_step_instruction(lines, env, m29, instruction_text(lines[37]), Instr::BCond(Cond::Eq, "__rt_gdt_resource"@));
    let m30 = step(lines, env, m29);
    assert(m30.pc == 98);
    lemma_step_passes(lines, env, m30);
    let m31 = step(lines, env, m30);
    assert(m31.pc == 99);
    lemma_step_instruction(lines, env, m31, instruction_text(lines[99]), Instr::Adrp(0, "_gdt_resource"@));
    let m32 = step(lines, env, m31);
    assert(m32.pc == 100);
    lemma_step_instruction(lines, env, m32, instruction_text(lines[100]), Instr::AddPageOffset(0, 0, "_gdt_resource"@));
    let m33 = step(lines, env, m32);
    assert(m33.pc == 101);
    lemma_step_instruction(lines, env, m33, instruction_text(lines[101]), Instr::Mov(1, Operand::Imm(17)));
    let m34 = step(lines, env, m33);
    assert(m34.pc == 102);
    lemma_step_instruction(lines, env, m34, instruction_text(lines[102]), Instr::B("__rt_gdt_ret"@));
    let m35 = step(lines, env, m34);
    assert(m35.pc == 103);
    lemma_step_passes(lines, env, m35);
    let m36 = step(lines, env, m35);
    assert(m36.pc == 104);
    lemma_step_instruction(lines, env, m36, instruction_text(lines[104]), Instr::Ldp(29, 30, Address::Offset(31, 16)));
    let m37 = step(lines, env, m36);
    assert(m37.pc == 105);
    lemma_step_instruction(lines, env, m37, instruction_text(lines[105]), Instr::Add(31, 31, Operand::Imm(32)));
    let m38 = step(lines, env, m37);
    assert(m38.pc == 106);
    lemma_step_instruction(lines, env, m38, instruction_text(lines[106]), Instr::Ret);
    let m39 = step(lines, env, m38);
    assert(m39.pc == m39.pc);
    lemma_run_step(lines, env, m0, 39);
    lemma_run_step(lines, env, m1, 38);
    lemma_run_step(lines, env, m2, 37);
    lemma_run_step(lines, env, m3, 36);
    lemma_run_step(lines, env, m4, 35);
    lemma_run_step(lines, env, m5, 34);
    lemma_run_step(lines, env, m6, 33);
    lemma_run_step(lines, env, m7, 32);
    lemma_run_step(lines, env, m8, 31);
    lemma_run_step(lines, env, m9, 30);
    lemma_run_step(lines, env, m10, 29);
    lemma_run_step(lines, env, m11, 28);
    lemma_run_step(lines, env, m12, 27);
    lemma_run_step(lines, env, m13, 26);
    lemma_run_step(lines, env, m14, 25);
    lemma_run_step(lines, env, m15, 24);
    lemma_run_step(lines, env, m16, 23);
    lemma_run_step(lines, env, m17, 22);
    lemma_run_step(lines, env, m18, 21);
    lemma_run_step(lines, env, m19, 20);
    lemma_run_step(lines, env, m20, 19);
    lemma_run_step(lines, env, m21, 18);
    lemma_run_step(lines, env, m22, 17);
    lemma_run_step(lines, env, m23, 16);
    lemma_run_step(lines, env, m24, 15);
    lemma_run_step(lines, env, m25, 14);
    lemma_run_step(lines, env, m26, 13);
    lemma_run_step(lines, env, m27, 12);
    lemma_run_step(lines, env, m28, 11);
    lemma_run_step(lines, env, m29, 10);
    lemma_run_step(lines, env, m30, 9);
    lemma_run_step(lines, env, m31, 8);
    lemma_run_step(lines, env, m32, 7);
    lemma_run_step(lines, env, m33, 6);
    lemma_run_step(lines, env, m34, 5);
    lemma_run_step(lines, env, m35, 4);
    lemma_run_step(lines, env, m36, 3);
    lemma_run_step(lines, env, m37, 2);
    lemma_run_step(lines, env, m38, 1);
    lemma_run_returned(lines, env, m39, 1);
}

/// Running the `get_debug_type` lines along one path.
#[verifier::rlimit(60)]
#[verifier::spinoff_prover]
proof fn lemma_get_debug_type_runs_tag_other(lines: Seq<Line>, env: Env, m: Machine)
    requires
        !(lines[6] is Instruction),
        lines[7] is Instruction && decode(instruction_text(lines[7])) == Some(Instr::Cbz(0, "__rt_gdt_null"@)),
        lines[8] is Instruction && decode(instruction_text(lines[8])) == Some(Instr::Ldr(9, Address::Offset(0, -8))),
        lines[9] is Instruction && decode(instruction_text(lines[9])) == Some(Instr::AndImm(9, 9, 255)),
        lines[10] is Instruction && decode(instruction_text(lines[10])) == Some(Instr::Cmp(9, Operand::Imm(2))),
        lines[11] is Instruction && decode(instruction_text(lines[11])) == Some(Instr::BCond(Cond::Eq, "__rt_gdt_array"@)),
        lines[12] is Instruction && decode(instruction_text(lines[12])) == Some(Instr::Cmp(9, Operand::Imm(3))),
        lines[13] is Instruction && decode(instruction_text(lines[13])) == Some(Instr::BCond(Cond::Eq, "__rt_gdt_array"@)),
        lines[14] is Instruction && decode(instruction_text(lines[14])) == Some(Instr::Cmp(9, Operand::Imm(4))),
        lines[15] is Instruction && decode(instruction_text(lines[15])) == Some(Instr::BCond(Cond::Eq, "__rt_gdt_object_from_x0"@)),
        lines[16] is Instruction && decode(instruction_text(lines[16])) == Some(Instr::Ldr(9, Address::Offset(0, 0))),
        lines[17] is Instruction && decode(instruction_text(lines[17])) == Some(Instr::Cmp(9, Operand::Imm(7))),
        lines[18] is Instruction && decode(instruction_text(lines[18])) == Some(Instr::BCond(Cond::Ne, "__rt_gdt_tags"@)),
        !(lines[21] is Instruction),
        lines[22] is Instruction && decode(instruction_text(lines[22])) == Some(Instr::Cmp(9, Operand::Imm(0))),
        lines[23] is Instruction && decode(instruction_text(lines[23])) == Some(Instr::BCond(Cond::Eq, "__rt_gdt_int"@)),
        lines[24] is Instruction && decode(instruction_text(lines[24])) == Some(Instr::Cmp(9, Operand::Imm(1))),
        lines[25] is Instruction && decode(instruction_text(lines[25])) == Some(Instr::BCond(Cond::Eq, "__rt_gdt_string"@)),
        lines[26] is Instruction && decode(instruction_text(lines[26])) == Some(Instr::Cmp(9, Operand::Imm(2))),
        lines[27] is Instruction && decode(instruction_text(lines[27])) == Some(Instr::BCond(Cond::Eq, "__rt_gdt_float"@)),
        lines[28] is Instruction && decode(instruction_text(lines[28])) == Some(Instr::Cmp(9, Operand::Imm(3))),
        lines[29] is Instruction && decode(instruction_text(lines[29])) == Some(Instr::BCond(Cond::Eq, "__rt_gdt_bool"@)),
        lines[30] is Instruction && decode(instruction_text(lines[30])) == Some(Instr::Cmp(9, Operand::Imm(4))),
        lines[31] is Instruction && decode(instruction_text(lines[31])) == Some(Instr::BCond(Cond::Eq, "__rt_gdt_array"@)),
        lines[32] is Instruction && decode(instruction_text(lines[32])) == Some(Instr::Cmp(9, Operand::Imm(5))),
        lines[33] is Instruction && decode(instruction_text(lines[33])) == Some(Instr::BCond(Cond::Eq, "__rt_gdt_array"@)),
        lines[34] is Instruction && decode(instruction_text(lines[34])) == Some(Instr::Cmp(9, Operand::Imm(6))),
        lines[35] is Instruction && decode(instruction_text(lines[35])) == Some(Instr::BCond(Cond::Eq, "__rt_gdt_object_cell"@)),
        lines[36] is Instruction && decode(instruction_text(lines[36])) == Some(Instr::Cmp(9, Operand::Imm(9))),
        lines[37] is Instruction && decode(instruction_text(lines[37])) == Some(Instr::BCond(Cond::Eq, "__rt_gdt_resource"@)),
        lines[38] is Instruction && decode(instruction_text(lines[38])) == Some(Instr::B("__rt_gdt_null"@)),
        !(lines[93] is Instruction),
        lines[94] is Instruction && decode(instruction_text(lines[94])) == Some(Instr::Adrp(0, "_gdt_null"@)),
        lines[95] is Instruction && decode(instruction_text(lines[95])) == Some(Instr::AddPageOffset(0, 0, "_gdt_null"@)),
        lines[96] is Instruction && decode(instruction_text(lines[96])) == Some(Instr::Mov(1, Operand::Imm(4))),
        lines[97] is Instruction && decode(instruction_text(lines[97])) == Some(Instr::B("__rt_gdt_ret"@)),
        !(lines[103] is Instruction),
        lines[104] is Instruction && decode(instruction_text(lines[104])) == Some(Instr::Ldp(29, 30, Address::Offset(31, 16))),
        lines[105] is Instruction && decode(instruction_text(lines[105])) == Some(Instr::Add(31, 31, Operand::Imm(32))),
        lines[106] is Instruction && decode(instruction_text(lines[106])) == Some(Instr::Ret),
        find_label(lines, "__rt_gdt_array"@, 0) == 88,
        find_label(lines, "__rt_gdt_bool"@, 0) == 83,
        find_label(lines, "__rt_gdt_float"@, 0) == 78,
        find_label(lines, "__rt_gdt_int"@, 0) == 68,
        find_label(lines, "__rt_gdt_null"@, 0) == 93,
        find_label(lines, "__rt_gdt_object_cell"@, 0) == 39,
        find_label(lines, "__rt_gdt_object_from_x0"@, 0) == 42,
        find_label(lines, "__rt_gdt_resource"@, 0) == 98,
        find_label(lines, "__rt_gdt_ret"@, 0) == 103,
        find_label(lines, "__rt_gdt_string"@, 0) == 73,
        find_label(lines, "__rt_gdt_tags"@, 0) == 21,
        lines.len() == 107,
        m.pc == 6,
        !m.returned,
        !m.stuck,
        !(0 <= (m.mem)(read(m, 0)) <= 7) && (m.mem)(read(m, 0)) != 9 || (m.mem)(read(m, 0)) == 8,
        read(m, 0) != 0,
        (m.mem)(read(m, 0) - 8) % 256 != 2 && (m.mem)(read(m, 0) - 8) % 256 != 3 && (m.mem)(read(m, 0) - 8) % 256 != 4,
    ensures
        ({
            let r = run(lines, env, m, 40);
            let e = debug_type_entry(read(m, 0), m.mem);
            &&& r.returned
            &&& read(r, 0) == (env.symbol)(e.0)
            &&& read(r, 1) == e.1.len()
        }),
{
    lemma_debug_type_name_lengths();
    let m0 = m;
    lemma_step_passes(lines, env, m0);
    let m1 = step(lines, env, m0);
    assert(m1.pc == 7);
    lemma_step_instruction(lines, env, m1, instruction_text(lines[7]), Instr::Cbz(0, "__rt_gdt_null"@));
    let m2 = step(lines, env, m1);
    assert(m2.pc == 8);
    lemma_step_instruction(lines, env, m2, instruction_text(lines[8]), Instr::Ldr(9, Address::Offset(0, -8)));
    let m3 = step(lines, env, m2);
    assert(m3.pc == 9);
    lemma_step_instruction(lines, env, m3, instruction_text(lines[9]), Instr::AndImm(9, 9, 255));
    let m4 = step(lines, env, m3);
    assert(m4.pc == 10);
    lemma_step_instruction(lines, env, m4, instruction_text(lines[10]), Instr::Cmp(9, Operand::Imm(2)));
    let m5 = step(lines, env, m4);
    assert(m5.pc == 11);
    lemma_step_instruction(lines, env, m5, instruction_text(lines[11]), Instr::BCond(Cond::Eq, "__rt_gdt_array"@));
    let m6 = step(lines, env, m5);
    assert(m6.pc == 12);
    lemma_step_instruction(lines, env, m6, instruction_text(lines[12]), Instr::Cmp(9, Operand::Imm(3)));
    let m7 = step(lines, env, m6);
    assert(m7.pc == 13);
    lemma_step_instruction(lines, env, m7, instruction_text(lines[13]), Instr::BCond(Cond::Eq, "__rt_gdt_array"@));
    let m8 = step(lines, env, m7);
    assert(m8.pc == 14);
    lemma_step_instruction(lines, env, m8, instruction_text(lines[14]), Instr::Cmp(9, Operand::Imm(4)));
    let m9 = step(lines, env, m8);
    assert(m9.pc == 15);
    lemma_step_instruction(lines, env, m9, instruction_text(lines[15]), Instr::BCond(Cond::Eq, "__rt_gdt_object_from_x0"@));
    let m10 = step(lines, env, m9);
    assert(m10.pc == 16);
    lemma_step_instruction(lines, env, m10, instruction_text(lines[16]), Instr::Ldr(9, Address::Offset(0, 0)));
    let m11 = step(lines, env, m10);
    assert(m11.pc == 17);
    lemma_step_instruction(lines, env, m11, instruction_text(lines[17]), Instr::Cmp(9, Operand::Imm(7)));
    let m12 = step(lines, env, m11);
    assert(m12.pc == 18);
    lemma_step_instruction(lines, env, m12, instruction_text(lines[18]), Instr::BCond(Cond::Ne, "__rt_gdt_tags"@));
    let m13 = step(lines, env, m12);
    assert(m13.pc == 21);
    lemma_step_passes(lines, env, m13);
    let m14 = step(lines, env, m13);
    assert(m14.pc == 22);
    lemma_step_instruction(lines, env, m14, instruction_text(lines[22]), Instr::Cmp(9, Operand::Imm(0)));
    let m15 = step(lines, env, m14);
    assert(m15.pc == 23);
    lemma_step_instruction(lines, env, m15, instruction_text(lines[23]), Instr::BCond(Cond::Eq, "__rt_gdt_int"@));
    let m16 = step(lines, env, m15);
    assert(m16.pc == 24);
    lemma_step_instruction(lines, env, m16, instruction_text(lines[24]), Instr::Cmp(9, Operand::Imm(1)));
    let m17 = step(lines, env, m16);
    assert(m17.pc == 25);
    lemma_step_instruction(lines, env, m17, instruction_text(lines[25]), Instr::BCond(Cond::Eq, "__rt_gdt_string"@));
    let m18 = step(lines, env, m17);
    assert(m18.pc == 26);
    lemma_step_instruction(lines, env, m18, instruction_text(lines[26]), Instr::Cmp(9, Operand::Imm(2)));
    let m19 = step(lines, env, m18);
    assert(m19.pc == 27);
    lemma_step_instruction(lines, env, m19, instruction_text(lines[27]), Instr::BCond(Cond::Eq, "__rt_gdt_float"@));
    let m20 = step(lines, env, m19);
    assert(m20.pc == 28);
    lemma_step_instruction(lines, env, m20, instruction_text(lines[28]), Instr::Cmp(9, Operand::Imm(3)));
    let m21 = step(lines, env, m20);
    assert(m21.pc == 29);
    lemma_step_instruction(lines, env, m21, instruction_text(lines[29]), Instr::BCond(Cond::Eq, "__rt_gdt_bool"@));
    let m22 = step(lines, env, m21);
    assert(m22.pc == 30);
    lemma_step_instruction(lines, env, m22, instruction_text(lines[30]), Instr::Cmp(9, Operand::Imm(4)));
    let m23 = step(lines, env, m22);
    assert(m23.pc == 31);
    lemma_step_instruction(lines, env, m23, instruction_text(lines[31]), Instr::BCond(Cond::Eq, "__rt_gdt_array"@));
    let m24 = step(lines, env, m23);
    assert(m24.pc == 32);
    lemma_step_instruction(lines, env, m24, instruction_text(lines[32]), Instr::Cmp(9, Operand::Imm(5)));
    let m25 = step(lines, env, m24);
    assert(m25.pc == 33);
    lemma_step_instruction(lines, env, m25, instruction_text(lines[33]), Instr::BCond(Cond::Eq, "__rt_gdt_array"@));
    let m26 = step(lines, env, m25);
    assert(m26.pc == 34);
    lemma_step_instruction(lines, env, m26, instruction_text(lines[34]), Instr::Cmp(9, Operand::Imm(6)));
    let m27 = step(lines, env, m26);
    assert(m27.pc == 35);
    lemma_step_instruction(lines, env, m27, instruction_text(lines[35]), Instr::BCond(Cond::Eq, "__rt_gdt_object_cell"@));
    let m28 = step(lines, env, m27);
    assert(m28.pc == 36);
    lemma_step_instruction(lines, env, m28, instruction_text(lines[36]), Instr::Cmp(9, Operand::Imm(9)));
    let m29 = step(lines, env, m28);
    assert(m29.pc == 37);
    lemma_step_instruction(lines, env, m29, instruction_text(lines[37]), Instr::BCond(Cond::Eq, "__rt_gdt_resource"@));
    let m30 = step(lines, env, m29);
    assert(m30.pc == 38);
    lemma_step_instruction(lines, env, m30, instruction_text(lines[38]), Instr::B("__rt_gdt_null"@));
    let m31 = step(lines, env, m30);
    assert(m31.pc == 93);
    lemma_step_passes(lines, env, m31);
    let m32 = step(lines, env, m31);
    assert(m32.pc == 94);
    lemma_step_instruction(lines, env, m32, instruction_text(lines[94]), Instr::Adrp(0, "_gdt_null"@));
    let m33 = step(lines, env, m32);
    assert(m33.pc == 95);
    lemma_step_instruction(lines, env, m33, instruction_text(lines[95]), Instr::AddPageOffset(0, 0, "_gdt_null"@));
    let m34 = step(lines, env, m33);
    assert(m34.pc == 96);
    lemma_step_instruction(lines, env, m34, instruction_text(lines[96]), Instr::Mov(1, Operand::Imm(4)));
    let m35 = step(lines, env, m34);
    assert(m35.pc == 97);
    lemma_step_instruction(lines, env, m35, instruction_text(lines[97]), Instr::B("__rt_gdt_ret"@));
    let m36 = step(lines, env, m35);
    assert(m36.pc == 103);
    lemma_step_passes(lines, env, m36);
    let m37 = step(lines, env, m36);
    assert(m37.pc == 104);
    lemma_step_instruction(lines, env, m37, instruction_text(lines[104]), Instr::Ldp(29, 30, Address::Offset(31, 16)));
    let m38 = step(lines, env, m37);
    assert(m38.pc == 105);
    lemma_step_instruction(lines, env, m38, instruction_text(lines[105]), Instr::Add(31, 31, Operand::Imm(32)));
    let m39 = step(lines, env, m38);
    assert(m39.pc == 106);
    lemma_step_instruction(lines, env, m39, instruction_text(lines[106]), Instr::Ret);
    let m40 = step(lines, env, m39);
    assert(m40.pc == m40.pc);
    lemma_run_step(lines, env, m0, 39);
    lemma_run_step(lines, env, m1, 38);
    lemma_run_step(lines, env, m2, 37);
    lemma_run_step(lines, env, m3, 36);
    lemma_run_step(lines, env, m4, 35);
    lemma_run_step(lines, env, m5, 34);
    lemma_run_step(lines, env, m6, 33);
    lemma_run_step(lines, env, m7, 32);
    lemma_run_step(lines, env, m8, 31);
    lemma_run_step(lines, env, m9, 30);
    lemma_run_step(lines, env, m10, 29);
    lemma_run_step(lines, env, m11, 28);
    lemma_run_step(lines, env, m12, 27);
    lemma_run_step(lines, env, m13, 26);
    lemma_run_step(lines, env, m14, 25);
    lemma_run_step(lines, env, m15, 24);
    lemma_run_step(lines, env, m16, 23);
    lemma_run_step(lines, env, m17, 22);
    lemma_run_step(lines, env, m18, 21);
    lemma_run_step(lines, env, m19, 20);
    lemma_run_step(lines, env, m20, 19);
    lemma_run_step(lines, env, m21, 18);
    lemma_run_step(lines, env, m22, 17);
    lemma_run_step(lines, env, m23, 16);
    lemma_run_step(lines, env, m24, 15);
    lemma_run_step(lines, env, m25, 14);
    lemma_run_step(lines, env, m26, 13);
    lemma_run_step(lines, env, m27, 12);
    lemma_run_step(lines, env, m28, 11);
    lemma_run_step(lines, env, m29, 10);
    lemma_run_step(lines, env, m30, 9);
    lemma_run_step(lines, env, m31, 8);
    lemma_run_step(lines, env, m32, 7);
    lemma_run_step(lines, env, m33, 6);
    lemma_run_step(lines, env, m34, 5);
    lemma_run_step(lines, env, m35, 4);
    lemma_run_step(lines, env, m36, 3);
    lemma_run_step(lines, env, m37, 2);
    lemma_run_step(lines, env, m38, 1);
    lemma_run_step(lines, env, m39, 0);
}

/// Running the `get_debug_type` lines along one path.
#[verifier::rlimit(60)]
#[verifier::spinoff_prover]
proof fn lemma_get_debug_type_runs_tag6_null(lines: Seq<Line>, env: Env, m: Machine)
    requires
        !(lines[6] is Instruction),
        lines[7] is Instruction && decode(instruction_text(lines[7])) == Some(Instr::Cbz(0, "__rt_gdt_null"@)),
        lines[8] is Instruction && decode(instruction_text(lines[8])) == Some(Instr::Ldr(9, Address::Offset(0, -8))),
        lines[9] is Instruction && decode(instruction_text(lines[9])) == Some(Instr::AndImm(9, 9, 255)),
        lines[10] is Instruction && decode(instruction_text(lines[10])) == Some(Instr::Cmp(9, Operand::Imm(2))),
        lines[11] is Instruction && decode(instruction_text(lines[11])) == Some(Instr::BCond(Cond::Eq, "__rt_gdt_array"@)),
        lines[12] is Instruction && decode(instruction_text(lines[12])) == Some(Instr::Cmp(9, Operand::Imm(3))),
        lines[13] is Instruction && decode(instruction_text(lines[13])) == Some(Instr::BCond(Cond::Eq, "__rt_gdt_array"@)),
        lines[14] is Instruction && decode(instruction_text(lines[14])) == Some(Instr::Cmp(9, Operand::Imm(4))),
        lines[15] is Instruction && decode(instruction_text(lines[15])) == Some(Instr::BCond(Cond::Eq, "__rt_gdt_object_from_x0"@)),
        lines[16] is Instruction && decode(instruction_text(lines[16])) == Some(Instr::Ldr(9, Address::Offset(0, 0))),
        lines[17] is Instruction && decode(instruction_text(lines[17])) == Some(Instr::Cmp(9, Operand::Imm(7))),
        lines[18] is Instruction && decode(instruction_text(lines[18])) == Some(Instr::BCond(Cond::Ne, "__rt_gdt_tags"@)),
        !(lines[21] is Instruction),
        lines[22] is Instruction && decode(instruction_text(lines[22])) == Some(Instr::Cmp(9, Operand::Imm(0))),
        lines[23] is Instruction && decode(instruction_text(lines[23])) == Some(Instr::BCond(Cond::Eq, "__rt_gdt_int"@)),
        lines[24] is Instruction && decode(instruction_text(lines[24])) == Some(Instr::Cmp(9, Operand::Imm(1))),
        lines[25] is Instruction && decode(instruction_text(lines[25])) == Some(Instr::BCond(Cond::Eq, "__rt_gdt_string"@)),
        lines[26] is Instruction && decode(instruction_text(lines[26])) == Some(Instr::Cmp(9, Operand::Imm(2))),
        lines[27] is Instruction && decode(instruction_text(lines[27])) == Some(Instr::BCond(Cond::Eq, "__rt_gdt_float"@)),
        lines[28] is Instruction && decode(instruction_text(lines[28])) == Some(Instr::Cmp(9, Operand::Imm(3))),
        lines[29] is Instruction && decode(instruction_text(lines[29])) == Some(Instr::BCond(Cond::Eq, "__rt_gdt_bool"@)),
        lines[30] is Instruction && decode(instruction_text(lines[30])) == Some(Instr::Cmp(9, Operand::Imm(4))),
        lines[31] is Instruction && decode(instruction_text(lines[31])) == Some(Instr::BCond(Cond::Eq, "__rt_gdt_array"@)),
        lines[32] is Instruction && decode(instruction_text(lines[32])) == Some(Instr::Cmp(9, Operand::Imm(5))),
        lines[33] is Instruction && decode(instruction_text(lines[33])) == Some(Instr::BCond(Cond::Eq, "__rt_gdt_array"@)),
        lines[34] is Instruction && decode(instruction_text(lines[34])) == Some(Instr::Cmp(9, Operand::Imm(6))),
        lines[35] is Instruction && decode(instruction_text(lines[35])) == Some(Instr::BCond(Cond::Eq, "__rt_gdt_object_cell"@)),
        !(lines[39] is Instruction),
        lines[40] is Instruction && decode(instruction_text(lines[40])) == Some(Instr::Ldr(0, Address::Offset(0, 8))),
        lines[41] is Instruction && decode(instruction_text(lines[41])) == Some(Instr::Cbz(0, "__rt_gdt_null"@)),
        !(lines[93] is Instruction),
        lines[94] is Instruction && decode(instruction_text(lines[94])) == Some(Instr::Adrp(0, "_gdt_null"@)),
        lines[95] is Instruction && decode(instruction_text(lines[95])) == Some(Instr::AddPageOffset(0, 0, "_gdt_null"@)),
        lines[96] is Instruction && decode(instruction_text(lines[96])) == Some(Instr::Mov(1, Operand::Imm(4))),
        lines[97] is Instruction && decode(instruction_text(lines[97])) == Some(Instr::B("__rt_gdt_ret"@)),
        !(lines[103] is Instruction),
        lines[104] is Instruction && decode(instruction_text(lines[104])) == Some(Instr::Ldp(29, 30, Address::Offset(31, 16))),
        lines[105] is Instruction && decode(instruction_text(lines[105])) == Some(Instr::Add(31, 31, Operand::Imm(32))),
        lines[106] is Instruction && decode(instruction_text(lines[106])) == Some(Instr::Ret),
        find_label(lines, "__rt_gdt_array"@, 0) == 88,
        find_label(lines, "__rt_gdt_bool"@, 0) == 83,
        find_label(lines, "__rt_gdt_float"@, 0) == 78,
        find_label(lines, "__rt_gdt_int"@, 0) == 68,
        find_label(lines, "__rt_gdt_null"@, 0) == 93,
        find_label(lines, "__rt_gdt_object_cell"@, 0) == 39,
        find_label(lines, "__rt_gdt_object_from_x0"@, 0) == 42,
        find_label(lines, "__rt_gdt_ret"@, 0) == 103,
        find_label(lines, "__rt_gdt_string"@, 0) == 73,
        find_label(lines, "__rt_gdt_tags"@, 0) == 21,
        lines.len() == 107,
        m.pc == 6,
        !m.returned,
        !m.stuck,
        (m.mem)(read(m, 0)) == 6,
        (m.mem)(read(m, 0) + 8) == 0,
        read(m, 0) != 0,
        (m.mem)(read(m, 0) - 8) % 256 != 2 && (m.mem)(read(m, 0) - 8) % 256 != 3 && (m.mem)(read(m, 0) - 8) % 256 != 4,
    ensures
        ({
            let r = run(lines, env, m, 40);
            let e = debug_type_entry(read(m, 0), m.mem);
            &&& r.returned
            &&& read(r, 0) == (env.symbol)(e.0)
            &&& read(r, 1) == e.1.len()
        }),
{
    lemma_debug_type_name_lengths();
    let m0 = m;
    lemma_step_passes(lines, env, m0);
    let m1 = step(lines, env, m0);
    assert(m1.pc == 7);
    lemma_step_instruction(lines, env, m1, instruction_text(lines[7]), Instr::Cbz(0, "__rt_gdt_null"@));
    let m2 = step(lines, env, m1);
    assert(m2.pc == 8);
    lemma_step_instruction(lines, env, m2, instruction_text(lines[8]), Instr::Ldr(9, Address::Offset(0, -8)));
    let m3 = step(lines, env, m2);
    assert(m3.pc == 9);
    lemma_step_instruction(lines, env, m3, instruction_text(lines[9]), Instr::AndImm(9, 9, 255));
    let m4 = step(lines, env, m3);
    assert(m4.pc == 10);
    lemma_step_instruction(lines, env, m4, instruction_text(lines[10]), Instr::Cmp(9, Operand::Imm(2)));
    let m5 = step(lines, env, m4);
    assert(m5.pc == 11);
    lemma_step_instruction(lines, env, m5, instruction_text(lines[11]), Instr::BCond(Cond::Eq, "__rt_gdt_array"@));
    let m6 = step(lines, env, m5);
    assert(m6.pc == 12);
    lemma_step_instruction(lines, env, m6, instruction_text(lines[12]), Instr::Cmp(9, Operand::Imm(3)));
    let m7 = step(lines, env, m6);
    assert(m7.pc == 13);
    lemma_step_instruction(lines, env, m7, instruction_text(lines[13]), Instr::BCond(Cond::Eq, "__rt_gdt_array"@));
    let m8 = step(lines, env, m7);
    assert(m8.pc == 14);
    lemma_step_instruction(lines, env, m8, instruction_text(lines[14]), Instr::Cmp(9, Operand::Imm(4)));
    let m9 = step(lines, env, m8);
    assert(m9.pc == 15);
    lemma_step_instruction(lines, env, m9, instruction_text(lines[15]), Instr::BCond(Cond::Eq, "__rt_gdt_object_from_x0"@));
    let m10 = step(lines, env, m9);
    assert(m10.pc == 16);
    lemma_step_instruction(lines, env, m10, instruction_text(lines[16]), Instr::Ldr(9, Address::Offset(0, 0)));
    let m11 = step(lines, env, m10);
    assert(m11.pc == 17);
    lemma_step_instruction(lines, env, m11, instruction_text(lines[17]), Instr::Cmp(9, Operand::Imm(7)));
    let m12 = step(lines, env, m11);
    assert(m12.pc == 18);
    lemma_step_instruction(lines, env, m12, instruction_text(lines[18]), Instr::BCond(Cond::Ne, "__rt_gdt_tags"@));
    let m13 = step(lines, env, m12);
    assert(m13.pc == 21);
    lemma_step_passes(lines, env, m13);
    let m14 = step(lines, env, m13);
    assert(m14.pc == 22);
    lemma_step_instruction(lines, env, m14, instruction_text(lines[22]), Instr::Cmp(9, Operand::Imm(0)));
    let m15 = step(lines, env, m14);
    assert(m15.pc == 23);
    lemma_step_instruction(lines, env, m15, instruction_text(lines[23]), Instr::BCond(Cond::Eq, "__rt_gdt_int"@));
    let m16 = step(lines, env, m15);
    assert(m16.pc == 24);
    lemma_step_instruction(lines, env, m16, instruction_text(lines[24]), Instr::Cmp(9, Operand::Imm(1)));
    let m17 = step(lines, env, m16);
    assert(m17.pc == 25);
    lemma_step_instruction(lines, env, m17, instruction_text(lines[25]), Instr::BCond(Cond::Eq, "__rt_gdt_string"@));
    let m18 = step(lines, env, m17);
    assert(m18.pc == 26);
    lemma_step_instruction(lines, env, m18, instruction_text(lines[26]), Instr::Cmp(9, Operand::Imm(2)));
    let m19 = step(lines, env, m18);
    assert(m19.pc == 27);
    lemma_step_instruction(lines, env, m19, instruction_text(lines[27]), Instr::BCond(Cond::Eq, "__rt_gdt_float"@));
    let m20 = step(lines, env, m19);
    assert(m20.pc == 28);
    lemma_step_instruction(lines, env, m20, instruction_text(lines[28]), Instr::Cmp(9, Operand::Imm(3)));
    let m21 = step(lines, env, m20);
    assert(m21.pc == 29);
    lemma_step_instruction(lines, env, m21, instruction_text(lines[29]), Instr::BCond(Cond::Eq, "__rt_gdt_bool"@));
    let m22 = step(lines, env, m21);
    assert(m22.pc == 30);
    lemma_step_instruction(lines, env, m22, instruction_text(lines[30]), Instr::Cmp(9, Operand::Imm(4)));
    let m23 = step(lines, env, m22);
    assert(m23.pc == 31);
    lemma_step_instruction(lines, env, m23, instruction_text(lines[31]), Instr::BCond(Cond::Eq, "__rt_gdt_array"@));
    let m24 = step(lines, env, m23);
    assert(m24.pc == 32);
    lemma_step_instruction(lines, env, m24, instruction_text(lines[32]), Instr::Cmp(9, Operand::Imm(5)));
    let m25 = step(lines, env, m24);
    assert(m25.pc == 33);
    lemma_step_instruction(lines, env, m25, instruction_text(lines[33]), Instr::BCond(Cond::Eq, "__rt_gdt_array"@));
    let m26 = step(lines, env, m25);
    assert(m26.pc == 34);
    lemma_step_instruction(lines, env, m26, instruction_text(lines[34]), Instr::Cmp(9, Operand::Imm(6)));
    let m27 = step(lines, env, m26);
    assert(m27.pc == 35);
    lemma_step_instruction(lines, env, m27, instruction_text(lines[35]), Instr::BCond(Cond::Eq, "__rt_gdt_object_cell"@));
    let m28 = step(lines, env, m27);
    assert(m28.pc == 39);
    lemma_step_passes(lines, env, m28);
    let m29 = step(lines, env, m28);
    assert(m29.pc == 40);
    lemma_step_instruction(lines, env, m29, instruction_text(lines[40]), Instr::Ldr(0, Address::Offset(0, 8)));
    let m30 = step(lines, env, m29);
    assert(m30.pc == 41);
    lemma_step_instruction(lines, env, m30, instruction_text(lines[41]), Instr::Cbz(0, "__rt_gdt_null"@));
    let m31 = step(lines, env, m30);
    assert(m31.pc == 93);
    lemma_step_passes(lines, env, m31);
    let m32 = step(lines, env, m31);
    assert(m32.pc == 94);
    lemma_step_instruction(lines, env, m32, instruction_text(lines[94]), Instr::Adrp(0, "_gdt_null"@));
    let m33 = step(lines, env, m32);
    assert(m33.pc == 95);
    lemma_step_instruction(lines, env, m33, instruction_text(lines[95]), Instr::AddPageOffset(0, 0, "_gdt_null"@));
    let m34 = step(lines, env, m33);
    assert(m34.pc == 96);
    lemma_step_instruction(lines, env, m34, instruction_text(lines[96]), Instr::Mov(1, Operand::Imm(4)));
    let m35 = step(lines, env, m34);
    assert(m35.pc == 97);
    lemma_step_instruction(lines, env, m35, instruction_text(lines[97]), Instr::B("__rt_gdt_ret"@));
    let m36 = step(lines, env, m35);
    assert(m36.pc == 103);
    lemma_step_passes(lines, env, m36);
    let m37 = step(lines, env, m36);
    assert(m37.pc == 104);
    lemma_step_instruction(lines, env, m37, instruction_text(lines[104]), Instr::Ldp(29, 30, Address::Offset(31, 16)));
    let m38 = step(lines, env, m37);
    assert(m38.pc == 105);
    lemma_step_instruction(lines, env, m38, instruction_text(lines[105]), Instr::Add(31, 31, Operand::Imm(32)));
    let m39 = step(lines, env, m38);
    assert(m39.pc == 106);
    lemma_step_instruction(lines, env, m39, instruction_text(lines[106]), Instr::Ret);
    let m40 = step(lines, env, m39);
    assert(m40.pc == m40.pc);
    lemma_run_step(lines, env, m0, 39);
    lemma_run_step(lines, env, m1, 38);
    lemma_run_step(lines, env, m2, 37);
    lemma_run_step(lines, env, m3, 36);
    lemma_run_step(lines, env, m4, 35);
    lemma_run_step(lines, env, m5, 34);
    lemma_run_step(lines, env, m6, 33);
    lemma_run_step(lines, env, m7, 32);
    lemma_run_step(lines, env, m8, 31);
    lemma_run_step(lines, env, m9, 30);
    lemma_run_step(lines, env, m10, 29);
    lemma_run_step(lines, env, m11, 28);
    lemma_run_step(lines, env, m12, 27);
    lemma_run_step(lines, env, m13, 26);
    lemma_run_step(lines, env, m14, 25);
    lemma_run_step(lines, env, m15, 24);
    lemma_run_step(lines, env, m16, 23);
    lemma_run_step(lines, env, m17, 22);
    lemma_run_step(lines, env, m18, 21);
    lemma_run_step(lines, env, m19, 20);
    lemma_run_step(lines, env, m20, 19);
    lemma_run_step(lines, env, m21, 18);
    lemma_run_step(lines, env, m22, 17);
    lemma_run_step(lines, env, m23, 16);
    lemma_run_step(lines, env, m24, 15);
    lemma_run_step(lines, env, m25, 14);
    lemma_run_step(lines, env, m26, 13);
    lemma_run_step(lines, env, m27, 12);
    lemma_run_step(lines, env, m28, 11);
    lemma_run_step(lines, env, m29, 10);
    lemma_run_step(lines, env, m30, 9);
    lemma_run_step(lines, env, m31, 8);
    lemma_run_step(lines, env, m32, 7);
    lemma_run_step(lines, env, m33, 6);
    lemma_run_step(lines, env, m34, 5);
    lemma_run_step(lines, env, m35, 4);
    lemma_run_step(lines, env, m36, 3);
    lemma_run_step(lines, env, m37, 2);
    lemma_run_step(lines, env, m38, 1);
    lemma_run_step(lines, env, m39, 0);
}

/// Running the `get_debug_type` lines along one path.
#[verifier::rlimit(60)]
#[verifier::spinoff_prover]
proof fn lemma_get_debug_type_runs_raw_array(lines: Seq<Line>, env: Env, m: Machine)
    requires
        !(lines[6] is Instruction),
        lines[7] is Instruction && decode(instruction_text(lines[7])) == Some(Instr::Cbz(0, "__rt_gdt_null"@)),
        lines[8] is Instruction && decode(instruction_text(lines[8])) == Some(Instr::Ldr(9, Address::Offset(0, -8))),
        lines[9] is Instruction && decode(instruction_text(lines[9])) == Some(Instr::AndImm(9, 9, 255)),
        lines[10] is Instruction && decode(instruction_text(lines[10])) == Some(Instr::Cmp(9, Operand::Imm(2))),
        lines[11] is Instruction && decode(instruction_text(lines[11])) == Some(Instr::BCond(Cond::Eq, "__rt_gdt_array"@)),
        !(lines[88] is Instruction),
        lines[89] is Instruction && decode(instruction_text(lines[89])) == Some(Instr::Adrp(0, "_gdt_array"@)),
        lines[90] is Instruction && decode(instruction_text(lines[90])) == Some(Instr::AddPageOffset(0, 0, "_gdt_array"@)),
        lines[91] is Instruction && decode(instruction_text(lines[91])) == Some(Instr::Mov(1, Operand::Imm(5))),
        lines[92] is Instruction && decode(instruction_text(lines[92])) == Some(Instr::B("__rt_gdt_ret"@)),
        !(lines[103] is Instruction),
        lines[104] is Instruction && decode(instruction_text(lines[104])) == Some(Instr::Ldp(29, 30, Address::Offset(31, 16))),
        lines[105] is Instruction && decode(instruction_text(lines[105])) == Some(Instr::Add(31, 31, Operand::Imm(32))),
        lines[106] is Instruction && decode(instruction_text(lines[106])) == Some(Instr::Ret),
        find_label(lines, "__rt_gdt_array"@, 0) == 88,
        find_label(lines, "__rt_gdt_null"@, 0) == 93,
        find_label(lines, "__rt_gdt_ret"@, 0) == 103,
        lines.len() == 107,
        m.pc == 6,
        !m.returned,
        !m.stuck,
        (m.mem)(read(m, 0) - 8) % 256 == 2,
        read(m, 0) != 0,
    ensures
        ({
            let r = run(lines, env, m, 40);
            let e = debug_type_entry(read(m, 0), m.mem);
            &&& r.returned
            &&& read(r, 0) == (env.symbol)(e.0)
            &&& read(r, 1) == e.1.len()
        }),
{
    lemma_debug_type_name_lengths();
    let m0 = m;
    lemma_step_passes(lines, env, m0);
    let m1 = step(lines, env, m0);
    assert(m1.pc == 7);
    lemma_step_instruction(lines, env, m1, instruction_text(lines[7]), Instr::Cbz(0, "__rt_gdt_null"@));
    let m2 = step(lines, env, m1);
    assert(m2.pc == 8);
    lemma_step_instruction(lines, env, m2, instruction_text(lines[8]), Instr::Ldr(9, Address::Offset(0, -8)));
    let m3 = step(lines, env, m2);
    assert(m3.pc == 9);
    lemma_step_instruction(lines, env, m3, instruction_text(lines[9]), Instr::AndImm(9, 9, 255));
    let m4 = step(lines, env, m3);
    assert(m4.pc == 10);
    lemma_step_instruction(lines, env, m4, instruction_text(lines[10]), Instr::Cmp(9, Operand::Imm(2)));
    let m5 = step(lines, env, m4);
    assert(m5.pc == 11);
    lemma_step_instruction(lines, env, m5, instruction_text(lines[11]), Instr::BCond(Cond::Eq, "__rt_gdt_array"@));
    let m6 = step(lines, env, m5);
    assert(m6.pc == 88);
    lemma_step_passes(lines, env, m6);
    let m7 = step(lines, env, m6);
    assert(m7.pc == 89);
    lemma_step_instruction(lines, env, m7, instruction_text(lines[89]), Instr::Adrp(0, "_gdt_array"@));
    let m8 = step(lines, env, m7);
    assert(m8.pc == 90);
    lemma_step_instruction(lines, env, m8, instruction_text(lines[90]), Instr::AddPageOffset(0, 0, "_gdt_array"@));
    let m9 = step(lines, env, m8);
    assert(m9.pc == 91);
    lemma_step_instruction(lines, env, m9, instruction_text(lines[91]), Instr::Mov(1, Operand::Imm(5)));
    let m10 = step(lines, env, m9);
    assert(m10.pc == 92);
    lemma_step_instruction(lines, env, m10, instruction_text(lines[92]), Instr::B("__rt_gdt_ret"@));
    let m11 = step(lines, env, m10);
    assert(m11.pc == 103);
    lemma_step_passes(lines, env, m11);
    let m12 = step(lines, env, m11);
    assert(m12.pc == 104);
    lemma_step_instruction(lines, env, m12, instruction_text(lines[104]), Instr::Ldp(29, 30, Address::Offset(31, 16)));
    let m13 = step(lines, env, m12);
    assert(m13.pc == 105);
    lemma_step_instruction(lines, env, m13, instruction_text(lines[105]), Instr::Add(31, 31, Operand::Imm(32)));
    let m14 = step(lines, env, m13);
    assert(m14.pc == 106);
    lemma_step_instruction(lines, env, m14, instruction_text(lines[106]), Instr::Ret);
    let m15 = step(lines, env, m14);
    assert(m15.pc == m15.pc);
    lemma_run_step(lines, env, m0, 39);
    lemma_run_step(lines, env, m1, 38);
    lemma_run_step(lines, env, m2, 37);
    lemma_run_step(lines, env, m3, 36);
    lemma_run_step(lines, env, m4, 35);
    lemma_run_step(lines, env, m5, 34);
    lemma_run_step(lines, env, m6, 33);
    lemma_run_step(lines, env, m7, 32);
    lemma_run_step(lines, env, m8, 31);
    lemma_run_step(lines, env, m9, 30);
    lemma_run_step(lines, env, m10, 29);
    lemma_run_step(lines, env, m11, 28);
    lemma_run_step(lines, env, m12, 27);
    lemma_run_step(lines, env, m13, 26);
    lemma_run_step(lines, env, m14, 25);
    lemma_run_returned(lines, env, m15, 25);
}

/// Running the `get_debug_type` lines along one path.
#[verifier::rlimit(60)]
#[verifier::spinoff_prover]
proof fn lemma_get_debug_type_runs_raw_hash(lines: Seq<Line>, env: Env, m: Machine)
    requires
        !(lines[6] is Instruction),
        lines[7] is Instruction && decode(instruction_text(lines[7])) == Some(Instr::Cbz(0, "__rt_gdt_null"@)),
        lines[8] is Instruction && decode(instruction_text(lines[8])) == Some(Instr::Ldr(9, Address::Offset(0, -8))),
        lines[9] is Instruction && decode(instruction_text(lines[9])) == Some(Instr::AndImm(9, 9, 255)),
        lines[10] is Instruction && decode(instruction_text(lines[10])) == Some(Instr::Cmp(9, Operand::Imm(2))),
        lines[11] is Instruction && decode(instruction_text(lines[11])) == Some(Instr::BCond(Cond::Eq, "__rt_gdt_array"@)),
        lines[12] is Instruction && decode(instruction_text(lines[12])) == Some(Instr::Cmp(9, Operand::Imm(3))),
        lines[13] is Instruction && decode(instruction_text(lines[13])) == Some(Instr::BCond(Cond::Eq, "__rt_gdt_array"@)),
        !(lines[88] is Instruction),
        lines[89] is Instruction && decode(instruction_text(lines[89])) == Some(Instr::Adrp(0, "_gdt_array"@)),
        lines[90] is Instruction && decode(instruction_text(lines[90])) == Some(Instr::AddPageOffset(0, 0, "_gdt_array"@)),
        lines[91] is Instruction && decode(instruction_text(lines[91])) == Some(Instr::Mov(1, Operand::Imm(5))),
        lines[92] is Instruction && decode(instruction_text(lines[92])) == Some(Instr::B("__rt_gdt_ret"@)),
        !(lines[103] is Instruction),
        lines[104] is Instruction && decode(instruction_text(lines[104])) == Some(Instr::Ldp(29, 30, Address::Offset(31, 16))),
        lines[105] is Instruction && decode(instruction_text(lines[105])) == Some(Instr::Add(31, 31, Operand::Imm(32))),
        lines[106] is Instruction && decode(instruction_text(lines[106])) == Some(Instr::Ret),
        find_label(lines, "__rt_gdt_array"@, 0) == 88,
        find_label(lines, "__rt_gdt_null"@, 0) == 93,
        find_label(lines, "__rt_gdt_ret"@, 0) == 103,
        lines.len() == 107,
        m.pc == 6,
        !m.returned,
        !m.stuck,
        (m.mem)(read(m, 0) - 8) % 256 == 3,
        read(m, 0) != 0,
        (m.mem)(read(m, 0) - 8) % 256 != 2,
    ensures
        ({
            let r = run(lines, env, m, 40);
            let e = debug_type_entry(read(m, 0), m.mem);
            &&& r.returned
            &&& read(r, 0) == (env.symbol)(e.0)
            &&& read(r, 1) == e.1.len()
        }),
{
    lemma_debug_type_name_lengths();
    let m0 = m;
    lemma_step_passes(lines, env, m0);
    let m1 = step(lines, env, m0);
    assert(m1.pc == 7);
    lemma_step_instruction(lines, env, m1, instruction_text(lines[7]), Instr::Cbz(0, "__rt_gdt_null"@));
    let m2 = step(lines, env, m1);
    assert(m2.pc == 8);
    lemma_step_instruction(lines, env, m2, instruction_text(lines[8]), Instr::Ldr(9, Address::Offset(0, -8)));
    let m3 = step(lines, env, m2);
    assert(m3.pc == 9);
    lemma_step_instruction(lines, env, m3, instruction_text(lines[9]), Instr::AndImm(9, 9, 255));
    let m4 = step(lines, env, m3);
    assert(m4.pc == 10);
    lemma_step_instruction(lines, env, m4, instruction_text(lines[10]), Instr::Cmp(9, Operand::Imm(2)));
    let m5 = step(lines, env, m4);
    assert(m5.pc == 11);
    lemma_step_instruction(lines, env, m5, instruction_text(lines[11]), Instr::BCond(Cond::Eq, "__rt_gdt_array"@));
    let m6 = step(lines, env, m5);
    assert(m6.pc == 12);
    lemma_step_instruction(lines, env, m6, instruction_text(lines[12]), Instr::Cmp(9, Operand::Imm(3)));
    let m7 = step(lines, env, m6);
    assert(m7.pc == 13);
    lemma_step_instruction(lines, env, m7, instruction_text(lines[13]), Instr::BCond(Cond::Eq, "__rt_gdt_array"@));
    let m8 = step(lines, env, m7);
    assert(m8.pc == 88);
    lemma_step_passes(lines, env, m8);
    let m9 = step(lines, env, m8);
    assert(m9.pc == 89);
    lemma_step_instruction(lines, env, m9, instruction_text(lines[89]), Instr::Adrp(0, "_gdt_array"@));
    let m10 = step(lines, env, m9);
    assert(m10.pc == 90);
    lemma_step_instruction(lines, env, m10, instruction_text(lines[90]), Instr::AddPageOffset(0, 0, "_gdt_array"@));
    let m11 = step(lines, env, m10);
    assert(m11.pc == 91);
    lemma_step_instruction(lines, env, m11, instruction_text(lines[91]), Instr::Mov(1, Operand::Imm(5)));
    let m12 = step(lines, env, m11);
    assert(m12.pc == 92);
    lemma_step_instruction(lines, env, m12, instruction_text(lines[92]), Instr::B("__rt_gdt_ret"@));
    let m13 = step(lines, env, m12);
    assert(m13.pc == 103);
    lemma_step_passes(lines, env, m13);
    let m14 = step(lines, env, m13);
    assert(m14.pc == 104);
    lemma_step_instruction(lines, env, m14, instruction_text(lines[104]), Instr::Ldp(29, 30, Address::Offset(31, 16)));
    let m15 = step(lines, env, m14);
    assert(m15.pc == 105);
    lemma_step_instruction(lines, env, m15, instruction_text(lines[105]), Instr::Add(31, 31, Operand::Imm(32)));
    let m16 = step(lines, env, m15);
    assert(m16.pc == 106);
    lemma_step_instruction(lines, env, m16, instruction_text(lines[106]), Instr::Ret);
    let m17 = step(lines, env, m16);
    assert(m17.pc == m17.pc);
    lemma_run_step(lines, env, m0, 39);
    lemma_run_step(lines, env, m1, 38);
    lemma_run_step(lines, env, m2, 37);
    lemma_run_step(lines, env, m3, 36);
    lemma_run_step(lines, env, m4, 35);
    lemma_run_step(lines, env, m5, 34);
    lemma_run_step(lines, env, m6, 33);
    lemma_run_step(lines, env, m7, 32);
    lemma_run_step(lines, env, m8, 31);
    lemma_run_step(lines, env, m9, 30);
    lemma_run_step(lines, env, m10, 29);
    lemma_run_step(lines, env, m11, 28);
    lemma_run_step(lines, env, m12, 27);
    lemma_run_step(lines, env, m13, 26);
    lemma_run_step(lines, env, m14, 25);
    lemma_run_step(lines, env, m15, 24);
    lemma_run_step(lines, env, m16, 23);
    lemma_run_returned(lines, env, m17, 23);
}

/// Running the `get_debug_type` lines along one path.
#[verifier::rlimit(60)]
#[verifier::spinoff_prover]
proof fn lemma_get_debug_type_runs_null(lines: Seq<Line>, env: Env, m: Machine)
    requires
        !(lines[6] is Instruction),
        lines[7] is Instruction && decode(instruction_text(lines[7])) == Some(Instr::Cbz(0, "__rt_gdt_null"@)),
        !(lines[93] is Instruction),
        lines[94] is Instruction && decode(instruction_text(lines[94])) == Some(Instr::Adrp(0, "_gdt_null"@)),
        lines[95] is Instruction && decode(instruction_text(lines[95])) == Some(Instr::AddPageOffset(0, 0, "_gdt_null"@)),
        lines[96] is Instruction && decode(instruction_text(lines[96])) == Some(Instr::Mov(1, Operand::Imm(4))),
        lines[97] is Instruction && decode(instruction_text(lines[97])) == Some(Instr::B("__rt_gdt_ret"@)),
        !(lines[103] is Instruction),
        lines[104] is Instruction && decode(instruction_text(lines[104])) == Some(Instr::Ldp(29, 30, Address::Offset(31, 16))),
        lines[105] is Instruction && decode(instruction_text(lines[105])) == Some(Instr::Add(31, 31, Operand::Imm(32))),
        lines[106] is Instruction && decode(instruction_text(lines[106])) == Some(Instr::Ret),
        find_label(lines, "__rt_gdt_null"@, 0) == 93,
        find_label(lines, "__rt_gdt_ret"@, 0) == 103,
        lines.len() == 107,
        m.pc == 6,
        !m.returned,
        !m.stuck,
        read(m, 0) == 0,
    ensures
        ({
            let r = run(lines, env, m, 40);
            let e = debug_type_entry(read(m, 0), m.mem);
            &&& r.returned
            &&& read(r, 0) == (env.symbol)(e.0)
            &&& read(r, 1) == e.1.len()
        }),
{
    lemma_debug_type_name_lengths();
    let m0 = m;
    lemma_step_passes(lines, env, m0);
    let m1 = step(lines, env, m0);
    assert(m1.pc == 7);
    lemma_step_instruction(lines, env, m1, instruction_text(lines[7]), Instr::Cbz(0, "__rt_gdt_null"@));
    let m2 = step(lines, env, m1);
    assert(m2.pc == 93);
    lemma_step_passes(lines, env, m2);
    let m3 = step(lines, env, m2);
    assert(m3.pc == 94);
    lemma_step_instruction(lines, env, m3, instruction_text(lines[94]), Instr::Adrp(0, "_gdt_null"@));
    let m4 = step(lines, env, m3);
    assert(m4.pc == 95);
    lemma_step_instruction(lines, env, m4, instruction_text(lines[95]), Instr::AddPageOffset(0, 0, "_gdt_null"@));
    let m5 = step(lines, env, m4);
    assert(m5.pc == 96);
    lemma_step_instruction(lines, env, m5, instruction_text(lines[96]), Instr::Mov(1, Operand::Imm(4)));
    let m6 = step(lines, env, m5);
    assert(m6.pc == 97);
    lemma_step_instruction(lines, env, m6, instruction_text(lines[97]), Instr::B("__rt_gdt_ret"@));
    let m7 = step(lines, env, m6);
    assert(m7.pc == 103);
    lemma_step_passes(lines, env, m7);
    let m8 = step(lines, env, m7);
    assert(m8.pc == 104);
    lemma_step_instruction(lines, env, m8, instruction_text(lines[104]), Instr::Ldp(29, 30, Address::Offset(31, 16)));
    let m9 = step(lines, env, m8);
    assert(m9.pc == 105);
    lemma_step_instruction(lines, env, m9, instruction_text(lines[105]), Instr::Add(31, 31, Operand::Imm(32)));
    let m10 = step(lines, env, m9);
    assert(m10.pc == 106);
    lemma_step_instruction(lines, env, m10, instruction_text(lines[106]), Instr::Ret);
    let m11 = step(lines, env, m10);
    assert(m11.pc == m11.pc);
    lemma_run_step(lines, env, m0, 39);
    lemma_run_step(lines, env, m1, 38);
    lemma_run_step(lines, env, m2, 37);
    lemma_run_step(lines, env, m3, 36);
    lemma_run_step(lines, env, m4, 35);
    lemma_run_step(lines, env, m5, 34);
    lemma_run_step(lines, env, m6, 33);
    lemma_run_step(lines, env, m7, 32);
    lemma_run_step(lines, env, m8, 31);
    lemma_run_step(lines, env, m9, 30);
    lemma_run_step(lines, env, m10, 29);
    lemma_run_returned(lines, env, m11, 29);
}

/// How the model reads the AArch64 `__rt_get_debug_type` lines: what each line on the
/// helper's paths decodes to, and where the labels they reach stand.
#[verifier::opaque]
pub open spec fn get_debug_type_shape(lines: Seq<Line>) -> bool {
    &&& lines.len() == 107
    &&& !(lines[2] is Instruction)
    &&& lines[3] is Instruction && decode(instruction_text(lines[3])) == Some(Instr::Sub(31, 31, Operand::Imm(32)))
    &&& lines[4] is Instruction && decode(instruction_text(lines[4])) == Some(Instr::Stp(29, 30, Address::Offset(31, 16)))
    &&& lines[5] is Instruction && decode(instruction_text(lines[5])) == Some(Instr::Add(29, 31, Operand::Imm(16)))
    &&& !(lines[6] is Instruction)
    &&& lines[7] is Instruction && decode(instruction_text(lines[7])) == Some(Instr::Cbz(0, "__rt_gdt_null"@))
    &&& lines[8] is Instruction && decode(instruction_text(lines[8])) == Some(Instr::Ldr(9, Address::Offset(0, -8)))
    &&& lines[9] is Instruction && decode(instruction_text(lines[9])) == Some(Instr::AndImm(9, 9, 255))
    &&& lines[10] is Instruction && decode(instruction_text(lines[10])) == Some(Instr::Cmp(9, Operand::Imm(2)))
    &&& lines[11] is Instruction && decode(instruction_text(lines[11])) == Some(Instr::BCond(Cond::Eq, "__rt_gdt_array"@))
    &&& lines[12] is Instruction && decode(instruction_text(lines[12])) == Some(Instr::Cmp(9, Operand::Imm(3)))
    &&& lines[13] is Instruction && decode(instruction_text(lines[13])) == Some(Instr::BCond(Cond::Eq, "__rt_gdt_array"@))
    &&& lines[14] is Instruction && decode(instruction_text(lines[14])) == Some(Instr::Cmp(9, Operand::Imm(4)))
    &&& lines[15] is Instruction && decode(instruction_text(lines[15])) == Some(Instr::BCond(Cond::Eq, "__rt_gdt_object_from_x0"@))
    &&& lines[16] is Instruction && decode(instruction_text(lines[16])) == Some(Instr::Ldr(9, Address::Offset(0, 0)))
    &&& lines[17] is Instruction && decode(instruction_text(lines[17])) == Some(Instr::Cmp(9, Operand::Imm(7)))
    &&& lines[18] is Instruction && decode(instruction_text(lines[18])) == Some(Instr::BCond(Cond::Ne, "__rt_gdt_tags"@))
    &&& lines[19] is Instruction && decode(instruction_text(lines[19])) == Some(Instr::Ldr(0, Address::Offset(0, 8)))
    &&& lines[20] is Instruction && decode(instruction_text(lines[20])) == Some(Instr::B("__rt_gdt_dispatch"@))
    &&& !(lines[21] is Instruction)
    &&& lines[22] is Instruction && decode(instruction_text(lines[22])) == Some(Instr::Cmp(9, Operand::Imm(0)))
    &&& lines[23] is Instruction && decode(instruction_text(lines[23])) == Some(Instr::BCond(Cond::Eq, "__rt_gdt_int"@))
    &&& lines[24] is Instruction && decode(instruction_text(lines[24])) == Some(Instr::Cmp(9, Operand::Imm(1)))
    &&& lines[25] is Instruction && decode(instruction_text(lines[25])) == Some(Instr::BCond(Cond::Eq, "__rt_gdt_string"@))
    &&& lines[26] is Instruction && decode(instruction_text(lines[26])) == Some(Instr::Cmp(9, Operand::Imm(2)))
    &&& lines[27] is Instruction && decode(instruction_text(lines[27])) == Some(Instr::BCond(Cond::Eq, "__rt_gdt_float"@))
    &&& lines[28] is Instruction && decode(instruction_text(lines[28])) == Some(Instr::Cmp(9, Operand::Imm(3)))
    &&& lines[29] is Instruction && decode(instruction_text(lines[29])) == Some(Instr::BCond(Cond::Eq, "__rt_gdt_bool"@))
    &&& lines[30] is Instruction && decode(instruction_text(lines[30])) == Some(Instr::Cmp(9, Operand::Imm(4)))
    &&& lines[31] is Instruction && decode(instruction_text(lines[31])) == Some(Instr::BCond(Cond::Eq, "__rt_gdt_array"@))
    &&& lines[32] is Instruction && decode(instruction_text(lines[32])) == Some(Instr::Cmp(9, Operand::Imm(5)))
    &&& lines[33] is Instruction && decode(instruction_text(lines[33])) == Some(Instr::BCond(Cond::Eq, "__rt_gdt_array"@))
    &&& lines[34] is Instruction && decode(instruction_text(lines[34])) == Some(Instr::Cmp(9, Operand::Imm(6)))
    &&& lines[35] is Instruction && decode(instruction_text(lines[35])) == Some(Instr::BCond(Cond::Eq, "__rt_gdt_object_cell"@))
    &&& lines[36] is Instruction && decode(instruction_text(lines[36])) == Some(Instr::Cmp(9, Operand::Imm(9)))
    &&& lines[37] is Instruction && decode(instruction_text(lines[37])) == Some(Instr::BCond(Cond::Eq, "__rt_gdt_resource"@))
    &&& lines[38] is Instruction && decode(instruction_text(lines[38])) == Some(Instr::B("__rt_gdt_null"@))
    &&& !(lines[39] is Instruction)
    &&& lines[40] is Instruction && decode(instruction_text(lines[40])) == Some(Instr::Ldr(0, Address::Offset(0, 8)))
    &&& lines[41] is Instruction && decode(instruction_text(lines[41])) == Some(Instr::Cbz(0, "__rt_gdt_null"@))
    &&& !(lines[42] is Instruction)
    &&& lines[43] is Instruction && decode(instruction_text(lines[43])) == Some(Instr::Ldr(11, Address::Offset(0, 0)))
    &&& lines[44] is Instruction && decode(instruction_text(lines[44])) == Some(Instr::Adrp(9, "_classes_by_name_count"@))
    &&& lines[45] is Instruction && decode(instruction_text(lines[45])) == Some(Instr::AddPageOffset(9, 9, "_classes_by_name_count"@))
    &&& lines[46] is Instruction && decode(instruction_text(lines[46])) == Some(Instr::Ldr(9, Address::Offset(9, 0)))
    &&& lines[47] is Instruction && decode(instruction_text(lines[47])) == Some(Instr::Adrp(10, "_classes_by_name"@))
    &&& lines[48] is Instruction && decode(instruction_text(lines[48])) == Some(Instr::AddPageOffset(10, 10, "_classes_by_name"@))
    &&& lines[49] is Instruction && decode(instruction_text(lines[49])) == Some(Instr::Mov(12, Operand::Imm(0)))
    &&& !(lines[50] is Instruction)
    &&& lines[51] is Instruction && decode(instruction_text(lines[51])) == Some(Instr::Cmp(12, Operand::Reg(9)))
    &&& lines[52] is Instruction && decode(instruction_text(lines[52])) == Some(Instr::BCond(Cond::Ge, "__rt_gdt_object_fallback"@))
    &&& lines[53] is Instruction && decode(instruction_text(lines[53])) == Some(Instr::Ldr(13, Address::Offset(10, 16)))
    &&& lines[54] is Instruction && decode(instruction_text(lines[54])) == Some(Instr::Cmp(13, Operand::Reg(11)))
    &&& lines[55] is Instruction && decode(instruction_text(lines[55])) == Some(Instr::BCond(Cond::Eq, "__rt_gdt_class_hit"@))
    &&& lines[56] is Instruction && decode(instruction_text(lines[56])) == Some(Instr::Add(10, 10, Operand::Imm(48)))
    &&& lines[57] is Instruction && decode(instruction_text(lines[57])) == Some(Instr::Add(12, 12, Operand::Imm(1)))
    &&& lines[58] is Instruction && decode(instruction_text(lines[58])) == Some(Instr::B("__rt_gdt_class_loop"@))
    &&& !(lines[59] is Instruction)
    &&& lines[60] is Instruction && decode(instruction_text(lines[60])) == Some(Instr::Ldr(1, Address::Offset(10, 8)))
    &&& lines[61] is Instruction && decode(instruction_text(lines[61])) == Some(Instr::Ldr(0, Address::Offset(10, 0)))
    &&& lines[62] is Instruction && decode(instruction_text(lines[62])) == Some(Instr::B("__rt_gdt_ret"@))
    &&& !(lines[63] is Instruction)
    &&& lines[64] is Instruction && decode(instruction_text(lines[64])) == Some(Instr::Adrp(0, "_gdt_object"@))
    &&& lines[65] is Instruction && decode(instruction_text(lines[65])) == Some(Instr::AddPageOffset(0, 0, "_gdt_object"@))
    &&& lines[66] is Instruction && decode(instruction_text(lines[66])) == Some(Instr::Mov(1, Operand::Imm(6)))
    &&& lines[67] is Instruction && decode(instruction_text(lines[67])) == Some(Instr::B("__rt_gdt_ret"@))
    &&& !(lines[68] is Instruction)
    &&& lines[69] is Instruction && decode(instruction_text(lines[69])) == Some(Instr::Adrp(0, "_gdt_int"@))
    &&& lines[70] is Instruction && decode(instruction_text(lines[70])) == Some(Instr::AddPageOffset(0, 0, "_gdt_int"@))
    &&& lines[71] is Instruction && decode(instruction_text(lines[71])) == Some(Instr::Mov(1, Operand::Imm(3)))
    &&& lines[72] is Instruction && decode(instruction_text(lines[72])) == Some(Instr::B("__rt_gdt_ret"@))
    &&& !(lines[73] is Instruction)
    &&& lines[74] is Instruction && decode(instruction_text(lines[74])) == Some(Instr::Adrp(0, "_gdt_string"@))
    &&& lines[75] is Instruction && decode(instruction_text(lines[75])) == Some(Instr::AddPageOffset(0, 0, "_gdt_string"@))
    &&& lines[76] is Instruction && decode(instruction_text(lines[76])) == Some(Instr::Mov(1, Operand::Imm(6)))
    &&& lines[77] is Instruction && decode(instruction_text(lines[77])) == Some(Instr::B("__rt_gdt_ret"@))
    &&& !(lines[78] is Instruction)
    &&& lines[79] is Instruction && decode(instruction_text(lines[79])) == Some(Instr::Adrp(0, "_gdt_float"@))
    &&& lines[80] is Instruction && decode(instruction_text(lines[80])) == Some(Instr::AddPageOffset(0, 0, "_gdt_float"@))
    &&& lines[81] is Instruction && decode(instruction_text(lines[81])) == Some(Instr::Mov(1, Operand::Imm(5)))
    &&& lines[82] is Instruction && decode(instruction_text(lines[82])) == Some(Instr::B("__rt_gdt_ret"@))
    &&& !(lines[83] is Instruction)
    &&& lines[84] is Instruction && decode(instruction_text(lines[84])) == Some(Instr::Adrp(0, "_gdt_bool"@))
    &&& lines[85] is Instruction && decode(instruction_text(lines[85])) == Some(Instr::AddPageOffset(0, 0, "_gdt_bool"@))
    &&& lines[86] is Instruction && decode(instruction_text(lines[86])) == Some(Instr::Mov(1, Operand::Imm(4)))
    &&& lines[87] is Instruction && decode(instruction_text(lines[87])) == Some(Instr::B("__rt_gdt_ret"@))
    &&& !(lines[88] is Instruction)
    &&& lines[89] is Instruction && decode(instruction_text(lines[89])) == Some(Instr::Adrp(0, "_gdt_array"@))
    &&& lines[90] is Instruction && decode(instruction_text(lines[90])) == Some(Instr::AddPageOffset(0, 0, "_gdt_array"@))
    &&& lines[91] is Instruction && decode(instruction_text(lines[91])) == Some(Instr::Mov(1, Operand::Imm(5)))
    &&& lines[92] is Instruction && decode(instruction_text(lines[92])) == Some(Instr::B("__rt_gdt_ret"@))
    &&& !(lines[93] is Instruction)
    &&& lines[94] is Instruction && decode(instruction_text(lines[94])) == Some(Instr::Adrp(0, "_gdt_null"@))
    &&& lines[95] is Instruction && decode(instruction_text(lines[95])) == Some(Instr::AddPageOffset(0, 0, "_gdt_null"@))
    &&& lines[96] is Instruction && decode(instruction_text(lines[96])) == Some(Instr::Mov(1, Operand::Imm(4)))
    &&& lines[97] is Instruction && decode(instruction_text(lines[97])) == Some(Instr::B("__rt_gdt_ret"@))
    &&& !(lines[98] is Instruction)
    &&& lines[99] is Instruction && decode(instruction_text(lines[99])) == Some(Instr::Adrp(0, "_gdt_resource"@))
    &&& lines[100] is Instruction && decode(instruction_text(lines[100])) == Some(Instr::AddPageOffset(0, 0, "_gdt_resource"@))
    &&& lines[101] is Instruction && decode(instruction_text(lines[101])) == Some(Instr::Mov(1, Operand::Imm(17)))
    &&& lines[102] is Instruction && decode(instruction_text(lines[102])) == Some(Instr::B("__rt_gdt_ret"@))
    &&& !(lines[103] is Instruction)
    &&& lines[104] is Instruction && decode(instruction_text(lines[104])) == Some(Instr::Ldp(29, 30, Address::Offset(31, 16)))
    &&& lines[105] is Instruction && decode(instruction_text(lines[105])) == Some(Instr::Add(31, 31, Operand::Imm(32)))
    &&& lines[106] is Instruction && decode(instruction_text(lines[106])) == Some(Instr::Ret)
    &&& find_label(lines, "__rt_gdt_array"@, 0) == 88
    &&& find_label(lines, "__rt_gdt_bool"@, 0) == 83
    &&& find_label(lines, "__rt_gdt_class_hit"@, 0) == 59
    &&& find_label(lines, "__rt_gdt_class_loop"@, 0) == 50
    &&& find_label(lines, "__rt_gdt_dispatch"@, 0) == 6
    &&& find_label(lines, "__rt_gdt_float"@, 0) == 78
    &&& find_label(lines, "__rt_gdt_int"@, 0) == 68
    &&& find_label(lines, "__rt_gdt_null"@, 0) == 93
    &&& find_label(lines, "__rt_gdt_object_cell"@, 0) == 39
    &&& find_label(lines, "__rt_gdt_object_fallback"@, 0) == 63
    &&& find_label(lines, "__rt_gdt_object_from_x0"@, 0) == 42
    &&& find_label(lines, "__rt_gdt_resource"@, 0) == 98
    &&& find_label(lines, "__rt_gdt_ret"@, 0) == 103
    &&& find_label(lines, "__rt_gdt_string"@, 0) == 73
    &&& find_label(lines, "__rt_gdt_tags"@, 0) == 21
    &&& find_label(lines, "__rt_get_debug_type"@, 0) == 2
}

/// The AArch64 `__rt_get_debug_type` listing has the shape the model runs through.
#[verifier::rlimit(60)]
#[verifier::spinoff_prover]
proof fn lemma_get_debug_type_shape(t: Target)
    requires
        t.arch == Arch::AArch64,
    ensures
        get_debug_type_shape(get_debug_type(Seq::empty(), t)),
{
    reveal(get_debug_type_shape);
    lemma_get_debug_type_length(t);
    lemma_get_debug_type_labels(t);
    lemma_get_debug_type_decodes_0(t);
    lemma_get_debug_type_decodes_12(t);
    lemma_get_debug_type_decodes_24(t);
    lemma_get_debug_type_decodes_36(t);
    lemma_get_debug_type_decodes_48(t);
    lemma_get_debug_type_decodes_60(t);
    lemma_get_debug_type_decodes_72(t);
    lemma_get_debug_type_decodes_84(t);
    lemma_get_debug_type_decodes_96(t);
}

/// From the entry: the frame is set up and the dispatch reached, with the value unchanged.
proof fn lemma_get_debug_type_runs_prologue(lines: Seq<Line>, env: Env, m: Machine)
    requires
        !(lines[2] is Instruction),
        lines[3] is Instruction && decode(instruction_text(lines[3])) == Some(Instr::Sub(31, 31, Operand::Imm(32))),
        lines[4] is Instruction && decode(instruction_text(lines[4])) == Some(Instr::Stp(29, 30, Address::Offset(31, 16))),
        lines[5] is Instruction && decode(instruction_text(lines[5])) == Some(Instr::Add(29, 31, Operand::Imm(16))),
        lines.len() == 107,
        m.pc == 2,
        !m.returned,
        !m.stuck,
    ensures
        ({ let s = run(lines, env, m, 4); &&& s.pc == 6 &&& !s.returned &&& !s.stuck &&& read(s, 0) == read(m, 0) }),
        forall|a: int| outside_debug_type_frame(a, read(m, 31)) ==> #[trigger] (run(lines, env, m, 4).mem)(a) == (m.mem)(a),
{
    let m0 = m;
    lemma_step_passes(lines, env, m0);
    let m1 = step(lines, env, m0);
    assert(m1.pc == 3);
    lemma_step_instruction(lines, env, m1, instruction_text(lines[3]), Instr::Sub(31, 31, Operand::Imm(32)));
    let m2 = step(lines, env, m1);
    assert(m2.pc == 4);
    lemma_step_instruction(lines, env, m2, instruction_text(lines[4]), Instr::Stp(29, 30, Address::Offset(31, 16)));
    let m3 = step(lines, env, m2);
    assert(m3.pc == 5);
    lemma_step_instruction(lines, env, m3, instruction_text(lines[5]), Instr::Add(29, 31, Operand::Imm(16)));
    let m4 = step(lines, env, m3);
    assert(m4.pc == m4.pc);
    lemma_run_step(lines, env, m0, 3);
    lemma_run_step(lines, env, m1, 2);
    lemma_run_step(lines, env, m2, 1);
    lemma_run_step(lines, env, m3, 0);
}

/// At the dispatch: a nested mixed cell (tag 7) is unwrapped and dispatched again.
proof fn lemma_get_debug_type_runs_unwrap(lines: Seq<Line>, env: Env, m: Machine)
    requires
        !(lines[6] is Instruction),
        lines[7] is Instruction && decode(instruction_text(lines[7])) == Some(Instr::Cbz(0, "__rt_gdt_null"@)),
        lines[8] is Instruction && decode(instruction_text(lines[8])) == Some(Instr::Ldr(9, Address::Offset(0, -8))),
        lines[9] is Instruction && decode(instruction_text(lines[9])) == Some(Instr::AndImm(9, 9, 255)),
        lines[10] is Instruction && decode(instruction_text(lines[10])) == Some(Instr::Cmp(9, Operand::Imm(2))),
        lines[11] is Instruction && decode(instruction_text(lines[11])) == Some(Instr::BCond(Cond::Eq, "__rt_gdt_array"@)),
        lines[12] is Instruction && decode(instruction_text(lines[12])) == Some(Instr::Cmp(9, Operand::Imm(3))),
        lines[13] is Instruction && decode(instruction_text(lines[13])) == Some(Instr::BCond(Cond::Eq, "__rt_gdt_array"@)),
        lines[14] is Instruction && decode(instruction_text(lines[14])) == Some(Instr::Cmp(9, Operand::Imm(4))),
        lines[15] is Instruction && decode(instruction_text(lines[15])) == Some(Instr::BCond(Cond::Eq, "__rt_gdt_object_from_x0"@)),
        lines[16] is Instruction && decode(instruction_text(lines[16])) == Some(Instr::Ldr(9, Address::Offset(0, 0))),
        lines[17] is Instruction && decode(instruction_text(lines[17])) == Some(Instr::Cmp(9, Operand::Imm(7))),
        lines[18] is Instruction && decode(instruction_text(lines[18])) == Some(Instr::BCond(Cond::Ne, "__rt_gdt_tags"@)),
        lines[19] is Instruction && decode(instruction_text(lines[19])) == Some(Instr::Ldr(0, Address::Offset(0, 8))),
        lines[20] is Instruction && decode(instruction_text(lines[20])) == Some(Instr::B("__rt_gdt_dispatch"@)),
        find_label(lines, "__rt_gdt_array"@, 0) == 88,
        find_label(lines, "__rt_gdt_dispatch"@, 0) == 6,
        find_label(lines, "__rt_gdt_null"@, 0) == 93,
        find_label(lines, "__rt_gdt_object_from_x0"@, 0) == 42,
        find_label(lines, "__rt_gdt_tags"@, 0) == 21,
        lines.len() == 107,
        m.pc == 6,
        !m.returned,
        !m.stuck,
        read(m, 0) != 0,
        (m.mem)(read(m, 0) - 8) % 256 != 2 && (m.mem)(read(m, 0) - 8) % 256 != 3 && (m.mem)(read(m, 0) - 8) % 256 != 4,
        (m.mem)(read(m, 0)) == 7,
    ensures
        ({ let s = run(lines, env, m, 15); &&& s.pc == 6 &&& !s.returned &&& !s.stuck &&& s.mem == m.mem &&& read(s, 0) == (m.mem)(read(m, 0) + 8) }),
{
    let m0 = m;
    lemma_step_passes(lines, env, m0);
    let m1 = step(lines, env, m0);
    assert(m1.pc == 7);
    lemma_step_instruction(lines, env, m1, instruction_text(lines[7]), Instr::Cbz(0, "__rt_gdt_null"@));
    let m2 = step(lines, env, m1);
    assert(m2.pc == 8);
    lemma_step_instruction(lines, env, m2, instruction_text(lines[8]), Instr::Ldr(9, Address::Offset(0, -8)));
    let m3 = step(lines, env, m2);
    assert(m3.pc == 9);
    lemma_step_instruction(lines, env, m3, instruction_text(lines[9]), Instr::AndImm(9, 9, 255));
    let m4 = step(lines, env, m3);
    assert(m4.pc == 10);
    lemma_step_instruction(lines, env, m4, instruction_text(lines[10]), Instr::Cmp(9, Operand::Imm(2)));
    let m5 = step(lines, env, m4);
    assert(m5.pc == 11);
    lemma_step_instruction(lines, env, m5, instruction_text(lines[11]), Instr::BCond(Cond::Eq, "__rt_gdt_array"@));
    let m6 = step(lines, env, m5);
    assert(m6.pc == 12);
    lemma_step_instruction(lines, env, m6, instruction_text(lines[12]), Instr::Cmp(9, Operand::Imm(3)));
    let m7 = step(lines, env, m6);
    assert(m7.pc == 13);
    lemma_step_instruction(lines, env, m7, instruction_text(lines[13]), Instr::BCond(Cond::Eq, "__rt_gdt_array"@));
    let m8 = step(lines, env, m7);
    assert(m8.pc == 14);
    lemma_step_instruction(lines, env, m8, instruction_text(lines[14]), Instr::Cmp(9, Operand::Imm(4)));
    let m9 = step(lines, env, m8);
    assert(m9.pc == 15);
    lemma_step_instruction(lines, env, m9, instruction_text(lines[15]), Instr::BCond(Cond::Eq, "__rt_gdt_object_from_x0"@));
    let m10 = step(lines, env, m9);
    assert(m10.pc == 16);
    lemma_step_instruction(lines, env, m10, instruction_text(lines[16]), Instr::Ldr(9, Address::Offset(0, 0)));
    let m11 = step(lines, env, m10);
    assert(m11.pc == 17);
    lemma_step_instruction(lines, env, m11, instruction_text(lines[17]), Instr::Cmp(9, Operand::Imm(7)));
    let m12 = step(lines, env, m11);
    assert(m12.pc == 18);
    lemma_step_instruction(lines, env, m12, instruction_text(lines[18]), Instr::BCond(Cond::Ne, "__rt_gdt_tags"@));
    let m13 = step(lines, env, m12);
    assert(m13.pc == 19);
    lemma_step_instruction(lines, env, m13, instruction_text(lines[19]), Instr::Ldr(0, Address::Offset(0, 8)));
    let m14 = step(lines, env, m13);
    assert(m14.pc == 20);
    lemma_step_instruction(lines, env, m14, instruction_text(lines[20]), Instr::B("__rt_gdt_dispatch"@));
    let m15 = step(lines, env, m14);
    assert(m15.pc == m15.pc);
    lemma_run_step(lines, env, m0, 14);
    lemma_run_step(lines, env, m1, 13);
    lemma_run_step(lines, env, m2, 12);
    lemma_run_step(lines, env, m3, 11);
    lemma_run_step(lines, env, m4, 10);
    lemma_run_step(lines, env, m5, 9);
    lemma_run_step(lines, env, m6, 8);
    lemma_run_step(lines, env, m7, 7);
    lemma_run_step(lines, env, m8, 6);
    lemma_run_step(lines, env, m9, 5);
    lemma_run_step(lines, env, m10, 4);
    lemma_run_step(lines, env, m11, 3);
    lemma_run_step(lines, env, m12, 2);
    lemma_run_step(lines, env, m13, 1);
    lemma_run_step(lines, env, m14, 0);
}

/// At the dispatch: a raw object (heap kind 4) starts the class-name lookup with its class id.
#[verifier::rlimit(60)]
#[verifier::spinoff_prover]
proof fn lemma_get_debug_type_runs_object_raw(lines: Seq<Line>, env: Env, m: Machine)
    requires
        !(lines[6] is Instruction),
        lines[7] is Instruction && decode(instruction_text(lines[7])) == Some(Instr::Cbz(0, "__rt_gdt_null"@)),
        lines[8] is Instruction && decode(instruction_text(lines[8])) == Some(Instr::Ldr(9, Address::Offset(0, -8))),
        lines[9] is Instruction && decode(instruction_text(lines[9])) == Some(Instr::AndImm(9, 9, 255)),
        lines[10] is Instruction && decode(instruction_text(lines[10])) == Some(Instr::Cmp(9, Operand::Imm(2))),
        lines[11] is Instruction && decode(instruction_text(lines[11])) == Some(Instr::BCond(Cond::Eq, "__rt_gdt_array"@)),
        lines[12] is Instruction && decode(instruction_text(lines[12])) == Some(Instr::Cmp(9, Operand::Imm(3))),
        lines[13] is Instruction && decode(instruction_text(lines[13])) == Some(Instr::BCond(Cond::Eq, "__rt_gdt_array"@)),
        lines[14] is Instruction && decode(instruction_text(lines[14])) == Some(Instr::Cmp(9, Operand::Imm(4))),
        lines[15] is Instruction && decode(instruction_text(lines[15])) == Some(Instr::BCond(Cond::Eq, "__rt_gdt_object_from_x0"@)),
        !(lines[42] is Instruction),
        lines[43] is Instruction && decode(instruction_text(lines[43])) == Some(Instr::Ldr(11, Address::Offset(0, 0))),
        lines[44] is Instruction && decode(instruction_text(lines[44])) == Some(Instr::Adrp(9, "_classes_by_name_count"@)),
        lines[45] is Instruction && decode(instruction_text(lines[45])) == Some(Instr::AddPageOffset(9, 9, "_classes_by_name_count"@)),
        lines[46] is Instruction && decode(instruction_text(lines[46])) == Some(Instr::Ldr(9, Address::Offset(9, 0))),
        lines[47] is Instruction && decode(instruction_text(lines[47])) == Some(Instr::Adrp(10, "_classes_by_name"@)),
        lines[48] is Instruction && decode(instruction_text(lines[48])) == Some(Instr::AddPageOffset(10, 10, "_classes_by_name"@)),
        lines[49] is Instruction && decode(instruction_text(lines[49])) == Some(Instr::Mov(12, Operand::Imm(0))),
        find_label(lines, "__rt_gdt_array"@, 0) == 88,
        find_label(lines, "__rt_gdt_null"@, 0) == 93,
        find_label(lines, "__rt_gdt_object_from_x0"@, 0) == 42,
        lines.len() == 107,
        m.pc == 6,
        !m.returned,
        !m.stuck,
        read(m, 0) != 0,
        (m.mem)(read(m, 0) - 8) % 256 == 4,
    ensures
        ({ let s = run(lines, env, m, 18); &&& s.pc == 50 &&& !s.returned &&& !s.stuck &&& s.mem == m.mem &&& read(s, 9) == (m.mem)((env.symbol)("_classes_by_name_count"@)) &&& read(s, 10) == (env.symbol)("_classes_by_name"@) &&& read(s, 12) == 0 &&& read(s, 11) == (m.mem)(read(m, 0)) }),
{
    let m0 = m;
    lemma_step_passes(lines, env, m0);
    let m1 = step(lines, env, m0);
    assert(m1.pc == 7);
    lemma_step_instruction(lines, env, m1, instruction_text(lines[7]), Instr::Cbz(0, "__rt_gdt_null"@));
    let m2 = step(lines, env, m1);
    assert(m2.pc == 8);
    lemma_step_instruction(lines, env, m2, instruction_text(lines[8]), Instr::Ldr(9, Address::Offset(0, -8)));
    let m3 = step(lines, env, m2);
    assert(m3.pc == 9);
    lemma_step_instruction(lines, env, m3, instruction_text(lines[9]), Instr::AndImm(9, 9, 255));
    let m4 = step(lines, env, m3);
    assert(m4.pc == 10);
    lemma_step_instruction(lines, env, m4, instruction_text(lines[10]), Instr::Cmp(9, Operand::Imm(2)));
    let m5 = step(lines, env, m4);
    assert(m5.pc == 11);
    lemma_step_instruction(lines, env, m5, instruction_text(lines[11]), Instr::BCond(Cond::Eq, "__rt_gdt_array"@));
    let m6 = step(lines, env, m5);
    assert(m6.pc == 12);
    lemma_step_instruction(lines, env, m6, instruction_text(lines[12]), Instr::Cmp(9, Operand::Imm(3)));
    let m7 = step(lines, env, m6);
    assert(m7.pc == 13);
    lemma_step_instruction(lines, env, m7, instruction_text(lines[13]), Instr::BCond(Cond::Eq, "__rt_gdt_array"@));
    let m8 = step(lines, env, m7);
    assert(m8.pc == 14);
    lemma_step_instruction(lines, env, m8, instruction_text(lines[14]), Instr::Cmp(9, Operand::Imm(4)));
    let m9 = step(lines, env, m8);
    assert(m9.pc == 15);
    lemma_step_instruction(lines, env, m9, instruction_text(lines[15]), Instr::BCond(Cond::Eq, "__rt_gdt_object_from_x0"@));
    let m10 = step(lines, env, m9);
    assert(m10.pc == 42);
    lemma_step_passes(lines, env, m10);
    let m11 = step(lines, env, m10);
    assert(m11.pc == 43);
    lemma_step_instruction(lines, env, m11, instruction_text(lines[43]), Instr::Ldr(11, Address::Offset(0, 0)));
    let m12 = step(lines, env, m11);
    assert(m12.pc == 44);
    lemma_step_instruction(lines, env, m12, instruction_text(lines[44]), Instr::Adrp(9, "_classes_by_name_count"@));
    let m13 = step(lines, env, m12);
    assert(m13.pc == 45);
    lemma_step_instruction(lines, env, m13, instruction_text(lines[45]), Instr::AddPageOffset(9, 9, "_classes_by_name_count"@));
    let m14 = step(lines, env, m13);
    assert(m14.pc == 46);
    lemma_step_instruction(lines, env, m14, instruction_text(lines[46]), Instr::Ldr(9, Address::Offset(9, 0)));
    let m15 = step(lines, env, m14);
    assert(m15.pc == 47);
    lemma_step_instruction(lines, env, m15, instruction_text(lines[47]), Instr::Adrp(10, "_classes_by_name"@));
    let m16 = step(lines, env, m15);
    assert(m16.pc == 48);
    lemma_step_instruction(lines, env, m16, instruction_text(lines[48]), Instr::AddPageOffset(10, 10, "_classes_by_name"@));
    let m17 = step(lines, env, m16);
    assert(m17.pc == 49);
    lemma_step_instruction(lines, env, m17, instruction_text(lines[49]), Instr::Mov(12, Operand::Imm(0)));
    let m18 = step(lines, env, m17);
    assert(m18.pc == m18.pc);
    lemma_run_step(lines, env, m0, 17);
    lemma_run_step(lines, env, m1, 16);
    lemma_run_step(lines, env, m2, 15);
    lemma_run_step(lines, env, m3, 14);
    lemma_run_step(lines, env, m4, 13);
    lemma_run_step(lines, env, m5, 12);
    lemma_run_step(lines, env, m6, 11);
    lemma_run_step(lines, env, m7, 10);
    lemma_run_step(lines, env, m8, 9);
    lemma_run_step(lines, env, m9, 8);
    lemma_run_step(lines, env, m10, 7);
    lemma_run_step(lines, env, m11, 6);
    lemma_run_step(lines, env, m12, 5);
    lemma_run_step(lines, env, m13, 4);
    lemma_run_step(lines, env, m14, 3);
    lemma_run_step(lines, env, m15, 2);
    lemma_run_step(lines, env, m16, 1);
    lemma_run_step(lines, env, m17, 0);
}

/// At the dispatch: a mixed cell holding an object (tag 6) starts the class-name lookup with that object's class id.
#[verifier::rlimit(60)]
#[verifier::spinoff_prover]
proof fn lemma_get_debug_type_runs_object_cell(lines: Seq<Line>, env: Env, m: Machine)
    requires
        !(lines[6] is Instruction),
        lines[7] is Instruction && decode(instruction_text(lines[7])) == Some(Instr::Cbz(0, "__rt_gdt_null"@)),
        lines[8] is Instruction && decode(instruction_text(lines[8])) == Some(Instr::Ldr(9, Address::Offset(0, -8))),
        lines[9] is Instruction && decode(instruction_text(lines[9])) == Some(Instr::AndImm(9, 9, 255)),
        lines[10] is Instruction && decode(instruction_text(lines[10])) == Some(Instr::Cmp(9, Operand::Imm(2))),
        lines[11] is Instruction && decode(instruction_text(lines[11])) == Some(Instr::BCond(Cond::Eq, "__rt_gdt_array"@)),
        lines[12] is Instruction && decode(instruction_text(lines[12])) == Some(Instr::Cmp(9, Operand::Imm(3))),
        lines[13] is Instruction && decode(instruction_text(lines[13])) == Some(Instr::BCond(Cond::Eq, "__rt_gdt_array"@)),
        lines[14] is Instruction && decode(instruction_text(lines[14])) == Some(Instr::Cmp(9, Operand::Imm(4))),
        lines[15] is Instruction && decode(instruction_text(lines[15])) == Some(Instr::BCond(Cond::Eq, "__rt_gdt_object_from_x0"@)),
        lines[16] is Instruction && decode(instruction_text(lines[16])) == Some(Instr::Ldr(9, Address::Offset(0, 0))),
        lines[17] is Instruction && decode(instruction_text(lines[17])) == Some(Instr::Cmp(9, Operand::Imm(7))),
        lines[18] is Instruction && decode(instruction_text(lines[18])) == Some(Instr::BCond(Cond::Ne, "__rt_gdt_tags"@)),
        !(lines[21] is Instruction),
        lines[22] is Instruction && decode(instruction_text(lines[22])) == Some(Instr::Cmp(9, Operand::Imm(0))),
        lines[23] is Instruction && decode(instruction_text(lines[23])) == Some(Instr::BCond(Cond::Eq, "__rt_gdt_int"@)),
        lines[24] is Instruction && decode(instruction_text(lines[24])) == Some(Instr::Cmp(9, Operand::Imm(1))),
        lines[25] is Instruction && decode(instruction_text(lines[25])) == Some(Instr::BCond(Cond::Eq, "__rt_gdt_string"@)),
        lines[26] is Instruction && decode(instruction_text(lines[26])) == Some(Instr::Cmp(9, Operand::Imm(2))),
        lines[27] is Instruction && decode(instruction_text(lines[27])) == Some(Instr::BCond(Cond::Eq, "__rt_gdt_float"@)),
        lines[28] is Instruction && decode(instruction_text(lines[28])) == Some(Instr::Cmp(9, Operand::Imm(3))),
        lines[29] is Instruction && decode(instruction_text(lines[29])) == Some(Instr::BCond(Cond::Eq, "__rt_gdt_bool"@)),
        lines[30] is Instruction && decode(instruction_text(lines[30])) == Some(Instr::Cmp(9, Operand::Imm(4))),
        lines[31] is Instruction && decode(instruction_text(lines[31])) == Some(Instr::BCond(Cond::Eq, "__rt_gdt_array"@)),
        lines[32] is Instruction && decode(instruction_text(lines[32])) == Some(Instr::Cmp(9, Operand::Imm(5))),
        lines[33] is Instruction && decode(instruction_text(lines[33])) == Some(Instr::BCond(Cond::Eq, "__rt_gdt_array"@)),
        lines[34] is Instruction && decode(instruction_text(lines[34])) == Some(Instr::Cmp(9, Operand::Imm(6))),
        lines[35] is Instruction && decode(instruction_text(lines[35])) == Some(Instr::BCond(Cond::Eq, "__rt_gdt_object_cell"@)),
        !(lines[39] is Instruction),
        lines[40] is Instruction && decode(instruction_text(lines[40])) == Some(Instr::Ldr(0, Address::Offset(0, 8))),
        lines[41] is Instruction && decode(instruction_text(lines[41])) == Some(Instr::Cbz(0, "__rt_gdt_null"@)),
        !(lines[42] is Instruction),
        lines[43] is Instruction && decode(instruction_text(lines[43])) == Some(Instr::Ldr(11, Address::Offset(0, 0))),
        lines[44] is Instruction && decode(instruction_text(lines[44])) == Some(Instr::Adrp(9, "_classes_by_name_count"@)),
        lines[45] is Instruction && decode(instruction_text(lines[45])) == Some(Instr::AddPageOffset(9, 9, "_classes_by_name_count"@)),
        lines[46] is Instruction && decode(instruction_text(lines[46])) == Some(Instr::Ldr(9, Address::Offset(9, 0))),
        lines[47] is Instruction && decode(instruction_text(lines[47])) == Some(Instr::Adrp(10, "_classes_by_name"@)),
        lines[48] is Instruction && decode(instruction_text(lines[48])) == Some(Instr::AddPageOffset(10, 10, "_classes_by_name"@)),
        lines[49] is Instruction && decode(instruction_text(lines[49])) == Some(Instr::Mov(12, Operand::Imm(0))),
        find_label(lines, "__rt_gdt_array"@, 0) == 88,
        find_label(lines, "__rt_gdt_bool"@, 0) == 83,
        find_label(lines, "__rt_gdt_float"@, 0) == 78,
        find_label(lines, "__rt_gdt_int"@, 0) == 68,
        find_label(lines, "__rt_gdt_null"@, 0) == 93,
        find_label(lines, "__rt_gdt_object_cell"@, 0) == 39,
        find_label(lines, "__rt_gdt_object_from_x0"@, 0) == 42,
        find_label(lines, "__rt_gdt_string"@, 0) == 73,
        find_label(lines, "__rt_gdt_tags"@, 0) == 21,
        lines.len() == 107,
        m.pc == 6,
        !m.returned,
        !m.stuck,
        read(m, 0) != 0,
        (m.mem)(read(m, 0) - 8) % 256 != 2 && (m.mem)(read(m, 0) - 8) % 256 != 3 && (m.mem)(read(m, 0) - 8) % 256 != 4,
        (m.mem)(read(m, 0)) == 6,
        (m.mem)(read(m, 0) + 8) != 0,
    ensures
        ({ let s = run(lines, env, m, 39); &&& s.pc == 50 &&& !s.returned &&& !s.stuck &&& s.mem == m.mem &&& read(s, 9) == (m.mem)((env.symbol)("_classes_by_name_count"@)) &&& read(s, 10) == (env.symbol)("_classes_by_name"@) &&& read(s, 12) == 0 &&& read(s, 11) == (m.mem)((m.mem)(read(m, 0) + 8)) }),
{
    let m0 = m;
    lemma_step_passes(lines, env, m0);
    let m1 = step(lines, env, m0);
    assert(m1.pc == 7);
    lemma_step_instruction(lines, env, m1, instruction_text(lines[7]), Instr::Cbz(0, "__rt_gdt_null"@));
    let m2 = step(lines, env, m1);
    assert(m2.pc == 8);
    lemma_step_instruction(lines, env, m2, instruction_text(lines[8]), Instr::Ldr(9, Address::Offset(0, -8)));
    let m3 = step(lines, env, m2);
    assert(m3.pc == 9);
    lemma_step_instruction(lines, env, m3, instruction_text(lines[9]), Instr::AndImm(9, 9, 255));
    let m4 = step(lines, env, m3);
    assert(m4.pc == 10);
    lemma_step_instruction(lines, env, m4, instruction_text(lines[10]), Instr::Cmp(9, Operand::Imm(2)));
    let m5 = step(lines, env, m4);
    assert(m5.pc == 11);
    lemma_step_instruction(lines, env, m5, instruction_text(lines[11]), Instr::BCond(Cond::Eq, "__rt_gdt_array"@));
    let m6 = step(lines, env, m5);
    assert(m6.pc == 12);
    lemma_step_instruction(lines, env, m6, instruction_text(lines[12]), Instr::Cmp(9, Operand::Imm(3)));
    let m7 = step(lines, env, m6);
    assert(m7.pc == 13);
    lemma_step_instruction(lines, env, m7, instruction_text(lines[13]), Instr::BCond(Cond::Eq, "__rt_gdt_array"@));
    let m8 = step(lines, env, m7);
    assert(m8.pc == 14);
    lemma_step_instruction(lines, env, m8, instruction_text(lines[14]), Instr::Cmp(9, Operand::Imm(4)));
    let m9 = step(lines, env, m8);
    assert(m9.pc == 15);
    lemma_step_instruction(lines, env, m9, instruction_text(lines[15]), Instr::BCond(Cond::Eq, "__rt_gdt_object_from_x0"@));
    let m10 = step(lines, env, m9);
    assert(m10.pc == 16);
    lemma_step_instruction(lines, env, m10, instruction_text(lines[16]), Instr::Ldr(9, Address::Offset(0, 0)));
    let m11 = step(lines, env, m10);
    assert(m11.pc == 17);
    lemma_step_instruction(lines, env, m11, instruction_text(lines[17]), Instr::Cmp(9, Operand::Imm(7)));
    let m12 = step(lines, env, m11);
    assert(m12.pc == 18);
    lemma_step_instruction(lines, env, m12, instruction_text(lines[18]), Instr::BCond(Cond::Ne, "__rt_gdt_tags"@));
    let m13 = step(lines, env, m12);
    assert(m13.pc == 21);
    lemma_step_passes(lines, env, m13);
    let m14 = step(lines, env, m13);
    assert(m14.pc == 22);
    lemma_step_instruction(lines, env, m14, instruction_text(lines[22]), Instr::Cmp(9, Operand::Imm(0)));
    let m15 = step(lines, env, m14);
    assert(m15.pc == 23);
    lemma_step_instruction(lines, env, m15, instruction_text(lines[23]), Instr::BCond(Cond::Eq, "__rt_gdt_int"@));
    let m16 = step(lines, env, m15);
    assert(m16.pc == 24);
    lemma_step_instruction(lines, env, m16, instruction_text(lines[24]), Instr::Cmp(9, Operand::Imm(1)));
    let m17 = step(lines, env, m16);
    assert(m17.pc == 25);
    lemma_step_instruction(lines, env, m17, instruction_text(lines[25]), Instr::BCond(Cond::Eq, "__rt_gdt_string"@));
    let m18 = step(lines, env, m17);
    assert(m18.pc == 26);
    lemma_step_instruction(lines, env, m18, instruction_text(lines[26]), Instr::Cmp(9, Operand::Imm(2)));
    let m19 = step(lines, env, m18);
    assert(m19.pc == 27);
    lemma_step_instruction(lines, env, m19, instruction_text(lines[27]), Instr::BCond(Cond::Eq, "__rt_gdt_float"@));
    let m20 = step(lines, env, m19);
    assert(m20.pc == 28);
    lemma_step_instruction(lines, env, m20, instruction_text(lines[28]), Instr::Cmp(9, Operand::Imm(3)));
    let m21 = step(lines, env, m20);
    assert(m21.pc == 29);
    lemma_step_instruction(lines, env, m21, instruction_text(lines[29]), Instr::BCond(Cond::Eq, "__rt_gdt_bool"@));
    let m22 = step(lines, env, m21);
    assert(m22.pc == 30);
    lemma_step_instruction(lines, env, m22, instruction_text(lines[30]), Instr::Cmp(9, Operand::Imm(4)));
    let m23 = step(lines, env, m22);
    assert(m23.pc == 31);
    lemma_step_instruction(lines, env, m23, instruction_text(lines[31]), Instr::BCond(Cond::Eq, "__rt_gdt_array"@));
    let m24 = step(lines, env, m23);
    assert(m24.pc == 32);
    lemma_step_instruction(lines, env, m24, instruction_text(lines[32]), Instr::Cmp(9, Operand::Imm(5)));
    let m25 = step(lines, env, m24);
    assert(m25.pc == 33);
    lemma_step_instruction(lines, env, m25, instruction_text(lines[33]), Instr::BCond(Cond::Eq, "__rt_gdt_array"@));
    let m26 = step(lines, env, m25);
    assert(m26.pc == 34);
    lemma_step_instruction(lines, env, m26, instruction_text(lines[34]), Instr::Cmp(9, Operand::Imm(6)));
    let m27 = step(lines, env, m26);
    assert(m27.pc == 35);
    lemma_step_instruction(lines, env, m27, instruction_text(lines[35]), Instr::BCond(Cond::Eq, "__rt_gdt_object_cell"@));
    let m28 = step(lines, env, m27);
    assert(m28.pc == 39);
    lemma_step_passes(lines, env, m28);
    let m29 = step(lines, env, m28);
    assert(m29.pc == 40);
    lemma_step_instruction(lines, env, m29, instruction_text(lines[40]), Instr::Ldr(0, Address::Offset(0, 8)));
    let m30 = step(lines, env, m29);
    assert(m30.pc == 41);
    lemma_step_instruction(lines, env, m30, instruction_text(lines[41]), Instr::Cbz(0, "__rt_gdt_null"@));
    let m31 = step(lines, env, m30);
    assert(m31.pc == 42);
    lemma_step_passes(lines, env, m31);
    let m32 = step(lines, env, m31);
    assert(m32.pc == 43);
    lemma_step_instruction(lines, env, m32, instruction_text(lines[43]), Instr::Ldr(11, Address::Offset(0, 0)));
    let m33 = step(lines, env, m32);
    assert(m33.pc == 44);
    lemma_step_instruction(lines, env, m33, instruction_text(lines[44]), Instr::Adrp(9, "_classes_by_name_count"@));
    let m34 = step(lines, env, m33);
    assert(m34.pc == 45);
    lemma_step_instruction(lines, env, m34, instruction_text(lines[45]), Instr::AddPageOffset(9, 9, "_classes_by_name_count"@));
    let m35 = step(lines, env, m34);
    assert(m35.pc == 46);
    lemma_step_instruction(lines, env, m35, instruction_text(lines[46]), Instr::Ldr(9, Address::Offset(9, 0)));
    let m36 = step(lines, env, m35);
    assert(m36.pc == 47);
    lemma_step_instruction(lines, env, m36, instruction_text(lines[47]), Instr::Adrp(10, "_classes_by_name"@));
    let m37 = step(lines, env, m36);
    assert(m37.pc == 48);
    lemma_step_instruction(lines, env, m37, instruction_text(lines[48]), Instr::AddPageOffset(10, 10, "_classes_by_name"@));
    let m38 = step(lines, env, m37);
    assert(m38.pc == 49);
    lemma_step_instruction(lines, env, m38, instruction_text(lines[49]), Instr::Mov(12, Operand::Imm(0)));
    let m39 = step(lines, env, m38);
    assert(m39.pc == m39.pc);
    lemma_run_step(lines, env, m0, 38);
    lemma_run_step(lines, env, m1, 37);
    lemma_run_step(lines, env, m2, 36);
    lemma_run_step(lines, env, m3, 35);
    lemma_run_step(lines, env, m4, 34);
    lemma_run_step(lines, env, m5, 33);
    lemma_run_step(lines, env, m6, 32);
    lemma_run_step(lines, env, m7, 31);
    lemma_run_step(lines, env, m8, 30);
    lemma_run_step(lines, env, m9, 29);
    lemma_run_step(lines, env, m10, 28);
    lemma_run_step(lines, env, m11, 27);
    lemma_run_step(lines, env, m12, 26);
    lemma_run_step(lines, env, m13, 25);
    lemma_run_step(lines, env, m14, 24);
    lemma_run_step(lines, env, m15, 23);
    lemma_run_step(lines, env, m16, 22);
    lemma_run_step(lines, env, m17, 21);
    lemma_run_step(lines, env, m18, 20);
    lemma_run_step(lines, env, m19, 19);
    lemma_run_step(lines, env, m20, 18);
    lemma_run_step(lines, env, m21, 17);
    lemma_run_step(lines, env, m22, 16);
    lemma_run_step(lines, env, m23, 15);
    lemma_run_step(lines, env, m24, 14);
    lemma_run_step(lines, env, m25, 13);
    lemma_run_step(lines, env, m26, 12);
    lemma_run_step(lines, env, m27, 11);
    lemma_run_step(lines, env, m28, 10);
    lemma_run_step(lines, env, m29, 9);
    lemma_run_step(lines, env, m30, 8);
    lemma_run_step(lines, env, m31, 7);
    lemma_run_step(lines, env, m32, 6);
    lemma_run_step(lines, env, m33, 5);
    lemma_run_step(lines, env, m34, 4);
    lemma_run_step(lines, env, m35, 3);
    lemma_run_step(lines, env, m36, 2);
    lemma_run_step(lines, env, m37, 1);
    lemma_run_step(lines, env, m38, 0);
}

/// In the class-name lookup: with every entry scanned, the name is the literal `object`.
#[verifier::rlimit(60)]
#[verifier::spinoff_prover]
proof fn lemma_get_debug_type_runs_class_fallback(lines: Seq<Line>, env: Env, m: Machine)
    requires
        !(lines[50] is Instruction),
        lines[51] is Instruction && decode(instruction_text(lines[51])) == Some(Instr::Cmp(12, Operand::Reg(9))),
        lines[52] is Instruction && decode(instruction_text(lines[52])) == Some(Instr::BCond(Cond::Ge, "__rt_gdt_object_fallback"@)),
        !(lines[63] is Instruction),
        lines[64] is Instruction && decode(instruction_text(lines[64])) == Some(Instr::Adrp(0, "_gdt_object"@)),
        lines[65] is Instruction && decode(instruction_text(lines[65])) == Some(Instr::AddPageOffset(0, 0, "_gdt_object"@)),
        lines[66] is Instruction && decode(instruction_text(lines[66])) == Some(Instr::Mov(1, Operand::Imm(6))),
        lines[67] is Instruction && decode(instruction_text(lines[67])) == Some(Instr::B("__rt_gdt_ret"@)),
        !(lines[103] is Instruction),
        lines[104] is Instruction && decode(instruction_text(lines[104])) == Some(Instr::Ldp(29, 30, Address::Offset(31, 16))),
        lines[105] is Instruction && decode(instruction_text(lines[105])) == Some(Instr::Add(31, 31, Operand::Imm(32))),
        lines[106] is Instruction && decode(instruction_text(lines[106])) == Some(Instr::Ret),
        find_label(lines, "__rt_gdt_object_fallback"@, 0) == 63,
        find_label(lines, "__rt_gdt_ret"@, 0) == 103,
        lines.len() == 107,
        m.pc == 50,
        !m.returned,
        !m.stuck,
        read(m, 12) >= read(m, 9),
    ensures
        run(lines, env, m, 12).returned,
        read(run(lines, env, m, 12), 0) == (env.symbol)("_gdt_object"@),
        read(run(lines, env, m, 12), 1) == 6,
{
    let m0 = m;
    lemma_step_passes(lines, env, m0);
    let m1 = step(lines, env, m0);
    assert(m1.pc == 51);
    lemma_step_instruction(lines, env, m1, instruction_text(lines[51]), Instr::Cmp(12, Operand::Reg(9)));
    let m2 = step(lines, env, m1);
    assert(m2.pc == 52);
    lemma_step_instruction(lines, env, m2, instruction_text(lines[52]), Instr::BCond(Cond::Ge, "__rt_gdt_object_fallback"@));
    let m3 = step(lines, env, m2);
    assert(m3.pc == 63);
    lemma_step_passes(lines, env, m3);
    let m4 = step(lines, env, m3);
    assert(m4.pc == 64);
    lemma_step_instruction(lines, env, m4, instruction_text(lines[64]), Instr::Adrp(0, "_gdt_object"@));
    let m5 = step(lines, env, m4);
    assert(m5.pc == 65);
    lemma_step_instruction(lines, env, m5, instruction_text(lines[65]), Instr::AddPageOffset(0, 0, "_gdt_object"@));
    let m6 = step(lines, env, m5);
    assert(m6.pc == 66);
    lemma_step_instruction(lines, env, m6, instruction_text(lines[66]), Instr::Mov(1, Operand::Imm(6)));
    let m7 = step(lines, env, m6);
    assert(m7.pc == 67);
    lemma_step_instruction(lines, env, m7, instruction_text(lines[67]), Instr::B("__rt_gdt_ret"@));
    let m8 = step(lines, env, m7);
    assert(m8.pc == 103);
    lemma_step_passes(lines, env, m8);
    let m9 = step(lines, env, m8);
    assert(m9.pc == 104);
    lemma_step_instruction(lines, env, m9, instruction_text(lines[104]), Instr::Ldp(29, 30, Address::Offset(31, 16)));
    let m10 = step(lines, env, m9);
    assert(m10.pc == 105);
    lemma_step_instruction(lines, env, m10, instruction_text(lines[105]), Instr::Add(31, 31, Operand::Imm(32)));
    let m11 = step(lines, env, m10);
    assert(m11.pc == 106);
    lemma_step_instruction(lines, env, m11, instruction_text(lines[106]), Instr::Ret);
    let m12 = step(lines, env, m11);
    assert(m12.pc == m12.pc);
    lemma_run_step(lines, env, m0, 11);
    lemma_run_step(lines, env, m1, 10);
    lemma_run_step(lines, env, m2, 9);
    lemma_run_step(lines, env, m3, 8);
    lemma_run_step(lines, env, m4, 7);
    lemma_run_step(lines, env, m5, 6);
    lemma_run_step(lines, env, m6, 5);
    lemma_run_step(lines, env, m7, 4);
    lemma_run_step(lines, env, m8, 3);
    lemma_run_step(lines, env, m9, 2);
    lemma_run_step(lines, env, m10, 1);
    lemma_run_step(lines, env, m11, 0);
}

/// In the class-name lookup: the entry with the class id gives the name's pointer and length.
#[verifier::rlimit(60)]
#[verifier::spinoff_prover]
proof fn lemma_get_debug_type_runs_class_hit(lines: Seq<Line>, env: Env, m: Machine)
    requires
        !(lines[50] is Instruction),
        lines[51] is Instruction && decode(instruction_text(lines[51])) == Some(Instr::Cmp(12, Operand::Reg(9))),
        lines[52] is Instruction && decode(instruction_text(lines[52])) == Some(Instr::BCond(Cond::Ge, "__rt_gdt_object_fallback"@)),
        lines[53] is Instruction && decode(instruction_text(lines[53])) == Some(Instr::Ldr(13, Address::Offset(10, 16))),
        lines[54] is Instruction && decode(instruction_text(lines[54])) == Some(Instr::Cmp(13, Operand::Reg(11))),
        lines[55] is Instruction && decode(instruction_text(lines[55])) == Some(Instr::BCond(Cond::Eq, "__rt_gdt_class_hit"@)),
        !(lines[59] is Instruction),
        lines[60] is Instruction && decode(instruction_text(lines[60])) == Some(Instr::Ldr(1, Address::Offset(10, 8))),
        lines[61] is Instruction && decode(instruction_text(lines[61])) == Some(Instr::Ldr(0, Address::Offset(10, 0))),
        lines[62] is Instruction && decode(instruction_text(lines[62])) == Some(Instr::B("__rt_gdt_ret"@)),
        !(lines[103] is Instruction),
        lines[104] is Instruction && decode(instruction_text(lines[104])) == Some(Instr::Ldp(29, 30, Address::Offset(31, 16))),
        lines[105] is Instruction && decode(instruction_text(lines[105])) == Some(Instr::Add(31, 31, Operand::Imm(32))),
        lines[106] is Instruction && decode(instruction_text(lines[106])) == Some(Instr::Ret),
        find_label(lines, "__rt_gdt_class_hit"@, 0) == 59,
        find_label(lines, "__rt_gdt_object_fallback"@, 0) == 63,
        find_label(lines, "__rt_gdt_ret"@, 0) == 103,
        lines.len() == 107,
        m.pc == 50,
        !m.returned,
        !m.stuck,
        read(m, 12) < read(m, 9),
        (m.mem)(read(m, 10) + 16) == read(m, 11),
    ensures
        run(lines, env, m, 14).returned,
        read(run(lines, env, m, 14), 0) == (m.mem)(read(m, 10)),
        read(run(lines, env, m, 14), 1) == (m.mem)(read(m, 10) + 8),
{
    let m0 = m;
    lemma_step_passes(lines, env, m0);
    let m1 = step(lines, env, m0);
    assert(m1.pc == 51);
    lemma_step_instruction(lines, env, m1, instruction_text(lines[51]), Instr::Cmp(12, Operand::Reg(9)));
    let m2 = step(lines, env, m1);
    assert(m2.pc == 52);
    lemma_step_instruction(lines, env, m2, instruction_text(lines[52]), Instr::BCond(Cond::Ge, "__rt_gdt_object_fallback"@));
    let m3 = step(lines, env, m2);
    assert(m3.pc == 53);
    lemma_step_instruction(lines, env, m3, instruction_text(lines[53]), Instr::Ldr(13, Address::Offset(10, 16)));
    let m4 = step(lines, env, m3);
    assert(m4.pc == 54);
    lemma_step_instruction(lines, env, m4, instruction_text(lines[54]), Instr::Cmp(13, Operand::Reg(11)));
    let m5 = step(lines, env, m4);
    assert(m5.pc == 55);
    lemma_step_instruction(lines, env, m5, instruction_text(lines[55]), Instr::BCond(Cond::Eq, "__rt_gdt_class_hit"@));
    let m6 = step(lines, env, m5);
    assert(m6.pc == 59);
    lemma_step_passes(lines, env, m6);
    let m7 = step(lines, env, m6);
    assert(m7.pc == 60);
    lemma_step_instruction(lines, env, m7, instruction_text(lines[60]), Instr::Ldr(1, Address::Offset(10, 8)));
    let m8 = step(lines, env, m7);
    assert(m8.pc == 61);
    lemma_step_instruction(lines, env, m8, instruction_text(lines[61]), Instr::Ldr(0, Address::Offset(10, 0)));
    let m9 = step(lines, env, m8);
    assert(m9.pc == 62);
    lemma_step_instruction(lines, env, m9, instruction_text(lines[62]), Instr::B("__rt_gdt_ret"@));
    let m10 = step(lines, env, m9);
    assert(m10.pc == 103);
    lemma_step_passes(lines, env, m10);
    let m11 = step(lines, env, m10);
    assert(m11.pc == 104);
    lemma_step_instruction(lines, env, m11, instruction_text(lines[104]), Instr::Ldp(29, 30, Address::Offset(31, 16)));
    let m12 = step(lines, env, m11);
    assert(m12.pc == 105);
    lemma_step_instruction(lines, env, m12, instruction_text(lines[105]), Instr::Add(31, 31, Operand::Imm(32)));
    let m13 = step(lines, env, m12);
    assert(m13.pc == 106);
    lemma_step_instruction(lines, env, m13, instruction_text(lines[106]), Instr::Ret);
    let m14 = step(lines, env, m13);
    assert(m14.pc == m14.pc);
    lemma_run_step(lines, env, m0, 13);
    lemma_run_step(lines, env, m1, 12);
    lemma_run_step(lines, env, m2, 11);
    lemma_run_step(lines, env, m3, 10);
    lemma_run_step(lines, env, m4, 9);
    lemma_run_step(lines, env, m5, 8);
    lemma_run_step(lines, env, m6, 7);
    lemma_run_step(lines, env, m7, 6);
    lemma_run_step(lines, env, m8, 5);
    lemma_run_step(lines, env, m9, 4);
    lemma_run_step(lines, env, m10, 3);
    lemma_run_step(lines, env, m11, 2);
    lemma_run_step(lines, env, m12, 1);
    lemma_run_step(lines, env, m13, 0);
}

/// In the class-name lookup: an entry with another id moves on to the next one.
#[verifier::rlimit(60)]
#[verifier::spinoff_prover]
proof fn lemma_get_debug_type_runs_class_next(lines: Seq<Line>, env: Env, m: Machine)
    requires
        !(lines[50] is Instruction),
        lines[51] is Instruction && decode(instruction_text(lines[51])) == Some(Instr::Cmp(12, Operand::Reg(9))),
        lines[52] is Instruction && decode(instruction_text(lines[52])) == Some(Instr::BCond(Cond::Ge, "__rt_gdt_object_fallback"@)),
        lines[53] is Instruction && decode(instruction_text(lines[53])) == Some(Instr::Ldr(13, Address::Offset(10, 16))),
        lines[54] is Instruction && decode(instruction_text(lines[54])) == Some(Instr::Cmp(13, Operand::Reg(11))),
        lines[55] is Instruction && decode(instruction_text(lines[55])) == Some(Instr::BCond(Cond::Eq, "__rt_gdt_class_hit"@)),
        lines[56] is Instruction && decode(instruction_text(lines[56])) == Some(Instr::Add(10, 10, Operand::Imm(48))),
        lines[57] is Instruction && decode(instruction_text(lines[57])) == Some(Instr::Add(12, 12, Operand::Imm(1))),
        lines[58] is Instruction && decode(instruction_text(lines[58])) == Some(Instr::B("__rt_gdt_class_loop"@)),
        find_label(lines, "__rt_gdt_class_hit"@, 0) == 59,
        find_label(lines, "__rt_gdt_class_loop"@, 0) == 50,
        find_label(lines, "__rt_gdt_object_fallback"@, 0) == 63,
        lines.len() == 107,
        m.pc == 50,
        !m.returned,
        !m.stuck,
        read(m, 12) < read(m, 9),
        (m.mem)(read(m, 10) + 16) != read(m, 11),
    ensures
        ({ let s = run(lines, env, m, 9); &&& s.pc == 50 &&& !s.returned &&& !s.stuck &&& s.mem == m.mem &&& read(s, 9) == read(m, 9) &&& read(s, 10) == read(m, 10) + 48 &&& read(s, 11) == read(m, 11) &&& read(s, 12) == read(m, 12) + 1 }),
{
    let m0 = m;
    lemma_step_passes(lines, env, m0);
    let m1 = step(lines, env, m0);
    assert(m1.pc == 51);
    lemma_step_instruction(lines, env, m1, instruction_text(lines[51]), Instr::Cmp(12, Operand::Reg(9)));
    let m2 = step(lines, env, m1);
    assert(m2.pc == 52);
    lemma_step_instruction(lines, env, m2, instruction_text(lines[52]), Instr::BCond(Cond::Ge, "__rt_gdt_object_fallback"@));
    let m3 = step(lines, env, m2);
    assert(m3.pc == 53);
    lemma_step_instruction(lines, env, m3, instruction_text(lines[53]), Instr::Ldr(13, Address::Offset(10, 16)));
    let m4 = step(lines, env, m3);
    assert(m4.pc == 54);
    lemma_step_instruction(lines, env, m4, instruction_text(lines[54]), Instr::Cmp(13, Operand::Reg(11)));
    let m5 = step(lines, env, m4);
    assert(m5.pc == 55);
    lemma_step_instruction(lines, env, m5, instruction_text(lines[55]), Instr::BCond(Cond::Eq, "__rt_gdt_class_hit"@));
    let m6 = step(lines, env, m5);
    assert(m6.pc == 56);
    lemma_step_instruction(lines, env, m6, instruction_text(lines[56]), Instr::Add(10, 10, Operand::Imm(48)));
    let m7 = step(lines, env, m6);
    assert(m7.pc == 57);
    lemma_step_instruction(lines, env, m7, instruction_text(lines[57]), Instr::Add(12, 12, Operand::Imm(1)));
    let m8 = step(lines, env, m7);
    assert(m8.pc == 58);
    lemma_step_instruction(lines, env, m8, instruction_text(lines[58]), Instr::B("__rt_gdt_class_loop"@));
    let m9 = step(lines, env, m8);
    assert(m9.pc == m9.pc);
    lemma_run_step(lines, env, m0, 8);
    lemma_run_step(lines, env, m1, 7);
    lemma_run_step(lines, env, m2, 6);
    lemma_run_step(lines, env, m3, 5);
    lemma_run_step(lines, env, m4, 4);
    lemma_run_step(lines, env, m5, 3);
    lemma_run_step(lines, env, m6, 2);
    lemma_run_step(lines, env, m7, 1);
    lemma_run_step(lines, env, m8, 0);
}

/// The value reached from `p` by unwrapping `d` nested mixed cells: a cell with tag 7
/// holds its inner value's pointer in its payload word.
pub open spec fn unwrap_nested_cells(p: int, mem: spec_fn(int) -> int, d: nat) -> int
    decreases d,
{
    if d == 0 {
        p
    } else {
        unwrap_nested_cells(mem(p + 8), mem, (d - 1) as nat)
    }
}

/// `p` is a mixed cell (not null, not a raw array, hash or object) holding a nested cell.
pub open spec fn is_nested_cell(p: int, mem: spec_fn(int) -> int) -> bool {
    &&& p != 0
    &&& mem(p - 8) % 256 != 2
    &&& mem(p - 8) % 256 != 3
    &&& mem(p - 8) % 256 != 4
    &&& mem(p) == 7
}

/// The object a value stands for: a raw object (heap kind 4) itself, the payload of a
/// mixed cell with tag 6, and 0 for any other value.
pub open spec fn debug_type_object(q: int, mem: spec_fn(int) -> int) -> int {
    let kind = mem(q - 8) % 256;
    if q != 0 && kind == 4 {
        q
    } else if q != 0 && kind != 2 && kind != 3 && mem(q) == 6 {
        mem(q + 8)
    } else {
        0
    }
}

/// The address of entry `j` of the class-name table at `table` (48-byte entries: name
/// pointer, name length, class id).
pub open spec fn class_entry(table: int, j: int) -> int {
    table + 48 * j
}

/// The class name found for class id `id` among the `count` entries of the table from
/// entry `i` on, as (pointer, length): the first entry with that id gives its name; with
/// none, the literal `object` (at `fallback`, 6 bytes).
pub open spec fn class_name_result(mem: spec_fn(int) -> int, fallback: int, table: int, count: int, id: int, i: int) -> (int, int)
    decreases count - i,
{
    if i >= count {
        (fallback, 6)
    } else if mem(class_entry(table, i) + 16) == id {
        (mem(class_entry(table, i)), mem(class_entry(table, i) + 8))
    } else {
        class_name_result(mem, fallback, table, count, id, i + 1)
    }
}

/// What `__rt_get_debug_type` returns for a value that is not a nested cell, as (`x0`,
/// `x1`): for an object, its class name from `_classes_by_name` (or `object`); for any
/// other value, the address and length of the name `debug_type_entry` gives.
pub open spec fn debug_type_result(q: int, mem: spec_fn(int) -> int, symbol: spec_fn(Seq<char>) -> int) -> (int, int) {
    let obj = debug_type_object(q, mem);
    if obj != 0 {
        class_name_result(
            mem,
            symbol("_gdt_object"@),
            symbol("_classes_by_name"@),
            mem(symbol("_classes_by_name_count"@)),
            mem(obj),
            0,
        )
    } else {
        let e = debug_type_entry(q, mem);
        (symbol(e.0), e.1.len() as int)
    }
}

/// The class-name lookup of `__rt_get_debug_type`, entered at entry `i`, returns within 9
/// lines per remaining entry plus 14 with the name's pointer and length.
#[verifier::rlimit(60)]
proof fn lemma_get_debug_type_class_loop(lines: Seq<Line>, env: Env, s: Machine, table: int, count: int, id: int, i: int)
    requires
        get_debug_type_shape(lines),
        s.pc == 50,
        !s.returned,
        !s.stuck,
        read(s, 9) == count,
        read(s, 10) == class_entry(table, i),
        read(s, 11) == id,
        read(s, 12) == i,
        0 <= i <= count,
    ensures
        run(lines, env, s, (9 * (count - i) + 14) as nat).returned,
        (read(run(lines, env, s, (9 * (count - i) + 14) as nat), 0), read(run(lines, env, s, (9 * (count - i) + 14) as nat), 1))
            == class_name_result(s.mem, (env.symbol)("_gdt_object"@), table, count, id, i),
    decreases count - i,
{
    reveal(get_debug_type_shape);
    let total = (9 * (count - i) + 14) as nat;
    if i >= count {
        lemma_get_debug_type_runs_class_fallback(lines, env, s);
        lemma_run_split(lines, env, s, 12, (total - 12) as nat);
        lemma_run_returned(lines, env, run(lines, env, s, 12), (total - 12) as nat);
    } else if (s.mem)(class_entry(table, i) + 16) == id {
        lemma_get_debug_type_runs_class_hit(lines, env, s);
        lemma_run_split(lines, env, s, 14, (total - 14) as nat);
        lemma_run_returned(lines, env, run(lines, env, s, 14), (total - 14) as nat);
    } else {
        lemma_get_debug_type_runs_class_next(lines, env, s);
        let s2 = run(lines, env, s, 9);
        assert(read(s2, 10) == class_entry(table, i + 1));
        lemma_get_debug_type_class_loop(lines, env, s2, table, count, id, i + 1);
        lemma_run_split(lines, env, s, 9, (total - 9) as nat);
        assert((total - 9) as nat == (9 * (count - (i + 1)) + 14) as nat);
    }
}

/// From the dispatch label, a value that unwraps through `d` nested cells to a value that
/// is not one is answered with that value's `debug_type_result`.
#[verifier::rlimit(80)]
proof fn lemma_get_debug_type_dispatch(lines: Seq<Line>, env: Env, s: Machine, d: nat)
    requires
        get_debug_type_shape(lines),
        s.pc == 6,
        !s.returned,
        !s.stuck,
        forall|k: nat| k < d ==> is_nested_cell(#[trigger] unwrap_nested_cells(read(s, 0), s.mem, k), s.mem),
        !is_nested_cell(unwrap_nested_cells(read(s, 0), s.mem, d), s.mem),
        0 <= (s.mem)((env.symbol)("_classes_by_name_count"@)),
    ensures
        ({
            let cnt = (s.mem)((env.symbol)("_classes_by_name_count"@));
            let r = run(lines, env, s, (15 * d + 53 + 9 * cnt) as nat);
            &&& r.returned
            &&& (read(r, 0), read(r, 1)) == debug_type_result(unwrap_nested_cells(read(s, 0), s.mem, d), s.mem, env.symbol)
        }),
    decreases d,
{
    reveal(get_debug_type_shape);
    let cnt = (s.mem)((env.symbol)("_classes_by_name_count"@));
    let total = (15 * d + 53 + 9 * cnt) as nat;
    let table = (env.symbol)("_classes_by_name"@);
    let m = s;
    if d == 0 {
        let p = read(m, 0);
        let kind = (m.mem)(p - 8) % 256;
        let tag = (m.mem)(p);
        if p != 0 && kind == 4 {
            lemma_get_debug_type_runs_object_raw(lines, env, m);
            let s2 = run(lines, env, m, 18);
            lemma_get_debug_type_class_loop(lines, env, s2, table, cnt, (m.mem)(p), 0);
            lemma_run_split(lines, env, m, 18, (total - 18) as nat);
            lemma_run_split(lines, env, s2, (9 * cnt + 14) as nat, 21);
            lemma_run_returned(lines, env, run(lines, env, s2, (9 * cnt + 14) as nat), 21);
            assert((total - 18) as nat == ((9 * cnt + 14) as nat + 21) as nat);
        } else if p != 0 && kind != 2 && kind != 3 && tag == 6 && (m.mem)(p + 8) != 0 {
            lemma_get_debug_type_runs_object_cell(lines, env, m);
            let s2 = run(lines, env, m, 39);
            lemma_get_debug_type_class_loop(lines, env, s2, table, cnt, (m.mem)((m.mem)(p + 8)), 0);
            lemma_run_split(lines, env, m, 39, (total - 39) as nat);
            assert((total - 39) as nat == (9 * (cnt - 0) + 14) as nat);
        } else {
            if p == 0 {
                lemma_get_debug_type_runs_null(lines, env, m);
            } else if kind == 2 {
                lemma_get_debug_type_runs_raw_array(lines, env, m);
            } else if kind == 3 {
                lemma_get_debug_type_runs_raw_hash(lines, env, m);
            } else if tag == 0 {
                lemma_get_debug_type_runs_tag0(lines, env, m);
            } else if tag == 1 {
                lemma_get_debug_type_runs_tag1(lines, env, m);
            } else if tag == 2 {
                lemma_get_debug_type_runs_tag2(lines, env, m);
            } else if tag == 3 {
                lemma_get_debug_type_runs_tag3(lines, env, m);
            } else if tag == 4 {
                lemma_get_debug_type_runs_tag4(lines, env, m);
            } else if tag == 5 {
                lemma_get_debug_type_runs_tag5(lines, env, m);
            } else if tag == 6 {
                lemma_get_debug_type_runs_tag6_null(lines, env, m);
            } else if tag == 9 {
                lemma_get_debug_type_runs_tag9(lines, env, m);
            } else {
                lemma_get_debug_type_runs_tag_other(lines, env, m);
            }
            lemma_run_split(lines, env, m, 40, (total - 40) as nat);
            lemma_run_returned(lines, env, run(lines, env, m, 40), (total - 40) as nat);
        }
    } else {
        let p = read(s, 0);
        assert(is_nested_cell(unwrap_nested_cells(p, s.mem, 0), s.mem));
        lemma_get_debug_type_runs_unwrap(lines, env, s);
        let s2 = run(lines, env, s, 15);
        let d2 = (d - 1) as nat;
        assert forall|k: nat| k < d2 implies is_nested_cell(#[trigger] unwrap_nested_cells(read(s2, 0), s2.mem, k), s2.mem) by {
            assert(unwrap_nested_cells(p, s.mem, k + 1) == unwrap_nested_cells((s.mem)(p + 8), s.mem, k));
            assert(is_nested_cell(unwrap_nested_cells(p, s.mem, (k + 1) as nat), s.mem));
        }
        assert(unwrap_nested_cells(p, s.mem, d) == unwrap_nested_cells(read(s2, 0), s2.mem, d2));
        lemma_get_debug_type_dispatch(lines, env, s2, d2);
        lemma_run_split(lines, env, s, 15, (15 * d2 + 53 + 9 * cnt) as nat);
        assert((15 + (15 * d2 + 53 + 9 * cnt)) as nat == total);
    }
}

/// Memories that agree outside the frame unwrap a chain of cells whose payload words lie
/// outside it alike.
proof fn lemma_unwrap_nested_cells_agree(p: int, m1: spec_fn(int) -> int, m2: spec_fn(int) -> int, sp: int, d: nat)
    requires
        forall|a: int| outside_debug_type_frame(a, sp) ==> #[trigger] m1(a) == m2(a),
        forall|k: nat| k < d ==> outside_debug_type_frame(#[trigger] unwrap_nested_cells(p, m2, k) + 8, sp),
    ensures
        unwrap_nested_cells(p, m1, d) == unwrap_nested_cells(p, m2, d),
    decreases d,
{
    if d > 0 {
        assert(outside_debug_type_frame(unwrap_nested_cells(p, m2, 0) + 8, sp));
        assert(m1(p + 8) == m2(p + 8));
        let q = m2(p + 8);
        assert forall|k: nat| k < (d - 1) as nat implies outside_debug_type_frame(#[trigger] unwrap_nested_cells(q, m2, k) + 8, sp) by {
            assert(unwrap_nested_cells(p, m2, (k + 1) as nat) == unwrap_nested_cells(q, m2, k));
            assert(outside_debug_type_frame(unwrap_nested_cells(p, m2, (k + 1) as nat) + 8, sp));
        }
        lemma_unwrap_nested_cells_agree(q, m1, m2, sp, (d - 1) as nat);
    }
}

/// Memories that agree on the table entries find the same class name.
proof fn lemma_class_name_result_agree(m1: spec_fn(int) -> int, m2: spec_fn(int) -> int, fallback: int, table: int, count: int, id: int, i: int)
    requires
        forall|j: int|
            #![trigger class_entry(table, j)]
            i <= j < count ==> m1(class_entry(table, j)) == m2(class_entry(table, j))
                && m1(class_entry(table, j) + 8) == m2(class_entry(table, j) + 8)
                && m1(class_entry(table, j) + 16) == m2(class_entry(table, j) + 16),
    ensures
        class_name_result(m1, fallback, table, count, id, i) == class_name_result(m2, fallback, table, count, id, i),
    decreases count - i,
{
    if i < count {
        assert(m1(class_entry(table, i)) == m2(class_entry(table, i)));
        lemma_class_name_result_agree(m1, m2, fallback, table, count, id, i + 1);
    }
}

/// The words `__rt_get_debug_type` reads to answer the value `q` (when it is not a nested
/// cell) lie outside its frame below `sp`: the value's header, tag and payload words, the
/// object's class id, the class count and the class-name table entries.
pub open spec fn debug_type_words_outside(q: int, mem: spec_fn(int) -> int, symbol: spec_fn(Seq<char>) -> int, sp: int) -> bool {
    let obj = debug_type_object(q, mem);
    let table = symbol("_classes_by_name"@);
    let count = mem(symbol("_classes_by_name_count"@));
    &&& q != 0 ==> outside_debug_type_frame(q - 8, sp) && outside_debug_type_frame(q, sp)
        && outside_debug_type_frame(q + 8, sp)
    &&& obj != 0 ==> outside_debug_type_frame(obj, sp)
    &&& outside_debug_type_frame(symbol("_classes_by_name_count"@), sp)
    &&& forall|j: int|
        #![trigger class_entry(table, j)]
        0 <= j < count ==> outside_debug_type_frame(class_entry(table, j), sp)
            && outside_debug_type_frame(class_entry(table, j) + 8, sp)
            && outside_debug_type_frame(class_entry(table, j) + 16, sp)
}

/// What the helper reads of a value, across the frame it sets up: memories that agree
/// outside the frame unwrap the value's nested cells alike and answer it alike.
#[verifier::rlimit(80)]
proof fn lemma_get_debug_type_frame_agree(
    m1: spec_fn(int) -> int,
    m2: spec_fn(int) -> int,
    symbol: spec_fn(Seq<char>) -> int,
    p: int,
    sp: int,
    d: nat,
)
    requires
        forall|a: int| outside_debug_type_frame(a, sp) ==> #[trigger] m1(a) == m2(a),
        forall|k: nat| k < d ==> {
            let u = #[trigger] unwrap_nested_cells(p, m2, k);
            &&& is_nested_cell(u, m2)
            &&& outside_debug_type_frame(u - 8, sp)
            &&& outside_debug_type_frame(u, sp)
            &&& outside_debug_type_frame(u + 8, sp)
        },
        !is_nested_cell(unwrap_nested_cells(p, m2, d), m2),
        debug_type_words_outside(unwrap_nested_cells(p, m2, d), m2, symbol, sp),
    ensures
        forall|k: nat| k < d ==> is_nested_cell(#[trigger] unwrap_nested_cells(p, m1, k), m1),
        unwrap_nested_cells(p, m1, d) == unwrap_nested_cells(p, m2, d),
        !is_nested_cell(unwrap_nested_cells(p, m1, d), m1),
        m1(symbol("_classes_by_name_count"@)) == m2(symbol("_classes_by_name_count"@)),
        debug_type_result(unwrap_nested_cells(p, m1, d), m1, symbol)
            == debug_type_result(unwrap_nested_cells(p, m2, d), m2, symbol),
{
    assert forall|k: nat| k <= d implies #[trigger] unwrap_nested_cells(p, m1, k) == unwrap_nested_cells(p, m2, k) by {
        assert forall|j: nat| j < k implies outside_debug_type_frame(#[trigger] unwrap_nested_cells(p, m2, j) + 8, sp) by {
            assert(j < d);
        }
        lemma_unwrap_nested_cells_agree(p, m1, m2, sp, k);
    }
    assert forall|k: nat| k < d implies is_nested_cell(#[trigger] unwrap_nested_cells(p, m1, k), m1) by {
        assert(unwrap_nested_cells(p, m1, k) == unwrap_nested_cells(p, m2, k));
        let u = unwrap_nested_cells(p, m2, k);
        assert(outside_debug_type_frame(u - 8, sp));
        assert(outside_debug_type_frame(u, sp));
    }
    let q = unwrap_nested_cells(p, m2, d);
    assert(unwrap_nested_cells(p, m1, d) == q);
    if q != 0 {
        assert(m1(q - 8) == m2(q - 8));
        assert(m1(q) == m2(q));
        assert(m1(q + 8) == m2(q + 8));
    }
    let obj = debug_type_object(q, m2);
    assert(debug_type_object(q, m1) == obj);
    let table = symbol("_classes_by_name"@);
    let count = m2(symbol("_classes_by_name_count"@));
    assert(m1(symbol("_classes_by_name_count"@)) == count);
    if obj != 0 {
        assert(m1(obj) == m2(obj));
        assert forall|j: int| 0 <= j < count implies m1(#[trigger] class_entry(table, j)) == m2(class_entry(table, j))
            && m1(class_entry(table, j) + 8) == m2(class_entry(table, j) + 8)
            && m1(class_entry(table, j) + 16) == m2(class_entry(table, j) + 16) by {
            assert(outside_debug_type_frame(class_entry(table, j), sp));
        }
        lemma_class_name_result_agree(m1, m2, symbol("_gdt_object"@), table, count, m2(obj), 0);
    }
}

/// `__rt_get_debug_type` names the value's type: on AArch64, for a value pointer in `x0`
/// that unwraps through `d` nested mixed cells (tag 7) to a value `q` that is not one, the
/// helper returns, within 15 lines per nested cell plus 57 plus 9 per class-table entry,
/// with `x0`/`x1` the pointer and length of `q`'s type name (see `debug_type_result`): for
/// null, a raw array or hash, or a mixed cell by its value tag (0 `int`, 1 `string`,
/// 2 `float`, 3 `bool`, 4 and 5 `array`, 9 `resource (stream)`, others `null`) the name's
/// data symbol and length; for an object (a raw object, or a cell with tag 6 holding one)
/// the class name registered for its class id, or `object`. The words the helper reads
/// must lie outside its 32-byte stack frame.
#[verifier::rlimit(100)]
#[verifier::spinoff_prover]
pub proof fn lemma_get_debug_type_names_the_value(t: Target, env: Env, m: Machine, d: nat)
    requires
        t.arch == Arch::AArch64,
        m.pc == find_label(get_debug_type(Seq::empty(), t), "__rt_get_debug_type"@, 0),
        !m.returned,
        !m.stuck,
        forall|k: nat| k < d ==> {
            let u = #[trigger] unwrap_nested_cells(read(m, 0), m.mem, k);
            &&& is_nested_cell(u, m.mem)
            &&& outside_debug_type_frame(u - 8, read(m, 31))
            &&& outside_debug_type_frame(u, read(m, 31))
            &&& outside_debug_type_frame(u + 8, read(m, 31))
        },
        !is_nested_cell(unwrap_nested_cells(read(m, 0), m.mem, d), m.mem),
        debug_type_words_outside(unwrap_nested_cells(read(m, 0), m.mem, d), m.mem, env.symbol, read(m, 31)),
        0 <= (m.mem)((env.symbol)("_classes_by_name_count"@)),
    ensures
        ({
            let cnt = (m.mem)((env.symbol)("_classes_by_name_count"@));
            let r = run(get_debug_type(Seq::empty(), t), env, m, (15 * d + 57 + 9 * cnt) as nat);
            &&& r.returned
            &&& (read(r, 0), read(r, 1)) == debug_type_result(unwrap_nested_cells(read(m, 0), m.mem, d), m.mem, env.symbol)
        }),
{
    let lines = get_debug_type(Seq::empty(), t);
    lemma_get_debug_type_shape(t);
    let s = run(lines, env, m, 4);
    assert(s.pc == 6 && !s.returned && !s.stuck && read(s, 0) == read(m, 0)
        && forall|a: int| outside_debug_type_frame(a, read(m, 31)) ==> #[trigger] (s.mem)(a) == (m.mem)(a)) by {
        reveal(get_debug_type_shape);
        lemma_get_debug_type_runs_prologue(lines, env, m);
    }
    lemma_get_debug_type_frame_agree(s.mem, m.mem, env.symbol, read(m, 0), read(m, 31), d);
    let cnt = (m.mem)((env.symbol)("_classes_by_name_count"@));
    lemma_get_debug_type_dispatch(lines, env, s, d);
    lemma_run_split(lines, env, m, 4, (15 * d + 53 + 9 * cnt) as nat);
    assert((4 + (15 * d + 53 + 9 * cnt)) as nat == (15 * d + 57 + 9 * cnt) as nat);
}

} // verus!
