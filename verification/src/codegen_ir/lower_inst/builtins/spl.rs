//! Emission helpers of the SPL builtin lowerings: the null result, the indexed
//! integer array allocation, the autoload-rule placeholder indexes and the read
//! of the autoload extension globals.

use vstd::prelude::*;
use crate::codegen::platform::{Arch, Target};
use crate::codegen::emit::{Emitter, Line};
use crate::codegen::abi::{
    call_label, emit_call_label, emit_load_int_immediate, emit_load_symbol_to_reg,
    int_result_reg, load_int_immediate, load_symbol_to_reg, spec_int_result_reg,
    spec_string_result_regs, string_result_regs,
};
use crate::codegen::sentinels::NULL_SENTINEL;

verus! {

/// Lines that put the runtime null sentinel into the integer result register.
pub open spec fn null_result(t: Target) -> Seq<Line> {
    load_int_immediate(t, spec_int_result_reg(t.arch), NULL_SENTINEL)
}

/// Emits the shared runtime null sentinel into the integer result register.
pub fn emit_null_result(emitter: &mut Emitter)
    ensures
        final(emitter).target == old(emitter).target,
        final(emitter)@ == old(emitter)@ + null_result(old(emitter).target),
{
    let reg = int_result_reg(emitter);
    emit_load_int_immediate(emitter, reg, NULL_SENTINEL);
}

/// Lines that allocate an indexed array of `capacity` 8-byte slots; the array pointer
/// is left in the integer result register for the appends that follow.
pub open spec fn int_array_alloc(t: Target, capacity: nat) -> Seq<Line> {
    let args = match t.arch {
        Arch::AArch64 => load_int_immediate(t, "x0"@, capacity as i64) + load_int_immediate(t, "x1"@, 8),
        Arch::X86_64 => load_int_immediate(t, "rdi"@, capacity as i64) + load_int_immediate(t, "rsi"@, 8),
    };
    args.push(call_label(t, "__rt_array_new"@))
}

/// Allocates an indexed integer array of `capacity` slots; the caller appends the values.
pub fn emit_int_array(emitter: &mut Emitter, capacity: usize)
    ensures
        final(emitter).target == old(emitter).target,
        final(emitter)@ == old(emitter)@ + int_array_alloc(old(emitter).target, capacity as nat),
{
    let cap = #[verifier::truncate] (capacity as i64);
    match emitter.target.arch {
        Arch::AArch64 => {
            emit_load_int_immediate(emitter, "x0", cap);
            emit_load_int_immediate(emitter, "x1", 8);
        },
        Arch::X86_64 => {
            emit_load_int_immediate(emitter, "rdi", cap);
            emit_load_int_immediate(emitter, "rsi", 8);
        },
    }
    emit_call_label(emitter, "__rt_array_new");
    assert(final(emitter)@ =~= old(emitter)@ + int_array_alloc(old(emitter).target, capacity as nat));
}

/// Lines that append the placeholder index `index` to the parked array, AArch64 form.
pub open spec fn placeholder_append_aarch64(t: Target, index: nat) -> Seq<Line> {
    seq![Line::Instruction("ldr x0, [sp]"@)] + load_int_immediate(t, "x1"@, index as i64) + seq![
        call_label(t, "__rt_array_push_int"@),
        Line::Instruction("str x0, [sp]"@),
    ]
}

/// Lines that append the placeholder index `index` to the parked array, x86_64 form.
pub open spec fn placeholder_append_x86_64(t: Target, index: nat) -> Seq<Line> {
    seq![Line::Instruction("mov rdi, QWORD PTR [rsp + 8]"@)] + load_int_immediate(t, "rsi"@, index as i64)
        + seq![call_label(t, "__rt_array_push_int"@), Line::Instruction("mov QWORD PTR [rsp + 8], rax"@)]
}

/// The appends of the indexes `0..n`, in increasing order, AArch64 form.
pub open spec fn placeholder_appends_aarch64(t: Target, n: nat) -> Seq<Line>
    decreases n,
{
    if n == 0 {
        Seq::empty()
    } else {
        placeholder_appends_aarch64(t, (n - 1) as nat) + placeholder_append_aarch64(t, (n - 1) as nat)
    }
}

/// The appends of the indexes `0..n`, in increasing order, x86_64 form.
pub open spec fn placeholder_appends_x86_64(t: Target, n: nat) -> Seq<Line>
    decreases n,
{
    if n == 0 {
        Seq::empty()
    } else {
        placeholder_appends_x86_64(t, (n - 1) as nat) + placeholder_append_x86_64(t, (n - 1) as nat)
    }
}

/// The AArch64 placeholder block: park the array, append `0..n`, restore it as the result.
pub open spec fn autoload_function_placeholders_aarch64(t: Target, n: nat) -> Seq<Line> {
    seq![Line::Instruction("str x0, [sp, #-16]!"@)] + placeholder_appends_aarch64(t, n)
        + seq![Line::Instruction("ldr x0, [sp], #16"@)]
}

/// The x86_64 placeholder block: park the array, append `0..n`, restore it as the result.
pub open spec fn autoload_function_placeholders_x86_64(t: Target, n: nat) -> Seq<Line> {
    seq![Line::Instruction("push rax"@), Line::Instruction("sub rsp, 8"@)]
        + placeholder_appends_x86_64(t, n)
        + seq![Line::Instruction("add rsp, 8"@), Line::Instruction("pop rax"@)]
}

/// The placeholder block for `rule_count` autoload rules: nothing when there is none.
pub open spec fn autoload_function_placeholders(t: Target, rule_count: nat) -> Seq<Line> {
    if rule_count == 0 {
        Seq::empty()
    } else {
        match t.arch {
            Arch::AArch64 => autoload_function_placeholders_aarch64(t, rule_count),
            Arch::X86_64 => autoload_function_placeholders_x86_64(t, rule_count),
        }
    }
}

/// Appends placeholder rule indexes to the current autoload-functions array.
pub fn emit_autoload_function_placeholders(emitter: &mut Emitter, rule_count: usize)
    ensures
        final(emitter).target == old(emitter).target,
        final(emitter)@ == old(emitter)@ + autoload_function_placeholders(old(emitter).target, rule_count as nat),
{
    if rule_count == 0 {
        assert(old(emitter)@ + Seq::<Line>::empty() =~= old(emitter)@);
        return;
    }
    match emitter.target.arch {
        Arch::AArch64 => emit_autoload_function_placeholders_aarch64(emitter, rule_count),
        Arch::X86_64 => emit_autoload_function_placeholders_x86_64(emitter, rule_count),
    }
}

/// Appends placeholder autoload indexes on AArch64.
pub fn emit_autoload_function_placeholders_aarch64(emitter: &mut Emitter, rule_count: usize)
    ensures
        final(emitter).target == old(emitter).target,
        final(emitter)@ == old(emitter)@ + autoload_function_placeholders_aarch64(
            old(emitter).target,
            rule_count as nat,
        ),
{
    let ghost t = emitter.target;
    emitter.instruction("str x0, [sp, #-16]!");
    let ghost start = emitter@;
    let mut index: usize = 0;
    while index < rule_count
        invariant
            index <= rule_count,
            emitter.target == t,
            emitter@ == start + placeholder_appends_aarch64(t, index as nat),
        decreases rule_count - index,
    {
        let ghost before = emitter@;
        emitter.instruction("ldr x0, [sp]");
        emit_load_int_immediate(emitter, "x1", #[verifier::truncate] (index as i64));
        emit_call_label(emitter, "__rt_array_push_int");
        emitter.instruction("str x0, [sp]");
        assert(emitter@ =~= before + placeholder_append_aarch64(t, index as nat));
        assert(start + placeholder_appends_aarch64(t, (index + 1) as nat) =~= before
            + placeholder_append_aarch64(t, index as nat));
        index = index + 1;
    }
    emitter.instruction("ldr x0, [sp], #16");
    assert(final(emitter)@ =~= old(emitter)@ + autoload_function_placeholders_aarch64(t, rule_count as nat));
}

/// Appends placeholder autoload indexes on x86_64.
pub fn emit_autoload_function_placeholders_x86_64(emitter: &mut Emitter, rule_count: usize)
    ensures
        final(emitter).target == old(emitter).target,
        final(emitter)@ == old(emitter)@ + autoload_function_placeholders_x86_64(
            old(emitter).target,
            rule_count as nat,
        ),
{
    let ghost t = emitter.target;
    emitter.instruction("push rax");
    emitter.instruction("sub rsp, 8");
    let ghost start = emitter@;
    let mut index: usize = 0;
    while index < rule_count
        invariant
            index <= rule_count,
            emitter.target == t,
            emitter@ == start + placeholder_appends_x86_64(t, index as nat),
        decreases rule_count - index,
    {
        let ghost before = emitter@;
        emitter.instruction("mov rdi, QWORD PTR [rsp + 8]");
        emit_load_int_immediate(emitter, "rsi", #[verifier::truncate] (index as i64));
        emit_call_label(emitter, "__rt_array_push_int");
        emitter.instruction("mov QWORD PTR [rsp + 8], rax");
        assert(emitter@ =~= before + placeholder_append_x86_64(t, index as nat));
        assert(start + placeholder_appends_x86_64(t, (index + 1) as nat) =~= before
            + placeholder_append_x86_64(t, index as nat));
        index = index + 1;
    }
    emitter.instruction("add rsp, 8");
    emitter.instruction("pop rax");
    assert(final(emitter)@ =~= old(emitter)@ + autoload_function_placeholders_x86_64(t, rule_count as nat));
}

/// Lines that load the current autoload extension string (pointer, then length) from
/// its runtime globals into the string result registers.
pub open spec fn extensions_read(t: Target) -> Seq<Line> {
    let regs = spec_string_result_regs(t.arch);
    load_symbol_to_reg(t, regs.0, "_spl_autoload_exts_ptr"@, 0)
        + load_symbol_to_reg(t, regs.1, "_spl_autoload_exts_len"@, 0)
}

/// Loads the current autoload extension string from runtime globals.
pub fn emit_extensions_read(emitter: &mut Emitter)
    ensures
        final(emitter).target == old(emitter).target,
        final(emitter)@ == old(emitter)@ + extensions_read(old(emitter).target),
{
    let (ptr_reg, len_reg) = string_result_regs(emitter);
    emit_load_symbol_to_reg(emitter, ptr_reg, "_spl_autoload_exts_ptr", 0);
    emit_load_symbol_to_reg(emitter, len_reg, "_spl_autoload_exts_len", 0);
    assert(final(emitter)@ =~= old(emitter)@ + extensions_read(old(emitter).target));
}

} // verus!
