//! Purpose:
//! Fiber-backed generator coroutine runtime. A PHP `Generator` is a coroutine
//! object that reuses the Fiber 232-byte layout (so it can reuse
//! `__rt_fiber_switch`/`suspend`/`resume`/`throw`/`start`) plus a small block of
//! generator-specific fields in the otherwise-unused reserved region. This file
//! owns those field offsets and the `yield` suspension primitive
//! `__rt_gen_suspend`.
//!
//! Used by:
//! - Generated generator bodies call `__rt_gen_suspend` at each `yield`.
//!
//! Key details:
//! - `__rt_gen_suspend` records the yielded key/value into the generator's
//!   persistent `last_key`/`last_value` slots (so repeated `current()`/`key()`
//!   reads are pure loads), then reuses `__rt_fiber_suspend`. Because the fiber
//!   suspend boundary re-raises a scheduled `pending_throw` *inside* the
//!   coroutine's own stack, `Generator::throw()` lands in an in-generator
//!   `try/catch` — the core of issue #329.
//! - Generator fields live at offsets 184..224, inside the Fiber `reserved`
//!   region that `__rt_fiber_construct` already zero-initialises.

use vstd::prelude::*;
use crate::codegen::abi::{self, load_symbol_to_reg};
use crate::codegen::emit::{Emitter, Line, ins, ins_int, label, global, comment};
use crate::codegen::platform::{Arch, Target};

verus! {

/// Runtime Mixed tag for an integer payload (used to box auto-increment keys).
pub const INT_TAG: i64 = 0;

/// Byte offset of `gen_last_key`: boxed Mixed of the most recent yield key.
pub const GEN_LAST_KEY_OFFSET: i32 = 184;

/// Byte offset of `gen_last_value`: boxed Mixed of the most recent yield value.
pub const GEN_LAST_VALUE_OFFSET: i32 = 192;

/// Byte offset of `gen_return_value`: boxed Mixed of the body `return` value.
pub const GEN_RETURN_VALUE_OFFSET: i32 = 200;

/// Byte offset of `gen_auto_key`: next auto-increment integer key (raw i64).
pub const GEN_AUTO_KEY_OFFSET: i32 = 208;

/// Byte offset of `gen_delegated_iter`: inner iterator for `yield from`.
pub const GEN_DELEGATED_ITER_OFFSET: i32 = 216;

/// Appends to `out` the listing that `emit_gen_suspend` emits for target `t`.
pub open spec fn gen_suspend(out: Seq<Line>, t: Target) -> Seq<Line> {
    if t.arch == Arch::X86_64 {
        gen_suspend_x86_64(out, t)
    } else {
        gen_suspend_aarch64(out, t)
    }
}

/// Appends to `out` the AArch64 listing of `emit_gen_suspend`.
pub open spec fn gen_suspend_aarch64(out: Seq<Line>, t: Target) -> Seq<Line> {
    let out = out
        .push(Line::Blank)
        .push(comment("--- runtime: __rt_gen_suspend ---"))
        .push(global("__rt_gen_suspend"))
        .push(ins("sub sp, sp, #48"))
        .push(ins("stp x29, x30, [sp, #32]"))
        .push(ins("stp x19, x20, [sp, #16]"))
        .push(ins("str x21, [sp]"))
        .push(ins("add x29, sp, #32"))
        .push(ins("mov x20, x1"))
        .push(ins("mov x21, x0"));
    let out = out + load_symbol_to_reg(t, "x19"@, "_fiber_current"@, 0);
    let out = out
        .push(ins_int("ldr x9, [x19, #", GEN_LAST_VALUE_OFFSET as int, "]"))
        .push(ins_int("str x20, [x19, #", GEN_LAST_VALUE_OFFSET as int, "]"))
        .push(ins("mov x0, x9"))
        .push(ins("bl __rt_decref_mixed"))
        .push(ins("cbz x21, __rt_gen_suspend_auto_key"))
        .push(ins_int("ldr x9, [x19, #", GEN_LAST_KEY_OFFSET as int, "]"))
        .push(ins_int("str x21, [x19, #", GEN_LAST_KEY_OFFSET as int, "]"))
        .push(ins("mov x0, x9"))
        .push(ins("bl __rt_decref_mixed"))
        .push(ins("b __rt_gen_suspend_yield"))
        .push(label("__rt_gen_suspend_auto_key"))
        .push(ins_int("ldr x1, [x19, #", GEN_AUTO_KEY_OFFSET as int, "]"))
        .push(ins_int("mov x0, #", INT_TAG as int, ""))
        .push(ins("mov x2, #0"))
        .push(ins("bl __rt_mixed_from_value"))
        .push(ins_int("ldr x9, [x19, #", GEN_LAST_KEY_OFFSET as int, "]"));
    let out = out
        .push(ins_int("str x0, [x19, #", GEN_LAST_KEY_OFFSET as int, "]"))
        .push(ins("mov x0, x9"))
        .push(ins("bl __rt_decref_mixed"))
        .push(ins_int("ldr x9, [x19, #", GEN_AUTO_KEY_OFFSET as int, "]"))
        .push(ins("add x9, x9, #1"))
        .push(ins_int("str x9, [x19, #", GEN_AUTO_KEY_OFFSET as int, "]"))
        .push(label("__rt_gen_suspend_yield"))
        .push(ins("mov x0, #0"))
        .push(ins("bl __rt_fiber_suspend"))
        .push(ins("ldr x21, [sp]"))
        .push(ins("ldp x19, x20, [sp, #16]"))
        .push(ins("ldp x29, x30, [sp, #32]"))
        .push(ins("add sp, sp, #48"))
        .push(ins("ret"));
    out
}

/// Emits `__rt_gen_suspend`, the `yield` suspension primitive shared by every
/// generated generator body.
///
/// Records the yielded key/value into the current generator's persistent slots
/// (refcount-replacing the previous occupants), then suspends via
/// `__rt_fiber_suspend`. On resume it returns the value delivered by the next
/// `send()`/`next()` (owned by the caller), or — when `Generator::throw()`
/// scheduled a `pending_throw` — the fiber suspend boundary re-raises that
/// exception inside this generator's stack so a local `try/catch` can handle it.
///
/// Input:  `x0`/`rdi` = boxed key cell (NULL → auto-increment integer key);
///         `x1`/`rsi` = boxed value cell (ownership moves into the generator).
/// Output: `x0`/`rax` = boxed value delivered by the next resume (owned).
pub fn emit_gen_suspend(emitter: &mut Emitter)
    ensures
        final(emitter).target == old(emitter).target,
        final(emitter)@ == gen_suspend(old(emitter)@, old(emitter).target),
{
    if emitter.target.arch == Arch::X86_64 {
        emit_gen_suspend_x86_64(emitter);
        return;
    }
    emitter.blank();
    emitter.comment("--- runtime: __rt_gen_suspend ---");
    emitter.label_global("__rt_gen_suspend");
    // -- prologue: park the boxed key/value and cache the generator object --
    emitter.instruction("sub sp, sp, #48");    // reserve frame plus saved callee registers
    emitter.instruction("stp x29, x30, [sp, #32]");    // save frame pointer and return address
    emitter.instruction("stp x19, x20, [sp, #16]");    // preserve callee-saved x19/x20 used as caches
    emitter.instruction("str x21, [sp]");    // preserve callee-saved x21 used for the parked key
    emitter.instruction("add x29, sp, #32");    // anchor the new frame pointer
    emitter.instruction("mov x20, x1");    // x20 = boxed yielded value (ownership moving into the generator)
    emitter.instruction("mov x21, x0");    // x21 = boxed key cell (NULL means auto-increment)
    abi::emit_load_symbol_to_reg(emitter, "x19", "_fiber_current", 0);    // x19 = the generator coroutine currently running
    // -- record the yielded value into gen_last_value (refcount-replace) --
    emitter.instruction_int("ldr x9, [x19, #", GEN_LAST_VALUE_OFFSET as i64, "]");    // x9 = previous last_value occupant
    emitter.instruction_int("str x20, [x19, #", GEN_LAST_VALUE_OFFSET as i64, "]");    // store the freshly yielded value
    emitter.instruction("mov x0, x9");    // pass the previous occupant to the releaser
    emitter.instruction("bl __rt_decref_mixed");    // release the previous last_value (NULL is safe)
    // -- record the key: explicit cell, or a boxed auto-increment integer --
    emitter.instruction("cbz x21, __rt_gen_suspend_auto_key");    // branch to the auto-key path when no explicit key was supplied
    emitter.instruction_int("ldr x9, [x19, #", GEN_LAST_KEY_OFFSET as i64, "]");    // x9 = previous last_key occupant
    emitter.instruction_int("str x21, [x19, #", GEN_LAST_KEY_OFFSET as i64, "]");    // store the explicit yielded key
    emitter.instruction("mov x0, x9");    // pass the previous key occupant to the releaser
    emitter.instruction("bl __rt_decref_mixed");    // release the previous last_key (NULL is safe)
    emitter.instruction("b __rt_gen_suspend_yield");    // skip the auto-key path
    emitter.label("__rt_gen_suspend_auto_key");
    emitter.instruction_int("ldr x1, [x19, #", GEN_AUTO_KEY_OFFSET as i64, "]");    // x1 = current auto-increment integer key payload
    emitter.instruction_int("mov x0, #", INT_TAG as i64, "");    // runtime tag 0 = integer
    emitter.instruction("mov x2, #0");    // integer payload has no high word
    emitter.instruction("bl __rt_mixed_from_value");    // x0 = boxed integer key cell (owned)
    emitter.instruction_int("ldr x9, [x19, #", GEN_LAST_KEY_OFFSET as i64, "]");    // x9 = previous last_key occupant
    emitter.instruction_int("str x0, [x19, #", GEN_LAST_KEY_OFFSET as i64, "]");    // store the freshly boxed auto key
    emitter.instruction("mov x0, x9");    // pass the previous key occupant to the releaser
    emitter.instruction("bl __rt_decref_mixed");    // release the previous last_key (NULL is safe)
    emitter.instruction_int("ldr x9, [x19, #", GEN_AUTO_KEY_OFFSET as i64, "]");    // x9 = current auto-increment counter
    emitter.instruction("add x9, x9, #1");    // advance the auto-increment counter
    emitter.instruction_int("str x9, [x19, #", GEN_AUTO_KEY_OFFSET as i64, "]");    // persist the advanced counter for the next bare yield
    // -- suspend back to the resumer; reuse the fiber suspend boundary --
    emitter.label("__rt_gen_suspend_yield");
    emitter.instruction("mov x0, #0");    // generators read last_value, so the fiber transfer value is unused
    emitter.instruction("bl __rt_fiber_suspend");    // suspend; on resume re-raises a pending throw or returns the sent value
    // -- epilogue: x0 already holds the resumer-delivered value (owned) --
    emitter.instruction("ldr x21, [sp]");    // restore caller's x21
    emitter.instruction("ldp x19, x20, [sp, #16]");    // restore caller's x19/x20
    emitter.instruction("ldp x29, x30, [sp, #32]");    // restore frame pointer and return address
    emitter.instruction("add sp, sp, #48");    // release the helper frame
    emitter.instruction("ret");    // return the sent value to the generator body
}

/// Appends to `out` the listing that `emit_gen_suspend_x86_64` emits for target `t`.
pub open spec fn gen_suspend_x86_64(out: Seq<Line>, t: Target) -> Seq<Line> {
    let out = out
        .push(Line::Blank)
        .push(comment("--- runtime: __rt_gen_suspend ---"))
        .push(global("__rt_gen_suspend"))
        .push(ins("push rbp"))
        .push(ins("mov rbp, rsp"))
        .push(ins("push r12"))
        .push(ins("push r13"))
        .push(ins("push r14"))
        .push(ins("sub rsp, 8"))
        .push(ins("mov r14, rdi"))
        .push(ins("mov r13, rsi"));
    let out = out + load_symbol_to_reg(t, "r12"@, "_fiber_current"@, 0);
    let out = out
        .push(ins_int("mov rax, QWORD PTR [r12 + ", GEN_LAST_VALUE_OFFSET as int, "]"))
        .push(ins_int("mov QWORD PTR [r12 + ", GEN_LAST_VALUE_OFFSET as int, "], r13"))
        .push(ins("mov rdi, rax"))
        .push(ins("call __rt_decref_mixed"))
        .push(ins("test r14, r14"))
        .push(ins("jz __rt_gen_suspend_auto_key"))
        .push(ins_int("mov rax, QWORD PTR [r12 + ", GEN_LAST_KEY_OFFSET as int, "]"))
        .push(ins_int("mov QWORD PTR [r12 + ", GEN_LAST_KEY_OFFSET as int, "], r14"))
        .push(ins("mov rdi, rax"))
        .push(ins("call __rt_decref_mixed"))
        .push(ins("jmp __rt_gen_suspend_yield"))
        .push(label("__rt_gen_suspend_auto_key"))
        .push(ins_int("mov rdi, QWORD PTR [r12 + ", GEN_AUTO_KEY_OFFSET as int, "]"))
        .push(ins_int("mov rax, ", INT_TAG as int, ""))
        .push(ins("xor esi, esi"))
        .push(ins("call __rt_mixed_from_value"));
    let out = out
        .push(ins_int("mov rcx, QWORD PTR [r12 + ", GEN_LAST_KEY_OFFSET as int, "]"))
        .push(ins_int("mov QWORD PTR [r12 + ", GEN_LAST_KEY_OFFSET as int, "], rax"))
        .push(ins("mov rdi, rcx"))
        .push(ins("call __rt_decref_mixed"))
        .push(ins_int("mov rax, QWORD PTR [r12 + ", GEN_AUTO_KEY_OFFSET as int, "]"))
        .push(ins("add rax, 1"))
        .push(ins_int("mov QWORD PTR [r12 + ", GEN_AUTO_KEY_OFFSET as int, "], rax"))
        .push(label("__rt_gen_suspend_yield"))
        .push(ins("xor edi, edi"))
        .push(ins("call __rt_fiber_suspend"))
        .push(ins("add rsp, 8"))
        .push(ins("pop r14"))
        .push(ins("pop r13"))
        .push(ins("pop r12"))
        .push(ins("pop rbp"))
        .push(ins("ret"));
    out
}

/// x86_64 implementation of `__rt_gen_suspend`.
///
/// Mirrors the ARM64 version using the System V ABI: generator object cached in
/// `r12`, parked key/value in `r13`/`r14`, Mixed boxing via `rax`=tag,
/// `rdi`=low, `rsi`=high.
fn emit_gen_suspend_x86_64(emitter: &mut Emitter)
    ensures
        final(emitter).target == old(emitter).target,
        final(emitter)@ == gen_suspend_x86_64(old(emitter)@, old(emitter).target),
{
    emitter.blank();
    emitter.comment("--- runtime: __rt_gen_suspend ---");
    emitter.label_global("__rt_gen_suspend");
    // -- prologue: park the boxed key/value and cache the generator object --
    emitter.instruction("push rbp");    // save caller frame pointer
    emitter.instruction("mov rbp, rsp");    // establish the helper frame pointer
    emitter.instruction("push r12");    // preserve r12 (generator object cache)
    emitter.instruction("push r13");    // preserve r13 (parked boxed value)
    emitter.instruction("push r14");    // preserve r14 (parked boxed key)
    emitter.instruction("sub rsp, 8");    // keep the stack 16-byte aligned across nested calls
    emitter.instruction("mov r14, rdi");    // r14 = boxed key cell (NULL means auto-increment)
    emitter.instruction("mov r13, rsi");    // r13 = boxed yielded value (ownership moving into the generator)
    abi::emit_load_symbol_to_reg(emitter, "r12", "_fiber_current", 0);    // r12 = the generator coroutine currently running
    // -- record the yielded value into gen_last_value (refcount-replace) --
    emitter.instruction_int("mov rax, QWORD PTR [r12 + ", GEN_LAST_VALUE_OFFSET as i64, "]");    // rax = previous last_value occupant
    emitter.instruction_int("mov QWORD PTR [r12 + ", GEN_LAST_VALUE_OFFSET as i64, "], r13");    // store the freshly yielded value
    emitter.instruction("mov rdi, rax");    // pass the previous occupant to the releaser
    emitter.instruction("call __rt_decref_mixed");    // release the previous last_value (NULL is safe)
    // -- record the key: explicit cell, or a boxed auto-increment integer --
    emitter.instruction("test r14, r14");    // was an explicit key supplied?
    emitter.instruction("jz __rt_gen_suspend_auto_key");    // branch to the auto-key path when no explicit key was supplied
    emitter.instruction_int("mov rax, QWORD PTR [r12 + ", GEN_LAST_KEY_OFFSET as i64, "]");    // rax = previous last_key occupant
    emitter.instruction_int("mov QWORD PTR [r12 + ", GEN_LAST_KEY_OFFSET as i64, "], r14");    // store the explicit yielded key
    emitter.instruction("mov rdi, rax");    // pass the previous key occupant to the releaser
    emitter.instruction("call __rt_decref_mixed");    // release the previous last_key (NULL is safe)
    emitter.instruction("jmp __rt_gen_suspend_yield");    // skip the auto-key path
    emitter.label("__rt_gen_suspend_auto_key");
    emitter.instruction_int("mov rdi, QWORD PTR [r12 + ", GEN_AUTO_KEY_OFFSET as i64, "]");    // rdi = current auto-increment integer key payload
    emitter.instruction_int("mov rax, ", INT_TAG as i64, "");    // runtime tag 0 = integer
    emitter.instruction("xor esi, esi");    // integer payload has no high word
    emitter.instruction("call __rt_mixed_from_value");    // rax = boxed integer key cell (owned)
    emitter.instruction_int("mov rcx, QWORD PTR [r12 + ", GEN_LAST_KEY_OFFSET as i64, "]");    // rcx = previous last_key occupant
    emitter.instruction_int("mov QWORD PTR [r12 + ", GEN_LAST_KEY_OFFSET as i64, "], rax");    // store the freshly boxed auto key
    emitter.instruction("mov rdi, rcx");    // pass the previous key occupant to the releaser
    emitter.instruction("call __rt_decref_mixed");    // release the previous last_key (NULL is safe)
    emitter.instruction_int("mov rax, QWORD PTR [r12 + ", GEN_AUTO_KEY_OFFSET as i64, "]");    // rax = current auto-increment counter
    emitter.instruction("add rax, 1");    // advance the auto-increment counter
    emitter.instruction_int("mov QWORD PTR [r12 + ", GEN_AUTO_KEY_OFFSET as i64, "], rax");    // persist the advanced counter for the next bare yield
    // -- suspend back to the resumer; reuse the fiber suspend boundary --
    emitter.label("__rt_gen_suspend_yield");
    emitter.instruction("xor edi, edi");    // generators read last_value, so the fiber transfer value is unused
    emitter.instruction("call __rt_fiber_suspend");    // suspend; on resume re-raises a pending throw or returns the sent value
    // -- epilogue: rax already holds the resumer-delivered value (owned) --
    emitter.instruction("add rsp, 8");    // release the alignment pad
    emitter.instruction("pop r14");    // restore caller's r14
    emitter.instruction("pop r13");    // restore caller's r13
    emitter.instruction("pop r12");    // restore caller's r12
    emitter.instruction("pop rbp");    // restore caller frame pointer
    emitter.instruction("ret");    // return the sent value to the generator body
}

/// The emitter of this module only appends: the block it adds depends on the target
/// alone, and the listing it was handed stays in front of that block unchanged.
pub proof fn lemma_coro_emitters_append(out: Seq<Line>, t: Target)
    ensures
        gen_suspend(out, t) == out + gen_suspend(Seq::empty(), t),
{
    broadcast use crate::codegen::emit::group_listing;
}

} // verus!
