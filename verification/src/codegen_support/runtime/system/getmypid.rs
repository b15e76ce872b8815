//! Purpose:
//! Emits the `__rt_getmypid` runtime helper assembly for getmypid.
//! Keeps PHP builtin semantics and target-specific ABI variants in one focused emitter.
//!
//! Key details:
//! - Routes through libc `getpid()` on every target (like `__rt_time`'s x86_64/macOS
//!   paths) rather than a raw syscall, so the helper stays free of per-arch syscall
//!   numbers. `pid_t` is a signed 32-bit `int`, so the result is sign-extended to the
//!   64-bit native integer register PHP ints occupy.

use vstd::prelude::*;
use crate::codegen::emit::{Emitter, Line, ins, global, comment, bl_c_line};
use crate::codegen::platform::{Arch, Target};

verus! {

/// Appends to `out` the listing that `emit_getmypid` emits for target `t`.
pub open spec fn getmypid(out: Seq<Line>, t: Target) -> Seq<Line> {
    if t.arch == Arch::X86_64 {
        getmypid_x86_64(out, t)
    } else {
        getmypid_arm64(out, t)
    }
}

/// Emits the `__rt_getmypid` runtime helper for the current platform.
/// Routes to the ARM64 or x86_64 variant. Output: x0 (ARM64) or rax (x86_64) = current process id.
pub fn emit_getmypid(emitter: &mut Emitter)
    ensures
        final(emitter).target == old(emitter).target,
        final(emitter)@ == getmypid(old(emitter)@, old(emitter).target),
{
    if emitter.target.arch == Arch::X86_64 {
        emit_getmypid_x86_64(emitter);
        return;
    }
    emit_getmypid_arm64(emitter);
}

/// Appends to `out` the listing that `emit_getmypid_arm64` emits for target `t`.
pub open spec fn getmypid_arm64(out: Seq<Line>, t: Target) -> Seq<Line> {
    let out = out
        .push(Line::Blank)
        .push(comment("--- runtime: getmypid ---"))
        .push(global("__rt_getmypid"))
        .push(ins("sub sp, sp, #16"))
        .push(ins("stp x29, x30, [sp]"))
        .push(ins("mov x29, sp"))
        .push(bl_c_line(t, "getpid"@))
        .push(ins("sxtw x0, w0"))
        .push(ins("ldp x29, x30, [sp]"))
        .push(ins("add sp, sp, #16"))
        .push(ins("ret"));
    out
}

/// Emits `__rt_getmypid` for ARM64 via libc `getpid()`.
/// Output: x0 = current process id (sign-extended from the 32-bit `pid_t`).
fn emit_getmypid_arm64(emitter: &mut Emitter)
    ensures
        final(emitter).target == old(emitter).target,
        final(emitter)@ == getmypid_arm64(old(emitter)@, old(emitter).target),
{
    emitter.blank();
    emitter.comment("--- runtime: getmypid ---");
    emitter.label_global("__rt_getmypid");
    emitter.instruction("sub sp, sp, #16");    // allocate a minimal 16-aligned frame for the libc call
    emitter.instruction("stp x29, x30, [sp]");    // save frame pointer and return address
    emitter.instruction("mov x29, sp");    // establish the new frame pointer
    emitter.bl_c("getpid");    // libc getpid() → w0 = process id
    emitter.instruction("sxtw x0, w0");    // widen the signed 32-bit pid_t to the 64-bit PHP int register
    emitter.instruction("ldp x29, x30, [sp]");    // restore frame pointer and return address
    emitter.instruction("add sp, sp, #16");    // tear down the frame
    emitter.instruction("ret");    // return the pid to the caller
}

/// Appends to `out` the listing that `emit_getmypid_x86_64` emits for target `t`.
pub open spec fn getmypid_x86_64(out: Seq<Line>, t: Target) -> Seq<Line> {
    let out = out
        .push(Line::Blank)
        .push(comment("--- runtime: getmypid ---"))
        .push(global("__rt_getmypid"))
        .push(ins("push rbp"))
        .push(ins("mov rbp, rsp"))
        .push(bl_c_line(t, "getpid"@))
        .push(ins("cdqe"))
        .push(ins("leave"))
        .push(ins("ret"));
    out
}

/// Emits `__rt_getmypid` for x86_64 via libc `getpid()`.
/// Output: rax = current process id (sign-extended from the 32-bit `pid_t`).
fn emit_getmypid_x86_64(emitter: &mut Emitter)
    ensures
        final(emitter).target == old(emitter).target,
        final(emitter)@ == getmypid_x86_64(old(emitter)@, old(emitter).target),
{
    emitter.blank();
    emitter.comment("--- runtime: getmypid ---");
    emitter.label_global("__rt_getmypid");
    emitter.instruction("push rbp");    // preserve the caller frame pointer for the libc call
    emitter.instruction("mov rbp, rsp");    // establish a stable frame base (keeps rsp 16-aligned at the call)
    emitter.bl_c("getpid");    // libc getpid() → eax = process id
    emitter.instruction("cdqe");    // sign-extend eax → rax so the 64-bit PHP int register is clean
    emitter.instruction("leave");    // restore the caller frame pointer
    emitter.instruction("ret");    // return the pid to the caller
}

/// The emitter of this module only appends: the block it adds depends on the target
/// alone, and the listing it was handed stays in front of that block unchanged.
pub proof fn lemma_getmypid_emitters_append(out: Seq<Line>, t: Target)
    ensures
        getmypid(out, t) == out + getmypid(Seq::empty(), t),
{
    broadcast use crate::codegen::emit::group_listing;
}

} // verus!
