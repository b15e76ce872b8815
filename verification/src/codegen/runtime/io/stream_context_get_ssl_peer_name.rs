//! Purpose:
//! Emits the `__rt_get_ssl_peer_name` runtime helper used by
//! `stream_socket_enable_crypto` to read the SNI / cert-validation
//! peer-name from `_stream_context_options["ssl"]["peer_name"]`. Returns
//! 1 on success (writing the string pointer/length to caller-provided
//! output addresses), 0 when the context has no SSL peer-name set.
//!
//! Used by:
//! - The `stream_socket_enable_crypto` builtin emitter when enabling
//!   TLS — falls back to a hardcoded `localhost` SNI when this helper
//!   reports no peer-name.
//!
//! Key details:
//! - Two nested `__rt_hash_get` lookups (top-level → "ssl" → "peer_name")
//!   navigate the nested options structure built by
//!   `stream_context_create` / `set_option`.
//! - The peer-name value must have runtime tag 1 (string). Non-string
//!   peer_name entries are treated as missing.
//! - The output addresses receive the raw pointer + length pair; the
//!   caller (`stream_socket_enable_crypto`) passes them straight to
//!   `elephc_tls_attach_fd`.

use vstd::prelude::*;
use crate::codegen::abi::{self, symbol_address};
use crate::codegen::emit::{Emitter, Line, ins, label, global, comment};
use crate::codegen::platform::{Arch, Target};

verus! {

/// Appends to `out` the listing that `emit_get_ssl_peer_name` emits for target `t`.
pub open spec fn get_ssl_peer_name(out: Seq<Line>, t: Target) -> Seq<Line> {
    if t.arch == Arch::X86_64 {
        get_ssl_peer_name_linux_x86_64(out, t)
    } else {
        get_ssl_peer_name_aarch64(out, t)
    }
}

/// Appends to `out` the AArch64 listing of `emit_get_ssl_peer_name`.
pub open spec fn get_ssl_peer_name_aarch64(out: Seq<Line>, t: Target) -> Seq<Line> {
    let out = out
        .push(Line::Blank)
        .push(comment("--- runtime: get_ssl_peer_name ---"))
        .push(global("__rt_get_ssl_peer_name"))
        .push(ins("sub sp, sp, #48"))
        .push(ins("stp x29, x30, [sp, #32]"))
        .push(ins("mov x29, sp"))
        .push(ins("str x0, [sp, #0]"))
        .push(ins("str x1, [sp, #8]"));
    let out = out + symbol_address(t, "x9"@, "_stream_context_options"@);
    let out = out
        .push(ins("ldr x0, [x9]"))
        .push(ins("cbz x0, __rt_gspn_miss"));
    let out = out + symbol_address(t, "x1"@, "_ssl_key_str"@);
    let out = out
        .push(ins("mov x2, #3"))
        .push(ins("bl __rt_hash_get"))
        .push(ins("cbz x0, __rt_gspn_miss"))
        .push(ins("mov x0, x1"));
    let out = out + symbol_address(t, "x1"@, "_ssl_peer_name_key_str"@);
    let out = out
        .push(ins("mov x2, #9"))
        .push(ins("bl __rt_hash_get"))
        .push(ins("cbz x0, __rt_gspn_miss"))
        .push(ins("cmp x3, #1"))
        .push(ins("b.ne __rt_gspn_miss"))
        .push(ins("ldr x9, [sp, #0]"))
        .push(ins("str x1, [x9]"))
        .push(ins("ldr x9, [sp, #8]"))
        .push(ins("str x2, [x9]"))
        .push(ins("mov x0, #1"))
        .push(ins("b __rt_gspn_done"))
        .push(label("__rt_gspn_miss"))
        .push(ins("mov x0, #0"))
        .push(label("__rt_gspn_done"))
        .push(ins("ldp x29, x30, [sp, #32]"))
        .push(ins("add sp, sp, #48"));
    let out = out
        .push(ins("ret"));
    out
}

/// `__rt_get_ssl_peer_name`:
/// Input:  AArch64 x0 = ptr-out address, x1 = len-out address.
///         x86_64  rdi = ptr-out address, rsi = len-out address.
/// Output: x0/rax = 1 on success (out_ptr/out_len written), 0 on miss.
pub fn emit_get_ssl_peer_name(emitter: &mut Emitter)
    ensures
        final(emitter).target == old(emitter).target,
        final(emitter)@ == get_ssl_peer_name(old(emitter)@, old(emitter).target),
{
    if emitter.target.arch == Arch::X86_64 {
        emit_get_ssl_peer_name_linux_x86_64(emitter);
        return;
    }
    emitter.blank();
    emitter.comment("--- runtime: get_ssl_peer_name ---");
    emitter.label_global("__rt_get_ssl_peer_name");
    // Frame (64 bytes):
    // [sp,  0] out_ptr_addr
    // [sp,  8] out_len_addr
    // [sp, 16] padding
    // [sp, 24] saved key literal address (rodata)
    // [sp, 32] saved x29
    // [sp, 40] saved x30
    emitter.instruction("sub sp, sp, #48");
    emitter.instruction("stp x29, x30, [sp, #32]");
    emitter.instruction("mov x29, sp");
    emitter.instruction("str x0, [sp, #0]");    // save out_ptr_addr
    emitter.instruction("str x1, [sp, #8]");    // save out_len_addr
    // -- load the top-level options hash; bail when null --
    abi::emit_symbol_address(emitter, "x9", "_stream_context_options");
    emitter.instruction("ldr x0, [x9]");
    emitter.instruction("cbz x0, __rt_gspn_miss");    // no context options at all
    // -- hash_get(top, "ssl", 3) → value_lo = sub-hash ptr, tag 5 --
    abi::emit_symbol_address(emitter, "x1", "_ssl_key_str");
    emitter.instruction("mov x2, #3");    // strlen("ssl") = 3
    emitter.instruction("bl __rt_hash_get");    // x0=found, x1=value_lo
    emitter.instruction("cbz x0, __rt_gspn_miss");    // no "ssl" sub-hash
    // -- hash_get(sub, "peer_name", 9) → value_lo=str ptr, x2=str len, x3=tag --
    emitter.instruction("mov x0, x1");    // sub-hash → hash_get's first arg
    abi::emit_symbol_address(emitter, "x1", "_ssl_peer_name_key_str");
    emitter.instruction("mov x2, #9");    // strlen("peer_name") = 9
    emitter.instruction("bl __rt_hash_get");    // x0=found, x1=lo, x2=hi, x3=tag
    emitter.instruction("cbz x0, __rt_gspn_miss");    // no "peer_name" in ssl sub-hash
    emitter.instruction("cmp x3, #1");    // require string tag
    emitter.instruction("b.ne __rt_gspn_miss");    // non-string peer_name → miss
    // -- write the (ptr, len) pair through the caller's output addresses --
    emitter.instruction("ldr x9, [sp, #0]");    // out_ptr_addr
    emitter.instruction("str x1, [x9]");    // *out_ptr = peer_name ptr
    emitter.instruction("ldr x9, [sp, #8]");    // out_len_addr
    emitter.instruction("str x2, [x9]");    // *out_len = peer_name len
    emitter.instruction("mov x0, #1");    // success
    emitter.instruction("b __rt_gspn_done");
    emitter.label("__rt_gspn_miss");
    emitter.instruction("mov x0, #0");    // peer_name not available
    emitter.label("__rt_gspn_done");
    emitter.instruction("ldp x29, x30, [sp, #32]");
    emitter.instruction("add sp, sp, #48");
    emitter.instruction("ret");
}

/// Appends to `out` the listing that `emit_get_ssl_peer_name_linux_x86_64` emits for target `t`.
pub open spec fn get_ssl_peer_name_linux_x86_64(out: Seq<Line>, t: Target) -> Seq<Line> {
    let out = out
        .push(Line::Blank)
        .push(comment("--- runtime: get_ssl_peer_name ---"))
        .push(global("__rt_get_ssl_peer_name"))
        .push(ins("push rbp"))
        .push(ins("mov rbp, rsp"))
        .push(ins("sub rsp, 16"))
        .push(ins("mov QWORD PTR [rbp - 8], rdi"))
        .push(ins("mov QWORD PTR [rbp - 16], rsi"))
        .push(ins("mov rdi, QWORD PTR [rip + _stream_context_options]"))
        .push(ins("test rdi, rdi"))
        .push(ins("jz __rt_gspn_miss_x86"))
        .push(ins("lea rsi, [rip + _ssl_key_str]"))
        .push(ins("mov edx, 3"))
        .push(ins("call __rt_hash_get"))
        .push(ins("test rax, rax"))
        .push(ins("jz __rt_gspn_miss_x86"));
    let out = out
        .push(ins("lea rsi, [rip + _ssl_peer_name_key_str]"))
        .push(ins("mov edx, 9"))
        .push(ins("call __rt_hash_get"))
        .push(ins("test rax, rax"))
        .push(ins("jz __rt_gspn_miss_x86"))
        .push(ins("cmp rcx, 1"))
        .push(ins("jne __rt_gspn_miss_x86"))
        .push(ins("mov r9, QWORD PTR [rbp - 8]"))
        .push(ins("mov QWORD PTR [r9], rdi"))
        .push(ins("mov r9, QWORD PTR [rbp - 16]"))
        .push(ins("mov QWORD PTR [r9], rsi"))
        .push(ins("mov eax, 1"))
        .push(ins("jmp __rt_gspn_done_x86"))
        .push(label("__rt_gspn_miss_x86"))
        .push(ins("xor eax, eax"))
        .push(label("__rt_gspn_done_x86"));
    let out = out
        .push(ins("add rsp, 16"))
        .push(ins("pop rbp"))
        .push(ins("ret"));
    out
}

fn emit_get_ssl_peer_name_linux_x86_64(emitter: &mut Emitter)
    ensures
        final(emitter).target == old(emitter).target,
        final(emitter)@ == get_ssl_peer_name_linux_x86_64(old(emitter)@, old(emitter).target),
{
    emitter.blank();
    emitter.comment("--- runtime: get_ssl_peer_name ---");
    emitter.label_global("__rt_get_ssl_peer_name");
    emitter.instruction("push rbp");
    emitter.instruction("mov rbp, rsp");
    emitter.instruction("sub rsp, 16");
    emitter.instruction("mov QWORD PTR [rbp - 8], rdi");    // save out_ptr_addr
    emitter.instruction("mov QWORD PTR [rbp - 16], rsi");    // save out_len_addr
    // -- load top-level options hash --
    emitter.instruction("mov rdi, QWORD PTR [rip + _stream_context_options]");
    emitter.instruction("test rdi, rdi");
    emitter.instruction("jz __rt_gspn_miss_x86");
    emitter.instruction("lea rsi, [rip + _ssl_key_str]");
    emitter.instruction("mov edx, 3");    // strlen("ssl")
    // __rt_hash_get's x86_64 returns: rax=found, rdi=value_lo, rsi=value_hi,
    // rcx=tag — the rdi/rsi mapping mirrors the SysV first-two-args
    // registers so callers can pipeline a follow-up hash_get without
    // explicit reshuffling.
    emitter.instruction("call __rt_hash_get");
    emitter.instruction("test rax, rax");
    emitter.instruction("jz __rt_gspn_miss_x86");
    // -- second hash_get(sub, "peer_name", 9): sub-hash is already in
    // rdi from the previous call's value_lo return. --
    emitter.instruction("lea rsi, [rip + _ssl_peer_name_key_str]");
    emitter.instruction("mov edx, 9");    // strlen("peer_name")
    emitter.instruction("call __rt_hash_get");    // rax=found, rdi=lo, rsi=hi, rcx=tag
    emitter.instruction("test rax, rax");
    emitter.instruction("jz __rt_gspn_miss_x86");
    emitter.instruction("cmp rcx, 1");    // require string tag
    emitter.instruction("jne __rt_gspn_miss_x86");
    // -- write through the caller's output addresses --
    emitter.instruction("mov r9, QWORD PTR [rbp - 8]");    // out_ptr_addr
    emitter.instruction("mov QWORD PTR [r9], rdi");    // *out_ptr = peer_name ptr (value_lo)
    emitter.instruction("mov r9, QWORD PTR [rbp - 16]");    // out_len_addr
    emitter.instruction("mov QWORD PTR [r9], rsi");    // *out_len = peer_name len (value_hi)
    emitter.instruction("mov eax, 1");
    emitter.instruction("jmp __rt_gspn_done_x86");
    emitter.label("__rt_gspn_miss_x86");
    emitter.instruction("xor eax, eax");
    emitter.label("__rt_gspn_done_x86");
    emitter.instruction("add rsp, 16");
    emitter.instruction("pop rbp");
    emitter.instruction("ret");
}

/// The emitter of this module only appends: the block it adds depends on the target
/// alone, and the listing it was handed stays in front of that block unchanged.
pub proof fn lemma_stream_context_get_ssl_peer_name_emitters_append(out: Seq<Line>, t: Target)
    ensures
        get_ssl_peer_name(out, t) == out + get_ssl_peer_name(Seq::empty(), t),
{
    broadcast use crate::codegen::emit::group_listing;
}

} // verus!
