//! Purpose:
//! Emits the inline locale preparation sequence used before libc regex compilation.
//! It lets POSIX character classes observe the process UTF-8 locale for PCRE property shims.
//!
//! Key details:
//! - `setlocale(LC_CTYPE, "C.UTF-8")` avoids depending on C runtime environment
//!   initialization; the empty locale name remains a fallback for other platforms.

use vstd::prelude::*;
use crate::codegen::abi::{self, symbol_address};
use crate::codegen::emit::{Emitter, Line, ins, ins_int, label, bl_c_line, adrp_line, add_lo12_line};
use crate::codegen::platform::{Arch, Target, spec_lc_ctype};

verus! {

/// Appends to `out` the listing that `emit_prepare_regex_locale` emits for target `t`.
pub open spec fn prepare_regex_locale(out: Seq<Line>, t: Target) -> Seq<Line> {
    let out = match t.arch {
        Arch::AArch64 => {
            let out = out
                .push(ins_int("mov x0, #", spec_lc_ctype(t.platform) as int, ""))
                .push(adrp_line(t.platform, "x1"@, "_locale_utf8_name"@))
                .push(add_lo12_line(t.platform, "x1"@, "x1"@, "_locale_utf8_name"@))
                .push(bl_c_line(t, "setlocale"@))
                .push(ins("cbnz x0, 1f"))
                .push(ins_int("mov x0, #", spec_lc_ctype(t.platform) as int, ""))
                .push(adrp_line(t.platform, "x1"@, "_locale_env_name"@))
                .push(add_lo12_line(t.platform, "x1"@, "x1"@, "_locale_env_name"@))
                .push(bl_c_line(t, "setlocale"@))
                .push(label("1"));
            out
        },
        Arch::X86_64 => {
            let out = out
                .push(ins_int("mov edi, ", spec_lc_ctype(t.platform) as int, ""));
            let out = out + symbol_address(t, "rsi"@, "_locale_utf8_name"@);
            let out = out
                .push(bl_c_line(t, "setlocale"@))
                .push(ins("test rax, rax"))
                .push(ins("jnz 1f"))
                .push(ins_int("mov edi, ", spec_lc_ctype(t.platform) as int, ""));
            let out = out + symbol_address(t, "rsi"@, "_locale_env_name"@);
            let out = out
                .push(bl_c_line(t, "setlocale"@))
                .push(label("1"));
            out
        },
    };
    out
}

pub fn emit_prepare_regex_locale(emitter: &mut Emitter)
    ensures
        final(emitter).target == old(emitter).target,
        final(emitter)@ == prepare_regex_locale(old(emitter)@, old(emitter).target),
{
    match emitter.target.arch {
        Arch::AArch64 => {
            emitter.instruction_int("mov x0, #", emitter.target.platform.lc_ctype(), "");    // select LC_CTYPE so character classes use the environment locale
            emitter.adrp("x1", "_locale_utf8_name");    // load page address of the explicit UTF-8 locale name
            emitter.add_lo12("x1", "x1", "_locale_utf8_name");    // pass C.UTF-8 so startup-free binaries get Unicode classes
            emitter.bl_c("setlocale");    // activate the UTF-8 locale category before compiling regex
            emitter.instruction("cbnz x0, 1f");    // skip fallback when the explicit UTF-8 locale is available
            emitter.instruction_int("mov x0, #", emitter.target.platform.lc_ctype(), "");    // reselect LC_CTYPE for the environment-locale fallback
            emitter.adrp("x1", "_locale_env_name");    // load page address of the empty locale name
            emitter.add_lo12("x1", "x1", "_locale_env_name");    // pass "" so setlocale reads LC_* from the environment
            emitter.bl_c("setlocale");    // try the environment locale when C.UTF-8 is unavailable
            emitter.label("1");
        },
        Arch::X86_64 => {
            emitter.instruction_int("mov edi, ", emitter.target.platform.lc_ctype(), "");    // select LC_CTYPE so character classes use the environment locale
            abi::emit_symbol_address(emitter, "rsi", "_locale_utf8_name");
            emitter.bl_c("setlocale");    // activate the UTF-8 locale category before compiling regex
            emitter.instruction("test rax, rax");    // check whether the explicit UTF-8 locale was accepted
            emitter.instruction("jnz 1f");    // skip fallback when the explicit UTF-8 locale is available
            emitter.instruction_int("mov edi, ", emitter.target.platform.lc_ctype(), "");    // reselect LC_CTYPE for the environment-locale fallback
            abi::emit_symbol_address(emitter, "rsi", "_locale_env_name");
            emitter.bl_c("setlocale");    // try the environment locale when C.UTF-8 is unavailable
            emitter.label("1");
        },
    }
}

/// The emitter of this module only appends: the block it adds depends on the target
/// alone, and the listing it was handed stays in front of that block unchanged.
pub proof fn lemma_regex_locale_emitters_append(out: Seq<Line>, t: Target)
    ensures
        prepare_regex_locale(out, t) == out + prepare_regex_locale(Seq::empty(), t),
{
    broadcast use crate::codegen::emit::group_listing;
}

} // verus!
