//! Purpose:
//! Emits the `__rt_memory_get_usage` / `__rt_memory_get_peak_usage` runtime helpers, which
//! read elephc's always-on heap live-byte and peak-byte counters.
//!
//! Key details:
//! - `_gc_live` / `_gc_peak` are maintained on every `__rt_heap_alloc` / `__rt_heap_free`,
//!   independently of `_heap_debug_enabled` (which only gates free-list VALIDATION), so they
//!   report elephc's real runtime heap footprint — the faithful analogue of PHP's zend-
//!   allocator `memory_get_usage()` / `memory_get_peak_usage()` for status/display use.
//! - Each helper is a leaf load: it reads the counter into the integer result register and
//!   returns, clobbering no callee-saved register and needing no stack frame.

use vstd::prelude::*;
use crate::codegen::abi::{self, load_symbol_to_reg, spec_int_result_reg};
use crate::codegen::emit::{Emitter, Line, ins, global, comment};
use crate::codegen::platform::{Target};

verus! {

/// Appends to `out` the listing that `emit_memory_get_usage` emits for target `t`.
pub open spec fn memory_get_usage(out: Seq<Line>, t: Target) -> Seq<Line> {
    let out = out
        .push(Line::Blank)
        .push(comment("--- runtime: memory_get_usage ---"))
        .push(global("__rt_memory_get_usage"));
    let out = out + load_symbol_to_reg(t, spec_int_result_reg(t.arch), "_gc_live"@, 0);
    let out = out
        .push(ins("ret"));
    out
}

/// Emits `__rt_memory_get_usage`: loads the current heap live-byte counter into the integer
/// result register. Output: x0 (ARM64) / rax (x86_64) = live heap bytes.
pub fn emit_memory_get_usage(emitter: &mut Emitter)
    ensures
        final(emitter).target == old(emitter).target,
        final(emitter)@ == memory_get_usage(old(emitter)@, old(emitter).target),
{
    emitter.blank();
    emitter.comment("--- runtime: memory_get_usage ---");
    emitter.label_global("__rt_memory_get_usage");
    abi::emit_load_symbol_to_int_result(emitter, "_gc_live");
    emitter.instruction("ret");
}

/// Appends to `out` the listing that `emit_memory_get_peak_usage` emits for target `t`.
pub open spec fn memory_get_peak_usage(out: Seq<Line>, t: Target) -> Seq<Line> {
    let out = out
        .push(Line::Blank)
        .push(comment("--- runtime: memory_get_peak_usage ---"))
        .push(global("__rt_memory_get_peak_usage"));
    let out = out + load_symbol_to_reg(t, spec_int_result_reg(t.arch), "_gc_peak"@, 0);
    let out = out
        .push(ins("ret"));
    out
}

/// Emits `__rt_memory_get_peak_usage`: loads the peak heap live-byte high-watermark into the
/// integer result register. Output: x0 (ARM64) / rax (x86_64) = peak heap bytes.
pub fn emit_memory_get_peak_usage(emitter: &mut Emitter)
    ensures
        final(emitter).target == old(emitter).target,
        final(emitter)@ == memory_get_peak_usage(old(emitter)@, old(emitter).target),
{
    emitter.blank();
    emitter.comment("--- runtime: memory_get_peak_usage ---");
    emitter.label_global("__rt_memory_get_peak_usage");
    abi::emit_load_symbol_to_int_result(emitter, "_gc_peak");
    emitter.instruction("ret");
}

/// `memory_get_usage` appends a block that does not depend on the listing before it.
proof fn lemma_memory_get_usage_appends(out: Seq<Line>, t: Target)
    ensures
        memory_get_usage(out, t) == out + memory_get_usage(Seq::empty(), t),
{
    broadcast use crate::codegen::emit::group_listing;
}

/// `memory_get_peak_usage` appends a block that does not depend on the listing before it.
proof fn lemma_memory_get_peak_usage_appends(out: Seq<Line>, t: Target)
    ensures
        memory_get_peak_usage(out, t) == out + memory_get_peak_usage(Seq::empty(), t),
{
    broadcast use crate::codegen::emit::group_listing;
}

/// Each emitter of this module only appends: the block it adds depends on the target
/// alone, and the listing it was handed stays in front of that block unchanged.
pub proof fn lemma_memory_usage_emitters_append(out: Seq<Line>, t: Target)
    ensures
        memory_get_usage(out, t) == out + memory_get_usage(Seq::empty(), t),
        memory_get_peak_usage(out, t) == out + memory_get_peak_usage(Seq::empty(), t),
{
    lemma_memory_get_usage_appends(out, t);
    lemma_memory_get_peak_usage_appends(out, t);
}

} // verus!
