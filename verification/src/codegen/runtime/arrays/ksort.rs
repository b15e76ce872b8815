//! Purpose:
//! Emits the `__rt_ksort`, `__rt_krsort` runtime helper assembly for ksort.
//! Keeps PHP array/hash storage, heap ownership, and target-specific ABI variants in one focused emitter.
//!
//! Key details:
//! - Sort helpers mutate array payload order in place and must preserve PHP comparison behavior for supported value kinds.

use vstd::prelude::*;
use crate::codegen::emit::{Emitter, Line, ins, global, comment};
use crate::codegen::platform::{Target};

verus! {

/// Appends to `out` the listing that `emit_ksort` emits for target `t`.
pub open spec fn ksort(out: Seq<Line>, t: Target) -> Seq<Line> {
    let out = out
        .push(Line::Blank)
        .push(comment("--- runtime: ksort (sort by keys ascending, no-op for indexed) ---"))
        .push(global("__rt_ksort"))
        .push(ins("ret"))
        .push(Line::Blank)
        .push(comment("--- runtime: krsort (sort by keys descending, no-op for indexed) ---"))
        .push(global("__rt_krsort"))
        .push(ins("ret"));
    out
}

/// ksort / krsort: sort array by keys.
/// For indexed int arrays, elements are already ordered by numeric index,
/// so these are no-ops that return immediately.
pub fn emit_ksort(emitter: &mut Emitter)
    ensures
        final(emitter).target == old(emitter).target,
        final(emitter)@ == ksort(old(emitter)@, old(emitter).target),
{
    emitter.blank();
    emitter.comment("--- runtime: ksort (sort by keys ascending, no-op for indexed) ---");
    emitter.label_global("__rt_ksort");
    // -- indexed arrays are already in key order (0, 1, 2, ...) --
    emitter.instruction("ret");    // return immediately, array unchanged
    emitter.blank();
    emitter.comment("--- runtime: krsort (sort by keys descending, no-op for indexed) ---");
    emitter.label_global("__rt_krsort");
    // -- indexed arrays are already in key order, reverse would need reindexing --
    emitter.instruction("ret");    // return immediately, array unchanged
}

/// The emitter of this module only appends: the block it adds depends on the target
/// alone, and the listing it was handed stays in front of that block unchanged.
pub proof fn lemma_ksort_emitters_append(out: Seq<Line>, t: Target)
    ensures
        ksort(out, t) == out + ksort(Seq::empty(), t),
{
    broadcast use crate::codegen::emit::group_listing;
}

} // verus!
