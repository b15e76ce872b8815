//! Purpose:
//! Emits fixed JSON literal and escape lookup data for JSON runtime helpers.
//! The data symbols are consumed by encoder and decoder state machines across target emitters.
//!
//! Key details:
//! - Data symbol names are consumed directly by JSON helpers and must not drift from scanner logic.

use vstd::prelude::*;

verus! {

/// The data section text of the JSON literal strings.
pub open spec fn json_data() -> Seq<char> {
    ".globl _json_true\n_json_true:\n    .ascii \"true\"\n"@
        + ".globl _json_false\n_json_false:\n    .ascii \"false\"\n"@
        + ".globl _json_null\n_json_null:\n    .ascii \"null\"\n"@
}

/// Emit JSON string constants for the data section.
pub fn emit_json_data() -> (out: String)
    ensures
        out@ == json_data(),
{
    let mut out = String::new();
    out.append(".globl _json_true\n_json_true:\n    .ascii \"true\"\n");
    out.append(".globl _json_false\n_json_false:\n    .ascii \"false\"\n");
    out.append(".globl _json_null\n_json_null:\n    .ascii \"null\"\n");
    assert(out@ =~= json_data());
    out
}

} // verus!
