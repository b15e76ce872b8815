//! Purpose:
//! Emits the `__rt_apply_stream_filter` runtime helper, which applies a
//! built-in stream filter to a buffer in place.
//!
//! Key details:
//! - Filter ids: 1 = `string.toupper`, 2 = `string.tolower`, 3 = `string.rot13`,
//!   4 = `string.strip_tags`, 5 = `dechunk`, 6 = `convert.base64-encode`,
//!   7 = `convert.base64-decode`, 8 = `convert.quoted-printable-encode`,
//!   9 = `convert.quoted-printable-decode`; any other id leaves the buffer as it is.
//! - Filters 1-3 are 1:1 byte transforms: the buffer length never changes and the
//!   pointer/length registers come back unchanged.
//! - Filters 4-9 rewrite the buffer in place (the encoders build their output in the
//!   `_stream_grow_scratch` buffer, with the input capped at 49152 bytes, and copy it
//!   back) and return the new length in the length register (`x2` / `rdx`), since
//!   stripping, decoding and encoding change how many bytes the buffer holds; the
//!   pointer register is unchanged.
//! - This is a leaf helper called by `__rt_fread` (read direction) and by the
//!   `fwrite` lowering (write direction).

use vstd::prelude::*;
use crate::codegen::abi::{self, symbol_address};
use crate::codegen::emit::{Emitter, Line, ins, label, global, comment, lemma_append_assoc, lemma_append_empty, lemma_append_push};
use crate::codegen::platform::{Arch, Target};

verus! {

/// Appends to `out` the listing that `emit_apply_stream_filter` emits for target `t`.
pub open spec fn apply_stream_filter(out: Seq<Line>, t: Target) -> Seq<Line> {
    if t.arch == Arch::X86_64 {
        apply_stream_filter_linux_x86_64(out, t)
    } else {
        apply_stream_filter_aarch64(out, t)
    }
}

/// Appends to `out` the AArch64 listing of `emit_apply_stream_filter`.
pub open spec fn apply_stream_filter_aarch64(out: Seq<Line>, t: Target) -> Seq<Line> {
    let out = out
        .push(Line::Blank)
        .push(comment("--- runtime: apply_stream_filter ---"))
        .push(global("__rt_apply_stream_filter"))
        .push(ins("mov x9, #0"))
        .push(label("__rt_asf_loop"))
        .push(ins("cmp x9, x2"))
        .push(ins("b.ge __rt_asf_done"))
        .push(ins("ldrb w10, [x1, x9]"))
        .push(ins("cmp x3, #1"))
        .push(ins("b.eq __rt_asf_upper"))
        .push(ins("cmp x3, #2"))
        .push(ins("b.eq __rt_asf_lower"))
        .push(ins("cmp x3, #3"))
        .push(ins("b.eq __rt_asf_rot13"))
        .push(ins("cmp x3, #4"))
        .push(ins("b.eq __rt_asf_strip_tags"));
    let out = out
        .push(ins("cmp x3, #7"))
        .push(ins("b.eq __rt_asf_b64_decode"))
        .push(ins("cmp x3, #5"))
        .push(ins("b.eq __rt_asf_dechunk"))
        .push(ins("cmp x3, #6"))
        .push(ins("b.eq __rt_asf_b64_encode"))
        .push(ins("cmp x3, #9"))
        .push(ins("b.eq __rt_asf_qp_decode"))
        .push(ins("cmp x3, #8"))
        .push(ins("b.eq __rt_asf_qp_encode"))
        .push(ins("b __rt_asf_next"))
        .push(label("__rt_asf_upper"))
        .push(ins("cmp w10, #0x61"))
        .push(ins("b.lt __rt_asf_next"))
        .push(ins("cmp w10, #0x7A"))
        .push(ins("b.gt __rt_asf_next"));
    let out = out
        .push(ins("sub w10, w10, #0x20"))
        .push(ins("b __rt_asf_store"))
        .push(label("__rt_asf_lower"))
        .push(ins("cmp w10, #0x41"))
        .push(ins("b.lt __rt_asf_next"))
        .push(ins("cmp w10, #0x5A"))
        .push(ins("b.gt __rt_asf_next"))
        .push(ins("add w10, w10, #0x20"))
        .push(ins("b __rt_asf_store"))
        .push(label("__rt_asf_rot13"))
        .push(ins("mov w11, #0x61"))
        .push(ins("cmp w10, #0x61"))
        .push(ins("b.lt __rt_asf_rot13_upper"))
        .push(ins("cmp w10, #0x7A"))
        .push(ins("b.le __rt_asf_rot13_apply"))
        .push(label("__rt_asf_rot13_upper"));
    let out = out
        .push(ins("mov w11, #0x41"))
        .push(ins("cmp w10, #0x41"))
        .push(ins("b.lt __rt_asf_next"))
        .push(ins("cmp w10, #0x5A"))
        .push(ins("b.gt __rt_asf_next"))
        .push(label("__rt_asf_rot13_apply"))
        .push(ins("sub w10, w10, w11"))
        .push(ins("add w10, w10, #13"))
        .push(ins("cmp w10, #26"))
        .push(ins("b.lt __rt_asf_rot13_nowrap"))
        .push(ins("sub w10, w10, #26"))
        .push(label("__rt_asf_rot13_nowrap"))
        .push(ins("add w10, w10, w11"))
        .push(label("__rt_asf_store"))
        .push(ins("strb w10, [x1, x9]"))
        .push(label("__rt_asf_next"));
    let out = out
        .push(ins("add x9, x9, #1"))
        .push(ins("b __rt_asf_loop"))
        .push(label("__rt_asf_done"))
        .push(ins("ret"));
    let out = stream_filter_strip_tags(out, t);
    let out = stream_filter_base64_decode(out, t);
    let out = stream_filter_dechunk(out, t);
    let out = stream_filter_quoted_printable_decode(out, t);
    let out = stream_filter_base64_encode(out, t);
    let out = stream_filter_quoted_printable_encode(out, t);
    out
}

/// apply_stream_filter: transform a buffer in place with a built-in filter.
/// Input:  AArch64 x1 = pointer, x2 = length, x3 = filter id
///         x86_64  rax = pointer, rdx = length, rcx = filter id
/// Output: the buffer is transformed in place; the pointer is preserved, and the
///         length register holds the filtered length (unchanged for ids 1-3).
pub fn emit_apply_stream_filter(emitter: &mut Emitter)
    ensures
        final(emitter).target == old(emitter).target,
        final(emitter)@ == apply_stream_filter(old(emitter)@, old(emitter).target),
{
    if emitter.target.arch == Arch::X86_64 {
        emit_apply_stream_filter_linux_x86_64(emitter);
        return;
    }
    emitter.blank();
    emitter.comment("--- runtime: apply_stream_filter ---");
    emitter.label_global("__rt_apply_stream_filter");
    emitter.instruction("mov x9, #0");    // x9 = current byte index
    emitter.label("__rt_asf_loop");
    emitter.instruction("cmp x9, x2");    // processed every byte?
    emitter.instruction("b.ge __rt_asf_done");    // stop when the buffer is exhausted
    emitter.instruction("ldrb w10, [x1, x9]");    // load the current byte
    emitter.instruction("cmp x3, #1");    // filter id 1 = string.toupper
    emitter.instruction("b.eq __rt_asf_upper");    // dispatch to the uppercase transform
    emitter.instruction("cmp x3, #2");    // filter id 2 = string.tolower
    emitter.instruction("b.eq __rt_asf_lower");    // dispatch to the lowercase transform
    emitter.instruction("cmp x3, #3");    // filter id 3 = string.rot13
    emitter.instruction("b.eq __rt_asf_rot13");    // dispatch to the rot13 transform
    emitter.instruction("cmp x3, #4");    // filter id 4 = string.strip_tags
    emitter.instruction("b.eq __rt_asf_strip_tags");    // dispatch to the strip-tags state machine
    emitter.instruction("cmp x3, #7");    // filter id 7 = convert.base64-decode
    emitter.instruction("b.eq __rt_asf_b64_decode");    // dispatch to the base64-decode state machine
    emitter.instruction("cmp x3, #5");    // filter id 5 = dechunk
    emitter.instruction("b.eq __rt_asf_dechunk");    // dispatch to the HTTP/1.1 chunked-encoding parser
    emitter.instruction("cmp x3, #6");    // filter id 6 = convert.base64-encode
    emitter.instruction("b.eq __rt_asf_b64_encode");    // dispatch to the base64-encode helper
    emitter.instruction("cmp x3, #9");    // filter id 9 = convert.quoted-printable-decode
    emitter.instruction("b.eq __rt_asf_qp_decode");    // dispatch to the QP decoder
    emitter.instruction("cmp x3, #8");    // filter id 8 = convert.quoted-printable-encode
    emitter.instruction("b.eq __rt_asf_qp_encode");    // dispatch to the QP encoder
    emitter.instruction("b __rt_asf_next");    // unknown id: leave the byte unchanged
    emitter.label("__rt_asf_upper");
    emitter.instruction("cmp w10, #0x61");    // below 'a'?
    emitter.instruction("b.lt __rt_asf_next");    // non-letter: leave unchanged
    emitter.instruction("cmp w10, #0x7A");    // above 'z'?
    emitter.instruction("b.gt __rt_asf_next");    // non-letter: leave unchanged
    emitter.instruction("sub w10, w10, #0x20");    // lowercase -> uppercase
    emitter.instruction("b __rt_asf_store");    // store the transformed byte
    emitter.label("__rt_asf_lower");
    emitter.instruction("cmp w10, #0x41");    // below 'A'?
    emitter.instruction("b.lt __rt_asf_next");    // non-letter: leave unchanged
    emitter.instruction("cmp w10, #0x5A");    // above 'Z'?
    emitter.instruction("b.gt __rt_asf_next");    // non-letter: leave unchanged
    emitter.instruction("add w10, w10, #0x20");    // uppercase -> lowercase
    emitter.instruction("b __rt_asf_store");    // store the transformed byte
    emitter.label("__rt_asf_rot13");
    emitter.instruction("mov w11, #0x61");    // assume the lowercase base 'a'
    emitter.instruction("cmp w10, #0x61");    // below 'a'?
    emitter.instruction("b.lt __rt_asf_rot13_upper");    // try the uppercase range instead
    emitter.instruction("cmp w10, #0x7A");    // within 'a'..'z'?
    emitter.instruction("b.le __rt_asf_rot13_apply");    // a lowercase letter: rotate it
    emitter.label("__rt_asf_rot13_upper");
    emitter.instruction("mov w11, #0x41");    // switch to the uppercase base 'A'
    emitter.instruction("cmp w10, #0x41");    // below 'A'?
    emitter.instruction("b.lt __rt_asf_next");    // non-letter: leave unchanged
    emitter.instruction("cmp w10, #0x5A");    // above 'Z'?
    emitter.instruction("b.gt __rt_asf_next");    // non-letter: leave unchanged
    emitter.label("__rt_asf_rot13_apply");
    emitter.instruction("sub w10, w10, w11");    // letter index 0..25
    emitter.instruction("add w10, w10, #13");    // rotate by 13
    emitter.instruction("cmp w10, #26");    // past the end of the alphabet?
    emitter.instruction("b.lt __rt_asf_rot13_nowrap");    // no wrap needed
    emitter.instruction("sub w10, w10, #26");    // wrap back into 0..25
    emitter.label("__rt_asf_rot13_nowrap");
    emitter.instruction("add w10, w10, w11");    // back to an ASCII letter
    emitter.label("__rt_asf_store");
    emitter.instruction("strb w10, [x1, x9]");    // write the transformed byte back
    emitter.label("__rt_asf_next");
    emitter.instruction("add x9, x9, #1");    // advance to the next byte
    emitter.instruction("b __rt_asf_loop");    // continue the transform loop
    emitter.label("__rt_asf_done");
    // x2 already holds the input (and output) length for stateless transforms.
    emitter.instruction("ret");
    emit_stream_filter_strip_tags(emitter);
    emit_stream_filter_base64_decode(emitter);
    emit_stream_filter_dechunk(emitter);
    emit_stream_filter_quoted_printable_decode(emitter);
    emit_stream_filter_base64_encode(emitter);
    emit_stream_filter_quoted_printable_encode(emitter);
}

/// Appends to `out` the listing that `emit_apply_stream_filter_linux_x86_64` emits for target `t`.
pub open spec fn apply_stream_filter_linux_x86_64(out: Seq<Line>, t: Target) -> Seq<Line> {
    let out = out
        .push(Line::Blank)
        .push(comment("--- runtime: apply_stream_filter ---"))
        .push(global("__rt_apply_stream_filter"))
        .push(ins("xor r9, r9"))
        .push(label("__rt_asf_loop_x86"))
        .push(ins("cmp r9, rdx"))
        .push(ins("jge __rt_asf_done_x86"))
        .push(ins("movzx r10d, BYTE PTR [rax + r9]"))
        .push(ins("cmp rcx, 1"))
        .push(ins("je __rt_asf_upper_x86"))
        .push(ins("cmp rcx, 2"))
        .push(ins("je __rt_asf_lower_x86"))
        .push(ins("cmp rcx, 3"))
        .push(ins("je __rt_asf_rot13_x86"))
        .push(ins("cmp rcx, 4"))
        .push(ins("je __rt_asf_strip_tags_x86"));
    let out = out
        .push(ins("cmp rcx, 7"))
        .push(ins("je __rt_asf_b64_decode_x86"))
        .push(ins("cmp rcx, 5"))
        .push(ins("je __rt_asf_dechunk_x86"))
        .push(ins("cmp rcx, 6"))
        .push(ins("je __rt_asf_b64_encode_x86"))
        .push(ins("cmp rcx, 9"))
        .push(ins("je __rt_asf_qp_decode_x86"))
        .push(ins("cmp rcx, 8"))
        .push(ins("je __rt_asf_qp_encode_x86"))
        .push(ins("jmp __rt_asf_next_x86"))
        .push(label("__rt_asf_upper_x86"))
        .push(ins("cmp r10b, 0x61"))
        .push(ins("jl __rt_asf_next_x86"))
        .push(ins("cmp r10b, 0x7A"))
        .push(ins("jg __rt_asf_next_x86"));
    let out = out
        .push(ins("sub r10b, 0x20"))
        .push(ins("jmp __rt_asf_store_x86"))
        .push(label("__rt_asf_lower_x86"))
        .push(ins("cmp r10b, 0x41"))
        .push(ins("jl __rt_asf_next_x86"))
        .push(ins("cmp r10b, 0x5A"))
        .push(ins("jg __rt_asf_next_x86"))
        .push(ins("add r10b, 0x20"))
        .push(ins("jmp __rt_asf_store_x86"))
        .push(label("__rt_asf_rot13_x86"))
        .push(ins("mov r11b, 0x61"))
        .push(ins("cmp r10b, 0x61"))
        .push(ins("jl __rt_asf_rot13_upper_x86"))
        .push(ins("cmp r10b, 0x7A"))
        .push(ins("jle __rt_asf_rot13_apply_x86"))
        .push(label("__rt_asf_rot13_upper_x86"));
    let out = out
        .push(ins("mov r11b, 0x41"))
        .push(ins("cmp r10b, 0x41"))
        .push(ins("jl __rt_asf_next_x86"))
        .push(ins("cmp r10b, 0x5A"))
        .push(ins("jg __rt_asf_next_x86"))
        .push(label("__rt_asf_rot13_apply_x86"))
        .push(ins("sub r10b, r11b"))
        .push(ins("add r10b, 13"))
        .push(ins("cmp r10b, 26"))
        .push(ins("jl __rt_asf_rot13_nowrap_x86"))
        .push(ins("sub r10b, 26"))
        .push(label("__rt_asf_rot13_nowrap_x86"))
        .push(ins("add r10b, r11b"))
        .push(label("__rt_asf_store_x86"))
        .push(ins("mov BYTE PTR [rax + r9], r10b"))
        .push(label("__rt_asf_next_x86"));
    let out = out
        .push(ins("inc r9"))
        .push(ins("jmp __rt_asf_loop_x86"))
        .push(label("__rt_asf_done_x86"))
        .push(ins("ret"));
    let out = stream_filter_strip_tags_x86_64(out, t);
    let out = stream_filter_base64_decode_x86_64(out, t);
    let out = stream_filter_dechunk_x86_64(out, t);
    let out = stream_filter_quoted_printable_decode_x86_64(out, t);
    let out = stream_filter_base64_encode_x86_64(out, t);
    let out = stream_filter_quoted_printable_encode_x86_64(out, t);
    out
}

fn emit_apply_stream_filter_linux_x86_64(emitter: &mut Emitter)
    ensures
        final(emitter).target == old(emitter).target,
        final(emitter)@ == apply_stream_filter_linux_x86_64(old(emitter)@, old(emitter).target),
{
    emitter.blank();
    emitter.comment("--- runtime: apply_stream_filter ---");
    emitter.label_global("__rt_apply_stream_filter");
    emitter.instruction("xor r9, r9");    // r9 = current byte index
    emitter.label("__rt_asf_loop_x86");
    emitter.instruction("cmp r9, rdx");    // processed every byte?
    emitter.instruction("jge __rt_asf_done_x86");    // stop when the buffer is exhausted
    emitter.instruction("movzx r10d, BYTE PTR [rax + r9]");    // load the current byte
    emitter.instruction("cmp rcx, 1");    // filter id 1 = string.toupper
    emitter.instruction("je __rt_asf_upper_x86");    // dispatch to the uppercase transform
    emitter.instruction("cmp rcx, 2");    // filter id 2 = string.tolower
    emitter.instruction("je __rt_asf_lower_x86");    // dispatch to the lowercase transform
    emitter.instruction("cmp rcx, 3");    // filter id 3 = string.rot13
    emitter.instruction("je __rt_asf_rot13_x86");    // dispatch to the rot13 transform
    emitter.instruction("cmp rcx, 4");    // filter id 4 = string.strip_tags
    emitter.instruction("je __rt_asf_strip_tags_x86");    // dispatch to the strip-tags state machine
    emitter.instruction("cmp rcx, 7");    // filter id 7 = convert.base64-decode
    emitter.instruction("je __rt_asf_b64_decode_x86");    // dispatch to the base64-decode state machine
    emitter.instruction("cmp rcx, 5");    // filter id 5 = dechunk
    emitter.instruction("je __rt_asf_dechunk_x86");    // dispatch to the HTTP/1.1 chunked-encoding parser
    emitter.instruction("cmp rcx, 6");    // filter id 6 = convert.base64-encode
    emitter.instruction("je __rt_asf_b64_encode_x86");    // dispatch to the base64-encode helper
    emitter.instruction("cmp rcx, 9");    // filter id 9 = convert.quoted-printable-decode
    emitter.instruction("je __rt_asf_qp_decode_x86");    // dispatch to the QP decoder
    emitter.instruction("cmp rcx, 8");    // filter id 8 = convert.quoted-printable-encode
    emitter.instruction("je __rt_asf_qp_encode_x86");    // dispatch to the QP encoder
    emitter.instruction("jmp __rt_asf_next_x86");    // unknown id: leave the byte unchanged
    emitter.label("__rt_asf_upper_x86");
    emitter.instruction("cmp r10b, 0x61");    // below 'a'?
    emitter.instruction("jl __rt_asf_next_x86");    // non-letter: leave unchanged
    emitter.instruction("cmp r10b, 0x7A");    // above 'z'?
    emitter.instruction("jg __rt_asf_next_x86");    // non-letter: leave unchanged
    emitter.instruction("sub r10b, 0x20");    // lowercase -> uppercase
    emitter.instruction("jmp __rt_asf_store_x86");    // store the transformed byte
    emitter.label("__rt_asf_lower_x86");
    emitter.instruction("cmp r10b, 0x41");    // below 'A'?
    emitter.instruction("jl __rt_asf_next_x86");    // non-letter: leave unchanged
    emitter.instruction("cmp r10b, 0x5A");    // above 'Z'?
    emitter.instruction("jg __rt_asf_next_x86");    // non-letter: leave unchanged
    emitter.instruction("add r10b, 0x20");    // uppercase -> lowercase
    emitter.instruction("jmp __rt_asf_store_x86");    // store the transformed byte
    emitter.label("__rt_asf_rot13_x86");
    emitter.instruction("mov r11b, 0x61");    // assume the lowercase base 'a'
    emitter.instruction("cmp r10b, 0x61");    // below 'a'?
    emitter.instruction("jl __rt_asf_rot13_upper_x86");    // try the uppercase range instead
    emitter.instruction("cmp r10b, 0x7A");    // within 'a'..'z'?
    emitter.instruction("jle __rt_asf_rot13_apply_x86");    // a lowercase letter: rotate it
    emitter.label("__rt_asf_rot13_upper_x86");
    emitter.instruction("mov r11b, 0x41");    // switch to the uppercase base 'A'
    emitter.instruction("cmp r10b, 0x41");    // below 'A'?
    emitter.instruction("jl __rt_asf_next_x86");    // non-letter: leave unchanged
    emitter.instruction("cmp r10b, 0x5A");    // above 'Z'?
    emitter.instruction("jg __rt_asf_next_x86");    // non-letter: leave unchanged
    emitter.label("__rt_asf_rot13_apply_x86");
    emitter.instruction("sub r10b, r11b");    // letter index 0..25
    emitter.instruction("add r10b, 13");    // rotate by 13
    emitter.instruction("cmp r10b, 26");    // past the end of the alphabet?
    emitter.instruction("jl __rt_asf_rot13_nowrap_x86");    // no wrap needed
    emitter.instruction("sub r10b, 26");    // wrap back into 0..25
    emitter.label("__rt_asf_rot13_nowrap_x86");
    emitter.instruction("add r10b, r11b");    // back to an ASCII letter
    emitter.label("__rt_asf_store_x86");
    emitter.instruction("mov BYTE PTR [rax + r9], r10b");    // write the transformed byte back
    emitter.label("__rt_asf_next_x86");
    emitter.instruction("inc r9");    // advance to the next byte
    emitter.instruction("jmp __rt_asf_loop_x86");    // continue the transform loop
    emitter.label("__rt_asf_done_x86");
    // rdx already holds the input (and output) length for stateless transforms.
    emitter.instruction("ret");
    emit_stream_filter_strip_tags_x86_64(emitter);
    emit_stream_filter_base64_decode_x86_64(emitter);
    emit_stream_filter_dechunk_x86_64(emitter);
    emit_stream_filter_quoted_printable_decode_x86_64(emitter);
    emit_stream_filter_base64_encode_x86_64(emitter);
    emit_stream_filter_quoted_printable_encode_x86_64(emitter);
}

/// Appends to `out` the listing that `emit_stream_filter_strip_tags` emits for target `t`.
pub open spec fn stream_filter_strip_tags(out: Seq<Line>, t: Target) -> Seq<Line> {
    let out = out
        .push(label("__rt_asf_strip_tags"))
        .push(ins("mov x5, #0"))
        .push(ins("mov x6, #0"))
        .push(ins("mov x7, #0"))
        .push(label("__rt_asf_strip_loop"))
        .push(ins("cmp x5, x2"))
        .push(ins("b.ge __rt_asf_strip_done"))
        .push(ins("ldrb w8, [x1, x5]"))
        .push(ins("cbnz x7, __rt_asf_strip_in_tag"))
        .push(ins("cmp w8, #60"))
        .push(ins("b.eq __rt_asf_strip_enter"))
        .push(ins("strb w8, [x1, x6]"))
        .push(ins("add x6, x6, #1"))
        .push(ins("b __rt_asf_strip_advance"))
        .push(label("__rt_asf_strip_enter"))
        .push(ins("mov x7, #1"));
    let out = out
        .push(ins("b __rt_asf_strip_advance"))
        .push(label("__rt_asf_strip_in_tag"))
        .push(ins("cmp w8, #62"))
        .push(ins("b.ne __rt_asf_strip_advance"))
        .push(ins("mov x7, #0"))
        .push(label("__rt_asf_strip_advance"))
        .push(ins("add x5, x5, #1"))
        .push(ins("b __rt_asf_strip_loop"))
        .push(label("__rt_asf_strip_done"))
        .push(ins("mov x2, x6"))
        .push(ins("ret"));
    out
}

/// string.strip_tags: state-machine compaction. Output ≤ input;
/// returns the compacted length in x0 so fread/fwrite can use it.
fn emit_stream_filter_strip_tags(emitter: &mut Emitter)
    ensures
        final(emitter).target == old(emitter).target,
        final(emitter)@ == stream_filter_strip_tags(old(emitter)@, old(emitter).target),
{
    emitter.label("__rt_asf_strip_tags");
    emitter.instruction("mov x5, #0");    // read index
    emitter.instruction("mov x6, #0");    // write index
    emitter.instruction("mov x7, #0");    // in_tag flag (0 = outside tag, 1 = inside)
    emitter.label("__rt_asf_strip_loop");
    emitter.instruction("cmp x5, x2");
    emitter.instruction("b.ge __rt_asf_strip_done");
    emitter.instruction("ldrb w8, [x1, x5]");
    emitter.instruction("cbnz x7, __rt_asf_strip_in_tag");
    // not in tag: '<' enters tag; everything else is written.
    emitter.instruction("cmp w8, #60");    // '<'
    emitter.instruction("b.eq __rt_asf_strip_enter");
    emitter.instruction("strb w8, [x1, x6]");    // write byte
    emitter.instruction("add x6, x6, #1");
    emitter.instruction("b __rt_asf_strip_advance");
    emitter.label("__rt_asf_strip_enter");
    emitter.instruction("mov x7, #1");
    emitter.instruction("b __rt_asf_strip_advance");
    emitter.label("__rt_asf_strip_in_tag");
    // inside tag: '>' exits; otherwise skip the byte.
    emitter.instruction("cmp w8, #62");    // '>'
    emitter.instruction("b.ne __rt_asf_strip_advance");
    emitter.instruction("mov x7, #0");
    emitter.label("__rt_asf_strip_advance");
    emitter.instruction("add x5, x5, #1");
    emitter.instruction("b __rt_asf_strip_loop");
    emitter.label("__rt_asf_strip_done");
    emitter.instruction("mov x2, x6");    // return compacted length via the same register fread/fwrite use for length
    emitter.instruction("ret");
}

/// Appends to `out` the listing that `emit_stream_filter_base64_decode` emits for target `t`.
pub open spec fn stream_filter_base64_decode(out: Seq<Line>, t: Target) -> Seq<Line> {
    let out = out
        .push(label("__rt_asf_b64_decode"))
        .push(ins("mov x5, #0"))
        .push(ins("mov x6, #0"))
        .push(ins("mov x7, #0"))
        .push(ins("mov x4, #0"))
        .push(label("__rt_asf_b64_loop"))
        .push(ins("cmp x5, x2"))
        .push(ins("b.ge __rt_asf_b64_done"))
        .push(ins("ldrb w8, [x1, x5]"))
        .push(ins("add x5, x5, #1"))
        .push(ins("cmp w8, #65"))
        .push(ins("b.lt __rt_asf_b64_try_digit"))
        .push(ins("cmp w8, #90"))
        .push(ins("b.gt __rt_asf_b64_try_lower"))
        .push(ins("sub w8, w8, #65"))
        .push(ins("b __rt_asf_b64_add"));
    let out = out
        .push(label("__rt_asf_b64_try_lower"))
        .push(ins("cmp w8, #97"))
        .push(ins("b.lt __rt_asf_b64_try_plus"))
        .push(ins("cmp w8, #122"))
        .push(ins("b.gt __rt_asf_b64_try_plus"))
        .push(ins("sub w8, w8, #71"))
        .push(ins("b __rt_asf_b64_add"))
        .push(label("__rt_asf_b64_try_digit"))
        .push(ins("cmp w8, #48"))
        .push(ins("b.lt __rt_asf_b64_try_plus"))
        .push(ins("cmp w8, #57"))
        .push(ins("b.gt __rt_asf_b64_try_plus"))
        .push(ins("add w8, w8, #4"))
        .push(ins("b __rt_asf_b64_add"))
        .push(label("__rt_asf_b64_try_plus"))
        .push(ins("cmp w8, #43"));
    let out = out
        .push(ins("b.eq __rt_asf_b64_plus"))
        .push(ins("cmp w8, #47"))
        .push(ins("b.eq __rt_asf_b64_slash"))
        .push(ins("b __rt_asf_b64_loop"))
        .push(label("__rt_asf_b64_plus"))
        .push(ins("mov w8, #62"))
        .push(ins("b __rt_asf_b64_add"))
        .push(label("__rt_asf_b64_slash"))
        .push(ins("mov w8, #63"))
        .push(label("__rt_asf_b64_add"))
        .push(ins("lsl x7, x7, #6"))
        .push(ins("orr x7, x7, x8"))
        .push(ins("add x4, x4, #1"))
        .push(ins("cmp x4, #4"))
        .push(ins("b.lt __rt_asf_b64_loop"))
        .push(ins("ubfx w9, w7, #16, #8"));
    let out = out
        .push(ins("strb w9, [x1, x6]"))
        .push(ins("add x6, x6, #1"))
        .push(ins("ubfx w9, w7, #8, #8"))
        .push(ins("strb w9, [x1, x6]"))
        .push(ins("add x6, x6, #1"))
        .push(ins("ubfx w9, w7, #0, #8"))
        .push(ins("strb w9, [x1, x6]"))
        .push(ins("add x6, x6, #1"))
        .push(ins("mov x4, #0"))
        .push(ins("mov x7, #0"))
        .push(ins("b __rt_asf_b64_loop"))
        .push(label("__rt_asf_b64_done"))
        .push(ins("cmp x4, #2"))
        .push(ins("b.lt __rt_asf_b64_finish"))
        .push(ins("cmp x4, #3"))
        .push(ins("b.eq __rt_asf_b64_three"));
    let out = out
        .push(ins("lsl x7, x7, #12"))
        .push(ins("ubfx w9, w7, #16, #8"))
        .push(ins("strb w9, [x1, x6]"))
        .push(ins("add x6, x6, #1"))
        .push(ins("b __rt_asf_b64_finish"))
        .push(label("__rt_asf_b64_three"))
        .push(ins("lsl x7, x7, #6"))
        .push(ins("ubfx w9, w7, #16, #8"))
        .push(ins("strb w9, [x1, x6]"))
        .push(ins("add x6, x6, #1"))
        .push(ins("ubfx w9, w7, #8, #8"))
        .push(ins("strb w9, [x1, x6]"))
        .push(ins("add x6, x6, #1"))
        .push(label("__rt_asf_b64_finish"))
        .push(ins("mov x2, x6"))
        .push(ins("ret"));
    out
}

/// convert.base64-decode: walk 4-char groups, emit 3 bytes each.
/// Non-base64 bytes (whitespace, '=' padding, others) are skipped.
/// Output ≤ input, so in-place compaction is safe.
fn emit_stream_filter_base64_decode(emitter: &mut Emitter)
    ensures
        final(emitter).target == old(emitter).target,
        final(emitter)@ == stream_filter_base64_decode(old(emitter)@, old(emitter).target),
{
    emitter.label("__rt_asf_b64_decode");
    emitter.instruction("mov x5, #0");    // read index
    emitter.instruction("mov x6, #0");    // write index
    emitter.instruction("mov x7, #0");    // 24-bit group accumulator
    emitter.instruction("mov x4, #0");    // chars in current group (0..3)
    emitter.label("__rt_asf_b64_loop");
    emitter.instruction("cmp x5, x2");
    emitter.instruction("b.ge __rt_asf_b64_done");
    emitter.instruction("ldrb w8, [x1, x5]");
    emitter.instruction("add x5, x5, #1");
    // Classify byte → 6-bit value or skip.
    emitter.instruction("cmp w8, #65");    // 'A'
    emitter.instruction("b.lt __rt_asf_b64_try_digit");
    emitter.instruction("cmp w8, #90");    // 'Z'
    emitter.instruction("b.gt __rt_asf_b64_try_lower");
    emitter.instruction("sub w8, w8, #65");    // A..Z → 0..25
    emitter.instruction("b __rt_asf_b64_add");
    emitter.label("__rt_asf_b64_try_lower");
    emitter.instruction("cmp w8, #97");    // 'a'
    emitter.instruction("b.lt __rt_asf_b64_try_plus");
    emitter.instruction("cmp w8, #122");    // 'z'
    emitter.instruction("b.gt __rt_asf_b64_try_plus");
    emitter.instruction("sub w8, w8, #71");    // a..z → 26..51 (97-26)
    emitter.instruction("b __rt_asf_b64_add");
    emitter.label("__rt_asf_b64_try_digit");
    emitter.instruction("cmp w8, #48");    // '0'
    emitter.instruction("b.lt __rt_asf_b64_try_plus");
    emitter.instruction("cmp w8, #57");    // '9'
    emitter.instruction("b.gt __rt_asf_b64_try_plus");
    emitter.instruction("add w8, w8, #4");    // 0..9 → 52..61
    emitter.instruction("b __rt_asf_b64_add");
    emitter.label("__rt_asf_b64_try_plus");
    emitter.instruction("cmp w8, #43");    // '+'
    emitter.instruction("b.eq __rt_asf_b64_plus");
    emitter.instruction("cmp w8, #47");    // '/'
    emitter.instruction("b.eq __rt_asf_b64_slash");
    emitter.instruction("b __rt_asf_b64_loop");    // skip everything else (ws, '=', etc.)
    emitter.label("__rt_asf_b64_plus");
    emitter.instruction("mov w8, #62");
    emitter.instruction("b __rt_asf_b64_add");
    emitter.label("__rt_asf_b64_slash");
    emitter.instruction("mov w8, #63");
    emitter.label("__rt_asf_b64_add");
    emitter.instruction("lsl x7, x7, #6");
    emitter.instruction("orr x7, x7, x8");
    emitter.instruction("add x4, x4, #1");
    emitter.instruction("cmp x4, #4");
    emitter.instruction("b.lt __rt_asf_b64_loop");
    // 24 bits accumulated → emit 3 bytes.
    emitter.instruction("ubfx w9, w7, #16, #8");
    emitter.instruction("strb w9, [x1, x6]");
    emitter.instruction("add x6, x6, #1");
    emitter.instruction("ubfx w9, w7, #8, #8");
    emitter.instruction("strb w9, [x1, x6]");
    emitter.instruction("add x6, x6, #1");
    emitter.instruction("ubfx w9, w7, #0, #8");
    emitter.instruction("strb w9, [x1, x6]");
    emitter.instruction("add x6, x6, #1");
    emitter.instruction("mov x4, #0");
    emitter.instruction("mov x7, #0");
    emitter.instruction("b __rt_asf_b64_loop");
    emitter.label("__rt_asf_b64_done");
    // Handle partial group (2 or 3 chars).
    emitter.instruction("cmp x4, #2");
    emitter.instruction("b.lt __rt_asf_b64_finish");
    emitter.instruction("cmp x4, #3");
    emitter.instruction("b.eq __rt_asf_b64_three");
    // 2 chars: pad with 12 zero bits, emit 1 byte.
    emitter.instruction("lsl x7, x7, #12");
    emitter.instruction("ubfx w9, w7, #16, #8");
    emitter.instruction("strb w9, [x1, x6]");
    emitter.instruction("add x6, x6, #1");
    emitter.instruction("b __rt_asf_b64_finish");
    emitter.label("__rt_asf_b64_three");
    // 3 chars: pad with 6 zero bits, emit 2 bytes.
    emitter.instruction("lsl x7, x7, #6");
    emitter.instruction("ubfx w9, w7, #16, #8");
    emitter.instruction("strb w9, [x1, x6]");
    emitter.instruction("add x6, x6, #1");
    emitter.instruction("ubfx w9, w7, #8, #8");
    emitter.instruction("strb w9, [x1, x6]");
    emitter.instruction("add x6, x6, #1");
    emitter.label("__rt_asf_b64_finish");
    emitter.instruction("mov x2, x6");    // return decoded length
    emitter.instruction("ret");
}

/// Appends to `out` the listing that `emit_stream_filter_dechunk` emits for target `t`.
pub open spec fn stream_filter_dechunk(out: Seq<Line>, t: Target) -> Seq<Line> {
    let out = out
        .push(label("__rt_asf_dechunk"))
        .push(ins("mov x5, #0"))
        .push(ins("mov x6, #0"))
        .push(label("__rt_asf_dechunk_size_loop"))
        .push(ins("mov x7, #0"))
        .push(label("__rt_asf_dechunk_size_read"))
        .push(ins("cmp x5, x2"))
        .push(ins("b.ge __rt_asf_dechunk_done"))
        .push(ins("ldrb w8, [x1, x5]"))
        .push(ins("add x5, x5, #1"))
        .push(ins("cmp w8, #13"))
        .push(ins("b.eq __rt_asf_dechunk_size_eol"))
        .push(ins("cmp w8, #59"))
        .push(ins("b.eq __rt_asf_dechunk_skip_to_eol"))
        .push(ins("cmp w8, #48"))
        .push(ins("b.lt __rt_asf_dechunk_size_read"));
    let out = out
        .push(ins("cmp w8, #57"))
        .push(ins("b.le __rt_asf_dechunk_size_digit"))
        .push(ins("orr w8, w8, #0x20"))
        .push(ins("cmp w8, #97"))
        .push(ins("b.lt __rt_asf_dechunk_size_read"))
        .push(ins("cmp w8, #102"))
        .push(ins("b.gt __rt_asf_dechunk_size_read"))
        .push(ins("sub w8, w8, #87"))
        .push(ins("b __rt_asf_dechunk_size_acc"))
        .push(label("__rt_asf_dechunk_size_digit"))
        .push(ins("sub w8, w8, #48"))
        .push(label("__rt_asf_dechunk_size_acc"))
        .push(ins("lsl x7, x7, #4"))
        .push(ins("orr x7, x7, x8"))
        .push(ins("b __rt_asf_dechunk_size_read"))
        .push(label("__rt_asf_dechunk_skip_to_eol"));
    let out = out
        .push(ins("cmp x5, x2"))
        .push(ins("b.ge __rt_asf_dechunk_done"))
        .push(ins("ldrb w8, [x1, x5]"))
        .push(ins("add x5, x5, #1"))
        .push(ins("cmp w8, #13"))
        .push(ins("b.ne __rt_asf_dechunk_skip_to_eol"))
        .push(label("__rt_asf_dechunk_size_eol"))
        .push(ins("cmp x5, x2"))
        .push(ins("b.ge __rt_asf_dechunk_done"))
        .push(ins("ldrb w8, [x1, x5]"))
        .push(ins("cmp w8, #10"))
        .push(ins("b.ne __rt_asf_dechunk_skip_lf"))
        .push(ins("add x5, x5, #1"))
        .push(label("__rt_asf_dechunk_skip_lf"))
        .push(ins("cbz x7, __rt_asf_dechunk_done"))
        .push(ins("mov x9, #0"));
    let out = out
        .push(label("__rt_asf_dechunk_copy_loop"))
        .push(ins("cmp x9, x7"))
        .push(ins("b.ge __rt_asf_dechunk_copy_done"))
        .push(ins("cmp x5, x2"))
        .push(ins("b.ge __rt_asf_dechunk_done"))
        .push(ins("ldrb w8, [x1, x5]"))
        .push(ins("strb w8, [x1, x6]"))
        .push(ins("add x5, x5, #1"))
        .push(ins("add x6, x6, #1"))
        .push(ins("add x9, x9, #1"))
        .push(ins("b __rt_asf_dechunk_copy_loop"))
        .push(label("__rt_asf_dechunk_copy_done"))
        .push(ins("cmp x5, x2"))
        .push(ins("b.ge __rt_asf_dechunk_size_loop"))
        .push(ins("ldrb w8, [x1, x5]"))
        .push(ins("cmp w8, #13"));
    let out = out
        .push(ins("b.ne __rt_asf_dechunk_size_loop"))
        .push(ins("add x5, x5, #1"))
        .push(ins("cmp x5, x2"))
        .push(ins("b.ge __rt_asf_dechunk_size_loop"))
        .push(ins("ldrb w8, [x1, x5]"))
        .push(ins("cmp w8, #10"))
        .push(ins("b.ne __rt_asf_dechunk_size_loop"))
        .push(ins("add x5, x5, #1"))
        .push(ins("b __rt_asf_dechunk_size_loop"))
        .push(label("__rt_asf_dechunk_done"))
        .push(ins("mov x2, x6"))
        .push(ins("ret"));
    out
}

/// dechunk: parse HTTP/1.1 chunked transfer-encoding inline.
/// Format: <hex_size>\r\n<bytes>\r\n<hex_size>\r\n<bytes>\r\n...0\r\n\r\n
/// Output is the concatenation of all <bytes> chunks, with the
/// size-lines and CRLFs removed. In-place compaction (output ≤
/// input) using read/write cursors.
fn emit_stream_filter_dechunk(emitter: &mut Emitter)
    ensures
        final(emitter).target == old(emitter).target,
        final(emitter)@ == stream_filter_dechunk(old(emitter)@, old(emitter).target),
{
    emitter.label("__rt_asf_dechunk");
    emitter.instruction("mov x5, #0");    // read index
    emitter.instruction("mov x6, #0");    // write index
    emitter.label("__rt_asf_dechunk_size_loop");
    // Parse a hex chunk-size line: accumulate hex digits in x7 until \r\n.
    emitter.instruction("mov x7, #0");    // chunk size accumulator
    emitter.label("__rt_asf_dechunk_size_read");
    emitter.instruction("cmp x5, x2");
    emitter.instruction("b.ge __rt_asf_dechunk_done");
    emitter.instruction("ldrb w8, [x1, x5]");
    emitter.instruction("add x5, x5, #1");
    emitter.instruction("cmp w8, #13");    // '\r'
    emitter.instruction("b.eq __rt_asf_dechunk_size_eol");    // end of size line
    emitter.instruction("cmp w8, #59");    // ';' (chunk extensions)
    emitter.instruction("b.eq __rt_asf_dechunk_skip_to_eol");    // ignore extensions
    // Hex digit?
    emitter.instruction("cmp w8, #48");    // '0'
    emitter.instruction("b.lt __rt_asf_dechunk_size_read");    // skip non-digit
    emitter.instruction("cmp w8, #57");    // '9'
    emitter.instruction("b.le __rt_asf_dechunk_size_digit");
    // letter? case-fold via |0x20.
    emitter.instruction("orr w8, w8, #0x20");
    emitter.instruction("cmp w8, #97");    // 'a'
    emitter.instruction("b.lt __rt_asf_dechunk_size_read");
    emitter.instruction("cmp w8, #102");    // 'f'
    emitter.instruction("b.gt __rt_asf_dechunk_size_read");
    emitter.instruction("sub w8, w8, #87");    // a..f → 10..15 (97-87)
    emitter.instruction("b __rt_asf_dechunk_size_acc");
    emitter.label("__rt_asf_dechunk_size_digit");
    emitter.instruction("sub w8, w8, #48");    // 0..9 → 0..9
    emitter.label("__rt_asf_dechunk_size_acc");
    emitter.instruction("lsl x7, x7, #4");
    emitter.instruction("orr x7, x7, x8");
    emitter.instruction("b __rt_asf_dechunk_size_read");
    emitter.label("__rt_asf_dechunk_skip_to_eol");
    // Skip everything until \r.
    emitter.instruction("cmp x5, x2");
    emitter.instruction("b.ge __rt_asf_dechunk_done");
    emitter.instruction("ldrb w8, [x1, x5]");
    emitter.instruction("add x5, x5, #1");
    emitter.instruction("cmp w8, #13");
    emitter.instruction("b.ne __rt_asf_dechunk_skip_to_eol");
    emitter.label("__rt_asf_dechunk_size_eol");
    // Expect '\n' (LF) after the \r. Skip it if present.
    emitter.instruction("cmp x5, x2");
    emitter.instruction("b.ge __rt_asf_dechunk_done");
    emitter.instruction("ldrb w8, [x1, x5]");
    emitter.instruction("cmp w8, #10");
    emitter.instruction("b.ne __rt_asf_dechunk_skip_lf");
    emitter.instruction("add x5, x5, #1");
    emitter.label("__rt_asf_dechunk_skip_lf");
    // chunk size 0 → end.
    emitter.instruction("cbz x7, __rt_asf_dechunk_done");
    // Copy x7 bytes from [x1+x5] to [x1+x6].
    emitter.instruction("mov x9, #0");
    emitter.label("__rt_asf_dechunk_copy_loop");
    emitter.instruction("cmp x9, x7");
    emitter.instruction("b.ge __rt_asf_dechunk_copy_done");
    emitter.instruction("cmp x5, x2");
    emitter.instruction("b.ge __rt_asf_dechunk_done");
    emitter.instruction("ldrb w8, [x1, x5]");
    emitter.instruction("strb w8, [x1, x6]");
    emitter.instruction("add x5, x5, #1");
    emitter.instruction("add x6, x6, #1");
    emitter.instruction("add x9, x9, #1");
    emitter.instruction("b __rt_asf_dechunk_copy_loop");
    emitter.label("__rt_asf_dechunk_copy_done");
    // Skip trailing \r\n after chunk data.
    emitter.instruction("cmp x5, x2");
    emitter.instruction("b.ge __rt_asf_dechunk_size_loop");
    emitter.instruction("ldrb w8, [x1, x5]");
    emitter.instruction("cmp w8, #13");
    emitter.instruction("b.ne __rt_asf_dechunk_size_loop");
    emitter.instruction("add x5, x5, #1");
    emitter.instruction("cmp x5, x2");
    emitter.instruction("b.ge __rt_asf_dechunk_size_loop");
    emitter.instruction("ldrb w8, [x1, x5]");
    emitter.instruction("cmp w8, #10");
    emitter.instruction("b.ne __rt_asf_dechunk_size_loop");
    emitter.instruction("add x5, x5, #1");
    emitter.instruction("b __rt_asf_dechunk_size_loop");
    emitter.label("__rt_asf_dechunk_done");
    emitter.instruction("mov x2, x6");
    emitter.instruction("ret");
}

/// Appends to `out` the listing that `emit_stream_filter_quoted_printable_decode` emits for target `t`.
pub open spec fn stream_filter_quoted_printable_decode(out: Seq<Line>, t: Target) -> Seq<Line> {
    let out = out
        .push(label("__rt_asf_qp_decode"))
        .push(ins("mov x5, #0"))
        .push(ins("mov x6, #0"))
        .push(label("__rt_asf_qp_loop"))
        .push(ins("cmp x5, x2"))
        .push(ins("b.ge __rt_asf_qp_done"))
        .push(ins("ldrb w8, [x1, x5]"))
        .push(ins("add x5, x5, #1"))
        .push(ins("cmp w8, #61"))
        .push(ins("b.eq __rt_asf_qp_escape"))
        .push(ins("strb w8, [x1, x6]"))
        .push(ins("add x6, x6, #1"))
        .push(ins("b __rt_asf_qp_loop"))
        .push(label("__rt_asf_qp_escape"))
        .push(ins("cmp x5, x2"))
        .push(ins("b.ge __rt_asf_qp_done"));
    let out = out
        .push(ins("ldrb w8, [x1, x5]"))
        .push(ins("cmp w8, #13"))
        .push(ins("b.eq __rt_asf_qp_soft_break"))
        .push(ins("cmp w8, #10"))
        .push(ins("b.eq __rt_asf_qp_soft_break_lf"))
        .push(ins("add x5, x5, #1"))
        .push(ins("mov w9, #-1"))
        .push(ins("cmp w8, #48"))
        .push(ins("b.lt __rt_asf_qp_hi_alpha"))
        .push(ins("cmp w8, #57"))
        .push(ins("b.gt __rt_asf_qp_hi_alpha"))
        .push(ins("sub w9, w8, #48"))
        .push(ins("b __rt_asf_qp_hi_done"))
        .push(label("__rt_asf_qp_hi_alpha"))
        .push(ins("orr w8, w8, #0x20"))
        .push(ins("cmp w8, #97"));
    let out = out
        .push(ins("b.lt __rt_asf_qp_hi_done"))
        .push(ins("cmp w8, #102"))
        .push(ins("b.gt __rt_asf_qp_hi_done"))
        .push(ins("sub w9, w8, #87"))
        .push(label("__rt_asf_qp_hi_done"))
        .push(ins("cmp w9, #0"))
        .push(ins("b.lt __rt_asf_qp_loop"))
        .push(ins("mov w10, w9"))
        .push(ins("cmp x5, x2"))
        .push(ins("b.ge __rt_asf_qp_done"))
        .push(ins("ldrb w8, [x1, x5]"))
        .push(ins("add x5, x5, #1"))
        .push(ins("mov w9, #-1"))
        .push(ins("cmp w8, #48"))
        .push(ins("b.lt __rt_asf_qp_lo_alpha"))
        .push(ins("cmp w8, #57"));
    let out = out
        .push(ins("b.gt __rt_asf_qp_lo_alpha"))
        .push(ins("sub w9, w8, #48"))
        .push(ins("b __rt_asf_qp_lo_done"))
        .push(label("__rt_asf_qp_lo_alpha"))
        .push(ins("orr w8, w8, #0x20"))
        .push(ins("cmp w8, #97"))
        .push(ins("b.lt __rt_asf_qp_lo_done"))
        .push(ins("cmp w8, #102"))
        .push(ins("b.gt __rt_asf_qp_lo_done"))
        .push(ins("sub w9, w8, #87"))
        .push(label("__rt_asf_qp_lo_done"))
        .push(ins("cmp w9, #0"))
        .push(ins("b.lt __rt_asf_qp_loop"))
        .push(ins("lsl w10, w10, #4"))
        .push(ins("orr w10, w10, w9"))
        .push(ins("strb w10, [x1, x6]"));
    let out = out
        .push(ins("add x6, x6, #1"))
        .push(ins("b __rt_asf_qp_loop"))
        .push(label("__rt_asf_qp_soft_break"))
        .push(ins("add x5, x5, #1"))
        .push(ins("cmp x5, x2"))
        .push(ins("b.ge __rt_asf_qp_loop"))
        .push(ins("ldrb w8, [x1, x5]"))
        .push(ins("cmp w8, #10"))
        .push(ins("b.ne __rt_asf_qp_loop"))
        .push(ins("add x5, x5, #1"))
        .push(ins("b __rt_asf_qp_loop"))
        .push(label("__rt_asf_qp_soft_break_lf"))
        .push(ins("add x5, x5, #1"))
        .push(ins("b __rt_asf_qp_loop"))
        .push(label("__rt_asf_qp_done"))
        .push(ins("mov x2, x6"));
    let out = out
        .push(ins("ret"));
    out
}

/// convert.quoted-printable-decode: parses '=XX' hex escapes and
/// soft line breaks ('=\\r?\\n'). Non-escape bytes pass through.
/// Output ≤ input; in-place compaction. Hex classification is
/// inlined (no helper-call to keep x30 intact for the outer ret).
fn emit_stream_filter_quoted_printable_decode(emitter: &mut Emitter)
    ensures
        final(emitter).target == old(emitter).target,
        final(emitter)@ == stream_filter_quoted_printable_decode(old(emitter)@, old(emitter).target),
{
    emitter.label("__rt_asf_qp_decode");
    emitter.instruction("mov x5, #0");    // read index
    emitter.instruction("mov x6, #0");    // write index
    emitter.label("__rt_asf_qp_loop");
    emitter.instruction("cmp x5, x2");
    emitter.instruction("b.ge __rt_asf_qp_done");
    emitter.instruction("ldrb w8, [x1, x5]");
    emitter.instruction("add x5, x5, #1");
    emitter.instruction("cmp w8, #61");    // '='
    emitter.instruction("b.eq __rt_asf_qp_escape");
    emitter.instruction("strb w8, [x1, x6]");
    emitter.instruction("add x6, x6, #1");
    emitter.instruction("b __rt_asf_qp_loop");
    emitter.label("__rt_asf_qp_escape");
    // peek next byte; if \r or \n it's a soft line break.
    emitter.instruction("cmp x5, x2");
    emitter.instruction("b.ge __rt_asf_qp_done");
    emitter.instruction("ldrb w8, [x1, x5]");
    emitter.instruction("cmp w8, #13");    // '\r'
    emitter.instruction("b.eq __rt_asf_qp_soft_break");
    emitter.instruction("cmp w8, #10");    // '\n'
    emitter.instruction("b.eq __rt_asf_qp_soft_break_lf");
    // hex hi nibble (inlined classification, w9 = val or -1).
    emitter.instruction("add x5, x5, #1");
    emitter.instruction("mov w9, #-1");
    emitter.instruction("cmp w8, #48");    // '0'
    emitter.instruction("b.lt __rt_asf_qp_hi_alpha");
    emitter.instruction("cmp w8, #57");    // '9'
    emitter.instruction("b.gt __rt_asf_qp_hi_alpha");
    emitter.instruction("sub w9, w8, #48");
    emitter.instruction("b __rt_asf_qp_hi_done");
    emitter.label("__rt_asf_qp_hi_alpha");
    emitter.instruction("orr w8, w8, #0x20");    // lowercase
    emitter.instruction("cmp w8, #97");    // 'a'
    emitter.instruction("b.lt __rt_asf_qp_hi_done");
    emitter.instruction("cmp w8, #102");    // 'f'
    emitter.instruction("b.gt __rt_asf_qp_hi_done");
    emitter.instruction("sub w9, w8, #87");
    emitter.label("__rt_asf_qp_hi_done");
    emitter.instruction("cmp w9, #0");
    emitter.instruction("b.lt __rt_asf_qp_loop");    // invalid hi → skip
    emitter.instruction("mov w10, w9");    // hi nibble saved
    // hex lo nibble.
    emitter.instruction("cmp x5, x2");
    emitter.instruction("b.ge __rt_asf_qp_done");
    emitter.instruction("ldrb w8, [x1, x5]");
    emitter.instruction("add x5, x5, #1");
    emitter.instruction("mov w9, #-1");
    emitter.instruction("cmp w8, #48");
    emitter.instruction("b.lt __rt_asf_qp_lo_alpha");
    emitter.instruction("cmp w8, #57");
    emitter.instruction("b.gt __rt_asf_qp_lo_alpha");
    emitter.instruction("sub w9, w8, #48");
    emitter.instruction("b __rt_asf_qp_lo_done");
    emitter.label("__rt_asf_qp_lo_alpha");
    emitter.instruction("orr w8, w8, #0x20");
    emitter.instruction("cmp w8, #97");
    emitter.instruction("b.lt __rt_asf_qp_lo_done");
    emitter.instruction("cmp w8, #102");
    emitter.instruction("b.gt __rt_asf_qp_lo_done");
    emitter.instruction("sub w9, w8, #87");
    emitter.label("__rt_asf_qp_lo_done");
    emitter.instruction("cmp w9, #0");
    emitter.instruction("b.lt __rt_asf_qp_loop");    // invalid lo → skip
    emitter.instruction("lsl w10, w10, #4");
    emitter.instruction("orr w10, w10, w9");
    emitter.instruction("strb w10, [x1, x6]");
    emitter.instruction("add x6, x6, #1");
    emitter.instruction("b __rt_asf_qp_loop");
    emitter.label("__rt_asf_qp_soft_break");
    emitter.instruction("add x5, x5, #1");    // skip \r
    emitter.instruction("cmp x5, x2");
    emitter.instruction("b.ge __rt_asf_qp_loop");
    emitter.instruction("ldrb w8, [x1, x5]");
    emitter.instruction("cmp w8, #10");
    emitter.instruction("b.ne __rt_asf_qp_loop");
    emitter.instruction("add x5, x5, #1");    // and \n if present
    emitter.instruction("b __rt_asf_qp_loop");
    emitter.label("__rt_asf_qp_soft_break_lf");
    emitter.instruction("add x5, x5, #1");
    emitter.instruction("b __rt_asf_qp_loop");
    emitter.label("__rt_asf_qp_done");
    emitter.instruction("mov x2, x6");
    emitter.instruction("ret");
}

/// Appends to `out` the listing that `emit_stream_filter_base64_encode` emits for target `t`.
pub open spec fn stream_filter_base64_encode(out: Seq<Line>, t: Target) -> Seq<Line> {
    let out = out
        .push(label("__rt_asf_b64_encode"))
        .push(ins("mov x4, #49152"))
        .push(ins("cmp x2, x4"))
        .push(ins("csel x2, x4, x2, gt"));
    let out = out + symbol_address(t, "x4"@, "_stream_grow_scratch"@);
    let out = out + symbol_address(t, "x15"@, "_b64_encode_tbl"@);
    let out = out
        .push(ins("mov x5, #0"))
        .push(ins("mov x6, #0"))
        .push(label("__rt_asf_b64e_loop"))
        .push(ins("sub x7, x2, x5"))
        .push(ins("cmp x7, #3"))
        .push(ins("b.lt __rt_asf_b64e_rem"))
        .push(ins("ldrb w8, [x1, x5]"))
        .push(ins("add x5, x5, #1"))
        .push(ins("ldrb w9, [x1, x5]"))
        .push(ins("add x5, x5, #1"))
        .push(ins("ldrb w10, [x1, x5]"))
        .push(ins("add x5, x5, #1"))
        .push(ins("lsr w11, w8, #2"))
        .push(ins("ldrb w11, [x15, x11]"))
        .push(ins("strb w11, [x4, x6]"))
        .push(ins("add x6, x6, #1"));
    let out = out
        .push(ins("and w11, w8, #3"))
        .push(ins("lsl w11, w11, #4"))
        .push(ins("lsr w12, w9, #4"))
        .push(ins("orr w11, w11, w12"))
        .push(ins("ldrb w11, [x15, x11]"))
        .push(ins("strb w11, [x4, x6]"))
        .push(ins("add x6, x6, #1"))
        .push(ins("and w11, w9, #15"))
        .push(ins("lsl w11, w11, #2"))
        .push(ins("lsr w12, w10, #6"))
        .push(ins("orr w11, w11, w12"))
        .push(ins("ldrb w11, [x15, x11]"))
        .push(ins("strb w11, [x4, x6]"))
        .push(ins("add x6, x6, #1"))
        .push(ins("and w11, w10, #0x3f"))
        .push(ins("ldrb w11, [x15, x11]"));
    let out = out
        .push(ins("strb w11, [x4, x6]"))
        .push(ins("add x6, x6, #1"))
        .push(ins("b __rt_asf_b64e_loop"))
        .push(label("__rt_asf_b64e_rem"))
        .push(ins("cbz x7, __rt_asf_b64e_copyback"))
        .push(ins("cmp x7, #1"))
        .push(ins("b.eq __rt_asf_b64e_rem1"))
        .push(ins("ldrb w8, [x1, x5]"))
        .push(ins("add x5, x5, #1"))
        .push(ins("ldrb w9, [x1, x5]"))
        .push(ins("add x5, x5, #1"))
        .push(ins("lsr w11, w8, #2"))
        .push(ins("ldrb w11, [x15, x11]"))
        .push(ins("strb w11, [x4, x6]"))
        .push(ins("add x6, x6, #1"))
        .push(ins("and w11, w8, #3"));
    let out = out
        .push(ins("lsl w11, w11, #4"))
        .push(ins("lsr w12, w9, #4"))
        .push(ins("orr w11, w11, w12"))
        .push(ins("ldrb w11, [x15, x11]"))
        .push(ins("strb w11, [x4, x6]"))
        .push(ins("add x6, x6, #1"))
        .push(ins("and w11, w9, #15"))
        .push(ins("lsl w11, w11, #2"))
        .push(ins("ldrb w11, [x15, x11]"))
        .push(ins("strb w11, [x4, x6]"))
        .push(ins("add x6, x6, #1"))
        .push(ins("mov w11, #61"))
        .push(ins("strb w11, [x4, x6]"))
        .push(ins("add x6, x6, #1"))
        .push(ins("b __rt_asf_b64e_copyback"))
        .push(label("__rt_asf_b64e_rem1"));
    let out = out
        .push(ins("ldrb w8, [x1, x5]"))
        .push(ins("add x5, x5, #1"))
        .push(ins("lsr w11, w8, #2"))
        .push(ins("ldrb w11, [x15, x11]"))
        .push(ins("strb w11, [x4, x6]"))
        .push(ins("add x6, x6, #1"))
        .push(ins("and w11, w8, #3"))
        .push(ins("lsl w11, w11, #4"))
        .push(ins("ldrb w11, [x15, x11]"))
        .push(ins("strb w11, [x4, x6]"))
        .push(ins("add x6, x6, #1"))
        .push(ins("mov w11, #61"))
        .push(ins("strb w11, [x4, x6]"))
        .push(ins("add x6, x6, #1"))
        .push(ins("strb w11, [x4, x6]"))
        .push(ins("add x6, x6, #1"));
    let out = out
        .push(label("__rt_asf_b64e_copyback"))
        .push(ins("mov x5, #0"))
        .push(label("__rt_asf_b64e_cb_loop"))
        .push(ins("cmp x5, x6"))
        .push(ins("b.ge __rt_asf_b64e_done"))
        .push(ins("ldrb w11, [x4, x5]"))
        .push(ins("strb w11, [x1, x5]"))
        .push(ins("add x5, x5, #1"))
        .push(ins("b __rt_asf_b64e_cb_loop"))
        .push(label("__rt_asf_b64e_done"))
        .push(ins("mov x2, x6"))
        .push(ins("ret"));
    out
}

/// convert.base64-encode: encode 3-byte groups to 4 base64 chars + '='
/// padding. Output is 4/3 of input; we encode into _stream_grow_scratch
/// and memcpy back. Caps input at 49152 bytes to keep the 65536-byte
/// output inside the scratch.
fn emit_stream_filter_base64_encode(emitter: &mut Emitter)
    ensures
        final(emitter).target == old(emitter).target,
        final(emitter)@ == stream_filter_base64_encode(old(emitter)@, old(emitter).target),
{
    emitter.label("__rt_asf_b64_encode");
    // Cap input length so the encoded output fits the 64KB scratch.
    emitter.instruction("mov x4, #49152");    // 49152 = 64KB * 3/4
    emitter.instruction("cmp x2, x4");
    emitter.instruction("csel x2, x4, x2, gt");    // x2 = MIN(x2, 49152)
    abi::emit_symbol_address(emitter, "x4", "_stream_grow_scratch");
    abi::emit_symbol_address(emitter, "x15", "_b64_encode_tbl");
    emitter.instruction("mov x5, #0");    // read index
    emitter.instruction("mov x6, #0");    // write index
    emitter.label("__rt_asf_b64e_loop");
    emitter.instruction("sub x7, x2, x5");    // bytes remaining
    emitter.instruction("cmp x7, #3");
    emitter.instruction("b.lt __rt_asf_b64e_rem");
    // Read 3 bytes.
    emitter.instruction("ldrb w8, [x1, x5]");    // byte 0
    emitter.instruction("add x5, x5, #1");
    emitter.instruction("ldrb w9, [x1, x5]");    // byte 1
    emitter.instruction("add x5, x5, #1");
    emitter.instruction("ldrb w10, [x1, x5]");    // byte 2
    emitter.instruction("add x5, x5, #1");
    // char 0: byte0 >> 2
    emitter.instruction("lsr w11, w8, #2");
    emitter.instruction("ldrb w11, [x15, x11]");
    emitter.instruction("strb w11, [x4, x6]");
    emitter.instruction("add x6, x6, #1");
    // char 1: ((byte0 & 3) << 4) | (byte1 >> 4)
    emitter.instruction("and w11, w8, #3");
    emitter.instruction("lsl w11, w11, #4");
    emitter.instruction("lsr w12, w9, #4");
    emitter.instruction("orr w11, w11, w12");
    emitter.instruction("ldrb w11, [x15, x11]");
    emitter.instruction("strb w11, [x4, x6]");
    emitter.instruction("add x6, x6, #1");
    // char 2: ((byte1 & 15) << 2) | (byte2 >> 6)
    emitter.instruction("and w11, w9, #15");
    emitter.instruction("lsl w11, w11, #2");
    emitter.instruction("lsr w12, w10, #6");
    emitter.instruction("orr w11, w11, w12");
    emitter.instruction("ldrb w11, [x15, x11]");
    emitter.instruction("strb w11, [x4, x6]");
    emitter.instruction("add x6, x6, #1");
    // char 3: byte2 & 0x3f
    emitter.instruction("and w11, w10, #0x3f");
    emitter.instruction("ldrb w11, [x15, x11]");
    emitter.instruction("strb w11, [x4, x6]");
    emitter.instruction("add x6, x6, #1");
    emitter.instruction("b __rt_asf_b64e_loop");
    emitter.label("__rt_asf_b64e_rem");
    emitter.instruction("cbz x7, __rt_asf_b64e_copyback");
    emitter.instruction("cmp x7, #1");
    emitter.instruction("b.eq __rt_asf_b64e_rem1");
    // 2-byte remainder: 3 chars + 1 padding.
    emitter.instruction("ldrb w8, [x1, x5]");
    emitter.instruction("add x5, x5, #1");
    emitter.instruction("ldrb w9, [x1, x5]");
    emitter.instruction("add x5, x5, #1");
    emitter.instruction("lsr w11, w8, #2");
    emitter.instruction("ldrb w11, [x15, x11]");
    emitter.instruction("strb w11, [x4, x6]");
    emitter.instruction("add x6, x6, #1");
    emitter.instruction("and w11, w8, #3");
    emitter.instruction("lsl w11, w11, #4");
    emitter.instruction("lsr w12, w9, #4");
    emitter.instruction("orr w11, w11, w12");
    emitter.instruction("ldrb w11, [x15, x11]");
    emitter.instruction("strb w11, [x4, x6]");
    emitter.instruction("add x6, x6, #1");
    emitter.instruction("and w11, w9, #15");
    emitter.instruction("lsl w11, w11, #2");
    emitter.instruction("ldrb w11, [x15, x11]");
    emitter.instruction("strb w11, [x4, x6]");
    emitter.instruction("add x6, x6, #1");
    emitter.instruction("mov w11, #61");    // '='
    emitter.instruction("strb w11, [x4, x6]");
    emitter.instruction("add x6, x6, #1");
    emitter.instruction("b __rt_asf_b64e_copyback");
    emitter.label("__rt_asf_b64e_rem1");
    // 1-byte remainder: 2 chars + 2 padding.
    emitter.instruction("ldrb w8, [x1, x5]");
    emitter.instruction("add x5, x5, #1");
    emitter.instruction("lsr w11, w8, #2");
    emitter.instruction("ldrb w11, [x15, x11]");
    emitter.instruction("strb w11, [x4, x6]");
    emitter.instruction("add x6, x6, #1");
    emitter.instruction("and w11, w8, #3");
    emitter.instruction("lsl w11, w11, #4");
    emitter.instruction("ldrb w11, [x15, x11]");
    emitter.instruction("strb w11, [x4, x6]");
    emitter.instruction("add x6, x6, #1");
    emitter.instruction("mov w11, #61");    // '='
    emitter.instruction("strb w11, [x4, x6]");
    emitter.instruction("add x6, x6, #1");
    emitter.instruction("strb w11, [x4, x6]");
    emitter.instruction("add x6, x6, #1");
    emitter.label("__rt_asf_b64e_copyback");
    // memcpy scratch[0..x6] back into x1.
    emitter.instruction("mov x5, #0");
    emitter.label("__rt_asf_b64e_cb_loop");
    emitter.instruction("cmp x5, x6");
    emitter.instruction("b.ge __rt_asf_b64e_done");
    emitter.instruction("ldrb w11, [x4, x5]");
    emitter.instruction("strb w11, [x1, x5]");
    emitter.instruction("add x5, x5, #1");
    emitter.instruction("b __rt_asf_b64e_cb_loop");
    emitter.label("__rt_asf_b64e_done");
    emitter.instruction("mov x2, x6");    // return encoded length
    emitter.instruction("ret");
}

/// Appends to `out` the listing that `emit_stream_filter_quoted_printable_encode` emits for target `t`.
pub open spec fn stream_filter_quoted_printable_encode(out: Seq<Line>, t: Target) -> Seq<Line> {
    let out = out
        .push(label("__rt_asf_qp_encode"))
        .push(ins("mov x4, #21845"))
        .push(ins("cmp x2, x4"))
        .push(ins("csel x2, x4, x2, gt"));
    let out = out + symbol_address(t, "x4"@, "_stream_grow_scratch"@);
    let out = out + symbol_address(t, "x15"@, "_b64_encode_tbl"@);
    let out = out
        .push(ins("mov x5, #0"))
        .push(ins("mov x6, #0"))
        .push(label("__rt_asf_qpe_loop"))
        .push(ins("cmp x5, x2"))
        .push(ins("b.ge __rt_asf_qpe_copyback"))
        .push(ins("ldrb w8, [x1, x5]"))
        .push(ins("add x5, x5, #1"))
        .push(ins("cmp w8, #33"))
        .push(ins("b.lt __rt_asf_qpe_escape"))
        .push(ins("cmp w8, #126"))
        .push(ins("b.gt __rt_asf_qpe_escape"))
        .push(ins("cmp w8, #61"))
        .push(ins("b.eq __rt_asf_qpe_escape"))
        .push(ins("strb w8, [x4, x6]"))
        .push(ins("add x6, x6, #1"))
        .push(ins("b __rt_asf_qpe_loop"));
    let out = out
        .push(label("__rt_asf_qpe_escape"))
        .push(ins("mov w9, #61"))
        .push(ins("strb w9, [x4, x6]"))
        .push(ins("add x6, x6, #1"))
        .push(ins("lsr w9, w8, #4"))
        .push(ins("and w9, w9, #0xF"))
        .push(ins("cmp w9, #10"))
        .push(ins("b.lt __rt_asf_qpe_hi_dig"))
        .push(ins("add w9, w9, #55"))
        .push(ins("b __rt_asf_qpe_hi_write"))
        .push(label("__rt_asf_qpe_hi_dig"))
        .push(ins("add w9, w9, #48"))
        .push(label("__rt_asf_qpe_hi_write"))
        .push(ins("strb w9, [x4, x6]"))
        .push(ins("add x6, x6, #1"))
        .push(ins("and w9, w8, #0xF"));
    let out = out
        .push(ins("cmp w9, #10"))
        .push(ins("b.lt __rt_asf_qpe_lo_dig"))
        .push(ins("add w9, w9, #55"))
        .push(ins("b __rt_asf_qpe_lo_write"))
        .push(label("__rt_asf_qpe_lo_dig"))
        .push(ins("add w9, w9, #48"))
        .push(label("__rt_asf_qpe_lo_write"))
        .push(ins("strb w9, [x4, x6]"))
        .push(ins("add x6, x6, #1"))
        .push(ins("b __rt_asf_qpe_loop"))
        .push(label("__rt_asf_qpe_copyback"))
        .push(ins("mov x5, #0"))
        .push(label("__rt_asf_qpe_cb_loop"))
        .push(ins("cmp x5, x6"))
        .push(ins("b.ge __rt_asf_qpe_done"))
        .push(ins("ldrb w11, [x4, x5]"));
    let out = out
        .push(ins("strb w11, [x1, x5]"))
        .push(ins("add x5, x5, #1"))
        .push(ins("b __rt_asf_qpe_cb_loop"))
        .push(label("__rt_asf_qpe_done"))
        .push(ins("mov x2, x6"))
        .push(ins("ret"));
    out
}

/// convert.quoted-printable-encode: bytes outside 33..126 (and '=' itself)
/// become '=XX' hex escapes. Encodes into _stream_grow_scratch and memcpy
/// back. Caps input at 21845 bytes (worst case = 3x growth) so output
/// fits 65536.
fn emit_stream_filter_quoted_printable_encode(emitter: &mut Emitter)
    ensures
        final(emitter).target == old(emitter).target,
        final(emitter)@ == stream_filter_quoted_printable_encode(old(emitter)@, old(emitter).target),
{
    emitter.label("__rt_asf_qp_encode");
    emitter.instruction("mov x4, #21845");    // ~64KB/3 worst-case cap
    emitter.instruction("cmp x2, x4");
    emitter.instruction("csel x2, x4, x2, gt");    // x2 = MIN(x2, 21845)
    abi::emit_symbol_address(emitter, "x4", "_stream_grow_scratch");
    abi::emit_symbol_address(emitter, "x15", "_b64_encode_tbl");
    // hex table is just '0'..'9','A'..'F' so build inline instead.
    emitter.instruction("mov x5, #0");    // read index
    emitter.instruction("mov x6, #0");    // write index
    emitter.label("__rt_asf_qpe_loop");
    emitter.instruction("cmp x5, x2");
    emitter.instruction("b.ge __rt_asf_qpe_copyback");
    emitter.instruction("ldrb w8, [x1, x5]");
    emitter.instruction("add x5, x5, #1");
    // Pass-through printable ASCII (33..60, 62..126) directly.
    emitter.instruction("cmp w8, #33");
    emitter.instruction("b.lt __rt_asf_qpe_escape");
    emitter.instruction("cmp w8, #126");
    emitter.instruction("b.gt __rt_asf_qpe_escape");
    emitter.instruction("cmp w8, #61");    // '=' must be escaped
    emitter.instruction("b.eq __rt_asf_qpe_escape");
    emitter.instruction("strb w8, [x4, x6]");
    emitter.instruction("add x6, x6, #1");
    emitter.instruction("b __rt_asf_qpe_loop");
    emitter.label("__rt_asf_qpe_escape");
    // Emit '=' then two hex digits.
    emitter.instruction("mov w9, #61");    // '='
    emitter.instruction("strb w9, [x4, x6]");
    emitter.instruction("add x6, x6, #1");
    // High nibble.
    emitter.instruction("lsr w9, w8, #4");
    emitter.instruction("and w9, w9, #0xF");
    emitter.instruction("cmp w9, #10");
    emitter.instruction("b.lt __rt_asf_qpe_hi_dig");
    emitter.instruction("add w9, w9, #55");    // 10 → 'A' (10+55=65)
    emitter.instruction("b __rt_asf_qpe_hi_write");
    emitter.label("__rt_asf_qpe_hi_dig");
    emitter.instruction("add w9, w9, #48");    // 0 → '0'
    emitter.label("__rt_asf_qpe_hi_write");
    emitter.instruction("strb w9, [x4, x6]");
    emitter.instruction("add x6, x6, #1");
    // Low nibble.
    emitter.instruction("and w9, w8, #0xF");
    emitter.instruction("cmp w9, #10");
    emitter.instruction("b.lt __rt_asf_qpe_lo_dig");
    emitter.instruction("add w9, w9, #55");
    emitter.instruction("b __rt_asf_qpe_lo_write");
    emitter.label("__rt_asf_qpe_lo_dig");
    emitter.instruction("add w9, w9, #48");
    emitter.label("__rt_asf_qpe_lo_write");
    emitter.instruction("strb w9, [x4, x6]");
    emitter.instruction("add x6, x6, #1");
    emitter.instruction("b __rt_asf_qpe_loop");
    emitter.label("__rt_asf_qpe_copyback");
    emitter.instruction("mov x5, #0");
    emitter.label("__rt_asf_qpe_cb_loop");
    emitter.instruction("cmp x5, x6");
    emitter.instruction("b.ge __rt_asf_qpe_done");
    emitter.instruction("ldrb w11, [x4, x5]");
    emitter.instruction("strb w11, [x1, x5]");
    emitter.instruction("add x5, x5, #1");
    emitter.instruction("b __rt_asf_qpe_cb_loop");
    emitter.label("__rt_asf_qpe_done");
    emitter.instruction("mov x2, x6");    // return encoded length
    emitter.instruction("ret");
}

/// Appends to `out` the listing that `emit_stream_filter_strip_tags_x86_64` emits for target `t`.
pub open spec fn stream_filter_strip_tags_x86_64(out: Seq<Line>, t: Target) -> Seq<Line> {
    let out = out
        .push(label("__rt_asf_strip_tags_x86"))
        .push(ins("xor r9, r9"))
        .push(ins("xor r10, r10"))
        .push(ins("xor r11, r11"))
        .push(label("__rt_asf_strip_loop_x86"))
        .push(ins("cmp r9, rdx"))
        .push(ins("jge __rt_asf_strip_done_x86"))
        .push(ins("movzx r8d, BYTE PTR [rax + r9]"))
        .push(ins("test r11, r11"))
        .push(ins("jnz __rt_asf_strip_in_tag_x86"))
        .push(ins("cmp r8b, 60"))
        .push(ins("je __rt_asf_strip_enter_x86"))
        .push(ins("mov BYTE PTR [rax + r10], r8b"))
        .push(ins("inc r10"))
        .push(ins("jmp __rt_asf_strip_advance_x86"))
        .push(label("__rt_asf_strip_enter_x86"));
    let out = out
        .push(ins("mov r11, 1"))
        .push(ins("jmp __rt_asf_strip_advance_x86"))
        .push(label("__rt_asf_strip_in_tag_x86"))
        .push(ins("cmp r8b, 62"))
        .push(ins("jne __rt_asf_strip_advance_x86"))
        .push(ins("xor r11, r11"))
        .push(label("__rt_asf_strip_advance_x86"))
        .push(ins("inc r9"))
        .push(ins("jmp __rt_asf_strip_loop_x86"))
        .push(label("__rt_asf_strip_done_x86"))
        .push(ins("mov rdx, r10"))
        .push(ins("ret"));
    out
}

/// string.strip_tags: state-machine compaction.
fn emit_stream_filter_strip_tags_x86_64(emitter: &mut Emitter)
    ensures
        final(emitter).target == old(emitter).target,
        final(emitter)@ == stream_filter_strip_tags_x86_64(old(emitter)@, old(emitter).target),
{
    emitter.label("__rt_asf_strip_tags_x86");
    emitter.instruction("xor r9, r9");    // read index
    emitter.instruction("xor r10, r10");    // write index
    emitter.instruction("xor r11, r11");    // in_tag flag
    emitter.label("__rt_asf_strip_loop_x86");
    emitter.instruction("cmp r9, rdx");
    emitter.instruction("jge __rt_asf_strip_done_x86");
    emitter.instruction("movzx r8d, BYTE PTR [rax + r9]");
    emitter.instruction("test r11, r11");
    emitter.instruction("jnz __rt_asf_strip_in_tag_x86");
    emitter.instruction("cmp r8b, 60");    // '<'
    emitter.instruction("je __rt_asf_strip_enter_x86");
    emitter.instruction("mov BYTE PTR [rax + r10], r8b");
    emitter.instruction("inc r10");
    emitter.instruction("jmp __rt_asf_strip_advance_x86");
    emitter.label("__rt_asf_strip_enter_x86");
    emitter.instruction("mov r11, 1");
    emitter.instruction("jmp __rt_asf_strip_advance_x86");
    emitter.label("__rt_asf_strip_in_tag_x86");
    emitter.instruction("cmp r8b, 62");    // '>'
    emitter.instruction("jne __rt_asf_strip_advance_x86");
    emitter.instruction("xor r11, r11");
    emitter.label("__rt_asf_strip_advance_x86");
    emitter.instruction("inc r9");
    emitter.instruction("jmp __rt_asf_strip_loop_x86");
    emitter.label("__rt_asf_strip_done_x86");
    emitter.instruction("mov rdx, r10");    // return compacted length via the same register fread/fwrite use for length
    emitter.instruction("ret");
}

/// Appends to `out` the listing that `emit_stream_filter_base64_decode_x86_64` emits for target `t`.
pub open spec fn stream_filter_base64_decode_x86_64(out: Seq<Line>, t: Target) -> Seq<Line> {
    let out = out
        .push(label("__rt_asf_b64_decode_x86"))
        .push(ins("xor r9, r9"))
        .push(ins("xor r10, r10"))
        .push(ins("xor r11, r11"))
        .push(ins("xor r12, r12"))
        .push(label("__rt_asf_b64_loop_x86"))
        .push(ins("cmp r9, rdx"))
        .push(ins("jge __rt_asf_b64_done_x86"))
        .push(ins("movzx r8d, BYTE PTR [rax + r9]"))
        .push(ins("inc r9"))
        .push(ins("cmp r8b, 65"))
        .push(ins("jl __rt_asf_b64_try_digit_x86"))
        .push(ins("cmp r8b, 90"))
        .push(ins("jg __rt_asf_b64_try_lower_x86"))
        .push(ins("sub r8b, 65"))
        .push(ins("jmp __rt_asf_b64_add_x86"));
    let out = out
        .push(label("__rt_asf_b64_try_lower_x86"))
        .push(ins("cmp r8b, 97"))
        .push(ins("jl __rt_asf_b64_try_plus_x86"))
        .push(ins("cmp r8b, 122"))
        .push(ins("jg __rt_asf_b64_try_plus_x86"))
        .push(ins("sub r8b, 71"))
        .push(ins("jmp __rt_asf_b64_add_x86"))
        .push(label("__rt_asf_b64_try_digit_x86"))
        .push(ins("cmp r8b, 48"))
        .push(ins("jl __rt_asf_b64_try_plus_x86"))
        .push(ins("cmp r8b, 57"))
        .push(ins("jg __rt_asf_b64_try_plus_x86"))
        .push(ins("add r8b, 4"))
        .push(ins("jmp __rt_asf_b64_add_x86"))
        .push(label("__rt_asf_b64_try_plus_x86"))
        .push(ins("cmp r8b, 43"));
    let out = out
        .push(ins("je __rt_asf_b64_plus_x86"))
        .push(ins("cmp r8b, 47"))
        .push(ins("je __rt_asf_b64_slash_x86"))
        .push(ins("jmp __rt_asf_b64_loop_x86"))
        .push(label("__rt_asf_b64_plus_x86"))
        .push(ins("mov r8b, 62"))
        .push(ins("jmp __rt_asf_b64_add_x86"))
        .push(label("__rt_asf_b64_slash_x86"))
        .push(ins("mov r8b, 63"))
        .push(label("__rt_asf_b64_add_x86"))
        .push(ins("shl r11, 6"))
        .push(ins("movzx r8, r8b"))
        .push(ins("or r11, r8"))
        .push(ins("inc r12"))
        .push(ins("cmp r12, 4"))
        .push(ins("jl __rt_asf_b64_loop_x86"));
    let out = out
        .push(ins("mov r13, r11"))
        .push(ins("shr r13, 16"))
        .push(ins("mov BYTE PTR [rax + r10], r13b"))
        .push(ins("inc r10"))
        .push(ins("mov r13, r11"))
        .push(ins("shr r13, 8"))
        .push(ins("mov BYTE PTR [rax + r10], r13b"))
        .push(ins("inc r10"))
        .push(ins("mov BYTE PTR [rax + r10], r11b"))
        .push(ins("inc r10"))
        .push(ins("xor r11, r11"))
        .push(ins("xor r12, r12"))
        .push(ins("jmp __rt_asf_b64_loop_x86"))
        .push(label("__rt_asf_b64_done_x86"))
        .push(ins("cmp r12, 2"))
        .push(ins("jl __rt_asf_b64_finish_x86"));
    let out = out
        .push(ins("cmp r12, 3"))
        .push(ins("je __rt_asf_b64_three_x86"))
        .push(ins("shl r11, 12"))
        .push(ins("mov r13, r11"))
        .push(ins("shr r13, 16"))
        .push(ins("mov BYTE PTR [rax + r10], r13b"))
        .push(ins("inc r10"))
        .push(ins("jmp __rt_asf_b64_finish_x86"))
        .push(label("__rt_asf_b64_three_x86"))
        .push(ins("shl r11, 6"))
        .push(ins("mov r13, r11"))
        .push(ins("shr r13, 16"))
        .push(ins("mov BYTE PTR [rax + r10], r13b"))
        .push(ins("inc r10"))
        .push(ins("mov r13, r11"))
        .push(ins("shr r13, 8"));
    let out = out
        .push(ins("mov BYTE PTR [rax + r10], r13b"))
        .push(ins("inc r10"))
        .push(label("__rt_asf_b64_finish_x86"))
        .push(ins("mov rdx, r10"))
        .push(ins("ret"));
    out
}

/// convert.base64-decode (x86_64)
fn emit_stream_filter_base64_decode_x86_64(emitter: &mut Emitter)
    ensures
        final(emitter).target == old(emitter).target,
        final(emitter)@ == stream_filter_base64_decode_x86_64(old(emitter)@, old(emitter).target),
{
    emitter.label("__rt_asf_b64_decode_x86");
    emitter.instruction("xor r9, r9");    // read index
    emitter.instruction("xor r10, r10");    // write index
    emitter.instruction("xor r11, r11");    // 24-bit accumulator
    emitter.instruction("xor r12, r12");    // chars in group
    emitter.label("__rt_asf_b64_loop_x86");
    emitter.instruction("cmp r9, rdx");
    emitter.instruction("jge __rt_asf_b64_done_x86");
    emitter.instruction("movzx r8d, BYTE PTR [rax + r9]");
    emitter.instruction("inc r9");
    emitter.instruction("cmp r8b, 65");    // 'A'
    emitter.instruction("jl __rt_asf_b64_try_digit_x86");
    emitter.instruction("cmp r8b, 90");    // 'Z'
    emitter.instruction("jg __rt_asf_b64_try_lower_x86");
    emitter.instruction("sub r8b, 65");
    emitter.instruction("jmp __rt_asf_b64_add_x86");
    emitter.label("__rt_asf_b64_try_lower_x86");
    emitter.instruction("cmp r8b, 97");
    emitter.instruction("jl __rt_asf_b64_try_plus_x86");
    emitter.instruction("cmp r8b, 122");
    emitter.instruction("jg __rt_asf_b64_try_plus_x86");
    emitter.instruction("sub r8b, 71");
    emitter.instruction("jmp __rt_asf_b64_add_x86");
    emitter.label("__rt_asf_b64_try_digit_x86");
    emitter.instruction("cmp r8b, 48");
    emitter.instruction("jl __rt_asf_b64_try_plus_x86");
    emitter.instruction("cmp r8b, 57");
    emitter.instruction("jg __rt_asf_b64_try_plus_x86");
    emitter.instruction("add r8b, 4");
    emitter.instruction("jmp __rt_asf_b64_add_x86");
    emitter.label("__rt_asf_b64_try_plus_x86");
    emitter.instruction("cmp r8b, 43");
    emitter.instruction("je __rt_asf_b64_plus_x86");
    emitter.instruction("cmp r8b, 47");
    emitter.instruction("je __rt_asf_b64_slash_x86");
    emitter.instruction("jmp __rt_asf_b64_loop_x86");    // skip non-base64
    emitter.label("__rt_asf_b64_plus_x86");
    emitter.instruction("mov r8b, 62");
    emitter.instruction("jmp __rt_asf_b64_add_x86");
    emitter.label("__rt_asf_b64_slash_x86");
    emitter.instruction("mov r8b, 63");
    emitter.label("__rt_asf_b64_add_x86");
    emitter.instruction("shl r11, 6");
    emitter.instruction("movzx r8, r8b");
    emitter.instruction("or r11, r8");
    emitter.instruction("inc r12");
    emitter.instruction("cmp r12, 4");
    emitter.instruction("jl __rt_asf_b64_loop_x86");
    // Emit 3 bytes.
    emitter.instruction("mov r13, r11");
    emitter.instruction("shr r13, 16");
    emitter.instruction("mov BYTE PTR [rax + r10], r13b");
    emitter.instruction("inc r10");
    emitter.instruction("mov r13, r11");
    emitter.instruction("shr r13, 8");
    emitter.instruction("mov BYTE PTR [rax + r10], r13b");
    emitter.instruction("inc r10");
    emitter.instruction("mov BYTE PTR [rax + r10], r11b");
    emitter.instruction("inc r10");
    emitter.instruction("xor r11, r11");
    emitter.instruction("xor r12, r12");
    emitter.instruction("jmp __rt_asf_b64_loop_x86");
    emitter.label("__rt_asf_b64_done_x86");
    // Partial group handling.
    emitter.instruction("cmp r12, 2");
    emitter.instruction("jl __rt_asf_b64_finish_x86");
    emitter.instruction("cmp r12, 3");
    emitter.instruction("je __rt_asf_b64_three_x86");
    // 2 chars.
    emitter.instruction("shl r11, 12");
    emitter.instruction("mov r13, r11");
    emitter.instruction("shr r13, 16");
    emitter.instruction("mov BYTE PTR [rax + r10], r13b");
    emitter.instruction("inc r10");
    emitter.instruction("jmp __rt_asf_b64_finish_x86");
    emitter.label("__rt_asf_b64_three_x86");
    emitter.instruction("shl r11, 6");
    emitter.instruction("mov r13, r11");
    emitter.instruction("shr r13, 16");
    emitter.instruction("mov BYTE PTR [rax + r10], r13b");
    emitter.instruction("inc r10");
    emitter.instruction("mov r13, r11");
    emitter.instruction("shr r13, 8");
    emitter.instruction("mov BYTE PTR [rax + r10], r13b");
    emitter.instruction("inc r10");
    emitter.label("__rt_asf_b64_finish_x86");
    emitter.instruction("mov rdx, r10");
    emitter.instruction("ret");
}

/// Appends to `out` the listing that `emit_stream_filter_dechunk_x86_64` emits for target `t`.
pub open spec fn stream_filter_dechunk_x86_64(out: Seq<Line>, t: Target) -> Seq<Line> {
    let out = out
        .push(label("__rt_asf_dechunk_x86"))
        .push(ins("xor r9, r9"))
        .push(ins("xor r10, r10"))
        .push(label("__rt_asf_dc_size_loop_x86"))
        .push(ins("xor r11, r11"))
        .push(label("__rt_asf_dc_size_read_x86"))
        .push(ins("cmp r9, rdx"))
        .push(ins("jge __rt_asf_dc_done_x86"))
        .push(ins("movzx r8d, BYTE PTR [rax + r9]"))
        .push(ins("inc r9"))
        .push(ins("cmp r8b, 13"))
        .push(ins("je __rt_asf_dc_size_eol_x86"))
        .push(ins("cmp r8b, 59"))
        .push(ins("je __rt_asf_dc_skip_eol_x86"))
        .push(ins("cmp r8b, 48"))
        .push(ins("jl __rt_asf_dc_size_read_x86"));
    let out = out
        .push(ins("cmp r8b, 57"))
        .push(ins("jle __rt_asf_dc_size_digit_x86"))
        .push(ins("or r8b, 0x20"))
        .push(ins("cmp r8b, 97"))
        .push(ins("jl __rt_asf_dc_size_read_x86"))
        .push(ins("cmp r8b, 102"))
        .push(ins("jg __rt_asf_dc_size_read_x86"))
        .push(ins("sub r8b, 87"))
        .push(ins("jmp __rt_asf_dc_size_acc_x86"))
        .push(label("__rt_asf_dc_size_digit_x86"))
        .push(ins("sub r8b, 48"))
        .push(label("__rt_asf_dc_size_acc_x86"))
        .push(ins("shl r11, 4"))
        .push(ins("movzx r8, r8b"))
        .push(ins("or r11, r8"))
        .push(ins("jmp __rt_asf_dc_size_read_x86"));
    let out = out
        .push(label("__rt_asf_dc_skip_eol_x86"))
        .push(ins("cmp r9, rdx"))
        .push(ins("jge __rt_asf_dc_done_x86"))
        .push(ins("movzx r8d, BYTE PTR [rax + r9]"))
        .push(ins("inc r9"))
        .push(ins("cmp r8b, 13"))
        .push(ins("jne __rt_asf_dc_skip_eol_x86"))
        .push(label("__rt_asf_dc_size_eol_x86"))
        .push(ins("cmp r9, rdx"))
        .push(ins("jge __rt_asf_dc_done_x86"))
        .push(ins("movzx r8d, BYTE PTR [rax + r9]"))
        .push(ins("cmp r8b, 10"))
        .push(ins("jne __rt_asf_dc_skip_lf_x86"))
        .push(ins("inc r9"))
        .push(label("__rt_asf_dc_skip_lf_x86"))
        .push(ins("test r11, r11"));
    let out = out
        .push(ins("jz __rt_asf_dc_done_x86"))
        .push(ins("xor r12, r12"))
        .push(label("__rt_asf_dc_copy_loop_x86"))
        .push(ins("cmp r12, r11"))
        .push(ins("jge __rt_asf_dc_copy_done_x86"))
        .push(ins("cmp r9, rdx"))
        .push(ins("jge __rt_asf_dc_done_x86"))
        .push(ins("movzx r8d, BYTE PTR [rax + r9]"))
        .push(ins("mov BYTE PTR [rax + r10], r8b"))
        .push(ins("inc r9"))
        .push(ins("inc r10"))
        .push(ins("inc r12"))
        .push(ins("jmp __rt_asf_dc_copy_loop_x86"))
        .push(label("__rt_asf_dc_copy_done_x86"))
        .push(ins("cmp r9, rdx"))
        .push(ins("jge __rt_asf_dc_size_loop_x86"));
    let out = out
        .push(ins("movzx r8d, BYTE PTR [rax + r9]"))
        .push(ins("cmp r8b, 13"))
        .push(ins("jne __rt_asf_dc_size_loop_x86"))
        .push(ins("inc r9"))
        .push(ins("cmp r9, rdx"))
        .push(ins("jge __rt_asf_dc_size_loop_x86"))
        .push(ins("movzx r8d, BYTE PTR [rax + r9]"))
        .push(ins("cmp r8b, 10"))
        .push(ins("jne __rt_asf_dc_size_loop_x86"))
        .push(ins("inc r9"))
        .push(ins("jmp __rt_asf_dc_size_loop_x86"))
        .push(label("__rt_asf_dc_done_x86"))
        .push(ins("mov rdx, r10"))
        .push(ins("ret"));
    out
}

/// dechunk (x86_64) — HTTP/1.1 chunked transfer-encoding parser
fn emit_stream_filter_dechunk_x86_64(emitter: &mut Emitter)
    ensures
        final(emitter).target == old(emitter).target,
        final(emitter)@ == stream_filter_dechunk_x86_64(old(emitter)@, old(emitter).target),
{
    emitter.label("__rt_asf_dechunk_x86");
    emitter.instruction("xor r9, r9");    // read index
    emitter.instruction("xor r10, r10");    // write index
    emitter.label("__rt_asf_dc_size_loop_x86");
    emitter.instruction("xor r11, r11");    // chunk size accumulator
    emitter.label("__rt_asf_dc_size_read_x86");
    emitter.instruction("cmp r9, rdx");
    emitter.instruction("jge __rt_asf_dc_done_x86");
    emitter.instruction("movzx r8d, BYTE PTR [rax + r9]");
    emitter.instruction("inc r9");
    emitter.instruction("cmp r8b, 13");
    emitter.instruction("je __rt_asf_dc_size_eol_x86");
    emitter.instruction("cmp r8b, 59");    // ';' ext
    emitter.instruction("je __rt_asf_dc_skip_eol_x86");
    emitter.instruction("cmp r8b, 48");    // '0'
    emitter.instruction("jl __rt_asf_dc_size_read_x86");
    emitter.instruction("cmp r8b, 57");    // '9'
    emitter.instruction("jle __rt_asf_dc_size_digit_x86");
    emitter.instruction("or r8b, 0x20");    // case-fold to lower
    emitter.instruction("cmp r8b, 97");    // 'a'
    emitter.instruction("jl __rt_asf_dc_size_read_x86");
    emitter.instruction("cmp r8b, 102");    // 'f'
    emitter.instruction("jg __rt_asf_dc_size_read_x86");
    emitter.instruction("sub r8b, 87");    // a..f → 10..15
    emitter.instruction("jmp __rt_asf_dc_size_acc_x86");
    emitter.label("__rt_asf_dc_size_digit_x86");
    emitter.instruction("sub r8b, 48");
    emitter.label("__rt_asf_dc_size_acc_x86");
    emitter.instruction("shl r11, 4");
    emitter.instruction("movzx r8, r8b");
    emitter.instruction("or r11, r8");
    emitter.instruction("jmp __rt_asf_dc_size_read_x86");
    emitter.label("__rt_asf_dc_skip_eol_x86");
    emitter.instruction("cmp r9, rdx");
    emitter.instruction("jge __rt_asf_dc_done_x86");
    emitter.instruction("movzx r8d, BYTE PTR [rax + r9]");
    emitter.instruction("inc r9");
    emitter.instruction("cmp r8b, 13");
    emitter.instruction("jne __rt_asf_dc_skip_eol_x86");
    emitter.label("__rt_asf_dc_size_eol_x86");
    emitter.instruction("cmp r9, rdx");
    emitter.instruction("jge __rt_asf_dc_done_x86");
    emitter.instruction("movzx r8d, BYTE PTR [rax + r9]");
    emitter.instruction("cmp r8b, 10");
    emitter.instruction("jne __rt_asf_dc_skip_lf_x86");
    emitter.instruction("inc r9");
    emitter.label("__rt_asf_dc_skip_lf_x86");
    emitter.instruction("test r11, r11");
    emitter.instruction("jz __rt_asf_dc_done_x86");
    // Copy r11 bytes.
    emitter.instruction("xor r12, r12");
    emitter.label("__rt_asf_dc_copy_loop_x86");
    emitter.instruction("cmp r12, r11");
    emitter.instruction("jge __rt_asf_dc_copy_done_x86");
    emitter.instruction("cmp r9, rdx");
    emitter.instruction("jge __rt_asf_dc_done_x86");
    emitter.instruction("movzx r8d, BYTE PTR [rax + r9]");
    emitter.instruction("mov BYTE PTR [rax + r10], r8b");
    emitter.instruction("inc r9");
    emitter.instruction("inc r10");
    emitter.instruction("inc r12");
    emitter.instruction("jmp __rt_asf_dc_copy_loop_x86");
    emitter.label("__rt_asf_dc_copy_done_x86");
    // Skip trailing \r\n.
    emitter.instruction("cmp r9, rdx");
    emitter.instruction("jge __rt_asf_dc_size_loop_x86");
    emitter.instruction("movzx r8d, BYTE PTR [rax + r9]");
    emitter.instruction("cmp r8b, 13");
    emitter.instruction("jne __rt_asf_dc_size_loop_x86");
    emitter.instruction("inc r9");
    emitter.instruction("cmp r9, rdx");
    emitter.instruction("jge __rt_asf_dc_size_loop_x86");
    emitter.instruction("movzx r8d, BYTE PTR [rax + r9]");
    emitter.instruction("cmp r8b, 10");
    emitter.instruction("jne __rt_asf_dc_size_loop_x86");
    emitter.instruction("inc r9");
    emitter.instruction("jmp __rt_asf_dc_size_loop_x86");
    emitter.label("__rt_asf_dc_done_x86");
    emitter.instruction("mov rdx, r10");
    emitter.instruction("ret");
}

/// Appends to `out` the listing that `emit_stream_filter_quoted_printable_decode_x86_64` emits for target `t`.
pub open spec fn stream_filter_quoted_printable_decode_x86_64(out: Seq<Line>, t: Target) -> Seq<Line> {
    let out = out
        .push(label("__rt_asf_qp_decode_x86"))
        .push(ins("xor r9, r9"))
        .push(ins("xor r10, r10"))
        .push(label("__rt_asf_qp_loop_x86"))
        .push(ins("cmp r9, rdx"))
        .push(ins("jge __rt_asf_qp_done_x86"))
        .push(ins("movzx r8d, BYTE PTR [rax + r9]"))
        .push(ins("inc r9"))
        .push(ins("cmp r8b, 61"))
        .push(ins("je __rt_asf_qp_escape_x86"))
        .push(ins("mov BYTE PTR [rax + r10], r8b"))
        .push(ins("inc r10"))
        .push(ins("jmp __rt_asf_qp_loop_x86"))
        .push(label("__rt_asf_qp_escape_x86"))
        .push(ins("cmp r9, rdx"))
        .push(ins("jge __rt_asf_qp_done_x86"));
    let out = out
        .push(ins("movzx r8d, BYTE PTR [rax + r9]"))
        .push(ins("cmp r8b, 13"))
        .push(ins("je __rt_asf_qp_soft_x86"))
        .push(ins("cmp r8b, 10"))
        .push(ins("je __rt_asf_qp_soft_lf_x86"))
        .push(ins("inc r9"))
        .push(ins("mov r11d, -1"))
        .push(ins("cmp r8b, 48"))
        .push(ins("jl __rt_asf_qp_hi_alpha_x86"))
        .push(ins("cmp r8b, 57"))
        .push(ins("jg __rt_asf_qp_hi_alpha_x86"))
        .push(ins("movzx r11, r8b"))
        .push(ins("sub r11, 48"))
        .push(ins("jmp __rt_asf_qp_hi_done_x86"))
        .push(label("__rt_asf_qp_hi_alpha_x86"))
        .push(ins("or r8b, 0x20"));
    let out = out
        .push(ins("cmp r8b, 97"))
        .push(ins("jl __rt_asf_qp_hi_done_x86"))
        .push(ins("cmp r8b, 102"))
        .push(ins("jg __rt_asf_qp_hi_done_x86"))
        .push(ins("movzx r11, r8b"))
        .push(ins("sub r11, 87"))
        .push(label("__rt_asf_qp_hi_done_x86"))
        .push(ins("cmp r11d, 0"))
        .push(ins("jl __rt_asf_qp_loop_x86"))
        .push(ins("mov r12, r11"))
        .push(ins("cmp r9, rdx"))
        .push(ins("jge __rt_asf_qp_done_x86"))
        .push(ins("movzx r8d, BYTE PTR [rax + r9]"))
        .push(ins("inc r9"))
        .push(ins("mov r11d, -1"))
        .push(ins("cmp r8b, 48"));
    let out = out
        .push(ins("jl __rt_asf_qp_lo_alpha_x86"))
        .push(ins("cmp r8b, 57"))
        .push(ins("jg __rt_asf_qp_lo_alpha_x86"))
        .push(ins("movzx r11, r8b"))
        .push(ins("sub r11, 48"))
        .push(ins("jmp __rt_asf_qp_lo_done_x86"))
        .push(label("__rt_asf_qp_lo_alpha_x86"))
        .push(ins("or r8b, 0x20"))
        .push(ins("cmp r8b, 97"))
        .push(ins("jl __rt_asf_qp_lo_done_x86"))
        .push(ins("cmp r8b, 102"))
        .push(ins("jg __rt_asf_qp_lo_done_x86"))
        .push(ins("movzx r11, r8b"))
        .push(ins("sub r11, 87"))
        .push(label("__rt_asf_qp_lo_done_x86"))
        .push(ins("cmp r11d, 0"));
    let out = out
        .push(ins("jl __rt_asf_qp_loop_x86"))
        .push(ins("shl r12, 4"))
        .push(ins("or r12, r11"))
        .push(ins("mov BYTE PTR [rax + r10], r12b"))
        .push(ins("inc r10"))
        .push(ins("jmp __rt_asf_qp_loop_x86"))
        .push(label("__rt_asf_qp_soft_x86"))
        .push(ins("inc r9"))
        .push(ins("cmp r9, rdx"))
        .push(ins("jge __rt_asf_qp_loop_x86"))
        .push(ins("movzx r8d, BYTE PTR [rax + r9]"))
        .push(ins("cmp r8b, 10"))
        .push(ins("jne __rt_asf_qp_loop_x86"))
        .push(ins("inc r9"))
        .push(ins("jmp __rt_asf_qp_loop_x86"))
        .push(label("__rt_asf_qp_soft_lf_x86"));
    let out = out
        .push(ins("inc r9"))
        .push(ins("jmp __rt_asf_qp_loop_x86"))
        .push(label("__rt_asf_qp_done_x86"))
        .push(ins("mov rdx, r10"))
        .push(ins("ret"));
    out
}

/// convert.quoted-printable-decode (x86_64)
fn emit_stream_filter_quoted_printable_decode_x86_64(emitter: &mut Emitter)
    ensures
        final(emitter).target == old(emitter).target,
        final(emitter)@ == stream_filter_quoted_printable_decode_x86_64(old(emitter)@, old(emitter).target),
{
    emitter.label("__rt_asf_qp_decode_x86");
    emitter.instruction("xor r9, r9");    // read index
    emitter.instruction("xor r10, r10");    // write index
    emitter.label("__rt_asf_qp_loop_x86");
    emitter.instruction("cmp r9, rdx");
    emitter.instruction("jge __rt_asf_qp_done_x86");
    emitter.instruction("movzx r8d, BYTE PTR [rax + r9]");
    emitter.instruction("inc r9");
    emitter.instruction("cmp r8b, 61");    // '='
    emitter.instruction("je __rt_asf_qp_escape_x86");
    emitter.instruction("mov BYTE PTR [rax + r10], r8b");
    emitter.instruction("inc r10");
    emitter.instruction("jmp __rt_asf_qp_loop_x86");
    emitter.label("__rt_asf_qp_escape_x86");
    emitter.instruction("cmp r9, rdx");
    emitter.instruction("jge __rt_asf_qp_done_x86");
    emitter.instruction("movzx r8d, BYTE PTR [rax + r9]");
    emitter.instruction("cmp r8b, 13");
    emitter.instruction("je __rt_asf_qp_soft_x86");
    emitter.instruction("cmp r8b, 10");
    emitter.instruction("je __rt_asf_qp_soft_lf_x86");
    // hi nibble inlined
    emitter.instruction("inc r9");
    emitter.instruction("mov r11d, -1");
    emitter.instruction("cmp r8b, 48");
    emitter.instruction("jl __rt_asf_qp_hi_alpha_x86");
    emitter.instruction("cmp r8b, 57");
    emitter.instruction("jg __rt_asf_qp_hi_alpha_x86");
    emitter.instruction("movzx r11, r8b");
    emitter.instruction("sub r11, 48");
    emitter.instruction("jmp __rt_asf_qp_hi_done_x86");
    emitter.label("__rt_asf_qp_hi_alpha_x86");
    emitter.instruction("or r8b, 0x20");
    emitter.instruction("cmp r8b, 97");
    emitter.instruction("jl __rt_asf_qp_hi_done_x86");
    emitter.instruction("cmp r8b, 102");
    emitter.instruction("jg __rt_asf_qp_hi_done_x86");
    emitter.instruction("movzx r11, r8b");
    emitter.instruction("sub r11, 87");
    emitter.label("__rt_asf_qp_hi_done_x86");
    emitter.instruction("cmp r11d, 0");
    emitter.instruction("jl __rt_asf_qp_loop_x86");
    emitter.instruction("mov r12, r11");    // hi nibble
    // lo nibble
    emitter.instruction("cmp r9, rdx");
    emitter.instruction("jge __rt_asf_qp_done_x86");
    emitter.instruction("movzx r8d, BYTE PTR [rax + r9]");
    emitter.instruction("inc r9");
    emitter.instruction("mov r11d, -1");
    emitter.instruction("cmp r8b, 48");
    emitter.instruction("jl __rt_asf_qp_lo_alpha_x86");
    emitter.instruction("cmp r8b, 57");
    emitter.instruction("jg __rt_asf_qp_lo_alpha_x86");
    emitter.instruction("movzx r11, r8b");
    emitter.instruction("sub r11, 48");
    emitter.instruction("jmp __rt_asf_qp_lo_done_x86");
    emitter.label("__rt_asf_qp_lo_alpha_x86");
    emitter.instruction("or r8b, 0x20");
    emitter.instruction("cmp r8b, 97");
    emitter.instruction("jl __rt_asf_qp_lo_done_x86");
    emitter.instruction("cmp r8b, 102");
    emitter.instruction("jg __rt_asf_qp_lo_done_x86");
    emitter.instruction("movzx r11, r8b");
    emitter.instruction("sub r11, 87");
    emitter.label("__rt_asf_qp_lo_done_x86");
    emitter.instruction("cmp r11d, 0");
    emitter.instruction("jl __rt_asf_qp_loop_x86");
    emitter.instruction("shl r12, 4");
    emitter.instruction("or r12, r11");
    emitter.instruction("mov BYTE PTR [rax + r10], r12b");
    emitter.instruction("inc r10");
    emitter.instruction("jmp __rt_asf_qp_loop_x86");
    emitter.label("__rt_asf_qp_soft_x86");
    emitter.instruction("inc r9");    // skip \r
    emitter.instruction("cmp r9, rdx");
    emitter.instruction("jge __rt_asf_qp_loop_x86");
    emitter.instruction("movzx r8d, BYTE PTR [rax + r9]");
    emitter.instruction("cmp r8b, 10");
    emitter.instruction("jne __rt_asf_qp_loop_x86");
    emitter.instruction("inc r9");
    emitter.instruction("jmp __rt_asf_qp_loop_x86");
    emitter.label("__rt_asf_qp_soft_lf_x86");
    emitter.instruction("inc r9");
    emitter.instruction("jmp __rt_asf_qp_loop_x86");
    emitter.label("__rt_asf_qp_done_x86");
    emitter.instruction("mov rdx, r10");
    emitter.instruction("ret");
}

/// Appends to `out` the listing that `emit_stream_filter_base64_encode_x86_64` emits for target `t`.
pub open spec fn stream_filter_base64_encode_x86_64(out: Seq<Line>, t: Target) -> Seq<Line> {
    let out = out
        .push(label("__rt_asf_b64_encode_x86"))
        .push(ins("mov r11, 49152"))
        .push(ins("cmp rdx, r11"))
        .push(ins("cmovg rdx, r11"))
        .push(ins("lea r11, [rip + _stream_grow_scratch]"))
        .push(ins("lea r12, [rip + _b64_encode_tbl]"))
        .push(ins("xor r9, r9"))
        .push(ins("xor r10, r10"))
        .push(label("__rt_asf_b64e_loop_x86"))
        .push(ins("mov rcx, rdx"))
        .push(ins("sub rcx, r9"))
        .push(ins("cmp rcx, 3"))
        .push(ins("jl __rt_asf_b64e_rem_x86"))
        .push(ins("movzx r13d, BYTE PTR [rax + r9]"))
        .push(ins("inc r9"))
        .push(ins("movzx r14d, BYTE PTR [rax + r9]"));
    let out = out
        .push(ins("inc r9"))
        .push(ins("movzx r15d, BYTE PTR [rax + r9]"))
        .push(ins("inc r9"))
        .push(ins("mov rcx, r13"))
        .push(ins("shr rcx, 2"))
        .push(ins("movzx ecx, BYTE PTR [r12 + rcx]"))
        .push(ins("mov BYTE PTR [r11 + r10], cl"))
        .push(ins("inc r10"))
        .push(ins("mov rcx, r13"))
        .push(ins("and rcx, 3"))
        .push(ins("shl rcx, 4"))
        .push(ins("mov r8, r14"))
        .push(ins("shr r8, 4"))
        .push(ins("or rcx, r8"))
        .push(ins("movzx ecx, BYTE PTR [r12 + rcx]"))
        .push(ins("mov BYTE PTR [r11 + r10], cl"));
    let out = out
        .push(ins("inc r10"))
        .push(ins("mov rcx, r14"))
        .push(ins("and rcx, 15"))
        .push(ins("shl rcx, 2"))
        .push(ins("mov r8, r15"))
        .push(ins("shr r8, 6"))
        .push(ins("or rcx, r8"))
        .push(ins("movzx ecx, BYTE PTR [r12 + rcx]"))
        .push(ins("mov BYTE PTR [r11 + r10], cl"))
        .push(ins("inc r10"))
        .push(ins("mov rcx, r15"))
        .push(ins("and rcx, 63"))
        .push(ins("movzx ecx, BYTE PTR [r12 + rcx]"))
        .push(ins("mov BYTE PTR [r11 + r10], cl"))
        .push(ins("inc r10"))
        .push(ins("jmp __rt_asf_b64e_loop_x86"));
    let out = out
        .push(label("__rt_asf_b64e_rem_x86"))
        .push(ins("test rcx, rcx"))
        .push(ins("jz __rt_asf_b64e_copyback_x86"))
        .push(ins("cmp rcx, 1"))
        .push(ins("je __rt_asf_b64e_rem1_x86"))
        .push(ins("movzx r13d, BYTE PTR [rax + r9]"))
        .push(ins("inc r9"))
        .push(ins("movzx r14d, BYTE PTR [rax + r9]"))
        .push(ins("inc r9"))
        .push(ins("mov rcx, r13"))
        .push(ins("shr rcx, 2"))
        .push(ins("movzx ecx, BYTE PTR [r12 + rcx]"))
        .push(ins("mov BYTE PTR [r11 + r10], cl"))
        .push(ins("inc r10"))
        .push(ins("mov rcx, r13"))
        .push(ins("and rcx, 3"));
    let out = out
        .push(ins("shl rcx, 4"))
        .push(ins("mov r8, r14"))
        .push(ins("shr r8, 4"))
        .push(ins("or rcx, r8"))
        .push(ins("movzx ecx, BYTE PTR [r12 + rcx]"))
        .push(ins("mov BYTE PTR [r11 + r10], cl"))
        .push(ins("inc r10"))
        .push(ins("mov rcx, r14"))
        .push(ins("and rcx, 15"))
        .push(ins("shl rcx, 2"))
        .push(ins("movzx ecx, BYTE PTR [r12 + rcx]"))
        .push(ins("mov BYTE PTR [r11 + r10], cl"))
        .push(ins("inc r10"))
        .push(ins("mov BYTE PTR [r11 + r10], 61"))
        .push(ins("inc r10"))
        .push(ins("jmp __rt_asf_b64e_copyback_x86"));
    let out = out
        .push(label("__rt_asf_b64e_rem1_x86"))
        .push(ins("movzx r13d, BYTE PTR [rax + r9]"))
        .push(ins("inc r9"))
        .push(ins("mov rcx, r13"))
        .push(ins("shr rcx, 2"))
        .push(ins("movzx ecx, BYTE PTR [r12 + rcx]"))
        .push(ins("mov BYTE PTR [r11 + r10], cl"))
        .push(ins("inc r10"))
        .push(ins("mov rcx, r13"))
        .push(ins("and rcx, 3"))
        .push(ins("shl rcx, 4"))
        .push(ins("movzx ecx, BYTE PTR [r12 + rcx]"))
        .push(ins("mov BYTE PTR [r11 + r10], cl"))
        .push(ins("inc r10"))
        .push(ins("mov BYTE PTR [r11 + r10], 61"))
        .push(ins("inc r10"));
    let out = out
        .push(ins("mov BYTE PTR [r11 + r10], 61"))
        .push(ins("inc r10"))
        .push(label("__rt_asf_b64e_copyback_x86"))
        .push(ins("xor r9, r9"))
        .push(label("__rt_asf_b64e_cb_loop_x86"))
        .push(ins("cmp r9, r10"))
        .push(ins("jge __rt_asf_b64e_done_x86"))
        .push(ins("movzx ecx, BYTE PTR [r11 + r9]"))
        .push(ins("mov BYTE PTR [rax + r9], cl"))
        .push(ins("inc r9"))
        .push(ins("jmp __rt_asf_b64e_cb_loop_x86"))
        .push(label("__rt_asf_b64e_done_x86"))
        .push(ins("mov rdx, r10"))
        .push(ins("ret"));
    out
}

/// convert.base64-encode (x86_64)
fn emit_stream_filter_base64_encode_x86_64(emitter: &mut Emitter)
    ensures
        final(emitter).target == old(emitter).target,
        final(emitter)@ == stream_filter_base64_encode_x86_64(old(emitter)@, old(emitter).target),
{
    emitter.label("__rt_asf_b64_encode_x86");
    // Cap input at 49152 bytes so the 4/3 expansion fits the scratch buffer.
    emitter.instruction("mov r11, 49152");
    emitter.instruction("cmp rdx, r11");
    emitter.instruction("cmovg rdx, r11");    // rdx = MIN(rdx, 49152)
    emitter.instruction("lea r11, [rip + _stream_grow_scratch]");    // r11 = scratch base
    emitter.instruction("lea r12, [rip + _b64_encode_tbl]");    // r12 = alphabet table
    emitter.instruction("xor r9, r9");    // read idx
    emitter.instruction("xor r10, r10");    // write idx
    emitter.label("__rt_asf_b64e_loop_x86");
    emitter.instruction("mov rcx, rdx");
    emitter.instruction("sub rcx, r9");    // remaining bytes
    emitter.instruction("cmp rcx, 3");
    emitter.instruction("jl __rt_asf_b64e_rem_x86");
    // Read 3 bytes.
    emitter.instruction("movzx r13d, BYTE PTR [rax + r9]");    // byte 0
    emitter.instruction("inc r9");
    emitter.instruction("movzx r14d, BYTE PTR [rax + r9]");    // byte 1
    emitter.instruction("inc r9");
    emitter.instruction("movzx r15d, BYTE PTR [rax + r9]");    // byte 2
    emitter.instruction("inc r9");
    // char 0: b0 >> 2
    emitter.instruction("mov rcx, r13");
    emitter.instruction("shr rcx, 2");
    emitter.instruction("movzx ecx, BYTE PTR [r12 + rcx]");
    emitter.instruction("mov BYTE PTR [r11 + r10], cl");
    emitter.instruction("inc r10");
    // char 1: ((b0 & 3) << 4) | (b1 >> 4)
    emitter.instruction("mov rcx, r13");
    emitter.instruction("and rcx, 3");
    emitter.instruction("shl rcx, 4");
    emitter.instruction("mov r8, r14");
    emitter.instruction("shr r8, 4");
    emitter.instruction("or rcx, r8");
    emitter.instruction("movzx ecx, BYTE PTR [r12 + rcx]");
    emitter.instruction("mov BYTE PTR [r11 + r10], cl");
    emitter.instruction("inc r10");
    // char 2: ((b1 & 15) << 2) | (b2 >> 6)
    emitter.instruction("mov rcx, r14");
    emitter.instruction("and rcx, 15");
    emitter.instruction("shl rcx, 2");
    emitter.instruction("mov r8, r15");
    emitter.instruction("shr r8, 6");
    emitter.instruction("or rcx, r8");
    emitter.instruction("movzx ecx, BYTE PTR [r12 + rcx]");
    emitter.instruction("mov BYTE PTR [r11 + r10], cl");
    emitter.instruction("inc r10");
    // char 3: b2 & 0x3f
    emitter.instruction("mov rcx, r15");
    emitter.instruction("and rcx, 63");
    emitter.instruction("movzx ecx, BYTE PTR [r12 + rcx]");
    emitter.instruction("mov BYTE PTR [r11 + r10], cl");
    emitter.instruction("inc r10");
    emitter.instruction("jmp __rt_asf_b64e_loop_x86");
    emitter.label("__rt_asf_b64e_rem_x86");
    emitter.instruction("test rcx, rcx");
    emitter.instruction("jz __rt_asf_b64e_copyback_x86");
    emitter.instruction("cmp rcx, 1");
    emitter.instruction("je __rt_asf_b64e_rem1_x86");
    // 2-byte tail: 3 chars + '='
    emitter.instruction("movzx r13d, BYTE PTR [rax + r9]");
    emitter.instruction("inc r9");
    emitter.instruction("movzx r14d, BYTE PTR [rax + r9]");
    emitter.instruction("inc r9");
    emitter.instruction("mov rcx, r13");
    emitter.instruction("shr rcx, 2");
    emitter.instruction("movzx ecx, BYTE PTR [r12 + rcx]");
    emitter.instruction("mov BYTE PTR [r11 + r10], cl");
    emitter.instruction("inc r10");
    emitter.instruction("mov rcx, r13");
    emitter.instruction("and rcx, 3");
    emitter.instruction("shl rcx, 4");
    emitter.instruction("mov r8, r14");
    emitter.instruction("shr r8, 4");
    emitter.instruction("or rcx, r8");
    emitter.instruction("movzx ecx, BYTE PTR [r12 + rcx]");
    emitter.instruction("mov BYTE PTR [r11 + r10], cl");
    emitter.instruction("inc r10");
    emitter.instruction("mov rcx, r14");
    emitter.instruction("and rcx, 15");
    emitter.instruction("shl rcx, 2");
    emitter.instruction("movzx ecx, BYTE PTR [r12 + rcx]");
    emitter.instruction("mov BYTE PTR [r11 + r10], cl");
    emitter.instruction("inc r10");
    emitter.instruction("mov BYTE PTR [r11 + r10], 61");    // '='
    emitter.instruction("inc r10");
    emitter.instruction("jmp __rt_asf_b64e_copyback_x86");
    emitter.label("__rt_asf_b64e_rem1_x86");
    // 1-byte tail: 2 chars + '=='
    emitter.instruction("movzx r13d, BYTE PTR [rax + r9]");
    emitter.instruction("inc r9");
    emitter.instruction("mov rcx, r13");
    emitter.instruction("shr rcx, 2");
    emitter.instruction("movzx ecx, BYTE PTR [r12 + rcx]");
    emitter.instruction("mov BYTE PTR [r11 + r10], cl");
    emitter.instruction("inc r10");
    emitter.instruction("mov rcx, r13");
    emitter.instruction("and rcx, 3");
    emitter.instruction("shl rcx, 4");
    emitter.instruction("movzx ecx, BYTE PTR [r12 + rcx]");
    emitter.instruction("mov BYTE PTR [r11 + r10], cl");
    emitter.instruction("inc r10");
    emitter.instruction("mov BYTE PTR [r11 + r10], 61");    // '='
    emitter.instruction("inc r10");
    emitter.instruction("mov BYTE PTR [r11 + r10], 61");    // '='
    emitter.instruction("inc r10");
    emitter.label("__rt_asf_b64e_copyback_x86");
    emitter.instruction("xor r9, r9");
    emitter.label("__rt_asf_b64e_cb_loop_x86");
    emitter.instruction("cmp r9, r10");
    emitter.instruction("jge __rt_asf_b64e_done_x86");
    emitter.instruction("movzx ecx, BYTE PTR [r11 + r9]");
    emitter.instruction("mov BYTE PTR [rax + r9], cl");
    emitter.instruction("inc r9");
    emitter.instruction("jmp __rt_asf_b64e_cb_loop_x86");
    emitter.label("__rt_asf_b64e_done_x86");
    emitter.instruction("mov rdx, r10");
    emitter.instruction("ret");
}

/// Appends to `out` the listing that `emit_stream_filter_quoted_printable_encode_x86_64` emits for target `t`.
pub open spec fn stream_filter_quoted_printable_encode_x86_64(out: Seq<Line>, t: Target) -> Seq<Line> {
    let out = out
        .push(label("__rt_asf_qp_encode_x86"))
        .push(ins("mov r11, 21845"))
        .push(ins("cmp rdx, r11"))
        .push(ins("cmovg rdx, r11"))
        .push(ins("lea r11, [rip + _stream_grow_scratch]"))
        .push(ins("xor r9, r9"))
        .push(ins("xor r10, r10"))
        .push(label("__rt_asf_qpe_loop_x86"))
        .push(ins("cmp r9, rdx"))
        .push(ins("jge __rt_asf_qpe_copyback_x86"))
        .push(ins("movzx r8d, BYTE PTR [rax + r9]"))
        .push(ins("inc r9"))
        .push(ins("cmp r8b, 33"))
        .push(ins("jl __rt_asf_qpe_escape_x86"))
        .push(ins("cmp r8b, 126"))
        .push(ins("jg __rt_asf_qpe_escape_x86"));
    let out = out
        .push(ins("cmp r8b, 61"))
        .push(ins("je __rt_asf_qpe_escape_x86"))
        .push(ins("mov BYTE PTR [r11 + r10], r8b"))
        .push(ins("inc r10"))
        .push(ins("jmp __rt_asf_qpe_loop_x86"))
        .push(label("__rt_asf_qpe_escape_x86"))
        .push(ins("mov BYTE PTR [r11 + r10], 61"))
        .push(ins("inc r10"))
        .push(ins("mov rcx, r8"))
        .push(ins("shr rcx, 4"))
        .push(ins("and rcx, 15"))
        .push(ins("cmp rcx, 10"))
        .push(ins("jl __rt_asf_qpe_hi_dig_x86"))
        .push(ins("add rcx, 55"))
        .push(ins("jmp __rt_asf_qpe_hi_write_x86"))
        .push(label("__rt_asf_qpe_hi_dig_x86"));
    let out = out
        .push(ins("add rcx, 48"))
        .push(label("__rt_asf_qpe_hi_write_x86"))
        .push(ins("mov BYTE PTR [r11 + r10], cl"))
        .push(ins("inc r10"))
        .push(ins("mov rcx, r8"))
        .push(ins("and rcx, 15"))
        .push(ins("cmp rcx, 10"))
        .push(ins("jl __rt_asf_qpe_lo_dig_x86"))
        .push(ins("add rcx, 55"))
        .push(ins("jmp __rt_asf_qpe_lo_write_x86"))
        .push(label("__rt_asf_qpe_lo_dig_x86"))
        .push(ins("add rcx, 48"))
        .push(label("__rt_asf_qpe_lo_write_x86"))
        .push(ins("mov BYTE PTR [r11 + r10], cl"))
        .push(ins("inc r10"))
        .push(ins("jmp __rt_asf_qpe_loop_x86"));
    let out = out
        .push(label("__rt_asf_qpe_copyback_x86"))
        .push(ins("xor r9, r9"))
        .push(label("__rt_asf_qpe_cb_loop_x86"))
        .push(ins("cmp r9, r10"))
        .push(ins("jge __rt_asf_qpe_done_x86"))
        .push(ins("movzx ecx, BYTE PTR [r11 + r9]"))
        .push(ins("mov BYTE PTR [rax + r9], cl"))
        .push(ins("inc r9"))
        .push(ins("jmp __rt_asf_qpe_cb_loop_x86"))
        .push(label("__rt_asf_qpe_done_x86"))
        .push(ins("mov rdx, r10"))
        .push(ins("ret"));
    out
}

/// convert.quoted-printable-encode (x86_64)
fn emit_stream_filter_quoted_printable_encode_x86_64(emitter: &mut Emitter)
    ensures
        final(emitter).target == old(emitter).target,
        final(emitter)@ == stream_filter_quoted_printable_encode_x86_64(old(emitter)@, old(emitter).target),
{
    emitter.label("__rt_asf_qp_encode_x86");
    emitter.instruction("mov r11, 21845");
    emitter.instruction("cmp rdx, r11");
    emitter.instruction("cmovg rdx, r11");    // rdx = MIN(rdx, 21845)
    emitter.instruction("lea r11, [rip + _stream_grow_scratch]");
    emitter.instruction("xor r9, r9");
    emitter.instruction("xor r10, r10");
    emitter.label("__rt_asf_qpe_loop_x86");
    emitter.instruction("cmp r9, rdx");
    emitter.instruction("jge __rt_asf_qpe_copyback_x86");
    emitter.instruction("movzx r8d, BYTE PTR [rax + r9]");
    emitter.instruction("inc r9");
    emitter.instruction("cmp r8b, 33");
    emitter.instruction("jl __rt_asf_qpe_escape_x86");
    emitter.instruction("cmp r8b, 126");
    emitter.instruction("jg __rt_asf_qpe_escape_x86");
    emitter.instruction("cmp r8b, 61");
    emitter.instruction("je __rt_asf_qpe_escape_x86");
    emitter.instruction("mov BYTE PTR [r11 + r10], r8b");
    emitter.instruction("inc r10");
    emitter.instruction("jmp __rt_asf_qpe_loop_x86");
    emitter.label("__rt_asf_qpe_escape_x86");
    emitter.instruction("mov BYTE PTR [r11 + r10], 61");    // '='
    emitter.instruction("inc r10");
    // hi nibble
    emitter.instruction("mov rcx, r8");
    emitter.instruction("shr rcx, 4");
    emitter.instruction("and rcx, 15");
    emitter.instruction("cmp rcx, 10");
    emitter.instruction("jl __rt_asf_qpe_hi_dig_x86");
    emitter.instruction("add rcx, 55");
    emitter.instruction("jmp __rt_asf_qpe_hi_write_x86");
    emitter.label("__rt_asf_qpe_hi_dig_x86");
    emitter.instruction("add rcx, 48");
    emitter.label("__rt_asf_qpe_hi_write_x86");
    emitter.instruction("mov BYTE PTR [r11 + r10], cl");
    emitter.instruction("inc r10");
    // lo nibble
    emitter.instruction("mov rcx, r8");
    emitter.instruction("and rcx, 15");
    emitter.instruction("cmp rcx, 10");
    emitter.instruction("jl __rt_asf_qpe_lo_dig_x86");
    emitter.instruction("add rcx, 55");
    emitter.instruction("jmp __rt_asf_qpe_lo_write_x86");
    emitter.label("__rt_asf_qpe_lo_dig_x86");
    emitter.instruction("add rcx, 48");
    emitter.label("__rt_asf_qpe_lo_write_x86");
    emitter.instruction("mov BYTE PTR [r11 + r10], cl");
    emitter.instruction("inc r10");
    emitter.instruction("jmp __rt_asf_qpe_loop_x86");
    emitter.label("__rt_asf_qpe_copyback_x86");
    emitter.instruction("xor r9, r9");
    emitter.label("__rt_asf_qpe_cb_loop_x86");
    emitter.instruction("cmp r9, r10");
    emitter.instruction("jge __rt_asf_qpe_done_x86");
    emitter.instruction("movzx ecx, BYTE PTR [r11 + r9]");
    emitter.instruction("mov BYTE PTR [rax + r9], cl");
    emitter.instruction("inc r9");
    emitter.instruction("jmp __rt_asf_qpe_cb_loop_x86");
    emitter.label("__rt_asf_qpe_done_x86");
    emitter.instruction("mov rdx, r10");
    emitter.instruction("ret");
}

/// The emitter of this module only appends: the block it adds depends on the target
/// alone, and the listing it was handed stays in front of that block unchanged.
/// `apply_stream_filter` appends a block that does not depend on the listing before it.
proof fn lemma_apply_stream_filter_appends(out: Seq<Line>, t: Target)
    ensures
        apply_stream_filter(out, t) == out + apply_stream_filter(Seq::empty(), t),
{
    lemma_apply_stream_filter_linux_x86_64_appends(out, t);
    lemma_apply_stream_filter_aarch64_appends(out, t);
}

/// `apply_stream_filter_aarch64` appends a block that does not depend on the listing before it.
proof fn lemma_apply_stream_filter_aarch64_appends(out: Seq<Line>, t: Target)
    ensures
        apply_stream_filter_aarch64(out, t) == out + apply_stream_filter_aarch64(Seq::empty(), t),
{
    let a = out;
    let b = Seq::<Line>::empty();
    lemma_append_empty(out);
    lemma_append_push(out, b, Line::Blank);
    let a = a.push(Line::Blank);
    let b = b.push(Line::Blank);
    lemma_append_push(out, b, comment("--- runtime: apply_stream_filter ---"));
    let a = a.push(comment("--- runtime: apply_stream_filter ---"));
    let b = b.push(comment("--- runtime: apply_stream_filter ---"));
    lemma_append_push(out, b, global("__rt_apply_stream_filter"));
    let a = a.push(global("__rt_apply_stream_filter"));
    let b = b.push(global("__rt_apply_stream_filter"));
    lemma_append_push(out, b, ins("mov x9, #0"));
    let a = a.push(ins("mov x9, #0"));
    let b = b.push(ins("mov x9, #0"));
    lemma_append_push(out, b, label("__rt_asf_loop"));
    let a = a.push(label("__rt_asf_loop"));
    let b = b.push(label("__rt_asf_loop"));
    lemma_append_push(out, b, ins("cmp x9, x2"));
    let a = a.push(ins("cmp x9, x2"));
    let b = b.push(ins("cmp x9, x2"));
    lemma_append_push(out, b, ins("b.ge __rt_asf_done"));
    let a = a.push(ins("b.ge __rt_asf_done"));
    let b = b.push(ins("b.ge __rt_asf_done"));
    lemma_append_push(out, b, ins("ldrb w10, [x1, x9]"));
    let a = a.push(ins("ldrb w10, [x1, x9]"));
    let b = b.push(ins("ldrb w10, [x1, x9]"));
    lemma_append_push(out, b, ins("cmp x3, #1"));
    let a = a.push(ins("cmp x3, #1"));
    let b = b.push(ins("cmp x3, #1"));
    lemma_append_push(out, b, ins("b.eq __rt_asf_upper"));
    let a = a.push(ins("b.eq __rt_asf_upper"));
    let b = b.push(ins("b.eq __rt_asf_upper"));
    lemma_append_push(out, b, ins("cmp x3, #2"));
    let a = a.push(ins("cmp x3, #2"));
    let b = b.push(ins("cmp x3, #2"));
    lemma_append_push(out, b, ins("b.eq __rt_asf_lower"));
    let a = a.push(ins("b.eq __rt_asf_lower"));
    let b = b.push(ins("b.eq __rt_asf_lower"));
    lemma_append_push(out, b, ins("cmp x3, #3"));
    let a = a.push(ins("cmp x3, #3"));
    let b = b.push(ins("cmp x3, #3"));
    lemma_append_push(out, b, ins("b.eq __rt_asf_rot13"));
    let a = a.push(ins("b.eq __rt_asf_rot13"));
    let b = b.push(ins("b.eq __rt_asf_rot13"));
    lemma_append_push(out, b, ins("cmp x3, #4"));
    let a = a.push(ins("cmp x3, #4"));
    let b = b.push(ins("cmp x3, #4"));
    lemma_append_push(out, b, ins("b.eq __rt_asf_strip_tags"));
    let a = a.push(ins("b.eq __rt_asf_strip_tags"));
    let b = b.push(ins("b.eq __rt_asf_strip_tags"));
    lemma_append_push(out, b, ins("cmp x3, #7"));
    let a = a.push(ins("cmp x3, #7"));
    let b = b.push(ins("cmp x3, #7"));
    lemma_append_push(out, b, ins("b.eq __rt_asf_b64_decode"));
    let a = a.push(ins("b.eq __rt_asf_b64_decode"));
    let b = b.push(ins("b.eq __rt_asf_b64_decode"));
    lemma_append_push(out, b, ins("cmp x3, #5"));
    let a = a.push(ins("cmp x3, #5"));
    let b = b.push(ins("cmp x3, #5"));
    lemma_append_push(out, b, ins("b.eq __rt_asf_dechunk"));
    let a = a.push(ins("b.eq __rt_asf_dechunk"));
    let b = b.push(ins("b.eq __rt_asf_dechunk"));
    lemma_append_push(out, b, ins("cmp x3, #6"));
    let a = a.push(ins("cmp x3, #6"));
    let b = b.push(ins("cmp x3, #6"));
    lemma_append_push(out, b, ins("b.eq __rt_asf_b64_encode"));
    let a = a.push(ins("b.eq __rt_asf_b64_encode"));
    let b = b.push(ins("b.eq __rt_asf_b64_encode"));
    lemma_append_push(out, b, ins("cmp x3, #9"));
    let a = a.push(ins("cmp x3, #9"));
    let b = b.push(ins("cmp x3, #9"));
    lemma_append_push(out, b, ins("b.eq __rt_asf_qp_decode"));
    let a = a.push(ins("b.eq __rt_asf_qp_decode"));
    let b = b.push(ins("b.eq __rt_asf_qp_decode"));
    lemma_append_push(out, b, ins("cmp x3, #8"));
    let a = a.push(ins("cmp x3, #8"));
    let b = b.push(ins("cmp x3, #8"));
    lemma_append_push(out, b, ins("b.eq __rt_asf_qp_encode"));
    let a = a.push(ins("b.eq __rt_asf_qp_encode"));
    let b = b.push(ins("b.eq __rt_asf_qp_encode"));
    lemma_append_push(out, b, ins("b __rt_asf_next"));
    let a = a.push(ins("b __rt_asf_next"));
    let b = b.push(ins("b __rt_asf_next"));
    lemma_append_push(out, b, label("__rt_asf_upper"));
    let a = a.push(label("__rt_asf_upper"));
    let b = b.push(label("__rt_asf_upper"));
    lemma_append_push(out, b, ins("cmp w10, #0x61"));
    let a = a.push(ins("cmp w10, #0x61"));
    let b = b.push(ins("cmp w10, #0x61"));
    lemma_append_push(out, b, ins("b.lt __rt_asf_next"));
    let a = a.push(ins("b.lt __rt_asf_next"));
    let b = b.push(ins("b.lt __rt_asf_next"));
    lemma_append_push(out, b, ins("cmp w10, #0x7A"));
    let a = a.push(ins("cmp w10, #0x7A"));
    let b = b.push(ins("cmp w10, #0x7A"));
    lemma_append_push(out, b, ins("b.gt __rt_asf_next"));
    let a = a.push(ins("b.gt __rt_asf_next"));
    let b = b.push(ins("b.gt __rt_asf_next"));
    lemma_append_push(out, b, ins("sub w10, w10, #0x20"));
    let a = a.push(ins("sub w10, w10, #0x20"));
    let b = b.push(ins("sub w10, w10, #0x20"));
    lemma_append_push(out, b, ins("b __rt_asf_store"));
    let a = a.push(ins("b __rt_asf_store"));
    let b = b.push(ins("b __rt_asf_store"));
    lemma_append_push(out, b, label("__rt_asf_lower"));
    let a = a.push(label("__rt_asf_lower"));
    let b = b.push(label("__rt_asf_lower"));
    lemma_append_push(out, b, ins("cmp w10, #0x41"));
    let a = a.push(ins("cmp w10, #0x41"));
    let b = b.push(ins("cmp w10, #0x41"));
    lemma_append_push(out, b, ins("b.lt __rt_asf_next"));
    let a = a.push(ins("b.lt __rt_asf_next"));
    let b = b.push(ins("b.lt __rt_asf_next"));
    lemma_append_push(out, b, ins("cmp w10, #0x5A"));
    let a = a.push(ins("cmp w10, #0x5A"));
    let b = b.push(ins("cmp w10, #0x5A"));
    lemma_append_push(out, b, ins("b.gt __rt_asf_next"));
    let a = a.push(ins("b.gt __rt_asf_next"));
    let b = b.push(ins("b.gt __rt_asf_next"));
    lemma_append_push(out, b, ins("add w10, w10, #0x20"));
    let a = a.push(ins("add w10, w10, #0x20"));
    let b = b.push(ins("add w10, w10, #0x20"));
    lemma_append_push(out, b, ins("b __rt_asf_store"));
    let a = a.push(ins("b __rt_asf_store"));
    let b = b.push(ins("b __rt_asf_store"));
    lemma_append_push(out, b, label("__rt_asf_rot13"));
    let a = a.push(label("__rt_asf_rot13"));
    let b = b.push(label("__rt_asf_rot13"));
    lemma_append_push(out, b, ins("mov w11, #0x61"));
    let a = a.push(ins("mov w11, #0x61"));
    let b = b.push(ins("mov w11, #0x61"));
    lemma_append_push(out, b, ins("cmp w10, #0x61"));
    let a = a.push(ins("cmp w10, #0x61"));
    let b = b.push(ins("cmp w10, #0x61"));
    lemma_append_push(out, b, ins("b.lt __rt_asf_rot13_upper"));
    let a = a.push(ins("b.lt __rt_asf_rot13_upper"));
    let b = b.push(ins("b.lt __rt_asf_rot13_upper"));
    lemma_append_push(out, b, ins("cmp w10, #0x7A"));
    let a = a.push(ins("cmp w10, #0x7A"));
    let b = b.push(ins("cmp w10, #0x7A"));
    lemma_append_push(out, b, ins("b.le __rt_asf_rot13_apply"));
    let a = a.push(ins("b.le __rt_asf_rot13_apply"));
    let b = b.push(ins("b.le __rt_asf_rot13_apply"));
    lemma_append_push(out, b, label("__rt_asf_rot13_upper"));
    let a = a.push(label("__rt_asf_rot13_upper"));
    let b = b.push(label("__rt_asf_rot13_upper"));
    lemma_append_push(out, b, ins("mov w11, #0x41"));
    let a = a.push(ins("mov w11, #0x41"));
    let b = b.push(ins("mov w11, #0x41"));
    lemma_append_push(out, b, ins("cmp w10, #0x41"));
    let a = a.push(ins("cmp w10, #0x41"));
    let b = b.push(ins("cmp w10, #0x41"));
    lemma_append_push(out, b, ins("b.lt __rt_asf_next"));
    let a = a.push(ins("b.lt __rt_asf_next"));
    let b = b.push(ins("b.lt __rt_asf_next"));
    lemma_append_push(out, b, ins("cmp w10, #0x5A"));
    let a = a.push(ins("cmp w10, #0x5A"));
    let b = b.push(ins("cmp w10, #0x5A"));
    lemma_append_push(out, b, ins("b.gt __rt_asf_next"));
    let a = a.push(ins("b.gt __rt_asf_next"));
    let b = b.push(ins("b.gt __rt_asf_next"));
    lemma_append_push(out, b, label("__rt_asf_rot13_apply"));
    let a = a.push(label("__rt_asf_rot13_apply"));
    let b = b.push(label("__rt_asf_rot13_apply"));
    lemma_append_push(out, b, ins("sub w10, w10, w11"));
    let a = a.push(ins("sub w10, w10, w11"));
    let b = b.push(ins("sub w10, w10, w11"));
    lemma_append_push(out, b, ins("add w10, w10, #13"));
    let a = a.push(ins("add w10, w10, #13"));
    let b = b.push(ins("add w10, w10, #13"));
    lemma_append_push(out, b, ins("cmp w10, #26"));
    let a = a.push(ins("cmp w10, #26"));
    let b = b.push(ins("cmp w10, #26"));
    lemma_append_push(out, b, ins("b.lt __rt_asf_rot13_nowrap"));
    let a = a.push(ins("b.lt __rt_asf_rot13_nowrap"));
    let b = b.push(ins("b.lt __rt_asf_rot13_nowrap"));
    lemma_append_push(out, b, ins("sub w10, w10, #26"));
    let a = a.push(ins("sub w10, w10, #26"));
    let b = b.push(ins("sub w10, w10, #26"));
    lemma_append_push(out, b, label("__rt_asf_rot13_nowrap"));
    let a = a.push(label("__rt_asf_rot13_nowrap"));
    let b = b.push(label("__rt_asf_rot13_nowrap"));
    lemma_append_push(out, b, ins("add w10, w10, w11"));
    let a = a.push(ins("add w10, w10, w11"));
    let b = b.push(ins("add w10, w10, w11"));
    lemma_append_push(out, b, label("__rt_asf_store"));
    let a = a.push(label("__rt_asf_store"));
    let b = b.push(label("__rt_asf_store"));
    lemma_append_push(out, b, ins("strb w10, [x1, x9]"));
    let a = a.push(ins("strb w10, [x1, x9]"));
    let b = b.push(ins("strb w10, [x1, x9]"));
    lemma_append_push(out, b, label("__rt_asf_next"));
    let a = a.push(label("__rt_asf_next"));
    let b = b.push(label("__rt_asf_next"));
    lemma_append_push(out, b, ins("add x9, x9, #1"));
    let a = a.push(ins("add x9, x9, #1"));
    let b = b.push(ins("add x9, x9, #1"));
    lemma_append_push(out, b, ins("b __rt_asf_loop"));
    let a = a.push(ins("b __rt_asf_loop"));
    let b = b.push(ins("b __rt_asf_loop"));
    lemma_append_push(out, b, label("__rt_asf_done"));
    let a = a.push(label("__rt_asf_done"));
    let b = b.push(label("__rt_asf_done"));
    lemma_append_push(out, b, ins("ret"));
    let a = a.push(ins("ret"));
    let b = b.push(ins("ret"));
    lemma_stream_filter_strip_tags_appends(a, t);
    lemma_stream_filter_strip_tags_appends(b, t);
    lemma_append_assoc(out, b, stream_filter_strip_tags(Seq::empty(), t));
    let a = stream_filter_strip_tags(a, t);
    let b = stream_filter_strip_tags(b, t);
    lemma_stream_filter_base64_decode_appends(a, t);
    lemma_stream_filter_base64_decode_appends(b, t);
    lemma_append_assoc(out, b, stream_filter_base64_decode(Seq::empty(), t));
    let a = stream_filter_base64_decode(a, t);
    let b = stream_filter_base64_decode(b, t);
    lemma_stream_filter_dechunk_appends(a, t);
    lemma_stream_filter_dechunk_appends(b, t);
    lemma_append_assoc(out, b, stream_filter_dechunk(Seq::empty(), t));
    let a = stream_filter_dechunk(a, t);
    let b = stream_filter_dechunk(b, t);
    lemma_stream_filter_quoted_printable_decode_appends(a, t);
    lemma_stream_filter_quoted_printable_decode_appends(b, t);
    lemma_append_assoc(out, b, stream_filter_quoted_printable_decode(Seq::empty(), t));
    let a = stream_filter_quoted_printable_decode(a, t);
    let b = stream_filter_quoted_printable_decode(b, t);
    lemma_stream_filter_base64_encode_appends(a, t);
    lemma_stream_filter_base64_encode_appends(b, t);
    lemma_append_assoc(out, b, stream_filter_base64_encode(Seq::empty(), t));
    let a = stream_filter_base64_encode(a, t);
    let b = stream_filter_base64_encode(b, t);
    lemma_stream_filter_quoted_printable_encode_appends(a, t);
    lemma_stream_filter_quoted_printable_encode_appends(b, t);
    lemma_append_assoc(out, b, stream_filter_quoted_printable_encode(Seq::empty(), t));
    let a = stream_filter_quoted_printable_encode(a, t);
    let b = stream_filter_quoted_printable_encode(b, t);
    assert(a == apply_stream_filter_aarch64(out, t));
    assert(b == apply_stream_filter_aarch64(Seq::empty(), t));
}

/// `apply_stream_filter_linux_x86_64` appends a block that does not depend on the listing before it.
proof fn lemma_apply_stream_filter_linux_x86_64_appends(out: Seq<Line>, t: Target)
    ensures
        apply_stream_filter_linux_x86_64(out, t) == out + apply_stream_filter_linux_x86_64(Seq::empty(), t),
{
    let a = out;
    let b = Seq::<Line>::empty();
    lemma_append_empty(out);
    lemma_append_push(out, b, Line::Blank);
    let a = a.push(Line::Blank);
    let b = b.push(Line::Blank);
    lemma_append_push(out, b, comment("--- runtime: apply_stream_filter ---"));
    let a = a.push(comment("--- runtime: apply_stream_filter ---"));
    let b = b.push(comment("--- runtime: apply_stream_filter ---"));
    lemma_append_push(out, b, global("__rt_apply_stream_filter"));
    let a = a.push(global("__rt_apply_stream_filter"));
    let b = b.push(global("__rt_apply_stream_filter"));
    lemma_append_push(out, b, ins("xor r9, r9"));
    let a = a.push(ins("xor r9, r9"));
    let b = b.push(ins("xor r9, r9"));
    lemma_append_push(out, b, label("__rt_asf_loop_x86"));
    let a = a.push(label("__rt_asf_loop_x86"));
    let b = b.push(label("__rt_asf_loop_x86"));
    lemma_append_push(out, b, ins("cmp r9, rdx"));
    let a = a.push(ins("cmp r9, rdx"));
    let b = b.push(ins("cmp r9, rdx"));
    lemma_append_push(out, b, ins("jge __rt_asf_done_x86"));
    let a = a.push(ins("jge __rt_asf_done_x86"));
    let b = b.push(ins("jge __rt_asf_done_x86"));
    lemma_append_push(out, b, ins("movzx r10d, BYTE PTR [rax + r9]"));
    let a = a.push(ins("movzx r10d, BYTE PTR [rax + r9]"));
    let b = b.push(ins("movzx r10d, BYTE PTR [rax + r9]"));
    lemma_append_push(out, b, ins("cmp rcx, 1"));
    let a = a.push(ins("cmp rcx, 1"));
    let b = b.push(ins("cmp rcx, 1"));
    lemma_append_push(out, b, ins("je __rt_asf_upper_x86"));
    let a = a.push(ins("je __rt_asf_upper_x86"));
    let b = b.push(ins("je __rt_asf_upper_x86"));
    lemma_append_push(out, b, ins("cmp rcx, 2"));
    let a = a.push(ins("cmp rcx, 2"));
    let b = b.push(ins("cmp rcx, 2"));
    lemma_append_push(out, b, ins("je __rt_asf_lower_x86"));
    let a = a.push(ins("je __rt_asf_lower_x86"));
    let b = b.push(ins("je __rt_asf_lower_x86"));
    lemma_append_push(out, b, ins("cmp rcx, 3"));
    let a = a.push(ins("cmp rcx, 3"));
    let b = b.push(ins("cmp rcx, 3"));
    lemma_append_push(out, b, ins("je __rt_asf_rot13_x86"));
    let a = a.push(ins("je __rt_asf_rot13_x86"));
    let b = b.push(ins("je __rt_asf_rot13_x86"));
    lemma_append_push(out, b, ins("cmp rcx, 4"));
    let a = a.push(ins("cmp rcx, 4"));
    let b = b.push(ins("cmp rcx, 4"));
    lemma_append_push(out, b, ins("je __rt_asf_strip_tags_x86"));
    let a = a.push(ins("je __rt_asf_strip_tags_x86"));
    let b = b.push(ins("je __rt_asf_strip_tags_x86"));
    lemma_append_push(out, b, ins("cmp rcx, 7"));
    let a = a.push(ins("cmp rcx, 7"));
    let b = b.push(ins("cmp rcx, 7"));
    lemma_append_push(out, b, ins("je __rt_asf_b64_decode_x86"));
    let a = a.push(ins("je __rt_asf_b64_decode_x86"));
    let b = b.push(ins("je __rt_asf_b64_decode_x86"));
    lemma_append_push(out, b, ins("cmp rcx, 5"));
    let a = a.push(ins("cmp rcx, 5"));
    let b = b.push(ins("cmp rcx, 5"));
    lemma_append_push(out, b, ins("je __rt_asf_dechunk_x86"));
    let a = a.push(ins("je __rt_asf_dechunk_x86"));
    let b = b.push(ins("je __rt_asf_dechunk_x86"));
    lemma_append_push(out, b, ins("cmp rcx, 6"));
    let a = a.push(ins("cmp rcx, 6"));
    let b = b.push(ins("cmp rcx, 6"));
    lemma_append_push(out, b, ins("je __rt_asf_b64_encode_x86"));
    let a = a.push(ins("je __rt_asf_b64_encode_x86"));
    let b = b.push(ins("je __rt_asf_b64_encode_x86"));
    lemma_append_push(out, b, ins("cmp rcx, 9"));
    let a = a.push(ins("cmp rcx, 9"));
    let b = b.push(ins("cmp rcx, 9"));
    lemma_append_push(out, b, ins("je __rt_asf_qp_decode_x86"));
    let a = a.push(ins("je __rt_asf_qp_decode_x86"));
    let b = b.push(ins("je __rt_asf_qp_decode_x86"));
    lemma_append_push(out, b, ins("cmp rcx, 8"));
    let a = a.push(ins("cmp rcx, 8"));
    let b = b.push(ins("cmp rcx, 8"));
    lemma_append_push(out, b, ins("je __rt_asf_qp_encode_x86"));
    let a = a.push(ins("je __rt_asf_qp_encode_x86"));
    let b = b.push(ins("je __rt_asf_qp_encode_x86"));
    lemma_append_push(out, b, ins("jmp __rt_asf_next_x86"));
    let a = a.push(ins("jmp __rt_asf_next_x86"));
    let b = b.push(ins("jmp __rt_asf_next_x86"));
    lemma_append_push(out, b, label("__rt_asf_upper_x86"));
    let a = a.push(label("__rt_asf_upper_x86"));
    let b = b.push(label("__rt_asf_upper_x86"));
    lemma_append_push(out, b, ins("cmp r10b, 0x61"));
    let a = a.push(ins("cmp r10b, 0x61"));
    let b = b.push(ins("cmp r10b, 0x61"));
    lemma_append_push(out, b, ins("jl __rt_asf_next_x86"));
    let a = a.push(ins("jl __rt_asf_next_x86"));
    let b = b.push(ins("jl __rt_asf_next_x86"));
    lemma_append_push(out, b, ins("cmp r10b, 0x7A"));
    let a = a.push(ins("cmp r10b, 0x7A"));
    let b = b.push(ins("cmp r10b, 0x7A"));
    lemma_append_push(out, b, ins("jg __rt_asf_next_x86"));
    let a = a.push(ins("jg __rt_asf_next_x86"));
    let b = b.push(ins("jg __rt_asf_next_x86"));
    lemma_append_push(out, b, ins("sub r10b, 0x20"));
    let a = a.push(ins("sub r10b, 0x20"));
    let b = b.push(ins("sub r10b, 0x20"));
    lemma_append_push(out, b, ins("jmp __rt_asf_store_x86"));
    let a = a.push(ins("jmp __rt_asf_store_x86"));
    let b = b.push(ins("jmp __rt_asf_store_x86"));
    lemma_append_push(out, b, label("__rt_asf_lower_x86"));
    let a = a.push(label("__rt_asf_lower_x86"));
    let b = b.push(label("__rt_asf_lower_x86"));
    lemma_append_push(out, b, ins("cmp r10b, 0x41"));
    let a = a.push(ins("cmp r10b, 0x41"));
    let b = b.push(ins("cmp r10b, 0x41"));
    lemma_append_push(out, b, ins("jl __rt_asf_next_x86"));
    let a = a.push(ins("jl __rt_asf_next_x86"));
    let b = b.push(ins("jl __rt_asf_next_x86"));
    lemma_append_push(out, b, ins("cmp r10b, 0x5A"));
    let a = a.push(ins("cmp r10b, 0x5A"));
    let b = b.push(ins("cmp r10b, 0x5A"));
    lemma_append_push(out, b, ins("jg __rt_asf_next_x86"));
    let a = a.push(ins("jg __rt_asf_next_x86"));
    let b = b.push(ins("jg __rt_asf_next_x86"));
    lemma_append_push(out, b, ins("add r10b, 0x20"));
    let a = a.push(ins("add r10b, 0x20"));
    let b = b.push(ins("add r10b, 0x20"));
    lemma_append_push(out, b, ins("jmp __rt_asf_store_x86"));
    let a = a.push(ins("jmp __rt_asf_store_x86"));
    let b = b.push(ins("jmp __rt_asf_store_x86"));
    lemma_append_push(out, b, label("__rt_asf_rot13_x86"));
    let a = a.push(label("__rt_asf_rot13_x86"));
    let b = b.push(label("__rt_asf_rot13_x86"));
    lemma_append_push(out, b, ins("mov r11b, 0x61"));
    let a = a.push(ins("mov r11b, 0x61"));
    let b = b.push(ins("mov r11b, 0x61"));
    lemma_append_push(out, b, ins("cmp r10b, 0x61"));
    let a = a.push(ins("cmp r10b, 0x61"));
    let b = b.push(ins("cmp r10b, 0x61"));
    lemma_append_push(out, b, ins("jl __rt_asf_rot13_upper_x86"));
    let a = a.push(ins("jl __rt_asf_rot13_upper_x86"));
    let b = b.push(ins("jl __rt_asf_rot13_upper_x86"));
    lemma_append_push(out, b, ins("cmp r10b, 0x7A"));
    let a = a.push(ins("cmp r10b, 0x7A"));
    let b = b.push(ins("cmp r10b, 0x7A"));
    lemma_append_push(out, b, ins("jle __rt_asf_rot13_apply_x86"));
    let a = a.push(ins("jle __rt_asf_rot13_apply_x86"));
    let b = b.push(ins("jle __rt_asf_rot13_apply_x86"));
    lemma_append_push(out, b, label("__rt_asf_rot13_upper_x86"));
    let a = a.push(label("__rt_asf_rot13_upper_x86"));
    let b = b.push(label("__rt_asf_rot13_upper_x86"));
    lemma_append_push(out, b, ins("mov r11b, 0x41"));
    let a = a.push(ins("mov r11b, 0x41"));
    let b = b.push(ins("mov r11b, 0x41"));
    lemma_append_push(out, b, ins("cmp r10b, 0x41"));
    let a = a.push(ins("cmp r10b, 0x41"));
    let b = b.push(ins("cmp r10b, 0x41"));
    lemma_append_push(out, b, ins("jl __rt_asf_next_x86"));
    let a = a.push(ins("jl __rt_asf_next_x86"));
    let b = b.push(ins("jl __rt_asf_next_x86"));
    lemma_append_push(out, b, ins("cmp r10b, 0x5A"));
    let a = a.push(ins("cmp r10b, 0x5A"));
    let b = b.push(ins("cmp r10b, 0x5A"));
    lemma_append_push(out, b, ins("jg __rt_asf_next_x86"));
    let a = a.push(ins("jg __rt_asf_next_x86"));
    let b = b.push(ins("jg __rt_asf_next_x86"));
    lemma_append_push(out, b, label("__rt_asf_rot13_apply_x86"));
    let a = a.push(label("__rt_asf_rot13_apply_x86"));
    let b = b.push(label("__rt_asf_rot13_apply_x86"));
    lemma_append_push(out, b, ins("sub r10b, r11b"));
    let a = a.push(ins("sub r10b, r11b"));
    let b = b.push(ins("sub r10b, r11b"));
    lemma_append_push(out, b, ins("add r10b, 13"));
    let a = a.push(ins("add r10b, 13"));
    let b = b.push(ins("add r10b, 13"));
    lemma_append_push(out, b, ins("cmp r10b, 26"));
    let a = a.push(ins("cmp r10b, 26"));
    let b = b.push(ins("cmp r10b, 26"));
    lemma_append_push(out, b, ins("jl __rt_asf_rot13_nowrap_x86"));
    let a = a.push(ins("jl __rt_asf_rot13_nowrap_x86"));
    let b = b.push(ins("jl __rt_asf_rot13_nowrap_x86"));
    lemma_append_push(out, b, ins("sub r10b, 26"));
    let a = a.push(ins("sub r10b, 26"));
    let b = b.push(ins("sub r10b, 26"));
    lemma_append_push(out, b, label("__rt_asf_rot13_nowrap_x86"));
    let a = a.push(label("__rt_asf_rot13_nowrap_x86"));
    let b = b.push(label("__rt_asf_rot13_nowrap_x86"));
    lemma_append_push(out, b, ins("add r10b, r11b"));
    let a = a.push(ins("add r10b, r11b"));
    let b = b.push(ins("add r10b, r11b"));
    lemma_append_push(out, b, label("__rt_asf_store_x86"));
    let a = a.push(label("__rt_asf_store_x86"));
    let b = b.push(label("__rt_asf_store_x86"));
    lemma_append_push(out, b, ins("mov BYTE PTR [rax + r9], r10b"));
    let a = a.push(ins("mov BYTE PTR [rax + r9], r10b"));
    let b = b.push(ins("mov BYTE PTR [rax + r9], r10b"));
    lemma_append_push(out, b, label("__rt_asf_next_x86"));
    let a = a.push(label("__rt_asf_next_x86"));
    let b = b.push(label("__rt_asf_next_x86"));
    lemma_append_push(out, b, ins("inc r9"));
    let a = a.push(ins("inc r9"));
    let b = b.push(ins("inc r9"));
    lemma_append_push(out, b, ins("jmp __rt_asf_loop_x86"));
    let a = a.push(ins("jmp __rt_asf_loop_x86"));
    let b = b.push(ins("jmp __rt_asf_loop_x86"));
    lemma_append_push(out, b, label("__rt_asf_done_x86"));
    let a = a.push(label("__rt_asf_done_x86"));
    let b = b.push(label("__rt_asf_done_x86"));
    lemma_append_push(out, b, ins("ret"));
    let a = a.push(ins("ret"));
    let b = b.push(ins("ret"));
    lemma_stream_filter_strip_tags_x86_64_appends(a, t);
    lemma_stream_filter_strip_tags_x86_64_appends(b, t);
    lemma_append_assoc(out, b, stream_filter_strip_tags_x86_64(Seq::empty(), t));
    let a = stream_filter_strip_tags_x86_64(a, t);
    let b = stream_filter_strip_tags_x86_64(b, t);
    lemma_stream_filter_base64_decode_x86_64_appends(a, t);
    lemma_stream_filter_base64_decode_x86_64_appends(b, t);
    lemma_append_assoc(out, b, stream_filter_base64_decode_x86_64(Seq::empty(), t));
    let a = stream_filter_base64_decode_x86_64(a, t);
    let b = stream_filter_base64_decode_x86_64(b, t);
    lemma_stream_filter_dechunk_x86_64_appends(a, t);
    lemma_stream_filter_dechunk_x86_64_appends(b, t);
    lemma_append_assoc(out, b, stream_filter_dechunk_x86_64(Seq::empty(), t));
    let a = stream_filter_dechunk_x86_64(a, t);
    let b = stream_filter_dechunk_x86_64(b, t);
    lemma_stream_filter_quoted_printable_decode_x86_64_appends(a, t);
    lemma_stream_filter_quoted_printable_decode_x86_64_appends(b, t);
    lemma_append_assoc(out, b, stream_filter_quoted_printable_decode_x86_64(Seq::empty(), t));
    let a = stream_filter_quoted_printable_decode_x86_64(a, t);
    let b = stream_filter_quoted_printable_decode_x86_64(b, t);
    lemma_stream_filter_base64_encode_x86_64_appends(a, t);
    lemma_stream_filter_base64_encode_x86_64_appends(b, t);
    lemma_append_assoc(out, b, stream_filter_base64_encode_x86_64(Seq::empty(), t));
    let a = stream_filter_base64_encode_x86_64(a, t);
    let b = stream_filter_base64_encode_x86_64(b, t);
    lemma_stream_filter_quoted_printable_encode_x86_64_appends(a, t);
    lemma_stream_filter_quoted_printable_encode_x86_64_appends(b, t);
    lemma_append_assoc(out, b, stream_filter_quoted_printable_encode_x86_64(Seq::empty(), t));
    let a = stream_filter_quoted_printable_encode_x86_64(a, t);
    let b = stream_filter_quoted_printable_encode_x86_64(b, t);
    assert(a == apply_stream_filter_linux_x86_64(out, t));
    assert(b == apply_stream_filter_linux_x86_64(Seq::empty(), t));
}

/// `stream_filter_strip_tags` appends a block that does not depend on the listing before it.
proof fn lemma_stream_filter_strip_tags_appends(out: Seq<Line>, t: Target)
    ensures
        stream_filter_strip_tags(out, t) == out + stream_filter_strip_tags(Seq::empty(), t),
{
    let a = out;
    let b = Seq::<Line>::empty();
    lemma_append_empty(out);
    lemma_append_push(out, b, label("__rt_asf_strip_tags"));
    let a = a.push(label("__rt_asf_strip_tags"));
    let b = b.push(label("__rt_asf_strip_tags"));
    lemma_append_push(out, b, ins("mov x5, #0"));
    let a = a.push(ins("mov x5, #0"));
    let b = b.push(ins("mov x5, #0"));
    lemma_append_push(out, b, ins("mov x6, #0"));
    let a = a.push(ins("mov x6, #0"));
    let b = b.push(ins("mov x6, #0"));
    lemma_append_push(out, b, ins("mov x7, #0"));
    let a = a.push(ins("mov x7, #0"));
    let b = b.push(ins("mov x7, #0"));
    lemma_append_push(out, b, label("__rt_asf_strip_loop"));
    let a = a.push(label("__rt_asf_strip_loop"));
    let b = b.push(label("__rt_asf_strip_loop"));
    lemma_append_push(out, b, ins("cmp x5, x2"));
    let a = a.push(ins("cmp x5, x2"));
    let b = b.push(ins("cmp x5, x2"));
    lemma_append_push(out, b, ins("b.ge __rt_asf_strip_done"));
    let a = a.push(ins("b.ge __rt_asf_strip_done"));
    let b = b.push(ins("b.ge __rt_asf_strip_done"));
    lemma_append_push(out, b, ins("ldrb w8, [x1, x5]"));
    let a = a.push(ins("ldrb w8, [x1, x5]"));
    let b = b.push(ins("ldrb w8, [x1, x5]"));
    lemma_append_push(out, b, ins("cbnz x7, __rt_asf_strip_in_tag"));
    let a = a.push(ins("cbnz x7, __rt_asf_strip_in_tag"));
    let b = b.push(ins("cbnz x7, __rt_asf_strip_in_tag"));
    lemma_append_push(out, b, ins("cmp w8, #60"));
    let a = a.push(ins("cmp w8, #60"));
    let b = b.push(ins("cmp w8, #60"));
    lemma_append_push(out, b, ins("b.eq __rt_asf_strip_enter"));
    let a = a.push(ins("b.eq __rt_asf_strip_enter"));
    let b = b.push(ins("b.eq __rt_asf_strip_enter"));
    lemma_append_push(out, b, ins("strb w8, [x1, x6]"));
    let a = a.push(ins("strb w8, [x1, x6]"));
    let b = b.push(ins("strb w8, [x1, x6]"));
    lemma_append_push(out, b, ins("add x6, x6, #1"));
    let a = a.push(ins("add x6, x6, #1"));
    let b = b.push(ins("add x6, x6, #1"));
    lemma_append_push(out, b, ins("b __rt_asf_strip_advance"));
    let a = a.push(ins("b __rt_asf_strip_advance"));
    let b = b.push(ins("b __rt_asf_strip_advance"));
    lemma_append_push(out, b, label("__rt_asf_strip_enter"));
    let a = a.push(label("__rt_asf_strip_enter"));
    let b = b.push(label("__rt_asf_strip_enter"));
    lemma_append_push(out, b, ins("mov x7, #1"));
    let a = a.push(ins("mov x7, #1"));
    let b = b.push(ins("mov x7, #1"));
    lemma_append_push(out, b, ins("b __rt_asf_strip_advance"));
    let a = a.push(ins("b __rt_asf_strip_advance"));
    let b = b.push(ins("b __rt_asf_strip_advance"));
    lemma_append_push(out, b, label("__rt_asf_strip_in_tag"));
    let a = a.push(label("__rt_asf_strip_in_tag"));
    let b = b.push(label("__rt_asf_strip_in_tag"));
    lemma_append_push(out, b, ins("cmp w8, #62"));
    let a = a.push(ins("cmp w8, #62"));
    let b = b.push(ins("cmp w8, #62"));
    lemma_append_push(out, b, ins("b.ne __rt_asf_strip_advance"));
    let a = a.push(ins("b.ne __rt_asf_strip_advance"));
    let b = b.push(ins("b.ne __rt_asf_strip_advance"));
    lemma_append_push(out, b, ins("mov x7, #0"));
    let a = a.push(ins("mov x7, #0"));
    let b = b.push(ins("mov x7, #0"));
    lemma_append_push(out, b, label("__rt_asf_strip_advance"));
    let a = a.push(label("__rt_asf_strip_advance"));
    let b = b.push(label("__rt_asf_strip_advance"));
    lemma_append_push(out, b, ins("add x5, x5, #1"));
    let a = a.push(ins("add x5, x5, #1"));
    let b = b.push(ins("add x5, x5, #1"));
    lemma_append_push(out, b, ins("b __rt_asf_strip_loop"));
    let a = a.push(ins("b __rt_asf_strip_loop"));
    let b = b.push(ins("b __rt_asf_strip_loop"));
    lemma_append_push(out, b, label("__rt_asf_strip_done"));
    let a = a.push(label("__rt_asf_strip_done"));
    let b = b.push(label("__rt_asf_strip_done"));
    lemma_append_push(out, b, ins("mov x2, x6"));
    let a = a.push(ins("mov x2, x6"));
    let b = b.push(ins("mov x2, x6"));
    lemma_append_push(out, b, ins("ret"));
    let a = a.push(ins("ret"));
    let b = b.push(ins("ret"));
    assert(a == stream_filter_strip_tags(out, t));
    assert(b == stream_filter_strip_tags(Seq::empty(), t));
}

/// `stream_filter_base64_decode` appends a block that does not depend on the listing before it.
proof fn lemma_stream_filter_base64_decode_appends(out: Seq<Line>, t: Target)
    ensures
        stream_filter_base64_decode(out, t) == out + stream_filter_base64_decode(Seq::empty(), t),
{
    let a = out;
    let b = Seq::<Line>::empty();
    lemma_append_empty(out);
    lemma_append_push(out, b, label("__rt_asf_b64_decode"));
    let a = a.push(label("__rt_asf_b64_decode"));
    let b = b.push(label("__rt_asf_b64_decode"));
    lemma_append_push(out, b, ins("mov x5, #0"));
    let a = a.push(ins("mov x5, #0"));
    let b = b.push(ins("mov x5, #0"));
    lemma_append_push(out, b, ins("mov x6, #0"));
    let a = a.push(ins("mov x6, #0"));
    let b = b.push(ins("mov x6, #0"));
    lemma_append_push(out, b, ins("mov x7, #0"));
    let a = a.push(ins("mov x7, #0"));
    let b = b.push(ins("mov x7, #0"));
    lemma_append_push(out, b, ins("mov x4, #0"));
    let a = a.push(ins("mov x4, #0"));
    let b = b.push(ins("mov x4, #0"));
    lemma_append_push(out, b, label("__rt_asf_b64_loop"));
    let a = a.push(label("__rt_asf_b64_loop"));
    let b = b.push(label("__rt_asf_b64_loop"));
    lemma_append_push(out, b, ins("cmp x5, x2"));
    let a = a.push(ins("cmp x5, x2"));
    let b = b.push(ins("cmp x5, x2"));
    lemma_append_push(out, b, ins("b.ge __rt_asf_b64_done"));
    let a = a.push(ins("b.ge __rt_asf_b64_done"));
    let b = b.push(ins("b.ge __rt_asf_b64_done"));
    lemma_append_push(out, b, ins("ldrb w8, [x1, x5]"));
    let a = a.push(ins("ldrb w8, [x1, x5]"));
    let b = b.push(ins("ldrb w8, [x1, x5]"));
    lemma_append_push(out, b, ins("add x5, x5, #1"));
    let a = a.push(ins("add x5, x5, #1"));
    let b = b.push(ins("add x5, x5, #1"));
    lemma_append_push(out, b, ins("cmp w8, #65"));
    let a = a.push(ins("cmp w8, #65"));
    let b = b.push(ins("cmp w8, #65"));
    lemma_append_push(out, b, ins("b.lt __rt_asf_b64_try_digit"));
    let a = a.push(ins("b.lt __rt_asf_b64_try_digit"));
    let b = b.push(ins("b.lt __rt_asf_b64_try_digit"));
    lemma_append_push(out, b, ins("cmp w8, #90"));
    let a = a.push(ins("cmp w8, #90"));
    let b = b.push(ins("cmp w8, #90"));
    lemma_append_push(out, b, ins("b.gt __rt_asf_b64_try_lower"));
    let a = a.push(ins("b.gt __rt_asf_b64_try_lower"));
    let b = b.push(ins("b.gt __rt_asf_b64_try_lower"));
    lemma_append_push(out, b, ins("sub w8, w8, #65"));
    let a = a.push(ins("sub w8, w8, #65"));
    let b = b.push(ins("sub w8, w8, #65"));
    lemma_append_push(out, b, ins("b __rt_asf_b64_add"));
    let a = a.push(ins("b __rt_asf_b64_add"));
    let b = b.push(ins("b __rt_asf_b64_add"));
    lemma_append_push(out, b, label("__rt_asf_b64_try_lower"));
    let a = a.push(label("__rt_asf_b64_try_lower"));
    let b = b.push(label("__rt_asf_b64_try_lower"));
    lemma_append_push(out, b, ins("cmp w8, #97"));
    let a = a.push(ins("cmp w8, #97"));
    let b = b.push(ins("cmp w8, #97"));
    lemma_append_push(out, b, ins("b.lt __rt_asf_b64_try_plus"));
    let a = a.push(ins("b.lt __rt_asf_b64_try_plus"));
    let b = b.push(ins("b.lt __rt_asf_b64_try_plus"));
    lemma_append_push(out, b, ins("cmp w8, #122"));
    let a = a.push(ins("cmp w8, #122"));
    let b = b.push(ins("cmp w8, #122"));
    lemma_append_push(out, b, ins("b.gt __rt_asf_b64_try_plus"));
    let a = a.push(ins("b.gt __rt_asf_b64_try_plus"));
    let b = b.push(ins("b.gt __rt_asf_b64_try_plus"));
    lemma_append_push(out, b, ins("sub w8, w8, #71"));
    let a = a.push(ins("sub w8, w8, #71"));
    let b = b.push(ins("sub w8, w8, #71"));
    lemma_append_push(out, b, ins("b __rt_asf_b64_add"));
    let a = a.push(ins("b __rt_asf_b64_add"));
    let b = b.push(ins("b __rt_asf_b64_add"));
    lemma_append_push(out, b, label("__rt_asf_b64_try_digit"));
    let a = a.push(label("__rt_asf_b64_try_digit"));
    let b = b.push(label("__rt_asf_b64_try_digit"));
    lemma_append_push(out, b, ins("cmp w8, #48"));
    let a = a.push(ins("cmp w8, #48"));
    let b = b.push(ins("cmp w8, #48"));
    lemma_append_push(out, b, ins("b.lt __rt_asf_b64_try_plus"));
    let a = a.push(ins("b.lt __rt_asf_b64_try_plus"));
    let b = b.push(ins("b.lt __rt_asf_b64_try_plus"));
    lemma_append_push(out, b, ins("cmp w8, #57"));
    let a = a.push(ins("cmp w8, #57"));
    let b = b.push(ins("cmp w8, #57"));
    lemma_append_push(out, b, ins("b.gt __rt_asf_b64_try_plus"));
    let a = a.push(ins("b.gt __rt_asf_b64_try_plus"));
    let b = b.push(ins("b.gt __rt_asf_b64_try_plus"));
    lemma_append_push(out, b, ins("add w8, w8, #4"));
    let a = a.push(ins("add w8, w8, #4"));
    let b = b.push(ins("add w8, w8, #4"));
    lemma_append_push(out, b, ins("b __rt_asf_b64_add"));
    let a = a.push(ins("b __rt_asf_b64_add"));
    let b = b.push(ins("b __rt_asf_b64_add"));
    lemma_append_push(out, b, label("__rt_asf_b64_try_plus"));
    let a = a.push(label("__rt_asf_b64_try_plus"));
    let b = b.push(label("__rt_asf_b64_try_plus"));
    lemma_append_push(out, b, ins("cmp w8, #43"));
    let a = a.push(ins("cmp w8, #43"));
    let b = b.push(ins("cmp w8, #43"));
    lemma_append_push(out, b, ins("b.eq __rt_asf_b64_plus"));
    let a = a.push(ins("b.eq __rt_asf_b64_plus"));
    let b = b.push(ins("b.eq __rt_asf_b64_plus"));
    lemma_append_push(out, b, ins("cmp w8, #47"));
    let a = a.push(ins("cmp w8, #47"));
    let b = b.push(ins("cmp w8, #47"));
    lemma_append_push(out, b, ins("b.eq __rt_asf_b64_slash"));
    let a = a.push(ins("b.eq __rt_asf_b64_slash"));
    let b = b.push(ins("b.eq __rt_asf_b64_slash"));
    lemma_append_push(out, b, ins("b __rt_asf_b64_loop"));
    let a = a.push(ins("b __rt_asf_b64_loop"));
    let b = b.push(ins("b __rt_asf_b64_loop"));
    lemma_append_push(out, b, label("__rt_asf_b64_plus"));
    let a = a.push(label("__rt_asf_b64_plus"));
    let b = b.push(label("__rt_asf_b64_plus"));
    lemma_append_push(out, b, ins("mov w8, #62"));
    let a = a.push(ins("mov w8, #62"));
    let b = b.push(ins("mov w8, #62"));
    lemma_append_push(out, b, ins("b __rt_asf_b64_add"));
    let a = a.push(ins("b __rt_asf_b64_add"));
    let b = b.push(ins("b __rt_asf_b64_add"));
    lemma_append_push(out, b, label("__rt_asf_b64_slash"));
    let a = a.push(label("__rt_asf_b64_slash"));
    let b = b.push(label("__rt_asf_b64_slash"));
    lemma_append_push(out, b, ins("mov w8, #63"));
    let a = a.push(ins("mov w8, #63"));
    let b = b.push(ins("mov w8, #63"));
    lemma_append_push(out, b, label("__rt_asf_b64_add"));
    let a = a.push(label("__rt_asf_b64_add"));
    let b = b.push(label("__rt_asf_b64_add"));
    lemma_append_push(out, b, ins("lsl x7, x7, #6"));
    let a = a.push(ins("lsl x7, x7, #6"));
    let b = b.push(ins("lsl x7, x7, #6"));
    lemma_append_push(out, b, ins("orr x7, x7, x8"));
    let a = a.push(ins("orr x7, x7, x8"));
    let b = b.push(ins("orr x7, x7, x8"));
    lemma_append_push(out, b, ins("add x4, x4, #1"));
    let a = a.push(ins("add x4, x4, #1"));
    let b = b.push(ins("add x4, x4, #1"));
    lemma_append_push(out, b, ins("cmp x4, #4"));
    let a = a.push(ins("cmp x4, #4"));
    let b = b.push(ins("cmp x4, #4"));
    lemma_append_push(out, b, ins("b.lt __rt_asf_b64_loop"));
    let a = a.push(ins("b.lt __rt_asf_b64_loop"));
    let b = b.push(ins("b.lt __rt_asf_b64_loop"));
    lemma_append_push(out, b, ins("ubfx w9, w7, #16, #8"));
    let a = a.push(ins("ubfx w9, w7, #16, #8"));
    let b = b.push(ins("ubfx w9, w7, #16, #8"));
    lemma_append_push(out, b, ins("strb w9, [x1, x6]"));
    let a = a.push(ins("strb w9, [x1, x6]"));
    let b = b.push(ins("strb w9, [x1, x6]"));
    lemma_append_push(out, b, ins("add x6, x6, #1"));
    let a = a.push(ins("add x6, x6, #1"));
    let b = b.push(ins("add x6, x6, #1"));
    lemma_append_push(out, b, ins("ubfx w9, w7, #8, #8"));
    let a = a.push(ins("ubfx w9, w7, #8, #8"));
    let b = b.push(ins("ubfx w9, w7, #8, #8"));
    lemma_append_push(out, b, ins("strb w9, [x1, x6]"));
    let a = a.push(ins("strb w9, [x1, x6]"));
    let b = b.push(ins("strb w9, [x1, x6]"));
    lemma_append_push(out, b, ins("add x6, x6, #1"));
    let a = a.push(ins("add x6, x6, #1"));
    let b = b.push(ins("add x6, x6, #1"));
    lemma_append_push(out, b, ins("ubfx w9, w7, #0, #8"));
    let a = a.push(ins("ubfx w9, w7, #0, #8"));
    let b = b.push(ins("ubfx w9, w7, #0, #8"));
    lemma_append_push(out, b, ins("strb w9, [x1, x6]"));
    let a = a.push(ins("strb w9, [x1, x6]"));
    let b = b.push(ins("strb w9, [x1, x6]"));
    lemma_append_push(out, b, ins("add x6, x6, #1"));
    let a = a.push(ins("add x6, x6, #1"));
    let b = b.push(ins("add x6, x6, #1"));
    lemma_append_push(out, b, ins("mov x4, #0"));
    let a = a.push(ins("mov x4, #0"));
    let b = b.push(ins("mov x4, #0"));
    lemma_append_push(out, b, ins("mov x7, #0"));
    let a = a.push(ins("mov x7, #0"));
    let b = b.push(ins("mov x7, #0"));
    lemma_append_push(out, b, ins("b __rt_asf_b64_loop"));
    let a = a.push(ins("b __rt_asf_b64_loop"));
    let b = b.push(ins("b __rt_asf_b64_loop"));
    lemma_append_push(out, b, label("__rt_asf_b64_done"));
    let a = a.push(label("__rt_asf_b64_done"));
    let b = b.push(label("__rt_asf_b64_done"));
    lemma_append_push(out, b, ins("cmp x4, #2"));
    let a = a.push(ins("cmp x4, #2"));
    let b = b.push(ins("cmp x4, #2"));
    lemma_append_push(out, b, ins("b.lt __rt_asf_b64_finish"));
    let a = a.push(ins("b.lt __rt_asf_b64_finish"));
    let b = b.push(ins("b.lt __rt_asf_b64_finish"));
    lemma_append_push(out, b, ins("cmp x4, #3"));
    let a = a.push(ins("cmp x4, #3"));
    let b = b.push(ins("cmp x4, #3"));
    lemma_append_push(out, b, ins("b.eq __rt_asf_b64_three"));
    let a = a.push(ins("b.eq __rt_asf_b64_three"));
    let b = b.push(ins("b.eq __rt_asf_b64_three"));
    lemma_append_push(out, b, ins("lsl x7, x7, #12"));
    let a = a.push(ins("lsl x7, x7, #12"));
    let b = b.push(ins("lsl x7, x7, #12"));
    lemma_append_push(out, b, ins("ubfx w9, w7, #16, #8"));
    let a = a.push(ins("ubfx w9, w7, #16, #8"));
    let b = b.push(ins("ubfx w9, w7, #16, #8"));
    lemma_append_push(out, b, ins("strb w9, [x1, x6]"));
    let a = a.push(ins("strb w9, [x1, x6]"));
    let b = b.push(ins("strb w9, [x1, x6]"));
    lemma_append_push(out, b, ins("add x6, x6, #1"));
    let a = a.push(ins("add x6, x6, #1"));
    let b = b.push(ins("add x6, x6, #1"));
    lemma_append_push(out, b, ins("b __rt_asf_b64_finish"));
    let a = a.push(ins("b __rt_asf_b64_finish"));
    let b = b.push(ins("b __rt_asf_b64_finish"));
    lemma_append_push(out, b, label("__rt_asf_b64_three"));
    let a = a.push(label("__rt_asf_b64_three"));
    let b = b.push(label("__rt_asf_b64_three"));
    lemma_append_push(out, b, ins("lsl x7, x7, #6"));
    let a = a.push(ins("lsl x7, x7, #6"));
    let b = b.push(ins("lsl x7, x7, #6"));
    lemma_append_push(out, b, ins("ubfx w9, w7, #16, #8"));
    let a = a.push(ins("ubfx w9, w7, #16, #8"));
    let b = b.push(ins("ubfx w9, w7, #16, #8"));
    lemma_append_push(out, b, ins("strb w9, [x1, x6]"));
    let a = a.push(ins("strb w9, [x1, x6]"));
    let b = b.push(ins("strb w9, [x1, x6]"));
    lemma_append_push(out, b, ins("add x6, x6, #1"));
    let a = a.push(ins("add x6, x6, #1"));
    let b = b.push(ins("add x6, x6, #1"));
    lemma_append_push(out, b, ins("ubfx w9, w7, #8, #8"));
    let a = a.push(ins("ubfx w9, w7, #8, #8"));
    let b = b.push(ins("ubfx w9, w7, #8, #8"));
    lemma_append_push(out, b, ins("strb w9, [x1, x6]"));
    let a = a.push(ins("strb w9, [x1, x6]"));
    let b = b.push(ins("strb w9, [x1, x6]"));
    lemma_append_push(out, b, ins("add x6, x6, #1"));
    let a = a.push(ins("add x6, x6, #1"));
    let b = b.push(ins("add x6, x6, #1"));
    lemma_append_push(out, b, label("__rt_asf_b64_finish"));
    let a = a.push(label("__rt_asf_b64_finish"));
    let b = b.push(label("__rt_asf_b64_finish"));
    lemma_append_push(out, b, ins("mov x2, x6"));
    let a = a.push(ins("mov x2, x6"));
    let b = b.push(ins("mov x2, x6"));
    lemma_append_push(out, b, ins("ret"));
    let a = a.push(ins("ret"));
    let b = b.push(ins("ret"));
    assert(a == stream_filter_base64_decode(out, t));
    assert(b == stream_filter_base64_decode(Seq::empty(), t));
}

/// `stream_filter_dechunk` appends a block that does not depend on the listing before it.
proof fn lemma_stream_filter_dechunk_appends(out: Seq<Line>, t: Target)
    ensures
        stream_filter_dechunk(out, t) == out + stream_filter_dechunk(Seq::empty(), t),
{
    let a = out;
    let b = Seq::<Line>::empty();
    lemma_append_empty(out);
    lemma_append_push(out, b, label("__rt_asf_dechunk"));
    let a = a.push(label("__rt_asf_dechunk"));
    let b = b.push(label("__rt_asf_dechunk"));
    lemma_append_push(out, b, ins("mov x5, #0"));
    let a = a.push(ins("mov x5, #0"));
    let b = b.push(ins("mov x5, #0"));
    lemma_append_push(out, b, ins("mov x6, #0"));
    let a = a.push(ins("mov x6, #0"));
    let b = b.push(ins("mov x6, #0"));
    lemma_append_push(out, b, label("__rt_asf_dechunk_size_loop"));
    let a = a.push(label("__rt_asf_dechunk_size_loop"));
    let b = b.push(label("__rt_asf_dechunk_size_loop"));
    lemma_append_push(out, b, ins("mov x7, #0"));
    let a = a.push(ins("mov x7, #0"));
    let b = b.push(ins("mov x7, #0"));
    lemma_append_push(out, b, label("__rt_asf_dechunk_size_read"));
    let a = a.push(label("__rt_asf_dechunk_size_read"));
    let b = b.push(label("__rt_asf_dechunk_size_read"));
    lemma_append_push(out, b, ins("cmp x5, x2"));
    let a = a.push(ins("cmp x5, x2"));
    let b = b.push(ins("cmp x5, x2"));
    lemma_append_push(out, b, ins("b.ge __rt_asf_dechunk_done"));
    let a = a.push(ins("b.ge __rt_asf_dechunk_done"));
    let b = b.push(ins("b.ge __rt_asf_dechunk_done"));
    lemma_append_push(out, b, ins("ldrb w8, [x1, x5]"));
    let a = a.push(ins("ldrb w8, [x1, x5]"));
    let b = b.push(ins("ldrb w8, [x1, x5]"));
    lemma_append_push(out, b, ins("add x5, x5, #1"));
    let a = a.push(ins("add x5, x5, #1"));
    let b = b.push(ins("add x5, x5, #1"));
    lemma_append_push(out, b, ins("cmp w8, #13"));
    let a = a.push(ins("cmp w8, #13"));
    let b = b.push(ins("cmp w8, #13"));
    lemma_append_push(out, b, ins("b.eq __rt_asf_dechunk_size_eol"));
    let a = a.push(ins("b.eq __rt_asf_dechunk_size_eol"));
    let b = b.push(ins("b.eq __rt_asf_dechunk_size_eol"));
    lemma_append_push(out, b, ins("cmp w8, #59"));
    let a = a.push(ins("cmp w8, #59"));
    let b = b.push(ins("cmp w8, #59"));
    lemma_append_push(out, b, ins("b.eq __rt_asf_dechunk_skip_to_eol"));
    let a = a.push(ins("b.eq __rt_asf_dechunk_skip_to_eol"));
    let b = b.push(ins("b.eq __rt_asf_dechunk_skip_to_eol"));
    lemma_append_push(out, b, ins("cmp w8, #48"));
    let a = a.push(ins("cmp w8, #48"));
    let b = b.push(ins("cmp w8, #48"));
    lemma_append_push(out, b, ins("b.lt __rt_asf_dechunk_size_read"));
    let a = a.push(ins("b.lt __rt_asf_dechunk_size_read"));
    let b = b.push(ins("b.lt __rt_asf_dechunk_size_read"));
    lemma_append_push(out, b, ins("cmp w8, #57"));
    let a = a.push(ins("cmp w8, #57"));
    let b = b.push(ins("cmp w8, #57"));
    lemma_append_push(out, b, ins("b.le __rt_asf_dechunk_size_digit"));
    let a = a.push(ins("b.le __rt_asf_dechunk_size_digit"));
    let b = b.push(ins("b.le __rt_asf_dechunk_size_digit"));
    lemma_append_push(out, b, ins("orr w8, w8, #0x20"));
    let a = a.push(ins("orr w8, w8, #0x20"));
    let b = b.push(ins("orr w8, w8, #0x20"));
    lemma_append_push(out, b, ins("cmp w8, #97"));
    let a = a.push(ins("cmp w8, #97"));
    let b = b.push(ins("cmp w8, #97"));
    lemma_append_push(out, b, ins("b.lt __rt_asf_dechunk_size_read"));
    let a = a.push(ins("b.lt __rt_asf_dechunk_size_read"));
    let b = b.push(ins("b.lt __rt_asf_dechunk_size_read"));
    lemma_append_push(out, b, ins("cmp w8, #102"));
    let a = a.push(ins("cmp w8, #102"));
    let b = b.push(ins("cmp w8, #102"));
    lemma_append_push(out, b, ins("b.gt __rt_asf_dechunk_size_read"));
    let a = a.push(ins("b.gt __rt_asf_dechunk_size_read"));
    let b = b.push(ins("b.gt __rt_asf_dechunk_size_read"));
    lemma_append_push(out, b, ins("sub w8, w8, #87"));
    let a = a.push(ins("sub w8, w8, #87"));
    let b = b.push(ins("sub w8, w8, #87"));
    lemma_append_push(out, b, ins("b __rt_asf_dechunk_size_acc"));
    let a = a.push(ins("b __rt_asf_dechunk_size_acc"));
    let b = b.push(ins("b __rt_asf_dechunk_size_acc"));
    lemma_append_push(out, b, label("__rt_asf_dechunk_size_digit"));
    let a = a.push(label("__rt_asf_dechunk_size_digit"));
    let b = b.push(label("__rt_asf_dechunk_size_digit"));
    lemma_append_push(out, b, ins("sub w8, w8, #48"));
    let a = a.push(ins("sub w8, w8, #48"));
    let b = b.push(ins("sub w8, w8, #48"));
    lemma_append_push(out, b, label("__rt_asf_dechunk_size_acc"));
    let a = a.push(label("__rt_asf_dechunk_size_acc"));
    let b = b.push(label("__rt_asf_dechunk_size_acc"));
    lemma_append_push(out, b, ins("lsl x7, x7, #4"));
    let a = a.push(ins("lsl x7, x7, #4"));
    let b = b.push(ins("lsl x7, x7, #4"));
    lemma_append_push(out, b, ins("orr x7, x7, x8"));
    let a = a.push(ins("orr x7, x7, x8"));
    let b = b.push(ins("orr x7, x7, x8"));
    lemma_append_push(out, b, ins("b __rt_asf_dechunk_size_read"));
    let a = a.push(ins("b __rt_asf_dechunk_size_read"));
    let b = b.push(ins("b __rt_asf_dechunk_size_read"));
    lemma_append_push(out, b, label("__rt_asf_dechunk_skip_to_eol"));
    let a = a.push(label("__rt_asf_dechunk_skip_to_eol"));
    let b = b.push(label("__rt_asf_dechunk_skip_to_eol"));
    lemma_append_push(out, b, ins("cmp x5, x2"));
    let a = a.push(ins("cmp x5, x2"));
    let b = b.push(ins("cmp x5, x2"));
    lemma_append_push(out, b, ins("b.ge __rt_asf_dechunk_done"));
    let a = a.push(ins("b.ge __rt_asf_dechunk_done"));
    let b = b.push(ins("b.ge __rt_asf_dechunk_done"));
    lemma_append_push(out, b, ins("ldrb w8, [x1, x5]"));
    let a = a.push(ins("ldrb w8, [x1, x5]"));
    let b = b.push(ins("ldrb w8, [x1, x5]"));
    lemma_append_push(out, b, ins("add x5, x5, #1"));
    let a = a.push(ins("add x5, x5, #1"));
    let b = b.push(ins("add x5, x5, #1"));
    lemma_append_push(out, b, ins("cmp w8, #13"));
    let a = a.push(ins("cmp w8, #13"));
    let b = b.push(ins("cmp w8, #13"));
    lemma_append_push(out, b, ins("b.ne __rt_asf_dechunk_skip_to_eol"));
    let a = a.push(ins("b.ne __rt_asf_dechunk_skip_to_eol"));
    let b = b.push(ins("b.ne __rt_asf_dechunk_skip_to_eol"));
    lemma_append_push(out, b, label("__rt_asf_dechunk_size_eol"));
    let a = a.push(label("__rt_asf_dechunk_size_eol"));
    let b = b.push(label("__rt_asf_dechunk_size_eol"));
    lemma_append_push(out, b, ins("cmp x5, x2"));
    let a = a.push(ins("cmp x5, x2"));
    let b = b.push(ins("cmp x5, x2"));
    lemma_append_push(out, b, ins("b.ge __rt_asf_dechunk_done"));
    let a = a.push(ins("b.ge __rt_asf_dechunk_done"));
    let b = b.push(ins("b.ge __rt_asf_dechunk_done"));
    lemma_append_push(out, b, ins("ldrb w8, [x1, x5]"));
    let a = a.push(ins("ldrb w8, [x1, x5]"));
    let b = b.push(ins("ldrb w8, [x1, x5]"));
    lemma_append_push(out, b, ins("cmp w8, #10"));
    let a = a.push(ins("cmp w8, #10"));
    let b = b.push(ins("cmp w8, #10"));
    lemma_append_push(out, b, ins("b.ne __rt_asf_dechunk_skip_lf"));
    let a = a.push(ins("b.ne __rt_asf_dechunk_skip_lf"));
    let b = b.push(ins("b.ne __rt_asf_dechunk_skip_lf"));
    lemma_append_push(out, b, ins("add x5, x5, #1"));
    let a = a.push(ins("add x5, x5, #1"));
    let b = b.push(ins("add x5, x5, #1"));
    lemma_append_push(out, b, label("__rt_asf_dechunk_skip_lf"));
    let a = a.push(label("__rt_asf_dechunk_skip_lf"));
    let b = b.push(label("__rt_asf_dechunk_skip_lf"));
    lemma_append_push(out, b, ins("cbz x7, __rt_asf_dechunk_done"));
    let a = a.push(ins("cbz x7, __rt_asf_dechunk_done"));
    let b = b.push(ins("cbz x7, __rt_asf_dechunk_done"));
    lemma_append_push(out, b, ins("mov x9, #0"));
    let a = a.push(ins("mov x9, #0"));
    let b = b.push(ins("mov x9, #0"));
    lemma_append_push(out, b, label("__rt_asf_dechunk_copy_loop"));
    let a = a.push(label("__rt_asf_dechunk_copy_loop"));
    let b = b.push(label("__rt_asf_dechunk_copy_loop"));
    lemma_append_push(out, b, ins("cmp x9, x7"));
    let a = a.push(ins("cmp x9, x7"));
    let b = b.push(ins("cmp x9, x7"));
    lemma_append_push(out, b, ins("b.ge __rt_asf_dechunk_copy_done"));
    let a = a.push(ins("b.ge __rt_asf_dechunk_copy_done"));
    let b = b.push(ins("b.ge __rt_asf_dechunk_copy_done"));
    lemma_append_push(out, b, ins("cmp x5, x2"));
    let a = a.push(ins("cmp x5, x2"));
    let b = b.push(ins("cmp x5, x2"));
    lemma_append_push(out, b, ins("b.ge __rt_asf_dechunk_done"));
    let a = a.push(ins("b.ge __rt_asf_dechunk_done"));
    let b = b.push(ins("b.ge __rt_asf_dechunk_done"));
    lemma_append_push(out, b, ins("ldrb w8, [x1, x5]"));
    let a = a.push(ins("ldrb w8, [x1, x5]"));
    let b = b.push(ins("ldrb w8, [x1, x5]"));
    lemma_append_push(out, b, ins("strb w8, [x1, x6]"));
    let a = a.push(ins("strb w8, [x1, x6]"));
    let b = b.push(ins("strb w8, [x1, x6]"));
    lemma_append_push(out, b, ins("add x5, x5, #1"));
    let a = a.push(ins("add x5, x5, #1"));
    let b = b.push(ins("add x5, x5, #1"));
    lemma_append_push(out, b, ins("add x6, x6, #1"));
    let a = a.push(ins("add x6, x6, #1"));
    let b = b.push(ins("add x6, x6, #1"));
    lemma_append_push(out, b, ins("add x9, x9, #1"));
    let a = a.push(ins("add x9, x9, #1"));
    let b = b.push(ins("add x9, x9, #1"));
    lemma_append_push(out, b, ins("b __rt_asf_dechunk_copy_loop"));
    let a = a.push(ins("b __rt_asf_dechunk_copy_loop"));
    let b = b.push(ins("b __rt_asf_dechunk_copy_loop"));
    lemma_append_push(out, b, label("__rt_asf_dechunk_copy_done"));
    let a = a.push(label("__rt_asf_dechunk_copy_done"));
    let b = b.push(label("__rt_asf_dechunk_copy_done"));
    lemma_append_push(out, b, ins("cmp x5, x2"));
    let a = a.push(ins("cmp x5, x2"));
    let b = b.push(ins("cmp x5, x2"));
    lemma_append_push(out, b, ins("b.ge __rt_asf_dechunk_size_loop"));
    let a = a.push(ins("b.ge __rt_asf_dechunk_size_loop"));
    let b = b.push(ins("b.ge __rt_asf_dechunk_size_loop"));
    lemma_append_push(out, b, ins("ldrb w8, [x1, x5]"));
    let a = a.push(ins("ldrb w8, [x1, x5]"));
    let b = b.push(ins("ldrb w8, [x1, x5]"));
    lemma_append_push(out, b, ins("cmp w8, #13"));
    let a = a.push(ins("cmp w8, #13"));
    let b = b.push(ins("cmp w8, #13"));
    lemma_append_push(out, b, ins("b.ne __rt_asf_dechunk_size_loop"));
    let a = a.push(ins("b.ne __rt_asf_dechunk_size_loop"));
    let b = b.push(ins("b.ne __rt_asf_dechunk_size_loop"));
    lemma_append_push(out, b, ins("add x5, x5, #1"));
    let a = a.push(ins("add x5, x5, #1"));
    let b = b.push(ins("add x5, x5, #1"));
    lemma_append_push(out, b, ins("cmp x5, x2"));
    let a = a.push(ins("cmp x5, x2"));
    let b = b.push(ins("cmp x5, x2"));
    lemma_append_push(out, b, ins("b.ge __rt_asf_dechunk_size_loop"));
    let a = a.push(ins("b.ge __rt_asf_dechunk_size_loop"));
    let b = b.push(ins("b.ge __rt_asf_dechunk_size_loop"));
    lemma_append_push(out, b, ins("ldrb w8, [x1, x5]"));
    let a = a.push(ins("ldrb w8, [x1, x5]"));
    let b = b.push(ins("ldrb w8, [x1, x5]"));
    lemma_append_push(out, b, ins("cmp w8, #10"));
    let a = a.push(ins("cmp w8, #10"));
    let b = b.push(ins("cmp w8, #10"));
    lemma_append_push(out, b, ins("b.ne __rt_asf_dechunk_size_loop"));
    let a = a.push(ins("b.ne __rt_asf_dechunk_size_loop"));
    let b = b.push(ins("b.ne __rt_asf_dechunk_size_loop"));
    lemma_append_push(out, b, ins("add x5, x5, #1"));
    let a = a.push(ins("add x5, x5, #1"));
    let b = b.push(ins("add x5, x5, #1"));
    lemma_append_push(out, b, ins("b __rt_asf_dechunk_size_loop"));
    let a = a.push(ins("b __rt_asf_dechunk_size_loop"));
    let b = b.push(ins("b __rt_asf_dechunk_size_loop"));
    lemma_append_push(out, b, label("__rt_asf_dechunk_done"));
    let a = a.push(label("__rt_asf_dechunk_done"));
    let b = b.push(label("__rt_asf_dechunk_done"));
    lemma_append_push(out, b, ins("mov x2, x6"));
    let a = a.push(ins("mov x2, x6"));
    let b = b.push(ins("mov x2, x6"));
    lemma_append_push(out, b, ins("ret"));
    let a = a.push(ins("ret"));
    let b = b.push(ins("ret"));
    assert(a == stream_filter_dechunk(out, t));
    assert(b == stream_filter_dechunk(Seq::empty(), t));
}

/// `stream_filter_quoted_printable_decode` appends a block that does not depend on the listing before it.
proof fn lemma_stream_filter_quoted_printable_decode_appends(out: Seq<Line>, t: Target)
    ensures
        stream_filter_quoted_printable_decode(out, t) == out + stream_filter_quoted_printable_decode(Seq::empty(), t),
{
    let a = out;
    let b = Seq::<Line>::empty();
    lemma_append_empty(out);
    lemma_append_push(out, b, label("__rt_asf_qp_decode"));
    let a = a.push(label("__rt_asf_qp_decode"));
    let b = b.push(label("__rt_asf_qp_decode"));
    lemma_append_push(out, b, ins("mov x5, #0"));
    let a = a.push(ins("mov x5, #0"));
    let b = b.push(ins("mov x5, #0"));
    lemma_append_push(out, b, ins("mov x6, #0"));
    let a = a.push(ins("mov x6, #0"));
    let b = b.push(ins("mov x6, #0"));
    lemma_append_push(out, b, label("__rt_asf_qp_loop"));
    let a = a.push(label("__rt_asf_qp_loop"));
    let b = b.push(label("__rt_asf_qp_loop"));
    lemma_append_push(out, b, ins("cmp x5, x2"));
    let a = a.push(ins("cmp x5, x2"));
    let b = b.push(ins("cmp x5, x2"));
    lemma_append_push(out, b, ins("b.ge __rt_asf_qp_done"));
    let a = a.push(ins("b.ge __rt_asf_qp_done"));
    let b = b.push(ins("b.ge __rt_asf_qp_done"));
    lemma_append_push(out, b, ins("ldrb w8, [x1, x5]"));
    let a = a.push(ins("ldrb w8, [x1, x5]"));
    let b = b.push(ins("ldrb w8, [x1, x5]"));
    lemma_append_push(out, b, ins("add x5, x5, #1"));
    let a = a.push(ins("add x5, x5, #1"));
    let b = b.push(ins("add x5, x5, #1"));
    lemma_append_push(out, b, ins("cmp w8, #61"));
    let a = a.push(ins("cmp w8, #61"));
    let b = b.push(ins("cmp w8, #61"));
    lemma_append_push(out, b, ins("b.eq __rt_asf_qp_escape"));
    let a = a.push(ins("b.eq __rt_asf_qp_escape"));
    let b = b.push(ins("b.eq __rt_asf_qp_escape"));
    lemma_append_push(out, b, ins("strb w8, [x1, x6]"));
    let a = a.push(ins("strb w8, [x1, x6]"));
    let b = b.push(ins("strb w8, [x1, x6]"));
    lemma_append_push(out, b, ins("add x6, x6, #1"));
    let a = a.push(ins("add x6, x6, #1"));
    let b = b.push(ins("add x6, x6, #1"));
    lemma_append_push(out, b, ins("b __rt_asf_qp_loop"));
    let a = a.push(ins("b __rt_asf_qp_loop"));
    let b = b.push(ins("b __rt_asf_qp_loop"));
    lemma_append_push(out, b, label("__rt_asf_qp_escape"));
    let a = a.push(label("__rt_asf_qp_escape"));
    let b = b.push(label("__rt_asf_qp_escape"));
    lemma_append_push(out, b, ins("cmp x5, x2"));
    let a = a.push(ins("cmp x5, x2"));
    let b = b.push(ins("cmp x5, x2"));
    lemma_append_push(out, b, ins("b.ge __rt_asf_qp_done"));
    let a = a.push(ins("b.ge __rt_asf_qp_done"));
    let b = b.push(ins("b.ge __rt_asf_qp_done"));
    lemma_append_push(out, b, ins("ldrb w8, [x1, x5]"));
    let a = a.push(ins("ldrb w8, [x1, x5]"));
    let b = b.push(ins("ldrb w8, [x1, x5]"));
    lemma_append_push(out, b, ins("cmp w8, #13"));
    let a = a.push(ins("cmp w8, #13"));
    let b = b.push(ins("cmp w8, #13"));
    lemma_append_push(out, b, ins("b.eq __rt_asf_qp_soft_break"));
    let a = a.push(ins("b.eq __rt_asf_qp_soft_break"));
    let b = b.push(ins("b.eq __rt_asf_qp_soft_break"));
    lemma_append_push(out, b, ins("cmp w8, #10"));
    let a = a.push(ins("cmp w8, #10"));
    let b = b.push(ins("cmp w8, #10"));
    lemma_append_push(out, b, ins("b.eq __rt_asf_qp_soft_break_lf"));
    let a = a.push(ins("b.eq __rt_asf_qp_soft_break_lf"));
    let b = b.push(ins("b.eq __rt_asf_qp_soft_break_lf"));
    lemma_append_push(out, b, ins("add x5, x5, #1"));
    let a = a.push(ins("add x5, x5, #1"));
    let b = b.push(ins("add x5, x5, #1"));
    lemma_append_push(out, b, ins("mov w9, #-1"));
    let a = a.push(ins("mov w9, #-1"));
    let b = b.push(ins("mov w9, #-1"));
    lemma_append_push(out, b, ins("cmp w8, #48"));
    let a = a.push(ins("cmp w8, #48"));
    let b = b.push(ins("cmp w8, #48"));
    lemma_append_push(out, b, ins("b.lt __rt_asf_qp_hi_alpha"));
    let a = a.push(ins("b.lt __rt_asf_qp_hi_alpha"));
    let b = b.push(ins("b.lt __rt_asf_qp_hi_alpha"));
    lemma_append_push(out, b, ins("cmp w8, #57"));
    let a = a.push(ins("cmp w8, #57"));
    let b = b.push(ins("cmp w8, #57"));
    lemma_append_push(out, b, ins("b.gt __rt_asf_qp_hi_alpha"));
    let a = a.push(ins("b.gt __rt_asf_qp_hi_alpha"));
    let b = b.push(ins("b.gt __rt_asf_qp_hi_alpha"));
    lemma_append_push(out, b, ins("sub w9, w8, #48"));
    let a = a.push(ins("sub w9, w8, #48"));
    let b = b.push(ins("sub w9, w8, #48"));
    lemma_append_push(out, b, ins("b __rt_asf_qp_hi_done"));
    let a = a.push(ins("b __rt_asf_qp_hi_done"));
    let b = b.push(ins("b __rt_asf_qp_hi_done"));
    lemma_append_push(out, b, label("__rt_asf_qp_hi_alpha"));
    let a = a.push(label("__rt_asf_qp_hi_alpha"));
    let b = b.push(label("__rt_asf_qp_hi_alpha"));
    lemma_append_push(out, b, ins("orr w8, w8, #0x20"));
    let a = a.push(ins("orr w8, w8, #0x20"));
    let b = b.push(ins("orr w8, w8, #0x20"));
    lemma_append_push(out, b, ins("cmp w8, #97"));
    let a = a.push(ins("cmp w8, #97"));
    let b = b.push(ins("cmp w8, #97"));
    lemma_append_push(out, b, ins("b.lt __rt_asf_qp_hi_done"));
    let a = a.push(ins("b.lt __rt_asf_qp_hi_done"));
    let b = b.push(ins("b.lt __rt_asf_qp_hi_done"));
    lemma_append_push(out, b, ins("cmp w8, #102"));
    let a = a.push(ins("cmp w8, #102"));
    let b = b.push(ins("cmp w8, #102"));
    lemma_append_push(out, b, ins("b.gt __rt_asf_qp_hi_done"));
    let a = a.push(ins("b.gt __rt_asf_qp_hi_done"));
    let b = b.push(ins("b.gt __rt_asf_qp_hi_done"));
    lemma_append_push(out, b, ins("sub w9, w8, #87"));
    let a = a.push(ins("sub w9, w8, #87"));
    let b = b.push(ins("sub w9, w8, #87"));
    lemma_append_push(out, b, label("__rt_asf_qp_hi_done"));
    let a = a.push(label("__rt_asf_qp_hi_done"));
    let b = b.push(label("__rt_asf_qp_hi_done"));
    lemma_append_push(out, b, ins("cmp w9, #0"));
    let a = a.push(ins("cmp w9, #0"));
    let b = b.push(ins("cmp w9, #0"));
    lemma_append_push(out, b, ins("b.lt __rt_asf_qp_loop"));
    let a = a.push(ins("b.lt __rt_asf_qp_loop"));
    let b = b.push(ins("b.lt __rt_asf_qp_loop"));
    lemma_append_push(out, b, ins("mov w10, w9"));
    let a = a.push(ins("mov w10, w9"));
    let b = b.push(ins("mov w10, w9"));
    lemma_append_push(out, b, ins("cmp x5, x2"));
    let a = a.push(ins("cmp x5, x2"));
    let b = b.push(ins("cmp x5, x2"));
    lemma_append_push(out, b, ins("b.ge __rt_asf_qp_done"));
    let a = a.push(ins("b.ge __rt_asf_qp_done"));
    let b = b.push(ins("b.ge __rt_asf_qp_done"));
    lemma_append_push(out, b, ins("ldrb w8, [x1, x5]"));
    let a = a.push(ins("ldrb w8, [x1, x5]"));
    let b = b.push(ins("ldrb w8, [x1, x5]"));
    lemma_append_push(out, b, ins("add x5, x5, #1"));
    let a = a.push(ins("add x5, x5, #1"));
    let b = b.push(ins("add x5, x5, #1"));
    lemma_append_push(out, b, ins("mov w9, #-1"));
    let a = a.push(ins("mov w9, #-1"));
    let b = b.push(ins("mov w9, #-1"));
    lemma_append_push(out, b, ins("cmp w8, #48"));
    let a = a.push(ins("cmp w8, #48"));
    let b = b.push(ins("cmp w8, #48"));
    lemma_append_push(out, b, ins("b.lt __rt_asf_qp_lo_alpha"));
    let a = a.push(ins("b.lt __rt_asf_qp_lo_alpha"));
    let b = b.push(ins("b.lt __rt_asf_qp_lo_alpha"));
    lemma_append_push(out, b, ins("cmp w8, #57"));
    let a = a.push(ins("cmp w8, #57"));
    let b = b.push(ins("cmp w8, #57"));
    lemma_append_push(out, b, ins("b.gt __rt_asf_qp_lo_alpha"));
    let a = a.push(ins("b.gt __rt_asf_qp_lo_alpha"));
    let b = b.push(ins("b.gt __rt_asf_qp_lo_alpha"));
    lemma_append_push(out, b, ins("sub w9, w8, #48"));
    let a = a.push(ins("sub w9, w8, #48"));
    let b = b.push(ins("sub w9, w8, #48"));
    lemma_append_push(out, b, ins("b __rt_asf_qp_lo_done"));
    let a = a.push(ins("b __rt_asf_qp_lo_done"));
    let b = b.push(ins("b __rt_asf_qp_lo_done"));
    lemma_append_push(out, b, label("__rt_asf_qp_lo_alpha"));
    let a = a.push(label("__rt_asf_qp_lo_alpha"));
    let b = b.push(label("__rt_asf_qp_lo_alpha"));
    lemma_append_push(out, b, ins("orr w8, w8, #0x20"));
    let a = a.push(ins("orr w8, w8, #0x20"));
    let b = b.push(ins("orr w8, w8, #0x20"));
    lemma_append_push(out, b, ins("cmp w8, #97"));
    let a = a.push(ins("cmp w8, #97"));
    let b = b.push(ins("cmp w8, #97"));
    lemma_append_push(out, b, ins("b.lt __rt_asf_qp_lo_done"));
    let a = a.push(ins("b.lt __rt_asf_qp_lo_done"));
    let b = b.push(ins("b.lt __rt_asf_qp_lo_done"));
    lemma_append_push(out, b, ins("cmp w8, #102"));
    let a = a.push(ins("cmp w8, #102"));
    let b = b.push(ins("cmp w8, #102"));
    lemma_append_push(out, b, ins("b.gt __rt_asf_qp_lo_done"));
    let a = a.push(ins("b.gt __rt_asf_qp_lo_done"));
    let b = b.push(ins("b.gt __rt_asf_qp_lo_done"));
    lemma_append_push(out, b, ins("sub w9, w8, #87"));
    let a = a.push(ins("sub w9, w8, #87"));
    let b = b.push(ins("sub w9, w8, #87"));
    lemma_append_push(out, b, label("__rt_asf_qp_lo_done"));
    let a = a.push(label("__rt_asf_qp_lo_done"));
    let b = b.push(label("__rt_asf_qp_lo_done"));
    lemma_append_push(out, b, ins("cmp w9, #0"));
    let a = a.push(ins("cmp w9, #0"));
    let b = b.push(ins("cmp w9, #0"));
    lemma_append_push(out, b, ins("b.lt __rt_asf_qp_loop"));
    let a = a.push(ins("b.lt __rt_asf_qp_loop"));
    let b = b.push(ins("b.lt __rt_asf_qp_loop"));
    lemma_append_push(out, b, ins("lsl w10, w10, #4"));
    let a = a.push(ins("lsl w10, w10, #4"));
    let b = b.push(ins("lsl w10, w10, #4"));
    lemma_append_push(out, b, ins("orr w10, w10, w9"));
    let a = a.push(ins("orr w10, w10, w9"));
    let b = b.push(ins("orr w10, w10, w9"));
    lemma_append_push(out, b, ins("strb w10, [x1, x6]"));
    let a = a.push(ins("strb w10, [x1, x6]"));
    let b = b.push(ins("strb w10, [x1, x6]"));
    lemma_append_push(out, b, ins("add x6, x6, #1"));
    let a = a.push(ins("add x6, x6, #1"));
    let b = b.push(ins("add x6, x6, #1"));
    lemma_append_push(out, b, ins("b __rt_asf_qp_loop"));
    let a = a.push(ins("b __rt_asf_qp_loop"));
    let b = b.push(ins("b __rt_asf_qp_loop"));
    lemma_append_push(out, b, label("__rt_asf_qp_soft_break"));
    let a = a.push(label("__rt_asf_qp_soft_break"));
    let b = b.push(label("__rt_asf_qp_soft_break"));
    lemma_append_push(out, b, ins("add x5, x5, #1"));
    let a = a.push(ins("add x5, x5, #1"));
    let b = b.push(ins("add x5, x5, #1"));
    lemma_append_push(out, b, ins("cmp x5, x2"));
    let a = a.push(ins("cmp x5, x2"));
    let b = b.push(ins("cmp x5, x2"));
    lemma_append_push(out, b, ins("b.ge __rt_asf_qp_loop"));
    let a = a.push(ins("b.ge __rt_asf_qp_loop"));
    let b = b.push(ins("b.ge __rt_asf_qp_loop"));
    lemma_append_push(out, b, ins("ldrb w8, [x1, x5]"));
    let a = a.push(ins("ldrb w8, [x1, x5]"));
    let b = b.push(ins("ldrb w8, [x1, x5]"));
    lemma_append_push(out, b, ins("cmp w8, #10"));
    let a = a.push(ins("cmp w8, #10"));
    let b = b.push(ins("cmp w8, #10"));
    lemma_append_push(out, b, ins("b.ne __rt_asf_qp_loop"));
    let a = a.push(ins("b.ne __rt_asf_qp_loop"));
    let b = b.push(ins("b.ne __rt_asf_qp_loop"));
    lemma_append_push(out, b, ins("add x5, x5, #1"));
    let a = a.push(ins("add x5, x5, #1"));
    let b = b.push(ins("add x5, x5, #1"));
    lemma_append_push(out, b, ins("b __rt_asf_qp_loop"));
    let a = a.push(ins("b __rt_asf_qp_loop"));
    let b = b.push(ins("b __rt_asf_qp_loop"));
    lemma_append_push(out, b, label("__rt_asf_qp_soft_break_lf"));
    let a = a.push(label("__rt_asf_qp_soft_break_lf"));
    let b = b.push(label("__rt_asf_qp_soft_break_lf"));
    lemma_append_push(out, b, ins("add x5, x5, #1"));
    let a = a.push(ins("add x5, x5, #1"));
    let b = b.push(ins("add x5, x5, #1"));
    lemma_append_push(out, b, ins("b __rt_asf_qp_loop"));
    let a = a.push(ins("b __rt_asf_qp_loop"));
    let b = b.push(ins("b __rt_asf_qp_loop"));
    lemma_append_push(out, b, label("__rt_asf_qp_done"));
    let a = a.push(label("__rt_asf_qp_done"));
    let b = b.push(label("__rt_asf_qp_done"));
    lemma_append_push(out, b, ins("mov x2, x6"));
    let a = a.push(ins("mov x2, x6"));
    let b = b.push(ins("mov x2, x6"));
    lemma_append_push(out, b, ins("ret"));
    let a = a.push(ins("ret"));
    let b = b.push(ins("ret"));
    assert(a == stream_filter_quoted_printable_decode(out, t));
    assert(b == stream_filter_quoted_printable_decode(Seq::empty(), t));
}

/// `stream_filter_base64_encode` appends a block that does not depend on the listing before it.
proof fn lemma_stream_filter_base64_encode_appends(out: Seq<Line>, t: Target)
    ensures
        stream_filter_base64_encode(out, t) == out + stream_filter_base64_encode(Seq::empty(), t),
{
    let a = out;
    let b = Seq::<Line>::empty();
    lemma_append_empty(out);
    lemma_append_push(out, b, label("__rt_asf_b64_encode"));
    let a = a.push(label("__rt_asf_b64_encode"));
    let b = b.push(label("__rt_asf_b64_encode"));
    lemma_append_push(out, b, ins("mov x4, #49152"));
    let a = a.push(ins("mov x4, #49152"));
    let b = b.push(ins("mov x4, #49152"));
    lemma_append_push(out, b, ins("cmp x2, x4"));
    let a = a.push(ins("cmp x2, x4"));
    let b = b.push(ins("cmp x2, x4"));
    lemma_append_push(out, b, ins("csel x2, x4, x2, gt"));
    let a = a.push(ins("csel x2, x4, x2, gt"));
    let b = b.push(ins("csel x2, x4, x2, gt"));
    lemma_append_assoc(out, b, symbol_address(t, "x4"@, "_stream_grow_scratch"@));
    let a = a + symbol_address(t, "x4"@, "_stream_grow_scratch"@);
    let b = b + symbol_address(t, "x4"@, "_stream_grow_scratch"@);
    lemma_append_assoc(out, b, symbol_address(t, "x15"@, "_b64_encode_tbl"@));
    let a = a + symbol_address(t, "x15"@, "_b64_encode_tbl"@);
    let b = b + symbol_address(t, "x15"@, "_b64_encode_tbl"@);
    lemma_append_push(out, b, ins("mov x5, #0"));
    let a = a.push(ins("mov x5, #0"));
    let b = b.push(ins("mov x5, #0"));
    lemma_append_push(out, b, ins("mov x6, #0"));
    let a = a.push(ins("mov x6, #0"));
    let b = b.push(ins("mov x6, #0"));
    lemma_append_push(out, b, label("__rt_asf_b64e_loop"));
    let a = a.push(label("__rt_asf_b64e_loop"));
    let b = b.push(label("__rt_asf_b64e_loop"));
    lemma_append_push(out, b, ins("sub x7, x2, x5"));
    let a = a.push(ins("sub x7, x2, x5"));
    let b = b.push(ins("sub x7, x2, x5"));
    lemma_append_push(out, b, ins("cmp x7, #3"));
    let a = a.push(ins("cmp x7, #3"));
    let b = b.push(ins("cmp x7, #3"));
    lemma_append_push(out, b, ins("b.lt __rt_asf_b64e_rem"));
    let a = a.push(ins("b.lt __rt_asf_b64e_rem"));
    let b = b.push(ins("b.lt __rt_asf_b64e_rem"));
    lemma_append_push(out, b, ins("ldrb w8, [x1, x5]"));
    let a = a.push(ins("ldrb w8, [x1, x5]"));
    let b = b.push(ins("ldrb w8, [x1, x5]"));
    lemma_append_push(out, b, ins("add x5, x5, #1"));
    let a = a.push(ins("add x5, x5, #1"));
    let b = b.push(ins("add x5, x5, #1"));
    lemma_append_push(out, b, ins("ldrb w9, [x1, x5]"));
    let a = a.push(ins("ldrb w9, [x1, x5]"));
    let b = b.push(ins("ldrb w9, [x1, x5]"));
    lemma_append_push(out, b, ins("add x5, x5, #1"));
    let a = a.push(ins("add x5, x5, #1"));
    let b = b.push(ins("add x5, x5, #1"));
    lemma_append_push(out, b, ins("ldrb w10, [x1, x5]"));
    let a = a.push(ins("ldrb w10, [x1, x5]"));
    let b = b.push(ins("ldrb w10, [x1, x5]"));
    lemma_append_push(out, b, ins("add x5, x5, #1"));
    let a = a.push(ins("add x5, x5, #1"));
    let b = b.push(ins("add x5, x5, #1"));
    lemma_append_push(out, b, ins("lsr w11, w8, #2"));
    let a = a.push(ins("lsr w11, w8, #2"));
    let b = b.push(ins("lsr w11, w8, #2"));
    lemma_append_push(out, b, ins("ldrb w11, [x15, x11]"));
    let a = a.push(ins("ldrb w11, [x15, x11]"));
    let b = b.push(ins("ldrb w11, [x15, x11]"));
    lemma_append_push(out, b, ins("strb w11, [x4, x6]"));
    let a = a.push(ins("strb w11, [x4, x6]"));
    let b = b.push(ins("strb w11, [x4, x6]"));
    lemma_append_push(out, b, ins("add x6, x6, #1"));
    let a = a.push(ins("add x6, x6, #1"));
    let b = b.push(ins("add x6, x6, #1"));
    lemma_append_push(out, b, ins("and w11, w8, #3"));
    let a = a.push(ins("and w11, w8, #3"));
    let b = b.push(ins("and w11, w8, #3"));
    lemma_append_push(out, b, ins("lsl w11, w11, #4"));
    let a = a.push(ins("lsl w11, w11, #4"));
    let b = b.push(ins("lsl w11, w11, #4"));
    lemma_append_push(out, b, ins("lsr w12, w9, #4"));
    let a = a.push(ins("lsr w12, w9, #4"));
    let b = b.push(ins("lsr w12, w9, #4"));
    lemma_append_push(out, b, ins("orr w11, w11, w12"));
    let a = a.push(ins("orr w11, w11, w12"));
    let b = b.push(ins("orr w11, w11, w12"));
    lemma_append_push(out, b, ins("ldrb w11, [x15, x11]"));
    let a = a.push(ins("ldrb w11, [x15, x11]"));
    let b = b.push(ins("ldrb w11, [x15, x11]"));
    lemma_append_push(out, b, ins("strb w11, [x4, x6]"));
    let a = a.push(ins("strb w11, [x4, x6]"));
    let b = b.push(ins("strb w11, [x4, x6]"));
    lemma_append_push(out, b, ins("add x6, x6, #1"));
    let a = a.push(ins("add x6, x6, #1"));
    let b = b.push(ins("add x6, x6, #1"));
    lemma_append_push(out, b, ins("and w11, w9, #15"));
    let a = a.push(ins("and w11, w9, #15"));
    let b = b.push(ins("and w11, w9, #15"));
    lemma_append_push(out, b, ins("lsl w11, w11, #2"));
    let a = a.push(ins("lsl w11, w11, #2"));
    let b = b.push(ins("lsl w11, w11, #2"));
    lemma_append_push(out, b, ins("lsr w12, w10, #6"));
    let a = a.push(ins("lsr w12, w10, #6"));
    let b = b.push(ins("lsr w12, w10, #6"));
    lemma_append_push(out, b, ins("orr w11, w11, w12"));
    let a = a.push(ins("orr w11, w11, w12"));
    let b = b.push(ins("orr w11, w11, w12"));
    lemma_append_push(out, b, ins("ldrb w11, [x15, x11]"));
    let a = a.push(ins("ldrb w11, [x15, x11]"));
    let b = b.push(ins("ldrb w11, [x15, x11]"));
    lemma_append_push(out, b, ins("strb w11, [x4, x6]"));
    let a = a.push(ins("strb w11, [x4, x6]"));
    let b = b.push(ins("strb w11, [x4, x6]"));
    lemma_append_push(out, b, ins("add x6, x6, #1"));
    let a = a.push(ins("add x6, x6, #1"));
    let b = b.push(ins("add x6, x6, #1"));
    lemma_append_push(out, b, ins("and w11, w10, #0x3f"));
    let a = a.push(ins("and w11, w10, #0x3f"));
    let b = b.push(ins("and w11, w10, #0x3f"));
    lemma_append_push(out, b, ins("ldrb w11, [x15, x11]"));
    let a = a.push(ins("ldrb w11, [x15, x11]"));
    let b = b.push(ins("ldrb w11, [x15, x11]"));
    lemma_append_push(out, b, ins("strb w11, [x4, x6]"));
    let a = a.push(ins("strb w11, [x4, x6]"));
    let b = b.push(ins("strb w11, [x4, x6]"));
    lemma_append_push(out, b, ins("add x6, x6, #1"));
    let a = a.push(ins("add x6, x6, #1"));
    let b = b.push(ins("add x6, x6, #1"));
    lemma_append_push(out, b, ins("b __rt_asf_b64e_loop"));
    let a = a.push(ins("b __rt_asf_b64e_loop"));
    let b = b.push(ins("b __rt_asf_b64e_loop"));
    lemma_append_push(out, b, label("__rt_asf_b64e_rem"));
    let a = a.push(label("__rt_asf_b64e_rem"));
    let b = b.push(label("__rt_asf_b64e_rem"));
    lemma_append_push(out, b, ins("cbz x7, __rt_asf_b64e_copyback"));
    let a = a.push(ins("cbz x7, __rt_asf_b64e_copyback"));
    let b = b.push(ins("cbz x7, __rt_asf_b64e_copyback"));
    lemma_append_push(out, b, ins("cmp x7, #1"));
    let a = a.push(ins("cmp x7, #1"));
    let b = b.push(ins("cmp x7, #1"));
    lemma_append_push(out, b, ins("b.eq __rt_asf_b64e_rem1"));
    let a = a.push(ins("b.eq __rt_asf_b64e_rem1"));
    let b = b.push(ins("b.eq __rt_asf_b64e_rem1"));
    lemma_append_push(out, b, ins("ldrb w8, [x1, x5]"));
    let a = a.push(ins("ldrb w8, [x1, x5]"));
    let b = b.push(ins("ldrb w8, [x1, x5]"));
    lemma_append_push(out, b, ins("add x5, x5, #1"));
    let a = a.push(ins("add x5, x5, #1"));
    let b = b.push(ins("add x5, x5, #1"));
    lemma_append_push(out, b, ins("ldrb w9, [x1, x5]"));
    let a = a.push(ins("ldrb w9, [x1, x5]"));
    let b = b.push(ins("ldrb w9, [x1, x5]"));
    lemma_append_push(out, b, ins("add x5, x5, #1"));
    let a = a.push(ins("add x5, x5, #1"));
    let b = b.push(ins("add x5, x5, #1"));
    lemma_append_push(out, b, ins("lsr w11, w8, #2"));
    let a = a.push(ins("lsr w11, w8, #2"));
    let b = b.push(ins("lsr w11, w8, #2"));
    lemma_append_push(out, b, ins("ldrb w11, [x15, x11]"));
    let a = a.push(ins("ldrb w11, [x15, x11]"));
    let b = b.push(ins("ldrb w11, [x15, x11]"));
    lemma_append_push(out, b, ins("strb w11, [x4, x6]"));
    let a = a.push(ins("strb w11, [x4, x6]"));
    let b = b.push(ins("strb w11, [x4, x6]"));
    lemma_append_push(out, b, ins("add x6, x6, #1"));
    let a = a.push(ins("add x6, x6, #1"));
    let b = b.push(ins("add x6, x6, #1"));
    lemma_append_push(out, b, ins("and w11, w8, #3"));
    let a = a.push(ins("and w11, w8, #3"));
    let b = b.push(ins("and w11, w8, #3"));
    lemma_append_push(out, b, ins("lsl w11, w11, #4"));
    let a = a.push(ins("lsl w11, w11, #4"));
    let b = b.push(ins("lsl w11, w11, #4"));
    lemma_append_push(out, b, ins("lsr w12, w9, #4"));
    let a = a.push(ins("lsr w12, w9, #4"));
    let b = b.push(ins("lsr w12, w9, #4"));
    lemma_append_push(out, b, ins("orr w11, w11, w12"));
    let a = a.push(ins("orr w11, w11, w12"));
    let b = b.push(ins("orr w11, w11, w12"));
    lemma_append_push(out, b, ins("ldrb w11, [x15, x11]"));
    let a = a.push(ins("ldrb w11, [x15, x11]"));
    let b = b.push(ins("ldrb w11, [x15, x11]"));
    lemma_append_push(out, b, ins("strb w11, [x4, x6]"));
    let a = a.push(ins("strb w11, [x4, x6]"));
    let b = b.push(ins("strb w11, [x4, x6]"));
    lemma_append_push(out, b, ins("add x6, x6, #1"));
    let a = a.push(ins("add x6, x6, #1"));
    let b = b.push(ins("add x6, x6, #1"));
    lemma_append_push(out, b, ins("and w11, w9, #15"));
    let a = a.push(ins("and w11, w9, #15"));
    let b = b.push(ins("and w11, w9, #15"));
    lemma_append_push(out, b, ins("lsl w11, w11, #2"));
    let a = a.push(ins("lsl w11, w11, #2"));
    let b = b.push(ins("lsl w11, w11, #2"));
    lemma_append_push(out, b, ins("ldrb w11, [x15, x11]"));
    let a = a.push(ins("ldrb w11, [x15, x11]"));
    let b = b.push(ins("ldrb w11, [x15, x11]"));
    lemma_append_push(out, b, ins("strb w11, [x4, x6]"));
    let a = a.push(ins("strb w11, [x4, x6]"));
    let b = b.push(ins("strb w11, [x4, x6]"));
    lemma_append_push(out, b, ins("add x6, x6, #1"));
    let a = a.push(ins("add x6, x6, #1"));
    let b = b.push(ins("add x6, x6, #1"));
    lemma_append_push(out, b, ins("mov w11, #61"));
    let a = a.push(ins("mov w11, #61"));
    let b = b.push(ins("mov w11, #61"));
    lemma_append_push(out, b, ins("strb w11, [x4, x6]"));
    let a = a.push(ins("strb w11, [x4, x6]"));
    let b = b.push(ins("strb w11, [x4, x6]"));
    lemma_append_push(out, b, ins("add x6, x6, #1"));
    let a = a.push(ins("add x6, x6, #1"));
    let b = b.push(ins("add x6, x6, #1"));
    lemma_append_push(out, b, ins("b __rt_asf_b64e_copyback"));
    let a = a.push(ins("b __rt_asf_b64e_copyback"));
    let b = b.push(ins("b __rt_asf_b64e_copyback"));
    lemma_append_push(out, b, label("__rt_asf_b64e_rem1"));
    let a = a.push(label("__rt_asf_b64e_rem1"));
    let b = b.push(label("__rt_asf_b64e_rem1"));
    lemma_append_push(out, b, ins("ldrb w8, [x1, x5]"));
    let a = a.push(ins("ldrb w8, [x1, x5]"));
    let b = b.push(ins("ldrb w8, [x1, x5]"));
    lemma_append_push(out, b, ins("add x5, x5, #1"));
    let a = a.push(ins("add x5, x5, #1"));
    let b = b.push(ins("add x5, x5, #1"));
    lemma_append_push(out, b, ins("lsr w11, w8, #2"));
    let a = a.push(ins("lsr w11, w8, #2"));
    let b = b.push(ins("lsr w11, w8, #2"));
    lemma_append_push(out, b, ins("ldrb w11, [x15, x11]"));
    let a = a.push(ins("ldrb w11, [x15, x11]"));
    let b = b.push(ins("ldrb w11, [x15, x11]"));
    lemma_append_push(out, b, ins("strb w11, [x4, x6]"));
    let a = a.push(ins("strb w11, [x4, x6]"));
    let b = b.push(ins("strb w11, [x4, x6]"));
    lemma_append_push(out, b, ins("add x6, x6, #1"));
    let a = a.push(ins("add x6, x6, #1"));
    let b = b.push(ins("add x6, x6, #1"));
    lemma_append_push(out, b, ins("and w11, w8, #3"));
    let a = a.push(ins("and w11, w8, #3"));
    let b = b.push(ins("and w11, w8, #3"));
    lemma_append_push(out, b, ins("lsl w11, w11, #4"));
    let a = a.push(ins("lsl w11, w11, #4"));
    let b = b.push(ins("lsl w11, w11, #4"));
    lemma_append_push(out, b, ins("ldrb w11, [x15, x11]"));
    let a = a.push(ins("ldrb w11, [x15, x11]"));
    let b = b.push(ins("ldrb w11, [x15, x11]"));
    lemma_append_push(out, b, ins("strb w11, [x4, x6]"));
    let a = a.push(ins("strb w11, [x4, x6]"));
    let b = b.push(ins("strb w11, [x4, x6]"));
    lemma_append_push(out, b, ins("add x6, x6, #1"));
    let a = a.push(ins("add x6, x6, #1"));
    let b = b.push(ins("add x6, x6, #1"));
    lemma_append_push(out, b, ins("mov w11, #61"));
    let a = a.push(ins("mov w11, #61"));
    let b = b.push(ins("mov w11, #61"));
    lemma_append_push(out, b, ins("strb w11, [x4, x6]"));
    let a = a.push(ins("strb w11, [x4, x6]"));
    let b = b.push(ins("strb w11, [x4, x6]"));
    lemma_append_push(out, b, ins("add x6, x6, #1"));
    let a = a.push(ins("add x6, x6, #1"));
    let b = b.push(ins("add x6, x6, #1"));
    lemma_append_push(out, b, ins("strb w11, [x4, x6]"));
    let a = a.push(ins("strb w11, [x4, x6]"));
    let b = b.push(ins("strb w11, [x4, x6]"));
    lemma_append_push(out, b, ins("add x6, x6, #1"));
    let a = a.push(ins("add x6, x6, #1"));
    let b = b.push(ins("add x6, x6, #1"));
    lemma_append_push(out, b, label("__rt_asf_b64e_copyback"));
    let a = a.push(label("__rt_asf_b64e_copyback"));
    let b = b.push(label("__rt_asf_b64e_copyback"));
    lemma_append_push(out, b, ins("mov x5, #0"));
    let a = a.push(ins("mov x5, #0"));
    let b = b.push(ins("mov x5, #0"));
    lemma_append_push(out, b, label("__rt_asf_b64e_cb_loop"));
    let a = a.push(label("__rt_asf_b64e_cb_loop"));
    let b = b.push(label("__rt_asf_b64e_cb_loop"));
    lemma_append_push(out, b, ins("cmp x5, x6"));
    let a = a.push(ins("cmp x5, x6"));
    let b = b.push(ins("cmp x5, x6"));
    lemma_append_push(out, b, ins("b.ge __rt_asf_b64e_done"));
    let a = a.push(ins("b.ge __rt_asf_b64e_done"));
    let b = b.push(ins("b.ge __rt_asf_b64e_done"));
    lemma_append_push(out, b, ins("ldrb w11, [x4, x5]"));
    let a = a.push(ins("ldrb w11, [x4, x5]"));
    let b = b.push(ins("ldrb w11, [x4, x5]"));
    lemma_append_push(out, b, ins("strb w11, [x1, x5]"));
    let a = a.push(ins("strb w11, [x1, x5]"));
    let b = b.push(ins("strb w11, [x1, x5]"));
    lemma_append_push(out, b, ins("add x5, x5, #1"));
    let a = a.push(ins("add x5, x5, #1"));
    let b = b.push(ins("add x5, x5, #1"));
    lemma_append_push(out, b, ins("b __rt_asf_b64e_cb_loop"));
    let a = a.push(ins("b __rt_asf_b64e_cb_loop"));
    let b = b.push(ins("b __rt_asf_b64e_cb_loop"));
    lemma_append_push(out, b, label("__rt_asf_b64e_done"));
    let a = a.push(label("__rt_asf_b64e_done"));
    let b = b.push(label("__rt_asf_b64e_done"));
    lemma_append_push(out, b, ins("mov x2, x6"));
    let a = a.push(ins("mov x2, x6"));
    let b = b.push(ins("mov x2, x6"));
    lemma_append_push(out, b, ins("ret"));
    let a = a.push(ins("ret"));
    let b = b.push(ins("ret"));
    assert(a == stream_filter_base64_encode(out, t));
    assert(b == stream_filter_base64_encode(Seq::empty(), t));
}

/// `stream_filter_quoted_printable_encode` appends a block that does not depend on the listing before it.
proof fn lemma_stream_filter_quoted_printable_encode_appends(out: Seq<Line>, t: Target)
    ensures
        stream_filter_quoted_printable_encode(out, t) == out + stream_filter_quoted_printable_encode(Seq::empty(), t),
{
    let a = out;
    let b = Seq::<Line>::empty();
    lemma_append_empty(out);
    lemma_append_push(out, b, label("__rt_asf_qp_encode"));
    let a = a.push(label("__rt_asf_qp_encode"));
    let b = b.push(label("__rt_asf_qp_encode"));
    lemma_append_push(out, b, ins("mov x4, #21845"));
    let a = a.push(ins("mov x4, #21845"));
    let b = b.push(ins("mov x4, #21845"));
    lemma_append_push(out, b, ins("cmp x2, x4"));
    let a = a.push(ins("cmp x2, x4"));
    let b = b.push(ins("cmp x2, x4"));
    lemma_append_push(out, b, ins("csel x2, x4, x2, gt"));
    let a = a.push(ins("csel x2, x4, x2, gt"));
    let b = b.push(ins("csel x2, x4, x2, gt"));
    lemma_append_assoc(out, b, symbol_address(t, "x4"@, "_stream_grow_scratch"@));
    let a = a + symbol_address(t, "x4"@, "_stream_grow_scratch"@);
    let b = b + symbol_address(t, "x4"@, "_stream_grow_scratch"@);
    lemma_append_assoc(out, b, symbol_address(t, "x15"@, "_b64_encode_tbl"@));
    let a = a + symbol_address(t, "x15"@, "_b64_encode_tbl"@);
    let b = b + symbol_address(t, "x15"@, "_b64_encode_tbl"@);
    lemma_append_push(out, b, ins("mov x5, #0"));
    let a = a.push(ins("mov x5, #0"));
    let b = b.push(ins("mov x5, #0"));
    lemma_append_push(out, b, ins("mov x6, #0"));
    let a = a.push(ins("mov x6, #0"));
    let b = b.push(ins("mov x6, #0"));
    lemma_append_push(out, b, label("__rt_asf_qpe_loop"));
    let a = a.push(label("__rt_asf_qpe_loop"));
    let b = b.push(label("__rt_asf_qpe_loop"));
    lemma_append_push(out, b, ins("cmp x5, x2"));
    let a = a.push(ins("cmp x5, x2"));
    let b = b.push(ins("cmp x5, x2"));
    lemma_append_push(out, b, ins("b.ge __rt_asf_qpe_copyback"));
    let a = a.push(ins("b.ge __rt_asf_qpe_copyback"));
    let b = b.push(ins("b.ge __rt_asf_qpe_copyback"));
    lemma_append_push(out, b, ins("ldrb w8, [x1, x5]"));
    let a = a.push(ins("ldrb w8, [x1, x5]"));
    let b = b.push(ins("ldrb w8, [x1, x5]"));
    lemma_append_push(out, b, ins("add x5, x5, #1"));
    let a = a.push(ins("add x5, x5, #1"));
    let b = b.push(ins("add x5, x5, #1"));
    lemma_append_push(out, b, ins("cmp w8, #33"));
    let a = a.push(ins("cmp w8, #33"));
    let b = b.push(ins("cmp w8, #33"));
    lemma_append_push(out, b, ins("b.lt __rt_asf_qpe_escape"));
    let a = a.push(ins("b.lt __rt_asf_qpe_escape"));
    let b = b.push(ins("b.lt __rt_asf_qpe_escape"));
    lemma_append_push(out, b, ins("cmp w8, #126"));
    let a = a.push(ins("cmp w8, #126"));
    let b = b.push(ins("cmp w8, #126"));
    lemma_append_push(out, b, ins("b.gt __rt_asf_qpe_escape"));
    let a = a.push(ins("b.gt __rt_asf_qpe_escape"));
    let b = b.push(ins("b.gt __rt_asf_qpe_escape"));
    lemma_append_push(out, b, ins("cmp w8, #61"));
    let a = a.push(ins("cmp w8, #61"));
    let b = b.push(ins("cmp w8, #61"));
    lemma_append_push(out, b, ins("b.eq __rt_asf_qpe_escape"));
    let a = a.push(ins("b.eq __rt_asf_qpe_escape"));
    let b = b.push(ins("b.eq __rt_asf_qpe_escape"));
    lemma_append_push(out, b, ins("strb w8, [x4, x6]"));
    let a = a.push(ins("strb w8, [x4, x6]"));
    let b = b.push(ins("strb w8, [x4, x6]"));
    lemma_append_push(out, b, ins("add x6, x6, #1"));
    let a = a.push(ins("add x6, x6, #1"));
    let b = b.push(ins("add x6, x6, #1"));
    lemma_append_push(out, b, ins("b __rt_asf_qpe_loop"));
    let a = a.push(ins("b __rt_asf_qpe_loop"));
    let b = b.push(ins("b __rt_asf_qpe_loop"));
    lemma_append_push(out, b, label("__rt_asf_qpe_escape"));
    let a = a.push(label("__rt_asf_qpe_escape"));
    let b = b.push(label("__rt_asf_qpe_escape"));
    lemma_append_push(out, b, ins("mov w9, #61"));
    let a = a.push(ins("mov w9, #61"));
    let b = b.push(ins("mov w9, #61"));
    lemma_append_push(out, b, ins("strb w9, [x4, x6]"));
    let a = a.push(ins("strb w9, [x4, x6]"));
    let b = b.push(ins("strb w9, [x4, x6]"));
    lemma_append_push(out, b, ins("add x6, x6, #1"));
    let a = a.push(ins("add x6, x6, #1"));
    let b = b.push(ins("add x6, x6, #1"));
    lemma_append_push(out, b, ins("lsr w9, w8, #4"));
    let a = a.push(ins("lsr w9, w8, #4"));
    let b = b.push(ins("lsr w9, w8, #4"));
    lemma_append_push(out, b, ins("and w9, w9, #0xF"));
    let a = a.push(ins("and w9, w9, #0xF"));
    let b = b.push(ins("and w9, w9, #0xF"));
    lemma_append_push(out, b, ins("cmp w9, #10"));
    let a = a.push(ins("cmp w9, #10"));
    let b = b.push(ins("cmp w9, #10"));
    lemma_append_push(out, b, ins("b.lt __rt_asf_qpe_hi_dig"));
    let a = a.push(ins("b.lt __rt_asf_qpe_hi_dig"));
    let b = b.push(ins("b.lt __rt_asf_qpe_hi_dig"));
    lemma_append_push(out, b, ins("add w9, w9, #55"));
    let a = a.push(ins("add w9, w9, #55"));
    let b = b.push(ins("add w9, w9, #55"));
    lemma_append_push(out, b, ins("b __rt_asf_qpe_hi_write"));
    let a = a.push(ins("b __rt_asf_qpe_hi_write"));
    let b = b.push(ins("b __rt_asf_qpe_hi_write"));
    lemma_append_push(out, b, label("__rt_asf_qpe_hi_dig"));
    let a = a.push(label("__rt_asf_qpe_hi_dig"));
    let b = b.push(label("__rt_asf_qpe_hi_dig"));
    lemma_append_push(out, b, ins("add w9, w9, #48"));
    let a = a.push(ins("add w9, w9, #48"));
    let b = b.push(ins("add w9, w9, #48"));
    lemma_append_push(out, b, label("__rt_asf_qpe_hi_write"));
    let a = a.push(label("__rt_asf_qpe_hi_write"));
    let b = b.push(label("__rt_asf_qpe_hi_write"));
    lemma_append_push(out, b, ins("strb w9, [x4, x6]"));
    let a = a.push(ins("strb w9, [x4, x6]"));
    let b = b.push(ins("strb w9, [x4, x6]"));
    lemma_append_push(out, b, ins("add x6, x6, #1"));
    let a = a.push(ins("add x6, x6, #1"));
    let b = b.push(ins("add x6, x6, #1"));
    lemma_append_push(out, b, ins("and w9, w8, #0xF"));
    let a = a.push(ins("and w9, w8, #0xF"));
    let b = b.push(ins("and w9, w8, #0xF"));
    lemma_append_push(out, b, ins("cmp w9, #10"));
    let a = a.push(ins("cmp w9, #10"));
    let b = b.push(ins("cmp w9, #10"));
    lemma_append_push(out, b, ins("b.lt __rt_asf_qpe_lo_dig"));
    let a = a.push(ins("b.lt __rt_asf_qpe_lo_dig"));
    let b = b.push(ins("b.lt __rt_asf_qpe_lo_dig"));
    lemma_append_push(out, b, ins("add w9, w9, #55"));
    let a = a.push(ins("add w9, w9, #55"));
    let b = b.push(ins("add w9, w9, #55"));
    lemma_append_push(out, b, ins("b __rt_asf_qpe_lo_write"));
    let a = a.push(ins("b __rt_asf_qpe_lo_write"));
    let b = b.push(ins("b __rt_asf_qpe_lo_write"));
    lemma_append_push(out, b, label("__rt_asf_qpe_lo_dig"));
    let a = a.push(label("__rt_asf_qpe_lo_dig"));
    let b = b.push(label("__rt_asf_qpe_lo_dig"));
    lemma_append_push(out, b, ins("add w9, w9, #48"));
    let a = a.push(ins("add w9, w9, #48"));
    let b = b.push(ins("add w9, w9, #48"));
    lemma_append_push(out, b, label("__rt_asf_qpe_lo_write"));
    let a = a.push(label("__rt_asf_qpe_lo_write"));
    let b = b.push(label("__rt_asf_qpe_lo_write"));
    lemma_append_push(out, b, ins("strb w9, [x4, x6]"));
    let a = a.push(ins("strb w9, [x4, x6]"));
    let b = b.push(ins("strb w9, [x4, x6]"));
    lemma_append_push(out, b, ins("add x6, x6, #1"));
    let a = a.push(ins("add x6, x6, #1"));
    let b = b.push(ins("add x6, x6, #1"));
    lemma_append_push(out, b, ins("b __rt_asf_qpe_loop"));
    let a = a.push(ins("b __rt_asf_qpe_loop"));
    let b = b.push(ins("b __rt_asf_qpe_loop"));
    lemma_append_push(out, b, label("__rt_asf_qpe_copyback"));
    let a = a.push(label("__rt_asf_qpe_copyback"));
    let b = b.push(label("__rt_asf_qpe_copyback"));
    lemma_append_push(out, b, ins("mov x5, #0"));
    let a = a.push(ins("mov x5, #0"));
    let b = b.push(ins("mov x5, #0"));
    lemma_append_push(out, b, label("__rt_asf_qpe_cb_loop"));
    let a = a.push(label("__rt_asf_qpe_cb_loop"));
    let b = b.push(label("__rt_asf_qpe_cb_loop"));
    lemma_append_push(out, b, ins("cmp x5, x6"));
    let a = a.push(ins("cmp x5, x6"));
    let b = b.push(ins("cmp x5, x6"));
    lemma_append_push(out, b, ins("b.ge __rt_asf_qpe_done"));
    let a = a.push(ins("b.ge __rt_asf_qpe_done"));
    let b = b.push(ins("b.ge __rt_asf_qpe_done"));
    lemma_append_push(out, b, ins("ldrb w11, [x4, x5]"));
    let a = a.push(ins("ldrb w11, [x4, x5]"));
    let b = b.push(ins("ldrb w11, [x4, x5]"));
    lemma_append_push(out, b, ins("strb w11, [x1, x5]"));
    let a = a.push(ins("strb w11, [x1, x5]"));
    let b = b.push(ins("strb w11, [x1, x5]"));
    lemma_append_push(out, b, ins("add x5, x5, #1"));
    let a = a.push(ins("add x5, x5, #1"));
    let b = b.push(ins("add x5, x5, #1"));
    lemma_append_push(out, b, ins("b __rt_asf_qpe_cb_loop"));
    let a = a.push(ins("b __rt_asf_qpe_cb_loop"));
    let b = b.push(ins("b __rt_asf_qpe_cb_loop"));
    lemma_append_push(out, b, label("__rt_asf_qpe_done"));
    let a = a.push(label("__rt_asf_qpe_done"));
    let b = b.push(label("__rt_asf_qpe_done"));
    lemma_append_push(out, b, ins("mov x2, x6"));
    let a = a.push(ins("mov x2, x6"));
    let b = b.push(ins("mov x2, x6"));
    lemma_append_push(out, b, ins("ret"));
    let a = a.push(ins("ret"));
    let b = b.push(ins("ret"));
    assert(a == stream_filter_quoted_printable_encode(out, t));
    assert(b == stream_filter_quoted_printable_encode(Seq::empty(), t));
}

/// `stream_filter_strip_tags_x86_64` appends a block that does not depend on the listing before it.
proof fn lemma_stream_filter_strip_tags_x86_64_appends(out: Seq<Line>, t: Target)
    ensures
        stream_filter_strip_tags_x86_64(out, t) == out + stream_filter_strip_tags_x86_64(Seq::empty(), t),
{
    let a = out;
    let b = Seq::<Line>::empty();
    lemma_append_empty(out);
    lemma_append_push(out, b, label("__rt_asf_strip_tags_x86"));
    let a = a.push(label("__rt_asf_strip_tags_x86"));
    let b = b.push(label("__rt_asf_strip_tags_x86"));
    lemma_append_push(out, b, ins("xor r9, r9"));
    let a = a.push(ins("xor r9, r9"));
    let b = b.push(ins("xor r9, r9"));
    lemma_append_push(out, b, ins("xor r10, r10"));
    let a = a.push(ins("xor r10, r10"));
    let b = b.push(ins("xor r10, r10"));
    lemma_append_push(out, b, ins("xor r11, r11"));
    let a = a.push(ins("xor r11, r11"));
    let b = b.push(ins("xor r11, r11"));
    lemma_append_push(out, b, label("__rt_asf_strip_loop_x86"));
    let a = a.push(label("__rt_asf_strip_loop_x86"));
    let b = b.push(label("__rt_asf_strip_loop_x86"));
    lemma_append_push(out, b, ins("cmp r9, rdx"));
    let a = a.push(ins("cmp r9, rdx"));
    let b = b.push(ins("cmp r9, rdx"));
    lemma_append_push(out, b, ins("jge __rt_asf_strip_done_x86"));
    let a = a.push(ins("jge __rt_asf_strip_done_x86"));
    let b = b.push(ins("jge __rt_asf_strip_done_x86"));
    lemma_append_push(out, b, ins("movzx r8d, BYTE PTR [rax + r9]"));
    let a = a.push(ins("movzx r8d, BYTE PTR [rax + r9]"));
    let b = b.push(ins("movzx r8d, BYTE PTR [rax + r9]"));
    lemma_append_push(out, b, ins("test r11, r11"));
    let a = a.push(ins("test r11, r11"));
    let b = b.push(ins("test r11, r11"));
    lemma_append_push(out, b, ins("jnz __rt_asf_strip_in_tag_x86"));
    let a = a.push(ins("jnz __rt_asf_strip_in_tag_x86"));
    let b = b.push(ins("jnz __rt_asf_strip_in_tag_x86"));
    lemma_append_push(out, b, ins("cmp r8b, 60"));
    let a = a.push(ins("cmp r8b, 60"));
    let b = b.push(ins("cmp r8b, 60"));
    lemma_append_push(out, b, ins("je __rt_asf_strip_enter_x86"));
    let a = a.push(ins("je __rt_asf_strip_enter_x86"));
    let b = b.push(ins("je __rt_asf_strip_enter_x86"));
    lemma_append_push(out, b, ins("mov BYTE PTR [rax + r10], r8b"));
    let a = a.push(ins("mov BYTE PTR [rax + r10], r8b"));
    let b = b.push(ins("mov BYTE PTR [rax + r10], r8b"));
    lemma_append_push(out, b, ins("inc r10"));
    let a = a.push(ins("inc r10"));
    let b = b.push(ins("inc r10"));
    lemma_append_push(out, b, ins("jmp __rt_asf_strip_advance_x86"));
    let a = a.push(ins("jmp __rt_asf_strip_advance_x86"));
    let b = b.push(ins("jmp __rt_asf_strip_advance_x86"));
    lemma_append_push(out, b, label("__rt_asf_strip_enter_x86"));
    let a = a.push(label("__rt_asf_strip_enter_x86"));
    let b = b.push(label("__rt_asf_strip_enter_x86"));
    lemma_append_push(out, b, ins("mov r11, 1"));
    let a = a.push(ins("mov r11, 1"));
    let b = b.push(ins("mov r11, 1"));
    lemma_append_push(out, b, ins("jmp __rt_asf_strip_advance_x86"));
    let a = a.push(ins("jmp __rt_asf_strip_advance_x86"));
    let b = b.push(ins("jmp __rt_asf_strip_advance_x86"));
    lemma_append_push(out, b, label("__rt_asf_strip_in_tag_x86"));
    let a = a.push(label("__rt_asf_strip_in_tag_x86"));
    let b = b.push(label("__rt_asf_strip_in_tag_x86"));
    lemma_append_push(out, b, ins("cmp r8b, 62"));
    let a = a.push(ins("cmp r8b, 62"));
    let b = b.push(ins("cmp r8b, 62"));
    lemma_append_push(out, b, ins("jne __rt_asf_strip_advance_x86"));
    let a = a.push(ins("jne __rt_asf_strip_advance_x86"));
    let b = b.push(ins("jne __rt_asf_strip_advance_x86"));
    lemma_append_push(out, b, ins("xor r11, r11"));
    let a = a.push(ins("xor r11, r11"));
    let b = b.push(ins("xor r11, r11"));
    lemma_append_push(out, b, label("__rt_asf_strip_advance_x86"));
    let a = a.push(label("__rt_asf_strip_advance_x86"));
    let b = b.push(label("__rt_asf_strip_advance_x86"));
    lemma_append_push(out, b, ins("inc r9"));
    let a = a.push(ins("inc r9"));
    let b = b.push(ins("inc r9"));
    lemma_append_push(out, b, ins("jmp __rt_asf_strip_loop_x86"));
    let a = a.push(ins("jmp __rt_asf_strip_loop_x86"));
    let b = b.push(ins("jmp __rt_asf_strip_loop_x86"));
    lemma_append_push(out, b, label("__rt_asf_strip_done_x86"));
    let a = a.push(label("__rt_asf_strip_done_x86"));
    let b = b.push(label("__rt_asf_strip_done_x86"));
    lemma_append_push(out, b, ins("mov rdx, r10"));
    let a = a.push(ins("mov rdx, r10"));
    let b = b.push(ins("mov rdx, r10"));
    lemma_append_push(out, b, ins("ret"));
    let a = a.push(ins("ret"));
    let b = b.push(ins("ret"));
    assert(a == stream_filter_strip_tags_x86_64(out, t));
    assert(b == stream_filter_strip_tags_x86_64(Seq::empty(), t));
}

/// `stream_filter_base64_decode_x86_64` appends a block that does not depend on the listing before it.
proof fn lemma_stream_filter_base64_decode_x86_64_appends(out: Seq<Line>, t: Target)
    ensures
        stream_filter_base64_decode_x86_64(out, t) == out + stream_filter_base64_decode_x86_64(Seq::empty(), t),
{
    let a = out;
    let b = Seq::<Line>::empty();
    lemma_append_empty(out);
    lemma_append_push(out, b, label("__rt_asf_b64_decode_x86"));
    let a = a.push(label("__rt_asf_b64_decode_x86"));
    let b = b.push(label("__rt_asf_b64_decode_x86"));
    lemma_append_push(out, b, ins("xor r9, r9"));
    let a = a.push(ins("xor r9, r9"));
    let b = b.push(ins("xor r9, r9"));
    lemma_append_push(out, b, ins("xor r10, r10"));
    let a = a.push(ins("xor r10, r10"));
    let b = b.push(ins("xor r10, r10"));
    lemma_append_push(out, b, ins("xor r11, r11"));
    let a = a.push(ins("xor r11, r11"));
    let b = b.push(ins("xor r11, r11"));
    lemma_append_push(out, b, ins("xor r12, r12"));
    let a = a.push(ins("xor r12, r12"));
    let b = b.push(ins("xor r12, r12"));
    lemma_append_push(out, b, label("__rt_asf_b64_loop_x86"));
    let a = a.push(label("__rt_asf_b64_loop_x86"));
    let b = b.push(label("__rt_asf_b64_loop_x86"));
    lemma_append_push(out, b, ins("cmp r9, rdx"));
    let a = a.push(ins("cmp r9, rdx"));
    let b = b.push(ins("cmp r9, rdx"));
    lemma_append_push(out, b, ins("jge __rt_asf_b64_done_x86"));
    let a = a.push(ins("jge __rt_asf_b64_done_x86"));
    let b = b.push(ins("jge __rt_asf_b64_done_x86"));
    lemma_append_push(out, b, ins("movzx r8d, BYTE PTR [rax + r9]"));
    let a = a.push(ins("movzx r8d, BYTE PTR [rax + r9]"));
    let b = b.push(ins("movzx r8d, BYTE PTR [rax + r9]"));
    lemma_append_push(out, b, ins("inc r9"));
    let a = a.push(ins("inc r9"));
    let b = b.push(ins("inc r9"));
    lemma_append_push(out, b, ins("cmp r8b, 65"));
    let a = a.push(ins("cmp r8b, 65"));
    let b = b.push(ins("cmp r8b, 65"));
    lemma_append_push(out, b, ins("jl __rt_asf_b64_try_digit_x86"));
    let a = a.push(ins("jl __rt_asf_b64_try_digit_x86"));
    let b = b.push(ins("jl __rt_asf_b64_try_digit_x86"));
    lemma_append_push(out, b, ins("cmp r8b, 90"));
    let a = a.push(ins("cmp r8b, 90"));
    let b = b.push(ins("cmp r8b, 90"));
    lemma_append_push(out, b, ins("jg __rt_asf_b64_try_lower_x86"));
    let a = a.push(ins("jg __rt_asf_b64_try_lower_x86"));
    let b = b.push(ins("jg __rt_asf_b64_try_lower_x86"));
    lemma_append_push(out, b, ins("sub r8b, 65"));
    let a = a.push(ins("sub r8b, 65"));
    let b = b.push(ins("sub r8b, 65"));
    lemma_append_push(out, b, ins("jmp __rt_asf_b64_add_x86"));
    let a = a.push(ins("jmp __rt_asf_b64_add_x86"));
    let b = b.push(ins("jmp __rt_asf_b64_add_x86"));
    lemma_append_push(out, b, label("__rt_asf_b64_try_lower_x86"));
    let a = a.push(label("__rt_asf_b64_try_lower_x86"));
    let b = b.push(label("__rt_asf_b64_try_lower_x86"));
    lemma_append_push(out, b, ins("cmp r8b, 97"));
    let a = a.push(ins("cmp r8b, 97"));
    let b = b.push(ins("cmp r8b, 97"));
    lemma_append_push(out, b, ins("jl __rt_asf_b64_try_plus_x86"));
    let a = a.push(ins("jl __rt_asf_b64_try_plus_x86"));
    let b = b.push(ins("jl __rt_asf_b64_try_plus_x86"));
    lemma_append_push(out, b, ins("cmp r8b, 122"));
    let a = a.push(ins("cmp r8b, 122"));
    let b = b.push(ins("cmp r8b, 122"));
    lemma_append_push(out, b, ins("jg __rt_asf_b64_try_plus_x86"));
    let a = a.push(ins("jg __rt_asf_b64_try_plus_x86"));
    let b = b.push(ins("jg __rt_asf_b64_try_plus_x86"));
    lemma_append_push(out, b, ins("sub r8b, 71"));
    let a = a.push(ins("sub r8b, 71"));
    let b = b.push(ins("sub r8b, 71"));
    lemma_append_push(out, b, ins("jmp __rt_asf_b64_add_x86"));
    let a = a.push(ins("jmp __rt_asf_b64_add_x86"));
    let b = b.push(ins("jmp __rt_asf_b64_add_x86"));
    lemma_append_push(out, b, label("__rt_asf_b64_try_digit_x86"));
    let a = a.push(label("__rt_asf_b64_try_digit_x86"));
    let b = b.push(label("__rt_asf_b64_try_digit_x86"));
    lemma_append_push(out, b, ins("cmp r8b, 48"));
    let a = a.push(ins("cmp r8b, 48"));
    let b = b.push(ins("cmp r8b, 48"));
    lemma_append_push(out, b, ins("jl __rt_asf_b64_try_plus_x86"));
    let a = a.push(ins("jl __rt_asf_b64_try_plus_x86"));
    let b = b.push(ins("jl __rt_asf_b64_try_plus_x86"));
    lemma_append_push(out, b, ins("cmp r8b, 57"));
    let a = a.push(ins("cmp r8b, 57"));
    let b = b.push(ins("cmp r8b, 57"));
    lemma_append_push(out, b, ins("jg __rt_asf_b64_try_plus_x86"));
    let a = a.push(ins("jg __rt_asf_b64_try_plus_x86"));
    let b = b.push(ins("jg __rt_asf_b64_try_plus_x86"));
    lemma_append_push(out, b, ins("add r8b, 4"));
    let a = a.push(ins("add r8b, 4"));
    let b = b.push(ins("add r8b, 4"));
    lemma_append_push(out, b, ins("jmp __rt_asf_b64_add_x86"));
    let a = a.push(ins("jmp __rt_asf_b64_add_x86"));
    let b = b.push(ins("jmp __rt_asf_b64_add_x86"));
    lemma_append_push(out, b, label("__rt_asf_b64_try_plus_x86"));
    let a = a.push(label("__rt_asf_b64_try_plus_x86"));
    let b = b.push(label("__rt_asf_b64_try_plus_x86"));
    lemma_append_push(out, b, ins("cmp r8b, 43"));
    let a = a.push(ins("cmp r8b, 43"));
    let b = b.push(ins("cmp r8b, 43"));
    lemma_append_push(out, b, ins("je __rt_asf_b64_plus_x86"));
    let a = a.push(ins("je __rt_asf_b64_plus_x86"));
    let b = b.push(ins("je __rt_asf_b64_plus_x86"));
    lemma_append_push(out, b, ins("cmp r8b, 47"));
    let a = a.push(ins("cmp r8b, 47"));
    let b = b.push(ins("cmp r8b, 47"));
    lemma_append_push(out, b, ins("je __rt_asf_b64_slash_x86"));
    let a = a.push(ins("je __rt_asf_b64_slash_x86"));
    let b = b.push(ins("je __rt_asf_b64_slash_x86"));
    lemma_append_push(out, b, ins("jmp __rt_asf_b64_loop_x86"));
    let a = a.push(ins("jmp __rt_asf_b64_loop_x86"));
    let b = b.push(ins("jmp __rt_asf_b64_loop_x86"));
    lemma_append_push(out, b, label("__rt_asf_b64_plus_x86"));
    let a = a.push(label("__rt_asf_b64_plus_x86"));
    let b = b.push(label("__rt_asf_b64_plus_x86"));
    lemma_append_push(out, b, ins("mov r8b, 62"));
    let a = a.push(ins("mov r8b, 62"));
    let b = b.push(ins("mov r8b, 62"));
    lemma_append_push(out, b, ins("jmp __rt_asf_b64_add_x86"));
    let a = a.push(ins("jmp __rt_asf_b64_add_x86"));
    let b = b.push(ins("jmp __rt_asf_b64_add_x86"));
    lemma_append_push(out, b, label("__rt_asf_b64_slash_x86"));
    let a = a.push(label("__rt_asf_b64_slash_x86"));
    let b = b.push(label("__rt_asf_b64_slash_x86"));
    lemma_append_push(out, b, ins("mov r8b, 63"));
    let a = a.push(ins("mov r8b, 63"));
    let b = b.push(ins("mov r8b, 63"));
    lemma_append_push(out, b, label("__rt_asf_b64_add_x86"));
    let a = a.push(label("__rt_asf_b64_add_x86"));
    let b = b.push(label("__rt_asf_b64_add_x86"));
    lemma_append_push(out, b, ins("shl r11, 6"));
    let a = a.push(ins("shl r11, 6"));
    let b = b.push(ins("shl r11, 6"));
    lemma_append_push(out, b, ins("movzx r8, r8b"));
    let a = a.push(ins("movzx r8, r8b"));
    let b = b.push(ins("movzx r8, r8b"));
    lemma_append_push(out, b, ins("or r11, r8"));
    let a = a.push(ins("or r11, r8"));
    let b = b.push(ins("or r11, r8"));
    lemma_append_push(out, b, ins("inc r12"));
    let a = a.push(ins("inc r12"));
    let b = b.push(ins("inc r12"));
    lemma_append_push(out, b, ins("cmp r12, 4"));
    let a = a.push(ins("cmp r12, 4"));
    let b = b.push(ins("cmp r12, 4"));
    lemma_append_push(out, b, ins("jl __rt_asf_b64_loop_x86"));
    let a = a.push(ins("jl __rt_asf_b64_loop_x86"));
    let b = b.push(ins("jl __rt_asf_b64_loop_x86"));
    lemma_append_push(out, b, ins("mov r13, r11"));
    let a = a.push(ins("mov r13, r11"));
    let b = b.push(ins("mov r13, r11"));
    lemma_append_push(out, b, ins("shr r13, 16"));
    let a = a.push(ins("shr r13, 16"));
    let b = b.push(ins("shr r13, 16"));
    lemma_append_push(out, b, ins("mov BYTE PTR [rax + r10], r13b"));
    let a = a.push(ins("mov BYTE PTR [rax + r10], r13b"));
    let b = b.push(ins("mov BYTE PTR [rax + r10], r13b"));
    lemma_append_push(out, b, ins("inc r10"));
    let a = a.push(ins("inc r10"));
    let b = b.push(ins("inc r10"));
    lemma_append_push(out, b, ins("mov r13, r11"));
    let a = a.push(ins("mov r13, r11"));
    let b = b.push(ins("mov r13, r11"));
    lemma_append_push(out, b, ins("shr r13, 8"));
    let a = a.push(ins("shr r13, 8"));
    let b = b.push(ins("shr r13, 8"));
    lemma_append_push(out, b, ins("mov BYTE PTR [rax + r10], r13b"));
    let a = a.push(ins("mov BYTE PTR [rax + r10], r13b"));
    let b = b.push(ins("mov BYTE PTR [rax + r10], r13b"));
    lemma_append_push(out, b, ins("inc r10"));
    let a = a.push(ins("inc r10"));
    let b = b.push(ins("inc r10"));
    lemma_append_push(out, b, ins("mov BYTE PTR [rax + r10], r11b"));
    let a = a.push(ins("mov BYTE PTR [rax + r10], r11b"));
    let b = b.push(ins("mov BYTE PTR [rax + r10], r11b"));
    lemma_append_push(out, b, ins("inc r10"));
    let a = a.push(ins("inc r10"));
    let b = b.push(ins("inc r10"));
    lemma_append_push(out, b, ins("xor r11, r11"));
    let a = a.push(ins("xor r11, r11"));
    let b = b.push(ins("xor r11, r11"));
    lemma_append_push(out, b, ins("xor r12, r12"));
    let a = a.push(ins("xor r12, r12"));
    let b = b.push(ins("xor r12, r12"));
    lemma_append_push(out, b, ins("jmp __rt_asf_b64_loop_x86"));
    let a = a.push(ins("jmp __rt_asf_b64_loop_x86"));
    let b = b.push(ins("jmp __rt_asf_b64_loop_x86"));
    lemma_append_push(out, b, label("__rt_asf_b64_done_x86"));
    let a = a.push(label("__rt_asf_b64_done_x86"));
    let b = b.push(label("__rt_asf_b64_done_x86"));
    lemma_append_push(out, b, ins("cmp r12, 2"));
    let a = a.push(ins("cmp r12, 2"));
    let b = b.push(ins("cmp r12, 2"));
    lemma_append_push(out, b, ins("jl __rt_asf_b64_finish_x86"));
    let a = a.push(ins("jl __rt_asf_b64_finish_x86"));
    let b = b.push(ins("jl __rt_asf_b64_finish_x86"));
    lemma_append_push(out, b, ins("cmp r12, 3"));
    let a = a.push(ins("cmp r12, 3"));
    let b = b.push(ins("cmp r12, 3"));
    lemma_append_push(out, b, ins("je __rt_asf_b64_three_x86"));
    let a = a.push(ins("je __rt_asf_b64_three_x86"));
    let b = b.push(ins("je __rt_asf_b64_three_x86"));
    lemma_append_push(out, b, ins("shl r11, 12"));
    let a = a.push(ins("shl r11, 12"));
    let b = b.push(ins("shl r11, 12"));
    lemma_append_push(out, b, ins("mov r13, r11"));
    let a = a.push(ins("mov r13, r11"));
    let b = b.push(ins("mov r13, r11"));
    lemma_append_push(out, b, ins("shr r13, 16"));
    let a = a.push(ins("shr r13, 16"));
    let b = b.push(ins("shr r13, 16"));
    lemma_append_push(out, b, ins("mov BYTE PTR [rax + r10], r13b"));
    let a = a.push(ins("mov BYTE PTR [rax + r10], r13b"));
    let b = b.push(ins("mov BYTE PTR [rax + r10], r13b"));
    lemma_append_push(out, b, ins("inc r10"));
    let a = a.push(ins("inc r10"));
    let b = b.push(ins("inc r10"));
    lemma_append_push(out, b, ins("jmp __rt_asf_b64_finish_x86"));
    let a = a.push(ins("jmp __rt_asf_b64_finish_x86"));
    let b = b.push(ins("jmp __rt_asf_b64_finish_x86"));
    lemma_append_push(out, b, label("__rt_asf_b64_three_x86"));
    let a = a.push(label("__rt_asf_b64_three_x86"));
    let b = b.push(label("__rt_asf_b64_three_x86"));
    lemma_append_push(out, b, ins("shl r11, 6"));
    let a = a.push(ins("shl r11, 6"));
    let b = b.push(ins("shl r11, 6"));
    lemma_append_push(out, b, ins("mov r13, r11"));
    let a = a.push(ins("mov r13, r11"));
    let b = b.push(ins("mov r13, r11"));
    lemma_append_push(out, b, ins("shr r13, 16"));
    let a = a.push(ins("shr r13, 16"));
    let b = b.push(ins("shr r13, 16"));
    lemma_append_push(out, b, ins("mov BYTE PTR [rax + r10], r13b"));
    let a = a.push(ins("mov BYTE PTR [rax + r10], r13b"));
    let b = b.push(ins("mov BYTE PTR [rax + r10], r13b"));
    lemma_append_push(out, b, ins("inc r10"));
    let a = a.push(ins("inc r10"));
    let b = b.push(ins("inc r10"));
    lemma_append_push(out, b, ins("mov r13, r11"));
    let a = a.push(ins("mov r13, r11"));
    let b = b.push(ins("mov r13, r11"));
    lemma_append_push(out, b, ins("shr r13, 8"));
    let a = a.push(ins("shr r13, 8"));
    let b = b.push(ins("shr r13, 8"));
    lemma_append_push(out, b, ins("mov BYTE PTR [rax + r10], r13b"));
    let a = a.push(ins("mov BYTE PTR [rax + r10], r13b"));
    let b = b.push(ins("mov BYTE PTR [rax + r10], r13b"));
    lemma_append_push(out, b, ins("inc r10"));
    let a = a.push(ins("inc r10"));
    let b = b.push(ins("inc r10"));
    lemma_append_push(out, b, label("__rt_asf_b64_finish_x86"));
    let a = a.push(label("__rt_asf_b64_finish_x86"));
    let b = b.push(label("__rt_asf_b64_finish_x86"));
    lemma_append_push(out, b, ins("mov rdx, r10"));
    let a = a.push(ins("mov rdx, r10"));
    let b = b.push(ins("mov rdx, r10"));
    lemma_append_push(out, b, ins("ret"));
    let a = a.push(ins("ret"));
    let b = b.push(ins("ret"));
    assert(a == stream_filter_base64_decode_x86_64(out, t));
    assert(b == stream_filter_base64_decode_x86_64(Seq::empty(), t));
}

/// `stream_filter_dechunk_x86_64` appends a block that does not depend on the listing before it.
proof fn lemma_stream_filter_dechunk_x86_64_appends(out: Seq<Line>, t: Target)
    ensures
        stream_filter_dechunk_x86_64(out, t) == out + stream_filter_dechunk_x86_64(Seq::empty(), t),
{
    let a = out;
    let b = Seq::<Line>::empty();
    lemma_append_empty(out);
    lemma_append_push(out, b, label("__rt_asf_dechunk_x86"));
    let a = a.push(label("__rt_asf_dechunk_x86"));
    let b = b.push(label("__rt_asf_dechunk_x86"));
    lemma_append_push(out, b, ins("xor r9, r9"));
    let a = a.push(ins("xor r9, r9"));
    let b = b.push(ins("xor r9, r9"));
    lemma_append_push(out, b, ins("xor r10, r10"));
    let a = a.push(ins("xor r10, r10"));
    let b = b.push(ins("xor r10, r10"));
    lemma_append_push(out, b, label("__rt_asf_dc_size_loop_x86"));
    let a = a.push(label("__rt_asf_dc_size_loop_x86"));
    let b = b.push(label("__rt_asf_dc_size_loop_x86"));
    lemma_append_push(out, b, ins("xor r11, r11"));
    let a = a.push(ins("xor r11, r11"));
    let b = b.push(ins("xor r11, r11"));
    lemma_append_push(out, b, label("__rt_asf_dc_size_read_x86"));
    let a = a.push(label("__rt_asf_dc_size_read_x86"));
    let b = b.push(label("__rt_asf_dc_size_read_x86"));
    lemma_append_push(out, b, ins("cmp r9, rdx"));
    let a = a.push(ins("cmp r9, rdx"));
    let b = b.push(ins("cmp r9, rdx"));
    lemma_append_push(out, b, ins("jge __rt_asf_dc_done_x86"));
    let a = a.push(ins("jge __rt_asf_dc_done_x86"));
    let b = b.push(ins("jge __rt_asf_dc_done_x86"));
    lemma_append_push(out, b, ins("movzx r8d, BYTE PTR [rax + r9]"));
    let a = a.push(ins("movzx r8d, BYTE PTR [rax + r9]"));
    let b = b.push(ins("movzx r8d, BYTE PTR [rax + r9]"));
    lemma_append_push(out, b, ins("inc r9"));
    let a = a.push(ins("inc r9"));
    let b = b.push(ins("inc r9"));
    lemma_append_push(out, b, ins("cmp r8b, 13"));
    let a = a.push(ins("cmp r8b, 13"));
    let b = b.push(ins("cmp r8b, 13"));
    lemma_append_push(out, b, ins("je __rt_asf_dc_size_eol_x86"));
    let a = a.push(ins("je __rt_asf_dc_size_eol_x86"));
    let b = b.push(ins("je __rt_asf_dc_size_eol_x86"));
    lemma_append_push(out, b, ins("cmp r8b, 59"));
    let a = a.push(ins("cmp r8b, 59"));
    let b = b.push(ins("cmp r8b, 59"));
    lemma_append_push(out, b, ins("je __rt_asf_dc_skip_eol_x86"));
    let a = a.push(ins("je __rt_asf_dc_skip_eol_x86"));
    let b = b.push(ins("je __rt_asf_dc_skip_eol_x86"));
    lemma_append_push(out, b, ins("cmp r8b, 48"));
    let a = a.push(ins("cmp r8b, 48"));
    let b = b.push(ins("cmp r8b, 48"));
    lemma_append_push(out, b, ins("jl __rt_asf_dc_size_read_x86"));
    let a = a.push(ins("jl __rt_asf_dc_size_read_x86"));
    let b = b.push(ins("jl __rt_asf_dc_size_read_x86"));
    lemma_append_push(out, b, ins("cmp r8b, 57"));
    let a = a.push(ins("cmp r8b, 57"));
    let b = b.push(ins("cmp r8b, 57"));
    lemma_append_push(out, b, ins("jle __rt_asf_dc_size_digit_x86"));
    let a = a.push(ins("jle __rt_asf_dc_size_digit_x86"));
    let b = b.push(ins("jle __rt_asf_dc_size_digit_x86"));
    lemma_append_push(out, b, ins("or r8b, 0x20"));
    let a = a.push(ins("or r8b, 0x20"));
    let b = b.push(ins("or r8b, 0x20"));
    lemma_append_push(out, b, ins("cmp r8b, 97"));
    let a = a.push(ins("cmp r8b, 97"));
    let b = b.push(ins("cmp r8b, 97"));
    lemma_append_push(out, b, ins("jl __rt_asf_dc_size_read_x86"));
    let a = a.push(ins("jl __rt_asf_dc_size_read_x86"));
    let b = b.push(ins("jl __rt_asf_dc_size_read_x86"));
    lemma_append_push(out, b, ins("cmp r8b, 102"));
    let a = a.push(ins("cmp r8b, 102"));
    let b = b.push(ins("cmp r8b, 102"));
    lemma_append_push(out, b, ins("jg __rt_asf_dc_size_read_x86"));
    let a = a.push(ins("jg __rt_asf_dc_size_read_x86"));
    let b = b.push(ins("jg __rt_asf_dc_size_read_x86"));
    lemma_append_push(out, b, ins("sub r8b, 87"));
    let a = a.push(ins("sub r8b, 87"));
    let b = b.push(ins("sub r8b, 87"));
    lemma_append_push(out, b, ins("jmp __rt_asf_dc_size_acc_x86"));
    let a = a.push(ins("jmp __rt_asf_dc_size_acc_x86"));
    let b = b.push(ins("jmp __rt_asf_dc_size_acc_x86"));
    lemma_append_push(out, b, label("__rt_asf_dc_size_digit_x86"));
    let a = a.push(label("__rt_asf_dc_size_digit_x86"));
    let b = b.push(label("__rt_asf_dc_size_digit_x86"));
    lemma_append_push(out, b, ins("sub r8b, 48"));
    let a = a.push(ins("sub r8b, 48"));
    let b = b.push(ins("sub r8b, 48"));
    lemma_append_push(out, b, label("__rt_asf_dc_size_acc_x86"));
    let a = a.push(label("__rt_asf_dc_size_acc_x86"));
    let b = b.push(label("__rt_asf_dc_size_acc_x86"));
    lemma_append_push(out, b, ins("shl r11, 4"));
    let a = a.push(ins("shl r11, 4"));
    let b = b.push(ins("shl r11, 4"));
    lemma_append_push(out, b, ins("movzx r8, r8b"));
    let a = a.push(ins("movzx r8, r8b"));
    let b = b.push(ins("movzx r8, r8b"));
    lemma_append_push(out, b, ins("or r11, r8"));
    let a = a.push(ins("or r11, r8"));
    let b = b.push(ins("or r11, r8"));
    lemma_append_push(out, b, ins("jmp __rt_asf_dc_size_read_x86"));
    let a = a.push(ins("jmp __rt_asf_dc_size_read_x86"));
    let b = b.push(ins("jmp __rt_asf_dc_size_read_x86"));
    lemma_append_push(out, b, label("__rt_asf_dc_skip_eol_x86"));
    let a = a.push(label("__rt_asf_dc_skip_eol_x86"));
    let b = b.push(label("__rt_asf_dc_skip_eol_x86"));
    lemma_append_push(out, b, ins("cmp r9, rdx"));
    let a = a.push(ins("cmp r9, rdx"));
    let b = b.push(ins("cmp r9, rdx"));
    lemma_append_push(out, b, ins("jge __rt_asf_dc_done_x86"));
    let a = a.push(ins("jge __rt_asf_dc_done_x86"));
    let b = b.push(ins("jge __rt_asf_dc_done_x86"));
    lemma_append_push(out, b, ins("movzx r8d, BYTE PTR [rax + r9]"));
    let a = a.push(ins("movzx r8d, BYTE PTR [rax + r9]"));
    let b = b.push(ins("movzx r8d, BYTE PTR [rax + r9]"));
    lemma_append_push(out, b, ins("inc r9"));
    let a = a.push(ins("inc r9"));
    let b = b.push(ins("inc r9"));
    lemma_append_push(out, b, ins("cmp r8b, 13"));
    let a = a.push(ins("cmp r8b, 13"));
    let b = b.push(ins("cmp r8b, 13"));
    lemma_append_push(out, b, ins("jne __rt_asf_dc_skip_eol_x86"));
    let a = a.push(ins("jne __rt_asf_dc_skip_eol_x86"));
    let b = b.push(ins("jne __rt_asf_dc_skip_eol_x86"));
    lemma_append_push(out, b, label("__rt_asf_dc_size_eol_x86"));
    let a = a.push(label("__rt_asf_dc_size_eol_x86"));
    let b = b.push(label("__rt_asf_dc_size_eol_x86"));
    lemma_append_push(out, b, ins("cmp r9, rdx"));
    let a = a.push(ins("cmp r9, rdx"));
    let b = b.push(ins("cmp r9, rdx"));
    lemma_append_push(out, b, ins("jge __rt_asf_dc_done_x86"));
    let a = a.push(ins("jge __rt_asf_dc_done_x86"));
    let b = b.push(ins("jge __rt_asf_dc_done_x86"));
    lemma_append_push(out, b, ins("movzx r8d, BYTE PTR [rax + r9]"));
    let a = a.push(ins("movzx r8d, BYTE PTR [rax + r9]"));
    let b = b.push(ins("movzx r8d, BYTE PTR [rax + r9]"));
    lemma_append_push(out, b, ins("cmp r8b, 10"));
    let a = a.push(ins("cmp r8b, 10"));
    let b = b.push(ins("cmp r8b, 10"));
    lemma_append_push(out, b, ins("jne __rt_asf_dc_skip_lf_x86"));
    let a = a.push(ins("jne __rt_asf_dc_skip_lf_x86"));
    let b = b.push(ins("jne __rt_asf_dc_skip_lf_x86"));
    lemma_append_push(out, b, ins("inc r9"));
    let a = a.push(ins("inc r9"));
    let b = b.push(ins("inc r9"));
    lemma_append_push(out, b, label("__rt_asf_dc_skip_lf_x86"));
    let a = a.push(label("__rt_asf_dc_skip_lf_x86"));
    let b = b.push(label("__rt_asf_dc_skip_lf_x86"));
    lemma_append_push(out, b, ins("test r11, r11"));
    let a = a.push(ins("test r11, r11"));
    let b = b.push(ins("test r11, r11"));
    lemma_append_push(out, b, ins("jz __rt_asf_dc_done_x86"));
    let a = a.push(ins("jz __rt_asf_dc_done_x86"));
    let b = b.push(ins("jz __rt_asf_dc_done_x86"));
    lemma_append_push(out, b, ins("xor r12, r12"));
    let a = a.push(ins("xor r12, r12"));
    let b = b.push(ins("xor r12, r12"));
    lemma_append_push(out, b, label("__rt_asf_dc_copy_loop_x86"));
    let a = a.push(label("__rt_asf_dc_copy_loop_x86"));
    let b = b.push(label("__rt_asf_dc_copy_loop_x86"));
    lemma_append_push(out, b, ins("cmp r12, r11"));
    let a = a.push(ins("cmp r12, r11"));
    let b = b.push(ins("cmp r12, r11"));
    lemma_append_push(out, b, ins("jge __rt_asf_dc_copy_done_x86"));
    let a = a.push(ins("jge __rt_asf_dc_copy_done_x86"));
    let b = b.push(ins("jge __rt_asf_dc_copy_done_x86"));
    lemma_append_push(out, b, ins("cmp r9, rdx"));
    let a = a.push(ins("cmp r9, rdx"));
    let b = b.push(ins("cmp r9, rdx"));
    lemma_append_push(out, b, ins("jge __rt_asf_dc_done_x86"));
    let a = a.push(ins("jge __rt_asf_dc_done_x86"));
    let b = b.push(ins("jge __rt_asf_dc_done_x86"));
    lemma_append_push(out, b, ins("movzx r8d, BYTE PTR [rax + r9]"));
    let a = a.push(ins("movzx r8d, BYTE PTR [rax + r9]"));
    let b = b.push(ins("movzx r8d, BYTE PTR [rax + r9]"));
    lemma_append_push(out, b, ins("mov BYTE PTR [rax + r10], r8b"));
    let a = a.push(ins("mov BYTE PTR [rax + r10], r8b"));
    let b = b.push(ins("mov BYTE PTR [rax + r10], r8b"));
    lemma_append_push(out, b, ins("inc r9"));
    let a = a.push(ins("inc r9"));
    let b = b.push(ins("inc r9"));
    lemma_append_push(out, b, ins("inc r10"));
    let a = a.push(ins("inc r10"));
    let b = b.push(ins("inc r10"));
    lemma_append_push(out, b, ins("inc r12"));
    let a = a.push(ins("inc r12"));
    let b = b.push(ins("inc r12"));
    lemma_append_push(out, b, ins("jmp __rt_asf_dc_copy_loop_x86"));
    let a = a.push(ins("jmp __rt_asf_dc_copy_loop_x86"));
    let b = b.push(ins("jmp __rt_asf_dc_copy_loop_x86"));
    lemma_append_push(out, b, label("__rt_asf_dc_copy_done_x86"));
    let a = a.push(label("__rt_asf_dc_copy_done_x86"));
    let b = b.push(label("__rt_asf_dc_copy_done_x86"));
    lemma_append_push(out, b, ins("cmp r9, rdx"));
    let a = a.push(ins("cmp r9, rdx"));
    let b = b.push(ins("cmp r9, rdx"));
    lemma_append_push(out, b, ins("jge __rt_asf_dc_size_loop_x86"));
    let a = a.push(ins("jge __rt_asf_dc_size_loop_x86"));
    let b = b.push(ins("jge __rt_asf_dc_size_loop_x86"));
    lemma_append_push(out, b, ins("movzx r8d, BYTE PTR [rax + r9]"));
    let a = a.push(ins("movzx r8d, BYTE PTR [rax + r9]"));
    let b = b.push(ins("movzx r8d, BYTE PTR [rax + r9]"));
    lemma_append_push(out, b, ins("cmp r8b, 13"));
    let a = a.push(ins("cmp r8b, 13"));
    let b = b.push(ins("cmp r8b, 13"));
    lemma_append_push(out, b, ins("jne __rt_asf_dc_size_loop_x86"));
    let a = a.push(ins("jne __rt_asf_dc_size_loop_x86"));
    let b = b.push(ins("jne __rt_asf_dc_size_loop_x86"));
    lemma_append_push(out, b, ins("inc r9"));
    let a = a.push(ins("inc r9"));
    let b = b.push(ins("inc r9"));
    lemma_append_push(out, b, ins("cmp r9, rdx"));
    let a = a.push(ins("cmp r9, rdx"));
    let b = b.push(ins("cmp r9, rdx"));
    lemma_append_push(out, b, ins("jge __rt_asf_dc_size_loop_x86"));
    let a = a.push(ins("jge __rt_asf_dc_size_loop_x86"));
    let b = b.push(ins("jge __rt_asf_dc_size_loop_x86"));
    lemma_append_push(out, b, ins("movzx r8d, BYTE PTR [rax + r9]"));
    let a = a.push(ins("movzx r8d, BYTE PTR [rax + r9]"));
    let b = b.push(ins("movzx r8d, BYTE PTR [rax + r9]"));
    lemma_append_push(out, b, ins("cmp r8b, 10"));
    let a = a.push(ins("cmp r8b, 10"));
    let b = b.push(ins("cmp r8b, 10"));
    lemma_append_push(out, b, ins("jne __rt_asf_dc_size_loop_x86"));
    let a = a.push(ins("jne __rt_asf_dc_size_loop_x86"));
    let b = b.push(ins("jne __rt_asf_dc_size_loop_x86"));
    lemma_append_push(out, b, ins("inc r9"));
    let a = a.push(ins("inc r9"));
    let b = b.push(ins("inc r9"));
    lemma_append_push(out, b, ins("jmp __rt_asf_dc_size_loop_x86"));
    let a = a.push(ins("jmp __rt_asf_dc_size_loop_x86"));
    let b = b.push(ins("jmp __rt_asf_dc_size_loop_x86"));
    lemma_append_push(out, b, label("__rt_asf_dc_done_x86"));
    let a = a.push(label("__rt_asf_dc_done_x86"));
    let b = b.push(label("__rt_asf_dc_done_x86"));
    lemma_append_push(out, b, ins("mov rdx, r10"));
    let a = a.push(ins("mov rdx, r10"));
    let b = b.push(ins("mov rdx, r10"));
    lemma_append_push(out, b, ins("ret"));
    let a = a.push(ins("ret"));
    let b = b.push(ins("ret"));
    assert(a == stream_filter_dechunk_x86_64(out, t));
    assert(b == stream_filter_dechunk_x86_64(Seq::empty(), t));
}

/// `stream_filter_quoted_printable_decode_x86_64` appends a block that does not depend on the listing before it.
proof fn lemma_stream_filter_quoted_printable_decode_x86_64_appends(out: Seq<Line>, t: Target)
    ensures
        stream_filter_quoted_printable_decode_x86_64(out, t) == out + stream_filter_quoted_printable_decode_x86_64(Seq::empty(), t),
{
    let a = out;
    let b = Seq::<Line>::empty();
    lemma_append_empty(out);
    lemma_append_push(out, b, label("__rt_asf_qp_decode_x86"));
    let a = a.push(label("__rt_asf_qp_decode_x86"));
    let b = b.push(label("__rt_asf_qp_decode_x86"));
    lemma_append_push(out, b, ins("xor r9, r9"));
    let a = a.push(ins("xor r9, r9"));
    let b = b.push(ins("xor r9, r9"));
    lemma_append_push(out, b, ins("xor r10, r10"));
    let a = a.push(ins("xor r10, r10"));
    let b = b.push(ins("xor r10, r10"));
    lemma_append_push(out, b, label("__rt_asf_qp_loop_x86"));
    let a = a.push(label("__rt_asf_qp_loop_x86"));
    let b = b.push(label("__rt_asf_qp_loop_x86"));
    lemma_append_push(out, b, ins("cmp r9, rdx"));
    let a = a.push(ins("cmp r9, rdx"));
    let b = b.push(ins("cmp r9, rdx"));
    lemma_append_push(out, b, ins("jge __rt_asf_qp_done_x86"));
    let a = a.push(ins("jge __rt_asf_qp_done_x86"));
    let b = b.push(ins("jge __rt_asf_qp_done_x86"));
    lemma_append_push(out, b, ins("movzx r8d, BYTE PTR [rax + r9]"));
    let a = a.push(ins("movzx r8d, BYTE PTR [rax + r9]"));
    let b = b.push(ins("movzx r8d, BYTE PTR [rax + r9]"));
    lemma_append_push(out, b, ins("inc r9"));
    let a = a.push(ins("inc r9"));
    let b = b.push(ins("inc r9"));
    lemma_append_push(out, b, ins("cmp r8b, 61"));
    let a = a.push(ins("cmp r8b, 61"));
    let b = b.push(ins("cmp r8b, 61"));
    lemma_append_push(out, b, ins("je __rt_asf_qp_escape_x86"));
    let a = a.push(ins("je __rt_asf_qp_escape_x86"));
    let b = b.push(ins("je __rt_asf_qp_escape_x86"));
    lemma_append_push(out, b, ins("mov BYTE PTR [rax + r10], r8b"));
    let a = a.push(ins("mov BYTE PTR [rax + r10], r8b"));
    let b = b.push(ins("mov BYTE PTR [rax + r10], r8b"));
    lemma_append_push(out, b, ins("inc r10"));
    let a = a.push(ins("inc r10"));
    let b = b.push(ins("inc r10"));
    lemma_append_push(out, b, ins("jmp __rt_asf_qp_loop_x86"));
    let a = a.push(ins("jmp __rt_asf_qp_loop_x86"));
    let b = b.push(ins("jmp __rt_asf_qp_loop_x86"));
    lemma_append_push(out, b, label("__rt_asf_qp_escape_x86"));
    let a = a.push(label("__rt_asf_qp_escape_x86"));
    let b = b.push(label("__rt_asf_qp_escape_x86"));
    lemma_append_push(out, b, ins("cmp r9, rdx"));
    let a = a.push(ins("cmp r9, rdx"));
    let b = b.push(ins("cmp r9, rdx"));
    lemma_append_push(out, b, ins("jge __rt_asf_qp_done_x86"));
    let a = a.push(ins("jge __rt_asf_qp_done_x86"));
    let b = b.push(ins("jge __rt_asf_qp_done_x86"));
    lemma_append_push(out, b, ins("movzx r8d, BYTE PTR [rax + r9]"));
    let a = a.push(ins("movzx r8d, BYTE PTR [rax + r9]"));
    let b = b.push(ins("movzx r8d, BYTE PTR [rax + r9]"));
    lemma_append_push(out, b, ins("cmp r8b, 13"));
    let a = a.push(ins("cmp r8b, 13"));
    let b = b.push(ins("cmp r8b, 13"));
    lemma_append_push(out, b, ins("je __rt_asf_qp_soft_x86"));
    let a = a.push(ins("je __rt_asf_qp_soft_x86"));
    let b = b.push(ins("je __rt_asf_qp_soft_x86"));
    lemma_append_push(out, b, ins("cmp r8b, 10"));
    let a = a.push(ins("cmp r8b, 10"));
    let b = b.push(ins("cmp r8b, 10"));
    lemma_append_push(out, b, ins("je __rt_asf_qp_soft_lf_x86"));
    let a = a.push(ins("je __rt_asf_qp_soft_lf_x86"));
    let b = b.push(ins("je __rt_asf_qp_soft_lf_x86"));
    lemma_append_push(out, b, ins("inc r9"));
    let a = a.push(ins("inc r9"));
    let b = b.push(ins("inc r9"));
    lemma_append_push(out, b, ins("mov r11d, -1"));
    let a = a.push(ins("mov r11d, -1"));
    let b = b.push(ins("mov r11d, -1"));
    lemma_append_push(out, b, ins("cmp r8b, 48"));
    let a = a.push(ins("cmp r8b, 48"));
    let b = b.push(ins("cmp r8b, 48"));
    lemma_append_push(out, b, ins("jl __rt_asf_qp_hi_alpha_x86"));
    let a = a.push(ins("jl __rt_asf_qp_hi_alpha_x86"));
    let b = b.push(ins("jl __rt_asf_qp_hi_alpha_x86"));
    lemma_append_push(out, b, ins("cmp r8b, 57"));
    let a = a.push(ins("cmp r8b, 57"));
    let b = b.push(ins("cmp r8b, 57"));
    lemma_append_push(out, b, ins("jg __rt_asf_qp_hi_alpha_x86"));
    let a = a.push(ins("jg __rt_asf_qp_hi_alpha_x86"));
    let b = b.push(ins("jg __rt_asf_qp_hi_alpha_x86"));
    lemma_append_push(out, b, ins("movzx r11, r8b"));
    let a = a.push(ins("movzx r11, r8b"));
    let b = b.push(ins("movzx r11, r8b"));
    lemma_append_push(out, b, ins("sub r11, 48"));
    let a = a.push(ins("sub r11, 48"));
    let b = b.push(ins("sub r11, 48"));
    lemma_append_push(out, b, ins("jmp __rt_asf_qp_hi_done_x86"));
    let a = a.push(ins("jmp __rt_asf_qp_hi_done_x86"));
    let b = b.push(ins("jmp __rt_asf_qp_hi_done_x86"));
    lemma_append_push(out, b, label("__rt_asf_qp_hi_alpha_x86"));
    let a = a.push(label("__rt_asf_qp_hi_alpha_x86"));
    let b = b.push(label("__rt_asf_qp_hi_alpha_x86"));
    lemma_append_push(out, b, ins("or r8b, 0x20"));
    let a = a.push(ins("or r8b, 0x20"));
    let b = b.push(ins("or r8b, 0x20"));
    lemma_append_push(out, b, ins("cmp r8b, 97"));
    let a = a.push(ins("cmp r8b, 97"));
    let b = b.push(ins("cmp r8b, 97"));
    lemma_append_push(out, b, ins("jl __rt_asf_qp_hi_done_x86"));
    let a = a.push(ins("jl __rt_asf_qp_hi_done_x86"));
    let b = b.push(ins("jl __rt_asf_qp_hi_done_x86"));
    lemma_append_push(out, b, ins("cmp r8b, 102"));
    let a = a.push(ins("cmp r8b, 102"));
    let b = b.push(ins("cmp r8b, 102"));
    lemma_append_push(out, b, ins("jg __rt_asf_qp_hi_done_x86"));
    let a = a.push(ins("jg __rt_asf_qp_hi_done_x86"));
    let b = b.push(ins("jg __rt_asf_qp_hi_done_x86"));
    lemma_append_push(out, b, ins("movzx r11, r8b"));
    let a = a.push(ins("movzx r11, r8b"));
    let b = b.push(ins("movzx r11, r8b"));
    lemma_append_push(out, b, ins("sub r11, 87"));
    let a = a.push(ins("sub r11, 87"));
    let b = b.push(ins("sub r11, 87"));
    lemma_append_push(out, b, label("__rt_asf_qp_hi_done_x86"));
    let a = a.push(label("__rt_asf_qp_hi_done_x86"));
    let b = b.push(label("__rt_asf_qp_hi_done_x86"));
    lemma_append_push(out, b, ins("cmp r11d, 0"));
    let a = a.push(ins("cmp r11d, 0"));
    let b = b.push(ins("cmp r11d, 0"));
    lemma_append_push(out, b, ins("jl __rt_asf_qp_loop_x86"));
    let a = a.push(ins("jl __rt_asf_qp_loop_x86"));
    let b = b.push(ins("jl __rt_asf_qp_loop_x86"));
    lemma_append_push(out, b, ins("mov r12, r11"));
    let a = a.push(ins("mov r12, r11"));
    let b = b.push(ins("mov r12, r11"));
    lemma_append_push(out, b, ins("cmp r9, rdx"));
    let a = a.push(ins("cmp r9, rdx"));
    let b = b.push(ins("cmp r9, rdx"));
    lemma_append_push(out, b, ins("jge __rt_asf_qp_done_x86"));
    let a = a.push(ins("jge __rt_asf_qp_done_x86"));
    let b = b.push(ins("jge __rt_asf_qp_done_x86"));
    lemma_append_push(out, b, ins("movzx r8d, BYTE PTR [rax + r9]"));
    let a = a.push(ins("movzx r8d, BYTE PTR [rax + r9]"));
    let b = b.push(ins("movzx r8d, BYTE PTR [rax + r9]"));
    lemma_append_push(out, b, ins("inc r9"));
    let a = a.push(ins("inc r9"));
    let b = b.push(ins("inc r9"));
    lemma_append_push(out, b, ins("mov r11d, -1"));
    let a = a.push(ins("mov r11d, -1"));
    let b = b.push(ins("mov r11d, -1"));
    lemma_append_push(out, b, ins("cmp r8b, 48"));
    let a = a.push(ins("cmp r8b, 48"));
    let b = b.push(ins("cmp r8b, 48"));
    lemma_append_push(out, b, ins("jl __rt_asf_qp_lo_alpha_x86"));
    let a = a.push(ins("jl __rt_asf_qp_lo_alpha_x86"));
    let b = b.push(ins("jl __rt_asf_qp_lo_alpha_x86"));
    lemma_append_push(out, b, ins("cmp r8b, 57"));
    let a = a.push(ins("cmp r8b, 57"));
    let b = b.push(ins("cmp r8b, 57"));
    lemma_append_push(out, b, ins("jg __rt_asf_qp_lo_alpha_x86"));
    let a = a.push(ins("jg __rt_asf_qp_lo_alpha_x86"));
    let b = b.push(ins("jg __rt_asf_qp_lo_alpha_x86"));
    lemma_append_push(out, b, ins("movzx r11, r8b"));
    let a = a.push(ins("movzx r11, r8b"));
    let b = b.push(ins("movzx r11, r8b"));
    lemma_append_push(out, b, ins("sub r11, 48"));
    let a = a.push(ins("sub r11, 48"));
    let b = b.push(ins("sub r11, 48"));
    lemma_append_push(out, b, ins("jmp __rt_asf_qp_lo_done_x86"));
    let a = a.push(ins("jmp __rt_asf_qp_lo_done_x86"));
    let b = b.push(ins("jmp __rt_asf_qp_lo_done_x86"));
    lemma_append_push(out, b, label("__rt_asf_qp_lo_alpha_x86"));
    let a = a.push(label("__rt_asf_qp_lo_alpha_x86"));
    let b = b.push(label("__rt_asf_qp_lo_alpha_x86"));
    lemma_append_push(out, b, ins("or r8b, 0x20"));
    let a = a.push(ins("or r8b, 0x20"));
    let b = b.push(ins("or r8b, 0x20"));
    lemma_append_push(out, b, ins("cmp r8b, 97"));
    let a = a.push(ins("cmp r8b, 97"));
    let b = b.push(ins("cmp r8b, 97"));
    lemma_append_push(out, b, ins("jl __rt_asf_qp_lo_done_x86"));
    let a = a.push(ins("jl __rt_asf_qp_lo_done_x86"));
    let b = b.push(ins("jl __rt_asf_qp_lo_done_x86"));
    lemma_append_push(out, b, ins("cmp r8b, 102"));
    let a = a.push(ins("cmp r8b, 102"));
    let b = b.push(ins("cmp r8b, 102"));
    lemma_append_push(out, b, ins("jg __rt_asf_qp_lo_done_x86"));
    let a = a.push(ins("jg __rt_asf_qp_lo_done_x86"));
    let b = b.push(ins("jg __rt_asf_qp_lo_done_x86"));
    lemma_append_push(out, b, ins("movzx r11, r8b"));
    let a = a.push(ins("movzx r11, r8b"));
    let b = b.push(ins("movzx r11, r8b"));
    lemma_append_push(out, b, ins("sub r11, 87"));
    let a = a.push(ins("sub r11, 87"));
    let b = b.push(ins("sub r11, 87"));
    lemma_append_push(out, b, label("__rt_asf_qp_lo_done_x86"));
    let a = a.push(label("__rt_asf_qp_lo_done_x86"));
    let b = b.push(label("__rt_asf_qp_lo_done_x86"));
    lemma_append_push(out, b, ins("cmp r11d, 0"));
    let a = a.push(ins("cmp r11d, 0"));
    let b = b.push(ins("cmp r11d, 0"));
    lemma_append_push(out, b, ins("jl __rt_asf_qp_loop_x86"));
    let a = a.push(ins("jl __rt_asf_qp_loop_x86"));
    let b = b.push(ins("jl __rt_asf_qp_loop_x86"));
    lemma_append_push(out, b, ins("shl r12, 4"));
    let a = a.push(ins("shl r12, 4"));
    let b = b.push(ins("shl r12, 4"));
    lemma_append_push(out, b, ins("or r12, r11"));
    let a = a.push(ins("or r12, r11"));
    let b = b.push(ins("or r12, r11"));
    lemma_append_push(out, b, ins("mov BYTE PTR [rax + r10], r12b"));
    let a = a.push(ins("mov BYTE PTR [rax + r10], r12b"));
    let b = b.push(ins("mov BYTE PTR [rax + r10], r12b"));
    lemma_append_push(out, b, ins("inc r10"));
    let a = a.push(ins("inc r10"));
    let b = b.push(ins("inc r10"));
    lemma_append_push(out, b, ins("jmp __rt_asf_qp_loop_x86"));
    let a = a.push(ins("jmp __rt_asf_qp_loop_x86"));
    let b = b.push(ins("jmp __rt_asf_qp_loop_x86"));
    lemma_append_push(out, b, label("__rt_asf_qp_soft_x86"));
    let a = a.push(label("__rt_asf_qp_soft_x86"));
    let b = b.push(label("__rt_asf_qp_soft_x86"));
    lemma_append_push(out, b, ins("inc r9"));
    let a = a.push(ins("inc r9"));
    let b = b.push(ins("inc r9"));
    lemma_append_push(out, b, ins("cmp r9, rdx"));
    let a = a.push(ins("cmp r9, rdx"));
    let b = b.push(ins("cmp r9, rdx"));
    lemma_append_push(out, b, ins("jge __rt_asf_qp_loop_x86"));
    let a = a.push(ins("jge __rt_asf_qp_loop_x86"));
    let b = b.push(ins("jge __rt_asf_qp_loop_x86"));
    lemma_append_push(out, b, ins("movzx r8d, BYTE PTR [rax + r9]"));
    let a = a.push(ins("movzx r8d, BYTE PTR [rax + r9]"));
    let b = b.push(ins("movzx r8d, BYTE PTR [rax + r9]"));
    lemma_append_push(out, b, ins("cmp r8b, 10"));
    let a = a.push(ins("cmp r8b, 10"));
    let b = b.push(ins("cmp r8b, 10"));
    lemma_append_push(out, b, ins("jne __rt_asf_qp_loop_x86"));
    let a = a.push(ins("jne __rt_asf_qp_loop_x86"));
    let b = b.push(ins("jne __rt_asf_qp_loop_x86"));
    lemma_append_push(out, b, ins("inc r9"));
    let a = a.push(ins("inc r9"));
    let b = b.push(ins("inc r9"));
    lemma_append_push(out, b, ins("jmp __rt_asf_qp_loop_x86"));
    let a = a.push(ins("jmp __rt_asf_qp_loop_x86"));
    let b = b.push(ins("jmp __rt_asf_qp_loop_x86"));
    lemma_append_push(out, b, label("__rt_asf_qp_soft_lf_x86"));
    let a = a.push(label("__rt_asf_qp_soft_lf_x86"));
    let b = b.push(label("__rt_asf_qp_soft_lf_x86"));
    lemma_append_push(out, b, ins("inc r9"));
    let a = a.push(ins("inc r9"));
    let b = b.push(ins("inc r9"));
    lemma_append_push(out, b, ins("jmp __rt_asf_qp_loop_x86"));
    let a = a.push(ins("jmp __rt_asf_qp_loop_x86"));
    let b = b.push(ins("jmp __rt_asf_qp_loop_x86"));
    lemma_append_push(out, b, label("__rt_asf_qp_done_x86"));
    let a = a.push(label("__rt_asf_qp_done_x86"));
    let b = b.push(label("__rt_asf_qp_done_x86"));
    lemma_append_push(out, b, ins("mov rdx, r10"));
    let a = a.push(ins("mov rdx, r10"));
    let b = b.push(ins("mov rdx, r10"));
    lemma_append_push(out, b, ins("ret"));
    let a = a.push(ins("ret"));
    let b = b.push(ins("ret"));
    assert(a == stream_filter_quoted_printable_decode_x86_64(out, t));
    assert(b == stream_filter_quoted_printable_decode_x86_64(Seq::empty(), t));
}

/// `stream_filter_base64_encode_x86_64` appends a block that does not depend on the listing before it.
proof fn lemma_stream_filter_base64_encode_x86_64_appends(out: Seq<Line>, t: Target)
    ensures
        stream_filter_base64_encode_x86_64(out, t) == out + stream_filter_base64_encode_x86_64(Seq::empty(), t),
{
    let a = out;
    let b = Seq::<Line>::empty();
    lemma_append_empty(out);
    lemma_append_push(out, b, label("__rt_asf_b64_encode_x86"));
    let a = a.push(label("__rt_asf_b64_encode_x86"));
    let b = b.push(label("__rt_asf_b64_encode_x86"));
    lemma_append_push(out, b, ins("mov r11, 49152"));
    let a = a.push(ins("mov r11, 49152"));
    let b = b.push(ins("mov r11, 49152"));
    lemma_append_push(out, b, ins("cmp rdx, r11"));
    let a = a.push(ins("cmp rdx, r11"));
    let b = b.push(ins("cmp rdx, r11"));
    lemma_append_push(out, b, ins("cmovg rdx, r11"));
    let a = a.push(ins("cmovg rdx, r11"));
    let b = b.push(ins("cmovg rdx, r11"));
    lemma_append_push(out, b, ins("lea r11, [rip + _stream_grow_scratch]"));
    let a = a.push(ins("lea r11, [rip + _stream_grow_scratch]"));
    let b = b.push(ins("lea r11, [rip + _stream_grow_scratch]"));
    lemma_append_push(out, b, ins("lea r12, [rip + _b64_encode_tbl]"));
    let a = a.push(ins("lea r12, [rip + _b64_encode_tbl]"));
    let b = b.push(ins("lea r12, [rip + _b64_encode_tbl]"));
    lemma_append_push(out, b, ins("xor r9, r9"));
    let a = a.push(ins("xor r9, r9"));
    let b = b.push(ins("xor r9, r9"));
    lemma_append_push(out, b, ins("xor r10, r10"));
    let a = a.push(ins("xor r10, r10"));
    let b = b.push(ins("xor r10, r10"));
    lemma_append_push(out, b, label("__rt_asf_b64e_loop_x86"));
    let a = a.push(label("__rt_asf_b64e_loop_x86"));
    let b = b.push(label("__rt_asf_b64e_loop_x86"));
    lemma_append_push(out, b, ins("mov rcx, rdx"));
    let a = a.push(ins("mov rcx, rdx"));
    let b = b.push(ins("mov rcx, rdx"));
    lemma_append_push(out, b, ins("sub rcx, r9"));
    let a = a.push(ins("sub rcx, r9"));
    let b = b.push(ins("sub rcx, r9"));
    lemma_append_push(out, b, ins("cmp rcx, 3"));
    let a = a.push(ins("cmp rcx, 3"));
    let b = b.push(ins("cmp rcx, 3"));
    lemma_append_push(out, b, ins("jl __rt_asf_b64e_rem_x86"));
    let a = a.push(ins("jl __rt_asf_b64e_rem_x86"));
    let b = b.push(ins("jl __rt_asf_b64e_rem_x86"));
    lemma_append_push(out, b, ins("movzx r13d, BYTE PTR [rax + r9]"));
    let a = a.push(ins("movzx r13d, BYTE PTR [rax + r9]"));
    let b = b.push(ins("movzx r13d, BYTE PTR [rax + r9]"));
    lemma_append_push(out, b, ins("inc r9"));
    let a = a.push(ins("inc r9"));
    let b = b.push(ins("inc r9"));
    lemma_append_push(out, b, ins("movzx r14d, BYTE PTR [rax + r9]"));
    let a = a.push(ins("movzx r14d, BYTE PTR [rax + r9]"));
    let b = b.push(ins("movzx r14d, BYTE PTR [rax + r9]"));
    lemma_append_push(out, b, ins("inc r9"));
    let a = a.push(ins("inc r9"));
    let b = b.push(ins("inc r9"));
    lemma_append_push(out, b, ins("movzx r15d, BYTE PTR [rax + r9]"));
    let a = a.push(ins("movzx r15d, BYTE PTR [rax + r9]"));
    let b = b.push(ins("movzx r15d, BYTE PTR [rax + r9]"));
    lemma_append_push(out, b, ins("inc r9"));
    let a = a.push(ins("inc r9"));
    let b = b.push(ins("inc r9"));
    lemma_append_push(out, b, ins("mov rcx, r13"));
    let a = a.push(ins("mov rcx, r13"));
    let b = b.push(ins("mov rcx, r13"));
    lemma_append_push(out, b, ins("shr rcx, 2"));
    let a = a.push(ins("shr rcx, 2"));
    let b = b.push(ins("shr rcx, 2"));
    lemma_append_push(out, b, ins("movzx ecx, BYTE PTR [r12 + rcx]"));
    let a = a.push(ins("movzx ecx, BYTE PTR [r12 + rcx]"));
    let b = b.push(ins("movzx ecx, BYTE PTR [r12 + rcx]"));
    lemma_append_push(out, b, ins("mov BYTE PTR [r11 + r10], cl"));
    let a = a.push(ins("mov BYTE PTR [r11 + r10], cl"));
    let b = b.push(ins("mov BYTE PTR [r11 + r10], cl"));
    lemma_append_push(out, b, ins("inc r10"));
    let a = a.push(ins("inc r10"));
    let b = b.push(ins("inc r10"));
    lemma_append_push(out, b, ins("mov rcx, r13"));
    let a = a.push(ins("mov rcx, r13"));
    let b = b.push(ins("mov rcx, r13"));
    lemma_append_push(out, b, ins("and rcx, 3"));
    let a = a.push(ins("and rcx, 3"));
    let b = b.push(ins("and rcx, 3"));
    lemma_append_push(out, b, ins("shl rcx, 4"));
    let a = a.push(ins("shl rcx, 4"));
    let b = b.push(ins("shl rcx, 4"));
    lemma_append_push(out, b, ins("mov r8, r14"));
    let a = a.push(ins("mov r8, r14"));
    let b = b.push(ins("mov r8, r14"));
    lemma_append_push(out, b, ins("shr r8, 4"));
    let a = a.push(ins("shr r8, 4"));
    let b = b.push(ins("shr r8, 4"));
    lemma_append_push(out, b, ins("or rcx, r8"));
    let a = a.push(ins("or rcx, r8"));
    let b = b.push(ins("or rcx, r8"));
    lemma_append_push(out, b, ins("movzx ecx, BYTE PTR [r12 + rcx]"));
    let a = a.push(ins("movzx ecx, BYTE PTR [r12 + rcx]"));
    let b = b.push(ins("movzx ecx, BYTE PTR [r12 + rcx]"));
    lemma_append_push(out, b, ins("mov BYTE PTR [r11 + r10], cl"));
    let a = a.push(ins("mov BYTE PTR [r11 + r10], cl"));
    let b = b.push(ins("mov BYTE PTR [r11 + r10], cl"));
    lemma_append_push(out, b, ins("inc r10"));
    let a = a.push(ins("inc r10"));
    let b = b.push(ins("inc r10"));
    lemma_append_push(out, b, ins("mov rcx, r14"));
    let a = a.push(ins("mov rcx, r14"));
    let b = b.push(ins("mov rcx, r14"));
    lemma_append_push(out, b, ins("and rcx, 15"));
    let a = a.push(ins("and rcx, 15"));
    let b = b.push(ins("and rcx, 15"));
    lemma_append_push(out, b, ins("shl rcx, 2"));
    let a = a.push(ins("shl rcx, 2"));
    let b = b.push(ins("shl rcx, 2"));
    lemma_append_push(out, b, ins("mov r8, r15"));
    let a = a.push(ins("mov r8, r15"));
    let b = b.push(ins("mov r8, r15"));
    lemma_append_push(out, b, ins("shr r8, 6"));
    let a = a.push(ins("shr r8, 6"));
    let b = b.push(ins("shr r8, 6"));
    lemma_append_push(out, b, ins("or rcx, r8"));
    let a = a.push(ins("or rcx, r8"));
    let b = b.push(ins("or rcx, r8"));
    lemma_append_push(out, b, ins("movzx ecx, BYTE PTR [r12 + rcx]"));
    let a = a.push(ins("movzx ecx, BYTE PTR [r12 + rcx]"));
    let b = b.push(ins("movzx ecx, BYTE PTR [r12 + rcx]"));
    lemma_append_push(out, b, ins("mov BYTE PTR [r11 + r10], cl"));
    let a = a.push(ins("mov BYTE PTR [r11 + r10], cl"));
    let b = b.push(ins("mov BYTE PTR [r11 + r10], cl"));
    lemma_append_push(out, b, ins("inc r10"));
    let a = a.push(ins("inc r10"));
    let b = b.push(ins("inc r10"));
    lemma_append_push(out, b, ins("mov rcx, r15"));
    let a = a.push(ins("mov rcx, r15"));
    let b = b.push(ins("mov rcx, r15"));
    lemma_append_push(out, b, ins("and rcx, 63"));
    let a = a.push(ins("and rcx, 63"));
    let b = b.push(ins("and rcx, 63"));
    lemma_append_push(out, b, ins("movzx ecx, BYTE PTR [r12 + rcx]"));
    let a = a.push(ins("movzx ecx, BYTE PTR [r12 + rcx]"));
    let b = b.push(ins("movzx ecx, BYTE PTR [r12 + rcx]"));
    lemma_append_push(out, b, ins("mov BYTE PTR [r11 + r10], cl"));
    let a = a.push(ins("mov BYTE PTR [r11 + r10], cl"));
    let b = b.push(ins("mov BYTE PTR [r11 + r10], cl"));
    lemma_append_push(out, b, ins("inc r10"));
    let a = a.push(ins("inc r10"));
    let b = b.push(ins("inc r10"));
    lemma_append_push(out, b, ins("jmp __rt_asf_b64e_loop_x86"));
    let a = a.push(ins("jmp __rt_asf_b64e_loop_x86"));
    let b = b.push(ins("jmp __rt_asf_b64e_loop_x86"));
    lemma_append_push(out, b, label("__rt_asf_b64e_rem_x86"));
    let a = a.push(label("__rt_asf_b64e_rem_x86"));
    let b = b.push(label("__rt_asf_b64e_rem_x86"));
    lemma_append_push(out, b, ins("test rcx, rcx"));
    let a = a.push(ins("test rcx, rcx"));
    let b = b.push(ins("test rcx, rcx"));
    lemma_append_push(out, b, ins("jz __rt_asf_b64e_copyback_x86"));
    let a = a.push(ins("jz __rt_asf_b64e_copyback_x86"));
    let b = b.push(ins("jz __rt_asf_b64e_copyback_x86"));
    lemma_append_push(out, b, ins("cmp rcx, 1"));
    let a = a.push(ins("cmp rcx, 1"));
    let b = b.push(ins("cmp rcx, 1"));
    lemma_append_push(out, b, ins("je __rt_asf_b64e_rem1_x86"));
    let a = a.push(ins("je __rt_asf_b64e_rem1_x86"));
    let b = b.push(ins("je __rt_asf_b64e_rem1_x86"));
    lemma_append_push(out, b, ins("movzx r13d, BYTE PTR [rax + r9]"));
    let a = a.push(ins("movzx r13d, BYTE PTR [rax + r9]"));
    let b = b.push(ins("movzx r13d, BYTE PTR [rax + r9]"));
    lemma_append_push(out, b, ins("inc r9"));
    let a = a.push(ins("inc r9"));
    let b = b.push(ins("inc r9"));
    lemma_append_push(out, b, ins("movzx r14d, BYTE PTR [rax + r9]"));
    let a = a.push(ins("movzx r14d, BYTE PTR [rax + r9]"));
    let b = b.push(ins("movzx r14d, BYTE PTR [rax + r9]"));
    lemma_append_push(out, b, ins("inc r9"));
    let a = a.push(ins("inc r9"));
    let b = b.push(ins("inc r9"));
    lemma_append_push(out, b, ins("mov rcx, r13"));
    let a = a.push(ins("mov rcx, r13"));
    let b = b.push(ins("mov rcx, r13"));
    lemma_append_push(out, b, ins("shr rcx, 2"));
    let a = a.push(ins("shr rcx, 2"));
    let b = b.push(ins("shr rcx, 2"));
    lemma_append_push(out, b, ins("movzx ecx, BYTE PTR [r12 + rcx]"));
    let a = a.push(ins("movzx ecx, BYTE PTR [r12 + rcx]"));
    let b = b.push(ins("movzx ecx, BYTE PTR [r12 + rcx]"));
    lemma_append_push(out, b, ins("mov BYTE PTR [r11 + r10], cl"));
    let a = a.push(ins("mov BYTE PTR [r11 + r10], cl"));
    let b = b.push(ins("mov BYTE PTR [r11 + r10], cl"));
    lemma_append_push(out, b, ins("inc r10"));
    let a = a.push(ins("inc r10"));
    let b = b.push(ins("inc r10"));
    lemma_append_push(out, b, ins("mov rcx, r13"));
    let a = a.push(ins("mov rcx, r13"));
    let b = b.push(ins("mov rcx, r13"));
    lemma_append_push(out, b, ins("and rcx, 3"));
    let a = a.push(ins("and rcx, 3"));
    let b = b.push(ins("and rcx, 3"));
    lemma_append_push(out, b, ins("shl rcx, 4"));
    let a = a.push(ins("shl rcx, 4"));
    let b = b.push(ins("shl rcx, 4"));
    lemma_append_push(out, b, ins("mov r8, r14"));
    let a = a.push(ins("mov r8, r14"));
    let b = b.push(ins("mov r8, r14"));
    lemma_append_push(out, b, ins("shr r8, 4"));
    let a = a.push(ins("shr r8, 4"));
    let b = b.push(ins("shr r8, 4"));
    lemma_append_push(out, b, ins("or rcx, r8"));
    let a = a.push(ins("or rcx, r8"));
    let b = b.push(ins("or rcx, r8"));
    lemma_append_push(out, b, ins("movzx ecx, BYTE PTR [r12 + rcx]"));
    let a = a.push(ins("movzx ecx, BYTE PTR [r12 + rcx]"));
    let b = b.push(ins("movzx ecx, BYTE PTR [r12 + rcx]"));
    lemma_append_push(out, b, ins("mov BYTE PTR [r11 + r10], cl"));
    let a = a.push(ins("mov BYTE PTR [r11 + r10], cl"));
    let b = b.push(ins("mov BYTE PTR [r11 + r10], cl"));
    lemma_append_push(out, b, ins("inc r10"));
    let a = a.push(ins("inc r10"));
    let b = b.push(ins("inc r10"));
    lemma_append_push(out, b, ins("mov rcx, r14"));
    let a = a.push(ins("mov rcx, r14"));
    let b = b.push(ins("mov rcx, r14"));
    lemma_append_push(out, b, ins("and rcx, 15"));
    let a = a.push(ins("and rcx, 15"));
    let b = b.push(ins("and rcx, 15"));
    lemma_append_push(out, b, ins("shl rcx, 2"));
    let a = a.push(ins("shl rcx, 2"));
    let b = b.push(ins("shl rcx, 2"));
    lemma_append_push(out, b, ins("movzx ecx, BYTE PTR [r12 + rcx]"));
    let a = a.push(ins("movzx ecx, BYTE PTR [r12 + rcx]"));
    let b = b.push(ins("movzx ecx, BYTE PTR [r12 + rcx]"));
    lemma_append_push(out, b, ins("mov BYTE PTR [r11 + r10], cl"));
    let a = a.push(ins("mov BYTE PTR [r11 + r10], cl"));
    let b = b.push(ins("mov BYTE PTR [r11 + r10], cl"));
    lemma_append_push(out, b, ins("inc r10"));
    let a = a.push(ins("inc r10"));
    let b = b.push(ins("inc r10"));
    lemma_append_push(out, b, ins("mov BYTE PTR [r11 + r10], 61"));
    let a = a.push(ins("mov BYTE PTR [r11 + r10], 61"));
    let b = b.push(ins("mov BYTE PTR [r11 + r10], 61"));
    lemma_append_push(out, b, ins("inc r10"));
    let a = a.push(ins("inc r10"));
    let b = b.push(ins("inc r10"));
    lemma_append_push(out, b, ins("jmp __rt_asf_b64e_copyback_x86"));
    let a = a.push(ins("jmp __rt_asf_b64e_copyback_x86"));
    let b = b.push(ins("jmp __rt_asf_b64e_copyback_x86"));
    lemma_append_push(out, b, label("__rt_asf_b64e_rem1_x86"));
    let a = a.push(label("__rt_asf_b64e_rem1_x86"));
    let b = b.push(label("__rt_asf_b64e_rem1_x86"));
    lemma_append_push(out, b, ins("movzx r13d, BYTE PTR [rax + r9]"));
    let a = a.push(ins("movzx r13d, BYTE PTR [rax + r9]"));
    let b = b.push(ins("movzx r13d, BYTE PTR [rax + r9]"));
    lemma_append_push(out, b, ins("inc r9"));
    let a = a.push(ins("inc r9"));
    let b = b.push(ins("inc r9"));
    lemma_append_push(out, b, ins("mov rcx, r13"));
    let a = a.push(ins("mov rcx, r13"));
    let b = b.push(ins("mov rcx, r13"));
    lemma_append_push(out, b, ins("shr rcx, 2"));
    let a = a.push(ins("shr rcx, 2"));
    let b = b.push(ins("shr rcx, 2"));
    lemma_append_push(out, b, ins("movzx ecx, BYTE PTR [r12 + rcx]"));
    let a = a.push(ins("movzx ecx, BYTE PTR [r12 + rcx]"));
    let b = b.push(ins("movzx ecx, BYTE PTR [r12 + rcx]"));
    lemma_append_push(out, b, ins("mov BYTE PTR [r11 + r10], cl"));
    let a = a.push(ins("mov BYTE PTR [r11 + r10], cl"));
    let b = b.push(ins("mov BYTE PTR [r11 + r10], cl"));
    lemma_append_push(out, b, ins("inc r10"));
    let a = a.push(ins("inc r10"));
    let b = b.push(ins("inc r10"));
    lemma_append_push(out, b, ins("mov rcx, r13"));
    let a = a.push(ins("mov rcx, r13"));
    let b = b.push(ins("mov rcx, r13"));
    lemma_append_push(out, b, ins("and rcx, 3"));
    let a = a.push(ins("and rcx, 3"));
    let b = b.push(ins("and rcx, 3"));
    lemma_append_push(out, b, ins("shl rcx, 4"));
    let a = a.push(ins("shl rcx, 4"));
    let b = b.push(ins("shl rcx, 4"));
    lemma_append_push(out, b, ins("movzx ecx, BYTE PTR [r12 + rcx]"));
    let a = a.push(ins("movzx ecx, BYTE PTR [r12 + rcx]"));
    let b = b.push(ins("movzx ecx, BYTE PTR [r12 + rcx]"));
    lemma_append_push(out, b, ins("mov BYTE PTR [r11 + r10], cl"));
    let a = a.push(ins("mov BYTE PTR [r11 + r10], cl"));
    let b = b.push(ins("mov BYTE PTR [r11 + r10], cl"));
    lemma_append_push(out, b, ins("inc r10"));
    let a = a.push(ins("inc r10"));
    let b = b.push(ins("inc r10"));
    lemma_append_push(out, b, ins("mov BYTE PTR [r11 + r10], 61"));
    let a = a.push(ins("mov BYTE PTR [r11 + r10], 61"));
    let b = b.push(ins("mov BYTE PTR [r11 + r10], 61"));
    lemma_append_push(out, b, ins("inc r10"));
    let a = a.push(ins("inc r10"));
    let b = b.push(ins("inc r10"));
    lemma_append_push(out, b, ins("mov BYTE PTR [r11 + r10], 61"));
    let a = a.push(ins("mov BYTE PTR [r11 + r10], 61"));
    let b = b.push(ins("mov BYTE PTR [r11 + r10], 61"));
    lemma_append_push(out, b, ins("inc r10"));
    let a = a.push(ins("inc r10"));
    let b = b.push(ins("inc r10"));
    lemma_append_push(out, b, label("__rt_asf_b64e_copyback_x86"));
    let a = a.push(label("__rt_asf_b64e_copyback_x86"));
    let b = b.push(label("__rt_asf_b64e_copyback_x86"));
    lemma_append_push(out, b, ins("xor r9, r9"));
    let a = a.push(ins("xor r9, r9"));
    let b = b.push(ins("xor r9, r9"));
    lemma_append_push(out, b, label("__rt_asf_b64e_cb_loop_x86"));
    let a = a.push(label("__rt_asf_b64e_cb_loop_x86"));
    let b = b.push(label("__rt_asf_b64e_cb_loop_x86"));
    lemma_append_push(out, b, ins("cmp r9, r10"));
    let a = a.push(ins("cmp r9, r10"));
    let b = b.push(ins("cmp r9, r10"));
    lemma_append_push(out, b, ins("jge __rt_asf_b64e_done_x86"));
    let a = a.push(ins("jge __rt_asf_b64e_done_x86"));
    let b = b.push(ins("jge __rt_asf_b64e_done_x86"));
    lemma_append_push(out, b, ins("movzx ecx, BYTE PTR [r11 + r9]"));
    let a = a.push(ins("movzx ecx, BYTE PTR [r11 + r9]"));
    let b = b.push(ins("movzx ecx, BYTE PTR [r11 + r9]"));
    lemma_append_push(out, b, ins("mov BYTE PTR [rax + r9], cl"));
    let a = a.push(ins("mov BYTE PTR [rax + r9], cl"));
    let b = b.push(ins("mov BYTE PTR [rax + r9], cl"));
    lemma_append_push(out, b, ins("inc r9"));
    let a = a.push(ins("inc r9"));
    let b = b.push(ins("inc r9"));
    lemma_append_push(out, b, ins("jmp __rt_asf_b64e_cb_loop_x86"));
    let a = a.push(ins("jmp __rt_asf_b64e_cb_loop_x86"));
    let b = b.push(ins("jmp __rt_asf_b64e_cb_loop_x86"));
    lemma_append_push(out, b, label("__rt_asf_b64e_done_x86"));
    let a = a.push(label("__rt_asf_b64e_done_x86"));
    let b = b.push(label("__rt_asf_b64e_done_x86"));
    lemma_append_push(out, b, ins("mov rdx, r10"));
    let a = a.push(ins("mov rdx, r10"));
    let b = b.push(ins("mov rdx, r10"));
    lemma_append_push(out, b, ins("ret"));
    let a = a.push(ins("ret"));
    let b = b.push(ins("ret"));
    assert(a == stream_filter_base64_encode_x86_64(out, t));
    assert(b == stream_filter_base64_encode_x86_64(Seq::empty(), t));
}

/// `stream_filter_quoted_printable_encode_x86_64` appends a block that does not depend on the listing before it.
proof fn lemma_stream_filter_quoted_printable_encode_x86_64_appends(out: Seq<Line>, t: Target)
    ensures
        stream_filter_quoted_printable_encode_x86_64(out, t) == out + stream_filter_quoted_printable_encode_x86_64(Seq::empty(), t),
{
    let a = out;
    let b = Seq::<Line>::empty();
    lemma_append_empty(out);
    lemma_append_push(out, b, label("__rt_asf_qp_encode_x86"));
    let a = a.push(label("__rt_asf_qp_encode_x86"));
    let b = b.push(label("__rt_asf_qp_encode_x86"));
    lemma_append_push(out, b, ins("mov r11, 21845"));
    let a = a.push(ins("mov r11, 21845"));
    let b = b.push(ins("mov r11, 21845"));
    lemma_append_push(out, b, ins("cmp rdx, r11"));
    let a = a.push(ins("cmp rdx, r11"));
    let b = b.push(ins("cmp rdx, r11"));
    lemma_append_push(out, b, ins("cmovg rdx, r11"));
    let a = a.push(ins("cmovg rdx, r11"));
    let b = b.push(ins("cmovg rdx, r11"));
    lemma_append_push(out, b, ins("lea r11, [rip + _stream_grow_scratch]"));
    let a = a.push(ins("lea r11, [rip + _stream_grow_scratch]"));
    let b = b.push(ins("lea r11, [rip + _stream_grow_scratch]"));
    lemma_append_push(out, b, ins("xor r9, r9"));
    let a = a.push(ins("xor r9, r9"));
    let b = b.push(ins("xor r9, r9"));
    lemma_append_push(out, b, ins("xor r10, r10"));
    let a = a.push(ins("xor r10, r10"));
    let b = b.push(ins("xor r10, r10"));
    lemma_append_push(out, b, label("__rt_asf_qpe_loop_x86"));
    let a = a.push(label("__rt_asf_qpe_loop_x86"));
    let b = b.push(label("__rt_asf_qpe_loop_x86"));
    lemma_append_push(out, b, ins("cmp r9, rdx"));
    let a = a.push(ins("cmp r9, rdx"));
    let b = b.push(ins("cmp r9, rdx"));
    lemma_append_push(out, b, ins("jge __rt_asf_qpe_copyback_x86"));
    let a = a.push(ins("jge __rt_asf_qpe_copyback_x86"));
    let b = b.push(ins("jge __rt_asf_qpe_copyback_x86"));
    lemma_append_push(out, b, ins("movzx r8d, BYTE PTR [rax + r9]"));
    let a = a.push(ins("movzx r8d, BYTE PTR [rax + r9]"));
    let b = b.push(ins("movzx r8d, BYTE PTR [rax + r9]"));
    lemma_append_push(out, b, ins("inc r9"));
    let a = a.push(ins("inc r9"));
    let b = b.push(ins("inc r9"));
    lemma_append_push(out, b, ins("cmp r8b, 33"));
    let a = a.push(ins("cmp r8b, 33"));
    let b = b.push(ins("cmp r8b, 33"));
    lemma_append_push(out, b, ins("jl __rt_asf_qpe_escape_x86"));
    let a = a.push(ins("jl __rt_asf_qpe_escape_x86"));
    let b = b.push(ins("jl __rt_asf_qpe_escape_x86"));
    lemma_append_push(out, b, ins("cmp r8b, 126"));
    let a = a.push(ins("cmp r8b, 126"));
    let b = b.push(ins("cmp r8b, 126"));
    lemma_append_push(out, b, ins("jg __rt_asf_qpe_escape_x86"));
    let a = a.push(ins("jg __rt_asf_qpe_escape_x86"));
    let b = b.push(ins("jg __rt_asf_qpe_escape_x86"));
    lemma_append_push(out, b, ins("cmp r8b, 61"));
    let a = a.push(ins("cmp r8b, 61"));
    let b = b.push(ins("cmp r8b, 61"));
    lemma_append_push(out, b, ins("je __rt_asf_qpe_escape_x86"));
    let a = a.push(ins("je __rt_asf_qpe_escape_x86"));
    let b = b.push(ins("je __rt_asf_qpe_escape_x86"));
    lemma_append_push(out, b, ins("mov BYTE PTR [r11 + r10], r8b"));
    let a = a.push(ins("mov BYTE PTR [r11 + r10], r8b"));
    let b = b.push(ins("mov BYTE PTR [r11 + r10], r8b"));
    lemma_append_push(out, b, ins("inc r10"));
    let a = a.push(ins("inc r10"));
    let b = b.push(ins("inc r10"));
    lemma_append_push(out, b, ins("jmp __rt_asf_qpe_loop_x86"));
    let a = a.push(ins("jmp __rt_asf_qpe_loop_x86"));
    let b = b.push(ins("jmp __rt_asf_qpe_loop_x86"));
    lemma_append_push(out, b, label("__rt_asf_qpe_escape_x86"));
    let a = a.push(label("__rt_asf_qpe_escape_x86"));
    let b = b.push(label("__rt_asf_qpe_escape_x86"));
    lemma_append_push(out, b, ins("mov BYTE PTR [r11 + r10], 61"));
    let a = a.push(ins("mov BYTE PTR [r11 + r10], 61"));
    let b = b.push(ins("mov BYTE PTR [r11 + r10], 61"));
    lemma_append_push(out, b, ins("inc r10"));
    let a = a.push(ins("inc r10"));
    let b = b.push(ins("inc r10"));
    lemma_append_push(out, b, ins("mov rcx, r8"));
    let a = a.push(ins("mov rcx, r8"));
    let b = b.push(ins("mov rcx, r8"));
    lemma_append_push(out, b, ins("shr rcx, 4"));
    let a = a.push(ins("shr rcx, 4"));
    let b = b.push(ins("shr rcx, 4"));
    lemma_append_push(out, b, ins("and rcx, 15"));
    let a = a.push(ins("and rcx, 15"));
    let b = b.push(ins("and rcx, 15"));
    lemma_append_push(out, b, ins("cmp rcx, 10"));
    let a = a.push(ins("cmp rcx, 10"));
    let b = b.push(ins("cmp rcx, 10"));
    lemma_append_push(out, b, ins("jl __rt_asf_qpe_hi_dig_x86"));
    let a = a.push(ins("jl __rt_asf_qpe_hi_dig_x86"));
    let b = b.push(ins("jl __rt_asf_qpe_hi_dig_x86"));
    lemma_append_push(out, b, ins("add rcx, 55"));
    let a = a.push(ins("add rcx, 55"));
    let b = b.push(ins("add rcx, 55"));
    lemma_append_push(out, b, ins("jmp __rt_asf_qpe_hi_write_x86"));
    let a = a.push(ins("jmp __rt_asf_qpe_hi_write_x86"));
    let b = b.push(ins("jmp __rt_asf_qpe_hi_write_x86"));
    lemma_append_push(out, b, label("__rt_asf_qpe_hi_dig_x86"));
    let a = a.push(label("__rt_asf_qpe_hi_dig_x86"));
    let b = b.push(label("__rt_asf_qpe_hi_dig_x86"));
    lemma_append_push(out, b, ins("add rcx, 48"));
    let a = a.push(ins("add rcx, 48"));
    let b = b.push(ins("add rcx, 48"));
    lemma_append_push(out, b, label("__rt_asf_qpe_hi_write_x86"));
    let a = a.push(label("__rt_asf_qpe_hi_write_x86"));
    let b = b.push(label("__rt_asf_qpe_hi_write_x86"));
    lemma_append_push(out, b, ins("mov BYTE PTR [r11 + r10], cl"));
    let a = a.push(ins("mov BYTE PTR [r11 + r10], cl"));
    let b = b.push(ins("mov BYTE PTR [r11 + r10], cl"));
    lemma_append_push(out, b, ins("inc r10"));
    let a = a.push(ins("inc r10"));
    let b = b.push(ins("inc r10"));
    lemma_append_push(out, b, ins("mov rcx, r8"));
    let a = a.push(ins("mov rcx, r8"));
    let b = b.push(ins("mov rcx, r8"));
    lemma_append_push(out, b, ins("and rcx, 15"));
    let a = a.push(ins("and rcx, 15"));
    let b = b.push(ins("and rcx, 15"));
    lemma_append_push(out, b, ins("cmp rcx, 10"));
    let a = a.push(ins("cmp rcx, 10"));
    let b = b.push(ins("cmp rcx, 10"));
    lemma_append_push(out, b, ins("jl __rt_asf_qpe_lo_dig_x86"));
    let a = a.push(ins("jl __rt_asf_qpe_lo_dig_x86"));
    let b = b.push(ins("jl __rt_asf_qpe_lo_dig_x86"));
    lemma_append_push(out, b, ins("add rcx, 55"));
    let a = a.push(ins("add rcx, 55"));
    let b = b.push(ins("add rcx, 55"));
    lemma_append_push(out, b, ins("jmp __rt_asf_qpe_lo_write_x86"));
    let a = a.push(ins("jmp __rt_asf_qpe_lo_write_x86"));
    let b = b.push(ins("jmp __rt_asf_qpe_lo_write_x86"));
    lemma_append_push(out, b, label("__rt_asf_qpe_lo_dig_x86"));
    let a = a.push(label("__rt_asf_qpe_lo_dig_x86"));
    let b = b.push(label("__rt_asf_qpe_lo_dig_x86"));
    lemma_append_push(out, b, ins("add rcx, 48"));
    let a = a.push(ins("add rcx, 48"));
    let b = b.push(ins("add rcx, 48"));
    lemma_append_push(out, b, label("__rt_asf_qpe_lo_write_x86"));
    let a = a.push(label("__rt_asf_qpe_lo_write_x86"));
    let b = b.push(label("__rt_asf_qpe_lo_write_x86"));
    lemma_append_push(out, b, ins("mov BYTE PTR [r11 + r10], cl"));
    let a = a.push(ins("mov BYTE PTR [r11 + r10], cl"));
    let b = b.push(ins("mov BYTE PTR [r11 + r10], cl"));
    lemma_append_push(out, b, ins("inc r10"));
    let a = a.push(ins("inc r10"));
    let b = b.push(ins("inc r10"));
    lemma_append_push(out, b, ins("jmp __rt_asf_qpe_loop_x86"));
    let a = a.push(ins("jmp __rt_asf_qpe_loop_x86"));
    let b = b.push(ins("jmp __rt_asf_qpe_loop_x86"));
    lemma_append_push(out, b, label("__rt_asf_qpe_copyback_x86"));
    let a = a.push(label("__rt_asf_qpe_copyback_x86"));
    let b = b.push(label("__rt_asf_qpe_copyback_x86"));
    lemma_append_push(out, b, ins("xor r9, r9"));
    let a = a.push(ins("xor r9, r9"));
    let b = b.push(ins("xor r9, r9"));
    lemma_append_push(out, b, label("__rt_asf_qpe_cb_loop_x86"));
    let a = a.push(label("__rt_asf_qpe_cb_loop_x86"));
    let b = b.push(label("__rt_asf_qpe_cb_loop_x86"));
    lemma_append_push(out, b, ins("cmp r9, r10"));
    let a = a.push(ins("cmp r9, r10"));
    let b = b.push(ins("cmp r9, r10"));
    lemma_append_push(out, b, ins("jge __rt_asf_qpe_done_x86"));
    let a = a.push(ins("jge __rt_asf_qpe_done_x86"));
    let b = b.push(ins("jge __rt_asf_qpe_done_x86"));
    lemma_append_push(out, b, ins("movzx ecx, BYTE PTR [r11 + r9]"));
    let a = a.push(ins("movzx ecx, BYTE PTR [r11 + r9]"));
    let b = b.push(ins("movzx ecx, BYTE PTR [r11 + r9]"));
    lemma_append_push(out, b, ins("mov BYTE PTR [rax + r9], cl"));
    let a = a.push(ins("mov BYTE PTR [rax + r9], cl"));
    let b = b.push(ins("mov BYTE PTR [rax + r9], cl"));
    lemma_append_push(out, b, ins("inc r9"));
    let a = a.push(ins("inc r9"));
    let b = b.push(ins("inc r9"));
    lemma_append_push(out, b, ins("jmp __rt_asf_qpe_cb_loop_x86"));
    let a = a.push(ins("jmp __rt_asf_qpe_cb_loop_x86"));
    let b = b.push(ins("jmp __rt_asf_qpe_cb_loop_x86"));
    lemma_append_push(out, b, label("__rt_asf_qpe_done_x86"));
    let a = a.push(label("__rt_asf_qpe_done_x86"));
    let b = b.push(label("__rt_asf_qpe_done_x86"));
    lemma_append_push(out, b, ins("mov rdx, r10"));
    let a = a.push(ins("mov rdx, r10"));
    let b = b.push(ins("mov rdx, r10"));
    lemma_append_push(out, b, ins("ret"));
    let a = a.push(ins("ret"));
    let b = b.push(ins("ret"));
    assert(a == stream_filter_quoted_printable_encode_x86_64(out, t));
    assert(b == stream_filter_quoted_printable_encode_x86_64(Seq::empty(), t));
}

/// The emitter of this module only appends: the block it adds depends on the target
/// alone, and the listing it was handed stays in front of that block unchanged.
pub proof fn lemma_stream_filter_emitters_append(out: Seq<Line>, t: Target)
    ensures
        apply_stream_filter(out, t) == out + apply_stream_filter(Seq::empty(), t),
{
    lemma_apply_stream_filter_appends(out, t);
}

} // verus!
