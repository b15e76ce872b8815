//! Target calling-convention helpers shared by the runtime emitters: symbol
//! addressing, loads and stores of data symbols, calls and immediate loads.

use vstd::prelude::*;
use crate::codegen::platform::{Arch, Platform, Target};
use crate::codegen::text::{decimal, append_decimal};
use crate::codegen::emit::{Emitter, Line, adrp_line, add_lo12_line};

verus! {

/// The integer result register of an architecture.
pub open spec fn spec_int_result_reg(arch: Arch) -> Seq<char> {
    match arch {
        Arch::AArch64 => "x0"@,
        Arch::X86_64 => "rax"@,
    }
}

/// Returns the integer result register of the emitter's architecture.
pub fn int_result_reg(emitter: &Emitter) -> (r: &'static str)
    ensures
        r@ == spec_int_result_reg(emitter.target.arch),
{
    match emitter.target.arch {
        Arch::AArch64 => "x0",
        Arch::X86_64 => "rax",
    }
}

/// The (pointer, length) registers of a string result: `x1`/`x2` on AArch64,
/// `rax`/`rdx` on x86_64.
pub open spec fn spec_string_result_regs(arch: Arch) -> (Seq<char>, Seq<char>) {
    match arch {
        Arch::AArch64 => ("x1"@, "x2"@),
        Arch::X86_64 => ("rax"@, "rdx"@),
    }
}

/// Returns the (pointer, length) string result registers of the emitter's architecture.
pub fn string_result_regs(emitter: &Emitter) -> (r: (&'static str, &'static str))
    ensures
        r.0@ == spec_string_result_regs(emitter.target.arch).0,
        r.1@ == spec_string_result_regs(emitter.target.arch).1,
{
    match emitter.target.arch {
        Arch::AArch64 => ("x1", "x2"),
        Arch::X86_64 => ("rax", "rdx"),
    }
}

/// Lines that put the address of `sym` into `reg`.
pub open spec fn symbol_address(t: Target, reg: Seq<char>, sym: Seq<char>) -> Seq<Line> {
    match t.arch {
        Arch::AArch64 => seq![adrp_line(t.platform, reg, sym), add_lo12_line(t.platform, reg, reg, sym)],
        Arch::X86_64 => seq![Line::Instruction("lea "@ + reg + ", [rip + "@ + sym + "]"@)],
    }
}

/// The x86_64 RIP-relative memory operand of `sym` displaced by `offset`.
pub open spec fn rip_operand(sym: Seq<char>, offset: int) -> Seq<char> {
    if offset == 0 {
        "QWORD PTR [rip + "@ + sym + "]"@
    } else {
        "QWORD PTR [rip + "@ + sym + " + "@ + decimal(offset) + "]"@
    }
}

/// Lines that load the 8-byte word at `sym + offset` into `reg`.
pub open spec fn load_symbol_to_reg(t: Target, reg: Seq<char>, sym: Seq<char>, offset: int) -> Seq<Line> {
    match t.arch {
        Arch::AArch64 => symbol_address(t, reg, sym).push(
            Line::Instruction("ldr "@ + reg + ", ["@ + reg + ", #"@ + decimal(offset) + "]"@),
        ),
        Arch::X86_64 => seq![Line::Instruction("mov "@ + reg + ", "@ + rip_operand(sym, offset))],
    }
}

/// Lines that store `reg` into the 8-byte word at `sym + offset`; AArch64 addresses through `x16`.
pub open spec fn store_reg_to_symbol(t: Target, reg: Seq<char>, sym: Seq<char>, offset: int) -> Seq<Line> {
    match t.arch {
        Arch::AArch64 => symbol_address(t, "x16"@, sym).push(
            Line::Instruction("str "@ + reg + ", [x16, #"@ + decimal(offset) + "]"@),
        ),
        Arch::X86_64 => seq![Line::Instruction("mov "@ + rip_operand(sym, offset) + ", "@ + reg)],
    }
}

/// The line that calls the code label `label`.
pub open spec fn call_label(t: Target, label: Seq<char>) -> Line {
    match t.arch {
        Arch::AArch64 => Line::Instruction("bl "@ + label),
        Arch::X86_64 => Line::Instruction("call "@ + label),
    }
}

/// The line that jumps to the code label `label`.
pub open spec fn jump(t: Target, label: Seq<char>) -> Line {
    match t.arch {
        Arch::AArch64 => Line::Instruction("b "@ + label),
        Arch::X86_64 => Line::Instruction("jmp "@ + label),
    }
}

/// The 16-bit chunk `k` (0 = least significant) of a 64-bit pattern.
pub open spec fn chunk16(bits: u64, k: u64) -> u64 {
    (bits >> (16 * k) as u64) & 0xffff
}

/// Loading a wide immediate loses nothing: the low chunk that `movz` places and the chunks
/// that `movk` places at shifts 16, 32 and 48 (a chunk that `movk_chunks` skips is zero)
/// reassemble the 64-bit pattern.
pub proof fn lemma_immediate_chunks_reassemble(bits: u64)
    ensures
        bits == chunk16(bits, 0) | (chunk16(bits, 1) << 16u64) | (chunk16(bits, 2) << 32u64) | (
        chunk16(bits, 3) << 48u64),
        forall|k: u64| k < 4 ==> #[trigger] chunk16(bits, k) <= 0xffff,
{
    assert(bits == ((bits >> 0u64) & 0xffff) | (((bits >> 16u64) & 0xffff) << 16u64) | (((bits
        >> 32u64) & 0xffff) << 32u64) | (((bits >> 48u64) & 0xffff) << 48u64)) by (bit_vector);
    assert forall|k: u64| k < 4 implies #[trigger] chunk16(bits, k) <= 0xffff by {
        let sh = (16 * k) as u64;
        assert((bits >> sh) & 0xffff <= 0xffff) by (bit_vector);
    }
}

/// `movk` lines that fill the non-zero chunks `k..4` of `bits` into `reg`.
pub open spec fn movk_chunks(reg: Seq<char>, bits: u64, k: nat) -> Seq<Line>
    decreases 4 - k,
{
    if k >= 4 {
        Seq::empty()
    } else {
        let rest = movk_chunks(reg, bits, k + 1);
        if chunk16(bits, k as u64) == 0 {
            rest
        } else {
            seq![Line::Instruction("movk "@ + reg + ", #"@ + decimal(chunk16(bits, k as u64) as int)
                + ", lsl #"@ + decimal(16 * k as int))] + rest
        }
    }
}

/// Lines that load the 64-bit immediate `value` into `reg`: one `mov` when the value fits a
/// 16-bit move on AArch64 (or always on x86_64), else `movz` of the low chunk then `movk`
/// of each non-zero higher chunk of its two's-complement pattern.
pub open spec fn load_int_immediate(t: Target, reg: Seq<char>, value: i64) -> Seq<Line> {
    match t.arch {
        Arch::AArch64 => if -65536 < value < 65536 {
            seq![Line::Instruction("mov "@ + reg + ", #"@ + decimal(value as int))]
        } else {
            seq![Line::Instruction("movz "@ + reg + ", #"@ + decimal(chunk16(value as u64, 0) as int))]
                + movk_chunks(reg, value as u64, 1)
        },
        Arch::X86_64 => seq![Line::Instruction("mov "@ + reg + ", "@ + decimal(value as int))],
    }
}

/// Appends the lines that put the address of `sym` into `reg`.
pub fn emit_symbol_address(emitter: &mut Emitter, reg: &str, sym: &str)
    ensures
        final(emitter).target == old(emitter).target,
        final(emitter)@ == old(emitter)@ + symbol_address(old(emitter).target, reg@, sym@),
{
    match emitter.target.arch {
        Arch::AArch64 => {
            emitter.adrp(reg, sym);
            emitter.add_lo12(reg, reg, sym);
        },
        Arch::X86_64 => {
            let mut s = String::from_str("lea ");
            s.append(reg);
            s.append(", [rip + ");
            s.append(sym);
            s.append("]");
            emitter.instruction(s.as_str());
        },
    }
    assert(final(emitter)@ =~= old(emitter)@ + symbol_address(old(emitter).target, reg@, sym@));
}

/// Builds the x86_64 RIP-relative operand of `sym + offset`.
fn rip_operand_text(sym: &str, offset: i64) -> (s: String)
    ensures
        s@ == rip_operand(sym@, offset as int),
{
    let mut s = String::from_str("QWORD PTR [rip + ");
    s.append(sym);
    if offset != 0 {
        s.append(" + ");
        append_decimal(&mut s, offset);
    }
    s.append("]");
    s
}

/// Appends the lines that load the word at `sym + offset` into `reg`.
pub fn emit_load_symbol_to_reg(emitter: &mut Emitter, reg: &str, sym: &str, offset: i64)
    ensures
        final(emitter).target == old(emitter).target,
        final(emitter)@ == old(emitter)@ + load_symbol_to_reg(old(emitter).target, reg@, sym@, offset as int),
{
    match emitter.target.arch {
        Arch::AArch64 => {
            emit_symbol_address(emitter, reg, sym);
            let mut s = String::from_str("ldr ");
            s.append(reg);
            s.append(", [");
            s.append(reg);
            s.append(", #");
            append_decimal(&mut s, offset);
            s.append("]");
            emitter.instruction(s.as_str());
        },
        Arch::X86_64 => {
            let mut s = String::from_str("mov ");
            s.append(reg);
            s.append(", ");
            let operand = rip_operand_text(sym, offset);
            s.append(operand.as_str());
            emitter.instruction(s.as_str());
        },
    }
    assert(final(emitter)@ =~= old(emitter)@ + load_symbol_to_reg(old(emitter).target, reg@, sym@, offset as int));
}

/// Appends the lines that store `reg` into the word at `sym + offset`.
pub fn emit_store_reg_to_symbol(emitter: &mut Emitter, reg: &str, sym: &str, offset: i64)
    ensures
        final(emitter).target == old(emitter).target,
        final(emitter)@ == old(emitter)@ + store_reg_to_symbol(old(emitter).target, reg@, sym@, offset as int),
{
    match emitter.target.arch {
        Arch::AArch64 => {
            emit_symbol_address(emitter, "x16", sym);
            let mut s = String::from_str("str ");
            s.append(reg);
            s.append(", [x16, #");
            append_decimal(&mut s, offset);
            s.append("]");
            emitter.instruction(s.as_str());
        },
        Arch::X86_64 => {
            let mut s = String::from_str("mov ");
            let operand = rip_operand_text(sym, offset);
            s.append(operand.as_str());
            s.append(", ");
            s.append(reg);
            emitter.instruction(s.as_str());
        },
    }
    assert(final(emitter)@ =~= old(emitter)@ + store_reg_to_symbol(old(emitter).target, reg@, sym@, offset as int));
}

/// Appends the call of the code label `label`.
pub fn emit_call_label(emitter: &mut Emitter, label: &str)
    ensures
        final(emitter).target == old(emitter).target,
        final(emitter)@ == old(emitter)@.push(call_label(old(emitter).target, label@)),
{
    let mut s = match emitter.target.arch {
        Arch::AArch64 => String::from_str("bl "),
        Arch::X86_64 => String::from_str("call "),
    };
    s.append(label);
    emitter.instruction(s.as_str());
}

/// Appends the jump to the code label `label`.
pub fn emit_jump(emitter: &mut Emitter, label: &str)
    ensures
        final(emitter).target == old(emitter).target,
        final(emitter)@ == old(emitter)@.push(jump(old(emitter).target, label@)),
{
    let mut s = match emitter.target.arch {
        Arch::AArch64 => String::from_str("b "),
        Arch::X86_64 => String::from_str("jmp "),
    };
    s.append(label);
    emitter.instruction(s.as_str());
}

/// Appends the integer-result load of the word stored at `sym`.
pub fn emit_load_symbol_to_int_result(emitter: &mut Emitter, sym: &str)
    ensures
        final(emitter).target == old(emitter).target,
        final(emitter)@ == old(emitter)@ + load_symbol_to_reg(
            old(emitter).target,
            spec_int_result_reg(old(emitter).target.arch),
            sym@,
            0,
        ),
{
    let reg = int_result_reg(emitter);
    emit_load_symbol_to_reg(emitter, reg, sym, 0);
}

/// Appends the `movk` lines for chunks `k..4` of `bits`.
fn emit_movk_chunks(emitter: &mut Emitter, reg: &str, bits: u64, k: u64)
    requires
        k <= 4,
    ensures
        final(emitter).target == old(emitter).target,
        final(emitter)@ == old(emitter)@ + movk_chunks(reg@, bits, k as nat),
    decreases 4 - k,
{
    if k >= 4 {
        assert(final(emitter)@ =~= old(emitter)@ + movk_chunks(reg@, bits, k as nat));
        return;
    }
    let chunk = (bits >> (16 * k)) & 0xffff;
    assert(chunk <= 0xffff) by (bit_vector)
        requires
            chunk == (bits >> (16 * k)) & 0xffff,
    ;
    assert(chunk == chunk16(bits, k));
    if chunk != 0 {
        let mut s = String::from_str("movk ");
        s.append(reg);
        s.append(", #");
        append_decimal(&mut s, chunk as i64);
        s.append(", lsl #");
        append_decimal(&mut s, (16 * k) as i64);
        emitter.instruction(s.as_str());
    }
    emit_movk_chunks(emitter, reg, bits, k + 1);
    assert(final(emitter)@ =~= old(emitter)@ + movk_chunks(reg@, bits, k as nat));
}

/// Appends the lines that load the immediate `value` into `reg`.
pub fn emit_load_int_immediate(emitter: &mut Emitter, reg: &str, value: i64)
    ensures
        final(emitter).target == old(emitter).target,
        final(emitter)@ == old(emitter)@ + load_int_immediate(old(emitter).target, reg@, value),
{
    match emitter.target.arch {
        Arch::AArch64 => {
            if -65536 < value && value < 65536 {
                let mut s = String::from_str("mov ");
                s.append(reg);
                s.append(", #");
                append_decimal(&mut s, value);
                emitter.instruction(s.as_str());
            } else {
                let bits = #[verifier::truncate] (value as u64);
                let mut s = String::from_str("movz ");
                s.append(reg);
                s.append(", #");
                let low = bits & 0xffff;
                proof {
                    assert(low <= 0xffff && low == (bits >> 0u64) & 0xffff) by (bit_vector)
                        requires
                            low == bits & 0xffff,
                    ;
                }
                append_decimal(&mut s, low as i64);
                emitter.instruction(s.as_str());
                emit_movk_chunks(emitter, reg, bits, 1);
            }
        },
        Arch::X86_64 => {
            let mut s = String::from_str("mov ");
            s.append(reg);
            s.append(", ");
            append_decimal(&mut s, value);
            emitter.instruction(s.as_str());
        },
    }
    assert(final(emitter)@ =~= old(emitter)@ + load_int_immediate(old(emitter).target, reg@, value));
}

} // verus!
