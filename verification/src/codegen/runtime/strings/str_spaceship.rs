//! Purpose:
//! Emits the `__rt_str_spaceship` runtime routine implementing PHP 8's string `<=>`:
//! numeric strings compare by numeric value; non-numeric strings compare byte-for-byte.
//! Returns exactly -1, 0, or 1.
//!
//! Key details:
//! - Mirrors `__rt_str_loose_eq`'s structure and input convention (left ptr/len, right ptr/len):
//!   both operands are parsed via `__rt_str_to_number`; only when BOTH parse as PHP numeric
//!   strings do they compare numerically (`"10" <=> "9"` is 1, not lexicographic -1). The
//!   fallback normalizes `__rt_strcmp`'s lexicographic result to a sign.
//! - PHP numeric strings never parse to NaN, so the ordered float conditions are safe.

use vstd::prelude::*;
use crate::codegen::abi::{self, call_label};
use crate::codegen::emit::{Emitter, Line, ins, label, global, comment};
use crate::codegen::platform::{Arch, Target};
use crate::codegen::machine::{
    Env, Machine, Instr, Operand, Address, Cond, decode, find_char, find_label, instruction_text, read, run,
    step, lemma_step_instruction, lemma_step_passes, lemma_run_step, lemma_run_returned,
};

verus! {

/// Appends to `out` the listing that `emit_str_spaceship` emits for target `t`.
pub open spec fn str_spaceship(out: Seq<Line>, t: Target) -> Seq<Line> {
    if t.arch == Arch::X86_64 {
        str_spaceship_linux_x86_64(out, t)
    } else {
        str_spaceship_aarch64(out, t)
    }
}

/// Appends to `out` the AArch64 listing of `emit_str_spaceship`.
pub open spec fn str_spaceship_aarch64(out: Seq<Line>, t: Target) -> Seq<Line> {
    let out = out
        .push(Line::Blank)
        .push(comment("--- runtime: str_spaceship ---"))
        .push(global("__rt_str_spaceship"))
        .push(ins("sub sp, sp, #80"))
        .push(ins("stp x29, x30, [sp, #64]"))
        .push(ins("add x29, sp, #64"))
        .push(ins("stp x1, x2, [sp, #0]"))
        .push(ins("stp x3, x4, [sp, #16]"))
        .push(ins("bl __rt_str_to_number"))
        .push(ins("str x0, [sp, #32]"))
        .push(ins("str d0, [sp, #40]"))
        .push(ins("ldp x1, x2, [sp, #16]"))
        .push(ins("bl __rt_str_to_number"))
        .push(ins("ldr x9, [sp, #32]"))
        .push(ins("cbz x9, __rt_str_spaceship_bytes"))
        .push(ins("cbz x0, __rt_str_spaceship_bytes"));
    let out = out
        .push(ins("ldr d1, [sp, #40]"))
        .push(ins("fcmp d1, d0"))
        .push(ins("cset x9, gt"))
        .push(ins("cset x10, mi"))
        .push(ins("sub x0, x9, x10"))
        .push(ins("b __rt_str_spaceship_done"))
        .push(label("__rt_str_spaceship_bytes"))
        .push(ins("ldp x1, x2, [sp, #0]"))
        .push(ins("ldp x3, x4, [sp, #16]"))
        .push(ins("bl __rt_strcmp"))
        .push(ins("cmp x0, #0"))
        .push(ins("cset x9, gt"))
        .push(ins("cset x10, lt"))
        .push(ins("sub x0, x9, x10"))
        .push(label("__rt_str_spaceship_done"))
        .push(ins("ldp x29, x30, [sp, #64]"));
    let out = out
        .push(ins("add sp, sp, #80"))
        .push(ins("ret"));
    out
}

/// str_spaceship: PHP `<=>` for two strings.
/// Input:  AArch64 x1/x2 = left ptr/len, x3/x4 = right ptr/len
///         x86_64  rdi/rsi = left ptr/len, rdx/rcx = right ptr/len
/// Output: -1, 0, or 1 in the integer result register.
pub fn emit_str_spaceship(emitter: &mut Emitter)
    ensures
        final(emitter).target == old(emitter).target,
        final(emitter)@ == str_spaceship(old(emitter)@, old(emitter).target),
{
    if emitter.target.arch == Arch::X86_64 {
        emit_str_spaceship_linux_x86_64(emitter);
        return;
    }
    emitter.blank();
    emitter.comment("--- runtime: str_spaceship ---");
    emitter.label_global("__rt_str_spaceship");
    emitter.instruction("sub sp, sp, #80");    // allocate helper slots for both strings and parsed numeric state
    emitter.instruction("stp x29, x30, [sp, #64]");    // save frame pointer and return address
    emitter.instruction("add x29, sp, #64");    // establish a stable helper frame pointer
    emitter.instruction("stp x1, x2, [sp, #0]");    // save the left string pointer and length
    emitter.instruction("stp x3, x4, [sp, #16]");    // save the right string pointer and length
    emitter.instruction("bl __rt_str_to_number");    // parse the left string as a PHP numeric string
    emitter.instruction("str x0, [sp, #32]");    // save whether the left string parsed as numeric
    emitter.instruction("str d0, [sp, #40]");    // save the parsed left numeric value
    emitter.instruction("ldp x1, x2, [sp, #16]");    // reload the right string into the parser input registers
    emitter.instruction("bl __rt_str_to_number");    // parse the right string as a PHP numeric string
    emitter.instruction("ldr x9, [sp, #32]");    // reload the left numeric-string flag
    emitter.instruction("cbz x9, __rt_str_spaceship_bytes");    // non-numeric left strings compare by bytes
    emitter.instruction("cbz x0, __rt_str_spaceship_bytes");    // non-numeric right strings compare by bytes
    emitter.instruction("ldr d1, [sp, #40]");    // reload the parsed left numeric value
    emitter.instruction("fcmp d1, d0");    // order the parsed numeric values
    emitter.instruction("cset x9, gt");    // 1 when the left value sorts after the right
    emitter.instruction("cset x10, mi");    // 1 when the left value sorts before the right
    emitter.instruction("sub x0, x9, x10");    // combine into the -1/0/1 spaceship result
    emitter.instruction("b __rt_str_spaceship_done");    // skip the byte-comparison fallback
    emitter.label("__rt_str_spaceship_bytes");
    emitter.instruction("ldp x1, x2, [sp, #0]");    // reload the left string pointer and length
    emitter.instruction("ldp x3, x4, [sp, #16]");    // reload the right string pointer and length
    emitter.instruction("bl __rt_strcmp");    // compare non-numeric strings byte-for-byte
    emitter.instruction("cmp x0, #0");    // examine the lexicographic comparison result
    emitter.instruction("cset x9, gt");    // 1 when the left string sorts after the right
    emitter.instruction("cset x10, lt");    // 1 when the left string sorts before the right
    emitter.instruction("sub x0, x9, x10");    // normalize the lexicographic result to -1/0/1
    emitter.label("__rt_str_spaceship_done");
    emitter.instruction("ldp x29, x30, [sp, #64]");    // restore frame pointer and return address
    emitter.instruction("add sp, sp, #80");    // release the helper stack frame
    emitter.instruction("ret");    // return the spaceship result
}

/// Appends to `out` the listing that `emit_str_spaceship_linux_x86_64` emits for target `t`.
pub open spec fn str_spaceship_linux_x86_64(out: Seq<Line>, t: Target) -> Seq<Line> {
    let out = out
        .push(Line::Blank)
        .push(comment("--- runtime: str_spaceship ---"))
        .push(global("__rt_str_spaceship"))
        .push(ins("push rbp"))
        .push(ins("mov rbp, rsp"))
        .push(ins("sub rsp, 80"))
        .push(ins("mov QWORD PTR [rbp - 8], rdi"))
        .push(ins("mov QWORD PTR [rbp - 16], rsi"))
        .push(ins("mov QWORD PTR [rbp - 24], rdx"))
        .push(ins("mov QWORD PTR [rbp - 32], rcx"))
        .push(ins("mov rax, rdi"))
        .push(ins("mov rdx, rsi"))
        .push(call_label(t, "__rt_str_to_number"@))
        .push(ins("mov QWORD PTR [rbp - 40], rax"))
        .push(ins("movsd QWORD PTR [rbp - 48], xmm0"))
        .push(ins("mov rax, QWORD PTR [rbp - 24]"));
    let out = out
        .push(ins("mov rdx, QWORD PTR [rbp - 32]"))
        .push(call_label(t, "__rt_str_to_number"@))
        .push(ins("cmp QWORD PTR [rbp - 40], 0"))
        .push(ins("je __rt_str_spaceship_bytes_linux_x86_64"))
        .push(ins("test rax, rax"))
        .push(ins("je __rt_str_spaceship_bytes_linux_x86_64"))
        .push(ins("movsd xmm1, QWORD PTR [rbp - 48]"))
        .push(ins("ucomisd xmm1, xmm0"))
        .push(ins("seta r10b"))
        .push(ins("setb r11b"))
        .push(ins("movzx r10, r10b"))
        .push(ins("movzx r11, r11b"))
        .push(ins("mov rax, r10"))
        .push(ins("sub rax, r11"))
        .push(ins("jmp __rt_str_spaceship_done_linux_x86_64"))
        .push(label("__rt_str_spaceship_bytes_linux_x86_64"));
    let out = out
        .push(ins("mov rdi, QWORD PTR [rbp - 8]"))
        .push(ins("mov rsi, QWORD PTR [rbp - 16]"))
        .push(ins("mov rdx, QWORD PTR [rbp - 24]"))
        .push(ins("mov rcx, QWORD PTR [rbp - 32]"))
        .push(call_label(t, "__rt_strcmp"@))
        .push(ins("cmp rax, 0"))
        .push(ins("setg r10b"))
        .push(ins("setl r11b"))
        .push(ins("movzx r10, r10b"))
        .push(ins("movzx r11, r11b"))
        .push(ins("mov rax, r10"))
        .push(ins("sub rax, r11"))
        .push(label("__rt_str_spaceship_done_linux_x86_64"))
        .push(ins("add rsp, 80"))
        .push(ins("pop rbp"))
        .push(ins("ret"));
    out
}

/// Linux x86_64 variant of `__rt_str_spaceship`.
fn emit_str_spaceship_linux_x86_64(emitter: &mut Emitter)
    ensures
        final(emitter).target == old(emitter).target,
        final(emitter)@ == str_spaceship_linux_x86_64(old(emitter)@, old(emitter).target),
{
    emitter.blank();
    emitter.comment("--- runtime: str_spaceship ---");
    emitter.label_global("__rt_str_spaceship");
    emitter.instruction("push rbp");    // save the caller frame pointer before nested runtime calls
    emitter.instruction("mov rbp, rsp");    // establish a stable helper frame pointer
    emitter.instruction("sub rsp, 80");    // allocate aligned helper slots for both strings and parsed numeric state
    emitter.instruction("mov QWORD PTR [rbp - 8], rdi");    // save the left string pointer
    emitter.instruction("mov QWORD PTR [rbp - 16], rsi");    // save the left string length
    emitter.instruction("mov QWORD PTR [rbp - 24], rdx");    // save the right string pointer
    emitter.instruction("mov QWORD PTR [rbp - 32], rcx");    // save the right string length
    emitter.instruction("mov rax, rdi");    // move the left string pointer into the parser input register
    emitter.instruction("mov rdx, rsi");    // move the left string length into the parser input register
    abi::emit_call_label(emitter, "__rt_str_to_number");    // parse the left string as a PHP numeric string
    emitter.instruction("mov QWORD PTR [rbp - 40], rax");    // save whether the left string parsed as numeric
    emitter.instruction("movsd QWORD PTR [rbp - 48], xmm0");    // save the parsed left numeric value
    emitter.instruction("mov rax, QWORD PTR [rbp - 24]");    // reload the right string pointer into the parser input register
    emitter.instruction("mov rdx, QWORD PTR [rbp - 32]");    // reload the right string length into the parser input register
    abi::emit_call_label(emitter, "__rt_str_to_number");    // parse the right string as a PHP numeric string
    emitter.instruction("cmp QWORD PTR [rbp - 40], 0");    // did the left string parse as numeric?
    emitter.instruction("je __rt_str_spaceship_bytes_linux_x86_64");    // non-numeric left strings compare by bytes
    emitter.instruction("test rax, rax");    // did the right string parse as numeric?
    emitter.instruction("je __rt_str_spaceship_bytes_linux_x86_64");    // non-numeric right strings compare by bytes
    emitter.instruction("movsd xmm1, QWORD PTR [rbp - 48]");    // reload the parsed left numeric value
    emitter.instruction("ucomisd xmm1, xmm0");    // order the parsed numeric values
    emitter.instruction("seta r10b");    // 1 when the left value sorts after the right
    emitter.instruction("setb r11b");    // 1 when the left value sorts before the right
    emitter.instruction("movzx r10, r10b");    // widen the greater-than flag
    emitter.instruction("movzx r11, r11b");    // widen the less-than flag
    emitter.instruction("mov rax, r10");    // start from the greater-than flag
    emitter.instruction("sub rax, r11");    // combine into the -1/0/1 spaceship result
    emitter.instruction("jmp __rt_str_spaceship_done_linux_x86_64");    // skip the byte-comparison fallback
    emitter.label("__rt_str_spaceship_bytes_linux_x86_64");
    emitter.instruction("mov rdi, QWORD PTR [rbp - 8]");    // reload the left string pointer
    emitter.instruction("mov rsi, QWORD PTR [rbp - 16]");    // reload the left string length
    emitter.instruction("mov rdx, QWORD PTR [rbp - 24]");    // reload the right string pointer
    emitter.instruction("mov rcx, QWORD PTR [rbp - 32]");    // reload the right string length
    abi::emit_call_label(emitter, "__rt_strcmp");    // compare non-numeric strings byte-for-byte
    emitter.instruction("cmp rax, 0");    // examine the lexicographic comparison result
    emitter.instruction("setg r10b");    // 1 when the left string sorts after the right
    emitter.instruction("setl r11b");    // 1 when the left string sorts before the right
    emitter.instruction("movzx r10, r10b");    // widen the greater-than flag
    emitter.instruction("movzx r11, r11b");    // widen the less-than flag
    emitter.instruction("mov rax, r10");    // start from the greater-than flag
    emitter.instruction("sub rax, r11");    // normalize the lexicographic result to -1/0/1
    emitter.label("__rt_str_spaceship_done_linux_x86_64");
    emitter.instruction("add rsp, 80");    // release the helper stack frame
    emitter.instruction("pop rbp");    // restore the caller frame pointer
    emitter.instruction("ret");    // return the spaceship result
}

/// The emitter of this module only appends: the block it adds depends on the target
/// alone, and the listing it was handed stays in front of that block unchanged.
pub proof fn lemma_str_spaceship_emitters_append(out: Seq<Line>, t: Target)
    ensures
        str_spaceship(out, t) == out + str_spaceship(Seq::empty(), t),
{
    broadcast use crate::codegen::emit::group_listing;
}

/// The AArch64 `str_spaceship` lines the model runs through, and where its labels are.
proof fn lemma_str_spaceship_lines(t: Target)
    requires
        t.arch == Arch::AArch64,
    ensures
        ({
            let lines = str_spaceship(Seq::empty(), t);
            &&& lines.len() == 34
            &&& !(lines[2] is Instruction)
            &&& lines[3] == ins("sub sp, sp, #80")
            &&& lines[4] == ins("stp x29, x30, [sp, #64]")
            &&& lines[5] == ins("add x29, sp, #64")
            &&& lines[6] == ins("stp x1, x2, [sp, #0]")
            &&& lines[7] == ins("stp x3, x4, [sp, #16]")
            &&& lines[8] == ins("bl __rt_str_to_number")
            &&& lines[9] == ins("str x0, [sp, #32]")
            &&& lines[10] == ins("str d0, [sp, #40]")
            &&& lines[11] == ins("ldp x1, x2, [sp, #16]")
            &&& lines[12] == ins("bl __rt_str_to_number")
            &&& lines[13] == ins("ldr x9, [sp, #32]")
            &&& lines[14] == ins("cbz x9, __rt_str_spaceship_bytes")
            &&& lines[15] == ins("cbz x0, __rt_str_spaceship_bytes")
            &&& !(lines[22] is Instruction)
            &&& lines[23] == ins("ldp x1, x2, [sp, #0]")
            &&& lines[24] == ins("ldp x3, x4, [sp, #16]")
            &&& lines[25] == ins("bl __rt_strcmp")
            &&& lines[26] == ins("cmp x0, #0")
            &&& lines[27] == ins("cset x9, gt")
            &&& lines[28] == ins("cset x10, lt")
            &&& lines[29] == ins("sub x0, x9, x10")
            &&& !(lines[30] is Instruction)
            &&& lines[31] == ins("ldp x29, x30, [sp, #64]")
            &&& lines[32] == ins("add sp, sp, #80")
            &&& lines[33] == ins("ret")
            &&& find_label(lines, "__rt_str_spaceship"@, 0) == 2
            &&& find_label(lines, "__rt_str_spaceship_bytes"@, 0) == 22
        }),
{
    let lines = str_spaceship(Seq::empty(), t);
    reveal_with_fuel(find_label, 24);
    reveal_strlit("__rt_str_spaceship");
    reveal_strlit("__rt_str_spaceship_bytes");
    assert(lines[2] == Line::Global("__rt_str_spaceship"@));
    assert("__rt_str_spaceship"@.len() != "__rt_str_spaceship_bytes"@.len());
}

#[verifier::rlimit(50)]
#[verifier::spinoff_prover]
proof fn lemma_str_spaceship_decode_3()
    ensures
        decode("sub sp, sp, #80"@) == Some(Instr::Sub(31, 31, Operand::Imm(80))),
{
    reveal(decode);
    reveal_with_fuel(find_char, 19);
    reveal_strlit("sub sp, sp, #80");

}

#[verifier::rlimit(50)]
#[verifier::spinoff_prover]
proof fn lemma_str_spaceship_decode_4()
    ensures
        decode("stp x29, x30, [sp, #64]"@) == Some(Instr::Stp(29, 30, Address::Offset(31, 64))),
{
    reveal(decode);
    reveal_with_fuel(find_char, 27);
    reveal_strlit("stp x29, x30, [sp, #64]");

}

#[verifier::rlimit(50)]
#[verifier::spinoff_prover]
proof fn lemma_str_spaceship_decode_5()
    ensures
        decode("add x29, sp, #64"@) == Some(Instr::Add(29, 31, Operand::Imm(64))),
{
    reveal(decode);
    reveal_with_fuel(find_char, 20);
    reveal_strlit("add x29, sp, #64");

}

#[verifier::rlimit(50)]
#[verifier::spinoff_prover]
proof fn lemma_str_spaceship_decode_6()
    ensures
        decode("stp x1, x2, [sp, #0]"@) == Some(Instr::Stp(1, 2, Address::Offset(31, 0))),
{
    reveal(decode);
    reveal_with_fuel(find_char, 24);
    reveal_strlit("stp x1, x2, [sp, #0]");

}

#[verifier::rlimit(50)]
#[verifier::spinoff_prover]
proof fn lemma_str_spaceship_decode_7()
    ensures
        decode("stp x3, x4, [sp, #16]"@) == Some(Instr::Stp(3, 4, Address::Offset(31, 16))),
{
    reveal(decode);
    reveal_with_fuel(find_char, 25);
    reveal_strlit("stp x3, x4, [sp, #16]");

}

#[verifier::rlimit(50)]
#[verifier::spinoff_prover]
proof fn lemma_str_spaceship_decode_8()
    ensures
        decode("bl __rt_str_to_number"@) == Some(Instr::Bl("__rt_str_to_number"@)),
{
    reveal(decode);
    reveal_with_fuel(find_char, 25);
    reveal_strlit("__rt_str_to_number");
    reveal_strlit("bl __rt_str_to_number");
    assert("bl __rt_str_to_number"@.subrange(3, 21) =~= "__rt_str_to_number"@);
}

#[verifier::rlimit(50)]
#[verifier::spinoff_prover]
proof fn lemma_str_spaceship_decode_9()
    ensures
        decode("str x0, [sp, #32]"@) == Some(Instr::Str(0, Address::Offset(31, 32))),
{
    reveal(decode);
    reveal_with_fuel(find_char, 21);
    reveal_strlit("str x0, [sp, #32]");

}

#[verifier::rlimit(50)]
#[verifier::spinoff_prover]
proof fn lemma_str_spaceship_decode_10()
    ensures
        decode("str d0, [sp, #40]"@) == Some(Instr::Str(64, Address::Offset(31, 40))),
{
    reveal(decode);
    reveal_with_fuel(find_char, 21);
    reveal_strlit("str d0, [sp, #40]");

}

#[verifier::rlimit(50)]
#[verifier::spinoff_prover]
proof fn lemma_str_spaceship_decode_11()
    ensures
        decode("ldp x1, x2, [sp, #16]"@) == Some(Instr::Ldp(1, 2, Address::Offset(31, 16))),
{
    reveal(decode);
    reveal_with_fuel(find_char, 25);
    reveal_strlit("ldp x1, x2, [sp, #16]");

}

#[verifier::rlimit(50)]
#[verifier::spinoff_prover]
proof fn lemma_str_spaceship_decode_13()
    ensures
        decode("ldr x9, [sp, #32]"@) == Some(Instr::Ldr(9, Address::Offset(31, 32))),
{
    reveal(decode);
    reveal_with_fuel(find_char, 21);
    reveal_strlit("ldr x9, [sp, #32]");

}

#[verifier::rlimit(50)]
#[verifier::spinoff_prover]
proof fn lemma_str_spaceship_decode_14()
    ensures
        decode("cbz x9, __rt_str_spaceship_bytes"@) == Some(Instr::Cbz(9, "__rt_str_spaceship_bytes"@)),
{
    reveal(decode);
    reveal_with_fuel(find_char, 36);
    reveal_strlit("__rt_str_spaceship_bytes");
    reveal_strlit("cbz x9, __rt_str_spaceship_bytes");
    assert("cbz x9, __rt_str_spaceship_bytes"@.subrange(8, 32) =~= "__rt_str_spaceship_bytes"@);
}

#[verifier::rlimit(50)]
#[verifier::spinoff_prover]
proof fn lemma_str_spaceship_decode_15()
    ensures
        decode("cbz x0, __rt_str_spaceship_bytes"@) == Some(Instr::Cbz(0, "__rt_str_spaceship_bytes"@)),
{
    reveal(decode);
    reveal_with_fuel(find_char, 36);
    reveal_strlit("__rt_str_spaceship_bytes");
    reveal_strlit("cbz x0, __rt_str_spaceship_bytes");
    assert("cbz x0, __rt_str_spaceship_bytes"@.subrange(8, 32) =~= "__rt_str_spaceship_bytes"@);
}

#[verifier::rlimit(50)]
#[verifier::spinoff_prover]
proof fn lemma_str_spaceship_decode_23()
    ensures
        decode("ldp x1, x2, [sp, #0]"@) == Some(Instr::Ldp(1, 2, Address::Offset(31, 0))),
{
    reveal(decode);
    reveal_with_fuel(find_char, 24);
    reveal_strlit("ldp x1, x2, [sp, #0]");

}

#[verifier::rlimit(50)]
#[verifier::spinoff_prover]
proof fn lemma_str_spaceship_decode_24()
    ensures
        decode("ldp x3, x4, [sp, #16]"@) == Some(Instr::Ldp(3, 4, Address::Offset(31, 16))),
{
    reveal(decode);
    reveal_with_fuel(find_char, 25);
    reveal_strlit("ldp x3, x4, [sp, #16]");

}

#[verifier::rlimit(50)]
#[verifier::spinoff_prover]
proof fn lemma_str_spaceship_decode_25()
    ensures
        decode("bl __rt_strcmp"@) == Some(Instr::Bl("__rt_strcmp"@)),
{
    reveal(decode);
    reveal_with_fuel(find_char, 18);
    reveal_strlit("__rt_strcmp");
    reveal_strlit("bl __rt_strcmp");
    assert("bl __rt_strcmp"@.subrange(3, 14) =~= "__rt_strcmp"@);
}

#[verifier::rlimit(50)]
#[verifier::spinoff_prover]
proof fn lemma_str_spaceship_decode_26()
    ensures
        decode("cmp x0, #0"@) == Some(Instr::Cmp(0, Operand::Imm(0))),
{
    reveal(decode);
    reveal_with_fuel(find_char, 14);
    reveal_strlit("cmp x0, #0");

}

#[verifier::rlimit(50)]
#[verifier::spinoff_prover]
proof fn lemma_str_spaceship_decode_27()
    ensures
        decode("cset x9, gt"@) == Some(Instr::Cset(9, Cond::Gt)),
{
    reveal(decode);
    reveal_with_fuel(find_char, 15);
    reveal_strlit("cset x9, gt");

}

#[verifier::rlimit(50)]
#[verifier::spinoff_prover]
proof fn lemma_str_spaceship_decode_28()
    ensures
        decode("cset x10, lt"@) == Some(Instr::Cset(10, Cond::Lt)),
{
    reveal(decode);
    reveal_with_fuel(find_char, 16);
    reveal_strlit("cset x10, lt");

}

#[verifier::rlimit(50)]
#[verifier::spinoff_prover]
proof fn lemma_str_spaceship_decode_29()
    ensures
        decode("sub x0, x9, x10"@) == Some(Instr::Sub(0, 9, Operand::Reg(10))),
{
    reveal(decode);
    reveal_with_fuel(find_char, 19);
    reveal_strlit("sub x0, x9, x10");

}

#[verifier::rlimit(50)]
#[verifier::spinoff_prover]
proof fn lemma_str_spaceship_decode_31()
    ensures
        decode("ldp x29, x30, [sp, #64]"@) == Some(Instr::Ldp(29, 30, Address::Offset(31, 64))),
{
    reveal(decode);
    reveal_with_fuel(find_char, 27);
    reveal_strlit("ldp x29, x30, [sp, #64]");

}

#[verifier::rlimit(50)]
#[verifier::spinoff_prover]
proof fn lemma_str_spaceship_decode_32()
    ensures
        decode("add sp, sp, #80"@) == Some(Instr::Add(31, 31, Operand::Imm(80))),
{
    reveal(decode);
    reveal_with_fuel(find_char, 19);
    reveal_strlit("add sp, sp, #80");

}

#[verifier::rlimit(50)]
#[verifier::spinoff_prover]
proof fn lemma_str_spaceship_decode_33()
    ensures
        decode("ret"@) == Some(Instr::Ret),
{
    reveal(decode);
    reveal_with_fuel(find_char, 7);
    reveal_strlit("ret");

}

/// Running the `str_spaceship` lines along one path.
proof fn lemma_str_spaceship_runs_left_text(lines: Seq<Line>, env: Env, m: Machine)
    requires
        !(lines[2] is Instruction),
        lines[3] is Instruction && decode(instruction_text(lines[3])) == Some(Instr::Sub(31, 31, Operand::Imm(80))),
        lines[4] is Instruction && decode(instruction_text(lines[4])) == Some(Instr::Stp(29, 30, Address::Offset(31, 64))),
        lines[5] is Instruction && decode(instruction_text(lines[5])) == Some(Instr::Add(29, 31, Operand::Imm(64))),
        lines[6] is Instruction && decode(instruction_text(lines[6])) == Some(Instr::Stp(1, 2, Address::Offset(31, 0))),
        lines[7] is Instruction && decode(instruction_text(lines[7])) == Some(Instr::Stp(3, 4, Address::Offset(31, 16))),
        lines[8] is Instruction && decode(instruction_text(lines[8])) == Some(Instr::Bl("__rt_str_to_number"@)),
        lines[9] is Instruction && decode(instruction_text(lines[9])) == Some(Instr::Str(0, Address::Offset(31, 32))),
        lines[10] is Instruction && decode(instruction_text(lines[10])) == Some(Instr::Str(64, Address::Offset(31, 40))),
        lines[11] is Instruction && decode(instruction_text(lines[11])) == Some(Instr::Ldp(1, 2, Address::Offset(31, 16))),
        lines[12] is Instruction && decode(instruction_text(lines[12])) == Some(Instr::Bl("__rt_str_to_number"@)),
        lines[13] is Instruction && decode(instruction_text(lines[13])) == Some(Instr::Ldr(9, Address::Offset(31, 32))),
        lines[14] is Instruction && decode(instruction_text(lines[14])) == Some(Instr::Cbz(9, "__rt_str_spaceship_bytes"@)),
        !(lines[22] is Instruction),
        lines[23] is Instruction && decode(instruction_text(lines[23])) == Some(Instr::Ldp(1, 2, Address::Offset(31, 0))),
        lines[24] is Instruction && decode(instruction_text(lines[24])) == Some(Instr::Ldp(3, 4, Address::Offset(31, 16))),
        lines[25] is Instruction && decode(instruction_text(lines[25])) == Some(Instr::Bl("__rt_strcmp"@)),
        lines[26] is Instruction && decode(instruction_text(lines[26])) == Some(Instr::Cmp(0, Operand::Imm(0))),
        lines[27] is Instruction && decode(instruction_text(lines[27])) == Some(Instr::Cset(9, Cond::Gt)),
        lines[28] is Instruction && decode(instruction_text(lines[28])) == Some(Instr::Cset(10, Cond::Lt)),
        lines[29] is Instruction && decode(instruction_text(lines[29])) == Some(Instr::Sub(0, 9, Operand::Reg(10))),
        !(lines[30] is Instruction),
        lines[31] is Instruction && decode(instruction_text(lines[31])) == Some(Instr::Ldp(29, 30, Address::Offset(31, 64))),
        lines[32] is Instruction && decode(instruction_text(lines[32])) == Some(Instr::Add(31, 31, Operand::Imm(80))),
        lines[33] is Instruction && decode(instruction_text(lines[33])) == Some(Instr::Ret),
        find_label(lines, "__rt_str_spaceship_bytes"@, 0) == 22,
        lines.len() == 34,
        m.pc == 2,
        !m.returned,
        !m.stuck,
        (env.call)("__rt_str_to_number"@, read(m, 1), read(m, 2), read(m, 3), read(m, 4)) == 0,
    ensures
        ({
            let lp = read(m, 1);
            let ll = read(m, 2);
            let rp = read(m, 3);
            let rl = read(m, 4);
            let c = (env.call)("__rt_strcmp"@, lp, ll, rp, rl);
            let r = run(lines, env, m, 26);
            &&& r.returned
            &&& read(r, 0) == if c > 0 { 1int } else if c < 0 { -1int } else { 0int }
        }),
{
    let m0 = m;
    lemma_step_passes(lines, env, m0);
    let m1 = step(lines, env, m0);
    assert(m1.pc == 3);
    lemma_step_instruction(lines, env, m1, instruction_text(lines[3]), Instr::Sub(31, 31, Operand::Imm(80)));
    let m2 = step(lines, env, m1);
    assert(m2.pc == 4);
    lemma_step_instruction(lines, env, m2, instruction_text(lines[4]), Instr::Stp(29, 30, Address::Offset(31, 64)));
    let m3 = step(lines, env, m2);
    assert(m3.pc == 5);
    lemma_step_instruction(lines, env, m3, instruction_text(lines[5]), Instr::Add(29, 31, Operand::Imm(64)));
    let m4 = step(lines, env, m3);
    assert(m4.pc == 6);
    lemma_step_instruction(lines, env, m4, instruction_text(lines[6]), Instr::Stp(1, 2, Address::Offset(31, 0)));
    let m5 = step(lines, env, m4);
    assert(m5.pc == 7);
    lemma_step_instruction(lines, env, m5, instruction_text(lines[7]), Instr::Stp(3, 4, Address::Offset(31, 16)));
    let m6 = step(lines, env, m5);
    assert(m6.pc == 8);
    lemma_step_instruction(lines, env, m6, instruction_text(lines[8]), Instr::Bl("__rt_str_to_number"@));
    let m7 = step(lines, env, m6);
    assert(m7.pc == 9);
    lemma_step_instruction(lines, env, m7, instruction_text(lines[9]), Instr::Str(0, Address::Offset(31, 32)));
    let m8 = step(lines, env, m7);
    assert(m8.pc == 10);
    lemma_step_instruction(lines, env, m8, instruction_text(lines[10]), Instr::Str(64, Address::Offset(31, 40)));
    let m9 = step(lines, env, m8);
    assert(m9.pc == 11);
    lemma_step_instruction(lines, env, m9, instruction_text(lines[11]), Instr::Ldp(1, 2, Address::Offset(31, 16)));
    let m10 = step(lines, env, m9);
    assert(m10.pc == 12);
    lemma_step_instruction(lines, env, m10, instruction_text(lines[12]), Instr::Bl("__rt_str_to_number"@));
    let m11 = step(lines, env, m10);
    assert(m11.pc == 13);
    lemma_step_instruction(lines, env, m11, instruction_text(lines[13]), Instr::Ldr(9, Address::Offset(31, 32)));
    let m12 = step(lines, env, m11);
    assert(m12.pc == 14);
    lemma_step_instruction(lines, env, m12, instruction_text(lines[14]), Instr::Cbz(9, "__rt_str_spaceship_bytes"@));
    let m13 = step(lines, env, m12);
    assert(m13.pc == 22);
    lemma_step_passes(lines, env, m13);
    let m14 = step(lines, env, m13);
    assert(m14.pc == 23);
    lemma_step_instruction(lines, env, m14, instruction_text(lines[23]), Instr::Ldp(1, 2, Address::Offset(31, 0)));
    let m15 = step(lines, env, m14);
    assert(m15.pc == 24);
    lemma_step_instruction(lines, env, m15, instruction_text(lines[24]), Instr::Ldp(3, 4, Address::Offset(31, 16)));
    let m16 = step(lines, env, m15);
    assert(m16.pc == 25);
    lemma_step_instruction(lines, env, m16, instruction_text(lines[25]), Instr::Bl("__rt_strcmp"@));
    let m17 = step(lines, env, m16);
    assert(m17.pc == 26);
    lemma_step_instruction(lines, env, m17, instruction_text(lines[26]), Instr::Cmp(0, Operand::Imm(0)));
    let m18 = step(lines, env, m17);
    assert(m18.pc == 27);
    lemma_step_instruction(lines, env, m18, instruction_text(lines[27]), Instr::Cset(9, Cond::Gt));
    let m19 = step(lines, env, m18);
    assert(m19.pc == 28);
    lemma_step_instruction(lines, env, m19, instruction_text(lines[28]), Instr::Cset(10, Cond::Lt));
    let m20 = step(lines, env, m19);
    assert(m20.pc == 29);
    lemma_step_instruction(lines, env, m20, instruction_text(lines[29]), Instr::Sub(0, 9, Operand::Reg(10)));
    let m21 = step(lines, env, m20);
    assert(m21.pc == 30);
    lemma_step_passes(lines, env, m21);
    let m22 = step(lines, env, m21);
    assert(m22.pc == 31);
    lemma_step_instruction(lines, env, m22, instruction_text(lines[31]), Instr::Ldp(29, 30, Address::Offset(31, 64)));
    let m23 = step(lines, env, m22);
    assert(m23.pc == 32);
    lemma_step_instruction(lines, env, m23, instruction_text(lines[32]), Instr::Add(31, 31, Operand::Imm(80)));
    let m24 = step(lines, env, m23);
    assert(m24.pc == 33);
    lemma_step_instruction(lines, env, m24, instruction_text(lines[33]), Instr::Ret);
    let m25 = step(lines, env, m24);
    assert(m25.pc == m25.pc);
    lemma_run_step(lines, env, m0, 25);
    lemma_run_step(lines, env, m1, 24);
    lemma_run_step(lines, env, m2, 23);
    lemma_run_step(lines, env, m3, 22);
    lemma_run_step(lines, env, m4, 21);
    lemma_run_step(lines, env, m5, 20);
    lemma_run_step(lines, env, m6, 19);
    lemma_run_step(lines, env, m7, 18);
    lemma_run_step(lines, env, m8, 17);
    lemma_run_step(lines, env, m9, 16);
    lemma_run_step(lines, env, m10, 15);
    lemma_run_step(lines, env, m11, 14);
    lemma_run_step(lines, env, m12, 13);
    lemma_run_step(lines, env, m13, 12);
    lemma_run_step(lines, env, m14, 11);
    lemma_run_step(lines, env, m15, 10);
    lemma_run_step(lines, env, m16, 9);
    lemma_run_step(lines, env, m17, 8);
    lemma_run_step(lines, env, m18, 7);
    lemma_run_step(lines, env, m19, 6);
    lemma_run_step(lines, env, m20, 5);
    lemma_run_step(lines, env, m21, 4);
    lemma_run_step(lines, env, m22, 3);
    lemma_run_step(lines, env, m23, 2);
    lemma_run_step(lines, env, m24, 1);
    lemma_run_returned(lines, env, m25, 1);
}

/// Running the `str_spaceship` lines along one path.
proof fn lemma_str_spaceship_runs_right_text(lines: Seq<Line>, env: Env, m: Machine)
    requires
        !(lines[2] is Instruction),
        lines[3] is Instruction && decode(instruction_text(lines[3])) == Some(Instr::Sub(31, 31, Operand::Imm(80))),
        lines[4] is Instruction && decode(instruction_text(lines[4])) == Some(Instr::Stp(29, 30, Address::Offset(31, 64))),
        lines[5] is Instruction && decode(instruction_text(lines[5])) == Some(Instr::Add(29, 31, Operand::Imm(64))),
        lines[6] is Instruction && decode(instruction_text(lines[6])) == Some(Instr::Stp(1, 2, Address::Offset(31, 0))),
        lines[7] is Instruction && decode(instruction_text(lines[7])) == Some(Instr::Stp(3, 4, Address::Offset(31, 16))),
        lines[8] is Instruction && decode(instruction_text(lines[8])) == Some(Instr::Bl("__rt_str_to_number"@)),
        lines[9] is Instruction && decode(instruction_text(lines[9])) == Some(Instr::Str(0, Address::Offset(31, 32))),
        lines[10] is Instruction && decode(instruction_text(lines[10])) == Some(Instr::Str(64, Address::Offset(31, 40))),
        lines[11] is Instruction && decode(instruction_text(lines[11])) == Some(Instr::Ldp(1, 2, Address::Offset(31, 16))),
        lines[12] is Instruction && decode(instruction_text(lines[12])) == Some(Instr::Bl("__rt_str_to_number"@)),
        lines[13] is Instruction && decode(instruction_text(lines[13])) == Some(Instr::Ldr(9, Address::Offset(31, 32))),
        lines[14] is Instruction && decode(instruction_text(lines[14])) == Some(Instr::Cbz(9, "__rt_str_spaceship_bytes"@)),
        lines[15] is Instruction && decode(instruction_text(lines[15])) == Some(Instr::Cbz(0, "__rt_str_spaceship_bytes"@)),
        !(lines[22] is Instruction),
        lines[23] is Instruction && decode(instruction_text(lines[23])) == Some(Instr::Ldp(1, 2, Address::Offset(31, 0))),
        lines[24] is Instruction && decode(instruction_text(lines[24])) == Some(Instr::Ldp(3, 4, Address::Offset(31, 16))),
        lines[25] is Instruction && decode(instruction_text(lines[25])) == Some(Instr::Bl("__rt_strcmp"@)),
        lines[26] is Instruction && decode(instruction_text(lines[26])) == Some(Instr::Cmp(0, Operand::Imm(0))),
        lines[27] is Instruction && decode(instruction_text(lines[27])) == Some(Instr::Cset(9, Cond::Gt)),
        lines[28] is Instruction && decode(instruction_text(lines[28])) == Some(Instr::Cset(10, Cond::Lt)),
        lines[29] is Instruction && decode(instruction_text(lines[29])) == Some(Instr::Sub(0, 9, Operand::Reg(10))),
        !(lines[30] is Instruction),
        lines[31] is Instruction && decode(instruction_text(lines[31])) == Some(Instr::Ldp(29, 30, Address::Offset(31, 64))),
        lines[32] is Instruction && decode(instruction_text(lines[32])) == Some(Instr::Add(31, 31, Operand::Imm(80))),
        lines[33] is Instruction && decode(instruction_text(lines[33])) == Some(Instr::Ret),
        find_label(lines, "__rt_str_spaceship_bytes"@, 0) == 22,
        lines.len() == 34,
        m.pc == 2,
        !m.returned,
        !m.stuck,
        (env.call)("__rt_str_to_number"@, read(m, 1), read(m, 2), read(m, 3), read(m, 4)) != 0,
        (env.call)("__rt_str_to_number"@, read(m, 3), read(m, 4), read(m, 3), read(m, 4)) == 0,
    ensures
        ({
            let lp = read(m, 1);
            let ll = read(m, 2);
            let rp = read(m, 3);
            let rl = read(m, 4);
            let c = (env.call)("__rt_strcmp"@, lp, ll, rp, rl);
            let r = run(lines, env, m, 26);
            &&& r.returned
            &&& read(r, 0) == if c > 0 { 1int } else if c < 0 { -1int } else { 0int }
        }),
{
    let m0 = m;
    lemma_step_passes(lines, env, m0);
    let m1 = step(lines, env, m0);
    assert(m1.pc == 3);
    lemma_step_instruction(lines, env, m1, instruction_text(lines[3]), Instr::Sub(31, 31, Operand::Imm(80)));
    let m2 = step(lines, env, m1);
    assert(m2.pc == 4);
    lemma_step_instruction(lines, env, m2, instruction_text(lines[4]), Instr::Stp(29, 30, Address::Offset(31, 64)));
    let m3 = step(lines, env, m2);
    assert(m3.pc == 5);
    lemma_step_instruction(lines, env, m3, instruction_text(lines[5]), Instr::Add(29, 31, Operand::Imm(64)));
    let m4 = step(lines, env, m3);
    assert(m4.pc == 6);
    lemma_step_instruction(lines, env, m4, instruction_text(lines[6]), Instr::Stp(1, 2, Address::Offset(31, 0)));
    let m5 = step(lines, env, m4);
    assert(m5.pc == 7);
    lemma_step_instruction(lines, env, m5, instruction_text(lines[7]), Instr::Stp(3, 4, Address::Offset(31, 16)));
    let m6 = step(lines, env, m5);
    assert(m6.pc == 8);
    lemma_step_instruction(lines, env, m6, instruction_text(lines[8]), Instr::Bl("__rt_str_to_number"@));
    let m7 = step(lines, env, m6);
    assert(m7.pc == 9);
    lemma_step_instruction(lines, env, m7, instruction_text(lines[9]), Instr::Str(0, Address::Offset(31, 32)));
    let m8 = step(lines, env, m7);
    assert(m8.pc == 10);
    lemma_step_instruction(lines, env, m8, instruction_text(lines[10]), Instr::Str(64, Address::Offset(31, 40)));
    let m9 = step(lines, env, m8);
    assert(m9.pc == 11);
    lemma_step_instruction(lines, env, m9, instruction_text(lines[11]), Instr::Ldp(1, 2, Address::Offset(31, 16)));
    let m10 = step(lines, env, m9);
    assert(m10.pc == 12);
    lemma_step_instruction(lines, env, m10, instruction_text(lines[12]), Instr::Bl("__rt_str_to_number"@));
    let m11 = step(lines, env, m10);
    assert(m11.pc == 13);
    lemma_step_instruction(lines, env, m11, instruction_text(lines[13]), Instr::Ldr(9, Address::Offset(31, 32)));
    let m12 = step(lines, env, m11);
    assert(m12.pc == 14);
    lemma_step_instruction(lines, env, m12, instruction_text(lines[14]), Instr::Cbz(9, "__rt_str_spaceship_bytes"@));
    let m13 = step(lines, env, m12);
    assert(m13.pc == 15);
    lemma_step_instruction(lines, env, m13, instruction_text(lines[15]), Instr::Cbz(0, "__rt_str_spaceship_bytes"@));
    let m14 = step(lines, env, m13);
    assert(m14.pc == 22);
    lemma_step_passes(lines, env, m14);
    let m15 = step(lines, env, m14);
    assert(m15.pc == 23);
    lemma_step_instruction(lines, env, m15, instruction_text(lines[23]), Instr::Ldp(1, 2, Address::Offset(31, 0)));
    let m16 = step(lines, env, m15);
    assert(m16.pc == 24);
    lemma_step_instruction(lines, env, m16, instruction_text(lines[24]), Instr::Ldp(3, 4, Address::Offset(31, 16)));
    let m17 = step(lines, env, m16);
    assert(m17.pc == 25);
    lemma_step_instruction(lines, env, m17, instruction_text(lines[25]), Instr::Bl("__rt_strcmp"@));
    let m18 = step(lines, env, m17);
    assert(m18.pc == 26);
    lemma_step_instruction(lines, env, m18, instruction_text(lines[26]), Instr::Cmp(0, Operand::Imm(0)));
    let m19 = step(lines, env, m18);
    assert(m19.pc == 27);
    lemma_step_instruction(lines, env, m19, instruction_text(lines[27]), Instr::Cset(9, Cond::Gt));
    let m20 = step(lines, env, m19);
    assert(m20.pc == 28);
    lemma_step_instruction(lines, env, m20, instruction_text(lines[28]), Instr::Cset(10, Cond::Lt));
    let m21 = step(lines, env, m20);
    assert(m21.pc == 29);
    lemma_step_instruction(lines, env, m21, instruction_text(lines[29]), Instr::Sub(0, 9, Operand::Reg(10)));
    let m22 = step(lines, env, m21);
    assert(m22.pc == 30);
    lemma_step_passes(lines, env, m22);
    let m23 = step(lines, env, m22);
    assert(m23.pc == 31);
    lemma_step_instruction(lines, env, m23, instruction_text(lines[31]), Instr::Ldp(29, 30, Address::Offset(31, 64)));
    let m24 = step(lines, env, m23);
    assert(m24.pc == 32);
    lemma_step_instruction(lines, env, m24, instruction_text(lines[32]), Instr::Add(31, 31, Operand::Imm(80)));
    let m25 = step(lines, env, m24);
    assert(m25.pc == 33);
    lemma_step_instruction(lines, env, m25, instruction_text(lines[33]), Instr::Ret);
    let m26 = step(lines, env, m25);
    assert(m26.pc == m26.pc);
    lemma_run_step(lines, env, m0, 25);
    lemma_run_step(lines, env, m1, 24);
    lemma_run_step(lines, env, m2, 23);
    lemma_run_step(lines, env, m3, 22);
    lemma_run_step(lines, env, m4, 21);
    lemma_run_step(lines, env, m5, 20);
    lemma_run_step(lines, env, m6, 19);
    lemma_run_step(lines, env, m7, 18);
    lemma_run_step(lines, env, m8, 17);
    lemma_run_step(lines, env, m9, 16);
    lemma_run_step(lines, env, m10, 15);
    lemma_run_step(lines, env, m11, 14);
    lemma_run_step(lines, env, m12, 13);
    lemma_run_step(lines, env, m13, 12);
    lemma_run_step(lines, env, m14, 11);
    lemma_run_step(lines, env, m15, 10);
    lemma_run_step(lines, env, m16, 9);
    lemma_run_step(lines, env, m17, 8);
    lemma_run_step(lines, env, m18, 7);
    lemma_run_step(lines, env, m19, 6);
    lemma_run_step(lines, env, m20, 5);
    lemma_run_step(lines, env, m21, 4);
    lemma_run_step(lines, env, m22, 3);
    lemma_run_step(lines, env, m23, 2);
    lemma_run_step(lines, env, m24, 1);
    lemma_run_step(lines, env, m25, 0);
}

/// `__rt_str_spaceship` orders non-numeric strings byte-wise: on AArch64, with the left
/// string in `x1`/`x2` and the right one in `x3`/`x4`, when either does not parse as a
/// numeric string (`__rt_str_to_number` reports 0 for it) the helper returns, within 26
/// lines, with `x0` = -1, 0 or 1, the sign of `__rt_strcmp(left, right)`.
pub proof fn lemma_str_spaceship_orders_text_bytewise(t: Target, env: Env, m: Machine)
    requires
        t.arch == Arch::AArch64,
        m.pc == find_label(str_spaceship(Seq::empty(), t), "__rt_str_spaceship"@, 0),
        !m.returned,
        !m.stuck,
        (env.call)("__rt_str_to_number"@, read(m, 1), read(m, 2), read(m, 3), read(m, 4)) == 0
            || (env.call)("__rt_str_to_number"@, read(m, 3), read(m, 4), read(m, 3), read(m, 4)) == 0,
    ensures
        ({
            let c = (env.call)("__rt_strcmp"@, read(m, 1), read(m, 2), read(m, 3), read(m, 4));
            let r = run(str_spaceship(Seq::empty(), t), env, m, 26);
            &&& r.returned
            &&& read(r, 0) == if c > 0 { 1int } else if c < 0 { -1int } else { 0int }
        }),
{
    let lines = str_spaceship(Seq::empty(), t);
    lemma_str_spaceship_lines(t);
    lemma_str_spaceship_decode_3();
    lemma_str_spaceship_decode_4();
    lemma_str_spaceship_decode_5();
    lemma_str_spaceship_decode_6();
    lemma_str_spaceship_decode_7();
    lemma_str_spaceship_decode_8();
    lemma_str_spaceship_decode_9();
    lemma_str_spaceship_decode_10();
    lemma_str_spaceship_decode_11();
    lemma_str_spaceship_decode_13();
    lemma_str_spaceship_decode_14();
    lemma_str_spaceship_decode_15();
    lemma_str_spaceship_decode_23();
    lemma_str_spaceship_decode_24();
    lemma_str_spaceship_decode_25();
    lemma_str_spaceship_decode_26();
    lemma_str_spaceship_decode_27();
    lemma_str_spaceship_decode_28();
    lemma_str_spaceship_decode_29();
    lemma_str_spaceship_decode_31();
    lemma_str_spaceship_decode_32();
    lemma_str_spaceship_decode_33();
    if (env.call)("__rt_str_to_number"@, read(m, 1), read(m, 2), read(m, 3), read(m, 4)) == 0 {
        lemma_str_spaceship_runs_left_text(lines, env, m);
    } else {
        lemma_str_spaceship_runs_right_text(lines, env, m);
    }
}

} // verus!
