//! A model of the AArch64 instructions the runtime helpers use, precise enough to
//! state what an emitted helper computes: instruction text is decoded into an
//! instruction, and a machine state (registers, word memory, the operands of the last
//! compare, data-symbol addresses) is stepped through a listing.
//!
//! Model conventions:
//! - Registers hold mathematical integers; `x0`-`x30` are registers 0-30, `sp` is 31,
//!   `xzr` reads as 0, `d0`-`d31` are 64-95 (only moved to and from memory here).
//! - Memory maps each address to the 8-byte word stored there; accesses do not overlap.
//! - `bl f` is a call of another runtime helper: it sets `x0` to what the environment
//!   says `f` returns for the arguments in `x1`-`x4`, and leaves the other registers and
//!   memory as they were.
//! - `ret` ends the helper; an instruction outside the model stops the machine.

use vstd::prelude::*;
use crate::codegen::emit::Line;

verus! {

/// Index of the first `c` in `s` at or after `i`, or the length of `s` if there is none.
pub open spec fn find_char(s: Seq<char>, c: char, i: int) -> int
    decreases s.len() - i,
{
    if i < 0 || i >= s.len() {
        s.len() as int
    } else if s[i] == c {
        i
    } else {
        find_char(s, c, i + 1)
    }
}

/// A decimal digit character.
pub open spec fn is_digit(c: char) -> bool {
    48 <= (c as int) && (c as int) <= 57
}

/// The value of a decimal digit character.
pub open spec fn digit_value(c: char) -> int {
    c as int - 48
}

/// The value of a hexadecimal digit character (-1 for any other character).
pub open spec fn hex_digit_value(c: char) -> int {
    if 48 <= (c as int) && (c as int) <= 57 {
        c as int - 48
    } else if 97 <= (c as int) && (c as int) <= 102 {
        c as int - 87
    } else {
        -1
    }
}

/// The value of the one to five decimal digits `t[i..j]`, if that is what they are.
pub open spec fn dec_in(t: Seq<char>, i: int, j: int) -> Option<int> {
    if i < 0 || j > t.len() || j <= i || j - i > 5 {
        None
    } else if !(forall|k: int| i <= k < j ==> is_digit(#[trigger] t[k])) {
        None
    } else if j - i == 1 {
        Some(digit_value(t[i]))
    } else if j - i == 2 {
        Some(digit_value(t[i]) * 10 + digit_value(t[i + 1]))
    } else if j - i == 3 {
        Some(digit_value(t[i]) * 100 + digit_value(t[i + 1]) * 10 + digit_value(t[i + 2]))
    } else if j - i == 4 {
        Some(digit_value(t[i]) * 1000 + digit_value(t[i + 1]) * 100 + digit_value(t[i + 2]) * 10
            + digit_value(t[i + 3]))
    } else {
        Some(digit_value(t[i]) * 10000 + digit_value(t[i + 1]) * 1000 + digit_value(t[i + 2]) * 100
            + digit_value(t[i + 3]) * 10 + digit_value(t[i + 4]))
    }
}

/// The value of the one to four hexadecimal digits `t[i..j]`, if that is what they are.
pub open spec fn hex_in(t: Seq<char>, i: int, j: int) -> Option<int> {
    if i < 0 || j > t.len() || j <= i || j - i > 4 {
        None
    } else if !(forall|k: int| i <= k < j ==> hex_digit_value(#[trigger] t[k]) >= 0) {
        None
    } else if j - i == 1 {
        Some(hex_digit_value(t[i]))
    } else if j - i == 2 {
        Some(hex_digit_value(t[i]) * 16 + hex_digit_value(t[i + 1]))
    } else if j - i == 3 {
        Some(hex_digit_value(t[i]) * 256 + hex_digit_value(t[i + 1]) * 16 + hex_digit_value(t[i + 2]))
    } else {
        Some(hex_digit_value(t[i]) * 4096 + hex_digit_value(t[i + 1]) * 256 + hex_digit_value(t[i + 2]) * 16
            + hex_digit_value(t[i + 3]))
    }
}

/// The register named by `t[i..j]`: `x0`-`x30`, `sp` (31), `xzr` (32), `d0`-`d31` (64-95).
pub open spec fn reg_in(t: Seq<char>, i: int, j: int) -> Option<int> {
    if i < 0 || j > t.len() || j <= i {
        None
    } else if j == i + 2 && t[i] == 's' && t[i + 1] == 'p' {
        Some(31)
    } else if j == i + 3 && t[i] == 'x' && t[i + 1] == 'z' && t[i + 2] == 'r' {
        Some(32)
    } else if t[i] == 'x' && (j == i + 2 || j == i + 3) && (dec_in(t, i + 1, j) matches Some(n) && n <= 30) {
        dec_in(t, i + 1, j)
    } else if t[i] == 'd' && (j == i + 2 || j == i + 3) && (dec_in(t, i + 1, j) matches Some(n) && n <= 31) {
        Some(64 + dec_in(t, i + 1, j)->0)
    } else {
        None
    }
}

/// The immediate `#n`, `#-n` or `#0xh` written at `t[i..j]`.
pub open spec fn imm_in(t: Seq<char>, i: int, j: int) -> Option<int> {
    if i < 0 || j > t.len() || j <= i + 1 || t[i] != '#' {
        None
    } else if t[i + 1] == '-' {
        match dec_in(t, i + 2, j) {
            Some(n) => Some(-n),
            None => None,
        }
    } else if j > i + 3 && t[i + 1] == '0' && t[i + 2] == 'x' {
        hex_in(t, i + 3, j)
    } else {
        dec_in(t, i + 1, j)
    }
}

/// A register or immediate operand.
pub enum Operand {
    Reg(int),
    Imm(int),
}

/// The register or immediate written at `t[i..j]`.
pub open spec fn operand_in(t: Seq<char>, i: int, j: int) -> Option<Operand> {
    if 0 <= i < t.len() && t[i] == '#' {
        match imm_in(t, i, j) {
            Some(n) => Some(Operand::Imm(n)),
            None => None,
        }
    } else {
        match reg_in(t, i, j) {
            Some(r) => Some(Operand::Reg(r)),
            None => None,
        }
    }
}

/// A memory operand: base register plus an immediate, or base plus an index register
/// shifted left.
pub enum Address {
    Offset(int, int),
    Indexed(int, int, int),
}

/// The memory operand `[base]`, `[base, #imm]` or `[base, index, lsl #k]` starting with
/// the `[` at `t[b]` and ending the text.
pub open spec fn address_at(t: Seq<char>, b: int) -> Option<Address> {
    let rb = t.len() - 1;
    let ib = b + 1;
    let ic = find_char(t, ',', ib);
    if b < 0 || b >= rb || t[b] != '[' || t[rb] != ']' {
        None
    } else if ic >= rb {
        match reg_in(t, ib, rb) {
            Some(r) => Some(Address::Offset(r, 0)),
            None => None,
        }
    } else if t[ic + 2] == '#' {
        match (reg_in(t, ib, ic), imm_in(t, ic + 2, rb)) {
            (Some(r), Some(n)) => Some(Address::Offset(r, n)),
            _ => None,
        }
    } else {
        let ic2 = find_char(t, ',', ic + 2);
        if ic2 + 6 < rb && t[ic2 + 1] == ' ' && t[ic2 + 2 + 0] == 'l' && t[ic2 + 2 + 1] == 's' && t[ic2 + 2 + 2] == 'l' && t[ic2 + 2 + 3] == ' ' && t[ic2 + 2 + 4] == '#' {
            match (reg_in(t, ib, ic), reg_in(t, ic + 2, ic2), dec_in(t, ic2 + 7, rb)) {
                (Some(r), Some(x), Some(k)) => Some(Address::Indexed(r, x, k)),
                _ => None,
            }
        } else {
            None
        }
    }
}

/// A condition on the operands `a`, `b` of the last compare.
pub enum Cond {
    Eq,
    Ne,
    Lt,
    Gt,
    Ge,
    Le,
}

/// The condition named by the two characters at `t[i..i + 2]`.
pub open spec fn cond_at(t: Seq<char>, i: int) -> Option<Cond> {
    if i < 0 || i + 2 > t.len() {
        None
    } else if t[i] == 'e' && t[i + 1] == 'q' {
        Some(Cond::Eq)
    } else if t[i] == 'n' && t[i + 1] == 'e' {
        Some(Cond::Ne)
    } else if t[i] == 'l' && t[i + 1] == 't' {
        Some(Cond::Lt)
    } else if t[i] == 'g' && t[i + 1] == 't' {
        Some(Cond::Gt)
    } else if t[i] == 'g' && t[i + 1] == 'e' {
        Some(Cond::Ge)
    } else if t[i] == 'l' && t[i + 1] == 'e' {
        Some(Cond::Le)
    } else {
        None
    }
}

/// The instructions of the model.
pub enum Instr {
    Mov(int, Operand),
    Add(int, int, Operand),
    Sub(int, int, Operand),
    AndImm(int, int, int),
    /// `lsl rd, rn, #k`: shift left by a constant.
    LslImm(int, int, int),
    Cmp(int, Operand),
    Cset(int, Cond),
    Ldr(int, Address),
    Str(int, Address),
    Ldp(int, int, Address),
    Stp(int, int, Address),
    /// `adrp rd, sym`: the 4 KiB page of the symbol's address.
    Adrp(int, Seq<char>),
    /// `add rd, rn, sym@PAGEOFF` / `add rd, rn, :lo12:sym`: the offset within that page.
    AddPageOffset(int, int, Seq<char>),
    B(Seq<char>),
    BCond(Cond, Seq<char>),
    Cbz(int, Seq<char>),
    Cbnz(int, Seq<char>),
    Bl(Seq<char>),
    Ret,
}

/// Two register-or-immediate operands after the mnemonic ending at `m`: `op1, op2`.
pub open spec fn decode_two(t: Seq<char>, m: int) -> Option<(int, Operand)> {
    let a = m + 1;
    let c1 = find_char(t, ',', a);
    if c1 + 2 >= t.len() || t[c1 + 1] != ' ' {
        None
    } else {
        match (reg_in(t, a, c1), operand_in(t, c1 + 2, t.len() as int)) {
            (Some(r), Some(o)) => Some((r, o)),
            _ => None,
        }
    }
}

/// Three operands after the mnemonic ending at `m`: `rd, rn, op` (the last as text range).
pub open spec fn decode_three_regs(t: Seq<char>, m: int) -> Option<(int, int, int)> {
    let a = m + 1;
    let c1 = find_char(t, ',', a);
    let c2 = find_char(t, ',', c1 + 2);
    if c2 + 2 >= t.len() || t[c1 + 1] != ' ' || t[c2 + 1] != ' ' {
        None
    } else {
        match (reg_in(t, a, c1), reg_in(t, c1 + 2, c2)) {
            (Some(rd), Some(rn)) => Some((rd, rn, c2 + 2)),
            _ => None,
        }
    }
}

/// The arithmetic instruction `add`/`sub`/`and`/`lsl` with operands after `m`.
pub open spec fn decode_arith(t: Seq<char>, m: int, kind: int) -> Option<Instr> {
    match decode_three_regs(t, m) {
        Some((rd, rn, k)) => {
            let n = t.len() as int;
            if kind == 0 && t[k] == ':' && n > k + 6 && t[k + 0] == ':' && t[k + 1] == 'l' && t[k + 2] == 'o' && t[k + 3] == '1' && t[k + 4] == '2' && t[k + 5] == ':' {
                Some(Instr::AddPageOffset(rd, rn, t.subrange(k + 6, n)))
            } else if kind == 0 && n > k + 8 && t[(n - 8) + 0] == '@' && t[(n - 8) + 1] == 'P' && t[(n - 8) + 2] == 'A' && t[(n - 8) + 3] == 'G' && t[(n - 8) + 4] == 'E' && t[(n - 8) + 5] == 'O' && t[(n - 8) + 6] == 'F' && t[(n - 8) + 7] == 'F' {
                Some(Instr::AddPageOffset(rd, rn, t.subrange(k, n - 8)))
            } else {
                match operand_in(t, k, n) {
                    Some(o) => if kind == 0 {
                        Some(Instr::Add(rd, rn, o))
                    } else if kind == 1 {
                        Some(Instr::Sub(rd, rn, o))
                    } else {
                        match o {
                            Operand::Imm(v) => if kind == 2 {
                                Some(Instr::AndImm(rd, rn, v))
                            } else {
                                Some(Instr::LslImm(rd, rn, v))
                            },
                            _ => None,
                        }
                    },
                    None => None,
                }
            }
        },
        None => None,
    }
}

/// A load or store of one register: `op rt, [address]`.
pub open spec fn decode_mem1(t: Seq<char>, m: int) -> Option<(int, Address)> {
    let a = m + 1;
    let c1 = find_char(t, ',', a);
    match (reg_in(t, a, c1), address_at(t, c1 + 2)) {
        (Some(r), Some(ad)) => if t[c1 + 1] == ' ' { Some((r, ad)) } else { None },
        _ => None,
    }
}

/// A load or store of a register pair: `op r1, r2, [address]`.
pub open spec fn decode_mem2(t: Seq<char>, m: int) -> Option<(int, int, Address)> {
    let a = m + 1;
    let c1 = find_char(t, ',', a);
    let c2 = find_char(t, ',', c1 + 2);
    match (reg_in(t, a, c1), reg_in(t, c1 + 2, c2), address_at(t, c2 + 2)) {
        (Some(r1), Some(r2), Some(ad)) => if t[c1 + 1] == ' ' && t[c2 + 1] == ' ' {
            Some((r1, r2, ad))
        } else {
            None
        },
        _ => None,
    }
}

/// The label operand that ends the text, starting at `i`.
pub open spec fn label_from(t: Seq<char>, i: int) -> Seq<char> {
    t.subrange(i, t.len() as int)
}

/// Decodes one instruction text; `None` for text outside the model.
#[verifier::opaque]
pub open spec fn decode(t: Seq<char>) -> Option<Instr> {
    let m = find_char(t, ' ', 0);
    let n = t.len() as int;
    if n == 3 && t[0int] == 'r' && t[1int] == 'e' && t[2int] == 't' {
        Some(Instr::Ret)
    } else if m >= n {
        None
    } else if m == 3 && t[0int] == 'm' && t[1int] == 'o' && t[2int] == 'v' {
        match decode_two(t, m) {
            Some((r, o)) => Some(Instr::Mov(r, o)),
            None => None,
        }
    } else if m == 3 && t[0int] == 'c' && t[1int] == 'm' && t[2int] == 'p' {
        match decode_two(t, m) {
            Some((r, o)) => Some(Instr::Cmp(r, o)),
            None => None,
        }
    } else if m == 3 && t[0int] == 'a' && t[1int] == 'd' && t[2int] == 'd' {
        decode_arith(t, m, 0)
    } else if m == 3 && t[0int] == 's' && t[1int] == 'u' && t[2int] == 'b' {
        decode_arith(t, m, 1)
    } else if m == 3 && t[0int] == 'a' && t[1int] == 'n' && t[2int] == 'd' {
        decode_arith(t, m, 2)
    } else if m == 3 && t[0int] == 'l' && t[1int] == 's' && t[2int] == 'l' {
        decode_arith(t, m, 3)
    } else if m == 4 && t[0int] == 'c' && t[1int] == 's' && t[2int] == 'e' && t[3int] == 't' {
        let c1 = find_char(t, ',', m + 1);
        match (reg_in(t, m + 1, c1), cond_at(t, c1 + 2)) {
            (Some(r), Some(c)) => if c1 + 4 == n && t[c1 + 1] == ' ' { Some(Instr::Cset(r, c)) } else { None },
            _ => None,
        }
    } else if m == 3 && t[0int] == 'l' && t[1int] == 'd' && t[2int] == 'r' {
        match decode_mem1(t, m) {
            Some((r, ad)) => Some(Instr::Ldr(r, ad)),
            None => None,
        }
    } else if m == 3 && t[0int] == 's' && t[1int] == 't' && t[2int] == 'r' {
        match decode_mem1(t, m) {
            Some((r, ad)) => Some(Instr::Str(r, ad)),
            None => None,
        }
    } else if m == 3 && t[0int] == 'l' && t[1int] == 'd' && t[2int] == 'p' {
        match decode_mem2(t, m) {
            Some((r1, r2, ad)) => Some(Instr::Ldp(r1, r2, ad)),
            None => None,
        }
    } else if m == 3 && t[0int] == 's' && t[1int] == 't' && t[2int] == 'p' {
        match decode_mem2(t, m) {
            Some((r1, r2, ad)) => Some(Instr::Stp(r1, r2, ad)),
            None => None,
        }
    } else if m == 4 && t[0int] == 'a' && t[1int] == 'd' && t[2int] == 'r' && t[3int] == 'p' {
        let c1 = find_char(t, ',', m + 1);
        match reg_in(t, m + 1, c1) {
            Some(r) => if c1 + 2 < n && t[c1 + 1] == ' ' {
                if n > c1 + 7 && t[(n - 5) + 0] == '@' && t[(n - 5) + 1] == 'P' && t[(n - 5) + 2] == 'A' && t[(n - 5) + 3] == 'G' && t[(n - 5) + 4] == 'E' {
                    Some(Instr::Adrp(r, t.subrange(c1 + 2, n - 5)))
                } else {
                    Some(Instr::Adrp(r, t.subrange(c1 + 2, n)))
                }
            } else {
                None
            },
            None => None,
        }
    } else if m == 1 && t[0] == 'b' {
        Some(Instr::B(label_from(t, 2)))
    } else if m == 2 && t[0] == 'b' && t[1] == 'l' {
        Some(Instr::Bl(label_from(t, 3)))
    } else if m == 4 && t[0] == 'b' && t[1] == '.' {
        match cond_at(t, 2) {
            Some(c) => Some(Instr::BCond(c, label_from(t, 5))),
            None => None,
        }
    } else if (m == 3 && t[0int] == 'c' && t[1int] == 'b' && t[2int] == 'z') || (m == 4 && t[0int] == 'c' && t[1int] == 'b' && t[2int] == 'n' && t[3int] == 'z') {
        let c1 = find_char(t, ',', m + 1);
        match reg_in(t, m + 1, c1) {
            Some(r) => if c1 + 2 < n && t[c1 + 1] == ' ' {
                if m == 3 {
                    Some(Instr::Cbz(r, label_from(t, c1 + 2)))
                } else {
                    Some(Instr::Cbnz(r, label_from(t, c1 + 2)))
                }
            } else {
                None
            },
            None => None,
        }
    } else {
        None
    }
}

/// What the surroundings of a helper provide: the address of each data symbol, and
/// what each called helper returns in `x0` for the arguments in `x1`-`x4`.
pub struct Env {
    pub symbol: spec_fn(Seq<char>) -> int,
    pub call: spec_fn(Seq<char>, int, int, int, int) -> int,
}

/// A machine state: registers, word memory, the operands of the last compare, the index
/// of the next line, and whether the helper has returned or hit text outside the model.
pub struct Machine {
    pub regs: spec_fn(int) -> int,
    pub mem: spec_fn(int) -> int,
    pub lhs: int,
    pub rhs: int,
    pub pc: int,
    pub returned: bool,
    pub stuck: bool,
}

/// The value of register `r` (`xzr` reads as 0).
pub open spec fn read(m: Machine, r: int) -> int {
    if r == 32 {
        0
    } else {
        (m.regs)(r)
    }
}

/// The value of an operand.
pub open spec fn operand_value(m: Machine, o: Operand) -> int {
    match o {
        Operand::Reg(r) => read(m, r),
        Operand::Imm(v) => v,
    }
}

/// The address a memory operand names.
pub open spec fn address_value(m: Machine, a: Address) -> int {
    match a {
        Address::Offset(b, off) => read(m, b) + off,
        Address::Indexed(b, x, k) => read(m, b) + read(m, x) * (if k == 3 { 8int } else if k == 4 { 16int } else { 1int }),
    }
}

/// Whether the last compare satisfies a condition (signed).
pub open spec fn holds(m: Machine, c: Cond) -> bool {
    match c {
        Cond::Eq => m.lhs == m.rhs,
        Cond::Ne => m.lhs != m.rhs,
        Cond::Lt => m.lhs < m.rhs,
        Cond::Gt => m.lhs > m.rhs,
        Cond::Ge => m.lhs >= m.rhs,
        Cond::Le => m.lhs <= m.rhs,
    }
}

/// The machine with register `r` set to `v` (writes to `xzr` are dropped) and the next
/// line selected.
pub open spec fn set_reg(m: Machine, r: int, v: int) -> Machine {
    Machine {
        regs: if r == 32 { m.regs } else { |x: int| if x == r { v } else { (m.regs)(x) } },
        pc: m.pc + 1,
        ..m
    }
}

/// The machine with the word at address `a` set to `v` and the next line selected.
pub open spec fn set_mem(m: Machine, a: int, v: int) -> Machine {
    Machine { mem: |x: int| if x == a { v } else { (m.mem)(x) }, pc: m.pc + 1, ..m }
}

/// The line defines the label `name` (locally or exported).
pub open spec fn defines(line: Line, name: Seq<char>) -> bool {
    match line {
        Line::Label(n) => n == name,
        Line::Global(n) => n == name,
        _ => false,
    }
}

/// The index of the first line at or after `i` that defines `name` (the length of the
/// listing when there is none).
pub open spec fn find_label(lines: Seq<Line>, name: Seq<char>, i: int) -> int
    decreases lines.len() - i,
{
    if i < 0 || i >= lines.len() {
        lines.len() as int
    } else if defines(lines[i], name) {
        i
    } else {
        find_label(lines, name, i + 1)
    }
}

/// The machine after a jump to `name`: stuck when the listing does not define it.
pub open spec fn jump_to(lines: Seq<Line>, m: Machine, name: Seq<char>) -> Machine {
    let k = find_label(lines, name, 0);
    if k >= lines.len() {
        Machine { stuck: true, ..m }
    } else {
        Machine { pc: k, ..m }
    }
}

/// The machine after one instruction.
pub open spec fn execute(lines: Seq<Line>, env: Env, m: Machine, i: Instr) -> Machine {
    match i {
        Instr::Mov(rd, o) => set_reg(m, rd, operand_value(m, o)),
        Instr::Add(rd, rn, o) => set_reg(m, rd, read(m, rn) + operand_value(m, o)),
        Instr::Sub(rd, rn, o) => set_reg(m, rd, read(m, rn) - operand_value(m, o)),
        Instr::AndImm(rd, rn, v) => if v == 255 {
            set_reg(m, rd, read(m, rn) % 256)
        } else {
            Machine { stuck: true, ..m }
        },
        Instr::LslImm(rd, rn, v) => if v == 3 {
            set_reg(m, rd, read(m, rn) * 8)
        } else if v == 4 {
            set_reg(m, rd, read(m, rn) * 16)
        } else {
            Machine { stuck: true, ..m }
        },
        Instr::Cmp(rn, o) => Machine { lhs: read(m, rn), rhs: operand_value(m, o), pc: m.pc + 1, ..m },
        Instr::Cset(rd, c) => set_reg(m, rd, if holds(m, c) { 1 } else { 0 }),
        Instr::Ldr(rd, a) => set_reg(m, rd, (m.mem)(address_value(m, a))),
        Instr::Str(rs, a) => set_mem(m, address_value(m, a), read(m, rs)),
        Instr::Ldp(r1, r2, a) => {
            let p = address_value(m, a);
            let m1 = set_reg(m, r1, (m.mem)(p));
            set_reg(Machine { pc: m.pc, ..m1 }, r2, (m.mem)(p + 8))
        },
        Instr::Stp(r1, r2, a) => {
            let p = address_value(m, a);
            let m1 = set_mem(m, p, read(m, r1));
            set_mem(Machine { pc: m.pc, ..m1 }, p + 8, read(m, r2))
        },
        Instr::Adrp(rd, sym) => {
            let addr = (env.symbol)(sym);
            set_reg(m, rd, addr - addr % 4096)
        },
        Instr::AddPageOffset(rd, rn, sym) => set_reg(m, rd, read(m, rn) + (env.symbol)(sym) % 4096),
        Instr::B(l) => jump_to(lines, m, l),
        Instr::BCond(c, l) => if holds(m, c) {
            jump_to(lines, m, l)
        } else {
            Machine { pc: m.pc + 1, ..m }
        },
        Instr::Cbz(r, l) => if read(m, r) == 0 {
            jump_to(lines, m, l)
        } else {
            Machine { pc: m.pc + 1, ..m }
        },
        Instr::Cbnz(r, l) => if read(m, r) != 0 {
            jump_to(lines, m, l)
        } else {
            Machine { pc: m.pc + 1, ..m }
        },
        Instr::Bl(f) => set_reg(m, 0, (env.call)(f, read(m, 1), read(m, 2), read(m, 3), read(m, 4))),
        Instr::Ret => Machine { returned: true, ..m },
    }
}

/// The machine after one line: labels, comments and blank lines are passed over; an
/// instruction outside the model, or running off the listing, stops the machine.
pub open spec fn step(lines: Seq<Line>, env: Env, m: Machine) -> Machine {
    if m.returned || m.stuck {
        m
    } else if m.pc < 0 || m.pc >= lines.len() {
        Machine { stuck: true, ..m }
    } else {
        match lines[m.pc] {
            Line::Instruction(t) => match decode(t) {
                Some(i) => execute(lines, env, m, i),
                None => Machine { stuck: true, ..m },
            },
            _ => Machine { pc: m.pc + 1, ..m },
        }
    }
}

/// The machine after `n` lines.
pub open spec fn run(lines: Seq<Line>, env: Env, m: Machine, n: nat) -> Machine
    decreases n,
{
    if n == 0 {
        m
    } else {
        run(lines, env, step(lines, env, m), (n - 1) as nat)
    }
}

/// Running `a` lines and then `b` more is running `a + b` lines.
pub proof fn lemma_run_split(lines: Seq<Line>, env: Env, m: Machine, a: nat, b: nat)
    ensures
        run(lines, env, m, a + b) == run(lines, env, run(lines, env, m, a), b),
    decreases a,
{
    if a > 0 {
        lemma_run_split(lines, env, step(lines, env, m), (a - 1) as nat, b);
        assert((a + b - 1) as nat == (a - 1) as nat + b);
    }
}

/// A returned machine stays as it is.
pub proof fn lemma_run_returned(lines: Seq<Line>, env: Env, m: Machine, n: nat)
    requires
        m.returned,
    ensures
        run(lines, env, m, n) == m,
    decreases n,
{
    if n > 0 {
        lemma_run_returned(lines, env, m, (n - 1) as nat);
    }
}

/// One step over a line that decodes to `i` executes `i`.
pub proof fn lemma_step_instruction(lines: Seq<Line>, env: Env, m: Machine, t: Seq<char>, i: Instr)
    requires
        !m.returned,
        !m.stuck,
        0 <= m.pc < lines.len(),
        lines[m.pc] == Line::Instruction(t),
        decode(t) == Some(i),
    ensures
        step(lines, env, m) == execute(lines, env, m, i),
{
}

/// One step over a label, comment or blank line moves to the next line.
pub proof fn lemma_step_passes(lines: Seq<Line>, env: Env, m: Machine)
    requires
        !m.returned,
        !m.stuck,
        0 <= m.pc < lines.len(),
        !(lines[m.pc] is Instruction),
    ensures
        step(lines, env, m) == (Machine { pc: m.pc + 1, ..m }),
{
}

/// Running `n + 1` lines is one step, then `n` lines.
pub proof fn lemma_run_step(lines: Seq<Line>, env: Env, m: Machine, n: nat)
    ensures
        run(lines, env, m, n + 1) == run(lines, env, step(lines, env, m), n),
{
    assert((n + 1 - 1) as nat == n);
}

/// The text of an instruction line (empty for other lines).
pub open spec fn instruction_text(line: Line) -> Seq<char> {
    match line {
        Line::Instruction(t) => t,
        _ => Seq::empty(),
    }
}

} // verus!
