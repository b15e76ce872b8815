//! The assembly emitter: an append-only listing of lines for one target.

use vstd::prelude::*;
use crate::codegen::platform::{Arch, Platform, Target};
use crate::codegen::text::{decimal, hex, append_decimal, append_hex};

verus! {

/// One line of an assembly listing, as the contracts speak of it.
pub enum Line {
    /// An indented instruction or directive.
    Instruction(Seq<char>),
    /// A local label definition `name:`.
    Label(Seq<char>),
    /// An exported label: `.globl name` followed by `name:`.
    Global(Seq<char>),
    /// A comment line.
    Comment(Seq<char>),
    /// An empty separator line.
    Blank,
}

/// One line of an assembly listing as the emitter stores it.
pub enum AsmLine {
    Instruction(String),
    Label(String),
    Global(String),
    Comment(String),
    Blank,
}

impl View for AsmLine {
    type V = Line;

    open spec fn view(&self) -> Line {
        match self {
            AsmLine::Instruction(s) => Line::Instruction(s@),
            AsmLine::Label(s) => Line::Label(s@),
            AsmLine::Global(s) => Line::Global(s@),
            AsmLine::Comment(s) => Line::Comment(s@),
            AsmLine::Blank => Line::Blank,
        }
    }
}

/// The instruction line for a literal instruction text.
pub open spec fn ins(s: &str) -> Line {
    Line::Instruction(s@)
}

/// The instruction line `prefix`, decimal `n`, `suffix`.
pub open spec fn ins_int(prefix: &str, n: int, suffix: &str) -> Line {
    Line::Instruction(prefix@ + decimal(n) + suffix@)
}

/// The instruction line `prefix`, decimal `a`, `middle`, decimal `b`, `suffix`.
pub open spec fn ins_int2(prefix: &str, a: int, middle: &str, b: int, suffix: &str) -> Line {
    Line::Instruction(prefix@ + decimal(a) + middle@ + decimal(b) + suffix@)
}

/// The instruction line `prefix`, `0x` and the hexadecimal text of `n`.
pub open spec fn ins_hex(prefix: &str, n: nat) -> Line {
    Line::Instruction(prefix@ + "0x"@ + hex(n))
}

/// The local label line for a literal name.
pub open spec fn label(s: &str) -> Line {
    Line::Label(s@)
}

/// The exported label line for a literal name.
pub open spec fn global(s: &str) -> Line {
    Line::Global(s@)
}

/// The comment line for a literal text.
pub open spec fn comment(s: &str) -> Line {
    Line::Comment(s@)
}

/// Name under which a C library symbol is linked on a platform.
pub open spec fn c_symbol(p: Platform, name: Seq<char>) -> Seq<char> {
    match p {
        Platform::MacOS => "_"@ + name,
        Platform::Linux => name,
    }
}

/// The call of a C library function.
pub open spec fn bl_c_line(t: Target, name: Seq<char>) -> Line {
    match t.arch {
        Arch::AArch64 => Line::Instruction("bl "@ + c_symbol(t.platform, name)),
        Arch::X86_64 => Line::Instruction("call "@ + c_symbol(t.platform, name)),
    }
}

/// The AArch64 page-address load of a symbol.
pub open spec fn adrp_line(p: Platform, reg: Seq<char>, sym: Seq<char>) -> Line {
    match p {
        Platform::MacOS => Line::Instruction("adrp "@ + reg + ", "@ + sym + "@PAGE"@),
        Platform::Linux => Line::Instruction("adrp "@ + reg + ", "@ + sym),
    }
}

/// The AArch64 addition of a symbol's in-page offset.
pub open spec fn add_lo12_line(p: Platform, dst: Seq<char>, src: Seq<char>, sym: Seq<char>) -> Line {
    match p {
        Platform::MacOS => Line::Instruction("add "@ + dst + ", "@ + src + ", "@ + sym + "@PAGEOFF"@),
        Platform::Linux => Line::Instruction("add "@ + dst + ", "@ + src + ", :lo12:"@ + sym),
    }
}

/// Comment marker of the assembler dialect of an architecture.
pub open spec fn comment_marker(arch: Arch) -> Seq<char> {
    match arch {
        Arch::AArch64 => "// "@,
        Arch::X86_64 => "# "@,
    }
}

/// The text of one line, newline included.
pub open spec fn line_text(arch: Arch, line: Line) -> Seq<char> {
    match line {
        Line::Instruction(s) => "    "@ + s + "\n"@,
        Line::Label(s) => s + ":\n"@,
        Line::Global(s) => ".globl "@ + s + "\n"@ + s + ":\n"@,
        Line::Comment(s) => "    "@ + comment_marker(arch) + s + "\n"@,
        Line::Blank => "\n"@,
    }
}

/// The text of a listing: the texts of its lines, in order.
pub open spec fn render(arch: Arch, lines: Seq<Line>) -> Seq<char>
    decreases lines.len(),
{
    if lines.len() == 0 {
        Seq::empty()
    } else {
        render(arch, lines.drop_last()) + line_text(arch, lines.last())
    }
}

/// The text of two listings one after the other is the text of the first followed by
/// the text of the second: rendering a block appended to a listing appends its text.
pub proof fn lemma_render_append(arch: Arch, a: Seq<Line>, b: Seq<Line>)
    ensures
        render(arch, a + b) == render(arch, a) + render(arch, b),
    decreases b.len(),
{
    if b.len() == 0 {
        assert(a + b =~= a);
        assert(render(arch, a) + render(arch, b) =~= render(arch, a));
    } else {
        let front = b.drop_last();
        lemma_render_append(arch, a, front);
        assert((a + b).drop_last() =~= a + front);
        assert((a + b).last() == b.last());
        assert(render(arch, a) + render(arch, front) + line_text(arch, b.last()) =~= render(arch, a)
            + (render(arch, front) + line_text(arch, b.last())));
    }
}

/// Appending a concatenation appends its parts in turn.
pub broadcast proof fn lemma_append_assoc(a: Seq<Line>, b: Seq<Line>, c: Seq<Line>)
    ensures
        #[trigger] (a + (b + c)) == (a + b) + c,
{
    assert(a + (b + c) =~= (a + b) + c);
}

/// Appending a sequence that ends in `x` is appending its front, then pushing `x`.
pub broadcast proof fn lemma_append_push(a: Seq<Line>, b: Seq<Line>, x: Line)
    ensures
        #[trigger] (a + b.push(x)) == (a + b).push(x),
{
    assert(a + b.push(x) =~= (a + b).push(x));
}

/// Appending nothing leaves a listing unchanged.
pub broadcast proof fn lemma_append_empty(a: Seq<Line>)
    ensures
        #[trigger] (a + Seq::<Line>::empty()) == a,
{
    assert(a + Seq::<Line>::empty() =~= a);
}

/// The facts that let a chain of appends be matched against a listing written as a
/// concatenation of blocks.
pub broadcast group group_listing {
    lemma_append_assoc,
    lemma_append_push,
    lemma_append_empty,
}

/// Collects assembly lines for one target. Emitting only ever appends.
pub struct Emitter {
    pub target: Target,
    pub lines: Vec<AsmLine>,
}

impl View for Emitter {
    type V = Seq<Line>;

    open spec fn view(&self) -> Seq<Line> {
        self.lines@.map_values(|l: AsmLine| l@)
    }
}

impl Emitter {
    /// Creates an emitter with an empty listing.
    pub fn new(target: Target) -> (e: Emitter)
        ensures
            e.target == target,
            e@ == Seq::<Line>::empty(),
    {
        let e = Emitter { target, lines: Vec::new() };
        assert(e@ =~= Seq::<Line>::empty());
        e
    }

    /// Appends one stored line.
    fn push_line(&mut self, line: AsmLine)
        ensures
            final(self).target == old(self).target,
            final(self)@ == old(self)@.push(line@),
    {
        self.lines.push(line);
        assert(final(self)@ =~= old(self)@.push(line@));
    }

    /// Appends an instruction line.
    pub fn instruction(&mut self, text: &str)
        ensures
            final(self).target == old(self).target,
            final(self)@ == old(self)@.push(Line::Instruction(text@)),
    {
        self.push_line(AsmLine::Instruction(String::from_str(text)));
    }

    /// Appends the instruction `prefix`, decimal `n`, `suffix`.
    pub fn instruction_int(&mut self, prefix: &str, n: i64, suffix: &str)
        ensures
            final(self).target == old(self).target,
            final(self)@ == old(self)@.push(ins_int(prefix, n as int, suffix)),
    {
        let mut s = String::from_str(prefix);
        append_decimal(&mut s, n);
        s.append(suffix);
        self.push_line(AsmLine::Instruction(s));
    }

    /// Appends the instruction `prefix`, decimal `a`, `middle`, decimal `b`, `suffix`.
    pub fn instruction_int2(&mut self, prefix: &str, a: i64, middle: &str, b: i64, suffix: &str)
        ensures
            final(self).target == old(self).target,
            final(self)@ == old(self)@.push(ins_int2(prefix, a as int, middle, b as int, suffix)),
    {
        let mut s = String::from_str(prefix);
        append_decimal(&mut s, a);
        s.append(middle);
        append_decimal(&mut s, b);
        s.append(suffix);
        self.push_line(AsmLine::Instruction(s));
    }

    /// Appends the instruction `prefix` followed by `0x` and the hexadecimal text of `n`.
    pub fn instruction_hex(&mut self, prefix: &str, n: u64)
        ensures
            final(self).target == old(self).target,
            final(self)@ == old(self)@.push(ins_hex(prefix, n as nat)),
    {
        let mut s = String::from_str(prefix);
        s.append("0x");
        append_hex(&mut s, n);
        self.push_line(AsmLine::Instruction(s));
    }

    /// Appends a local label definition.
    pub fn label(&mut self, name: &str)
        ensures
            final(self).target == old(self).target,
            final(self)@ == old(self)@.push(Line::Label(name@)),
    {
        self.push_line(AsmLine::Label(String::from_str(name)));
    }

    /// Appends an exported label definition.
    pub fn label_global(&mut self, name: &str)
        ensures
            final(self).target == old(self).target,
            final(self)@ == old(self)@.push(Line::Global(name@)),
    {
        self.push_line(AsmLine::Global(String::from_str(name)));
    }

    /// Appends a comment line.
    pub fn comment(&mut self, text: &str)
        ensures
            final(self).target == old(self).target,
            final(self)@ == old(self)@.push(Line::Comment(text@)),
    {
        self.push_line(AsmLine::Comment(String::from_str(text)));
    }

    /// Appends an empty line.
    pub fn blank(&mut self)
        ensures
            final(self).target == old(self).target,
            final(self)@ == old(self)@.push(Line::Blank),
    {
        self.push_line(AsmLine::Blank);
    }

    /// Appends a call of the C library function `name`.
    pub fn bl_c(&mut self, name: &str)
        ensures
            final(self).target == old(self).target,
            final(self)@ == old(self)@.push(bl_c_line(old(self).target, name@)),
    {
        let mut s = match self.target.arch {
            Arch::AArch64 => String::from_str("bl "),
            Arch::X86_64 => String::from_str("call "),
        };
        if self.target.platform == Platform::MacOS {
            s.append("_");
        }
        s.append(name);
        proof {
            assert(s@ =~= match self.target.arch {
                Arch::AArch64 => "bl "@ + c_symbol(self.target.platform, name@),
                Arch::X86_64 => "call "@ + c_symbol(self.target.platform, name@),
            });
        }
        self.push_line(AsmLine::Instruction(s));
    }

    /// Appends the AArch64 page-address load of `sym` into `reg`.
    pub fn adrp(&mut self, reg: &str, sym: &str)
        ensures
            final(self).target == old(self).target,
            final(self)@ == old(self)@.push(adrp_line(old(self).target.platform, reg@, sym@)),
    {
        let mut s = String::from_str("adrp ");
        s.append(reg);
        s.append(", ");
        s.append(sym);
        if self.target.platform == Platform::MacOS {
            s.append("@PAGE");
        }
        self.push_line(AsmLine::Instruction(s));
    }

    /// Appends the AArch64 addition of the in-page offset of `sym`.
    pub fn add_lo12(&mut self, dst: &str, src: &str, sym: &str)
        ensures
            final(self).target == old(self).target,
            final(self)@ == old(self)@.push(add_lo12_line(old(self).target.platform, dst@, src@, sym@)),
    {
        let mut s = String::from_str("add ");
        s.append(dst);
        s.append(", ");
        s.append(src);
        if self.target.platform == Platform::MacOS {
            s.append(", ");
            s.append(sym);
            s.append("@PAGEOFF");
        } else {
            s.append(", :lo12:");
            s.append(sym);
        }
        proof {
            assert(Line::Instruction(s@) == add_lo12_line(self.target.platform, dst@, src@, sym@)) by {
                match self.target.platform {
                    Platform::MacOS => {
                        assert(s@ =~= "add "@ + dst@ + ", "@ + src@ + ", "@ + sym@ + "@PAGEOFF"@);
                    },
                    Platform::Linux => {
                        assert(s@ =~= "add "@ + dst@ + ", "@ + src@ + ", :lo12:"@ + sym@);
                    },
                }
            }
        }
        self.push_line(AsmLine::Instruction(s));
    }

    /// Returns the listing's text.
    pub fn output(&self) -> (out: String)
        ensures
            out@ == render(self.target.arch, self@),
    {
        let arch = self.target.arch;
        let mut out = String::new();
        let mut i: usize = 0;
        while i < self.lines.len()
            invariant
                0 <= i <= self.lines.len(),
                arch == self.target.arch,
                out@ == render(arch, self@.take(i as int)),
            decreases self.lines.len() - i,
        {
            let ghost before = out@;
            match &self.lines[i] {
                AsmLine::Instruction(s) => {
                    out.append("    ");
                    out.append(s.as_str());
                    out.append("\n");
                },
                AsmLine::Label(s) => {
                    out.append(s.as_str());
                    out.append(":\n");
                },
                AsmLine::Global(s) => {
                    out.append(".globl ");
                    out.append(s.as_str());
                    out.append("\n");
                    out.append(s.as_str());
                    out.append(":\n");
                },
                AsmLine::Comment(s) => {
                    out.append("    ");
                    match arch {
                        Arch::AArch64 => out.append("// "),
                        Arch::X86_64 => out.append("# "),
                    }
                    out.append(s.as_str());
                    out.append("\n");
                },
                AsmLine::Blank => {
                    out.append("\n");
                },
            }
            proof {
                assert(self@.take(i + 1).drop_last() =~= self@.take(i as int));
                assert(self@[i as int] == self.lines@[i as int]@);
                assert(out@ =~= before + line_text(arch, self@[i as int]));
            }
            i = i + 1;
        }
        assert(self@.take(self.lines.len() as int) =~= self@);
        out
    }
}

} // verus!
