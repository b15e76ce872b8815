//! The one-function prelude behind the three-argument `explode($separator, $string,
//! $limit)` form: the name resolver rewrites such a call to `__elephc_explode_limit(...)`,
//! and this module decides when that function is prepended to a program.
//!
//! - A program is a list of top-level statements; for each the injection reads the
//!   name of the function it declares (if it is a function declaration) and its debug
//!   rendering.
//! - Pay-for-use: the prelude goes in only when some statement's rendering mentions
//!   `explode`. Over-injection is harmless, as the function is self-contained.
//! - A program that declares its own top-level `__elephc_explode_limit` (in any ASCII
//!   case) is left as it is; so is a program that already received the prelude.
//! - The prelude is a hoisted function declaration only, so prepending it does not
//!   change top-level execution order.
//! - Matching is on UTF-8 bytes, as `str::contains` and `str::eq_ignore_ascii_case` match.

use vstd::prelude::*;
use vstd::utf8::encode_utf8;

verus! {

/// The elephc-PHP source of the injected three-argument `explode` backing function.
pub const EXPLODE_PRELUDE_SRC: &'static str = r#"<?php
function __elephc_explode_limit(string $separator, string $string, int $limit): array {
    $all = explode($separator, $string);
    $n = count($all);
    $lim = $limit === 0 ? 1 : $limit;
    if ($lim > 0) {
        if ($lim >= $n) {
            return $all;
        }
        $result = [];
        $j = 0;
        while ($j < $lim - 1) {
            $result[] = $all[$j];
            $j = $j + 1;
        }
        $rest = $all[$lim - 1];
        $j = $lim;
        while ($j < $n) {
            $rest = $rest . $separator . $all[$j];
            $j = $j + 1;
        }
        $result[] = $rest;
        return $result;
    }
    $keep = $n + $lim;
    if ($keep <= 0) {
        return [];
    }
    $result = [];
    $j = 0;
    while ($j < $keep) {
        $result[] = $all[$j];
        $j = $j + 1;
    }
    return $result;
}
"#;

/// `needle` occurs in `hay` as a contiguous run starting at `i`.
pub open spec fn occurs_at(hay: Seq<u8>, needle: Seq<u8>, i: int) -> bool {
    &&& 0 <= i
    &&& i + needle.len() <= hay.len()
    &&& forall|j: int| 0 <= j < needle.len() ==> hay[i + j] == needle[j]
}

/// `needle` occurs somewhere in `hay` (the empty run occurs everywhere).
pub open spec fn contains_bytes(hay: Seq<u8>, needle: Seq<u8>) -> bool {
    exists|i: int| occurs_at(hay, needle, i)
}

/// ASCII lower-casing of one byte; other bytes are unchanged.
pub open spec fn ascii_lower(b: u8) -> u8 {
    if 65 <= b <= 90 {
        (b + 32) as u8
    } else {
        b
    }
}

/// `a` and `b` match when ASCII letters are compared without case.
pub open spec fn eq_ignore_ascii_case(a: Seq<u8>, b: Seq<u8>) -> bool {
    &&& a.len() == b.len()
    &&& forall|i: int| 0 <= i < a.len() ==> ascii_lower(a[i]) == ascii_lower(b[i])
}

/// Lower-cases an ASCII letter byte.
fn ascii_lower_byte(b: u8) -> (r: u8)
    ensures
        r == ascii_lower(b),
{
    if 65 <= b && b <= 90 {
        b + 32
    } else {
        b
    }
}

/// Returns true when `a` and `b` match with ASCII letters compared without case.
fn bytes_eq_ignore_ascii_case(a: &[u8], b: &[u8]) -> (r: bool)
    ensures
        r == eq_ignore_ascii_case(a@, b@),
{
    if a.len() != b.len() {
        return false;
    }
    let mut i: usize = 0;
    while i < a.len()
        invariant
            i <= a@.len(),
            a@.len() == b@.len(),
            forall|k: int| 0 <= k < i ==> ascii_lower(a@[k]) == ascii_lower(b@[k]),
        decreases a@.len() - i,
    {
        if ascii_lower_byte(a[i]) != ascii_lower_byte(b[i]) {
            return false;
        }
        i = i + 1;
    }
    true
}

/// Returns true when `needle` occurs in `hay` starting at `i`.
fn bytes_occur_at(hay: &[u8], needle: &[u8], i: usize) -> (r: bool)
    requires
        i <= hay@.len(),
    ensures
        r == occurs_at(hay@, needle@, i as int),
{
    let hay_len = hay.len();
    if hay_len - i < needle.len() {
        return false;
    }
    let mut j: usize = 0;
    while j < needle.len()
        invariant
            j <= needle@.len(),
            hay@.len() == hay_len,
            i + needle@.len() <= hay@.len(),
            forall|k: int| 0 <= k < j ==> hay@[i + k] == needle@[k],
        decreases needle@.len() - j,
    {
        if hay[i + j] != needle[j] {
            return false;
        }
        j = j + 1;
    }
    true
}

/// Returns true when `needle` occurs somewhere in `hay`.
fn bytes_contain(hay: &[u8], needle: &[u8]) -> (r: bool)
    ensures
        r == contains_bytes(hay@, needle@),
{
    if needle.len() == 0 {
        assert(occurs_at(hay@, needle@, 0));
        return true;
    }
    let mut i: usize = 0;
    while i < hay.len()
        invariant
            i <= hay@.len(),
            needle@.len() > 0,
            forall|k: int| 0 <= k < i ==> !occurs_at(hay@, needle@, k),
        decreases hay@.len() - i,
    {
        if bytes_occur_at(hay, needle, i) {
            return true;
        }
        i = i + 1;
    }
    assert forall|k: int| !occurs_at(hay@, needle@, k) by {
        if 0 <= k < i {
        }
    }
    false
}


/// A top-level statement of a program, as far as the prelude injection reads it.
pub struct TopLevelStmt<S> {
    /// The name of the function the statement declares, when it is a function declaration.
    pub declared_function: Option<String>,
    /// The statement's debug rendering.
    pub rendered: String,
    /// The statement itself.
    pub node: S,
}

/// Some statement's rendering mentions `explode`.
pub open spec fn mentions_explode<S>(program: Seq<TopLevelStmt<S>>) -> bool {
    exists|i: int|
        0 <= i < program.len() && contains_bytes(
            encode_utf8((#[trigger] program[i]).rendered@),
            encode_utf8("explode"@),
        )
}

/// The statement declares a function named `__elephc_explode_limit`, in any ASCII case.
pub open spec fn declares_explode_limit_fn<S>(stmt: TopLevelStmt<S>) -> bool {
    stmt.declared_function matches Some(name) && eq_ignore_ascii_case(
        encode_utf8(name@),
        encode_utf8("__elephc_explode_limit"@),
    )
}

/// Some top-level statement declares `__elephc_explode_limit`.
pub open spec fn declares_explode_limit<S>(program: Seq<TopLevelStmt<S>>) -> bool {
    exists|i: int| 0 <= i < program.len() && declares_explode_limit_fn(#[trigger] program[i])
}

/// The prelude is wanted: the program mentions `explode` and declares no backing
/// function of its own.
pub open spec fn explode_prelude_wanted<S>(program: Seq<TopLevelStmt<S>>) -> bool {
    mentions_explode(program) && !declares_explode_limit(program)
}

/// `stmt` is the injected prelude for the parsed declaration `node`: it declares
/// `__elephc_explode_limit` and renders as the prelude source.
pub open spec fn is_explode_prelude<S>(stmt: TopLevelStmt<S>, node: S) -> bool {
    &&& stmt.declared_function matches Some(name) && name@ == "__elephc_explode_limit"@
    &&& stmt.rendered@ == EXPLODE_PRELUDE_SRC@
    &&& stmt.node == node
}

/// `result` is what injecting the prelude `node` into `program` gives: the prelude
/// followed by the program, in order, when the prelude is wanted, else the program.
pub open spec fn injected<S>(program: Seq<TopLevelStmt<S>>, node: S, result: Seq<TopLevelStmt<S>>) -> bool {
    if explode_prelude_wanted(program) {
        &&& result.len() == program.len() + 1
        &&& is_explode_prelude(result[0], node)
        &&& result.subrange(1, result.len() as int) == program
    } else {
        result == program
    }
}

/// Injection is idempotent: injecting the same prelude into the result of an injection
/// gives that result back, because it already declares `__elephc_explode_limit`.
pub proof fn lemma_injection_is_idempotent<S>(
    program: Seq<TopLevelStmt<S>>,
    node: S,
    once: Seq<TopLevelStmt<S>>,
    twice: Seq<TopLevelStmt<S>>,
)
    requires
        injected(program, node, once),
        injected(once, node, twice),
    ensures
        twice == once,
{
    if explode_prelude_wanted(program) {
        assert(declares_explode_limit_fn(once[0]));
        assert(declares_explode_limit(once));
    }
}

/// Returns true when some statement's rendering mentions `explode`.
fn program_mentions_explode<S>(program: &Vec<TopLevelStmt<S>>) -> (r: bool)
    ensures
        r == mentions_explode(program@),
{
    let needle = "explode".as_bytes();
    let mut i: usize = 0;
    while i < program.len()
        invariant
            i <= program@.len(),
            needle@ == encode_utf8("explode"@),
            forall|k: int|
                0 <= k < i ==> !contains_bytes(encode_utf8((#[trigger] program@[k]).rendered@), needle@),
        decreases program@.len() - i,
    {
        if bytes_contain(program[i].rendered.as_str().as_bytes(), needle) {
            return true;
        }
        i = i + 1;
    }
    false
}

/// Returns true when some statement declares `__elephc_explode_limit` in any ASCII case.
fn program_declares_explode_limit<S>(program: &Vec<TopLevelStmt<S>>) -> (r: bool)
    ensures
        r == declares_explode_limit(program@),
{
    let target = "__elephc_explode_limit".as_bytes();
    let mut i: usize = 0;
    while i < program.len()
        invariant
            i <= program@.len(),
            target@ == encode_utf8("__elephc_explode_limit"@),
            forall|k: int| 0 <= k < i ==> !declares_explode_limit_fn(#[trigger] program@[k]),
        decreases program@.len() - i,
    {
        let declares = match &program[i].declared_function {
            Some(name) => bytes_eq_ignore_ascii_case(name.as_str().as_bytes(), target),
            None => false,
        };
        if declares {
            return true;
        }
        i = i + 1;
    }
    false
}

/// Prepends the prelude when the program mentions `explode` and does not declare its
/// own top-level `__elephc_explode_limit`; otherwise returns the program unchanged.
///
/// `prelude` is the declaration parsed from `EXPLODE_PRELUDE_SRC`; the injected
/// statement declares `__elephc_explode_limit` and renders as that source.
pub fn inject_if_used<S>(program: Vec<TopLevelStmt<S>>, prelude: S) -> (r: Vec<TopLevelStmt<S>>)
    ensures
        injected(program@, prelude, r@),
{
    if !program_mentions_explode(&program) {
        return program;
    }
    if program_declares_explode_limit(&program) {
        return program;
    }
    let stmt = TopLevelStmt {
        declared_function: Some(String::from_str("__elephc_explode_limit")),
        rendered: String::from_str(EXPLODE_PRELUDE_SRC),
        node: prelude,
    };
    let mut result: Vec<TopLevelStmt<S>> = Vec::new();
    result.push(stmt);
    let mut rest = program;
    result.append(&mut rest);
    assert(result@.subrange(1, result@.len() as int) =~= program@);
    result
}

} // verus!
