//! Scalar equality lowering of the IR backend: which comparison a strict or loose
//! (in)equality lowers to for its operand types, the condition-code suffixes, the
//! PHP types that take the integer comparison path, and the truthiness and
//! boolean-literal materializations.
//!
//! - Strict equality respects static PHP type identity before comparing payloads.
//! - Loose equality is limited to scalar int/bool/null and string-vs-string cases
//!   until mixed numeric/string coercions are lowered.

use vstd::prelude::*;
use crate::codegen::platform::{Arch, Target};
use crate::codegen::emit::{Emitter, Line};
use crate::codegen::abi::{emit_load_int_immediate, int_result_reg, load_int_immediate, spec_int_result_reg};
use crate::codegen_ir::CodegenIrError;
use crate::types::{PhpType, same_type, type_text, append_type_text};

verus! {

/// The condition-code suffix that tests equality (`is_equal`) or inequality on `arch`.
pub open spec fn spec_equality_cond(is_equal: bool, arch: Arch) -> Seq<char> {
    match arch {
        Arch::AArch64 => if is_equal { "eq"@ } else { "ne"@ },
        Arch::X86_64 => if is_equal { "e"@ } else { "ne"@ },
    }
}

/// Returns the target condition-code suffix for equality or inequality.
pub fn equality_cond(is_equal: bool, arch: Arch) -> (r: &'static str)
    ensures
        r@ == spec_equality_cond(is_equal, arch),
{
    match (is_equal, arch) {
        (true, Arch::AArch64) => "eq",
        (false, Arch::AArch64) => "ne",
        (true, Arch::X86_64) => "e",
        (false, Arch::X86_64) => "ne",
    }
}

/// The scalar types that take the integer equality path: int, bool and the null types.
pub open spec fn spec_intish_or_null(ty: PhpType) -> bool {
    ty is Int || ty is Bool || ty is Void || ty is Never
}

/// Returns true for scalar values that can participate in the loose integer path.
pub fn intish_or_null(ty: &PhpType) -> (r: bool)
    ensures
        r == spec_intish_or_null(*ty),
{
    match ty {
        PhpType::Int | PhpType::Bool | PhpType::Void | PhpType::Never => true,
        _ => false,
    }
}

/// Lines that rewrite `reg` to 1 when it is nonzero and to 0 otherwise.
pub open spec fn reg_nonzero_bool(t: Target, reg: Seq<char>) -> Seq<Line> {
    match t.arch {
        Arch::AArch64 => seq![
            Line::Instruction("cmp "@ + reg + ", #0"@),
            Line::Instruction("cset "@ + reg + ", ne"@),
        ],
        Arch::X86_64 => seq![
            Line::Instruction("test "@ + reg + ", "@ + reg),
            Line::Instruction("setne al"@),
            Line::Instruction("movzx "@ + reg + ", al"@),
        ],
    }
}

/// Rewrites `reg` to 1 when nonzero and 0 otherwise.
pub fn emit_reg_nonzero_bool(emitter: &mut Emitter, reg: &str)
    ensures
        final(emitter).target == old(emitter).target,
        final(emitter)@ == old(emitter)@ + reg_nonzero_bool(old(emitter).target, reg@),
{
    match emitter.target.arch {
        Arch::AArch64 => {
            let mut s = String::from_str("cmp ");
            s.append(reg);
            s.append(", #0");
            emitter.instruction(s.as_str());
            let mut s = String::from_str("cset ");
            s.append(reg);
            s.append(", ne");
            emitter.instruction(s.as_str());
        },
        Arch::X86_64 => {
            let mut s = String::from_str("test ");
            s.append(reg);
            s.append(", ");
            s.append(reg);
            emitter.instruction(s.as_str());
            emitter.instruction("setne al");
            let mut s = String::from_str("movzx ");
            s.append(reg);
            s.append(", al");
            emitter.instruction(s.as_str());
        },
    }
    assert(final(emitter)@ =~= old(emitter)@ + reg_nonzero_bool(old(emitter).target, reg@));
}

/// Lines that put the boolean `value` (1 or 0) into the integer result register.
pub open spec fn bool_literal(t: Target, value: bool) -> Seq<Line> {
    load_int_immediate(t, spec_int_result_reg(t.arch), if value { 1 } else { 0 })
}

/// Emits a concrete boolean value into the integer result register.
pub fn emit_bool_literal(emitter: &mut Emitter, value: bool)
    ensures
        final(emitter).target == old(emitter).target,
        final(emitter)@ == old(emitter)@ + bool_literal(old(emitter).target, value),
{
    let reg = int_result_reg(emitter);
    let n: i64 = if value { 1 } else { 0 };
    emit_load_int_immediate(emitter, reg, n);
}

/// How an (in)equality between two operands is lowered.
#[derive(Debug, PartialEq, Eq, Structural)]
pub enum EqualityLowering {
    /// The result is known from the types alone: this boolean literal.
    Constant(bool),
    /// An integer compare of both operands; with `truthiness`, each is first coerced to
    /// 0 or 1.
    IntishCompare { truthiness: bool },
    /// A floating-point compare.
    FloatCompare,
    /// A call of the runtime string-equality helper `__rt_str_eq`, or `__rt_str_loose_eq`
    /// when `loose`, inverted for inequality.
    StringEqCall { loose: bool },
}

/// The diagnostic for strict (in)equality `op_name` on an unsupported type.
pub open spec fn strict_eq_message(op_name: Seq<char>, ty: PhpType) -> Seq<char> {
    op_name + " for PHP type "@ + type_text(ty)
}

/// The diagnostic for loose (in)equality `op_name` on an unsupported pair of types.
pub open spec fn loose_eq_message(op_name: Seq<char>, lhs: PhpType, rhs: PhpType) -> Seq<char> {
    op_name + " for PHP types "@ + type_text(lhs) + " and "@ + type_text(rhs)
}

/// Decides how strict equality (`is_equal`) or inequality between operands of types
/// `lhs_ty` and `rhs_ty` lowers: operands of different types give the constant
/// `!is_equal`; int-like types an integer compare; floats a float compare; strings the
/// strict string helper; any other type is unsupported.
pub fn lower_strict_eq(op_name: &str, lhs_ty: &PhpType, rhs_ty: &PhpType, is_equal: bool) -> (r: Result<EqualityLowering, CodegenIrError>)
    ensures
        !same_type(*lhs_ty, *rhs_ty) ==> (r matches Ok(EqualityLowering::Constant(b)) && b == !is_equal),
        same_type(*lhs_ty, *rhs_ty) ==> {
            if spec_intish_or_null(*lhs_ty) {
                r matches Ok(EqualityLowering::IntishCompare { truthiness }) && !truthiness
            } else if lhs_ty is Float {
                r matches Ok(EqualityLowering::FloatCompare)
            } else if lhs_ty is Str {
                r matches Ok(EqualityLowering::StringEqCall { loose }) && !loose
            } else {
                r matches Err(e) && e.spec_message() == strict_eq_message(op_name@, *lhs_ty)
            }
        },
{
    if !lhs_ty.same_as(rhs_ty) {
        return Ok(EqualityLowering::Constant(!is_equal));
    }
    match lhs_ty {
        PhpType::Int | PhpType::Bool | PhpType::Void | PhpType::Never => Ok(EqualityLowering::IntishCompare { truthiness: false }),
        PhpType::Float => Ok(EqualityLowering::FloatCompare),
        PhpType::Str => Ok(EqualityLowering::StringEqCall { loose: false }),
        _ => {
            let mut message = String::from_str(op_name);
            message.append(" for PHP type ");
            append_type_text(&mut message, lhs_ty);
            Err(CodegenIrError::unsupported(message))
        },
    }
}

/// Decides how loose equality or inequality lowers: two strings call the loose string
/// helper; two int-like or null operands take the integer compare, through truthiness
/// when either side is a bool; any other pair is unsupported.
pub fn lower_loose_eq(op_name: &str, lhs_ty: &PhpType, rhs_ty: &PhpType) -> (r: Result<EqualityLowering, CodegenIrError>)
    ensures
        if lhs_ty is Str && rhs_ty is Str {
            r matches Ok(EqualityLowering::StringEqCall { loose }) && loose
        } else if spec_intish_or_null(*lhs_ty) && spec_intish_or_null(*rhs_ty) {
            r matches Ok(EqualityLowering::IntishCompare { truthiness })
                && truthiness == (lhs_ty is Bool || rhs_ty is Bool)
        } else {
            r matches Err(e) && e.spec_message() == loose_eq_message(op_name@, *lhs_ty, *rhs_ty)
        },
{
    let both_str = match (lhs_ty, rhs_ty) {
        (PhpType::Str, PhpType::Str) => true,
        _ => false,
    };
    if both_str {
        return Ok(EqualityLowering::StringEqCall { loose: true });
    }
    if intish_or_null(lhs_ty) && intish_or_null(rhs_ty) {
        let lhs_bool = match lhs_ty {
            PhpType::Bool => true,
            _ => false,
        };
        let rhs_bool = match rhs_ty {
            PhpType::Bool => true,
            _ => false,
        };
        return Ok(EqualityLowering::IntishCompare { truthiness: lhs_bool || rhs_bool });
    }
    let mut message = String::from_str(op_name);
    message.append(" for PHP types ");
    append_type_text(&mut message, lhs_ty);
    message.append(" and ");
    append_type_text(&mut message, rhs_ty);
    Err(CodegenIrError::unsupported(message))
}

/// The runtime helper a string (in)equality calls.
pub open spec fn spec_string_eq_helper(loose: bool) -> Seq<char> {
    if loose {
        "__rt_str_loose_eq"@
    } else {
        "__rt_str_eq"@
    }
}

/// Returns the runtime string-equality helper: loose or strict.
pub fn string_eq_helper(loose: bool) -> (r: &'static str)
    ensures
        r@ == spec_string_eq_helper(loose),
{
    if loose {
        "__rt_str_loose_eq"
    } else {
        "__rt_str_eq"
    }
}

} // verus!
