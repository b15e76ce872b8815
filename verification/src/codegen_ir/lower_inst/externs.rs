//! Helpers of the scalar extern-call lowering: which types an extern declaration may
//! use, the C ABI type of a parameter, the stack bytes of a materialized argument,
//! argument type compatibility and the widening of a C `int` return.
//!
//! Types given to these helpers are in their code-generation representation (what
//! `codegen_repr` makes of a declared type); the caller applies that mapping.

use vstd::prelude::*;
use crate::codegen::emit::{Emitter, Line};
use crate::codegen::platform::{Arch, Target};
use crate::codegen_ir::CodegenIrError;
use crate::types::{PhpType, same_type, type_text, append_type_text};

verus! {

/// Two scalar extern ABI types can be passed without conversion: any two pointers, or
/// equal types.
pub open spec fn spec_extern_codegen_types_match(expected: PhpType, actual: PhpType) -> bool {
    (expected is Pointer && actual is Pointer) || same_type(expected, actual)
}

/// Returns true when two scalar extern ABI types can be passed without extra conversion.
pub fn extern_codegen_types_match(expected: &PhpType, actual: &PhpType) -> (r: bool)
    ensures
        r == spec_extern_codegen_types_match(*expected, *actual),
{
    match (expected, actual) {
        (PhpType::Pointer(_), PhpType::Pointer(_)) => true,
        _ => expected.same_as(actual),
    }
}

/// The line that sign-extends a C `int` return into the 64-bit integer result register.
pub open spec fn sign_extend_i32_result(t: Target) -> Line {
    match t.arch {
        Arch::AArch64 => Line::Instruction("sxtw x0, w0"@),
        Arch::X86_64 => Line::Instruction("movsxd rax, eax"@),
    }
}

/// Sign-extends a C `int` return into the target integer result register.
pub fn emit_sign_extend_i32_result(emitter: &mut Emitter)
    ensures
        final(emitter).target == old(emitter).target,
        final(emitter)@ == old(emitter)@.push(sign_extend_i32_result(old(emitter).target)),
{
    match emitter.target.arch {
        Arch::AArch64 => {
            emitter.instruction("sxtw x0, w0");
        },
        Arch::X86_64 => {
            emitter.instruction("movsxd rax, eax");
        },
    }
}

/// A parameter of an extern declaration: its name and its type.
pub struct ExternParamDecl {
    pub name: String,
    pub php_type: PhpType,
}

/// An extern (C) function declaration: its name, parameters and return type.
pub struct ExternDecl {
    pub name: String,
    pub params: Vec<ExternParamDecl>,
    pub return_php_type: PhpType,
}

/// The scalar types an extern declaration may use: int, bool, float, string, void and
/// pointers.
pub open spec fn extern_type_supported(ty: PhpType) -> bool {
    ty is Int || ty is Bool || ty is Float || ty is Str || ty is Void || ty is Pointer
}

/// The diagnostic for an unsupported extern type at `position` (`parameter` or `return`).
pub open spec fn extern_type_message(name: Seq<char>, ty: PhpType, position: Seq<char>) -> Seq<char> {
    "extern "@ + name + " "@ + position + " type "@ + type_text(ty)
}

/// Validates one extern-facing type against the scalar subset this lowering supports.
pub fn validate_supported_extern_type(name: &str, ty: &PhpType, position: &str) -> (r: Result<(), CodegenIrError>)
    ensures
        r is Ok <==> extern_type_supported(*ty),
        r matches Err(e) ==> e.spec_message() == extern_type_message(name@, *ty, position@),
{
    match ty {
        PhpType::Int | PhpType::Bool | PhpType::Float | PhpType::Str | PhpType::Void | PhpType::Pointer(_) => Ok(()),
        _ => {
            let mut message = String::from_str("extern ");
            message.append(name);
            message.append(" ");
            message.append(position);
            message.append(" type ");
            append_type_text(&mut message, ty);
            Err(CodegenIrError::unsupported(message))
        },
    }
}

/// The parameter at `i` is the first one whose type is unsupported.
pub open spec fn first_unsupported_param(params: Seq<ExternParamDecl>, i: int) -> bool {
    &&& 0 <= i < params.len()
    &&& !extern_type_supported(params[i].php_type)
    &&& forall|j: int| 0 <= j < i ==> extern_type_supported(#[trigger] params[j].php_type)
}

/// Every parameter type of `params` is supported.
pub open spec fn params_supported(params: Seq<ExternParamDecl>) -> bool {
    forall|j: int| 0 <= j < params.len() ==> extern_type_supported(#[trigger] params[j].php_type)
}

/// Rejects extern declarations whose parameter or return types this lowering does not
/// support: the first unsupported parameter is reported, else an unsupported return.
pub fn validate_extern_shape(decl: &ExternDecl) -> (r: Result<(), CodegenIrError>)
    ensures
        r is Ok <==> params_supported(decl.params@) && extern_type_supported(decl.return_php_type),
        r matches Err(e) ==> {
            ||| exists|i: int|
                #[trigger] first_unsupported_param(decl.params@, i) && e.spec_message()
                    == extern_type_message(decl.name@, decl.params@[i].php_type, "parameter"@)
            ||| params_supported(decl.params@) && e.spec_message() == extern_type_message(
                decl.name@,
                decl.return_php_type,
                "return"@,
            )
        },
{
    let mut i: usize = 0;
    while i < decl.params.len()
        invariant
            i <= decl.params@.len(),
            forall|j: int| 0 <= j < i ==> extern_type_supported(#[trigger] decl.params@[j].php_type),
        decreases decl.params@.len() - i,
    {
        let checked = validate_supported_extern_type(decl.name.as_str(), &decl.params[i].php_type, "parameter");
        match checked {
            Ok(()) => {},
            Err(e) => {
                assert(first_unsupported_param(decl.params@, i as int));
                return Err(e);
            },
        }
        i = i + 1;
    }
    validate_supported_extern_type(decl.name.as_str(), &decl.return_php_type, "return")
}

/// Returns the C ABI type of an extern parameter: strings pass as C string pointers,
/// other types as they are.
pub fn c_abi_param_type(param: &ExternParamDecl) -> (r: PhpType)
    ensures
        param.php_type is Str ==> r matches PhpType::Pointer(None),
        !(param.php_type is Str) ==> same_type(r, param.php_type),
{
    match &param.php_type {
        PhpType::Str => PhpType::Pointer(None),
        other => other.duplicate(),
    }
}

/// The temporary stack bytes one materialized extern argument of type `ty` takes.
pub open spec fn spec_temp_slot_size(ty: PhpType) -> nat {
    if ty is Void || ty is Never {
        0
    } else {
        16
    }
}

/// Returns the temporary stack bytes used by one pre-materialized extern argument.
pub fn temp_slot_size(ty: &PhpType) -> (r: usize)
    ensures
        r == spec_temp_slot_size(*ty),
{
    match ty {
        PhpType::Void | PhpType::Never => 0,
        _ => 16,
    }
}

} // verus!
