//! The IR-consuming assembly backend: its error type, its entry point, and the
//! small lowering helpers that depend on the target and the emitter alone.
//!
//! The backend is a scaffold: its entry point reports that lowering is not
//! implemented yet, so callers fall back to the AST backend.

pub mod lower_inst;

use vstd::prelude::*;

verus! {

/// The diagnostic the scaffolded backend reports for every module.
pub open spec fn not_implemented_message() -> Seq<char> {
    "EIR backend is not implemented yet; use the default AST backend"@
}

/// Error returned by the IR backend while a required lowering path is missing.
#[derive(Debug, Clone, PartialEq, Eq)]
pub struct CodegenIrError {
    message: String,
}

impl CodegenIrError {
    /// The diagnostic text carried by the error.
    pub closed spec fn spec_message(&self) -> Seq<char> {
        self.message@
    }

    /// Creates the error of the scaffold, before instruction lowering exists.
    fn phase04_not_implemented() -> (e: Self)
        ensures
            e.spec_message() == not_implemented_message(),
    {
        CodegenIrError {
            message: String::from_str("EIR backend is not implemented yet; use the default AST backend"),
        }
    }

    /// Creates the error for a lowering path that this backend does not support yet.
    pub fn unsupported(message: String) -> (e: Self)
        ensures
            e.spec_message() == message@,
    {
        CodegenIrError { message }
    }

    /// The diagnostic text, as the command line prints it.
    pub fn message(&self) -> (r: &str)
        ensures
            r@ == self.spec_message(),
    {
        self.message.as_str()
    }

    /// The diagnostic text as an owned string (the error's display form).
    pub fn to_string(&self) -> (r: String)
        ensures
            r@ == self.spec_message(),
    {
        self.message.clone()
    }
}

/// Generates user-code assembly from a lowered EIR module.
///
/// The backend is scaffolded but cannot emit code yet: every module, whatever the
/// flags, is answered with the not-implemented error.
pub fn generate_user_asm_from_ir<M>(
    _module: &M,
    _gc_stats: bool,
    _heap_debug: bool,
) -> (r: Result<String, CodegenIrError>)
    ensures
        r is Err,
        r matches Err(e) && e.spec_message() == not_implemented_message(),
{
    Err(CodegenIrError::phase04_not_implemented())
}

} // verus!
