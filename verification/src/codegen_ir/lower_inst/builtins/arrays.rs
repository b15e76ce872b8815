//! Type check of the indexed-array aggregate builtins (`array_sum`, `array_product`):
//! the runtime helpers read 8-byte integer payloads, so only arrays of int, bool or
//! never elements are accepted. The type given is in its code-generation representation.

use vstd::prelude::*;
use crate::codegen_ir::CodegenIrError;
use crate::types::{PhpType, append_type_text, type_text};

verus! {

/// An indexed array whose element slots hold raw integers: int, bool or never.
pub open spec fn is_supported_indexed_array(ty: PhpType) -> bool {
    ty matches PhpType::Array(elem) && (*elem is Int || *elem is Bool || *elem is Never)
}

/// The diagnostic for an aggregate builtin `name` applied to an unsupported type.
pub open spec fn aggregate_type_message(name: Seq<char>, ty: PhpType) -> Seq<char> {
    name + " for PHP type "@ + type_text(ty)
}

/// Verifies the aggregate can use the raw integer-slot runtime helper.
pub fn require_supported_indexed_array(ty: &PhpType, name: &str) -> (r: Result<(), CodegenIrError>)
    ensures
        r is Ok <==> is_supported_indexed_array(*ty),
        r matches Err(e) ==> e.spec_message() == aggregate_type_message(name@, *ty),
{
    let supported = match ty {
        PhpType::Array(elem) => match &**elem {
            PhpType::Int | PhpType::Bool | PhpType::Never => true,
            _ => false,
        },
        _ => false,
    };
    if supported {
        Ok(())
    } else {
        let mut message = String::from_str(name);
        message.append(" for PHP type ");
        append_type_text(&mut message, ty);
        Err(CodegenIrError::unsupported(message))
    }
}

} // verus!
