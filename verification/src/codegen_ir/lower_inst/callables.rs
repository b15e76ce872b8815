//! Helpers of the runtime string callable dispatch: which user functions can stand
//! behind a call's result, and the assembly-label-safe form of a function name.

use vstd::prelude::*;
use crate::types::{PhpType, same_type};

verus! {

/// ASCII letters and digits.
pub open spec fn is_ascii_alphanumeric(c: char) -> bool {
    ('0' <= c && c <= '9') || ('a' <= c && c <= 'z') || ('A' <= c && c <= 'Z')
}

/// The label-safe form of a name: each ASCII letter or digit is kept and every other
/// character becomes `_`.
pub open spec fn spec_label_fragment(value: Seq<char>) -> Seq<char> {
    value.map_values(|c: char| if is_ascii_alphanumeric(c) { c } else { '_' })
}

/// Converts arbitrary PHP function names into assembly-label-safe fragments.
pub fn label_fragment(value: &str) -> (r: String)
    ensures
        r@ == spec_label_fragment(value@),
{
    let n = value.unicode_len();
    let mut out = String::new();
    let mut i: usize = 0;
    proof {
        reveal_strlit("_");
    }
    while i < n
        invariant
            i <= n,
            n == value@.len(),
            "_"@ == seq!['_'],
            out@ == spec_label_fragment(value@.take(i as int)),
        decreases n - i,
    {
        let c = value.get_char(i);
        let code = c as u32;
        let keep = (48 <= code && code <= 57) || (97 <= code && code <= 122) || (65 <= code && code
            <= 90);
        assert(keep == is_ascii_alphanumeric(c));
        if keep {
            out.append(value.substring_char(i, i + 1));
        } else {
            out.append("_");
        }
        assert(value@.take(i + 1) =~= value@.take(i as int).push(c));
        assert(spec_label_fragment(value@.take(i + 1)) =~= spec_label_fragment(value@.take(i as int)).push(
            if is_ascii_alphanumeric(c) { c } else { '_' },
        ));
        i = i + 1;
    }
    assert(value@.take(n as int) =~= value@);
    out
}

/// A label fragment is as long as the name, in characters, and holds only ASCII letters,
/// digits and `_`: it can stand inside an assembly label.
pub proof fn lemma_label_fragment_is_label_safe(value: Seq<char>)
    ensures
        spec_label_fragment(value).len() == value.len(),
        forall|i: int|
            0 <= i < value.len() ==> is_ascii_alphanumeric(#[trigger] spec_label_fragment(value)[i])
                || spec_label_fragment(value)[i] == '_',
{
}

/// A user function returning `return_ty` can be stored into a call result of type
/// `result_ty`: the same type, or a result slot that holds any value (`Mixed` or a union).
pub open spec fn spec_runtime_string_result_type_supported(result_ty: PhpType, return_ty: PhpType) -> bool {
    same_type(result_ty, return_ty) || result_ty is Mixed || result_ty is Union
}

/// Returns true when the selected runtime function can be stored into the EIR result.
pub fn runtime_string_result_type_supported(result_ty: &PhpType, return_ty: &PhpType) -> (r: bool)
    ensures
        r == spec_runtime_string_result_type_supported(*result_ty, *return_ty),
{
    result_ty.same_as(return_ty) || match result_ty {
        PhpType::Mixed | PhpType::Union(_) => true,
        _ => false,
    }
}

} // verus!
