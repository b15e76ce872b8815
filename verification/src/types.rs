//! The PHP static types that the code generator dispatches on.

use vstd::prelude::*;

verus! {

/// A PHP type as the code generator sees it.
pub enum PhpType {
    Int,
    Float,
    Str,
    Bool,
    Void,
    Never,
    Mixed,
    Array(Box<PhpType>),
    Object(String),
    Union(Vec<PhpType>),
    Pointer(Option<String>),
}

/// Two optional names are equal: both absent, or both present with the same text.
pub open spec fn same_name(a: Option<String>, b: Option<String>) -> bool {
    match (a, b) {
        (None, None) => true,
        (Some(x), Some(y)) => x@ == y@,
        _ => false,
    }
}

/// Two types are equal: the same variant, the same names by their text, and equal
/// element and member types, member by member in order.
pub open spec fn same_type(a: PhpType, b: PhpType) -> bool
    decreases a, 1nat,
{
    match (a, b) {
        (PhpType::Int, PhpType::Int) => true,
        (PhpType::Float, PhpType::Float) => true,
        (PhpType::Str, PhpType::Str) => true,
        (PhpType::Bool, PhpType::Bool) => true,
        (PhpType::Void, PhpType::Void) => true,
        (PhpType::Never, PhpType::Never) => true,
        (PhpType::Mixed, PhpType::Mixed) => true,
        (PhpType::Array(x), PhpType::Array(y)) => same_type(*x, *y),
        (PhpType::Object(x), PhpType::Object(y)) => x@ == y@,
        (PhpType::Union(xs), PhpType::Union(ys)) => {
            proof {
                assert(decreases_to!(a => xs));
            }
            same_types(xs@, ys@)
        },
        (PhpType::Pointer(x), PhpType::Pointer(y)) => same_name(x, y),
        _ => false,
    }
}

/// Two lists of types are equal member by member, in order.
pub open spec fn same_types(xs: Seq<PhpType>, ys: Seq<PhpType>) -> bool
    decreases xs, 0nat,
{
    if xs.len() == 0 {
        ys.len() == 0
    } else if ys.len() == 0 {
        false
    } else {
        same_type(xs[0], ys[0]) && same_types(xs.subrange(1, xs.len() as int), ys.subrange(1, ys.len() as int))
    }
}

/// Lists of types are equal exactly when they have the same length and equal members
/// at each position.
pub proof fn lemma_same_types_pointwise(xs: Seq<PhpType>, ys: Seq<PhpType>)
    ensures
        same_types(xs, ys) <==> (xs.len() == ys.len() && forall|i: int|
            0 <= i < xs.len() ==> #[trigger] same_type(xs[i], ys[i])),
    decreases xs.len(),
{
    if xs.len() > 0 && ys.len() > 0 {
        let xt = xs.subrange(1, xs.len() as int);
        let yt = ys.subrange(1, ys.len() as int);
        lemma_same_types_pointwise(xt, yt);
        if xs.len() == ys.len() && (forall|i: int| 0 <= i < xs.len() ==> #[trigger] same_type(xs[i], ys[i])) {
            assert(same_type(xs[0], ys[0]));
            assert forall|i: int| 0 <= i < xt.len() implies #[trigger] same_type(xt[i], yt[i]) by {
                assert(same_type(xs[i + 1], ys[i + 1]));
            }
        }
        if same_types(xs, ys) {
            assert forall|i: int| 0 <= i < xs.len() implies #[trigger] same_type(xs[i], ys[i]) by {
                if i > 0 {
                    assert(same_type(xt[i - 1], yt[i - 1]));
                }
            }
        }
    }
}

/// Type equality is reflexive: every type equals itself.
pub proof fn lemma_same_type_reflexive(a: PhpType)
    ensures
        same_type(a, a),
    decreases a, 1nat,
{
    match a {
        PhpType::Array(x) => lemma_same_type_reflexive(*x),
        PhpType::Union(xs) => {
            assert(decreases_to!(a => xs));
            lemma_same_types_reflexive(xs@);
        },
        _ => {},
    }
}

/// Every list of types equals itself member by member.
proof fn lemma_same_types_reflexive(xs: Seq<PhpType>)
    ensures
        same_types(xs, xs),
    decreases xs, 0nat,
{
    if xs.len() > 0 {
        lemma_same_type_reflexive(xs[0]);
        lemma_same_types_reflexive(xs.subrange(1, xs.len() as int));
    }
}

/// Type equality is symmetric.
pub proof fn lemma_same_type_symmetric(a: PhpType, b: PhpType)
    requires
        same_type(a, b),
    ensures
        same_type(b, a),
    decreases a, 1nat,
{
    match (a, b) {
        (PhpType::Array(x), PhpType::Array(y)) => lemma_same_type_symmetric(*x, *y),
        (PhpType::Union(xs), PhpType::Union(ys)) => {
            assert(decreases_to!(a => xs));
            lemma_same_types_symmetric(xs@, ys@);
        },
        _ => {},
    }
}

/// Member-by-member equality of type lists is symmetric.
proof fn lemma_same_types_symmetric(xs: Seq<PhpType>, ys: Seq<PhpType>)
    requires
        same_types(xs, ys),
    ensures
        same_types(ys, xs),
    decreases xs, 0nat,
{
    if xs.len() > 0 {
        lemma_same_type_symmetric(xs[0], ys[0]);
        lemma_same_types_symmetric(xs.subrange(1, xs.len() as int), ys.subrange(1, ys.len() as int));
    }
}

/// Type equality is transitive.
pub proof fn lemma_same_type_transitive(a: PhpType, b: PhpType, c: PhpType)
    requires
        same_type(a, b),
        same_type(b, c),
    ensures
        same_type(a, c),
    decreases a, 1nat,
{
    match (a, b, c) {
        (PhpType::Array(x), PhpType::Array(y), PhpType::Array(z)) => lemma_same_type_transitive(*x, *y, *z),
        (PhpType::Union(xs), PhpType::Union(ys), PhpType::Union(zs)) => {
            assert(decreases_to!(a => xs));
            lemma_same_types_transitive(xs@, ys@, zs@);
        },
        _ => {},
    }
}

/// Member-by-member equality of type lists is transitive.
proof fn lemma_same_types_transitive(xs: Seq<PhpType>, ys: Seq<PhpType>, zs: Seq<PhpType>)
    requires
        same_types(xs, ys),
        same_types(ys, zs),
    ensures
        same_types(xs, zs),
    decreases xs, 0nat,
{
    if xs.len() > 0 {
        lemma_same_type_transitive(xs[0], ys[0], zs[0]);
        lemma_same_types_transitive(
            xs.subrange(1, xs.len() as int),
            ys.subrange(1, ys.len() as int),
            zs.subrange(1, zs.len() as int),
        );
    }
}

/// The debug text of a type, in the form `Debug` gives the enum: `Int`, `Array(Str)`,
/// `Object("Foo")`, `Union([Int, Str])`, `Pointer(None)`, `Pointer(Some("FILE"))`. Names
/// are written between quotes as they are, without escapes.
pub open spec fn type_text(ty: PhpType) -> Seq<char>
    decreases ty, 1nat,
{
    match ty {
        PhpType::Int => "Int"@,
        PhpType::Float => "Float"@,
        PhpType::Str => "Str"@,
        PhpType::Bool => "Bool"@,
        PhpType::Void => "Void"@,
        PhpType::Never => "Never"@,
        PhpType::Mixed => "Mixed"@,
        PhpType::Array(x) => "Array("@ + type_text(*x) + ")"@,
        PhpType::Object(n) => "Object(\""@ + n@ + "\")"@,
        PhpType::Union(xs) => {
            proof {
                assert(decreases_to!(ty => xs));
            }
            "Union(["@ + types_text(xs@) + "])"@
        },
        PhpType::Pointer(None) => "Pointer(None)"@,
        PhpType::Pointer(Some(n)) => "Pointer(Some(\""@ + n@ + "\"))"@,
    }
}

/// The debug texts of a list of types, separated by `, `.
pub open spec fn types_text(xs: Seq<PhpType>) -> Seq<char>
    decreases xs, 0nat,
{
    if xs.len() == 0 {
        Seq::empty()
    } else if xs.len() == 1 {
        type_text(xs[0])
    } else {
        types_text(xs.subrange(0, xs.len() - 1)) + ", "@ + type_text(xs[xs.len() - 1])
    }
}

/// Appends the debug text of `ty` to `out`.
pub fn append_type_text(out: &mut String, ty: &PhpType)
    ensures
        final(out)@ == old(out)@ + type_text(*ty),
    decreases *ty, 1nat,
{
    match ty {
        PhpType::Int => out.append("Int"),
        PhpType::Float => out.append("Float"),
        PhpType::Str => out.append("Str"),
        PhpType::Bool => out.append("Bool"),
        PhpType::Void => out.append("Void"),
        PhpType::Never => out.append("Never"),
        PhpType::Mixed => out.append("Mixed"),
        PhpType::Array(x) => {
            out.append("Array(");
            append_type_text(out, &**x);
            out.append(")");
        },
        PhpType::Object(n) => {
            out.append("Object(\"");
            out.append(n.as_str());
            out.append("\")");
        },
        PhpType::Union(xs) => {
            proof {
                assert(decreases_to!(*ty => *xs));
            }
            out.append("Union([");
            append_types_text(out, xs);
            out.append("])");
        },
        PhpType::Pointer(None) => out.append("Pointer(None)"),
        PhpType::Pointer(Some(n)) => {
            out.append("Pointer(Some(\"");
            out.append(n.as_str());
            out.append("\"))");
        },
    }
    assert(final(out)@ =~= old(out)@ + type_text(*ty));
}

/// Appends the debug texts of `xs`, separated by `, `.
fn append_types_text(out: &mut String, xs: &Vec<PhpType>)
    ensures
        final(out)@ == old(out)@ + types_text(xs@),
    decreases *xs, 0nat,
{
    let ghost start = out@;
    let mut i: usize = 0;
    assert(xs@.subrange(0, 0) =~= Seq::<PhpType>::empty());
    while i < xs.len()
        invariant
            i <= xs@.len(),
            out@ == start + types_text(xs@.subrange(0, i as int)),
        decreases xs@.len() - i,
    {
        proof {
            assert(decreases_to!(*xs => xs@[i as int]));
        }
        if i > 0 {
            out.append(", ");
        }
        append_type_text(out, &xs[i]);
        let ghost front = xs@.subrange(0, i as int);
        let ghost next = xs@.subrange(0, i + 1);
        assert(next.subrange(0, next.len() - 1) =~= front);
        assert(next[next.len() - 1] == xs@[i as int]);
        if i == 0 {
            assert(out@ =~= start + types_text(next));
        } else {
            assert(out@ =~= start + types_text(next));
        }
        i = i + 1;
    }
    assert(xs@.subrange(0, xs@.len() as int) =~= xs@);
}

impl PhpType {

    /// Returns a copy of the type, equal to it (see `same_type`).
    pub fn duplicate(&self) -> (r: PhpType)
        ensures
            same_type(r, *self),
        decreases *self, 1nat,
    {
        match self {
            PhpType::Int => PhpType::Int,
            PhpType::Float => PhpType::Float,
            PhpType::Str => PhpType::Str,
            PhpType::Bool => PhpType::Bool,
            PhpType::Void => PhpType::Void,
            PhpType::Never => PhpType::Never,
            PhpType::Mixed => PhpType::Mixed,
            PhpType::Array(x) => PhpType::Array(Box::new((**x).duplicate())),
            PhpType::Object(n) => PhpType::Object(n.clone()),
            PhpType::Union(xs) => {
                proof {
                    assert(decreases_to!(*self => *xs));
                }
                PhpType::Union(duplicate_types(xs))
            },
            PhpType::Pointer(None) => PhpType::Pointer(None),
            PhpType::Pointer(Some(n)) => PhpType::Pointer(Some(n.clone())),
        }
    }
    /// Returns true when the two types are equal (see `same_type`).
    pub fn same_as(&self, other: &PhpType) -> (r: bool)
        ensures
            r == same_type(*self, *other),
        decreases *self, 1nat,
    {
        match (self, other) {
            (PhpType::Int, PhpType::Int) => true,
            (PhpType::Float, PhpType::Float) => true,
            (PhpType::Str, PhpType::Str) => true,
            (PhpType::Bool, PhpType::Bool) => true,
            (PhpType::Void, PhpType::Void) => true,
            (PhpType::Never, PhpType::Never) => true,
            (PhpType::Mixed, PhpType::Mixed) => true,
            (PhpType::Array(x), PhpType::Array(y)) => (**x).same_as(&**y),
            (PhpType::Object(x), PhpType::Object(y)) => *x == *y,
            (PhpType::Union(xs), PhpType::Union(ys)) => {
                proof {
                    assert(decreases_to!(*self => *xs));
                }
                same_type_vecs(xs, ys)
            },
            (PhpType::Pointer(x), PhpType::Pointer(y)) => match (x, y) {
                (None, None) => true,
                (Some(a), Some(b)) => *a == *b,
                _ => false,
            },
            _ => false,
        }
    }
}

/// Returns true when the two lists of types are equal member by member.
fn same_type_vecs(xs: &Vec<PhpType>, ys: &Vec<PhpType>) -> (r: bool)
    ensures
        r == same_types(xs@, ys@),
    decreases *xs, 0nat,
{
    proof {
        lemma_same_types_pointwise(xs@, ys@);
    }
    if xs.len() != ys.len() {
        return false;
    }
    let mut i: usize = 0;
    while i < xs.len()
        invariant
            i <= xs@.len(),
            xs@.len() == ys@.len(),
            forall|j: int| 0 <= j < i ==> #[trigger] same_type(xs@[j], ys@[j]),
            same_types(xs@, ys@) <==> (forall|j: int| 0 <= j < xs@.len() ==> #[trigger] same_type(xs@[j], ys@[j])),
        decreases xs@.len() - i,
    {
        proof {
            assert(decreases_to!(*xs => xs@[i as int]));
        }
        if !xs[i].same_as(&ys[i]) {
            return false;
        }
        i = i + 1;
    }
    true
}

/// Returns member-by-member copies of `xs`.
fn duplicate_types(xs: &Vec<PhpType>) -> (r: Vec<PhpType>)
    ensures
        same_types(r@, xs@),
    decreases *xs, 0nat,
{
    let mut r: Vec<PhpType> = Vec::new();
    let mut i: usize = 0;
    while i < xs.len()
        invariant
            i <= xs@.len(),
            r@.len() == i,
            forall|j: int| 0 <= j < i ==> #[trigger] same_type(r@[j], xs@[j]),
        decreases xs@.len() - i,
    {
        proof {
            assert(decreases_to!(*xs => xs@[i as int]));
        }
        let t = xs[i].duplicate();
        r.push(t);
        i = i + 1;
    }
    proof {
        lemma_same_types_pointwise(r@, xs@);
    }
    r
}

} // verus!
