//! Purpose:
//! Chooses how a `foreach` over an object dispatches the Iterator protocol methods:
//! through the class's own methods or through an interface table, and whether the
//! iterated type already implements `Iterator` or must first be unwrapped through
//! `getIterator()`.
//!
//! Key details:
//! - A class implements an interface when it declares it directly.
//! - An interface extends an ancestor when the ancestor is reachable through parent
//!   interfaces (the interface itself counts); the search visits each name once, so
//!   cyclic declarations terminate.

use vstd::prelude::*;
use crate::codegen::context::{Context, names_view, lookup, all_listed, lemma_lookup_listed};
use crate::types::PhpType;

verus! {

/// Whether `path` walks from each name to one of its parent interfaces.
pub open spec fn is_parent_path(ctx: &Context, path: Seq<Seq<char>>) -> bool {
    &&& path.len() >= 1
    &&& forall|i: int| 0 <= i < path.len() - 1 ==> ctx.parents(#[trigger] path[i]).contains(path[i + 1])
}

/// Whether interface `from` is `to` or reaches `to` through parent interfaces.
pub open spec fn extends(ctx: &Context, from: Seq<char>, to: Seq<char>) -> bool {
    exists|path: Seq<Seq<char>>| #[trigger] is_parent_path(ctx, path) && path[0] == from && path.last() == to
}

/// Whether class `class_name` declares `interface_name` directly.
pub open spec fn declares(ctx: &Context, class_name: Seq<char>, interface_name: Seq<char>) -> bool {
    lookup(ctx.classes_view(), class_name) matches Some(ifaces) && ifaces.contains(interface_name)
}

/// A name extends itself.
pub proof fn lemma_extends_reflexive(ctx: &Context, name: Seq<char>)
    ensures
        extends(ctx, name, name),
{
    let path = seq![name];
    assert(is_parent_path(ctx, path));
}

/// Extending a reachable name by one parent step stays reachable.
pub proof fn lemma_extends_step(ctx: &Context, from: Seq<char>, mid: Seq<char>, to: Seq<char>)
    requires
        extends(ctx, from, mid),
        ctx.parents(mid).contains(to),
    ensures
        extends(ctx, from, to),
{
    let path = choose|path: Seq<Seq<char>>| #[trigger] is_parent_path(ctx, path) && path[0] == from && path.last() == mid;
    let longer = path.push(to);
    assert forall|i: int| 0 <= i < longer.len() - 1 implies ctx.parents(#[trigger] longer[i]).contains(longer[i + 1]) by {
        if i < path.len() - 1 {
            assert(longer[i] == path[i] && longer[i + 1] == path[i + 1]);
        }
    }
    assert(is_parent_path(ctx, longer));
}

/// Extension is transitive: a name reached from a name reached from `a` is reached from `a`.
pub proof fn lemma_extends_transitive(ctx: &Context, a: Seq<char>, b: Seq<char>, c: Seq<char>)
    requires
        extends(ctx, a, b),
        extends(ctx, b, c),
    ensures
        extends(ctx, a, c),
{
    let p1 = choose|path: Seq<Seq<char>>| #[trigger] is_parent_path(ctx, path) && path[0] == a && path.last() == b;
    let p2 = choose|path: Seq<Seq<char>>| #[trigger] is_parent_path(ctx, path) && path[0] == b && path.last() == c;
    let joined = p1 + p2.drop_first();
    assert forall|i: int| 0 <= i < joined.len() - 1 implies ctx.parents(#[trigger] joined[i]).contains(joined[i + 1]) by {
        if i < p1.len() - 1 {
            assert(joined[i] == p1[i] && joined[i + 1] == p1[i + 1]);
        } else if i == p1.len() - 1 {
            assert(joined[i] == p2[0]);
            assert(joined[i + 1] == p2[1]);
        } else {
            let k = i - p1.len() + 1;
            assert(joined[i] == p2[k] && joined[i + 1] == p2[k + 1]);
        }
    }
    assert(is_parent_path(ctx, joined));
    if p2.len() == 1 {
        assert(joined.last() == p1.last());
    } else {
        assert(joined.last() == p2.last());
    }
}

/// A set of names that contains the start of a parent path and holds every parent of each
/// of its members contains the whole path.
proof fn lemma_closed_contains_path(ctx: &Context, set: Seq<Seq<char>>, path: Seq<Seq<char>>)
    requires
        is_parent_path(ctx, path),
        set.contains(path[0]),
        forall|s: Seq<char>, p: Seq<char>| set.contains(s) && #[trigger] ctx.parents(s).contains(p) ==> set.contains(p),
    ensures
        forall|i: int| 0 <= i < path.len() ==> set.contains(#[trigger] path[i]),
    decreases path.len(),
{
    if path.len() > 1 {
        let front = path.drop_last();
        assert(is_parent_path(ctx, front)) by {
            assert forall|i: int| 0 <= i < front.len() - 1 implies ctx.parents(#[trigger] front[i]).contains(front[i + 1]) by {
                assert(front[i] == path[i] && front[i + 1] == path[i + 1]);
            }
        }
        lemma_closed_contains_path(ctx, set, front);
        assert forall|i: int| 0 <= i < path.len() implies set.contains(#[trigger] path[i]) by {
            if i < path.len() - 1 {
                assert(front[i] == path[i]);
            } else {
                assert(set.contains(front[i - 1]));
                assert(ctx.parents(path[i - 1]).contains(path[i]));
            }
        }
    }
}

/// Returns whether `names` holds a name equal to `name`.
fn contains_name(names: &Vec<String>, name: &String) -> (r: bool)
    ensures
        r == names_view(names@).contains(name@),
{
    let mut i: usize = 0;
    while i < names.len()
        invariant
            i <= names@.len(),
            forall|k: int| 0 <= k < i ==> names@[k]@ != name@,
        decreases names.len() - i,
    {
        if names[i] == *name {
            assert(names_view(names@)[i as int] == name@);
            return true;
        }
        i = i + 1;
    }
    proof {
        if names_view(names@).contains(name@) {
            let k = choose|k: int| 0 <= k < names_view(names@).len() && names_view(names@)[k] == name@;
            assert(names@[k]@ == name@);
        }
    }
    false
}

/// Returns true when `class_name` declares `interface_name` directly.
pub fn class_implements_interface(class_name: &str, interface_name: &str, ctx: &Context) -> (r: bool)
    ensures
        r == declares(ctx, class_name@, interface_name@),
{
    let class_name = String::from_str(class_name);
    let interface_name = String::from_str(interface_name);
    match ctx.find_class(&class_name) {
        Some(k) => contains_name(&ctx.classes[k].1.interfaces, &interface_name),
        None => false,
    }
}

/// Returns true when `interface_name` is `ancestor_name` or reaches it through parent
/// interfaces. Each interface is expanded at most once: the names already expanded are
/// kept in a list (vstd models `HashSet` keys only for integer and boolean types).
pub fn interface_extends_interface(interface_name: &str, ancestor_name: &str, ctx: &Context) -> (r: bool)
    ensures
        r == extends(ctx, interface_name@, ancestor_name@),
{
    let start = String::from_str(interface_name);
    let ancestor = String::from_str(ancestor_name);
    if start == ancestor {
        proof {
            lemma_extends_reflexive(ctx, start@);
        }
        return true;
    }
    let ghost universe = all_listed(ctx.interfaces_view()).to_set().insert(start@);
    proof {
        broadcast use vstd::seq_lib::seq_to_set_is_finite;
        assert(universe.finite());
        lemma_extends_reflexive(ctx, start@);
    }
    let mut stack: Vec<String> = Vec::new();
    stack.push(start.clone());
    let mut seen: Vec<String> = Vec::new();
    proof {
        assert(names_view(stack@) =~= seq![start@]);
        assert(names_view(stack@)[0] == start@);
        assert(names_view(seen@) =~= Seq::<Seq<char>>::empty());
    }
    loop
        invariant_except_break
            start@ != ancestor@,
            start@ == interface_name@,
            ancestor@ == ancestor_name@,
            universe.finite(),
            universe == all_listed(ctx.interfaces_view()).to_set().insert(start@),
            forall|x: Seq<char>| #[trigger] names_view(stack@).contains(x) ==> universe.contains(x) && extends(ctx, start@, x),
            forall|x: Seq<char>| #[trigger] names_view(seen@).contains(x) ==> universe.contains(x) && extends(ctx, start@, x),
            names_view(seen@).no_duplicates(),
            forall|s: Seq<char>, p: Seq<char>|
                names_view(seen@).contains(s) && #[trigger] ctx.parents(s).contains(p)
                ==> p != ancestor@ && (names_view(stack@).contains(p) || names_view(seen@).contains(p)),
            names_view(stack@).contains(start@) || names_view(seen@).contains(start@),
        ensures
            !extends(ctx, start@, ancestor@),
        decreases universe.len() - names_view(seen@).len(), stack@.len(),
    {
        proof {
            names_view(seen@).unique_seq_to_set();
            assert(names_view(seen@).to_set().subset_of(universe));
            vstd::set_lib::lemma_len_subset(names_view(seen@).to_set(), universe);
        }
        let ghost old_stack = names_view(stack@);
        let ghost old_seen = names_view(seen@);
        let current = match stack.pop() {
            Some(current) => current,
            None => {
                proof {
                    assert(names_view(stack@) =~= Seq::<Seq<char>>::empty());
                    assert forall|path: Seq<Seq<char>>| #[trigger] is_parent_path(ctx, path) && path[0] == start@
                        implies path.last() != ancestor@ by {
                        lemma_closed_contains_path(ctx, old_seen, path);
                        if path.len() == 1 {
                        } else {
                            assert(old_seen.contains(path[path.len() - 2]));
                            assert(ctx.parents(path[path.len() - 2]).contains(path[path.len() - 1]));
                        }
                    }
                }
                break;
            },
        };
        proof {
            assert(old_stack =~= names_view(stack@).push(current@));
            assert(old_stack.contains(current@)) by {
                assert(old_stack[old_stack.len() - 1] == current@);
            }
        }
        if contains_name(&seen, &current) {
            proof {
                assert forall|x: Seq<char>| #[trigger] names_view(stack@).contains(x) implies old_stack.contains(x) by {
                    let k = choose|k: int| 0 <= k < names_view(stack@).len() && names_view(stack@)[k] == x;
                    assert(old_stack[k] == x);
                }
                assert forall|s: Seq<char>, p: Seq<char>|
                    names_view(seen@).contains(s) && #[trigger] ctx.parents(s).contains(p)
                    implies p != ancestor@ && (names_view(stack@).contains(p) || names_view(seen@).contains(p)) by {
                    if old_stack.contains(p) && p != current@ {
                        let k = choose|k: int| 0 <= k < old_stack.len() && old_stack[k] == p;
                        assert(names_view(stack@)[k] == p);
                    }
                }
                if old_stack.contains(start@) && start@ != current@ {
                    let k = choose|k: int| 0 <= k < old_stack.len() && old_stack[k] == start@;
                    assert(names_view(stack@)[k] == start@);
                }
            }
            continue;
        }
        seen.push(current.clone());
        proof {
            assert(names_view(seen@) =~= old_seen.push(current@));
            assert(names_view(seen@).no_duplicates()) by {
                assert forall|a: int, b: int| 0 <= a < b < names_view(seen@).len()
                    implies names_view(seen@)[a] != names_view(seen@)[b] by {
                    if b == old_seen.len() {
                        assert(old_seen[a] == names_view(seen@)[a]);
                    } else {
                        assert(old_seen[a] == names_view(seen@)[a] && old_seen[b] == names_view(seen@)[b]);
                    }
                }
            }
            names_view(seen@).unique_seq_to_set();
            assert(names_view(seen@).to_set().subset_of(universe)) by {
                assert forall|x: Seq<char>| names_view(seen@).to_set().contains(x) implies universe.contains(x) by {
                    assert(names_view(seen@).contains(x));
                    if x != current@ {
                        let k = choose|k: int| 0 <= k < names_view(seen@).len() && names_view(seen@)[k] == x;
                        assert(old_seen[k] == x);
                    }
                }
            }
            vstd::set_lib::lemma_len_subset(names_view(seen@).to_set(), universe);
            assert forall|x: Seq<char>| #[trigger] names_view(seen@).contains(x) implies old_seen.contains(x) || x == current@ by {
                let k = choose|k: int| 0 <= k < names_view(seen@).len() && names_view(seen@)[k] == x;
                if k < old_seen.len() {
                    assert(old_seen[k] == x);
                }
            }
            assert(names_view(seen@).contains(current@)) by {
                assert(names_view(seen@)[old_seen.len() as int] == current@);
            }
            assert forall|x: Seq<char>| old_seen.contains(x) implies #[trigger] names_view(seen@).contains(x) by {
                let k = choose|k: int| 0 <= k < old_seen.len() && old_seen[k] == x;
                assert(names_view(seen@)[k] == x);
            }
            assert forall|x: Seq<char>| #[trigger] names_view(stack@).contains(x) implies old_stack.contains(x) by {
                let k = choose|k: int| 0 <= k < names_view(stack@).len() && names_view(stack@)[k] == x;
                assert(old_stack[k] == x);
            }
            assert forall|x: Seq<char>| old_stack.contains(x) && x != current@ implies #[trigger] names_view(stack@).contains(x) by {
                let k = choose|k: int| 0 <= k < old_stack.len() && old_stack[k] == x;
                assert(names_view(stack@)[k] == x);
            }
        }
        match ctx.find_interface(&current) {
            None => {
                proof {
                    assert(ctx.parents(current@) =~= Seq::<Seq<char>>::empty());
                }
            },
            Some(k) => {
                let parents = &ctx.interfaces[k].1.parents;
                let ghost mid_stack = names_view(stack@);
                assert(ctx.parents(current@) == names_view(parents@));
                let mut j: usize = 0;
                while j < parents.len()
                    invariant
                        j <= parents@.len(),
                        ctx.parents(current@) == names_view(parents@),
                        lookup(ctx.interfaces_view(), current@) == Some(names_view(parents@)),
                        extends(ctx, start@, current@),
                        universe == all_listed(ctx.interfaces_view()).to_set().insert(start@),
                        start@ == interface_name@,
                        ancestor@ == ancestor_name@,
                        names_view(stack@) =~= mid_stack + names_view(parents@).take(j as int),
                        forall|i: int| 0 <= i < j ==> parents@[i]@ != ancestor@,
                    decreases parents.len() - j,
                {
                    if parents[j] == ancestor {
                        proof {
                            assert(names_view(parents@)[j as int] == ancestor@);
                            lemma_extends_step(ctx, start@, current@, ancestor@);
                        }
                        return true;
                    }
                    let ghost before_push = stack@;
                    stack.push(parents[j].clone());
                    proof {
                        assert(names_view(stack@) =~= names_view(before_push).push(parents@[j as int]@));
                        assert(names_view(parents@).take(j + 1) =~= names_view(parents@).take(j as int).push(parents@[j as int]@));
                    }
                    j = j + 1;
                }
                proof {
                    assert(names_view(parents@).take(j as int) =~= names_view(parents@));
                    assert forall|p: Seq<char>| #[trigger] ctx.parents(current@).contains(p)
                        implies names_view(stack@).contains(p) && p != ancestor@ && universe.contains(p)
                            && extends(ctx, start@, p) by {
                        let i = choose|i: int| 0 <= i < names_view(parents@).len() && names_view(parents@)[i] == p;
                        assert(names_view(stack@)[mid_stack.len() + i] == p);
                        lemma_lookup_listed(ctx.interfaces_view(), current@, p);
                        lemma_extends_step(ctx, start@, current@, p);
                    }
                    assert forall|x: Seq<char>| #[trigger] names_view(stack@).contains(x) implies
                        universe.contains(x) && extends(ctx, start@, x) by {
                        let i = choose|i: int| 0 <= i < names_view(stack@).len() && names_view(stack@)[i] == x;
                        if i < mid_stack.len() {
                            assert(mid_stack[i] == x);
                            assert(mid_stack.contains(x));
                            assert(old_stack.contains(x));
                        } else {
                            assert(names_view(parents@)[i - mid_stack.len()] == x);
                            assert(ctx.parents(current@).contains(x));
                        }
                    }
                    assert forall|x: Seq<char>| mid_stack.contains(x) implies #[trigger] names_view(stack@).contains(x) by {
                        let i = choose|i: int| 0 <= i < mid_stack.len() && mid_stack[i] == x;
                        assert(names_view(stack@)[i] == x);
                    }
                }
            },
        }
    }
    false
}

/// How a foreach dispatches the Iterator protocol methods on its subject.
pub enum IteratorDispatchTarget {
    /// Through the methods of a concrete class.
    Class(String),
    /// Through the method table of an interface.
    Interface(String),
}

impl IteratorDispatchTarget {
    /// Returns true when the dispatch target already implements PHP's `Iterator`: a class
    /// that declares it, or an interface that is or extends it.
    pub fn implements_iterator(&self, ctx: &Context) -> (r: bool)
        ensures
            r == match self {
                IteratorDispatchTarget::Class(c) => declares(ctx, c@, "Iterator"@),
                IteratorDispatchTarget::Interface(i) => extends(ctx, i@, "Iterator"@),
            },
    {
        match self {
            IteratorDispatchTarget::Class(class_name) => {
                class_implements_interface(class_name.as_str(), "Iterator", ctx)
            },
            IteratorDispatchTarget::Interface(interface_name) => {
                interface_extends_interface(interface_name.as_str(), "Iterator", ctx)
            },
        }
    }
}

/// Dispatches through the interface table when `name` is a known interface, else through
/// the class named `name`.
pub fn iterator_dispatch_target(name: &str, ctx: &Context) -> (r: IteratorDispatchTarget)
    ensures
        r == (if ctx.is_interface(name@) {
            IteratorDispatchTarget::Interface(r->Interface_0)
        } else {
            IteratorDispatchTarget::Class(r->Class_0)
        }),
        match r {
            IteratorDispatchTarget::Interface(n) => n@ == name@,
            IteratorDispatchTarget::Class(n) => n@ == name@,
        },
{
    let name = String::from_str(name);
    if ctx.find_interface(&name).is_some() {
        IteratorDispatchTarget::Interface(name)
    } else {
        IteratorDispatchTarget::Class(name)
    }
}

/// Chooses the dispatch target for the object `getIterator()` returned: its interface or
/// class when the declared return type is an object type, else the `Iterator` interface.
pub fn iterator_return_dispatch_target(ret_ty: &PhpType, ctx: &Context) -> (r: IteratorDispatchTarget)
    ensures
        match ret_ty {
            PhpType::Object(name) => if ctx.is_interface(name@) {
                r matches IteratorDispatchTarget::Interface(n) && n@ == name@
            } else {
                r matches IteratorDispatchTarget::Class(n) && n@ == name@
            },
            _ => r matches IteratorDispatchTarget::Interface(n) && n@ == "Iterator"@,
        },
{
    match ret_ty {
        PhpType::Object(name) => {
            if ctx.find_interface(name).is_some() {
                IteratorDispatchTarget::Interface(name.clone())
            } else {
                IteratorDispatchTarget::Class(name.clone())
            }
        },
        _ => IteratorDispatchTarget::Interface(String::from_str("Iterator")),
    }
}

} // verus!
