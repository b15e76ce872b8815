//! The class and interface tables of the code generator's context, as far as the
//! foreach-over-Iterator lowering reads them: which interfaces a class declares and
//! which parent interfaces an interface extends.

use vstd::prelude::*;

verus! {

/// What the code generator knows of a class: the interfaces it declares.
pub struct ClassInfo {
    pub interfaces: Vec<String>,
}

/// What the code generator knows of an interface: the interfaces it extends.
pub struct InterfaceInfo {
    pub parents: Vec<String>,
}

/// The class and interface tables, each keyed by name. vstd models a `HashMap`'s keys
/// only for integer and boolean key types, so these name-keyed tables are lists of
/// (name, info) pairs; a lookup finds a name's first entry, as a map holds one per name.
pub struct Context {
    pub classes: Vec<(String, ClassInfo)>,
    pub interfaces: Vec<(String, InterfaceInfo)>,
}

/// A list of names, by their text.
pub open spec fn names_view(names: Seq<String>) -> Seq<Seq<char>> {
    names.map_values(|s: String| s@)
}

/// A table of named name-lists, by text.
pub type TableView = Seq<(Seq<char>, Seq<Seq<char>>)>;

/// The list stored under `name` in `table`: that of its first entry of that name.
pub open spec fn lookup(table: TableView, name: Seq<char>) -> Option<Seq<Seq<char>>>
    decreases table.len(),
{
    if table.len() == 0 {
        None
    } else if table[0].0 == name {
        Some(table[0].1)
    } else {
        lookup(table.drop_first(), name)
    }
}

/// Every name listed in any entry of `table`, in table order.
pub open spec fn all_listed(table: TableView) -> Seq<Seq<char>>
    decreases table.len(),
{
    if table.len() == 0 {
        Seq::empty()
    } else {
        table[0].1 + all_listed(table.drop_first())
    }
}

impl Context {
    /// The class table by text: class name and declared interfaces.
    pub open spec fn classes_view(&self) -> TableView {
        self.classes@.map_values(|e: (String, ClassInfo)| (e.0@, names_view(e.1.interfaces@)))
    }

    /// The interface table by text: interface name and parent interfaces.
    pub open spec fn interfaces_view(&self) -> TableView {
        self.interfaces@.map_values(|e: (String, InterfaceInfo)| (e.0@, names_view(e.1.parents@)))
    }

    /// The parent interfaces of `name` (none when `name` is not a known interface).
    pub open spec fn parents(&self, name: Seq<char>) -> Seq<Seq<char>> {
        match lookup(self.interfaces_view(), name) {
            Some(p) => p,
            None => Seq::empty(),
        }
    }

    /// Whether `name` is a known interface.
    pub open spec fn is_interface(&self, name: Seq<char>) -> bool {
        lookup(self.interfaces_view(), name) is Some
    }

    /// Returns the index of the first interface entry named `name`, if any.
    pub fn find_interface(&self, name: &String) -> (r: Option<usize>)
        ensures
            match r {
                Some(i) => i < self.interfaces@.len() && lookup(self.interfaces_view(), name@)
                    == Some(self.interfaces_view()[i as int].1),
                None => lookup(self.interfaces_view(), name@) is None,
            },
    {
        let mut i: usize = 0;
        assert(self.interfaces_view().skip(0) =~= self.interfaces_view());
        while i < self.interfaces.len()
            invariant
                i <= self.interfaces@.len(),
                lookup(self.interfaces_view(), name@) == lookup(self.interfaces_view().skip(i as int), name@),
            decreases self.interfaces.len() - i,
        {
            let ghost rest = self.interfaces_view().skip(i as int);
            if self.interfaces[i].0 == *name {
                return Some(i);
            }
            assert(rest.drop_first() =~= self.interfaces_view().skip(i + 1));
            i = i + 1;
        }
        None
    }

    /// Returns the index of the first class entry named `name`, if any.
    pub fn find_class(&self, name: &String) -> (r: Option<usize>)
        ensures
            match r {
                Some(i) => i < self.classes@.len() && lookup(self.classes_view(), name@)
                    == Some(self.classes_view()[i as int].1),
                None => lookup(self.classes_view(), name@) is None,
            },
    {
        let mut i: usize = 0;
        assert(self.classes_view().skip(0) =~= self.classes_view());
        while i < self.classes.len()
            invariant
                i <= self.classes@.len(),
                lookup(self.classes_view(), name@) == lookup(self.classes_view().skip(i as int), name@),
            decreases self.classes.len() - i,
        {
            let ghost rest = self.classes_view().skip(i as int);
            if self.classes[i].0 == *name {
                return Some(i);
            }
            assert(rest.drop_first() =~= self.classes_view().skip(i + 1));
            i = i + 1;
        }
        None
    }
}

/// A list found by `lookup` is part of `all_listed`.
pub proof fn lemma_lookup_listed(table: TableView, name: Seq<char>, x: Seq<char>)
    requires
        lookup(table, name) matches Some(l) && l.contains(x),
    ensures
        all_listed(table).contains(x),
    decreases table.len(),
{
    if table[0].0 == name {
        let l = table[0].1;
        let k = choose|k: int| 0 <= k < l.len() && l[k] == x;
        assert((l + all_listed(table.drop_first()))[k] == x);
    } else {
        lemma_lookup_listed(table.drop_first(), name, x);
        let rest = all_listed(table.drop_first());
        let k = choose|k: int| 0 <= k < rest.len() && rest[k] == x;
        assert((table[0].1 + rest)[table[0].1.len() + k] == x);
    }
}

} // verus!
