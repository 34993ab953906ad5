//! The binding set of a process: import names and the functions that stand
//! for them.

use vstd::prelude::*;
use vstd::hash_map::StringHashMap;
use crate::engine::clone_func;

verus! {

/// A map from import names to function references. A name has at most one
/// binding; the order of insertion plays no part.
pub struct BindingSet {
    map: StringHashMap<wasmi::FuncRef>,
}

impl View for BindingSet {
    type V = Map<Seq<char>, wasmi::FuncRef>;

    closed spec fn view(&self) -> Map<Seq<char>, wasmi::FuncRef> {
        self.map@
    }
}

impl BindingSet {
    /// The empty binding set.
    pub fn new() -> (r: Self)
        ensures
            r@ == Map::<Seq<char>, wasmi::FuncRef>::empty(),
    {
        BindingSet { map: StringHashMap::new() }
    }

    /// Binds `name` to `func`. An earlier binding of the name is replaced.
    /// Only the host binds: it takes the function from the table of the
    /// supervisor that it holds.
    pub(crate) fn insert(&mut self, name: String, func: wasmi::FuncRef)
        ensures
            final(self)@ == old(self)@.insert(name@, func),
    {
        self.map.insert(name, func);
    }

    /// Whether `name` is bound.
    pub fn contains(&self, name: &str) -> (r: bool)
        ensures
            r == self@.contains_key(name@),
    {
        self.map.contains_key(name)
    }

    /// The function bound to `name`, if there is one.
    pub fn resolve(&self, name: &str) -> (r: Option<wasmi::FuncRef>)
        ensures
            r is Some <==> self@.contains_key(name@),
            r matches Some(f) ==> f == self@[name@],
    {
        match self.map.get(name) {
            Some(f) => Some(clone_func(f)),
            None => None,
        }
    }

    /// The number of bound names.
    pub fn len(&self) -> (n: usize)
        ensures
            n == self@.len(),
    {
        self.map.len()
    }
}

} // verus!
