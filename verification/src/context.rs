//! The store itself.

use crate::erased::{pointee, Cloneable, Erased, Pointee};
use std::fmt::Debug;
use vstd::hash_map::StringHashMap;
use vstd::prelude::*;

verus! {

/// A mapping from string keys to type-erased values. Each key holds one value
/// at a time.
pub struct Context {
    map: StringHashMap<Erased>,
}

impl View for Context {
    type V = Map<Seq<char>, Pointee>;

    /// Each key with the value stored under it, its type forgotten.
    closed spec fn view(&self) -> Map<Seq<char>, Pointee> {
        self.map@.map_values(|e: Erased| e.hidden())
    }
}

/// Whether `r` is what a lookup of `key` at type `V` owes on the entries `m`:
/// it is a value only if `key` is present and holds that value, and it is
/// that value whenever `key` holds a `V`.
pub open spec fn is_lookup<V: 'static>(
    m: Map<Seq<char>, Pointee>,
    key: Seq<char>,
    r: Option<&V>,
) -> bool {
    &&& r is Some ==> m.contains_key(key) && m[key] == pointee(*r.unwrap())
    &&& forall|v: V| m.contains_key(key) && m[key] == pointee(v) ==> r == Some(&v)
}

impl Context {
    /// An empty store.
    pub fn new() -> (r: Self)
        ensures
            r@ == Map::<Seq<char>, Pointee>::empty(),
    {
        let r = Context { map: StringHashMap::new() };
        assert(r@ =~= Map::<Seq<char>, Pointee>::empty());
        r
    }

    /// Stores `val` under `key`, in place of whatever `key` held before. No
    /// other key is touched.
    pub fn with_value<V>(&mut self, key: &str, val: V) where
        V: Clone + Send + Sync + Debug + 'static,

        ensures
            final(self)@ == old(self)@.insert(key@, pointee(val)),
    {
        self.map.insert(key.to_owned(), Erased::new(val));
        assert(self@ =~= old(self)@.insert(key@, pointee(val)));
    }

    /// The value stored under `key`, if there is one and its concrete type is
    /// exactly `V`. A missing key and a value of another type both give
    /// `None`.
    pub fn get<V>(&self, key: &str) -> (r: Option<&V>) where V: Cloneable + 'static
        ensures
            is_lookup(self@, key@, r),
            !self@.contains_key(key@) ==> r is None,
    {
        match self.map.get(key) {
            Some(e) => e.downcast_ref::<V>(),
            None => None,
        }
    }
}

impl Default for Context {
    /// An empty store.
    fn default() -> (r: Self)
        ensures
            r@ == Map::<Seq<char>, Pointee>::empty(),
    {
        Context::new()
    }
}

} // verus!
