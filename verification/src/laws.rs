//! What holds of every store, stated over the entries a [`Context`] stands
//! for and over [`is_lookup`], the relation between the entries and what a
//! lookup returns.

use crate::context::is_lookup;
use crate::erased::{pointee, Pointee};
use crate::identity::distinct;
use vstd::prelude::*;

verus! {

/// A lookup of a key that the store does not hold gives nothing, at every
/// type.
pub proof fn lemma_absent_key_gives_none<V: 'static>(
    m: Map<Seq<char>, Pointee>,
    key: Seq<char>,
    r: Option<&V>,
)
    requires
        !m.contains_key(key),
        is_lookup(m, key, r),
    ensures
        r is None,
{
}

/// A lookup on the empty store gives nothing, for every key and at every
/// type.
pub proof fn lemma_empty_store_gives_none<V: 'static>(key: Seq<char>, r: Option<&V>)
    requires
        is_lookup(Map::<Seq<char>, Pointee>::empty(), key, r),
    ensures
        r is None,
{
}

/// After `v` is stored under `key`, a lookup of `key` at the type of `v`
/// gives `v`.
pub proof fn lemma_stored_value_is_found<V: 'static>(
    m: Map<Seq<char>, Pointee>,
    key: Seq<char>,
    v: V,
    r: Option<&V>,
)
    requires
        is_lookup(m.insert(key, pointee(v)), key, r),
    ensures
        r == Some(&v),
{
}

/// After a `V` is stored under `key`, a lookup of `key` at another type `W`
/// gives nothing, whatever the two types are made of.
pub proof fn lemma_other_type_gives_none<V: 'static, W: 'static>(
    m: Map<Seq<char>, Pointee>,
    key: Seq<char>,
    v: V,
    r: Option<&W>,
)
    requires
        distinct::<V, W>(),
        is_lookup(m.insert(key, pointee(v)), key, r),
    ensures
        r is None,
{
}

/// Storing `v1` and then `v2` under the same key leaves `v2` there: the
/// entries are those of storing `v2` alone, and a lookup gives `v2`.
pub proof fn lemma_later_value_replaces_earlier<V: 'static>(
    m: Map<Seq<char>, Pointee>,
    key: Seq<char>,
    v1: V,
    v2: V,
    r: Option<&V>,
)
    requires
        is_lookup(m.insert(key, pointee(v1)).insert(key, pointee(v2)), key, r),
    ensures
        m.insert(key, pointee(v1)).insert(key, pointee(v2)) == m.insert(key, pointee(v2)),
        r == Some(&v2),
{
    assert(m.insert(key, pointee(v1)).insert(key, pointee(v2)) =~= m.insert(key, pointee(v2)));
}

/// Storing under one key changes no lookup of another key, at any type.
pub proof fn lemma_other_keys_unchanged<V: 'static>(
    m: Map<Seq<char>, Pointee>,
    key: Seq<char>,
    e: Pointee,
    other: Seq<char>,
    r: Option<&V>,
)
    requires
        other != key,
    ensures
        is_lookup(m.insert(key, e), other, r) <==> is_lookup(m, other, r),
{
}

/// The entries and the type asked for determine what a lookup returns.
pub proof fn lemma_lookup_is_determined<V: 'static>(
    m: Map<Seq<char>, Pointee>,
    key: Seq<char>,
    r1: Option<&V>,
    r2: Option<&V>,
)
    requires
        is_lookup(m, key, r1),
        is_lookup(m, key, r2),
    ensures
        r1 == r2,
{
}

} // verus!
