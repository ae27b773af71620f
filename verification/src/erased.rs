//! Type erasure: a value of any storable type behind one handle, and the
//! checked way back to its concrete type.

use crate::sealed::{any_ref, cast, referent, AnyRef, Token};
use std::fmt::Debug;
use vstd::prelude::*;

verus! {

/// Implemented for every `'static` type, as `Any` is. It stands for `Any`
/// in contracts.
pub trait Anything {
}

impl<T: 'static> Anything for T {
}

/// A value of some `'static` type, its type forgotten. Contracts speak of
/// what a handle hides, and of what a store holds, as values of this type.
pub struct Pointee {
    pub value: Box<dyn Anything>,
}

/// `t` with its type forgotten.
pub open spec fn pointee<T: 'static>(t: T) -> Pointee {
    Pointee { value: Box::new(t) }
}

/// What a stored value offers once its type is hidden: it can be shared
/// across threads and it can present itself for a type-checked cast.
///
/// Every type that is `Clone + Send + Sync + Debug + 'static` has this trait.
/// No other type can be given it: its method takes a token that cannot be
/// named outside this crate.
pub trait Cloneable: Send + Sync {
    /// This value, its type forgotten.
    spec fn hidden(&self) -> Pointee;

    /// This value, ready for a cast to its concrete type.
    fn as_any(&self, token: Token) -> (r: AnyRef<'_>)
        ensures
            referent(r) == self.hidden(),
    ;
}

impl<T: Clone + Send + Sync + Debug + 'static> Cloneable for T {
    open spec fn hidden(&self) -> Pointee {
        pointee(*self)
    }

    fn as_any(&self, _token: Token) -> (r: AnyRef<'_>) {
        any_ref(self)
    }
}

/// A value whose concrete type is hidden.
pub struct Erased {
    inner: Box<dyn Cloneable>,
}

impl Erased {
    /// The value behind the handle, its type forgotten.
    pub closed spec fn hidden(&self) -> Pointee {
        self.inner.hidden()
    }

    /// Hides `v` behind a handle.
    pub(crate) fn new<V: Clone + Send + Sync + Debug + 'static>(v: V) -> (r: Erased)
        ensures
            r.hidden() == pointee(v),
    {
        Erased { inner: Box::new(v) }
    }

    /// The value behind the handle, if its concrete type is exactly `V`.
    pub(crate) fn downcast_ref<V: 'static>(&self) -> (r: Option<&V>)
        ensures
            r is Some ==> self.hidden() == pointee(*r.unwrap()),
            forall|v: V| self.hidden() == pointee(v) ==> r == Some(&v),
    {
        let a = self.inner.as_any(Token);
        cast::<V>(a)
    }
}

} // verus!
