//! Items that appear in the signature and contract of [`Cloneable::as_any`]
//! and that only this crate can name, which keeps the set of storable types
//! closed.
//!
//! [`Cloneable::as_any`]: crate::erased::Cloneable::as_any

use crate::erased::{pointee, Pointee};
use std::any::Any;
use vstd::prelude::*;

verus! {

/// A value that only this crate can name. A trait method that takes one can
/// be neither implemented nor called from outside.
pub struct Token;

/// A borrowed view of a value as `dyn Any`, the form in which std offers the
/// type-checked cast. Verus has no model of `dyn Any`, so the reference is
/// kept opaque; [`referent`] stands for the value it points at.
#[verifier::external_body]
pub struct AnyRef<'a> {
    inner: &'a dyn Any,
}

/// The value that a reference points at.
pub uninterp spec fn referent(a: AnyRef<'_>) -> Pointee;

/// Unsizes `&T` to `&dyn Any` (std's coercion): the result points at `t`
/// itself.
#[verifier::external_body]
pub(crate) fn any_ref<T: 'static>(t: &T) -> (r: AnyRef<'_>)
    ensures
        referent(r) == pointee(*t),
{
    AnyRef { inner: t }
}

/// `<dyn Any>::downcast_ref::<V>`. std documents that it returns a reference
/// to the inner value if that value is of type `V`, and `None` if it is not.
/// Claimed here: a returned reference is to the value that `a` points at;
/// and whenever `a` points at a `V`, that very value is returned.
#[verifier::external_body]
pub(crate) fn cast<'a, V: 'static>(a: AnyRef<'a>) -> (r: Option<&'a V>)
    ensures
        r is Some ==> referent(a) == pointee(*r.unwrap()),
        forall|v: V| referent(a) == pointee(v) ==> r == Some(&v),
{
    a.inner.downcast_ref::<V>()
}

} // verus!
