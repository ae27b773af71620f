//! The identity of a type, as std tells it at run time.

use crate::erased::{pointee, Pointee};
use std::any::TypeId;
use vstd::prelude::*;

verus! {

/// std's `TypeId`, kept opaque: an identifier that stands for one type.
#[verifier::external_type_specification]
#[verifier::external_body]
pub struct ExTypeId(TypeId);

/// The identifier of the type that a value had before its type was forgotten.
pub uninterp spec fn type_of(p: Pointee) -> TypeId;

/// Whether `V` and `W` are two types: no value of the one has the type
/// identifier of a value of the other.
pub open spec fn distinct<V: 'static, W: 'static>() -> bool {
    forall|v: V, w: W| type_of(pointee(v)) != type_of(pointee(w))
}

/// `TypeId::of::<V>`: the identifier that every value of type `V` has.
#[verifier::external_body]
fn id_of<V: 'static>() -> (r: TypeId)
    ensures
        forall|v: V| type_of(pointee(v)) == r,
{
    TypeId::of::<V>()
}

/// `==` on `TypeId`. std documents a `TypeId` as a globally unique
/// identifier of a type: two are equal exactly when they are one identifier.
#[verifier::external_body]
fn same_id(a: &TypeId, b: &TypeId) -> (r: bool)
    ensures
        r == (*a == *b),
{
    a == b
}

/// Whether `V` and `W` are one type. Where the answer is `false`, a value
/// stored as a `V` is never found at type `W`.
pub fn same_type<V: 'static, W: 'static>() -> (r: bool)
    ensures
        !r ==> distinct::<V, W>(),
        r ==> forall|v: V, w: W| type_of(pointee(v)) == type_of(pointee(w)),
{
    let a = id_of::<V>();
    let b = id_of::<W>();
    same_id(&a, &b)
}

} // verus!
