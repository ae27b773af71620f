//! A string-keyed store of values of differing types.
//!
//! A [`Context`] maps each key to one value whose concrete type is hidden
//! behind a uniform handle ([`Erased`]). A value is read back only at the
//! exact type it was stored with; a lookup at any other type, like a lookup
//! of a key that was never stored, yields nothing.
//!
//! The store is changed in place and is not shared: each owner has its own.
//!
//! Contracts speak of a stored value as a [`Pointee`], the value with its
//! type forgotten, and of two types being different as [`distinct`], which
//! [`same_type`] decides at run time.

mod sealed;
pub mod erased;
pub mod identity;
pub mod context;
pub mod laws;

pub use crate::context::{is_lookup, Context};
pub use crate::erased::{pointee, Anything, Cloneable, Erased, Pointee};
pub use crate::identity::{distinct, same_type, type_of};
