//! A type-indexed heterogeneous store: at most one value of each type,
//! keyed purely by the static type, so unrelated middleware can attach and
//! retrieve request-scoped data without colliding.

use std::any::Any;
use std::any::TypeId;
use std::collections::HashMap;
use vstd::prelude::*;

verus! {

/// The number of values the store holds.
pub uninterp spec fn ext_len(e: Extensions) -> nat;

/// A type-indexed store of boxed values: for each type `T` at most one
/// value, keyed by `std::any::TypeId::of::<T>()`. Two structurally identical
/// but distinct types never collide. The store is opaque to verification;
/// its operations are trusted wrappers around one map operation each.
#[verifier::external_body]
pub struct Extensions {
    map: HashMap<TypeId, Box<dyn Any>>,
}

impl Extensions {
    /// An empty store. Relies on `HashMap::new`, which contains no entry.
    #[verifier::external_body]
    pub fn new() -> (r: Extensions)
        ensures
            ext_len(r) == 0,
    {
        Extensions { map: HashMap::new() }
    }

    /// Stores `value` under the type `T`, replacing any prior value of that
    /// type. Relies on `HashMap::insert` keyed by `TypeId::of::<T>()`: the
    /// map gains the entry, and only the entry under that key changes.
    #[verifier::external_body]
    pub fn set<T: 'static>(&mut self, value: T)
        ensures
            ext_len(*old(self)) <= ext_len(*final(self)) <= ext_len(*old(self)) + 1,
    {
        self.map.insert(TypeId::of::<T>(), Box::new(value));
    }

    /// The stored value of type `T`, if one is present. Relies on
    /// `HashMap::get` keyed by `TypeId::of::<T>()` and `Any::downcast_ref`,
    /// which succeeds exactly on a value stored as a `T`.
    #[verifier::external_body]
    pub fn get<T: 'static>(&self) -> (r: Option<&T>)
        ensures
            ext_len(*self) == 0 ==> r is None,
    {
        self.map.get(&TypeId::of::<T>()).and_then(|b| b.downcast_ref::<T>())
    }

    /// The stored value of type `T` for in-place change, if one is present.
    /// Relies on `HashMap::get_mut` keyed by `TypeId::of::<T>()` and
    /// `Any::downcast_mut`, which succeeds exactly on a value stored as a
    /// `T`.
    #[verifier::external_body]
    pub fn get_mut<T: 'static>(&mut self) -> (r: Option<&mut T>)
        ensures
            ext_len(*final(self)) == ext_len(*old(self)),
    {
        self.map.get_mut(&TypeId::of::<T>()).and_then(|b| b.downcast_mut::<T>())
    }

    /// Removes and returns the stored value of type `T`, if one is present.
    /// Relies on `HashMap::remove` keyed by `TypeId::of::<T>()` and
    /// `Box::downcast`, which succeeds exactly on a value stored as a `T`.
    #[verifier::external_body]
    pub fn remove<T: 'static>(&mut self) -> (r: Option<T>)
        ensures
            ext_len(*old(self)) - 1 <= ext_len(*final(self)) <= ext_len(*old(self)),
            ext_len(*old(self)) == 0 ==> r is None,
    {
        match self.map.remove(&TypeId::of::<T>()) {
            Some(b) => match b.downcast::<T>() {
                Ok(v) => Some(*v),
                Err(_) => None,
            },
            None => None,
        }
    }
}

} // verus!
