//! A serializable stand-in for the language's runtime type identifier.
//!
//! The native `std::any::TypeId` cannot be serialized, so the store keys
//! slots by a 64-bit hash of it instead. Two different types may collide
//! with negligible but non-zero probability; the design accepts this
//! rather than demanding explicit type tags from every caller. The hash is
//! stable within one process run, but not across builds, so nothing more
//! is promised of its value.

use vstd::prelude::*;
use std::hash::{Hash, Hasher};

verus! {

/// A 64-bit fingerprint of a concrete Rust type.
#[derive(Clone, Copy, Debug, PartialEq, Eq, Structural, Hash)]
pub struct TypeId(u64);

/// Relies on `std::any::TypeId::of`, `DefaultHasher::new`, `Hash::hash` and
/// `Hasher::finish`: the result is the default hash of `T`'s runtime type
/// identifier. It is stable within one process run but differs across
/// builds, so no clause can pin its value.
#[verifier::external_body]
fn runtime_type_hash<T: 'static>() -> u64 {
    let mut hasher = std::collections::hash_map::DefaultHasher::new();
    std::any::TypeId::of::<T>().hash(&mut hasher);
    hasher.finish()
}

impl TypeId {
    /// The fingerprint as a number, usable as a store key.
    pub closed spec fn spec_value(self) -> u64 {
        self.0
    }

    /// The fingerprint of the type `T`.
    pub fn of<T: 'static>() -> TypeId {
        TypeId(runtime_type_hash::<T>())
    }

    /// The fingerprint as a number.
    pub fn value(&self) -> (r: u64)
        ensures
            r == self.spec_value(),
    {
        self.0
    }

    /// The fingerprint with the given numeric value.
    pub fn from_value(v: u64) -> (r: TypeId)
        ensures
            r.spec_value() == v,
    {
        TypeId(v)
    }
}

} // verus!
