//! The uninitialized-memory container: a wrapper that may or may not
//! currently hold a validly initialized value of its parameter type.
//!
//! Wrapping is always valid — initialized data is trivially representable
//! as possibly-uninitialized data — so every type converts into its
//! container freely.  Unwrapping is exposed only through the unchecked
//! tier: it demands the caller-guaranteed precondition that the container
//! currently holds an initialized value.

use crate::coerce::{Bidirectional, Coerce};
use vstd::pervasive::unreached;
use vstd::prelude::*;

verus! {

/// A container that either holds a validly initialized value or nothing.
#[derive(Clone, Copy, Debug)]
pub enum MaybeInit<T> {
    Uninit,
    Init(T),
}

impl<T> MaybeInit<T> {
    /// A container holding no initialized value.
    pub fn uninit() -> (r: Self)
        ensures
            r is Uninit,
    {
        MaybeInit::Uninit
    }

    /// Initializes the container with a value.
    pub fn write(&mut self, v: T)
        ensures
            *final(self) == MaybeInit::Init(v),
    {
        *self = MaybeInit::Init(v);
    }
}

impl<T> Coerce<MaybeInit<T>> for T {
    open spec fn coerce_ok(self) -> bool {
        true
    }

    open spec fn coerced(self, r: MaybeInit<T>) -> bool {
        r == MaybeInit::Init(self)
    }

    fn coerce(self) -> (r: MaybeInit<T>) {
        MaybeInit::Init(self)
    }
}

impl<T> Coerce<T> for MaybeInit<T> {
    open spec fn coerce_ok(self) -> bool {
        self is Init
    }

    open spec fn coerced(self, r: T) -> bool {
        self == MaybeInit::Init(r)
    }

    fn coerce(self) -> (r: T) {
        match self {
            MaybeInit::Init(v) => v,
            MaybeInit::Uninit => unreached(),
        }
    }
}

impl<T> Bidirectional<MaybeInit<T>> for T {
    proof fn lemma_round_trip(self, mid: MaybeInit<T>, back: T) {
    }
}

impl<T> Bidirectional<T> for MaybeInit<T> {
    proof fn lemma_round_trip(self, mid: T, back: MaybeInit<T>) {
    }
}

} // verus!
