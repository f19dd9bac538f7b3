//! The non-zero wrapper: a 64-bit unsigned integer whose only invariant is
//! that its value is never zero.
//!
//! A non-zero value is always a valid plain integer, so the wrapper carries
//! the safe capability towards `u64`.  The reverse direction is unchecked
//! only: zero is not a valid non-zero value, so reinterpreting a plain
//! integer demands the caller-guaranteed precondition that it is not zero.

use crate::as_::As;
use crate::coerce::{Bidirectional, Coerce};
use vstd::pervasive::unreached;
use vstd::prelude::*;

verus! {

/// A 64-bit unsigned integer known to be non-zero, sharing the bit layout
/// of its plain counterpart.
#[derive(Clone, Copy, PartialEq, Eq, Structural, Debug)]
pub struct NonZero64 {
    v: u64,
}

impl NonZero64 {
    #[verifier::type_invariant]
    spec fn type_inv(self) -> bool {
        self.v != 0
    }

    /// The wrapped integer.
    pub closed spec fn value(self) -> u64 {
        self.v
    }

    /// Wraps a value, refusing zero.
    pub fn new(v: u64) -> (r: Option<NonZero64>)
        ensures
            v != 0 ==> (r matches Some(n) && n.value() == v),
            v == 0 ==> r is None,
    {
        if v != 0 {
            Some(NonZero64 { v })
        } else {
            None
        }
    }

    /// Reads the wrapped integer back out.
    pub fn get(self) -> (r: u64)
        ensures
            r == self.value(),
            r != 0,
    {
        proof {
            use_type_invariant(self);
        }
        self.v
    }
}

impl Coerce<NonZero64> for u64 {
    open spec fn coerce_ok(self) -> bool {
        self != 0
    }

    open spec fn coerced(self, r: NonZero64) -> bool {
        r.value() == self
    }

    fn coerce(self) -> (r: NonZero64) {
        match NonZero64::new(self) {
            Some(n) => n,
            None => unreached(),
        }
    }
}

impl Coerce<u64> for NonZero64 {
    open spec fn coerce_ok(self) -> bool {
        true
    }

    open spec fn coerced(self, r: u64) -> bool {
        r == self.value()
    }

    fn coerce(self) -> (r: u64) {
        self.get()
    }
}

impl As<u64> for NonZero64 {
    proof fn lemma_always_ok(self) {
    }

    fn as_(self) -> (r: u64) {
        self.coerce()
    }
}

impl Bidirectional<NonZero64> for u64 {
    proof fn lemma_round_trip(self, mid: NonZero64, back: u64) {
    }
}

impl Bidirectional<u64> for NonZero64 {
    proof fn lemma_round_trip(self, mid: u64, back: NonZero64) {
    }
}

} // verus!
