//! The safe reinterpretation tier.
//!
//! [`As`] is available for a declared pair only when every bit pattern of
//! the source type is independently known to be a valid value of the target
//! type.  Each implementation must prove exactly that claim
//! ([`As::lemma_always_ok`]); the conversion itself performs the same
//! bit-pattern transfer as the unchecked tier, but needs nothing further
//! from its caller.

use crate::coerce::Coerce;
use vstd::prelude::*;

verus! {

/// Types that can be reinterpreted as other types of the same size and
/// alignment without any caller-side validity guarantee.
pub trait As<U>: Coerce<U> {
    /// The declared capability: every value of `Self` satisfies the
    /// validity precondition of the unchecked tier.
    proof fn lemma_always_ok(self)
        ensures
            self.coerce_ok(),
    ;

    /// Performs the conversion on an owned value.
    fn as_(self) -> (r: U)
        ensures
            self.coerced(r),
    ;
}

impl As<i8> for u8 {
    proof fn lemma_always_ok(self) {
    }

    fn as_(self) -> (r: i8) {
        self.coerce()
    }
}

impl As<u8> for i8 {
    proof fn lemma_always_ok(self) {
    }

    fn as_(self) -> (r: u8) {
        self.coerce()
    }
}

impl As<i16> for u16 {
    proof fn lemma_always_ok(self) {
    }

    fn as_(self) -> (r: i16) {
        self.coerce()
    }
}

impl As<u16> for i16 {
    proof fn lemma_always_ok(self) {
    }

    fn as_(self) -> (r: u16) {
        self.coerce()
    }
}

impl As<i32> for u32 {
    proof fn lemma_always_ok(self) {
    }

    fn as_(self) -> (r: i32) {
        self.coerce()
    }
}

impl As<u32> for i32 {
    proof fn lemma_always_ok(self) {
    }

    fn as_(self) -> (r: u32) {
        self.coerce()
    }
}

impl As<i64> for u64 {
    proof fn lemma_always_ok(self) {
    }

    fn as_(self) -> (r: i64) {
        self.coerce()
    }
}

impl As<u64> for i64 {
    proof fn lemma_always_ok(self) {
    }

    fn as_(self) -> (r: u64) {
        self.coerce()
    }
}

impl As<isize> for usize {
    proof fn lemma_always_ok(self) {
    }

    fn as_(self) -> (r: isize) {
        self.coerce()
    }
}

impl As<usize> for isize {
    proof fn lemma_always_ok(self) {
    }

    fn as_(self) -> (r: usize) {
        self.coerce()
    }
}

impl As<i128> for u128 {
    proof fn lemma_always_ok(self) {
    }

    fn as_(self) -> (r: i128) {
        self.coerce()
    }
}

impl As<u128> for i128 {
    proof fn lemma_always_ok(self) {
    }

    fn as_(self) -> (r: u128) {
        self.coerce()
    }
}

impl As<u8> for bool {
    proof fn lemma_always_ok(self) {
    }

    fn as_(self) -> (r: u8) {
        self.coerce()
    }
}

} // verus!
