//! Structural lifting of an established relation across composite shapes.
//!
//! A relation between two element types lifts to the sequence of those
//! elements and to the heap-owned value of them.  Lifting adds no behaviour
//! of its own: the element count and order are preserved exactly, each
//! element of the result is the independent per-element reinterpretation,
//! and a heap-owned value is reinterpreted without touching its contents'
//! meaning.  The safe tier lifts alongside: a sequence or heap-owned value
//! of an always-valid source is itself always valid.

use crate::as_::As;
use crate::coerce::{Bidirectional, Coerce};
use vstd::prelude::*;

verus! {

impl<T: Coerce<U>, U> Coerce<Vec<U>> for Vec<T> {
    open spec fn coerce_ok(self) -> bool {
        forall|i: int| 0 <= i < self@.len() ==> (#[trigger] self@[i]).coerce_ok()
    }

    open spec fn coerced(self, r: Vec<U>) -> bool {
        &&& r@.len() == self@.len()
        &&& forall|i: int| 0 <= i < self@.len() ==> self@[i].coerced(#[trigger] r@[i])
    }

    fn coerce(self) -> (r: Vec<U>) {
        let ghost orig = self@;
        let mut rest = self;
        let mut out: Vec<U> = Vec::new();
        while rest.len() > 0
            invariant
                out@.len() + rest@.len() == orig.len(),
                rest@ == orig.subrange(out@.len() as int, orig.len() as int),
                forall|i: int| 0 <= i < orig.len() ==> (#[trigger] orig[i]).coerce_ok(),
                forall|i: int| 0 <= i < out@.len() ==> orig[i].coerced(#[trigger] out@[i]),
            decreases rest@.len(),
        {
            let x = rest.remove(0);
            proof {
                assert(x == orig[out@.len() as int]);
            }
            let y = x.coerce();
            out.push(y);
            proof {
                assert(rest@ =~= orig.subrange(out@.len() as int, orig.len() as int));
            }
        }
        out
    }
}

impl<T: Coerce<U>, U> Coerce<Box<U>> for Box<T> {
    open spec fn coerce_ok(self) -> bool {
        (*self).coerce_ok()
    }

    open spec fn coerced(self, r: Box<U>) -> bool {
        (*self).coerced(*r)
    }

    fn coerce(self) -> (r: Box<U>) {
        let inner: T = *self;
        Box::new(inner.coerce())
    }
}

impl<T: As<U>, U> As<Vec<U>> for Vec<T> {
    proof fn lemma_always_ok(self) {
        assert forall|i: int| 0 <= i < self@.len() implies (#[trigger] self@[i]).coerce_ok() by {
            self@[i].lemma_always_ok();
        }
    }

    fn as_(self) -> (r: Vec<U>) {
        proof {
            self.lemma_always_ok();
        }
        self.coerce()
    }
}

impl<T: As<U>, U> As<Box<U>> for Box<T> {
    proof fn lemma_always_ok(self) {
        (*self).lemma_always_ok();
    }

    fn as_(self) -> (r: Box<U>) {
        proof {
            self.lemma_always_ok();
        }
        self.coerce()
    }
}

/// Composite lifting preserves length and works element-wise: a sequence of
/// N source elements becomes a sequence of N target elements, each equal to
/// the independent per-element reinterpretation.
pub proof fn lemma_lift_elementwise<T: Coerce<U>, U>(v: Vec<T>, r: Vec<U>)
    requires
        v.coerced(r),
    ensures
        r@.len() == v@.len(),
        forall|i: int| 0 <= i < v@.len() ==> v@[i].coerced(#[trigger] r@[i]),
{
}

/// Round trip across the sequence lifting: coercing a sequence there and
/// back element-wise reproduces the original sequence of values exactly.
pub proof fn lemma_round_trip_vec<T: Bidirectional<U>, U: Coerce<T>>(
    v: Vec<T>,
    mid: Vec<U>,
    back: Vec<T>,
)
    requires
        v.coerced(mid),
        mid.coerced(back),
    ensures
        back@ == v@,
{
    assert forall|i: int| 0 <= i < v@.len() implies back@[i] == v@[i] by {
        v@[i].lemma_round_trip(mid@[i], back@[i]);
    }
    assert(back@ =~= v@);
}

/// Round trip across the heap-owned lifting: coercing a heap-owned value
/// there and back reproduces the original value exactly.
pub proof fn lemma_round_trip_box<T: Bidirectional<U>, U: Coerce<T>>(
    v: Box<T>,
    mid: Box<U>,
    back: Box<T>,
)
    requires
        v.coerced(mid),
        mid.coerced(back),
    ensures
        *back == *v,
{
    (*v).lemma_round_trip(*mid, *back);
}

} // verus!
