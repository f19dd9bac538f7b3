//! Pointer-level reinterpretation, as bookkeeping over pointer
//! representations.
//!
//! A pointer to a statically sized value is a single word: one address.  A
//! pointer to a sequence whose size is only known at runtime is two words:
//! an address and an element count.  Reinterpreting a pointer moves no
//! value: only the element-type tag of the representation changes, the
//! address is carried over, and for the two-word form the count is copied
//! through unchanged — the element stride on both sides must match exactly,
//! and the operation never rescales a count.  Mixing the single-word and
//! two-word forms is unrepresentable here: they are distinct types, so the
//! shape gate holds at compile time.

use crate::layout::{layout_of, TypeKind};
use crate::table::{coerce_rel, lemma_declared_layout_eq};
use vstd::prelude::*;

verus! {

/// The single-word representation of a pointer to a statically sized value.
#[derive(Clone, Copy, PartialEq, Eq, Structural, Debug)]
pub struct ThinPtr {
    pub addr: usize,
}

/// The two-word representation of a pointer to a sequence: the address and
/// the element count.
#[derive(Clone, Copy, PartialEq, Eq, Structural, Debug)]
pub struct FatPtr {
    pub addr: usize,
    pub len: usize,
}

/// Reinterprets a pointer to a statically sized value: the address is
/// unchanged, only its element-type tag moves from `t` to `u`.  The layout
/// gate is the declared relation between the two tags.
pub fn reinterpret_thin_ptr(p: ThinPtr, t: TypeKind, u: TypeKind) -> (r: ThinPtr)
    requires
        coerce_rel(t, u),
    ensures
        r.addr == p.addr,
        layout_of(u) == layout_of(t),
{
    proof {
        lemma_declared_layout_eq(t, u);
    }
    ThinPtr { addr: p.addr }
}

/// Reinterprets a pointer to a sequence, rebuilding the two-word
/// representation: the count field is copied through unchanged, the address
/// keeps its value under a new element-type tag, and the element stride on
/// both sides is identical — counts are never rescaled.
pub fn reinterpret_slice_ptr(p: FatPtr, t: TypeKind, u: TypeKind) -> (r: FatPtr)
    requires
        coerce_rel(t, u),
    ensures
        r.addr == p.addr,
        r.len == p.len,
        layout_of(u).size == layout_of(t).size,
{
    proof {
        lemma_declared_layout_eq(t, u);
    }
    FatPtr { addr: p.addr, len: p.len }
}

/// Reinterprets the view of encoded text as the view of its bytes, or back:
/// both are two-word representations whose count is a byte count, so the
/// representation is carried over whole.
pub fn reinterpret_text_ptr(p: FatPtr) -> (r: FatPtr)
    ensures
        r == p,
{
    FatPtr { addr: p.addr, len: p.len }
}

} // verus!
