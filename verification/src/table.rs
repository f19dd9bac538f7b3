//! The declarative registry of reinterpretation relations.
//!
//! Two relations are declared here, once, at definition time, and are
//! immutable thereafter.
//!
//! * The *coercion* relation ([`coerce_rel`]): permission to reinterpret the
//!   bit pattern of one type as another.  It is declared for every ordered
//!   pair of distinct types within one layout family and carries no claim
//!   about the validity of the resulting value — only that the two types
//!   occupy identical memory.
//! * The *capability* relation ([`as_rel`]): the strictly stronger, safe
//!   tier, declared only for pairs where every bit pattern of the source is
//!   independently known to be a valid value of the target.  Same-width
//!   signed/unsigned and plain/atomic pairs are declared in both directions;
//!   boolean to matching-width unsigned integer and non-zero wrapper to its
//!   plain counterpart are declared in that direction only.

use crate::layout::{family, layout_of, TypeKind};
use vstd::prelude::*;

verus! {

/// The coercion relation: the bit pattern of `t` may be reinterpreted as
/// `u`.  Declared exactly for distinct members of one layout family.
pub open spec fn coerce_rel(t: TypeKind, u: TypeKind) -> bool {
    family(t) == family(u) && t != u
}

/// The capability pairs declared in both directions: same-width
/// signed/unsigned integer pairs and their plain/atomic neighbours.
pub open spec fn as_pair_bidi(t: TypeKind, u: TypeKind) -> bool {
    ||| (t == TypeKind::U8 && u == TypeKind::I8)
    ||| (t == TypeKind::I8 && u == TypeKind::AtomicU8)
    ||| (t == TypeKind::AtomicU8 && u == TypeKind::AtomicI8)
    ||| (t == TypeKind::U16 && u == TypeKind::I16)
    ||| (t == TypeKind::I16 && u == TypeKind::AtomicU16)
    ||| (t == TypeKind::AtomicU16 && u == TypeKind::AtomicI16)
    ||| (t == TypeKind::U32 && u == TypeKind::I32)
    ||| (t == TypeKind::I32 && u == TypeKind::AtomicU32)
    ||| (t == TypeKind::AtomicU32 && u == TypeKind::AtomicI32)
    ||| (t == TypeKind::U64 && u == TypeKind::I64)
    ||| (t == TypeKind::I64 && u == TypeKind::AtomicU64)
    ||| (t == TypeKind::AtomicU64 && u == TypeKind::AtomicI64)
    ||| (t == TypeKind::U128 && u == TypeKind::I128)
    ||| (t == TypeKind::Usize && u == TypeKind::Isize)
    ||| (t == TypeKind::Isize && u == TypeKind::AtomicUsize)
    ||| (t == TypeKind::AtomicUsize && u == TypeKind::AtomicIsize)
}

/// The capability pairs declared in one direction only: every boolean bit
/// pattern is a valid unsigned byte, and every non-zero value is a valid
/// plain integer.  The reverse directions stay unchecked.
pub open spec fn as_pair_one_way(t: TypeKind, u: TypeKind) -> bool {
    ||| (t == TypeKind::Bool && u == TypeKind::U8)
    ||| (t == TypeKind::NonZeroU8 && u == TypeKind::U8)
    ||| (t == TypeKind::NonZeroU16 && u == TypeKind::U16)
    ||| (t == TypeKind::NonZeroU32 && u == TypeKind::U32)
    ||| (t == TypeKind::NonZeroU64 && u == TypeKind::U64)
    ||| (t == TypeKind::NonZeroU128 && u == TypeKind::U128)
    ||| (t == TypeKind::NonZeroUsize && u == TypeKind::Usize)
    ||| (t == TypeKind::NonZeroI8 && u == TypeKind::I8)
    ||| (t == TypeKind::NonZeroI16 && u == TypeKind::I16)
    ||| (t == TypeKind::NonZeroI32 && u == TypeKind::I32)
    ||| (t == TypeKind::NonZeroI64 && u == TypeKind::I64)
    ||| (t == TypeKind::NonZeroI128 && u == TypeKind::I128)
    ||| (t == TypeKind::NonZeroIsize && u == TypeKind::Isize)
}

/// The capability relation: every bit pattern producible by a value of `t`
/// is a valid value of `u`, so the safe tier applies to the pair.
pub open spec fn as_rel(t: TypeKind, u: TypeKind) -> bool {
    as_pair_bidi(t, u) || as_pair_bidi(u, t) || as_pair_one_way(t, u)
}

/// Whether the coercion relation is declared for the ordered pair.
pub fn coerce_allowed(t: TypeKind, u: TypeKind) -> (r: bool)
    ensures
        r == coerce_rel(t, u),
{
    t.family_of() == u.family_of() && !(t == u)
}

/// Whether the bidirectional capability list holds the ordered pair.
fn as_pair_bidi_allowed(t: TypeKind, u: TypeKind) -> (r: bool)
    ensures
        r == as_pair_bidi(t, u),
{
    (t == TypeKind::U8 && u == TypeKind::I8)
        || (t == TypeKind::I8 && u == TypeKind::AtomicU8)
        || (t == TypeKind::AtomicU8 && u == TypeKind::AtomicI8)
        || (t == TypeKind::U16 && u == TypeKind::I16)
        || (t == TypeKind::I16 && u == TypeKind::AtomicU16)
        || (t == TypeKind::AtomicU16 && u == TypeKind::AtomicI16)
        || (t == TypeKind::U32 && u == TypeKind::I32)
        || (t == TypeKind::I32 && u == TypeKind::AtomicU32)
        || (t == TypeKind::AtomicU32 && u == TypeKind::AtomicI32)
        || (t == TypeKind::U64 && u == TypeKind::I64)
        || (t == TypeKind::I64 && u == TypeKind::AtomicU64)
        || (t == TypeKind::AtomicU64 && u == TypeKind::AtomicI64)
        || (t == TypeKind::U128 && u == TypeKind::I128)
        || (t == TypeKind::Usize && u == TypeKind::Isize)
        || (t == TypeKind::Isize && u == TypeKind::AtomicUsize)
        || (t == TypeKind::AtomicUsize && u == TypeKind::AtomicIsize)
}

/// Whether the one-directional capability list holds the ordered pair.
fn as_pair_one_way_allowed(t: TypeKind, u: TypeKind) -> (r: bool)
    ensures
        r == as_pair_one_way(t, u),
{
    (t == TypeKind::Bool && u == TypeKind::U8)
        || (t == TypeKind::NonZeroU8 && u == TypeKind::U8)
        || (t == TypeKind::NonZeroU16 && u == TypeKind::U16)
        || (t == TypeKind::NonZeroU32 && u == TypeKind::U32)
        || (t == TypeKind::NonZeroU64 && u == TypeKind::U64)
        || (t == TypeKind::NonZeroU128 && u == TypeKind::U128)
        || (t == TypeKind::NonZeroUsize && u == TypeKind::Usize)
        || (t == TypeKind::NonZeroI8 && u == TypeKind::I8)
        || (t == TypeKind::NonZeroI16 && u == TypeKind::I16)
        || (t == TypeKind::NonZeroI32 && u == TypeKind::I32)
        || (t == TypeKind::NonZeroI64 && u == TypeKind::I64)
        || (t == TypeKind::NonZeroI128 && u == TypeKind::I128)
        || (t == TypeKind::NonZeroIsize && u == TypeKind::Isize)
}

/// Whether the capability relation is declared for the ordered pair.
pub fn as_allowed(t: TypeKind, u: TypeKind) -> (r: bool)
    ensures
        r == as_rel(t, u),
{
    as_pair_bidi_allowed(t, u) || as_pair_bidi_allowed(u, t) || as_pair_one_way_allowed(t, u)
}

/// Every declared coercion relation joins two types of identical size and
/// alignment: the registry never relates types of differing layout.
pub proof fn lemma_declared_layout_eq(t: TypeKind, u: TypeKind)
    requires
        coerce_rel(t, u),
    ensures
        layout_of(t) == layout_of(u),
{
}

/// The capability relation is a strict subset of the coercion relation:
/// every declared safe pair is also a declared unchecked pair.
pub proof fn lemma_capability_within_coercion(t: TypeKind, u: TypeKind)
    requires
        as_rel(t, u),
    ensures
        coerce_rel(t, u),
{
}

/// The coercion relation is symmetric: within a layout family, bit patterns
/// may be exchanged in either direction.
pub proof fn lemma_coercion_symmetric(t: TypeKind, u: TypeKind)
    ensures
        coerce_rel(t, u) == coerce_rel(u, t),
{
}

/// A declared safe capability does not imply the reverse capability unless
/// that reverse was separately declared: boolean to unsigned byte and
/// non-zero wrapper to plain integer are declared one way only.
pub proof fn lemma_capability_directional()
    ensures
        as_rel(TypeKind::Bool, TypeKind::U8),
        !as_rel(TypeKind::U8, TypeKind::Bool),
        as_rel(TypeKind::NonZeroU64, TypeKind::U64),
        !as_rel(TypeKind::U64, TypeKind::NonZeroU64),
{
}

} // verus!
