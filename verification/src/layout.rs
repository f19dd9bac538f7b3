//! Layout descriptors for the primitive families covered by the registry.
//!
//! Every reinterpretation in this crate is gated on layout equality: two
//! types may only exchange bit patterns when they occupy memory of the same
//! size and alignment.  The registry lists each covered type as a
//! [`TypeKind`] tag and assigns it a [`LayoutDesc`] through [`layout_of`];
//! the pointer-word family is listed with the 8-byte layout of the 64-bit
//! targets this table describes.

use vstd::prelude::*;

verus! {

/// A concrete type's layout: its size and alignment in bytes.
#[derive(Clone, Copy, PartialEq, Eq, Structural, Debug)]
pub struct LayoutDesc {
    pub size: usize,
    pub align: usize,
}

/// A tag naming one of the primitive types covered by the registry:
/// the fixed-width integers, their atomic counterparts, their non-zero
/// wrapper variants, and the booleans.
#[derive(Clone, Copy, PartialEq, Eq, Structural, Debug)]
pub enum TypeKind {
    U8,
    I8,
    NonZeroU8,
    NonZeroI8,
    AtomicU8,
    AtomicI8,
    Bool,
    AtomicBool,
    U16,
    I16,
    NonZeroU16,
    NonZeroI16,
    AtomicU16,
    AtomicI16,
    U32,
    I32,
    NonZeroU32,
    NonZeroI32,
    AtomicU32,
    AtomicI32,
    U64,
    I64,
    NonZeroU64,
    NonZeroI64,
    AtomicU64,
    AtomicI64,
    U128,
    I128,
    NonZeroU128,
    NonZeroI128,
    Usize,
    Isize,
    NonZeroUsize,
    NonZeroIsize,
    AtomicUsize,
    AtomicIsize,
}

/// The layout-equality families of the registry: all members of one family
/// share a single size and alignment.
#[derive(Clone, Copy, PartialEq, Eq, Structural, Debug)]
pub enum Family {
    Byte,
    Half,
    Word32,
    Word64,
    Word128,
    Pointer,
}

/// The family a covered type belongs to.
pub open spec fn family(k: TypeKind) -> Family {
    match k {
        TypeKind::U8 => Family::Byte,
        TypeKind::I8 => Family::Byte,
        TypeKind::NonZeroU8 => Family::Byte,
        TypeKind::NonZeroI8 => Family::Byte,
        TypeKind::AtomicU8 => Family::Byte,
        TypeKind::AtomicI8 => Family::Byte,
        TypeKind::Bool => Family::Byte,
        TypeKind::AtomicBool => Family::Byte,
        TypeKind::U16 => Family::Half,
        TypeKind::I16 => Family::Half,
        TypeKind::NonZeroU16 => Family::Half,
        TypeKind::NonZeroI16 => Family::Half,
        TypeKind::AtomicU16 => Family::Half,
        TypeKind::AtomicI16 => Family::Half,
        TypeKind::U32 => Family::Word32,
        TypeKind::I32 => Family::Word32,
        TypeKind::NonZeroU32 => Family::Word32,
        TypeKind::NonZeroI32 => Family::Word32,
        TypeKind::AtomicU32 => Family::Word32,
        TypeKind::AtomicI32 => Family::Word32,
        TypeKind::U64 => Family::Word64,
        TypeKind::I64 => Family::Word64,
        TypeKind::NonZeroU64 => Family::Word64,
        TypeKind::NonZeroI64 => Family::Word64,
        TypeKind::AtomicU64 => Family::Word64,
        TypeKind::AtomicI64 => Family::Word64,
        TypeKind::U128 => Family::Word128,
        TypeKind::I128 => Family::Word128,
        TypeKind::NonZeroU128 => Family::Word128,
        TypeKind::NonZeroI128 => Family::Word128,
        TypeKind::Usize => Family::Pointer,
        TypeKind::Isize => Family::Pointer,
        TypeKind::NonZeroUsize => Family::Pointer,
        TypeKind::NonZeroIsize => Family::Pointer,
        TypeKind::AtomicUsize => Family::Pointer,
        TypeKind::AtomicIsize => Family::Pointer,
    }
}

/// The layout shared by every member of a family.
pub open spec fn family_layout(f: Family) -> LayoutDesc {
    match f {
        Family::Byte => LayoutDesc { size: 1, align: 1 },
        Family::Half => LayoutDesc { size: 2, align: 2 },
        Family::Word32 => LayoutDesc { size: 4, align: 4 },
        Family::Word64 => LayoutDesc { size: 8, align: 8 },
        Family::Word128 => LayoutDesc { size: 16, align: 16 },
        Family::Pointer => LayoutDesc { size: 8, align: 8 },
    }
}

/// The layout the registry assigns to a covered type.
pub open spec fn layout_of(k: TypeKind) -> LayoutDesc {
    family_layout(family(k))
}

impl TypeKind {
    /// The family this type belongs to.
    pub fn family_of(self) -> (r: Family)
        ensures
            r == family(self),
    {
        match self {
            TypeKind::U8 => Family::Byte,
            TypeKind::I8 => Family::Byte,
            TypeKind::NonZeroU8 => Family::Byte,
            TypeKind::NonZeroI8 => Family::Byte,
            TypeKind::AtomicU8 => Family::Byte,
            TypeKind::AtomicI8 => Family::Byte,
            TypeKind::Bool => Family::Byte,
            TypeKind::AtomicBool => Family::Byte,
            TypeKind::U16 => Family::Half,
            TypeKind::I16 => Family::Half,
            TypeKind::NonZeroU16 => Family::Half,
            TypeKind::NonZeroI16 => Family::Half,
            TypeKind::AtomicU16 => Family::Half,
            TypeKind::AtomicI16 => Family::Half,
            TypeKind::U32 => Family::Word32,
            TypeKind::I32 => Family::Word32,
            TypeKind::NonZeroU32 => Family::Word32,
            TypeKind::NonZeroI32 => Family::Word32,
            TypeKind::AtomicU32 => Family::Word32,
            TypeKind::AtomicI32 => Family::Word32,
            TypeKind::U64 => Family::Word64,
            TypeKind::I64 => Family::Word64,
            TypeKind::NonZeroU64 => Family::Word64,
            TypeKind::NonZeroI64 => Family::Word64,
            TypeKind::AtomicU64 => Family::Word64,
            TypeKind::AtomicI64 => Family::Word64,
            TypeKind::U128 => Family::Word128,
            TypeKind::I128 => Family::Word128,
            TypeKind::NonZeroU128 => Family::Word128,
            TypeKind::NonZeroI128 => Family::Word128,
            TypeKind::Usize => Family::Pointer,
            TypeKind::Isize => Family::Pointer,
            TypeKind::NonZeroUsize => Family::Pointer,
            TypeKind::NonZeroIsize => Family::Pointer,
            TypeKind::AtomicUsize => Family::Pointer,
            TypeKind::AtomicIsize => Family::Pointer,
        }
    }

    /// The layout the registry assigns to this type.
    pub fn layout(self) -> (r: LayoutDesc)
        ensures
            r == layout_of(self),
    {
        match self.family_of() {
            Family::Byte => LayoutDesc { size: 1, align: 1 },
            Family::Half => LayoutDesc { size: 2, align: 2 },
            Family::Word32 => LayoutDesc { size: 4, align: 4 },
            Family::Word64 => LayoutDesc { size: 8, align: 8 },
            Family::Word128 => LayoutDesc { size: 16, align: 16 },
            Family::Pointer => LayoutDesc { size: 8, align: 8 },
        }
    }
}

/// The layout-equality gate: true exactly when the two types occupy memory
/// of the same size and alignment.
pub fn layouts_match(t: TypeKind, u: TypeKind) -> (r: bool)
    ensures
        r == (layout_of(t) == layout_of(u)),
{
    t.layout() == u.layout()
}

} // verus!
