use coercion::layout::{Family, LayoutDesc, TypeKind};
use coercion::ptr::{FatPtr, ThinPtr};
use coercion::layout::layouts_match;
use coercion::table::{as_allowed, coerce_allowed};
use coercion::ptr::{reinterpret_slice_ptr, reinterpret_text_ptr, reinterpret_thin_ptr};

#[test]
fn layouts_of_families() {
    assert_eq!(TypeKind::U8.layout(), LayoutDesc { size: 1, align: 1 });
    assert_eq!(TypeKind::Bool.layout(), LayoutDesc { size: 1, align: 1 });
    assert_eq!(TypeKind::U16.layout(), LayoutDesc { size: 2, align: 2 });
    assert_eq!(TypeKind::I32.layout(), LayoutDesc { size: 4, align: 4 });
    assert_eq!(TypeKind::NonZeroU64.layout(), LayoutDesc { size: 8, align: 8 });
    assert_eq!(TypeKind::U128.layout(), LayoutDesc { size: 16, align: 16 });
    assert_eq!(TypeKind::AtomicUsize.layout(), LayoutDesc { size: 8, align: 8 });
    assert_eq!(TypeKind::AtomicBool.family_of(), Family::Byte);

    assert!(layouts_match(TypeKind::U8, TypeKind::Bool));
    assert!(layouts_match(TypeKind::U64, TypeKind::AtomicIsize));
    assert!(!layouts_match(TypeKind::U8, TypeKind::U16));
}

#[test]
fn declared_relations_share_layout() {
    let kinds = [
        TypeKind::U8,
        TypeKind::I8,
        TypeKind::NonZeroU8,
        TypeKind::Bool,
        TypeKind::U16,
        TypeKind::I16,
        TypeKind::U32,
        TypeKind::U64,
        TypeKind::I64,
        TypeKind::NonZeroU64,
        TypeKind::AtomicU64,
        TypeKind::U128,
        TypeKind::Usize,
        TypeKind::Isize,
    ];
    for &t in &kinds {
        for &u in &kinds {
            if coerce_allowed(t, u) {
                assert_eq!(t.layout(), u.layout());
            }
        }
    }
}

#[test]
fn coercion_within_family_only() {
    assert!(coerce_allowed(TypeKind::U8, TypeKind::I8));
    assert!(coerce_allowed(TypeKind::U8, TypeKind::Bool));
    assert!(coerce_allowed(TypeKind::U64, TypeKind::AtomicI64));
    assert!(!coerce_allowed(TypeKind::U8, TypeKind::U8));
    assert!(!coerce_allowed(TypeKind::U8, TypeKind::U16));
    assert!(!coerce_allowed(TypeKind::U64, TypeKind::U128));
}

#[test]
fn capability_is_directional() {
    assert!(as_allowed(TypeKind::Bool, TypeKind::U8));
    assert!(!as_allowed(TypeKind::U8, TypeKind::Bool));

    assert!(as_allowed(TypeKind::NonZeroU64, TypeKind::U64));
    assert!(!as_allowed(TypeKind::U64, TypeKind::NonZeroU64));

    assert!(as_allowed(TypeKind::U8, TypeKind::I8));
    assert!(as_allowed(TypeKind::I8, TypeKind::U8));
}

#[test]
fn capability_implies_coercion() {
    let kinds = [
        TypeKind::U8,
        TypeKind::I8,
        TypeKind::AtomicU8,
        TypeKind::AtomicI8,
        TypeKind::Bool,
        TypeKind::NonZeroU8,
        TypeKind::U64,
        TypeKind::I64,
        TypeKind::NonZeroU64,
        TypeKind::Usize,
        TypeKind::Isize,
    ];
    for &t in &kinds {
        for &u in &kinds {
            if as_allowed(t, u) {
                assert!(coerce_allowed(t, u));
            }
        }
    }
}

#[test]
fn slice_ptr_keeps_count_and_address() {
    let p = FatPtr { addr: 4096, len: 100 };
    let r = reinterpret_slice_ptr(p, TypeKind::U64, TypeKind::NonZeroU64);
    assert_eq!(r.addr, 4096);
    assert_eq!(r.len, 100);
}

#[test]
fn thin_ptr_keeps_address() {
    let p = ThinPtr { addr: 512 };
    let r = reinterpret_thin_ptr(p, TypeKind::U32, TypeKind::I32);
    assert_eq!(r.addr, 512);
}

#[test]
fn text_ptr_unchanged() {
    let p = FatPtr { addr: 2048, len: 12 };
    let r = reinterpret_text_ptr(p);
    assert_eq!(r, p);
}
