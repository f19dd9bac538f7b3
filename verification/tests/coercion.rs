use coercion::maybe::MaybeInit;
use coercion::nonzero::NonZero64;
use coercion::As;
use coercion::Coerce;

#[test]
fn it_works() {
    assert_eq!(2 + 2, 4);
}

#[test]
fn box_coercion() {
    let boxed_u64: Box<u64> = Box::new(1u64);

    let boxed_nonzero_u64: Box<NonZero64> = boxed_u64.coerce();

    assert_eq!(*boxed_nonzero_u64, NonZero64::new(1).unwrap());
}

#[test]
fn boxed_slice_coercion() {
    let boxed_u64 = vec![1u64; 100];

    let boxed_nonzero: Vec<NonZero64> = boxed_u64.coerce();

    assert_eq!(boxed_nonzero, vec![NonZero64::new(1).unwrap(); 100]);
}

#[test]
fn maybe_uninit() {
    let mut uninit: Box<MaybeInit<NonZero64>> = Box::new(MaybeInit::uninit());

    uninit.write(NonZero64::new(123456).unwrap());

    let init: Box<NonZero64> = uninit.coerce();

    assert_eq!(init.get(), 123456);
}

#[test]
fn maybe_uninit_slice() {
    let mut uninit: Vec<MaybeInit<bool>> = vec![MaybeInit::<bool>::uninit(); 100];

    for b in &mut uninit[..] {
        b.write(true);
    }

    let init: Vec<bool> = uninit.coerce();

    assert_eq!(&init[..], &vec![true; 100][..]);
}

#[test]
fn boxed_str_to_u8() {
    let boxed_str: String = String::from("Hello World!");
    let boxed_u8: Vec<u8> = boxed_str.as_();
    assert_eq!(&boxed_u8[..], b"Hello World!");
}

#[test]
fn bool_slice_round_trip() {
    let bools = vec![true, false, true, false, true, true, false, false];

    let bytes: Vec<u8> = bools.clone().as_();
    assert_eq!(bytes, vec![1u8, 0, 1, 0, 1, 1, 0, 0]);

    let back: Vec<bool> = bytes.coerce();
    assert_eq!(back, bools);
}

#[test]
fn text_round_trip() {
    let text = String::from("Hello World!");

    let bytes: Vec<u8> = text.clone().as_();
    assert_eq!(&bytes[..], b"Hello World!");

    let back: String = bytes.coerce();
    assert_eq!(back, text);
}

#[test]
fn heap_nonzero_readout() {
    let boxed: Box<u64> = Box::new(1u64);

    let nonzero: Box<NonZero64> = boxed.coerce();

    assert_eq!(nonzero.get(), 1);
}

#[test]
fn boxed_safe_tier() {
    let boxed: Box<NonZero64> = Box::new(NonZero64::new(42).unwrap());

    let plain: Box<u64> = boxed.as_();

    assert_eq!(*plain, 42);
}

#[test]
fn nonzero_refuses_zero() {
    assert!(NonZero64::new(0).is_none());
    assert!(NonZero64::new(5).is_some());
}

#[test]
fn nonzero_to_plain_is_safe() {
    let n = NonZero64::new(9).unwrap();
    let plain: u64 = n.as_();
    assert_eq!(plain, 9);
}

#[test]
fn signed_unsigned_bytes() {
    let x: i8 = 200u8.coerce();
    assert_eq!(x, -56);

    let y: u8 = (-1i8).coerce();
    assert_eq!(y, 255);

    let back: u8 = x.coerce();
    assert_eq!(back, 200);
}

#[test]
fn signed_unsigned_wide() {
    let a: i16 = 40000u16.coerce();
    assert_eq!(a, -25536);

    let b: i32 = 3_000_000_000u32.coerce();
    assert_eq!(b, -1_294_967_296);

    let c: i64 = u64::MAX.coerce();
    assert_eq!(c, -1);

    let d: u64 = (-1i64).coerce();
    assert_eq!(d, u64::MAX);
}

#[test]
fn signed_unsigned_widest() {
    let a: i128 = u128::MAX.coerce();
    assert_eq!(a, -1);

    let b: u128 = (-1i128).coerce();
    assert_eq!(b, u128::MAX);

    let c: i128 = (1u128 << 127).coerce();
    assert_eq!(c, i128::MIN);

    let back: u128 = c.coerce();
    assert_eq!(back, 1u128 << 127);
}

#[test]
fn signed_unsigned_pointer_width() {
    let a: isize = usize::MAX.coerce();
    assert_eq!(a, -1);

    let b: usize = (-1isize).coerce();
    assert_eq!(b, usize::MAX);

    let c: usize = isize::MIN.as_();
    assert_eq!(c, (isize::MAX as usize) + 1);
}

#[test]
fn bool_bit_patterns() {
    let one: u8 = true.as_();
    let zero: u8 = false.as_();
    assert_eq!(one, 1);
    assert_eq!(zero, 0);

    let t: bool = 1u8.coerce();
    let f: bool = 0u8.coerce();
    assert!(t);
    assert!(!f);
}

#[test]
fn container_round_trip() {
    let wrapped: MaybeInit<u8> = 77u8.coerce();
    let out: u8 = wrapped.coerce();
    assert_eq!(out, 77);
}
