//! The unchecked reinterpretation tier.
//!
//! [`Coerce`] is the primitive the whole crate rests on: an owned value of
//! one type becomes an owned value of another type carrying the same bit
//! pattern.  The caller must guarantee that the bit pattern at hand is a
//! valid value of the target type; that guarantee is the `requires` clause
//! of [`Coerce::coerce`], so a verified caller discharges it by proof and
//! the conversion itself can never produce an invalid value.
//!
//! The bit pattern of a fixed-width integer is modelled as the integer it
//! stores under the unsigned reading of its bytes: two's complement for the
//! signed types, zero or one for the booleans.  Reinterpreting preserves
//! this number exactly — the numeric *meaning* of a pattern whose sign bit
//! is set changes, the pattern itself never does.

use vstd::prelude::*;

verus! {

/// The bit pattern of a signed 8-bit value: its two's complement reading.
pub open spec fn i8_bits(v: i8) -> int {
    if v >= 0 {
        v as int
    } else {
        v + 0x100
    }
}

/// The bit pattern of a signed 16-bit value: its two's complement reading.
pub open spec fn i16_bits(v: i16) -> int {
    if v >= 0 {
        v as int
    } else {
        v + 0x1_0000
    }
}

/// The bit pattern of a signed 32-bit value: its two's complement reading.
pub open spec fn i32_bits(v: i32) -> int {
    if v >= 0 {
        v as int
    } else {
        v + 0x1_0000_0000
    }
}

/// The bit pattern of a signed 64-bit value: its two's complement reading.
pub open spec fn i64_bits(v: i64) -> int {
    if v >= 0 {
        v as int
    } else {
        v + 0x1_0000_0000_0000_0000
    }
}

/// The bit pattern of a signed 128-bit value: its two's complement reading.
pub open spec fn i128_bits(v: i128) -> int {
    if v >= 0 {
        v as int
    } else {
        v + 0x1_0000_0000_0000_0000_0000_0000_0000_0000
    }
}

/// The bit pattern of a signed pointer-width value: its two's complement
/// reading, at whatever width the platform's pointer word has.
pub open spec fn isize_bits(v: isize) -> int {
    if v >= 0 {
        v as int
    } else {
        v + usize::MAX + 1
    }
}

/// The bit pattern of a boolean: one for true, zero for false.
pub open spec fn bool_bits(v: bool) -> int {
    if v {
        1
    } else {
        0
    }
}

/// Unsafe-by-contract, unchecked reinterpretation between types of the same
/// size and alignment.
///
/// `coerce_ok` is the caller-guaranteed validity precondition: the values of
/// `Self` whose bit pattern is a valid value of `U`.  `coerced` is the
/// reinterpretation relation itself: it holds exactly when the result
/// carries the bit pattern of the source.
pub trait Coerce<U>: Sized {
    /// Whether this value's bit pattern is a valid value of the target type.
    spec fn coerce_ok(self) -> bool;

    /// Whether `r` carries this value's bit pattern.
    spec fn coerced(self, r: U) -> bool;

    /// Performs the reinterpretation on an owned value, transferring
    /// ownership of the underlying bits.
    fn coerce(self) -> (r: U)
        requires
            self.coerce_ok(),
        ensures
            self.coerced(r),
    ;
}

/// A relation declared in both directions: reinterpreting there and back
/// returns the original value, bit-identically.
pub trait Bidirectional<U>: Coerce<U> where U: Coerce<Self> {
    /// Round trip: coercing `self` to `mid` and `mid` back to `back`
    /// reproduces `self` exactly.
    proof fn lemma_round_trip(self, mid: U, back: Self)
        requires
            self.coerced(mid),
            mid.coerced(back),
        ensures
            back == self,
    ;
}

impl Coerce<i8> for u8 {
    open spec fn coerce_ok(self) -> bool {
        true
    }

    open spec fn coerced(self, r: i8) -> bool {
        i8_bits(r) == self as int
    }

    fn coerce(self) -> (r: i8) {
        if self < 128 {
            self as i8
        } else {
            ((self as i16) - 256) as i8
        }
    }
}

impl Coerce<u8> for i8 {
    open spec fn coerce_ok(self) -> bool {
        true
    }

    open spec fn coerced(self, r: u8) -> bool {
        r as int == i8_bits(self)
    }

    fn coerce(self) -> (r: u8) {
        if self >= 0 {
            self as u8
        } else {
            ((self as i16) + 256) as u8
        }
    }
}

impl Coerce<i16> for u16 {
    open spec fn coerce_ok(self) -> bool {
        true
    }

    open spec fn coerced(self, r: i16) -> bool {
        i16_bits(r) == self as int
    }

    fn coerce(self) -> (r: i16) {
        if self < 0x8000 {
            self as i16
        } else {
            ((self as i32) - 0x1_0000) as i16
        }
    }
}

impl Coerce<u16> for i16 {
    open spec fn coerce_ok(self) -> bool {
        true
    }

    open spec fn coerced(self, r: u16) -> bool {
        r as int == i16_bits(self)
    }

    fn coerce(self) -> (r: u16) {
        if self >= 0 {
            self as u16
        } else {
            ((self as i32) + 0x1_0000) as u16
        }
    }
}

impl Coerce<i32> for u32 {
    open spec fn coerce_ok(self) -> bool {
        true
    }

    open spec fn coerced(self, r: i32) -> bool {
        i32_bits(r) == self as int
    }

    fn coerce(self) -> (r: i32) {
        if self < 0x8000_0000 {
            self as i32
        } else {
            ((self as i64) - 0x1_0000_0000) as i32
        }
    }
}

impl Coerce<u32> for i32 {
    open spec fn coerce_ok(self) -> bool {
        true
    }

    open spec fn coerced(self, r: u32) -> bool {
        r as int == i32_bits(self)
    }

    fn coerce(self) -> (r: u32) {
        if self >= 0 {
            self as u32
        } else {
            ((self as i64) + 0x1_0000_0000) as u32
        }
    }
}

impl Coerce<i64> for u64 {
    open spec fn coerce_ok(self) -> bool {
        true
    }

    open spec fn coerced(self, r: i64) -> bool {
        i64_bits(r) == self as int
    }

    fn coerce(self) -> (r: i64) {
        if self < 0x8000_0000_0000_0000 {
            self as i64
        } else {
            ((self as i128) - 0x1_0000_0000_0000_0000) as i64
        }
    }
}

impl Coerce<u64> for i64 {
    open spec fn coerce_ok(self) -> bool {
        true
    }

    open spec fn coerced(self, r: u64) -> bool {
        r as int == i64_bits(self)
    }

    fn coerce(self) -> (r: u64) {
        if self >= 0 {
            self as u64
        } else {
            ((self as i128) + 0x1_0000_0000_0000_0000) as u64
        }
    }
}

impl Coerce<isize> for usize {
    open spec fn coerce_ok(self) -> bool {
        true
    }

    open spec fn coerced(self, r: isize) -> bool {
        isize_bits(r) == self as int
    }

    fn coerce(self) -> (r: isize) {
        if self <= (isize::MAX as usize) {
            self as isize
        } else {
            let high: usize = self - (isize::MAX as usize) - 1;
            (high as isize) + isize::MIN
        }
    }
}

impl Coerce<usize> for isize {
    open spec fn coerce_ok(self) -> bool {
        true
    }

    open spec fn coerced(self, r: usize) -> bool {
        r as int == isize_bits(self)
    }

    fn coerce(self) -> (r: usize) {
        if self >= 0 {
            self as usize
        } else {
            let low: isize = self - isize::MIN;
            (low as usize) + (isize::MAX as usize) + 1
        }
    }
}

impl Coerce<i128> for u128 {
    open spec fn coerce_ok(self) -> bool {
        true
    }

    open spec fn coerced(self, r: i128) -> bool {
        i128_bits(r) == self as int
    }

    fn coerce(self) -> (r: i128) {
        if self < 0x8000_0000_0000_0000_0000_0000_0000_0000u128 {
            self as i128
        } else {
            let low = (self - 0x8000_0000_0000_0000_0000_0000_0000_0000u128) as i128;
            low + (-0x7fff_ffff_ffff_ffff_ffff_ffff_ffff_ffffi128 - 1)
        }
    }
}

impl Coerce<u128> for i128 {
    open spec fn coerce_ok(self) -> bool {
        true
    }

    open spec fn coerced(self, r: u128) -> bool {
        r as int == i128_bits(self)
    }

    fn coerce(self) -> (r: u128) {
        if self >= 0 {
            self as u128
        } else {
            let low = (self - (-0x7fff_ffff_ffff_ffff_ffff_ffff_ffff_ffffi128 - 1)) as u128;
            low + 0x8000_0000_0000_0000_0000_0000_0000_0000u128
        }
    }
}

impl Coerce<u8> for bool {
    open spec fn coerce_ok(self) -> bool {
        true
    }

    open spec fn coerced(self, r: u8) -> bool {
        r as int == bool_bits(self)
    }

    fn coerce(self) -> (r: u8) {
        if self {
            1
        } else {
            0
        }
    }
}

impl Coerce<bool> for u8 {
    open spec fn coerce_ok(self) -> bool {
        self == 0 || self == 1
    }

    open spec fn coerced(self, r: bool) -> bool {
        bool_bits(r) == self as int
    }

    fn coerce(self) -> (r: bool) {
        self == 1
    }
}

impl Bidirectional<i8> for u8 {
    proof fn lemma_round_trip(self, mid: i8, back: u8) {
    }
}

impl Bidirectional<u8> for i8 {
    proof fn lemma_round_trip(self, mid: u8, back: i8) {
    }
}

impl Bidirectional<i16> for u16 {
    proof fn lemma_round_trip(self, mid: i16, back: u16) {
    }
}

impl Bidirectional<u16> for i16 {
    proof fn lemma_round_trip(self, mid: u16, back: i16) {
    }
}

impl Bidirectional<i32> for u32 {
    proof fn lemma_round_trip(self, mid: i32, back: u32) {
    }
}

impl Bidirectional<u32> for i32 {
    proof fn lemma_round_trip(self, mid: u32, back: i32) {
    }
}

impl Bidirectional<i64> for u64 {
    proof fn lemma_round_trip(self, mid: i64, back: u64) {
    }
}

impl Bidirectional<u64> for i64 {
    proof fn lemma_round_trip(self, mid: u64, back: i64) {
    }
}

impl Bidirectional<isize> for usize {
    proof fn lemma_round_trip(self, mid: isize, back: usize) {
    }
}

impl Bidirectional<usize> for isize {
    proof fn lemma_round_trip(self, mid: usize, back: isize) {
    }
}

impl Bidirectional<i128> for u128 {
    proof fn lemma_round_trip(self, mid: i128, back: u128) {
    }
}

impl Bidirectional<u128> for i128 {
    proof fn lemma_round_trip(self, mid: u128, back: i128) {
    }
}

impl Bidirectional<u8> for bool {
    proof fn lemma_round_trip(self, mid: u8, back: bool) {
    }
}

impl Bidirectional<bool> for u8 {
    proof fn lemma_round_trip(self, mid: bool, back: u8) {
    }
}

} // verus!
