//! Reinterpretation between heap-owned text and its byte sequence.
//!
//! Text to bytes is safe: every valid encoded text value is a valid byte
//! sequence, and the bytes produced are exactly the text's encoding.  Bytes
//! to text is unchecked only: the bytes must independently be known to be a
//! valid encoding, and that knowledge is the caller-guaranteed precondition
//! of the unchecked tier.

use crate::as_::As;
use crate::coerce::Coerce;
use vstd::prelude::*;
use vstd::string::StrSliceExecFns;
use vstd::utf8::*;

verus! {

/// A nonempty byte sequence that does not begin with a well-formed scalar
/// encoding is not a valid encoding, and neither is any sequence it ends.
proof fn lemma_prefix_invalid(bytes: Seq<u8>, i: int)
    requires
        0 <= i < bytes.len(),
        partial_valid_utf8(bytes, i),
        !valid_first_scalar(bytes.subrange(i, bytes.len() as int)),
    ensures
        !valid_utf8(bytes),
{
    let suffix = bytes.subrange(i, bytes.len() as int);
    assert(suffix.len() > 0);
    assert(!valid_utf8(suffix));
    partial_valid_partial_invalid_utf8(bytes, i);
}

/// Decides whether a byte sequence is a valid text encoding.  This is the
/// independent verification the unchecked bytes-to-text direction asks of
/// its caller: a verified caller establishes the precondition with it.
pub fn is_utf8(v: &Vec<u8>) -> (r: bool)
    ensures
        r == valid_utf8(v@),
{
    let n = v.len();
    let mut i: usize = 0;
    while i < n
        invariant
            i <= n,
            n == v@.len(),
            partial_valid_utf8(v@, i as int),
        decreases n - i,
    {
        let ghost suffix = v@.subrange(i as int, v@.len() as int);
        let b0 = v[i];
        proof {
            assert(suffix[0] == v@[i as int]);
        }
        let width: usize;
        if b0 <= 0x7f {
            // one byte: 0xxxxxxx, never overlong, never a surrogate
            proof {
                assert(codepoint_width_1(b0) == (b0 & 0x7f) as u32);
                assert(b0 & 0x7f <= 0x7f) by (bit_vector);
                assert(valid_first_scalar(suffix));
            }
            width = 1;
        } else if b0 < 0xc2 {
            // a stray continuation byte, or a two-byte form whose codepoint
            // would fit in one byte
            proof {
                if valid_leading_and_continuation_bytes_first_codepoint(suffix) {
                    let s1 = suffix[1];
                    assert((((b0 & 0x1f) as u32) << 6) | ((s1 & 0x3f) as u32) < 0x80)
                        by (bit_vector)
                        requires
                            0xc0 <= b0 <= 0xc1,
                    ;
                }
                lemma_prefix_invalid(v@, i as int);
            }
            return false;
        } else if b0 <= 0xdf {
            // two bytes: 110xxxxx 10xxxxxx, codepoint 0x80 to 0x7ff
            if n - i < 2 {
                proof {
                    lemma_prefix_invalid(v@, i as int);
                }
                return false;
            }
            let b1 = v[i + 1];
            proof {
                assert(suffix[1] == v@[i + 1]);
            }
            if !(0x80 <= b1 && b1 <= 0xbf) {
                proof {
                    lemma_prefix_invalid(v@, i as int);
                }
                return false;
            }
            proof {
                assert((((b0 & 0x1f) as u32) << 6) | ((b1 & 0x3f) as u32) >= 0x80)
                    by (bit_vector)
                    requires
                        0xc2 <= b0 <= 0xdf,
                ;
                assert((((b0 & 0x1f) as u32) << 6) | ((b1 & 0x3f) as u32) <= 0x7ff)
                    by (bit_vector)
                    requires
                        0xc2 <= b0 <= 0xdf,
                ;
                assert(valid_first_scalar(suffix));
            }
            width = 2;
        } else if b0 <= 0xef {
            // three bytes: 1110xxxx 10xxxxxx 10xxxxxx, codepoint 0x800 to
            // 0xffff, excluding the surrogate range
            if n - i < 3 {
                proof {
                    lemma_prefix_invalid(v@, i as int);
                }
                return false;
            }
            let b1 = v[i + 1];
            let b2 = v[i + 2];
            proof {
                assert(suffix[1] == v@[i + 1]);
                assert(suffix[2] == v@[i + 2]);
            }
            if !(0x80 <= b1 && b1 <= 0xbf) || !(0x80 <= b2 && b2 <= 0xbf) {
                proof {
                    lemma_prefix_invalid(v@, i as int);
                }
                return false;
            }
            if b0 == 0xe0 && b1 < 0xa0 {
                // the codepoint would fit in two bytes
                proof {
                    assert((((b0 & 0x0f) as u32) << 12) | (((b1 & 0x3f) as u32) << 6) | ((b2
                        & 0x3f) as u32) < 0x800)
                        by (bit_vector)
                        requires
                            b0 == 0xe0,
                            0x80 <= b1 < 0xa0,
                    ;
                    lemma_prefix_invalid(v@, i as int);
                }
                return false;
            }
            if b0 == 0xed && b1 >= 0xa0 {
                // the codepoint would fall in the surrogate range
                proof {
                    assert(0xd800 <= ((((b0 & 0x0f) as u32) << 12) | (((b1 & 0x3f) as u32) << 6) | (
                    (b2 & 0x3f) as u32)) <= 0xdfff)
                        by (bit_vector)
                        requires
                            b0 == 0xed,
                            0xa0 <= b1 <= 0xbf,
                            0x80 <= b2 <= 0xbf,
                    ;
                    lemma_prefix_invalid(v@, i as int);
                }
                return false;
            }
            proof {
                assert((((b0 & 0x0f) as u32) << 12) | (((b1 & 0x3f) as u32) << 6) | ((b2
                    & 0x3f) as u32) >= 0x800)
                    by (bit_vector)
                    requires
                        0xe0 <= b0 <= 0xef,
                        0x80 <= b1 <= 0xbf,
                        b0 != 0xe0 || 0xa0 <= b1,
                ;
                assert(!(0xd800 <= ((((b0 & 0x0f) as u32) << 12) | (((b1 & 0x3f) as u32) << 6) | ((
                b2 & 0x3f) as u32)) <= 0xdfff))
                    by (bit_vector)
                    requires
                        0xe0 <= b0 <= 0xef,
                        0x80 <= b1 <= 0xbf,
                        b0 != 0xed || b1 <= 0x9f,
                ;
                assert(valid_first_scalar(suffix));
            }
            width = 3;
        } else if b0 <= 0xf4 {
            // four bytes: 11110xxx 10xxxxxx 10xxxxxx 10xxxxxx, codepoint
            // 0x10000 to 0x10ffff
            if n - i < 4 {
                proof {
                    lemma_prefix_invalid(v@, i as int);
                }
                return false;
            }
            let b1 = v[i + 1];
            let b2 = v[i + 2];
            let b3 = v[i + 3];
            proof {
                assert(suffix[1] == v@[i + 1]);
                assert(suffix[2] == v@[i + 2]);
                assert(suffix[3] == v@[i + 3]);
            }
            if !(0x80 <= b1 && b1 <= 0xbf) || !(0x80 <= b2 && b2 <= 0xbf) || !(0x80 <= b3 && b3
                <= 0xbf) {
                proof {
                    lemma_prefix_invalid(v@, i as int);
                }
                return false;
            }
            if b0 == 0xf0 && b1 < 0x90 {
                // the codepoint would fit in three bytes
                proof {
                    assert((((b0 & 0x07) as u32) << 18) | (((b1 & 0x3f) as u32) << 12) | (((b2
                        & 0x3f) as u32) << 6) | ((b3 & 0x3f) as u32) < 0x10000)
                        by (bit_vector)
                        requires
                            b0 == 0xf0,
                            0x80 <= b1 < 0x90,
                    ;
                    lemma_prefix_invalid(v@, i as int);
                }
                return false;
            }
            if b0 == 0xf4 && b1 > 0x8f {
                // the codepoint would lie beyond the last scalar
                proof {
                    assert((((b0 & 0x07) as u32) << 18) | (((b1 & 0x3f) as u32) << 12) | (((b2
                        & 0x3f) as u32) << 6) | ((b3 & 0x3f) as u32) > 0x10ffff)
                        by (bit_vector)
                        requires
                            b0 == 0xf4,
                            0x90 <= b1 <= 0xbf,
                    ;
                    lemma_prefix_invalid(v@, i as int);
                }
                return false;
            }
            proof {
                assert(0x10000 <= ((((b0 & 0x07) as u32) << 18) | (((b1 & 0x3f) as u32) << 12) | ((
                (b2 & 0x3f) as u32) << 6) | ((b3 & 0x3f) as u32)) <= 0x10ffff)
                    by (bit_vector)
                    requires
                        0xf0 <= b0 <= 0xf4,
                        0x80 <= b1 <= 0xbf,
                        b0 != 0xf0 || 0x90 <= b1,
                        b0 != 0xf4 || b1 <= 0x8f,
                ;
                assert(valid_first_scalar(suffix));
            }
            width = 4;
        } else {
            // 0xf5 to 0xff: every codepoint such a form could carry lies
            // beyond the last scalar
            proof {
                if valid_leading_and_continuation_bytes_first_codepoint(suffix) {
                    let s1 = suffix[1];
                    let s2 = suffix[2];
                    let s3 = suffix[3];
                    assert(is_leading_byte_width_4(b0));
                    assert((((b0 & 0x07) as u32) << 18) | (((s1 & 0x3f) as u32) << 12) | (((s2
                        & 0x3f) as u32) << 6) | ((s3 & 0x3f) as u32) > 0x10ffff)
                        by (bit_vector)
                        requires
                            0xf5 <= b0 <= 0xf7,
                    ;
                }
                lemma_prefix_invalid(v@, i as int);
            }
            return false;
        }
        proof {
            assert(length_of_first_scalar(suffix) == width);
            partial_valid_utf8_extend(v@, i as int);
        }
        i += width;
    }
    proof {
        assert(v@.subrange(0, v@.len() as int) =~= v@);
    }
    true
}

/// Relies on String::from_utf8: returns the text whose encoding is the
/// input exactly when the input is a valid encoding, and nothing otherwise.
#[verifier::external_body]
fn string_from_utf8(v: Vec<u8>) -> (r: Option<String>)
    ensures
        r is Some <==> valid_utf8(v@),
        r matches Some(s) ==> s@ == decode_utf8(v@),
{
    String::from_utf8(v).ok()
}

impl Coerce<Vec<u8>> for String {
    open spec fn coerce_ok(self) -> bool {
        true
    }

    open spec fn coerced(self, r: Vec<u8>) -> bool {
        r@ == encode_utf8(self@)
    }

    fn coerce(self) -> (r: Vec<u8>) {
        self.as_str().as_bytes_vec()
    }
}

impl Coerce<String> for Vec<u8> {
    open spec fn coerce_ok(self) -> bool {
        valid_utf8(self@)
    }

    open spec fn coerced(self, r: String) -> bool {
        r@ == decode_utf8(self@)
    }

    fn coerce(self) -> (r: String) {
        let o = string_from_utf8(self);
        o.unwrap()
    }
}

/// Checked bytes-to-text conversion: verifies the encoding first and takes
/// the unchecked direction only when the verification succeeded.
pub fn bytes_to_text(v: Vec<u8>) -> (r: Option<String>)
    ensures
        r matches Some(s) ==> s@ == decode_utf8(v@) && valid_utf8(v@),
        r is None ==> !valid_utf8(v@),
{
    if is_utf8(&v) {
        Some(v.coerce())
    } else {
        None
    }
}

impl As<Vec<u8>> for String {
    proof fn lemma_always_ok(self) {
    }

    fn as_(self) -> (r: Vec<u8>) {
        self.coerce()
    }
}

/// Round trip: encoding a text value to its bytes and reinterpreting those
/// exact bytes back yields text identical to the original.
pub proof fn lemma_round_trip_text(s: String, mid: Vec<u8>, back: String)
    requires
        s.coerced(mid),
        mid.coerced(back),
    ensures
        back@ == s@,
{
    encode_utf8_decode_utf8(s@);
}

/// Round trip: decoding a valid byte sequence to text and encoding that
/// text again yields the original byte sequence.
pub proof fn lemma_round_trip_bytes(b: Vec<u8>, mid: String, back: Vec<u8>)
    requires
        <Vec<u8> as Coerce<String>>::coerce_ok(b),
        b.coerced(mid),
        mid.coerced(back),
    ensures
        back@ == b@,
{
    decode_utf8_encode_utf8(b@);
}

} // verus!
