//! A verified UTF-8 validity check over raw bytes, proved against vstd's
//! model of the encoding (`vstd::utf8::valid_utf8`). The body-as-secret
//! authenticator uses it to tell a malformed request body from a well-formed
//! one carrying the wrong credential.

use vstd::prelude::*;
use vstd::utf8::*;

verus! {

/// True of a byte with the continuation form `10xxxxxx`.
fn is_continuation(b: u8) -> (r: bool)
    ensures
        r == is_continuation_byte(b),
{
    0x80 <= b && b <= 0xbf
}

/// A valid prefix followed by bytes that do not begin a well-formed scalar
/// encoding can never complete to a valid UTF-8 sequence.
proof fn lemma_invalid_at(bytes: Seq<u8>, i: int)
    requires
        partial_valid_utf8(bytes, i),
        i < bytes.len(),
        !valid_first_scalar(bytes.subrange(i, bytes.len() as int)),
    ensures
        !valid_utf8(bytes),
{
    let suffix = bytes.subrange(i, bytes.len() as int);
    assert(!valid_utf8(suffix));
    partial_valid_partial_invalid_utf8(bytes, i);
}

/// A two-byte form (leading byte `110xxxxx`, one continuation byte) encodes a
/// valid scalar exactly when it is not an overlong encoding of a one-byte
/// value, i.e. when the leading byte is at least `0xc2`.
proof fn lemma_two_byte_form(bytes: Seq<u8>, b0: u8, b1: u8)
    requires
        bytes.len() >= 2,
        bytes[0] == b0,
        bytes[1] == b1,
        0xc0 <= b0 <= 0xdf,
        is_continuation_byte(b1),
    ensures
        valid_first_scalar(bytes) <==> 0xc2 <= b0,
        0xc2 <= b0 ==> length_of_first_scalar(bytes) == 2,
{
    let e = decode_first_codepoint(bytes);
    assert(e == (((b0 & 0x1f) as u32) << 6) | ((b1 & 0x3f) as u32));
    assert({
        &&& 0xc2 <= b0 ==> 0x80 <= ((((b0 & 0x1f) as u32) << 6) | ((b1 & 0x3f) as u32)) <= 0x7ff
        &&& b0 <= 0xc1 ==> ((((b0 & 0x1f) as u32) << 6) | ((b1 & 0x3f) as u32)) <= 0x7f
    }) by (bit_vector)
        requires
            0xc0 <= b0 <= 0xdf,
            0x80 <= b1 <= 0xbf,
    ;
}

/// A three-byte form (leading byte `1110xxxx`, two continuation bytes)
/// encodes a valid scalar exactly when it is neither overlong (leading byte
/// `0xe0` demands a first continuation byte of at least `0xa0`) nor a
/// surrogate (leading byte `0xed` demands a first continuation byte of at
/// most `0x9f`).
proof fn lemma_three_byte_form(bytes: Seq<u8>, b0: u8, b1: u8, b2: u8)
    requires
        bytes.len() >= 3,
        bytes[0] == b0,
        bytes[1] == b1,
        bytes[2] == b2,
        0xe0 <= b0 <= 0xef,
        is_continuation_byte(b1),
        is_continuation_byte(b2),
    ensures
        valid_first_scalar(bytes) <==> ((b0 == 0xe0 ==> 0xa0 <= b1) && (b0 == 0xed ==> b1
            <= 0x9f)),
        valid_first_scalar(bytes) ==> length_of_first_scalar(bytes) == 3,
{
    let e = decode_first_codepoint(bytes);
    assert(e == ((((b0 & 0x0f) as u32) << 12) | (((b1 & 0x3f) as u32) << 6)) | ((b2
        & 0x3f) as u32));
    assert({
        &&& ((b0 == 0xe0 ==> 0xa0 <= b1) && (b0 == 0xed ==> b1 <= 0x9f)) ==> {
            &&& 0x800 <= (((((b0 & 0x0f) as u32) << 12) | (((b1 & 0x3f) as u32) << 6)) | ((b2
                & 0x3f) as u32)) <= 0xffff
            &&& !(0xd800 <= (((((b0 & 0x0f) as u32) << 12) | (((b1 & 0x3f) as u32) << 6)) | ((b2
                & 0x3f) as u32)) <= 0xdfff)
        }
        &&& (b0 == 0xe0 && b1 <= 0x9f) ==> (((((b0 & 0x0f) as u32) << 12) | (((b1
            & 0x3f) as u32) << 6)) | ((b2 & 0x3f) as u32)) <= 0x7ff
        &&& (b0 == 0xed && 0xa0 <= b1) ==> 0xd800 <= (((((b0 & 0x0f) as u32) << 12) | (((b1
            & 0x3f) as u32) << 6)) | ((b2 & 0x3f) as u32)) <= 0xdfff
    }) by (bit_vector)
        requires
            0xe0 <= b0 <= 0xef,
            0x80 <= b1 <= 0xbf,
            0x80 <= b2 <= 0xbf,
    ;
}

/// A four-byte form (leading byte `11110xxx`, three continuation bytes)
/// encodes a valid scalar exactly when its value lies between `0x10000` and
/// `0x10ffff`: the leading byte must be at most `0xf4`, `0xf0` demands a
/// first continuation byte of at least `0x90`, and `0xf4` demands one of at
/// most `0x8f`.
proof fn lemma_four_byte_form(bytes: Seq<u8>, b0: u8, b1: u8, b2: u8, b3: u8)
    requires
        bytes.len() >= 4,
        bytes[0] == b0,
        bytes[1] == b1,
        bytes[2] == b2,
        bytes[3] == b3,
        0xf0 <= b0 <= 0xf7,
        is_continuation_byte(b1),
        is_continuation_byte(b2),
        is_continuation_byte(b3),
    ensures
        valid_first_scalar(bytes) <==> (b0 <= 0xf4 && (b0 == 0xf0 ==> 0x90 <= b1) && (b0 == 0xf4
            ==> b1 <= 0x8f)),
        valid_first_scalar(bytes) ==> length_of_first_scalar(bytes) == 4,
{
    let e = decode_first_codepoint(bytes);
    assert(e == (((((b0 & 0x07) as u32) << 18) | (((b1 & 0x3f) as u32) << 12)) | (((b2
        & 0x3f) as u32) << 6)) | ((b3 & 0x3f) as u32));
    assert({
        &&& (b0 <= 0xf4 && (b0 == 0xf0 ==> 0x90 <= b1) && (b0 == 0xf4 ==> b1 <= 0x8f)) ==> 0x10000
            <= ((((((b0 & 0x07) as u32) << 18) | (((b1 & 0x3f) as u32) << 12)) | (((b2
            & 0x3f) as u32) << 6)) | ((b3 & 0x3f) as u32)) <= 0x10ffff
        &&& (b0 == 0xf0 && b1 <= 0x8f) ==> ((((((b0 & 0x07) as u32) << 18) | (((b1
            & 0x3f) as u32) << 12)) | (((b2 & 0x3f) as u32) << 6)) | ((b3 & 0x3f) as u32))
            <= 0xffff
        &&& (b0 == 0xf4 && 0x90 <= b1) ==> 0x110000 <= ((((((b0 & 0x07) as u32) << 18) | (((b1
            & 0x3f) as u32) << 12)) | (((b2 & 0x3f) as u32) << 6)) | ((b3 & 0x3f) as u32))
        &&& 0xf5 <= b0 ==> 0x140000 <= ((((((b0 & 0x07) as u32) << 18) | (((b1
            & 0x3f) as u32) << 12)) | (((b2 & 0x3f) as u32) << 6)) | ((b3 & 0x3f) as u32))
    }) by (bit_vector)
        requires
            0xf0 <= b0 <= 0xf7,
            0x80 <= b1 <= 0xbf,
            0x80 <= b2 <= 0xbf,
            0x80 <= b3 <= 0xbf,
    ;
}

/// Decides whether the given bytes form a valid UTF-8 encoding.
pub fn is_valid_utf8(s: &[u8]) -> (r: bool)
    ensures
        r == valid_utf8(s@),
{
    let n = s.len();
    let mut i: usize = 0;
    while i < n
        invariant
            i <= n,
            n == s@.len(),
            partial_valid_utf8(s@, i as int),
        decreases n - i,
    {
        let ghost suffix = s@.subrange(i as int, n as int);
        let b0 = s[i];
        if b0 < 0x80 {
            proof {
                assert(valid_first_scalar(suffix));
                assert(decode_first_codepoint(suffix) == ((b0 & 0x7f) as u32));
                assert(((b0 & 0x7f) as u32) <= 0x7f) by (bit_vector);
                partial_valid_utf8_extend(s@, i as int);
            }
            i = i + 1;
        } else if b0 < 0xc0 {
            // a continuation byte in leading position begins no scalar
            proof {
                lemma_invalid_at(s@, i as int);
            }
            return false;
        } else if b0 < 0xe0 {
            if n - i < 2 || !is_continuation(s[i + 1]) {
                proof {
                    lemma_invalid_at(s@, i as int);
                }
                return false;
            }
            proof {
                lemma_two_byte_form(suffix, b0, s@[i + 1]);
            }
            if b0 < 0xc2 {
                // overlong two-byte encoding of a one-byte value
                proof {
                    lemma_invalid_at(s@, i as int);
                }
                return false;
            }
            proof {
                partial_valid_utf8_extend(s@, i as int);
            }
            i = i + 2;
        } else if b0 < 0xf0 {
            if n - i < 3 {
                proof {
                    lemma_invalid_at(s@, i as int);
                }
                return false;
            }
            let b1 = s[i + 1];
            let b2 = s[i + 2];
            if !is_continuation(b1) || !is_continuation(b2) {
                proof {
                    lemma_invalid_at(s@, i as int);
                }
                return false;
            }
            proof {
                lemma_three_byte_form(suffix, b0, b1, b2);
            }
            if (b0 == 0xe0 && b1 < 0xa0) || (b0 == 0xed && b1 > 0x9f) {
                // overlong three-byte encoding, or a surrogate value
                proof {
                    lemma_invalid_at(s@, i as int);
                }
                return false;
            }
            proof {
                partial_valid_utf8_extend(s@, i as int);
            }
            i = i + 3;
        } else if b0 < 0xf8 {
            if n - i < 4 {
                proof {
                    lemma_invalid_at(s@, i as int);
                }
                return false;
            }
            let b1 = s[i + 1];
            let b2 = s[i + 2];
            let b3 = s[i + 3];
            if !is_continuation(b1) || !is_continuation(b2) || !is_continuation(b3) {
                proof {
                    lemma_invalid_at(s@, i as int);
                }
                return false;
            }
            proof {
                lemma_four_byte_form(suffix, b0, b1, b2, b3);
            }
            if b0 > 0xf4 || (b0 == 0xf0 && b1 < 0x90) || (b0 == 0xf4 && b1 > 0x8f) {
                // overlong four-byte encoding, or a value beyond the last scalar
                proof {
                    lemma_invalid_at(s@, i as int);
                }
                return false;
            }
            proof {
                partial_valid_utf8_extend(s@, i as int);
            }
            i = i + 4;
        } else {
            // 0xf8 and above fit no leading-byte form
            proof {
                lemma_invalid_at(s@, i as int);
            }
            return false;
        }
    }
    proof {
        assert(s@.subrange(0, n as int) =~= s@);
    }
    true
}

} // verus!
