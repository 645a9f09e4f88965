//! Verified UTF-8 decoding of byte sequences into text.

use vstd::prelude::*;
use vstd::utf8::{
    valid_utf8, decode_utf8, valid_first_scalar, decode_first_scalar, length_of_first_scalar,
    pop_first_scalar, partial_valid_utf8, partial_valid_partial_invalid_utf8,
    partial_valid_utf8_extend,
};
use crate::strfmt::push_char;

verus! {

/// Relies on `char::from_u32`: the result is `Some` of the character with
/// that scalar value exactly when the value is a Unicode scalar (not a
/// surrogate and at most 0x10ffff), and `None` otherwise.
pub assume_specification[ char::from_u32 ](u: u32) -> (r: Option<char>)
    ensures
        r == (if u < 0xD800 || (0xE000 <= u && u <= 0x10FFFF) {
            Some(u as char)
        } else {
            None::<char>
        }),
;

/// Decodes `bytes` as UTF-8 text: the decoded characters when the bytes
/// form a valid UTF-8 encoding, `None` otherwise.
pub fn utf8_to_string(bytes: &Vec<u8>) -> (r: Option<String>)
    ensures
        r is Some <==> valid_utf8(bytes@),
        r matches Some(s) ==> s@ == decode_utf8(bytes@),
{
    let n = bytes.len();
    let mut out = String::new();
    let mut i: usize = 0;
    proof {
        assert(bytes@.subrange(0, 0) =~= Seq::<u8>::empty());
        assert(bytes@.subrange(0, n as int) =~= bytes@);
        assert(out@ + decode_utf8(bytes@) =~= decode_utf8(bytes@));
    }
    while i < n
        invariant
            i <= n,
            n == bytes@.len(),
            partial_valid_utf8(bytes@, i as int),
            valid_utf8(bytes@.subrange(i as int, n as int)) ==> valid_utf8(bytes@) && decode_utf8(
                bytes@,
            ) == out@ + decode_utf8(bytes@.subrange(i as int, n as int)),
        decreases n - i,
    {
        let ghost rest = bytes@.subrange(i as int, n as int);
        let b0 = bytes[i];
        let w: usize = if b0 <= 0x7f {
            1
        } else if b0 < 0xc0 {
            0
        } else if b0 <= 0xdf {
            2
        } else if b0 <= 0xef {
            3
        } else if b0 <= 0xf7 {
            4
        } else {
            0
        };
        if w == 0 || n - i < w {
            proof {
                assert(rest[0] == b0);
                assert(!valid_first_scalar(rest));
                assert(!valid_utf8(rest));
                partial_valid_partial_invalid_utf8(bytes@, i as int);
            }
            return None;
        }
        let cp: u32 = if w == 1 {
            proof {
                assert((b0 & 0x7f) <= 0x7f) by (bit_vector);
            }
            (b0 & 0x7f) as u32
        } else if w == 2 {
            let b1 = bytes[i + 1];
            if !(0x80 <= b1 && b1 <= 0xbf) {
                proof {
                    assert(rest[0] == b0 && rest[1] == b1);
                    assert(!valid_first_scalar(rest));
                    assert(!valid_utf8(rest));
                    partial_valid_partial_invalid_utf8(bytes@, i as int);
                }
                return None;
            }
            let hi = (b0 & 0x1f) as u32;
            let lo = (b1 & 0x3f) as u32;
            proof {
                assert((b0 & 0x1f) <= 0x1f) by (bit_vector);
                assert((b1 & 0x3f) <= 0x3f) by (bit_vector);
                assert(hi <= 0x1f && lo <= 0x3f ==> ((hi << 6) | lo) <= 0x7ff) by (bit_vector);
            }
            (hi << 6) | lo
        } else if w == 3 {
            let b1 = bytes[i + 1];
            let b2 = bytes[i + 2];
            if !(0x80 <= b1 && b1 <= 0xbf) || !(0x80 <= b2 && b2 <= 0xbf) {
                proof {
                    assert(rest[0] == b0 && rest[1] == b1 && rest[2] == b2);
                    assert(!valid_first_scalar(rest));
                    assert(!valid_utf8(rest));
                    partial_valid_partial_invalid_utf8(bytes@, i as int);
                }
                return None;
            }
            let hi = (b0 & 0x0f) as u32;
            let mid = (b1 & 0x3f) as u32;
            let lo = (b2 & 0x3f) as u32;
            proof {
                assert((b0 & 0x0f) <= 0x0f) by (bit_vector);
                assert((b1 & 0x3f) <= 0x3f) by (bit_vector);
                assert((b2 & 0x3f) <= 0x3f) by (bit_vector);
                assert(hi <= 0x0f && mid <= 0x3f && lo <= 0x3f ==> ((hi << 12) | (mid << 6) | lo)
                    <= 0xffff) by (bit_vector);
            }
            (hi << 12) | (mid << 6) | lo
        } else {
            let b1 = bytes[i + 1];
            let b2 = bytes[i + 2];
            let b3 = bytes[i + 3];
            if !(0x80 <= b1 && b1 <= 0xbf) || !(0x80 <= b2 && b2 <= 0xbf) || !(0x80 <= b3 && b3
                <= 0xbf) {
                proof {
                    assert(rest[0] == b0 && rest[1] == b1 && rest[2] == b2 && rest[3] == b3);
                    assert(!valid_first_scalar(rest));
                    assert(!valid_utf8(rest));
                    partial_valid_partial_invalid_utf8(bytes@, i as int);
                }
                return None;
            }
            let hi = (b0 & 0x07) as u32;
            let m1 = (b1 & 0x3f) as u32;
            let m2 = (b2 & 0x3f) as u32;
            let lo = (b3 & 0x3f) as u32;
            proof {
                assert((b0 & 0x07) <= 0x07) by (bit_vector);
                assert((b1 & 0x3f) <= 0x3f) by (bit_vector);
                assert((b2 & 0x3f) <= 0x3f) by (bit_vector);
                assert((b3 & 0x3f) <= 0x3f) by (bit_vector);
                assert(hi <= 0x07 && m1 <= 0x3f && m2 <= 0x3f && lo <= 0x3f ==> ((hi << 18) | (m1
                    << 12) | (m2 << 6) | lo) <= 0x1fffff) by (bit_vector);
            }
            (hi << 18) | (m1 << 12) | (m2 << 6) | lo
        };
        let overlong_or_surrogate: bool = (w == 2 && cp < 0x80) || (w == 3 && (cp < 0x800 || (0xd800
            <= cp && cp <= 0xdfff))) || (w == 4 && !(0x10000 <= cp && cp <= 0x10ffff));
        if overlong_or_surrogate {
            proof {
                assert(rest[0] == b0);
                assert(!valid_first_scalar(rest));
                assert(!valid_utf8(rest));
                partial_valid_partial_invalid_utf8(bytes@, i as int);
            }
            return None;
        }
        proof {
            assert(rest[0] == b0);
            assert(valid_first_scalar(rest));
            assert(decode_first_scalar(rest) == cp);
            assert(length_of_first_scalar(rest) == w);
        }
        let c = match char::from_u32(cp) {
            Some(c) => c,
            None => {
                proof {
                    assert(false);
                }
                return None;
            },
        };
        let ghost out_prev = out@;
        push_char(&mut out, c);
        proof {
            let restp = bytes@.subrange(i + w as int, n as int);
            assert(pop_first_scalar(rest) =~= restp);
            partial_valid_utf8_extend(bytes@, i as int);
            assert(partial_valid_utf8(bytes@, i + w as int));
            if valid_utf8(restp) {
                assert(valid_utf8(rest));
                assert(decode_utf8(rest) == seq![decode_first_scalar(rest) as char] + decode_utf8(
                    restp,
                ));
                assert(c == cp as char);
                assert(out@ + decode_utf8(restp) =~= out_prev + decode_utf8(rest));
            }
        }
        i = i + w;
    }
    proof {
        let rest = bytes@.subrange(i as int, n as int);
        assert(rest.len() == 0);
        assert(valid_utf8(rest));
        assert(decode_utf8(rest) =~= Seq::<char>::empty());
        assert(out@ + decode_utf8(rest) =~= out@);
    }
    Some(out)
}

} // verus!
