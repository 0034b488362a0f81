//! Character-level string comparison and UTF-8 validation.
//!
//! The adapter must decide, for every header value it moves across the
//! boundary, whether the bytes are valid UTF-8 text; and it must compare
//! strings exactly, character by character. Both decisions are verified here
//! against `vstd`'s UTF-8 model.

use vstd::prelude::*;
use vstd::utf8::is_continuation_byte;
use vstd::utf8::is_leading_byte_width_1;
use vstd::utf8::is_leading_byte_width_2;
use vstd::utf8::is_leading_byte_width_3;
use vstd::utf8::is_leading_byte_width_4;
use vstd::utf8::length_of_first_codepoint;
use vstd::utf8::decode_first_codepoint;
use vstd::utf8::valid_first_scalar;
use vstd::utf8::valid_utf8;
use vstd::utf8::partial_valid_utf8;
use vstd::utf8::partial_valid_utf8_extend;
use vstd::utf8::partial_valid_partial_invalid_utf8;
use vstd::string::StrSliceExecFns;

verus! {

/// Exact string equality, decided character by character.
pub fn str_eq(a: &str, b: &str) -> (r: bool)
    ensures
        r == (a@ == b@),
{
    let a_len = a.unicode_len();
    let b_len = b.unicode_len();
    if a_len != b_len {
        assert(a@ != b@) by {
            assert(a@.len() != b@.len());
        }
        return false;
    }
    let mut i: usize = 0;
    while i < a_len
        invariant
            a_len == a@.len(),
            a_len == b@.len(),
            0 <= i <= a_len,
            forall|j: int| 0 <= j < i ==> a@[j] == b@[j],
        decreases a_len - i,
    {
        if a.get_char(i) != b.get_char(i) {
            assert(a@ != b@) by {
                assert(a@[i as int] != b@[i as int]);
            }
            return false;
        }
        i = i + 1;
    }
    proof {
        assert(a@ =~= b@);
    }
    true
}

/// Decides whether the bytes form a valid UTF-8 encoding, by walking one
/// encoded scalar at a time and checking the leading byte, the continuation
/// bytes, overlong encodings and the surrogate range.
pub fn is_utf8(v: &Vec<u8>) -> (r: bool)
    ensures
        r == valid_utf8(v@),
{
    let n = v.len();
    let mut i: usize = 0;
    proof {
        assert(v@.subrange(0, 0) =~= Seq::<u8>::empty());
    }
    while i < n
        invariant
            n == v@.len(),
            0 <= i <= n,
            partial_valid_utf8(v@, i as int),
        decreases n - i,
    {
        let ghost suffix = v@.subrange(i as int, n as int);
        let b0 = v[i];
        assert(suffix[0] == v@[i as int]);
        let width: usize = if b0 < 0x80 {
            1
        } else if 0xc0 <= b0 && b0 <= 0xdf {
            2
        } else if 0xe0 <= b0 && b0 <= 0xef {
            3
        } else if 0xf0 <= b0 && b0 <= 0xf7 {
            4
        } else {
            // 0x80..=0xbf is a continuation byte in leading position;
            // 0xf8..=0xff leads no encoding at all.
            proof {
                lemma_prefix_valid_suffix_invalid(v@, i as int);
            }
            return false;
        };
        if width > n - i {
            // The sequence ends inside this scalar's encoding.
            proof {
                lemma_prefix_valid_suffix_invalid(v@, i as int);
            }
            return false;
        }
        let mut k: usize = 1;
        while k < width
            invariant
                n == v@.len(),
                0 <= i < n,
                1 <= k <= width <= 4,
                i + width <= n,
                partial_valid_utf8(v@, i as int),
                suffix =~= v@.subrange(i as int, n as int),
                b0 == suffix[0],
                width == 1 ==> is_leading_byte_width_1(b0),
                width == 2 ==> is_leading_byte_width_2(b0),
                width == 3 ==> is_leading_byte_width_3(b0),
                width == 4 ==> is_leading_byte_width_4(b0),
                forall|j: int| 1 <= j < k ==> is_continuation_byte(#[trigger] suffix[j]),
            decreases width - k,
        {
            let b = v[i + k];
            assert(suffix[k as int] == v@[i as int + k]);
            if !(0x80 <= b && b <= 0xbf) {
                proof {
                    lemma_prefix_valid_suffix_invalid(v@, i as int);
                }
                return false;
            }
            k = k + 1;
        }
        let cp: u32 = if width == 1 {
            (b0 & 0x7f) as u32
        } else if width == 2 {
            (((b0 & 0x1f) as u32) << 6u32) | ((v[i + 1] & 0x3f) as u32)
        } else if width == 3 {
            (((b0 & 0x0f) as u32) << 12u32) | (((v[i + 1] & 0x3f) as u32) << 6u32) | ((v[i
                + 2] & 0x3f) as u32)
        } else {
            (((b0 & 0x07) as u32) << 18u32) | (((v[i + 1] & 0x3f) as u32) << 12u32) | (((v[i
                + 2] & 0x3f) as u32) << 6u32) | ((v[i + 3] & 0x3f) as u32)
        };
        proof {
            assert(forall|j: int| 1 <= j < width ==> suffix[j] == v@[i as int + j]);
            assert(length_of_first_codepoint(suffix) == width);
            assert(decode_first_codepoint(suffix) == cp);
        }
        let overlong: bool = (width == 2 && cp < 0x80) || (width == 3 && cp < 0x800) || (width == 4
            && (cp < 0x10000 || cp > 0x10ffff));
        let surrogate: bool = 0xd800 <= cp && cp <= 0xdfff;
        if overlong || surrogate {
            proof {
                lemma_prefix_valid_suffix_invalid(v@, i as int);
            }
            return false;
        }
        proof {
            assert(valid_first_scalar(suffix));
            partial_valid_utf8_extend(v@, i as int);
        }
        i = i + width;
    }
    proof {
        assert(v@.subrange(0, n as int) =~= v@);
    }
    true
}

/// When the bytes before `i` are valid UTF-8 but no valid scalar encoding
/// starts at `i`, the whole sequence is not valid UTF-8.
proof fn lemma_prefix_valid_suffix_invalid(bytes: Seq<u8>, i: int)
    requires
        0 <= i < bytes.len(),
        partial_valid_utf8(bytes, i),
        !valid_first_scalar(bytes.subrange(i, bytes.len() as int)),
    ensures
        !valid_utf8(bytes),
{
    let suffix = bytes.subrange(i, bytes.len() as int);
    assert(suffix.len() > 0);
    assert(!valid_utf8(suffix));
    partial_valid_partial_invalid_utf8(bytes, i);
}

} // verus!
