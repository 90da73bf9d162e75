//! Finding the first word of a string, first as an index, then as a slice.

use vstd::prelude::*;
use vstd::string::StringSliceAdditionalSpecFns;
use vstd::utf8::encode_utf8;
use vstd::utf8::is_char_boundary_iff_not_is_continuation_byte;
use vstd::utf8::is_char_boundary_start_end_of_seq;
use vstd::utf8::encode_utf8_valid_utf8;

verus! {

/// The byte a space character is encoded as.
pub const SPACE: u8 = 32;

/// Scans the string's bytes and returns the index of the first space,
/// or the byte length of the string when it holds no space.
pub fn first_word(s: &String) -> (r: usize)
    ensures
        r <= encode_utf8(s@).len(),
        r < encode_utf8(s@).len() ==> encode_utf8(s@)[r as int] == SPACE,
        forall|i: int| 0 <= i < r ==> encode_utf8(s@)[i] != SPACE,
{
    let bytes = s.as_str().as_bytes();
    let n = bytes.len();
    let mut i: usize = 0;
    while i < n
        invariant
            bytes@ == encode_utf8(s@),
            n == bytes@.len(),
            i <= n,
            forall|j: int| 0 <= j < i ==> bytes@[j] != SPACE,
        decreases n - i,
    {
        if bytes[i] == SPACE {
            return i;
        }
        i += 1;
    }
    n
}

/// Scans the string's bytes and returns the slice that ends just before
/// the first space, or the whole string when it holds no space.
pub fn first_word_optimized<'a>(s: &'a String) -> (r: &'a str)
    ensures
        r.spec_bytes().len() <= encode_utf8(s@).len(),
        r.spec_bytes() == encode_utf8(s@).subrange(0, r.spec_bytes().len() as int),
        forall|i: int| 0 <= i < r.spec_bytes().len() ==> encode_utf8(s@)[i] != SPACE,
        r.spec_bytes().len() < encode_utf8(s@).len() ==> encode_utf8(s@)[r.spec_bytes().len() as int]
            == SPACE,
{
    let end = first_word(s);
    let text = s.as_str();
    proof {
        encode_utf8_valid_utf8(s@);
        if end < text.spec_bytes().len() {
            is_char_boundary_iff_not_is_continuation_byte(text.spec_bytes(), end as int);
        } else {
            is_char_boundary_start_end_of_seq(text.spec_bytes());
        }
    }
    let (word, _rest) = text.split_at(end);
    word
}

} // verus!
