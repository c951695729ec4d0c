use vstd::prelude::*;
use vstd::utf8::{char_is_scalar, encode_scalar, encode_utf8, has_width_1_encoding};

verus! {

/// Upper bound (exclusive) on the byte length of any request field.
pub const FIELD_LEN_LIMIT: usize = 4096;

/// The character that separates the parts of a composite storage key.
pub const KEY_DELIMITER: char = ':';

/// A field is acceptable when it is non-empty and shorter than the limit,
/// measured in UTF-8 bytes.
pub open spec fn field_ok(s: Seq<char>) -> bool {
    s.len() > 0 && encode_utf8(s).len() < FIELD_LEN_LIMIT
}

/// A key field is an acceptable field that never holds the key delimiter.
pub open spec fn key_field_ok(s: Seq<char>) -> bool {
    field_ok(s) && !s.contains(KEY_DELIMITER)
}

pub fn is_valid_field(s: &str) -> (r: bool)
    ensures
        r == field_ok(s@),
{
    let b = s.as_bytes();
    !s.is_empty() && b.len() < FIELD_LEN_LIMIT
}

proof fn lemma_scalar_avoids_delimiter(c: char)
    requires
        c != KEY_DELIMITER,
    ensures
        !encode_scalar(c as u32).contains(58u8),
{
    char_is_scalar(c);
    let v = c as u32;
    let e = encode_scalar(v);
    if has_width_1_encoding(v) {
        assert(v != 58u32);
        assert(v <= 0x7f ==> v & 0x7f == v) by (bit_vector);
        assert(e[0] == (v & 0x7f) as u8);
        assert(!e.contains(58u8)) by {
            assert forall|i: int| 0 <= i < e.len() implies e[i] != 58u8 by {}
        }
    } else {
        assert forall|i: int| 0 <= i < e.len() implies e[i] >= 0x80u8 by {
            assert(forall|x: u8| #![auto] (0xC0u8 | x) >= 0x80u8) by (bit_vector);
            assert(forall|x: u8| #![auto] (0xE0u8 | x) >= 0x80u8) by (bit_vector);
            assert(forall|x: u8| #![auto] (0xF0u8 | x) >= 0x80u8) by (bit_vector);
            assert(forall|x: u8| #![auto] (0x80u8 | x) >= 0x80u8) by (bit_vector);
        }
    }
}

/// The UTF-8 encoding of a text without the key delimiter holds no delimiter byte.
pub(crate) proof fn lemma_encoding_avoids_delimiter(s: Seq<char>)
    requires
        !s.contains(KEY_DELIMITER),
    ensures
        !encode_utf8(s).contains(58u8),
    decreases s.len(),
{
    if s.len() > 0 {
        assert(s[0] != KEY_DELIMITER);
        lemma_scalar_avoids_delimiter(s[0]);
        assert(!s.drop_first().contains(KEY_DELIMITER)) by {
            if s.drop_first().contains(KEY_DELIMITER) {
                let i = choose|i: int| 0 <= i < s.drop_first().len() && s.drop_first()[i] == KEY_DELIMITER;
                assert(s[i + 1] == KEY_DELIMITER);
            }
        }
        lemma_encoding_avoids_delimiter(s.drop_first());
        let a = encode_scalar(s[0] as u32);
        let b = encode_utf8(s.drop_first());
        assert(encode_utf8(s) == a + b);
        assert forall|i: int| 0 <= i < (a + b).len() implies (a + b)[i] != 58u8 by {
            if i < a.len() {
                assert(a[i] != 58u8);
            } else {
                assert(b[i - a.len()] != 58u8);
            }
        }
    }
}

/// The UTF-8 encoding of a text holding the key delimiter holds the delimiter byte.
proof fn lemma_encoding_keeps_delimiter(s: Seq<char>)
    requires
        s.contains(KEY_DELIMITER),
    ensures
        encode_utf8(s).contains(58u8),
    decreases s.len(),
{
    let a = encode_scalar(s[0] as u32);
    let b = encode_utf8(s.drop_first());
    assert(encode_utf8(s) == a + b);
    if s[0] == KEY_DELIMITER {
        let v = s[0] as u32;
        assert(v == 58u32);
        assert(v == 58u32 ==> v & 0x7f == 58u32) by (bit_vector);
        assert((a + b)[0] == 58u8);
    } else {
        let i = choose|i: int| 0 <= i < s.len() && s[i] == KEY_DELIMITER;
        assert(s.drop_first()[i - 1] == KEY_DELIMITER);
        lemma_encoding_keeps_delimiter(s.drop_first());
        let j = choose|j: int| 0 <= j < b.len() && b[j] == 58u8;
        assert((a + b)[a.len() + j] == 58u8);
    }
}

/// Whether the delimiter byte occurs in `b`.
fn has_delimiter_byte(b: &[u8]) -> (r: bool)
    ensures
        r == b@.contains(58u8),
{
    let mut i: usize = 0;
    while i < b.len()
        invariant
            i <= b@.len(),
            forall|j: int| 0 <= j < i ==> b@[j] != 58u8,
        decreases b@.len() - i,
    {
        if b[i] == 58u8 {
            return true;
        }
        i = i + 1;
    }
    false
}

pub fn is_valid_key_field(s: &str) -> (r: bool)
    ensures
        r == key_field_ok(s@),
{
    let found = has_delimiter_byte(s.as_bytes());
    proof {
        if s@.contains(KEY_DELIMITER) {
            lemma_encoding_keeps_delimiter(s@);
        } else {
            lemma_encoding_avoids_delimiter(s@);
        }
    }
    is_valid_field(s) && !found
}

} // verus!
