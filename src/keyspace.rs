use vstd::prelude::*;
use vstd::utf8::{encode_utf8, encode_utf8_decode_utf8};

use crate::store::{doc_key, user_key};
use crate::validate::{lemma_encoding_avoids_delimiter, KEY_DELIMITER};

verus! {

proof fn lemma_encoding_injective(s: Seq<char>, t: Seq<char>)
    requires
        encode_utf8(s) == encode_utf8(t),
    ensures
        s == t,
{
    encode_utf8_decode_utf8(s);
    encode_utf8_decode_utf8(t);
}

/// The storage keys never collide: two progress keys of users and documents
/// without the delimiter are equal only for the same user and document, two
/// user keys only for the same user, and no progress key is a user key.
pub proof fn law_keys_are_distinct(u1: Seq<char>, d1: Seq<char>, u2: Seq<char>, d2: Seq<char>)
    requires
        !u1.contains(KEY_DELIMITER),
        !u2.contains(KEY_DELIMITER),
    ensures
        doc_key(u1, d1) == doc_key(u2, d2) ==> u1 == u2 && d1 == d2,
        user_key(u1) == user_key(u2) ==> u1 == u2,
        doc_key(u1, d1) != user_key(u2),
{
    let e1 = encode_utf8(u1);
    let n1: int = e1.len() as int;
    let e2 = encode_utf8(u2);
    let n2: int = e2.len() as int;
    lemma_encoding_avoids_delimiter(u1);
    lemma_encoding_avoids_delimiter(u2);
    let k1 = doc_key(u1, d1);
    let k2 = doc_key(u2, d2);
    if k1 == k2 {
        if n1 < n2 {
            assert(k1[2 + n1] == 58u8);
            assert(k2[2 + n1] == e2[n1]);
        } else if n1 > n2 {
            assert(k2[2 + n2] == 58u8);
            assert(k1[2 + n2] == e1[n2]);
        }
        assert(e1 =~= k1.subrange(2, 2 + n1));
        assert(e2 =~= k2.subrange(2, 2 + n2));
        lemma_encoding_injective(u1, u2);
        assert(encode_utf8(d1) =~= k1.skip(5 + n1));
        assert(encode_utf8(d2) =~= k2.skip(5 + n2));
        lemma_encoding_injective(d1, d2);
    }
    if user_key(u1) == user_key(u2) {
        assert(e1 =~= user_key(u1).subrange(2, 2 + n1));
        assert(e2 =~= user_key(u2).subrange(2, 2 + n2));
        lemma_encoding_injective(u1, u2);
    }
    let ku = user_key(u2);
    if k1 == ku {
        if n1 < n2 {
            assert(k1[2 + n1] == 58u8);
            assert(ku[2 + n1] == e2[n1]);
        } else if n1 > n2 {
            assert(ku[2 + n2] == 58u8);
            assert(k1[2 + n2] == e1[n2]);
        } else {
            assert(k1[3 + n1] == 68u8);
            assert(ku[3 + n2] == 75u8);
        }
    }
}

} // verus!
