//! Text as the rest of the crate sees it: a string is its sequence of `char`s, and
//! byte offsets into it are offsets into its UTF-8 encoding.
use vstd::prelude::*;
use vstd::string::*;
use vstd::utf8::*;

verus! {

broadcast use {encode_utf8_valid_utf8, encode_utf8_decode_utf8};

/// Number of bytes in the UTF-8 encoding of `text`.
pub open spec fn byte_len(text: Seq<char>) -> nat {
    encode_utf8(text).len()
}

/// True when byte offset `at` starts a character of `text` (or is its end).
pub open spec fn on_char_boundary(text: Seq<char>, at: nat) -> bool {
    is_char_boundary(encode_utf8(text), at as int)
}

/// The characters of `text` encoded from byte offset `at` to the end.
pub open spec fn bytes_after(text: Seq<char>, at: nat) -> Seq<char> {
    decode_utf8(encode_utf8(text).subrange(at as int, byte_len(text) as int))
}

/// Encoding a concatenation encodes each part in turn.
pub proof fn lemma_encode_concat(a: Seq<char>, b: Seq<char>)
    ensures
        encode_utf8(a + b) == encode_utf8(a) + encode_utf8(b),
    decreases a.len(),
{
    if a.len() == 0 {
        assert(a + b =~= b);
        assert(encode_utf8(a) =~= Seq::<u8>::empty());
        assert(encode_utf8(a) + encode_utf8(b) =~= encode_utf8(b));
    } else {
        assert((a + b).drop_first() =~= a.drop_first() + b);
        assert((a + b)[0] == a[0]);
        lemma_encode_concat(a.drop_first(), b);
        assert(encode_utf8(a + b) =~= encode_utf8(a) + encode_utf8(b));
    }
}

/// Only the empty text has an empty encoding.
pub proof fn lemma_encode_empty(a: Seq<char>)
    ensures
        byte_len(a) == 0 <==> a.len() == 0,
{
    if a.len() != 0 {
        let s = a[0] as u32;
        assert(encode_scalar(s).len() >= 1);
        assert(encode_utf8(a) == encode_scalar(s) + encode_utf8(a.drop_first()));
    } else {
        assert(encode_utf8(a) =~= Seq::<u8>::empty());
    }
}

/// The end of an encoded prefix is a character boundary of the whole text.
pub proof fn lemma_prefix_end_is_boundary(a: Seq<char>, b: Seq<char>)
    ensures
        is_char_boundary(encode_utf8(a + b), byte_len(a) as int),
    decreases a.len(),
{
    if a.len() != 0 {
        let whole = a + b;
        let bytes = encode_utf8(whole);
        encode_utf8_first_scalar(whole);
        assert(whole[0] == a[0]);
        assert(whole.drop_first() =~= a.drop_first() + b);
        assert(bytes == encode_scalar(a[0] as u32) + encode_utf8(a.drop_first() + b));
        assert(pop_first_scalar(bytes) =~= encode_utf8(a.drop_first() + b));
        lemma_encode_concat(a, b);
        assert(encode_utf8(a) == encode_scalar(a[0] as u32) + encode_utf8(a.drop_first()));
        lemma_prefix_end_is_boundary(a.drop_first(), b);
        lemma_encode_concat(a.drop_first(), b);
        assert(byte_len(a) - length_of_first_scalar(bytes) == byte_len(a.drop_first()));
    }
}

/// Splitting the encoding of `prefix + rest` at the end of `prefix` gives back `rest`.
pub proof fn lemma_bytes_after_prefix(prefix: Seq<char>, text: Seq<char>)
    requires
        prefix.is_prefix_of(text),
    ensures
        byte_len(prefix) <= byte_len(text),
        on_char_boundary(text, byte_len(prefix)),
        bytes_after(text, byte_len(prefix)) == text.skip(prefix.len() as int),
        byte_len(prefix) == byte_len(text) <==> prefix.len() == text.len(),
{
    let rest = text.skip(prefix.len() as int);
    assert(text =~= prefix + rest);
    lemma_encode_concat(prefix, rest);
    lemma_prefix_end_is_boundary(prefix, rest);
    lemma_encode_empty(rest);
    assert(encode_utf8(text).subrange(byte_len(prefix) as int, byte_len(text) as int)
        =~= encode_utf8(rest));
}

/// The characters after a boundary take up the remaining bytes of the encoding.
pub proof fn lemma_bytes_after_len(text: Seq<char>, at: nat)
    requires
        at <= byte_len(text),
        on_char_boundary(text, at),
    ensures
        byte_len(bytes_after(text, at)) == byte_len(text) - at,
{
    let bytes = encode_utf8(text);
    let rest = bytes.subrange(at as int, bytes.len() as int);
    valid_utf8_split(bytes, at as int);
    decode_utf8_encode_utf8(rest);
}

/// Equality of two strings, character by character.
pub fn str_eq(a: &str, b: &str) -> (same: bool)
    ensures
        same == (a@ == b@),
{
    let n = a.unicode_len();
    let m = b.unicode_len();
    if n != m {
        return false;
    }
    let mut i: usize = 0;
    while i < n
        invariant
            n == a@.len(),
            m == b@.len(),
            n == m,
            i <= n,
            forall|j: int| 0 <= j < i ==> a@[j] == b@[j],
        decreases n - i,
    {
        if a.get_char(i) != b.get_char(i) {
            return false;
        }
        i = i + 1;
    }
    assert(a@ =~= b@);
    true
}

/// The rest of `s` after `prefix`, when `s` begins with `prefix`.
pub fn strip_prefix<'a>(s: &'a str, prefix: &str) -> (rest: Option<&'a str>)
    ensures
        rest is Some <==> prefix@.is_prefix_of(s@),
        rest matches Some(r) ==> r@ == s@.skip(prefix@.len() as int),
{
    let n = s.unicode_len();
    let k = prefix.unicode_len();
    if k > n {
        return None;
    }
    let mut i: usize = 0;
    while i < k
        invariant
            n == s@.len(),
            k == prefix@.len(),
            k <= n,
            i <= k,
            forall|j: int| 0 <= j < i ==> prefix@[j] == s@[j],
        decreases k - i,
    {
        if s.get_char(i) != prefix.get_char(i) {
            return None;
        }
        i = i + 1;
    }
    assert(prefix@ =~= s@.subrange(0, k as int));
    let r = s.substring_char(k, n);
    assert(r@ =~= s@.skip(k as int));
    Some(r)
}

} // verus!
