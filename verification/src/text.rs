//! Small tools for text: what an optional string says, whether two strings
//! say the same, and the tail of a string by bytes.

use vstd::prelude::*;
use vstd::utf8::{decode_utf8, encode_utf8, is_ascii_chars, is_char_boundary, is_continuation_byte};

verus! {

/// The characters of an optional string.
pub open spec fn opt_text(s: Option<String>) -> Option<Seq<char>> {
    match s {
        Some(text) => Some(text@),
        None => None,
    }
}

/// Whether `a` and `b` hold the same characters.
pub fn same_text(a: &str, b: &str) -> (same: bool)
    ensures
        same == (a@ == b@),
{
    let x = a.as_bytes();
    let y = b.as_bytes();
    proof {
        // Equal bytes give equal characters: decoding undoes encoding.
        vstd::utf8::encode_utf8_decode_utf8(a@);
        vstd::utf8::encode_utf8_decode_utf8(b@);
    }
    if x.len() != y.len() {
        return false;
    }
    let mut i: usize = 0;
    while i < x.len()
        invariant
            x@ == encode_utf8(a@),
            y@ == encode_utf8(b@),
            x.len() == y.len(),
            i <= x.len(),
            forall|k: int| 0 <= k < i ==> x@[k] == y@[k],
        decreases x.len() - i,
    {
        if x[i] != y[i] {
            return false;
        }
        i += 1;
    }
    assert(x@ =~= y@);
    true
}

/// Whether the UTF-8 form of `text` can be cut four bytes before its end:
/// it has at least four bytes, and no character straddles the cut.
pub open spec fn has_last_four(text: Seq<char>) -> bool {
    let bytes = encode_utf8(text);
    bytes.len() >= 4 && is_char_boundary(bytes, bytes.len() - 4)
}

/// The characters that the last four bytes of the UTF-8 form of `text` spell.
pub open spec fn last_four(text: Seq<char>) -> Seq<char>
    recommends
        has_last_four(text),
{
    let bytes = encode_utf8(text);
    decode_utf8(bytes.subrange(bytes.len() - 4, bytes.len() as int))
}

/// Whether [`has_last_four`] holds of `text`.
pub fn check_last_four(text: &str) -> (ok: bool)
    ensures
        ok == has_last_four(text@),
{
    let len: usize = text.as_bytes().len();
    len >= 4 && text.is_char_boundary(len - 4)
}

/// The characters that the last four bytes of `text` spell, as a string of
/// their own.
pub fn take_last_four(text: &str) -> (tail: String)
    requires
        has_last_four(text@),
    ensures
        tail@ == last_four(text@),
{
    let len: usize = text.as_bytes().len();
    let (_, tail) = text.split_at(len - 4);
    proof {
        vstd::utf8::encode_utf8_decode_utf8(tail@);
    }
    tail.to_owned()
}

/// The last four of a text are four bytes long in UTF-8.
pub proof fn lemma_last_four_is_four_bytes(text: Seq<char>)
    requires
        has_last_four(text),
    ensures
        encode_utf8(last_four(text)).len() == 4,
{
    let bytes = encode_utf8(text);
    let cut = bytes.len() - 4;
    vstd::utf8::encode_utf8_valid_utf8(text);
    vstd::utf8::valid_utf8_split(bytes, cut);
    vstd::utf8::decode_utf8_encode_utf8(bytes.subrange(cut, bytes.len() as int));
}

/// The last four of a text of more than four bytes are not the text: the
/// tail never gives the whole away.
pub proof fn lemma_last_four_is_not_all(text: Seq<char>)
    requires
        has_last_four(text),
        encode_utf8(text).len() > 4,
    ensures
        last_four(text) != text,
{
    lemma_last_four_is_four_bytes(text);
}

/// The last four are the end of the text: what comes before them, followed
/// by them, is the text.
pub proof fn lemma_last_four_is_a_suffix(text: Seq<char>)
    requires
        has_last_four(text),
    ensures
        exists|head: Seq<char>| head + last_four(text) == text,
{
    let bytes = encode_utf8(text);
    let cut = bytes.len() - 4;
    vstd::utf8::encode_utf8_valid_utf8(text);
    vstd::utf8::decode_utf8_split(bytes, cut);
    vstd::utf8::encode_utf8_decode_utf8(text);
    let head = decode_utf8(bytes.subrange(0, cut));
    assert(head + last_four(text) == text);
}

/// Of text in ASCII with at least four characters, digits for example, the
/// last four bytes are the last four characters, and the cut before them
/// splits no character.
pub proof fn lemma_last_four_of_ascii(text: Seq<char>)
    requires
        is_ascii_chars(text),
        text.len() >= 4,
    ensures
        has_last_four(text),
        last_four(text) == text.subrange(text.len() - 4, text.len() as int),
{
    let bytes = encode_utf8(text);
    let cut = text.len() - 4;
    let tail = text.subrange(cut, text.len() as int);
    vstd::utf8::is_ascii_chars_encode_utf8(text);
    vstd::utf8::encode_utf8_valid_utf8(text);
    assert(!is_continuation_byte(bytes[cut])) by {
        assert(bytes[cut] == text[cut] as u8);
    }
    vstd::utf8::is_char_boundary_iff_not_is_continuation_byte(bytes, cut);
    assert(is_ascii_chars(tail));
    vstd::utf8::is_ascii_chars_encode_utf8(tail);
    assert(encode_utf8(tail) =~= bytes.subrange(cut, bytes.len() as int));
    vstd::utf8::encode_utf8_decode_utf8(tail);
}

} // verus!
