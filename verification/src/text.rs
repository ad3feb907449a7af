//! Small readings of text: suffixes of names and the text of a header value.

use vstd::prelude::*;
use vstd::utf8::{
    decode_utf8, decode_utf8_split, encode_scalar, encode_utf8, encode_utf8_decode_utf8,
    encode_utf8_valid_utf8, is_ascii_chars_encode_utf8, is_char_boundary_iff_is_leading_byte,
    is_char_boundary_start_end_of_seq, valid_utf8,
};

verus! {

/// The view of an optional owned string.
pub open spec fn opt_view(s: Option<String>) -> Option<Seq<char>> {
    match s {
        Some(t) => Some(t@),
        None => None,
    }
}

/// The view of an optional string slice.
pub open spec fn opt_str_view(s: Option<&str>) -> Option<Seq<char>> {
    match s {
        Some(t) => Some(t@),
        None => None,
    }
}

/// Whether two string slices hold the same text.
pub fn same_text(a: &str, b: &str) -> (r: bool)
    ensures
        r == (a@ == b@),
{
    let x = a.as_bytes();
    let y = b.as_bytes();
    proof {
        encode_utf8_decode_utf8(a@);
        encode_utf8_decode_utf8(b@);
    }
    if x.len() != y.len() {
        return false;
    }
    let mut i: usize = 0;
    while i < x.len()
        invariant
            i <= x.len(),
            x.len() == y.len(),
            x@ == encode_utf8(a@),
            y@ == encode_utf8(b@),
            forall|j: int| 0 <= j < i ==> x@[j] == y@[j],
        decreases x.len() - i,
    {
        if x[i] != y[i] {
            return false;
        }
        i += 1;
    }
    assert(x@ =~= y@);
    true
}

/// The encoding of two texts one after the other is the encoding of the
/// first followed by that of the second.
proof fn lemma_encode_concat(a: Seq<char>, b: Seq<char>)
    ensures
        encode_utf8(a + b) == encode_utf8(a) + encode_utf8(b),
    decreases a.len(),
{
    if a.len() == 0 {
        assert(a + b =~= b);
        assert(encode_utf8(a) + encode_utf8(b) =~= encode_utf8(b));
    } else {
        lemma_encode_concat(a.drop_first(), b);
        assert((a + b).drop_first() =~= a.drop_first() + b);
        assert((a + b)[0] == a[0]);
        assert(encode_scalar(a[0] as u32) + (encode_utf8(a.drop_first()) + encode_utf8(b))
            =~= (encode_scalar(a[0] as u32) + encode_utf8(a.drop_first())) + encode_utf8(b));
    }
}

/// Only the empty text has an empty encoding.
proof fn lemma_encode_empty(a: Seq<char>)
    requires
        encode_utf8(a).len() == 0,
    ensures
        a.len() == 0,
{
    encode_utf8_decode_utf8(a);
    assert(encode_utf8(a) =~= Seq::<u8>::empty());
    assert(decode_utf8(Seq::<u8>::empty()) =~= Seq::<char>::empty());
}

/// A text ends with another exactly where its encoding ends with the
/// encoding of the other.
proof fn lemma_suffix_by_bytes(suffix: Seq<char>, text: Seq<char>)
    ensures
        suffix.is_suffix_of(text) <==> encode_utf8(suffix).is_suffix_of(encode_utf8(text)),
{
    let tail = encode_utf8(suffix);
    let whole = encode_utf8(text);
    encode_utf8_valid_utf8(suffix);
    encode_utf8_valid_utf8(text);
    encode_utf8_decode_utf8(suffix);
    encode_utf8_decode_utf8(text);
    if suffix.is_suffix_of(text) {
        let cut: int = text.len() - suffix.len();
        let head = text.subrange(0, cut);
        assert(text =~= head + suffix);
        lemma_encode_concat(head, suffix);
        assert(whole.subrange(whole.len() - tail.len(), whole.len() as int) =~= tail);
    }
    if tail.is_suffix_of(whole) {
        let cut: int = whole.len() - tail.len();
        if tail.len() == 0 {
            lemma_encode_empty(suffix);
            assert(text.subrange(text.len() - suffix.len(), text.len() as int) =~= suffix);
        } else {
            assert(whole[cut] == tail[0]) by {
                assert(whole.subrange(cut, whole.len() as int)[0] == tail[0]);
            }
            is_char_boundary_start_end_of_seq(tail);
            is_char_boundary_iff_is_leading_byte(tail, 0);
            is_char_boundary_iff_is_leading_byte(whole, cut);
            decode_utf8_split(whole, cut);
            let head = decode_utf8(whole.subrange(0, cut));
            assert(text =~= head + suffix);
            assert(text.subrange(text.len() - suffix.len(), text.len() as int) =~= suffix);
        }
    }
}

/// Whether `text` ends with `suffix`.
pub fn ends_with(text: &str, suffix: &str) -> (r: bool)
    ensures
        r == suffix@.is_suffix_of(text@),
{
    let whole = text.as_bytes();
    let tail = suffix.as_bytes();
    proof {
        lemma_suffix_by_bytes(suffix@, text@);
    }
    if tail.len() > whole.len() {
        return false;
    }
    let cut: usize = whole.len() - tail.len();
    let mut i: usize = 0;
    while i < tail.len()
        invariant
            i <= tail.len(),
            cut + tail.len() == whole.len(),
            whole@ == encode_utf8(text@),
            tail@ == encode_utf8(suffix@),
            suffix@.is_suffix_of(text@) <==> tail@.is_suffix_of(whole@),
            forall|j: int| 0 <= j < i ==> whole@[cut + j] == tail@[j],
        decreases tail.len() - i,
    {
        if whole[cut + i] != tail[i] {
            assert(whole@.subrange(whole@.len() - tail@.len(), whole@.len() as int)[i as int]
                != tail@[i as int]);
            return false;
        }
        i += 1;
    }
    assert(whole@.subrange(whole@.len() - tail@.len(), whole@.len() as int) =~= tail@);
    true
}

/// `core::str::from_utf8`: the string that the bytes encode, `None` where
/// they are not valid UTF-8.
#[verifier::external_body]
pub(crate) fn utf8_text(bytes: &[u8]) -> (r: Option<&str>)
    ensures
        match r {
            Some(s) => encode_utf8(s@) == bytes@,
            None => !valid_utf8(bytes@),
        },
{
    core::str::from_utf8(bytes).ok()
}

/// A byte that may stand in the text of a header value: a visible ASCII
/// character, a space or a tab.
pub open spec fn is_visible(byte: u8) -> bool {
    (32 <= byte < 127) || byte == 9
}

/// The characters that a sequence of ASCII bytes stands for.
pub open spec fn ascii_chars(bytes: Seq<u8>) -> Seq<char> {
    Seq::new(bytes.len(), |i: int| bytes[i] as char)
}

/// The text of a header value: its bytes as characters where every byte is
/// visible, nothing otherwise.
pub open spec fn header_text(bytes: Seq<u8>) -> Option<Seq<char>> {
    if forall|i: int| 0 <= i < bytes.len() ==> is_visible(#[trigger] bytes[i]) {
        Some(ascii_chars(bytes))
    } else {
        None
    }
}

/// ASCII bytes are the UTF-8 encoding of the characters they stand for.
proof fn lemma_ascii_bytes_encode(bytes: Seq<u8>)
    requires
        forall|i: int| 0 <= i < bytes.len() ==> #[trigger] bytes[i] < 128,
    ensures
        encode_utf8(ascii_chars(bytes)) == bytes,
        valid_utf8(bytes),
        decode_utf8(bytes) == ascii_chars(bytes),
{
    let chars = ascii_chars(bytes);
    assert forall|i: int| 0 <= i < chars.len() implies '\0' <= #[trigger] chars[i] <= '\u{7f}' by {
        assert(bytes[i] < 128);
    }
    is_ascii_chars_encode_utf8(chars);
    assert forall|i: int| 0 <= i < bytes.len() implies encode_utf8(chars)[i] == bytes[i] by {
        assert(chars[i] as u8 == encode_utf8(chars)[i]);
        assert(bytes[i] < 128);
    }
    assert(encode_utf8(chars) =~= bytes);
    encode_utf8_valid_utf8(chars);
    encode_utf8_decode_utf8(chars);
}

/// Reads a header value as text. A value with a byte that is not visible
/// has no text.
pub fn read_header(bytes: &[u8]) -> (r: Option<&str>)
    ensures
        opt_str_view(r) == header_text(bytes@),
{
    let mut i: usize = 0;
    while i < bytes.len()
        invariant
            i <= bytes.len(),
            forall|j: int| 0 <= j < i ==> is_visible(#[trigger] bytes@[j]),
        decreases bytes.len() - i,
    {
        let byte: u8 = bytes[i];
        if !((32 <= byte && byte < 127) || byte == 9) {
            return None;
        }
        i += 1;
    }
    proof {
        lemma_ascii_bytes_encode(bytes@);
    }
    match utf8_text(bytes) {
        Some(text) => {
            proof {
                encode_utf8_decode_utf8(text@);
            }
            Some(text)
        },
        None => None,
    }
}

} // verus!
