//! ASCII case, as the ticket text uses it.

use vstd::prelude::*;
use vstd::utf8::{encode_scalar, encode_utf8};

verus! {

/// The upper-case form of an ASCII letter; any other character is itself.
pub open spec fn upper_char(c: char) -> char {
    if 'a' <= c && c <= 'z' {
        (c as int - 32) as char
    } else {
        c
    }
}

/// The lower-case form of an ASCII letter; any other character is itself.
pub open spec fn lower_char(c: char) -> char {
    if 'A' <= c && c <= 'Z' {
        (c as int + 32) as char
    } else {
        c
    }
}

/// `text` with its ASCII letters in upper case.
pub open spec fn upper(text: Seq<char>) -> Seq<char> {
    Seq::new(text.len(), |i: int| upper_char(text[i]))
}

/// `text` with its ASCII letters in lower case.
pub open spec fn lower(text: Seq<char>) -> Seq<char> {
    Seq::new(text.len(), |i: int| lower_char(text[i]))
}

/// `str::to_ascii_uppercase` of the standard library: a copy of the text in
/// which the letters `a` to `z` are replaced by `A` to `Z` and every other
/// character is kept.
pub assume_specification[ str::to_ascii_uppercase ](text: &str) -> (copy: String)
    ensures
        copy@ == upper(text@),
;

/// `str::to_ascii_lowercase` of the standard library: a copy of the text in
/// which the letters `A` to `Z` are replaced by `a` to `z` and every other
/// character is kept.
pub assume_specification[ str::to_ascii_lowercase ](text: &str) -> (copy: String)
    ensures
        copy@ == lower(text@),
;

/// Putting a text in upper case twice is putting it in upper case once.
pub proof fn lemma_upper_idempotent(text: Seq<char>)
    ensures
        upper(upper(text)) == upper(text),
{
    assert(upper(upper(text)) =~= upper(text));
}

/// Upper case does not see the case of its input.
pub proof fn lemma_upper_of_lower(text: Seq<char>)
    ensures
        upper(lower(text)) == upper(text),
{
    assert(upper(lower(text)) =~= upper(text));
}

/// A text in upper case takes as many bytes as the text itself.
pub proof fn lemma_upper_byte_length(text: Seq<char>)
    ensures
        encode_utf8(upper(text)).len() == encode_utf8(text).len(),
    decreases text.len(),
{
    if text.len() > 0 {
        lemma_upper_byte_length(text.drop_first());
        assert(upper(text).drop_first() =~= upper(text.drop_first()));
        assert(upper(text)[0] == upper_char(text[0]));
        assert(encode_scalar(upper_char(text[0]) as u32).len() == encode_scalar(
            text[0] as u32,
        ).len());
    }
}

} // verus!
