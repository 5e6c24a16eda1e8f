//! The text form of a ticket.
//!
//! A ticket travels as text that survives being pasted into a chat or a
//! terminal: the base-32 text of its binary form, without padding, in lower
//! case. Reading a ticket does not look at the case of its letters.

use crate::ascii::{
    lemma_upper_byte_length, lemma_upper_idempotent, lemma_upper_of_lower, lower, lower_char,
    upper, upper_char,
};
use crate::base32::{
    base32, is_symbol, lemma_base32_injective, lemma_base32_symbols, text_len,
};
use vstd::prelude::*;
use vstd::string::StringSliceAdditionalSpecFns;
use vstd::utf8::{encode_utf8, is_ascii_chars_encode_utf8};

verus! {

/// Why a text is no ticket.
#[derive(Clone, Copy, Debug, PartialEq, Eq)]
pub enum TicketError {
    /// The text is longer than the decoder takes.
    TooLong,
    /// The text is not the base-32 text of any byte string.
    NotBase32,
}

impl TicketError {
    /// The error in words, for the user.
    pub fn describe(&self) -> (words: String)
        ensures
            words@ == match self {
                TicketError::TooLong => "the ticket is too long"@,
                TicketError::NotBase32 => "the ticket is not base-32 text"@,
            },
    {
        match self {
            TicketError::TooLong => "the ticket is too long".to_owned(),
            TicketError::NotBase32 => "the ticket is not base-32 text".to_owned(),
        }
    }
}

/// The longest binary form that has a text form, in bytes.
pub open spec fn max_binary_len() -> usize {
    usize::MAX / 512
}

/// The longest text that is read, in bytes.
pub open spec fn max_text_len() -> usize {
    usize::MAX / 8
}

/// The text form of the binary form `binary`.
pub open spec fn encoded(binary: Seq<u8>) -> Seq<char> {
    lower(base32(binary))
}

/// Whether `text` is a text form of `binary`, in whatever case.
pub open spec fn encodes(text: Seq<char>, binary: Seq<u8>) -> bool {
    upper(text) == base32(binary)
}

/// The binary form that `text` stands for, if it stands for one.
pub open spec fn decoded(text: Seq<char>) -> Option<Seq<u8>> {
    if exists|binary: Seq<u8>| encodes(text, binary) {
        Some(choose|binary: Seq<u8>| encodes(text, binary))
    } else {
        None
    }
}

/// `data_encoding::DecodeError`: where and why the crate refused a text.
/// Nothing of it is read here.
#[verifier::external_type_specification]
#[verifier::external_body]
pub struct ExBase32Error(data_encoding::DecodeError);

/// `data_encoding::BASE32_NOPAD.encode`: the base-32 text of the input, in
/// the alphabet `A` to `Z`, `2` to `7`, most significant bit first, without
/// padding. The crate may panic on an input of more than `usize::MAX / 512`
/// bytes.
#[verifier::external_body]
fn base32_encode(binary: &[u8]) -> (text: String)
    requires
        binary@.len() <= max_binary_len(),
    ensures
        text@ == base32(binary@),
{
    data_encoding::BASE32_NOPAD.encode(binary)
}

/// `data_encoding::BASE32_NOPAD.decode` on the bytes of `text`. The encoding
/// is canonical: it gives back the bytes whose text the input is, and refuses
/// every input that is the text of no byte string (a character that is not
/// of the alphabet, a length that no text has, trailing bits that are not
/// zero). The crate may panic on an input of more than `usize::MAX / 8` bytes.
#[verifier::external_body]
fn base32_decode(text: &str) -> (binary: Result<Vec<u8>, data_encoding::DecodeError>)
    requires
        text.spec_bytes().len() <= max_text_len(),
    ensures
        match binary {
            Ok(bytes) => base32(bytes@) == text@,
            Err(_) => forall|bytes: Seq<u8>| base32(bytes) != text@,
        },
{
    data_encoding::BASE32_NOPAD.decode(text.as_bytes())
}

/// The text form of a ticket whose binary form is `binary`.
pub fn encode(binary: &[u8]) -> (text: String)
    requires
        binary@.len() <= max_binary_len(),
    ensures
        text@ == encoded(binary@),
{
    let text = base32_encode(binary);
    text.as_str().to_ascii_lowercase()
}

/// The binary form of the ticket that `text` stands for.
///
/// The case of the letters in `text` does not matter. A text that stands for
/// no byte string is refused, and nothing of it is decoded.
pub fn decode(text: &str) -> (binary: Result<Vec<u8>, TicketError>)
    ensures
        match binary {
            Ok(bytes) => text.spec_bytes().len() <= max_text_len() && decoded(text@) == Some(
                bytes@,
            ),
            Err(TicketError::TooLong) => text.spec_bytes().len() > max_text_len(),
            Err(TicketError::NotBase32) => text.spec_bytes().len() <= max_text_len() && decoded(
                text@,
            ) is None,
        },
{
    if text.as_bytes().len() > usize::MAX / 8 {
        return Err(TicketError::TooLong);
    }
    let shouted = text.to_ascii_uppercase();
    proof {
        lemma_upper_byte_length(text@);
    }
    match base32_decode(shouted.as_str()) {
        Ok(bytes) => {
            proof {
                lemma_decoded_unique(text@, bytes@);
            }
            Ok(bytes)
        },
        Err(_) => Err(TicketError::NotBase32),
    }
}

/// A text stands for at most one binary form.
pub proof fn lemma_decoded_unique(text: Seq<char>, binary: Seq<u8>)
    requires
        encodes(text, binary),
    ensures
        decoded(text) == Some(binary),
{
    let other = choose|other: Seq<u8>| encodes(text, other);
    lemma_base32_injective(other, binary);
}

/// Reading the text form gives the binary form back.
pub proof fn lemma_round_trip(binary: Seq<u8>)
    ensures
        decoded(encoded(binary)) == Some(binary),
{
    lemma_upper_of_lower(base32(binary));
    lemma_base32_symbols(binary);
    assert(upper(base32(binary)) =~= base32(binary));
    lemma_decoded_unique(encoded(binary), binary);
}

/// The text form of a binary form that can be encoded is short enough to be
/// read: it takes one byte for each of its characters.
pub proof fn lemma_encoded_is_read(binary: Seq<u8>)
    requires
        binary.len() <= max_binary_len(),
    ensures
        encode_utf8(encoded(binary)).len() == text_len(binary.len()),
        encode_utf8(encoded(binary)).len() <= max_text_len(),
{
    lemma_base32_symbols(binary);
    let text = encoded(binary);
    assert forall|i: int| 0 <= i < text.len() implies 0 <= #[trigger] (text[i] as nat) < 128 by {
        assert(text[i] == lower_char(base32(binary)[i]));
        assert(is_symbol(base32(binary)[i]));
    }
    is_ascii_chars_encode_utf8(text);
}

/// Reading a text in upper case gives what reading the text itself gives.
pub proof fn lemma_case_insensitive(text: Seq<char>)
    ensures
        decoded(upper(text)) == decoded(text),
{
    lemma_upper_idempotent(text);
    if exists|binary: Seq<u8>| encodes(text, binary) {
        let binary = choose|binary: Seq<u8>| encodes(text, binary);
        lemma_decoded_unique(text, binary);
        lemma_decoded_unique(upper(text), binary);
    } else {
        assert forall|binary: Seq<u8>| !encodes(upper(text), binary) by {
            assert(!encodes(text, binary));
        }
    }
}

/// A text with a character that is in neither case of the alphabet stands
/// for nothing.
pub proof fn lemma_rejects_foreign_character(text: Seq<char>, at: int)
    requires
        0 <= at < text.len(),
        !is_symbol(upper_char(text[at])),
    ensures
        decoded(text) is None,
{
    assert forall|binary: Seq<u8>| !encodes(text, binary) by {
        if encodes(text, binary) {
            lemma_base32_symbols(binary);
            assert(upper(text)[at] == upper_char(text[at]));
            assert(base32(binary)[at] == upper(text)[at]);
        }
    }
}

} // verus!
