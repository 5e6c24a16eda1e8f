//! Identifiers of peers and of rooms.

use vstd::prelude::*;

verus! {

/// The number of bytes in a peer or topic identifier.
pub const ID_LENGTH: usize = 32;

/// The number of leading bytes that the short form of a peer identifier shows.
pub const SHORT_BYTES: usize = 5;

/// The identifier of a peer: the 32 bytes of its public key.
#[derive(Clone, Copy, Debug, PartialEq, Eq, Hash)]
pub struct PeerId {
    bytes: [u8; 32],
}

/// The identifier of one broadcast group, that is of one chat room.
#[derive(Clone, Copy, Debug, PartialEq, Eq, Hash)]
pub struct TopicId {
    bytes: [u8; 32],
}

/// The lowercase hexadecimal digit of a value below sixteen.
pub open spec fn hex_digit(v: int) -> char {
    if v < 10 {
        ('0' as int + v) as char
    } else {
        ('a' as int + v - 10) as char
    }
}

/// Lowercase hexadecimal text of `bytes`: two digits for each byte, the high
/// half first.
pub open spec fn hex_lower(bytes: Seq<u8>) -> Seq<char> {
    Seq::new(
        2 * bytes.len(),
        |i: int|
            if i % 2 == 0 {
                hex_digit(bytes[i / 2] as int / 16)
            } else {
                hex_digit(bytes[i / 2] as int % 16)
            },
    )
}

/// The short text that stands for a peer whose name is not known: the
/// hexadecimal form of the first five bytes of its identifier.
pub open spec fn short_form(id: Seq<u8>) -> Seq<char> {
    hex_lower(id.take(SHORT_BYTES as int))
}

impl View for PeerId {
    type V = Seq<u8>;

    closed spec fn view(&self) -> Seq<u8> {
        self.bytes@
    }
}

impl View for TopicId {
    type V = Seq<u8>;

    closed spec fn view(&self) -> Seq<u8> {
        self.bytes@
    }
}

/// One hexadecimal digit as text.
fn digit_text(v: u8) -> (text: &'static str)
    requires
        v < 16,
    ensures
        text@ == seq![hex_digit(v as int)],
{
    proof {
        reveal_strlit("0");
        reveal_strlit("1");
        reveal_strlit("2");
        reveal_strlit("3");
        reveal_strlit("4");
        reveal_strlit("5");
        reveal_strlit("6");
        reveal_strlit("7");
        reveal_strlit("8");
        reveal_strlit("9");
        reveal_strlit("a");
        reveal_strlit("b");
        reveal_strlit("c");
        reveal_strlit("d");
        reveal_strlit("e");
        reveal_strlit("f");
    }
    let text = match v {
        0 => "0",
        1 => "1",
        2 => "2",
        3 => "3",
        4 => "4",
        5 => "5",
        6 => "6",
        7 => "7",
        8 => "8",
        9 => "9",
        10 => "a",
        11 => "b",
        12 => "c",
        13 => "d",
        14 => "e",
        _ => "f",
    };
    assert(text@ =~= seq![hex_digit(v as int)]);
    text
}

impl PeerId {
    /// The identifier made of the given bytes.
    pub fn from_bytes(bytes: [u8; 32]) -> (id: PeerId)
        ensures
            id@ == bytes@,
    {
        PeerId { bytes }
    }

    /// The bytes of the identifier.
    pub fn as_bytes(&self) -> (bytes: &[u8; 32])
        ensures
            bytes@ == self@,
    {
        &self.bytes
    }

    /// An identifier is 32 bytes long.
    pub proof fn lemma_length(self)
        ensures
            self@.len() == ID_LENGTH,
    {
    }

    /// Whether two identifiers are the same.
    pub fn same_as(&self, other: &PeerId) -> (same: bool)
        ensures
            same == (self@ == other@),
    {
        let mut i: usize = 0;
        while i < 32
            invariant
                i <= 32,
                forall|j: int| 0 <= j < i ==> self.bytes@[j] == other.bytes@[j],
            decreases 32 - i,
        {
            if self.bytes[i] != other.bytes[i] {
                return false;
            }
            i += 1;
        }
        assert(self.bytes@ =~= other.bytes@);
        true
    }

    /// The short text that stands for this peer where no name is known.
    pub fn fmt_short(&self) -> (text: String)
        ensures
            text@ == short_form(self@),
    {
        let mut text = String::new();
        let mut i: usize = 0;
        while i < SHORT_BYTES
            invariant
                i <= SHORT_BYTES,
                text@ == hex_lower(self.bytes@.take(i as int)),
            decreases SHORT_BYTES - i,
        {
            let byte = self.bytes[i];
            text.append(digit_text(byte / 16));
            text.append(digit_text(byte % 16));
            i += 1;
            assert(text@ =~= hex_lower(self.bytes@.take(i as int)));
        }
        text
    }
}

/// `rand::random` for an array of 32 bytes: each byte drawn from the random
/// number generator of the thread. Which bytes come is not known before the
/// call, and two calls need not give the same. The generator panics where
/// the system has no seed for it.
#[verifier::external_body]
fn random_bytes() -> (bytes: [u8; 32]) {
    rand::random()
}

impl TopicId {
    /// The identifier of a new room, drawn at random.
    pub fn random() -> (id: TopicId) {
        TopicId::from_bytes(random_bytes())
    }

    /// The identifier made of the given bytes.
    pub fn from_bytes(bytes: [u8; 32]) -> (id: TopicId)
        ensures
            id@ == bytes@,
    {
        TopicId { bytes }
    }

    /// The bytes of the identifier.
    pub fn as_bytes(&self) -> (bytes: &[u8; 32])
        ensures
            bytes@ == self@,
    {
        &self.bytes
    }
}

} // verus!
