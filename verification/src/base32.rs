//! The base-32 text of a byte string: the alphabet of RFC 4648, no padding.

use vstd::arithmetic::power2::{lemma2_to64, pow2};
use vstd::prelude::*;

verus! {

/// Bit `p` of a byte, counted from its most significant bit.
pub open spec fn byte_bit(byte: u8, p: int) -> int {
    (byte as int / pow2((7 - p) as nat) as int) % 2
}

/// Bit `i` of `bytes` read as one stream of bits, the most significant bit of
/// each byte first. Past its end the stream goes on with zeros.
pub open spec fn stream_bit(bytes: Seq<u8>, i: int) -> int {
    if 0 <= i < 8 * bytes.len() {
        byte_bit(bytes[i / 8], i % 8)
    } else {
        0
    }
}

/// The value of the `k`-th group of five bits of the stream.
pub open spec fn quintet(bytes: Seq<u8>, k: int) -> int {
    16 * stream_bit(bytes, 5 * k) + 8 * stream_bit(bytes, 5 * k + 1) + 4 * stream_bit(
        bytes,
        5 * k + 2,
    ) + 2 * stream_bit(bytes, 5 * k + 3) + stream_bit(bytes, 5 * k + 4)
}

/// The character that stands for a five-bit value: `A` to `Z` for 0 to 25,
/// `2` to `7` for 26 to 31.
pub open spec fn symbol(v: int) -> char {
    if v < 26 {
        ('A' as int + v) as char
    } else {
        ('2' as int + v - 26) as char
    }
}

/// Whether `c` is one of the 32 characters of the alphabet.
pub open spec fn is_symbol(c: char) -> bool {
    ('A' <= c && c <= 'Z') || ('2' <= c && c <= '7')
}

/// The number of characters that stand for `n` bytes: one for every five
/// bits, the last group filled up with zeros.
pub open spec fn text_len(n: nat) -> nat {
    ((8 * n + 4) / 5) as nat
}

/// The base-32 text of `bytes`.
pub open spec fn base32(bytes: Seq<u8>) -> Seq<char> {
    Seq::new(text_len(bytes.len()), |k: int| symbol(quintet(bytes, k)))
}

/// A bit is zero or one.
pub proof fn lemma_bit_range(bytes: Seq<u8>, i: int)
    ensures
        0 <= stream_bit(bytes, i) <= 1,
{
}

/// A group of five bits has a value below 32.
pub proof fn lemma_quintet_range(bytes: Seq<u8>, k: int)
    ensures
        0 <= quintet(bytes, k) < 32,
{
    lemma_bit_range(bytes, 5 * k);
    lemma_bit_range(bytes, 5 * k + 1);
    lemma_bit_range(bytes, 5 * k + 2);
    lemma_bit_range(bytes, 5 * k + 3);
    lemma_bit_range(bytes, 5 * k + 4);
}

/// Different five-bit values have different characters, all of the alphabet.
pub proof fn lemma_symbol(v: int, w: int)
    requires
        0 <= v < 32,
        0 <= w < 32,
    ensures
        is_symbol(symbol(v)),
        symbol(v) == symbol(w) ==> v == w,
{
}

/// Every character of a base-32 text is of the alphabet.
pub proof fn lemma_base32_symbols(bytes: Seq<u8>)
    ensures
        forall|k: int| 0 <= k < base32(bytes).len() ==> is_symbol(#[trigger] base32(bytes)[k]),
{
    assert forall|k: int| 0 <= k < base32(bytes).len() implies is_symbol(
        #[trigger] base32(bytes)[k],
    ) by {
        lemma_quintet_range(bytes, k);
        lemma_symbol(quintet(bytes, k), 0);
    }
}

/// Bytes with the same eight bits are equal.
proof fn lemma_byte_of_bits(x: u8, y: u8)
    requires
        forall|p: int| 0 <= p < 8 ==> byte_bit(x, p) == byte_bit(y, p),
    ensures
        x == y,
{
    lemma2_to64();
    let a = x as int;
    let b = y as int;
    assert((a / 128) % 2 == (b / 128) % 2) by {
        assert(byte_bit(x, 0) == byte_bit(y, 0));
    }
    assert((a / 64) % 2 == (b / 64) % 2) by {
        assert(byte_bit(x, 1) == byte_bit(y, 1));
    }
    assert((a / 32) % 2 == (b / 32) % 2) by {
        assert(byte_bit(x, 2) == byte_bit(y, 2));
    }
    assert((a / 16) % 2 == (b / 16) % 2) by {
        assert(byte_bit(x, 3) == byte_bit(y, 3));
    }
    assert((a / 8) % 2 == (b / 8) % 2) by {
        assert(byte_bit(x, 4) == byte_bit(y, 4));
    }
    assert((a / 4) % 2 == (b / 4) % 2) by {
        assert(byte_bit(x, 5) == byte_bit(y, 5));
    }
    assert((a / 2) % 2 == (b / 2) % 2) by {
        assert(byte_bit(x, 6) == byte_bit(y, 6));
    }
    assert(a % 2 == b % 2) by {
        assert(byte_bit(x, 7) == byte_bit(y, 7));
    }
}

/// Two byte strings of one length with the same text have the same bits.
proof fn lemma_same_bits(a: Seq<u8>, b: Seq<u8>, i: int)
    requires
        a.len() == b.len(),
        base32(a) == base32(b),
        0 <= i < 8 * a.len(),
    ensures
        stream_bit(a, i) == stream_bit(b, i),
{
    let k = i / 5;
    assert(0 <= k < text_len(a.len()));
    assert(base32(a)[k] == symbol(quintet(a, k)));
    assert(base32(b)[k] == symbol(quintet(b, k)));
    lemma_quintet_range(a, k);
    lemma_quintet_range(b, k);
    lemma_symbol(quintet(a, k), quintet(b, k));
    lemma_bit_range(a, 5 * k);
    lemma_bit_range(a, 5 * k + 1);
    lemma_bit_range(a, 5 * k + 2);
    lemma_bit_range(a, 5 * k + 3);
    lemma_bit_range(a, 5 * k + 4);
    lemma_bit_range(b, 5 * k);
    lemma_bit_range(b, 5 * k + 1);
    lemma_bit_range(b, 5 * k + 2);
    lemma_bit_range(b, 5 * k + 3);
    lemma_bit_range(b, 5 * k + 4);
    assert(i == 5 * k + i % 5);
}

/// Byte strings with the same base-32 text are equal.
pub proof fn lemma_base32_injective(a: Seq<u8>, b: Seq<u8>)
    requires
        base32(a) == base32(b),
    ensures
        a == b,
{
    assert(base32(a).len() == text_len(a.len()));
    assert(base32(b).len() == text_len(b.len()));
    assert(a.len() == b.len());
    assert forall|j: int| 0 <= j < a.len() implies a[j] == b[j] by {
        assert forall|p: int| 0 <= p < 8 implies byte_bit(a[j], p) == byte_bit(b[j], p) by {
            let i = 8 * j + p;
            lemma_same_bits(a, b, i);
            assert(i / 8 == j && i % 8 == p);
        }
        lemma_byte_of_bits(a[j], b[j]);
    }
    assert(a =~= b);
}

} // verus!
