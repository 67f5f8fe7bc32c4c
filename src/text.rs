//! Text projection of byte fields: lowercase hexadecimal for keys,
//! signatures and ids, base58 for addresses.
use base58::{FromBase58, ToBase58};
use vstd::prelude::*;

verus! {

pub open spec fn hex_digit(n: u8) -> char {
    seq!['0', '1', '2', '3', '4', '5', '6', '7', '8', '9', 'a', 'b', 'c', 'd', 'e', 'f'][n as int]
}

/// The value of one hexadecimal digit, of either case.
pub open spec fn hex_val(c: char) -> Option<u8> {
    if '0' <= c && c <= '9' {
        Some((c as u32 - '0' as u32) as u8)
    } else if 'a' <= c && c <= 'f' {
        Some((c as u32 - 'a' as u32 + 10) as u8)
    } else if 'A' <= c && c <= 'F' {
        Some((c as u32 - 'A' as u32 + 10) as u8)
    } else {
        None
    }
}

/// Two lowercase digits per byte, high nibble first.
pub open spec fn hex_text(b: Seq<u8>) -> Seq<char>
    decreases b.len(),
{
    if b.len() == 0 {
        Seq::empty()
    } else {
        seq![hex_digit(b[0] / 16), hex_digit(b[0] % 16)] + hex_text(b.skip(1))
    }
}

/// The bytes that a hexadecimal text stands for, or `None` where it has an
/// odd number of characters or a character that is no digit.
pub open spec fn hex_bytes(s: Seq<char>) -> Option<Seq<u8>>
    decreases s.len(),
{
    if s.len() == 0 {
        Some(Seq::empty())
    } else if s.len() < 2 {
        None
    } else {
        match (hex_val(s[0]), hex_val(s[1]), hex_bytes(s.skip(2))) {
            (Some(h), Some(l), Some(rest)) => Some(seq![(h * 16 + l) as u8] + rest),
            _ => None,
        }
    }
}

proof fn lemma_hex_digit_val(n: u8)
    requires
        n < 16,
    ensures
        hex_val(hex_digit(n)) == Some(n),
{
}

/// Decoding the hexadecimal text of a byte sequence gives that sequence back.
pub proof fn lemma_hex_round_trip(b: Seq<u8>)
    ensures
        hex_bytes(hex_text(b)) == Some(b),
    decreases b.len(),
{
    if b.len() > 0 {
        let t = hex_text(b);
        let x = b[0];
        lemma_hex_digit_val(x / 16);
        lemma_hex_digit_val(x % 16);
        assert(t.skip(2) =~= hex_text(b.skip(1)));
        lemma_hex_round_trip(b.skip(1));
        assert(((x / 16) * 16 + x % 16) as u8 == x);
        assert(seq![x] + b.skip(1) =~= b);
    }
}

/// Relies on hex::encode: two lowercase digits for each byte, high nibble first.
#[verifier::external_body]
pub(crate) fn to_hex(b: &[u8]) -> (r: String)
    ensures
        r@ == hex_text(b@),
{
    hex::encode(b)
}

/// Relies on hex::decode: it accepts an even number of digits of either case
/// and gives one byte for each pair.
#[verifier::external_body]
pub(crate) fn from_hex(s: &str) -> (r: Option<Vec<u8>>)
    ensures
        match r {
            Some(v) => hex_bytes(s@) == Some(v@),
            None => hex_bytes(s@) is None,
        },
{
    hex::decode(s).ok()
}

/// What base58's `to_base58` gives for a byte sequence.
pub uninterp spec fn base58_of(b: Seq<u8>) -> Seq<char>;

/// What base58's `from_base58` gives for a text: the bytes, or `None` on error.
pub uninterp spec fn base58_bytes(s: Seq<char>) -> Option<Seq<u8>>;

/// The longest byte sequence whose base58 text `from_base58` is sure to take.
pub const BASE58_MAX_BYTES: usize = 96;

/// The longest base58 text that `from_base58` decodes without overrunning
/// its 132-byte buffer.
pub const BASE58_MAX_CHARS: usize = 132;

/// Relies on base58::ToBase58::to_base58 on a byte slice: one '1' for each
/// leading zero byte, then the digits of the rest without leading zeros. For
/// up to 96 bytes that is at most 132 characters (58^132 > 256^96), which
/// FromBase58::from_base58 decodes back to the same bytes.
#[verifier::external_body]
pub(crate) fn to_base58(b: &[u8]) -> (r: String)
    ensures
        r@ == base58_of(b@),
        b@.len() <= BASE58_MAX_BYTES ==> r@.len() <= BASE58_MAX_CHARS && base58_bytes(r@) == Some(
            b@,
        ),
{
    b.to_base58()
}

/// Relies on base58::FromBase58::from_base58 on a str; its error becomes
/// `None`. It decodes into a 132-byte buffer and panics where the text has
/// more leading '1's than that buffer has leading zero bytes, which a text
/// of at most 132 characters cannot have.
#[verifier::external_body]
pub(crate) fn from_base58(s: &str) -> (r: Option<Vec<u8>>)
    requires
        s@.len() <= BASE58_MAX_CHARS,
    ensures
        match r {
            Some(v) => base58_bytes(s@) == Some(v@),
            None => base58_bytes(s@) is None,
        },
{
    s.from_base58().ok()
}

} // verus!
