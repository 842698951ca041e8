//! Hexadecimal text for hashes, through the `hex` crate.
use vstd::prelude::*;

verus! {

/// The lower-case hexadecimal digit for a value below 16.
pub open spec fn hex_digit(n: u8) -> char {
    if n < 10 {
        ((n + 48) as u8) as char
    } else {
        ((n + 87) as u8) as char
    }
}

/// Each byte as two lower-case hexadecimal digits, high nibble first.
pub open spec fn hex_of(b: Seq<u8>) -> Seq<char> {
    Seq::new(
        2 * b.len(),
        |i: int|
            if i % 2 == 0 {
                hex_digit(b[i / 2] / 16)
            } else {
                hex_digit(b[i / 2] % 16)
            },
    )
}

/// A hexadecimal digit of either case.
pub open spec fn is_hex_char(c: char) -> bool {
    (48 <= c as u32 <= 57) || (97 <= c as u32 <= 102) || (65 <= c as u32 <= 70)
}

/// The value of a hexadecimal digit of either case.
pub open spec fn hex_char_value(c: char) -> nat {
    if 48 <= c as u32 <= 57 {
        (c as u32 - 48) as nat
    } else if 97 <= c as u32 <= 102 {
        (c as u32 - 87) as nat
    } else {
        (c as u32 - 55) as nat
    }
}

/// Text that decodes as hexadecimal: an even number of hexadecimal digits.
pub open spec fn is_hex_text(s: Seq<char>) -> bool {
    &&& s.len() % 2 == 0
    &&& forall|i: int| 0 <= i < s.len() ==> is_hex_char(#[trigger] s[i])
}

/// The bytes that hexadecimal text denotes, two digits per byte.
pub open spec fn hex_decoded(s: Seq<char>) -> Seq<u8> {
    Seq::new(
        s.len() / 2,
        |i: int| (16 * hex_char_value(s[2 * i]) + hex_char_value(s[2 * i + 1])) as u8,
    )
}

pub proof fn lemma_hex_digit(n: u8)
    requires
        n < 16,
    ensures
        is_hex_char(hex_digit(n)),
        hex_char_value(hex_digit(n)) == n,
{
}

/// Decoding the hexadecimal text of some bytes gives the bytes back.
pub proof fn lemma_hex_round_trip(b: Seq<u8>)
    ensures
        is_hex_text(hex_of(b)),
        hex_decoded(hex_of(b)) == b,
{
    let h = hex_of(b);
    assert forall|i: int| 0 <= i < h.len() implies is_hex_char(#[trigger] h[i]) by {
        lemma_hex_digit(b[i / 2] / 16);
        lemma_hex_digit(b[i / 2] % 16);
    }
    assert forall|i: int| 0 <= i < b.len() implies #[trigger] hex_decoded(h)[i] == b[i] by {
        lemma_hex_digit(b[i] / 16);
        lemma_hex_digit(b[i] % 16);
        assert((2 * i) / 2 == i);
        assert((2 * i + 1) / 2 == i);
        assert(16 * (b[i] / 16) + b[i] % 16 == b[i]);
    }
    assert(hex_decoded(h) =~= b);
}

/// Relies on `hex::encode`: two lower-case digits for each byte, in order.
#[verifier::external_body]
pub(crate) fn to_hex(b: &[u8]) -> (r: String)
    ensures
        r@ == hex_of(b@),
{
    hex::encode(b)
}

#[verifier::external_type_specification]
#[verifier::external_body]
pub struct ExFromHexError(hex::FromHexError);

/// Relies on `hex::decode`: fails on an odd length or on a byte that is no
/// hexadecimal digit of either case, else gives one byte per pair of digits.
#[verifier::external_body]
pub(crate) fn from_hex(s: &str) -> (r: Result<Vec<u8>, hex::FromHexError>)
    ensures
        r is Ok <==> is_hex_text(s@),
        r is Ok ==> r->Ok_0@ == hex_decoded(s@),
{
    hex::decode(s)
}

} // verus!
