//! JSON payloads of the scalar kinds: text and numeric peer ids.
use vstd::prelude::*;
use crate::error::DecoderError;

verus! {

#[verifier::external_type_specification]
#[verifier::external_body]
pub struct ExJsonError(serde_json::Error);

/// The JSON text of a string.
pub uninterp spec fn json_of_text(s: Seq<char>) -> Seq<u8>;

/// JSON bytes that denote a string.
pub uninterp spec fn text_json_ok(b: Seq<u8>) -> bool;

/// The string that JSON bytes denote.
pub uninterp spec fn text_of_json(b: Seq<u8>) -> Seq<char>;

/// JSON bytes that denote a number in the range of `u128`.
pub uninterp spec fn u128_json_ok(b: Seq<u8>) -> bool;

/// The number that JSON bytes denote.
pub uninterp spec fn u128_of_json(b: Seq<u8>) -> u128;

/// The decimal digits of a number in ASCII, most significant first, with no
/// sign and no leading zero.
pub open spec fn decimal_digits(n: nat) -> Seq<u8>
    decreases n,
{
    if n < 10 {
        seq![(48 + n) as u8]
    } else {
        decimal_digits(n / 10).push((48 + n % 10) as u8)
    }
}

/// Relies on `serde_json::to_vec`: the JSON bytes of a string, a function of
/// the string. It fails only when a `Serialize` impl decides to or on a map
/// with non-string keys, and a string's impl writes the escaped text into a
/// `Vec`, which cannot fail.
#[verifier::external_body]
fn text_to_json(s: &String) -> (r: Result<Vec<u8>, serde_json::Error>)
    ensures
        r is Ok,
        r->Ok_0@ == json_of_text(s@),
{
    serde_json::to_vec(s)
}

/// Relies on `serde_json::from_slice`: whether JSON bytes denote a string,
/// and which, are functions of the bytes.
#[verifier::external_body]
fn text_from_json(b: &[u8]) -> (r: Result<String, serde_json::Error>)
    ensures
        r is Ok <==> text_json_ok(b@),
        r is Ok ==> r->Ok_0@ == text_of_json(b@),
{
    serde_json::from_slice::<String>(b)
}

/// Relies on `serde_json::to_vec`: a `u128` is written by the formatter's
/// `write_u128` as its decimal digits (itoa) into a `Vec`, which cannot fail.
#[verifier::external_body]
fn u128_to_json(n: &u128) -> (r: Result<Vec<u8>, serde_json::Error>)
    ensures
        r is Ok,
        r->Ok_0@ == decimal_digits(*n as nat),
{
    serde_json::to_vec(n)
}

/// Relies on `serde_json::from_slice`: whether JSON bytes denote a `u128`,
/// and which, are functions of the bytes.
#[verifier::external_body]
fn u128_from_json(b: &[u8]) -> (r: Result<u128, serde_json::Error>)
    ensures
        r is Ok <==> u128_json_ok(b@),
        r is Ok ==> r->Ok_0 == u128_of_json(b@),
{
    serde_json::from_slice::<u128>(b)
}

/// A value that travels as a message payload.
pub trait Encodable {
    /// The value can be serialised.
    spec fn encodable(&self) -> bool;

    /// The payload bytes of the value.
    spec fn payload(&self) -> Seq<u8>;

    /// Serialises the value; fails with `InvalidData` exactly when it cannot be.
    fn encode(&self) -> (r: Result<Vec<u8>, DecoderError>)
        ensures
            r is Ok <==> self.encodable(),
            r is Ok ==> r->Ok_0@ == self.payload(),
            r is Err ==> r->Err_0 == DecoderError::InvalidData,
    ;
}

/// A value that can be read back from a message payload.
pub trait Decodable: Sized {
    /// The payload bytes denote a value of this type.
    spec fn decodable(bytes: Seq<u8>) -> bool;

    /// The value is the one that the payload bytes denote.
    spec fn denoted_by(&self, bytes: Seq<u8>) -> bool;

    /// Deserialises a value; fails with `InvalidData` exactly on bytes that
    /// denote none.
    fn decode(bytes: &Vec<u8>) -> (r: Result<Self, DecoderError>)
        ensures
            r is Ok <==> Self::decodable(bytes@),
            r is Ok ==> r->Ok_0.denoted_by(bytes@),
            r is Err ==> r->Err_0 == DecoderError::InvalidData,
    ;
}

impl Encodable for String {
    open spec fn encodable(&self) -> bool {
        true
    }

    open spec fn payload(&self) -> Seq<u8> {
        json_of_text(self@)
    }

    fn encode(&self) -> (r: Result<Vec<u8>, DecoderError>) {
        match text_to_json(self) {
            Ok(b) => Ok(b),
            Err(_) => Err(DecoderError::InvalidData),
        }
    }
}

impl Decodable for String {
    open spec fn decodable(bytes: Seq<u8>) -> bool {
        text_json_ok(bytes)
    }

    open spec fn denoted_by(&self, bytes: Seq<u8>) -> bool {
        self@ == text_of_json(bytes)
    }

    fn decode(bytes: &Vec<u8>) -> (r: Result<String, DecoderError>) {
        match text_from_json(bytes.as_slice()) {
            Ok(s) => Ok(s),
            Err(_) => Err(DecoderError::InvalidData),
        }
    }
}

impl Encodable for u128 {
    open spec fn encodable(&self) -> bool {
        true
    }

    open spec fn payload(&self) -> Seq<u8> {
        decimal_digits(*self as nat)
    }

    fn encode(&self) -> (r: Result<Vec<u8>, DecoderError>) {
        match u128_to_json(self) {
            Ok(b) => Ok(b),
            Err(_) => Err(DecoderError::InvalidData),
        }
    }
}

impl Decodable for u128 {
    open spec fn decodable(bytes: Seq<u8>) -> bool {
        u128_json_ok(bytes)
    }

    open spec fn denoted_by(&self, bytes: Seq<u8>) -> bool {
        *self == u128_of_json(bytes)
    }

    fn decode(bytes: &Vec<u8>) -> (r: Result<u128, DecoderError>) {
        match u128_from_json(bytes.as_slice()) {
            Ok(n) => Ok(n),
            Err(_) => Err(DecoderError::InvalidData),
        }
    }
}

} // verus!
