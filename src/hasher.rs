//! The content hash of a block.
use vstd::prelude::*;
use vstd::utf8::encode_utf8;
use vstd::string::StrSliceExecFns;
use crate::bytes::{be_bytes, be_bytes_of, le_bytes, le_bytes_of};
use crate::hexstr::{hex_of, to_hex};
use crate::timestamp::Timestamp;

verus! {

/// The SHA-256 digest of a byte sequence.
pub uninterp spec fn sha256_of(data: Seq<u8>) -> Seq<u8>;

/// Relies on `openssl::sha::sha256`: the 32-byte SHA-256 digest of `data`.
#[verifier::external_body]
fn sha256(data: &[u8]) -> (r: Vec<u8>)
    ensures
        r@ == sha256_of(data@),
        r@.len() == 32,
{
    openssl::sha::sha256(data).to_vec()
}

/// The bytes that are hashed for a block: the index big-endian, the previous
/// hash as UTF-8, the timestamp in microseconds little-endian, the data as
/// UTF-8, the difficulty and the nonce big-endian.
pub open spec fn hash_preimage(
    index: u32,
    previous_hash: Seq<char>,
    micros: nat,
    data: Seq<char>,
    difficulty: u32,
    nonce: u128,
) -> Seq<u8> {
    be_bytes(index as nat, 4) + encode_utf8(previous_hash) + le_bytes(micros, 16) + encode_utf8(
        data,
    ) + be_bytes(difficulty as nat, 4) + be_bytes(nonce as nat, 16)
}

/// The hexadecimal SHA-256 digest of a block's fields.
pub open spec fn block_hash(
    index: u32,
    previous_hash: Seq<char>,
    micros: nat,
    data: Seq<char>,
    difficulty: u32,
    nonce: u128,
) -> Seq<char> {
    hex_of(sha256_of(hash_preimage(index, previous_hash, micros, data, difficulty, nonce)))
}

/// Hashes a block's fields.
pub fn calculate_hash(
    index: u32,
    previous_hash: &str,
    timestamp: &Timestamp,
    data: &str,
    difficulty: u32,
    nonce: u128,
) -> (r: String)
    ensures
        r@ == block_hash(index, previous_hash@, timestamp.micros(), data@, difficulty, nonce),
        r@.len() == 64,
{
    let mut buf = be_bytes_of(index as u128, 4);
    let mut part = previous_hash.as_bytes_vec();
    buf.append(&mut part);
    let mut part = le_bytes_of(timestamp.as_micros(), 16);
    buf.append(&mut part);
    let mut part = data.as_bytes_vec();
    buf.append(&mut part);
    let mut part = be_bytes_of(difficulty as u128, 4);
    buf.append(&mut part);
    let mut part = be_bytes_of(nonce, 16);
    buf.append(&mut part);
    assert(buf@ =~= hash_preimage(
        index,
        previous_hash@,
        timestamp.micros(),
        data@,
        difficulty,
        nonce,
    ));
    let digest = sha256(buf.as_slice());
    to_hex(digest.as_slice())
}

} // verus!
