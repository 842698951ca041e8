//! Mining: searching for a nonce whose block hash meets the difficulty.
use vstd::prelude::*;
use crate::block::{Block, BlockData};
use crate::difficulty::{hash_matches_difficulty, meets_difficulty};
use crate::hasher::{block_hash, calculate_hash};
use crate::hexstr::lemma_hex_round_trip;
use crate::timestamp::Timestamp;

verus! {

/// The nonce gives a block hash that meets the difficulty.
pub open spec fn nonce_works(
    index: u32,
    previous_hash: Seq<char>,
    timestamp: Timestamp,
    data: Seq<char>,
    difficulty: u32,
    nonce: u128,
) -> bool {
    meets_difficulty(
        block_hash(index, previous_hash, timestamp.micros(), data, difficulty, nonce),
        difficulty,
    )
}

/// Tries nonces from 0 upward and returns the block made with the first one
/// whose hash meets the difficulty; `None` when no nonce does.
pub fn find_block(
    index: u32,
    previous_hash: String,
    timestamp: Timestamp,
    data: BlockData,
    difficulty: u32,
) -> (r: Option<Block>)
    ensures
        r is Some ==> {
            let b = r->Some_0;
            &&& b.index == index
            &&& b.previous_hash@ == previous_hash@
            &&& b.timestamp == timestamp
            &&& b.data@ == data@
            &&& b.difficulty == difficulty
            &&& b.hash_is_consistent()
            &&& nonce_works(index, previous_hash@, timestamp, data@, difficulty, b.nonce)
            &&& forall|n: u128|
                n < b.nonce ==> !nonce_works(index, previous_hash@, timestamp, data@, difficulty, n)
        },
        r is None ==> forall|n: u128|
            !nonce_works(index, previous_hash@, timestamp, data@, difficulty, n),
{
    let mut nonce: u128 = 0;
    loop
        invariant
            forall|n: u128|
                n < nonce ==> !nonce_works(index, previous_hash@, timestamp, data@, difficulty, n),
        decreases u128::MAX - nonce,
    {
        let hash = calculate_hash(
            index,
            previous_hash.as_str(),
            &timestamp,
            data.as_str(),
            difficulty,
            nonce,
        );
        proof {
            lemma_hex_round_trip(
                crate::hasher::sha256_of(
                    crate::hasher::hash_preimage(
                        index,
                        previous_hash@,
                        timestamp.micros(),
                        data@,
                        difficulty,
                        nonce,
                    ),
                ),
            );
        }
        if let Ok(true) = hash_matches_difficulty(&hash, &difficulty) {
            return Some(Block { index, timestamp, data, hash, previous_hash, difficulty, nonce });
        }
        if nonce == u128::MAX {
            return None;
        }
        nonce = nonce + 1;
    }
}

} // verus!
