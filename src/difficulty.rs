//! Proof of work: how many leading zero bits a hash has, and whether that meets a difficulty.
use vstd::prelude::*;
use crate::error::ChainError;
use crate::block::Block;
use crate::blockchain::Blockchain;
use crate::hexstr::{from_hex, hex_decoded, is_hex_text};

verus! {

/// Leading zero bits of `b` from byte `i` on: eight for each zero byte, then
/// those of the first byte that is not zero.
pub open spec fn zero_bits_from(b: Seq<u8>, i: int) -> nat
    decreases b.len() - i,
{
    if i < 0 || i >= b.len() {
        0
    } else if b[i] == 0 {
        8 + zero_bits_from(b, i + 1)
    } else {
        b[i].leading_zeros() as nat
    }
}

/// Leading zero bits of a byte sequence, read most significant bit first.
pub open spec fn leading_zero_bits(b: Seq<u8>) -> nat {
    zero_bits_from(b, 0)
}

/// A hash meets a difficulty when it is hexadecimal text whose bytes begin
/// with at least `difficulty` zero bits.
pub open spec fn meets_difficulty(hash: Seq<char>, difficulty: u32) -> bool {
    is_hex_text(hash) && leading_zero_bits(hex_decoded(hash)) >= difficulty
}

/// Whether a hexadecimal hash begins with at least `difficulty` zero bits;
/// fails with `InvalidHash` when the hash is not hexadecimal text.
pub fn hash_matches_difficulty(hash: &String, difficulty: &u32) -> (r: Result<bool, ChainError>)
    ensures
        r is Err <==> !is_hex_text(hash@),
        r is Err ==> r->Err_0 == ChainError::InvalidHash,
        r is Ok ==> r->Ok_0 == meets_difficulty(hash@, *difficulty),
{
    let decoded = match from_hex(hash.as_str()) {
        Ok(d) => d,
        Err(_) => {
            return Err(ChainError::InvalidHash);
        },
    };
    let target = *difficulty as u64;
    let mut count: u64 = 0;
    let mut i: usize = 0;
    while i < decoded.len()
        invariant
            0 <= i <= decoded@.len(),
            is_hex_text(hash@),
            decoded@ == hex_decoded(hash@),
            target == *difficulty as u64,
            count == 8 * i,
            count < target + 8,
            leading_zero_bits(decoded@) == count + zero_bits_from(decoded@, i as int),
        decreases decoded@.len() - i,
    {
        if count >= target {
            return Ok(true);
        }
        let byte = decoded[i];
        if byte != 0 {
            proof {
                vstd::std_specs::bits::axiom_u8_leading_zeros(byte);
            }
            count = count + byte.leading_zeros() as u64;
            return Ok(count >= target);
        }
        count = count + 8;
        i = i + 1;
    }
    Ok(count >= target)
}

/// A hash that meets a difficulty meets every lower one.
pub proof fn lemma_difficulty_monotonic(hash: Seq<char>, high: u32, low: u32)
    requires
        meets_difficulty(hash, high),
        low <= high,
    ensures
        meets_difficulty(hash, low),
{
}

} // verus!

verus! {

/// Nanoseconds between blocks that the network aims for: ten seconds.
pub const BLOCK_GENERATION_INTERVAL_NANOS: u128 = 10_000_000_000;

/// Blocks between difficulty adjustments.
pub const DIFFICULTY_ADJUSTMENT_INTERVAL: u32 = 10;

/// Nanoseconds that an adjustment interval is expected to take: one
/// generation interval for each block of it.
pub const EXPECTED_INTERVAL_NANOS: u128 = BLOCK_GENERATION_INTERVAL_NANOS * 10;

/// The difficulty after an adjustment, from the block at the end of the
/// interval and the one at its start: one higher when the interval took
/// under half the expected time, one lower (not below 0) when it took over
/// twice of it, else unchanged.
pub open spec fn adjusted_difficulty(latest: Block, start: Block) -> u32 {
    let taken = latest.timestamp.total_nanos() - start.timestamp.total_nanos();
    if taken < EXPECTED_INTERVAL_NANOS / 2 {
        if start.difficulty == u32::MAX {
            u32::MAX
        } else {
            (start.difficulty + 1) as u32
        }
    } else if taken > EXPECTED_INTERVAL_NANOS * 2 {
        if start.difficulty == 0 {
            0
        } else {
            (start.difficulty - 1) as u32
        }
    } else {
        start.difficulty
    }
}

/// The difficulty for the block after the tail: adjusted at every
/// `DIFFICULTY_ADJUSTMENT_INTERVAL`-th index (not at genesis) when the chain
/// holds a whole interval, else the tail's own.
pub open spec fn next_difficulty(chain: Seq<Block>) -> u32 {
    let latest = chain.last();
    if latest.index % DIFFICULTY_ADJUSTMENT_INTERVAL == 0 && latest.index != 0 && chain.len()
        >= DIFFICULTY_ADJUSTMENT_INTERVAL {
        adjusted_difficulty(latest, chain[chain.len() - DIFFICULTY_ADJUSTMENT_INTERVAL])
    } else {
        latest.difficulty
    }
}

/// The difficulty for the block after the tail.
pub fn get_difficulty(blockchain: &Blockchain) -> (r: u32)
    requires
        blockchain.wf(),
    ensures
        r == next_difficulty(blockchain@),
{
    let latest_block = match blockchain.get_latest_block() {
        Ok(b) => b,
        Err(_) => {
            return 0;
        },
    };
    if latest_block.index % DIFFICULTY_ADJUSTMENT_INTERVAL == 0 && latest_block.index != 0
        && blockchain.len() >= DIFFICULTY_ADJUSTMENT_INTERVAL as usize {
        get_adjusted_difficulty(latest_block, blockchain)
    } else {
        latest_block.difficulty
    }
}

/// The adjusted difficulty, measured from the block `DIFFICULTY_ADJUSTMENT_INTERVAL`
/// places before the end of the chain.
pub fn get_adjusted_difficulty(latest_block: &Block, chain: &Blockchain) -> (r: u32)
    requires
        chain@.len() >= DIFFICULTY_ADJUSTMENT_INTERVAL,
    ensures
        r == adjusted_difficulty(
            *latest_block,
            chain@[chain@.len() - DIFFICULTY_ADJUSTMENT_INTERVAL],
        ),
{
    let start = match chain.get_block_at_index(chain.len() - DIFFICULTY_ADJUSTMENT_INTERVAL as usize) {
        Some(b) => b,
        None => {
            return 0;
        },
    };
    let latest_ns = latest_block.timestamp.as_nanos();
    let start_ns = start.timestamp.as_nanos();
    assert(latest_ns < u128::MAX / 4 && start_ns < u128::MAX / 4) by (nonlinear_arith)
        requires
            latest_ns == latest_block.timestamp.total_nanos(),
            start_ns == start.timestamp.total_nanos(),
    ;
    if latest_ns < start_ns + EXPECTED_INTERVAL_NANOS / 2 {
        if start.difficulty == u32::MAX {
            u32::MAX
        } else {
            start.difficulty + 1
        }
    } else if latest_ns > start_ns + EXPECTED_INTERVAL_NANOS * 2 {
        if start.difficulty == 0 {
            0
        } else {
            start.difficulty - 1
        }
    } else {
        start.difficulty
    }
}

} // verus!
