//! Blocks of the chain.
use vstd::prelude::*;
use crate::hasher::{block_hash, calculate_hash};
use crate::timestamp::Timestamp;

verus! {

/// The data that a block carries.
pub type BlockData = String;

/// One block: its height, when it was made, what it carries, its own hash,
/// its predecessor's hash, and the proof of work that made it.
#[derive(Debug)]
pub struct Block {
    pub index: u32,
    pub timestamp: Timestamp,
    pub data: BlockData,
    pub hash: String,
    pub previous_hash: String,
    pub difficulty: u32,
    pub nonce: u128,
}

impl Block {
    /// The hash that a block's fields give.
    pub open spec fn content_hash(&self) -> Seq<char> {
        block_hash(
            self.index,
            self.previous_hash@,
            self.timestamp.micros(),
            self.data@,
            self.difficulty,
            self.nonce,
        )
    }

    /// The block's stored hash is the hash of its fields.
    pub open spec fn hash_is_consistent(&self) -> bool {
        self.hash@ == self.content_hash()
    }

    pub fn new(
        index: u32,
        timestamp: Timestamp,
        data: BlockData,
        hash: String,
        previous_hash: String,
        difficulty: u32,
        nonce: u128,
    ) -> (r: Block)
        ensures
            r.index == index,
            r.timestamp == timestamp,
            r.data == data,
            r.hash == hash,
            r.previous_hash == previous_hash,
            r.difficulty == difficulty,
            r.nonce == nonce,
    {
        Block { index, timestamp, data, hash, previous_hash, difficulty, nonce }
    }

    /// The first block of every chain: index 0, the epoch as timestamp, no
    /// data, no predecessor, difficulty 0 and nonce 0, with its hash.
    pub fn genesis_block() -> (r: Block)
        ensures
            r.index == 0,
            r.timestamp.secs == 0,
            r.timestamp.nanos == 0,
            r.data@ == Seq::<char>::empty(),
            r.previous_hash@ == Seq::<char>::empty(),
            r.difficulty == 0,
            r.nonce == 0,
            r.hash_is_consistent(),
    {
        let timestamp = Timestamp::zero();
        let data = String::new();
        let previous_hash = String::new();
        let hash = calculate_hash(0, previous_hash.as_str(), &timestamp, data.as_str(), 0, 0);
        Block::new(0, timestamp, data, hash, previous_hash, 0, 0)
    }

    /// Recomputes a block's hash from its fields.
    pub fn calculate_hash_for_block(block: &Block) -> (r: String)
        ensures
            r@ == block.content_hash(),
    {
        calculate_hash(
            block.index,
            block.previous_hash.as_str(),
            &block.timestamp,
            block.data.as_str(),
            block.difficulty,
            block.nonce,
        )
    }
}

impl Clone for Block {
    fn clone(&self) -> (r: Block)
        ensures
            r == *self,
    {
        Block {
            index: self.index,
            timestamp: self.timestamp,
            data: self.data.clone(),
            hash: self.hash.clone(),
            previous_hash: self.previous_hash.clone(),
            difficulty: self.difficulty,
            nonce: self.nonce,
        }
    }
}

impl PartialEq for Block {
    /// Blocks are equal when their index, timestamp, data and both hashes are.
    fn eq(&self, other: &Block) -> (r: bool)
        ensures
            r == (self.index == other.index && self.timestamp == other.timestamp && self.data@
                == other.data@ && self.hash@ == other.hash@ && self.previous_hash@
                == other.previous_hash@),
    {
        self.index == other.index && self.timestamp == other.timestamp && self.data == other.data
            && self.hash == other.hash && self.previous_hash == other.previous_hash
    }
}

impl vstd::std_specs::cmp::PartialEqSpecImpl for Block {
    open spec fn obeys_eq_spec() -> bool {
        true
    }

    open spec fn eq_spec(&self, other: &Block) -> bool {
        self.index == other.index && self.timestamp == other.timestamp && self.data@
            == other.data@ && self.hash@ == other.hash@ && self.previous_hash@
            == other.previous_hash@
    }
}

} // verus!
