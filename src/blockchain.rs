//! The chain: an ordered, hash-linked sequence of blocks that starts at genesis.
use vstd::prelude::*;
use crate::block::Block;
use crate::difficulty::{get_difficulty, next_difficulty};
use crate::error::ChainError;
use crate::findblock::{find_block, nonce_works};
use crate::timestamp::{get_current_timestamp, Timestamp};

verus! {

/// `b` is the genesis block: index 0 at the epoch, with no data, no
/// predecessor, difficulty 0, nonce 0 and its own hash.
pub open spec fn is_genesis(b: Block) -> bool {
    &&& b.index == 0
    &&& b.timestamp.secs == 0
    &&& b.timestamp.nanos == 0
    &&& b.data@ == Seq::<char>::empty()
    &&& b.previous_hash@ == Seq::<char>::empty()
    &&& b.difficulty == 0
    &&& b.nonce == 0
    &&& b.hash_is_consistent()
}

/// `next` may follow `prev`: its index is one higher, it names `prev`'s hash
/// as its predecessor, and its own hash is the hash of its fields.
pub open spec fn valid_successor(next: Block, prev: Block) -> bool {
    &&& next.index == prev.index + 1
    &&& next.previous_hash@ == prev.hash@
    &&& next.hash_is_consistent()
}

/// Each block names its predecessor's hash (the shallow check of a received chain).
pub open spec fn linked(chain: Seq<Block>) -> bool {
    forall|i: int| 1 <= i < chain.len() ==> #[trigger] chain[i].previous_hash@ == chain[i - 1].hash@
}

/// Each block after the first is a valid successor of the one before it.
pub open spec fn fully_valid(chain: Seq<Block>) -> bool {
    forall|i: int| 1 <= i < chain.len() ==> valid_successor(#[trigger] chain[i], chain[i - 1])
}

/// A block that `add_block` would take: the chain has a tail, and the block
/// is a valid successor of it.
pub open spec fn accepts(chain: Seq<Block>, block: Block) -> bool {
    chain.len() > 0 && valid_successor(block, chain.last())
}

/// The chain that the longest-chain rule keeps: the first when its tail's
/// index is strictly greater, else the second.
pub open spec fn longer_chain(first: Seq<Block>, second: Seq<Block>) -> bool {
    first.last().index > second.last().index
}

/// A block accepted onto a chain whose blocks all follow their predecessors
/// keeps it so: every block after the first carries the hash of its own
/// fields and names its predecessor's hash.
pub proof fn lemma_accepted_blocks_valid(chain: Seq<Block>, block: Block)
    requires
        fully_valid(chain),
        accepts(chain, block),
    ensures
        fully_valid(chain.push(block)),
        forall|i: int|
            1 <= i < chain.len() + 1 ==> {
                &&& (#[trigger] chain.push(block)[i]).hash_is_consistent()
                &&& chain.push(block)[i].previous_hash@ == chain.push(block)[i - 1].hash@
            },
{
    let c = chain.push(block);
    assert forall|i: int| 1 <= i < c.len() implies valid_successor(#[trigger] c[i], c[i - 1]) by {
        if i < chain.len() {
            assert(c[i] == chain[i] && c[i - 1] == chain[i - 1]);
        }
    }
}

/// Each of the three checks of a new block is needed: breaking any one alone
/// makes the block invalid.
pub proof fn lemma_each_check_needed(next: Block, prev: Block)
    ensures
        next.index != prev.index + 1 ==> !valid_successor(next, prev),
        next.previous_hash@ != prev.hash@ ==> !valid_successor(next, prev),
        !next.hash_is_consistent() ==> !valid_successor(next, prev),
        next.index == prev.index + 1 && next.previous_hash@ == prev.hash@
            && next.hash_is_consistent() ==> valid_successor(next, prev),
{
}

/// An ordered sequence of blocks; the first is the genesis block.
#[derive(Debug)]
pub struct Blockchain {
    blocks: Vec<Block>,
}

impl View for Blockchain {
    type V = Seq<Block>;

    closed spec fn view(&self) -> Seq<Block> {
        self.blocks@
    }
}

impl Clone for Blockchain {
    fn clone(&self) -> (r: Blockchain)
        ensures
            r@ == self@,
    {
        let mut blocks: Vec<Block> = Vec::new();
        let mut i: usize = 0;
        while i < self.blocks.len()
            invariant
                0 <= i <= self.blocks@.len(),
                blocks@ == self.blocks@.subrange(0, i as int),
            decreases self.blocks@.len() - i,
        {
            blocks.push(self.blocks[i].clone());
            proof {
                assert(self.blocks@.subrange(0, i + 1) =~= self.blocks@.subrange(0, i as int).push(
                    self.blocks@[i as int],
                ));
            }
            i = i + 1;
        }
        proof {
            assert(self.blocks@.subrange(0, i as int) =~= self.blocks@);
        }
        Blockchain { blocks }
    }
}

impl Blockchain {
    /// A chain has at least its genesis block.
    pub open spec fn wf(&self) -> bool {
        self@.len() > 0
    }

    /// A chain of the genesis block alone.
    pub fn new() -> (r: Blockchain)
        ensures
            r@.len() == 1,
            is_genesis(r@[0]),
            r.wf(),
            fully_valid(r@),
    {
        let mut blocks: Vec<Block> = Vec::new();
        blocks.push(Block::genesis_block());
        Blockchain { blocks }
    }

    /// A chain of the given blocks; `None` when there is none.
    pub fn from_blocks(blocks: Vec<Block>) -> (r: Option<Blockchain>)
        ensures
            r is Some <==> blocks@.len() > 0,
            r is Some ==> r->Some_0@ == blocks@,
    {
        if blocks.len() == 0 {
            None
        } else {
            Some(Blockchain { blocks })
        }
    }

    /// The blocks, genesis first.
    pub fn blocks(&self) -> (r: &Vec<Block>)
        ensures
            r@ == self@,
    {
        &self.blocks
    }

    /// The number of blocks.
    pub fn len(&self) -> (r: usize)
        ensures
            r == self@.len(),
    {
        self.blocks.len()
    }

    /// The block at a position, genesis at 0.
    pub fn get_block_at_index(&self, i: usize) -> (r: Option<&Block>)
        ensures
            r is Some <==> i < self@.len(),
            r is Some ==> *r->Some_0 == self@[i as int],
    {
        if i < self.blocks.len() {
            Some(&self.blocks[i])
        } else {
            None
        }
    }

    /// The first block of the chain, if any.
    pub fn genesis_block(&self) -> (r: Option<&Block>)
        ensures
            r is Some <==> self@.len() > 0,
            r is Some ==> *r->Some_0 == self@[0],
    {
        if self.blocks.len() == 0 {
            None
        } else {
            Some(&self.blocks[0])
        }
    }

    /// The tail of the chain; `NoTailBlock` when the chain is empty.
    pub fn get_latest_block(&self) -> (r: Result<&Block, ChainError>)
        ensures
            r is Ok <==> self@.len() > 0,
            r is Ok ==> *r->Ok_0 == self@.last(),
            r is Err ==> r->Err_0 == ChainError::NoTailBlock,
    {
        if self.blocks.len() == 0 {
            Err(ChainError::NoTailBlock)
        } else {
            Ok(&self.blocks[self.blocks.len() - 1])
        }
    }

    /// Whether `new_block` may follow `previous_block`.
    pub fn is_valid_new_block(new_block: &Block, previous_block: &Block) -> (r: bool)
        ensures
            r == valid_successor(*new_block, *previous_block),
    {
        if previous_block.index as u64 + 1 != new_block.index as u64 {
            false
        } else if previous_block.hash != new_block.previous_hash {
            false
        } else {
            let recomputed = Block::calculate_hash_for_block(new_block);
            recomputed == new_block.hash
        }
    }

    /// Appends a block that validly extends the tail. Refuses with
    /// `NoTailBlock` an empty chain and with `InvalidBlock` any other block,
    /// leaving the chain as it was.
    pub fn add_block(&mut self, block: Block) -> (r: Result<(), ChainError>)
        ensures
            r is Ok <==> accepts(old(self)@, block),
            r is Ok ==> final(self)@ == old(self)@.push(block),
            r is Ok && fully_valid(old(self)@) ==> fully_valid(final(self)@),
            r is Err ==> final(self)@ == old(self)@,
            r is Err ==> r->Err_0 == (if old(self)@.len() == 0 {
                ChainError::NoTailBlock
            } else {
                ChainError::InvalidBlock
            }),
    {
        if self.blocks.len() == 0 {
            return Err(ChainError::NoTailBlock);
        }
        let n = self.blocks.len();
        if Blockchain::is_valid_new_block(&block, &self.blocks[n - 1]) {
            proof {
                if fully_valid(self@) {
                    lemma_accepted_blocks_valid(self@, block);
                }
            }
            self.blocks.push(block);
            Ok(())
        } else {
            Err(ChainError::InvalidBlock)
        }
    }

    /// Mines the block that would follow the tail, made now with `block_data`,
    /// at the difficulty that the chain asks for; it is not appended. Refuses
    /// with `NoTailBlock` an empty chain and with `InvalidBlock` a tail whose
    /// index is the largest there is; then fails with `ClockUnavailable` when
    /// the clock stands before the epoch, or with `NonceExhausted` when no
    /// nonce works at the time read.
    pub fn generate_next_block(&self, block_data: &str) -> (r: Result<Block, ChainError>)
        ensures
            self@.len() == 0 ==> r == Err::<Block, ChainError>(ChainError::NoTailBlock),
            self@.len() > 0 && self@.last().index == u32::MAX ==> r == Err::<Block, ChainError>(
                ChainError::InvalidBlock,
            ),
            r is Err && self@.len() > 0 && self@.last().index < u32::MAX ==> {
                ||| r->Err_0 == ChainError::ClockUnavailable
                ||| r->Err_0 == ChainError::NonceExhausted && exists|t: Timestamp|
                    #[trigger] t.wf() && forall|n: u128|
                        !#[trigger] nonce_works(
                            (self@.last().index + 1) as u32,
                            self@.last().hash@,
                            t,
                            block_data@,
                            next_difficulty(self@),
                            n,
                        )
            },
            r is Ok ==> {
                let b = r->Ok_0;
                &&& valid_successor(b, self@.last())
                &&& b.data@ == block_data@
                &&& b.timestamp.wf()
                &&& b.difficulty == next_difficulty(self@)
                &&& nonce_works(
                    b.index,
                    b.previous_hash@,
                    b.timestamp,
                    b.data@,
                    b.difficulty,
                    b.nonce,
                )
            },
    {
        if self.blocks.len() == 0 {
            return Err(ChainError::NoTailBlock);
        }
        if self.blocks[self.blocks.len() - 1].index == u32::MAX {
            return Err(ChainError::InvalidBlock);
        }
        match get_current_timestamp() {
            Ok(now) => self.next_block_at(block_data, now),
            Err(_) => Err(ChainError::ClockUnavailable),
        }
    }

    /// Mines the block that would follow the tail, with `block_data` and
    /// `timestamp`, at the difficulty that the chain asks for: the first nonce
    /// from 0 upward whose hash meets it. Refuses with `NoTailBlock` an empty
    /// chain, with `InvalidBlock` a tail whose index is the largest there is,
    /// and with `NonceExhausted` when no nonce works.
    pub fn next_block_at(&self, block_data: &str, timestamp: Timestamp) -> (r: Result<
        Block,
        ChainError,
    >)
        ensures
            self@.len() == 0 ==> r == Err::<Block, ChainError>(ChainError::NoTailBlock),
            self@.len() > 0 && self@.last().index == u32::MAX ==> r == Err::<Block, ChainError>(
                ChainError::InvalidBlock,
            ),
            r is Ok ==> {
                let b = r->Ok_0;
                &&& valid_successor(b, self@.last())
                &&& b.data@ == block_data@
                &&& b.timestamp == timestamp
                &&& b.difficulty == next_difficulty(self@)
                &&& nonce_works(
                    b.index,
                    b.previous_hash@,
                    b.timestamp,
                    b.data@,
                    b.difficulty,
                    b.nonce,
                )
                &&& forall|n: u128|
                    n < b.nonce ==> !nonce_works(
                        b.index,
                        b.previous_hash@,
                        b.timestamp,
                        b.data@,
                        b.difficulty,
                        n,
                    )
            },
            r is Err && self@.len() > 0 && self@.last().index < u32::MAX ==> {
                &&& r->Err_0 == ChainError::NonceExhausted
                &&& forall|n: u128|
                    !#[trigger] nonce_works(
                        (self@.last().index + 1) as u32,
                        self@.last().hash@,
                        timestamp,
                        block_data@,
                        next_difficulty(self@),
                        n,
                    )
            },
    {
        if self.blocks.len() == 0 {
            return Err(ChainError::NoTailBlock);
        }
        let previous_block = &self.blocks[self.blocks.len() - 1];
        if previous_block.index == u32::MAX {
            return Err(ChainError::InvalidBlock);
        }
        let difficulty = get_difficulty(self);
        let data = block_data.to_owned();
        match find_block(
            previous_block.index + 1,
            previous_block.hash.clone(),
            timestamp,
            data,
            difficulty,
        ) {
            Some(b) => Ok(b),
            None => Err(ChainError::NonceExhausted),
        }
    }

    /// Whether each block names its predecessor's hash. Blocks' own hashes
    /// are not recomputed here.
    pub fn is_chain_valid(blockchain: &Blockchain) -> (r: bool)
        ensures
            r == linked(blockchain@),
    {
        let n = blockchain.blocks.len();
        let mut i: usize = 1;
        while i < n
            invariant
                n == blockchain@.len(),
                1 <= i,
                forall|j: int|
                    1 <= j < i && j < n ==> #[trigger] blockchain@[j].previous_hash@
                        == blockchain@[j - 1].hash@,
            decreases n - i,
        {
            if blockchain.blocks[i].previous_hash != blockchain.blocks[i - 1].hash {
                return false;
            }
            i = i + 1;
        }
        true
    }

    /// The longest-chain rule: the first chain when its tail's index is
    /// strictly greater than the second's, else the second. Refuses with
    /// `NoTailBlock` when either chain is empty.
    pub fn determine_longest_chain<'a>(
        first_blockchain: &'a Blockchain,
        second_blockchain: &'a Blockchain,
    ) -> (r: Result<&'a Blockchain, ChainError>)
        ensures
            r is Ok <==> first_blockchain@.len() > 0 && second_blockchain@.len() > 0,
            r is Err ==> r->Err_0 == ChainError::NoTailBlock,
            r is Ok ==> *r->Ok_0 == (if longer_chain(first_blockchain@, second_blockchain@) {
                *first_blockchain
            } else {
                *second_blockchain
            }),
    {
        let first = match first_blockchain.get_latest_block() {
            Ok(b) => b,
            Err(e) => {
                return Err(e);
            },
        };
        let second = match second_blockchain.get_latest_block() {
            Ok(b) => b,
            Err(e) => {
                return Err(e);
            },
        };
        if first.index > second.index {
            Ok(first_blockchain)
        } else {
            Ok(second_blockchain)
        }
    }
}

} // verus!
