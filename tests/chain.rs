use redistribution::difficulty::{get_adjusted_difficulty, get_difficulty, hash_matches_difficulty};
use redistribution::findblock::find_block;
use redistribution::hasher::calculate_hash;
use redistribution::timestamp::timestamp_within;
use redistribution::{Block, Blockchain, ChainError, Timestamp};

fn chain_of_three() -> Blockchain {
    let mut blockchain = Blockchain::new();
    let new_block1 = blockchain.generate_next_block("Block 1");
    blockchain.add_block(new_block1.unwrap()).unwrap();
    let new_block2 = blockchain.generate_next_block("Block 2");
    blockchain.add_block(new_block2.unwrap()).unwrap();
    let new_block3 = blockchain.generate_next_block("Block 3");
    blockchain.add_block(new_block3.unwrap()).unwrap();
    blockchain
}

#[test]
fn lib_test_new_block_validity() {
    let blockchain = Blockchain::new();
    let genesis_block = blockchain.get_latest_block().unwrap();
    let next_block = blockchain.generate_next_block("Test block data!").unwrap();
    let block_is_valid = Blockchain::is_valid_new_block(&next_block, genesis_block);
    assert_eq!(block_is_valid, true);
}

#[test]
fn lib_test_chain_validity() {
    let blockchain = chain_of_three();
    let validity = Blockchain::is_chain_valid(&blockchain);
    assert_eq!(validity, true);
}

#[test]
fn main_test_new_block_validity() {
    let genesis_chain = Blockchain::new();
    let genesis_block = genesis_chain.genesis_block().unwrap();
    assert!(*genesis_block == Block::genesis_block());
    let next_block = genesis_chain.generate_next_block("Test block data!").unwrap();
    let block_is_valid = Blockchain::is_valid_new_block(&next_block, genesis_block);
    assert_eq!(block_is_valid, true);
}

#[test]
fn main_test_chain_validity() {
    let blockchain = chain_of_three();
    let validity = Blockchain::is_chain_valid(&blockchain);
    assert_eq!(validity, true);
}

#[test]
fn blockchain_test_new_block_validity() {
    let blockchain = Blockchain::new();
    let genesis_block = blockchain.get_latest_block().unwrap();
    let next_block = blockchain.generate_next_block("Test block data!").unwrap();
    let block_is_valid = Blockchain::is_valid_new_block(&next_block, &genesis_block);
    assert_eq!(block_is_valid, true);
}

#[test]
fn blockchain_test_chain_validity() {
    let mut blockchain = Blockchain::new();
    let new_block1 = blockchain.generate_next_block("Block 1");
    blockchain.add_block(new_block1.unwrap()).unwrap();
    let new_block2 = blockchain.generate_next_block("Block 2");
    blockchain.add_block(new_block2.unwrap()).unwrap();
    let new_block3 = blockchain.generate_next_block("Block 3");
    blockchain.add_block(new_block3.unwrap()).unwrap();

    let validity = Blockchain::is_chain_valid(&blockchain);
    assert_eq!(validity, true);
}

#[test]
fn test_matches_difficulty() {
    let test_case = hex::encode("ABCABCABC");
    let matches = hash_matches_difficulty(&test_case, &1).unwrap();
    assert_eq!(matches, true);
    let test_case = hex::encode("11BCABCABC");
    let matches = hash_matches_difficulty(&test_case, &2).unwrap();
    assert_eq!(matches, true);
}

#[test]
fn genesis_hash_recomputes() {
    let genesis = Block::genesis_block();
    assert_eq!(genesis.index, 0);
    assert_eq!(genesis.previous_hash, "");
    assert_eq!(genesis.data, "");
    assert_eq!(Block::calculate_hash_for_block(&genesis), genesis.hash);
    // SHA-256 of forty zero bytes
    assert_eq!(
        genesis.hash,
        "2c34ce1df23b838c5abf2a7f6437cca3d3067ed509ff25f11df6b11b582b51eb"
    );
}

#[test]
fn block_hash_of_known_fields() {
    let ts = Timestamp::new(1, 500_000_000);
    let hash = calculate_hash(5, "abc", &ts, "data", 3, 42);
    assert_eq!(
        hash,
        "7587778fc837897c3401226d4233bc3ea838e2bc20d58b592ae0402f4aa40ca3"
    );
}

#[test]
fn corrupted_block_fails_its_child() {
    let chain = chain_of_three();
    let mut blocks = chain.blocks().clone();
    blocks[2].hash = String::from("corrupted");
    assert!(!Blockchain::is_valid_new_block(&blocks[3], &blocks[2]));
    // the corrupted block no longer matches its own fields either
    assert!(!Blockchain::is_valid_new_block(&blocks[2], &blocks[1]));
    assert!(Blockchain::is_valid_new_block(&blocks[1], &blocks[0]));
}

#[test]
fn each_broken_check_invalidates() {
    let chain = Blockchain::new();
    let genesis = chain.get_latest_block().unwrap().clone();
    let good = chain.generate_next_block("x").unwrap();
    assert!(Blockchain::is_valid_new_block(&good, &genesis));

    let mut wrong_index = good.clone();
    wrong_index.index = 2;
    assert!(!Blockchain::is_valid_new_block(&wrong_index, &genesis));

    let mut wrong_previous = good.clone();
    wrong_previous.previous_hash = String::from("00");
    assert!(!Blockchain::is_valid_new_block(&wrong_previous, &genesis));

    let mut tampered = good.clone();
    tampered.data = String::from("y");
    assert!(!Blockchain::is_valid_new_block(&tampered, &genesis));
}

#[test]
fn add_block_refuses_invalid_and_keeps_chain() {
    let mut chain = Blockchain::new();
    let mut block = chain.generate_next_block("x").unwrap();
    block.index = 7;
    assert_eq!(chain.add_block(block), Err(ChainError::InvalidBlock));
    assert_eq!(chain.len(), 1);
}

#[test]
fn empty_chain_has_no_tail() {
    assert!(Blockchain::from_blocks(Vec::new()).is_none());
}

#[test]
fn longest_chain_rule() {
    let long = chain_of_three();
    let short = Blockchain::new();
    let r = Blockchain::determine_longest_chain(&long, &short).unwrap();
    assert!(std::ptr::eq(r, &long));
    let r = Blockchain::determine_longest_chain(&short, &long).unwrap();
    assert!(std::ptr::eq(r, &long));
    let other = Blockchain::new();
    let r = Blockchain::determine_longest_chain(&short, &other).unwrap();
    assert!(std::ptr::eq(r, &other));
}

#[test]
fn difficulty_is_monotonic_on_a_hash() {
    // 0x0f: four leading zero bits
    let hash = String::from("0fff");
    for d in 0..=4u32 {
        assert!(hash_matches_difficulty(&hash, &d).unwrap());
    }
    assert!(!hash_matches_difficulty(&hash, &5).unwrap());
    let zeros = String::from("0000");
    assert!(hash_matches_difficulty(&zeros, &16).unwrap());
    assert!(!hash_matches_difficulty(&zeros, &17).unwrap());
    // either case of hexadecimal digit is read
    let upper = String::from("0F");
    assert!(hash_matches_difficulty(&upper, &4).unwrap());
    assert!(!hash_matches_difficulty(&upper, &5).unwrap());
    let empty = String::new();
    assert!(hash_matches_difficulty(&empty, &0).unwrap());
    assert!(!hash_matches_difficulty(&empty, &1).unwrap());
}

#[test]
fn difficulty_rejects_non_hex() {
    assert_eq!(
        hash_matches_difficulty(&String::from("zz"), &0),
        Err(ChainError::InvalidHash)
    );
    assert_eq!(
        hash_matches_difficulty(&String::from("abc"), &0),
        Err(ChainError::InvalidHash)
    );
}

#[test]
fn mining_meets_difficulty() {
    let block = find_block(1, String::from("ab"), Timestamp::new(3, 0), String::from("d"), 8).unwrap();
    assert!(block.hash.starts_with("00"));
    assert_eq!(Block::calculate_hash_for_block(&block), block.hash);
    for n in 0..block.nonce {
        let h = calculate_hash(1, "ab", &Timestamp::new(3, 0), "d", 8, n);
        assert!(!hash_matches_difficulty(&h, &8).unwrap());
    }
}

fn chain_with_times(n: u32, step_secs: u64, difficulty: u32) -> Blockchain {
    let mut blocks = vec![Block::genesis_block()];
    for i in 1..=n {
        let previous: &Block = blocks.last().unwrap();
        let b = Block::new(
            i,
            Timestamp::new(step_secs * i as u64, 0),
            String::new(),
            String::new(),
            previous.hash.clone(),
            difficulty,
            0,
        );
        blocks.push(b);
    }
    Blockchain::from_blocks(blocks).unwrap()
}

#[test]
fn difficulty_adjusts_every_interval() {
    // ten blocks a second apart: far faster than expected, so one harder
    let fast = chain_with_times(10, 1, 4);
    assert_eq!(get_difficulty(&fast), 5);
    // a minute apart: far slower, so one easier
    let slow = chain_with_times(10, 60, 4);
    assert_eq!(get_difficulty(&slow), 3);
    // ten seconds apart: on target, unchanged
    let steady = chain_with_times(10, 10, 4);
    assert_eq!(get_difficulty(&steady), 4);
    // off the interval: the tail's own
    let between = chain_with_times(9, 1, 4);
    assert_eq!(get_difficulty(&between), 4);
    let latest = fast.get_latest_block().unwrap();
    assert_eq!(get_adjusted_difficulty(latest, &fast), 5);
}

#[test]
fn difficulty_adjustment_counts_nanoseconds() {
    // fifty seconds less one nanosecond: under half the expected time
    let mut blocks = vec![Block::genesis_block()];
    for i in 1..=10u32 {
        let ts = if i == 1 {
            Timestamp::new(0, 999)
        } else if i == 10 {
            Timestamp::new(50, 998)
        } else {
            Timestamp::new(10, 0)
        };
        blocks.push(Block::new(i, ts, String::new(), String::new(), String::new(), 5, 0));
    }
    let chain = Blockchain::from_blocks(blocks).unwrap();
    assert_eq!(get_difficulty(&chain), 6);
}

#[test]
fn timestamps_within_a_minute() {
    let prev = Timestamp::new(100, 0);
    let now = Timestamp::new(200, 0);
    assert!(timestamp_within(&Timestamp::new(41, 0), &prev, &now));
    assert!(!timestamp_within(&Timestamp::new(40, 0), &prev, &now));
    assert!(timestamp_within(&Timestamp::new(259, 999_999_999), &prev, &now));
    assert!(!timestamp_within(&Timestamp::new(260, 0), &prev, &now));
}
