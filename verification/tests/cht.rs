use gigadoram::cht::{build, dummy, h0, h1, lookup_inputs, Block, ChtError, StashState};
use gigadoram::party::PartyId;
use rand::{seq::SliceRandom, thread_rng, RngCore};
use std::collections::HashSet;

const LOG_SINGLE_COL_LEN: u32 = 4;
const STASH_SIZE: usize = 2;
const INPUT_COUNT: usize = 12;

fn low_u32(block: Block) -> u32 {
    block as u32
}

fn random_indexed_block_with(
    rng: &mut impl RngCore,
    log_single_col_len: u32,
    left_vertex: usize,
    right_vertex: usize,
    builder_index: u32,
) -> Block {
    let mask = (1u64 << log_single_col_len) - 1;
    let mut high = rng.next_u64();
    high = (high & !mask) | left_vertex as u64;
    high = (high & !(mask << 32)) | ((right_vertex as u64) << 32);

    ((high as Block) << 64) | ((rng.next_u32() as Block) << 32) | builder_index as Block
}

fn random_indexed_blocks(log_single_col_len: u32, count: usize) -> Vec<Block> {
    let mut rng = thread_rng();
    let column_len = 1usize << log_single_col_len;
    let mut left = (0..column_len).collect::<Vec<_>>();
    let mut right = (0..column_len).collect::<Vec<_>>();

    left.shuffle(&mut rng);
    right.shuffle(&mut rng);

    (0..count)
        .map(|i| {
            random_indexed_block_with(
                &mut rng,
                log_single_col_len,
                left[i],
                right[i],
                (i + 1) as u32,
            )
        })
        .collect()
}

fn setup() -> (Vec<Block>, Vec<Block>, Vec<usize>) {
    let input = random_indexed_blocks(LOG_SINGLE_COL_LEN, INPUT_COUNT);
    let (table, stash_indices) = build(STASH_SIZE, LOG_SINGLE_COL_LEN, &input).unwrap();
    (input, table, stash_indices)
}

/// A block whose left slot is `left`, whose right-column offset is `right`
/// and whose low 32 bits are `index`.
fn block_at(left: u64, right: u64, index: u32) -> Block {
    let high = left | (right << 32);
    ((high as Block) << 64) | index as Block
}

#[test]
fn test_no_duplicate_placements() {
    let (input, table, _) = setup();
    let input_indices = input
        .iter()
        .map(|entry| low_u32(*entry) as usize)
        .collect::<HashSet<_>>();
    let mut seen = HashSet::new();

    for entry in table.iter().copied().filter(|entry| *entry != 0) {
        let index = low_u32(entry) as usize;
        assert!(
            input_indices.contains(&index),
            "placed builder index {index} was not in the input"
        );
        assert!(
            seen.insert(index),
            "placed builder index {index} appeared twice"
        );
    }
}

#[test]
fn test_fixed_stash_size() {
    let (input, table, stash_indices) = setup();
    let placed_count = table.iter().filter(|entry| **entry != 0).count();

    assert_eq!(stash_indices.len(), STASH_SIZE);
    assert_eq!(placed_count + STASH_SIZE, input.len());
}

#[test]
fn test_stash_indices() {
    let (input, _, stash_indices) = setup();
    let input_indices = input
        .iter()
        .map(|entry| low_u32(*entry) as usize)
        .collect::<HashSet<_>>();
    let mut seen = HashSet::new();

    for index in stash_indices {
        assert!(
            input_indices.contains(&index),
            "stash index {index} was not in the input"
        );
        assert!(seen.insert(index), "stash index {index} appeared twice");
    }
}

#[test]
fn test_placed_entries_sit_at_a_hash_location() {
    let (input, table, stash_indices) = setup();
    let stash_indices = stash_indices.into_iter().collect::<HashSet<_>>();
    for entry in input {
        let builder_index = low_u32(entry) as usize;
        let key = entry & !0xffff_ffffu128;
        if stash_indices.contains(&builder_index) {
            assert_ne!(table[h0(key, LOG_SINGLE_COL_LEN)], entry);
            assert_ne!(table[h1(key, LOG_SINGLE_COL_LEN)], entry);
        } else {
            assert!(
                table[h0(key, LOG_SINGLE_COL_LEN)] == entry
                    || table[h1(key, LOG_SINGLE_COL_LEN)] == entry,
                "placed entry {builder_index} was not at either hash location"
            );
        }
    }
}

#[test]
fn test_hash_locations() {
    // h0 reads bits 64.. and h1 bits 96.. of the block.
    let block = block_at(5, 9, 7);
    assert_eq!(h0(block, 4), 5);
    assert_eq!(h1(block, 4), 16 + 9);
    let wide = block_at(0x35, 0x2b, 0);
    assert_eq!(h0(wide, 4), 5);
    assert_eq!(h1(wide, 4), 16 + 11);
}

#[test]
fn test_cycle_uses_every_slot() {
    // Four inputs on the slots {0, 16}, {0, 17}, {1, 16}, {1, 17}: a cycle
    // through four slots, so all four can be placed and nothing is stashed.
    let input = vec![
        block_at(0, 0, 1),
        block_at(0, 1, 2),
        block_at(1, 0, 3),
        block_at(1, 1, 4),
    ];
    let (table, stash) = build(0, 4, &input).unwrap();
    assert!(stash.is_empty());
    let placed = table.iter().filter(|e| **e != 0).count();
    assert_eq!(placed, 4);
    for (slot, entry) in table.iter().enumerate() {
        if *entry != 0 {
            assert!(slot == h0(*entry, 4) || slot == h1(*entry, 4));
        }
    }
}

#[test]
fn test_overfull_component_is_stashed() {
    // Three inputs all joining slots 2 and 18: two slots, so one input must
    // go to the stash.
    let input = vec![block_at(2, 2, 1), block_at(2, 2, 2), block_at(2, 2, 3)];
    let (table, stash) = build(1, 4, &input).unwrap();
    assert_eq!(stash, vec![3]);
    assert_eq!(table[2], input[0]);
    assert_eq!(table[18], input[1]);
    assert_eq!(table.iter().filter(|e| **e != 0).count(), 2);
    // With no stash the build cannot succeed.
    assert_eq!(build(0, 4, &input), Err(ChtError::StashOverflow));
}

#[test]
fn test_stash_is_topped_up_in_input_order() {
    let input = vec![block_at(0, 0, 1), block_at(1, 1, 2), block_at(2, 2, 3)];
    let (table, stash) = build(2, 4, &input).unwrap();
    assert_eq!(stash, vec![1, 2]);
    assert_eq!(table.iter().filter(|e| **e != 0).count(), 1);
}

#[test]
fn test_dummy_is_all_zero() {
    let (table, stash) = dummy(3, 4);
    assert_eq!(table, vec![0; 32]);
    assert_eq!(stash, vec![0; 3]);
}

#[test]
fn test_unwrap_regular() {
    assert_eq!(StashState::Vertex(7).unwrap_regular(), 7);
}

#[test]
fn test_unicyclic_component_with_first_input_stashed() {
    // `c` joins slots 1 and 3; inputs 1 and 2 both join slots 0 and 2. Every
    // input can be placed, and the stash place goes to the first input.
    let c: Block = (1u128 << 96) | (1u128 << 64) | 3;
    let (table, stash) = build(1, 1, &[c, 1, 2]).unwrap();
    assert_eq!(table, vec![1u128, 0, 2, 0]);
    assert_eq!(stash, vec![3usize]);
}

#[test]
fn test_one_cycle_needs_no_stash() {
    let (table, stash) = build(0, 0, &[1, 2]).unwrap();
    assert_eq!(table, vec![1u128, 2]);
    assert!(stash.is_empty());
}

#[test]
fn test_stash_exactly_full_succeeds() {
    // Three inputs on two slots leave one over: a stash of one suffices.
    let input = vec![block_at(5, 5, 1), block_at(5, 5, 2), block_at(5, 5, 3)];
    assert!(build(1, 4, &input).is_ok());
    assert_eq!(build(0, 4, &input), Err(ChtError::StashOverflow));
}

#[test]
fn test_hash_at_widest_column() {
    let block: Block = (5u128 << 96) | (1u128 << 64);
    assert_eq!(h0(block, 63), 0x5_0000_0001);
    assert_eq!(h1(block, 63), (1usize << 63) | 5);
}

#[test]
fn lookup_inputs_by_role() {
    let input = vec![block_at(3, 4, 1), block_at(3, 9, 2)];
    let (table, _) = build(0, 4, &input).unwrap();
    let key = input[1];
    assert_eq!(lookup_inputs(4, &table, key, PartyId::ID0, PartyId::ID0), [0, 0, 0]);
    let next = lookup_inputs(4, &table, key, PartyId::ID1, PartyId::ID0);
    let prev = lookup_inputs(4, &table, key, PartyId::ID2, PartyId::ID0);
    assert_eq!(next[0], key);
    assert_eq!(prev[0], 0);
    assert_eq!(next[1], table[3]);
    assert_eq!(next[2], table[16 + 9]);
    assert_eq!(&next[1..], &prev[1..]);
    assert!(next[1] == key || next[2] == key);
}

#[test]
fn dummy_at_the_widest_column_is_empty() {
    let (table, stash) = dummy(2, usize::BITS - 1);
    assert!(table.is_empty());
    assert_eq!(stash, vec![0, 0]);
}
