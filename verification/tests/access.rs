use gigadoram::access::{
    absorb_level_answer, absorb_level_answers, use_dummy_flags, use_dummy_share, writeback_values, QueryShare,
};
use gigadoram::speed_cache::{apply_lookup_to_addrs, lookup_sentinel};

fn q(value: u64, alibi: u8, found: bool) -> QueryShare {
    QueryShare { value, alibi, found }
}

#[test]
fn dummy_flags_follow_alibi_and_found() {
    let queries = [q(0, 0b0000_0100, false), q(0, 0b0000_0100, true), q(0, 0, true), q(0, 0, false)];
    assert_eq!(use_dummy_flags(&queries, 2), vec![true, false, true, false]);
    assert_eq!(use_dummy_flags(&queries, 0), vec![false, true, true, false]);
}

#[test]
fn level_answers_fold_into_the_running_state() {
    let mut queries = vec![q(0b1100, 0b01, false), q(7, 0, true)];
    absorb_level_answers(&mut queries, &[0b1010, 7], &[0b10, 0], &[true, true]);
    assert_eq!(queries, vec![q(0b0110, 0b11, true), q(0, 0, false)]);
}

#[test]
fn opened_level_step_matches_the_protocol() {
    // Three components of two queries' states and of one level's answers.
    let comps = [
        [q(5, 0b001, false), q(9, 0b000, true)],
        [q(3, 0b100, true), q(1, 0b010, false)],
        [q(8, 0b010, true), q(6, 0b011, true)],
    ];
    let open = |i: usize| {
        let (a, b, c) = (comps[0][i], comps[1][i], comps[2][i]);
        q(a.value ^ b.value ^ c.value, a.alibi ^ b.alibi ^ c.alibi, a.found ^ b.found ^ c.found)
    };
    for level in 0..3 {
        let flags: Vec<Vec<bool>> = comps.iter().map(|c| use_dummy_flags(c, level)).collect();
        for i in 0..2 {
            let opened = open(i);
            let expected = ((opened.alibi >> level) & 1 == 1) ^ opened.found;
            assert_eq!(flags[0][i] ^ flags[1][i] ^ flags[2][i], expected);
        }
    }
}

#[test]
fn writeback_takes_new_values_for_writes() {
    assert_eq!(writeback_values(&[Some(4), None, Some(0)], &[1, 2, 3]), vec![4, 2, 0]);
}

#[test]
fn lookup_replaces_the_matched_address_by_the_sentinel() {
    let sentinel = lookup_sentinel(10);
    assert_eq!(sentinel, 1 << 10);
    // Addresses 3 and 9 shared as a0 ^ a1 ^ a2; the lookup matched slot 1,
    // so the masks open to (0, 9) and the found bits to (false, true).
    let a = [[1u32, 2], [6, 15], [4, 4]];
    let m = [[7u32, 1], [2, 3], [5, 11]];
    let f = [[true, false], [false, true], [true, false]];
    let mut updated = Vec::new();
    for c in 0..3 {
        let mut addrs = a[c].to_vec();
        addrs.push(99);
        apply_lookup_to_addrs(&mut addrs, &m[c], &f[c], sentinel);
        assert_eq!(addrs[2], 99);
        updated.push(addrs);
    }
    assert_eq!(updated[0][0] ^ updated[1][0] ^ updated[2][0], 3);
    assert_eq!(updated[0][1] ^ updated[1][1] ^ updated[2][1], sentinel);
}

#[test]
fn single_query_steps() {
    let state = q(0b1111, 0b0010, false);
    assert!(use_dummy_share(&state, 1));
    assert!(!use_dummy_share(&state, 0));
    let next = absorb_level_answer(state, 0b0101, 0b0011, true);
    assert_eq!(next, q(0b1010, 0b0001, true));
    assert!(use_dummy_share(&next, 1));
}
