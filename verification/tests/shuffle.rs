use gigadoram::shuffle::{
    reveal_party0_message_of, reveal_party1_message_of, reveal_party2_open_of, shuffle_party0_message,
    shuffle_party0_messages, shuffle_party1_message, shuffle_party1_messages, shuffle_party1_result,
    shuffle_party1_results, shuffle_party2_result, shuffle_party2_results,
};
use rand::seq::SliceRandom;
use rand::{thread_rng, Rng};

fn random_perm(n: usize) -> Vec<u32> {
    let mut p: Vec<u32> = (0..n as u32).collect();
    p.shuffle(&mut thread_rng());
    p
}

fn random_rows(n: usize) -> Vec<u128> {
    (0..n).map(|_| thread_rng().gen()).collect()
}

#[test]
fn three_party_shuffle_opens_to_the_composed_permutation() {
    let n = 17;
    let rows = random_rows(n);
    let x0 = random_rows(n);
    let x1 = random_rows(n);
    let x2: Vec<u128> = (0..n).map(|i| rows[i] ^ x0[i] ^ x1[i]).collect();
    let (pi0, pi1, pi2) = (random_perm(n), random_perm(n), random_perm(n));
    let alpha1 = random_rows(n);
    let alpha3 = random_rows(n);

    // Party 0 holds (x0, x2) and (pi0, pi2); party 1 (x1, x0) and (pi1, pi0);
    // party 2 (x2, x1) and (pi2, pi1).
    let delta = shuffle_party0_message(&x0, &x2, &pi0, &pi2, &alpha1, &alpha3);
    let gamma = shuffle_party1_message(&x1, &pi0, &alpha1);
    let r1 = shuffle_party1_result(&delta, &pi1);
    let r2 = shuffle_party2_result(&gamma, &pi2, &pi1, &alpha3);
    for j in 0..n {
        let k = pi0[pi2[pi1[j] as usize] as usize] as usize;
        assert_eq!(r1[j] ^ r2[j], rows[k]);
    }
}

#[test]
fn shuffle_steps_on_small_values() {
    // Identity permutations and zero masks leave the rows in place.
    let id: Vec<u32> = vec![0, 1, 2];
    let zero = vec![0u128; 3];
    let m = shuffle_party0_message(&[1, 2, 3], &[4, 4, 4], &id, &id, &zero, &zero);
    assert_eq!(m, vec![5, 6, 7]);
    let rev: Vec<u32> = vec![2, 1, 0];
    assert_eq!(shuffle_party1_message(&[1, 2, 3], &rev, &[8, 8, 8]), vec![11, 10, 9]);
    assert_eq!(shuffle_party1_result(&[1, 2, 3], &rev), vec![3, 2, 1]);
    assert_eq!(shuffle_party2_result(&[1, 2, 3], &rev, &id, &[0, 0, 16]), vec![3, 2, 17]);
}

#[test]
fn permutation_opening_matches_the_row_shuffle() {
    let n = 13;
    let mut rng = thread_rng();
    let secret: Vec<u32> = (0..n).map(|_| rng.gen()).collect();
    let x0: Vec<u32> = (0..n).map(|_| rng.gen()).collect();
    let x1: Vec<u32> = (0..n).map(|_| rng.gen()).collect();
    let x2: Vec<u32> = (0..n).map(|i| secret[i].wrapping_sub(x0[i]).wrapping_sub(x1[i])).collect();
    let (pi0, pi1, pi2) = (random_perm(n), random_perm(n), random_perm(n));
    let alpha1: Vec<u32> = (0..n).map(|_| rng.gen()).collect();

    let delta = reveal_party0_message_of(&x0, &x2, &pi0, &alpha1);
    let gamma = reveal_party1_message_of(&x1, &pi0, &alpha1);
    let opened = reveal_party2_open_of(&delta, &gamma, &pi2, &pi1);
    for j in 0..n {
        let k = pi0[pi2[pi1[j] as usize] as usize] as usize;
        assert_eq!(opened[j], secret[k]);
    }
}

#[test]
fn permutation_opening_wraps() {
    let id: Vec<u32> = vec![0];
    assert_eq!(reveal_party0_message_of(&[u32::MAX], &[2], &id, &[0]), vec![1]);
    assert_eq!(reveal_party0_message_of(&[0], &[0], &id, &[1]), vec![u32::MAX]);
    assert_eq!(reveal_party1_message_of(&[u32::MAX], &id, &[1]), vec![0]);
    assert_eq!(reveal_party2_open_of(&[u32::MAX], &[5], &id, &id), vec![4]);
}

#[test]
fn several_row_sets_share_one_shuffle() {
    let n = 9;
    let sets = 3;
    let rows: Vec<Vec<u128>> = (0..sets).map(|_| random_rows(n)).collect();
    let x0: Vec<Vec<u128>> = (0..sets).map(|_| random_rows(n)).collect();
    let x1: Vec<Vec<u128>> = (0..sets).map(|_| random_rows(n)).collect();
    let x2: Vec<Vec<u128>> = (0..sets)
        .map(|s| (0..n).map(|i| rows[s][i] ^ x0[s][i] ^ x1[s][i]).collect())
        .collect();
    let (pi0, pi1, pi2) = (random_perm(n), random_perm(n), random_perm(n));
    let alpha1: Vec<Vec<u128>> = (0..sets).map(|_| random_rows(n)).collect();
    let alpha3: Vec<Vec<u128>> = (0..sets).map(|_| random_rows(n)).collect();

    let delta = shuffle_party0_messages(&x0, &x2, &pi0, &pi2, &alpha1, &alpha3);
    let gamma = shuffle_party1_messages(&x1, &pi0, &alpha1);
    assert_eq!(delta.len(), sets * n);
    assert_eq!(gamma.len(), sets * n);
    let r1 = shuffle_party1_results(&delta, &pi1, sets);
    let r2 = shuffle_party2_results(&gamma, &pi2, &pi1, &alpha3);
    for s in 0..sets {
        for j in 0..n {
            let k = pi0[pi2[pi1[j] as usize] as usize] as usize;
            assert_eq!(r1[s][j] ^ r2[s][j], rows[s][k]);
        }
    }
}
