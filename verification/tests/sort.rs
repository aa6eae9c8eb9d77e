use gigadoram::sort::{bit_perm_positions, place_at_positions};

#[test]
fn positions_put_unflagged_rows_first_in_order() {
    let flags = [true, false, true, false, false];
    assert_eq!(bit_perm_positions(&flags), vec![4, 1, 5, 2, 3]);
    assert_eq!(bit_perm_positions(&[]), Vec::<u32>::new());
    assert_eq!(bit_perm_positions(&[true, true]), vec![1, 2]);
    assert_eq!(bit_perm_positions(&[false, false]), vec![1, 2]);
}

#[test]
fn placement_gives_the_stable_partition() {
    let flags = [true, false, true, false, false];
    let rows = [10u128, 11, 12, 13, 14];
    let pos = bit_perm_positions(&flags);
    assert_eq!(place_at_positions(&pos, &rows), vec![11, 13, 14, 10, 12]);
}

#[test]
fn placing_shuffled_rows_undoes_the_shuffle() {
    let flags = [false, true, true, false, true, false];
    let rows = [20u128, 21, 22, 23, 24, 25];
    let pos = bit_perm_positions(&flags);
    let sigma = [3usize, 0, 5, 1, 4, 2];
    let opened: Vec<u32> = sigma.iter().map(|&s| pos[s]).collect();
    let shuffled: Vec<u128> = sigma.iter().map(|&s| rows[s]).collect();
    let out = place_at_positions(&opened, &shuffled);
    assert_eq!(out, place_at_positions(&pos, &rows));
    assert_eq!(out, vec![20, 23, 25, 21, 22, 24]);
}
