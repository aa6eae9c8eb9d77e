use gigadoram::lowmc::plain::{transpose_input_u128, transpose_input_u64, transpose_output, LowMC};
use gigadoram::lowmc::transpose::{transpose_input_wide, transpose_output_wide};
use rand::{thread_rng, Rng};

#[test]
fn transpose_test() {
    let mut rng = thread_rng();

    // 128xu128
    let test: Vec<u128> = (0..128).map(|_| rng.gen()).collect();
    let mut res1 = [0; 128];
    res1.copy_from_slice(&test);
    LowMC::transpose_u128(&mut res1);
    let res2 = transpose_input_wide(&test);
    assert_eq!(res1, res2);
    let out1 = LowMC::transpose_out_u128_t(&res1, 128);
    let out2 = transpose_output_wide(&res2, 128);
    assert_eq!(test, out1);
    assert_eq!(out1, out2);

    // 64xu128
    let test: Vec<u128> = (0..64).map(|_| rng.gen()).collect();
    let res1 = LowMC::transpose_u128_u64_t(&test);
    let res2: [u64; 128] = transpose_input_u128(&test);
    assert_eq!(res1, res2);
    let out1 = LowMC::transpose_out_u64_u128_t(&res1, 64);
    let out2 = transpose_output(&res2, 64);
    assert_eq!(test, out1);
    assert_eq!(out1, out2);

    // 64xu64
    let test: Vec<u64> = (0..64).map(|_| rng.gen()).collect();
    let mut res1 = [0; 64];
    res1.copy_from_slice(&test);
    LowMC::transpose_u64(&mut res1);
    let res2 = transpose_input_u64(&test);
    assert_eq!(res1, res2[0..64]);
    assert_eq!([0; 64], res2[64..]);
    let out1 = LowMC::transpose_out_u64_u128_t(&res2, 64);
    let out2 = transpose_output(&res2, 64);
    assert_eq!(out1, out2);

    // 64xu64 -> 128x u64
    let test: Vec<u64> = (0..64).map(|_| rng.gen()).collect();
    let res1 = LowMC::transpose_u64_t(&test);
    let res2: [u64; 128] = transpose_input_u64(&test);
    assert_eq!(res1, res2);
    let out1 = LowMC::transpose_out_u64_u128_t(&res1, 64);
    let out2 = transpose_output(&res2, 64);
    assert_eq!(out1, out2);
}

#[test]
fn transpose_twice_is_identity_and_moves_single_bits() {
    let mut m = [0u128; 128];
    m[3] = 1u128 << 100;
    LowMC::transpose_u128(&mut m);
    let mut expected = [0u128; 128];
    expected[100] = 1u128 << 3;
    assert_eq!(m, expected);
    LowMC::transpose_u128(&mut m);
    let mut back = [0u128; 128];
    back[3] = 1u128 << 100;
    assert_eq!(m, back);

    let mut w = [0u64; 64];
    w[0] = u64::MAX;
    LowMC::transpose_u64(&mut w);
    assert!(w.iter().all(|&row| row == 1));
}

#[test]
fn transpose_out_pads_with_zero_rows() {
    let mut rows = [0u128; 128];
    rows[0] = 1 << 5;
    let out = LowMC::transpose_out_u128_t(&rows, 130);
    assert_eq!(out.len(), 130);
    assert_eq!(out[5], 1);
    assert_eq!(out[128], 0);
    assert_eq!(out[129], 0);
}
