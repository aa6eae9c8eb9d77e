use gigadoram::lowmc::plain::LowMC;
use rand::{thread_rng, Rng};

fn bits_to_u128(out: [bool; 128]) -> u128 {
    let mut res = 0u128;
    for o in out.into_iter().rev() {
        res <<= 1;
        res |= u128::from(o);
    }
    res
}

fn key_bits(key: &[u64; 2]) -> [bool; 128] {
    let mut key_ = [false; 128];
    for (i, k) in key_.iter_mut().take(64).enumerate() {
        *k = ((key[0] >> i) & 1) == 1
    }
    for (i, k) in key_.iter_mut().skip(64).enumerate() {
        *k = ((key[1] >> i) & 1) == 1
    }
    key_
}

#[test]
fn wordwise_u64() {
    let lowmc = LowMC::default();

    let mut rng = thread_rng();
    let key: [u64; 2] = [rng.gen(), rng.gen()];
    let test: u64 = rng.gen();
    let res = lowmc.encrypt_u64(test, &key);

    let mut input_ = [false; 128];
    for (i, inp) in input_.iter_mut().take(64).enumerate() {
        *inp = ((test >> i) & 1) == 1
    }
    let out = lowmc.encrypt(&input_, &key_bits(&key));
    assert_eq!(res, bits_to_u128(out));
}

#[test]
fn wordwise_u128() {
    let lowmc = LowMC::default();

    let mut rng = thread_rng();
    let key: [u64; 2] = [rng.gen(), rng.gen()];
    let test: u128 = rng.gen();
    let res = lowmc.encrypt_u128(test, &key);

    let mut input_ = [false; 128];
    for (i, inp) in input_.iter_mut().enumerate() {
        *inp = ((test >> i) & 1) == 1
    }
    let out = lowmc.encrypt(&input_, &key_bits(&key));
    assert_eq!(res, bits_to_u128(out));
}

#[test]
fn test_packed() {
    let lowmc = LowMC::default();

    let mut rng = thread_rng();
    let key: [u64; 2] = [rng.gen(), rng.gen()];
    let test1: Vec<u128> = vec![rng.gen()];
    let test2: Vec<u128> = (0..64).map(|_| rng.gen()).collect();
    let test3: Vec<u128> = (0..32).map(|_| rng.gen()).collect();
    let test4: Vec<u128> = (0..235).map(|_| rng.gen()).collect();

    let res1 = lowmc.packed_encrypt_u128(&test1, &key);
    let res2 = lowmc.packed_encrypt_u128(&test2, &key);
    let res3 = lowmc.packed_encrypt_u128(&test3, &key);
    let res4 = lowmc.packed_encrypt_u128(&test4, &key);

    assert_eq!(res1.len(), test1.len());
    assert_eq!(res2.len(), test2.len());
    assert_eq!(res3.len(), test3.len());

    for (tests, results) in [(test1, res1), (test2, res2), (test3, res3), (test4, res4)] {
        for (i, r) in tests.into_iter().zip(results.into_iter()) {
            assert_eq!(r, lowmc.encrypt_u128(i, &key));
        }
    }
}

#[test]
fn test_packed2() {
    let lowmc = LowMC::default();

    let mut rng = thread_rng();
    let key: [u64; 2] = [rng.gen(), rng.gen()];
    let test1: Vec<u64> = vec![rng.gen()];
    let test2: Vec<u64> = (0..64).map(|_| rng.gen()).collect();
    let test3: Vec<u64> = (0..32).map(|_| rng.gen()).collect();
    let test4: Vec<u64> = (0..235).map(|_| rng.gen()).collect();

    let res1 = lowmc.packed_encrypt_u64(&test1, &key);
    let res2 = lowmc.packed_encrypt_u64(&test2, &key);
    let res3 = lowmc.packed_encrypt_u64(&test3, &key);
    let res4 = lowmc.packed_encrypt_u64(&test4, &key);

    assert_eq!(res1.len(), test1.len());
    assert_eq!(res2.len(), test2.len());
    assert_eq!(res3.len(), test3.len());

    for (tests, results) in [(test1, res1), (test2, res2), (test3, res3), (test4, res4)] {
        for (i, r) in tests.into_iter().zip(results.into_iter()) {
            assert_eq!(r, lowmc.encrypt_u64(i, &key));
        }
    }
}

#[test]
fn packed_empty_input_gives_empty_output() {
    let lowmc = LowMC::default();
    assert!(lowmc.packed_encrypt_u128(&[], &[1, 2]).is_empty());
    assert!(lowmc.packed_encrypt_u64(&[], &[1, 2]).is_empty());
}

#[test]
fn wordwise_zero_block_matches_known_answer() {
    // The all-zero block under the all-zero key (the first known answer).
    let lowmc = LowMC::default();
    let bitwise = lowmc.encrypt(&[false; 128], &[false; 128]);
    assert_eq!(lowmc.encrypt_u128(0, &[0, 0]), bits_to_u128(bitwise));
    assert_eq!(lowmc.encrypt_u64(0, &[0, 0]), bits_to_u128(bitwise));
    assert_ne!(lowmc.encrypt_u128(0, &[0, 0]), 0);
}
