use gigadoram::lowmc::instance::{BLOCK_BITS, KEY_BITS};
use gigadoram::lowmc::plain::LowMC;

#[test]
fn kats0() {
    let input = [false; BLOCK_BITS];
    let key = [false; KEY_BITS];
    let expected = [
        false, true, false, false, true, true, true, false, true, false, true, true, false,
        true, true, false, true, false, true, true, false, true, false, false, false, false,
        false, true, true, false, true, true, false, false, true, false, false, false, true,
        false, false, true, true, false, false, false, false, true, true, false, false, false,
        true, false, true, true, true, true, true, true, true, true, false, true, true, true,
        true, true, true, false, false, false, true, true, true, false, false, false, false,
        true, false, true, false, true, false, true, true, true, true, true, false, true,
        false, true, false, false, false, false, true, false, false, true, true, true, true,
        true, true, true, true, false, false, true, false, true, true, false, false, false,
        false, false, true, false, false, false, true, false, true, false,
    ];

    let lowmc = LowMC::default();
    let output = lowmc.encrypt(&input, &key);
    assert_eq!(output, expected);
}

#[test]
fn kats1() {
    let input = [true; BLOCK_BITS];
    let key = [true; KEY_BITS];
    let expected = [
        true, false, false, false, false, true, false, true, false, false, true, false, false,
        false, true, false, false, true, true, true, true, false, true, false, true, false,
        true, false, false, true, false, true, true, false, false, true, false, false, false,
        true, true, false, true, true, true, true, true, true, true, false, true, false, false,
        false, false, false, true, true, true, false, true, false, true, false, true, false,
        true, true, true, true, false, true, false, false, false, false, false, false, false,
        false, true, false, false, false, true, false, true, true, false, false, true, true,
        false, false, true, true, false, true, true, false, true, true, false, true, false,
        true, false, true, true, true, false, false, true, false, false, true, true, false,
        true, false, false, false, false, false, false, false, false, true,
    ];

    let lowmc = LowMC::default();
    let output = lowmc.encrypt(&input, &key);
    assert_eq!(output, expected);
}

#[test]
fn kats2() {
    let mut input = [false; BLOCK_BITS];
    input
        .iter_mut()
        .enumerate()
        .for_each(|(i, el)| *el = i & 1 == 0);

    let mut key = [false; KEY_BITS];
    key.iter_mut()
        .enumerate()
        .for_each(|(i, el)| *el = i & 1 == 1);

    let expected = [
        false, true, true, false, false, true, true, false, true, false, true, false, false,
        true, true, false, true, false, true, true, true, true, false, true, false, false,
        true, true, true, false, true, false, true, true, false, true, true, false, false,
        true, false, false, false, true, true, false, true, false, false, false, true, false,
        true, true, true, true, true, false, true, true, true, false, true, true, false, false,
        false, true, false, false, false, true, true, false, false, false, false, true, false,
        true, false, false, false, false, false, true, true, false, true, false, true, false,
        true, true, false, false, false, true, false, false, true, true, true, false, false,
        true, false, true, true, false, false, true, false, true, true, false, false, false,
        false, false, false, true, true, true, true, true, false, true,
    ];

    let lowmc = LowMC::default();
    let output = lowmc.encrypt(&input, &key);
    assert_eq!(output, expected);
}

