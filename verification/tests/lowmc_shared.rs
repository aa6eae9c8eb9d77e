use gigadoram::lowmc::plain::LowMC;
use gigadoram::lowmc::shared::{and_components_u8, apply_sbox_ands_u8, collect_sbox_ands_u8};
use rand::{thread_rng, Rng};

#[test]
fn sbox_layer_on_shares_opens_to_the_sbox() {
    let mut rng = thread_rng();
    // Three components of 128 wires, eight lanes per byte.
    let comps: Vec<Vec<u8>> = (0..3).map(|_| (0..128).map(|_| rng.gen()).collect()).collect();
    let opened: Vec<u8> = (0..128).map(|w| comps[0][w] ^ comps[1][w] ^ comps[2][w]).collect();
    // Masks that xor to zero over the parties.
    let m0: Vec<u8> = (0..93).map(|_| rng.gen()).collect();
    let m1: Vec<u8> = (0..93).map(|_| rng.gen()).collect();
    let m2: Vec<u8> = (0..93).map(|i| m0[i] ^ m1[i]).collect();
    let masks = [m0, m1, m2];

    let mut outs = Vec::new();
    for party in 0..3 {
        let prev = (party + 2) % 3;
        let (lhs, rhs) = collect_sbox_ands_u8(&comps[party]);
        let (lhs_prev, rhs_prev) = collect_sbox_ands_u8(&comps[prev]);
        let ands = and_components_u8(&lhs, &lhs_prev, &rhs, &rhs_prev, &masks[party]);
        outs.push(apply_sbox_ands_u8(&comps[party], &ands));
    }
    for i in 0..31 {
        let (a, b, c) = (opened[3 * i], opened[3 * i + 1], opened[3 * i + 2]);
        let out = |w: usize| outs[0][w] ^ outs[1][w] ^ outs[2][w];
        assert_eq!(out(3 * i), a ^ (b & c));
        assert_eq!(out(3 * i + 1), a ^ b ^ (c & a));
        assert_eq!(out(3 * i + 2), a ^ b ^ c ^ (a & b));
    }
    for w in 93..128 {
        assert_eq!(outs[0][w] ^ outs[1][w] ^ outs[2][w], opened[w]);
    }
}

#[test]
fn and_component_formula() {
    // (x & y) ^ (x & y_prev) ^ (x_prev & y) ^ mask
    let z = and_components_u8(&[0b1100], &[0b1010], &[0b0110], &[0b0011], &[0b1000_0000]);
    let expected = (0b1100u8 & 0b0110) ^ (0b1100 & 0b0011) ^ (0b1010 & 0b0110) ^ 0b1000_0000;
    assert_eq!(z, vec![expected]);
}

#[test]
fn sbox_pairs_and_passthrough() {
    let input: Vec<u8> = (0..128).map(|w| w as u8).collect();
    let (lhs, rhs) = collect_sbox_ands_u8(&input);
    assert_eq!(&lhs[..6], &[1, 2, 0, 4, 5, 3]);
    assert_eq!(&rhs[..6], &[2, 0, 1, 5, 3, 4]);
    let ands = vec![0u8; 93];
    let out = apply_sbox_ands_u8(&input, &ands);
    assert_eq!(&out[..3], &[0, 1, 3]);
    assert_eq!(&out[93..], &input[93..]);
}

#[test]
fn linear_step_on_shares_opens_to_the_linear_step() {
    let lowmc = LowMC::new();
    let mut rng = thread_rng();
    for r in [0usize, 5, 12] {
        let s: [u64; 2] = [rng.gen(), rng.gen()];
        let k: [u64; 2] = [rng.gen(), rng.gen()];
        let s0: [u64; 2] = [rng.gen(), rng.gen()];
        let s1: [u64; 2] = [rng.gen(), rng.gen()];
        let s2 = [s[0] ^ s0[0] ^ s1[0], s[1] ^ s0[1] ^ s1[1]];
        let k0: [u64; 2] = [rng.gen(), rng.gen()];
        let k1: [u64; 2] = [rng.gen(), rng.gen()];
        let k2 = [k[0] ^ k0[0] ^ k1[0], k[1] ^ k0[1] ^ k1[1]];
        let o0 = lowmc.linear_step_component(&s0, &k0, r, true);
        let o1 = lowmc.linear_step_component(&s1, &k1, r, false);
        let o2 = lowmc.linear_step_component(&s2, &k2, r, false);
        let whole = lowmc.linear_step_component(&s, &k, r, true);
        assert_eq!([o0[0] ^ o1[0] ^ o2[0], o0[1] ^ o1[1] ^ o2[1]], whole);
    }
}

#[test]
fn linear_step_of_zero_is_the_round_constant() {
    let lowmc = LowMC::new();
    assert_eq!(lowmc.linear_step_component(&[0, 0], &[0, 0], 3, false), [0, 0]);
    assert_ne!(lowmc.linear_step_component(&[0, 0], &[0, 0], 3, true), [0, 0]);
}
