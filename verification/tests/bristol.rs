use gigadoram::lowmc::gigadoram::{
    bits_to_u128, u128_to_bits, BooleanCircuit, CircuitError, GigadoramLowMc,
};

/// A circuit of the PRF shape whose output is the block xored with the
/// first round key.
fn xor_first_round_key_circuit() -> String {
    let mut text = String::from("128 1536\n2 1280 128\n1 128\n");
    for i in 0..128 {
        text.push_str(&format!("2 1 {} {} {} XOR\n", i, 1280 + i, 1408 + i));
    }
    text
}

#[test]
fn parse_and_evaluate_small_circuit() {
    // out = !(a & b) ^ a, over wires a=0, b=1.
    let text = "3 5\n2 1 1\n1 1\n2 1 0 1 2 AND\n1 1 2 3 INV\n2 1 3 0 4 XOR\n";
    let circuit = BooleanCircuit::parse(text.as_bytes()).unwrap();
    for a in [false, true] {
        for b in [false, true] {
            let out = circuit.evaluate(&[&[a], &[b]]).unwrap();
            assert_eq!(out, vec![!(a & b) ^ a]);
        }
    }
}

#[test]
fn parse_skips_blank_lines_and_accepts_plus_signs() {
    let text = "\n  \n1 3\n\t1 2\n\n1 1\r\n+2 1 0 1 2 AND\n\n";
    let circuit = BooleanCircuit::parse(text.as_bytes()).unwrap();
    assert_eq!(circuit.evaluate(&[&[true, true]]).unwrap(), vec![true]);
    assert_eq!(circuit.evaluate(&[&[true, false]]).unwrap(), vec![false]);
}

#[test]
fn mand_gate_evaluates_every_pair() {
    let text = "1 6\n1 4\n1 2\n4 2 0 1 2 3 4 5 MAND\n";
    let circuit = BooleanCircuit::parse(text.as_bytes()).unwrap();
    let out = circuit.evaluate(&[&[true, true, true, false]]).unwrap();
    assert_eq!(out, vec![true, false]);
}

#[test]
fn parse_errors_name_the_failing_part() {
    let parse = |t: &str| BooleanCircuit::parse(t.as_bytes()).err();
    assert_eq!(parse(""), Some(CircuitError::MissingSizeHeader));
    assert_eq!(parse("1 x\n"), Some(CircuitError::InvalidSizeHeader));
    assert_eq!(parse("1 2 3\n"), Some(CircuitError::InvalidSizeHeader));
    assert_eq!(parse("1 3\n"), Some(CircuitError::MissingInputHeader));
    assert_eq!(parse("1 3\n2 1\n"), Some(CircuitError::InvalidInputHeader));
    assert_eq!(parse("1 3\n1 2\n"), Some(CircuitError::MissingOutputHeader));
    assert_eq!(parse("1 3\n1 2\n1\n"), Some(CircuitError::InvalidOutputHeader));
    assert_eq!(parse("1 3\n1 2\n1 1\n2 1 0 1 2 OR\n"), Some(CircuitError::InvalidGate));
    assert_eq!(parse("1 3\n1 2\n1 1\n2 2 0 1 2 XOR\n"), Some(CircuitError::InvalidGate));
    assert_eq!(parse("1 3\n1 2\n1 1\n2 1 0 -1 2 XOR\n"), Some(CircuitError::InvalidGate));
    assert_eq!(parse("1 3\n1 2\n1 1\n4 2 0 1 2 MAND\n"), Some(CircuitError::InvalidGate));
    assert_eq!(parse("2 3\n1 2\n1 1\n2 1 0 1 2 XOR\n"), Some(CircuitError::GateCountMismatch));
    assert_eq!(
        parse("1 3\n1 2\n1 1\n2 1 0 1 99999999999999999999999 XOR\n"),
        Some(CircuitError::InvalidGate)
    );
}

#[test]
fn evaluate_errors() {
    let circuit = BooleanCircuit::parse(b"1 3\n1 2\n1 1\n2 1 0 1 7 XOR\n").unwrap();
    assert_eq!(circuit.evaluate(&[]).err(), Some(CircuitError::WrongInputCount));
    assert_eq!(circuit.evaluate(&[&[true]]).err(), Some(CircuitError::WrongInputSize));
    assert_eq!(
        circuit.evaluate(&[&[true, false]]).err(),
        Some(CircuitError::WireOutOfBounds)
    );
    let circuit = BooleanCircuit::parse(b"0 3\n1 2\n1 4\n").unwrap();
    assert_eq!(
        circuit.evaluate(&[&[true, false]]).err(),
        Some(CircuitError::OutputTooLarge)
    );
}

#[test]
fn from_bristol_checks_the_prf_shape() {
    assert_eq!(
        GigadoramLowMc::from_bristol(b"0 3\n1 2\n1 1\n").err(),
        Some(CircuitError::UnexpectedInputs)
    );
    assert_eq!(
        GigadoramLowMc::from_bristol(b"0 1536\n2 1280 128\n1 127\n").err(),
        Some(CircuitError::UnexpectedOutputs)
    );
    assert_eq!(
        GigadoramLowMc::from_bristol(b"").err(),
        Some(CircuitError::MissingSizeHeader)
    );
}

#[test]
fn gigadoram_lowmc_circuit_encrypts_chunks() {
    let cipher = GigadoramLowMc::from_bristol(xor_first_round_key_circuit().as_bytes()).unwrap();
    assert_eq!(cipher.num_wires(), 1536);
    let mut keys = [0u128; 10];
    for (i, k) in keys.iter_mut().enumerate() {
        *k = 0x0123_4567_89ab_cdef_u128.wrapping_mul(i as u128 + 3);
    }
    let input = 0xdead_beef_0000_1111_2222_3333_4444_5555u128;
    let out = cipher.encrypt_u128_chunks(&keys, input).unwrap();
    assert_eq!(out, keys[0] ^ input);
}

#[test]
fn gigadoram_lowmc_encrypt_checks_lengths() {
    let cipher = GigadoramLowMc::from_bristol(xor_first_round_key_circuit().as_bytes()).unwrap();
    let key = vec![false; 1280];
    let block = vec![true; 128];
    assert_eq!(cipher.encrypt(&key[..1279], &block).err(), Some(CircuitError::WrongKeyLength));
    assert_eq!(cipher.encrypt(&key, &block[..127]).err(), Some(CircuitError::WrongBlockLength));
    assert_eq!(cipher.encrypt(&key, &block).unwrap(), [true; 128]);
}

#[test]
fn bits_round_trip() {
    let x = 0x8000_0000_0000_0000_0000_0000_0000_0001u128;
    let bits = u128_to_bits(x);
    assert!(bits[0] && bits[127] && !bits[1]);
    assert_eq!(bits_to_u128(&bits), x);
}

#[test]
fn parse_splits_on_unicode_whitespace() {
    // No-break space, ideographic space, em space and next line separate
    // words as in `str::split_whitespace`.
    let text = "1\u{a0}3\n1\u{3000}2\n1\u{2003}1\n2 1 0\u{85}1 2 AND\n";
    let circuit = BooleanCircuit::parse(text.as_bytes()).unwrap();
    assert_eq!(circuit.evaluate(&[&[true, true]]).unwrap(), vec![true]);
    assert_eq!(circuit.evaluate(&[&[false, true]]).unwrap(), vec![false]);
    // A non-whitespace character stays part of its word.
    assert!(BooleanCircuit::parse("1\u{e9}3\n1 2\n1 1\n2 1 0 1 2 AND\n".as_bytes()).is_err());
}
