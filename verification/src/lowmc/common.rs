//! Parameters of the LowMC instance used for the DORAM PRF circuit, and the
//! small bit-packing helpers of its implementations.
use vstd::prelude::*;

use crate::lowmc::bits::{bit_u64, lemma_parity_xor, lemma_zero_u64, parity_below};

verus! {

/// Block size of the DORAM PRF LowMC instance.
pub const BLOCK_SIZE: usize = 128;

/// Rounds of the DORAM PRF LowMC instance.
pub const N_ROUNDS: usize = 9;

/// S-boxes per round of the DORAM PRF LowMC instance.
pub const N_SBOXES: usize = 42;

/// Window size of the method of four Russians used for the linear layers.
pub const M4R_WINDOW_SIZE: usize = 4;

/// Entries of one four-Russians lookup table.
pub const WINDOW_ENTRIES: usize = 16;

/// Windows per 128-bit input.
pub const NUM_WINDOWS: usize = 32;

/// Round keys of the DORAM PRF (one more than the rounds).
pub const ROUND_KEYS: usize = 10;

/// The shape of the DORAM PRF LowMC instance.
pub struct LowMCParameters;

impl LowMCParameters {
    pub const N: usize = BLOCK_SIZE;
    pub const R: usize = N_ROUNDS;
    pub const M: usize = N_SBOXES;
}


/// Mask with the lowest `len` of the 128 lanes set.
pub fn lane_mask(len: usize) -> (mask: u128)
    requires
        len <= 128,
    ensures
        forall|i: u128| i < 128 ==> (((mask >> i) & 1u128 == 1u128) <==> i < len),
{
    if len == 128 {
        assert(forall|i: u128| i < 128 ==> (u128::MAX >> i) & 1u128 == 1u128) by (bit_vector);
        u128::MAX
    } else {
        let l = len as u128;
        assert(1u128 << l >= 1) by (bit_vector)
            requires
                l < 128,
        ;
        let mask = (1u128 << l) - 1;
        assert(forall|i: u128|
            i < 128 ==> ((mask >> i) & 1u128 == 1u128 <==> i < l)) by (bit_vector)
            requires
                l < 128,
                mask + 1 == 1u128 << l,
        ;
        mask
    }
}

/// Mask with the lowest `len` of the 8 lanes of a byte set.
pub fn lane_mask_u8(len: usize) -> (mask: u8)
    requires
        len <= 8,
    ensures
        forall|i: u8| i < 8 ==> (((mask >> i) & 1u8 == 1u8) <==> i < len),
{
    if len == 8 {
        assert(forall|i: u8| i < 8 ==> (u8::MAX >> i) & 1u8 == 1u8) by (bit_vector);
        u8::MAX
    } else {
        let l = len as u8;
        proof {
            vstd::bits::lemma_u8_pow2_no_overflow(l as nat);
            vstd::bits::lemma_u8_shl_is_mul(1, l);
            vstd::arithmetic::power2::lemma_pow2_pos(l as nat);
        }
        let mask = (1u8 << l) - 1;
        assert(forall|i: u8| i < 8 ==> ((mask >> i) & 1u8 == 1u8 <==> i < l))
            by (bit_vector)
            requires
                l < 8,
                mask + 1 == 1u8 << l,
        ;
        mask
    }
}

/// Pack each round's 128 constant bits into one word (bit `i` of the word is
/// entry `i`).
pub fn pack_round_constants(constants: &[[bool; 128]; 9]) -> (packed: [u128; 9])
    ensures
        forall|r: int, i: int|
            0 <= r < 9 && 0 <= i < 128 ==> #[trigger] crate::lowmc::bits::bit_u128(packed[r], i)
                == constants[r][i],
{
    let mut packed = [0u128; 9];
    let mut round: usize = 0;
    while round < 9
        invariant
            round <= 9,
            forall|r: int, i: int|
                0 <= r < round && 0 <= i < 128 ==> #[trigger] crate::lowmc::bits::bit_u128(
                    packed[r],
                    i,
                ) == constants[r][i],
            forall|r: int| round <= r < 9 ==> packed[r] == 0,
        decreases 9 - round,
    {
        let mut word: u128 = 0;
        let mut bit: usize = 0;
        assert(forall|i: u128| i < 128 ==> (0u128 >> i) & 1u128 == 0u128) by (bit_vector);
        while bit < 128
            invariant
                bit <= 128,
                round < 9,
                forall|i: int|
                    0 <= i < bit ==> #[trigger] crate::lowmc::bits::bit_u128(word, i)
                        == constants[round as int][i],
                forall|i: u128| bit <= i < 128 ==> (word >> i) & 1u128 == 0u128,
            decreases 128 - bit,
        {
            let ghost old_word = word;
            let b = bit as u128;
            if constants[round][bit] {
                word = word | (1u128 << b);
                assert(forall|i: u128|
                    i < 128 ==> ((old_word | (1u128 << b)) >> i) & 1u128 == (if i == b {
                        1u128
                    } else {
                        (old_word >> i) & 1u128
                    })) by (bit_vector)
                    requires
                        b < 128,
                ;
            }
            assert forall|i: u128| bit + 1 <= i < 128 implies (word >> i) & 1u128 == 0u128 by {
                assert((old_word >> i) & 1u128 == 0u128);
            }
            assert forall|i: int| 0 <= i < bit + 1 implies #[trigger] crate::lowmc::bits::bit_u128(
                word,
                i,
            ) == constants[round as int][i] by {
                assert(crate::lowmc::bits::bit_u128(old_word, i) == ((old_word >> (i as u128)) & 1u128
                    == 1u128));
            }
            bit = bit + 1;
        }
        packed[round] = word;
        round = round + 1;
    }
    packed
}

/// The lookup entry of a tag and an index: the top 96 bits of the tag
/// followed by the low 32 bits of the index.
pub fn pack_tag_and_index_value(tag: u128, index: u128) -> (packed: u128)
    ensures
        packed % 0x1_0000_0000_0000_0000_0000_0000 == tag / 0x1_0000_0000,
        packed / 0x1_0000_0000_0000_0000_0000_0000 == index % 0x1_0000_0000,
{
    let packed = (tag >> 32) | ((index & 0xffff_ffff) << 96);
    assert(packed % 0x1_0000_0000_0000_0000_0000_0000 == tag / 0x1_0000_0000
        && packed / 0x1_0000_0000_0000_0000_0000_0000 == index % 0x1_0000_0000) by (bit_vector)
        requires
            packed == (tag >> 32) | ((index & 0xffff_ffff) << 96),
    ;
    packed
}


/// The Gray code of `i`.
pub open spec fn gray(i: u64) -> u64 {
    i ^ (i >> 1u64)
}

proof fn lemma_gray_step(i: u64, t: u64)
    by (bit_vector)
    requires
        1 <= i,
        t < 64,
        (i >> t) & 1u64 == 1u64,
        i & (((1u64 << t) - 1u64) as u64) == 0u64,
    ensures
        gray(i) == gray((i - 1) as u64) ^ (1u64 << t),
{
}

proof fn lemma_single_bit_parity(x: u64, t: u64)
    requires
        t < 4,
    ensures
        parity_below(x & (1u64 << t), 4) == bit_u64(x, t as int),
{
    let w = x & (1u64 << t);
    assert forall|j: int| 0 <= j < 4 implies #[trigger] bit_u64(w, j) == (j == t && bit_u64(x, t as int)) by {
        let k = j as u64;
        assert((((x & (1u64 << t)) >> k) & 1u64 == 1u64) == (k == t && ((x >> t) & 1u64 == 1u64)))
            by (bit_vector)
            requires
                k < 4,
                t < 4,
        ;
    }
    reveal_with_fuel(parity_below, 5);
}

/// The table of one four-bit window for the method of four Russians: entry
/// `i` is the parity of the window's bits that the Gray code of `i`
/// selects, each entry one bit away from the one before.
pub fn m4r_lut(input: u8) -> (lut: [bool; 16])
    ensures
        forall|i: int| 0 <= i < 16 ==> #[trigger] lut@[i] == parity_below(
            (input as u64) & gray(i as u64),
            4,
        ),
{
    let ghost x = input as u64;
    let mut lut = [false; 16];
    proof {
        assert(x & gray(0u64) == 0u64) by (bit_vector);
        reveal_with_fuel(parity_below, 5);
        lemma_zero_u64();
    }
    let mut i: usize = 1;
    while i < 16
        invariant
            1 <= i <= 16,
            x == input as u64,
            forall|j: int| 0 <= j < i ==> #[trigger] lut@[j] == parity_below(x & gray(j as u64), 4),
        decreases 16 - i,
    {
        let t = (i as u64).trailing_zeros();
        let ghost iu = i as u64;
        let ghost tu = t as u64;
        proof {
            broadcast use vstd::std_specs::bits::axiom_u64_trailing_zeros;
            assert(iu != 0);
            assert((iu >> tu) & 1u64 == 1u64);
            assert(tu < 4) by {
                if tu >= 4 {
                    assert((iu >> tu) & 1u64 == 0u64) by (bit_vector)
                        requires
                            iu < 16,
                            tu >= 4,
                            tu < 64,
                    ;
                }
            }
            assert((iu >> 0u64) & 1u64 == 0u64 || tu == 0);
            assert((iu >> 1u64) & 1u64 == 0u64 || tu <= 1);
            assert((iu >> 2u64) & 1u64 == 0u64 || tu <= 2);
            assert(iu & (((1u64 << tu) - 1u64) as u64) == 0u64) by (bit_vector)
                requires
                    tu < 4,
                    (iu >> 0u64) & 1u64 == 0u64 || tu == 0,
                    (iu >> 1u64) & 1u64 == 0u64 || tu <= 1,
                    (iu >> 2u64) & 1u64 == 0u64 || tu <= 2,
            ;
            lemma_gray_step(iu, tu);
            let prev = x & gray((iu - 1) as u64);
            let single = x & (1u64 << tu);
            assert(x & gray(iu) == prev ^ single) by (bit_vector)
                requires
                    gray(iu) == gray((iu - 1) as u64) ^ (1u64 << tu),
                    prev == x & gray((iu - 1) as u64),
                    single == x & (1u64 << tu),
            ;
            lemma_parity_xor(prev, single, 4);
            lemma_single_bit_parity(x, tu);
            assert(((input >> t) & 1 == 1) == bit_u64(x, tu as int)) by (bit_vector)
                requires
                    x == input as u64,
                    tu == t as u64,
                    t < 4,
            ;
        }
        lut[i] = lut[i - 1] ^ ((input >> t) & 1 == 1);
        i = i + 1;
    }
    lut
}

} // verus!
