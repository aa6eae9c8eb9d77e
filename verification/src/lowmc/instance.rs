//! The LowMC instance (128-bit block, 128-bit key) and its specification.
use vstd::prelude::*;

use crate::lowmc::bits::{mat_vec, sbox_layer, words_to_bits, xor_bits};
use crate::lowmc::tables::{KEY_MATRICES, LINEAR_MATRICES, ROUND_CONSTANTS};

verus! {

/// Block size in bits.
pub const BLOCK_BITS: usize = 128;

/// Key size in bits.
pub const KEY_BITS: usize = 128;

/// Number of rounds.
pub const ROUNDS: usize = 13;

/// Number of 3-bit S-boxes per round.
pub const SBOXES: u32 = 31;

/// The constants of a LowMC instance: the S-box count, two words of round
/// constant per round, one key matrix per round key and one linear-layer
/// matrix per round (each matrix is 128 rows of two words).
pub struct LowMcInstance {
    pub m: u32,
    pub rc: [u64; 26],
    pub k: [[u64; 256]; 14],
    pub l: [[u64; 256]; 13],
}

impl LowMcInstance {
    /// The instance generated by the reference Grain-LFSR procedure.
    pub closed spec fn spec_standard() -> LowMcInstance {
        LowMcInstance { m: SBOXES, rc: ROUND_CONSTANTS, k: KEY_MATRICES, l: LINEAR_MATRICES }
    }

    pub fn standard() -> (p: LowMcInstance)
        ensures
            p == LowMcInstance::spec_standard(),
            p.m == SBOXES,
    {
        LowMcInstance { m: SBOXES, rc: ROUND_CONSTANTS, k: KEY_MATRICES, l: LINEAR_MATRICES }
    }
}

/// The round constant of round `r` as 128 bits.
pub open spec fn round_constant(p: LowMcInstance, r: int) -> Seq<bool> {
    words_to_bits(p.rc[2 * r], p.rc[2 * r + 1])
}

/// Round key `r`: the key multiplied by key matrix `r`.
pub open spec fn round_key(p: LowMcInstance, key: Seq<bool>, r: int) -> Seq<bool> {
    mat_vec(p.k[r]@, key)
}

/// Round `r` (counted from 0): S-box layer, linear layer, then the xor of
/// round key `r + 1` and round constant `r`.
pub open spec fn lowmc_round(p: LowMcInstance, key: Seq<bool>, s: Seq<bool>, r: int) -> Seq<bool> {
    xor_bits(
        mat_vec(p.l[r]@, sbox_layer(p.m as int, s)),
        xor_bits(round_key(p, key, r + 1), round_constant(p, r)),
    )
}

/// The state after the first `n` rounds, starting from `s`.
pub open spec fn lowmc_rounds(p: LowMcInstance, key: Seq<bool>, s: Seq<bool>, n: nat) -> Seq<bool>
    decreases n,
{
    if n == 0 {
        s
    } else {
        lowmc_round(p, key, lowmc_rounds(p, key, s, (n - 1) as nat), n - 1)
    }
}

/// LowMC encryption: key whitening with round key 0, then all rounds.
#[verifier::opaque]
pub open spec fn lowmc_encrypt(p: LowMcInstance, input: Seq<bool>, key: Seq<bool>) -> Seq<bool> {
    lowmc_rounds(p, key, xor_bits(input, round_key(p, key, 0)), ROUNDS as nat)
}


/// The key xored in after round `r - 1` (round key `r` combined with round
/// constant `r - 1`), or round key 0 for the initial whitening when `r == 0`.
pub open spec fn combined_key(p: LowMcInstance, key: Seq<bool>, r: int) -> Seq<bool> {
    if r == 0 {
        round_key(p, key, 0)
    } else {
        xor_bits(round_key(p, key, r), round_constant(p, r - 1))
    }
}

} // verus!
