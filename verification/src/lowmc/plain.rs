//! Plain (non-MPC) LowMC: a bitwise reference implementation, a word-wise
//! implementation on two `u64` words and a bit-sliced implementation that
//! encrypts up to 64 blocks at once.
use vstd::prelude::*;
use vstd::slice::slice_subrange;

use crate::lowmc::bits::{
    bit_u128, bit_u64, expand, lane, lemma_bit_ops_u64, lemma_join_words, lemma_sbox_lanes, lemma_set_bit_u128,
    lemma_xor_and_lanes, lemma_zero_u128, lemma_ones_parity, lemma_parity_xor, lemma_row_parity_words,
    lemma_sbox_word, lemma_set_bit_u64, lemma_split_word, lemma_xor_words, lemma_zero_u64,
    mat_vec, matrix_entry, ones_below, row_parity, sbox_bit, sbox_layer, sbox_word,
    u128_to_bit_seq, words_to_bits, xor_bits,
};
use crate::lowmc::shared::linear_step;
use crate::lowmc::instance::{
    combined_key, lowmc_encrypt, lowmc_round, lowmc_rounds, round_constant, round_key, LowMcInstance, ROUNDS,
};

verus! {

/// The number of set bits of `x`.
fn count_ones_u64(x: u64) -> (n: u32)
    ensures
        n == ones_below(x, 64),
{
    let mut n: u32 = 0;
    let mut i: u64 = 0;
    while i < 64
        invariant
            i <= 64,
            n == ones_below(x, i as nat),
            n <= i,
        decreases 64 - i,
    {
        if (x >> i) & 1 == 1 {
            n = n + 1;
        }
        i = i + 1;
    }
    n
}

/// Parity of row `row` of `mat` against the bits of `(s0, s1)`.
fn row_parity_u64(mat: &[u64; 256], row: usize, s0: u64, s1: u64) -> (res: bool)
    requires
        row < 128,
    ensures
        res == row_parity(mat@, row as int, words_to_bits(s0, s1), 128),
{
    let a = s0 & mat[2 * row];
    let b = s1 & mat[2 * row + 1];
    let n = count_ones_u64(a ^ b);
    proof {
        lemma_row_parity_words(mat@, row as int, s0, s1, 128);
        lemma_parity_xor(a, b, 64);
        lemma_ones_parity(a ^ b, 64);
        assert(n & 1 == n % 2) by (bit_vector);
    }
    n & 1 == 1
}

/// `mat * (s0, s1)` over GF(2), as a word pair.
fn matrix_times_words(mat: &[u64; 256], s: &[u64; 2]) -> (res: [u64; 2])
    ensures
        words_to_bits(res[0], res[1]) == mat_vec(mat@, words_to_bits(s[0], s[1])),
{
    let ghost v = words_to_bits(s[0], s[1]);
    proof {
        lemma_zero_u64();
    }
    let mut lo: u64 = 0;
    let mut bit: usize = 0;
    while bit < 64
        invariant
            bit <= 64,
            v == words_to_bits(s[0], s[1]),
            forall|i: int| 0 <= i < bit ==> #[trigger] bit_u64(lo, i) == row_parity(mat@, i, v, 128),
            forall|i: int| bit <= i < 64 ==> !#[trigger] bit_u64(lo, i),
        decreases 64 - bit,
    {
        let p = row_parity_u64(mat, bit, s[0], s[1]);
        if p {
            proof {
                lemma_set_bit_u64(lo, bit as u64);
            }
            lo = lo | (1u64 << (bit as u64));
        }
        bit = bit + 1;
    }
    let mut hi: u64 = 0;
    let mut bit: usize = 0;
    while bit < 64
        invariant
            bit <= 64,
            v == words_to_bits(s[0], s[1]),
            forall|i: int|
                0 <= i < bit ==> #[trigger] bit_u64(hi, i) == row_parity(mat@, i + 64, v, 128),
            forall|i: int| bit <= i < 64 ==> !#[trigger] bit_u64(hi, i),
        decreases 64 - bit,
    {
        let p = row_parity_u64(mat, bit + 64, s[0], s[1]);
        if p {
            proof {
                lemma_set_bit_u64(hi, bit as u64);
            }
            hi = hi | (1u64 << (bit as u64));
        }
        bit = bit + 1;
    }
    assert(words_to_bits(lo, hi) =~= mat_vec(mat@, v));
    [lo, hi]
}

/// A bit copied into all 64 lanes of a word.
fn expand_u64(bit: bool) -> (w: u64)
    ensures
        w == expand(bit),
{
    if bit {
        u64::MAX
    } else {
        0u64
    }
}

/// Row `row` of `mat` times every lane of `v`.
fn row_times_lanes(mat: &[u64; 256], row: usize, v: &[u64; 128]) -> (res: u64)
    requires
        row < 128,
    ensures
        forall|l: int|
            0 <= l < 64 ==> #[trigger] bit_u64(res, l) == row_parity(
                mat@,
                row as int,
                lane(v@, l),
                128,
            ),
{
    let w0 = mat[2 * row];
    let w1 = mat[2 * row + 1];
    let mut acc: u64 = 0;
    proof {
        lemma_zero_u64();
    }
    let mut i: usize = 0;
    while i < 128
        invariant
            i <= 128,
            row < 128,
            w0 == mat@[2 * row as int],
            w1 == mat@[2 * row as int + 1],
            forall|l: int|
                0 <= l < 64 ==> #[trigger] bit_u64(acc, l) == row_parity(
                    mat@,
                    row as int,
                    lane(v@, l),
                    i as nat,
                ),
        decreases 128 - i,
    {
        let entry = if i < 64 {
            (w0 >> (i as u64)) & 1 == 1
        } else {
            (w1 >> ((i - 64) as u64)) & 1 == 1
        };
        assert(entry == matrix_entry(mat@, row as int, i as int));
        let e = expand_u64(entry);
        proof {
            lemma_xor_and_lanes(acc, v[i as int], entry);
        }
        acc = acc ^ (v[i] & e);
        i = i + 1;
    }
    acc
}

/// `mat` times every lane of `v`.
fn matrix_times_lanes(mat: &[u64; 256], v: &[u64; 128]) -> (res: [u64; 128])
    ensures
        forall|l: int| 0 <= l < 64 ==> #[trigger] lane(res@, l) == mat_vec(mat@, lane(v@, l)),
{
    let mut res = [0u64; 128];
    let mut row: usize = 0;
    while row < 128
        invariant
            row <= 128,
            forall|j: int, l: int|
                0 <= j < row && 0 <= l < 64 ==> #[trigger] bit_u64(res@[j], l) == row_parity(
                    mat@,
                    j,
                    lane(v@, l),
                    128,
                ),
        decreases 128 - row,
    {
        res[row] = row_times_lanes(mat, row, v);
        row = row + 1;
    }
    assert forall|l: int| 0 <= l < 64 implies #[trigger] lane(res@, l) == mat_vec(
        mat@,
        lane(v@, l),
    ) by {
        assert(lane(res@, l) =~= mat_vec(mat@, lane(v@, l)));
    }
    res
}

/// Xor `other` into `state`, lane by lane.
fn add_lanes(state: &mut [u64; 128], other: &[u64; 128])
    ensures
        forall|l: int|
            0 <= l < 64 ==> #[trigger] lane(final(state)@, l) == xor_bits(
                lane(old(state)@, l),
                lane(other@, l),
            ),
{
    let ghost s0 = state@;
    let mut i: usize = 0;
    while i < 128
        invariant
            i <= 128,
            s0.len() == 128,
            forall|j: int| 0 <= j < i ==> #[trigger] state@[j] == s0[j] ^ other@[j],
            forall|j: int| i <= j < 128 ==> #[trigger] state@[j] == s0[j],
        decreases 128 - i,
    {
        state[i] = state[i] ^ other[i];
        i = i + 1;
    }
    assert forall|l: int| 0 <= l < 64 implies #[trigger] lane(state@, l) == xor_bits(
        lane(s0, l),
        lane(other@, l),
    ) by {
        assert forall|j: int| 0 <= j < 128 implies #[trigger] lane(state@, l)[j] == xor_bits(
            lane(s0, l),
            lane(other@, l),
        )[j] by {
            lemma_bit_ops_u64(s0[j], other@[j], l);
        }
        assert(lane(state@, l) =~= xor_bits(lane(s0, l), lane(other@, l)));
    }
}

/// Spread the bits of up to 64 blocks over the lanes of a bit-sliced
/// state: lane `l` holds block `l`, the other lanes are zero.
pub fn transpose_input_u128(inputs: &[u128]) -> (state: [u64; 128])
    requires
        inputs@.len() <= 64,
    ensures
        forall|l: int, j: int|
            0 <= l < 64 && 0 <= j < 128 ==> #[trigger] bit_u64(state@[j], l) == (l
                < inputs@.len() && bit_u128(inputs@[l], j)),
{
    let mut state = [0u64; 128];
    proof {
        lemma_zero_u64();
    }
    let mut i: usize = 0;
    while i < inputs.len()
        invariant
            i <= inputs@.len() <= 64,
            forall|l: int, j: int|
                0 <= l < 64 && 0 <= j < 128 ==> #[trigger] bit_u64(state@[j], l) == (l < i
                    && bit_u128(inputs@[l], j)),
        decreases inputs@.len() - i,
    {
        let inp = inputs[i];
        let mut j: usize = 0;
        while j < 128
            invariant
                i < inputs@.len() <= 64,
                inp == inputs@[i as int],
                j <= 128,
                forall|l: int, k: int|
                    0 <= l < 64 && 0 <= k < j ==> #[trigger] bit_u64(state@[k], l) == (l < i + 1
                        && bit_u128(inputs@[l], k)),
                forall|l: int, k: int|
                    0 <= l < 64 && j <= k < 128 ==> #[trigger] bit_u64(state@[k], l) == (l < i
                        && bit_u128(inputs@[l], k)),
            decreases 128 - j,
        {
            let bit = (inp >> (j as u128)) & 1 == 1;
            assert(bit == bit_u128(inputs@[i as int], j as int));
            if bit {
                proof {
                    lemma_set_bit_u64(state@[j as int], i as u64);
                }
                state[j] = state[j] | (1u64 << (i as u64));
            }
            j = j + 1;
        }
        i = i + 1;
    }
    state
}

/// Spread the bits of up to 64 words over the lanes of a bit-sliced state:
/// lane `l` holds word `l` in its low 64 bits, everything else is zero.
pub fn transpose_input_u64(inputs: &[u64]) -> (state: [u64; 128])
    requires
        inputs@.len() <= 64,
    ensures
        forall|l: int, j: int|
            0 <= l < 64 && 0 <= j < 128 ==> #[trigger] bit_u64(state@[j], l) == (l
                < inputs@.len() && j < 64 && bit_u64(inputs@[l], j)),
{
    let mut state = [0u64; 128];
    proof {
        lemma_zero_u64();
    }
    let mut i: usize = 0;
    while i < inputs.len()
        invariant
            i <= inputs@.len() <= 64,
            forall|l: int, j: int|
                0 <= l < 64 && 0 <= j < 128 ==> #[trigger] bit_u64(state@[j], l) == (l < i && j
                    < 64 && bit_u64(inputs@[l], j)),
        decreases inputs@.len() - i,
    {
        let inp = inputs[i];
        let mut j: usize = 0;
        while j < 64
            invariant
                i < inputs@.len() <= 64,
                inp == inputs@[i as int],
                j <= 64,
                forall|l: int, k: int|
                    0 <= l < 64 && 0 <= k < j ==> #[trigger] bit_u64(state@[k], l) == (l < i + 1
                        && bit_u64(inputs@[l], k)),
                forall|l: int, k: int|
                    0 <= l < 64 && j <= k < 128 ==> #[trigger] bit_u64(state@[k], l) == (l < i && k
                        < 64 && bit_u64(inputs@[l], k)),
            decreases 64 - j,
        {
            let bit = (inp >> (j as u64)) & 1 == 1;
            if bit {
                proof {
                    lemma_set_bit_u64(state@[j as int], i as u64);
                }
                state[j] = state[j] | (1u64 << (i as u64));
            }
            j = j + 1;
        }
        i = i + 1;
    }
    state
}

/// Collect the first `num` lanes of a bit-sliced state as blocks.
pub fn transpose_output(state: &[u64; 128], num: usize) -> (result: Vec<u128>)
    requires
        num <= 64,
    ensures
        result@.len() == num,
        forall|l: int| 0 <= l < num ==> #[trigger] u128_to_bit_seq(result@[l]) == lane(state@, l),
{
    let mut result: Vec<u128> = Vec::new();
    let mut l: usize = 0;
    while l < num
        invariant
            l <= num,
            result@.len() == l,
            forall|k: int| 0 <= k < l ==> #[trigger] result@[k] == 0u128,
        decreases num - l,
    {
        result.push(0u128);
        l = l + 1;
    }
    proof {
        lemma_zero_u128();
    }
    let mut i: usize = 0;
    while i < 128
        invariant
            i <= 128,
            num <= 64,
            result@.len() == num,
            forall|k: int, j: int|
                0 <= k < num && 0 <= j < 128 ==> #[trigger] bit_u128(result@[k], j) == (j < i
                    && bit_u64(state@[j], k)),
        decreases 128 - i,
    {
        let s = state[i];
        let mut k: usize = 0;
        while k < num
            invariant
                i < 128,
                num <= 64,
                k <= num,
                s == state@[i as int],
                result@.len() == num,
                forall|r: int, j: int|
                    0 <= r < k && 0 <= j < 128 ==> #[trigger] bit_u128(result@[r], j) == (j < i + 1
                        && bit_u64(state@[j], r)),
                forall|r: int, j: int|
                    k <= r < num && 0 <= j < 128 ==> #[trigger] bit_u128(result@[r], j) == (j < i
                        && bit_u64(state@[j], r)),
            decreases num - k,
        {
            let bit = (s >> (k as u64)) & 1 == 1;
            if bit {
                proof {
                    lemma_set_bit_u128(result@[k as int], i as u128);
                }
                let w = result[k] | (1u128 << (i as u128));
                result.set(k, w);
            }
            k = k + 1;
        }
        i = i + 1;
    }
    assert forall|l: int| 0 <= l < num implies #[trigger] u128_to_bit_seq(result@[l]) == lane(
        state@,
        l,
    ) by {
        assert(u128_to_bit_seq(result@[l]) =~= lane(state@, l));
    }
    result
}

/// A LowMC cipher with its instance constants.
pub struct LowMC {
    params: LowMcInstance,
}

impl LowMC {
    #[verifier::type_invariant]
    spec fn wf(self) -> bool {
        1 <= self.params.m && 3 * self.params.m <= 128
    }

    /// The instance constants this cipher uses.
    pub closed spec fn instance(self) -> LowMcInstance {
        self.params
    }

    pub fn new() -> (c: LowMC)
        ensures
            c.instance() == LowMcInstance::spec_standard(),
    {
        LowMC { params: LowMcInstance::standard() }
    }

    /// The S-box layer on the lowest `3 * m` bits of the state.
    fn sbox(&self, state: &mut [bool; 128])
        ensures
            final(state)@ == sbox_layer(self.instance().m as int, old(state)@),
    {
        proof {
            use_type_invariant(self);
        }
        let ghost s0 = state@;
        let m = self.params.m as usize;
        let mut t: usize = 0;
        while t < m
            invariant
                m == self.params.m,
                3 * m <= 128,
                t <= m,
                s0.len() == 128,
                forall|j: int| 0 <= j < 3 * t ==> #[trigger] state@[j] == sbox_bit(s0, j),
                forall|j: int| 3 * t <= j < 128 ==> #[trigger] state@[j] == s0[j],
            decreases m - t,
        {
            let a = state[3 * t];
            let b = state[3 * t + 1];
            let c = state[3 * t + 2];
            state[3 * t] = a ^ (b || c);
            state[3 * t + 1] = b ^ (!a && c);
            state[3 * t + 2] = c ^ (a && b);
            t = t + 1;
        }
        assert(state@ =~= sbox_layer(self.params.m as int, s0));
    }

    /// Xor `other` into `state`.
    fn add(state: &mut [bool; 128], other: &[bool; 128])
        ensures
            final(state)@ == xor_bits(old(state)@, other@),
    {
        let ghost s0 = state@;
        let mut i: usize = 0;
        while i < 128
            invariant
                i <= 128,
                s0.len() == 128,
                forall|j: int| 0 <= j < i ==> #[trigger] state@[j] == (s0[j] != other@[j]),
                forall|j: int| i <= j < 128 ==> #[trigger] state@[j] == s0[j],
            decreases 128 - i,
        {
            state[i] = state[i] ^ other[i];
            i = i + 1;
        }
        assert(state@ =~= xor_bits(s0, other@));
    }

    /// Xor the round constant of round `r` into `state`.
    fn add_rc(&self, state: &mut [bool; 128], r: usize)
        requires
            r < ROUNDS,
        ensures
            final(state)@ == xor_bits(old(state)@, round_constant(self.instance(), r as int)),
    {
        let ghost s0 = state@;
        let r1 = self.params.rc[2 * r];
        let r2 = self.params.rc[2 * r + 1];
        let mut i: usize = 0;
        while i < 128
            invariant
                i <= 128,
                r < ROUNDS,
                s0.len() == 128,
                r1 == self.params.rc[2 * r],
                r2 == self.params.rc[2 * r + 1],
                forall|j: int|
                    0 <= j < i ==> #[trigger] state@[j] == (s0[j] != round_constant(
                        self.params,
                        r as int,
                    )[j]),
                forall|j: int| i <= j < 128 ==> #[trigger] state@[j] == s0[j],
            decreases 128 - i,
        {
            let bit = if i < 64 {
                (r1 >> (i as u64)) & 1 == 1
            } else {
                (r2 >> ((i - 64) as u64)) & 1 == 1
            };
            state[i] = state[i] ^ bit;
            i = i + 1;
        }
        assert(state@ =~= xor_bits(s0, round_constant(self.params, r as int)));
    }

    /// Parity of `v[col] & mat[row][col]` over all 128 columns.
    fn row_times_vector(mat: &[u64; 256], row: usize, v: &[bool; 128]) -> (res: bool)
        requires
            row < 128,
        ensures
            res == row_parity(mat@, row as int, v@, 128),
    {
        let w0 = mat[2 * row];
        let w1 = mat[2 * row + 1];
        let mut acc = false;
        let mut i: usize = 0;
        while i < 128
            invariant
                i <= 128,
                row < 128,
                w0 == mat@[2 * row as int],
                w1 == mat@[2 * row as int + 1],
                acc == row_parity(mat@, row as int, v@, i as nat),
            decreases 128 - i,
        {
            let entry = if i < 64 {
                (w0 >> (i as u64)) & 1 == 1
            } else {
                (w1 >> ((i - 64) as u64)) & 1 == 1
            };
            assert(entry == matrix_entry(mat@, row as int, i as int));
            acc = acc ^ (v[i] && entry);
            i = i + 1;
        }
        acc
    }

    /// `mat * v` over GF(2).
    fn matrix_times_vector(mat: &[u64; 256], v: &[bool; 128]) -> (res: [bool; 128])
        ensures
            res@ == mat_vec(mat@, v@),
    {
        let mut res = [false; 128];
        let mut row: usize = 0;
        while row < 128
            invariant
                row <= 128,
                forall|j: int| 0 <= j < row ==> #[trigger] res@[j] == row_parity(mat@, j, v@, 128),
            decreases 128 - row,
        {
            res[row] = Self::row_times_vector(mat, row, v);
            row = row + 1;
        }
        assert(res@ =~= mat_vec(mat@, v@));
        res
    }

    /// Round key `r` of `key`.
    fn key_schedule(&self, key: &[bool; 128], r: usize) -> (rk: [bool; 128])
        requires
            r <= ROUNDS,
        ensures
            rk@ == round_key(self.instance(), key@, r as int),
    {
        Self::matrix_times_vector(&self.params.k[r], key)
    }

    /// The linear layer of round `r`.
    fn linear_layer(&self, state: &mut [bool; 128], r: usize)
        requires
            r < ROUNDS,
        ensures
            final(state)@ == mat_vec(self.instance().l[r as int]@, old(state)@),
    {
        let tmp = Self::matrix_times_vector(&self.params.l[r], state);
        *state = tmp;
    }

    /// Encrypt one block given as bits (`input[0]` is the least significant
    /// bit) under `key` (likewise).
    pub fn encrypt(&self, input: &[bool; 128], key: &[bool; 128]) -> (out: [bool; 128])
        ensures
            out@ == lowmc_encrypt(self.instance(), input@, key@),
    {
        reveal(lowmc_encrypt);
        let mut state = *input;
        let mut rk = self.key_schedule(key, 0);
        Self::add(&mut state, &rk);
        let ghost s0 = state@;
        let mut r: usize = 0;
        while r < ROUNDS
            invariant
                r <= ROUNDS,
                s0 == xor_bits(input@, round_key(self.instance(), key@, 0)),
                state@ == lowmc_rounds(self.instance(), key@, s0, r as nat),
            decreases ROUNDS - r,
        {
            rk = self.key_schedule(key, r + 1);
            self.add_rc(&mut rk, r);
            self.sbox(&mut state);
            self.linear_layer(&mut state, r);
            Self::add(&mut state, &rk);
            r = r + 1;
        }
        state
    }

    /// The S-box layer on a state held as two words.
    fn sbox_u64(&self, state: &mut [u64; 2])
        ensures
            words_to_bits(final(state)[0], final(state)[1]) == sbox_layer(
                self.instance().m as int,
                words_to_bits(old(state)[0], old(state)[1]),
            ),
    {
        proof {
            use_type_invariant(self);
        }
        let m = self.params.m;
        let mask = u128::MAX >> ((128 - m * 3) as u128);
        let abc = state[0] as u128 | (state[1] as u128) << 64u128;
        let cab = ((abc << 1u128) & 0xb6db6db6db6db6db6db6db6db6db6db6u128) | ((abc >> 2u128)
            & 0x49249249249249249249249249249249u128);
        let bca = ((cab << 1u128) & 0xb6db6db6db6db6db6db6db6db6db6db6u128) | ((cab >> 2u128)
            & 0x49249249249249249249249249249249u128);
        let res1 = (abc ^ cab ^ bca ^ (bca & cab)) & 0x49249249249249249249249249249249u128 & mask;
        let res2 = (abc ^ bca ^ (bca & cab)) & 0x92492492492492492492492492492492u128 & mask;
        let res3 = (abc ^ (bca & cab)) & 0x24924924924924924924924924924924u128 & mask;
        let res = res1 | res2 | res3 | (abc & !mask);
        proof {
            assert(res == sbox_word(abc, mask));
            lemma_join_words(state[0], state[1]);
            lemma_sbox_word(abc, m as int);
            lemma_split_word(res);
        }
        state[0] = res as u64;
        state[1] = (res >> 64u128) as u64;
    }

    /// Xor the round constant of round `r` into a two-word state.
    fn add_rc_u64(&self, state: &mut [u64; 2], r: usize)
        requires
            r < ROUNDS,
        ensures
            words_to_bits(final(state)[0], final(state)[1]) == xor_bits(
                words_to_bits(old(state)[0], old(state)[1]),
                round_constant(self.instance(), r as int),
            ),
    {
        proof {
            lemma_xor_words(state[0], state[1], self.params.rc[2 * r as int], self.params.rc[2 * r as int + 1]);
        }
        let r1 = self.params.rc[2 * r];
        let r2 = self.params.rc[2 * r + 1];
        state[0] = state[0] ^ r1;
        state[1] = state[1] ^ r2;
    }

    /// Xor `other` into a two-word state.
    fn add_u64(state: &mut [u64; 2], other: &[u64; 2])
        ensures
            words_to_bits(final(state)[0], final(state)[1]) == xor_bits(
                words_to_bits(old(state)[0], old(state)[1]),
                words_to_bits(other[0], other[1]),
            ),
    {
        proof {
            lemma_xor_words(state[0], state[1], other[0], other[1]);
        }
        state[0] = state[0] ^ other[0];
        state[1] = state[1] ^ other[1];
    }

    /// Round key `r` of a two-word key.
    fn key_schedule_u64(&self, key: &[u64; 2], r: usize) -> (rk: [u64; 2])
        requires
            r <= ROUNDS,
        ensures
            words_to_bits(rk[0], rk[1]) == round_key(
                self.instance(),
                words_to_bits(key[0], key[1]),
                r as int,
            ),
    {
        matrix_times_words(&self.params.k[r], key)
    }

    /// The linear layer of round `r` on a two-word state.
    fn linear_layer_u64(&self, state: &mut [u64; 2], r: usize)
        requires
            r < ROUNDS,
        ensures
            words_to_bits(final(state)[0], final(state)[1]) == mat_vec(
                self.instance().l[r as int]@,
                words_to_bits(old(state)[0], old(state)[1]),
            ),
    {
        let tmp = matrix_times_words(&self.params.l[r], state);
        *state = tmp;
    }

    /// Encrypt a two-word state in place.
    fn encrypt_u64_internal(&self, state: &mut [u64; 2], key: &[u64; 2])
        ensures
            words_to_bits(final(state)[0], final(state)[1]) == lowmc_encrypt(
                self.instance(),
                words_to_bits(old(state)[0], old(state)[1]),
                words_to_bits(key[0], key[1]),
            ),
    {
        reveal(lowmc_encrypt);
        let ghost k = words_to_bits(key[0], key[1]);
        let mut rk = self.key_schedule_u64(key, 0);
        Self::add_u64(state, &rk);
        let ghost s0 = words_to_bits(state[0], state[1]);
        let mut r: usize = 0;
        while r < ROUNDS
            invariant
                r <= ROUNDS,
                k == words_to_bits(key[0], key[1]),
                s0 == xor_bits(words_to_bits(old(state)[0], old(state)[1]), round_key(self.instance(), k, 0)),
                words_to_bits(state[0], state[1]) == lowmc_rounds(self.instance(), k, s0, r as nat),
            decreases ROUNDS - r,
        {
            rk = self.key_schedule_u64(key, r + 1);
            self.add_rc_u64(&mut rk, r);
            self.sbox_u64(state);
            self.linear_layer_u64(state, r);
            Self::add_u64(state, &rk);
            r = r + 1;
        }
    }

    /// Encrypt the block whose low 64 bits are `input` (the high bits are
    /// zero) under the key `(key[0], key[1])`; the ciphertext as one word.
    pub fn encrypt_u64(&self, input: u64, key: &[u64; 2]) -> (out: u128)
        ensures
            u128_to_bit_seq(out) == lowmc_encrypt(
                self.instance(),
                words_to_bits(input, 0),
                words_to_bits(key[0], key[1]),
            ),
    {
        let mut state = [input, 0u64];
        self.encrypt_u64_internal(&mut state, key);
        proof {
            lemma_join_words(state[0], state[1]);
        }
        state[0] as u128 | (state[1] as u128) << 64u128
    }

    /// The linear part of round `r` on one component of a shared state and
    /// key (`linear_step`): the linear layer of `state`, xored with round key
    /// `r + 1` of `key` and, where `add_constant`, with round constant `r`.
    pub fn linear_step_component(&self, state: &[u64; 2], key: &[u64; 2], r: usize, add_constant: bool) -> (res: [u64; 2])
        requires
            r < ROUNDS,
        ensures
            words_to_bits(res[0], res[1]) == linear_step(
                self.instance(),
                words_to_bits(state[0], state[1]),
                words_to_bits(key[0], key[1]),
                r as int,
                add_constant,
            ),
    {
        let mut rk = self.key_schedule_u64(key, r + 1);
        if add_constant {
            self.add_rc_u64(&mut rk, r);
        }
        let mut s = [state[0], state[1]];
        self.linear_layer_u64(&mut s, r);
        Self::add_u64(&mut s, &rk);
        s
    }

    /// Encrypt the block `input` under the key `(key[0], key[1])`.
    pub fn encrypt_u128(&self, input: u128, key: &[u64; 2]) -> (out: u128)
        ensures
            u128_to_bit_seq(out) == lowmc_encrypt(
                self.instance(),
                u128_to_bit_seq(input),
                words_to_bits(key[0], key[1]),
            ),
    {
        let mut state = [input as u64, (input >> 64u128) as u64];
        proof {
            lemma_split_word(input);
        }
        self.encrypt_u64_internal(&mut state, key);
        proof {
            lemma_join_words(state[0], state[1]);
        }
        state[0] as u128 | (state[1] as u128) << 64u128
    }

    /// The S-box layer on every lane of a bit-sliced state.
    fn sbox_lanes(&self, state: &mut [u64; 128])
        ensures
            forall|l: int|
                0 <= l < 64 ==> #[trigger] lane(final(state)@, l) == sbox_layer(
                    self.instance().m as int,
                    lane(old(state)@, l),
                ),
    {
        proof {
            use_type_invariant(self);
        }
        let ghost s0 = state@;
        let m = self.params.m as usize;
        let mut t: usize = 0;
        while t < m
            invariant
                m == self.params.m,
                3 * m <= 128,
                t <= m,
                s0.len() == 128,
                forall|j: int, l: int|
                    0 <= j < 3 * t && 0 <= l < 64 ==> #[trigger] bit_u64(state@[j], l) == sbox_bit(
                        lane(s0, l),
                        j,
                    ),
                forall|j: int| 3 * t <= j < 128 ==> #[trigger] state@[j] == s0[j],
            decreases m - t,
        {
            let a = state[3 * t];
            let b = state[3 * t + 1];
            let c = state[3 * t + 2];
            proof {
                lemma_sbox_lanes(a, b, c);
                assert forall|l: int| 0 <= l < 64 implies lane(s0, l)[3 * t as int] == bit_u64(a, l)
                    && lane(s0, l)[3 * t + 1] == bit_u64(b, l) && lane(s0, l)[3 * t + 2]
                    == bit_u64(c, l) by {}
            }
            state[3 * t] = a ^ !(!b & !c);
            state[3 * t + 1] = b ^ (!a & c);
            state[3 * t + 2] = c ^ (a & b);
            t = t + 1;
        }
        assert forall|l: int| 0 <= l < 64 implies #[trigger] lane(state@, l) == sbox_layer(
            self.params.m as int,
            lane(s0, l),
        ) by {
            assert(lane(state@, l) =~= sbox_layer(self.params.m as int, lane(s0, l)));
        }
    }

    /// Xor the round constant of round `r` into every lane.
    fn add_rc_lanes(&self, state: &mut [u64; 128], r: usize)
        requires
            r < ROUNDS,
        ensures
            forall|l: int|
                0 <= l < 64 ==> #[trigger] lane(final(state)@, l) == xor_bits(
                    lane(old(state)@, l),
                    round_constant(self.instance(), r as int),
                ),
    {
        let ghost s0 = state@;
        let ghost rc = round_constant(self.params, r as int);
        let r1 = self.params.rc[2 * r];
        let r2 = self.params.rc[2 * r + 1];
        let mut i: usize = 0;
        while i < 128
            invariant
                i <= 128,
                r < ROUNDS,
                s0.len() == 128,
                rc == round_constant(self.params, r as int),
                r1 == self.params.rc[2 * r],
                r2 == self.params.rc[2 * r + 1],
                forall|j: int, l: int|
                    0 <= j < i && 0 <= l < 64 ==> #[trigger] bit_u64(state@[j], l) == (bit_u64(
                        s0[j],
                        l,
                    ) != rc[j]),
                forall|j: int| i <= j < 128 ==> #[trigger] state@[j] == s0[j],
            decreases 128 - i,
        {
            let bit = if i < 64 {
                (r1 >> (i as u64)) & 1 == 1
            } else {
                (r2 >> ((i - 64) as u64)) & 1 == 1
            };
            assert(bit == rc[i as int]);
            let e = expand_u64(bit);
            proof {
                lemma_xor_and_lanes(state@[i as int], e, bit);
            }
            state[i] = state[i] ^ e;
            i = i + 1;
        }
        assert forall|l: int| 0 <= l < 64 implies #[trigger] lane(state@, l) == xor_bits(
            lane(s0, l),
            rc,
        ) by {
            assert(lane(state@, l) =~= xor_bits(lane(s0, l), rc));
        }
    }

    /// Round key `r` of `key`, in every lane.
    fn key_schedule_u64_packed(&self, key: &[u64; 2], r: usize) -> (rk: [u64; 128])
        requires
            r <= ROUNDS,
        ensures
            forall|l: int|
                0 <= l < 64 ==> #[trigger] lane(rk@, l) == round_key(
                    self.instance(),
                    words_to_bits(key[0], key[1]),
                    r as int,
                ),
    {
        let ghost k = words_to_bits(key[0], key[1]);
        let mut rk = [0u64; 128];
        let mut row: usize = 0;
        while row < 128
            invariant
                row <= 128,
                r <= ROUNDS,
                k == words_to_bits(key[0], key[1]),
                forall|j: int, l: int|
                    0 <= j < row && 0 <= l < 64 ==> #[trigger] bit_u64(rk@[j], l) == row_parity(
                        self.params.k[r as int]@,
                        j,
                        k,
                        128,
                    ),
            decreases 128 - row,
        {
            let res = row_parity_u64(&self.params.k[r], row, key[0], key[1]);
            proof {
                lemma_xor_and_lanes(0u64, 0u64, res);
            }
            rk[row] = expand_u64(res);
            row = row + 1;
        }
        assert forall|l: int| 0 <= l < 64 implies #[trigger] lane(rk@, l) == round_key(
            self.params,
            k,
            r as int,
        ) by {
            assert(lane(rk@, l) =~= round_key(self.params, k, r as int));
        }
        rk
    }

    /// The linear layer of round `r` on every lane.
    fn linear_layer_lanes(&self, state: &mut [u64; 128], r: usize)
        requires
            r < ROUNDS,
        ensures
            forall|l: int|
                0 <= l < 64 ==> #[trigger] lane(final(state)@, l) == mat_vec(
                    self.instance().l[r as int]@,
                    lane(old(state)@, l),
                ),
    {
        let tmp = matrix_times_lanes(&self.params.l[r], state);
        *state = tmp;
    }

    /// The keys xored into every lane: index 0 is the whitening key, index
    /// `r + 1` the key that ends round `r`.
    fn packed_round_keys(&self, key: &[u64; 2]) -> (rks: Vec<[u64; 128]>)
        ensures
            rks@.len() == ROUNDS + 1,
            forall|r: int, l: int|
                0 <= r <= ROUNDS && 0 <= l < 64 ==> #[trigger] lane(rks@[r]@, l) == combined_key(
                    self.instance(),
                    words_to_bits(key[0], key[1]),
                    r,
                ),
    {
        let ghost k = words_to_bits(key[0], key[1]);
        let mut rks: Vec<[u64; 128]> = Vec::new();
        rks.push(self.key_schedule_u64_packed(key, 0));
        let mut r: usize = 0;
        while r < ROUNDS
            invariant
                r <= ROUNDS,
                k == words_to_bits(key[0], key[1]),
                rks@.len() == r + 1,
                forall|q: int, l: int|
                    0 <= q <= r && 0 <= l < 64 ==> #[trigger] lane(rks@[q]@, l) == combined_key(
                        self.params,
                        k,
                        q,
                    ),
            decreases ROUNDS - r,
        {
            let mut rk = self.key_schedule_u64_packed(key, r + 1);
            self.add_rc_lanes(&mut rk, r);
            rks.push(rk);
            r = r + 1;
        }
        rks
    }

    /// Encrypt all 64 lanes of a bit-sliced state in place.
    fn encrypt_lanes(&self, state: &mut [u64; 128], rks: &Vec<[u64; 128]>, key: &[u64; 2])
        requires
            rks@.len() == ROUNDS + 1,
            forall|r: int, l: int|
                0 <= r <= ROUNDS && 0 <= l < 64 ==> #[trigger] lane(rks@[r]@, l) == combined_key(
                    self.instance(),
                    words_to_bits(key[0], key[1]),
                    r,
                ),
        ensures
            forall|l: int|
                0 <= l < 64 ==> #[trigger] lane(final(state)@, l) == lowmc_encrypt(
                    self.instance(),
                    lane(old(state)@, l),
                    words_to_bits(key[0], key[1]),
                ),
    {
        reveal(lowmc_encrypt);
        let ghost k = words_to_bits(key[0], key[1]);
        let ghost s0 = state@;
        add_lanes(state, &rks[0]);
        proof {
            assert forall|l: int| 0 <= l < 64 implies #[trigger] lane(state@, l) == lowmc_rounds(
                self.params,
                k,
                xor_bits(lane(s0, l), round_key(self.params, k, 0)),
                0,
            ) by {
                assert(lane(rks@[0]@, l) == combined_key(self.params, k, 0));
            }
        }
        let mut r: usize = 0;
        while r < ROUNDS
            invariant
                r <= ROUNDS,
                k == words_to_bits(key[0], key[1]),
                rks@.len() == ROUNDS + 1,
                forall|q: int, l: int|
                    0 <= q <= ROUNDS && 0 <= l < 64 ==> #[trigger] lane(rks@[q]@, l)
                        == combined_key(self.params, k, q),
                forall|l: int|
                    0 <= l < 64 ==> #[trigger] lane(state@, l) == lowmc_rounds(
                        self.params,
                        k,
                        xor_bits(lane(s0, l), round_key(self.params, k, 0)),
                        r as nat,
                    ),
            decreases ROUNDS - r,
        {
            let ghost prev = state@;
            self.sbox_lanes(state);
            self.linear_layer_lanes(state, r);
            add_lanes(state, &rks[r + 1]);
            proof {
                assert forall|l: int| 0 <= l < 64 implies #[trigger] lane(state@, l) == lowmc_rounds(
                    self.params,
                    k,
                    xor_bits(lane(s0, l), round_key(self.params, k, 0)),
                    (r + 1) as nat,
                ) by {
                    assert(lane(rks@[r + 1]@, l) == combined_key(self.params, k, r + 1));
                    assert(lane(prev, l) == lowmc_rounds(
                        self.params,
                        k,
                        xor_bits(lane(s0, l), round_key(self.params, k, 0)),
                        r as nat,
                    ));
                }
            }
            r = r + 1;
        }
    }

    /// Encrypt up to 64 blocks in the lanes of one bit-sliced state.
    fn packed_encrypt_chunk_u128(&self, chunk: &[u128], rks: &Vec<[u64; 128]>, key: &[u64; 2]) -> (res: Vec<u128>)
        requires
            chunk@.len() <= 64,
            rks@.len() == ROUNDS + 1,
            forall|r: int, l: int|
                0 <= r <= ROUNDS && 0 <= l < 64 ==> #[trigger] lane(rks@[r]@, l) == combined_key(
                    self.instance(),
                    words_to_bits(key[0], key[1]),
                    r,
                ),
        ensures
            res@.len() == chunk@.len(),
            forall|i: int|
                0 <= i < chunk@.len() ==> #[trigger] u128_to_bit_seq(res@[i]) == lowmc_encrypt(
                    self.instance(),
                    u128_to_bit_seq(chunk@[i]),
                    words_to_bits(key[0], key[1]),
                ),
    {
        let mut state = transpose_input_u128(chunk);
        let ghost s0 = state@;
        proof {
            assert forall|l: int| 0 <= l < chunk@.len() implies #[trigger] lane(s0, l)
                == u128_to_bit_seq(chunk@[l]) by {
                assert(lane(s0, l) =~= u128_to_bit_seq(chunk@[l]));
            }
        }
        self.encrypt_lanes(&mut state, rks, key);
        let res = transpose_output(&state, chunk.len());
        assert forall|i: int| 0 <= i < chunk@.len() implies #[trigger] u128_to_bit_seq(res@[i])
            == lowmc_encrypt(self.params, u128_to_bit_seq(chunk@[i]), words_to_bits(key[0], key[1])) by {
            assert(lane(s0, i) == u128_to_bit_seq(chunk@[i]));
        }
        res
    }

    /// Encrypt up to 64 blocks given by their low words in the lanes of one
    /// bit-sliced state.
    fn packed_encrypt_chunk_u64(&self, chunk: &[u64], rks: &Vec<[u64; 128]>, key: &[u64; 2]) -> (res: Vec<u128>)
        requires
            chunk@.len() <= 64,
            rks@.len() == ROUNDS + 1,
            forall|r: int, l: int|
                0 <= r <= ROUNDS && 0 <= l < 64 ==> #[trigger] lane(rks@[r]@, l) == combined_key(
                    self.instance(),
                    words_to_bits(key[0], key[1]),
                    r,
                ),
        ensures
            res@.len() == chunk@.len(),
            forall|i: int|
                0 <= i < chunk@.len() ==> #[trigger] u128_to_bit_seq(res@[i]) == lowmc_encrypt(
                    self.instance(),
                    words_to_bits(chunk@[i], 0),
                    words_to_bits(key[0], key[1]),
                ),
    {
        let mut state = transpose_input_u64(chunk);
        let ghost s0 = state@;
        proof {
            lemma_zero_u64();
            assert forall|l: int| 0 <= l < chunk@.len() implies #[trigger] lane(s0, l)
                == words_to_bits(chunk@[l], 0) by {
                assert(lane(s0, l) =~= words_to_bits(chunk@[l], 0));
            }
        }
        self.encrypt_lanes(&mut state, rks, key);
        let res = transpose_output(&state, chunk.len());
        assert forall|i: int| 0 <= i < chunk@.len() implies #[trigger] u128_to_bit_seq(res@[i])
            == lowmc_encrypt(self.params, words_to_bits(chunk@[i], 0), words_to_bits(key[0], key[1])) by {
            assert(lane(s0, i) == words_to_bits(chunk@[i], 0));
        }
        res
    }

    /// Encrypt each block of `inputs` under the key `(key[0], key[1])`,
    /// 64 blocks at a time in the lanes of a bit-sliced state.
    pub fn packed_encrypt_u128(&self, inputs: &[u128], key: &[u64; 2]) -> (out: Vec<u128>)
        ensures
            out@.len() == inputs@.len(),
            forall|i: int|
                0 <= i < inputs@.len() ==> #[trigger] u128_to_bit_seq(out@[i]) == lowmc_encrypt(
                    self.instance(),
                    u128_to_bit_seq(inputs@[i]),
                    words_to_bits(key[0], key[1]),
                ),
    {
        let rks = self.packed_round_keys(key);
        let mut out: Vec<u128> = Vec::new();
        let mut start: usize = 0;
        while start < inputs.len()
            invariant
                start <= inputs@.len(),
                out@.len() == start,
                rks@.len() == ROUNDS + 1,
                forall|r: int, l: int|
                    0 <= r <= ROUNDS && 0 <= l < 64 ==> #[trigger] lane(rks@[r]@, l)
                        == combined_key(self.params, words_to_bits(key[0], key[1]), r),
                forall|i: int|
                    0 <= i < start ==> #[trigger] u128_to_bit_seq(out@[i]) == lowmc_encrypt(
                        self.params,
                        u128_to_bit_seq(inputs@[i]),
                        words_to_bits(key[0], key[1]),
                    ),
            decreases inputs@.len() - start,
        {
            let end = if inputs.len() - start < 64 {
                inputs.len()
            } else {
                start + 64
            };
            let chunk = slice_subrange(inputs, start, end);
            let mut res = self.packed_encrypt_chunk_u128(chunk, &rks, key);
            let ghost prev = out@;
            out.append(&mut res);
            assert forall|i: int| 0 <= i < end implies #[trigger] u128_to_bit_seq(out@[i])
                == lowmc_encrypt(self.params, u128_to_bit_seq(inputs@[i]), words_to_bits(key[0], key[1])) by {
                if i >= start {
                    assert(chunk@[i - start] == inputs@[i]);
                } else {
                    assert(out@[i] == prev[i]);
                }
            }
            start = end;
        }
        out
    }

    /// Encrypt each block whose low 64 bits are an entry of `inputs` (the
    /// high bits are zero) under the key `(key[0], key[1])`, 64 blocks at a
    /// time in the lanes of a bit-sliced state.
    pub fn packed_encrypt_u64(&self, inputs: &[u64], key: &[u64; 2]) -> (out: Vec<u128>)
        ensures
            out@.len() == inputs@.len(),
            forall|i: int|
                0 <= i < inputs@.len() ==> #[trigger] u128_to_bit_seq(out@[i]) == lowmc_encrypt(
                    self.instance(),
                    words_to_bits(inputs@[i], 0),
                    words_to_bits(key[0], key[1]),
                ),
    {
        let rks = self.packed_round_keys(key);
        let mut out: Vec<u128> = Vec::new();
        let mut start: usize = 0;
        while start < inputs.len()
            invariant
                start <= inputs@.len(),
                out@.len() == start,
                rks@.len() == ROUNDS + 1,
                forall|r: int, l: int|
                    0 <= r <= ROUNDS && 0 <= l < 64 ==> #[trigger] lane(rks@[r]@, l)
                        == combined_key(self.params, words_to_bits(key[0], key[1]), r),
                forall|i: int|
                    0 <= i < start ==> #[trigger] u128_to_bit_seq(out@[i]) == lowmc_encrypt(
                        self.params,
                        words_to_bits(inputs@[i], 0),
                        words_to_bits(key[0], key[1]),
                    ),
            decreases inputs@.len() - start,
        {
            let end = if inputs.len() - start < 64 {
                inputs.len()
            } else {
                start + 64
            };
            let chunk = slice_subrange(inputs, start, end);
            let mut res = self.packed_encrypt_chunk_u64(chunk, &rks, key);
            let ghost prev = out@;
            out.append(&mut res);
            assert forall|i: int| 0 <= i < end implies #[trigger] u128_to_bit_seq(out@[i])
                == lowmc_encrypt(self.params, words_to_bits(inputs@[i], 0), words_to_bits(key[0], key[1])) by {
                if i >= start {
                    assert(chunk@[i - start] == inputs@[i]);
                } else {
                    assert(out@[i] == prev[i]);
                }
            }
            start = end;
        }
        out
    }
}

impl Default for LowMC {
    fn default() -> (c: LowMC)
        ensures
            c.instance() == LowMcInstance::spec_standard(),
    {
        LowMC::new()
    }
}

} // verus!
