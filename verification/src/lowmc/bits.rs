//! Mathematical model of the bit-level LowMC round functions.
//!
//! A 128-bit LowMC state is modelled as a `Seq<bool>` whose index 0 is the
//! least significant bit. A binary matrix is stored row by row, two `u64`
//! words per row (columns 0..64 in the first word, 64..128 in the second).
use vstd::prelude::*;

verus! {

/// Bit `i` of a 64-bit word.
pub open spec fn bit_u64(x: u64, i: int) -> bool {
    (x >> (i as u64)) & 1u64 == 1u64
}

/// Bit `i` of a 128-bit word.
pub open spec fn bit_u128(x: u128, i: int) -> bool {
    (x >> (i as u128)) & 1u128 == 1u128
}

/// Entry `(row, col)` of a 128x128 binary matrix stored as 256 words.
pub open spec fn matrix_entry(mat: Seq<u64>, row: int, col: int) -> bool {
    if col < 64 {
        bit_u64(mat[2 * row], col)
    } else {
        bit_u64(mat[2 * row + 1], col - 64)
    }
}

/// Parity of the first `n` products `v[col] & mat[row][col]`.
pub open spec fn row_parity(mat: Seq<u64>, row: int, v: Seq<bool>, n: nat) -> bool
    decreases n,
{
    if n == 0 {
        false
    } else {
        row_parity(mat, row, v, (n - 1) as nat) != (v[n - 1] && matrix_entry(mat, row, n - 1))
    }
}

/// Matrix-vector product over GF(2).
pub open spec fn mat_vec(mat: Seq<u64>, v: Seq<bool>) -> Seq<bool> {
    Seq::new(128, |row: int| row_parity(mat, row, v, 128))
}

/// Output bit `i` of the 3-bit S-box layer: the S-box takes the triple
/// `(a, b, c)` starting at `i - i % 3` (with `a` the lowest bit).
pub open spec fn sbox_bit(s: Seq<bool>, i: int) -> bool {
    let base = i - i % 3;
    let a = s[base];
    let b = s[base + 1];
    let c = s[base + 2];
    if i % 3 == 0 {
        a != (b || c)
    } else if i % 3 == 1 {
        b != (!a && c)
    } else {
        c != (a && b)
    }
}

/// The S-box layer: the lowest `3 * m` bits pass through `m` S-boxes, the
/// rest are left unchanged.
pub open spec fn sbox_layer(m: int, s: Seq<bool>) -> Seq<bool> {
    Seq::new(s.len(), |i: int| if i < 3 * m { sbox_bit(s, i) } else { s[i] })
}

/// Bitwise xor of two bit sequences.
pub open spec fn xor_bits(a: Seq<bool>, b: Seq<bool>) -> Seq<bool> {
    Seq::new(a.len(), |i: int| a[i] != b[i])
}

/// The 128 bits of the word pair `(lo, hi)`.
pub open spec fn words_to_bits(lo: u64, hi: u64) -> Seq<bool> {
    Seq::new(128, |i: int| if i < 64 { bit_u64(lo, i) } else { bit_u64(hi, i - 64) })
}

/// The 128 bits of a 128-bit word.
pub open spec fn u128_to_bit_seq(x: u128) -> Seq<bool> {
    Seq::new(128, |i: int| bit_u128(x, i))
}


/// Bitwise operators act bit by bit on 64-bit words.
pub proof fn lemma_bit_ops_u64(a: u64, b: u64, i: int)
    requires
        0 <= i < 64,
    ensures
        bit_u64(a ^ b, i) == (bit_u64(a, i) != bit_u64(b, i)),
        bit_u64(a & b, i) == (bit_u64(a, i) && bit_u64(b, i)),
        bit_u64(a | b, i) == (bit_u64(a, i) || bit_u64(b, i)),
        bit_u64(!a, i) == !bit_u64(a, i),
{
    let j = i as u64;
    assert((((a ^ b) >> j) & 1u64 == 1u64) == (((a >> j) & 1u64 == 1u64) != ((b >> j) & 1u64 == 1u64))
        && (((a & b) >> j) & 1u64 == 1u64) == (((a >> j) & 1u64 == 1u64) && ((b >> j) & 1u64 == 1u64))
        && (((a | b) >> j) & 1u64 == 1u64) == (((a >> j) & 1u64 == 1u64) || ((b >> j) & 1u64 == 1u64))
        && (((!a) >> j) & 1u64 == 1u64) == !((a >> j) & 1u64 == 1u64)) by (bit_vector)
        requires
            j < 64,
    ;
}

/// The all-ones and all-zeros words.
pub proof fn lemma_expand_u64(i: int)
    requires
        0 <= i < 64,
    ensures
        bit_u64(u64::MAX, i),
        !bit_u64(0u64, i),
{
    let j = i as u64;
    assert(((u64::MAX >> j) & 1u64 == 1u64) && !((0u64 >> j) & 1u64 == 1u64)) by (bit_vector)
        requires
            j < 64,
    ;
}

/// Joining two words into a 128-bit word keeps the bits in place.
pub proof fn lemma_join_words(lo: u64, hi: u64)
    ensures
        u128_to_bit_seq(lo as u128 | (hi as u128) << 64u128) == words_to_bits(lo, hi),
{
    let x = lo as u128 | (hi as u128) << 64u128;
    assert forall|i: int| 0 <= i < 128 implies #[trigger] u128_to_bit_seq(x)[i] == words_to_bits(lo, hi)[i] by {
        let j = i as u128;
        if i < 64 {
            let k = i as u64;
            assert(((x >> j) & 1u128 == 1u128) == ((lo >> k) & 1u64 == 1u64)) by (bit_vector)
                requires
                    x == lo as u128 | (hi as u128) << 64u128,
                    j < 64,
                    k == j,
            ;
        } else {
            let k = (i - 64) as u64;
            assert(((x >> j) & 1u128 == 1u128) == ((hi >> k) & 1u64 == 1u64)) by (bit_vector)
                requires
                    x == lo as u128 | (hi as u128) << 64u128,
                    64 <= j < 128,
                    k == j - 64,
            ;
        }
    }
    assert(u128_to_bit_seq(x) =~= words_to_bits(lo, hi));
}

/// Splitting a 128-bit word into two words keeps the bits in place.
pub proof fn lemma_split_word(x: u128)
    ensures
        words_to_bits(x as u64, (x >> 64u128) as u64) == u128_to_bit_seq(x),
        (x as u64) as u128 | (((x >> 64u128) as u64) as u128) << 64u128 == x,
{
    let lo = x as u64;
    let hi = (x >> 64u128) as u64;
    assert(lo as u128 | (hi as u128) << 64u128 == x) by (bit_vector)
        requires
            lo == x as u64,
            hi == (x >> 64u128) as u64,
    ;
    lemma_join_words(lo, hi);
}

/// Number of set bits among the lowest `n` bits of `x`.
pub open spec fn ones_below(x: u64, n: nat) -> nat
    decreases n,
{
    if n == 0 {
        0
    } else {
        ones_below(x, (n - 1) as nat) + if bit_u64(x, n - 1) {
            1nat
        } else {
            0nat
        }
    }
}

/// Parity of the lowest `n` bits of `x`.
pub open spec fn parity_below(x: u64, n: nat) -> bool
    decreases n,
{
    if n == 0 {
        false
    } else {
        parity_below(x, (n - 1) as nat) != bit_u64(x, n - 1)
    }
}

pub proof fn lemma_ones_parity(x: u64, n: nat)
    ensures
        (ones_below(x, n) % 2 == 1) == parity_below(x, n),
    decreases n,
{
    if n > 0 {
        lemma_ones_parity(x, (n - 1) as nat);
    }
}

pub proof fn lemma_parity_xor(a: u64, b: u64, n: nat)
    requires
        n <= 64,
    ensures
        parity_below(a ^ b, n) == (parity_below(a, n) != parity_below(b, n)),
    decreases n,
{
    if n > 0 {
        lemma_parity_xor(a, b, (n - 1) as nat);
        lemma_bit_ops_u64(a, b, n - 1);
    }
}

/// A row of a matrix times the bits of `(v0, v1)` is the parity of the row
/// words masked with the vector words.
pub proof fn lemma_row_parity_words(mat: Seq<u64>, row: int, v0: u64, v1: u64, n: nat)
    requires
        n <= 128,
    ensures
        n <= 64 ==> row_parity(mat, row, words_to_bits(v0, v1), n) == parity_below(
            v0 & mat[2 * row],
            n,
        ),
        n > 64 ==> row_parity(mat, row, words_to_bits(v0, v1), n) == (parity_below(
            v0 & mat[2 * row],
            64,
        ) != parity_below(v1 & mat[2 * row + 1], (n - 64) as nat)),
    decreases n,
{
    if n > 0 {
        lemma_row_parity_words(mat, row, v0, v1, (n - 1) as nat);
        if n <= 64 {
            lemma_bit_ops_u64(v0, mat[2 * row], n - 1);
        } else {
            lemma_bit_ops_u64(v1, mat[2 * row + 1], n - 65);
            let y = v1 & mat[2 * row + 1];
            assert(parity_below(y, (n - 64) as nat) == (parity_below(y, (n - 65) as nat) != bit_u64(
                y,
                n - 65,
            )));
            assert(words_to_bits(v0, v1)[n - 1] == bit_u64(v1, n - 65));
            assert(matrix_entry(mat, row, n - 1) == bit_u64(mat[2 * row + 1], n - 65));
            if n == 65 {
                assert(parity_below(y, 0) == false);
            }
        }
    }
}


/// The S-box layer on a 128-bit word: the triples `(a, b, c)` starting at
/// multiples of three are rotated twice to line up `c, a, b` and `b, c, a`,
/// and the bits selected by `mask` are replaced by the S-box outputs.
pub open spec fn sbox_word(abc: u128, mask: u128) -> u128 {
    let cab = ((abc << 1u128) & 0xb6db6db6db6db6db6db6db6db6db6db6u128) | ((abc >> 2u128)
        & 0x49249249249249249249249249249249u128);
    let bca = ((cab << 1u128) & 0xb6db6db6db6db6db6db6db6db6db6db6u128) | ((cab >> 2u128)
        & 0x49249249249249249249249249249249u128);
    let res1 = (abc ^ cab ^ bca ^ (bca & cab)) & 0x49249249249249249249249249249249u128 & mask;
    let res2 = (abc ^ bca ^ (bca & cab)) & 0x92492492492492492492492492492492u128 & mask;
    let res3 = (abc ^ (bca & cab)) & 0x24924924924924924924924924924924u128 & mask;
    res1 | res2 | res3 | (abc & !mask)
}

proof fn lemma_sbox_word_triple(abc: u128, mask: u128, t: u128)
    by (bit_vector)
    requires
        t < 42,
        (mask >> (3 * t)) & 1u128 == 1u128,
        (mask >> (3 * t + 1)) & 1u128 == 1u128,
        (mask >> (3 * t + 2)) & 1u128 == 1u128,
    ensures
        ((sbox_word(abc, mask) >> (3 * t)) & 1u128 == 1u128) == (((abc >> (3 * t)) & 1u128
            == 1u128) != (((abc >> (3 * t + 1)) & 1u128 == 1u128) || ((abc >> (3 * t + 2))
            & 1u128 == 1u128))),
        ((sbox_word(abc, mask) >> (3 * t + 1)) & 1u128 == 1u128) == (((abc >> (3 * t + 1))
            & 1u128 == 1u128) != (!((abc >> (3 * t)) & 1u128 == 1u128) && ((abc >> (3 * t + 2))
            & 1u128 == 1u128))),
        ((sbox_word(abc, mask) >> (3 * t + 2)) & 1u128 == 1u128) == (((abc >> (3 * t + 2))
            & 1u128 == 1u128) != (((abc >> (3 * t)) & 1u128 == 1u128) && ((abc >> (3 * t + 1))
            & 1u128 == 1u128))),
{
}

proof fn lemma_sbox_word_outside(abc: u128, mask: u128, i: u128)
    by (bit_vector)
    requires
        i < 128,
        (mask >> i) & 1u128 != 1u128,
    ensures
        (sbox_word(abc, mask) >> i) & 1u128 == (abc >> i) & 1u128,
{
}

proof fn lemma_low_mask(k: u32, i: u128)
    by (bit_vector)
    requires
        0 < k <= 128,
        i < 128,
    ensures
        ((u128::MAX >> ((128 - k) as u128)) >> i) & 1u128 == 1u128 <==> i < k,
{
}

/// With the mask of the lowest `3 * m` bits, `sbox_word` is the S-box layer.
pub proof fn lemma_sbox_word(abc: u128, m: int)
    requires
        1 <= m,
        3 * m <= 128,
    ensures
        u128_to_bit_seq(sbox_word(abc, u128::MAX >> ((128 - 3 * m) as u128))) == sbox_layer(
            m,
            u128_to_bit_seq(abc),
        ),
{
    let mask = u128::MAX >> ((128 - 3 * m) as u128);
    let k = (3 * m) as u32;
    let s = u128_to_bit_seq(abc);
    assert forall|i: int| 0 <= i < 128 implies #[trigger] u128_to_bit_seq(sbox_word(abc, mask))[i]
        == sbox_layer(m, s)[i] by {
        lemma_low_mask(k, i as u128);
        if i < 3 * m {
            let t = i / 3;
            let c = i % 3;
            lemma_low_mask(k, (3 * t) as u128);
            lemma_low_mask(k, (3 * t + 1) as u128);
            lemma_low_mask(k, (3 * t + 2) as u128);
            lemma_sbox_word_triple(abc, mask, t as u128);
            assert(i - i % 3 == 3 * t);
        } else {
            lemma_sbox_word_outside(abc, mask, i as u128);
        }
    }
    assert(u128_to_bit_seq(sbox_word(abc, mask)) =~= sbox_layer(m, s));
}


/// Xor of word pairs is the xor of their bits.
pub proof fn lemma_xor_words(a0: u64, a1: u64, b0: u64, b1: u64)
    ensures
        words_to_bits(a0 ^ b0, a1 ^ b1) == xor_bits(words_to_bits(a0, a1), words_to_bits(b0, b1)),
{
    assert forall|i: int| 0 <= i < 128 implies #[trigger] words_to_bits(a0 ^ b0, a1 ^ b1)[i]
        == xor_bits(words_to_bits(a0, a1), words_to_bits(b0, b1))[i] by {
        if i < 64 {
            lemma_bit_ops_u64(a0, b0, i);
        } else {
            lemma_bit_ops_u64(a1, b1, i - 64);
        }
    }
    assert(words_to_bits(a0 ^ b0, a1 ^ b1) =~= xor_bits(words_to_bits(a0, a1), words_to_bits(b0, b1)));
}

/// Setting bit `b` of a word whose bits from `b` on are clear.
pub proof fn lemma_set_bit_u64(w: u64, b: u64)
    requires
        b < 64,
    ensures
        forall|i: int| 0 <= i < 64 ==> #[trigger] bit_u64(w | (1u64 << b), i) == (i == b || bit_u64(w, i)),
{
    assert forall|i: int| 0 <= i < 64 implies #[trigger] bit_u64(w | (1u64 << b), i) == (i == b
        || bit_u64(w, i)) by {
        let j = i as u64;
        assert((((w | (1u64 << b)) >> j) & 1u64 == 1u64) == (j == b || ((w >> j) & 1u64 == 1u64)))
            by (bit_vector)
            requires
                b < 64,
                j < 64,
        ;
    }
}

/// The zero word has no bit set.
pub proof fn lemma_zero_u64()
    ensures
        forall|i: int| 0 <= i < 64 ==> !#[trigger] bit_u64(0u64, i),
{
    assert forall|i: int| 0 <= i < 64 implies !#[trigger] bit_u64(0u64, i) by {
        lemma_expand_u64(i);
    }
}


/// Lane `l` of a bit-sliced state: bit `l` of each of its words.
pub open spec fn lane(state: Seq<u64>, l: int) -> Seq<bool> {
    Seq::new(state.len(), |j: int| bit_u64(state[j], l))
}

/// The S-box formulas act lane by lane on words.
pub proof fn lemma_sbox_lanes(a: u64, b: u64, c: u64)
    ensures
        forall|l: int|
            0 <= l < 64 ==> #[trigger] bit_u64(a ^ !(!b & !c), l) == (bit_u64(a, l) != (bit_u64(
                b,
                l,
            ) || bit_u64(c, l))),
        forall|l: int|
            0 <= l < 64 ==> #[trigger] bit_u64(b ^ (!a & c), l) == (bit_u64(b, l) != (!bit_u64(
                a,
                l,
            ) && bit_u64(c, l))),
        forall|l: int|
            0 <= l < 64 ==> #[trigger] bit_u64(c ^ (a & b), l) == (bit_u64(c, l) != (bit_u64(a, l)
                && bit_u64(b, l))),
{
    assert forall|l: int| 0 <= l < 64 implies #[trigger] bit_u64(a ^ !(!b & !c), l) == (bit_u64(
        a,
        l,
    ) != (bit_u64(b, l) || bit_u64(c, l))) by {
        let j = l as u64;
        assert((((a ^ !(!b & !c)) >> j) & 1u64 == 1u64) == (((a >> j) & 1u64 == 1u64) != (((b
            >> j) & 1u64 == 1u64) || ((c >> j) & 1u64 == 1u64)))) by (bit_vector)
            requires
                j < 64,
        ;
    }
    assert forall|l: int| 0 <= l < 64 implies #[trigger] bit_u64(b ^ (!a & c), l) == (bit_u64(
        b,
        l,
    ) != (!bit_u64(a, l) && bit_u64(c, l))) by {
        let j = l as u64;
        assert((((b ^ (!a & c)) >> j) & 1u64 == 1u64) == (((b >> j) & 1u64 == 1u64) != (!((a
            >> j) & 1u64 == 1u64) && ((c >> j) & 1u64 == 1u64)))) by (bit_vector)
            requires
                j < 64,
        ;
    }
    assert forall|l: int| 0 <= l < 64 implies #[trigger] bit_u64(c ^ (a & b), l) == (bit_u64(
        c,
        l,
    ) != (bit_u64(a, l) && bit_u64(b, l))) by {
        lemma_bit_ops_u64(c, a & b, l);
        lemma_bit_ops_u64(a, b, l);
    }
}

/// A bit copied into all 64 lanes of a word.
pub open spec fn expand(e: bool) -> u64 {
    if e {
        u64::MAX
    } else {
        0u64
    }
}

/// Xor and masking with an expanded bit act lane by lane.
pub proof fn lemma_xor_and_lanes(acc: u64, v: u64, e: bool)
    ensures
        forall|l: int|
            0 <= l < 64 ==> #[trigger] bit_u64(acc ^ (v & expand(e)), l) == (bit_u64(acc, l) != (
            bit_u64(v, l) && e)),
        forall|l: int|
            0 <= l < 64 ==> #[trigger] bit_u64(acc ^ v, l) == (bit_u64(acc, l) != bit_u64(v, l)),
        forall|l: int| 0 <= l < 64 ==> #[trigger] bit_u64(expand(e), l) == e,
{
    let x = expand(e);
    assert forall|l: int| 0 <= l < 64 implies #[trigger] bit_u64(x, l) == e by {
        lemma_expand_u64(l);
    }
    assert forall|l: int| 0 <= l < 64 implies #[trigger] bit_u64(acc ^ (v & x), l) == (bit_u64(
        acc,
        l,
    ) != (bit_u64(v, l) && e)) by {
        lemma_bit_ops_u64(acc, v & x, l);
        lemma_bit_ops_u64(v, x, l);
        lemma_expand_u64(l);
    }
    assert forall|l: int| 0 <= l < 64 implies #[trigger] bit_u64(acc ^ v, l) == (bit_u64(acc, l)
        != bit_u64(v, l)) by {
        lemma_bit_ops_u64(acc, v, l);
    }
}


/// Setting bit `b` of a 128-bit word.
pub proof fn lemma_set_bit_u128(w: u128, b: u128)
    requires
        b < 128,
    ensures
        forall|i: int|
            0 <= i < 128 ==> #[trigger] bit_u128(w | (1u128 << b), i) == (i == b || bit_u128(w, i)),
{
    assert forall|i: int| 0 <= i < 128 implies #[trigger] bit_u128(w | (1u128 << b), i) == (i == b
        || bit_u128(w, i)) by {
        let j = i as u128;
        assert((((w | (1u128 << b)) >> j) & 1u128 == 1u128) == (j == b || ((w >> j) & 1u128
            == 1u128))) by (bit_vector)
            requires
                b < 128,
                j < 128,
        ;
    }
}

/// The zero 128-bit word has no bit set.
pub proof fn lemma_zero_u128()
    ensures
        forall|i: int| 0 <= i < 128 ==> !#[trigger] bit_u128(0u128, i),
{
    assert forall|i: int| 0 <= i < 128 implies !#[trigger] bit_u128(0u128, i) by {
        let j = i as u128;
        assert(!((0u128 >> j) & 1u128 == 1u128)) by (bit_vector);
    }
}


/// A 64-bit block is the 128-bit block with the same value: its high word
/// is zero.
pub proof fn lemma_u64_block_is_zero_extended(x: u64)
    ensures
        words_to_bits(x, 0) == u128_to_bit_seq(x as u128),
{
    lemma_join_words(x, 0);
    assert(x as u128 | (0u64 as u128) << 64u128 == x as u128) by (bit_vector);
}


proof fn lemma_shift_step(x: u128, k: u128)
    by (bit_vector)
    requires
        k < 128,
    ensures
        x >> k == ((x >> (k + 1)) << 1u128) | ((x >> k) & 1u128),
{
}

proof fn lemma_high_bits_agree(a: u128, b: u128, k: int)
    requires
        0 <= k <= 128,
        forall|i: int| k <= i < 128 ==> bit_u128(a, i) == bit_u128(b, i),
    ensures
        a >> (k as u128) == b >> (k as u128),
    decreases 128 - k,
{
    if k == 128 {
        assert(a >> 128u128 == 0u128 && b >> 128u128 == 0u128) by (bit_vector);
    } else {
        lemma_high_bits_agree(a, b, k + 1);
        let j = k as u128;
        lemma_shift_step(a, j);
        lemma_shift_step(b, j);
        assert(bit_u128(a, k) == bit_u128(b, k));
        assert(((a >> j) & 1u128 == 1u128) == ((b >> j) & 1u128 == 1u128));
        assert((a >> j) & 1u128 == (b >> j) & 1u128) by (bit_vector)
            requires
                ((a >> j) & 1u128 == 1u128) == ((b >> j) & 1u128 == 1u128),
        ;
        assert(a >> (j + 1) == b >> (j + 1));
    }
}

/// A 128-bit word is determined by its bits.
pub proof fn lemma_u128_bits_injective(a: u128, b: u128)
    requires
        u128_to_bit_seq(a) == u128_to_bit_seq(b),
    ensures
        a == b,
{
    assert forall|i: int| 0 <= i < 128 implies bit_u128(a, i) == bit_u128(b, i) by {
        assert(u128_to_bit_seq(a)[i] == u128_to_bit_seq(b)[i]);
        assert(u128_to_bit_seq(a)[i] == bit_u128(a, i));
        assert(u128_to_bit_seq(b)[i] == bit_u128(b, i));
    }
    lemma_high_bits_agree(a, b, 0);
    assert(a >> 0u128 == a && b >> 0u128 == b) by (bit_vector);
}

} // verus!
