//! Bit-matrix transposition by recursive block swaps: a square matrix of
//! words (row `r`, column `c` is bit `c` of word `r`) is transposed in
//! place in `log2(size)` stages, stage `w` swapping the off-diagonal
//! `w x w` blocks of every `2w x 2w` block.
use vstd::prelude::*;

use crate::lowmc::bits::{
    bit_u128, bit_u64, lemma_set_bit_u128, lemma_zero_u128, lemma_zero_u64, u128_to_bit_seq,
};
use crate::lowmc::plain::LowMC;

verus! {

/// The cell that cell `(r, c)` takes its bit from once the bits of row and
/// column selected by `m` are swapped.
pub open spec fn swap_row(r: u64, c: u64, m: u64) -> u64 {
    (r & !m) | (c & m)
}

pub open spec fn swap_col(r: u64, c: u64, m: u64) -> u64 {
    (c & !m) | (r & m)
}

/// The block swap of stage `w` on 64 x 64 bits uses `mask`, the columns
/// whose `w` bit is clear.
pub open spec fn stage_mask_u64(w: u64, mask: u64) -> bool {
    ||| w == 32 && mask == 0x00000000FFFFFFFFu64
    ||| w == 16 && mask == 0x0000FFFF0000FFFFu64
    ||| w == 8 && mask == 0x00FF00FF00FF00FFu64
    ||| w == 4 && mask == 0x0F0F0F0F0F0F0F0Fu64
    ||| w == 2 && mask == 0x3333333333333333u64
    ||| w == 1 && mask == 0x5555555555555555u64
}

/// The two new rows of a pair `(i, i + w)` of stage `w`, bit by bit.
proof fn lemma_stage_bits_u64(d1: u64, d2: u64, w: u64, mask: u64, c: u64)
    by (bit_vector)
    requires
        stage_mask_u64(w, mask),
        c < 64,
    ensures
        ((((d2 & mask) << w) ^ (d1 & mask)) >> c) & 1u64 == if c & w == 0u64 {
            (d1 >> c) & 1u64
        } else {
            (d2 >> ((c - w) as u64)) & 1u64
        },
        (((d2 & !mask) ^ ((d1 & !mask) >> w)) >> c) & 1u64 == if c & w == 0u64 {
            (d1 >> ((c + w) as u64)) & 1u64
        } else {
            (d2 >> c) & 1u64
        },
{
}

/// Row and column facts of a stage: the partner of a row with the `w` bit
/// clear, and where the swap of bit `w` sends a cell.
proof fn lemma_stage_index_u64(r: u64, c: u64, w: u64, mask: u64)
    by (bit_vector)
    requires
        stage_mask_u64(w, mask),
        r < 64,
        c < 64,
    ensures
        r & w == 0u64 ==> ((r + w) as u64) & w == w && r + w < 64,
        r & w != 0u64 ==> r >= w && ((r - w) as u64) & w == 0u64,
        c & w == 0u64 ==> c + w < 64 && ((c + w) as u64) & w == w,
        c & w != 0u64 ==> c >= w,
        (r & w == 0u64) == (c & w == 0u64) ==> swap_row(r, c, w) == r && swap_col(r, c, w) == c,
        r & w == 0u64 && c & w != 0u64 ==> swap_row(r, c, w) == r + w && swap_col(r, c, w) == c - w,
        r & w != 0u64 && c & w == 0u64 ==> swap_row(r, c, w) == r - w && swap_col(r, c, w) == c + w,
{
}

/// Stage `w` of the 64 x 64 transposition: every cell `(r, c)` takes the
/// bit of cell `(r, c)` with bit `w` swapped between row and column.
pub fn transpose_stage_u64(inputs: &mut [u64; 64], width: usize, mask: u64)
    requires
        stage_mask_u64(width as u64, mask),
    ensures
        forall|r: u64, c: u64|
            r < 64 && c < 64 ==> #[trigger] bit_u64(final(inputs)@[r as int], c as int) == bit_u64(
                old(inputs)@[swap_row(r, c, width as u64) as int],
                swap_col(r, c, width as u64) as int,
            ),
{
    let ghost old_rows = inputs@;
    let inv_mask = !mask;
    let w = width as u64;
    assert forall|x: int| 0 <= x < 64 && #[trigger] ((x as u64) & w) != 0u64 implies x >= w && ((x
        - w) as u64) & w == 0u64 by {
        lemma_stage_index_u64(x as u64, 0, w, mask);
    }
    let mut i: usize = 0;
    while i < 64
        invariant
            i <= 64,
            forall|x: int| 0 <= x < 64 && #[trigger] ((x as u64) & w) != 0u64 ==> x >= w && ((x
                - w) as u64) & w == 0u64,
            w == width as u64,
            stage_mask_u64(w, mask),
            inv_mask == !mask,
            old_rows.len() == 64,
            inputs@.len() == 64,
            forall|x: int|
                0 <= x < 64 && (x as u64) & w == 0u64 ==> #[trigger] inputs@[x] == if x < i {
                    ((old_rows[x + w] & mask) << w) ^ (old_rows[x] & mask)
                } else {
                    old_rows[x]
                },
            forall|x: int|
                0 <= x < 64 && (x as u64) & w != 0u64 ==> #[trigger] inputs@[x] == if x - w < i {
                    (old_rows[x] & inv_mask) ^ ((old_rows[x - w] & inv_mask) >> w)
                } else {
                    old_rows[x]
                },
        decreases 64 - i,
    {
        let iu = i as u64;
        if iu & w == 0 {
            proof {
                lemma_stage_index_u64(iu, 0, w, mask);
            }
            let i2 = i + width;
            let d1 = inputs[i];
            let dd1 = inputs[i2];
            inputs[i] = ((dd1 & mask) << w) ^ (d1 & mask);
            inputs[i2] = (dd1 & inv_mask) ^ ((d1 & inv_mask) >> w);
        }
        i = i + 1;
    }
    assert forall|r: u64, c: u64| r < 64 && c < 64 implies #[trigger] bit_u64(
        inputs@[r as int],
        c as int,
    ) == bit_u64(old_rows[swap_row(r, c, w) as int], swap_col(r, c, w) as int) by {
        lemma_stage_index_u64(r, c, w, mask);
        if r & w == 0u64 {
            lemma_stage_bits_u64(old_rows[r as int], old_rows[r + w], w, mask, c);
        } else {
            lemma_stage_bits_u64(old_rows[r - w], old_rows[r as int], w, mask, c);
        }
    }
}


/// Swapping the bits of `s` after those of a disjoint `w` swaps the bits
/// of both; swapping nothing keeps the cell, swapping every bit of a
/// 64 x 64 index transposes it.
proof fn lemma_swap_compose_u64(r: u64, c: u64, s: u64, w: u64)
    by (bit_vector)
    requires
        r < 64,
        c < 64,
    ensures
        swap_row(r, c, w) < 64,
        swap_col(r, c, w) < 64,
        s & w == 0u64 ==> swap_row(swap_row(r, c, w), swap_col(r, c, w), s) == swap_row(r, c, s | w),
        s & w == 0u64 ==> swap_col(swap_row(r, c, w), swap_col(r, c, w), s) == swap_col(r, c, s | w),
        swap_row(r, c, 0u64) == r,
        swap_col(r, c, 0u64) == c,
        swap_row(r, c, 63u64) == c,
        swap_col(r, c, 63u64) == r,
{
}

/// The width of stage `s` of the 64 x 64 transposition.
pub open spec fn stage_width_u64(s: int) -> u64 {
    if s == 0 {
        32
    } else if s == 1 {
        16
    } else if s == 2 {
        8
    } else if s == 3 {
        4
    } else if s == 4 {
        2
    } else {
        1
    }
}

/// The index bits swapped by the first `s` stages.
pub open spec fn stages_done_u64(s: int) -> u64 {
    if s <= 0 {
        0
    } else if s == 1 {
        32
    } else if s == 2 {
        48
    } else if s == 3 {
        56
    } else if s == 4 {
        60
    } else if s == 5 {
        62
    } else {
        63
    }
}



/// The block swap of stage `w` on 128 x 128 bits uses `mask`, the columns
/// whose `w` bit is clear.
pub open spec fn stage_mask_u128(w: u128, mask: u128) -> bool {
    ||| w == 64 && mask == 0x0000000000000000FFFFFFFFFFFFFFFFu128
    ||| w == 32 && mask == 0x00000000FFFFFFFF00000000FFFFFFFFu128
    ||| w == 16 && mask == 0x0000FFFF0000FFFF0000FFFF0000FFFFu128
    ||| w == 8 && mask == 0x00FF00FF00FF00FF00FF00FF00FF00FFu128
    ||| w == 4 && mask == 0x0F0F0F0F0F0F0F0F0F0F0F0F0F0F0F0Fu128
    ||| w == 2 && mask == 0x33333333333333333333333333333333u128
    ||| w == 1 && mask == 0x55555555555555555555555555555555u128
}

proof fn lemma_stage_bits_u128(d1: u128, d2: u128, w: u128, mask: u128, c: u128)
    by (bit_vector)
    requires
        stage_mask_u128(w, mask),
        c < 128,
    ensures
        ((((d2 & mask) << w) ^ (d1 & mask)) >> c) & 1u128 == if c & w == 0u128 {
            (d1 >> c) & 1u128
        } else {
            (d2 >> ((c - w) as u128)) & 1u128
        },
        (((d2 & !mask) ^ ((d1 & !mask) >> w)) >> c) & 1u128 == if c & w == 0u128 {
            (d1 >> ((c + w) as u128)) & 1u128
        } else {
            (d2 >> c) & 1u128
        },
{
}

proof fn lemma_stage_index_u128(r: u64, c: u64, w: u64)
    by (bit_vector)
    requires
        w == 64 || w == 32 || w == 16 || w == 8 || w == 4 || w == 2 || w == 1,
        r < 128,
        c < 128,
    ensures
        r & w == 0u64 ==> ((r + w) as u64) & w == w && r + w < 128,
        r & w != 0u64 ==> r >= w && ((r - w) as u64) & w == 0u64,
        c & w == 0u64 ==> c + w < 128 && ((c + w) as u64) & w == w,
        c & w != 0u64 ==> c >= w,
        (r & w == 0u64) == (c & w == 0u64) ==> swap_row(r, c, w) == r && swap_col(r, c, w) == c,
        r & w == 0u64 && c & w != 0u64 ==> swap_row(r, c, w) == r + w && swap_col(r, c, w) == c - w,
        r & w != 0u64 && c & w == 0u64 ==> swap_row(r, c, w) == r - w && swap_col(r, c, w) == c + w,
{
}

/// Stage `w` of the 128 x 128 transposition: every cell `(r, c)` takes the
/// bit of cell `(r, c)` with bit `w` swapped between row and column.
pub fn transpose_stage_u128(inputs: &mut [u128; 128], width: usize, mask: u128)
    requires
        stage_mask_u128(width as u128, mask),
    ensures
        forall|r: u64, c: u64|
            r < 128 && c < 128 ==> #[trigger] bit_u128(final(inputs)@[r as int], c as int)
                == bit_u128(
                old(inputs)@[swap_row(r, c, width as u64) as int],
                swap_col(r, c, width as u64) as int,
            ),
{
    let ghost old_rows = inputs@;
    let inv_mask = !mask;
    let w = width as u128;
    let ghost wi = width as u64;
    assert(wi == 64 || wi == 32 || wi == 16 || wi == 8 || wi == 4 || wi == 2 || wi == 1);
    assert forall|x: int| 0 <= x < 128 && #[trigger] ((x as u64) & wi) != 0u64 implies x >= wi && ((x
        - wi) as u64) & wi == 0u64 by {
        lemma_stage_index_u128(x as u64, 0, wi);
    }
    let mut i: usize = 0;
    while i < 128
        invariant
            i <= 128,
            forall|x: int| 0 <= x < 128 && #[trigger] ((x as u64) & wi) != 0u64 ==> x >= wi && ((x
                - wi) as u64) & wi == 0u64,
            wi == width as u64,
            w == width as u128,
            wi == 64 || wi == 32 || wi == 16 || wi == 8 || wi == 4 || wi == 2 || wi == 1,
            stage_mask_u128(w, mask),
            inv_mask == !mask,
            old_rows.len() == 128,
            inputs@.len() == 128,
            forall|x: int|
                0 <= x < 128 && (x as u64) & wi == 0u64 ==> #[trigger] inputs@[x] == if x < i {
                    ((old_rows[x + wi] & mask) << w) ^ (old_rows[x] & mask)
                } else {
                    old_rows[x]
                },
            forall|x: int|
                0 <= x < 128 && (x as u64) & wi != 0u64 ==> #[trigger] inputs@[x] == if x - wi < i {
                    (old_rows[x] & inv_mask) ^ ((old_rows[x - wi] & inv_mask) >> w)
                } else {
                    old_rows[x]
                },
        decreases 128 - i,
    {
        let iu = i as u64;
        if iu & (width as u64) == 0 {
            proof {
                lemma_stage_index_u128(iu, 0, wi);
            }
            let i2 = i + width;
            let d1 = inputs[i];
            let dd1 = inputs[i2];
            inputs[i] = ((dd1 & mask) << w) ^ (d1 & mask);
            inputs[i2] = (dd1 & inv_mask) ^ ((d1 & inv_mask) >> w);
        }
        i = i + 1;
    }
    assert forall|r: u64, c: u64| r < 128 && c < 128 implies #[trigger] bit_u128(
        inputs@[r as int],
        c as int,
    ) == bit_u128(old_rows[swap_row(r, c, wi) as int], swap_col(r, c, wi) as int) by {
        lemma_stage_index_u128(r, c, wi);
        if r & wi == 0u64 {
            lemma_stage_bits_u128(old_rows[r as int], old_rows[r + wi], w, mask, c as u128);
        } else {
            lemma_stage_bits_u128(old_rows[r - wi], old_rows[r as int], w, mask, c as u128);
        }
    }
}

proof fn lemma_swap_compose_u128(r: u64, c: u64, s: u64, w: u64)
    by (bit_vector)
    requires
        r < 128,
        c < 128,
    ensures
        swap_row(r, c, w) < 128,
        swap_col(r, c, w) < 128,
        s & w == 0u64 ==> swap_row(swap_row(r, c, w), swap_col(r, c, w), s) == swap_row(r, c, s | w),
        s & w == 0u64 ==> swap_col(swap_row(r, c, w), swap_col(r, c, w), s) == swap_col(r, c, s | w),
        swap_row(r, c, 0u64) == r,
        swap_col(r, c, 0u64) == c,
        swap_row(r, c, 127u64) == c,
        swap_col(r, c, 127u64) == r,
{
}

/// The width of stage `s` of the 128 x 128 transposition.
pub open spec fn stage_width_u128(s: int) -> u64 {
    if s == 0 {
        64
    } else if s == 1 {
        32
    } else if s == 2 {
        16
    } else if s == 3 {
        8
    } else if s == 4 {
        4
    } else if s == 5 {
        2
    } else {
        1
    }
}

/// The index bits swapped by the first `s` stages.
pub open spec fn stages_done_u128(s: int) -> u64 {
    if s <= 0 {
        0
    } else if s == 1 {
        64
    } else if s == 2 {
        96
    } else if s == 3 {
        112
    } else if s == 4 {
        120
    } else if s == 5 {
        124
    } else if s == 6 {
        126
    } else {
        127
    }
}



/// The first `num` rows of a 128-row matrix, zero rows past the end.
fn keep_rows(rows: &[u128; 128], num: usize) -> (result: Vec<u128>)
    ensures
        result@.len() == num,
        forall|i: int| 0 <= i < num ==> #[trigger] result@[i] == if i < 128 {
            rows@[i]
        } else {
            0u128
        },
{
    let mut result: Vec<u128> = Vec::new();
    let mut i: usize = 0;
    while i < num
        invariant
            i <= num,
            result@.len() == i,
            forall|k: int| 0 <= k < i ==> #[trigger] result@[k] == if k < 128 {
                rows@[k]
            } else {
                0u128
            },
        decreases num - i,
    {
        if i < 128 {
            result.push(rows[i]);
        } else {
            result.push(0);
        }
        i = i + 1;
    }
    result
}

/// Spread up to 128 blocks over the lanes of a 128-lane bit-sliced state:
/// bit `l` of word `j` is bit `j` of block `l`, the other lanes zero.
pub fn transpose_input_wide(inputs: &[u128]) -> (state: [u128; 128])
    requires
        inputs@.len() <= 128,
    ensures
        forall|l: int, j: int|
            0 <= l < 128 && 0 <= j < 128 ==> #[trigger] bit_u128(state@[j], l) == (l
                < inputs@.len() && bit_u128(inputs@[l], j)),
{
    let mut state = [0u128; 128];
    proof {
        lemma_zero_u128();
    }
    let mut i: usize = 0;
    while i < inputs.len()
        invariant
            i <= inputs@.len() <= 128,
            forall|l: int, j: int|
                0 <= l < 128 && 0 <= j < 128 ==> #[trigger] bit_u128(state@[j], l) == (l < i
                    && bit_u128(inputs@[l], j)),
        decreases inputs@.len() - i,
    {
        let inp = inputs[i];
        let mut j: usize = 0;
        while j < 128
            invariant
                i < inputs@.len() <= 128,
                inp == inputs@[i as int],
                j <= 128,
                forall|l: int, k: int|
                    0 <= l < 128 && 0 <= k < j ==> #[trigger] bit_u128(state@[k], l) == (l < i + 1
                        && bit_u128(inputs@[l], k)),
                forall|l: int, k: int|
                    0 <= l < 128 && j <= k < 128 ==> #[trigger] bit_u128(state@[k], l) == (l < i
                        && bit_u128(inputs@[l], k)),
            decreases 128 - j,
        {
            let bit = (inp >> (j as u128)) & 1 == 1;
            assert(bit == bit_u128(inputs@[i as int], j as int));
            if bit {
                proof {
                    lemma_set_bit_u128(state@[j as int], i as u128);
                }
                state[j] = state[j] | (1u128 << (i as u128));
            }
            j = j + 1;
        }
        i = i + 1;
    }
    state
}

/// Collect the first `num` lanes of a 128-lane bit-sliced state as blocks.
pub fn transpose_output_wide(state: &[u128; 128], num: usize) -> (result: Vec<u128>)
    requires
        num <= 128,
    ensures
        result@.len() == num,
        forall|l: int, j: int|
            0 <= l < num && 0 <= j < 128 ==> #[trigger] bit_u128(result@[l], j) == bit_u128(
                state@[j],
                l,
            ),
{
    let mut result: Vec<u128> = Vec::new();
    let mut l: usize = 0;
    while l < num
        invariant
            l <= num,
            result@.len() == l,
            forall|k: int| 0 <= k < l ==> #[trigger] result@[k] == 0u128,
        decreases num - l,
    {
        result.push(0u128);
        l = l + 1;
    }
    proof {
        lemma_zero_u128();
    }
    let mut i: usize = 0;
    while i < 128
        invariant
            i <= 128,
            num <= 128,
            result@.len() == num,
            forall|k: int, j: int|
                0 <= k < num && 0 <= j < 128 ==> #[trigger] bit_u128(result@[k], j) == (j < i
                    && bit_u128(state@[j], k)),
        decreases 128 - i,
    {
        let s = state[i];
        let mut k: usize = 0;
        while k < num
            invariant
                i < 128,
                num <= 128,
                k <= num,
                s == state@[i as int],
                result@.len() == num,
                forall|r: int, j: int|
                    0 <= r < k && 0 <= j < 128 ==> #[trigger] bit_u128(result@[r], j) == (j < i + 1
                        && bit_u128(state@[j], r)),
                forall|r: int, j: int|
                    k <= r < num && 0 <= j < 128 ==> #[trigger] bit_u128(result@[r], j) == (j < i
                        && bit_u128(state@[j], r)),
            decreases num - k,
        {
            let bit = (s >> (k as u128)) & 1 == 1;
            if bit {
                proof {
                    lemma_set_bit_u128(result@[k as int], i as u128);
                }
                let w = result[k] | (1u128 << (i as u128));
                result.set(k, w);
            }
            k = k + 1;
        }
        i = i + 1;
    }
    result
}

impl LowMC {
    /// Transpose a 64 x 64 bit matrix in place: bit `c` of row `r` becomes
    /// bit `r` of row `c`.
    pub fn transpose_u64(inputs: &mut [u64; 64])
        ensures
            forall|r: u64, c: u64|
                r < 64 && c < 64 ==> #[trigger] bit_u64(final(inputs)@[r as int], c as int) == bit_u64(
                    old(inputs)@[c as int],
                    r as int,
                ),
    {
        let masks: [u64; 6] = [
            0x00000000FFFFFFFF,
            0x0000FFFF0000FFFF,
            0x00FF00FF00FF00FF,
            0x0F0F0F0F0F0F0F0F,
            0x3333333333333333,
            0x5555555555555555,
        ];
        let ghost orig = inputs@;
        let mut width: usize = 32;
        let mut s: usize = 0;
        proof {
            assert forall|r: u64, c: u64| r < 64 && c < 64 implies #[trigger] bit_u64(
                inputs@[r as int],
                c as int,
            ) == bit_u64(orig[swap_row(r, c, 0) as int], swap_col(r, c, 0) as int) by {
                lemma_swap_compose_u64(r, c, 0, 0);
            }
        }
        while s < 6
            invariant
                s <= 6,
                s < 6 ==> width == stage_width_u64(s as int),
                masks@ == seq![
                    0x00000000FFFFFFFFu64,
                    0x0000FFFF0000FFFFu64,
                    0x00FF00FF00FF00FFu64,
                    0x0F0F0F0F0F0F0F0Fu64,
                    0x3333333333333333u64,
                    0x5555555555555555u64,
                ],
                orig.len() == 64,
                forall|r: u64, c: u64|
                    r < 64 && c < 64 ==> #[trigger] bit_u64(inputs@[r as int], c as int) == bit_u64(
                        orig[swap_row(r, c, stages_done_u64(s as int)) as int],
                        swap_col(r, c, stages_done_u64(s as int)) as int,
                    ),
            decreases 6 - s,
        {
            let ghost mid = inputs@;
            let ghost done = stages_done_u64(s as int);
            let ghost w = width as u64;
            assert(stage_mask_u64(w, masks[s as int]));
            assert(done & w == 0u64 && stages_done_u64(s + 1) == done | w) by (bit_vector)
                requires
                    (done == 0u64 && w == 32u64) || (done == 32u64 && w == 16u64) || (done == 48u64
                        && w == 8u64) || (done == 56u64 && w == 4u64) || (done == 60u64 && w == 2u64)
                        || (done == 62u64 && w == 1u64),
                    stages_done_u64(s + 1) == if done == 0u64 {
                        32u64
                    } else if done == 32u64 {
                        48u64
                    } else if done == 48u64 {
                        56u64
                    } else if done == 56u64 {
                        60u64
                    } else if done == 60u64 {
                        62u64
                    } else {
                        63u64
                    },
            ;
            transpose_stage_u64(inputs, width, masks[s]);
            proof {
                assert forall|r: u64, c: u64| r < 64 && c < 64 implies #[trigger] bit_u64(
                    inputs@[r as int],
                    c as int,
                ) == bit_u64(
                    orig[swap_row(r, c, stages_done_u64(s + 1)) as int],
                    swap_col(r, c, stages_done_u64(s + 1)) as int,
                ) by {
                    lemma_swap_compose_u64(r, c, done, w);
                    let r2 = swap_row(r, c, w);
                    let c2 = swap_col(r, c, w);
                    assert(bit_u64(mid[r2 as int], c2 as int) == bit_u64(
                        orig[swap_row(r2, c2, done) as int],
                        swap_col(r2, c2, done) as int,
                    ));
                }
            }
            width = width / 2;
            s = s + 1;
        }
        assert forall|r: u64, c: u64| r < 64 && c < 64 implies #[trigger] bit_u64(
            inputs@[r as int],
            c as int,
        ) == bit_u64(orig[c as int], r as int) by {
            lemma_swap_compose_u64(r, c, 0, 0);
        }
    }

    /// Transpose a 128 x 128 bit matrix in place: bit `c` of row `r` becomes
    /// bit `r` of row `c`.
    pub fn transpose_u128(inputs: &mut [u128; 128])
        ensures
            forall|r: u64, c: u64|
                r < 128 && c < 128 ==> #[trigger] bit_u128(final(inputs)@[r as int], c as int)
                    == bit_u128(old(inputs)@[c as int], r as int),
    {
        let masks: [u128; 7] = [
            0x0000000000000000FFFFFFFFFFFFFFFF,
            0x00000000FFFFFFFF00000000FFFFFFFF,
            0x0000FFFF0000FFFF0000FFFF0000FFFF,
            0x00FF00FF00FF00FF00FF00FF00FF00FF,
            0x0F0F0F0F0F0F0F0F0F0F0F0F0F0F0F0F,
            0x33333333333333333333333333333333,
            0x55555555555555555555555555555555,
        ];
        let ghost orig = inputs@;
        let mut width: usize = 64;
        let mut s: usize = 0;
        proof {
            assert forall|r: u64, c: u64| r < 128 && c < 128 implies #[trigger] bit_u128(
                inputs@[r as int],
                c as int,
            ) == bit_u128(orig[swap_row(r, c, 0) as int], swap_col(r, c, 0) as int) by {
                lemma_swap_compose_u128(r, c, 0, 0);
            }
        }
        while s < 7
            invariant
                s <= 7,
                s < 7 ==> width == stage_width_u128(s as int),
                masks@ == seq![
                    0x0000000000000000FFFFFFFFFFFFFFFFu128,
                    0x00000000FFFFFFFF00000000FFFFFFFFu128,
                    0x0000FFFF0000FFFF0000FFFF0000FFFFu128,
                    0x00FF00FF00FF00FF00FF00FF00FF00FFu128,
                    0x0F0F0F0F0F0F0F0F0F0F0F0F0F0F0F0Fu128,
                    0x33333333333333333333333333333333u128,
                    0x55555555555555555555555555555555u128,
                ],
                orig.len() == 128,
                forall|r: u64, c: u64|
                    r < 128 && c < 128 ==> #[trigger] bit_u128(inputs@[r as int], c as int) == bit_u128(
                        orig[swap_row(r, c, stages_done_u128(s as int)) as int],
                        swap_col(r, c, stages_done_u128(s as int)) as int,
                    ),
            decreases 7 - s,
        {
            let ghost mid = inputs@;
            let ghost done = stages_done_u128(s as int);
            let ghost w = width as u64;
            assert(stage_mask_u128(width as u128, masks[s as int]));
            assert(done & w == 0u64 && stages_done_u128(s + 1) == done | w) by (bit_vector)
                requires
                    (done == 0u64 && w == 64u64) || (done == 64u64 && w == 32u64) || (done == 96u64
                        && w == 16u64) || (done == 112u64 && w == 8u64) || (done == 120u64 && w == 4u64)
                        || (done == 124u64 && w == 2u64) || (done == 126u64 && w == 1u64),
                    stages_done_u128(s + 1) == if done == 0u64 {
                        64u64
                    } else if done == 64u64 {
                        96u64
                    } else if done == 96u64 {
                        112u64
                    } else if done == 112u64 {
                        120u64
                    } else if done == 120u64 {
                        124u64
                    } else if done == 124u64 {
                        126u64
                    } else {
                        127u64
                    },
            ;
            transpose_stage_u128(inputs, width, masks[s]);
            proof {
                assert forall|r: u64, c: u64| r < 128 && c < 128 implies #[trigger] bit_u128(
                    inputs@[r as int],
                    c as int,
                ) == bit_u128(
                    orig[swap_row(r, c, stages_done_u128(s + 1)) as int],
                    swap_col(r, c, stages_done_u128(s + 1)) as int,
                ) by {
                    lemma_swap_compose_u128(r, c, done, w);
                    let r2 = swap_row(r, c, w);
                    let c2 = swap_col(r, c, w);
                    assert(bit_u128(mid[r2 as int], c2 as int) == bit_u128(
                        orig[swap_row(r2, c2, done) as int],
                        swap_col(r2, c2, done) as int,
                    ));
                }
            }
            width = width / 2;
            s = s + 1;
        }
        assert forall|r: u64, c: u64| r < 128 && c < 128 implies #[trigger] bit_u128(
            inputs@[r as int],
            c as int,
        ) == bit_u128(orig[c as int], r as int) by {
            lemma_swap_compose_u128(r, c, 0, 0);
        }
    }

    /// Up to 64 blocks as the rows of a 128 x 128 matrix (the other rows
    /// zero), transposed and cut to the low words of the rows: bit `c` of
    /// row `r` is bit `r` of block `c`.
    pub fn transpose_u128_u64_t(inputs: &[u128]) -> (result: [u64; 128])
        requires
            inputs@.len() <= 64,
        ensures
            forall|r: u64, c: u64|
                r < 128 && c < 64 ==> #[trigger] bit_u64(result@[r as int], c as int) == (c
                    < inputs@.len() && bit_u128(inputs@[c as int], r as int)),
    {
        let mut outputs = [0u128; 128];
        let mut i: usize = 0;
        while i < inputs.len()
            invariant
                i <= inputs@.len() <= 64,
                forall|k: int| 0 <= k < i ==> #[trigger] outputs@[k] == inputs@[k],
                forall|k: int| i <= k < 128 ==> #[trigger] outputs@[k] == 0u128,
            decreases inputs@.len() - i,
        {
            outputs[i] = inputs[i];
            i = i + 1;
        }
        let ghost padded = outputs@;
        Self::transpose_u128(&mut outputs);
        let mut result = [0u64; 128];
        let mut r: usize = 0;
        while r < 128
            invariant
                r <= 128,
                forall|k: int| 0 <= k < r ==> #[trigger] result@[k] == outputs@[k] as u64,
            decreases 128 - r,
        {
            result[r] = outputs[r] as u64;
            r = r + 1;
        }
        proof {
            lemma_zero_u128();
            assert forall|r: u64, c: u64| r < 128 && c < 64 implies #[trigger] bit_u64(
                result@[r as int],
                c as int,
            ) == (c < inputs@.len() && bit_u128(inputs@[c as int], r as int)) by {
                let x = outputs@[r as int];
                assert(((x as u64) >> c) & 1u64 == 1u64 <==> (x >> (c as u128)) & 1u128 == 1u128)
                    by (bit_vector)
                    requires
                        c < 64,
                ;
                assert(bit_u128(x, c as int) == bit_u128(padded[c as int], r as int));
            }
        }
        result
    }

    /// Up to 64 words as the rows of a 64 x 64 matrix (the other rows
    /// zero), transposed, followed by 64 zero rows: bit `c` of row `r` is
    /// bit `r` of word `c`.
    pub fn transpose_u64_t(inputs: &[u64]) -> (result: [u64; 128])
        requires
            inputs@.len() <= 64,
        ensures
            forall|r: u64, c: u64|
                r < 64 && c < 64 ==> #[trigger] bit_u64(result@[r as int], c as int) == (c
                    < inputs@.len() && bit_u64(inputs@[c as int], r as int)),
            forall|r: int| 64 <= r < 128 ==> #[trigger] result@[r] == 0u64,
    {
        let mut block = [0u64; 64];
        let mut i: usize = 0;
        while i < inputs.len()
            invariant
                i <= inputs@.len() <= 64,
                forall|k: int| 0 <= k < i ==> #[trigger] block@[k] == inputs@[k],
                forall|k: int| i <= k < 64 ==> #[trigger] block@[k] == 0u64,
            decreases inputs@.len() - i,
        {
            block[i] = inputs[i];
            i = i + 1;
        }
        let ghost padded = block@;
        Self::transpose_u64(&mut block);
        let mut result = [0u64; 128];
        let mut r: usize = 0;
        while r < 64
            invariant
                r <= 64,
                forall|k: int| 0 <= k < r ==> #[trigger] result@[k] == block@[k],
                forall|k: int| 64 <= k < 128 ==> #[trigger] result@[k] == 0u64,
            decreases 64 - r,
        {
            result[r] = block[r];
            r = r + 1;
        }
        proof {
            lemma_zero_u64();
            assert forall|r: u64, c: u64| r < 64 && c < 64 implies #[trigger] bit_u64(
                result@[r as int],
                c as int,
            ) == (c < inputs@.len() && bit_u64(inputs@[c as int], r as int)) by {
                assert(bit_u64(block@[r as int], c as int) == bit_u64(padded[c as int], r as int));
            }
        }
        result
    }

    /// The 128 words widened to blocks as the rows of a 128 x 128 matrix,
    /// transposed, and the first `num` rows kept (zero rows past 128).
    pub fn transpose_out_u64_u128_t(inputs: &[u64; 128], num: usize) -> (result: Vec<u128>)
        ensures
            result@.len() == num,
            forall|i: int, c: int|
                0 <= i < num && 0 <= c < 128 ==> #[trigger] bit_u128(result@[i], c) == (i < 64
                    && bit_u64(inputs@[c], i)),
    {
        let mut outputs = [0u128; 128];
        let mut k: usize = 0;
        while k < 128
            invariant
                k <= 128,
                forall|j: int| 0 <= j < k ==> #[trigger] outputs@[j] == inputs@[j] as u128,
            decreases 128 - k,
        {
            outputs[k] = inputs[k] as u128;
            k = k + 1;
        }
        let ghost wide = outputs@;
        Self::transpose_u128(&mut outputs);
        let result = keep_rows(&outputs, num);
        proof {
            lemma_zero_u128();
            assert forall|i: int, c: int| 0 <= i < num && 0 <= c < 128 implies #[trigger] bit_u128(
                result@[i],
                c,
            ) == (i < 64 && bit_u64(inputs@[c], i)) by {
                if i < 128 {
                    assert(bit_u128(outputs@[i], c) == bit_u128(wide[c], i)) by {
                        assert(bit_u128(outputs@[(i as u64) as int], (c as u64) as int) == bit_u128(
                            wide[(c as u64) as int],
                            (i as u64) as int,
                        ));
                    }
                    let x = inputs@[c];
                    let iu = i as u128;
                    assert(((x as u128) >> iu) & 1u128 == 1u128 <==> (iu < 64 && (x >> (iu as u64))
                        & 1u64 == 1u64)) by (bit_vector)
                        requires
                            iu < 128,
                    ;
                }
            }
        }
        result
    }

    /// The 128 blocks as the rows of a 128 x 128 matrix, transposed, and the
    /// first `num` rows kept (zero rows past 128).
    pub fn transpose_out_u128_t(inputs: &[u128; 128], num: usize) -> (result: Vec<u128>)
        ensures
            result@.len() == num,
            forall|i: int, c: int|
                0 <= i < num && 0 <= c < 128 ==> #[trigger] bit_u128(result@[i], c) == (i < 128
                    && bit_u128(inputs@[c], i)),
    {
        let mut outputs = *inputs;
        Self::transpose_u128(&mut outputs);
        let result = keep_rows(&outputs, num);
        proof {
            lemma_zero_u128();
            assert forall|i: int, c: int| 0 <= i < num && 0 <= c < 128 implies #[trigger] bit_u128(
                result@[i],
                c,
            ) == (i < 128 && bit_u128(inputs@[c], i)) by {
                if i < 128 {
                    assert(bit_u128(outputs@[(i as u64) as int], (c as u64) as int) == bit_u128(
                        inputs@[(c as u64) as int],
                        (i as u64) as int,
                    ));
                }
            }
        }
        result
    }
}

} // verus!
