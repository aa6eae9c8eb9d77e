//! The arithmetic behind the oblivious stable sort that moves dummy rows to
//! the end, on opened values: the destination of each row under the stable
//! partition by its dummy flag (rows without the flag first), computed from
//! prefix counts as the protocol does on shares, and the placement of rows
//! at their destinations.
use vstd::prelude::*;
use vstd::set_lib::{lemma_int_range, lemma_map_size, lemma_subset_equality, set_int_range};

verus! {

/// The number of unset flags among the first `k`.
pub open spec fn zeros_before(bits: Seq<bool>, k: int) -> int
    decreases k,
{
    if k <= 0 {
        0
    } else {
        zeros_before(bits, k - 1) + if bits[k - 1] {
            0int
        } else {
            1int
        }
    }
}

/// The 1-based destination of row `i` under the stable partition: rows
/// whose flag is unset first, each group in its input order.
pub open spec fn sort_position(bits: Seq<bool>, i: int) -> int {
    if !bits[i] {
        zeros_before(bits, i + 1)
    } else {
        zeros_before(bits, bits.len() as int) + (i + 1 - zeros_before(bits, i + 1))
    }
}

proof fn lemma_zeros_before_bounds(bits: Seq<bool>, a: int, b: int)
    requires
        0 <= a <= b,
    ensures
        0 <= zeros_before(bits, a) <= zeros_before(bits, b),
        zeros_before(bits, b) - zeros_before(bits, a) <= b - a,
    decreases b - a,
{
    if a < b {
        lemma_zeros_before_bounds(bits, a, b - 1);
    } else {
        lemma_zeros_before_nonneg(bits, a);
    }
}

proof fn lemma_zeros_before_nonneg(bits: Seq<bool>, k: int)
    ensures
        0 <= zeros_before(bits, k),
        k >= 0 ==> zeros_before(bits, k) <= k,
    decreases k,
{
    if k > 0 {
        lemma_zeros_before_nonneg(bits, k - 1);
    }
}

/// The destinations of the stable partition are a permutation of `1..=n`:
/// each lies in that range and no two rows share one. Rows without the flag
/// land in `1..=z` and flagged rows after them, where `z` counts the rows
/// without the flag.
pub proof fn lemma_sort_positions_permute(bits: Seq<bool>)
    ensures
        forall|i: int|
            0 <= i < bits.len() ==> 1 <= #[trigger] sort_position(bits, i) <= bits.len(),
        forall|i: int|
            0 <= i < bits.len() ==> (!bits[i] <==> #[trigger] sort_position(bits, i) <= zeros_before(
                bits,
                bits.len() as int,
            )),
        forall|i: int, j: int|
            0 <= i < j < bits.len() ==> #[trigger] sort_position(bits, i) != #[trigger] sort_position(bits, j),
        forall|i: int, j: int|
            0 <= i < j < bits.len() && bits[i] == bits[j] ==> #[trigger] sort_position(bits, i)
                < #[trigger] sort_position(bits, j),
{
    let n = bits.len() as int;
    assert forall|i: int| 0 <= i < n implies 1 <= #[trigger] sort_position(bits, i) <= n && (!bits[i]
        <==> sort_position(bits, i) <= zeros_before(bits, n)) by {
        lemma_zeros_before_bounds(bits, i, i + 1);
        lemma_zeros_before_bounds(bits, i + 1, n);
        lemma_zeros_before_bounds(bits, 0, i);
    }
    assert forall|i: int, j: int| 0 <= i < j < n && bits[i] == bits[j] implies #[trigger] sort_position(bits, i)
        < #[trigger] sort_position(bits, j) by {
        lemma_zeros_before_bounds(bits, i + 1, j);
        lemma_zeros_before_bounds(bits, j, j + 1);
    }
    assert forall|i: int, j: int| 0 <= i < j < n implies #[trigger] sort_position(bits, i)
        != #[trigger] sort_position(bits, j) by {
        if bits[i] == bits[j] {
            lemma_zeros_before_bounds(bits, i + 1, j);
            lemma_zeros_before_bounds(bits, j, j + 1);
        } else {
            lemma_zeros_before_bounds(bits, i, i + 1);
            lemma_zeros_before_bounds(bits, i + 1, n);
            lemma_zeros_before_bounds(bits, j, j + 1);
            lemma_zeros_before_bounds(bits, j + 1, n);
        }
    }
}

/// The destination of every row, from running counts: an unflagged row goes
/// to the count of unflagged rows up to it, a flagged row to the count of
/// all unflagged rows plus the count of flagged rows up to it.
pub fn bit_perm_positions(bits: &[bool]) -> (pos: Vec<u32>)
    requires
        bits@.len() <= u32::MAX,
    ensures
        pos@.len() == bits@.len(),
        forall|i: int| 0 <= i < bits@.len() ==> #[trigger] pos@[i] as int == sort_position(bits@, i),
{
    let n = bits.len();
    let mut zero_counts: Vec<u32> = Vec::new();
    let mut sum: u32 = 0;
    let mut i: usize = 0;
    while i < n
        invariant
            n == bits@.len() <= u32::MAX,
            i <= n,
            zero_counts@.len() == i,
            sum as int == zeros_before(bits@, i as int),
            forall|j: int| 0 <= j < i ==> #[trigger] zero_counts@[j] as int == zeros_before(bits@, j + 1),
        decreases n - i,
    {
        proof {
            lemma_zeros_before_nonneg(bits@, i as int);
        }
        if !bits[i] {
            sum = sum + 1;
        }
        zero_counts.push(sum);
        i = i + 1;
    }
    let total_zeros = sum;
    let mut pos: Vec<u32> = Vec::new();
    let mut ones: u32 = 0;
    let mut i: usize = 0;
    while i < n
        invariant
            n == bits@.len() <= u32::MAX,
            i <= n,
            zero_counts@.len() == n,
            total_zeros as int == zeros_before(bits@, n as int),
            forall|j: int| 0 <= j < n ==> #[trigger] zero_counts@[j] as int == zeros_before(bits@, j + 1),
            ones as int == i - zeros_before(bits@, i as int),
            pos@.len() == i,
            forall|j: int| 0 <= j < i ==> #[trigger] pos@[j] as int == sort_position(bits@, j),
        decreases n - i,
    {
        proof {
            lemma_zeros_before_bounds(bits@, i as int, i + 1);
            lemma_zeros_before_bounds(bits@, i + 1, n as int);
            lemma_zeros_before_nonneg(bits@, i as int);
        }
        if bits[i] {
            ones = ones + 1;
            pos.push(total_zeros + ones);
        } else {
            pos.push(zero_counts[i]);
        }
        i = i + 1;
    }
    pos
}

/// Puts row `i` at index `pos[i] - 1`; where `pos` is a permutation of
/// `1..=n`, every index is filled exactly once.
pub fn place_at_positions(pos: &[u32], rows: &[u128]) -> (out: Vec<u128>)
    requires
        pos@.len() == rows@.len(),
        forall|i: int| 0 <= i < pos@.len() ==> 1 <= #[trigger] pos@[i] <= pos@.len(),
        forall|i: int, j: int| 0 <= i < j < pos@.len() ==> #[trigger] pos@[i] != #[trigger] pos@[j],
    ensures
        out@.len() == rows@.len(),
        forall|i: int| 0 <= i < rows@.len() ==> #[trigger] out@[pos@[i] - 1] == rows@[i],
{
    let n = rows.len();
    let mut out: Vec<u128> = Vec::new();
    let mut k: usize = 0;
    while k < n
        invariant
            k <= n,
            out@.len() == k,
        decreases n - k,
    {
        out.push(0);
        k = k + 1;
    }
    let mut i: usize = 0;
    while i < n
        invariant
            n == rows@.len() == pos@.len(),
            i <= n,
            out@.len() == n,
            forall|j: int| 0 <= j < pos@.len() ==> 1 <= #[trigger] pos@[j] <= pos@.len(),
            forall|a: int, b: int| 0 <= a < b < pos@.len() ==> #[trigger] pos@[a] != #[trigger] pos@[b],
            forall|j: int| 0 <= j < i ==> #[trigger] out@[pos@[j] - 1] == rows@[j],
        decreases n - i,
    {
        let p = pos[i];
        assert(1 <= p <= n);
        out.set((p - 1) as usize, rows[i]);
        proof {
            assert forall|j: int| 0 <= j < i + 1 implies #[trigger] out@[pos@[j] - 1] == rows@[j] by {
                if j < i {
                    assert(pos@[j] != pos@[i as int]);
                }
            }
        }
        i = i + 1;
    }
    out
}

/// An injective map of `0..n` into itself reaches every index.
proof fn lemma_permutation_onto(sigma: Seq<u32>, i: int)
    requires
        forall|j: int| 0 <= j < sigma.len() ==> (#[trigger] sigma[j] as int) < sigma.len(),
        forall|a: int, b: int| 0 <= a < b < sigma.len() ==> #[trigger] sigma[a] != #[trigger] sigma[b],
        0 <= i < sigma.len(),
    ensures
        exists|j: int| 0 <= j < sigma.len() && sigma[j] as int == i,
{
    let n = sigma.len() as int;
    let dom = set_int_range(0, n);
    let f = |j: int| sigma[j] as int;
    lemma_int_range(0, n);
    assert(vstd::relations::injective_on(f, dom)) by {
        assert forall|a: int, b: int| dom.contains(a) && dom.contains(b) && #[trigger] f(a) == #[trigger] f(b) implies a
            == b by {
            if a < b {
                assert(sigma[a] != sigma[b]);
            } else if b < a {
                assert(sigma[b] != sigma[a]);
            }
        }
    }
    lemma_map_size(dom, dom.map(f), f);
    assert(dom.map(f).subset_of(dom));
    lemma_subset_equality(dom.map(f), dom);
    assert(dom.map(f).contains(i));
}

/// Placing shuffled rows at their shuffled destinations undoes the shuffle:
/// when the rows and their destinations `rho` are both shuffled by the same
/// permutation `sigma` of `0..n`, and each shuffled row `j` is put at index
/// `rho[sigma[j]] - 1`, then row `i` ends up at index `rho[i] - 1`.
pub proof fn lemma_placement_undoes_shuffle(rho: Seq<u32>, rows: Seq<u128>, sigma: Seq<u32>, out: Seq<u128>)
    requires
        rows.len() == rho.len(),
        sigma.len() == rho.len(),
        forall|j: int| 0 <= j < sigma.len() ==> (#[trigger] sigma[j] as int) < sigma.len(),
        forall|a: int, b: int| 0 <= a < b < sigma.len() ==> #[trigger] sigma[a] != #[trigger] sigma[b],
        forall|j: int|
            0 <= j < sigma.len() ==> #[trigger] out[rho[sigma[j] as int] - 1] == rows[sigma[j] as int],
    ensures
        forall|i: int| 0 <= i < rows.len() ==> #[trigger] out[rho[i] - 1] == rows[i],
{
    assert forall|i: int| 0 <= i < rows.len() implies #[trigger] out[rho[i] - 1] == rows[i] by {
        lemma_permutation_onto(sigma, i);
        let j = choose|j: int| 0 <= j < sigma.len() && sigma[j] as int == i;
        assert(out[rho[sigma[j] as int] - 1] == rows[sigma[j] as int]);
    }
}

} // verus!
