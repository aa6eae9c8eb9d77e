//! The local steps of the three-party shuffle of replicated XOR-shared rows,
//! and of the companion protocol that opens a shared permutation shuffled in
//! the same way.
//!
//! Party `i` holds the share pair `(a, b) = (x_i, x_{i-1})` of every row and
//! the permutation pair `(pi_a, pi_b) = (pi_i, pi_{i-1})`. Party 0 masks and
//! shuffles `x_0 ^ x_2` by `pi_0` and `pi_2` and sends the result to party 1;
//! party 1 masks `x_1`, shuffles it by `pi_0` and sends it to party 2; then
//! party 1 shuffles what it received by `pi_1`, and party 2 shuffles what it
//! received by `pi_2` and `pi_1`. The two results are an XOR sharing of the
//! rows under the composed permutation (`lemma_shuffle_opens`).
use vstd::prelude::*;
use vstd::slice::slice_subrange;

verus! {

/// Every entry of `p` indexes a sequence of length `n`.
pub open spec fn indices_below(p: Seq<u32>, n: int) -> bool {
    forall|j: int| 0 <= j < p.len() ==> (#[trigger] p[j] as int) < n
}

/// Party 0's message: `(a ^ b)[pi_a[pi_b[j]]] ^ alpha1[pi_b[j]] ^ alpha3[j]`.
pub open spec fn party0_message(
    a: Seq<u128>,
    b: Seq<u128>,
    pi_a: Seq<u32>,
    pi_b: Seq<u32>,
    alpha1: Seq<u128>,
    alpha3: Seq<u128>,
) -> Seq<u128> {
    Seq::new(
        pi_b.len(),
        |j: int|
            {
                let k = pi_b[j] as int;
                let i = pi_a[k] as int;
                (a[i] ^ b[i]) ^ alpha1[k] ^ alpha3[j]
            },
    )
}

/// Party 1's message: `a[pi_b[j]] ^ alpha1[j]`.
pub open spec fn party1_message(a: Seq<u128>, pi_b: Seq<u32>, alpha1: Seq<u128>) -> Seq<u128> {
    Seq::new(pi_b.len(), |j: int| a[pi_b[j] as int] ^ alpha1[j])
}

/// Party 1's result: what it received, shuffled by `pi_a`.
pub open spec fn party1_result(delta: Seq<u128>, pi_a: Seq<u32>) -> Seq<u128> {
    Seq::new(pi_a.len(), |j: int| delta[pi_a[j] as int])
}

/// Party 2's result: `gamma[pi_a[pi_b[j]]] ^ alpha3[pi_b[j]]`.
pub open spec fn party2_result(gamma: Seq<u128>, pi_a: Seq<u32>, pi_b: Seq<u32>, alpha3: Seq<u128>) -> Seq<u128> {
    Seq::new(
        pi_b.len(),
        |j: int|
            {
                let k = pi_b[j] as int;
                gamma[pi_a[k] as int] ^ alpha3[k]
            },
    )
}

/// Party 0's step: mask and shuffle the sum of its two shares.
pub fn shuffle_party0_message(
    a: &[u128],
    b: &[u128],
    pi_a: &[u32],
    pi_b: &[u32],
    alpha1: &[u128],
    alpha3: &[u128],
) -> (m: Vec<u128>)
    requires
        b@.len() == a@.len(),
        pi_a@.len() == a@.len(),
        pi_b@.len() == a@.len(),
        alpha1@.len() == a@.len(),
        alpha3@.len() == a@.len(),
        indices_below(pi_a@, a@.len() as int),
        indices_below(pi_b@, a@.len() as int),
    ensures
        m@ == party0_message(a@, b@, pi_a@, pi_b@, alpha1@, alpha3@),
{
    let len = a.len();
    let mut beta: Vec<u128> = Vec::new();
    let mut i: usize = 0;
    while i < len
        invariant
            i <= len == a@.len() == b@.len(),
            beta@.len() == i,
            forall|j: int| 0 <= j < i ==> #[trigger] beta@[j] == a@[j] ^ b@[j],
        decreases len - i,
    {
        beta.push(a[i] ^ b[i]);
        i = i + 1;
    }
    let mut shuffled: Vec<u128> = Vec::new();
    let mut j: usize = 0;
    while j < len
        invariant
            j <= len == a@.len() == pi_a@.len() == alpha1@.len() == beta@.len(),
            indices_below(pi_a@, a@.len() as int),
            shuffled@.len() == j,
            forall|t: int| 0 <= t < j ==> #[trigger] shuffled@[t] == beta@[pi_a@[t] as int] ^ alpha1@[t],
        decreases len - j,
    {
        assert((pi_a@[j as int] as int) < len);
        shuffled.push(beta[pi_a[j] as usize] ^ alpha1[j]);
        j = j + 1;
    }
    let mut m: Vec<u128> = Vec::new();
    let mut j: usize = 0;
    while j < len
        invariant
            j <= len == a@.len() == pi_b@.len() == alpha3@.len() == shuffled@.len(),
            indices_below(pi_b@, a@.len() as int),
            m@.len() == j,
            forall|t: int| 0 <= t < j ==> #[trigger] m@[t] == shuffled@[pi_b@[t] as int] ^ alpha3@[t],
        decreases len - j,
    {
        assert((pi_b@[j as int] as int) < len);
        m.push(shuffled[pi_b[j] as usize] ^ alpha3[j]);
        j = j + 1;
    }
    proof {
        assert(m@ =~= party0_message(a@, b@, pi_a@, pi_b@, alpha1@, alpha3@)) by {
            assert forall|t: int| 0 <= t < len implies m@[t] == party0_message(a@, b@, pi_a@, pi_b@, alpha1@, alpha3@)[t] by {
                assert((pi_b@[t] as int) < len);
                let k = pi_b@[t] as int;
                assert((pi_a@[k] as int) < len);
            }
        }
    }
    m
}

/// Party 1's first step: mask its first share and shuffle it by `pi_b`.
pub fn shuffle_party1_message(a: &[u128], pi_b: &[u32], alpha1: &[u128]) -> (m: Vec<u128>)
    requires
        pi_b@.len() == a@.len(),
        alpha1@.len() == a@.len(),
        indices_below(pi_b@, a@.len() as int),
    ensures
        m@ == party1_message(a@, pi_b@, alpha1@),
{
    let len = a.len();
    let mut m: Vec<u128> = Vec::new();
    let mut j: usize = 0;
    while j < len
        invariant
            j <= len == a@.len() == pi_b@.len() == alpha1@.len(),
            indices_below(pi_b@, a@.len() as int),
            m@.len() == j,
            forall|t: int| 0 <= t < j ==> #[trigger] m@[t] == a@[pi_b@[t] as int] ^ alpha1@[t],
        decreases len - j,
    {
        assert((pi_b@[j as int] as int) < len);
        m.push(a[pi_b[j] as usize] ^ alpha1[j]);
        j = j + 1;
    }
    assert(m@ =~= party1_message(a@, pi_b@, alpha1@));
    m
}

/// Party 1's second step: shuffle party 0's message by `pi_a`.
pub fn shuffle_party1_result(delta: &[u128], pi_a: &[u32]) -> (r: Vec<u128>)
    requires
        pi_a@.len() == delta@.len(),
        indices_below(pi_a@, delta@.len() as int),
    ensures
        r@ == party1_result(delta@, pi_a@),
{
    let len = delta.len();
    let mut r: Vec<u128> = Vec::new();
    let mut j: usize = 0;
    while j < len
        invariant
            j <= len == delta@.len() == pi_a@.len(),
            indices_below(pi_a@, delta@.len() as int),
            r@.len() == j,
            forall|t: int| 0 <= t < j ==> #[trigger] r@[t] == delta@[pi_a@[t] as int],
        decreases len - j,
    {
        assert((pi_a@[j as int] as int) < len);
        r.push(delta[pi_a[j] as usize]);
        j = j + 1;
    }
    assert(r@ =~= party1_result(delta@, pi_a@));
    r
}

/// Party 2's step: unmask party 1's message by `pi_a` and shuffle it by
/// `pi_b`.
pub fn shuffle_party2_result(gamma: &[u128], pi_a: &[u32], pi_b: &[u32], alpha3: &[u128]) -> (r: Vec<u128>)
    requires
        pi_a@.len() == gamma@.len(),
        pi_b@.len() == gamma@.len(),
        alpha3@.len() == gamma@.len(),
        indices_below(pi_a@, gamma@.len() as int),
        indices_below(pi_b@, gamma@.len() as int),
    ensures
        r@ == party2_result(gamma@, pi_a@, pi_b@, alpha3@),
{
    let len = gamma.len();
    let mut shuffled: Vec<u128> = Vec::new();
    let mut j: usize = 0;
    while j < len
        invariant
            j <= len == gamma@.len() == pi_a@.len() == alpha3@.len(),
            indices_below(pi_a@, gamma@.len() as int),
            shuffled@.len() == j,
            forall|t: int| 0 <= t < j ==> #[trigger] shuffled@[t] == gamma@[pi_a@[t] as int] ^ alpha3@[t],
        decreases len - j,
    {
        assert((pi_a@[j as int] as int) < len);
        shuffled.push(gamma[pi_a[j] as usize] ^ alpha3[j]);
        j = j + 1;
    }
    let mut r: Vec<u128> = Vec::new();
    let mut j: usize = 0;
    while j < len
        invariant
            j <= len == gamma@.len() == pi_b@.len() == shuffled@.len(),
            indices_below(pi_b@, gamma@.len() as int),
            r@.len() == j,
            forall|t: int| 0 <= t < j ==> #[trigger] r@[t] == shuffled@[pi_b@[t] as int],
        decreases len - j,
    {
        assert((pi_b@[j as int] as int) < len);
        r.push(shuffled[pi_b[j] as usize]);
        j = j + 1;
    }
    proof {
        assert(r@ =~= party2_result(gamma@, pi_a@, pi_b@, alpha3@)) by {
            assert forall|t: int| 0 <= t < len implies r@[t] == party2_result(gamma@, pi_a@, pi_b@, alpha3@)[t] by {
                assert((pi_b@[t] as int) < len);
            }
        }
    }
    r
}

/// Every row set has `n` rows.
pub open spec fn sets_of_len(sets: Seq<Vec<u128>>, n: int) -> bool {
    forall|s: int| 0 <= s < sets.len() ==> (#[trigger] sets[s])@.len() == n
}

/// Party 0's messages for several row sets shuffled by the same
/// permutation, one set after the other.
pub fn shuffle_party0_messages(
    a: &[Vec<u128>],
    b: &[Vec<u128>],
    pi_a: &[u32],
    pi_b: &[u32],
    alpha1: &[Vec<u128>],
    alpha3: &[Vec<u128>],
) -> (m: Vec<u128>)
    requires
        b@.len() == a@.len(),
        alpha1@.len() == a@.len(),
        alpha3@.len() == a@.len(),
        pi_b@.len() == pi_a@.len(),
        sets_of_len(a@, pi_a@.len() as int),
        sets_of_len(b@, pi_a@.len() as int),
        sets_of_len(alpha1@, pi_a@.len() as int),
        sets_of_len(alpha3@, pi_a@.len() as int),
        indices_below(pi_a@, pi_a@.len() as int),
        indices_below(pi_b@, pi_a@.len() as int),
    ensures
        m@ == Seq::new(
            a@.len(),
            |s: int| party0_message(a@[s]@, b@[s]@, pi_a@, pi_b@, alpha1@[s]@, alpha3@[s]@),
        ).flatten(),
{
    let ghost f = |s: int| party0_message(a@[s]@, b@[s]@, pi_a@, pi_b@, alpha1@[s]@, alpha3@[s]@);
    let mut m: Vec<u128> = Vec::new();
    let mut s: usize = 0;
    proof {
        assert(Seq::new(0, f) =~= Seq::<Seq<u128>>::empty());
    }
    while s < a.len()
        invariant
            s <= a@.len() == b@.len() == alpha1@.len() == alpha3@.len(),
            pi_b@.len() == pi_a@.len(),
            sets_of_len(a@, pi_a@.len() as int),
            sets_of_len(b@, pi_a@.len() as int),
            sets_of_len(alpha1@, pi_a@.len() as int),
            sets_of_len(alpha3@, pi_a@.len() as int),
            indices_below(pi_a@, pi_a@.len() as int),
            indices_below(pi_b@, pi_a@.len() as int),
            f == (|s: int| party0_message(a@[s]@, b@[s]@, pi_a@, pi_b@, alpha1@[s]@, alpha3@[s]@)),
            m@ == Seq::new(s as nat, f).flatten(),
        decreases a@.len() - s,
    {
        let mut part = shuffle_party0_message(&a[s], &b[s], pi_a, pi_b, &alpha1[s], &alpha3[s]);
        proof {
            assert(Seq::new((s + 1) as nat, f) =~= Seq::new(s as nat, f).push(f(s as int)));
            Seq::new(s as nat, f).lemma_flatten_push(f(s as int));
        }
        m.append(&mut part);
        s = s + 1;
    }
    m
}

/// Party 1's first messages for several row sets, one set after the other.
pub fn shuffle_party1_messages(a: &[Vec<u128>], pi_b: &[u32], alpha1: &[Vec<u128>]) -> (m: Vec<u128>)
    requires
        alpha1@.len() == a@.len(),
        sets_of_len(a@, pi_b@.len() as int),
        sets_of_len(alpha1@, pi_b@.len() as int),
        indices_below(pi_b@, pi_b@.len() as int),
    ensures
        m@ == Seq::new(a@.len(), |s: int| party1_message(a@[s]@, pi_b@, alpha1@[s]@)).flatten(),
{
    let ghost f = |s: int| party1_message(a@[s]@, pi_b@, alpha1@[s]@);
    let mut m: Vec<u128> = Vec::new();
    let mut s: usize = 0;
    proof {
        assert(Seq::new(0, f) =~= Seq::<Seq<u128>>::empty());
    }
    while s < a.len()
        invariant
            s <= a@.len() == alpha1@.len(),
            sets_of_len(a@, pi_b@.len() as int),
            sets_of_len(alpha1@, pi_b@.len() as int),
            indices_below(pi_b@, pi_b@.len() as int),
            f == (|s: int| party1_message(a@[s]@, pi_b@, alpha1@[s]@)),
            m@ == Seq::new(s as nat, f).flatten(),
        decreases a@.len() - s,
    {
        let mut part = shuffle_party1_message(&a[s], pi_b, &alpha1[s]);
        proof {
            assert(Seq::new((s + 1) as nat, f) =~= Seq::new(s as nat, f).push(f(s as int)));
            Seq::new(s as nat, f).lemma_flatten_push(f(s as int));
        }
        m.append(&mut part);
        s = s + 1;
    }
    m
}

/// Party 1's results for `num_sets` row sets of `pi_a.len()` rows, from
/// the concatenated messages of party 0: set `s` is read from
/// `delta[s * n..(s + 1) * n]`.
pub fn shuffle_party1_results(delta: &[u128], pi_a: &[u32], num_sets: usize) -> (r: Vec<Vec<u128>>)
    requires
        delta@.len() == num_sets * pi_a@.len(),
        indices_below(pi_a@, pi_a@.len() as int),
    ensures
        r@.len() == num_sets,
        forall|s: int|
            0 <= s < num_sets ==> (#[trigger] r@[s])@ == party1_result(
                delta@.subrange(s * pi_a@.len(), (s + 1) * pi_a@.len()),
                pi_a@,
            ),
{
    let n = pi_a.len();
    let total = delta.len();
    let mut r: Vec<Vec<u128>> = Vec::new();
    let mut s: usize = 0;
    while s < num_sets
        invariant
            n == pi_a@.len(),
            total == delta@.len(),
            delta@.len() == num_sets * n,
            indices_below(pi_a@, n as int),
            s <= num_sets,
            r@.len() == s,
            forall|t: int|
                0 <= t < s ==> (#[trigger] r@[t])@ == party1_result(delta@.subrange(t * n, (t + 1) * n), pi_a@),
        decreases num_sets - s,
    {
        assert((s + 1) * n <= num_sets * n) by (nonlinear_arith)
            requires
                s < num_sets,
        ;
        assert(s * n + n == (s + 1) * n) by (nonlinear_arith);
        assert(s * n + n <= total);
        let part = slice_subrange(delta, s * n, s * n + n);
        let res = shuffle_party1_result(part, pi_a);
        r.push(res);
        s = s + 1;
    }
    r
}

/// Party 2's results for `num_sets` row sets of `pi_b.len()` rows, from
/// the concatenated messages of party 1.
pub fn shuffle_party2_results(gamma: &[u128], pi_a: &[u32], pi_b: &[u32], alpha3: &[Vec<u128>]) -> (r: Vec<Vec<u128>>)
    requires
        pi_a@.len() == pi_b@.len(),
        gamma@.len() == alpha3@.len() * pi_b@.len(),
        sets_of_len(alpha3@, pi_b@.len() as int),
        indices_below(pi_a@, pi_b@.len() as int),
        indices_below(pi_b@, pi_b@.len() as int),
    ensures
        r@.len() == alpha3@.len(),
        forall|s: int|
            0 <= s < alpha3@.len() ==> (#[trigger] r@[s])@ == party2_result(
                gamma@.subrange(s * pi_b@.len(), (s + 1) * pi_b@.len()),
                pi_a@,
                pi_b@,
                alpha3@[s]@,
            ),
{
    let n = pi_b.len();
    let k = alpha3.len();
    let total = gamma.len();
    let mut r: Vec<Vec<u128>> = Vec::new();
    let mut s: usize = 0;
    while s < k
        invariant
            n == pi_b@.len() == pi_a@.len(),
            total == gamma@.len(),
            k == alpha3@.len(),
            gamma@.len() == k * n,
            sets_of_len(alpha3@, n as int),
            indices_below(pi_a@, n as int),
            indices_below(pi_b@, n as int),
            s <= k,
            r@.len() == s,
            forall|t: int|
                0 <= t < s ==> (#[trigger] r@[t])@ == party2_result(
                    gamma@.subrange(t * n, (t + 1) * n),
                    pi_a@,
                    pi_b@,
                    alpha3@[t]@,
                ),
        decreases k - s,
    {
        assert((s + 1) * n <= k * n) by (nonlinear_arith)
            requires
                s < k,
        ;
        assert(s * n + n == (s + 1) * n) by (nonlinear_arith);
        assert(s * n + n <= total);
        let part = slice_subrange(gamma, s * n, s * n + n);
        let res = shuffle_party2_result(part, pi_a, pi_b, &alpha3[s]);
        r.push(res);
        s = s + 1;
    }
    r
}

/// The shuffle is correct: when party `i` holds the shares `(x_i, x_{i-1})`
/// and the permutations `(pi_i, pi_{i-1})`, and parties 0 and 1 share the
/// mask `alpha1` and parties 0 and 2 the mask `alpha3`, the results of
/// parties 1 and 2 XOR to row `pi_0[pi_2[pi_1[j]]]` of `x_0 ^ x_1 ^ x_2` at
/// position `j`, whatever the masks.
pub proof fn lemma_shuffle_opens(
    x0: Seq<u128>,
    x1: Seq<u128>,
    x2: Seq<u128>,
    pi0: Seq<u32>,
    pi1: Seq<u32>,
    pi2: Seq<u32>,
    alpha1: Seq<u128>,
    alpha3: Seq<u128>,
)
    requires
        x1.len() == x0.len(),
        x2.len() == x0.len(),
        pi0.len() == x0.len(),
        pi1.len() == x0.len(),
        pi2.len() == x0.len(),
        alpha1.len() == x0.len(),
        alpha3.len() == x0.len(),
        indices_below(pi0, x0.len() as int),
        indices_below(pi1, x0.len() as int),
        indices_below(pi2, x0.len() as int),
    ensures
        ({
            let delta = party0_message(x0, x2, pi0, pi2, alpha1, alpha3);
            let gamma = party1_message(x1, pi0, alpha1);
            let r1 = party1_result(delta, pi1);
            let r2 = party2_result(gamma, pi2, pi1, alpha3);
            &&& r1.len() == x0.len()
            &&& r2.len() == x0.len()
            &&& forall|j: int|
                0 <= j < x0.len() ==> {
                    let k = pi0[pi2[pi1[j] as int] as int] as int;
                    #[trigger] r1[j] ^ r2[j] == x0[k] ^ x1[k] ^ x2[k]
                }
        }),
{
    let n = x0.len() as int;
    let delta = party0_message(x0, x2, pi0, pi2, alpha1, alpha3);
    let gamma = party1_message(x1, pi0, alpha1);
    let r1 = party1_result(delta, pi1);
    let r2 = party2_result(gamma, pi2, pi1, alpha3);
    assert forall|j: int| 0 <= j < n implies {
        let k = pi0[pi2[pi1[j] as int] as int] as int;
        #[trigger] r1[j] ^ r2[j] == x0[k] ^ x1[k] ^ x2[k]
    } by {
        let m = pi1[j] as int;
        assert(m < n);
        let l = pi2[m] as int;
        assert(l < n);
        let k = pi0[l] as int;
        assert(k < n);
        let a = x0[k];
        let b = x1[k];
        let c = x2[k];
        let m1 = alpha1[l];
        let m3 = alpha3[m];
        assert(r1[j] == (a ^ c) ^ m1 ^ m3);
        assert(r2[j] == (b ^ m1) ^ m3);
        assert(((a ^ c) ^ m1 ^ m3) ^ ((b ^ m1) ^ m3) == a ^ b ^ c) by (bit_vector);
    }
}

/// `v` reduced into the 32-bit ring.
pub open spec fn ring32(v: int) -> u32 {
    (v % 0x1_0000_0000) as u32
}

/// Party 0's message when opening a shared permutation:
/// `(a + b)[pi_a[j]] - alpha1[j]` in the 32-bit ring.
pub open spec fn reveal_party0_message(a: Seq<u32>, b: Seq<u32>, pi_a: Seq<u32>, alpha1: Seq<u32>) -> Seq<u32> {
    Seq::new(
        pi_a.len(),
        |j: int|
            {
                let i = pi_a[j] as int;
                ring32(a[i] + b[i] - alpha1[j])
            },
    )
}

/// Party 1's message when opening a shared permutation:
/// `a[pi_b[j]] + alpha1[j]` in the 32-bit ring.
pub open spec fn reveal_party1_message(a: Seq<u32>, pi_b: Seq<u32>, alpha1: Seq<u32>) -> Seq<u32> {
    Seq::new(pi_b.len(), |j: int| ring32(a[pi_b[j] as int] + alpha1[j]))
}

/// Party 2's opened values: at position `j`, the sum of both messages at
/// `pi_a[pi_b[j]]` in the 32-bit ring.
pub open spec fn reveal_party2_open(delta: Seq<u32>, gamma: Seq<u32>, pi_a: Seq<u32>, pi_b: Seq<u32>) -> Seq<u32> {
    Seq::new(
        pi_b.len(),
        |j: int|
            {
                let i = pi_a[pi_b[j] as int] as int;
                ring32(gamma[i] + delta[i])
            },
    )
}

proof fn lemma_wrapping_add(x: u32, y: u32)
    ensures
        x.wrapping_add(y) == ring32(x + y),
        x.wrapping_sub(y) == ring32(x - y),
{
}

/// Party 0's step of opening a shared permutation.
pub fn reveal_party0_message_of(a: &[u32], b: &[u32], pi_a: &[u32], alpha1: &[u32]) -> (m: Vec<u32>)
    requires
        b@.len() == a@.len(),
        pi_a@.len() == a@.len(),
        alpha1@.len() == a@.len(),
        indices_below(pi_a@, a@.len() as int),
    ensures
        m@ == reveal_party0_message(a@, b@, pi_a@, alpha1@),
{
    let len = a.len();
    let mut m: Vec<u32> = Vec::new();
    let mut j: usize = 0;
    while j < len
        invariant
            j <= len == a@.len() == b@.len() == pi_a@.len() == alpha1@.len(),
            indices_below(pi_a@, a@.len() as int),
            m@.len() == j,
            forall|t: int| 0 <= t < j ==> #[trigger] m@[t] == reveal_party0_message(a@, b@, pi_a@, alpha1@)[t],
        decreases len - j,
    {
        let i = pi_a[j] as usize;
        assert(i < len);
        let sum = a[i].wrapping_add(b[i]);
        let v = sum.wrapping_sub(alpha1[j]);
        proof {
            lemma_wrapping_add(a@[i as int], b@[i as int]);
            lemma_wrapping_add(sum, alpha1@[j as int]);
            vstd::arithmetic::div_mod::lemma_add_mod_noop(a@[i as int] + b@[i as int], -alpha1@[j as int], 0x1_0000_0000);
            vstd::arithmetic::div_mod::lemma_mod_twice(a@[i as int] + b@[i as int], 0x1_0000_0000);
        }
        m.push(v);
        j = j + 1;
    }
    assert(m@ =~= reveal_party0_message(a@, b@, pi_a@, alpha1@));
    m
}

/// Party 1's step of opening a shared permutation.
pub fn reveal_party1_message_of(a: &[u32], pi_b: &[u32], alpha1: &[u32]) -> (m: Vec<u32>)
    requires
        pi_b@.len() == a@.len(),
        alpha1@.len() == a@.len(),
        indices_below(pi_b@, a@.len() as int),
    ensures
        m@ == reveal_party1_message(a@, pi_b@, alpha1@),
{
    let len = a.len();
    let mut m: Vec<u32> = Vec::new();
    let mut j: usize = 0;
    while j < len
        invariant
            j <= len == a@.len() == pi_b@.len() == alpha1@.len(),
            indices_below(pi_b@, a@.len() as int),
            m@.len() == j,
            forall|t: int| 0 <= t < j ==> #[trigger] m@[t] == reveal_party1_message(a@, pi_b@, alpha1@)[t],
        decreases len - j,
    {
        let i = pi_b[j] as usize;
        assert(i < len);
        let v = a[i].wrapping_add(alpha1[j]);
        proof {
            lemma_wrapping_add(a@[i as int], alpha1@[j as int]);
        }
        m.push(v);
        j = j + 1;
    }
    assert(m@ =~= reveal_party1_message(a@, pi_b@, alpha1@));
    m
}

/// Party 2's step of opening a shared permutation: it adds the two
/// messages, read at `pi_a[pi_b[j]]`.
pub fn reveal_party2_open_of(delta: &[u32], gamma: &[u32], pi_a: &[u32], pi_b: &[u32]) -> (r: Vec<u32>)
    requires
        gamma@.len() == delta@.len(),
        pi_a@.len() == delta@.len(),
        pi_b@.len() == delta@.len(),
        indices_below(pi_a@, delta@.len() as int),
        indices_below(pi_b@, delta@.len() as int),
    ensures
        r@ == reveal_party2_open(delta@, gamma@, pi_a@, pi_b@),
{
    let len = delta.len();
    let mut r: Vec<u32> = Vec::new();
    let mut j: usize = 0;
    while j < len
        invariant
            j <= len == delta@.len() == gamma@.len() == pi_a@.len() == pi_b@.len(),
            indices_below(pi_a@, delta@.len() as int),
            indices_below(pi_b@, delta@.len() as int),
            r@.len() == j,
            forall|t: int| 0 <= t < j ==> #[trigger] r@[t] == reveal_party2_open(delta@, gamma@, pi_a@, pi_b@)[t],
        decreases len - j,
    {
        let k = pi_b[j] as usize;
        assert(k < len);
        let i = pi_a[k] as usize;
        assert(i < len);
        let v = gamma[i].wrapping_add(delta[i]);
        proof {
            lemma_wrapping_add(gamma@[i as int], delta@[i as int]);
        }
        r.push(v);
        j = j + 1;
    }
    assert(r@ =~= reveal_party2_open(delta@, gamma@, pi_a@, pi_b@));
    r
}

/// Opening a shared permutation shuffles it as the rows are shuffled: with
/// the shares and permutations held as in `lemma_shuffle_opens` and the mask
/// `alpha1` shared by parties 0 and 1, party 2 opens at position `j` entry
/// `pi_0[pi_2[pi_1[j]]]` of `x_0 + x_1 + x_2` (in the 32-bit ring), whatever
/// the mask.
pub proof fn lemma_reveal_opens(
    x0: Seq<u32>,
    x1: Seq<u32>,
    x2: Seq<u32>,
    pi0: Seq<u32>,
    pi1: Seq<u32>,
    pi2: Seq<u32>,
    alpha1: Seq<u32>,
)
    requires
        x1.len() == x0.len(),
        x2.len() == x0.len(),
        pi0.len() == x0.len(),
        pi1.len() == x0.len(),
        pi2.len() == x0.len(),
        alpha1.len() == x0.len(),
        indices_below(pi0, x0.len() as int),
        indices_below(pi1, x0.len() as int),
        indices_below(pi2, x0.len() as int),
    ensures
        ({
            let delta = reveal_party0_message(x0, x2, pi0, alpha1);
            let gamma = reveal_party1_message(x1, pi0, alpha1);
            let r = reveal_party2_open(delta, gamma, pi2, pi1);
            &&& r.len() == x0.len()
            &&& forall|j: int|
                0 <= j < x0.len() ==> {
                    let k = pi0[pi2[pi1[j] as int] as int] as int;
                    #[trigger] r[j] == ring32(x0[k] + x1[k] + x2[k])
                }
        }),
{
    let n = x0.len() as int;
    let delta = reveal_party0_message(x0, x2, pi0, alpha1);
    let gamma = reveal_party1_message(x1, pi0, alpha1);
    let r = reveal_party2_open(delta, gamma, pi2, pi1);
    assert forall|j: int| 0 <= j < n implies {
        let k = pi0[pi2[pi1[j] as int] as int] as int;
        #[trigger] r[j] == ring32(x0[k] + x1[k] + x2[k])
    } by {
        let m = pi1[j] as int;
        assert(m < n);
        let i = pi2[m] as int;
        assert(i < n);
        let k = pi0[i] as int;
        assert(k < n);
        let p = 0x1_0000_0000int;
        let g = x1[k] + alpha1[i];
        let d = x0[k] + x2[k] - alpha1[i];
        assert(gamma[i] == ring32(g));
        assert(delta[i] == ring32(d));
        vstd::arithmetic::div_mod::lemma_add_mod_noop(g, d, p);
        assert(g + d == x0[k] + x1[k] + x2[k]);
    }
}

} // verus!
