//! The local steps of the S-box layer of LowMC on replicated shares, with
//! eight lanes packed in a byte: the pairs the layer multiplies, the masked
//! product components each party sends on, and the combination of the
//! products into the layer's output. `lemma_sbox_shares_open` states that
//! the three parties' components open to the S-box of the opened input.
use vstd::prelude::*;

use crate::lowmc::bits::{mat_vec, row_parity, xor_bits};
use crate::lowmc::instance::{round_constant, round_key, LowMcInstance, SBOXES};

verus! {

/// Wires covered by S-boxes: three per S-box.
pub const SBOX_WIRES: usize = 93;

/// One party's masked component of the products `x & y`, from its own
/// components `x`, `y` and the previous party's `x_prev`, `y_prev`.
pub open spec fn and_component(x: u8, x_prev: u8, y: u8, y_prev: u8, mask: u8) -> u8 {
    (x & y) ^ (x & y_prev) ^ (x_prev & y) ^ mask
}

/// The masked product components of a batch of pairs.
pub fn and_components_u8(lhs: &[u8], lhs_prev: &[u8], rhs: &[u8], rhs_prev: &[u8], masks: &[u8]) -> (z: Vec<u8>)
    requires
        lhs_prev@.len() == lhs@.len(),
        rhs@.len() == lhs@.len(),
        rhs_prev@.len() == lhs@.len(),
        masks@.len() == lhs@.len(),
    ensures
        z@.len() == lhs@.len(),
        forall|i: int|
            0 <= i < lhs@.len() ==> #[trigger] z@[i] == and_component(
                lhs@[i],
                lhs_prev@[i],
                rhs@[i],
                rhs_prev@[i],
                masks@[i],
            ),
{
    let n = lhs.len();
    let mut z: Vec<u8> = Vec::new();
    let mut i: usize = 0;
    while i < n
        invariant
            n == lhs@.len() == lhs_prev@.len() == rhs@.len() == rhs_prev@.len() == masks@.len(),
            i <= n,
            z@.len() == i,
            forall|j: int|
                0 <= j < i ==> #[trigger] z@[j] == and_component(lhs@[j], lhs_prev@[j], rhs@[j], rhs_prev@[j], masks@[j]),
        decreases n - i,
    {
        z.push((lhs[i] & rhs[i]) ^ (lhs[i] & rhs_prev[i]) ^ (lhs_prev[i] & rhs[i]) ^ masks[i]);
        i = i + 1;
    }
    z
}

/// The pairs the S-box layer multiplies: for the S-box on wires
/// `(a, b, c) = input[3i..3i + 3]`, the pairs `(b, c)`, `(c, a)`, `(a, b)`.
pub fn collect_sbox_ands_u8(input: &[u8]) -> (r: (Vec<u8>, Vec<u8>))
    requires
        input@.len() == 128,
    ensures
        r.0@.len() == SBOX_WIRES,
        r.1@.len() == SBOX_WIRES,
        forall|i: int|
            0 <= i < SBOXES ==> {
                &&& #[trigger] r.0@[3 * i] == input@[3 * i + 1]
                &&& r.1@[3 * i] == input@[3 * i + 2]
                &&& r.0@[3 * i + 1] == input@[3 * i + 2]
                &&& r.1@[3 * i + 1] == input@[3 * i]
                &&& r.0@[3 * i + 2] == input@[3 * i]
                &&& r.1@[3 * i + 2] == input@[3 * i + 1]
            },
{
    let mut lhs: Vec<u8> = Vec::new();
    let mut rhs: Vec<u8> = Vec::new();
    let mut i: usize = 0;
    while i < 31
        invariant
            input@.len() == 128,
            i <= 31,
            lhs@.len() == 3 * i,
            rhs@.len() == 3 * i,
            forall|k: int|
                0 <= k < i ==> {
                    &&& #[trigger] lhs@[3 * k] == input@[3 * k + 1]
                    &&& rhs@[3 * k] == input@[3 * k + 2]
                    &&& lhs@[3 * k + 1] == input@[3 * k + 2]
                    &&& rhs@[3 * k + 1] == input@[3 * k]
                    &&& lhs@[3 * k + 2] == input@[3 * k]
                    &&& rhs@[3 * k + 2] == input@[3 * k + 1]
                },
        decreases 31 - i,
    {
        let a = input[3 * i];
        let b = input[3 * i + 1];
        let c = input[3 * i + 2];
        let ghost l0 = lhs@;
        let ghost r0 = rhs@;
        lhs.push(b);
        rhs.push(c);
        lhs.push(c);
        rhs.push(a);
        lhs.push(a);
        rhs.push(b);
        proof {
            assert(lhs@ == l0 + seq![b, c, a]);
            assert(rhs@ == r0 + seq![c, a, b]);
            assert forall|k: int| 0 <= k < i + 1 implies {
                &&& #[trigger] lhs@[3 * k] == input@[3 * k + 1]
                &&& rhs@[3 * k] == input@[3 * k + 2]
                &&& lhs@[3 * k + 1] == input@[3 * k + 2]
                &&& rhs@[3 * k + 1] == input@[3 * k]
                &&& lhs@[3 * k + 2] == input@[3 * k]
                &&& rhs@[3 * k + 2] == input@[3 * k + 1]
            } by {
                if k < i {
                    assert(lhs@[3 * k] == l0[3 * k]);
                    assert(lhs@[3 * k + 1] == l0[3 * k + 1]);
                    assert(lhs@[3 * k + 2] == l0[3 * k + 2]);
                    assert(rhs@[3 * k] == r0[3 * k]);
                    assert(rhs@[3 * k + 1] == r0[3 * k + 1]);
                    assert(rhs@[3 * k + 2] == r0[3 * k + 2]);
                }
            }
        }
        i = i + 1;
    }
    (lhs, rhs)
}

/// The S-box layer from the products: for the S-box on `(a, b, c)` with
/// products `(bc, ca, ab)`, the outputs `bc ^ a`, `ca ^ a ^ b` and
/// `ab ^ a ^ b ^ c`; wires past the S-boxes pass through.
pub fn apply_sbox_ands_u8(input: &[u8], ands: &[u8]) -> (out: Vec<u8>)
    requires
        input@.len() == 128,
        ands@.len() == SBOX_WIRES,
    ensures
        out@.len() == 128,
        forall|i: int|
            0 <= i < SBOXES ==> {
                let (a, b, c) = (input@[3 * i], input@[3 * i + 1], input@[3 * i + 2]);
                &&& #[trigger] out@[3 * i] == ands@[3 * i] ^ a
                &&& out@[3 * i + 1] == ands@[3 * i + 1] ^ a ^ b
                &&& out@[3 * i + 2] == ands@[3 * i + 2] ^ a ^ b ^ c
            },
        forall|j: int| SBOX_WIRES <= j < 128 ==> #[trigger] out@[j] == input@[j],
{
    let mut out: Vec<u8> = Vec::new();
    let mut i: usize = 0;
    while i < 31
        invariant
            input@.len() == 128,
            ands@.len() == SBOX_WIRES,
            i <= 31,
            out@.len() == 3 * i,
            forall|k: int|
                0 <= k < i ==> {
                    let (a, b, c) = (input@[3 * k], input@[3 * k + 1], input@[3 * k + 2]);
                    &&& #[trigger] out@[3 * k] == ands@[3 * k] ^ a
                    &&& out@[3 * k + 1] == ands@[3 * k + 1] ^ a ^ b
                    &&& out@[3 * k + 2] == ands@[3 * k + 2] ^ a ^ b ^ c
                },
        decreases 31 - i,
    {
        let a = input[3 * i];
        let b = input[3 * i + 1];
        let c = input[3 * i + 2];
        let ghost o0 = out@;
        out.push(ands[3 * i] ^ a);
        out.push(ands[3 * i + 1] ^ a ^ b);
        out.push(ands[3 * i + 2] ^ a ^ b ^ c);
        proof {
            assert forall|k: int| 0 <= k < i + 1 implies {
                let (a, b, c) = (input@[3 * k], input@[3 * k + 1], input@[3 * k + 2]);
                &&& #[trigger] out@[3 * k] == ands@[3 * k] ^ a
                &&& out@[3 * k + 1] == ands@[3 * k + 1] ^ a ^ b
                &&& out@[3 * k + 2] == ands@[3 * k + 2] ^ a ^ b ^ c
            } by {
                if k < i {
                    assert(out@[3 * k] == o0[3 * k]);
                    assert(out@[3 * k + 1] == o0[3 * k + 1]);
                    assert(out@[3 * k + 2] == o0[3 * k + 2]);
                }
            }
        }
        i = i + 1;
    }
    let mut j: usize = SBOX_WIRES;
    while j < 128
        invariant
            input@.len() == 128,
            ands@.len() == SBOX_WIRES,
            SBOX_WIRES <= j <= 128,
            out@.len() == j,
            forall|k: int|
                0 <= k < 31 ==> {
                    let (a, b, c) = (input@[3 * k], input@[3 * k + 1], input@[3 * k + 2]);
                    &&& #[trigger] out@[3 * k] == ands@[3 * k] ^ a
                    &&& out@[3 * k + 1] == ands@[3 * k + 1] ^ a ^ b
                    &&& out@[3 * k + 2] == ands@[3 * k + 2] ^ a ^ b ^ c
                },
            forall|k: int| SBOX_WIRES <= k < j ==> #[trigger] out@[k] == input@[k],
        decreases 128 - j,
    {
        let ghost o0 = out@;
        out.push(input[j]);
        proof {
            assert forall|k: int| 0 <= k < 31 implies {
                let (a, b, c) = (input@[3 * k], input@[3 * k + 1], input@[3 * k + 2]);
                &&& #[trigger] out@[3 * k] == ands@[3 * k] ^ a
                &&& out@[3 * k + 1] == ands@[3 * k + 1] ^ a ^ b
                &&& out@[3 * k + 2] == ands@[3 * k + 2] ^ a ^ b ^ c
            } by {
                assert(out@[3 * k] == o0[3 * k]);
                assert(out@[3 * k + 1] == o0[3 * k + 1]);
                assert(out@[3 * k + 2] == o0[3 * k + 2]);
            }
            assert forall|k: int| SBOX_WIRES <= k < j + 1 implies #[trigger] out@[k] == input@[k] by {
                if k < j {
                    assert(out@[k] == o0[k]);
                }
            }
        }
        j = j + 1;
    }
    out
}

/// Party `i`'s output components of one S-box, from its components `a`,
/// `b`, `c` of the S-box's wires, the previous party's `ap`, `bp`, `cp`, and
/// its masks of the three products.
pub open spec fn sbox_components(a: u8, ap: u8, b: u8, bp: u8, c: u8, cp: u8, m_bc: u8, m_ca: u8, m_ab: u8) -> (
    u8,
    u8,
    u8,
) {
    (
        and_component(b, bp, c, cp, m_bc) ^ a,
        and_component(c, cp, a, ap, m_ca) ^ a ^ b,
        and_component(a, ap, b, bp, m_ab) ^ a ^ b ^ c,
    )
}

/// The S-box layer on shares computes the S-box: when party `i` holds the
/// components `x_i` and `x_{i-1}` of each wire and the masks of each product
/// xor to zero over the three parties, the output components open to
/// `(a ^ bc, a ^ b ^ ca, a ^ b ^ c ^ ab)` of the opened wires, lane by lane.
pub proof fn lemma_sbox_shares_open(
    a0: u8,
    a1: u8,
    a2: u8,
    b0: u8,
    b1: u8,
    b2: u8,
    c0: u8,
    c1: u8,
    c2: u8,
    m_bc: (u8, u8, u8),
    m_ca: (u8, u8, u8),
    m_ab: (u8, u8, u8),
)
    requires
        m_bc.0 ^ m_bc.1 ^ m_bc.2 == 0,
        m_ca.0 ^ m_ca.1 ^ m_ca.2 == 0,
        m_ab.0 ^ m_ab.1 ^ m_ab.2 == 0,
    ensures
        ({
            let o0 = sbox_components(a0, a2, b0, b2, c0, c2, m_bc.0, m_ca.0, m_ab.0);
            let o1 = sbox_components(a1, a0, b1, b0, c1, c0, m_bc.1, m_ca.1, m_ab.1);
            let o2 = sbox_components(a2, a1, b2, b1, c2, c1, m_bc.2, m_ca.2, m_ab.2);
            let (a, b, c) = (a0 ^ a1 ^ a2, b0 ^ b1 ^ b2, c0 ^ c1 ^ c2);
            &&& o0.0 ^ o1.0 ^ o2.0 == a ^ (b & c)
            &&& o0.1 ^ o1.1 ^ o2.1 == a ^ b ^ (c & a)
            &&& o0.2 ^ o1.2 ^ o2.2 == a ^ b ^ c ^ (a & b)
        }),
{
    let (p0, p1, p2) = m_bc;
    let (q0, q1, q2) = m_ca;
    let (r0, r1, r2) = m_ab;
    assert({
        &&& (((b0 & c0) ^ (b0 & c2) ^ (b2 & c0) ^ p0) ^ a0) ^ (((b1 & c1) ^ (b1 & c0) ^ (b0 & c1) ^ p1) ^ a1) ^ ((
        (b2 & c2) ^ (b2 & c1) ^ (b1 & c2) ^ p2) ^ a2) == (a0 ^ a1 ^ a2) ^ ((b0 ^ b1 ^ b2) & (c0 ^ c1 ^ c2))
        &&& (((c0 & a0) ^ (c0 & a2) ^ (c2 & a0) ^ q0) ^ a0 ^ b0) ^ (((c1 & a1) ^ (c1 & a0) ^ (c0 & a1) ^ q1) ^ a1
            ^ b1) ^ (((c2 & a2) ^ (c2 & a1) ^ (c1 & a2) ^ q2) ^ a2 ^ b2) == (a0 ^ a1 ^ a2) ^ (b0 ^ b1 ^ b2) ^ ((c0
            ^ c1 ^ c2) & (a0 ^ a1 ^ a2))
        &&& (((a0 & b0) ^ (a0 & b2) ^ (a2 & b0) ^ r0) ^ a0 ^ b0 ^ c0) ^ (((a1 & b1) ^ (a1 & b0) ^ (a0 & b1) ^ r1)
            ^ a1 ^ b1 ^ c1) ^ (((a2 & b2) ^ (a2 & b1) ^ (a1 & b2) ^ r2) ^ a2 ^ b2 ^ c2) == (a0 ^ a1 ^ a2) ^ (b0
            ^ b1 ^ b2) ^ (c0 ^ c1 ^ c2) ^ ((a0 ^ a1 ^ a2) & (b0 ^ b1 ^ b2))
    }) by (bit_vector)
        requires
            p0 ^ p1 ^ p2 == 0u8,
            q0 ^ q1 ^ q2 == 0u8,
            r0 ^ r1 ^ r2 == 0u8,
    ;
}

/// The linear part of round `r` on one component of a shared state and
/// key: the linear layer of the state component, xored with the round key
/// of the key component and, where `add_constant`, with the round constant.
pub open spec fn linear_step(p: LowMcInstance, s: Seq<bool>, key: Seq<bool>, r: int, add_constant: bool) -> Seq<bool> {
    xor_bits(
        mat_vec(p.l[r]@, s),
        if add_constant {
            xor_bits(round_key(p, key, r + 1), round_constant(p, r))
        } else {
            round_key(p, key, r + 1)
        },
    )
}

proof fn lemma_row_parity_linear(mat: Seq<u64>, row: int, a: Seq<bool>, b: Seq<bool>, n: nat)
    requires
        n <= a.len(),
        a.len() == b.len(),
    ensures
        row_parity(mat, row, xor_bits(a, b), n) == (row_parity(mat, row, a, n) != row_parity(mat, row, b, n)),
    decreases n,
{
    if n > 0 {
        lemma_row_parity_linear(mat, row, a, b, (n - 1) as nat);
    }
}

/// A product over GF(2) is linear: `M (a ^ b) == M a ^ M b`.
pub proof fn lemma_mat_vec_linear(mat: Seq<u64>, a: Seq<bool>, b: Seq<bool>)
    requires
        a.len() == 128,
        b.len() == 128,
    ensures
        mat_vec(mat, xor_bits(a, b)) == xor_bits(mat_vec(mat, a), mat_vec(mat, b)),
{
    assert forall|row: int| 0 <= row < 128 implies #[trigger] mat_vec(mat, xor_bits(a, b))[row] == xor_bits(
        mat_vec(mat, a),
        mat_vec(mat, b),
    )[row] by {
        lemma_row_parity_linear(mat, row, a, b, 128);
    }
    assert(mat_vec(mat, xor_bits(a, b)) =~= xor_bits(mat_vec(mat, a), mat_vec(mat, b)));
}

/// The linear part of a round on shares computes the round's linear part:
/// when the state components xor to `s`, the key components xor to `key`,
/// and exactly one party adds the round constant, the three results xor to
/// the linear layer of `s`, xored with round key `r + 1` of `key` and round
/// constant `r`.
pub proof fn lemma_linear_step_opens(
    p: LowMcInstance,
    s0: Seq<bool>,
    s1: Seq<bool>,
    s2: Seq<bool>,
    k0: Seq<bool>,
    k1: Seq<bool>,
    k2: Seq<bool>,
    r: int,
)
    requires
        s0.len() == 128,
        s1.len() == 128,
        s2.len() == 128,
        k0.len() == 128,
        k1.len() == 128,
        k2.len() == 128,
    ensures
        xor_bits(xor_bits(linear_step(p, s0, k0, r, true), linear_step(p, s1, k1, r, false)), linear_step(p, s2, k2, r, false))
            == xor_bits(
            mat_vec(p.l[r]@, xor_bits(xor_bits(s0, s1), s2)),
            xor_bits(round_key(p, xor_bits(xor_bits(k0, k1), k2), r + 1), round_constant(p, r)),
        ),
{
    let l = p.l[r]@;
    let km = p.k[r + 1]@;
    lemma_mat_vec_linear(l, s0, s1);
    lemma_mat_vec_linear(l, xor_bits(s0, s1), s2);
    lemma_mat_vec_linear(km, k0, k1);
    lemma_mat_vec_linear(km, xor_bits(k0, k1), k2);
    let lhs = xor_bits(xor_bits(linear_step(p, s0, k0, r, true), linear_step(p, s1, k1, r, false)), linear_step(p, s2, k2, r, false));
    let rhs = xor_bits(
        mat_vec(l, xor_bits(xor_bits(s0, s1), s2)),
        xor_bits(round_key(p, xor_bits(xor_bits(k0, k1), k2), r + 1), round_constant(p, r)),
    );
    assert(lhs =~= rhs);
}

} // verus!
