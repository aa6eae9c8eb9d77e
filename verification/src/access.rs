//! The local steps of a batched DORAM access, on one component of the
//! replicated XOR shares: the flags that send a level to a dummy lookup,
//! folding each level's answer into the running result, and the values
//! written back to the speed cache.
//!
//! A query's running state is the value and alibi bits found so far and the
//! found bit. A level answers with a dummy lookup when its alibi bit is set
//! (the entry was read out of it before) or when the entry was already found
//! (`lemma_level_step_opens` states both steps over opened values).
use vstd::prelude::*;

verus! {

/// One component of a query's running state.
#[derive(Clone, Copy, Debug, PartialEq, Eq, Structural)]
pub struct QueryShare {
    pub value: u64,
    pub alibi: u8,
    pub found: bool,
}

/// Bit `level` of the alibi bits.
pub open spec fn alibi_bit(alibi: u8, level: int) -> bool {
    (alibi >> (level as u8)) & 1u8 == 1u8
}

/// The component of the flag that sends level `level` to a dummy lookup.
pub open spec fn use_dummy_spec(q: QueryShare, level: int) -> bool {
    alibi_bit(q.alibi, level) != q.found
}

/// The running state after folding in a level's answer.
pub open spec fn absorb_spec(q: QueryShare, value: u64, alibi: u8, found: bool) -> QueryShare {
    QueryShare { value: q.value ^ value, alibi: q.alibi ^ alibi, found: q.found != found }
}

/// The state that three components open to.
pub open spec fn open_query(q0: QueryShare, q1: QueryShare, q2: QueryShare) -> QueryShare {
    QueryShare {
        value: q0.value ^ q1.value ^ q2.value,
        alibi: q0.alibi ^ q1.alibi ^ q2.alibi,
        found: (q0.found != q1.found) != q2.found,
    }
}

/// The dummy-lookup flag component of one query for level `level`.
pub fn use_dummy_share(q: &QueryShare, level: usize) -> (d: bool)
    requires
        level < 8,
    ensures
        d == use_dummy_spec(*q, level as int),
{
    ((q.alibi >> (level as u8)) & 1 == 1) != q.found
}

/// Folds one level's answer into one query's running state.
pub fn absorb_level_answer(q: QueryShare, value: u64, alibi: u8, found: bool) -> (r: QueryShare)
    ensures
        r == absorb_spec(q, value, alibi, found),
{
    QueryShare { value: q.value ^ value, alibi: q.alibi ^ alibi, found: q.found != found }
}

/// The dummy-lookup flag components of every query for level `level`.
pub fn use_dummy_flags(queries: &[QueryShare], level: usize) -> (flags: Vec<bool>)
    requires
        level < 8,
    ensures
        flags@.len() == queries@.len(),
        forall|i: int| 0 <= i < queries@.len() ==> #[trigger] flags@[i] == use_dummy_spec(queries@[i], level as int),
{
    let mut flags: Vec<bool> = Vec::new();
    let mut i: usize = 0;
    while i < queries.len()
        invariant
            i <= queries@.len(),
            level < 8,
            flags@.len() == i,
            forall|j: int| 0 <= j < i ==> #[trigger] flags@[j] == use_dummy_spec(queries@[j], level as int),
        decreases queries@.len() - i,
    {
        flags.push(use_dummy_share(&queries[i], level));
        i = i + 1;
    }
    flags
}

/// Folds one level's answers (value, alibi bits and found bit components,
/// one per query) into the running states.
pub fn absorb_level_answers(queries: &mut Vec<QueryShare>, values: &[u64], alibis: &[u8], found: &[bool])
    requires
        values@.len() == old(queries)@.len(),
        alibis@.len() == old(queries)@.len(),
        found@.len() == old(queries)@.len(),
    ensures
        final(queries)@.len() == old(queries)@.len(),
        forall|i: int|
            0 <= i < old(queries)@.len() ==> #[trigger] final(queries)@[i] == absorb_spec(
                old(queries)@[i],
                values@[i],
                alibis@[i],
                found@[i],
            ),
{
    let n = queries.len();
    let mut i: usize = 0;
    while i < n
        invariant
            n == old(queries)@.len() == values@.len() == alibis@.len() == found@.len(),
            queries@.len() == n,
            i <= n,
            forall|j: int|
                0 <= j < i ==> #[trigger] queries@[j] == absorb_spec(old(queries)@[j], values@[j], alibis@[j], found@[j]),
            forall|j: int| i <= j < n ==> #[trigger] queries@[j] == old(queries)@[j],
        decreases n - i,
    {
        let next = absorb_level_answer(queries[i], values[i], alibis[i], found[i]);
        queries.set(i, next);
        i = i + 1;
    }
}

/// The values written back to the speed cache: a write's new value, and for
/// a read the value it found.
pub fn writeback_values(new_values: &[Option<u64>], outputs: &[u64]) -> (r: Vec<u64>)
    requires
        outputs@.len() == new_values@.len(),
    ensures
        r@.len() == new_values@.len(),
        forall|i: int|
            0 <= i < new_values@.len() ==> #[trigger] r@[i] == match new_values@[i] {
                Some(v) => v,
                None => outputs@[i],
            },
{
    let mut r: Vec<u64> = Vec::new();
    let mut i: usize = 0;
    while i < new_values.len()
        invariant
            i <= new_values@.len() == outputs@.len(),
            r@.len() == i,
            forall|j: int|
                0 <= j < i ==> #[trigger] r@[j] == match new_values@[j] {
                    Some(v) => v,
                    None => outputs@[j],
                },
        decreases new_values@.len() - i,
    {
        let v = match new_values[i] {
            Some(v) => v,
            None => outputs[i],
        };
        r.push(v);
        i = i + 1;
    }
    r
}

/// The local steps compute the protocol's step on opened values: the three
/// dummy-flag components open to the opened alibi bit xor the opened found
/// bit, and folding each component's answer into its state opens to the
/// opened state folded with the opened answer.
pub proof fn lemma_level_step_opens(
    q0: QueryShare,
    q1: QueryShare,
    q2: QueryShare,
    v0: u64,
    v1: u64,
    v2: u64,
    b0: u8,
    b1: u8,
    b2: u8,
    g0: bool,
    g1: bool,
    g2: bool,
    level: int,
)
    requires
        0 <= level < 8,
    ensures
        ((use_dummy_spec(q0, level) != use_dummy_spec(q1, level)) != use_dummy_spec(q2, level))
            == use_dummy_spec(open_query(q0, q1, q2), level),
        open_query(absorb_spec(q0, v0, b0, g0), absorb_spec(q1, v1, b1, g1), absorb_spec(q2, v2, b2, g2))
            == absorb_spec(open_query(q0, q1, q2), v0 ^ v1 ^ v2, b0 ^ b1 ^ b2, (g0 != g1) != g2),
{
    let l = level as u8;
    let (x0, x1, x2) = (q0.value, q1.value, q2.value);
    let (a0, a1, a2) = (q0.alibi, q1.alibi, q2.alibi);
    let (f0, f1, f2) = (q0.found, q1.found, q2.found);
    assert((x0 ^ v0) ^ (x1 ^ v1) ^ (x2 ^ v2) == (x0 ^ x1 ^ x2) ^ (v0 ^ v1 ^ v2) && (a0 ^ b0) ^ (a1 ^ b1) ^ (a2
        ^ b2) == (a0 ^ a1 ^ a2) ^ (b0 ^ b1 ^ b2) && (((((a0 >> l) & 1u8 == 1u8) != f0) != (((a1 >> l) & 1u8
        == 1u8) != f1)) != (((a2 >> l) & 1u8 == 1u8) != f2)) == ((((a0 ^ a1 ^ a2) >> l) & 1u8 == 1u8) != ((
    f0 != f1) != f2))) by (bit_vector)
        requires
            l < 8,
    ;
}

/// Folding in a level's answer treats the three components separately: the
/// found component becomes the old found component xor the answer's found
/// component, whatever the value and alibi shares; the alibi component
/// depends only on the old alibi and the answer's alibi, and the value
/// component only on the old value and the answer's value, each changing by
/// exactly the answer's share (xor). Folding in an
/// all-zero answer changes nothing, and folding in the same answer twice
/// gives the state back.
pub proof fn lemma_absorb_componentwise(q: QueryShare, v: u64, b: u8, g: bool, v2: u64, b2: u8, g2: bool)
    ensures
        absorb_spec(q, v, b, g).found == (q.found != g),
        absorb_spec(q, v, b, g).found == absorb_spec(q, v2, b2, g).found,
        absorb_spec(q, v, b, g).alibi == absorb_spec(q, v2, b, g2).alibi,
        absorb_spec(q, v, b, g).value == absorb_spec(q, v, b2, g2).value,
        absorb_spec(q, v, b, g).value ^ q.value == v,
        absorb_spec(q, v, b, g).alibi ^ q.alibi == b,
        absorb_spec(q, 0, 0, false) == q,
        absorb_spec(absorb_spec(q, v, b, g), v, b, g) == q,
{
    let x = q.value;
    let a = q.alibi;
    assert(x ^ 0u64 == x && (x ^ v) ^ v == x && (x ^ v) ^ x == v && a ^ 0u8 == a && (a ^ b) ^ b == a && (a ^ b)
        ^ a == b) by (bit_vector);
}

/// The dummy-lookup flag of level `level` depends on the state only through
/// alibi bit `level` and the found bit: states that agree there get the same
/// flag, flipping the found bit flips the flag, and with a clear alibi bit
/// the flag is the found bit.
pub proof fn lemma_use_dummy_reads_one_bit(q: QueryShare, q2: QueryShare, level: int)
    ensures
        alibi_bit(q.alibi, level) == alibi_bit(q2.alibi, level) && q.found == q2.found ==> use_dummy_spec(q, level)
            == use_dummy_spec(q2, level),
        alibi_bit(q.alibi, level) == alibi_bit(q2.alibi, level) && q.found != q2.found ==> use_dummy_spec(q, level)
            != use_dummy_spec(q2, level),
        !alibi_bit(q.alibi, level) ==> use_dummy_spec(q, level) == q.found,
{
}

} // verus!
