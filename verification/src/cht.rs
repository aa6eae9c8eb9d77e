//! Cuckoo hash table with a fixed-size stash.
//!
//! Every input block is an edge between its two candidate slots `h0` (in the
//! left column) and `h1` (in the right column). `build` orients the edges by
//! a depth-first search over the slot graph: each DFS tree gets one extra
//! edge (re-orienting the tree path towards the root makes room for it) and
//! every further edge of the component goes to the stash. The stash is then
//! topped up with placed entries until it holds exactly `stash_size` indices.
use vstd::prelude::*;

use crate::party::PartyId;
use vstd::arithmetic::power2::{lemma2_to64, lemma2_to64_rest, lemma_pow2_pos, lemma_pow2_unfold, pow2};
use vstd::bits::{
    lemma_u64_low_bits_mask_is_mod, lemma_u64_pow2_no_overflow, lemma_u64_shl_is_mul,
    lemma_usize_pow2_no_overflow, lemma_usize_shl_is_mul, low_bits_mask,
};
use vstd::set_lib::{
    lemma_int_range, lemma_len_difference, lemma_len_intersect, lemma_len_subset, lemma_len_union,
    set_int_range,
};

verus! {

/// A 128-bit block (a PRF tag whose low 32 bits carry a builder-order index).
pub type Block = u128;

#[derive(Clone, Copy, Debug, PartialEq, Eq, Structural)]
pub struct DirectedEdge {
    pub edge: usize,
    pub vertex: usize,
}

#[derive(Clone, Copy, Debug, PartialEq, Eq, Structural)]
pub enum StashState {
    Unset,
    Root,
    Unvisited,
    Stashed,
    Vertex(usize),
}

impl StashState {
    /// The vertex or edge index held by a regular state.
    pub fn unwrap_regular(&self) -> (v: usize)
        requires
            self is Vertex,
        ensures
            v == self->0,
    {
        match self {
            StashState::Vertex(v) => *v,
            _ => { proof { assert(false); } 0 },
        }
    }
}

/// Why `build` gives up.
#[derive(Clone, Copy, Debug, PartialEq, Eq, Structural)]
pub enum ChtError {
    /// The search left more entries without a slot than the stash holds.
    StashOverflow,
}

/// The left-column slot of `block`: bits 64.. of the block, modulo the
/// column length `2^log_single_col_len`.
pub open spec fn h0_spec(block: u128, log_single_col_len: u32) -> int {
    ((block >> 64u128) as int) % (pow2(log_single_col_len as nat) as int)
}

/// The right-column slot of `block`: bits 96.. of the block, modulo the
/// column length, offset by the column length.
pub open spec fn h1_spec(block: u128, log_single_col_len: u32) -> int {
    ((block >> 96u128) as int) % (pow2(log_single_col_len as nat) as int) + pow2(log_single_col_len as nat)
}

/// The low 32 bits of a block, as an index.
pub open spec fn low_index(block: u128) -> int {
    (block as int) % 0x1_0000_0000
}

proof fn lemma_mask_mod(x: u64, log: u32)
    requires
        log < 64,
    ensures
        (x & (((1u64 << log) - 1) as u64)) as int == (x as int) % (pow2(log as nat) as int),
        pow2(log as nat) == (1u64 << log),
        0 < pow2(log as nat),
{
    lemma_u64_pow2_no_overflow(log as nat);
    lemma_u64_shl_is_mul(1, log as u64);
    lemma_pow2_pos(log as nat);
    lemma_u64_low_bits_mask_is_mod(x, log as nat);
}

/// Both slots of a block lie in their column.
pub proof fn lemma_slots_in_range(block: u128, log: u32)
    ensures
        0 <= h0_spec(block, log) < pow2(log as nat),
        pow2(log as nat) <= h1_spec(block, log) < 2 * pow2(log as nat),
        h0_spec(block, log) != h1_spec(block, log),
{
    lemma_pow2_pos(log as nat);
}

/// The words from bit 64 and from bit 96 of a block fit in 64 bits.
proof fn lemma_high_words(block: u128)
    ensures
        ((block >> 64u128) as u64) as u128 == block >> 64u128,
        ((block >> 96u128) as u64) as u128 == block >> 96u128,
{
    assert(((block >> 64u128) as u64) as u128 == block >> 64u128 && ((block >> 96u128) as u64) as u128 == block
        >> 96u128) by (bit_vector);
}

/// Slot of `block` in the left column.
pub fn h0(block: Block, log_single_col_len: u32) -> (v: usize)
    requires
        log_single_col_len < usize::BITS,
    ensures
        v == h0_spec(block, log_single_col_len),
        v < pow2(log_single_col_len as nat),
{
    let hi = (block >> 64) as u64;
    proof {
        lemma_high_words(block);
    }
    proof {
        lemma_mask_mod(hi, log_single_col_len);
        lemma_usize_pow2_no_overflow(log_single_col_len as nat);
    }
    let hash_mask = (1u64 << log_single_col_len) - 1;
    (hi & hash_mask) as usize
}

/// Slot of `block` in the right column.
pub fn h1(block: Block, log_single_col_len: u32) -> (v: usize)
    requires
        log_single_col_len < usize::BITS,
    ensures
        v == h1_spec(block, log_single_col_len),
        pow2(log_single_col_len as nat) <= v < 2 * pow2(log_single_col_len as nat),
{
    let log = log_single_col_len;
    let hi = (block >> 96) as u64;
    proof {
        lemma_high_words(block);
    }
    proof {
        lemma_mask_mod(hi, log);
        lemma_pow2_unfold((log + 1) as nat);
        if log + 1 < usize::BITS {
            lemma_usize_pow2_no_overflow((log + 1) as nat);
        } else {
            lemma2_to64();
            lemma2_to64_rest();
        }
    }
    let hash_mask = (1u64 << log) - 1;
    let low = hi & hash_mask;
    let high = 1u64 << log;
    (low + high) as usize
}

/// `v` is one of the two slots of input `e`.
pub open spec fn is_end(x: Seq<u128>, log: u32, e: int, v: int) -> bool {
    v == h0_spec(x[e], log) || v == h1_spec(x[e], log)
}

/// Every adjacency entry of slot `u` is an input with `u` as one slot and the
/// entry's vertex as the other.
pub open spec fn adjacency_wf(adj: Seq<Vec<DirectedEdge>>, x: Seq<u128>, log: u32) -> bool {
    forall|u: int, k: int|
        0 <= u < adj.len() && 0 <= k < adj[u]@.len() ==> {
            let d = #[trigger] adj[u]@[k];
            &&& d.edge < x.len()
            &&& ((u == h0_spec(x[d.edge as int], log) && d.vertex == h1_spec(x[d.edge as int], log))
                || (u == h1_spec(x[d.edge as int], log) && d.vertex == h0_spec(
                x[d.edge as int],
                log,
            )))
        }
}

/// Input `e` appears in the adjacency list of its left slot.
pub open spec fn in_left_list(adj: Seq<Vec<DirectedEdge>>, x: Seq<u128>, log: u32, e: int) -> bool {
    exists|k: int|
        0 <= k < adj[h0_spec(x[e], log)]@.len() && (#[trigger] adj[h0_spec(x[e], log)]@[k]).edge
            == e
}

/// Input `e` appears in the adjacency list of its right slot.
pub open spec fn in_right_list(adj: Seq<Vec<DirectedEdge>>, x: Seq<u128>, log: u32, e: int) -> bool {
    exists|k: int|
        0 <= k < adj[h1_spec(x[e], log)]@.len() && (#[trigger] adj[h1_spec(x[e], log)]@[k]).edge
            == e
}

/// Every input appears in the adjacency lists of both its slots.
pub open spec fn adjacency_complete(adj: Seq<Vec<DirectedEdge>>, x: Seq<u128>, log: u32, n: int) -> bool {
    &&& forall|e: int| 0 <= e < n ==> #[trigger] in_left_list(adj, x, log, e)
    &&& forall|e: int| 0 <= e < n ==> #[trigger] in_right_list(adj, x, log, e)
}

/// Consistency of the per-slot parent marks.
pub open spec fn marks_wf(pv: Seq<StashState>, pe: Seq<StashState>, nv: int, n: int) -> bool {
    &&& pv.len() == nv
    &&& pe.len() == nv
    &&& forall|v: int|
        0 <= v < nv ==> {
            &&& ((#[trigger] pv[v]) is Unset <==> pe[v] is Unset)
            &&& (pv[v] is Root <==> pe[v] is Root)
            &&& !(pv[v] is Unvisited) && !(pv[v] is Stashed)
            &&& !(pe[v] is Unvisited) && !(pe[v] is Stashed)
            &&& (pv[v] is Vertex ==> pv[v]->0 < nv)
            &&& (pe[v] is Vertex ==> pe[v]->0 < n)
        }
}

/// Each edge is unvisited, stashed, or oriented towards one of its own slots
/// that has been visited.
pub open spec fn edge_states_wf(st: Seq<StashState>, pv: Seq<StashState>, x: Seq<u128>, log: u32) -> bool {
    &&& st.len() == x.len()
    &&& forall|e: int|
        0 <= e < st.len() ==> {
            ||| (#[trigger] st[e]) is Unvisited
            ||| st[e] is Stashed
            ||| (st[e] is Vertex && is_end(x, log, e, st[e]->0 as int) && 0 <= st[e]->0 < pv.len()
                && !(pv[st[e]->0 as int] is Unset))
        }
}

/// Both slots of every edge that has left the unvisited state are visited.
pub open spec fn ends_visited(st: Seq<StashState>, pv: Seq<StashState>, x: Seq<u128>, log: u32) -> bool {
    forall|e: int|
        0 <= e < st.len() && !(#[trigger] st[e] is Unvisited) ==> {
            &&& !(pv[h0_spec(x[e], log)] is Unset)
            &&& !(pv[h1_spec(x[e], log)] is Unset)
        }
}

/// Some edge is oriented towards slot `v`.
pub open spec fn occupied(st: Seq<StashState>, v: int) -> bool {
    exists|e: int| 0 <= e < st.len() && #[trigger] st[e] == StashState::Vertex(v as usize)
}

/// No two edges are oriented towards the same slot, except that slot `w` may
/// be shared with the parent edge of `w`.
pub open spec fn injective_except(st: Seq<StashState>, pe: Seq<StashState>, w: int) -> bool {
    forall|e1: int, e2: int|
        0 <= e1 < st.len() && 0 <= e2 < st.len() && e1 != e2 && #[trigger] st[e1] is Vertex && st[e1]
            == #[trigger] st[e2] ==> {
            &&& st[e1]->0 == w
            &&& (pe[w] == StashState::Vertex(e1 as usize) || pe[w] == StashState::Vertex(
                e2 as usize,
            ))
        }
}

/// No two edges are oriented towards the same slot.
pub open spec fn injective(st: Seq<StashState>) -> bool {
    forall|e1: int, e2: int|
        0 <= e1 < st.len() && 0 <= e2 < st.len() && e1 != e2 && #[trigger] st[e1] is Vertex ==> st[e1]
            != #[trigger] st[e2]
}

/// Every edge with `v` as one of its slots has left the unvisited state.
pub open spec fn slot_done(x: Seq<u128>, log: u32, st: Seq<StashState>, v: int) -> bool {
    forall|e: int| 0 <= e < st.len() && #[trigger] is_end(x, log, e, v) ==> !(st[e] is Unvisited)
}

/// The DFS tree of the current component: every non-root member has a
/// parent one level up in the tree, joined by its parent edge.
pub open spec fn tree_wf(
    pv: Seq<StashState>,
    pe: Seq<StashState>,
    depth: Seq<nat>,
    cur: Set<int>,
    root: int,
    x: Seq<u128>,
    log: u32,
) -> bool {
    &&& cur.contains(root)
    &&& pv[root] == StashState::Root
    &&& depth.len() == pv.len()
    &&& depth[root] == 0
    &&& forall|u: int| #[trigger] cur.contains(u) ==> 0 <= u < pv.len() && !(pv[u] is Unset)
    &&& forall|u: int| #[trigger] cur.contains(u) && pv[u] is Root ==> u == root
    &&& forall|u: int|
        #[trigger] cur.contains(u) && u != root ==> {
            &&& pv[u] is Vertex
            &&& cur.contains(pv[u]->0 as int)
            &&& depth[u] == depth[pv[u]->0 as int] + 1
            &&& pe[u] is Vertex
            &&& is_end(x, log, pe[u]->0 as int, u)
            &&& is_end(x, log, pe[u]->0 as int, pv[u]->0 as int)
        }
}

/// Parent edges of tree members at depth at most `bound` point at their child.
pub open spec fn tree_edges_down(
    pe: Seq<StashState>,
    st: Seq<StashState>,
    depth: Seq<nat>,
    cur: Set<int>,
    root: int,
    bound: int,
) -> bool {
    forall|u: int|
        #[trigger] cur.contains(u) && u != root && depth[u] <= bound ==> 0 <= pe[u]->0 < st.len()
            && st[pe[u]->0 as int] == StashState::Vertex(u as usize)
}

/// The final layout: `stashed` lists the stashed inputs in increasing order,
/// every other input `e` sits in table slot `slot[e]`, one of its two slots,
/// no two of them share a slot, every other slot is empty (zero), and the
/// stash holds the low 32 bits of the stashed inputs.
pub open spec fn valid_layout(
    x: Seq<u128>,
    log: u32,
    table: Seq<u128>,
    stash: Seq<usize>,
    stashed: Seq<int>,
    slot: Seq<int>,
) -> bool {
    &&& stashed.len() == stash.len()
    &&& slot.len() == x.len()
    &&& forall|i: int| 0 <= i < stashed.len() ==> 0 <= #[trigger] stashed[i] < x.len()
    &&& forall|i: int, j: int| 0 <= i < j < stashed.len() ==> stashed[i] < stashed[j]
    &&& forall|i: int| 0 <= i < stash.len() ==> #[trigger] stash[i] == low_index(x[stashed[i]])
    &&& forall|e: int|
        0 <= e < x.len() && !stashed.contains(e) ==> {
            &&& is_end(x, log, e, #[trigger] slot[e])
            &&& 0 <= slot[e] < table.len()
            &&& table[slot[e]] == x[e]
        }
    &&& forall|e1: int, e2: int|
        0 <= e1 < x.len() && 0 <= e2 < x.len() && e1 != e2 && !stashed.contains(e1)
            && !stashed.contains(e2) ==> #[trigger] slot[e1] != #[trigger] slot[e2]
    &&& forall|j: int|
        0 <= j < table.len() && (forall|e: int|
            0 <= e < x.len() && !stashed.contains(e) ==> #[trigger] slot[e] != j) ==> table[j]
            == 0
}

/// The parent edges of every tree member point at their child.
pub open spec fn tree_edges_all_down(
    pe: Seq<StashState>,
    st: Seq<StashState>,
    cur: Set<int>,
    root: int,
) -> bool {
    forall|u: int|
        #[trigger] cur.contains(u) && u != root ==> 0 <= pe[u]->0 < st.len() && st[pe[u]->0 as int]
            == StashState::Vertex(u as usize)
}

/// What the DFS of the component rooted at `s` keeps: consistent marks and
/// edge states, the DFS tree of the component `cur` with its edges pointing
/// at the children, injectivity of the orientation up to the slot of the
/// component's extra edge, a free root (unless the extra edge took it), and
/// every vertex visited before this component fully processed.
#[verifier::opaque]
spec fn component_inv(
    x: Seq<u128>,
    log: u32,
    pv: Seq<StashState>,
    pe: Seq<StashState>,
    st: Seq<StashState>,
    pv0: Seq<StashState>,
    depth: Seq<nat>,
    cur: Set<int>,
    extra: StashState,
    s: int,
) -> bool {
    let nv = pv.len() as int;
    let n = x.len() as int;
    &&& nv <= usize::MAX
    &&& n <= usize::MAX
    &&& marks_wf(pv, pe, nv, n)
    &&& edge_states_wf(st, pv, x, log)
    &&& tree_wf(pv, pe, depth, cur, s, x, log)
    &&& tree_edges_all_down(pe, st, cur, s)
    &&& (extra is Unset ==> injective(st))
    &&& (extra is Vertex ==> {
        &&& extra->0 < n
        &&& st[extra->0 as int] is Vertex
        &&& cur.contains(st[extra->0 as int]->0 as int)
        &&& injective_except(st, pe, st[extra->0 as int]->0 as int)
    })
    &&& !(extra is Root) && !(extra is Unvisited) && !(extra is Stashed)
    &&& (forall|e: int|
        0 <= e < n && #[trigger] st[e] == StashState::Vertex(s as usize) ==> extra
            == StashState::Vertex(e as usize))
    &&& pv0.len() == nv
    &&& (forall|v: int| 0 <= v < nv && !(pv0[v] is Unset) ==> !(#[trigger] pv[v] is Unset))
    &&& (forall|v: int| #[trigger] cur.contains(v) ==> pv0[v] is Unset)
    &&& (forall|v: int|
        0 <= v < nv && !(#[trigger] pv[v] is Unset) && !cur.contains(v) ==> slot_done(x, log, st, v))
}

/// What the search of one component keeps beside `component_inv`: edges
/// that left the unvisited state have both slots visited, edges handled
/// before the component are untouched, the slots visited since the start
/// form the tree, only a used extra edge lets edges go to the stash, and the
/// extra edge is not the parent edge of the slot it reaches.
#[verifier::opaque]
spec fn frame_inv(
    x: Seq<u128>,
    log: u32,
    pv: Seq<StashState>,
    pe: Seq<StashState>,
    st: Seq<StashState>,
    pv0: Seq<StashState>,
    st00: Seq<StashState>,
    cur: Set<int>,
    extra: StashState,
    s: int,
) -> bool {
    let nv = pv.len() as int;
    let n = x.len() as int;
    &&& ends_visited(st, pv, x, log)
    &&& ends_visited(st00, pv0, x, log)
    &&& st00.len() == n
    &&& pv0.len() == nv
    &&& (forall|e: int| 0 <= e < n && !(st00[e] is Unvisited) ==> #[trigger] st[e] == st00[e])
    &&& (forall|v: int| 0 <= v < nv && pv0[v] is Unset && !(#[trigger] pv[v] is Unset) ==> cur.contains(v))
    &&& (forall|e: int| 0 <= e < n && #[trigger] st[e] is Stashed && st00[e] is Unvisited ==> extra is Vertex)
    &&& (extra is Vertex ==> pe[st[extra->0 as int]->0 as int] != extra)
    &&& (forall|v: int| 0 <= v < nv && !(#[trigger] pv0[v] is Unset) ==> slot_done(x, log, st00, v))
}

/// What the re-orientation keeps beside `reorient_inv`: the facts of
/// `frame_inv` that stay true, every tree member but the root occupied, and
/// slot `w` occupied by an edge other than its parent edge.
#[verifier::opaque]
spec fn reorient_frame(
    x: Seq<u128>,
    log: u32,
    pv: Seq<StashState>,
    pe: Seq<StashState>,
    st: Seq<StashState>,
    pv0: Seq<StashState>,
    st00: Seq<StashState>,
    cur: Set<int>,
    s: int,
    w: int,
) -> bool {
    let nv = pv.len() as int;
    let n = x.len() as int;
    &&& ends_visited(st, pv, x, log)
    &&& ends_visited(st00, pv0, x, log)
    &&& st00.len() == n
    &&& pv0.len() == nv
    &&& (forall|e: int| 0 <= e < n && !(st00[e] is Unvisited) ==> #[trigger] st[e] == st00[e])
    &&& (forall|v: int| 0 <= v < nv && pv0[v] is Unset && !(#[trigger] pv[v] is Unset) ==> cur.contains(v))
    &&& (forall|v: int| #[trigger] cur.contains(v) ==> pv0[v] is Unset)
    &&& (forall|u: int| #[trigger] cur.contains(u) && u != s ==> occupied(st, u))
    &&& exists|e: int| 0 <= e < n && #[trigger] st[e] == StashState::Vertex(w as usize) && pe[w] != StashState::Vertex(e as usize)
}

/// What the re-orientation of the tree path from slot `w` to the root
/// keeps: injectivity up to `w`, parent edges down to the depth of `w`
/// still pointing at their child, and a free root while `w` is not the root.
#[verifier::opaque]
spec fn reorient_inv(
    x: Seq<u128>,
    log: u32,
    pv: Seq<StashState>,
    pe: Seq<StashState>,
    st: Seq<StashState>,
    depth: Seq<nat>,
    cur: Set<int>,
    s: int,
    w: int,
) -> bool {
    &&& pv.len() <= usize::MAX
    &&& x.len() <= usize::MAX
    &&& marks_wf(pv, pe, pv.len() as int, x.len() as int)
    &&& edge_states_wf(st, pv, x, log)
    &&& tree_wf(pv, pe, depth, cur, s, x, log)
    &&& cur.contains(w)
    &&& tree_edges_down(pe, st, depth, cur, s, depth[w] as int)
    &&& injective_except(st, pe, w)
    &&& (w != s ==> forall|e: int|
        0 <= e < x.len() ==> #[trigger] st[e] != StashState::Vertex(s as usize))
}

/// Only unvisited edges change state, so slots that were done stay done.
proof fn lemma_done_monotone(x: Seq<u128>, log: u32, st: Seq<StashState>, st2: Seq<StashState>)
    requires
        st.len() == st2.len(),
        forall|e: int| 0 <= e < st.len() && !(#[trigger] st[e] is Unvisited) ==> !(st2[e] is Unvisited),
    ensures
        forall|v: int| #[trigger] slot_done(x, log, st, v) ==> slot_done(x, log, st2, v),
{
    assert forall|v: int| #[trigger] slot_done(x, log, st, v) implies slot_done(x, log, st2, v) by {
        assert forall|e: int|
            0 <= e < st2.len() && #[trigger] is_end(x, log, e, v) implies !(st2[e] is Unvisited) by {
            assert(!(st[e] is Unvisited));
        }
    }
}

/// Adding the tree edge `e` from `curr` to the unvisited slot `v`.
proof fn lemma_tree_edge(
    x: Seq<u128>,
    log: u32,
    pv: Seq<StashState>,
    pe: Seq<StashState>,
    st: Seq<StashState>,
    pv0: Seq<StashState>,
    depth: Seq<nat>,
    cur: Set<int>,
    extra: StashState,
    s: int,
    curr: int,
    e: int,
    v: int,
)
    requires
        component_inv(x, log, pv, pe, st, pv0, depth, cur, extra, s),
        0 <= e < x.len(),
        0 <= v < pv.len(),
        cur.contains(curr),
        st[e] is Unvisited,
        pv[v] is Unset,
        is_end(x, log, e, curr),
        is_end(x, log, e, v),
        curr != v,
    ensures
        component_inv(
            x,
            log,
            pv.update(v, StashState::Vertex(curr as usize)),
            pe.update(v, StashState::Vertex(e as usize)),
            st.update(e, StashState::Vertex(v as usize)),
            pv0,
            depth.update(v, depth[curr] + 1),
            cur.insert(v),
            extra,
            s,
        ),
{
    reveal(component_inv);
    let pv2 = pv.update(v, StashState::Vertex(curr as usize));
    let pe2 = pe.update(v, StashState::Vertex(e as usize));
    let st2 = st.update(e, StashState::Vertex(v as usize));
    let depth2 = depth.update(v, depth[curr] + 1);
    let cur2 = cur.insert(v);
    assert(!cur.contains(v));
    assert forall|e2: int| 0 <= e2 < x.len() && e2 != e implies #[trigger] st[e2] != StashState::Vertex(
        v as usize,
    ) by {}
    assert(marks_wf(pv2, pe2, pv.len() as int, x.len() as int));
    assert(edge_states_wf(st2, pv2, x, log));
    assert(tree_wf(pv2, pe2, depth2, cur2, s, x, log));
    assert(tree_edges_all_down(pe2, st2, cur2, s)) by {
        assert forall|u: int| #[trigger] cur2.contains(u) && u != s implies 0 <= pe2[u]->0 < st2.len()
            && st2[pe2[u]->0 as int] == StashState::Vertex(u as usize) by {
            if u != v {
                assert(st[pe[u]->0 as int] == StashState::Vertex(u as usize));
            }
        }
    }
    if extra is Unset {
        assert(injective(st2));
    } else {
        assert(injective_except(st2, pe2, st2[extra->0 as int]->0 as int));
    }
    lemma_done_monotone(x, log, st, st2);
}

/// Orienting the component's first non-tree edge `e` towards the visited
/// slot `v`.
proof fn lemma_extra_edge(
    x: Seq<u128>,
    log: u32,
    pv: Seq<StashState>,
    pe: Seq<StashState>,
    st: Seq<StashState>,
    pv0: Seq<StashState>,
    depth: Seq<nat>,
    cur: Set<int>,
    s: int,
    curr: int,
    e: int,
    v: int,
)
    requires
        component_inv(x, log, pv, pe, st, pv0, depth, cur, StashState::Unset, s),
        0 <= e < x.len(),
        0 <= v < pv.len(),
        cur.contains(curr),
        st[e] is Unvisited,
        !(pv[v] is Unset),
        is_end(x, log, e, curr),
        is_end(x, log, e, v),
    ensures
        component_inv(
            x,
            log,
            pv,
            pe,
            st.update(e, StashState::Vertex(v as usize)),
            pv0,
            depth,
            cur,
            StashState::Vertex(e as usize),
            s,
        ),
{
    reveal(component_inv);
    let st2 = st.update(e, StashState::Vertex(v as usize));
    // `v` has been visited and still has an unvisited edge, so it is in the
    // current component.
    if !cur.contains(v) {
        assert(slot_done(x, log, st, v));
        assert(false);
    }
    if v == s {
        assert(injective(st2)) by {
            assert forall|e1: int, e2: int|
                0 <= e1 < st2.len() && 0 <= e2 < st2.len() && e1 != e2 && #[trigger] st2[e1] is Vertex
                implies st2[e1] != #[trigger] st2[e2] by {
                if e1 == e && st2[e2] == st2[e1] {
                    assert(st[e2] == StashState::Vertex(s as usize));
                } else if e2 == e && st2[e2] == st2[e1] {
                    assert(st[e1] == StashState::Vertex(s as usize));
                }
            }
        }
    } else {
        assert forall|e1: int, e2: int|
            0 <= e1 < st2.len() && 0 <= e2 < st2.len() && e1 != e2 && #[trigger] st2[e1] is Vertex
                && st2[e1] == #[trigger] st2[e2] implies {
            &&& st2[e1]->0 == v
            &&& (pe[v] == StashState::Vertex(e1 as usize) || pe[v] == StashState::Vertex(
                e2 as usize,
            ))
        } by {
            let ev = pe[v]->0 as int;
            assert(st[ev] == StashState::Vertex(v as usize));
            if e1 == e {
                assert(st[e2] == StashState::Vertex(v as usize));
            } else if e2 == e {
                assert(st[e1] == StashState::Vertex(v as usize));
            } else {
                assert(st[e1] == st[e2]);
            }
        }
    }
    assert(edge_states_wf(st2, pv, x, log));
    assert(tree_edges_all_down(pe, st2, cur, s)) by {
        assert forall|u: int| #[trigger] cur.contains(u) && u != s implies 0 <= pe[u]->0 < st2.len()
            && st2[pe[u]->0 as int] == StashState::Vertex(u as usize) by {
            assert(st[pe[u]->0 as int] == StashState::Vertex(u as usize));
        }
    }
    lemma_done_monotone(x, log, st, st2);
}

/// Stashing the unvisited edge `e`.
proof fn lemma_stash_edge(
    x: Seq<u128>,
    log: u32,
    pv: Seq<StashState>,
    pe: Seq<StashState>,
    st: Seq<StashState>,
    pv0: Seq<StashState>,
    depth: Seq<nat>,
    cur: Set<int>,
    extra: StashState,
    s: int,
    e: int,
)
    requires
        component_inv(x, log, pv, pe, st, pv0, depth, cur, extra, s),
        0 <= e < x.len(),
        st[e] is Unvisited,
    ensures
        component_inv(x, log, pv, pe, st.update(e, StashState::Stashed), pv0, depth, cur, extra, s),
{
    reveal(component_inv);
    let st2 = st.update(e, StashState::Stashed);
    assert(tree_edges_all_down(pe, st2, cur, s)) by {
        assert forall|u: int| #[trigger] cur.contains(u) && u != s implies 0 <= pe[u]->0 < st2.len()
            && st2[pe[u]->0 as int] == StashState::Vertex(u as usize) by {
            assert(st[pe[u]->0 as int] == StashState::Vertex(u as usize));
        }
    }
    if extra is Vertex {
        assert(injective_except(st2, pe, st2[extra->0 as int]->0 as int));
    }
    lemma_done_monotone(x, log, st, st2);
}

/// Once the DFS of the component is over, the re-orientation starts at the
/// slot of the extra edge.
proof fn lemma_start_reorient(
    x: Seq<u128>,
    log: u32,
    pv: Seq<StashState>,
    pe: Seq<StashState>,
    st: Seq<StashState>,
    pv0: Seq<StashState>,
    depth: Seq<nat>,
    cur: Set<int>,
    extra: StashState,
    s: int,
)
    requires
        component_inv(x, log, pv, pe, st, pv0, depth, cur, extra, s),
        extra is Vertex,
    ensures
        reorient_inv(x, log, pv, pe, st, depth, cur, s, st[extra->0 as int]->0 as int),
{
    reveal(component_inv);
    reveal(reorient_inv);
    let w = st[extra->0 as int]->0 as int;
    if w != s {
        assert forall|e: int| 0 <= e < x.len() implies #[trigger] st[e] != StashState::Vertex(
            s as usize,
        ) by {
            if st[e] == StashState::Vertex(s as usize) {
                assert(extra == StashState::Vertex(e as usize));
            }
        }
    }
}

/// One step of the re-orientation: the parent edge of `w` turns towards the
/// parent of `w`.
proof fn lemma_flip(
    x: Seq<u128>,
    log: u32,
    pv: Seq<StashState>,
    pe: Seq<StashState>,
    st: Seq<StashState>,
    depth: Seq<nat>,
    cur: Set<int>,
    s: int,
    w: int,
)
    requires
        reorient_inv(x, log, pv, pe, st, depth, cur, s, w),
        pv[w] != StashState::Root,
    ensures
        w != s,
        pv[w] is Vertex,
        pe[w] is Vertex,
        0 <= pe[w]->0 < st.len(),
        st[pe[w]->0 as int] is Vertex,
        depth[pv[w]->0 as int] < depth[w],
        reorient_inv(
            x,
            log,
            pv,
            pe,
            st.update(pe[w]->0 as int, pv[w]),
            depth,
            cur,
            s,
            pv[w]->0 as int,
        ),
{
    reveal(reorient_inv);
    let p = pv[w]->0 as int;
    let ew = pe[w]->0 as int;
    let st2 = st.update(ew, pv[w]);
    assert(st[ew] == StashState::Vertex(w as usize));
    assert forall|e1: int, e2: int|
        0 <= e1 < st2.len() && 0 <= e2 < st2.len() && e1 != e2 && #[trigger] st2[e1] is Vertex && st2[e1]
            == #[trigger] st2[e2] implies {
        &&& st2[e1]->0 == p
        &&& (pe[p] == StashState::Vertex(e1 as usize) || pe[p] == StashState::Vertex(e2 as usize))
    } by {
        if e1 != ew && e2 != ew {
            assert(st[e1] == st[e2]);
        } else {
            let other = if e1 == ew {
                e2
            } else {
                e1
            };
            assert(st[other] == StashState::Vertex(p as usize));
            if p == s {
                assert(false);
            } else {
                let ep = pe[p]->0 as int;
                assert(depth[p] <= depth[w]);
                assert(st[ep] == StashState::Vertex(p as usize));
                if ep != other {
                    assert(st[ep] == st[other]);
                }
            }
        }
    }
    assert forall|u: int| #[trigger] cur.contains(u) && u != s && depth[u] <= depth[p] implies 0
        <= pe[u]->0 < st2.len() && st2[pe[u]->0 as int] == StashState::Vertex(u as usize) by {
        assert(st[pe[u]->0 as int] == StashState::Vertex(u as usize));
    }
    assert(edge_states_wf(st2, pv, x, log));
}

/// The re-orientation ends at the root with an injective orientation.
proof fn lemma_end_reorient(
    x: Seq<u128>,
    log: u32,
    pv: Seq<StashState>,
    pe: Seq<StashState>,
    st: Seq<StashState>,
    depth: Seq<nat>,
    cur: Set<int>,
    s: int,
    w: int,
)
    requires
        reorient_inv(x, log, pv, pe, st, depth, cur, s, w),
        pv[w] == StashState::Root,
    ensures
        injective(st),
        marks_wf(pv, pe, pv.len() as int, x.len() as int),
        edge_states_wf(st, pv, x, log),
{
    reveal(reorient_inv);
    assert(w == s);
}

/// An edge with two distinct slots `a` and `b` has exactly these two slots.
proof fn lemma_two_ends(x: Seq<u128>, log: u32, e: int, a: int, b: int)
    requires
        is_end(x, log, e, a),
        is_end(x, log, e, b),
        a != b,
    ensures
        (h0_spec(x[e], log) == a && h1_spec(x[e], log) == b) || (h0_spec(x[e], log) == b && h1_spec(
            x[e],
            log,
        ) == a),
{
}

/// The search starts a component with the frame facts in place.
proof fn lemma_frame_start(
    x: Seq<u128>,
    log: u32,
    pv: Seq<StashState>,
    pe: Seq<StashState>,
    st: Seq<StashState>,
    pv0: Seq<StashState>,
    cur: Set<int>,
    s: int,
)
    requires
        ends_visited(st, pv0, x, log),
        st.len() == x.len(),
        pv.len() == pv0.len(),
        0 <= s < pv.len(),
        cur == Set::<int>::empty().insert(s),
        pv.len() == 2 * pow2(log as nat),
        forall|v: int| 0 <= v < pv.len() && v != s ==> pv[v] == pv0[v],
        pv[s] == StashState::Root,
        forall|v: int| 0 <= v < pv0.len() && !(#[trigger] pv0[v] is Unset) ==> slot_done(x, log, st, v),
    ensures
        frame_inv(x, log, pv, pe, st, pv0, st, cur, StashState::Unset, s),
{
    reveal(frame_inv);
    assert forall|e: int| 0 <= e < st.len() && !(#[trigger] st[e] is Unvisited) implies {
        &&& !(pv[h0_spec(x[e], log)] is Unset)
        &&& !(pv[h1_spec(x[e], log)] is Unset)
    } by {
        lemma_slots_in_range(x[e], log);
        assert(!(pv0[h0_spec(x[e], log)] is Unset));
        assert(!(pv0[h1_spec(x[e], log)] is Unset));
    }
}

/// A tree edge from `curr` to the unvisited slot `v` keeps the frame facts.
proof fn lemma_frame_tree(
    x: Seq<u128>,
    log: u32,
    pv: Seq<StashState>,
    pe: Seq<StashState>,
    st: Seq<StashState>,
    pv0: Seq<StashState>,
    st00: Seq<StashState>,
    depth: Seq<nat>,
    cur: Set<int>,
    extra: StashState,
    s: int,
    curr: int,
    e: int,
    v: int,
)
    requires
        component_inv(x, log, pv, pe, st, pv0, depth, cur, extra, s),
        frame_inv(x, log, pv, pe, st, pv0, st00, cur, extra, s),
        cur.contains(curr),
        0 <= e < x.len(),
        0 <= v < pv.len(),
        st[e] is Unvisited,
        pv[v] is Unset,
        is_end(x, log, e, curr),
        is_end(x, log, e, v),
        pv.len() == 2 * pow2(log as nat),
    ensures
        frame_inv(
            x,
            log,
            pv.update(v, StashState::Vertex(curr as usize)),
            pe.update(v, StashState::Vertex(e as usize)),
            st.update(e, StashState::Vertex(v as usize)),
            pv0,
            st00,
            cur.insert(v),
            extra,
            s,
        ),
{
    reveal(component_inv);
    reveal(frame_inv);
    let pv2 = pv.update(v, StashState::Vertex(curr as usize));
    let st2 = st.update(e, StashState::Vertex(v as usize));
    assert(curr != v);
    lemma_two_ends(x, log, e, curr, v);
    assert forall|f: int| 0 <= f < st2.len() && !(#[trigger] st2[f] is Unvisited) implies {
        &&& !(pv2[h0_spec(x[f], log)] is Unset)
        &&& !(pv2[h1_spec(x[f], log)] is Unset)
    } by {
        lemma_slots_in_range(x[f], log);
        if f != e {
            assert(st2[f] == st[f]);
        }
    }
    if extra is Vertex {
        assert(st[extra->0 as int] is Vertex);
        assert(extra->0 != e);
    }
}

/// The first non-tree edge of the component, from `curr` to the visited
/// slot `v`, keeps the frame facts.
proof fn lemma_frame_extra(
    x: Seq<u128>,
    log: u32,
    pv: Seq<StashState>,
    pe: Seq<StashState>,
    st: Seq<StashState>,
    pv0: Seq<StashState>,
    st00: Seq<StashState>,
    depth: Seq<nat>,
    cur: Set<int>,
    s: int,
    curr: int,
    e: int,
    v: int,
)
    requires
        component_inv(x, log, pv, pe, st, pv0, depth, cur, StashState::Unset, s),
        frame_inv(x, log, pv, pe, st, pv0, st00, cur, StashState::Unset, s),
        cur.contains(curr),
        0 <= e < x.len(),
        0 <= v < pv.len(),
        st[e] is Unvisited,
        !(pv[v] is Unset),
        is_end(x, log, e, curr),
        is_end(x, log, e, v),
        curr != v,
    ensures
        frame_inv(
            x,
            log,
            pv,
            pe,
            st.update(e, StashState::Vertex(v as usize)),
            pv0,
            st00,
            cur,
            StashState::Vertex(e as usize),
            s,
        ),
{
    reveal(component_inv);
    reveal(frame_inv);
    let st2 = st.update(e, StashState::Vertex(v as usize));
    lemma_two_ends(x, log, e, curr, v);
    assert forall|f: int| 0 <= f < st2.len() && !(#[trigger] st2[f] is Unvisited) implies {
        &&& !(pv[h0_spec(x[f], log)] is Unset)
        &&& !(pv[h1_spec(x[f], log)] is Unset)
    } by {
        if f != e {
            assert(st2[f] == st[f]);
        }
    }
    if !(pv0[v] is Unset) {
        assert(slot_done(x, log, st00, v));
        assert(!(st00[e] is Unvisited));
        assert(st[e] == st00[e]);
    }
    assert(cur.contains(v));
    if v != s {
        assert(st[pe[v]->0 as int] == StashState::Vertex(v as usize));
    }
    assert(st2[e]->0 == v);
}

/// An edge that goes to the stash keeps the frame facts.
proof fn lemma_frame_stash(
    x: Seq<u128>,
    log: u32,
    pv: Seq<StashState>,
    pe: Seq<StashState>,
    st: Seq<StashState>,
    pv0: Seq<StashState>,
    st00: Seq<StashState>,
    depth: Seq<nat>,
    cur: Set<int>,
    extra: StashState,
    s: int,
    curr: int,
    e: int,
    v: int,
)
    requires
        component_inv(x, log, pv, pe, st, pv0, depth, cur, extra, s),
        frame_inv(x, log, pv, pe, st, pv0, st00, cur, extra, s),
        extra != StashState::Unset,
        cur.contains(curr),
        0 <= e < x.len(),
        0 <= v < pv.len(),
        st[e] is Unvisited,
        !(pv[v] is Unset),
        is_end(x, log, e, curr),
        is_end(x, log, e, v),
        curr != v,
    ensures
        frame_inv(x, log, pv, pe, st.update(e, StashState::Stashed), pv0, st00, cur, extra, s),
{
    reveal(component_inv);
    reveal(frame_inv);
    let st2 = st.update(e, StashState::Stashed);
    lemma_two_ends(x, log, e, curr, v);
    assert forall|f: int| 0 <= f < st2.len() && !(#[trigger] st2[f] is Unvisited) implies {
        &&& !(pv[h0_spec(x[f], log)] is Unset)
        &&& !(pv[h1_spec(x[f], log)] is Unset)
    } by {
        if f != e {
            assert(st2[f] == st[f]);
        }
    }
    assert(st[extra->0 as int] is Vertex);
    assert(extra->0 != e);
    assert(st2[extra->0 as int] == st[extra->0 as int]);
}

/// The re-orientation starts with every tree member but the root occupied
/// by its parent edge, and the slot of the extra edge occupied by it.
proof fn lemma_reorient_frame_start(
    x: Seq<u128>,
    log: u32,
    pv: Seq<StashState>,
    pe: Seq<StashState>,
    st: Seq<StashState>,
    pv0: Seq<StashState>,
    st00: Seq<StashState>,
    depth: Seq<nat>,
    cur: Set<int>,
    extra: StashState,
    s: int,
)
    requires
        component_inv(x, log, pv, pe, st, pv0, depth, cur, extra, s),
        frame_inv(x, log, pv, pe, st, pv0, st00, cur, extra, s),
        extra is Vertex,
    ensures
        reorient_frame(x, log, pv, pe, st, pv0, st00, cur, s, st[extra->0 as int]->0 as int),
{
    reveal(component_inv);
    reveal(frame_inv);
    reveal(reorient_frame);
    let w = st[extra->0 as int]->0 as int;
    assert forall|u: int| #[trigger] cur.contains(u) && u != s implies occupied(st, u) by {
        assert(st[pe[u]->0 as int] == StashState::Vertex(u as usize));
    }
    let e0 = extra->0 as int;
    assert(st[e0] == StashState::Vertex(w as usize));
    assert(pe[w] != StashState::Vertex(e0 as usize));
}

/// One step of the re-orientation keeps the frame facts and moves the
/// doubly claimed slot from `w` to its parent.
proof fn lemma_reorient_frame_step(
    x: Seq<u128>,
    log: u32,
    pv: Seq<StashState>,
    pe: Seq<StashState>,
    st: Seq<StashState>,
    pv0: Seq<StashState>,
    st00: Seq<StashState>,
    depth: Seq<nat>,
    cur: Set<int>,
    s: int,
    w: int,
)
    requires
        reorient_inv(x, log, pv, pe, st, depth, cur, s, w),
        reorient_frame(x, log, pv, pe, st, pv0, st00, cur, s, w),
        pv[w] != StashState::Root,
    ensures
        reorient_frame(
            x,
            log,
            pv,
            pe,
            st.update(pe[w]->0 as int, StashState::Vertex(pv[w]->0)),
            pv0,
            st00,
            cur,
            s,
            pv[w]->0 as int,
        ),
{
    reveal(reorient_inv);
    reveal(reorient_frame);
    let p = pv[w]->0 as int;
    let ew = pe[w]->0 as int;
    let st2 = st.update(ew, StashState::Vertex(p as usize));
    assert(w != s);
    assert(cur.contains(p));
    assert(depth[w] == depth[p] + 1);
    assert(st[ew] == StashState::Vertex(w as usize));
    assert(is_end(x, log, ew, w));
    assert(is_end(x, log, ew, p));
    lemma_two_ends(x, log, ew, w, p);
    assert(0 <= ew < x.len());
    assert(st00[ew] is Unvisited) by {
        if !(st00[ew] is Unvisited) {
            assert(!(pv0[w] is Unset));
        }
    }
    assert forall|f: int| 0 <= f < st2.len() && !(#[trigger] st2[f] is Unvisited) implies {
        &&& !(pv[h0_spec(x[f], log)] is Unset)
        &&& !(pv[h1_spec(x[f], log)] is Unset)
    } by {
        if f != ew {
            assert(st2[f] == st[f]);
        } else {
            assert(!(st[f] is Unvisited));
        }
    }
    assert forall|f: int| 0 <= f < x.len() && !(st00[f] is Unvisited) implies #[trigger] st2[f] == st00[f] by {
        assert(f != ew);
    }
    let ew_star = choose|f: int|
        0 <= f < x.len() && #[trigger] st[f] == StashState::Vertex(w as usize) && pe[w] != StashState::Vertex(
            f as usize,
        );
    assert forall|u: int| #[trigger] cur.contains(u) && u != s implies occupied(st2, u) by {
        if u == p {
            assert(st2[ew] == StashState::Vertex(u as usize));
        } else if u == w {
            assert(ew_star != ew);
            assert(st2[ew_star] == StashState::Vertex(u as usize));
        } else {
            assert(occupied(st, u));
            let f = choose|f: int| 0 <= f < st.len() && #[trigger] st[f] == StashState::Vertex(u as usize);
            assert(f != ew);
            assert(st2[f] == StashState::Vertex(u as usize));
        }
    }
    assert(pe[p] != StashState::Vertex(ew as usize)) by {
        if p != s {
            let q = pv[p]->0 as int;
            assert(cur.contains(q));
            assert(depth[p] == depth[q] + 1);
            if pe[p] == StashState::Vertex(ew as usize) {
                assert(is_end(x, log, ew, q));
                assert(q == w || q == p);
            }
        }
    }
    assert(st2[ew] == StashState::Vertex(p as usize));
}

/// The re-orientation ends at the root with every tree member occupied.
proof fn lemma_reorient_frame_end(
    x: Seq<u128>,
    log: u32,
    pv: Seq<StashState>,
    pe: Seq<StashState>,
    st: Seq<StashState>,
    pv0: Seq<StashState>,
    st00: Seq<StashState>,
    depth: Seq<nat>,
    cur: Set<int>,
    s: int,
    w: int,
)
    requires
        reorient_inv(x, log, pv, pe, st, depth, cur, s, w),
        reorient_frame(x, log, pv, pe, st, pv0, st00, cur, s, w),
        pv[w] == StashState::Root,
    ensures
        ends_visited(st, pv, x, log),
        forall|e: int| 0 <= e < x.len() && !(st00[e] is Unvisited) ==> #[trigger] st[e] == st00[e],
        forall|v: int|
            0 <= v < pv.len() && pv0[v] is Unset && !(#[trigger] pv[v] is Unset) ==> occupied(st, v),
{
    reveal(reorient_inv);
    reveal(reorient_frame);
    assert(w == s);
    assert forall|v: int|
        0 <= v < pv.len() && pv0[v] is Unset && !(#[trigger] pv[v] is Unset) implies occupied(st, v) by {
        assert(cur.contains(v));
        if v == s {
            let f = choose|f: int|
                0 <= f < x.len() && #[trigger] st[f] == StashState::Vertex(w as usize) && pe[w]
                    != StashState::Vertex(f as usize);
            assert(st[f] == StashState::Vertex(v as usize));
        }
    }
}

/// Depth-first search of the component of `starting_vertex`: orient a
/// spanning tree towards the children, give the component's first non-tree
/// edge to the slot it reaches (re-orienting the tree path from that slot
/// to the root), and stash every further edge of the component.
fn explore_component(
    edges: &Vec<Vec<DirectedEdge>>,
    input_array: &[Block],
    log_single_col_len: u32,
    starting_vertex: usize,
    state: &mut Vec<StashState>,
    parent_vertex: &mut Vec<StashState>,
    parent_edge: &mut Vec<StashState>,
    dfs: &mut Vec<usize>,
)
    requires
        log_single_col_len < usize::BITS - 1,
        edges@.len() == 2 * pow2(log_single_col_len as nat),
        adjacency_wf(edges@, input_array@, log_single_col_len),
        adjacency_complete(edges@, input_array@, log_single_col_len, input_array@.len() as int),
        marks_wf(old(parent_vertex)@, old(parent_edge)@, edges@.len() as int, input_array@.len() as int),
        edge_states_wf(old(state)@, old(parent_vertex)@, input_array@, log_single_col_len),
        injective(old(state)@),
        starting_vertex < edges@.len(),
        old(parent_vertex)@[starting_vertex as int] is Unset,
        old(dfs)@.len() == 0,
        ends_visited(old(state)@, old(parent_vertex)@, input_array@, log_single_col_len),
        forall|v: int|
            0 <= v < edges@.len() && !(#[trigger] old(parent_vertex)@[v] is Unset) ==> slot_done(
                input_array@,
                log_single_col_len,
                old(state)@,
                v,
            ),
    ensures
        marks_wf(final(parent_vertex)@, final(parent_edge)@, edges@.len() as int, input_array@.len() as int),
        edge_states_wf(final(state)@, final(parent_vertex)@, input_array@, log_single_col_len),
        injective(final(state)@),
        !(final(parent_vertex)@[starting_vertex as int] is Unset),
        forall|v: int|
            0 <= v < edges@.len() && !(old(parent_vertex)@[v] is Unset) ==> !(
            #[trigger] final(parent_vertex)@[v] is Unset),
        forall|v: int|
            0 <= v < edges@.len() && !(#[trigger] final(parent_vertex)@[v] is Unset) ==> slot_done(
                input_array@,
                log_single_col_len,
                final(state)@,
                v,
            ),
        final(dfs)@.len() == 0,
        ends_visited(final(state)@, final(parent_vertex)@, input_array@, log_single_col_len),
        forall|e: int|
            0 <= e < input_array@.len() && !(old(state)@[e] is Unvisited) ==> #[trigger] final(state)@[e]
                == old(state)@[e],
        (exists|e: int|
            0 <= e < input_array@.len() && #[trigger] final(state)@[e] is Stashed && old(state)@[e] is Unvisited)
            ==> forall|v: int|
            0 <= v < edges@.len() && old(parent_vertex)@[v] is Unset && !(
            #[trigger] final(parent_vertex)@[v] is Unset) ==> occupied(final(state)@, v),
{
    let ghost x = input_array@;
    let ghost log = log_single_col_len;
    let ghost nv = edges@.len() as int;
    let ghost n = x.len() as int;
    let ghost pv0 = parent_vertex@;
    let ghost st00 = state@;
    let nvx = parent_vertex.len();
    let nx = input_array.len();
    assert(nvx == nv && nx == n);
    let s = starting_vertex;
    let mut extra_edge = StashState::Unset;
    parent_vertex.set(s, StashState::Root);
    parent_edge.set(s, StashState::Root);
    dfs.push(s);
    let ghost mut cur: Set<int> = Set::empty().insert(s as int);
    let ghost mut explored: Set<int> = Set::empty();
    let ghost mut depth: Seq<nat> = Seq::new(nv as nat, |i: int| 0nat);
    proof {
        reveal(component_inv);
        assert(tree_wf(parent_vertex@, parent_edge@, depth, cur, s as int, x, log));
        assert forall|e: int| 0 <= e < n && #[trigger] state@[e] == StashState::Vertex(s) implies extra_edge
            == StashState::Vertex(e as usize) by {
            assert(!(pv0[s as int] is Unset));
        }
        assert(component_inv(x, log, parent_vertex@, parent_edge@, state@, pv0, depth, cur, extra_edge, s as int));
        lemma_frame_start(x, log, parent_vertex@, parent_edge@, state@, pv0, cur, s as int);
        assert(dfs@[0] == s);
    }
    while dfs.len() > 0
        invariant
            x == input_array@,
            log == log_single_col_len,
            log < usize::BITS - 1,
            nv == edges@.len(),
            n == x.len(),
            nv <= usize::MAX,
            n <= usize::MAX,
            nv == 2 * pow2(log as nat),
            s == starting_vertex,
            s < nv,
            parent_vertex@.len() == nv,
            parent_edge@.len() == nv,
            state@.len() == n,
            adjacency_wf(edges@, x, log),
            adjacency_complete(edges@, x, log, n),
            component_inv(x, log, parent_vertex@, parent_edge@, state@, pv0, depth, cur, extra_edge, s as int),
            frame_inv(x, log, parent_vertex@, parent_edge@, state@, pv0, st00, cur, extra_edge, s as int),
            forall|v: int| #[trigger] cur.contains(v) ==> explored.contains(v) || dfs@.contains(v as usize),
            forall|v: int| #[trigger] explored.contains(v) ==> cur.contains(v) && slot_done(x, log, state@, v),
            forall|i: int|
                0 <= i < dfs@.len() ==> cur.contains(#[trigger] dfs@[i] as int) && !explored.contains(
                    dfs@[i] as int,
                ),
            forall|v: int| #[trigger] cur.contains(v) ==> 0 <= v < nv && !(parent_vertex@[v] is Unset),
            dfs@.no_duplicates(),
            explored.subset_of(set_int_range(0, nv)),
            explored.finite(),
            depth.len() == nv,
        decreases nv - explored.len(),
    {
        proof {
            lemma_int_range(0, nv);
            lemma_len_subset(explored, set_int_range(0, nv));
        }
        let ghost dfs_before = dfs@;
        let curr = dfs.pop().unwrap();
        let ghost explored_before = explored;
        proof {
            assert(dfs_before[dfs_before.len() - 1] == curr);
            assert(cur.contains(curr as int));
            assert(!explored.contains(curr as int));
            assert(dfs@ == dfs_before.drop_last());
            assert forall|w: int|
                #[trigger] cur.contains(w) implies explored.contains(w) || dfs@.contains(w as usize)
                || w == curr by {
                if !explored.contains(w) && w != curr {
                    assert(dfs_before.contains(w as usize));
                    let i = choose|i: int| 0 <= i < dfs_before.len() && dfs_before[i] == w as usize;
                    assert(i != dfs_before.len() - 1);
                    assert(dfs@[i] == w as usize);
                }
            }
            assert(!dfs@.contains(curr)) by {
                if dfs@.contains(curr) {
                    let i = choose|i: int| 0 <= i < dfs@.len() && dfs@[i] == curr;
                    assert(dfs_before[i] == dfs_before[dfs_before.len() - 1]);
                }
            }
            assert forall|i: int|
                0 <= i < dfs@.len() implies cur.contains(#[trigger] dfs@[i] as int) && !explored.contains(
                dfs@[i] as int,
            ) by {
                assert(dfs@[i] == dfs_before[i]);
            }
            assert(dfs@.no_duplicates()) by {
                assert forall|i: int, j: int|
                    0 <= i < dfs@.len() && 0 <= j < dfs@.len() && i != j implies dfs@[i] != dfs@[j] by {
                    assert(dfs@[i] == dfs_before[i]);
                    assert(dfs@[j] == dfs_before[j]);
                }
            }
        }
        let num_adjacent = edges[curr].len();
        let mut k: usize = 0;
        while k < num_adjacent
            invariant
                x == input_array@,
                log == log_single_col_len,
                log < usize::BITS - 1,
                nv == edges@.len(),
                n == x.len(),
                nv <= usize::MAX,
                n <= usize::MAX,
                nv == 2 * pow2(log as nat),
                s == starting_vertex,
                s < nv,
                curr < nv,
                parent_vertex@.len() == nv,
                parent_edge@.len() == nv,
                state@.len() == n,
                num_adjacent == edges@[curr as int]@.len(),
                k <= num_adjacent,
                adjacency_wf(edges@, x, log),
                adjacency_complete(edges@, x, log, n),
                component_inv(x, log, parent_vertex@, parent_edge@, state@, pv0, depth, cur, extra_edge, s as int),
                frame_inv(x, log, parent_vertex@, parent_edge@, state@, pv0, st00, cur, extra_edge, s as int),
                cur.contains(curr as int),
                !explored.contains(curr as int),
                !dfs@.contains(curr),
                forall|v: int|
                    #[trigger] cur.contains(v) ==> explored.contains(v) || dfs@.contains(v as usize)
                        || v == curr,
                forall|v: int| #[trigger] explored.contains(v) ==> cur.contains(v) && slot_done(x, log, state@, v),
                forall|i: int|
                    0 <= i < dfs@.len() ==> cur.contains(#[trigger] dfs@[i] as int)
                        && !explored.contains(dfs@[i] as int),
                forall|v: int| #[trigger] cur.contains(v) ==> 0 <= v < nv && !(parent_vertex@[v] is Unset),
                dfs@.no_duplicates(),
                explored.subset_of(set_int_range(0, nv)),
                explored.finite(),
                depth.len() == nv,
                forall|j: int|
                    0 <= j < k ==> !(state@[(#[trigger] edges@[curr as int]@[j]).edge as int] is Unvisited),
            decreases num_adjacent - k,
        {
            let directed_edge = edges[curr][k];
            let e = directed_edge.edge;
            let v = directed_edge.vertex;
            let ghost st0 = state@;
            proof {
                assert(directed_edge == edges@[curr as int]@[k as int]);
                let dd = edges@[curr as int]@[k as int];
                assert(dd.edge < x.len());
                lemma_slots_in_range(x[e as int], log);
                assert(0 <= v < nv);
                assert(is_end(x, log, e as int, curr as int));
                assert(is_end(x, log, e as int, v as int));
                assert(curr != v);
            }
            if state[e] == StashState::Unvisited {
                if parent_vertex[v] == StashState::Unset {
                    proof {
                        lemma_frame_tree(x, log, parent_vertex@, parent_edge@, state@, pv0, st00, depth, cur,
                            extra_edge, s as int, curr as int, e as int, v as int);
                        lemma_tree_edge(x, log, parent_vertex@, parent_edge@, state@, pv0, depth, cur,
                            extra_edge, s as int, curr as int, e as int, v as int);
                    }
                    parent_vertex.set(v, StashState::Vertex(curr));
                    parent_edge.set(v, StashState::Vertex(e));
                    state.set(e, StashState::Vertex(v));
                    let ghost dfs0 = dfs@;
                    dfs.push(v);
                    proof {
                        depth = depth.update(v as int, depth[curr as int] + 1);
                        cur = cur.insert(v as int);
                        assert(!dfs0.contains(v)) by {
                            if dfs0.contains(v) {
                                let i = choose|i: int| 0 <= i < dfs0.len() && dfs0[i] == v;
                                assert(cur.contains(dfs0[i] as int));
                            }
                        }
                        assert(dfs@.no_duplicates()) by {
                            assert(dfs@.drop_last() == dfs0);
                        }
                        assert forall|i: int|
                            0 <= i < dfs@.len() implies cur.contains(#[trigger] dfs@[i] as int)
                            && !explored.contains(dfs@[i] as int) by {
                            if i < dfs0.len() {
                                assert(dfs@[i] == dfs0[i]);
                            }
                        }
                        assert forall|w: int|
                            #[trigger] cur.contains(w) implies explored.contains(w) || dfs@.contains(w as usize)
                            || w == curr by {
                            if w != v && !explored.contains(w) && w != curr {
                                assert(dfs0.contains(w as usize));
                                let i = choose|i: int| 0 <= i < dfs0.len() && dfs0[i] == w as usize;
                                assert(dfs@[i] == w as usize);
                            }
                            if w == v {
                                assert(dfs@[dfs@.len() - 1] == v);
                            }
                        }
                        assert(!dfs@.contains(curr)) by {
                            if dfs@.contains(curr) {
                                let i = choose|i: int| 0 <= i < dfs@.len() && dfs@[i] == curr;
                                if i < dfs0.len() {
                                    assert(dfs0[i] == curr);
                                }
                            }
                        }
                    }
                } else if extra_edge == StashState::Unset {
                    proof {
                        lemma_frame_extra(x, log, parent_vertex@, parent_edge@, state@, pv0, st00, depth, cur,
                            s as int, curr as int, e as int, v as int);
                        lemma_extra_edge(x, log, parent_vertex@, parent_edge@, state@, pv0, depth, cur,
                            s as int, curr as int, e as int, v as int);
                    }
                    extra_edge = StashState::Vertex(e);
                    state.set(e, StashState::Vertex(v));
                } else {
                    proof {
                        lemma_frame_stash(x, log, parent_vertex@, parent_edge@, state@, pv0, st00, depth, cur,
                            extra_edge, s as int, curr as int, e as int, v as int);
                        lemma_stash_edge(x, log, parent_vertex@, parent_edge@, state@, pv0, depth, cur,
                            extra_edge, s as int, e as int);
                    }
                    state.set(e, StashState::Stashed);
                }
                proof {
                    lemma_done_monotone(x, log, st0, state@);
                }
            }
            assert(!(state@[e as int] is Unvisited));
            k = k + 1;
        }
        proof {
            assert forall|e: int| 0 <= e < state@.len() && #[trigger] is_end(x, log, e, curr as int) implies !(
            state@[e] is Unvisited) by {
                lemma_slots_in_range(x[e], log);
                if curr == h0_spec(x[e], log) {
                    assert(in_left_list(edges@, x, log, e));
                    let j = choose|j: int|
                        0 <= j < edges@[h0_spec(x[e], log)]@.len() && (#[trigger] edges@[h0_spec(
                            x[e],
                            log,
                        )]@[j]).edge == e;
                    assert(!(state@[edges@[curr as int]@[j].edge as int] is Unvisited));
                } else {
                    assert(in_right_list(edges@, x, log, e));
                    let j = choose|j: int|
                        0 <= j < edges@[h1_spec(x[e], log)]@.len() && (#[trigger] edges@[h1_spec(
                            x[e],
                            log,
                        )]@[j]).edge == e;
                    assert(!(state@[edges@[curr as int]@[j].edge as int] is Unvisited));
                }
            }
            explored = explored.insert(curr as int);
            assert(explored.len() == explored_before.len() + 1);
            lemma_int_range(0, nv);
            lemma_len_subset(explored, set_int_range(0, nv));
        }
    }
    proof {
        reveal(component_inv);
        assert forall|v: int|
            0 <= v < nv && !(#[trigger] parent_vertex@[v] is Unset) implies slot_done(x, log, state@, v) by {
            if cur.contains(v) {
                assert(explored.contains(v) || dfs@.contains(v as usize));
            }
        }
    }
    if extra_edge != StashState::Unset {
        proof {
            reveal(component_inv);
            lemma_reorient_frame_start(x, log, parent_vertex@, parent_edge@, state@, pv0, st00, depth, cur, extra_edge, s as int);
            lemma_start_reorient(x, log, parent_vertex@, parent_edge@, state@, pv0, depth, cur, extra_edge, s as int);
        }
        let value = extra_edge.unwrap_regular();
        let mut w = state[value].unwrap_regular();
        while parent_vertex[w] != StashState::Root
            invariant
                x == input_array@,
                log == log_single_col_len,
                nv == edges@.len(),
                n == x.len(),
                s == starting_vertex,
                s < nv,
                w < nv,
                parent_vertex@.len() == nv,
                parent_edge@.len() == nv,
                state@.len() == n,
                reorient_inv(x, log, parent_vertex@, parent_edge@, state@, depth, cur, s as int, w as int),
                reorient_frame(x, log, parent_vertex@, parent_edge@, state@, pv0, st00, cur, s as int, w as int),
                forall|v: int|
                    0 <= v < nv && !(#[trigger] parent_vertex@[v] is Unset) ==> slot_done(
                        x,
                        log,
                        state@,
                        v,
                    ),
                !(parent_vertex@[s as int] is Unset),
                forall|v: int|
                    0 <= v < nv && !(pv0[v] is Unset) ==> !(#[trigger] parent_vertex@[v] is Unset),
            decreases depth[w as int],
        {
            let ghost st0 = state@;
            proof {
                lemma_reorient_frame_step(x, log, parent_vertex@, parent_edge@, state@, pv0, st00, depth, cur, s as int, w as int);
                lemma_flip(x, log, parent_vertex@, parent_edge@, state@, depth, cur, s as int, w as int);
                reveal(reorient_inv);
            }
            let p = parent_vertex[w].unwrap_regular();
            let ew = parent_edge[w].unwrap_regular();
            state.set(ew, StashState::Vertex(p));
            proof {
                lemma_done_monotone(x, log, st0, state@);
            }
            w = p;
        }
        proof {
            lemma_reorient_frame_end(x, log, parent_vertex@, parent_edge@, state@, pv0, st00, depth, cur, s as int, w as int);
            lemma_end_reorient(x, log, parent_vertex@, parent_edge@, state@, depth, cur, s as int, w as int);
        }
    } else {
        proof {
            reveal(component_inv);
            reveal(frame_inv);
        }
    }
}

/// The adjacency lists of the slot graph: input `e` joins `h0(e)` and `h1(e)`.
fn adjacency(input_array: &[Block], log_single_col_len: u32) -> (edges: Vec<Vec<DirectedEdge>>)
    requires
        log_single_col_len < usize::BITS - 1,
    ensures
        edges@.len() == 2 * pow2(log_single_col_len as nat),
        adjacency_wf(edges@, input_array@, log_single_col_len),
        adjacency_complete(edges@, input_array@, log_single_col_len, input_array@.len() as int),
{
    let log = log_single_col_len;
    let ghost x = input_array@;
    proof {
        lemma_usize_pow2_no_overflow((log + 1) as nat);
        lemma_pow2_unfold((log + 1) as nat);
        lemma_usize_shl_is_mul(2, log as usize);
    }
    let num_vertices = 2usize << log;
    let num_edges = input_array.len();
    let mut edges: Vec<Vec<DirectedEdge>> = Vec::new();
    let mut v: usize = 0;
    while v < num_vertices
        invariant
            v <= num_vertices,
            edges@.len() == v,
            forall|u: int| 0 <= u < v ==> (#[trigger] edges@[u])@.len() == 0,
        decreases num_vertices - v,
    {
        edges.push(Vec::new());
        v = v + 1;
    }
    let mut edge: usize = 0;
    while edge < num_edges
        invariant
            x == input_array@,
            num_edges == x.len(),
            num_vertices == 2 * pow2(log as nat),
            log < usize::BITS - 1,
            edge <= num_edges,
            edges@.len() == num_vertices,
            adjacency_wf(edges@, x, log),
            adjacency_complete(edges@, x, log, edge as int),
        decreases num_edges - edge,
    {
        let left_vertex = h0(input_array[edge], log);
        let right_vertex = h1(input_array[edge], log);
        let ghost before = edges@;
        edges[left_vertex].push(DirectedEdge { edge, vertex: right_vertex });
        let ghost mid = edges@;
        edges[right_vertex].push(DirectedEdge { edge, vertex: left_vertex });
        assert(left_vertex != right_vertex);
        assert(edges@[left_vertex as int]@ == before[left_vertex as int]@.push(
            DirectedEdge { edge, vertex: right_vertex },
        ));
        assert(edges@[right_vertex as int]@ == before[right_vertex as int]@.push(
            DirectedEdge { edge, vertex: left_vertex },
        ));
        assert(forall|u: int|
            0 <= u < edges@.len() && u != left_vertex && u != right_vertex ==> #[trigger] edges@[u]
                == before[u]);
        proof {
            assert forall|u: int, k: int|
                0 <= u < edges@.len() && 0 <= k < edges@[u]@.len() implies {
                let d = #[trigger] edges@[u]@[k];
                &&& d.edge < x.len()
                &&& ((u == h0_spec(x[d.edge as int], log) && d.vertex == h1_spec(
                    x[d.edge as int],
                    log,
                )) || (u == h1_spec(x[d.edge as int], log) && d.vertex == h0_spec(
                    x[d.edge as int],
                    log,
                )))
            } by {
                if k < before[u]@.len() {
                    assert(edges@[u]@[k] == before[u]@[k]);
                }
            }
            assert forall|e: int| 0 <= e < edge + 1 implies #[trigger] in_left_list(
                edges@,
                x,
                log,
                e,
            ) by {
                lemma_slots_in_range(x[e], log);
                if e < edge {
                    assert(in_left_list(before, x, log, e));
                    let k = choose|k: int|
                        0 <= k < before[h0_spec(x[e], log)]@.len() && (#[trigger] before[h0_spec(
                            x[e],
                            log,
                        )]@[k]).edge == e;
                    assert(edges@[h0_spec(x[e], log)]@[k] == before[h0_spec(x[e], log)]@[k]);
                } else {
                    let k = before[left_vertex as int]@.len() as int;
                    assert(edges@[left_vertex as int]@[k].edge == e);
                }
            }
            assert forall|e: int| 0 <= e < edge + 1 implies #[trigger] in_right_list(
                edges@,
                x,
                log,
                e,
            ) by {
                lemma_slots_in_range(x[e], log);
                if e < edge {
                    assert(in_right_list(before, x, log, e));
                    let k = choose|k: int|
                        0 <= k < before[h1_spec(x[e], log)]@.len() && (#[trigger] before[h1_spec(
                            x[e],
                            log,
                        )]@[k]).edge == e;
                    assert(edges@[h1_spec(x[e], log)]@[k] == before[h1_spec(x[e], log)]@[k]);
                } else {
                    let k = before[right_vertex as int]@.len() as int;
                    assert(edges@[right_vertex as int]@[k].edge == e);
                }
            }
        }
        edge = edge + 1;
    }
    edges
}


/// Number of stashed edges among the first `k`.
pub open spec fn count_stashed(st: Seq<StashState>, k: int) -> int
    decreases k,
{
    if k <= 0 {
        0
    } else {
        count_stashed(st, k - 1) + if st[k - 1] is Stashed {
            1int
        } else {
            0int
        }
    }
}

proof fn lemma_count_stashed_bounds(st: Seq<StashState>, k: int)
    requires
        0 <= k,
    ensures
        0 <= count_stashed(st, k) <= k,
    decreases k,
{
    if k > 0 {
        lemma_count_stashed_bounds(st, k - 1);
    }
}

/// The inputs among the first `k` whose search state is `Stashed`.
pub open spec fn stashed_below(st: Seq<StashState>, k: int) -> Set<int> {
    Set::new(|e: int| 0 <= e < k && st[e] is Stashed)
}

proof fn lemma_count_stashed_set(st: Seq<StashState>, k: int)
    requires
        0 <= k,
    ensures
        stashed_below(st, k).finite(),
        stashed_below(st, k).len() == count_stashed(st, k),
    decreases k,
{
    if k == 0 {
        assert(stashed_below(st, k) =~= Set::<int>::empty());
    } else {
        lemma_count_stashed_set(st, k - 1);
        if st[k - 1] is Stashed {
            assert(stashed_below(st, k) =~= stashed_below(st, k - 1).insert(k - 1));
        } else {
            assert(stashed_below(st, k) =~= stashed_below(st, k - 1));
        }
    }
}

/// A placement of the inputs: each input outside `stashed` sits in one of
/// its two slots, and no two of them share a slot.
pub open spec fn is_placement(x: Seq<u128>, log: u32, stashed: Set<int>, slot: Seq<int>) -> bool {
    &&& stashed.subset_of(set_int_range(0, x.len() as int))
    &&& slot.len() == x.len()
    &&& forall|e: int| 0 <= e < x.len() && !stashed.contains(e) ==> is_end(x, log, e, #[trigger] slot[e])
    &&& forall|e1: int, e2: int|
        0 <= e1 < x.len() && 0 <= e2 < x.len() && e1 != e2 && !stashed.contains(e1)
            && !stashed.contains(e2) ==> #[trigger] slot[e1] != #[trigger] slot[e2]
}

/// `stashed` is a least set of leftover inputs (`core`, itself part of a
/// placement with `slot`) completed with the first remaining inputs in input
/// order: every added input comes before every input that keeps a slot.
pub open spec fn topped_up(x: Seq<u128>, log: u32, stashed: Seq<int>, slot: Seq<int>) -> bool {
    exists|core: Set<int>|
        #[trigger] is_placement(x, log, core, slot) && (forall|k: int|
            0 <= k < core.len() ==> !placeable(x, log, k)) && (forall|e: int|
            core.contains(e) ==> stashed.contains(e)) && (forall|a: int, b: int|
            0 <= a < x.len() && 0 <= b < x.len() && stashed.contains(a) && !core.contains(a)
                && !stashed.contains(b) ==> a < b)
}

/// The inputs can be placed in the `2 * 2^log` slots with at most `k` of
/// them left over.
pub open spec fn placeable(x: Seq<u128>, log: u32, k: int) -> bool {
    exists|stashed: Set<int>, slot: Seq<int>| #[trigger] is_placement(x, log, stashed, slot) && stashed.len() <= k
}

/// A set of slots closed under the inputs (an input with one slot in it has
/// both), holding both slots of every stashed input, and fully occupied by
/// the search's orientation.
spec fn full_set_inv(x: Seq<u128>, log: u32, st: Seq<StashState>, f: Set<int>) -> bool {
    &&& f.subset_of(set_int_range(0, 2 * pow2(log as nat) as int))
    &&& forall|e: int|
        0 <= e < x.len() ==> (f.contains(#[trigger] h0_spec(x[e], log)) <==> f.contains(h1_spec(x[e], log)))
    &&& forall|e: int| 0 <= e < x.len() && #[trigger] st[e] is Stashed ==> f.contains(h0_spec(x[e], log))
    &&& forall|v: int| #[trigger] f.contains(v) ==> occupied(st, v)
}

/// The slots first visited by the search of one component.
spec fn newly_visited(pva: Seq<StashState>, pvb: Seq<StashState>) -> Set<int> {
    Set::new(|v: int| 0 <= v < pva.len() && pva[v] is Unset && !(pvb[v] is Unset))
}

/// Whether the search of one component sent an input to the stash.
spec fn stash_grew(n: int, sta: Seq<StashState>, stb: Seq<StashState>) -> bool {
    exists|e: int| 0 <= e < n && #[trigger] stb[e] is Stashed && sta[e] is Unvisited
}

/// The full set after the search of one component: the component joins it
/// when the component sent an input to the stash.
spec fn next_full(
    n: int,
    pva: Seq<StashState>,
    pvb: Seq<StashState>,
    sta: Seq<StashState>,
    stb: Seq<StashState>,
    f: Set<int>,
) -> Set<int> {
    if stash_grew(n, sta, stb) {
        f.union(newly_visited(pva, pvb))
    } else {
        f
    }
}

proof fn lemma_full_step(
    x: Seq<u128>,
    log: u32,
    pva: Seq<StashState>,
    pvb: Seq<StashState>,
    sta: Seq<StashState>,
    stb: Seq<StashState>,
    f: Set<int>,
)
    requires
        sta.len() == x.len(),
        stb.len() == x.len(),
        pva.len() == 2 * pow2(log as nat),
        pvb.len() == pva.len(),
        ends_visited(sta, pva, x, log),
        ends_visited(stb, pvb, x, log),
        forall|v: int| 0 <= v < pva.len() && !(#[trigger] pva[v] is Unset) ==> slot_done(x, log, sta, v),
        forall|v: int| 0 <= v < pvb.len() && !(#[trigger] pvb[v] is Unset) ==> slot_done(x, log, stb, v),
        forall|e: int| 0 <= e < x.len() && !(sta[e] is Unvisited) ==> #[trigger] stb[e] == sta[e],
        stash_grew(x.len() as int, sta, stb) ==> forall|v: int|
            0 <= v < pva.len() && pva[v] is Unset && !(#[trigger] pvb[v] is Unset) ==> occupied(stb, v),
        full_set_inv(x, log, sta, f),
    ensures
        full_set_inv(x, log, stb, next_full(x.len() as int, pva, pvb, sta, stb, f)),
{
    let nw = newly_visited(pva, pvb);
    let f2 = next_full(x.len() as int, pva, pvb, sta, stb, f);
    assert forall|e: int, u: int|
        0 <= e < x.len() && #[trigger] is_end(x, log, e, u) && nw.contains(u) implies nw.contains(h0_spec(x[e], log))
        && nw.contains(h1_spec(x[e], log)) by {
        lemma_slots_in_range(x[e], log);
        assert(slot_done(x, log, stb, u));
        assert(!(stb[e] is Unvisited));
        if !(pva[h0_spec(x[e], log)] is Unset) {
            assert(slot_done(x, log, sta, h0_spec(x[e], log)));
            assert(is_end(x, log, e, h0_spec(x[e], log)));
            assert(!(sta[e] is Unvisited));
        }
        if !(pva[h1_spec(x[e], log)] is Unset) {
            assert(slot_done(x, log, sta, h1_spec(x[e], log)));
            assert(is_end(x, log, e, h1_spec(x[e], log)));
            assert(!(sta[e] is Unvisited));
        }
    }
    assert(f2.subset_of(set_int_range(0, 2 * pow2(log as nat) as int)));
    assert forall|e: int| 0 <= e < x.len() implies (f2.contains(#[trigger] h0_spec(x[e], log)) <==> f2.contains(
        h1_spec(x[e], log),
    )) by {
        if nw.contains(h0_spec(x[e], log)) {
            assert(is_end(x, log, e, h0_spec(x[e], log)));
        }
        if nw.contains(h1_spec(x[e], log)) {
            assert(is_end(x, log, e, h1_spec(x[e], log)));
        }
    }
    assert forall|e: int| 0 <= e < x.len() && #[trigger] stb[e] is Stashed implies f2.contains(h0_spec(x[e], log)) by {
        lemma_slots_in_range(x[e], log);
        if sta[e] is Unvisited {
            assert(stash_grew(x.len() as int, sta, stb));
            let u = h0_spec(x[e], log);
            if !(pva[u] is Unset) {
                assert(slot_done(x, log, sta, u));
                assert(is_end(x, log, e, u));
            }
            assert(nw.contains(u));
        } else {
            assert(sta[e] is Stashed);
        }
    }
    assert forall|v: int| #[trigger] f2.contains(v) implies occupied(stb, v) by {
        if f.contains(v) {
            assert(occupied(sta, v));
            let e = choose|e: int| 0 <= e < sta.len() && #[trigger] sta[e] == StashState::Vertex(v as usize);
            assert(stb[e] == sta[e]);
        } else {
            assert(nw.contains(v));
        }
    }
}

/// No placement leaves fewer inputs over than the search stashed: the full
/// set `f` has exactly as many slots as the search placed inputs in it, and
/// any placement puts at most that many of the inputs with a slot in `f`.
proof fn lemma_stash_minimal(
    x: Seq<u128>,
    log: u32,
    st: Seq<StashState>,
    f: Set<int>,
    stashed: Set<int>,
    slot: Seq<int>,
)
    requires
        st.len() == x.len(),
        full_set_inv(x, log, st, f),
        injective(st),
        2 * pow2(log as nat) <= usize::MAX,
        forall|e: int|
            0 <= e < st.len() ==> (#[trigger] st[e] is Stashed) || (st[e] is Vertex && is_end(
                x,
                log,
                e,
                st[e]->0 as int,
            )),
        is_placement(x, log, stashed, slot),
    ensures
        count_stashed(st, x.len() as int) <= stashed.len(),
{
    let n = x.len() as int;
    lemma_int_range(0, n);
    lemma_int_range(0, 2 * pow2(log as nat) as int);
    lemma_len_subset(f, set_int_range(0, 2 * pow2(log as nat) as int));
    lemma_len_subset(stashed, set_int_range(0, n));
    let all = set_int_range(0, n);
    let ef = all.filter(|e: int| f.contains(h0_spec(x[e], log)));
    let pl = ef.filter(|e: int| st[e] is Vertex);
    let sb = stashed_below(st, n);
    lemma_count_stashed_set(st, n);
    lemma_len_subset(ef, all);
    lemma_len_subset(pl, ef);
    assert(ef =~= pl + sb) by {
        assert forall|e: int| ef.contains(e) implies pl.contains(e) || sb.contains(e) by {
            assert(st[e] is Stashed || st[e] is Vertex);
        }
    }
    assert(pl.disjoint(sb));
    vstd::set_lib::lemma_set_disjoint_lens(pl, sb);
    let occ = |e: int| st[e]->0 as int;
    assert(pl.map(occ) =~= f) by {
        assert forall|v: int| f.contains(v) implies pl.map(occ).contains(v) by {
            assert(occupied(st, v));
            let e = choose|e: int| 0 <= e < st.len() && #[trigger] st[e] == StashState::Vertex(v as usize);
            lemma_slots_in_range(x[e], log);
            assert(st[e]->0 as int == v);
            assert(is_end(x, log, e, v));
            assert(pl.contains(e));
            assert(occ(e) == v);
        }
        assert forall|v: int| pl.map(occ).contains(v) implies f.contains(v) by {
            let e = choose|e: int| pl.contains(e) && occ(e) == v;
            assert(is_end(x, log, e, v));
        }
    }
    assert(vstd::relations::injective_on(occ, pl)) by {
        assert forall|a: int, b: int| pl.contains(a) && pl.contains(b) && #[trigger] occ(a) == #[trigger] occ(b) implies a == b by {
            if a != b {
                assert(st[a] != st[b]);
            }
        }
    }
    vstd::set_lib::lemma_map_size(pl, f, occ);
    let q = ef.difference(stashed);
    let sl = |e: int| slot[e];
    lemma_len_difference(ef, stashed);
    assert(q.map(sl).subset_of(f)) by {
        assert forall|v: int| q.map(sl).contains(v) implies f.contains(v) by {
            let e = choose|e: int| q.contains(e) && sl(e) == v;
            assert(is_end(x, log, e, slot[e]));
        }
    }
    assert(vstd::relations::injective_on(sl, q));
    vstd::set_lib::lemma_map_size(q, q.map(sl), sl);
    lemma_len_subset(q.map(sl), f);
    assert(ef.subset_of(q + stashed.intersect(ef)));
    lemma_len_intersect(stashed, ef);
    lemma_len_union(q, stashed.intersect(ef));
    lemma_len_subset(ef, q + stashed.intersect(ef));
}

/// The low 32 bits of a block, as an index.
fn low_u32_index(block: Block) -> (i: usize)
    ensures
        i == low_index(block),
{
    let low = (block % 0x1_0000_0000) as u32;
    low as usize
}

/// Build a cuckoo hash table with `2 * 2^log_single_col_len` slots (left
/// column first) for `input_array`, and a stash of exactly `stash_size`
/// builder indices (the low 32 bits of the stashed blocks).
///
/// Inputs the search cannot place go to the stash; the stash is then topped
/// up with the first placed inputs (in input order) until it is full. The
/// search leaves the fewest inputs over that any placement can, so the build
/// fails with `ChtError::StashOverflow` exactly when no placement of the
/// inputs in the slots leaves at most `stash_size` of them over.
#[verifier::rlimit(60)]
pub fn build(stash_size: usize, log_single_col_len: u32, input_array: &[Block]) -> (r: Result<
    (Vec<Block>, Vec<usize>),
    ChtError,
>)
    requires
        log_single_col_len < usize::BITS - 1,
        stash_size <= input_array@.len(),
    ensures
        match r {
            Ok((table, stash_indices)) => {
                &&& table@.len() == 2 * pow2(log_single_col_len as nat)
                &&& stash_indices@.len() == stash_size
                &&& exists|stashed: Seq<int>, slot: Seq<int>|
                    #[trigger] valid_layout(
                        input_array@,
                        log_single_col_len,
                        table@,
                        stash_indices@,
                        stashed,
                        slot,
                    ) && topped_up(input_array@, log_single_col_len, stashed, slot)
            },
            Err(_) => stash_size < input_array@.len(),
        },
        r is Err <==> !placeable(input_array@, log_single_col_len, stash_size as int),
{
    let ghost x = input_array@;
    let log = log_single_col_len;
    let num_edges = input_array.len();
    proof {
        lemma_usize_pow2_no_overflow((log + 1) as nat);
        lemma_pow2_unfold((log + 1) as nat);
        lemma_usize_shl_is_mul(2, log as usize);
    }
    let num_vertices = 2usize << log;
    let ghost nv = num_vertices as int;
    let edges = adjacency(input_array, log);

    let mut table: Vec<Block> = Vec::new();
    let mut state: Vec<StashState> = Vec::new();
    let mut parent_vertex: Vec<StashState> = Vec::new();
    let mut parent_edge: Vec<StashState> = Vec::new();
    let mut v: usize = 0;
    while v < num_vertices
        invariant
            v <= num_vertices,
            table@.len() == v,
            parent_vertex@.len() == v,
            parent_edge@.len() == v,
            forall|j: int| 0 <= j < v ==> #[trigger] table@[j] == 0,
            forall|j: int| 0 <= j < v ==> #[trigger] parent_vertex@[j] == StashState::Unset,
            forall|j: int| 0 <= j < v ==> #[trigger] parent_edge@[j] == StashState::Unset,
        decreases num_vertices - v,
    {
        table.push(0);
        parent_vertex.push(StashState::Unset);
        parent_edge.push(StashState::Unset);
        v = v + 1;
    }
    let mut e: usize = 0;
    while e < num_edges
        invariant
            e <= num_edges,
            state@.len() == e,
            forall|j: int| 0 <= j < e ==> #[trigger] state@[j] == StashState::Unvisited,
        decreases num_edges - e,
    {
        state.push(StashState::Unvisited);
        e = e + 1;
    }
    let mut dfs: Vec<usize> = Vec::new();
    let ghost mut full: Set<int> = Set::empty();
    proof {
        lemma_int_range(0, nv);
        assert(full_set_inv(x, log, state@, full));
    }

    let mut starting_vertex: usize = 0;
    while starting_vertex < num_vertices
        invariant
            x == input_array@,
            log == log_single_col_len,
            log < usize::BITS - 1,
            num_vertices == edges@.len(),
            num_vertices == 2 * pow2(log as nat),
            num_edges == x.len(),
            starting_vertex <= num_vertices,
            adjacency_wf(edges@, x, log),
            adjacency_complete(edges@, x, log, num_edges as int),
            marks_wf(parent_vertex@, parent_edge@, num_vertices as int, num_edges as int),
            edge_states_wf(state@, parent_vertex@, x, log),
            injective(state@),
            dfs@.len() == 0,
            ends_visited(state@, parent_vertex@, x, log),
            full_set_inv(x, log, state@, full),
            forall|u: int| 0 <= u < starting_vertex ==> !(#[trigger] parent_vertex@[u] is Unset),
            forall|u: int|
                0 <= u < num_vertices && !(#[trigger] parent_vertex@[u] is Unset) ==> slot_done(
                    x,
                    log,
                    state@,
                    u,
                ),
        decreases num_vertices - starting_vertex,
    {
        if parent_vertex[starting_vertex] == StashState::Unset {
            let ghost pva = parent_vertex@;
            let ghost sta = state@;
            explore_component(
                &edges,
                input_array,
                log,
                starting_vertex,
                &mut state,
                &mut parent_vertex,
                &mut parent_edge,
                &mut dfs,
            );
            proof {
                lemma_full_step(x, log, pva, parent_vertex@, sta, state@, full);
                full = next_full(x.len() as int, pva, parent_vertex@, sta, state@, full);
            }
        }
        starting_vertex = starting_vertex + 1;
    }
    proof {
        assert forall|j: int| 0 <= j < num_edges implies !(#[trigger] state@[j] is Unvisited) by {
            lemma_slots_in_range(x[j], log);
            let u = h0_spec(x[j], log);
            assert(!(parent_vertex@[u] is Unset));
            assert(slot_done(x, log, state@, u));
            assert(is_end(x, log, j, u));
        }
    }

    let mut num_marked_stashed: usize = 0;
    let mut i: usize = 0;
    while i < num_edges
        invariant
            i <= num_edges,
            num_edges == state@.len(),
            num_marked_stashed == count_stashed(state@, i as int),
        decreases num_edges - i,
    {
        proof {
            lemma_count_stashed_bounds(state@, i as int);
        }
        if state[i] == StashState::Stashed {
            num_marked_stashed = num_marked_stashed + 1;
        }
        i = i + 1;
    }

    let stash_length = stash_size;
    proof {
        assert forall|e: int| 0 <= e < state@.len() implies (#[trigger] state@[e] is Stashed) || (state@[e] is Vertex
            && is_end(x, log, e, state@[e]->0 as int)) by {
            assert(!(state@[e] is Unvisited));
        }
    }
    if num_marked_stashed > stash_length {
        proof {
            lemma_count_stashed_bounds(state@, num_edges as int);
            assert forall|stashed: Set<int>, slot: Seq<int>|
                #[trigger] is_placement(x, log, stashed, slot) implies stashed.len() > stash_size by {
                lemma_stash_minimal(x, log, state@, full, stashed, slot);
            }
        }
        return Err(ChtError::StashOverflow);
    }
    proof {
        let sb = stashed_below(state@, num_edges as int);
        let sl = Seq::new(num_edges as nat, |j: int| state@[j]->0 as int);
        lemma_count_stashed_set(state@, num_edges as int);
        assert(is_placement(x, log, sb, sl)) by {
            assert forall|e1: int, e2: int|
                0 <= e1 < x.len() && 0 <= e2 < x.len() && e1 != e2 && !sb.contains(e1) && !sb.contains(e2)
                    implies #[trigger] sl[e1] != #[trigger] sl[e2] by {
                assert(state@[e1] != state@[e2]);
            }
        }
        assert(placeable(x, log, stash_size as int));
    }
    let ghost deficit0 = stash_length - num_marked_stashed;
    let mut stash_deficit = stash_length - num_marked_stashed;

    let mut stash_indices: Vec<usize> = Vec::new();
    let mut k: usize = 0;
    while k < stash_size
        invariant
            k <= stash_size,
            stash_indices@.len() == k,
        decreases stash_size - k,
    {
        stash_indices.push(0);
        k = k + 1;
    }

    let ghost slot: Seq<int> = Seq::new(num_edges as nat, |j: int| state@[j]->0 as int);
    let ghost mut stashed: Seq<int> = Seq::empty();
    let mut num_stashed: usize = 0;
    let mut edge: usize = 0;
    while edge < num_edges
        invariant
            x == input_array@,
            log == log_single_col_len,
            num_edges == x.len(),
            num_edges == state@.len(),
            table@.len() == num_vertices,
            num_vertices == 2 * pow2(log as nat),
            stash_indices@.len() == stash_size,
            edge <= num_edges,
            edge_states_wf(state@, parent_vertex@, x, log),
            injective(state@),
            forall|j: int| 0 <= j < num_edges ==> !(#[trigger] state@[j] is Unvisited),
            slot == Seq::new(num_edges as nat, |j: int| state@[j]->0 as int),
            num_marked_stashed == count_stashed(state@, num_edges as int),
            deficit0 == stash_size - num_marked_stashed,
            stash_deficit <= deficit0,
            stash_size <= num_edges,
            num_stashed == count_stashed(state@, edge as int) + (deficit0 - stash_deficit),
            stash_deficit == (if edge - count_stashed(state@, edge as int) >= deficit0 {
                0
            } else {
                deficit0 - (edge - count_stashed(state@, edge as int))
            }),
            stashed.len() == num_stashed,
            forall|a: int| 0 <= a < stashed.len() ==> 0 <= #[trigger] stashed[a] < edge,
            forall|a: int, b: int| 0 <= a < b < stashed.len() ==> stashed[a] < stashed[b],
            forall|a: int|
                0 <= a < stashed.len() ==> #[trigger] stash_indices@[a] == low_index(x[stashed[a]]),
            forall|j: int|
                0 <= j < edge && (#[trigger] state@[j] is Stashed) ==> stashed.contains(j),
            forall|j: int| 0 <= j < edge && !(#[trigger] stashed.contains(j)) ==> stash_deficit == 0,
            forall|a: int, b: int|
                0 <= a < edge && 0 <= b < edge && #[trigger] stashed.contains(a) && !(state@[a] is Stashed)
                    && !#[trigger] stashed.contains(b) ==> a < b,
            forall|j: int| #[trigger] stashed.contains(j) ==> 0 <= j < edge,
            forall|j: int|
                0 <= j < edge && !stashed.contains(j) ==> {
                    &&& is_end(x, log, j, #[trigger] slot[j])
                    &&& 0 <= slot[j] < table@.len()
                    &&& table@[slot[j]] == x[j]
                    &&& state@[j] is Vertex
                },
            forall|t: int|
                0 <= t < table@.len() && (forall|j: int|
                    0 <= j < edge && !stashed.contains(j) ==> #[trigger] slot[j] != t)
                    ==> #[trigger] table@[t] == 0,
        decreases num_edges - edge,
    {
        proof {
            lemma_count_stashed_bounds(state@, edge as int);
            lemma_count_stashed_bounds(state@, num_edges as int);
            lemma_count_stashed_mono(state@, edge as int + 1, num_edges as int);
        }
        let ghost stashed_before = stashed;
        let ghost table_before = table@;
        let ghost deficit_before = stash_deficit;
        if state[edge] == StashState::Stashed {
            let index = low_u32_index(input_array[edge]);
            stash_indices.set(num_stashed, index);
            num_stashed = num_stashed + 1;
            proof {
                stashed = stashed.push(edge as int);
            }
        } else {
            if stash_deficit > 0 {
                let index = low_u32_index(input_array[edge]);
                stash_indices.set(num_stashed, index);
                num_stashed = num_stashed + 1;
                stash_deficit = stash_deficit - 1;
                proof {
                    stashed = stashed.push(edge as int);
                }
            } else {
                let value = state[edge].unwrap_regular();
                proof {
                    lemma_slots_in_range(x[edge as int], log);
                }
                table.set(value, input_array[edge]);
                proof {
                    assert(slot[edge as int] == value);
                    assert forall|j: int|
                        0 <= j < edge && !stashed.contains(j) implies slot[j] != value by {
                        assert(state@[j] != state@[edge as int]);
                    }
                }
            }
        }
        proof {
            assert forall|j: int| #[trigger] stashed.contains(j) implies stashed_before.contains(j) || j == edge by {
                let a = choose|a: int| 0 <= a < stashed.len() && stashed[a] == j;
                if a < stashed_before.len() {
                    assert(stashed_before[a] == j);
                }
            }
            assert forall|j: int| #[trigger] stashed_before.contains(j) implies stashed.contains(j) by {
                let a = choose|a: int| 0 <= a < stashed_before.len() && stashed_before[a] == j;
                assert(stashed[a] == j);
            }
            assert(stashed.contains(edge as int) ==> stashed.len() > stashed_before.len());
            if stashed.len() > stashed_before.len() {
                assert(stashed[stashed.len() - 1] == edge);
            }
            assert forall|j: int| 0 <= j < edge + 1 && !(#[trigger] stashed.contains(j)) implies stash_deficit == 0 by {
                if j < edge {
                    assert(!stashed_before.contains(j));
                }
            }
            assert forall|a: int, b: int|
                0 <= a < edge + 1 && 0 <= b < edge + 1 && #[trigger] stashed.contains(a) && !(state@[a] is Stashed)
                    && !#[trigger] stashed.contains(b) implies a < b by {
                if b < edge {
                    assert(!stashed_before.contains(b));
                    if a == edge {
                        assert(deficit_before == 0);
                    } else {
                        assert(stashed_before.contains(a));
                    }
                } else {
                    assert(a != edge);
                    assert(stashed_before.contains(a));
                }
            }
            assert forall|j: int|
                0 <= j < edge + 1 && (#[trigger] state@[j] is Stashed) implies stashed.contains(j) by {
                if j < edge {
                    assert(stashed_before.contains(j));
                    let a = choose|a: int| 0 <= a < stashed_before.len() && stashed_before[a] == j;
                    assert(stashed[a] == j);
                } else {
                    assert(stashed[stashed.len() - 1] == j);
                }
            }
            assert forall|j: int| 0 <= j < edge && stashed.contains(j) implies stashed_before.contains(j) by {
                let a = choose|a: int| 0 <= a < stashed.len() && stashed[a] == j;
                if a < stashed_before.len() {
                    assert(stashed_before[a] == j);
                }
            }
            assert forall|a: int|
                0 <= a < stashed.len() implies #[trigger] stash_indices@[a] == low_index(x[stashed[a]]) by {
                if a < stashed_before.len() {
                    assert(stashed[a] == stashed_before[a]);
                }
            }
            assert forall|j: int|
                0 <= j < edge + 1 && !stashed.contains(j) implies {
                &&& is_end(x, log, j, #[trigger] slot[j])
                &&& 0 <= slot[j] < table@.len()
                &&& table@[slot[j]] == x[j]
                &&& state@[j] is Vertex
            } by {
                if j < edge {
                    if stashed_before.contains(j) {
                        let a = choose|a: int| 0 <= a < stashed_before.len() && stashed_before[a] == j;
                        assert(stashed[a] == j);
                    }
                    if table@ != table_before {
                        assert(slot[j] != slot[edge as int]);
                    }
                } else {
                    if state@[j] is Stashed || stashed.len() > stashed_before.len() {
                        assert(stashed[stashed.len() - 1] == j);
                    }
                }
            }
        }
        edge = edge + 1;
    }
    proof {
        lemma_count_stashed_bounds(state@, num_edges as int);
        assert(stash_deficit == 0);
        assert(num_stashed == stash_size);
        assert(valid_layout(x, log, table@, stash_indices@, stashed, slot)) by {
            assert forall|e1: int, e2: int|
                0 <= e1 < x.len() && 0 <= e2 < x.len() && e1 != e2 && !stashed.contains(e1)
                    && !stashed.contains(e2) implies #[trigger] slot[e1] != #[trigger] slot[e2] by {
                assert(state@[e1] != state@[e2]);
            }
        }
        assert(exists|stashed: Seq<int>, slot: Seq<int>|
            #[trigger] valid_layout(
                input_array@,
                log_single_col_len,
                table@,
                stash_indices@,
                stashed,
                slot,
            ));
    }
    assert(table@.len() == 2 * pow2(log_single_col_len as nat));
    assert(stash_indices@.len() == stash_size);
    let ghost t0 = table@;
    let ghost s0 = stash_indices@;
    assert(valid_layout(input_array@, log_single_col_len, t0, s0, stashed, slot));
    assert(topped_up(x, log, stashed, slot)) by {
        let core = stashed_below(state@, num_edges as int);
        lemma_count_stashed_set(state@, num_edges as int);
        assert(is_placement(x, log, core, slot)) by {
            assert forall|e1: int, e2: int|
                0 <= e1 < x.len() && 0 <= e2 < x.len() && e1 != e2 && !core.contains(e1) && !core.contains(e2)
                    implies #[trigger] slot[e1] != #[trigger] slot[e2] by {
                assert(state@[e1] != state@[e2]);
            }
        }
        assert forall|k: int| 0 <= k < core.len() implies !placeable(x, log, k) by {
            assert forall|st2: Set<int>, sl2: Seq<int>|
                #[trigger] is_placement(x, log, st2, sl2) implies st2.len() > k by {
                lemma_stash_minimal(x, log, state@, full, st2, sl2);
            }
        }
    }
    let r = (table, stash_indices);
    assert(r.0@ == t0);
    assert(valid_layout(input_array@, log_single_col_len, r.0@, r.1@, stashed, slot));
    assert(exists|stashed: Seq<int>, slot: Seq<int>|
        #[trigger] valid_layout(input_array@, log_single_col_len, r.0@, r.1@, stashed, slot) && topped_up(
            input_array@,
            log_single_col_len,
            stashed,
            slot,
        ));
    Ok(r)
}

proof fn lemma_count_stashed_mono(st: Seq<StashState>, a: int, b: int)
    requires
        0 <= a <= b,
    ensures
        count_stashed(st, a) <= count_stashed(st, b),
        count_stashed(st, b) - count_stashed(st, a) <= b - a,
    decreases b - a,
{
    if a < b {
        lemma_count_stashed_mono(st, a, b - 1);
    }
}

/// A table of all-zero slots and an all-zero stash, as the non-building
/// parties hold it.
///
/// The table has `2 * 2^log_single_col_len` slots; at the widest column
/// (`log_single_col_len == usize::BITS - 1`) that count wraps to 0.
pub fn dummy(stash_size: usize, log_single_col_len: u32) -> (r: (Vec<Block>, Vec<usize>))
    requires
        log_single_col_len < usize::BITS,
    ensures
        log_single_col_len < usize::BITS - 1 ==> r.0@.len() == 2 * pow2(log_single_col_len as nat),
        log_single_col_len == usize::BITS - 1 ==> r.0@.len() == 0,
        forall|j: int| 0 <= j < r.0@.len() ==> r.0@[j] == 0,
        r.1@.len() == stash_size,
        forall|j: int| 0 <= j < r.1@.len() ==> r.1@[j] == 0,
{
    let len = if log_single_col_len < usize::BITS - 1 {
        proof {
            lemma_usize_pow2_no_overflow((log_single_col_len + 1) as nat);
            lemma_pow2_unfold((log_single_col_len + 1) as nat);
            lemma_usize_shl_is_mul(2, log_single_col_len as usize);
        }
        2usize << log_single_col_len
    } else {
        0
    };
    let mut table: Vec<Block> = Vec::new();
    let mut i: usize = 0;
    while i < len
        invariant
            i <= len,
            table@.len() == i,
            forall|j: int| 0 <= j < i ==> table@[j] == 0,
        decreases len - i,
    {
        table.push(0);
        i = i + 1;
    }
    let mut stash: Vec<usize> = Vec::new();
    let mut k: usize = 0;
    while k < stash_size
        invariant
            k <= stash_size,
            stash@.len() == k,
            forall|j: int| 0 <= j < k ==> stash@[j] == 0,
        decreases stash_size - k,
    {
        stash.push(0);
        k = k + 1;
    }
    (table, stash)
}

/// What party `me` feeds into the lookup of `key` in a table that
/// `builder` laid out: the builder feeds zeros; each other party feeds the
/// table entries at both slots of `key`, and the builder's successor also
/// the key itself in the first place.
pub fn lookup_inputs(
    log_single_col_len: u32,
    table: &[Block],
    key: Block,
    me: PartyId,
    builder: PartyId,
) -> (v: [Block; 3])
    requires
        log_single_col_len < usize::BITS - 1,
        table@.len() == 2 * pow2(log_single_col_len as nat),
    ensures
        me == builder ==> v@ == seq![0u128, 0u128, 0u128],
        me != builder ==> {
            &&& v[0] == (if me == builder.spec_next() {
                key
            } else {
                0u128
            })
            &&& v[1] == table@[h0_spec(key, log_single_col_len)]
            &&& v[2] == table@[h1_spec(key, log_single_col_len)]
        },
{
    let mut v: [Block; 3] = [0, 0, 0];
    if me != builder {
        if me == builder.next() {
            v[0] = key;
        }
        v[1] = table[h0(key, log_single_col_len)];
        v[2] = table[h1(key, log_single_col_len)];
    }
    proof {
        if me == builder {
            assert(v@ =~= seq![0u128, 0u128, 0u128]);
        }
    }
    v
}

} // verus!
