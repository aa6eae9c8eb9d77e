//! Oblivious hash table: parameters, timing records and the bookkeeping of
//! which receiver-order slots have been handed out.
//!
//! A table holds `num_elements` real entries and `num_dummies` dummies in
//! receiver order. Building moves `stash_size` of the real entries into the
//! stash; every query hands out one further slot. Once all dummy queries are
//! spent, the untouched slots are exactly the real entries that were neither
//! stashed nor queried.
use vstd::prelude::*;
use vstd::arithmetic::power2::{lemma_pow2_unfold, pow2};
use vstd::bits::{lemma_usize_pow2_no_overflow, lemma_usize_shl_is_mul};

use crate::party::PartyId;

verus! {

/// The party that builds the cuckoo hash table.
pub const BUILDER_ID: PartyId = PartyId::ID0;

#[derive(Clone, Copy, Debug, PartialEq, Eq, Structural)]
pub struct OHTableParams {
    pub num_elements: usize,
    pub num_dummies: usize,
    pub stash_size: usize,
    pub builder: PartyId,
    pub log_single_col_len: u32,
}

pub type OhTableParams = OHTableParams;

/// Why table parameters are rejected.
#[derive(Clone, Copy, Debug, PartialEq, Eq, Structural)]
pub enum OhTableParamsError {
    /// The stash is larger than the number of real elements.
    StashTooLarge,
    /// The cuckoo table cannot hold all real and dummy entries.
    TableTooSmall,
}

impl OHTableParams {
    /// Parameters with the standard builder.
    pub fn new(num_elements: usize, num_dummies: usize, stash_size: usize, log_single_col_len: u32) -> (p:
        Self)
        ensures
            p == (OHTableParams {
                num_elements,
                num_dummies,
                stash_size,
                builder: BUILDER_ID,
                log_single_col_len,
            }),
    {
        OHTableParams { num_elements, num_dummies, stash_size, builder: BUILDER_ID, log_single_col_len }
    }

    /// Real plus dummy entries.
    pub open spec fn spec_total_size(&self) -> int {
        self.num_elements + self.num_dummies
    }

    /// Slots of the cuckoo table: two columns of `2^log_single_col_len`.
    pub open spec fn spec_cht_full_table_length(&self) -> int {
        2 * (pow2(self.log_single_col_len as nat) as int)
    }

    /// The checks of `validate`, in order.
    pub open spec fn spec_validate(&self) -> Result<(), OhTableParamsError> {
        if self.stash_size > self.num_elements {
            Err(OhTableParamsError::StashTooLarge)
        } else if self.spec_cht_full_table_length() < self.spec_total_size() {
            Err(OhTableParamsError::TableTooSmall)
        } else {
            Ok(())
        }
    }

    /// Check that the stash fits the real elements and the cuckoo table
    /// fits all real and dummy entries.
    pub fn validate(&self) -> (r: Result<(), OhTableParamsError>)
        requires
            self.log_single_col_len < usize::BITS - 1,
            self.spec_total_size() <= usize::MAX,
        ensures
            r == self.spec_validate(),
    {
        if self.stash_size > self.num_elements {
            return Err(OhTableParamsError::StashTooLarge);
        }
        if self.cht_full_table_length() < self.total_size() {
            return Err(OhTableParamsError::TableTooSmall);
        }
        Ok(())
    }

    /// Real plus dummy entries.
    pub fn total_size(&self) -> (n: usize)
        requires
            self.spec_total_size() <= usize::MAX,
        ensures
            n == self.spec_total_size(),
    {
        self.num_elements + self.num_dummies
    }

    /// Slots of the cuckoo table.
    pub fn cht_full_table_length(&self) -> (n: usize)
        requires
            self.log_single_col_len < usize::BITS - 1,
        ensures
            n == self.spec_cht_full_table_length(),
    {
        proof {
            lemma_usize_pow2_no_overflow((self.log_single_col_len + 1) as nat);
            lemma_pow2_unfold((self.log_single_col_len + 1) as nat);
            lemma_usize_shl_is_mul(2, self.log_single_col_len as usize);
        }
        2usize << self.log_single_col_len
    }
}

/// What one query did: the query counter before it, the receiver-order slot
/// it handed out, and whether that slot had been handed out before.
#[derive(Clone, Copy, Debug, PartialEq, Eq, Structural)]
pub struct OhTableQueryTrace {
    pub old_query_count: usize,
    pub selected_receiver_index: usize,
    pub was_touched_before: bool,
}

/// Time spent evaluating the PRF while building, in nanoseconds.
#[derive(Clone, Debug, Default, PartialEq, Eq, Structural)]
pub struct OhTableTiming {
    pub build_prf: u128,
}

/// Time spent in the phases of queries, in nanoseconds.
#[derive(Clone, Debug, Default, PartialEq, Eq, Structural)]
pub struct OhTableQueryTiming {
    pub dummy_cmux: u128,
    pub tag_reveal: u128,
    pub cht_lookup: u128,
    pub receiver_index: u128,
    pub bookkeeping: u128,
}

impl OhTableQueryTiming {
    /// Add the times of `other`, phase by phase.
    pub fn add_assign(&mut self, other: &Self)
        requires
            old(self).dummy_cmux + other.dummy_cmux <= u128::MAX,
            old(self).tag_reveal + other.tag_reveal <= u128::MAX,
            old(self).cht_lookup + other.cht_lookup <= u128::MAX,
            old(self).receiver_index + other.receiver_index <= u128::MAX,
            old(self).bookkeeping + other.bookkeeping <= u128::MAX,
        ensures
            final(self).dummy_cmux == old(self).dummy_cmux + other.dummy_cmux,
            final(self).tag_reveal == old(self).tag_reveal + other.tag_reveal,
            final(self).cht_lookup == old(self).cht_lookup + other.cht_lookup,
            final(self).receiver_index == old(self).receiver_index + other.receiver_index,
            final(self).bookkeeping == old(self).bookkeeping + other.bookkeeping,
    {
        self.dummy_cmux = self.dummy_cmux + other.dummy_cmux;
        self.tag_reveal = self.tag_reveal + other.tag_reveal;
        self.cht_lookup = self.cht_lookup + other.cht_lookup;
        self.receiver_index = self.receiver_index + other.receiver_index;
        self.bookkeeping = self.bookkeeping + other.bookkeeping;
    }
}

/// Number of `true` entries among the first `k`.
pub open spec fn count_true(s: Seq<bool>, k: int) -> int
    decreases k,
{
    if k <= 0 {
        0
    } else {
        count_true(s, k - 1) + if s[k - 1] {
            1int
        } else {
            0int
        }
    }
}

proof fn lemma_count_true_update(s: Seq<bool>, i: int, k: int)
    requires
        0 <= i < s.len(),
        !s[i],
        0 <= k <= s.len(),
    ensures
        count_true(s.update(i, true), k) == count_true(s, k) + if i < k {
            1int
        } else {
            0int
        },
    decreases k,
{
    if k > 0 {
        lemma_count_true_update(s, i, k - 1);
    }
}

proof fn lemma_count_true_bounds(s: Seq<bool>, k: int)
    requires
        0 <= k,
    ensures
        0 <= count_true(s, k) <= k,
    decreases k,
{
    if k > 0 {
        lemma_count_true_bounds(s, k - 1);
    }
}

/// An oblivious hash table's entries in receiver order, with its stash and
/// the record of which slots have been handed out.
pub struct OhTable<X, Y> {
    pub params: OHTableParams,
    pub stash_xs: Vec<X>,
    pub stash_ys: Vec<Y>,
    pub xs_receiver_order: Vec<X>,
    pub ys_receiver_order: Vec<Y>,
    pub query_count: usize,
    pub touched: Vec<bool>,
    pub last_query_trace: Option<OhTableQueryTrace>,
}

impl<X: Copy, Y: Copy> OhTable<X, Y> {
    /// Shapes agree and the slots handed out are exactly the stash plus one
    /// per query so far.
    pub open spec fn wf(&self) -> bool {
        &&& self.params.spec_total_size() <= usize::MAX
        &&& self.xs_receiver_order@.len() == self.params.spec_total_size()
        &&& self.ys_receiver_order@.len() == self.params.spec_total_size()
        &&& self.touched@.len() == self.params.spec_total_size()
        &&& self.stash_xs@.len() == self.params.stash_size
        &&& self.stash_ys@.len() == self.params.stash_size
        &&& self.query_count <= self.params.num_dummies
        &&& self.params.stash_size <= self.params.num_elements
        &&& count_true(self.touched@, self.touched@.len() as int) == self.params.stash_size
            + self.query_count
    }

    /// The table once its entries are in receiver order: the stash takes the
    /// entries at `stash_receiver_indices` (pairwise distinct slots), which
    /// count as handed out.
    pub fn from_receiver_order(
        params: OHTableParams,
        xs_receiver_order: Vec<X>,
        ys_receiver_order: Vec<Y>,
        stash_receiver_indices: &Vec<usize>,
    ) -> (t: Self)
        requires
            params.spec_total_size() <= usize::MAX,
            params.stash_size <= params.num_elements,
            xs_receiver_order@.len() == params.spec_total_size(),
            ys_receiver_order@.len() == params.spec_total_size(),
            stash_receiver_indices@.len() == params.stash_size,
            forall|i: int|
                0 <= i < stash_receiver_indices@.len() ==> #[trigger] stash_receiver_indices@[i]
                    < params.spec_total_size(),
            stash_receiver_indices@.no_duplicates(),
        ensures
            t.wf(),
            t.params == params,
            t.query_count == 0,
            t.xs_receiver_order@ == xs_receiver_order@,
            t.ys_receiver_order@ == ys_receiver_order@,
            forall|i: int|
                0 <= i < params.stash_size ==> #[trigger] t.stash_xs@[i]
                    == xs_receiver_order@[stash_receiver_indices@[i] as int] && t.stash_ys@[i]
                    == ys_receiver_order@[stash_receiver_indices@[i] as int],
            forall|j: int|
                0 <= j < params.spec_total_size() ==> (#[trigger] t.touched@[j]
                    <==> stash_receiver_indices@.contains(j as usize)),
            t.last_query_trace is None,
    {
        let total = params.total_size();
        let mut touched: Vec<bool> = Vec::new();
        let mut i: usize = 0;
        while i < total
            invariant
                i <= total,
                touched@.len() == i,
                forall|j: int| 0 <= j < i ==> !touched@[j],
                count_true(touched@, i as int) == 0,
            decreases total - i,
        {
            touched.push(false);
            proof {
                lemma_count_true_all_false(touched@, i as int + 1);
            }
            i = i + 1;
        }
        let mut stash_xs: Vec<X> = Vec::new();
        let mut stash_ys: Vec<Y> = Vec::new();
        let mut k: usize = 0;
        while k < stash_receiver_indices.len()
            invariant
                total == params.spec_total_size(),
                k <= stash_receiver_indices@.len(),
                stash_receiver_indices@.no_duplicates(),
                forall|a: int|
                    0 <= a < stash_receiver_indices@.len() ==> #[trigger] stash_receiver_indices@[a]
                        < total,
                xs_receiver_order@.len() == total,
                ys_receiver_order@.len() == total,
                touched@.len() == total,
                stash_xs@.len() == k,
                stash_ys@.len() == k,
                forall|a: int|
                    0 <= a < k ==> #[trigger] stash_xs@[a] == xs_receiver_order@[stash_receiver_indices@[a] as int]
                        && stash_ys@[a] == ys_receiver_order@[stash_receiver_indices@[a] as int],
                forall|j: int|
                    0 <= j < total ==> (#[trigger] touched@[j]
                        <==> stash_receiver_indices@.subrange(0, k as int).contains(j as usize)),
                count_true(touched@, total as int) == k,
            decreases stash_receiver_indices@.len() - k,
        {
            let receiver_index = stash_receiver_indices[k];
            proof {
                if touched@[receiver_index as int] {
                    let a = choose|a: int|
                        0 <= a < k && stash_receiver_indices@.subrange(0, k as int)[a] == receiver_index;
                    assert(stash_receiver_indices@[a] == stash_receiver_indices@[k as int]);
                }
                lemma_count_true_update(touched@, receiver_index as int, total as int);
            }
            let ghost before = touched@;
            touched.set(receiver_index, true);
            stash_xs.push(xs_receiver_order[receiver_index]);
            stash_ys.push(ys_receiver_order[receiver_index]);
            proof {
                assert forall|j: int| 0 <= j < total implies (#[trigger] touched@[j]
                    <==> stash_receiver_indices@.subrange(0, k + 1).contains(j as usize)) by {
                    let prefix = stash_receiver_indices@.subrange(0, k as int);
                    let next = stash_receiver_indices@.subrange(0, k + 1);
                    assert(next == prefix.push(receiver_index));
                    if before[j] {
                        let a = choose|a: int| 0 <= a < prefix.len() && prefix[a] == j as usize;
                        assert(next[a] == j as usize);
                    }
                    if j == receiver_index {
                        assert(next[k as int] == receiver_index);
                    }
                    if next.contains(j as usize) && j != receiver_index {
                        let a = choose|a: int| 0 <= a < next.len() && next[a] == j as usize;
                        assert(prefix[a] == j as usize);
                    }
                }
            }
            k = k + 1;
        }
        proof {
            assert(stash_receiver_indices@.subrange(0, k as int) == stash_receiver_indices@);
        }
        OhTable {
            params,
            stash_xs,
            stash_ys,
            xs_receiver_order,
            ys_receiver_order,
            query_count: 0,
            touched,
            last_query_trace: None,
        }
    }

    /// Hand out the receiver-order slot `index_receiver_order` that the
    /// lookup selected for the next query, and return its value.
    pub fn record_query(&mut self, index_receiver_order: usize) -> (y: Y)
        requires
            old(self).wf(),
            old(self).query_count < old(self).params.num_dummies,
            index_receiver_order < old(self).params.spec_total_size(),
            !old(self).touched@[index_receiver_order as int],
        ensures
            final(self).wf(),
            y == old(self).ys_receiver_order@[index_receiver_order as int],
            final(self).query_count == old(self).query_count + 1,
            final(self).touched@ == old(self).touched@.update(index_receiver_order as int, true),
            final(self).last_query_trace == Some(
                OhTableQueryTrace {
                    old_query_count: old(self).query_count,
                    selected_receiver_index: index_receiver_order,
                    was_touched_before: false,
                },
            ),
            final(self).params == old(self).params,
            final(self).xs_receiver_order@ == old(self).xs_receiver_order@,
            final(self).ys_receiver_order@ == old(self).ys_receiver_order@,
            final(self).stash_xs@ == old(self).stash_xs@,
            final(self).stash_ys@ == old(self).stash_ys@,
    {
        let old_query_count = self.query_count;
        let was_touched_before = self.touched[index_receiver_order];
        proof {
            lemma_count_true_update(
                self.touched@,
                index_receiver_order as int,
                self.touched@.len() as int,
            );
        }
        self.touched.set(index_receiver_order, true);
        self.query_count = self.query_count + 1;
        self.last_query_trace = Some(
            OhTableQueryTrace {
                old_query_count,
                selected_receiver_index: index_receiver_order,
                was_touched_before,
            },
        );
        self.ys_receiver_order[index_receiver_order]
    }

    /// After all dummy queries: the entries of the slots never handed out,
    /// in receiver order; there are exactly `num_elements - stash_size`.
    pub fn extract(&self, extract_xs: &mut Vec<X>, extract_ys: &mut Vec<Y>)
        requires
            self.wf(),
            self.query_count == self.params.num_dummies,
        ensures
            final(extract_xs)@.len() == self.params.num_elements - self.params.stash_size,
            final(extract_ys)@.len() == self.params.num_elements - self.params.stash_size,
            final(extract_xs)@ == untouched(self.xs_receiver_order@, self.touched@, self.touched@.len() as int),
            final(extract_ys)@ == untouched(self.ys_receiver_order@, self.touched@, self.touched@.len() as int),
    {
        extract_xs.clear();
        extract_ys.clear();
        let mut i: usize = 0;
        while i < self.touched.len()
            invariant
                self.wf(),
                i <= self.touched@.len(),
                extract_xs@ == untouched(self.xs_receiver_order@, self.touched@, i as int),
                extract_ys@ == untouched(self.ys_receiver_order@, self.touched@, i as int),
                extract_xs@.len() == i - count_true(self.touched@, i as int),
                extract_ys@.len() == i - count_true(self.touched@, i as int),
            decreases self.touched@.len() - i,
        {
            if !self.touched[i] {
                extract_xs.push(self.xs_receiver_order[i]);
                extract_ys.push(self.ys_receiver_order[i]);
            }
            i = i + 1;
        }
    }
}

/// The entries among the first `k` whose slot has not been handed out, in
/// order.
pub open spec fn untouched<T>(values: Seq<T>, touched: Seq<bool>, k: int) -> Seq<T>
    decreases k,
{
    if k <= 0 {
        Seq::empty()
    } else if touched[k - 1] {
        untouched(values, touched, k - 1)
    } else {
        untouched(values, touched, k - 1).push(values[k - 1])
    }
}

proof fn lemma_count_true_all_false(s: Seq<bool>, k: int)
    requires
        0 <= k <= s.len(),
        forall|j: int| 0 <= j < k ==> !s[j],
    ensures
        count_true(s, k) == 0,
    decreases k,
{
    if k > 0 {
        lemma_count_true_all_false(s, k - 1);
    }
}

/// The query bookkeeping never hands a slot out twice: a table whose every
/// dummy query has run has handed out exactly the stash plus one slot per
/// dummy, and the untouched slots number `num_elements - stash_size`.
pub proof fn lemma_extract_size<X: Copy, Y: Copy>(t: OhTable<X, Y>)
    requires
        t.wf(),
        t.query_count == t.params.num_dummies,
    ensures
        t.touched@.len() - count_true(t.touched@, t.touched@.len() as int) == t.params.num_elements
            - t.params.stash_size,
{
}

/// The cuckoo table of the parameters is the one `cht::build` lays out for
/// the same column length: `2 * 2^log_single_col_len` slots, each slot that
/// `h0` or `h1` gives for a block lies in it, and `validate` accepts exactly
/// when the stash fits the real elements and all real and dummy entries fit
/// these slots.
pub proof fn lemma_full_table_is_the_cuckoo_table(p: OHTableParams, block: u128)
    ensures
        p.spec_cht_full_table_length() == 2 * pow2(p.log_single_col_len as nat),
        0 <= crate::cht::h0_spec(block, p.log_single_col_len) < p.spec_cht_full_table_length(),
        0 <= crate::cht::h1_spec(block, p.log_single_col_len) < p.spec_cht_full_table_length(),
        (p.spec_validate() is Ok) <==> (p.stash_size <= p.num_elements && p.num_elements + p.num_dummies <= 2
            * pow2(p.log_single_col_len as nat)),
{
    crate::cht::lemma_slots_in_range(block, p.log_single_col_len);
}

} // verus!
