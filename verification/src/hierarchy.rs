//! The level schedule of the hierarchical DORAM: which levels hold a table,
//! how full each level's base-`b` counter is, how many entries the speed
//! cache holds, and what a rebuild gathers and where it puts it.
use vstd::prelude::*;
use vstd::arithmetic::power2::{lemma_pow2_adds, lemma_pow2_pos, lemma_pow2_strictly_increases, pow2};
use vstd::bits::{lemma_usize_pow2_no_overflow, lemma_usize_shl_is_mul, lemma_u64_pow2_no_overflow, lemma_u64_shl_is_mul};

use crate::config::{ADDRESS_BITS, ChtBounds, GigaDoramConfig};
use crate::ohtable::{OHTableParams, BUILDER_ID};

verus! {

/// The amplification factor `b = 2^log_amp_factor`.
pub open spec fn amp(c: GigaDoramConfig) -> int {
    pow2(c.log_amp_factor as nat) as int
}

/// `log2` of the entries of one unit of level `level`'s counter.
pub open spec fn level_shift(c: GigaDoramConfig, level: int) -> nat {
    (level * c.log_amp_factor + c.log_speed_cache_size) as nat
}

/// Entries of level `level` when its counter is `state`: the bottom level
/// always holds the whole address space.
pub open spec fn elements_at(c: GigaDoramConfig, level: int, state: int) -> int {
    if level == c.num_levels - 1 {
        pow2(c.log_address_space_size as nat) as int
    } else {
        state * pow2(level_shift(c, level))
    }
}

/// The first level from `t` on, below the bottom, whose counter can still
/// grow; the bottom level if there is none.
pub open spec fn first_open_from(c: GigaDoramConfig, states: Seq<usize>, t: int) -> int
    decreases c.num_levels - t,
{
    if t >= c.num_levels - 1 {
        c.num_levels - 1
    } else if states[t] < amp(c) - 1 {
        t
    } else {
        first_open_from(c, states, t + 1)
    }
}

/// The level a rebuild fills, and whether that level's own table is merged
/// into it.
pub open spec fn spec_rebuild_target(c: GigaDoramConfig, states: Seq<usize>, built: Seq<bool>) -> (
    int,
    bool,
) {
    let t = first_open_from(c, states, 0);
    if t == c.num_levels - 1 {
        (t, states[t] != 0)
    } else {
        (t, built[t])
    }
}

/// Entries of the built levels below `upto`.
pub open spec fn built_entries(c: GigaDoramConfig, states: Seq<usize>, built: Seq<bool>, upto: int) -> int
    decreases upto,
{
    if upto <= 0 {
        0
    } else {
        built_entries(c, states, built, upto - 1) + if built[upto - 1] {
            elements_at(c, upto - 1, states[upto - 1] as int)
        } else {
            0
        }
    }
}

/// What a rebuild gathers: the full speed cache and every built level below
/// the target, and the target itself when it is merged.
pub open spec fn gathered_entries(c: GigaDoramConfig, states: Seq<usize>, built: Seq<bool>) -> int {
    let (t, merge) = spec_rebuild_target(c, states, built);
    pow2(c.log_speed_cache_size as nat) + built_entries(
        c,
        states,
        built,
        if merge {
            t + 1
        } else {
            t
        },
    )
}


/// `floor(log2(n))`, and 0 for `n <= 1`.
pub open spec fn floor_log2(n: nat) -> nat
    decreases n,
{
    if n <= 1 {
        0
    } else {
        1 + floor_log2(n / 2)
    }
}

/// The units of counter that a new table of level `level` covers: its
/// counter below the bottom, one at the bottom.
pub open spec fn table_units(c: GigaDoramConfig, states: Seq<usize>, level: int) -> int {
    if level == c.num_levels - 1 {
        1
    } else {
        states[level] as int
    }
}

/// `log2` of one cuckoo column of a new table of level `level`: the level's
/// unit, times the units it covers scaled by the column load factor,
/// rounded down to a power of two, then doubled.
pub open spec fn log_single_col_len(c: GigaDoramConfig, states: Seq<usize>, level: int) -> int {
    (level_shift(c, level) + floor_log2(c.cht_bounds.spec_scaled_count(table_units(c, states, level)) as nat) + 1) as int
}

/// A number below `2^k` has a floor logarithm below `k`.
proof fn lemma_floor_log2_bound(n: nat, k: nat)
    requires
        k >= 1,
        n < pow2(k),
    ensures
        floor_log2(n) < k,
    decreases k,
{
    if n > 1 {
        vstd::arithmetic::power2::lemma_pow2_unfold(k);
        if k > 1 {
            lemma_floor_log2_bound(n / 2, (k - 1) as nat);
        } else {
            assert(pow2(1) == 2) by {
                vstd::arithmetic::power2::lemma2_to64();
            }
        }
    }
}

/// `floor(log2(n))` of a positive word.
pub fn ilog2_usize(n: usize) -> (r: u32)
    requires
        n >= 1,
    ensures
        r == floor_log2(n as nat),
        r < 64,
{
    proof {
        vstd::arithmetic::power2::lemma2_to64();
        lemma_floor_log2_bound(n as nat, 64);
    }
    let mut m = n;
    let mut r: u32 = 0;
    while m > 1
        invariant
            m >= 1,
            r + floor_log2(m as nat) == floor_log2(n as nat),
            r + floor_log2(m as nat) < 64,
        decreases m,
    {
        m = m / 2;
        r = r + 1;
    }
    r
}



/// The counters after a rebuild that fills level `t`: the levels below
/// are emptied, the target's counter moves up by one (the bottom's becomes
/// one), the levels above keep theirs.
pub open spec fn states_after_rebuild(c: GigaDoramConfig, states: Seq<usize>, t: int) -> Seq<usize> {
    Seq::new(
        c.num_levels as nat,
        |l: int|
            if l < t {
                0usize
            } else if l == t {
                if t == c.num_levels - 1 {
                    1usize
                } else {
                    (states[l] + 1) as usize
                }
            } else {
                states[l]
            },
    )
}

/// The number that the counters below level `n` spell in base `b`, the
/// lowest level being the lowest digit.
pub open spec fn counter_value(c: GigaDoramConfig, states: Seq<usize>, n: int) -> int
    decreases n,
{
    if n <= 0 {
        0
    } else {
        counter_value(c, states, n - 1) + states[n - 1] * pow2(((n - 1) * c.log_amp_factor) as nat)
    }
}

/// The next thing a batch of accesses does.
#[derive(Clone, Copy, Debug, PartialEq, Eq, Structural)]
pub enum BatchStep {
    /// The speed cache is full: rebuild first.
    Rebuild,
    /// Access this many operations of the batch, one speed-cache slot each.
    Access(usize),
}

/// Why a batch was refused.
#[derive(Clone, Copy, Debug, PartialEq, Eq, Structural)]
pub enum BatchError {
    /// A batch needs at least one operation.
    EmptyBatch,
}

/// The operations that a list of steps accesses.
pub open spec fn accessed(steps: Seq<BatchStep>) -> int
    decreases steps.len(),
{
    if steps.len() == 0 {
        0
    } else {
        accessed(steps.drop_last()) + match steps.last() {
            BatchStep::Access(n) => n as int,
            BatchStep::Rebuild => 0,
        }
    }
}

/// What a rebuild did: the level it filled, whether it merged that level's
/// old table, how many entries it gathered, and whether it filled the
/// bottom level.
#[derive(Clone, Copy, Debug, PartialEq, Eq, Structural)]
pub struct RebuildPlan {
    pub level: usize,
    pub merge_level: bool,
    pub num_gathered: u64,
    pub bottom: bool,
}

/// The level bookkeeping of a DORAM: one base-`b` counter and one
/// "has a table" flag per level, and the number of filled speed-cache slots.
pub struct LevelSchedule {
    config: GigaDoramConfig,
    base_b_state_vec: Vec<usize>,
    level_built: Vec<bool>,
    speed_cache_stored: usize,
}

impl LevelSchedule {
    /// The counters stay below `b`, a level below the bottom holds a table
    /// exactly when its counter is not zero, the bottom counter is at most
    /// one, and the speed cache holds at least the stash's slots.
    pub closed spec fn wf(self) -> bool {
        let c = self.config;
        &&& c.is_valid()
        &&& self.base_b_state_vec@.len() == c.num_levels
        &&& self.level_built@.len() == c.num_levels
        &&& forall|l: int|
            0 <= l < c.num_levels - 1 ==> #[trigger] self.base_b_state_vec@[l] < amp(c) && (
            self.level_built@[l] <==> self.base_b_state_vec@[l] > 0)
        &&& self.base_b_state_vec@[c.num_levels - 1] <= 1
        &&& c.stash_size <= self.speed_cache_stored <= pow2(c.log_speed_cache_size as nat)
    }

    pub closed spec fn config(self) -> GigaDoramConfig {
        self.config
    }

    /// The counter of each level.
    pub closed spec fn states(self) -> Seq<usize> {
        self.base_b_state_vec@
    }

    /// Whether each level holds a table.
    pub closed spec fn built(self) -> Seq<bool> {
        self.level_built@
    }

    /// The filled speed-cache slots.
    pub closed spec fn stored(self) -> nat {
        self.speed_cache_stored as nat
    }

    /// The schedule of a fresh DORAM: no level built, every counter zero,
    /// and the speed cache holding only the stash's slots.
    pub fn new(config: GigaDoramConfig) -> (s: LevelSchedule)
        requires
            config.is_valid(),
        ensures
            s.wf(),
            s.config() == config,
            s.states() == Seq::new(config.num_levels as nat, |l: int| 0usize),
            s.built() == Seq::new(config.num_levels as nat, |l: int| false),
            s.stored() == config.stash_size,
    {
        let mut states: Vec<usize> = Vec::new();
        let mut built: Vec<bool> = Vec::new();
        let mut i: usize = 0;
        while i < config.num_levels
            invariant
                i <= config.num_levels,
                states@ == Seq::new(i as nat, |l: int| 0usize),
                built@ == Seq::new(i as nat, |l: int| false),
            decreases config.num_levels - i,
        {
            states.push(0);
            built.push(false);
            i = i + 1;
            assert(states@ =~= Seq::new(i as nat, |l: int| 0usize));
            assert(built@ =~= Seq::new(i as nat, |l: int| false));
        }
        proof {
            lemma_pow2_pos(config.log_amp_factor as nat);
        }
        LevelSchedule {
            config,
            base_b_state_vec: states,
            level_built: built,
            speed_cache_stored: config.stash_size,
        }
    }

    pub fn num_levels(&self) -> (n: usize)
        requires
            self.wf(),
        ensures
            n == self.config().num_levels,
    {
        self.config.num_levels
    }

    /// The filled speed-cache slots.
    pub fn speed_cache_len(&self) -> (n: usize)
        requires
            self.wf(),
        ensures
            n == self.stored(),
    {
        self.speed_cache_stored
    }

    /// Whether the speed cache has a free slot.
    pub fn is_writeable(&self) -> (b: bool)
        requires
            self.wf(),
        ensures
            b == (self.stored() < pow2(self.config().log_speed_cache_size as nat)),
    {
        self.speed_cache_stored < self.config.speed_cache_size()
    }

    /// A query wrote its entry to the next free speed-cache slot.
    pub fn record_query(&mut self)
        requires
            old(self).wf(),
            old(self).stored() < pow2(old(self).config().log_speed_cache_size as nat),
        ensures
            final(self).wf(),
            final(self).stored() == old(self).stored() + 1,
            final(self).config() == old(self).config(),
            final(self).states() == old(self).states(),
            final(self).built() == old(self).built(),
    {
        proof {
            lemma_usize_pow2_no_overflow(self.config.log_speed_cache_size as nat);
        }
        self.speed_cache_stored = self.speed_cache_stored + 1;
    }

    /// The level the next rebuild fills, and whether it merges that level's
    /// own table.
    pub fn rebuild_target(&self) -> (r: (usize, bool))
        requires
            self.wf(),
        ensures
            r.0 == spec_rebuild_target(self.config(), self.states(), self.built()).0,
            r.1 == spec_rebuild_target(self.config(), self.states(), self.built()).1,
            r.0 < self.config().num_levels,
    {
        let amp_factor = self.config.amp_factor();
        proof {
            lemma_pow2_pos(self.config.log_amp_factor as nat);
        }
        let last = self.config.num_levels - 1;
        let mut rebuild_to: usize = 0;
        while rebuild_to < last
            invariant
                self.config.is_valid(),
                last == self.config.num_levels - 1,
                amp_factor == amp(self.config),
                amp_factor >= 1,
                rebuild_to <= last,
                self.base_b_state_vec@.len() == self.config.num_levels,
                self.level_built@.len() == self.config.num_levels,
                first_open_from(self.config, self.base_b_state_vec@, 0) == first_open_from(
                    self.config,
                    self.base_b_state_vec@,
                    rebuild_to as int,
                ),
            decreases last - rebuild_to,
        {
            if self.base_b_state_vec[rebuild_to] < amp_factor - 1 {
                return (rebuild_to, self.level_built[rebuild_to]);
            }
            rebuild_to = rebuild_to + 1;
        }
        (rebuild_to, self.base_b_state_vec[rebuild_to] != 0)
    }

    /// Whether the DORAM can grow by one address bit: the speed cache is
    /// full and the next rebuild fills the bottom level.
    pub fn ready_to_grow_naturally(&self) -> (b: bool)
        requires
            self.wf(),
        ensures
            b == (self.stored() >= pow2(self.config().log_speed_cache_size as nat)
                && spec_rebuild_target(self.config(), self.states(), self.built()).0
                == self.config().num_levels - 1),
    {
        !self.is_writeable() && self.rebuild_target().0 == self.config.num_levels - 1
    }

    /// Entries of level `level` when its counter is `state`.
    pub fn num_elements_at(&self, level: usize, state: usize) -> (n: usize)
        requires
            self.wf(),
            level < self.config().num_levels,
            level < self.config().num_levels - 1 ==> state <= amp(self.config()),
        ensures
            n == elements_at(self.config(), level as int, state as int),
    {
        if level == self.config.num_levels - 1 {
            self.bottom_num_elements()
        } else {
            let c = self.config;
            proof {
                lemma_shift_fits(c, level as int);
            }
            let shift = level * c.log_amp_factor + c.log_speed_cache_size;
            proof {
                lemma_usize_pow2_no_overflow(shift as nat);
                lemma_state_times_unit(c, level as int, state as int);
                lemma_usize_pow2_no_overflow(c.log_address_space_size as nat);
                assert(level_shift(c, level as int) == shift);
                lemma_usize_shl_is_mul(state, shift);
            }
            state << shift
        }
    }

    /// Entries of the bottom level: the whole address space.
    pub fn bottom_num_elements(&self) -> (n: usize)
        requires
            self.wf(),
        ensures
            n == pow2(self.config().log_address_space_size as nat),
    {
        proof {
            lemma_usize_pow2_no_overflow(self.config.log_address_space_size as nat);
            lemma_usize_shl_is_mul(1, self.config.log_address_space_size);
        }
        1usize << self.config.log_address_space_size
    }

    /// Dummies a table of level `level` holds: `b^level` times the queries
    /// between two rebuilds.
    pub fn num_dummies(&self, level: usize) -> (n: usize)
        requires
            self.wf(),
            level < self.config().num_levels,
        ensures
            n == pow2((level * self.config().log_amp_factor) as nat) * (pow2(
                self.config().log_speed_cache_size as nat,
            ) - self.config().stash_size),
    {
        let c = self.config;
        let fill = c.fill_time();
        proof {
            lemma_shift_fits(c, level as int);
        }
        let e = level * c.log_amp_factor;
        proof {
            lemma_usize_pow2_no_overflow(e as nat);
            lemma_usize_shl_is_mul(1, e);
            lemma_pow2_adds(e as nat, c.log_speed_cache_size as nat);
            lemma_usize_pow2_no_overflow((e + c.log_speed_cache_size) as nat);
            assert(pow2(e as nat) * fill <= pow2(e as nat) * pow2(c.log_speed_cache_size as nat))
                by (nonlinear_arith)
                requires
                    fill <= pow2(c.log_speed_cache_size as nat),
            ;
        }
        let power = 1usize << e;
        power * fill
    }

    /// The public label of the `offset`-th dummy: the first address past the
    /// address space, plus `offset`.
    pub fn dummy_label(&self, offset: usize) -> (label: u32)
        requires
            self.wf(),
            pow2(self.config().log_address_space_size as nat) + offset <= u32::MAX,
        ensures
            label == pow2(self.config().log_address_space_size as nat) + offset,
    {
        proof {
            lemma_u64_pow2_no_overflow(self.config.log_address_space_size as nat);
            lemma_u64_shl_is_mul(1, self.config.log_address_space_size as u64);
        }
        let label = (1u64 << (self.config.log_address_space_size as u64)) + offset as u64;
        label as u32
    }



    /// A chunk of `n` queries wrote their entries to the next free slots.
    pub fn record_queries(&mut self, n: usize)
        requires
            old(self).wf(),
            old(self).stored() + n <= pow2(old(self).config().log_speed_cache_size as nat),
        ensures
            final(self).wf(),
            final(self).stored() == old(self).stored() + n,
            final(self).config() == old(self).config(),
            final(self).states() == old(self).states(),
            final(self).built() == old(self).built(),
    {
        proof {
            lemma_usize_pow2_no_overflow(self.config.log_speed_cache_size as nat);
        }
        self.speed_cache_stored = self.speed_cache_stored + n;
    }

    /// What a batch with `remaining` operations left does next: rebuild
    /// when the speed cache is full, else access as many operations as
    /// there are free slots, at most all that remain.
    pub fn next_batch_step(&self, remaining: usize) -> (step: BatchStep)
        requires
            self.wf(),
        ensures
            self.stored() == pow2(self.config().log_speed_cache_size as nat) ==> step
                == BatchStep::Rebuild,
            self.stored() < pow2(self.config().log_speed_cache_size as nat) ==> step
                == BatchStep::Access(
                if remaining <= pow2(self.config().log_speed_cache_size as nat) - self.stored() {
                    remaining
                } else {
                    (pow2(self.config().log_speed_cache_size as nat) - self.stored()) as usize
                },
            ),
    {
        let free = self.config.speed_cache_size() - self.speed_cache_stored;
        if free == 0 {
            BatchStep::Rebuild
        } else if remaining <= free {
            BatchStep::Access(remaining)
        } else {
            BatchStep::Access(free)
        }
    }

    /// The levels that hold a table, lowest first.
    pub fn live_levels(&self) -> (levels: Vec<usize>)
        requires
            self.wf(),
        ensures
            forall|i: int, j: int| 0 <= i < j < levels@.len() ==> levels@[i] < levels@[j],
            forall|i: int| 0 <= i < levels@.len() ==> #[trigger] levels@[i] < self.config().num_levels
                && self.built()[levels@[i] as int],
            forall|l: int|
                0 <= l < self.config().num_levels && #[trigger] self.built()[l] ==> levels@.contains(
                    l as usize,
                ),
    {
        let mut levels: Vec<usize> = Vec::new();
        let mut l: usize = 0;
        while l < self.config.num_levels
            invariant
                self.wf(),
                l <= self.config.num_levels,
                forall|i: int, j: int| 0 <= i < j < levels@.len() ==> levels@[i] < levels@[j],
                forall|i: int| 0 <= i < levels@.len() ==> #[trigger] levels@[i] < l
                    && self.level_built@[levels@[i] as int],
                forall|k: int| 0 <= k < l && #[trigger] self.level_built@[k] ==> levels@.contains(
                    k as usize,
                ),
            decreases self.config.num_levels - l,
        {
            if self.level_built[l] {
                let ghost before = levels@;
                levels.push(l);
                assert forall|k: int| 0 <= k < l + 1 && #[trigger] self.level_built@[k] implies levels@.contains(
                    k as usize,
                ) by {
                    if k < l {
                        let w = choose|w: int| 0 <= w < before.len() && before[w] == k as usize;
                        assert(levels@[w] == k as usize);
                    } else {
                        assert(levels@[before.len() as int] == k as usize);
                    }
                }
            }
            l = l + 1;
        }
        levels
    }

    /// The bookkeeping of a whole batch of `num_ops` accesses: the steps it
    /// takes, in order, with each rebuild done when the speed cache is full
    /// and each access chunk writing one slot per operation.
    pub fn plan_batch_access(&mut self, num_ops: usize) -> (r: Result<Vec<BatchStep>, BatchError>)
        requires
            old(self).wf(),
        ensures
            final(self).wf(),
            final(self).config() == old(self).config(),
            num_ops == 0 <==> r is Err,
            r is Ok ==> accessed(r->Ok_0@) == num_ops,
            r is Ok ==> forall|i: int|
                0 <= i < r->Ok_0@.len() ==> (#[trigger] r->Ok_0@[i] matches BatchStep::Access(n) ==> n
                    >= 1),
    {
        if num_ops == 0 {
            return Err(BatchError::EmptyBatch);
        }
        let mut steps: Vec<BatchStep> = Vec::new();
        let mut remaining = num_ops;
        while remaining > 0
            invariant
                self.wf(),
                self.config == old(self).config,
                remaining <= num_ops,
                accessed(steps@) + remaining == num_ops,
                forall|i: int|
                    0 <= i < steps@.len() ==> (#[trigger] steps@[i] matches BatchStep::Access(n) ==> n
                        >= 1),
            decreases remaining * 2 + if self.speed_cache_stored == pow2(
                self.config.log_speed_cache_size as nat,
            ) {
                1int
            } else {
                0int
            },
        {
            let step = self.next_batch_step(remaining);
            let ghost before = steps@;
            match step {
                BatchStep::Rebuild => {
                    self.rebuild();
                },
                BatchStep::Access(n) => {
                    self.record_queries(n);
                    remaining = remaining - n;
                },
            }
            steps.push(step);
            assert(steps@.drop_last() =~= before);
        }
        Ok(steps)
    }

    /// The parameters of the table just built at `level` from
    /// `num_elements` entries: its dummies, the configured stash, and its
    /// column length.
    pub fn new_table_params(&self, level: usize, num_elements: usize) -> (p: OHTableParams)
        requires
            self.wf(),
            level < self.config().num_levels,
            table_units(self.config(), self.states(), level as int) >= 1,
            num_elements >= self.config().stash_size,
        ensures
            p.num_elements == num_elements,
            p.num_dummies == pow2((level * self.config().log_amp_factor) as nat) * (pow2(
                self.config().log_speed_cache_size as nat,
            ) - self.config().stash_size),
            p.stash_size == self.config().stash_size,
            p.builder == BUILDER_ID,
            p.log_single_col_len == log_single_col_len(self.config(), self.states(), level as int),
    {
        let c = self.config;
        let units = if level == c.num_levels - 1 {
            1
        } else {
            self.base_b_state_vec[level]
        };
        proof {
            lemma_usize_pow2_no_overflow(c.log_amp_factor as nat);
            lemma_shift_fits(c, level as int);
            vstd::arithmetic::power2::lemma2_to64();
        }
        assert(units <= usize::MAX / 2) by {
            if level < c.num_levels - 1 {
                assert(units < amp(c));
                assert(c.log_amp_factor <= (c.num_levels - 1) * c.log_amp_factor) by (nonlinear_arith)
                    requires
                        c.num_levels >= 2,
                ;
                if c.log_amp_factor < 31 {
                    lemma_pow2_strictly_increases(c.log_amp_factor as nat, 31);
                }
            }
        }
        let scaled = c.cht_bounds.scaled_count(units);
        assert(scaled >= 1);
        let shift = level * c.log_amp_factor + c.log_speed_cache_size;
        let log_len = shift as u32 + ilog2_usize(scaled) + 1;
        OHTableParams::new(num_elements, self.num_dummies(level), c.stash_size, log_len)
    }

    /// Remove level `level`'s table; a full counter below the bottom wraps
    /// to zero.
    fn delete_level(&mut self, level: usize)
        requires
            old(self).config().is_valid(),
            level < old(self).config().num_levels,
            old(self).states().len() == old(self).config().num_levels,
            old(self).built().len() == old(self).config().num_levels,
        ensures
            final(self).config() == old(self).config(),
            final(self).stored() == old(self).stored(),
            final(self).built() == old(self).built().update(level as int, false),
            final(self).states() == if level < old(self).config().num_levels - 1
                && old(self).states()[level as int] == amp(old(self).config()) - 1 {
                old(self).states().update(level as int, 0)
            } else {
                old(self).states()
            },
    {
        proof {
            lemma_pow2_pos(self.config.log_amp_factor as nat);
        }
        self.level_built.set(level, false);
        if level < self.config.num_levels - 1 && self.base_b_state_vec[level]
            == self.config.amp_factor() - 1 {
            self.base_b_state_vec.set(level, 0);
        }
    }

    /// Level `level` got a new table: its counter moves up by one (the
    /// bottom counter becomes one).
    fn mark_built(&mut self, level: usize)
        requires
            old(self).config().is_valid(),
            level < old(self).config().num_levels,
            old(self).states().len() == old(self).config().num_levels,
            old(self).built().len() == old(self).config().num_levels,
            level < old(self).config().num_levels - 1 ==> old(self).states()[level as int] + 1 < amp(
                old(self).config(),
            ),
        ensures
            final(self).config() == old(self).config(),
            final(self).stored() == old(self).stored(),
            final(self).built() == old(self).built().update(level as int, true),
            final(self).states() == old(self).states().update(
                level as int,
                if level == old(self).config().num_levels - 1 {
                    1usize
                } else {
                    (old(self).states()[level as int] + 1) as usize
                },
            ),
    {
        self.level_built.set(level, true);
        if level == self.config.num_levels - 1 {
            self.base_b_state_vec.set(level, 1);
        } else {
            proof {
                lemma_usize_pow2_no_overflow(self.config.log_amp_factor as nat);
            }
            let next = self.base_b_state_vec[level] + 1;
            self.base_b_state_vec.set(level, next);
        }
    }

    /// The bookkeeping of a rebuild, once the speed cache is full: gather
    /// the speed cache and the built levels below the target (and the
    /// target's own table when it has one), empty those levels, give the
    /// target a table, and start the emptied speed cache with the new
    /// table's stash.
    pub fn rebuild(&mut self) -> (plan: RebuildPlan)
        requires
            old(self).wf(),
            old(self).stored() == pow2(old(self).config().log_speed_cache_size as nat),
        ensures
            final(self).wf(),
            final(self).config() == old(self).config(),
            plan.level == spec_rebuild_target(old(self).config(), old(self).states(), old(self).built()).0,
            plan.merge_level == spec_rebuild_target(
                old(self).config(),
                old(self).states(),
                old(self).built(),
            ).1,
            plan.bottom == (plan.level == old(self).config().num_levels - 1),
            plan.num_gathered == gathered_entries(old(self).config(), old(self).states(), old(self).built()),
            !plan.bottom ==> plan.num_gathered == elements_at(
                old(self).config(),
                plan.level as int,
                old(self).states()[plan.level as int] + 1,
            ),
            final(self).stored() == old(self).config().stash_size,
            final(self).built() == Seq::new(
                old(self).config().num_levels as nat,
                |l: int|
                    if l < plan.level {
                        false
                    } else if l == plan.level {
                        true
                    } else {
                        old(self).built()[l]
                    },
            ),
            final(self).states() == states_after_rebuild(
                old(self).config(),
                old(self).states(),
                plan.level as int,
            ),
    {
        let ghost c = self.config;
        let ghost states0 = self.base_b_state_vec@;
        let ghost built0 = self.level_built@;
        let (target, merge) = self.rebuild_target();
        proof {
            lemma_first_open(c, states0, 0);
            lemma_pow2_pos(c.log_speed_cache_size as nat);
            lemma_usize_pow2_no_overflow(c.log_address_space_size as nat);
        }
        let last = if merge {
            target + 1
        } else {
            target
        };
        proof {
            if c.log_speed_cache_size < c.log_address_space_size {
                lemma_pow2_strictly_increases(c.log_speed_cache_size as nat, c.log_address_space_size as nat);
            }
            assert(c.log_speed_cache_size <= c.log_address_space_size) by (nonlinear_arith)
                requires
                    c.log_address_space_size == c.log_speed_cache_size + (c.num_levels - 1) * c.log_amp_factor,
                    c.num_levels >= 1,
            ;
            vstd::arithmetic::power2::lemma2_to64();
        }
        let mut gathered: u64 = self.config.speed_cache_size() as u64;
        let mut l: usize = 0;
        while l < last
            invariant
                c == self.config,
                c.is_valid(),
                states0 == self.base_b_state_vec@,
                built0 == self.level_built@,
                self.wf(),
                l <= last <= c.num_levels,
                c.num_levels <= 8,
                gathered == pow2(c.log_speed_cache_size as nat) + built_entries(c, states0, built0, l as int),
                pow2(c.log_speed_cache_size as nat) <= pow2(c.log_address_space_size as nat),
                pow2(c.log_address_space_size as nat) < 0x1_0000_0000,
            decreases last - l,
        {
            proof {
                lemma_built_entries_bound(c, states0, built0, l as int);
                lemma_pow2_pos(c.log_amp_factor as nat);
                lemma_elements_bound(c, l as int, states0[l as int] as int);
                let p = pow2(c.log_address_space_size as nat);
                assert(l * p <= 8 * 0x1_0000_0000) by (nonlinear_arith)
                    requires
                        l <= 8,
                        p < 0x1_0000_0000,
                ;
            }
            if self.level_built[l] {
                let n = self.num_elements_at(l, self.base_b_state_vec[l]);
                gathered = gathered + n as u64;
            }
            l = l + 1;
        }
        let mut l: usize = 0;
        while l < target
            invariant
                c == self.config,
                c.is_valid(),
                target < c.num_levels,
                states0.len() == c.num_levels,
                built0.len() == c.num_levels,
                self.base_b_state_vec@.len() == c.num_levels,
                self.level_built@.len() == c.num_levels,
                forall|j: int| 0 <= j < target ==> #[trigger] states0[j] == amp(c) - 1,
                l <= target,
                forall|j: int| 0 <= j < l ==> #[trigger] self.base_b_state_vec@[j] == 0,
                forall|j: int| 0 <= j < l ==> !#[trigger] self.level_built@[j],
                forall|j: int| l <= j < c.num_levels ==> #[trigger] self.base_b_state_vec@[j] == states0[j],
                forall|j: int| l <= j < c.num_levels ==> #[trigger] self.level_built@[j] == built0[j],
                self.speed_cache_stored == pow2(c.log_speed_cache_size as nat),
            decreases target - l,
        {
            self.delete_level(l);
            assert(self.base_b_state_vec@[l as int] == 0);
            l = l + 1;
        }
        let ghost mid_s = self.base_b_state_vec@;
        let ghost mid_b = self.level_built@;

        assert(target < c.num_levels - 1 ==> states0[target as int] < amp(c) - 1);
        if merge {
            self.delete_level(target);
        }
        assert(self.base_b_state_vec@ == mid_s);
        assert(self.level_built@ == if merge { mid_b.update(target as int, false) } else { mid_b });
        assert(forall|j: int| 0 <= j < target ==> #[trigger] self.base_b_state_vec@[j] == 0);
        assert(forall|j: int| 0 <= j < target ==> !#[trigger] self.level_built@[j]);
        assert(forall|j: int| target < j < c.num_levels ==> #[trigger] self.base_b_state_vec@[j] == states0[j]);
        assert(forall|j: int| target < j < c.num_levels ==> #[trigger] self.level_built@[j] == built0[j]);
        assert(self.base_b_state_vec@[target as int] == states0[target as int]);
        let ghost pre_s = self.base_b_state_vec@;
        let ghost pre_b = self.level_built@;
        assert(forall|j: int| 0 <= j < target ==> #[trigger] pre_s[j] == 0);
        assert(forall|j: int| 0 <= j < target ==> !#[trigger] pre_b[j]);
        assert(forall|j: int| target < j < c.num_levels ==> #[trigger] pre_s[j] == states0[j]);
        assert(forall|j: int| target < j < c.num_levels ==> #[trigger] pre_b[j] == built0[j]);
        self.mark_built(target);
        self.speed_cache_stored = self.config.stash_size;
        let plan = RebuildPlan {
            level: target,
            merge_level: merge,
            num_gathered: gathered,
            bottom: target == self.config.num_levels - 1,
        };
        proof {
            if !plan.bottom {
                lemma_rebuild_gathers_next_level(c, states0, built0);
            }
            assert forall|l: int| 0 <= l < c.num_levels - 1 implies #[trigger] self.base_b_state_vec@[l]
                < amp(c) && (self.level_built@[l] <==> self.base_b_state_vec@[l] > 0) by {
                if l > target {
                    assert(pre_s[l] == states0[l] && pre_b[l] == built0[l]);
                    assert(states0[l] < amp(c) && (built0[l] <==> states0[l] > 0));
                } else if l < target {
                    assert(pre_s[l] == 0 && !pre_b[l]);
                } else {
                    lemma_usize_pow2_no_overflow(c.log_amp_factor as nat);
                    assert(pre_s[l] == states0[l]);
                    assert(states0[l] + 1 < amp(c));
                    assert(self.base_b_state_vec@[l] == states0[l] + 1);
                }
            }
            assert(self.level_built@ =~= Seq::new(
                c.num_levels as nat,
                |l: int|
                    if l < plan.level {
                        false
                    } else if l == plan.level {
                        true
                    } else {
                        built0[l]
                    },
            ));
            assert(self.base_b_state_vec@ =~= states_after_rebuild(c, states0, plan.level as int));
        }
        plan
    }
}


/// The full counters below `t` spell `b^t - 1`.
proof fn lemma_full_counters(c: GigaDoramConfig, states: Seq<usize>, t: int)
    requires
        c.is_valid(),
        0 <= t <= c.num_levels,
        forall|l: int| 0 <= l < t ==> #[trigger] states[l] == amp(c) - 1,
    ensures
        counter_value(c, states, t) == pow2((t * c.log_amp_factor) as nat) - 1,
    decreases t,
{
    if t > 0 {
        lemma_full_counters(c, states, t - 1);
        let p = pow2(((t - 1) * c.log_amp_factor) as nat);
        lemma_pow2_adds(c.log_amp_factor as nat, ((t - 1) * c.log_amp_factor) as nat);
        assert(((t - 1) * c.log_amp_factor) + c.log_amp_factor == t * c.log_amp_factor)
            by (nonlinear_arith);
        assert((amp(c) - 1) * p == amp(c) * p - p) by (nonlinear_arith);
        assert(states[t - 1] == amp(c) - 1);
    } else {
        vstd::arithmetic::power2::lemma2_to64();
        assert(pow2(0) == 1);
    }
}

/// Below the target, the counters after a rebuild below the bottom spell
/// zero up to the target and one more than before from there on.
proof fn lemma_counter_after(c: GigaDoramConfig, states: Seq<usize>, t: int, n: int)
    requires
        c.is_valid(),
        states.len() == c.num_levels,
        0 <= t < c.num_levels - 1,
        0 <= n <= c.num_levels - 1,
        forall|l: int| 0 <= l < t ==> #[trigger] states[l] == amp(c) - 1,
        states[t] + 1 < amp(c),
    ensures
        n <= t ==> counter_value(c, states_after_rebuild(c, states, t), n) == 0,
        n > t ==> counter_value(c, states_after_rebuild(c, states, t), n) == counter_value(c, states, n)
            + 1,
    decreases n,
{
    let s2 = states_after_rebuild(c, states, t);
    if n > 0 {
        lemma_counter_after(c, states, t, n - 1);
        let p = pow2(((n - 1) * c.log_amp_factor) as nat);
        if n - 1 < t {
            assert(s2[n - 1] == 0);
        } else if n - 1 == t {
            lemma_full_counters(c, states, t);
            lemma_usize_pow2_no_overflow(c.log_amp_factor as nat);
            assert(s2[t] == states[t] + 1);
            assert((states[t] + 1) * p == states[t] * p + p) by (nonlinear_arith);
        } else {
            assert(s2[n - 1] == states[n - 1]);
        }
    }
}

/// The counters are one base-`b` number: a rebuild below the bottom adds
/// one to it, and the bottom is rebuilt exactly when every counter below
/// it is full (the number is `b^(levels - 1) - 1`), which empties them.
pub proof fn lemma_rebuild_counts_in_base_b(c: GigaDoramConfig, states: Seq<usize>, built: Seq<bool>)
    requires
        c.is_valid(),
        states.len() == c.num_levels,
        built.len() == c.num_levels,
        forall|l: int| 0 <= l < c.num_levels - 1 ==> #[trigger] states[l] < amp(c),
    ensures
        ({
            let t = spec_rebuild_target(c, states, built).0;
            let after = states_after_rebuild(c, states, t);
            &&& t < c.num_levels - 1 ==> counter_value(c, after, c.num_levels - 1) == counter_value(
                c,
                states,
                c.num_levels - 1,
            ) + 1
            &&& t == c.num_levels - 1 ==> counter_value(c, states, c.num_levels - 1) == pow2(
                ((c.num_levels - 1) * c.log_amp_factor) as nat,
            ) - 1 && counter_value(c, after, c.num_levels - 1) == 0
        }),
{
    let t = spec_rebuild_target(c, states, built).0;
    lemma_first_open(c, states, 0);
    assert forall|l: int| 0 <= l < t implies #[trigger] states[l] == amp(c) - 1 by {
        assert(states[l] >= amp(c) - 1);
    }
    if t < c.num_levels - 1 {
        lemma_counter_after(c, states, t, c.num_levels - 1);
    } else {
        lemma_full_counters(c, states, t);
        lemma_counter_after_bottom(c, states, t);
    }
}

/// A bottom rebuild empties every counter below the bottom.
proof fn lemma_counter_after_bottom(c: GigaDoramConfig, states: Seq<usize>, n: int)
    requires
        c.is_valid(),
        0 <= n <= c.num_levels - 1,
    ensures
        counter_value(c, states_after_rebuild(c, states, c.num_levels - 1), n) == 0,
    decreases n,
{
    if n > 0 {
        lemma_counter_after_bottom(c, states, n - 1);
        assert(states_after_rebuild(c, states, c.num_levels - 1)[n - 1] == 0);
    }
}

/// What the scan for the rebuild target passes over: every counter from
/// `from` up to the target is full, and the target below the bottom is not.
proof fn lemma_first_open(c: GigaDoramConfig, states: Seq<usize>, from: int)
    requires
        c.is_valid(),
        0 <= from,
        states.len() == c.num_levels,
    ensures
        from <= c.num_levels - 1 ==> from <= first_open_from(c, states, from),
        first_open_from(c, states, from) <= c.num_levels - 1 || from > c.num_levels - 1,
        forall|l: int| from <= l < first_open_from(c, states, from) ==> #[trigger] states[l] >= amp(c) - 1,
        first_open_from(c, states, from) < c.num_levels - 1 ==> states[first_open_from(c, states, from)]
            < amp(c) - 1,
    decreases c.num_levels - from,
{
    if from < c.num_levels - 1 && states[from] >= amp(c) - 1 {
        lemma_first_open(c, states, from + 1);
    }
}

/// Each level holds at most the address space.
proof fn lemma_elements_bound(c: GigaDoramConfig, level: int, state: int)
    requires
        c.is_valid(),
        0 <= level < c.num_levels,
        0 <= state <= amp(c),
    ensures
        0 <= elements_at(c, level, state) <= pow2(c.log_address_space_size as nat),
{
    if level < c.num_levels - 1 {
        lemma_state_times_unit(c, level, state);
        lemma_pow2_pos(level_shift(c, level));
        assert(state * pow2(level_shift(c, level)) >= 0) by (nonlinear_arith)
            requires
                state >= 0,
                pow2(level_shift(c, level)) > 0,
        ;
    }
}

/// The built levels below `upto` hold at most `upto` address spaces.
proof fn lemma_built_entries_bound(c: GigaDoramConfig, states: Seq<usize>, built: Seq<bool>, upto: int)
    requires
        c.is_valid(),
        0 <= upto <= c.num_levels,
        states.len() == c.num_levels,
        forall|l: int| 0 <= l < c.num_levels - 1 ==> #[trigger] states[l] < amp(c),
        states[c.num_levels - 1] <= 1,
    ensures
        0 <= built_entries(c, states, built, upto) <= upto * pow2(c.log_address_space_size as nat),
    decreases upto,
{
    if upto > 0 {
        lemma_built_entries_bound(c, states, built, upto - 1);
        lemma_pow2_pos(c.log_amp_factor as nat);
        lemma_elements_bound(c, upto - 1, states[upto - 1] as int);
        let p = pow2(c.log_address_space_size as nat);
        assert((upto - 1) * p + p == upto * p) by (nonlinear_arith);
    }
}

/// The full levels below `t` hold the units of level `t` less the speed
/// cache: `sum (b - 1) * 2^(l * a + s) = 2^(t * a + s) - 2^s`.
proof fn lemma_full_levels(c: GigaDoramConfig, states: Seq<usize>, built: Seq<bool>, t: int)
    requires
        c.is_valid(),
        0 <= t < c.num_levels,
        forall|l: int| 0 <= l < t ==> #[trigger] states[l] == amp(c) - 1 && built[l],
    ensures
        built_entries(c, states, built, t) == pow2(level_shift(c, t)) - pow2(
            c.log_speed_cache_size as nat,
        ),
    decreases t,
{
    if t > 0 {
        lemma_full_levels(c, states, built, t - 1);
        let u = pow2(level_shift(c, t - 1));
        lemma_pow2_adds(c.log_amp_factor as nat, level_shift(c, t - 1));
        assert(level_shift(c, t) == c.log_amp_factor + level_shift(c, t - 1)) by (nonlinear_arith)
            requires
                level_shift(c, t) == t * c.log_amp_factor + c.log_speed_cache_size,
                level_shift(c, t - 1) == (t - 1) * c.log_amp_factor + c.log_speed_cache_size,
        ;
        assert((amp(c) - 1) * u == amp(c) * u - u) by (nonlinear_arith);
        assert(t - 1 != c.num_levels - 1);
        assert(states[t - 1] == amp(c) - 1 && built[t - 1]);
        assert(elements_at(c, t - 1, states[t - 1] as int) == (amp(c) - 1) * u);
        assert(built_entries(c, states, built, t) == built_entries(c, states, built, t - 1) + (amp(c)
            - 1) * u);
        assert(pow2(level_shift(c, t)) == amp(c) * u);
    } else {
        assert(level_shift(c, 0) == c.log_speed_cache_size);
    }
}

/// A rebuild below the bottom level gathers exactly the entries that its
/// target level holds once the target's counter moves up by one: the
/// speed cache and the full levels below make one more unit of the target.
pub proof fn lemma_rebuild_gathers_next_level(c: GigaDoramConfig, states: Seq<usize>, built: Seq<bool>)
    requires
        c.is_valid(),
        states.len() == c.num_levels,
        built.len() == c.num_levels,
        forall|l: int|
            0 <= l < c.num_levels - 1 ==> #[trigger] states[l] < amp(c) && (built[l] <==> states[l]
                > 0),
        spec_rebuild_target(c, states, built).0 < c.num_levels - 1,
    ensures
        gathered_entries(c, states, built) == elements_at(
            c,
            spec_rebuild_target(c, states, built).0,
            states[spec_rebuild_target(c, states, built).0] + 1,
        ),
{
    let t = spec_rebuild_target(c, states, built).0;
    lemma_first_open(c, states, 0);
    assert(states[t] < amp(c) - 1);
    assert forall|l: int| 0 <= l < t implies #[trigger] states[l] == amp(c) - 1 && built[l] by {
        assert(states[l] >= amp(c) - 1);
        assert(states[l] < amp(c));
    }
    lemma_full_levels(c, states, built, t);
    let u = pow2(level_shift(c, t));
    if !built[t] {
        assert(states[t] == 0);
    }
    assert(states[t] * u + u == (states[t] + 1) * u) by (nonlinear_arith);
}

/// The largest shift of a level's unit fits in the address space.
proof fn lemma_shift_fits(c: GigaDoramConfig, level: int)
    requires
        c.is_valid(),
        0 <= level < c.num_levels,
    ensures
        level_shift(c, level) <= c.log_address_space_size,
        level * c.log_amp_factor <= c.log_address_space_size,
        level_shift(c, level) < ADDRESS_BITS,
{
    assert(level * c.log_amp_factor <= (c.num_levels - 1) * c.log_amp_factor) by (nonlinear_arith)
        requires
            0 <= level <= c.num_levels - 1,
            c.log_amp_factor >= 0,
    ;
}

/// A counter of at most `b` units of level `level` fits below the next
/// level's unit, and so in the address space.
proof fn lemma_state_times_unit(c: GigaDoramConfig, level: int, state: int)
    requires
        c.is_valid(),
        0 <= level < c.num_levels - 1,
        0 <= state <= amp(c),
    ensures
        state * pow2(level_shift(c, level)) <= pow2(c.log_address_space_size as nat),
{
    let u = pow2(level_shift(c, level));
    lemma_pow2_adds(c.log_amp_factor as nat, level_shift(c, level));
    assert(state * u <= amp(c) * u) by (nonlinear_arith)
        requires
            state <= amp(c),
            u >= 0,
    ;
    assert(c.log_amp_factor + level_shift(c, level) == level_shift(c, level + 1)) by (nonlinear_arith)
        requires
            level_shift(c, level) == level * c.log_amp_factor + c.log_speed_cache_size,
            level_shift(c, level + 1) == (level + 1) * c.log_amp_factor + c.log_speed_cache_size,
    ;
    lemma_shift_fits(c, level + 1);
    if level_shift(c, level + 1) < c.log_address_space_size {
        lemma_pow2_strictly_increases(level_shift(c, level + 1), c.log_address_space_size as nat);
    }
}

proof fn lemma_floor_log2_brackets(n: nat)
    requires
        n >= 1,
    ensures
        pow2(floor_log2(n)) <= n < pow2(floor_log2(n) + 1),
    decreases n,
{
    vstd::arithmetic::power2::lemma_pow2_unfold(floor_log2(n) + 1);
    if n >= 2 {
        lemma_floor_log2_brackets(n / 2);
        vstd::arithmetic::power2::lemma_pow2_unfold(floor_log2(n / 2) + 1);
    } else {
        vstd::arithmetic::power2::lemma_pow2_unfold(1);
        assert(pow2(0) == 1) by {
            vstd::arithmetic::power2::lemma2_to64();
        }
    }
}

/// A new table's cuckoo column holds more slots than the level's entries
/// scaled by the column load factor, and at most twice as many: with `u`
/// units of `2^level_shift` entries and the scaled count `s` of `u`,
/// `s * 2^level_shift < 2^log_single_col_len <= 2 * s * 2^level_shift`.
/// Under the proven bounds (`s == 2 * u`) the column is more than twice and
/// at most four times the entries.
pub proof fn lemma_column_capacity(c: GigaDoramConfig, states: Seq<usize>, level: int)
    requires
        table_units(c, states, level) >= 1,
        0 <= level,
    ensures
        ({
            let u = table_units(c, states, level);
            let s = c.cht_bounds.spec_scaled_count(u);
            let unit = pow2(level_shift(c, level)) as int;
            let col = pow2(log_single_col_len(c, states, level) as nat) as int;
            &&& s * unit < col <= 2 * s * unit
            &&& c.cht_bounds == ChtBounds::Proven ==> 2 * u * unit < col <= 4 * u * unit
        }),
{
    let u = table_units(c, states, level);
    crate::config::lemma_scaled_count_load_factor(u);
    let s = c.cht_bounds.spec_scaled_count(u);
    assert(s >= 1);
    let f = floor_log2(s as nat);
    lemma_floor_log2_brackets(s as nat);
    let shift = level_shift(c, level);
    lemma_pow2_adds(shift, f + 1);
    vstd::arithmetic::power2::lemma_pow2_unfold(f + 1);
    assert(log_single_col_len(c, states, level) == shift + f + 1);
    let unit = pow2(shift) as int;
    let p = pow2(f + 1) as int;
    lemma_pow2_pos(shift);
    assert(s < p <= 2 * s);
    assert(s * unit < p * unit <= 2 * s * unit) by (nonlinear_arith)
        requires
            s < p <= 2 * s,
            unit > 0,
    ;
    assert(pow2((shift + f + 1) as nat) == unit * p);
}

} // verus!
