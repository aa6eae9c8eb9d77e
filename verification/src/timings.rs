//! Named phase timings. Elapsed times are held as whole nanoseconds.
use vstd::prelude::*;

verus! {

/// The time one named phase took, in nanoseconds.
#[derive(Clone, Debug, PartialEq, Eq)]
pub struct PhaseTiming {
    pub phase: String,
    pub elapsed: u128,
}

/// The phases recorded so far, in the order they were recorded.
#[derive(Clone, Debug, PartialEq, Eq)]
pub struct Timings {
    phases: Vec<PhaseTiming>,
}

/// Sum of the elapsed times of the first `k` phases.
pub open spec fn elapsed_sum(phases: Seq<PhaseTiming>, k: int) -> int
    decreases k,
{
    if k <= 0 {
        0
    } else {
        elapsed_sum(phases, k - 1) + phases[k - 1].elapsed
    }
}

impl Timings {
    /// The recorded phases.
    pub closed spec fn spec_phases(&self) -> Seq<PhaseTiming> {
        self.phases@
    }

    /// No phase recorded yet.
    pub fn new() -> (t: Timings)
        ensures
            t.spec_phases() == Seq::<PhaseTiming>::empty(),
    {
        Timings { phases: Vec::new() }
    }

    /// Append a phase.
    pub fn record(&mut self, phase: String, elapsed: u128)
        ensures
            final(self).spec_phases() == old(self).spec_phases().push(
                PhaseTiming { phase, elapsed },
            ),
    {
        self.phases.push(PhaseTiming { phase, elapsed });
    }

    /// The recorded phases, oldest first.
    pub fn phases(&self) -> (p: &[PhaseTiming])
        ensures
            p@ == self.spec_phases(),
    {
        self.phases.as_slice()
    }

    /// The total time of all phases.
    pub fn total(&self) -> (t: u128)
        requires
            elapsed_sum(self.spec_phases(), self.spec_phases().len() as int) <= u128::MAX,
        ensures
            t == elapsed_sum(self.spec_phases(), self.spec_phases().len() as int),
    {
        let mut sum: u128 = 0;
        let mut i: usize = 0;
        while i < self.phases.len()
            invariant
                i <= self.phases@.len(),
                sum == elapsed_sum(self.phases@, i as int),
                elapsed_sum(self.phases@, self.phases@.len() as int) <= u128::MAX,
            decreases self.phases@.len() - i,
        {
            proof {
                lemma_elapsed_sum_mono(self.phases@, i as int + 1, self.phases@.len() as int);
            }
            sum = sum + self.phases[i].elapsed;
            i = i + 1;
        }
        sum
    }
}

impl Default for Timings {
    fn default() -> (t: Timings)
        ensures
            t.spec_phases() == Seq::<PhaseTiming>::empty(),
    {
        Timings::new()
    }
}

proof fn lemma_elapsed_sum_mono(phases: Seq<PhaseTiming>, a: int, b: int)
    requires
        0 <= a <= b,
    ensures
        elapsed_sum(phases, a) <= elapsed_sum(phases, b),
    decreases b - a,
{
    if a < b {
        lemma_elapsed_sum_mono(phases, a, b - 1);
    }
}

} // verus!
