//! Assembly of a run trace into the output record.
//!
//! The output is the well-formed shape every caller receives: an ordered
//! array of sample times and, per compartment, the series of its sampled
//! values, index-aligned with the time array.  The compartment order is
//! the model's species-table order, the same one the metadata query
//! exposes.  A rejected input yields the same shape with empty arrays,
//! so a caller can tell "ran with zero samples" from a solver failure.

use vstd::prelude::*;

use crate::model::Model;
use crate::run::RunStatus;
use crate::run::RunTrace;

verus! {

/// The result record of one run: `time[j]` is the `j`-th sample time and
/// `series[i][j]` the value of compartment `i` (in species-table order)
/// at that time.
pub struct SimulationResult {
    pub time: Vec<u64>,
    pub species_names: Vec<String>,
    pub series: Vec<Vec<u64>>,
}

impl SimulationResult {
    /// The parallel-array shape: one named series per compartment, each
    /// as long as the time array.
    pub open spec fn wf_shape(self) -> bool {
        &&& self.species_names@.len() == self.series@.len()
        &&& forall|i: int|
            0 <= i < self.series@.len() ==> (#[trigger] self.series@[i])@.len()
                == self.time@.len()
    }
}

/// Copies a vector of scalars.
fn copy_scalars(v: &Vec<u64>) -> (r: Vec<u64>)
    ensures
        r@ == v@,
{
    let mut r: Vec<u64> = Vec::new();
    let mut i: usize = 0;
    while i < v.len()
        invariant
            i <= v@.len(),
            r@ == v@.subrange(0, i as int),
        decreases v@.len() - i,
    {
        r.push(v[i]);
        proof {
            assert(r@ =~= v@.subrange(0, i + 1));
        }
        i += 1;
    }
    proof {
        assert(r@ =~= v@);
    }
    r
}

/// The sampled series of one compartment: the `i`-th entry of every
/// recorded state, in sample order.
pub fn compartment_series(tr: &RunTrace, i: usize) -> (r: Vec<u64>)
    requires
        tr.wf(),
        i < tr.dim,
    ensures
        r@.len() == tr.times@.len(),
        forall|j: int| 0 <= j < r@.len() ==> r@[j] == tr.states@[j]@[i as int],
{
    let mut r: Vec<u64> = Vec::new();
    let mut j: usize = 0;
    while j < tr.states.len()
        invariant
            tr.wf(),
            i < tr.dim,
            j <= tr.states@.len(),
            r@.len() == j,
            forall|k: int| 0 <= k < j ==> r@[k] == tr.states@[k]@[i as int],
        decreases tr.states@.len() - j,
    {
        r.push(tr.states[j][i]);
        j += 1;
    }
    r
}

/// Assembles the full output record from a trace: the sample times and,
/// for each compartment of the model in species-table order, its named
/// series.
pub fn collect_result(m: &Model, tr: &RunTrace) -> (res: SimulationResult)
    requires
        tr.wf(),
        tr.dim == m.species@.len(),
    ensures
        res.wf_shape(),
        res.time@ == tr.times@,
        res.species_names@.len() == m.species@.len(),
        forall|i: int|
            0 <= i < m.species@.len() ==> (#[trigger] res.species_names@[i])@
                == m.species@[i].id@,
        res.series@.len() == m.species@.len(),
        forall|i: int, j: int|
            0 <= i < m.species@.len() && 0 <= j < tr.times@.len() ==> (
            #[trigger] res.series@[i]@[j]) == tr.states@[j]@[i],
{
    let time = copy_scalars(&tr.times);
    let mut species_names: Vec<String> = Vec::new();
    let mut series: Vec<Vec<u64>> = Vec::new();
    let mut i: usize = 0;
    while i < m.species.len()
        invariant
            tr.wf(),
            tr.dim == m.species@.len(),
            i <= m.species@.len(),
            species_names@.len() == i,
            series@.len() == i,
            forall|k: int|
                0 <= k < i ==> (#[trigger] species_names@[k])@ == m.species@[k].id@,
            forall|k: int|
                0 <= k < i ==> (#[trigger] series@[k])@.len() == tr.times@.len(),
            forall|k: int, j: int|
                0 <= k < i && 0 <= j < tr.times@.len() ==> (#[trigger] series@[k]@[j])
                    == tr.states@[j]@[k],
        decreases m.species@.len() - i,
    {
        species_names.push(m.species[i].id.clone());
        series.push(compartment_series(tr, i));
        i += 1;
    }
    SimulationResult { time, species_names, series }
}

/// The well-formed empty output a malformed or incomplete input record
/// yields: the model's compartment names with zero samples.
pub fn empty_result(m: &Model) -> (res: SimulationResult)
    ensures
        res.wf_shape(),
        res.time@.len() == 0,
        res.species_names@.len() == m.species@.len(),
        forall|i: int|
            0 <= i < m.species@.len() ==> (#[trigger] res.species_names@[i])@
                == m.species@[i].id@,
        res.series@.len() == m.species@.len(),
        forall|i: int| 0 <= i < m.species@.len() ==> (#[trigger] res.series@[i])@.len() == 0,
{
    let mut species_names: Vec<String> = Vec::new();
    let mut series: Vec<Vec<u64>> = Vec::new();
    let mut i: usize = 0;
    while i < m.species.len()
        invariant
            i <= m.species@.len(),
            species_names@.len() == i,
            series@.len() == i,
            forall|k: int|
                0 <= k < i ==> (#[trigger] species_names@[k])@ == m.species@[k].id@,
            forall|k: int| 0 <= k < i ==> (#[trigger] series@[k])@.len() == 0,
        decreases m.species@.len() - i,
    {
        species_names.push(m.species[i].id.clone());
        series.push(Vec::new());
        i += 1;
    }
    SimulationResult { time: Vec::new(), species_names, series }
}

/// Guarded-run finiteness: every scalar a well-formed trace records —
/// each sample time and each compartment value at each sample — is
/// finite.  Non-finite solver output can only move a run to `Failed`,
/// never into the recorded series.
pub proof fn lemma_trace_finite(tr: RunTrace)
    requires
        tr.wf(),
    ensures
        forall|i: int|
            0 <= i < tr.times@.len() ==> crate::scalar::is_finite_bits(#[trigger] tr.times@[i]),
        forall|i: int, j: int|
            0 <= i < tr.states@.len() && 0 <= j < tr.states@[i]@.len()
                ==> crate::scalar::is_finite_bits(#[trigger] tr.states@[i]@[j]),
{
    assert forall|i: int, j: int|
        0 <= i < tr.states@.len() && 0 <= j < tr.states@[i]@.len()
            implies crate::scalar::is_finite_bits(#[trigger] tr.states@[i]@[j]) by {
        assert(crate::scalar::all_finite(tr.states@[i]@));
    }
}

proof fn lemma_adjacent_increase_transitive(s: Seq<u64>, i: int, j: int)
    requires
        forall|k: int| 1 <= k < s.len() ==> s[k - 1] < #[trigger] s[k],
        0 <= i < j < s.len(),
    ensures
        s[i] < s[j],
    decreases j - i,
{
    if j == i + 1 {
    } else {
        lemma_adjacent_increase_transitive(s, i, j - 1);
    }
}

/// Time monotonicity: in any well-formed trace the sample-time array is
/// strictly increasing, starts at the initial time, never passes the
/// requested stop time, and — whenever the run stopped normally — ends
/// exactly at that stop time.
pub proof fn lemma_time_monotone(tr: RunTrace)
    requires
        tr.wf(),
    ensures
        forall|i: int, j: int| 0 <= i < j < tr.times@.len() ==> tr.times@[i] < tr.times@[j],
        tr.times@[0] == 0u64,
        forall|i: int|
            0 <= i < tr.times@.len() ==> #[trigger] tr.times@[i] <= tr.final_time_bits,
        tr.status == RunStatus::Stopped ==> tr.times@[tr.times@.len() - 1]
            == tr.final_time_bits,
{
    assert forall|i: int, j: int| 0 <= i < j < tr.times@.len() implies tr.times@[i]
        < tr.times@[j] by {
        lemma_adjacent_increase_transitive(tr.times@, i, j);
    }
    assert forall|i: int| 0 <= i < tr.times@.len() implies #[trigger] tr.times@[i]
        <= tr.final_time_bits by {
        if i < tr.times@.len() - 1 {
            lemma_adjacent_increase_transitive(tr.times@, i, tr.times@.len() - 1);
        }
    }
}

} // verus!
