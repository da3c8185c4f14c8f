//! Model descriptions: parameter and compartment tables.
//!
//! A model is a closed description of one compartmental ODE system as the
//! surrounding code sees it: for each parameter its identifier, default
//! value and required/optional flag; for each compartment (species) its
//! identifier, default initial amount and unit; the identifiers of the
//! discrete events the model registers; and the default stop time.  The
//! position of a compartment in the species table is the model's canonical
//! state index: it never changes between the metadata query and a run.

use vstd::prelude::*;

use crate::scalar::is_finite_bits;
use crate::scalar::scalar_is_finite;

verus! {

/// One scalar parameter of a model: identifier, default value (as a
/// binary64 bit pattern) and whether a run may start without it.
pub struct ParamSpec {
    pub id: String,
    pub default_bits: u64,
    pub required: bool,
}

/// One compartment of a model: identifier, default initial amount (as a
/// binary64 bit pattern) and unit.  The position of the entry in the
/// species table is the compartment's state index.
pub struct SpeciesSpec {
    pub id: String,
    pub initial_bits: u64,
    pub units: String,
}

/// A model description.
pub struct Model {
    pub model_id: String,
    pub time_units: String,
    pub substance_units: String,
    pub volume_units: String,
    pub params: Vec<ParamSpec>,
    pub species: Vec<SpeciesSpec>,
    pub event_ids: Vec<String>,
    pub default_final_time_bits: u64,
}

/// Pairwise-distinct parameter identifiers.
pub open spec fn params_distinct(ps: Seq<ParamSpec>) -> bool {
    forall|i: int, j: int| 0 <= i < j < ps.len() ==> ps[i].id@ != ps[j].id@
}

/// Pairwise-distinct compartment identifiers.
pub open spec fn species_distinct(ss: Seq<SpeciesSpec>) -> bool {
    forall|i: int, j: int| 0 <= i < j < ss.len() ==> ss[i].id@ != ss[j].id@
}

impl Model {
    /// The number of state variables (compartments).
    pub open spec fn n_species(self) -> nat {
        self.species@.len()
    }

    /// Well-formedness: identifiers within each table are distinct, no
    /// parameter usurps the reserved stop-time key, and the built-in
    /// scalar constants are finite.
    pub open spec fn wf(self) -> bool {
        &&& params_distinct(self.params@)
        &&& species_distinct(self.species@)
        &&& forall|i: int|
            0 <= i < self.params@.len() ==> (#[trigger] self.params@[i].id)@ != "final_time"@
        &&& forall|i: int|
            0 <= i < self.params@.len() ==> is_finite_bits(
                (#[trigger] self.params@[i]).default_bits,
            )
        &&& forall|i: int|
            0 <= i < self.species@.len() ==> is_finite_bits(
                (#[trigger] self.species@[i]).initial_bits,
            )
        &&& is_finite_bits(self.default_final_time_bits)
    }
}

/// The state index a compartment identifier maps to: the position of the
/// first species-table entry carrying that identifier, if any.
pub fn species_index(m: &Model, id: &String) -> (r: Option<usize>)
    ensures
        match r {
            Some(i) => {
                &&& i < m.species@.len()
                &&& m.species@[i as int].id@ == id@
                &&& forall|j: int| 0 <= j < i ==> (#[trigger] m.species@[j].id)@ != id@
            },
            None => forall|j: int|
                0 <= j < m.species@.len() ==> (#[trigger] m.species@[j].id)@ != id@,
        },
{
    let mut i: usize = 0;
    while i < m.species.len()
        invariant
            i <= m.species@.len(),
            forall|j: int| 0 <= j < i ==> (#[trigger] m.species@[j].id)@ != id@,
        decreases m.species@.len() - i,
    {
        if m.species[i].id.eq(id) {
            return Some(i);
        }
        i += 1;
    }
    None
}

/// Index stability: in a well-formed model, any answer `species_index`
/// may give for the identifier found at state index `i` is `i` itself,
/// so the name-to-index mapping the metadata query exposes is the one
/// every run output uses.
pub proof fn lemma_species_index_stable(m: Model, i: int, r: Option<usize>)
    requires
        m.wf(),
        0 <= i < m.species@.len(),
        match r {
            Some(k) => {
                &&& k < m.species@.len()
                &&& m.species@[k as int].id@ == m.species@[i].id@
                &&& forall|j: int| 0 <= j < k ==> (#[trigger] m.species@[j].id)@ != m.species@[i].id@
            },
            None => forall|j: int|
                0 <= j < m.species@.len() ==> (#[trigger] m.species@[j].id)@ != m.species@[i].id@,
        },
    ensures
        r == Some(i as usize),
{
    match r {
        Some(k) => {
            if (k as int) < i {
                assert(m.species@[k as int].id@ != m.species@[i].id@);
            }
            if (k as int) > i {
                assert(m.species@[i].id@ != m.species@[k as int].id@);
            }
        },
        None => {
            assert(m.species@[i].id@ == m.species@[i].id@);
        },
    }
}

/// Checks that the identifiers of the parameter table are pairwise
/// distinct.
fn params_ids_distinct(params: &Vec<ParamSpec>) -> (r: bool)
    ensures
        r == params_distinct(params@),
{
    let mut i: usize = 0;
    while i < params.len()
        invariant
            i <= params@.len(),
            forall|a: int, b: int| 0 <= a < b < i ==> params@[a].id@ != params@[b].id@,
        decreases params@.len() - i,
    {
        let mut j: usize = 0;
        while j < i
            invariant
                j <= i < params@.len(),
                forall|a: int, b: int| 0 <= a < b < i ==> params@[a].id@ != params@[b].id@,
                forall|b: int| 0 <= b < j ==> (#[trigger] params@[b].id)@ != params@[i as int].id@,
            decreases i - j,
        {
            if params[j].id.eq(&params[i].id) {
                return false;
            }
            j += 1;
        }
        i += 1;
    }
    true
}

/// Checks that the identifiers of the species table are pairwise
/// distinct.
fn species_ids_distinct(species: &Vec<SpeciesSpec>) -> (r: bool)
    ensures
        r == species_distinct(species@),
{
    let mut i: usize = 0;
    while i < species.len()
        invariant
            i <= species@.len(),
            forall|a: int, b: int| 0 <= a < b < i ==> species@[a].id@ != species@[b].id@,
        decreases species@.len() - i,
    {
        let mut j: usize = 0;
        while j < i
            invariant
                j <= i < species@.len(),
                forall|a: int, b: int| 0 <= a < b < i ==> species@[a].id@ != species@[b].id@,
                forall|b: int| 0 <= b < j ==> (#[trigger] species@[b].id)@ != species@[i as int].id@,
            decreases i - j,
        {
            if species[j].id.eq(&species[i].id) {
                return false;
            }
            j += 1;
        }
        i += 1;
    }
    true
}

/// Checks the full well-formedness of a model description.
pub fn model_well_formed(m: &Model) -> (r: bool)
    ensures
        r == m.wf(),
{
    if !params_ids_distinct(&m.params) {
        return false;
    }
    if !species_ids_distinct(&m.species) {
        return false;
    }
    let reserved: String = final_time_key();
    let mut i: usize = 0;
    while i < m.params.len()
        invariant
            i <= m.params@.len(),
            reserved@ == "final_time"@,
            params_distinct(m.params@),
            species_distinct(m.species@),
            forall|j: int| 0 <= j < i ==> (#[trigger] m.params@[j].id)@ != "final_time"@,
            forall|j: int| 0 <= j < i ==> is_finite_bits((#[trigger] m.params@[j]).default_bits),
        decreases m.params@.len() - i,
    {
        if m.params[i].id.eq(&reserved) {
            return false;
        }
        if !scalar_is_finite(m.params[i].default_bits) {
            return false;
        }
        i += 1;
    }
    let mut k: usize = 0;
    while k < m.species.len()
        invariant
            k <= m.species@.len(),
            params_distinct(m.params@),
            species_distinct(m.species@),
            forall|j: int| 0 <= j < m.params@.len() ==> (#[trigger] m.params@[j].id)@
                != "final_time"@,
            forall|j: int| 0 <= j < m.params@.len() ==> is_finite_bits(
                (#[trigger] m.params@[j]).default_bits,
            ),
            forall|j: int| 0 <= j < k ==> is_finite_bits((#[trigger] m.species@[j]).initial_bits),
        decreases m.species@.len() - k,
    {
        if !scalar_is_finite(m.species[k].initial_bits) {
            return false;
        }
        k += 1;
    }
    scalar_is_finite(m.default_final_time_bits)
}

/// The read-only summary of a model the metadata query hands out.
pub struct ModelMetadata {
    pub model_id: String,
    pub num_species: usize,
    pub num_parameters: usize,
    pub time_units: String,
    pub substance_units: String,
    pub volume_units: String,
}

/// Builds the metadata summary of a model: its identifier, the sizes of
/// its tables, and its units.
pub fn model_metadata(m: &Model) -> (md: ModelMetadata)
    ensures
        md.model_id@ == m.model_id@,
        md.num_species == m.species@.len(),
        md.num_parameters == m.params@.len(),
        md.time_units@ == m.time_units@,
        md.substance_units@ == m.substance_units@,
        md.volume_units@ == m.volume_units@,
{
    ModelMetadata {
        model_id: m.model_id.clone(),
        num_species: m.species.len(),
        num_parameters: m.params.len(),
        time_units: m.time_units.clone(),
        substance_units: m.substance_units.clone(),
        volume_units: m.volume_units.clone(),
    }
}

/// The reserved record key that overrides a model's stop time.
pub fn final_time_key() -> (r: String)
    ensures
        r@ == "final_time"@,
{
    "final_time".to_owned()
}

} // verus!
