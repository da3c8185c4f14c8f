//! The bisphenol-A plasma model.
//!
//! Tables for the `PBPK_BPA_model` compartmental model: its scalar
//! parameters with their defaults, its compartments in state-index
//! order with their default initial amounts, and its registered
//! events.  Every parameter is required; the stop time defaults to
//! 24 time units and may be overridden through the reserved
//! `final_time` record key.

use vstd::prelude::*;

use crate::model::Model;
use crate::model::ParamSpec;
use crate::model::SpeciesSpec;

verus! {

/// The parameter table: identifier, default value (binary64 bits),
/// required flag.
pub open spec fn param_rows() -> Seq<(Seq<char>, u64, bool)> {
    seq![
        ("Kabs"@, 0x0u64, true),
        ("koa"@, 0x0u64, true),
        ("t0"@, 0x0u64, true),
        ("t1"@, 0x0u64, true),
        ("Kelm"@, 0x0u64, true),
        ("EoA_O"@, 0x0u64, true),
        ("D_o"@, 0x0u64, true),
        ("vplasma"@, 0x0u64, true),
        ("period_O"@, 0x0u64, true),
        ("n_O"@, 0x0u64, true),
        ("uptake_O"@, 0x0u64, true),
        ("comp1"@, 0x0u64, true),
    ]
}

/// The species table: identifier, default initial amount (binary64
/// bits), unit.  Position is the compartment's state index.
pub open spec fn species_rows() -> Seq<(Seq<char>, u64, Seq<char>)> {
    seq![
        ("Aplasma"@, 0x0u64, ""@),
    ]
}

/// A model value carries exactly the tables above.
pub open spec fn model_matches(m: Model) -> bool {
    &&& m.model_id@ == "PBPK_BPA_model"@
    &&& m.time_units@ == ""@
    &&& m.substance_units@ == ""@
    &&& m.volume_units@ == ""@
    &&& m.params@.len() == param_rows().len()
    &&& (forall|i: int|
        0 <= i < m.params@.len() ==> {
            &&& (#[trigger] m.params@[i]).id@ == param_rows()[i].0
            &&& m.params@[i].default_bits == param_rows()[i].1
            &&& m.params@[i].required == param_rows()[i].2
        })
    &&& m.species@.len() == species_rows().len()
    &&& (forall|i: int|
        0 <= i < m.species@.len() ==> {
            &&& (#[trigger] m.species@[i]).id@ == species_rows()[i].0
            &&& m.species@[i].initial_bits == species_rows()[i].1
            &&& m.species@[i].units@ == species_rows()[i].2
        })
    &&& m.event_ids@.len() == 0
    &&& m.default_final_time_bits == 0x4038000000000000u64
}

/// Builds the model description.
pub fn model() -> (m: Model)
    ensures
        model_matches(m),
{
    let mut params: Vec<ParamSpec> = Vec::new();
    params.push(ParamSpec { id: "Kabs".to_owned(), default_bits: 0x0u64, required: true });
    params.push(ParamSpec { id: "koa".to_owned(), default_bits: 0x0u64, required: true });
    params.push(ParamSpec { id: "t0".to_owned(), default_bits: 0x0u64, required: true });
    params.push(ParamSpec { id: "t1".to_owned(), default_bits: 0x0u64, required: true });
    params.push(ParamSpec { id: "Kelm".to_owned(), default_bits: 0x0u64, required: true });
    params.push(ParamSpec { id: "EoA_O".to_owned(), default_bits: 0x0u64, required: true });
    params.push(ParamSpec { id: "D_o".to_owned(), default_bits: 0x0u64, required: true });
    params.push(ParamSpec { id: "vplasma".to_owned(), default_bits: 0x0u64, required: true });
    params.push(ParamSpec { id: "period_O".to_owned(), default_bits: 0x0u64, required: true });
    params.push(ParamSpec { id: "n_O".to_owned(), default_bits: 0x0u64, required: true });
    params.push(ParamSpec { id: "uptake_O".to_owned(), default_bits: 0x0u64, required: true });
    params.push(ParamSpec { id: "comp1".to_owned(), default_bits: 0x0u64, required: true });
    let mut species: Vec<SpeciesSpec> = Vec::new();
    species.push(SpeciesSpec { id: "Aplasma".to_owned(), initial_bits: 0x0u64, units: "".to_owned() });
    let mut event_ids: Vec<String> = Vec::new();
    Model {
        model_id: "PBPK_BPA_model".to_owned(),
        time_units: "".to_owned(),
        substance_units: "".to_owned(),
        volume_units: "".to_owned(),
        params,
        species,
        event_ids,
        default_final_time_bits: 0x4038000000000000u64,
    }
}

} // verus!
