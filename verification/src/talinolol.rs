//! The talinolol whole-body model.
//!
//! Tables for the `talinolol_model` compartmental model: its scalar
//! parameters with their defaults, its compartments in state-index
//! order with their default initial amounts, and its registered
//! events.  Every parameter is required; the stop time defaults to
//! 24 time units and may be overridden through the reserved
//! `final_time` record key.

use vstd::prelude::*;

use crate::model::Model;
use crate::model::ParamSpec;
use crate::model::SpeciesSpec;

verus! {

/// The parameter table: identifier, default value (binary64 bits),
/// required flag.
pub open spec fn param_rows() -> Seq<(Seq<char>, u64, bool)> {
    seq![
        ("BW"@, 0x0u64, true),
        ("HEIGHT"@, 0x0u64, true),
        ("HR"@, 0x0u64, true),
        ("HRrest"@, 0x0u64, true),
        ("COBW"@, 0x0u64, true),
        ("COHRI"@, 0x0u64, true),
        ("Fblood"@, 0x0u64, true),
        ("HCT"@, 0x0u64, true),
        ("f_shunting_forearm"@, 0x0u64, true),
        ("FVgu"@, 0x0u64, true),
        ("FVki"@, 0x0u64, true),
        ("FVli"@, 0x0u64, true),
        ("FVlu"@, 0x0u64, true),
        ("FVfo"@, 0x0u64, true),
        ("FVve"@, 0x0u64, true),
        ("FVar"@, 0x0u64, true),
        ("FVpo"@, 0x0u64, true),
        ("FVhv"@, 0x0u64, true),
        ("FVfov"@, 0x0u64, true),
        ("FQgu"@, 0x0u64, true),
        ("FQki"@, 0x0u64, true),
        ("FQh"@, 0x0u64, true),
        ("FQlu"@, 0x0u64, true),
        ("FQfo"@, 0x0u64, true),
        ("conversion_min_per_day"@, 0x0u64, true),
        ("f_cirrhosis"@, 0x0u64, true),
        ("PODOSE_tal"@, 0x0u64, true),
        ("Ka_dis_tal"@, 0x0u64, true),
        ("Mr_tal"@, 0x0u64, true),
        ("fup_tal"@, 0x0u64, true),
        ("ftissue_tal"@, 0x0u64, true),
        ("Kp_tal"@, 0x0u64, true),
        ("IVDOSE_tal"@, 0x0u64, true),
        ("ti_tal"@, 0x0u64, true),
        ("Ri_tal"@, 0x0u64, true),
        ("cum_dose_tal"@, 0x0u64, true),
        ("cum_dose_intestine_tal"@, 0x0u64, true),
        ("Vurine"@, 0x0u64, true),
        ("Vfeces"@, 0x0u64, true),
        ("Vstomach"@, 0x0u64, true),
        ("Vfo"@, 0x0u64, true),
        ("Vfov"@, 0x0u64, true),
        ("Vduodenum"@, 0x0u64, true),
    ]
}

/// The species table: identifier, default initial amount (binary64
/// bits), unit.  Position is the compartment's state index.
pub open spec fn species_rows() -> Seq<(Seq<char>, u64, Seq<char>)> {
    seq![
        ("Cki_plasma_tal"@, 0x0u64, ""@),
        ("Cli_plasma_tal"@, 0x0u64, ""@),
        ("Clu_plasma_tal"@, 0x0u64, ""@),
        ("Cgu_plasma_tal"@, 0x0u64, ""@),
        ("Cre_plasma_tal"@, 0x0u64, ""@),
        ("Cfo_plasma_tal"@, 0x0u64, ""@),
        ("Car_tal"@, 0x0u64, ""@),
        ("Cve_tal"@, 0x0u64, ""@),
        ("Cpo_tal"@, 0x0u64, ""@),
        ("Chv_tal"@, 0x0u64, ""@),
        ("Cfov_tal"@, 0x0u64, ""@),
        ("Clu_tal"@, 0x0u64, ""@),
        ("Cre_tal"@, 0x0u64, ""@),
        ("Aurine_tal"@, 0x0u64, ""@),
        ("Afeces_tal"@, 0x0u64, ""@),
        ("Cduodenum_tal"@, 0x0u64, ""@),
    ]
}

/// A model value carries exactly the tables above.
pub open spec fn model_matches(m: Model) -> bool {
    &&& m.model_id@ == "talinolol_model"@
    &&& m.time_units@ == ""@
    &&& m.substance_units@ == ""@
    &&& m.volume_units@ == ""@
    &&& m.params@.len() == param_rows().len()
    &&& (forall|i: int|
        0 <= i < m.params@.len() ==> {
            &&& (#[trigger] m.params@[i]).id@ == param_rows()[i].0
            &&& m.params@[i].default_bits == param_rows()[i].1
            &&& m.params@[i].required == param_rows()[i].2
        })
    &&& m.species@.len() == species_rows().len()
    &&& (forall|i: int|
        0 <= i < m.species@.len() ==> {
            &&& (#[trigger] m.species@[i]).id@ == species_rows()[i].0
            &&& m.species@[i].initial_bits == species_rows()[i].1
            &&& m.species@[i].units@ == species_rows()[i].2
        })
    &&& m.event_ids@.len() == 0
    &&& m.default_final_time_bits == 0x4038000000000000u64
}

/// Builds the model description.
pub fn model() -> (m: Model)
    ensures
        model_matches(m),
{
    let mut params: Vec<ParamSpec> = Vec::new();
    params.push(ParamSpec { id: "BW".to_owned(), default_bits: 0x0u64, required: true });
    params.push(ParamSpec { id: "HEIGHT".to_owned(), default_bits: 0x0u64, required: true });
    params.push(ParamSpec { id: "HR".to_owned(), default_bits: 0x0u64, required: true });
    params.push(ParamSpec { id: "HRrest".to_owned(), default_bits: 0x0u64, required: true });
    params.push(ParamSpec { id: "COBW".to_owned(), default_bits: 0x0u64, required: true });
    params.push(ParamSpec { id: "COHRI".to_owned(), default_bits: 0x0u64, required: true });
    params.push(ParamSpec { id: "Fblood".to_owned(), default_bits: 0x0u64, required: true });
    params.push(ParamSpec { id: "HCT".to_owned(), default_bits: 0x0u64, required: true });
    params.push(ParamSpec { id: "f_shunting_forearm".to_owned(), default_bits: 0x0u64, required: true });
    params.push(ParamSpec { id: "FVgu".to_owned(), default_bits: 0x0u64, required: true });
    params.push(ParamSpec { id: "FVki".to_owned(), default_bits: 0x0u64, required: true });
    params.push(ParamSpec { id: "FVli".to_owned(), default_bits: 0x0u64, required: true });
    params.push(ParamSpec { id: "FVlu".to_owned(), default_bits: 0x0u64, required: true });
    params.push(ParamSpec { id: "FVfo".to_owned(), default_bits: 0x0u64, required: true });
    params.push(ParamSpec { id: "FVve".to_owned(), default_bits: 0x0u64, required: true });
    params.push(ParamSpec { id: "FVar".to_owned(), default_bits: 0x0u64, required: true });
    params.push(ParamSpec { id: "FVpo".to_owned(), default_bits: 0x0u64, required: true });
    params.push(ParamSpec { id: "FVhv".to_owned(), default_bits: 0x0u64, required: true });
    params.push(ParamSpec { id: "FVfov".to_owned(), default_bits: 0x0u64, required: true });
    params.push(ParamSpec { id: "FQgu".to_owned(), default_bits: 0x0u64, required: true });
    params.push(ParamSpec { id: "FQki".to_owned(), default_bits: 0x0u64, required: true });
    params.push(ParamSpec { id: "FQh".to_owned(), default_bits: 0x0u64, required: true });
    params.push(ParamSpec { id: "FQlu".to_owned(), default_bits: 0x0u64, required: true });
    params.push(ParamSpec { id: "FQfo".to_owned(), default_bits: 0x0u64, required: true });
    params.push(ParamSpec { id: "conversion_min_per_day".to_owned(), default_bits: 0x0u64, required: true });
    params.push(ParamSpec { id: "f_cirrhosis".to_owned(), default_bits: 0x0u64, required: true });
    params.push(ParamSpec { id: "PODOSE_tal".to_owned(), default_bits: 0x0u64, required: true });
    params.push(ParamSpec { id: "Ka_dis_tal".to_owned(), default_bits: 0x0u64, required: true });
    params.push(ParamSpec { id: "Mr_tal".to_owned(), default_bits: 0x0u64, required: true });
    params.push(ParamSpec { id: "fup_tal".to_owned(), default_bits: 0x0u64, required: true });
    params.push(ParamSpec { id: "ftissue_tal".to_owned(), default_bits: 0x0u64, required: true });
    params.push(ParamSpec { id: "Kp_tal".to_owned(), default_bits: 0x0u64, required: true });
    params.push(ParamSpec { id: "IVDOSE_tal".to_owned(), default_bits: 0x0u64, required: true });
    params.push(ParamSpec { id: "ti_tal".to_owned(), default_bits: 0x0u64, required: true });
    params.push(ParamSpec { id: "Ri_tal".to_owned(), default_bits: 0x0u64, required: true });
    params.push(ParamSpec { id: "cum_dose_tal".to_owned(), default_bits: 0x0u64, required: true });
    params.push(ParamSpec { id: "cum_dose_intestine_tal".to_owned(), default_bits: 0x0u64, required: true });
    params.push(ParamSpec { id: "Vurine".to_owned(), default_bits: 0x0u64, required: true });
    params.push(ParamSpec { id: "Vfeces".to_owned(), default_bits: 0x0u64, required: true });
    params.push(ParamSpec { id: "Vstomach".to_owned(), default_bits: 0x0u64, required: true });
    params.push(ParamSpec { id: "Vfo".to_owned(), default_bits: 0x0u64, required: true });
    params.push(ParamSpec { id: "Vfov".to_owned(), default_bits: 0x0u64, required: true });
    params.push(ParamSpec { id: "Vduodenum".to_owned(), default_bits: 0x0u64, required: true });
    let mut species: Vec<SpeciesSpec> = Vec::new();
    species.push(SpeciesSpec { id: "Cki_plasma_tal".to_owned(), initial_bits: 0x0u64, units: "".to_owned() });
    species.push(SpeciesSpec { id: "Cli_plasma_tal".to_owned(), initial_bits: 0x0u64, units: "".to_owned() });
    species.push(SpeciesSpec { id: "Clu_plasma_tal".to_owned(), initial_bits: 0x0u64, units: "".to_owned() });
    species.push(SpeciesSpec { id: "Cgu_plasma_tal".to_owned(), initial_bits: 0x0u64, units: "".to_owned() });
    species.push(SpeciesSpec { id: "Cre_plasma_tal".to_owned(), initial_bits: 0x0u64, units: "".to_owned() });
    species.push(SpeciesSpec { id: "Cfo_plasma_tal".to_owned(), initial_bits: 0x0u64, units: "".to_owned() });
    species.push(SpeciesSpec { id: "Car_tal".to_owned(), initial_bits: 0x0u64, units: "".to_owned() });
    species.push(SpeciesSpec { id: "Cve_tal".to_owned(), initial_bits: 0x0u64, units: "".to_owned() });
    species.push(SpeciesSpec { id: "Cpo_tal".to_owned(), initial_bits: 0x0u64, units: "".to_owned() });
    species.push(SpeciesSpec { id: "Chv_tal".to_owned(), initial_bits: 0x0u64, units: "".to_owned() });
    species.push(SpeciesSpec { id: "Cfov_tal".to_owned(), initial_bits: 0x0u64, units: "".to_owned() });
    species.push(SpeciesSpec { id: "Clu_tal".to_owned(), initial_bits: 0x0u64, units: "".to_owned() });
    species.push(SpeciesSpec { id: "Cre_tal".to_owned(), initial_bits: 0x0u64, units: "".to_owned() });
    species.push(SpeciesSpec { id: "Aurine_tal".to_owned(), initial_bits: 0x0u64, units: "".to_owned() });
    species.push(SpeciesSpec { id: "Afeces_tal".to_owned(), initial_bits: 0x0u64, units: "".to_owned() });
    species.push(SpeciesSpec { id: "Cduodenum_tal".to_owned(), initial_bits: 0x0u64, units: "".to_owned() });
    let mut event_ids: Vec<String> = Vec::new();
    Model {
        model_id: "talinolol_model".to_owned(),
        time_units: "".to_owned(),
        substance_units: "".to_owned(),
        volume_units: "".to_owned(),
        params,
        species,
        event_ids,
        default_final_time_bits: 0x4038000000000000u64,
    }
}

} // verus!
