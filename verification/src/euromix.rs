//! The dermal/oral/inhalation exposure model.
//!
//! Tables for the `euromix_model` compartmental model: its scalar
//! parameters with their defaults, its compartments in state-index
//! order with their default initial amounts, and its registered
//! events.  Every parameter is required; the stop time defaults to
//! 24 time units and may be overridden through the reserved
//! `final_time` record key.

use vstd::prelude::*;

use crate::model::Model;
use crate::model::ModelMetadata;
use crate::model::ParamSpec;
use crate::model::SpeciesSpec;

verus! {

/// The parameter table: identifier, default value (binary64 bits),
/// required flag.
pub open spec fn param_rows() -> Seq<(Seq<char>, u64, bool)> {
    seq![
        ("BM"@, 0x4051800000000000u64, true),
        ("BSA"@, 0x4067c00000000000u64, true),
        ("scVFat"@, 0x3fcac083126e978du64, true),
        ("scVRich"@, 0x3fbae147ae147ae1u64, true),
        ("scVLiver"@, 0x3f989374bc6a7efau64, true),
        ("scVBlood"@, 0x3fb16872b020c49cu64, true),
        ("scVArt"@, 0x3fd555555555554fu64, true),
        ("scFBlood"@, 0x4013333333333333u64, true),
        ("scFFat"@, 0x3fb5c28f5c28f5c3u64, true),
        ("scFPoor"@, 0x3fbeb851eb851eb8u64, true),
        ("scFLiver"@, 0x3fd147ae147ae148u64, true),
        ("scFSkin"@, 0x3fa999999999999au64, true),
        ("fSA_exposed"@, 0x3fb999999999999au64, true),
        ("Height_sc"@, 0x3f1a36e2eb1c432du64, true),
        ("Height_vs"@, 0x3f88fc504816f007u64, true),
        ("Falv"@, 0x40a1580000000000u64, true),
        ("PCFat"@, 0x40043d70a3d70a3du64, true),
        ("PCLiver"@, 0x3fed89374bc6a7f0u64, true),
        ("PCRich"@, 0x3fec000000000000u64, true),
        ("PCPoor"@, 0x3fe4b4395810624eu64, true),
        ("PCSkin_sc"@, 0x3fec72b020c49ba6u64, true),
        ("PCSkin"@, 0x3fec72b020c49ba6u64, true),
        ("PCAir"@, 0x547d42aea2879f2eu64, true),
        ("kGut"@, 0x3ff0000000000000u64, true),
        ("Kp_sc_vs"@, 0x3f847ae147ae147bu64, true),
        ("Km"@, 0x0u64, true),
        ("Michaelis"@, 0x0u64, true),
        ("Vmax"@, 0x0u64, true),
        ("CLH"@, 0x4060800000000000u64, true),
        ("Ke"@, 0x401e000000000000u64, true),
        ("fub"@, 0x3fe051eb851eb852u64, true),
        ("Air"@, 0x3ff0000000000000u64, true),
        ("Urine"@, 0x3ff0000000000000u64, true),
        ("Gut"@, 0x3ff0000000000000u64, true),
    ]
}

/// The species table: identifier, default initial amount (binary64
/// bits), unit.  Position is the compartment's state index.
pub open spec fn species_rows() -> Seq<(Seq<char>, u64, Seq<char>)> {
    seq![
        ("QFat"@, 0x0u64, "MilliMOL"@),
        ("QRich"@, 0x0u64, "MilliMOL"@),
        ("QPoor"@, 0x0u64, "MilliMOL"@),
        ("QLiver"@, 0x0u64, "MilliMOL"@),
        ("QMetab"@, 0x0u64, "MilliMOL"@),
        ("QGut"@, 0x3ff0000000000000u64, "MilliMOL"@),
        ("QSkin_u"@, 0x0u64, "MilliMOL"@),
        ("QSkin_e"@, 0x0u64, "MilliMOL"@),
        ("QSkin_sc_u"@, 0x0u64, "MilliMOL"@),
        ("QSkin_sc_e"@, 0x0u64, "MilliMOL"@),
        ("QArt"@, 0x0u64, "MilliMOL"@),
        ("QVen"@, 0x0u64, "MilliMOL"@),
        ("QExcret"@, 0x0u64, "MilliMOL"@),
        ("QAir"@, 0x0u64, "MilliMOL"@),
    ]
}

/// A model value carries exactly the tables above.
pub open spec fn model_matches(m: Model) -> bool {
    &&& m.model_id@ == "euromix_model"@
    &&& m.time_units@ == "HR"@
    &&& m.substance_units@ == "MilliMOL"@
    &&& m.volume_units@ == "L"@
    &&& m.params@.len() == param_rows().len()
    &&& (forall|i: int|
        0 <= i < m.params@.len() ==> {
            &&& (#[trigger] m.params@[i]).id@ == param_rows()[i].0
            &&& m.params@[i].default_bits == param_rows()[i].1
            &&& m.params@[i].required == param_rows()[i].2
        })
    &&& m.species@.len() == species_rows().len()
    &&& (forall|i: int|
        0 <= i < m.species@.len() ==> {
            &&& (#[trigger] m.species@[i]).id@ == species_rows()[i].0
            &&& m.species@[i].initial_bits == species_rows()[i].1
            &&& m.species@[i].units@ == species_rows()[i].2
        })
    &&& m.event_ids@.len() == 0
    &&& m.default_final_time_bits == 0x4038000000000000u64
}

/// Builds the model description.
pub fn model() -> (m: Model)
    ensures
        model_matches(m),
{
    let mut params: Vec<ParamSpec> = Vec::new();
    params.push(ParamSpec { id: "BM".to_owned(), default_bits: 0x4051800000000000u64, required: true });
    params.push(ParamSpec { id: "BSA".to_owned(), default_bits: 0x4067c00000000000u64, required: true });
    params.push(ParamSpec { id: "scVFat".to_owned(), default_bits: 0x3fcac083126e978du64, required: true });
    params.push(ParamSpec { id: "scVRich".to_owned(), default_bits: 0x3fbae147ae147ae1u64, required: true });
    params.push(ParamSpec { id: "scVLiver".to_owned(), default_bits: 0x3f989374bc6a7efau64, required: true });
    params.push(ParamSpec { id: "scVBlood".to_owned(), default_bits: 0x3fb16872b020c49cu64, required: true });
    params.push(ParamSpec { id: "scVArt".to_owned(), default_bits: 0x3fd555555555554fu64, required: true });
    params.push(ParamSpec { id: "scFBlood".to_owned(), default_bits: 0x4013333333333333u64, required: true });
    params.push(ParamSpec { id: "scFFat".to_owned(), default_bits: 0x3fb5c28f5c28f5c3u64, required: true });
    params.push(ParamSpec { id: "scFPoor".to_owned(), default_bits: 0x3fbeb851eb851eb8u64, required: true });
    params.push(ParamSpec { id: "scFLiver".to_owned(), default_bits: 0x3fd147ae147ae148u64, required: true });
    params.push(ParamSpec { id: "scFSkin".to_owned(), default_bits: 0x3fa999999999999au64, required: true });
    params.push(ParamSpec { id: "fSA_exposed".to_owned(), default_bits: 0x3fb999999999999au64, required: true });
    params.push(ParamSpec { id: "Height_sc".to_owned(), default_bits: 0x3f1a36e2eb1c432du64, required: true });
    params.push(ParamSpec { id: "Height_vs".to_owned(), default_bits: 0x3f88fc504816f007u64, required: true });
    params.push(ParamSpec { id: "Falv".to_owned(), default_bits: 0x40a1580000000000u64, required: true });
    params.push(ParamSpec { id: "PCFat".to_owned(), default_bits: 0x40043d70a3d70a3du64, required: true });
    params.push(ParamSpec { id: "PCLiver".to_owned(), default_bits: 0x3fed89374bc6a7f0u64, required: true });
    params.push(ParamSpec { id: "PCRich".to_owned(), default_bits: 0x3fec000000000000u64, required: true });
    params.push(ParamSpec { id: "PCPoor".to_owned(), default_bits: 0x3fe4b4395810624eu64, required: true });
    params.push(ParamSpec { id: "PCSkin_sc".to_owned(), default_bits: 0x3fec72b020c49ba6u64, required: true });
    params.push(ParamSpec { id: "PCSkin".to_owned(), default_bits: 0x3fec72b020c49ba6u64, required: true });
    params.push(ParamSpec { id: "PCAir".to_owned(), default_bits: 0x547d42aea2879f2eu64, required: true });
    params.push(ParamSpec { id: "kGut".to_owned(), default_bits: 0x3ff0000000000000u64, required: true });
    params.push(ParamSpec { id: "Kp_sc_vs".to_owned(), default_bits: 0x3f847ae147ae147bu64, required: true });
    params.push(ParamSpec { id: "Km".to_owned(), default_bits: 0x0u64, required: true });
    params.push(ParamSpec { id: "Michaelis".to_owned(), default_bits: 0x0u64, required: true });
    params.push(ParamSpec { id: "Vmax".to_owned(), default_bits: 0x0u64, required: true });
    params.push(ParamSpec { id: "CLH".to_owned(), default_bits: 0x4060800000000000u64, required: true });
    params.push(ParamSpec { id: "Ke".to_owned(), default_bits: 0x401e000000000000u64, required: true });
    params.push(ParamSpec { id: "fub".to_owned(), default_bits: 0x3fe051eb851eb852u64, required: true });
    params.push(ParamSpec { id: "Air".to_owned(), default_bits: 0x3ff0000000000000u64, required: true });
    params.push(ParamSpec { id: "Urine".to_owned(), default_bits: 0x3ff0000000000000u64, required: true });
    params.push(ParamSpec { id: "Gut".to_owned(), default_bits: 0x3ff0000000000000u64, required: true });
    let mut species: Vec<SpeciesSpec> = Vec::new();
    species.push(SpeciesSpec { id: "QFat".to_owned(), initial_bits: 0x0u64, units: "MilliMOL".to_owned() });
    species.push(SpeciesSpec { id: "QRich".to_owned(), initial_bits: 0x0u64, units: "MilliMOL".to_owned() });
    species.push(SpeciesSpec { id: "QPoor".to_owned(), initial_bits: 0x0u64, units: "MilliMOL".to_owned() });
    species.push(SpeciesSpec { id: "QLiver".to_owned(), initial_bits: 0x0u64, units: "MilliMOL".to_owned() });
    species.push(SpeciesSpec { id: "QMetab".to_owned(), initial_bits: 0x0u64, units: "MilliMOL".to_owned() });
    species.push(SpeciesSpec { id: "QGut".to_owned(), initial_bits: 0x3ff0000000000000u64, units: "MilliMOL".to_owned() });
    species.push(SpeciesSpec { id: "QSkin_u".to_owned(), initial_bits: 0x0u64, units: "MilliMOL".to_owned() });
    species.push(SpeciesSpec { id: "QSkin_e".to_owned(), initial_bits: 0x0u64, units: "MilliMOL".to_owned() });
    species.push(SpeciesSpec { id: "QSkin_sc_u".to_owned(), initial_bits: 0x0u64, units: "MilliMOL".to_owned() });
    species.push(SpeciesSpec { id: "QSkin_sc_e".to_owned(), initial_bits: 0x0u64, units: "MilliMOL".to_owned() });
    species.push(SpeciesSpec { id: "QArt".to_owned(), initial_bits: 0x0u64, units: "MilliMOL".to_owned() });
    species.push(SpeciesSpec { id: "QVen".to_owned(), initial_bits: 0x0u64, units: "MilliMOL".to_owned() });
    species.push(SpeciesSpec { id: "QExcret".to_owned(), initial_bits: 0x0u64, units: "MilliMOL".to_owned() });
    species.push(SpeciesSpec { id: "QAir".to_owned(), initial_bits: 0x0u64, units: "MilliMOL".to_owned() });
    let mut event_ids: Vec<String> = Vec::new();
    Model {
        model_id: "euromix_model".to_owned(),
        time_units: "HR".to_owned(),
        substance_units: "MilliMOL".to_owned(),
        volume_units: "L".to_owned(),
        params,
        species,
        event_ids,
        default_final_time_bits: 0x4038000000000000u64,
    }
}

/// The read-only model summary: identifier, table sizes, units.
pub fn get_model_metadata() -> (md: ModelMetadata)
    ensures
        md.model_id@ == "euromix_model"@,
        md.num_species == 14,
        md.num_parameters == 34,
        md.time_units@ == "HR"@,
        md.substance_units@ == "MilliMOL"@,
        md.volume_units@ == "L"@,
{
    let m = model();
    crate::model::model_metadata(&m)
}

/// The parameter descriptors, in table order.
pub fn get_parameters_info() -> (v: Vec<ParamSpec>)
    ensures
        v@.len() == param_rows().len(),
        forall|i: int|
            0 <= i < v@.len() ==> {
                &&& (#[trigger] v@[i]).id@ == param_rows()[i].0
                &&& v@[i].default_bits == param_rows()[i].1
                &&& v@[i].required == param_rows()[i].2
            },
{
    let m = model();
    m.params
}

/// The species descriptors, in state-index order.
pub fn get_species_info() -> (v: Vec<SpeciesSpec>)
    ensures
        v@.len() == species_rows().len(),
        forall|i: int|
            0 <= i < v@.len() ==> {
                &&& (#[trigger] v@[i]).id@ == species_rows()[i].0
                &&& v@[i].initial_bits == species_rows()[i].1
                &&& v@[i].units@ == species_rows()[i].2
            },
{
    let m = model();
    m.species
}

/// The default parameter record: every parameter with its default
/// value, then the default stop time under `final_time`.  Feeding it
/// back into a run resolves successfully (the default round trip).
pub fn get_default_parameters() -> (r: Vec<(String, u64)>)
    ensures
        r@.len() == param_rows().len() + 1,
        forall|j: int|
            0 <= j < param_rows().len() ==> {
                &&& (#[trigger] r@[j]).0@ == param_rows()[j].0
                &&& r@[j].1 == param_rows()[j].1
            },
        r@[param_rows().len() as int].0@ == "final_time"@,
        r@[param_rows().len() as int].1 == 0x4038000000000000u64,
{
    let m = model();
    crate::params::default_record(&m)
}

} // verus!
