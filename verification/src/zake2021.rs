//! The metformin whole-body model.
//!
//! Tables for the `Zake2021_model` compartmental model: its scalar
//! parameters with their defaults, its compartments in state-index
//! order with their default initial amounts, and its registered
//! events.  Every parameter is required; the stop time defaults to
//! 24 time units and may be overridden through the reserved
//! `final_time` record key.

use vstd::prelude::*;

use crate::model::Model;
use crate::model::ModelMetadata;
use crate::model::ParamSpec;
use crate::model::SpeciesSpec;

verus! {

/// The parameter table: identifier, default value (binary64 bits),
/// required flag.
pub open spec fn param_rows() -> Seq<(Seq<char>, u64, bool)> {
    seq![
        ("Metformin_Dose_in_Lumen_in_mg"@, 0x0u64, true),
        ("Body_Weight"@, 0x403b800000000000u64, true),
        ("Metformin_Dose_in_Plasma_in_mg"@, 0x3ff6000000000000u64, true),
        ("Cardiac_Output"@, 0x408a366666666666u64, true),
        ("Ktp_Liver"@, 0x4016000000000000u64, true),
        ("Ktp_Brain"@, 0x3fe999999999999au64, true),
        ("Ktp_Adipose"@, 0x3fe75c28f5c28f5cu64, true),
        ("Ktp_Heart"@, 0x4004002e8f3cbd57u64, true),
        ("Ktp_Kidney"@, 0x4012000000000000u64, true),
        ("Ktp_Muscle"@, 0x4010666666666666u64, true),
        ("Ktp_Remainder"@, 0x3fe999999999999au64, true),
        ("Ktp_Lung"@, 0x4008000000000000u64, true),
        ("Ktp_Stomach"@, 0x40099999999a163eu64, true),
        ("Ktp_IntestineVascular"@, 0x4012666666666666u64, true),
        ("Qgfr"@, 0x4034000000000000u64, true),
        ("IntestineLumen"@, 0x3fe3333333333333u64, true),
        ("Urine"@, 0x3ff0000000000000u64, true),
        ("Feces"@, 0x3ff0000000000000u64, true),
        ("StomachLumen"@, 0x3fd999999999999au64, true),
    ]
}

/// The species table: identifier, default initial amount (binary64
/// bits), unit.  Position is the compartment's state index.
pub open spec fn species_rows() -> Seq<(Seq<char>, u64, Seq<char>)> {
    seq![
        ("mLiver"@, 0x0u64, "MilliMOL"@),
        ("mKidneyPlasma"@, 0x0u64, "MilliMOL"@),
        ("mRemainder"@, 0x0u64, "MilliMOL"@),
        ("mPlasmaVenous"@, 0x40c4cadaf9bc9c56u64, "MilliMOL"@),
        ("mHeart"@, 0x0u64, "MilliMOL"@),
        ("mMuscle"@, 0x0u64, "MilliMOL"@),
        ("mAdipose"@, 0x0u64, "MilliMOL"@),
        ("mBrain"@, 0x0u64, "MilliMOL"@),
        ("mFeces"@, 0x0u64, "MilliMOL"@),
        ("mUrine"@, 0x0u64, "MilliMOL"@),
        ("mIntestineLumen"@, 0x0u64, "MilliMOL"@),
        ("mPlasmaArterial"@, 0x0u64, "MilliMOL"@),
        ("mLung"@, 0x0u64, "MilliMOL"@),
        ("mPortalVein"@, 0x0u64, "MilliMOL"@),
        ("mStomach"@, 0x0u64, "MilliMOL"@),
        ("mIntestineEnterocytes"@, 0x0u64, "MilliMOL"@),
        ("mKidneyTissue"@, 0x0u64, "MilliMOL"@),
        ("mIntestineVascular"@, 0x0u64, "MilliMOL"@),
        ("mStomachLumen"@, 0x0u64, "MilliMOL"@),
        ("mKidneyTubular"@, 0x0u64, "MilliMOL"@),
    ]
}

/// A model value carries exactly the tables above.
pub open spec fn model_matches(m: Model) -> bool {
    &&& m.model_id@ == "Zake2021_model"@
    &&& m.time_units@ == "HR"@
    &&& m.substance_units@ == "MilliMOL"@
    &&& m.volume_units@ == "L"@
    &&& m.params@.len() == param_rows().len()
    &&& (forall|i: int|
        0 <= i < m.params@.len() ==> {
            &&& (#[trigger] m.params@[i]).id@ == param_rows()[i].0
            &&& m.params@[i].default_bits == param_rows()[i].1
            &&& m.params@[i].required == param_rows()[i].2
        })
    &&& m.species@.len() == species_rows().len()
    &&& (forall|i: int|
        0 <= i < m.species@.len() ==> {
            &&& (#[trigger] m.species@[i]).id@ == species_rows()[i].0
            &&& m.species@[i].initial_bits == species_rows()[i].1
            &&& m.species@[i].units@ == species_rows()[i].2
        })
    &&& m.event_ids@.len() == 1
    &&& m.event_ids@[0]@ == "Oral_at_0_001"@
    &&& m.default_final_time_bits == 0x4038000000000000u64
}

/// Builds the model description.
pub fn model() -> (m: Model)
    ensures
        model_matches(m),
{
    let mut params: Vec<ParamSpec> = Vec::new();
    params.push(ParamSpec { id: "Metformin_Dose_in_Lumen_in_mg".to_owned(), default_bits: 0x0u64, required: true });
    params.push(ParamSpec { id: "Body_Weight".to_owned(), default_bits: 0x403b800000000000u64, required: true });
    params.push(ParamSpec { id: "Metformin_Dose_in_Plasma_in_mg".to_owned(), default_bits: 0x3ff6000000000000u64, required: true });
    params.push(ParamSpec { id: "Cardiac_Output".to_owned(), default_bits: 0x408a366666666666u64, required: true });
    params.push(ParamSpec { id: "Ktp_Liver".to_owned(), default_bits: 0x4016000000000000u64, required: true });
    params.push(ParamSpec { id: "Ktp_Brain".to_owned(), default_bits: 0x3fe999999999999au64, required: true });
    params.push(ParamSpec { id: "Ktp_Adipose".to_owned(), default_bits: 0x3fe75c28f5c28f5cu64, required: true });
    params.push(ParamSpec { id: "Ktp_Heart".to_owned(), default_bits: 0x4004002e8f3cbd57u64, required: true });
    params.push(ParamSpec { id: "Ktp_Kidney".to_owned(), default_bits: 0x4012000000000000u64, required: true });
    params.push(ParamSpec { id: "Ktp_Muscle".to_owned(), default_bits: 0x4010666666666666u64, required: true });
    params.push(ParamSpec { id: "Ktp_Remainder".to_owned(), default_bits: 0x3fe999999999999au64, required: true });
    params.push(ParamSpec { id: "Ktp_Lung".to_owned(), default_bits: 0x4008000000000000u64, required: true });
    params.push(ParamSpec { id: "Ktp_Stomach".to_owned(), default_bits: 0x40099999999a163eu64, required: true });
    params.push(ParamSpec { id: "Ktp_IntestineVascular".to_owned(), default_bits: 0x4012666666666666u64, required: true });
    params.push(ParamSpec { id: "Qgfr".to_owned(), default_bits: 0x4034000000000000u64, required: true });
    params.push(ParamSpec { id: "IntestineLumen".to_owned(), default_bits: 0x3fe3333333333333u64, required: true });
    params.push(ParamSpec { id: "Urine".to_owned(), default_bits: 0x3ff0000000000000u64, required: true });
    params.push(ParamSpec { id: "Feces".to_owned(), default_bits: 0x3ff0000000000000u64, required: true });
    params.push(ParamSpec { id: "StomachLumen".to_owned(), default_bits: 0x3fd999999999999au64, required: true });
    let mut species: Vec<SpeciesSpec> = Vec::new();
    species.push(SpeciesSpec { id: "mLiver".to_owned(), initial_bits: 0x0u64, units: "MilliMOL".to_owned() });
    species.push(SpeciesSpec { id: "mKidneyPlasma".to_owned(), initial_bits: 0x0u64, units: "MilliMOL".to_owned() });
    species.push(SpeciesSpec { id: "mRemainder".to_owned(), initial_bits: 0x0u64, units: "MilliMOL".to_owned() });
    species.push(SpeciesSpec { id: "mPlasmaVenous".to_owned(), initial_bits: 0x40c4cadaf9bc9c56u64, units: "MilliMOL".to_owned() });
    species.push(SpeciesSpec { id: "mHeart".to_owned(), initial_bits: 0x0u64, units: "MilliMOL".to_owned() });
    species.push(SpeciesSpec { id: "mMuscle".to_owned(), initial_bits: 0x0u64, units: "MilliMOL".to_owned() });
    species.push(SpeciesSpec { id: "mAdipose".to_owned(), initial_bits: 0x0u64, units: "MilliMOL".to_owned() });
    species.push(SpeciesSpec { id: "mBrain".to_owned(), initial_bits: 0x0u64, units: "MilliMOL".to_owned() });
    species.push(SpeciesSpec { id: "mFeces".to_owned(), initial_bits: 0x0u64, units: "MilliMOL".to_owned() });
    species.push(SpeciesSpec { id: "mUrine".to_owned(), initial_bits: 0x0u64, units: "MilliMOL".to_owned() });
    species.push(SpeciesSpec { id: "mIntestineLumen".to_owned(), initial_bits: 0x0u64, units: "MilliMOL".to_owned() });
    species.push(SpeciesSpec { id: "mPlasmaArterial".to_owned(), initial_bits: 0x0u64, units: "MilliMOL".to_owned() });
    species.push(SpeciesSpec { id: "mLung".to_owned(), initial_bits: 0x0u64, units: "MilliMOL".to_owned() });
    species.push(SpeciesSpec { id: "mPortalVein".to_owned(), initial_bits: 0x0u64, units: "MilliMOL".to_owned() });
    species.push(SpeciesSpec { id: "mStomach".to_owned(), initial_bits: 0x0u64, units: "MilliMOL".to_owned() });
    species.push(SpeciesSpec { id: "mIntestineEnterocytes".to_owned(), initial_bits: 0x0u64, units: "MilliMOL".to_owned() });
    species.push(SpeciesSpec { id: "mKidneyTissue".to_owned(), initial_bits: 0x0u64, units: "MilliMOL".to_owned() });
    species.push(SpeciesSpec { id: "mIntestineVascular".to_owned(), initial_bits: 0x0u64, units: "MilliMOL".to_owned() });
    species.push(SpeciesSpec { id: "mStomachLumen".to_owned(), initial_bits: 0x0u64, units: "MilliMOL".to_owned() });
    species.push(SpeciesSpec { id: "mKidneyTubular".to_owned(), initial_bits: 0x0u64, units: "MilliMOL".to_owned() });
    let mut event_ids: Vec<String> = Vec::new();
    event_ids.push("Oral_at_0_001".to_owned());
    Model {
        model_id: "Zake2021_model".to_owned(),
        time_units: "HR".to_owned(),
        substance_units: "MilliMOL".to_owned(),
        volume_units: "L".to_owned(),
        params,
        species,
        event_ids,
        default_final_time_bits: 0x4038000000000000u64,
    }
}

/// The read-only model summary: identifier, table sizes, units.
pub fn get_model_metadata() -> (md: ModelMetadata)
    ensures
        md.model_id@ == "Zake2021_model"@,
        md.num_species == 20,
        md.num_parameters == 19,
        md.time_units@ == "HR"@,
        md.substance_units@ == "MilliMOL"@,
        md.volume_units@ == "L"@,
{
    let m = model();
    crate::model::model_metadata(&m)
}

/// The parameter descriptors, in table order.
pub fn get_parameters_info() -> (v: Vec<ParamSpec>)
    ensures
        v@.len() == param_rows().len(),
        forall|i: int|
            0 <= i < v@.len() ==> {
                &&& (#[trigger] v@[i]).id@ == param_rows()[i].0
                &&& v@[i].default_bits == param_rows()[i].1
                &&& v@[i].required == param_rows()[i].2
            },
{
    let m = model();
    m.params
}

/// The species descriptors, in state-index order.
pub fn get_species_info() -> (v: Vec<SpeciesSpec>)
    ensures
        v@.len() == species_rows().len(),
        forall|i: int|
            0 <= i < v@.len() ==> {
                &&& (#[trigger] v@[i]).id@ == species_rows()[i].0
                &&& v@[i].initial_bits == species_rows()[i].1
                &&& v@[i].units@ == species_rows()[i].2
            },
{
    let m = model();
    m.species
}

/// The default parameter record: every parameter with its default
/// value, then the default stop time under `final_time`.  Feeding it
/// back into a run resolves successfully (the default round trip).
pub fn get_default_parameters() -> (r: Vec<(String, u64)>)
    ensures
        r@.len() == param_rows().len() + 1,
        forall|j: int|
            0 <= j < param_rows().len() ==> {
                &&& (#[trigger] r@[j]).0@ == param_rows()[j].0
                &&& r@[j].1 == param_rows()[j].1
            },
        r@[param_rows().len() as int].0@ == "final_time"@,
        r@[param_rows().len() as int].1 == 0x4038000000000000u64,
{
    let m = model();
    crate::params::default_record(&m)
}

} // verus!
