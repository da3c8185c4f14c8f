use pbpk_sim::euromix;
use pbpk_sim::model::model_well_formed;
use pbpk_sim::model::species_index;
use pbpk_sim::pbpk_bpa;
use pbpk_sim::talinolol;
use pbpk_sim::zake2021;

#[test]
fn all_models_are_well_formed() {
    assert!(model_well_formed(&zake2021::model()));
    assert!(model_well_formed(&euromix::model()));
    assert!(model_well_formed(&talinolol::model()));
    assert!(model_well_formed(&pbpk_bpa::model()));
}

#[test]
fn zake2021_metadata() {
    let md = zake2021::get_model_metadata();
    assert_eq!(md.model_id, "Zake2021_model");
    assert_eq!(md.num_species, 20);
    assert_eq!(md.num_parameters, 19);
    assert_eq!(md.time_units, "HR");
    assert_eq!(md.substance_units, "MilliMOL");
    assert_eq!(md.volume_units, "L");
}

#[test]
fn euromix_metadata() {
    let md = euromix::get_model_metadata();
    assert_eq!(md.model_id, "euromix_model");
    assert_eq!(md.num_species, 14);
    assert_eq!(md.num_parameters, 34);
    assert_eq!(md.time_units, "HR");
    assert_eq!(md.substance_units, "MilliMOL");
    assert_eq!(md.volume_units, "L");
}

#[test]
fn zake2021_parameter_defaults() {
    let info = zake2021::get_parameters_info();
    assert_eq!(info.len(), 19);
    let expected: [(&str, f64); 19] = [
        ("Metformin_Dose_in_Lumen_in_mg", 0.0),
        ("Body_Weight", 27.5),
        ("Metformin_Dose_in_Plasma_in_mg", 1.375),
        ("Cardiac_Output", 838.8),
        ("Ktp_Liver", 5.5),
        ("Ktp_Brain", 0.8),
        ("Ktp_Adipose", 0.73),
        ("Ktp_Heart", 2.50008880523789),
        ("Ktp_Kidney", 4.5),
        ("Ktp_Muscle", 4.1),
        ("Ktp_Remainder", 0.8),
        ("Ktp_Lung", 3.0),
        ("Ktp_Stomach", 3.20000000001417),
        ("Ktp_IntestineVascular", 4.6),
        ("Qgfr", 20.0),
        ("IntestineLumen", 0.6),
        ("Urine", 1.0),
        ("Feces", 1.0),
        ("StomachLumen", 0.4),
    ];
    for (p, (id, dflt)) in info.iter().zip(expected.iter()) {
        assert_eq!(p.id, *id);
        assert_eq!(f64::from_bits(p.default_bits), *dflt);
        assert!(p.required);
    }
}

#[test]
fn euromix_parameter_defaults() {
    let info = euromix::get_parameters_info();
    assert_eq!(info.len(), 34);
    let expected: [(&str, f64); 34] = [
        ("BM", 70.0),
        ("BSA", 190.0),
        ("scVFat", 0.209),
        ("scVRich", 0.105),
        ("scVLiver", 0.024),
        ("scVBlood", 0.068),
        ("scVArt", 0.333333333333333),
        ("scFBlood", 4.8),
        ("scFFat", 0.085),
        ("scFPoor", 0.12),
        ("scFLiver", 0.27),
        ("scFSkin", 0.05),
        ("fSA_exposed", 0.1),
        ("Height_sc", 0.0001),
        ("Height_vs", 0.0122),
        ("Falv", 2220.0),
        ("PCFat", 2.53),
        ("PCLiver", 0.923),
        ("PCRich", 0.875),
        ("PCPoor", 0.647),
        ("PCSkin_sc", 0.889),
        ("PCSkin", 0.889),
        ("PCAir", 1e+99),
        ("kGut", 1.0),
        ("Kp_sc_vs", 0.01),
        ("Km", 0.0),
        ("Michaelis", 0.0),
        ("Vmax", 0.0),
        ("CLH", 132.0),
        ("Ke", 7.5),
        ("fub", 0.51),
        ("Air", 1.0),
        ("Urine", 1.0),
        ("Gut", 1.0),
    ];
    for (p, (id, dflt)) in info.iter().zip(expected.iter()) {
        assert_eq!(p.id, *id);
        assert_eq!(f64::from_bits(p.default_bits), *dflt);
        assert!(p.required);
    }
}

#[test]
fn zake2021_species_table() {
    let info = zake2021::get_species_info();
    assert_eq!(info.len(), 20);
    let expected: [&str; 20] = [
        "mLiver",
        "mKidneyPlasma",
        "mRemainder",
        "mPlasmaVenous",
        "mHeart",
        "mMuscle",
        "mAdipose",
        "mBrain",
        "mFeces",
        "mUrine",
        "mIntestineLumen",
        "mPlasmaArterial",
        "mLung",
        "mPortalVein",
        "mStomach",
        "mIntestineEnterocytes",
        "mKidneyTissue",
        "mIntestineVascular",
        "mStomachLumen",
        "mKidneyTubular",
    ];
    for (s, id) in info.iter().zip(expected.iter()) {
        assert_eq!(s.id, *id);
        assert_eq!(s.units, "MilliMOL");
    }
    assert_eq!(f64::from_bits(info[3].initial_bits), 10645.7107463611);
    for (i, s) in info.iter().enumerate() {
        if i != 3 {
            assert_eq!(f64::from_bits(s.initial_bits), 0.0);
        }
    }
}

#[test]
fn euromix_species_table() {
    let info = euromix::get_species_info();
    assert_eq!(info.len(), 14);
    let expected: [&str; 14] = [
        "QFat",
        "QRich",
        "QPoor",
        "QLiver",
        "QMetab",
        "QGut",
        "QSkin_u",
        "QSkin_e",
        "QSkin_sc_u",
        "QSkin_sc_e",
        "QArt",
        "QVen",
        "QExcret",
        "QAir",
    ];
    for (s, id) in info.iter().zip(expected.iter()) {
        assert_eq!(s.id, *id);
        assert_eq!(s.units, "MilliMOL");
    }
    assert_eq!(f64::from_bits(info[5].initial_bits), 1.0);
}

#[test]
fn index_mapping_is_stable() {
    // The name-to-index mapping the metadata exposes is the mapping the
    // run output uses: looking an identifier up returns its table index.
    let m = zake2021::model();
    for (i, s) in zake2021::get_species_info().iter().enumerate() {
        assert_eq!(species_index(&m, &s.id), Some(i));
    }
    let m = euromix::model();
    for (i, s) in euromix::get_species_info().iter().enumerate() {
        assert_eq!(species_index(&m, &s.id), Some(i));
    }
    assert_eq!(species_index(&m, &"NoSuchCompartment".to_owned()), None);
}

#[test]
fn zake2021_registers_one_event() {
    let m = zake2021::model();
    assert_eq!(m.event_ids.len(), 1);
    assert_eq!(m.event_ids[0], "Oral_at_0_001");
    assert_eq!(euromix::model().event_ids.len(), 0);
}

#[test]
fn default_final_time_is_24() {
    assert_eq!(f64::from_bits(zake2021::model().default_final_time_bits), 24.0);
    assert_eq!(f64::from_bits(euromix::model().default_final_time_bits), 24.0);
    assert_eq!(f64::from_bits(talinolol::model().default_final_time_bits), 24.0);
    assert_eq!(f64::from_bits(pbpk_bpa::model().default_final_time_bits), 24.0);
}

#[test]
fn talinolol_and_bpa_tables() {
    let m = talinolol::model();
    assert_eq!(m.model_id, "talinolol_model");
    assert_eq!(m.params.len(), 43);
    assert_eq!(m.species.len(), 16);
    assert_eq!(m.species[0].id, "Cki_plasma_tal");
    assert_eq!(m.species[15].id, "Cduodenum_tal");
    assert!(m.params.iter().all(|p| p.required));

    let m = pbpk_bpa::model();
    assert_eq!(m.model_id, "PBPK_BPA_model");
    assert_eq!(m.params.len(), 12);
    assert_eq!(m.species.len(), 1);
    assert_eq!(m.species[0].id, "Aplasma");
    assert_eq!(m.params[0].id, "Kabs");
}
