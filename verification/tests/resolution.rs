use pbpk_sim::euromix;
use pbpk_sim::params::prepare_run;
use pbpk_sim::params::record_lookup;
use pbpk_sim::params::resolve_final_time;
use pbpk_sim::params::resolve_initial_state;
use pbpk_sim::params::resolve_parameters;
use pbpk_sim::params::InputError;
use pbpk_sim::zake2021;

#[test]
fn record_lookup_takes_first_match() {
    let rec = vec![
        ("a".to_owned(), 1u64),
        ("b".to_owned(), 2u64),
        ("a".to_owned(), 3u64),
    ];
    assert_eq!(record_lookup(&rec, &"a".to_owned()), Some(1));
    assert_eq!(record_lookup(&rec, &"b".to_owned()), Some(2));
    assert_eq!(record_lookup(&rec, &"c".to_owned()), None);
}

#[test]
fn default_record_resolves_to_defaults() {
    // The default round trip: the default-parameter query's own output,
    // fed back unmodified, resolves successfully and reproduces every
    // documented default.
    let m = zake2021::model();
    let rec = zake2021::get_default_parameters();
    let resolved = resolve_parameters(&m, &rec).expect("defaults must resolve");
    assert_eq!(resolved.len(), m.params.len());
    for (v, p) in resolved.iter().zip(m.params.iter()) {
        assert_eq!(*v, p.default_bits);
    }
    assert_eq!(resolve_final_time(&m, &rec), 24.0f64.to_bits());

    let m = euromix::model();
    let rec = euromix::get_default_parameters();
    let resolved = resolve_parameters(&m, &rec).expect("defaults must resolve");
    for (v, p) in resolved.iter().zip(m.params.iter()) {
        assert_eq!(*v, p.default_bits);
    }
}

#[test]
fn omitting_any_required_parameter_fails() {
    // Dropping any single required entry from the default record must be
    // rejected, naming that table entry, before any integration begins.
    let m = euromix::model();
    let full = euromix::get_default_parameters();
    for omit in 0..m.params.len() {
        let mut rec = full.clone();
        rec.remove(omit);
        match resolve_parameters(&m, &rec) {
            Err(InputError::MissingParameter { index }) => assert_eq!(index, omit),
            other => panic!("expected a missing-parameter error, got {:?}", other.is_ok()),
        }
    }
}

#[test]
fn unknown_extra_entries_are_ignored() {
    let m = euromix::model();
    let mut rec = euromix::get_default_parameters();
    rec.push(("NotAParameter".to_owned(), 7u64));
    assert!(resolve_parameters(&m, &rec).is_ok());
}

#[test]
fn final_time_override_and_default() {
    let m = euromix::model();
    let mut rec = euromix::get_default_parameters();
    // The default record carries the default stop time.
    assert_eq!(resolve_final_time(&m, &rec), 24.0f64.to_bits());
    // Strip it: the model default applies.
    rec.retain(|e| e.0 != "final_time");
    assert_eq!(resolve_final_time(&m, &rec), 24.0f64.to_bits());
    // Override it.
    rec.push(("final_time".to_owned(), 36.0f64.to_bits()));
    assert_eq!(resolve_final_time(&m, &rec), 36.0f64.to_bits());
}

#[test]
fn initial_state_defaults_and_overrides() {
    let m = zake2021::model();
    let no_overrides: Vec<(String, u64)> = Vec::new();
    let y0 = resolve_initial_state(&m, &no_overrides);
    assert_eq!(y0.len(), 20);
    assert_eq!(f64::from_bits(y0[3]), 10645.7107463611);
    assert_eq!(f64::from_bits(y0[0]), 0.0);

    let overrides = vec![
        ("mLiver".to_owned(), 5.0f64.to_bits()),
        ("mPlasmaVenous".to_owned(), 0.0f64.to_bits()),
    ];
    let y0 = resolve_initial_state(&m, &overrides);
    assert_eq!(f64::from_bits(y0[0]), 5.0);
    assert_eq!(f64::from_bits(y0[3]), 0.0);
    assert_eq!(f64::from_bits(y0[1]), 0.0);
}

#[test]
fn prepare_run_bundles_all_three_resolutions() {
    let m = euromix::model();
    let rec = euromix::get_default_parameters();
    let overrides = vec![("QGut".to_owned(), 2.5f64.to_bits())];
    let setup = prepare_run(&m, &rec, &overrides).expect("defaults must resolve");
    assert_eq!(setup.param_values.len(), 34);
    assert_eq!(f64::from_bits(setup.param_values[0]), 70.0);
    assert_eq!(setup.initial_state.len(), 14);
    assert_eq!(f64::from_bits(setup.initial_state[5]), 2.5);
    assert_eq!(f64::from_bits(setup.initial_state[0]), 0.0);
    assert_eq!(f64::from_bits(setup.final_time_bits), 24.0);

    let empty: Vec<(String, u64)> = Vec::new();
    match prepare_run(&m, &empty, &empty) {
        Err(InputError::MissingParameter { index }) => assert_eq!(index, 0),
        _ => panic!("an empty record must be rejected"),
    }
}
