//! End-to-end runs: the stiff-ODE solver integrates, the library's trace
//! machine screens and records every step.

use diffsol::OdeBuilder;
use diffsol::OdeSolverMethod;
use diffsol::OdeSolverStopReason;

use pbpk_sim::model::Model;
use pbpk_sim::model::ParamSpec;
use pbpk_sim::model::SpeciesSpec;
use pbpk_sim::output::collect_result;
use pbpk_sim::params::prepare_run;
use pbpk_sim::run::advance;
use pbpk_sim::run::start_run;
use pbpk_sim::run::RunStatus;
use pbpk_sim::run::RunTrace;
use pbpk_sim::run::StepReport;

type M = diffsol::NalgebraMat<f64>;
type LS = diffsol::NalgebraLU<f64>;

/// Drives a solver to completion, feeding every step report through the
/// library's trace machine.
fn drive<'a, Eqn, S>(solver: &mut S, tr: &mut RunTrace, dim: usize, tf: f64)
where
    Eqn: diffsol::OdeEquations<T = f64> + 'a,
    Eqn::V: std::ops::Index<usize, Output = f64>,
    S: OdeSolverMethod<'a, Eqn>,
{
    solver.set_stop_time(tf).unwrap();
    while tr.status == RunStatus::Stepping {
        match solver.step() {
            Ok(OdeSolverStopReason::InternalTimestep) => {
                let t = solver.state().t;
                let mut y: Vec<u64> = Vec::with_capacity(dim);
                for k in 0..dim {
                    y.push(solver.state().y[k].to_bits());
                }
                advance(tr, StepReport::Accepted { t_bits: t.to_bits(), y_bits: y });
            },
            Ok(OdeSolverStopReason::RootFound(t, idx)) => {
                advance(tr, StepReport::EventCrossed { index: idx, t_bits: t.to_bits() });
            },
            Ok(OdeSolverStopReason::TstopReached) => {
                // Land exactly on the requested stop time.
                let mut y: Vec<u64> = Vec::with_capacity(dim);
                match solver.interpolate(tf) {
                    Ok(v) => {
                        for k in 0..dim {
                            y.push(v[k].to_bits());
                        }
                    },
                    Err(_) => {
                        for k in 0..dim {
                            y.push(solver.state().y[k].to_bits());
                        }
                    },
                }
                advance(tr, StepReport::StopReached { t_bits: tf.to_bits(), y_bits: y });
                break;
            },
            Err(_) => {
                advance(tr, StepReport::SolverFailure);
                break;
            },
        }
    }
}

/// Runs the single-compartment plasma model for one parameter record.
fn run_bpa(rec: &Vec<(String, u64)>) -> RunTrace {
    let m = pbpk_sim::pbpk_bpa::model();
    let setup = prepare_run(&m, rec, &Vec::new()).expect("record must resolve");
    let kabs = f64::from_bits(setup.param_values[0]);
    let koa = f64::from_bits(setup.param_values[1]);
    let t0 = f64::from_bits(setup.param_values[2]);
    let t1 = f64::from_bits(setup.param_values[3]);
    let kelm = f64::from_bits(setup.param_values[4]);
    let y0 = f64::from_bits(setup.initial_state[0]);
    let tf = f64::from_bits(setup.final_time_bits);

    let rhs = move |y: &[f64], _p: &[f64], t: f64, dy: &mut [f64]| {
        let aplasma = y[0];
        let x0 = 1.0 * kelm;
        dy[0] = -1.0 * aplasma * x0
            + 0.5 * kabs * koa * ((100.0 * t - 100.0 * t0).tanh() - 1.0 * (100.0 * t - 100.0 * t1).tanh());
    };
    let jac = move |_y: &[f64], _p: &[f64], _t: f64, v: &[f64], jv: &mut [f64]| {
        let x0 = 1.0 * kelm;
        jv[0] = (-1.0 * x0) * v[0];
    };
    let init = move |_p: &[f64], _t: f64, y: &mut [f64]| {
        y[0] = y0;
    };
    let problem = OdeBuilder::<M>::new().rhs_implicit(rhs, jac).init(init, 1).build().unwrap();
    let mut solver = problem.bdf::<LS>().unwrap();
    let mut tr = start_run(&m, setup.initial_state, setup.final_time_bits).unwrap();
    drive(&mut solver, &mut tr, 1, tf);
    tr
}

fn bpa_record(values: &[(&str, f64)]) -> Vec<(String, u64)> {
    values.iter().map(|(n, v)| (n.to_string(), v.to_bits())).collect()
}

fn bpa_nonzero_record() -> Vec<(String, u64)> {
    bpa_record(&[
        ("Kabs", 0.4),
        ("koa", 1.2),
        ("t0", 0.0),
        ("t1", 1.0),
        ("Kelm", 0.13),
        ("EoA_O", 1.0),
        ("D_o", 1.3381102),
        ("vplasma", 3.6),
        ("period_O", 0.0003),
        ("n_O", 1.0),
        ("uptake_O", 1.0),
        ("comp1", 3.6),
        ("final_time", 4.0),
    ])
}

#[test]
fn bpa_zero_dose_baseline_is_flat() {
    // With every parameter zero (each one's default) there is no dosing
    // input and no elimination: the trajectory must show no transient.
    let m = pbpk_sim::pbpk_bpa::model();
    let rec = pbpk_sim::params::default_record(&m);
    let tr = run_bpa(&rec);
    assert_eq!(tr.status, RunStatus::Stopped);
    assert_eq!(f64::from_bits(*tr.times.last().unwrap()), 24.0);
    for y in &tr.states {
        assert_eq!(f64::from_bits(y[0]), 0.0);
    }
}

#[test]
fn bpa_run_is_deterministic() {
    // Identical parameter records produce bit-identical output series.
    let rec = bpa_nonzero_record();
    let tr1 = run_bpa(&rec);
    let tr2 = run_bpa(&rec);
    assert_eq!(tr1.status, RunStatus::Stopped);
    assert_eq!(tr1.times, tr2.times);
    assert_eq!(tr1.states, tr2.states);
}

#[test]
fn bpa_sample_times_are_strictly_increasing_to_final_time() {
    let rec = bpa_nonzero_record();
    let tr = run_bpa(&rec);
    assert_eq!(tr.status, RunStatus::Stopped);
    let times: Vec<f64> = tr.times.iter().map(|b| f64::from_bits(*b)).collect();
    assert_eq!(times[0], 0.0);
    assert_eq!(*times.last().unwrap(), 4.0);
    for w in times.windows(2) {
        assert!(w[0] < w[1]);
    }
    // The dose raises the plasma amount above its initial zero.
    let res = collect_result(&pbpk_sim::pbpk_bpa::model(), &tr);
    assert_eq!(res.species_names[0], "Aplasma");
    let peak = res.series[0].iter().map(|b| f64::from_bits(*b)).fold(0.0f64, f64::max);
    assert!(peak > 0.0);
}

/// A two-compartment closed exchange model: mass moves between the
/// compartments and nothing leaves.
fn exchange_model() -> Model {
    Model {
        model_id: "closed_exchange".to_owned(),
        time_units: "HR".to_owned(),
        substance_units: "MilliMOL".to_owned(),
        volume_units: "L".to_owned(),
        params: vec![ParamSpec { id: "k".to_owned(), default_bits: 1.0f64.to_bits(), required: true }],
        species: vec![
            SpeciesSpec { id: "a".to_owned(), initial_bits: 1.0f64.to_bits(), units: "MilliMOL".to_owned() },
            SpeciesSpec { id: "b".to_owned(), initial_bits: 0.0f64.to_bits(), units: "MilliMOL".to_owned() },
        ],
        event_ids: Vec::new(),
        default_final_time_bits: 5.0f64.to_bits(),
    }
}

#[test]
fn closed_model_conserves_total_mass() {
    // Without excretion or metabolism sinks the compartment total stays
    // within solver tolerance of its initial value at every sample.
    let m = exchange_model();
    let rec = vec![("k".to_owned(), 1.0f64.to_bits())];
    let setup = prepare_run(&m, &rec, &Vec::new()).unwrap();
    let k = f64::from_bits(setup.param_values[0]);
    let tf = f64::from_bits(setup.final_time_bits);

    let rhs = move |y: &[f64], _p: &[f64], _t: f64, dy: &mut [f64]| {
        dy[0] = k * (y[1] - y[0]);
        dy[1] = k * (y[0] - y[1]);
    };
    let jac = move |_y: &[f64], _p: &[f64], _t: f64, v: &[f64], jv: &mut [f64]| {
        jv[0] = k * (v[1] - v[0]);
        jv[1] = k * (v[0] - v[1]);
    };
    let init = move |_p: &[f64], _t: f64, y: &mut [f64]| {
        y[0] = 1.0;
        y[1] = 0.0;
    };
    let problem = OdeBuilder::<M>::new().rhs_implicit(rhs, jac).init(init, 2).build().unwrap();
    let mut solver = problem.bdf::<LS>().unwrap();
    let mut tr = start_run(&m, setup.initial_state, setup.final_time_bits).unwrap();
    drive(&mut solver, &mut tr, 2, tf);

    assert_eq!(tr.status, RunStatus::Stopped);
    for y in &tr.states {
        let total = f64::from_bits(y[0]) + f64::from_bits(y[1]);
        assert!((total - 1.0).abs() < 1e-5, "mass not conserved: {}", total);
    }
    // The exchange actually happened: the compartments approach balance.
    let last = tr.states.last().unwrap();
    assert!((f64::from_bits(last[0]) - 0.5).abs() < 1e-3);
}

/// A decay model with one event indicator crossing zero when the amount
/// halves: the analytic crossing time is ln 2.
fn decay_model() -> Model {
    Model {
        model_id: "decay_with_event".to_owned(),
        time_units: "HR".to_owned(),
        substance_units: "MilliMOL".to_owned(),
        volume_units: "L".to_owned(),
        params: vec![ParamSpec { id: "kel".to_owned(), default_bits: 1.0f64.to_bits(), required: true }],
        species: vec![SpeciesSpec {
            id: "amount".to_owned(),
            initial_bits: 1.0f64.to_bits(),
            units: "MilliMOL".to_owned(),
        }],
        event_ids: vec!["half_reached".to_owned()],
        default_final_time_bits: 2.0f64.to_bits(),
    }
}

#[test]
fn event_fires_at_the_analytic_crossing_time() {
    let m = decay_model();
    let rec = vec![("kel".to_owned(), 1.0f64.to_bits())];
    let setup = prepare_run(&m, &rec, &Vec::new()).unwrap();
    let kel = f64::from_bits(setup.param_values[0]);
    let tf = f64::from_bits(setup.final_time_bits);

    let rhs = move |y: &[f64], _p: &[f64], _t: f64, dy: &mut [f64]| {
        dy[0] = -kel * y[0];
    };
    let jac = move |_y: &[f64], _p: &[f64], _t: f64, v: &[f64], jv: &mut [f64]| {
        jv[0] = -kel * v[0];
    };
    let init = move |_p: &[f64], _t: f64, y: &mut [f64]| {
        y[0] = 1.0;
    };
    let root = move |y: &[f64], _p: &[f64], _t: f64, roots: &mut [f64]| {
        roots[0] = y[0] - 0.5;
    };
    let problem = OdeBuilder::<M>::new()
        .rhs_implicit(rhs, jac)
        .init(init, 1)
        .root(root, 1)
        .build()
        .unwrap();
    let mut solver = problem.bdf::<LS>().unwrap();
    let mut tr = start_run(&m, setup.initial_state, setup.final_time_bits).unwrap();
    drive(&mut solver, &mut tr, 1, tf);

    assert!(!tr.events.is_empty(), "the crossing must be detected");
    let (idx, t_bits) = tr.events[0];
    assert_eq!(idx, 0);
    let t = f64::from_bits(t_bits);
    let analytic = 2.0f64.ln();
    assert!((t - analytic).abs() < 1e-4, "crossing at {} vs analytic {}", t, analytic);
}
