//! The run trace: a state machine over the solver's step reports.
//!
//! The numerical integrator advances the system one adaptive step at a
//! time; after each step it reports what happened.  The trace decides,
//! for every report, whether the run is still healthy, and accumulates
//! the accepted samples.  Whatever the solver does, a well-formed trace
//! holds only finite state values and a strictly increasing sample-time
//! array that starts at the initial time; a trace that reaches `Stopped`
//! ends exactly at the requested stop time, and every other outcome is a
//! distinct `Failed` state, never a silently truncated series.
//!
//! Sample times are finite non-negative binary64 bit patterns, so their
//! unsigned integer order is their numeric order.

use vstd::prelude::*;

use crate::model::Model;
use crate::params::InputError;
use crate::scalar::all_finite;
use crate::scalar::is_time_bits;
use crate::scalar::scalar_is_time;
use crate::scalar::state_all_finite;

verus! {

/// Where a run stands.
#[derive(Clone, Copy, Debug, PartialEq, Eq, Structural)]
pub enum RunStatus {
    /// The integrator is still advancing.
    Stepping,
    /// The requested stop time was reached exactly; the trace is complete.
    Stopped,
    /// The solver failed, or reported something the trace must refuse
    /// (a non-finite value, a non-monotonic time).  Fatal for the run.
    Failed,
}

/// What the driver reports after one call into the integrator.
pub enum StepReport {
    /// An internal step was accepted at time `t_bits` with state `y_bits`.
    Accepted { t_bits: u64, y_bits: Vec<u64> },
    /// The requested stop time was reached, with the state interpolated
    /// to exactly that time.
    StopReached { t_bits: u64, y_bits: Vec<u64> },
    /// Event indicator `index` crossed zero at time `t_bits`.
    EventCrossed { index: usize, t_bits: u64 },
    /// The solver could not complete the step (Newton non-convergence,
    /// step-size underflow, failed event location).
    SolverFailure,
}

/// The accumulated trace of one run.
pub struct RunTrace {
    /// Number of state variables; every recorded state has this length.
    pub dim: usize,
    /// Number of event indicators the model registers.
    pub n_events: usize,
    /// The requested stop time.
    pub final_time_bits: u64,
    /// Sample times, strictly increasing, starting at the initial time.
    pub times: Vec<u64>,
    /// One recorded state per sample time.
    pub states: Vec<Vec<u64>>,
    /// Fired events: indicator index and located crossing time.
    pub events: Vec<(usize, u64)>,
    pub status: RunStatus,
}

impl RunTrace {
    /// The most recently recorded sample time.
    pub open spec fn last_time(self) -> u64 {
        self.times@[self.times@.len() - 1]
    }

    /// Trace invariant.
    pub open spec fn wf(self) -> bool {
        &&& self.times@.len() == self.states@.len()
        &&& self.times@.len() >= 1
        &&& self.times@[0] == 0u64
        &&& forall|i: int| 0 <= i < self.times@.len() ==> is_time_bits(#[trigger] self.times@[i])
        &&& forall|i: int| 1 <= i < self.times@.len() ==> self.times@[i - 1] < #[trigger] self.times@[i]
        &&& forall|i: int|
            0 <= i < self.states@.len() ==> (#[trigger] self.states@[i])@.len() == self.dim
        &&& forall|i: int| 0 <= i < self.states@.len() ==> all_finite((#[trigger] self.states@[i])@)
        &&& is_time_bits(self.final_time_bits)
        &&& self.last_time() <= self.final_time_bits
        &&& (self.status == RunStatus::Stopped ==> self.last_time() == self.final_time_bits)
        &&& forall|e: int|
            0 <= e < self.events@.len() ==> {
                &&& is_time_bits((#[trigger] self.events@[e]).1)
                &&& self.events@[e].1 <= self.final_time_bits
                &&& (self.events@[e].0 as int) < self.n_events
            }
    }

    /// An internal step may be recorded: its time is a valid sample time,
    /// strictly after the last sample and strictly before the stop time,
    /// and its state is complete and finite.
    pub open spec fn accept_ok(self, t: u64, y: Seq<u64>) -> bool {
        &&& is_time_bits(t)
        &&& self.last_time() < t
        &&& t < self.final_time_bits
        &&& y.len() == self.dim
        &&& all_finite(y)
    }

    /// The final sample may be recorded: the reported time is exactly the
    /// stop time, later than everything recorded, and the state is
    /// complete and finite.
    pub open spec fn stop_push_ok(self, t: u64, y: Seq<u64>) -> bool {
        &&& t == self.final_time_bits
        &&& self.last_time() < t
        &&& y.len() == self.dim
        &&& all_finite(y)
    }

    /// The stop time was already the last recorded sample (a run whose
    /// stop time equals the initial time): nothing to record.
    pub open spec fn stop_noop_ok(self, t: u64) -> bool {
        t == self.final_time_bits && self.last_time() == t
    }

    /// An event crossing may be recorded: a known indicator, located at a
    /// valid time within the remaining span of the run.
    pub open spec fn event_ok(self, index: usize, t: u64) -> bool {
        &&& is_time_bits(t)
        &&& self.last_time() <= t <= self.final_time_bits
        &&& (index as int) < self.n_events
    }

    /// The run's fixed configuration is unchanged.
    pub open spec fn same_config(self, other: RunTrace) -> bool {
        &&& self.dim == other.dim
        &&& self.n_events == other.n_events
        &&& self.final_time_bits == other.final_time_bits
    }

    /// The recorded samples are unchanged.
    pub open spec fn same_samples(self, other: RunTrace) -> bool {
        &&& self.times@ == other.times@
        &&& self.states@.len() == other.states@.len()
        &&& forall|i: int|
            0 <= i < self.states@.len() ==> (#[trigger] self.states@[i])@ == other.states@[i]@
        &&& self.events@ == other.events@
    }

    /// `self` is `prior` with the run marked failed and nothing recorded.
    pub open spec fn failed_from(self, prior: RunTrace) -> bool {
        &&& self.same_samples(prior)
        &&& self.status == RunStatus::Failed
    }

    /// `self` is `prior` with one more sample recorded.
    pub open spec fn pushed_sample(self, prior: RunTrace, t: u64, y: Seq<u64>) -> bool {
        &&& self.times@ == prior.times@.push(t)
        &&& self.states@.len() == prior.states@.len() + 1
        &&& (forall|i: int|
            0 <= i < prior.states@.len() ==> (#[trigger] self.states@[i])@ == prior.states@[i]@)
        &&& self.states@[self.states@.len() - 1]@ == y
        &&& self.events@ == prior.events@
    }
}

/// Starts a run: checks that the supplied stop time and initial state are
/// finite (and the stop time non-negative) and records the initial sample
/// at the initial time.
pub fn start_run(m: &Model, y0: Vec<u64>, tf_bits: u64) -> (r: Result<RunTrace, InputError>)
    requires
        y0@.len() == m.species@.len(),
    ensures
        r is Ok <==> is_time_bits(tf_bits) && all_finite(y0@),
        match r {
            Ok(tr) => {
                &&& tr.wf()
                &&& tr.dim == m.species@.len()
                &&& tr.n_events == m.event_ids@.len()
                &&& tr.final_time_bits == tf_bits
                &&& tr.times@ == seq![0u64]
                &&& tr.states@.len() == 1
                &&& tr.states@[0]@ == y0@
                &&& tr.events@.len() == 0
                &&& tr.status == RunStatus::Stepping
            },
            Err(e) => e == InputError::NonFiniteInput,
        },
{
    if !scalar_is_time(tf_bits) {
        return Err(InputError::NonFiniteInput);
    }
    if !state_all_finite(&y0) {
        return Err(InputError::NonFiniteInput);
    }
    let dim = y0.len();
    let mut times: Vec<u64> = Vec::new();
    times.push(0u64);
    let mut states: Vec<Vec<u64>> = Vec::new();
    states.push(y0);
    let tr = RunTrace {
        dim,
        n_events: m.event_ids.len(),
        final_time_bits: tf_bits,
        times,
        states,
        events: Vec::new(),
        status: RunStatus::Stepping,
    };
    proof {
        assert(tr.times@ =~= seq![0u64]);
        assert((0u64 >> 52) & 0x7ff != 0x7ff) by (bit_vector);
        assert((0u64 >> 63) == 0u64) by (bit_vector);
    }
    Ok(tr)
}

/// Advances the trace by one solver report.
///
/// A report that passes the trace's checks is recorded and the run stays
/// healthy (or stops, exactly at the stop time); any other report —
/// solver failure, a non-finite value, a time out of order or beyond the
/// stop time, an unknown event index — moves the run to `Failed` and
/// records nothing.
pub fn advance(tr: &mut RunTrace, report: StepReport)
    requires
        old(tr).wf(),
        old(tr).status == RunStatus::Stepping,
    ensures
        final(tr).wf(),
        old(tr).same_config(*final(tr)),
        match report {
            StepReport::Accepted { t_bits, y_bits } => {
                if old(tr).accept_ok(t_bits, y_bits@) {
                    &&& final(tr).pushed_sample(*old(tr), t_bits, y_bits@)
                    &&& final(tr).status == RunStatus::Stepping
                } else {
                    final(tr).failed_from(*old(tr))
                }
            },
            StepReport::StopReached { t_bits, y_bits } => {
                if old(tr).stop_push_ok(t_bits, y_bits@) {
                    &&& final(tr).pushed_sample(*old(tr), t_bits, y_bits@)
                    &&& final(tr).status == RunStatus::Stopped
                } else if old(tr).stop_noop_ok(t_bits) {
                    &&& final(tr).same_samples(*old(tr))
                    &&& final(tr).status == RunStatus::Stopped
                } else {
                    final(tr).failed_from(*old(tr))
                }
            },
            StepReport::EventCrossed { index, t_bits } => {
                if old(tr).event_ok(index, t_bits) {
                    &&& final(tr).times@ == old(tr).times@
                    &&& final(tr).states@.len() == old(tr).states@.len()
                    &&& (forall|i: int|
                        0 <= i < final(tr).states@.len() ==> (#[trigger] final(tr).states@[i])@
                            == old(tr).states@[i]@)
                    &&& final(tr).events@ == old(tr).events@.push((index, t_bits))
                    &&& final(tr).status == RunStatus::Stepping
                } else {
                    final(tr).failed_from(*old(tr))
                }
            },
            StepReport::SolverFailure => final(tr).failed_from(*old(tr)),
        },
{
    match report {
        StepReport::Accepted { t_bits, y_bits } => {
            let n = tr.times.len();
            let last = tr.times[n - 1];
            let ok = scalar_is_time(t_bits) && last < t_bits && t_bits < tr.final_time_bits
                && y_bits.len() == tr.dim && state_all_finite(&y_bits);
            if ok {
                tr.times.push(t_bits);
                tr.states.push(y_bits);
            } else {
                tr.status = RunStatus::Failed;
            }
        },
        StepReport::StopReached { t_bits, y_bits } => {
            let n = tr.times.len();
            let last = tr.times[n - 1];
            if t_bits == tr.final_time_bits && last < t_bits && y_bits.len() == tr.dim
                && state_all_finite(&y_bits) {
                tr.times.push(t_bits);
                tr.states.push(y_bits);
                tr.status = RunStatus::Stopped;
            } else if t_bits == tr.final_time_bits && last == t_bits {
                tr.status = RunStatus::Stopped;
            } else {
                tr.status = RunStatus::Failed;
            }
        },
        StepReport::EventCrossed { index, t_bits } => {
            let n = tr.times.len();
            let last = tr.times[n - 1];
            let ok = scalar_is_time(t_bits) && last <= t_bits && t_bits <= tr.final_time_bits
                && index < tr.n_events;
            if ok {
                tr.events.push((index, t_bits));
            } else {
                tr.status = RunStatus::Failed;
            }
        },
        StepReport::SolverFailure => {
            tr.status = RunStatus::Failed;
        },
    }
}

} // verus!
