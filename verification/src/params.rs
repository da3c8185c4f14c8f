//! Parameter records and their resolution against a model.
//!
//! A parameter record is the caller's flat list of `(identifier, value)`
//! pairs, values as binary64 bit patterns.  Resolution checks that every
//! required parameter of the model is present, substitutes the documented
//! default for each absent optional one, and fails fast (before any
//! integration) when a required one is missing.  Lookup takes the first
//! entry with a matching identifier.

use vstd::prelude::*;

use crate::model::Model;
use crate::model::ParamSpec;

verus! {

/// The value carried by the first record entry whose identifier matches
/// `name`, if any.
pub open spec fn lookup(rec: Seq<(String, u64)>, name: Seq<char>) -> Option<u64>
    decreases rec.len(),
{
    if rec.len() == 0 {
        None
    } else if rec[0].0@ == name {
        Some(rec[0].1)
    } else {
        lookup(rec.drop_first(), name)
    }
}

/// The recorded value for `name`, or `dflt` when the record has none.
pub open spec fn value_or(rec: Seq<(String, u64)>, name: Seq<char>, dflt: u64) -> u64 {
    match lookup(rec, name) {
        Some(v) => v,
        None => dflt,
    }
}

/// Every required parameter of the table is present in the record.
pub open spec fn required_present(ps: Seq<ParamSpec>, rec: Seq<(String, u64)>) -> bool {
    forall|j: int|
        0 <= j < ps.len() && (#[trigger] ps[j]).required ==> lookup(rec, ps[j].id@) is Some
}

/// Why a parameter record was rejected before integration began.
#[derive(Clone, Copy, Debug, PartialEq, Eq, Structural)]
pub enum InputError {
    /// The parameter at this table index is required but absent.
    MissingParameter { index: usize },
    /// A supplied scalar (initial override or stop time) is not finite
    /// or a supplied stop time is negative.
    NonFiniteInput,
}

proof fn lemma_lookup_skip_step(rec: Seq<(String, u64)>, name: Seq<char>, i: int)
    requires
        0 <= i < rec.len(),
    ensures
        lookup(rec.skip(i), name) == if rec[i].0@ == name {
            Some(rec[i].1)
        } else {
            lookup(rec.skip(i + 1), name)
        },
{
    assert(rec.skip(i)[0] == rec[i]);
    assert(rec.skip(i).drop_first() =~= rec.skip(i + 1));
}

/// Looks `name` up in a record, returning the first matching entry's
/// value.
pub fn record_lookup(rec: &Vec<(String, u64)>, name: &String) -> (r: Option<u64>)
    ensures
        r == lookup(rec@, name@),
{
    proof {
        assert(rec@.skip(0) =~= rec@);
    }
    let mut i: usize = 0;
    while i < rec.len()
        invariant
            i <= rec@.len(),
            lookup(rec@, name@) == lookup(rec@.skip(i as int), name@),
        decreases rec@.len() - i,
    {
        proof {
            lemma_lookup_skip_step(rec@, name@, i as int);
        }
        if rec[i].0.eq(name) {
            return Some(rec[i].1);
        }
        i += 1;
    }
    proof {
        assert(rec@.skip(rec@.len() as int) =~= Seq::<(String, u64)>::empty());
    }
    None
}

/// `lookup` finds exactly the entry at `j` when that entry matches and
/// no earlier one does.
pub proof fn lemma_lookup_first_match(rec: Seq<(String, u64)>, name: Seq<char>, j: int)
    requires
        0 <= j < rec.len(),
        rec[j].0@ == name,
        forall|k: int| 0 <= k < j ==> (#[trigger] rec[k]).0@ != name,
    ensures
        lookup(rec, name) == Some(rec[j].1),
    decreases j,
{
    if j == 0 {
    } else {
        assert(rec[0].0@ != name);
        let rest = rec.drop_first();
        assert forall|k: int| 0 <= k < j - 1 implies (#[trigger] rest[k]).0@ != name by {
            assert(rest[k] == rec[k + 1]);
        }
        assert(rest[j - 1] == rec[j]);
        lemma_lookup_first_match(rest, name, j - 1);
    }
}

/// Resolves a parameter record against a model's parameter table.
///
/// Succeeds exactly when every required parameter is present; the
/// resolved vector is table-aligned, holding the recorded value where one
/// exists and the documented default otherwise.  On failure it names the
/// first required table entry the record omits.
pub fn resolve_parameters(m: &Model, rec: &Vec<(String, u64)>) -> (r: Result<Vec<u64>, InputError>)
    ensures
        r is Ok <==> required_present(m.params@, rec@),
        match r {
            Ok(v) => {
                &&& v@.len() == m.params@.len()
                &&& forall|j: int|
                    0 <= j < m.params@.len() ==> v@[j] == value_or(
                        rec@,
                        (#[trigger] m.params@[j]).id@,
                        m.params@[j].default_bits,
                    )
            },
            Err(e) => {
                &&& e matches InputError::MissingParameter { index }
                &&& (index as int) < m.params@.len()
                &&& m.params@[index as int].required
                &&& lookup(rec@, m.params@[index as int].id@) is None
                &&& forall|k: int|
                    0 <= k < index && (#[trigger] m.params@[k]).required ==> lookup(
                        rec@,
                        m.params@[k].id@,
                    ) is Some
            },
        },
{
    let mut out: Vec<u64> = Vec::new();
    let mut j: usize = 0;
    while j < m.params.len()
        invariant
            j <= m.params@.len(),
            out@.len() == j,
            forall|k: int|
                0 <= k < j ==> out@[k] == value_or(
                    rec@,
                    (#[trigger] m.params@[k]).id@,
                    m.params@[k].default_bits,
                ),
            forall|k: int|
                0 <= k < j && (#[trigger] m.params@[k]).required ==> lookup(
                    rec@,
                    m.params@[k].id@,
                ) is Some,
        decreases m.params@.len() - j,
    {
        match record_lookup(rec, &m.params[j].id) {
            Some(v) => {
                out.push(v);
            },
            None => {
                if m.params[j].required {
                    return Err(InputError::MissingParameter { index: j });
                }
                out.push(m.params[j].default_bits);
            },
        }
        j += 1;
    }
    Ok(out)
}

/// Resolves the initial state vector: the recorded override for a
/// compartment's identifier where one exists, the model's default initial
/// amount otherwise.  Index order is the species-table order.
pub fn resolve_initial_state(m: &Model, overrides: &Vec<(String, u64)>) -> (y0: Vec<u64>)
    ensures
        y0@.len() == m.species@.len(),
        forall|i: int|
            0 <= i < m.species@.len() ==> y0@[i] == value_or(
                overrides@,
                (#[trigger] m.species@[i]).id@,
                m.species@[i].initial_bits,
            ),
{
    let mut y0: Vec<u64> = Vec::new();
    let mut i: usize = 0;
    while i < m.species.len()
        invariant
            i <= m.species@.len(),
            y0@.len() == i,
            forall|k: int|
                0 <= k < i ==> y0@[k] == value_or(
                    overrides@,
                    (#[trigger] m.species@[k]).id@,
                    m.species@[k].initial_bits,
                ),
        decreases m.species@.len() - i,
    {
        match record_lookup(overrides, &m.species[i].id) {
            Some(v) => {
                y0.push(v);
            },
            None => {
                y0.push(m.species[i].initial_bits);
            },
        }
        i += 1;
    }
    y0
}

/// Resolves the stop time: the recorded `final_time` value where one
/// exists, the model's default otherwise.
pub fn resolve_final_time(m: &Model, rec: &Vec<(String, u64)>) -> (tf: u64)
    ensures
        tf == value_or(rec@, "final_time"@, m.default_final_time_bits),
{
    let key = crate::model::final_time_key();
    match record_lookup(rec, &key) {
        Some(v) => v,
        None => m.default_final_time_bits,
    }
}

/// The record the default-parameter query hands out: every parameter of
/// the table with its default value, followed by the default stop time
/// under the reserved `final_time` key.
pub fn default_record(m: &Model) -> (r: Vec<(String, u64)>)
    ensures
        r@.len() == m.params@.len() + 1,
        forall|j: int|
            0 <= j < m.params@.len() ==> (#[trigger] r@[j]).0@ == m.params@[j].id@ && r@[j].1
                == m.params@[j].default_bits,
        r@[m.params@.len() as int].0@ == "final_time"@,
        r@[m.params@.len() as int].1 == m.default_final_time_bits,
{
    let mut r: Vec<(String, u64)> = Vec::new();
    let mut j: usize = 0;
    while j < m.params.len()
        invariant
            j <= m.params@.len(),
            r@.len() == j,
            forall|k: int|
                0 <= k < j ==> (#[trigger] r@[k]).0@ == m.params@[k].id@ && r@[k].1
                    == m.params@[k].default_bits,
        decreases m.params@.len() - j,
    {
        r.push((m.params[j].id.clone(), m.params[j].default_bits));
        j += 1;
    }
    r.push((crate::model::final_time_key(), m.default_final_time_bits));
    r
}

/// Everything resolution produces for one run: the table-aligned
/// parameter values, the initial state in species order, and the stop
/// time.
pub struct RunSetup {
    pub param_values: Vec<u64>,
    pub initial_state: Vec<u64>,
    pub final_time_bits: u64,
}

/// The validation phase of a run.
///
/// Resolves the parameter record, the initial-state overrides and the
/// stop time against the model, before any integration begins.  Fails
/// exactly when a required parameter is missing, naming the first table
/// entry the record omits.
pub fn prepare_run(m: &Model, rec: &Vec<(String, u64)>, overrides: &Vec<(String, u64)>) -> (r:
    Result<RunSetup, InputError>)
    ensures
        r is Ok <==> required_present(m.params@, rec@),
        match r {
            Ok(s) => {
                &&& s.param_values@.len() == m.params@.len()
                &&& forall|j: int|
                    0 <= j < m.params@.len() ==> s.param_values@[j] == value_or(
                        rec@,
                        (#[trigger] m.params@[j]).id@,
                        m.params@[j].default_bits,
                    )
                &&& s.initial_state@.len() == m.species@.len()
                &&& forall|i: int|
                    0 <= i < m.species@.len() ==> s.initial_state@[i] == value_or(
                        overrides@,
                        (#[trigger] m.species@[i]).id@,
                        m.species@[i].initial_bits,
                    )
                &&& s.final_time_bits == value_or(rec@, "final_time"@, m.default_final_time_bits)
            },
            Err(e) => {
                &&& e matches InputError::MissingParameter { index }
                &&& (index as int) < m.params@.len()
                &&& m.params@[index as int].required
                &&& lookup(rec@, m.params@[index as int].id@) is None
                &&& forall|k: int|
                    0 <= k < index && (#[trigger] m.params@[k]).required ==> lookup(
                        rec@,
                        m.params@[k].id@,
                    ) is Some
            },
        },
{
    let param_values = match resolve_parameters(m, rec) {
        Ok(v) => v,
        Err(e) => {
            return Err(e);
        },
    };
    let initial_state = resolve_initial_state(m, overrides);
    let final_time_bits = resolve_final_time(m, rec);
    Ok(RunSetup { param_values, initial_state, final_time_bits })
}

/// Determinism of resolution: the resolution contract pins its result,
/// so any two table-aligned resolved vectors for the same model and the
/// same record are equal.
pub proof fn lemma_resolution_deterministic(
    m: Model,
    rec: Seq<(String, u64)>,
    v1: Seq<u64>,
    v2: Seq<u64>,
)
    requires
        v1.len() == m.params@.len(),
        v2.len() == m.params@.len(),
        forall|j: int|
            0 <= j < m.params@.len() ==> v1[j] == value_or(
                rec,
                (#[trigger] m.params@[j]).id@,
                m.params@[j].default_bits,
            ),
        forall|j: int|
            0 <= j < m.params@.len() ==> v2[j] == value_or(
                rec,
                (#[trigger] m.params@[j]).id@,
                m.params@[j].default_bits,
            ),
    ensures
        v1 == v2,
{
    assert forall|j: int| 0 <= j < v1.len() implies v1[j] == v2[j] by {
        assert(v1[j] == value_or(rec, m.params@[j].id@, m.params@[j].default_bits));
        assert(v2[j] == value_or(rec, m.params@[j].id@, m.params@[j].default_bits));
    }
    assert(v1 =~= v2);
}

/// Default round trip: feeding the default-parameter record of a
/// well-formed model back into resolution succeeds, reproduces every
/// default value, and keeps the default stop time.
pub proof fn lemma_default_round_trip(m: Model, rec: Seq<(String, u64)>)
    requires
        m.wf(),
        rec.len() == m.params@.len() + 1,
        forall|j: int|
            0 <= j < m.params@.len() ==> (#[trigger] rec[j]).0@ == m.params@[j].id@ && rec[j].1
                == m.params@[j].default_bits,
        rec[m.params@.len() as int].0@ == "final_time"@,
        rec[m.params@.len() as int].1 == m.default_final_time_bits,
    ensures
        required_present(m.params@, rec),
        forall|j: int|
            0 <= j < m.params@.len() ==> value_or(
                rec,
                (#[trigger] m.params@[j]).id@,
                m.params@[j].default_bits,
            ) == m.params@[j].default_bits,
        value_or(rec, "final_time"@, m.default_final_time_bits) == m.default_final_time_bits,
{
    assert forall|j: int| 0 <= j < m.params@.len() implies lookup(
        rec,
        (#[trigger] m.params@[j]).id@,
    ) == Some(m.params@[j].default_bits) by {
        assert forall|k: int| 0 <= k < j implies (#[trigger] rec[k]).0@ != m.params@[j].id@ by {
            assert(rec[k].0@ == m.params@[k].id@);
        }
        lemma_lookup_first_match(rec, m.params@[j].id@, j);
    }
    let last = m.params@.len() as int;
    assert forall|k: int| 0 <= k < last implies (#[trigger] rec[k]).0@ != "final_time"@ by {
        assert(rec[k].0@ == m.params@[k].id@);
        assert(m.params@[k].id@ != "final_time"@);
    }
    lemma_lookup_first_match(rec, "final_time"@, last);
}

} // verus!
