use vstd::prelude::*;

use crate::adapter::spec_add;
use crate::adapter::spec_zero;
use crate::adapter::PapiMeasurement;
use crate::engine::lemma_lookup_nonnegative;
use crate::engine::RunningEventSet;
use crate::engine::StubEngine;

verus! {

/// Combining two measured values is commutative: a batch's count may be
/// folded into the running sum from either side.
pub proof fn lemma_add_commutative(a: int, b: int)
    ensures
        spec_add(a, b) == spec_add(b, a),
{
}

/// Combining measured values is associative: batches may be summed in
/// any grouping.
pub proof fn lemma_add_associative(a: int, b: int, c: int)
    ensures
        spec_add(spec_add(a, b), c) == spec_add(a, spec_add(b, c)),
{
}

/// The zero value is a left and right identity for combination.
pub proof fn lemma_zero_identity(v: int)
    ensures
        spec_add(spec_zero(), v) == v,
        spec_add(v, spec_zero()) == v,
{
}

/// Every event a well-formed engine recognizes is bound to a
/// non-negative count.
pub proof fn lemma_recognized_count_nonnegative(engine: StubEngine, name: Seq<char>)
    requires
        engine.wf(),
        engine.recognizes(name),
    ensures
        engine.count_of(name) >= 0,
{
    lemma_lookup_nonnegative(engine.table(), name);
}

/// A full measurement cycle against a well-formed engine yields the
/// engine's count for the tracked event, hence a non-negative value.
///
/// The hypotheses on `m` and `s` are exactly what constructing the
/// adapter for a recognized event and starting a session through it
/// guarantee, so every construct–start–end chain measures the engine's
/// configured count.
pub proof fn lemma_measured_value_nonnegative(
    engine: StubEngine,
    name: Seq<char>,
    m: PapiMeasurement,
    s: RunningEventSet,
)
    requires
        engine.wf(),
        engine.recognizes(name),
        m.shape_ok(),
        m.spec_event() == name,
        m.spec_count() == engine.count_of(name),
        s.spec_event() == m.spec_event(),
        s.spec_count() == m.spec_count(),
    ensures
        m.spec_end_value(s.spec_event(), s.spec_count()) == engine.count_of(name),
        m.spec_end_value(s.spec_event(), s.spec_count()) >= 0,
{
    lemma_recognized_count_nonnegative(engine, name);
}

/// Sessions derived from one adapter do not interfere: any two running
/// sessions started from the adapter's ready session measure the same
/// value — the adapter's configured count — no matter how many
/// duplicates are made or in what order the cycles run.
pub proof fn lemma_independent_sessions(
    m: PapiMeasurement,
    s1: RunningEventSet,
    s2: RunningEventSet,
)
    requires
        m.shape_ok(),
        s1.spec_event() == m.spec_event(),
        s1.spec_count() == m.spec_count(),
        s2.spec_event() == m.spec_event(),
        s2.spec_count() == m.spec_count(),
    ensures
        m.spec_end_value(s1.spec_event(), s1.spec_count()) == m.spec_count(),
        m.spec_end_value(s2.spec_event(), s2.spec_count()) == m.spec_count(),
        m.spec_end_value(s1.spec_event(), s1.spec_count()) == m.spec_end_value(
            s2.spec_event(),
            s2.spec_count(),
        ),
{
}

} // verus!
