use vstd::prelude::*;

use crate::engine::sample_has;
use crate::engine::ReadyEventSet;
use crate::engine::RunningEventSet;
use crate::engine::Sample;
use crate::engine::StubEngine;
use crate::error::MeasurementError;
use crate::formatter::SampleFormatter;

verus! {

/// The combination of two measured values: plain integer addition, so
/// that accumulating counts across batches is associative and
/// commutative.
pub open spec fn spec_add(a: int, b: int) -> int {
    a + b
}

/// The additive identity for measured values.
pub open spec fn spec_zero() -> int {
    0
}

/// A measurement adapter that lets a benchmarking harness collect
/// hardware-counter readings instead of wall-clock time.
///
/// The adapter is stateless across calls: it holds only the immutable
/// configuration captured at construction — a ready counter session for
/// the single tracked event, a prototype sample describing that
/// session's output shape, and a formatter keyed by the event name.
/// Each measurement duplicates the ready session, runs the duplicate
/// across the workload, and extracts the accumulated count.
pub struct PapiMeasurement {
    ready_event_set: ReadyEventSet,
    sample: Sample,
    sample_formatter: SampleFormatter,
}

impl PapiMeasurement {
    /// The name of the single tracked event.
    pub closed spec fn spec_event(self) -> Seq<char> {
        self.ready_event_set.spec_event()
    }

    /// The count the engine reports for each measurement taken through
    /// this adapter.
    pub closed spec fn spec_count(self) -> int {
        self.ready_event_set.spec_count()
    }

    /// The prototype sample's entries.
    pub closed spec fn spec_sample(self) -> Seq<(String, i64)> {
        self.sample@
    }

    /// The event name the adapter's formatter is keyed by.
    pub closed spec fn spec_formatter_event(self) -> Seq<char> {
        self.sample_formatter.spec_event()
    }

    /// The adapter's immutable configuration is consistent: the
    /// prototype sample holds exactly one zeroed entry for the tracked
    /// event, and the formatter is keyed by that event's name.
    pub open spec fn shape_ok(self) -> bool {
        &&& self.spec_sample().len() == 1
        &&& self.spec_sample()[0].0@ == self.spec_event()
        &&& self.spec_sample()[0].1 == 0
        &&& self.spec_formatter_event() == self.spec_event()
    }

    /// Well-formed: consistent shape and a non-negative configured
    /// count. Construction against a well-formed engine establishes
    /// this, and no call changes the adapter afterwards.
    pub open spec fn wf(self) -> bool {
        self.shape_ok() && self.spec_count() >= 0
    }

    /// The value a measurement extracts when a session tracking `event`
    /// with accumulated count `count` is stopped into a duplicate of the
    /// prototype sample: the count, if the sample's first entry carries
    /// that event; otherwise the first entry's unchanged value.
    pub open spec fn spec_end_value(self, event: Seq<char>, count: int) -> int {
        if self.spec_sample()[0].0@ == event {
            count
        } else {
            self.spec_sample()[0].1 as int
        }
    }

    /// Builds an adapter tracking exactly the named event against the
    /// given engine: asks the engine for a ready session, derives the
    /// prototype sample from it, and keys a formatter by the event name.
    /// Fails with a setup error, and only then, when the engine does not
    /// recognize the event.
    pub fn new(engine: &StubEngine, event_name: &str) -> (r: Result<
        PapiMeasurement,
        MeasurementError,
    >)
        ensures
            match r {
                Ok(m) => engine.recognizes(event_name@) && m.shape_ok() && m.spec_event()
                    == event_name@ && m.spec_count() == engine.count_of(event_name@) && (engine.wf()
                    ==> m.wf()),
                Err(e) => e == MeasurementError::Setup && !engine.recognizes(event_name@),
            },
    {
        let ready_event_set = match engine.open_event_set(event_name) {
            Ok(ready) => ready,
            Err(e) => {
                return Err(e);
            },
        };
        let mut sample = Sample::default();
        ready_event_set.init_sample(&mut sample);
        let sample_formatter = SampleFormatter::new(event_name);
        Ok(PapiMeasurement { ready_event_set, sample, sample_formatter })
    }

    /// Begins one measurement: duplicates the ready session and starts
    /// the duplicate, yielding an independent running session that
    /// carries the adapter's event and count. Duplicating and starting
    /// the in-memory session never fail, so a session is always owed.
    pub fn start(&self) -> (r: Result<RunningEventSet, MeasurementError>)
        ensures
            match r {
                Ok(run) => run.spec_event() == self.spec_event() && run.spec_count()
                    == self.spec_count(),
                Err(_) => false,
            },
    {
        let dup = match self.ready_event_set.try_clone() {
            Ok(d) => d,
            Err(e) => {
                return Err(e);
            },
        };
        match dup.start() {
            Ok(run) => Ok(run),
            Err(e) => Err(e),
        }
    }

    /// Finishes one measurement: duplicates the prototype sample, stops
    /// the running session into it, and extracts the first counter
    /// value. For a session produced by this adapter's `start`, the
    /// result is always the session's accumulated count. A foreign
    /// session whose event the prototype does not carry fails loudly
    /// with a stop error — never with a fabricated reading.
    pub fn end(&self, running_event_set: RunningEventSet) -> (r: Result<i64, MeasurementError>)
        ensures
            match r {
                Ok(v) => sample_has(self.spec_sample(), running_event_set.spec_event()) && v as int
                    == self.spec_end_value(
                    running_event_set.spec_event(),
                    running_event_set.spec_count(),
                ),
                Err(e) => e == MeasurementError::Stop && !sample_has(
                    self.spec_sample(),
                    running_event_set.spec_event(),
                ),
            },
            self.shape_ok() && running_event_set.spec_event() == self.spec_event() ==> (r matches Ok(
                v,
            ) && v as int == running_event_set.spec_count()),
    {
        let mut sample = self.sample.duplicate();
        match running_event_set.stop(&mut sample) {
            Ok(_) => sample.first_value(),
            Err(e) => Err(e),
        }
    }

    /// Combines two measured values by addition. The harness sums counts
    /// across batches; the sum must fit the value type, as a count does.
    pub fn add(&self, v1: &i64, v2: &i64) -> (r: i64)
        requires
            i64::MIN <= *v1 + *v2 <= i64::MAX,
        ensures
            r as int == spec_add(*v1 as int, *v2 as int),
    {
        *v1 + *v2
    }

    /// The additive identity for measured values.
    pub fn zero(&self) -> (r: i64)
        ensures
            r as int == spec_zero(),
    {
        0
    }

    /// The immutable formatter bound at construction.
    pub fn formatter(&self) -> (r: &SampleFormatter)
        ensures
            r.spec_event() == self.spec_formatter_event(),
    {
        &self.sample_formatter
    }

    /// The name of the tracked event.
    pub fn event_name(&self) -> (r: &str)
        ensures
            r@ == self.spec_event(),
    {
        self.ready_event_set.event_name()
    }
}

} // verus!
