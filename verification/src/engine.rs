use vstd::prelude::*;

use crate::error::MeasurementError;

verus! {

/// First match of `name` among `entries`, front to back, as the engine's
/// lookup resolves an event name to its synthetic count.
pub open spec fn lookup(entries: Seq<(String, i64)>, name: Seq<char>) -> Option<int>
    decreases entries.len(),
{
    if entries.len() == 0 {
        Option::None
    } else if entries[0].0@ == name {
        Option::Some(entries[0].1 as int)
    } else {
        lookup(entries.drop_first(), name)
    }
}

/// Whether some entry of `entries` carries the event called `name`.
pub open spec fn sample_has(entries: Seq<(String, i64)>, name: Seq<char>) -> bool {
    exists|j: int| 0 <= j < entries.len() && entries[j].0@ == name
}

/// A deterministic, in-memory counter-measurement engine.
///
/// It stands in for the hardware counter subsystem the adapter is built
/// against: each recognized event name is bound to a fixed, non-negative
/// synthetic count, which every session opened for that event reports
/// when it is stopped.
pub struct StubEngine {
    events: Vec<(String, i64)>,
}

impl StubEngine {
    /// The engine's event table: recognized names with their counts.
    pub closed spec fn table(self) -> Seq<(String, i64)> {
        self.events@
    }

    /// Every count in the table is non-negative, as accumulated hardware
    /// counter readings are.
    pub open spec fn wf(self) -> bool {
        forall|j: int| 0 <= j < self.table().len() ==> #[trigger] self.table()[j].1 >= 0
    }

    /// Whether the engine recognizes the event called `name`.
    pub open spec fn recognizes(self, name: Seq<char>) -> bool {
        lookup(self.table(), name) is Some
    }

    /// The synthetic count the engine reports for the event called `name`.
    pub open spec fn count_of(self, name: Seq<char>) -> int {
        match lookup(self.table(), name) {
            Option::Some(c) => c,
            Option::None => 0,
        }
    }

    /// An engine that recognizes no event at all.
    pub fn new() -> (r: StubEngine)
        ensures
            r.table().len() == 0,
            r.wf(),
    {
        StubEngine { events: Vec::new() }
    }

    /// Registers one more recognized event. The count models an
    /// accumulated hardware reading, so it must be non-negative.
    pub fn add_event(&mut self, name: &str, count: i64)
        requires
            count >= 0,
        ensures
            final(self).table().len() == old(self).table().len() + 1,
            final(self).table()[old(self).table().len() as int].0@ == name@,
            final(self).table()[old(self).table().len() as int].1 == count,
            forall|j: int|
                0 <= j < old(self).table().len() ==> final(self).table()[j] == old(self).table()[j],
            old(self).wf() ==> final(self).wf(),
    {
        self.events.push((name.to_owned(), count));
    }

    /// Asks the engine for a ready session tracking exactly the named
    /// event: the engine-side half of adapter construction.
    pub fn open_event_set(&self, event_name: &str) -> (r: Result<ReadyEventSet, MeasurementError>)
        ensures
            match r {
                Ok(ready) => self.recognizes(event_name@) && ready.spec_event() == event_name@
                    && ready.spec_count() == self.count_of(event_name@) && (self.wf()
                    ==> ready.spec_count() >= 0),
                Err(e) => e == MeasurementError::Setup && !self.recognizes(event_name@),
            },
    {
        let wanted: String = event_name.to_owned();
        let n = self.events.len();
        let mut i: usize = 0;
        proof {
            assert(self.events@.skip(0) =~= self.events@);
        }
        while i < n
            invariant
                i <= n,
                n == self.events@.len(),
                wanted@ == event_name@,
                lookup(self.events@.skip(i as int), event_name@) == lookup(
                    self.events@,
                    event_name@,
                ),
            decreases n - i,
        {
            if self.events[i].0 == wanted {
                let event = self.events[i].0.clone();
                let count = self.events[i].1;
                proof {
                    assert(self.events@.skip(i as int)[0] == self.events@[i as int]);
                }
                return Ok(ReadyEventSet { event, count });
            }
            proof {
                lemma_lookup_skip_step(self.events@, event_name@, i as int);
            }
            i = i + 1;
        }
        proof {
            assert(self.events@.skip(n as int).len() == 0);
        }
        Err(MeasurementError::Setup)
    }
}

/// Skipping past a non-matching entry leaves the lookup result unchanged.
proof fn lemma_lookup_skip_step(entries: Seq<(String, i64)>, name: Seq<char>, i: int)
    requires
        0 <= i < entries.len(),
        entries[i].0@ != name,
        lookup(entries.skip(i), name) == lookup(entries, name),
    ensures
        lookup(entries.skip(i + 1), name) == lookup(entries, name),
{
    assert(entries.skip(i)[0] == entries[i]);
    assert(entries.skip(i).drop_first() =~= entries.skip(i + 1));
}

/// A recognized, non-negative count stays non-negative through lookup.
pub proof fn lemma_lookup_nonnegative(entries: Seq<(String, i64)>, name: Seq<char>)
    requires
        forall|j: int| 0 <= j < entries.len() ==> #[trigger] entries[j].1 >= 0,
        lookup(entries, name) is Some,
    ensures
        match lookup(entries, name) {
            Option::Some(c) => c >= 0,
            Option::None => true,
        },
    decreases entries.len(),
{
    if entries.len() == 0 {
    } else if entries[0].0@ == name {
        assert(entries[0].1 >= 0);
    } else {
        assert forall|j: int| 0 <= j < entries.drop_first().len() implies #[trigger] entries.drop_first()[j].1
            >= 0 by {
            assert(entries.drop_first()[j] == entries[j + 1]);
        }
        lemma_lookup_nonnegative(entries.drop_first(), name);
    }
}

/// A prepared-but-not-started counter session, bound to a single event.
/// It is a read-only template: each measurement duplicates it and starts
/// the duplicate, so sessions never share mutable state.
pub struct ReadyEventSet {
    event: String,
    count: i64,
}

impl ReadyEventSet {
    /// The name of the single event this session tracks.
    pub closed spec fn spec_event(self) -> Seq<char> {
        self.event@
    }

    /// The count the engine will report when this session is stopped.
    pub closed spec fn spec_count(self) -> int {
        self.count as int
    }

    /// The tracked event's name.
    pub fn event_name(&self) -> (r: &str)
        ensures
            r@ == self.spec_event(),
    {
        self.event.as_str()
    }

    /// Explicit, fallible duplication of the session. The duplicate
    /// tracks the same event and reports the same count; duplication of
    /// the in-memory session never fails.
    pub fn try_clone(&self) -> (r: Result<ReadyEventSet, MeasurementError>)
        ensures
            match r {
                Ok(dup) => dup.spec_event() == self.spec_event() && dup.spec_count()
                    == self.spec_count(),
                Err(_) => false,
            },
    {
        Ok(ReadyEventSet { event: self.event.clone(), count: self.count })
    }

    /// Lays out the session's output shape in `sample`: one entry for the
    /// tracked event, with a zeroed count.
    pub fn init_sample(&self, sample: &mut Sample)
        ensures
            final(sample)@.len() == 1,
            final(sample)@[0].0@ == self.spec_event(),
            final(sample)@[0].1 == 0,
    {
        let mut entries: Vec<(String, i64)> = Vec::new();
        entries.push((self.event.clone(), 0i64));
        sample.entries = entries;
    }

    /// Transitions the session into the running state, consuming it. The
    /// running session carries the same event and count; starting the
    /// in-memory session never fails.
    pub fn start(self) -> (r: Result<RunningEventSet, MeasurementError>)
        ensures
            match r {
                Ok(run) => run.spec_event() == self.spec_event() && run.spec_count()
                    == self.spec_count(),
                Err(_) => false,
            },
    {
        Ok(RunningEventSet { event: self.event, count: self.count })
    }
}

/// A started counter session, actively accumulating counts. It must be
/// consumed exactly once by stopping it; ownership makes a second stop,
/// or a stop without a start, impossible to express.
pub struct RunningEventSet {
    event: String,
    count: i64,
}

impl RunningEventSet {
    /// The name of the single event this session tracks.
    pub closed spec fn spec_event(self) -> Seq<char> {
        self.event@
    }

    /// The count this session reports when stopped.
    pub closed spec fn spec_count(self) -> int {
        self.count as int
    }

    /// The tracked event's name.
    pub fn event_name(&self) -> (r: &str)
        ensures
            r@ == self.spec_event(),
    {
        self.event.as_str()
    }

    /// Stops the session, consuming it, and writes its accumulated count
    /// into every entry of `sample` that carries the session's event.
    /// A sample with no entry for the event cannot receive the reading:
    /// the stop fails loudly and leaves the sample unchanged, rather than
    /// letting a zeroed entry pass for a measurement.
    pub fn stop(self, sample: &mut Sample) -> (r: Result<(), MeasurementError>)
        ensures
            match r {
                Ok(_) => sample_has(old(sample)@, self.spec_event()) && final(sample)@.len() == old(
                    sample,
                )@.len() && forall|j: int|
                    0 <= j < old(sample)@.len() ==> (#[trigger] final(sample)@[j]).0@ == old(
                        sample,
                    )@[j].0@ && final(sample)@[j].1 as int == (if old(sample)@[j].0@
                        == self.spec_event() {
                        self.spec_count()
                    } else {
                        old(sample)@[j].1 as int
                    }),
                Err(e) => e == MeasurementError::Stop && !sample_has(
                    old(sample)@,
                    self.spec_event(),
                ) && final(sample)@ == old(sample)@,
            },
    {
        let n = sample.entries.len();
        let mut i: usize = 0;
        let mut found = false;
        while i < n
            invariant
                i <= n,
                n == sample.entries@.len(),
                sample.entries@.len() == old(sample)@.len(),
                forall|j: int| i <= j < n ==> sample.entries@[j] == old(sample)@[j],
                forall|j: int|
                    0 <= j < i ==> #[trigger] sample.entries@[j] == (
                    old(sample)@[j].0,
                    if old(sample)@[j].0@ == self.event@ {
                        self.count
                    } else {
                        old(sample)@[j].1
                    },
                ),
                found <==> exists|j: int| 0 <= j < i && old(sample)@[j].0@ == self.event@,
            decreases n - i,
        {
            if sample.entries[i].0 == self.event {
                proof {
                    assert(sample.entries@[i as int] == old(sample)@[i as int]);
                }
                let name_copy = sample.entries[i].0.clone();
                sample.entries[i] = (name_copy, self.count);
                found = true;
                proof {
                    assert(old(sample)@[i as int].0@ == self.event@);
                }
            } else {
                proof {
                    assert(sample.entries@[i as int] == old(sample)@[i as int]);
                    assert(old(sample)@[i as int].0@ != self.event@);
                }
            }
            i = i + 1;
        }
        if found {
            Ok(())
        } else {
            proof {
                assert forall|j: int| 0 <= j < n implies sample.entries@[j] == old(sample)@[j] by {
                    assert(old(sample)@[j].0@ != self.event@);
                    assert((old(sample)@[j].0, old(sample)@[j].1) == old(sample)@[j]);
                }
                assert(sample.entries@ =~= old(sample)@);
            }
            Err(MeasurementError::Stop)
        }
    }
}

/// A sample: the values a stopped session yielded, one entry per tracked
/// counter, in the session's fixed layout order.
pub struct Sample {
    entries: Vec<(String, i64)>,
}

impl Sample {
    /// The sample's entries: event names with their accumulated counts.
    pub closed spec fn view(self) -> Seq<(String, i64)> {
        self.entries@
    }

    /// How many counter entries the sample holds.
    pub fn len(&self) -> (r: usize)
        ensures
            r == self@.len(),
    {
        self.entries.len()
    }

    /// The event name of the entry at `i`.
    pub fn name_at(&self, i: usize) -> (r: &str)
        requires
            i < self@.len(),
        ensures
            r@ == self@[i as int].0@,
    {
        self.entries[i].0.as_str()
    }

    /// The accumulated count of the entry at `i`.
    pub fn value_at(&self, i: usize) -> (r: i64)
        requires
            i < self@.len(),
        ensures
            r == self@[i as int].1,
    {
        self.entries[i].1
    }

    /// The first counter value in the sample; an empty sample yields no
    /// value and fails loudly instead.
    pub fn first_value(&self) -> (r: Result<i64, MeasurementError>)
        ensures
            match r {
                Ok(v) => self@.len() > 0 && v == self@[0].1,
                Err(e) => e == MeasurementError::EmptySample && self@.len() == 0,
            },
    {
        if self.entries.len() > 0 {
            Ok(self.entries[0].1)
        } else {
            Err(MeasurementError::EmptySample)
        }
    }

    /// Duplicates the sample into a fresh, equal destination, so that a
    /// prototype's layout can be reused without rebuilding it.
    pub fn duplicate(&self) -> (r: Sample)
        ensures
            r@ == self@,
    {
        let n = self.entries.len();
        let mut entries: Vec<(String, i64)> = Vec::new();
        let mut i: usize = 0;
        while i < n
            invariant
                i <= n,
                n == self.entries@.len(),
                entries@ =~= self.entries@.take(i as int),
            decreases n - i,
        {
            let name_copy = self.entries[i].0.clone();
            entries.push((name_copy, self.entries[i].1));
            proof {
                assert((self.entries@[i as int].0, self.entries@[i as int].1)
                    == self.entries@[i as int]);
                assert(entries@ =~= self.entries@.take(i as int + 1));
            }
            i = i + 1;
        }
        proof {
            assert(self.entries@.take(n as int) =~= self.entries@);
        }
        Sample { entries }
    }
}

impl Default for Sample {
    /// The empty sample, the destination a session's layout is written
    /// into.
    fn default() -> (r: Sample)
        ensures
            r@.len() == 0,
    {
        Sample { entries: Vec::new() }
    }
}

} // verus!
