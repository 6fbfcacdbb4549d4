use vstd::prelude::*;

verus! {

/// Stateless presentation data for measured values, keyed by the name of
/// the tracked event. It is fixed at adapter construction and carries no
/// measurement logic: the harness uses it purely for display, labelling
/// counts with the event they belong to.
pub struct SampleFormatter {
    event_name: String,
}

impl SampleFormatter {
    /// The event name the formatter labels values with.
    pub closed spec fn spec_event(self) -> Seq<char> {
        self.event_name@
    }

    /// A formatter labelling values with the given event name.
    pub fn new(event_name: &str) -> (r: SampleFormatter)
        ensures
            r.spec_event() == event_name@,
    {
        SampleFormatter { event_name: event_name.to_owned() }
    }

    /// The event name used as the unit label for measured values.
    pub fn event_name(&self) -> (r: &str)
        ensures
            r@ == self.spec_event(),
    {
        self.event_name.as_str()
    }
}

} // verus!
