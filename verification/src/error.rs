use vstd::prelude::*;

verus! {

/// A failure while setting up or driving a counter-measurement session.
///
/// Construction-time failures (`Setup`) are recoverable by the caller;
/// every per-measurement failure is meant to be escalated loudly by the
/// harness rather than papered over with a fabricated reading.
#[derive(Clone, Copy, Debug, PartialEq, Eq)]
pub enum MeasurementError {
    /// The engine does not recognize the requested event name.
    Setup,
    /// A ready session could not be duplicated.
    Duplication,
    /// A ready session could not transition into the running state.
    Start,
    /// A running session could not be stopped into the given sample.
    Stop,
    /// A stopped session yielded a sample with no counter values.
    EmptySample,
}

impl MeasurementError {
    /// The diagnostic text for this failure, naming the step that failed.
    pub open spec fn spec_message(self) -> Seq<char> {
        match self {
            MeasurementError::Setup => "failed to set up a counter event set"@,
            MeasurementError::Duplication => "failed to duplicate a ready counter event set"@,
            MeasurementError::Start => "failed to start a counter event set"@,
            MeasurementError::Stop => "failed to stop a counter event set"@,
            MeasurementError::EmptySample => "counter sample is empty"@,
        }
    }

    /// A human-readable description of which measurement step failed.
    pub fn message(&self) -> (r: String)
        ensures
            r@ == self.spec_message(),
    {
        match self {
            MeasurementError::Setup => "failed to set up a counter event set".to_owned(),
            MeasurementError::Duplication => "failed to duplicate a ready counter event set".to_owned(),
            MeasurementError::Start => "failed to start a counter event set".to_owned(),
            MeasurementError::Stop => "failed to stop a counter event set".to_owned(),
            MeasurementError::EmptySample => "counter sample is empty".to_owned(),
        }
    }
}

} // verus!
