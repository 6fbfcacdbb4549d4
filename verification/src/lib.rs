//! A measurement adapter that lets a benchmarking harness collect
//! hardware-counter readings instead of wall-clock time.
//!
//! The adapter owns a prepared counter session and a prototype sample.
//! Each measurement duplicates the session, runs it across the measured
//! workload, and extracts the accumulated count for the single tracked
//! event. Counts are combined by plain integer addition.

pub mod adapter;
pub mod engine;
pub mod error;
pub mod formatter;
pub mod laws;

pub use adapter::PapiMeasurement;
pub use engine::ReadyEventSet;
pub use engine::RunningEventSet;
pub use engine::Sample;
pub use engine::StubEngine;
pub use error::MeasurementError;
pub use formatter::SampleFormatter;
