//! Where the diagnostic snapshot of the flight recorder goes.
use vstd::prelude::*;
use core::time::Duration;
use crate::kafka::{duration_of_secs, secs};
use crate::text::owned;

verus! {

/// The directory snapshots go to by default.
pub const DEFAULT_OUTPUT_DIR: &'static str = "/tmp/traces";

/// The file name of a snapshot.
pub const TRACE_FILE_NAME: &'static str = "flight_trace.out";

/// Settings of the flight recorder.
pub struct FlightRecorderConfig {
    /// Directory snapshots are written to.
    pub output_dir: String,
    /// How long recorded data is kept.
    pub min_age: Duration,
}

impl Default for FlightRecorderConfig {
    /// Snapshots in `/tmp/traces`, data kept ten minutes.
    fn default() -> (r: FlightRecorderConfig)
        ensures
            r.output_dir@ == DEFAULT_OUTPUT_DIR@,
            r.min_age == duration_of_secs(600),
    {
        FlightRecorderConfig { output_dir: owned(DEFAULT_OUTPUT_DIR), min_age: secs(600) }
    }
}

} // verus!
