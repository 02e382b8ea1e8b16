//! One stored sensor report.

use crate::clock::Timestamp;
use crate::measurements::Measurements;
use vstd::prelude::*;

verus! {

/// What one reporter sent at one time, as the history keeps it.
#[derive(Debug)]
pub struct SensorData {
    /// The identity of the agent that sent the report.
    pub reporter: String,
    pub values: Measurements,
    /// When the report arrived here, by the local monotonic clock.
    pub received: Timestamp,
}

/// The mathematical content of a `SensorData`.
pub struct SensorDataView {
    pub reporter: Seq<char>,
    pub values: Map<Seq<char>, Seq<char>>,
    pub received: Timestamp,
}

impl View for SensorData {
    type V = SensorDataView;

    open spec fn view(&self) -> SensorDataView {
        SensorDataView {
            reporter: self.reporter@,
            values: self.values@,
            received: self.received,
        }
    }
}

impl Clone for SensorData {
    fn clone(&self) -> (copy: SensorData)
        ensures
            copy@ == self@,
    {
        SensorData {
            reporter: self.reporter.clone(),
            values: self.values.clone(),
            received: self.received,
        }
    }
}

} // verus!
