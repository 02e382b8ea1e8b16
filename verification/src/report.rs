//! A sensor report as it arrives from the relay.

use crate::clock::Timestamp;
use crate::data::{SensorData, SensorDataView};
use crate::measurements::Measurements;
use vstd::prelude::*;

verus! {

/// One report of the push stream: who sent it, under which topic, and what
/// it measured.
#[derive(Debug)]
pub struct SensorReport {
    pub reporter: String,
    pub topic: String,
    pub sensors: Measurements,
    /// When the report arrived here. It is stamped locally on receipt and
    /// never taken from the wire.
    pub received: Timestamp,
}

/// The mathematical content of a `SensorReport`.
pub struct SensorReportView {
    pub reporter: Seq<char>,
    pub topic: Seq<char>,
    pub sensors: Map<Seq<char>, Seq<char>>,
    pub received: Timestamp,
}

impl SensorReportView {
    /// What the history keeps of the report: all but the topic.
    pub open spec fn stored(self) -> SensorDataView {
        SensorDataView { reporter: self.reporter, values: self.sensors, received: self.received }
    }
}

impl View for SensorReport {
    type V = SensorReportView;

    open spec fn view(&self) -> SensorReportView {
        SensorReportView {
            reporter: self.reporter@,
            topic: self.topic@,
            sensors: self.sensors@,
            received: self.received,
        }
    }
}

impl Clone for SensorReport {
    fn clone(&self) -> (copy: SensorReport)
        ensures
            copy@ == self@,
    {
        SensorReport {
            reporter: self.reporter.clone(),
            topic: self.topic.clone(),
            sensors: self.sensors.clone(),
            received: self.received,
        }
    }
}

impl SensorReport {
    /// The report as the history stores it.
    pub fn into_data(self) -> (data: SensorData)
        ensures
            data@ == self@.stored(),
    {
        SensorData { reporter: self.reporter, values: self.sensors, received: self.received }
    }
}

} // verus!
