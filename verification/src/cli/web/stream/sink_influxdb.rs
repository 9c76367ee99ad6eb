//! The InfluxDB sink: what is written for each DAQ reading.

use vstd::prelude::*;

use crate::daq::DaqData;
use crate::points::{daq_data_to_points, is_point_of, MeasurementPoint};
use crate::text::{decimal, decimal_string};

verus! {

/// Where to write: the server, the token, and optionally the bucket and the
/// organisation.
#[derive(Debug, Clone, PartialEq)]
pub struct Options {
    pub url: String,
    pub token: String,
    pub bucket: Option<String>,
    pub org: Option<String>,
}

/// What is written for one reading: its points, with the time of reception
/// in milliseconds since the Unix epoch, in decimal.
#[derive(Debug, Clone, PartialEq)]
pub struct WriteBatch {
    pub points: Vec<MeasurementPoint>,
    pub timestamp: String,
}

/// What is written for the reading `data` received at `now_millis`.
pub fn write_batch(data: DaqData, now_millis: u128) -> (r: WriteBatch)
    ensures
        r.points@.len() == data.values@.len(),
        forall|i: int| 0 <= i < r.points@.len() ==> is_point_of(#[trigger] r.points@[i], data.values@[i]),
        r.timestamp@ == decimal(now_millis as nat),
{
    let points = daq_data_to_points(data);
    let timestamp = decimal_string(now_millis);
    WriteBatch { points, timestamp }
}

} // verus!
