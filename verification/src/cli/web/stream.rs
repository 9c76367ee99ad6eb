//! Options of the `stream` subcommand, which streams DAQ readings to a sink.

pub mod sink_influxdb;

use vstd::prelude::*;

verus! {

/// Options of the `stream` subcommand: how long to wait between two
/// readings, and the sink to write to.
#[derive(Debug, PartialEq)]
pub struct Options {
    pub interval: std::time::Duration,
    pub influxdb: sink_influxdb::Options,
}

} // verus!
