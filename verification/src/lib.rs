//! Verified core of a client for Guntamatic heating devices: the data
//! acquisition (DAQ) model, the parameter-setting requests of the device's
//! web interface, the conversion of DAQ readings into InfluxDB points, and
//! the options, log level, duration parsing and exit decisions of the command
//! line tool.

pub mod text;
pub mod daq;
pub mod points;
pub mod api;
pub mod cli;
