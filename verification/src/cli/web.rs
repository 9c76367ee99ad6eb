//! Options of the tool's web subcommand.

pub mod get;
pub mod stream;

use vstd::prelude::*;

verus! {

/// An IP address: four bytes, or eight 16-bit segments.
#[derive(Debug, Clone, Copy, PartialEq, Eq, Structural)]
pub enum IpAddress {
    V4(u8, u8, u8, u8),
    V6(u16, u16, u16, u16, u16, u16, u16, u16),
}

/// Options for accessing a device over its web interface.
#[derive(Debug, PartialEq)]
pub struct Options {
    /// The IP address of the local network device to bind to.
    pub iface_addr: Option<IpAddress>,
    /// The address/IP of the Guntamatic device to talk to.
    pub addr: String,
    /// The key to authenticate with against the device.
    pub key: String,
    pub cmd: SubCmds,
}

/// The web subcommands.
#[derive(Debug, PartialEq)]
pub enum SubCmds {
    /// Stream DAQ data to one of various sinks.
    Stream(stream::Options),
    /// Get DAQ data and print it to stdout.
    Get(get::Options),
}

} // verus!
