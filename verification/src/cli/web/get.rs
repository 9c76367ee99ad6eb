//! Options of the `get` subcommand, which prints one DAQ reading.

use vstd::prelude::*;

verus! {

/// The `get` subcommand takes no options of its own.
#[derive(Debug, Clone, PartialEq)]
pub struct Options {}

} // verus!
