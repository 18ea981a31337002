//! The command line of the aggregator, as plain data.
use vstd::prelude::*;

verus! {

/// Arguments of the `start` command (none).
#[derive(Debug, Clone, Copy, PartialEq, Eq, Structural)]
pub struct Start {}

/// The commands of the aggregator.
#[derive(Debug, Clone, Copy, PartialEq, Eq, Structural)]
pub enum Cmd {
    /// Load the store, follow the chain and serve queries.
    Start(Start),
}

/// The parsed command line.
#[derive(Debug, Clone, Copy, PartialEq, Eq, Structural)]
pub struct SolAggCmd {
    pub cmd: Cmd,
}

} // verus!
