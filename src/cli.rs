//! The command line: one command per run and a global tracing switch.
use vstd::prelude::*;

verus! {

/// The parsed command line.
pub struct Cli {
    /// Whether each request and response is traced.
    pub info: bool,
    pub command: Commands,
}

/// The three commands.
#[derive(PartialEq, Eq, Structural, Clone, Copy, Debug)]
pub enum Commands {
    /// Put a machine into maintenance mode; the id is asked for when absent.
    Maint { id: Option<u64> },
    /// List the operator's machines.
    List,
    /// Take an instance off the marketplace; the id is asked for when absent.
    Unlist { id: Option<u64> },
}

} // verus!
