//! The command surface of the orchestrator, as plain data: one parsed
//! invocation. Argument parsing itself happens outside the library; these
//! types carry what was asked for.

use vstd::prelude::*;

verus! {

/// The commands a caller can ask for.
#[derive(Debug, Clone, PartialEq)]
pub enum Commands {
    /// Create the configuration templates.
    Init,
    /// List tickets, optionally filtered by status, optionally interactive.
    Tickets { limit: Option<i32>, status: Option<String>, interactive: Option<bool> },
    /// Start work on a ticket: branch off and move it toward "In Progress".
    Start { ticket: String },
    /// Open a pull request for the current ticket branch.
    Pr,
    /// Sweep merged ticket branches and close their tickets out.
    Sync,
}

/// One parsed invocation; no command means only the usage hint is shown.
#[derive(Debug, Clone, PartialEq)]
pub struct Cli {
    pub command: Option<Commands>,
}

} // verus!
