//! The command-line surface, as plain data. The caller parses the real
//! command line into these values.

use vstd::prelude::*;

verus! {

/// The whole invocation.
pub struct Cli {
    pub command: Option<Command>,
}

/// The subcommands the tool offers.
pub enum Command {
    /// Initialise the tool in the current project.
    Init(InitArgs),
    /// Run the build, review and fix loop.
    Run(RunArgs),
    /// Show the current progress per specification.
    Status,
    /// Show the version.
    Version,
}

/// Arguments of a run.
pub struct RunArgs {
    /// Specification directory; auto-detected when only one is active.
    pub spec: Option<String>,
    /// Iteration budget.
    pub max_loops: Option<u32>,
    /// Review-fix retries per task.
    pub max_review_fix_loops: Option<u32>,
    /// Task budget for this run.
    pub max_tasks: Option<u32>,
    /// Run a single build and review cycle.
    pub once: bool,
    /// Simulate the agent instead of invoking it.
    pub dry_run: bool,
    /// Build only, without review.
    pub skip_review: bool,
    /// Resume the last session.
    pub resume: bool,
    /// Show the full event stream.
    pub verbose: bool,
}

/// Arguments of initialisation.
pub struct InitArgs {
    /// Overwrite an existing configuration.
    pub force: bool,
    /// Skip the interactive questions and keep the detected values.
    pub no_wizard: bool,
    /// Explicit verification command.
    pub verify_cmd: Option<String>,
    /// Explicit test command.
    pub test_cmd: Option<String>,
}

} // verus!
