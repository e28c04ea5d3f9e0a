//! Iteration control engine for a spec-driven build/review/fix loop.
//!
//! The crate verifies the stateful core of the loop: the task lifecycle
//! tracker (`tracker`, `status`), the stall-detection circuit breaker
//! (`breaker`), the session record model and resume checkpoint
//! (`session`), the agent-output parsers (`agent`), the prompt and log
//! builders (`prompts`, `ui`, `util`), the configuration merge rules
//! (`config`, `cli`), and the controller that sequences build, review and
//! fix phases and decides the run's terminal exit (`controller`).
//!
//! The crate performs no I/O itself: a caller owns the files, the clock,
//! the version-control queries and the agent process, and feeds their
//! results in as plain values.

pub mod agent;
pub mod breaker;
pub mod cli;
pub mod config;
pub mod controller;
pub mod prompts;
pub mod session;
pub mod status;
pub mod text;
pub mod tracker;
pub mod ui;
pub mod util;

use vstd::prelude::*;

verus! {

} // verus!
