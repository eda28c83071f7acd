//! Collects diagnostic information from a host by running a configured set of
//! shell commands and gathering their results into a report.
//!
//! The crate holds the decision logic of the engine: what a command is, how one
//! execution attempt is classified, how a batch is partitioned into bounded
//! chunks and put back into input order, and how batches are composed into a
//! report. Spawning processes and threads is left to the caller, who performs
//! the actions that the state machines here ask for.

pub mod analysis;
pub mod cli;
pub mod command;
pub mod config;
pub mod exec;
pub mod model;
pub mod renderer;
pub mod runner;

pub use analysis::{Analysis, AnalysisReport, Context};
pub use command::{Command, CommandResult, Link};
pub use config::Config;
pub use renderer::{HbsRenderer, JsonRenderer};
pub use runner::{Runner, ThreadRunner};
