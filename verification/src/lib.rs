//! Typed orchestration of the Mustang command-line engine.
//!
//! The library holds every decision about a run of the engine and performs
//! none of its effects: [`defs`] is the closed parameter model, [`file_handle`]
//! the handles on input and output files and the claim of a destination,
//! [`cli`] the command runner that assembles an invocation and judges how
//! it ended, [`error`] the failures all of them report. Paths are text;
//! whoever drives the library resolves them, looks at the file system and
//! starts the process, and tells the library what happened.

pub mod cli;
pub mod defs;
pub mod error;
pub mod file_handle;
pub mod file_utils;
pub mod path;
pub mod target;
pub mod text;

pub use cli::{Invocation, MustangCLI, ProcessOutput, RunnerMustangCLI};
