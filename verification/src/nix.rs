//! Describe Nix calls with a builder, turn them into command lines, and
//! interpret what the Nix commands leave behind.

pub mod argstrs;
pub mod argument;
pub mod error;
pub mod laws;
pub mod lines;
pub mod opts;
pub mod outcome;
pub mod path;
pub mod promises;
pub mod status;

pub use self::argument::Argument;
pub use self::error::{BuildError, EvaluationError, ExecuteError, OnePathError};
pub use self::lines::split_lines;
pub use self::opts::{CallOpts, Invocation};
pub use self::outcome::{on_stderr, store_paths, Build, Executed, StderrAction};
pub use self::path::{GcRootTempDir, StorePath};
pub use self::status::ExitStatus;
