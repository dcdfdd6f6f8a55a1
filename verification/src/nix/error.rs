//! What can go wrong between asking Nix for something and getting it.

use vstd::prelude::*;
use vstd::std_specs::convert::FromSpecImpl;

use super::status::ExitStatus;

verus! {

/// `std::io::Error`, carried along; the one thing ever asked of it is
/// [`not_found`].
#[verifier::external_type_specification]
#[verifier::external_body]
pub struct ExIoError(std::io::Error);

/// `serde_json::Error`, carried along.
#[verifier::external_type_specification]
#[verifier::external_body]
pub struct ExJsonError(serde_json::Error);

/// Whether the kind of an I/O error is `NotFound`.
pub uninterp spec fn not_found(error: std::io::Error) -> bool;

/// `std::io::Error::kind`, told apart into `NotFound` and everything else.
#[verifier::external_body]
fn is_not_found(error: &std::io::Error) -> (yes: bool)
    ensures
        yes == not_found(*error),
{
    matches!(error.kind(), std::io::ErrorKind::NotFound)
}

/// Errors met while running one of the Nix executables.
#[derive(Debug)]
pub enum ExecuteError {
    /// one of the nix executables not found
    NixNotFound,
    /// A system-level IO error occured while starting Nix.
    Io(std::io::Error),
}

impl ExecuteError {
    /// What a failure to start the process means.
    pub open spec fn of_spawn(error: std::io::Error) -> ExecuteError {
        if not_found(error) {
            ExecuteError::NixNotFound
        } else {
            ExecuteError::Io(error)
        }
    }

    /// Classify a failure to start the process.
    pub fn from_spawn(error: std::io::Error) -> (classified: ExecuteError)
        ensures
            classified == ExecuteError::of_spawn(error),
    {
        if is_not_found(&error) {
            ExecuteError::NixNotFound
        } else {
            ExecuteError::Io(error)
        }
    }
}

/// Possible error conditions encountered when executing Nix evaluation commands.
#[derive(Debug)]
pub enum EvaluationError {
    /// A system-level IO error occured while executing Nix.
    Io(std::io::Error),

    /// Nix commands not on PATH
    NixNotFound,

    /// Nix execution failed.
    ExecutionFailed(ExitStatus),

    /// The data returned from nix-instantiate did not match the
    /// data type you expect.
    Decoding(serde_json::Error),
}

impl EvaluationError {
    /// The error for a Nix process that ended badly.
    pub fn from_status(status: ExitStatus) -> (error: EvaluationError)
        requires
            !status.is_success(),
        ensures
            error == EvaluationError::ExecutionFailed(status),
    {
        EvaluationError::ExecutionFailed(status)
    }
}

impl From<std::io::Error> for EvaluationError {
    fn from(e: std::io::Error) -> (error: EvaluationError) {
        EvaluationError::Io(e)
    }
}

impl FromSpecImpl<std::io::Error> for EvaluationError {
    open spec fn obeys_from_spec() -> bool {
        true
    }

    open spec fn from_spec(e: std::io::Error) -> EvaluationError {
        EvaluationError::Io(e)
    }
}

impl From<ExecuteError> for EvaluationError {
    fn from(e: ExecuteError) -> (error: EvaluationError) {
        match e {
            ExecuteError::NixNotFound => EvaluationError::NixNotFound,
            ExecuteError::Io(e) => EvaluationError::from(e),
        }
    }
}

impl FromSpecImpl<ExecuteError> for EvaluationError {
    open spec fn obeys_from_spec() -> bool {
        true
    }

    open spec fn from_spec(e: ExecuteError) -> EvaluationError {
        match e {
            ExecuteError::NixNotFound => EvaluationError::NixNotFound,
            ExecuteError::Io(e) => EvaluationError::Io(e),
        }
    }
}

impl From<serde_json::Error> for EvaluationError {
    fn from(e: serde_json::Error) -> (error: EvaluationError) {
        EvaluationError::Decoding(e)
    }
}

impl FromSpecImpl<serde_json::Error> for EvaluationError {
    open spec fn obeys_from_spec() -> bool {
        true
    }

    open spec fn from_spec(e: serde_json::Error) -> EvaluationError {
        EvaluationError::Decoding(e)
    }
}

/// Possible error conditions encountered when executing Nix build commands.
#[derive(Debug)]
pub enum BuildError {
    /// A system-level IO error occured while executing Nix.
    Io(std::io::Error),

    /// Nix commands not on PATH
    NixNotFound,

    /// Nix execution failed.
    ExecutionFailed(ExitStatus),

    /// Build produced no paths
    NoResult,
}

impl BuildError {
    /// The error for a Nix process that ended badly.
    pub fn from_status(status: ExitStatus) -> (error: BuildError)
        requires
            !status.is_success(),
        ensures
            error == BuildError::ExecutionFailed(status),
    {
        BuildError::ExecutionFailed(status)
    }
}

impl From<std::io::Error> for BuildError {
    fn from(e: std::io::Error) -> (error: BuildError) {
        BuildError::Io(e)
    }
}

impl FromSpecImpl<std::io::Error> for BuildError {
    open spec fn obeys_from_spec() -> bool {
        true
    }

    open spec fn from_spec(e: std::io::Error) -> BuildError {
        BuildError::Io(e)
    }
}

impl From<ExecuteError> for BuildError {
    fn from(e: ExecuteError) -> (error: BuildError) {
        match e {
            ExecuteError::NixNotFound => BuildError::NixNotFound,
            ExecuteError::Io(e) => BuildError::from(e),
        }
    }
}

impl FromSpecImpl<ExecuteError> for BuildError {
    open spec fn obeys_from_spec() -> bool {
        true
    }

    open spec fn from_spec(e: ExecuteError) -> BuildError {
        match e {
            ExecuteError::NixNotFound => BuildError::NixNotFound,
            ExecuteError::Io(e) => BuildError::Io(e),
        }
    }
}

/// Possible error conditions encountered when executing a Nix build
/// and expecting a single result
#[derive(Debug)]
pub enum OnePathError {
    /// Too many paths were returned
    TooManyResults,

    /// Standard Build Error results
    Build(BuildError),
}

impl From<BuildError> for OnePathError {
    fn from(e: BuildError) -> (error: OnePathError) {
        OnePathError::Build(e)
    }
}

impl FromSpecImpl<BuildError> for OnePathError {
    open spec fn obeys_from_spec() -> bool {
        true
    }

    open spec fn from_spec(e: BuildError) -> OnePathError {
        OnePathError::Build(e)
    }
}

} // verus!
