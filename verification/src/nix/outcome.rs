//! What the Nix commands left behind, and what that means for the caller.

use std::path::PathBuf;
use vec1::Vec1;
use vstd::prelude::*;

use super::argument::words;
use super::error::{BuildError, EvaluationError, ExecuteError, OnePathError};
use super::lines::{are_lines_of, contents, split_lines};
use super::opts::{CallOpts, Invocation};
use super::path::{joined_bytes, path_buf_bytes, GcRootTempDir, StorePath};
use super::status::ExitStatus;

verus! {

/// `vec1::Vec1`, known by its [`vec1_items`] alone.
#[verifier::external_type_specification]
#[verifier::external_body]
#[verifier::reject_recursive_types(I)]
pub struct ExVec1<I>(vec1::Vec1<I>);

/// The store paths that a `Vec1` holds, in order.
pub uninterp spec fn vec1_items(paths: Vec1<StorePath>) -> Seq<StorePath>;

/// `Vec1::from_vec` takes over the items of a vector, or hands the vector back
/// if it is empty.
#[verifier::external_body]
#[allow(deprecated)]
fn vec1_from_vec(paths: Vec<StorePath>) -> (made: Result<Vec1<StorePath>, Vec<StorePath>>)
    ensures
        match made {
            Ok(items) => paths@.len() > 0 && vec1_items(items) == paths@,
            Err(back) => paths@.len() == 0 && back == paths,
        },
{
    Vec1::from_vec(paths)
}

/// `Vec1::into_vec` hands out the items, of which there is always one.
#[verifier::external_body]
fn vec1_into_vec(paths: Vec1<StorePath>) -> (items: Vec<StorePath>)
    ensures
        items@ == vec1_items(paths),
        items@.len() > 0,
{
    paths.into_vec()
}

/// What running a command came to: either it could not be run, or there is
/// what was made of its standard output, and the status it ended with.
pub type Executed<T, E> = Result<(Result<T, E>, ExitStatus), ExecuteError>;

/// What an evaluation comes to. Its output counts only if Nix succeeded.
pub open spec fn evaluation_outcome<T>(executed: Executed<T, serde_json::Error>) -> Result<
    T,
    EvaluationError,
> {
    match executed {
        Err(ExecuteError::NixNotFound) => Err(EvaluationError::NixNotFound),
        Err(ExecuteError::Io(e)) => Err(EvaluationError::Io(e)),
        Ok((decoded, status)) => if !status.is_success() {
            Err(EvaluationError::ExecutionFailed(status))
        } else {
            match decoded {
                Ok(value) => Ok(value),
                Err(e) => Err(EvaluationError::Decoding(e)),
            }
        },
    }
}

/// What a build comes to. Its output counts only if Nix succeeded, and then
/// there has to be some.
pub open spec fn build_outcome(executed: Executed<Vec<StorePath>, std::io::Error>) -> Result<
    Seq<StorePath>,
    BuildError,
> {
    match executed {
        Err(ExecuteError::NixNotFound) => Err(BuildError::NixNotFound),
        Err(ExecuteError::Io(e)) => Err(BuildError::Io(e)),
        Ok((paths, status)) => if !status.is_success() {
            Err(BuildError::ExecutionFailed(status))
        } else {
            match paths {
                Ok(paths) => if paths@.len() == 0 {
                    Err(BuildError::NoResult)
                } else {
                    Ok(paths@)
                },
                Err(e) => Err(BuildError::Io(e)),
            }
        },
    }
}

/// What a build comes to if it is to have a single result.
pub open spec fn single_outcome(built: Result<Seq<StorePath>, BuildError>) -> Result<
    StorePath,
    OnePathError,
> {
    match built {
        Ok(paths) => if paths.len() == 0 {
            Err(OnePathError::Build(BuildError::NoResult))
        } else if paths.len() == 1 {
            Ok(paths[0])
        } else {
            Err(OnePathError::TooManyResults)
        },
        Err(e) => Err(OnePathError::Build(e)),
    }
}

/// The paths of a build, out of the way in which they are held.
pub open spec fn built_paths(
    built: Result<(Vec1<StorePath>, GcRootTempDir), BuildError>,
) -> Result<Seq<StorePath>, BuildError> {
    match built {
        Ok((paths, _)) => Ok(vec1_items(paths)),
        Err(e) => Err(e),
    }
}

impl<'a> CallOpts<'a> {
    /// The value that evaluating an expression came to: what running
    /// [`CallOpts::value_command`] and decoding its standard output gave.
    pub fn value<T>(executed: Executed<T, serde_json::Error>) -> (value: Result<
        T,
        EvaluationError,
    >)
        ensures
            value == evaluation_outcome(executed),
    {
        match executed {
            Err(e) => Err(EvaluationError::from(e)),
            Ok((result, status)) => if status.success() {
                match result {
                    Ok(value) => Ok(value),
                    Err(e) => Err(EvaluationError::from(e)),
                }
            } else {
                Err(EvaluationError::from_status(status))
            },
        }
    }

    /// The path to the one result of a build.
    ///
    /// Note, `path()` gives an error if there are multiple store paths
    /// returned by Nix.
    pub fn path(built: Result<(Vec1<StorePath>, GcRootTempDir), BuildError>) -> (path: Result<
        (StorePath, GcRootTempDir),
        OnePathError,
    >)
        ensures
            match path {
                Ok((path, gc_root)) => {
                    &&& single_outcome(built_paths(built)) == Ok::<_, OnePathError>(path)
                    &&& gc_root == built->Ok_0.1
                },
                Err(e) => single_outcome(built_paths(built)) == Err::<StorePath, _>(e),
            },
            built is Ok ==> path is Ok || path == Err::<(StorePath, GcRootTempDir), _>(
                OnePathError::TooManyResults,
            ),
    {
        let (pathsv1, gc_root) = match built {
            Ok(pair) => pair,
            Err(e) => {
                return Err(OnePathError::from(e));
            },
        };
        let mut paths: Vec<StorePath> = vec1_into_vec(pathsv1);
        match (paths.pop(), paths.pop()) {
            // Exactly zero
            (None, _) => Err(OnePathError::from(BuildError::NoResult)),
            // Exactly one
            (Some(path), None) => Ok((path, gc_root)),
            // More than one
            (Some(_), Some(_)) => Err(OnePathError::TooManyResults),
        }
    }

    /// The paths to the results of a build: what running
    /// [`CallOpts::paths_command`] and reading its standard output gave.
    ///
    /// Until `gc_root`, which is handed on, is dropped, a Nix garbage collect
    /// will not remove the store paths.
    pub fn paths(
        executed: Executed<Vec<StorePath>, std::io::Error>,
        gc_root: GcRootTempDir,
    ) -> (built: Result<(Vec1<StorePath>, GcRootTempDir), BuildError>)
        ensures
            built_paths(built) == build_outcome(executed),
            built matches Ok((_, kept)) ==> kept == gc_root,
    {
        let (paths, status) = match executed {
            Ok(pair) => pair,
            Err(e) => {
                return Err(BuildError::from(e));
            },
        };
        if status.success() {
            match paths {
                Ok(paths) => match vec1_from_vec(paths) {
                    Ok(vec1) => Ok((vec1, gc_root)),
                    Err(_) => Err(BuildError::NoResult),
                },
                Err(e) => Err(BuildError::from(e)),
            }
        } else {
            Err(BuildError::from_status(status))
        }
    }
}

/// A build under way: the GC root that guards its results, and the link in it
/// that makes Nix keep them.
pub struct Build {
    gc_root: GcRootTempDir,
    out_link: PathBuf,
}

impl Build {
    /// The GC root that guards the results.
    pub closed spec fn gc_root(self) -> GcRootTempDir {
        self.gc_root
    }

    #[verifier::type_invariant]
    spec fn links_into_gc_root(self) -> bool {
        path_buf_bytes(self.out_link) == joined_bytes(self.gc_root@, "result"@)
    }

    /// A build whose results `gc_root` guards.
    pub fn new(gc_root: GcRootTempDir) -> (build: Build)
        ensures
            build.gc_root() == gc_root,
    {
        let out_link: PathBuf = gc_root.out_link();
        Build { gc_root, out_link }
    }

    /// The command that builds `opts` and links the results into the GC root.
    pub fn command<'b>(&'b self, opts: &'b CallOpts<'_>) -> (command: Invocation<'b>)
        ensures
            command.program@ == "nix-build"@,
            words(command.arguments@) == opts@.paths_arguments(
                joined_bytes(self.gc_root()@, "result"@),
            ),
            opts@.valid(),
    {
        proof {
            use_type_invariant(self);
        }
        opts.paths_command(self.out_link.as_path())
    }

    /// The paths to the results, which the GC root handed back guards: what
    /// running [`Build::command`] and reading its standard output gave.
    pub fn finish(self, executed: Executed<Vec<StorePath>, std::io::Error>) -> (built: Result<
        (Vec1<StorePath>, GcRootTempDir),
        BuildError,
    >)
        ensures
            built_paths(built) == build_outcome(executed),
            built matches Ok((_, kept)) ==> kept == self.gc_root(),
    {
        CallOpts::paths(executed, self.gc_root)
    }
}

/// `path` is what `to_path` makes of `line`.
pub open spec fn is_path_of_line<F: Fn(Vec<u8>) -> PathBuf>(
    to_path: F,
    line: Seq<u8>,
    path: StorePath,
) -> bool {
    exists|bytes: Vec<u8>, made: PathBuf|
        {
            &&& bytes@ == line
            &&& #[trigger] call_ensures(to_path, (bytes,), made)
            &&& path.path_buf() == made
        }
}

/// The store paths that a build printed, one on each line of `output`.
/// `to_path` makes an operating system path of the bytes of a line.
pub fn store_paths<F: Fn(Vec<u8>) -> PathBuf>(
    output: Result<Vec<u8>, std::io::Error>,
    to_path: F,
) -> (paths: Result<Vec<StorePath>, std::io::Error>)
    requires
        forall|line: Vec<u8>| call_requires(to_path, (line,)),
    ensures
        output matches Err(e) ==> paths == Err::<Vec<StorePath>, _>(e),
        output matches Ok(output) ==> paths is Ok && exists|lines: Seq<Seq<u8>>|
            {
                &&& #[trigger] are_lines_of(lines, output@)
                &&& lines.len() == paths->Ok_0@.len()
                &&& forall|i: int|
                    0 <= i < lines.len() ==> is_path_of_line(
                        to_path,
                        #[trigger] lines[i],
                        paths->Ok_0@[i],
                    )
            },
{
    let output: Vec<u8> = match output {
        Ok(output) => output,
        Err(e) => {
            return Err(e);
        },
    };
    let lines: Vec<Vec<u8>> = split_lines(&output);
    let ghost given = lines@;
    let mut paths: Vec<StorePath> = Vec::new();
    for line in it: lines
        invariant
            it.seq() == given,
            forall|line: Vec<u8>| call_requires(to_path, (line,)),
            paths@.len() == it.index(),
            forall|i: int|
                0 <= i < paths@.len() ==> is_path_of_line(
                    to_path,
                    #[trigger] contents(given)[i],
                    paths@[i],
                ),
    {
        paths.push(StorePath::from(to_path(line)));
    }
    assert(are_lines_of(contents(given), output@));
    Ok(paths)
}

/// What to do about the next piece of Nix's log.
#[derive(Debug)]
pub enum StderrAction {
    /// The log has ended.
    Stop,
    /// Pass these lines on, in order, then read on.
    Send(Vec<Vec<u8>>),
    /// Nobody is listening: read on.
    Discard,
    /// The log that somebody is listening to cannot be read.
    Fail(std::io::Error),
}

/// Decide what to do about a piece of the log, which is empty only at its end.
/// `listening` tells whether the log goes anywhere.
pub fn on_stderr(listening: bool, read: Result<Vec<u8>, std::io::Error>) -> (action: StderrAction)
    ensures
        match read {
            Ok(bytes) => if bytes@.len() == 0 {
                action is Stop
            } else if listening {
                action matches StderrAction::Send(lines) && are_lines_of(
                    contents(lines@),
                    bytes@,
                )
            } else {
                action is Discard
            },
            Err(e) => if listening {
                action == StderrAction::Fail(e)
            } else {
                action is Discard
            },
        },
{
    match read {
        Ok(bytes) => if bytes.len() == 0 {
            StderrAction::Stop
        } else if listening {
            StderrAction::Send(split_lines(&bytes))
        } else {
            StderrAction::Discard
        },
        Err(e) => if listening {
            StderrAction::Fail(e)
        } else {
            StderrAction::Discard
        },
    }
}

} // verus!
