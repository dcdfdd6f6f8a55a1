//! What callers get, stated of the functions themselves.

use std::path::{Path, PathBuf};
use std::sync::mpsc::Sender;
use tempfile::TempDir;
use vec1::Vec1;
use vstd::prelude::*;

use super::argument::{words, Argument, Word};
use super::error::{not_found, BuildError, EvaluationError, ExecuteError, OnePathError};
use super::laws::{
    law_argstr_place, law_arguments_layout, law_first_line, law_lines_are_unique,
    law_no_output_no_lines, law_paths_arguments_layout, law_unended_output_is_a_line,
    law_value_arguments_layout,
};
use super::lines::{are_lines_of, contents, split_lines};
use super::opts::{attribute_words, CallOpts, Invocation};
use super::outcome::{
    is_path_of_line, on_stderr, store_paths, vec1_items, Build, Executed, StderrAction,
};
use super::path::{
    joined_bytes, path_buf_bytes, path_bytes, temp_dir_bytes, GcRootTempDir, StorePath,
};
use super::status::ExitStatus;

verus! {

/// A call on an expression and nothing else passes the expression as it was
/// given and nothing else.
pub proof fn law_expression_is_passed<'a>(
    expr: &'a str,
    opts: CallOpts<'a>,
    arguments: Vec<Argument<'a>>,
)
    requires
        call_ensures(CallOpts::expression, (expr,), opts),
        call_ensures(CallOpts::command_arguments, (&opts,), arguments),
    ensures
        words(arguments@) == seq![Word::Text("--expr"@), Word::Text(expr@)],
        opts@.stderr is None,
{
    law_arguments_layout(opts@);
}

/// A call on a file and nothing else passes the path as it was given, behind
/// `--`, and nothing else.
pub proof fn law_file_is_passed<'a>(
    nix_file: &'a Path,
    opts: CallOpts<'a>,
    arguments: Vec<Argument<'a>>,
)
    requires
        call_ensures(CallOpts::file, (nix_file,), opts),
        call_ensures(CallOpts::command_arguments, (&opts,), arguments),
    ensures
        words(arguments@) == seq![Word::Text("--"@), Word::Path(path_bytes(nix_file))],
        opts@.stderr is None,
{
    law_arguments_layout(opts@);
}

/// Whatever is evaluated, the program and the first words are the same, and
/// the arguments common to all commands follow.
pub proof fn law_evaluation_command<'a>(
    opts: &'a CallOpts<'a>,
    common: Vec<Argument<'a>>,
    command: Invocation<'a>,
)
    requires
        call_ensures(CallOpts::command_arguments, (opts,), common),
        call_ensures(CallOpts::value_command, (opts,), command),
    ensures
        command.program@ == "nix-instantiate"@,
        words(command.arguments@) == seq![
            Word::Text("--eval"@),
            Word::Text("--json"@),
            Word::Text("--strict"@),
        ] + words(common@),
{
    law_value_arguments_layout(opts@);
}

/// Whatever is built, the program and the first words are the same but for the
/// link, which is the one given, and the arguments common to all commands
/// follow.
pub proof fn law_build_command<'a>(
    opts: &'a CallOpts<'a>,
    out_link: &'a Path,
    common: Vec<Argument<'a>>,
    command: Invocation<'a>,
)
    requires
        call_ensures(CallOpts::command_arguments, (opts,), common),
        call_ensures(CallOpts::paths_command, (opts, out_link), command),
    ensures
        command.program@ == "nix-build"@,
        words(command.arguments@) == seq![
            Word::Text("--out-link"@),
            Word::Path(path_bytes(out_link)),
        ] + words(common@),
{
    law_paths_arguments_layout(opts@, path_bytes(out_link));
}

/// What is read of a log that somebody listens to is passed on, cut into
/// lines; what nobody listens to is not.
pub proof fn law_log_is_passed_on(
    bytes: Vec<u8>,
    error: std::io::Error,
    heard: StderrAction,
    unheard: StderrAction,
    heard_error: StderrAction,
    unheard_error: StderrAction,
)
    requires
        call_ensures(on_stderr, (true, Ok::<Vec<u8>, std::io::Error>(bytes)), heard),
        call_ensures(on_stderr, (false, Ok::<Vec<u8>, std::io::Error>(bytes)), unheard),
        call_ensures(on_stderr, (true, Err::<Vec<u8>, std::io::Error>(error)), heard_error),
        call_ensures(on_stderr, (false, Err::<Vec<u8>, std::io::Error>(error)), unheard_error),
    ensures
        bytes@.len() == 0 ==> heard is Stop && unheard is Stop,
        bytes@.len() > 0 ==> heard is Send && are_lines_of(contents(heard->Send_0@), bytes@),
        bytes@.len() > 0 ==> unheard is Discard,
        heard_error == StderrAction::Fail(error),
        unheard_error is Discard,
{
}

/// Whatever is read, each output has its lines: the first line end ends the
/// first line, and what follows is cut in the same way.
pub proof fn law_output_is_cut(
    output: Vec<u8>,
    rest: Vec<u8>,
    text: Seq<u8>,
    lines: Vec<Vec<u8>>,
    rest_lines: Vec<Vec<u8>>,
)
    requires
        call_ensures(split_lines, (&output,), lines),
        call_ensures(split_lines, (&rest,), rest_lines),
        forall|i: int| 0 <= i < text.len() ==> #[trigger] text[i] != 10u8,
    ensures
        output@.len() == 0 ==> lines@.len() == 0,
        output@ == text && text.len() > 0 ==> lines@.len() == 1 && lines@[0]@ == text,
        output@ == text + seq![10u8] + rest@ ==> contents(lines@) == seq![text] + contents(
            rest_lines@,
        ),
{
    let cut = contents(lines@);
    if output@.len() == 0 {
        assert(output@ =~= Seq::empty());
        law_no_output_no_lines(cut);
    }
    if output@ == text && text.len() > 0 {
        law_unended_output_is_a_line(cut, text);
        assert(cut[0] == text);
    }
    if output@ == text + seq![10u8] + rest@ {
        law_first_line(cut, text, rest@);
        law_lines_are_unique(cut.drop_first(), contents(rest_lines@), rest@);
        assert(cut =~= seq![text] + cut.drop_first());
    }
}

/// A process that could not be started is a missing Nix exactly if the system
/// did not find it, and everybody who asked hears of it.
pub proof fn law_failure_to_start<T>(
    error: std::io::Error,
    classified: ExecuteError,
    value: Result<T, EvaluationError>,
    gc_root: GcRootTempDir,
    built: Result<(Vec1<StorePath>, GcRootTempDir), BuildError>,
    path: Result<(StorePath, GcRootTempDir), OnePathError>,
)
    requires
        call_ensures(ExecuteError::from_spawn, (error,), classified),
        call_ensures(
            CallOpts::value::<T>,
            (Err::<(Result<T, serde_json::Error>, ExitStatus), ExecuteError>(classified),),
            value,
        ),
        call_ensures(
            CallOpts::paths,
            (
                Err::<(Result<Vec<StorePath>, std::io::Error>, ExitStatus), ExecuteError>(
                    classified,
                ),
                gc_root,
            ),
            built,
        ),
        call_ensures(CallOpts::path, (built,), path),
    ensures
        not_found(error) ==> value == Err::<T, _>(EvaluationError::NixNotFound),
        not_found(error) ==> built == Err::<(Vec1<StorePath>, GcRootTempDir), _>(
            BuildError::NixNotFound,
        ),
        not_found(error) ==> path == Err::<(StorePath, GcRootTempDir), _>(
            OnePathError::Build(BuildError::NixNotFound),
        ),
        !not_found(error) ==> value == Err::<T, _>(EvaluationError::Io(error)),
        !not_found(error) ==> built == Err::<(Vec1<StorePath>, GcRootTempDir), _>(
            BuildError::Io(error),
        ),
        !not_found(error) ==> path == Err::<(StorePath, GcRootTempDir), _>(
            OnePathError::Build(BuildError::Io(error)),
        ),
{
}

/// What an evaluation that ran comes to: a bad status comes before all else,
/// then what was printed decides.
pub proof fn law_evaluation_that_ran<T>(
    raw: i32,
    status: ExitStatus,
    printed: Result<T, serde_json::Error>,
    value: Result<T, EvaluationError>,
)
    requires
        call_ensures(ExitStatus::from_raw, (raw,), status),
        call_ensures(
            CallOpts::value::<T>,
            (Ok::<(Result<T, serde_json::Error>, ExitStatus), ExecuteError>((printed, status)),),
            value,
        ),
    ensures
        raw != 0 ==> value == Err::<T, _>(EvaluationError::ExecutionFailed(status)),
        raw == 0 ==> match printed {
            Ok(printed) => value == Ok::<_, EvaluationError>(printed),
            Err(e) => value == Err::<T, _>(EvaluationError::Decoding(e)),
        },
{
}

/// What a build that ran comes to: a bad status comes before all else, then
/// what was printed decides. A build that succeeds has all the paths printed,
/// in order, and the guard it was given. The one path of a build is to be had
/// exactly if there is one.
pub proof fn law_build_that_ran(
    raw: i32,
    status: ExitStatus,
    printed: Result<Vec<StorePath>, std::io::Error>,
    gc_root: GcRootTempDir,
    built: Result<(Vec1<StorePath>, GcRootTempDir), BuildError>,
    path: Result<(StorePath, GcRootTempDir), OnePathError>,
)
    requires
        call_ensures(ExitStatus::from_raw, (raw,), status),
        call_ensures(
            CallOpts::paths,
            (
                Ok::<(Result<Vec<StorePath>, std::io::Error>, ExitStatus), ExecuteError>(
                    (printed, status),
                ),
                gc_root,
            ),
            built,
        ),
        call_ensures(CallOpts::path, (built,), path),
    ensures
        raw != 0 ==> built == Err::<(Vec1<StorePath>, GcRootTempDir), _>(
            BuildError::ExecutionFailed(status),
        ) && path == Err::<(StorePath, GcRootTempDir), _>(
            OnePathError::Build(BuildError::ExecutionFailed(status)),
        ),
        raw == 0 && printed is Err ==> built == Err::<(Vec1<StorePath>, GcRootTempDir), _>(
            BuildError::Io(printed->Err_0),
        ) && path == Err::<(StorePath, GcRootTempDir), _>(
            OnePathError::Build(BuildError::Io(printed->Err_0)),
        ),
        raw == 0 && printed is Ok && printed->Ok_0@.len() == 0 ==> built == Err::<
            (Vec1<StorePath>, GcRootTempDir),
            _,
        >(BuildError::NoResult) && path == Err::<(StorePath, GcRootTempDir), _>(
            OnePathError::Build(BuildError::NoResult),
        ),
        raw == 0 && printed is Ok && printed->Ok_0@.len() > 0 ==> built is Ok && vec1_items(
            built->Ok_0.0,
        ) == printed->Ok_0@ && built->Ok_0.1 == gc_root,
        raw == 0 && printed is Ok && printed->Ok_0@.len() == 1 ==> path == Ok::<_, OnePathError>(
            (printed->Ok_0@[0], gc_root),
        ),
        raw == 0 && printed is Ok && printed->Ok_0@.len() > 1 ==> path == Err::<
            (StorePath, GcRootTempDir),
            _,
        >(OnePathError::TooManyResults),
{
}

/// A build links its results into the very directory that it hands back.
pub proof fn law_build_is_guarded<'a>(
    dir: TempDir,
    gc_root: GcRootTempDir,
    build: Build,
    opts: &'a CallOpts<'a>,
    common: Vec<Argument<'a>>,
    command: Invocation<'a>,
    executed: Executed<Vec<StorePath>, std::io::Error>,
    built: Result<(Vec1<StorePath>, GcRootTempDir), BuildError>,
)
    requires
        call_ensures(GcRootTempDir::new, (dir,), gc_root),
        call_ensures(Build::new, (gc_root,), build),
        call_ensures(CallOpts::command_arguments, (opts,), common),
        call_ensures(Build::command, (&build, opts), command),
        call_ensures(Build::finish, (build, executed), built),
    ensures
        command.program@ == "nix-build"@,
        words(command.arguments@) == seq![
            Word::Text("--out-link"@),
            Word::Path(joined_bytes(temp_dir_bytes(dir), "result"@)),
        ] + words(common@),
        built is Ok ==> built->Ok_0.1.dir() == dir,
{
    law_paths_arguments_layout(opts@, joined_bytes(temp_dir_bytes(dir), "result"@));
}

/// The errors for a bad status carry that status.
pub proof fn law_bad_status_is_carried(
    status: ExitStatus,
    evaluation: EvaluationError,
    build: BuildError,
)
    requires
        call_ensures(EvaluationError::from_status, (status,), evaluation),
        call_ensures(BuildError::from_status, (status,), build),
    ensures
        evaluation == EvaluationError::ExecutionFailed(status),
        build == BuildError::ExecutionFailed(status),
{
}

/// A status keeps its word, and only a zero word is a success.
pub proof fn law_status_keeps_its_word(raw: i32, status: ExitStatus, word: i32, success: bool)
    requires
        call_ensures(ExitStatus::from_raw, (raw,), status),
        call_ensures(ExitStatus::into_raw, (status,), word),
        call_ensures(ExitStatus::success, (&status,), success),
    ensures
        word == raw,
        success <==> raw == 0,
{
}

/// The path of a store path is the path it was made of, and the link of a GC
/// root is `result` in its directory.
pub proof fn law_paths_are_kept<'a>(
    store_path: &'a StorePath,
    path: &'a Path,
    dir: TempDir,
    gc_root: GcRootTempDir,
    link: PathBuf,
)
    requires
        call_ensures(StorePath::as_path, (store_path,), path),
        call_ensures(GcRootTempDir::new, (dir,), gc_root),
        call_ensures(GcRootTempDir::out_link, (&gc_root,), link),
    ensures
        path_bytes(path) == path_buf_bytes(store_path.path_buf()),
        gc_root.dir() == dir,
        path_buf_bytes(link) == joined_bytes(temp_dir_bytes(dir), "result"@),
{
}

/// A clone of a call passes the same arguments and logs to the same sender.
pub proof fn law_clone_is_the_same_call<'a>(
    opts: CallOpts<'a>,
    copy: CallOpts<'a>,
    arguments: Vec<Argument<'a>>,
    copied_arguments: Vec<Argument<'a>>,
    sender: Option<Sender<Vec<u8>>>,
    copied_sender: Option<Sender<Vec<u8>>>,
)
    requires
        call_ensures(CallOpts::clone, (&opts,), copy),
        call_ensures(CallOpts::command_arguments, (&opts,), arguments),
        call_ensures(CallOpts::command_arguments, (&copy,), copied_arguments),
        call_ensures(CallOpts::stderr_sender, (&opts,), sender),
        call_ensures(CallOpts::stderr_sender, (&copy,), copied_sender),
    ensures
        words(arguments@) == words(copied_arguments@),
        sender == copied_sender,
{
}

/// Each line of an output is a store path, in order; an output that cannot be
/// read has none.
pub proof fn law_lines_are_store_paths<F: Fn(Vec<u8>) -> PathBuf>(
    output: Vec<u8>,
    error: std::io::Error,
    to_path: F,
    lines: Vec<Vec<u8>>,
    paths: Result<Vec<StorePath>, std::io::Error>,
    unread: Result<Vec<StorePath>, std::io::Error>,
)
    requires
        call_ensures(split_lines, (&output,), lines),
        call_ensures(store_paths::<F>, (Ok::<Vec<u8>, std::io::Error>(output), to_path), paths),
        call_ensures(store_paths::<F>, (Err::<Vec<u8>, std::io::Error>(error), to_path), unread),
    ensures
        unread == Err::<Vec<StorePath>, _>(error),
        paths is Ok,
        paths->Ok_0@.len() == lines@.len(),
        forall|i: int|
            #![trigger lines@[i]]
            0 <= i < lines@.len() ==> is_path_of_line(to_path, lines@[i]@, paths->Ok_0@[i]),
{
    let found = choose|found: Seq<Seq<u8>>|
        {
            &&& #[trigger] are_lines_of(found, output@)
            &&& found.len() == paths->Ok_0@.len()
            &&& forall|i: int|
                0 <= i < found.len() ==> is_path_of_line(
                    to_path,
                    #[trigger] found[i],
                    paths->Ok_0@[i],
                )
        };
    law_lines_are_unique(found, contents(lines@), output@);
    assert forall|i: int| #![trigger lines@[i]] 0 <= i < lines@.len() implies is_path_of_line(
        to_path,
        lines@[i]@,
        paths->Ok_0@[i],
    ) by {
        assert(found[i] == lines@[i]@);
    }
}

/// Setting an attribute puts `-A` and the attribute, as it was given, in front
/// of what a call without one passes, and in place of the attribute of a call
/// that has one. What becomes of the setter's result becomes of the call.
pub proof fn law_attribute_is_passed<'a>(
    opts: &'a mut CallOpts<'a>,
    attr: &str,
    set: &'a mut CallOpts<'a>,
    before: Vec<Argument<'a>>,
    after: Vec<Argument<'a>>,
)
    requires
        call_ensures(CallOpts::attribute, (opts, attr), set),
        call_ensures(CallOpts::command_arguments, (&*old(opts),), before),
        call_ensures(CallOpts::command_arguments, (&*old(set),), after),
    ensures
        words(after@) == seq![Word::Text("-A"@), Word::Text(attr@)] + words(before@).skip(
            if old(opts)@.attribute is Some {
                2
            } else {
                0
            },
        ),
        old(set)@.stderr == old(opts)@.stderr,
        *final(opts) == *final(set),
{
    law_arguments_layout(old(opts)@);
    law_arguments_layout(old(set)@);
    assert(attribute_words(old(set)@.attribute) =~= seq![Word::Text("-A"@), Word::Text(attr@)]);
    assert(words(after@) =~= seq![Word::Text("-A"@), Word::Text(attr@)] + words(before@).skip(
        if old(opts)@.attribute is Some {
            2
        } else {
            0
        },
    ));
}

/// Setting an argument passes its name and value as they were given: behind the
/// other arguments and in front of the input, if the name is new. Nothing else
/// of the call changes.
pub proof fn law_argstr_is_passed<'a>(
    opts: &'a mut CallOpts<'a>,
    name: &str,
    value: &str,
    set: &'a mut CallOpts<'a>,
    before: Vec<Argument<'a>>,
    after: Vec<Argument<'a>>,
)
    requires
        call_ensures(CallOpts::argstr, (opts, name, value), set),
        call_ensures(CallOpts::command_arguments, (&*old(opts),), before),
        call_ensures(CallOpts::command_arguments, (&*old(set),), after),
        forall|i: int|
            0 <= i < old(opts)@.argstrs.len() ==> (#[trigger] old(opts)@.argstrs[i]).0 != name@,
    ensures
        before@.len() >= 2,
        words(after@) == words(before@).take(before@.len() - 2) + seq![
            Word::Text("--argstr"@),
            Word::Text(name@),
            Word::Text(value@),
        ] + words(before@).skip(before@.len() - 2),
        old(set)@.stderr == old(opts)@.stderr,
        *final(opts) == *final(set),
{
    law_arguments_layout(old(opts)@);
    law_argstr_place(old(opts)@, name@, value@);
    let pairs = old(opts)@.argstrs;
    assert(old(set)@.argstrs == pairs.push((name@, value@)));
    assert(pairs.push((name@, value@)).drop_last() =~= pairs);
    assert(words(before@).len() == before@.len());
    assert(words(after@) =~= words(before@).take(before@.len() - 2) + seq![
        Word::Text("--argstr"@),
        Word::Text(name@),
        Word::Text(value@),
    ] + words(before@).skip(before@.len() - 2));
}

/// Setting an argument that is set already changes the word that passes its
/// value, and nothing else that is passed.
pub proof fn law_argstr_value_is_replaced<'a>(
    opts: &'a mut CallOpts<'a>,
    name: &str,
    value: &str,
    set: &'a mut CallOpts<'a>,
    before: Vec<Argument<'a>>,
    after: Vec<Argument<'a>>,
    i: int,
)
    requires
        call_ensures(CallOpts::argstr, (opts, name, value), set),
        call_ensures(CallOpts::command_arguments, (&*old(opts),), before),
        call_ensures(CallOpts::command_arguments, (&*old(set),), after),
        0 <= i < old(opts)@.argstrs.len(),
        old(opts)@.argstrs[i].0 == name@,
    ensures
        words(after@) == words(before@).update(
            if old(opts)@.attribute is Some {
                2 + 3 * i + 2
            } else {
                3 * i + 2
            },
            Word::Text(value@),
        ),
        old(set)@.stderr == old(opts)@.stderr,
        *final(opts) == *final(set),
{
    let start: int = if old(opts)@.attribute is Some {
        2
    } else {
        0
    };
    let pairs = old(opts)@.argstrs;
    let bound = old(set)@.argstrs;
    law_arguments_layout(old(opts)@);
    law_arguments_layout(old(set)@);
    law_argstr_place(old(opts)@, name@, value@);
    let expected = words(before@).update(start + 3 * i + 2, Word::Text(value@));
    assert(bound.len() == pairs.len());
    assert forall|k: int| 0 <= k < expected.len() implies words(after@)[k] == expected[k] by {
        if start <= k < start + 3 * pairs.len() {
            let j = (k - start) / 3;
            assert(0 <= j < pairs.len());
            assert(k == start + 3 * j || k == start + 3 * j + 1 || k == start + 3 * j + 2);
            let (old_pair, new_pair) = (pairs[j], bound[j]);
            assert(j != i ==> pairs[j].0 != pairs[i].0);
        }
    }
    assert(words(after@) =~= expected);
}

/// Setting a sender changes where the log goes and nothing that is passed.
pub proof fn law_stderr_sender_is_kept<'a>(
    opts: &'a mut CallOpts<'a>,
    sender: Sender<Vec<u8>>,
    set: &'a mut CallOpts<'a>,
    before: Vec<Argument<'a>>,
    after: Vec<Argument<'a>>,
    kept: Option<Sender<Vec<u8>>>,
)
    requires
        call_ensures(CallOpts::set_stderr_sender, (opts, sender), set),
        call_ensures(CallOpts::command_arguments, (&*old(opts),), before),
        call_ensures(CallOpts::command_arguments, (&*old(set),), after),
        call_ensures(CallOpts::stderr_sender, (&*old(set),), kept),
    ensures
        words(after@) == words(before@),
        kept == Some(sender),
        *final(opts) == *final(set),
{
}

} // verus!
