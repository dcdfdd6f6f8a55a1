//! Descriptions of calls, their command lines, and their outcomes.

use std::io::{Error, ErrorKind};
use std::path::{Path, PathBuf};
use std::sync::mpsc::channel;

use lorri::nix::{
    on_stderr, split_lines, store_paths, Argument, Build, BuildError, CallOpts, EvaluationError,
    ExecuteError, Executed, ExitStatus, GcRootTempDir, OnePathError, StderrAction, StorePath,
};
use tempfile::TempDir;

fn texts<'a>(arguments: &[Argument<'a>]) -> Vec<&'a str> {
    arguments
        .iter()
        .map(|argument| match argument {
            Argument::Text(text) => *text,
            Argument::Path(path) => path.to_str().unwrap(),
        })
        .collect()
}

fn store(path: &str) -> StorePath {
    StorePath::from(Path::new(path))
}

fn gc_root() -> GcRootTempDir {
    GcRootTempDir::new(TempDir::new().unwrap())
}

fn ran<T, E>(made: Result<T, E>, raw: i32) -> Executed<T, E> {
    Ok((made, ExitStatus::from_raw(raw)))
}

fn json_error() -> serde_json::Error {
    serde_json::from_str::<u8>("nonsense").unwrap_err()
}

#[test]
fn cmd_arguments_expression() {
    let mut nix = CallOpts::expression("my-cool-expression");
    nix.attribute("hello");
    nix.argstr("foo", "bar");

    let exp: Vec<&str> = vec![
        "-A",
        "hello",
        "--argstr",
        "foo",
        "bar",
        "--expr",
        "my-cool-expression",
    ];
    assert_eq!(exp, texts(&nix.command_arguments()));
}

#[test]
fn cmd_arguments_test() {
    let mut nix2 = CallOpts::file(Path::new("/my-cool-file.nix"));
    nix2.attribute("hello");
    nix2.argstr("foo", "bar");
    let exp2: Vec<&str> = vec![
        "-A",
        "hello",
        "--argstr",
        "foo",
        "bar",
        "--",
        "/my-cool-file.nix",
    ];
    assert_eq!(exp2, texts(&nix2.command_arguments()));
    assert_eq!(
        nix2.command_arguments()[6],
        Argument::Path(Path::new("/my-cool-file.nix"))
    );
}

#[test]
fn bare_calls_pass_only_their_input() {
    assert_eq!(
        CallOpts::expression("let x = 5; in x").command_arguments(),
        vec![Argument::Text("--expr"), Argument::Text("let x = 5; in x")]
    );
    assert_eq!(
        CallOpts::file(Path::new("-rf")).command_arguments(),
        vec![Argument::Text("--"), Argument::Path(Path::new("-rf"))]
    );
}

#[test]
fn a_second_attribute_overwrites_the_first() {
    let mut twice = CallOpts::expression("e");
    twice.attribute("a").attribute("b");
    let mut once = CallOpts::expression("e");
    once.attribute("b");
    assert_eq!(twice.command_arguments(), once.command_arguments());
    assert_eq!(texts(&twice.command_arguments()), ["-A", "b", "--expr", "e"]);
}

#[test]
fn a_second_value_overwrites_the_first_in_place() {
    let mut nix = CallOpts::expression("e");
    nix.argstr("x", "1").argstr("y", "2").argstr("x", "3");
    assert_eq!(
        texts(&nix.command_arguments()),
        ["--argstr", "x", "3", "--argstr", "y", "2", "--expr", "e"]
    );
}

#[test]
fn setters_may_come_in_any_order() {
    let (tx, _rx) = channel();
    let mut one = CallOpts::expression("e");
    one.attribute("a").argstr("x", "1").set_stderr_sender(tx.clone());
    let mut other = CallOpts::expression("e");
    other.set_stderr_sender(tx).argstr("x", "1").attribute("a");
    assert_eq!(one.command_arguments(), other.command_arguments());
}

#[test]
fn argument_order_is_all_that_their_order_changes() {
    let mut one = CallOpts::expression("e");
    one.argstr("x", "1").argstr("y", "2");
    let mut other = CallOpts::expression("e");
    other.argstr("y", "2").argstr("x", "1");
    let mut one_sorted: Vec<String> = texts(&one.command_arguments())
        .iter()
        .map(|text| text.to_string())
        .collect();
    let mut other_sorted: Vec<String> = texts(&other.command_arguments())
        .iter()
        .map(|text| text.to_string())
        .collect();
    assert_ne!(one_sorted, other_sorted);
    one_sorted.sort();
    other_sorted.sort();
    assert_eq!(one_sorted, other_sorted);
}

#[test]
fn a_clone_describes_the_same_call() {
    let (tx, rx) = channel();
    let mut nix = CallOpts::file(Path::new("shell.nix"));
    nix.attribute("a").argstr("x", "1").argstr("y", "2").set_stderr_sender(tx);
    let copy = nix.clone();
    nix.attribute("b").argstr("x", "4");
    assert_eq!(
        texts(&copy.command_arguments()),
        ["-A", "a", "--argstr", "x", "1", "--argstr", "y", "2", "--", "shell.nix"]
    );
    copy.stderr_sender().unwrap().send(vec![7]).unwrap();
    assert_eq!(rx.recv().unwrap(), vec![7]);
}

#[test]
fn the_stderr_sender_is_the_one_set() {
    let (tx, rx) = channel();
    let mut nix = CallOpts::expression("e");
    assert!(nix.stderr_sender().is_none());
    nix.set_stderr_sender(tx);
    nix.stderr_sender().unwrap().send(b"trace: Hello!".to_vec()).unwrap();
    assert_eq!(rx.recv().unwrap(), b"trace: Hello!".to_vec());
}

#[test]
fn the_stderr_sender_does_not_show_in_the_commands() {
    let (tx, _rx) = channel();
    let quiet = CallOpts::expression("e");
    let mut logged = CallOpts::expression("e");
    logged.set_stderr_sender(tx);
    let link = Path::new("/tmp/result");
    assert_eq!(quiet.command_arguments(), logged.command_arguments());
    assert_eq!(quiet.value_command(), logged.value_command());
    assert_eq!(quiet.paths_command(link), logged.paths_command(link));
}

#[test]
fn the_value_command_evaluates_strictly_to_json() {
    let mut nix = CallOpts::expression("{ name }: { contributors = []; }");
    nix.argstr("name", "Jill").attribute("contributors");
    let command = nix.value_command();
    assert_eq!(command.program, "nix-instantiate");
    assert_eq!(
        texts(&command.arguments),
        [
            "--eval",
            "--json",
            "--strict",
            "-A",
            "contributors",
            "--argstr",
            "name",
            "Jill",
            "--expr",
            "{ name }: { contributors = []; }",
        ]
    );
}

#[test]
fn the_paths_command_links_into_the_gc_root() {
    let dir = TempDir::new().unwrap();
    let expected = dir.path().join("result");
    let root = GcRootTempDir::new(dir);
    let out_link = root.out_link();
    assert_eq!(out_link, expected);

    let mut nix = CallOpts::file(Path::new("default.nix"));
    nix.attribute("hello");
    let command = nix.paths_command(&out_link);
    assert_eq!(command.program, "nix-build");
    assert_eq!(
        command.arguments,
        vec![
            Argument::Text("--out-link"),
            Argument::Path(&expected),
            Argument::Text("-A"),
            Argument::Text("hello"),
            Argument::Text("--"),
            Argument::Path(Path::new("default.nix")),
        ]
    );
}

#[test]
fn store_paths_hold_the_path_they_are_made_of() {
    let path = StorePath::from(PathBuf::from("/nix/store/abc-hello-1.0"));
    assert_eq!(path.as_path(), Path::new("/nix/store/abc-hello-1.0"));
    assert_eq!(path.clone().as_path(), path.as_path());
    assert_eq!(store("/nix/store/abc-hello-1.0"), path);
}

#[test]
fn only_the_zero_status_is_a_success() {
    assert!(ExitStatus::from_raw(0).success());
    assert!(!ExitStatus::from_raw(256).success());
    assert!(!ExitStatus::from_raw(9).success());
    assert_eq!(ExitStatus::from_raw(256).into_raw(), 256);
}

#[test]
fn spawn_errors_are_classified() {
    assert!(matches!(
        ExecuteError::from_spawn(Error::from(ErrorKind::NotFound)),
        ExecuteError::NixNotFound
    ));
    match ExecuteError::from_spawn(Error::from(ErrorKind::PermissionDenied)) {
        ExecuteError::Io(e) => assert_eq!(e.kind(), ErrorKind::PermissionDenied),
        ExecuteError::NixNotFound => panic!("permission denied is not a missing executable"),
    }
}

#[test]
fn a_value_is_handed_on() {
    assert_eq!(CallOpts::value(ran(Ok(5u8), 0)).unwrap(), 5);
}

#[test]
fn undecodable_values_are_decoding_errors() {
    assert!(matches!(
        CallOpts::value::<u8>(ran(Err(json_error()), 0)),
        Err(EvaluationError::Decoding(_))
    ));
}

#[test]
fn a_failed_evaluation_reports_its_status_whatever_it_printed() {
    for printed in [Ok(5u8), Err(json_error())] {
        match CallOpts::value(ran(printed, 256)) {
            Err(EvaluationError::ExecutionFailed(status)) => {
                assert_eq!(status, ExitStatus::from_raw(256))
            }
            other => panic!("{:?}", other),
        }
    }
}

#[test]
fn an_evaluation_that_cannot_run_says_why() {
    assert!(matches!(
        CallOpts::value::<u8>(Err(ExecuteError::NixNotFound)),
        Err(EvaluationError::NixNotFound)
    ));
    match CallOpts::value::<u8>(Err(ExecuteError::Io(Error::from(ErrorKind::Other)))) {
        Err(EvaluationError::Io(e)) => assert_eq!(e.kind(), ErrorKind::Other),
        other => panic!("{:?}", other),
    }
}

#[test]
fn a_build_has_all_its_paths_in_order() {
    let (paths, _gc_root) =
        CallOpts::paths(ran(Ok(vec![store("/b"), store("/a")]), 0), gc_root()).unwrap();
    assert_eq!(paths.into_vec(), vec![store("/b"), store("/a")]);
}

#[test]
fn a_build_keeps_its_gc_root() {
    let dir = TempDir::new().unwrap();
    let expected = dir.path().join("result");
    let (_, kept) =
        CallOpts::paths(ran(Ok(vec![store("/a")]), 0), GcRootTempDir::new(dir)).unwrap();
    assert_eq!(kept.out_link(), expected);
    let built = CallOpts::paths(ran(Ok(vec![store("/a")]), 0), kept);
    let (_, kept) = CallOpts::path(built).unwrap();
    assert_eq!(kept.out_link(), expected);
}

#[test]
fn a_build_links_into_the_gc_root_that_it_hands_back() {
    let dir = TempDir::new().unwrap();
    let expected = dir.path().join("result");
    let build = Build::new(GcRootTempDir::new(dir));
    let mut nix = CallOpts::expression("import <nixpkgs> {}");
    nix.attribute("hello");
    let command = build.command(&nix);
    assert_eq!(command.program, "nix-build");
    assert_eq!(
        command.arguments,
        vec![
            Argument::Text("--out-link"),
            Argument::Path(&expected),
            Argument::Text("-A"),
            Argument::Text("hello"),
            Argument::Text("--expr"),
            Argument::Text("import <nixpkgs> {}"),
        ]
    );
    let (paths, kept) = build.finish(ran(Ok(vec![store("/a"), store("/b")]), 0)).unwrap();
    assert_eq!(paths.into_vec(), vec![store("/a"), store("/b")]);
    assert_eq!(kept.out_link(), expected);
}

#[test]
fn a_build_under_way_fails_as_its_run_does() {
    assert!(matches!(
        Build::new(gc_root()).finish(ran(Ok(vec![store("/a")]), 256)),
        Err(BuildError::ExecutionFailed(_))
    ));
}

#[test]
fn a_build_without_paths_has_no_result() {
    assert!(matches!(
        CallOpts::paths(ran(Ok(vec![]), 0), gc_root()),
        Err(BuildError::NoResult)
    ));
    assert!(matches!(
        CallOpts::path(CallOpts::paths(ran(Ok(vec![]), 0), gc_root())),
        Err(OnePathError::Build(BuildError::NoResult))
    ));
}

#[test]
fn a_failed_build_reports_its_status_whatever_it_printed() {
    for printed in [
        Ok(vec![store("/a")]),
        Ok(vec![]),
        Err(Error::from(ErrorKind::Other)),
    ] {
        match CallOpts::paths(ran(printed, 25600), gc_root()) {
            Err(BuildError::ExecutionFailed(status)) => {
                assert_eq!(status, ExitStatus::from_raw(25600))
            }
            other => panic!("{:?}", other),
        }
    }
}

#[test]
fn a_build_that_cannot_run_or_be_read_says_why() {
    assert!(matches!(
        CallOpts::paths(Err(ExecuteError::NixNotFound), gc_root()),
        Err(BuildError::NixNotFound)
    ));
    let not_run = Err(ExecuteError::Io(Error::from(ErrorKind::OutOfMemory)));
    match CallOpts::paths(not_run, gc_root()) {
        Err(BuildError::Io(e)) => assert_eq!(e.kind(), ErrorKind::OutOfMemory),
        other => panic!("{:?}", other),
    }
    let not_read = ran(Err(Error::from(ErrorKind::BrokenPipe)), 0);
    match CallOpts::paths(not_read, gc_root()) {
        Err(BuildError::Io(e)) => assert_eq!(e.kind(), ErrorKind::BrokenPipe),
        other => panic!("{:?}", other),
    }
}

#[test]
fn one_path_is_the_path_of_a_build_with_one_result() {
    let built = CallOpts::paths(ran(Ok(vec![store("/a")]), 0), gc_root());
    let (path, _gc_root) = CallOpts::path(built).unwrap();
    assert_eq!(path, store("/a"));
}

#[test]
fn one_path_is_too_few_for_a_build_with_more() {
    for n in 2..5 {
        let paths: Vec<StorePath> = (0..n).map(|_| store("/a")).collect();
        assert!(matches!(
            CallOpts::path(CallOpts::paths(ran(Ok(paths), 0), gc_root())),
            Err(OnePathError::TooManyResults)
        ));
    }
}

#[test]
fn one_path_fails_as_the_build_does() {
    assert!(matches!(
        CallOpts::path(Err(BuildError::NixNotFound)),
        Err(OnePathError::Build(BuildError::NixNotFound))
    ));
}

#[test]
fn errors_convert() {
    assert!(matches!(
        EvaluationError::from(Error::from(ErrorKind::Other)),
        EvaluationError::Io(_)
    ));
    assert!(matches!(
        EvaluationError::from(json_error()),
        EvaluationError::Decoding(_)
    ));
    assert!(matches!(
        BuildError::from(ExecuteError::NixNotFound),
        BuildError::NixNotFound
    ));
    assert!(matches!(
        OnePathError::from(BuildError::NoResult),
        OnePathError::Build(BuildError::NoResult)
    ));
    assert!(matches!(
        BuildError::from_status(ExitStatus::from_raw(1)),
        BuildError::ExecutionFailed(status) if status == ExitStatus::from_raw(1)
    ));
    assert!(matches!(
        EvaluationError::from_status(ExitStatus::from_raw(1)),
        EvaluationError::ExecutionFailed(status) if status == ExitStatus::from_raw(1)
    ));
}

#[test]
fn lines_are_cut_at_line_ends() {
    let none: Vec<Vec<u8>> = vec![];
    assert_eq!(split_lines(&b"".to_vec()), none);
    assert_eq!(split_lines(&b"\n".to_vec()), vec![b"".to_vec()]);
    assert_eq!(split_lines(&b"a\nb\n".to_vec()), vec![b"a".to_vec(), b"b".to_vec()]);
    assert_eq!(
        split_lines(&b"a\n\nb".to_vec()),
        vec![b"a".to_vec(), b"".to_vec(), b"b".to_vec()]
    );
    assert_eq!(split_lines(&b"\xff\r\n".to_vec()), vec![b"\xff\r".to_vec()]);
}

#[test]
fn lines_written_out_are_read_back() {
    let lines = vec![b"a".to_vec(), b"".to_vec(), b"bc".to_vec()];
    let mut output: Vec<u8> = vec![];
    for line in &lines {
        output.extend(line);
        output.push(b'\n');
    }
    assert_eq!(split_lines(&output), lines);
}

#[test]
fn lines_may_be_cut_piece_by_piece() {
    let mut pieces = split_lines(&b"a\nb\n".to_vec());
    pieces.extend(split_lines(&b"c\nd".to_vec()));
    assert_eq!(pieces, split_lines(&b"a\nb\nc\nd".to_vec()));
}

#[test]
fn a_whole_log_may_be_cut_piece_by_piece() {
    let log = b"these derivations will be built:\n  /nix/store/x.drv\n\nbuilding".to_vec();
    let mut sent: Vec<Vec<u8>> = vec![];
    for piece in log.split_inclusive(|byte| *byte == b'\n') {
        match on_stderr(true, Ok(piece.to_vec())) {
            StderrAction::Send(lines) => sent.extend(lines),
            other => panic!("{:?}", other),
        }
    }
    assert_eq!(sent, split_lines(&log));
    assert_eq!(sent.len(), 4);
}

#[test]
fn each_line_of_a_build_is_a_store_path() {
    let to_path = |line: Vec<u8>| PathBuf::from(String::from_utf8(line).unwrap());
    let printed = b"/nix/store/x-git-2.0\n/nix/store/y-hello-1.0\n".to_vec();
    assert_eq!(
        store_paths(Ok(printed), to_path).unwrap(),
        vec![store("/nix/store/x-git-2.0"), store("/nix/store/y-hello-1.0")]
    );
    assert_eq!(store_paths(Ok(vec![]), to_path).unwrap(), vec![]);
    assert_eq!(
        store_paths(Err(Error::from(ErrorKind::BrokenPipe)), to_path)
            .unwrap_err()
            .kind(),
        ErrorKind::BrokenPipe
    );
}

#[test]
fn the_log_goes_to_whoever_listens() {
    match on_stderr(true, Ok(b"trace: Hello!\n".to_vec())) {
        StderrAction::Send(lines) => assert_eq!(lines, vec![b"trace: Hello!".to_vec()]),
        other => panic!("{:?}", other),
    }
    assert!(matches!(
        on_stderr(false, Ok(b"trace: Hello!\n".to_vec())),
        StderrAction::Discard
    ));
    assert!(matches!(on_stderr(true, Ok(vec![])), StderrAction::Stop));
    assert!(matches!(on_stderr(false, Ok(vec![])), StderrAction::Stop));
}

#[test]
fn an_unreadable_log_matters_only_to_a_listener() {
    match on_stderr(true, Err(Error::from(ErrorKind::BrokenPipe))) {
        StderrAction::Fail(e) => assert_eq!(e.kind(), ErrorKind::BrokenPipe),
        other => panic!("{:?}", other),
    }
    assert!(matches!(
        on_stderr(false, Err(Error::from(ErrorKind::BrokenPipe))),
        StderrAction::Discard
    ));
}
