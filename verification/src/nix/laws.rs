//! What holds of the library as a whole.

use std::path::{Path, PathBuf};
use std::sync::mpsc::Sender;
use vec1::Vec1;
use vstd::prelude::*;
use vstd::std_specs::convert::FromSpec;

use super::argstrs::{bind, bindings, distinct_names, has_name, Pairs};
use super::argument::{words, Argument, Word};
use super::error::{BuildError, EvaluationError, ExecuteError, OnePathError};
use super::lines::{are_lines_of, contents, terminated, unbroken, NEWLINE};
use super::opts::{argstr_word_triple, argstr_words, attribute_words, input_words, Call, CallInput};
use super::outcome::{
    build_outcome, built_paths, evaluation_outcome, is_path_of_line, single_outcome, vec1_items,
    Executed,
};
use super::path::{path_buf_bytes, path_bytes, temp_dir_bytes, GcRootTempDir, StorePath};
use super::status::ExitStatus;

verus! {

/// A fresh call is on the very input it was given, and asks for nothing else.
pub proof fn law_plain_call_is_its_input(input: CallInput)
    ensures
        Call::plain(input).input == input,
        Call::plain(input).attribute is None,
        Call::plain(input).argstrs.len() == 0,
        Call::plain(input).stderr is None,
{
}

/// Giving an attribute makes the call evaluate exactly that attribute, and
/// leaves the rest of the call as it was.
pub proof fn law_attribute_is_kept(call: Call, attribute: Seq<char>)
    ensures
        call.with_attribute(attribute).attribute == Some(attribute),
        call.with_attribute(attribute).input == call.input,
        call.with_attribute(attribute).argstrs == call.argstrs,
        call.with_attribute(attribute).stderr == call.stderr,
{
}

/// Giving a sender makes the call log to exactly that sender, and leaves the
/// rest of the call as it was.
pub proof fn law_stderr_is_kept(call: Call, sender: Sender<Vec<u8>>)
    ensures
        call.with_stderr(sender).stderr == Some(sender),
        call.with_stderr(sender).input == call.input,
        call.with_stderr(sender).attribute == call.attribute,
        call.with_stderr(sender).argstrs == call.argstrs,
{
}

/// Giving an argument leaves the rest of the call as it was: an attribute that
/// was not asked for stays that way.
pub proof fn law_argstr_leaves_the_rest(call: Call, name: Seq<char>, value: Seq<char>)
    ensures
        call.with_argstr(name, value).input == call.input,
        call.with_argstr(name, value).attribute == call.attribute,
        call.with_argstr(name, value).stderr == call.stderr,
{
}

/// Where an argument goes. A name that is new goes to the end, behind all that
/// is there. A name that is there already keeps its place, and so does
/// everything else; its value is the new one.
pub proof fn law_argstr_place(call: Call, name: Seq<char>, value: Seq<char>)
    ensures
        ({
            let before = call.argstrs;
            let after = call.with_argstr(name, value).argstrs;
            let there = exists|i: int| 0 <= i < before.len() && (#[trigger] before[i]).0 == name;
            &&& !there ==> after == before.push((name, value))
            &&& there ==> after.len() == before.len()
            &&& there ==> forall|i: int|
                0 <= i < before.len() ==> #[trigger] after[i] == if before[i].0 == name {
                    (name, value)
                } else {
                    before[i]
                }
        }),
{
}

/// After an argument was given, its name stands among the pairs once, with
/// that value.
pub proof fn law_argstr_is_passed_once(call: Call, name: Seq<char>, value: Seq<char>)
    requires
        call.valid(),
    ensures
        ({
            let after = call.with_argstr(name, value).argstrs;
            exists|i: int|
                #![trigger after[i]]
                0 <= i < after.len() && after[i] == (name, value) && (forall|j: int|
                    0 <= j < after.len() && (#[trigger] after[j]).0 == name ==> j == i)
        }),
{
    let before = call.argstrs;
    let after = call.with_argstr(name, value).argstrs;
    super::argstrs::lemma_bind_distinct(before, name, value);
    let i = if has_name(before, name) {
        choose|i: int| 0 <= i < before.len() && (#[trigger] before[i]).0 == name
    } else {
        before.len() as int
    };
    assert(after[i] == (name, value));
}

/// A call is valid exactly if no two of its arguments have the same name.
pub proof fn law_valid_is_distinct_names(call: Call)
    ensures
        call.valid() <==> forall|i: int, j: int|
            #![trigger call.argstrs[i], call.argstrs[j]]
            0 <= i < call.argstrs.len() && 0 <= j < call.argstrs.len() && call.argstrs[i].0
                == call.argstrs[j].0 ==> i == j,
{
}

/// What pairs with distinct names bind: each name its own value, and nothing
/// else.
pub proof fn law_bindings_are_the_pairs(call: Call)
    requires
        call.valid(),
    ensures
        forall|i: int|
            #![trigger call.argstrs[i]]
            0 <= i < call.argstrs.len() ==> bindings(call.argstrs).contains_pair(
                call.argstrs[i].0,
                call.argstrs[i].1,
            ),
        forall|name: Seq<char>| #[trigger]
            bindings(call.argstrs).contains_key(name) ==> call.argstrs.contains(
                (name, bindings(call.argstrs)[name]),
            ),
{
    assert forall|i: int| #![trigger call.argstrs[i]] 0 <= i < call.argstrs.len() implies bindings(
        call.argstrs,
    ).contains_pair(call.argstrs[i].0, call.argstrs[i].1) by {
        lemma_binding(call.argstrs, i);
    }
    assert forall|name: Seq<char>| #[trigger]
        bindings(call.argstrs).contains_key(name) implies call.argstrs.contains(
        (name, bindings(call.argstrs)[name]),
    ) by {
        let i = choose|i: int|
            0 <= i < call.argstrs.len() && (#[trigger] call.argstrs[i]).0 == name;
        lemma_binding(call.argstrs, i);
        assert(call.argstrs[i] == (name, bindings(call.argstrs)[name]));
    }
}

/// Every evaluation starts with the words that make Nix evaluate all of the
/// value and print it as JSON, and goes on with the common arguments.
pub proof fn law_value_arguments_layout(call: Call)
    ensures
        call.value_arguments().len() == 3 + call.arguments().len(),
        call.value_arguments()[0] == Word::Text("--eval"@),
        call.value_arguments()[1] == Word::Text("--json"@),
        call.value_arguments()[2] == Word::Text("--strict"@),
        forall|i: int|
            #![trigger call.arguments()[i]]
            0 <= i < call.arguments().len() ==> call.value_arguments()[3 + i]
                == call.arguments()[i],
{
}

/// Every build starts with the words that make Nix link the results from
/// `out_link`, and goes on with the common arguments.
pub proof fn law_paths_arguments_layout(call: Call, out_link: Seq<u8>)
    ensures
        call.paths_arguments(out_link).len() == 2 + call.arguments().len(),
        call.paths_arguments(out_link)[0] == Word::Text("--out-link"@),
        call.paths_arguments(out_link)[1] == Word::Path(out_link),
        forall|i: int|
            #![trigger call.arguments()[i]]
            0 <= i < call.arguments().len() ==> call.paths_arguments(out_link)[2 + i]
                == call.arguments()[i],
{
}

/// An argument says what it holds, and a list of arguments says what each of
/// them does, in order.
pub proof fn law_arguments_say_what_they_hold(
    text: &str,
    path: &Path,
    arguments: Seq<Argument<'_>>,
)
    ensures
        Argument::Text(text)@ == Word::Text(text@),
        Argument::Path(path)@ == Word::Path(path_bytes(path)),
        words(arguments).len() == arguments.len(),
        forall|i: int|
            #![trigger arguments[i]]
            0 <= i < arguments.len() ==> words(arguments)[i] == arguments[i]@,
{
}

/// A status is its wait status word, and a success exactly if that is zero.
pub proof fn law_status_is_its_word(status: ExitStatus, other: ExitStatus)
    ensures
        status.is_success() <==> status.spec_raw() == 0,
        status.spec_raw() == other.spec_raw() ==> status == other,
{
    super::status::lemma_word_decides(status, other);
}

/// A failure to start is a missing executable exactly if the system says that
/// it did not find it; any other is kept as it is.
pub proof fn law_spawn_errors(error: std::io::Error)
    ensures
        super::error::not_found(error) ==> ExecuteError::of_spawn(error)
            == ExecuteError::NixNotFound,
        !super::error::not_found(error) ==> ExecuteError::of_spawn(error) == ExecuteError::Io(
            error,
        ),
{
}

/// Converting an error changes its wrapping and never what it says.
pub proof fn law_errors_convert_faithfully(
    io: std::io::Error,
    json: serde_json::Error,
    build: BuildError,
)
    ensures
        <EvaluationError as FromSpec<std::io::Error>>::obeys_from_spec(),
        <EvaluationError as FromSpec<std::io::Error>>::from_spec(io) == EvaluationError::Io(io),
        <EvaluationError as FromSpec<serde_json::Error>>::obeys_from_spec(),
        <EvaluationError as FromSpec<serde_json::Error>>::from_spec(json)
            == EvaluationError::Decoding(json),
        <EvaluationError as FromSpec<ExecuteError>>::obeys_from_spec(),
        <EvaluationError as FromSpec<ExecuteError>>::from_spec(ExecuteError::NixNotFound)
            == EvaluationError::NixNotFound,
        <EvaluationError as FromSpec<ExecuteError>>::from_spec(ExecuteError::Io(io))
            == EvaluationError::Io(io),
        <BuildError as FromSpec<std::io::Error>>::obeys_from_spec(),
        <BuildError as FromSpec<std::io::Error>>::from_spec(io) == BuildError::Io(io),
        <BuildError as FromSpec<ExecuteError>>::obeys_from_spec(),
        <BuildError as FromSpec<ExecuteError>>::from_spec(ExecuteError::NixNotFound)
            == BuildError::NixNotFound,
        <BuildError as FromSpec<ExecuteError>>::from_spec(ExecuteError::Io(io)) == BuildError::Io(
            io,
        ),
        <OnePathError as FromSpec<BuildError>>::obeys_from_spec(),
        <OnePathError as FromSpec<BuildError>>::from_spec(build) == OnePathError::Build(build),
{
}

/// A store path is the owned path it was made of, and a GC root the directory
/// it keeps.
pub proof fn law_paths_are_what_they_hold(path: StorePath, made_of: PathBuf, gc_root: GcRootTempDir)
    ensures
        path@ == path_buf_bytes(path.path_buf()),
        <StorePath as FromSpec<PathBuf>>::obeys_from_spec(),
        <StorePath as FromSpec<PathBuf>>::from_spec(made_of).path_buf() == made_of,
        gc_root@ == temp_dir_bytes(gc_root.dir()),
{
    super::path::lemma_made_of(made_of);
}

/// What every possible run of an evaluation comes to.
pub proof fn law_evaluation_outcomes<T>(
    io: std::io::Error,
    value: T,
    json: serde_json::Error,
    printed: Result<T, serde_json::Error>,
    status: ExitStatus,
)
    ensures
        evaluation_outcome::<T>(Err(ExecuteError::NixNotFound)) == Err::<T, _>(
            EvaluationError::NixNotFound,
        ),
        evaluation_outcome::<T>(Err(ExecuteError::Io(io))) == Err::<T, _>(EvaluationError::Io(io)),
        status.spec_raw() != 0 ==> evaluation_outcome(Ok((printed, status))) == Err::<T, _>(
            EvaluationError::ExecutionFailed(status),
        ),
        status.spec_raw() == 0 ==> evaluation_outcome::<T>(Ok((Err(json), status))) == Err::<T, _>(
            EvaluationError::Decoding(json),
        ),
        status.spec_raw() == 0 ==> evaluation_outcome(Ok((Ok(value), status))) == Ok::<
            T,
            EvaluationError,
        >(value),
{
}

/// What every possible run of a build comes to.
pub proof fn law_build_outcomes(
    io: std::io::Error,
    paths: Vec<StorePath>,
    printed: Result<Vec<StorePath>, std::io::Error>,
    status: ExitStatus,
)
    ensures
        build_outcome(Err(ExecuteError::NixNotFound)) == Err::<Seq<StorePath>, _>(
            BuildError::NixNotFound,
        ),
        build_outcome(Err(ExecuteError::Io(io))) == Err::<Seq<StorePath>, _>(BuildError::Io(io)),
        status.spec_raw() != 0 ==> build_outcome(Ok((printed, status))) == Err::<
            Seq<StorePath>,
            _,
        >(BuildError::ExecutionFailed(status)),
        status.spec_raw() == 0 ==> build_outcome(Ok((Err(io), status))) == Err::<
            Seq<StorePath>,
            _,
        >(BuildError::Io(io)),
        status.spec_raw() == 0 && paths@.len() == 0 ==> build_outcome(Ok((Ok(paths), status)))
            == Err::<Seq<StorePath>, _>(BuildError::NoResult),
        status.spec_raw() == 0 && paths@.len() > 0 ==> build_outcome(Ok((Ok(paths), status)))
            == Ok::<_, BuildError>(paths@),
{
}

/// What asking for one path comes to, whatever the build has: its one path, or
/// the news that there are more, or the failure of the build.
pub proof fn law_single_outcomes(
    paths: Seq<StorePath>,
    error: BuildError,
    held: Vec1<StorePath>,
    gc_root: GcRootTempDir,
)
    ensures
        single_outcome(Err(error)) == Err::<StorePath, _>(OnePathError::Build(error)),
        paths.len() == 0 ==> single_outcome(Ok(paths)) == Err::<StorePath, _>(
            OnePathError::Build(BuildError::NoResult),
        ),
        paths.len() == 1 ==> single_outcome(Ok(paths)) == Ok::<_, OnePathError>(paths[0]),
        paths.len() > 1 ==> single_outcome(Ok(paths)) == Err::<StorePath, _>(
            OnePathError::TooManyResults,
        ),
        built_paths(Ok((held, gc_root))) == Ok::<_, BuildError>(vec1_items(held)),
        built_paths(Err(error)) == Err::<Seq<StorePath>, _>(error),
{
}

/// A path is the path of a line only if the conversion made it of the bytes of
/// that line, all of them and no others.
pub proof fn law_path_of_line<F: Fn(Vec<u8>) -> PathBuf>(
    to_path: F,
    line: Seq<u8>,
    path: StorePath,
)
    ensures
        is_path_of_line(to_path, line, path) <==> exists|bytes: Vec<u8>|
            bytes@ == line && #[trigger] call_ensures(to_path, (bytes,), path.path_buf()),
{
}

/// An empty output has no lines.
pub proof fn law_no_output_no_lines(lines: Seq<Seq<u8>>)
    ensures
        are_lines_of(lines, Seq::empty()) <==> lines.len() == 0,
{
    if lines.len() > 0 {
        assert(terminated(lines).len() > 0);
    }
}

/// An output without a line end in it is one line.
pub proof fn law_unended_output_is_a_line(lines: Seq<Seq<u8>>, output: Seq<u8>)
    requires
        output.len() > 0,
        forall|i: int| 0 <= i < output.len() ==> #[trigger] output[i] != 10u8,
    ensures
        are_lines_of(lines, output) <==> lines == seq![output],
{
    let expected = seq![output];
    lemma_one_line(output);
    assert(terminated(expected) == output.push(NEWLINE));
    assert(are_lines_of(expected, output));
    if are_lines_of(lines, output) {
        law_lines_are_unique(lines, expected, output);
    }
}

/// What stands before the first line end of an output is its first line, and
/// the lines of what stands behind it are the others.
pub proof fn law_first_line(lines: Seq<Seq<u8>>, text: Seq<u8>, rest: Seq<u8>)
    requires
        forall|i: int| 0 <= i < text.len() ==> #[trigger] text[i] != 10u8,
    ensures
        are_lines_of(lines, text + seq![10u8] + rest) <==> lines.len() > 0 && lines[0] == text
            && are_lines_of(lines.drop_first(), rest),
{
    let output = text + seq![10u8] + rest;
    let piece = text.push(NEWLINE);
    assert(output =~= piece + rest);
    lemma_one_line(text);
    assert(are_lines_of(seq![text], piece));
    if lines.len() > 0 && lines[0] == text && are_lines_of(lines.drop_first(), rest) {
        assert(lines =~= seq![text] + lines.drop_first());
        law_lines_in_pieces(seq![text], piece, lines.drop_first(), rest);
    }
    if are_lines_of(lines, output) {
        let others = lemma_some_lines(rest);
        law_lines_in_pieces(seq![text], piece, others, rest);
        law_lines_are_unique(lines, seq![text] + others, output);
        assert(lines.drop_first() =~= others);
    }
}

/// No line has a line end in it.
pub proof fn law_lines_are_unbroken(lines: Seq<Seq<u8>>, output: Seq<u8>, i: int, k: int)
    requires
        are_lines_of(lines, output),
        0 <= i < lines.len(),
        0 <= k < lines[i].len(),
    ensures
        lines[i][k] != 10u8,
{
    assert(unbroken(lines[i]));
}

/// Writing lines out puts one line end behind each, and a list of byte strings
/// holds what its elements hold.
pub proof fn law_lines_written_out(lines: Seq<Seq<u8>>, line: Seq<u8>, held: Seq<Vec<u8>>)
    ensures
        terminated(Seq::empty()) == Seq::<u8>::empty(),
        terminated(lines.push(line)) == terminated(lines) + line + seq![10u8],
        contents(held).len() == held.len(),
        forall|i: int| #![trigger held[i]] 0 <= i < held.len() ==> contents(held)[i] == held[i]@,
{
    assert(lines.push(line).drop_last() =~= lines);
    assert(terminated(lines.push(line)) =~= terminated(lines) + line + seq![10u8]);
}

/// Only one attribute is supported: a second one overwrites the first.
pub proof fn law_attribute_overwrites(call: Call, first: Seq<char>, second: Seq<char>)
    ensures
        call.with_attribute(first).with_attribute(second) == call.with_attribute(second),
{
}

/// Giving an argument a second value is the same as giving it that value at
/// once.
pub proof fn law_argstr_overwrites(call: Call, name: Seq<char>, first: Seq<char>, second: Seq<char>)
    ensures
        call.with_argstr(name, first).with_argstr(name, second) == call.with_argstr(name, second),
{
    let once = bind(call.argstrs, name, first);
    let twice = bind(once, name, second);
    if has_name(call.argstrs, name) {
        let i = choose|i: int|
            0 <= i < call.argstrs.len() && (#[trigger] call.argstrs[i]).0 == name;
        assert(once[i].0 == name);
    } else {
        assert(once.last().0 == name);
    }
    assert(has_name(once, name));
    assert(twice =~= bind(call.argstrs, name, second));
}

/// Giving an argument a value binds that argument and leaves the others alone.
pub proof fn law_argstr_binds(call: Call, name: Seq<char>, value: Seq<char>)
    requires
        call.valid(),
    ensures
        bindings(call.with_argstr(name, value).argstrs) == bindings(call.argstrs).insert(
            name,
            value,
        ),
{
    lemma_bind_inserts(call.argstrs, name, value);
}

/// A call starts out valid, and no setter makes it invalid.
pub proof fn law_calls_stay_valid(
    call: Call,
    input: CallInput,
    name: Seq<char>,
    value: Seq<char>,
    sender: Sender<Vec<u8>>,
)
    requires
        call.valid(),
    ensures
        Call::plain(input).valid(),
        call.with_attribute(value).valid(),
        call.with_argstr(name, value).valid(),
        call.with_stderr(sender).valid(),
{
    super::argstrs::lemma_bind_distinct(call.argstrs, name, value);
}

/// It does not matter in which order an attribute, an argument and a sender
/// are given.
pub proof fn law_setters_commute(
    call: Call,
    attribute: Seq<char>,
    name: Seq<char>,
    value: Seq<char>,
    sender: Sender<Vec<u8>>,
)
    ensures
        call.with_attribute(attribute).with_argstr(name, value) == call.with_argstr(
            name,
            value,
        ).with_attribute(attribute),
        call.with_attribute(attribute).with_stderr(sender) == call.with_stderr(
            sender,
        ).with_attribute(attribute),
        call.with_argstr(name, value).with_stderr(sender) == call.with_stderr(sender).with_argstr(
            name,
            value,
        ),
{
}

/// Two calls pass the same named arguments, each name with its own value, and
/// the same words all in all, up to order, if they differ only in the order in
/// which they bind the same names to the same values.
pub proof fn law_argstr_order_is_free(one: Call, other: Call)
    requires
        one.valid(),
        other.valid(),
        one.input == other.input,
        one.attribute == other.attribute,
        bindings(one.argstrs) == bindings(other.argstrs),
    ensures
        one.argstrs.to_multiset() == other.argstrs.to_multiset(),
        one.arguments().to_multiset() == other.arguments().to_multiset(),
{
    lemma_same_bindings_same_pairs(one.argstrs, other.argstrs);
    let head = attribute_words(one.attribute);
    let tail = input_words(one.input);
    vstd::seq_lib::lemma_multiset_commutative(head, argstr_words(one.argstrs));
    vstd::seq_lib::lemma_multiset_commutative(head, argstr_words(other.argstrs));
    vstd::seq_lib::lemma_multiset_commutative(head + argstr_words(one.argstrs), tail);
    vstd::seq_lib::lemma_multiset_commutative(head + argstr_words(other.argstrs), tail);
}

/// Giving two arguments in one order or the other passes the same named
/// arguments and the same words, up to order.
pub proof fn law_argstrs_commute(
    call: Call,
    name: Seq<char>,
    value: Seq<char>,
    other_name: Seq<char>,
    other_value: Seq<char>,
)
    requires
        call.valid(),
        name != other_name,
    ensures
        call.with_argstr(name, value).with_argstr(
            other_name,
            other_value,
        ).argstrs.to_multiset() == call.with_argstr(other_name, other_value).with_argstr(
            name,
            value,
        ).argstrs.to_multiset(),
        call.with_argstr(name, value).with_argstr(
            other_name,
            other_value,
        ).arguments().to_multiset() == call.with_argstr(other_name, other_value).with_argstr(
            name,
            value,
        ).arguments().to_multiset(),
{
    let one = call.with_argstr(name, value);
    let other = call.with_argstr(other_name, other_value);
    super::argstrs::lemma_bind_distinct(call.argstrs, name, value);
    super::argstrs::lemma_bind_distinct(call.argstrs, other_name, other_value);
    super::argstrs::lemma_bind_distinct(one.argstrs, other_name, other_value);
    super::argstrs::lemma_bind_distinct(other.argstrs, name, value);
    lemma_bind_inserts(call.argstrs, name, value);
    lemma_bind_inserts(call.argstrs, other_name, other_value);
    lemma_bind_inserts(one.argstrs, other_name, other_value);
    lemma_bind_inserts(other.argstrs, name, value);
    assert(bindings(one.with_argstr(other_name, other_value).argstrs) =~= bindings(
        other.with_argstr(name, value).argstrs,
    ));
    law_argstr_order_is_free(
        one.with_argstr(other_name, other_value),
        other.with_argstr(name, value),
    );
}

/// Where the log goes does not show in the commands.
pub proof fn law_stderr_leaves_commands_alone(
    call: Call,
    sender: Sender<Vec<u8>>,
    out_link: Seq<u8>,
)
    ensures
        call.with_stderr(sender).arguments() == call.arguments(),
        call.with_stderr(sender).value_arguments() == call.value_arguments(),
        call.with_stderr(sender).paths_arguments(out_link) == call.paths_arguments(out_link),
{
}

/// The words that pass `pair` stand at `at`.
spec fn stands_at(arguments: Seq<Word>, at: int, pair: (Seq<char>, Seq<char>)) -> bool {
    &&& arguments[at] == Word::Text("--argstr"@)
    &&& arguments[at + 1] == Word::Text(pair.0)
    &&& arguments[at + 2] == Word::Text(pair.1)
}

/// Where everything stands among the arguments: the attribute, if there is
/// one, comes first, then each string argument, and the input comes last. A
/// file stands behind `--`, so that no path is ever taken for an option.
pub proof fn law_arguments_layout(call: Call)
    ensures
        ({
            let arguments = call.arguments();
            let start: int = if call.attribute is Some {
                2
            } else {
                0
            };
            let n = call.argstrs.len();
            &&& arguments.len() == start + 3 * n + 2
            &&& call.attribute matches Some(name) ==> arguments[0] == Word::Text("-A"@)
                && arguments[1] == Word::Text(name)
            &&& forall|i: int|
                #![trigger call.argstrs[i]]
                0 <= i < n ==> (
                    arguments[start + 3 * i],
                    arguments[start + 3 * i + 1],
                    arguments[start + 3 * i + 2],
                ) == (
                    Word::Text("--argstr"@),
                    Word::Text(call.argstrs[i].0),
                    Word::Text(call.argstrs[i].1),
                )
            &&& match call.input {
                CallInput::Expression(text) => {
                    &&& arguments[start + 3 * n] == Word::Text("--expr"@)
                    &&& arguments[start + 3 * n + 1] == Word::Text(text)
                },
                CallInput::File(path) => {
                    &&& arguments[start + 3 * n] == Word::Text("--"@)
                    &&& arguments[start + 3 * n + 1] == Word::Path(path)
                },
            }
        }),
{
    lemma_argstr_words_layout(call.argstrs);
    let start: int = if call.attribute is Some {
        2
    } else {
        0
    };
    assert forall|i: int| 0 <= i < call.argstrs.len() implies stands_at(
        call.arguments(),
        start + 3 * i,
        #[trigger] call.argstrs[i],
    ) by {
        assert(stands_at(argstr_words(call.argstrs), 3 * i, call.argstrs[i]));
    }
}

/// Both commands pass the common arguments, last and in full.
pub proof fn law_commands_pass_the_call(call: Call, out_link: Seq<u8>)
    ensures
        call.value_arguments().skip(3) == call.arguments(),
        call.paths_arguments(out_link).skip(2) == call.arguments(),
{
    assert(call.value_arguments().skip(3) =~= call.arguments());
    assert(call.paths_arguments(out_link).skip(2) =~= call.arguments());
}

/// A run that ended badly is reported as such, with its status, whatever it
/// printed; and nothing else is.
pub proof fn law_bad_status_is_reported<T>(
    value: Executed<T, serde_json::Error>,
    paths: Executed<Vec<StorePath>, std::io::Error>,
    status: ExitStatus,
)
    ensures
        evaluation_outcome(value) == Err::<T, _>(EvaluationError::ExecutionFailed(status)) <==> (
        value matches Ok((_, ended)) && ended == status && !status.is_success()),
        build_outcome(paths) == Err::<Seq<StorePath>, _>(BuildError::ExecutionFailed(status)) <==> (
        paths matches Ok((_, ended)) && ended == status && !status.is_success()),
{
}

/// A missing Nix executable is reported as such by every kind of call.
pub proof fn law_missing_nix_is_reported<T>(error: std::io::Error)
    requires
        super::error::not_found(error),
    ensures
        evaluation_outcome::<T>(Err(ExecuteError::of_spawn(error))) == Err::<T, _>(
            EvaluationError::NixNotFound,
        ),
        build_outcome(Err(ExecuteError::of_spawn(error))) == Err::<Seq<StorePath>, _>(
            BuildError::NixNotFound,
        ),
        single_outcome(build_outcome(Err(ExecuteError::of_spawn(error)))) == Err::<StorePath, _>(
            OnePathError::Build(BuildError::NixNotFound),
        ),
{
}

/// Any other failure to start Nix is handed on untouched by every kind of
/// call.
pub proof fn law_spawn_error_is_kept<T>(error: std::io::Error)
    requires
        !super::error::not_found(error),
    ensures
        evaluation_outcome::<T>(Err(ExecuteError::of_spawn(error))) == Err::<T, _>(
            EvaluationError::Io(error),
        ),
        build_outcome(Err(ExecuteError::of_spawn(error))) == Err::<Seq<StorePath>, _>(
            BuildError::Io(error),
        ),
        single_outcome(build_outcome(Err(ExecuteError::of_spawn(error)))) == Err::<StorePath, _>(
            OnePathError::Build(BuildError::Io(error)),
        ),
{
}

/// An evaluation has a value exactly if Nix succeeded and printed it.
pub proof fn law_evaluation_success<T>(executed: Executed<T, serde_json::Error>, value: T)
    ensures
        evaluation_outcome(executed) == Ok::<_, EvaluationError>(value) <==> (executed matches Ok(
            (Ok(printed), status),
        ) && status.is_success() && printed == value),
{
}

/// A build succeeds exactly if Nix did and printed at least one path, and it
/// then has all of them.
pub proof fn law_build_success(
    executed: Executed<Vec<StorePath>, std::io::Error>,
    paths: Seq<StorePath>,
)
    ensures
        build_outcome(executed) == Ok::<_, BuildError>(paths) <==> (executed matches Ok(
            (Ok(printed), status),
        ) && status.is_success() && printed@ == paths && paths.len() > 0),
{
}

/// Asking for one path gives it exactly if the build has that one result, says
/// so exactly if there are more, and otherwise fails as the build does.
pub proof fn law_path_agrees_with_paths(
    executed: Executed<Vec<StorePath>, std::io::Error>,
    path: StorePath,
    error: BuildError,
)
    ensures
        single_outcome(build_outcome(executed)) == Ok::<_, OnePathError>(path) <==> build_outcome(
            executed,
        ) == Ok::<_, BuildError>(seq![path]),
        single_outcome(build_outcome(executed)) == Err::<StorePath, _>(OnePathError::TooManyResults)
            <==> (build_outcome(executed) matches Ok(paths) && paths.len() > 1),
        single_outcome(build_outcome(executed)) == Err::<StorePath, _>(OnePathError::Build(error))
            <==> build_outcome(executed) == Err::<Seq<StorePath>, _>(error),
{
    if let Ok(paths) = build_outcome(executed) {
        if paths.len() == 1 {
            assert(paths =~= seq![paths[0]]);
        }
        assert(seq![path][0] == path);
        assert(seq![path].len() == 1);
    }
}

/// An output has one list of lines.
pub proof fn law_lines_are_unique(one: Seq<Seq<u8>>, other: Seq<Seq<u8>>, output: Seq<u8>)
    requires
        are_lines_of(one, output),
        are_lines_of(other, output),
    ensures
        one == other,
{
    lemma_terminated_is_injective(one, other);
}

/// Lines that are written out each with its line end are read back as they
/// were.
pub proof fn law_lines_read_back(lines: Seq<Seq<u8>>)
    requires
        forall|i: int| 0 <= i < lines.len() ==> unbroken(#[trigger] lines[i]),
    ensures
        are_lines_of(lines, terminated(lines)),
{
}

/// An output may be cut into lines piece by piece, if each piece stops at a
/// line end.
pub proof fn law_lines_in_pieces(
    lines: Seq<Seq<u8>>,
    piece: Seq<u8>,
    more_lines: Seq<Seq<u8>>,
    rest: Seq<u8>,
)
    requires
        are_lines_of(lines, piece),
        piece.len() == 0 || piece.last() == NEWLINE,
        are_lines_of(more_lines, rest),
    ensures
        are_lines_of(lines + more_lines, piece + rest),
{
    lemma_terminated_concat(lines, more_lines);
    if rest.len() == 0 {
        assert(piece + rest =~= piece);
    } else {
        assert((piece + rest).last() == rest.last());
        assert(piece + rest.push(NEWLINE) =~= (piece + rest).push(NEWLINE));
    }
}

/// A log of any number of pieces, each of which stops at a line end except
/// perhaps the last, may be cut into lines piece by piece: the lines of the
/// pieces, put together, are the lines of the whole log.
pub proof fn law_lines_of_a_whole_log(lines: Seq<Seq<Seq<u8>>>, pieces: Seq<Seq<u8>>)
    requires
        lines.len() == pieces.len(),
        forall|i: int|
            0 <= i < pieces.len() ==> are_lines_of(#[trigger] lines[i], #[trigger] pieces[i]),
        forall|i: int|
            0 <= i < pieces.len() - 1 ==> (#[trigger] pieces[i]).len() == 0 || pieces[i].last()
                == NEWLINE,
    ensures
        are_lines_of(lines.flatten(), pieces.flatten()),
    decreases pieces.len(),
{
    if pieces.len() > 0 {
        let more_lines = lines.drop_first();
        let rest = pieces.drop_first();
        assert(are_lines_of(lines[0], pieces[0]));
        assert forall|i: int| 0 <= i < rest.len() implies are_lines_of(
            #[trigger] more_lines[i],
            #[trigger] rest[i],
        ) by {
            assert(are_lines_of(lines[i + 1], pieces[i + 1]));
        }
        assert forall|i: int| 0 <= i < rest.len() - 1 implies (#[trigger] rest[i]).len() == 0
            || rest[i].last() == NEWLINE by {
            assert(rest[i] == pieces[i + 1]);
        }
        law_lines_of_a_whole_log(more_lines, rest);
        if pieces.len() == 1 {
            assert(lines.flatten() =~= lines[0]);
            assert(pieces.flatten() =~= pieces[0]);
        } else {
            law_lines_in_pieces(lines[0], pieces[0], more_lines.flatten(), rest.flatten());
        }
    }
}

/// A pair of a distinct list is what its name is bound to.
proof fn lemma_binding(pairs: Pairs, i: int)
    requires
        distinct_names(pairs),
        0 <= i < pairs.len(),
    ensures
        bindings(pairs).contains_key(pairs[i].0),
        bindings(pairs)[pairs[i].0] == pairs[i].1,
{
    let name = pairs[i].0;
    assert(has_name(pairs, name));
    let j = choose|j: int| 0 <= j < pairs.len() && (#[trigger] pairs[j]).0 == name;
    assert(i == j);
}

proof fn lemma_bind_inserts(pairs: Pairs, name: Seq<char>, value: Seq<char>)
    requires
        distinct_names(pairs),
    ensures
        bindings(bind(pairs, name, value)) == bindings(pairs).insert(name, value),
{
    let bound = bind(pairs, name, value);
    let expected = bindings(pairs).insert(name, value);
    super::argstrs::lemma_bind_distinct(pairs, name, value);
    assert forall|key: Seq<char>| bindings(bound).contains_key(key) <==> expected.contains_key(
        key,
    ) by {
        if has_name(bound, key) {
            let i = choose|i: int| 0 <= i < bound.len() && (#[trigger] bound[i]).0 == key;
            if i < pairs.len() {
                assert(pairs[i].0 == key);
            }
        }
        if has_name(pairs, key) {
            let i = choose|i: int| 0 <= i < pairs.len() && (#[trigger] pairs[i]).0 == key;
            assert(bound[i].0 == key);
        }
        if key == name && !has_name(pairs, name) {
            assert(bound.last().0 == key);
        }
    }
    assert forall|key: Seq<char>| bindings(bound).contains_key(key) implies bindings(bound)[key]
        == expected[key] by {
        let i = choose|i: int| 0 <= i < bound.len() && (#[trigger] bound[i]).0 == key;
        lemma_binding(bound, i);
        if key != name {
            lemma_binding(pairs, i);
        }
    }
    assert(bindings(bound) =~= expected);
}

/// Taking a pair out of the list takes its three words out of the arguments.
proof fn lemma_words_without(pairs: Pairs, i: int)
    requires
        0 <= i < pairs.len(),
    ensures
        argstr_words(pairs).to_multiset() == argstr_words(pairs.remove(i)).to_multiset().add(
            argstr_word_triple(pairs[i]).to_multiset(),
        ),
    decreases pairs.len(),
{
    let init = pairs.drop_last();
    let last = argstr_word_triple(pairs.last());
    vstd::seq_lib::lemma_multiset_commutative(argstr_words(init), last);
    if i == pairs.len() - 1 {
        assert(pairs.remove(i) =~= init);
    } else {
        let rest = pairs.remove(i);
        assert(rest.drop_last() =~= init.remove(i));
        assert(rest.last() == pairs.last());
        vstd::seq_lib::lemma_multiset_commutative(argstr_words(init.remove(i)), last);
        lemma_words_without(init, i);
        assert(argstr_words(pairs).to_multiset() =~= argstr_words(rest).to_multiset().add(
            argstr_word_triple(pairs[i]).to_multiset(),
        ));
    }
}

/// Taking a pair out of a distinct list unbinds its name.
proof fn lemma_remove_unbinds(pairs: Pairs, i: int)
    requires
        distinct_names(pairs),
        0 <= i < pairs.len(),
    ensures
        distinct_names(pairs.remove(i)),
        bindings(pairs.remove(i)) == bindings(pairs).remove(pairs[i].0),
{
    let rest = pairs.remove(i);
    let expected = bindings(pairs).remove(pairs[i].0);
    assert(distinct_names(rest));
    assert forall|key: Seq<char>| bindings(rest).contains_key(key) <==> expected.contains_key(
        key,
    ) by {
        if has_name(rest, key) {
            let j = choose|j: int| 0 <= j < rest.len() && (#[trigger] rest[j]).0 == key;
            let k = if j < i {
                j
            } else {
                j + 1
            };
            assert(pairs[k].0 == key);
        }
        if has_name(pairs, key) && key != pairs[i].0 {
            let k = choose|k: int| 0 <= k < pairs.len() && (#[trigger] pairs[k]).0 == key;
            let j = if k < i {
                k
            } else {
                k - 1
            };
            assert(rest[j].0 == key);
        }
    }
    assert forall|key: Seq<char>| bindings(rest).contains_key(key) implies bindings(rest)[key]
        == expected[key] by {
        let j = choose|j: int| 0 <= j < rest.len() && (#[trigger] rest[j]).0 == key;
        let k = if j < i {
            j
        } else {
            j + 1
        };
        lemma_binding(rest, j);
        lemma_binding(pairs, k);
    }
    assert(bindings(rest) =~= expected);
}

/// Taking a pair out of the list takes out that pair and no other.
proof fn lemma_pairs_without(pairs: Pairs, i: int)
    requires
        0 <= i < pairs.len(),
    ensures
        pairs.to_multiset() == pairs.remove(i).to_multiset().insert(pairs[i]),
{
    broadcast use vstd::seq_lib::group_to_multiset_ensures;

    assert(pairs.contains(pairs[i]));
    assert(pairs.to_multiset() =~= pairs.remove(i).to_multiset().insert(pairs[i]));
}

proof fn lemma_same_bindings_same_pairs(one: Pairs, other: Pairs)
    requires
        distinct_names(one),
        distinct_names(other),
        bindings(one) == bindings(other),
    ensures
        one.to_multiset() == other.to_multiset(),
        argstr_words(one).to_multiset() == argstr_words(other).to_multiset(),
    decreases one.len(),
{
    if one.len() == 0 {
        if other.len() > 0 {
            lemma_binding(other, 0);
            assert(has_name(one, other[0].0));
        }
        assert(one =~= other);
    } else {
        let last = one.len() - 1;
        let (name, value) = one[last];
        lemma_binding(one, last);
        assert(has_name(other, name));
        let i = choose|i: int| 0 <= i < other.len() && (#[trigger] other[i]).0 == name;
        lemma_binding(other, i);
        assert(other[i] == one[last]);
        lemma_remove_unbinds(one, last);
        lemma_remove_unbinds(other, i);
        lemma_same_bindings_same_pairs(one.remove(last), other.remove(i));
        lemma_words_without(one, last);
        lemma_words_without(other, i);
        lemma_pairs_without(one, last);
        lemma_pairs_without(other, i);
    }
}

proof fn lemma_argstr_words_layout(pairs: Pairs)
    ensures
        argstr_words(pairs).len() == 3 * pairs.len(),
        forall|i: int|
            0 <= i < pairs.len() ==> stands_at(argstr_words(pairs), 3 * i, #[trigger] pairs[i]),
    decreases pairs.len(),
{
    if pairs.len() > 0 {
        let init = pairs.drop_last();
        lemma_argstr_words_layout(init);
        assert forall|i: int| 0 <= i < pairs.len() implies stands_at(
            argstr_words(pairs),
            3 * i,
            #[trigger] pairs[i],
        ) by {
            if i < init.len() {
                assert(stands_at(argstr_words(init), 3 * i, init[i]));
            }
        }
    }
}

/// A single line, written out.
proof fn lemma_one_line(text: Seq<u8>)
    ensures
        terminated(seq![text]) == text.push(NEWLINE),
{
    let one = seq![text];
    assert(one.drop_last() =~= Seq::<Seq<u8>>::empty());
    assert(terminated(one.drop_last()) =~= Seq::<u8>::empty());
    assert(one.last() == text);
    assert(terminated(one) =~= text.push(NEWLINE));
}

/// Every output has lines.
proof fn lemma_some_lines(output: Seq<u8>) -> (lines: Seq<Seq<u8>>)
    ensures
        are_lines_of(lines, output),
    decreases output.len(),
{
    if output.len() == 0 {
        let none = Seq::<Seq<u8>>::empty();
        assert(terminated(none) =~= output);
        none
    } else if unbroken(output) {
        lemma_one_line(output);
        assert(are_lines_of(seq![output], output));
        seq![output]
    } else {
        let end = lemma_first_end(output);
        let text = output.take(end);
        let piece = output.take(end + 1);
        let rest = output.skip(end + 1);
        lemma_one_line(text);
        assert(piece =~= text.push(NEWLINE));
        assert(are_lines_of(seq![text], piece));
        let others = lemma_some_lines(rest);
        law_lines_in_pieces(seq![text], piece, others, rest);
        assert(piece + rest =~= output);
        seq![text] + others
    }
}

/// The first line end of an output that has one.
proof fn lemma_first_end(output: Seq<u8>) -> (end: int)
    requires
        !unbroken(output),
    ensures
        0 <= end < output.len(),
        output[end] == NEWLINE,
        unbroken(output.take(end)),
    decreases output.len(),
{
    let last = output.len() - 1;
    let init = output.take(last);
    if unbroken(init) {
        assert(output[last] == NEWLINE) by {
            let i = choose|i: int| 0 <= i < output.len() && #[trigger] output[i] == NEWLINE;
            if i < last {
                assert(init[i] == NEWLINE);
            }
        }
        last
    } else {
        let end = lemma_first_end(init);
        assert(init.take(end) =~= output.take(end));
        end
    }
}

proof fn lemma_terminated_concat(one: Seq<Seq<u8>>, other: Seq<Seq<u8>>)
    ensures
        terminated(one + other) == terminated(one) + terminated(other),
    decreases other.len(),
{
    if other.len() == 0 {
        assert(one + other =~= one);
        assert(terminated(one) + terminated(other) =~= terminated(one));
    } else {
        assert((one + other).drop_last() =~= one + other.drop_last());
        lemma_terminated_concat(one, other.drop_last());
        assert(terminated(one + other) =~= terminated(one) + terminated(other));
    }
}

/// Lines without line ends in them can be told from how they are written out.
proof fn lemma_terminated_is_injective(one: Seq<Seq<u8>>, other: Seq<Seq<u8>>)
    requires
        forall|i: int| 0 <= i < one.len() ==> unbroken(#[trigger] one[i]),
        forall|i: int| 0 <= i < other.len() ==> unbroken(#[trigger] other[i]),
        terminated(one) == terminated(other),
    ensures
        one == other,
    decreases one.len(),
{
    let text = terminated(one);
    if one.len() == 0 || other.len() == 0 {
        assert(other.len() > 0 ==> text.len() >= other.last().push(NEWLINE).len());
        assert(one.len() > 0 ==> text.len() >= one.last().push(NEWLINE).len());
        assert(one =~= other);
    } else {
        let a = one.last();
        let b = other.last();
        let heads = (terminated(one.drop_last()), terminated(other.drop_last()));
        assert(text == heads.0 + a.push(NEWLINE));
        assert(text == heads.1 + b.push(NEWLINE));
        lemma_terminated_ends(one.drop_last());
        lemma_terminated_ends(other.drop_last());
        if a.len() < b.len() {
            assert(heads.0.last() == text[heads.0.len() - 1]);
            assert(b[heads.0.len() - 1 - heads.1.len()] == NEWLINE);
        } else if b.len() < a.len() {
            assert(heads.1.last() == text[heads.1.len() - 1]);
            assert(a[heads.1.len() - 1 - heads.0.len()] == NEWLINE);
        }
        assert(heads.0 =~= text.take(heads.0.len() as int));
        assert(heads.1 =~= text.take(heads.1.len() as int));
        assert forall|i: int| 0 <= i < a.len() implies a[i] == b[i] by {
            assert(a[i] == text[heads.0.len() + i]);
            assert(b[i] == text[heads.1.len() + i]);
        }
        assert(a =~= b);
        lemma_terminated_is_injective(one.drop_last(), other.drop_last());
        assert(one =~= one.drop_last().push(a));
        assert(other =~= other.drop_last().push(b));
    }
}

proof fn lemma_terminated_ends(lines: Seq<Seq<u8>>)
    ensures
        terminated(lines).len() == 0 || terminated(lines).last() == NEWLINE,
{
}

} // verus!
