//! The description of a Nix call, and the command lines that it stands for.

use std::path::Path;
use std::sync::mpsc::Sender;
use vstd::prelude::*;

use super::argstrs::{bind, distinct_names, lemma_bind_contains, Argstrs, Pairs};
use super::argument::{words, Argument, Word};
use super::path::path_bytes;

verus! {

/// `std::sync::mpsc::Sender`, carried along.
#[verifier::external_type_specification]
#[verifier::external_body]
#[verifier::reject_recursive_types(T)]
pub struct ExSender<T>(std::sync::mpsc::Sender<T>);

/// Cloning a `Sender` gives another handle on the same channel, and the
/// channel is all that a sender stands for.
pub assume_specification<T>[ <std::sync::mpsc::Sender<T> as Clone>::clone ](
    sender: &std::sync::mpsc::Sender<T>,
) -> (copy: std::sync::mpsc::Sender<T>)
    ensures
        copy == *sender,
;

/// What Nix is given to work on.
pub enum CallInput {
    /// The text of a Nix expression.
    Expression(Seq<char>),
    /// The path of a Nix file.
    File(Seq<u8>),
}

/// What a [`CallOpts`] describes.
#[verifier::ext_equal]
pub struct Call {
    /// The expression or file.
    pub input: CallInput,
    /// The sub attribute to evaluate, if not the whole expression.
    pub attribute: Option<Seq<char>>,
    /// The string arguments to the expression.
    pub argstrs: Pairs,
    /// Where the lines that Nix logs go.
    pub stderr: Option<Sender<Vec<u8>>>,
}

impl Call {
    /// A call on `input` and nothing else.
    pub open spec fn plain(input: CallInput) -> Call {
        Call { input, attribute: None, argstrs: Pairs::empty(), stderr: None }
    }

    /// The call, evaluating `attribute`.
    pub open spec fn with_attribute(self, attribute: Seq<char>) -> Call {
        Call { attribute: Some(attribute), ..self }
    }

    /// The call, with the argument `name` bound to `value`.
    pub open spec fn with_argstr(self, name: Seq<char>, value: Seq<char>) -> Call {
        Call { argstrs: bind(self.argstrs, name, value), ..self }
    }

    /// The call, logging to `sender`.
    pub open spec fn with_stderr(self, sender: Sender<Vec<u8>>) -> Call {
        Call { stderr: Some(sender), ..self }
    }

    /// Each argument is bound once.
    pub open spec fn valid(self) -> bool {
        distinct_names(self.argstrs)
    }

    /// The arguments common to all Nix commands: the attribute, the string
    /// arguments, the input.
    pub open spec fn arguments(self) -> Seq<Word> {
        attribute_words(self.attribute) + argstr_words(self.argstrs) + input_words(self.input)
    }

    /// The arguments of the command that evaluates the call.
    pub open spec fn value_arguments(self) -> Seq<Word> {
        seq![Word::Text("--eval"@), Word::Text("--json"@), Word::Text("--strict"@)]
            + self.arguments()
    }

    /// The arguments of the command that builds the call and leaves a link to
    /// the output at `out_link`.
    pub open spec fn paths_arguments(self, out_link: Seq<u8>) -> Seq<Word> {
        seq![Word::Text("--out-link"@), Word::Path(out_link)] + self.arguments()
    }
}

/// How an attribute is passed.
pub open spec fn attribute_words(attribute: Option<Seq<char>>) -> Seq<Word> {
    match attribute {
        Some(name) => seq![Word::Text("-A"@), Word::Text(name)],
        None => Seq::empty(),
    }
}

/// How one string argument is passed.
pub open spec fn argstr_word_triple(pair: (Seq<char>, Seq<char>)) -> Seq<Word> {
    seq![Word::Text("--argstr"@), Word::Text(pair.0), Word::Text(pair.1)]
}

/// How string arguments are passed: one after the other.
pub open spec fn argstr_words(pairs: Pairs) -> Seq<Word>
    decreases pairs.len(),
{
    if pairs.len() == 0 {
        Seq::empty()
    } else {
        argstr_words(pairs.drop_last()) + argstr_word_triple(pairs.last())
    }
}

/// How the input is passed.
pub open spec fn input_words(input: CallInput) -> Seq<Word> {
    match input {
        CallInput::Expression(text) => seq![Word::Text("--expr"@), Word::Text(text)],
        CallInput::File(path) => seq![Word::Text("--"@), Word::Path(path)],
    }
}

/// A command to run: a program and its arguments.
#[derive(Debug, PartialEq, Eq)]
pub struct Invocation<'a> {
    /// The name of the program, to be looked up on PATH.
    pub program: &'a str,
    /// The arguments, in order.
    pub arguments: Vec<Argument<'a>>,
}

/// Which input to give nix.
enum Input<'a> {
    /// A nix expression string.
    Expression(&'a str),
    /// A nix file.
    File(&'a Path),
}

impl<'a> Input<'a> {
    spec fn model(self) -> CallInput {
        match self {
            Input::Expression(text) => CallInput::Expression(text@),
            Input::File(path) => CallInput::File(path_bytes(path)),
        }
    }
}

/// Execute Nix commands using a builder-pattern abstraction.
pub struct CallOpts<'a> {
    input: Input<'a>,
    attribute: Option<String>,
    argstrs: Argstrs,
    stderr_line_tx: Option<Sender<Vec<u8>>>,
}

impl<'a> View for CallOpts<'a> {
    type V = Call;

    closed spec fn view(&self) -> Call {
        Call {
            input: self.input.model(),
            attribute: match self.attribute {
                Some(name) => Some(name@),
                None => None,
            },
            argstrs: self.argstrs@,
            stderr: self.stderr_line_tx,
        }
    }
}

impl<'a> CallOpts<'a> {
    /// Create a CallOpts with the Nix expression `expr`.
    pub fn expression(expr: &'a str) -> (opts: CallOpts<'a>)
        ensures
            opts@ == Call::plain(CallInput::Expression(expr@)),
            opts@.input == CallInput::Expression(expr@),
            opts@.attribute is None,
            opts@.argstrs.len() == 0,
            opts@.stderr is None,
            opts@.valid(),
    {
        CallOpts {
            input: Input::Expression(expr),
            attribute: None,
            argstrs: Argstrs::new(),
            stderr_line_tx: None,
        }
    }

    /// Create a CallOpts with the Nix file `nix_file`.
    pub fn file(nix_file: &'a Path) -> (opts: CallOpts<'a>)
        ensures
            opts@ == Call::plain(CallInput::File(path_bytes(nix_file))),
            opts@.input == CallInput::File(path_bytes(nix_file)),
            opts@.attribute is None,
            opts@.argstrs.len() == 0,
            opts@.stderr is None,
            opts@.valid(),
    {
        CallOpts {
            input: Input::File(nix_file),
            attribute: None,
            argstrs: Argstrs::new(),
            stderr_line_tx: None,
        }
    }

    /// Provide a Sender half of an mpsc channel, where Nix will send
    /// stderr log lines.
    ///
    /// It is an error to hang up the receiver before the end of
    /// execution. The stderr processing thread will panic, and data
    /// will buffer in the kernel. This could result in a deadlock.
    pub fn set_stderr_sender(&mut self, sender: Sender<Vec<u8>>) -> (opts: &mut Self)
        ensures
            opts@ == old(self)@.with_stderr(sender),
            opts@.stderr == Some(sender),
            opts@.input == old(self)@.input,
            opts@.attribute == old(self)@.attribute,
            opts@.argstrs == old(self)@.argstrs,
            opts@.valid(),
            *final(self) == *final(opts),
    {
        proof {
            use_type_invariant(&self.argstrs);
        }
        self.stderr_line_tx = Some(sender);
        self
    }

    /// The Sender that stderr log lines go to, if there is one.
    pub fn stderr_sender(&self) -> (sender: Option<Sender<Vec<u8>>>)
        ensures
            sender == self@.stderr,
    {
        match &self.stderr_line_tx {
            Some(sender) => Some(sender.clone()),
            None => None,
        }
    }

    /// Evaluate a sub attribute of the expression. Only supports one:
    /// calling attribute() multiple times is supported, but overwrites
    /// the previous attribute.
    ///
    /// This is due to the following difficult to handle edge case of
    ///
    /// nix-instantiate --eval --strict --json -E '{ a = 1; b = 2; }' -A a -A b
    ///
    /// producing "12".
    pub fn attribute(&mut self, attr: &str) -> (opts: &mut Self)
        ensures
            opts@ == old(self)@.with_attribute(attr@),
            opts@.attribute == Some(attr@),
            opts@.input == old(self)@.input,
            opts@.argstrs == old(self)@.argstrs,
            opts@.stderr == old(self)@.stderr,
            opts@.valid(),
            *final(self) == *final(opts),
    {
        proof {
            use_type_invariant(&self.argstrs);
        }
        self.attribute = Some(attr.to_string());
        self
    }

    /// Specify an argument to the expression, where the argument's value
    /// is to be interpreted as a string. Arguments are passed in the order in
    /// which their names were first specified, each with its latest value.
    pub fn argstr(&mut self, name: &str, value: &str) -> (opts: &mut Self)
        ensures
            opts@ == old(self)@.with_argstr(name@, value@),
            opts@.argstrs.contains((name@, value@)),
            opts@.input == old(self)@.input,
            opts@.attribute == old(self)@.attribute,
            opts@.stderr == old(self)@.stderr,
            opts@.valid(),
            *final(self) == *final(opts),
    {
        proof {
            lemma_bind_contains(self.argstrs@, name@, value@);
        }
        self.argstrs.insert(name, value);
        self
    }

    /// Fetch common arguments passed to Nix's CLI, specifically
    /// the --expr expression, -A attribute, and --argstr values. No name is
    /// passed twice.
    pub fn command_arguments(&self) -> (arguments: Vec<Argument<'_>>)
        ensures
            words(arguments@) == self@.arguments(),
            self@.valid(),
    {
        proof {
            use_type_invariant(&self.argstrs);
        }
        let mut ret: Vec<Argument<'_>> = Vec::new();
        if let Some(attr) = &self.attribute {
            ret.push(Argument::Text("-A"));
            ret.push(Argument::Text(attr.as_str()));
        }
        assert(words(ret@) =~= attribute_words(self@.attribute));
        let mut i: usize = 0;
        while i < self.argstrs.len()
            invariant
                i <= self.argstrs@.len(),
                words(ret@) == attribute_words(self@.attribute) + argstr_words(
                    self.argstrs@.take(i as int),
                ),
            decreases self.argstrs@.len() - i,
        {
            let ghost done = self.argstrs@.take(i as int);
            let ghost next = self.argstrs@.take(i + 1);
            let ghost before = words(ret@);
            let (name, value) = self.argstrs.get(i);
            ret.push(Argument::Text("--argstr"));
            ret.push(Argument::Text(name));
            ret.push(Argument::Text(value));
            proof {
                assert(next.drop_last() =~= done);
                assert(words(ret@) =~= before + argstr_word_triple(next.last()));
            }
            i = i + 1;
        }
        assert(self.argstrs@.take(i as int) =~= self.argstrs@);
        let ghost before = words(ret@);
        match self.input {
            Input::Expression(exp) => {
                ret.push(Argument::Text("--expr"));
                ret.push(Argument::Text(exp));
            },
            Input::File(fp) => {
                ret.push(Argument::Text("--"));
                ret.push(Argument::Path(fp));
            },
        }
        assert(words(ret@) =~= before + input_words(self@.input));
        ret
    }

    /// The command that evaluates the expression and prints its value as JSON.
    pub fn value_command(&self) -> (command: Invocation<'_>)
        ensures
            command.program@ == "nix-instantiate"@,
            words(command.arguments@) == self@.value_arguments(),
            words(command.arguments@) == seq![
                Word::Text("--eval"@),
                Word::Text("--json"@),
                Word::Text("--strict"@),
            ] + self@.arguments(),
            self@.valid(),
    {
        let mut arguments: Vec<Argument<'_>> = Vec::new();
        arguments.push(Argument::Text("--eval"));
        arguments.push(Argument::Text("--json"));
        arguments.push(Argument::Text("--strict"));
        let mut common: Vec<Argument<'_>> = self.command_arguments();
        arguments.append(&mut common);
        assert(words(arguments@) =~= self@.value_arguments());
        Invocation { program: "nix-instantiate", arguments }
    }

    /// The command that builds the expression, prints the paths of the
    /// results, and leaves links to them at `out_link`.
    pub fn paths_command<'b>(&'b self, out_link: &'b Path) -> (command: Invocation<'b>)
        ensures
            command.program@ == "nix-build"@,
            words(command.arguments@) == self@.paths_arguments(path_bytes(out_link)),
            words(command.arguments@) == seq![
                Word::Text("--out-link"@),
                Word::Path(path_bytes(out_link)),
            ] + self@.arguments(),
            self@.valid(),
    {
        let mut arguments: Vec<Argument<'b>> = Vec::new();
        arguments.push(Argument::Text("--out-link"));
        arguments.push(Argument::Path(out_link));
        let mut common: Vec<Argument<'b>> = self.command_arguments();
        arguments.append(&mut common);
        assert(words(arguments@) =~= self@.paths_arguments(path_bytes(out_link)));
        Invocation { program: "nix-build", arguments }
    }
}

impl<'a> Clone for CallOpts<'a> {
    fn clone(&self) -> (copy: CallOpts<'a>)
        ensures
            copy@ == self@,
            copy@.valid(),
    {
        CallOpts {
            input: match self.input {
                Input::Expression(text) => Input::Expression(text),
                Input::File(path) => Input::File(path),
            },
            attribute: match &self.attribute {
                Some(name) => Some(name.clone()),
                None => None,
            },
            argstrs: self.argstrs.clone(),
            stderr_line_tx: self.stderr_sender(),
        }
    }
}

} // verus!
