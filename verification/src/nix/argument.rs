//! The words of a command line.

use std::path::Path;
use vstd::prelude::*;

use super::path::path_bytes;

verus! {

/// One argument of a Nix command.
#[derive(Debug, Clone, Copy, PartialEq, Eq)]
pub enum Argument<'a> {
    /// An option, an expression, a name or a value.
    Text(&'a str),
    /// A location in the file system, which need not be valid text.
    Path(&'a Path),
}

/// What an [`Argument`] says.
pub enum Word {
    /// The characters of a text.
    Text(Seq<char>),
    /// The bytes of a path.
    Path(Seq<u8>),
}

impl<'a> View for Argument<'a> {
    type V = Word;

    open spec fn view(&self) -> Word {
        match *self {
            Argument::Text(text) => Word::Text(text@),
            Argument::Path(path) => Word::Path(path_bytes(path)),
        }
    }
}

/// What a list of arguments says, in order.
pub open spec fn words(arguments: Seq<Argument<'_>>) -> Seq<Word> {
    arguments.map_values(|argument: Argument<'_>| argument@)
}

} // verus!
