//! Lines of output.

use vstd::prelude::*;

verus! {

/// The byte that ends a line.
pub const NEWLINE: u8 = 10;

/// The bytes hold no line end.
pub open spec fn unbroken(bytes: Seq<u8>) -> bool {
    forall|i: int| 0 <= i < bytes.len() ==> #[trigger] bytes[i] != NEWLINE
}

/// Each line followed by a line end, one after the other.
pub open spec fn terminated(lines: Seq<Seq<u8>>) -> Seq<u8>
    decreases lines.len(),
{
    if lines.len() == 0 {
        Seq::empty()
    } else {
        terminated(lines.drop_last()) + lines.last().push(NEWLINE)
    }
}

/// `lines` are the lines of `output`: put together again they are the output,
/// save that a last line may lack its line end unless it is empty.
pub open spec fn are_lines_of(lines: Seq<Seq<u8>>, output: Seq<u8>) -> bool {
    &&& forall|i: int| 0 <= i < lines.len() ==> unbroken(#[trigger] lines[i])
    &&& terminated(lines) == if output.len() == 0 || output.last() == NEWLINE {
        output
    } else {
        output.push(NEWLINE)
    }
}

/// What a list of byte strings holds.
pub open spec fn contents(lines: Seq<Vec<u8>>) -> Seq<Seq<u8>> {
    lines.map_values(|line: Vec<u8>| line@)
}

/// Cut `output` into lines. The line ends are left out, and an output that
/// stops short of one still has its last line.
pub fn split_lines(output: &Vec<u8>) -> (lines: Vec<Vec<u8>>)
    ensures
        are_lines_of(contents(lines@), output@),
{
    let mut lines: Vec<Vec<u8>> = Vec::new();
    let mut line: Vec<u8> = Vec::new();
    let mut i: usize = 0;
    while i < output.len()
        invariant
            i <= output.len(),
            unbroken(line@),
            forall|k: int| 0 <= k < lines@.len() ==> unbroken(#[trigger] contents(lines@)[k]),
            terminated(contents(lines@)) + line@ == output@.take(i as int),
            line@.len() == 0 ==> i == 0 || output@[i - 1] == NEWLINE,
        decreases output.len() - i,
    {
        let byte: u8 = output[i];
        assert(output@.take(i + 1) =~= output@.take(i as int).push(byte));
        if byte == NEWLINE {
            let ghost before = contents(lines@);
            let ghost text = line@;
            lines.push(line);
            line = Vec::new();
            assert(contents(lines@) =~= before.push(text));
            assert(contents(lines@).drop_last() =~= before);
            assert(terminated(contents(lines@)) + line@ =~= output@.take(i + 1));
        } else {
            line.push(byte);
            assert(terminated(contents(lines@)) + line@ =~= output@.take(i + 1));
        }
        i = i + 1;
    }
    assert(output@.take(i as int) =~= output@);
    if line.len() > 0 {
        let ghost before = contents(lines@);
        let ghost text = line@;
        assert(output@.last() == text.last());
        lines.push(line);
        assert(contents(lines@) =~= before.push(text));
        assert(contents(lines@).drop_last() =~= before);
        assert(terminated(contents(lines@)) =~= output@.push(NEWLINE));
    } else {
        assert(terminated(contents(lines@)) =~= output@);
    }
    lines
}

} // verus!
