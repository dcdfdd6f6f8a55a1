//! How a finished process ended.

use vstd::prelude::*;

verus! {

/// The wait status of a finished process, as `wait(2)` reports it.
#[derive(Debug, Clone, Copy, PartialEq, Eq, Structural)]
pub struct ExitStatus {
    raw: i32,
}

impl ExitStatus {
    /// The wait status word.
    pub closed spec fn spec_raw(self) -> i32 {
        self.raw
    }

    /// The process ran to its end and returned zero: the one wait status
    /// whose word is zero.
    pub open spec fn is_success(self) -> bool {
        self.spec_raw() == 0
    }

    /// The status with the wait status word `raw`.
    pub fn from_raw(raw: i32) -> (status: ExitStatus)
        ensures
            status.spec_raw() == raw,
    {
        ExitStatus { raw }
    }

    /// The wait status word.
    pub fn into_raw(self) -> (raw: i32)
        ensures
            raw == self.spec_raw(),
    {
        self.raw
    }

    /// Whether the process was successful. Termination by a signal is not.
    pub fn success(&self) -> (yes: bool)
        ensures
            yes == self.is_success(),
            yes == (self.spec_raw() == 0),
    {
        self.raw == 0
    }
}

/// Nothing but the word makes up a status.
pub proof fn lemma_word_decides(status: ExitStatus, other: ExitStatus)
    ensures
        status.spec_raw() == other.spec_raw() ==> status == other,
{
}

} // verus!
