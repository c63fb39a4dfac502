//! What the host runtime hands back when it is asked to do something, and how
//! a command reports that to its caller.

use vstd::prelude::*;

verus! {

/// A failure reported by the host runtime. It carries the host's free-text
/// diagnostic and nothing else: there are no error codes.
#[derive(Clone, Debug, PartialEq, Eq)]
pub struct HostOperationError {
    pub diagnostic: String,
}

impl View for HostOperationError {
    type V = Seq<char>;

    open spec fn view(&self) -> Seq<char> {
        self.diagnostic@
    }
}

impl HostOperationError {
    /// Wraps the diagnostic text that the host produced.
    pub fn new(diagnostic: String) -> (error: HostOperationError)
        ensures
            error@ == diagnostic@,
    {
        HostOperationError { diagnostic }
    }

    /// The diagnostic text, unchanged.
    pub fn into_diagnostic(self) -> (diagnostic: String)
        ensures
            diagnostic@ == self@,
    {
        self.diagnostic
    }
}

/// What the caller of a command sees for a given host reply: success for
/// success, and for a failure the host's diagnostic, character for character.
pub open spec fn reported(reply: Result<(), HostOperationError>) -> Result<(), Seq<char>> {
    match reply {
        Ok(_) => Ok(()),
        Err(error) => Err(error@),
    }
}

/// The mathematical value of a command's result: the diagnostic as a
/// sequence of characters.
pub open spec fn outcome_view(outcome: Result<(), String>) -> Result<(), Seq<char>> {
    match outcome {
        Ok(_) => Ok(()),
        Err(diagnostic) => Err(diagnostic@),
    }
}

/// Turns the host's reply into the command's result. A failure is passed on
/// verbatim as a plain string; nothing is retried and nothing is added.
pub fn report(reply: Result<(), HostOperationError>) -> (outcome: Result<(), String>)
    ensures
        outcome_view(outcome) == reported(reply),
{
    match reply {
        Ok(_) => Ok(()),
        Err(error) => Err(error.into_diagnostic()),
    }
}

} // verus!
