//! The ways in which a prompt can end without an answer.

use vstd::prelude::*;

verus! {

/// Why a prompt returned no answer.
///
/// A rejected submission is not among these: it is shown to the user, who may
/// correct the input, and never leaves the prompt loop.
#[derive(Clone, Copy, Debug, PartialEq, Eq, Structural)]
pub enum InquireError {
    /// The user asked to abort the prompt.
    OperationCanceled,
    /// The terminal could not deliver another key.
    IO,
}

pub type InquireResult<T> = Result<T, InquireError>;

} // verus!
