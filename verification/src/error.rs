//! Why an operation on a counter had no effect.

use vstd::prelude::*;

verus! {

/// The counter's own refusals. Both come from `finalize`, and both leave the
/// account as it was.
#[derive(Clone, Copy, Debug, PartialEq, Eq, Structural)]
pub enum CustomError {
    /// The count is below the least value at which an account may be closed.
    CountNotHighEnough,
    /// The caller is not the owner on record.
    NotOwner,
}

impl CustomError {
    /// The sentence shown to the caller.
    pub open spec fn message_text(self) -> Seq<char> {
        match self {
            CustomError::CountNotHighEnough => "Count must be at least 3 to finalize."@,
            CustomError::NotOwner => "Only the owner can perform this action."@,
        }
    }

    /// The reason in words, for the caller to read.
    pub fn message(&self) -> (text: String)
        ensures
            text@ == self.message_text(),
    {
        match self {
            CustomError::CountNotHighEnough => "Count must be at least 3 to finalize.".to_string(),
            CustomError::NotOwner => "Only the owner can perform this action.".to_string(),
        }
    }
}

/// Every way an operation on a slot can fail. `E` is the error type of the
/// ledger and of the identity verifier: a value of it is carried through
/// exactly as it was given.
#[derive(Clone, Copy, Debug, PartialEq, Eq)]
pub enum Failure<E> {
    /// The operation needs an account and the slot holds none.
    NoAccount,
    /// The slot already holds an account, so none can be created in it.
    SlotOccupied,
    /// The caller did not prove control of the key it claims.
    Authentication(E),
    /// The ledger could not do its part of the operation.
    Ledger(E),
    /// The counter's rules refuse the operation.
    Rule(CustomError),
}

} // verus!
