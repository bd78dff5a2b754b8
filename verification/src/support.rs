//! The result that a state transition hands back to its caller.

use vstd::prelude::*;

verus! {

/// Why a state transition was rejected.
#[derive(Debug, Clone, Copy, PartialEq, Eq, Structural)]
pub enum DispatchError {
    /// The debit exceeds what the paying account holds.
    InsufficientFunds,
    /// The credit would exceed what the balance type can hold.
    Overflow,
}

/// What a state transition returns: nothing on success, the reason on failure.
pub type DispatchResult = Result<(), DispatchError>;

impl DispatchError {
    /// The text that describes this error.
    pub fn message(&self) -> (text: &'static str)
        ensures
            text@ == match *self {
                DispatchError::InsufficientFunds => "Insufficient funds"@,
                DispatchError::Overflow => "Overflow"@,
            },
    {
        match self {
            DispatchError::InsufficientFunds => "Insufficient funds",
            DispatchError::Overflow => "Overflow",
        }
    }
}

} // verus!
