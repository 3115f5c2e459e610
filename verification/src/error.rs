//! The ways in which a ledger operation is refused.

use vstd::prelude::*;

verus! {

/// Why a ledger operation was refused. A refused operation changes nothing.
#[derive(Clone, Copy, Debug, PartialEq, Eq, Structural)]
pub enum MyError {
    /// The sender holds less than the amount asked for.
    InsufficientFunds,
    /// The recipient's balance, increased by the amount, would no longer fit
    /// in 64 bits.
    Overflow,
}

impl MyError {
    /// The text that `message` returns.
    pub open spec fn message_spec(&self) -> Seq<char> {
        match self {
            MyError::InsufficientFunds => "Insufficient funds"@,
            MyError::Overflow => "Recipient balance overflow"@,
        }
    }

    /// A fixed, human-readable description of the error.
    pub fn message(&self) -> (text: &'static str)
        ensures
            text@ == self.message_spec(),
    {
        match self {
            MyError::InsufficientFunds => "Insufficient funds",
            MyError::Overflow => "Recipient balance overflow",
        }
    }
}

} // verus!
