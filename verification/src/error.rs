//! Why a call was turned away.

use vstd::prelude::*;

verus! {

/// The three ways a call fails. A failed call has no effect at all.
#[derive(Clone, Copy, Debug, PartialEq, Eq, Structural)]
pub enum Error {
    /// A guarded call did not carry exactly one minimal unit.
    InvalidDeposit,
    /// A payout was asked for by someone other than the owner.
    Unauthorized,
    /// A batch payout named more recipients than amounts, or fewer.
    LengthMismatch,
}

impl Error {
    /// The text that goes with each failure.
    pub open spec fn message_text(self) -> Seq<char> {
        match self {
            Error::InvalidDeposit => "attach exactly 1 yoctoNEAR"@,
            Error::Unauthorized => "Only owner"@,
            Error::LengthMismatch => "Length mismatch"@,
        }
    }

    /// The text with which the host aborts the call.
    pub fn message(&self) -> (text: &'static str)
        ensures
            text@ == self.message_text(),
    {
        match self {
            Error::InvalidDeposit => "attach exactly 1 yoctoNEAR",
            Error::Unauthorized => "Only owner",
            Error::LengthMismatch => "Length mismatch",
        }
    }
}

} // verus!
