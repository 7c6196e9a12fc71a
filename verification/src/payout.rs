//! Transfers that the ledger asks its host to make.

use vstd::prelude::*;
use crate::account::AccountId;

verus! {

/// An order to move `amount` minimal units to `recipient`. The ledger hands it to the host
/// and never learns whether the transfer settled.
#[derive(Debug, PartialEq, Eq)]
pub struct PayoutRequest {
    pub recipient: AccountId,
    pub amount: u128,
}

/// A payout request as contracts speak of it.
pub struct PayoutRequestView {
    pub recipient: Seq<char>,
    pub amount: u128,
}

impl View for PayoutRequest {
    type V = PayoutRequestView;

    open spec fn view(&self) -> PayoutRequestView {
        PayoutRequestView { recipient: self.recipient@, amount: self.amount }
    }
}

impl Clone for PayoutRequest {
    fn clone(&self) -> (copy: Self)
        ensures
            copy == *self,
    {
        PayoutRequest { recipient: self.recipient.clone(), amount: self.amount }
    }
}

} // verus!
