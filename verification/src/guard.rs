//! The two checks that stand before every effect: the deposit that admits a call, and the
//! identity that may pay out.

use vstd::prelude::*;
use crate::account::AccountId;
use crate::contract::Contract;
use crate::error::Error;

verus! {

/// What a guarded call must carry: one minimal unit, no more and no less.
pub const MINIMAL_DEPOSIT: u128 = 1;

/// Admits a call that carries exactly the minimal deposit.
pub fn verify_exact_minimal_deposit(attached: u128) -> (r: Result<(), Error>)
    ensures
        attached == MINIMAL_DEPOSIT ==> r is Ok,
        attached != MINIMAL_DEPOSIT ==> r == Err::<(), Error>(Error::InvalidDeposit),
{
    if attached == MINIMAL_DEPOSIT {
        Ok(())
    } else {
        Err(Error::InvalidDeposit)
    }
}

/// Admits a call made by the owner of `state`.
pub fn verify_owner(caller: &AccountId, state: &Contract) -> (r: Result<(), Error>)
    ensures
        caller@ == state.owner_id() ==> r is Ok,
        caller@ != state.owner_id() ==> r == Err::<(), Error>(Error::Unauthorized),
{
    if *caller == *state.owner() {
        Ok(())
    } else {
        Err(Error::Unauthorized)
    }
}

} // verus!
