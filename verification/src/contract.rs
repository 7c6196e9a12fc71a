//! The ledger itself: one owner, fixed at deployment, and the operations open to callers.

use vstd::prelude::*;
use crate::account::AccountId;
use crate::error::Error;
use crate::event::{emit, Event, EventView};
use crate::guard::{verify_exact_minimal_deposit, verify_owner, MINIMAL_DEPOSIT};
use crate::payout::{PayoutRequest, PayoutRequestView};

verus! {

/// All that the ledger keeps: who owns it.
#[derive(Debug, PartialEq, Eq)]
pub struct Contract {
    owner: AccountId,
}

impl Clone for Contract {
    fn clone(&self) -> (copy: Self)
        ensures
            copy == *self,
    {
        Contract { owner: self.owner.clone() }
    }
}

impl Contract {
    /// The owner's identity.
    pub closed spec fn owner_id(&self) -> Seq<char> {
        self.owner@
    }

    /// The revision that every deployed ledger reports.
    pub open spec fn version_text() -> Seq<char> {
        "0.1.0"@
    }

    /// Deploys the ledger for `owner`.
    pub fn new(owner: AccountId) -> (state: Contract)
        ensures
            state.owner_id() == owner@,
    {
        Contract { owner }
    }

    /// The owner, borrowed.
    pub fn owner(&self) -> (owner: &AccountId)
        ensures
            owner@ == self.owner_id(),
    {
        &self.owner
    }

    /// Records a sign of life. The call must carry exactly the minimal deposit; the result
    /// is the line to append to the log.
    pub fn poke(&mut self, caller: AccountId, attached: u128, timestamp: u64) -> (r: Result<
        String,
        Error,
    >)
        ensures
            *final(self) == *old(self),
            attached != MINIMAL_DEPOSIT ==> r == Err::<String, Error>(Error::InvalidDeposit),
            attached == MINIMAL_DEPOSIT ==> r is Ok && r->Ok_0@ == (EventView::Poke {
                caller: caller@,
                timestamp,
            }).line(),
    {
        match verify_exact_minimal_deposit(attached) {
            Err(e) => Err(e),
            Ok(()) => Ok(emit(&Event::Poke { caller, timestamp })),
        }
    }

    /// Records that `caller` vouches for `hash` as the hash of a response given in session
    /// `session_id`. The call must carry exactly the minimal deposit; the result is the line
    /// to append to the log.
    pub fn attest_response(
        &mut self,
        caller: AccountId,
        attached: u128,
        session_id: String,
        hash: String,
    ) -> (r: Result<String, Error>)
        ensures
            *final(self) == *old(self),
            attached != MINIMAL_DEPOSIT ==> r == Err::<String, Error>(Error::InvalidDeposit),
            attached == MINIMAL_DEPOSIT ==> r is Ok && r->Ok_0@ == (EventView::Attest {
                session_id: session_id@,
                hash: hash@,
                caller: caller@,
            }).line(),
    {
        match verify_exact_minimal_deposit(attached) {
            Err(e) => Err(e),
            Ok(()) => Ok(emit(&Event::Attest { session_id, hash, caller })),
        }
    }

    /// Records a tip of whatever the call carries, be it nothing. The result is the line to
    /// append to the log.
    pub fn tip(&mut self, caller: AccountId, attached: u128) -> (line: String)
        ensures
            *final(self) == *old(self),
            line@ == (EventView::Tip { caller: caller@, amount: attached }).line(),
    {
        emit(&Event::Tip { caller, amount: attached })
    }

    /// Records a deposit into the pool of whatever the call carries, be it nothing. The
    /// result is the line to append to the log.
    pub fn fund_pool(&mut self, caller: AccountId, attached: u128) -> (line: String)
        ensures
            *final(self) == *old(self),
            line@ == (EventView::Fund { caller: caller@, amount: attached }).line(),
    {
        emit(&Event::Fund { caller, amount: attached })
    }

    /// Pays `amount` minimal units to `to`, if the owner asks. The result is the transfer to
    /// dispatch; whether it settles is not the ledger's to know.
    pub fn pay(&mut self, caller: AccountId, to: AccountId, amount: u128) -> (r: Result<
        PayoutRequest,
        Error,
    >)
        ensures
            *final(self) == *old(self),
            caller@ != old(self).owner_id() ==> r == Err::<PayoutRequest, Error>(
                Error::Unauthorized,
            ),
            caller@ == old(self).owner_id() ==> r is Ok && r->Ok_0@ == (PayoutRequestView {
                recipient: to@,
                amount,
            }),
    {
        match verify_owner(&caller, self) {
            Err(e) => Err(e),
            Ok(()) => Ok(PayoutRequest { recipient: to, amount }),
        }
    }

    /// Pays `amounts[i]` minimal units to `recipients[i]` for every `i`, if the owner asks
    /// and there is an amount for each recipient. The result holds the transfers to
    /// dispatch, in the order of the arguments. They are independent of each other: none
    /// waits for another, and none is taken back when another fails.
    pub fn pay_many(
        &mut self,
        caller: AccountId,
        recipients: Vec<AccountId>,
        amounts: Vec<u128>,
    ) -> (r: Result<Vec<PayoutRequest>, Error>)
        ensures
            *final(self) == *old(self),
            caller@ != old(self).owner_id() ==> r == Err::<Vec<PayoutRequest>, Error>(
                Error::Unauthorized,
            ),
            caller@ == old(self).owner_id() && recipients.len() != amounts.len() ==> r == Err::<
                Vec<PayoutRequest>,
                Error,
            >(Error::LengthMismatch),
            caller@ == old(self).owner_id() && recipients.len() == amounts.len() ==> r is Ok && {
                let requests = r->Ok_0;
                &&& requests.len() == recipients.len()
                &&& forall|i: int|
                    0 <= i < recipients.len() ==> (#[trigger] requests[i])@ == (PayoutRequestView {
                        recipient: recipients[i]@,
                        amount: amounts[i],
                    })
            },
    {
        match verify_owner(&caller, self) {
            Err(e) => { return Err(e); },
            Ok(()) => {},
        }
        let n: usize = recipients.len();
        if n != amounts.len() {
            return Err(Error::LengthMismatch);
        }
        let mut requests: Vec<PayoutRequest> = Vec::new();
        let mut i: usize = 0;
        while i < n
            invariant
                n == recipients.len(),
                n == amounts.len(),
                i <= n,
                requests.len() == i,
                forall|j: int|
                    0 <= j < i ==> (#[trigger] requests[j])@ == (PayoutRequestView {
                        recipient: recipients[j]@,
                        amount: amounts[j],
                    }),
            decreases n - i,
        {
            requests.push(PayoutRequest { recipient: recipients[i].clone(), amount: amounts[i] });
            i += 1;
        }
        Ok(requests)
    }

    /// The revision of the ledger: the same text whatever the state and whatever was called
    /// before.
    pub fn version(&self) -> (v: String)
        ensures
            v@ == Self::version_text(),
    {
        String::from_str("0.1.0")
    }

    /// The owner.
    pub fn get_owner(&self) -> (owner: AccountId)
        ensures
            owner@ == self.owner_id(),
    {
        self.owner.clone()
    }

    /// Whether a call that found the ledger as `self` and left it as `after` kept the
    /// owner. Every operation of the ledger is such a call: `poke`, `attest_response`, `tip`,
    /// `fund_pool`, `pay` and `pay_many` each leave the whole state as they found it.
    pub open spec fn keeps_owner(self, after: Contract) -> bool {
        after.owner_id() == self.owner_id()
    }

    /// Whether `states` can be what one ledger holds as calls go by, from deployment on:
    /// each state is what a call that kept the owner made of the state before it.
    pub open spec fn is_history(states: Seq<Contract>) -> bool {
        forall|i: int| 1 <= i < states.len() ==> states[i - 1].keeps_owner(#[trigger] states[i])
    }

    /// The owner set at deployment is the owner ever after: however many calls were made, and
    /// whoever made them, the ledger still names the owner that it was deployed for.
    pub proof fn owner_is_fixed(states: Seq<Contract>, owner: Seq<char>, k: int)
        requires
            Self::is_history(states),
            0 <= k < states.len(),
            states[0].owner_id() == owner,
        ensures
            states[k].owner_id() == owner,
        decreases k,
    {
        if k > 0 {
            Self::owner_is_fixed(states, owner, k - 1);
        }
    }
}

} // verus!
