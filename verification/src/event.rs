//! The audit trail: what is recorded, and the line that each record becomes.

use vstd::prelude::*;
use crate::account::AccountId;
use crate::decimal::{text, to_decimal};

verus! {

/// Something worth recording. An event is never stored: it lives until its line is written.
#[derive(Debug, PartialEq, Eq)]
pub enum Event {
    /// A sign of life from `caller`, at the host's `timestamp`.
    Poke { caller: AccountId, timestamp: u64 },
    /// `caller` vouches for the hash of a response given in a session.
    Attest { session_id: String, hash: String, caller: AccountId },
    /// `caller` gave `amount` minimal units to the project.
    Tip { caller: AccountId, amount: u128 },
    /// `caller` put `amount` minimal units into the pool.
    Fund { caller: AccountId, amount: u128 },
}

/// An event as contracts speak of it.
pub enum EventView {
    Poke { caller: Seq<char>, timestamp: u64 },
    Attest { session_id: Seq<char>, hash: Seq<char>, caller: Seq<char> },
    Tip { caller: Seq<char>, amount: u128 },
    Fund { caller: Seq<char>, amount: u128 },
}

impl View for Event {
    type V = EventView;

    open spec fn view(&self) -> EventView {
        match *self {
            Event::Poke { caller, timestamp } => EventView::Poke { caller: caller@, timestamp },
            Event::Attest { session_id, hash, caller } => EventView::Attest {
                session_id: session_id@,
                hash: hash@,
                caller: caller@,
            },
            Event::Tip { caller, amount } => EventView::Tip { caller: caller@, amount },
            Event::Fund { caller, amount } => EventView::Fund { caller: caller@, amount },
        }
    }
}

impl Clone for Event {
    fn clone(&self) -> (copy: Self)
        ensures
            copy == *self,
    {
        match self {
            Event::Poke { caller, timestamp } => Event::Poke {
                caller: caller.clone(),
                timestamp: *timestamp,
            },
            Event::Attest { session_id, hash, caller } => Event::Attest {
                session_id: session_id.clone(),
                hash: hash.clone(),
                caller: caller.clone(),
            },
            Event::Tip { caller, amount } => Event::Tip { caller: caller.clone(), amount: *amount },
            Event::Fund { caller, amount } => Event::Fund {
                caller: caller.clone(),
                amount: *amount,
            },
        }
    }
}

impl EventView {
    /// The log line of an event: a tag and the event's fields, with a colon between each
    /// two. Numbers stand in decimal; identities, session ids and hashes stand as they
    /// are, unescaped.
    pub open spec fn line(self) -> Seq<char> {
        match self {
            EventView::Poke { caller, timestamp } => {
                "POKE:"@ + caller + ":"@ + text(timestamp as nat)
            },
            EventView::Attest { session_id, hash, caller } => {
                "ATTEST:"@ + session_id + ":"@ + hash + ":"@ + caller
            },
            EventView::Tip { caller, amount } => {
                "TIP:"@ + caller + ":"@ + text(amount as nat)
            },
            EventView::Fund { caller, amount } => {
                "FUND:"@ + caller + ":"@ + text(amount as nat)
            },
        }
    }
}

/// A tag, an identity and a number, as `TAG:identity:number`.
fn tagged_number(tag: &str, caller: &AccountId, number: u128) -> (line: String)
    ensures
        line@ == tag@ + caller@ + ":"@ + text(number as nat),
{
    let mut line = String::from_str(tag);
    line.append(caller.as_str());
    line.append(":");
    let digits = to_decimal(number);
    line.append(digits.as_str());
    line
}

/// Serializes `event` to its log line.
pub fn emit(event: &Event) -> (line: String)
    ensures
        line@ == event@.line(),
{
    match event {
        Event::Poke { caller, timestamp } => tagged_number("POKE:", caller, *timestamp as u128),
        Event::Attest { session_id, hash, caller } => {
            let mut line = String::from_str("ATTEST:");
            line.append(session_id.as_str());
            line.append(":");
            line.append(hash.as_str());
            line.append(":");
            line.append(caller.as_str());
            line
        },
        Event::Tip { caller, amount } => tagged_number("TIP:", caller, *amount),
        Event::Fund { caller, amount } => tagged_number("FUND:", caller, *amount),
    }
}

} // verus!
