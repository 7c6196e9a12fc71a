//! A custody-and-attestation ledger: anyone may record audit events against a shared
//! account, and one owner, fixed at deployment, may pay pooled funds out.
//!
//! The ledger never talks to its host. Who calls, what value is attached and what time it
//! is come in as arguments; the log line to append and the transfers to dispatch go out as
//! results. A call that fails returns its reason and nothing else, so that it has no effect
//! for the host to undo.

pub mod account;
pub mod contract;
pub mod decimal;
pub mod error;
pub mod event;
pub mod guard;
pub mod payout;

pub use crate::account::AccountId;
pub use crate::contract::Contract;
pub use crate::error::Error;
pub use crate::event::Event;
pub use crate::payout::PayoutRequest;
