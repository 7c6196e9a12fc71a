//! The parties that the ledger deals with.

use vstd::prelude::*;

verus! {

/// An account identifier: the host's name for a party that can make calls and receive
/// transfers. The ledger never looks inside one. It tells identifiers apart, and it writes
/// them out as they are.
pub type AccountId = String;

} // verus!
