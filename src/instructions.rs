//! The five lifecycle operations, one module each. Each takes the values that
//! it reads from its accounts and returns the ledger movements that the host
//! must perform for it.

pub mod complete_simulation;
pub mod emergency_withdraw;
pub mod release;
pub mod stake;
pub mod use_stake;

use vstd::prelude::*;

verus! {

/// Token movements that a successful operation asks of the ledger.
#[derive(Clone, Copy, Debug, PartialEq, Eq, Structural)]
pub struct Settlement {
    /// Moved from the participant's token account into the escrow.
    pub to_escrow: u64,
    /// Moved from the escrow to the owner's token account.
    pub to_owner: u64,
    /// Destroyed from the escrow.
    pub burned: u64,
}

} // verus!
