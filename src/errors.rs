use vstd::prelude::*;

verus! {

/// Why an operation was refused. Every refusal leaves the record and the
/// balances exactly as they were.
#[derive(Clone, Copy, Debug, PartialEq, Eq, Structural)]
pub enum HopiumError {
    InvalidTier,
    StakeAlreadyUsed,
    StakeNotUsed,
    AlreadyBurned,
    LockPeriodActive,
    Unauthorized,
    SimulationIdTooLong,
    InsufficientBalance,
    Overflow,
    /// No live record stands at the referenced address.
    StakeNotFound,
    /// A live record already stands at the address that would be created.
    StakeExists,
    /// The escrow holds less than the operation would burn and pay out.
    EscrowInsufficient,
}

impl HopiumError {
    /// The human-readable message surfaced to the caller.
    pub fn message(&self) -> (r: &'static str) {
        match self {
            HopiumError::InvalidTier => "Invalid stake tier. Must be 0 (100), 1 (500), or 2 (1000).",
            HopiumError::StakeAlreadyUsed => "Stake has already been used for a simulation.",
            HopiumError::StakeNotUsed => "Stake has not been used yet. Run a simulation first.",
            HopiumError::AlreadyBurned => "Burn has already been executed for this stake.",
            HopiumError::LockPeriodActive => "Lock period has not ended. Cannot release yet.",
            HopiumError::Unauthorized => "Unauthorized. Only backend authority can call this.",
            HopiumError::SimulationIdTooLong => "Simulation ID too long. Max 64 characters.",
            HopiumError::InsufficientBalance => "Insufficient token balance for staking.",
            HopiumError::Overflow => "Arithmetic overflow occurred.",
            HopiumError::StakeNotFound => "No stake exists at this address.",
            HopiumError::StakeExists => "A stake already exists at this address.",
            HopiumError::EscrowInsufficient => "Escrow balance cannot cover this operation.",
        }
    }
}

} // verus!
