//! Token custody for simulation access: a participant locks a tier's amount of
//! tokens in escrow, a backend authority marks the lock as used and burns a 5%
//! fee, and the owner takes the rest back after the lock period, or 70% at once
//! through an emergency exit.
//!
//! Every operation is a verified transition over plain values: the record at
//! the participant's derived address (absent when closed), the token balances
//! that the operation reads, and the current time. The host performs the
//! ledger movements that an operation returns and persists the new record.

pub mod errors;
pub mod instructions;
pub mod laws;
pub mod state;

use vstd::prelude::*;

use crate::errors::HopiumError;
use crate::instructions::complete_simulation::{complete_simulation_outcome, CompleteSimulation};
use crate::instructions::emergency_withdraw::{emergency_withdraw_outcome, EmergencyWithdraw};
use crate::instructions::release::{release_outcome, Release};
use crate::instructions::stake::{stake_outcome, Stake};
use crate::instructions::use_stake::{use_stake_outcome, UseStake};
use crate::instructions::Settlement;

verus! {

/// Stakes tokens to gain simulation access: creates the record at the
/// participant's address for `tier` and moves the tier's amount to escrow.
pub fn stake(ctx: &mut Stake, tier: u8) -> (r: Result<Settlement, HopiumError>)
    ensures
        stake_outcome(*old(ctx), tier, *final(ctx), r),
{
    instructions::stake::handler(ctx, tier)
}

/// Marks a stake as used for a simulation run. Only the backend authority may
/// call it.
pub fn use_stake(ctx: &mut UseStake, simulation_id: String) -> (r: Result<(), HopiumError>)
    ensures
        use_stake_outcome(*old(ctx), simulation_id@, *final(ctx), r),
{
    instructions::use_stake::handler(ctx, simulation_id)
}

/// Completes a simulation and burns 5% of the staked tokens. Only the backend
/// authority may call it.
pub fn complete_simulation(ctx: &mut CompleteSimulation) -> (r: Result<Settlement, HopiumError>)
    ensures
        complete_simulation_outcome(*old(ctx), *final(ctx), r),
{
    instructions::complete_simulation::handler(ctx)
}

/// Releases the remaining 95% of the stake to its owner after the lock period
/// and closes the record.
pub fn release(ctx: &mut Release) -> (r: Result<Settlement, HopiumError>)
    ensures
        release_outcome(*old(ctx), *final(ctx), r),
{
    instructions::release::handler(ctx)
}

/// Emergency withdraw: burns a 30% penalty, returns 70% at once and closes
/// the record.
pub fn emergency_withdraw(ctx: &mut EmergencyWithdraw) -> (r: Result<Settlement, HopiumError>)
    ensures
        emergency_withdraw_outcome(*old(ctx), *final(ctx), r),
{
    instructions::emergency_withdraw::handler(ctx)
}

} // verus!
