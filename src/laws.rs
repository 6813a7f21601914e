//! Properties of the record's lifecycle that relate several operations or hold
//! for every input, proved from the operations' contracts.

use vstd::prelude::*;

use crate::errors::HopiumError;
use crate::instructions::complete_simulation::{
    complete_simulation_error, complete_simulation_outcome, CompleteSimulation,
};
use crate::instructions::emergency_withdraw::{
    emergency_withdraw_error, emergency_withdraw_outcome, EmergencyWithdraw,
};
use crate::instructions::release::{release_error, release_outcome, Release};
use crate::instructions::stake::{stake_outcome, Stake};
use crate::instructions::use_stake::{use_stake_error, use_stake_outcome, UseStake};
use crate::instructions::Settlement;
use crate::state::{
    tier_amount, tier_lock_seconds, StakeAccount, MAX_SIMULATION_ID_LEN, TIER_COUNT,
};

verus! {

/// Opening a valid tier on a free address, with the balance to cover it and no
/// overflow, succeeds; any successful opening creates a record that locks the
/// tier's amount until its lock duration after the creation time.
pub proof fn lemma_open_stake_follows_tier(c: Stake, tier: u8, n: Stake, r: Result<Settlement, HopiumError>)
    requires
        stake_outcome(c, tier, n, r),
    ensures
        (c.stake_account is None && tier < TIER_COUNT && c.user_token_balance >= tier_amount(tier)
            && c.escrow_balance + tier_amount(tier) <= u64::MAX && c.now + tier_lock_seconds(tier)
            <= i64::MAX) ==> r is Ok,
        r is Ok ==> (n.stake_account matches Some(a) && a.amount == tier_amount(tier) && a.unlock_at
            == a.staked_at + tier_lock_seconds(tier) && a.staked_at == c.now),
{
}

/// Opening a tier index outside the table fails with `InvalidTier` and moves no
/// tokens.
pub proof fn lemma_invalid_tier_rejected(c: Stake, tier: u8, n: Stake, r: Result<Settlement, HopiumError>)
    requires
        stake_outcome(c, tier, n, r),
        c.stake_account is None,
        tier >= TIER_COUNT,
    ensures
        r == Err::<Settlement, HopiumError>(HopiumError::InvalidTier),
        n == c,
{
}

/// Marking a record as used a second time fails with `StakeAlreadyUsed`, and
/// the identifier stored by the first call stays.
pub proof fn lemma_mark_used_once(
    c0: UseStake,
    id1: Seq<char>,
    c1: UseStake,
    c2: UseStake,
    id2: Seq<char>,
    c3: UseStake,
    r: Result<(), HopiumError>,
)
    requires
        use_stake_outcome(c0, id1, c1, Ok(())),
        c2.stake_account == c1.stake_account,
        c2.authority@ == c2.backend_authority@,
        use_stake_outcome(c2, id2, c3, r),
    ensures
        r == Err::<(), HopiumError>(HopiumError::StakeAlreadyUsed),
        c3.stake_account matches Some(a) && a.simulation_id@ == id1,
{
}

/// For an authorized call on an unused record, the identifier is refused as
/// too long exactly when it has more than 64 characters; otherwise the call
/// succeeds.
pub proof fn lemma_simulation_id_bound(c: UseStake, id: Seq<char>, n: UseStake, r: Result<(), HopiumError>)
    requires
        use_stake_outcome(c, id, n, r),
        c.stake_account matches Some(a) && !a.simulation_used,
        c.authority@ == c.backend_authority@,
    ensures
        id.len() > MAX_SIMULATION_ID_LEN <==> r == Err::<(), HopiumError>(
            HopiumError::SimulationIdTooLong,
        ),
        id.len() <= MAX_SIMULATION_ID_LEN <==> r is Ok,
{
}

/// Finalizing a record that was not marked as used fails with `StakeNotUsed`.
pub proof fn lemma_finalize_needs_use(c: CompleteSimulation, n: CompleteSimulation, r: Result<Settlement, HopiumError>)
    requires
        complete_simulation_outcome(c, n, r),
        c.stake_account matches Some(a) && !a.simulation_used,
        c.authority@ == c.backend_authority@,
    ensures
        r == Err::<Settlement, HopiumError>(HopiumError::StakeNotUsed),
        n == c,
{
}

/// Finalizing a record a second time fails with `AlreadyBurned`.
pub proof fn lemma_finalize_once(
    c0: CompleteSimulation,
    c1: CompleteSimulation,
    s: Settlement,
    c2: CompleteSimulation,
    c3: CompleteSimulation,
    r: Result<Settlement, HopiumError>,
)
    requires
        complete_simulation_outcome(c0, c1, Ok(s)),
        c2.stake_account == c1.stake_account,
        c2.authority@ == c2.backend_authority@,
        complete_simulation_outcome(c2, c3, r),
    ensures
        r == Err::<Settlement, HopiumError>(HopiumError::AlreadyBurned),
        c3 == c2,
{
}

/// The owner's release of a used and burned record fails with
/// `LockPeriodActive` while the current time is before its unlock time.
pub proof fn lemma_release_waits_for_unlock(c: Release, n: Release, r: Result<Settlement, HopiumError>)
    requires
        release_outcome(c, n, r),
        c.stake_account matches Some(a) && a.owner@ == c.user@ && a.simulation_used && a.burned
            && c.now < a.unlock_at,
    ensures
        r == Err::<Settlement, HopiumError>(HopiumError::LockPeriodActive),
        n == c,
{
}

/// Every operation that references a closed address fails as not found.
proof fn lemma_closed_slot_not_found(
    slot: Option<StakeAccount>,
    u: UseStake,
    id: Seq<char>,
    f: CompleteSimulation,
    rl: Release,
    e: EmergencyWithdraw,
)
    requires
        slot is None,
        u.stake_account == slot,
        f.stake_account == slot,
        rl.stake_account == slot,
        e.stake_account == slot,
    ensures
        use_stake_error(u, id) == Some(HopiumError::StakeNotFound),
        complete_simulation_error(f) == Some(HopiumError::StakeNotFound),
        release_error(rl) == Some(HopiumError::StakeNotFound),
        emergency_withdraw_error(e) == Some(HopiumError::StakeNotFound),
{
}

/// Once a release closes a record, every later operation on its address fails
/// with `StakeNotFound`.
pub proof fn lemma_released_record_is_gone(
    c: Release,
    n: Release,
    s: Settlement,
    u: UseStake,
    id: Seq<char>,
    f: CompleteSimulation,
    rl: Release,
    e: EmergencyWithdraw,
)
    requires
        release_outcome(c, n, Ok(s)),
        u.stake_account == n.stake_account,
        f.stake_account == n.stake_account,
        rl.stake_account == n.stake_account,
        e.stake_account == n.stake_account,
    ensures
        use_stake_error(u, id) == Some(HopiumError::StakeNotFound),
        complete_simulation_error(f) == Some(HopiumError::StakeNotFound),
        release_error(rl) == Some(HopiumError::StakeNotFound),
        emergency_withdraw_error(e) == Some(HopiumError::StakeNotFound),
{
    lemma_closed_slot_not_found(n.stake_account, u, id, f, rl, e);
}

/// Once an emergency exit closes a record, every later operation on its
/// address fails with `StakeNotFound`.
pub proof fn lemma_exited_record_is_gone(
    c: EmergencyWithdraw,
    n: EmergencyWithdraw,
    s: Settlement,
    u: UseStake,
    id: Seq<char>,
    f: CompleteSimulation,
    rl: Release,
    e: EmergencyWithdraw,
)
    requires
        emergency_withdraw_outcome(c, n, Ok(s)),
        u.stake_account == n.stake_account,
        f.stake_account == n.stake_account,
        rl.stake_account == n.stake_account,
        e.stake_account == n.stake_account,
    ensures
        use_stake_error(u, id) == Some(HopiumError::StakeNotFound),
        complete_simulation_error(f) == Some(HopiumError::StakeNotFound),
        release_error(rl) == Some(HopiumError::StakeNotFound),
        emergency_withdraw_error(e) == Some(HopiumError::StakeNotFound),
{
    lemma_closed_slot_not_found(n.stake_account, u, id, f, rl, e);
}

} // verus!
