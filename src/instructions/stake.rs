use vstd::prelude::*;

use crate::errors::HopiumError;
use crate::instructions::Settlement;
use crate::state::{
    stake_tier, tier_amount, tier_lock_seconds, Identity, StakeAccount, TIER_COUNT,
};

verus! {

/// What opening a stake reads: the participant, the record at the address
/// derived from the participant and the tier (`None` while none is live), the
/// two token balances, the current time and the bump of the record's address.
pub struct Stake {
    pub user: Identity,
    pub stake_account: Option<StakeAccount>,
    pub user_token_balance: u64,
    pub escrow_balance: u64,
    pub now: i64,
    pub bump: u8,
}

/// The error that opening a stake of `tier` meets, the first that applies in this order, or
/// `None` when it succeeds.
pub open spec fn stake_error(c: Stake, tier: u8) -> Option<HopiumError> {
    if c.stake_account.is_some() {
        Some(HopiumError::StakeExists)
    } else if tier >= TIER_COUNT {
        Some(HopiumError::InvalidTier)
    } else if c.user_token_balance < tier_amount(tier) {
        Some(HopiumError::InsufficientBalance)
    } else if c.escrow_balance + tier_amount(tier) > u64::MAX {
        Some(HopiumError::Overflow)
    } else if c.now + tier_lock_seconds(tier) > i64::MAX {
        Some(HopiumError::Overflow)
    } else {
        None
    }
}

/// `a` is the record that opening a stake of `tier` creates from `c`.
pub open spec fn opened_record(a: StakeAccount, c: Stake, tier: u8) -> bool {
    &&& a.owner@ == c.user@
    &&& a.amount == tier_amount(tier)
    &&& a.tier == tier
    &&& a.staked_at == c.now
    &&& a.unlock_at == c.now + tier_lock_seconds(tier)
    &&& !a.simulation_used
    &&& a.simulation_id@.len() == 0
    &&& !a.burned
    &&& a.bump == c.bump
}

/// Opening a stake of `tier` on `c` returned `r` and left `n`.
pub open spec fn stake_outcome(
    c: Stake,
    tier: u8,
    n: Stake,
    r: Result<Settlement, HopiumError>,
) -> bool {
    &&& (r.is_ok() <==> stake_error(c, tier).is_none())
    &&& (r matches Err(e) ==> stake_error(c, tier) == Some(e) && n == c)
    &&& (r matches Ok(s) ==> {
        &&& s == (Settlement { to_escrow: tier_amount(tier), to_owner: 0, burned: 0 })
        &&& n.user == c.user
        &&& n.now == c.now
        &&& n.bump == c.bump
        &&& n.user_token_balance == c.user_token_balance - tier_amount(tier)
        &&& n.escrow_balance == c.escrow_balance + tier_amount(tier)
        &&& n.stake_account matches Some(a) && opened_record(a, c, tier)
            && a.wf()
    })
}

/// Opens a stake of `tier`: moves the tier's amount from the participant to
/// the escrow and creates the record, with its lock ending the tier's duration
/// after now and both flags unset.
pub fn handler(ctx: &mut Stake, tier: u8) -> (r: Result<Settlement, HopiumError>)
    ensures
        stake_outcome(*old(ctx), tier, *final(ctx), r),
{
    if ctx.stake_account.is_some() {
        return Err(HopiumError::StakeExists);
    }
    let (amount, lock_seconds) = match stake_tier(tier) {
        Some(t) => t,
        None => return Err(HopiumError::InvalidTier),
    };
    if ctx.user_token_balance < amount {
        return Err(HopiumError::InsufficientBalance);
    }
    let escrow_balance = match ctx.escrow_balance.checked_add(amount) {
        Some(b) => b,
        None => return Err(HopiumError::Overflow),
    };
    let unlock_at = match ctx.now.checked_add(lock_seconds) {
        Some(t) => t,
        None => return Err(HopiumError::Overflow),
    };
    ctx.user_token_balance = ctx.user_token_balance - amount;
    ctx.escrow_balance = escrow_balance;
    ctx.stake_account = Some(
        StakeAccount {
            owner: ctx.user,
            amount,
            tier,
            staked_at: ctx.now,
            unlock_at,
            simulation_used: false,
            simulation_id: String::new(),
            burned: false,
            bump: ctx.bump,
        },
    );
    Ok(Settlement { to_escrow: amount, to_owner: 0, burned: 0 })
}

} // verus!
