use vstd::prelude::*;

use crate::errors::HopiumError;
use crate::instructions::Settlement;
use crate::state::{bps_of, Identity, StakeAccount, BURN_RATE_BPS};

verus! {

/// What releasing a stake reads: the signer, the referenced record (`None` when
/// none is live there), the two token balances and the current time.
pub struct Release {
    pub user: Identity,
    pub stake_account: Option<StakeAccount>,
    pub user_token_balance: u64,
    pub escrow_balance: u64,
    pub now: i64,
}

/// The error that releasing meets, the first that applies in this order, or `None` when it
/// succeeds.
pub open spec fn release_error(c: Release) -> Option<HopiumError> {
    match c.stake_account {
        None => Some(HopiumError::StakeNotFound),
        Some(a) => if a.owner@ != c.user@ {
            Some(HopiumError::Unauthorized)
        } else if !a.simulation_used || !a.burned {
            Some(HopiumError::StakeNotUsed)
        } else if c.now < a.unlock_at {
            Some(HopiumError::LockPeriodActive)
        } else if c.escrow_balance < a.amount - bps_of(a.amount, BURN_RATE_BPS) {
            Some(HopiumError::EscrowInsufficient)
        } else if c.user_token_balance + (a.amount - bps_of(a.amount, BURN_RATE_BPS)) > u64::MAX {
            Some(HopiumError::Overflow)
        } else {
            None
        },
    }
}

/// Releasing the stake of `c` returned `r` and left `n`.
pub open spec fn release_outcome(
    c: Release,
    n: Release,
    r: Result<Settlement, HopiumError>,
) -> bool {
    &&& (r.is_ok() <==> release_error(c).is_none())
    &&& (r matches Err(e) ==> release_error(c) == Some(e) && n == c)
    &&& (r matches Ok(s) ==> {
        &&& n.user == c.user
        &&& n.now == c.now
        &&& n.stake_account is None
        &&& c.stake_account matches Some(o) && s == (Settlement {
            to_escrow: 0,
            to_owner: (o.amount - bps_of(o.amount, BURN_RATE_BPS)) as u64,
            burned: 0,
        }) && n.escrow_balance == c.escrow_balance - s.to_owner
            && n.user_token_balance == c.user_token_balance + s.to_owner
    })
}

/// Pays the owner the 95% left after the fee, `amount - floor(amount * 500 /
/// 10000)`, from the escrow and closes the record. Only the owner may do so,
/// once the record is used and burned and its lock period is over.
pub fn handler(ctx: &mut Release) -> (r: Result<Settlement, HopiumError>)
    ensures
        release_outcome(*old(ctx), *final(ctx), r),
{
    let return_amount: u64;
    let user_balance: u64;
    match &ctx.stake_account {
        None => {
            return Err(HopiumError::StakeNotFound);
        },
        Some(a) => {
            if !(a.owner == ctx.user) {
                return Err(HopiumError::Unauthorized);
            }
            if !a.simulation_used || !a.burned {
                return Err(HopiumError::StakeNotUsed);
            }
            if !a.can_release(ctx.now) {
                return Err(HopiumError::LockPeriodActive);
            }
            return_amount = a.return_amount();
            if ctx.escrow_balance < return_amount {
                return Err(HopiumError::EscrowInsufficient);
            }
            user_balance = match ctx.user_token_balance.checked_add(return_amount) {
                Some(b) => b,
                None => return Err(HopiumError::Overflow),
            };
        },
    }
    ctx.escrow_balance = ctx.escrow_balance - return_amount;
    ctx.user_token_balance = user_balance;
    ctx.stake_account = None;
    Ok(Settlement { to_escrow: 0, to_owner: return_amount, burned: 0 })
}

} // verus!
