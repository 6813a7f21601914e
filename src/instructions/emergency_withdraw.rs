use vstd::prelude::*;

use crate::errors::HopiumError;
use crate::instructions::Settlement;
use crate::state::{bps_of, Identity, StakeAccount, EMERGENCY_PENALTY_BPS};

verus! {

/// What an emergency exit reads: the signer, the referenced record (`None`
/// when none is live there) and the two token balances.
pub struct EmergencyWithdraw {
    pub user: Identity,
    pub stake_account: Option<StakeAccount>,
    pub user_token_balance: u64,
    pub escrow_balance: u64,
}

/// The error that an emergency exit meets, the first that applies in this order, or `None`
/// when it succeeds. The escrow must cover the whole amount: the penalty that
/// is burned and the rest that is paid.
pub open spec fn emergency_withdraw_error(c: EmergencyWithdraw) -> Option<HopiumError> {
    match c.stake_account {
        None => Some(HopiumError::StakeNotFound),
        Some(a) => if a.owner@ != c.user@ {
            Some(HopiumError::Unauthorized)
        } else if c.escrow_balance < a.amount {
            Some(HopiumError::EscrowInsufficient)
        } else if c.user_token_balance + (a.amount - bps_of(a.amount, EMERGENCY_PENALTY_BPS))
            > u64::MAX {
            Some(HopiumError::Overflow)
        } else {
            None
        },
    }
}

/// An emergency exit from the stake of `c` returned `r` and left `n`.
pub open spec fn emergency_withdraw_outcome(
    c: EmergencyWithdraw,
    n: EmergencyWithdraw,
    r: Result<Settlement, HopiumError>,
) -> bool {
    &&& (r.is_ok() <==> emergency_withdraw_error(c).is_none())
    &&& (r matches Err(e) ==> emergency_withdraw_error(c) == Some(e) && n == c)
    &&& (r matches Ok(s) ==> {
        &&& n.user == c.user
        &&& n.stake_account is None
        &&& c.stake_account matches Some(o) && s == (Settlement {
            to_escrow: 0,
            to_owner: (o.amount - bps_of(o.amount, EMERGENCY_PENALTY_BPS)) as u64,
            burned: bps_of(o.amount, EMERGENCY_PENALTY_BPS) as u64,
        }) && s.to_owner + s.burned == o.amount
            && n.escrow_balance == c.escrow_balance - o.amount
            && n.user_token_balance == c.user_token_balance + s.to_owner
    })
}

/// Burns the 30% penalty, `floor(amount * 3000 / 10000)`, from the escrow, pays
/// the owner the rest and closes the record. Only the owner may do so, at any
/// point of the record's life.
pub fn handler(ctx: &mut EmergencyWithdraw) -> (r: Result<Settlement, HopiumError>)
    ensures
        emergency_withdraw_outcome(*old(ctx), *final(ctx), r),
{
    let amount: u64;
    let return_amount: u64;
    let penalty_amount: u64;
    let user_balance: u64;
    match &ctx.stake_account {
        None => {
            return Err(HopiumError::StakeNotFound);
        },
        Some(a) => {
            if !(a.owner == ctx.user) {
                return Err(HopiumError::Unauthorized);
            }
            amount = a.amount;
            return_amount = a.emergency_return_amount();
            penalty_amount = a.penalty_amount();
            if ctx.escrow_balance < amount {
                return Err(HopiumError::EscrowInsufficient);
            }
            user_balance = match ctx.user_token_balance.checked_add(return_amount) {
                Some(b) => b,
                None => return Err(HopiumError::Overflow),
            };
        },
    }
    ctx.escrow_balance = ctx.escrow_balance - amount;
    ctx.user_token_balance = user_balance;
    ctx.stake_account = None;
    Ok(Settlement { to_escrow: 0, to_owner: return_amount, burned: penalty_amount })
}

} // verus!
