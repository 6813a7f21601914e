use vstd::prelude::*;

use crate::errors::HopiumError;
use crate::instructions::Settlement;
use crate::state::{bps_of, slot_wf, Identity, StakeAccount, BURN_RATE_BPS};

verus! {

/// What finalizing a stake reads: the signer, the configured backend
/// authority, the referenced record (`None` when none is live there) and the
/// escrow's balance.
pub struct CompleteSimulation {
    pub authority: Identity,
    pub backend_authority: Identity,
    pub stake_account: Option<StakeAccount>,
    pub escrow_balance: u64,
}

/// The error that finalizing meets, the first that applies in this order, or `None` when it
/// succeeds.
pub open spec fn complete_simulation_error(c: CompleteSimulation) -> Option<HopiumError> {
    match c.stake_account {
        None => Some(HopiumError::StakeNotFound),
        Some(a) => if c.authority@ != c.backend_authority@ {
            Some(HopiumError::Unauthorized)
        } else if !a.simulation_used {
            Some(HopiumError::StakeNotUsed)
        } else if a.burned {
            Some(HopiumError::AlreadyBurned)
        } else if c.escrow_balance < bps_of(a.amount, BURN_RATE_BPS) {
            Some(HopiumError::EscrowInsufficient)
        } else {
            None
        },
    }
}

/// Finalizing the stake of `c` returned `r` and left `n`.
pub open spec fn complete_simulation_outcome(
    c: CompleteSimulation,
    n: CompleteSimulation,
    r: Result<Settlement, HopiumError>,
) -> bool {
    &&& (r.is_ok() <==> complete_simulation_error(c).is_none())
    &&& (r matches Err(e) ==> complete_simulation_error(c) == Some(e) && n == c)
    &&& (r matches Ok(s) ==> {
        &&& n.authority == c.authority
        &&& n.backend_authority == c.backend_authority
        &&& n.stake_account matches Some(a) && c.stake_account matches Some(o)
            && a.same_lock(&o) && a.simulation_used && a.simulation_id == o.simulation_id
            && a.burned && s == (Settlement {
            to_escrow: 0,
            to_owner: 0,
            burned: bps_of(o.amount, BURN_RATE_BPS) as u64,
        }) && n.escrow_balance == c.escrow_balance - bps_of(o.amount, BURN_RATE_BPS)
    })
}

/// Burns the 5% fee, `floor(amount * 500 / 10000)`, from the escrow and marks
/// the stake as burned. Only the backend authority may do so, once per record
/// and only after the record was used.
pub fn handler(ctx: &mut CompleteSimulation) -> (r: Result<Settlement, HopiumError>)
    ensures
        complete_simulation_outcome(*old(ctx), *final(ctx), r),
        slot_wf(old(ctx).stake_account) ==> slot_wf(final(ctx).stake_account),
{
    let burn_amount: u64;
    match &ctx.stake_account {
        None => {
            return Err(HopiumError::StakeNotFound);
        },
        Some(a) => {
            if !(ctx.authority == ctx.backend_authority) {
                return Err(HopiumError::Unauthorized);
            }
            if !a.simulation_used {
                return Err(HopiumError::StakeNotUsed);
            }
            if a.burned {
                return Err(HopiumError::AlreadyBurned);
            }
            burn_amount = a.burn_amount();
            if ctx.escrow_balance < burn_amount {
                return Err(HopiumError::EscrowInsufficient);
            }
        },
    }
    ctx.escrow_balance = ctx.escrow_balance - burn_amount;
    let mut a = ctx.stake_account.take().unwrap();
    a.burned = true;
    ctx.stake_account = Some(a);
    Ok(Settlement { to_escrow: 0, to_owner: 0, burned: burn_amount })
}

} // verus!
