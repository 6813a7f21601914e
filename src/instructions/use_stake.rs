use vstd::prelude::*;
use vstd::string::StrSliceExecFns;

use crate::errors::HopiumError;
use crate::state::{slot_wf, Identity, StakeAccount, MAX_SIMULATION_ID_LEN};

verus! {

/// What marking a stake as used reads: the signer, the configured backend
/// authority, and the referenced record (`None` when none is live there).
pub struct UseStake {
    pub authority: Identity,
    pub backend_authority: Identity,
    pub stake_account: Option<StakeAccount>,
}

/// The error that marking a stake as used for `simulation_id` meets, the first that applies in
/// this order, or `None` when it succeeds.
pub open spec fn use_stake_error(c: UseStake, simulation_id: Seq<char>) -> Option<HopiumError> {
    match c.stake_account {
        None => Some(HopiumError::StakeNotFound),
        Some(a) => if c.authority@ != c.backend_authority@ {
            Some(HopiumError::Unauthorized)
        } else if a.simulation_used {
            Some(HopiumError::StakeAlreadyUsed)
        } else if simulation_id.len() > MAX_SIMULATION_ID_LEN {
            Some(HopiumError::SimulationIdTooLong)
        } else {
            None
        },
    }
}

/// Marking the stake of `c` as used for `simulation_id` returned `r` and left `n`.
pub open spec fn use_stake_outcome(c: UseStake, simulation_id: Seq<char>, n: UseStake, r: Result<(), HopiumError>) -> bool {
    &&& (r.is_ok() <==> use_stake_error(c, simulation_id).is_none())
    &&& (r matches Err(e) ==> use_stake_error(c, simulation_id) == Some(e) && n == c)
    &&& (r is Ok ==> {
        &&& n.authority == c.authority
        &&& n.backend_authority == c.backend_authority
        &&& n.stake_account matches Some(a) && c.stake_account matches Some(o)
            && a.same_lock(&o) && a.simulation_used && a.simulation_id@ == simulation_id
            && a.burned == o.burned
    })
}

/// Marks the stake as used by a simulation and stores its identifier. Only the
/// backend authority may do so, once per record; no tokens move.
pub fn handler(ctx: &mut UseStake, simulation_id: String) -> (r: Result<(), HopiumError>)
    ensures
        use_stake_outcome(*old(ctx), simulation_id@, *final(ctx), r),
        slot_wf(old(ctx).stake_account) ==> slot_wf(final(ctx).stake_account),
{
    match &ctx.stake_account {
        None => {
            return Err(HopiumError::StakeNotFound);
        },
        Some(a) => {
            if !(ctx.authority == ctx.backend_authority) {
                return Err(HopiumError::Unauthorized);
            }
            if a.simulation_used {
                return Err(HopiumError::StakeAlreadyUsed);
            }
        },
    }
    if simulation_id.as_str().unicode_len() > MAX_SIMULATION_ID_LEN {
        return Err(HopiumError::SimulationIdTooLong);
    }
    let mut a = ctx.stake_account.take().unwrap();
    a.simulation_used = true;
    a.simulation_id = simulation_id;
    ctx.stake_account = Some(a);
    Ok(())
}

} // verus!
