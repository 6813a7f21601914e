use vstd::prelude::*;

verus! {

/// Amount locked by tier 0, in token base units.
pub const TIER0_AMOUNT: u64 = 100_000_000;

/// Amount locked by tier 1, in token base units.
pub const TIER1_AMOUNT: u64 = 500_000_000;

/// Amount locked by tier 2, in token base units.
pub const TIER2_AMOUNT: u64 = 1_000_000_000;

/// Seconds in one day.
pub const DAY_SECONDS: i64 = 24 * 60 * 60;

/// Burn rate as basis points (500 = 5%).
pub const BURN_RATE_BPS: u64 = 500;

/// Emergency withdraw penalty as basis points (3000 = 30%).
pub const EMERGENCY_PENALTY_BPS: u64 = 3000;

/// Basis points that make up the whole amount.
pub const BPS_DENOMINATOR: u64 = 10_000;

/// Maximum length of a simulation identifier, in characters.
pub const MAX_SIMULATION_ID_LEN: usize = 64;

/// Number of tiers; valid tier indices are below it.
pub const TIER_COUNT: u8 = 3;

/// Amount locked by a valid tier.
pub open spec fn tier_amount(tier: u8) -> u64 {
    if tier == 0 {
        TIER0_AMOUNT
    } else if tier == 1 {
        TIER1_AMOUNT
    } else {
        TIER2_AMOUNT
    }
}

/// Lock duration of a valid tier, in seconds.
pub open spec fn tier_lock_seconds(tier: u8) -> int {
    if tier == 0 {
        7 * DAY_SECONDS
    } else if tier == 1 {
        3 * DAY_SECONDS
    } else {
        DAY_SECONDS as int
    }
}

/// Looks up a tier: its locked amount and lock duration in seconds, or `None`
/// for an index outside the table.
pub fn stake_tier(tier: u8) -> (r: Option<(u64, i64)>)
    ensures
        tier < TIER_COUNT <==> r.is_some(),
        tier < TIER_COUNT ==> r.unwrap().0 == tier_amount(tier) && r.unwrap().1 == tier_lock_seconds(tier),
{
    if tier == 0 {
        Some((TIER0_AMOUNT, 7 * DAY_SECONDS))
    } else if tier == 1 {
        Some((TIER1_AMOUNT, 3 * DAY_SECONDS))
    } else if tier == 2 {
        Some((TIER2_AMOUNT, DAY_SECONDS))
    } else {
        None
    }
}

/// An account identity: the 32 bytes of a public key.
#[derive(Clone, Copy, Debug)]
pub struct Identity {
    pub bytes: [u8; 32],
}

impl View for Identity {
    type V = Seq<u8>;

    open spec fn view(&self) -> Seq<u8> {
        self.bytes@
    }
}

impl PartialEq for Identity {
    fn eq(&self, other: &Identity) -> (r: bool) {
        let mut i: usize = 0;
        while i < 32
            invariant
                i <= 32,
                forall|j: int| 0 <= j < i ==> self.bytes@[j] == other.bytes@[j],
            decreases 32 - i,
        {
            if self.bytes[i] != other.bytes[i] {
                return false;
            }
            i = i + 1;
        }
        proof {
            assert(self.bytes@ =~= other.bytes@);
        }
        true
    }
}

impl vstd::std_specs::cmp::PartialEqSpecImpl for Identity {
    open spec fn obeys_eq_spec() -> bool {
        true
    }

    open spec fn eq_spec(&self, other: &Identity) -> bool {
        self.bytes@ == other.bytes@
    }
}

impl Eq for Identity {
}

/// `floor(amount * bps / 10000)`.
pub open spec fn bps_of(amount: u64, bps: u64) -> int {
    (amount as int * bps as int) / (BPS_DENOMINATOR as int)
}

/// `bps_of` is the truncated share of `amount`: at most `amount`.
pub proof fn lemma_bps_of_bounded(amount: u64, bps: u64)
    requires
        bps <= BPS_DENOMINATOR,
    ensures
        0 <= bps_of(amount, bps) <= amount,
{
    assert(0 <= amount as int * bps as int <= amount as int * 10_000) by (nonlinear_arith)
        requires
            bps <= 10_000,
    ;
}

/// Computes `floor(amount * bps / 10000)` without overflow, for any amount.
fn share_of(amount: u64, bps: u64) -> (r: u64)
    requires
        bps <= BPS_DENOMINATOR,
    ensures
        r == bps_of(amount, bps),
        r <= amount,
{
    proof {
        lemma_bps_of_bounded(amount, bps);
        assert(amount as int * bps as int <= u64::MAX as int * 10_000) by (nonlinear_arith)
            requires
                bps <= 10_000,
        ;
    }
    let product: u128 = (amount as u128) * (bps as u128);
    (product / (BPS_DENOMINATOR as u128)) as u64
}

/// The slot at a record's address holds a well-formed record or none.
pub open spec fn slot_wf(slot: Option<StakeAccount>) -> bool {
    match slot {
        Some(a) => a.wf(),
        None => true,
    }
}

/// One participant's lock of tokens for one tier.
#[derive(Clone, Debug)]
pub struct StakeAccount {
    /// Owner wallet that created this stake.
    pub owner: Identity,
    /// Amount staked, in token base units.
    pub amount: u64,
    /// Tier index (0 = 100, 1 = 500, 2 = 1000 tokens).
    pub tier: u8,
    /// Unix timestamp when the stake was created.
    pub staked_at: i64,
    /// Unix timestamp when the lock period ends.
    pub unlock_at: i64,
    /// Whether this stake has been used for a simulation.
    pub simulation_used: bool,
    /// Identifier of the simulation run, empty until it is used.
    pub simulation_id: String,
    /// Whether the 5% burn has been executed.
    pub burned: bool,
    /// Bump of the record's derived address.
    pub bump: u8,
}

impl StakeAccount {
    /// The record's invariants: a tier of the table with its amount and lock,
    /// a burn only after use, and an identifier only with use.
    pub open spec fn wf(&self) -> bool {
        &&& self.tier < TIER_COUNT
        &&& self.amount == tier_amount(self.tier)
        &&& self.unlock_at == self.staked_at + tier_lock_seconds(self.tier)
        &&& self.burned ==> self.simulation_used
        &&& self.simulation_id@.len() <= MAX_SIMULATION_ID_LEN
        &&& !self.simulation_used ==> self.simulation_id@.len() == 0
    }

    /// The parts fixed at creation are the same in both records: owner, amount,
    /// tier, timestamps and bump.
    pub open spec fn same_lock(&self, other: &StakeAccount) -> bool {
        &&& self.owner@ == other.owner@
        &&& self.amount == other.amount
        &&& self.tier == other.tier
        &&& self.staked_at == other.staked_at
        &&& self.unlock_at == other.unlock_at
        &&& self.bump == other.bump
    }

    /// Whether the stake can be released at `current_time`: used, burned, and
    /// the lock period over.
    pub fn can_release(&self, current_time: i64) -> (r: bool)
        ensures
            r == (self.simulation_used && self.burned && current_time >= self.unlock_at),
    {
        self.simulation_used && self.burned && current_time >= self.unlock_at
    }

    /// The 5% fee destroyed by the burn: `floor(amount * 500 / 10000)`.
    pub fn burn_amount(&self) -> (r: u64)
        ensures
            r == bps_of(self.amount, BURN_RATE_BPS),
            r <= self.amount,
    {
        share_of(self.amount, BURN_RATE_BPS)
    }

    /// What is returned after the burn (95%): `amount - floor(amount * 500 / 10000)`.
    pub fn return_amount(&self) -> (r: u64)
        ensures
            r == self.amount - bps_of(self.amount, BURN_RATE_BPS),
    {
        let burn = share_of(self.amount, BURN_RATE_BPS);
        self.amount - burn
    }

    /// The 30% penalty destroyed by an emergency exit: `floor(amount * 3000 / 10000)`.
    pub fn penalty_amount(&self) -> (r: u64)
        ensures
            r == bps_of(self.amount, EMERGENCY_PENALTY_BPS),
            r <= self.amount,
    {
        share_of(self.amount, EMERGENCY_PENALTY_BPS)
    }

    /// What an emergency exit returns (70%): `amount - floor(amount * 3000 / 10000)`.
    pub fn emergency_return_amount(&self) -> (r: u64)
        ensures
            r == self.amount - bps_of(self.amount, EMERGENCY_PENALTY_BPS),
    {
        let penalty = share_of(self.amount, EMERGENCY_PENALTY_BPS);
        self.amount - penalty
    }
}

} // verus!
