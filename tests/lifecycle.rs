use hopium_staking::errors::HopiumError;
use hopium_staking::instructions::complete_simulation::CompleteSimulation;
use hopium_staking::instructions::emergency_withdraw::EmergencyWithdraw;
use hopium_staking::instructions::release::Release;
use hopium_staking::instructions::stake::Stake;
use hopium_staking::instructions::use_stake::UseStake;
use hopium_staking::instructions::Settlement;
use hopium_staking::state::{stake_tier, Identity, StakeAccount, DAY_SECONDS};
use hopium_staking::{complete_simulation, emergency_withdraw, release, stake, use_stake};

const START: i64 = 1_700_000_000;

fn id(b: u8) -> Identity {
    Identity { bytes: [b; 32] }
}

fn backend() -> Identity {
    id(9)
}

fn opened(tier: u8, balance: u64, escrow: u64) -> (Stake, Result<Settlement, HopiumError>) {
    let mut ctx = Stake {
        user: id(1),
        stake_account: None,
        user_token_balance: balance,
        escrow_balance: escrow,
        now: START,
        bump: 254,
    };
    let r = stake(&mut ctx, tier);
    (ctx, r)
}

fn mark(account: Option<StakeAccount>, sim: &str) -> (UseStake, Result<(), HopiumError>) {
    let mut ctx = UseStake {
        authority: backend(),
        backend_authority: backend(),
        stake_account: account,
    };
    let r = use_stake(&mut ctx, sim.to_string());
    (ctx, r)
}

fn finalize(account: Option<StakeAccount>, escrow: u64) -> (CompleteSimulation, Result<Settlement, HopiumError>) {
    let mut ctx = CompleteSimulation {
        authority: backend(),
        backend_authority: backend(),
        stake_account: account,
        escrow_balance: escrow,
    };
    let r = complete_simulation(&mut ctx);
    (ctx, r)
}

fn release_at(account: Option<StakeAccount>, balance: u64, escrow: u64, now: i64) -> (Release, Result<Settlement, HopiumError>) {
    let mut ctx = Release {
        user: id(1),
        stake_account: account,
        user_token_balance: balance,
        escrow_balance: escrow,
        now,
    };
    let r = release(&mut ctx);
    (ctx, r)
}

fn exit(account: Option<StakeAccount>, balance: u64, escrow: u64) -> (EmergencyWithdraw, Result<Settlement, HopiumError>) {
    let mut ctx = EmergencyWithdraw {
        user: id(1),
        stake_account: account,
        user_token_balance: balance,
        escrow_balance: escrow,
    };
    let r = emergency_withdraw(&mut ctx);
    (ctx, r)
}

fn record(amount: u64, tier: u8, used: bool, burned: bool) -> StakeAccount {
    StakeAccount {
        owner: id(1),
        amount,
        tier,
        staked_at: START,
        unlock_at: START + DAY_SECONDS,
        simulation_used: used,
        simulation_id: if used { "sim".to_string() } else { String::new() },
        burned,
        bump: 254,
    }
}

#[test]
fn open_each_tier_follows_table() {
    let expected = [(100_000_000u64, 7 * 86_400i64), (500_000_000, 3 * 86_400), (1_000_000_000, 86_400)];
    for (tier, (amount, lock)) in expected.iter().enumerate() {
        let (ctx, r) = opened(tier as u8, 2_000_000_000, 0);
        assert_eq!(r, Ok(Settlement { to_escrow: *amount, to_owner: 0, burned: 0 }));
        let a = ctx.stake_account.as_ref().unwrap();
        assert_eq!(a.amount, *amount);
        assert_eq!(a.tier, tier as u8);
        assert_eq!(a.staked_at, START);
        assert_eq!(a.unlock_at, START + *lock);
        assert!(a.owner == id(1));
        assert!(!a.simulation_used && !a.burned);
        assert_eq!(a.simulation_id, "");
        assert_eq!(a.bump, 254);
        assert_eq!(ctx.user_token_balance, 2_000_000_000 - *amount);
        assert_eq!(ctx.escrow_balance, *amount);
    }
}

#[test]
fn stake_tier_lookup() {
    assert_eq!(stake_tier(0), Some((100_000_000, 604_800)));
    assert_eq!(stake_tier(1), Some((500_000_000, 259_200)));
    assert_eq!(stake_tier(2), Some((1_000_000_000, 86_400)));
    assert_eq!(stake_tier(3), None);
}

#[test]
fn open_invalid_tier_moves_nothing() {
    for tier in [3u8, 4, 255] {
        let (ctx, r) = opened(tier, 2_000_000_000, 7);
        assert_eq!(r, Err(HopiumError::InvalidTier));
        assert_eq!(ctx.user_token_balance, 2_000_000_000);
        assert_eq!(ctx.escrow_balance, 7);
        assert!(ctx.stake_account.is_none());
    }
}

#[test]
fn open_on_live_address_fails() {
    let (mut ctx, r) = opened(0, 2_000_000_000, 0);
    assert!(r.is_ok());
    let r2 = stake(&mut ctx, 0);
    assert_eq!(r2, Err(HopiumError::StakeExists));
    assert_eq!(ctx.user_token_balance, 1_900_000_000);
    assert_eq!(ctx.escrow_balance, 100_000_000);
}

#[test]
fn open_with_insufficient_balance_fails() {
    let (ctx, r) = opened(1, 499_999_999, 0);
    assert_eq!(r, Err(HopiumError::InsufficientBalance));
    assert_eq!(ctx.user_token_balance, 499_999_999);
    let (_, exact) = opened(1, 500_000_000, 0);
    assert!(exact.is_ok());
}

#[test]
fn open_with_overflowing_unlock_fails() {
    let mut ctx = Stake {
        user: id(1),
        stake_account: None,
        user_token_balance: 2_000_000_000,
        escrow_balance: 0,
        now: i64::MAX - 10,
        bump: 1,
    };
    assert_eq!(stake(&mut ctx, 2), Err(HopiumError::Overflow));
    assert_eq!(ctx.user_token_balance, 2_000_000_000);
    assert!(ctx.stake_account.is_none());
}

#[test]
fn open_with_overflowing_escrow_fails() {
    let (ctx, r) = opened(0, 2_000_000_000, u64::MAX - 5);
    assert_eq!(r, Err(HopiumError::Overflow));
    assert_eq!(ctx.escrow_balance, u64::MAX - 5);
}

#[test]
fn mark_used_twice_keeps_first_id() {
    let (ctx, _) = opened(0, 2_000_000_000, 0);
    let (ctx, r) = mark(ctx.stake_account, "first");
    assert_eq!(r, Ok(()));
    let (ctx, r2) = mark(ctx.stake_account, "second");
    assert_eq!(r2, Err(HopiumError::StakeAlreadyUsed));
    let a = ctx.stake_account.unwrap();
    assert!(a.simulation_used);
    assert_eq!(a.simulation_id, "first");
}

#[test]
fn mark_used_id_length_limit() {
    let (ctx, _) = opened(0, 2_000_000_000, 0);
    let long = "a".repeat(65);
    let (ctx, r) = mark(ctx.stake_account, &long);
    assert_eq!(r, Err(HopiumError::SimulationIdTooLong));
    assert!(!ctx.stake_account.as_ref().unwrap().simulation_used);
    let exact = "b".repeat(64);
    let (ctx, r) = mark(ctx.stake_account, &exact);
    assert_eq!(r, Ok(()));
    assert_eq!(ctx.stake_account.unwrap().simulation_id, exact);
}

#[test]
fn mark_used_counts_characters() {
    let (ctx, _) = opened(0, 2_000_000_000, 0);
    let wide = "é".repeat(64);
    let (ctx, r) = mark(ctx.stake_account, &wide);
    assert_eq!(r, Ok(()));
    assert_eq!(ctx.stake_account.unwrap().simulation_id, wide);
}

#[test]
fn mark_used_by_other_signer_is_unauthorized() {
    let (ctx, _) = opened(0, 2_000_000_000, 0);
    let mut u = UseStake { authority: id(1), backend_authority: backend(), stake_account: ctx.stake_account };
    assert_eq!(use_stake(&mut u, "sim".to_string()), Err(HopiumError::Unauthorized));
    assert!(!u.stake_account.unwrap().simulation_used);
}

#[test]
fn finalize_before_use_and_twice() {
    let (ctx, _) = opened(0, 2_000_000_000, 0);
    let (f, r) = finalize(ctx.stake_account, 100_000_000);
    assert_eq!(r, Err(HopiumError::StakeNotUsed));
    assert_eq!(f.escrow_balance, 100_000_000);
    let (u, _) = mark(f.stake_account, "sim");
    let (f, r) = finalize(u.stake_account, 100_000_000);
    assert!(r.is_ok());
    let (f2, r2) = finalize(f.stake_account, f.escrow_balance);
    assert_eq!(r2, Err(HopiumError::AlreadyBurned));
    assert_eq!(f2.escrow_balance, 95_000_000);
}

#[test]
fn finalize_by_other_signer_is_unauthorized() {
    let mut f = CompleteSimulation {
        authority: id(2),
        backend_authority: backend(),
        stake_account: Some(record(100_000_000, 0, true, false)),
        escrow_balance: 100_000_000,
    };
    assert_eq!(complete_simulation(&mut f), Err(HopiumError::Unauthorized));
    assert!(!f.stake_account.unwrap().burned);
}

#[test]
fn finalize_burns_five_percent() {
    let (f, r) = finalize(Some(record(100_000_000, 0, true, false)), 100_000_000);
    assert_eq!(r, Ok(Settlement { to_escrow: 0, to_owner: 0, burned: 5_000_000 }));
    assert_eq!(f.escrow_balance, 95_000_000);
    let a = f.stake_account.unwrap();
    assert!(a.burned && a.simulation_used);
    assert_eq!(a.simulation_id, "sim");
}

#[test]
fn finalize_with_short_escrow_fails() {
    let (f, r) = finalize(Some(record(100_000_000, 0, true, false)), 4_999_999);
    assert_eq!(r, Err(HopiumError::EscrowInsufficient));
    assert!(!f.stake_account.unwrap().burned);
}

#[test]
fn fee_amounts() {
    let a = record(100_000_000, 0, false, false);
    assert_eq!(a.burn_amount(), 5_000_000);
    assert_eq!(a.return_amount(), 95_000_000);
    assert_eq!(a.penalty_amount(), 30_000_000);
    assert_eq!(a.emergency_return_amount(), 70_000_000);
    let odd = record(12_345, 0, false, false);
    assert_eq!(odd.burn_amount(), 617);
    assert_eq!(odd.return_amount(), 11_728);
    assert_eq!(odd.penalty_amount(), 3_703);
    assert_eq!(odd.emergency_return_amount(), 8_642);
    let tiny = record(19, 0, false, false);
    assert_eq!(tiny.burn_amount(), 0);
    assert_eq!(tiny.return_amount(), 19);
    let big = record(u64::MAX, 0, false, false);
    assert_eq!(big.burn_amount(), 922_337_203_685_477_580);
    assert_eq!(big.return_amount(), u64::MAX - 922_337_203_685_477_580);
    assert_eq!(big.penalty_amount(), ((u64::MAX as u128) * 3000 / 10_000) as u64);
}

#[test]
fn can_release_needs_flags_and_time() {
    let a = record(100_000_000, 0, true, true);
    assert!(!a.can_release(START + DAY_SECONDS - 1));
    assert!(a.can_release(START + DAY_SECONDS));
    assert!(!record(100_000_000, 0, true, false).can_release(START + DAY_SECONDS));
    assert!(!record(100_000_000, 0, false, false).can_release(START + DAY_SECONDS));
}

#[test]
fn release_before_unlock_fails() {
    let (rl, r) = release_at(Some(record(100_000_000, 0, true, true)), 0, 95_000_000, START + DAY_SECONDS - 1);
    assert_eq!(r, Err(HopiumError::LockPeriodActive));
    assert!(rl.stake_account.is_some());
    assert_eq!(rl.escrow_balance, 95_000_000);
    assert_eq!(rl.user_token_balance, 0);
}

#[test]
fn release_before_burn_fails() {
    let (_, r) = release_at(Some(record(100_000_000, 0, true, false)), 0, 100_000_000, START + 10 * DAY_SECONDS);
    assert_eq!(r, Err(HopiumError::StakeNotUsed));
    let (_, r) = release_at(Some(record(100_000_000, 0, false, false)), 0, 100_000_000, START + 10 * DAY_SECONDS);
    assert_eq!(r, Err(HopiumError::StakeNotUsed));
}

#[test]
fn release_by_other_user_is_unauthorized() {
    let mut rl = Release {
        user: id(3),
        stake_account: Some(record(100_000_000, 0, true, true)),
        user_token_balance: 0,
        escrow_balance: 95_000_000,
        now: START + DAY_SECONDS,
    };
    assert_eq!(release(&mut rl), Err(HopiumError::Unauthorized));
    assert!(rl.stake_account.is_some());
}

#[test]
fn release_with_overflowing_balance_fails() {
    let (rl, r) = release_at(Some(record(100_000_000, 0, true, true)), u64::MAX, 95_000_000, START + DAY_SECONDS);
    assert_eq!(r, Err(HopiumError::Overflow));
    assert!(rl.stake_account.is_some());
}

#[test]
fn end_to_end_release_after_lock() {
    let (ctx, r) = opened(2, 1_000_000_000, 0);
    assert_eq!(r, Ok(Settlement { to_escrow: 1_000_000_000, to_owner: 0, burned: 0 }));
    assert_eq!(ctx.user_token_balance, 0);
    let (u, r) = mark(ctx.stake_account, "sim-1");
    assert_eq!(r, Ok(()));
    let (f, r) = finalize(u.stake_account, ctx.escrow_balance);
    assert_eq!(r, Ok(Settlement { to_escrow: 0, to_owner: 0, burned: 50_000_000 }));
    assert_eq!(f.escrow_balance, 950_000_000);
    let (early, r) = release_at(f.stake_account, 0, f.escrow_balance, START + DAY_SECONDS - 1);
    assert_eq!(r, Err(HopiumError::LockPeriodActive));
    let (done, r) = release_at(early.stake_account, 0, early.escrow_balance, START + DAY_SECONDS);
    assert_eq!(r, Ok(Settlement { to_escrow: 0, to_owner: 950_000_000, burned: 0 }));
    assert_eq!(done.user_token_balance, 950_000_000);
    assert_eq!(done.escrow_balance, 0);
    assert!(done.stake_account.is_none());
}

#[test]
fn end_to_end_emergency_exit() {
    let (ctx, r) = opened(1, 500_000_000, 0);
    assert!(r.is_ok());
    let (e, r) = exit(ctx.stake_account, ctx.user_token_balance, ctx.escrow_balance);
    assert_eq!(r, Ok(Settlement { to_escrow: 0, to_owner: 350_000_000, burned: 150_000_000 }));
    assert_eq!(e.user_token_balance, 350_000_000);
    assert_eq!(e.escrow_balance, 0);
    assert!(e.stake_account.is_none());
}

#[test]
fn emergency_exit_by_other_user_is_unauthorized() {
    let mut e = EmergencyWithdraw {
        user: id(4),
        stake_account: Some(record(500_000_000, 1, false, false)),
        user_token_balance: 0,
        escrow_balance: 500_000_000,
    };
    assert_eq!(emergency_withdraw(&mut e), Err(HopiumError::Unauthorized));
    assert_eq!(e.escrow_balance, 500_000_000);
}

#[test]
fn emergency_exit_after_finalize_lacks_escrow() {
    let (ctx, _) = opened(0, 100_000_000, 0);
    let (u, _) = mark(ctx.stake_account, "sim");
    let (f, r) = finalize(u.stake_account, ctx.escrow_balance);
    assert!(r.is_ok());
    let (e, r) = exit(f.stake_account, 0, f.escrow_balance);
    assert_eq!(r, Err(HopiumError::EscrowInsufficient));
    assert_eq!(e.escrow_balance, 95_000_000);
    assert!(e.stake_account.is_some());
}

#[test]
fn emergency_exit_with_overflowing_balance_fails() {
    let (e, r) = exit(Some(record(100_000_000, 0, false, false)), u64::MAX, 100_000_000);
    assert_eq!(r, Err(HopiumError::Overflow));
    assert!(e.stake_account.is_some());
}

#[test]
fn closed_record_is_not_found() {
    let (ctx, _) = opened(1, 500_000_000, 0);
    let (e, r) = exit(ctx.stake_account, 0, ctx.escrow_balance);
    assert!(r.is_ok());
    let (_, r) = mark(e.stake_account.clone(), "sim");
    assert_eq!(r, Err(HopiumError::StakeNotFound));
    let (_, r) = finalize(e.stake_account.clone(), 1_000);
    assert_eq!(r, Err(HopiumError::StakeNotFound));
    let (_, r) = release_at(e.stake_account.clone(), 0, 1_000, START + 30 * DAY_SECONDS);
    assert_eq!(r, Err(HopiumError::StakeNotFound));
    let (_, r) = exit(e.stake_account, 0, 1_000);
    assert_eq!(r, Err(HopiumError::StakeNotFound));
}

#[test]
fn released_record_is_not_found() {
    let (rl, r) = release_at(Some(record(100_000_000, 0, true, true)), 0, 95_000_000, START + DAY_SECONDS);
    assert!(r.is_ok());
    let (_, r) = release_at(rl.stake_account.clone(), 0, 1_000, START + DAY_SECONDS);
    assert_eq!(r, Err(HopiumError::StakeNotFound));
    let (_, r) = exit(rl.stake_account.clone(), 0, 1_000);
    assert_eq!(r, Err(HopiumError::StakeNotFound));
    let (_, r) = mark(rl.stake_account, "sim");
    assert_eq!(r, Err(HopiumError::StakeNotFound));
}

#[test]
fn error_messages() {
    assert_eq!(HopiumError::LockPeriodActive.message(), "Lock period has not ended. Cannot release yet.");
    assert_eq!(HopiumError::SimulationIdTooLong.message(), "Simulation ID too long. Max 64 characters.");
    assert_eq!(HopiumError::StakeNotFound.message(), "No stake exists at this address.");
}

#[test]
fn identity_equality() {
    assert!(id(1) == id(1));
    let mut other = id(1);
    other.bytes[31] = 2;
    assert!(id(1) != other);
}
