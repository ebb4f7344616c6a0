use voter_stake_registry::{
    DepositEntry, Lockup, LockupKind, LockupTimeDuration, LockupTimeUnit, VotingConfig, VsrError,
    SECS_PER_DAY,
};

#[test]
pub fn deposit_entry_deactivate_test() -> Result<(), VsrError> {
    let lockup = Lockup::new_from_kind(LockupKind::daily(2), 0, 1)?;
    let mut entry = DepositEntry::new_from_lockup(lockup)?;

    assert!(entry.deactivate().is_ok());
    // deactivate again should fail
    assert_eq!(entry.deactivate(), Err(VsrError::InternalProgramError));

    Ok(())
}

#[test]
pub fn deposit_entry_deposit_test() -> Result<(), VsrError> {
    let day: i64 = i64::try_from(LockupTimeUnit::Day.seconds()).unwrap();
    let lockup_start = 1; // arbitrary point
    let lockup_kind = LockupKind::daily(4);
    let lockup = Lockup::new_from_kind(lockup_kind, 0, lockup_start)?;
    let mut entry = DepositEntry::new_from_lockup(lockup)?;

    // deposit at time 0
    entry.deposit(0, 10_000)?;

    assert_eq!(entry.get_amount_deposited_native(), 10_000);
    assert_eq!(entry.get_amount_initially_locked_native(), 10_000);
    assert_eq!(entry.get_lockup(), lockup);

    // deposit at time 1
    entry.deposit(1, 10_000)?;
    assert_eq!(entry.get_amount_deposited_native(), 20_000);
    assert_eq!(entry.get_amount_initially_locked_native(), 20_000);
    assert_eq!(entry.get_lockup(), lockup);

    // deposit at lock_start + day
    entry.deposit(lockup_start + day, 10_000)?;
    assert_eq!(entry.get_amount_deposited_native(), 30_000);
    assert_eq!(entry.get_amount_initially_locked_native(), 25_000);
    assert_ne!(entry.get_lockup(), lockup);
    assert_eq!(entry.get_lockup().kind, lockup_kind);
    assert_eq!(entry.get_lockup().start_ts, lockup_start + day);

    // deactivate, then deposit again
    entry.deactivate()?;
    assert_eq!(
        entry.deposit(lockup_start + day, 10_000),
        Err(VsrError::InternalProgramError)
    );

    Ok(())
}

#[test]
pub fn far_future_lockup_start_test() -> Result<(), VsrError> {
    // Check that voting power stays correct even if the lockup is very far in the
    // future, or at least more than lockup_saturation_secs in the future.
    let day: i64 = i64::try_from(LockupTimeUnit::Day.seconds()).unwrap();
    let saturation: i64 = 5 * day;
    let lockup_start = 10_000_000_000; // arbitrary point
    let mut entry = DepositEntry::new_from_lockup(Lockup::new_from_kind(
        LockupKind::daily(2),
        lockup_start,
        lockup_start,
    )?)?;
    entry.deposit(lockup_start, 10_000)?;
    let voting_mint_config = VotingConfig {
        baseline_vote_weight_scaled_factor: 1_000_000_000, // 1x
        max_extra_lockup_vote_weight_scaled_factor: 1_000_000_000, // 1x
        lockup_saturation_secs: saturation as u64,
    };

    let baseline_vote_weight =
        voting_mint_config.baseline_vote_weight(entry.get_amount_deposited_native())?;
    assert_eq!(baseline_vote_weight, 10_000);
    let max_locked_vote_weight = voting_mint_config
        .max_extra_lockup_vote_weight(entry.get_amount_initially_locked_native())?;
    assert_eq!(max_locked_vote_weight, 10_000);

    // The timestamp 100_000 is very far before the lockup_start timestamp
    let withdrawable = entry.amount_unlocked(100_000)?;
    assert_eq!(withdrawable, 0);
    let voting_power = entry.voting_power(&voting_mint_config, 100_000).unwrap();
    assert_eq!(voting_power, 20_000);

    let voting_power = entry
        .voting_power(&voting_mint_config, lockup_start - saturation)
        .unwrap();
    assert_eq!(voting_power, 20_000);

    let voting_power = entry
        .voting_power(&voting_mint_config, lockup_start - saturation + day)
        .unwrap();
    assert_eq!(voting_power, 20_000);

    let voting_power = entry
        .voting_power(&voting_mint_config, lockup_start - saturation + day + 1)
        .unwrap();
    assert_eq!(voting_power, 19_999);

    let voting_power = entry
        .voting_power(&voting_mint_config, lockup_start - saturation + 2 * day)
        .unwrap();
    assert_eq!(voting_power, 19_000); // the second cliff has only 4/5th of lockup period left

    let voting_power = entry
        .voting_power(&voting_mint_config, lockup_start - saturation + 2 * day + 1)
        .unwrap();
    assert_eq!(voting_power, 18_999);

    Ok(())
}

#[test]
pub fn daily_vested_test() -> Result<(), VsrError> {
    let day: i64 = i64::try_from(LockupTimeUnit::Day.seconds()).unwrap();
    let lockup_start = 1; // arbitrary point
    let mut entry = DepositEntry::new_from_lockup(Lockup::new_from_kind(
        LockupKind::daily(2),
        0,
        lockup_start,
    )?)?;
    entry.deposit(lockup_start, 10_000)?;

    let mut vested = entry.vested(lockup_start - 1)?;
    let mut amount_locked = entry.amount_locked(lockup_start - 1)?;
    let mut amount_unlocked = entry.amount_unlocked(lockup_start - 1)?;
    assert_eq!(vested, 0);
    assert_eq!(amount_locked, 10_000);
    assert_eq!(amount_unlocked, 0);

    vested = entry.vested(lockup_start + day - 1)?;
    amount_locked = entry.amount_locked(lockup_start + day - 1)?;
    amount_unlocked = entry.amount_unlocked(lockup_start + day - 1)?;
    assert_eq!(vested, 0);
    assert_eq!(amount_locked, 10_000);
    assert_eq!(amount_unlocked, 0);

    vested = entry.vested(lockup_start + day)?;
    amount_locked = entry.amount_locked(lockup_start + day)?;
    amount_unlocked = entry.amount_unlocked(lockup_start + day)?;
    assert_eq!(vested, 5_000);
    assert_eq!(amount_locked, 5_000);
    assert_eq!(amount_unlocked, 5_000);

    vested = entry.vested(lockup_start + day + day - 1)?;
    amount_locked = entry.amount_locked(lockup_start + day + day - 1)?;
    amount_unlocked = entry.amount_unlocked(lockup_start + day + day - 1)?;
    assert_eq!(vested, 5_000);
    assert_eq!(amount_locked, 5_000);
    assert_eq!(amount_unlocked, 5_000);

    vested = entry.vested(lockup_start + day + day)?;
    amount_locked = entry.amount_locked(lockup_start + day + day)?;
    amount_unlocked = entry.amount_unlocked(lockup_start + day + day)?;
    assert_eq!(vested, 10_000);
    assert_eq!(amount_locked, 0);
    assert_eq!(amount_unlocked, 10_000);

    vested = entry.vested(lockup_start + day + day + 1)?;
    amount_locked = entry.amount_locked(lockup_start + day + day + 1)?;
    amount_unlocked = entry.amount_unlocked(lockup_start + day + day + 1)?;
    assert_eq!(vested, 10_000);
    assert_eq!(amount_locked, 0);
    assert_eq!(amount_unlocked, 10_000);

    Ok(())
}

#[test]
pub fn monthly_vested_test() -> Result<(), VsrError> {
    let month: i64 = i64::try_from(LockupTimeUnit::Month.seconds()).unwrap();
    let lockup_start = 1; // arbitrary point
    let mut entry = DepositEntry::new_from_lockup(Lockup::new_from_kind(
        LockupKind::monthly(2),
        0,
        lockup_start,
    )?)?;
    entry.deposit(lockup_start, 10_000)?;

    let mut vested = entry.vested(lockup_start - 1)?;
    let mut amount_locked = entry.amount_locked(lockup_start - 1)?;
    let mut amount_unlocked = entry.amount_unlocked(lockup_start - 1)?;
    assert_eq!(vested, 0);
    assert_eq!(amount_locked, 10_000);
    assert_eq!(amount_unlocked, 0);

    vested = entry.vested(lockup_start + month - 1)?;
    amount_locked = entry.amount_locked(lockup_start + month - 1)?;
    amount_unlocked = entry.amount_unlocked(lockup_start + month - 1)?;
    assert_eq!(vested, 0);
    assert_eq!(amount_locked, 10_000);
    assert_eq!(amount_unlocked, 0);

    vested = entry.vested(lockup_start + month)?;
    amount_locked = entry.amount_locked(lockup_start + month)?;
    amount_unlocked = entry.amount_unlocked(lockup_start + month)?;
    assert_eq!(vested, 5_000);
    assert_eq!(amount_locked, 5_000);
    assert_eq!(amount_unlocked, 5_000);

    vested = entry.vested(lockup_start + month + month - 1)?;
    amount_locked = entry.amount_locked(lockup_start + month + month - 1)?;
    amount_unlocked = entry.amount_unlocked(lockup_start + month + month - 1)?;
    assert_eq!(vested, 5_000);
    assert_eq!(amount_locked, 5_000);
    assert_eq!(amount_unlocked, 5_000);

    vested = entry.vested(lockup_start + month + month)?;
    amount_locked = entry.amount_locked(lockup_start + month + month)?;
    amount_unlocked = entry.amount_unlocked(lockup_start + month + month)?;
    assert_eq!(vested, 10_000);
    assert_eq!(amount_locked, 0);
    assert_eq!(amount_unlocked, 10_000);

    vested = entry.vested(lockup_start + month + month + 1)?;
    amount_locked = entry.amount_locked(lockup_start + month + month + 1)?;
    amount_unlocked = entry.amount_unlocked(lockup_start + month + month + 1)?;
    assert_eq!(vested, 10_000);
    assert_eq!(amount_locked, 0);
    assert_eq!(amount_unlocked, 10_000);

    Ok(())
}

#[test]
pub fn constant_vested_test() -> Result<(), VsrError> {
    let month: i64 = i64::try_from(LockupTimeUnit::Month.seconds()).unwrap();
    let lockup_start = 1; // arbitrary point
    let mut entry = DepositEntry::new_from_lockup(Lockup::new_from_kind(
        LockupKind::constant(LockupTimeDuration { periods: 1, unit: LockupTimeUnit::Month }),
        0,
        lockup_start,
    )?)?;
    entry.deposit(lockup_start, 10_000)?;

    let mut vested = entry.vested(lockup_start - 1)?;
    let mut amount_locked = entry.amount_locked(lockup_start - 1)?;
    let mut amount_unlocked = entry.amount_unlocked(lockup_start - 1)?;
    assert_eq!(vested, 0);
    assert_eq!(amount_locked, 10_000);
    assert_eq!(amount_unlocked, 0);

    vested = entry.vested(lockup_start + month - 1)?;
    amount_locked = entry.amount_locked(lockup_start + month - 1)?;
    amount_unlocked = entry.amount_unlocked(lockup_start + month - 1)?;
    assert_eq!(vested, 0);
    assert_eq!(amount_locked, 10_000);
    assert_eq!(amount_unlocked, 0);

    vested = entry.vested(lockup_start + month + 1)?;
    amount_locked = entry.amount_locked(lockup_start + month + 1)?;
    amount_unlocked = entry.amount_unlocked(lockup_start + month + 1)?;
    assert_eq!(vested, 0);
    assert_eq!(amount_locked, 10_000);
    assert_eq!(amount_unlocked, 0);

    Ok(())
}

#[test]
pub fn withdraw_test() -> Result<(), VsrError> {
    let day: i64 = i64::try_from(LockupTimeUnit::Day.seconds()).unwrap();
    let lockup_start = 0; // arbitrary point
    let lockup_kind = LockupKind::daily(4);
    let lockup = Lockup::new_from_kind(lockup_kind, lockup_start, lockup_start)?;

    let mut entry = DepositEntry::new_from_lockup(lockup)?;
    entry.deposit(0, 10_000)?;

    let withdraw_at = lockup_start + day;
    assert_eq!(entry.amount_unlocked(withdraw_at)?, 2_500);

    // First withdrawal: amount 1000
    entry.withdraw(withdraw_at, 1_000)?;
    assert_eq!(entry.get_amount_deposited_native(), 9000);
    assert_eq!(entry.get_amount_initially_locked_native(), 10_000);
    assert_eq!(entry.amount_unlocked(withdraw_at)?, 1_500);
    assert_eq!(entry.get_lockup(), lockup);

    // Second withdrawal: amount 1000
    entry.withdraw(withdraw_at, 1_000)?;
    assert_eq!(entry.get_amount_deposited_native(), 8000);
    assert_eq!(entry.get_amount_initially_locked_native(), 10_000);
    assert_eq!(entry.amount_unlocked(withdraw_at)?, 500);
    assert_eq!(entry.get_lockup(), lockup);

    // Third withdrawal: amount 1000
    assert_eq!(
        entry.withdraw(withdraw_at, 1_000),
        Err(VsrError::InsufficientUnlockedTokens)
    );

    // Fourth withdrawal: amount 500
    entry.withdraw(withdraw_at, 500)?;
    assert_eq!(entry.get_amount_deposited_native(), 7500);
    assert_eq!(entry.get_amount_initially_locked_native(), 10_000);
    assert_eq!(entry.amount_unlocked(withdraw_at)?, 0);
    assert_eq!(entry.get_lockup(), lockup);

    // Withdrawal after deactivate
    entry.deactivate()?;
    assert_eq!(
        entry.withdraw(withdraw_at, 1_000),
        Err(VsrError::InternalProgramError)
    );

    Ok(())
}

fn daily_entry(periods: u64, start_ts: i64, amount: u64) -> DepositEntry {
    let lockup = Lockup::new_from_kind(LockupKind::daily(periods), start_ts, start_ts).unwrap();
    let mut entry = DepositEntry::new_from_lockup(lockup).unwrap();
    entry.deposit(start_ts, amount).unwrap();
    entry
}

const DAY: i64 = SECS_PER_DAY as i64;

// A deposit of 10,000 that vests daily in two steps.
#[test]
pub fn two_day_vesting_by_the_second() {
    let t0 = 1_700_000_000;
    let entry = daily_entry(2, t0, 10_000);
    assert_eq!(entry.vested(t0 + DAY - 1), Ok(0));
    assert_eq!(entry.amount_locked(t0 + DAY - 1), Ok(10_000));
    assert_eq!(entry.amount_unlocked(t0 + DAY - 1), Ok(0));
    assert_eq!(entry.vested(t0 + DAY), Ok(5_000));
    assert_eq!(entry.amount_locked(t0 + DAY), Ok(5_000));
    assert_eq!(entry.amount_unlocked(t0 + DAY), Ok(5_000));
    assert_eq!(entry.vested(t0 + 2 * DAY), Ok(10_000));
    assert_eq!(entry.amount_locked(t0 + 2 * DAY), Ok(0));
    assert_eq!(entry.amount_unlocked(t0 + 2 * DAY), Ok(10_000));
}

// The same deposit after a withdrawal of 1,000 at the first step: only
// the deposited amount goes down.
#[test]
pub fn withdrawal_leaves_the_locked_amount_alone() {
    let t0 = 1_700_000_000;
    let mut entry = daily_entry(2, t0, 10_000);
    assert_eq!(entry.withdraw(t0 + DAY, 1_000), Ok(()));
    assert_eq!(entry.get_amount_deposited_native(), 9_000);
    assert_eq!(entry.get_amount_initially_locked_native(), 10_000);
    assert_eq!(entry.amount_locked(t0 + DAY), Ok(5_000));
    assert_eq!(entry.amount_unlocked(t0 + DAY), Ok(4_000));
    let before = entry;
    assert_eq!(entry.withdraw(t0 + DAY, 4_001), Err(VsrError::InsufficientUnlockedTokens));
    assert_eq!(entry, before);
    assert_eq!(entry.withdraw(t0 + DAY, 4_000), Ok(()));
    assert_eq!(entry.amount_unlocked(t0 + DAY), Ok(0));
    assert_eq!(entry.get_amount_deposited_native(), 5_000);
}

// A withdrawal of more than is unlocked fails and leaves the entry as it was.
#[test]
pub fn withdraw_guard() {
    let t0 = 50;
    let mut entry = daily_entry(4, t0, 1_000);
    let before = entry;
    assert_eq!(entry.withdraw(t0, 1), Err(VsrError::InsufficientUnlockedTokens));
    assert_eq!(entry, before);
    assert_eq!(entry.withdraw(t0 + DAY, 251), Err(VsrError::InsufficientUnlockedTokens));
    assert_eq!(entry, before);
    assert_eq!(entry.withdraw(t0 + DAY, 250), Ok(()));
    assert_eq!(entry.get_amount_deposited_native(), 750);
    // Nothing can always be withdrawn.
    assert_eq!(entry.withdraw(t0 + DAY, 0), Ok(()));
    assert_eq!(entry.get_amount_deposited_native(), 750);
    // All of it once the lockup has run out.
    assert_eq!(entry.withdraw(t0 + 4 * DAY, 751), Err(VsrError::InsufficientUnlockedTokens));
    assert_eq!(entry.withdraw(t0 + 4 * DAY, 750), Ok(()));
    assert_eq!(entry.get_amount_deposited_native(), 0);
    assert!(entry.is_active());
}

#[test]
pub fn an_unused_entry_answers_with_an_error() {
    let mut entry = DepositEntry::default();
    assert!(!entry.is_active());
    assert_eq!(entry.get_lockup(), Lockup::default());
    assert_eq!(entry.get_amount_deposited_native(), 0);
    assert_eq!(entry.get_amount_initially_locked_native(), 0);
    assert_eq!(entry.vested(0), Err(VsrError::InternalProgramError));
    assert_eq!(entry.amount_locked(0), Err(VsrError::InternalProgramError));
    assert_eq!(entry.amount_unlocked(0), Err(VsrError::InternalProgramError));
    assert_eq!(entry.voting_power_locked(0, 10, 10), Err(VsrError::InternalProgramError));
    let config = VotingConfig {
        baseline_vote_weight_scaled_factor: 1,
        max_extra_lockup_vote_weight_scaled_factor: 1,
        lockup_saturation_secs: 1,
    };
    assert_eq!(entry.voting_power(&config, 0), Err(VsrError::InternalProgramError));
    assert_eq!(entry.deposit(0, 1), Err(VsrError::InternalProgramError));
    assert_eq!(entry.withdraw(0, 0), Err(VsrError::InternalProgramError));
    assert_eq!(entry.deactivate(), Err(VsrError::InternalProgramError));
    assert_eq!(entry, DepositEntry::default());
}

#[test]
pub fn deactivate_resets_the_entry() {
    let mut entry = daily_entry(3, 100, 777);
    assert!(entry.is_active());
    assert_eq!(entry.deactivate(), Ok(()));
    assert_eq!(entry, DepositEntry::default());
}

// A deposit after the start begins the lockup anew, and what had vested
// no longer counts as locked.
#[test]
pub fn a_late_deposit_restarts_the_clock() {
    let t0 = 1_000;
    let mut entry = daily_entry(4, t0, 8_000);
    // Two of four steps have passed: 4,000 are vested.
    assert_eq!(entry.vested(t0 + 2 * DAY + 5), Ok(4_000));
    assert_eq!(entry.deposit(t0 + 2 * DAY + 5, 1_000), Ok(()));
    assert_eq!(entry.get_amount_deposited_native(), 9_000);
    assert_eq!(entry.get_amount_initially_locked_native(), 5_000);
    assert_eq!(entry.get_lockup(), Lockup { kind: LockupKind::daily(4), start_ts: t0 + 2 * DAY + 5 });
    assert_eq!(entry.vested(t0 + 2 * DAY + 5), Ok(0));
    assert_eq!(entry.amount_unlocked(t0 + 2 * DAY + 5), Ok(4_000));
    assert_eq!(entry.vested(t0 + 3 * DAY + 5), Ok(1_250));
}

// A restart is refused where the lockup has more periods than a new one
// may have, and the entry is left as it was.
#[test]
pub fn a_restart_checks_the_periods() {
    let lockup = Lockup { kind: LockupKind::daily(73_001), start_ts: 10 };
    let mut entry = DepositEntry::new_from_lockup(lockup).unwrap();
    assert_eq!(entry.deposit(10, 500), Ok(()));
    let before = entry;
    assert_eq!(entry.deposit(11, 500), Err(VsrError::InvalidLockupPeriod));
    assert_eq!(entry, before);
}

// Vesting rounds down: 10 tokens over three steps.
#[test]
pub fn vesting_rounds_down() {
    let entry = daily_entry(3, 0, 10);
    assert_eq!(entry.vested(DAY), Ok(3));
    assert_eq!(entry.vested(2 * DAY), Ok(6));
    assert_eq!(entry.vested(3 * DAY), Ok(10));
    // The product of the amount and the period does not have to fit 64 bits.
    let big = daily_entry(4, 0, u64::MAX);
    assert_eq!(big.vested(3 * DAY), Ok(13_835_058_055_282_163_711));
    assert_eq!(big.amount_locked(3 * DAY), Ok(4_611_686_018_427_387_904));
}

fn one_to_one(saturation: u64) -> VotingConfig {
    VotingConfig {
        baseline_vote_weight_scaled_factor: 1_000_000_000,
        max_extra_lockup_vote_weight_scaled_factor: 1_000_000_000,
        lockup_saturation_secs: saturation,
    }
}

// The weight of a constant lockup: maximum times the seconds left over
// the saturation, at most the maximum.
#[test]
pub fn constant_lockup_weight() {
    let constant = |days: u64| {
        let lockup = Lockup {
            kind: LockupKind::constant(LockupTimeDuration { periods: days, unit: LockupTimeUnit::Day }),
            start_ts: 500,
        };
        let mut entry = DepositEntry::new_from_lockup(lockup).unwrap();
        entry.deposit(500, 9_000).unwrap();
        entry
    };
    let saturation = 3 * SECS_PER_DAY;
    // At its start a lockup as long as the saturation weighs the maximum.
    assert_eq!(constant(3).voting_power_locked(500, 9_000, saturation), Ok(9_000));
    assert_eq!(constant(30).voting_power_locked(500, 9_000, saturation), Ok(9_000));
    // A shorter one weighs its share, at any time.
    assert_eq!(constant(1).voting_power_locked(500, 9_000, saturation), Ok(3_000));
    assert_eq!(constant(1).voting_power_locked(500 + 40 * DAY, 9_000, saturation), Ok(3_000));
    assert_eq!(constant(2).voting_power_locked(0, 10, saturation), Ok(6));
    // One of no length has expired from the start.
    assert_eq!(constant(0).voting_power_locked(500, 9_000, saturation), Ok(0));
    // No weight to be had.
    assert_eq!(constant(3).voting_power_locked(500, 0, saturation), Ok(0));
    // Baseline and lockup together.
    assert_eq!(constant(1).voting_power(&one_to_one(saturation), 500), Ok(12_000));
}

// From its end on a vesting lockup adds nothing.
#[test]
pub fn no_weight_after_the_end() {
    let entry = daily_entry(5, 1_000, 4_000);
    let saturation = 2 * SECS_PER_DAY;
    assert_eq!(entry.voting_power_locked(1_000 + 4 * DAY, 4_000, saturation), Ok(400));
    assert_eq!(entry.voting_power_locked(1_000 + 5 * DAY, 4_000, saturation), Ok(0));
    assert_eq!(entry.voting_power_locked(1_000 + 50 * DAY, 4_000, saturation), Ok(0));
    assert_eq!(entry.voting_power(&one_to_one(saturation), 1_000 + 5 * DAY), Ok(4_000));
}

// The closed form against the sum over the cliffs, cliff by cliff, in
// whole numbers.
fn weight_by_cliffs(
    periods_total: u64,
    period_secs: u64,
    start_ts: i64,
    curr_ts: i64,
    max: u64,
    saturation: u64,
) -> u64 {
    let end_ts = start_ts + (periods_total * period_secs) as i64;
    if curr_ts >= end_ts || max == 0 {
        return 0;
    }
    let mut seconds: core::primitive::u128 = 0;
    for k in 0..periods_total {
        // The cliff number k unlocks at the end of period k + 1.
        let unlocks_at = start_ts + ((k + 1) * period_secs) as i64;
        if unlocks_at > curr_ts {
            let left = (unlocks_at - curr_ts) as u64;
            seconds += left.min(saturation) as core::primitive::u128;
        }
    }
    (max as core::primitive::u128 * seconds
        / (periods_total as core::primitive::u128 * saturation as core::primitive::u128)) as u64
}

#[test]
pub fn vesting_weight_equals_the_sum_over_the_cliffs() {
    let start_ts: i64 = 1_634_929_833;
    for (periods, monthly) in [(1u64, false), (2, false), (7, false), (10, true), (36, true), (400, false)] {
        let kind = if monthly { LockupKind::monthly(periods) } else { LockupKind::daily(periods) };
        let period_secs = kind.period_secs();
        let lockup = Lockup::new_from_kind(kind, start_ts, start_ts).unwrap();
        let mut entry = DepositEntry::new_from_lockup(lockup).unwrap();
        entry.deposit(start_ts, 123_456_789).unwrap();
        for saturation in [period_secs * periods + 1, 365 * 86_400 + 7 * 3_600, period_secs * 3 + 17, 5 * period_secs] {
            let mut ts = start_ts;
            let end = start_ts + (periods * period_secs) as i64 + 10;
            let step = ((periods * period_secs) / 57 + 1) as i64;
            while ts < end {
                let periods_left = lockup.periods_left(ts).unwrap();
                let first = if periods_left > 0 {
                    lockup.seconds_left(ts) - period_secs * (periods_left - 1)
                } else {
                    0
                };
                // Where periods have passed and even the nearest cliff is
                // saturated, the weight is the maximum and not the sum.
                if !(first >= saturation && periods_left < periods) {
                    assert_eq!(
                        entry.voting_power_locked(ts, 1_000_000_007, saturation).unwrap(),
                        weight_by_cliffs(periods, period_secs, start_ts, ts, 1_000_000_007, saturation),
                    );
                } else {
                    assert_eq!(
                        entry.voting_power_locked(ts, 1_000_000_007, saturation),
                        Ok(1_000_000_007)
                    );
                }
                ts += step;
            }
        }
    }
}

// Exact values of the closed form: Daily(10), saturation 3 days, maximum 1000.
#[test]
pub fn vesting_weight_exact_values() {
    let entry = daily_entry(10, 0, 5_000);
    let saturation = 3 * SECS_PER_DAY;
    // At the start the cliffs are 1, 2, 3, 3, ... days away: 1 + 2 + 3 * 8 = 27 of 30.
    assert_eq!(entry.voting_power_locked(0, 1_000, saturation), Ok(900));
    // Half a day in: 0.5 + 1.5 + 2.5 + 3 * 7 = 25.5 of 30.
    assert_eq!(entry.voting_power_locked(DAY / 2, 1_000, saturation), Ok(850));
    // After 8 days two cliffs are left, 1 and 2 days away: 3 of 30.
    assert_eq!(entry.voting_power_locked(8 * DAY, 1_000, saturation), Ok(100));
    // One second before the end: 1 second of 30 days.
    assert_eq!(entry.voting_power_locked(10 * DAY - 1, 1_000_000_000, saturation), Ok(385));
    assert_eq!(entry.voting_power_locked(10 * DAY, 1_000, saturation), Ok(0));
    // Where the nearest cliff is saturated, the weight is the maximum.
    assert_eq!(entry.voting_power_locked(0, 1_000, SECS_PER_DAY), Ok(1_000));
    assert_eq!(entry.voting_power_locked(8 * DAY, 1_000, SECS_PER_DAY), Ok(1_000));
    // The locked funds never weigh more than the maximum.
    let mut ts = -3 * DAY;
    while ts < 11 * DAY {
        assert!(entry.voting_power_locked(ts, 1_000, saturation).unwrap() <= 1_000);
        ts += 3_601;
    }
}

#[test]
pub fn voting_power_adds_baseline_and_lockup() {
    let entry = daily_entry(10, 0, 5_000);
    let config = VotingConfig {
        baseline_vote_weight_scaled_factor: 2_000_000_000,
        max_extra_lockup_vote_weight_scaled_factor: 500_000_000,
        lockup_saturation_secs: 3 * SECS_PER_DAY,
    };
    // Baseline 10,000; maximum of the lockup 2,500, of which 27/30.
    assert_eq!(entry.voting_power(&config, 0), Ok(12_250));
    assert_eq!(entry.voting_power(&config, 10 * DAY), Ok(10_000));
}

#[test]
pub fn voting_power_overflow_is_reported() {
    let entry = daily_entry(10, 0, u64::MAX);
    // The baseline alone does not fit.
    let config = VotingConfig {
        baseline_vote_weight_scaled_factor: 1_000_000_001,
        max_extra_lockup_vote_weight_scaled_factor: 0,
        lockup_saturation_secs: 1,
    };
    assert_eq!(entry.voting_power(&config, 0), Err(VsrError::VoterWeightOverflow));
    // The maximum of the lockup does not fit.
    let config = VotingConfig {
        baseline_vote_weight_scaled_factor: 0,
        max_extra_lockup_vote_weight_scaled_factor: 2_000_000_000,
        lockup_saturation_secs: 1,
    };
    assert_eq!(entry.voting_power(&config, 0), Err(VsrError::VoterWeightOverflow));
    // Each part fits, the sum does not.
    let config = VotingConfig {
        baseline_vote_weight_scaled_factor: 1_000_000_000,
        max_extra_lockup_vote_weight_scaled_factor: 1_000_000_000,
        lockup_saturation_secs: 1,
    };
    assert_eq!(entry.voting_power(&config, 0), Err(VsrError::VoterWeightOverflow));
    assert_eq!(entry.voting_power(&config, 10 * DAY), Ok(u64::MAX));
}
