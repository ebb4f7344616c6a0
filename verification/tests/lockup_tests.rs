use voter_stake_registry::{
    DepositEntry, Lockup, LockupKind, LockupTimeDuration, LockupTimeUnit, VsrError,
    MAX_LOCKUP_IN_FUTURE_SECS, MAX_LOCKUP_PERIODS, SECS_PER_DAY, SECS_PER_MONTH,
};

// intentionally not a multiple of a day
const MAX_SECS_LOCKED: u64 = 365 * 24 * 60 * 60 + 7 * 60 * 60;
const MAX_DAYS_LOCKED: f64 = MAX_SECS_LOCKED as f64 / (24.0 * 60.0 * 60.0);

#[test]
pub fn period_computations() -> Result<(), VsrError> {
    let lockup = Lockup::new_from_kind(LockupKind::daily(3), 1000, 1000)?;
    let day = SECS_PER_DAY as i64;
    assert_eq!(lockup.periods_total(), 3);
    assert_eq!(lockup.period_current(0)?, 0);
    assert_eq!(lockup.periods_left(0)?, 3);
    assert_eq!(lockup.period_current(999)?, 0);
    assert_eq!(lockup.periods_left(999)?, 3);
    assert_eq!(lockup.period_current(1000)?, 0);
    assert_eq!(lockup.periods_left(1000)?, 3);
    assert_eq!(lockup.period_current(1000 + day - 1)?, 0);
    assert_eq!(lockup.periods_left(1000 + day - 1)?, 3);
    assert_eq!(lockup.period_current(1000 + day)?, 1);
    assert_eq!(lockup.periods_left(1000 + day)?, 2);
    assert_eq!(lockup.period_current(1000 + 3 * day - 1)?, 2);
    assert_eq!(lockup.periods_left(1000 + 3 * day - 1)?, 1);
    assert_eq!(lockup.period_current(1000 + 3 * day)?, 3);
    assert_eq!(lockup.periods_left(1000 + 3 * day)?, 0);
    assert_eq!(lockup.period_current(100 * day)?, 3);
    assert_eq!(lockup.periods_left(100 * day)?, 0);
    Ok(())
}

#[test]
pub fn days_left_start() -> Result<(), VsrError> {
    run_test_days_left(TestDaysLeft {
        expected_days_left: 10,
        days_total: 10,
        curr_day: 0.0,
    })
}

#[test]
pub fn days_left_one_half() -> Result<(), VsrError> {
    run_test_days_left(TestDaysLeft {
        expected_days_left: 10,
        days_total: 10,
        curr_day: 0.5,
    })
}

#[test]
pub fn days_left_one() -> Result<(), VsrError> {
    run_test_days_left(TestDaysLeft {
        expected_days_left: 9,
        days_total: 10,
        curr_day: 1.0,
    })
}

#[test]
pub fn days_left_one_and_one_half() -> Result<(), VsrError> {
    run_test_days_left(TestDaysLeft {
        expected_days_left: 9,
        days_total: 10,
        curr_day: 1.5,
    })
}

#[test]
pub fn days_left_9() -> Result<(), VsrError> {
    run_test_days_left(TestDaysLeft {
        expected_days_left: 1,
        days_total: 10,
        curr_day: 9.0,
    })
}

#[test]
pub fn days_left_9_dot_one() -> Result<(), VsrError> {
    run_test_days_left(TestDaysLeft {
        expected_days_left: 1,
        days_total: 10,
        curr_day: 9.1,
    })
}

#[test]
pub fn days_left_9_dot_nine() -> Result<(), VsrError> {
    run_test_days_left(TestDaysLeft {
        expected_days_left: 1,
        days_total: 10,
        curr_day: 9.9,
    })
}

#[test]
pub fn days_left_ten() -> Result<(), VsrError> {
    run_test_days_left(TestDaysLeft {
        expected_days_left: 0,
        days_total: 10,
        curr_day: 10.0,
    })
}

#[test]
pub fn days_left_eleven() -> Result<(), VsrError> {
    run_test_days_left(TestDaysLeft {
        expected_days_left: 0,
        days_total: 10,
        curr_day: 11.0,
    })
}

#[test]
pub fn months_left_start() -> Result<(), VsrError> {
    run_test_months_left(TestMonthsLeft {
        expected_months_left: 10,
        months_total: 10,
        curr_month: 0.,
    })
}

#[test]
pub fn months_left_one_half() -> Result<(), VsrError> {
    run_test_months_left(TestMonthsLeft {
        expected_months_left: 10,
        months_total: 10,
        curr_month: 0.5,
    })
}

#[test]
pub fn months_left_one_and_a_half() -> Result<(), VsrError> {
    run_test_months_left(TestMonthsLeft {
        expected_months_left: 9,
        months_total: 10,
        curr_month: 1.5,
    })
}

#[test]
pub fn months_left_ten() -> Result<(), VsrError> {
    run_test_months_left(TestMonthsLeft {
        expected_months_left: 9,
        months_total: 10,
        curr_month: 1.5,
    })
}

#[test]
pub fn months_left_eleven() -> Result<(), VsrError> {
    run_test_months_left(TestMonthsLeft {
        expected_months_left: 0,
        months_total: 10,
        curr_month: 11.,
    })
}

#[test]
pub fn voting_power_daily_warmup() -> Result<(), VsrError> {
    let amount_deposited = 10 * 1_000_000;
    run_test_voting_power(TestVotingPower {
        expected_voting_power: locked_daily_power(amount_deposited, -1.5, 10),
        amount_deposited: 10 * 1_000_000, // 10 tokens with 6 decimals.
        curr_day: -1.5,
        kind: LockupKind::daily(10),
    })
}

#[test]
pub fn voting_power_daily_start() -> Result<(), VsrError> {
    // 10 tokens with 6 decimals.
    let amount_deposited = 10 * 1_000_000;
    let expected_voting_power = locked_daily_power(amount_deposited, 0.0, 10);
    run_test_voting_power(TestVotingPower {
        expected_voting_power,
        amount_deposited,
        curr_day: 0.0,
        kind: LockupKind::daily(10),
    })
}

#[test]
pub fn voting_power_daily_one_half() -> Result<(), VsrError> {
    // 10 tokens with 6 decimals.
    let amount_deposited = 10 * 1_000_000;
    let expected_voting_power = locked_daily_power(amount_deposited, 0.5, 10);
    run_test_voting_power(TestVotingPower {
        expected_voting_power,
        amount_deposited,
        curr_day: 0.5,
        kind: LockupKind::daily(10),
    })
}

#[test]
pub fn voting_power_daily_one() -> Result<(), VsrError> {
    // 10 tokens with 6 decimals.
    let amount_deposited = 10 * 1_000_000;
    let expected_voting_power = locked_daily_power(amount_deposited, 1.0, 10);
    run_test_voting_power(TestVotingPower {
        expected_voting_power,
        amount_deposited,
        curr_day: 1.0,
        kind: LockupKind::daily(10),
    })
}

#[test]
pub fn voting_power_daily_one_and_one_third() -> Result<(), VsrError> {
    // 10 tokens with 6 decimals.
    let amount_deposited = 10 * 1_000_000;
    let expected_voting_power = locked_daily_power(amount_deposited, 1.3, 10);
    run_test_voting_power(TestVotingPower {
        expected_voting_power,
        amount_deposited,
        curr_day: 1.3,
        kind: LockupKind::daily(10),
    })
}

#[test]
pub fn voting_power_daily_two() -> Result<(), VsrError> {
    // 10 tokens with 6 decimals.
    let amount_deposited = 10 * 1_000_000;
    let expected_voting_power = locked_daily_power(amount_deposited, 2.0, 10);
    run_test_voting_power(TestVotingPower {
        expected_voting_power,
        amount_deposited,
        curr_day: 2.0,
        kind: LockupKind::daily(10),
    })
}

#[test]
pub fn voting_power_daily_nine() -> Result<(), VsrError> {
    // 10 tokens with 6 decimals.
    let amount_deposited = 10 * 1_000_000;
    let expected_voting_power = locked_daily_power(amount_deposited, 9.0, 10);
    run_test_voting_power(TestVotingPower {
        expected_voting_power,
        amount_deposited,
        curr_day: 9.0,
        kind: LockupKind::daily(10),
    })
}

#[test]
pub fn voting_power_daily_nine_dot_nine() -> Result<(), VsrError> {
    // 10 tokens with 6 decimals.
    let amount_deposited = 10 * 1_000_000;
    let expected_voting_power = locked_daily_power(amount_deposited, 9.9, 10);
    run_test_voting_power(TestVotingPower {
        expected_voting_power,
        amount_deposited,
        curr_day: 9.9,
        kind: LockupKind::daily(10),
    })
}

#[test]
pub fn voting_power_daily_ten() -> Result<(), VsrError> {
    // 10 tokens with 6 decimals.
    let amount_deposited = 10 * 1_000_000;
    let expected_voting_power = locked_daily_power(amount_deposited, 10.0, 10);
    run_test_voting_power(TestVotingPower {
        expected_voting_power,
        amount_deposited,
        curr_day: 10.0,
        kind: LockupKind::daily(10),
    })
}

#[test]
pub fn voting_power_daily_ten_dot_one() -> Result<(), VsrError> {
    // 10 tokens with 6 decimals.
    let amount_deposited = 10 * 1_000_000;
    let expected_voting_power = locked_daily_power(amount_deposited, 10.1, 10);
    run_test_voting_power(TestVotingPower {
        expected_voting_power,
        amount_deposited,
        curr_day: 10.1,
        kind: LockupKind::daily(10),
    })
}

#[test]
pub fn voting_power_daily_eleven() -> Result<(), VsrError> {
    // 10 tokens with 6 decimals.
    let amount_deposited = 10 * 1_000_000;
    let expected_voting_power = locked_daily_power(amount_deposited, 11.0, 10);
    run_test_voting_power(TestVotingPower {
        expected_voting_power,
        amount_deposited,
        curr_day: 11.0,
        kind: LockupKind::daily(10),
    })
}

#[test]
pub fn voting_power_daily_saturation() -> Result<(), VsrError> {
    let days = MAX_DAYS_LOCKED.floor() as u64;
    let amount_deposited = days * 1_000_000;
    let expected_voting_power = locked_daily_power(amount_deposited, 0.0, days);
    run_test_voting_power(TestVotingPower {
        expected_voting_power,
        amount_deposited,
        curr_day: 0.0,
        kind: LockupKind::daily(MAX_DAYS_LOCKED.floor() as u64),
    })
}

#[test]
pub fn voting_power_daily_above_saturation1() -> Result<(), VsrError> {
    let days = (MAX_DAYS_LOCKED + 10.0).floor() as u64;
    let amount_deposited = days * 1_000_000;
    let expected_voting_power = locked_daily_power(amount_deposited, 0.0, days);
    run_test_voting_power(TestVotingPower {
        expected_voting_power,
        amount_deposited,
        curr_day: 0.0,
        kind: LockupKind::daily((MAX_DAYS_LOCKED + 10.0).floor() as u64),
    })
}

#[test]
pub fn voting_power_daily_above_saturation2() -> Result<(), VsrError> {
    let days = (MAX_DAYS_LOCKED + 10.0).floor() as u64;
    let amount_deposited = days * 1_000_000;
    let expected_voting_power = locked_daily_power(amount_deposited, 0.5, days);
    run_test_voting_power(TestVotingPower {
        expected_voting_power,
        amount_deposited,
        curr_day: 0.5,
        kind: LockupKind::daily((MAX_DAYS_LOCKED + 10.0).floor() as u64),
    })
}

struct TestDaysLeft {
    expected_days_left: u64,
    days_total: u64,
    curr_day: f64,
}

struct TestMonthsLeft {
    expected_months_left: u64,
    months_total: u64,
    curr_month: f64,
}

struct TestVotingPower {
    amount_deposited: u64,
    curr_day: f64,
    expected_voting_power: u64,
    kind: LockupKind,
}

fn run_test_days_left(t: TestDaysLeft) -> Result<(), VsrError> {
    let start_ts = 1634929833;
    let curr_ts = start_ts + days_to_secs(t.curr_day);
    let l = Lockup {
        kind: LockupKind::daily(t.days_total),
        start_ts,
    };
    let days_left = l.periods_left(curr_ts)?;
    assert_eq!(days_left, t.expected_days_left);
    Ok(())
}

fn run_test_months_left(t: TestMonthsLeft) -> Result<(), VsrError> {
    let start_ts = 1634929833;
    let curr_ts = start_ts + months_to_secs(t.curr_month);
    let l = Lockup {
        kind: LockupKind::monthly(t.months_total),
        start_ts,
    };
    let months_left = l.periods_left(curr_ts)?;
    assert_eq!(months_left, t.expected_months_left);
    Ok(())
}

fn run_test_voting_power(t: TestVotingPower) -> Result<(), VsrError> {
    let start_ts = 1634929833;
    let mut d = DepositEntry::new_from_lockup(Lockup::new_from_kind(t.kind, start_ts, start_ts)?)?;
    d.deposit(start_ts, t.amount_deposited)?;
    let curr_ts = start_ts + days_to_secs(t.curr_day);
    let power = d.voting_power_locked(curr_ts, t.amount_deposited, MAX_SECS_LOCKED)?;
    assert_eq!(power, t.expected_voting_power);
    Ok(())
}

fn days_to_secs(days: f64) -> i64 {
    let d = (SECS_PER_DAY as f64) * days;
    d.round() as i64
}

fn months_to_secs(months: f64) -> i64 {
    let d = (SECS_PER_MONTH as f64) * months;
    d.round() as i64
}

// Calculates locked voting power. Done iteratively as a sanity check on
// the closed form calcuation.
//
// deposit - the amount locked up
// day - the current day in the lockup period
// total_days - the number of days locked up
fn locked_daily_power(amount: u64, day: f64, total_days: u64) -> u64 {
    if day >= total_days as f64 {
        return 0;
    }
    let days_remaining = total_days - day.floor() as u64;
    let mut total = 0f64;
    for k in 0..days_remaining {
        // We have 'days_remaining' remaining cliff-locked deposits of
        // amount / total_days each.
        let remaining_days = total_days as f64 - day - k as f64;
        total += locked_cliff_power_float(amount / total_days, remaining_days);
    }
    // the test code uses floats to compute the voting power; avoid
    // getting incurrect expected results due to floating point rounding
    (total + 0.0001).floor() as u64
}

fn locked_cliff_power_float(amount: u64, remaining_days: f64) -> f64 {
    let relevant_days = if remaining_days < MAX_DAYS_LOCKED as f64 {
        remaining_days
    } else {
        MAX_DAYS_LOCKED as f64
    };
    (amount as f64) * relevant_days / (MAX_DAYS_LOCKED as f64)
}

// The length of a unit and of a duration.
#[test]
pub fn unit_and_duration_seconds() {
    assert_eq!(SECS_PER_DAY, 86_400);
    assert_eq!(SECS_PER_MONTH, 2_628_000);
    assert_eq!(MAX_LOCKUP_PERIODS, 73_000);
    assert_eq!(MAX_LOCKUP_IN_FUTURE_SECS, 3_153_600_000);
    assert_eq!(LockupTimeUnit::Day.seconds(), 86_400);
    assert_eq!(LockupTimeUnit::Month.seconds(), 2_628_000);
    let d = LockupTimeDuration { periods: 7, unit: LockupTimeUnit::Day };
    assert_eq!(d.seconds(), 604_800);
    let m = LockupTimeDuration { periods: 3, unit: LockupTimeUnit::Month };
    assert_eq!(m.seconds(), 7_884_000);
    let none = LockupTimeDuration { periods: 0, unit: LockupTimeUnit::Month };
    assert_eq!(none.seconds(), 0);
}

#[test]
pub fn kinds_and_their_periods() {
    let daily = LockupKind::daily(5);
    assert!(daily.is_vesting());
    assert_eq!(daily.periods(), 5);
    assert_eq!(daily.period_secs(), 86_400);
    let monthly = LockupKind::monthly(6);
    assert!(monthly.is_vesting());
    assert_eq!(monthly.periods(), 6);
    assert_eq!(monthly.period_secs(), 2_628_000);
    let constant = LockupKind::constant(LockupTimeDuration { periods: 2, unit: LockupTimeUnit::Month });
    assert!(!constant.is_vesting());
    assert_eq!(constant.periods(), 2);
    assert_eq!(constant.period_secs(), 2_628_000);
}

#[test]
pub fn new_from_kind_refuses_a_start_too_far_ahead() {
    let kind = LockupKind::daily(1);
    // The start must lie less than the limit ahead of the current time.
    assert_eq!(
        Lockup::new_from_kind(kind, 1_000, 1_000 + MAX_LOCKUP_IN_FUTURE_SECS),
        Err(VsrError::DepositStartTooFarInFuture)
    );
    assert_eq!(
        Lockup::new_from_kind(kind, 1_000, 1_000 + MAX_LOCKUP_IN_FUTURE_SECS - 1),
        Ok(Lockup { kind, start_ts: 1_000 + MAX_LOCKUP_IN_FUTURE_SECS - 1 })
    );
    // A start in the past is accepted.
    assert_eq!(Lockup::new_from_kind(kind, 1_000, -5), Ok(Lockup { kind, start_ts: -5 }));
    // The far end of the clock does not wrap around.
    assert_eq!(
        Lockup::new_from_kind(kind, i64::MAX, i64::MAX),
        Ok(Lockup { kind, start_ts: i64::MAX })
    );
}

#[test]
pub fn new_from_kind_refuses_too_many_periods() {
    assert!(Lockup::new_from_kind(LockupKind::daily(MAX_LOCKUP_PERIODS), 0, 0).is_ok());
    assert_eq!(
        Lockup::new_from_kind(LockupKind::daily(MAX_LOCKUP_PERIODS + 1), 0, 0),
        Err(VsrError::InvalidLockupPeriod)
    );
    // Too far ahead is reported before too many periods.
    assert_eq!(
        Lockup::new_from_kind(
            LockupKind::monthly(MAX_LOCKUP_PERIODS + 1),
            0,
            MAX_LOCKUP_IN_FUTURE_SECS
        ),
        Err(VsrError::DepositStartTooFarInFuture)
    );
}

#[test]
pub fn new_from_duration_vests_in_the_unit_of_the_duration() {
    let days = LockupTimeDuration { periods: 4, unit: LockupTimeUnit::Day };
    assert_eq!(
        Lockup::new_from_duration(days, 10, 20),
        Ok(Lockup { kind: LockupKind::daily(4), start_ts: 20 })
    );
    let months = LockupTimeDuration { periods: 4, unit: LockupTimeUnit::Month };
    assert_eq!(
        Lockup::new_from_duration(months, 10, 20),
        Ok(Lockup { kind: LockupKind::monthly(4), start_ts: 20 })
    );
    let many = LockupTimeDuration { periods: MAX_LOCKUP_PERIODS + 1, unit: LockupTimeUnit::Day };
    assert_eq!(Lockup::new_from_duration(many, 10, 20), Err(VsrError::InvalidLockupPeriod));
}

#[test]
pub fn end_and_seconds_left() {
    let day = SECS_PER_DAY as i64;
    let vesting = Lockup { kind: LockupKind::daily(3), start_ts: 1_000 };
    assert_eq!(vesting.end_ts(), 1_000 + 3 * day);
    assert!(vesting.is_vesting());
    // Before the start more is left than the lockup is long.
    assert_eq!(vesting.seconds_left(0), (1_000 + 3 * day) as u64);
    assert_eq!(vesting.seconds_left(1_000), (3 * day) as u64);
    assert_eq!(vesting.seconds_left(1_000 + 3 * day - 1), 1);
    assert_eq!(vesting.seconds_left(1_000 + 3 * day), 0);
    assert!(!vesting.expired(1_000 + 3 * day - 1));
    assert!(vesting.expired(1_000 + 3 * day));
    assert!(vesting.expired(1_000 + 30 * day));

    // A constant lockup measures from its own start, whatever the time.
    let constant = Lockup {
        kind: LockupKind::constant(LockupTimeDuration { periods: 3, unit: LockupTimeUnit::Day }),
        start_ts: 1_000,
    };
    assert!(!constant.is_vesting());
    assert_eq!(constant.end_ts(), 1_000 + 3 * day);
    assert_eq!(constant.seconds_left(0), (3 * day) as u64);
    assert_eq!(constant.seconds_left(1_000 + 30 * day), (3 * day) as u64);
    assert!(!constant.expired(1_000 + 30 * day));
    assert_eq!(constant.periods_left(1_000 + 30 * day), Ok(3));
    assert_eq!(constant.period_current(1_000 + 30 * day), Ok(0));
}

#[test]
pub fn default_lockup_is_constant_and_expired() {
    let lockup = Lockup::default();
    assert_eq!(
        lockup,
        Lockup {
            kind: LockupKind::constant(LockupTimeDuration { periods: 0, unit: LockupTimeUnit::Day }),
            start_ts: 0,
        }
    );
    assert_eq!(lockup.end_ts(), 0);
    assert_eq!(lockup.seconds_left(-7), 0);
    assert!(lockup.expired(-7));
    assert_eq!(lockup.periods_total(), 0);
    assert_eq!(lockup.periods_left(5), Ok(0));
}

#[test]
pub fn a_lockup_without_periods() {
    let lockup = Lockup { kind: LockupKind::monthly(0), start_ts: 100 };
    assert_eq!(lockup.end_ts(), 100);
    assert_eq!(lockup.periods_left(50), Ok(0));
    assert_eq!(lockup.period_current(50), Ok(0));
    assert_eq!(lockup.seconds_left(50), 50);
    assert!(!lockup.expired(50));
    assert!(lockup.expired(100));
}

// The periods left never rise as time goes on.
#[test]
pub fn periods_left_only_go_down() {
    let lockup = Lockup { kind: LockupKind::monthly(5), start_ts: 10_000 };
    let mut before = lockup.periods_left(0).unwrap();
    let mut ts: i64 = 0;
    while ts < 10_000 + 6 * SECS_PER_MONTH as i64 {
        let left = lockup.periods_left(ts).unwrap();
        assert!(left <= before);
        assert!(left <= lockup.periods_total());
        assert_eq!(lockup.period_current(ts).unwrap(), lockup.periods_total() - left);
        before = left;
        ts += 100_003;
    }
    assert_eq!(before, 0);
}
