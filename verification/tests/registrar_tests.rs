use anchor_lang::prelude::Pubkey;
use voter_stake_registry::{
    u128, DepositConfig, LockupTimeDuration, LockupTimeUnit, Registrar, VotingConfig, VsrError,
    EXP_SCALE, FULL_REWARD_PERMANENTLY_LOCKED_FLOOR, SCALED_FACTOR_BASE, SECS_PER_DAY,
    SECS_PER_YEAR, TOTAL_REWARD_AMOUNT,
};

// The host's own constants for the length of a day and of a year.
const SECONDS_PER_DAY: u64 = 24 * 60 * 60;
const SECONDS_PER_YEAR: f64 = 365.242_199 * 24.0 * 60.0 * 60.0;

fn new_registrar_data() -> Registrar {
    Registrar {
        governance_program_id: Pubkey::new_unique(),
        realm: Pubkey::new_unique(),
        realm_authority: Pubkey::new_unique(),
        governing_token_mint: Pubkey::new_unique(),
        voting_config: VotingConfig {
            baseline_vote_weight_scaled_factor: 1,
            max_extra_lockup_vote_weight_scaled_factor: 1,
            lockup_saturation_secs: 1,
        },
        deposit_config: DepositConfig {
            ordinary_deposit_min_lockup_duration: LockupTimeDuration {
                periods: 1,
                unit: LockupTimeUnit::Day,
            },
            node_deposit_lockup_duration: LockupTimeDuration {
                periods: 1,
                unit: LockupTimeUnit::Month,
            },
            node_security_deposit: 1,
        },
        current_reward_amount_per_second: u128::new(0),
        last_reward_amount_per_second_rotated_ts: 0,
        reward_index: u128::new(0),
        reward_accrual_ts: 0,
        issued_reward_amount: 0,
        permanently_locked_amount: 0,
        time_offset: 0,
        bump: 0,
        max_voter_weight_record_bump: 0,
    }
}

#[test]
fn accrue_rewards_initialize_test() -> Result<(), VsrError> {
    let mut registrar = new_registrar_data();

    let curr_ts = (SECS_PER_YEAR * 10) as i64;
    registrar.accrue_rewards(curr_ts);

    assert_eq!(
        (TOTAL_REWARD_AMOUNT as core::primitive::u128) * EXP_SCALE * 12
            / 100
            / (SECS_PER_YEAR as core::primitive::u128),
        registrar.current_reward_amount_per_second.as_u128()
    );
    assert_eq!(curr_ts, registrar.last_reward_amount_per_second_rotated_ts);
    assert_eq!(0, registrar.reward_index.as_u128());
    assert_eq!(curr_ts, registrar.reward_accrual_ts);
    assert_eq!(0, registrar.issued_reward_amount);
    assert_eq!(0, registrar.permanently_locked_amount);

    Ok(())
}

#[test]
fn registrar_accrue_rewards_test() -> Result<(), VsrError> {
    let mut registrar = new_registrar_data();

    let curr_ts = (SECS_PER_YEAR * 10) as i64;
    registrar.accrue_rewards(curr_ts);

    // curr_ts == registrar.reward_accrual_ts
    registrar.accrue_rewards(curr_ts);

    assert_eq!(0, registrar.reward_index.as_u128());
    assert_eq!(curr_ts, registrar.reward_accrual_ts);
    assert_eq!(0, registrar.issued_reward_amount);
    assert_eq!(0, registrar.permanently_locked_amount);

    // permanently_locked_amount == 0
    let curr_ts = curr_ts + SECS_PER_DAY as i64;
    registrar.accrue_rewards(curr_ts);

    assert_eq!(0, registrar.reward_index.as_u128());
    assert_eq!(curr_ts, registrar.reward_accrual_ts);
    assert_eq!(0, registrar.issued_reward_amount);
    assert_eq!(0, registrar.permanently_locked_amount);

    // 0 < permanently_locked_amount < FULL_REWARD_PERMANENTLY_LOCKED_FLOOR
    let curr_ts = curr_ts + SECS_PER_DAY as i64;
    registrar.permanently_locked_amount = FULL_REWARD_PERMANENTLY_LOCKED_FLOOR / 2;
    registrar.accrue_rewards(curr_ts);

    let reward_index_delta = registrar
        .current_reward_amount_per_second
        .mul_scalar(SECS_PER_DAY as core::primitive::u128)
        .div_scalar(FULL_REWARD_PERMANENTLY_LOCKED_FLOOR as core::primitive::u128);
    assert_eq!(reward_index_delta.as_u128(), registrar.reward_index.as_u128());
    assert_eq!(curr_ts, registrar.reward_accrual_ts);
    assert_eq!(
        reward_index_delta
            .mul_scalar(registrar.permanently_locked_amount as core::primitive::u128)
            .truncate() as u64,
        registrar.issued_reward_amount
    );

    // permanently_locked_amount > FULL_REWARD_PERMANENTLY_LOCKED_FLOOR
    let curr_ts = curr_ts + SECS_PER_DAY as i64;
    let registrar_cloned = registrar.clone();
    registrar.permanently_locked_amount = FULL_REWARD_PERMANENTLY_LOCKED_FLOOR * 2;
    registrar.accrue_rewards(curr_ts);

    let reward_index_delta = registrar
        .current_reward_amount_per_second
        .mul_scalar(SECS_PER_DAY as core::primitive::u128)
        .div_scalar(registrar.permanently_locked_amount as core::primitive::u128);
    assert_eq!(
        registrar_cloned.reward_index.add(reward_index_delta).as_u128(),
        registrar.reward_index.as_u128()
    );
    assert_eq!(curr_ts, registrar.reward_accrual_ts);
    assert_eq!(
        registrar_cloned.issued_reward_amount
            + reward_index_delta
                .mul_scalar(registrar.permanently_locked_amount as core::primitive::u128)
                .truncate() as u64,
        registrar.issued_reward_amount
    );

    Ok(())
}

#[test]
fn accrue_rewards_rotation_test() -> Result<(), VsrError> {
    let mut registrar = new_registrar_data();

    // initialize
    let mut curr_ts = SECONDS_PER_YEAR as i64;
    registrar.accrue_rewards(curr_ts);
    assert_eq!(
        ((TOTAL_REWARD_AMOUNT) as core::primitive::u128) * EXP_SCALE * 12
            / 100
            / (SECS_PER_YEAR as core::primitive::u128),
        registrar.current_reward_amount_per_second.as_u128()
    );
    assert_eq!(curr_ts, registrar.reward_accrual_ts);

    // update issued reward amount
    registrar.issued_reward_amount += TOTAL_REWARD_AMOUNT / 10;

    // forward 364 days
    curr_ts += (364 * SECONDS_PER_DAY) as i64;
    registrar.accrue_rewards(curr_ts);
    assert_eq!(
        (TOTAL_REWARD_AMOUNT as core::primitive::u128) * EXP_SCALE * 12
            / 100
            / (SECS_PER_YEAR as core::primitive::u128),
        registrar.current_reward_amount_per_second.as_u128()
    );
    assert_eq!(curr_ts, registrar.reward_accrual_ts);

    // forward 1 day more
    curr_ts += (1 * SECONDS_PER_DAY) as i64;
    registrar.accrue_rewards(curr_ts);

    assert_eq!(
        ((TOTAL_REWARD_AMOUNT - registrar.issued_reward_amount) as core::primitive::u128)
            * EXP_SCALE
            * 12
            / 100
            / (SECS_PER_YEAR as core::primitive::u128),
        registrar.current_reward_amount_per_second.as_u128()
    );

    // set issued reward amount
    registrar.issued_reward_amount += TOTAL_REWARD_AMOUNT / 10;

    // forward 1 year
    curr_ts += SECONDS_PER_YEAR as i64;
    registrar.accrue_rewards(curr_ts);

    assert_eq!(
        ((TOTAL_REWARD_AMOUNT - registrar.issued_reward_amount) as core::primitive::u128)
            * EXP_SCALE
            * 12
            / 100
            / (SECS_PER_YEAR as core::primitive::u128),
        registrar.current_reward_amount_per_second.as_u128()
    );

    Ok(())
}

#[test]
fn constants_of_the_reward_pool() {
    assert_eq!(SCALED_FACTOR_BASE, 1_000_000_000);
    assert_eq!(TOTAL_REWARD_AMOUNT, 770_000_000_000_000);
    assert_eq!(FULL_REWARD_PERMANENTLY_LOCKED_FLOOR, 195_000_000_000_000);
    assert_eq!(SECS_PER_YEAR, 31_536_000);
    assert_eq!(EXP_SCALE, 1_000_000_000_000_000_000);
}

#[test]
fn fixed_point_arithmetic() {
    assert_eq!(u128::new(0).as_u128(), 0);
    assert_eq!(u128::new(3).as_u128(), 3_000_000_000_000_000_000);
    assert_eq!(u128::new_with_denom(1, 10).as_u128(), 100_000_000_000_000_000);
    assert_eq!(u128::new_with_denom(1, 3).as_u128(), 333_333_333_333_333_333);
    assert_eq!(u128::new_with_denom(7, 2).truncate(), 3);
    let half = u128::new_with_denom(1, 2);
    let third = u128::new_with_denom(1, 3);
    assert_eq!(half.add(third).as_u128(), 833_333_333_333_333_333);
    assert_eq!(half.sub(third).as_u128(), 166_666_666_666_666_667);
    assert_eq!(half.sub(half).as_u128(), 0);
    assert_eq!(third.mul_scalar(3).as_u128(), 999_999_999_999_999_999);
    assert_eq!(third.mul_scalar(3).truncate(), 0);
    assert_eq!(half.mul_scalar(5).truncate(), 2);
    assert_eq!(u128::new(10).div_scalar(4).as_u128(), 2_500_000_000_000_000_000);
    assert_eq!(u128::new(10).div_scalar(3).truncate(), 3);
    // The largest whole number that can be held.
    assert_eq!(
        u128::new(340_282_366_920_938_463_463).truncate(),
        340_282_366_920_938_463_463
    );
}

#[test]
fn factors_are_applied_and_rounded_down() {
    let config = VotingConfig {
        baseline_vote_weight_scaled_factor: 1_500_000_000,
        max_extra_lockup_vote_weight_scaled_factor: 333_333_333,
        lockup_saturation_secs: 10,
    };
    assert_eq!(config.baseline_vote_weight(1_000), Ok(1_500));
    assert_eq!(config.baseline_vote_weight(1), Ok(1));
    assert_eq!(config.baseline_vote_weight(0), Ok(0));
    assert_eq!(config.max_extra_lockup_vote_weight(1_000), Ok(333));
    assert_eq!(config.max_extra_lockup_vote_weight(3), Ok(0));
    assert_eq!(config.baseline_vote_weight(u64::MAX), Err(VsrError::VoterWeightOverflow));
    assert_eq!(
        config.baseline_vote_weight(12_297_829_382_473_034_410),
        Ok(18_446_744_073_709_551_615)
    );
    assert_eq!(
        config.baseline_vote_weight(12_297_829_382_473_034_411),
        Err(VsrError::VoterWeightOverflow)
    );
}

#[test]
fn max_vote_weight_of_the_supply() {
    let mut registrar = new_registrar_data();
    registrar.voting_config = VotingConfig {
        baseline_vote_weight_scaled_factor: 1_000_000_000,
        max_extra_lockup_vote_weight_scaled_factor: 2_000_000_000,
        lockup_saturation_secs: 10,
    };
    assert_eq!(registrar.max_vote_weight(1_000), Ok(3_000));
    assert_eq!(registrar.max_vote_weight(0), Ok(0));
    // A third of the range fits, one more does not.
    assert_eq!(
        registrar.max_vote_weight(6_148_914_691_236_517_205),
        Ok(18_446_744_073_709_551_615)
    );
    assert_eq!(
        registrar.max_vote_weight(6_148_914_691_236_517_206),
        Err(VsrError::VoterWeightOverflow)
    );
    assert_eq!(registrar.max_vote_weight(u64::MAX), Err(VsrError::VoterWeightOverflow));
}

#[test]
fn the_clock_is_moved_by_the_offset() {
    let mut registrar = new_registrar_data();
    assert_eq!(registrar.clock_unix_timestamp(1_700_000_000), 1_700_000_000);
    registrar.time_offset = 86_400;
    assert_eq!(registrar.clock_unix_timestamp(1_700_000_000), 1_700_086_400);
    registrar.time_offset = -100;
    assert_eq!(registrar.clock_unix_timestamp(50), -50);
}

// Accruing twice at the same time changes nothing the second time.
#[test]
fn accrual_is_idempotent() {
    let mut registrar = new_registrar_data();
    registrar.permanently_locked_amount = 1_000_000_000_000;
    registrar.accrue_rewards(SECS_PER_YEAR as i64);
    registrar.accrue_rewards(SECS_PER_YEAR as i64 + 1_000);
    assert!(registrar.reward_index.as_u128() > 0);
    let once = registrar;
    registrar.accrue_rewards(SECS_PER_YEAR as i64 + 1_000);
    assert_eq!(registrar, once);
    registrar.accrue_rewards(SECS_PER_YEAR as i64 + 1_000);
    assert_eq!(registrar, once);
}

// The index and the issued amount never go down.
#[test]
fn accrual_is_monotone() {
    let mut registrar = new_registrar_data();
    registrar.permanently_locked_amount = 3 * FULL_REWARD_PERMANENTLY_LOCKED_FLOOR;
    let mut ts = SECS_PER_YEAR as i64;
    registrar.accrue_rewards(ts);
    for step in [0i64, 1, 59, 3_600, 0, 86_400, 31_536_000, 7, 0, 40_000_000] {
        let index = registrar.reward_index.as_u128();
        let issued = registrar.issued_reward_amount;
        ts += step;
        registrar.accrue_rewards(ts);
        assert!(registrar.reward_index.as_u128() >= index);
        assert!(registrar.issued_reward_amount >= issued);
        assert_eq!(registrar.reward_accrual_ts, ts);
        assert_eq!(registrar.permanently_locked_amount, 3 * FULL_REWARD_PERMANENTLY_LOCKED_FLOOR);
        if step > 0 {
            assert!(registrar.reward_index.as_u128() > index);
        }
    }
    assert!(registrar.issued_reward_amount <= TOTAL_REWARD_AMOUNT);
}

// Below the floor the rate is spread over the floor, not over what is locked.
#[test]
fn the_floor_divides_the_rate() {
    let mut registrar = new_registrar_data();
    registrar.permanently_locked_amount = FULL_REWARD_PERMANENTLY_LOCKED_FLOOR / 2;
    registrar.accrue_rewards(SECS_PER_YEAR as i64);
    let rate: core::primitive::u128 = 770_000_000_000_000 * 12 / 100 * EXP_SCALE / 31_536_000;
    assert_eq!(registrar.current_reward_amount_per_second.as_u128(), rate);
    assert_eq!(rate, 2_929_984_779_299_847_792_998_477);
    // Nothing was earned while the rate was zero.
    assert_eq!(registrar.reward_index.as_u128(), 0);
    registrar.accrue_rewards(SECS_PER_YEAR as i64 + 86_400);
    let delta = rate * 86_400 / 195_000_000_000_000;
    assert_eq!(registrar.reward_index.as_u128(), delta);
    assert_eq!(delta, 1_298_208_640_674_394);
    // Half of the floor is locked, so half of a day's rewards are issued.
    assert_eq!(
        registrar.issued_reward_amount as core::primitive::u128,
        delta * 97_500_000_000_000 / EXP_SCALE
    );
    assert_eq!(registrar.issued_reward_amount, 126_575_342_465);
}

#[test]
fn the_rate_decays_with_what_was_issued() {
    let mut registrar = new_registrar_data();
    registrar.accrue_rewards(SECS_PER_YEAR as i64);
    let first = registrar.current_reward_amount_per_second.as_u128();
    registrar.issued_reward_amount = TOTAL_REWARD_AMOUNT / 2;
    // One second short of a year nothing changes.
    registrar.accrue_rewards(2 * SECS_PER_YEAR as i64 - 1);
    assert_eq!(registrar.current_reward_amount_per_second.as_u128(), first);
    assert_eq!(registrar.last_reward_amount_per_second_rotated_ts, SECS_PER_YEAR as i64);
    registrar.accrue_rewards(2 * SECS_PER_YEAR as i64);
    assert_eq!(registrar.current_reward_amount_per_second.as_u128(), first / 2);
    assert_eq!(registrar.last_reward_amount_per_second_rotated_ts, 2 * SECS_PER_YEAR as i64);
    // When all is issued, the rate is zero.
    registrar.issued_reward_amount = TOTAL_REWARD_AMOUNT;
    registrar.accrue_rewards(3 * SECS_PER_YEAR as i64);
    assert_eq!(registrar.current_reward_amount_per_second.as_u128(), 0);
}
