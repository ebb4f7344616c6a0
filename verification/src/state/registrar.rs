use crate::error::VsrError;
use crate::state::lockup::{LockupTimeDuration, SECS_PER_DAY};
use anchor_lang::prelude::Pubkey;
use vstd::prelude::*;

verus! {

/// The unit of the vote weight factors: a factor of `SCALED_FACTOR_BASE` is 1.
pub const SCALED_FACTOR_BASE: u64 = 1_000_000_000;

/// Total amount of staking rewards.
pub const TOTAL_REWARD_AMOUNT: u64 = 770_000_000_000_000;

/// Floor of permanently locked tokens to be met for full rewards.
pub const FULL_REWARD_PERMANENTLY_LOCKED_FLOOR: u64 = 195_000_000_000_000;

/// Seconds in a year of 365 days.
pub const SECS_PER_YEAR: u64 = SECS_PER_DAY * 365;

/// The scale of the fixed-point numbers: `EXP_SCALE` stands for 1.
pub const EXP_SCALE: core::primitive::u128 = 1_000_000_000_000_000_000;

/// The largest value of 128 bits.
pub const RAW_MAX: core::primitive::u128 = 0xffff_ffff_ffff_ffff_ffff_ffff_ffff_ffff;

/// `anchor_lang::prelude::Pubkey`, the address type of the host ledger
/// (`solana_program::pubkey::Pubkey` under the name that the framework
/// gives it). It is declared opaque: the registry stores such values and
/// hands them back, and nothing is claimed of what is inside one.
#[verifier::external_type_specification]
#[verifier::external_body]
pub struct ExPubkey(Pubkey);

/// An unsigned fixed-point number of 128 bits: the field counts units of
/// `1 / EXP_SCALE`. No operation wraps around: each asks that its result
/// is representable.
#[allow(non_camel_case_types)]
#[derive(Clone, Copy, PartialEq, Eq, Debug, Structural)]
pub struct u128(pub core::primitive::u128);

impl u128 {
    /// The whole number `num`.
    pub fn new(num: core::primitive::u128) -> (exp: u128)
        requires
            EXP_SCALE * num <= RAW_MAX,
        ensures
            exp.0 == EXP_SCALE * num,
    {
        u128(EXP_SCALE.checked_mul(num).unwrap())
    }

    /// The fraction `num / denom`, rounded down to the scale.
    pub fn new_with_denom(num: core::primitive::u128, denom: core::primitive::u128) -> (exp: u128)
        requires
            EXP_SCALE * num <= RAW_MAX,
            denom != 0,
        ensures
            exp.0 == (EXP_SCALE * num) / (denom as int),
    {
        u128(EXP_SCALE.checked_mul(num).unwrap().checked_div(denom).unwrap())
    }

    /// The scaled value.
    pub fn as_u128(&self) -> (raw: core::primitive::u128)
        ensures
            raw == self.0,
    {
        self.0
    }

    pub fn add(&self, exp: u128) -> (sum: u128)
        requires
            self.0 + exp.0 <= RAW_MAX,
        ensures
            sum.0 == self.0 + exp.0,
    {
        u128(self.as_u128().checked_add(exp.as_u128()).unwrap())
    }

    pub fn sub(&self, exp: u128) -> (diff: u128)
        requires
            self.0 >= exp.0,
        ensures
            diff.0 == self.0 - exp.0,
    {
        u128(self.as_u128().checked_sub(exp.as_u128()).unwrap())
    }

    pub fn mul_scalar(&self, scalar: core::primitive::u128) -> (product: u128)
        requires
            self.0 * scalar <= RAW_MAX,
        ensures
            product.0 == self.0 * scalar,
    {
        u128(self.as_u128().checked_mul(scalar).unwrap())
    }

    pub fn div_scalar(&self, scalar: core::primitive::u128) -> (quotient: u128)
        requires
            scalar != 0,
        ensures
            quotient.0 == self.0 / scalar,
    {
        u128(self.as_u128().checked_div(scalar).unwrap())
    }

    /// The whole part.
    pub fn truncate(&self) -> (whole: core::primitive::u128)
        ensures
            whole == self.0 / EXP_SCALE,
    {
        self.as_u128().checked_div(EXP_SCALE).unwrap()
    }
}

/// How deposited and locked tokens convert to vote weight.
#[derive(Clone, Copy, PartialEq, Eq, Debug, Structural)]
pub struct VotingConfig {
    /// Vote weight factor for all funds in the account, locked or not,
    /// in units of `1 / SCALED_FACTOR_BASE`.
    pub baseline_vote_weight_scaled_factor: u64,
    /// Maximum extra vote weight factor for lockups, reached by lockups
    /// of `lockup_saturation_secs` or longer, in units of
    /// `1 / SCALED_FACTOR_BASE`.
    pub max_extra_lockup_vote_weight_scaled_factor: u64,
    /// Number of seconds of lockup needed to reach the maximum lockup bonus.
    pub lockup_saturation_secs: u64,
}

impl VotingConfig {
    /// `base` times `factor / SCALED_FACTOR_BASE`, rounded down, unbounded.
    pub open spec fn spec_apply_factor(base: u64, factor: u64) -> int {
        (base * factor) / (SCALED_FACTOR_BASE as int)
    }

    /// What applying a factor returns: the product where it fits 64 bits.
    pub open spec fn spec_checked_factor(base: u64, factor: u64) -> Result<u64, VsrError> {
        if Self::spec_apply_factor(base, factor) <= u64::MAX {
            Ok(Self::spec_apply_factor(base, factor) as u64)
        } else {
            Err(VsrError::VoterWeightOverflow)
        }
    }

    /// A factor never makes a weight negative.
    pub proof fn lemma_apply_factor_nonnegative(base: u64, factor: u64)
        ensures
            Self::spec_apply_factor(base, factor) >= 0,
    {
        assert((base * factor) / (SCALED_FACTOR_BASE as int) >= 0) by (nonlinear_arith)
            requires
                base >= 0,
                factor >= 0,
                SCALED_FACTOR_BASE > 0,
        ;
    }

    /// Applies a factor in `SCALED_FACTOR_BASE` units.
    fn apply_factor(base: u64, factor: u64) -> (res: Result<u64, VsrError>)
        ensures
            res == Self::spec_checked_factor(base, factor),
            res matches Ok(weight) ==> weight == Self::spec_apply_factor(base, factor),
            res is Err <==> Self::spec_apply_factor(base, factor) > u64::MAX,
    {
        assert(base * factor <= RAW_MAX) by (nonlinear_arith)
            requires
                base <= u64::MAX,
                factor <= u64::MAX,
        ;
        let product: core::primitive::u128 = (base as core::primitive::u128) * (
        factor as core::primitive::u128);
        let scaled: core::primitive::u128 = product / (SCALED_FACTOR_BASE as core::primitive::u128);
        if scaled <= u64::MAX as core::primitive::u128 {
            Ok(scaled as u64)
        } else {
            Err(VsrError::VoterWeightOverflow)
        }
    }

    pub open spec fn spec_baseline_vote_weight(self, amount_native: u64) -> Result<u64, VsrError> {
        Self::spec_checked_factor(amount_native, self.baseline_vote_weight_scaled_factor)
    }

    /// The vote weight that a deposit of `amount_native` tokens has, locked
    /// or not.
    pub fn baseline_vote_weight(&self, amount_native: u64) -> (res: Result<u64, VsrError>)
        ensures
            res == self.spec_baseline_vote_weight(amount_native),
            res matches Ok(weight) ==> weight == Self::spec_apply_factor(
                amount_native,
                self.baseline_vote_weight_scaled_factor,
            ),
            res is Err <==> Self::spec_apply_factor(
                amount_native,
                self.baseline_vote_weight_scaled_factor,
            ) > u64::MAX,
    {
        Self::apply_factor(amount_native, self.baseline_vote_weight_scaled_factor)
    }

    pub open spec fn spec_max_extra_lockup_vote_weight(self, amount_native: u64) -> Result<
        u64,
        VsrError,
    > {
        Self::spec_checked_factor(amount_native, self.max_extra_lockup_vote_weight_scaled_factor)
    }

    /// The most extra vote weight that `amount_native` locked tokens can
    /// have: what a lockup of the saturation length or longer gets.
    pub fn max_extra_lockup_vote_weight(&self, amount_native: u64) -> (res: Result<u64, VsrError>)
        ensures
            res == self.spec_max_extra_lockup_vote_weight(amount_native),
            res matches Ok(weight) ==> weight == Self::spec_apply_factor(
                amount_native,
                self.max_extra_lockup_vote_weight_scaled_factor,
            ),
            res is Err <==> Self::spec_apply_factor(
                amount_native,
                self.max_extra_lockup_vote_weight_scaled_factor,
            ) > u64::MAX,
    {
        Self::apply_factor(amount_native, self.max_extra_lockup_vote_weight_scaled_factor)
    }
}

/// The lockups that deposits get.
#[derive(Clone, Copy, PartialEq, Eq, Debug, Structural)]
pub struct DepositConfig {
    /// The minimal lockup duration of an ordinary deposit.
    pub ordinary_deposit_min_lockup_duration: LockupTimeDuration,
    /// The lockup duration of a node deposit.
    pub node_deposit_lockup_duration: LockupTimeDuration,
    /// The amount of a node deposit.
    pub node_security_deposit: u64,
}

/// Instance of a voting rights distributor, with the state of its reward
/// pool.
#[derive(Clone, Copy, PartialEq, Eq, Debug)]
pub struct Registrar {
    pub governance_program_id: Pubkey,
    pub realm: Pubkey,
    pub realm_authority: Pubkey,
    pub governing_token_mint: Pubkey,
    pub voting_config: VotingConfig,
    pub deposit_config: DepositConfig,
    /// The reward amount that is paid out per second at present.
    pub current_reward_amount_per_second: u128,
    /// The last time `current_reward_amount_per_second` was rotated.
    pub last_reward_amount_per_second_rotated_ts: i64,
    /// The timestamp that rewards were last accrued at.
    pub reward_accrual_ts: i64,
    /// Accumulator of the rewards earned by one permanently locked token
    /// since the opening.
    pub reward_index: u128,
    /// Amount of rewards that were issued.
    pub issued_reward_amount: u64,
    /// Total permanently locked amount: what the deposits with a constant
    /// lockup hold.
    pub permanently_locked_amount: u64,
    /// Debug only: time offset, to allow tests to move forward in time.
    pub time_offset: i64,
    pub bump: u8,
    pub max_voter_weight_record_bump: u8,
}

impl Registrar {
    /// The registry's time: the host clock moved by `time_offset`.
    pub fn clock_unix_timestamp(&self, unix_timestamp: i64) -> (curr_ts: i64)
        requires
            i64::MIN <= unix_timestamp + self.time_offset <= i64::MAX,
        ensures
            curr_ts == unix_timestamp + self.time_offset,
    {
        unix_timestamp.checked_add(self.time_offset).unwrap()
    }

    /// The vote weight of the whole supply: baseline plus the most that
    /// lockups can add. Either part, or the sum, may exceed 64 bits.
    pub open spec fn spec_max_vote_weight(self, total_supply: u64) -> Result<u64, VsrError> {
        match (
            self.voting_config.spec_baseline_vote_weight(total_supply),
            self.voting_config.spec_max_extra_lockup_vote_weight(total_supply),
        ) {
            (Ok(baseline), Ok(extra)) => if baseline + extra <= u64::MAX {
                Ok((baseline + extra) as u64)
            } else {
                Err(VsrError::VoterWeightOverflow)
            },
            _ => Err(VsrError::VoterWeightOverflow),
        }
    }

    /// The vote weight that all `total_supply` tokens would have if each
    /// were locked for the saturation length.
    pub fn max_vote_weight(&self, total_supply: u64) -> (res: Result<u64, VsrError>)
        ensures
            res == self.spec_max_vote_weight(total_supply),
            res matches Ok(weight) ==> weight == VotingConfig::spec_apply_factor(
                total_supply,
                self.voting_config.baseline_vote_weight_scaled_factor,
            ) + VotingConfig::spec_apply_factor(
                total_supply,
                self.voting_config.max_extra_lockup_vote_weight_scaled_factor,
            ),
            res is Err <==> VotingConfig::spec_apply_factor(
                total_supply,
                self.voting_config.baseline_vote_weight_scaled_factor,
            ) + VotingConfig::spec_apply_factor(
                total_supply,
                self.voting_config.max_extra_lockup_vote_weight_scaled_factor,
            ) > u64::MAX,
    {
        proof {
            VotingConfig::lemma_apply_factor_nonnegative(
                total_supply,
                self.voting_config.baseline_vote_weight_scaled_factor,
            );
            VotingConfig::lemma_apply_factor_nonnegative(
                total_supply,
                self.voting_config.max_extra_lockup_vote_weight_scaled_factor,
            );
        }
        let baseline: u64 = match self.voting_config.baseline_vote_weight(total_supply) {
            Ok(w) => w,
            Err(e) => {
                return Err(e);
            },
        };
        let extra: u64 = match self.voting_config.max_extra_lockup_vote_weight(total_supply) {
            Ok(w) => w,
            Err(e) => {
                return Err(e);
            },
        };
        match baseline.checked_add(extra) {
            Some(sum) => Ok(sum),
            None => Err(VsrError::VoterWeightOverflow),
        }
    }

    /// The amount that the reward rate is divided by: what is permanently
    /// locked, but no less than the floor.
    pub open spec fn spec_reward_divisor(self) -> int {
        if self.permanently_locked_amount >= FULL_REWARD_PERMANENTLY_LOCKED_FLOOR {
            self.permanently_locked_amount as int
        } else {
            FULL_REWARD_PERMANENTLY_LOCKED_FLOOR as int
        }
    }

    /// By how much the reward index grows from the last accrual to
    /// `curr_ts`: nothing while nothing is locked.
    pub open spec fn spec_reward_index_delta(self, curr_ts: i64) -> int {
        if self.permanently_locked_amount != 0 {
            (self.current_reward_amount_per_second.0 * (curr_ts - self.reward_accrual_ts))
                / self.spec_reward_divisor()
        } else {
            0
        }
    }

    /// The rewards issued from the last accrual to `curr_ts`, in whole
    /// tokens.
    pub open spec fn spec_issued_delta(self, curr_ts: i64) -> int {
        (self.spec_reward_index_delta(curr_ts) * self.permanently_locked_amount) / (
        EXP_SCALE as int)
    }

    /// True when a rotation of the rate is due at `curr_ts`.
    pub open spec fn spec_rotation_due(self, curr_ts: i64) -> bool {
        self.last_reward_amount_per_second_rotated_ts + SECS_PER_YEAR <= curr_ts
    }

    /// The rate after a rotation: 12% of what is not issued yet, spread
    /// over a year.
    pub open spec fn spec_rotated_rate(self) -> int {
        (EXP_SCALE * (((TOTAL_REWARD_AMOUNT - self.issued_reward_amount) * 12) / 100)) / (
        SECS_PER_YEAR as int)
    }

    /// The registrar after the rotation step at `curr_ts`.
    pub open spec fn spec_rotate(self, curr_ts: i64) -> Registrar {
        if self.spec_rotation_due(curr_ts) {
            Registrar {
                current_reward_amount_per_second: u128(
                    self.spec_rotated_rate() as core::primitive::u128,
                ),
                last_reward_amount_per_second_rotated_ts: curr_ts,
                ..self
            }
        } else {
            self
        }
    }

    /// The rotation step can be taken: where a rotation is due, no more
    /// than the total was issued.
    pub open spec fn rotate_pre(self, curr_ts: i64) -> bool {
        self.spec_rotation_due(curr_ts) ==> self.issued_reward_amount <= TOTAL_REWARD_AMOUNT
    }

    /// The registrar after the index and the issued amount were brought
    /// forward to `curr_ts`, before the rotation step.
    pub open spec fn spec_advance(self, curr_ts: i64) -> Registrar {
        Registrar {
            reward_accrual_ts: curr_ts,
            reward_index: u128(
                (self.reward_index.0 + self.spec_reward_index_delta(
                    curr_ts,
                )) as core::primitive::u128,
            ),
            issued_reward_amount: (self.issued_reward_amount + self.spec_issued_delta(
                curr_ts,
            )) as u64,
            ..self
        }
    }

    /// The registrar after `accrue_rewards(curr_ts)`.
    pub open spec fn spec_accrue_rewards(self, curr_ts: i64) -> Registrar {
        if curr_ts == self.reward_accrual_ts {
            self
        } else {
            self.spec_advance(curr_ts).spec_rotate(curr_ts)
        }
    }

    /// Rewards can be accrued at `curr_ts`: time has not run backwards,
    /// and every quantity on the way is representable.
    pub open spec fn accrue_pre(self, curr_ts: i64) -> bool {
        &&& curr_ts >= self.reward_accrual_ts
        &&& curr_ts - self.reward_accrual_ts <= i64::MAX
        &&& curr_ts != self.reward_accrual_ts ==> {
            &&& self.permanently_locked_amount != 0 ==> self.current_reward_amount_per_second.0
                * (curr_ts - self.reward_accrual_ts) <= RAW_MAX
            &&& self.spec_reward_index_delta(curr_ts) * self.permanently_locked_amount
                <= RAW_MAX
            &&& self.spec_issued_delta(curr_ts) <= u64::MAX
            &&& self.reward_index.0 + self.spec_reward_index_delta(curr_ts) <= RAW_MAX
            &&& self.issued_reward_amount + self.spec_issued_delta(curr_ts) <= u64::MAX
            &&& self.spec_advance(curr_ts).rotate_pre(curr_ts)
        }
    }

    /// Brings the reward index and the issued amount forward to `curr_ts`,
    /// then rotates the rate where a rotation is due. At the timestamp of
    /// the last accrual it changes nothing.
    pub fn accrue_rewards(&mut self, curr_ts: i64)
        requires
            old(self).accrue_pre(curr_ts),
        ensures
            *final(self) == old(self).spec_accrue_rewards(curr_ts),
            curr_ts == old(self).reward_accrual_ts ==> *final(self) == *old(self),
            final(self).reward_accrual_ts == curr_ts,
            final(self).reward_index.0 >= old(self).reward_index.0,
            final(self).issued_reward_amount >= old(self).issued_reward_amount,
            final(self).permanently_locked_amount == old(self).permanently_locked_amount,
            curr_ts != old(self).reward_accrual_ts ==> {
                &&& final(self).reward_index.0 == old(self).reward_index.0 + old(self).spec_reward_index_delta(curr_ts)
                &&& final(self).issued_reward_amount == old(self).issued_reward_amount + old(self).spec_issued_delta(curr_ts)
                &&& old(self).spec_rotation_due(curr_ts) ==> {
                    &&& final(self).last_reward_amount_per_second_rotated_ts == curr_ts
                    &&& final(self).current_reward_amount_per_second.0 == final(self).spec_rotated_rate()
                    &&& final(self).issued_reward_amount <= TOTAL_REWARD_AMOUNT
                }
                &&& !old(self).spec_rotation_due(curr_ts) ==> {
                    &&& final(self).last_reward_amount_per_second_rotated_ts == old(self).last_reward_amount_per_second_rotated_ts
                    &&& final(self).current_reward_amount_per_second == old(self).current_reward_amount_per_second
                }
            },
            old(self).spec_reward_index_delta(curr_ts) >= 0,
            old(self).spec_issued_delta(curr_ts) >= 0,
    {
        proof {
            old(self).lemma_deltas_nonnegative(curr_ts);
        }
        let seconds_delta: u64 = u64::try_from(
            curr_ts.checked_sub(self.reward_accrual_ts).unwrap(),
        ).unwrap();
        if seconds_delta == 0 {
            return ;
        }
        proof {
            old(self).lemma_deltas_nonnegative(curr_ts);
        }
        let reward_index_delta: u128 = if self.permanently_locked_amount != 0 {
            let divisor: u64 = if self.permanently_locked_amount
                >= FULL_REWARD_PERMANENTLY_LOCKED_FLOOR {
                self.permanently_locked_amount
            } else {
                FULL_REWARD_PERMANENTLY_LOCKED_FLOOR
            };
            self.current_reward_amount_per_second.mul_scalar(
                seconds_delta as core::primitive::u128,
            ).div_scalar(divisor as core::primitive::u128)
        } else {
            u128::new(0)
        };
        let issued_reward_amount_delta: u64 = u64::try_from(
            reward_index_delta.mul_scalar(
                self.permanently_locked_amount as core::primitive::u128,
            ).truncate(),
        ).unwrap();

        self.reward_accrual_ts = curr_ts;
        self.reward_index = self.reward_index.add(reward_index_delta);
        self.issued_reward_amount = self.issued_reward_amount.checked_add(
            issued_reward_amount_delta,
        ).unwrap();

        self.rotate_reward_amount_per_second_if_needed(curr_ts);
    }

    /// Once a year has passed since the last rotation, sets the rate to
    /// 12% a year of what is left of the reward pool.
    fn rotate_reward_amount_per_second_if_needed(&mut self, curr_ts: i64)
        requires
            old(self).rotate_pre(curr_ts),
        ensures
            *final(self) == old(self).spec_rotate(curr_ts),
    {
        let due_ts: i128 = self.last_reward_amount_per_second_rotated_ts as i128 + SECS_PER_YEAR as i128;
        if due_ts <= curr_ts as i128 {
            let current_annual_reward_amount: u64 = TOTAL_REWARD_AMOUNT.checked_sub(
                self.issued_reward_amount,
            ).unwrap().checked_mul(12).unwrap().checked_div(100).unwrap();
            assert(EXP_SCALE * current_annual_reward_amount <= RAW_MAX) by (nonlinear_arith)
                requires
                    current_annual_reward_amount <= 92_400_000_000_000,
                    EXP_SCALE == 1_000_000_000_000_000_000,
                    RAW_MAX == 0xffff_ffff_ffff_ffff_ffff_ffff_ffff_ffff,
            ;
            self.current_reward_amount_per_second = u128::new_with_denom(
                current_annual_reward_amount as core::primitive::u128,
                SECS_PER_YEAR as core::primitive::u128,
            );
            self.last_reward_amount_per_second_rotated_ts = curr_ts;
        }
    }

    /// Accruing twice at the same time is accruing once: after an accrual
    /// at `curr_ts`, another one at `curr_ts` can be made and changes
    /// nothing.
    pub proof fn lemma_accrue_rewards_idempotent(self, curr_ts: i64)
        requires
            self.accrue_pre(curr_ts),
        ensures
            self.spec_accrue_rewards(curr_ts).accrue_pre(curr_ts),
            self.spec_accrue_rewards(curr_ts).spec_accrue_rewards(curr_ts)
                == self.spec_accrue_rewards(curr_ts),
    {
    }

    /// An accrual never lowers the reward index or the issued amount, and
    /// leaves the permanently locked amount alone.
    pub proof fn lemma_accrue_rewards_monotone(self, curr_ts: i64)
        requires
            self.accrue_pre(curr_ts),
        ensures
            self.spec_accrue_rewards(curr_ts).reward_index.0 >= self.reward_index.0,
            self.spec_accrue_rewards(curr_ts).issued_reward_amount >= self.issued_reward_amount,
            self.spec_accrue_rewards(curr_ts).reward_accrual_ts == curr_ts,
            self.spec_accrue_rewards(curr_ts).permanently_locked_amount
                == self.permanently_locked_amount,
    {
        self.lemma_deltas_nonnegative(curr_ts);
    }

    /// The registrar after one accrual at each of `times`, in their order.
    pub open spec fn spec_accrue_all(self, times: Seq<i64>) -> Registrar
        decreases times.len(),
    {
        if times.len() == 0 {
            self
        } else {
            self.spec_accrue_all(times.drop_last()).spec_accrue_rewards(times.last())
        }
    }

    /// Each of the accruals at `times` can be made in its turn; so the
    /// times do not decrease, and none lies before the last accrual.
    pub open spec fn accrue_all_pre(self, times: Seq<i64>) -> bool
        decreases times.len(),
    {
        times.len() == 0 || (self.accrue_all_pre(times.drop_last()) && self.spec_accrue_all(
            times.drop_last(),
        ).accrue_pre(times.last()))
    }

    /// Over any sequence of accruals the reward index and the issued
    /// amount never decrease.
    pub proof fn lemma_accrue_all_monotone(self, times: Seq<i64>)
        requires
            self.accrue_all_pre(times),
        ensures
            self.spec_accrue_all(times).reward_index.0 >= self.reward_index.0,
            self.spec_accrue_all(times).issued_reward_amount >= self.issued_reward_amount,
            self.spec_accrue_all(times).permanently_locked_amount
                == self.permanently_locked_amount,
        decreases times.len(),
    {
        if times.len() > 0 {
            self.lemma_accrue_all_monotone(times.drop_last());
            self.spec_accrue_all(times.drop_last()).lemma_accrue_rewards_monotone(times.last());
        }
    }

    /// What holds at the end of a sequence of accruals holds after each
    /// of its steps: the values after any number of them are no lower
    /// than after fewer.
    pub proof fn lemma_accrue_all_monotone_between(self, times: Seq<i64>, fewer: int, more: int)
        requires
            self.accrue_all_pre(times),
            0 <= fewer <= more <= times.len(),
        ensures
            self.accrue_all_pre(times.take(more)),
            self.accrue_all_pre(times.take(fewer)),
            self.spec_accrue_all(times.take(more)).reward_index.0 >= self.spec_accrue_all(
                times.take(fewer),
            ).reward_index.0,
            self.spec_accrue_all(times.take(more)).issued_reward_amount >= self.spec_accrue_all(
                times.take(fewer),
            ).issued_reward_amount,
        decreases times.len() - fewer, times.len() - more,
    {
        if more < times.len() {
            // Shorten the sequence from the end until it ends at `more`.
            assert(times.drop_last().take(more) =~= times.take(more));
            assert(times.drop_last().take(fewer) =~= times.take(fewer));
            self.lemma_accrue_all_monotone_between(times.drop_last(), fewer, more);
        } else {
            assert(times.take(more) =~= times);
            if fewer < more {
                assert(times.drop_last().take(fewer) =~= times.take(fewer));
                let shorter = times.drop_last();
                self.lemma_accrue_all_monotone_between(shorter, fewer, more - 1);
                assert(shorter.take(more - 1) =~= shorter);
                self.spec_accrue_all(shorter).lemma_accrue_rewards_monotone(times.last());
            }
        }
    }

    /// Neither the index nor the issued amount can shrink when time moves
    /// on.
    pub proof fn lemma_deltas_nonnegative(self, curr_ts: i64)
        requires
            curr_ts >= self.reward_accrual_ts,
        ensures
            self.spec_reward_index_delta(curr_ts) >= 0,
            self.spec_issued_delta(curr_ts) >= 0,
    {
        let rate = self.current_reward_amount_per_second.0 as int;
        let dt = curr_ts - self.reward_accrual_ts;
        let divisor = self.spec_reward_divisor();
        let locked = self.permanently_locked_amount as int;
        assert((rate * dt) / divisor >= 0) by (nonlinear_arith)
            requires
                rate >= 0,
                dt >= 0,
                divisor > 0,
        ;
        let delta = self.spec_reward_index_delta(curr_ts);
        assert((delta * locked) / (EXP_SCALE as int) >= 0) by (nonlinear_arith)
            requires
                delta >= 0,
                locked >= 0,
                EXP_SCALE > 0,
        ;
    }
}

} // verus!
