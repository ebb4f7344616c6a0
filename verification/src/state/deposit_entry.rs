use crate::error::VsrError;
use crate::state::cliffs::{
    cliff_seconds_sum, closed_form_seconds, lemma_cliff_sum_bounds, lemma_cliff_sum_saturated,
    lemma_closed_form_is_cliff_sum, lemma_saturation_threshold, min_of, unsaturated_cliffs,
};
use crate::state::lockup::{Lockup, MAX_LOCKUP_PERIODS};
use crate::state::registrar::{VotingConfig, RAW_MAX};
use vstd::prelude::*;

verus! {

/// Bookkeeping for a single deposit with its lockup schedule.
#[derive(Clone, Copy, PartialEq, Eq, Debug, Structural)]
pub struct DepositEntry {
    /// The schedule by which the deposit unlocks.
    pub lockup: Lockup,
    /// Amount in the deposit. Withdrawals of vested tokens reduce it, and
    /// never more than this amount can be withdrawn.
    pub amount_deposited_native: u64,
    /// Amount that was locked when the lockup began. Withdrawals do not
    /// change it: it is what the vesting steps are computed from, so after
    /// some vesting and withdrawals it can exceed the amount deposited.
    pub amount_initially_locked_native: u64,
    /// True while the entry is in use.
    pub is_active: bool,
}

impl Default for DepositEntry {
    /// The unused entry.
    fn default() -> (entry: DepositEntry)
        ensures
            entry == DepositEntry::spec_default(),
    {
        DepositEntry {
            lockup: Lockup::default(),
            amount_deposited_native: 0,
            amount_initially_locked_native: 0,
            is_active: false,
        }
    }
}

impl DepositEntry {
    /// The unused entry: inactive, empty, with the default lockup.
    pub open spec fn spec_default() -> DepositEntry {
        DepositEntry {
            lockup: Lockup::spec_default(),
            amount_deposited_native: 0,
            amount_initially_locked_native: 0,
            is_active: false,
        }
    }

    /// A fresh active entry with the given lockup and nothing in it.
    pub open spec fn spec_new_from_lockup(lockup: Lockup) -> DepositEntry {
        DepositEntry {
            lockup,
            amount_deposited_native: 0,
            amount_initially_locked_native: 0,
            is_active: true,
        }
    }

    pub fn new_from_lockup(lockup: Lockup) -> (res: Result<DepositEntry, VsrError>)
        ensures
            res == Ok::<DepositEntry, VsrError>(Self::spec_new_from_lockup(lockup)),
    {
        Ok(
            DepositEntry {
                lockup,
                amount_deposited_native: 0,
                amount_initially_locked_native: 0,
                is_active: true,
            },
        )
    }

    pub fn get_lockup(&self) -> (lockup: Lockup)
        ensures
            lockup == self.lockup,
    {
        self.lockup
    }

    pub fn get_amount_deposited_native(&self) -> (amount: u64)
        ensures
            amount == self.amount_deposited_native,
    {
        self.amount_deposited_native
    }

    pub fn get_amount_initially_locked_native(&self) -> (amount: u64)
        ensures
            amount == self.amount_initially_locked_native,
    {
        self.amount_initially_locked_native
    }

    pub fn is_active(&self) -> (active: bool)
        ensures
            active == self.is_active,
    {
        self.is_active
    }

    /// What a query returns: the value on an active entry, an error on an
    /// unused one.
    pub open spec fn when_active(self, value: int) -> Result<u64, VsrError> {
        if self.is_active {
            Ok(value as u64)
        } else {
            Err(VsrError::InternalProgramError)
        }
    }

    /// The share that has vested by the period count alone: nothing in
    /// period 0, everything from the last period on, in between the
    /// locked amount times the part of the periods that have passed,
    /// rounded down.
    pub open spec fn spec_vested_linearly(self, curr_ts: i64) -> int {
        let current = self.lockup.spec_period_current(curr_ts);
        let total = self.lockup.spec_periods_total();
        if current == 0 {
            0
        } else if current >= total {
            self.amount_initially_locked_native as int
        } else {
            (self.amount_initially_locked_native * current) / total
        }
    }

    /// The amount that has vested at `curr_ts`: everything once the lockup
    /// has expired; before that a vesting lockup releases by periods and a
    /// constant lockup nothing.
    pub open spec fn spec_vested(self, curr_ts: i64) -> int {
        if self.lockup.spec_expired(curr_ts) {
            self.amount_initially_locked_native as int
        } else if self.lockup.spec_is_vesting() {
            self.spec_vested_linearly(curr_ts)
        } else {
            0
        }
    }

    /// The amount that is still locked at `curr_ts`.
    pub open spec fn spec_amount_locked(self, curr_ts: i64) -> int {
        self.amount_initially_locked_native - self.spec_vested(curr_ts)
    }

    /// The amount that can be withdrawn at `curr_ts`: what is deposited
    /// and no longer locked.
    pub open spec fn spec_amount_unlocked(self, curr_ts: i64) -> int {
        self.amount_deposited_native - self.spec_amount_locked(curr_ts)
    }

    /// An active entry holds at least what is still locked at `curr_ts`.
    /// Deposits and withdrawals at `curr_ts` keep this, and so does the
    /// passing of time.
    pub open spec fn inv_at(self, curr_ts: i64) -> bool {
        self.is_active ==> {
            &&& self.lockup.inv()
            &&& self.spec_amount_locked(curr_ts) <= self.amount_deposited_native
        }
    }

    /// The lockup of an entry in use has a representable end.
    pub open spec fn lockup_inv(self) -> bool {
        self.is_active ==> self.lockup.inv()
    }

    /// Never more vests than was locked.
    pub proof fn lemma_vested_bounds(self, curr_ts: i64)
        ensures
            0 <= self.spec_vested_linearly(curr_ts) <= self.amount_initially_locked_native,
            0 <= self.spec_vested(curr_ts) <= self.amount_initially_locked_native,
            0 <= self.spec_amount_locked(curr_ts) <= self.amount_initially_locked_native,
    {
        let current = self.lockup.spec_period_current(curr_ts);
        let total = self.lockup.spec_periods_total();
        let a = self.amount_initially_locked_native as int;
        self.lockup.lemma_periods_left_bounds(curr_ts);
        if 0 < current < total {
            assert(0 <= (a * current) / total <= a) by (nonlinear_arith)
                requires
                    0 < current < total,
                    a >= 0,
            ;
        }
    }

    /// What has vested stays vested as time goes on.
    pub proof fn lemma_vested_monotone(self, earlier: i64, later: i64)
        requires
            earlier <= later,
        ensures
            self.spec_vested(earlier) <= self.spec_vested(later),
            self.spec_amount_locked(later) <= self.spec_amount_locked(earlier),
            self.spec_amount_unlocked(earlier) <= self.spec_amount_unlocked(later),
    {
        let a = self.amount_initially_locked_native as int;
        let total = self.lockup.spec_periods_total();
        let c1 = self.lockup.spec_period_current(earlier);
        let c2 = self.lockup.spec_period_current(later);
        self.lemma_vested_bounds(earlier);
        self.lemma_vested_bounds(later);
        self.lockup.lemma_periods_left_monotone(earlier, later);
        self.lockup.lemma_periods_left_bounds(earlier);
        self.lockup.lemma_periods_left_bounds(later);
        if !self.lockup.spec_expired(later) && self.lockup.spec_is_vesting() {
            assert(!self.lockup.spec_expired(earlier));
            if 0 < c1 && c2 < total {
                assert((a * c1) / total <= (a * c2) / total) by (nonlinear_arith)
                    requires
                        0 < c1 <= c2,
                        c2 < total,
                        a >= 0,
                ;
            }
        }
    }

    /// A fresh entry holds what is locked in it, which is nothing.
    pub proof fn lemma_new_entry_inv(lockup: Lockup, curr_ts: i64)
        requires
            lockup.inv(),
        ensures
            Self::spec_new_from_lockup(lockup).inv_at(curr_ts),
            Self::spec_default().inv_at(curr_ts),
    {
        Self::spec_new_from_lockup(lockup).lemma_vested_bounds(curr_ts);
    }

    /// An entry that holds what is locked now holds what is locked later.
    pub proof fn lemma_inv_at_later(self, earlier: i64, later: i64)
        requires
            earlier <= later,
            self.inv_at(earlier),
        ensures
            self.inv_at(later),
    {
        self.lemma_vested_monotone(earlier, later);
    }

    fn vested_linearly(&self, curr_ts: i64) -> (res: Result<u64, VsrError>)
        requires
            self.lockup.inv(),
        ensures
            res == Ok::<u64, VsrError>(self.spec_vested_linearly(curr_ts) as u64),
    {
        proof {
            self.lemma_vested_bounds(curr_ts);
        }
        let period_current: u64 = match self.lockup.period_current(curr_ts) {
            Ok(n) => n,
            Err(e) => {
                return Err(e);
            },
        };
        let periods_total: u64 = self.lockup.periods_total();
        if period_current == 0 {
            return Ok(0);
        }
        if period_current >= periods_total {
            return Ok(self.amount_initially_locked_native);
        }
        assert(self.amount_initially_locked_native * period_current <= RAW_MAX)
            by (nonlinear_arith)
            requires
                self.amount_initially_locked_native <= u64::MAX,
                period_current <= u64::MAX,
        ;
        let vested: u128 = (self.amount_initially_locked_native as u128 * period_current as u128)
            / periods_total as u128;
        Ok(vested as u64)
    }

    /// The amount of this deposit that has vested.
    pub fn vested(&self, curr_ts: i64) -> (res: Result<u64, VsrError>)
        requires
            self.lockup_inv(),
        ensures
            res == self.when_active(self.spec_vested(curr_ts)),
            0 <= self.spec_vested(curr_ts) <= self.amount_initially_locked_native,
    {
        proof {
            self.lemma_vested_bounds(curr_ts);
        }
        if !self.is_active {
            return Err(VsrError::InternalProgramError);
        }
        if self.lockup.expired(curr_ts) {
            return Ok(self.amount_initially_locked_native);
        }
        if self.lockup.kind.is_vesting() {
            self.vested_linearly(curr_ts)
        } else {
            Ok(0)
        }
    }

    /// The tokens of this deposit that are still locked.
    pub fn amount_locked(&self, curr_ts: i64) -> (res: Result<u64, VsrError>)
        requires
            self.lockup_inv(),
        ensures
            res == self.when_active(self.spec_amount_locked(curr_ts)),
            0 <= self.spec_amount_locked(curr_ts) <= self.amount_initially_locked_native,
    {
        proof {
            self.lemma_vested_bounds(curr_ts);
        }
        match self.vested(curr_ts) {
            Ok(vested) => Ok(self.amount_initially_locked_native.checked_sub(vested).unwrap()),
            Err(e) => Err(e),
        }
    }

    /// The tokens of this deposit that are unlocked, given the vesting so
    /// far and the earlier withdrawals.
    pub fn amount_unlocked(&self, curr_ts: i64) -> (res: Result<u64, VsrError>)
        requires
            self.inv_at(curr_ts),
        ensures
            res == self.when_active(self.spec_amount_unlocked(curr_ts)),
            self.is_active ==> 0 <= self.spec_amount_unlocked(curr_ts)
                <= self.amount_deposited_native,
    {
        proof {
            self.lemma_vested_bounds(curr_ts);
        }
        match self.amount_locked(curr_ts) {
            Ok(locked) => Ok(self.amount_deposited_native.checked_sub(locked).unwrap()),
            Err(e) => Err(e),
        }
    }

    /// The entry after `deactivate`.
    pub open spec fn spec_deactivate(self) -> Result<DepositEntry, VsrError> {
        if self.is_active {
            Ok(Self::spec_default())
        } else {
            Err(VsrError::InternalProgramError)
        }
    }

    /// Takes the entry out of use and resets it. An unused entry is left
    /// as it is.
    pub fn deactivate(&mut self) -> (res: Result<(), VsrError>)
        ensures
            match old(self).spec_deactivate() {
                Ok(entry) => res is Ok && *final(self) == entry,
                Err(e) => res == Err::<(), VsrError>(e) && *final(self) == *old(self),
            },
    {
        if !self.is_active {
            return Err(VsrError::InternalProgramError);
        }
        self.lockup = Lockup::default();
        self.amount_deposited_native = 0;
        self.amount_initially_locked_native = 0;
        self.is_active = false;
        Ok(())
    }

    /// The lockup after a deposit at `curr_ts`: one that has started
    /// begins anew at `curr_ts`, with its kind and length.
    pub open spec fn spec_lockup_after_deposit(self, curr_ts: i64) -> Lockup {
        if self.lockup.start_ts < curr_ts {
            Lockup { kind: self.lockup.kind, start_ts: curr_ts }
        } else {
            self.lockup
        }
    }

    /// The entry after a deposit of `amount` at `curr_ts`: what has vested
    /// no longer counts as locked, and the deposit adds to what is locked
    /// and to what is deposited.
    pub open spec fn spec_deposit(self, curr_ts: i64, amount: u64) -> Result<
        DepositEntry,
        VsrError,
    > {
        if !self.is_active {
            Err(VsrError::InternalProgramError)
        } else if self.lockup.start_ts < curr_ts && self.lockup.kind.duration.periods
            > MAX_LOCKUP_PERIODS {
            Err(VsrError::InvalidLockupPeriod)
        } else {
            Ok(
                DepositEntry {
                    lockup: self.spec_lockup_after_deposit(curr_ts),
                    amount_deposited_native: (self.amount_deposited_native + amount) as u64,
                    amount_initially_locked_native: (self.spec_amount_locked(curr_ts)
                        + amount) as u64,
                    is_active: true,
                },
            )
        }
    }

    /// A deposit of `amount` at `curr_ts` keeps the amounts representable.
    pub open spec fn deposit_pre(self, curr_ts: i64, amount: u64) -> bool {
        self.is_active ==> {
            &&& self.lockup.inv()
            &&& self.spec_amount_locked(curr_ts) + amount <= u64::MAX
            &&& self.amount_deposited_native + amount <= u64::MAX
        }
    }

    /// Adds `amount` to the deposit. A failed deposit changes nothing.
    pub fn deposit(&mut self, curr_ts: i64, amount: u64) -> (res: Result<(), VsrError>)
        requires
            old(self).deposit_pre(curr_ts, amount),
        ensures
            match old(self).spec_deposit(curr_ts, amount) {
                Ok(entry) => res is Ok && *final(self) == entry,
                Err(e) => res == Err::<(), VsrError>(e) && *final(self) == *old(self),
            },
            res is Ok && old(self).inv_at(curr_ts) && final(self).lockup.inv()
                ==> final(self).inv_at(curr_ts),
            res is Ok ==> {
                &&& final(self).is_active
                &&& final(self).amount_deposited_native == old(self).amount_deposited_native
                    + amount
                &&& final(self).amount_initially_locked_native == old(self).spec_amount_locked(
                    curr_ts,
                ) + amount
                &&& final(self).lockup == old(self).spec_lockup_after_deposit(curr_ts)
                &&& final(self).lockup.kind == old(self).lockup.kind
            },
            0 <= old(self).spec_amount_locked(curr_ts) <= old(self).amount_initially_locked_native,
    {
        proof {
            old(self).lemma_vested_bounds(curr_ts);
        }
        if !self.is_active {
            return Err(VsrError::InternalProgramError);
        }
        let restart: bool = self.lockup.start_ts < curr_ts;
        let lockup: Lockup = if restart {
            match Lockup::new_from_kind(self.lockup.kind, curr_ts, curr_ts) {
                Ok(l) => l,
                Err(e) => {
                    return Err(e);
                },
            }
        } else {
            self.lockup
        };
        let locked: u64 = match self.amount_locked(curr_ts) {
            Ok(n) => n,
            Err(e) => {
                return Err(e);
            },
        };
        self.amount_initially_locked_native = locked.checked_add(amount).unwrap();
        self.amount_deposited_native = self.amount_deposited_native.checked_add(amount).unwrap();
        self.lockup = lockup;
        proof {
            final(self).lemma_vested_bounds(curr_ts);
        }
        Ok(())
    }

    /// The entry after a withdrawal of `amount` at `curr_ts`.
    pub open spec fn spec_withdraw(self, curr_ts: i64, amount: u64) -> Result<
        DepositEntry,
        VsrError,
    > {
        if !self.is_active {
            Err(VsrError::InternalProgramError)
        } else if !(self.spec_amount_unlocked(curr_ts) >= amount) {
            Err(VsrError::InsufficientUnlockedTokens)
        } else {
            Ok(
                DepositEntry {
                    amount_deposited_native: (self.amount_deposited_native - amount) as u64,
                    ..self
                },
            )
        }
    }

    /// Takes `amount` out of the deposit. No more can be taken than is
    /// unlocked at `curr_ts`; a failed withdrawal changes nothing.
    pub fn withdraw(&mut self, curr_ts: i64, amount: u64) -> (res: Result<(), VsrError>)
        requires
            old(self).inv_at(curr_ts),
        ensures
            match old(self).spec_withdraw(curr_ts, amount) {
                Ok(entry) => res is Ok && *final(self) == entry,
                Err(e) => res == Err::<(), VsrError>(e) && *final(self) == *old(self),
            },
            amount > old(self).spec_amount_unlocked(curr_ts) && old(self).is_active ==> res
                == Err::<(), VsrError>(VsrError::InsufficientUnlockedTokens),
            final(self).inv_at(curr_ts),
            res is Ok ==> {
                &&& final(self).amount_deposited_native == old(self).amount_deposited_native
                    - amount
                &&& final(self).amount_initially_locked_native == old(self).amount_initially_locked_native
                &&& final(self).lockup == old(self).lockup
                &&& final(self).is_active
                &&& amount <= old(self).spec_amount_unlocked(curr_ts)
                    <= old(self).amount_deposited_native
            },
    {
        proof {
            old(self).lemma_vested_bounds(curr_ts);
        }
        let amount_unlocked: u64 = match self.amount_unlocked(curr_ts) {
            Ok(n) => n,
            Err(e) => {
                return Err(e);
            },
        };
        if !(amount_unlocked >= amount) {
            return Err(VsrError::InsufficientUnlockedTokens);
        }
        self.amount_deposited_native = self.amount_deposited_native.checked_sub(amount).unwrap();
        Ok(())
    }

    /// The vote weight of a constant lockup: the part of the maximum that
    /// the seconds left are of the saturation, at most all of it.
    pub open spec fn spec_voting_power_cliff(
        self,
        curr_ts: i64,
        max_locked_vote_weight: u64,
        lockup_saturation_secs: u64,
    ) -> int {
        (max_locked_vote_weight * min_of(
            self.lockup.spec_seconds_left(curr_ts),
            lockup_saturation_secs as int,
        )) / (lockup_saturation_secs as int)
    }

    /// The seconds that the cliffs of a vesting lockup count with at
    /// `curr_ts`, one cliff for each period left.
    pub open spec fn spec_vesting_seconds(self, curr_ts: i64, lockup_saturation_secs: u64) -> int {
        cliff_seconds_sum(
            self.lockup.spec_secs_to_closest_cliff(curr_ts),
            self.lockup.kind.spec_period_secs(),
            lockup_saturation_secs as int,
            self.lockup.spec_periods_left(curr_ts) as nat,
        )
    }

    /// The vote weight of a vesting lockup. Each of the periods holds an
    /// equal share of the maximum and is a cliff of its own; the weight
    /// is the maximum times the cliffs' seconds over the seconds of as
    /// many saturated cliffs as there are periods in all. Where even the
    /// nearest cliff is saturated, the weight is the maximum.
    pub open spec fn spec_voting_power_linear_vesting(
        self,
        curr_ts: i64,
        max_locked_vote_weight: u64,
        lockup_saturation_secs: u64,
    ) -> int {
        if self.lockup.spec_periods_left(curr_ts) == 0 {
            0
        } else if self.lockup.spec_secs_to_closest_cliff(curr_ts) >= lockup_saturation_secs {
            max_locked_vote_weight as int
        } else {
            (max_locked_vote_weight * self.spec_vesting_seconds(curr_ts, lockup_saturation_secs))
                / (self.lockup.spec_periods_total() * lockup_saturation_secs)
        }
    }

    /// The vote weight that the locked funds add: nothing once the lockup
    /// has expired or where no weight can be had.
    pub open spec fn spec_voting_power_locked(
        self,
        curr_ts: i64,
        max_locked_vote_weight: u64,
        lockup_saturation_secs: u64,
    ) -> int {
        if self.lockup.spec_expired(curr_ts) || max_locked_vote_weight == 0 {
            0
        } else if self.lockup.spec_is_vesting() {
            self.spec_voting_power_linear_vesting(
                curr_ts,
                max_locked_vote_weight,
                lockup_saturation_secs,
            )
        } else {
            self.spec_voting_power_cliff(curr_ts, max_locked_vote_weight, lockup_saturation_secs)
        }
    }

    /// The weight of a vesting lockup can be computed in 128 bits.
    pub open spec fn linear_vesting_pre(
        self,
        curr_ts: i64,
        max_locked_vote_weight: u64,
        lockup_saturation_secs: u64,
    ) -> bool {
        self.lockup.spec_periods_left(curr_ts) != 0 && self.lockup.spec_secs_to_closest_cliff(
            curr_ts,
        ) < lockup_saturation_secs ==> max_locked_vote_weight * self.spec_vesting_seconds(
            curr_ts,
            lockup_saturation_secs,
        ) <= RAW_MAX
    }

    /// The weight of the locked funds can be computed: the saturation of a
    /// constant lockup is not zero, and the product for a vesting lockup
    /// fits 128 bits.
    pub open spec fn voting_power_locked_pre(
        self,
        curr_ts: i64,
        max_locked_vote_weight: u64,
        lockup_saturation_secs: u64,
    ) -> bool {
        self.is_active ==> {
            &&& self.lockup.inv()
            &&& !self.lockup.spec_expired(curr_ts) && max_locked_vote_weight != 0
                ==> if self.lockup.spec_is_vesting() {
                self.linear_vesting_pre(curr_ts, max_locked_vote_weight, lockup_saturation_secs)
            } else {
                lockup_saturation_secs != 0
            }
        }
    }

    /// The locked funds never weigh more than the maximum.
    pub proof fn lemma_voting_power_locked_bounds(
        self,
        curr_ts: i64,
        max_locked_vote_weight: u64,
        lockup_saturation_secs: u64,
    )
        requires
            self.lockup.spec_is_vesting() || lockup_saturation_secs != 0
                || self.lockup.spec_expired(curr_ts),
        ensures
            0 <= self.spec_voting_power_locked(
                curr_ts,
                max_locked_vote_weight,
                lockup_saturation_secs,
            ) <= max_locked_vote_weight,
    {
        let max = max_locked_vote_weight as int;
        let sat = lockup_saturation_secs as int;
        if self.lockup.spec_expired(curr_ts) || max == 0 {
        } else if self.lockup.spec_is_vesting() {
            let left = self.lockup.spec_periods_left(curr_ts);
            let total = self.lockup.spec_periods_total();
            let first = self.lockup.spec_secs_to_closest_cliff(curr_ts);
            self.lockup.lemma_periods_left_bounds(curr_ts);
            if left != 0 && first < sat {
                self.lockup.lemma_closest_cliff_ahead(curr_ts);
                let secs = self.spec_vesting_seconds(curr_ts, lockup_saturation_secs);
                lemma_cliff_sum_bounds(
                    first,
                    self.lockup.kind.spec_period_secs(),
                    sat,
                    left as nat,
                );
                assert(0 <= (max * secs) / (total * sat) <= max) by (nonlinear_arith)
                    requires
                        0 <= secs <= left * sat,
                        0 < left <= total,
                        sat > 0,
                        max >= 0,
                ;
            }
        } else {
            let m = min_of(self.lockup.spec_seconds_left(curr_ts), sat);
            assert(0 <= (max * m) / sat <= max) by (nonlinear_arith)
                requires
                    0 <= m <= sat,
                    sat > 0,
                    max >= 0,
            ;
        }
    }

    /// At its start a constant lockup that is at least as long as the
    /// saturation weighs the maximum.
    pub proof fn lemma_constant_lockup_weighs_maximum(
        self,
        max_locked_vote_weight: u64,
        lockup_saturation_secs: u64,
    )
        requires
            !self.lockup.spec_is_vesting(),
            lockup_saturation_secs > 0,
            max_locked_vote_weight == 0 || self.lockup.kind.duration.spec_seconds()
                >= lockup_saturation_secs,
        ensures
            self.spec_voting_power_locked(
                self.lockup.start_ts,
                max_locked_vote_weight,
                lockup_saturation_secs,
            ) == max_locked_vote_weight,
    {
        let max = max_locked_vote_weight as int;
        let sat = lockup_saturation_secs as int;
        if max != 0 {
            assert(min_of(self.lockup.spec_seconds_left(self.lockup.start_ts), sat) == sat);
            assert((max * sat) / sat == max) by (nonlinear_arith)
                requires
                    sat > 0,
            ;
        }
    }

    /// From its end on a lockup adds no weight. This holds of each
    /// vesting lockup, and of a constant one of no length.
    pub proof fn lemma_no_weight_after_end(
        self,
        curr_ts: i64,
        max_locked_vote_weight: u64,
        lockup_saturation_secs: u64,
    )
        requires
            curr_ts >= self.lockup.spec_end_ts(),
            self.lockup.spec_is_vesting() || self.lockup.kind.duration.spec_seconds() == 0,
        ensures
            self.lockup.spec_expired(curr_ts),
            self.spec_voting_power_locked(
                curr_ts,
                max_locked_vote_weight,
                lockup_saturation_secs,
            ) == 0,
            self.spec_vested(curr_ts) == self.amount_initially_locked_native,
    {
    }

    /// The weight of a vesting lockup is the sum over its cliffs: the
    /// maximum times the seconds that the cliffs count with, one by one,
    /// over the seconds of as many saturated cliffs as the lockup has
    /// periods, rounded down once. This fails only where periods have
    /// passed and even the nearest cliff is saturated.
    pub proof fn lemma_vesting_weight_is_sum_over_cliffs(
        self,
        curr_ts: i64,
        max_locked_vote_weight: u64,
        lockup_saturation_secs: u64,
    )
        requires
            lockup_saturation_secs > 0,
            self.lockup.spec_periods_left(curr_ts) > 0,
            self.lockup.spec_secs_to_closest_cliff(curr_ts) < lockup_saturation_secs
                || self.lockup.spec_periods_left(curr_ts) == self.lockup.spec_periods_total(),
        ensures
            self.spec_voting_power_linear_vesting(
                curr_ts,
                max_locked_vote_weight,
                lockup_saturation_secs,
            ) == (max_locked_vote_weight * self.spec_vesting_seconds(
                curr_ts,
                lockup_saturation_secs,
            )) / (self.lockup.spec_periods_total() * lockup_saturation_secs),
    {
        let max = max_locked_vote_weight as int;
        let sat = lockup_saturation_secs as int;
        let first = self.lockup.spec_secs_to_closest_cliff(curr_ts);
        let total = self.lockup.spec_periods_total();
        if first >= sat {
            lemma_cliff_sum_saturated(
                first,
                self.lockup.kind.spec_period_secs(),
                sat,
                total as nat,
            );
            assert((max * (total * sat)) / (total * sat) == max) by (nonlinear_arith)
                requires
                    total > 0,
                    sat > 0,
            ;
        }
    }

    /// The closed form that the weight of a vesting lockup is computed
    /// by, `q * first + period * q * (q - 1) / 2 + r * saturation` for
    /// `q` unsaturated and `r` saturated cliffs, is the sum over the
    /// cliffs.
    pub proof fn lemma_vesting_seconds_closed_form(self, curr_ts: i64, lockup_saturation_secs: u64)
        requires
            self.lockup.spec_periods_left(curr_ts) > 0,
            self.lockup.spec_secs_to_closest_cliff(curr_ts) < lockup_saturation_secs,
        ensures
            self.spec_vesting_seconds(curr_ts, lockup_saturation_secs) == closed_form_seconds(
                self.lockup.spec_secs_to_closest_cliff(curr_ts),
                self.lockup.kind.spec_period_secs(),
                lockup_saturation_secs as int,
                self.lockup.spec_periods_left(curr_ts) as nat,
            ),
    {
        self.lockup.lemma_closest_cliff_ahead(curr_ts);
        lemma_closed_form_is_cliff_sum(
            self.lockup.spec_secs_to_closest_cliff(curr_ts),
            self.lockup.kind.spec_period_secs(),
            lockup_saturation_secs as int,
            self.lockup.spec_periods_left(curr_ts) as nat,
        );
    }

    /// Vote weight of a constant lockup.
    fn voting_power_cliff(
        &self,
        curr_ts: i64,
        max_locked_vote_weight: u64,
        lockup_saturation_secs: u64,
    ) -> (res: Result<u64, VsrError>)
        requires
            self.lockup.inv(),
            lockup_saturation_secs != 0,
        ensures
            res == Ok::<u64, VsrError>(
                self.spec_voting_power_cliff(
                    curr_ts,
                    max_locked_vote_weight,
                    lockup_saturation_secs,
                ) as u64,
            ),
            0 <= self.spec_voting_power_cliff(
                curr_ts,
                max_locked_vote_weight,
                lockup_saturation_secs,
            ) <= max_locked_vote_weight,
    {
        let secs_left: u64 = self.lockup.seconds_left(curr_ts);
        let remaining: u64 = if secs_left <= lockup_saturation_secs {
            secs_left
        } else {
            lockup_saturation_secs
        };
        assert(max_locked_vote_weight * remaining <= RAW_MAX) by (nonlinear_arith)
            requires
                max_locked_vote_weight <= u64::MAX,
                remaining <= u64::MAX,
        ;
        assert(0 <= (max_locked_vote_weight * remaining) / (lockup_saturation_secs as int)
            <= max_locked_vote_weight) by (nonlinear_arith)
            requires
                0 <= remaining <= lockup_saturation_secs,
                lockup_saturation_secs > 0,
                max_locked_vote_weight >= 0,
        ;
        Ok(
            u64::try_from(
                (max_locked_vote_weight as u128).checked_mul(remaining as u128).unwrap().checked_div(
                    lockup_saturation_secs as u128,
                ).unwrap(),
            ).unwrap(),
        )
    }

    /// Vote weight of a vesting lockup, by the closed form of the sum over
    /// its cliffs.
    fn voting_power_linear_vesting(
        &self,
        curr_ts: i64,
        max_locked_vote_weight: u64,
        lockup_saturation_secs: u64,
    ) -> (res: Result<u64, VsrError>)
        requires
            self.lockup.inv(),
            self.linear_vesting_pre(curr_ts, max_locked_vote_weight, lockup_saturation_secs),
        ensures
            res == Ok::<u64, VsrError>(
                self.spec_voting_power_linear_vesting(
                    curr_ts,
                    max_locked_vote_weight,
                    lockup_saturation_secs,
                ) as u64,
            ),
            0 <= self.spec_voting_power_linear_vesting(
                curr_ts,
                max_locked_vote_weight,
                lockup_saturation_secs,
            ) <= max_locked_vote_weight,
    {
        let periods_left: u64 = match self.lockup.periods_left(curr_ts) {
            Ok(n) => n,
            Err(e) => {
                return Err(e);
            },
        };
        let periods_total: u64 = self.lockup.periods_total();
        let period_secs: u64 = self.lockup.kind.period_secs();

        if periods_left == 0 {
            return Ok(0);
        }
        proof {
            self.lockup.lemma_closest_cliff_ahead(curr_ts);
        }
        let secs_to_closest_cliff: u64 = self.lockup.seconds_left(curr_ts) - period_secs * (
        periods_left - 1);

        if secs_to_closest_cliff >= lockup_saturation_secs {
            return Ok(max_locked_vote_weight);
        }
        let ghost first = secs_to_closest_cliff as int;
        let ghost period = period_secs as int;
        let ghost sat = lockup_saturation_secs as int;
        let ghost left = periods_left as nat;

        assert(periods_total * lockup_saturation_secs <= RAW_MAX) by (nonlinear_arith)
            requires
                periods_total <= u64::MAX,
                lockup_saturation_secs <= u64::MAX,
        ;
        let denominator: u128 = periods_total as u128 * lockup_saturation_secs as u128;

        let lockup_saturation_periods: u128 = ((lockup_saturation_secs
            - secs_to_closest_cliff) as u128 + period_secs as u128) / period_secs as u128;
        let q: u128 = if lockup_saturation_periods <= periods_left as u128 {
            lockup_saturation_periods
        } else {
            periods_left as u128
        };
        let r: u128 = periods_left as u128 - q;
        proof {
            lemma_saturation_threshold(first, period, sat, 0);
            assert(q == unsaturated_cliffs(first, period, sat, left));
            assert(1 <= q <= left);
            // The first `q` cliffs are all unsaturated, so their closed form
            // is their sum, which bounds both of its parts.
            assert(unsaturated_cliffs(first, period, sat, q as nat) == q);
            lemma_closed_form_is_cliff_sum(first, period, sat, q as nat);
            lemma_cliff_sum_bounds(first, period, sat, q as nat);
            lemma_closed_form_is_cliff_sum(first, period, sat, left);
            lemma_cliff_sum_bounds(first, period, sat, left);
            assert(q * (q - 1) <= RAW_MAX && q * (q - 1) >= 0) by (nonlinear_arith)
                requires
                    1 <= q <= u64::MAX,
            ;
            assert(q * sat <= RAW_MAX && left * sat <= RAW_MAX && r * sat <= left * sat && r
                * sat >= 0) by (nonlinear_arith)
                requires
                    1 <= q <= left,
                    r == left - q,
                    left <= u64::MAX,
                    0 <= sat <= u64::MAX,
            ;
            assert(q * first >= 0 && ((q * (q - 1)) / 2) * period >= 0) by (nonlinear_arith)
                requires
                    q >= 1,
                    first >= 0,
                    period > 0,
            ;
        }
        let sum_full_periods: u128 = q * (q - 1) / 2;

        let lockup_secs_fractional: u128 = q * secs_to_closest_cliff as u128;
        let lockup_secs_full: u128 = sum_full_periods * period_secs as u128;
        let lockup_secs_saturated: u128 = r * lockup_saturation_secs as u128;
        let lockup_secs: u128 = lockup_secs_fractional + lockup_secs_full + lockup_secs_saturated;
        assert(lockup_secs == self.spec_vesting_seconds(curr_ts, lockup_saturation_secs));

        proof {
            self.lockup.lemma_periods_left_bounds(curr_ts);
            assert(denominator > 0) by (nonlinear_arith)
                requires
                    denominator == periods_total * sat,
                    0 < left <= periods_total,
                    sat > 0,
            ;
            assert(0 <= (max_locked_vote_weight * lockup_secs) / (denominator as int)
                <= max_locked_vote_weight) by (nonlinear_arith)
                requires
                    0 <= lockup_secs <= left * sat,
                    0 < left <= periods_total,
                    denominator == periods_total * sat,
                    sat > 0,
                    max_locked_vote_weight >= 0,
            ;
        }
        Ok(
            u64::try_from(
                (max_locked_vote_weight as u128).checked_mul(lockup_secs).unwrap().checked_div(
                    denominator,
                ).unwrap(),
            ).unwrap(),
        )
    }

    /// Vote weight of the locked funds only.
    pub fn voting_power_locked(
        &self,
        curr_ts: i64,
        max_locked_vote_weight: u64,
        lockup_saturation_secs: u64,
    ) -> (res: Result<u64, VsrError>)
        requires
            self.voting_power_locked_pre(curr_ts, max_locked_vote_weight, lockup_saturation_secs),
        ensures
            res == self.when_active(
                self.spec_voting_power_locked(
                    curr_ts,
                    max_locked_vote_weight,
                    lockup_saturation_secs,
                ),
            ),
            self.is_active ==> 0 <= self.spec_voting_power_locked(
                curr_ts,
                max_locked_vote_weight,
                lockup_saturation_secs,
            ) <= max_locked_vote_weight,
    {
        if !self.is_active {
            return Err(VsrError::InternalProgramError);
        }
        if self.lockup.expired(curr_ts) || max_locked_vote_weight == 0 {
            return Ok(0);
        }
        if self.lockup.kind.is_vesting() {
            self.voting_power_linear_vesting(
                curr_ts,
                max_locked_vote_weight,
                lockup_saturation_secs,
            )
        } else {
            self.voting_power_cliff(curr_ts, max_locked_vote_weight, lockup_saturation_secs)
        }
    }

    /// The vote weight of the deposit: the baseline weight of what is
    /// deposited plus the weight that the lockup adds to what was locked.
    pub open spec fn spec_voting_power(self, voting_config: VotingConfig, curr_ts: i64) -> Result<
        u64,
        VsrError,
    > {
        if !self.is_active {
            Err(VsrError::InternalProgramError)
        } else {
            match (
                voting_config.spec_baseline_vote_weight(self.amount_deposited_native),
                voting_config.spec_max_extra_lockup_vote_weight(
                    self.amount_initially_locked_native,
                ),
            ) {
                (Ok(baseline), Ok(max_locked)) => {
                    let locked = self.spec_voting_power_locked(
                        curr_ts,
                        max_locked,
                        voting_config.lockup_saturation_secs,
                    );
                    if baseline + locked <= u64::MAX {
                        Ok((baseline + locked) as u64)
                    } else {
                        Err(VsrError::VoterWeightOverflow)
                    }
                },
                _ => Err(VsrError::VoterWeightOverflow),
            }
        }
    }

    /// The vote weight can be computed: where both factors can be applied,
    /// the weight of the locked funds can.
    pub open spec fn voting_power_pre(self, voting_config: VotingConfig, curr_ts: i64) -> bool {
        self.is_active ==> match (
            voting_config.spec_baseline_vote_weight(self.amount_deposited_native),
            voting_config.spec_max_extra_lockup_vote_weight(self.amount_initially_locked_native),
        ) {
            (Ok(_), Ok(max_locked)) => self.voting_power_locked_pre(
                curr_ts,
                max_locked,
                voting_config.lockup_saturation_secs,
            ),
            _ => true,
        }
    }

    /// The voting power of the deposit: locked tokens have a boosted
    /// weight that falls linearly with the time left on the lockup.
    pub fn voting_power(&self, voting_config: &VotingConfig, curr_ts: i64) -> (res: Result<
        u64,
        VsrError,
    >)
        requires
            self.voting_power_pre(*voting_config, curr_ts),
        ensures
            res == self.spec_voting_power(*voting_config, curr_ts),
            res matches Ok(weight) ==> {
                let baseline = VotingConfig::spec_apply_factor(
                    self.amount_deposited_native,
                    voting_config.baseline_vote_weight_scaled_factor,
                );
                let max_locked = VotingConfig::spec_apply_factor(
                    self.amount_initially_locked_native,
                    voting_config.max_extra_lockup_vote_weight_scaled_factor,
                );
                let locked = self.spec_voting_power_locked(
                    curr_ts,
                    max_locked as u64,
                    voting_config.lockup_saturation_secs,
                );
                &&& 0 <= max_locked <= u64::MAX
                &&& 0 <= locked <= max_locked
                &&& weight == baseline + locked
            },
    {
        if !self.is_active {
            return Err(VsrError::InternalProgramError);
        }
        let baseline_vote_weight: u64 = match voting_config.baseline_vote_weight(
            self.amount_deposited_native,
        ) {
            Ok(w) => w,
            Err(e) => {
                return Err(e);
            },
        };
        let max_locked_vote_weight: u64 = match voting_config.max_extra_lockup_vote_weight(
            self.amount_initially_locked_native,
        ) {
            Ok(w) => w,
            Err(e) => {
                return Err(e);
            },
        };
        let locked_vote_weight: u64 = match self.voting_power_locked(
            curr_ts,
            max_locked_vote_weight,
            voting_config.lockup_saturation_secs,
        ) {
            Ok(w) => w,
            Err(e) => {
                return Err(e);
            },
        };
        match baseline_vote_weight.checked_add(locked_vote_weight) {
            Some(sum) => Ok(sum),
            None => Err(VsrError::VoterWeightOverflow),
        }
    }
}

} // verus!
