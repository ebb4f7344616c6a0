use crate::error::VsrError;
use vstd::prelude::*;

verus! {

/// Seconds in one day.
pub const SECS_PER_DAY: u64 = 86_400;

/// Seconds in one month: a twelfth of a year of 365 days.
pub const SECS_PER_MONTH: u64 = 365 * SECS_PER_DAY / 12;

/// Maximum acceptable number of lockup periods: 200 years of daily periods.
pub const MAX_LOCKUP_PERIODS: u64 = 365 * 200;

/// How far ahead of the current time a lockup may start, in seconds.
pub const MAX_LOCKUP_IN_FUTURE_SECS: i64 = 100 * 365 * 24 * 60 * 60;

/// The unit in which a lockup duration is counted.
#[derive(Clone, Copy, PartialEq, Eq, Debug, Structural)]
pub enum LockupTimeUnit {
    Day,
    Month,
}

impl LockupTimeUnit {
    /// Length of one unit in seconds, as a mathematical integer.
    pub open spec fn spec_seconds(self) -> int {
        match self {
            LockupTimeUnit::Day => 86_400,
            LockupTimeUnit::Month => 2_628_000,
        }
    }

    /// Length of one unit in seconds.
    pub fn seconds(&self) -> (secs: u64)
        ensures
            secs == self.spec_seconds(),
            secs > 0,
    {
        match *self {
            LockupTimeUnit::Day => SECS_PER_DAY,
            LockupTimeUnit::Month => SECS_PER_MONTH,
        }
    }
}

/// A number of periods of one unit.
#[derive(Clone, Copy, PartialEq, Eq, Debug, Structural)]
pub struct LockupTimeDuration {
    pub periods: u64,
    pub unit: LockupTimeUnit,
}

impl LockupTimeDuration {
    /// `periods` times the length of the unit, unbounded.
    pub open spec fn spec_seconds(self) -> int {
        self.periods * self.unit.spec_seconds()
    }

    /// The duration in seconds.
    pub fn seconds(&self) -> (secs: u64)
        requires
            self.spec_seconds() <= u64::MAX,
        ensures
            secs == self.spec_seconds(),
    {
        let unit_secs: u64 = self.unit.seconds();
        assert(unit_secs * self.periods == self.periods * unit_secs) by (nonlinear_arith);
        unit_secs.checked_mul(self.periods).unwrap()
    }
}

/// How a lockup releases its funds.
#[derive(Clone, Copy, PartialEq, Eq, Debug, Structural)]
pub enum LockupKindKind {
    /// Vests linearly, one share at the end of each day.
    Daily,
    /// Vests linearly, one share at the end of each month.
    Monthly,
    /// Never vests: the remaining time is always the full duration.
    Constant,
}

/// The kind of a lockup together with its length.
#[derive(Clone, Copy, PartialEq, Eq, Debug, Structural)]
pub struct LockupKind {
    pub duration: LockupTimeDuration,
    pub kind: LockupKindKind,
}

impl LockupKind {
    pub fn daily(days: u64) -> (kind: LockupKind)
        ensures
            kind == (LockupKind {
                duration: LockupTimeDuration { periods: days, unit: LockupTimeUnit::Day },
                kind: LockupKindKind::Daily,
            }),
    {
        LockupKind {
            duration: LockupTimeDuration { periods: days, unit: LockupTimeUnit::Day },
            kind: LockupKindKind::Daily,
        }
    }

    pub fn monthly(months: u64) -> (kind: LockupKind)
        ensures
            kind == (LockupKind {
                duration: LockupTimeDuration { periods: months, unit: LockupTimeUnit::Month },
                kind: LockupKindKind::Monthly,
            }),
    {
        LockupKind {
            duration: LockupTimeDuration { periods: months, unit: LockupTimeUnit::Month },
            kind: LockupKindKind::Monthly,
        }
    }

    pub fn constant(duration: LockupTimeDuration) -> (kind: LockupKind)
        ensures
            kind == (LockupKind { duration, kind: LockupKindKind::Constant }),
    {
        LockupKind { duration, kind: LockupKindKind::Constant }
    }

    pub open spec fn spec_periods(self) -> int {
        self.duration.periods as int
    }

    /// Number of periods of the lockup.
    pub fn periods(&self) -> (n: u64)
        ensures
            n == self.spec_periods(),
    {
        self.duration.periods
    }

    pub open spec fn spec_period_secs(self) -> int {
        self.duration.unit.spec_seconds()
    }

    /// Length of one period in seconds. For vesting lockups this is also the
    /// time between two vesting steps.
    pub fn period_secs(&self) -> (secs: u64)
        ensures
            secs == self.spec_period_secs(),
            secs > 0,
    {
        self.duration.unit.seconds()
    }

    pub open spec fn spec_is_vesting(self) -> bool {
        self.kind != LockupKindKind::Constant
    }

    /// True for the kinds that release their funds step by step.
    pub fn is_vesting(&self) -> (vesting: bool)
        ensures
            vesting == self.spec_is_vesting(),
    {
        match self.kind {
            LockupKindKind::Daily => true,
            LockupKindKind::Monthly => true,
            LockupKindKind::Constant => false,
        }
    }
}

/// A lockup schedule: what kind of lockup, and when it starts.
///
/// Funds are locked even before `start_ts`.
#[derive(Clone, Copy, PartialEq, Eq, Debug, Structural)]
pub struct Lockup {
    pub kind: LockupKind,
    pub start_ts: i64,
}

impl Lockup {
    /// The end of the schedule, unbounded.
    pub open spec fn spec_end_ts(self) -> int {
        self.start_ts + self.kind.duration.spec_seconds()
    }

    /// The length and the end of the schedule are representable timestamps.
    /// Every query on a schedule asks for this.
    pub open spec fn inv(self) -> bool {
        &&& self.kind.duration.spec_seconds() <= i64::MAX
        &&& self.spec_end_ts() <= i64::MAX
    }

    /// What `new_from_kind` decides: too far ahead is reported first, then
    /// too many periods.
    pub open spec fn spec_new_from_kind(kind: LockupKind, curr_ts: i64, start_ts: i64) -> Result<
        Lockup,
        VsrError,
    > {
        if !(curr_ts + MAX_LOCKUP_IN_FUTURE_SECS > start_ts) {
            Err(VsrError::DepositStartTooFarInFuture)
        } else if !(MAX_LOCKUP_PERIODS >= kind.duration.periods) {
            Err(VsrError::InvalidLockupPeriod)
        } else {
            Ok(Lockup { kind, start_ts })
        }
    }

    /// Creates the schedule of the given kind that starts at `start_ts`.
    pub fn new_from_kind(kind: LockupKind, curr_ts: i64, start_ts: i64) -> (res: Result<
        Lockup,
        VsrError,
    >)
        ensures
            res == Self::spec_new_from_kind(kind, curr_ts, start_ts),
    {
        let horizon: i128 = curr_ts as i128 + MAX_LOCKUP_IN_FUTURE_SECS as i128;
        if !(horizon > start_ts as i128) {
            return Err(VsrError::DepositStartTooFarInFuture);
        }
        if !(MAX_LOCKUP_PERIODS >= kind.periods()) {
            return Err(VsrError::InvalidLockupPeriod);
        }
        Ok(Lockup { kind, start_ts })
    }

    /// The vesting kind that counts in the unit of `duration`.
    pub open spec fn spec_kind_of_duration(duration: LockupTimeDuration) -> LockupKind {
        LockupKind {
            duration,
            kind: match duration.unit {
                LockupTimeUnit::Day => LockupKindKind::Daily,
                LockupTimeUnit::Month => LockupKindKind::Monthly,
            },
        }
    }

    /// Creates a vesting schedule with one period per unit of `duration`.
    pub fn new_from_duration(duration: LockupTimeDuration, curr_ts: i64, start_ts: i64) -> (res:
        Result<Lockup, VsrError>)
        ensures
            res == Self::spec_new_from_kind(
                Self::spec_kind_of_duration(duration),
                curr_ts,
                start_ts,
            ),
    {
        match duration.unit {
            LockupTimeUnit::Day => Lockup::new_from_kind(
                LockupKind::daily(duration.periods),
                curr_ts,
                start_ts,
            ),
            LockupTimeUnit::Month => Lockup::new_from_kind(
                LockupKind::monthly(duration.periods),
                curr_ts,
                start_ts,
            ),
        }
    }

    /// The end timestamp of this lockup.
    pub fn end_ts(&self) -> (end: i64)
        requires
            self.inv(),
        ensures
            end == self.spec_end_ts(),
    {
        let secs: u64 = self.kind.duration.seconds();
        self.start_ts.checked_add_unsigned(secs).unwrap()
    }

    pub open spec fn spec_is_vesting(self) -> bool {
        self.kind.spec_is_vesting()
    }

    pub fn is_vesting(&self) -> (vesting: bool)
        ensures
            vesting == self.spec_is_vesting(),
    {
        self.kind.is_vesting()
    }

    /// Seconds left until the end. A constant lockup measures from its own
    /// start, whatever the time; a vesting lockup measures from `curr_ts`,
    /// and before `start_ts` has more left than its whole length.
    pub open spec fn spec_seconds_left(self, curr_ts: i64) -> int {
        let from: int = if self.kind.kind == LockupKindKind::Constant {
            self.start_ts as int
        } else {
            curr_ts as int
        };
        if from >= self.spec_end_ts() {
            0
        } else {
            self.spec_end_ts() - from
        }
    }

    /// Number of seconds left in the lockup.
    pub fn seconds_left(&self, curr_ts: i64) -> (secs: u64)
        requires
            self.inv(),
        ensures
            secs == self.spec_seconds_left(curr_ts),
    {
        let from: i64 = match self.kind.kind {
            LockupKindKind::Constant => self.start_ts,
            _ => curr_ts,
        };
        let end_ts: i64 = self.end_ts();
        if from >= end_ts {
            0
        } else {
            (end_ts as i128 - from as i128) as u64
        }
    }

    pub open spec fn spec_expired(self, curr_ts: i64) -> bool {
        self.spec_seconds_left(curr_ts) == 0
    }

    /// True when the lockup is finished.
    pub fn expired(&self, curr_ts: i64) -> (done: bool)
        requires
            self.inv(),
        ensures
            done == self.spec_expired(curr_ts),
    {
        self.seconds_left(curr_ts) == 0
    }

    pub open spec fn spec_periods_total(self) -> int {
        self.kind.spec_periods()
    }

    /// The total number of periods in the lockup.
    pub fn periods_total(&self) -> (n: u64)
        ensures
            n == self.spec_periods_total(),
    {
        self.kind.periods()
    }

    /// The periods that have not ended yet: all of them before the start,
    /// afterwards the seconds left divided by the period length, rounded up.
    pub open spec fn spec_periods_left(self, curr_ts: i64) -> int {
        let period_secs = self.kind.spec_period_secs();
        if period_secs == 0 {
            0
        } else if curr_ts < self.start_ts {
            self.spec_periods_total()
        } else {
            (self.spec_seconds_left(curr_ts) + (period_secs - 1)) / period_secs
        }
    }

    /// Number of periods left on the lockup: 0 after it has expired,
    /// `periods_total` before `start_ts`.
    pub fn periods_left(&self, curr_ts: i64) -> (res: Result<u64, VsrError>)
        requires
            self.inv(),
        ensures
            res == Ok::<u64, VsrError>(self.spec_periods_left(curr_ts) as u64),
            0 <= self.spec_periods_left(curr_ts) <= self.spec_periods_total(),
    {
        let period_secs: u64 = self.kind.period_secs();
        proof {
            self.lemma_periods_left_bounds(curr_ts);
        }
        if period_secs == 0 {
            return Ok(0);
        }
        if curr_ts < self.start_ts {
            return Ok(self.periods_total());
        }
        Ok(
            self.seconds_left(curr_ts).checked_add(
                period_secs.saturating_sub(1),
            ).unwrap().checked_div(period_secs).unwrap(),
        )
    }

    pub open spec fn spec_period_current(self, curr_ts: i64) -> int {
        self.spec_periods_total() - self.spec_periods_left(curr_ts)
    }

    /// The current period in the vesting schedule: 0 before `start_ts`,
    /// `periods_total` once the lockup has expired.
    pub fn period_current(&self, curr_ts: i64) -> (res: Result<u64, VsrError>)
        requires
            self.inv(),
        ensures
            res == Ok::<u64, VsrError>(self.spec_period_current(curr_ts) as u64),
            0 <= self.spec_period_current(curr_ts) <= self.spec_periods_total(),
    {
        let total: u64 = self.periods_total();
        match self.periods_left(curr_ts) {
            Ok(left) => Ok(total.saturating_sub(left)),
            Err(e) => Err(e),
        }
    }

    /// The seconds until the nearest period ends: what is left of the
    /// lockup without the whole periods that follow the current one.
    pub open spec fn spec_secs_to_closest_cliff(self, curr_ts: i64) -> int {
        self.spec_seconds_left(curr_ts) - self.kind.spec_period_secs() * (self.spec_periods_left(
            curr_ts,
        ) - 1)
    }

    /// While a period is left, the nearest period end lies ahead.
    pub proof fn lemma_closest_cliff_ahead(self, curr_ts: i64)
        requires
            self.spec_periods_left(curr_ts) > 0,
        ensures
            self.spec_secs_to_closest_cliff(curr_ts) > 0,
            0 <= self.kind.spec_period_secs() * (self.spec_periods_left(curr_ts) - 1)
                <= self.kind.duration.spec_seconds(),
            curr_ts >= self.start_ts ==> self.spec_secs_to_closest_cliff(curr_ts)
                <= self.kind.spec_period_secs(),
    {
        let p = self.kind.spec_period_secs();
        let n = self.spec_periods_total();
        let left = self.spec_periods_left(curr_ts);
        let s = self.spec_seconds_left(curr_ts);
        self.lemma_periods_left_bounds(curr_ts);
        assert(0 <= p * (left - 1) <= n * p) by (nonlinear_arith)
            requires
                p > 0,
                1 <= left <= n,
        ;
        if curr_ts >= self.start_ts {
            self.lemma_seconds_left_bound(curr_ts);
            assert(p * (left - 1) < s && s <= p * (left - 1) + p) by (nonlinear_arith)
                requires
                    p > 0,
                    s >= 0,
                    left == (s + (p - 1)) / p,
                    left > 0,
            ;
        } else {
            assert(p * (n - 1) == n * p - p) by (nonlinear_arith);
        }
    }

    /// The periods left only go down as time goes on.
    pub proof fn lemma_periods_left_monotone(self, earlier: i64, later: i64)
        requires
            earlier <= later,
        ensures
            self.spec_periods_left(later) <= self.spec_periods_left(earlier),
            self.spec_period_current(earlier) <= self.spec_period_current(later),
    {
        let p = self.kind.spec_period_secs();
        self.lemma_periods_left_bounds(later);
        if earlier >= self.start_ts {
            let s1 = self.spec_seconds_left(earlier);
            let s2 = self.spec_seconds_left(later);
            self.lemma_seconds_left_bound(earlier);
            self.lemma_seconds_left_bound(later);
            assert(s2 <= s1);
            assert((s2 + (p - 1)) / p <= (s1 + (p - 1)) / p) by (nonlinear_arith)
                requires
                    p > 0,
                    0 <= s2 <= s1,
            ;
        }
    }

    /// A schedule with no more periods than a new one may have, that
    /// starts early enough for the longest of these to end in time, is
    /// representable.
    pub proof fn lemma_bounded_lockup_inv(self)
        requires
            self.kind.duration.periods <= MAX_LOCKUP_PERIODS,
            self.start_ts <= i64::MAX - MAX_LOCKUP_PERIODS * SECS_PER_MONTH,
        ensures
            self.inv(),
    {
        let periods = self.kind.duration.periods as int;
        let unit = self.kind.duration.unit.spec_seconds();
        assert(0 <= periods * unit <= MAX_LOCKUP_PERIODS * SECS_PER_MONTH) by (nonlinear_arith)
            requires
                0 <= periods <= MAX_LOCKUP_PERIODS,
                0 < unit <= SECS_PER_MONTH,
        ;
    }

    /// From the start on, no more seconds are left than the lockup is long.
    pub proof fn lemma_seconds_left_bound(self, curr_ts: i64)
        requires
            curr_ts >= self.start_ts,
        ensures
            0 <= self.spec_seconds_left(curr_ts) <= self.kind.duration.spec_seconds(),
    {
        assert(self.kind.duration.spec_seconds() >= 0) by (nonlinear_arith)
            requires
                self.kind.duration.spec_seconds() == self.kind.duration.periods
                    * self.kind.duration.unit.spec_seconds(),
                self.kind.duration.unit.spec_seconds() > 0,
                self.kind.duration.periods >= 0,
        ;
    }

    /// The periods left are never negative and never more than the total.
    pub proof fn lemma_periods_left_bounds(self, curr_ts: i64)
        ensures
            0 <= self.spec_periods_left(curr_ts) <= self.spec_periods_total(),
    {
        let p = self.kind.spec_period_secs();
        let n = self.spec_periods_total();
        if curr_ts >= self.start_ts {
            self.lemma_seconds_left_bound(curr_ts);
            let s = self.spec_seconds_left(curr_ts);
            assert(0 <= (s + (p - 1)) / p <= n) by (nonlinear_arith)
                requires
                    p > 0,
                    0 <= s <= n * p,
            ;
        }
    }
}

impl Default for Lockup {
    /// A constant lockup of no length that starts at time 0.
    fn default() -> (lockup: Lockup)
        ensures
            lockup == Lockup::spec_default(),
    {
        Lockup {
            kind: LockupKind::constant(
                LockupTimeDuration { periods: 0, unit: LockupTimeUnit::Day },
            ),
            start_ts: 0,
        }
    }
}

impl Lockup {
    pub open spec fn spec_default() -> Lockup {
        Lockup {
            kind: LockupKind {
                duration: LockupTimeDuration { periods: 0, unit: LockupTimeUnit::Day },
                kind: LockupKindKind::Constant,
            },
            start_ts: 0,
        }
    }
}

} // verus!
