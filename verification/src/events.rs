use crate::state::lockup::Lockup;
use vstd::prelude::*;

verus! {

/// A report on a voter: its vote weight, its rewards and its entries.
#[derive(Clone, Copy, Debug)]
pub struct VoterInfo {
    /// Voter's total voting power.
    pub voting_power: u64,
    /// Voter's total voting power, when ignoring any effects from lockup.
    pub voting_power_baseline: u64,
    /// The reward that the voter could claim now.
    pub reward_amount: u64,
    /// One report for each entry in use, at the index of the entry.
    pub deposit_entries: [Option<DepositEntryInfo>; 16],
}

/// A report on one deposit entry.
#[derive(Clone, Copy, PartialEq, Eq, Debug)]
pub struct DepositEntryInfo {
    /// The lockup of the entry.
    pub lockup: Lockup,
    /// Amount that is locked.
    pub amount_locked: u64,
    /// Amount that is unlocked.
    pub amount_unlocked: u64,
    /// Voting power implied by this deposit entry.
    pub voting_power: u64,
    /// Voting power without any adjustments for lockup.
    pub voting_power_baseline: u64,
    /// Information about vesting, if any.
    pub vesting: Option<VestingInfo>,
}

/// A report on the vesting of one deposit entry.
#[derive(Clone, Copy, PartialEq, Eq, Debug)]
pub struct VestingInfo {
    /// Amount of tokens vested each period.
    pub rate: u64,
    /// Time of the next upcoming vesting.
    pub next_timestamp: u64,
}

} // verus!
