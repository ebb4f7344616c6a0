//! A registry of locked deposits for governance.
//!
//! Depositors lock tokens under a schedule: a constant lockup, which never
//! runs down, or one that vests day by day or month by month. A deposit
//! gives its owner vote weight, more of it the longer the funds stay
//! locked, and the funds under constant lockups earn rewards from a pool
//! that is paid out at a rate which is set anew each year.
//!
//! The modules under `state` hold the records and their rules: `lockup`
//! the schedules, `deposit_entry` one deposit with its vesting and its
//! vote weight, `voter` the row of deposits of one depositor with the
//! settlement of its rewards, `registrar` the configuration and the
//! reward pool. `instructions` holds the steps that a front end offers,
//! each from the registrar, the voter and the time of the host to their
//! new values.
//!
//! Every executable function is verified against its contract. A
//! function asks of its caller, in `requires`, that the quantities which
//! it computes are representable; under that condition it does not
//! panic. The arithmetic is checked all the same, so that a caller
//! outside the reach of the verifier who fails the condition gets a panic
//! and never a wrong number.

pub mod error;
pub mod events;
pub mod instructions;
pub mod state;

pub use error::VsrError;
pub use state::deposit_entry::DepositEntry;
pub use state::lockup::{
    Lockup, LockupKind, LockupKindKind, LockupTimeDuration, LockupTimeUnit,
    MAX_LOCKUP_IN_FUTURE_SECS, MAX_LOCKUP_PERIODS, SECS_PER_DAY, SECS_PER_MONTH,
};
pub use state::registrar::{
    u128, DepositConfig, Registrar, VotingConfig, EXP_SCALE,
    FULL_REWARD_PERMANENTLY_LOCKED_FLOOR, SCALED_FACTOR_BASE, SECS_PER_YEAR, TOTAL_REWARD_AMOUNT,
};
pub use state::voter::{Voter, VOTER_DEPOSIT_ENTRY_COUNT};
pub use events::{DepositEntryInfo, VestingInfo, VoterInfo};
pub use instructions::{
    claim_reward, close_voter, create_registrar, create_voter, log_voter_info, node_deposit,
    node_release_deposit, ordinary_deposit, ordinary_release_deposit, update_deposit_config,
    update_voter_weight_record, update_voting_config, withdraw, NODE_DEPOSIT_ENTRY_INDEX,
};
