use crate::error::VsrError;
use crate::events::{DepositEntryInfo, VestingInfo, VoterInfo};
use crate::state::deposit_entry::DepositEntry;
use crate::state::lockup::{Lockup, LockupKind, LockupKindKind, LockupTimeDuration};
use crate::state::registrar::{
    u128, DepositConfig, Registrar, VotingConfig, EXP_SCALE,
    FULL_REWARD_PERMANENTLY_LOCKED_FLOOR, RAW_MAX, SECS_PER_YEAR, TOTAL_REWARD_AMOUNT,
};
use crate::state::sums::{lemma_try_sum_failure_stays, try_sum};
use crate::state::voter::{weight_term, Voter, VoterView};
use anchor_lang::prelude::Pubkey;
use vstd::prelude::*;

verus! {

/// The entry that is reserved for the node deposit of a voter.
pub const NODE_DEPOSIT_ENTRY_INDEX: u8 = 0;

/// The host clock can be moved by the registrar's offset.
pub open spec fn clock_pre(registrar: Registrar, unix_timestamp: i64) -> bool {
    i64::MIN <= unix_timestamp + registrar.time_offset <= i64::MAX
}

/// The registry's time at the host time `unix_timestamp`.
pub open spec fn spec_now(registrar: Registrar, unix_timestamp: i64) -> i64 {
    (unix_timestamp + registrar.time_offset) as i64
}

/// What is wrong with a pair of configurations, if anything: the
/// saturation is looked at first, then the node deposit.
pub open spec fn spec_check_configs(voting_config: VotingConfig, deposit_config: DepositConfig)
    -> Result<(), VsrError> {
    if !(voting_config.lockup_saturation_secs > 0) {
        Err(VsrError::LockupSaturationMustBePositive)
    } else if !(deposit_config.node_security_deposit > 0) {
        Err(VsrError::NodeSecurityDepositMustBePositive)
    } else {
        Ok(())
    }
}

/// A registrar that has issued nothing, counts nothing as locked and
/// has never accrued.
pub open spec fn spec_fresh_registrar(
    governance_program_id: Pubkey,
    realm: Pubkey,
    realm_authority: Pubkey,
    governing_token_mint: Pubkey,
    registrar_bump: u8,
    max_voter_weight_record_bump: u8,
    voting_config: VotingConfig,
    deposit_config: DepositConfig,
) -> Registrar {
    Registrar {
        governance_program_id,
        realm,
        realm_authority,
        governing_token_mint,
        voting_config,
        deposit_config,
        current_reward_amount_per_second: u128(0),
        last_reward_amount_per_second_rotated_ts: 0,
        reward_accrual_ts: 0,
        reward_index: u128(0),
        issued_reward_amount: 0,
        permanently_locked_amount: 0,
        time_offset: 0,
        bump: registrar_bump,
        max_voter_weight_record_bump,
    }
}

/// The registrar that `create_registrar` makes: a fresh one that has
/// accrued once at the time of its creation, which sets its first
/// reward rate once the host time has reached a year. The vote weight
/// of the whole supply must fit 64 bits.
pub open spec fn spec_create_registrar(
    governance_program_id: Pubkey,
    realm: Pubkey,
    realm_authority: Pubkey,
    governing_token_mint: Pubkey,
    registrar_bump: u8,
    max_voter_weight_record_bump: u8,
    voting_config: VotingConfig,
    deposit_config: DepositConfig,
    unix_timestamp: i64,
    total_supply: u64,
) -> Result<Registrar, VsrError> {
    match spec_check_configs(voting_config, deposit_config) {
        Err(e) => Err(e),
        Ok(()) => {
            let registrar = spec_fresh_registrar(
                governance_program_id,
                realm,
                realm_authority,
                governing_token_mint,
                registrar_bump,
                max_voter_weight_record_bump,
                voting_config,
                deposit_config,
            ).spec_accrue_rewards(unix_timestamp);
            match registrar.spec_max_vote_weight(total_supply) {
                Ok(_) => Ok(registrar),
                Err(e) => Err(e),
            }
        },
    }
}

/// Creates a new voting registrar. The host time must not lie before
/// the epoch, where a fresh registrar starts to count.
pub fn create_registrar(
    governance_program_id: Pubkey,
    realm: Pubkey,
    realm_authority: Pubkey,
    governing_token_mint: Pubkey,
    registrar_bump: u8,
    max_voter_weight_record_bump: u8,
    voting_config: VotingConfig,
    deposit_config: DepositConfig,
    unix_timestamp: i64,
    total_supply: u64,
) -> (res: Result<Registrar, VsrError>)
    requires
        spec_check_configs(voting_config, deposit_config) is Ok ==> unix_timestamp >= 0,
    ensures
        res == spec_create_registrar(
            governance_program_id,
            realm,
            realm_authority,
            governing_token_mint,
            registrar_bump,
            max_voter_weight_record_bump,
            voting_config,
            deposit_config,
            unix_timestamp,
            total_supply,
        ),
        res matches Ok(registrar) ==> {
            &&& registrar.voting_config == voting_config
            &&& registrar.deposit_config == deposit_config
            &&& registrar.reward_accrual_ts == unix_timestamp
            &&& registrar.reward_index.0 == 0
            &&& registrar.issued_reward_amount == 0
            &&& registrar.permanently_locked_amount == 0
            &&& registrar.time_offset == 0
            &&& if unix_timestamp >= SECS_PER_YEAR {
                &&& registrar.last_reward_amount_per_second_rotated_ts == unix_timestamp
                &&& registrar.current_reward_amount_per_second.0 == (EXP_SCALE * ((
                TOTAL_REWARD_AMOUNT * 12) / 100)) / (SECS_PER_YEAR as int)
            } else {
                &&& registrar.last_reward_amount_per_second_rotated_ts == 0
                &&& registrar.current_reward_amount_per_second.0 == 0
            }
        },
{
    if !(voting_config.lockup_saturation_secs > 0) {
        return Err(VsrError::LockupSaturationMustBePositive);
    }
    if !(deposit_config.node_security_deposit > 0) {
        return Err(VsrError::NodeSecurityDepositMustBePositive);
    }
    let mut registrar = Registrar {
        governance_program_id,
        realm,
        realm_authority,
        governing_token_mint,
        voting_config,
        deposit_config,
        current_reward_amount_per_second: u128::new(0),
        last_reward_amount_per_second_rotated_ts: 0,
        reward_accrual_ts: 0,
        reward_index: u128::new(0),
        issued_reward_amount: 0,
        permanently_locked_amount: 0,
        time_offset: 0,
        bump: registrar_bump,
        max_voter_weight_record_bump,
    };

    // Initialize the reward pool.
    let curr_ts: i64 = registrar.clock_unix_timestamp(unix_timestamp);
    registrar.accrue_rewards(curr_ts);

    // Check for overflow in vote weight.
    match registrar.max_vote_weight(total_supply) {
        Ok(_) => Ok(registrar),
        Err(e) => Err(e),
    }
}

/// Creates the account of a depositor. The registrar accrues first, and
/// the voter starts from the registrar's reward index, so that it earns
/// from now on only.
pub fn create_voter(
    registrar: &mut Registrar,
    voter_authority: Pubkey,
    registrar_key: Pubkey,
    voter_bump: u8,
    voter_weight_record_bump: u8,
    unix_timestamp: i64,
) -> (voter: Voter)
    requires
        clock_pre(*old(registrar), unix_timestamp),
        old(registrar).accrue_pre(spec_now(*old(registrar), unix_timestamp)),
    ensures
        *final(registrar) == old(registrar).spec_accrue_rewards(
            spec_now(*old(registrar), unix_timestamp),
        ),
        voter@ == (VoterView {
            voter_authority,
            registrar: registrar_key,
            deposits: Seq::new(16, |i: int| DepositEntry::spec_default()),
            reward_index: final(registrar).reward_index,
            reward_claimable_amount: 0,
            voter_bump,
            voter_weight_record_bump,
        }),
        voter@.spec_permanently_deposited() == 0,
        final(registrar).reward_accrual_ts == unix_timestamp + old(registrar).time_offset,
        final(registrar).permanently_locked_amount == old(registrar).permanently_locked_amount,
        final(registrar).reward_index.0 >= old(registrar).reward_index.0,
{
    let curr_ts: i64 = registrar.clock_unix_timestamp(unix_timestamp);
    registrar.accrue_rewards(curr_ts);
    let voter = Voter::new(
        voter_authority,
        registrar_key,
        registrar.reward_index,
        voter_bump,
        voter_weight_record_bump,
    );
    proof {
        voter@.lemma_unused_holds_nothing();
    }
    voter
}

/// The registrar after `update_voting_config`.
pub open spec fn spec_update_voting_config(
    registrar: Registrar,
    voting_config: VotingConfig,
    total_supply: u64,
) -> Result<Registrar, VsrError> {
    if !(voting_config.lockup_saturation_secs > 0) {
        Err(VsrError::LockupSaturationMustBePositive)
    } else {
        let updated = Registrar { voting_config, ..registrar };
        match updated.spec_max_vote_weight(total_supply) {
            Ok(_) => Ok(updated),
            Err(e) => Err(e),
        }
    }
}

/// Replaces the voting configuration. The saturation must be positive
/// and the vote weight of the whole supply must fit 64 bits; a failed
/// call changes nothing.
pub fn update_voting_config(
    registrar: &mut Registrar,
    voting_config: VotingConfig,
    total_supply: u64,
) -> (res: Result<(), VsrError>)
    ensures
        match spec_update_voting_config(*old(registrar), voting_config, total_supply) {
            Ok(r) => res is Ok && *final(registrar) == r,
            Err(e) => res == Err::<(), VsrError>(e) && *final(registrar) == *old(registrar),
        },
{
    if !(voting_config.lockup_saturation_secs > 0) {
        return Err(VsrError::LockupSaturationMustBePositive);
    }
    let mut updated: Registrar = *registrar;
    updated.voting_config = voting_config;

    // Check for overflow in vote weight.
    match updated.max_vote_weight(total_supply) {
        Ok(_) => {
            *registrar = updated;
            Ok(())
        },
        Err(e) => Err(e),
    }
}

/// Replaces the deposit configuration. The node deposit must be
/// positive; a failed call changes nothing.
pub fn update_deposit_config(registrar: &mut Registrar, deposit_config: DepositConfig) -> (res:
    Result<(), VsrError>)
    ensures
        deposit_config.node_security_deposit > 0 ==> res is Ok && *final(registrar) == (Registrar {
            deposit_config,
            ..*old(registrar)
        }),
        !(deposit_config.node_security_deposit > 0) ==> res == Err::<(), VsrError>(
            VsrError::NodeSecurityDepositMustBePositive,
        ) && *final(registrar) == *old(registrar),
{
    if !(deposit_config.node_security_deposit > 0) {
        return Err(VsrError::NodeSecurityDepositMustBePositive);
    }
    registrar.deposit_config = deposit_config;
    Ok(())
}

/// The voter and the registrar after `node_deposit` at the registry
/// time `curr_ts`: the registrar has accrued, and the reserved entry,
/// which must be unused, holds the node deposit under a constant lockup
/// of the configured length that starts now.
pub open spec fn spec_node_deposit(voter: VoterView, registrar: Registrar, curr_ts: i64) -> Result<
    (VoterView, Registrar),
    VsrError,
> {
    if voter.deposits[NODE_DEPOSIT_ENTRY_INDEX as int].is_active {
        Err(VsrError::DuplicateNodeDeposit)
    } else {
        let accrued = registrar.spec_accrue_rewards(curr_ts);
        match Lockup::spec_new_from_kind(
            LockupKind {
                duration: registrar.deposit_config.node_deposit_lockup_duration,
                kind: LockupKindKind::Constant,
            },
            curr_ts,
            curr_ts,
        ) {
            Err(e) => Err(e),
            Ok(lockup) => match voter.spec_activate(
                NODE_DEPOSIT_ENTRY_INDEX,
                curr_ts,
                lockup,
                accrued,
            ) {
                Err(e) => Err(e),
                Ok((activated, r)) => activated.spec_deposit(
                    NODE_DEPOSIT_ENTRY_INDEX,
                    curr_ts,
                    registrar.deposit_config.node_security_deposit,
                    r,
                ),
            },
        }
    }
}

/// `node_deposit` can be computed: each of its steps can, in its turn.
pub open spec fn node_deposit_pre(voter: VoterView, registrar: Registrar, curr_ts: i64) -> bool {
    !voter.deposits[NODE_DEPOSIT_ENTRY_INDEX as int].is_active ==> {
        let accrued = registrar.spec_accrue_rewards(curr_ts);
        &&& registrar.accrue_pre(curr_ts)
        &&& match Lockup::spec_new_from_kind(
            LockupKind {
                duration: registrar.deposit_config.node_deposit_lockup_duration,
                kind: LockupKindKind::Constant,
            },
            curr_ts,
            curr_ts,
        ) {
            Err(_) => true,
            Ok(lockup) => {
                &&& voter.accrue_pre(curr_ts, accrued)
                &&& match voter.spec_activate(
                    NODE_DEPOSIT_ENTRY_INDEX,
                    curr_ts,
                    lockup,
                    accrued,
                ) {
                    Err(_) => true,
                    Ok((activated, r)) => activated.deposit_pre(
                        NODE_DEPOSIT_ENTRY_INDEX,
                        curr_ts,
                        registrar.deposit_config.node_security_deposit,
                        r,
                    ),
                }
            },
        }
    }
}

/// Makes the node deposit of the voter: the configured amount, locked
/// for the configured time in the reserved entry. Returns the lockup of
/// the entry. A failed call changes nothing.
pub fn node_deposit(registrar: &mut Registrar, voter: &mut Voter, unix_timestamp: i64) -> (res:
    Result<Lockup, VsrError>)
    requires
        clock_pre(*old(registrar), unix_timestamp),
        node_deposit_pre(
            old(voter)@,
            *old(registrar),
            spec_now(*old(registrar), unix_timestamp),
        ),
    ensures
        match spec_node_deposit(
            old(voter)@,
            *old(registrar),
            spec_now(*old(registrar), unix_timestamp),
        ) {
            Ok((v, r)) => res == Ok::<Lockup, VsrError>(
                v.deposits[NODE_DEPOSIT_ENTRY_INDEX as int].lockup,
            ) && final(voter)@ == v && *final(registrar) == r,
            Err(e) => res == Err::<Lockup, VsrError>(e) && *final(voter) == *old(voter)
                && *final(registrar) == *old(registrar),
        },
        final(registrar).permanently_locked_amount - old(registrar).permanently_locked_amount
            == final(voter)@.spec_permanently_deposited()
            - old(voter)@.spec_permanently_deposited(),
        res matches Ok(lockup) ==> {
            &&& lockup == (Lockup {
                kind: LockupKind {
                    duration: old(registrar).deposit_config.node_deposit_lockup_duration,
                    kind: LockupKindKind::Constant,
                },
                start_ts: spec_now(*old(registrar), unix_timestamp),
            })
            &&& final(voter).deposits[NODE_DEPOSIT_ENTRY_INDEX as int] == (DepositEntry {
                lockup,
                amount_deposited_native: old(registrar).deposit_config.node_security_deposit,
                amount_initially_locked_native: old(registrar).deposit_config.node_security_deposit,
                is_active: true,
            })
            &&& final(registrar).permanently_locked_amount == old(registrar).permanently_locked_amount + old(registrar).deposit_config.node_security_deposit
        },
{
    let curr_ts: i64 = registrar.clock_unix_timestamp(unix_timestamp);
    if voter.deposits[NODE_DEPOSIT_ENTRY_INDEX as usize].is_active() {
        return Err(VsrError::DuplicateNodeDeposit);
    }
    let mut r: Registrar = *registrar;
    let mut v: Voter = *voter;

    r.accrue_rewards(curr_ts);

    let node_security_deposit: u64 = r.deposit_config.node_security_deposit;
    let lockup: Lockup = match Lockup::new_from_kind(
        LockupKind::constant(r.deposit_config.node_deposit_lockup_duration),
        curr_ts,
        curr_ts,
    ) {
        Ok(l) => l,
        Err(e) => {
            return Err(e);
        },
    };
    match v.activate(NODE_DEPOSIT_ENTRY_INDEX, curr_ts, lockup, &mut r) {
        Ok(()) => {},
        Err(e) => {
            return Err(e);
        },
    }
    match v.deposit(NODE_DEPOSIT_ENTRY_INDEX, curr_ts, node_security_deposit, &mut r) {
        Ok(()) => {},
        Err(e) => {
            return Err(e);
        },
    }
    *registrar = r;
    *voter = v;
    Ok(v.deposits[NODE_DEPOSIT_ENTRY_INDEX as usize].get_lockup())
}

/// The voter after `claim_reward` at the registry time `curr_ts`, with
/// the registrar and the amount that is paid out.
pub open spec fn spec_claim_reward(voter: VoterView, registrar: Registrar, curr_ts: i64) -> Result<
    (VoterView, Registrar, u64),
    VsrError,
> {
    let accrued = registrar.spec_accrue_rewards(curr_ts);
    match voter.spec_claim_reward(curr_ts, accrued) {
        Err(e) => Err(e),
        Ok((v, claimed)) => Ok((v, accrued, claimed)),
    }
}

/// Brings the registrar forward, settles the voter's rewards and pays
/// out all that the voter can claim. Returns the amount to transfer.
pub fn claim_reward(registrar: &mut Registrar, voter: &mut Voter, unix_timestamp: i64) -> (res:
    Result<u64, VsrError>)
    requires
        clock_pre(*old(registrar), unix_timestamp),
        old(registrar).accrue_pre(spec_now(*old(registrar), unix_timestamp)),
        old(voter)@.accrue_pre(
            spec_now(*old(registrar), unix_timestamp),
            old(registrar).spec_accrue_rewards(spec_now(*old(registrar), unix_timestamp)),
        ),
    ensures
        match spec_claim_reward(
            old(voter)@,
            *old(registrar),
            spec_now(*old(registrar), unix_timestamp),
        ) {
            Ok((v, r, claimed)) => res == Ok::<u64, VsrError>(claimed) && final(voter)@ == v
                && *final(registrar) == r,
            Err(e) => res == Err::<u64, VsrError>(e) && *final(voter) == *old(voter)
                && *final(registrar) == *old(registrar),
        },
        res is Ok,
        final(voter).reward_claimable_amount == 0,
        final(voter).deposits == old(voter).deposits,
        final(registrar).permanently_locked_amount == old(registrar).permanently_locked_amount,
        res matches Ok(claimed) ==> {
            &&& claimed == old(voter)@.spec_settled_claimable(
                spec_now(*old(registrar), unix_timestamp),
                *final(registrar),
            )
            &&& claimed >= old(voter).reward_claimable_amount
        },
{
    let curr_ts: i64 = registrar.clock_unix_timestamp(unix_timestamp);
    let mut r: Registrar = *registrar;
    let mut v: Voter = *voter;
    r.accrue_rewards(curr_ts);
    match v.claim_reward(curr_ts, &mut r) {
        Ok(claimed_amount) => {
            *registrar = r;
            *voter = v;
            Ok(claimed_amount)
        },
        Err(e) => Err(e),
    }
}

/// The lockup that an ordinary deposit of the given length gets at the
/// registry time `curr_ts`: a constant one that starts now.
pub open spec fn spec_ordinary_lockup(duration: LockupTimeDuration, curr_ts: i64) -> Result<
    Lockup,
    VsrError,
> {
    Lockup::spec_new_from_kind(
        LockupKind { duration, kind: LockupKindKind::Constant },
        curr_ts,
        curr_ts,
    )
}

/// The voter and the registrar after the entry at `index`, in use
/// under a constant lockup, was locked anew under `lockup` with
/// `amount` more in it.
pub open spec fn spec_relock(
    voter: VoterView,
    registrar: Registrar,
    curr_ts: i64,
    index: u8,
    amount: u64,
    lockup: Lockup,
) -> Result<(VoterView, Registrar), VsrError> {
    match voter.spec_deactivate(index, curr_ts, registrar) {
        Err(e) => Err(e),
        Ok((emptied, r)) => match emptied.spec_activate(index, curr_ts, lockup, r) {
            Err(e) => Err(e),
            Ok((activated, r)) => activated.spec_deposit(
                index,
                curr_ts,
                (voter.deposits[index as int].amount_deposited_native + amount) as u64,
                r,
            ),
        },
    }
}

/// The steps of `spec_relock` can be computed, each in its turn.
pub open spec fn relock_pre(
    voter: VoterView,
    registrar: Registrar,
    curr_ts: i64,
    index: u8,
    amount: u64,
    lockup: Lockup,
) -> bool {
    &&& voter.deposits[index as int].amount_deposited_native + amount <= u64::MAX
    &&& voter.deactivate_pre(index, curr_ts, registrar)
    &&& match voter.spec_deactivate(index, curr_ts, registrar) {
        Err(_) => true,
        Ok((emptied, r)) => {
            &&& emptied.accrue_pre(curr_ts, r)
            &&& match emptied.spec_activate(index, curr_ts, lockup, r) {
                Err(_) => true,
                Ok((activated, r)) => activated.deposit_pre(
                    index,
                    curr_ts,
                    (voter.deposits[index as int].amount_deposited_native + amount) as u64,
                    r,
                ),
            }
        },
    }
}

/// The voter and the registrar after the unused entry at `index` was
/// taken into use under `lockup` with `amount` in it.
pub open spec fn spec_open_entry(
    voter: VoterView,
    registrar: Registrar,
    curr_ts: i64,
    index: u8,
    amount: u64,
    lockup: Lockup,
) -> Result<(VoterView, Registrar), VsrError> {
    match voter.spec_activate(index, curr_ts, lockup, registrar) {
        Err(e) => Err(e),
        Ok((activated, r)) => activated.spec_deposit(index, curr_ts, amount, r),
    }
}

/// The steps of `spec_open_entry` can be computed, each in its turn.
pub open spec fn open_entry_pre(
    voter: VoterView,
    registrar: Registrar,
    curr_ts: i64,
    index: u8,
    amount: u64,
    lockup: Lockup,
) -> bool {
    &&& voter.accrue_pre(curr_ts, registrar)
    &&& match voter.spec_activate(index, curr_ts, lockup, registrar) {
        Err(_) => true,
        Ok((activated, r)) => activated.deposit_pre(index, curr_ts, amount, r),
    }
}

/// The voter and the registrar after `ordinary_deposit` at the registry
/// time `curr_ts`. The reserved entry is refused, and a lockup shorter
/// than the configured minimum. An unused entry is taken into use. An
/// entry in use must be under a constant lockup that has never vested,
/// and its lockup cannot get shorter: with the same length it takes the
/// deposit, with another its whole content is locked anew under the new
/// length.
pub open spec fn spec_ordinary_deposit(
    voter: VoterView,
    registrar: Registrar,
    curr_ts: i64,
    index: u8,
    amount: u64,
    duration: LockupTimeDuration,
) -> Result<(VoterView, Registrar), VsrError> {
    if index == NODE_DEPOSIT_ENTRY_INDEX {
        Err(VsrError::NodeDepositReservedEntryIndex)
    } else if !(duration.spec_seconds()
        >= registrar.deposit_config.ordinary_deposit_min_lockup_duration.spec_seconds()) {
        Err(VsrError::InvalidLockupDuration)
    } else {
        match spec_ordinary_lockup(duration, curr_ts) {
            Err(e) => Err(e),
            Ok(lockup) => {
                let accrued = registrar.spec_accrue_rewards(curr_ts);
                if index >= voter.deposits.len() {
                    Err(VsrError::OutOfBoundsDepositEntryIndex)
                } else {
                    let d = voter.deposits[index as int];
                    if !d.is_active {
                        spec_open_entry(voter, accrued, curr_ts, index, amount, lockup)
                    } else if d.lockup.kind.kind != LockupKindKind::Constant {
                        Err(VsrError::InternalProgramError)
                    } else if d.amount_deposited_native != d.amount_initially_locked_native {
                        Err(VsrError::InternalProgramError)
                    } else if d.lockup.kind.duration.spec_seconds() > duration.spec_seconds() {
                        Err(VsrError::CanNotShortenLockupDuration)
                    } else if d.lockup.kind.duration != duration {
                        spec_relock(voter, accrued, curr_ts, index, amount, lockup)
                    } else {
                        voter.spec_deposit(index, curr_ts, amount, accrued)
                    }
                }
            },
        }
    }
}

/// `ordinary_deposit` can be computed: the lengths are representable,
/// and so is each step that is taken.
pub open spec fn ordinary_deposit_pre(
    voter: VoterView,
    registrar: Registrar,
    curr_ts: i64,
    index: u8,
    amount: u64,
    duration: LockupTimeDuration,
) -> bool {
    index != NODE_DEPOSIT_ENTRY_INDEX ==> {
        &&& duration.spec_seconds() <= u64::MAX
        &&& registrar.deposit_config.ordinary_deposit_min_lockup_duration.spec_seconds()
            <= u64::MAX
        &&& duration.spec_seconds()
            >= registrar.deposit_config.ordinary_deposit_min_lockup_duration.spec_seconds()
            ==> match spec_ordinary_lockup(duration, curr_ts) {
            Err(_) => true,
            Ok(lockup) => {
                let accrued = registrar.spec_accrue_rewards(curr_ts);
                &&& registrar.accrue_pre(curr_ts)
                &&& index < voter.deposits.len() ==> {
                    let d = voter.deposits[index as int];
                    if !d.is_active {
                        open_entry_pre(voter, accrued, curr_ts, index, amount, lockup)
                    } else {
                        d.lockup.kind.kind == LockupKindKind::Constant && d.amount_deposited_native
                            == d.amount_initially_locked_native ==> {
                            &&& d.lockup.kind.duration.spec_seconds() <= u64::MAX
                            &&& d.lockup.kind.duration.spec_seconds() <= duration.spec_seconds()
                                ==> if d.lockup.kind.duration != duration {
                                relock_pre(voter, accrued, curr_ts, index, amount, lockup)
                            } else {
                                voter.deposit_pre(index, curr_ts, amount, accrued)
                            }
                        }
                    }
                }
            },
        }
    }
}

/// Adds tokens to an ordinary deposit entry, or opens one. Returns the
/// lockup of the entry. A failed call changes nothing.
///
/// `deposit_entry_index`: index of the deposit entry.
/// `amount`: number of native tokens that were transferred in.
/// `duration`: the lockup duration to have from now on.
pub fn ordinary_deposit(
    registrar: &mut Registrar,
    voter: &mut Voter,
    unix_timestamp: i64,
    deposit_entry_index: u8,
    amount: u64,
    duration: LockupTimeDuration,
) -> (res: Result<Lockup, VsrError>)
    requires
        clock_pre(*old(registrar), unix_timestamp),
        ordinary_deposit_pre(
            old(voter)@,
            *old(registrar),
            spec_now(*old(registrar), unix_timestamp),
            deposit_entry_index,
            amount,
            duration,
        ),
    ensures
        match spec_ordinary_deposit(
            old(voter)@,
            *old(registrar),
            spec_now(*old(registrar), unix_timestamp),
            deposit_entry_index,
            amount,
            duration,
        ) {
            Ok((v, r)) => res == Ok::<Lockup, VsrError>(
                v.deposits[deposit_entry_index as int].lockup,
            ) && final(voter)@ == v && *final(registrar) == r,
            Err(e) => res == Err::<Lockup, VsrError>(e) && *final(voter) == *old(voter)
                && *final(registrar) == *old(registrar),
        },
        final(registrar).permanently_locked_amount - old(registrar).permanently_locked_amount
            == final(voter)@.spec_permanently_deposited()
            - old(voter)@.spec_permanently_deposited(),
        res matches Ok(lockup) ==> {
            &&& lockup == final(voter).deposits[deposit_entry_index as int].lockup
            &&& lockup.kind == (LockupKind { duration, kind: LockupKindKind::Constant })
            &&& final(voter).deposits[deposit_entry_index as int].is_active
            &&& final(voter).deposits[deposit_entry_index as int].amount_deposited_native == (if old(voter).deposits[deposit_entry_index as int].is_active {
                old(voter).deposits[deposit_entry_index as int].amount_deposited_native as int
            } else {
                0
            }) + amount
            &&& final(registrar).permanently_locked_amount == old(registrar).permanently_locked_amount + amount
        },
{
    if deposit_entry_index == NODE_DEPOSIT_ENTRY_INDEX {
        return Err(VsrError::NodeDepositReservedEntryIndex);
    }
    let min_duration: LockupTimeDuration =
        registrar.deposit_config.ordinary_deposit_min_lockup_duration;
    if !(duration.seconds() >= min_duration.seconds()) {
        return Err(VsrError::InvalidLockupDuration);
    }
    let curr_ts: i64 = registrar.clock_unix_timestamp(unix_timestamp);
    let lockup: Lockup = match Lockup::new_from_kind(
        LockupKind::constant(duration),
        curr_ts,
        curr_ts,
    ) {
        Ok(l) => l,
        Err(e) => {
            return Err(e);
        },
    };
    let mut r: Registrar = *registrar;
    let mut v: Voter = *voter;

    r.accrue_rewards(curr_ts);

    let mut amount_to_deposit: u64 = amount;
    let active: bool = match v.is_active(deposit_entry_index) {
        Ok(a) => a,
        Err(e) => {
            return Err(e);
        },
    };
    if active {
        let d_entry: DepositEntry = v.deposits[deposit_entry_index as usize];
        let lockup_kind: LockupKind = d_entry.get_lockup().kind;
        match lockup_kind.kind {
            LockupKindKind::Constant => {
                if d_entry.get_amount_deposited_native()
                    != d_entry.get_amount_initially_locked_native() {
                    return Err(VsrError::InternalProgramError);
                }
                let old_duration: LockupTimeDuration = lockup_kind.duration;
                if old_duration.seconds() > duration.seconds() {
                    return Err(VsrError::CanNotShortenLockupDuration);
                }
                if old_duration != duration {
                    amount_to_deposit = d_entry.get_amount_deposited_native().checked_add(
                        amount,
                    ).unwrap();
                    match v.deactivate(deposit_entry_index, curr_ts, &mut r) {
                        Ok(()) => {},
                        Err(e) => {
                            return Err(e);
                        },
                    }
                    match v.activate(deposit_entry_index, curr_ts, lockup, &mut r) {
                        Ok(()) => {},
                        Err(e) => {
                            return Err(e);
                        },
                    }
                }
            },
            _ => {
                return Err(VsrError::InternalProgramError);
            },
        }
    } else {
        match v.activate(deposit_entry_index, curr_ts, lockup, &mut r) {
            Ok(()) => {},
            Err(e) => {
                return Err(e);
            },
        }
    }
    match v.deposit(deposit_entry_index, curr_ts, amount_to_deposit, &mut r) {
        Ok(()) => {},
        Err(e) => {
            return Err(e);
        },
    }
    *registrar = r;
    *voter = v;
    Ok(v.deposits[deposit_entry_index as usize].get_lockup())
}

/// The lockup that released funds get at the registry time `curr_ts`:
/// a vesting one of the length that they were locked for, which starts
/// now.
pub open spec fn spec_release_lockup(duration: LockupTimeDuration, curr_ts: i64) -> Result<
    Lockup,
    VsrError,
> {
    Lockup::spec_new_from_kind(Lockup::spec_kind_of_duration(duration), curr_ts, curr_ts)
}

/// The voter and the registrar after `node_release_deposit` at the
/// registry time `curr_ts`: once the lockup of the node deposit has
/// run its length, the reserved entry is given up and what it held
/// vests in the unused entry at `target_index`.
pub open spec fn spec_node_release_deposit(
    voter: VoterView,
    registrar: Registrar,
    curr_ts: i64,
    target_index: u8,
) -> Result<(VoterView, Registrar), VsrError> {
    let d = voter.deposits[NODE_DEPOSIT_ENTRY_INDEX as int];
    if !d.is_active {
        Err(VsrError::InactiveDepositEntry)
    } else if target_index >= voter.deposits.len() {
        Err(VsrError::OutOfBoundsDepositEntryIndex)
    } else if voter.deposits[target_index as int].is_active {
        Err(VsrError::ActiveDepositEntryIndex)
    } else if d.lockup.kind.kind != LockupKindKind::Constant {
        Err(VsrError::InternalProgramError)
    } else if curr_ts < d.lockup.spec_end_ts() {
        Err(VsrError::NodeDepositUnreleasableAtPresent)
    } else {
        let accrued = registrar.spec_accrue_rewards(curr_ts);
        match voter.spec_deactivate(NODE_DEPOSIT_ENTRY_INDEX, curr_ts, accrued) {
            Err(e) => Err(e),
            Ok((emptied, r)) => match spec_release_lockup(d.lockup.kind.duration, curr_ts) {
                Err(e) => Err(e),
                Ok(target_lockup) => spec_open_entry(
                    emptied,
                    r,
                    curr_ts,
                    target_index,
                    d.amount_deposited_native,
                    target_lockup,
                ),
            },
        }
    }
}

/// `node_release_deposit` can be computed: each of its steps can, in
/// its turn.
pub open spec fn node_release_deposit_pre(
    voter: VoterView,
    registrar: Registrar,
    curr_ts: i64,
    target_index: u8,
) -> bool {
    let d = voter.deposits[NODE_DEPOSIT_ENTRY_INDEX as int];
    d.is_active && target_index < voter.deposits.len()
        && !voter.deposits[target_index as int].is_active ==> {
        let accrued = registrar.spec_accrue_rewards(curr_ts);
        &&& registrar.accrue_pre(curr_ts)
        &&& d.lockup.kind.kind == LockupKindKind::Constant ==> {
            &&& d.lockup.inv()
            &&& curr_ts >= d.lockup.spec_end_ts() ==> {
                &&& voter.deactivate_pre(NODE_DEPOSIT_ENTRY_INDEX, curr_ts, accrued)
                &&& match (
                    voter.spec_deactivate(NODE_DEPOSIT_ENTRY_INDEX, curr_ts, accrued),
                    spec_release_lockup(d.lockup.kind.duration, curr_ts),
                ) {
                    (Ok((emptied, r)), Ok(target_lockup)) => open_entry_pre(
                        emptied,
                        r,
                        curr_ts,
                        target_index,
                        d.amount_deposited_native,
                        target_lockup,
                    ),
                    _ => true,
                }
            }
        }
    }
}

/// Releases the node deposit of the voter into the entry at
/// `target_deposit_entry_index`, where it vests. Returns the amount
/// that was released. A failed call changes nothing.
pub fn node_release_deposit(
    registrar: &mut Registrar,
    voter: &mut Voter,
    unix_timestamp: i64,
    target_deposit_entry_index: u8,
) -> (res: Result<u64, VsrError>)
    requires
        clock_pre(*old(registrar), unix_timestamp),
        node_release_deposit_pre(
            old(voter)@,
            *old(registrar),
            spec_now(*old(registrar), unix_timestamp),
            target_deposit_entry_index,
        ),
    ensures
        match spec_node_release_deposit(
            old(voter)@,
            *old(registrar),
            spec_now(*old(registrar), unix_timestamp),
            target_deposit_entry_index,
        ) {
            Ok((v, r)) => res == Ok::<u64, VsrError>(
                old(voter).deposits[NODE_DEPOSIT_ENTRY_INDEX as int].amount_deposited_native,
            ) && final(voter)@ == v && *final(registrar) == r,
            Err(e) => res == Err::<u64, VsrError>(e) && *final(voter) == *old(voter)
                && *final(registrar) == *old(registrar),
        },
        final(registrar).permanently_locked_amount - old(registrar).permanently_locked_amount
            == final(voter)@.spec_permanently_deposited()
            - old(voter)@.spec_permanently_deposited(),
        res matches Ok(released) ==> {
            &&& released == old(voter).deposits[NODE_DEPOSIT_ENTRY_INDEX as int].amount_deposited_native
            &&& final(voter).deposits[NODE_DEPOSIT_ENTRY_INDEX as int]
                == DepositEntry::spec_default()
            &&& final(voter).deposits[target_deposit_entry_index as int] == (DepositEntry {
                lockup: Lockup {
                    kind: Lockup::spec_kind_of_duration(
                        old(voter).deposits[NODE_DEPOSIT_ENTRY_INDEX as int].lockup.kind.duration,
                    ),
                    start_ts: spec_now(*old(registrar), unix_timestamp),
                },
                amount_deposited_native: released,
                amount_initially_locked_native: released,
                is_active: true,
            })
            &&& final(registrar).permanently_locked_amount == old(registrar).permanently_locked_amount - released
        },
{
    let d_entry: DepositEntry = voter.deposits[NODE_DEPOSIT_ENTRY_INDEX as usize];
    if !d_entry.is_active() {
        return Err(VsrError::InactiveDepositEntry);
    }
    match voter.is_active(target_deposit_entry_index) {
        Ok(false) => {},
        Ok(true) => {
            return Err(VsrError::ActiveDepositEntryIndex);
        },
        Err(e) => {
            return Err(e);
        },
    }
    let curr_ts: i64 = registrar.clock_unix_timestamp(unix_timestamp);
    let mut r: Registrar = *registrar;
    let mut v: Voter = *voter;

    r.accrue_rewards(curr_ts);

    let amount_deposited: u64 = d_entry.get_amount_deposited_native();
    let lockup: Lockup = d_entry.get_lockup();
    let lockup_kind: LockupKind = lockup.kind;
    match lockup_kind.kind {
        LockupKindKind::Constant => {
            if curr_ts < lockup.end_ts() {
                return Err(VsrError::NodeDepositUnreleasableAtPresent);
            }
            match v.deactivate(NODE_DEPOSIT_ENTRY_INDEX, curr_ts, &mut r) {
                Ok(()) => {},
                Err(e) => {
                    return Err(e);
                },
            }
            let target_lockup: Lockup = match Lockup::new_from_duration(
                lockup_kind.duration,
                curr_ts,
                curr_ts,
            ) {
                Ok(l) => l,
                Err(e) => {
                    return Err(e);
                },
            };
            match v.activate(target_deposit_entry_index, curr_ts, target_lockup, &mut r) {
                Ok(()) => {},
                Err(e) => {
                    return Err(e);
                },
            }
            match v.deposit(target_deposit_entry_index, curr_ts, amount_deposited, &mut r) {
                Ok(()) => {},
                Err(e) => {
                    return Err(e);
                },
            }
            *registrar = r;
            *voter = v;
            Ok(amount_deposited)
        },
        _ => Err(VsrError::InternalProgramError),
    }
}

/// The voter and the registrar after the entry at `index`, in use
/// under a constant lockup, has given up `amount` of what it holds:
/// the entry is emptied, and what is to stay is deposited in it again.
pub open spec fn spec_take_out(
    voter: VoterView,
    registrar: Registrar,
    curr_ts: i64,
    index: u8,
    amount: u64,
) -> Result<(VoterView, Registrar), VsrError> {
    let d = voter.deposits[index as int];
    match voter.spec_deactivate(index, curr_ts, registrar) {
        Err(e) => Err(e),
        Ok((emptied, r)) => if d.amount_deposited_native > amount {
            spec_open_entry(
                emptied,
                r,
                curr_ts,
                index,
                (d.amount_deposited_native - amount) as u64,
                d.lockup,
            )
        } else {
            Ok((emptied, r))
        },
    }
}

/// The steps of `spec_take_out` can be computed, each in its turn.
pub open spec fn take_out_pre(
    voter: VoterView,
    registrar: Registrar,
    curr_ts: i64,
    index: u8,
    amount: u64,
) -> bool {
    let d = voter.deposits[index as int];
    &&& voter.deactivate_pre(index, curr_ts, registrar)
    &&& match voter.spec_deactivate(index, curr_ts, registrar) {
        Err(_) => true,
        Ok((emptied, r)) => d.amount_deposited_native > amount ==> open_entry_pre(
            emptied,
            r,
            curr_ts,
            index,
            (d.amount_deposited_native - amount) as u64,
            d.lockup,
        ),
    }
}

/// The voter and the registrar after `ordinary_release_deposit` at the
/// registry time `curr_ts`: `amount` leaves the entry at `index`, which
/// is under a constant lockup, and vests in the unused entry at
/// `target_index` over the length of that lockup.
pub open spec fn spec_ordinary_release_deposit(
    voter: VoterView,
    registrar: Registrar,
    curr_ts: i64,
    index: u8,
    target_index: u8,
    amount: u64,
) -> Result<(VoterView, Registrar), VsrError> {
    if !(amount > 0) {
        Err(VsrError::ZeroAmount)
    } else if !(index != NODE_DEPOSIT_ENTRY_INDEX && target_index != NODE_DEPOSIT_ENTRY_INDEX) {
        Err(VsrError::NodeDepositReservedEntryIndex)
    } else if index >= voter.deposits.len() {
        Err(VsrError::OutOfBoundsDepositEntryIndex)
    } else {
        let d = voter.deposits[index as int];
        if !d.is_active {
            Err(VsrError::InactiveDepositEntry)
        } else if d.lockup.kind.kind != LockupKindKind::Constant {
            Err(VsrError::NotOrdinaryDepositEntry)
        } else if !(d.amount_deposited_native >= amount) {
            Err(VsrError::InsufficientLockedTokens)
        } else {
            let accrued = registrar.spec_accrue_rewards(curr_ts);
            match spec_take_out(voter, accrued, curr_ts, index, amount) {
                Err(e) => Err(e),
                Ok((taken, r)) => if target_index >= taken.deposits.len() {
                    Err(VsrError::OutOfBoundsDepositEntryIndex)
                } else if taken.deposits[target_index as int].is_active {
                    Err(VsrError::ActiveDepositEntryIndex)
                } else {
                    match spec_release_lockup(d.lockup.kind.duration, curr_ts) {
                        Err(e) => Err(e),
                        Ok(target_lockup) => spec_open_entry(
                            taken,
                            r,
                            curr_ts,
                            target_index,
                            amount,
                            target_lockup,
                        ),
                    }
                },
            }
        }
    }
}

/// `ordinary_release_deposit` can be computed: each of its steps can,
/// in its turn.
pub open spec fn ordinary_release_deposit_pre(
    voter: VoterView,
    registrar: Registrar,
    curr_ts: i64,
    index: u8,
    target_index: u8,
    amount: u64,
) -> bool {
    amount > 0 && index != NODE_DEPOSIT_ENTRY_INDEX && target_index != NODE_DEPOSIT_ENTRY_INDEX
        && index < voter.deposits.len() && voter.deposits[index as int].is_active ==> {
        let d = voter.deposits[index as int];
        let accrued = registrar.spec_accrue_rewards(curr_ts);
        &&& registrar.accrue_pre(curr_ts)
        &&& d.lockup.kind.kind == LockupKindKind::Constant && d.amount_deposited_native
            >= amount ==> {
            &&& take_out_pre(voter, accrued, curr_ts, index, amount)
            &&& match (
                spec_take_out(voter, accrued, curr_ts, index, amount),
                spec_release_lockup(d.lockup.kind.duration, curr_ts),
            ) {
                (Ok((taken, r)), Ok(target_lockup)) => target_index < taken.deposits.len()
                    && !taken.deposits[target_index as int].is_active ==> open_entry_pre(
                    taken,
                    r,
                    curr_ts,
                    target_index,
                    amount,
                    target_lockup,
                ),
                _ => true,
            }
        }
    }
}

/// Releases `amount` from the ordinary deposit at `deposit_entry_index`
/// into the entry at `target_deposit_entry_index`, where it vests. A
/// failed call changes nothing.
pub fn ordinary_release_deposit(
    registrar: &mut Registrar,
    voter: &mut Voter,
    unix_timestamp: i64,
    deposit_entry_index: u8,
    target_deposit_entry_index: u8,
    amount: u64,
) -> (res: Result<(), VsrError>)
    requires
        clock_pre(*old(registrar), unix_timestamp),
        ordinary_release_deposit_pre(
            old(voter)@,
            *old(registrar),
            spec_now(*old(registrar), unix_timestamp),
            deposit_entry_index,
            target_deposit_entry_index,
            amount,
        ),
    ensures
        match spec_ordinary_release_deposit(
            old(voter)@,
            *old(registrar),
            spec_now(*old(registrar), unix_timestamp),
            deposit_entry_index,
            target_deposit_entry_index,
            amount,
        ) {
            Ok((v, r)) => res is Ok && final(voter)@ == v && *final(registrar) == r,
            Err(e) => res == Err::<(), VsrError>(e) && *final(voter) == *old(voter)
                && *final(registrar) == *old(registrar),
        },
        final(registrar).permanently_locked_amount - old(registrar).permanently_locked_amount
            == final(voter)@.spec_permanently_deposited()
            - old(voter)@.spec_permanently_deposited(),
        res is Ok ==> {
            &&& final(voter).deposits[target_deposit_entry_index as int] == (DepositEntry {
                lockup: Lockup {
                    kind: Lockup::spec_kind_of_duration(
                        old(voter).deposits[deposit_entry_index as int].lockup.kind.duration,
                    ),
                    start_ts: spec_now(*old(registrar), unix_timestamp),
                },
                amount_deposited_native: amount,
                amount_initially_locked_native: amount,
                is_active: true,
            })
            &&& deposit_entry_index != target_deposit_entry_index ==> final(voter).deposits[deposit_entry_index as int].amount_deposited_native == old(voter).deposits[deposit_entry_index as int].amount_deposited_native - amount
            &&& final(registrar).permanently_locked_amount == old(registrar).permanently_locked_amount - amount
        },
{
    if !(amount > 0) {
        return Err(VsrError::ZeroAmount);
    }
    if !(deposit_entry_index != NODE_DEPOSIT_ENTRY_INDEX && target_deposit_entry_index
        != NODE_DEPOSIT_ENTRY_INDEX) {
        return Err(VsrError::NodeDepositReservedEntryIndex);
    }
    let d_entry: DepositEntry = match voter.deposit_entry_at(deposit_entry_index) {
        Ok(d) => *d,
        Err(e) => {
            return Err(e);
        },
    };
    if !d_entry.is_active() {
        return Err(VsrError::InactiveDepositEntry);
    }
    let curr_ts: i64 = registrar.clock_unix_timestamp(unix_timestamp);
    let mut r: Registrar = *registrar;
    let mut v: Voter = *voter;

    r.accrue_rewards(curr_ts);

    let lockup: Lockup = d_entry.get_lockup();
    let lockup_kind: LockupKind = lockup.kind;
    match lockup_kind.kind {
        LockupKindKind::Constant => {
            let amount_deposited_native: u64 = d_entry.get_amount_deposited_native();
            if !(amount_deposited_native >= amount) {
                return Err(VsrError::InsufficientLockedTokens);
            }
            match v.deactivate(deposit_entry_index, curr_ts, &mut r) {
                Ok(()) => {},
                Err(e) => {
                    return Err(e);
                },
            }
            if amount_deposited_native > amount {
                match v.activate(deposit_entry_index, curr_ts, lockup, &mut r) {
                    Ok(()) => {},
                    Err(e) => {
                        return Err(e);
                    },
                }
                match v.deposit(
                    deposit_entry_index,
                    curr_ts,
                    amount_deposited_native - amount,
                    &mut r,
                ) {
                    Ok(()) => {},
                    Err(e) => {
                        return Err(e);
                    },
                }
            }
            match v.is_active(target_deposit_entry_index) {
                Ok(false) => {},
                Ok(true) => {
                    return Err(VsrError::ActiveDepositEntryIndex);
                },
                Err(e) => {
                    return Err(e);
                },
            }
            let target_lockup: Lockup = match Lockup::new_from_duration(
                lockup_kind.duration,
                curr_ts,
                curr_ts,
            ) {
                Ok(l) => l,
                Err(e) => {
                    return Err(e);
                },
            };
            match v.activate(target_deposit_entry_index, curr_ts, target_lockup, &mut r) {
                Ok(()) => {},
                Err(e) => {
                    return Err(e);
                },
            }
            match v.deposit(target_deposit_entry_index, curr_ts, amount, &mut r) {
                Ok(()) => {},
                Err(e) => {
                    return Err(e);
                },
            }
            *registrar = r;
            *voter = v;
            Ok(())
        },
        _ => Err(VsrError::NotOrdinaryDepositEntry),
    }
}

/// The voter and the registrar after `withdraw` at the registry time
/// `curr_ts`, with the vote weight that the voter has left: the entry
/// at `index`, which must be in use, gives up `amount` of what is
/// unlocked in it, and is given up itself once it is empty. What leaves
/// an entry under a constant lockup leaves the registrar's permanently
/// locked amount.
pub open spec fn spec_withdraw(
    voter: VoterView,
    registrar: Registrar,
    curr_ts: i64,
    index: u8,
    amount: u64,
) -> Result<(VoterView, Registrar, u64), VsrError> {
    if index >= voter.deposits.len() {
        Err(VsrError::OutOfBoundsDepositEntryIndex)
    } else if !voter.deposits[index as int].is_active {
        Err(VsrError::InactiveDepositEntry)
    } else {
        let accrued = registrar.spec_accrue_rewards(curr_ts);
        match voter.spec_withdraw(index, curr_ts, amount, accrued) {
            Err(e) => Err(e),
            Ok((withdrawn, counted)) => {
                let emptied = if withdrawn.deposits[index as int].amount_deposited_native == 0 {
                    withdrawn.spec_deactivate(index, curr_ts, counted)
                } else {
                    Ok((withdrawn, counted))
                };
                match emptied {
                    Err(e) => Err(e),
                    Ok((v, r)) => match v.spec_weight(curr_ts, r) {
                        Err(e) => Err(e),
                        Ok(weight) => Ok((v, r, weight as u64)),
                    },
                }
            },
        }
    }
}

/// `withdraw` can be computed: each of its steps can, in its turn.
pub open spec fn withdraw_pre(
    voter: VoterView,
    registrar: Registrar,
    curr_ts: i64,
    index: u8,
    amount: u64,
) -> bool {
    index < voter.deposits.len() && voter.deposits[index as int].is_active ==> {
        let accrued = registrar.spec_accrue_rewards(curr_ts);
        &&& registrar.accrue_pre(curr_ts)
        &&& voter.withdraw_pre(index, curr_ts, amount, accrued)
        &&& match voter.spec_withdraw(index, curr_ts, amount, accrued) {
            Err(_) => true,
            Ok((withdrawn, counted)) => {
                &&& withdrawn.deposits[index as int].amount_deposited_native == 0
                    ==> withdrawn.deactivate_pre(index, curr_ts, counted)
                &&& match if withdrawn.deposits[index as int].amount_deposited_native == 0 {
                    withdrawn.spec_deactivate(index, curr_ts, counted)
                } else {
                    Ok((withdrawn, counted))
                } {
                    Err(_) => true,
                    Ok((v, r)) => v.weight_pre(curr_ts, r),
                }
            },
        }
    }
}

/// Withdraws `amount` unlocked tokens from the entry at
/// `deposit_entry_index`. Returns the vote weight that the voter has
/// afterwards, for its voter weight record. A failed call changes
/// nothing.
pub fn withdraw(
    registrar: &mut Registrar,
    voter: &mut Voter,
    unix_timestamp: i64,
    deposit_entry_index: u8,
    amount: u64,
) -> (res: Result<u64, VsrError>)
    requires
        clock_pre(*old(registrar), unix_timestamp),
        withdraw_pre(
            old(voter)@,
            *old(registrar),
            spec_now(*old(registrar), unix_timestamp),
            deposit_entry_index,
            amount,
        ),
    ensures
        match spec_withdraw(
            old(voter)@,
            *old(registrar),
            spec_now(*old(registrar), unix_timestamp),
            deposit_entry_index,
            amount,
        ) {
            Ok((v, r, weight)) => res == Ok::<u64, VsrError>(weight) && final(voter)@ == v
                && *final(registrar) == r,
            Err(e) => res == Err::<u64, VsrError>(e) && *final(voter) == *old(voter)
                && *final(registrar) == *old(registrar),
        },
        final(registrar).permanently_locked_amount - old(registrar).permanently_locked_amount
            == final(voter)@.spec_permanently_deposited()
            - old(voter)@.spec_permanently_deposited(),
        res matches Ok(weight) ==> final(voter)@.spec_weight(
            spec_now(*old(registrar), unix_timestamp),
            *final(registrar),
        ) == Ok::<int, VsrError>(weight as int),
        res is Ok ==> final(registrar).permanently_locked_amount == if old(voter).deposits[deposit_entry_index as int].lockup.spec_is_vesting() {
            old(registrar).permanently_locked_amount as int
        } else {
            old(registrar).permanently_locked_amount - amount
        },
{
    match voter.is_active(deposit_entry_index) {
        Ok(true) => {},
        Ok(false) => {
            return Err(VsrError::InactiveDepositEntry);
        },
        Err(e) => {
            return Err(e);
        },
    }
    let curr_ts: i64 = registrar.clock_unix_timestamp(unix_timestamp);
    let mut r: Registrar = *registrar;
    let mut v: Voter = *voter;

    r.accrue_rewards(curr_ts);

    let entry_amount_deposited_native: u64 = match v.withdraw(
        deposit_entry_index,
        curr_ts,
        amount,
        &mut r,
    ) {
        Ok(n) => n,
        Err(e) => {
            return Err(e);
        },
    };

    // Deactivate the deposit entry if no funds remain.
    if entry_amount_deposited_native == 0 {
        match v.deactivate(deposit_entry_index, curr_ts, &mut r) {
            Ok(()) => {},
            Err(e) => {
                return Err(e);
            },
        }
    }
    let weight: u64 = match v.weight(curr_ts, &r) {
        Ok(w) => w,
        Err(e) => {
            return Err(e);
        },
    };
    *registrar = r;
    *voter = v;
    Ok(weight)
}

/// The vote weight of the voter at the host time `unix_timestamp`: what
/// its voter weight record must carry. The weight falls as the lockups
/// run down, so that it is to be computed anew right before each use.
pub fn update_voter_weight_record(registrar: &Registrar, voter: &Voter, unix_timestamp: i64) -> (res:
    Result<u64, VsrError>)
    requires
        clock_pre(*registrar, unix_timestamp),
        voter@.weight_pre(spec_now(*registrar, unix_timestamp), *registrar),
    ensures
        res == Voter::checked_sum(
            voter@.spec_weight(spec_now(*registrar, unix_timestamp), *registrar),
        ),
        voter@.spec_weight(spec_now(*registrar, unix_timestamp), *registrar) matches Ok(sum) ==> 0
            <= sum <= u64::MAX,
{
    let curr_ts: i64 = registrar.clock_unix_timestamp(unix_timestamp);
    voter.weight(curr_ts, registrar)
}

/// Whether the account of a voter may be closed: it must hold no
/// tokens and no reward that can be claimed.
pub fn close_voter(voter: &Voter) -> (res: Result<(), VsrError>)
    requires
        voter@.spec_amount_deposited_native() <= u64::MAX,
    ensures
        voter@.spec_amount_deposited_native() == 0 && voter.reward_claimable_amount == 0
            ==> res is Ok,
        !(voter@.spec_amount_deposited_native() == 0 && voter.reward_claimable_amount == 0)
            ==> res == Err::<(), VsrError>(VsrError::GoverningTokenNonZero),
{
    let amount: u64 = voter.amount_deposited_native();
    if amount != 0 {
        return Err(VsrError::GoverningTokenNonZero);
    }
    if voter.get_reward_claimable_amount() != 0 {
        return Err(VsrError::GoverningTokenNonZero);
    }
    Ok(())
}

/// The time of the next vesting step of a lockup: its end less the
/// whole periods that follow the current one, and no less than 0.
pub open spec fn spec_next_vesting_timestamp(lockup: Lockup, curr_ts: i64) -> int {
    let periods_after = if lockup.spec_periods_left(curr_ts) >= 1 {
        lockup.spec_periods_left(curr_ts) - 1
    } else {
        0
    };
    let rest = periods_after * lockup.kind.spec_period_secs();
    if lockup.spec_end_ts() >= rest {
        lockup.spec_end_ts() - rest
    } else {
        0
    }
}

/// `info` is what `log_voter_info` reports of the vesting of an entry:
/// nothing for a constant lockup, else the amount of one step, rounded
/// down, and the time of the next one.
pub open spec fn vesting_reported(info: Option<VestingInfo>, d: DepositEntry, curr_ts: i64) -> bool {
    if d.lockup.spec_is_vesting() {
        info matches Some(vesting) && {
            &&& vesting.rate == d.amount_initially_locked_native
                / d.lockup.kind.duration.periods
            &&& vesting.next_timestamp == spec_next_vesting_timestamp(d.lockup, curr_ts)
        }
    } else {
        info is None
    }
}

/// `info` is what `log_voter_info` reports of an entry: nothing of an
/// unused one, else its lockup, what is locked and unlocked in it, and
/// its vote weight with and without the lockup.
pub open spec fn entry_reported(
    info: Option<DepositEntryInfo>,
    d: DepositEntry,
    voting_config: VotingConfig,
    curr_ts: i64,
) -> bool {
    if d.is_active {
        info matches Some(entry) && {
            &&& entry.lockup == d.lockup
            &&& entry.amount_locked == d.spec_amount_locked(curr_ts)
            &&& entry.amount_unlocked == d.spec_amount_unlocked(curr_ts)
            &&& d.spec_voting_power(voting_config, curr_ts) == Ok::<u64, VsrError>(
                entry.voting_power,
            )
            &&& entry.voting_power_baseline == VotingConfig::spec_apply_factor(
                d.amount_deposited_native,
                voting_config.baseline_vote_weight_scaled_factor,
            )
            &&& vesting_reported(entry.vesting, d, curr_ts)
        }
    } else {
        info is None
    }
}

/// An entry can be reported on: it holds what is locked in it, its
/// vote weight can be computed, and where it vests it has a period and
/// an end that is not before the epoch.
pub open spec fn entry_info_pre(d: DepositEntry, voting_config: VotingConfig, curr_ts: i64)
    -> bool {
    d.is_active ==> {
        &&& d.inv_at(curr_ts)
        &&& d.voting_power_pre(voting_config, curr_ts)
        &&& d.spec_voting_power(voting_config, curr_ts) is Ok && d.lockup.spec_is_vesting() ==> {
            &&& d.lockup.kind.duration.periods != 0
            &&& d.lockup.spec_end_ts() >= 0
        }
    }
}

/// The reward that the voter could claim at `curr_ts` beyond what is
/// settled: what it would earn if the registrar accrued now.
pub open spec fn spec_pending_reward(voter: VoterView, registrar: Registrar, curr_ts: i64) -> int {
    ((registrar.reward_index.0 + registrar.spec_reward_index_delta(curr_ts)
        - voter.reward_index.0) * voter.spec_permanently_locked(curr_ts)) / (EXP_SCALE as int)
}

/// The first `n` entries can be reported on, up to the first whose
/// vote weight fails.
pub open spec fn entry_infos_pre(
    entries: Seq<DepositEntry>,
    voting_config: VotingConfig,
    curr_ts: i64,
    n: nat,
) -> bool
    decreases n,
{
    n == 0 || (entry_infos_pre(entries, voting_config, curr_ts, (n - 1) as nat) && (try_sum(
        entries,
        weight_term(voting_config, curr_ts),
        (n - 1) as nat,
    ) is Ok ==> entry_info_pre(entries[n - 1], voting_config, curr_ts)))
}

/// The report can be computed: each entry up to the first whose vote
/// weight fails can be reported on, and where none fails, the rewards
/// and the sums are representable.
pub open spec fn log_voter_info_pre(voter: VoterView, registrar: Registrar, curr_ts: i64) -> bool {
    &&& entry_infos_pre(voter.deposits, registrar.voting_config, curr_ts, voter.deposits.len())
    &&& voter.spec_weight(curr_ts, registrar) is Ok ==> {
        &&& pending_reward_pre(voter, registrar, curr_ts)
        &&& voter.reward_claimable_amount + spec_pending_reward(voter, registrar, curr_ts)
            <= u64::MAX
        &&& voter.weight_pre(curr_ts, registrar)
        &&& voter.weight_baseline_pre(registrar)
    }
}

/// What can be reported on for `n` entries can be for fewer.
proof fn lemma_entry_infos_pre_prefix(
    entries: Seq<DepositEntry>,
    voting_config: VotingConfig,
    curr_ts: i64,
    k: nat,
    n: nat,
)
    requires
        k <= n,
        entry_infos_pre(entries, voting_config, curr_ts, n),
    ensures
        entry_infos_pre(entries, voting_config, curr_ts, k),
    decreases n,
{
    if k < n {
        lemma_entry_infos_pre_prefix(entries, voting_config, curr_ts, k, (n - 1) as nat);
    }
}

/// The reward can be computed in 128 bits and fits 64.
pub open spec fn pending_reward_pre(voter: VoterView, registrar: Registrar, curr_ts: i64) -> bool {
    &&& curr_ts >= registrar.reward_accrual_ts
    &&& curr_ts - registrar.reward_accrual_ts <= i64::MAX
    &&& registrar.permanently_locked_amount != 0
        ==> registrar.current_reward_amount_per_second.0 * (curr_ts
        - registrar.reward_accrual_ts) <= RAW_MAX
    &&& registrar.reward_index.0 + registrar.spec_reward_index_delta(curr_ts) <= RAW_MAX
    &&& registrar.reward_index.0 + registrar.spec_reward_index_delta(curr_ts)
        >= voter.reward_index.0
    &&& voter.lockups_inv()
    &&& voter.spec_permanently_locked(curr_ts) <= u64::MAX
    &&& (registrar.reward_index.0 + registrar.spec_reward_index_delta(curr_ts)
        - voter.reward_index.0) * voter.spec_permanently_locked(curr_ts) <= RAW_MAX
    &&& spec_pending_reward(voter, registrar, curr_ts) <= u64::MAX
}

/// The report on the vesting of an entry in use.
fn vesting_info(d_entry: &DepositEntry, curr_ts: i64) -> (info: Option<VestingInfo>)
    requires
        d_entry.lockup.inv(),
        d_entry.lockup.spec_is_vesting() ==> d_entry.lockup.kind.duration.periods != 0
            && d_entry.lockup.spec_end_ts() >= 0,
    ensures
        vesting_reported(info, *d_entry, curr_ts),
{
    let lockup: Lockup = d_entry.get_lockup();
    if !lockup.kind.is_vesting() {
        return None;
    }
    let periods_total: u64 = lockup.periods_total();
    let periods_left: u64 = match lockup.periods_left(curr_ts) {
        Ok(n) => n,
        Err(_) => 0,
    };
    proof {
        if periods_left >= 1 {
            lockup.lemma_closest_cliff_ahead(curr_ts);
        }
    }
    let periods_after: u64 = periods_left.saturating_sub(1);
    assert(periods_after * lockup.kind.spec_period_secs() == lockup.kind.spec_period_secs()
        * periods_after) by (nonlinear_arith);
    Some(
        VestingInfo {
            rate: d_entry.get_amount_initially_locked_native().checked_div(
                periods_total,
            ).unwrap(),
            next_timestamp: u64::try_from(lockup.end_ts()).unwrap().saturating_sub(
                periods_after.checked_mul(lockup.kind.period_secs()).unwrap(),
            ),
        },
    )
}

/// The report on an entry in use, or the failure of its vote weight.
fn entry_info(d_entry: &DepositEntry, voting_config: &VotingConfig, curr_ts: i64) -> (res: Result<
    DepositEntryInfo,
    VsrError,
>)
    requires
        d_entry.is_active,
        entry_info_pre(*d_entry, *voting_config, curr_ts),
    ensures
        match d_entry.spec_voting_power(*voting_config, curr_ts) {
            Ok(_) => res is Ok && entry_reported(
                Some(res->Ok_0),
                *d_entry,
                *voting_config,
                curr_ts,
            ),
            Err(e) => res == Err::<DepositEntryInfo, VsrError>(e),
        },
{
    let amount_locked: u64 = match d_entry.amount_locked(curr_ts) {
        Ok(n) => n,
        Err(e) => {
            return Err(e);
        },
    };
    let amount_unlocked: u64 = match d_entry.amount_unlocked(curr_ts) {
        Ok(n) => n,
        Err(e) => {
            return Err(e);
        },
    };
    let voting_power: u64 = match d_entry.voting_power(voting_config, curr_ts) {
        Ok(w) => w,
        Err(e) => {
            return Err(e);
        },
    };
    let voting_power_baseline: u64 = match voting_config.baseline_vote_weight(
        d_entry.get_amount_deposited_native(),
    ) {
        Ok(w) => w,
        Err(e) => {
            return Err(e);
        },
    };
    let vesting: Option<VestingInfo> = vesting_info(d_entry, curr_ts);
    Ok(
        DepositEntryInfo {
            lockup: d_entry.get_lockup(),
            amount_locked,
            amount_unlocked,
            voting_power,
            voting_power_baseline,
            vesting,
        },
    )
}

/// What the voter would earn if the registrar accrued at `curr_ts`.
fn pending_reward(registrar: &Registrar, voter: &Voter, curr_ts: i64) -> (pending: u64)
    requires
        pending_reward_pre(voter@, *registrar, curr_ts),
    ensures
        pending == spec_pending_reward(voter@, *registrar, curr_ts),
{
    let seconds_delta: u64 = u64::try_from(
        curr_ts.checked_sub(registrar.reward_accrual_ts).unwrap(),
    ).unwrap();
    proof {
        registrar.lemma_deltas_nonnegative(curr_ts);
    }
    let reward_index_delta: u128 = if registrar.permanently_locked_amount != 0 {
        let divisor: u64 = if registrar.permanently_locked_amount
            >= FULL_REWARD_PERMANENTLY_LOCKED_FLOOR {
            registrar.permanently_locked_amount
        } else {
            FULL_REWARD_PERMANENTLY_LOCKED_FLOOR
        };
        registrar.current_reward_amount_per_second.mul_scalar(
            seconds_delta as core::primitive::u128,
        ).div_scalar(divisor as core::primitive::u128)
    } else {
        u128::new(0)
    };
    let permanently_locked: u64 = match voter.permanently_locked(curr_ts) {
        Ok(n) => n,
        Err(_) => 0,
    };
    let pending: core::primitive::u128 = registrar.reward_index.add(reward_index_delta).sub(
        voter.get_reward_index(),
    ).mul_scalar(permanently_locked as core::primitive::u128).truncate();
    u64::try_from(pending).unwrap()
}

/// The reports on the entries of a voter, each at the index of its
/// entry, or the first failure of a vote weight.
fn entry_infos(voter: &Voter, voting_config: &VotingConfig, curr_ts: i64) -> (res: Result<
    [Option<DepositEntryInfo>; 16],
    VsrError,
>)
    requires
        entry_infos_pre(voter@.deposits, *voting_config, curr_ts, 16),
    ensures
        match try_sum(voter@.deposits, weight_term(*voting_config, curr_ts), 16) {
            Err(e) => res == Err::<[Option<DepositEntryInfo>; 16], VsrError>(e),
            Ok(_) => res is Ok && forall|k: int|
                0 <= k < 16 ==> entry_reported(
                    #[trigger] (res->Ok_0)[k],
                    voter.deposits[k],
                    *voting_config,
                    curr_ts,
                ),
        },
{
    let ghost entries = voter@.deposits;
    let ghost term = weight_term(*voting_config, curr_ts);
    let mut deposit_entries: [Option<DepositEntryInfo>; 16] = [None;16];
    let mut i: usize = 0;
    while i < 16
        invariant
            i <= 16,
            entries == voter@.deposits,
            entries.len() == 16,
            term == weight_term(*voting_config, curr_ts),
            entry_infos_pre(entries, *voting_config, curr_ts, 16),
            try_sum(entries, term, i as nat) is Ok,
            forall|k: int|
                0 <= k < i ==> entry_reported(
                    #[trigger] deposit_entries[k],
                    voter.deposits[k],
                    *voting_config,
                    curr_ts,
                ),
            forall|k: int| i <= k < 16 ==> (#[trigger] deposit_entries[k]) is None,
        decreases 16 - i,
    {
        let d_entry: &DepositEntry = &voter.deposits[i];
        proof {
            lemma_entry_infos_pre_prefix(entries, *voting_config, curr_ts, (i + 1) as nat, 16);
        }
        if d_entry.is_active() {
            match entry_info(d_entry, voting_config, curr_ts) {
                Ok(info) => {
                    deposit_entries[i] = Some(info);
                },
                Err(e) => {
                    proof {
                        lemma_try_sum_failure_stays(entries, term, (i + 1) as nat, 16);
                    }
                    return Err(e);
                },
            }
        }
        i = i + 1;
    }
    Ok(deposit_entries)
}

/// Reports on a voter at the host time `unix_timestamp`: its vote
/// weight with and without lockups, the reward that it could claim
/// now, and each of its entries in use. Nothing is changed. The first
/// entry whose vote weight does not fit 64 bits fails the report.
pub fn log_voter_info(registrar: &Registrar, voter: &Voter, unix_timestamp: i64) -> (res: Result<
    VoterInfo,
    VsrError,
>)
    requires
        clock_pre(*registrar, unix_timestamp),
        log_voter_info_pre(voter@, *registrar, spec_now(*registrar, unix_timestamp)),
    ensures
        match voter@.spec_weight(spec_now(*registrar, unix_timestamp), *registrar) {
            Err(e) => res == Err::<VoterInfo, VsrError>(e),
            Ok(weight) => res is Ok && ({
                let info = res->Ok_0;
                let curr_ts = spec_now(*registrar, unix_timestamp);
                &&& info.voting_power == weight
                &&& voter@.spec_weight_baseline(*registrar) == Ok::<int, VsrError>(
                    info.voting_power_baseline as int,
                )
                &&& info.reward_amount == voter.reward_claimable_amount + spec_pending_reward(
                    voter@,
                    *registrar,
                    curr_ts,
                )
                &&& forall|i: int|
                    0 <= i < 16 ==> entry_reported(
                        #[trigger] info.deposit_entries[i],
                        voter.deposits[i],
                        registrar.voting_config,
                        curr_ts,
                    )
            }),
        },
{
    let curr_ts: i64 = registrar.clock_unix_timestamp(unix_timestamp);
    let deposit_entries: [Option<DepositEntryInfo>; 16] = match entry_infos(
        voter,
        &registrar.voting_config,
        curr_ts,
    ) {
        Ok(infos) => infos,
        Err(e) => {
            return Err(e);
        },
    };
    let reward_amount: u64 = voter.get_reward_claimable_amount().checked_add(
        pending_reward(registrar, voter, curr_ts),
    ).unwrap();
    let voting_power: u64 = match voter.weight(curr_ts, registrar) {
        Ok(w) => w,
        Err(e) => {
            return Err(e);
        },
    };
    proof {
        voter@.lemma_baseline_fails_with_weight(curr_ts, *registrar, 16);
    }
    let voting_power_baseline: u64 = match voter.weight_baseline(registrar) {
        Ok(w) => w,
        Err(e) => {
            return Err(e);
        },
    };
    Ok(VoterInfo { voting_power, voting_power_baseline, reward_amount, deposit_entries })
}

} // verus!
