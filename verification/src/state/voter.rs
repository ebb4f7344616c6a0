use crate::error::VsrError;
use crate::state::deposit_entry::DepositEntry;
use crate::state::lockup::Lockup;
use crate::state::registrar::{u128, Registrar, VotingConfig, EXP_SCALE, RAW_MAX};
use crate::state::sums::{
    lemma_sum_of_monotone, lemma_sum_of_update, lemma_try_sum_failure_stays,
    lemma_try_sum_pre_of_bounded_terms, lemma_try_sum_pre_prefix, sum_of, try_sum, try_sum_pre,
};
use anchor_lang::prelude::Pubkey;
use vstd::prelude::*;

verus! {

/// The number of deposit entries of a voter.
pub const VOTER_DEPOSIT_ENTRY_COUNT: usize = 16;

/// The account of one depositor with one registrar: a fixed row of
/// deposit entries, each addressed by its index, and the state of the
/// depositor's rewards.
#[derive(Clone, Copy, PartialEq, Eq, Debug)]
pub struct Voter {
    pub voter_authority: Pubkey,
    pub registrar: Pubkey,
    pub deposits: [DepositEntry; 16],
    /// The registrar's reward index as of the last settlement.
    pub reward_index: u128,
    /// Rewards that can be claimed.
    pub reward_claimable_amount: u64,
    pub voter_bump: u8,
    pub voter_weight_record_bump: u8,
}

/// A voter as a mathematical value: the entries are a sequence.
pub struct VoterView {
    pub voter_authority: Pubkey,
    pub registrar: Pubkey,
    pub deposits: Seq<DepositEntry>,
    pub reward_index: u128,
    pub reward_claimable_amount: u64,
    pub voter_bump: u8,
    pub voter_weight_record_bump: u8,
}

impl View for Voter {
    type V = VoterView;

    open spec fn view(&self) -> VoterView {
        VoterView {
            voter_authority: self.voter_authority,
            registrar: self.registrar,
            deposits: self.deposits@,
            reward_index: self.reward_index,
            reward_claimable_amount: self.reward_claimable_amount,
            voter_bump: self.voter_bump,
            voter_weight_record_bump: self.voter_weight_record_bump,
        }
    }
}

/// What an entry adds to the permanently locked amount of its voter at
/// `curr_ts`: what is locked in it, where it is in use under a constant
/// lockup.
pub open spec fn permanently_locked_term(curr_ts: i64) -> spec_fn(DepositEntry) -> int {
    |d: DepositEntry|
        if d.is_active && !d.lockup.spec_is_vesting() {
            d.spec_amount_locked(curr_ts)
        } else {
            0
        }
}

/// What an entry in use under a vesting lockup has locked at `curr_ts`.
pub open spec fn vesting_locked_term(curr_ts: i64) -> spec_fn(DepositEntry) -> int {
    |d: DepositEntry|
        if d.is_active && d.lockup.spec_is_vesting() {
            d.spec_amount_locked(curr_ts)
        } else {
            0
        }
}

/// What an entry in use under a vesting lockup has unlocked at `curr_ts`.
pub open spec fn vesting_unlocked_term(curr_ts: i64) -> spec_fn(DepositEntry) -> int {
    |d: DepositEntry|
        if d.is_active && d.lockup.spec_is_vesting() {
            d.spec_amount_unlocked(curr_ts)
        } else {
            0
        }
}

/// What an entry holds.
pub open spec fn deposited_term() -> spec_fn(DepositEntry) -> int {
    |d: DepositEntry| d.amount_deposited_native as int
}

/// What an entry in use under a constant lockup holds: its part of the
/// registrar's permanently locked amount.
pub open spec fn permanently_deposited_term() -> spec_fn(DepositEntry) -> int {
    |d: DepositEntry|
        if d.is_active && !d.lockup.spec_is_vesting() {
            d.amount_deposited_native as int
        } else {
            0
        }
}

/// The vote weight of an entry in use; an unused one has none.
pub open spec fn weight_term(voting_config: VotingConfig, curr_ts: i64) -> spec_fn(
    DepositEntry,
) -> Result<u64, VsrError> {
    |d: DepositEntry|
        if d.is_active {
            d.spec_voting_power(voting_config, curr_ts)
        } else {
            Ok(0u64)
        }
}

/// The vote weight of an entry in use can be computed.
pub open spec fn weight_term_pre(voting_config: VotingConfig, curr_ts: i64) -> spec_fn(
    DepositEntry,
) -> bool {
    |d: DepositEntry| d.is_active ==> d.voting_power_pre(voting_config, curr_ts)
}

/// The baseline vote weight of an entry in use; an unused one has none.
pub open spec fn weight_baseline_term(voting_config: VotingConfig) -> spec_fn(
    DepositEntry,
) -> Result<u64, VsrError> {
    |d: DepositEntry|
        if d.is_active {
            voting_config.spec_baseline_vote_weight(d.amount_deposited_native)
        } else {
            Ok(0u64)
        }
}

/// A term that can always be computed.
pub open spec fn no_term_pre() -> spec_fn(DepositEntry) -> bool {
    |d: DepositEntry| true
}

impl VoterView {
    /// The lockups of the entries in use have representable ends.
    pub open spec fn lockups_inv(self) -> bool {
        forall|i: int| 0 <= i < self.deposits.len() ==> (#[trigger] self.deposits[i]).lockup_inv()
    }

    /// Each entry in use holds at least what is locked in it at `curr_ts`.
    pub open spec fn inv_at(self, curr_ts: i64) -> bool {
        forall|i: int| 0 <= i < self.deposits.len() ==> (#[trigger] self.deposits[i]).inv_at(curr_ts)
    }

    /// What is locked at `curr_ts` in the entries under a constant lockup.
    pub open spec fn spec_permanently_locked(self, curr_ts: i64) -> int {
        sum_of(self.deposits, permanently_locked_term(curr_ts), self.deposits.len())
    }

    /// What is locked at `curr_ts` in the entries under a vesting lockup.
    pub open spec fn spec_vesting_locked(self, curr_ts: i64) -> int {
        sum_of(self.deposits, vesting_locked_term(curr_ts), self.deposits.len())
    }

    /// What is unlocked at `curr_ts` in the entries under a vesting lockup.
    pub open spec fn spec_vesting_unlocked(self, curr_ts: i64) -> int {
        sum_of(self.deposits, vesting_unlocked_term(curr_ts), self.deposits.len())
    }

    /// What all entries hold together.
    pub open spec fn spec_amount_deposited_native(self) -> int {
        sum_of(self.deposits, deposited_term(), self.deposits.len())
    }

    /// What the entries under a constant lockup hold together: the
    /// voter's part of the registrar's permanently locked amount.
    pub open spec fn spec_permanently_deposited(self) -> int {
        sum_of(self.deposits, permanently_deposited_term(), self.deposits.len())
    }

    /// The vote weight of the voter at `curr_ts`: the sum over the
    /// entries in use, or the first failure among them.
    pub open spec fn spec_weight(self, curr_ts: i64, registrar: Registrar) -> Result<
        int,
        VsrError,
    > {
        try_sum(
            self.deposits,
            weight_term(registrar.voting_config, curr_ts),
            self.deposits.len(),
        )
    }

    /// The vote weight can be computed in 64 bits.
    pub open spec fn weight_pre(self, curr_ts: i64, registrar: Registrar) -> bool {
        try_sum_pre(
            self.deposits,
            weight_term(registrar.voting_config, curr_ts),
            weight_term_pre(registrar.voting_config, curr_ts),
            self.deposits.len(),
        )
    }

    /// The vote weight of the voter without any effect of the lockups.
    pub open spec fn spec_weight_baseline(self, registrar: Registrar) -> Result<int, VsrError> {
        try_sum(
            self.deposits,
            weight_baseline_term(registrar.voting_config),
            self.deposits.len(),
        )
    }

    /// The baseline vote weight can be computed in 64 bits.
    pub open spec fn weight_baseline_pre(self, registrar: Registrar) -> bool {
        try_sum_pre(
            self.deposits,
            weight_baseline_term(registrar.voting_config),
            no_term_pre(),
            self.deposits.len(),
        )
    }

    /// The reward that the voter has earned since its last settlement:
    /// the growth of the registrar's index times what the voter has
    /// permanently locked, in whole tokens.
    pub open spec fn spec_reward_due(self, curr_ts: i64, registrar: Registrar) -> int {
        ((registrar.reward_index.0 - self.reward_index.0) * self.spec_permanently_locked(
            curr_ts,
        )) / (EXP_SCALE as int)
    }

    /// What the voter can claim once its rewards are settled: what it
    /// could claim before, and where the registrar's index has grown,
    /// what is due since.
    pub open spec fn spec_settled_claimable(self, curr_ts: i64, registrar: Registrar) -> int {
        if registrar.reward_index.0 > self.reward_index.0 {
            self.reward_claimable_amount + self.spec_reward_due(curr_ts, registrar)
        } else {
            self.reward_claimable_amount as int
        }
    }

    /// The reward index of the voter once its rewards are settled: the
    /// registrar's, unless the voter is ahead of it.
    pub open spec fn spec_settled_index(self, registrar: Registrar) -> u128 {
        if registrar.reward_index.0 > self.reward_index.0 {
            registrar.reward_index
        } else {
            self.reward_index
        }
    }

    /// What is due to a voter is never negative.
    pub proof fn lemma_reward_due_nonnegative(self, curr_ts: i64, registrar: Registrar)
        requires
            registrar.reward_index.0 >= self.reward_index.0,
        ensures
            self.spec_reward_due(curr_ts, registrar) >= 0,
            self.spec_permanently_locked(curr_ts) >= 0,
    {
        assert forall|k: int| 0 <= k < self.deposits.len() implies permanently_locked_term(
            curr_ts,
        )(#[trigger] self.deposits[k]) >= 0 by {
            self.deposits[k].lemma_vested_bounds(curr_ts);
        }
        lemma_sum_of_monotone(
            self.deposits,
            permanently_locked_term(curr_ts),
            0,
            self.deposits.len(),
        );
        let grown = registrar.reward_index.0 - self.reward_index.0;
        let locked = self.spec_permanently_locked(curr_ts);
        assert((grown * locked) / (EXP_SCALE as int) >= 0) by (nonlinear_arith)
            requires
                grown >= 0,
                locked >= 0,
                EXP_SCALE > 0,
        ;
    }

    /// The voter after its rewards were settled against the registrar.
    /// The registrar must have accrued at `curr_ts` itself.
    pub open spec fn spec_accrue_rewards(self, curr_ts: i64, registrar: Registrar) -> Result<
        VoterView,
        VsrError,
    > {
        if curr_ts != registrar.reward_accrual_ts {
            Err(VsrError::InternalProgramError)
        } else if registrar.reward_index.0 > self.reward_index.0 {
            Ok(
                VoterView {
                    reward_claimable_amount: (self.reward_claimable_amount + self.spec_reward_due(
                        curr_ts,
                        registrar,
                    )) as u64,
                    reward_index: registrar.reward_index,
                    ..self
                },
            )
        } else {
            Ok(self)
        }
    }

    /// The voter and the registrar after `activate`: the rewards are
    /// settled and the entry at `index`, which must be unused, is a fresh
    /// entry with the given lockup.
    pub open spec fn spec_activate(
        self,
        index: u8,
        curr_ts: i64,
        lockup: Lockup,
        registrar: Registrar,
    ) -> Result<(VoterView, Registrar), VsrError> {
        match self.spec_accrue_rewards(curr_ts, registrar) {
            Err(e) => Err(e),
            Ok(settled) => if index >= self.deposits.len() {
                Err(VsrError::OutOfBoundsDepositEntryIndex)
            } else if self.deposits[index as int].is_active {
                Err(VsrError::InternalProgramError)
            } else {
                Ok(
                    (
                        VoterView {
                            deposits: self.deposits.update(
                                index as int,
                                DepositEntry::spec_new_from_lockup(lockup),
                            ),
                            ..settled
                        },
                        registrar,
                    ),
                )
            },
        }
    }

    /// The voter and the registrar after `deactivate`: the rewards are
    /// settled, the entry at `index`, which must be in use, is reset, and
    /// what it held under a constant lockup leaves the registrar's
    /// permanently locked amount.
    pub open spec fn spec_deactivate(self, index: u8, curr_ts: i64, registrar: Registrar) -> Result<
        (VoterView, Registrar),
        VsrError,
    > {
        match self.spec_accrue_rewards(curr_ts, registrar) {
            Err(e) => Err(e),
            Ok(settled) => if index >= self.deposits.len() {
                Err(VsrError::OutOfBoundsDepositEntryIndex)
            } else {
                let d = self.deposits[index as int];
                match d.spec_deactivate() {
                    Err(e) => Err(e),
                    Ok(entry) => Ok(
                        (
                            VoterView {
                                deposits: self.deposits.update(index as int, entry),
                                ..settled
                            },
                            if !d.lockup.spec_is_vesting() {
                                Registrar {
                                    permanently_locked_amount: (registrar.permanently_locked_amount
                                        - d.amount_deposited_native) as u64,
                                    ..registrar
                                }
                            } else {
                                registrar
                            },
                        ),
                    ),
                }
            },
        }
    }

    /// `deactivate` can be computed: the registrar counts at least what
    /// the entry holds under a constant lockup.
    pub open spec fn deactivate_pre(self, index: u8, curr_ts: i64, registrar: Registrar) -> bool {
        &&& self.accrue_pre(curr_ts, registrar)
        &&& self.spec_deactivate(index, curr_ts, registrar) is Ok
            && !self.deposits[index as int].lockup.spec_is_vesting()
            ==> registrar.permanently_locked_amount
            >= self.deposits[index as int].amount_deposited_native
    }

    /// The voter and the registrar after `deposit`: the rewards are
    /// settled, the entry at `index` takes the deposit, and under a
    /// constant lockup the amount joins the registrar's permanently
    /// locked amount.
    pub open spec fn spec_deposit(
        self,
        index: u8,
        curr_ts: i64,
        amount: u64,
        registrar: Registrar,
    ) -> Result<(VoterView, Registrar), VsrError> {
        match self.spec_accrue_rewards(curr_ts, registrar) {
            Err(e) => Err(e),
            Ok(settled) => if index >= self.deposits.len() {
                Err(VsrError::OutOfBoundsDepositEntryIndex)
            } else {
                match self.deposits[index as int].spec_deposit(curr_ts, amount) {
                    Err(e) => Err(e),
                    Ok(entry) => Ok(
                        (
                            VoterView {
                                deposits: self.deposits.update(index as int, entry),
                                ..settled
                            },
                            if !entry.lockup.spec_is_vesting() {
                                Registrar {
                                    permanently_locked_amount: (registrar.permanently_locked_amount
                                        + amount) as u64,
                                    ..registrar
                                }
                            } else {
                                registrar
                            },
                        ),
                    ),
                }
            },
        }
    }

    /// `deposit` can be computed: the amounts of the entry and of the
    /// registrar stay representable.
    pub open spec fn deposit_pre(
        self,
        index: u8,
        curr_ts: i64,
        amount: u64,
        registrar: Registrar,
    ) -> bool {
        &&& self.accrue_pre(curr_ts, registrar)
        &&& curr_ts == registrar.reward_accrual_ts && index < self.deposits.len() ==> {
            &&& self.deposits[index as int].deposit_pre(curr_ts, amount)
            &&& self.spec_deposit(index, curr_ts, amount, registrar) is Ok
                && !self.deposits[index as int].lockup.spec_is_vesting()
                ==> registrar.permanently_locked_amount + amount <= u64::MAX
        }
    }

    /// The voter and the registrar after `withdraw`: the rewards are
    /// settled, the entry at `index` gives up the amount, and what leaves
    /// an entry under a constant lockup leaves the registrar's
    /// permanently locked amount.
    pub open spec fn spec_withdraw(
        self,
        index: u8,
        curr_ts: i64,
        amount: u64,
        registrar: Registrar,
    ) -> Result<(VoterView, Registrar), VsrError> {
        match self.spec_accrue_rewards(curr_ts, registrar) {
            Err(e) => Err(e),
            Ok(settled) => if index >= self.deposits.len() {
                Err(VsrError::OutOfBoundsDepositEntryIndex)
            } else {
                match self.deposits[index as int].spec_withdraw(curr_ts, amount) {
                    Err(e) => Err(e),
                    Ok(entry) => Ok(
                        (
                            VoterView {
                                deposits: self.deposits.update(index as int, entry),
                                ..settled
                            },
                            if !entry.lockup.spec_is_vesting() {
                                Registrar {
                                    permanently_locked_amount: (registrar.permanently_locked_amount
                                        - amount) as u64,
                                    ..registrar
                                }
                            } else {
                                registrar
                            },
                        ),
                    ),
                }
            },
        }
    }

    /// `withdraw` can be computed: the entry holds what is locked in it,
    /// and the registrar counts at least what leaves an entry under a
    /// constant lockup.
    pub open spec fn withdraw_pre(
        self,
        index: u8,
        curr_ts: i64,
        amount: u64,
        registrar: Registrar,
    ) -> bool {
        &&& self.accrue_pre(curr_ts, registrar)
        &&& curr_ts == registrar.reward_accrual_ts && index < self.deposits.len() ==> {
            &&& self.deposits[index as int].inv_at(curr_ts)
            &&& self.spec_withdraw(index, curr_ts, amount, registrar) is Ok
                && !self.deposits[index as int].lockup.spec_is_vesting()
                ==> registrar.permanently_locked_amount >= amount
        }
    }

    /// The voter after `claim_reward`: the rewards are settled and paid
    /// out.
    pub open spec fn spec_claim_reward(self, curr_ts: i64, registrar: Registrar) -> Result<
        (VoterView, u64),
        VsrError,
    > {
        match self.spec_accrue_rewards(curr_ts, registrar) {
            Err(e) => Err(e),
            Ok(settled) => Ok(
                (
                    VoterView { reward_claimable_amount: 0, ..settled },
                    settled.reward_claimable_amount,
                ),
            ),
        }
    }

    /// The rewards can be settled: where the index has grown, the
    /// lockups can be read and every quantity on the way is
    /// representable.
    pub open spec fn accrue_pre(self, curr_ts: i64, registrar: Registrar) -> bool {
        curr_ts == registrar.reward_accrual_ts && registrar.reward_index.0 > self.reward_index.0
            ==> {
            &&& self.lockups_inv()
            &&& self.spec_permanently_locked(curr_ts) <= u64::MAX
            &&& (registrar.reward_index.0 - self.reward_index.0) * self.spec_permanently_locked(
                curr_ts,
            ) <= RAW_MAX
            &&& self.spec_reward_due(curr_ts, registrar) <= u64::MAX
            &&& self.reward_claimable_amount + self.spec_reward_due(curr_ts, registrar)
                <= u64::MAX
        }
    }
}

/// What the first `n` of the voters hold under constant lockups.
pub open spec fn total_permanently_deposited(voters: Seq<VoterView>, n: nat) -> int
    decreases n,
{
    if n == 0 {
        0
    } else {
        total_permanently_deposited(voters, (n - 1) as nat)
            + voters[n - 1].spec_permanently_deposited()
    }
}

/// The registrar's permanently locked amount is what all its voters hold
/// under constant lockups.
pub open spec fn conserved(voters: Seq<VoterView>, registrar: Registrar) -> bool {
    total_permanently_deposited(voters, voters.len()) == registrar.permanently_locked_amount
}

/// Replacing one voter changes the total by the difference of what the
/// two hold.
pub proof fn lemma_total_update(voters: Seq<VoterView>, who: int, after: VoterView, n: nat)
    requires
        0 <= who < voters.len(),
        n <= voters.len(),
    ensures
        total_permanently_deposited(voters.update(who, after), n) == total_permanently_deposited(
            voters,
            n,
        ) + if who < n {
            after.spec_permanently_deposited() - voters[who].spec_permanently_deposited()
        } else {
            0
        },
    decreases n,
{
    if n > 0 {
        lemma_total_update(voters, who, after, (n - 1) as nat);
    }
}

/// Where one voter and the registrar change by the same amount, the
/// registrar still counts what all voters hold.
pub proof fn lemma_conserved_step(
    voters: Seq<VoterView>,
    registrar: Registrar,
    who: int,
    after: VoterView,
    registrar_after: Registrar,
)
    requires
        conserved(voters, registrar),
        0 <= who < voters.len(),
        registrar_after.permanently_locked_amount - registrar.permanently_locked_amount
            == after.spec_permanently_deposited() - voters[who].spec_permanently_deposited(),
    ensures
        conserved(voters.update(who, after), registrar_after),
{
    lemma_total_update(voters, who, after, voters.len());
}

impl VoterView {
    /// A voter without an entry in use holds nothing.
    pub proof fn lemma_unused_holds_nothing(self)
        requires
            forall|i: int| 0 <= i < self.deposits.len() ==> !(#[trigger] self.deposits[i]).is_active,
        ensures
            self.spec_permanently_deposited() == 0,
    {
        self.lemma_unused_prefix_holds_nothing(self.deposits.len());
    }

    proof fn lemma_unused_prefix_holds_nothing(self, n: nat)
        requires
            n <= self.deposits.len(),
            forall|i: int| 0 <= i < self.deposits.len() ==> !(#[trigger] self.deposits[i]).is_active,
        ensures
            sum_of(self.deposits, permanently_deposited_term(), n) == 0,
        decreases n,
    {
        if n > 0 {
            self.lemma_unused_prefix_holds_nothing((n - 1) as nat);
            assert(!self.deposits[n - 1].is_active);
        }
    }

    /// The baseline weight of a voter can only fail where its weight
    /// fails: the baseline of an entry is a part of its vote weight.
    pub proof fn lemma_baseline_fails_with_weight(self, curr_ts: i64, registrar: Registrar, n: nat)
        requires
            n <= self.deposits.len(),
            try_sum(self.deposits, weight_term(registrar.voting_config, curr_ts), n) is Ok,
        ensures
            try_sum(self.deposits, weight_baseline_term(registrar.voting_config), n) is Ok,
        decreases n,
    {
        if n > 0 {
            self.lemma_baseline_fails_with_weight(curr_ts, registrar, (n - 1) as nat);
        }
    }

    /// A vote weight that can be computed in 64 bits fits 64 bits.
    pub proof fn lemma_weight_fits(self, curr_ts: i64, registrar: Registrar, n: nat)
        requires
            n <= self.deposits.len(),
            try_sum_pre(
                self.deposits,
                weight_term(registrar.voting_config, curr_ts),
                weight_term_pre(registrar.voting_config, curr_ts),
                n,
            ),
        ensures
            try_sum(self.deposits, weight_term(registrar.voting_config, curr_ts), n) matches Ok(
                sum,
            ) ==> 0 <= sum <= u64::MAX,
        decreases n,
    {
        if n > 0 {
            self.lemma_weight_fits(curr_ts, registrar, (n - 1) as nat);
        }
    }

    /// The operations of a voter leave the reward pool of the registrar
    /// alone: its index, its issued amount, its rate and its clock. Only
    /// an accrual of the registrar moves them.
    pub proof fn lemma_operations_keep_the_reward_pool(
        self,
        index: u8,
        curr_ts: i64,
        amount: u64,
        lockup: Lockup,
        registrar: Registrar,
    )
        ensures
            self.spec_activate(index, curr_ts, lockup, registrar) matches Ok((_, r)) ==> r
                == registrar,
            self.spec_deactivate(index, curr_ts, registrar) matches Ok((_, r)) ==> r == (Registrar {
                permanently_locked_amount: r.permanently_locked_amount,
                ..registrar
            }),
            self.spec_deposit(index, curr_ts, amount, registrar) matches Ok((_, r)) ==> r
                == (Registrar {
                permanently_locked_amount: r.permanently_locked_amount,
                ..registrar
            }),
            self.spec_withdraw(index, curr_ts, amount, registrar) matches Ok((_, r)) ==> r
                == (Registrar {
                permanently_locked_amount: r.permanently_locked_amount,
                ..registrar
            }),
    {
    }

    /// A voter whose entries hold what is locked in them now holds what
    /// is locked in them later.
    pub proof fn lemma_inv_at_later(self, earlier: i64, later: i64)
        requires
            earlier <= later,
            self.inv_at(earlier),
        ensures
            self.inv_at(later),
    {
        assert forall|i: int| 0 <= i < self.deposits.len() implies (#[trigger] self.deposits[i]).inv_at(
            later,
        ) by {
            self.deposits[i].lemma_inv_at_later(earlier, later);
        }
    }

    /// The operations of a voter keep its entries holding what is locked
    /// in them, where the lockup that an entry gets is representable.
    pub proof fn lemma_operations_keep_inv(
        self,
        index: u8,
        curr_ts: i64,
        amount: u64,
        lockup: Lockup,
        registrar: Registrar,
    )
        requires
            self.inv_at(curr_ts),
        ensures
            self.spec_accrue_rewards(curr_ts, registrar) matches Ok(v) ==> v.inv_at(curr_ts),
            self.spec_claim_reward(curr_ts, registrar) matches Ok((v, _)) ==> v.inv_at(curr_ts),
            self.spec_activate(index, curr_ts, lockup, registrar) matches Ok((v, _))
                ==> lockup.inv() ==> v.inv_at(curr_ts),
            self.spec_deactivate(index, curr_ts, registrar) matches Ok((v, _)) ==> v.inv_at(
                curr_ts,
            ),
            self.spec_deposit(index, curr_ts, amount, registrar) matches Ok((v, _))
                ==> self.deposits[index as int].deposit_pre(curr_ts, amount)
                && self.deposits[index as int].spec_lockup_after_deposit(curr_ts).inv()
                ==> v.inv_at(curr_ts),
            self.spec_withdraw(index, curr_ts, amount, registrar) matches Ok((v, _)) ==> v.inv_at(
                curr_ts,
            ),
    {
        if index < self.deposits.len() {
            let d = self.deposits[index as int];
            assert(d.inv_at(curr_ts));
            d.lemma_vested_bounds(curr_ts);
            if lockup.inv() {
                DepositEntry::lemma_new_entry_inv(lockup, curr_ts);
            }
            if let Ok(entry) = d.spec_deposit(curr_ts, amount) {
                entry.lemma_vested_bounds(curr_ts);
            }
        }
    }

    /// The vote weight of a voter can be computed where the weight of
    /// each entry in use can, and none weighs more than a sixteenth of
    /// what 64 bits hold.
    pub proof fn lemma_weight_pre_of_bounded_entries(self, curr_ts: i64, registrar: Registrar)
        requires
            self.deposits.len() == VOTER_DEPOSIT_ENTRY_COUNT,
            forall|i: int|
                0 <= i < self.deposits.len() ==> ((#[trigger] self.deposits[i]).is_active ==> {
                    &&& self.deposits[i].voting_power_pre(registrar.voting_config, curr_ts)
                    &&& self.deposits[i].spec_voting_power(
                        registrar.voting_config,
                        curr_ts,
                    ) matches Ok(w) ==> w <= u64::MAX / 16
                }),
        ensures
            self.weight_pre(curr_ts, registrar),
            self.spec_weight(curr_ts, registrar) matches Ok(sum) ==> 0 <= sum <= u64::MAX,
    {
        lemma_try_sum_pre_of_bounded_terms(
            self.deposits,
            weight_term(registrar.voting_config, curr_ts),
            weight_term_pre(registrar.voting_config, curr_ts),
            (u64::MAX / 16) as int,
            16,
        );
    }

    /// `activate` keeps the registrar in step with its voters.
    pub proof fn lemma_activate_conserves(
        voters: Seq<VoterView>,
        who: int,
        index: u8,
        curr_ts: i64,
        lockup: Lockup,
        registrar: Registrar,
    )
        requires
            conserved(voters, registrar),
            0 <= who < voters.len(),
            voters[who].spec_activate(index, curr_ts, lockup, registrar) is Ok,
        ensures
            ({
                let (v, r) = voters[who].spec_activate(index, curr_ts, lockup, registrar)->Ok_0;
                conserved(voters.update(who, v), r)
            }),
    {
        let (v, r) = voters[who].spec_activate(index, curr_ts, lockup, registrar)->Ok_0;
        lemma_sum_of_update(
            voters[who].deposits,
            permanently_deposited_term(),
            index as int,
            DepositEntry::spec_new_from_lockup(lockup),
            voters[who].deposits.len(),
        );
        lemma_conserved_step(voters, registrar, who, v, r);
    }

    /// `deactivate` keeps the registrar in step with its voters.
    pub proof fn lemma_deactivate_conserves(
        voters: Seq<VoterView>,
        who: int,
        index: u8,
        curr_ts: i64,
        registrar: Registrar,
    )
        requires
            conserved(voters, registrar),
            0 <= who < voters.len(),
            voters[who].deactivate_pre(index, curr_ts, registrar),
            voters[who].spec_deactivate(index, curr_ts, registrar) is Ok,
        ensures
            ({
                let (v, r) = voters[who].spec_deactivate(index, curr_ts, registrar)->Ok_0;
                conserved(voters.update(who, v), r)
            }),
    {
        let (v, r) = voters[who].spec_deactivate(index, curr_ts, registrar)->Ok_0;
        lemma_sum_of_update(
            voters[who].deposits,
            permanently_deposited_term(),
            index as int,
            DepositEntry::spec_default(),
            voters[who].deposits.len(),
        );
        lemma_conserved_step(voters, registrar, who, v, r);
    }

    /// `deposit` keeps the registrar in step with its voters.
    pub proof fn lemma_deposit_conserves(
        voters: Seq<VoterView>,
        who: int,
        index: u8,
        curr_ts: i64,
        amount: u64,
        registrar: Registrar,
    )
        requires
            conserved(voters, registrar),
            0 <= who < voters.len(),
            voters[who].deposit_pre(index, curr_ts, amount, registrar),
            voters[who].spec_deposit(index, curr_ts, amount, registrar) is Ok,
        ensures
            ({
                let (v, r) = voters[who].spec_deposit(index, curr_ts, amount, registrar)->Ok_0;
                conserved(voters.update(who, v), r)
            }),
    {
        let (v, r) = voters[who].spec_deposit(index, curr_ts, amount, registrar)->Ok_0;
        lemma_sum_of_update(
            voters[who].deposits,
            permanently_deposited_term(),
            index as int,
            voters[who].deposits[index as int].spec_deposit(curr_ts, amount)->Ok_0,
            voters[who].deposits.len(),
        );
        lemma_conserved_step(voters, registrar, who, v, r);
    }

    /// `withdraw` keeps the registrar in step with its voters.
    pub proof fn lemma_withdraw_conserves(
        voters: Seq<VoterView>,
        who: int,
        index: u8,
        curr_ts: i64,
        amount: u64,
        registrar: Registrar,
    )
        requires
            conserved(voters, registrar),
            0 <= who < voters.len(),
            voters[who].withdraw_pre(index, curr_ts, amount, registrar),
            voters[who].spec_withdraw(index, curr_ts, amount, registrar) is Ok,
        ensures
            ({
                let (v, r) = voters[who].spec_withdraw(index, curr_ts, amount, registrar)->Ok_0;
                conserved(voters.update(who, v), r)
            }),
    {
        let (v, r) = voters[who].spec_withdraw(index, curr_ts, amount, registrar)->Ok_0;
        voters[who].deposits[index as int].lemma_vested_bounds(curr_ts);
        lemma_sum_of_update(
            voters[who].deposits,
            permanently_deposited_term(),
            index as int,
            voters[who].deposits[index as int].spec_withdraw(curr_ts, amount)->Ok_0,
            voters[who].deposits.len(),
        );
        lemma_conserved_step(voters, registrar, who, v, r);
    }

    /// `claim_reward` keeps the registrar in step with its voters.
    pub proof fn lemma_claim_reward_conserves(
        voters: Seq<VoterView>,
        who: int,
        curr_ts: i64,
        registrar: Registrar,
    )
        requires
            conserved(voters, registrar),
            0 <= who < voters.len(),
            voters[who].spec_claim_reward(curr_ts, registrar) is Ok,
        ensures
            conserved(
                voters.update(who, voters[who].spec_claim_reward(curr_ts, registrar)->Ok_0.0),
                registrar,
            ),
    {
        let v = voters[who].spec_claim_reward(curr_ts, registrar)->Ok_0.0;
        lemma_conserved_step(voters, registrar, who, v, registrar);
    }

    /// An accrual of the registrar keeps it in step with its voters.
    pub proof fn lemma_accrual_conserves(voters: Seq<VoterView>, curr_ts: i64, registrar: Registrar)
        requires
            conserved(voters, registrar),
            registrar.accrue_pre(curr_ts),
        ensures
            conserved(voters, registrar.spec_accrue_rewards(curr_ts)),
    {
        registrar.lemma_accrue_rewards_monotone(curr_ts);
    }
}

impl Voter {
    pub fn new(
        voter_authority: Pubkey,
        registrar: Pubkey,
        reward_index: u128,
        voter_bump: u8,
        voter_weight_record_bump: u8,
    ) -> (voter: Voter)
        ensures
            voter@ == (VoterView {
                voter_authority,
                registrar,
                deposits: Seq::new(16, |i: int| DepositEntry::spec_default()),
                reward_index,
                reward_claimable_amount: 0,
                voter_bump,
                voter_weight_record_bump,
            }),
    {
        let voter = Voter {
            voter_authority,
            registrar,
            deposits: [DepositEntry::default();16],
            reward_index,
            reward_claimable_amount: 0,
            voter_bump,
            voter_weight_record_bump,
        };
        assert(voter.deposits@ =~= Seq::new(16, |i: int| DepositEntry::spec_default()));
        voter
    }

    pub fn get_voter_authority(&self) -> (key: Pubkey)
        ensures
            key == self.voter_authority,
    {
        self.voter_authority
    }

    pub fn get_registrar(&self) -> (key: Pubkey)
        ensures
            key == self.registrar,
    {
        self.registrar
    }

    pub fn get_deposits(&self) -> (deposits: &[DepositEntry])
        ensures
            deposits@ == self.deposits@,
    {
        self.deposits.as_slice()
    }

    pub fn get_reward_index(&self) -> (index: u128)
        ensures
            index == self.reward_index,
    {
        self.reward_index
    }

    pub fn get_reward_claimable_amount(&self) -> (amount: u64)
        ensures
            amount == self.reward_claimable_amount,
    {
        self.reward_claimable_amount
    }

    pub fn get_voter_bump(&self) -> (bump: u8)
        ensures
            bump == self.voter_bump,
    {
        self.voter_bump
    }

    pub fn get_voter_weight_record_bump(&self) -> (bump: u8)
        ensures
            bump == self.voter_weight_record_bump,
    {
        self.voter_weight_record_bump
    }

    /// The entry at `index`. An index beyond the last entry is an error.
    pub fn deposit_entry_at(&self, index: u8) -> (res: Result<&DepositEntry, VsrError>)
        ensures
            match res {
                Ok(d) => index < VOTER_DEPOSIT_ENTRY_COUNT && *d == self.deposits[index as int],
                Err(e) => index >= VOTER_DEPOSIT_ENTRY_COUNT && e
                    == VsrError::OutOfBoundsDepositEntryIndex,
            },
    {
        let index: usize = index as usize;
        if !(self.deposits.len() > index) {
            return Err(VsrError::OutOfBoundsDepositEntryIndex);
        }
        let d = &self.deposits[index];
        Ok(d)
    }

    /// Whether the entry at `index` is in use.
    pub fn is_active(&self, index: u8) -> (res: Result<bool, VsrError>)
        ensures
            match res {
                Ok(active) => index < VOTER_DEPOSIT_ENTRY_COUNT && active
                    == self.deposits[index as int].is_active,
                Err(e) => index >= VOTER_DEPOSIT_ENTRY_COUNT && e
                    == VsrError::OutOfBoundsDepositEntryIndex,
            },
    {
        match self.deposit_entry_at(index) {
            Ok(d) => Ok(d.is_active()),
            Err(e) => Err(e),
        }
    }

    /// What all entries hold together.
    pub fn amount_deposited_native(&self) -> (sum: u64)
        requires
            self@.spec_amount_deposited_native() <= u64::MAX,
        ensures
            sum == self@.spec_amount_deposited_native(),
    {
        let ghost entries = self.deposits@;
        let ghost term = deposited_term();
        let mut sum: u64 = 0;
        let mut i: usize = 0;
        while i < 16
            invariant
                i <= 16,
                entries == self.deposits@,
                entries.len() == 16,
                term == deposited_term(),
                sum == sum_of(entries, term, i as nat),
                sum_of(entries, term, 16) <= u64::MAX,
            decreases 16 - i,
        {
            proof {
                lemma_sum_of_monotone(entries, term, (i + 1) as nat, 16);
            }
            sum = sum.checked_add(self.deposits[i].get_amount_deposited_native()).unwrap();
            i = i + 1;
        }
        sum
    }

    /// What is locked at `curr_ts` in the entries under a constant lockup.
    pub fn permanently_locked(&self, curr_ts: i64) -> (res: Result<u64, VsrError>)
        requires
            self@.lockups_inv(),
            self@.spec_permanently_locked(curr_ts) <= u64::MAX,
        ensures
            res == Ok::<u64, VsrError>(self@.spec_permanently_locked(curr_ts) as u64),
            self@.spec_permanently_locked(curr_ts) >= 0,
    {
        let ghost entries = self.deposits@;
        let ghost term = permanently_locked_term(curr_ts);
        proof {
            assert forall|k: int| 0 <= k < entries.len() implies term(#[trigger] entries[k])
                >= 0 by {
                entries[k].lemma_vested_bounds(curr_ts);
            }
            lemma_sum_of_monotone(entries, term, 0, 16);
        }
        let mut sum: u64 = 0;
        let mut i: usize = 0;
        while i < 16
            invariant
                i <= 16,
                entries == self.deposits@,
                entries.len() == 16,
                self@.lockups_inv(),
                term == permanently_locked_term(curr_ts),
                forall|k: int| 0 <= k < entries.len() ==> term(#[trigger] entries[k]) >= 0,
                sum == sum_of(entries, term, i as nat),
                sum_of(entries, term, 16) <= u64::MAX,
            decreases 16 - i,
        {
            proof {
                lemma_sum_of_monotone(entries, term, (i + 1) as nat, 16);
            }
            let d = &self.deposits[i];
            if d.is_active() && !d.get_lockup().is_vesting() {
                assert(self@.deposits[i as int].lockup_inv());
                match d.amount_locked(curr_ts) {
                    Ok(locked) => {
                        sum = sum.checked_add(locked).unwrap();
                    },
                    Err(e) => {
                        return Err(e);
                    },
                }
            }
            i = i + 1;
        }
        Ok(sum)
    }

    /// What is locked at `curr_ts` in the entries under a vesting lockup.
    pub fn vesting_locked(&self, curr_ts: i64) -> (res: Result<u64, VsrError>)
        requires
            self@.lockups_inv(),
            self@.spec_vesting_locked(curr_ts) <= u64::MAX,
        ensures
            res == Ok::<u64, VsrError>(self@.spec_vesting_locked(curr_ts) as u64),
            self@.spec_vesting_locked(curr_ts) >= 0,
    {
        let ghost entries = self.deposits@;
        let ghost term = vesting_locked_term(curr_ts);
        proof {
            assert forall|k: int| 0 <= k < entries.len() implies term(#[trigger] entries[k])
                >= 0 by {
                entries[k].lemma_vested_bounds(curr_ts);
            }
            lemma_sum_of_monotone(entries, term, 0, 16);
        }
        let mut sum: u64 = 0;
        let mut i: usize = 0;
        while i < 16
            invariant
                i <= 16,
                entries == self.deposits@,
                entries.len() == 16,
                self@.lockups_inv(),
                term == vesting_locked_term(curr_ts),
                forall|k: int| 0 <= k < entries.len() ==> term(#[trigger] entries[k]) >= 0,
                sum == sum_of(entries, term, i as nat),
                sum_of(entries, term, 16) <= u64::MAX,
            decreases 16 - i,
        {
            proof {
                lemma_sum_of_monotone(entries, term, (i + 1) as nat, 16);
            }
            let d = &self.deposits[i];
            if d.is_active() && d.get_lockup().is_vesting() {
                assert(self@.deposits[i as int].lockup_inv());
                match d.amount_locked(curr_ts) {
                    Ok(locked) => {
                        sum = sum.checked_add(locked).unwrap();
                    },
                    Err(e) => {
                        return Err(e);
                    },
                }
            }
            i = i + 1;
        }
        Ok(sum)
    }

    /// What is unlocked at `curr_ts` in the entries under a vesting
    /// lockup.
    pub fn vesting_unlocked(&self, curr_ts: i64) -> (res: Result<u64, VsrError>)
        requires
            self@.inv_at(curr_ts),
            self@.spec_vesting_unlocked(curr_ts) <= u64::MAX,
        ensures
            res == Ok::<u64, VsrError>(self@.spec_vesting_unlocked(curr_ts) as u64),
            self@.spec_vesting_unlocked(curr_ts) >= 0,
    {
        let ghost entries = self.deposits@;
        let ghost term = vesting_unlocked_term(curr_ts);
        proof {
            assert forall|k: int| 0 <= k < entries.len() implies term(#[trigger] entries[k])
                >= 0 by {
                entries[k].lemma_vested_bounds(curr_ts);
            }
            lemma_sum_of_monotone(entries, term, 0, 16);
        }
        let mut sum: u64 = 0;
        let mut i: usize = 0;
        while i < 16
            invariant
                i <= 16,
                entries == self.deposits@,
                entries.len() == 16,
                self@.inv_at(curr_ts),
                term == vesting_unlocked_term(curr_ts),
                forall|k: int| 0 <= k < entries.len() ==> term(#[trigger] entries[k]) >= 0,
                sum == sum_of(entries, term, i as nat),
                sum_of(entries, term, 16) <= u64::MAX,
            decreases 16 - i,
        {
            proof {
                lemma_sum_of_monotone(entries, term, (i + 1) as nat, 16);
            }
            let d = &self.deposits[i];
            if d.is_active() && d.get_lockup().is_vesting() {
                assert(self@.deposits[i as int].inv_at(curr_ts));
                match d.amount_unlocked(curr_ts) {
                    Ok(unlocked) => {
                        sum = sum.checked_add(unlocked).unwrap();
                    },
                    Err(e) => {
                        return Err(e);
                    },
                }
            }
            i = i + 1;
        }
        Ok(sum)
    }

    /// What `weight` and `weight_baseline` return for a sum.
    pub open spec fn checked_sum(sum: Result<int, VsrError>) -> Result<u64, VsrError> {
        match sum {
            Ok(n) => Ok(n as u64),
            Err(e) => Err(e),
        }
    }

    /// The full vote weight available to the voter.
    pub fn weight(&self, curr_ts: i64, registrar: &Registrar) -> (res: Result<u64, VsrError>)
        requires
            self@.weight_pre(curr_ts, *registrar),
        ensures
            res == Self::checked_sum(self@.spec_weight(curr_ts, *registrar)),
            self@.spec_weight(curr_ts, *registrar) matches Ok(sum) ==> 0 <= sum <= u64::MAX,
    {
        let ghost entries = self.deposits@;
        let ghost term = weight_term(registrar.voting_config, curr_ts);
        let ghost term_pre = weight_term_pre(registrar.voting_config, curr_ts);
        let mut sum: u64 = 0;
        let mut i: usize = 0;
        while i < 16
            invariant
                i <= 16,
                entries == self.deposits@,
                entries.len() == 16,
                term == weight_term(registrar.voting_config, curr_ts),
                term_pre == weight_term_pre(registrar.voting_config, curr_ts),
                try_sum_pre(entries, term, term_pre, 16),
                try_sum(entries, term, i as nat) == Ok::<int, VsrError>(sum as int),
            decreases 16 - i,
        {
            proof {
                lemma_try_sum_pre_prefix(entries, term, term_pre, (i + 1) as nat, 16);
            }
            let d = &self.deposits[i];
            if d.is_active() {
                match d.voting_power(&registrar.voting_config, curr_ts) {
                    Ok(vp) => {
                        sum = sum.checked_add(vp).unwrap();
                    },
                    Err(e) => {
                        proof {
                            lemma_try_sum_failure_stays(entries, term, (i + 1) as nat, 16);
                        }
                        return Err(e);
                    },
                }
            }
            i = i + 1;
        }
        Ok(sum)
    }

    /// The vote weight available to the voter when ignoring any lockup
    /// effects.
    pub fn weight_baseline(&self, registrar: &Registrar) -> (res: Result<u64, VsrError>)
        requires
            self@.weight_baseline_pre(*registrar),
        ensures
            res == Self::checked_sum(self@.spec_weight_baseline(*registrar)),
            self@.spec_weight_baseline(*registrar) matches Ok(sum) ==> 0 <= sum <= u64::MAX,
    {
        let ghost entries = self.deposits@;
        let ghost term = weight_baseline_term(registrar.voting_config);
        let ghost term_pre = no_term_pre();
        let mut sum: u64 = 0;
        let mut i: usize = 0;
        while i < 16
            invariant
                i <= 16,
                entries == self.deposits@,
                entries.len() == 16,
                term == weight_baseline_term(registrar.voting_config),
                term_pre == no_term_pre(),
                try_sum_pre(entries, term, term_pre, 16),
                try_sum(entries, term, i as nat) == Ok::<int, VsrError>(sum as int),
            decreases 16 - i,
        {
            proof {
                lemma_try_sum_pre_prefix(entries, term, term_pre, (i + 1) as nat, 16);
            }
            let d = &self.deposits[i];
            if d.is_active() {
                match registrar.voting_config.baseline_vote_weight(
                    d.get_amount_deposited_native(),
                ) {
                    Ok(vp) => {
                        sum = sum.checked_add(vp).unwrap();
                    },
                    Err(e) => {
                        proof {
                            lemma_try_sum_failure_stays(entries, term, (i + 1) as nat, 16);
                        }
                        return Err(e);
                    },
                }
            }
            i = i + 1;
        }
        Ok(sum)
    }

    /// Settles the rewards that the voter has earned since its last
    /// settlement. The registrar must have accrued at `curr_ts` itself.
    fn accrue_rewards(&mut self, curr_ts: i64, registrar: &Registrar) -> (res: Result<
        (),
        VsrError,
    >)
        requires
            old(self)@.accrue_pre(curr_ts, *registrar),
        ensures
            match old(self)@.spec_accrue_rewards(curr_ts, *registrar) {
                Ok(v) => res is Ok && final(self)@ == v,
                Err(e) => res == Err::<(), VsrError>(e) && *final(self) == *old(self),
            },
            final(self).deposits == old(self).deposits,
            res is Ok ==> {
                &&& final(self).reward_claimable_amount == old(self)@.spec_settled_claimable(
                    curr_ts,
                    *registrar,
                )
                &&& final(self).reward_index == old(self)@.spec_settled_index(*registrar)
                &&& old(self).reward_claimable_amount <= old(self)@.spec_settled_claimable(
                    curr_ts,
                    *registrar,
                )
            },
    {
        proof {
            if registrar.reward_index.0 >= old(self).reward_index.0 {
                old(self)@.lemma_reward_due_nonnegative(curr_ts, *registrar);
            }
        }
        if curr_ts != registrar.reward_accrual_ts {
            return Err(VsrError::InternalProgramError);
        }
        if registrar.reward_index.as_u128() > self.reward_index.as_u128() {
            let permanently_locked: u64 = match self.permanently_locked(curr_ts) {
                Ok(n) => n,
                Err(e) => {
                    return Err(e);
                },
            };
            let due: core::primitive::u128 = registrar.reward_index.sub(
                self.reward_index,
            ).mul_scalar(permanently_locked as core::primitive::u128).truncate();
            self.reward_claimable_amount = self.reward_claimable_amount.checked_add(
                u64::try_from(due).unwrap(),
            ).unwrap();
            self.reward_index = registrar.reward_index;
        }
        Ok(())
    }
    /// Takes the unused entry at `index` into use with the given lockup.
    /// A failed call changes nothing.
    pub fn activate(
        &mut self,
        index: u8,
        curr_ts: i64,
        lockup: Lockup,
        registrar: &mut Registrar,
    ) -> (res: Result<(), VsrError>)
        requires
            old(self)@.accrue_pre(curr_ts, *old(registrar)),
        ensures
            match old(self)@.spec_activate(index, curr_ts, lockup, *old(registrar)) {
                Ok((v, r)) => res is Ok && final(self)@ == v && *final(registrar) == r,
                Err(e) => res == Err::<(), VsrError>(e) && *final(self) == *old(self)
                    && *final(registrar) == *old(registrar),
            },
            *final(registrar) == *old(registrar),
            final(self)@.spec_permanently_deposited() == old(self)@.spec_permanently_deposited(),
            res is Ok ==> {
                &&& final(self).reward_claimable_amount == old(self)@.spec_settled_claimable(
                    curr_ts,
                    *old(registrar),
                )
                &&& final(self).reward_index == old(self)@.spec_settled_index(*old(registrar))
                &&& old(self).reward_claimable_amount <= old(self)@.spec_settled_claimable(
                    curr_ts,
                    *old(registrar),
                )
            },
            res is Ok ==> final(self).deposits[index as int] == DepositEntry::spec_new_from_lockup(
                lockup,
            ),
    {
        if curr_ts != registrar.reward_accrual_ts {
            return Err(VsrError::InternalProgramError);
        }
        let i: usize = index as usize;
        if !(self.deposits.len() > i) {
            return Err(VsrError::OutOfBoundsDepositEntryIndex);
        }
        if self.deposits[i].is_active() {
            return Err(VsrError::InternalProgramError);
        }
        let d: DepositEntry = match DepositEntry::new_from_lockup(lockup) {
            Ok(d) => d,
            Err(e) => {
                return Err(e);
            },
        };
        match self.accrue_rewards(curr_ts, &*registrar) {
            Ok(()) => {},
            Err(e) => {
                return Err(e);
            },
        }
        self.deposits[i] = d;
        proof {
            lemma_sum_of_update(
                old(self).deposits@,
                permanently_deposited_term(),
                i as int,
                d,
                16,
            );
        }
        Ok(())
    }

    /// Takes the entry at `index` out of use. A failed call changes
    /// nothing.
    pub fn deactivate(&mut self, index: u8, curr_ts: i64, registrar: &mut Registrar) -> (res:
        Result<(), VsrError>)
        requires
            old(self)@.deactivate_pre(index, curr_ts, *old(registrar)),
        ensures
            match old(self)@.spec_deactivate(index, curr_ts, *old(registrar)) {
                Ok((v, r)) => res is Ok && final(self)@ == v && *final(registrar) == r,
                Err(e) => res == Err::<(), VsrError>(e) && *final(self) == *old(self)
                    && *final(registrar) == *old(registrar),
            },
            final(registrar).permanently_locked_amount - old(registrar).permanently_locked_amount
                == final(self)@.spec_permanently_deposited()
                - old(self)@.spec_permanently_deposited(),
            res is Ok ==> {
                &&& final(self).reward_claimable_amount == old(self)@.spec_settled_claimable(
                    curr_ts,
                    *old(registrar),
                )
                &&& final(self).reward_index == old(self)@.spec_settled_index(*old(registrar))
                &&& old(self).reward_claimable_amount <= old(self)@.spec_settled_claimable(
                    curr_ts,
                    *old(registrar),
                )
            },
            res is Ok ==> {
                &&& final(self).deposits[index as int] == DepositEntry::spec_default()
                &&& final(registrar).permanently_locked_amount == if old(self).deposits[index as int].lockup.spec_is_vesting() {
                    old(registrar).permanently_locked_amount as int
                } else {
                    old(registrar).permanently_locked_amount - old(self).deposits[index as int].amount_deposited_native
                }
            },
    {
        if curr_ts != registrar.reward_accrual_ts {
            return Err(VsrError::InternalProgramError);
        }
        let i: usize = index as usize;
        if !(self.deposits.len() > i) {
            return Err(VsrError::OutOfBoundsDepositEntryIndex);
        }
        let before: DepositEntry = self.deposits[i];
        let mut d: DepositEntry = before;
        match d.deactivate() {
            Ok(()) => {},
            Err(e) => {
                return Err(e);
            },
        }
        match self.accrue_rewards(curr_ts, &*registrar) {
            Ok(()) => {},
            Err(e) => {
                return Err(e);
            },
        }
        // What the entry held under a constant lockup is no longer
        // permanently locked.
        if !before.get_lockup().is_vesting() {
            registrar.permanently_locked_amount = registrar.permanently_locked_amount.checked_sub(
                before.get_amount_deposited_native(),
            ).unwrap();
        }
        self.deposits[i] = d;
        proof {
            lemma_sum_of_update(
                old(self).deposits@,
                permanently_deposited_term(),
                i as int,
                d,
                16,
            );
        }
        Ok(())
    }

    /// Adds `amount` to the entry at `index`. A failed call changes
    /// nothing.
    pub fn deposit(
        &mut self,
        index: u8,
        curr_ts: i64,
        amount: u64,
        registrar: &mut Registrar,
    ) -> (res: Result<(), VsrError>)
        requires
            old(self)@.deposit_pre(index, curr_ts, amount, *old(registrar)),
        ensures
            match old(self)@.spec_deposit(index, curr_ts, amount, *old(registrar)) {
                Ok((v, r)) => res is Ok && final(self)@ == v && *final(registrar) == r,
                Err(e) => res == Err::<(), VsrError>(e) && *final(self) == *old(self)
                    && *final(registrar) == *old(registrar),
            },
            final(registrar).permanently_locked_amount - old(registrar).permanently_locked_amount
                == final(self)@.spec_permanently_deposited()
                - old(self)@.spec_permanently_deposited(),
            res is Ok ==> {
                &&& final(self).reward_claimable_amount == old(self)@.spec_settled_claimable(
                    curr_ts,
                    *old(registrar),
                )
                &&& final(self).reward_index == old(self)@.spec_settled_index(*old(registrar))
                &&& old(self).reward_claimable_amount <= old(self)@.spec_settled_claimable(
                    curr_ts,
                    *old(registrar),
                )
            },
            res is Ok ==> {
                &&& final(self).deposits[index as int].amount_deposited_native == old(self).deposits[index as int].amount_deposited_native + amount
                &&& final(self).deposits[index as int].amount_initially_locked_native == old(self).deposits[index as int].spec_amount_locked(curr_ts) + amount
                &&& final(self).deposits[index as int].lockup == old(self).deposits[index as int].spec_lockup_after_deposit(curr_ts)
                &&& final(registrar).permanently_locked_amount == if old(self).deposits[index as int].lockup.spec_is_vesting() {
                    old(registrar).permanently_locked_amount as int
                } else {
                    old(registrar).permanently_locked_amount + amount
                }
            },
    {
        if curr_ts != registrar.reward_accrual_ts {
            return Err(VsrError::InternalProgramError);
        }
        let i: usize = index as usize;
        if !(self.deposits.len() > i) {
            return Err(VsrError::OutOfBoundsDepositEntryIndex);
        }
        let mut d: DepositEntry = self.deposits[i];
        match d.deposit(curr_ts, amount) {
            Ok(()) => {},
            Err(e) => {
                return Err(e);
            },
        }
        match self.accrue_rewards(curr_ts, &*registrar) {
            Ok(()) => {},
            Err(e) => {
                return Err(e);
            },
        }
        self.deposits[i] = d;
        // Under a constant lockup the amount is permanently locked.
        if !d.get_lockup().is_vesting() {
            registrar.permanently_locked_amount = registrar.permanently_locked_amount.checked_add(
                amount,
            ).unwrap();
        }
        proof {
            lemma_sum_of_update(
                old(self).deposits@,
                permanently_deposited_term(),
                i as int,
                d,
                16,
            );
        }
        Ok(())
    }

    /// Takes `amount` out of the entry at `index` and returns what the
    /// entry still holds. What leaves an entry under a constant lockup
    /// leaves the registrar's permanently locked amount. A failed call
    /// changes nothing.
    pub fn withdraw(
        &mut self,
        index: u8,
        curr_ts: i64,
        amount: u64,
        registrar: &mut Registrar,
    ) -> (res: Result<u64, VsrError>)
        requires
            old(self)@.withdraw_pre(index, curr_ts, amount, *old(registrar)),
        ensures
            match old(self)@.spec_withdraw(index, curr_ts, amount, *old(registrar)) {
                Ok((v, r)) => res == Ok::<u64, VsrError>(
                    v.deposits[index as int].amount_deposited_native,
                ) && final(self)@ == v && *final(registrar) == r,
                Err(e) => res == Err::<u64, VsrError>(e) && *final(self) == *old(self)
                    && *final(registrar) == *old(registrar),
            },
            final(registrar).permanently_locked_amount - old(registrar).permanently_locked_amount
                == final(self)@.spec_permanently_deposited()
                - old(self)@.spec_permanently_deposited(),
            res matches Ok(left) ==> {
                &&& left == old(self).deposits[index as int].amount_deposited_native - amount
                &&& final(self).deposits[index as int].amount_deposited_native == left
                &&& final(registrar).permanently_locked_amount == if old(self).deposits[index as int].lockup.spec_is_vesting() {
                    old(registrar).permanently_locked_amount as int
                } else {
                    old(registrar).permanently_locked_amount - amount
                }
            },
            res is Ok ==> {
                &&& final(self).reward_claimable_amount == old(self)@.spec_settled_claimable(
                    curr_ts,
                    *old(registrar),
                )
                &&& final(self).reward_index == old(self)@.spec_settled_index(*old(registrar))
                &&& old(self).reward_claimable_amount <= old(self)@.spec_settled_claimable(
                    curr_ts,
                    *old(registrar),
                )
            },
    {
        if curr_ts != registrar.reward_accrual_ts {
            return Err(VsrError::InternalProgramError);
        }
        let i: usize = index as usize;
        if !(self.deposits.len() > i) {
            return Err(VsrError::OutOfBoundsDepositEntryIndex);
        }
        let mut d: DepositEntry = self.deposits[i];
        match d.withdraw(curr_ts, amount) {
            Ok(()) => {},
            Err(e) => {
                return Err(e);
            },
        }
        match self.accrue_rewards(curr_ts, &*registrar) {
            Ok(()) => {},
            Err(e) => {
                return Err(e);
            },
        }
        self.deposits[i] = d;
        // What leaves an entry under a constant lockup is no longer
        // permanently locked.
        if !d.get_lockup().is_vesting() {
            registrar.permanently_locked_amount = registrar.permanently_locked_amount.checked_sub(
                amount,
            ).unwrap();
        }
        proof {
            lemma_sum_of_update(
                old(self).deposits@,
                permanently_deposited_term(),
                i as int,
                d,
                16,
            );
        }
        Ok(d.get_amount_deposited_native())
    }

    /// Settles the rewards and pays out all that can be claimed.
    pub fn claim_reward(&mut self, curr_ts: i64, registrar: &mut Registrar) -> (res: Result<
        u64,
        VsrError,
    >)
        requires
            old(self)@.accrue_pre(curr_ts, *old(registrar)),
        ensures
            match old(self)@.spec_claim_reward(curr_ts, *old(registrar)) {
                Ok((v, claimed)) => res == Ok::<u64, VsrError>(claimed) && final(self)@ == v,
                Err(e) => res == Err::<u64, VsrError>(e) && *final(self) == *old(self),
            },
            *final(registrar) == *old(registrar),
            final(self).deposits == old(self).deposits,
            res matches Ok(claimed) ==> {
                &&& claimed == old(self)@.spec_settled_claimable(curr_ts, *old(registrar))
                &&& old(self).reward_claimable_amount <= claimed
                &&& final(self).reward_claimable_amount == 0
                &&& final(self).reward_index == old(self)@.spec_settled_index(*old(registrar))
            },
            res is Ok <==> curr_ts == old(registrar).reward_accrual_ts,
    {
        match self.accrue_rewards(curr_ts, &*registrar) {
            Ok(()) => {},
            Err(e) => {
                return Err(e);
            },
        }
        let claimed_amount: u64 = self.reward_claimable_amount;
        self.reward_claimable_amount = 0;
        Ok(claimed_amount)
    }
}

} // verus!
