use vstd::prelude::*;

verus! {

/// Everything an operation of the registry can report to its caller.
///
/// The order of the variants is part of the interface: a front end that
/// numbers its error codes does so by position.
#[derive(Clone, Copy, PartialEq, Eq, Debug, Structural)]
pub enum VsrError {
    InvalidRate,
    RatesFull,
    InvalidVotingMint,
    DepositEntryNotFound,
    DepositEntryFull,
    VotingTokenNonZero,
    OutOfBoundsDepositEntryIndex,
    UnusedDepositEntryIndex,
    InsufficientUnlockedTokens,
    UnableToConvert,
    InvalidLockupPeriod,
    InvalidEndTs,
    InvalidDays,
    VotingMintConfigIndexAlreadyInUse,
    OutOfBoundsVotingMintConfigIndex,
    InvalidDecimals,
    InvalidToDepositAndWithdrawInOneSlot,
    ShouldBeTheFirstIxInATx,
    ForbiddenCpi,
    InvalidMint,
    DebugInstruction,
    ClawbackNotAllowedOnDeposit,
    DepositStillLocked,
    InvalidAuthority,
    InvalidTokenOwnerRecord,
    InvalidRealmAuthority,
    VoterWeightOverflow,
    LockupSaturationMustBePositive,
    VotingMintConfiguredWithDifferentIndex,
    InternalProgramError,
    InsufficientLockedTokens,
    MustKeepTokensLocked,
    InvalidLockupKind,
    InvalidChangeToClawbackDepositEntry,
    InternalErrorBadLockupVoteWeight,
    DepositStartTooFarInFuture,
    VaultTokenNonZero,
    InvalidTimestampArguments,
    NodeDepositReservedEntryIndex,
    InactiveDepositEntry,
    NotOrdinaryDepositEntry,
    NotNodeDepositEntry,
    NodeDepositUnreleasableAtPresent,
    DepositEntryExhausted,
    ZeroDepositAmount,
    NodeSecurityDepositMustBePositive,
    DuplicateNodeDeposit,
    ActiveDepositEntryIndex,
    InvalidLockupDuration,
    CanNotShortenLockupDuration,
    ZeroAmount,
    GoverningTokenNonZero,
}

} // verus!
