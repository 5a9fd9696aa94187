use vstd::prelude::*;

verus! {

/// Every way an instruction of the program can be refused.
#[derive(Clone, Copy, Debug, PartialEq, Eq, Structural)]
pub enum SubscriptionsError {
    NotEnoughAccountKeys,
    NotSigner,
    AccountNotWritable,
    NotSystemProgram,
    IncorrectProgramId,
    InvalidAccountOwner,
    InvalidAccountData,
    InvalidAccountDiscriminator,
    InvalidInstructionData,
    InvalidHeaderData,
    InvalidPayerData,
    InvalidAddress,
    InvalidAmount,
    InvalidPeriodLength,
    ArithmeticOverflow,
    ArithmeticUnderflow,
    Unauthorized,
    MintMismatch,
    FixedDelegationExpiryInPast,
    FixedDelegationAmountZero,
    RecurringDelegationStartTimeInPast,
    RecurringDelegationStartTimeGreaterThanExpiry,
    RecurringDelegationAmountZero,
    UpToDelegationExpiryInPast,
    UpToDelegationAmountZero,
    UpToDelegationConsumed,
    UpToRecipientMismatch,
    DelegationExpired,
    DelegationNotStarted,
    DelegationAlreadyExists,
    AmountExceedsLimit,
    AmountExceedsPeriodLimit,
    InvalidDelegatePda,
    InvalidSubscriptionAuthorityPda,
    InvalidAssociatedTokenAccountDerivedAddress,
    StaleSubscriptionAuthority,
    InvalidToken2022MintAccountData,
    TransferHookTooManyAccounts,
    TransferHookValidationAccountMissing,
    UnauthorizedDestination,
    InvalidPlanStatus,
    InvalidEndTs,
    NotPlanOwner,
    PlanImmutableAfterSunset,
    SunsetRequiresEndTs,
    PlanExpired,
    PlanEndTsCannotExtend,
    PlanAlreadyExists,
    InvalidPlanPda,
    PlanNotExpired,
    PlanSunset,
    PlanClosed,
    PlanTermsMismatch,
    InvalidSubscriptionPda,
    AlreadySubscribed,
    SubscriptionAlreadyCancelled,
    SubscriptionPlanMismatch,
    SubscriptionNotCancelled,
    SubscriptionCancelled,
    MigrationRequired,
    InvalidEventTag,
    InvalidEventDiscriminator,
}

} // verus!
