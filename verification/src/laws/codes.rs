//! The codes by which clients tell the errors apart.
use crate::errors::EscrowError;
use vstd::prelude::*;

verus! {

/// Every code is the published one, for good: clients branch on these numbers, so none is ever
/// given to another error, and no error ever changes its own.
pub proof fn lemma_codes_are_published(error: EscrowError, code: u32)
    requires
        call_ensures(EscrowError::code, (error,), code),
    ensures
        code == 1 <==> error is AmountMustBePositive,
        code == 2 <==> error is YieldBpsOutOfRange,
        code == 3 <==> error is EscrowAlreadyInitialized,
        code == 4 <==> error is InvoiceIdInvalidLength,
        code == 5 <==> error is InvoiceIdInvalidCharset,
        code == 6 <==> error is MinContributionNotPositive,
        code == 7 <==> error is MinContributionExceedsAmount,
        code == 8 <==> error is MaxUniqueInvestorsNotPositive,
        code == 9 <==> error is MaxPerInvestorNotPositive,
        code == 10 <==> error is TierYieldOutOfRange,
        code == 11 <==> error is TierYieldBelowBase,
        code == 12 <==> error is TierLockNotIncreasing,
        code == 13 <==> error is TierYieldNotNonDecreasing,
        code == 14 <==> error is AmountExceedsMax,
        code == 20 <==> error is EscrowNotInitialized,
        code == 21 <==> error is FundingTokenNotSet,
        code == 22 <==> error is TreasuryNotSet,
        code == 24 <==> error is MaxPerInvestorCapNotConfigured,
        code == 25 <==> error is MaxPerInvestorCapNotRaised,
        code == 30 <==> error is LegalHoldBlocksTreasuryDustSweep,
        code == 31 <==> error is SweepAmountNotPositive,
        code == 32 <==> error is SweepAmountExceedsMax,
        code == 33 <==> error is DustSweepNotTerminal,
        code == 34 <==> error is NoFundingTokenBalanceToSweep,
        code == 35 <==> error is EffectiveSweepAmountZero,
        code == 36 <==> error is TransferAmountNotPositive,
        code == 37 <==> error is InsufficientTokenBalanceBeforeTransfer,
        code == 38 <==> error is SenderBalanceUnderflow,
        code == 39 <==> error is RecipientBalanceUnderflow,
        code == 40 <==> error is SenderBalanceDeltaMismatch,
        code == 41 <==> error is RecipientBalanceDeltaMismatch,
        code == 42 <==> error is SweepExceedsLiabilityFloor,
        code == 50 <==> error is PrimaryAttestationAlreadyBound,
        code == 51 <==> error is AttestationAppendLogCapacityReached,
        code == 52 <==> error is AttestationIndexOutOfRange,
        code == 53 <==> error is AttestationAlreadyRevoked,
        code == 54 <==> error is AttestationBatchEmpty,
        code == 55 <==> error is AttestationBatchTooLarge,
        code == 56 <==> error is AttestationNotRevoked,
        code == 60 <==> error is CollateralAmountNotPositive,
        code == 61 <==> error is CollateralAssetEmpty,
        code == 62 <==> error is CollateralTimestampBackwards,
        code == 70 <==> error is InvestorBatchEmpty,
        code == 71 <==> error is InvestorBatchTooLarge,
        code == 72 <==> error is TargetNotPositive,
        code == 73 <==> error is TargetUpdateNotOpen,
        code == 74 <==> error is TargetBelowFundedAmount,
        code == 75 <==> error is CapLowerNotOpen,
        code == 76 <==> error is NoInvestorCapConfigured,
        code == 77 <==> error is NewCapNotLower,
        code == 78 <==> error is NewCapBelowCurrentFunderCount,
        code == 79 <==> error is MaturityUpdateNotOpen,
        code == 80 <==> error is NewAdminSameAsCurrent,
        code == 81 <==> error is MaturityUnchanged,
        code == 82 <==> error is FundingBatchEmpty,
        code == 83 <==> error is FundingBatchTooLarge,
        code == 85 <==> error is AdminProposalExpired,
        code == 90 <==> error is MigrationVersionMismatch,
        code == 91 <==> error is AlreadyCurrentSchemaVersion,
        code == 92 <==> error is NoMigrationPath,
        code == 100 <==> error is FundingAmountNotPositive,
        code == 101 <==> error is FundingBelowMinContribution,
        code == 102 <==> error is LegalHoldBlocksFunding,
        code == 103 <==> error is EscrowNotOpenForFunding,
        code == 104 <==> error is InvestorNotAllowlisted,
        code == 105 <==> error is InvestorContributionOverflow,
        code == 106 <==> error is InvestorContributionExceedsCap,
        code == 107 <==> error is UniqueInvestorCapReached,
        code == 108 <==> error is TieredSecondDeposit,
        code == 109 <==> error is InvestorClaimTimeOverflow,
        code == 110 <==> error is FundedAmountOverflow,
        code == 111 <==> error is CommitmentLockExceedsMaturity,
        code == 112 <==> error is ContributionBatchTooLarge,
        code == 120 <==> error is LegalHoldBlocksSettlement,
        code == 121 <==> error is SettlementNotFunded,
        code == 122 <==> error is MaturityNotReached,
        code == 123 <==> error is LegalHoldBlocksWithdrawal,
        code == 124 <==> error is WithdrawalNotFunded,
        code == 125 <==> error is LegalHoldBlocksInvestorClaims,
        code == 126 <==> error is NoContributionToClaim,
        code == 127 <==> error is InvestorClaimNotSettled,
        code == 128 <==> error is InvestorCommitmentLockNotExpired,
        code == 129 <==> error is ComputePayoutArithmeticOverflow,
        code == 140 <==> error is LegalHoldBlocksCancelFunding,
        code == 141 <==> error is CancelFundingNotOpen,
        code == 142 <==> error is RefundNotCancelled,
        code == 143 <==> error is NoContributionToRefund,
        code == 150 <==> error is LegalHoldClearRequestMissing,
        code == 151 <==> error is LegalHoldClearNotReady,
        code == 152 <==> error is LegalHoldClearDelayOverflow,
        code == 160 <==> error is LegalHoldBlocksBeneficiaryRotation,
        code == 161 <==> error is RotationNotOpen,
        code == 162 <==> error is NewSmeSameAsCurrent,
        code == 164 <==> error is FundingDeadlinePassed,
        code == 165 <==> error is InsufficientContractBalance,
        code == 166 <==> error is MaturityInPast,
        code == 167 <==> error is MaturityExceedsMaxHorizon,
        code == 169 <==> error is NoCollateralToClear,
        code == 170 <==> error is PayoutZero,
        code == 171 <==> error is FundingDeadlineUpdateNotOpen,
        code == 172 <==> error is NoPendingAdmin,
        code == 173 <==> error is FloorLowerNotOpen,
        code == 174 <==> error is NewFloorNotLower,
        code == 175 <==> error is NewFloorNotPositive,
        code == 176 <==> error is NewCapNotHigher,
        code == 200 <==> error is PartialSettleUnauthorizedCaller,
        code == 201 <==> error is LegalHoldBlocksPartialSettle,
        code == 202 <==> error is PartialSettleNotOpen,
        code == 203 <==> error is HorizonNotRaised,
        code == 204 <==> error is PausedBlocksFunding,
        code == 205 <==> error is PausedBlocksSettlement,
        code == 206 <==> error is PausedBlocksWithdrawal,
        code == 207 <==> error is PausedBlocksInvestorClaims,
        code == error.spec_code(),
{
}

} // verus!
