//! Why a call is refused.
use crate::values::Address;
use vstd::prelude::*;

verus! {

/// Stable typed errors of the escrow entrypoints.
///
/// The numeric codes ([`EscrowError::code`]) are append-only: a code is never reused and a variant
/// never renumbered. Clients should branch on the code.
#[derive(Copy, Clone, Debug, Eq, PartialEq, PartialOrd, Ord)]
pub enum EscrowError {
    /// [`crate::LiquifactEscrow::init`] rejected a non-positive invoice amount.
    AmountMustBePositive,
    /// [`crate::LiquifactEscrow::init`] rejected `yield_bps` outside `0..=10_000`.
    YieldBpsOutOfRange,
    /// [`crate::LiquifactEscrow::init`] called when escrow storage already exists.
    EscrowAlreadyInitialized,
    /// [`crate::LiquifactEscrow::init`] rejected an invoice amount too large to keep
    /// `compute_investor_payout` arithmetic overflow-free.
    AmountExceedsMax,
    /// [`crate::LiquifactEscrow::init`] rejected an `invoice_id` outside the allowed length range.
    InvoiceIdInvalidLength,
    /// [`crate::LiquifactEscrow::init`] rejected an `invoice_id` with disallowed characters.
    InvoiceIdInvalidCharset,
    /// [`crate::LiquifactEscrow::init`] configured `min_contribution` but it is not positive.
    MinContributionNotPositive,
    /// [`crate::LiquifactEscrow::init`] configured `min_contribution` above the target hint.
    MinContributionExceedsAmount,
    /// [`crate::LiquifactEscrow::init`] configured `max_unique_investors` but it is not positive.
    MaxUniqueInvestorsNotPositive,
    /// [`crate::LiquifactEscrow::init`] configured `max_per_investor` but it is not positive.
    MaxPerInvestorNotPositive,
    /// [`crate::LiquifactEscrow::init`] rejected a tier with `yield_bps` outside `0..=10_000`.
    TierYieldOutOfRange,
    /// [`crate::LiquifactEscrow::init`] rejected a tier yield below the base `yield_bps`.
    TierYieldBelowBase,
    /// [`crate::LiquifactEscrow::init`] rejected tiers whose `min_lock_secs` are not strictly
    /// increasing.
    TierLockNotIncreasing,
    /// [`crate::LiquifactEscrow::init`] rejected tiers whose `yield_bps` decrease across tiers.
    TierYieldNotNonDecreasing,

    /// Escrow storage is missing; entrypoint requires prior [`crate::LiquifactEscrow::init`].
    EscrowNotInitialized,
    /// [`crate::types::DataKey::FundingToken`] is unset (escrow not fully initialized).
    FundingTokenNotSet,
    /// [`crate::types::DataKey::Treasury`] is unset (escrow not fully initialized).
    TreasuryNotSet,

    /// [`crate::LiquifactEscrow::sweep_terminal_dust`] blocked while a legal hold is active.
    LegalHoldBlocksTreasuryDustSweep,
    /// [`crate::LiquifactEscrow::sweep_terminal_dust`] received a non-positive sweep amount.
    SweepAmountNotPositive,
    /// [`crate::LiquifactEscrow::sweep_terminal_dust`] exceeded
    /// [`crate::types::MAX_DUST_SWEEP_AMOUNT`].
    SweepAmountExceedsMax,
    /// [`crate::LiquifactEscrow::sweep_terminal_dust`] called before a terminal escrow status.
    DustSweepNotTerminal,
    /// [`crate::LiquifactEscrow::sweep_terminal_dust`] found no funding-token balance to sweep.
    NoFundingTokenBalanceToSweep,
    /// [`crate::LiquifactEscrow::sweep_terminal_dust`] computed an effective sweep amount of zero.
    EffectiveSweepAmountZero,
    /// Token transfer wrapper received a non-positive amount (see `external_calls`).
    TransferAmountNotPositive,
    /// Token transfer wrapper found insufficient sender balance before transfer.
    InsufficientTokenBalanceBeforeTransfer,
    /// Token transfer wrapper detected sender balance delta underflow.
    SenderBalanceUnderflow,
    /// Token transfer wrapper detected recipient balance delta underflow.
    RecipientBalanceUnderflow,
    /// Token transfer wrapper detected sender spent amount differs from requested transfer.
    SenderBalanceDeltaMismatch,
    /// Token transfer wrapper detected recipient received amount differs from requested transfer.
    RecipientBalanceDeltaMismatch,
    /// Sweep would reduce the contract balance below outstanding investor liabilities.
    /// `balance - sweep_amt` must be `>= funded_amount - distributed_principal`.
    SweepExceedsLiabilityFloor,

    /// [`crate::LiquifactEscrow::bind_primary_attestation_hash`] called when a primary hash exists.
    PrimaryAttestationAlreadyBound,
    /// [`crate::LiquifactEscrow::append_attestation_digest`] exceeded
    /// [`crate::types::MAX_ATTESTATION_APPEND_ENTRIES`].
    AttestationAppendLogCapacityReached,
    /// [`crate::LiquifactEscrow::revoke_attestation_digest`] received an `index >= log.len()`.
    AttestationIndexOutOfRange,
    /// [`crate::LiquifactEscrow::revoke_attestation_digest`] called on an already-revoked index.
    AttestationAlreadyRevoked,
    /// [`crate::LiquifactEscrow::revoke_attestation_digests`] received an empty indices list.
    AttestationBatchEmpty,
    /// [`crate::LiquifactEscrow::revoke_attestation_digests`] exceeded
    /// [`crate::types::MAX_ATTESTATION_REVOKE_BATCH`].
    AttestationBatchTooLarge,
    /// [`crate::LiquifactEscrow::unrevoke_attestation_digest`] called on an index that is not
    /// revoked.
    AttestationNotRevoked,

    /// [`crate::LiquifactEscrow::record_sme_collateral_commitment`] received a non-positive amount.
    CollateralAmountNotPositive,
    /// [`crate::LiquifactEscrow::record_sme_collateral_commitment`] received an empty asset symbol.
    CollateralAssetEmpty,
    /// [`crate::LiquifactEscrow::record_sme_collateral_commitment`] received a timestamp before the
    /// stored record.
    CollateralTimestampBackwards,

    /// [`crate::LiquifactEscrow::set_investors_allowlisted`] received an empty batch.
    InvestorBatchEmpty,
    /// [`crate::LiquifactEscrow::set_investors_allowlisted`] exceeded
    /// [`crate::types::MAX_INVESTOR_ALLOWLIST_BATCH`].
    InvestorBatchTooLarge,
    /// [`crate::LiquifactEscrow::fund_batch`] received an empty entries vector.
    FundingBatchEmpty,
    /// [`crate::LiquifactEscrow::fund_batch`] exceeded [`crate::types::MAX_FUND_BATCH`].
    FundingBatchTooLarge,
    /// [`crate::LiquifactEscrow::update_funding_target`] received a non-positive target.
    TargetNotPositive,
    /// [`crate::LiquifactEscrow::update_funding_target`] called while escrow is not open.
    TargetUpdateNotOpen,
    /// [`crate::LiquifactEscrow::update_funding_target`] set target below already-funded principal.
    TargetBelowFundedAmount,
    /// [`crate::LiquifactEscrow::lower_max_unique_investors`] called while escrow is not open.
    CapLowerNotOpen,
    /// [`crate::LiquifactEscrow::lower_max_unique_investors`] called with no investor cap
    /// configured.
    NoInvestorCapConfigured,
    /// [`crate::LiquifactEscrow::lower_max_unique_investors`] did not strictly lower the cap.
    NewCapNotLower,
    /// [`crate::LiquifactEscrow::raise_max_unique_investors`] did not strictly raise the cap.
    NewCapNotHigher,
    /// [`crate::LiquifactEscrow::lower_max_unique_investors`] set cap below current unique funder
    /// count.
    NewCapBelowCurrentFunderCount,
    /// [`crate::LiquifactEscrow::update_maturity`] called while escrow is not open.
    MaturityUpdateNotOpen,
    /// [`crate::LiquifactEscrow::propose_admin`] nominated the current admin address.
    NewAdminSameAsCurrent,
    /// [`crate::LiquifactEscrow::update_maturity`] set maturity to the same value as current.
    MaturityUnchanged,
    /// [`crate::LiquifactEscrow::accept_admin`] called after the proposal expiry recorded at
    /// [`crate::types::DataKey::PendingAdminExpiry`]. Re-propose to nominate a fresh successor.
    AdminProposalExpired,

    /// [`crate::LiquifactEscrow::migrate`] `from_version` does not match stored version.
    MigrationVersionMismatch,
    /// [`crate::LiquifactEscrow::migrate`] called at or above [`crate::types::SCHEMA_VERSION`].
    AlreadyCurrentSchemaVersion,
    /// [`crate::LiquifactEscrow::migrate`] has no implemented path from the requested version.
    NoMigrationPath,

    /// [`crate::LiquifactEscrow::fund`] / [`crate::LiquifactEscrow::fund_with_commitment`] received
    /// non-positive amount.
    FundingAmountNotPositive,
    /// Funding amount is below configured `min_contribution`.
    FundingBelowMinContribution,
    /// Funding blocked while a legal hold is active.
    LegalHoldBlocksFunding,
    /// Funding attempted while escrow is not in open status.
    EscrowNotOpenForFunding,
    /// Allowlist gate active and investor address is not allowlisted.
    InvestorNotAllowlisted,
    /// Adding funding would overflow the investor's stored contribution.
    InvestorContributionOverflow,
    /// Funding would exceed configured `max_per_investor`.
    InvestorContributionExceedsCap,
    /// A new investor would exceed configured `max_unique_investors`.
    UniqueInvestorCapReached,
    /// [`crate::LiquifactEscrow::fund_with_commitment`] called after investor already has
    /// principal.
    TieredSecondDeposit,
    /// Computing investor claim-not-before timestamp would overflow.
    InvestorClaimTimeOverflow,
    /// Adding funding would overflow escrow `funded_amount`.
    FundedAmountOverflow,
    /// Commitment lock would push `now + committed_lock_secs` past the escrow maturity.
    /// Reject at deposit time so a settled escrow cannot hold an investor's payout
    /// claim hostage beyond the point where principal is due.
    CommitmentLockExceedsMaturity,
    /// [`crate::LiquifactEscrow::get_contributions`] exceeded
    /// [`crate::types::MAX_CONTRIBUTIONS_BATCH`].
    ContributionBatchTooLarge,

    /// [`crate::LiquifactEscrow::settle`] blocked while a legal hold is active.
    LegalHoldBlocksSettlement,
    /// [`crate::LiquifactEscrow::settle`] called before escrow reached funded status.
    SettlementNotFunded,
    /// [`crate::LiquifactEscrow::settle`] called before configured maturity timestamp.
    MaturityNotReached,
    /// [`crate::LiquifactEscrow::withdraw`] blocked while a legal hold is active.
    LegalHoldBlocksWithdrawal,
    /// [`crate::LiquifactEscrow::withdraw`] called before escrow reached funded status.
    WithdrawalNotFunded,
    /// [`crate::LiquifactEscrow::claim_investor_payout`] blocked while a legal hold is active.
    LegalHoldBlocksInvestorClaims,
    /// [`crate::LiquifactEscrow::claim_investor_payout`] for an address with zero contribution.
    NoContributionToClaim,
    /// [`crate::LiquifactEscrow::claim_investor_payout`] before escrow is settled.
    InvestorClaimNotSettled,
    /// [`crate::LiquifactEscrow::claim_investor_payout`] before tier commitment lock expires.
    InvestorCommitmentLockNotExpired,
    /// Checked arithmetic overflow in [`crate::LiquifactEscrow::compute_investor_payout`].
    ComputePayoutArithmeticOverflow,

    /// [`crate::LiquifactEscrow::cancel_funding`] blocked while a legal hold is active.
    LegalHoldBlocksCancelFunding,
    /// [`crate::LiquifactEscrow::cancel_funding`] called while escrow is not open.
    CancelFundingNotOpen,
    /// [`crate::LiquifactEscrow::refund`] called while escrow is not cancelled.
    RefundNotCancelled,
    /// [`crate::LiquifactEscrow::refund`] for an address with zero contribution.
    NoContributionToRefund,

    /// `clear_legal_hold` was called without a prior `request_legal_hold_clear`.
    LegalHoldClearRequestMissing,
    /// The two-phase legal-hold clear delay has not elapsed yet.
    LegalHoldClearNotReady,
    /// Computing the legal-hold clear ready-at timestamp would overflow.
    LegalHoldClearDelayOverflow,
    /// Funding deadline has passed, new deposits are rejected.
    FundingDeadlinePassed,

    /// A legal hold blocks rotating the beneficiary (SME) address.
    LegalHoldBlocksBeneficiaryRotation,
    /// Beneficiary rotation was attempted while the escrow was not in a
    /// pre-settlement state (`status` must be 0 = open or 1 = funded).
    RotationNotOpen,
    /// The proposed new SME address is identical to the current beneficiary.
    NewSmeSameAsCurrent,

    /// Attempted to accept or cancel admin role when no pending admin exists.
    NoPendingAdmin,
    /// The contract's funding-token balance is less than `funded_amount` at withdraw time.
    /// Funds must be custodied in this contract before the SME can pull them.
    InsufficientContractBalance,
    /// The maturity timestamp is in the past relative to the current ledger time.
    MaturityInPast,
    /// The maturity timestamp exceeds the configured maximum horizon from the current ledger time.
    MaturityExceedsMaxHorizon,
    /// `clear_sme_collateral_commitment` was called when no commitment pledge exists.
    NoCollateralToClear,
    /// The computed investor payout is zero; nothing to transfer.
    PayoutZero,
    /// `update_funding_deadline` was called on a non-open escrow (status != 0).
    FundingDeadlineUpdateNotOpen,

    /// [`crate::LiquifactEscrow::lower_min_contribution_floor`] called while escrow is not open.
    FloorLowerNotOpen,
    /// [`crate::LiquifactEscrow::lower_min_contribution_floor`] did not strictly lower the floor.
    NewFloorNotLower,
    /// [`crate::LiquifactEscrow::lower_min_contribution_floor`] received a non-positive floor.
    NewFloorNotPositive,
    /// Caller is not authorized to perform partial settlement.
    /// Only the escrow's `sme_address` or `admin` may call
    /// [`crate::LiquifactEscrow::partial_settle`].
    PartialSettleUnauthorizedCaller,
    /// [`crate::LiquifactEscrow::partial_settle`] blocked while a legal hold is active.
    LegalHoldBlocksPartialSettle,
    /// [`crate::LiquifactEscrow::partial_settle`] called while escrow is not in open status
    /// (`status != 0`).
    PartialSettleNotOpen,
    /// [`crate::LiquifactEscrow::raise_max_per_investor`] called with no per-investor cap
    /// configured.
    MaxPerInvestorCapNotConfigured,
    /// [`crate::LiquifactEscrow::raise_max_per_investor`] did not strictly raise the cap.
    MaxPerInvestorCapNotRaised,
    /// [`crate::LiquifactEscrow::raise_maturity_max_horizon`] received a `new_horizon` that is
    /// not strictly greater than the current stored horizon.
    HorizonNotRaised,
    /// Funding blocked while the operational pause is active.
    PausedBlocksFunding,
    /// [`crate::LiquifactEscrow::settle`] blocked while the operational pause is active.
    PausedBlocksSettlement,
    /// [`crate::LiquifactEscrow::withdraw`] blocked while the operational pause is active.
    PausedBlocksWithdrawal,
    /// [`crate::LiquifactEscrow::claim_investor_payout`] blocked while the operational pause is
    /// active.
    PausedBlocksInvestorClaims,
}

impl EscrowError {
    /// The numeric code of each error.
    pub open spec fn spec_code(self) -> u32 {
        match self {
            EscrowError::AmountMustBePositive => 1,
            EscrowError::YieldBpsOutOfRange => 2,
            EscrowError::EscrowAlreadyInitialized => 3,
            EscrowError::AmountExceedsMax => 14,
            EscrowError::InvoiceIdInvalidLength => 4,
            EscrowError::InvoiceIdInvalidCharset => 5,
            EscrowError::MinContributionNotPositive => 6,
            EscrowError::MinContributionExceedsAmount => 7,
            EscrowError::MaxUniqueInvestorsNotPositive => 8,
            EscrowError::MaxPerInvestorNotPositive => 9,
            EscrowError::TierYieldOutOfRange => 10,
            EscrowError::TierYieldBelowBase => 11,
            EscrowError::TierLockNotIncreasing => 12,
            EscrowError::TierYieldNotNonDecreasing => 13,
            EscrowError::EscrowNotInitialized => 20,
            EscrowError::FundingTokenNotSet => 21,
            EscrowError::TreasuryNotSet => 22,
            EscrowError::LegalHoldBlocksTreasuryDustSweep => 30,
            EscrowError::SweepAmountNotPositive => 31,
            EscrowError::SweepAmountExceedsMax => 32,
            EscrowError::DustSweepNotTerminal => 33,
            EscrowError::NoFundingTokenBalanceToSweep => 34,
            EscrowError::EffectiveSweepAmountZero => 35,
            EscrowError::TransferAmountNotPositive => 36,
            EscrowError::InsufficientTokenBalanceBeforeTransfer => 37,
            EscrowError::SenderBalanceUnderflow => 38,
            EscrowError::RecipientBalanceUnderflow => 39,
            EscrowError::SenderBalanceDeltaMismatch => 40,
            EscrowError::RecipientBalanceDeltaMismatch => 41,
            EscrowError::SweepExceedsLiabilityFloor => 42,
            EscrowError::PrimaryAttestationAlreadyBound => 50,
            EscrowError::AttestationAppendLogCapacityReached => 51,
            EscrowError::AttestationIndexOutOfRange => 52,
            EscrowError::AttestationAlreadyRevoked => 53,
            EscrowError::AttestationBatchEmpty => 54,
            EscrowError::AttestationBatchTooLarge => 55,
            EscrowError::AttestationNotRevoked => 56,
            EscrowError::CollateralAmountNotPositive => 60,
            EscrowError::CollateralAssetEmpty => 61,
            EscrowError::CollateralTimestampBackwards => 62,
            EscrowError::InvestorBatchEmpty => 70,
            EscrowError::InvestorBatchTooLarge => 71,
            EscrowError::FundingBatchEmpty => 82,
            EscrowError::FundingBatchTooLarge => 83,
            EscrowError::TargetNotPositive => 72,
            EscrowError::TargetUpdateNotOpen => 73,
            EscrowError::TargetBelowFundedAmount => 74,
            EscrowError::CapLowerNotOpen => 75,
            EscrowError::NoInvestorCapConfigured => 76,
            EscrowError::NewCapNotLower => 77,
            EscrowError::NewCapNotHigher => 176,
            EscrowError::NewCapBelowCurrentFunderCount => 78,
            EscrowError::MaturityUpdateNotOpen => 79,
            EscrowError::NewAdminSameAsCurrent => 80,
            EscrowError::MaturityUnchanged => 81,
            EscrowError::AdminProposalExpired => 85,
            EscrowError::MigrationVersionMismatch => 90,
            EscrowError::AlreadyCurrentSchemaVersion => 91,
            EscrowError::NoMigrationPath => 92,
            EscrowError::FundingAmountNotPositive => 100,
            EscrowError::FundingBelowMinContribution => 101,
            EscrowError::LegalHoldBlocksFunding => 102,
            EscrowError::EscrowNotOpenForFunding => 103,
            EscrowError::InvestorNotAllowlisted => 104,
            EscrowError::InvestorContributionOverflow => 105,
            EscrowError::InvestorContributionExceedsCap => 106,
            EscrowError::UniqueInvestorCapReached => 107,
            EscrowError::TieredSecondDeposit => 108,
            EscrowError::InvestorClaimTimeOverflow => 109,
            EscrowError::FundedAmountOverflow => 110,
            EscrowError::CommitmentLockExceedsMaturity => 111,
            EscrowError::ContributionBatchTooLarge => 112,
            EscrowError::LegalHoldBlocksSettlement => 120,
            EscrowError::SettlementNotFunded => 121,
            EscrowError::MaturityNotReached => 122,
            EscrowError::LegalHoldBlocksWithdrawal => 123,
            EscrowError::WithdrawalNotFunded => 124,
            EscrowError::LegalHoldBlocksInvestorClaims => 125,
            EscrowError::NoContributionToClaim => 126,
            EscrowError::InvestorClaimNotSettled => 127,
            EscrowError::InvestorCommitmentLockNotExpired => 128,
            EscrowError::ComputePayoutArithmeticOverflow => 129,
            EscrowError::LegalHoldBlocksCancelFunding => 140,
            EscrowError::CancelFundingNotOpen => 141,
            EscrowError::RefundNotCancelled => 142,
            EscrowError::NoContributionToRefund => 143,
            EscrowError::LegalHoldClearRequestMissing => 150,
            EscrowError::LegalHoldClearNotReady => 151,
            EscrowError::LegalHoldClearDelayOverflow => 152,
            EscrowError::FundingDeadlinePassed => 164,
            EscrowError::LegalHoldBlocksBeneficiaryRotation => 160,
            EscrowError::RotationNotOpen => 161,
            EscrowError::NewSmeSameAsCurrent => 162,
            EscrowError::NoPendingAdmin => 172,
            EscrowError::InsufficientContractBalance => 165,
            EscrowError::MaturityInPast => 166,
            EscrowError::MaturityExceedsMaxHorizon => 167,
            EscrowError::NoCollateralToClear => 169,
            EscrowError::PayoutZero => 170,
            EscrowError::FundingDeadlineUpdateNotOpen => 171,
            EscrowError::FloorLowerNotOpen => 173,
            EscrowError::NewFloorNotLower => 174,
            EscrowError::NewFloorNotPositive => 175,
            EscrowError::PartialSettleUnauthorizedCaller => 200,
            EscrowError::LegalHoldBlocksPartialSettle => 201,
            EscrowError::PartialSettleNotOpen => 202,
            EscrowError::MaxPerInvestorCapNotConfigured => 24,
            EscrowError::MaxPerInvestorCapNotRaised => 25,
            EscrowError::HorizonNotRaised => 203,
            EscrowError::PausedBlocksFunding => 204,
            EscrowError::PausedBlocksSettlement => 205,
            EscrowError::PausedBlocksWithdrawal => 206,
            EscrowError::PausedBlocksInvestorClaims => 207,
        }
    }

    /// The numeric code by which clients tell this error from the others.
    pub fn code(self) -> (code: u32)
        ensures
            code == self.spec_code(),
    {
        match self {
            EscrowError::AmountMustBePositive => 1,
            EscrowError::YieldBpsOutOfRange => 2,
            EscrowError::EscrowAlreadyInitialized => 3,
            EscrowError::AmountExceedsMax => 14,
            EscrowError::InvoiceIdInvalidLength => 4,
            EscrowError::InvoiceIdInvalidCharset => 5,
            EscrowError::MinContributionNotPositive => 6,
            EscrowError::MinContributionExceedsAmount => 7,
            EscrowError::MaxUniqueInvestorsNotPositive => 8,
            EscrowError::MaxPerInvestorNotPositive => 9,
            EscrowError::TierYieldOutOfRange => 10,
            EscrowError::TierYieldBelowBase => 11,
            EscrowError::TierLockNotIncreasing => 12,
            EscrowError::TierYieldNotNonDecreasing => 13,
            EscrowError::EscrowNotInitialized => 20,
            EscrowError::FundingTokenNotSet => 21,
            EscrowError::TreasuryNotSet => 22,
            EscrowError::LegalHoldBlocksTreasuryDustSweep => 30,
            EscrowError::SweepAmountNotPositive => 31,
            EscrowError::SweepAmountExceedsMax => 32,
            EscrowError::DustSweepNotTerminal => 33,
            EscrowError::NoFundingTokenBalanceToSweep => 34,
            EscrowError::EffectiveSweepAmountZero => 35,
            EscrowError::TransferAmountNotPositive => 36,
            EscrowError::InsufficientTokenBalanceBeforeTransfer => 37,
            EscrowError::SenderBalanceUnderflow => 38,
            EscrowError::RecipientBalanceUnderflow => 39,
            EscrowError::SenderBalanceDeltaMismatch => 40,
            EscrowError::RecipientBalanceDeltaMismatch => 41,
            EscrowError::SweepExceedsLiabilityFloor => 42,
            EscrowError::PrimaryAttestationAlreadyBound => 50,
            EscrowError::AttestationAppendLogCapacityReached => 51,
            EscrowError::AttestationIndexOutOfRange => 52,
            EscrowError::AttestationAlreadyRevoked => 53,
            EscrowError::AttestationBatchEmpty => 54,
            EscrowError::AttestationBatchTooLarge => 55,
            EscrowError::AttestationNotRevoked => 56,
            EscrowError::CollateralAmountNotPositive => 60,
            EscrowError::CollateralAssetEmpty => 61,
            EscrowError::CollateralTimestampBackwards => 62,
            EscrowError::InvestorBatchEmpty => 70,
            EscrowError::InvestorBatchTooLarge => 71,
            EscrowError::FundingBatchEmpty => 82,
            EscrowError::FundingBatchTooLarge => 83,
            EscrowError::TargetNotPositive => 72,
            EscrowError::TargetUpdateNotOpen => 73,
            EscrowError::TargetBelowFundedAmount => 74,
            EscrowError::CapLowerNotOpen => 75,
            EscrowError::NoInvestorCapConfigured => 76,
            EscrowError::NewCapNotLower => 77,
            EscrowError::NewCapNotHigher => 176,
            EscrowError::NewCapBelowCurrentFunderCount => 78,
            EscrowError::MaturityUpdateNotOpen => 79,
            EscrowError::NewAdminSameAsCurrent => 80,
            EscrowError::MaturityUnchanged => 81,
            EscrowError::AdminProposalExpired => 85,
            EscrowError::MigrationVersionMismatch => 90,
            EscrowError::AlreadyCurrentSchemaVersion => 91,
            EscrowError::NoMigrationPath => 92,
            EscrowError::FundingAmountNotPositive => 100,
            EscrowError::FundingBelowMinContribution => 101,
            EscrowError::LegalHoldBlocksFunding => 102,
            EscrowError::EscrowNotOpenForFunding => 103,
            EscrowError::InvestorNotAllowlisted => 104,
            EscrowError::InvestorContributionOverflow => 105,
            EscrowError::InvestorContributionExceedsCap => 106,
            EscrowError::UniqueInvestorCapReached => 107,
            EscrowError::TieredSecondDeposit => 108,
            EscrowError::InvestorClaimTimeOverflow => 109,
            EscrowError::FundedAmountOverflow => 110,
            EscrowError::CommitmentLockExceedsMaturity => 111,
            EscrowError::ContributionBatchTooLarge => 112,
            EscrowError::LegalHoldBlocksSettlement => 120,
            EscrowError::SettlementNotFunded => 121,
            EscrowError::MaturityNotReached => 122,
            EscrowError::LegalHoldBlocksWithdrawal => 123,
            EscrowError::WithdrawalNotFunded => 124,
            EscrowError::LegalHoldBlocksInvestorClaims => 125,
            EscrowError::NoContributionToClaim => 126,
            EscrowError::InvestorClaimNotSettled => 127,
            EscrowError::InvestorCommitmentLockNotExpired => 128,
            EscrowError::ComputePayoutArithmeticOverflow => 129,
            EscrowError::LegalHoldBlocksCancelFunding => 140,
            EscrowError::CancelFundingNotOpen => 141,
            EscrowError::RefundNotCancelled => 142,
            EscrowError::NoContributionToRefund => 143,
            EscrowError::LegalHoldClearRequestMissing => 150,
            EscrowError::LegalHoldClearNotReady => 151,
            EscrowError::LegalHoldClearDelayOverflow => 152,
            EscrowError::FundingDeadlinePassed => 164,
            EscrowError::LegalHoldBlocksBeneficiaryRotation => 160,
            EscrowError::RotationNotOpen => 161,
            EscrowError::NewSmeSameAsCurrent => 162,
            EscrowError::NoPendingAdmin => 172,
            EscrowError::InsufficientContractBalance => 165,
            EscrowError::MaturityInPast => 166,
            EscrowError::MaturityExceedsMaxHorizon => 167,
            EscrowError::NoCollateralToClear => 169,
            EscrowError::PayoutZero => 170,
            EscrowError::FundingDeadlineUpdateNotOpen => 171,
            EscrowError::FloorLowerNotOpen => 173,
            EscrowError::NewFloorNotLower => 174,
            EscrowError::NewFloorNotPositive => 175,
            EscrowError::PartialSettleUnauthorizedCaller => 200,
            EscrowError::LegalHoldBlocksPartialSettle => 201,
            EscrowError::PartialSettleNotOpen => 202,
            EscrowError::MaxPerInvestorCapNotConfigured => 24,
            EscrowError::MaxPerInvestorCapNotRaised => 25,
            EscrowError::HorizonNotRaised => 203,
            EscrowError::PausedBlocksFunding => 204,
            EscrowError::PausedBlocksSettlement => 205,
            EscrowError::PausedBlocksWithdrawal => 206,
            EscrowError::PausedBlocksInvestorClaims => 207,
        }
    }
}

/// No two errors share a code.
pub proof fn lemma_error_codes_are_distinct(a: EscrowError, b: EscrowError)
    requires
        a.spec_code() == b.spec_code(),
    ensures
        a == b,
{
}

/// The answer to a call that is not carried out.
#[derive(Copy, Clone, Debug, Eq, PartialEq)]
pub enum Refusal {
    /// The call breaks a rule of the contract.
    Error(EscrowError),
    /// The call gets no further without this address's authorization.
    AuthRequired(Address),
}

} // verus!
