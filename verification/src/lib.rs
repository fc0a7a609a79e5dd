//! Escrow of an invoice: investors deposit principal in one token until a target is met; the SME
//! either withdraws the liquidity or settles at maturity, upon which every investor claims a
//! pro-rata payout; an escrow that is cancelled while open is refunded.
//!
//! Every entrypoint of [`LiquifactEscrow`] works on a [`env::ContractEnv`]: the contract's storage,
//! the ledger's clock, the authorizations of the call and the contract's token balance. It returns
//! its result, or a [`Refusal`], in which case nothing has changed. What is to be done outside
//! (transfers, events, lifetime extensions, a code update) is left in order in
//! [`env::ContractEnv::effects`]. A call that lacks an authorization is refused with
//! [`Refusal::AuthRequired`] and can be repeated once it has been obtained.
//!
//! Of each entrypoint `x` the contract is stated by two functions on the mathematical view of the
//! environment: `x_refusal`, which says whether and why the call is refused, and `x_post`, the
//! environment afterwards. [`validity`] states the invariant of the storage, and [`laws`] what
//! holds of all calls.
pub mod address_map;
pub mod admin;
pub mod allowlist;
pub mod attestation;
pub mod book;
pub mod calls;
pub mod collateral;
pub mod contract;
pub mod env;
pub mod errors;
pub mod events;
pub mod external_calls;
pub mod funding;
pub mod guards;
pub mod hold;
pub mod init;
pub mod invoice_id;
pub mod laws;
pub mod lifetime;
pub mod limits;
pub mod mock_token;
pub mod payout;
pub mod queries;
pub mod settlement;
pub mod tiers;
pub mod types;
pub mod validity;
pub mod values;
pub mod wide;

pub use contract::LiquifactEscrow;
pub use errors::{EscrowError, Refusal};
pub use events::{
    AdminAcceptedEvent, AdminProposalCancelled, AdminProposedEvent, AdminTransferredEvent,
    AllowlistEnabledChanged, AttestationDigestAppended, AttestationDigestRevoked,
    AttestationDigestUnrevoked, BeneficiaryRotated, CollateralClearedEvt, CollateralRecordedEvt,
    ContractUpgraded, DeprecatedTransferAdminUsed, EscrowFunded, EscrowInitialized,
    EscrowPartialSettle, EscrowSettled, Event, FundingCancelled, FundingTargetUpdated,
    InvestorAllowlistChanged, InvestorPayoutClaimed, InvestorRefundedEvt, LegalHoldChanged,
    LegalHoldClearCancelled, LegalHoldClearDelayUpdated, LegalHoldClearRequested,
    MaturityMaxHorizonRaised, MaturityMaxHorizonUpdated, MaturityUpdatedEvent,
    MaxPerInvestorCapRaised, MaxUniqueInvestorsCapLowered, MaxUniqueInvestorsCapRaised,
    MinContributionFloorLowered, PausedChanged, PrimaryAttestationBound, RegistryRefRebound,
    SmeWithdrew, TreasuryDustSwept,
};
pub use guards::{guard_status_eq, guard_status_in};
pub use mock_token::{DefaultMockToken, MOCK_TOKEN_DEFAULT_BALANCE};
pub use types::{
    AttestationDigestInfo, CollateralCommitmentSnapshot, DataKey, EscrowCloseSnapshot,
    EscrowSummary, FundingCloseSnapshot, InvoiceEscrow, ReconciliationView, SettlementReadiness,
    SmeCollateralCommitment, YieldTier, BPS_DENOMINATOR, DEFAULT_ADMIN_PROPOSAL_VALIDITY_SECS,
    DEFAULT_MATURITY_MAX_HORIZON_SECS, INSTANCE_TTL_MIN_EXTENSION_LEDGERS,
    MAX_ATTESTATION_APPEND_ENTRIES, MAX_ATTESTATION_REVOKE_BATCH, MAX_CONTRIBUTIONS_BATCH,
    MAX_DUST_SWEEP_AMOUNT, MAX_FUND_BATCH, MAX_INVESTOR_ALLOWLIST_BATCH, MAX_INVESTOR_PAGE,
    MAX_INVOICE_AMOUNT, MAX_INVOICE_ID_STRING_LEN, MAX_YIELD_BPS,
    PERSISTENT_TTL_MIN_EXTENSION_LEDGERS, SCHEMA_VERSION, STATUS_CANCELLED, STATUS_FUNDED,
    STATUS_OPEN, STATUS_SETTLED, STATUS_WITHDRAWN,
};
