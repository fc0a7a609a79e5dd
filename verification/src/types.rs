//! Constants, stored records and results of the escrow contract.
use crate::values::{Address, Digest, Sym};
use vstd::prelude::*;

verus! {

/// Storage schema version written by [`crate::LiquifactEscrow::init`].
pub const SCHEMA_VERSION: u32 = 6;

/// Upper bound on the entries of the attestation append log. Revoking an entry frees no slot.
pub const MAX_ATTESTATION_APPEND_ENTRIES: u32 = 32;

/// Most indices that one [`crate::LiquifactEscrow::revoke_attestation_digests`] call may name.
pub const MAX_ATTESTATION_REVOKE_BATCH: u32 = 32;

/// Maturity horizon in seconds (about five years) when none is configured.
pub const DEFAULT_MATURITY_MAX_HORIZON_SECS: u64 = 157_680_000;

/// Largest invoice `amount` accepted by [`crate::LiquifactEscrow::init`]: `i128::MAX / 10_000`, so
/// that for every yield up to 10_000 bps the coupon product `amount * yield_bps`, the pool and each
/// payout fit.
pub const MAX_INVOICE_AMOUNT: i128 = 17_014_118_346_046_923_173_168_730_371_588_410;

/// Most entries that one [`crate::LiquifactEscrow::fund_batch`] call may hold.
pub const MAX_FUND_BATCH: u32 = 50;

/// Most addresses that one [`crate::LiquifactEscrow::get_contributions`] call may name.
pub const MAX_CONTRIBUTIONS_BATCH: u32 = 50;

/// Most addresses that one page of investors holds.
pub const MAX_INVESTOR_PAGE: u32 = 50;

/// Most addresses that one [`crate::LiquifactEscrow::set_investors_allowlisted`] call may name.
pub const MAX_INVESTOR_ALLOWLIST_BATCH: u32 = 32;

/// Most base units that one [`crate::LiquifactEscrow::sweep_terminal_dust`] call may move.
pub const MAX_DUST_SWEEP_AMOUNT: i128 = 100_000_000;

/// Longest invoice identifier, in bytes.
pub const MAX_INVOICE_ID_STRING_LEN: u32 = 32;

/// Validity of an admin proposal, in seconds, when none is given (seven days).
pub const DEFAULT_ADMIN_PROPOSAL_VALIDITY_SECS: u64 = 604_800;

/// Ledgers by which [`crate::LiquifactEscrow::bump_ttl`] extends instance storage.
pub const INSTANCE_TTL_MIN_EXTENSION_LEDGERS: u32 = 3_600;

/// Ledgers by which [`crate::LiquifactEscrow::bump_ttl`] extends persistent entries.
pub const PERSISTENT_TTL_MIN_EXTENSION_LEDGERS: u32 = 3_600;

/// Basis points in one whole.
pub const BPS_DENOMINATOR: i128 = 10_000;

/// Largest yield in basis points.
pub const MAX_YIELD_BPS: i64 = 10_000;

/// Status of an escrow that accepts principal.
pub const STATUS_OPEN: u32 = 0;

/// Status of an escrow whose funding is closed.
pub const STATUS_FUNDED: u32 = 1;

/// Status of an escrow whose investors may claim their payout.
pub const STATUS_SETTLED: u32 = 2;

/// Status of an escrow whose liquidity the SME has pulled.
pub const STATUS_WITHDRAWN: u32 = 3;

/// Status of an escrow whose investors may take their principal back.
pub const STATUS_CANCELLED: u32 = 4;

/// The ledger entries of the contract. The per-investor variants other than `InvestorRefunded`
/// are persistent entries with a lifetime of their own; the others share the instance's lifetime.
#[derive(Clone, Copy, Debug, PartialEq, Eq)]
pub enum DataKey {
    /// Full escrow snapshot ([`InvoiceEscrow`]).
    Escrow,
    /// Stored schema version.
    Version,
    /// Principal that an investor has contributed; absent is `0`.
    InvestorContribution(Address),
    /// Compliance hold; absent is `false`.
    LegalHold,
    /// Earliest timestamp at which a requested hold clear may happen; absent is no request.
    LegalHoldClearableAt,
    /// Least delay between requesting and performing a hold clear; absent is `0`.
    LegalHoldClearDelay,
    /// SME collateral commitment metadata; absent is none.
    SmeCollateralPledge,
    /// Whether an investor has claimed; absent is `false`.
    InvestorClaimed(Address),
    /// Funding token, set once.
    FundingToken,
    /// Treasury, set once.
    Treasury,
    /// Registry hint; absent is none.
    RegistryRef,
    /// Yield tiers, set once; absent is no tiering.
    YieldTierTable,
    /// Principal at the close of funding, set once.
    FundingCloseSnapshot,
    /// Yield chosen at an investor's first deposit; absent is the base yield.
    InvestorEffectiveYield(Address),
    /// Earliest timestamp of an investor's claim; absent is `0`.
    InvestorClaimNotBefore(Address),
    /// Least amount of one deposit; absent is `0`.
    MinContributionFloor,
    /// Most distinct investors; absent is unlimited.
    MaxUniqueInvestorsCap,
    /// Most principal of one investor; absent is unlimited.
    MaxPerInvestorCap,
    /// Proposed successor of the admin; absent is no handover.
    PendingAdmin,
    /// Last timestamp at which the pending admin may accept.
    PendingAdminExpiry,
    /// Number of distinct investors so far.
    UniqueFunderCount,
    /// Primary attestation digest, set once.
    PrimaryAttestationHash,
    /// Append-only log of attestation digests; absent is empty.
    AttestationAppendLog,
    /// Revocation mark of one log entry; absent is not revoked.
    AttestationRevoked(u32),
    /// Whether only allowlisted investors may fund; absent is `false`.
    AllowlistActive,
    /// Whether an investor is allowlisted; absent is `false`.
    InvestorAllowlisted(Address),
    /// Allowlisted addresses in order of admission; absent is empty.
    AllowlistIndex,
    /// Whether an investor has been refunded; absent is `false`.
    InvestorRefunded(Address),
    /// Principal already handed out; absent is `0`.
    DistributedPrincipal,
    /// Furthest maturity from now, in seconds; absent is the default.
    MaturityMaxHorizon,
    /// Last timestamp at which a deposit is accepted; absent is no deadline.
    FundingDeadline,
    /// Investors in order of their first deposit; absent is empty.
    InvestorIndex,
    /// Timestamp of settlement; absent is not settled.
    SettledAt,
    /// Operational pause; absent is `false`.
    Paused,
}

/// Full state of an invoice escrow.
#[derive(Clone, Copy, Debug, PartialEq)]
pub struct InvoiceEscrow {
    pub invoice_id: Sym,
    pub admin: Address,
    pub sme_address: Address,
    pub amount: i128,
    pub funding_target: i128,
    pub funded_amount: i128,
    pub yield_bps: i64,
    /// Earliest timestamp of settlement; `0` is no maturity lock.
    pub maturity: u64,
    /// One of the `STATUS_` constants.
    pub status: u32,
}

/// Collateral metadata reported by the SME: a record only, which locks and moves nothing.
#[derive(Clone, Copy, Debug, PartialEq)]
pub struct SmeCollateralCommitment {
    pub asset: Sym,
    pub amount: i128,
    pub recorded_at: u64,
}

/// One step of the tier ladder: who commits to at least `min_lock_secs` at the first deposit may
/// receive `yield_bps`.
#[derive(Clone, Copy, Debug, PartialEq)]
pub struct YieldTier {
    pub min_lock_secs: u64,
    pub yield_bps: i64,
}

/// What the escrow held when it first became funded; the denominator of all pro-rata shares.
#[derive(Clone, Copy, Debug, PartialEq)]
pub struct FundingCloseSnapshot {
    /// `funded_amount` after the deposit that closed the funding, whatever it exceeds the target by.
    /// What further entries of the same batch add is not in it.
    pub total_principal: i128,
    pub funding_target: i128,
    pub closed_at_ledger_timestamp: u64,
    pub closed_at_ledger_sequence: u32,
}

/// A [`FundingCloseSnapshot`], where there is one.
#[derive(Clone, Copy, Debug, PartialEq)]
pub enum EscrowCloseSnapshot {
    Absent,
    Present(FundingCloseSnapshot),
}

/// A [`SmeCollateralCommitment`], where there is one.
#[derive(Clone, Copy, Debug, PartialEq)]
pub enum CollateralCommitmentSnapshot {
    Absent,
    Present(SmeCollateralCommitment),
}

/// The escrow and what surrounds it, in one read.
#[derive(Clone, Copy, Debug, PartialEq)]
pub struct EscrowSummary {
    pub escrow: InvoiceEscrow,
    pub has_maturity_lock: bool,
    pub legal_hold: bool,
    pub funding_close_snapshot: EscrowCloseSnapshot,
    pub unique_funder_count: u32,
    pub is_allowlist_active: bool,
    pub schema_version: u32,
    pub sme_collateral_commitment: CollateralCommitmentSnapshot,
    pub has_primary_attestation: bool,
    pub attestation_log_length: u32,
}

/// Whether settlement can go ahead, and what stands in its way.
#[derive(Clone, Copy, Debug, PartialEq, Eq)]
pub struct SettlementReadiness {
    /// Same as [`crate::LiquifactEscrow::is_settleable`].
    pub is_settleable: bool,
    /// Whether a compliance hold is active.
    pub legal_hold_active: bool,
    /// Whether there is no maturity lock or the maturity has been reached.
    pub maturity_reached: bool,
    /// Whether the SME's [`crate::LiquifactEscrow::settle`] would succeed now.
    pub ready_now: bool,
}

/// One entry of the attestation log.
#[derive(Clone, Copy, Debug, PartialEq, Eq)]
pub struct AttestationDigestInfo {
    pub digest: Digest,
    /// Whether the entry has been revoked.
    pub revoked: bool,
}

/// What the contract holds against what it owes.
#[derive(Clone, Copy, Debug, PartialEq)]
pub struct ReconciliationView {
    /// Funding-token balance of the contract.
    pub token_balance: i128,
    /// Principal still owed: `max(funded_amount - distributed_principal, 0)`.
    pub outstanding_liability: i128,
    /// `token_balance - outstanding_liability`; negative in a deficit.
    pub surplus: i128,
}

} // verus!
