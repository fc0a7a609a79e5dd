//! Events published by the contract. `name` is the topic under which an event is published.
use crate::types::InvoiceEscrow;
use crate::values::{Address, Digest, Sym};
use vstd::prelude::*;

verus! {

/// A new escrow is set up.
#[derive(Clone, Copy, Debug, PartialEq)]
pub struct EscrowInitialized {
    pub name: &'static str,
    pub escrow: InvoiceEscrow,
    pub funding_token: Address,
    pub treasury: Address,
    pub registry: Option<Address>,
    /// Whether settlement waits for a maturity.
    pub has_maturity_lock: bool,
}

/// The cap on distinct investors went down.
#[derive(Clone, Copy, Debug, PartialEq)]
pub struct MaxUniqueInvestorsCapLowered {
    pub name: &'static str,
    pub invoice_id: Sym,
    pub old_cap: u32,
    pub new_cap: u32,
}

/// The cap on distinct investors went up.
#[derive(Clone, Copy, Debug, PartialEq)]
pub struct MaxUniqueInvestorsCapRaised {
    pub name: &'static str,
    pub invoice_id: Sym,
    pub old_cap: u32,
    pub new_cap: u32,
}

/// The least deposit went down.
#[derive(Clone, Copy, Debug, PartialEq)]
pub struct MinContributionFloorLowered {
    pub name: &'static str,
    pub invoice_id: Sym,
    pub old_floor: i128,
    pub new_floor: i128,
}

/// The cap on one investor's principal went up.
#[derive(Clone, Copy, Debug, PartialEq)]
pub struct MaxPerInvestorCapRaised {
    pub name: &'static str,
    pub invoice_id: Sym,
    pub old_cap: i128,
    pub new_cap: i128,
}

/// An investor deposited principal.
#[derive(Clone, Copy, Debug, PartialEq)]
pub struct EscrowFunded {
    pub name: &'static str,
    pub invoice_id: Sym,
    pub investor: Address,
    pub amount: i128,
    pub funded_amount: i128,
    pub status: u32,
    /// Yield of this investor after the deposit.
    pub investor_effective_yield_bps: i64,
    /// Lock of the matched tier; `0` where the base yield applies.
    pub tier_lock_secs: u64,
}

/// The SME address changed.
#[derive(Clone, Copy, Debug, PartialEq)]
pub struct BeneficiaryRotated {
    pub name: &'static str,
    pub invoice_id: Sym,
    pub prior_sme: Address,
    pub new_sme: Address,
}

/// Funding was closed early.
#[derive(Clone, Copy, Debug, PartialEq)]
pub struct EscrowPartialSettle {
    pub name: &'static str,
    pub invoice_id: Sym,
    pub funded_amount: i128,
}

/// The escrow was settled.
#[derive(Clone, Copy, Debug, PartialEq)]
pub struct EscrowSettled {
    pub name: &'static str,
    pub invoice_id: Sym,
    pub funded_amount: i128,
    pub yield_bps: i64,
    pub maturity: u64,
    pub settled_at_ledger_timestamp: u64,
}

/// The maturity changed.
#[derive(Clone, Copy, Debug, PartialEq)]
pub struct MaturityUpdatedEvent {
    pub name: &'static str,
    pub invoice_id: Sym,
    pub old_maturity: u64,
    pub new_maturity: u64,
}

/// The admin changed.
#[derive(Clone, Copy, Debug, PartialEq)]
pub struct AdminTransferredEvent {
    pub name: &'static str,
    pub invoice_id: Sym,
    pub new_admin: Address,
}

/// The pending admin took over, with the admin it succeeds. Not published by any entrypoint: a
/// handover is announced by [`AdminTransferredEvent`].
#[derive(Clone, Copy, Debug, PartialEq)]
pub struct AdminAcceptedEvent {
    pub name: &'static str,
    pub invoice_id: Sym,
    pub prior_admin: Address,
    pub new_admin: Address,
}

/// A successor of the admin was proposed.
#[derive(Clone, Copy, Debug, PartialEq)]
pub struct AdminProposedEvent {
    pub name: &'static str,
    pub invoice_id: Sym,
    pub current_admin: Address,
    pub pending_admin: Address,
}

/// The pending handover was called off.
#[derive(Clone, Copy, Debug, PartialEq)]
pub struct AdminProposalCancelled {
    pub name: &'static str,
    pub invoice_id: Sym,
    pub cancelled_pending: Address,
}

/// A successor was proposed through the deprecated entrypoint.
#[derive(Clone, Copy, Debug, PartialEq)]
pub struct DeprecatedTransferAdminUsed {
    pub name: &'static str,
    pub invoice_id: Sym,
    pub proposed_address: Address,
}

/// The funding target changed.
#[derive(Clone, Copy, Debug, PartialEq)]
pub struct FundingTargetUpdated {
    pub name: &'static str,
    pub invoice_id: Sym,
    pub old_target: i128,
    pub new_target: i128,
}

/// The compliance hold was set or cleared.
#[derive(Clone, Copy, Debug, PartialEq)]
pub struct LegalHoldChanged {
    pub name: &'static str,
    pub invoice_id: Sym,
    /// `1` is set, `0` is cleared.
    pub active: u32,
}

/// The operational pause was set or cleared.
#[derive(Clone, Copy, Debug, PartialEq)]
pub struct PausedChanged {
    pub name: &'static str,
    pub invoice_id: Sym,
    /// `1` is set, `0` is cleared.
    pub active: u32,
}

/// A hold clear was requested.
#[derive(Clone, Copy, Debug, PartialEq)]
pub struct LegalHoldClearRequested {
    pub name: &'static str,
    pub invoice_id: Sym,
    pub clearable_at: u64,
}

/// The hold clear delay changed. Not published by any entrypoint: the delay is fixed at
/// initialization.
#[derive(Clone, Copy, Debug, PartialEq)]
pub struct LegalHoldClearDelayUpdated {
    pub name: &'static str,
    pub invoice_id: Sym,
    pub old_delay: u64,
    pub new_delay: u64,
}

/// The SME recorded collateral metadata; no token moved.
#[derive(Clone, Copy, Debug, PartialEq)]
pub struct CollateralRecordedEvt {
    pub name: &'static str,
    pub invoice_id: Sym,
    pub amount: i128,
    /// Amount recorded before; `0` if none.
    pub prior_amount: i128,
}

/// The SME retired its collateral metadata. This event has no name topic.
#[derive(Clone, Copy, Debug, PartialEq)]
pub struct CollateralClearedEvt {
    pub invoice_id: Sym,
    pub amount: i128,
}

/// The SME pulled the funded liquidity.
#[derive(Clone, Copy, Debug, PartialEq)]
pub struct SmeWithdrew {
    pub name: &'static str,
    pub invoice_id: Sym,
    pub amount: i128,
    pub recipient: Address,
}

/// An investor claimed its payout.
#[derive(Clone, Copy, Debug, PartialEq)]
pub struct InvestorPayoutClaimed {
    pub name: &'static str,
    pub investor: Address,
    pub invoice_id: Sym,
}

/// Funding was cancelled.
#[derive(Clone, Copy, Debug, PartialEq)]
pub struct FundingCancelled {
    pub name: &'static str,
    pub invoice_id: Sym,
    pub funded_amount: i128,
}

/// An investor took its principal back.
#[derive(Clone, Copy, Debug, PartialEq)]
pub struct InvestorRefundedEvt {
    pub name: &'static str,
    pub investor: Address,
    pub invoice_id: Sym,
    pub amount: i128,
}

/// The registry hint changed; `None` clears it.
#[derive(Clone, Copy, Debug, PartialEq)]
pub struct RegistryRefRebound {
    pub name: &'static str,
    pub invoice_id: Sym,
    pub registry: Option<Address>,
}

/// Residue went to the treasury.
#[derive(Clone, Copy, Debug, PartialEq)]
pub struct TreasuryDustSwept {
    pub name: &'static str,
    pub invoice_id: Sym,
    pub token: Address,
    pub amount: i128,
}

/// The primary attestation digest was bound.
#[derive(Clone, Copy, Debug, PartialEq)]
pub struct PrimaryAttestationBound {
    pub name: &'static str,
    pub invoice_id: Sym,
    pub digest: Digest,
}

/// A digest was appended to the attestation log.
#[derive(Clone, Copy, Debug, PartialEq)]
pub struct AttestationDigestAppended {
    pub name: &'static str,
    pub invoice_id: Sym,
    pub index: u32,
    pub digest: Digest,
}

/// A log entry was revoked.
#[derive(Clone, Copy, Debug, PartialEq)]
pub struct AttestationDigestRevoked {
    pub name: &'static str,
    pub invoice_id: Sym,
    pub index: u32,
}

/// A log entry's revocation was taken back.
#[derive(Clone, Copy, Debug, PartialEq)]
pub struct AttestationDigestUnrevoked {
    pub name: &'static str,
    pub invoice_id: Sym,
    pub index: u32,
}

/// The maturity horizon changed.
#[derive(Clone, Copy, Debug, PartialEq)]
pub struct MaturityMaxHorizonUpdated {
    pub name: &'static str,
    pub invoice_id: Sym,
    pub old_horizon: u64,
    pub new_horizon: u64,
}

/// The maturity horizon was raised.
#[derive(Clone, Copy, Debug, PartialEq)]
pub struct MaturityMaxHorizonRaised {
    pub name: &'static str,
    pub invoice_id: Sym,
    pub old_horizon: u64,
    pub new_horizon: u64,
}

/// The allowlist was switched on or off.
#[derive(Clone, Copy, Debug, PartialEq)]
pub struct AllowlistEnabledChanged {
    pub name: &'static str,
    pub invoice_id: Sym,
    /// `1` is on, `0` is off.
    pub active: u32,
}

/// An investor was admitted to or removed from the allowlist.
#[derive(Clone, Copy, Debug, PartialEq)]
pub struct InvestorAllowlistChanged {
    pub name: &'static str,
    pub invoice_id: Sym,
    pub investor: Address,
    /// `1` is admitted, `0` is removed.
    pub allowed: u32,
}

/// A requested hold clear was called off.
#[derive(Clone, Copy, Debug, PartialEq)]
pub struct LegalHoldClearCancelled {
    pub name: &'static str,
    pub invoice_id: Sym,
}

/// The contract code is about to be replaced.
#[derive(Clone, Copy, Debug, PartialEq)]
pub struct ContractUpgraded {
    pub name: &'static str,
    pub invoice_id: Sym,
    pub new_wasm_hash: Digest,
}

/// A published event.
#[derive(Clone, Copy, Debug, PartialEq)]
pub enum Event {
    EscrowInitialized(EscrowInitialized),
    MaxUniqueInvestorsCapLowered(MaxUniqueInvestorsCapLowered),
    MaxUniqueInvestorsCapRaised(MaxUniqueInvestorsCapRaised),
    MinContributionFloorLowered(MinContributionFloorLowered),
    MaxPerInvestorCapRaised(MaxPerInvestorCapRaised),
    EscrowFunded(EscrowFunded),
    BeneficiaryRotated(BeneficiaryRotated),
    EscrowPartialSettle(EscrowPartialSettle),
    EscrowSettled(EscrowSettled),
    MaturityUpdatedEvent(MaturityUpdatedEvent),
    AdminTransferredEvent(AdminTransferredEvent),
    AdminProposedEvent(AdminProposedEvent),
    AdminProposalCancelled(AdminProposalCancelled),
    DeprecatedTransferAdminUsed(DeprecatedTransferAdminUsed),
    FundingTargetUpdated(FundingTargetUpdated),
    LegalHoldChanged(LegalHoldChanged),
    PausedChanged(PausedChanged),
    LegalHoldClearRequested(LegalHoldClearRequested),
    CollateralRecordedEvt(CollateralRecordedEvt),
    CollateralClearedEvt(CollateralClearedEvt),
    SmeWithdrew(SmeWithdrew),
    InvestorPayoutClaimed(InvestorPayoutClaimed),
    FundingCancelled(FundingCancelled),
    InvestorRefundedEvt(InvestorRefundedEvt),
    RegistryRefRebound(RegistryRefRebound),
    TreasuryDustSwept(TreasuryDustSwept),
    PrimaryAttestationBound(PrimaryAttestationBound),
    AttestationDigestAppended(AttestationDigestAppended),
    AttestationDigestRevoked(AttestationDigestRevoked),
    AttestationDigestUnrevoked(AttestationDigestUnrevoked),
    MaturityMaxHorizonUpdated(MaturityMaxHorizonUpdated),
    MaturityMaxHorizonRaised(MaturityMaxHorizonRaised),
    AllowlistEnabledChanged(AllowlistEnabledChanged),
    InvestorAllowlistChanged(InvestorAllowlistChanged),
    LegalHoldClearCancelled(LegalHoldClearCancelled),
    ContractUpgraded(ContractUpgraded),
}

} // verus!
