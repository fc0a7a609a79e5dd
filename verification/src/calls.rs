//! The state-changing entrypoints as one type, so that a law can speak of all of them.
use crate::admin::{
    accept_admin_post, accept_admin_refusal, cancel_pending_post, cancel_pending_refusal,
    migrate_refusal, propose_admin_post, propose_admin_refusal, rebind_registry_post, rotate_post,
    rotate_refusal, transfer_admin_post, upgrade_post,
};
use crate::allowlist::{
    set_allowlist_active_post, set_allowlisted_batch_refusal, set_allowlisted_in_turn,
    set_allowlisted_post,
};
use crate::attestation::{
    append_post, append_refusal, bind_primary_post, bind_primary_refusal, revoke_batch_post,
    revoke_batch_refusal, revoke_post, revoke_refusal, unrevoke_post, unrevoke_refusal,
};
use crate::collateral::{
    clear_collateral_post, clear_collateral_refusal, record_collateral_post,
    record_collateral_refusal,
};
use crate::env::EnvView;
use crate::errors::Refusal;
use crate::funding::{
    batch_counts, deposit_counts, fund_batch_post, fund_batch_refusal, fund_post, fund_refusal,
    DepositKind,
};
use crate::hold::{
    cancel_clear_post, cancel_clear_refusal, clear_after_delay_refusal, request_clear_post,
    request_clear_refusal, set_legal_hold_post, set_legal_hold_refusal, set_paused_post,
};
use crate::init::{init_post, init_refusal, InitTerms};
use crate::lifetime::bump_ttl_post;
use crate::limits::{
    lower_cap_post, lower_cap_refusal, lower_floor_post, lower_floor_refusal, raise_cap_post,
    raise_cap_refusal, raise_horizon_post, raise_horizon_refusal, raise_per_investor_post,
    raise_per_investor_refusal, update_horizon_post, update_maturity_post, update_maturity_refusal,
    update_target_post, update_target_refusal,
};
use crate::settlement::{
    cancel_funding_post, cancel_funding_refusal, claim_post, claim_refusal, partial_settle_post,
    partial_settle_refusal, refund_post, refund_refusal, settle_post, settle_refusal, sweep_post,
    sweep_refusal, withdraw_post, withdraw_refusal,
};
use crate::values::{Address, Digest, Sym};
use vstd::prelude::*;

verus! {

/// A call of a state-changing entrypoint with its arguments. `clear_legal_hold` is
/// `SetLegalHold(false)`, and `clear_registry_ref` is `RebindRegistry(None)`.
pub enum Call {
    Init(InitTerms),
    Fund(Address, i128, DepositKind),
    FundBatch(Seq<(Address, i128)>),
    PartialSettle(Address),
    Settle,
    Withdraw,
    Claim(Address),
    CancelFunding,
    Refund(Address),
    Sweep(i128),
    SetAllowlistActive(bool),
    SetAllowlisted(Address, bool),
    SetAllowlistedBatch(Seq<Address>, bool),
    BindPrimary(Digest),
    AppendDigest(Digest),
    Revoke(u32),
    RevokeBatch(Seq<u32>),
    Unrevoke(u32),
    RecordCollateral(Sym, i128),
    ClearCollateral,
    SetPaused(bool),
    SetLegalHold(bool),
    RequestClear,
    ClearAfterDelay,
    CancelClear,
    ProposeAdmin(Address, Option<u64>),
    AcceptAdmin,
    TransferAdmin(Address),
    CancelPendingAdmin,
    RotateBeneficiary(Address),
    RebindRegistry(Option<Address>),
    Migrate(u32),
    Upgrade(Digest),
    UpdateTarget(i128),
    LowerCap(u32),
    RaiseCap(u32),
    LowerFloor(i128),
    RaisePerInvestor(i128),
    UpdateMaturity(u64),
    UpdateHorizon(u64),
    RaiseHorizon(u64),
    BumpTtl(Seq<Address>),
}

impl Call {
    /// Why the call is refused.
    pub open spec fn refusal(self, e: EnvView) -> Option<Refusal> {
        match self {
            Call::Init(terms) => init_refusal(e, terms),
            Call::Fund(investor, amount, kind) => fund_refusal(e, investor, amount, kind),
            Call::FundBatch(entries) => fund_batch_refusal(e, entries),
            Call::PartialSettle(caller) => partial_settle_refusal(e, caller),
            Call::Settle => settle_refusal(e),
            Call::Withdraw => withdraw_refusal(e),
            Call::Claim(investor) => claim_refusal(e, investor),
            Call::CancelFunding => cancel_funding_refusal(e),
            Call::Refund(investor) => refund_refusal(e, investor),
            Call::Sweep(amount) => sweep_refusal(e, amount),
            Call::SetAllowlistActive(_) => e.admin_refusal(),
            Call::SetAllowlisted(_, _) => e.admin_refusal(),
            Call::SetAllowlistedBatch(investors, _) => set_allowlisted_batch_refusal(e, investors),
            Call::BindPrimary(_) => bind_primary_refusal(e),
            Call::AppendDigest(_) => append_refusal(e),
            Call::Revoke(index) => revoke_refusal(e, index),
            Call::RevokeBatch(indices) => revoke_batch_refusal(e, indices),
            Call::Unrevoke(index) => unrevoke_refusal(e, index),
            Call::RecordCollateral(asset, amount) => record_collateral_refusal(e, asset, amount),
            Call::ClearCollateral => clear_collateral_refusal(e),
            Call::SetPaused(_) => e.admin_refusal(),
            Call::SetLegalHold(active) => set_legal_hold_refusal(e, active),
            Call::RequestClear => request_clear_refusal(e),
            Call::ClearAfterDelay => clear_after_delay_refusal(e),
            Call::CancelClear => cancel_clear_refusal(e),
            Call::ProposeAdmin(new_admin, _) => propose_admin_refusal(e, new_admin),
            Call::AcceptAdmin => accept_admin_refusal(e),
            Call::TransferAdmin(new_admin) => propose_admin_refusal(e, new_admin),
            Call::CancelPendingAdmin => cancel_pending_refusal(e),
            Call::RotateBeneficiary(new_sme) => rotate_refusal(e, new_sme),
            Call::RebindRegistry(_) => e.admin_refusal(),
            Call::Migrate(from_version) => Some(migrate_refusal(e, from_version)),
            Call::Upgrade(_) => e.admin_refusal(),
            Call::UpdateTarget(new_target) => update_target_refusal(e, new_target),
            Call::LowerCap(new_cap) => lower_cap_refusal(e, new_cap),
            Call::RaiseCap(new_cap) => raise_cap_refusal(e, new_cap),
            Call::LowerFloor(new_floor) => lower_floor_refusal(e, new_floor),
            Call::RaisePerInvestor(new_cap) => raise_per_investor_refusal(e, new_cap),
            Call::UpdateMaturity(new_maturity) => update_maturity_refusal(e, new_maturity),
            Call::UpdateHorizon(_) => e.admin_refusal(),
            Call::RaiseHorizon(new_horizon) => raise_horizon_refusal(e, new_horizon),
            Call::BumpTtl(_) => None,
        }
    }

    /// The environment after the call, where it is not refused.
    pub open spec fn post(self, e: EnvView) -> EnvView {
        match self {
            Call::Init(terms) => init_post(e, terms),
            Call::Fund(investor, amount, kind) => fund_post(e, investor, amount, kind),
            Call::FundBatch(entries) => fund_batch_post(e, entries),
            Call::PartialSettle(_) => partial_settle_post(e),
            Call::Settle => settle_post(e),
            Call::Withdraw => withdraw_post(e),
            Call::Claim(investor) => claim_post(e, investor),
            Call::CancelFunding => cancel_funding_post(e),
            Call::Refund(investor) => refund_post(e, investor),
            Call::Sweep(amount) => sweep_post(e, amount),
            Call::SetAllowlistActive(active) => set_allowlist_active_post(e, active),
            Call::SetAllowlisted(investor, allowed) => set_allowlisted_post(e, investor, allowed),
            Call::SetAllowlistedBatch(investors, allowed) => set_allowlisted_in_turn(
                e,
                investors,
                allowed,
                investors.len(),
            ),
            Call::BindPrimary(digest) => bind_primary_post(e, digest),
            Call::AppendDigest(digest) => append_post(e, digest),
            Call::Revoke(index) => revoke_post(e, index),
            Call::RevokeBatch(indices) => revoke_batch_post(e, indices),
            Call::Unrevoke(index) => unrevoke_post(e, index),
            Call::RecordCollateral(asset, amount) => record_collateral_post(e, asset, amount),
            Call::ClearCollateral => clear_collateral_post(e),
            Call::SetPaused(active) => set_paused_post(e, active),
            Call::SetLegalHold(active) => set_legal_hold_post(e, active),
            Call::RequestClear => request_clear_post(e),
            Call::ClearAfterDelay => set_legal_hold_post(e, false),
            Call::CancelClear => cancel_clear_post(e),
            Call::ProposeAdmin(new_admin, window) => propose_admin_post(e, new_admin, window),
            Call::AcceptAdmin => accept_admin_post(e),
            Call::TransferAdmin(new_admin) => transfer_admin_post(e, new_admin),
            Call::CancelPendingAdmin => cancel_pending_post(e),
            Call::RotateBeneficiary(new_sme) => rotate_post(e, new_sme),
            Call::RebindRegistry(registry) => rebind_registry_post(e, registry),
            Call::Migrate(_) => e,
            Call::Upgrade(new_wasm_hash) => upgrade_post(e, new_wasm_hash),
            Call::UpdateTarget(new_target) => update_target_post(e, new_target),
            Call::LowerCap(new_cap) => lower_cap_post(e, new_cap),
            Call::RaiseCap(new_cap) => raise_cap_post(e, new_cap),
            Call::LowerFloor(new_floor) => lower_floor_post(e, new_floor),
            Call::RaisePerInvestor(new_cap) => raise_per_investor_post(e, new_cap),
            Call::UpdateMaturity(new_maturity) => update_maturity_post(e, new_maturity),
            Call::UpdateHorizon(new_horizon) => update_horizon_post(e, new_horizon),
            Call::RaiseHorizon(new_horizon) => raise_horizon_post(e, new_horizon),
            Call::BumpTtl(investors) => bump_ttl_post(e, investors),
        }
    }

    /// The environment after the call, whether it was carried out or refused.
    pub open spec fn after(self, e: EnvView) -> EnvView {
        if self.refusal(e) is None {
            self.post(e)
        } else {
            e
        }
    }

    /// The counter of distinct investors has room for those whose deposits the call carries out.
    pub open spec fn fits(self, e: EnvView) -> bool {
        match self {
            Call::Fund(investor, amount, kind) => deposit_counts(e, investor, amount, kind),
            Call::FundBatch(entries) => batch_counts(e, entries),
            _ => true,
        }
    }
}

} // verus!
