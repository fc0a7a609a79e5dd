//! The rules that the other laws speak of are the ones that the entrypoints follow: each entrypoint
//! is refused where its rule refuses, and leaves what its rule leaves.
use crate::admin::{
    accept_admin_post, accept_admin_refusal, cancel_pending_post, cancel_pending_refusal,
    migrate_refusal, propose_admin_post, propose_admin_refusal, rebind_registry_post, rotate_post,
    rotate_refusal, transfer_admin_post, upgrade_post,
};
use crate::allowlist::{
    set_allowlist_active_post, set_allowlisted_batch_refusal, set_allowlisted_in_turn,
    set_allowlisted_post,
};
use crate::attestation::{
    append_post, append_refusal, bind_primary_post, bind_primary_refusal, revoke_batch_post,
    revoke_batch_refusal, revoke_post, revoke_refusal, unrevoke_post, unrevoke_refusal,
};
use crate::calls::Call;
use crate::collateral::{
    clear_collateral_post, clear_collateral_refusal, record_collateral_post,
    record_collateral_refusal,
};
use crate::contract::LiquifactEscrow;
use crate::env::{ContractEnv, Effect, EnvView, TokenTransfer};
use crate::errors::{EscrowError, Refusal};
use crate::funding::{
    batch_screening, fund_batch_post, fund_batch_refusal, fund_post, fund_refusal, DepositKind,
};
use crate::hold::{
    cancel_clear_post, cancel_clear_refusal, clear_after_delay_refusal, request_clear_post,
    request_clear_refusal, set_legal_hold_post, set_legal_hold_refusal, set_paused_post,
};
use crate::init::{init_post, init_refusal, InitTerms};
use crate::invoice_id::host_string_bytes;
use crate::laws::deposits::lemma_commitment_earns_the_best_tier;
use crate::laws::money::{lemma_payout_is_rounded, lemma_rounding_is_unique, rounds};
use crate::lifetime::bump_ttl_post;
use crate::limits::{
    lower_cap_post, lower_cap_refusal, lower_floor_post, lower_floor_refusal, raise_cap_post,
    raise_cap_refusal, raise_horizon_post, raise_horizon_refusal, raise_per_investor_post,
    raise_per_investor_refusal, update_horizon_post, update_maturity_post, update_maturity_refusal,
    update_target_post, update_target_refusal,
};
use crate::payout::pro_rata_payout;
use crate::settlement::{
    cancel_funding_post, cancel_funding_refusal, claim_post, claim_refusal, partial_settle_post,
    partial_settle_refusal, refund_post, refund_refusal, settle_post, settle_refusal, sweep_post,
    sweep_refusal, swept, withdraw_post, withdraw_refusal,
};
use crate::tiers::{effective_yield_for_commitment, tier_table_view};
use crate::types::{InvoiceEscrow, SmeCollateralCommitment, YieldTier};
use crate::values::{Address, Digest, Sym};
use vstd::prelude::*;

verus! {

/// How an entrypoint ended: with the refusal that its rule gives and nothing changed, or with a
/// value and the environment that its rule leaves.
pub open spec fn ended<T>(
    refusal: Option<Refusal>,
    before: EnvView,
    post: EnvView,
    result: Result<T, Refusal>,
    after: EnvView,
) -> bool {
    match refusal {
        Some(why) => result == Err::<T, Refusal>(why) && after == before,
        None => result is Ok && after == post,
    }
}

/// Closing early ends as its rule says and returns the escrow as stored.
pub proof fn lemma_early_close_is_carried_out(
    env: &mut ContractEnv,
    caller: Address,
    r: Result<InvoiceEscrow, Refusal>,
)
    requires
        call_ensures(LiquifactEscrow::partial_settle, (env, caller), r),
    ensures
        ({
            let before = old(env)@;
            let after = final(env)@;
            &&& ended(
                partial_settle_refusal(before, caller),
                before,
                partial_settle_post(before),
                r,
                after,
            )
            &&& after == Call::PartialSettle(caller).after(before)
            &&& r matches Ok(escrow) ==> after.storage.escrow == Some(escrow)
        }),
{
}

/// Settling ends as its rule says and returns the escrow as stored.
pub proof fn lemma_settlement_is_carried_out(
    env: &mut ContractEnv,
    r: Result<InvoiceEscrow, Refusal>,
)
    requires
        call_ensures(LiquifactEscrow::settle, (env,), r),
    ensures
        ({
            let before = old(env)@;
            let after = final(env)@;
            &&& ended(settle_refusal(before), before, settle_post(before), r, after)
            &&& after == Call::Settle.after(before)
            &&& r matches Ok(escrow) ==> after.storage.escrow == Some(escrow)
        }),
{
}

/// Withdrawing ends as its rule says and returns the escrow as stored.
pub proof fn lemma_withdrawal_is_carried_out(
    env: &mut ContractEnv,
    r: Result<InvoiceEscrow, Refusal>,
)
    requires
        call_ensures(LiquifactEscrow::withdraw, (env,), r),
    ensures
        ({
            let before = old(env)@;
            let after = final(env)@;
            &&& ended(withdraw_refusal(before), before, withdraw_post(before), r, after)
            &&& after == Call::Withdraw.after(before)
            &&& r matches Ok(escrow) ==> after.storage.escrow == Some(escrow)
        }),
{
}

/// Claiming ends as its rule says.
pub proof fn lemma_claim_is_carried_out(
    env: &mut ContractEnv,
    investor: Address,
    r: Result<(), Refusal>,
)
    requires
        call_ensures(LiquifactEscrow::claim_investor_payout, (env, investor), r),
    ensures
        ({
            let before = old(env)@;
            let after = final(env)@;
            &&& ended(
                claim_refusal(before, investor),
                before,
                claim_post(before, investor),
                r,
                after,
            )
            &&& after == Call::Claim(investor).after(before)
        }),
{
}

/// Cancelling ends as its rule says and returns the escrow as stored.
pub proof fn lemma_cancelling_is_carried_out(
    env: &mut ContractEnv,
    r: Result<InvoiceEscrow, Refusal>,
)
    requires
        call_ensures(LiquifactEscrow::cancel_funding, (env,), r),
    ensures
        ({
            let before = old(env)@;
            let after = final(env)@;
            &&& ended(
                cancel_funding_refusal(before),
                before,
                cancel_funding_post(before),
                r,
                after,
            )
            &&& after == Call::CancelFunding.after(before)
            &&& r matches Ok(escrow) ==> after.storage.escrow == Some(escrow)
        }),
{
}

/// A refund ends as its rule says.
pub proof fn lemma_refund_is_carried_out(
    env: &mut ContractEnv,
    investor: Address,
    r: Result<(), Refusal>,
)
    requires
        call_ensures(LiquifactEscrow::refund, (env, investor), r),
    ensures
        ({
            let before = old(env)@;
            let after = final(env)@;
            &&& ended(
                refund_refusal(before, investor),
                before,
                refund_post(before, investor),
                r,
                after,
            )
            &&& after == Call::Refund(investor).after(before)
        }),
{
}

/// A sweep ends as its rule says.
pub proof fn lemma_sweep_is_carried_out(
    env: &mut ContractEnv,
    amount: i128,
    r: Result<i128, Refusal>,
)
    requires
        call_ensures(LiquifactEscrow::sweep_terminal_dust, (env, amount), r),
    ensures
        ({
            let before = old(env)@;
            let after = final(env)@;
            &&& ended(sweep_refusal(before, amount), before, sweep_post(before, amount), r, after)
            &&& after == Call::Sweep(amount).after(before)
            &&& r matches Ok(taken) ==> taken == swept(before, amount)
        }),
{
}

/// Switching the allowlist ends as its rule says.
pub proof fn lemma_allowlist_switch_is_carried_out(
    env: &mut ContractEnv,
    active: bool,
    r: Result<(), Refusal>,
)
    requires
        call_ensures(LiquifactEscrow::set_allowlist_active, (env, active), r),
    ensures
        ({
            let before = old(env)@;
            let after = final(env)@;
            &&& ended(
                before.admin_refusal(),
                before,
                set_allowlist_active_post(before, active),
                r,
                after,
            )
            &&& after == Call::SetAllowlistActive(active).after(before)
        }),
{
}

/// Admitting or removing an investor ends as its rule says.
pub proof fn lemma_admission_is_carried_out(
    env: &mut ContractEnv,
    investor: Address,
    allowed: bool,
    r: Result<(), Refusal>,
)
    requires
        call_ensures(LiquifactEscrow::set_investor_allowlisted, (env, investor, allowed), r),
    ensures
        ({
            let before = old(env)@;
            let after = final(env)@;
            &&& ended(
                before.admin_refusal(),
                before,
                set_allowlisted_post(before, investor, allowed),
                r,
                after,
            )
            &&& after == Call::SetAllowlisted(investor, allowed).after(before)
        }),
{
}

/// Admitting or removing a batch ends as its rule says.
pub proof fn lemma_admissions_is_carried_out(
    env: &mut ContractEnv,
    investors: &Vec<Address>,
    allowed: bool,
    r: Result<(), Refusal>,
)
    requires
        call_ensures(LiquifactEscrow::set_investors_allowlisted, (env, investors, allowed), r),
    ensures
        ({
            let before = old(env)@;
            let after = final(env)@;
            &&& ended(
                set_allowlisted_batch_refusal(before, investors@),
                before,
                set_allowlisted_in_turn(before, investors@, allowed, investors@.len()),
                r,
                after,
            )
            &&& after == Call::SetAllowlistedBatch(investors@, allowed).after(before)
        }),
{
}

/// Binding the primary digest ends as its rule says.
pub proof fn lemma_primary_digest_is_carried_out(
    env: &mut ContractEnv,
    digest: Digest,
    r: Result<(), Refusal>,
)
    requires
        call_ensures(LiquifactEscrow::bind_primary_attestation_hash, (env, digest), r),
    ensures
        ({
            let before = old(env)@;
            let after = final(env)@;
            &&& ended(
                bind_primary_refusal(before),
                before,
                bind_primary_post(before, digest),
                r,
                after,
            )
            &&& after == Call::BindPrimary(digest).after(before)
        }),
{
}

/// Appending a digest ends as its rule says.
pub proof fn lemma_appended_digest_is_carried_out(
    env: &mut ContractEnv,
    digest: Digest,
    r: Result<(), Refusal>,
)
    requires
        call_ensures(LiquifactEscrow::append_attestation_digest, (env, digest), r),
    ensures
        ({
            let before = old(env)@;
            let after = final(env)@;
            &&& ended(append_refusal(before), before, append_post(before, digest), r, after)
            &&& after == Call::AppendDigest(digest).after(before)
        }),
{
}

/// Revoking ends as its rule says.
pub proof fn lemma_revocation_is_carried_out(
    env: &mut ContractEnv,
    index: u32,
    r: Result<(), Refusal>,
)
    requires
        call_ensures(LiquifactEscrow::revoke_attestation_digest, (env, index), r),
    ensures
        ({
            let before = old(env)@;
            let after = final(env)@;
            &&& ended(revoke_refusal(before, index), before, revoke_post(before, index), r, after)
            &&& after == Call::Revoke(index).after(before)
        }),
{
}

/// Revoking a batch ends as its rule says.
pub proof fn lemma_revocations_is_carried_out(
    env: &mut ContractEnv,
    indices: &Vec<u32>,
    r: Result<(), Refusal>,
)
    requires
        call_ensures(LiquifactEscrow::revoke_attestation_digests, (env, indices), r),
    ensures
        ({
            let before = old(env)@;
            let after = final(env)@;
            &&& ended(
                revoke_batch_refusal(before, indices@),
                before,
                revoke_batch_post(before, indices@),
                r,
                after,
            )
            &&& after == Call::RevokeBatch(indices@).after(before)
        }),
{
}

/// Taking a revocation back ends as its rule says.
pub proof fn lemma_reinstatement_is_carried_out(
    env: &mut ContractEnv,
    index: u32,
    r: Result<(), Refusal>,
)
    requires
        call_ensures(LiquifactEscrow::unrevoke_attestation_digest, (env, index), r),
    ensures
        ({
            let before = old(env)@;
            let after = final(env)@;
            &&& ended(
                unrevoke_refusal(before, index),
                before,
                unrevoke_post(before, index),
                r,
                after,
            )
            &&& after == Call::Unrevoke(index).after(before)
        }),
{
}

/// Recording collateral ends as its rule says and returns the record as stored.
pub proof fn lemma_collateral_is_carried_out(
    env: &mut ContractEnv,
    asset: Sym,
    amount: i128,
    r: Result<SmeCollateralCommitment, Refusal>,
)
    requires
        call_ensures(LiquifactEscrow::record_sme_collateral_commitment, (env, asset, amount), r),
    ensures
        ({
            let before = old(env)@;
            let after = final(env)@;
            &&& ended(
                record_collateral_refusal(before, asset, amount),
                before,
                record_collateral_post(before, asset, amount),
                r,
                after,
            )
            &&& after == Call::RecordCollateral(asset, amount).after(before)
            &&& r matches Ok(pledge) ==> after.storage.sme_collateral_pledge == Some(pledge)
        }),
{
}

/// Clearing collateral ends as its rule says.
pub proof fn lemma_cleared_collateral_is_carried_out(env: &mut ContractEnv, r: Result<(), Refusal>)
    requires
        call_ensures(LiquifactEscrow::clear_sme_collateral_commitment, (env,), r),
    ensures
        ({
            let before = old(env)@;
            let after = final(env)@;
            &&& ended(
                clear_collateral_refusal(before),
                before,
                clear_collateral_post(before),
                r,
                after,
            )
            &&& after == Call::ClearCollateral.after(before)
        }),
{
}

/// Switching the pause ends as its rule says.
pub proof fn lemma_pause_is_carried_out(env: &mut ContractEnv, active: bool, r: Result<(), Refusal>)
    requires
        call_ensures(LiquifactEscrow::set_paused, (env, active), r),
    ensures
        ({
            let before = old(env)@;
            let after = final(env)@;
            &&& ended(before.admin_refusal(), before, set_paused_post(before, active), r, after)
            &&& after == Call::SetPaused(active).after(before)
        }),
{
}

/// Switching the hold ends as its rule says.
pub proof fn lemma_hold_is_carried_out(env: &mut ContractEnv, active: bool, r: Result<(), Refusal>)
    requires
        call_ensures(LiquifactEscrow::set_legal_hold, (env, active), r),
    ensures
        ({
            let before = old(env)@;
            let after = final(env)@;
            &&& ended(
                set_legal_hold_refusal(before, active),
                before,
                set_legal_hold_post(before, active),
                r,
                after,
            )
            &&& after == Call::SetLegalHold(active).after(before)
        }),
{
}

/// Clearing the hold is switching it off.
pub proof fn lemma_cleared_hold_is_carried_out(env: &mut ContractEnv, r: Result<(), Refusal>)
    requires
        call_ensures(LiquifactEscrow::clear_legal_hold, (env,), r),
    ensures
        ({
            let before = old(env)@;
            let after = final(env)@;
            &&& ended(
                set_legal_hold_refusal(before, false),
                before,
                set_legal_hold_post(before, false),
                r,
                after,
            )
            &&& after == Call::SetLegalHold(false).after(before)
        }),
{
}

/// Requesting a clear ends as its rule says.
pub proof fn lemma_clear_request_is_carried_out(env: &mut ContractEnv, r: Result<(), Refusal>)
    requires
        call_ensures(LiquifactEscrow::request_clear_legal_hold, (env,), r),
    ensures
        ({
            let before = old(env)@;
            let after = final(env)@;
            &&& ended(request_clear_refusal(before), before, request_clear_post(before), r, after)
            &&& after == Call::RequestClear.after(before)
        }),
{
}

/// Clearing after the delay ends as its rule says, and switches the hold off.
pub proof fn lemma_delayed_clear_is_carried_out(env: &mut ContractEnv, r: Result<(), Refusal>)
    requires
        call_ensures(LiquifactEscrow::clear_legal_hold_after_delay, (env,), r),
    ensures
        ({
            let before = old(env)@;
            let after = final(env)@;
            &&& ended(
                clear_after_delay_refusal(before),
                before,
                set_legal_hold_post(before, false),
                r,
                after,
            )
            &&& after == Call::ClearAfterDelay.after(before)
        }),
{
}

/// Calling a clear off ends as its rule says.
pub proof fn lemma_cancelled_clear_is_carried_out(env: &mut ContractEnv, r: Result<(), Refusal>)
    requires
        call_ensures(LiquifactEscrow::cancel_clear_legal_hold, (env,), r),
    ensures
        ({
            let before = old(env)@;
            let after = final(env)@;
            &&& ended(cancel_clear_refusal(before), before, cancel_clear_post(before), r, after)
            &&& after == Call::CancelClear.after(before)
        }),
{
}

/// Proposing an admin ends as its rule says and returns who is proposed.
pub proof fn lemma_proposal_is_carried_out(
    env: &mut ContractEnv,
    new_admin: Address,
    window: Option<u64>,
    r: Result<Address, Refusal>,
)
    requires
        call_ensures(LiquifactEscrow::propose_admin, (env, new_admin, window), r),
    ensures
        ({
            let before = old(env)@;
            let after = final(env)@;
            &&& ended(
                propose_admin_refusal(before, new_admin),
                before,
                propose_admin_post(before, new_admin, window),
                r,
                after,
            )
            &&& after == Call::ProposeAdmin(new_admin, window).after(before)
            &&& r matches Ok(value) ==> value == new_admin
        }),
{
}

/// Accepting ends as its rule says and returns the escrow as stored.
pub proof fn lemma_acceptance_is_carried_out(
    env: &mut ContractEnv,
    r: Result<InvoiceEscrow, Refusal>,
)
    requires
        call_ensures(LiquifactEscrow::accept_admin, (env,), r),
    ensures
        ({
            let before = old(env)@;
            let after = final(env)@;
            &&& ended(accept_admin_refusal(before), before, accept_admin_post(before), r, after)
            &&& after == Call::AcceptAdmin.after(before)
            &&& r matches Ok(escrow) ==> after.storage.escrow == Some(escrow)
        }),
{
}

/// The deprecated transfer ends as its rule says and returns the escrow, which is unchanged.
pub proof fn lemma_deprecated_transfer_is_carried_out(
    env: &mut ContractEnv,
    new_admin: Address,
    r: Result<InvoiceEscrow, Refusal>,
)
    requires
        call_ensures(LiquifactEscrow::transfer_admin, (env, new_admin), r),
    ensures
        ({
            let before = old(env)@;
            let after = final(env)@;
            &&& ended(
                propose_admin_refusal(before, new_admin),
                before,
                transfer_admin_post(before, new_admin),
                r,
                after,
            )
            &&& after == Call::TransferAdmin(new_admin).after(before)
            &&& r matches Ok(escrow) ==> after.storage.escrow == Some(escrow)
        }),
{
}

/// Calling a proposal off ends as its rule says and returns who was proposed.
pub proof fn lemma_cancelled_proposal_is_carried_out(
    env: &mut ContractEnv,
    r: Result<Address, Refusal>,
)
    requires
        call_ensures(LiquifactEscrow::cancel_pending_admin, (env,), r),
    ensures
        ({
            let before = old(env)@;
            let after = final(env)@;
            &&& ended(
                cancel_pending_refusal(before),
                before,
                cancel_pending_post(before),
                r,
                after,
            )
            &&& after == Call::CancelPendingAdmin.after(before)
            &&& r matches Ok(proposed) ==> before.storage.pending_admin == Some(proposed)
        }),
{
}

/// Rotating the beneficiary ends as its rule says and returns the escrow as stored.
pub proof fn lemma_rotation_is_carried_out(
    env: &mut ContractEnv,
    new_sme: Address,
    r: Result<InvoiceEscrow, Refusal>,
)
    requires
        call_ensures(LiquifactEscrow::rotate_beneficiary, (env, new_sme), r),
    ensures
        ({
            let before = old(env)@;
            let after = final(env)@;
            &&& ended(
                rotate_refusal(before, new_sme),
                before,
                rotate_post(before, new_sme),
                r,
                after,
            )
            &&& after == Call::RotateBeneficiary(new_sme).after(before)
            &&& r matches Ok(escrow) ==> after.storage.escrow == Some(escrow)
        }),
{
}

/// Rebinding the registry ends as its rule says.
pub proof fn lemma_registry_is_carried_out(
    env: &mut ContractEnv,
    registry: Option<Address>,
    r: Result<(), Refusal>,
)
    requires
        call_ensures(LiquifactEscrow::rebind_registry_ref, (env, registry), r),
    ensures
        ({
            let before = old(env)@;
            let after = final(env)@;
            &&& ended(
                before.admin_refusal(),
                before,
                rebind_registry_post(before, registry),
                r,
                after,
            )
            &&& after == Call::RebindRegistry(registry).after(before)
        }),
{
}

/// Clearing the registry is rebinding it to none.
pub proof fn lemma_cleared_registry_is_carried_out(env: &mut ContractEnv, r: Result<(), Refusal>)
    requires
        call_ensures(LiquifactEscrow::clear_registry_ref, (env,), r),
    ensures
        ({
            let before = old(env)@;
            let after = final(env)@;
            &&& ended(before.admin_refusal(), before, rebind_registry_post(before, None), r, after)
            &&& after == Call::RebindRegistry(None).after(before)
        }),
{
}

/// An upgrade ends as its rule says.
pub proof fn lemma_upgrade_is_carried_out(
    env: &mut ContractEnv,
    code: Digest,
    r: Result<(), Refusal>,
)
    requires
        call_ensures(LiquifactEscrow::upgrade, (env, code), r),
    ensures
        ({
            let before = old(env)@;
            let after = final(env)@;
            &&& ended(before.admin_refusal(), before, upgrade_post(before, code), r, after)
            &&& after == Call::Upgrade(code).after(before)
        }),
{
}

/// Another target ends as its rule says and returns the escrow as stored.
pub proof fn lemma_target_is_carried_out(
    env: &mut ContractEnv,
    new_target: i128,
    r: Result<InvoiceEscrow, Refusal>,
)
    requires
        call_ensures(LiquifactEscrow::update_funding_target, (env, new_target), r),
    ensures
        ({
            let before = old(env)@;
            let after = final(env)@;
            &&& ended(
                update_target_refusal(before, new_target),
                before,
                update_target_post(before, new_target),
                r,
                after,
            )
            &&& after == Call::UpdateTarget(new_target).after(before)
            &&& r matches Ok(escrow) ==> after.storage.escrow == Some(escrow)
        }),
{
}

/// Lowering the cap on investors ends as its rule says and returns the new cap.
pub proof fn lemma_lowered_cap_is_carried_out(
    env: &mut ContractEnv,
    new_cap: u32,
    r: Result<u32, Refusal>,
)
    requires
        call_ensures(LiquifactEscrow::lower_max_unique_investors, (env, new_cap), r),
    ensures
        ({
            let before = old(env)@;
            let after = final(env)@;
            &&& ended(
                lower_cap_refusal(before, new_cap),
                before,
                lower_cap_post(before, new_cap),
                r,
                after,
            )
            &&& after == Call::LowerCap(new_cap).after(before)
            &&& r matches Ok(value) ==> value == new_cap
        }),
{
}

/// Raising the cap on investors ends as its rule says and returns the new cap.
pub proof fn lemma_raised_cap_is_carried_out(
    env: &mut ContractEnv,
    new_cap: u32,
    r: Result<u32, Refusal>,
)
    requires
        call_ensures(LiquifactEscrow::raise_max_unique_investors, (env, new_cap), r),
    ensures
        ({
            let before = old(env)@;
            let after = final(env)@;
            &&& ended(
                raise_cap_refusal(before, new_cap),
                before,
                raise_cap_post(before, new_cap),
                r,
                after,
            )
            &&& after == Call::RaiseCap(new_cap).after(before)
            &&& r matches Ok(value) ==> value == new_cap
        }),
{
}

/// Lowering the floor ends as its rule says and returns the new floor.
pub proof fn lemma_floor_is_carried_out(
    env: &mut ContractEnv,
    new_floor: i128,
    r: Result<i128, Refusal>,
)
    requires
        call_ensures(LiquifactEscrow::lower_min_contribution_floor, (env, new_floor), r),
    ensures
        ({
            let before = old(env)@;
            let after = final(env)@;
            &&& ended(
                lower_floor_refusal(before, new_floor),
                before,
                lower_floor_post(before, new_floor),
                r,
                after,
            )
            &&& after == Call::LowerFloor(new_floor).after(before)
            &&& r matches Ok(value) ==> value == new_floor
        }),
{
}

/// Raising the cap on one investor ends as its rule says and returns the new cap.
pub proof fn lemma_investor_cap_is_carried_out(
    env: &mut ContractEnv,
    new_cap: i128,
    r: Result<i128, Refusal>,
)
    requires
        call_ensures(LiquifactEscrow::raise_max_per_investor, (env, new_cap), r),
    ensures
        ({
            let before = old(env)@;
            let after = final(env)@;
            &&& ended(
                raise_per_investor_refusal(before, new_cap),
                before,
                raise_per_investor_post(before, new_cap),
                r,
                after,
            )
            &&& after == Call::RaisePerInvestor(new_cap).after(before)
            &&& r matches Ok(value) ==> value == new_cap
        }),
{
}

/// Another maturity ends as its rule says and returns the escrow as stored.
pub proof fn lemma_maturity_is_carried_out(
    env: &mut ContractEnv,
    new_maturity: u64,
    r: Result<InvoiceEscrow, Refusal>,
)
    requires
        call_ensures(LiquifactEscrow::update_maturity, (env, new_maturity), r),
    ensures
        ({
            let before = old(env)@;
            let after = final(env)@;
            &&& ended(
                update_maturity_refusal(before, new_maturity),
                before,
                update_maturity_post(before, new_maturity),
                r,
                after,
            )
            &&& after == Call::UpdateMaturity(new_maturity).after(before)
            &&& r matches Ok(escrow) ==> after.storage.escrow == Some(escrow)
        }),
{
}

/// Another horizon ends as its rule says and returns it.
pub proof fn lemma_horizon_is_carried_out(
    env: &mut ContractEnv,
    new_horizon: u64,
    r: Result<u64, Refusal>,
)
    requires
        call_ensures(LiquifactEscrow::update_maturity_max_horizon, (env, new_horizon), r),
    ensures
        ({
            let before = old(env)@;
            let after = final(env)@;
            &&& ended(
                before.admin_refusal(),
                before,
                update_horizon_post(before, new_horizon),
                r,
                after,
            )
            &&& after == Call::UpdateHorizon(new_horizon).after(before)
            &&& r matches Ok(value) ==> value == new_horizon
        }),
{
}

/// Raising the horizon ends as its rule says and returns it.
pub proof fn lemma_raised_horizon_is_carried_out(
    env: &mut ContractEnv,
    new_horizon: u64,
    r: Result<u64, Refusal>,
)
    requires
        call_ensures(LiquifactEscrow::raise_maturity_max_horizon, (env, new_horizon), r),
    ensures
        ({
            let before = old(env)@;
            let after = final(env)@;
            &&& ended(
                raise_horizon_refusal(before, new_horizon),
                before,
                raise_horizon_post(before, new_horizon),
                r,
                after,
            )
            &&& after == Call::RaiseHorizon(new_horizon).after(before)
            &&& r matches Ok(value) ==> value == new_horizon
        }),
{
}

/// A deposit ends as the rule for one without a commitment says and returns the escrow as stored.
pub proof fn lemma_deposit_is_carried_out(
    env: &mut ContractEnv,
    investor: Address,
    amount: i128,
    r: Result<InvoiceEscrow, Refusal>,
)
    requires
        call_ensures(LiquifactEscrow::fund, (env, investor, amount), r),
    ensures
        ({
            let before = old(env)@;
            let after = final(env)@;
            &&& ended(
                fund_refusal(before, investor, amount, DepositKind::Simple),
                before,
                fund_post(before, investor, amount, DepositKind::Simple),
                r,
                after,
            )
            &&& after == Call::Fund(investor, amount, DepositKind::Simple).after(before)
            &&& r matches Ok(escrow) ==> after.storage.escrow == Some(escrow)
        }),
{
}

/// A deposit with a commitment ends as the rule for one says and returns the escrow as stored.
pub proof fn lemma_committed_deposit_is_carried_out(
    env: &mut ContractEnv,
    investor: Address,
    amount: i128,
    lock: u64,
    r: Result<InvoiceEscrow, Refusal>,
)
    requires
        call_ensures(LiquifactEscrow::fund_with_commitment, (env, investor, amount, lock), r),
    ensures
        ({
            let before = old(env)@;
            let after = final(env)@;
            &&& ended(
                fund_refusal(before, investor, amount, DepositKind::Committed(lock)),
                before,
                fund_post(before, investor, amount, DepositKind::Committed(lock)),
                r,
                after,
            )
            &&& after == Call::Fund(investor, amount, DepositKind::Committed(lock)).after(before)
            &&& r matches Ok(escrow) ==> after.storage.escrow == Some(escrow)
        }),
{
}

/// A deposit of either kind ends as its rule says and returns the escrow as stored.
pub proof fn lemma_deposit_of_either_kind_is_carried_out(
    env: &mut ContractEnv,
    investor: Address,
    amount: i128,
    kind: DepositKind,
    r: Result<InvoiceEscrow, Refusal>,
)
    requires
        call_ensures(LiquifactEscrow::fund_impl, (env, investor, amount, kind), r),
    ensures
        ({
            let before = old(env)@;
            let after = final(env)@;
            &&& ended(
                fund_refusal(before, investor, amount, kind),
                before,
                fund_post(before, investor, amount, kind),
                r,
                after,
            )
            &&& after == Call::Fund(investor, amount, kind).after(before)
            &&& r matches Ok(escrow) ==> after.storage.escrow == Some(escrow)
        }),
{
}

/// A batch of deposits ends as its rule says and returns the escrow as stored.
pub proof fn lemma_batch_is_carried_out(
    env: &mut ContractEnv,
    entries: &Vec<(Address, i128)>,
    r: Result<InvoiceEscrow, Refusal>,
)
    requires
        call_ensures(LiquifactEscrow::fund_batch, (env, entries), r),
    ensures
        ({
            let before = old(env)@;
            let after = final(env)@;
            &&& ended(
                fund_batch_refusal(before, entries@),
                before,
                fund_batch_post(before, entries@),
                r,
                after,
            )
            &&& after == Call::FundBatch(entries@).after(before)
            &&& r matches Ok(escrow) ==> after.storage.escrow == Some(escrow)
        }),
{
}
/// Setting an escrow up ends as its rule says for the terms as they were given, whatever deadline
/// comes with them, and returns the escrow as stored. The identifier is the text that the host
/// holds.
pub proof fn lemma_set_up_is_carried_out(
    env: &mut ContractEnv,
    admin: Address,
    invoice_id: &soroban_sdk::String,
    sme_address: Address,
    amount: i128,
    yield_bps: i64,
    maturity: u64,
    funding_token: Address,
    registry: Option<Address>,
    treasury: Address,
    yield_tiers: Option<Vec<YieldTier>>,
    min_contribution: Option<i128>,
    max_unique_investors: Option<u32>,
    max_per_investor: Option<i128>,
    legal_hold_clear_delay: Option<u64>,
    maturity_max_horizon: Option<u64>,
    funding_deadline: Option<u64>,
    allowlist_active: Option<bool>,
    r: Result<InvoiceEscrow, Refusal>,
)
    requires
        call_ensures(
            LiquifactEscrow::init,
            (
                env,
                admin,
                invoice_id,
                sme_address,
                amount,
                yield_bps,
                maturity,
                funding_token,
                registry,
                treasury,
                yield_tiers,
                min_contribution,
                max_unique_investors,
                max_per_investor,
                legal_hold_clear_delay,
                maturity_max_horizon,
                funding_deadline,
                allowlist_active,
            ),
            r,
        ),
    ensures
        ({
            let before = old(env)@;
            let after = final(env)@;
            let terms = InitTerms {
                admin,
                invoice_id: host_string_bytes(*invoice_id),
                sme_address,
                amount,
                yield_bps,
                maturity,
                funding_token,
                registry,
                treasury,
                yield_tiers: tier_table_view(yield_tiers),
                min_contribution,
                max_unique_investors,
                max_per_investor,
                legal_hold_clear_delay,
                maturity_max_horizon,
                allowlist_active,
            };
            &&& ended(init_refusal(before, terms), before, init_post(before, terms), r, after)
            &&& after == Call::Init(terms).after(before)
            &&& r matches Ok(escrow) ==> after.storage.escrow == Some(escrow)
        }),
{
}

/// Migrating is refused as its rule says.
pub proof fn lemma_migration_is_answered(
    env: &ContractEnv,
    from_version: u32,
    r: Result<u32, Refusal>,
)
    requires
        call_ensures(LiquifactEscrow::migrate, (env, from_version), r),
    ensures
        r == Err::<u32, Refusal>(migrate_refusal(env@, from_version)),
        Call::Migrate(from_version).refusal(env@) == Some(migrate_refusal(env@, from_version)),
{
}

/// Keeping entries alive is open to everybody and ends as its rule says.
pub proof fn lemma_maintenance_is_carried_out(env: &mut ContractEnv, investors: &Vec<Address>)
    requires
        call_ensures(LiquifactEscrow::bump_ttl, (env, investors), ()),
    ensures
        final(env)@ == bump_ttl_post(old(env)@, investors@),
        final(env)@ == Call::BumpTtl(investors@).after(old(env)@),
{
}

/// A deposit that may find the counter full gives up only where the deposit would be carried out,
/// the investor is new and the counter is at its end; then nothing changes. Otherwise it ends as a
/// deposit does.
pub proof fn lemma_tried_deposit_is_carried_out(
    env: &mut ContractEnv,
    investor: Address,
    amount: i128,
    kind: DepositKind,
    r: Result<Option<InvoiceEscrow>, Refusal>,
)
    requires
        call_ensures(LiquifactEscrow::try_fund, (env, investor, amount, kind), r),
    ensures
        ({
            let before = old(env)@;
            let after = final(env)@;
            let refusal = fund_refusal(before, investor, amount, kind);
            let full = before.storage.contribution(investor) == 0 && before.storage.funders()
                == u32::MAX;
            &&& refusal is None && full ==> r == Ok::<Option<InvoiceEscrow>, Refusal>(None)
                && after == before
            &&& refusal is Some || !full ==> {
                &&& ended(refusal, before, fund_post(before, investor, amount, kind), r, after)
                &&& r matches Ok(escrow) ==> escrow is Some && after.storage.escrow == escrow
            }
        }),
{
}

/// A batch that may find the counter full ends as a batch of deposits does wherever the counter has
/// room for all its entries, or the batch is refused for its size or an amount; it gives up only
/// with nothing changed.
pub proof fn lemma_tried_batch_is_carried_out(
    env: &mut ContractEnv,
    entries: &Vec<(Address, i128)>,
    r: Result<Option<InvoiceEscrow>, Refusal>,
)
    requires
        call_ensures(LiquifactEscrow::try_fund_batch, (env, entries), r),
    ensures
        ({
            let before = old(env)@;
            let after = final(env)@;
            let roomy = before.storage.funders() + entries@.len() <= u32::MAX || batch_screening(
                before,
                entries@,
            ) is Some;
            &&& roomy ==> ended(
                fund_batch_refusal(before, entries@),
                before,
                fund_batch_post(before, entries@),
                r,
                after,
            )
            &&& roomy ==> !(r matches Ok(None))
            &&& r matches Ok(None) ==> after == before
            &&& r matches Ok(Some(escrow)) ==> {
                &&& after.storage.escrow->0 == escrow
                &&& fund_batch_refusal(before, entries@) is None
                &&& after == fund_batch_post(before, entries@)
            }
            &&& r matches Err(why) ==> {
                &&& fund_batch_refusal(before, entries@) == Some(why)
                &&& after == before
            }
        }),
{
}

// ---------------------------------------------------------------------------------------------
// What a caller can rely on
// ---------------------------------------------------------------------------------------------

/// A settlement that went through did so at maturity or later, or where there is none, whether the
/// target was reached or the funding closed early. One that is refused for want of maturity came
/// before it.
pub proof fn lemma_settled_at_maturity(env: &mut ContractEnv, r: Result<InvoiceEscrow, Refusal>)
    requires
        call_ensures(LiquifactEscrow::settle, (env,), r),
    ensures
        r is Ok ==> old(env)@.storage.escrow is Some && {
            ||| old(env)@.storage.escrow->0.maturity == 0
            ||| old(env)@.storage.escrow->0.maturity <= old(env)@.ledger.timestamp
        },
        r == Err::<InvoiceEscrow, Refusal>(Refusal::Error(EscrowError::MaturityNotReached))
            ==> old(env)@.ledger.timestamp < old(env)@.storage.escrow->0.maturity,
{
}

/// A claim that went through for the first time did so when the investor's lock was over, and
/// leaves the investor marked as having claimed and the escrow as it was.
pub proof fn lemma_claimed_after_the_lock(
    env: &mut ContractEnv,
    investor: Address,
    r: Result<(), Refusal>,
)
    requires
        call_ensures(LiquifactEscrow::claim_investor_payout, (env, investor), r),
        r is Ok,
        !old(env)@.storage.claimed(investor),
    ensures
        old(env)@.storage.investor_claim_not_before.contains_key(investor)
            ==> old(env)@.storage.investor_claim_not_before[investor]
            <= old(env)@.ledger.timestamp,
        final(env)@.storage.claimed(investor),
        final(env)@.storage.escrow == old(env)@.storage.escrow,
{
}

/// A withdrawal that went through hands the SME the whole funded amount in one transfer, and no
/// other token moves.
pub proof fn lemma_withdrawn_in_full(env: &mut ContractEnv, r: Result<InvoiceEscrow, Refusal>)
    requires
        call_ensures(LiquifactEscrow::withdraw, (env,), r),
        r is Ok,
    ensures
        ({
            let before = old(env)@;
            let effects = final(env)@.effects;
            let n = before.effects.len() as int;
            &&& effects.len() == n + 2
            &&& effects.take(n) == before.effects
            &&& effects[n] == Effect::Transfer(
                TokenTransfer {
                    token: before.storage.funding_token->0,
                    from: before.contract,
                    to: before.storage.escrow->0.sme_address,
                    amount: before.storage.escrow->0.funded_amount,
                },
            )
            &&& effects[n + 1] is Publish
        }),
{
    let before = old(env)@;
    assert(final(env)@.effects.take(before.effects.len() as int) =~= before.effects);
}

/// What the payout computes is the share of the contribution in the principal together with its
/// coupon, each rounded towards zero once: the coupon to a whole amount, and then the share.
pub proof fn lemma_paid_the_rounded_share(
    contribution: i128,
    total: i128,
    yield_bps: i64,
    pool: int,
    r: Result<i128, Refusal>,
)
    requires
        total > 0,
        call_ensures(pro_rata_payout, (contribution, total, yield_bps), r),
        rounds(pool - total, total * yield_bps, 10_000),
    ensures
        r matches Ok(payout) ==> rounds(payout as int, contribution * pool, total as int),
        r matches Err(why) ==> why == Refusal::Error(EscrowError::ComputePayoutArithmeticOverflow),
{
    lemma_payout_is_rounded(contribution as int, total as int, yield_bps as int);
    lemma_rounding_is_unique(pool - total, total * yield_bps, 10_000);
}

/// What a commitment is offered is the highest yield among the base yield and the tiers whose lock
/// it reaches in full, together with the lock of a tier that pays it.
pub proof fn lemma_offered_the_best_tier(
    tiers: Vec<YieldTier>,
    base_yield: i64,
    lock: u64,
    offer: (i64, u64),
)
    requires
        lock > 0,
        call_ensures(effective_yield_for_commitment, (&Some(tiers), base_yield, lock), offer),
    ensures
        offer.0 >= base_yield,
        forall|i: int|
            0 <= i < tiers@.len() && (#[trigger] tiers@[i]).min_lock_secs <= lock ==> offer.0
                >= tiers@[i].yield_bps,
        offer.0 == base_yield ==> offer.1 == 0,
        offer.0 > base_yield ==> exists|i: int|
            0 <= i < tiers@.len() && (#[trigger] tiers@[i]).min_lock_secs == offer.1 && offer.1
                <= lock && tiers@[i].yield_bps == offer.0,
{
    lemma_commitment_earns_the_best_tier(tiers@, base_yield, lock);
}

} // verus!
