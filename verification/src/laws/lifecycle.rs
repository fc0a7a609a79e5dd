//! Who may call what, what never changes, and how an escrow moves through its life.
use crate::admin::{
    accept_admin_post, accept_admin_refusal, cancel_pending_post, propose_admin_post,
    rebind_registry_post, rotate_post, rotate_refusal, upgrade_post,
};
use crate::allowlist::{set_allowlist_active_post, set_allowlisted_in_turn, set_allowlisted_post};
use crate::attestation::{
    append_post, append_refusal, bind_primary_post, bind_primary_refusal, revoke_batch_post,
    revoke_batch_refusal, revoke_post,
    revoked_in_turn, unrevoke_post,
};
use crate::calls::Call;
use crate::collateral::{clear_collateral_post, record_collateral_post};
use crate::env::{EnvView, StorageView};
use crate::errors::Refusal;
use crate::funding::{
    fund_batch_post, fund_batch_refusal, fund_post, fund_refusal, funded_in_turn, DepositKind,
};
use crate::hold::{cancel_clear_post, request_clear_post, set_legal_hold_post, set_paused_post};
use crate::init::{init_refusal, InitTerms};
use crate::lifetime::bump_ttl_post;
use crate::limits::{
    lower_cap_post, lower_floor_post, raise_cap_post, raise_horizon_post, raise_per_investor_post,
    update_horizon_post, update_maturity_post, update_maturity_refusal, update_target_post,
    update_target_refusal,
};
use crate::settlement::{
    cancel_funding_post, cancel_funding_refusal, claim_post, claimable_payout, partial_settle_post,
    partial_settle_refusal, refund_post, refund_refusal, settle_post, settle_refusal, settleable,
    withdraw_post, withdraw_refusal,
};
use crate::types::{
    InvoiceEscrow, STATUS_CANCELLED, STATUS_FUNDED, STATUS_OPEN, STATUS_SETTLED, STATUS_WITHDRAWN,
};
use crate::validity::{
    countable, lemma_storage_is_always_valid, next_storage, storage_after, valid, Invocation,
};
use crate::values::{Address, Digest, Sym};
use vstd::prelude::*;

verus! {

/// Whether `investor`'s yield and earliest claim are the same in both storages.
pub open spec fn same_terms(old_s: StorageView, s: StorageView, investor: Address) -> bool {
    &&& s.investor_effective_yield.contains_key(investor)
        == old_s.investor_effective_yield.contains_key(investor)
    &&& s.investor_effective_yield[investor] == old_s.investor_effective_yield[investor]
    &&& s.investor_claim_not_before.contains_key(investor)
        == old_s.investor_claim_not_before.contains_key(investor)
    &&& s.investor_claim_not_before[investor] == old_s.investor_claim_not_before[investor]
}

/// What a batch of deposits leaves alone.
pub proof fn lemma_deposits_frame(e: EnvView, entries: Seq<(Address, i128)>, n: nat)
    requires
        n <= entries.len(),
        e.storage.escrow is Some,
        funded_in_turn(e, entries, n) is Ok,
    ensures
        ({
            let after = funded_in_turn(e, entries, n)->Ok_0;
            let s = after.storage;
            &&& after == (EnvView { storage: s, effects: after.effects, ..e })
            &&& s == (StorageView {
                escrow: s.escrow,
                funding_close_snapshot: s.funding_close_snapshot,
                unique_funder_count: s.unique_funder_count,
                investor_index: s.investor_index,
                investor_contribution: s.investor_contribution,
                investor_effective_yield: s.investor_effective_yield,
                investor_claim_not_before: s.investor_claim_not_before,
                ..e.storage
            })
            &&& s.escrow is Some
            &&& s.escrow->0 == (InvoiceEscrow {
                funded_amount: s.escrow->0.funded_amount,
                status: s.escrow->0.status,
                ..e.storage.escrow->0
            })
            &&& s.escrow->0.status == e.storage.escrow->0.status || (e.storage.escrow->0.status
                == STATUS_OPEN && s.escrow->0.status == STATUS_FUNDED)
            &&& e.storage.funding_close_snapshot is Some ==> s.funding_close_snapshot
                == e.storage.funding_close_snapshot
            &&& n > 0 ==> e.storage.escrow->0.status == STATUS_OPEN
            &&& forall|k: int| 0 <= k < n ==> e.has_auth((#[trigger] entries[k]).0)
            &&& forall|a: Address|
                e.storage.contribution(a) > 0 ==> #[trigger] s.contribution(a) > 0
            &&& forall|a: Address|
                e.storage.contribution(a) > 0 ==> #[trigger] same_terms(e.storage, s, a)
            &&& e.storage.investor_index.is_prefix_of(s.investor_index)
        }),
    decreases n,
{
    if n > 0 {
        lemma_deposits_frame(e, entries, (n - 1) as nat);
        let before = funded_in_turn(e, entries, (n - 1) as nat)->Ok_0;
        let after = funded_in_turn(e, entries, n)->Ok_0;
        assert(before.has_auth(entries[n - 1].0) == e.has_auth(entries[n - 1].0));
        assert forall|a: Address| e.storage.contribution(a) > 0 implies #[trigger] same_terms(
            e.storage,
            after.storage,
            a,
        ) by {
            assert(before.storage.contribution(a) > 0);
            assert(same_terms(e.storage, before.storage, a));
        }
        assert forall|a: Address|
            e.storage.contribution(a) > 0 implies #[trigger] after.storage.contribution(a) > 0 by {
            assert(before.storage.contribution(a) > 0);
        }
    }
}

/// What a batch of revocations leaves alone.
pub proof fn lemma_revocations_frame(e: EnvView, indices: Seq<u32>, n: nat)
    requires
        n <= indices.len(),
        revoked_in_turn(e, indices, n) is Ok,
    ensures
        ({
            let after = revoked_in_turn(e, indices, n)->Ok_0;
            &&& after == (EnvView { storage: after.storage, effects: after.effects, ..e })
            &&& after.storage == (StorageView {
                attestation_revoked: after.storage.attestation_revoked,
                ..e.storage
            })
            &&& n > 0 ==> e.admin_refusal() is None
        }),
    decreases n,
{
    if n > 0 {
        lemma_revocations_frame(e, indices, (n - 1) as nat);
    }
}

/// What a batch of allowlist changes leaves alone.
pub proof fn lemma_admissions_frame(e: EnvView, investors: Seq<Address>, allowed: bool, n: nat)
    requires
        n <= investors.len(),
    ensures
        ({
            let after = set_allowlisted_in_turn(e, investors, allowed, n);
            &&& after == (EnvView { storage: after.storage, effects: after.effects, ..e })
            &&& after.storage == (StorageView {
                investor_allowlisted: after.storage.investor_allowlisted,
                allowlist_index: after.storage.allowlist_index,
                ..e.storage
            })
        }),
    decreases n,
{
    if n > 0 {
        lemma_admissions_frame(e, investors, allowed, (n - 1) as nat);
    }
}

/// Whether those whom the call needs have authorized it.
pub open spec fn authorized(call: Call, e: EnvView) -> bool {
    match call {
        Call::Init(terms) => e.has_auth(terms.admin),
        Call::Fund(investor, _, _) => e.has_auth(investor),
        Call::FundBatch(entries) => forall|k: int|
            0 <= k < entries.len() ==> e.has_auth((#[trigger] entries[k]).0),
        Call::Claim(investor) => e.has_auth(investor),
        Call::Refund(investor) => e.has_auth(investor),
        Call::PartialSettle(caller) => {
            &&& e.has_auth(caller)
            &&& e.storage.escrow matches Some(escrow)
            &&& caller == escrow.sme_address || caller == escrow.admin
        },
        Call::Settle | Call::Withdraw | Call::RecordCollateral(_, _) | Call::ClearCollateral => {
            e.storage.escrow matches Some(escrow) && e.has_auth(escrow.sme_address)
        },
        Call::RotateBeneficiary(_) => {
            &&& e.storage.escrow matches Some(escrow)
            &&& e.has_auth(escrow.sme_address)
            &&& e.has_auth(escrow.admin)
        },
        Call::Sweep(_) => e.storage.treasury matches Some(treasury) && e.has_auth(treasury),
        Call::AcceptAdmin => e.storage.pending_admin matches Some(pending) && e.has_auth(pending),
        Call::BumpTtl(_) => true,
        _ => e.storage.escrow matches Some(escrow) && e.has_auth(escrow.admin),
    }
}

/// No call is carried out without the authorization of those whom it needs: each investor for its
/// own money, the SME for settling, withdrawing and its collateral record, the treasury for a
/// sweep, the pending admin for the handover, SME and admin together for a change of beneficiary,
/// and the admin for everything else. Only extending lifetimes is open to anyone.
pub proof fn lemma_calls_need_authority(call: Call, e: EnvView)
    requires
        call.refusal(e) is None,
    ensures
        authorized(call, e),
{
    match call {
        Call::FundBatch(entries) => {
            lemma_deposits_frame(e, entries, entries.len());
        },
        Call::RevokeBatch(indices) => {
            lemma_revocations_frame(e, indices, indices.len());
        },
        _ => {},
    }
}

/// Before the escrow is set up, every call is refused but setting it up and extending lifetimes.
pub proof fn lemma_nothing_before_set_up(call: Call, e: EnvView)
    requires
        valid(e.storage),
        call.refusal(e) is None,
    ensures
        e.storage.escrow is Some || call is Init || call is BumpTtl,
{
    if e.storage.escrow is None {
        reveal(valid);
        if let Call::RevokeBatch(indices) = call {
            lemma_revocations_frame(e, indices, indices.len());
        }
    }
}

/// The moves that an escrow makes: open to funded or cancelled, funded to settled or withdrawn.
pub open spec fn status_moves(from: u32, to: u32) -> bool {
    ||| from == STATUS_OPEN && to == STATUS_FUNDED
    ||| from == STATUS_OPEN && to == STATUS_CANCELLED
    ||| from == STATUS_FUNDED && to == STATUS_SETTLED
    ||| from == STATUS_FUNDED && to == STATUS_WITHDRAWN
}

/// Whoever was paid or refunded in the old storage is so in the new one.
pub open spec fn marks_stay(old_s: StorageView, s: StorageView) -> bool {
    &&& forall|a: Address| old_s.claimed(a) ==> #[trigger] s.claimed(a)
    &&& forall|a: Address| old_s.refunded(a) ==> #[trigger] s.refunded(a)
}

/// Whether the close snapshot, once taken, holds the whole funded amount.
pub open spec fn snapshot_is_whole(s: StorageView) -> bool {
    s.funding_close_snapshot matches Some(snapshot) ==> snapshot.total_principal
        == s.escrow->0.funded_amount
}

/// What a call keeps of an escrow that was set up: the terms that are fixed, the direction of the
/// status, what is written once, the order of the investors, and who was paid or refunded. A call
/// that `closes_whole` takes the close snapshot of the whole funded amount, if at all.
#[verifier::opaque]
pub open spec fn kept(old_s: StorageView, s: StorageView, closes_whole: bool) -> bool {
    &&& s.escrow is Some
    &&& s.escrow->0.invoice_id == old_s.escrow->0.invoice_id
    &&& s.escrow->0.amount == old_s.escrow->0.amount
    &&& s.escrow->0.yield_bps == old_s.escrow->0.yield_bps
    &&& s.funding_token == old_s.funding_token
    &&& s.treasury == old_s.treasury
    &&& s.yield_tier_table == old_s.yield_tier_table
    &&& s.version == old_s.version
    &&& s.legal_hold_clear_delay == old_s.legal_hold_clear_delay
    &&& s.funding_deadline == old_s.funding_deadline
    &&& s.escrow->0.status == old_s.escrow->0.status || status_moves(
        old_s.escrow->0.status,
        s.escrow->0.status,
    )
    &&& old_s.funding_close_snapshot is Some ==> s.funding_close_snapshot
        == old_s.funding_close_snapshot
    &&& closes_whole && old_s.funding_close_snapshot is None ==> snapshot_is_whole(s)
    &&& old_s.primary_attestation_hash is Some ==> s.primary_attestation_hash
        == old_s.primary_attestation_hash
    &&& old_s.attestation_append_log.is_prefix_of(s.attestation_append_log)
    &&& s.settled_at == old_s.settled_at || old_s.escrow->0.status == STATUS_FUNDED
    &&& s.escrow->0.funded_amount == old_s.escrow->0.funded_amount || old_s.escrow->0.status
        == STATUS_OPEN
    &&& old_s.investor_index.is_prefix_of(s.investor_index)
    &&& marks_stay(old_s, s)
    &&& forall|a: Address|
        old_s.contribution(a) > 0 || old_s.escrow->0.status != STATUS_OPEN
            ==> #[trigger] same_terms(old_s, s, a)
}

/// Two storages with the same escrow, the same fixed terms and the same entries that are written
/// once.
spec fn alike(old_s: StorageView, s: StorageView) -> bool {
    &&& s.escrow == old_s.escrow
    &&& s.funding_token == old_s.funding_token
    &&& s.treasury == old_s.treasury
    &&& s.yield_tier_table == old_s.yield_tier_table
    &&& s.version == old_s.version
    &&& s.legal_hold_clear_delay == old_s.legal_hold_clear_delay
    &&& s.funding_deadline == old_s.funding_deadline
    &&& s.funding_close_snapshot == old_s.funding_close_snapshot
    &&& s.primary_attestation_hash == old_s.primary_attestation_hash
    &&& s.attestation_append_log == old_s.attestation_append_log
    &&& s.settled_at == old_s.settled_at
    &&& s.investor_effective_yield == old_s.investor_effective_yield
    &&& s.investor_claim_not_before == old_s.investor_claim_not_before
    &&& s.investor_index == old_s.investor_index
    &&& marks_stay(old_s, s)
}

proof fn lemma_alike_keeps(old_s: StorageView, s: StorageView)
    requires
        old_s.escrow is Some,
        alike(old_s, s),
    ensures
        kept(old_s, s, true),
        kept(old_s, s, false),
{
    reveal(kept);
}

proof fn lemma_fund_keeps(e: EnvView, investor: Address, amount: i128, kind: DepositKind)
    requires
        e.storage.escrow is Some,
        fund_refusal(e, investor, amount, kind) is None,
    ensures
        kept(e.storage, fund_post(e, investor, amount, kind).storage, true),
{
    reveal(kept);
}

proof fn lemma_fund_batch_keeps(e: EnvView, entries: Seq<(Address, i128)>)
    requires
        e.storage.escrow is Some,
        fund_batch_refusal(e, entries) is None,
    ensures
        kept(e.storage, fund_batch_post(e, entries).storage, false),
{
    reveal(kept);
    lemma_deposits_frame(e, entries, entries.len());
}

proof fn lemma_partial_settle_keeps(e: EnvView, caller: Address)
    requires
        e.storage.escrow is Some,
        partial_settle_refusal(e, caller) is None,
    ensures
        kept(e.storage, partial_settle_post(e).storage, true),
{
    reveal(kept);
}

proof fn lemma_settle_keeps(e: EnvView)
    requires
        e.storage.escrow is Some,
        settle_refusal(e) is None,
    ensures
        kept(e.storage, settle_post(e).storage, true),
{
    reveal(kept);
}

proof fn lemma_withdraw_keeps(e: EnvView)
    requires
        e.storage.escrow is Some,
        withdraw_refusal(e) is None,
    ensures
        kept(e.storage, withdraw_post(e).storage, true),
{
    reveal(kept);
}

proof fn lemma_cancel_keeps(e: EnvView)
    requires
        e.storage.escrow is Some,
        cancel_funding_refusal(e) is None,
    ensures
        kept(e.storage, cancel_funding_post(e).storage, true),
{
    reveal(kept);
}

proof fn lemma_target_keeps(e: EnvView, new_target: i128)
    requires
        e.storage.escrow is Some,
        update_target_refusal(e, new_target) is None,
    ensures
        kept(e.storage, update_target_post(e, new_target).storage, true),
{
    reveal(kept);
}

proof fn lemma_maturity_keeps(e: EnvView, new_maturity: u64)
    requires
        e.storage.escrow is Some,
        update_maturity_refusal(e, new_maturity) is None,
    ensures
        kept(e.storage, update_maturity_post(e, new_maturity).storage, true),
{
    reveal(kept);
}

proof fn lemma_rotate_keeps(e: EnvView, new_sme: Address)
    requires
        e.storage.escrow is Some,
        rotate_refusal(e, new_sme) is None,
    ensures
        kept(e.storage, rotate_post(e, new_sme).storage, true),
{
    reveal(kept);
}

proof fn lemma_accept_keeps(e: EnvView)
    requires
        e.storage.escrow is Some,
        accept_admin_refusal(e) is None,
    ensures
        kept(e.storage, accept_admin_post(e).storage, true),
{
    reveal(kept);
}

proof fn lemma_bind_keeps(e: EnvView, digest: Digest)
    requires
        e.storage.escrow is Some,
        bind_primary_refusal(e) is None,
    ensures
        kept(e.storage, bind_primary_post(e, digest).storage, true),
{
    reveal(kept);
}

proof fn lemma_append_keeps(e: EnvView, digest: Digest)
    requires
        e.storage.escrow is Some,
        append_refusal(e) is None,
    ensures
        kept(e.storage, append_post(e, digest).storage, true),
{
    reveal(kept);
}

proof fn lemma_investor_entries_keep(e: EnvView, investor: Address, allowed: bool)
    requires
        e.storage.escrow is Some,
    ensures
        kept(e.storage, claim_post(e, investor).storage, true),
        kept(e.storage, refund_post(e, investor).storage, true),
        kept(e.storage, set_allowlisted_post(e, investor, allowed).storage, true),
        kept(e.storage, set_allowlist_active_post(e, allowed).storage, true),
{
    lemma_alike_keeps(e.storage, claim_post(e, investor).storage);
    lemma_alike_keeps(e.storage, refund_post(e, investor).storage);
    lemma_alike_keeps(e.storage, set_allowlisted_post(e, investor, allowed).storage);
    lemma_alike_keeps(e.storage, set_allowlist_active_post(e, allowed).storage);
}

proof fn lemma_log_marks_keep(e: EnvView, index: u32, asset: Sym, amount: i128)
    requires
        e.storage.escrow is Some,
    ensures
        kept(e.storage, revoke_post(e, index).storage, true),
        kept(e.storage, unrevoke_post(e, index).storage, true),
        kept(e.storage, record_collateral_post(e, asset, amount).storage, true),
        kept(e.storage, clear_collateral_post(e).storage, true),
{
    lemma_alike_keeps(e.storage, revoke_post(e, index).storage);
    lemma_alike_keeps(e.storage, unrevoke_post(e, index).storage);
    lemma_alike_keeps(e.storage, record_collateral_post(e, asset, amount).storage);
    lemma_alike_keeps(e.storage, clear_collateral_post(e).storage);
}

proof fn lemma_switches_keep(e: EnvView, active: bool)
    requires
        e.storage.escrow is Some,
    ensures
        kept(e.storage, set_paused_post(e, active).storage, true),
        kept(e.storage, set_legal_hold_post(e, active).storage, true),
        kept(e.storage, request_clear_post(e).storage, true),
        kept(e.storage, cancel_clear_post(e).storage, true),
{
    lemma_alike_keeps(e.storage, set_paused_post(e, active).storage);
    lemma_alike_keeps(e.storage, set_legal_hold_post(e, active).storage);
    lemma_alike_keeps(e.storage, request_clear_post(e).storage);
    lemma_alike_keeps(e.storage, cancel_clear_post(e).storage);
}

proof fn lemma_proposals_keep(
    e: EnvView,
    new_admin: Address,
    window: Option<u64>,
    registry: Option<Address>,
)
    requires
        e.storage.escrow is Some,
    ensures
        kept(e.storage, propose_admin_post(e, new_admin, window).storage, true),
        kept(e.storage, cancel_pending_post(e).storage, true),
        kept(e.storage, rebind_registry_post(e, registry).storage, true),
{
    lemma_alike_keeps(e.storage, propose_admin_post(e, new_admin, window).storage);
    lemma_alike_keeps(e.storage, cancel_pending_post(e).storage);
    lemma_alike_keeps(e.storage, rebind_registry_post(e, registry).storage);
}

proof fn lemma_limits_keep(e: EnvView, cap: u32, amount: i128)
    requires
        e.storage.escrow is Some,
    ensures
        kept(e.storage, lower_cap_post(e, cap).storage, true),
        kept(e.storage, raise_cap_post(e, cap).storage, true),
        kept(e.storage, lower_floor_post(e, amount).storage, true),
        kept(e.storage, raise_per_investor_post(e, amount).storage, true),
{
    lemma_alike_keeps(e.storage, lower_cap_post(e, cap).storage);
    lemma_alike_keeps(e.storage, raise_cap_post(e, cap).storage);
    lemma_alike_keeps(e.storage, lower_floor_post(e, amount).storage);
    lemma_alike_keeps(e.storage, raise_per_investor_post(e, amount).storage);
}

proof fn lemma_horizons_keep(e: EnvView, new_horizon: u64)
    requires
        e.storage.escrow is Some,
    ensures
        kept(e.storage, update_horizon_post(e, new_horizon).storage, true),
        kept(e.storage, raise_horizon_post(e, new_horizon).storage, true),
{
    lemma_alike_keeps(e.storage, update_horizon_post(e, new_horizon).storage);
    lemma_alike_keeps(e.storage, raise_horizon_post(e, new_horizon).storage);
}

proof fn lemma_admissions_keep(e: EnvView, investors: Seq<Address>, allowed: bool)
    requires
        e.storage.escrow is Some,
    ensures
        kept(
            e.storage,
            set_allowlisted_in_turn(e, investors, allowed, investors.len()).storage,
            true,
        ),
{
    lemma_admissions_frame(e, investors, allowed, investors.len());
    lemma_alike_keeps(
        e.storage,
        set_allowlisted_in_turn(e, investors, allowed, investors.len()).storage,
    );
}

proof fn lemma_revocations_keep(e: EnvView, indices: Seq<u32>)
    requires
        e.storage.escrow is Some,
        revoke_batch_refusal(e, indices) is None,
    ensures
        kept(e.storage, revoke_batch_post(e, indices).storage, true),
{
    lemma_revocations_frame(e, indices, indices.len());
    lemma_alike_keeps(e.storage, revoke_batch_post(e, indices).storage);
}

/// Every call keeps what is to be kept; only a batch of deposits may go on after it closed the
/// funding.
pub proof fn lemma_every_call_keeps(call: Call, e: EnvView)
    requires
        e.storage.escrow is Some,
    ensures
        kept(e.storage, call.after(e).storage, !(call is FundBatch)),
{
    if call.refusal(e) is Some {
        lemma_alike_keeps(e.storage, e.storage);
    } else {
        match call {
            Call::Init(_) => {},
            Call::Fund(investor, amount, kind) => {
                lemma_fund_keeps(e, investor, amount, kind);
            },
            Call::FundBatch(entries) => {
                lemma_fund_batch_keeps(e, entries);
            },
            Call::PartialSettle(caller) => {
                lemma_partial_settle_keeps(e, caller);
            },
            Call::Settle => {
                lemma_settle_keeps(e);
            },
            Call::Withdraw => {
                lemma_withdraw_keeps(e);
            },
            Call::CancelFunding => {
                lemma_cancel_keeps(e);
            },
            Call::UpdateTarget(new_target) => {
                lemma_target_keeps(e, new_target);
            },
            Call::UpdateMaturity(new_maturity) => {
                lemma_maturity_keeps(e, new_maturity);
            },
            Call::RotateBeneficiary(new_sme) => {
                lemma_rotate_keeps(e, new_sme);
            },
            Call::AcceptAdmin => {
                lemma_accept_keeps(e);
            },
            Call::BindPrimary(digest) => {
                lemma_bind_keeps(e, digest);
            },
            Call::AppendDigest(digest) => {
                lemma_append_keeps(e, digest);
            },
            Call::SetAllowlistedBatch(investors, allowed) => {
                lemma_admissions_keep(e, investors, allowed);
            },
            Call::RevokeBatch(indices) => {
                lemma_revocations_keep(e, indices);
            },
            Call::Sweep(_) | Call::Migrate(_) | Call::Upgrade(_) | Call::BumpTtl(_) => {
                lemma_alike_keeps(e.storage, e.storage);
            },
            Call::Claim(investor) => {
                lemma_investor_entries_keep(e, investor, false);
            },
            Call::Refund(investor) => {
                lemma_investor_entries_keep(e, investor, false);
            },
            Call::SetAllowlistActive(active) => {
                lemma_investor_entries_keep(e, e.contract, active);
            },
            Call::SetAllowlisted(investor, allowed) => {
                lemma_investor_entries_keep(e, investor, allowed);
            },
            Call::Revoke(index) => {
                lemma_log_marks_keep(e, index, e.storage.escrow->0.invoice_id, 0);
            },
            Call::Unrevoke(index) => {
                lemma_log_marks_keep(e, index, e.storage.escrow->0.invoice_id, 0);
            },
            Call::RecordCollateral(asset, amount) => {
                lemma_log_marks_keep(e, 0, asset, amount);
            },
            Call::ClearCollateral => {
                lemma_log_marks_keep(e, 0, e.storage.escrow->0.invoice_id, 0);
            },
            Call::SetPaused(active) => {
                lemma_switches_keep(e, active);
            },
            Call::SetLegalHold(active) => {
                lemma_switches_keep(e, active);
            },
            Call::RequestClear => {
                lemma_switches_keep(e, false);
            },
            Call::ClearAfterDelay => {
                lemma_switches_keep(e, false);
            },
            Call::CancelClear => {
                lemma_switches_keep(e, false);
            },
            Call::ProposeAdmin(new_admin, window) => {
                lemma_proposals_keep(e, new_admin, window, None);
            },
            Call::TransferAdmin(new_admin) => {
                lemma_proposals_keep(e, new_admin, None, None);
            },
            Call::CancelPendingAdmin => {
                lemma_proposals_keep(e, e.contract, None, None);
            },
            Call::RebindRegistry(registry) => {
                lemma_proposals_keep(e, e.contract, None, registry);
            },
            Call::LowerCap(new_cap) => {
                lemma_limits_keep(e, new_cap, 0);
            },
            Call::RaiseCap(new_cap) => {
                lemma_limits_keep(e, new_cap, 0);
            },
            Call::LowerFloor(new_floor) => {
                lemma_limits_keep(e, 0, new_floor);
            },
            Call::RaisePerInvestor(new_cap) => {
                lemma_limits_keep(e, 0, new_cap);
            },
            Call::UpdateHorizon(new_horizon) => {
                lemma_horizons_keep(e, new_horizon);
            },
            Call::RaiseHorizon(new_horizon) => {
                lemma_horizons_keep(e, new_horizon);
            },
        }
    }
}

/// An escrow that was set up stays set up, and cannot be set up again.
pub proof fn lemma_set_up_once(call: Call, e: EnvView, terms: InitTerms)
    requires
        e.storage.escrow is Some,
    ensures
        init_refusal(e, terms) is Some,
        call.after(e).storage.escrow is Some,
{
    reveal(kept);
    lemma_every_call_keeps(call, e);
}

/// Invoice, amount, base yield, funding token, treasury, yield tiers, schema version, clear delay
/// and funding deadline are fixed when the escrow is set up.
pub proof fn lemma_terms_are_fixed(call: Call, e: EnvView)
    requires
        e.storage.escrow is Some,
    ensures
        ({
            let s = call.after(e).storage;
            &&& s.escrow->0.invoice_id == e.storage.escrow->0.invoice_id
            &&& s.escrow->0.amount == e.storage.escrow->0.amount
            &&& s.escrow->0.yield_bps == e.storage.escrow->0.yield_bps
            &&& s.funding_token == e.storage.funding_token
            &&& s.treasury == e.storage.treasury
            &&& s.yield_tier_table == e.storage.yield_tier_table
            &&& s.version == e.storage.version
            &&& s.legal_hold_clear_delay == e.storage.legal_hold_clear_delay
            &&& s.funding_deadline == e.storage.funding_deadline
        }),
{
    reveal(kept);
    lemma_every_call_keeps(call, e);
}

/// The status moves forward only. Settled, withdrawn and cancelled are final.
pub proof fn lemma_status_moves_forward(call: Call, e: EnvView)
    requires
        e.storage.escrow is Some,
    ensures
        ({
            let from = e.storage.escrow->0.status;
            let to = call.after(e).storage.escrow->0.status;
            from == to || status_moves(from, to)
        }),
{
    reveal(kept);
    lemma_every_call_keeps(call, e);
}

/// What is written once stays: the close snapshot, the primary attestation digest, and every entry
/// of the attestation log at its index.
pub proof fn lemma_written_once(call: Call, e: EnvView)
    requires
        e.storage.escrow is Some,
    ensures
        ({
            let s = call.after(e).storage;
            &&& e.storage.funding_close_snapshot is Some ==> s.funding_close_snapshot
                == e.storage.funding_close_snapshot
            &&& e.storage.primary_attestation_hash is Some ==> s.primary_attestation_hash
                == e.storage.primary_attestation_hash
            &&& e.storage.attestation_append_log.is_prefix_of(s.attestation_append_log)
        }),
{
    reveal(kept);
    lemma_every_call_keeps(call, e);
}

/// The funded amount changes only while the escrow is open.
pub proof fn lemma_funded_amount_stays(call: Call, e: EnvView)
    requires
        e.storage.escrow is Some,
        e.storage.escrow->0.status != STATUS_OPEN,
    ensures
        call.after(e).storage.escrow->0.funded_amount == e.storage.escrow->0.funded_amount,
{
    reveal(kept);
    lemma_every_call_keeps(call, e);
}

/// The close snapshot that a call other than a batch of deposits takes holds the whole funded
/// amount.
pub proof fn lemma_snapshot_is_taken_whole(call: Call, e: EnvView)
    requires
        e.storage.escrow is Some,
        e.storage.funding_close_snapshot is None,
        !(call is FundBatch),
    ensures
        snapshot_is_whole(call.after(e).storage),
{
    reveal(kept);
    lemma_every_call_keeps(call, e);
}

/// The time of settlement is written once.
pub proof fn lemma_settlement_time_stays(call: Call, e: EnvView)
    requires
        valid(e.storage),
        e.storage.settled_at is Some,
    ensures
        call.after(e).storage.settled_at == e.storage.settled_at,
{
    reveal(valid);
    reveal(kept);
    lemma_every_call_keeps(call, e);
}

/// Yield and earliest claim of an investor are fixed at the first deposit.
pub proof fn lemma_deposit_terms_stay(call: Call, e: EnvView, investor: Address)
    requires
        valid(e.storage),
        e.storage.investor_index.contains(investor),
    ensures
        same_terms(e.storage, call.after(e).storage, investor),
{
    reveal(valid);
    reveal(kept);
    let s = e.storage;
    assert(s.investor_contribution.contains_key(investor));
    if s.contribution(investor) == 0 {
        assert(s.refunded(investor));
    }
    lemma_every_call_keeps(call, e);
    assert(same_terms(s, call.after(e).storage, investor));
}

/// Whoever was paid or refunded stays marked so, whatever is called.
pub proof fn lemma_marks_outlast_every_call(call: Call, e: EnvView, investor: Address)
    requires
        e.storage.escrow is Some,
    ensures
        e.storage.claimed(investor) ==> call.after(e).storage.claimed(investor),
        e.storage.refunded(investor) ==> call.after(e).storage.refunded(investor),
{
    reveal(kept);
    lemma_every_call_keeps(call, e);
}

proof fn lemma_invocation_keeps_marks(invocation: Invocation, contract: Address, s: StorageView)
    requires
        valid(s),
    ensures
        marks_stay(s, next_storage(invocation, contract, s)),
        s.escrow is Some ==> next_storage(invocation, contract, s).escrow is Some,
{
    reveal(next_storage);
    if s.escrow is Some {
        reveal(kept);
        lemma_every_call_keeps(invocation.call, invocation.env(contract, s));
    } else {
        reveal(valid);
    }
}

/// Nobody is paid twice, whatever is called in between: once an investor was paid, a claim does
/// nothing and nothing is claimable ever after; once an investor was refunded, a refund is refused
/// ever after.
pub proof fn lemma_nobody_is_paid_twice(
    contract: Address,
    history: Seq<Invocation>,
    n: nat,
    m: nat,
    later: EnvView,
    investor: Address,
)
    requires
        n <= m <= history.len(),
        forall|i: int|
            0 <= i < m ==> countable(
                #[trigger] history[i],
                contract,
                storage_after(contract, history, i as nat),
            ),
        later.storage == storage_after(contract, history, m),
    ensures
        storage_after(contract, history, n).claimed(investor) ==> later.storage.claimed(investor)
            && claim_post(later, investor) == later && claimable_payout(later, investor) == Ok::<
            i128,
            Refusal,
        >(0),
        storage_after(contract, history, n).refunded(investor) ==> later.storage.refunded(investor)
            && refund_refusal(later, investor) is Some,
    decreases m,
{
    if n < m {
        let before = EnvView {
            storage: storage_after(contract, history, (m - 1) as nat),
            ..later
        };
        lemma_nobody_is_paid_twice(contract, history, n, (m - 1) as nat, before, investor);
        lemma_storage_is_always_valid(contract, history, (m - 1) as nat);
        lemma_invocation_keeps_marks(history[m - 1], contract, before.storage);
    }
    lemma_storage_is_always_valid(contract, history, m);
    reveal(valid);
}

/// Settlement is ready exactly when the SME's call of `settle` is not refused.
pub proof fn lemma_readiness_predicts_settlement(e: EnvView)
    requires
        e.storage.escrow is Some,
        e.has_auth(e.storage.escrow->0.sme_address),
    ensures
        settleable(e) <==> settle_refusal(e) is None,
{
}

/// Replacing the code, extending lifetimes and asking for a migration change nothing that is
/// stored, and no migration is ever carried out.
pub proof fn lemma_maintenance_keeps_storage(
    e: EnvView,
    new_wasm_hash: Digest,
    investors: Seq<Address>,
    from_version: u32,
)
    ensures
        upgrade_post(e, new_wasm_hash).storage == e.storage,
        bump_ttl_post(e, investors).storage == e.storage,
        Call::Migrate(from_version).refusal(e) is Some,
{
}

} // verus!
