//! The hold and the pause, handover and recovery, the allowlist, attestations, and what no rule
//! looks at.
use crate::admin::{
    accept_admin_post, accept_admin_refusal, cancel_pending_post, cancel_pending_refusal,
    migrate_refusal, proposal_expiry, propose_admin_post, propose_admin_refusal, rotate_post,
    rotate_refusal, transfer_admin_post, upgrade_post,
};
use crate::allowlist::{
    set_allowlist_active_post, set_allowlisted_batch_refusal, set_allowlisted_in_turn,
    set_allowlisted_post,
};
use crate::attestation::{
    append_post, append_refusal, bind_primary_post, bind_primary_refusal, revoke_post,
    revoke_refusal, revoked_in_turn, unrevoke_post, unrevoke_refusal,
};
use crate::calls::Call;
use crate::env::{refused, EnvView, LedgerInfo, StorageView};
use crate::errors::{EscrowError, Refusal};
use crate::funding::{batch_amount_fault, fund_post, fund_refusal, funded_in_turn, DepositKind};
use crate::hold::{
    cancel_clear_post, cancel_clear_refusal, clear_after_delay_refusal, request_clear_post,
    request_clear_refusal, set_legal_hold_post, set_legal_hold_refusal, set_paused_post,
};
use crate::limits::{
    lower_cap_post, lower_cap_refusal, lower_floor_post, lower_floor_refusal, raise_cap_post,
    raise_cap_refusal, raise_horizon_post, raise_horizon_refusal, raise_per_investor_post,
    raise_per_investor_refusal, update_horizon_post, update_maturity_post, update_maturity_refusal,
    update_target_post, update_target_refusal,
};
use crate::settlement::{
    cancel_funding_post, cancel_funding_refusal, claim_post, claim_refusal, partial_settle_post,
    partial_settle_refusal, reconciliation, refund_post, refund_refusal, settle_post,
    settle_refusal, sweep_post, sweep_refusal, swept, withdraw_post, withdraw_refusal,
};
use crate::types::{
    SmeCollateralCommitment, MAX_DUST_SWEEP_AMOUNT, STATUS_CANCELLED, STATUS_SETTLED,
    STATUS_WITHDRAWN,
};
use crate::validity::valid;
use crate::values::{Address, Digest};
use vstd::prelude::*;

verus! {

// ---------------------------------------------------------------------------------------------
// Hold and pause
// ---------------------------------------------------------------------------------------------

proof fn lemma_no_batch_while_stopped(e: EnvView, entries: Seq<(Address, i128)>, n: nat)
    requires
        0 < n <= entries.len(),
        e.storage.hold_active() || e.storage.pause_active(),
    ensures
        funded_in_turn(e, entries, n) is Err,
    decreases n,
{
    if n == 1 {
        assert(funded_in_turn(e, entries, 0) == Ok::<EnvView, Refusal>(e));
    } else {
        lemma_no_batch_while_stopped(e, entries, (n - 1) as nat);
    }
}

/// While the hold is active, nothing can be deposited, closed early, settled, withdrawn, claimed,
/// cancelled or swept, and the beneficiary stays: of the calls that move tokens, only refunds are
/// left.
pub proof fn lemma_hold_blocks(call: Call, e: EnvView)
    requires
        e.storage.hold_active(),
        call is Fund || call is FundBatch || call is PartialSettle || call is Settle
            || call is Withdraw || call is Claim || call is CancelFunding || call is Sweep
            || call is RotateBeneficiary,
    ensures
        call.refusal(e) is Some,
{
    if let Call::FundBatch(entries) = call {
        if entries.len() > 0 {
            lemma_no_batch_while_stopped(e, entries, entries.len());
        }
    }
}

/// While the pause is active, nothing can be deposited, settled, withdrawn or claimed.
pub proof fn lemma_pause_blocks(call: Call, e: EnvView)
    requires
        e.storage.pause_active(),
        call is Fund || call is FundBatch || call is Settle || call is Withdraw || call is Claim,
    ensures
        call.refusal(e) is Some,
{
    if let Call::FundBatch(entries) = call {
        if entries.len() > 0 {
            lemma_no_batch_while_stopped(e, entries, entries.len());
        }
    }
}

/// The pause and the hold do not touch each other, and each is as it was set.
pub proof fn lemma_pause_and_hold_are_independent(e: EnvView, active: bool)
    ensures
        set_paused_post(e, active).storage.hold_active() == e.storage.hold_active(),
        set_paused_post(e, active).storage.legal_hold_clearable_at
            == e.storage.legal_hold_clearable_at,
        set_paused_post(e, active).storage.pause_active() == active,
        set_legal_hold_post(e, active).storage.pause_active() == e.storage.pause_active(),
        set_legal_hold_post(e, active).storage.hold_active() == active,
{
}

/// The admin can always clear the hold: after a request, whose delay the clock can measure, and
/// once that delay has passed, both ways of clearing are accepted and lift the hold.
pub proof fn lemma_hold_can_be_cleared(e: EnvView, later: LedgerInfo)
    requires
        e.storage.escrow is Some,
        e.has_auth(e.storage.escrow->0.admin),
        e.ledger.timestamp + e.storage.clear_delay() <= u64::MAX,
        later.timestamp >= e.ledger.timestamp + e.storage.clear_delay(),
    ensures
        request_clear_refusal(e) is None,
        ({
            let due = EnvView { ledger: later, ..request_clear_post(e) };
            &&& set_legal_hold_refusal(due, false) is None
            &&& clear_after_delay_refusal(due) is None
            &&& !set_legal_hold_post(due, false).storage.hold_active()
        }),
{
}

/// With a delay, an active hold is not cleared before a request for it has come due.
pub proof fn lemma_hold_is_not_cleared_early(e: EnvView)
    requires
        e.storage.hold_active(),
        e.storage.clear_delay() > 0,
        e.storage.legal_hold_clearable_at is None || e.ledger.timestamp
            < e.storage.legal_hold_clearable_at->0,
    ensures
        set_legal_hold_refusal(e, false) is Some,
        clear_after_delay_refusal(e) is Some,
{
}

/// Neither proposing nor accepting a handover looks at the hold.
pub proof fn lemma_handover_ignores_hold(e: EnvView, held: Option<bool>, new_admin: Address)
    ensures
        ({
            let other = e.with_storage(StorageView { legal_hold: held, ..e.storage });
            &&& propose_admin_refusal(other, new_admin) == propose_admin_refusal(e, new_admin)
            &&& accept_admin_refusal(other) == accept_admin_refusal(e)
        }),
{
}

// ---------------------------------------------------------------------------------------------
// Handover
// ---------------------------------------------------------------------------------------------

/// A successor who accepts a proposal in time becomes the admin, and the proposal is used up. From
/// then on the successor's authorization counts, and that of the former admin does not.
pub proof fn lemma_handover(
    e: EnvView,
    new_admin: Address,
    window: Option<u64>,
    later: LedgerInfo,
    authorized: Seq<Address>,
)
    requires
        propose_admin_refusal(e, new_admin) is None,
        later.timestamp <= proposal_expiry(e, window),
        authorized.contains(new_admin),
    ensures
        ({
            let ready = EnvView { ledger: later, authorized, ..propose_admin_post(
                e,
                new_admin,
                window,
            ) };
            let after = accept_admin_post(ready);
            &&& accept_admin_refusal(ready) is None
            &&& after.storage.escrow is Some
            &&& after.storage.escrow->0.admin == new_admin
            &&& after.storage.pending_admin is None
            &&& after.storage.pending_admin_expiry is None
            &&& after.admin_refusal() is None
            &&& EnvView { authorized: seq![e.storage.escrow->0.admin], ..after }.admin_refusal()
                == Some(Refusal::AuthRequired(new_admin))
        }),
{
    let former = e.storage.escrow->0.admin;
    assert(!seq![former].contains(new_admin));
}

/// A proposal that has run out, or that was called off, cannot be accepted.
pub proof fn lemma_no_late_handover(
    e: EnvView,
    new_admin: Address,
    window: Option<u64>,
    later: LedgerInfo,
)
    requires
        later.timestamp > proposal_expiry(e, window),
    ensures
        accept_admin_refusal(EnvView { ledger: later, ..propose_admin_post(e, new_admin, window) })
            == refused(EscrowError::AdminProposalExpired),
        accept_admin_refusal(cancel_pending_post(e)) == refused(EscrowError::NoPendingAdmin),
{
}

// ---------------------------------------------------------------------------------------------
// Allowlist, caps, attestations
// ---------------------------------------------------------------------------------------------

/// While the allowlist is on, only the allowlisted can deposit.
pub proof fn lemma_allowlist_gates_deposits(
    e: EnvView,
    investor: Address,
    amount: i128,
    kind: DepositKind,
)
    requires
        e.storage.allowlist_on(),
        !e.storage.allowlisted(investor),
    ensures
        fund_refusal(e, investor, amount, kind) is Some,
{
}

/// The cap on distinct investors does not stand in the way of those who have deposited before.
pub proof fn lemma_cap_spares_investors(
    e: EnvView,
    cap: Option<u32>,
    investor: Address,
    amount: i128,
    kind: DepositKind,
)
    requires
        e.storage.contribution(investor) != 0,
    ensures
        fund_refusal(
            e.with_storage(StorageView { max_unique_investors_cap: cap, ..e.storage }),
            investor,
            amount,
            kind,
        ) == fund_refusal(e, investor, amount, kind),
{
}

/// Taking a revocation back undoes it, and revoking again undoes that.
pub proof fn lemma_revocation_can_be_undone(e: EnvView, index: u32)
    ensures
        revoke_refusal(e, index) is None ==> {
            &&& unrevoke_refusal(revoke_post(e, index), index) is None
            &&& unrevoke_post(revoke_post(e, index), index).storage == e.storage
        },
        unrevoke_refusal(e, index) is None ==> {
            &&& revoke_refusal(unrevoke_post(e, index), index) is None
            &&& revoke_post(unrevoke_post(e, index), index).storage == e.storage
        },
{
    let marks = e.storage.attestation_revoked;
    if revoke_refusal(e, index) is None {
        assert(marks.insert(index).remove(index) =~= marks);
    }
    if unrevoke_refusal(e, index) is None {
        assert(marks.remove(index).insert(index) =~= marks);
    }
}

// ---------------------------------------------------------------------------------------------
// Reconciliation
// ---------------------------------------------------------------------------------------------

/// The surplus that is reported can be swept; in a cancelled escrow nothing beyond it can.
pub proof fn lemma_surplus_is_sweepable(e: EnvView, amount: i128)
    requires
        valid(e.storage),
        e.storage.escrow is Some,
    ensures
        !e.storage.hold_active() && e.has_auth(e.storage.treasury->0) && 0 < amount
            <= MAX_DUST_SWEEP_AMOUNT && amount <= reconciliation(e).surplus && (
        e.storage.escrow->0.status == STATUS_SETTLED || e.storage.escrow->0.status
            == STATUS_WITHDRAWN || e.storage.escrow->0.status == STATUS_CANCELLED) ==> {
            &&& sweep_refusal(e, amount) is None
            &&& swept(e, amount) == amount
        },
        e.storage.escrow->0.status == STATUS_CANCELLED && sweep_refusal(e, amount) is None
            ==> swept(e, amount) <= reconciliation(e).surplus,
{
    reveal(valid);
}

// ---------------------------------------------------------------------------------------------
// What no rule looks at
// ---------------------------------------------------------------------------------------------

/// The same environment with another collateral record and another registry hint.
pub open spec fn relabelled(
    e: EnvView,
    pledge: Option<SmeCollateralCommitment>,
    registry: Option<Address>,
) -> EnvView {
    e.with_storage(
        StorageView { sme_collateral_pledge: pledge, registry_ref: registry, ..e.storage },
    )
}

/// Whether `after`, relabelled, is `other`.
#[verifier::opaque]
pub open spec fn relabels(
    after: EnvView,
    other: EnvView,
    pledge: Option<SmeCollateralCommitment>,
    registry: Option<Address>,
) -> bool {
    other == relabelled(after, pledge, registry)
}

proof fn lemma_deposits_relabel(
    e: EnvView,
    other: EnvView,
    pledge: Option<SmeCollateralCommitment>,
    registry: Option<Address>,
    investor: Address,
    amount: i128,
    kind: DepositKind,
)
    requires
        other == relabelled(e, pledge, registry),
    ensures
        relabels(
            fund_post(e, investor, amount, kind),
            fund_post(other, investor, amount, kind),
            pledge,
            registry,
        ),
{
    reveal(relabels);
}

proof fn lemma_phases_relabel(
    e: EnvView,
    other: EnvView,
    pledge: Option<SmeCollateralCommitment>,
    registry: Option<Address>,
    new_target: i128,
)
    requires
        other == relabelled(e, pledge, registry),
    ensures
        relabels(partial_settle_post(e), partial_settle_post(other), pledge, registry),
        relabels(settle_post(e), settle_post(other), pledge, registry),
        relabels(withdraw_post(e), withdraw_post(other), pledge, registry),
        relabels(cancel_funding_post(e), cancel_funding_post(other), pledge, registry),
        relabels(
            update_target_post(e, new_target),
            update_target_post(other, new_target),
            pledge,
            registry,
        ),
{
    reveal(relabels);
}

proof fn lemma_payments_relabel(
    e: EnvView,
    other: EnvView,
    pledge: Option<SmeCollateralCommitment>,
    registry: Option<Address>,
    investor: Address,
    amount: i128,
)
    requires
        other == relabelled(e, pledge, registry),
    ensures
        relabels(claim_post(e, investor), claim_post(other, investor), pledge, registry),
        relabels(refund_post(e, investor), refund_post(other, investor), pledge, registry),
        relabels(sweep_post(e, amount), sweep_post(other, amount), pledge, registry),
{
    reveal(relabels);
}

proof fn lemma_switches_relabel(
    e: EnvView,
    other: EnvView,
    pledge: Option<SmeCollateralCommitment>,
    registry: Option<Address>,
    active: bool,
)
    requires
        other == relabelled(e, pledge, registry),
    ensures
        relabels(
            set_allowlist_active_post(e, active),
            set_allowlist_active_post(other, active),
            pledge,
            registry,
        ),
        relabels(set_paused_post(e, active), set_paused_post(other, active), pledge, registry),
        relabels(
            set_legal_hold_post(e, active),
            set_legal_hold_post(other, active),
            pledge,
            registry,
        ),
        relabels(request_clear_post(e), request_clear_post(other), pledge, registry),
        relabels(cancel_clear_post(e), cancel_clear_post(other), pledge, registry),
{
    reveal(relabels);
}

proof fn lemma_attestations_relabel(
    e: EnvView,
    other: EnvView,
    pledge: Option<SmeCollateralCommitment>,
    registry: Option<Address>,
    index: u32,
    digest: Digest,
)
    requires
        other == relabelled(e, pledge, registry),
    ensures
        relabels(bind_primary_post(e, digest), bind_primary_post(other, digest), pledge, registry),
        relabels(append_post(e, digest), append_post(other, digest), pledge, registry),
        relabels(revoke_post(e, index), revoke_post(other, index), pledge, registry),
        relabels(unrevoke_post(e, index), unrevoke_post(other, index), pledge, registry),
{
    reveal(relabels);
}

proof fn lemma_roles_relabel(
    e: EnvView,
    other: EnvView,
    pledge: Option<SmeCollateralCommitment>,
    registry: Option<Address>,
    who: Address,
    allowed: bool,
    window: Option<u64>,
)
    requires
        other == relabelled(e, pledge, registry),
    ensures
        relabels(
            set_allowlisted_post(e, who, allowed),
            set_allowlisted_post(other, who, allowed),
            pledge,
            registry,
        ),
        relabels(
            propose_admin_post(e, who, window),
            propose_admin_post(other, who, window),
            pledge,
            registry,
        ),
        relabels(transfer_admin_post(e, who), transfer_admin_post(other, who), pledge, registry),
        relabels(accept_admin_post(e), accept_admin_post(other), pledge, registry),
        relabels(cancel_pending_post(e), cancel_pending_post(other), pledge, registry),
        relabels(rotate_post(e, who), rotate_post(other, who), pledge, registry),
{
    reveal(relabels);
}

proof fn lemma_limits_relabel(
    e: EnvView,
    other: EnvView,
    pledge: Option<SmeCollateralCommitment>,
    registry: Option<Address>,
    cap: u32,
    amount: i128,
)
    requires
        other == relabelled(e, pledge, registry),
    ensures
        relabels(lower_cap_post(e, cap), lower_cap_post(other, cap), pledge, registry),
        relabels(raise_cap_post(e, cap), raise_cap_post(other, cap), pledge, registry),
        relabels(lower_floor_post(e, amount), lower_floor_post(other, amount), pledge, registry),
        relabels(
            raise_per_investor_post(e, amount),
            raise_per_investor_post(other, amount),
            pledge,
            registry,
        ),
{
    reveal(relabels);
}

proof fn lemma_times_relabel(
    e: EnvView,
    other: EnvView,
    pledge: Option<SmeCollateralCommitment>,
    registry: Option<Address>,
    time: u64,
    digest: Digest,
)
    requires
        other == relabelled(e, pledge, registry),
    ensures
        relabels(
            update_maturity_post(e, time),
            update_maturity_post(other, time),
            pledge,
            registry,
        ),
        relabels(update_horizon_post(e, time), update_horizon_post(other, time), pledge, registry),
        relabels(raise_horizon_post(e, time), raise_horizon_post(other, time), pledge, registry),
        relabels(upgrade_post(e, digest), upgrade_post(other, digest), pledge, registry),
{
    reveal(relabels);
}

proof fn lemma_batch_relabels(
    e: EnvView,
    pledge: Option<SmeCollateralCommitment>,
    registry: Option<Address>,
    entries: Seq<(Address, i128)>,
    n: nat,
)
    requires
        n <= entries.len(),
    ensures
        match (
            funded_in_turn(e, entries, n),
            funded_in_turn(relabelled(e, pledge, registry), entries, n),
        ) {
            (Ok(after), Ok(other)) => other == relabelled(after, pledge, registry),
            (Err(why), Err(same)) => why == same,
            _ => false,
        },
    decreases n,
{
    if n > 0 {
        lemma_batch_relabels(e, pledge, registry, entries, (n - 1) as nat);
        if let Ok(before) = funded_in_turn(e, entries, (n - 1) as nat) {
            let (investor, amount) = entries[n - 1];
            lemma_deposits_relabel(
                before,
                relabelled(before, pledge, registry),
                pledge,
                registry,
                investor,
                amount,
                DepositKind::Simple,
            );
            reveal(relabels);
        }
    }
}

proof fn lemma_amounts_relabel(
    e: EnvView,
    pledge: Option<SmeCollateralCommitment>,
    registry: Option<Address>,
    entries: Seq<(Address, i128)>,
    n: nat,
)
    ensures
        batch_amount_fault(relabelled(e, pledge, registry).storage, entries, n)
            == batch_amount_fault(e.storage, entries, n),
    decreases n,
{
    if n > 0 {
        lemma_amounts_relabel(e, pledge, registry, entries, (n - 1) as nat);
    }
}

proof fn lemma_admissions_relabel(
    e: EnvView,
    pledge: Option<SmeCollateralCommitment>,
    registry: Option<Address>,
    investors: Seq<Address>,
    allowed: bool,
    n: nat,
)
    requires
        n <= investors.len(),
    ensures
        set_allowlisted_in_turn(relabelled(e, pledge, registry), investors, allowed, n)
            == relabelled(
            set_allowlisted_in_turn(e, investors, allowed, n),
            pledge,
            registry,
        ),
    decreases n,
{
    if n > 0 {
        lemma_admissions_relabel(e, pledge, registry, investors, allowed, (n - 1) as nat);
        let before = set_allowlisted_in_turn(e, investors, allowed, (n - 1) as nat);
        lemma_roles_relabel(
            before,
            relabelled(before, pledge, registry),
            pledge,
            registry,
            investors[n - 1],
            allowed,
            None,
        );
        reveal(relabels);
    }
}

proof fn lemma_revocations_relabel(
    e: EnvView,
    pledge: Option<SmeCollateralCommitment>,
    registry: Option<Address>,
    indices: Seq<u32>,
    n: nat,
)
    requires
        n <= indices.len(),
    ensures
        match (
            revoked_in_turn(e, indices, n),
            revoked_in_turn(relabelled(e, pledge, registry), indices, n),
        ) {
            (Ok(after), Ok(other)) => other == relabelled(after, pledge, registry),
            (Err(why), Err(same)) => why == same,
            _ => false,
        },
    decreases n,
{
    if n > 0 {
        lemma_revocations_relabel(e, pledge, registry, indices, (n - 1) as nat);
        if let Ok(before) = revoked_in_turn(e, indices, (n - 1) as nat) {
            lemma_attestations_relabel(
                before,
                relabelled(before, pledge, registry),
                pledge,
                registry,
                indices[n - 1],
                arbitrary(),
            );
            reveal(relabels);
        }
    }
}

/// Whether the call is one that writes the collateral record or the registry hint.
pub open spec fn writes_labels(call: Call) -> bool {
    call is Init || call is RecordCollateral || call is ClearCollateral || call is RebindRegistry
}

proof fn lemma_deposits_ignore_labels(
    e: EnvView,
    other: EnvView,
    pledge: Option<SmeCollateralCommitment>,
    registry: Option<Address>,
    investor: Address,
    amount: i128,
    kind: DepositKind,
)
    requires
        other == relabelled(e, pledge, registry),
    ensures
        fund_refusal(other, investor, amount, kind) == fund_refusal(e, investor, amount, kind),
{
}

proof fn lemma_phases_ignore_labels(
    e: EnvView,
    other: EnvView,
    pledge: Option<SmeCollateralCommitment>,
    registry: Option<Address>,
    caller: Address,
    target: i128,
)
    requires
        other == relabelled(e, pledge, registry),
    ensures
        partial_settle_refusal(other, caller) == partial_settle_refusal(e, caller),
        settle_refusal(other) == settle_refusal(e),
        withdraw_refusal(other) == withdraw_refusal(e),
        cancel_funding_refusal(other) == cancel_funding_refusal(e),
        update_target_refusal(other, target) == update_target_refusal(e, target),
{
}

proof fn lemma_payments_ignore_labels(
    e: EnvView,
    other: EnvView,
    pledge: Option<SmeCollateralCommitment>,
    registry: Option<Address>,
    investor: Address,
    amount: i128,
)
    requires
        other == relabelled(e, pledge, registry),
    ensures
        claim_refusal(other, investor) == claim_refusal(e, investor),
        refund_refusal(other, investor) == refund_refusal(e, investor),
        sweep_refusal(other, amount) == sweep_refusal(e, amount),
{
}

proof fn lemma_marks_ignore_labels(
    e: EnvView,
    other: EnvView,
    pledge: Option<SmeCollateralCommitment>,
    registry: Option<Address>,
    investors: Seq<Address>,
    index: u32,
)
    requires
        other == relabelled(e, pledge, registry),
    ensures
        set_allowlisted_batch_refusal(other, investors) == set_allowlisted_batch_refusal(
            e,
            investors,
        ),
        bind_primary_refusal(other) == bind_primary_refusal(e),
        append_refusal(other) == append_refusal(e),
        revoke_refusal(other, index) == revoke_refusal(e, index),
        unrevoke_refusal(other, index) == unrevoke_refusal(e, index),
{
}

proof fn lemma_roles_ignore_labels(
    e: EnvView,
    other: EnvView,
    pledge: Option<SmeCollateralCommitment>,
    registry: Option<Address>,
    active: bool,
    who: Address,
    version: u32,
)
    requires
        other == relabelled(e, pledge, registry),
    ensures
        other.admin_refusal() == e.admin_refusal(),
        set_legal_hold_refusal(other, active) == set_legal_hold_refusal(e, active),
        request_clear_refusal(other) == request_clear_refusal(e),
        clear_after_delay_refusal(other) == clear_after_delay_refusal(e),
        cancel_clear_refusal(other) == cancel_clear_refusal(e),
        propose_admin_refusal(other, who) == propose_admin_refusal(e, who),
        accept_admin_refusal(other) == accept_admin_refusal(e),
        cancel_pending_refusal(other) == cancel_pending_refusal(e),
        rotate_refusal(other, who) == rotate_refusal(e, who),
        migrate_refusal(other, version) == migrate_refusal(e, version),
{
}

proof fn lemma_limits_ignore_labels(
    e: EnvView,
    other: EnvView,
    pledge: Option<SmeCollateralCommitment>,
    registry: Option<Address>,
    cap: u32,
    amount: i128,
    time: u64,
)
    requires
        other == relabelled(e, pledge, registry),
    ensures
        lower_cap_refusal(other, cap) == lower_cap_refusal(e, cap),
        raise_cap_refusal(other, cap) == raise_cap_refusal(e, cap),
        lower_floor_refusal(other, amount) == lower_floor_refusal(e, amount),
        raise_per_investor_refusal(other, amount) == raise_per_investor_refusal(e, amount),
        update_maturity_refusal(other, time) == update_maturity_refusal(e, time),
        raise_horizon_refusal(other, time) == raise_horizon_refusal(e, time),
{
}

proof fn lemma_refusals_ignore_labels(
    call: Call,
    e: EnvView,
    pledge: Option<SmeCollateralCommitment>,
    registry: Option<Address>,
)
    requires
        !writes_labels(call),
    ensures
        call.refusal(relabelled(e, pledge, registry)) == call.refusal(e),
{
    let other = relabelled(e, pledge, registry);
    match call {
        Call::Init(_)
        | Call::RecordCollateral(_, _)
        | Call::ClearCollateral
        | Call::RebindRegistry(_) => {},
        Call::Fund(investor, amount, kind) => {
            lemma_deposits_ignore_labels(e, other, pledge, registry, investor, amount, kind);
        },
        Call::FundBatch(entries) => {
            lemma_amounts_relabel(e, pledge, registry, entries, entries.len());
            lemma_batch_relabels(e, pledge, registry, entries, entries.len());
        },
        Call::PartialSettle(caller) => {
            lemma_phases_ignore_labels(e, other, pledge, registry, caller, 0);
        },
        Call::Settle | Call::Withdraw | Call::CancelFunding => {
            lemma_phases_ignore_labels(e, other, pledge, registry, e.contract, 0);
        },
        Call::UpdateTarget(target) => {
            lemma_phases_ignore_labels(e, other, pledge, registry, e.contract, target);
        },
        Call::Claim(investor) => {
            lemma_payments_ignore_labels(e, other, pledge, registry, investor, 0);
        },
        Call::Refund(investor) => {
            lemma_payments_ignore_labels(e, other, pledge, registry, investor, 0);
        },
        Call::Sweep(amount) => {
            lemma_payments_ignore_labels(e, other, pledge, registry, e.contract, amount);
        },
        Call::SetAllowlistedBatch(investors, _) => {
            lemma_marks_ignore_labels(e, other, pledge, registry, investors, 0);
        },
        Call::BindPrimary(_) | Call::AppendDigest(_) => {
            lemma_marks_ignore_labels(e, other, pledge, registry, Seq::empty(), 0);
        },
        Call::Revoke(index) => {
            lemma_marks_ignore_labels(e, other, pledge, registry, Seq::empty(), index);
        },
        Call::Unrevoke(index) => {
            lemma_marks_ignore_labels(e, other, pledge, registry, Seq::empty(), index);
        },
        Call::RevokeBatch(indices) => {
            lemma_revocations_relabel(e, pledge, registry, indices, indices.len());
        },
        Call::SetLegalHold(active) => {
            lemma_roles_ignore_labels(e, other, pledge, registry, active, e.contract, 0);
        },
        Call::ProposeAdmin(who, _) => {
            lemma_roles_ignore_labels(e, other, pledge, registry, false, who, 0);
        },
        Call::TransferAdmin(who) => {
            lemma_roles_ignore_labels(e, other, pledge, registry, false, who, 0);
        },
        Call::RotateBeneficiary(who) => {
            lemma_roles_ignore_labels(e, other, pledge, registry, false, who, 0);
        },
        Call::Migrate(version) => {
            lemma_roles_ignore_labels(e, other, pledge, registry, false, e.contract, version);
        },
        Call::SetAllowlistActive(_)
        | Call::SetAllowlisted(_, _)
        | Call::SetPaused(_)
        | Call::RequestClear
        | Call::ClearAfterDelay
        | Call::CancelClear
        | Call::AcceptAdmin
        | Call::CancelPendingAdmin
        | Call::Upgrade(_)
        | Call::UpdateHorizon(_) => {
            lemma_roles_ignore_labels(e, other, pledge, registry, false, e.contract, 0);
        },
        Call::LowerCap(cap) => {
            lemma_limits_ignore_labels(e, other, pledge, registry, cap, 0, 0);
        },
        Call::RaiseCap(cap) => {
            lemma_limits_ignore_labels(e, other, pledge, registry, cap, 0, 0);
        },
        Call::LowerFloor(amount) => {
            lemma_limits_ignore_labels(e, other, pledge, registry, 0, amount, 0);
        },
        Call::RaisePerInvestor(amount) => {
            lemma_limits_ignore_labels(e, other, pledge, registry, 0, amount, 0);
        },
        Call::UpdateMaturity(time) => {
            lemma_limits_ignore_labels(e, other, pledge, registry, 0, 0, time);
        },
        Call::RaiseHorizon(time) => {
            lemma_limits_ignore_labels(e, other, pledge, registry, 0, 0, time);
        },
        Call::BumpTtl(_) => {},
    }
}

proof fn lemma_posts_ignore_labels(
    call: Call,
    e: EnvView,
    pledge: Option<SmeCollateralCommitment>,
    registry: Option<Address>,
)
    requires
        !writes_labels(call),
        call.refusal(e) is None,
    ensures
        relabels(call.post(e), call.post(relabelled(e, pledge, registry)), pledge, registry),
{
    let other = relabelled(e, pledge, registry);
    match call {
        Call::Init(_) => {},
        Call::RecordCollateral(_, _) => {},
        Call::ClearCollateral => {},
        Call::RebindRegistry(_) => {},
        Call::Fund(investor, amount, kind) => {
            lemma_deposits_relabel(e, other, pledge, registry, investor, amount, kind);
        },
        Call::FundBatch(entries) => {
            lemma_batch_relabels(e, pledge, registry, entries, entries.len());
            reveal(relabels);
        },
        Call::PartialSettle(_) | Call::Settle | Call::Withdraw | Call::CancelFunding => {
            lemma_phases_relabel(e, other, pledge, registry, 0);
        },
        Call::UpdateTarget(new_target) => {
            lemma_phases_relabel(e, other, pledge, registry, new_target);
        },
        Call::Claim(investor) => {
            lemma_payments_relabel(e, other, pledge, registry, investor, 0);
        },
        Call::Refund(investor) => {
            lemma_payments_relabel(e, other, pledge, registry, investor, 0);
        },
        Call::Sweep(amount) => {
            lemma_payments_relabel(e, other, pledge, registry, e.contract, amount);
        },
        Call::SetAllowlistActive(active) => {
            lemma_switches_relabel(e, other, pledge, registry, active);
        },
        Call::SetPaused(active) => {
            lemma_switches_relabel(e, other, pledge, registry, active);
        },
        Call::SetLegalHold(active) => {
            lemma_switches_relabel(e, other, pledge, registry, active);
        },
        Call::RequestClear | Call::ClearAfterDelay | Call::CancelClear => {
            lemma_switches_relabel(e, other, pledge, registry, false);
        },
        Call::SetAllowlisted(investor, allowed) => {
            lemma_roles_relabel(e, other, pledge, registry, investor, allowed, None);
        },
        Call::SetAllowlistedBatch(investors, allowed) => {
            lemma_admissions_relabel(
                e,
                pledge,
                registry,
                investors,
                allowed,
                investors.len(),
            );
            reveal(relabels);
        },
        Call::BindPrimary(digest) => {
            lemma_attestations_relabel(e, other, pledge, registry, 0, digest);
        },
        Call::AppendDigest(digest) => {
            lemma_attestations_relabel(e, other, pledge, registry, 0, digest);
        },
        Call::Revoke(index) => {
            lemma_attestations_relabel(e, other, pledge, registry, index, arbitrary());
        },
        Call::Unrevoke(index) => {
            lemma_attestations_relabel(e, other, pledge, registry, index, arbitrary());
        },
        Call::RevokeBatch(indices) => {
            lemma_revocations_relabel(e, pledge, registry, indices, indices.len());
            reveal(relabels);
        },
        Call::ProposeAdmin(new_admin, window) => {
            lemma_roles_relabel(e, other, pledge, registry, new_admin, false, window);
        },
        Call::TransferAdmin(new_admin) => {
            lemma_roles_relabel(e, other, pledge, registry, new_admin, false, None);
        },
        Call::AcceptAdmin | Call::CancelPendingAdmin => {
            lemma_roles_relabel(e, other, pledge, registry, e.contract, false, None);
        },
        Call::RotateBeneficiary(new_sme) => {
            lemma_roles_relabel(e, other, pledge, registry, new_sme, false, None);
        },
        Call::Migrate(_) => {},
        Call::Upgrade(new_wasm_hash) => {
            lemma_times_relabel(e, other, pledge, registry, 0, new_wasm_hash);
        },
        Call::LowerCap(new_cap) => {
            lemma_limits_relabel(e, other, pledge, registry, new_cap, 0);
        },
        Call::RaiseCap(new_cap) => {
            lemma_limits_relabel(e, other, pledge, registry, new_cap, 0);
        },
        Call::LowerFloor(new_floor) => {
            lemma_limits_relabel(e, other, pledge, registry, 0, new_floor);
        },
        Call::RaisePerInvestor(new_cap) => {
            lemma_limits_relabel(e, other, pledge, registry, 0, new_cap);
        },
        Call::UpdateMaturity(new_maturity) => {
            lemma_times_relabel(e, other, pledge, registry, new_maturity, arbitrary());
        },
        Call::UpdateHorizon(new_horizon) => {
            lemma_times_relabel(e, other, pledge, registry, new_horizon, arbitrary());
        },
        Call::RaiseHorizon(new_horizon) => {
            lemma_times_relabel(e, other, pledge, registry, new_horizon, arbitrary());
        },
        Call::BumpTtl(_) => {
            reveal(relabels);
        },
    }
}

/// No rule looks at the collateral record or at the registry hint: whatever they are, every other
/// call is accepted or refused alike, and leaves the same behind.
pub proof fn lemma_labels_decide_nothing(
    call: Call,
    e: EnvView,
    pledge: Option<SmeCollateralCommitment>,
    registry: Option<Address>,
)
    requires
        !writes_labels(call),
    ensures
        call.refusal(relabelled(e, pledge, registry)) == call.refusal(e),
        call.after(relabelled(e, pledge, registry)) == relabelled(call.after(e), pledge, registry),
{
    lemma_refusals_ignore_labels(call, e, pledge, registry);
    if call.refusal(e) is None {
        lemma_posts_ignore_labels(call, e, pledge, registry);
        reveal(relabels);
    }
}

} // verus!
