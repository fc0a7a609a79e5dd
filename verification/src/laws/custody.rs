//! The contract holds what it owes.
use crate::admin::{
    accept_admin_post, cancel_pending_post, propose_admin_post, rebind_registry_post, rotate_post,
    transfer_admin_post, upgrade_post,
};
use crate::allowlist::{set_allowlist_active_post, set_allowlisted_in_turn, set_allowlisted_post};
use crate::attestation::{
    append_post, bind_primary_post, revoke_batch_post, revoke_batch_refusal, revoke_post,
    revoked_in_turn, unrevoke_post,
};
use crate::book::{lemma_part_of_total, lemma_total_not_negative, total};
use crate::calls::Call;
use crate::collateral::{clear_collateral_post, record_collateral_post};
use crate::env::{lookup, refused, Effect, EnvView, StorageView};
use crate::errors::EscrowError;
use crate::funding::{
    deposit_refusal, fund_batch_post, fund_batch_refusal, fund_post, fund_refusal, funded_in_turn,
    DepositKind,
};
use crate::hold::{cancel_clear_post, request_clear_post, set_legal_hold_post, set_paused_post};
use crate::init::{init_post, init_refusal, InitTerms};
use crate::laws::lifecycle::{
    lemma_admissions_frame, lemma_deposits_frame, lemma_nothing_before_set_up,
    lemma_revocations_frame,
};
use crate::lifetime::{bump_ttl_post, extend_instance, extend_investors};
use crate::limits::{
    lower_cap_post, lower_floor_post, raise_cap_post, raise_horizon_post, raise_per_investor_post,
    update_horizon_post, update_maturity_post, update_target_post, update_target_refusal,
};
use crate::settlement::{
    cancel_funding_post, cancel_funding_refusal, claim_post, claim_refusal, outstanding,
    partial_settle_post, partial_settle_refusal, payment, refund_post, refund_refusal, settle_post,
    sweep_post, sweep_refusal, swept, withdraw_post, withdraw_refusal,
};
use crate::types::{MAX_DUST_SWEEP_AMOUNT, STATUS_CANCELLED, STATUS_SETTLED, STATUS_WITHDRAWN};
use crate::validity::valid;
use crate::values::{Address, Digest, Sym};
use vstd::prelude::*;

verus! {

/// What an effect adds to the token balance of `contract`.
pub open spec fn flow(contract: Address, effect: Effect) -> int {
    match effect {
        Effect::Transfer(transfer) => {
            let received = if transfer.to == contract {
                transfer.amount as int
            } else {
                0
            };
            let spent = if transfer.from == contract {
                transfer.amount as int
            } else {
                0
            };
            received - spent
        },
        _ => 0,
    }
}

/// What a list of effects adds to the token balance of `contract`.
pub open spec fn net(contract: Address, effects: Seq<Effect>) -> int
    decreases effects.len(),
{
    if effects.len() == 0 {
        0
    } else {
        net(contract, effects.drop_last()) + flow(contract, effects.last())
    }
}

/// The contract's token balance once the effects of a call that led from `e` to `after` are done.
pub open spec fn balance_after(e: EnvView, after: EnvView) -> int {
    e.contract_balance + net(e.contract, after.effects) - net(e.contract, e.effects)
}

/// Whether `balance` covers the principal that is still owed. Once the escrow is settled, payouts
/// come out of what has been paid in elsewhere, and only a negative balance is ruled out.
pub open spec fn covered(s: StorageView, balance: int) -> bool {
    &&& balance >= 0
    &&& s.escrow is Some && s.escrow->0.status != STATUS_SETTLED ==> balance >= outstanding(s)
}

/// Whether a call that led from `e` to `after` leaves the principal covered.
#[verifier::opaque]
pub open spec fn secured(e: EnvView, after: EnvView) -> bool {
    covered(after.storage, balance_after(e, after))
}

/// One more effect adds its flow.
pub proof fn lemma_net_push(contract: Address, effects: Seq<Effect>, effect: Effect)
    ensures
        net(contract, effects.push(effect)) == net(contract, effects) + flow(contract, effect),
{
    assert(effects.push(effect).drop_last() =~= effects);
}

/// Whether as much is owed in `s` as in `old_s`, or less is promised because the escrow is settled.
spec fn owes_no_more(old_s: StorageView, s: StorageView) -> bool {
    s.escrow is Some && s.escrow->0.status != STATUS_SETTLED ==> {
        &&& old_s.escrow is Some
        &&& old_s.escrow->0.status != STATUS_SETTLED
        &&& outstanding(s) <= outstanding(old_s)
    }
}

/// A call that only publishes leaves the principal covered.
proof fn lemma_publishing_secures(e: EnvView, after: EnvView)
    requires
        covered(e.storage, e.contract_balance as int),
        owes_no_more(e.storage, after.storage),
        after.effects == e.effects.push(after.effects.last()),
        after.effects.last() is Publish,
    ensures
        secured(e, after),
{
    reveal(secured);
    lemma_net_push(e.contract, e.effects, after.effects.last());
}

proof fn lemma_switches_secure(e: EnvView, active: bool)
    requires
        e.storage.escrow is Some,
        covered(e.storage, e.contract_balance as int),
    ensures
        secured(e, set_allowlist_active_post(e, active)),
        secured(e, set_paused_post(e, active)),
        secured(e, set_legal_hold_post(e, active)),
        secured(e, request_clear_post(e)),
        secured(e, cancel_clear_post(e)),
{
    lemma_publishing_secures(e, set_allowlist_active_post(e, active));
    lemma_publishing_secures(e, set_paused_post(e, active));
    lemma_publishing_secures(e, set_legal_hold_post(e, active));
    lemma_publishing_secures(e, request_clear_post(e));
    lemma_publishing_secures(e, cancel_clear_post(e));
}

proof fn lemma_attestations_secure(e: EnvView, index: u32, digest: Digest)
    requires
        e.storage.escrow is Some,
        covered(e.storage, e.contract_balance as int),
    ensures
        secured(e, bind_primary_post(e, digest)),
        secured(e, append_post(e, digest)),
        secured(e, revoke_post(e, index)),
        secured(e, unrevoke_post(e, index)),
{
    lemma_publishing_secures(e, bind_primary_post(e, digest));
    lemma_publishing_secures(e, append_post(e, digest));
    lemma_publishing_secures(e, revoke_post(e, index));
    lemma_publishing_secures(e, unrevoke_post(e, index));
}

proof fn lemma_records_secure(e: EnvView, asset: Sym, amount: i128, registry: Option<Address>)
    requires
        e.storage.escrow is Some,
        covered(e.storage, e.contract_balance as int),
    ensures
        secured(e, record_collateral_post(e, asset, amount)),
        secured(e, clear_collateral_post(e)),
        secured(e, rebind_registry_post(e, registry)),
{
    lemma_publishing_secures(e, record_collateral_post(e, asset, amount));
    lemma_publishing_secures(e, clear_collateral_post(e));
    lemma_publishing_secures(e, rebind_registry_post(e, registry));
}

proof fn lemma_roles_secure(e: EnvView, who: Address, allowed: bool, window: Option<u64>)
    requires
        e.storage.escrow is Some,
        covered(e.storage, e.contract_balance as int),
    ensures
        secured(e, set_allowlisted_post(e, who, allowed)),
        secured(e, propose_admin_post(e, who, window)),
        secured(e, accept_admin_post(e)),
        secured(e, cancel_pending_post(e)),
        secured(e, rotate_post(e, who)),
{
    lemma_publishing_secures(e, set_allowlisted_post(e, who, allowed));
    lemma_publishing_secures(e, propose_admin_post(e, who, window));
    lemma_publishing_secures(e, accept_admin_post(e));
    lemma_publishing_secures(e, cancel_pending_post(e));
    lemma_publishing_secures(e, rotate_post(e, who));
}

proof fn lemma_limits_secure(e: EnvView, cap: u32, amount: i128)
    requires
        e.storage.escrow is Some,
        covered(e.storage, e.contract_balance as int),
    ensures
        secured(e, lower_cap_post(e, cap)),
        secured(e, raise_cap_post(e, cap)),
        secured(e, lower_floor_post(e, amount)),
        secured(e, raise_per_investor_post(e, amount)),
{
    lemma_publishing_secures(e, lower_cap_post(e, cap));
    lemma_publishing_secures(e, raise_cap_post(e, cap));
    lemma_publishing_secures(e, lower_floor_post(e, amount));
    lemma_publishing_secures(e, raise_per_investor_post(e, amount));
}

proof fn lemma_times_secure(e: EnvView, time: u64)
    requires
        e.storage.escrow is Some,
        covered(e.storage, e.contract_balance as int),
    ensures
        secured(e, update_maturity_post(e, time)),
        secured(e, update_horizon_post(e, time)),
        secured(e, raise_horizon_post(e, time)),
{
    lemma_publishing_secures(e, update_maturity_post(e, time));
    lemma_publishing_secures(e, update_horizon_post(e, time));
    lemma_publishing_secures(e, raise_horizon_post(e, time));
}

proof fn lemma_phases_secure(e: EnvView, caller: Address, new_target: i128)
    requires
        valid(e.storage),
        e.storage.escrow is Some,
        covered(e.storage, e.contract_balance as int),
    ensures
        partial_settle_refusal(e, caller) is None ==> secured(e, partial_settle_post(e)),
        secured(e, settle_post(e)),
        cancel_funding_refusal(e) is None ==> secured(e, cancel_funding_post(e)),
        update_target_refusal(e, new_target) is None ==> secured(
            e,
            update_target_post(e, new_target),
        ),
{
    if partial_settle_refusal(e, caller) is None {
        lemma_publishing_secures(e, partial_settle_post(e));
    }
    lemma_publishing_secures(e, settle_post(e));
    if cancel_funding_refusal(e) is None {
        lemma_publishing_secures(e, cancel_funding_post(e));
    }
    if update_target_refusal(e, new_target) is None {
        lemma_publishing_secures(e, update_target_post(e, new_target));
    }
}

proof fn lemma_init_secures(e: EnvView, terms: InitTerms)
    requires
        valid(e.storage),
        covered(e.storage, e.contract_balance as int),
        init_refusal(e, terms) is None,
    ensures
        secured(e, init_post(e, terms)),
{
    reveal(valid);
    reveal(secured);
    let after = init_post(e, terms);
    assert(after.effects == e.effects.push(after.effects.last()));
    lemma_net_push(e.contract, e.effects, after.effects.last());
}

proof fn lemma_announcements_secure(e: EnvView, new_admin: Address, new_wasm_hash: Digest)
    requires
        e.storage.escrow is Some,
        covered(e.storage, e.contract_balance as int),
    ensures
        secured(e, transfer_admin_post(e, new_admin)),
        secured(e, upgrade_post(e, new_wasm_hash)),
        secured(e, e),
{
    reveal(secured);
    let proposed = propose_admin_post(e, new_admin, None);
    let twice = transfer_admin_post(e, new_admin);
    lemma_net_push(e.contract, e.effects, proposed.effects.last());
    assert(proposed.effects == e.effects.push(proposed.effects.last()));
    lemma_net_push(e.contract, proposed.effects, twice.effects.last());
    assert(twice.effects == proposed.effects.push(twice.effects.last()));
    let upgraded = upgrade_post(e, new_wasm_hash);
    let announced = upgraded.effects.drop_last();
    assert(announced =~= e.effects.push(announced.last()));
    lemma_net_push(e.contract, e.effects, announced.last());
    lemma_net_push(e.contract, announced, upgraded.effects.last());
    assert(upgraded.effects =~= announced.push(upgraded.effects.last()));
}

/// What a deposit does to the balance and to what is owed.
proof fn lemma_fund_moves(
    e: EnvView,
    investor: Address,
    amount: i128,
    kind: DepositKind,
    gated: bool,
)
    requires
        e.storage.escrow is Some,
        deposit_refusal(e, investor, amount, kind, gated) is None,
        e.storage.escrow->0.status != STATUS_SETTLED,
        !e.has_auth(e.contract),
    ensures
        ({
            let after = fund_post(e, investor, amount, kind);
            &&& net(e.contract, after.effects) == net(e.contract, e.effects) + amount
            &&& after.storage.escrow is Some
            &&& after.storage.escrow->0.funded_amount == e.storage.escrow->0.funded_amount + amount
            &&& after.storage.distributed() == e.storage.distributed()
            &&& after.storage.escrow->0.status != STATUS_SETTLED
        }),
{
    let after = fund_post(e, investor, amount, kind);
    let moved = after.effects.drop_last();
    assert(moved =~= e.effects.push(moved.last()));
    lemma_net_push(e.contract, e.effects, moved.last());
    lemma_net_push(e.contract, moved, after.effects.last());
    assert(after.effects =~= moved.push(after.effects.last()));
}

proof fn lemma_batch_moves(e: EnvView, entries: Seq<(Address, i128)>, n: nat)
    requires
        n <= entries.len(),
        e.storage.escrow is Some,
        funded_in_turn(e, entries, n) is Ok,
        !e.has_auth(e.contract),
    ensures
        ({
            let after = funded_in_turn(e, entries, n)->Ok_0;
            let s = after.storage;
            &&& s.escrow is Some
            &&& net(e.contract, after.effects) - net(e.contract, e.effects)
                == s.escrow->0.funded_amount - e.storage.escrow->0.funded_amount
            &&& net(e.contract, after.effects) >= net(e.contract, e.effects)
            &&& s.distributed() == e.storage.distributed()
            &&& n > 0 ==> s.escrow->0.status != STATUS_SETTLED
            &&& s.escrow->0.status == STATUS_SETTLED ==> e.storage.escrow->0.status
                == STATUS_SETTLED
        }),
    decreases n,
{
    if n > 0 {
        lemma_batch_moves(e, entries, (n - 1) as nat);
        lemma_deposits_frame(e, entries, (n - 1) as nat);
        let before = funded_in_turn(e, entries, (n - 1) as nat)->Ok_0;
        lemma_fund_moves(
            before,
            entries[n - 1].0,
            entries[n - 1].1,
            DepositKind::Simple,
            n == 1,
        );
    }
}

proof fn lemma_deposits_secure(
    e: EnvView,
    investor: Address,
    amount: i128,
    kind: DepositKind,
    entries: Seq<(Address, i128)>,
)
    requires
        valid(e.storage),
        e.storage.escrow is Some,
        covered(e.storage, e.contract_balance as int),
        !e.has_auth(e.contract),
    ensures
        fund_refusal(e, investor, amount, kind) is None ==> secured(
            e,
            fund_post(e, investor, amount, kind),
        ),
        fund_batch_refusal(e, entries) is None ==> secured(e, fund_batch_post(e, entries)),
{
    reveal(valid);
    reveal(secured);
    if fund_refusal(e, investor, amount, kind) is None {
        lemma_fund_moves(e, investor, amount, kind, true);
    }
    if fund_batch_refusal(e, entries) is None {
        lemma_batch_moves(e, entries, entries.len());
        lemma_deposits_frame(e, entries, entries.len());
    }
}

/// A payment out of the contract to somebody who authorized the call takes its amount out of the
/// balance.
proof fn lemma_payment_moves(e: EnvView, after: EnvView, to: Address, amount: i128)
    requires
        after.effects.len() == e.effects.len() + 2,
        after.effects.drop_last().drop_last() == e.effects,
        after.effects.drop_last().last() == payment(e, to, amount),
        after.effects.last() is Publish,
        to != e.contract,
    ensures
        net(e.contract, after.effects) == net(e.contract, e.effects) - amount,
{
    let moved = after.effects.drop_last();
    assert(moved =~= e.effects.push(moved.last()));
    lemma_net_push(e.contract, e.effects, moved.last());
    lemma_net_push(e.contract, moved, after.effects.last());
    assert(after.effects =~= moved.push(after.effects.last()));
}

proof fn lemma_withdraw_secures(e: EnvView)
    requires
        valid(e.storage),
        covered(e.storage, e.contract_balance as int),
        withdraw_refusal(e) is None,
        !e.has_auth(e.contract),
    ensures
        secured(e, withdraw_post(e)),
{
    reveal(valid);
    reveal(secured);
    let after = withdraw_post(e);
    let escrow = e.storage.escrow->0;
    assert(after.effects.drop_last().drop_last() =~= e.effects);
    lemma_payment_moves(e, after, escrow.sme_address, escrow.funded_amount);
}

proof fn lemma_claim_secures(e: EnvView, investor: Address)
    requires
        valid(e.storage),
        covered(e.storage, e.contract_balance as int),
        claim_refusal(e, investor) is None,
        !e.has_auth(e.contract),
    ensures
        secured(e, claim_post(e, investor)),
{
    reveal(secured);
    let after = claim_post(e, investor);
    if !e.storage.claimed(investor) {
        let amount = crate::settlement::investor_payout(e.storage, investor)->Ok_0;
        assert(after.effects.drop_last().drop_last() =~= e.effects);
        lemma_payment_moves(e, after, investor, amount);
    }
}

/// In a cancelled escrow, what is outstanding is what the investors have not taken back.
pub proof fn lemma_outstanding_is_unrefunded(s: StorageView)
    requires
        valid(s),
        s.escrow is Some,
        s.escrow->0.status == STATUS_CANCELLED,
    ensures
        outstanding(s) == total(s.investor_contribution, s.investor_index),
{
    reveal(valid);
    assert forall|i: int| 0 <= i < s.investor_index.len() implies lookup(
        s.investor_contribution,
        #[trigger] s.investor_index[i],
        0,
    ) >= 0 by {
        assert(s.investor_index.contains(s.investor_index[i]));
        assert(s.investor_contribution.contains_key(s.investor_index[i]));
    }
    lemma_total_not_negative(s.investor_contribution, s.investor_index);
}

proof fn lemma_contribution_within_total(s: StorageView, investor: Address)
    requires
        valid(s),
        s.escrow is Some,
        s.contribution(investor) > 0,
    ensures
        s.contribution(investor) <= total(s.investor_contribution, s.investor_index),
{
    reveal(valid);
    assert(s.investor_contribution.contains_key(investor));
    assert forall|i: int| 0 <= i < s.investor_index.len() implies lookup(
        s.investor_contribution,
        #[trigger] s.investor_index[i],
        0,
    ) >= 0 by {
        assert(s.investor_index.contains(s.investor_index[i]));
        assert(s.investor_contribution.contains_key(s.investor_index[i]));
    }
    lemma_part_of_total(s.investor_contribution, s.investor_index, investor);
}

proof fn lemma_refund_secures(e: EnvView, investor: Address)
    requires
        valid(e.storage),
        covered(e.storage, e.contract_balance as int),
        refund_refusal(e, investor) is None,
        !e.has_auth(e.contract),
    ensures
        secured(e, refund_post(e, investor)),
{
    reveal(secured);
    let after = refund_post(e, investor);
    let amount = e.storage.contribution(investor);
    lemma_outstanding_is_unrefunded(e.storage);
    lemma_contribution_within_total(e.storage, investor);
    assert(e.storage.distributed() >= 0 && e.storage.escrow->0.funded_amount
        >= e.storage.distributed()) by {
        reveal(valid);
    }
    assert(after.effects.drop_last().drop_last() =~= e.effects);
    lemma_payment_moves(e, after, investor, amount);
}

proof fn lemma_sweep_secures(e: EnvView, amount: i128)
    requires
        valid(e.storage),
        covered(e.storage, e.contract_balance as int),
        sweep_refusal(e, amount) is None,
        !e.has_auth(e.contract),
    ensures
        secured(e, sweep_post(e, amount)),
{
    reveal(valid);
    reveal(secured);
    let after = sweep_post(e, amount);
    assert(after.effects.drop_last().drop_last() =~= e.effects);
    lemma_payment_moves(e, after, e.storage.treasury->0, swept(e, amount));
}

proof fn lemma_admissions_move_nothing(
    e: EnvView,
    investors: Seq<Address>,
    allowed: bool,
    n: nat,
)
    requires
        n <= investors.len(),
    ensures
        net(e.contract, set_allowlisted_in_turn(e, investors, allowed, n).effects) == net(
            e.contract,
            e.effects,
        ),
    decreases n,
{
    if n > 0 {
        lemma_admissions_move_nothing(e, investors, allowed, (n - 1) as nat);
        let before = set_allowlisted_in_turn(e, investors, allowed, (n - 1) as nat);
        let after = set_allowlisted_in_turn(e, investors, allowed, n);
        lemma_net_push(e.contract, before.effects, after.effects.last());
        assert(after.effects == before.effects.push(after.effects.last()));
    }
}

proof fn lemma_revocations_move_nothing(e: EnvView, indices: Seq<u32>, n: nat)
    requires
        n <= indices.len(),
        revoked_in_turn(e, indices, n) is Ok,
    ensures
        net(e.contract, revoked_in_turn(e, indices, n)->Ok_0.effects) == net(
            e.contract,
            e.effects,
        ),
    decreases n,
{
    if n > 0 {
        lemma_revocations_move_nothing(e, indices, (n - 1) as nat);
        let before = revoked_in_turn(e, indices, (n - 1) as nat)->Ok_0;
        let after = revoked_in_turn(e, indices, n)->Ok_0;
        lemma_net_push(e.contract, before.effects, after.effects.last());
        assert(after.effects == before.effects.push(after.effects.last()));
    }
}

/// Effects that move nothing, put last, add nothing.
proof fn lemma_net_of_quiet_tail(contract: Address, effects: Seq<Effect>, tail: Seq<Effect>)
    requires
        forall|i: int| 0 <= i < tail.len() ==> (#[trigger] tail[i]) is ExtendTtl,
    ensures
        net(contract, effects + tail) == net(contract, effects),
    decreases tail.len(),
{
    if tail.len() == 0 {
        assert(effects + tail =~= effects);
    } else {
        let rest = tail.drop_last();
        assert forall|i: int| 0 <= i < rest.len() implies (#[trigger] rest[i]) is ExtendTtl by {
            assert(rest[i] == tail[i]);
        }
        lemma_net_of_quiet_tail(contract, effects, rest);
        assert((effects + tail).drop_last() =~= effects + rest);
        assert((effects + tail).last() == tail[tail.len() - 1]);
    }
}

proof fn lemma_extensions_extend(investors: Seq<Address>, n: nat)
    requires
        n <= investors.len(),
    ensures
        forall|i: int|
            0 <= i < extend_investors(investors, n).len() ==> (#[trigger] extend_investors(
                investors,
                n,
            )[i]) is ExtendTtl,
    decreases n,
{
    if n > 0 {
        lemma_extensions_extend(investors, (n - 1) as nat);
    }
}

proof fn lemma_batches_secure(
    e: EnvView,
    investors: Seq<Address>,
    allowed: bool,
    indices: Seq<u32>,
)
    requires
        e.storage.escrow is Some,
        covered(e.storage, e.contract_balance as int),
    ensures
        secured(e, set_allowlisted_in_turn(e, investors, allowed, investors.len())),
        revoke_batch_refusal(e, indices) is None ==> secured(e, revoke_batch_post(e, indices)),
{
    reveal(secured);
    lemma_admissions_frame(e, investors, allowed, investors.len());
    lemma_admissions_move_nothing(e, investors, allowed, investors.len());
    if revoke_batch_refusal(e, indices) is None {
        lemma_revocations_frame(e, indices, indices.len());
        lemma_revocations_move_nothing(e, indices, indices.len());
    }
}

proof fn lemma_bump_secures(e: EnvView, investors: Seq<Address>)
    requires
        covered(e.storage, e.contract_balance as int),
    ensures
        secured(e, bump_ttl_post(e, investors)),
{
    reveal(secured);
    let extensions = seq![extend_instance()] + extend_investors(investors, investors.len());
    lemma_extensions_extend(investors, investors.len());
    lemma_net_of_quiet_tail(e.contract, e.effects, extensions);
    assert(bump_ttl_post(e, investors).effects =~= e.effects + extensions);
}

proof fn lemma_unchanged_secures(e: EnvView)
    requires
        covered(e.storage, e.contract_balance as int),
    ensures
        secured(e, e),
{
    reveal(secured);
}

proof fn lemma_every_call_secures(call: Call, e: EnvView)
    requires
        valid(e.storage),
        !e.has_auth(e.contract),
        covered(e.storage, e.contract_balance as int),
    ensures
        secured(e, call.after(e)),
{
    if call.refusal(e) is Some {
        lemma_unchanged_secures(e);
    } else {
        lemma_nothing_before_set_up(call, e);
        match call {
            Call::Init(terms) => {
                lemma_init_secures(e, terms);
            },
            Call::Fund(investor, amount, kind) => {
                lemma_deposits_secure(e, investor, amount, kind, Seq::empty());
            },
            Call::FundBatch(entries) => {
                lemma_deposits_secure(e, e.contract, 0, DepositKind::Simple, entries);
            },
            Call::PartialSettle(caller) => {
                lemma_phases_secure(e, caller, 0);
            },
            Call::Settle => {
                lemma_phases_secure(e, e.contract, 0);
            },
            Call::Withdraw => {
                lemma_withdraw_secures(e);
            },
            Call::Claim(investor) => {
                lemma_claim_secures(e, investor);
            },
            Call::CancelFunding => {
                lemma_phases_secure(e, e.contract, 0);
            },
            Call::Refund(investor) => {
                lemma_refund_secures(e, investor);
            },
            Call::Sweep(amount) => {
                lemma_sweep_secures(e, amount);
            },
            Call::SetAllowlistActive(active) => {
                lemma_switches_secure(e, active);
            },
            Call::SetAllowlisted(investor, allowed) => {
                lemma_roles_secure(e, investor, allowed, None);
            },
            Call::SetAllowlistedBatch(investors, allowed) => {
                lemma_batches_secure(e, investors, allowed, Seq::empty());
            },
            Call::BindPrimary(digest) => {
                lemma_attestations_secure(e, 0, digest);
            },
            Call::AppendDigest(digest) => {
                lemma_attestations_secure(e, 0, digest);
            },
            Call::Revoke(index) => {
                lemma_attestations_secure(e, index, arbitrary());
            },
            Call::RevokeBatch(indices) => {
                lemma_batches_secure(e, Seq::empty(), false, indices);
            },
            Call::Unrevoke(index) => {
                lemma_attestations_secure(e, index, arbitrary());
            },
            Call::RecordCollateral(asset, amount) => {
                lemma_records_secure(e, asset, amount, None);
            },
            Call::ClearCollateral => {
                lemma_records_secure(e, arbitrary(), 0, None);
            },
            Call::SetPaused(active) => {
                lemma_switches_secure(e, active);
            },
            Call::SetLegalHold(active) => {
                lemma_switches_secure(e, active);
            },
            Call::RequestClear => {
                lemma_switches_secure(e, false);
            },
            Call::ClearAfterDelay => {
                lemma_switches_secure(e, false);
            },
            Call::CancelClear => {
                lemma_switches_secure(e, false);
            },
            Call::ProposeAdmin(new_admin, window) => {
                lemma_roles_secure(e, new_admin, false, window);
            },
            Call::AcceptAdmin => {
                lemma_roles_secure(e, e.contract, false, None);
            },
            Call::TransferAdmin(new_admin) => {
                lemma_announcements_secure(e, new_admin, arbitrary());
            },
            Call::CancelPendingAdmin => {
                lemma_roles_secure(e, e.contract, false, None);
            },
            Call::RotateBeneficiary(new_sme) => {
                lemma_roles_secure(e, new_sme, false, None);
            },
            Call::RebindRegistry(registry) => {
                lemma_records_secure(e, arbitrary(), 0, registry);
            },
            Call::Migrate(_) => {
                lemma_unchanged_secures(e);
            },
            Call::Upgrade(new_wasm_hash) => {
                lemma_announcements_secure(e, e.contract, new_wasm_hash);
            },
            Call::UpdateTarget(new_target) => {
                lemma_phases_secure(e, e.contract, new_target);
            },
            Call::LowerCap(new_cap) => {
                lemma_limits_secure(e, new_cap, 0);
            },
            Call::RaiseCap(new_cap) => {
                lemma_limits_secure(e, new_cap, 0);
            },
            Call::LowerFloor(new_floor) => {
                lemma_limits_secure(e, 0, new_floor);
            },
            Call::RaisePerInvestor(new_cap) => {
                lemma_limits_secure(e, 0, new_cap);
            },
            Call::UpdateMaturity(new_maturity) => {
                lemma_times_secure(e, new_maturity);
            },
            Call::UpdateHorizon(new_horizon) => {
                lemma_times_secure(e, new_horizon);
            },
            Call::RaiseHorizon(new_horizon) => {
                lemma_times_secure(e, new_horizon);
            },
            Call::BumpTtl(investors) => {
                lemma_bump_secures(e, investors);
            },
        }
    }
}

/// No call leaves the contract with less than the principal that it still owes, once its transfers
/// are done: if the balance covered the principal before, it does so after. (The contract itself is
/// nobody's account: it authorizes nothing.)
pub proof fn lemma_principal_stays_covered(call: Call, e: EnvView)
    requires
        valid(e.storage),
        !e.has_auth(e.contract),
        covered(e.storage, e.contract_balance as int),
    ensures
        covered(call.after(e).storage, balance_after(e, call.after(e))),
{
    lemma_every_call_secures(call, e);
    reveal(secured);
}

/// A sweep of a cancelled escrow leaves every refund that is still to come.
pub proof fn lemma_sweep_leaves_refunds(e: EnvView, amount: i128)
    requires
        valid(e.storage),
        e.storage.escrow is Some,
        e.storage.escrow->0.status == STATUS_CANCELLED,
        sweep_refusal(e, amount) is None,
    ensures
        e.contract_balance - swept(e, amount) >= total(
            e.storage.investor_contribution,
            e.storage.investor_index,
        ),
{
    lemma_outstanding_is_unrefunded(e.storage);
}

/// A sweep takes no more than the most that one call may move, only out of a finished escrow that
/// is not on hold, and only to the treasury.
pub proof fn lemma_sweep_is_bounded(e: EnvView, amount: i128)
    requires
        sweep_refusal(e, amount) is None,
    ensures
        0 < swept(e, amount) <= MAX_DUST_SWEEP_AMOUNT,
        swept(e, amount) <= e.contract_balance,
        !e.storage.hold_active(),
        e.storage.escrow->0.status == STATUS_SETTLED || e.storage.escrow->0.status
            == STATUS_WITHDRAWN || e.storage.escrow->0.status == STATUS_CANCELLED,
        sweep_post(e, amount).effects.drop_last() == e.effects.push(
            payment(e, e.storage.treasury->0, swept(e, amount)),
        ),
        sweep_post(e, amount).storage == e.storage,
{
    assert(sweep_post(e, amount).effects.drop_last() =~= e.effects.push(
        payment(e, e.storage.treasury->0, swept(e, amount)),
    ));
}

/// Whoever contributed to a cancelled escrow whose principal is covered gets exactly that back on
/// the first call, and is refused on the second.
pub proof fn lemma_refund_is_paid_once(e: EnvView, investor: Address)
    requires
        valid(e.storage),
        e.storage.escrow is Some,
        e.storage.escrow->0.status == STATUS_CANCELLED,
        covered(e.storage, e.contract_balance as int),
        e.storage.contribution(investor) > 0,
        e.has_auth(investor),
    ensures
        refund_refusal(e, investor) is None,
        refund_post(e, investor).effects.drop_last() == e.effects.push(
            payment(e, investor, e.storage.contribution(investor)),
        ),
        refund_post(e, investor).storage.refunded(investor),
        refund_refusal(refund_post(e, investor), investor) == refused(
            EscrowError::NoContributionToRefund,
        ),
{
    lemma_outstanding_is_unrefunded(e.storage);
    lemma_contribution_within_total(e.storage, investor);
    assert(e.storage.funding_token is Some) by {
        reveal(valid);
    }
    assert(refund_post(e, investor).effects.drop_last() =~= e.effects.push(
        payment(e, investor, e.storage.contribution(investor)),
    ));
}

} // verus!
