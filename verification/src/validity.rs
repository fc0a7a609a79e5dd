//! What holds of the storage in every state: the invariant of the contract, and the proof that
//! every call keeps it.
use crate::admin::{
    accept_admin_post, accept_admin_refusal, cancel_pending_post, cancel_pending_refusal,
    propose_admin_post, propose_admin_refusal, rebind_registry_post, rotate_post, rotate_refusal,
};
use crate::allowlist::{set_allowlist_active_post, set_allowlisted_in_turn, set_allowlisted_post};
use crate::attestation::{
    append_post, append_refusal, bind_primary_post, revoke_batch_post, revoke_batch_refusal,
    revoke_post, revoke_refusal, revoked_in_turn, unrevoke_post, unrevoke_refusal,
};
use crate::book::{lemma_part_of_total, lemma_total_of_changed, lemma_total_with_new, total};
use crate::calls::Call;
use crate::collateral::{clear_collateral_post, record_collateral_post};
use crate::env::{empty_storage, lookup, EnvView, LedgerInfo, StorageView};
use crate::funding::{
    deposit_refusal, entries_count, first_terms, fund_post, funded_in_turn, funder_count_fits,
    lemma_batch_counts_in_turn, DepositKind,
};
use crate::hold::{cancel_clear_post, request_clear_post, set_legal_hold_post, set_paused_post};
use crate::init::{init_post, init_refusal, InitTerms};
use crate::laws::lifecycle::lemma_nothing_before_set_up;
use crate::limits::{
    lower_cap_post, lower_cap_refusal, lower_floor_post, lower_floor_refusal, raise_cap_post,
    raise_cap_refusal, raise_horizon_post, raise_per_investor_post, raise_per_investor_refusal,
    update_horizon_post, update_maturity_post, update_maturity_refusal, update_target_post,
    update_target_refusal,
};
use crate::settlement::{
    cancel_funding_post, cancel_funding_refusal, claim_post, claim_refusal, partial_settle_post,
    partial_settle_refusal, refund_post, refund_refusal, settle_post, settle_refusal, withdraw_post,
    withdraw_refusal,
};
use crate::tiers::{best_tier, first_tier_fault, tier_fault, tier_table_fault};
use crate::types::{
    FundingCloseSnapshot, InvoiceEscrow, YieldTier, MAX_ATTESTATION_APPEND_ENTRIES,
    MAX_INVOICE_AMOUNT, MAX_YIELD_BPS, SCHEMA_VERSION, STATUS_CANCELLED, STATUS_FUNDED, STATUS_OPEN,
    STATUS_SETTLED, STATUS_WITHDRAWN,
};
use crate::values::{Address, Digest};
use vstd::prelude::*;

verus! {

/// The terms of the escrow are within their bounds, and a pending admin is not the current one.
pub open spec fn valid_terms(s: StorageView, escrow: InvoiceEscrow) -> bool {
    &&& 0 < escrow.amount <= MAX_INVOICE_AMOUNT
    &&& escrow.funding_target > 0
    &&& 0 <= escrow.yield_bps <= MAX_YIELD_BPS
    &&& s.funding_token is Some
    &&& s.treasury is Some
    &&& s.version == Some(SCHEMA_VERSION)
    &&& tier_table_fault(s.yield_tier_table, escrow.yield_bps) is None
    &&& s.min_contribution_floor is Some
    &&& s.floor() >= 0
    &&& s.pending_admin is Some <==> s.pending_admin_expiry is Some
    &&& s.pending_admin != Some(escrow.admin)
}

/// The books balance: the index lists exactly those who have deposited, each once; their
/// contributions add up to the funded amount, less what a cancelled escrow has paid back; no cap
/// is exceeded; and nobody's yield lies below the base yield.
pub open spec fn valid_book(s: StorageView, escrow: InvoiceEscrow) -> bool {
    &&& s.investor_index.no_duplicates()
    &&& forall|a: Address| #[trigger]
        s.investor_contribution.contains_key(a) <==> s.investor_index.contains(a)
    &&& forall|a: Address| #[trigger]
        s.investor_effective_yield.contains_key(a) <==> s.investor_index.contains(a)
    &&& forall|a: Address| #[trigger]
        s.investor_claim_not_before.contains_key(a) <==> s.investor_index.contains(a)
    &&& forall|a: Address| #[trigger]
        s.investor_effective_yield.contains_key(a) ==> escrow.yield_bps
            <= s.investor_effective_yield[a] <= MAX_YIELD_BPS
    &&& forall|a: Address| #[trigger]
        s.investor_contribution.contains_key(a) ==> s.investor_contribution[a] >= 0
    &&& forall|a: Address| #[trigger]
        s.investor_contribution.contains_key(a) && s.investor_contribution[a] == 0 ==> s.refunded(a)
    &&& forall|a: Address| #[trigger]
        s.refunded(a) ==> escrow.status == STATUS_CANCELLED && s.investor_index.contains(a)
            && s.contribution(a) == 0
    &&& forall|a: Address| #[trigger]
        s.claimed(a) ==> escrow.status == STATUS_SETTLED && s.investor_index.contains(a)
    &&& s.funders() == s.investor_index.len()
    &&& s.max_unique_investors_cap matches Some(cap) ==> s.funders() <= cap
    &&& s.max_per_investor_cap matches Some(cap) ==> forall|a: Address| #[trigger]
        s.investor_contribution.contains_key(a) ==> s.investor_contribution[a] <= cap
    &&& escrow.funded_amount == total(s.investor_contribution, s.investor_index) + (
    if escrow.status == STATUS_CANCELLED {
        s.distributed() as int
    } else {
        0
    })
    &&& s.distributed() >= 0
    &&& escrow.status == STATUS_WITHDRAWN ==> s.distributed() == escrow.funded_amount
    &&& escrow.status < STATUS_WITHDRAWN ==> s.distributed() == 0
}

/// The snapshot was taken of `escrow` when its funding closed. The escrow holds more than that only
/// where a batch went on after it had reached the target.
pub open spec fn valid_snapshot(snapshot: FundingCloseSnapshot, escrow: InvoiceEscrow) -> bool {
    &&& snapshot.funding_target == escrow.funding_target
    &&& snapshot.total_principal <= escrow.funded_amount
    &&& snapshot.total_principal < escrow.funded_amount ==> snapshot.total_principal
        >= snapshot.funding_target
}

/// The status is one of the five, and what goes with it is there: the close snapshot from funding
/// on, and the time of settlement once settled. An open escrow has not reached its target.
pub open spec fn valid_phase(s: StorageView, escrow: InvoiceEscrow) -> bool {
    &&& escrow.status <= STATUS_CANCELLED
    &&& s.funding_close_snapshot is Some <==> (escrow.status == STATUS_FUNDED || escrow.status
        == STATUS_SETTLED || escrow.status == STATUS_WITHDRAWN)
    &&& s.funding_close_snapshot matches Some(snapshot) ==> valid_snapshot(snapshot, escrow)
    &&& s.settled_at is Some <==> escrow.status == STATUS_SETTLED
    &&& escrow.status == STATUS_OPEN ==> escrow.funded_amount < escrow.funding_target
}

/// The allowlist index lists exactly the allowlisted, each once.
pub open spec fn valid_allowlist(s: StorageView) -> bool {
    &&& s.allowlist_index.no_duplicates()
    &&& forall|a: Address| #[trigger] s.allowlist_index.contains(a) <==> s.allowlisted(a)
}

/// The attestation log is within its bound, and only entries of it are revoked.
pub open spec fn valid_log(s: StorageView) -> bool {
    &&& s.attestation_append_log.len() <= MAX_ATTESTATION_APPEND_ENTRIES
    &&& forall|i: u32| #[trigger]
        s.attestation_revoked.contains(i) ==> i < s.attestation_append_log.len()
}

/// The invariant of the contract: before initialization nothing is stored; from then on the terms,
/// the books, the phase, the allowlist and the log are in order.
#[verifier::opaque]
pub open spec fn valid(s: StorageView) -> bool {
    match s.escrow {
        None => s == empty_storage(),
        Some(escrow) => {
            &&& valid_terms(s, escrow)
            &&& valid_book(s, escrow)
            &&& valid_phase(s, escrow)
            &&& valid_allowlist(s)
            &&& valid_log(s)
        },
    }
}

/// A new contract's storage is valid.
pub proof fn lemma_empty_storage_is_valid()
    ensures
        valid(empty_storage()),
{
    reveal(valid);
}

/// An offer that the ladder makes lies between the base yield and the most that a yield can be.
pub proof fn lemma_best_tier_in_range(
    tiers: Seq<YieldTier>,
    base_yield: i64,
    lock: u64,
    n: nat,
)
    requires
        n <= tiers.len(),
        first_tier_fault(tiers, base_yield, n) is None,
        base_yield <= MAX_YIELD_BPS,
    ensures
        base_yield <= best_tier(tiers, base_yield, lock, n).0 <= MAX_YIELD_BPS,
    decreases n,
{
    if n > 0 {
        lemma_best_tier_in_range(tiers, base_yield, lock, (n - 1) as nat);
        assert(tier_fault(tiers, n - 1, base_yield) is None);
    }
}

proof fn lemma_first_terms_in_range(e: EnvView, escrow: InvoiceEscrow, kind: DepositKind)
    requires
        valid_terms(e.storage, escrow),
    ensures
        escrow.yield_bps <= first_terms(e, escrow, kind).0 <= MAX_YIELD_BPS,
{
    match (kind, e.storage.yield_tier_table) {
        (DepositKind::Committed(lock), Some(tiers)) => {
            lemma_best_tier_in_range(tiers, escrow.yield_bps, lock, tiers.len());
        },
        _ => {},
    }
}

proof fn lemma_init_keeps_validity(e: EnvView, terms: InitTerms)
    requires
        valid(e.storage),
        init_refusal(e, terms) is None,
    ensures
        valid(init_post(e, terms).storage),
{
    reveal(valid);
    let s = init_post(e, terms).storage;
    assert(e.storage.escrow is None);
    assert(total(s.investor_contribution, s.investor_index) == 0);
}

/// Whether the escrow is open, or was closed because it reached its target.
pub open spec fn open_or_filled(s: StorageView) -> bool {
    ||| s.escrow->0.status == STATUS_OPEN
    ||| {
        &&& s.escrow->0.status == STATUS_FUNDED
        &&& s.funding_close_snapshot matches Some(snapshot)
        &&& snapshot.total_principal >= snapshot.funding_target
    }
}

/// A deposit keeps the storage valid.
pub proof fn lemma_deposit_keeps_validity(
    e: EnvView,
    investor: Address,
    amount: i128,
    kind: DepositKind,
    gated: bool,
)
    requires
        valid(e.storage),
        funder_count_fits(e.storage, investor),
        deposit_refusal(e, investor, amount, kind, gated) is None,
        open_or_filled(e.storage),
    ensures
        valid(fund_post(e, investor, amount, kind).storage),
        open_or_filled(fund_post(e, investor, amount, kind).storage),
{
    reveal(valid);
    let old_s = e.storage;
    let escrow = old_s.escrow->0;
    let s = fund_post(e, investor, amount, kind).storage;
    let prev = old_s.contribution(investor);
    lemma_first_terms_in_range(e, escrow, kind);
    if prev == 0 {
        if old_s.investor_contribution.contains_key(investor) {
            assert(old_s.refunded(investor));
        }
        assert(!old_s.investor_index.contains(investor));
        lemma_total_with_new(
            old_s.investor_contribution,
            old_s.investor_index,
            investor,
            amount,
        );
        assert(s.investor_index == old_s.investor_index.push(investor));
        assert forall|a: Address|
            s.investor_index.contains(a) <==> (old_s.investor_index.contains(a) || a
                == investor) by {
            let pushed = old_s.investor_index.push(investor);
            if old_s.investor_index.contains(a) {
                let i = choose|i: int|
                    0 <= i < old_s.investor_index.len() && old_s.investor_index[i] == a;
                assert(pushed[i] == a);
            }
            assert(pushed[pushed.len() - 1] == investor);
        }
        assert(s.investor_index.no_duplicates()) by {
            assert forall|i: int, j: int|
                0 <= i < s.investor_index.len() && 0 <= j < s.investor_index.len() && i
                    != j implies s.investor_index[i] != s.investor_index[j] by {
                if i < old_s.investor_index.len() {
                    assert(old_s.investor_index.contains(old_s.investor_index[i]));
                }
                if j < old_s.investor_index.len() {
                    assert(old_s.investor_index.contains(old_s.investor_index[j]));
                }
            }
        }
    } else {
        assert(old_s.investor_contribution.contains_key(investor));
        lemma_total_of_changed(
            old_s.investor_contribution,
            old_s.investor_index,
            investor,
            (prev + amount) as i128,
        );
    }
    assert forall|a: Address| #[trigger] s.refunded(a) implies s.escrow->0.status
        == STATUS_CANCELLED && s.investor_index.contains(a) && s.contribution(a) == 0 by {
        assert(old_s.refunded(a));
    }
    assert forall|a: Address| #[trigger] s.claimed(a) implies s.escrow->0.status == STATUS_SETTLED
        && s.investor_index.contains(a) by {
        assert(old_s.claimed(a));
    }
    assert(valid_book(s, s.escrow->0));
    assert(valid_allowlist(s)) by {
        assert forall|a: Address| #[trigger]
            s.allowlist_index.contains(a) <==> s.allowlisted(a) by {
            assert(old_s.allowlist_index.contains(a) <==> old_s.allowlisted(a));
        }
    }
}

proof fn lemma_batch_keeps_validity(e: EnvView, entries: Seq<(Address, i128)>, n: nat)
    requires
        valid(e.storage),
        n <= entries.len(),
        entries_count(e, entries, entries.len()),
        funded_in_turn(e, entries, n) is Ok,
    ensures
        valid(funded_in_turn(e, entries, n)->Ok_0.storage),
        n > 0 ==> open_or_filled(funded_in_turn(e, entries, n)->Ok_0.storage),
    decreases n,
{
    if n > 0 {
        lemma_batch_keeps_validity(e, entries, (n - 1) as nat);
        let before = funded_in_turn(e, entries, (n - 1) as nat)->Ok_0;
        let (investor, amount) = entries[n - 1];
        lemma_deposit_keeps_validity(before, investor, amount, DepositKind::Simple, n == 1);
    }
}

proof fn lemma_refund_keeps_validity(e: EnvView, investor: Address)
    requires
        valid(e.storage),
        refund_refusal(e, investor) is None,
    ensures
        valid(refund_post(e, investor).storage),
{
    reveal(valid);
    let old_s = e.storage;
    let s = refund_post(e, investor).storage;
    let amount = old_s.contribution(investor);
    assert(old_s.investor_contribution.contains_key(investor));
    assert forall|i: int| 0 <= i < old_s.investor_index.len() implies lookup(
        old_s.investor_contribution,
        #[trigger] old_s.investor_index[i],
        0,
    ) >= 0 by {
        assert(old_s.investor_index.contains(old_s.investor_index[i]));
        assert(old_s.investor_contribution.contains_key(old_s.investor_index[i]));
    }
    lemma_part_of_total(old_s.investor_contribution, old_s.investor_index, investor);
    lemma_total_of_changed(old_s.investor_contribution, old_s.investor_index, investor, 0);
    assert forall|a: Address| #[trigger] s.refunded(a) implies s.investor_index.contains(a)
        && s.contribution(a) == 0 by {
        if a != investor {
            assert(old_s.refunded(a));
        }
    }
    assert forall|a: Address| #[trigger]
        s.investor_contribution.contains_key(a) && s.investor_contribution[a]
            == 0 implies s.refunded(a) by {
        if a != investor {
            assert(old_s.investor_contribution.contains_key(a));
            assert(old_s.refunded(a));
        }
    }
    assert forall|a: Address| #[trigger] s.claimed(a) implies s.escrow->0.status == STATUS_SETTLED
        && s.investor_index.contains(a) by {
        assert(old_s.claimed(a));
    }
    assert(valid_book(s, s.escrow->0));
    lemma_allowlist_frame(old_s, s);
}

proof fn lemma_allowlist_frame(old_s: StorageView, s: StorageView)
    requires
        valid_allowlist(old_s),
        s.allowlist_index == old_s.allowlist_index,
        s.investor_allowlisted == old_s.investor_allowlisted,
    ensures
        valid_allowlist(s),
{
    assert forall|a: Address| #[trigger] s.allowlist_index.contains(a) <==> s.allowlisted(a) by {
        assert(old_s.allowlist_index.contains(a) <==> old_s.allowlisted(a));
    }
}

/// Writing the per-investor entries of nobody keeps the books in order, as long as the status does
/// not leave a phase that an entry depends on.
proof fn lemma_book_frame(old_s: StorageView, s: StorageView)
    requires
        old_s.escrow is Some,
        s.escrow is Some,
        valid_book(old_s, old_s.escrow->0),
        s.investor_index == old_s.investor_index,
        s.investor_contribution == old_s.investor_contribution,
        s.investor_effective_yield == old_s.investor_effective_yield,
        s.investor_claim_not_before == old_s.investor_claim_not_before,
        s.investor_refunded == old_s.investor_refunded,
        s.unique_funder_count == old_s.unique_funder_count,
        s.escrow->0.funded_amount == old_s.escrow->0.funded_amount,
        s.escrow->0.yield_bps == old_s.escrow->0.yield_bps,
        s.max_unique_investors_cap matches Some(cap) ==> s.funders() <= cap,
        s.max_per_investor_cap matches Some(cap) ==> old_s.max_per_investor_cap is Some
            && old_s.max_per_investor_cap->0 <= cap,
        old_s.escrow->0.status == STATUS_CANCELLED ==> s.escrow->0.status == STATUS_CANCELLED,
        old_s.escrow->0.status != STATUS_CANCELLED && s.escrow->0.status == STATUS_CANCELLED
            ==> s.distributed() == 0,
        old_s.escrow->0.status == STATUS_CANCELLED ==> s.distributed() == old_s.distributed(),
        s.distributed() >= 0,
        s.escrow->0.status == STATUS_WITHDRAWN ==> s.distributed() == s.escrow->0.funded_amount,
        s.escrow->0.status < STATUS_WITHDRAWN ==> s.distributed() == 0,
        forall|a: Address| #[trigger]
            s.claimed(a) ==> s.escrow->0.status == STATUS_SETTLED && s.investor_index.contains(a),
    ensures
        valid_book(s, s.escrow->0),
{
    assert forall|a: Address| #[trigger] s.refunded(a) implies s.escrow->0.status
        == STATUS_CANCELLED && s.investor_index.contains(a) && s.contribution(a) == 0 by {
        assert(old_s.refunded(a));
    }
    assert forall|a: Address| #[trigger]
        s.investor_contribution.contains_key(a) && s.investor_contribution[a]
            == 0 implies s.refunded(a) by {
        assert(old_s.investor_contribution.contains_key(a));
        assert(old_s.refunded(a));
    }
}

proof fn lemma_removed_value(index: Seq<Address>, value: Address)
    requires
        index.no_duplicates(),
    ensures
        index.remove_value(value).no_duplicates(),
        forall|a: Address| #[trigger]
            index.remove_value(value).contains(a) <==> index.contains(a) && a != value,
{
    index.index_of_first_ensures(value);
    let left = index.remove_value(value);
    match index.index_of_first(value) {
        Some(at) => {
            assert(left == index.remove(at));
            assert forall|a: Address| index.contains(a) && a != value implies #[trigger]
                left.contains(a) by {
                let i = choose|i: int| 0 <= i < index.len() && index[i] == a;
                if i < at {
                    assert(left[i] == a);
                } else {
                    assert(left[i - 1] == a);
                }
            }
            assert forall|a: Address| #[trigger] left.contains(a) implies index.contains(a) && a
                != value by {
                let i = choose|i: int| 0 <= i < left.len() && left[i] == a;
                if i < at {
                    assert(index[i] == a);
                } else {
                    assert(index[i + 1] == a);
                }
            }
        },
        None => {},
    }
}

proof fn lemma_allowlisted_keeps_validity(e: EnvView, investor: Address, allowed: bool)
    requires
        valid(e.storage),
        e.storage.escrow is Some,
    ensures
        valid(set_allowlisted_post(e, investor, allowed).storage),
{
    reveal(valid);
    let old_s = e.storage;
    let s = set_allowlisted_post(e, investor, allowed).storage;
    lemma_removed_value(old_s.allowlist_index, investor);
    assert(old_s.allowlist_index.contains(investor) <==> old_s.allowlisted(investor));
    let pushed = old_s.allowlist_index.push(investor);
    assert forall|a: Address| #[trigger]
        pushed.contains(a) <==> (old_s.allowlist_index.contains(a) || a == investor) by {
        if old_s.allowlist_index.contains(a) {
            let i = choose|i: int|
                0 <= i < old_s.allowlist_index.len() && old_s.allowlist_index[i] == a;
            assert(pushed[i] == a);
        }
        assert(pushed[pushed.len() - 1] == investor);
    }
    assert forall|a: Address| #[trigger] s.allowlist_index.contains(a) <==> s.allowlisted(a) by {
        assert(old_s.allowlist_index.contains(a) <==> old_s.allowlisted(a));
    }
    assert(s.allowlist_index.no_duplicates()) by {
        if allowed && !old_s.allowlisted(investor) {
            assert forall|i: int, j: int|
                0 <= i < pushed.len() && 0 <= j < pushed.len() && i != j implies pushed[i]
                != pushed[j] by {
                if i < old_s.allowlist_index.len() {
                    assert(old_s.allowlist_index.contains(old_s.allowlist_index[i]));
                }
                if j < old_s.allowlist_index.len() {
                    assert(old_s.allowlist_index.contains(old_s.allowlist_index[j]));
                }
            }
        }
    }
    lemma_claims_frame(old_s, s);
    lemma_book_frame(old_s, s);
}

/// Where nobody's claim is written and a settled escrow stays settled, claims stay in order.
proof fn lemma_claims_frame(old_s: StorageView, s: StorageView)
    requires
        old_s.escrow is Some,
        s.escrow is Some,
        valid_book(old_s, old_s.escrow->0),
        s.investor_index == old_s.investor_index,
        s.investor_claimed == old_s.investor_claimed,
        old_s.escrow->0.status == STATUS_SETTLED ==> s.escrow->0.status == STATUS_SETTLED,
    ensures
        forall|a: Address| #[trigger]
            s.claimed(a) ==> s.escrow->0.status == STATUS_SETTLED && s.investor_index.contains(a),
{
    assert forall|a: Address| #[trigger] s.claimed(a) implies s.escrow->0.status == STATUS_SETTLED
        && s.investor_index.contains(a) by {
        assert(old_s.claimed(a));
    }
}

/// Where no entry of an investor, of the allowlist or of the claims is written, books and allowlist
/// stay in order.
proof fn lemma_entries_frame(old_s: StorageView, s: StorageView)
    requires
        valid(old_s),
        old_s.escrow is Some,
        s.escrow is Some,
        s.investor_index == old_s.investor_index,
        s.investor_contribution == old_s.investor_contribution,
        s.investor_effective_yield == old_s.investor_effective_yield,
        s.investor_claim_not_before == old_s.investor_claim_not_before,
        s.investor_refunded == old_s.investor_refunded,
        s.investor_claimed == old_s.investor_claimed,
        s.investor_allowlisted == old_s.investor_allowlisted,
        s.allowlist_index == old_s.allowlist_index,
        s.unique_funder_count == old_s.unique_funder_count,
        s.escrow->0.funded_amount == old_s.escrow->0.funded_amount,
        s.escrow->0.yield_bps == old_s.escrow->0.yield_bps,
        s.max_unique_investors_cap matches Some(cap) ==> s.funders() <= cap,
        s.max_per_investor_cap matches Some(cap) ==> old_s.max_per_investor_cap is Some
            && old_s.max_per_investor_cap->0 <= cap,
        old_s.escrow->0.status == STATUS_SETTLED ==> s.escrow->0.status == STATUS_SETTLED,
        old_s.escrow->0.status == STATUS_CANCELLED ==> s.escrow->0.status == STATUS_CANCELLED,
        old_s.escrow->0.status != STATUS_CANCELLED && s.escrow->0.status == STATUS_CANCELLED
            ==> s.distributed() == 0,
        old_s.escrow->0.status == STATUS_CANCELLED ==> s.distributed() == old_s.distributed(),
        s.distributed() >= 0,
        s.escrow->0.status == STATUS_WITHDRAWN ==> s.distributed() == s.escrow->0.funded_amount,
        s.escrow->0.status < STATUS_WITHDRAWN ==> s.distributed() == 0,
    ensures
        valid_book(s, s.escrow->0),
        valid_allowlist(s),
{
    reveal(valid);
    lemma_claims_frame(old_s, s);
    lemma_book_frame(old_s, s);
    lemma_allowlist_frame(old_s, s);
}

proof fn lemma_allowlisted_batch_keeps_validity(
    e: EnvView,
    investors: Seq<Address>,
    allowed: bool,
    n: nat,
)
    requires
        valid(e.storage),
        e.storage.escrow is Some,
        n <= investors.len(),
    ensures
        valid(set_allowlisted_in_turn(e, investors, allowed, n).storage),
        set_allowlisted_in_turn(e, investors, allowed, n).storage.escrow == e.storage.escrow,
    decreases n,
{
    reveal(valid);
    if n > 0 {
        lemma_allowlisted_batch_keeps_validity(e, investors, allowed, (n - 1) as nat);
        lemma_allowlisted_keeps_validity(
            set_allowlisted_in_turn(e, investors, allowed, (n - 1) as nat),
            investors[n - 1],
            allowed,
        );
    }
}

proof fn lemma_revoked_batch(e: EnvView, indices: Seq<u32>, n: nat)
    requires
        n <= indices.len(),
        valid_log(e.storage),
        revoked_in_turn(e, indices, n) is Ok,
    ensures
        ({
            let after = revoked_in_turn(e, indices, n)->Ok_0;
            &&& valid_log(after.storage)
            &&& after.storage == (StorageView {
                attestation_revoked: after.storage.attestation_revoked,
                ..e.storage
            })
        }),
    decreases n,
{
    if n > 0 {
        lemma_revoked_batch(e, indices, (n - 1) as nat);
    }
}

/// The storage without the entries that validity does not look at.
spec fn essentials(s: StorageView) -> StorageView {
    StorageView {
        legal_hold: None,
        legal_hold_clearable_at: None,
        legal_hold_clear_delay: None,
        sme_collateral_pledge: None,
        registry_ref: None,
        primary_attestation_hash: None,
        allowlist_active: None,
        maturity_max_horizon: None,
        funding_deadline: None,
        paused: None,
        ..s
    }
}

proof fn lemma_validity_of_essentials(old_s: StorageView, s: StorageView)
    requires
        valid(old_s),
        old_s.escrow is Some,
        essentials(s) == essentials(old_s),
    ensures
        valid(s),
{
    reveal(valid);
    lemma_fields_of_essentials(old_s);
    lemma_fields_of_essentials(s);
    lemma_entries_frame(old_s, s);
}

proof fn lemma_fields_of_essentials(s: StorageView)
    ensures
        s.escrow == essentials(s).escrow,
        s.version == essentials(s).version,
        s.funding_token == essentials(s).funding_token,
        s.treasury == essentials(s).treasury,
        s.yield_tier_table == essentials(s).yield_tier_table,
        s.funding_close_snapshot == essentials(s).funding_close_snapshot,
        s.min_contribution_floor == essentials(s).min_contribution_floor,
        s.max_unique_investors_cap == essentials(s).max_unique_investors_cap,
        s.max_per_investor_cap == essentials(s).max_per_investor_cap,
        s.pending_admin == essentials(s).pending_admin,
        s.pending_admin_expiry == essentials(s).pending_admin_expiry,
        s.unique_funder_count == essentials(s).unique_funder_count,
        s.attestation_append_log == essentials(s).attestation_append_log,
        s.attestation_revoked == essentials(s).attestation_revoked,
        s.allowlist_index == essentials(s).allowlist_index,
        s.distributed_principal == essentials(s).distributed_principal,
        s.investor_index == essentials(s).investor_index,
        s.settled_at == essentials(s).settled_at,
        s.investor_contribution == essentials(s).investor_contribution,
        s.investor_effective_yield == essentials(s).investor_effective_yield,
        s.investor_claim_not_before == essentials(s).investor_claim_not_before,
        s.investor_claimed == essentials(s).investor_claimed,
        s.investor_allowlisted == essentials(s).investor_allowlisted,
        s.investor_refunded == essentials(s).investor_refunded,
{
}

proof fn lemma_claim_keeps_validity(e: EnvView, investor: Address)
    requires
        valid(e.storage),
        claim_refusal(e, investor) is None,
    ensures
        valid(claim_post(e, investor).storage),
{
    reveal(valid);
    let old_s = e.storage;
    let s = claim_post(e, investor).storage;
    if !old_s.claimed(investor) {
        assert(old_s.investor_contribution.contains_key(investor));
        assert forall|a: Address| #[trigger] s.claimed(a) implies s.escrow->0.status
            == STATUS_SETTLED && s.investor_index.contains(a) by {
            if a != investor {
                assert(old_s.claimed(a));
            }
        }
        lemma_book_frame(old_s, s);
        lemma_allowlist_frame(old_s, s);
    }
}

proof fn lemma_partial_settle_keeps_validity(e: EnvView, caller: Address)
    requires
        valid(e.storage),
        partial_settle_refusal(e, caller) is None,
    ensures
        valid(partial_settle_post(e).storage),
{
    reveal(valid);
    lemma_entries_frame(e.storage, partial_settle_post(e).storage);
}

proof fn lemma_settle_keeps_validity(e: EnvView)
    requires
        valid(e.storage),
        settle_refusal(e) is None,
    ensures
        valid(settle_post(e).storage),
{
    reveal(valid);
    lemma_entries_frame(e.storage, settle_post(e).storage);
}

proof fn lemma_withdraw_keeps_validity(e: EnvView)
    requires
        valid(e.storage),
        withdraw_refusal(e) is None,
    ensures
        valid(withdraw_post(e).storage),
{
    reveal(valid);
    lemma_entries_frame(e.storage, withdraw_post(e).storage);
}

proof fn lemma_cancel_keeps_validity(e: EnvView)
    requires
        valid(e.storage),
        cancel_funding_refusal(e) is None,
    ensures
        valid(cancel_funding_post(e).storage),
{
    reveal(valid);
    lemma_entries_frame(e.storage, cancel_funding_post(e).storage);
}

proof fn lemma_target_keeps_validity(e: EnvView, new_target: i128)
    requires
        valid(e.storage),
        update_target_refusal(e, new_target) is None,
    ensures
        valid(update_target_post(e, new_target).storage),
{
    reveal(valid);
    lemma_entries_frame(e.storage, update_target_post(e, new_target).storage);
}

proof fn lemma_maturity_keeps_validity(e: EnvView, new_maturity: u64)
    requires
        valid(e.storage),
        update_maturity_refusal(e, new_maturity) is None,
    ensures
        valid(update_maturity_post(e, new_maturity).storage),
{
    reveal(valid);
    lemma_entries_frame(e.storage, update_maturity_post(e, new_maturity).storage);
}

proof fn lemma_rotate_keeps_validity(e: EnvView, new_sme: Address)
    requires
        valid(e.storage),
        rotate_refusal(e, new_sme) is None,
    ensures
        valid(rotate_post(e, new_sme).storage),
{
    reveal(valid);
    lemma_entries_frame(e.storage, rotate_post(e, new_sme).storage);
}

proof fn lemma_propose_keeps_validity(e: EnvView, new_admin: Address, window: Option<u64>)
    requires
        valid(e.storage),
        propose_admin_refusal(e, new_admin) is None,
    ensures
        valid(propose_admin_post(e, new_admin, window).storage),
{
    reveal(valid);
    lemma_entries_frame(e.storage, propose_admin_post(e, new_admin, window).storage);
}

proof fn lemma_accept_keeps_validity(e: EnvView)
    requires
        valid(e.storage),
        accept_admin_refusal(e) is None,
    ensures
        valid(accept_admin_post(e).storage),
{
    reveal(valid);
    lemma_entries_frame(e.storage, accept_admin_post(e).storage);
}

proof fn lemma_cancel_pending_keeps_validity(e: EnvView)
    requires
        valid(e.storage),
        cancel_pending_refusal(e) is None,
    ensures
        valid(cancel_pending_post(e).storage),
{
    reveal(valid);
    lemma_entries_frame(e.storage, cancel_pending_post(e).storage);
}

proof fn lemma_lower_cap_keeps_validity(e: EnvView, new_cap: u32)
    requires
        valid(e.storage),
        lower_cap_refusal(e, new_cap) is None,
    ensures
        valid(lower_cap_post(e, new_cap).storage),
{
    reveal(valid);
    lemma_entries_frame(e.storage, lower_cap_post(e, new_cap).storage);
}

proof fn lemma_raise_cap_keeps_validity(e: EnvView, new_cap: u32)
    requires
        valid(e.storage),
        raise_cap_refusal(e, new_cap) is None,
    ensures
        valid(raise_cap_post(e, new_cap).storage),
{
    reveal(valid);
    lemma_entries_frame(e.storage, raise_cap_post(e, new_cap).storage);
}

proof fn lemma_lower_floor_keeps_validity(e: EnvView, new_floor: i128)
    requires
        valid(e.storage),
        lower_floor_refusal(e, new_floor) is None,
    ensures
        valid(lower_floor_post(e, new_floor).storage),
{
    reveal(valid);
    lemma_entries_frame(e.storage, lower_floor_post(e, new_floor).storage);
}

proof fn lemma_raise_per_investor_keeps_validity(e: EnvView, new_cap: i128)
    requires
        valid(e.storage),
        raise_per_investor_refusal(e, new_cap) is None,
    ensures
        valid(raise_per_investor_post(e, new_cap).storage),
{
    reveal(valid);
    lemma_entries_frame(e.storage, raise_per_investor_post(e, new_cap).storage);
}

proof fn lemma_append_keeps_validity(e: EnvView, digest: Digest)
    requires
        valid(e.storage),
        append_refusal(e) is None,
    ensures
        valid(append_post(e, digest).storage),
{
    reveal(valid);
    lemma_entries_frame(e.storage, append_post(e, digest).storage);
}

proof fn lemma_revoke_keeps_validity(e: EnvView, index: u32)
    requires
        valid(e.storage),
        revoke_refusal(e, index) is None,
    ensures
        valid(revoke_post(e, index).storage),
{
    reveal(valid);
    lemma_entries_frame(e.storage, revoke_post(e, index).storage);
}

proof fn lemma_unrevoke_keeps_validity(e: EnvView, index: u32)
    requires
        valid(e.storage),
        unrevoke_refusal(e, index) is None,
    ensures
        valid(unrevoke_post(e, index).storage),
{
    reveal(valid);
    lemma_entries_frame(e.storage, unrevoke_post(e, index).storage);
}

proof fn lemma_revoke_batch_keeps_validity(e: EnvView, indices: Seq<u32>)
    requires
        valid(e.storage),
        revoke_batch_refusal(e, indices) is None,
    ensures
        valid(revoke_batch_post(e, indices).storage),
{
    reveal(valid);
    lemma_revoked_batch(e, indices, indices.len());
    lemma_entries_frame(e.storage, revoke_batch_post(e, indices).storage);
}

/// Every call keeps the storage valid.
pub proof fn lemma_every_call_keeps_validity(call: Call, e: EnvView)
    requires
        valid(e.storage),
        call.fits(e),
    ensures
        valid(call.after(e).storage),
{
    if call.refusal(e) is None {
        lemma_nothing_before_set_up(call, e);
        match call {
            Call::Init(terms) => {
                lemma_init_keeps_validity(e, terms);
            },
            Call::Fund(investor, amount, kind) => {
                lemma_deposit_keeps_validity(e, investor, amount, kind, true);
            },
            Call::FundBatch(entries) => {
                lemma_batch_counts_in_turn(e, entries);
                lemma_batch_keeps_validity(e, entries, entries.len());
            },
            Call::PartialSettle(caller) => {
                lemma_partial_settle_keeps_validity(e, caller);
            },
            Call::Settle => {
                lemma_settle_keeps_validity(e);
            },
            Call::Withdraw => {
                lemma_withdraw_keeps_validity(e);
            },
            Call::Claim(investor) => {
                lemma_claim_keeps_validity(e, investor);
            },
            Call::CancelFunding => {
                lemma_cancel_keeps_validity(e);
            },
            Call::Refund(investor) => {
                lemma_refund_keeps_validity(e, investor);
            },
            Call::SetAllowlistActive(active) => {
                lemma_validity_of_essentials(
                    e.storage,
                    set_allowlist_active_post(e, active).storage,
                );
            },
            Call::SetAllowlisted(investor, allowed) => {
                lemma_allowlisted_keeps_validity(e, investor, allowed);
            },
            Call::SetAllowlistedBatch(investors, allowed) => {
                lemma_allowlisted_batch_keeps_validity(e, investors, allowed, investors.len());
            },
            Call::BindPrimary(digest) => {
                lemma_validity_of_essentials(e.storage, bind_primary_post(e, digest).storage);
            },
            Call::AppendDigest(digest) => {
                lemma_append_keeps_validity(e, digest);
            },
            Call::Revoke(index) => {
                lemma_revoke_keeps_validity(e, index);
            },
            Call::RevokeBatch(indices) => {
                lemma_revoke_batch_keeps_validity(e, indices);
            },
            Call::Unrevoke(index) => {
                lemma_unrevoke_keeps_validity(e, index);
            },
            Call::RecordCollateral(asset, amount) => {
                lemma_validity_of_essentials(
                    e.storage,
                    record_collateral_post(e, asset, amount).storage,
                );
            },
            Call::ClearCollateral => {
                lemma_validity_of_essentials(e.storage, clear_collateral_post(e).storage);
            },
            Call::SetPaused(active) => {
                lemma_validity_of_essentials(e.storage, set_paused_post(e, active).storage);
            },
            Call::SetLegalHold(active) => {
                lemma_validity_of_essentials(e.storage, set_legal_hold_post(e, active).storage);
            },
            Call::RequestClear => {
                lemma_validity_of_essentials(e.storage, request_clear_post(e).storage);
            },
            Call::ClearAfterDelay => {
                lemma_validity_of_essentials(e.storage, set_legal_hold_post(e, false).storage);
            },
            Call::CancelClear => {
                lemma_validity_of_essentials(e.storage, cancel_clear_post(e).storage);
            },
            Call::ProposeAdmin(new_admin, window) => {
                lemma_propose_keeps_validity(e, new_admin, window);
            },
            Call::AcceptAdmin => {
                lemma_accept_keeps_validity(e);
            },
            Call::TransferAdmin(new_admin) => {
                lemma_propose_keeps_validity(e, new_admin, None);
            },
            Call::CancelPendingAdmin => {
                lemma_cancel_pending_keeps_validity(e);
            },
            Call::RotateBeneficiary(new_sme) => {
                lemma_rotate_keeps_validity(e, new_sme);
            },
            Call::RebindRegistry(registry) => {
                lemma_validity_of_essentials(e.storage, rebind_registry_post(e, registry).storage);
            },
            Call::UpdateTarget(new_target) => {
                lemma_target_keeps_validity(e, new_target);
            },
            Call::LowerCap(new_cap) => {
                lemma_lower_cap_keeps_validity(e, new_cap);
            },
            Call::RaiseCap(new_cap) => {
                lemma_raise_cap_keeps_validity(e, new_cap);
            },
            Call::LowerFloor(new_floor) => {
                lemma_lower_floor_keeps_validity(e, new_floor);
            },
            Call::RaisePerInvestor(new_cap) => {
                lemma_raise_per_investor_keeps_validity(e, new_cap);
            },
            Call::UpdateMaturity(new_maturity) => {
                lemma_maturity_keeps_validity(e, new_maturity);
            },
            Call::UpdateHorizon(new_horizon) => {
                lemma_validity_of_essentials(
                    e.storage,
                    update_horizon_post(e, new_horizon).storage,
                );
            },
            Call::RaiseHorizon(new_horizon) => {
                lemma_validity_of_essentials(e.storage, raise_horizon_post(e, new_horizon).storage);
            },
            Call::Sweep(_) | Call::Migrate(_) | Call::Upgrade(_) | Call::BumpTtl(_) => {},
        }
    }
}

/// One invocation of the contract: the call and what surrounds it.
pub struct Invocation {
    pub call: Call,
    pub ledger: LedgerInfo,
    pub authorized: Seq<Address>,
    pub contract_balance: i128,
}

impl Invocation {
    /// The environment that the call meets at the contract `contract` with storage `s`.
    pub open spec fn env(self, contract: Address, s: StorageView) -> EnvView {
        EnvView {
            storage: s,
            ledger: self.ledger,
            authorized: self.authorized,
            contract,
            contract_balance: self.contract_balance,
            effects: Seq::empty(),
        }
    }
}

/// The storage after the invocation.
#[verifier::opaque]
pub open spec fn next_storage(
    invocation: Invocation,
    contract: Address,
    s: StorageView,
) -> StorageView {
    invocation.call.after(invocation.env(contract, s)).storage
}

/// Whether the counter of distinct investors has room for those of the invocation.
#[verifier::opaque]
pub open spec fn countable(invocation: Invocation, contract: Address, s: StorageView) -> bool {
    invocation.call.fits(invocation.env(contract, s))
}

proof fn lemma_invocation_keeps_validity(
    invocation: Invocation,
    contract: Address,
    s: StorageView,
)
    requires
        valid(s),
        countable(invocation, contract, s),
    ensures
        valid(next_storage(invocation, contract, s)),
{
    reveal(next_storage);
    reveal(countable);
    lemma_every_call_keeps_validity(invocation.call, invocation.env(contract, s));
}

/// The storage of a new contract after the first `n` invocations.
pub open spec fn storage_after(contract: Address, history: Seq<Invocation>, n: nat) -> StorageView
    decreases n,
{
    if n == 0 {
        empty_storage()
    } else {
        next_storage(
            history[n - 1],
            contract,
            storage_after(contract, history, (n - 1) as nat),
        )
    }
}

/// Whatever has been called so far, in whatever order and by whomever, the storage is valid, as
/// long as there were not more investors than the counter counts.
pub proof fn lemma_storage_is_always_valid(contract: Address, history: Seq<Invocation>, n: nat)
    requires
        n <= history.len(),
        forall|i: int|
            0 <= i < n ==> countable(
                #[trigger] history[i],
                contract,
                storage_after(contract, history, i as nat),
            ),
    ensures
        valid(storage_after(contract, history, n)),
    decreases n,
{
    if n == 0 {
        lemma_empty_storage_is_valid();
    } else {
        lemma_storage_is_always_valid(contract, history, (n - 1) as nat);
        lemma_invocation_keeps_validity(
            history[n - 1],
            contract,
            storage_after(contract, history, (n - 1) as nat),
        );
    }
}

} // verus!
