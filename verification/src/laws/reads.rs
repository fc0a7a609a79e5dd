//! What the reads tell, and what keeps the entries alive.
use crate::allowlist::{listed, page, page_stop};
use crate::contract::LiquifactEscrow;
use crate::env::{ContractEnv, Effect, EnvView, StorageView, TtlExtension, TtlTarget};
use crate::errors::{EscrowError, Refusal};
use crate::lifetime::{bump_ttl_post, extend_investors};
use crate::mock_token::{balance_of, DefaultMockToken};
use crate::queries::{if_initialized, remaining_capacity, remaining_slots, summary};
use crate::types::{
    AttestationDigestInfo, CollateralCommitmentSnapshot, DataKey, EscrowCloseSnapshot,
    EscrowSummary, FundingCloseSnapshot, InvoiceEscrow, ReconciliationView, SettlementReadiness,
    SmeCollateralCommitment, YieldTier,
};
use crate::values::{Address, Digest};
use vstd::prelude::*;

verus! {

// ---------------------------------------------------------------------------------------------
// The escrow and its terms
// ---------------------------------------------------------------------------------------------

/// The escrow is told as stored; without one that is said.
pub proof fn lemma_escrow_is_told(env: &ContractEnv, r: Result<InvoiceEscrow, Refusal>)
    requires
        call_ensures(LiquifactEscrow::get_escrow, (env,), r),
    ensures
        env.storage.escrow matches Some(escrow) ==> r == Ok::<InvoiceEscrow, Refusal>(escrow),
        env.storage.escrow is None ==> r == Err::<InvoiceEscrow, Refusal>(
            Refusal::Error(EscrowError::EscrowNotInitialized),
        ),
{
}

/// A read that needs an escrow gives its value where there is one, and else says that there is none.
pub proof fn lemma_reads_need_an_escrow<T>(s: StorageView, value: T)
    ensures
        s.escrow is Some ==> if_initialized(s, value) == Ok::<T, Refusal>(value),
        s.escrow is None ==> if_initialized(s, value) == Err::<T, Refusal>(
            Refusal::Error(EscrowError::EscrowNotInitialized),
        ),
{
}

/// Token and treasury are told as stored; where one is not set, that is said.
pub proof fn lemma_accounts_are_told(
    env: &ContractEnv,
    token: Result<Address, Refusal>,
    treasury: Result<Address, Refusal>,
    registry: Option<Address>,
)
    requires
        call_ensures(LiquifactEscrow::get_funding_token, (env,), token),
        call_ensures(LiquifactEscrow::get_treasury, (env,), treasury),
        call_ensures(LiquifactEscrow::get_registry_ref, (env,), registry),
    ensures
        env.storage.funding_token matches Some(stored) ==> token == Ok::<Address, Refusal>(stored),
        env.storage.funding_token is None ==> token == Err::<Address, Refusal>(
            Refusal::Error(EscrowError::FundingTokenNotSet),
        ),
        env.storage.treasury matches Some(stored) ==> treasury == Ok::<Address, Refusal>(stored),
        env.storage.treasury is None ==> treasury == Err::<Address, Refusal>(
            Refusal::Error(EscrowError::TreasuryNotSet),
        ),
        registry == env.storage.registry_ref,
{
}

/// The switches are told as on exactly where they were written as on.
pub proof fn lemma_switches_are_told(env: &ContractEnv, held: bool, paused: bool, listing: bool)
    requires
        call_ensures(LiquifactEscrow::get_legal_hold, (env,), held),
        call_ensures(LiquifactEscrow::is_paused, (env,), paused),
        call_ensures(LiquifactEscrow::is_allowlist_active, (env,), listing),
    ensures
        held <==> env.storage.legal_hold == Some(true),
        paused <==> env.storage.paused == Some(true),
        listing <==> env.storage.allowlist_active == Some(true),
{
}

/// The limits on deposits are told as stored; no floor is a floor of zero.
pub proof fn lemma_limits_are_told(
    env: &ContractEnv,
    floor: i128,
    slots_cap: Option<u32>,
    investor_cap: Option<i128>,
    horizon: u64,
    tiers: Vec<YieldTier>,
)
    requires
        call_ensures(LiquifactEscrow::get_min_contribution_floor, (env,), floor),
        call_ensures(LiquifactEscrow::get_max_unique_investors_cap, (env,), slots_cap),
        call_ensures(LiquifactEscrow::get_max_per_investor_cap, (env,), investor_cap),
        call_ensures(LiquifactEscrow::get_maturity_max_horizon, (env,), horizon),
        call_ensures(LiquifactEscrow::get_yield_tiers, (env,), tiers),
    ensures
        env.storage.min_contribution_floor matches Some(stored) ==> floor == stored,
        env.storage.min_contribution_floor is None ==> floor == 0,
        slots_cap == env.storage.max_unique_investors_cap,
        investor_cap == env.storage.max_per_investor_cap,
        env.storage.maturity_max_horizon matches Some(stored) ==> horizon == stored,
        env.storage.maturity_max_horizon is None ==> horizon == 157_680_000,
        env.storage.yield_tier_table matches Some(stored) ==> tiers@ == stored@,
        env.storage.yield_tier_table is None ==> tiers@.len() == 0,
{
}

/// A deadline is told as stored, and funding has expired where the clock is past it, not yet at it.
/// Without a deadline it never expires.
pub proof fn lemma_deadline_is_told(env: &ContractEnv, deadline: Option<u64>, expired: bool)
    requires
        call_ensures(LiquifactEscrow::get_funding_deadline, (env,), deadline),
        call_ensures(LiquifactEscrow::is_funding_expired, (env,), expired),
    ensures
        deadline == env.storage.funding_deadline,
        deadline is None ==> !expired,
        deadline matches Some(last) ==> (expired <==> last < env.ledger.timestamp),
{
}

/// Times and versions are told as stored; no version is version zero, no delay is none.
pub proof fn lemma_marks_are_told(
    env: &ContractEnv,
    version: u32,
    settled_at: Option<u64>,
    clearable_at: Option<u64>,
    delay: u64,
    snapshot: Option<FundingCloseSnapshot>,
)
    requires
        call_ensures(LiquifactEscrow::get_version, (env,), version),
        call_ensures(LiquifactEscrow::get_settled_at, (env,), settled_at),
        call_ensures(LiquifactEscrow::get_legal_hold_clearable_at, (env,), clearable_at),
        call_ensures(LiquifactEscrow::get_legal_hold_clear_delay, (env,), delay),
        call_ensures(LiquifactEscrow::get_funding_close_snapshot, (env,), snapshot),
    ensures
        env.storage.version matches Some(stored) ==> version == stored,
        env.storage.version is None ==> version == 0,
        settled_at == env.storage.settled_at,
        clearable_at == env.storage.legal_hold_clearable_at,
        env.storage.legal_hold_clear_delay matches Some(stored) ==> delay == stored,
        env.storage.legal_hold_clear_delay is None ==> delay == 0,
        snapshot == env.storage.funding_close_snapshot,
{
}

/// Settlement waits for a maturity where the escrow has one.
pub proof fn lemma_maturity_lock_is_told(env: &ContractEnv, r: Result<bool, Refusal>)
    requires
        call_ensures(LiquifactEscrow::has_maturity_lock, (env,), r),
    ensures
        env.storage.escrow matches Some(escrow) ==> r == Ok::<bool, Refusal>(escrow.maturity != 0),
        env.storage.escrow is None ==> r is Err,
{
}

/// The proposed admin, its expiry, the collateral and the primary digest are told as stored.
pub proof fn lemma_records_are_told(
    env: &ContractEnv,
    pending: Option<Address>,
    expiry: Option<u64>,
    pledge: Option<SmeCollateralCommitment>,
    digest: Option<Digest>,
)
    requires
        call_ensures(LiquifactEscrow::get_pending_admin, (env,), pending),
        call_ensures(LiquifactEscrow::get_pending_admin_expiry, (env,), expiry),
        call_ensures(LiquifactEscrow::get_sme_collateral_commitment, (env,), pledge),
        call_ensures(LiquifactEscrow::get_primary_attestation_hash, (env,), digest),
    ensures
        pending == env.storage.pending_admin,
        expiry == env.storage.pending_admin_expiry,
        pledge == env.storage.sme_collateral_pledge,
        digest == env.storage.primary_attestation_hash,
{
}

/// The log is told in full, a place of it with its digest and whether that is revoked.
pub proof fn lemma_log_is_told(
    env: &ContractEnv,
    index: u32,
    log: Vec<Digest>,
    info: Option<AttestationDigestInfo>,
    revoked: bool,
)
    requires
        call_ensures(LiquifactEscrow::get_attestation_append_log, (env,), log),
        call_ensures(LiquifactEscrow::get_attestation_digest_at, (env, index), info),
        call_ensures(LiquifactEscrow::is_attestation_revoked, (env, index), revoked),
    ensures
        log@ == env@.storage.attestation_append_log,
        revoked <==> env@.storage.attestation_revoked.contains(index),
        info is Some <==> index < log@.len(),
        info matches Some(told) ==> told.digest == log@[index as int] && told.revoked == revoked,
{
}

// ---------------------------------------------------------------------------------------------
// Deposits
// ---------------------------------------------------------------------------------------------

/// What is missing to the target: together with what is held it makes the target, and nothing is
/// missing once the target is reached. A gap beyond the largest amount is told as that.
pub proof fn lemma_capacity_fills_the_target(escrow: InvoiceEscrow)
    ensures
        ({
            let missing = remaining_capacity(escrow);
            let gap = escrow.funding_target - escrow.funded_amount;
            &&& missing >= 0
            &&& gap <= 0 ==> missing == 0
            &&& 0 < gap <= i128::MAX ==> escrow.funded_amount + missing == escrow.funding_target
            &&& gap > i128::MAX ==> missing == i128::MAX
        }),
{
}

/// How many more investors may come: together with those counted they make the cap, and none may
/// once the cap is reached. Without a cap there is no such number.
pub proof fn lemma_slots_fill_the_cap(s: StorageView)
    ensures
        remaining_slots(s) is Some <==> s.max_unique_investors_cap is Some,
        s.max_unique_investors_cap matches Some(cap) ==> {
            &&& s.funders() <= cap ==> s.funders() + remaining_slots(s)->0 == cap
            &&& s.funders() >= cap ==> remaining_slots(s)->0 == 0
        },
{
}

/// The two are what the contract tells, the number of investors as counted.
pub proof fn lemma_room_is_told(
    env: &ContractEnv,
    missing: Result<i128, Refusal>,
    slots: Option<u32>,
    count: u32,
)
    requires
        call_ensures(LiquifactEscrow::get_remaining_funding_capacity, (env,), missing),
        call_ensures(LiquifactEscrow::get_remaining_investor_slots, (env,), slots),
        call_ensures(LiquifactEscrow::get_unique_funder_count, (env,), count),
    ensures
        missing == if_initialized(env@.storage, remaining_capacity(env@.storage.escrow->0)),
        slots == remaining_slots(env@.storage),
        env.storage.unique_funder_count matches Some(stored) ==> count == stored,
        env.storage.unique_funder_count is None ==> count == 0,
{
}

/// What is told of an investor is the investor's own entry: the contribution, the earliest claim,
/// and whether they have claimed, were refunded, or are allowlisted.
pub proof fn lemma_investor_is_told(
    env: &ContractEnv,
    investor: Address,
    contribution: i128,
    not_before: u64,
    claimed: bool,
    refunded: bool,
    allowlisted: bool,
)
    requires
        call_ensures(LiquifactEscrow::get_contribution, (env, investor), contribution),
        call_ensures(LiquifactEscrow::get_investor_claim_not_before, (env, investor), not_before),
        call_ensures(LiquifactEscrow::is_investor_claimed, (env, investor), claimed),
        call_ensures(LiquifactEscrow::is_investor_refunded, (env, investor), refunded),
        call_ensures(LiquifactEscrow::is_investor_allowlisted, (env, investor), allowlisted),
    ensures
        ({
            let s = env@.storage;
            let contributed = s.investor_contribution.contains_key(investor);
            let locked = s.investor_claim_not_before.contains_key(investor);
            &&& contributed ==> contribution == s.investor_contribution[investor]
            &&& !contributed ==> contribution == 0
            &&& locked ==> not_before == s.investor_claim_not_before[investor]
            &&& !locked ==> not_before == 0
            &&& claimed <==> s.investor_claimed.contains_key(investor)
                && s.investor_claimed[investor]
            &&& refunded <==> s.investor_refunded.contains_key(investor)
                && s.investor_refunded[investor]
            &&& allowlisted <==> s.investor_allowlisted.contains_key(investor)
                && s.investor_allowlisted[investor]
        }),
{
}

/// An investor's yield is the recorded one, or the base yield where none is recorded.
pub proof fn lemma_yield_is_told(env: &ContractEnv, investor: Address, r: Result<i64, Refusal>)
    requires
        call_ensures(LiquifactEscrow::get_investor_yield_bps, (env, investor), r),
    ensures
        env.storage.escrow is None ==> r is Err,
        env.storage.escrow matches Some(escrow) ==> {
            let recorded = env@.storage.investor_effective_yield;
            &&& recorded.contains_key(investor) ==> r == Ok::<i64, Refusal>(recorded[investor])
            &&& !recorded.contains_key(investor) ==> r == Ok::<i64, Refusal>(escrow.yield_bps)
        },
{
}

/// Asking for many contributions is asking for each, in the same order; too many at once are
/// refused.
pub proof fn lemma_contributions_are_told(
    env: &ContractEnv,
    investors: &Vec<Address>,
    r: Result<Vec<i128>, Refusal>,
    at: int,
)
    requires
        call_ensures(LiquifactEscrow::get_contributions, (env, investors), r),
    ensures
        investors@.len() > 50 <==> r is Err,
        r matches Err(why) ==> why == Refusal::Error(EscrowError::ContributionBatchTooLarge),
        r matches Ok(amounts) ==> {
            &&& amounts@.len() == investors@.len()
            &&& 0 <= at < investors@.len() ==> amounts@[at] == env@.storage.contribution(
                investors@[at],
            )
        },
{
}

/// What a first deposit would be offered is what [`crate::tiers::commitment_yield`] gives for the
/// stored ladder, whatever the amount.
pub proof fn lemma_preview_ignores_the_amount(
    env: &ContractEnv,
    amount: i128,
    other: i128,
    lock: u64,
    r: Result<(i64, u64), Refusal>,
    q: Result<(i64, u64), Refusal>,
)
    requires
        call_ensures(LiquifactEscrow::preview_yield_tier, (env, amount, lock), r),
        call_ensures(LiquifactEscrow::preview_yield_tier, (env, other, lock), q),
    ensures
        r == q,
        r == if_initialized(
            env@.storage,
            crate::tiers::commitment_yield(
                env@.storage.yield_tier_table,
                env@.storage.escrow->0.yield_bps,
                lock,
            ),
        ),
{
}

// ---------------------------------------------------------------------------------------------
// Pages
// ---------------------------------------------------------------------------------------------

/// A page begins at its start, ends at the end of the list, and holds as many as asked for, but not
/// more than fifty and not more than there are. A start beyond the end gives an empty page.
pub proof fn lemma_page_is_cut_out(index: Seq<Address>, start: u32, limit: u32, at: int)
    ensures
        ({
            let cut = page(index, start, limit);
            let rest = index.len() - start;
            &&& rest <= 0 ==> cut.len() == 0
            &&& rest > 0 ==> {
                &&& cut.len() <= limit && cut.len() <= 50 && cut.len() <= rest
                &&& cut.len() == limit || cut.len() == 50 || cut.len() == rest
            }
            &&& 0 <= at < cut.len() ==> cut[at] == index[start + at]
        }),
{
}

/// Where a page stops is where it started and its size further, but not beyond the end.
pub proof fn lemma_page_stops(len: int, start: u32, limit: u32)
    requires
        start <= len,
    ensures
        start <= page_stop(len, start, limit) <= len,
        page_stop(len, start, limit) <= start + limit,
        page_stop(len, start, limit) <= start + 50,
{
}

/// Pages that follow each other give the whole list.
pub proof fn lemma_pages_join(index: Seq<Address>, start: u32, limit: u32)
    requires
        start <= index.len(),
        0 < limit <= 50,
        start + limit <= u32::MAX,
    ensures
        index.skip(start as int) == page(index, start, limit) + index.skip(
            start + page(index, start, limit).len(),
        ),
{
    assert(index.skip(start as int) =~= page(index, start, limit) + index.skip(
        start + page(index, start, limit).len(),
    ));
}

/// Of those on a page exactly the allowlisted are told.
pub proof fn lemma_listed_are_allowlisted(
    s: StorageView,
    index: Seq<Address>,
    investor: Address,
)
    ensures
        listed(s, index).contains(investor) <==> index.contains(investor) && s.allowlisted(
            investor,
        ),
        listed(s, index).len() <= index.len(),
        (forall|i: int| 0 <= i < index.len() ==> s.allowlisted(#[trigger] index[i])) ==> listed(
            s,
            index,
        ) == index,
    decreases index.len(),
{
    reveal(Seq::filter);
    if index.len() > 0 {
        let shorter = index.drop_last();
        lemma_listed_are_allowlisted(s, shorter, investor);
        let told = listed(s, shorter);
        if told.contains(investor) {
            let i = choose|i: int| 0 <= i < told.len() && told[i] == investor;
            assert(told.push(index.last())[i] == investor);
        }
        if s.allowlisted(index.last()) {
            assert(told.push(index.last())[told.len() as int] == index.last());
        }
        if index.contains(investor) {
            let i = choose|i: int| 0 <= i < index.len() && index[i] == investor;
            if i < index.len() - 1 {
                assert(shorter[i] == investor);
            }
        }
        if shorter.contains(investor) {
            let i = choose|i: int| 0 <= i < shorter.len() && shorter[i] == investor;
            assert(index[i] == investor);
        }
        if forall|i: int| 0 <= i < index.len() ==> s.allowlisted(#[trigger] index[i]) {
            assert forall|i: int| 0 <= i < shorter.len() implies s.allowlisted(
                #[trigger] shorter[i],
            ) by {
                assert(shorter[i] == index[i]);
            }
            assert(index =~= shorter.push(index.last()));
        }
    }
}

/// The order of a list is kept among those told: a list told in two parts is told as a whole.
pub proof fn lemma_listed_in_parts(s: StorageView, a: Seq<Address>, b: Seq<Address>)
    ensures
        listed(s, a + b) == listed(s, a) + listed(s, b),
{
    Seq::filter_distributes_over_add(a, b, |investor: Address| s.allowlisted(investor));
}

/// The contract tells pages of the investors in the order of their first deposits, and of the
/// allowlist those still on it; and how many these are in all.
pub proof fn lemma_pages_are_told(
    env: &ContractEnv,
    start: u32,
    limit: u32,
    investors: Vec<Address>,
    admitted: Vec<Address>,
    count: u32,
)
    requires
        call_ensures(LiquifactEscrow::get_investors, (env, start, limit), investors),
        call_ensures(LiquifactEscrow::get_allowlisted_investors, (env, start, limit), admitted),
        call_ensures(LiquifactEscrow::get_allowlisted_investors_count, (env,), count),
    ensures
        investors@ == page(env@.storage.investor_index, start, limit),
        admitted@ == listed(env@.storage, page(env@.storage.allowlist_index, start, limit)),
        count == listed(env@.storage, env@.storage.allowlist_index).len(),
{
}

// ---------------------------------------------------------------------------------------------
// Overviews
// ---------------------------------------------------------------------------------------------

/// The overview tells the same as the single reads.
pub proof fn lemma_summary_agrees_with_the_reads(
    env: &ContractEnv,
    r: Result<EscrowSummary, Refusal>,
    locked: Result<bool, Refusal>,
    held: bool,
    listing: bool,
    count: u32,
    version: u32,
)
    requires
        env@.storage.attestation_append_log.len() <= u32::MAX,
        call_ensures(LiquifactEscrow::get_escrow_summary, (env,), r),
        call_ensures(LiquifactEscrow::has_maturity_lock, (env,), locked),
        call_ensures(LiquifactEscrow::get_legal_hold, (env,), held),
        call_ensures(LiquifactEscrow::is_allowlist_active, (env,), listing),
        call_ensures(LiquifactEscrow::get_unique_funder_count, (env,), count),
        call_ensures(LiquifactEscrow::get_version, (env,), version),
    ensures
        r is Ok <==> env.storage.escrow is Some,
        r matches Err(why) ==> why == Refusal::Error(EscrowError::EscrowNotInitialized),
        r matches Ok(told) ==> {
            &&& Some(told.escrow) == env.storage.escrow
            &&& Ok::<bool, Refusal>(told.has_maturity_lock) == locked
            &&& told.legal_hold == held
            &&& told.is_allowlist_active == listing
            &&& told.unique_funder_count == count
            &&& told.schema_version == version
            &&& told.has_primary_attestation <==> env.storage.primary_attestation_hash is Some
            &&& told.attestation_log_length == env@.storage.attestation_append_log.len()
            &&& env.storage.funding_close_snapshot matches Some(snapshot)
                ==> told.funding_close_snapshot == EscrowCloseSnapshot::Present(snapshot)
            &&& env.storage.funding_close_snapshot is None ==> told.funding_close_snapshot
                == EscrowCloseSnapshot::Absent
            &&& env.storage.sme_collateral_pledge matches Some(pledge)
                ==> told.sme_collateral_commitment == CollateralCommitmentSnapshot::Present(pledge)
            &&& env.storage.sme_collateral_pledge is None ==> told.sme_collateral_commitment
                == CollateralCommitmentSnapshot::Absent
        },
{
    assert(r == if_initialized(env@.storage, summary(env@.storage)));
}

/// Whether settlement can go ahead is told alike by both reads. It can where the escrow is funded,
/// neither paused nor on hold, and the clock has come to its maturity.
pub proof fn lemma_readiness_is_told(
    env: &ContractEnv,
    r: Result<bool, Refusal>,
    view: Result<SettlementReadiness, Refusal>,
)
    requires
        call_ensures(LiquifactEscrow::is_settleable, (env,), r),
        call_ensures(LiquifactEscrow::get_settlement_readiness, (env,), view),
    ensures
        ({
            let stopped = env.storage.paused == Some(true) || env.storage.legal_hold == Some(true);
            &&& stopped ==> r == Ok::<bool, Refusal>(false)
            &&& !stopped && env.storage.escrow is None ==> r == Err::<bool, Refusal>(
                Refusal::Error(EscrowError::EscrowNotInitialized),
            )
            &&& env.storage.escrow is None ==> view == Err::<SettlementReadiness, Refusal>(
                Refusal::Error(EscrowError::EscrowNotInitialized),
            )
            &&& env.storage.escrow matches Some(escrow) ==> {
                let reached = env.ledger.timestamp >= escrow.maturity;
                let ready = !stopped && escrow.status == 1 && reached;
                &&& r == Ok::<bool, Refusal>(ready)
                &&& view matches Ok(told) && {
                    &&& told.is_settleable == ready
                    &&& told.ready_now == ready
                    &&& told.maturity_reached == reached
                    &&& told.legal_hold_active <==> env.storage.legal_hold == Some(true)
                }
            }
        }),
{
}

/// What an investor is owed, and what they could claim now, are told by the rules for these.
pub proof fn lemma_payouts_are_told(
    env: &ContractEnv,
    investor: Address,
    owed: Result<i128, Refusal>,
    claimable: Result<i128, Refusal>,
    distributed: i128,
)
    requires
        call_ensures(LiquifactEscrow::compute_investor_payout, (env, investor), owed),
        call_ensures(LiquifactEscrow::get_claimable_payout, (env, investor), claimable),
        call_ensures(LiquifactEscrow::get_distributed_principal, (env,), distributed),
    ensures
        owed == crate::settlement::investor_payout(env@.storage, investor),
        claimable == crate::settlement::claimable_payout(env@, investor),
        env.storage.distributed_principal matches Some(stored) ==> distributed == stored,
        env.storage.distributed_principal is None ==> distributed == 0,
{
}

/// The reconciliation is told where there is an escrow and a token, by the rule for it.
pub proof fn lemma_reconciliation_is_told(
    env: &ContractEnv,
    r: Result<ReconciliationView, Refusal>,
)
    requires
        call_ensures(LiquifactEscrow::get_reconciliation, (env,), r),
    ensures
        env.storage.escrow is None ==> r == Err::<ReconciliationView, Refusal>(
            Refusal::Error(EscrowError::EscrowNotInitialized),
        ),
        env.storage.escrow is Some && env.storage.funding_token is None ==> r == Err::<
            ReconciliationView,
            Refusal,
        >(Refusal::Error(EscrowError::FundingTokenNotSet)),
        env.storage.escrow is Some && env.storage.funding_token is Some ==> r == Ok::<
            ReconciliationView,
            Refusal,
        >(crate::settlement::reconciliation(env@)),
{
}

// ---------------------------------------------------------------------------------------------
// Lifetimes
// ---------------------------------------------------------------------------------------------

/// The request to keep something alive for at least 3600 ledgers more.
pub open spec fn kept_alive(target: TtlTarget) -> Effect {
    Effect::ExtendTtl(TtlExtension { target, threshold: 3600, extend_to: 3600 })
}

/// The entries of each investor are kept alive in the order in which the investors were named: five
/// of them, of admission, contribution, yield, lock and claim.
pub proof fn lemma_investors_are_kept_alive(investors: Seq<Address>, n: nat, at: int)
    requires
        n <= investors.len(),
    ensures
        extend_investors(investors, n).len() == 5 * n,
        0 <= at < n ==> {
            let asked = extend_investors(investors, n);
            let investor = investors[at];
            &&& asked[5 * at] == kept_alive(
                TtlTarget::Persistent(DataKey::InvestorAllowlisted(investor)),
            )
            &&& asked[5 * at + 1] == kept_alive(
                TtlTarget::Persistent(DataKey::InvestorContribution(investor)),
            )
            &&& asked[5 * at + 2] == kept_alive(
                TtlTarget::Persistent(DataKey::InvestorEffectiveYield(investor)),
            )
            &&& asked[5 * at + 3] == kept_alive(
                TtlTarget::Persistent(DataKey::InvestorClaimNotBefore(investor)),
            )
            &&& asked[5 * at + 4] == kept_alive(
                TtlTarget::Persistent(DataKey::InvestorClaimed(investor)),
            )
        },
    decreases n,
{
    if n > 0 {
        lemma_investors_are_kept_alive(investors, (n - 1) as nat, at);
    }
}

/// Keeping alive asks for the contract itself first, whoever is named, and then for the entries of
/// those who are. What is stored stays.
pub proof fn lemma_contract_is_kept_alive(e: EnvView, investors: Seq<Address>)
    ensures
        ({
            let after = bump_ttl_post(e, investors);
            let n = e.effects.len() as int;
            &&& after.effects.len() == n + 1 + 5 * investors.len()
            &&& after.effects.take(n) == e.effects
            &&& after.effects[n] == kept_alive(TtlTarget::Instance)
            &&& after.effects.skip(n + 1) == extend_investors(investors, investors.len())
            &&& after == EnvView { effects: after.effects, ..e }
        }),
{
    lemma_investors_are_kept_alive(investors, investors.len(), -1);
    let after = bump_ttl_post(e, investors);
    let n = e.effects.len() as int;
    assert(after.effects.take(n) =~= e.effects);
    assert(after.effects.skip(n + 1) =~= extend_investors(investors, investors.len()));
}

// ---------------------------------------------------------------------------------------------
// The token for trying out
// ---------------------------------------------------------------------------------------------

/// Who never took part in a transfer has the balance that everybody starts with.
pub proof fn lemma_balances_start_alike(token: &DefaultMockToken, who: Address, balance: i128)
    requires
        call_ensures(DefaultMockToken::balance, (token, who), balance),
    ensures
        token.balances@.contains_key(who) ==> balance == token.balances@[who],
        !token.balances@.contains_key(who) ==> balance == 100_000_000_000_000,
        balance == balance_of(token.balances@, who),
{
}

/// A transfer between two takes from the one what it gives to the other, and touches nobody else. A
/// transfer to oneself adds the amount.
pub proof fn lemma_transfer_moves_balances(
    token: &mut DefaultMockToken,
    from: Address,
    to: Address,
    amount: i128,
    other: Address,
)
    requires
        call_ensures(DefaultMockToken::transfer, (token, from, to, amount), ()),
        i128::MIN <= balance_of(old(token).balances@, from) - amount <= i128::MAX,
        i128::MIN <= balance_of(old(token).balances@, to) + amount <= i128::MAX,
    ensures
        ({
            let before = old(token).balances@;
            let after = final(token).balances@;
            &&& from != to ==> balance_of(after, from) == balance_of(before, from) - amount
            &&& balance_of(after, to) == balance_of(before, to) + amount
            &&& other != from && other != to ==> balance_of(after, other) == balance_of(
                before,
                other,
            )
        }),
{
}

} // verus!
