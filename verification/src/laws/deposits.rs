//! Who may deposit how much, what a deposit earns, and what it leaves behind.
use crate::env::{Effect, EnvView, StorageView, TokenTransfer};
use crate::errors::{EscrowError, Refusal};
use crate::events::{EscrowFunded, Event};
use crate::funding::{
    batch_amount_fault, batch_screening, close_snapshot, credited, deposit_amount_fault,
    deposit_refusal, deposit_yield, entry_post, entry_refusal, fund_batch_post, fund_batch_refusal,
    fund_post, fund_refusal, funded_in_turn, funder_count_fits, DepositKind,
};
use crate::laws::books::{amount_sum, amount_sum_of, lemma_batch_credits_every_entry};
use crate::laws::entries::{asks_for, says};
use crate::laws::lifecycle::lemma_deposits_frame;
use crate::tiers::{
    best_tier, commitment_yield, first_tier_fault, lemma_best_tier_is_highest, tier_fault,
    tier_table_fault,
};
use crate::types::{FundingCloseSnapshot, InvoiceEscrow, YieldTier};
use crate::values::Address;
use vstd::prelude::*;

verus! {

// ---------------------------------------------------------------------------------------------
// The ladder of tiers
// ---------------------------------------------------------------------------------------------

/// A commitment earns the highest yield among the base yield and all tiers whose lock it reaches in
/// full. It is matched with the lock of the first such tier that pays that yield, and with none
/// where the base yield stands.
pub proof fn lemma_commitment_earns_the_best_tier(
    tiers: Seq<YieldTier>,
    base_yield: i64,
    lock: u64,
)
    requires
        lock > 0,
    ensures
        ({
            let (earned, matched) = commitment_yield(Some(tiers), base_yield, lock);
            &&& earned >= base_yield
            &&& forall|i: int|
                0 <= i < tiers.len() && (#[trigger] tiers[i]).min_lock_secs <= lock ==> earned
                    >= tiers[i].yield_bps
            &&& earned == base_yield ==> matched == 0
            &&& earned > base_yield ==> exists|i: int|
                0 <= i < tiers.len() && (#[trigger] tiers[i]).min_lock_secs <= lock
                    && tiers[i].yield_bps == earned && tiers[i].min_lock_secs == matched
                    && forall|j: int|
                    0 <= j < i && (#[trigger] tiers[j]).min_lock_secs <= lock
                        ==> tiers[j].yield_bps < earned
        }),
{
    lemma_best_tier_is_highest(tiers, base_yield, lock, tiers.len());
    let (earned, matched) = best_tier(tiers, base_yield, lock, tiers.len());
    if earned > base_yield {
        let i = choose|i: int|
            {
                &&& 0 <= i < tiers.len()
                &&& lock >= (#[trigger] tiers[i]).min_lock_secs
                &&& tiers[i] == (YieldTier { min_lock_secs: matched, yield_bps: earned })
                &&& forall|j: int|
                    0 <= j < i && lock >= (#[trigger] tiers[j]).min_lock_secs ==> tiers[j].yield_bps
                        < earned
            };
        assert(0 <= i < tiers.len() && tiers[i].min_lock_secs <= lock && tiers[i].yield_bps
            == earned && tiers[i].min_lock_secs == matched);
    }
}

/// Whoever locks for at least the time of a tier earns at least what that tier pays.
pub proof fn lemma_reached_tier_is_paid(
    tiers: Seq<YieldTier>,
    base_yield: i64,
    lock: u64,
    at: int,
)
    requires
        0 <= at < tiers.len(),
        tiers[at].min_lock_secs <= lock,
        lock > 0,
    ensures
        commitment_yield(Some(tiers), base_yield, lock).0 >= tiers[at].yield_bps,
{
    lemma_commitment_earns_the_best_tier(tiers, base_yield, lock);
}

/// Without a ladder, or without a lock, the base yield is earned and nothing is matched.
pub proof fn lemma_no_commitment_earns_the_base(
    tiers: Option<Seq<YieldTier>>,
    base_yield: i64,
    lock: u64,
)
    requires
        tiers is None || lock == 0 || tiers->0.len() == 0,
    ensures
        commitment_yield(tiers, base_yield, lock) == (base_yield, 0u64),
{
}

/// In a ladder that was accepted, the tier that is earned is the last one that the lock reaches,
/// or an earlier one that pays as much.
pub proof fn lemma_last_reached_tier_pays(
    tiers: Seq<YieldTier>,
    base_yield: i64,
    lock: u64,
    last: int,
)
    requires
        tier_table_fault(Some(tiers), base_yield) is None,
        0 <= last < tiers.len(),
        0 < lock,
        tiers[last].min_lock_secs <= lock,
        forall|i: int| last < i < tiers.len() ==> (#[trigger] tiers[i]).min_lock_secs > lock,
    ensures
        commitment_yield(Some(tiers), base_yield, lock).0 == tiers[last].yield_bps,
{
    lemma_commitment_earns_the_best_tier(tiers, base_yield, lock);
    crate::tiers::lemma_accepted_ladder_rises(tiers, base_yield, tiers.len());
}

/// Whether tier `i` fits into the ladder below it.
pub open spec fn tier_fits(tiers: Seq<YieldTier>, base_yield: i64, i: int) -> bool {
    &&& 0 <= tiers[i].yield_bps <= 10_000
    &&& tiers[i].yield_bps >= base_yield
    &&& i > 0 ==> tiers[i].min_lock_secs > tiers[i - 1].min_lock_secs
    &&& i > 0 ==> tiers[i].yield_bps >= tiers[i - 1].yield_bps
}

proof fn lemma_tier_fault_is_the_first(tiers: Seq<YieldTier>, base_yield: i64, n: nat)
    requires
        n <= tiers.len(),
    ensures
        first_tier_fault(tiers, base_yield, n) is None <==> forall|i: int|
            #![trigger tiers[i]]
            0 <= i < n ==> tier_fits(tiers, base_yield, i),
        first_tier_fault(tiers, base_yield, n) is Some ==> exists|i: int|
            #![trigger tiers[i]]
            0 <= i < n && first_tier_fault(tiers, base_yield, n) == tier_fault(
                tiers,
                i,
                base_yield,
            ) && !tier_fits(tiers, base_yield, i) && forall|j: int|
                #![trigger tiers[j]]
                0 <= j < i ==> tier_fits(tiers, base_yield, j),
    decreases n,
{
    if n > 0 {
        lemma_tier_fault_is_the_first(tiers, base_yield, (n - 1) as nat);
        let last = tiers[n - 1];
        assert(tier_fits(tiers, base_yield, n - 1) <==> tier_fault(tiers, n - 1, base_yield)
            is None);
        if first_tier_fault(tiers, base_yield, (n - 1) as nat) is None {
            assert(forall|j: int|
                #![trigger tiers[j]]
                0 <= j < n - 1 ==> tier_fits(tiers, base_yield, j));
        }
    }
}

/// A ladder is accepted exactly where every tier pays between the base yield and the whole, asks for
/// more time than the one before it, and pays no less.
pub proof fn lemma_ladder_is_accepted(tiers: Option<Seq<YieldTier>>, base_yield: i64)
    ensures
        tiers is None ==> tier_table_fault(tiers, base_yield) is None,
        tiers matches Some(table) ==> (tier_table_fault(tiers, base_yield) is None <==> forall|i: int|
            #![trigger table[i]]
            0 <= i < table.len() ==> tier_fits(table, base_yield, i)),
{
    if let Some(table) = tiers {
        lemma_tier_fault_is_the_first(table, base_yield, table.len());
    }
}

/// The first tier that does not fit is the reason of a refusal, and what is wrong with it is named:
/// its yield out of bounds, its yield below the base, its lock not longer, its yield lower.
pub proof fn lemma_ladder_fault_is_named(tiers: Seq<YieldTier>, base_yield: i64, i: int)
    requires
        0 <= i < tiers.len(),
        forall|j: int| #![trigger tiers[j]] 0 <= j < i ==> tier_fits(tiers, base_yield, j),
        !tier_fits(tiers, base_yield, i),
    ensures
        ({
            let fault = tier_table_fault(Some(tiers), base_yield);
            let pays = tiers[i].yield_bps;
            let bounded = 0 <= pays <= 10_000;
            let longer = i == 0 || tiers[i].min_lock_secs > tiers[i - 1].min_lock_secs;
            &&& !bounded ==> fault == Some(EscrowError::TierYieldOutOfRange)
            &&& bounded && pays < base_yield ==> fault == Some(EscrowError::TierYieldBelowBase)
            &&& bounded && pays >= base_yield && !longer ==> fault == Some(
                EscrowError::TierLockNotIncreasing,
            )
            &&& bounded && pays >= base_yield && longer ==> fault == Some(
                EscrowError::TierYieldNotNonDecreasing,
            )
        }),
{
    lemma_tier_fault_is_the_first(tiers, base_yield, tiers.len());
    let fault = first_tier_fault(tiers, base_yield, tiers.len());
    assert(fault is Some);
    let k = choose|k: int|
        #![trigger tiers[k]]
        0 <= k < tiers.len() && fault == tier_fault(tiers, k, base_yield) && !tier_fits(
            tiers,
            base_yield,
            k,
        ) && forall|j: int|
            #![trigger tiers[j]]
            0 <= j < k ==> tier_fits(tiers, base_yield, j);
    assert(tiers[k] == tiers[k] && tiers[i] == tiers[i]);
    assert(k == i);
}

// ---------------------------------------------------------------------------------------------
// One deposit
// ---------------------------------------------------------------------------------------------

/// Whether the commitment of a deposit stands: it is the first deposit of the investor, and the
/// lock, if any, ends within the clock's range and not after maturity.
pub open spec fn commitment_stands(e: EnvView, investor: Address, lock: u64) -> bool {
    let maturity = e.storage.escrow->0.maturity;
    &&& e.storage.contribution(investor) == 0
    &&& lock > 0 ==> e.ledger.timestamp + lock <= u64::MAX
    &&& lock > 0 && maturity > 0 ==> e.ledger.timestamp + lock <= maturity
}

/// A deposit is carried out exactly where the investor authorized it, the amount is positive and
/// not below the floor, the escrow is set up, open, neither paused nor on hold, the deadline has
/// not passed, the investor is admitted, no cap is exceeded, nothing overflows, and the commitment,
/// if any, stands.
pub proof fn lemma_deposit_is_accepted(
    e: EnvView,
    investor: Address,
    amount: i128,
    kind: DepositKind,
)
    ensures
        fund_refusal(e, investor, amount, kind) is None <==> {
            let s = e.storage;
            let held = s.contribution(investor);
            &&& e.authorized.contains(investor)
            &&& amount > 0
            &&& amount >= s.floor()
            &&& s.escrow is Some
            &&& s.paused != Some(true)
            &&& s.legal_hold != Some(true)
            &&& s.escrow->0.status == 0
            &&& s.funding_deadline matches Some(deadline) ==> e.ledger.timestamp <= deadline
            &&& s.allowlist_active == Some(true) ==> s.allowlisted(investor)
            &&& held + amount <= i128::MAX
            &&& s.max_per_investor_cap matches Some(cap) ==> held + amount <= cap
            &&& held == 0 ==> (s.max_unique_investors_cap matches Some(cap) ==> s.funders() < cap)
            &&& kind matches DepositKind::Committed(lock) ==> commitment_stands(e, investor, lock)
            &&& s.escrow->0.funded_amount + amount <= i128::MAX
            &&& s.funding_token is Some
        },
{
}

/// What stands in the way of a deposit, in the order in which it is named. A deposit that follows
/// in a batch is not asked whether the escrow is still open.
pub proof fn lemma_deposit_is_answered(
    e: EnvView,
    investor: Address,
    amount: i128,
    kind: DepositKind,
    gated: bool,
)
    ensures
        ({
            let s = e.storage;
            let r = deposit_refusal(e, investor, amount, kind, gated);
            let escrow = s.escrow->0;
            let held = s.contribution(investor);
            let asked = e.authorized.contains(investor);
            let sized = asked && amount > 0 && amount >= s.floor();
            let running = sized && s.escrow is Some && s.paused != Some(true) && s.legal_hold
                != Some(true);
            let open = running && (gated ==> escrow.status == 0);
            let late = s.funding_deadline is Some && e.ledger.timestamp > s.funding_deadline->0;
            let stranger = s.allowlist_active == Some(true) && !s.allowlisted(investor);
            let admitted = open && !late && !stranger;
            let adds = admitted && held + amount <= i128::MAX;
            let over = s.max_per_investor_cap is Some && held + amount
                > s.max_per_investor_cap->0;
            let full = held == 0 && s.max_unique_investors_cap is Some && s.funders()
                >= s.max_unique_investors_cap->0;
            let capped = adds && !over && !full;
            let plain = capped && (kind matches DepositKind::Committed(lock) ==> commitment_stands(
                e,
                investor,
                lock,
            ));
            &&& !asked ==> asks_for(r, investor)
            &&& asked && amount <= 0 ==> says(r, EscrowError::FundingAmountNotPositive)
            &&& asked && 0 < amount < s.floor() ==> says(
                r,
                EscrowError::FundingBelowMinContribution,
            )
            &&& sized && s.escrow is None ==> says(r, EscrowError::EscrowNotInitialized)
            &&& sized && s.escrow is Some && s.paused == Some(true) ==> says(
                r,
                EscrowError::PausedBlocksFunding,
            )
            &&& sized && s.escrow is Some && s.paused != Some(true) && s.legal_hold == Some(true)
                ==> says(r, EscrowError::LegalHoldBlocksFunding)
            &&& running && gated && escrow.status != 0 ==> says(
                r,
                EscrowError::EscrowNotOpenForFunding,
            )
            &&& open && late ==> says(r, EscrowError::FundingDeadlinePassed)
            &&& open && !late && stranger ==> says(r, EscrowError::InvestorNotAllowlisted)
            &&& admitted && held + amount > i128::MAX ==> says(
                r,
                EscrowError::InvestorContributionOverflow,
            )
            &&& adds && over ==> says(r, EscrowError::InvestorContributionExceedsCap)
            &&& adds && !over && full ==> says(r, EscrowError::UniqueInvestorCapReached)
            &&& capped ==> (kind matches DepositKind::Committed(lock) ==> {
                let end = e.ledger.timestamp + lock;
                &&& held != 0 ==> says(r, EscrowError::TieredSecondDeposit)
                &&& held == 0 && lock > 0 && end > u64::MAX ==> says(
                    r,
                    EscrowError::InvestorClaimTimeOverflow,
                )
                &&& held == 0 && lock > 0 && end <= u64::MAX && escrow.maturity > 0 && end
                    > escrow.maturity ==> says(r, EscrowError::CommitmentLockExceedsMaturity)
            })
            &&& plain && escrow.funded_amount + amount > i128::MAX ==> says(
                r,
                EscrowError::FundedAmountOverflow,
            )
            &&& plain && escrow.funded_amount + amount <= i128::MAX && s.funding_token is None
                ==> says(r, EscrowError::FundingTokenNotSet)
            &&& plain && escrow.funded_amount + amount <= i128::MAX && s.funding_token is Some
                ==> r is None
        }),
{
}

/// A deposit credits the investor and the escrow with the amount, and moves it from the investor to
/// the contract. The escrow is funded exactly where its target is reached. What else the escrow
/// says, and everybody else's contribution, stays.
pub proof fn lemma_deposit_is_credited(
    e: EnvView,
    investor: Address,
    amount: i128,
    kind: DepositKind,
)
    requires
        fund_refusal(e, investor, amount, kind) is None,
    ensures
        ({
            let after = fund_post(e, investor, amount, kind);
            let s = after.storage;
            let old_s = e.storage;
            let escrow = old_s.escrow->0;
            let filled = escrow.funded_amount + amount >= escrow.funding_target;
            &&& s.escrow == Some(credited(escrow, amount))
            &&& s.escrow->0.funded_amount == escrow.funded_amount + amount
            &&& s.escrow->0.status == (if filled {
                1u32
            } else {
                0u32
            })
            &&& s.escrow->0 == InvoiceEscrow {
                funded_amount: s.escrow->0.funded_amount,
                status: s.escrow->0.status,
                ..escrow
            }
            &&& s.contribution(investor) == old_s.contribution(investor) + amount
            &&& forall|a: Address|
                a != investor ==> #[trigger] s.contribution(a) == old_s.contribution(a)
            &&& after.effects.drop_last() == e.effects.push(
                Effect::Transfer(
                    TokenTransfer {
                        token: old_s.funding_token->0,
                        from: investor,
                        to: e.contract,
                        amount,
                    },
                ),
            )
            &&& after.effects.len() == e.effects.len() + 2
            &&& after == EnvView {
                effects: after.effects,
                storage: StorageView {
                    escrow: s.escrow,
                    funding_close_snapshot: s.funding_close_snapshot,
                    unique_funder_count: s.unique_funder_count,
                    investor_index: s.investor_index,
                    investor_contribution: s.investor_contribution,
                    investor_effective_yield: s.investor_effective_yield,
                    investor_claim_not_before: s.investor_claim_not_before,
                    ..old_s
                },
                ..e
            }
        }),
{
    let after = fund_post(e, investor, amount, kind);
    assert(after.effects.drop_last() =~= e.effects.push(after.effects[e.effects.len() as int]));
}

/// The close snapshot is taken by the deposit that reaches the target, and by no other: with what
/// the escrow holds then, its target and the time. One that was taken before stays.
pub proof fn lemma_deposit_closes_at_the_target(
    e: EnvView,
    investor: Address,
    amount: i128,
    kind: DepositKind,
)
    requires
        fund_refusal(e, investor, amount, kind) is None,
    ensures
        ({
            let s = fund_post(e, investor, amount, kind).storage;
            let old_s = e.storage;
            let escrow = old_s.escrow->0;
            let filled = escrow.funded_amount + amount >= escrow.funding_target;
            &&& !filled || old_s.funding_close_snapshot is Some ==> s.funding_close_snapshot
                == old_s.funding_close_snapshot
            &&& filled && old_s.funding_close_snapshot is None ==> s.funding_close_snapshot == Some(
                FundingCloseSnapshot {
                    total_principal: (escrow.funded_amount + amount) as i128,
                    funding_target: escrow.funding_target,
                    closed_at_ledger_timestamp: e.ledger.timestamp,
                    closed_at_ledger_sequence: e.ledger.sequence,
                },
            )
        }),
{
}

/// A snapshot says what the escrow holds, its target, and the time at which it is taken.
pub proof fn lemma_snapshot_says_what_is_held(e: EnvView, escrow: InvoiceEscrow)
    ensures
        ({
            let snapshot = close_snapshot(e, escrow);
            &&& snapshot.total_principal == escrow.funded_amount
            &&& snapshot.funding_target == escrow.funding_target
            &&& snapshot.closed_at_ledger_timestamp == e.ledger.timestamp
            &&& snapshot.closed_at_ledger_sequence == e.ledger.sequence
        }),
{
}

/// The first deposit fixes the investor's terms: without a commitment the base yield and no lock;
/// with one the yield that the ladder offers for the whole lock, and a claim not before the lock
/// has passed. The investor is counted and put last in the index. Later deposits change none of
/// this, and nobody else's terms change.
pub proof fn lemma_first_deposit_fixes_the_terms(
    e: EnvView,
    investor: Address,
    amount: i128,
    kind: DepositKind,
)
    requires
        fund_refusal(e, investor, amount, kind) is None,
        funder_count_fits(e.storage, investor),
    ensures
        ({
            let s = fund_post(e, investor, amount, kind).storage;
            let old_s = e.storage;
            let base = old_s.escrow->0.yield_bps;
            let first = old_s.contribution(investor) == 0;
            &&& first ==> {
                &&& s.investor_effective_yield.contains_key(investor)
                &&& s.funders() == old_s.funders() + 1
                &&& s.investor_index == old_s.investor_index.push(investor)
                &&& match kind {
                    DepositKind::Simple => {
                        &&& s.investor_effective_yield[investor] == base
                        &&& s.claim_not_before(investor) == 0
                    },
                    DepositKind::Committed(lock) => {
                        &&& s.investor_effective_yield[investor] == commitment_yield(
                            old_s.yield_tier_table,
                            base,
                            lock,
                        ).0
                        &&& lock == 0 ==> s.claim_not_before(investor) == 0
                        &&& lock > 0 ==> s.claim_not_before(investor) == e.ledger.timestamp + lock
                    },
                }
            }
            &&& !first ==> {
                &&& kind is Simple
                &&& s.investor_effective_yield == old_s.investor_effective_yield
                &&& s.investor_claim_not_before == old_s.investor_claim_not_before
                &&& s.investor_index == old_s.investor_index
                &&& s.unique_funder_count == old_s.unique_funder_count
            }
            &&& forall|a: Address|
                a != investor ==> #[trigger] s.claim_not_before(a) == old_s.claim_not_before(a)
            &&& forall|a: Address|
                a != investor ==> (#[trigger] s.investor_effective_yield.contains_key(a)
                    == old_s.investor_effective_yield.contains_key(a))
                    && s.investor_effective_yield[a] == old_s.investor_effective_yield[a]
        }),
{
}

/// A committed first deposit records at least the yield of every tier whose lock the commitment
/// reaches, and one that is the base yield or that of such a tier.
pub proof fn lemma_committed_deposit_earns_the_best_tier(
    e: EnvView,
    investor: Address,
    amount: i128,
    lock: u64,
)
    requires
        fund_refusal(e, investor, amount, DepositKind::Committed(lock)) is None,
        e.storage.yield_tier_table is Some,
        lock > 0,
    ensures
        ({
            let tiers = e.storage.yield_tier_table->0;
            let s = fund_post(e, investor, amount, DepositKind::Committed(lock)).storage;
            let earned = s.investor_effective_yield[investor];
            &&& earned >= e.storage.escrow->0.yield_bps
            &&& forall|i: int|
                0 <= i < tiers.len() && (#[trigger] tiers[i]).min_lock_secs <= lock ==> earned
                    >= tiers[i].yield_bps
            &&& earned == e.storage.escrow->0.yield_bps || exists|i: int|
                0 <= i < tiers.len() && (#[trigger] tiers[i]).min_lock_secs <= lock
                    && tiers[i].yield_bps == earned
        }),
{
    lemma_commitment_earns_the_best_tier(
        e.storage.yield_tier_table->0,
        e.storage.escrow->0.yield_bps,
        lock,
    );
}

/// A deposit is announced with what it adds, what the escrow holds then and its status, the yield
/// that it earns, and the lock of the tier that a commitment was matched with.
pub proof fn lemma_deposit_is_announced(
    e: EnvView,
    investor: Address,
    amount: i128,
    kind: DepositKind,
)
    requires
        fund_refusal(e, investor, amount, kind) is None,
    ensures
        ({
            let after = fund_post(e, investor, amount, kind);
            let base = e.storage.escrow->0.yield_bps;
            let offer = match kind {
                DepositKind::Simple => (base, 0u64),
                DepositKind::Committed(lock) => commitment_yield(
                    e.storage.yield_tier_table,
                    base,
                    lock,
                ),
            };
            let earned = if e.storage.contribution(investor) == 0 {
                offer.0
            } else if e.storage.investor_effective_yield.contains_key(investor) {
                e.storage.investor_effective_yield[investor]
            } else {
                base
            };
            &&& deposit_yield(e, investor, kind) == earned
            &&& after.effects.last() == Effect::Publish(
                Event::EscrowFunded(
                    EscrowFunded {
                        name: "funded",
                        invoice_id: e.storage.escrow->0.invoice_id,
                        investor,
                        amount,
                        funded_amount: after.storage.escrow->0.funded_amount,
                        status: after.storage.escrow->0.status,
                        investor_effective_yield_bps: earned,
                        tier_lock_secs: offer.1,
                    },
                ),
            )
        }),
{
}

/// The counter has room for whoever is counted already, and for one more as long as it is not at
/// its end.
pub proof fn lemma_counter_has_room(s: StorageView, investor: Address)
    ensures
        funder_count_fits(s, investor) <==> s.contribution(investor) != 0 || s.funders() < u32::MAX,
{
}

// ---------------------------------------------------------------------------------------------
// Batches
// ---------------------------------------------------------------------------------------------

/// An amount is proper where it is positive and not below the floor.
pub proof fn lemma_proper_amounts(s: StorageView, amount: i128)
    ensures
        deposit_amount_fault(s, amount) is None <==> amount > 0 && amount >= s.floor(),
        amount <= 0 ==> deposit_amount_fault(s, amount) == Some(
            EscrowError::FundingAmountNotPositive,
        ),
        0 < amount < s.floor() ==> deposit_amount_fault(s, amount) == Some(
            EscrowError::FundingBelowMinContribution,
        ),
{
}

proof fn lemma_first_improper_amount(s: StorageView, entries: Seq<(Address, i128)>, k: nat, n: nat)
    requires
        k < n <= entries.len(),
        forall|j: int| 0 <= j < k ==> (#[trigger] entries[j]).1 > 0 && entries[j].1 >= s.floor(),
        !(entries[k as int].1 > 0 && entries[k as int].1 >= s.floor()),
    ensures
        batch_amount_fault(s, entries, k) is None,
        batch_amount_fault(s, entries, n) == deposit_amount_fault(s, entries[k as int].1),
    decreases n,
{
    lemma_proper_amounts_pass(s, entries, k);
    if k + 1 < n {
        lemma_first_improper_amount(s, entries, k, (n - 1) as nat);
    }
}

proof fn lemma_proper_amounts_pass(s: StorageView, entries: Seq<(Address, i128)>, n: nat)
    requires
        n <= entries.len(),
        forall|j: int| 0 <= j < n ==> (#[trigger] entries[j]).1 > 0 && entries[j].1 >= s.floor(),
    ensures
        batch_amount_fault(s, entries, n) is None,
    decreases n,
{
    if n > 0 {
        lemma_proper_amounts_pass(s, entries, (n - 1) as nat);
        assert(entries[n - 1].1 > 0);
    }
}

/// A batch is turned down as a whole where it is empty, where it holds more than fifty entries,
/// where an amount is not proper (the first such is named), or where there is no escrow.
pub proof fn lemma_batch_is_screened(e: EnvView, entries: Seq<(Address, i128)>)
    ensures
        entries.len() == 0 ==> says(
            batch_screening(e, entries),
            EscrowError::FundingBatchEmpty,
        ),
        entries.len() > 50 ==> says(
            batch_screening(e, entries),
            EscrowError::FundingBatchTooLarge,
        ),
        1 <= entries.len() <= 50 && (forall|j: int|
            0 <= j < entries.len() ==> (#[trigger] entries[j]).1 > 0 && entries[j].1
                >= e.storage.floor()) ==> {
            &&& e.storage.escrow is None ==> says(
                batch_screening(e, entries),
                EscrowError::EscrowNotInitialized,
            )
            &&& e.storage.escrow is Some ==> batch_screening(e, entries) is None
        },
        batch_screening(e, entries) is Some ==> fund_batch_refusal(e, entries) == batch_screening(
            e,
            entries,
        ),
{
    if forall|j: int|
        0 <= j < entries.len() ==> (#[trigger] entries[j]).1 > 0 && entries[j].1
            >= e.storage.floor() {
        lemma_proper_amounts_pass(e.storage, entries, entries.len());
    }
}

/// The first amount of a batch that is not proper is the one that the refusal is about.
pub proof fn lemma_first_improper_amount_is_named(
    e: EnvView,
    entries: Seq<(Address, i128)>,
    k: nat,
)
    requires
        k < entries.len() <= 50,
        forall|j: int|
            0 <= j < k ==> (#[trigger] entries[j]).1 > 0 && entries[j].1 >= e.storage.floor(),
    ensures
        entries[k as int].1 <= 0 ==> says(
            fund_batch_refusal(e, entries),
            EscrowError::FundingAmountNotPositive,
        ),
        0 < entries[k as int].1 < e.storage.floor() ==> says(
            fund_batch_refusal(e, entries),
            EscrowError::FundingBelowMinContribution,
        ),
{
    if !(entries[k as int].1 > 0 && entries[k as int].1 >= e.storage.floor()) {
        lemma_first_improper_amount(e.storage, entries, k, entries.len());
    }
}

/// An entry of a batch is a deposit without a commitment. Only the first is asked whether the escrow
/// is open.
pub proof fn lemma_entry_is_a_deposit(e: EnvView, entry: (Address, i128))
    ensures
        entry_refusal(e, entry, true) == fund_refusal(e, entry.0, entry.1, DepositKind::Simple),
        entry_refusal(e, entry, false) == deposit_refusal(
            e,
            entry.0,
            entry.1,
            DepositKind::Simple,
            false,
        ),
        entry_post(e, entry) == fund_post(e, entry.0, entry.1, DepositKind::Simple),
{
}

/// Each turn of a batch goes on from where the one before it ended.
pub proof fn lemma_batch_takes_turns(e: EnvView, entries: Seq<(Address, i128)>, n: nat)
    requires
        n < entries.len(),
    ensures
        funded_in_turn(e, entries, 0) == Ok::<EnvView, Refusal>(e),
        funded_in_turn(e, entries, n) matches Err(why) ==> funded_in_turn(e, entries, n + 1)
            == Err::<EnvView, Refusal>(why),
        funded_in_turn(e, entries, n) matches Ok(before) ==> {
            let refusal = entry_refusal(before, entries[n as int], n == 0);
            &&& refusal is Some ==> funded_in_turn(e, entries, n + 1) == Err::<EnvView, Refusal>(
                refusal->0,
            )
            &&& refusal is None ==> funded_in_turn(e, entries, n + 1) == Ok::<EnvView, Refusal>(
                entry_post(before, entries[n as int]),
            )
        },
{
}

/// A batch of allowed size and proper amounts ends with the first turn that is refused, and for its
/// reason; where none is, it leaves what the last turn leaves.
pub proof fn lemma_batch_ends_with_its_turns(e: EnvView, entries: Seq<(Address, i128)>)
    requires
        batch_screening(e, entries) is None,
    ensures
        funded_in_turn(e, entries, entries.len()) matches Err(why) ==> fund_batch_refusal(
            e,
            entries,
        ) == Some(why),
        funded_in_turn(e, entries, entries.len()) matches Ok(after) ==> fund_batch_refusal(
            e,
            entries,
        ) is None && fund_batch_post(e, entries) == after,
{
}

proof fn lemma_turns_move(e: EnvView, entries: Seq<(Address, i128)>, n: nat)
    requires
        n <= entries.len(),
        e.storage.escrow is Some,
        funded_in_turn(e, entries, n) is Ok,
    ensures
        ({
            let after = funded_in_turn(e, entries, n)->Ok_0;
            &&& after.effects.len() == e.effects.len() + 2 * n
            &&& after.effects.take(e.effects.len() as int) == e.effects
            &&& after.contract == e.contract
            &&& after.storage.funding_token == e.storage.funding_token
            &&& forall|k: int|
                0 <= k < n ==> #[trigger] after.effects[e.effects.len() + 2 * k]
                    == Effect::Transfer(
                    TokenTransfer {
                        token: e.storage.funding_token->0,
                        from: entries[k].0,
                        to: e.contract,
                        amount: entries[k].1,
                    },
                )
            &&& forall|k: int|
                0 <= k < n ==> (#[trigger] after.effects[e.effects.len() + 2 * k + 1]) is Publish
        }),
    decreases n,
{
    if n > 0 {
        lemma_turns_move(e, entries, (n - 1) as nat);
        let before = funded_in_turn(e, entries, (n - 1) as nat)->Ok_0;
        let after = funded_in_turn(e, entries, n)->Ok_0;
        let start = e.effects.len() as int;
        assert(after.effects.len() == before.effects.len() + 2);
        assert forall|i: int| 0 <= i < before.effects.len() implies #[trigger] after.effects[i]
            == before.effects[i] by {}
        assert(after.effects.take(start) =~= before.effects.take(start));
        assert forall|k: int| 0 <= k < n implies #[trigger] after.effects[start + 2 * k]
            == Effect::Transfer(
            TokenTransfer {
                token: e.storage.funding_token->0,
                from: entries[k].0,
                to: e.contract,
                amount: entries[k].1,
            },
        ) by {
            if k < n - 1 {
                assert(after.effects[start + 2 * k] == before.effects[start + 2 * k]);
            }
        }
        assert forall|k: int| 0 <= k < n implies (
        #[trigger] after.effects[start + 2 * k + 1]) is Publish by {
            if k < n - 1 {
                assert(after.effects[start + 2 * k + 1] == before.effects[start + 2 * k + 1]);
            }
        }
    }
}

/// A batch that is carried out moves each entry's amount from its investor to the contract, in
/// order and once, and announces each.
pub proof fn lemma_batch_moves_every_entry(e: EnvView, entries: Seq<(Address, i128)>)
    requires
        fund_batch_refusal(e, entries) is None,
    ensures
        ({
            let after = fund_batch_post(e, entries);
            let start = e.effects.len();
            &&& after.effects.len() == start + 2 * entries.len()
            &&& after.effects.take(start as int) == e.effects
            &&& forall|k: int|
                0 <= k < entries.len() ==> #[trigger] after.effects[start + 2 * k]
                    == Effect::Transfer(
                    TokenTransfer {
                        token: e.storage.funding_token->0,
                        from: entries[k].0,
                        to: e.contract,
                        amount: entries[k].1,
                    },
                )
            &&& forall|k: int|
                0 <= k < entries.len() ==> (#[trigger] after.effects[start + 2 * k + 1]) is Publish
        }),
{
    lemma_turns_move(e, entries, entries.len());
}

/// A batch that is carried out adds each investor's entries to that investor's contribution, and
/// all of them to the funded amount. Of the escrow only that and the status change; the terms of
/// those who had deposited before stay.
pub proof fn lemma_batch_is_credited(e: EnvView, entries: Seq<(Address, i128)>)
    requires
        fund_batch_refusal(e, entries) is None,
    ensures
        ({
            let s = fund_batch_post(e, entries).storage;
            let n = entries.len();
            &&& s.escrow->0.funded_amount == e.storage.escrow->0.funded_amount + amount_sum(
                entries,
                n,
            )
            &&& forall|a: Address| #[trigger]
                s.contribution(a) == e.storage.contribution(a) + amount_sum_of(entries, n, a)
            &&& s.escrow->0 == InvoiceEscrow {
                funded_amount: s.escrow->0.funded_amount,
                status: s.escrow->0.status,
                ..e.storage.escrow->0
            }
            &&& e.storage.escrow->0.status == 0
            &&& s.escrow->0.status == 0 || s.escrow->0.status == 1
        }),
{
    lemma_batch_credits_every_entry(e, entries, entries.len());
    lemma_deposits_frame(e, entries, entries.len());
}

} // verus!
