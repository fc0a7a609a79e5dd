//! Payouts after settlement.
use crate::book::{lemma_part_of_total, total};
use crate::env::{lookup, EnvView, StorageView};
use crate::errors::Refusal;
use crate::funding::{fund_post, fund_refusal, DepositKind};
use crate::payout::{
    gross_payout, lemma_payout_does_not_overflow, lemma_payout_returns_principal,
    lemma_payout_within_share, lemma_share_within_pool, settle_pool,
};
use crate::settlement::{
    claim_post, claim_refusal, claimable_payout, investor_payout, investor_yield, payment,
};
use crate::tiers::commitment_yield;
use crate::types::{MAX_INVOICE_AMOUNT, MAX_YIELD_BPS, STATUS_SETTLED};
use crate::validity::valid;
use crate::values::Address;
use vstd::prelude::*;

verus! {

/// The gross payouts of the investors of `index` together, at the principal `principal`.
pub open spec fn payout_sum(s: StorageView, principal: int, index: Seq<Address>) -> int
    decreases index.len(),
{
    if index.len() == 0 {
        0
    } else {
        payout_sum(s, principal, index.drop_last()) + gross_payout(
            s.contribution(index.last()) as int,
            principal,
            investor_yield(s, index.last()) as int,
        )
    }
}

proof fn lemma_payout_sum_within_share(
    s: StorageView,
    principal: int,
    index: Seq<Address>,
    highest_bps: int,
)
    requires
        principal > 0,
        forall|i: int|
            #![trigger index[i]]
            0 <= i < index.len() ==> s.contribution(index[i]) >= 0 && 0 <= investor_yield(
                s,
                index[i],
            ) <= highest_bps,
    ensures
        principal * payout_sum(s, principal, index) <= total(s.investor_contribution, index)
            * settle_pool(principal, highest_bps),
        payout_sum(s, principal, index) >= 0,
    decreases index.len(),
{
    let pool = settle_pool(principal, highest_bps);
    if index.len() > 0 {
        let rest = index.drop_last();
        assert forall|i: int|
            #![trigger rest[i]]
            0 <= i < rest.len() implies s.contribution(rest[i]) >= 0 && 0 <= investor_yield(
            s,
            rest[i],
        ) <= highest_bps by {
            assert(rest[i] == index[i]);
        }
        lemma_payout_sum_within_share(s, principal, rest, highest_bps);
        let last = index[index.len() - 1];
        let contribution = s.contribution(last) as int;
        lemma_payout_within_share(
            contribution,
            principal,
            investor_yield(s, last) as int,
            highest_bps,
        );
        let before = payout_sum(s, principal, rest);
        let paid = gross_payout(contribution, principal, investor_yield(s, last) as int);
        let held = total(s.investor_contribution, rest);
        assert(principal * (before + paid) <= (held + contribution) * pool) by (nonlinear_arith)
            requires
                principal * before <= held * pool,
                principal * paid <= contribution * pool,
        ;
    } else {
        assert(principal * 0 <= 0 * pool) by (nonlinear_arith);
    }
}

/// All payouts together never exceed the funded amount plus the coupon on it at the highest yield
/// that anyone has; what rounding leaves over stays in the contract. Where no batch went on after
/// the target was reached, the funded amount is the principal at closing.
pub proof fn lemma_payouts_stay_within_pool(s: StorageView, highest_bps: i64)
    requires
        valid(s),
        s.funding_close_snapshot is Some,
        forall|i: int|
            0 <= i < s.investor_index.len() ==> investor_yield(s, #[trigger] s.investor_index[i])
                <= highest_bps,
        0 <= highest_bps,
    ensures
        ({
            let principal = s.funding_close_snapshot->0.total_principal as int;
            let funded = s.escrow->0.funded_amount as int;
            let sum = payout_sum(s, principal, s.investor_index);
            &&& sum <= settle_pool(funded, highest_bps as int)
            &&& principal == funded ==> sum <= settle_pool(principal, highest_bps as int)
            &&& principal * sum <= funded * settle_pool(principal, highest_bps as int)
        }),
{
    reveal(valid);
    let principal = s.funding_close_snapshot->0.total_principal as int;
    let funded = s.escrow->0.funded_amount as int;
    let index = s.investor_index;
    let pool = settle_pool(principal, highest_bps as int);
    assert forall|i: int|
        #![trigger index[i]]
        0 <= i < index.len() implies s.contribution(index[i]) > 0 && 0 <= investor_yield(
        s,
        index[i],
    ) <= highest_bps by {
        assert(index.contains(index[i]));
        assert(s.investor_contribution.contains_key(index[i]));
        assert(s.investor_effective_yield.contains_key(index[i]));
        if s.contribution(index[i]) == 0 {
            assert(s.refunded(index[i]));
        }
    }
    if index.len() == 0 {
        assert(principal == 0 && funded == 0);
        assert(principal * highest_bps == 0 && principal * 0 == 0 && funded * pool == 0)
            by (nonlinear_arith)
            requires
                principal == 0,
                funded == 0,
        ;
    } else {
        assert(index.contains(index[0]));
        lemma_investor_holds_a_part(s, index[0]);
        lemma_payout_sum_within_share(s, principal, index, highest_bps as int);
        lemma_share_within_pool(
            principal,
            funded,
            highest_bps as int,
            payout_sum(s, principal, index),
        );
    }
}

/// What an investor of a closed escrow contributed is positive and part of the funded amount, the
/// principal at closing is positive, and the investor's yield is in its bounds.
proof fn lemma_investor_holds_a_part(s: StorageView, investor: Address)
    requires
        valid(s),
        s.funding_close_snapshot is Some,
        s.investor_index.contains(investor),
    ensures
        0 < s.contribution(investor) <= s.escrow->0.funded_amount,
        s.funding_close_snapshot->0.total_principal > 0,
        0 <= investor_yield(s, investor) <= MAX_YIELD_BPS,
        s.escrow is Some,
{
    reveal(valid);
    assert(s.investor_contribution.contains_key(investor));
    assert(s.investor_effective_yield.contains_key(investor));
    if s.contribution(investor) == 0 {
        assert(s.refunded(investor));
    }
    assert forall|i: int| 0 <= i < s.investor_index.len() implies lookup(
        s.investor_contribution,
        #[trigger] s.investor_index[i],
        0,
    ) >= 0 by {
        assert(s.investor_index.contains(s.investor_index[i]));
        assert(s.investor_contribution.contains_key(s.investor_index[i]));
    }
    lemma_part_of_total(s.investor_contribution, s.investor_index, investor);
}

/// Whether neither the principal at closing nor the investor's contribution exceeds the largest
/// invoice. Both are at most the funded amount.
pub open spec fn within_largest_invoice(s: StorageView, investor: Address) -> bool {
    &&& s.funding_close_snapshot->0.total_principal <= MAX_INVOICE_AMOUNT
    &&& s.contribution(investor) <= MAX_INVOICE_AMOUNT
}

/// No investor's payout overflows as long as principal at closing and contribution are at most
/// [`MAX_INVOICE_AMOUNT`], as they are where the funded amount is: it is the investor's share of the
/// pool, rounded down.
pub proof fn lemma_investor_payout_does_not_overflow(s: StorageView, investor: Address)
    requires
        valid(s),
        s.funding_close_snapshot is Some,
        s.investor_index.contains(investor),
    ensures
        s.escrow->0.funded_amount <= MAX_INVOICE_AMOUNT ==> within_largest_invoice(s, investor),
        within_largest_invoice(s, investor) ==> {
            &&& investor_payout(s, investor) is Ok
            &&& investor_payout(s, investor)->Ok_0 == gross_payout(
                s.contribution(investor) as int,
                s.funding_close_snapshot->0.total_principal as int,
                investor_yield(s, investor) as int,
            )
        },
{
    lemma_investor_holds_a_part(s, investor);
    assert(s.funding_close_snapshot->0.total_principal <= s.escrow->0.funded_amount) by {
        reveal(valid);
    }
    if within_largest_invoice(s, investor) {
        lemma_payout_does_not_overflow(
            s.contribution(investor) as int,
            s.funding_close_snapshot->0.total_principal as int,
            investor_yield(s, investor) as int,
        );
    }
}

/// An investor of a closed escrow is owed no less than the principal contributed. The payout can
/// only fail to be computed where the principal at closing or the contribution exceeds
/// [`MAX_INVOICE_AMOUNT`].
pub proof fn lemma_investor_gets_principal_back(s: StorageView, investor: Address)
    requires
        valid(s),
        s.funding_close_snapshot is Some,
        s.investor_index.contains(investor),
    ensures
        s.contribution(investor) > 0,
        within_largest_invoice(s, investor) ==> investor_payout(s, investor) is Ok,
        investor_payout(s, investor) matches Ok(payout) ==> payout >= s.contribution(investor),
{
    lemma_investor_holds_a_part(s, investor);
    lemma_investor_payout_does_not_overflow(s, investor);
    lemma_payout_returns_principal(
        s.contribution(investor) as int,
        s.funding_close_snapshot->0.total_principal as int,
        investor_yield(s, investor) as int,
    );
}

/// A first claim that is carried out pays exactly what was announced as claimable.
pub proof fn lemma_claim_pays_what_is_claimable(e: EnvView, investor: Address)
    requires
        claim_refusal(e, investor) is None,
        !e.storage.claimed(investor),
    ensures
        claimable_payout(e, investor) is Ok,
        claimable_payout(e, investor)->Ok_0 > 0,
        claim_post(e, investor).effects.drop_last() == e.effects.push(
            payment(e, investor, claimable_payout(e, investor)->Ok_0),
        ),
{
    assert(claim_post(e, investor).effects.drop_last() =~= e.effects.push(
        payment(e, investor, claimable_payout(e, investor)->Ok_0),
    ));
}

/// What is claimable is paid to the investor who claims it, as long as the contract has it.
pub proof fn lemma_what_is_claimable_is_paid(e: EnvView, investor: Address)
    requires
        valid(e.storage),
        claimable_payout(e, investor) is Ok,
        0 < claimable_payout(e, investor)->Ok_0 <= e.contract_balance,
        e.has_auth(investor),
    ensures
        claim_refusal(e, investor) is None,
{
    reveal(valid);
    let s = e.storage;
    if s.investor_contribution.contains_key(investor) {
        assert(s.investor_contribution[investor] >= 0);
    }
}

/// A second claim is accepted and does nothing, and nothing more is claimable.
pub proof fn lemma_claim_is_paid_once(e: EnvView, investor: Address)
    requires
        claim_refusal(e, investor) is None,
    ensures
        claim_refusal(claim_post(e, investor), investor) is None,
        claim_post(claim_post(e, investor), investor) == claim_post(e, investor),
        claimable_payout(claim_post(e, investor), investor) == Ok::<i128, Refusal>(0),
{
}

/// A commitment locks the claim until the deposit's time plus the lock, which is not after
/// maturity, and earns the yield that the ladder offers for it.
pub proof fn lemma_commitment_is_recorded(
    e: EnvView,
    investor: Address,
    amount: i128,
    lock: u64,
)
    requires
        fund_refusal(e, investor, amount, DepositKind::Committed(lock)) is None,
    ensures
        ({
            let s = fund_post(e, investor, amount, DepositKind::Committed(lock)).storage;
            let escrow = e.storage.escrow->0;
            &&& s.claim_not_before(investor) == (if lock == 0 {
                0
            } else {
                e.ledger.timestamp + lock
            })
            &&& lock > 0 && escrow.maturity > 0 ==> s.claim_not_before(investor) <= escrow.maturity
            &&& investor_yield(s, investor) == commitment_yield(
                e.storage.yield_tier_table,
                escrow.yield_bps,
                lock,
            ).0
        }),
{
}

/// What the investors of `index` who have not claimed yet are owed together, at the principal
/// `principal`.
pub open spec fn unclaimed_sum(s: StorageView, principal: int, index: Seq<Address>) -> int
    decreases index.len(),
{
    if index.len() == 0 {
        0
    } else {
        unclaimed_sum(s, principal, index.drop_last()) + (if s.claimed(index.last()) {
            0
        } else {
            gross_payout(
                s.contribution(index.last()) as int,
                principal,
                investor_yield(s, index.last()) as int,
            )
        })
    }
}

/// Everybody in `index` has a contribution and a yield that are not negative.
spec fn entitled(s: StorageView, index: Seq<Address>) -> bool {
    forall|i: int|
        #![trigger index[i]]
        0 <= i < index.len() ==> s.contribution(index[i]) >= 0 && investor_yield(s, index[i]) >= 0
}

proof fn lemma_share_within_unclaimed(
    s: StorageView,
    principal: int,
    index: Seq<Address>,
    investor: Address,
)
    requires
        principal > 0,
        entitled(s, index),
        !s.claimed(investor),
    ensures
        unclaimed_sum(s, principal, index) >= 0,
        index.contains(investor) ==> gross_payout(
            s.contribution(investor) as int,
            principal,
            investor_yield(s, investor) as int,
        ) <= unclaimed_sum(s, principal, index),
    decreases index.len(),
{
    if index.len() > 0 {
        let rest = index.drop_last();
        let last = index[index.len() - 1];
        assert forall|i: int|
            #![trigger rest[i]]
            0 <= i < rest.len() implies s.contribution(rest[i]) >= 0 && investor_yield(s, rest[i])
            >= 0 by {
            assert(rest[i] == index[i]);
        }
        lemma_share_within_unclaimed(s, principal, rest, investor);
        lemma_payout_within_share(
            s.contribution(last) as int,
            principal,
            investor_yield(s, last) as int,
            investor_yield(s, last) as int,
        );
        if index.contains(investor) && investor != last {
            let at = choose|i: int| 0 <= i < index.len() && index[i] == investor;
            assert(rest[at] == investor);
        }
    }
}

/// A claim takes the claimant's share out of what is unclaimed, and nothing else.
proof fn lemma_unclaimed_after_claim(
    old_s: StorageView,
    s: StorageView,
    principal: int,
    index: Seq<Address>,
    investor: Address,
)
    requires
        index.no_duplicates(),
        !old_s.claimed(investor),
        s == (StorageView {
            investor_claimed: old_s.investor_claimed.insert(investor, true),
            ..old_s
        }),
    ensures
        unclaimed_sum(s, principal, index) == unclaimed_sum(old_s, principal, index) - (
        if index.contains(investor) {
            gross_payout(
                old_s.contribution(investor) as int,
                principal,
                investor_yield(old_s, investor) as int,
            )
        } else {
            0
        }),
    decreases index.len(),
{
    if index.len() > 0 {
        let rest = index.drop_last();
        let last = index[index.len() - 1];
        assert(rest.no_duplicates());
        lemma_unclaimed_after_claim(old_s, s, principal, rest, investor);
        if last == investor {
            assert(!rest.contains(investor)) by {
                if rest.contains(investor) {
                    let at = choose|i: int| 0 <= i < rest.len() && rest[i] == investor;
                    assert(index[at] == investor);
                }
            }
        } else {
            assert(s.claimed(last) == old_s.claimed(last));
            if index.contains(investor) {
                let at = choose|i: int| 0 <= i < index.len() && index[i] == investor;
                assert(rest[at] == investor);
            }
            if rest.contains(investor) {
                let at = choose|i: int| 0 <= i < rest.len() && rest[i] == investor;
                assert(index[at] == investor);
            }
        }
    }
}

/// Once the contract of a settled escrow holds every unclaimed payout, each investor can claim, in
/// any order: a claim that no gate blocks is paid, and what is left covers the claims of the others.
/// Where the principal at closing or the contribution exceeds [`MAX_INVOICE_AMOUNT`], the payout must
/// not overflow.
pub proof fn lemma_claims_can_all_be_paid(e: EnvView, investor: Address)
    requires
        valid(e.storage),
        e.storage.escrow is Some,
        e.storage.escrow->0.status == STATUS_SETTLED,
        e.storage.investor_index.contains(investor),
        !e.storage.claimed(investor),
        !e.storage.pause_active(),
        !e.storage.hold_active(),
        e.ledger.timestamp >= e.storage.claim_not_before(investor),
        e.has_auth(investor),
        within_largest_invoice(e.storage, investor) || investor_payout(e.storage, investor) is Ok,
        ({
            let principal = e.storage.funding_close_snapshot->0.total_principal as int;
            e.contract_balance >= unclaimed_sum(e.storage, principal, e.storage.investor_index)
        }),
    ensures
        claim_refusal(e, investor) is None,
        ({
            let principal = e.storage.funding_close_snapshot->0.total_principal as int;
            let after = claim_post(e, investor).storage;
            e.contract_balance - investor_payout(e.storage, investor)->Ok_0 >= unclaimed_sum(
                after,
                principal,
                after.investor_index,
            )
        }),
{
    let s = e.storage;
    let principal = s.funding_close_snapshot->0.total_principal as int;
    assert(s.funding_close_snapshot is Some && s.investor_index.no_duplicates()
        && s.funding_token is Some) by {
        reveal(valid);
    }
    lemma_investor_gets_principal_back(s, investor);
    assert(entitled(s, s.investor_index)) by {
        reveal(valid);
        let index = s.investor_index;
        assert forall|i: int|
            #![trigger index[i]]
            0 <= i < index.len() implies s.contribution(index[i]) >= 0 && investor_yield(
            s,
            index[i],
        ) >= 0 by {
            assert(index.contains(index[i]));
            assert(s.investor_contribution.contains_key(index[i]));
            assert(s.investor_effective_yield.contains_key(index[i]));
        }
    }
    lemma_investor_holds_a_part(s, investor);
    lemma_share_within_unclaimed(s, principal, s.investor_index, investor);
    lemma_unclaimed_after_claim(
        s,
        claim_post(e, investor).storage,
        principal,
        s.investor_index,
        investor,
    );
}

} // verus!
