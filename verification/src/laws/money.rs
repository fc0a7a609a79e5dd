//! How much is paid, to whom, and when: payouts, withdrawals, refunds and sweeps.
use crate::env::{Effect, EnvView, StorageView, TokenTransfer};
use crate::errors::{EscrowError, Refusal};
use crate::events::{
    Event, InvestorPayoutClaimed, InvestorRefundedEvt, SmeWithdrew, TreasuryDustSwept,
};
use crate::external_calls::{balance_delta_fault, transfer_fault};
use crate::laws::entries::{asks_for, says};
use crate::payout::{gross_payout, payout_result, settle_pool, truncated};
use crate::settlement::{
    claim_post, claim_refusal, claimable_payout, investor_payout, investor_yield, outstanding,
    payment, payment_refusal, reconciliation, refund_post, refund_refusal, sweep_post,
    sweep_refusal, swept, withdraw_post, withdraw_refusal,
};
use crate::types::InvoiceEscrow;
use crate::validity::valid;
use crate::values::Address;
use crate::wide::magnitude;
use vstd::arithmetic::div_mod::lemma_fundamental_div_mod_converse;
use vstd::prelude::*;

verus! {

// ---------------------------------------------------------------------------------------------
// The payout formula
// ---------------------------------------------------------------------------------------------

/// Whether `q` is the part that `d` has in `x`, rounded towards zero: `d * q` does not go beyond
/// `x`, and comes within less than `d` of it.
pub open spec fn rounds(q: int, x: int, d: int) -> bool {
    &&& x >= 0 ==> d * q <= x < d * q + d
    &&& x < 0 ==> d * q - d < x <= d * q
}

/// Whether `x` is an amount that an `i128` holds.
pub open spec fn is_amount(x: int) -> bool {
    i128::MIN <= x <= i128::MAX
}

/// Exactly one number is the part that `d` has in `x`, rounded towards zero.
pub proof fn lemma_rounding_is_unique(q: int, x: int, d: int)
    requires
        d > 0,
    ensures
        rounds(q, x, d) <==> q == truncated(x, d),
{
    let m = if x >= 0 {
        x
    } else {
        -x
    };
    let p = m / d;
    assert(d * p <= m < d * p + d) by (nonlinear_arith)
        requires
            d > 0,
            m >= 0,
            p == m / d,
    ;
    assert(d * (-p) == -(d * p)) by (nonlinear_arith);
    if rounds(q, x, d) {
        if x >= 0 {
            assert(q * d == d * q) by (nonlinear_arith);
            lemma_fundamental_div_mod_converse(x, d, q, x - d * q);
        } else {
            assert(d * (-q) == -(d * q) && (-q) * d == d * (-q)) by (nonlinear_arith);
            lemma_fundamental_div_mod_converse(-x, d, -q, -x - d * (-q));
        }
    }
}

/// The coupon is the yield's part of the principal in ten-thousandths, and the payout is the
/// contribution's part of principal and coupon together, each rounded towards zero.
pub proof fn lemma_payout_is_rounded(contribution: int, total: int, yield_bps: int)
    requires
        total > 0,
    ensures
        ({
            let pool = settle_pool(total, yield_bps);
            let payout = gross_payout(contribution, total, yield_bps);
            &&& rounds(pool - total, total * yield_bps, 10_000)
            &&& rounds(payout, contribution * pool, total)
        }),
        total > 0 && yield_bps >= 0 && contribution >= 0 ==> ({
            let pool = settle_pool(total, yield_bps);
            let payout = gross_payout(contribution, total, yield_bps);
            &&& 10_000 * (pool - total) <= total * yield_bps < 10_000 * (pool - total) + 10_000
            &&& total * payout <= contribution * pool < total * payout + total
        }),
{
    let pool = settle_pool(total, yield_bps);
    lemma_rounding_is_unique(pool - total, total * yield_bps, 10_000);
    lemma_rounding_is_unique(
        gross_payout(contribution, total, yield_bps),
        contribution * pool,
        total,
    );
    if yield_bps >= 0 && contribution >= 0 {
        assert(total * yield_bps >= 0) by (nonlinear_arith)
            requires
                total > 0,
                yield_bps >= 0,
        ;
        assert(pool > 0);
        assert(contribution * pool >= 0) by (nonlinear_arith)
            requires
                contribution >= 0,
                pool > 0,
        ;
    }
}

/// Whatever pool and payout are rounded like that are the ones that count: the payout is the answer
/// where the product for the coupon, the pool and the payout are amounts, and an overflow is
/// reported otherwise.
pub proof fn lemma_payout_is_the_rounded_share(
    contribution: int,
    total: int,
    yield_bps: int,
    pool: int,
    payout: int,
)
    requires
        total > 0,
        rounds(pool - total, total * yield_bps, 10_000),
        rounds(payout, contribution * pool, total),
    ensures
        is_amount(total * yield_bps) && is_amount(pool) && is_amount(payout) ==> payout_result(
            contribution,
            total,
            yield_bps,
        ) == Ok::<i128, Refusal>(payout as i128),
        !(is_amount(total * yield_bps) && is_amount(pool) && is_amount(payout)) ==> payout_result(
            contribution,
            total,
            yield_bps,
        ) == Err::<i128, Refusal>(Refusal::Error(EscrowError::ComputePayoutArithmeticOverflow)),
{
    lemma_rounding_is_unique(pool - total, total * yield_bps, 10_000);
    lemma_rounding_is_unique(payout, contribution * pool, total);
}

/// Without a yield, everybody's payout is the contribution, whatever the principal.
pub proof fn lemma_no_yield_pays_the_contribution(contribution: int, total: int)
    requires
        total > 0,
    ensures
        gross_payout(contribution, total, 0) == contribution,
{
    assert(total * 0 == 0 && contribution * total == total * contribution) by (nonlinear_arith);
    lemma_rounding_is_unique(0, total * 0, 10_000);
    lemma_rounding_is_unique(contribution, contribution * total, total);
}

/// The sole investor's payout is the whole pool.
pub proof fn lemma_sole_investor_gets_the_pool(total: int, yield_bps: int)
    requires
        total > 0,
    ensures
        rounds(gross_payout(total, total, yield_bps) - total, total * yield_bps, 10_000),
{
    let pool = settle_pool(total, yield_bps);
    lemma_rounding_is_unique(pool - total, total * yield_bps, 10_000);
    lemma_rounding_is_unique(pool, total * pool, total);
}

/// A magnitude is the number without its sign.
pub proof fn lemma_magnitudes(x: int)
    ensures
        magnitude(x) >= 0,
        magnitude(x) == x || magnitude(x) == -x,
{
}

// ---------------------------------------------------------------------------------------------
// What an investor is owed
// ---------------------------------------------------------------------------------------------

/// The yield that an investor earns is the one recorded for that investor, and the escrow's where
/// none is recorded.
pub proof fn lemma_yield_is_the_recorded_one(s: StorageView, investor: Address)
    ensures
        s.investor_effective_yield.contains_key(investor) ==> investor_yield(s, investor)
            == s.investor_effective_yield[investor],
        !s.investor_effective_yield.contains_key(investor) ==> investor_yield(s, investor)
            == s.escrow->0.yield_bps,
{
}

/// Nothing is owed to whoever contributed nothing, nor before the funding has closed, nor where it
/// closed with nothing.
pub proof fn lemma_nothing_is_owed(s: StorageView, investor: Address)
    requires
        s.contribution(investor) == 0 || s.funding_close_snapshot is None
            || s.funding_close_snapshot->0.total_principal <= 0,
    ensures
        investor_payout(s, investor) == Ok::<i128, Refusal>(0),
{
}

/// After the close an investor is owed the rounded share of principal and coupon that the
/// contribution has in the principal at the close, at the investor's own yield.
pub proof fn lemma_investor_is_owed_the_rounded_share(
    s: StorageView,
    investor: Address,
    pool: int,
    payout: int,
)
    requires
        s.escrow is Some,
        s.funding_close_snapshot is Some,
        s.funding_close_snapshot->0.total_principal > 0,
        s.contribution(investor) != 0,
        ({
            let total = s.funding_close_snapshot->0.total_principal as int;
            let yield_bps = if s.investor_effective_yield.contains_key(investor) {
                s.investor_effective_yield[investor] as int
            } else {
                s.escrow->0.yield_bps as int
            };
            &&& rounds(pool - total, total * yield_bps, 10_000)
            &&& rounds(payout, s.contribution(investor) * pool, total)
            &&& is_amount(total * yield_bps)
        }),
    ensures
        is_amount(pool) && is_amount(payout) ==> investor_payout(s, investor) == Ok::<i128, Refusal>(
            payout as i128,
        ),
        !(is_amount(pool) && is_amount(payout)) ==> investor_payout(s, investor) == Err::<
            i128,
            Refusal,
        >(Refusal::Error(EscrowError::ComputePayoutArithmeticOverflow)),
{
    lemma_payout_is_the_rounded_share(
        s.contribution(investor) as int,
        s.funding_close_snapshot->0.total_principal as int,
        investor_yield(s, investor) as int,
        pool,
        payout,
    );
}

/// What is owed depends on nothing but contribution, yield, principal at the close and base yield.
pub proof fn lemma_owed_depends_on_the_share(s: StorageView, other: StorageView, investor: Address)
    requires
        s.escrow is Some,
        other.escrow is Some,
        other.contribution(investor) == s.contribution(investor),
        other.funding_close_snapshot is Some == s.funding_close_snapshot is Some,
        other.funding_close_snapshot->0.total_principal
            == s.funding_close_snapshot->0.total_principal,
        other.investor_effective_yield.contains_key(investor)
            == s.investor_effective_yield.contains_key(investor),
        other.investor_effective_yield[investor] == s.investor_effective_yield[investor],
        other.escrow->0.yield_bps == s.escrow->0.yield_bps,
    ensures
        investor_payout(other, investor) == investor_payout(s, investor),
{
}

// ---------------------------------------------------------------------------------------------
// Transfers
// ---------------------------------------------------------------------------------------------

/// A transfer is sound exactly where it moves something that the sender has.
pub proof fn lemma_transfer_is_covered(amount: i128, from_before: i128)
    ensures
        transfer_fault(amount, from_before) is None <==> 0 < amount <= from_before,
        amount <= 0 ==> transfer_fault(amount, from_before) == Some(
            EscrowError::TransferAmountNotPositive,
        ),
        amount > 0 && from_before < amount ==> transfer_fault(amount, from_before) == Some(
            EscrowError::InsufficientTokenBalanceBeforeTransfer,
        ),
{
}

/// A transfer was made as asked exactly where the sender lost the amount and the recipient gained
/// it. Otherwise the side that did not is named, the sender first.
pub proof fn lemma_transfer_moves_the_amount(
    amount: i128,
    from_before: i128,
    from_after: i128,
    to_before: i128,
    to_after: i128,
)
    ensures
        ({
            let fault = balance_delta_fault(amount, from_before, from_after, to_before, to_after);
            let spent = from_before - from_after;
            let received = to_after - to_before;
            &&& fault is None <==> spent == amount && received == amount
            &&& !is_amount(spent) ==> fault == Some(EscrowError::SenderBalanceUnderflow)
            &&& is_amount(spent) && !is_amount(received) ==> fault == Some(
                EscrowError::RecipientBalanceUnderflow,
            )
            &&& is_amount(spent) && is_amount(received) && spent != amount ==> fault == Some(
                EscrowError::SenderBalanceDeltaMismatch,
            )
            &&& spent == amount && is_amount(received) && received != amount ==> fault == Some(
                EscrowError::RecipientBalanceDeltaMismatch,
            )
        }),
{
}

/// A payment is a transfer of the funding token from the contract, and is refused where there is no
/// such token, nothing to pay, or less than that in the contract.
pub proof fn lemma_payment_comes_from_the_contract(e: EnvView, to: Address, amount: i128)
    ensures
        payment(e, to, amount) == Effect::Transfer(
            TokenTransfer { token: e.storage.funding_token->0, from: e.contract, to, amount },
        ),
        e.storage.funding_token is None ==> says(
            payment_refusal(e, amount),
            EscrowError::FundingTokenNotSet,
        ),
        e.storage.funding_token is Some && amount <= 0 ==> says(
            payment_refusal(e, amount),
            EscrowError::TransferAmountNotPositive,
        ),
        e.storage.funding_token is Some && amount > 0 && e.contract_balance < amount ==> says(
            payment_refusal(e, amount),
            EscrowError::InsufficientTokenBalanceBeforeTransfer,
        ),
        e.storage.funding_token is Some && 0 < amount <= e.contract_balance ==> payment_refusal(
            e,
            amount,
        ) is None,
{
}

// ---------------------------------------------------------------------------------------------
// Claims
// ---------------------------------------------------------------------------------------------


/// No claim is accepted, and nothing is claimable, before the time from which the investor may
/// claim; from then on that time stands in nobody's way.
pub proof fn lemma_no_claim_before_the_lock_ends(e: EnvView, investor: Address)
    ensures
        e.ledger.timestamp < e.storage.claim_not_before(investor) ==> {
            &&& claim_refusal(e, investor) is Some
            &&& claimable_payout(e, investor) matches Ok(payout) ==> payout == 0
            &&& e.storage.escrow is Some ==> claimable_payout(e, investor) == Ok::<i128, Refusal>(0)
        },
        e.ledger.timestamp >= e.storage.claim_not_before(investor) ==> !says(
            claim_refusal(e, investor),
            EscrowError::InvestorCommitmentLockNotExpired,
        ),
{
}

/// What stands in the way of a claim, in the order in which it is named.
pub proof fn lemma_claim_is_answered(e: EnvView, investor: Address)
    ensures
        ({
            let s = e.storage;
            let r = claim_refusal(e, investor);
            let stopped = s.paused == Some(true) || s.legal_hold == Some(true);
            let asked = !stopped && e.authorized.contains(investor);
            let holds = asked && s.contribution(investor) > 0;
            let settled = holds && s.escrow is Some && s.escrow->0.status == 2;
            let due = settled && e.ledger.timestamp >= s.claim_not_before(investor);
            let owed = investor_payout(s, investor);
            &&& s.paused == Some(true) ==> says(r, EscrowError::PausedBlocksInvestorClaims)
            &&& s.paused != Some(true) && s.legal_hold == Some(true) ==> says(
                r,
                EscrowError::LegalHoldBlocksInvestorClaims,
            )
            &&& !stopped && !e.authorized.contains(investor) ==> asks_for(r, investor)
            &&& asked && s.contribution(investor) <= 0 ==> says(
                r,
                EscrowError::NoContributionToClaim,
            )
            &&& holds && s.escrow is None ==> says(r, EscrowError::EscrowNotInitialized)
            &&& holds && s.escrow is Some && s.escrow->0.status != 2 ==> says(
                r,
                EscrowError::InvestorClaimNotSettled,
            )
            &&& settled && e.ledger.timestamp < s.claim_not_before(investor) ==> says(
                r,
                EscrowError::InvestorCommitmentLockNotExpired,
            )
            &&& due && s.claimed(investor) ==> r is None
            &&& due && !s.claimed(investor) ==> match owed {
                Err(why) => r == Some(why),
                Ok(payout) => {
                    &&& payout <= 0 ==> says(r, EscrowError::PayoutZero)
                    &&& payout > 0 && s.funding_token is None ==> says(
                        r,
                        EscrowError::FundingTokenNotSet,
                    )
                    &&& payout > e.contract_balance && payout > 0 && s.funding_token is Some
                        ==> says(r, EscrowError::InsufficientTokenBalanceBeforeTransfer)
                    &&& 0 < payout <= e.contract_balance && s.funding_token is Some ==> r is None
                },
            }
        }),
{
}

/// A first claim that is accepted moves what is owed, once, from the contract to the investor, in
/// the funding token; it marks that investor, and nothing else that is stored changes. A second
/// one does nothing at all.
pub proof fn lemma_claim_moves_what_is_owed(e: EnvView, investor: Address)
    requires
        claim_refusal(e, investor) is None,
    ensures
        ({
            let after = claim_post(e, investor);
            let s = e.storage;
            &&& s.claimed(investor) ==> after == e
            &&& !s.claimed(investor) ==> {
                &&& investor_payout(s, investor) is Ok
                &&& 0 < investor_payout(s, investor)->Ok_0 <= e.contract_balance
                &&& after.effects == e.effects.push(
                    Effect::Transfer(
                        TokenTransfer {
                            token: s.funding_token->0,
                            from: e.contract,
                            to: investor,
                            amount: investor_payout(s, investor)->Ok_0,
                        },
                    ),
                ).push(
                    Effect::Publish(
                        Event::InvestorPayoutClaimed(
                            InvestorPayoutClaimed {
                                name: "inv_claim",
                                investor,
                                invoice_id: s.escrow->0.invoice_id,
                            },
                        ),
                    ),
                )
                &&& after.storage.claimed(investor)
                &&& forall|a: Address|
                    a != investor ==> #[trigger] after.storage.claimed(a) == s.claimed(a)
                &&& after == EnvView {
                    effects: after.effects,
                    storage: StorageView {
                        investor_claimed: after.storage.investor_claimed,
                        ..s
                    },
                    ..e
                }
            }
        }),
{
}

/// What is claimable is what is owed, where the escrow is settled, neither paused nor on hold, the
/// investor's time has come, and the investor was not paid before; otherwise it is nothing.
pub proof fn lemma_claimable_is_what_is_owed(e: EnvView, investor: Address)
    ensures
        ({
            let s = e.storage;
            let payable = s.escrow is Some && s.escrow->0.status == 2 && s.paused != Some(true)
                && s.legal_hold != Some(true) && !s.claimed(investor) && e.ledger.timestamp
                >= s.claim_not_before(investor);
            &&& s.escrow is None ==> claimable_payout(e, investor) == Err::<i128, Refusal>(
                Refusal::Error(EscrowError::EscrowNotInitialized),
            )
            &&& payable ==> claimable_payout(e, investor) == investor_payout(s, investor)
            &&& s.escrow is Some && !payable ==> claimable_payout(e, investor) == Ok::<
                i128,
                Refusal,
            >(0)
        }),
{
}

// ---------------------------------------------------------------------------------------------
// The SME's withdrawal
// ---------------------------------------------------------------------------------------------

/// What stands in the way of the SME's withdrawal, in the order in which it is named.
pub proof fn lemma_withdrawal_is_answered(e: EnvView)
    ensures
        ({
            let s = e.storage;
            let r = withdraw_refusal(e);
            let stopped = s.paused == Some(true) || s.legal_hold == Some(true);
            let asked = !stopped && e.sme_refusal() is None;
            let funded = asked && s.escrow->0.status == 1;
            let amount = s.escrow->0.funded_amount;
            &&& s.paused == Some(true) ==> says(r, EscrowError::PausedBlocksWithdrawal)
            &&& s.paused != Some(true) && s.legal_hold == Some(true) ==> says(
                r,
                EscrowError::LegalHoldBlocksWithdrawal,
            )
            &&& !stopped && e.sme_refusal() is Some ==> r == e.sme_refusal()
            &&& asked && s.escrow->0.status != 1 ==> says(r, EscrowError::WithdrawalNotFunded)
            &&& funded && s.funding_token is None ==> says(r, EscrowError::FundingTokenNotSet)
            &&& funded && s.funding_token is Some && e.contract_balance < amount ==> says(
                r,
                EscrowError::InsufficientContractBalance,
            )
            &&& funded && s.funding_token is Some && e.contract_balance >= amount && amount <= 0
                ==> says(r, EscrowError::TransferAmountNotPositive)
            &&& funded && s.funding_token is Some && 0 < amount <= e.contract_balance ==> r is None
        }),
{
}

/// A withdrawal that is carried out leaves one transfer, of the whole funded amount, from the
/// contract to the SME. The escrow is withdrawn, and what was handed out grows by that amount.
/// Nothing else that is stored changes.
pub proof fn lemma_withdrawal_moves_the_funded_amount(e: EnvView)
    requires
        withdraw_refusal(e) is None,
    ensures
        ({
            let after = withdraw_post(e);
            let s = e.storage;
            let escrow = s.escrow->0;
            &&& 0 < escrow.funded_amount <= e.contract_balance
            &&& after.effects == e.effects.push(
                Effect::Transfer(
                    TokenTransfer {
                        token: s.funding_token->0,
                        from: e.contract,
                        to: escrow.sme_address,
                        amount: escrow.funded_amount,
                    },
                ),
            ).push(
                Effect::Publish(
                    Event::SmeWithdrew(
                        SmeWithdrew {
                            name: "sme_wd",
                            invoice_id: escrow.invoice_id,
                            amount: escrow.funded_amount,
                            recipient: escrow.sme_address,
                        },
                    ),
                ),
            )
            &&& after.effects.drop_last() == e.effects.push(
                payment(e, escrow.sme_address, escrow.funded_amount),
            )
            &&& after.storage.escrow == Some(InvoiceEscrow { status: 3, ..escrow })
            &&& is_amount(s.distributed() + escrow.funded_amount) ==> after.storage.distributed()
                == s.distributed() + escrow.funded_amount
            &&& after == EnvView {
                effects: after.effects,
                storage: StorageView {
                    escrow: after.storage.escrow,
                    distributed_principal: after.storage.distributed_principal,
                    ..s
                },
                ..e
            }
        }),
{
    let after = withdraw_post(e);
    let escrow = e.storage.escrow->0;
    assert(after.effects.drop_last() =~= e.effects.push(
        payment(e, escrow.sme_address, escrow.funded_amount),
    ));
}

/// After a withdrawal all that was deposited, and no more, has been handed out.
pub proof fn lemma_withdrawal_hands_out_everything(e: EnvView)
    requires
        valid(e.storage),
        withdraw_refusal(e) is None,
    ensures
        withdraw_post(e).storage.distributed() == e.storage.escrow->0.funded_amount,
        outstanding(withdraw_post(e).storage) == 0,
{
    reveal(valid);
}

// ---------------------------------------------------------------------------------------------
// Refunds
// ---------------------------------------------------------------------------------------------

/// What stands in the way of a refund, in the order in which it is named.
pub proof fn lemma_refund_is_answered(e: EnvView, investor: Address)
    ensures
        ({
            let s = e.storage;
            let r = refund_refusal(e, investor);
            let asked = e.authorized.contains(investor);
            let cancelled = asked && s.escrow is Some && s.escrow->0.status == 4;
            let amount = s.contribution(investor);
            &&& !asked ==> asks_for(r, investor)
            &&& asked && s.escrow is None ==> says(r, EscrowError::EscrowNotInitialized)
            &&& asked && s.escrow is Some && s.escrow->0.status != 4 ==> says(
                r,
                EscrowError::RefundNotCancelled,
            )
            &&& cancelled && amount <= 0 ==> says(r, EscrowError::NoContributionToRefund)
            &&& cancelled && amount > 0 && s.funding_token is None ==> says(
                r,
                EscrowError::FundingTokenNotSet,
            )
            &&& cancelled && amount > 0 && s.funding_token is Some && e.contract_balance < amount
                ==> says(r, EscrowError::InsufficientTokenBalanceBeforeTransfer)
            &&& cancelled && 0 < amount <= e.contract_balance && s.funding_token is Some ==> r
                is None
        }),
{
}

/// A refund moves the investor's whole contribution, once, from the contract to that investor,
/// whose contribution is then zero and who is marked. What was handed out grows by the amount.
/// Nobody else's entries change.
pub proof fn lemma_refund_moves_the_contribution(e: EnvView, investor: Address)
    requires
        refund_refusal(e, investor) is None,
    ensures
        ({
            let after = refund_post(e, investor);
            let s = e.storage;
            let amount = s.contribution(investor);
            &&& 0 < amount <= e.contract_balance
            &&& after.effects == e.effects.push(
                Effect::Transfer(
                    TokenTransfer {
                        token: s.funding_token->0,
                        from: e.contract,
                        to: investor,
                        amount,
                    },
                ),
            ).push(
                Effect::Publish(
                    Event::InvestorRefundedEvt(
                        InvestorRefundedEvt {
                            name: "refunded",
                            investor,
                            invoice_id: s.escrow->0.invoice_id,
                            amount,
                        },
                    ),
                ),
            )
            &&& after.storage.contribution(investor) == 0
            &&& after.storage.refunded(investor)
            &&& forall|a: Address|
                a != investor ==> #[trigger] after.storage.contribution(a) == s.contribution(a)
            &&& forall|a: Address|
                a != investor ==> #[trigger] after.storage.refunded(a) == s.refunded(a)
            &&& is_amount(s.distributed() + amount) ==> after.storage.distributed()
                == s.distributed() + amount
            &&& after == EnvView {
                effects: after.effects,
                storage: StorageView {
                    investor_contribution: after.storage.investor_contribution,
                    investor_refunded: after.storage.investor_refunded,
                    distributed_principal: after.storage.distributed_principal,
                    ..s
                },
                ..e
            }
        }),
{
}

// ---------------------------------------------------------------------------------------------
// Sweeps and reconciliation
// ---------------------------------------------------------------------------------------------

/// What is outstanding is what was deposited less what was handed out.
pub proof fn lemma_outstanding_is_the_rest(s: StorageView)
    ensures
        is_amount(s.escrow->0.funded_amount - s.distributed()) ==> outstanding(s)
            == s.escrow->0.funded_amount - s.distributed(),
        s.escrow->0.funded_amount - s.distributed() > i128::MAX ==> outstanding(s) == i128::MAX,
        s.escrow->0.funded_amount - s.distributed() < i128::MIN ==> outstanding(s) == i128::MIN,
{
}

/// A sweep takes what was asked for as far as the contract has it.
pub proof fn lemma_sweep_takes_what_is_there(e: EnvView, amount: i128)
    ensures
        swept(e, amount) <= amount,
        swept(e, amount) <= e.contract_balance,
        swept(e, amount) == amount || swept(e, amount) == e.contract_balance,
{
}

/// What stands in the way of a sweep, in the order in which it is named. In a cancelled escrow what
/// is still owed to the investors has to stay.
pub proof fn lemma_sweep_is_answered(e: EnvView, amount: i128)
    ensures
        ({
            let s = e.storage;
            let r = sweep_refusal(e, amount);
            let escrow = s.escrow->0;
            let held = s.legal_hold == Some(true);
            let bounded = !held && 0 < amount <= 100_000_000;
            let finished = bounded && s.escrow is Some && (escrow.status == 2 || escrow.status == 3
                || escrow.status == 4);
            let asked = finished && s.treasury is Some && e.authorized.contains(s.treasury->0);
            let ready = asked && s.funding_token is Some && e.contract_balance > 0;
            let taken = if amount <= e.contract_balance {
                amount
            } else {
                e.contract_balance
            };
            let short = escrow.status == 4 && e.contract_balance - taken < outstanding(s);
            &&& held ==> says(r, EscrowError::LegalHoldBlocksTreasuryDustSweep)
            &&& !held && amount <= 0 ==> says(r, EscrowError::SweepAmountNotPositive)
            &&& !held && amount > 100_000_000 ==> says(r, EscrowError::SweepAmountExceedsMax)
            &&& bounded && s.escrow is None ==> says(r, EscrowError::EscrowNotInitialized)
            &&& bounded && s.escrow is Some && !finished ==> says(
                r,
                EscrowError::DustSweepNotTerminal,
            )
            &&& finished && s.treasury is None ==> says(r, EscrowError::TreasuryNotSet)
            &&& finished && s.treasury is Some && !e.authorized.contains(s.treasury->0)
                ==> asks_for(r, s.treasury->0)
            &&& asked && s.funding_token is None ==> says(r, EscrowError::FundingTokenNotSet)
            &&& asked && s.funding_token is Some && e.contract_balance <= 0 ==> says(
                r,
                EscrowError::NoFundingTokenBalanceToSweep,
            )
            &&& ready && short ==> says(r, EscrowError::SweepExceedsLiabilityFloor)
            &&& ready && !short ==> r is None
        }),
{
}

/// A sweep that is carried out moves what it takes, once, from the contract to the treasury, and
/// changes nothing that is stored.
pub proof fn lemma_sweep_goes_to_the_treasury(e: EnvView, amount: i128)
    requires
        sweep_refusal(e, amount) is None,
    ensures
        ({
            let after = sweep_post(e, amount);
            let s = e.storage;
            let taken = if amount <= e.contract_balance {
                amount
            } else {
                e.contract_balance
            };
            &&& swept(e, amount) == taken
            &&& after.effects == e.effects.push(
                Effect::Transfer(
                    TokenTransfer {
                        token: s.funding_token->0,
                        from: e.contract,
                        to: s.treasury->0,
                        amount: taken,
                    },
                ),
            ).push(
                Effect::Publish(
                    Event::TreasuryDustSwept(
                        TreasuryDustSwept {
                            name: "dust_sw",
                            invoice_id: s.escrow->0.invoice_id,
                            token: s.funding_token->0,
                            amount: taken,
                        },
                    ),
                ),
            )
            &&& after == EnvView { effects: after.effects, ..e }
        }),
{
}

/// The reconciliation sets the balance against what is outstanding: a surplus is what is there
/// beyond that, a deficit what is missing to it.
pub proof fn lemma_reconciliation_adds_up(e: EnvView)
    ensures
        ({
            let view = reconciliation(e);
            let rest = e.storage.escrow->0.funded_amount - e.storage.distributed();
            &&& view.token_balance == e.contract_balance
            &&& view.outstanding_liability >= 0
            &&& rest <= 0 ==> view.outstanding_liability == 0
            &&& 0 <= rest <= i128::MAX ==> view.outstanding_liability == rest
            &&& rest > i128::MAX ==> view.outstanding_liability == i128::MAX
            &&& is_amount(view.token_balance - view.outstanding_liability) ==> view.surplus
                + view.outstanding_liability == view.token_balance
            &&& !is_amount(view.token_balance - view.outstanding_liability) ==> view.surplus
                == i128::MIN
        }),
{
}

} // verus!
