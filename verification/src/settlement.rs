//! Closing, settling, paying out, cancelling and sweeping.
use crate::contract::LiquifactEscrow;
use crate::env::{
    lookup, outcome, refused, ContractEnv, Effect, EnvView, StorageView, TokenTransfer,
};
use crate::errors::{EscrowError, Refusal};
use crate::events::{
    EscrowPartialSettle, EscrowSettled, Event, FundingCancelled, InvestorPayoutClaimed,
    InvestorRefundedEvt, SmeWithdrew, TreasuryDustSwept,
};
use crate::external_calls::{check_transfer, transfer_fault};
use crate::funding::closed_storage;
use crate::guards::{
    ensure, guard_status_eq, guard_status_in, saturated, saturating_add, saturating_sub,
};
use crate::payout::{payout_result, pro_rata_payout};
use crate::types::{
    FundingCloseSnapshot, InvoiceEscrow, ReconciliationView, SettlementReadiness,
    MAX_DUST_SWEEP_AMOUNT, STATUS_CANCELLED, STATUS_FUNDED, STATUS_OPEN, STATUS_SETTLED,
    STATUS_WITHDRAWN,
};
use crate::values::Address;
use vstd::prelude::*;

verus! {

/// `escrow` in another status.
pub open spec fn with_status(escrow: InvoiceEscrow, status: u32) -> InvoiceEscrow {
    InvoiceEscrow { status, ..escrow }
}

/// Whether settlement waits for nothing: there is no maturity, or it has been reached.
pub open spec fn maturity_reached(e: EnvView, escrow: InvoiceEscrow) -> bool {
    escrow.maturity == 0 || e.ledger.timestamp >= escrow.maturity
}

/// Why the contract cannot pay `amount` out.
pub open spec fn payment_refusal(e: EnvView, amount: i128) -> Option<Refusal> {
    if e.storage.funding_token is None {
        refused(EscrowError::FundingTokenNotSet)
    } else {
        match transfer_fault(amount, e.contract_balance) {
            Some(error) => refused(error),
            None => None,
        }
    }
}

/// The payment of `amount` from the contract to `to`.
pub open spec fn payment(e: EnvView, to: Address, amount: i128) -> Effect {
    Effect::Transfer(
        TokenTransfer { token: e.storage.funding_token->0, from: e.contract, to, amount },
    )
}

// ---------------------------------------------------------------------------------------------
// Early close
// ---------------------------------------------------------------------------------------------

/// Why closing the funding early is refused.
pub open spec fn partial_settle_refusal(e: EnvView, caller: Address) -> Option<Refusal> {
    if !e.has_auth(caller) {
        Some(Refusal::AuthRequired(caller))
    } else if e.storage.hold_active() {
        refused(EscrowError::LegalHoldBlocksPartialSettle)
    } else {
        match e.storage.escrow {
            None => refused(EscrowError::EscrowNotInitialized),
            Some(escrow) => if caller != escrow.sme_address && caller != escrow.admin {
                refused(EscrowError::PartialSettleUnauthorizedCaller)
            } else if escrow.status != STATUS_OPEN {
                refused(EscrowError::PartialSettleNotOpen)
            } else {
                None
            },
        }
    }
}

/// The environment after funding is closed early.
pub open spec fn partial_settle_post(e: EnvView) -> EnvView {
    let escrow = with_status(e.storage.escrow->0, STATUS_FUNDED);
    e.with_storage(closed_storage(e, escrow)).publish(
        Event::EscrowPartialSettle(
            EscrowPartialSettle {
                name: "part_set",
                invoice_id: escrow.invoice_id,
                funded_amount: escrow.funded_amount,
            },
        ),
    )
}

// ---------------------------------------------------------------------------------------------
// Settlement
// ---------------------------------------------------------------------------------------------

/// Why settlement is refused.
pub open spec fn settle_refusal(e: EnvView) -> Option<Refusal> {
    if e.storage.pause_active() {
        refused(EscrowError::PausedBlocksSettlement)
    } else if e.storage.hold_active() {
        refused(EscrowError::LegalHoldBlocksSettlement)
    } else if e.sme_refusal() is Some {
        e.sme_refusal()
    } else if e.storage.escrow->0.status != STATUS_FUNDED {
        refused(EscrowError::SettlementNotFunded)
    } else if !maturity_reached(e, e.storage.escrow->0) {
        refused(EscrowError::MaturityNotReached)
    } else {
        None
    }
}

/// The environment after settlement.
pub open spec fn settle_post(e: EnvView) -> EnvView {
    let escrow = with_status(e.storage.escrow->0, STATUS_SETTLED);
    e.with_storage(
        StorageView {
            escrow: Some(escrow),
            settled_at: Some(e.ledger.timestamp),
            ..e.storage
        },
    ).publish(
        Event::EscrowSettled(
            EscrowSettled {
                name: "escrow_sd",
                invoice_id: escrow.invoice_id,
                funded_amount: escrow.funded_amount,
                yield_bps: escrow.yield_bps,
                maturity: escrow.maturity,
                settled_at_ledger_timestamp: e.ledger.timestamp,
            },
        ),
    )
}

/// Whether nothing but the SME's authorization is missing for settlement.
pub open spec fn settleable(e: EnvView) -> bool {
    &&& !e.storage.pause_active()
    &&& !e.storage.hold_active()
    &&& e.storage.escrow is Some
    &&& e.storage.escrow->0.status == STATUS_FUNDED
    &&& maturity_reached(e, e.storage.escrow->0)
}

// ---------------------------------------------------------------------------------------------
// Withdrawal by the SME
// ---------------------------------------------------------------------------------------------

/// Why the SME's withdrawal is refused.
pub open spec fn withdraw_refusal(e: EnvView) -> Option<Refusal> {
    if e.storage.pause_active() {
        refused(EscrowError::PausedBlocksWithdrawal)
    } else if e.storage.hold_active() {
        refused(EscrowError::LegalHoldBlocksWithdrawal)
    } else if e.sme_refusal() is Some {
        e.sme_refusal()
    } else if e.storage.escrow->0.status != STATUS_FUNDED {
        refused(EscrowError::WithdrawalNotFunded)
    } else if e.storage.funding_token is None {
        refused(EscrowError::FundingTokenNotSet)
    } else if e.contract_balance < e.storage.escrow->0.funded_amount {
        refused(EscrowError::InsufficientContractBalance)
    } else {
        payment_refusal(e, e.storage.escrow->0.funded_amount)
    }
}

/// The environment after the SME's withdrawal.
pub open spec fn withdraw_post(e: EnvView) -> EnvView {
    let escrow = with_status(e.storage.escrow->0, STATUS_WITHDRAWN);
    e.with_storage(
        StorageView {
            escrow: Some(escrow),
            distributed_principal: Some(
                saturated(e.storage.distributed() + escrow.funded_amount),
            ),
            ..e.storage
        },
    ).with_effect(payment(e, escrow.sme_address, escrow.funded_amount)).publish(
        Event::SmeWithdrew(
            SmeWithdrew {
                name: "sme_wd",
                invoice_id: escrow.invoice_id,
                amount: escrow.funded_amount,
                recipient: escrow.sme_address,
            },
        ),
    )
}

// ---------------------------------------------------------------------------------------------
// Payout
// ---------------------------------------------------------------------------------------------

/// The yield of `investor`: the one fixed at the first deposit, or the base yield.
pub open spec fn investor_yield(s: StorageView, investor: Address) -> i64 {
    lookup(s.investor_effective_yield, investor, s.escrow->0.yield_bps)
}

/// The gross payout of `investor`, whether or not it may be claimed.
pub open spec fn investor_payout(s: StorageView, investor: Address) -> Result<i128, Refusal> {
    let contribution = s.contribution(investor);
    if contribution == 0 || s.funding_close_snapshot is None
        || s.funding_close_snapshot->0.total_principal <= 0 {
        Ok(0)
    } else if s.escrow is None {
        Err(Refusal::Error(EscrowError::EscrowNotInitialized))
    } else {
        payout_result(
            contribution as int,
            s.funding_close_snapshot->0.total_principal as int,
            investor_yield(s, investor) as int,
        )
    }
}

/// Why a claim does not get as far as the question whether it was made before.
pub open spec fn claim_gate_refusal(e: EnvView, investor: Address) -> Option<Refusal> {
    let s = e.storage;
    if s.pause_active() {
        refused(EscrowError::PausedBlocksInvestorClaims)
    } else if s.hold_active() {
        refused(EscrowError::LegalHoldBlocksInvestorClaims)
    } else if !e.has_auth(investor) {
        Some(Refusal::AuthRequired(investor))
    } else if s.contribution(investor) <= 0 {
        refused(EscrowError::NoContributionToClaim)
    } else if s.escrow is None {
        refused(EscrowError::EscrowNotInitialized)
    } else if s.escrow->0.status != STATUS_SETTLED {
        refused(EscrowError::InvestorClaimNotSettled)
    } else if e.ledger.timestamp < s.claim_not_before(investor) {
        refused(EscrowError::InvestorCommitmentLockNotExpired)
    } else {
        None
    }
}

/// Why a claim is refused. A second claim is not refused: it does nothing.
pub open spec fn claim_refusal(e: EnvView, investor: Address) -> Option<Refusal> {
    if claim_gate_refusal(e, investor) is Some {
        claim_gate_refusal(e, investor)
    } else if e.storage.claimed(investor) {
        None
    } else {
        match investor_payout(e.storage, investor) {
            Err(why) => Some(why),
            Ok(payout) => if payout <= 0 {
                refused(EscrowError::PayoutZero)
            } else {
                payment_refusal(e, payout)
            },
        }
    }
}

/// The environment after a claim.
pub open spec fn claim_post(e: EnvView, investor: Address) -> EnvView {
    if e.storage.claimed(investor) {
        e
    } else {
        e.with_storage(
            StorageView {
                investor_claimed: e.storage.investor_claimed.insert(investor, true),
                ..e.storage
            },
        ).with_effect(payment(e, investor, investor_payout(e.storage, investor)->Ok_0)).publish(
            Event::InvestorPayoutClaimed(
                InvestorPayoutClaimed {
                    name: "inv_claim",
                    investor,
                    invoice_id: e.storage.escrow->0.invoice_id,
                },
            ),
        )
    }
}

/// What `investor` would be paid for a claim now; `0` where something stands in its way.
pub open spec fn claimable_payout(e: EnvView, investor: Address) -> Result<i128, Refusal> {
    let s = e.storage;
    if s.escrow is None {
        Err(Refusal::Error(EscrowError::EscrowNotInitialized))
    } else if s.escrow->0.status != STATUS_SETTLED || s.pause_active() || s.hold_active()
        || s.claimed(investor) || e.ledger.timestamp < s.claim_not_before(investor) {
        Ok(0)
    } else {
        investor_payout(s, investor)
    }
}

// ---------------------------------------------------------------------------------------------
// Cancellation and refunds
// ---------------------------------------------------------------------------------------------

/// Why cancelling the funding is refused.
pub open spec fn cancel_funding_refusal(e: EnvView) -> Option<Refusal> {
    if e.storage.hold_active() {
        refused(EscrowError::LegalHoldBlocksCancelFunding)
    } else if e.admin_refusal() is Some {
        e.admin_refusal()
    } else if e.storage.escrow->0.status != STATUS_OPEN {
        refused(EscrowError::CancelFundingNotOpen)
    } else {
        None
    }
}

/// The environment after the funding is cancelled.
pub open spec fn cancel_funding_post(e: EnvView) -> EnvView {
    let escrow = with_status(e.storage.escrow->0, STATUS_CANCELLED);
    e.with_storage(StorageView { escrow: Some(escrow), ..e.storage }).publish(
        Event::FundingCancelled(
            FundingCancelled {
                name: "fund_can",
                invoice_id: escrow.invoice_id,
                funded_amount: escrow.funded_amount,
            },
        ),
    )
}

/// Why a refund is refused.
pub open spec fn refund_refusal(e: EnvView, investor: Address) -> Option<Refusal> {
    if !e.has_auth(investor) {
        Some(Refusal::AuthRequired(investor))
    } else if e.storage.escrow is None {
        refused(EscrowError::EscrowNotInitialized)
    } else if e.storage.escrow->0.status != STATUS_CANCELLED {
        refused(EscrowError::RefundNotCancelled)
    } else if e.storage.contribution(investor) <= 0 {
        refused(EscrowError::NoContributionToRefund)
    } else {
        payment_refusal(e, e.storage.contribution(investor))
    }
}

/// The environment after a refund.
pub open spec fn refund_post(e: EnvView, investor: Address) -> EnvView {
    let amount = e.storage.contribution(investor);
    e.with_storage(
        StorageView {
            investor_contribution: e.storage.investor_contribution.insert(investor, 0),
            investor_refunded: e.storage.investor_refunded.insert(investor, true),
            distributed_principal: Some(saturated(e.storage.distributed() + amount)),
            ..e.storage
        },
    ).with_effect(payment(e, investor, amount)).publish(
        Event::InvestorRefundedEvt(
            InvestorRefundedEvt {
                name: "refunded",
                investor,
                invoice_id: e.storage.escrow->0.invoice_id,
                amount,
            },
        ),
    )
}

// ---------------------------------------------------------------------------------------------
// Sweeping and reconciliation
// ---------------------------------------------------------------------------------------------

/// Principal that is still owed, as far as it was not handed out.
pub open spec fn outstanding(s: StorageView) -> i128 {
    saturated(s.escrow->0.funded_amount - s.distributed())
}

/// What a sweep of up to `amount` moves.
pub open spec fn swept(e: EnvView, amount: i128) -> i128 {
    if amount <= e.contract_balance {
        amount
    } else {
        e.contract_balance
    }
}

/// Why a sweep is refused.
pub open spec fn sweep_refusal(e: EnvView, amount: i128) -> Option<Refusal> {
    let s = e.storage;
    if s.hold_active() {
        refused(EscrowError::LegalHoldBlocksTreasuryDustSweep)
    } else if amount <= 0 {
        refused(EscrowError::SweepAmountNotPositive)
    } else if amount > MAX_DUST_SWEEP_AMOUNT {
        refused(EscrowError::SweepAmountExceedsMax)
    } else if s.escrow is None {
        refused(EscrowError::EscrowNotInitialized)
    } else if s.escrow->0.status != STATUS_SETTLED && s.escrow->0.status != STATUS_WITHDRAWN
        && s.escrow->0.status != STATUS_CANCELLED {
        refused(EscrowError::DustSweepNotTerminal)
    } else if s.treasury is None {
        refused(EscrowError::TreasuryNotSet)
    } else if !e.has_auth(s.treasury->0) {
        Some(Refusal::AuthRequired(s.treasury->0))
    } else if s.funding_token is None {
        refused(EscrowError::FundingTokenNotSet)
    } else if e.contract_balance <= 0 {
        refused(EscrowError::NoFundingTokenBalanceToSweep)
    } else if s.escrow->0.status == STATUS_CANCELLED && e.contract_balance - swept(e, amount)
        < outstanding(s) {
        refused(EscrowError::SweepExceedsLiabilityFloor)
    } else {
        None
    }
}

/// The environment after a sweep.
pub open spec fn sweep_post(e: EnvView, amount: i128) -> EnvView {
    e.with_effect(payment(e, e.storage.treasury->0, swept(e, amount))).publish(
        Event::TreasuryDustSwept(
            TreasuryDustSwept {
                name: "dust_sw",
                invoice_id: e.storage.escrow->0.invoice_id,
                token: e.storage.funding_token->0,
                amount: swept(e, amount),
            },
        ),
    )
}

/// What the contract holds against what it owes.
pub open spec fn reconciliation(e: EnvView) -> ReconciliationView {
    let owed = if outstanding(e.storage) > 0 {
        outstanding(e.storage)
    } else {
        0
    };
    ReconciliationView {
        token_balance: e.contract_balance,
        outstanding_liability: owed,
        surplus: saturated(e.contract_balance - owed),
    }
}

impl LiquifactEscrow {
    /// Closes the funding early, with what has been deposited so far, so that the escrow can be
    /// settled. The SME and the admin may do so.
    pub fn partial_settle(env: &mut ContractEnv, caller: Address) -> (r: Result<
        InvoiceEscrow,
        Refusal,
    >)
        ensures
            outcome(
                partial_settle_refusal(old(env)@, caller),
                old(env)@,
                partial_settle_post(old(env)@),
                with_status(old(env)@.storage.escrow->0, STATUS_FUNDED),
                r,
                final(env)@,
            ),
    {
        env.require_auth(caller)?;
        ensure(!Self::legal_hold_active(env), EscrowError::LegalHoldBlocksPartialSettle)?;
        let mut escrow = Self::get_escrow(env)?;
        ensure(
            caller == escrow.sme_address || caller == escrow.admin,
            EscrowError::PartialSettleUnauthorizedCaller,
        )?;
        guard_status_eq(escrow.status, STATUS_OPEN, EscrowError::PartialSettleNotOpen)?;

        escrow.status = STATUS_FUNDED;
        if env.storage.funding_close_snapshot.is_none() {
            env.storage.funding_close_snapshot = Some(
                FundingCloseSnapshot {
                    total_principal: escrow.funded_amount,
                    funding_target: escrow.funding_target,
                    closed_at_ledger_timestamp: env.ledger.timestamp,
                    closed_at_ledger_sequence: env.ledger.sequence,
                },
            );
        }
        env.storage.escrow = Some(escrow);
        env.publish(
            Event::EscrowPartialSettle(
                EscrowPartialSettle {
                    name: "part_set",
                    invoice_id: escrow.invoice_id,
                    funded_amount: escrow.funded_amount,
                },
            ),
        );
        Ok(escrow)
    }

    /// Settles a funded escrow whose maturity, if any, has been reached.
    pub fn settle(env: &mut ContractEnv) -> (r: Result<InvoiceEscrow, Refusal>)
        ensures
            outcome(
                settle_refusal(old(env)@),
                old(env)@,
                settle_post(old(env)@),
                with_status(old(env)@.storage.escrow->0, STATUS_SETTLED),
                r,
                final(env)@,
            ),
    {
        ensure(!Self::paused_active(env), EscrowError::PausedBlocksSettlement)?;
        ensure(!Self::legal_hold_active(env), EscrowError::LegalHoldBlocksSettlement)?;
        let mut escrow = Self::load_escrow_require_sme(env)?;
        ensure(escrow.status == STATUS_FUNDED, EscrowError::SettlementNotFunded)?;
        let now: u64 = env.ledger.timestamp;
        if escrow.maturity > 0 {
            ensure(now >= escrow.maturity, EscrowError::MaturityNotReached)?;
        }
        escrow.status = STATUS_SETTLED;
        env.storage.settled_at = Some(now);
        env.storage.escrow = Some(escrow);
        env.publish(
            Event::EscrowSettled(
                EscrowSettled {
                    name: "escrow_sd",
                    invoice_id: escrow.invoice_id,
                    funded_amount: escrow.funded_amount,
                    yield_bps: escrow.yield_bps,
                    maturity: escrow.maturity,
                    settled_at_ledger_timestamp: now,
                },
            ),
        );
        Ok(escrow)
    }

    /// Pays the funded amount out to the SME, who pulls it, and closes the escrow.
    pub fn withdraw(env: &mut ContractEnv) -> (r: Result<InvoiceEscrow, Refusal>)
        ensures
            outcome(
                withdraw_refusal(old(env)@),
                old(env)@,
                withdraw_post(old(env)@),
                with_status(old(env)@.storage.escrow->0, STATUS_WITHDRAWN),
                r,
                final(env)@,
            ),
    {
        ensure(!Self::paused_active(env), EscrowError::PausedBlocksWithdrawal)?;
        ensure(!Self::legal_hold_active(env), EscrowError::LegalHoldBlocksWithdrawal)?;
        let mut escrow = Self::load_escrow_require_sme(env)?;
        guard_status_eq(escrow.status, STATUS_FUNDED, EscrowError::WithdrawalNotFunded)?;
        let amount: i128 = escrow.funded_amount;
        let sme = escrow.sme_address;
        let token = Self::funding_token_or_fail(env)?;
        ensure(env.contract_balance >= amount, EscrowError::InsufficientContractBalance)?;
        check_transfer(amount, env.contract_balance)?;

        escrow.status = STATUS_WITHDRAWN;
        env.storage.escrow = Some(escrow);
        let prev_distributed: i128 = env.storage.distributed_principal.unwrap_or(0);
        env.storage.distributed_principal = Some(saturating_add(prev_distributed, amount));
        let from = env.contract;
        env.transfer(TokenTransfer { token, from, to: sme, amount });
        env.publish(
            Event::SmeWithdrew(
                SmeWithdrew {
                    name: "sme_wd",
                    invoice_id: escrow.invoice_id,
                    amount,
                    recipient: sme,
                },
            ),
        );
        Ok(escrow)
    }

    /// Pays `investor` its share of a settled escrow. A second claim does nothing.
    pub fn claim_investor_payout(env: &mut ContractEnv, investor: Address) -> (r: Result<
        (),
        Refusal,
    >)
        ensures
            outcome(
                claim_refusal(old(env)@, investor),
                old(env)@,
                claim_post(old(env)@, investor),
                (),
                r,
                final(env)@,
            ),
    {
        ensure(!Self::paused_active(env), EscrowError::PausedBlocksInvestorClaims)?;
        ensure(!Self::legal_hold_active(env), EscrowError::LegalHoldBlocksInvestorClaims)?;
        env.require_auth(investor)?;
        let contribution: i128 = env.storage.investor_contribution.get(investor).unwrap_or(0);
        ensure(contribution > 0, EscrowError::NoContributionToClaim)?;
        let escrow = Self::get_escrow(env)?;
        guard_status_eq(escrow.status, STATUS_SETTLED, EscrowError::InvestorClaimNotSettled)?;
        let not_before: u64 = env.storage.investor_claim_not_before.get(investor).unwrap_or(0);
        ensure(
            env.ledger.timestamp >= not_before,
            EscrowError::InvestorCommitmentLockNotExpired,
        )?;
        if env.storage.investor_claimed.get(investor).unwrap_or(false) {
            return Ok(());
        }
        let payout: i128 = Self::compute_investor_payout(env, investor)?;
        ensure(payout > 0, EscrowError::PayoutZero)?;
        let token = Self::funding_token_or_fail(env)?;
        check_transfer(payout, env.contract_balance)?;

        env.storage.investor_claimed.insert(investor, true);
        let from = env.contract;
        env.transfer(TokenTransfer { token, from, to: investor, amount: payout });
        env.publish(
            Event::InvestorPayoutClaimed(
                InvestorPayoutClaimed {
                    name: "inv_claim",
                    investor,
                    invoice_id: escrow.invoice_id,
                },
            ),
        );
        Ok(())
    }

    /// What `investor` would be paid for a claim now: the gross payout, or `0` where a gate blocks
    /// the claim or it was made before.
    pub fn get_claimable_payout(env: &ContractEnv, investor: Address) -> (r: Result<i128, Refusal>)
        ensures
            r == claimable_payout(env@, investor),
    {
        let escrow = Self::get_escrow(env)?;
        if escrow.status != STATUS_SETTLED {
            return Ok(0);
        }
        if Self::paused_active(env) || Self::legal_hold_active(env) {
            return Ok(0);
        }
        if env.storage.investor_claimed.get(investor).unwrap_or(false) {
            return Ok(0);
        }
        let not_before: u64 = env.storage.investor_claim_not_before.get(investor).unwrap_or(0);
        if env.ledger.timestamp < not_before {
            return Ok(0);
        }
        Self::compute_investor_payout(env, investor)
    }

    /// The gross payout of `investor`, whether or not it may be claimed: its share of the principal
    /// at the close of funding and of the coupon on it, rounded down.
    pub fn compute_investor_payout(env: &ContractEnv, investor: Address) -> (r: Result<
        i128,
        Refusal,
    >)
        ensures
            r == investor_payout(env@.storage, investor),
    {
        let contribution: i128 = env.storage.investor_contribution.get(investor).unwrap_or(0);
        if contribution == 0 {
            return Ok(0);
        }
        let snapshot = match env.storage.funding_close_snapshot {
            Some(snapshot) => snapshot,
            None => {
                return Ok(0);
            },
        };
        if snapshot.total_principal <= 0 {
            return Ok(0);
        }
        let escrow = Self::get_escrow(env)?;
        let yield_bps: i64 = env.storage.investor_effective_yield.get(investor).unwrap_or(
            escrow.yield_bps,
        );
        pro_rata_payout(contribution, snapshot.total_principal, yield_bps)
    }

    fn settleable_now(env: &ContractEnv) -> (r: Result<bool, Refusal>)
        ensures
            r == (if env@.storage.pause_active() || env@.storage.hold_active() {
                Ok::<bool, Refusal>(false)
            } else if env@.storage.escrow is None {
                Err(Refusal::Error(EscrowError::EscrowNotInitialized))
            } else {
                Ok(settleable(env@))
            }),
    {
        if Self::paused_active(env) || Self::legal_hold_active(env) {
            return Ok(false);
        }
        let escrow = Self::get_escrow(env)?;
        if escrow.status != STATUS_FUNDED {
            return Ok(false);
        }
        if escrow.maturity > 0 && env.ledger.timestamp < escrow.maturity {
            return Ok(false);
        }
        Ok(true)
    }

    /// Whether [`LiquifactEscrow::settle`] would succeed now, given the SME's authorization.
    pub fn is_settleable(env: &ContractEnv) -> (r: Result<bool, Refusal>)
        ensures
            r == (if env@.storage.pause_active() || env@.storage.hold_active() {
                Ok::<bool, Refusal>(false)
            } else if env@.storage.escrow is None {
                Err(Refusal::Error(EscrowError::EscrowNotInitialized))
            } else {
                Ok(settleable(env@))
            }),
    {
        Self::settleable_now(env)
    }

    /// Whether settlement can go ahead, with what may stand in its way.
    pub fn get_settlement_readiness(env: &ContractEnv) -> (r: Result<SettlementReadiness, Refusal>)
        ensures
            r == (match env@.storage.escrow {
                None => Err::<SettlementReadiness, Refusal>(
                    Refusal::Error(EscrowError::EscrowNotInitialized),
                ),
                Some(escrow) => Ok(
                    SettlementReadiness {
                        is_settleable: settleable(env@),
                        legal_hold_active: env@.storage.hold_active(),
                        maturity_reached: maturity_reached(env@, escrow),
                        ready_now: settleable(env@),
                    },
                ),
            }),
    {
        let legal_hold_active = Self::legal_hold_active(env);
        let escrow = Self::get_escrow(env)?;
        let maturity_reached = escrow.maturity == 0 || env.ledger.timestamp >= escrow.maturity;
        let is_settleable = Self::settleable_now(env)?;
        Ok(
            SettlementReadiness {
                is_settleable,
                legal_hold_active,
                maturity_reached,
                ready_now: is_settleable,
            },
        )
    }

    /// Cancels an open escrow; its investors may then take their principal back.
    pub fn cancel_funding(env: &mut ContractEnv) -> (r: Result<InvoiceEscrow, Refusal>)
        ensures
            outcome(
                cancel_funding_refusal(old(env)@),
                old(env)@,
                cancel_funding_post(old(env)@),
                with_status(old(env)@.storage.escrow->0, STATUS_CANCELLED),
                r,
                final(env)@,
            ),
    {
        ensure(!Self::legal_hold_active(env), EscrowError::LegalHoldBlocksCancelFunding)?;
        let mut escrow = Self::load_escrow_require_admin(env)?;
        guard_status_eq(escrow.status, STATUS_OPEN, EscrowError::CancelFundingNotOpen)?;
        escrow.status = STATUS_CANCELLED;
        env.storage.escrow = Some(escrow);
        env.publish(
            Event::FundingCancelled(
                FundingCancelled {
                    name: "fund_can",
                    invoice_id: escrow.invoice_id,
                    funded_amount: escrow.funded_amount,
                },
            ),
        );
        Ok(escrow)
    }

    /// Pays `investor` its principal back out of a cancelled escrow, once.
    pub fn refund(env: &mut ContractEnv, investor: Address) -> (r: Result<(), Refusal>)
        ensures
            outcome(
                refund_refusal(old(env)@, investor),
                old(env)@,
                refund_post(old(env)@, investor),
                (),
                r,
                final(env)@,
            ),
    {
        env.require_auth(investor)?;
        let escrow = Self::get_escrow(env)?;
        guard_status_eq(escrow.status, STATUS_CANCELLED, EscrowError::RefundNotCancelled)?;
        let amount: i128 = env.storage.investor_contribution.get(investor).unwrap_or(0);
        ensure(amount > 0, EscrowError::NoContributionToRefund)?;
        let token = Self::funding_token_or_fail(env)?;
        check_transfer(amount, env.contract_balance)?;

        env.storage.investor_contribution.insert(investor, 0);
        env.storage.investor_refunded.insert(investor, true);
        let prev_distributed: i128 = env.storage.distributed_principal.unwrap_or(0);
        env.storage.distributed_principal = Some(saturating_add(prev_distributed, amount));
        let from = env.contract;
        env.transfer(TokenTransfer { token, from, to: investor, amount });
        env.publish(
            Event::InvestorRefundedEvt(
                InvestorRefundedEvt {
                    name: "refunded",
                    investor,
                    invoice_id: escrow.invoice_id,
                    amount,
                },
            ),
        );
        Ok(())
    }

    /// Moves up to `amount` of what is left in a finished escrow to the treasury. In a cancelled
    /// escrow the principal that is still owed stays.
    pub fn sweep_terminal_dust(env: &mut ContractEnv, amount: i128) -> (r: Result<i128, Refusal>)
        ensures
            outcome(
                sweep_refusal(old(env)@, amount),
                old(env)@,
                sweep_post(old(env)@, amount),
                swept(old(env)@, amount),
                r,
                final(env)@,
            ),
    {
        ensure(!Self::legal_hold_active(env), EscrowError::LegalHoldBlocksTreasuryDustSweep)?;
        ensure(amount > 0, EscrowError::SweepAmountNotPositive)?;
        ensure(amount <= MAX_DUST_SWEEP_AMOUNT, EscrowError::SweepAmountExceedsMax)?;
        let escrow = Self::get_escrow(env)?;
        let terminal: [u32; 3] = [STATUS_SETTLED, STATUS_WITHDRAWN, STATUS_CANCELLED];
        assert(terminal@ =~= seq![STATUS_SETTLED, STATUS_WITHDRAWN, STATUS_CANCELLED]);
        proof {
            assert(terminal@[0] == STATUS_SETTLED);
            assert(terminal@[1] == STATUS_WITHDRAWN);
            assert(terminal@[2] == STATUS_CANCELLED);
        }
        guard_status_in(escrow.status, &terminal, EscrowError::DustSweepNotTerminal)?;
        let treasury = Self::treasury_or_fail(env)?;
        env.require_auth(treasury)?;
        let token = Self::funding_token_or_fail(env)?;
        let balance: i128 = env.contract_balance;
        ensure(balance > 0, EscrowError::NoFundingTokenBalanceToSweep)?;
        let sweep_amt: i128 = if amount <= balance {
            amount
        } else {
            balance
        };
        ensure(sweep_amt > 0, EscrowError::EffectiveSweepAmountZero)?;
        if escrow.status == STATUS_CANCELLED {
            let distributed: i128 = env.storage.distributed_principal.unwrap_or(0);
            let outstanding: i128 = saturating_sub(escrow.funded_amount, distributed);
            ensure(balance - sweep_amt >= outstanding, EscrowError::SweepExceedsLiabilityFloor)?;
        }
        check_transfer(sweep_amt, balance)?;
        let from = env.contract;
        env.transfer(TokenTransfer { token, from, to: treasury, amount: sweep_amt });
        env.publish(
            Event::TreasuryDustSwept(
                TreasuryDustSwept {
                    name: "dust_sw",
                    invoice_id: escrow.invoice_id,
                    token,
                    amount: sweep_amt,
                },
            ),
        );
        Ok(sweep_amt)
    }

    /// What the contract holds against what it owes, by the measure that
    /// [`LiquifactEscrow::sweep_terminal_dust`] applies to a cancelled escrow.
    pub fn get_reconciliation(env: &ContractEnv) -> (r: Result<ReconciliationView, Refusal>)
        ensures
            r == (if env@.storage.escrow is None {
                Err::<ReconciliationView, Refusal>(
                    Refusal::Error(EscrowError::EscrowNotInitialized),
                )
            } else if env@.storage.funding_token is None {
                Err(Refusal::Error(EscrowError::FundingTokenNotSet))
            } else {
                Ok(reconciliation(env@))
            }),
    {
        let escrow = Self::get_escrow(env)?;
        let distributed: i128 = env.storage.distributed_principal.unwrap_or(0);
        let unpaid: i128 = saturating_sub(escrow.funded_amount, distributed);
        let outstanding_liability: i128 = if unpaid > 0 {
            unpaid
        } else {
            0
        };
        Self::funding_token_or_fail(env)?;
        let token_balance: i128 = env.contract_balance;
        let surplus: i128 = saturating_sub(token_balance, outstanding_liability);
        Ok(ReconciliationView { token_balance, outstanding_liability, surplus })
    }

    /// Whether `investor` has been refunded.
    pub fn is_investor_refunded(env: &ContractEnv, investor: Address) -> (r: bool)
        ensures
            r == env@.storage.refunded(investor),
    {
        env.storage.investor_refunded.get(investor).unwrap_or(false)
    }

    /// Principal already handed out by refunds and the SME's withdrawal.
    pub fn get_distributed_principal(env: &ContractEnv) -> (r: i128)
        ensures
            r == env@.storage.distributed(),
    {
        env.storage.distributed_principal.unwrap_or(0)
    }
}

} // verus!
