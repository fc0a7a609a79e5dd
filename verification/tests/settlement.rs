use liquifact_escrow::env::{ContractEnv, Effect, LedgerInfo, Storage, TokenTransfer};
use liquifact_escrow::events::Event;
use liquifact_escrow::external_calls::{check_balance_deltas, check_transfer};
use liquifact_escrow::invoice_id::IdText;
use liquifact_escrow::payout::pro_rata_payout;
use liquifact_escrow::values::{Address, AddressKind};
use liquifact_escrow::wide::{mul_div, mul_div_signed};
use liquifact_escrow::{
    DefaultMockToken, EscrowError, InvoiceEscrow, LiquifactEscrow, Refusal, YieldTier,
    MAX_DUST_SWEEP_AMOUNT, MAX_INVOICE_AMOUNT, MOCK_TOKEN_DEFAULT_BALANCE,
};

const ADMIN: Address = account(1);
const SME: Address = account(2);
const TOKEN: Address = contract(3);
const TREASURY: Address = account(4);
const ALICE: Address = account(10);
const BOB: Address = account(11);
const CAROL: Address = account(12);

const fn account(n: u8) -> Address {
    Address { kind: AddressKind::Account, key: [n; 32] }
}

const fn contract(n: u8) -> Address {
    Address { kind: AddressKind::Contract, key: [n; 32] }
}

/// An environment at time 1000 in which everybody has authorized the call.
fn new_env() -> ContractEnv {
    ContractEnv {
        storage: Storage::new(),
        ledger: LedgerInfo { timestamp: 1000, sequence: 7 },
        authorized: vec![ADMIN, SME, TREASURY, ALICE, BOB, CAROL],
        contract: contract(99),
        contract_balance: 0,
        effects: Vec::new(),
    }
}

struct Terms {
    amount: i128,
    yield_bps: i64,
    maturity: u64,
    yield_tiers: Option<Vec<YieldTier>>,
    min_contribution: Option<i128>,
    max_unique_investors: Option<u32>,
    max_per_investor: Option<i128>,
    legal_hold_clear_delay: Option<u64>,
    allowlist_active: Option<bool>,
}

fn terms() -> Terms {
    Terms {
        amount: 10_000,
        yield_bps: 800,
        maturity: 0,
        yield_tiers: None,
        min_contribution: None,
        max_unique_investors: None,
        max_per_investor: None,
        legal_hold_clear_delay: None,
        allowlist_active: None,
    }
}

fn try_init(env: &mut ContractEnv, id: &[u8], t: Terms) -> Result<InvoiceEscrow, Refusal> {
    LiquifactEscrow::init_with_id(
        env,
        ADMIN,
        IdText::Plain(id),
        SME,
        t.amount,
        t.yield_bps,
        t.maturity,
        TOKEN,
        None,
        TREASURY,
        t.yield_tiers,
        t.min_contribution,
        t.max_unique_investors,
        t.max_per_investor,
        t.legal_hold_clear_delay,
        None,
        None,
        t.allowlist_active,
    )
}

fn escrow_with(t: Terms) -> ContractEnv {
    let mut env = new_env();
    try_init(&mut env, b"INV_1", t).unwrap();
    env.effects.clear();
    env
}

fn open_escrow() -> ContractEnv {
    escrow_with(terms())
}

fn refused(error: EscrowError) -> Refusal {
    Refusal::Error(error)
}

/// Performs the transfers that the last call left behind on the contract's balance.
fn settle_transfers(env: &mut ContractEnv) {
    for effect in &env.effects {
        if let Effect::Transfer(t) = effect {
            if t.to == env.contract {
                env.contract_balance += t.amount;
            }
            if t.from == env.contract {
                env.contract_balance -= t.amount;
            }
        }
    }
    env.effects.clear();
}

fn fund(env: &mut ContractEnv, investor: Address, amount: i128) {
    LiquifactEscrow::fund(env, investor, amount).unwrap();
    settle_transfers(env);
}

/// Alice has deposited 4000 and Bob 6000 of 10_000.
fn funded_escrow(t: Terms) -> ContractEnv {
    let mut env = escrow_with(t);
    fund(&mut env, ALICE, 4_000);
    fund(&mut env, BOB, 6_000);
    env
}

fn settled_escrow(t: Terms) -> ContractEnv {
    let mut env = funded_escrow(t);
    LiquifactEscrow::settle(&mut env).unwrap();
    env.effects.clear();
    env.contract_balance += 10_000;
    env
}

fn cancelled_escrow() -> ContractEnv {
    let mut env = open_escrow();
    fund(&mut env, ALICE, 4_000);
    fund(&mut env, BOB, 1_000);
    LiquifactEscrow::cancel_funding(&mut env).unwrap();
    env.effects.clear();
    env
}

#[test]
fn settlement_waits_for_funding_maturity_and_the_sme() {
    let mut env = escrow_with(Terms { maturity: 2_000, ..terms() });
    assert_eq!(
        LiquifactEscrow::settle(&mut env),
        Err(refused(EscrowError::SettlementNotFunded))
    );
    fund(&mut env, ALICE, 10_000);
    env.ledger.timestamp = 1_999;
    assert_eq!(
        LiquifactEscrow::settle(&mut env),
        Err(refused(EscrowError::MaturityNotReached))
    );
    assert_eq!(LiquifactEscrow::is_settleable(&env), Ok(false));
    env.ledger.timestamp = 2_000;
    assert_eq!(LiquifactEscrow::is_settleable(&env), Ok(true));
    env.authorized = vec![ADMIN];
    assert_eq!(LiquifactEscrow::settle(&mut env), Err(Refusal::AuthRequired(SME)));
    env.authorized = vec![SME];
    let escrow = LiquifactEscrow::settle(&mut env).unwrap();
    assert_eq!(escrow.status, 2);
    assert_eq!(LiquifactEscrow::get_settled_at(&env), Some(2_000));
    match env.effects[0] {
        Effect::Publish(Event::EscrowSettled(event)) => {
            assert_eq!(event.name, "escrow_sd");
            assert_eq!(event.settled_at_ledger_timestamp, 2_000);
            assert_eq!(event.funded_amount, 10_000);
        }
        _ => panic!("no settlement event"),
    }
}

#[test]
fn readiness_predicts_settlement() {
    for maturity in [0, 2_000] {
        for status in 0..5 {
            for hold in [false, true] {
                for pause in [false, true] {
                    let mut env = funded_escrow(Terms { maturity, ..terms() });
                    let mut escrow = env.storage.escrow.unwrap();
                    escrow.status = status;
                    env.storage.escrow = Some(escrow);
                    env.storage.legal_hold = Some(hold);
                    env.storage.paused = Some(pause);
                    let readiness = LiquifactEscrow::get_settlement_readiness(&env).unwrap();
                    assert_eq!(readiness.legal_hold_active, hold);
                    assert_eq!(readiness.maturity_reached, maturity == 0);
                    assert_eq!(readiness.is_settleable, readiness.ready_now);
                    assert_eq!(readiness.ready_now, LiquifactEscrow::settle(&mut env).is_ok());
                }
            }
        }
    }
}

#[test]
fn partial_settle_closes_early() {
    let mut env = open_escrow();
    fund(&mut env, ALICE, 4_000);
    assert_eq!(
        LiquifactEscrow::partial_settle(&mut env, account(77)),
        Err(Refusal::AuthRequired(account(77)))
    );
    assert_eq!(
        LiquifactEscrow::partial_settle(&mut env, ALICE),
        Err(refused(EscrowError::PartialSettleUnauthorizedCaller))
    );
    env.storage.legal_hold = Some(true);
    assert_eq!(
        LiquifactEscrow::partial_settle(&mut env, SME),
        Err(refused(EscrowError::LegalHoldBlocksPartialSettle))
    );
    env.storage.legal_hold = None;
    let escrow = LiquifactEscrow::partial_settle(&mut env, SME).unwrap();
    assert_eq!(escrow.status, 1);
    let snapshot = LiquifactEscrow::get_funding_close_snapshot(&env).unwrap();
    assert_eq!(snapshot.total_principal, 4_000);
    assert_eq!(snapshot.funding_target, 10_000);
    assert_eq!(
        LiquifactEscrow::partial_settle(&mut env, ADMIN),
        Err(refused(EscrowError::PartialSettleNotOpen))
    );
}

#[test]
fn withdrawal_pays_the_sme_and_closes() {
    let mut env = funded_escrow(terms());
    let escrow = LiquifactEscrow::withdraw(&mut env).unwrap();
    assert_eq!(escrow.status, 3);
    assert_eq!(
        env.effects[0],
        Effect::Transfer(TokenTransfer {
            token: TOKEN,
            from: contract(99),
            to: SME,
            amount: 10_000,
        })
    );
    assert_eq!(LiquifactEscrow::get_distributed_principal(&env), 10_000);
    settle_transfers(&mut env);
    assert_eq!(env.contract_balance, 0);
    assert_eq!(
        LiquifactEscrow::withdraw(&mut env),
        Err(refused(EscrowError::WithdrawalNotFunded))
    );
}

#[test]
fn withdrawal_needs_the_balance() {
    let mut env = funded_escrow(terms());
    env.contract_balance = 9_999;
    assert_eq!(
        LiquifactEscrow::withdraw(&mut env),
        Err(refused(EscrowError::InsufficientContractBalance))
    );
    let mut nothing = open_escrow();
    LiquifactEscrow::partial_settle(&mut nothing, SME).unwrap();
    assert_eq!(
        LiquifactEscrow::withdraw(&mut nothing),
        Err(refused(EscrowError::TransferAmountNotPositive))
    );
    env.contract_balance = 10_000;
    env.storage.funding_token = None;
    assert_eq!(
        LiquifactEscrow::withdraw(&mut env),
        Err(refused(EscrowError::FundingTokenNotSet))
    );
}

#[test]
fn claims_pay_pro_rata_rounded_down() {
    let mut env = open_escrow();
    fund(&mut env, ALICE, 3_333);
    fund(&mut env, BOB, 6_668);
    LiquifactEscrow::settle(&mut env).unwrap();
    env.contract_balance += 1_000;
    // coupon = 10_001 * 800 / 10_000 = 800; pool = 10_801.
    assert_eq!(LiquifactEscrow::compute_investor_payout(&env, ALICE), Ok(3_333 * 10_801 / 10_001));
    assert_eq!(LiquifactEscrow::compute_investor_payout(&env, ALICE), Ok(3_599));
    assert_eq!(LiquifactEscrow::compute_investor_payout(&env, BOB), Ok(7_201));
    assert_eq!(LiquifactEscrow::compute_investor_payout(&env, CAROL), Ok(0));
    assert!(3_599 + 7_201 <= 10_801);
    env.effects.clear();
    LiquifactEscrow::claim_investor_payout(&mut env, ALICE).unwrap();
    assert_eq!(
        env.effects[0],
        Effect::Transfer(TokenTransfer {
            token: TOKEN,
            from: contract(99),
            to: ALICE,
            amount: 3_599,
        })
    );
    match env.effects[1] {
        Effect::Publish(Event::InvestorPayoutClaimed(event)) => {
            assert_eq!(event.name, "inv_claim");
            assert_eq!(event.investor, ALICE);
        }
        _ => panic!("no claim event"),
    }
}

#[test]
fn second_claim_does_nothing() {
    let mut env = settled_escrow(terms());
    assert_eq!(LiquifactEscrow::get_claimable_payout(&env, ALICE), Ok(4_320));
    LiquifactEscrow::claim_investor_payout(&mut env, ALICE).unwrap();
    settle_transfers(&mut env);
    assert!(LiquifactEscrow::is_investor_claimed(&env, ALICE));
    assert_eq!(LiquifactEscrow::get_claimable_payout(&env, ALICE), Ok(0));
    assert_eq!(LiquifactEscrow::claim_investor_payout(&mut env, ALICE), Ok(()));
    assert!(env.effects.is_empty());
    assert_eq!(env.contract_balance, 20_000 - 4_320);
}

#[test]
fn claim_lock_is_inclusive() {
    let mut env = open_escrow();
    LiquifactEscrow::fund_with_commitment(&mut env, ALICE, 10_000, 500).unwrap();
    settle_transfers(&mut env);
    LiquifactEscrow::settle(&mut env).unwrap();
    env.contract_balance = 20_000;
    env.ledger.timestamp = 1_499;
    assert_eq!(LiquifactEscrow::get_claimable_payout(&env, ALICE), Ok(0));
    assert_eq!(
        LiquifactEscrow::claim_investor_payout(&mut env, ALICE),
        Err(refused(EscrowError::InvestorCommitmentLockNotExpired))
    );
    env.ledger.timestamp = 1_500;
    assert_eq!(LiquifactEscrow::get_claimable_payout(&env, ALICE), Ok(10_800));
    assert_eq!(LiquifactEscrow::claim_investor_payout(&mut env, ALICE), Ok(()));
}

#[test]
fn claims_are_refused_for_their_reasons() {
    let mut env = funded_escrow(terms());
    assert_eq!(
        LiquifactEscrow::claim_investor_payout(&mut env, ALICE),
        Err(refused(EscrowError::InvestorClaimNotSettled))
    );
    assert_eq!(LiquifactEscrow::get_claimable_payout(&env, ALICE), Ok(0));
    LiquifactEscrow::settle(&mut env).unwrap();
    assert_eq!(
        LiquifactEscrow::claim_investor_payout(&mut env, CAROL),
        Err(refused(EscrowError::NoContributionToClaim))
    );
    env.contract_balance = 4_319;
    assert_eq!(
        LiquifactEscrow::claim_investor_payout(&mut env, ALICE),
        Err(refused(EscrowError::InsufficientTokenBalanceBeforeTransfer))
    );
    env.storage.legal_hold = Some(true);
    assert_eq!(
        LiquifactEscrow::claim_investor_payout(&mut env, ALICE),
        Err(refused(EscrowError::LegalHoldBlocksInvestorClaims))
    );
    assert_eq!(LiquifactEscrow::get_claimable_payout(&env, ALICE), Ok(0));
    env.storage.legal_hold = None;
    env.storage.paused = Some(true);
    assert_eq!(
        LiquifactEscrow::claim_investor_payout(&mut env, ALICE),
        Err(refused(EscrowError::PausedBlocksInvestorClaims))
    );
    assert_eq!(LiquifactEscrow::get_claimable_payout(&env, ALICE), Ok(0));
    env.storage.paused = None;
    env.authorized = vec![BOB];
    assert_eq!(
        LiquifactEscrow::claim_investor_payout(&mut env, ALICE),
        Err(Refusal::AuthRequired(ALICE))
    );
}

#[test]
fn zero_payout_is_refused() {
    let mut env = settled_escrow(terms());
    let mut snapshot = env.storage.funding_close_snapshot.unwrap();
    snapshot.total_principal = 0;
    env.storage.funding_close_snapshot = Some(snapshot);
    assert_eq!(
        LiquifactEscrow::claim_investor_payout(&mut env, ALICE),
        Err(refused(EscrowError::PayoutZero))
    );
}

#[test]
fn large_payouts_do_not_overflow() {
    let principal: i128 = 100_000_000_000_000_000_000;
    for (yield_bps, payout) in [(0, principal), (10_000, 2 * principal)] {
        let mut env = escrow_with(Terms { amount: principal, yield_bps, ..terms() });
        fund(&mut env, ALICE, principal);
        LiquifactEscrow::settle(&mut env).unwrap();
        env.effects.clear();
        assert_eq!(LiquifactEscrow::compute_investor_payout(&env, ALICE), Ok(payout));
        env.contract_balance = payout;
        LiquifactEscrow::claim_investor_payout(&mut env, ALICE).unwrap();
        settle_transfers(&mut env);
        assert_eq!(env.contract_balance, 0);
    }
}

#[test]
fn payout_overflow_is_reported() {
    let mut env = escrow_with(Terms { amount: MAX_INVOICE_AMOUNT, yield_bps: 10_000, ..terms() });
    fund(&mut env, ALICE, MAX_INVOICE_AMOUNT + 1);
    LiquifactEscrow::settle(&mut env).unwrap();
    assert_eq!(
        LiquifactEscrow::compute_investor_payout(&env, ALICE),
        Err(refused(EscrowError::ComputePayoutArithmeticOverflow))
    );
    assert_eq!(
        LiquifactEscrow::claim_investor_payout(&mut env, ALICE),
        Err(refused(EscrowError::ComputePayoutArithmeticOverflow))
    );
}

#[test]
fn payout_formula() {
    assert_eq!(pro_rata_payout(4_000, 10_000, 800), Ok(4_320));
    assert_eq!(pro_rata_payout(1, 3, 0), Ok(1));
    assert_eq!(pro_rata_payout(1, 3, 10_000), Ok(2));
    assert_eq!(pro_rata_payout(7, 10, 1_234), Ok(7));
    assert_eq!(pro_rata_payout(i128::MAX, i128::MAX, 0), Ok(i128::MAX));
    assert_eq!(
        pro_rata_payout(1, i128::MAX, 2),
        Err(refused(EscrowError::ComputePayoutArithmeticOverflow))
    );
    assert_eq!(
        pro_rata_payout(1, i128::MAX, 1),
        Err(refused(EscrowError::ComputePayoutArithmeticOverflow))
    );
    assert_eq!(pro_rata_payout(i128::MAX, 1, 0), Ok(i128::MAX));
    assert_eq!(
        pro_rata_payout(i128::MAX, 1, 10_000),
        Err(refused(EscrowError::ComputePayoutArithmeticOverflow))
    );
}

#[test]
fn payouts_of_a_batch_past_the_target_stay_within_the_funded_pool() {
    let mut env = escrow_with(Terms { amount: 1_000, yield_bps: 800, ..terms() });
    LiquifactEscrow::fund_batch(&mut env, &vec![(ALICE, 1_000), (BOB, 10)]).unwrap();
    settle_transfers(&mut env);
    LiquifactEscrow::settle(&mut env).unwrap();
    env.effects.clear();
    assert_eq!(LiquifactEscrow::compute_investor_payout(&env, ALICE), Ok(1_080));
    assert_eq!(LiquifactEscrow::compute_investor_payout(&env, BOB), Ok(10));
    // The funded amount and the coupon on it.
    env.contract_balance = 1_010 + 1_010 * 800 / 10_000;
    for who in [BOB, ALICE] {
        LiquifactEscrow::claim_investor_payout(&mut env, who).unwrap();
        settle_transfers(&mut env);
    }
    assert_eq!(env.contract_balance, 0);
}

#[test]
fn products_are_divided_in_full() {
    assert_eq!(mul_div(7, 9, 4), Some((15, 3)));
    assert_eq!(mul_div(0, 5, 3), Some((0, 0)));
    assert_eq!(mul_div(5, 0, 3), Some((0, 0)));
    assert_eq!(mul_div(u128::MAX, 1, 1), Some((u128::MAX, 0)));
    assert_eq!(mul_div(u128::MAX, 2, 1), None);
    assert_eq!(mul_div(u128::MAX, 5, 10), Some((i128::MAX as u128, 5)));
    assert_eq!(mul_div(u128::MAX, u128::MAX, i128::MAX as u128), None);
    assert_eq!(mul_div_signed(7, 3, 2), Some(10));
    assert_eq!(mul_div_signed(-7, 3, 2), Some(-10));
    assert_eq!(mul_div_signed(7, -3, 2), Some(-10));
    assert_eq!(mul_div_signed(-7, -3, 2), Some(10));
    assert_eq!(mul_div_signed(-1, 1, 2), Some(0));
    assert_eq!(mul_div_signed(i128::MIN, 0, 5), Some(0));
    assert_eq!(mul_div_signed(i128::MAX, i128::MAX, i128::MAX), Some(i128::MAX));
    assert_eq!(mul_div_signed(i128::MIN, i128::MAX, i128::MAX), Some(i128::MIN));
    assert_eq!(mul_div_signed(i128::MIN, -1, 1), None);
    assert_eq!(mul_div_signed(i128::MAX, 2, 1), None);
    assert_eq!(mul_div_signed(i128::MAX, -2, 1), None);
}

#[test]
fn nobody_is_paid_twice_whatever_happens_in_between() {
    let mut env = settled_escrow(terms());
    env.contract_balance = 4_320 + 6_480;
    LiquifactEscrow::claim_investor_payout(&mut env, ALICE).unwrap();
    settle_transfers(&mut env);
    LiquifactEscrow::set_paused(&mut env, true).unwrap();
    LiquifactEscrow::set_paused(&mut env, false).unwrap();
    LiquifactEscrow::set_investor_allowlisted(&mut env, ALICE, true).unwrap();
    LiquifactEscrow::claim_investor_payout(&mut env, BOB).unwrap();
    LiquifactEscrow::bump_ttl(&mut env, &vec![ALICE]);
    env.effects.clear();
    assert!(LiquifactEscrow::is_investor_claimed(&env, ALICE));
    assert_eq!(LiquifactEscrow::claim_investor_payout(&mut env, ALICE), Ok(()));
    assert!(env.effects.is_empty());

    let mut env = cancelled_escrow();
    LiquifactEscrow::refund(&mut env, ALICE).unwrap();
    settle_transfers(&mut env);
    LiquifactEscrow::set_paused(&mut env, true).unwrap();
    LiquifactEscrow::refund(&mut env, BOB).unwrap();
    env.effects.clear();
    assert_eq!(
        LiquifactEscrow::refund(&mut env, ALICE),
        Err(refused(EscrowError::NoContributionToRefund))
    );
    assert!(env.effects.is_empty());
}

#[test]
fn refund_returns_the_principal_once() {
    let mut env = cancelled_escrow();
    assert_eq!(LiquifactEscrow::get_escrow(&env).unwrap().status, 4);
    LiquifactEscrow::refund(&mut env, ALICE).unwrap();
    assert_eq!(
        env.effects[0],
        Effect::Transfer(TokenTransfer {
            token: TOKEN,
            from: contract(99),
            to: ALICE,
            amount: 4_000,
        })
    );
    settle_transfers(&mut env);
    assert!(LiquifactEscrow::is_investor_refunded(&env, ALICE));
    assert!(!LiquifactEscrow::is_investor_refunded(&env, BOB));
    assert_eq!(LiquifactEscrow::get_distributed_principal(&env), 4_000);
    assert_eq!(
        LiquifactEscrow::refund(&mut env, ALICE),
        Err(refused(EscrowError::NoContributionToRefund))
    );
    assert_eq!(env.contract_balance, 1_000);
}

#[test]
fn cancel_and_refund_are_refused_for_their_reasons() {
    let mut env = open_escrow();
    fund(&mut env, ALICE, 1);
    assert_eq!(
        LiquifactEscrow::refund(&mut env, ALICE),
        Err(refused(EscrowError::RefundNotCancelled))
    );
    env.storage.legal_hold = Some(true);
    assert_eq!(
        LiquifactEscrow::cancel_funding(&mut env),
        Err(refused(EscrowError::LegalHoldBlocksCancelFunding))
    );
    env.storage.legal_hold = None;
    env.authorized = vec![SME, ALICE];
    assert_eq!(LiquifactEscrow::cancel_funding(&mut env), Err(Refusal::AuthRequired(ADMIN)));
    let mut funded = funded_escrow(terms());
    assert_eq!(
        LiquifactEscrow::cancel_funding(&mut funded),
        Err(refused(EscrowError::CancelFundingNotOpen))
    );
}

#[test]
fn sweep_leaves_what_is_owed_in_a_cancelled_escrow() {
    let mut env = cancelled_escrow();
    env.contract_balance += 300;
    assert_eq!(
        LiquifactEscrow::sweep_terminal_dust(&mut env, 301),
        Err(refused(EscrowError::SweepExceedsLiabilityFloor))
    );
    let position = LiquifactEscrow::get_reconciliation(&env).unwrap();
    assert_eq!(position.token_balance, 5_300);
    assert_eq!(position.outstanding_liability, 5_000);
    assert_eq!(position.surplus, 300);
    assert_eq!(LiquifactEscrow::sweep_terminal_dust(&mut env, 300), Ok(300));
    assert_eq!(
        env.effects[0],
        Effect::Transfer(TokenTransfer {
            token: TOKEN,
            from: contract(99),
            to: TREASURY,
            amount: 300,
        })
    );
    settle_transfers(&mut env);
    LiquifactEscrow::refund(&mut env, ALICE).unwrap();
    settle_transfers(&mut env);
    LiquifactEscrow::refund(&mut env, BOB).unwrap();
    settle_transfers(&mut env);
    assert_eq!(env.contract_balance, 0);
}

#[test]
fn sweep_is_capped_by_the_balance() {
    let mut env = settled_escrow(terms());
    env.contract_balance = 5;
    assert_eq!(LiquifactEscrow::sweep_terminal_dust(&mut env, MAX_DUST_SWEEP_AMOUNT), Ok(5));
}

#[test]
fn sweep_is_refused_for_its_reasons() {
    let mut env = settled_escrow(terms());
    assert_eq!(
        LiquifactEscrow::sweep_terminal_dust(&mut env, 0),
        Err(refused(EscrowError::SweepAmountNotPositive))
    );
    assert_eq!(
        LiquifactEscrow::sweep_terminal_dust(&mut env, MAX_DUST_SWEEP_AMOUNT + 1),
        Err(refused(EscrowError::SweepAmountExceedsMax))
    );
    env.contract_balance = 0;
    assert_eq!(
        LiquifactEscrow::sweep_terminal_dust(&mut env, 1),
        Err(refused(EscrowError::NoFundingTokenBalanceToSweep))
    );
    env.authorized = vec![ADMIN];
    assert_eq!(
        LiquifactEscrow::sweep_terminal_dust(&mut env, 1),
        Err(Refusal::AuthRequired(TREASURY))
    );
    env.storage.treasury = None;
    assert_eq!(
        LiquifactEscrow::sweep_terminal_dust(&mut env, 1),
        Err(refused(EscrowError::TreasuryNotSet))
    );
    env.storage.legal_hold = Some(true);
    assert_eq!(
        LiquifactEscrow::sweep_terminal_dust(&mut env, 1),
        Err(refused(EscrowError::LegalHoldBlocksTreasuryDustSweep))
    );
    let mut live = funded_escrow(terms());
    assert_eq!(
        LiquifactEscrow::sweep_terminal_dust(&mut live, 1),
        Err(refused(EscrowError::DustSweepNotTerminal))
    );
}

#[test]
fn reconciliation_reports_a_deficit() {
    let mut env = cancelled_escrow();
    env.contract_balance = 4_000;
    let position = LiquifactEscrow::get_reconciliation(&env).unwrap();
    assert_eq!(position.surplus, -1_000);
    let empty = new_env();
    assert_eq!(
        LiquifactEscrow::get_reconciliation(&empty),
        Err(refused(EscrowError::EscrowNotInitialized))
    );
}

#[test]
fn principal_stays_covered_through_a_cancellation() {
    let mut env = cancelled_escrow();
    env.contract_balance += 7;
    let owed = |env: &ContractEnv| {
        LiquifactEscrow::get_contribution(env, ALICE) + LiquifactEscrow::get_contribution(env, BOB)
    };
    assert!(LiquifactEscrow::sweep_terminal_dust(&mut env, 8).is_err());
    LiquifactEscrow::refund(&mut env, BOB).unwrap();
    settle_transfers(&mut env);
    assert!(env.contract_balance >= owed(&env));
    LiquifactEscrow::sweep_terminal_dust(&mut env, 7).unwrap();
    settle_transfers(&mut env);
    assert_eq!(env.contract_balance, owed(&env));
}

#[test]
fn transfer_checks() {
    assert_eq!(check_transfer(5, 5), Ok(()));
    assert_eq!(check_transfer(0, 5), Err(refused(EscrowError::TransferAmountNotPositive)));
    assert_eq!(
        check_transfer(6, 5),
        Err(refused(EscrowError::InsufficientTokenBalanceBeforeTransfer))
    );
    assert_eq!(check_balance_deltas(5, 10, 5, 0, 5), Ok(()));
    assert_eq!(
        check_balance_deltas(5, 10, 6, 0, 5),
        Err(refused(EscrowError::SenderBalanceDeltaMismatch))
    );
    assert_eq!(
        check_balance_deltas(5, 10, 5, 0, 4),
        Err(refused(EscrowError::RecipientBalanceDeltaMismatch))
    );
    assert_eq!(
        check_balance_deltas(5, i128::MIN, 1, 0, 5),
        Err(refused(EscrowError::SenderBalanceUnderflow))
    );
    assert_eq!(
        check_balance_deltas(5, 10, 5, i128::MAX, -2),
        Err(refused(EscrowError::RecipientBalanceUnderflow))
    );
}

#[test]
fn mock_token_moves_balances() {
    let mut token = DefaultMockToken::new();
    assert_eq!(token.balance(ALICE), MOCK_TOKEN_DEFAULT_BALANCE);
    token.transfer(ALICE, BOB, 5);
    assert_eq!(token.balance(ALICE), MOCK_TOKEN_DEFAULT_BALANCE - 5);
    assert_eq!(token.balance(BOB), MOCK_TOKEN_DEFAULT_BALANCE + 5);
    token.transfer(CAROL, CAROL, 5);
    assert_eq!(token.balance(CAROL), MOCK_TOKEN_DEFAULT_BALANCE + 5);
}

#[test]
fn final_statuses_are_final() {
    for mut env in [settled_escrow(terms()), cancelled_escrow()] {
        let status = LiquifactEscrow::get_escrow(&env).unwrap().status;
        assert!(LiquifactEscrow::fund(&mut env, CAROL, 1).is_err());
        assert!(LiquifactEscrow::partial_settle(&mut env, SME).is_err());
        assert!(LiquifactEscrow::settle(&mut env).is_err());
        assert!(LiquifactEscrow::withdraw(&mut env).is_err());
        assert!(LiquifactEscrow::cancel_funding(&mut env).is_err());
        assert!(LiquifactEscrow::update_funding_target(&mut env, 1_000_000).is_err());
        assert_eq!(LiquifactEscrow::get_escrow(&env).unwrap().status, status);
    }
}

#[test]
fn settlement_time_stays() {
    let mut env = settled_escrow(terms());
    env.ledger.timestamp = 5_000;
    LiquifactEscrow::claim_investor_payout(&mut env, ALICE).unwrap();
    assert!(LiquifactEscrow::settle(&mut env).is_err());
    assert_eq!(LiquifactEscrow::get_settled_at(&env), Some(1_000));
}

#[test]
fn payouts_stay_within_the_pool_at_the_highest_yield() {
    let mut env = escrow_with(Terms {
        yield_tiers: Some(vec![YieldTier { min_lock_secs: 10, yield_bps: 1_500 }]),
        ..terms()
    });
    LiquifactEscrow::fund_with_commitment(&mut env, ALICE, 3_333, 10).unwrap();
    fund(&mut env, BOB, 3_333);
    fund(&mut env, CAROL, 3_335);
    LiquifactEscrow::settle(&mut env).unwrap();
    let payout = |who| LiquifactEscrow::compute_investor_payout(&env, who).unwrap();
    assert_eq!(payout(ALICE), 3_333 * 11_501 / 10_001);
    assert_eq!(payout(BOB), 3_333 * 10_801 / 10_001);
    assert!(payout(ALICE) + payout(BOB) + payout(CAROL) <= 10_001 + 10_001 * 1_500 / 10_000);
    assert!(payout(ALICE) >= 3_333 && payout(BOB) >= 3_333 && payout(CAROL) >= 3_335);
    assert!(payout(ALICE) >= payout(BOB));
}

#[test]
fn largest_invoice_does_not_overflow() {
    assert_eq!(pro_rata_payout(1, MAX_INVOICE_AMOUNT, 10_000), Ok(2));
    assert_eq!(
        pro_rata_payout(MAX_INVOICE_AMOUNT, MAX_INVOICE_AMOUNT, 10_000),
        Ok(2 * MAX_INVOICE_AMOUNT)
    );
    assert_eq!(
        pro_rata_payout(MAX_INVOICE_AMOUNT - 1, MAX_INVOICE_AMOUNT, 0),
        Ok(MAX_INVOICE_AMOUNT - 1)
    );
    assert_eq!(
        pro_rata_payout(1, MAX_INVOICE_AMOUNT + 1, 10_000),
        Err(refused(EscrowError::ComputePayoutArithmeticOverflow))
    );
}

#[test]
fn claims_can_be_paid_in_any_order() {
    for order in [[ALICE, BOB], [BOB, ALICE]] {
        let mut env = settled_escrow(terms());
        env.contract_balance = 4_320 + 6_480;
        for who in order {
            LiquifactEscrow::claim_investor_payout(&mut env, who).unwrap();
            settle_transfers(&mut env);
        }
        assert_eq!(env.contract_balance, 0);
    }
}
