use liquifact_escrow::env::{ContractEnv, Effect, LedgerInfo, Storage, TokenTransfer};
use liquifact_escrow::events::Event;
use liquifact_escrow::funding::DepositKind;
use liquifact_escrow::invoice_id::IdText;
use liquifact_escrow::values::{Address, AddressKind, Sym};
use liquifact_escrow::{
    EscrowError, InvoiceEscrow, LiquifactEscrow, Refusal, YieldTier, MAX_INVOICE_AMOUNT,
    SCHEMA_VERSION,
};

const ADMIN: Address = account(1);
const SME: Address = account(2);
const TOKEN: Address = contract(3);
const TREASURY: Address = account(4);
const ALICE: Address = account(10);
const BOB: Address = account(11);
const CAROL: Address = account(12);

const fn account(n: u8) -> Address {
    Address { kind: AddressKind::Account, key: [n; 32] }
}

const fn contract(n: u8) -> Address {
    Address { kind: AddressKind::Contract, key: [n; 32] }
}

/// An environment at time 1000 in which everybody has authorized the call.
fn new_env() -> ContractEnv {
    ContractEnv {
        storage: Storage::new(),
        ledger: LedgerInfo { timestamp: 1000, sequence: 7 },
        authorized: vec![ADMIN, SME, TREASURY, ALICE, BOB, CAROL],
        contract: contract(99),
        contract_balance: 0,
        effects: Vec::new(),
    }
}

struct Terms {
    amount: i128,
    yield_bps: i64,
    maturity: u64,
    yield_tiers: Option<Vec<YieldTier>>,
    min_contribution: Option<i128>,
    max_unique_investors: Option<u32>,
    max_per_investor: Option<i128>,
    legal_hold_clear_delay: Option<u64>,
    allowlist_active: Option<bool>,
}

fn terms() -> Terms {
    Terms {
        amount: 10_000,
        yield_bps: 800,
        maturity: 0,
        yield_tiers: None,
        min_contribution: None,
        max_unique_investors: None,
        max_per_investor: None,
        legal_hold_clear_delay: None,
        allowlist_active: None,
    }
}

fn try_init(env: &mut ContractEnv, id: &[u8], t: Terms) -> Result<InvoiceEscrow, Refusal> {
    LiquifactEscrow::init_with_id(
        env,
        ADMIN,
        IdText::Plain(id),
        SME,
        t.amount,
        t.yield_bps,
        t.maturity,
        TOKEN,
        None,
        TREASURY,
        t.yield_tiers,
        t.min_contribution,
        t.max_unique_investors,
        t.max_per_investor,
        t.legal_hold_clear_delay,
        None,
        None,
        t.allowlist_active,
    )
}

fn escrow_with(t: Terms) -> ContractEnv {
    let mut env = new_env();
    try_init(&mut env, b"INV_1", t).unwrap();
    env.effects.clear();
    env
}

fn open_escrow() -> ContractEnv {
    escrow_with(terms())
}

fn refused(error: EscrowError) -> Refusal {
    Refusal::Error(error)
}

/// Performs the transfers that the last call left behind on the contract's balance.
fn settle_transfers(env: &mut ContractEnv) {
    for effect in &env.effects {
        if let Effect::Transfer(t) = effect {
            if t.to == env.contract {
                env.contract_balance += t.amount;
            }
            if t.from == env.contract {
                env.contract_balance -= t.amount;
            }
        }
    }
    env.effects.clear();
}

fn fund(env: &mut ContractEnv, investor: Address, amount: i128) {
    LiquifactEscrow::fund(env, investor, amount).unwrap();
    settle_transfers(env);
}

#[test]
fn init_binds_the_terms() {
    let mut env = new_env();
    let escrow = try_init(&mut env, b"INV_1", terms()).unwrap();
    assert_eq!(escrow.status, 0);
    assert_eq!(escrow.funded_amount, 0);
    assert_eq!(escrow.amount, 10_000);
    assert_eq!(escrow.funding_target, 10_000);
    assert_eq!(escrow.invoice_id, Sym::from_bytes(b"INV_1").unwrap());
    assert_eq!(LiquifactEscrow::get_escrow(&env), Ok(escrow));
    assert_eq!(LiquifactEscrow::get_funding_token(&env), Ok(TOKEN));
    assert_eq!(LiquifactEscrow::get_treasury(&env), Ok(TREASURY));
    assert_eq!(LiquifactEscrow::get_version(&env), SCHEMA_VERSION);
    assert_eq!(LiquifactEscrow::get_min_contribution_floor(&env), 0);
    assert_eq!(LiquifactEscrow::get_unique_funder_count(&env), 0);
    assert_eq!(LiquifactEscrow::get_maturity_max_horizon(&env), 157_680_000);
    assert_eq!(LiquifactEscrow::has_maturity_lock(&env), Ok(false));
    assert_eq!(env.effects.len(), 1);
    match env.effects[0] {
        Effect::Publish(Event::EscrowInitialized(event)) => {
            assert_eq!(event.name, "escrow_ii");
            assert_eq!(event.escrow, escrow);
            assert!(!event.has_maturity_lock);
        }
        _ => panic!("no initialization event"),
    }
}

#[test]
fn init_happens_once() {
    let mut env = open_escrow();
    assert_eq!(
        try_init(&mut env, b"INV_2", terms()),
        Err(refused(EscrowError::EscrowAlreadyInitialized))
    );
    assert_eq!(LiquifactEscrow::get_escrow(&env).unwrap().invoice_id.len, 5);
}

#[test]
fn init_needs_the_admin() {
    let mut env = new_env();
    env.authorized = vec![SME];
    assert_eq!(try_init(&mut env, b"INV_1", terms()), Err(Refusal::AuthRequired(ADMIN)));
    assert_eq!(
        LiquifactEscrow::get_escrow(&env),
        Err(refused(EscrowError::EscrowNotInitialized))
    );
}

fn init_error(t: Terms) -> Refusal {
    let mut env = new_env();
    let why = try_init(&mut env, b"INV_1", t).unwrap_err();
    assert!(env.storage.escrow.is_none());
    assert!(env.effects.is_empty());
    why
}

#[test]
fn init_rejects_bad_terms() {
    assert_eq!(
        init_error(Terms { amount: 0, ..terms() }),
        refused(EscrowError::AmountMustBePositive)
    );
    assert_eq!(
        init_error(Terms { amount: MAX_INVOICE_AMOUNT + 1, ..terms() }),
        refused(EscrowError::AmountExceedsMax)
    );
    assert_eq!(
        init_error(Terms { yield_bps: 10_001, ..terms() }),
        refused(EscrowError::YieldBpsOutOfRange)
    );
    assert_eq!(
        init_error(Terms { yield_bps: -1, ..terms() }),
        refused(EscrowError::YieldBpsOutOfRange)
    );
    assert_eq!(
        init_error(Terms { maturity: 999, ..terms() }),
        refused(EscrowError::MaturityInPast)
    );
    assert_eq!(
        init_error(Terms { maturity: 1000 + 157_680_001, ..terms() }),
        refused(EscrowError::MaturityExceedsMaxHorizon)
    );
    assert_eq!(
        init_error(Terms { min_contribution: Some(0), ..terms() }),
        refused(EscrowError::MinContributionNotPositive)
    );
    assert_eq!(
        init_error(Terms { min_contribution: Some(10_001), ..terms() }),
        refused(EscrowError::MinContributionExceedsAmount)
    );
    assert_eq!(
        init_error(Terms { max_per_investor: Some(0), ..terms() }),
        refused(EscrowError::MaxPerInvestorNotPositive)
    );
    assert_eq!(
        init_error(Terms { max_unique_investors: Some(0), ..terms() }),
        refused(EscrowError::MaxUniqueInvestorsNotPositive)
    );
}

#[test]
fn init_accepts_the_largest_amount_and_the_furthest_maturity() {
    let mut env = new_env();
    let t = Terms { amount: MAX_INVOICE_AMOUNT, maturity: 1000 + 157_680_000, ..terms() };
    assert!(try_init(&mut env, b"INV_1", t).is_ok());
    assert_eq!(MAX_INVOICE_AMOUNT, i128::MAX / 10_000);
}

fn tier(min_lock_secs: u64, yield_bps: i64) -> YieldTier {
    YieldTier { min_lock_secs, yield_bps }
}

fn ladder() -> Vec<YieldTier> {
    vec![tier(100, 900), tier(200, 1_000), tier(300, 1_200)]
}

#[test]
fn init_rejects_bad_tiers() {
    let with = |tiers: Vec<YieldTier>| init_error(Terms { yield_tiers: Some(tiers), ..terms() });
    assert_eq!(with(vec![tier(100, 10_001)]), refused(EscrowError::TierYieldOutOfRange));
    assert_eq!(with(vec![tier(100, 799)]), refused(EscrowError::TierYieldBelowBase));
    assert_eq!(
        with(vec![tier(100, 900), tier(100, 950)]),
        refused(EscrowError::TierLockNotIncreasing)
    );
    assert_eq!(
        with(vec![tier(100, 900), tier(200, 850)]),
        refused(EscrowError::TierYieldNotNonDecreasing)
    );
}

#[test]
fn tier_preview_takes_the_best_that_the_lock_reaches() {
    let env = escrow_with(Terms { yield_tiers: Some(ladder()), ..terms() });
    let preview = |lock: u64| LiquifactEscrow::preview_yield_tier(&env, 1, lock).unwrap();
    assert_eq!(preview(0), (800, 0));
    assert_eq!(preview(99), (800, 0));
    assert_eq!(preview(100), (900, 100));
    assert_eq!(preview(200), (1_000, 200));
    assert_eq!(preview(299), (1_000, 200));
    assert_eq!(preview(300), (1_200, 300));
    assert_eq!(preview(10_000), (1_200, 300));
    assert_eq!(LiquifactEscrow::get_yield_tiers(&env), ladder());
    assert_eq!(LiquifactEscrow::get_yield_tiers(&open_escrow()), vec![]);
}

#[test]
fn deposit_is_credited_moved_and_published() {
    let mut env = open_escrow();
    let escrow = LiquifactEscrow::fund(&mut env, ALICE, 4_000).unwrap();
    assert_eq!(escrow.funded_amount, 4_000);
    assert_eq!(escrow.status, 0);
    assert_eq!(LiquifactEscrow::get_contribution(&env, ALICE), 4_000);
    assert_eq!(LiquifactEscrow::get_investors(&env, 0, 10), vec![ALICE]);
    assert_eq!(LiquifactEscrow::get_remaining_funding_capacity(&env), Ok(6_000));
    assert_eq!(
        env.effects[0],
        Effect::Transfer(TokenTransfer {
            token: TOKEN,
            from: ALICE,
            to: contract(99),
            amount: 4_000,
        })
    );
    match env.effects[1] {
        Effect::Publish(Event::EscrowFunded(event)) => {
            assert_eq!(event.name, "funded");
            assert_eq!(event.investor, ALICE);
            assert_eq!(event.amount, 4_000);
            assert_eq!(event.funded_amount, 4_000);
            assert_eq!(event.status, 0);
            assert_eq!(event.investor_effective_yield_bps, 800);
            assert_eq!(event.tier_lock_secs, 0);
        }
        _ => panic!("no deposit event"),
    }
    assert_eq!(env.effects.len(), 2);
}

#[test]
fn reaching_the_target_closes_with_the_overfunding_in_the_snapshot() {
    let mut env = open_escrow();
    fund(&mut env, ALICE, 4_000);
    assert_eq!(LiquifactEscrow::get_funding_close_snapshot(&env), None);
    fund(&mut env, BOB, 7_000);
    let snapshot = LiquifactEscrow::get_funding_close_snapshot(&env).unwrap();
    assert_eq!(snapshot.total_principal, 11_000);
    assert_eq!(snapshot.funding_target, 10_000);
    assert_eq!(snapshot.closed_at_ledger_timestamp, 1000);
    assert_eq!(snapshot.closed_at_ledger_sequence, 7);
    assert_eq!(LiquifactEscrow::get_escrow(&env).unwrap().status, 1);
    assert_eq!(LiquifactEscrow::get_remaining_funding_capacity(&env), Ok(0));
    assert_eq!(
        LiquifactEscrow::fund(&mut env, CAROL, 1),
        Err(refused(EscrowError::EscrowNotOpenForFunding))
    );
}

#[test]
fn deposits_are_refused_for_their_reasons() {
    let mut env = escrow_with(Terms {
        min_contribution: Some(100),
        max_per_investor: Some(5_000),
        max_unique_investors: Some(1),
        ..terms()
    });
    let mut try_fund = |env: &mut ContractEnv, who, amount| {
        LiquifactEscrow::fund(env, who, amount).map(|_| ())
    };
    assert_eq!(
        try_fund(&mut env, account(77), 200),
        Err(Refusal::AuthRequired(account(77)))
    );
    assert_eq!(
        try_fund(&mut env, ALICE, 0),
        Err(refused(EscrowError::FundingAmountNotPositive))
    );
    assert_eq!(
        try_fund(&mut env, ALICE, 99),
        Err(refused(EscrowError::FundingBelowMinContribution))
    );
    assert_eq!(
        try_fund(&mut env, ALICE, 5_001),
        Err(refused(EscrowError::InvestorContributionExceedsCap))
    );
    assert_eq!(try_fund(&mut env, ALICE, 100), Ok(()));
    assert_eq!(
        try_fund(&mut env, ALICE, i128::MAX),
        Err(refused(EscrowError::InvestorContributionOverflow))
    );
    assert_eq!(
        try_fund(&mut env, BOB, 100),
        Err(refused(EscrowError::UniqueInvestorCapReached))
    );
    // The cap on distinct investors does not stop those who are in already.
    assert_eq!(try_fund(&mut env, ALICE, 100), Ok(()));
    env.storage.funding_deadline = Some(999);
    assert!(LiquifactEscrow::is_funding_expired(&env));
    assert_eq!(
        try_fund(&mut env, ALICE, 100),
        Err(refused(EscrowError::FundingDeadlinePassed))
    );
    env.storage.funding_deadline = Some(1000);
    assert!(!LiquifactEscrow::is_funding_expired(&env));
    assert_eq!(try_fund(&mut env, ALICE, 100), Ok(()));
    env.storage.funding_token = None;
    assert_eq!(
        try_fund(&mut env, ALICE, 100),
        Err(refused(EscrowError::FundingTokenNotSet))
    );
    let mut empty = new_env();
    assert_eq!(
        try_fund(&mut empty, ALICE, 100),
        Err(refused(EscrowError::EscrowNotInitialized))
    );
}

#[test]
fn funded_amount_does_not_overflow() {
    let mut env = open_escrow();
    let mut escrow = env.storage.escrow.unwrap();
    escrow.funded_amount = i128::MAX;
    env.storage.escrow = Some(escrow);
    assert_eq!(
        LiquifactEscrow::fund(&mut env, ALICE, 1),
        Err(refused(EscrowError::FundedAmountOverflow))
    );
}

#[test]
fn commitment_fixes_yield_and_claim_time_at_the_first_deposit() {
    let mut env = escrow_with(Terms { yield_tiers: Some(ladder()), ..terms() });
    LiquifactEscrow::fund_with_commitment(&mut env, ALICE, 100, 250).unwrap();
    assert_eq!(LiquifactEscrow::get_investor_yield_bps(&env, ALICE), Ok(1_000));
    assert_eq!(LiquifactEscrow::get_investor_claim_not_before(&env, ALICE), 1_250);
    assert_eq!(
        LiquifactEscrow::fund_with_commitment(&mut env, ALICE, 100, 300),
        Err(refused(EscrowError::TieredSecondDeposit))
    );
    env.ledger.timestamp = 1_100;
    fund(&mut env, ALICE, 100);
    assert_eq!(LiquifactEscrow::get_investor_yield_bps(&env, ALICE), Ok(1_000));
    assert_eq!(LiquifactEscrow::get_investor_claim_not_before(&env, ALICE), 1_250);
    assert_eq!(LiquifactEscrow::get_investor_yield_bps(&env, BOB), Ok(800));
    assert_eq!(LiquifactEscrow::get_unique_funder_count(&env), 1);
}

#[test]
fn commitment_has_to_end_by_maturity() {
    let mut env = escrow_with(Terms { maturity: 2_000, ..terms() });
    assert_eq!(
        LiquifactEscrow::fund_with_commitment(&mut env, ALICE, 100, 1_001),
        Err(refused(EscrowError::CommitmentLockExceedsMaturity))
    );
    assert!(LiquifactEscrow::fund_with_commitment(&mut env, ALICE, 100, 1_000).is_ok());
    assert_eq!(
        LiquifactEscrow::fund_with_commitment(&mut env, BOB, 100, u64::MAX),
        Err(refused(EscrowError::InvestorClaimTimeOverflow))
    );
}

#[test]
fn batch_is_all_or_nothing() {
    let mut env = escrow_with(Terms { min_contribution: Some(100), ..terms() });
    assert_eq!(
        LiquifactEscrow::fund_batch(&mut env, &vec![]),
        Err(refused(EscrowError::FundingBatchEmpty))
    );
    assert_eq!(
        LiquifactEscrow::fund_batch(&mut env, &vec![(ALICE, 100); 51]),
        Err(refused(EscrowError::FundingBatchTooLarge))
    );
    assert_eq!(
        LiquifactEscrow::fund_batch(&mut env, &vec![(ALICE, 100), (BOB, 99)]),
        Err(refused(EscrowError::FundingBelowMinContribution))
    );
    assert_eq!(
        LiquifactEscrow::fund_batch(&mut env, &vec![(ALICE, 100), (account(77), 100)]),
        Err(Refusal::AuthRequired(account(77)))
    );
    assert_eq!(LiquifactEscrow::get_contribution(&env, ALICE), 0);
    assert_eq!(LiquifactEscrow::get_investors(&env, 0, 50), vec![]);
    assert!(env.effects.is_empty());
    // The second entry is refused after the first reached the target.
    assert_eq!(
        LiquifactEscrow::fund_batch(&mut env, &vec![(ALICE, 10_000), (account(77), 100)]),
        Err(Refusal::AuthRequired(account(77)))
    );
    assert_eq!(LiquifactEscrow::get_escrow(&env).unwrap().funded_amount, 0);
    assert_eq!(LiquifactEscrow::get_escrow(&env).unwrap().status, 0);
    assert_eq!(LiquifactEscrow::get_funding_close_snapshot(&env), None);
}

#[test]
fn batch_goes_on_after_reaching_the_target() {
    let mut env = escrow_with(Terms { amount: 1_000, min_contribution: None, ..terms() });
    let result = LiquifactEscrow::fund_batch(&mut env, &vec![(ALICE, 1_000), (BOB, 10)]).unwrap();
    assert_eq!(result.status, 1);
    assert_eq!(result.funded_amount, 1_010);
    assert_eq!(LiquifactEscrow::get_escrow(&env), Ok(result));
    assert_eq!(LiquifactEscrow::get_contribution(&env, ALICE), 1_000);
    assert_eq!(LiquifactEscrow::get_contribution(&env, BOB), 10);
    assert_eq!(LiquifactEscrow::get_investors(&env, 0, 50), vec![ALICE, BOB]);
    let snapshot = LiquifactEscrow::get_funding_close_snapshot(&env).unwrap();
    assert_eq!(snapshot.total_principal, 1_000);
    assert_eq!(snapshot.funding_target, 1_000);
    assert_eq!(env.effects.len(), 4);
    // Neither a deposit nor a batch finds the escrow open now.
    assert_eq!(
        LiquifactEscrow::fund(&mut env, BOB, 10),
        Err(refused(EscrowError::EscrowNotOpenForFunding))
    );
    assert_eq!(
        LiquifactEscrow::fund_batch(&mut env, &vec![(BOB, 10), (ALICE, 10)]),
        Err(refused(EscrowError::EscrowNotOpenForFunding))
    );
    assert_eq!(LiquifactEscrow::get_contribution(&env, BOB), 10);
}

#[test]
fn batch_checks_entries_after_the_target_in_every_other_way() {
    let mut env = escrow_with(Terms {
        amount: 1_000,
        min_contribution: None,
        max_per_investor: Some(1_000),
        max_unique_investors: Some(2),
        ..terms()
    });
    for (entries, error) in [
        (vec![(ALICE, 1_000), (BOB, 1_001)], EscrowError::InvestorContributionExceedsCap),
        (vec![(ALICE, 1_000), (BOB, 0)], EscrowError::FundingAmountNotPositive),
        (vec![(ALICE, 1_000), (BOB, 5), (CAROL, 5)], EscrowError::UniqueInvestorCapReached),
    ] {
        assert_eq!(LiquifactEscrow::fund_batch(&mut env, &entries), Err(refused(error)));
        assert_eq!(LiquifactEscrow::get_funding_close_snapshot(&env), None);
    }
    let batch = vec![(ALICE, 600), (BOB, 500), (ALICE, 400), (BOB, 1)];
    LiquifactEscrow::fund_batch(&mut env, &batch).unwrap();
    let snapshot = LiquifactEscrow::get_funding_close_snapshot(&env).unwrap();
    assert_eq!(snapshot.total_principal, 1_100);
    assert_eq!(LiquifactEscrow::get_escrow(&env).unwrap().funded_amount, 1_501);
    assert_eq!(LiquifactEscrow::get_contribution(&env, ALICE), 1_000);
    assert_eq!(LiquifactEscrow::get_contribution(&env, BOB), 501);
}

#[test]
fn a_full_counter_stops_new_investors_only() {
    let mut env = open_escrow();
    fund(&mut env, ALICE, 1_000);
    env.storage.unique_funder_count = Some(u32::MAX);
    assert_eq!(
        LiquifactEscrow::fund_batch(&mut env, &vec![]),
        Err(refused(EscrowError::FundingBatchEmpty))
    );
    assert_eq!(
        LiquifactEscrow::fund_batch(&mut env, &vec![(BOB, 100); 51]),
        Err(refused(EscrowError::FundingBatchTooLarge))
    );
    assert_eq!(
        LiquifactEscrow::fund_batch(&mut env, &vec![(BOB, 0)]),
        Err(refused(EscrowError::FundingAmountNotPositive))
    );
    assert_eq!(
        LiquifactEscrow::fund_batch(&mut env, &vec![(ALICE, 100), (account(77), 100)]),
        Err(Refusal::AuthRequired(account(77)))
    );
    assert_eq!(
        LiquifactEscrow::fund(&mut env, account(77), 100),
        Err(Refusal::AuthRequired(account(77)))
    );
    assert!(env.effects.is_empty());
    LiquifactEscrow::fund_batch(&mut env, &vec![(ALICE, 100), (ALICE, 200)]).unwrap();
    assert_eq!(LiquifactEscrow::get_contribution(&env, ALICE), 1_300);
    assert_eq!(LiquifactEscrow::get_unique_funder_count(&env), u32::MAX);
    env.storage.unique_funder_count = Some(u32::MAX - 1);
    LiquifactEscrow::fund_batch(&mut env, &vec![(BOB, 100), (BOB, 200)]).unwrap();
    assert_eq!(LiquifactEscrow::get_unique_funder_count(&env), u32::MAX);
    let before = LiquifactEscrow::get_escrow(&env);
    env.effects.clear();
    assert_eq!(LiquifactEscrow::try_fund(&mut env, CAROL, 100, DepositKind::Simple), Ok(None));
    let batch = vec![(ALICE, 100), (CAROL, 100)];
    assert_eq!(LiquifactEscrow::try_fund_batch(&mut env, &batch), Ok(None));
    assert_eq!(LiquifactEscrow::get_escrow(&env), before);
    assert_eq!(LiquifactEscrow::get_contribution(&env, ALICE), 1_300);
    assert!(env.effects.is_empty());
    let counted = LiquifactEscrow::try_fund(&mut env, ALICE, 100, DepositKind::Simple).unwrap();
    assert_eq!(counted, LiquifactEscrow::get_escrow(&env).ok());
    env.storage.max_unique_investors_cap = Some(u32::MAX);
    assert_eq!(
        LiquifactEscrow::fund(&mut env, CAROL, 100),
        Err(refused(EscrowError::UniqueInvestorCapReached))
    );
}

#[test]
fn books_balance_after_deposits() {
    let mut env = open_escrow();
    for (investor, amount) in [(ALICE, 1_000), (BOB, 2_000), (ALICE, 500)] {
        let before = LiquifactEscrow::get_contribution(&env, investor);
        let funded = LiquifactEscrow::fund_impl(&mut env, investor, amount, DepositKind::Simple);
        assert_eq!(LiquifactEscrow::get_contribution(&env, investor), before + amount);
        let sum = LiquifactEscrow::get_contribution(&env, ALICE)
            + LiquifactEscrow::get_contribution(&env, BOB);
        assert_eq!(funded.unwrap().funded_amount, sum);
    }
    assert_eq!(LiquifactEscrow::get_investors(&env, 0, 50), vec![ALICE, BOB]);
    assert_eq!(LiquifactEscrow::get_unique_funder_count(&env), 2);
    assert_eq!(LiquifactEscrow::get_contribution(&env, CAROL), 0);
}

#[test]
fn batch_equals_single_deposits() {
    let mut one = open_escrow();
    let mut other = open_escrow();
    let entries = vec![(ALICE, 1_000), (BOB, 2_000), (ALICE, 7_000)];
    let escrow = LiquifactEscrow::fund_batch(&mut one, &entries).unwrap();
    for (investor, amount) in entries {
        LiquifactEscrow::fund(&mut other, investor, amount).unwrap();
    }
    assert_eq!(Ok(escrow), LiquifactEscrow::get_escrow(&other));
    assert_eq!(one.effects, other.effects);
    assert_eq!(one.effects.len(), 6);
    assert_eq!(
        LiquifactEscrow::get_contributions(&one, &vec![ALICE, BOB, CAROL]),
        Ok(vec![8_000, 2_000, 0])
    );
    assert_eq!(
        LiquifactEscrow::get_contributions(&other, &vec![ALICE, BOB, CAROL]),
        Ok(vec![8_000, 2_000, 0])
    );
    assert_eq!(escrow.status, 1);
}

#[test]
fn contribution_reads_are_bounded_and_paged() {
    let mut env = open_escrow();
    for n in 0..60 {
        env.authorized.push(account(100 + n));
        fund(&mut env, account(100 + n), 1);
    }
    assert_eq!(LiquifactEscrow::get_investors(&env, 0, 100).len(), 50);
    assert_eq!(LiquifactEscrow::get_investors(&env, 50, 100).len(), 10);
    assert_eq!(LiquifactEscrow::get_investors(&env, 58, 1), vec![account(158)]);
    assert_eq!(LiquifactEscrow::get_investors(&env, 60, 1), vec![]);
    assert_eq!(LiquifactEscrow::get_investors(&env, 0, 0), vec![]);
    assert_eq!(LiquifactEscrow::get_investors(&env, u32::MAX, u32::MAX), vec![]);
    assert!(LiquifactEscrow::get_contributions(&env, &vec![ALICE; 50]).is_ok());
    assert_eq!(
        LiquifactEscrow::get_contributions(&env, &vec![ALICE; 51]),
        Err(refused(EscrowError::ContributionBatchTooLarge))
    );
}

#[test]
fn remaining_slots_count_down() {
    let mut env = escrow_with(Terms { max_unique_investors: Some(2), ..terms() });
    assert_eq!(LiquifactEscrow::get_remaining_investor_slots(&env), Some(2));
    fund(&mut env, ALICE, 1);
    fund(&mut env, ALICE, 1);
    assert_eq!(LiquifactEscrow::get_remaining_investor_slots(&env), Some(1));
    assert_eq!(LiquifactEscrow::get_remaining_investor_slots(&open_escrow()), None);
}
