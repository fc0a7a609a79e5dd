use liquifact_escrow::env::{ContractEnv, Effect, LedgerInfo, Storage, TtlTarget};
use liquifact_escrow::events::Event;
use liquifact_escrow::invoice_id::IdText;
use liquifact_escrow::values::{Address, AddressKind, Digest, Sym};
use liquifact_escrow::{
    guard_status_eq, guard_status_in, AttestationDigestInfo, CollateralCommitmentSnapshot,
    DataKey, EscrowCloseSnapshot, EscrowError, InvoiceEscrow, LiquifactEscrow, Refusal,
    SmeCollateralCommitment, YieldTier,
};

const ADMIN: Address = account(1);
const SME: Address = account(2);
const TOKEN: Address = contract(3);
const TREASURY: Address = account(4);
const ALICE: Address = account(10);
const BOB: Address = account(11);
const CAROL: Address = account(12);

const fn account(n: u8) -> Address {
    Address { kind: AddressKind::Account, key: [n; 32] }
}

const fn contract(n: u8) -> Address {
    Address { kind: AddressKind::Contract, key: [n; 32] }
}

/// An environment at time 1000 in which everybody has authorized the call.
fn new_env() -> ContractEnv {
    ContractEnv {
        storage: Storage::new(),
        ledger: LedgerInfo { timestamp: 1000, sequence: 7 },
        authorized: vec![ADMIN, SME, TREASURY, ALICE, BOB, CAROL],
        contract: contract(99),
        contract_balance: 0,
        effects: Vec::new(),
    }
}

struct Terms {
    amount: i128,
    yield_bps: i64,
    maturity: u64,
    yield_tiers: Option<Vec<YieldTier>>,
    min_contribution: Option<i128>,
    max_unique_investors: Option<u32>,
    max_per_investor: Option<i128>,
    legal_hold_clear_delay: Option<u64>,
    allowlist_active: Option<bool>,
}

fn terms() -> Terms {
    Terms {
        amount: 10_000,
        yield_bps: 800,
        maturity: 0,
        yield_tiers: None,
        min_contribution: None,
        max_unique_investors: None,
        max_per_investor: None,
        legal_hold_clear_delay: None,
        allowlist_active: None,
    }
}

fn try_init(env: &mut ContractEnv, id: &[u8], t: Terms) -> Result<InvoiceEscrow, Refusal> {
    LiquifactEscrow::init_with_id(
        env,
        ADMIN,
        IdText::Plain(id),
        SME,
        t.amount,
        t.yield_bps,
        t.maturity,
        TOKEN,
        None,
        TREASURY,
        t.yield_tiers,
        t.min_contribution,
        t.max_unique_investors,
        t.max_per_investor,
        t.legal_hold_clear_delay,
        None,
        None,
        t.allowlist_active,
    )
}

fn escrow_with(t: Terms) -> ContractEnv {
    let mut env = new_env();
    try_init(&mut env, b"INV_1", t).unwrap();
    env.effects.clear();
    env
}

fn open_escrow() -> ContractEnv {
    escrow_with(terms())
}

fn refused(error: EscrowError) -> Refusal {
    Refusal::Error(error)
}

/// Performs the transfers that the last call left behind on the contract's balance.
fn settle_transfers(env: &mut ContractEnv) {
    for effect in &env.effects {
        if let Effect::Transfer(t) = effect {
            if t.to == env.contract {
                env.contract_balance += t.amount;
            }
            if t.from == env.contract {
                env.contract_balance -= t.amount;
            }
        }
    }
    env.effects.clear();
}

fn fund(env: &mut ContractEnv, investor: Address, amount: i128) {
    LiquifactEscrow::fund(env, investor, amount).unwrap();
    settle_transfers(env);
}

/// Alice has deposited 4000 and Bob 6000 of 10_000.
fn funded_escrow(t: Terms) -> ContractEnv {
    let mut env = escrow_with(t);
    fund(&mut env, ALICE, 4_000);
    fund(&mut env, BOB, 6_000);
    env
}

fn settled_escrow(t: Terms) -> ContractEnv {
    let mut env = funded_escrow(t);
    LiquifactEscrow::settle(&mut env).unwrap();
    env.effects.clear();
    env.contract_balance += 10_000;
    env
}

fn cancelled_escrow() -> ContractEnv {
    let mut env = open_escrow();
    fund(&mut env, ALICE, 4_000);
    fund(&mut env, BOB, 1_000);
    LiquifactEscrow::cancel_funding(&mut env).unwrap();
    env.effects.clear();
    env
}

#[test]
fn hold_blocks_what_bears_risk() {
    let mut env = funded_escrow(terms());
    LiquifactEscrow::set_legal_hold(&mut env, true).unwrap();
    assert!(LiquifactEscrow::get_legal_hold(&env));
    assert_eq!(
        LiquifactEscrow::settle(&mut env),
        Err(refused(EscrowError::LegalHoldBlocksSettlement))
    );
    assert_eq!(
        LiquifactEscrow::withdraw(&mut env),
        Err(refused(EscrowError::LegalHoldBlocksWithdrawal))
    );
    assert_eq!(
        LiquifactEscrow::rotate_beneficiary(&mut env, CAROL),
        Err(refused(EscrowError::LegalHoldBlocksBeneficiaryRotation))
    );
    let mut open = open_escrow();
    LiquifactEscrow::set_legal_hold(&mut open, true).unwrap();
    assert_eq!(
        LiquifactEscrow::fund(&mut open, ALICE, 1),
        Err(refused(EscrowError::LegalHoldBlocksFunding))
    );
    LiquifactEscrow::clear_legal_hold(&mut open).unwrap();
    assert!(LiquifactEscrow::fund(&mut open, ALICE, 1).is_ok());
}

#[test]
fn hold_does_not_block_refunds() {
    let mut env = cancelled_escrow();
    LiquifactEscrow::set_legal_hold(&mut env, true).unwrap();
    assert_eq!(LiquifactEscrow::refund(&mut env, ALICE), Ok(()));
}

#[test]
fn pause_blocks_and_leaves_the_hold_alone() {
    let mut env = funded_escrow(terms());
    LiquifactEscrow::set_paused(&mut env, true).unwrap();
    assert!(LiquifactEscrow::is_paused(&env));
    assert!(!LiquifactEscrow::get_legal_hold(&env));
    assert_eq!(
        LiquifactEscrow::settle(&mut env),
        Err(refused(EscrowError::PausedBlocksSettlement))
    );
    assert_eq!(
        LiquifactEscrow::withdraw(&mut env),
        Err(refused(EscrowError::PausedBlocksWithdrawal))
    );
    let mut open = open_escrow();
    LiquifactEscrow::set_paused(&mut open, true).unwrap();
    assert_eq!(
        LiquifactEscrow::fund(&mut open, ALICE, 1),
        Err(refused(EscrowError::PausedBlocksFunding))
    );
    LiquifactEscrow::set_legal_hold(&mut env, true).unwrap();
    LiquifactEscrow::set_paused(&mut env, false).unwrap();
    assert!(LiquifactEscrow::get_legal_hold(&env));
}

#[test]
fn delayed_clear() {
    let mut env = escrow_with(Terms { legal_hold_clear_delay: Some(100), ..terms() });
    assert_eq!(LiquifactEscrow::get_legal_hold_clear_delay(&env), 100);
    LiquifactEscrow::set_legal_hold(&mut env, true).unwrap();
    assert_eq!(
        LiquifactEscrow::clear_legal_hold(&mut env),
        Err(refused(EscrowError::LegalHoldClearRequestMissing))
    );
    assert_eq!(
        LiquifactEscrow::clear_legal_hold_after_delay(&mut env),
        Err(refused(EscrowError::LegalHoldClearRequestMissing))
    );
    LiquifactEscrow::request_clear_legal_hold(&mut env).unwrap();
    assert_eq!(LiquifactEscrow::get_legal_hold_clearable_at(&env), Some(1_100));
    env.ledger.timestamp = 1_099;
    assert_eq!(
        LiquifactEscrow::clear_legal_hold(&mut env),
        Err(refused(EscrowError::LegalHoldClearNotReady))
    );
    assert_eq!(
        LiquifactEscrow::clear_legal_hold_after_delay(&mut env),
        Err(refused(EscrowError::LegalHoldClearNotReady))
    );
    LiquifactEscrow::cancel_clear_legal_hold(&mut env).unwrap();
    assert_eq!(
        LiquifactEscrow::cancel_clear_legal_hold(&mut env),
        Err(refused(EscrowError::LegalHoldClearRequestMissing))
    );
    LiquifactEscrow::request_clear_legal_hold(&mut env).unwrap();
    env.ledger.timestamp = 1_199;
    env.effects.clear();
    LiquifactEscrow::clear_legal_hold_after_delay(&mut env).unwrap();
    assert!(!LiquifactEscrow::get_legal_hold(&env));
    assert_eq!(LiquifactEscrow::get_legal_hold_clearable_at(&env), None);
    match env.effects[0] {
        Effect::Publish(Event::LegalHoldChanged(event)) => {
            assert_eq!(event.name, "legalhld");
            assert_eq!(event.active, 0);
        }
        _ => panic!("no hold event"),
    }
}

#[test]
fn clear_delay_does_not_overflow() {
    let mut env = escrow_with(Terms { legal_hold_clear_delay: Some(u64::MAX), ..terms() });
    assert_eq!(
        LiquifactEscrow::request_clear_legal_hold(&mut env),
        Err(refused(EscrowError::LegalHoldClearDelayOverflow))
    );
}

#[test]
fn new_admin_recovers_a_hold() {
    let mut env = open_escrow();
    LiquifactEscrow::set_legal_hold(&mut env, true).unwrap();
    assert_eq!(LiquifactEscrow::propose_admin(&mut env, CAROL, None), Ok(CAROL));
    assert_eq!(LiquifactEscrow::get_pending_admin(&env), Some(CAROL));
    assert_eq!(LiquifactEscrow::get_pending_admin_expiry(&env), Some(1000 + 604_800));
    env.ledger.timestamp = 1000 + 604_800;
    env.effects.clear();
    let escrow = LiquifactEscrow::accept_admin(&mut env).unwrap();
    assert_eq!(escrow.admin, CAROL);
    match env.effects[0] {
        Effect::Publish(Event::AdminTransferredEvent(event)) => {
            assert_eq!(event.name, "admin");
            assert_eq!(event.new_admin, CAROL);
        }
        _ => panic!("no handover event"),
    }
    env.authorized = vec![ADMIN];
    assert_eq!(
        LiquifactEscrow::clear_legal_hold(&mut env),
        Err(Refusal::AuthRequired(CAROL))
    );
    env.authorized = vec![CAROL];
    assert_eq!(LiquifactEscrow::clear_legal_hold(&mut env), Ok(()));
}

#[test]
fn handover_is_refused_for_its_reasons() {
    let mut env = open_escrow();
    assert_eq!(
        LiquifactEscrow::accept_admin(&mut env),
        Err(refused(EscrowError::NoPendingAdmin))
    );
    assert_eq!(
        LiquifactEscrow::cancel_pending_admin(&mut env),
        Err(refused(EscrowError::NoPendingAdmin))
    );
    assert_eq!(
        LiquifactEscrow::propose_admin(&mut env, ADMIN, None),
        Err(refused(EscrowError::NewAdminSameAsCurrent))
    );
    LiquifactEscrow::propose_admin(&mut env, CAROL, Some(10)).unwrap();
    env.ledger.timestamp = 1_011;
    assert_eq!(
        LiquifactEscrow::accept_admin(&mut env),
        Err(refused(EscrowError::AdminProposalExpired))
    );
    env.ledger.timestamp = 1_010;
    env.authorized = vec![ADMIN];
    assert_eq!(LiquifactEscrow::accept_admin(&mut env), Err(Refusal::AuthRequired(CAROL)));
    assert_eq!(LiquifactEscrow::cancel_pending_admin(&mut env), Ok(CAROL));
    assert_eq!(LiquifactEscrow::get_pending_admin(&env), None);
    LiquifactEscrow::propose_admin(&mut env, CAROL, Some(u64::MAX)).unwrap();
    assert_eq!(LiquifactEscrow::get_pending_admin_expiry(&env), Some(u64::MAX));
}

#[test]
fn deprecated_transfer_only_proposes() {
    let mut env = open_escrow();
    let escrow = LiquifactEscrow::transfer_admin(&mut env, CAROL).unwrap();
    assert_eq!(escrow.admin, ADMIN);
    assert_eq!(LiquifactEscrow::get_pending_admin(&env), Some(CAROL));
    assert_eq!(env.effects.len(), 2);
    match env.effects[1] {
        Effect::Publish(Event::DeprecatedTransferAdminUsed(event)) => {
            assert_eq!(event.name, "depr_xfer");
            assert_eq!(event.proposed_address, CAROL);
        }
        _ => panic!("no deprecation event"),
    }
}

#[test]
fn beneficiary_changes_with_both_signatures() {
    let mut env = open_escrow();
    assert_eq!(
        LiquifactEscrow::rotate_beneficiary(&mut env, SME),
        Err(refused(EscrowError::NewSmeSameAsCurrent))
    );
    env.authorized = vec![ADMIN];
    assert_eq!(
        LiquifactEscrow::rotate_beneficiary(&mut env, CAROL),
        Err(Refusal::AuthRequired(SME))
    );
    env.authorized = vec![SME];
    assert_eq!(
        LiquifactEscrow::rotate_beneficiary(&mut env, CAROL),
        Err(Refusal::AuthRequired(ADMIN))
    );
    env.authorized = vec![SME, ADMIN];
    assert_eq!(LiquifactEscrow::rotate_beneficiary(&mut env, CAROL).unwrap().sme_address, CAROL);
    let mut settled = settled_escrow(terms());
    assert_eq!(
        LiquifactEscrow::rotate_beneficiary(&mut settled, CAROL),
        Err(refused(EscrowError::RotationNotOpen))
    );
}

#[test]
fn target_changes_while_open() {
    let mut env = open_escrow();
    fund(&mut env, ALICE, 4_000);
    assert_eq!(
        LiquifactEscrow::update_funding_target(&mut env, 0),
        Err(refused(EscrowError::TargetNotPositive))
    );
    assert_eq!(
        LiquifactEscrow::update_funding_target(&mut env, 3_999),
        Err(refused(EscrowError::TargetBelowFundedAmount))
    );
    assert_eq!(LiquifactEscrow::update_funding_target(&mut env, 4_001).unwrap().status, 0);
    let escrow = LiquifactEscrow::update_funding_target(&mut env, 4_000).unwrap();
    assert_eq!(escrow.status, 1);
    let snapshot = LiquifactEscrow::get_funding_close_snapshot(&env).unwrap();
    assert_eq!(snapshot.total_principal, 4_000);
    assert_eq!(snapshot.funding_target, 4_000);
    assert_eq!(
        LiquifactEscrow::update_funding_target(&mut env, 9_000),
        Err(refused(EscrowError::TargetUpdateNotOpen))
    );
}

#[test]
fn caps_and_floor_change_in_one_direction() {
    let mut env = escrow_with(Terms {
        max_unique_investors: Some(5),
        max_per_investor: Some(500),
        min_contribution: Some(10),
        ..terms()
    });
    fund(&mut env, ALICE, 100);
    fund(&mut env, BOB, 100);
    assert_eq!(
        LiquifactEscrow::lower_max_unique_investors(&mut env, 5),
        Err(refused(EscrowError::NewCapNotLower))
    );
    assert_eq!(
        LiquifactEscrow::lower_max_unique_investors(&mut env, 1),
        Err(refused(EscrowError::NewCapBelowCurrentFunderCount))
    );
    assert_eq!(LiquifactEscrow::lower_max_unique_investors(&mut env, 2), Ok(2));
    assert_eq!(
        LiquifactEscrow::raise_max_unique_investors(&mut env, 2),
        Err(refused(EscrowError::NewCapNotHigher))
    );
    assert_eq!(LiquifactEscrow::raise_max_unique_investors(&mut env, 3), Ok(3));
    assert_eq!(LiquifactEscrow::get_max_unique_investors_cap(&env), Some(3));
    assert_eq!(
        LiquifactEscrow::raise_max_per_investor(&mut env, 500),
        Err(refused(EscrowError::MaxPerInvestorCapNotRaised))
    );
    assert_eq!(LiquifactEscrow::raise_max_per_investor(&mut env, 501), Ok(501));
    assert_eq!(LiquifactEscrow::get_max_per_investor_cap(&env), Some(501));
    assert_eq!(
        LiquifactEscrow::lower_min_contribution_floor(&mut env, 0),
        Err(refused(EscrowError::NewFloorNotPositive))
    );
    assert_eq!(
        LiquifactEscrow::lower_min_contribution_floor(&mut env, 10),
        Err(refused(EscrowError::NewFloorNotLower))
    );
    assert_eq!(LiquifactEscrow::lower_min_contribution_floor(&mut env, 9), Ok(9));
    assert_eq!(LiquifactEscrow::get_min_contribution_floor(&env), 9);
}

#[test]
fn caps_and_floor_need_an_open_escrow_and_a_cap() {
    let mut env = open_escrow();
    assert_eq!(
        LiquifactEscrow::lower_max_unique_investors(&mut env, 1),
        Err(refused(EscrowError::NoInvestorCapConfigured))
    );
    assert_eq!(
        LiquifactEscrow::raise_max_unique_investors(&mut env, 1),
        Err(refused(EscrowError::NoInvestorCapConfigured))
    );
    assert_eq!(
        LiquifactEscrow::raise_max_per_investor(&mut env, 1),
        Err(refused(EscrowError::MaxPerInvestorCapNotConfigured))
    );
    let mut funded = funded_escrow(terms());
    assert_eq!(
        LiquifactEscrow::lower_max_unique_investors(&mut funded, 1),
        Err(refused(EscrowError::CapLowerNotOpen))
    );
    assert_eq!(
        LiquifactEscrow::raise_max_unique_investors(&mut funded, 1),
        Err(refused(EscrowError::EscrowNotOpenForFunding))
    );
    assert_eq!(
        LiquifactEscrow::raise_max_per_investor(&mut funded, 1),
        Err(refused(EscrowError::CapLowerNotOpen))
    );
    assert_eq!(
        LiquifactEscrow::lower_min_contribution_floor(&mut funded, 1),
        Err(refused(EscrowError::FloorLowerNotOpen))
    );
    assert_eq!(
        LiquifactEscrow::update_maturity(&mut funded, 5_000),
        Err(refused(EscrowError::MaturityUpdateNotOpen))
    );
}

#[test]
fn maturity_and_horizon() {
    let mut env = open_escrow();
    assert_eq!(
        LiquifactEscrow::update_maturity(&mut env, 0),
        Err(refused(EscrowError::MaturityUnchanged))
    );
    assert_eq!(
        LiquifactEscrow::update_maturity(&mut env, 999),
        Err(refused(EscrowError::MaturityInPast))
    );
    assert_eq!(LiquifactEscrow::update_maturity(&mut env, 1_000).unwrap().maturity, 1_000);
    assert_eq!(LiquifactEscrow::has_maturity_lock(&env), Ok(true));
    assert_eq!(LiquifactEscrow::update_maturity_max_horizon(&mut env, 10), Ok(10));
    assert_eq!(
        LiquifactEscrow::update_maturity(&mut env, 1_011),
        Err(refused(EscrowError::MaturityExceedsMaxHorizon))
    );
    assert_eq!(
        LiquifactEscrow::raise_maturity_max_horizon(&mut env, 10),
        Err(refused(EscrowError::HorizonNotRaised))
    );
    assert_eq!(LiquifactEscrow::raise_maturity_max_horizon(&mut env, 11), Ok(11));
    assert_eq!(LiquifactEscrow::get_maturity_max_horizon(&env), 11);
    assert!(LiquifactEscrow::update_maturity(&mut env, 1_011).is_ok());
}

#[test]
fn allowlist_gates_deposits() {
    let mut env = escrow_with(Terms { allowlist_active: Some(true), ..terms() });
    assert!(LiquifactEscrow::is_allowlist_active(&env));
    assert_eq!(
        LiquifactEscrow::fund(&mut env, ALICE, 1),
        Err(refused(EscrowError::InvestorNotAllowlisted))
    );
    LiquifactEscrow::set_investor_allowlisted(&mut env, ALICE, true).unwrap();
    assert!(LiquifactEscrow::is_investor_allowlisted(&env, ALICE));
    assert!(LiquifactEscrow::fund(&mut env, ALICE, 1).is_ok());
    LiquifactEscrow::set_investor_allowlisted(&mut env, ALICE, false).unwrap();
    assert!(LiquifactEscrow::fund(&mut env, ALICE, 1).is_err());
    LiquifactEscrow::set_allowlist_active(&mut env, false).unwrap();
    assert!(LiquifactEscrow::fund(&mut env, ALICE, 1).is_ok());
}

#[test]
fn allowlist_index_follows_in_batches_too() {
    let mut env = open_escrow();
    assert_eq!(
        LiquifactEscrow::set_investors_allowlisted(&mut env, &vec![], true),
        Err(refused(EscrowError::InvestorBatchEmpty))
    );
    assert_eq!(
        LiquifactEscrow::set_investors_allowlisted(&mut env, &vec![ALICE; 33], true),
        Err(refused(EscrowError::InvestorBatchTooLarge))
    );
    LiquifactEscrow::set_investors_allowlisted(&mut env, &vec![ALICE, BOB, ALICE, CAROL], true)
        .unwrap();
    assert_eq!(env.effects.len(), 4);
    assert_eq!(
        LiquifactEscrow::get_allowlisted_investors(&env, 0, 50),
        vec![ALICE, BOB, CAROL]
    );
    assert_eq!(LiquifactEscrow::get_allowlisted_investors(&env, 1, 1), vec![BOB]);
    assert_eq!(LiquifactEscrow::get_allowlisted_investors(&env, 3, 1), vec![]);
    LiquifactEscrow::set_investors_allowlisted(&mut env, &vec![BOB], false).unwrap();
    assert_eq!(LiquifactEscrow::get_allowlisted_investors(&env, 0, 50), vec![ALICE, CAROL]);
    assert_eq!(LiquifactEscrow::get_allowlisted_investors_count(&env), 2);
}

#[test]
fn allowlist_batch_equals_single_changes() {
    let mut one = open_escrow();
    let mut other = open_escrow();
    LiquifactEscrow::set_investors_allowlisted(&mut one, &vec![CAROL, ALICE], true).unwrap();
    LiquifactEscrow::set_investor_allowlisted(&mut other, CAROL, true).unwrap();
    LiquifactEscrow::set_investor_allowlisted(&mut other, ALICE, true).unwrap();
    assert_eq!(one.effects, other.effects);
    assert_eq!(
        LiquifactEscrow::get_allowlisted_investors(&one, 0, 50),
        LiquifactEscrow::get_allowlisted_investors(&other, 0, 50)
    );
}

fn digest(n: u8) -> Digest {
    Digest { bytes: [n; 32] }
}

#[test]
fn primary_digest_is_bound_once() {
    let mut env = open_escrow();
    assert_eq!(LiquifactEscrow::get_primary_attestation_hash(&env), None);
    LiquifactEscrow::bind_primary_attestation_hash(&mut env, digest(1)).unwrap();
    assert_eq!(
        LiquifactEscrow::bind_primary_attestation_hash(&mut env, digest(2)),
        Err(refused(EscrowError::PrimaryAttestationAlreadyBound))
    );
    assert_eq!(LiquifactEscrow::get_primary_attestation_hash(&env), Some(digest(1)));
}

#[test]
fn log_is_append_only_and_bounded() {
    let mut env = open_escrow();
    for n in 0..32 {
        LiquifactEscrow::append_attestation_digest(&mut env, digest(n)).unwrap();
    }
    assert_eq!(
        LiquifactEscrow::append_attestation_digest(&mut env, digest(32)),
        Err(refused(EscrowError::AttestationAppendLogCapacityReached))
    );
    let log = LiquifactEscrow::get_attestation_append_log(&env);
    assert_eq!(log.len(), 32);
    assert_eq!(log[5], digest(5));
    match env.effects[5] {
        Effect::Publish(Event::AttestationDigestAppended(event)) => {
            assert_eq!(event.name, "att_app");
            assert_eq!(event.index, 5);
        }
        _ => panic!("no append event"),
    }
}

#[test]
fn revocation_can_be_taken_back() {
    let mut env = open_escrow();
    LiquifactEscrow::append_attestation_digest(&mut env, digest(1)).unwrap();
    assert_eq!(
        LiquifactEscrow::revoke_attestation_digest(&mut env, 1),
        Err(refused(EscrowError::AttestationIndexOutOfRange))
    );
    assert_eq!(
        LiquifactEscrow::unrevoke_attestation_digest(&mut env, 1),
        Err(refused(EscrowError::AttestationIndexOutOfRange))
    );
    assert_eq!(
        LiquifactEscrow::unrevoke_attestation_digest(&mut env, 0),
        Err(refused(EscrowError::AttestationNotRevoked))
    );
    LiquifactEscrow::revoke_attestation_digest(&mut env, 0).unwrap();
    assert!(LiquifactEscrow::is_attestation_revoked(&env, 0));
    assert_eq!(
        LiquifactEscrow::get_attestation_digest_at(&env, 0),
        Some(AttestationDigestInfo { digest: digest(1), revoked: true })
    );
    assert_eq!(LiquifactEscrow::get_attestation_digest_at(&env, 1), None);
    assert_eq!(
        LiquifactEscrow::revoke_attestation_digest(&mut env, 0),
        Err(refused(EscrowError::AttestationAlreadyRevoked))
    );
    LiquifactEscrow::unrevoke_attestation_digest(&mut env, 0).unwrap();
    assert!(!LiquifactEscrow::is_attestation_revoked(&env, 0));
}

#[test]
fn batch_revocation_is_all_or_nothing() {
    let mut env = open_escrow();
    for n in 0..3 {
        LiquifactEscrow::append_attestation_digest(&mut env, digest(n)).unwrap();
    }
    env.effects.clear();
    let mut revoke = |env: &mut ContractEnv, indices: Vec<u32>| {
        LiquifactEscrow::revoke_attestation_digests(env, &indices)
    };
    assert_eq!(revoke(&mut env, vec![]), Err(refused(EscrowError::AttestationBatchEmpty)));
    assert_eq!(
        revoke(&mut env, vec![0; 33]),
        Err(refused(EscrowError::AttestationBatchTooLarge))
    );
    assert_eq!(
        revoke(&mut env, vec![0, 1, 3]),
        Err(refused(EscrowError::AttestationIndexOutOfRange))
    );
    assert_eq!(
        revoke(&mut env, vec![0, 1, 0]),
        Err(refused(EscrowError::AttestationAlreadyRevoked))
    );
    assert!(!LiquifactEscrow::is_attestation_revoked(&env, 0));
    assert!(env.effects.is_empty());
    assert_eq!(revoke(&mut env, vec![2, 0]), Ok(()));
    assert!(LiquifactEscrow::is_attestation_revoked(&env, 0));
    assert!(!LiquifactEscrow::is_attestation_revoked(&env, 1));
    assert!(LiquifactEscrow::is_attestation_revoked(&env, 2));
    assert_eq!(env.effects.len(), 2);
}

#[test]
fn collateral_is_a_record_only() {
    let mut env = open_escrow();
    let asset = Sym::from_bytes(b"GOLD").unwrap();
    let empty = Sym::from_bytes(b"").unwrap();
    assert_eq!(
        LiquifactEscrow::clear_sme_collateral_commitment(&mut env),
        Err(refused(EscrowError::NoCollateralToClear))
    );
    assert_eq!(
        LiquifactEscrow::record_sme_collateral_commitment(&mut env, asset, 0),
        Err(refused(EscrowError::CollateralAmountNotPositive))
    );
    assert_eq!(
        LiquifactEscrow::record_sme_collateral_commitment(&mut env, empty, 1),
        Err(refused(EscrowError::CollateralAssetEmpty))
    );
    let first = LiquifactEscrow::record_sme_collateral_commitment(&mut env, asset, 50).unwrap();
    assert_eq!(first, SmeCollateralCommitment { asset, amount: 50, recorded_at: 1000 });
    env.ledger.timestamp = 999;
    assert_eq!(
        LiquifactEscrow::record_sme_collateral_commitment(&mut env, asset, 60),
        Err(refused(EscrowError::CollateralTimestampBackwards))
    );
    env.ledger.timestamp = 1_001;
    env.effects.clear();
    LiquifactEscrow::record_sme_collateral_commitment(&mut env, asset, 60).unwrap();
    match env.effects[0] {
        Effect::Publish(Event::CollateralRecordedEvt(event)) => {
            assert_eq!(event.amount, 60);
            assert_eq!(event.prior_amount, 50);
        }
        _ => panic!("no collateral event"),
    }
    assert_eq!(env.effects.len(), 1);
    LiquifactEscrow::clear_sme_collateral_commitment(&mut env).unwrap();
    assert_eq!(LiquifactEscrow::get_sme_collateral_commitment(&env), None);
}

#[test]
fn registry_hint_is_rebound_and_cleared() {
    let mut env = open_escrow();
    assert_eq!(LiquifactEscrow::get_registry_ref(&env), None);
    LiquifactEscrow::rebind_registry_ref(&mut env, Some(CAROL)).unwrap();
    assert_eq!(LiquifactEscrow::get_registry_ref(&env), Some(CAROL));
    LiquifactEscrow::clear_registry_ref(&mut env).unwrap();
    assert_eq!(LiquifactEscrow::get_registry_ref(&env), None);
}

#[test]
fn migration_is_never_carried_out() {
    let mut env = open_escrow();
    assert_eq!(
        LiquifactEscrow::migrate(&env, 5),
        Err(refused(EscrowError::MigrationVersionMismatch))
    );
    assert_eq!(
        LiquifactEscrow::migrate(&env, 6),
        Err(refused(EscrowError::AlreadyCurrentSchemaVersion))
    );
    env.storage.version = Some(5);
    assert_eq!(
        LiquifactEscrow::migrate(&env, 5),
        Err(refused(EscrowError::NoMigrationPath))
    );
    env.authorized = vec![];
    assert_eq!(LiquifactEscrow::migrate(&env, 5), Err(Refusal::AuthRequired(ADMIN)));
}

#[test]
fn upgrade_is_announced_first() {
    let mut env = open_escrow();
    LiquifactEscrow::upgrade(&mut env, digest(9)).unwrap();
    assert_eq!(env.effects.len(), 2);
    match env.effects[0] {
        Effect::Publish(Event::ContractUpgraded(event)) => {
            assert_eq!(event.name, "upgrade");
            assert_eq!(event.new_wasm_hash, digest(9));
        }
        _ => panic!("no upgrade event"),
    }
    assert_eq!(env.effects[1], Effect::UpdateWasm(digest(9)));
}

#[test]
fn lifetimes_are_extended_for_anyone() {
    let mut env = open_escrow();
    env.authorized = vec![];
    LiquifactEscrow::bump_ttl(&mut env, &vec![ALICE, BOB]);
    assert_eq!(env.effects.len(), 1 + 2 * 5);
    let targets: Vec<TtlTarget> = env
        .effects
        .iter()
        .map(|effect| match effect {
            Effect::ExtendTtl(extension) => {
                assert_eq!(extension.threshold, 3_600);
                assert_eq!(extension.extend_to, 3_600);
                extension.target
            }
            _ => panic!("not an extension"),
        })
        .collect();
    assert_eq!(targets[0], TtlTarget::Instance);
    assert_eq!(targets[1], TtlTarget::Persistent(DataKey::InvestorAllowlisted(ALICE)));
    assert_eq!(targets[2], TtlTarget::Persistent(DataKey::InvestorContribution(ALICE)));
    assert_eq!(targets[3], TtlTarget::Persistent(DataKey::InvestorEffectiveYield(ALICE)));
    assert_eq!(targets[4], TtlTarget::Persistent(DataKey::InvestorClaimNotBefore(ALICE)));
    assert_eq!(targets[5], TtlTarget::Persistent(DataKey::InvestorClaimed(ALICE)));
    assert_eq!(targets[6], TtlTarget::Persistent(DataKey::InvestorAllowlisted(BOB)));
    assert_eq!(targets[10], TtlTarget::Persistent(DataKey::InvestorClaimed(BOB)));
}

#[test]
fn instance_is_kept_alive_without_naming_investors() {
    let mut env = open_escrow();
    env.authorized = vec![];
    LiquifactEscrow::bump_ttl(&mut env, &vec![]);
    assert_eq!(env.effects.len(), 1);
    match env.effects[0] {
        Effect::ExtendTtl(extension) => {
            assert_eq!(extension.target, TtlTarget::Instance);
            assert_eq!(extension.threshold, 3_600);
            assert_eq!(extension.extend_to, 3_600);
        }
        _ => panic!("not an extension"),
    }
}

#[test]
fn summary_collects_the_state() {
    let mut env = funded_escrow(terms());
    LiquifactEscrow::bind_primary_attestation_hash(&mut env, digest(1)).unwrap();
    LiquifactEscrow::append_attestation_digest(&mut env, digest(2)).unwrap();
    let summary = LiquifactEscrow::get_escrow_summary(&env).unwrap();
    assert_eq!(summary.escrow.status, 1);
    assert!(!summary.has_maturity_lock);
    assert!(!summary.legal_hold);
    assert_eq!(summary.unique_funder_count, 2);
    assert_eq!(summary.schema_version, 6);
    assert!(summary.has_primary_attestation);
    assert_eq!(summary.attestation_log_length, 1);
    assert_eq!(summary.sme_collateral_commitment, CollateralCommitmentSnapshot::Absent);
    match summary.funding_close_snapshot {
        EscrowCloseSnapshot::Present(snapshot) => assert_eq!(snapshot.total_principal, 10_000),
        EscrowCloseSnapshot::Absent => panic!("no snapshot"),
    }
    assert_eq!(
        LiquifactEscrow::get_escrow_summary(&new_env()),
        Err(refused(EscrowError::EscrowNotInitialized))
    );
}

#[test]
fn funding_deadline_is_not_set_by_init() {
    assert_eq!(LiquifactEscrow::get_funding_deadline(&open_escrow()), None);
}

#[test]
fn nothing_is_accepted_before_initialization() {
    let mut env = new_env();
    let why = Err(refused(EscrowError::EscrowNotInitialized));
    assert_eq!(LiquifactEscrow::set_paused(&mut env, true), why);
    assert_eq!(LiquifactEscrow::set_legal_hold(&mut env, true), why);
    assert_eq!(LiquifactEscrow::set_allowlist_active(&mut env, true), why);
    assert_eq!(LiquifactEscrow::append_attestation_digest(&mut env, digest(1)), why);
    assert_eq!(LiquifactEscrow::upgrade(&mut env, digest(1)), why);
    assert!(env.effects.is_empty());
}

#[test]
fn error_codes_stay_as_published() {
    assert_eq!(EscrowError::AmountMustBePositive.code(), 1);
    assert_eq!(EscrowError::EscrowNotInitialized.code(), 20);
    assert_eq!(EscrowError::SweepExceedsLiabilityFloor.code(), 42);
    assert_eq!(EscrowError::AdminProposalExpired.code(), 85);
    assert_eq!(EscrowError::EscrowNotOpenForFunding.code(), 103);
    assert_eq!(EscrowError::ComputePayoutArithmeticOverflow.code(), 129);
    assert_eq!(EscrowError::NewCapNotHigher.code(), 176);
    assert_eq!(EscrowError::PartialSettleUnauthorizedCaller.code(), 200);
    assert_eq!(EscrowError::LegalHoldBlocksPartialSettle.code(), 201);
    assert_eq!(EscrowError::PartialSettleNotOpen.code(), 202);
    assert_ne!(
        EscrowError::HorizonNotRaised.code(),
        EscrowError::LegalHoldBlocksPartialSettle.code()
    );
}

#[test]
fn status_guards() {
    assert_eq!(guard_status_eq(1, 1, EscrowError::SettlementNotFunded), Ok(()));
    assert_eq!(
        guard_status_eq(0, 1, EscrowError::SettlementNotFunded),
        Err(refused(EscrowError::SettlementNotFunded))
    );
    assert_eq!(guard_status_in(4, &[2, 3, 4], EscrowError::DustSweepNotTerminal), Ok(()));
    assert_eq!(
        guard_status_in(1, &[2, 3, 4], EscrowError::DustSweepNotTerminal),
        Err(refused(EscrowError::DustSweepNotTerminal))
    );
    assert!(guard_status_in(1, &[], EscrowError::DustSweepNotTerminal).is_err());
}

#[test]
fn collateral_and_registry_block_nothing() {
    let mut plain = funded_escrow(terms());
    let mut labelled = funded_escrow(terms());
    let asset = Sym::from_bytes(b"GOLD").unwrap();
    LiquifactEscrow::record_sme_collateral_commitment(&mut labelled, asset, 1_000_000).unwrap();
    LiquifactEscrow::rebind_registry_ref(&mut labelled, Some(CAROL)).unwrap();
    labelled.effects.clear();
    assert_eq!(
        LiquifactEscrow::withdraw(&mut plain),
        LiquifactEscrow::withdraw(&mut labelled)
    );
    assert_eq!(plain.effects, labelled.effects);
}

#[test]
fn terms_stay_as_initialized() {
    let mut env = funded_escrow(terms());
    LiquifactEscrow::upgrade(&mut env, digest(1)).unwrap();
    LiquifactEscrow::bump_ttl(&mut env, &vec![ALICE]);
    LiquifactEscrow::rotate_beneficiary(&mut env, CAROL).unwrap();
    LiquifactEscrow::propose_admin(&mut env, BOB, None).unwrap();
    LiquifactEscrow::accept_admin(&mut env).unwrap();
    let escrow = LiquifactEscrow::get_escrow(&env).unwrap();
    assert_eq!(escrow.invoice_id, Sym::from_bytes(b"INV_1").unwrap());
    assert_eq!(escrow.amount, 10_000);
    assert_eq!(escrow.yield_bps, 800);
    assert_eq!(LiquifactEscrow::get_funding_token(&env), Ok(TOKEN));
    assert_eq!(LiquifactEscrow::get_treasury(&env), Ok(TREASURY));
    assert_eq!(LiquifactEscrow::get_version(&env), 6);
    assert_eq!(
        LiquifactEscrow::get_funding_close_snapshot(&env).unwrap().total_principal,
        10_000
    );
}

#[test]
fn refused_calls_change_nothing() {
    let mut env = funded_escrow(terms());
    env.authorized = vec![];
    let before = format!("{:?}", env);
    assert!(LiquifactEscrow::settle(&mut env).is_err());
    assert!(LiquifactEscrow::withdraw(&mut env).is_err());
    assert!(LiquifactEscrow::set_legal_hold(&mut env, true).is_err());
    assert!(LiquifactEscrow::set_investors_allowlisted(&mut env, &vec![ALICE], true).is_err());
    assert!(LiquifactEscrow::rotate_beneficiary(&mut env, CAROL).is_err());
    assert!(LiquifactEscrow::fund_batch(&mut env, &vec![(ALICE, 1)]).is_err());
    assert_eq!(format!("{:?}", env), before);
}
