//! Setting up an escrow.
use crate::contract::LiquifactEscrow;
use crate::env::{outcome, refused, ContractEnv, EnvView, StorageView};
use crate::errors::{EscrowError, Refusal};
use crate::events::{EscrowInitialized, Event};
use crate::guards::{ensure, maturity_fault, validate_maturity_bounds};
use crate::invoice_id::{host_string_bytes, invoice_id_fault, IdText};
use crate::tiers::{tier_table_fault, tier_table_view, validate_yield_tiers_table};
use crate::types::{
    InvoiceEscrow, YieldTier, DEFAULT_MATURITY_MAX_HORIZON_SECS, MAX_INVOICE_AMOUNT, MAX_YIELD_BPS,
    SCHEMA_VERSION, STATUS_OPEN,
};
use crate::values::{symbol_of, Address};
use vstd::prelude::*;

verus! {

/// The terms of a new escrow.
#[verifier::ext_equal]
pub struct InitTerms {
    pub admin: Address,
    pub invoice_id: Seq<u8>,
    pub sme_address: Address,
    pub amount: i128,
    pub yield_bps: i64,
    pub maturity: u64,
    pub funding_token: Address,
    pub registry: Option<Address>,
    pub treasury: Address,
    pub yield_tiers: Option<Seq<YieldTier>>,
    pub min_contribution: Option<i128>,
    pub max_unique_investors: Option<u32>,
    pub max_per_investor: Option<i128>,
    pub legal_hold_clear_delay: Option<u64>,
    pub maturity_max_horizon: Option<u64>,
    pub allowlist_active: Option<bool>,
}

impl InitTerms {
    /// The furthest maturity from now.
    pub open spec fn horizon(self) -> u64 {
        self.maturity_max_horizon.unwrap_or(DEFAULT_MATURITY_MAX_HORIZON_SECS)
    }

    /// The new escrow.
    pub open spec fn escrow(self) -> InvoiceEscrow {
        InvoiceEscrow {
            invoice_id: symbol_of(self.invoice_id),
            admin: self.admin,
            sme_address: self.sme_address,
            amount: self.amount,
            funding_target: self.amount,
            funded_amount: 0,
            yield_bps: self.yield_bps,
            maturity: self.maturity,
            status: STATUS_OPEN,
        }
    }
}

/// What is wrong with the limits on deposits.
pub open spec fn limits_fault(t: InitTerms) -> Option<EscrowError> {
    if t.min_contribution is Some && t.min_contribution->0 <= 0 {
        Some(EscrowError::MinContributionNotPositive)
    } else if t.min_contribution is Some && t.min_contribution->0 > t.amount {
        Some(EscrowError::MinContributionExceedsAmount)
    } else if t.max_per_investor is Some && t.max_per_investor->0 <= 0 {
        Some(EscrowError::MaxPerInvestorNotPositive)
    } else if t.max_unique_investors == Some(0u32) {
        Some(EscrowError::MaxUniqueInvestorsNotPositive)
    } else {
        None
    }
}

/// What is wrong with the terms of an escrow set up at `now`.
pub open spec fn terms_fault(now: u64, initialized: bool, t: InitTerms) -> Option<EscrowError> {
    if t.amount <= 0 {
        Some(EscrowError::AmountMustBePositive)
    } else if t.amount > MAX_INVOICE_AMOUNT {
        Some(EscrowError::AmountExceedsMax)
    } else if !(0 <= t.yield_bps <= MAX_YIELD_BPS) {
        Some(EscrowError::YieldBpsOutOfRange)
    } else if initialized {
        Some(EscrowError::EscrowAlreadyInitialized)
    } else if tier_table_fault(t.yield_tiers, t.yield_bps) is Some {
        tier_table_fault(t.yield_tiers, t.yield_bps)
    } else if maturity_fault(now, t.maturity, t.horizon()) is Some {
        maturity_fault(now, t.maturity, t.horizon())
    } else if limits_fault(t) is Some {
        limits_fault(t)
    } else {
        invoice_id_fault(t.invoice_id)
    }
}

/// Why an initialization is refused.
pub open spec fn init_refusal(e: EnvView, t: InitTerms) -> Option<Refusal> {
    if !e.has_auth(t.admin) {
        Some(Refusal::AuthRequired(t.admin))
    } else {
        match terms_fault(e.ledger.timestamp, e.storage.escrow is Some, t) {
            Some(error) => refused(error),
            None => None,
        }
    }
}

/// `new` where it is there, and `old` otherwise.
pub open spec fn or_keep<T>(new: Option<T>, old: Option<T>) -> Option<T> {
    if new is Some {
        new
    } else {
        old
    }
}

/// The storage after an initialization.
pub open spec fn init_storage(s: StorageView, t: InitTerms) -> StorageView {
    StorageView {
        escrow: Some(t.escrow()),
        version: Some(SCHEMA_VERSION),
        maturity_max_horizon: Some(t.horizon()),
        funding_token: Some(t.funding_token),
        treasury: Some(t.treasury),
        registry_ref: or_keep(t.registry, s.registry_ref),
        yield_tier_table: or_keep(t.yield_tiers, s.yield_tier_table),
        min_contribution_floor: Some(t.min_contribution.unwrap_or(0)),
        unique_funder_count: Some(0),
        max_per_investor_cap: or_keep(t.max_per_investor, s.max_per_investor_cap),
        max_unique_investors_cap: or_keep(t.max_unique_investors, s.max_unique_investors_cap),
        legal_hold_clear_delay: if t.legal_hold_clear_delay.unwrap_or(0) > 0 {
            t.legal_hold_clear_delay
        } else {
            s.legal_hold_clear_delay
        },
        allowlist_active: or_keep(t.allowlist_active, s.allowlist_active),
        ..s
    }
}

/// The environment after an initialization.
pub open spec fn init_post(e: EnvView, t: InitTerms) -> EnvView {
    e.with_storage(init_storage(e.storage, t)).publish(
        Event::EscrowInitialized(
            EscrowInitialized {
                name: "escrow_ii",
                escrow: t.escrow(),
                funding_token: t.funding_token,
                treasury: t.treasury,
                registry: t.registry,
                has_maturity_lock: t.maturity != 0,
            },
        ),
    )
}

impl LiquifactEscrow {
    /// Sets up the escrow of the invoice that `invoice_id` names. The funding target is the invoice
    /// amount.
    ///
    /// Funding token, treasury and yield tiers stay as they are set here. A `maturity` of `0` is
    /// no maturity lock. `_funding_deadline` has no effect.
    pub fn init(
        env: &mut ContractEnv,
        admin: Address,
        invoice_id: &soroban_sdk::String,
        sme_address: Address,
        amount: i128,
        yield_bps: i64,
        maturity: u64,
        funding_token: Address,
        registry: Option<Address>,
        treasury: Address,
        yield_tiers: Option<Vec<YieldTier>>,
        min_contribution: Option<i128>,
        max_unique_investors: Option<u32>,
        max_per_investor: Option<i128>,
        legal_hold_clear_delay: Option<u64>,
        maturity_max_horizon: Option<u64>,
        _funding_deadline: Option<u64>,
        allowlist_active: Option<bool>,
    ) -> (r: Result<InvoiceEscrow, Refusal>)
        ensures
            ({
                let terms = (InitTerms {
                    admin,
                    invoice_id: host_string_bytes(*invoice_id),
                    sme_address,
                    amount,
                    yield_bps,
                    maturity,
                    funding_token,
                    registry,
                    treasury,
                    yield_tiers: tier_table_view(yield_tiers),
                    min_contribution,
                    max_unique_investors,
                    max_per_investor,
                    legal_hold_clear_delay,
                    maturity_max_horizon,
                    allowlist_active,
                });
                outcome(
                    init_refusal(old(env)@, terms),
                    old(env)@,
                    init_post(old(env)@, terms),
                    terms.escrow(),
                    r,
                    final(env)@,
                )
            }),
    {
        Self::init_with_id(
            env,
            admin,
            IdText::Host(invoice_id),
            sme_address,
            amount,
            yield_bps,
            maturity,
            funding_token,
            registry,
            treasury,
            yield_tiers,
            min_contribution,
            max_unique_investors,
            max_per_investor,
            legal_hold_clear_delay,
            maturity_max_horizon,
            _funding_deadline,
            allowlist_active,
        )
    }

    /// Sets up the escrow as [`LiquifactEscrow::init`] does, of the invoice with the identifier
    /// `invoice_id`, wherever its text is held.
    pub fn init_with_id(
        env: &mut ContractEnv,
        admin: Address,
        invoice_id: IdText<'_>,
        sme_address: Address,
        amount: i128,
        yield_bps: i64,
        maturity: u64,
        funding_token: Address,
        registry: Option<Address>,
        treasury: Address,
        yield_tiers: Option<Vec<YieldTier>>,
        min_contribution: Option<i128>,
        max_unique_investors: Option<u32>,
        max_per_investor: Option<i128>,
        legal_hold_clear_delay: Option<u64>,
        maturity_max_horizon: Option<u64>,
        _funding_deadline: Option<u64>,
        allowlist_active: Option<bool>,
    ) -> (r: Result<InvoiceEscrow, Refusal>)
        ensures
            ({
                let terms = (InitTerms {
                    admin,
                    invoice_id: invoice_id.bytes(),
                    sme_address,
                    amount,
                    yield_bps,
                    maturity,
                    funding_token,
                    registry,
                    treasury,
                    yield_tiers: tier_table_view(yield_tiers),
                    min_contribution,
                    max_unique_investors,
                    max_per_investor,
                    legal_hold_clear_delay,
                    maturity_max_horizon,
                    allowlist_active,
                });
                outcome(
                    init_refusal(old(env)@, terms),
                    old(env)@,
                    init_post(old(env)@, terms),
                    terms.escrow(),
                    r,
                    final(env)@,
                )
            }),
    {
        env.require_auth(admin)?;
        ensure(amount > 0, EscrowError::AmountMustBePositive)?;
        ensure(amount <= MAX_INVOICE_AMOUNT, EscrowError::AmountExceedsMax)?;
        ensure(0 <= yield_bps && yield_bps <= MAX_YIELD_BPS, EscrowError::YieldBpsOutOfRange)?;
        ensure(env.storage.escrow.is_none(), EscrowError::EscrowAlreadyInitialized)?;
        validate_yield_tiers_table(&yield_tiers, yield_bps)?;
        let max_horizon: u64 = maturity_max_horizon.unwrap_or(DEFAULT_MATURITY_MAX_HORIZON_SECS);
        validate_maturity_bounds(env.ledger.timestamp, maturity, max_horizon)?;
        if let Some(floor) = min_contribution {
            ensure(floor > 0, EscrowError::MinContributionNotPositive)?;
            ensure(floor <= amount, EscrowError::MinContributionExceedsAmount)?;
        }
        if let Some(cap) = max_per_investor {
            ensure(cap > 0, EscrowError::MaxPerInvestorNotPositive)?;
        }
        if let Some(cap) = max_unique_investors {
            ensure(cap > 0, EscrowError::MaxUniqueInvestorsNotPositive)?;
        }
        let invoice_sym = invoice_id.validate()?;

        env.storage.maturity_max_horizon = Some(max_horizon);
        env.storage.funding_token = Some(funding_token);
        env.storage.treasury = Some(treasury);
        env.storage.version = Some(SCHEMA_VERSION);
        if registry.is_some() {
            env.storage.registry_ref = registry;
        }
        if yield_tiers.is_some() {
            env.storage.yield_tier_table = yield_tiers;
        }
        env.storage.min_contribution_floor = Some(min_contribution.unwrap_or(0));
        env.storage.unique_funder_count = Some(0);
        if max_per_investor.is_some() {
            env.storage.max_per_investor_cap = max_per_investor;
        }
        if max_unique_investors.is_some() {
            env.storage.max_unique_investors_cap = max_unique_investors;
        }
        if legal_hold_clear_delay.unwrap_or(0) > 0 {
            env.storage.legal_hold_clear_delay = legal_hold_clear_delay;
        }
        if allowlist_active.is_some() {
            env.storage.allowlist_active = allowlist_active;
        }
        let escrow = InvoiceEscrow {
            invoice_id: invoice_sym,
            admin,
            sme_address,
            amount,
            funding_target: amount,
            funded_amount: 0,
            yield_bps,
            maturity,
            status: STATUS_OPEN,
        };
        env.storage.escrow = Some(escrow);
        env.publish(
            Event::EscrowInitialized(
                EscrowInitialized {
                    name: "escrow_ii",
                    escrow,
                    funding_token,
                    treasury,
                    registry,
                    has_maturity_lock: maturity != 0,
                },
            ),
        );
        Ok(escrow)
    }
}

} // verus!
