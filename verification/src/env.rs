//! What one invocation of the contract sees and leaves behind.
//!
//! A [`ContractEnv`] holds the contract's storage, the ledger's clock, the authorizations that came
//! with the call and the contract's token balance, all as plain values. An entrypoint reads and
//! writes it and appends to [`ContractEnv::effects`] what is to be done outside: events to publish,
//! tokens to move, entries to keep alive, code to replace.
use crate::address_map::{copy_items, AddressMap};
use crate::errors::{EscrowError, Refusal};
use crate::events::Event;
use crate::types::{
    DataKey, FundingCloseSnapshot, InvoiceEscrow, SmeCollateralCommitment, YieldTier,
};
use crate::values::{Address, Digest};
use std::collections::BTreeSet;
use vstd::prelude::*;

verus! {

/// A movement of the funding token.
#[derive(Clone, Copy, Debug, PartialEq)]
pub struct TokenTransfer {
    pub token: Address,
    pub from: Address,
    pub to: Address,
    pub amount: i128,
}

/// What a lifetime extension applies to.
#[derive(Clone, Copy, Debug, PartialEq, Eq)]
pub enum TtlTarget {
    /// The contract instance with all its instance entries.
    Instance,
    /// One persistent entry.
    Persistent(DataKey),
}

/// A lifetime extension: if fewer than `threshold` ledgers are left, extend to `extend_to`.
#[derive(Clone, Copy, Debug, PartialEq, Eq)]
pub struct TtlExtension {
    pub target: TtlTarget,
    pub threshold: u32,
    pub extend_to: u32,
}

/// Something to be done outside the contract, in the order of [`ContractEnv::effects`].
#[derive(Clone, Copy, Debug, PartialEq)]
pub enum Effect {
    Publish(Event),
    Transfer(TokenTransfer),
    ExtendTtl(TtlExtension),
    UpdateWasm(Digest),
}

/// The clock of the ledger.
#[derive(Clone, Copy, Debug, PartialEq, Eq)]
pub struct LedgerInfo {
    /// Seconds since the epoch, as the validators agreed on them.
    pub timestamp: u64,
    /// Number of the ledger.
    pub sequence: u32,
}

/// The contract's ledger entries; `None` is an absent entry. See [`DataKey`] for what each means.
#[derive(Debug)]
pub struct Storage {
    pub escrow: Option<InvoiceEscrow>,
    pub version: Option<u32>,
    pub legal_hold: Option<bool>,
    pub legal_hold_clearable_at: Option<u64>,
    pub legal_hold_clear_delay: Option<u64>,
    pub sme_collateral_pledge: Option<SmeCollateralCommitment>,
    pub funding_token: Option<Address>,
    pub treasury: Option<Address>,
    pub registry_ref: Option<Address>,
    pub yield_tier_table: Option<Vec<YieldTier>>,
    pub funding_close_snapshot: Option<FundingCloseSnapshot>,
    pub min_contribution_floor: Option<i128>,
    pub max_unique_investors_cap: Option<u32>,
    pub max_per_investor_cap: Option<i128>,
    pub pending_admin: Option<Address>,
    pub pending_admin_expiry: Option<u64>,
    pub unique_funder_count: Option<u32>,
    pub primary_attestation_hash: Option<Digest>,
    pub attestation_append_log: Vec<Digest>,
    pub attestation_revoked: BTreeSet<u32>,
    pub allowlist_active: Option<bool>,
    pub allowlist_index: Vec<Address>,
    pub distributed_principal: Option<i128>,
    pub maturity_max_horizon: Option<u64>,
    pub funding_deadline: Option<u64>,
    pub investor_index: Vec<Address>,
    pub settled_at: Option<u64>,
    pub paused: Option<bool>,
    pub investor_contribution: AddressMap<i128>,
    pub investor_effective_yield: AddressMap<i64>,
    pub investor_claim_not_before: AddressMap<u64>,
    pub investor_claimed: AddressMap<bool>,
    pub investor_allowlisted: AddressMap<bool>,
    pub investor_refunded: AddressMap<bool>,
}

/// The mathematical view of [`Storage`].
#[verifier::ext_equal]
pub struct StorageView {
    pub escrow: Option<InvoiceEscrow>,
    pub version: Option<u32>,
    pub legal_hold: Option<bool>,
    pub legal_hold_clearable_at: Option<u64>,
    pub legal_hold_clear_delay: Option<u64>,
    pub sme_collateral_pledge: Option<SmeCollateralCommitment>,
    pub funding_token: Option<Address>,
    pub treasury: Option<Address>,
    pub registry_ref: Option<Address>,
    pub yield_tier_table: Option<Seq<YieldTier>>,
    pub funding_close_snapshot: Option<FundingCloseSnapshot>,
    pub min_contribution_floor: Option<i128>,
    pub max_unique_investors_cap: Option<u32>,
    pub max_per_investor_cap: Option<i128>,
    pub pending_admin: Option<Address>,
    pub pending_admin_expiry: Option<u64>,
    pub unique_funder_count: Option<u32>,
    pub primary_attestation_hash: Option<Digest>,
    pub attestation_append_log: Seq<Digest>,
    pub attestation_revoked: Set<u32>,
    pub allowlist_active: Option<bool>,
    pub allowlist_index: Seq<Address>,
    pub distributed_principal: Option<i128>,
    pub maturity_max_horizon: Option<u64>,
    pub funding_deadline: Option<u64>,
    pub investor_index: Seq<Address>,
    pub settled_at: Option<u64>,
    pub paused: Option<bool>,
    pub investor_contribution: Map<Address, i128>,
    pub investor_effective_yield: Map<Address, i64>,
    pub investor_claim_not_before: Map<Address, u64>,
    pub investor_claimed: Map<Address, bool>,
    pub investor_allowlisted: Map<Address, bool>,
    pub investor_refunded: Map<Address, bool>,
}

impl View for Storage {
    type V = StorageView;

    open spec fn view(&self) -> StorageView {
        StorageView {
            escrow: self.escrow,
            version: self.version,
            legal_hold: self.legal_hold,
            legal_hold_clearable_at: self.legal_hold_clearable_at,
            legal_hold_clear_delay: self.legal_hold_clear_delay,
            sme_collateral_pledge: self.sme_collateral_pledge,
            funding_token: self.funding_token,
            treasury: self.treasury,
            registry_ref: self.registry_ref,
            yield_tier_table: match self.yield_tier_table {
                Some(tiers) => Some(tiers@),
                None => None,
            },
            funding_close_snapshot: self.funding_close_snapshot,
            min_contribution_floor: self.min_contribution_floor,
            max_unique_investors_cap: self.max_unique_investors_cap,
            max_per_investor_cap: self.max_per_investor_cap,
            pending_admin: self.pending_admin,
            pending_admin_expiry: self.pending_admin_expiry,
            unique_funder_count: self.unique_funder_count,
            primary_attestation_hash: self.primary_attestation_hash,
            attestation_append_log: self.attestation_append_log@,
            attestation_revoked: self.attestation_revoked@,
            allowlist_active: self.allowlist_active,
            allowlist_index: self.allowlist_index@,
            distributed_principal: self.distributed_principal,
            maturity_max_horizon: self.maturity_max_horizon,
            funding_deadline: self.funding_deadline,
            investor_index: self.investor_index@,
            settled_at: self.settled_at,
            paused: self.paused,
            investor_contribution: self.investor_contribution@,
            investor_effective_yield: self.investor_effective_yield@,
            investor_claim_not_before: self.investor_claim_not_before@,
            investor_claimed: self.investor_claimed@,
            investor_allowlisted: self.investor_allowlisted@,
            investor_refunded: self.investor_refunded@,
        }
    }
}

/// The value at `key`, or `default` where there is none.
pub open spec fn lookup<V>(map: Map<Address, V>, key: Address, default: V) -> V {
    if map.contains_key(key) {
        map[key]
    } else {
        default
    }
}

impl StorageView {
    /// Whether the compliance hold is active.
    pub open spec fn hold_active(self) -> bool {
        self.legal_hold == Some(true)
    }

    /// Whether the operational pause is active.
    pub open spec fn pause_active(self) -> bool {
        self.paused == Some(true)
    }

    /// Whether only allowlisted investors may fund.
    pub open spec fn allowlist_on(self) -> bool {
        self.allowlist_active == Some(true)
    }

    /// Principal recorded for `investor`.
    pub open spec fn contribution(self, investor: Address) -> i128 {
        lookup(self.investor_contribution, investor, 0)
    }

    /// Earliest timestamp of `investor`'s claim.
    pub open spec fn claim_not_before(self, investor: Address) -> u64 {
        lookup(self.investor_claim_not_before, investor, 0)
    }

    /// Whether `investor` has claimed.
    pub open spec fn claimed(self, investor: Address) -> bool {
        lookup(self.investor_claimed, investor, false)
    }

    /// Whether `investor` is allowlisted.
    pub open spec fn allowlisted(self, investor: Address) -> bool {
        lookup(self.investor_allowlisted, investor, false)
    }

    /// Whether `investor` has been refunded.
    pub open spec fn refunded(self, investor: Address) -> bool {
        lookup(self.investor_refunded, investor, false)
    }

    /// Least amount of one deposit.
    pub open spec fn floor(self) -> i128 {
        self.min_contribution_floor.unwrap_or(0)
    }

    /// Distinct investors so far.
    pub open spec fn funders(self) -> u32 {
        self.unique_funder_count.unwrap_or(0)
    }

    /// Principal already handed out.
    pub open spec fn distributed(self) -> i128 {
        self.distributed_principal.unwrap_or(0)
    }

    /// Least delay between requesting and performing a hold clear.
    pub open spec fn clear_delay(self) -> u64 {
        self.legal_hold_clear_delay.unwrap_or(0)
    }

    /// Stored schema version.
    pub open spec fn schema(self) -> u32 {
        self.version.unwrap_or(0)
    }
}

/// The state and surroundings of one invocation.
#[derive(Debug)]
pub struct ContractEnv {
    pub storage: Storage,
    pub ledger: LedgerInfo,
    /// Addresses whose authorization of this call has been established.
    pub authorized: Vec<Address>,
    /// Address of this contract.
    pub contract: Address,
    /// Funding-token balance of this contract before the call.
    pub contract_balance: i128,
    /// What the call leaves to be done, in order.
    pub effects: Vec<Effect>,
}

/// The mathematical view of [`ContractEnv`].
#[verifier::ext_equal]
pub struct EnvView {
    pub storage: StorageView,
    pub ledger: LedgerInfo,
    pub authorized: Seq<Address>,
    pub contract: Address,
    pub contract_balance: i128,
    pub effects: Seq<Effect>,
}

impl View for ContractEnv {
    type V = EnvView;

    open spec fn view(&self) -> EnvView {
        EnvView {
            storage: self.storage@,
            ledger: self.ledger,
            authorized: self.authorized@,
            contract: self.contract,
            contract_balance: self.contract_balance,
            effects: self.effects@,
        }
    }
}

/// The refusal by a rule of the contract.
pub open spec fn refused(error: EscrowError) -> Option<Refusal> {
    Some(Refusal::Error(error))
}

/// How a call ends: refused, with everything as it was, or carried out, with result `value` and the
/// environment `after`.
pub open spec fn outcome<T>(
    refusal: Option<Refusal>,
    before: EnvView,
    after: EnvView,
    value: T,
    result: Result<T, Refusal>,
    end: EnvView,
) -> bool {
    match refusal {
        Some(why) => result == Err::<T, Refusal>(why) && end == before,
        None => result == Ok::<T, Refusal>(value) && end == after,
    }
}

impl EnvView {
    /// Whether `who` authorized the call.
    pub open spec fn has_auth(self, who: Address) -> bool {
        self.authorized.contains(who)
    }

    /// The environment with another storage.
    pub open spec fn with_storage(self, storage: StorageView) -> EnvView {
        EnvView { storage, ..self }
    }

    /// The environment with one more effect.
    pub open spec fn with_effect(self, effect: Effect) -> EnvView {
        EnvView { effects: self.effects.push(effect), ..self }
    }

    /// The environment with `event` published last.
    pub open spec fn publish(self, event: Event) -> EnvView {
        self.with_effect(Effect::Publish(event))
    }

    /// Why a call that needs the admin gets no further: no escrow, or no authorization.
    pub open spec fn admin_refusal(self) -> Option<Refusal> {
        match self.storage.escrow {
            None => refused(EscrowError::EscrowNotInitialized),
            Some(escrow) => if self.has_auth(escrow.admin) {
                None
            } else {
                Some(Refusal::AuthRequired(escrow.admin))
            },
        }
    }

    /// Why a call that needs the SME gets no further: no escrow, or no authorization.
    pub open spec fn sme_refusal(self) -> Option<Refusal> {
        match self.storage.escrow {
            None => refused(EscrowError::EscrowNotInitialized),
            Some(escrow) => if self.has_auth(escrow.sme_address) {
                None
            } else {
                Some(Refusal::AuthRequired(escrow.sme_address))
            },
        }
    }
}

impl Storage {
    /// The storage of a contract that was never initialized.
    pub fn new() -> (r: Storage)
        ensures
            r@ == empty_storage(),
    {
        broadcast use vstd::std_specs::btree::group_btree_axioms;

        Storage {
            escrow: None,
            version: None,
            legal_hold: None,
            legal_hold_clearable_at: None,
            legal_hold_clear_delay: None,
            sme_collateral_pledge: None,
            funding_token: None,
            treasury: None,
            registry_ref: None,
            yield_tier_table: None,
            funding_close_snapshot: None,
            min_contribution_floor: None,
            max_unique_investors_cap: None,
            max_per_investor_cap: None,
            pending_admin: None,
            pending_admin_expiry: None,
            unique_funder_count: None,
            primary_attestation_hash: None,
            attestation_append_log: Vec::new(),
            attestation_revoked: BTreeSet::new(),
            allowlist_active: None,
            allowlist_index: Vec::new(),
            distributed_principal: None,
            maturity_max_horizon: None,
            funding_deadline: None,
            investor_index: Vec::new(),
            settled_at: None,
            paused: None,
            investor_contribution: AddressMap::new(),
            investor_effective_yield: AddressMap::new(),
            investor_claim_not_before: AddressMap::new(),
            investor_claimed: AddressMap::new(),
            investor_allowlisted: AddressMap::new(),
            investor_refunded: AddressMap::new(),
        }
    }
}

impl Storage {
    /// A second storage with the same entries.
    pub fn copy(&self) -> (r: Storage)
        ensures
            r@ == self@,
    {
        Storage {
            escrow: self.escrow,
            version: self.version,
            legal_hold: self.legal_hold,
            legal_hold_clearable_at: self.legal_hold_clearable_at,
            legal_hold_clear_delay: self.legal_hold_clear_delay,
            sme_collateral_pledge: self.sme_collateral_pledge,
            funding_token: self.funding_token,
            treasury: self.treasury,
            registry_ref: self.registry_ref,
            yield_tier_table: match &self.yield_tier_table {
                Some(tiers) => Some(copy_items(tiers)),
                None => None,
            },
            funding_close_snapshot: self.funding_close_snapshot,
            min_contribution_floor: self.min_contribution_floor,
            max_unique_investors_cap: self.max_unique_investors_cap,
            max_per_investor_cap: self.max_per_investor_cap,
            pending_admin: self.pending_admin,
            pending_admin_expiry: self.pending_admin_expiry,
            unique_funder_count: self.unique_funder_count,
            primary_attestation_hash: self.primary_attestation_hash,
            attestation_append_log: copy_items(&self.attestation_append_log),
            attestation_revoked: self.attestation_revoked.clone(),
            allowlist_active: self.allowlist_active,
            allowlist_index: copy_items(&self.allowlist_index),
            distributed_principal: self.distributed_principal,
            maturity_max_horizon: self.maturity_max_horizon,
            funding_deadline: self.funding_deadline,
            investor_index: copy_items(&self.investor_index),
            settled_at: self.settled_at,
            paused: self.paused,
            investor_contribution: self.investor_contribution.copy(),
            investor_effective_yield: self.investor_effective_yield.copy(),
            investor_claim_not_before: self.investor_claim_not_before.copy(),
            investor_claimed: self.investor_claimed.copy(),
            investor_allowlisted: self.investor_allowlisted.copy(),
            investor_refunded: self.investor_refunded.copy(),
        }
    }
}

/// The storage without any entry.
pub open spec fn empty_storage() -> StorageView {
    StorageView {
        escrow: None,
        version: None,
        legal_hold: None,
        legal_hold_clearable_at: None,
        legal_hold_clear_delay: None,
        sme_collateral_pledge: None,
        funding_token: None,
        treasury: None,
        registry_ref: None,
        yield_tier_table: None,
        funding_close_snapshot: None,
        min_contribution_floor: None,
        max_unique_investors_cap: None,
        max_per_investor_cap: None,
        pending_admin: None,
        pending_admin_expiry: None,
        unique_funder_count: None,
        primary_attestation_hash: None,
        attestation_append_log: Seq::empty(),
        attestation_revoked: Set::empty(),
        allowlist_active: None,
        allowlist_index: Seq::empty(),
        distributed_principal: None,
        maturity_max_horizon: None,
        funding_deadline: None,
        investor_index: Seq::empty(),
        settled_at: None,
        paused: None,
        investor_contribution: Map::empty(),
        investor_effective_yield: Map::empty(),
        investor_claim_not_before: Map::empty(),
        investor_claimed: Map::empty(),
        investor_allowlisted: Map::empty(),
        investor_refunded: Map::empty(),
    }
}

impl ContractEnv {
    /// Refuses the call unless `who` authorized it.
    pub fn require_auth(&self, who: Address) -> (r: Result<(), Refusal>)
        ensures
            r == (if self@.has_auth(who) {
                Ok::<(), Refusal>(())
            } else {
                Err(Refusal::AuthRequired(who))
            }),
    {
        let mut i: usize = 0;
        while i < self.authorized.len()
            invariant
                i <= self.authorized.len(),
                forall|j: int| 0 <= j < i ==> self.authorized@[j] != who,
            decreases self.authorized.len() - i,
        {
            if self.authorized[i] == who {
                return Ok(());
            }
            i += 1;
        }
        Err(Refusal::AuthRequired(who))
    }

    /// Leaves `event` to be published.
    pub fn publish(&mut self, event: Event)
        ensures
            final(self)@ == old(self)@.publish(event),
    {
        self.effects.push(Effect::Publish(event));
    }

    /// Leaves `transfer` to be performed.
    pub fn transfer(&mut self, transfer: TokenTransfer)
        ensures
            final(self)@ == old(self)@.with_effect(Effect::Transfer(transfer)),
    {
        self.effects.push(Effect::Transfer(transfer));
    }
}

} // verus!
