//! What the words mean in which the other laws are stated: the reads of the storage, the gates of
//! the admin and the SME, how a call ends, and the fixed numbers.
use crate::env::{empty_storage, lookup, outcome, refused, Effect, EnvView, StorageView};
use crate::errors::{EscrowError, Refusal};
use crate::events::Event;
use crate::funding::counted_outcome;
use crate::guards::{flag, saturated, unless};
use crate::types::{
    InvoiceEscrow, BPS_DENOMINATOR, DEFAULT_ADMIN_PROPOSAL_VALIDITY_SECS,
    DEFAULT_MATURITY_MAX_HORIZON_SECS, INSTANCE_TTL_MIN_EXTENSION_LEDGERS,
    MAX_ATTESTATION_APPEND_ENTRIES, MAX_ATTESTATION_REVOKE_BATCH, MAX_CONTRIBUTIONS_BATCH,
    MAX_DUST_SWEEP_AMOUNT, MAX_FUND_BATCH, MAX_INVESTOR_ALLOWLIST_BATCH, MAX_INVESTOR_PAGE,
    MAX_INVOICE_AMOUNT, MAX_INVOICE_ID_STRING_LEN, MAX_YIELD_BPS,
    PERSISTENT_TTL_MIN_EXTENSION_LEDGERS, SCHEMA_VERSION, STATUS_CANCELLED, STATUS_FUNDED,
    STATUS_OPEN, STATUS_SETTLED, STATUS_WITHDRAWN,
};
use crate::values::Address;
use vstd::prelude::*;

verus! {

/// Whether the answer to a call is a refusal by this rule.
pub open spec fn says(answer: Option<Refusal>, error: EscrowError) -> bool {
    answer == Some(Refusal::Error(error))
}

/// Whether the answer to a call is that `who` has to authorize it first.
pub open spec fn asks_for(answer: Option<Refusal>, who: Address) -> bool {
    answer == Some(Refusal::AuthRequired(who))
}

/// The switches are on exactly where they were written as on; an absent entry is off.
pub proof fn lemma_switches_read(s: StorageView)
    ensures
        s.hold_active() <==> s.legal_hold is Some && s.legal_hold->0,
        s.pause_active() <==> s.paused is Some && s.paused->0,
        s.allowlist_on() <==> s.allowlist_active is Some && s.allowlist_active->0,
{
}

/// What is read of an investor is the investor's own entry. Without an entry, nothing was
/// contributed, claimed or refunded, nothing is locked, and nobody is allowlisted.
pub proof fn lemma_investor_reads(s: StorageView, investor: Address)
    ensures
        s.investor_contribution.contains_key(investor) ==> s.contribution(investor)
            == s.investor_contribution[investor],
        !s.investor_contribution.contains_key(investor) ==> s.contribution(investor) == 0,
        s.investor_claim_not_before.contains_key(investor) ==> s.claim_not_before(investor)
            == s.investor_claim_not_before[investor],
        !s.investor_claim_not_before.contains_key(investor) ==> s.claim_not_before(investor) == 0,
        s.claimed(investor) <==> s.investor_claimed.contains_key(investor)
            && s.investor_claimed[investor],
        s.allowlisted(investor) <==> s.investor_allowlisted.contains_key(investor)
            && s.investor_allowlisted[investor],
        s.refunded(investor) <==> s.investor_refunded.contains_key(investor)
            && s.investor_refunded[investor],
{
}

/// An absent number reads as zero.
pub proof fn lemma_numbers_read(s: StorageView)
    ensures
        s.min_contribution_floor matches Some(floor) ==> s.floor() == floor,
        s.min_contribution_floor is None ==> s.floor() == 0,
        s.unique_funder_count matches Some(count) ==> s.funders() == count,
        s.unique_funder_count is None ==> s.funders() == 0,
        s.distributed_principal matches Some(amount) ==> s.distributed() == amount,
        s.distributed_principal is None ==> s.distributed() == 0,
        s.legal_hold_clear_delay matches Some(delay) ==> s.clear_delay() == delay,
        s.legal_hold_clear_delay is None ==> s.clear_delay() == 0,
        s.version matches Some(version) ==> s.schema() == version,
        s.version is None ==> s.schema() == 0,
{
}

/// A lookup gives the entry, and the default only where there is none.
pub proof fn lemma_lookup_reads<V>(map: Map<Address, V>, key: Address, value: V, default: V)
    ensures
        lookup(map.insert(key, value), key, default) == value,
        !map.contains_key(key) ==> lookup(map, key, default) == default,
        map.contains_key(key) ==> lookup(map, key, default) == map[key],
{
}

/// A new contract stores nothing.
pub proof fn lemma_new_contract_is_empty(investor: Address)
    ensures
        ({
            let s = empty_storage();
            &&& s.escrow is None && s.version is None && s.legal_hold is None && s.paused is None
            &&& s.legal_hold_clearable_at is None && s.legal_hold_clear_delay is None
            &&& s.sme_collateral_pledge is None && s.registry_ref is None
            &&& s.funding_token is None && s.treasury is None && s.yield_tier_table is None
            &&& s.funding_close_snapshot is None && s.min_contribution_floor is None
            &&& s.max_unique_investors_cap is None && s.max_per_investor_cap is None
            &&& s.pending_admin is None && s.pending_admin_expiry is None
            &&& s.unique_funder_count is None && s.primary_attestation_hash is None
            &&& s.attestation_append_log.len() == 0 && s.allowlist_active is None
            &&& s.allowlist_index.len() == 0 && s.distributed_principal is None
            &&& s.maturity_max_horizon is None && s.funding_deadline is None
            &&& s.investor_index.len() == 0 && s.settled_at is None
            &&& s.contribution(investor) == 0 && s.claim_not_before(investor) == 0
            &&& !s.claimed(investor) && !s.refunded(investor) && !s.allowlisted(investor)
            &&& !s.investor_effective_yield.contains_key(investor)
            &&& forall|i: u32| !s.attestation_revoked.contains(i)
        }),
{
}

/// Somebody has authorized a call exactly where the host lists them.
pub proof fn lemma_authorization_is_listed(e: EnvView, who: Address)
    ensures
        e.has_auth(who) <==> e.authorized.contains(who),
{
}

/// A call that needs the admin answers that there is no escrow, or else asks the admin of the
/// escrow, and nobody else, for an authorization that is not there.
pub proof fn lemma_admin_gate(e: EnvView)
    ensures
        e.storage.escrow is None ==> says(e.admin_refusal(), EscrowError::EscrowNotInitialized),
        e.storage.escrow matches Some(escrow) ==> {
            &&& !e.authorized.contains(escrow.admin) ==> asks_for(e.admin_refusal(), escrow.admin)
            &&& e.authorized.contains(escrow.admin) ==> e.admin_refusal() is None
        },
{
}

/// A call that needs the SME answers that there is no escrow, or else asks the SME of the escrow,
/// and nobody else, for an authorization that is not there.
pub proof fn lemma_sme_gate(e: EnvView)
    ensures
        e.storage.escrow is None ==> says(e.sme_refusal(), EscrowError::EscrowNotInitialized),
        e.storage.escrow matches Some(escrow) ==> {
            &&& !e.authorized.contains(escrow.sme_address) ==> asks_for(
                e.sme_refusal(),
                escrow.sme_address,
            )
            &&& e.authorized.contains(escrow.sme_address) ==> e.sme_refusal() is None
        },
{
}

/// A refused call says why and changes nothing; one that is carried out gives its value, and the
/// environment is the one after it.
pub proof fn lemma_how_a_call_ends<T>(
    refusal: Option<Refusal>,
    before: EnvView,
    after: EnvView,
    value: T,
    result: Result<T, Refusal>,
    end: EnvView,
)
    requires
        outcome(refusal, before, after, value, result, end),
    ensures
        result is Err <==> refusal is Some,
        refusal matches Some(why) ==> result == Err::<T, Refusal>(why) && end == before,
        refusal is None ==> result == Ok::<T, Refusal>(value) && end == after,
{
}

/// A deposit that finds the counter full leaves everything as it was and returns no escrow; any
/// other ends as every call does.
pub proof fn lemma_how_a_counted_call_ends(
    counts: bool,
    refusal: Option<Refusal>,
    before: EnvView,
    after: EnvView,
    value: InvoiceEscrow,
    result: Result<Option<InvoiceEscrow>, Refusal>,
    end: EnvView,
)
    requires
        counted_outcome(counts, refusal, before, after, value, result, end),
    ensures
        !counts ==> result == Ok::<Option<InvoiceEscrow>, Refusal>(None) && end == before,
        counts && refusal is Some ==> result == Err::<Option<InvoiceEscrow>, Refusal>(refusal->0)
            && end == before,
        counts && refusal is None ==> result == Ok::<Option<InvoiceEscrow>, Refusal>(Some(value))
            && end == after,
{
}

/// The steps of which an environment after a call is made: another storage, one more effect, one
/// more event, and nothing else.
pub proof fn lemma_steps(e: EnvView, s: StorageView, effect: Effect, event: Event)
    ensures
        ({
            let stored = e.with_storage(s);
            &&& stored.storage == s && stored.effects == e.effects && stored.ledger == e.ledger
            &&& stored.authorized == e.authorized && stored.contract == e.contract
            &&& stored.contract_balance == e.contract_balance
        }),
        ({
            let left = e.with_effect(effect);
            &&& left.effects == e.effects.push(effect) && left.storage == e.storage
            &&& left.ledger == e.ledger && left.authorized == e.authorized
            &&& left.contract == e.contract && left.contract_balance == e.contract_balance
        }),
        e.publish(event) == e.with_effect(Effect::Publish(event)),
{
}

/// The refusal by a rule names that rule.
pub proof fn lemma_refusals_name_the_rule(error: EscrowError)
    ensures
        says(refused(error), error),
        unless(Some(error)) == Err::<(), Refusal>(Refusal::Error(error)),
        unless(None) == Ok::<(), Refusal>(()),
{
}

/// Saturating keeps what fits, and gives the nearest number that fits otherwise.
pub proof fn lemma_saturation(x: int)
    ensures
        i128::MIN <= x <= i128::MAX ==> saturated(x) == x,
        x > i128::MAX ==> saturated(x) == i128::MAX,
        x < i128::MIN ==> saturated(x) == i128::MIN,
{
}

/// A switch is published as one where it is on and as zero where it is off.
pub proof fn lemma_flags(on: bool)
    ensures
        on ==> flag(on) == 1,
        !on ==> flag(on) == 0,
{
}

/// The numbers of the statuses.
pub proof fn lemma_status_numbers()
    ensures
        STATUS_OPEN == 0,
        STATUS_FUNDED == 1,
        STATUS_SETTLED == 2,
        STATUS_WITHDRAWN == 3,
        STATUS_CANCELLED == 4,
{
}

/// The fixed limits.
pub proof fn lemma_fixed_limits()
    ensures
        SCHEMA_VERSION == 6,
        BPS_DENOMINATOR == 10_000,
        MAX_YIELD_BPS == 10_000,
        MAX_INVOICE_AMOUNT * 10_000 <= i128::MAX < (MAX_INVOICE_AMOUNT + 1) * 10_000,
        MAX_INVOICE_ID_STRING_LEN == 32,
        MAX_FUND_BATCH == 50,
        MAX_CONTRIBUTIONS_BATCH == 50,
        MAX_INVESTOR_PAGE == 50,
        MAX_INVESTOR_ALLOWLIST_BATCH == 32,
        MAX_ATTESTATION_APPEND_ENTRIES == 32,
        MAX_ATTESTATION_REVOKE_BATCH == 32,
        MAX_DUST_SWEEP_AMOUNT == 100_000_000,
        DEFAULT_MATURITY_MAX_HORIZON_SECS == 5 * 365 * 24 * 60 * 60,
        DEFAULT_ADMIN_PROPOSAL_VALIDITY_SECS == 7 * 24 * 60 * 60,
        INSTANCE_TTL_MIN_EXTENSION_LEDGERS == 60 * 60,
        PERSISTENT_TTL_MIN_EXTENSION_LEDGERS == 60 * 60,
{
}

} // verus!
