//! From setting an escrow up to closing, settling or cancelling it: when each step is taken, and what
//! it leaves behind.
use crate::env::{Effect, EnvView, StorageView};
use crate::errors::EscrowError;
use crate::events::{
    EscrowInitialized, EscrowPartialSettle, EscrowSettled, Event, FundingCancelled,
    FundingTargetUpdated, MaturityMaxHorizonRaised, MaturityMaxHorizonUpdated, MaturityUpdatedEvent,
};
use crate::guards::maturity_fault;
use crate::init::{init_post, init_refusal, or_keep, InitTerms};
use crate::invoice_id::{invoice_id_fault, is_id_byte};
use crate::laws::entries::{asks_for, says};
use crate::limits::{
    max_horizon, raise_horizon_post, raise_horizon_refusal, rescheduled, retargeted,
    update_horizon_post, update_maturity_post, update_maturity_refusal, update_target_post,
    update_target_refusal,
};
use crate::settlement::{
    cancel_funding_post, cancel_funding_refusal, maturity_reached, partial_settle_post,
    partial_settle_refusal, settle_post, settle_refusal, settleable, with_status,
};
use crate::tiers::tier_table_fault;
use crate::types::{FundingCloseSnapshot, InvoiceEscrow};
use crate::values::{lemma_symbol_determined_by_text, symbol_of, Address, Sym};
use vstd::prelude::*;

verus! {

// ---------------------------------------------------------------------------------------------
// Setting up
// ---------------------------------------------------------------------------------------------

/// An identifier is accepted exactly where it has one to thirty-two bytes, all of them letters,
/// digits or underscores. Otherwise its length is named first, then its characters.
pub proof fn lemma_identifier_is_accepted(id: Seq<u8>)
    ensures
        ({
            let sized = 1 <= id.len() <= 32;
            let spelled = forall|i: int|
                0 <= i < id.len() ==> {
                    let c = #[trigger] id[i] as char;
                    ||| 'A' <= c <= 'Z'
                    ||| 'a' <= c <= 'z'
                    ||| '0' <= c <= '9'
                    ||| c == '_'
                };
            &&& !sized ==> invoice_id_fault(id) == Some(EscrowError::InvoiceIdInvalidLength)
            &&& sized && !spelled ==> invoice_id_fault(id) == Some(
                EscrowError::InvoiceIdInvalidCharset,
            )
            &&& sized && spelled ==> invoice_id_fault(id) is None
        }),
{
    assert forall|i: int| 0 <= i < id.len() implies (is_id_byte(#[trigger] id[i]) <==> {
        let c = id[i] as char;
        ||| 'A' <= c <= 'Z'
        ||| 'a' <= c <= 'z'
        ||| '0' <= c <= '9'
        ||| c == '_'
    }) by {}
}

/// The symbol of a text that fits holds that text, and no other symbol does.
pub proof fn lemma_symbol_holds_the_text(text: Seq<u8>, symbol: Sym)
    requires
        symbol.len <= 32,
        forall|i: int| symbol.len <= i < 32 ==> symbol.bytes@[i] == 0,
        symbol.bytes@.take(symbol.len as int) == text,
    ensures
        symbol_of(text) == symbol,
{
    assert(symbol.wf() && symbol.text() == text);
    lemma_symbol_determined_by_text(symbol_of(text), symbol);
}

/// Whether a maturity lies where it may: there is none, or it is neither past nor further away than
/// the horizon.
pub open spec fn maturity_stands(now: u64, maturity: u64, horizon: u64) -> bool {
    maturity == 0 || now <= maturity <= now + horizon
}

/// A maturity is accepted exactly where there is none, or where it is neither past nor further away
/// than the horizon.
pub proof fn lemma_maturity_is_accepted(now: u64, maturity: u64, horizon: u64)
    ensures
        maturity_fault(now, maturity, horizon) is None <==> maturity_stands(now, maturity, horizon),
        maturity != 0 && maturity < now ==> maturity_fault(now, maturity, horizon) == Some(
            EscrowError::MaturityInPast,
        ),
        maturity != 0 && maturity > now + horizon ==> maturity_fault(now, maturity, horizon)
            == Some(EscrowError::MaturityExceedsMaxHorizon),
{
}

/// The horizon is the configured one, or else five years.
pub proof fn lemma_horizon_is_the_configured_one(s: StorageView, t: InitTerms)
    ensures
        s.maturity_max_horizon matches Some(horizon) ==> max_horizon(s) == horizon,
        s.maturity_max_horizon is None ==> max_horizon(s) == 157_680_000,
        t.maturity_max_horizon matches Some(horizon) ==> t.horizon() == horizon,
        t.maturity_max_horizon is None ==> t.horizon() == 157_680_000,
{
}

/// An escrow is set up exactly where the admin authorized it, there is none yet, the amount lies
/// between one and the largest invoice, the yield between nothing and the whole, the ladder and the
/// identifier are in order, the maturity stands, and floor and caps, where given, are positive, the
/// floor not above the amount.
pub proof fn lemma_set_up_is_accepted(e: EnvView, t: InitTerms)
    ensures
        init_refusal(e, t) is None <==> {
            &&& e.authorized.contains(t.admin)
            &&& e.storage.escrow is None
            &&& 0 < t.amount
            &&& t.amount * 10_000 <= i128::MAX
            &&& 0 <= t.yield_bps <= 10_000
            &&& tier_table_fault(t.yield_tiers, t.yield_bps) is None
            &&& maturity_stands(e.ledger.timestamp, t.maturity, t.horizon())
            &&& t.min_contribution matches Some(floor) ==> 0 < floor <= t.amount
            &&& t.max_per_investor matches Some(cap) ==> cap > 0
            &&& t.max_unique_investors matches Some(cap) ==> cap > 0
            &&& invoice_id_fault(t.invoice_id) is None
        },
{
}

/// What stands in the way of setting an escrow up, in the order in which it is named.
pub proof fn lemma_set_up_is_answered(e: EnvView, t: InitTerms)
    ensures
        ({
            let r = init_refusal(e, t);
            let asked = e.authorized.contains(t.admin);
            let sized = asked && t.amount > 0 && t.amount * 10_000 <= i128::MAX;
            let priced = sized && 0 <= t.yield_bps <= 10_000;
            let new = priced && e.storage.escrow is None;
            let ladder = tier_table_fault(t.yield_tiers, t.yield_bps);
            let laddered = new && ladder is None;
            let now = e.ledger.timestamp;
            let timed = laddered && maturity_stands(now, t.maturity, t.horizon());
            let floor_positive = t.min_contribution matches Some(floor) ==> floor > 0;
            let floor_within = t.min_contribution matches Some(floor) ==> floor <= t.amount;
            let per_positive = t.max_per_investor matches Some(cap) ==> cap > 0;
            let slots_positive = t.max_unique_investors matches Some(cap) ==> cap > 0;
            let floored = timed && floor_positive && floor_within;
            let capped = floored && per_positive && slots_positive;
            &&& !asked ==> asks_for(r, t.admin)
            &&& asked && t.amount <= 0 ==> says(r, EscrowError::AmountMustBePositive)
            &&& asked && t.amount * 10_000 > i128::MAX ==> says(r, EscrowError::AmountExceedsMax)
            &&& sized && !(0 <= t.yield_bps <= 10_000) ==> says(r, EscrowError::YieldBpsOutOfRange)
            &&& priced && e.storage.escrow is Some ==> says(
                r,
                EscrowError::EscrowAlreadyInitialized,
            )
            &&& new && ladder is Some ==> says(r, ladder->0)
            &&& laddered && !timed && t.maturity < now ==> says(r, EscrowError::MaturityInPast)
            &&& laddered && !timed && t.maturity >= now ==> says(
                r,
                EscrowError::MaturityExceedsMaxHorizon,
            )
            &&& timed && !floor_positive ==> says(r, EscrowError::MinContributionNotPositive)
            &&& timed && floor_positive && !floor_within ==> says(
                r,
                EscrowError::MinContributionExceedsAmount,
            )
            &&& floored && !per_positive ==> says(r, EscrowError::MaxPerInvestorNotPositive)
            &&& floored && per_positive && !slots_positive ==> says(
                r,
                EscrowError::MaxUniqueInvestorsNotPositive,
            )
            &&& capped && invoice_id_fault(t.invoice_id) is Some ==> says(
                r,
                invoice_id_fault(t.invoice_id)->0,
            )
            &&& capped && invoice_id_fault(t.invoice_id) is None ==> r is None
        }),
{
}

/// A new escrow is open, nothing is deposited in it, its target is the invoice amount, and its terms
/// are the ones that were given.
pub proof fn lemma_new_escrow_has_the_terms(t: InitTerms)
    ensures
        ({
            let escrow = t.escrow();
            &&& escrow.status == 0
            &&& escrow.funded_amount == 0
            &&& escrow.funding_target == t.amount
            &&& escrow.amount == t.amount
            &&& escrow.admin == t.admin
            &&& escrow.sme_address == t.sme_address
            &&& escrow.yield_bps == t.yield_bps
            &&& escrow.maturity == t.maturity
            &&& escrow.invoice_id == symbol_of(t.invoice_id)
        }),
{
}

/// Setting up stores the escrow and the terms that were given: token, treasury, horizon, floor, and,
/// where given, registry, tiers, caps, allowlist switch and a clear delay that is not zero. Nobody
/// is counted yet, and nothing moves.
pub proof fn lemma_set_up_stores_the_terms(e: EnvView, t: InitTerms)
    requires
        init_refusal(e, t) is None,
    ensures
        ({
            let after = init_post(e, t);
            let s = after.storage;
            let old_s = e.storage;
            &&& s.escrow == Some(t.escrow())
            &&& s.version == Some(6u32)
            &&& s.funding_token == Some(t.funding_token)
            &&& s.treasury == Some(t.treasury)
            &&& s.maturity_max_horizon == Some(t.horizon())
            &&& s.floor() == (if t.min_contribution is Some {
                t.min_contribution->0
            } else {
                0
            })
            &&& s.min_contribution_floor is Some
            &&& s.unique_funder_count == Some(0u32)
            &&& t.registry is Some ==> s.registry_ref == t.registry
            &&& t.registry is None ==> s.registry_ref == old_s.registry_ref
            &&& t.yield_tiers is Some ==> s.yield_tier_table == t.yield_tiers
            &&& t.yield_tiers is None ==> s.yield_tier_table == old_s.yield_tier_table
            &&& t.max_per_investor is Some ==> s.max_per_investor_cap == t.max_per_investor
            &&& t.max_per_investor is None ==> s.max_per_investor_cap == old_s.max_per_investor_cap
            &&& t.max_unique_investors is Some ==> s.max_unique_investors_cap
                == t.max_unique_investors
            &&& t.max_unique_investors is None ==> s.max_unique_investors_cap
                == old_s.max_unique_investors_cap
            &&& t.legal_hold_clear_delay matches Some(delay) ==> {
                &&& delay > 0 ==> s.legal_hold_clear_delay == Some(delay)
                &&& delay == 0 ==> s.legal_hold_clear_delay == old_s.legal_hold_clear_delay
            }
            &&& t.legal_hold_clear_delay is None ==> s.legal_hold_clear_delay
                == old_s.legal_hold_clear_delay
            &&& t.allowlist_active is Some ==> s.allowlist_active == t.allowlist_active
            &&& t.allowlist_active is None ==> s.allowlist_active == old_s.allowlist_active
            &&& after.effects == e.effects.push(
                Effect::Publish(
                    Event::EscrowInitialized(
                        EscrowInitialized {
                            name: "escrow_ii",
                            escrow: t.escrow(),
                            funding_token: t.funding_token,
                            treasury: t.treasury,
                            registry: t.registry,
                            has_maturity_lock: t.maturity > 0,
                        },
                    ),
                ),
            )
            &&& after == EnvView {
                effects: after.effects,
                storage: StorageView {
                    escrow: s.escrow,
                    version: s.version,
                    maturity_max_horizon: s.maturity_max_horizon,
                    funding_token: s.funding_token,
                    treasury: s.treasury,
                    registry_ref: s.registry_ref,
                    yield_tier_table: s.yield_tier_table,
                    min_contribution_floor: s.min_contribution_floor,
                    unique_funder_count: s.unique_funder_count,
                    max_per_investor_cap: s.max_per_investor_cap,
                    max_unique_investors_cap: s.max_unique_investors_cap,
                    legal_hold_clear_delay: s.legal_hold_clear_delay,
                    allowlist_active: s.allowlist_active,
                    ..old_s
                },
                ..e
            }
        }),
{
}

/// What is given replaces what was there; what is not given leaves it.
pub proof fn lemma_given_replaces<T>(new: Option<T>, old: Option<T>)
    ensures
        new is Some ==> or_keep(new, old) == new,
        new is None ==> or_keep(new, old) == old,
{
}

// ---------------------------------------------------------------------------------------------
// Closing early
// ---------------------------------------------------------------------------------------------

/// Another status changes nothing else of an escrow.
pub proof fn lemma_status_alone_changes(escrow: InvoiceEscrow, status: u32)
    ensures
        ({
            let other = with_status(escrow, status);
            &&& other.status == status
            &&& other.invoice_id == escrow.invoice_id && other.admin == escrow.admin
            &&& other.sme_address == escrow.sme_address && other.amount == escrow.amount
            &&& other.funding_target == escrow.funding_target
            &&& other.funded_amount == escrow.funded_amount
            &&& other.yield_bps == escrow.yield_bps && other.maturity == escrow.maturity
        }),
{
}

/// What stands in the way of closing early, in the order in which it is named: only the SME and the
/// admin may, and only while the escrow is open and not on hold.
pub proof fn lemma_early_close_is_answered(e: EnvView, caller: Address)
    ensures
        ({
            let s = e.storage;
            let r = partial_settle_refusal(e, caller);
            let asked = e.authorized.contains(caller);
            let held = s.legal_hold == Some(true);
            let running = asked && !held && s.escrow is Some;
            let entitled = running && (caller == s.escrow->0.sme_address || caller
                == s.escrow->0.admin);
            &&& !asked ==> asks_for(r, caller)
            &&& asked && held ==> says(r, EscrowError::LegalHoldBlocksPartialSettle)
            &&& asked && !held && s.escrow is None ==> says(r, EscrowError::EscrowNotInitialized)
            &&& running && !entitled ==> says(r, EscrowError::PartialSettleUnauthorizedCaller)
            &&& entitled && s.escrow->0.status != 0 ==> says(r, EscrowError::PartialSettleNotOpen)
            &&& entitled && s.escrow->0.status == 0 ==> r is None
        }),
{
}

/// Closing early makes the escrow funded with what it holds, and takes the close snapshot of that
/// unless there is one. Nothing moves.
pub proof fn lemma_early_close_keeps_what_is_held(e: EnvView, caller: Address)
    requires
        partial_settle_refusal(e, caller) is None,
    ensures
        ({
            let after = partial_settle_post(e);
            let s = after.storage;
            let escrow = e.storage.escrow->0;
            &&& s.escrow == Some(InvoiceEscrow { status: 1, ..escrow })
            &&& e.storage.funding_close_snapshot is None ==> s.funding_close_snapshot == Some(
                FundingCloseSnapshot {
                    total_principal: escrow.funded_amount,
                    funding_target: escrow.funding_target,
                    closed_at_ledger_timestamp: e.ledger.timestamp,
                    closed_at_ledger_sequence: e.ledger.sequence,
                },
            )
            &&& e.storage.funding_close_snapshot is Some ==> s.funding_close_snapshot
                == e.storage.funding_close_snapshot
            &&& after.effects == e.effects.push(
                Effect::Publish(
                    Event::EscrowPartialSettle(
                        EscrowPartialSettle {
                            name: "part_set",
                            invoice_id: escrow.invoice_id,
                            funded_amount: escrow.funded_amount,
                        },
                    ),
                ),
            )
            &&& after == EnvView {
                effects: after.effects,
                storage: StorageView {
                    escrow: s.escrow,
                    funding_close_snapshot: s.funding_close_snapshot,
                    ..e.storage
                },
                ..e
            }
        }),
{
}

// ---------------------------------------------------------------------------------------------
// Settling
// ---------------------------------------------------------------------------------------------

/// No settlement is carried out before maturity, however the funding was closed; from maturity on,
/// and where there is none, maturity stands in no settlement's way.
pub proof fn lemma_no_settlement_before_maturity(e: EnvView)
    ensures
        settle_refusal(e) is None ==> e.storage.escrow->0.maturity == 0 || e.ledger.timestamp
            >= e.storage.escrow->0.maturity,
        settleable(e) ==> e.storage.escrow->0.maturity == 0 || e.ledger.timestamp
            >= e.storage.escrow->0.maturity,
        e.storage.escrow->0.maturity == 0 || e.ledger.timestamp >= e.storage.escrow->0.maturity
            ==> !says(settle_refusal(e), EscrowError::MaturityNotReached),
{
}

/// Maturity is reached where there is none, or where the clock has come to it.
pub proof fn lemma_maturity_is_reached(e: EnvView, escrow: InvoiceEscrow)
    ensures
        escrow.maturity == 0 ==> maturity_reached(e, escrow),
        escrow.maturity > 0 ==> (maturity_reached(e, escrow) <==> e.ledger.timestamp
            >= escrow.maturity),
{
}

/// What stands in the way of settling, in the order in which it is named.
pub proof fn lemma_settlement_is_answered(e: EnvView)
    ensures
        ({
            let s = e.storage;
            let r = settle_refusal(e);
            let stopped = s.paused == Some(true) || s.legal_hold == Some(true);
            let asked = !stopped && e.sme_refusal() is None;
            let funded = asked && s.escrow->0.status == 1;
            let early = e.ledger.timestamp < s.escrow->0.maturity;
            &&& s.paused == Some(true) ==> says(r, EscrowError::PausedBlocksSettlement)
            &&& s.paused != Some(true) && s.legal_hold == Some(true) ==> says(
                r,
                EscrowError::LegalHoldBlocksSettlement,
            )
            &&& !stopped && e.sme_refusal() is Some ==> r == e.sme_refusal()
            &&& asked && s.escrow->0.status != 1 ==> says(r, EscrowError::SettlementNotFunded)
            &&& funded && early ==> says(r, EscrowError::MaturityNotReached)
            &&& funded && !early ==> r is None
        }),
{
}

/// An escrow is settleable exactly where it is funded, neither paused nor on hold, and the clock has
/// come to its maturity.
pub proof fn lemma_settleable_means_ready(e: EnvView)
    ensures
        settleable(e) <==> {
            &&& e.storage.escrow is Some
            &&& e.storage.escrow->0.status == 1
            &&& e.storage.paused != Some(true)
            &&& e.storage.legal_hold != Some(true)
            &&& e.ledger.timestamp >= e.storage.escrow->0.maturity
        },
{
}

/// Settling changes the status, and writes and announces the time. Nothing moves, and nothing else
/// that is stored changes.
pub proof fn lemma_settlement_is_recorded(e: EnvView)
    requires
        settle_refusal(e) is None,
    ensures
        ({
            let after = settle_post(e);
            let s = after.storage;
            let escrow = e.storage.escrow->0;
            &&& s.escrow == Some(InvoiceEscrow { status: 2, ..escrow })
            &&& s.settled_at == Some(e.ledger.timestamp)
            &&& after.effects == e.effects.push(
                Effect::Publish(
                    Event::EscrowSettled(
                        EscrowSettled {
                            name: "escrow_sd",
                            invoice_id: escrow.invoice_id,
                            funded_amount: escrow.funded_amount,
                            yield_bps: escrow.yield_bps,
                            maturity: escrow.maturity,
                            settled_at_ledger_timestamp: e.ledger.timestamp,
                        },
                    ),
                ),
            )
            &&& after == EnvView {
                effects: after.effects,
                storage: StorageView {
                    escrow: s.escrow,
                    settled_at: s.settled_at,
                    ..e.storage
                },
                ..e
            }
        }),
{
}

// ---------------------------------------------------------------------------------------------
// Cancelling
// ---------------------------------------------------------------------------------------------

/// What stands in the way of cancelling, in the order in which it is named.
pub proof fn lemma_cancelling_is_answered(e: EnvView)
    ensures
        ({
            let s = e.storage;
            let r = cancel_funding_refusal(e);
            let held = s.legal_hold == Some(true);
            let asked = !held && e.admin_refusal() is None;
            &&& held ==> says(r, EscrowError::LegalHoldBlocksCancelFunding)
            &&& !held && e.admin_refusal() is Some ==> r == e.admin_refusal()
            &&& asked && s.escrow->0.status != 0 ==> says(r, EscrowError::CancelFundingNotOpen)
            &&& asked && s.escrow->0.status == 0 ==> r is None
        }),
{
}

/// Cancelling changes the status and announces what is held. Nothing moves, and nothing else that is
/// stored changes.
pub proof fn lemma_cancelling_is_recorded(e: EnvView)
    requires
        cancel_funding_refusal(e) is None,
    ensures
        ({
            let after = cancel_funding_post(e);
            let escrow = e.storage.escrow->0;
            &&& after.storage.escrow == Some(InvoiceEscrow { status: 4, ..escrow })
            &&& after.effects == e.effects.push(
                Effect::Publish(
                    Event::FundingCancelled(
                        FundingCancelled {
                            name: "fund_can",
                            invoice_id: escrow.invoice_id,
                            funded_amount: escrow.funded_amount,
                        },
                    ),
                ),
            )
            &&& after == EnvView {
                effects: after.effects,
                storage: StorageView { escrow: after.storage.escrow, ..e.storage },
                ..e
            }
        }),
{
}

// ---------------------------------------------------------------------------------------------
// Target, maturity, horizon
// ---------------------------------------------------------------------------------------------

/// What stands in the way of another target, in the order in which it is named: it has to be
/// positive and not below what is held, and the escrow open.
pub proof fn lemma_target_is_answered(e: EnvView, new_target: i128)
    ensures
        ({
            let r = update_target_refusal(e, new_target);
            let escrow = e.storage.escrow->0;
            let asked = e.admin_refusal() is None;
            let open = asked && new_target > 0 && escrow.status == 0;
            &&& !asked ==> r == e.admin_refusal()
            &&& asked && new_target <= 0 ==> says(r, EscrowError::TargetNotPositive)
            &&& asked && new_target > 0 && escrow.status != 0 ==> says(
                r,
                EscrowError::TargetUpdateNotOpen,
            )
            &&& open && new_target < escrow.funded_amount ==> says(
                r,
                EscrowError::TargetBelowFundedAmount,
            )
            &&& open && new_target >= escrow.funded_amount ==> r is None
        }),
{
}

/// A new target is stored and announced with the old one. It closes the funding exactly where it is
/// what is held already, something is held, and no snapshot was taken: then the snapshot is taken
/// of that.
pub proof fn lemma_target_is_recorded(e: EnvView, new_target: i128)
    requires
        update_target_refusal(e, new_target) is None,
    ensures
        ({
            let after = update_target_post(e, new_target);
            let s = after.storage;
            let escrow = e.storage.escrow->0;
            let closes = escrow.funded_amount > 0 && escrow.funded_amount == new_target
                && e.storage.funding_close_snapshot is None;
            &&& s.escrow == Some(retargeted(e.storage, new_target))
            &&& s.escrow == Some(
                InvoiceEscrow {
                    funding_target: new_target,
                    status: if closes {
                        1
                    } else {
                        0
                    },
                    ..escrow
                },
            )
            &&& closes ==> s.funding_close_snapshot == Some(
                FundingCloseSnapshot {
                    total_principal: escrow.funded_amount,
                    funding_target: new_target,
                    closed_at_ledger_timestamp: e.ledger.timestamp,
                    closed_at_ledger_sequence: e.ledger.sequence,
                },
            )
            &&& !closes ==> s.funding_close_snapshot == e.storage.funding_close_snapshot
            &&& after.effects == e.effects.push(
                Effect::Publish(
                    Event::FundingTargetUpdated(
                        FundingTargetUpdated {
                            name: "fund_tgt",
                            invoice_id: escrow.invoice_id,
                            old_target: escrow.funding_target,
                            new_target,
                        },
                    ),
                ),
            )
            &&& after == EnvView {
                effects: after.effects,
                storage: StorageView {
                    escrow: s.escrow,
                    funding_close_snapshot: s.funding_close_snapshot,
                    ..e.storage
                },
                ..e
            }
        }),
{
}

/// What stands in the way of another maturity, in the order in which it is named.
pub proof fn lemma_maturity_is_answered(e: EnvView, new_maturity: u64)
    ensures
        ({
            let r = update_maturity_refusal(e, new_maturity);
            let escrow = e.storage.escrow->0;
            let asked = e.admin_refusal() is None;
            let changed = asked && escrow.status == 0 && new_maturity != escrow.maturity;
            let now = e.ledger.timestamp;
            let stands = maturity_stands(now, new_maturity, max_horizon(e.storage));
            &&& !asked ==> r == e.admin_refusal()
            &&& asked && escrow.status != 0 ==> says(r, EscrowError::MaturityUpdateNotOpen)
            &&& asked && escrow.status == 0 && new_maturity == escrow.maturity ==> says(
                r,
                EscrowError::MaturityUnchanged,
            )
            &&& changed && !stands && new_maturity < now ==> says(r, EscrowError::MaturityInPast)
            &&& changed && !stands && new_maturity >= now ==> says(
                r,
                EscrowError::MaturityExceedsMaxHorizon,
            )
            &&& changed && stands ==> r is None
        }),
{
}

/// A new maturity is stored and announced with the old one; nothing else changes.
pub proof fn lemma_maturity_is_recorded(e: EnvView, new_maturity: u64)
    requires
        update_maturity_refusal(e, new_maturity) is None,
    ensures
        ({
            let after = update_maturity_post(e, new_maturity);
            let escrow = e.storage.escrow->0;
            &&& after.storage.escrow == Some(rescheduled(e.storage, new_maturity))
            &&& after.storage.escrow == Some(InvoiceEscrow { maturity: new_maturity, ..escrow })
            &&& after.effects == e.effects.push(
                Effect::Publish(
                    Event::MaturityUpdatedEvent(
                        MaturityUpdatedEvent {
                            name: "maturity",
                            invoice_id: escrow.invoice_id,
                            old_maturity: escrow.maturity,
                            new_maturity,
                        },
                    ),
                ),
            )
            &&& after == EnvView {
                effects: after.effects,
                storage: StorageView { escrow: after.storage.escrow, ..e.storage },
                ..e
            }
        }),
{
}

/// A horizon is raised only by the admin and only upwards; either way of setting it stores it and
/// announces it with the one that held before, and changes nothing else.
pub proof fn lemma_horizon_is_recorded(e: EnvView, new_horizon: u64)
    ensures
        e.admin_refusal() is Some ==> raise_horizon_refusal(e, new_horizon) == e.admin_refusal(),
        e.admin_refusal() is None && new_horizon <= max_horizon(e.storage) ==> says(
            raise_horizon_refusal(e, new_horizon),
            EscrowError::HorizonNotRaised,
        ),
        e.admin_refusal() is None && new_horizon > max_horizon(e.storage) ==> raise_horizon_refusal(
            e,
            new_horizon,
        ) is None,
        ({
            let raised = raise_horizon_post(e, new_horizon);
            let updated = update_horizon_post(e, new_horizon);
            let stored = StorageView { maturity_max_horizon: Some(new_horizon), ..e.storage };
            &&& raised == EnvView { effects: raised.effects, storage: stored, ..e }
            &&& updated == EnvView { effects: updated.effects, storage: stored, ..e }
            &&& raised.effects == e.effects.push(
                Effect::Publish(
                    Event::MaturityMaxHorizonRaised(
                        MaturityMaxHorizonRaised {
                            name: "mtry_rse",
                            invoice_id: e.storage.escrow->0.invoice_id,
                            old_horizon: max_horizon(e.storage),
                            new_horizon,
                        },
                    ),
                ),
            )
            &&& updated.effects == e.effects.push(
                Effect::Publish(
                    Event::MaturityMaxHorizonUpdated(
                        MaturityMaxHorizonUpdated {
                            name: "mtry_max",
                            invoice_id: e.storage.escrow->0.invoice_id,
                            old_horizon: max_horizon(e.storage),
                            new_horizon,
                        },
                    ),
                ),
            )
        }),
{
}

} // verus!
