//! What the admin and the SME change beside the money: pause and hold, the admin's own succession,
//! the beneficiary, the registry, the code, and the limits on deposits.
use crate::admin::{
    accept_admin_post, accept_admin_refusal, cancel_pending_post, cancel_pending_refusal,
    handed_over, migrate_refusal, proposal_expiry, propose_admin_post, propose_admin_refusal,
    rebind_registry_post, rotate_post, rotate_refusal, rotated, transfer_admin_post, upgrade_post,
};
use crate::env::{Effect, EnvView, StorageView};
use crate::errors::{EscrowError, Refusal};
use crate::events::{
    AdminProposalCancelled, AdminProposedEvent, AdminTransferredEvent, BeneficiaryRotated,
    ContractUpgraded, DeprecatedTransferAdminUsed, Event, LegalHoldChanged, LegalHoldClearCancelled,
    LegalHoldClearRequested, MaxPerInvestorCapRaised, MaxUniqueInvestorsCapLowered,
    MaxUniqueInvestorsCapRaised, MinContributionFloorLowered, PausedChanged, RegistryRefRebound,
};
use crate::hold::{
    cancel_clear_post, cancel_clear_refusal, clear_after_delay_refusal, clear_request_fault,
    request_clear_post, request_clear_refusal, set_legal_hold_post, set_legal_hold_refusal,
    set_paused_post,
};
use crate::laws::entries::{asks_for, says};
use crate::limits::{
    lower_cap_post, lower_cap_refusal, lower_floor_post, lower_floor_refusal, raise_cap_post,
    raise_cap_refusal, raise_per_investor_post, raise_per_investor_refusal,
};
use crate::types::InvoiceEscrow;
use crate::values::{Address, Digest};
use vstd::prelude::*;

verus! {

// ---------------------------------------------------------------------------------------------
// Pause and hold
// ---------------------------------------------------------------------------------------------

/// Switching the pause writes and announces the switch, and nothing else.
pub proof fn lemma_pause_is_recorded(e: EnvView, active: bool)
    ensures
        ({
            let after = set_paused_post(e, active);
            &&& after.effects == e.effects.push(
                Effect::Publish(
                    Event::PausedChanged(
                        PausedChanged {
                            name: "paused",
                            invoice_id: e.storage.escrow->0.invoice_id,
                            active: if active {
                                1
                            } else {
                                0
                            },
                        },
                    ),
                ),
            )
            &&& after == EnvView {
                effects: after.effects,
                storage: StorageView { paused: Some(active), ..e.storage },
                ..e
            }
        }),
{
}

/// Under a clear delay, a hold that is on is switched off only after a request, and not before the
/// time that the request was given. In every other case the admin may switch it at once.
pub proof fn lemma_hold_switch_is_answered(e: EnvView, active: bool)
    ensures
        ({
            let s = e.storage;
            let r = set_legal_hold_refusal(e, active);
            let asked = e.admin_refusal() is None;
            let delayed = s.legal_hold_clear_delay is Some && s.legal_hold_clear_delay->0 > 0;
            let waits = asked && !active && s.legal_hold == Some(true) && delayed;
            let requested = s.legal_hold_clearable_at is Some;
            let early = e.ledger.timestamp < s.legal_hold_clearable_at->0;
            &&& !asked ==> r == e.admin_refusal()
            &&& waits && !requested ==> says(r, EscrowError::LegalHoldClearRequestMissing)
            &&& waits && requested && early ==> says(r, EscrowError::LegalHoldClearNotReady)
            &&& waits && requested && !early ==> r is None
            &&& asked && !waits ==> r is None
        }),
{
}

/// Clearing after the delay takes a request whose time has come, whatever else holds.
pub proof fn lemma_delayed_clear_is_answered(e: EnvView)
    ensures
        ({
            let s = e.storage;
            let r = clear_after_delay_refusal(e);
            let asked = e.admin_refusal() is None;
            let requested = s.legal_hold_clearable_at is Some;
            let early = e.ledger.timestamp < s.legal_hold_clearable_at->0;
            &&& !asked ==> r == e.admin_refusal()
            &&& asked && !requested ==> says(r, EscrowError::LegalHoldClearRequestMissing)
            &&& asked && requested && early ==> says(r, EscrowError::LegalHoldClearNotReady)
            &&& asked && requested && !early ==> r is None
            &&& clear_request_fault(e) is None <==> requested && !early
        }),
{
}

/// Switching the hold writes and announces the switch and drops a request that was open.
pub proof fn lemma_hold_is_recorded(e: EnvView, active: bool)
    ensures
        ({
            let after = set_legal_hold_post(e, active);
            &&& after.effects == e.effects.push(
                Effect::Publish(
                    Event::LegalHoldChanged(
                        LegalHoldChanged {
                            name: "legalhld",
                            invoice_id: e.storage.escrow->0.invoice_id,
                            active: if active {
                                1
                            } else {
                                0
                            },
                        },
                    ),
                ),
            )
            &&& after == EnvView {
                effects: after.effects,
                storage: StorageView {
                    legal_hold: Some(active),
                    legal_hold_clearable_at: None,
                    ..e.storage
                },
                ..e
            }
        }),
{
}

/// A request for clearing is refused to nobody but a caller who is not the admin, unless its time
/// would lie beyond the last one the clock can show.
pub proof fn lemma_clear_request_is_answered(e: EnvView)
    ensures
        ({
            let s = e.storage;
            let r = request_clear_refusal(e);
            let asked = e.admin_refusal() is None;
            let fits = s.legal_hold_clear_delay matches Some(delay) ==> e.ledger.timestamp + delay
                <= u64::MAX;
            &&& !asked ==> r == e.admin_refusal()
            &&& asked && !fits ==> says(r, EscrowError::LegalHoldClearDelayOverflow)
            &&& asked && fits ==> r is None
        }),
{
}

/// A request for clearing stores and announces the time from which the hold may be cleared: now,
/// later by the configured delay.
pub proof fn lemma_clear_request_is_recorded(e: EnvView)
    requires
        request_clear_refusal(e) is None,
    ensures
        ({
            let after = request_clear_post(e);
            let clearable_at = after.storage.legal_hold_clearable_at->0;
            &&& after.storage.legal_hold_clearable_at is Some
            &&& e.storage.legal_hold_clear_delay matches Some(delay) ==> clearable_at
                == e.ledger.timestamp + delay
            &&& e.storage.legal_hold_clear_delay is None ==> clearable_at == e.ledger.timestamp
            &&& after.effects == e.effects.push(
                Effect::Publish(
                    Event::LegalHoldClearRequested(
                        LegalHoldClearRequested {
                            name: "lh_req",
                            invoice_id: e.storage.escrow->0.invoice_id,
                            clearable_at,
                        },
                    ),
                ),
            )
            &&& after == EnvView {
                effects: after.effects,
                storage: StorageView {
                    legal_hold_clearable_at: after.storage.legal_hold_clearable_at,
                    ..e.storage
                },
                ..e
            }
        }),
{
}

/// A request can be called off by the admin while there is one; that drops and announces it, and
/// leaves the hold as it is.
pub proof fn lemma_clear_request_is_called_off(e: EnvView)
    ensures
        ({
            let r = cancel_clear_refusal(e);
            let asked = e.admin_refusal() is None;
            let requested = e.storage.legal_hold_clearable_at is Some;
            &&& !asked ==> r == e.admin_refusal()
            &&& asked && !requested ==> says(r, EscrowError::LegalHoldClearRequestMissing)
            &&& asked && requested ==> r is None
        }),
        ({
            let after = cancel_clear_post(e);
            &&& after.effects == e.effects.push(
                Effect::Publish(
                    Event::LegalHoldClearCancelled(
                        LegalHoldClearCancelled {
                            name: "lh_cancel",
                            invoice_id: e.storage.escrow->0.invoice_id,
                        },
                    ),
                ),
            )
            &&& after == EnvView {
                effects: after.effects,
                storage: StorageView { legal_hold_clearable_at: None, ..e.storage },
                ..e
            }
        }),
{
}

// ---------------------------------------------------------------------------------------------
// Succession
// ---------------------------------------------------------------------------------------------

/// The admin may propose anybody but themselves.
pub proof fn lemma_proposal_is_answered(e: EnvView, new_admin: Address)
    ensures
        ({
            let r = propose_admin_refusal(e, new_admin);
            let asked = e.admin_refusal() is None;
            let same = new_admin == e.storage.escrow->0.admin;
            &&& !asked ==> r == e.admin_refusal()
            &&& asked && same ==> says(r, EscrowError::NewAdminSameAsCurrent)
            &&& asked && !same ==> r is None
        }),
{
}

/// A proposal expires when the window is over: the one that was given, or else seven days. A window
/// that the clock cannot hold ends with the clock.
pub proof fn lemma_proposal_expires_with_its_window(e: EnvView, window: Option<u64>)
    ensures
        ({
            let expiry = proposal_expiry(e, window);
            let now = e.ledger.timestamp;
            &&& window matches Some(secs) ==> {
                &&& now + secs <= u64::MAX ==> expiry == now + secs
                &&& now + secs > u64::MAX ==> expiry == u64::MAX
            }
            &&& window is None && now + 7 * 24 * 3600 <= u64::MAX ==> expiry == now + 7 * 24 * 3600
            &&& window is None && now + 7 * 24 * 3600 > u64::MAX ==> expiry == u64::MAX
        }),
{
}

/// A proposal stores and announces who is proposed, and stores when that expires. The admin stays
/// who it was.
pub proof fn lemma_proposal_is_recorded(e: EnvView, new_admin: Address, window: Option<u64>)
    ensures
        ({
            let after = propose_admin_post(e, new_admin, window);
            &&& after.effects == e.effects.push(
                Effect::Publish(
                    Event::AdminProposedEvent(
                        AdminProposedEvent {
                            name: "adm_prop",
                            invoice_id: e.storage.escrow->0.invoice_id,
                            current_admin: e.storage.escrow->0.admin,
                            pending_admin: new_admin,
                        },
                    ),
                ),
            )
            &&& after == EnvView {
                effects: after.effects,
                storage: StorageView {
                    pending_admin: Some(new_admin),
                    pending_admin_expiry: Some(proposal_expiry(e, window)),
                    ..e.storage
                },
                ..e
            }
        }),
{
}

/// The deprecated transfer is a proposal for seven days, announced a second time as deprecated.
pub proof fn lemma_deprecated_transfer_is_a_proposal(e: EnvView, new_admin: Address)
    ensures
        ({
            let after = transfer_admin_post(e, new_admin);
            let proposed = propose_admin_post(e, new_admin, None);
            &&& after.effects == proposed.effects.push(
                Effect::Publish(
                    Event::DeprecatedTransferAdminUsed(
                        DeprecatedTransferAdminUsed {
                            name: "depr_xfer",
                            invoice_id: e.storage.escrow->0.invoice_id,
                            proposed_address: new_admin,
                        },
                    ),
                ),
            )
            &&& after == EnvView { effects: after.effects, ..proposed }
        }),
{
}

/// What stands in the way of accepting, in the order in which it is named: only the proposed one may
/// accept, up to and at the time of expiry.
pub proof fn lemma_acceptance_is_answered(e: EnvView)
    ensures
        ({
            let s = e.storage;
            let r = accept_admin_refusal(e);
            let proposed = s.pending_admin is Some;
            let over = s.pending_admin_expiry matches Some(expiry) && e.ledger.timestamp > expiry;
            let asked = e.authorized.contains(s.pending_admin->0);
            &&& !proposed ==> says(r, EscrowError::NoPendingAdmin)
            &&& proposed && over ==> says(r, EscrowError::AdminProposalExpired)
            &&& proposed && !over && !asked ==> asks_for(r, s.pending_admin->0)
            &&& proposed && !over && asked && s.escrow is None ==> says(
                r,
                EscrowError::EscrowNotInitialized,
            )
            &&& proposed && !over && asked && s.escrow is Some ==> r is None
        }),
{
}

/// Accepting makes the proposed one the admin, closes the proposal and announces the new admin.
/// Nothing else of the escrow changes.
pub proof fn lemma_acceptance_hands_over(e: EnvView)
    requires
        accept_admin_refusal(e) is None,
    ensures
        ({
            let after = accept_admin_post(e);
            let successor = e.storage.pending_admin->0;
            let escrow = InvoiceEscrow { admin: successor, ..e.storage.escrow->0 };
            &&& handed_over(e.storage) == escrow
            &&& after.effects == e.effects.push(
                Effect::Publish(
                    Event::AdminTransferredEvent(
                        AdminTransferredEvent {
                            name: "admin",
                            invoice_id: e.storage.escrow->0.invoice_id,
                            new_admin: successor,
                        },
                    ),
                ),
            )
            &&& after == EnvView {
                effects: after.effects,
                storage: StorageView {
                    escrow: Some(escrow),
                    pending_admin: None,
                    pending_admin_expiry: None,
                    ..e.storage
                },
                ..e
            }
        }),
{
}

/// A proposal can be called off by the admin while there is one; that closes it and announces who
/// was proposed.
pub proof fn lemma_proposal_is_called_off(e: EnvView)
    ensures
        ({
            let r = cancel_pending_refusal(e);
            let asked = e.admin_refusal() is None;
            let proposed = e.storage.pending_admin is Some;
            &&& !asked ==> r == e.admin_refusal()
            &&& asked && !proposed ==> says(r, EscrowError::NoPendingAdmin)
            &&& asked && proposed ==> r is None
        }),
        ({
            let after = cancel_pending_post(e);
            &&& after.effects == e.effects.push(
                Effect::Publish(
                    Event::AdminProposalCancelled(
                        AdminProposalCancelled {
                            name: "adm_can",
                            invoice_id: e.storage.escrow->0.invoice_id,
                            cancelled_pending: e.storage.pending_admin->0,
                        },
                    ),
                ),
            )
            &&& after == EnvView {
                effects: after.effects,
                storage: StorageView {
                    pending_admin: None,
                    pending_admin_expiry: None,
                    ..e.storage
                },
                ..e
            }
        }),
{
}

// ---------------------------------------------------------------------------------------------
// Beneficiary, registry, code
// ---------------------------------------------------------------------------------------------

/// What stands in the way of another beneficiary, in the order in which it is named: the escrow has
/// to be open or funded and not on hold, and both the SME and the admin have to authorize it.
pub proof fn lemma_rotation_is_answered(e: EnvView, new_sme: Address)
    ensures
        ({
            let s = e.storage;
            let r = rotate_refusal(e, new_sme);
            let escrow = s.escrow->0;
            let held = s.legal_hold == Some(true);
            let running = !held && s.escrow is Some && (escrow.status == 0 || escrow.status == 1);
            let other = running && new_sme != escrow.sme_address;
            let by_sme = e.authorized.contains(escrow.sme_address);
            let by_admin = e.authorized.contains(escrow.admin);
            &&& held ==> says(r, EscrowError::LegalHoldBlocksBeneficiaryRotation)
            &&& !held && s.escrow is None ==> says(r, EscrowError::EscrowNotInitialized)
            &&& !held && s.escrow is Some && !running ==> says(r, EscrowError::RotationNotOpen)
            &&& running && !other ==> says(r, EscrowError::NewSmeSameAsCurrent)
            &&& other && !by_sme ==> asks_for(r, escrow.sme_address)
            &&& other && by_sme && !by_admin ==> asks_for(r, escrow.admin)
            &&& other && by_sme && by_admin ==> r is None
        }),
{
}

/// Another beneficiary takes the SME's place in the escrow and is announced with the one before.
/// Nothing else changes.
pub proof fn lemma_rotation_is_recorded(e: EnvView, new_sme: Address)
    requires
        rotate_refusal(e, new_sme) is None,
    ensures
        ({
            let after = rotate_post(e, new_sme);
            let escrow = InvoiceEscrow { sme_address: new_sme, ..e.storage.escrow->0 };
            &&& rotated(e.storage, new_sme) == escrow
            &&& after.effects == e.effects.push(
                Effect::Publish(
                    Event::BeneficiaryRotated(
                        BeneficiaryRotated {
                            name: "ben_rot",
                            invoice_id: e.storage.escrow->0.invoice_id,
                            prior_sme: e.storage.escrow->0.sme_address,
                            new_sme,
                        },
                    ),
                ),
            )
            &&& after == EnvView {
                effects: after.effects,
                storage: StorageView { escrow: Some(escrow), ..e.storage },
                ..e
            }
        }),
{
}

/// Rebinding the registry stores and announces the one that was given, or that there is none.
pub proof fn lemma_registry_is_rebound(e: EnvView, registry: Option<Address>)
    ensures
        ({
            let after = rebind_registry_post(e, registry);
            &&& after.effects == e.effects.push(
                Effect::Publish(
                    Event::RegistryRefRebound(
                        RegistryRefRebound {
                            name: "reg_rebind",
                            invoice_id: e.storage.escrow->0.invoice_id,
                            registry,
                        },
                    ),
                ),
            )
            &&& after == EnvView {
                effects: after.effects,
                storage: StorageView { registry_ref: registry, ..e.storage },
                ..e
            }
        }),
{
}

/// Migrating is always refused: to a caller who is not the admin as such, from a version that is not
/// the stored one as a mismatch, from the current version or a later one as already done, and from
/// an earlier one for want of a path.
pub proof fn lemma_migration_is_refused(e: EnvView, from_version: u32)
    ensures
        ({
            let r = migrate_refusal(e, from_version);
            let asked = e.admin_refusal() is None;
            let stored = from_version == (match e.storage.version {
                Some(version) => version,
                None => 0,
            });
            &&& !asked ==> Some(r) == e.admin_refusal()
            &&& asked && !stored ==> r == Refusal::Error(EscrowError::MigrationVersionMismatch)
            &&& asked && stored && from_version >= 6 ==> r == Refusal::Error(
                EscrowError::AlreadyCurrentSchemaVersion,
            )
            &&& asked && stored && from_version < 6 ==> r == Refusal::Error(
                EscrowError::NoMigrationPath,
            )
        }),
{
}

/// An upgrade is announced first and then replaces the code by the one that was named. What is
/// stored stays.
pub proof fn lemma_upgrade_is_announced(e: EnvView, code: Digest)
    ensures
        ({
            let after = upgrade_post(e, code);
            &&& after.effects == e.effects.push(
                Effect::Publish(
                    Event::ContractUpgraded(
                        ContractUpgraded {
                            name: "upgrade",
                            invoice_id: e.storage.escrow->0.invoice_id,
                            new_wasm_hash: code,
                        },
                    ),
                ),
            ).push(Effect::UpdateWasm(code))
            &&& after == EnvView { effects: after.effects, ..e }
        }),
{
}

// ---------------------------------------------------------------------------------------------
// Limits on deposits
// ---------------------------------------------------------------------------------------------

/// The cap on distinct investors is lowered only while the escrow is open, only where there is one,
/// only downwards, and not below the investors there are.
pub proof fn lemma_lower_cap_is_answered(e: EnvView, new_cap: u32)
    ensures
        ({
            let s = e.storage;
            let r = lower_cap_refusal(e, new_cap);
            let asked = e.admin_refusal() is None;
            let open = asked && s.escrow->0.status == 0;
            let capped = open && s.max_unique_investors_cap is Some;
            let lower = capped && new_cap < s.max_unique_investors_cap->0;
            let fits = s.unique_funder_count matches Some(count) ==> new_cap >= count;
            &&& !asked ==> r == e.admin_refusal()
            &&& asked && !open ==> says(r, EscrowError::CapLowerNotOpen)
            &&& open && !capped ==> says(r, EscrowError::NoInvestorCapConfigured)
            &&& capped && !lower ==> says(r, EscrowError::NewCapNotLower)
            &&& lower && !fits ==> says(r, EscrowError::NewCapBelowCurrentFunderCount)
            &&& lower && fits ==> r is None
        }),
{
}

/// The cap on distinct investors is raised only while the escrow is open, only where there is one,
/// and only upwards.
pub proof fn lemma_raise_cap_is_answered(e: EnvView, new_cap: u32)
    ensures
        ({
            let s = e.storage;
            let r = raise_cap_refusal(e, new_cap);
            let asked = e.admin_refusal() is None;
            let open = asked && s.escrow->0.status == 0;
            let capped = open && s.max_unique_investors_cap is Some;
            let higher = capped && new_cap > s.max_unique_investors_cap->0;
            &&& !asked ==> r == e.admin_refusal()
            &&& asked && !open ==> says(r, EscrowError::EscrowNotOpenForFunding)
            &&& open && !capped ==> says(r, EscrowError::NoInvestorCapConfigured)
            &&& capped && !higher ==> says(r, EscrowError::NewCapNotHigher)
            &&& higher ==> r is None
        }),
{
}

/// Either way the new cap is stored and announced with the old one, and nothing else changes.
pub proof fn lemma_cap_is_recorded(e: EnvView, new_cap: u32)
    ensures
        ({
            let lowered = lower_cap_post(e, new_cap);
            let raised = raise_cap_post(e, new_cap);
            let stored = StorageView { max_unique_investors_cap: Some(new_cap), ..e.storage };
            &&& lowered == EnvView { effects: lowered.effects, storage: stored, ..e }
            &&& raised == EnvView { effects: raised.effects, storage: stored, ..e }
            &&& lowered.effects == e.effects.push(
                Effect::Publish(
                    Event::MaxUniqueInvestorsCapLowered(
                        MaxUniqueInvestorsCapLowered {
                            name: "inv_cap",
                            invoice_id: e.storage.escrow->0.invoice_id,
                            old_cap: e.storage.max_unique_investors_cap->0,
                            new_cap,
                        },
                    ),
                ),
            )
            &&& raised.effects == e.effects.push(
                Effect::Publish(
                    Event::MaxUniqueInvestorsCapRaised(
                        MaxUniqueInvestorsCapRaised {
                            name: "raise_cap",
                            invoice_id: e.storage.escrow->0.invoice_id,
                            old_cap: e.storage.max_unique_investors_cap->0,
                            new_cap,
                        },
                    ),
                ),
            )
        }),
{
}

/// The floor is lowered only while the escrow is open, only downwards, and stays positive.
pub proof fn lemma_floor_is_answered(e: EnvView, new_floor: i128)
    ensures
        ({
            let s = e.storage;
            let r = lower_floor_refusal(e, new_floor);
            let asked = e.admin_refusal() is None;
            let open = asked && s.escrow->0.status == 0;
            let positive = open && new_floor > 0;
            let lower = s.min_contribution_floor is Some && new_floor
                < s.min_contribution_floor->0;
            &&& !asked ==> r == e.admin_refusal()
            &&& asked && !open ==> says(r, EscrowError::FloorLowerNotOpen)
            &&& open && !positive ==> says(r, EscrowError::NewFloorNotPositive)
            &&& positive && !lower ==> says(r, EscrowError::NewFloorNotLower)
            &&& positive && lower ==> r is None
        }),
{
}

/// A new floor is stored and announced with the old one, and nothing else changes.
pub proof fn lemma_floor_is_recorded(e: EnvView, new_floor: i128)
    requires
        lower_floor_refusal(e, new_floor) is None,
    ensures
        ({
            let after = lower_floor_post(e, new_floor);
            &&& after.effects == e.effects.push(
                Effect::Publish(
                    Event::MinContributionFloorLowered(
                        MinContributionFloorLowered {
                            name: "floor_lo",
                            invoice_id: e.storage.escrow->0.invoice_id,
                            old_floor: e.storage.min_contribution_floor->0,
                            new_floor,
                        },
                    ),
                ),
            )
            &&& after == EnvView {
                effects: after.effects,
                storage: StorageView { min_contribution_floor: Some(new_floor), ..e.storage },
                ..e
            }
        }),
{
}

/// The cap on one investor is raised only while the escrow is open, only where there is one, and
/// only upwards.
pub proof fn lemma_investor_cap_is_answered(e: EnvView, new_cap: i128)
    ensures
        ({
            let s = e.storage;
            let r = raise_per_investor_refusal(e, new_cap);
            let asked = e.admin_refusal() is None;
            let open = asked && s.escrow->0.status == 0;
            let capped = open && s.max_per_investor_cap is Some;
            let higher = capped && new_cap > s.max_per_investor_cap->0;
            &&& !asked ==> r == e.admin_refusal()
            &&& asked && !open ==> says(r, EscrowError::CapLowerNotOpen)
            &&& open && !capped ==> says(r, EscrowError::MaxPerInvestorCapNotConfigured)
            &&& capped && !higher ==> says(r, EscrowError::MaxPerInvestorCapNotRaised)
            &&& higher ==> r is None
        }),
{
}

/// A new cap on one investor is stored and announced with the old one, and nothing else changes.
pub proof fn lemma_investor_cap_is_recorded(e: EnvView, new_cap: i128)
    ensures
        ({
            let after = raise_per_investor_post(e, new_cap);
            &&& after.effects == e.effects.push(
                Effect::Publish(
                    Event::MaxPerInvestorCapRaised(
                        MaxPerInvestorCapRaised {
                            name: "inv_cap",
                            invoice_id: e.storage.escrow->0.invoice_id,
                            old_cap: e.storage.max_per_investor_cap->0,
                            new_cap,
                        },
                    ),
                ),
            )
            &&& after == EnvView {
                effects: after.effects,
                storage: StorageView { max_per_investor_cap: Some(new_cap), ..e.storage },
                ..e
            }
        }),
{
}

} // verus!
