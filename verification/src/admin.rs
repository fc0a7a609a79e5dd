//! Handover of the admin role, change of the beneficiary, the registry hint, and the code itself.
use crate::contract::LiquifactEscrow;
use crate::env::{outcome, refused, ContractEnv, Effect, EnvView, StorageView};
use crate::errors::{EscrowError, Refusal};
use crate::events::{
    AdminProposalCancelled, AdminProposedEvent, AdminTransferredEvent, BeneficiaryRotated,
    ContractUpgraded, DeprecatedTransferAdminUsed, Event, RegistryRefRebound,
};
use crate::guards::ensure;
use crate::types::{
    InvoiceEscrow, DEFAULT_ADMIN_PROPOSAL_VALIDITY_SECS, SCHEMA_VERSION, STATUS_FUNDED, STATUS_OPEN,
};
use crate::values::{Address, Digest};
use vstd::prelude::*;

verus! {

// ---------------------------------------------------------------------------------------------
// Admin handover
// ---------------------------------------------------------------------------------------------

/// Why proposing a successor of the admin is refused.
pub open spec fn propose_admin_refusal(e: EnvView, new_admin: Address) -> Option<Refusal> {
    if e.admin_refusal() is Some {
        e.admin_refusal()
    } else if e.storage.escrow->0.admin == new_admin {
        refused(EscrowError::NewAdminSameAsCurrent)
    } else {
        None
    }
}

/// The last timestamp at which a proposal made now can be accepted.
pub open spec fn proposal_expiry(e: EnvView, validity_window_secs: Option<u64>) -> u64 {
    let expiry = e.ledger.timestamp + validity_window_secs.unwrap_or(
        DEFAULT_ADMIN_PROPOSAL_VALIDITY_SECS,
    );
    if expiry > u64::MAX {
        u64::MAX
    } else {
        expiry as u64
    }
}

/// The environment after a successor is proposed.
pub open spec fn propose_admin_post(
    e: EnvView,
    new_admin: Address,
    validity_window_secs: Option<u64>,
) -> EnvView {
    e.with_storage(
        StorageView {
            pending_admin: Some(new_admin),
            pending_admin_expiry: Some(proposal_expiry(e, validity_window_secs)),
            ..e.storage
        },
    ).publish(
        Event::AdminProposedEvent(
            AdminProposedEvent {
                name: "adm_prop",
                invoice_id: e.storage.escrow->0.invoice_id,
                current_admin: e.storage.escrow->0.admin,
                pending_admin: new_admin,
            },
        ),
    )
}

/// The environment after a successor is proposed through the deprecated entrypoint.
pub open spec fn transfer_admin_post(e: EnvView, new_admin: Address) -> EnvView {
    propose_admin_post(e, new_admin, None).publish(
        Event::DeprecatedTransferAdminUsed(
            DeprecatedTransferAdminUsed {
                name: "depr_xfer",
                invoice_id: e.storage.escrow->0.invoice_id,
                proposed_address: new_admin,
            },
        ),
    )
}

/// Why accepting the handover is refused.
pub open spec fn accept_admin_refusal(e: EnvView) -> Option<Refusal> {
    let s = e.storage;
    if s.pending_admin is None {
        refused(EscrowError::NoPendingAdmin)
    } else if s.pending_admin_expiry is Some && e.ledger.timestamp > s.pending_admin_expiry->0 {
        refused(EscrowError::AdminProposalExpired)
    } else if !e.has_auth(s.pending_admin->0) {
        Some(Refusal::AuthRequired(s.pending_admin->0))
    } else if s.escrow is None {
        refused(EscrowError::EscrowNotInitialized)
    } else {
        None
    }
}

/// The escrow after the handover.
pub open spec fn handed_over(s: StorageView) -> InvoiceEscrow {
    InvoiceEscrow { admin: s.pending_admin->0, ..s.escrow->0 }
}

/// The environment after the handover.
pub open spec fn accept_admin_post(e: EnvView) -> EnvView {
    e.with_storage(
        StorageView {
            escrow: Some(handed_over(e.storage)),
            pending_admin: None,
            pending_admin_expiry: None,
            ..e.storage
        },
    ).publish(
        Event::AdminTransferredEvent(
            AdminTransferredEvent {
                name: "admin",
                invoice_id: e.storage.escrow->0.invoice_id,
                new_admin: e.storage.pending_admin->0,
            },
        ),
    )
}

/// Why calling the handover off is refused.
pub open spec fn cancel_pending_refusal(e: EnvView) -> Option<Refusal> {
    if e.admin_refusal() is Some {
        e.admin_refusal()
    } else if e.storage.pending_admin is None {
        refused(EscrowError::NoPendingAdmin)
    } else {
        None
    }
}

/// The environment after the handover is called off.
pub open spec fn cancel_pending_post(e: EnvView) -> EnvView {
    e.with_storage(
        StorageView { pending_admin: None, pending_admin_expiry: None, ..e.storage },
    ).publish(
        Event::AdminProposalCancelled(
            AdminProposalCancelled {
                name: "adm_can",
                invoice_id: e.storage.escrow->0.invoice_id,
                cancelled_pending: e.storage.pending_admin->0,
            },
        ),
    )
}

// ---------------------------------------------------------------------------------------------
// Beneficiary and registry
// ---------------------------------------------------------------------------------------------

/// Why changing the SME address is refused.
pub open spec fn rotate_refusal(e: EnvView, new_sme: Address) -> Option<Refusal> {
    if e.storage.hold_active() {
        refused(EscrowError::LegalHoldBlocksBeneficiaryRotation)
    } else {
        match e.storage.escrow {
            None => refused(EscrowError::EscrowNotInitialized),
            Some(escrow) => if escrow.status != STATUS_OPEN && escrow.status != STATUS_FUNDED {
                refused(EscrowError::RotationNotOpen)
            } else if new_sme == escrow.sme_address {
                refused(EscrowError::NewSmeSameAsCurrent)
            } else if !e.has_auth(escrow.sme_address) {
                Some(Refusal::AuthRequired(escrow.sme_address))
            } else if !e.has_auth(escrow.admin) {
                Some(Refusal::AuthRequired(escrow.admin))
            } else {
                None
            },
        }
    }
}

/// The escrow with another SME address.
pub open spec fn rotated(s: StorageView, new_sme: Address) -> InvoiceEscrow {
    InvoiceEscrow { sme_address: new_sme, ..s.escrow->0 }
}

/// The environment after the SME address is changed.
pub open spec fn rotate_post(e: EnvView, new_sme: Address) -> EnvView {
    e.with_storage(StorageView { escrow: Some(rotated(e.storage, new_sme)), ..e.storage }).publish(
        Event::BeneficiaryRotated(
            BeneficiaryRotated {
                name: "ben_rot",
                invoice_id: e.storage.escrow->0.invoice_id,
                prior_sme: e.storage.escrow->0.sme_address,
                new_sme,
            },
        ),
    )
}

/// The environment after the registry hint is changed.
pub open spec fn rebind_registry_post(e: EnvView, registry: Option<Address>) -> EnvView {
    e.with_storage(StorageView { registry_ref: registry, ..e.storage }).publish(
        Event::RegistryRefRebound(
            RegistryRefRebound {
                name: "reg_rebind",
                invoice_id: e.storage.escrow->0.invoice_id,
                registry,
            },
        ),
    )
}

// ---------------------------------------------------------------------------------------------
// Schema and code
// ---------------------------------------------------------------------------------------------

/// Why a migration is refused. None is implemented, so every one is.
pub open spec fn migrate_refusal(e: EnvView, from_version: u32) -> Refusal {
    if e.admin_refusal() is Some {
        e.admin_refusal()->0
    } else if e.storage.schema() != from_version {
        Refusal::Error(EscrowError::MigrationVersionMismatch)
    } else if from_version >= SCHEMA_VERSION {
        Refusal::Error(EscrowError::AlreadyCurrentSchemaVersion)
    } else {
        Refusal::Error(EscrowError::NoMigrationPath)
    }
}

/// The environment after an upgrade: announced first, then left to be done.
pub open spec fn upgrade_post(e: EnvView, new_wasm_hash: Digest) -> EnvView {
    e.publish(
        Event::ContractUpgraded(
            ContractUpgraded {
                name: "upgrade",
                invoice_id: e.storage.escrow->0.invoice_id,
                new_wasm_hash,
            },
        ),
    ).with_effect(Effect::UpdateWasm(new_wasm_hash))
}

impl LiquifactEscrow {
    /// Proposes `new_admin` as the admin's successor, who may accept for `validity_window_secs`
    /// from now, or for seven days.
    pub fn propose_admin(
        env: &mut ContractEnv,
        new_admin: Address,
        validity_window_secs: Option<u64>,
    ) -> (r: Result<Address, Refusal>)
        ensures
            outcome(
                propose_admin_refusal(old(env)@, new_admin),
                old(env)@,
                propose_admin_post(old(env)@, new_admin, validity_window_secs),
                new_admin,
                r,
                final(env)@,
            ),
    {
        let escrow = Self::load_escrow_require_admin(env)?;
        ensure(escrow.admin != new_admin, EscrowError::NewAdminSameAsCurrent)?;
        let window: u64 = validity_window_secs.unwrap_or(DEFAULT_ADMIN_PROPOSAL_VALIDITY_SECS);
        let expiry: u64 = env.ledger.timestamp.saturating_add(window);
        env.storage.pending_admin = Some(new_admin);
        env.storage.pending_admin_expiry = Some(expiry);
        env.publish(
            Event::AdminProposedEvent(
                AdminProposedEvent {
                    name: "adm_prop",
                    invoice_id: escrow.invoice_id,
                    current_admin: escrow.admin,
                    pending_admin: new_admin,
                },
            ),
        );
        Ok(new_admin)
    }

    /// Makes the pending admin, who calls this, the admin.
    pub fn accept_admin(env: &mut ContractEnv) -> (r: Result<InvoiceEscrow, Refusal>)
        ensures
            outcome(
                accept_admin_refusal(old(env)@),
                old(env)@,
                accept_admin_post(old(env)@),
                handed_over(old(env)@.storage),
                r,
                final(env)@,
            ),
    {
        let pending = match env.storage.pending_admin {
            Some(pending) => pending,
            None => {
                return Err(Refusal::Error(EscrowError::NoPendingAdmin));
            },
        };
        if let Some(expiry) = env.storage.pending_admin_expiry {
            ensure(env.ledger.timestamp <= expiry, EscrowError::AdminProposalExpired)?;
        }
        env.require_auth(pending)?;
        let mut escrow = Self::get_escrow(env)?;
        escrow.admin = pending;
        env.storage.escrow = Some(escrow);
        env.storage.pending_admin = None;
        env.storage.pending_admin_expiry = None;
        env.publish(
            Event::AdminTransferredEvent(
                AdminTransferredEvent {
                    name: "admin",
                    invoice_id: escrow.invoice_id,
                    new_admin: pending,
                },
            ),
        );
        Ok(escrow)
    }

    /// Proposes `new_admin` as [`LiquifactEscrow::propose_admin`] does, for seven days. Deprecated:
    /// the admin stays until the successor accepts.
    pub fn transfer_admin(env: &mut ContractEnv, new_admin: Address) -> (r: Result<
        InvoiceEscrow,
        Refusal,
    >)
        ensures
            outcome(
                propose_admin_refusal(old(env)@, new_admin),
                old(env)@,
                transfer_admin_post(old(env)@, new_admin),
                old(env)@.storage.escrow->0,
                r,
                final(env)@,
            ),
    {
        let escrow = Self::get_escrow(env)?;
        Self::propose_admin(env, new_admin, None)?;
        env.publish(
            Event::DeprecatedTransferAdminUsed(
                DeprecatedTransferAdminUsed {
                    name: "depr_xfer",
                    invoice_id: escrow.invoice_id,
                    proposed_address: new_admin,
                },
            ),
        );
        Self::get_escrow(env)
    }

    /// Calls the pending handover off and returns who was proposed.
    pub fn cancel_pending_admin(env: &mut ContractEnv) -> (r: Result<Address, Refusal>)
        ensures
            outcome(
                cancel_pending_refusal(old(env)@),
                old(env)@,
                cancel_pending_post(old(env)@),
                old(env)@.storage.pending_admin->0,
                r,
                final(env)@,
            ),
    {
        let escrow = Self::load_escrow_require_admin(env)?;
        let cancelled = match env.storage.pending_admin {
            Some(pending) => pending,
            None => {
                return Err(Refusal::Error(EscrowError::NoPendingAdmin));
            },
        };
        env.storage.pending_admin = None;
        env.storage.pending_admin_expiry = None;
        env.publish(
            Event::AdminProposalCancelled(
                AdminProposalCancelled {
                    name: "adm_can",
                    invoice_id: escrow.invoice_id,
                    cancelled_pending: cancelled,
                },
            ),
        );
        Ok(cancelled)
    }

    /// The proposed successor of the admin.
    pub fn get_pending_admin(env: &ContractEnv) -> (r: Option<Address>)
        ensures
            r == env@.storage.pending_admin,
    {
        env.storage.pending_admin
    }

    /// The last timestamp at which the handover can be accepted.
    pub fn get_pending_admin_expiry(env: &ContractEnv) -> (r: Option<u64>)
        ensures
            r == env@.storage.pending_admin_expiry,
    {
        env.storage.pending_admin_expiry
    }

    /// Changes the SME address before settlement. Both the current SME and the admin have to
    /// authorize the call.
    pub fn rotate_beneficiary(env: &mut ContractEnv, new_sme_address: Address) -> (r: Result<
        InvoiceEscrow,
        Refusal,
    >)
        ensures
            outcome(
                rotate_refusal(old(env)@, new_sme_address),
                old(env)@,
                rotate_post(old(env)@, new_sme_address),
                rotated(old(env)@.storage, new_sme_address),
                r,
                final(env)@,
            ),
    {
        ensure(!Self::legal_hold_active(env), EscrowError::LegalHoldBlocksBeneficiaryRotation)?;
        let mut escrow = Self::get_escrow(env)?;
        ensure(
            escrow.status == STATUS_OPEN || escrow.status == STATUS_FUNDED,
            EscrowError::RotationNotOpen,
        )?;
        ensure(new_sme_address != escrow.sme_address, EscrowError::NewSmeSameAsCurrent)?;
        env.require_auth(escrow.sme_address)?;
        env.require_auth(escrow.admin)?;
        let prior_sme = escrow.sme_address;
        escrow.sme_address = new_sme_address;
        env.storage.escrow = Some(escrow);
        env.publish(
            Event::BeneficiaryRotated(
                BeneficiaryRotated {
                    name: "ben_rot",
                    invoice_id: escrow.invoice_id,
                    prior_sme,
                    new_sme: new_sme_address,
                },
            ),
        );
        Ok(escrow)
    }

    /// Changes the registry hint; `None` clears it. No rule of the contract looks at it.
    pub fn rebind_registry_ref(env: &mut ContractEnv, registry: Option<Address>) -> (r: Result<
        (),
        Refusal,
    >)
        ensures
            outcome(
                old(env)@.admin_refusal(),
                old(env)@,
                rebind_registry_post(old(env)@, registry),
                (),
                r,
                final(env)@,
            ),
    {
        let escrow = Self::load_escrow_require_admin(env)?;
        env.storage.registry_ref = registry;
        env.publish(
            Event::RegistryRefRebound(
                RegistryRefRebound { name: "reg_rebind", invoice_id: escrow.invoice_id, registry },
            ),
        );
        Ok(())
    }

    /// Clears the registry hint.
    pub fn clear_registry_ref(env: &mut ContractEnv) -> (r: Result<(), Refusal>)
        ensures
            outcome(
                old(env)@.admin_refusal(),
                old(env)@,
                rebind_registry_post(old(env)@, None),
                (),
                r,
                final(env)@,
            ),
    {
        Self::rebind_registry_ref(env, None)
    }

    /// The registry hint.
    pub fn get_registry_ref(env: &ContractEnv) -> (r: Option<Address>)
        ensures
            r == env@.storage.registry_ref,
    {
        env.storage.registry_ref
    }

    /// Migrates stored data from an older schema. No migration is implemented, so every call is
    /// refused and nothing is written.
    pub fn migrate(env: &ContractEnv, from_version: u32) -> (r: Result<u32, Refusal>)
        ensures
            r == Err::<u32, Refusal>(migrate_refusal(env@, from_version)),
    {
        Self::load_escrow_require_admin(env)?;
        let stored: u32 = env.storage.version.unwrap_or(0);
        ensure(stored == from_version, EscrowError::MigrationVersionMismatch)?;
        if from_version >= SCHEMA_VERSION {
            Err(Refusal::Error(EscrowError::AlreadyCurrentSchemaVersion))
        } else {
            Err(Refusal::Error(EscrowError::NoMigrationPath))
        }
    }

    /// Replaces the code of the contract and leaves everything stored as it is.
    pub fn upgrade(env: &mut ContractEnv, new_wasm_hash: Digest) -> (r: Result<(), Refusal>)
        ensures
            outcome(
                old(env)@.admin_refusal(),
                old(env)@,
                upgrade_post(old(env)@, new_wasm_hash),
                (),
                r,
                final(env)@,
            ),
    {
        let escrow = Self::load_escrow_require_admin(env)?;
        env.publish(
            Event::ContractUpgraded(
                ContractUpgraded { name: "upgrade", invoice_id: escrow.invoice_id, new_wasm_hash },
            ),
        );
        env.effects.push(Effect::UpdateWasm(new_wasm_hash));
        Ok(())
    }
}

} // verus!
