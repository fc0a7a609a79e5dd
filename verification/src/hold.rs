//! The compliance hold and the operational pause.
//!
//! A hold may be configured with a delay between requesting and performing its clear. The pause has
//! none. Neither looks at the other.
use crate::contract::LiquifactEscrow;
use crate::env::{outcome, refused, ContractEnv, EnvView, StorageView};
use crate::errors::{EscrowError, Refusal};
use crate::events::{
    Event, LegalHoldChanged, LegalHoldClearCancelled, LegalHoldClearRequested, PausedChanged,
};
use crate::guards::{ensure, flag, flag_of, unless};
use crate::types::InvoiceEscrow;
use vstd::prelude::*;

verus! {

/// The environment after the pause is set or cleared.
pub open spec fn set_paused_post(e: EnvView, active: bool) -> EnvView {
    e.with_storage(StorageView { paused: Some(active), ..e.storage }).publish(
        Event::PausedChanged(
            PausedChanged {
                name: "paused",
                invoice_id: e.storage.escrow->0.invoice_id,
                active: flag(active),
            },
        ),
    )
}

/// What stands in the way of a clear that has to be requested first.
pub open spec fn clear_request_fault(e: EnvView) -> Option<EscrowError> {
    match e.storage.legal_hold_clearable_at {
        None => Some(EscrowError::LegalHoldClearRequestMissing),
        Some(clearable_at) => if e.ledger.timestamp < clearable_at {
            Some(EscrowError::LegalHoldClearNotReady)
        } else {
            None
        },
    }
}

/// Why setting or clearing the hold is refused: an active hold with a delay is cleared only on a
/// request that has come due.
pub open spec fn set_legal_hold_refusal(e: EnvView, active: bool) -> Option<Refusal> {
    if e.admin_refusal() is Some {
        e.admin_refusal()
    } else if !active && e.storage.hold_active() && e.storage.clear_delay() > 0 {
        match clear_request_fault(e) {
            Some(error) => refused(error),
            None => None,
        }
    } else {
        None
    }
}

/// The environment after the hold is set or cleared; a pending request is dropped.
pub open spec fn set_legal_hold_post(e: EnvView, active: bool) -> EnvView {
    e.with_storage(
        StorageView { legal_hold: Some(active), legal_hold_clearable_at: None, ..e.storage },
    ).publish(
        Event::LegalHoldChanged(
            LegalHoldChanged {
                name: "legalhld",
                invoice_id: e.storage.escrow->0.invoice_id,
                active: flag(active),
            },
        ),
    )
}

/// Why a request to clear the hold is refused.
pub open spec fn request_clear_refusal(e: EnvView) -> Option<Refusal> {
    if e.admin_refusal() is Some {
        e.admin_refusal()
    } else if e.ledger.timestamp + e.storage.clear_delay() > u64::MAX {
        refused(EscrowError::LegalHoldClearDelayOverflow)
    } else {
        None
    }
}

/// The environment after a clear is requested.
pub open spec fn request_clear_post(e: EnvView) -> EnvView {
    let clearable_at = (e.ledger.timestamp + e.storage.clear_delay()) as u64;
    e.with_storage(
        StorageView { legal_hold_clearable_at: Some(clearable_at), ..e.storage },
    ).publish(
        Event::LegalHoldClearRequested(
            LegalHoldClearRequested {
                name: "lh_req",
                invoice_id: e.storage.escrow->0.invoice_id,
                clearable_at,
            },
        ),
    )
}

/// Why clearing the hold on a request that came due is refused.
pub open spec fn clear_after_delay_refusal(e: EnvView) -> Option<Refusal> {
    if e.admin_refusal() is Some {
        e.admin_refusal()
    } else {
        match clear_request_fault(e) {
            Some(error) => refused(error),
            None => None,
        }
    }
}

/// Why calling off a requested clear is refused.
pub open spec fn cancel_clear_refusal(e: EnvView) -> Option<Refusal> {
    if e.admin_refusal() is Some {
        e.admin_refusal()
    } else if e.storage.legal_hold_clearable_at is None {
        refused(EscrowError::LegalHoldClearRequestMissing)
    } else {
        None
    }
}

/// The environment after a requested clear is called off.
pub open spec fn cancel_clear_post(e: EnvView) -> EnvView {
    e.with_storage(StorageView { legal_hold_clearable_at: None, ..e.storage }).publish(
        Event::LegalHoldClearCancelled(
            LegalHoldClearCancelled {
                name: "lh_cancel",
                invoice_id: e.storage.escrow->0.invoice_id,
            },
        ),
    )
}

impl LiquifactEscrow {
    /// Sets or clears the operational pause. While it is active, no deposit, settlement, withdrawal
    /// or claim is accepted.
    pub fn set_paused(env: &mut ContractEnv, active: bool) -> (r: Result<(), Refusal>)
        ensures
            outcome(
                old(env)@.admin_refusal(),
                old(env)@,
                set_paused_post(old(env)@, active),
                (),
                r,
                final(env)@,
            ),
    {
        let escrow = Self::load_escrow_require_admin(env)?;
        env.storage.paused = Some(active);
        env.publish(
            Event::PausedChanged(
                PausedChanged {
                    name: "paused",
                    invoice_id: escrow.invoice_id,
                    active: flag_of(active),
                },
            ),
        );
        Ok(())
    }

    /// Refuses unless a clear was requested and has come due.
    fn require_clear_due(env: &ContractEnv) -> (r: Result<(), Refusal>)
        ensures
            r == unless(clear_request_fault(env@)),
    {
        match env.storage.legal_hold_clearable_at {
            None => Err(Refusal::Error(EscrowError::LegalHoldClearRequestMissing)),
            Some(clearable_at) => ensure(
                env.ledger.timestamp >= clearable_at,
                EscrowError::LegalHoldClearNotReady,
            ),
        }
    }

    /// Writes the hold of an authorized admin.
    fn write_legal_hold(env: &mut ContractEnv, escrow: &InvoiceEscrow, active: bool)
        requires
            old(env)@.storage.escrow == Some(*escrow),
        ensures
            final(env)@ == set_legal_hold_post(old(env)@, active),
    {
        env.storage.legal_hold_clearable_at = None;
        env.storage.legal_hold = Some(active);
        env.publish(
            Event::LegalHoldChanged(
                LegalHoldChanged {
                    name: "legalhld",
                    invoice_id: escrow.invoice_id,
                    active: flag_of(active),
                },
            ),
        );
    }

    /// Sets or clears the compliance hold. Where a clear delay is configured, an active hold is
    /// cleared only after a request whose delay has passed.
    pub fn set_legal_hold(env: &mut ContractEnv, active: bool) -> (r: Result<(), Refusal>)
        ensures
            outcome(
                set_legal_hold_refusal(old(env)@, active),
                old(env)@,
                set_legal_hold_post(old(env)@, active),
                (),
                r,
                final(env)@,
            ),
    {
        let escrow = Self::load_escrow_require_admin(env)?;
        if !active && Self::legal_hold_active(env) {
            if Self::get_legal_hold_clear_delay(env) > 0 {
                Self::require_clear_due(env)?;
            }
        }
        Self::write_legal_hold(env, &escrow, active);
        Ok(())
    }

    /// Requests a clear of the hold, which comes due after the configured delay.
    pub fn request_clear_legal_hold(env: &mut ContractEnv) -> (r: Result<(), Refusal>)
        ensures
            outcome(
                request_clear_refusal(old(env)@),
                old(env)@,
                request_clear_post(old(env)@),
                (),
                r,
                final(env)@,
            ),
    {
        let escrow = Self::load_escrow_require_admin(env)?;
        let now: u64 = env.ledger.timestamp;
        let delay: u64 = Self::get_legal_hold_clear_delay(env);
        let clearable_at: u64 = match now.checked_add(delay) {
            Some(time) => time,
            None => {
                return Err(Refusal::Error(EscrowError::LegalHoldClearDelayOverflow));
            },
        };
        env.storage.legal_hold_clearable_at = Some(clearable_at);
        env.publish(
            Event::LegalHoldClearRequested(
                LegalHoldClearRequested {
                    name: "lh_req",
                    invoice_id: escrow.invoice_id,
                    clearable_at,
                },
            ),
        );
        Ok(())
    }

    /// Clears the hold: [`LiquifactEscrow::set_legal_hold`] with `false`.
    pub fn clear_legal_hold(env: &mut ContractEnv) -> (r: Result<(), Refusal>)
        ensures
            outcome(
                set_legal_hold_refusal(old(env)@, false),
                old(env)@,
                set_legal_hold_post(old(env)@, false),
                (),
                r,
                final(env)@,
            ),
    {
        Self::set_legal_hold(env, false)
    }

    /// Clears the hold on a request whose delay has passed.
    pub fn clear_legal_hold_after_delay(env: &mut ContractEnv) -> (r: Result<(), Refusal>)
        ensures
            outcome(
                clear_after_delay_refusal(old(env)@),
                old(env)@,
                set_legal_hold_post(old(env)@, false),
                (),
                r,
                final(env)@,
            ),
    {
        let escrow = Self::load_escrow_require_admin(env)?;
        Self::require_clear_due(env)?;
        Self::write_legal_hold(env, &escrow, false);
        Ok(())
    }

    /// Calls a requested clear off. The hold stays, and a new request waits for the full delay.
    pub fn cancel_clear_legal_hold(env: &mut ContractEnv) -> (r: Result<(), Refusal>)
        ensures
            outcome(
                cancel_clear_refusal(old(env)@),
                old(env)@,
                cancel_clear_post(old(env)@),
                (),
                r,
                final(env)@,
            ),
    {
        let escrow = Self::load_escrow_require_admin(env)?;
        ensure(
            env.storage.legal_hold_clearable_at.is_some(),
            EscrowError::LegalHoldClearRequestMissing,
        )?;
        env.storage.legal_hold_clearable_at = None;
        env.publish(
            Event::LegalHoldClearCancelled(
                LegalHoldClearCancelled { name: "lh_cancel", invoice_id: escrow.invoice_id },
            ),
        );
        Ok(())
    }

    /// Whether the compliance hold is active.
    pub fn get_legal_hold(env: &ContractEnv) -> (r: bool)
        ensures
            r == env@.storage.hold_active(),
    {
        Self::legal_hold_active(env)
    }

    /// Whether the operational pause is active.
    pub fn is_paused(env: &ContractEnv) -> (r: bool)
        ensures
            r == env@.storage.pause_active(),
    {
        Self::paused_active(env)
    }

    /// Least delay in seconds between requesting and performing a hold clear.
    pub fn get_legal_hold_clear_delay(env: &ContractEnv) -> (r: u64)
        ensures
            r == env@.storage.clear_delay(),
    {
        env.storage.legal_hold_clear_delay.unwrap_or(0)
    }

    /// When a requested clear comes due; `None` where none was requested.
    pub fn get_legal_hold_clearable_at(env: &ContractEnv) -> (r: Option<u64>)
        ensures
            r == env@.storage.legal_hold_clearable_at,
    {
        env.storage.legal_hold_clearable_at
    }
}

} // verus!
