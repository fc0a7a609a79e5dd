//! Reads shared by the entrypoints of [`LiquifactEscrow`].
use crate::env::ContractEnv;
use crate::errors::{EscrowError, Refusal};
use crate::types::InvoiceEscrow;
use crate::values::Address;
use vstd::prelude::*;

verus! {

/// The escrow contract: holds investor funds for an invoice until settlement.
#[derive(Clone, Copy, Debug)]
pub struct LiquifactEscrow;

impl LiquifactEscrow {
    /// Whether a compliance hold is active.
    pub(crate) fn legal_hold_active(env: &ContractEnv) -> (r: bool)
        ensures
            r == env@.storage.hold_active(),
    {
        env.storage.legal_hold.unwrap_or(false)
    }

    /// Whether the operational pause is active.
    pub(crate) fn paused_active(env: &ContractEnv) -> (r: bool)
        ensures
            r == env@.storage.pause_active(),
    {
        env.storage.paused.unwrap_or(false)
    }

    /// The funding token, or the refusal where there is none.
    pub(crate) fn funding_token_or_fail(env: &ContractEnv) -> (r: Result<Address, Refusal>)
        ensures
            r == (match env@.storage.funding_token {
                Some(token) => Ok::<Address, Refusal>(token),
                None => Err(Refusal::Error(EscrowError::FundingTokenNotSet)),
            }),
    {
        match env.storage.funding_token {
            Some(token) => Ok(token),
            None => Err(Refusal::Error(EscrowError::FundingTokenNotSet)),
        }
    }

    /// The treasury, or the refusal where there is none.
    pub(crate) fn treasury_or_fail(env: &ContractEnv) -> (r: Result<Address, Refusal>)
        ensures
            r == (match env@.storage.treasury {
                Some(treasury) => Ok::<Address, Refusal>(treasury),
                None => Err(Refusal::Error(EscrowError::TreasuryNotSet)),
            }),
    {
        match env.storage.treasury {
            Some(treasury) => Ok(treasury),
            None => Err(Refusal::Error(EscrowError::TreasuryNotSet)),
        }
    }

    /// The escrow, once the admin's authorization is established.
    pub(crate) fn load_escrow_require_admin(env: &ContractEnv) -> (r: Result<
        InvoiceEscrow,
        Refusal,
    >)
        ensures
            r == (match env@.admin_refusal() {
                None => Ok::<InvoiceEscrow, Refusal>(env@.storage.escrow->0),
                Some(why) => Err(why),
            }),
            r is Ok ==> env@.storage.escrow is Some,
    {
        let escrow = Self::get_escrow(env)?;
        env.require_auth(escrow.admin)?;
        Ok(escrow)
    }

    /// The escrow, once the SME's authorization is established.
    pub(crate) fn load_escrow_require_sme(env: &ContractEnv) -> (r: Result<InvoiceEscrow, Refusal>)
        ensures
            r == (match env@.sme_refusal() {
                None => Ok::<InvoiceEscrow, Refusal>(env@.storage.escrow->0),
                Some(why) => Err(why),
            }),
            r is Ok ==> env@.storage.escrow is Some,
    {
        let escrow = Self::get_escrow(env)?;
        env.require_auth(escrow.sme_address)?;
        Ok(escrow)
    }

    /// The full escrow record.
    pub fn get_escrow(env: &ContractEnv) -> (r: Result<InvoiceEscrow, Refusal>)
        ensures
            r == (match env@.storage.escrow {
                Some(escrow) => Ok::<InvoiceEscrow, Refusal>(escrow),
                None => Err(Refusal::Error(EscrowError::EscrowNotInitialized)),
            }),
    {
        match env.storage.escrow {
            Some(escrow) => Ok(escrow),
            None => Err(Refusal::Error(EscrowError::EscrowNotInitialized)),
        }
    }
}

} // verus!
