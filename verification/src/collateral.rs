//! Collateral metadata of the SME. It is a record only: nothing in the contract depends on it, and
//! no token moves.
use crate::contract::LiquifactEscrow;
use crate::env::{outcome, refused, ContractEnv, EnvView, StorageView};
use crate::errors::{EscrowError, Refusal};
use crate::events::{CollateralClearedEvt, CollateralRecordedEvt, Event};
use crate::guards::ensure;
use crate::types::SmeCollateralCommitment;
use crate::values::Sym;
use vstd::prelude::*;

verus! {

/// Why recording collateral is refused.
pub open spec fn record_collateral_refusal(
    e: EnvView,
    asset: Sym,
    amount: i128,
) -> Option<Refusal> {
    if amount <= 0 {
        refused(EscrowError::CollateralAmountNotPositive)
    } else if asset.text().len() == 0 {
        refused(EscrowError::CollateralAssetEmpty)
    } else if e.sme_refusal() is Some {
        e.sme_refusal()
    } else if e.storage.sme_collateral_pledge is Some && e.ledger.timestamp
        < e.storage.sme_collateral_pledge->0.recorded_at {
        refused(EscrowError::CollateralTimestampBackwards)
    } else {
        None
    }
}

/// The commitment recorded now.
pub open spec fn recorded_collateral(
    e: EnvView,
    asset: Sym,
    amount: i128,
) -> SmeCollateralCommitment {
    SmeCollateralCommitment { asset, amount, recorded_at: e.ledger.timestamp }
}

/// The environment after collateral is recorded.
pub open spec fn record_collateral_post(e: EnvView, asset: Sym, amount: i128) -> EnvView {
    e.with_storage(
        StorageView {
            sme_collateral_pledge: Some(recorded_collateral(e, asset, amount)),
            ..e.storage
        },
    ).publish(
        Event::CollateralRecordedEvt(
            CollateralRecordedEvt {
                name: "coll_rec",
                invoice_id: e.storage.escrow->0.invoice_id,
                amount,
                prior_amount: match e.storage.sme_collateral_pledge {
                    Some(prior) => prior.amount,
                    None => 0,
                },
            },
        ),
    )
}

/// Why retiring the collateral record is refused.
pub open spec fn clear_collateral_refusal(e: EnvView) -> Option<Refusal> {
    if e.storage.sme_collateral_pledge is None {
        refused(EscrowError::NoCollateralToClear)
    } else {
        e.sme_refusal()
    }
}

/// The environment after the collateral record is retired.
pub open spec fn clear_collateral_post(e: EnvView) -> EnvView {
    e.with_storage(StorageView { sme_collateral_pledge: None, ..e.storage }).publish(
        Event::CollateralClearedEvt(
            CollateralClearedEvt {
                invoice_id: e.storage.escrow->0.invoice_id,
                amount: e.storage.sme_collateral_pledge->0.amount,
            },
        ),
    )
}

impl LiquifactEscrow {
    /// Records collateral metadata of the SME, in place of what was recorded before.
    pub fn record_sme_collateral_commitment(
        env: &mut ContractEnv,
        asset: Sym,
        amount: i128,
    ) -> (r: Result<SmeCollateralCommitment, Refusal>)
        requires
            asset.wf(),
        ensures
            outcome(
                record_collateral_refusal(old(env)@, asset, amount),
                old(env)@,
                record_collateral_post(old(env)@, asset, amount),
                recorded_collateral(old(env)@, asset, amount),
                r,
                final(env)@,
            ),
    {
        ensure(amount > 0, EscrowError::CollateralAmountNotPositive)?;
        ensure(!asset.is_empty(), EscrowError::CollateralAssetEmpty)?;
        let escrow = Self::load_escrow_require_sme(env)?;
        let now: u64 = env.ledger.timestamp;
        let mut prior_amount: i128 = 0;
        if let Some(prior) = env.storage.sme_collateral_pledge {
            ensure(now >= prior.recorded_at, EscrowError::CollateralTimestampBackwards)?;
            prior_amount = prior.amount;
        }
        let commitment = SmeCollateralCommitment { asset, amount, recorded_at: now };
        env.storage.sme_collateral_pledge = Some(commitment);
        env.publish(
            Event::CollateralRecordedEvt(
                CollateralRecordedEvt {
                    name: "coll_rec",
                    invoice_id: escrow.invoice_id,
                    amount,
                    prior_amount,
                },
            ),
        );
        Ok(commitment)
    }

    /// Retires the collateral record.
    pub fn clear_sme_collateral_commitment(env: &mut ContractEnv) -> (r: Result<(), Refusal>)
        ensures
            outcome(
                clear_collateral_refusal(old(env)@),
                old(env)@,
                clear_collateral_post(old(env)@),
                (),
                r,
                final(env)@,
            ),
    {
        let commitment = match env.storage.sme_collateral_pledge {
            Some(commitment) => commitment,
            None => {
                return Err(Refusal::Error(EscrowError::NoCollateralToClear));
            },
        };
        let escrow = Self::load_escrow_require_sme(env)?;
        env.storage.sme_collateral_pledge = None;
        env.publish(
            Event::CollateralClearedEvt(
                CollateralClearedEvt { invoice_id: escrow.invoice_id, amount: commitment.amount },
            ),
        );
        Ok(())
    }

    /// The collateral record.
    pub fn get_sme_collateral_commitment(env: &ContractEnv) -> (r: Option<SmeCollateralCommitment>)
        ensures
            r == env@.storage.sme_collateral_pledge,
    {
        env.storage.sme_collateral_pledge
    }
}

} // verus!
