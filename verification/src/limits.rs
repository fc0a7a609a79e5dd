//! Changes of the target, the caps, the floor and the maturity by the admin.
use crate::contract::LiquifactEscrow;
use crate::env::{outcome, refused, ContractEnv, EnvView, StorageView};
use crate::errors::{EscrowError, Refusal};
use crate::events::{
    Event, FundingTargetUpdated, MaturityMaxHorizonRaised, MaturityMaxHorizonUpdated,
    MaturityUpdatedEvent, MaxPerInvestorCapRaised, MaxUniqueInvestorsCapLowered,
    MaxUniqueInvestorsCapRaised, MinContributionFloorLowered,
};
use crate::funding::close_snapshot;
use crate::guards::{
    ensure, guard_status_eq, maturity_fault, require_funding_open, validate_maturity_bounds,
};
use crate::types::{
    FundingCloseSnapshot, InvoiceEscrow, DEFAULT_MATURITY_MAX_HORIZON_SECS, STATUS_FUNDED,
    STATUS_OPEN,
};
use vstd::prelude::*;

verus! {

/// The furthest maturity from now.
pub open spec fn max_horizon(s: StorageView) -> u64 {
    s.maturity_max_horizon.unwrap_or(DEFAULT_MATURITY_MAX_HORIZON_SECS)
}

// ---------------------------------------------------------------------------------------------
// Target
// ---------------------------------------------------------------------------------------------

/// Why changing the funding target is refused.
pub open spec fn update_target_refusal(e: EnvView, new_target: i128) -> Option<Refusal> {
    if e.admin_refusal() is Some {
        e.admin_refusal()
    } else if new_target <= 0 {
        refused(EscrowError::TargetNotPositive)
    } else if e.storage.escrow->0.status != STATUS_OPEN {
        refused(EscrowError::TargetUpdateNotOpen)
    } else if new_target < e.storage.escrow->0.funded_amount {
        refused(EscrowError::TargetBelowFundedAmount)
    } else {
        None
    }
}

/// Whether the new target is what is already there, so that funding closes.
pub open spec fn target_closes(s: StorageView, new_target: i128) -> bool {
    &&& s.escrow->0.funded_amount > 0
    &&& s.escrow->0.funded_amount >= new_target
    &&& s.funding_close_snapshot is None
}

/// The escrow with another target.
pub open spec fn retargeted(s: StorageView, new_target: i128) -> InvoiceEscrow {
    InvoiceEscrow {
        funding_target: new_target,
        status: if target_closes(s, new_target) {
            STATUS_FUNDED
        } else {
            s.escrow->0.status
        },
        ..s.escrow->0
    }
}

/// The environment after the funding target is changed.
pub open spec fn update_target_post(e: EnvView, new_target: i128) -> EnvView {
    let escrow = retargeted(e.storage, new_target);
    e.with_storage(
        StorageView {
            escrow: Some(escrow),
            funding_close_snapshot: if target_closes(e.storage, new_target) {
                Some(close_snapshot(e, escrow))
            } else {
                e.storage.funding_close_snapshot
            },
            ..e.storage
        },
    ).publish(
        Event::FundingTargetUpdated(
            FundingTargetUpdated {
                name: "fund_tgt",
                invoice_id: escrow.invoice_id,
                old_target: e.storage.escrow->0.funding_target,
                new_target,
            },
        ),
    )
}

// ---------------------------------------------------------------------------------------------
// Caps and floor
// ---------------------------------------------------------------------------------------------

/// Why lowering the cap on distinct investors is refused.
pub open spec fn lower_cap_refusal(e: EnvView, new_cap: u32) -> Option<Refusal> {
    if e.admin_refusal() is Some {
        e.admin_refusal()
    } else if e.storage.escrow->0.status != STATUS_OPEN {
        refused(EscrowError::CapLowerNotOpen)
    } else if e.storage.max_unique_investors_cap is None {
        refused(EscrowError::NoInvestorCapConfigured)
    } else if new_cap >= e.storage.max_unique_investors_cap->0 {
        refused(EscrowError::NewCapNotLower)
    } else if new_cap < e.storage.funders() {
        refused(EscrowError::NewCapBelowCurrentFunderCount)
    } else {
        None
    }
}

/// The environment after the cap on distinct investors is lowered.
pub open spec fn lower_cap_post(e: EnvView, new_cap: u32) -> EnvView {
    e.with_storage(StorageView { max_unique_investors_cap: Some(new_cap), ..e.storage }).publish(
        Event::MaxUniqueInvestorsCapLowered(
            MaxUniqueInvestorsCapLowered {
                name: "inv_cap",
                invoice_id: e.storage.escrow->0.invoice_id,
                old_cap: e.storage.max_unique_investors_cap->0,
                new_cap,
            },
        ),
    )
}

/// Why raising the cap on distinct investors is refused.
pub open spec fn raise_cap_refusal(e: EnvView, new_cap: u32) -> Option<Refusal> {
    if e.admin_refusal() is Some {
        e.admin_refusal()
    } else if e.storage.escrow->0.status != STATUS_OPEN {
        refused(EscrowError::EscrowNotOpenForFunding)
    } else if e.storage.max_unique_investors_cap is None {
        refused(EscrowError::NoInvestorCapConfigured)
    } else if new_cap <= e.storage.max_unique_investors_cap->0 {
        refused(EscrowError::NewCapNotHigher)
    } else {
        None
    }
}

/// The environment after the cap on distinct investors is raised.
pub open spec fn raise_cap_post(e: EnvView, new_cap: u32) -> EnvView {
    e.with_storage(StorageView { max_unique_investors_cap: Some(new_cap), ..e.storage }).publish(
        Event::MaxUniqueInvestorsCapRaised(
            MaxUniqueInvestorsCapRaised {
                name: "raise_cap",
                invoice_id: e.storage.escrow->0.invoice_id,
                old_cap: e.storage.max_unique_investors_cap->0,
                new_cap,
            },
        ),
    )
}

/// Why lowering the floor is refused.
pub open spec fn lower_floor_refusal(e: EnvView, new_floor: i128) -> Option<Refusal> {
    if e.admin_refusal() is Some {
        e.admin_refusal()
    } else if e.storage.escrow->0.status != STATUS_OPEN {
        refused(EscrowError::FloorLowerNotOpen)
    } else if new_floor <= 0 {
        refused(EscrowError::NewFloorNotPositive)
    } else if new_floor >= e.storage.floor() {
        refused(EscrowError::NewFloorNotLower)
    } else {
        None
    }
}

/// The environment after the floor is lowered.
pub open spec fn lower_floor_post(e: EnvView, new_floor: i128) -> EnvView {
    e.with_storage(StorageView { min_contribution_floor: Some(new_floor), ..e.storage }).publish(
        Event::MinContributionFloorLowered(
            MinContributionFloorLowered {
                name: "floor_lo",
                invoice_id: e.storage.escrow->0.invoice_id,
                old_floor: e.storage.floor(),
                new_floor,
            },
        ),
    )
}

/// Why raising the cap on one investor's principal is refused.
pub open spec fn raise_per_investor_refusal(e: EnvView, new_cap: i128) -> Option<Refusal> {
    if e.admin_refusal() is Some {
        e.admin_refusal()
    } else if e.storage.escrow->0.status != STATUS_OPEN {
        refused(EscrowError::CapLowerNotOpen)
    } else if e.storage.max_per_investor_cap is None {
        refused(EscrowError::MaxPerInvestorCapNotConfigured)
    } else if new_cap <= e.storage.max_per_investor_cap->0 {
        refused(EscrowError::MaxPerInvestorCapNotRaised)
    } else {
        None
    }
}

/// The environment after the cap on one investor's principal is raised.
pub open spec fn raise_per_investor_post(e: EnvView, new_cap: i128) -> EnvView {
    e.with_storage(StorageView { max_per_investor_cap: Some(new_cap), ..e.storage }).publish(
        Event::MaxPerInvestorCapRaised(
            MaxPerInvestorCapRaised {
                name: "inv_cap",
                invoice_id: e.storage.escrow->0.invoice_id,
                old_cap: e.storage.max_per_investor_cap->0,
                new_cap,
            },
        ),
    )
}

// ---------------------------------------------------------------------------------------------
// Maturity
// ---------------------------------------------------------------------------------------------

/// Why changing the maturity is refused.
pub open spec fn update_maturity_refusal(e: EnvView, new_maturity: u64) -> Option<Refusal> {
    if e.admin_refusal() is Some {
        e.admin_refusal()
    } else if e.storage.escrow->0.status != STATUS_OPEN {
        refused(EscrowError::MaturityUpdateNotOpen)
    } else if new_maturity == e.storage.escrow->0.maturity {
        refused(EscrowError::MaturityUnchanged)
    } else {
        match maturity_fault(e.ledger.timestamp, new_maturity, max_horizon(e.storage)) {
            Some(error) => refused(error),
            None => None,
        }
    }
}

/// The escrow with another maturity.
pub open spec fn rescheduled(s: StorageView, new_maturity: u64) -> InvoiceEscrow {
    InvoiceEscrow { maturity: new_maturity, ..s.escrow->0 }
}

/// The environment after the maturity is changed.
pub open spec fn update_maturity_post(e: EnvView, new_maturity: u64) -> EnvView {
    e.with_storage(
        StorageView { escrow: Some(rescheduled(e.storage, new_maturity)), ..e.storage },
    ).publish(
        Event::MaturityUpdatedEvent(
            MaturityUpdatedEvent {
                name: "maturity",
                invoice_id: e.storage.escrow->0.invoice_id,
                old_maturity: e.storage.escrow->0.maturity,
                new_maturity,
            },
        ),
    )
}

/// The environment after the horizon is changed.
pub open spec fn update_horizon_post(e: EnvView, new_horizon: u64) -> EnvView {
    e.with_storage(StorageView { maturity_max_horizon: Some(new_horizon), ..e.storage }).publish(
        Event::MaturityMaxHorizonUpdated(
            MaturityMaxHorizonUpdated {
                name: "mtry_max",
                invoice_id: e.storage.escrow->0.invoice_id,
                old_horizon: max_horizon(e.storage),
                new_horizon,
            },
        ),
    )
}

/// Why raising the horizon is refused.
pub open spec fn raise_horizon_refusal(e: EnvView, new_horizon: u64) -> Option<Refusal> {
    if e.admin_refusal() is Some {
        e.admin_refusal()
    } else if new_horizon <= max_horizon(e.storage) {
        refused(EscrowError::HorizonNotRaised)
    } else {
        None
    }
}

/// The environment after the horizon is raised.
pub open spec fn raise_horizon_post(e: EnvView, new_horizon: u64) -> EnvView {
    e.with_storage(StorageView { maturity_max_horizon: Some(new_horizon), ..e.storage }).publish(
        Event::MaturityMaxHorizonRaised(
            MaturityMaxHorizonRaised {
                name: "mtry_rse",
                invoice_id: e.storage.escrow->0.invoice_id,
                old_horizon: max_horizon(e.storage),
                new_horizon,
            },
        ),
    )
}

impl LiquifactEscrow {
    /// Changes the funding target of an open escrow. A target equal to what was deposited closes
    /// the funding.
    pub fn update_funding_target(env: &mut ContractEnv, new_target: i128) -> (r: Result<
        InvoiceEscrow,
        Refusal,
    >)
        ensures
            outcome(
                update_target_refusal(old(env)@, new_target),
                old(env)@,
                update_target_post(old(env)@, new_target),
                retargeted(old(env)@.storage, new_target),
                r,
                final(env)@,
            ),
    {
        let mut escrow = Self::load_escrow_require_admin(env)?;
        ensure(new_target > 0, EscrowError::TargetNotPositive)?;
        guard_status_eq(escrow.status, STATUS_OPEN, EscrowError::TargetUpdateNotOpen)?;
        ensure(new_target >= escrow.funded_amount, EscrowError::TargetBelowFundedAmount)?;
        let old_target: i128 = escrow.funding_target;
        escrow.funding_target = new_target;
        if escrow.funded_amount > 0 && escrow.funded_amount >= new_target
            && env.storage.funding_close_snapshot.is_none() {
            escrow.status = STATUS_FUNDED;
            env.storage.funding_close_snapshot = Some(
                FundingCloseSnapshot {
                    total_principal: escrow.funded_amount,
                    funding_target: new_target,
                    closed_at_ledger_timestamp: env.ledger.timestamp,
                    closed_at_ledger_sequence: env.ledger.sequence,
                },
            );
        }
        env.storage.escrow = Some(escrow);
        env.publish(
            Event::FundingTargetUpdated(
                FundingTargetUpdated {
                    name: "fund_tgt",
                    invoice_id: escrow.invoice_id,
                    old_target,
                    new_target,
                },
            ),
        );
        Ok(escrow)
    }

    /// Lowers the cap on distinct investors of an open escrow, not below their number.
    pub fn lower_max_unique_investors(env: &mut ContractEnv, new_cap: u32) -> (r: Result<
        u32,
        Refusal,
    >)
        ensures
            outcome(
                lower_cap_refusal(old(env)@, new_cap),
                old(env)@,
                lower_cap_post(old(env)@, new_cap),
                new_cap,
                r,
                final(env)@,
            ),
    {
        let escrow = Self::load_escrow_require_admin(env)?;
        guard_status_eq(escrow.status, STATUS_OPEN, EscrowError::CapLowerNotOpen)?;
        let old_cap: u32 = match env.storage.max_unique_investors_cap {
            Some(cap) => cap,
            None => {
                return Err(Refusal::Error(EscrowError::NoInvestorCapConfigured));
            },
        };
        let unique_count: u32 = env.storage.unique_funder_count.unwrap_or(0);
        ensure(new_cap < old_cap, EscrowError::NewCapNotLower)?;
        ensure(new_cap >= unique_count, EscrowError::NewCapBelowCurrentFunderCount)?;
        env.storage.max_unique_investors_cap = Some(new_cap);
        env.publish(
            Event::MaxUniqueInvestorsCapLowered(
                MaxUniqueInvestorsCapLowered {
                    name: "inv_cap",
                    invoice_id: escrow.invoice_id,
                    old_cap,
                    new_cap,
                },
            ),
        );
        Ok(new_cap)
    }

    /// Raises the cap on distinct investors of an open escrow.
    pub fn raise_max_unique_investors(env: &mut ContractEnv, new_cap: u32) -> (r: Result<
        u32,
        Refusal,
    >)
        ensures
            outcome(
                raise_cap_refusal(old(env)@, new_cap),
                old(env)@,
                raise_cap_post(old(env)@, new_cap),
                new_cap,
                r,
                final(env)@,
            ),
    {
        let escrow = Self::load_escrow_require_admin(env)?;
        require_funding_open(escrow.status)?;
        let old_cap: u32 = match env.storage.max_unique_investors_cap {
            Some(cap) => cap,
            None => {
                return Err(Refusal::Error(EscrowError::NoInvestorCapConfigured));
            },
        };
        ensure(new_cap > old_cap, EscrowError::NewCapNotHigher)?;
        env.storage.max_unique_investors_cap = Some(new_cap);
        env.publish(
            Event::MaxUniqueInvestorsCapRaised(
                MaxUniqueInvestorsCapRaised {
                    name: "raise_cap",
                    invoice_id: escrow.invoice_id,
                    old_cap,
                    new_cap,
                },
            ),
        );
        Ok(new_cap)
    }

    /// Lowers the least deposit of an open escrow.
    pub fn lower_min_contribution_floor(env: &mut ContractEnv, new_floor: i128) -> (r: Result<
        i128,
        Refusal,
    >)
        ensures
            outcome(
                lower_floor_refusal(old(env)@, new_floor),
                old(env)@,
                lower_floor_post(old(env)@, new_floor),
                new_floor,
                r,
                final(env)@,
            ),
    {
        let escrow = Self::load_escrow_require_admin(env)?;
        guard_status_eq(escrow.status, STATUS_OPEN, EscrowError::FloorLowerNotOpen)?;
        ensure(new_floor > 0, EscrowError::NewFloorNotPositive)?;
        let old_floor: i128 = env.storage.min_contribution_floor.unwrap_or(0);
        ensure(new_floor < old_floor, EscrowError::NewFloorNotLower)?;
        env.storage.min_contribution_floor = Some(new_floor);
        env.publish(
            Event::MinContributionFloorLowered(
                MinContributionFloorLowered {
                    name: "floor_lo",
                    invoice_id: escrow.invoice_id,
                    old_floor,
                    new_floor,
                },
            ),
        );
        Ok(new_floor)
    }

    /// Raises the cap on one investor's principal of an open escrow.
    pub fn raise_max_per_investor(env: &mut ContractEnv, new_cap: i128) -> (r: Result<
        i128,
        Refusal,
    >)
        ensures
            outcome(
                raise_per_investor_refusal(old(env)@, new_cap),
                old(env)@,
                raise_per_investor_post(old(env)@, new_cap),
                new_cap,
                r,
                final(env)@,
            ),
    {
        let escrow = Self::load_escrow_require_admin(env)?;
        guard_status_eq(escrow.status, STATUS_OPEN, EscrowError::CapLowerNotOpen)?;
        let old_cap: i128 = match env.storage.max_per_investor_cap {
            Some(cap) => cap,
            None => {
                return Err(Refusal::Error(EscrowError::MaxPerInvestorCapNotConfigured));
            },
        };
        ensure(new_cap > old_cap, EscrowError::MaxPerInvestorCapNotRaised)?;
        env.storage.max_per_investor_cap = Some(new_cap);
        env.publish(
            Event::MaxPerInvestorCapRaised(
                MaxPerInvestorCapRaised {
                    name: "inv_cap",
                    invoice_id: escrow.invoice_id,
                    old_cap,
                    new_cap,
                },
            ),
        );
        Ok(new_cap)
    }

    /// Changes the maturity of an open escrow; `0` removes it.
    pub fn update_maturity(env: &mut ContractEnv, new_maturity: u64) -> (r: Result<
        InvoiceEscrow,
        Refusal,
    >)
        ensures
            outcome(
                update_maturity_refusal(old(env)@, new_maturity),
                old(env)@,
                update_maturity_post(old(env)@, new_maturity),
                rescheduled(old(env)@.storage, new_maturity),
                r,
                final(env)@,
            ),
    {
        let mut escrow = Self::load_escrow_require_admin(env)?;
        guard_status_eq(escrow.status, STATUS_OPEN, EscrowError::MaturityUpdateNotOpen)?;
        ensure(new_maturity != escrow.maturity, EscrowError::MaturityUnchanged)?;
        let horizon: u64 = Self::get_maturity_max_horizon(env);
        validate_maturity_bounds(env.ledger.timestamp, new_maturity, horizon)?;
        let old_maturity: u64 = escrow.maturity;
        escrow.maturity = new_maturity;
        env.storage.escrow = Some(escrow);
        env.publish(
            Event::MaturityUpdatedEvent(
                MaturityUpdatedEvent {
                    name: "maturity",
                    invoice_id: escrow.invoice_id,
                    old_maturity,
                    new_maturity,
                },
            ),
        );
        Ok(escrow)
    }

    /// The furthest maturity from now, in seconds.
    pub fn get_maturity_max_horizon(env: &ContractEnv) -> (r: u64)
        ensures
            r == max_horizon(env@.storage),
    {
        env.storage.maturity_max_horizon.unwrap_or(DEFAULT_MATURITY_MAX_HORIZON_SECS)
    }

    /// Changes the horizon for maturities set from now on.
    pub fn update_maturity_max_horizon(env: &mut ContractEnv, new_horizon: u64) -> (r: Result<
        u64,
        Refusal,
    >)
        ensures
            outcome(
                old(env)@.admin_refusal(),
                old(env)@,
                update_horizon_post(old(env)@, new_horizon),
                new_horizon,
                r,
                final(env)@,
            ),
    {
        let escrow = Self::load_escrow_require_admin(env)?;
        let old_horizon: u64 = Self::get_maturity_max_horizon(env);
        env.storage.maturity_max_horizon = Some(new_horizon);
        env.publish(
            Event::MaturityMaxHorizonUpdated(
                MaturityMaxHorizonUpdated {
                    name: "mtry_max",
                    invoice_id: escrow.invoice_id,
                    old_horizon,
                    new_horizon,
                },
            ),
        );
        Ok(new_horizon)
    }

    /// Raises the horizon for maturities set from now on.
    pub fn raise_maturity_max_horizon(env: &mut ContractEnv, new_horizon: u64) -> (r: Result<
        u64,
        Refusal,
    >)
        ensures
            outcome(
                raise_horizon_refusal(old(env)@, new_horizon),
                old(env)@,
                raise_horizon_post(old(env)@, new_horizon),
                new_horizon,
                r,
                final(env)@,
            ),
    {
        let escrow = Self::load_escrow_require_admin(env)?;
        let old_horizon: u64 = Self::get_maturity_max_horizon(env);
        ensure(new_horizon > old_horizon, EscrowError::HorizonNotRaised)?;
        env.storage.maturity_max_horizon = Some(new_horizon);
        env.publish(
            Event::MaturityMaxHorizonRaised(
                MaturityMaxHorizonRaised {
                    name: "mtry_rse",
                    invoice_id: escrow.invoice_id,
                    old_horizon,
                    new_horizon,
                },
            ),
        );
        Ok(new_horizon)
    }
}

} // verus!
