//! Reads. None of them needs an authorization or changes anything.
use crate::address_map::copy_items;
use crate::allowlist::{page, page_end};
use crate::contract::LiquifactEscrow;
use crate::env::{ContractEnv, StorageView};
use crate::errors::{EscrowError, Refusal};
use crate::guards::{ensure, saturated, saturating_sub};
use crate::settlement::investor_yield;
use crate::tiers::{commitment_yield, effective_yield_for_commitment};
use crate::types::{
    CollateralCommitmentSnapshot, EscrowCloseSnapshot, EscrowSummary, FundingCloseSnapshot,
    InvoiceEscrow, YieldTier, MAX_CONTRIBUTIONS_BATCH,
};
use crate::values::Address;
use vstd::prelude::*;

verus! {

/// `value`, or the refusal where there is no escrow.
pub open spec fn if_initialized<T>(s: StorageView, value: T) -> Result<T, Refusal> {
    if s.escrow is Some {
        Ok(value)
    } else {
        Err(Refusal::Error(EscrowError::EscrowNotInitialized))
    }
}

/// What is missing to the funding target.
pub open spec fn remaining_capacity(escrow: InvoiceEscrow) -> i128 {
    if escrow.funded_amount >= escrow.funding_target {
        0
    } else {
        saturated(escrow.funding_target - escrow.funded_amount)
    }
}

/// How many more distinct investors may come.
pub open spec fn remaining_slots(s: StorageView) -> Option<u32> {
    match s.max_unique_investors_cap {
        Some(cap) => Some(
            if cap >= s.funders() {
                (cap - s.funders()) as u32
            } else {
                0
            },
        ),
        None => None,
    }
}

/// The escrow and what surrounds it.
pub open spec fn summary(s: StorageView) -> EscrowSummary {
    EscrowSummary {
        escrow: s.escrow->0,
        has_maturity_lock: s.escrow->0.maturity > 0,
        legal_hold: s.hold_active(),
        funding_close_snapshot: match s.funding_close_snapshot {
            Some(snapshot) => EscrowCloseSnapshot::Present(snapshot),
            None => EscrowCloseSnapshot::Absent,
        },
        unique_funder_count: s.funders(),
        is_allowlist_active: s.allowlist_on(),
        schema_version: s.schema(),
        sme_collateral_commitment: match s.sme_collateral_pledge {
            Some(commitment) => CollateralCommitmentSnapshot::Present(commitment),
            None => CollateralCommitmentSnapshot::Absent,
        },
        has_primary_attestation: s.primary_attestation_hash is Some,
        attestation_log_length: s.attestation_append_log.len() as u32,
    }
}

impl LiquifactEscrow {
    /// What is missing to the funding target; `0` once it is reached.
    pub fn get_remaining_funding_capacity(env: &ContractEnv) -> (r: Result<i128, Refusal>)
        ensures
            r == if_initialized(env@.storage, remaining_capacity(env@.storage.escrow->0)),
    {
        let escrow = Self::get_escrow(env)?;
        let missing: i128 = saturating_sub(escrow.funding_target, escrow.funded_amount);
        if missing > 0 {
            Ok(missing)
        } else {
            Ok(0)
        }
    }

    /// The funding token.
    pub fn get_funding_token(env: &ContractEnv) -> (r: Result<Address, Refusal>)
        ensures
            r == (match env@.storage.funding_token {
                Some(token) => Ok::<Address, Refusal>(token),
                None => Err(Refusal::Error(EscrowError::FundingTokenNotSet)),
            }),
    {
        Self::funding_token_or_fail(env)
    }

    /// The treasury.
    pub fn get_treasury(env: &ContractEnv) -> (r: Result<Address, Refusal>)
        ensures
            r == (match env@.storage.treasury {
                Some(treasury) => Ok::<Address, Refusal>(treasury),
                None => Err(Refusal::Error(EscrowError::TreasuryNotSet)),
            }),
    {
        Self::treasury_or_fail(env)
    }

    /// Whether settlement waits for a maturity.
    pub fn has_maturity_lock(env: &ContractEnv) -> (r: Result<bool, Refusal>)
        ensures
            r == if_initialized(env@.storage, env@.storage.escrow->0.maturity > 0),
    {
        let escrow = Self::get_escrow(env)?;
        Ok(escrow.maturity > 0)
    }

    /// The stored schema version; `0` where none is stored.
    pub fn get_version(env: &ContractEnv) -> (r: u32)
        ensures
            r == env@.storage.schema(),
    {
        env.storage.version.unwrap_or(0)
    }

    /// The last timestamp at which a deposit is accepted.
    pub fn get_funding_deadline(env: &ContractEnv) -> (r: Option<u64>)
        ensures
            r == env@.storage.funding_deadline,
    {
        env.storage.funding_deadline
    }

    /// Whether the funding deadline has passed.
    pub fn is_funding_expired(env: &ContractEnv) -> (r: bool)
        ensures
            r == (env@.storage.funding_deadline is Some && env@.ledger.timestamp
                > env@.storage.funding_deadline->0),
    {
        match env.storage.funding_deadline {
            Some(deadline) => env.ledger.timestamp > deadline,
            None => false,
        }
    }

    /// Least amount of one deposit; `0` is no floor.
    pub fn get_min_contribution_floor(env: &ContractEnv) -> (r: i128)
        ensures
            r == env@.storage.floor(),
    {
        env.storage.min_contribution_floor.unwrap_or(0)
    }

    /// Most distinct investors; `None` is unlimited.
    pub fn get_max_unique_investors_cap(env: &ContractEnv) -> (r: Option<u32>)
        ensures
            r == env@.storage.max_unique_investors_cap,
    {
        env.storage.max_unique_investors_cap
    }

    /// Most principal of one investor; `None` is unlimited.
    pub fn get_max_per_investor_cap(env: &ContractEnv) -> (r: Option<i128>)
        ensures
            r == env@.storage.max_per_investor_cap,
    {
        env.storage.max_per_investor_cap
    }

    /// Distinct investors so far.
    pub fn get_unique_funder_count(env: &ContractEnv) -> (r: u32)
        ensures
            r == env@.storage.funders(),
    {
        env.storage.unique_funder_count.unwrap_or(0)
    }

    /// How many more distinct investors may come; `None` is unlimited.
    pub fn get_remaining_investor_slots(env: &ContractEnv) -> (r: Option<u32>)
        ensures
            r == remaining_slots(env@.storage),
    {
        match env.storage.max_unique_investors_cap {
            Some(cap) => {
                let count: u32 = Self::get_unique_funder_count(env);
                Some(cap.saturating_sub(count))
            },
            None => None,
        }
    }

    /// The escrow and what surrounds it, in one read.
    pub fn get_escrow_summary(env: &ContractEnv) -> (r: Result<EscrowSummary, Refusal>)
        requires
            env@.storage.attestation_append_log.len() <= u32::MAX,
        ensures
            r == if_initialized(env@.storage, summary(env@.storage)),
    {
        let escrow = Self::get_escrow(env)?;
        let has_maturity_lock = Self::has_maturity_lock(env)?;
        let funding_close_snapshot = match Self::get_funding_close_snapshot(env) {
            Some(snapshot) => EscrowCloseSnapshot::Present(snapshot),
            None => EscrowCloseSnapshot::Absent,
        };
        let sme_collateral_commitment = match Self::get_sme_collateral_commitment(env) {
            Some(commitment) => CollateralCommitmentSnapshot::Present(commitment),
            None => CollateralCommitmentSnapshot::Absent,
        };
        Ok(
            EscrowSummary {
                escrow,
                has_maturity_lock,
                legal_hold: Self::get_legal_hold(env),
                funding_close_snapshot,
                unique_funder_count: Self::get_unique_funder_count(env),
                is_allowlist_active: Self::is_allowlist_active(env),
                schema_version: Self::get_version(env),
                sme_collateral_commitment,
                has_primary_attestation: Self::get_primary_attestation_hash(env).is_some(),
                attestation_log_length: env.storage.attestation_append_log.len() as u32,
            },
        )
    }

    /// Principal recorded for `investor`.
    pub fn get_contribution(env: &ContractEnv, investor: Address) -> (r: i128)
        ensures
            r == env@.storage.contribution(investor),
    {
        env.storage.investor_contribution.get(investor).unwrap_or(0)
    }

    /// Principal recorded for each of `addresses`, in their order.
    pub fn get_contributions(env: &ContractEnv, addresses: &Vec<Address>) -> (r: Result<
        Vec<i128>,
        Refusal,
    >)
        ensures
            match r {
                Ok(amounts) => {
                    &&& addresses@.len() <= MAX_CONTRIBUTIONS_BATCH
                    &&& amounts@ == addresses@.map_values(
                        |investor: Address| env@.storage.contribution(investor),
                    )
                },
                Err(why) => {
                    &&& addresses@.len() > MAX_CONTRIBUTIONS_BATCH
                    &&& why == Refusal::Error(EscrowError::ContributionBatchTooLarge)
                },
            },
    {
        let n: usize = addresses.len();
        ensure(n <= MAX_CONTRIBUTIONS_BATCH as usize, EscrowError::ContributionBatchTooLarge)?;
        let mut amounts: Vec<i128> = Vec::new();
        let mut i: usize = 0;
        while i < n
            invariant
                i <= n == addresses@.len(),
                amounts@.len() == i,
                forall|j: int|
                    0 <= j < i ==> #[trigger] amounts@[j] == env@.storage.contribution(
                        addresses@[j],
                    ),
            decreases n - i,
        {
            amounts.push(Self::get_contribution(env, addresses[i]));
            i += 1;
        }
        assert(amounts@ =~= addresses@.map_values(
            |investor: Address| env@.storage.contribution(investor),
        ));
        Ok(amounts)
    }

    /// Investors in order of their first deposit: the page of at most `limit` (and at most
    /// [`crate::types::MAX_INVESTOR_PAGE`]) from `start`.
    pub fn get_investors(env: &ContractEnv, start: u32, limit: u32) -> (r: Vec<Address>)
        ensures
            r@ == page(env@.storage.investor_index, start, limit),
    {
        let len: usize = env.storage.investor_index.len();
        let end: usize = page_end(len, start, limit);
        let mut result: Vec<Address> = Vec::new();
        let mut i: usize = start as usize;
        while i < end
            invariant
                start <= i <= end,
                len == env@.storage.investor_index.len(),
                start < len ==> end <= len,
                start >= len ==> end == start,
                result@.len() == i - start,
                forall|j: int|
                    0 <= j < result@.len() ==> #[trigger] result@[j]
                        == env@.storage.investor_index[start + j],
            decreases end - i,
        {
            result.push(env.storage.investor_index[i]);
            i += 1;
        }
        assert(result@ =~= page(env@.storage.investor_index, start, limit));
        result
    }

    /// What the escrow held when funding closed; `None` until then.
    pub fn get_funding_close_snapshot(env: &ContractEnv) -> (r: Option<FundingCloseSnapshot>)
        ensures
            r == env@.storage.funding_close_snapshot,
    {
        env.storage.funding_close_snapshot
    }

    /// When the escrow was settled; `None` until then.
    pub fn get_settled_at(env: &ContractEnv) -> (r: Option<u64>)
        ensures
            r == env@.storage.settled_at,
    {
        env.storage.settled_at
    }

    /// The yield of `investor`: the one fixed at the first deposit, or the base yield.
    pub fn get_investor_yield_bps(env: &ContractEnv, investor: Address) -> (r: Result<i64, Refusal>)
        ensures
            r == if_initialized(env@.storage, investor_yield(env@.storage, investor)),
    {
        let escrow = Self::get_escrow(env)?;
        Ok(env.storage.investor_effective_yield.get(investor).unwrap_or(escrow.yield_bps))
    }

    /// Earliest timestamp of `investor`'s claim; `0` is no lock.
    pub fn get_investor_claim_not_before(env: &ContractEnv, investor: Address) -> (r: u64)
        ensures
            r == env@.storage.claim_not_before(investor),
    {
        env.storage.investor_claim_not_before.get(investor).unwrap_or(0)
    }

    /// Whether `investor` has claimed.
    pub fn is_investor_claimed(env: &ContractEnv, investor: Address) -> (r: bool)
        ensures
            r == env@.storage.claimed(investor),
    {
        env.storage.investor_claimed.get(investor).unwrap_or(false)
    }

    /// The yield tiers; empty where there are none.
    pub fn get_yield_tiers(env: &ContractEnv) -> (r: Vec<YieldTier>)
        ensures
            r@ == (match env@.storage.yield_tier_table {
                Some(tiers) => tiers,
                None => Seq::<YieldTier>::empty(),
            }),
    {
        match &env.storage.yield_tier_table {
            Some(tiers) => copy_items(tiers),
            None => Vec::new(),
        }
    }

    /// Yield and matched lock that a first deposit with a commitment of `lock` seconds would get.
    /// The choice does not depend on `_amount`.
    pub fn preview_yield_tier(env: &ContractEnv, _amount: i128, lock: u64) -> (r: Result<
        (i64, u64),
        Refusal,
    >)
        ensures
            r == if_initialized(
                env@.storage,
                commitment_yield(
                    env@.storage.yield_tier_table,
                    env@.storage.escrow->0.yield_bps,
                    lock,
                ),
            ),
    {
        let escrow = Self::get_escrow(env)?;
        Ok(effective_yield_for_commitment(&env.storage.yield_tier_table, escrow.yield_bps, lock))
    }
}

} // verus!
