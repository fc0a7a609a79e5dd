//! The ladder of yield tiers.
use crate::errors::{EscrowError, Refusal};
use crate::guards::{ensure, unless};
use crate::types::{YieldTier, MAX_YIELD_BPS};
use vstd::prelude::*;

verus! {

/// What is wrong with tier `i`: its yield lies outside the bounds, its lock does not exceed the
/// previous tier's, or its yield falls below the previous tier's.
pub open spec fn tier_fault(tiers: Seq<YieldTier>, i: int, base_yield: i64) -> Option<EscrowError> {
    if !(0 <= tiers[i].yield_bps <= MAX_YIELD_BPS) {
        Some(EscrowError::TierYieldOutOfRange)
    } else if tiers[i].yield_bps < base_yield {
        Some(EscrowError::TierYieldBelowBase)
    } else if i > 0 && tiers[i].min_lock_secs <= tiers[i - 1].min_lock_secs {
        Some(EscrowError::TierLockNotIncreasing)
    } else if i > 0 && tiers[i].yield_bps < tiers[i - 1].yield_bps {
        Some(EscrowError::TierYieldNotNonDecreasing)
    } else {
        None
    }
}

/// The first fault among the first `n` tiers.
pub open spec fn first_tier_fault(tiers: Seq<YieldTier>, base_yield: i64, n: nat) -> Option<
    EscrowError,
>
    decreases n,
{
    if n == 0 {
        None
    } else {
        match first_tier_fault(tiers, base_yield, (n - 1) as nat) {
            Some(error) => Some(error),
            None => tier_fault(tiers, n - 1, base_yield),
        }
    }
}

/// The first fault of an optional tier table.
pub open spec fn tier_table_fault(tiers: Option<Seq<YieldTier>>, base_yield: i64) -> Option<
    EscrowError,
> {
    match tiers {
        None => None,
        Some(tiers) => first_tier_fault(tiers, base_yield, tiers.len()),
    }
}

/// The view of an optional tier table.
pub open spec fn tier_table_view(tiers: Option<Vec<YieldTier>>) -> Option<Seq<YieldTier>> {
    match tiers {
        Some(tiers) => Some(tiers@),
        None => None,
    }
}

proof fn lemma_fault_stays(tiers: Seq<YieldTier>, base_yield: i64, n: nat, m: nat)
    requires
        n <= m,
        first_tier_fault(tiers, base_yield, n) is Some,
    ensures
        first_tier_fault(tiers, base_yield, m) == first_tier_fault(tiers, base_yield, n),
    decreases m,
{
    if n < m {
        lemma_fault_stays(tiers, base_yield, n, (m - 1) as nat);
    }
}

/// Refuses a tier table with a fault.
pub fn validate_yield_tiers_table(tiers: &Option<Vec<YieldTier>>, base_yield: i64) -> (r: Result<
    (),
    Refusal,
>)
    ensures
        r == unless(tier_table_fault(tier_table_view(*tiers), base_yield)),
{
    let table = match tiers {
        Some(table) => table,
        None => {
            return Ok(());
        },
    };
    let mut i: usize = 0;
    while i < table.len()
        invariant
            i <= table.len(),
            tier_table_view(*tiers) == Some(table@),
            first_tier_fault(table@, base_yield, i as nat) is None,
        decreases table.len() - i,
    {
        let t = table[i];
        proof {
            if tier_fault(table@, i as int, base_yield) is Some {
                lemma_fault_stays(table@, base_yield, (i + 1) as nat, table@.len());
            }
        }
        ensure(0 <= t.yield_bps && t.yield_bps <= MAX_YIELD_BPS, EscrowError::TierYieldOutOfRange)?;
        ensure(t.yield_bps >= base_yield, EscrowError::TierYieldBelowBase)?;
        if i > 0 {
            let p = table[i - 1];
            ensure(t.min_lock_secs > p.min_lock_secs, EscrowError::TierLockNotIncreasing)?;
            ensure(t.yield_bps >= p.yield_bps, EscrowError::TierYieldNotNonDecreasing)?;
        }
        i += 1;
    }
    Ok(())
}

/// The best offer among the first `n` tiers for a lock: yield and the lock that it asks for. The
/// base yield, which asks for none, stands where no tier beats it.
pub open spec fn best_tier(tiers: Seq<YieldTier>, base_yield: i64, lock: u64, n: nat) -> (i64, u64)
    decreases n,
{
    if n == 0 {
        (base_yield, 0)
    } else {
        let best = best_tier(tiers, base_yield, lock, (n - 1) as nat);
        let tier = tiers[n - 1];
        if lock >= tier.min_lock_secs && tier.yield_bps > best.0 {
            (tier.yield_bps, tier.min_lock_secs)
        } else {
            best
        }
    }
}

/// Yield and matched lock for a commitment of `lock` seconds.
pub open spec fn commitment_yield(
    tiers: Option<Seq<YieldTier>>,
    base_yield: i64,
    lock: u64,
) -> (i64, u64) {
    match tiers {
        Some(tiers) if lock > 0 => best_tier(tiers, base_yield, lock, tiers.len()),
        _ => (base_yield, 0),
    }
}

/// Yield and matched lock for a commitment of `committed_lock_secs`.
pub fn effective_yield_for_commitment(
    tiers: &Option<Vec<YieldTier>>,
    base_yield: i64,
    committed_lock_secs: u64,
) -> (r: (i64, u64))
    ensures
        r == commitment_yield(tier_table_view(*tiers), base_yield, committed_lock_secs),
{
    if committed_lock_secs == 0 {
        return (base_yield, 0);
    }
    let tiers = match tiers {
        Some(tiers) => tiers,
        None => {
            return (base_yield, 0);
        },
    };
    let mut best: i64 = base_yield;
    let mut best_lock: u64 = 0;
    let mut i: usize = 0;
    while i < tiers.len()
        invariant
            i <= tiers.len(),
            (best, best_lock) == best_tier(tiers@, base_yield, committed_lock_secs, i as nat),
        decreases tiers.len() - i,
    {
        let t = tiers[i];
        if committed_lock_secs >= t.min_lock_secs && t.yield_bps > best {
            best = t.yield_bps;
            best_lock = t.min_lock_secs;
        }
        i += 1;
    }
    (best, best_lock)
}

/// An accepted ladder rises: later tiers ask for strictly longer locks and pay no less, and all
/// pay between the base yield and the maximum.
pub proof fn lemma_accepted_ladder_rises(tiers: Seq<YieldTier>, base_yield: i64, n: nat)
    requires
        first_tier_fault(tiers, base_yield, n) is None,
        n <= tiers.len(),
    ensures
        forall|i: int|
            0 <= i < n ==> base_yield <= (#[trigger] tiers[i]).yield_bps <= MAX_YIELD_BPS
                && tiers[i].yield_bps >= 0,
        forall|i: int, j: int|
            0 <= i < j < n ==> (#[trigger] tiers[i]).min_lock_secs < (
            #[trigger] tiers[j]).min_lock_secs && tiers[i].yield_bps <= tiers[j].yield_bps,
    decreases n,
{
    if n > 0 {
        lemma_accepted_ladder_rises(tiers, base_yield, (n - 1) as nat);
        assert(tier_fault(tiers, n - 1, base_yield) is None);
        assert forall|i: int, j: int| 0 <= i < j < n implies (
        #[trigger] tiers[i]).min_lock_secs < (#[trigger] tiers[j]).min_lock_secs
            && tiers[i].yield_bps <= tiers[j].yield_bps by {
            if j == n - 1 && i < n - 2 {
                assert(tiers[i].min_lock_secs < tiers[n - 2].min_lock_secs);
            }
        }
    }
}

/// The chosen yield is the highest that the commitment qualifies for: no qualifying tier pays
/// more, it never falls below the base yield, and it comes with the lock of the first qualifying
/// tier that pays it, or with lock 0 where the base yield stands.
pub proof fn lemma_best_tier_is_highest(tiers: Seq<YieldTier>, base_yield: i64, lock: u64, n: nat)
    requires
        n <= tiers.len(),
    ensures
        ({
            let (best, best_lock) = best_tier(tiers, base_yield, lock, n);
            &&& best >= base_yield
            &&& best_lock <= lock
            &&& forall|i: int|
                0 <= i < n && lock >= (#[trigger] tiers[i]).min_lock_secs ==> tiers[i].yield_bps
                    <= best
            &&& best == base_yield ==> best_lock == 0
            &&& best > base_yield ==> exists|i: int|
                {
                    &&& 0 <= i < n
                    &&& lock >= (#[trigger] tiers[i]).min_lock_secs
                    &&& tiers[i] == (YieldTier { min_lock_secs: best_lock, yield_bps: best })
                    &&& forall|j: int|
                        0 <= j < i && lock >= (#[trigger] tiers[j]).min_lock_secs
                            ==> tiers[j].yield_bps < best
                }
        }),
    decreases n,
{
    if n > 0 {
        lemma_best_tier_is_highest(tiers, base_yield, lock, (n - 1) as nat);
        let before = best_tier(tiers, base_yield, lock, (n - 1) as nat);
        let (best, best_lock) = best_tier(tiers, base_yield, lock, n);
        let tier = tiers[n - 1];
        if lock >= tier.min_lock_secs && tier.yield_bps > before.0 {
            assert(tiers[n - 1] == (YieldTier { min_lock_secs: best_lock, yield_bps: best }));
        } else if best > base_yield {
            let i = choose|i: int|
                {
                    &&& 0 <= i < n - 1
                    &&& lock >= (#[trigger] tiers[i]).min_lock_secs
                    &&& tiers[i] == (YieldTier { min_lock_secs: best_lock, yield_bps: best })
                    &&& forall|j: int|
                        0 <= j < i && lock >= (#[trigger] tiers[j]).min_lock_secs
                            ==> tiers[j].yield_bps < best
                };
            assert(0 <= i < n && lock >= tiers[i].min_lock_secs);
        }
    }
}

/// A longer commitment never earns a lower yield.
pub proof fn lemma_longer_lock_pays_no_less(
    tiers: Option<Seq<YieldTier>>,
    base_yield: i64,
    shorter: u64,
    longer: u64,
)
    requires
        shorter <= longer,
    ensures
        commitment_yield(tiers, base_yield, shorter).0 <= commitment_yield(
            tiers,
            base_yield,
            longer,
        ).0,
{
    if tiers is Some {
        let tiers = tiers->0;
        lemma_best_tier_is_highest(tiers, base_yield, longer, tiers.len());
        lemma_best_tier_is_highest(tiers, base_yield, shorter, tiers.len());
    }
}

} // verus!
