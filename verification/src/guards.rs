//! Checks shared by the entrypoints.
use crate::errors::{EscrowError, Refusal};
use crate::types::STATUS_OPEN;
use vstd::prelude::*;

verus! {

/// `Ok` where there is no fault, and the refusal by it where there is one.
pub open spec fn unless(fault: Option<EscrowError>) -> Result<(), Refusal> {
    match fault {
        None => Ok(()),
        Some(error) => Err(Refusal::Error(error)),
    }
}

/// Refuses with `error` unless `condition` holds.
pub fn ensure(condition: bool, error: EscrowError) -> (r: Result<(), Refusal>)
    ensures
        r == (if condition {
            Ok::<(), Refusal>(())
        } else {
            Err(Refusal::Error(error))
        }),
{
    if condition {
        Ok(())
    } else {
        Err(Refusal::Error(error))
    }
}

/// Refuses with `err` unless the status is the expected one.
pub fn guard_status_eq(actual: u32, expected: u32, err: EscrowError) -> (r: Result<(), Refusal>)
    ensures
        r == (if actual == expected {
            Ok::<(), Refusal>(())
        } else {
            Err(Refusal::Error(err))
        }),
{
    ensure(actual == expected, err)
}

/// Refuses with `err` unless the status is one of the expected ones.
pub fn guard_status_in(actual: u32, expected: &[u32], err: EscrowError) -> (r: Result<(), Refusal>)
    ensures
        r == (if expected@.contains(actual) {
            Ok::<(), Refusal>(())
        } else {
            Err(Refusal::Error(err))
        }),
{
    let mut found = false;
    let mut i: usize = 0;
    while i < expected.len() && !found
        invariant
            i <= expected.len(),
            found == (exists|j: int| 0 <= j < i && expected@[j] == actual),
        decreases expected.len() - i,
    {
        if actual == expected[i] {
            found = true;
        }
        i += 1;
    }
    ensure(found, err)
}

/// Refuses unless the escrow is in its funding window. Every deposit goes through this gate.
pub fn require_funding_open(status: u32) -> (r: Result<(), Refusal>)
    ensures
        r == (if status == STATUS_OPEN {
            Ok::<(), Refusal>(())
        } else {
            Err(Refusal::Error(EscrowError::EscrowNotOpenForFunding))
        }),
{
    guard_status_eq(status, STATUS_OPEN, EscrowError::EscrowNotOpenForFunding)
}

/// What is wrong with a maturity: `0` is no lock; any other lies neither in the past nor further
/// than the horizon from now.
pub open spec fn maturity_fault(now: u64, maturity: u64, max_horizon: u64) -> Option<EscrowError> {
    if maturity == 0 {
        None
    } else if maturity < now {
        Some(EscrowError::MaturityInPast)
    } else if maturity > now + max_horizon {
        Some(EscrowError::MaturityExceedsMaxHorizon)
    } else {
        None
    }
}

/// Refuses a maturity in the past or beyond the horizon.
pub fn validate_maturity_bounds(now: u64, maturity: u64, max_horizon: u64) -> (r: Result<
    (),
    Refusal,
>)
    ensures
        r == unless(maturity_fault(now, maturity, max_horizon)),
{
    if maturity == 0 {
        return Ok(());
    }
    ensure(maturity >= now, EscrowError::MaturityInPast)?;
    let max_allowed = now.saturating_add(max_horizon);
    ensure(maturity <= max_allowed, EscrowError::MaturityExceedsMaxHorizon)
}

/// `x`, held to the range of `i128`.
pub open spec fn saturated(x: int) -> i128 {
    if x > i128::MAX {
        i128::MAX
    } else if x < i128::MIN {
        i128::MIN
    } else {
        x as i128
    }
}

/// `a + b`, held to the range of `i128`.
pub fn saturating_add(a: i128, b: i128) -> (r: i128)
    ensures
        r == saturated(a + b),
{
    match a.checked_add(b) {
        Some(sum) => sum,
        None => if b > 0 {
            i128::MAX
        } else {
            i128::MIN
        },
    }
}

/// `a - b`, held to the range of `i128`.
pub fn saturating_sub(a: i128, b: i128) -> (r: i128)
    ensures
        r == saturated(a - b),
{
    match a.checked_sub(b) {
        Some(difference) => difference,
        None => if b > 0 {
            i128::MIN
        } else {
            i128::MAX
        },
    }
}

/// `1` for `true`, `0` for `false`.
pub open spec fn flag(on: bool) -> u32 {
    if on {
        1
    } else {
        0
    }
}

/// `on` as a number.
pub fn flag_of(on: bool) -> (r: u32)
    ensures
        r == flag(on),
{
    if on {
        1
    } else {
        0
    }
}

} // verus!
