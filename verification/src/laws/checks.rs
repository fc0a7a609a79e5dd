//! What the checks let through.
use crate::errors::{EscrowError, Refusal};
use crate::external_calls::{check_balance_deltas, check_transfer};
use crate::guards::{
    ensure, flag_of, guard_status_eq, guard_status_in, require_funding_open, saturating_add,
    saturating_sub, validate_maturity_bounds,
};
use crate::invoice_id::{check_invoice_id, invoice_id_fault, validate_invoice_id};
use crate::laws::deposits::{lemma_ladder_is_accepted, tier_fits};
use crate::laws::money::is_amount;
use crate::laws::phases::maturity_stands;
use crate::tiers::{tier_table_fault, tier_table_view, validate_yield_tiers_table};
use crate::types::YieldTier;
use crate::values::Sym;
use vstd::prelude::*;

verus! {

/// A condition that holds passes; one that does not is refused with the error that goes with it.
pub proof fn lemma_conditions_are_checked(
    condition: bool,
    status: u32,
    expected: u32,
    error: EscrowError,
    held: Result<(), Refusal>,
    equal: Result<(), Refusal>,
    open: Result<(), Refusal>,
)
    requires
        call_ensures(ensure, (condition, error), held),
        call_ensures(guard_status_eq, (status, expected, error), equal),
        call_ensures(require_funding_open, (status,), open),
    ensures
        held is Ok <==> condition,
        held matches Err(why) ==> why == Refusal::Error(error),
        equal is Ok <==> status == expected,
        equal matches Err(why) ==> why == Refusal::Error(error),
        open is Ok <==> status == 0,
        open matches Err(why) ==> why == Refusal::Error(EscrowError::EscrowNotOpenForFunding),
{
}

/// A status passes where it is one of those that are expected.
pub proof fn lemma_statuses_are_checked(
    status: u32,
    expected: &[u32],
    error: EscrowError,
    r: Result<(), Refusal>,
)
    requires
        call_ensures(guard_status_in, (status, expected, error), r),
    ensures
        r is Ok <==> exists|i: int| 0 <= i < expected@.len() && expected@[i] == status,
        r matches Err(why) ==> why == Refusal::Error(error),
{
}

/// A maturity passes where there is none, or where it is neither past nor beyond the horizon.
pub proof fn lemma_maturity_is_checked(
    now: u64,
    maturity: u64,
    horizon: u64,
    r: Result<(), Refusal>,
)
    requires
        call_ensures(validate_maturity_bounds, (now, maturity, horizon), r),
    ensures
        r is Ok <==> maturity_stands(now, maturity, horizon),
        r matches Err(why) ==> why == Refusal::Error(
            if maturity < now {
                EscrowError::MaturityInPast
            } else {
                EscrowError::MaturityExceedsMaxHorizon
            },
        ),
{
}

/// A ladder passes where every tier fits onto the ones below it; otherwise its fault is named.
pub proof fn lemma_ladder_is_checked(
    tiers: &Option<Vec<YieldTier>>,
    base_yield: i64,
    r: Result<(), Refusal>,
)
    requires
        call_ensures(validate_yield_tiers_table, (tiers, base_yield), r),
    ensures
        *tiers is None ==> r is Ok,
        *tiers matches Some(ladder) ==> (r is Ok <==> forall|i: int|
            #![trigger ladder@[i]]
            0 <= i < ladder@.len() ==> tier_fits(ladder@, base_yield, i)),
        r matches Err(why) ==> tier_table_fault(tier_table_view(*tiers), base_yield) matches Some(
            fault,
        ) && why == Refusal::Error(fault),
{
    lemma_ladder_is_accepted(tier_table_view(*tiers), base_yield);
}

/// An identifier passes where nothing is wrong with it, and gives the symbol with the same text.
pub proof fn lemma_identifier_is_checked(
    id: &[u8],
    r: Result<(), Refusal>,
    symbol: Result<Sym, Refusal>,
)
    requires
        call_ensures(check_invoice_id, (id,), r),
        call_ensures(validate_invoice_id, (id,), symbol),
    ensures
        r is Ok <==> invoice_id_fault(id@) is None,
        r matches Err(why) ==> invoice_id_fault(id@) matches Some(fault) && why == Refusal::Error(
            fault,
        ),
        symbol is Ok <==> r is Ok,
        symbol matches Err(why) ==> r == Err::<(), Refusal>(why),
{
}

/// A transfer passes where it moves something that the sender has. It was made as asked where the
/// sender lost the amount and the recipient gained it.
pub proof fn lemma_transfers_are_checked(
    amount: i128,
    from_before: i128,
    from_after: i128,
    to_before: i128,
    to_after: i128,
    asked: Result<(), Refusal>,
    made: Result<(), Refusal>,
)
    requires
        call_ensures(check_transfer, (amount, from_before), asked),
        call_ensures(
            check_balance_deltas,
            (amount, from_before, from_after, to_before, to_after),
            made,
        ),
    ensures
        asked is Ok <==> 0 < amount <= from_before,
        made is Ok <==> from_before - from_after == amount && to_after - to_before == amount,
{
}

/// A sum or difference is exact where it is an amount, and else the nearest one. A flag is one where
/// it is on and zero where it is off.
pub proof fn lemma_amounts_saturate(a: i128, b: i128, sum: i128, rest: i128, on: bool, flag: u32)
    requires
        call_ensures(saturating_add, (a, b), sum),
        call_ensures(saturating_sub, (a, b), rest),
        call_ensures(flag_of, (on,), flag),
    ensures
        is_amount(a + b) ==> sum == a + b,
        a + b > i128::MAX ==> sum == i128::MAX,
        a + b < i128::MIN ==> sum == i128::MIN,
        is_amount(a - b) ==> rest == a - b,
        a - b > i128::MAX ==> rest == i128::MAX,
        a - b < i128::MIN ==> rest == i128::MIN,
        on ==> flag == 1,
        !on ==> flag == 0,
{
}

} // verus!
