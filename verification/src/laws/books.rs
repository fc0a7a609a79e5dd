//! What the books say, and how deposits are booked.
use crate::book::total;
use crate::calls::Call;
use crate::env::{refused, EnvView, StorageView};
use crate::errors::{EscrowError, Refusal};
use crate::funding::{
    batch_amount_fault, deposit_amount_fault, deposit_counts, entry_refusal, fund_batch_post,
    fund_batch_refusal, fund_post, fund_refusal, funded_in_turn, lemma_batch_refusal_stays,
    DepositKind,
};
use crate::laws::lifecycle::{
    lemma_deposits_frame, lemma_funded_amount_stays, lemma_snapshot_is_taken_whole,
    lemma_written_once, snapshot_is_whole,
};
use crate::types::{
    FundingCloseSnapshot, MAX_FUND_BATCH, STATUS_CANCELLED, STATUS_FUNDED, STATUS_OPEN,
};
use crate::validity::{lemma_deposit_keeps_validity, valid};
use crate::values::Address;
use vstd::prelude::*;

verus! {

/// The books balance in every state: the investor index lists exactly those who hold a
/// contribution, each once, and is as long as the counter of distinct investors says; the
/// contributions add up to the funded amount; and no cap is exceeded. A cancelled escrow holds what
/// it has not paid back, and the index keeps those who were refunded.
pub proof fn lemma_books_balance(s: StorageView)
    requires
        valid(s),
        s.escrow is Some,
    ensures
        s.investor_index.no_duplicates(),
        s.funders() == s.investor_index.len(),
        s.max_unique_investors_cap matches Some(cap) ==> s.investor_index.len() <= cap,
        s.max_per_investor_cap matches Some(cap) ==> forall|a: Address|
            s.investor_index.contains(a) ==> #[trigger] s.contribution(a) <= cap,
        forall|a: Address| #[trigger]
            s.contribution(a) > 0 || s.refunded(a) <==> s.investor_index.contains(a),
        forall|a: Address| #[trigger] s.contribution(a) >= 0,
        s.escrow->0.status != STATUS_CANCELLED ==> s.escrow->0.funded_amount == total(
            s.investor_contribution,
            s.investor_index,
        ) && forall|a: Address| !#[trigger] s.refunded(a),
        s.escrow->0.status == STATUS_CANCELLED ==> s.escrow->0.funded_amount == total(
            s.investor_contribution,
            s.investor_index,
        ) + s.distributed(),
{
    reveal(valid);
    assert forall|a: Address| #[trigger] s.contribution(a) >= 0 by {
        assert(s.investor_contribution.contains_key(a) ==> s.investor_contribution[a] >= 0);
    }
    assert forall|a: Address| #[trigger]
        s.contribution(a) > 0 || s.refunded(a) <==> s.investor_index.contains(a) by {
        assert(s.investor_contribution.contains_key(a) <==> s.investor_index.contains(a));
        assert(s.refunded(a) ==> s.investor_index.contains(a));
    }
    if let Some(cap) = s.max_per_investor_cap {
        assert forall|a: Address| s.investor_index.contains(a) implies #[trigger] s.contribution(a)
            <= cap by {
            assert(s.investor_contribution.contains_key(a));
        }
    }
}

/// A deposit adds its amount to the investor's contribution and to the funded amount, and to
/// nobody else's contribution. A new investor is appended to the index and counted once; one who
/// had deposited before is not.
pub proof fn lemma_deposit_is_booked(
    e: EnvView,
    investor: Address,
    amount: i128,
    kind: DepositKind,
)
    requires
        valid(e.storage),
        deposit_counts(e, investor, amount, kind),
        fund_refusal(e, investor, amount, kind) is None,
    ensures
        ({
            let old_s = e.storage;
            let s = fund_post(e, investor, amount, kind).storage;
            &&& valid(s)
            &&& s.contribution(investor) == old_s.contribution(investor) + amount
            &&& forall|a: Address|
                a != investor ==> #[trigger] s.contribution(a) == old_s.contribution(a)
            &&& s.escrow->0.funded_amount == old_s.escrow->0.funded_amount + amount
            &&& s.escrow->0.funded_amount == total(s.investor_contribution, s.investor_index)
            &&& old_s.investor_index.contains(investor) ==> s.investor_index == old_s.investor_index
                && s.funders() == old_s.funders()
            &&& !old_s.investor_index.contains(investor) ==> s.investor_index
                == old_s.investor_index.push(investor) && s.funders() == old_s.funders() + 1
        }),
{
    lemma_books_balance(e.storage);
    lemma_deposit_keeps_validity(e, investor, amount, kind, true);
    lemma_books_balance(fund_post(e, investor, amount, kind).storage);
    assert(e.storage.contribution(investor) >= 0);
}

proof fn lemma_amount_fault_stops_batch(e: EnvView, entries: Seq<(Address, i128)>, n: nat)
    requires
        n <= entries.len(),
        e.storage.escrow is Some,
        batch_amount_fault(e.storage, entries, n) is Some,
    ensures
        funded_in_turn(e, entries, n) is Err,
    decreases n,
{
    if n > 0 {
        let rest = (n - 1) as nat;
        if batch_amount_fault(e.storage, entries, rest) is Some {
            lemma_amount_fault_stops_batch(e, entries, rest);
        } else if funded_in_turn(e, entries, rest) is Ok {
            lemma_deposits_frame(e, entries, rest);
            let before = funded_in_turn(e, entries, rest)->Ok_0;
            assert(deposit_amount_fault(before.storage, entries[n - 1].1) == deposit_amount_fault(
                e.storage,
                entries[n - 1].1,
            ));
        }
    }
}

/// The first `n` entries deposited one after the other by calls of their own: the environment after
/// the last of them, or the first refusal.
pub open spec fn funded_by_singles(e: EnvView, entries: Seq<(Address, i128)>, n: nat) -> Result<
    EnvView,
    Refusal,
>
    decreases n,
{
    if n == 0 {
        Ok(e)
    } else {
        match funded_by_singles(e, entries, (n - 1) as nat) {
            Err(why) => Err(why),
            Ok(before) => {
                let (investor, amount) = entries[n - 1];
                match fund_refusal(before, investor, amount, DepositKind::Simple) {
                    Some(why) => Err(why),
                    None => Ok(fund_post(before, investor, amount, DepositKind::Simple)),
                }
            },
        }
    }
}

/// Whether no entry before the last reaches the target.
pub open spec fn only_last_fills(e: EnvView, entries: Seq<(Address, i128)>) -> bool {
    forall|k: nat|
        0 < k < entries.len() && (#[trigger] funded_in_turn(e, entries, k)) is Ok
            ==> funded_in_turn(e, entries, k)->Ok_0.storage.escrow->0.status == STATUS_OPEN
}

proof fn lemma_singles_in_turn(e: EnvView, entries: Seq<(Address, i128)>, n: nat)
    requires
        n <= entries.len(),
        only_last_fills(e, entries),
        e.storage.escrow is Some,
    ensures
        funded_by_singles(e, entries, n) == funded_in_turn(e, entries, n),
    decreases n,
{
    if n > 0 {
        lemma_singles_in_turn(e, entries, (n - 1) as nat);
        if funded_in_turn(e, entries, (n - 1) as nat) is Ok {
            lemma_deposits_frame(e, entries, (n - 1) as nat);
        }
    }
}

/// A batch of allowed size in which no entry before the last reaches the target does what its
/// deposits do one after the other: it is carried out exactly when each of them is, and then with
/// the same result; and when one of them is refused, so is the whole batch.
pub proof fn lemma_batch_equals_singles(e: EnvView, entries: Seq<(Address, i128)>)
    requires
        1 <= entries.len() <= MAX_FUND_BATCH,
        e.storage.escrow is Some,
        only_last_fills(e, entries),
    ensures
        fund_batch_refusal(e, entries) is None <==> funded_by_singles(e, entries, entries.len())
            is Ok,
        fund_batch_refusal(e, entries) is None ==> funded_by_singles(e, entries, entries.len())
            == Ok::<EnvView, Refusal>(fund_batch_post(e, entries)),
{
    lemma_singles_in_turn(e, entries, entries.len());
    lemma_batch_is_deposited_in_turn(e, entries);
}

/// A batch of allowed size is carried out exactly when each of its entries is accepted in its turn;
/// when one of them is refused, so is the whole batch.
pub proof fn lemma_batch_is_deposited_in_turn(e: EnvView, entries: Seq<(Address, i128)>)
    requires
        1 <= entries.len() <= MAX_FUND_BATCH,
        e.storage.escrow is Some,
    ensures
        fund_batch_refusal(e, entries) is None <==> funded_in_turn(e, entries, entries.len()) is Ok,
        forall|k: nat|
            k < entries.len() && (#[trigger] funded_in_turn(e, entries, k)) is Ok && entry_refusal(
                funded_in_turn(e, entries, k)->Ok_0,
                entries[k as int],
                k == 0,
            ) is Some ==> fund_batch_refusal(e, entries) is Some,
{
    if batch_amount_fault(e.storage, entries, entries.len()) is Some {
        lemma_amount_fault_stops_batch(e, entries, entries.len());
    }
    assert forall|k: nat|
        k < entries.len() && (#[trigger] funded_in_turn(e, entries, k)) is Ok && entry_refusal(
            funded_in_turn(e, entries, k)->Ok_0,
            entries[k as int],
            k == 0,
        ) is Some implies fund_batch_refusal(e, entries) is Some by {
        assert(funded_in_turn(e, entries, k + 1) is Err);
        lemma_batch_refusal_stays(e, entries, k + 1, entries.len());
    }
}

proof fn lemma_open_batch_is_not_closed(e: EnvView, entries: Seq<(Address, i128)>, n: nat)
    requires
        e.storage.escrow is Some,
        e.storage.escrow->0.status == STATUS_OPEN,
    ensures
        funded_in_turn(e, entries, n) != Err::<EnvView, Refusal>(
            Refusal::Error(EscrowError::EscrowNotOpenForFunding),
        ),
    decreases n,
{
    if n > 0 {
        lemma_open_batch_is_not_closed(e, entries, (n - 1) as nat);
    }
}

/// Whether the escrow is open is asked once, of the escrow that the batch meets: no entry is refused
/// because one before it reached the target.
pub proof fn lemma_batch_asks_once_for_open(e: EnvView, entries: Seq<(Address, i128)>)
    requires
        e.storage.escrow is Some,
        e.storage.escrow->0.status == STATUS_OPEN,
    ensures
        fund_batch_refusal(e, entries) != refused(EscrowError::EscrowNotOpenForFunding),
{
    lemma_open_batch_is_not_closed(e, entries, entries.len());
    if batch_amount_fault(e.storage, entries, entries.len()) is Some {
        lemma_amount_faults(e.storage, entries, entries.len());
    }
}

proof fn lemma_amount_faults(s: StorageView, entries: Seq<(Address, i128)>, n: nat)
    ensures
        batch_amount_fault(s, entries, n) != Some(EscrowError::EscrowNotOpenForFunding),
    decreases n,
{
    if n > 0 {
        lemma_amount_faults(s, entries, (n - 1) as nat);
    }
}

/// What the first `n` entries amount to.
pub open spec fn amount_sum(entries: Seq<(Address, i128)>, n: nat) -> int
    decreases n,
{
    if n == 0 {
        0
    } else {
        amount_sum(entries, (n - 1) as nat) + entries[n - 1].1
    }
}

/// What the first `n` entries amount to that are `investor`'s.
pub open spec fn amount_sum_of(entries: Seq<(Address, i128)>, n: nat, investor: Address) -> int
    decreases n,
{
    if n == 0 {
        0
    } else {
        amount_sum_of(entries, (n - 1) as nat, investor) + (if entries[n - 1].0 == investor {
            entries[n - 1].1 as int
        } else {
            0
        })
    }
}

/// Every entry of a batch is credited, to the funded amount and to its investor, also those after
/// the one that reached the target.
pub proof fn lemma_batch_credits_every_entry(e: EnvView, entries: Seq<(Address, i128)>, n: nat)
    requires
        n <= entries.len(),
        e.storage.escrow is Some,
        funded_in_turn(e, entries, n) is Ok,
    ensures
        ({
            let s = funded_in_turn(e, entries, n)->Ok_0.storage;
            &&& s.escrow is Some
            &&& s.escrow->0.funded_amount == e.storage.escrow->0.funded_amount + amount_sum(
                entries,
                n,
            )
            &&& forall|a: Address| #[trigger]
                s.contribution(a) == e.storage.contribution(a) + amount_sum_of(entries, n, a)
        }),
    decreases n,
{
    if n > 0 {
        lemma_batch_credits_every_entry(e, entries, (n - 1) as nat);
        let before = funded_in_turn(e, entries, (n - 1) as nat)->Ok_0;
        let after = funded_in_turn(e, entries, n)->Ok_0;
        assert forall|a: Address| #[trigger]
            after.storage.contribution(a) == e.storage.contribution(a) + amount_sum_of(
                entries,
                n,
                a,
            ) by {
            assert(before.storage.contribution(a) == e.storage.contribution(a) + amount_sum_of(
                entries,
                (n - 1) as nat,
                a,
            ));
        }
    }
}

proof fn lemma_filled_stays_filled(e: EnvView, entries: Seq<(Address, i128)>, k: nat, n: nat)
    requires
        0 < k <= n <= entries.len(),
        e.storage.escrow is Some,
        funded_in_turn(e, entries, k) is Ok,
        funded_in_turn(e, entries, k)->Ok_0.storage.escrow->0.status == STATUS_FUNDED,
        funded_in_turn(e, entries, k)->Ok_0.storage.funding_close_snapshot is Some,
        funded_in_turn(e, entries, n) is Ok,
    ensures
        ({
            let filled = funded_in_turn(e, entries, k)->Ok_0.storage;
            let s = funded_in_turn(e, entries, n)->Ok_0.storage;
            &&& s.escrow is Some
            &&& s.escrow->0.status == STATUS_FUNDED
            &&& s.funding_close_snapshot == filled.funding_close_snapshot
        }),
    decreases n,
{
    lemma_deposits_frame(e, entries, k);
    if k < n {
        lemma_filled_stays_filled(e, entries, k, (n - 1) as nat);
    }
}

/// The close snapshot is taken once, by the entry that reaches the target, and with what the escrow
/// holds then. The entries that follow leave it, and the escrow stays funded.
pub proof fn lemma_batch_closes_at_the_target(
    e: EnvView,
    entries: Seq<(Address, i128)>,
    k: nat,
)
    requires
        valid(e.storage),
        0 < k <= entries.len(),
        fund_batch_refusal(e, entries) is None,
        e.storage.escrow->0.funded_amount + amount_sum(entries, (k - 1) as nat)
            < e.storage.escrow->0.funding_target,
        e.storage.escrow->0.funded_amount + amount_sum(entries, k)
            >= e.storage.escrow->0.funding_target,
    ensures
        ({
            let s = fund_batch_post(e, entries).storage;
            &&& s.escrow->0.status == STATUS_FUNDED
            &&& s.escrow->0.funded_amount == e.storage.escrow->0.funded_amount + amount_sum(
                entries,
                entries.len(),
            )
            &&& s.funding_close_snapshot == Some(
                FundingCloseSnapshot {
                    total_principal: (e.storage.escrow->0.funded_amount + amount_sum(
                        entries,
                        k,
                    )) as i128,
                    funding_target: e.storage.escrow->0.funding_target,
                    closed_at_ledger_timestamp: e.ledger.timestamp,
                    closed_at_ledger_sequence: e.ledger.sequence,
                },
            )
        }),
{
    let n = entries.len();
    let before_k = (k - 1) as nat;
    lemma_turns_before_are_ok(e, entries, k, n);
    lemma_turns_before_are_ok(e, entries, before_k, k);
    lemma_deposits_frame(e, entries, n);
    lemma_batch_credits_every_entry(e, entries, before_k);
    lemma_batch_credits_every_entry(e, entries, k);
    lemma_batch_credits_every_entry(e, entries, n);
    lemma_deposits_frame(e, entries, before_k);
    let before = funded_in_turn(e, entries, before_k)->Ok_0;
    lemma_open_until_the_target(e, entries, before_k);
    assert(before.storage.funding_close_snapshot is None);
    lemma_filled_stays_filled(e, entries, k, n);
}

proof fn lemma_turns_before_are_ok(e: EnvView, entries: Seq<(Address, i128)>, k: nat, n: nat)
    requires
        k <= n,
        funded_in_turn(e, entries, n) is Ok,
    ensures
        funded_in_turn(e, entries, k) is Ok,
{
    if funded_in_turn(e, entries, k) is Err {
        lemma_batch_refusal_stays(e, entries, k, n);
    }
}

/// Until the entries reach the target, the escrow stays open and no snapshot is taken.
proof fn lemma_open_until_the_target(e: EnvView, entries: Seq<(Address, i128)>, n: nat)
    requires
        valid(e.storage),
        n <= entries.len(),
        e.storage.escrow is Some,
        e.storage.escrow->0.status == STATUS_OPEN,
        funded_in_turn(e, entries, n) is Ok,
        e.storage.escrow->0.funded_amount + amount_sum(entries, n)
            < e.storage.escrow->0.funding_target,
    ensures
        funded_in_turn(e, entries, n)->Ok_0.storage.escrow->0.status == STATUS_OPEN,
        funded_in_turn(e, entries, n)->Ok_0.storage.funding_close_snapshot is None,
    decreases n,
{
    reveal(valid);
    if n > 0 {
        let rest = (n - 1) as nat;
        assert(entries[n - 1].1 > 0);
        lemma_open_until_the_target(e, entries, rest);
        lemma_batch_credits_every_entry(e, entries, rest);
        lemma_deposits_frame(e, entries, rest);
    }
}

/// As long as no batch goes on after it reached the target, the close snapshot holds the whole
/// funded amount.
pub proof fn lemma_snapshot_is_whole(call: Call, e: EnvView)
    requires
        valid(e.storage),
        e.storage.escrow is Some,
        snapshot_is_whole(e.storage),
        call matches Call::FundBatch(entries) ==> only_last_fills(e, entries),
    ensures
        snapshot_is_whole(call.after(e).storage),
{
    if e.storage.funding_close_snapshot is Some {
        assert(e.storage.escrow->0.status != STATUS_OPEN) by {
            reveal(valid);
        }
        lemma_funded_amount_stays(call, e);
        lemma_written_once(call, e);
    } else if let Call::FundBatch(entries) = call {
        lemma_batch_closes_whole(e, entries);
    } else {
        lemma_snapshot_is_taken_whole(call, e);
    }
}

proof fn lemma_batch_closes_whole(e: EnvView, entries: Seq<(Address, i128)>)
    requires
        e.storage.escrow is Some,
        e.storage.funding_close_snapshot is None,
        only_last_fills(e, entries),
    ensures
        snapshot_is_whole(Call::FundBatch(entries).after(e).storage),
{
    if fund_batch_refusal(e, entries) is None {
        let n = entries.len();
        let rest = (n - 1) as nat;
        lemma_turns_before_are_ok(e, entries, rest, n);
        lemma_deposits_frame(e, entries, rest);
        lemma_no_snapshot_while_open(e, entries, rest);
    }
}

proof fn lemma_no_snapshot_while_open(e: EnvView, entries: Seq<(Address, i128)>, n: nat)
    requires
        n <= entries.len(),
        e.storage.escrow is Some,
        e.storage.funding_close_snapshot is None,
        funded_in_turn(e, entries, n) is Ok,
        n > 0 ==> funded_in_turn(e, entries, n)->Ok_0.storage.escrow->0.status == STATUS_OPEN,
    ensures
        funded_in_turn(e, entries, n)->Ok_0.storage.funding_close_snapshot is None,
    decreases n,
{
    if n > 0 {
        lemma_deposits_frame(e, entries, (n - 1) as nat);
        lemma_no_snapshot_while_open(e, entries, (n - 1) as nat);
    }
}

} // verus!
