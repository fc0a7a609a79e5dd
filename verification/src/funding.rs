//! Deposits.
use crate::contract::LiquifactEscrow;
use crate::env::{
    lookup, outcome, refused, ContractEnv, Effect, EnvView, StorageView, TokenTransfer,
};
use crate::errors::{EscrowError, Refusal};
use crate::events::{EscrowFunded, Event};
use crate::guards::{ensure, require_funding_open};
use crate::tiers::{commitment_yield, effective_yield_for_commitment};
use crate::types::{
    FundingCloseSnapshot, InvoiceEscrow, MAX_FUND_BATCH, STATUS_FUNDED, STATUS_OPEN,
};
use crate::values::Address;
use vstd::pervasive::unreached;
use vstd::prelude::*;

verus! {

/// How a deposit is made.
#[derive(Clone, Copy, Debug, PartialEq, Eq)]
pub enum DepositKind {
    /// Without a commitment.
    Simple,
    /// With a commitment to leave the payout unclaimed for so many seconds.
    Committed(u64),
}

/// What is wrong with the amount of a deposit.
pub open spec fn deposit_amount_fault(s: StorageView, amount: i128) -> Option<EscrowError> {
    if amount <= 0 {
        Some(EscrowError::FundingAmountNotPositive)
    } else if amount < s.floor() {
        Some(EscrowError::FundingBelowMinContribution)
    } else {
        None
    }
}

/// What is wrong with a commitment of `lock` seconds: it is not the investor's first deposit, or
/// the lock would end beyond the clock's range or after maturity.
pub open spec fn commitment_fault(
    e: EnvView,
    escrow: InvoiceEscrow,
    investor: Address,
    lock: u64,
) -> Option<EscrowError> {
    if e.storage.contribution(investor) != 0 {
        Some(EscrowError::TieredSecondDeposit)
    } else if lock > 0 && e.ledger.timestamp + lock > u64::MAX {
        Some(EscrowError::InvestorClaimTimeOverflow)
    } else if lock > 0 && escrow.maturity > 0 && e.ledger.timestamp + lock > escrow.maturity {
        Some(EscrowError::CommitmentLockExceedsMaturity)
    } else {
        None
    }
}

/// What stands in the way of a deposit of a proper amount into `escrow`. Whether the escrow is open
/// is asked where the deposit is `gated`.
pub open spec fn deposit_fault(
    e: EnvView,
    escrow: InvoiceEscrow,
    investor: Address,
    amount: i128,
    kind: DepositKind,
    gated: bool,
) -> Option<EscrowError> {
    let s = e.storage;
    let prev = s.contribution(investor);
    if s.pause_active() {
        Some(EscrowError::PausedBlocksFunding)
    } else if s.hold_active() {
        Some(EscrowError::LegalHoldBlocksFunding)
    } else if gated && escrow.status != STATUS_OPEN {
        Some(EscrowError::EscrowNotOpenForFunding)
    } else if s.funding_deadline is Some && e.ledger.timestamp > s.funding_deadline->0 {
        Some(EscrowError::FundingDeadlinePassed)
    } else if s.allowlist_on() && !s.allowlisted(investor) {
        Some(EscrowError::InvestorNotAllowlisted)
    } else if prev + amount > i128::MAX {
        Some(EscrowError::InvestorContributionOverflow)
    } else if s.max_per_investor_cap is Some && prev + amount > s.max_per_investor_cap->0 {
        Some(EscrowError::InvestorContributionExceedsCap)
    } else if prev == 0 && s.max_unique_investors_cap is Some && s.funders()
        >= s.max_unique_investors_cap->0 {
        Some(EscrowError::UniqueInvestorCapReached)
    } else {
        let commitment = match kind {
            DepositKind::Simple => None,
            DepositKind::Committed(lock) => commitment_fault(e, escrow, investor, lock),
        };
        if commitment is Some {
            commitment
        } else if escrow.funded_amount + amount > i128::MAX {
            Some(EscrowError::FundedAmountOverflow)
        } else if s.funding_token is None {
            Some(EscrowError::FundingTokenNotSet)
        } else {
            None
        }
    }
}

/// Why a deposit is refused, whether or not it is asked if the escrow is open.
pub open spec fn deposit_refusal(
    e: EnvView,
    investor: Address,
    amount: i128,
    kind: DepositKind,
    gated: bool,
) -> Option<Refusal> {
    if !e.has_auth(investor) {
        Some(Refusal::AuthRequired(investor))
    } else {
        match deposit_amount_fault(e.storage, amount) {
            Some(error) => refused(error),
            None => match e.storage.escrow {
                None => refused(EscrowError::EscrowNotInitialized),
                Some(escrow) => match deposit_fault(e, escrow, investor, amount, kind, gated) {
                    Some(error) => refused(error),
                    None => None,
                },
            },
        }
    }
}

/// Why a deposit on its own is refused.
pub open spec fn fund_refusal(
    e: EnvView,
    investor: Address,
    amount: i128,
    kind: DepositKind,
) -> Option<Refusal> {
    deposit_refusal(e, investor, amount, kind, true)
}

/// Why an entry of a batch is refused in its turn. Whether the escrow is open is asked once, before
/// the first entry: those that follow are deposited even where one before them reached the target.
pub open spec fn entry_refusal(e: EnvView, entry: (Address, i128), first: bool) -> Option<
    Refusal,
> {
    deposit_refusal(e, entry.0, entry.1, DepositKind::Simple, first)
}

/// The environment after an entry of a batch.
pub open spec fn entry_post(e: EnvView, entry: (Address, i128)) -> EnvView {
    fund_post(e, entry.0, entry.1, DepositKind::Simple)
}

/// The snapshot taken when funding closes now with what `escrow` holds.
pub open spec fn close_snapshot(e: EnvView, escrow: InvoiceEscrow) -> FundingCloseSnapshot {
    FundingCloseSnapshot {
        total_principal: escrow.funded_amount,
        funding_target: escrow.funding_target,
        closed_at_ledger_timestamp: e.ledger.timestamp,
        closed_at_ledger_sequence: e.ledger.sequence,
    }
}

/// The storage once `escrow` is written and, where no snapshot was taken before, its close
/// snapshot with it.
pub open spec fn closed_storage(e: EnvView, escrow: InvoiceEscrow) -> StorageView {
    StorageView {
        escrow: Some(escrow),
        funding_close_snapshot: match e.storage.funding_close_snapshot {
            Some(snapshot) => Some(snapshot),
            None => Some(close_snapshot(e, escrow)),
        },
        ..e.storage
    }
}

/// The escrow after a deposit: the amount is credited, and an escrow that reaches its target is
/// funded.
pub open spec fn credited(escrow: InvoiceEscrow, amount: i128) -> InvoiceEscrow {
    let funded_amount = (escrow.funded_amount + amount) as i128;
    InvoiceEscrow {
        funded_amount,
        status: if funded_amount >= escrow.funding_target {
            STATUS_FUNDED
        } else {
            escrow.status
        },
        ..escrow
    }
}

/// Yield, matched lock and earliest claim of an investor's first deposit.
pub open spec fn first_terms(e: EnvView, escrow: InvoiceEscrow, kind: DepositKind) -> (
    i64,
    u64,
    u64,
) {
    match kind {
        DepositKind::Simple => (escrow.yield_bps, 0, 0),
        DepositKind::Committed(lock) => {
            let terms = commitment_yield(e.storage.yield_tier_table, escrow.yield_bps, lock);
            (
                terms.0,
                terms.1,
                if lock == 0 {
                    0
                } else {
                    (e.ledger.timestamp + lock) as u64
                },
            )
        },
    }
}

/// The storage after a deposit.
pub open spec fn funded_storage(
    e: EnvView,
    investor: Address,
    amount: i128,
    kind: DepositKind,
) -> StorageView {
    let escrow = credited(e.storage.escrow->0, amount);
    let prev = e.storage.contribution(investor);
    let terms = first_terms(e, e.storage.escrow->0, kind);
    let closed = if escrow.funded_amount >= escrow.funding_target {
        closed_storage(e, escrow)
    } else {
        StorageView { escrow: Some(escrow), ..e.storage }
    };
    let recorded = StorageView {
        investor_contribution: closed.investor_contribution.insert(
            investor,
            (prev + amount) as i128,
        ),
        ..closed
    };
    if prev == 0 {
        StorageView {
            investor_effective_yield: recorded.investor_effective_yield.insert(investor, terms.0),
            investor_claim_not_before: recorded.investor_claim_not_before.insert(investor, terms.2),
            unique_funder_count: Some((recorded.funders() + 1) as u32),
            investor_index: recorded.investor_index.push(investor),
            ..recorded
        }
    } else {
        recorded
    }
}

/// The yield that a deposit earns: that of the first deposit, whenever it was made.
pub open spec fn deposit_yield(e: EnvView, investor: Address, kind: DepositKind) -> i64 {
    let escrow = e.storage.escrow->0;
    if e.storage.contribution(investor) == 0 {
        first_terms(e, escrow, kind).0
    } else {
        lookup(e.storage.investor_effective_yield, investor, escrow.yield_bps)
    }
}

/// The environment after a deposit: the record is updated, the amount is to be moved from the
/// investor to the contract, and the deposit is published.
pub open spec fn fund_post(
    e: EnvView,
    investor: Address,
    amount: i128,
    kind: DepositKind,
) -> EnvView {
    let escrow = credited(e.storage.escrow->0, amount);
    e.with_storage(funded_storage(e, investor, amount, kind)).with_effect(
        Effect::Transfer(
            TokenTransfer {
                token: e.storage.funding_token->0,
                from: investor,
                to: e.contract,
                amount,
            },
        ),
    ).publish(
        Event::EscrowFunded(
            EscrowFunded {
                name: "funded",
                invoice_id: escrow.invoice_id,
                investor,
                amount,
                funded_amount: escrow.funded_amount,
                status: escrow.status,
                investor_effective_yield_bps: deposit_yield(e, investor, kind),
                tier_lock_secs: first_terms(e, escrow, kind).1,
            },
        ),
    )
}

/// The counter of distinct investors can count this one.
pub open spec fn funder_count_fits(s: StorageView, investor: Address) -> bool {
    s.contribution(investor) != 0 || s.funders() < u32::MAX
}

/// Where the deposit is not refused, the counter of distinct investors can count the investor.
pub open spec fn deposit_counts(
    e: EnvView,
    investor: Address,
    amount: i128,
    kind: DepositKind,
) -> bool {
    fund_refusal(e, investor, amount, kind) is Some || funder_count_fits(e.storage, investor)
}

/// Where the entry of a batch is not refused in its turn, the counter of distinct investors can
/// count the investor.
pub open spec fn entry_counts(e: EnvView, entry: (Address, i128), first: bool) -> bool {
    entry_refusal(e, entry, first) is Some || funder_count_fits(e.storage, entry.0)
}

/// The first fault among the amounts of the first `n` entries.
pub open spec fn batch_amount_fault(
    s: StorageView,
    entries: Seq<(Address, i128)>,
    n: nat,
) -> Option<EscrowError>
    decreases n,
{
    if n == 0 {
        None
    } else {
        match batch_amount_fault(s, entries, (n - 1) as nat) {
            Some(error) => Some(error),
            None => deposit_amount_fault(s, entries[n - 1].1),
        }
    }
}

/// The first `n` entries deposited one after the other: the environment after the last of them,
/// or the first refusal.
pub open spec fn funded_in_turn(e: EnvView, entries: Seq<(Address, i128)>, n: nat) -> Result<
    EnvView,
    Refusal,
>
    decreases n,
{
    if n == 0 {
        Ok(e)
    } else {
        match funded_in_turn(e, entries, (n - 1) as nat) {
            Err(why) => Err(why),
            Ok(before) => match entry_refusal(before, entries[n - 1], n == 1) {
                Some(why) => Err(why),
                None => Ok(entry_post(before, entries[n - 1])),
            },
        }
    }
}

/// Why a batch of deposits is refused before any of it is deposited.
pub open spec fn batch_screening(e: EnvView, entries: Seq<(Address, i128)>) -> Option<Refusal> {
    if entries.len() == 0 {
        refused(EscrowError::FundingBatchEmpty)
    } else if entries.len() > MAX_FUND_BATCH {
        refused(EscrowError::FundingBatchTooLarge)
    } else {
        match batch_amount_fault(e.storage, entries, entries.len()) {
            Some(error) => refused(error),
            None => if e.storage.escrow is None {
                refused(EscrowError::EscrowNotInitialized)
            } else {
                None
            },
        }
    }
}

/// Why a batch of deposits is refused.
pub open spec fn fund_batch_refusal(e: EnvView, entries: Seq<(Address, i128)>) -> Option<Refusal> {
    match batch_screening(e, entries) {
        Some(why) => Some(why),
        None => match funded_in_turn(e, entries, entries.len()) {
            Err(why) => Some(why),
            Ok(_) => None,
        },
    }
}

/// The counter of distinct investors can count each of the first `n` entries in its turn.
pub open spec fn entries_count(e: EnvView, entries: Seq<(Address, i128)>, n: nat) -> bool {
    forall|k: nat|
        k < n && (#[trigger] funded_in_turn(e, entries, k)) is Ok ==> entry_counts(
            funded_in_turn(e, entries, k)->Ok_0,
            entries[k as int],
            k == 0,
        )
}

/// The counter of distinct investors can count those of the batch, as far as it is deposited: it
/// has room for every entry, or nothing is deposited, or each new investor is counted in turn.
pub open spec fn batch_counts(e: EnvView, entries: Seq<(Address, i128)>) -> bool {
    ||| e.storage.funders() + entries.len() <= u32::MAX
    ||| batch_screening(e, entries) is Some
    ||| entries_count(e, entries, entries.len())
}

/// The environment after a batch of deposits.
pub open spec fn fund_batch_post(e: EnvView, entries: Seq<(Address, i128)>) -> EnvView {
    funded_in_turn(e, entries, entries.len())->Ok_0
}

proof fn lemma_batch_fault_stays(
    s: StorageView,
    entries: Seq<(Address, i128)>,
    n: nat,
    m: nat,
)
    requires
        n <= m,
        batch_amount_fault(s, entries, n) is Some,
    ensures
        batch_amount_fault(s, entries, m) == batch_amount_fault(s, entries, n),
    decreases m,
{
    if n < m {
        lemma_batch_fault_stays(s, entries, n, (m - 1) as nat);
    }
}

/// A batch in which an entry is refused is refused as a whole.
pub proof fn lemma_batch_refusal_stays(e: EnvView, entries: Seq<(Address, i128)>, n: nat, m: nat)
    requires
        n <= m,
        funded_in_turn(e, entries, n) is Err,
    ensures
        funded_in_turn(e, entries, m) == funded_in_turn(e, entries, n),
    decreases m,
{
    if n < m {
        lemma_batch_refusal_stays(e, entries, n, (m - 1) as nat);
    }
}

proof fn lemma_funders_in_turn(e: EnvView, entries: Seq<(Address, i128)>, n: nat)
    requires
        n <= entries.len(),
        e.storage.funders() + entries.len() <= u32::MAX,
        funded_in_turn(e, entries, n) is Ok,
    ensures
        funded_in_turn(e, entries, n)->Ok_0.storage.funders() <= e.storage.funders() + n,
    decreases n,
{
    if n > 0 {
        lemma_funders_in_turn(e, entries, (n - 1) as nat);
    }
}

/// A batch whose entry `k` is refused is refused for that reason, and counts if the entries up to
/// there do.
proof fn lemma_refused_batch_counts(e: EnvView, entries: Seq<(Address, i128)>, k: nat)
    requires
        k < entries.len(),
        batch_screening(e, entries) is None,
        entries_count(e, entries, k),
        funded_in_turn(e, entries, k) is Ok,
        entry_refusal(funded_in_turn(e, entries, k)->Ok_0, entries[k as int], k == 0) is Some,
    ensures
        batch_counts(e, entries),
        fund_batch_refusal(e, entries) == entry_refusal(
            funded_in_turn(e, entries, k)->Ok_0,
            entries[k as int],
            k == 0,
        ),
{
    let refused_at = (k + 1) as nat;
    assert(funded_in_turn(e, entries, refused_at) is Err);
    lemma_batch_refusal_stays(e, entries, refused_at, entries.len());
    assert forall|j: nat|
        j < entries.len() && (#[trigger] funded_in_turn(e, entries, j)) is Ok implies entry_counts(
        funded_in_turn(e, entries, j)->Ok_0,
        entries[j as int],
        j == 0,
    ) by {
        if j > k {
            lemma_batch_refusal_stays(e, entries, refused_at, j);
        }
    }
}

/// How a call ends that may find the counter of distinct investors full: `counts` says that it does
/// not, and then the call ends as [`outcome`] says; otherwise there is no result and nothing has
/// changed.
pub open spec fn counted_outcome(
    counts: bool,
    refusal: Option<Refusal>,
    before: EnvView,
    after: EnvView,
    value: InvoiceEscrow,
    result: Result<Option<InvoiceEscrow>, Refusal>,
    end: EnvView,
) -> bool {
    if counts {
        outcome(refusal, before, after, Some(value), result, end)
    } else {
        result == Ok::<Option<InvoiceEscrow>, Refusal>(None) && end == before
    }
}

/// A batch that is not turned down as a whole is counted in turn.
pub proof fn lemma_batch_counts_in_turn(e: EnvView, entries: Seq<(Address, i128)>)
    requires
        batch_counts(e, entries),
        batch_screening(e, entries) is None,
    ensures
        entries_count(e, entries, entries.len()),
{
    if e.storage.funders() + entries.len() <= u32::MAX {
        assert forall|k: nat|
            k < entries.len() && (#[trigger] funded_in_turn(e, entries, k))
                is Ok implies entry_counts(
            funded_in_turn(e, entries, k)->Ok_0,
            entries[k as int],
            k == 0,
        ) by {
            lemma_funders_in_turn(e, entries, k);
        }
    }
}

impl LiquifactEscrow {
    /// Deposits every entry in turn, or nothing at all.
    ///
    /// The escrow has to be open for the first entry. Each entry has to pass all the other checks of
    /// [`LiquifactEscrow::fund`] in the state that the entries before it leave behind; the amounts
    /// are checked up front. Entries are deposited even after one before them reached the target;
    /// the close snapshot is taken once, of what the escrow holds when the target is reached.
    pub fn fund_batch(env: &mut ContractEnv, entries: &Vec<(Address, i128)>) -> (r: Result<
        InvoiceEscrow,
        Refusal,
    >)
        requires
            batch_counts(old(env)@, entries@),
        ensures
            outcome(
                fund_batch_refusal(old(env)@, entries@),
                old(env)@,
                fund_batch_post(old(env)@, entries@),
                fund_batch_post(old(env)@, entries@).storage.escrow->0,
                r,
                final(env)@,
            ),
    {
        match Self::try_fund_batch(env, entries)? {
            Some(escrow) => Ok(escrow),
            None => unreached(),
        }
    }

    /// Deposits as [`LiquifactEscrow::fund_batch`] does. Where the counter of distinct investors
    /// cannot count a new investor among the entries, nothing is deposited and there is no escrow
    /// to return.
    pub fn try_fund_batch(env: &mut ContractEnv, entries: &Vec<(Address, i128)>) -> (r: Result<
        Option<InvoiceEscrow>,
        Refusal,
    >)
        ensures
            counted_outcome(
                batch_counts(old(env)@, entries@),
                fund_batch_refusal(old(env)@, entries@),
                old(env)@,
                fund_batch_post(old(env)@, entries@),
                fund_batch_post(old(env)@, entries@).storage.escrow->0,
                r,
                final(env)@,
            ),
    {
        let n: usize = entries.len();
        ensure(n > 0, EscrowError::FundingBatchEmpty)?;
        ensure(n <= MAX_FUND_BATCH as usize, EscrowError::FundingBatchTooLarge)?;
        let floor: i128 = env.storage.min_contribution_floor.unwrap_or(0);
        let mut i: usize = 0;
        while i < n
            invariant
                i <= n,
                0 < n == entries@.len() <= MAX_FUND_BATCH,
                env@ == old(env)@,
                floor == env@.storage.floor(),
                batch_amount_fault(env@.storage, entries@, i as nat) is None,
            decreases n - i,
        {
            let amount: i128 = entries[i].1;
            proof {
                if deposit_amount_fault(env@.storage, amount) is Some {
                    lemma_batch_fault_stays(env@.storage, entries@, (i + 1) as nat, n as nat);
                }
            }
            ensure(amount > 0, EscrowError::FundingAmountNotPositive)?;
            if floor > 0 {
                ensure(amount >= floor, EscrowError::FundingBelowMinContribution)?;
            }
            i += 1;
        }
        let mut escrow = Self::get_escrow(env)?;
        let saved = env.storage.copy();
        let saved_effects: usize = env.effects.len();
        i = 0;
        while i < n
            invariant
                i <= n,
                0 < n == entries@.len() <= MAX_FUND_BATCH,
                batch_screening(old(env)@, entries@) is None,
                saved@ == old(env)@.storage,
                saved_effects == old(env)@.effects.len(),
                funded_in_turn(old(env)@, entries@, i as nat) == Ok::<EnvView, Refusal>(env@),
                env@.storage.escrow == Some(escrow),
                env@ == (EnvView { storage: env@.storage, effects: env@.effects, ..old(env)@ }),
                env@.effects.len() >= saved_effects,
                env@.effects.take(saved_effects as int) == old(env)@.effects,
                entries_count(old(env)@, entries@, i as nat),
            decreases n - i,
        {
            let (investor, amount) = entries[i];
            let ghost before = env@;
            assert(funded_in_turn(old(env)@, entries@, i as nat) is Ok);
            let deposited = Self::deposit(env, investor, amount, DepositKind::Simple, i == 0);
            if let Ok(Some(funded)) = deposited {
                escrow = funded;
                assert(env@.effects.take(saved_effects as int) =~= old(env)@.effects);
                i += 1;
            } else {
                proof {
                    if deposited is Err {
                        lemma_refused_batch_counts(old(env)@, entries@, i as nat);
                    } else if batch_counts(old(env)@, entries@) {
                        lemma_batch_counts_in_turn(old(env)@, entries@);
                    }
                }
                env.storage = saved;
                env.effects.truncate(saved_effects);
                assert(env@ =~= old(env)@);
                return deposited;
            }
        }
        Ok(Some(escrow))
    }

    /// Deposits `amount` of `investor`.
    pub fn fund(env: &mut ContractEnv, investor: Address, amount: i128) -> (r: Result<
        InvoiceEscrow,
        Refusal,
    >)
        requires
            deposit_counts(old(env)@, investor, amount, DepositKind::Simple),
        ensures
            outcome(
                fund_refusal(old(env)@, investor, amount, DepositKind::Simple),
                old(env)@,
                fund_post(old(env)@, investor, amount, DepositKind::Simple),
                credited(old(env)@.storage.escrow->0, amount),
                r,
                final(env)@,
            ),
    {
        Self::fund_impl(env, investor, amount, DepositKind::Simple)
    }

    /// Deposits `amount` as the first deposit of `investor`, who commits to claim nothing for
    /// `committed_lock_secs` and is paid the best tier that the commitment qualifies for.
    pub fn fund_with_commitment(
        env: &mut ContractEnv,
        investor: Address,
        amount: i128,
        committed_lock_secs: u64,
    ) -> (r: Result<InvoiceEscrow, Refusal>)
        requires
            deposit_counts(
                old(env)@,
                investor,
                amount,
                DepositKind::Committed(committed_lock_secs),
            ),
        ensures
            outcome(
                fund_refusal(
                    old(env)@,
                    investor,
                    amount,
                    DepositKind::Committed(committed_lock_secs),
                ),
                old(env)@,
                fund_post(
                    old(env)@,
                    investor,
                    amount,
                    DepositKind::Committed(committed_lock_secs),
                ),
                credited(old(env)@.storage.escrow->0, amount),
                r,
                final(env)@,
            ),
    {
        Self::fund_impl(env, investor, amount, DepositKind::Committed(committed_lock_secs))
    }

    /// Deposits `amount` of `investor` in the way `kind`: what [`LiquifactEscrow::fund`] and
    /// [`LiquifactEscrow::fund_with_commitment`] share.
    pub fn fund_impl(
        env: &mut ContractEnv,
        investor: Address,
        amount: i128,
        kind: DepositKind,
    ) -> (r: Result<InvoiceEscrow, Refusal>)
        requires
            deposit_counts(old(env)@, investor, amount, kind),
        ensures
            outcome(
                fund_refusal(old(env)@, investor, amount, kind),
                old(env)@,
                fund_post(old(env)@, investor, amount, kind),
                credited(old(env)@.storage.escrow->0, amount),
                r,
                final(env)@,
            ),
    {
        match Self::try_fund(env, investor, amount, kind)? {
            Some(escrow) => Ok(escrow),
            None => unreached(),
        }
    }

    /// Deposits as [`LiquifactEscrow::fund_impl`] does. Where the counter of distinct investors
    /// cannot count a new investor, nothing is deposited and there is no escrow to return.
    pub fn try_fund(
        env: &mut ContractEnv,
        investor: Address,
        amount: i128,
        kind: DepositKind,
    ) -> (r: Result<Option<InvoiceEscrow>, Refusal>)
        ensures
            counted_outcome(
                deposit_counts(old(env)@, investor, amount, kind),
                fund_refusal(old(env)@, investor, amount, kind),
                old(env)@,
                fund_post(old(env)@, investor, amount, kind),
                credited(old(env)@.storage.escrow->0, amount),
                r,
                final(env)@,
            ),
    {
        Self::deposit(env, investor, amount, kind, true)
    }

    /// Deposits `amount` of `investor`; whether the escrow is open is asked where the deposit is
    /// `gated`.
    fn deposit(
        env: &mut ContractEnv,
        investor: Address,
        amount: i128,
        kind: DepositKind,
        gated: bool,
    ) -> (r: Result<Option<InvoiceEscrow>, Refusal>)
        ensures
            counted_outcome(
                deposit_refusal(old(env)@, investor, amount, kind, gated) is Some
                    || funder_count_fits(old(env)@.storage, investor),
                deposit_refusal(old(env)@, investor, amount, kind, gated),
                old(env)@,
                fund_post(old(env)@, investor, amount, kind),
                credited(old(env)@.storage.escrow->0, amount),
                r,
                final(env)@,
            ),
    {
        env.require_auth(investor)?;
        ensure(amount > 0, EscrowError::FundingAmountNotPositive)?;
        let floor: i128 = env.storage.min_contribution_floor.unwrap_or(0);
        if floor > 0 {
            ensure(amount >= floor, EscrowError::FundingBelowMinContribution)?;
        }
        let mut escrow = Self::get_escrow(env)?;
        ensure(!Self::paused_active(env), EscrowError::PausedBlocksFunding)?;
        ensure(!Self::legal_hold_active(env), EscrowError::LegalHoldBlocksFunding)?;
        if gated {
            require_funding_open(escrow.status)?;
        }

        let now: u64 = env.ledger.timestamp;
        if let Some(deadline) = env.storage.funding_deadline {
            ensure(now <= deadline, EscrowError::FundingDeadlinePassed)?;
        }
        if env.storage.allowlist_active.unwrap_or(false) {
            ensure(
                env.storage.investor_allowlisted.get(investor).unwrap_or(false),
                EscrowError::InvestorNotAllowlisted,
            )?;
        }
        let prev: i128 = env.storage.investor_contribution.get(investor).unwrap_or(0);
        let new_contribution: i128 = match prev.checked_add(amount) {
            Some(sum) => sum,
            None => {
                return Err(Refusal::Error(EscrowError::InvestorContributionOverflow));
            },
        };
        if let Some(cap) = env.storage.max_per_investor_cap {
            ensure(new_contribution <= cap, EscrowError::InvestorContributionExceedsCap)?;
        }
        let funders: u32 = env.storage.unique_funder_count.unwrap_or(0);
        if prev == 0 {
            if let Some(cap) = env.storage.max_unique_investors_cap {
                ensure(funders < cap, EscrowError::UniqueInvestorCapReached)?;
            }
        }
        let mut yield_bps: i64 = escrow.yield_bps;
        let mut tier_lock_secs: u64 = 0;
        let mut claim_not_before: u64 = 0;
        match kind {
            DepositKind::Simple => {
                if prev != 0 {
                    yield_bps =
                    env.storage.investor_effective_yield.get(investor).unwrap_or(escrow.yield_bps);
                }
            },
            DepositKind::Committed(lock) => {
                ensure(prev == 0, EscrowError::TieredSecondDeposit)?;
                let terms = effective_yield_for_commitment(
                    &env.storage.yield_tier_table,
                    escrow.yield_bps,
                    lock,
                );
                yield_bps = terms.0;
                tier_lock_secs = terms.1;
                if lock > 0 {
                    claim_not_before =
                    match now.checked_add(lock) {
                        Some(time) => time,
                        None => {
                            return Err(Refusal::Error(EscrowError::InvestorClaimTimeOverflow));
                        },
                    };
                    if escrow.maturity > 0 {
                        ensure(
                            claim_not_before <= escrow.maturity,
                            EscrowError::CommitmentLockExceedsMaturity,
                        )?;
                    }
                }
            },
        }
        escrow.funded_amount =
        match escrow.funded_amount.checked_add(amount) {
            Some(sum) => sum,
            None => {
                return Err(Refusal::Error(EscrowError::FundedAmountOverflow));
            },
        };
        let token = Self::funding_token_or_fail(env)?;
        if prev == 0 && funders == u32::MAX {
            return Ok(None);
        }

        if escrow.funded_amount >= escrow.funding_target {
            escrow.status = STATUS_FUNDED;
            if env.storage.funding_close_snapshot.is_none() {
                env.storage.funding_close_snapshot = Some(
                    FundingCloseSnapshot {
                        total_principal: escrow.funded_amount,
                        funding_target: escrow.funding_target,
                        closed_at_ledger_timestamp: now,
                        closed_at_ledger_sequence: env.ledger.sequence,
                    },
                );
            }
        }
        env.storage.investor_contribution.insert(investor, new_contribution);
        if prev == 0 {
            env.storage.investor_effective_yield.insert(investor, yield_bps);
            env.storage.investor_claim_not_before.insert(investor, claim_not_before);
            env.storage.unique_funder_count = Some(funders + 1);
            env.storage.investor_index.push(investor);
        }
        env.storage.escrow = Some(escrow);

        let to = env.contract;
        env.transfer(TokenTransfer { token, from: investor, to, amount });
        env.publish(
            Event::EscrowFunded(
                EscrowFunded {
                    name: "funded",
                    invoice_id: escrow.invoice_id,
                    investor,
                    amount,
                    funded_amount: escrow.funded_amount,
                    status: escrow.status,
                    investor_effective_yield_bps: yield_bps,
                    tier_lock_secs,
                },
            ),
        );
        Ok(Some(escrow))
    }
}

} // verus!
