//! The investor allowlist.
use crate::contract::LiquifactEscrow;
use crate::env::{outcome, refused, ContractEnv, EnvView, StorageView};
use crate::errors::{EscrowError, Refusal};
use crate::events::{AllowlistEnabledChanged, Event, InvestorAllowlistChanged};
use crate::guards::{ensure, flag, flag_of};
use crate::types::{InvoiceEscrow, MAX_INVESTOR_ALLOWLIST_BATCH, MAX_INVESTOR_PAGE};
use crate::values::Address;
use vstd::prelude::*;

verus! {

/// The environment after the allowlist is switched on or off.
pub open spec fn set_allowlist_active_post(e: EnvView, active: bool) -> EnvView {
    e.with_storage(StorageView { allowlist_active: Some(active), ..e.storage }).publish(
        Event::AllowlistEnabledChanged(
            AllowlistEnabledChanged {
                name: "al_ena",
                invoice_id: e.storage.escrow->0.invoice_id,
                active: flag(active),
            },
        ),
    )
}

/// The index once `investor` is admitted or removed: a new one goes last, one that leaves is taken
/// out.
pub open spec fn allowlist_index_after(
    s: StorageView,
    investor: Address,
    allowed: bool,
) -> Seq<Address> {
    if allowed && !s.allowlisted(investor) {
        s.allowlist_index.push(investor)
    } else if !allowed && s.allowlisted(investor) {
        s.allowlist_index.remove_value(investor)
    } else {
        s.allowlist_index
    }
}

/// The environment after `investor` is admitted or removed.
pub open spec fn set_allowlisted_post(e: EnvView, investor: Address, allowed: bool) -> EnvView {
    e.with_storage(
        StorageView {
            investor_allowlisted: e.storage.investor_allowlisted.insert(investor, allowed),
            allowlist_index: allowlist_index_after(e.storage, investor, allowed),
            ..e.storage
        },
    ).publish(
        Event::InvestorAllowlistChanged(
            InvestorAllowlistChanged {
                name: "al_set",
                invoice_id: e.storage.escrow->0.invoice_id,
                investor,
                allowed: flag(allowed),
            },
        ),
    )
}

/// The environment after the first `n` investors are admitted or removed one after the other.
pub open spec fn set_allowlisted_in_turn(
    e: EnvView,
    investors: Seq<Address>,
    allowed: bool,
    n: nat,
) -> EnvView
    decreases n,
{
    if n == 0 {
        e
    } else {
        set_allowlisted_post(
            set_allowlisted_in_turn(e, investors, allowed, (n - 1) as nat),
            investors[n - 1],
            allowed,
        )
    }
}

/// Why a batch of allowlist changes is refused.
pub open spec fn set_allowlisted_batch_refusal(
    e: EnvView,
    investors: Seq<Address>,
) -> Option<Refusal> {
    if e.admin_refusal() is Some {
        e.admin_refusal()
    } else if investors.len() == 0 {
        refused(EscrowError::InvestorBatchEmpty)
    } else if investors.len() > MAX_INVESTOR_ALLOWLIST_BATCH {
        refused(EscrowError::InvestorBatchTooLarge)
    } else {
        None
    }
}

/// Where a page of at most `limit` from `start` ends in an index of `len` addresses. No page is
/// longer than [`MAX_INVESTOR_PAGE`].
pub open spec fn page_stop(len: int, start: u32, limit: u32) -> int {
    let size = if limit < MAX_INVESTOR_PAGE {
        limit
    } else {
        MAX_INVESTOR_PAGE
    };
    if start + size <= len {
        start + size
    } else {
        len
    }
}

/// The part of `index` that a page of at most `limit` from `start` covers.
pub open spec fn page(index: Seq<Address>, start: u32, limit: u32) -> Seq<Address> {
    if start >= index.len() {
        Seq::empty()
    } else {
        index.subrange(start as int, page_stop(index.len() as int, start, limit))
    }
}

/// Those of `index` who are allowlisted.
pub open spec fn listed(s: StorageView, index: Seq<Address>) -> Seq<Address> {
    index.filter(|investor: Address| s.allowlisted(investor))
}

/// Where a page ends; `start` itself where the page is empty.
pub(crate) fn page_end(len: usize, start: u32, limit: u32) -> (end: usize)
    ensures
        end == (if start >= len {
            start as int
        } else {
            page_stop(len as int, start, limit)
        }),
{
    let from: usize = start as usize;
    if from >= len {
        return from;
    }
    let size: usize = if limit < MAX_INVESTOR_PAGE {
        limit as usize
    } else {
        MAX_INVESTOR_PAGE as usize
    };
    if len - from < size {
        len
    } else {
        from + size
    }
}

impl LiquifactEscrow {
    /// Switches the allowlist on or off. While it is on, only allowlisted investors may fund.
    pub fn set_allowlist_active(env: &mut ContractEnv, active: bool) -> (r: Result<(), Refusal>)
        ensures
            outcome(
                old(env)@.admin_refusal(),
                old(env)@,
                set_allowlist_active_post(old(env)@, active),
                (),
                r,
                final(env)@,
            ),
    {
        let escrow = Self::load_escrow_require_admin(env)?;
        env.storage.allowlist_active = Some(active);
        env.publish(
            Event::AllowlistEnabledChanged(
                AllowlistEnabledChanged {
                    name: "al_ena",
                    invoice_id: escrow.invoice_id,
                    active: flag_of(active),
                },
            ),
        );
        Ok(())
    }

    /// Whether only allowlisted investors may fund.
    pub fn is_allowlist_active(env: &ContractEnv) -> (r: bool)
        ensures
            r == env@.storage.allowlist_on(),
    {
        env.storage.allowlist_active.unwrap_or(false)
    }

    /// Writes one allowlist change of an authorized admin.
    fn write_allowlisted(
        env: &mut ContractEnv,
        escrow: &InvoiceEscrow,
        investor: Address,
        allowed: bool,
    )
        requires
            old(env)@.storage.escrow == Some(*escrow),
        ensures
            final(env)@ == set_allowlisted_post(old(env)@, investor, allowed),
    {
        let was_allowlisted = env.storage.investor_allowlisted.get(investor).unwrap_or(false);
        env.storage.investor_allowlisted.insert(investor, allowed);
        if allowed && !was_allowlisted {
            env.storage.allowlist_index.push(investor);
        } else if !allowed && was_allowlisted {
            let ghost index = env.storage.allowlist_index@;
            proof {
                index.index_of_first_ensures(investor);
            }
            let len: usize = env.storage.allowlist_index.len();
            let mut i: usize = 0;
            while i < len && env.storage.allowlist_index[i] != investor
                invariant
                    i <= len,
                    len == index.len(),
                    index == env.storage.allowlist_index@,
                    forall|j: int| 0 <= j < i ==> index[j] != investor,
                decreases len - i,
            {
                i += 1;
            }
            if i < len {
                env.storage.allowlist_index.remove(i);
            }
        }
        env.publish(
            Event::InvestorAllowlistChanged(
                InvestorAllowlistChanged {
                    name: "al_set",
                    invoice_id: escrow.invoice_id,
                    investor,
                    allowed: flag_of(allowed),
                },
            ),
        );
        assert(env@ =~= set_allowlisted_post(old(env)@, investor, allowed));
    }

    /// Admits `investor` to the allowlist or removes it.
    pub fn set_investor_allowlisted(env: &mut ContractEnv, investor: Address, allowed: bool) -> (r:
        Result<(), Refusal>)
        ensures
            outcome(
                old(env)@.admin_refusal(),
                old(env)@,
                set_allowlisted_post(old(env)@, investor, allowed),
                (),
                r,
                final(env)@,
            ),
    {
        let escrow = Self::load_escrow_require_admin(env)?;
        Self::write_allowlisted(env, &escrow, investor, allowed);
        Ok(())
    }

    /// Admits or removes every one of `investors`, as if each were set on its own in this order.
    pub fn set_investors_allowlisted(
        env: &mut ContractEnv,
        investors: &Vec<Address>,
        allowed: bool,
    ) -> (r: Result<(), Refusal>)
        ensures
            outcome(
                set_allowlisted_batch_refusal(old(env)@, investors@),
                old(env)@,
                set_allowlisted_in_turn(old(env)@, investors@, allowed, investors@.len()),
                (),
                r,
                final(env)@,
            ),
    {
        let escrow = Self::load_escrow_require_admin(env)?;
        let n: usize = investors.len();
        ensure(n > 0, EscrowError::InvestorBatchEmpty)?;
        ensure(n <= MAX_INVESTOR_ALLOWLIST_BATCH as usize, EscrowError::InvestorBatchTooLarge)?;
        let mut i: usize = 0;
        while i < n
            invariant
                i <= n == investors@.len(),
                env@.storage.escrow == Some(escrow),
                env@ == set_allowlisted_in_turn(old(env)@, investors@, allowed, i as nat),
            decreases n - i,
        {
            Self::write_allowlisted(env, &escrow, investors[i], allowed);
            i += 1;
        }
        Ok(())
    }

    /// Whether `investor` is allowlisted.
    pub fn is_investor_allowlisted(env: &ContractEnv, investor: Address) -> (r: bool)
        ensures
            r == env@.storage.allowlisted(investor),
    {
        env.storage.investor_allowlisted.get(investor).unwrap_or(false)
    }

    /// Those on the page of at most `limit` (and at most [`MAX_INVESTOR_PAGE`]) index entries from
    /// `start` who are allowlisted.
    pub fn get_allowlisted_investors(env: &ContractEnv, start: u32, limit: u32) -> (r: Vec<Address>)
        ensures
            r@ == listed(env@.storage, page(env@.storage.allowlist_index, start, limit)),
    {
        let mut result: Vec<Address> = Vec::new();
        let len: usize = env.storage.allowlist_index.len();
        let end: usize = page_end(len, start, limit);
        let ghost s = env@.storage;
        let mut i: usize = start as usize;
        proof {
            reveal(Seq::filter);
            if start < len {
                assert(s.allowlist_index.subrange(start as int, i as int) =~= Seq::empty());
            }
        }
        while i < end
            invariant
                start <= i <= end,
                start < len ==> end <= len,
                start >= len ==> end == start,
                len == s.allowlist_index.len(),
                s == env@.storage,
                start < len ==> result@ == listed(
                    s,
                    s.allowlist_index.subrange(start as int, i as int),
                ),
                start >= len ==> result@ == Seq::<Address>::empty(),
            decreases end - i,
        {
            let investor = env.storage.allowlist_index[i];
            proof {
                reveal(Seq::filter);
                let longer = s.allowlist_index.subrange(start as int, i + 1);
                assert(longer.drop_last() =~= s.allowlist_index.subrange(start as int, i as int));
                assert(longer.last() == investor);
            }
            if env.storage.investor_allowlisted.get(investor).unwrap_or(false) {
                result.push(investor);
            }
            i += 1;
        }
        result
    }

    /// Number of allowlisted investors.
    pub fn get_allowlisted_investors_count(env: &ContractEnv) -> (r: u32)
        requires
            env@.storage.allowlist_index.len() <= u32::MAX,
        ensures
            r == listed(env@.storage, env@.storage.allowlist_index).len(),
    {
        let len: usize = env.storage.allowlist_index.len();
        let ghost s = env@.storage;
        let mut count: u32 = 0;
        let mut i: usize = 0;
        proof {
            reveal(Seq::filter);
            assert(s.allowlist_index.take(0) =~= Seq::empty());
        }
        while i < len
            invariant
                i <= len == s.allowlist_index.len(),
                len <= u32::MAX,
                s == env@.storage,
                count == listed(s, s.allowlist_index.take(i as int)).len(),
                count <= i,
            decreases len - i,
        {
            let investor = env.storage.allowlist_index[i];
            proof {
                reveal(Seq::filter);
                let longer = s.allowlist_index.take(i + 1);
                assert(longer.drop_last() =~= s.allowlist_index.take(i as int));
                assert(longer.last() == investor);
            }
            if env.storage.investor_allowlisted.get(investor).unwrap_or(false) {
                count += 1;
            }
            i += 1;
        }
        assert(s.allowlist_index.take(len as int) =~= s.allowlist_index);
        count
    }
}

} // verus!
