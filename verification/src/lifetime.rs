//! Keeping ledger entries alive.
use crate::contract::LiquifactEscrow;
use crate::env::{ContractEnv, Effect, EnvView, TtlExtension, TtlTarget};
use crate::types::{
    DataKey, INSTANCE_TTL_MIN_EXTENSION_LEDGERS, PERSISTENT_TTL_MIN_EXTENSION_LEDGERS,
};
use crate::values::Address;
use vstd::prelude::*;

verus! {

/// The extension of one persistent entry.
pub open spec fn extend_entry(key: DataKey) -> Effect {
    Effect::ExtendTtl(
        TtlExtension {
            target: TtlTarget::Persistent(key),
            threshold: PERSISTENT_TTL_MIN_EXTENSION_LEDGERS,
            extend_to: PERSISTENT_TTL_MIN_EXTENSION_LEDGERS,
        },
    )
}

/// The extension of the contract instance.
pub open spec fn extend_instance() -> Effect {
    Effect::ExtendTtl(
        TtlExtension {
            target: TtlTarget::Instance,
            threshold: INSTANCE_TTL_MIN_EXTENSION_LEDGERS,
            extend_to: INSTANCE_TTL_MIN_EXTENSION_LEDGERS,
        },
    )
}

/// The extensions of one investor's persistent entries.
pub open spec fn extend_investor(investor: Address) -> Seq<Effect> {
    seq![
        extend_entry(DataKey::InvestorAllowlisted(investor)),
        extend_entry(DataKey::InvestorContribution(investor)),
        extend_entry(DataKey::InvestorEffectiveYield(investor)),
        extend_entry(DataKey::InvestorClaimNotBefore(investor)),
        extend_entry(DataKey::InvestorClaimed(investor)),
    ]
}

/// The extensions of the entries of the first `n` investors.
pub open spec fn extend_investors(investors: Seq<Address>, n: nat) -> Seq<Effect>
    decreases n,
{
    if n == 0 {
        Seq::empty()
    } else {
        extend_investors(investors, (n - 1) as nat) + extend_investor(investors[n - 1])
    }
}

/// The environment after the instance and the entries of `investors` are to be kept alive: the
/// instance whether or not anyone is named. Nothing else changes.
pub open spec fn bump_ttl_post(e: EnvView, investors: Seq<Address>) -> EnvView {
    EnvView {
        effects: e.effects.push(extend_instance()) + extend_investors(investors, investors.len()),
        ..e
    }
}

impl LiquifactEscrow {
    /// Leaves the extension of one persistent entry to be done.
    fn extend_persistent(env: &mut ContractEnv, key: DataKey)
        ensures
            final(env)@ == old(env)@.with_effect(extend_entry(key)),
    {
        env.effects.push(
            Effect::ExtendTtl(
                TtlExtension {
                    target: TtlTarget::Persistent(key),
                    threshold: PERSISTENT_TTL_MIN_EXTENSION_LEDGERS,
                    extend_to: PERSISTENT_TTL_MIN_EXTENSION_LEDGERS,
                },
            ),
        );
    }

    /// Extends the lifetime of the instance, which holds the escrow itself, and of the given
    /// investors' entries. Anyone may call this, and the list may be empty.
    pub fn bump_ttl(env: &mut ContractEnv, allowlisted: &Vec<Address>)
        ensures
            final(env)@ == bump_ttl_post(old(env)@, allowlisted@),
    {
        let n: usize = allowlisted.len();
        let ghost before = env@.effects;
        env.effects.push(
            Effect::ExtendTtl(
                TtlExtension {
                    target: TtlTarget::Instance,
                    threshold: INSTANCE_TTL_MIN_EXTENSION_LEDGERS,
                    extend_to: INSTANCE_TTL_MIN_EXTENSION_LEDGERS,
                },
            ),
        );
        let ghost extended = before.push(extend_instance());
        assert(env@.effects =~= extended + extend_investors(allowlisted@, 0));
        let mut i: usize = 0;
        while i < n
            invariant
                i <= n == allowlisted@.len(),
                env@ == (EnvView {
                    effects: extended + extend_investors(allowlisted@, i as nat),
                    ..old(env)@
                }),
            decreases n - i,
        {
            let investor = allowlisted[i];
            Self::extend_persistent(env, DataKey::InvestorAllowlisted(investor));
            Self::extend_persistent(env, DataKey::InvestorContribution(investor));
            Self::extend_persistent(env, DataKey::InvestorEffectiveYield(investor));
            Self::extend_persistent(env, DataKey::InvestorClaimNotBefore(investor));
            Self::extend_persistent(env, DataKey::InvestorClaimed(investor));
            i += 1;
            assert(env@.effects =~= extended + extend_investors(allowlisted@, i as nat));
        }
    }
}

} // verus!
