//! What is kept on record beside the money: who is admitted, what was attested, and the collateral
//! that the SME has pledged.
use crate::allowlist::{
    allowlist_index_after, set_allowlist_active_post, set_allowlisted_batch_refusal,
    set_allowlisted_in_turn, set_allowlisted_post,
};
use crate::attestation::{
    append_post, append_refusal, bind_primary_post, bind_primary_refusal, digest_info,
    revoke_batch_post, revoke_batch_refusal, revoke_post, revoke_refusal, revoked_in_turn,
    unrevoke_post, unrevoke_refusal,
};
use crate::collateral::{
    clear_collateral_post, clear_collateral_refusal, record_collateral_post,
    record_collateral_refusal, recorded_collateral,
};
use crate::env::{Effect, EnvView, StorageView};
use crate::errors::{EscrowError, Refusal};
use crate::events::{
    AllowlistEnabledChanged, AttestationDigestRevoked, AttestationDigestUnrevoked,
    CollateralClearedEvt, CollateralRecordedEvt, Event, InvestorAllowlistChanged,
    PrimaryAttestationBound,
};
use crate::laws::entries::says;
use crate::types::SmeCollateralCommitment;
use crate::values::{Address, Digest, Sym};
use vstd::prelude::*;

verus! {

// ---------------------------------------------------------------------------------------------
// Admission
// ---------------------------------------------------------------------------------------------

/// Switching the allowlist writes and announces the switch, and admits or removes nobody.
pub proof fn lemma_allowlist_switch_is_recorded(e: EnvView, active: bool)
    ensures
        ({
            let after = set_allowlist_active_post(e, active);
            &&& after.effects == e.effects.push(
                Effect::Publish(
                    Event::AllowlistEnabledChanged(
                        AllowlistEnabledChanged {
                            name: "al_ena",
                            invoice_id: e.storage.escrow->0.invoice_id,
                            active: if active {
                                1
                            } else {
                                0
                            },
                        },
                    ),
                ),
            )
            &&& after == EnvView {
                effects: after.effects,
                storage: StorageView { allowlist_active: Some(active), ..e.storage },
                ..e
            }
        }),
{
}

/// The announcement that an investor was admitted or removed.
pub open spec fn admission(e: EnvView, investor: Address, allowed: bool) -> Effect {
    Effect::Publish(
        Event::InvestorAllowlistChanged(
            InvestorAllowlistChanged {
                name: "al_set",
                invoice_id: e.storage.escrow->0.invoice_id,
                investor,
                allowed: if allowed {
                    1
                } else {
                    0
                },
            },
        ),
    )
}

/// Admitting or removing an investor decides on that investor and on nobody else, and is announced
/// also where nothing changes. Beside the entry only the index may change.
pub proof fn lemma_admission_is_recorded(e: EnvView, investor: Address, allowed: bool)
    ensures
        ({
            let after = set_allowlisted_post(e, investor, allowed);
            &&& after.storage.allowlisted(investor) == allowed
            &&& after.storage.investor_allowlisted.contains_key(investor)
            &&& forall|other: Address|
                other != investor ==> {
                    &&& #[trigger] after.storage.allowlisted(other) == e.storage.allowlisted(other)
                    &&& after.storage.investor_allowlisted.contains_key(other)
                        == e.storage.investor_allowlisted.contains_key(other)
                }
            &&& after.effects == e.effects.push(admission(e, investor, allowed))
            &&& after == EnvView {
                effects: after.effects,
                storage: StorageView {
                    investor_allowlisted: after.storage.investor_allowlisted,
                    allowlist_index: after.storage.allowlist_index,
                    ..e.storage
                },
                ..e
            }
        }),
{
}

/// Whoever is newly admitted is put at the end of the index; whoever was there loses their place
/// when removed, and the others keep their order. Where nothing changes, the index stays.
pub proof fn lemma_index_follows_admission(s: StorageView, investor: Address, allowed: bool, at: int)
    ensures
        ({
            let index = s.allowlist_index;
            let after = allowlist_index_after(s, investor, allowed);
            let first = 0 <= at < index.len() && index[at] == investor && !index.take(at).contains(
                investor,
            );
            &&& s.allowlisted(investor) == allowed ==> after == index
            &&& allowed && !s.allowlisted(investor) ==> after == index + seq![investor]
            &&& !allowed && s.allowlisted(investor) && first ==> after == index.take(at)
                + index.skip(at + 1)
            &&& !allowed && s.allowlisted(investor) && !index.contains(investor) ==> after == index
        }),
{
    let index = s.allowlist_index;
    index.index_of_first_ensures(investor);
    if 0 <= at < index.len() && index[at] == investor && !index.take(at).contains(investor) {
        assert(index.contains(investor));
        let i = index.index_of_first(investor)->0;
        if i < at {
            assert(index.take(at)[i] == investor);
        }
        assert(i == at);
        assert(index.remove(at) =~= index.take(at) + index.skip(at + 1));
    }
    assert(index.push(investor) =~= index + seq![investor]);
}

/// Admission changes the stored index as it does in
/// [`lemma_index_follows_admission`].
pub proof fn lemma_admission_keeps_the_index(e: EnvView, investor: Address, allowed: bool)
    ensures
        set_allowlisted_post(e, investor, allowed).storage.allowlist_index == allowlist_index_after(
            e.storage,
            investor,
            allowed,
        ),
{
}

/// A batch of admissions is taken from the admin where it has one to thirty-two entries.
pub proof fn lemma_admissions_are_answered(e: EnvView, investors: Seq<Address>)
    ensures
        ({
            let r = set_allowlisted_batch_refusal(e, investors);
            let asked = e.admin_refusal() is None;
            &&& !asked ==> r == e.admin_refusal()
            &&& asked && investors.len() == 0 ==> says(r, EscrowError::InvestorBatchEmpty)
            &&& asked && investors.len() > 32 ==> says(r, EscrowError::InvestorBatchTooLarge)
            &&& asked && 1 <= investors.len() <= 32 ==> r is None
        }),
{
}

/// A batch of admissions is its entries admitted one after the other.
pub proof fn lemma_admissions_take_turns(
    e: EnvView,
    investors: Seq<Address>,
    allowed: bool,
    n: nat,
)
    requires
        n < investors.len(),
    ensures
        set_allowlisted_in_turn(e, investors, allowed, 0) == e,
        set_allowlisted_in_turn(e, investors, allowed, n + 1) == set_allowlisted_post(
            set_allowlisted_in_turn(e, investors, allowed, n),
            investors[n as int],
            allowed,
        ),
{
}

/// A batch of admissions decides alike on every investor it names and on nobody else. Each entry is
/// announced once, in order. Beside the entries only the index may change.
pub proof fn lemma_admissions_are_recorded(
    e: EnvView,
    investors: Seq<Address>,
    allowed: bool,
    n: nat,
)
    requires
        n <= investors.len(),
    ensures
        ({
            let after = set_allowlisted_in_turn(e, investors, allowed, n);
            &&& forall|i: int|
                0 <= i < n ==> after.storage.allowlisted(#[trigger] investors[i]) == allowed
            &&& forall|other: Address|
                !investors.take(n as int).contains(other) ==> #[trigger] after.storage.allowlisted(
                    other,
                ) == e.storage.allowlisted(other)
            &&& after.effects == e.effects + Seq::new(
                n,
                |i: int| admission(e, investors[i], allowed),
            )
            &&& after == EnvView {
                effects: after.effects,
                storage: StorageView {
                    investor_allowlisted: after.storage.investor_allowlisted,
                    allowlist_index: after.storage.allowlist_index,
                    ..e.storage
                },
                ..e
            }
        }),
    decreases n,
{
    if n > 0 {
        let before = set_allowlisted_in_turn(e, investors, allowed, (n - 1) as nat);
        lemma_admissions_are_recorded(e, investors, allowed, (n - 1) as nat);
        lemma_admission_is_recorded(before, investors[n - 1], allowed);
        let after = set_allowlisted_in_turn(e, investors, allowed, n);
        assert forall|other: Address|
            !investors.take(n as int).contains(other) implies #[trigger] after.storage.allowlisted(
            other,
        ) == e.storage.allowlisted(other) by {
            assert(investors.take(n as int)[n - 1] == investors[n - 1]);
            assert forall|i: int| 0 <= i < n - 1 implies #[trigger] investors.take(n - 1)[i]
                != other by {
                assert(investors.take(n as int)[i] == investors[i]);
            }
        }
        assert(after.effects =~= e.effects + Seq::new(
            n,
            |i: int| admission(e, investors[i], allowed),
        ));
    }
}

// ---------------------------------------------------------------------------------------------
// Attestations
// ---------------------------------------------------------------------------------------------

/// The primary digest is bound by the admin, once; that stores and announces it.
pub proof fn lemma_primary_digest_is_bound(e: EnvView, digest: Digest)
    ensures
        ({
            let r = bind_primary_refusal(e);
            let asked = e.admin_refusal() is None;
            let bound = e.storage.primary_attestation_hash is Some;
            &&& !asked ==> r == e.admin_refusal()
            &&& asked && bound ==> says(r, EscrowError::PrimaryAttestationAlreadyBound)
            &&& asked && !bound ==> r is None
        }),
        ({
            let after = bind_primary_post(e, digest);
            &&& after.effects == e.effects.push(
                Effect::Publish(
                    Event::PrimaryAttestationBound(
                        PrimaryAttestationBound {
                            name: "att_bind",
                            invoice_id: e.storage.escrow->0.invoice_id,
                            digest,
                        },
                    ),
                ),
            )
            &&& after == EnvView {
                effects: after.effects,
                storage: StorageView { primary_attestation_hash: Some(digest), ..e.storage },
                ..e
            }
        }),
{
}

/// The log takes digests from the admin up to thirty-two of them.
pub proof fn lemma_log_is_bounded(e: EnvView)
    ensures
        ({
            let r = append_refusal(e);
            let asked = e.admin_refusal() is None;
            let full = e.storage.attestation_append_log.len() >= 32;
            &&& !asked ==> r == e.admin_refusal()
            &&& asked && full ==> says(r, EscrowError::AttestationAppendLogCapacityReached)
            &&& asked && !full ==> r is None
        }),
{
}

/// A digest is put at the end of the log and announced with its place there. The digests before it
/// and the marks of revocation stay.
pub proof fn lemma_digest_is_appended(e: EnvView, digest: Digest)
    requires
        append_refusal(e) is None,
    ensures
        ({
            let after = append_post(e, digest);
            let log = e.storage.attestation_append_log;
            let new_log = after.storage.attestation_append_log;
            &&& new_log.len() == log.len() + 1
            &&& new_log[log.len() as int] == digest
            &&& forall|i: int| 0 <= i < log.len() ==> #[trigger] new_log[i] == log[i]
            &&& after.effects.len() == e.effects.len() + 1
            &&& after.effects.drop_last() == e.effects
            &&& after.effects.last() matches Effect::Publish(
                Event::AttestationDigestAppended(told),
            ) && {
                &&& told.name == "att_app"
                &&& told.invoice_id == e.storage.escrow->0.invoice_id
                &&& told.index == log.len()
                &&& told.digest == digest
            }
            &&& after == EnvView {
                effects: after.effects,
                storage: StorageView { attestation_append_log: new_log, ..e.storage },
                ..e
            }
        }),
{
    assert(append_post(e, digest).effects.drop_last() =~= e.effects);
}

/// What is told of a place in the log: nothing where there is no digest, and else the digest and
/// whether it is revoked.
pub proof fn lemma_digest_is_told(s: StorageView, index: u32)
    ensures
        ({
            let told = digest_info(s, index);
            &&& told is Some <==> index < s.attestation_append_log.len()
            &&& told matches Some(info) ==> {
                &&& info.digest == s.attestation_append_log[index as int]
                &&& info.revoked <==> s.attestation_revoked.contains(index)
            }
        }),
{
}

/// A digest is revoked by the admin, where it is in the log and not revoked yet.
pub proof fn lemma_revocation_is_answered(e: EnvView, index: u32)
    ensures
        ({
            let s = e.storage;
            let r = revoke_refusal(e, index);
            let asked = e.admin_refusal() is None;
            let there = index < s.attestation_append_log.len();
            let revoked = s.attestation_revoked.contains(index);
            &&& !asked ==> r == e.admin_refusal()
            &&& asked && !there ==> says(r, EscrowError::AttestationIndexOutOfRange)
            &&& asked && there && revoked ==> says(r, EscrowError::AttestationAlreadyRevoked)
            &&& asked && there && !revoked ==> r is None
        }),
{
}

/// The announcement that a digest was revoked.
pub open spec fn revocation(e: EnvView, index: u32) -> Effect {
    Effect::Publish(
        Event::AttestationDigestRevoked(
            AttestationDigestRevoked {
                name: "att_rev",
                invoice_id: e.storage.escrow->0.invoice_id,
                index,
            },
        ),
    )
}

/// Revoking marks the digest and no other, and announces it. The log stays.
pub proof fn lemma_revocation_is_recorded(e: EnvView, index: u32)
    ensures
        ({
            let after = revoke_post(e, index);
            &&& forall|i: u32| #[trigger]
                after.storage.attestation_revoked.contains(i) <==> i == index
                    || e.storage.attestation_revoked.contains(i)
            &&& after.effects == e.effects.push(revocation(e, index))
            &&& after == EnvView {
                effects: after.effects,
                storage: StorageView {
                    attestation_revoked: after.storage.attestation_revoked,
                    ..e.storage
                },
                ..e
            }
        }),
{
}

/// A revocation is taken back where there is one to take back; who is not the admin learns of a
/// place that is not there or not revoked before being asked for authorization.
pub proof fn lemma_reinstatement_is_answered(e: EnvView, index: u32)
    ensures
        ({
            let s = e.storage;
            let r = unrevoke_refusal(e, index);
            let there = index < s.attestation_append_log.len();
            let revoked = s.attestation_revoked.contains(index);
            &&& !there ==> says(r, EscrowError::AttestationIndexOutOfRange)
            &&& there && !revoked ==> says(r, EscrowError::AttestationNotRevoked)
            &&& there && revoked ==> r == e.admin_refusal()
        }),
{
}

/// Taking a revocation back unmarks the digest and no other, and announces it. The log stays.
pub proof fn lemma_reinstatement_is_recorded(e: EnvView, index: u32)
    ensures
        ({
            let after = unrevoke_post(e, index);
            &&& forall|i: u32| #[trigger]
                after.storage.attestation_revoked.contains(i) <==> i != index
                    && e.storage.attestation_revoked.contains(i)
            &&& after.effects == e.effects.push(
                Effect::Publish(
                    Event::AttestationDigestUnrevoked(
                        AttestationDigestUnrevoked {
                            name: "att_unrev",
                            invoice_id: e.storage.escrow->0.invoice_id,
                            index,
                        },
                    ),
                ),
            )
            &&& after == EnvView {
                effects: after.effects,
                storage: StorageView {
                    attestation_revoked: after.storage.attestation_revoked,
                    ..e.storage
                },
                ..e
            }
        }),
{
}

/// Whether the first `n` of these places can be revoked together: they are in the log, not revoked,
/// and all different.
pub open spec fn revocable(s: StorageView, indices: Seq<u32>, n: nat) -> bool {
    &&& forall|i: int|
        0 <= i < n ==> #[trigger] indices[i] < s.attestation_append_log.len()
            && !s.attestation_revoked.contains(indices[i])
    &&& forall|i: int, j: int| 0 <= i < j < n ==> #[trigger] indices[i] != #[trigger] indices[j]
}

/// Revoking a batch in turn gets through exactly where the admin authorized it and the places can be
/// revoked together. It marks these and no others, and announces each in order.
pub proof fn lemma_revocations_in_turn(e: EnvView, indices: Seq<u32>, n: nat)
    requires
        n <= indices.len(),
    ensures
        ({
            let r = revoked_in_turn(e, indices, n);
            let after = r->Ok_0;
            &&& r is Ok <==> n == 0 || (e.admin_refusal() is None && revocable(
                e.storage,
                indices,
                n,
            ))
            &&& r is Ok ==> {
                &&& forall|i: u32| #[trigger]
                    after.storage.attestation_revoked.contains(i) <==> indices.take(
                        n as int,
                    ).contains(i) || e.storage.attestation_revoked.contains(i)
                &&& after.effects == e.effects + Seq::new(n, |i: int| revocation(e, indices[i]))
                &&& after == EnvView {
                    effects: after.effects,
                    storage: StorageView {
                        attestation_revoked: after.storage.attestation_revoked,
                        ..e.storage
                    },
                    ..e
                }
            }
        }),
    decreases n,
{
    if n == 0 {
        assert(e.effects + Seq::new(0, |i: int| revocation(e, indices[i])) =~= e.effects);
    } else {
        let m = (n - 1) as nat;
        let index = indices[n - 1];
        lemma_revocations_in_turn(e, indices, m);
        if revoked_in_turn(e, indices, m) is Ok {
            let before = revoked_in_turn(e, indices, m)->Ok_0;
            lemma_revocation_is_answered(before, index);
            lemma_revocation_is_recorded(before, index);
            assert(before.admin_refusal() == e.admin_refusal());
            assert(revocable(e.storage, indices, m) || m == 0);
            assert(before.storage.attestation_revoked.contains(index) <==> indices.take(
                m as int,
            ).contains(index) || e.storage.attestation_revoked.contains(index));
            if revoked_in_turn(e, indices, n) is Ok {
                let after = revoked_in_turn(e, indices, n)->Ok_0;
                assert forall|i: int, j: int| 0 <= i < j < n implies #[trigger] indices[i]
                    != #[trigger] indices[j] by {
                    if j == n - 1 {
                        assert(indices.take(m as int)[i] == indices[i]);
                    }
                }
                assert forall|i: u32| #[trigger]
                    after.storage.attestation_revoked.contains(i) <==> indices.take(
                    n as int,
                ).contains(i) || e.storage.attestation_revoked.contains(i) by {
                    assert(indices.take(n as int) =~= indices.take(m as int).push(index));
                    if indices.take(m as int).contains(i) {
                        let k = choose|k: int| 0 <= k < m && indices.take(m as int)[k] == i;
                        assert(indices.take(n as int)[k] == i);
                    }
                    assert(indices.take(n as int)[n - 1] == index);
                }
                assert(after.effects =~= e.effects + Seq::new(
                    n,
                    |i: int| revocation(e, indices[i]),
                ));
            } else if revocable(e.storage, indices, n) && e.admin_refusal() is None {
                assert(index < e.storage.attestation_append_log.len());
                let k = choose|k: int| 0 <= k < m && indices.take(m as int)[k] == index;
                assert(indices[k] == index);
                assert(false);
            }
        } else {
            if revocable(e.storage, indices, n) {
                assert(revocable(e.storage, indices, m));
            }
        }
    }
}

/// A batch of one to thirty-two places is revoked exactly where the admin authorized it and the
/// places can be revoked together; a batch of any other size is refused for its size.
pub proof fn lemma_revocations_are_answered(e: EnvView, indices: Seq<u32>)
    ensures
        ({
            let r = revoke_batch_refusal(e, indices);
            let sized = 1 <= indices.len() <= 32;
            let whole = revocable(e.storage, indices, indices.len());
            &&& indices.len() == 0 ==> says(r, EscrowError::AttestationBatchEmpty)
            &&& indices.len() > 32 ==> says(r, EscrowError::AttestationBatchTooLarge)
            &&& sized && e.admin_refusal() is Some ==> r == e.admin_refusal()
            &&& sized && e.admin_refusal() is None ==> (r is None <==> whole)
        }),
{
    lemma_revocations_in_turn(e, indices, indices.len());
    if 1 <= indices.len() && e.admin_refusal() is Some {
        lemma_refused_from_the_first(e, indices, indices.len());
    }
}

/// Who may not revoke is told so whatever the batch holds.
proof fn lemma_refused_from_the_first(e: EnvView, indices: Seq<u32>, n: nat)
    requires
        1 <= n <= indices.len(),
        e.admin_refusal() is Some,
    ensures
        revoked_in_turn(e, indices, n) == Err::<EnvView, Refusal>(
            e.admin_refusal()->0,
        ),
    decreases n,
{
    if n > 1 {
        lemma_refused_from_the_first(e, indices, (n - 1) as nat);
    } else {
        assert(revoked_in_turn(e, indices, 0) == Ok::<EnvView, Refusal>(e));
    }
}

/// The first place of a batch that cannot be revoked after the ones before it decides what the
/// batch is refused for: for not being in the log, or for being revoked already, be it before or by
/// an earlier entry.
pub proof fn lemma_first_bad_place_is_named(e: EnvView, indices: Seq<u32>, n: nat)
    requires
        indices.len() <= 32,
        n < indices.len(),
        e.admin_refusal() is None,
        revocable(e.storage, indices, n),
        !revocable(e.storage, indices, n + 1),
    ensures
        ({
            let r = revoke_batch_refusal(e, indices);
            let there = indices[n as int] < e.storage.attestation_append_log.len();
            &&& !there ==> says(r, EscrowError::AttestationIndexOutOfRange)
            &&& there ==> says(r, EscrowError::AttestationAlreadyRevoked)
        }),
{
    lemma_revocations_in_turn(e, indices, n);
    lemma_revocations_in_turn(e, indices, n + 1);
    let before = revoked_in_turn(e, indices, n)->Ok_0;
    lemma_revocation_is_answered(before, indices[n as int]);
    lemma_refusal_stands(e, indices, n + 1, indices.len());
}

/// Once a batch is refused, further entries change nothing about that.
proof fn lemma_refusal_stands(e: EnvView, indices: Seq<u32>, n: nat, m: nat)
    requires
        n <= m <= indices.len(),
        revoked_in_turn(e, indices, n) is Err,
    ensures
        revoked_in_turn(e, indices, m) == revoked_in_turn(e, indices, n),
    decreases m,
{
    if n < m {
        lemma_refusal_stands(e, indices, n, (m - 1) as nat);
    }
}

/// A batch that is carried out marks its places and no others, and announces each in order.
pub proof fn lemma_revocations_are_recorded(e: EnvView, indices: Seq<u32>)
    requires
        revoke_batch_refusal(e, indices) is None,
    ensures
        ({
            let after = revoke_batch_post(e, indices);
            &&& forall|i: u32| #[trigger]
                after.storage.attestation_revoked.contains(i) <==> indices.contains(i)
                    || e.storage.attestation_revoked.contains(i)
            &&& after.effects == e.effects + Seq::new(
                indices.len(),
                |i: int| revocation(e, indices[i]),
            )
            &&& after == EnvView {
                effects: after.effects,
                storage: StorageView {
                    attestation_revoked: after.storage.attestation_revoked,
                    ..e.storage
                },
                ..e
            }
        }),
{
    lemma_revocations_in_turn(e, indices, indices.len());
    assert(indices.take(indices.len() as int) =~= indices);
}

// ---------------------------------------------------------------------------------------------
// Collateral
// ---------------------------------------------------------------------------------------------

/// What stands in the way of recording collateral, in the order in which it is named: the amount has
/// to be positive, the asset named, the SME has to authorize it, and the clock may not lie before an
/// earlier record.
pub proof fn lemma_collateral_is_answered(e: EnvView, asset: Sym, amount: i128)
    requires
        asset.wf(),
    ensures
        ({
            let s = e.storage;
            let r = record_collateral_refusal(e, asset, amount);
            let sized = amount > 0;
            let named = sized && asset.len > 0;
            let asked = named && e.sme_refusal() is None;
            let back = s.sme_collateral_pledge matches Some(prior) && e.ledger.timestamp
                < prior.recorded_at;
            &&& !sized ==> says(r, EscrowError::CollateralAmountNotPositive)
            &&& sized && !named ==> says(r, EscrowError::CollateralAssetEmpty)
            &&& named && !asked ==> r == e.sme_refusal()
            &&& asked && back ==> says(r, EscrowError::CollateralTimestampBackwards)
            &&& asked && !back ==> r is None
        }),
{
}

/// Recording collateral stores asset, amount and time in place of what was recorded before, and
/// announces the amount with the one before, if any. No token moves.
pub proof fn lemma_collateral_is_recorded(e: EnvView, asset: Sym, amount: i128)
    ensures
        ({
            let after = record_collateral_post(e, asset, amount);
            let pledge = SmeCollateralCommitment {
                asset,
                amount,
                recorded_at: e.ledger.timestamp,
            };
            &&& recorded_collateral(e, asset, amount) == pledge
            &&& after.effects == e.effects.push(
                Effect::Publish(
                    Event::CollateralRecordedEvt(
                        CollateralRecordedEvt {
                            name: "coll_rec",
                            invoice_id: e.storage.escrow->0.invoice_id,
                            amount,
                            prior_amount: if e.storage.sme_collateral_pledge is Some {
                                e.storage.sme_collateral_pledge->0.amount
                            } else {
                                0
                            },
                        },
                    ),
                ),
            )
            &&& after == EnvView {
                effects: after.effects,
                storage: StorageView { sme_collateral_pledge: Some(pledge), ..e.storage },
                ..e
            }
        }),
{
}

/// Collateral is cleared by the SME where there is any; that drops the record and announces its
/// amount. No token moves.
pub proof fn lemma_collateral_is_cleared(e: EnvView)
    ensures
        e.storage.sme_collateral_pledge is None ==> says(
            clear_collateral_refusal(e),
            EscrowError::NoCollateralToClear,
        ),
        e.storage.sme_collateral_pledge is Some ==> clear_collateral_refusal(e) == e.sme_refusal(),
        ({
            let after = clear_collateral_post(e);
            &&& after.effects == e.effects.push(
                Effect::Publish(
                    Event::CollateralClearedEvt(
                        CollateralClearedEvt {
                            invoice_id: e.storage.escrow->0.invoice_id,
                            amount: e.storage.sme_collateral_pledge->0.amount,
                        },
                    ),
                ),
            )
            &&& after == EnvView {
                effects: after.effects,
                storage: StorageView { sme_collateral_pledge: None, ..e.storage },
                ..e
            }
        }),
{
}

} // verus!
