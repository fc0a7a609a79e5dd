//! Attestation digests: one primary digest, and an append-only log whose entries can be marked as
//! revoked.
use crate::address_map::copy_items;
use crate::contract::LiquifactEscrow;
use crate::env::{outcome, refused, ContractEnv, EnvView, StorageView};
use crate::errors::{EscrowError, Refusal};
use crate::events::{
    AttestationDigestAppended, AttestationDigestRevoked, AttestationDigestUnrevoked, Event,
    PrimaryAttestationBound,
};
use crate::guards::ensure;
use crate::types::{
    AttestationDigestInfo, MAX_ATTESTATION_APPEND_ENTRIES, MAX_ATTESTATION_REVOKE_BATCH,
};
use crate::values::Digest;
use vstd::prelude::*;

verus! {

broadcast use vstd::std_specs::btree::group_btree_axioms;

/// Why binding the primary digest is refused.
pub open spec fn bind_primary_refusal(e: EnvView) -> Option<Refusal> {
    if e.admin_refusal() is Some {
        e.admin_refusal()
    } else if e.storage.primary_attestation_hash is Some {
        refused(EscrowError::PrimaryAttestationAlreadyBound)
    } else {
        None
    }
}

/// The environment after the primary digest is bound.
pub open spec fn bind_primary_post(e: EnvView, digest: Digest) -> EnvView {
    e.with_storage(StorageView { primary_attestation_hash: Some(digest), ..e.storage }).publish(
        Event::PrimaryAttestationBound(
            PrimaryAttestationBound {
                name: "att_bind",
                invoice_id: e.storage.escrow->0.invoice_id,
                digest,
            },
        ),
    )
}

/// Why appending a digest is refused.
pub open spec fn append_refusal(e: EnvView) -> Option<Refusal> {
    if e.admin_refusal() is Some {
        e.admin_refusal()
    } else if e.storage.attestation_append_log.len() >= MAX_ATTESTATION_APPEND_ENTRIES {
        refused(EscrowError::AttestationAppendLogCapacityReached)
    } else {
        None
    }
}

/// The environment after `digest` is appended.
pub open spec fn append_post(e: EnvView, digest: Digest) -> EnvView {
    e.with_storage(
        StorageView {
            attestation_append_log: e.storage.attestation_append_log.push(digest),
            ..e.storage
        },
    ).publish(
        Event::AttestationDigestAppended(
            AttestationDigestAppended {
                name: "att_app",
                invoice_id: e.storage.escrow->0.invoice_id,
                index: e.storage.attestation_append_log.len() as u32,
                digest,
            },
        ),
    )
}

/// The log entry at `index`.
pub open spec fn digest_info(s: StorageView, index: u32) -> Option<AttestationDigestInfo> {
    if index < s.attestation_append_log.len() {
        Some(
            AttestationDigestInfo {
                digest: s.attestation_append_log[index as int],
                revoked: s.attestation_revoked.contains(index),
            },
        )
    } else {
        None
    }
}

/// Why revoking the entry at `index` is refused.
pub open spec fn revoke_refusal(e: EnvView, index: u32) -> Option<Refusal> {
    if e.admin_refusal() is Some {
        e.admin_refusal()
    } else if index >= e.storage.attestation_append_log.len() {
        refused(EscrowError::AttestationIndexOutOfRange)
    } else if e.storage.attestation_revoked.contains(index) {
        refused(EscrowError::AttestationAlreadyRevoked)
    } else {
        None
    }
}

/// The environment after the entry at `index` is revoked.
pub open spec fn revoke_post(e: EnvView, index: u32) -> EnvView {
    e.with_storage(
        StorageView {
            attestation_revoked: e.storage.attestation_revoked.insert(index),
            ..e.storage
        },
    ).publish(
        Event::AttestationDigestRevoked(
            AttestationDigestRevoked {
                name: "att_rev",
                invoice_id: e.storage.escrow->0.invoice_id,
                index,
            },
        ),
    )
}

/// The first `n` entries revoked one after the other: the environment after the last of them, or
/// the first refusal.
pub open spec fn revoked_in_turn(e: EnvView, indices: Seq<u32>, n: nat) -> Result<EnvView, Refusal>
    decreases n,
{
    if n == 0 {
        Ok(e)
    } else {
        match revoked_in_turn(e, indices, (n - 1) as nat) {
            Err(why) => Err(why),
            Ok(before) => match revoke_refusal(before, indices[n - 1]) {
                Some(why) => Err(why),
                None => Ok(revoke_post(before, indices[n - 1])),
            },
        }
    }
}

/// Why revoking a batch of entries is refused.
pub open spec fn revoke_batch_refusal(e: EnvView, indices: Seq<u32>) -> Option<Refusal> {
    if indices.len() == 0 {
        refused(EscrowError::AttestationBatchEmpty)
    } else if indices.len() > MAX_ATTESTATION_REVOKE_BATCH {
        refused(EscrowError::AttestationBatchTooLarge)
    } else {
        match revoked_in_turn(e, indices, indices.len()) {
            Err(why) => Some(why),
            Ok(_) => None,
        }
    }
}

/// The environment after a batch of entries is revoked.
pub open spec fn revoke_batch_post(e: EnvView, indices: Seq<u32>) -> EnvView {
    revoked_in_turn(e, indices, indices.len())->Ok_0
}

/// Why taking back the revocation of the entry at `index` is refused.
pub open spec fn unrevoke_refusal(e: EnvView, index: u32) -> Option<Refusal> {
    if index >= e.storage.attestation_append_log.len() {
        refused(EscrowError::AttestationIndexOutOfRange)
    } else if !e.storage.attestation_revoked.contains(index) {
        refused(EscrowError::AttestationNotRevoked)
    } else {
        e.admin_refusal()
    }
}

/// The environment after the revocation of the entry at `index` is taken back.
pub open spec fn unrevoke_post(e: EnvView, index: u32) -> EnvView {
    e.with_storage(
        StorageView {
            attestation_revoked: e.storage.attestation_revoked.remove(index),
            ..e.storage
        },
    ).publish(
        Event::AttestationDigestUnrevoked(
            AttestationDigestUnrevoked {
                name: "att_unrev",
                invoice_id: e.storage.escrow->0.invoice_id,
                index,
            },
        ),
    )
}

proof fn lemma_revoke_refusal_stays(e: EnvView, indices: Seq<u32>, n: nat, m: nat)
    requires
        n <= m,
        revoked_in_turn(e, indices, n) is Err,
    ensures
        revoked_in_turn(e, indices, m) == revoked_in_turn(e, indices, n),
    decreases m,
{
    if n < m {
        lemma_revoke_refusal_stays(e, indices, n, (m - 1) as nat);
    }
}

impl LiquifactEscrow {
    /// Binds the primary digest, once and for all.
    pub fn bind_primary_attestation_hash(env: &mut ContractEnv, digest: Digest) -> (r: Result<
        (),
        Refusal,
    >)
        ensures
            outcome(
                bind_primary_refusal(old(env)@),
                old(env)@,
                bind_primary_post(old(env)@, digest),
                (),
                r,
                final(env)@,
            ),
    {
        let escrow = Self::load_escrow_require_admin(env)?;
        ensure(
            env.storage.primary_attestation_hash.is_none(),
            EscrowError::PrimaryAttestationAlreadyBound,
        )?;
        env.storage.primary_attestation_hash = Some(digest);
        env.publish(
            Event::PrimaryAttestationBound(
                PrimaryAttestationBound { name: "att_bind", invoice_id: escrow.invoice_id, digest },
            ),
        );
        Ok(())
    }

    /// The primary digest.
    pub fn get_primary_attestation_hash(env: &ContractEnv) -> (r: Option<Digest>)
        ensures
            r == env@.storage.primary_attestation_hash,
    {
        env.storage.primary_attestation_hash
    }

    /// Appends a digest to the log, which holds at most [`MAX_ATTESTATION_APPEND_ENTRIES`].
    pub fn append_attestation_digest(env: &mut ContractEnv, digest: Digest) -> (r: Result<
        (),
        Refusal,
    >)
        ensures
            outcome(
                append_refusal(old(env)@),
                old(env)@,
                append_post(old(env)@, digest),
                (),
                r,
                final(env)@,
            ),
    {
        let escrow = Self::load_escrow_require_admin(env)?;
        let idx: usize = env.storage.attestation_append_log.len();
        ensure(
            idx < MAX_ATTESTATION_APPEND_ENTRIES as usize,
            EscrowError::AttestationAppendLogCapacityReached,
        )?;
        env.storage.attestation_append_log.push(digest);
        env.publish(
            Event::AttestationDigestAppended(
                AttestationDigestAppended {
                    name: "att_app",
                    invoice_id: escrow.invoice_id,
                    index: idx as u32,
                    digest,
                },
            ),
        );
        Ok(())
    }

    /// The digests of the log, in the order in which they were appended.
    pub fn get_attestation_append_log(env: &ContractEnv) -> (r: Vec<Digest>)
        ensures
            r@ == env@.storage.attestation_append_log,
    {
        copy_items(&env.storage.attestation_append_log)
    }

    /// The log entry at `index`, with its revocation mark.
    pub fn get_attestation_digest_at(env: &ContractEnv, index: u32) -> (r: Option<
        AttestationDigestInfo,
    >)
        ensures
            r == digest_info(env@.storage, index),
    {
        if index as usize >= env.storage.attestation_append_log.len() {
            return None;
        }
        let digest = env.storage.attestation_append_log[index as usize];
        let revoked = env.storage.attestation_revoked.contains(&index);
        Some(AttestationDigestInfo { digest, revoked })
    }

    /// Marks the log entry at `index` as revoked.
    pub fn revoke_attestation_digest(env: &mut ContractEnv, index: u32) -> (r: Result<(), Refusal>)
        ensures
            outcome(
                revoke_refusal(old(env)@, index),
                old(env)@,
                revoke_post(old(env)@, index),
                (),
                r,
                final(env)@,
            ),
    {
        let escrow = Self::load_escrow_require_admin(env)?;
        ensure(
            (index as usize) < env.storage.attestation_append_log.len(),
            EscrowError::AttestationIndexOutOfRange,
        )?;
        ensure(
            !env.storage.attestation_revoked.contains(&index),
            EscrowError::AttestationAlreadyRevoked,
        )?;
        env.storage.attestation_revoked.insert(index);
        env.publish(
            Event::AttestationDigestRevoked(
                AttestationDigestRevoked { name: "att_rev", invoice_id: escrow.invoice_id, index },
            ),
        );
        Ok(())
    }

    /// Marks every one of the log entries as revoked, in this order, or none at all. An index that
    /// comes twice is refused as revoked already.
    pub fn revoke_attestation_digests(env: &mut ContractEnv, indices: &Vec<u32>) -> (r: Result<
        (),
        Refusal,
    >)
        ensures
            outcome(
                revoke_batch_refusal(old(env)@, indices@),
                old(env)@,
                revoke_batch_post(old(env)@, indices@),
                (),
                r,
                final(env)@,
            ),
    {
        let n: usize = indices.len();
        ensure(n > 0, EscrowError::AttestationBatchEmpty)?;
        ensure(
            n <= MAX_ATTESTATION_REVOKE_BATCH as usize,
            EscrowError::AttestationBatchTooLarge,
        )?;
        let saved = env.storage.attestation_revoked.clone();
        let saved_effects: usize = env.effects.len();
        let mut i: usize = 0;
        while i < n
            invariant
                i <= n,
                0 < n == indices@.len() <= MAX_ATTESTATION_REVOKE_BATCH,
                saved@ == old(env)@.storage.attestation_revoked,
                saved_effects == old(env)@.effects.len(),
                revoked_in_turn(old(env)@, indices@, i as nat) == Ok::<EnvView, Refusal>(env@),
                env@ == (EnvView {
                    storage: StorageView {
                        attestation_revoked: env@.storage.attestation_revoked,
                        ..old(env)@.storage
                    },
                    effects: env@.effects,
                    ..old(env)@
                }),
                env@.effects.len() >= saved_effects,
                env@.effects.take(saved_effects as int) == old(env)@.effects,
            decreases n - i,
        {
            match Self::revoke_attestation_digest(env, indices[i]) {
                Ok(()) => {
                    assert(env@.effects.take(saved_effects as int) =~= old(env)@.effects);
                },
                Err(why) => {
                    proof {
                        lemma_revoke_refusal_stays(old(env)@, indices@, (i + 1) as nat, n as nat);
                    }
                    env.storage.attestation_revoked = saved;
                    env.effects.truncate(saved_effects);
                    assert(env@ =~= old(env)@);
                    return Err(why);
                },
            }
            i += 1;
        }
        Ok(())
    }

    /// Whether the log entry at `index` is marked as revoked.
    pub fn is_attestation_revoked(env: &ContractEnv, index: u32) -> (r: bool)
        ensures
            r == env@.storage.attestation_revoked.contains(index),
    {
        env.storage.attestation_revoked.contains(&index)
    }

    /// Takes the revocation of the log entry at `index` back.
    pub fn unrevoke_attestation_digest(env: &mut ContractEnv, index: u32) -> (r: Result<
        (),
        Refusal,
    >)
        ensures
            outcome(
                unrevoke_refusal(old(env)@, index),
                old(env)@,
                unrevoke_post(old(env)@, index),
                (),
                r,
                final(env)@,
            ),
    {
        ensure(
            (index as usize) < env.storage.attestation_append_log.len(),
            EscrowError::AttestationIndexOutOfRange,
        )?;
        ensure(
            env.storage.attestation_revoked.contains(&index),
            EscrowError::AttestationNotRevoked,
        )?;
        let escrow = Self::load_escrow_require_admin(env)?;
        env.storage.attestation_revoked.remove(&index);
        env.publish(
            Event::AttestationDigestUnrevoked(
                AttestationDigestUnrevoked {
                    name: "att_unrev",
                    invoice_id: escrow.invoice_id,
                    index,
                },
            ),
        );
        Ok(())
    }
}

} // verus!
