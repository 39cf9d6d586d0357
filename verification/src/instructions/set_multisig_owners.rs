//! Replacing the owners of the vault's multi-signature authority.
use vstd::prelude::*;

use crate::error::VaultError;
use crate::events::MultiSigOwnersUpdatedEvent;
use crate::pubkey::{copy_keys, Pubkey};
use crate::search::all_distinct;
use crate::state::{MultiSig, MultiSigView, Vault, VaultView};

use crate::machine::{after_step, step, VaultOperation};
verus! {

/// The vault after the owners of its multi-signature authority are
/// replaced by `owners`, or why this is refused: the authority must exist
/// and no owner may be named twice. Where fewer owners remain than the
/// threshold, the threshold drops to their number. Pending transactions
/// keep their approvals as they are.
pub open spec fn set_owners_outcome(v: VaultView, owners: Seq<Pubkey>) -> Result<VaultView, VaultError> {
    match v.multi_sig {
        None => Err(VaultError::MultisigNotInitialized),
        Some(ms) => if !owners.no_duplicates() {
            Err(VaultError::DuplicateOwners)
        } else {
            let threshold = if owners.len() < ms.threshold {
                owners.len() as u64
            } else {
                ms.threshold
            };
            Ok(VaultView { multi_sig: Some(MultiSigView { owners, threshold, ..ms }), ..v })
        },
    }
}

/// Replaces the owners of the multi-signature authority of the vault at
/// `vault_key` by `owners`, for `authority`, at time `now`. On success the
/// vault has changed as `set_owners_outcome` says and the returned record
/// names the owners before and after; on refusal the vault is unchanged.
pub fn handler(
    vault: &mut Vault,
    vault_key: Pubkey,
    authority: Pubkey,
    owners: Vec<Pubkey>,
    now: i64,
) -> (result: Result<MultiSigOwnersUpdatedEvent, VaultError>)
    ensures
        final(vault)@ == after_step(old(vault)@, (VaultOperation::SetOwners { owners: owners@ })),
        result is Ok <==> step(old(vault)@, (VaultOperation::SetOwners { owners: owners@ })) is Ok,
        match result {
            Ok(event) => {
                &&& set_owners_outcome(old(vault)@, owners@) == Ok::<VaultView, VaultError>(final(vault)@)
                &&& event.vault == vault_key
                &&& event.authority == authority
                &&& old(vault)@.multi_sig matches Some(ms) && event.old_owners@ == ms.owners
                &&& event.new_owners@ == owners@
                &&& event.timestamp == now
            },
            Err(e) => {
                &&& set_owners_outcome(old(vault)@, owners@) == Err::<VaultView, VaultError>(e)
                &&& *final(vault) == *old(vault)
            },
        },
{
    let (old_owners, old_threshold, nonce, bump) = match &vault.multi_sig {
        None => {
            return Err(VaultError::MultisigNotInitialized);
        },
        Some(ms) => (copy_keys(&ms.owners), ms.threshold, ms.nonce, ms.bump),
    };
    if !all_distinct(&owners) {
        return Err(VaultError::DuplicateOwners);
    }
    let threshold = if (owners.len() as u64) < old_threshold {
        owners.len() as u64
    } else {
        old_threshold
    };
    vault.multi_sig = Some(MultiSig { owners: copy_keys(&owners), threshold, nonce, bump });
    Ok(
        MultiSigOwnersUpdatedEvent {
            vault: vault_key,
            authority,
            old_owners,
            new_owners: owners,
            timestamp: now,
        },
    )
}

} // verus!
