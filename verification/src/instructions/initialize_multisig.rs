//! Setting up the vault's multi-signature authority.
use vstd::prelude::*;

use crate::error::VaultError;
use crate::events::MultiSigInitializedEvent;
use crate::pubkey::{copy_keys, Pubkey};
use crate::search::all_distinct;
use crate::state::{MultiSig, MultiSigView, Vault, VaultView};

use crate::machine::{after_step, step, VaultOperation};
verus! {

/// The vault after its multi-signature authority is set to `owners`, of
/// whom `threshold` must approve, or why this is refused: the threshold must
/// be positive and no more than the number of owners, and no owner may be
/// named twice. An authority that was there before is replaced.
pub open spec fn initialize_multisig_outcome(
    v: VaultView,
    owners: Seq<Pubkey>,
    threshold: u64,
    nonce: u8,
) -> Result<VaultView, VaultError> {
    if !(threshold > 0 && threshold <= owners.len()) {
        Err(VaultError::InvalidThreshold)
    } else if !owners.no_duplicates() {
        Err(VaultError::DuplicateOwners)
    } else {
        Ok(
            VaultView {
                multi_sig: Some(MultiSigView { owners, threshold, nonce, bump: 0 }),
                ..v
            },
        )
    }
}

/// Sets the multi-signature authority of the vault at `vault_key` to
/// `owners` and `threshold`, for `authority`, at time `now`. On success the
/// vault has changed as `initialize_multisig_outcome` says and the returned
/// record repeats the new authority; on refusal the vault is unchanged.
pub fn handler(
    vault: &mut Vault,
    vault_key: Pubkey,
    authority: Pubkey,
    owners: Vec<Pubkey>,
    threshold: u64,
    nonce: u8,
    now: i64,
) -> (result: Result<MultiSigInitializedEvent, VaultError>)
    ensures
        final(vault)@ == after_step(old(vault)@, (VaultOperation::InitializeMultiSig { owners: owners@, threshold, nonce })),
        result is Ok <==> step(old(vault)@, (VaultOperation::InitializeMultiSig { owners: owners@, threshold, nonce })) is Ok,
        match result {
            Ok(event) => {
                &&& initialize_multisig_outcome(old(vault)@, owners@, threshold, nonce) == Ok::<VaultView, VaultError>(final(vault)@)
                &&& event.vault == vault_key
                &&& event.authority == authority
                &&& event.owners@ == owners@
                &&& event.threshold == threshold
                &&& event.nonce == nonce
                &&& event.timestamp == now
            },
            Err(e) => {
                &&& initialize_multisig_outcome(old(vault)@, owners@, threshold, nonce) == Err::<VaultView, VaultError>(e)
                &&& *final(vault) == *old(vault)
            },
        },
{
    if !(threshold > 0 && threshold <= owners.len() as u64) {
        return Err(VaultError::InvalidThreshold);
    }
    if !all_distinct(&owners) {
        return Err(VaultError::DuplicateOwners);
    }
    vault.multi_sig = Some(MultiSig { owners: copy_keys(&owners), threshold, nonce, bump: 0 });
    Ok(
        MultiSigInitializedEvent {
            vault: vault_key,
            authority,
            owners,
            threshold,
            nonce,
            timestamp: now,
        },
    )
}

} // verus!
