//! Changing how many owners must approve a multi-signature transaction.
use vstd::prelude::*;

use crate::error::VaultError;
use crate::events::MultiSigThresholdUpdatedEvent;
use crate::pubkey::Pubkey;
use crate::state::{MultiSigView, Vault, VaultView};

use crate::machine::{after_step, step, VaultOperation};
verus! {

/// The vault after the threshold of its multi-signature authority becomes
/// `threshold`, or why this is refused: the authority must exist, and the
/// threshold must be positive and no more than the number of owners.
pub open spec fn change_threshold_outcome(v: VaultView, threshold: u64) -> Result<VaultView, VaultError> {
    match v.multi_sig {
        None => Err(VaultError::MultisigNotInitialized),
        Some(ms) => if !(threshold > 0 && threshold <= ms.owners.len()) {
            Err(VaultError::InvalidThreshold)
        } else {
            Ok(VaultView { multi_sig: Some(MultiSigView { threshold, ..ms }), ..v })
        },
    }
}

/// Sets the threshold of the multi-signature authority of the vault at
/// `vault_key` to `threshold`, for `authority`, at time `now`. On success
/// the vault has changed as `change_threshold_outcome` says and the
/// returned record names the threshold before and after; on refusal the
/// vault is unchanged.
pub fn handler(vault: &mut Vault, vault_key: Pubkey, authority: Pubkey, threshold: u64, now: i64) -> (result:
    Result<MultiSigThresholdUpdatedEvent, VaultError>)
    ensures
        final(vault)@ == after_step(old(vault)@, (VaultOperation::ChangeThreshold { threshold })),
        result is Ok <==> step(old(vault)@, (VaultOperation::ChangeThreshold { threshold })) is Ok,
        match result {
            Ok(event) => {
                &&& change_threshold_outcome(old(vault)@, threshold) == Ok::<VaultView, VaultError>(final(vault)@)
                &&& old(vault)@.multi_sig matches Some(ms) && event == (MultiSigThresholdUpdatedEvent {
                    vault: vault_key,
                    authority,
                    old_threshold: ms.threshold,
                    new_threshold: threshold,
                    timestamp: now,
                })
            },
            Err(e) => {
                &&& change_threshold_outcome(old(vault)@, threshold) == Err::<VaultView, VaultError>(e)
                &&& *final(vault) == *old(vault)
            },
        },
{
    let old_threshold = match &mut vault.multi_sig {
        None => {
            return Err(VaultError::MultisigNotInitialized);
        },
        Some(ms) => {
            if !(threshold > 0 && threshold <= ms.owners.len() as u64) {
                return Err(VaultError::InvalidThreshold);
            }
            let previous = ms.threshold;
            ms.threshold = threshold;
            previous
        },
    };
    Ok(
        MultiSigThresholdUpdatedEvent {
            vault: vault_key,
            authority,
            old_threshold,
            new_threshold: threshold,
            timestamp: now,
        },
    )
}

} // verus!
