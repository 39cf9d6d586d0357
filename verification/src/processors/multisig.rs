//! Setting up the multi-signature authority from the vault's account.
use vstd::prelude::*;

use crate::events::MultiSigInitializedEvent;
use crate::modules::utils::AccountError;
use crate::pubkey::{copy_keys, Pubkey};
use crate::state::{MultiSig, MultiSigView, Vault, VaultView};

verus! {

/// The vault after `initializer`, signing or not, sets its multi-signature
/// authority to `authorities` with `threshold`, given that the vault
/// account is owned by `vault_owner` and the program is `program_id`; or
/// why this is refused: the initializer must sign, the program must own the
/// vault account and the initializer must be the vault's authority. The
/// nonce of the new authority is zero; the threshold is not checked.
pub open spec fn initialize_multi_sig_outcome(
    v: VaultView,
    program_id: Pubkey,
    vault_owner: Pubkey,
    initializer: Pubkey,
    initializer_is_signer: bool,
    authorities: Seq<Pubkey>,
    threshold: u8,
) -> Result<VaultView, AccountError> {
    if !initializer_is_signer {
        Err(AccountError::MissingRequiredSignature)
    } else if vault_owner != program_id {
        Err(AccountError::IncorrectProgramId)
    } else if v.authority != initializer {
        Err(AccountError::InvalidAccountData)
    } else {
        Ok(
            VaultView {
                multi_sig: Some(
                    MultiSigView { owners: authorities, threshold: threshold as u64, nonce: 0, bump: 0 },
                ),
                ..v
            },
        )
    }
}

/// Sets the multi-signature authority of `vault`, whose address is
/// `vault_key`, as `initialize_multi_sig_outcome` says, at time `now`. On
/// success the returned record names the vault, the initializer, the new
/// owners, the threshold and the zero nonce; on refusal the vault is
/// unchanged.
pub fn process_initialize_multi_sig(
    program_id: Pubkey,
    vault: &mut Vault,
    vault_key: Pubkey,
    vault_owner: Pubkey,
    initializer: Pubkey,
    initializer_is_signer: bool,
    authorities: &Vec<Pubkey>,
    threshold: u8,
    now: i64,
) -> (result: Result<MultiSigInitializedEvent, AccountError>)
    ensures
        match result {
            Ok(event) => {
                &&& initialize_multi_sig_outcome(
                    old(vault)@,
                    program_id,
                    vault_owner,
                    initializer,
                    initializer_is_signer,
                    authorities@,
                    threshold,
                ) == Ok::<VaultView, AccountError>(final(vault)@)
                &&& event.vault == vault_key
                &&& event.authority == initializer
                &&& event.owners@ == authorities@
                &&& event.threshold == threshold as u64
                &&& event.nonce == 0
                &&& event.timestamp == now
            },
            Err(e) => {
                &&& initialize_multi_sig_outcome(
                    old(vault)@,
                    program_id,
                    vault_owner,
                    initializer,
                    initializer_is_signer,
                    authorities@,
                    threshold,
                ) == Err::<VaultView, AccountError>(e)
                &&& *final(vault) == *old(vault)
            },
        },
{
    if !initializer_is_signer {
        return Err(AccountError::MissingRequiredSignature);
    }
    if !vault_owner.same_as(&program_id) {
        return Err(AccountError::IncorrectProgramId);
    }
    if !vault.authority.same_as(&initializer) {
        return Err(AccountError::InvalidAccountData);
    }
    vault.multi_sig = Some(
        MultiSig { owners: copy_keys(authorities), threshold: threshold as u64, nonce: 0, bump: 0 },
    );
    Ok(
        MultiSigInitializedEvent {
            vault: vault_key,
            authority: initializer,
            owners: copy_keys(authorities),
            threshold: threshold as u64,
            nonce: 0,
            timestamp: now,
        },
    )
}

} // verus!
