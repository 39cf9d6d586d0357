//! Accepting a new token mint in the vault.
use vstd::prelude::*;

use crate::error::VaultError;
use crate::events::TokenAddedEvent;
use crate::pubkey::Pubkey;
use crate::search::{lemma_first_index_of, position_of_token, token_mints};
use crate::state::{SupportedToken, Vault, VaultView};

use crate::machine::{after_step, step, VaultOperation};
verus! {

/// The vault after it starts accepting `mint`, or why this is refused: no
/// entry may have the mint already. The new entry comes last, active, with
/// zero totals.
pub open spec fn add_token_outcome(v: VaultView, mint: Pubkey) -> Result<VaultView, VaultError> {
    if token_mints(v.supported_tokens).contains(mint) {
        Err(VaultError::TokenAlreadySupported)
    } else {
        Ok(
            VaultView {
                supported_tokens: v.supported_tokens.push(
                    SupportedToken {
                        mint,
                        bump: 0,
                        total_deposited: 0,
                        total_withdrawn: 0,
                        is_active: true,
                    },
                ),
                ..v
            },
        )
    }
}

/// Makes the vault at `vault_key` accept `mint`, whose tokens it holds in
/// `vault_token_account`, for `authority`, at time `now`. On success the
/// vault has changed as `add_token_outcome` says and the returned record
/// names the mint and the account; on refusal the vault is unchanged.
pub fn handler(
    vault: &mut Vault,
    vault_key: Pubkey,
    authority: Pubkey,
    mint: Pubkey,
    vault_token_account: Pubkey,
    now: i64,
) -> (result: Result<TokenAddedEvent, VaultError>)
    ensures
        final(vault)@ == after_step(old(vault)@, (VaultOperation::AddSupportedToken { mint })),
        result is Ok <==> step(old(vault)@, (VaultOperation::AddSupportedToken { mint })) is Ok,
        match result {
            Ok(event) => {
                &&& add_token_outcome(old(vault)@, mint) == Ok::<VaultView, VaultError>(final(vault)@)
                &&& event == (TokenAddedEvent {
                    vault: vault_key,
                    authority,
                    token_mint: mint,
                    vault_token_account,
                    timestamp: now,
                })
            },
            Err(e) => {
                &&& add_token_outcome(old(vault)@, mint) == Err::<VaultView, VaultError>(e)
                &&& *final(vault) == *old(vault)
            },
        },
{
    proof {
        lemma_first_index_of(token_mints(vault@.supported_tokens), mint);
    }
    if position_of_token(&vault.supported_tokens, &mint).is_some() {
        return Err(VaultError::TokenAlreadySupported);
    }
    vault.supported_tokens.push(
        SupportedToken { mint, bump: 0, total_deposited: 0, total_withdrawn: 0, is_active: true },
    );
    Ok(TokenAddedEvent { vault: vault_key, authority, token_mint: mint, vault_token_account, timestamp: now })
}

} // verus!
