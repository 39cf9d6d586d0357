//! Creating a vault whose legacy mint is its first supported token.
use vstd::prelude::*;

use crate::modules::utils::AccountError;
use crate::pubkey::Pubkey;
use crate::state::{FeeConfig, SupportedToken, Vault, VaultView};

verus! {

/// A new vault of `authority` for `mint`, whose address was derived with
/// `bump`: the authority is also the emergency admin and the fee recipient,
/// no fees are charged, nothing is paused, locked or collected, and the
/// mint is the legacy mint and the one supported token, active, with zero
/// totals.
pub open spec fn initial_vault(authority: Pubkey, mint: Pubkey, bump: u8) -> VaultView {
    VaultView {
        authority,
        bump,
        emergency_admin: authority,
        paused: false,
        supported_tokens: seq![
            SupportedToken { mint, bump: 0, total_deposited: 0, total_withdrawn: 0, is_active: true },
        ],
        token_balances: Seq::empty(),
        time_locks: Seq::empty(),
        proposals: Seq::empty(),
        next_proposal_id: 0,
        fee_config: FeeConfig { deposit_fee_bps: 0, withdrawal_fee_bps: 0, fee_recipient: authority },
        total_value_locked: 0,
        total_fees_collected: 0,
        legacy_mint: Some(mint),
        legacy_total_deposited: 0,
        governance_config: None,
        governance_proposals: Seq::empty(),
        next_governance_proposal_id: 0,
        vote_records: Seq::empty(),
        voter_registry: Seq::empty(),
        multi_sig: None,
        multi_sig_transactions: Seq::empty(),
        yield_strategies: Seq::empty(),
        emergency_logs: Seq::empty(),
    }
}

/// The vault that `authority` creates for `mint`, with the address's
/// `bump`, or `MissingRequiredSignature` where the authority did not sign.
/// The caller creates the account and stores the vault in it.
pub fn process_initialize(authority: Pubkey, authority_is_signer: bool, mint: Pubkey, bump: u8) -> (result:
    Result<Vault, AccountError>)
    ensures
        match result {
            Ok(vault) => authority_is_signer && vault@ == initial_vault(authority, mint, bump),
            Err(e) => !authority_is_signer && e == AccountError::MissingRequiredSignature,
        },
{
    if !authority_is_signer {
        return Err(AccountError::MissingRequiredSignature);
    }
    let mut supported_tokens: Vec<SupportedToken> = Vec::new();
    supported_tokens.push(
        SupportedToken { mint, bump: 0, total_deposited: 0, total_withdrawn: 0, is_active: true },
    );
    let vault = Vault {
        authority,
        bump,
        emergency_admin: authority,
        paused: false,
        supported_tokens,
        token_balances: Vec::new(),
        time_locks: Vec::new(),
        proposals: Vec::new(),
        next_proposal_id: 0,
        fee_config: FeeConfig { deposit_fee_bps: 0, withdrawal_fee_bps: 0, fee_recipient: authority },
        total_value_locked: 0,
        total_fees_collected: 0,
        legacy_mint: Some(mint),
        legacy_total_deposited: 0,
        governance_config: None,
        governance_proposals: Vec::new(),
        next_governance_proposal_id: 0,
        vote_records: Vec::new(),
        voter_registry: Vec::new(),
        multi_sig: None,
        multi_sig_transactions: Vec::new(),
        yield_strategies: Vec::new(),
        emergency_logs: Vec::new(),
    };
    assert(vault@.supported_tokens =~= initial_vault(authority, mint, bump).supported_tokens);
    assert(vault@.multi_sig_transactions =~= Seq::<crate::state::MultiSigTransactionView>::empty());
    Ok(vault)
}

} // verus!
