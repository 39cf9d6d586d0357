//! The records that the vault's instructions announce when they succeed.
use vstd::prelude::*;

use crate::pubkey::Pubkey;

verus! {

/// A vault was set up.
#[derive(Clone, Copy, Debug, PartialEq, Eq)]
pub struct VaultInitializedEvent {
    pub vault: Pubkey,
    pub authority: Pubkey,
    pub emergency_admin: Pubkey,
    pub bump: u8,
    pub timestamp: i64,
}

/// Tokens were deposited; `amount` is what reached the vault after the fee.
#[derive(Clone, Copy, Debug, PartialEq, Eq)]
pub struct TokenDepositedEvent {
    pub vault: Pubkey,
    pub token_mint: Pubkey,
    pub amount: u64,
    pub fee_amount: u64,
    pub depositor: Pubkey,
    pub timestamp: i64,
}

/// Tokens were withdrawn; `amount` is what the recipient received after the fee.
#[derive(Clone, Copy, Debug, PartialEq, Eq)]
pub struct TokenWithdrawnEvent {
    pub vault: Pubkey,
    pub token_mint: Pubkey,
    pub amount: u64,
    pub fee_amount: u64,
    pub recipient: Pubkey,
    pub timestamp: i64,
}

/// Lamports were withdrawn; `amount` is what the recipient received after the fee.
#[derive(Clone, Copy, Debug, PartialEq, Eq)]
pub struct SolWithdrawnEvent {
    pub vault: Pubkey,
    pub amount: u64,
    pub fee_amount: u64,
    pub recipient: Pubkey,
    pub timestamp: i64,
}

/// The authority sent lamports; `amount` is what the recipient received after the fee.
#[derive(Clone, Copy, Debug, PartialEq, Eq)]
pub struct SolTransferredEvent {
    pub vault: Pubkey,
    pub authority: Pubkey,
    pub amount: u64,
    pub fee_amount: u64,
    pub recipient: Pubkey,
    pub timestamp: i64,
}

/// The multi-signature authority was set up.
#[derive(Clone, Debug, PartialEq, Eq)]
pub struct MultiSigInitializedEvent {
    pub vault: Pubkey,
    pub authority: Pubkey,
    pub owners: Vec<Pubkey>,
    pub threshold: u64,
    pub nonce: u8,
    pub timestamp: i64,
}

/// The vault started accepting a token.
#[derive(Clone, Copy, Debug, PartialEq, Eq)]
pub struct TokenAddedEvent {
    pub vault: Pubkey,
    pub authority: Pubkey,
    pub token_mint: Pubkey,
    pub vault_token_account: Pubkey,
    pub timestamp: i64,
}

/// A multi-signature transaction was proposed.
#[derive(Clone, Copy, Debug, PartialEq, Eq)]
pub struct MultiSigTransactionCreatedEvent {
    pub vault: Pubkey,
    pub transaction_id: u64,
    pub proposer: Pubkey,
    pub target_program: Pubkey,
    pub instruction_count: u32,
    pub timestamp: i64,
}

/// An owner approved a multi-signature transaction.
#[derive(Clone, Copy, Debug, PartialEq, Eq)]
pub struct MultiSigTransactionApprovedEvent {
    pub vault: Pubkey,
    pub transaction_id: u64,
    pub approver: Pubkey,
    pub current_approvals: u32,
    pub required_approvals: u32,
    pub timestamp: i64,
}

/// A multi-signature transaction was carried out.
#[derive(Clone, Copy, Debug, PartialEq, Eq)]
pub struct MultiSigTransactionExecutedEvent {
    pub vault: Pubkey,
    pub transaction_id: u64,
    pub executor: Pubkey,
    pub target_program: Pubkey,
    pub timestamp: i64,
}

/// The owners of the multi-signature authority were replaced.
#[derive(Clone, Debug, PartialEq, Eq)]
pub struct MultiSigOwnersUpdatedEvent {
    pub vault: Pubkey,
    pub authority: Pubkey,
    pub old_owners: Vec<Pubkey>,
    pub new_owners: Vec<Pubkey>,
    pub timestamp: i64,
}

/// The threshold of the multi-signature authority changed.
#[derive(Clone, Copy, Debug, PartialEq, Eq)]
pub struct MultiSigThresholdUpdatedEvent {
    pub vault: Pubkey,
    pub authority: Pubkey,
    pub old_threshold: u64,
    pub new_threshold: u64,
    pub timestamp: i64,
}

} // verus!
