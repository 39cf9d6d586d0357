//! The vault as a state machine: each instruction takes the vault to a
//! next state or is refused and leaves it as it was.
use vstd::prelude::*;

use crate::error::VaultError;
use crate::instructions::add_supported_token::add_token_outcome;
use crate::instructions::approve_multisig_tx::approve_outcome;
use crate::instructions::change_multisig_threshold::change_threshold_outcome;
use crate::instructions::create_multisig_tx::create_transaction_outcome;
use crate::instructions::deposit::deposit_outcome;
use crate::instructions::execute_multisig_tx::execute_outcome;
use crate::instructions::initialize::initialize_outcome;
use crate::instructions::initialize_multisig::initialize_multisig_outcome;
use crate::instructions::set_multisig_owners::set_owners_outcome;
use crate::instructions::withdraw::withdraw_outcome;
use crate::instructions::withdraw_sol::lamport_withdrawal_outcome;
use crate::pubkey::Pubkey;
use crate::state::{TransactionAccount, VaultView};

verus! {

/// One instruction applied to the vault, with the arguments that its
/// outcome depends on.
pub enum VaultOperation {
    Initialize { authority: Pubkey, emergency_admin: Pubkey, bump: u8 },
    Deposit { mint: Pubkey, amount: u64, now: i64 },
    Withdraw { mint: Pubkey, amount: u64, now: i64 },
    WithdrawSol { vault_lamports: u64, amount: u64 },
    TransferSol { vault_lamports: u64, amount: u64 },
    InitializeMultiSig { owners: Seq<Pubkey>, threshold: u64, nonce: u8 },
    AddSupportedToken { mint: Pubkey },
    CreateTransaction {
        vault_key: Pubkey,
        proposer: Pubkey,
        program_id: Pubkey,
        accounts: Seq<TransactionAccount>,
        data: Seq<u8>,
        now: i64,
    },
    ApproveTransaction { approver: Pubkey, transaction_id: u64 },
    ExecuteTransaction { multisig_signer: Pubkey, transaction_id: u64, expected_signer: Option<Seq<u8>> },
    SetOwners { owners: Seq<Pubkey> },
    ChangeThreshold { threshold: u64 },
}

/// The vault after an instruction, or why the instruction is refused.
pub open spec fn step(v: VaultView, op: VaultOperation) -> Result<VaultView, VaultError> {
    match op {
        VaultOperation::Initialize { authority, emergency_admin, bump } => Ok(
            initialize_outcome(v, authority, emergency_admin, bump),
        ),
        VaultOperation::Deposit { mint, amount, now } => deposit_outcome(v, mint, amount, now),
        VaultOperation::Withdraw { mint, amount, now } => withdraw_outcome(v, mint, amount, now),
        VaultOperation::WithdrawSol { vault_lamports, amount } => lamport_withdrawal_outcome(
            v,
            vault_lamports,
            amount,
        ),
        VaultOperation::TransferSol { vault_lamports, amount } => lamport_withdrawal_outcome(
            v,
            vault_lamports,
            amount,
        ),
        VaultOperation::InitializeMultiSig { owners, threshold, nonce } => initialize_multisig_outcome(
            v,
            owners,
            threshold,
            nonce,
        ),
        VaultOperation::AddSupportedToken { mint } => add_token_outcome(v, mint),
        VaultOperation::CreateTransaction { vault_key, proposer, program_id, accounts, data, now } =>
            create_transaction_outcome(v, vault_key, proposer, program_id, accounts, data, now),
        VaultOperation::ApproveTransaction { approver, transaction_id } => approve_outcome(
            v,
            approver,
            transaction_id,
        ),
        VaultOperation::ExecuteTransaction { multisig_signer, transaction_id, expected_signer } =>
            execute_outcome(v, multisig_signer, transaction_id, expected_signer),
        VaultOperation::SetOwners { owners } => set_owners_outcome(v, owners),
        VaultOperation::ChangeThreshold { threshold } => change_threshold_outcome(v, threshold),
    }
}

/// The vault after an instruction: the next state where it is accepted,
/// the same state where it is refused.
pub open spec fn after_step(v: VaultView, op: VaultOperation) -> VaultView {
    match step(v, op) {
        Ok(next) => next,
        Err(_) => v,
    }
}

} // verus!
