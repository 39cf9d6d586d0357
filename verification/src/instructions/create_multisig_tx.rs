//! Proposing a transaction for the owners of the multi-signature authority
//! to approve.
use vstd::prelude::*;

use crate::error::VaultError;
use crate::events::MultiSigTransactionCreatedEvent;
use crate::pubkey::Pubkey;
use crate::search::{first_index_of, lemma_first_index_of, position_of_key};
use crate::state::{MultiSigTransaction, MultiSigTransactionView, TransactionAccount, Vault, VaultView};

use crate::machine::{after_step, step, VaultOperation};
verus! {

/// The approvals of a new transaction: one per owner, only the proposer's
/// given.
pub open spec fn first_approvals(owner_count: nat, proposer_index: int) -> Seq<bool> {
    Seq::new(owner_count, |j: int| j == proposer_index)
}

/// The vault after `proposer` proposes that `program_id` be called with
/// `accounts` and `data`, at `now`, or why this is refused: the
/// multi-signature authority must exist, the proposer must be one of its
/// owners and at least one account must be given. The transaction is added
/// at the end of the list, where its position is its number, approved by
/// the proposer alone.
pub open spec fn create_transaction_outcome(
    v: VaultView,
    vault_key: Pubkey,
    proposer: Pubkey,
    program_id: Pubkey,
    accounts: Seq<TransactionAccount>,
    data: Seq<u8>,
    now: i64,
) -> Result<VaultView, VaultError> {
    match v.multi_sig {
        None => Err(VaultError::MultisigNotInitialized),
        Some(ms) => if !ms.owners.contains(proposer) {
            Err(VaultError::InvalidOwner)
        } else if accounts.len() == 0 {
            Err(VaultError::InvalidTransactionData)
        } else {
            let proposer_index = first_index_of(ms.owners, proposer)->0;
            Ok(
                VaultView {
                    multi_sig_transactions: v.multi_sig_transactions.push(
                        MultiSigTransactionView {
                            multisig: vault_key,
                            program_id,
                            accounts,
                            data,
                            signers: first_approvals(ms.owners.len(), proposer_index),
                            did_execute: false,
                            proposer,
                            created_at: now,
                        },
                    ),
                    ..v
                },
            )
        },
    }
}

/// The approvals of a new transaction among `owner_count` owners, only the
/// one at `proposer_index` given.
fn initial_signers(owner_count: usize, proposer_index: usize) -> (signers: Vec<bool>)
    ensures
        signers@ == first_approvals(owner_count as nat, proposer_index as int),
{
    let mut signers: Vec<bool> = Vec::new();
    let mut j: usize = 0;
    while j < owner_count
        invariant
            j <= owner_count,
            signers@ == first_approvals(j as nat, proposer_index as int),
        decreases owner_count - j,
    {
        signers.push(j == proposer_index);
        j = j + 1;
        assert(signers@ =~= first_approvals(j as nat, proposer_index as int));
    }
    signers
}

/// Adds to the vault at `vault_key` a transaction that `proposer` proposes,
/// calling `target_program_id` with `accounts` and `data`, at time `now`.
/// On success the vault has changed as `create_transaction_outcome` says
/// and the returned record gives the transaction's number, its position in
/// the list; on refusal the vault is unchanged.
pub fn handler(
    vault: &mut Vault,
    vault_key: Pubkey,
    proposer: Pubkey,
    target_program_id: Pubkey,
    accounts: Vec<TransactionAccount>,
    data: Vec<u8>,
    now: i64,
) -> (result: Result<MultiSigTransactionCreatedEvent, VaultError>)
    ensures
        final(vault)@ == after_step(old(vault)@, (VaultOperation::CreateTransaction { vault_key, proposer, program_id: target_program_id, accounts: accounts@, data: data@, now })),
        result is Ok <==> step(old(vault)@, (VaultOperation::CreateTransaction { vault_key, proposer, program_id: target_program_id, accounts: accounts@, data: data@, now })) is Ok,
        match result {
            Ok(event) => {
                &&& create_transaction_outcome(old(vault)@, vault_key, proposer, target_program_id, accounts@, data@, now) == Ok::<VaultView, VaultError>(final(vault)@)
                &&& event == (MultiSigTransactionCreatedEvent {
                    vault: vault_key,
                    transaction_id: old(vault).multi_sig_transactions.len() as u64,
                    proposer,
                    target_program: target_program_id,
                    instruction_count: #[verifier::truncate] (accounts.len() as u32),
                    timestamp: now,
                })
            },
            Err(e) => {
                &&& create_transaction_outcome(old(vault)@, vault_key, proposer, target_program_id, accounts@, data@, now) == Err::<VaultView, VaultError>(e)
                &&& *final(vault) == *old(vault)
            },
        },
{
    let (owner_index, owner_count) = match &vault.multi_sig {
        None => {
            return Err(VaultError::MultisigNotInitialized);
        },
        Some(ms) => {
            proof {
                lemma_first_index_of(ms.owners@, proposer);
            }
            match position_of_key(&ms.owners, &proposer) {
                None => {
                    return Err(VaultError::InvalidOwner);
                },
                Some(i) => (i, ms.owners.len()),
            }
        },
    };
    if accounts.len() == 0 {
        return Err(VaultError::InvalidTransactionData);
    }
    let transaction_id = vault.multi_sig_transactions.len() as u64;
    #[verifier::truncate]
    let instruction_count = accounts.len() as u32;
    let transaction = MultiSigTransaction {
        multisig: vault_key,
        program_id: target_program_id,
        accounts,
        data,
        signers: initial_signers(owner_count, owner_index),
        did_execute: false,
        proposer,
        created_at: now,
    };
    let ghost transaction_view = transaction@;
    vault.multi_sig_transactions.push(transaction);
    assert(vault@.multi_sig_transactions =~= old(vault)@.multi_sig_transactions.push(transaction_view));
    Ok(
        MultiSigTransactionCreatedEvent {
            vault: vault_key,
            transaction_id,
            proposer,
            target_program: target_program_id,
            instruction_count,
            timestamp: now,
        },
    )
}

} // verus!
