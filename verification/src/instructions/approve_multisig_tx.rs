//! An owner approving a pending multi-signature transaction.
use vstd::prelude::*;

use crate::error::VaultError;
use crate::events::MultiSigTransactionApprovedEvent;
use crate::pubkey::Pubkey;
use crate::search::{approval_count, count_approvals, first_index_of, position_of_key};
use crate::state::{MultiSigTransactionView, Vault, VaultView};

use crate::machine::{after_step, step, VaultOperation};
verus! {

/// Whether an approval that passes its checks finds the approver's place
/// among the transaction's approvals; after the owners were replaced by a
/// longer list it may not, and then the approval must not be made.
pub open spec fn approve_fits(v: VaultView, approver: Pubkey, transaction_id: u64) -> bool {
    match v.multi_sig {
        None => true,
        Some(ms) => match first_index_of(ms.owners, approver) {
            None => true,
            Some(owner_index) => (transaction_id < v.multi_sig_transactions.len()
                && !v.multi_sig_transactions[transaction_id as int].did_execute) ==> owner_index
                < v.multi_sig_transactions[transaction_id as int].signers.len(),
        },
    }
}

/// The vault after `approver` approves transaction `transaction_id`, or
/// why this is refused: the multi-signature authority must exist, the
/// approver must be one of its owners, the transaction must exist, must not
/// have been executed and must not carry this owner's approval yet. The
/// approval given is the one at the approver's first position among the
/// owners; nothing else changes.
pub open spec fn approve_outcome(v: VaultView, approver: Pubkey, transaction_id: u64) -> Result<
    VaultView,
    VaultError,
> {
    match v.multi_sig {
        None => Err(VaultError::MultisigNotInitialized),
        Some(ms) => match first_index_of(ms.owners, approver) {
            None => Err(VaultError::InvalidOwner),
            Some(owner_index) => if transaction_id >= v.multi_sig_transactions.len() {
                Err(VaultError::TransactionNotFound)
            } else {
                let tx = v.multi_sig_transactions[transaction_id as int];
                if tx.did_execute {
                    Err(VaultError::TransactionAlreadyExecuted)
                } else if tx.signers[owner_index] {
                    Err(VaultError::TransactionAlreadySigned)
                } else {
                    Ok(
                        VaultView {
                            multi_sig_transactions: v.multi_sig_transactions.update(
                                transaction_id as int,
                                MultiSigTransactionView {
                                    signers: tx.signers.update(owner_index, true),
                                    ..tx
                                },
                            ),
                            ..v
                        },
                    )
                }
            },
        },
    }
}

/// Whether the approval of transaction `transaction_id` by `approver` finds
/// the approver's place among the transaction's approvals; where it would
/// not, the approval must not be made.
pub fn approve_within_limits(vault: &Vault, approver: &Pubkey, transaction_id: u64) -> (fits: bool)
    ensures
        fits == approve_fits(vault@, *approver, transaction_id),
{
    match &vault.multi_sig {
        None => true,
        Some(ms) => match position_of_key(&ms.owners, approver) {
            None => true,
            Some(owner_index) => {
                if transaction_id >= vault.multi_sig_transactions.len() as u64 {
                    return true;
                }
                let tx = &vault.multi_sig_transactions[transaction_id as usize];
                tx.did_execute || owner_index < tx.signers.len()
            },
        },
    }
}

/// Records the approval of transaction `transaction_id` of the vault at
/// `vault_key` by `approver`, at time `now`. On success the vault has
/// changed as `approve_outcome` says and the returned record counts the
/// approvals the transaction now has, and how many it needs, each kept to
/// its low 32 bits; on refusal the vault is unchanged.
pub fn handler(
    vault: &mut Vault,
    vault_key: Pubkey,
    approver: Pubkey,
    transaction_id: u64,
    now: i64,
) -> (result: Result<MultiSigTransactionApprovedEvent, VaultError>)
    requires
        approve_fits(old(vault)@, approver, transaction_id),
    ensures
        final(vault)@ == after_step(old(vault)@, (VaultOperation::ApproveTransaction { approver, transaction_id })),
        result is Ok <==> step(old(vault)@, (VaultOperation::ApproveTransaction { approver, transaction_id })) is Ok,
        match result {
            Ok(event) => {
                &&& approve_outcome(old(vault)@, approver, transaction_id) == Ok::<VaultView, VaultError>(final(vault)@)
                &&& old(vault)@.multi_sig matches Some(ms) && event == (MultiSigTransactionApprovedEvent {
                    vault: vault_key,
                    transaction_id,
                    approver,
                    current_approvals: approval_count(final(vault)@.multi_sig_transactions[transaction_id as int].signers) as u32,
                    required_approvals: ms.threshold as u32,
                    timestamp: now,
                })
            },
            Err(e) => {
                &&& approve_outcome(old(vault)@, approver, transaction_id) == Err::<VaultView, VaultError>(e)
                &&& *final(vault) == *old(vault)
            },
        },
{
    let (threshold, owner_index) = match &vault.multi_sig {
        None => {
            return Err(VaultError::MultisigNotInitialized);
        },
        Some(ms) => match position_of_key(&ms.owners, &approver) {
            None => {
                return Err(VaultError::InvalidOwner);
            },
            Some(i) => (ms.threshold, i),
        },
    };
    if transaction_id >= vault.multi_sig_transactions.len() as u64 {
        return Err(VaultError::TransactionNotFound);
    }
    let index = transaction_id as usize;
    if vault.multi_sig_transactions[index].did_execute {
        return Err(VaultError::TransactionAlreadyExecuted);
    }
    if vault.multi_sig_transactions[index].signers[owner_index] {
        return Err(VaultError::TransactionAlreadySigned);
    }
    let ghost before = vault.multi_sig_transactions[index as int]@;
    vault.multi_sig_transactions[index].signers[owner_index] = true;
    assert(vault@.multi_sig_transactions =~= old(vault)@.multi_sig_transactions.update(
        index as int,
        MultiSigTransactionView { signers: before.signers.update(owner_index as int, true), ..before },
    ));
    let current_approvals = count_approvals(&vault.multi_sig_transactions[index].signers);
    #[verifier::truncate]
    let current: u32 = current_approvals as u32;
    #[verifier::truncate]
    let required: u32 = threshold as u32;
    Ok(
        MultiSigTransactionApprovedEvent {
            vault: vault_key,
            transaction_id,
            approver,
            current_approvals: current,
            required_approvals: required,
            timestamp: now,
        },
    )
}

} // verus!
