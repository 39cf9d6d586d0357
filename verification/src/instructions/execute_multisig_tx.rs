//! Carrying out a multi-signature transaction that has enough approvals.
use vstd::prelude::*;

use crate::error::VaultError;
use crate::events::MultiSigTransactionExecutedEvent;
use crate::pda::{derived_view, multisig_signer_address, program_address, signer_seeds};
use crate::pubkey::{lemma_same_bytes_same_key, Pubkey};
use crate::search::{approval_count, count_approvals};
use crate::state::{MultiSigTransactionView, TransactionAccount, Vault, VaultView};

use crate::machine::{after_step, step, VaultOperation};
verus! {

/// An account as a called program sees it: whether it signs and whether it
/// may be written.
#[derive(Clone, Copy, Debug, PartialEq, Eq)]
pub struct AccountMeta {
    pub pubkey: Pubkey,
    pub is_signer: bool,
    pub is_writable: bool,
}

/// A call of a program with accounts and data.
#[derive(Clone, Debug, PartialEq, Eq)]
pub struct Instruction {
    pub program_id: Pubkey,
    pub accounts: Vec<AccountMeta>,
    pub data: Vec<u8>,
}

/// What carrying out a transaction takes: the call to make, signed by the
/// vault's address and by the multi-signature signer address with its bump
/// seed, and the record to announce once it is made.
#[derive(Clone, Debug, PartialEq, Eq)]
pub struct ExecutionPlan {
    pub instruction: Instruction,
    pub signer_bump: u8,
    pub event: MultiSigTransactionExecutedEvent,
}

/// How an account of a transaction is passed on: it signs where the
/// transaction says so and where it is the multi-signature signer or the
/// vault itself, whose addresses the program signs for.
pub open spec fn planned_meta(account: TransactionAccount, multisig_signer: Pubkey, vault_key: Pubkey) -> AccountMeta {
    AccountMeta {
        pubkey: account.pubkey,
        is_signer: account.pubkey == multisig_signer || account.pubkey == vault_key || account.is_signer,
        is_writable: account.is_writable,
    }
}

/// How each account of a transaction is passed on.
pub open spec fn planned_metas(accounts: Seq<TransactionAccount>, multisig_signer: Pubkey, vault_key: Pubkey) -> Seq<AccountMeta> {
    accounts.map_values(|a: TransactionAccount| planned_meta(a, multisig_signer, vault_key))
}

/// The vault after transaction `transaction_id` is carried out, or why this
/// is refused: the multi-signature authority must exist, the transaction
/// must exist and not have been executed, it must have at least the
/// threshold of approvals, and the signer account given must be the address
/// derived for the authority, `expected_signer`; where no address could be
/// derived, no account is the signer. The transaction is then marked
/// executed; nothing else changes.
pub open spec fn execute_outcome(
    v: VaultView,
    multisig_signer: Pubkey,
    transaction_id: u64,
    expected_signer: Option<Seq<u8>>,
) -> Result<VaultView, VaultError> {
    match v.multi_sig {
        None => Err(VaultError::MultisigNotInitialized),
        Some(ms) => if transaction_id >= v.multi_sig_transactions.len() {
            Err(VaultError::TransactionNotFound)
        } else {
            let tx = v.multi_sig_transactions[transaction_id as int];
            if tx.did_execute {
                Err(VaultError::TransactionAlreadyExecuted)
            } else if approval_count(tx.signers) < ms.threshold {
                Err(VaultError::NotEnoughSigners)
            } else if expected_signer != Some(multisig_signer.0@) {
                Err(VaultError::InvalidAccountData)
            } else {
                Ok(
                    VaultView {
                        multi_sig_transactions: v.multi_sig_transactions.update(
                            transaction_id as int,
                            MultiSigTransactionView { did_execute: true, ..tx },
                        ),
                        ..v
                    },
                )
            }
        },
    }
}

/// The signer address that a derivation gave, if any.
pub open spec fn derived_signer(derived: Option<(Seq<u8>, u8)>) -> Option<Seq<u8>> {
    match derived {
        Some(d) => Some(d.0),
        None => None,
    }
}

/// The signer address derived for the multi-signature authority of the
/// vault at `vault_key` under `program_id`, if there is an authority and an
/// address can be derived.
pub open spec fn expected_signer_for(v: VaultView, vault_key: Pubkey, program_id: Pubkey) -> Option<Seq<u8>> {
    match v.multi_sig {
        Some(ms) => derived_signer(program_address(signer_seeds(vault_key, ms.nonce), program_id.0@)),
        None => None,
    }
}

/// Whether `result`, with the vault going from `before` to `after`, is what
/// carrying out transaction `transaction_id` gives when the derivation of
/// the signer address gave `derived`: an address and its bump seed, or
/// nothing.
pub open spec fn execution_result(
    before: VaultView,
    after: VaultView,
    result: Result<ExecutionPlan, VaultError>,
    vault_key: Pubkey,
    multisig_signer: Pubkey,
    executor: Pubkey,
    transaction_id: u64,
    derived: Option<(Seq<u8>, u8)>,
    now: i64,
) -> bool {
    let expected_signer = derived_signer(derived);
    match result {
        Ok(plan) => {
            let tx = before.multi_sig_transactions[transaction_id as int];
            &&& execute_outcome(before, multisig_signer, transaction_id, expected_signer) == Ok::<VaultView, VaultError>(after)
            &&& plan.instruction.program_id == tx.program_id
            &&& plan.instruction.accounts@ == planned_metas(tx.accounts, multisig_signer, vault_key)
            &&& plan.instruction.data@ == tx.data
            &&& derived matches Some(d) && plan.signer_bump == d.1
            &&& plan.event == (MultiSigTransactionExecutedEvent {
                vault: vault_key,
                transaction_id,
                executor,
                target_program: tx.program_id,
                timestamp: now,
            })
        },
        Err(e) => {
            &&& execute_outcome(before, multisig_signer, transaction_id, expected_signer) == Err::<VaultView, VaultError>(e)
            &&& after == before
        },
    }
}

/// The accounts of a transaction as they are passed on.
fn plan_metas(accounts: &Vec<TransactionAccount>, multisig_signer: &Pubkey, vault_key: &Pubkey) -> (metas: Vec<AccountMeta>)
    ensures
        metas@ == planned_metas(accounts@, *multisig_signer, *vault_key),
{
    let mut metas: Vec<AccountMeta> = Vec::new();
    let mut i: usize = 0;
    while i < accounts.len()
        invariant
            i <= accounts.len(),
            metas@ == planned_metas(accounts@.take(i as int), *multisig_signer, *vault_key),
        decreases accounts.len() - i,
    {
        let account = accounts[i];
        let is_pda_signer = account.pubkey.same_as(multisig_signer) || account.pubkey.same_as(vault_key);
        metas.push(
            AccountMeta {
                pubkey: account.pubkey,
                is_signer: is_pda_signer || account.is_signer,
                is_writable: account.is_writable,
            },
        );
        i = i + 1;
        assert(metas@ =~= planned_metas(accounts@.take(i as int), *multisig_signer, *vault_key));
    }
    assert(accounts@.take(accounts.len() as int) =~= accounts@);
    metas
}

/// A copy of a list of bytes.
fn copy_bytes(bytes: &Vec<u8>) -> (copy: Vec<u8>)
    ensures
        copy@ == bytes@,
{
    let mut copy: Vec<u8> = Vec::new();
    let mut i: usize = 0;
    while i < bytes.len()
        invariant
            i <= bytes.len(),
            copy@ == bytes@.take(i as int),
        decreases bytes.len() - i,
    {
        copy.push(bytes[i]);
        i = i + 1;
        assert(copy@ =~= bytes@.take(i as int));
    }
    assert(bytes@.take(bytes.len() as int) =~= bytes@);
    copy
}

/// Carries out transaction `transaction_id` of the vault at `vault_key`
/// for `executor` at time `now`, given the signer account `multisig_signer`
/// and what the derivation of the multi-signature signer address gave,
/// `derived`: the address with its bump seed, or nothing. The result is as
/// `execution_result` says: on success the transaction is marked executed
/// and the plan holds the call to make; on refusal the vault is unchanged.
pub fn execute_with_signer(
    vault: &mut Vault,
    vault_key: Pubkey,
    multisig_signer: Pubkey,
    executor: Pubkey,
    transaction_id: u64,
    derived: Option<(Pubkey, u8)>,
    now: i64,
) -> (result: Result<ExecutionPlan, VaultError>)
    ensures
        final(vault)@ == after_step(
            old(vault)@,
            (VaultOperation::ExecuteTransaction {
                multisig_signer,
                transaction_id,
                expected_signer: derived_signer(derived_view(derived)),
            }),
        ),
        result is Ok <==> step(
            old(vault)@,
            (VaultOperation::ExecuteTransaction {
                multisig_signer,
                transaction_id,
                expected_signer: derived_signer(derived_view(derived)),
            }),
        ) is Ok,
        execution_result(
            old(vault)@,
            final(vault)@,
            result,
            vault_key,
            multisig_signer,
            executor,
            transaction_id,
            derived_view(derived),
            now,
        ),
{
    let threshold = match &vault.multi_sig {
        None => {
            return Err(VaultError::MultisigNotInitialized);
        },
        Some(ms) => ms.threshold,
    };
    if transaction_id >= vault.multi_sig_transactions.len() as u64 {
        return Err(VaultError::TransactionNotFound);
    }
    let index = transaction_id as usize;
    if vault.multi_sig_transactions[index].did_execute {
        return Err(VaultError::TransactionAlreadyExecuted);
    }
    let current_approvals = count_approvals(&vault.multi_sig_transactions[index].signers);
    if (current_approvals as u64) < threshold {
        return Err(VaultError::NotEnoughSigners);
    }
    let (expected_signer, signer_bump) = match derived {
        None => {
            return Err(VaultError::InvalidAccountData);
        },
        Some(found) => found,
    };
    proof {
        lemma_same_bytes_same_key(expected_signer, multisig_signer);
    }
    if !expected_signer.same_as(&multisig_signer) {
        return Err(VaultError::InvalidAccountData);
    }
    let instruction = Instruction {
        program_id: vault.multi_sig_transactions[index].program_id,
        accounts: plan_metas(&vault.multi_sig_transactions[index].accounts, &multisig_signer, &vault_key),
        data: copy_bytes(&vault.multi_sig_transactions[index].data),
    };
    let ghost before = vault.multi_sig_transactions[index as int]@;
    vault.multi_sig_transactions[index].did_execute = true;
    assert(vault@.multi_sig_transactions =~= old(vault)@.multi_sig_transactions.update(
        index as int,
        MultiSigTransactionView { did_execute: true, ..before },
    ));
    let target_program = vault.multi_sig_transactions[index].program_id;
    Ok(
        ExecutionPlan {
            instruction,
            signer_bump,
            event: MultiSigTransactionExecutedEvent {
                vault: vault_key,
                transaction_id,
                executor,
                target_program,
                timestamp: now,
            },
        },
    )
}

/// Carries out transaction `transaction_id` of the vault at `vault_key`
/// for `executor` at time `now`, given the signer account
/// `multisig_signer`. The signer address is derived for `program_id` from
/// the vault's address and the authority's nonce; the result is then as
/// `execution_result` says of what the derivation gave. Without a
/// multi-signature authority the answer is `MultisigNotInitialized`.
pub fn handler(
    vault: &mut Vault,
    program_id: Pubkey,
    vault_key: Pubkey,
    multisig_signer: Pubkey,
    executor: Pubkey,
    transaction_id: u64,
    now: i64,
) -> (result: Result<ExecutionPlan, VaultError>)
    ensures
        final(vault)@ == after_step(
            old(vault)@,
            (VaultOperation::ExecuteTransaction {
                multisig_signer,
                transaction_id,
                expected_signer: expected_signer_for(old(vault)@, vault_key, program_id),
            }),
        ),
        result is Ok <==> step(
            old(vault)@,
            (VaultOperation::ExecuteTransaction {
                multisig_signer,
                transaction_id,
                expected_signer: expected_signer_for(old(vault)@, vault_key, program_id),
            }),
        ) is Ok,
        match old(vault)@.multi_sig {
            None => {
                &&& result == Err::<ExecutionPlan, VaultError>(VaultError::MultisigNotInitialized)
                &&& *final(vault) == *old(vault)
            },
            Some(ms) => {
                execution_result(
                    old(vault)@,
                    final(vault)@,
                    result,
                    vault_key,
                    multisig_signer,
                    executor,
                    transaction_id,
                    program_address(signer_seeds(vault_key, ms.nonce), program_id.0@),
                    now,
                )
            },
        },
{
    let nonce = match &vault.multi_sig {
        None => {
            return Err(VaultError::MultisigNotInitialized);
        },
        Some(ms) => ms.nonce,
    };
    let derived = multisig_signer_address(&vault_key, nonce, &program_id);
    execute_with_signer(vault, vault_key, multisig_signer, executor, transaction_id, derived, now)
}

} // verus!
