use capstone_project::error::VaultError;
use capstone_project::instructions::execute_multisig_tx::AccountMeta;
use capstone_project::instructions::{
    approve_multisig_tx, change_multisig_threshold, create_multisig_tx, execute_multisig_tx,
    initialize_multisig, set_multisig_owners,
};
use capstone_project::modules::utils::AccountError;
use capstone_project::pda::multisig_signer_address;
use capstone_project::processors::multisig::process_initialize_multi_sig;
use capstone_project::pubkey::Pubkey;
use capstone_project::state::{TransactionAccount, Vault};

fn key(n: u8) -> Pubkey {
    Pubkey([n; 32])
}

fn account(n: u8, is_signer: bool, is_writable: bool) -> TransactionAccount {
    TransactionAccount { pubkey: key(n), is_signer, is_writable }
}

fn vault_with_multisig(owners: Vec<Pubkey>, threshold: u64) -> Vault {
    let mut vault = Vault::default();
    vault.authority = key(1);
    initialize_multisig::handler(&mut vault, key(200), key(1), owners, threshold, 3, 0).unwrap();
    vault
}

#[test]
fn initialize_multisig_records_owners() {
    let mut vault = Vault::default();
    let event = initialize_multisig::handler(&mut vault, key(200), key(1), vec![key(10), key(11)], 2, 7, 42)
        .unwrap();
    let ms = vault.multi_sig.clone().unwrap();
    assert_eq!(ms.owners, vec![key(10), key(11)]);
    assert_eq!(ms.threshold, 2);
    assert_eq!(ms.nonce, 7);
    assert_eq!(ms.bump, 0);
    assert_eq!(event.owners, vec![key(10), key(11)]);
    assert_eq!(event.threshold, 2);
    assert_eq!(event.nonce, 7);
    assert_eq!(event.timestamp, 42);
}

#[test]
fn initialize_multisig_refusals() {
    let mut vault = Vault::default();
    assert_eq!(
        initialize_multisig::handler(&mut vault, key(200), key(1), vec![key(10)], 0, 0, 0),
        Err(VaultError::InvalidThreshold)
    );
    assert_eq!(
        initialize_multisig::handler(&mut vault, key(200), key(1), vec![key(10)], 2, 0, 0),
        Err(VaultError::InvalidThreshold)
    );
    assert_eq!(
        initialize_multisig::handler(&mut vault, key(200), key(1), vec![], 1, 0, 0),
        Err(VaultError::InvalidThreshold)
    );
    assert_eq!(
        initialize_multisig::handler(&mut vault, key(200), key(1), vec![key(10), key(11), key(10)], 2, 0, 0),
        Err(VaultError::DuplicateOwners)
    );
    assert!(vault.multi_sig.is_none());
}

#[test]
fn create_transaction_approved_by_proposer() {
    let mut vault = vault_with_multisig(vec![key(10), key(11), key(12)], 2);
    let event = create_multisig_tx::handler(
        &mut vault,
        key(200),
        key(11),
        key(60),
        vec![account(70, false, true)],
        vec![1, 2, 3],
        5,
    )
    .unwrap();
    assert_eq!(event.transaction_id, 0);
    assert_eq!(event.instruction_count, 1);
    assert_eq!(event.target_program, key(60));
    let tx = &vault.multi_sig_transactions[0];
    assert_eq!(tx.signers, vec![false, true, false]);
    assert_eq!(tx.multisig, key(200));
    assert_eq!(tx.data, vec![1, 2, 3]);
    assert!(!tx.did_execute);
    assert_eq!(tx.created_at, 5);

    let second = create_multisig_tx::handler(&mut vault, key(200), key(10), key(60), vec![account(70, false, false)], vec![], 6)
        .unwrap();
    assert_eq!(second.transaction_id, 1);
}

#[test]
fn create_transaction_refusals() {
    let mut plain = Vault::default();
    assert_eq!(
        create_multisig_tx::handler(&mut plain, key(200), key(10), key(60), vec![account(70, false, false)], vec![], 0),
        Err(VaultError::MultisigNotInitialized)
    );
    let mut vault = vault_with_multisig(vec![key(10), key(11)], 1);
    assert_eq!(
        create_multisig_tx::handler(&mut vault, key(200), key(99), key(60), vec![account(70, false, false)], vec![], 0),
        Err(VaultError::InvalidOwner)
    );
    assert_eq!(
        create_multisig_tx::handler(&mut vault, key(200), key(10), key(60), vec![], vec![], 0),
        Err(VaultError::InvalidTransactionData)
    );
    assert!(vault.multi_sig_transactions.is_empty());
}

#[test]
fn approve_counts_approvals() {
    let mut vault = vault_with_multisig(vec![key(10), key(11), key(12)], 3);
    create_multisig_tx::handler(&mut vault, key(200), key(10), key(60), vec![account(70, false, true)], vec![], 5)
        .unwrap();
    let event = approve_multisig_tx::handler(&mut vault, key(200), key(12), 0, 6).unwrap();
    assert_eq!(event.current_approvals, 2);
    assert_eq!(event.required_approvals, 3);
    assert_eq!(event.approver, key(12));
    assert_eq!(vault.multi_sig_transactions[0].signers, vec![true, false, true]);
}

#[test]
fn approve_refusals() {
    let mut vault = vault_with_multisig(vec![key(10), key(11)], 2);
    create_multisig_tx::handler(&mut vault, key(200), key(10), key(60), vec![account(70, false, true)], vec![], 5)
        .unwrap();
    let before = vault.clone();
    assert_eq!(approve_multisig_tx::handler(&mut vault, key(200), key(99), 0, 6), Err(VaultError::InvalidOwner));
    assert_eq!(
        approve_multisig_tx::handler(&mut vault, key(200), key(11), 1, 6),
        Err(VaultError::TransactionNotFound)
    );
    assert_eq!(
        approve_multisig_tx::handler(&mut vault, key(200), key(10), 0, 6),
        Err(VaultError::TransactionAlreadySigned)
    );
    assert_eq!(vault, before);
    let mut plain = Vault::default();
    assert_eq!(
        approve_multisig_tx::handler(&mut plain, key(200), key(10), 0, 6),
        Err(VaultError::MultisigNotInitialized)
    );
}

#[test]
fn approve_limits_after_owners_grow() {
    let mut vault = vault_with_multisig(vec![key(10)], 1);
    create_multisig_tx::handler(&mut vault, key(200), key(10), key(60), vec![account(70, false, true)], vec![], 5)
        .unwrap();
    set_multisig_owners::handler(&mut vault, key(200), key(1), vec![key(10), key(11)], 6).unwrap();
    assert!(approve_multisig_tx::approve_within_limits(&vault, &key(10), 0));
    assert!(!approve_multisig_tx::approve_within_limits(&vault, &key(11), 0));
    assert!(approve_multisig_tx::approve_within_limits(&vault, &key(11), 7));
}

#[test]
fn signer_address_matches_solana_derivation() {
    let vault_key = key(200);
    let program_id = key(33);
    let (address, bump) = multisig_signer_address(&vault_key, 3, &program_id).unwrap();
    let (expected, expected_bump) = solana_program::pubkey::Pubkey::find_program_address(
        &[&vault_key.0[..], &[3u8]],
        &solana_program::pubkey::Pubkey::new_from_array(program_id.0),
    );
    assert_eq!(address.0, expected.to_bytes());
    assert_eq!(bump, expected_bump);
    assert_ne!(address, vault_key);
    assert_ne!(address, program_id);
}

#[test]
fn execute_after_threshold() {
    let program_id = key(33);
    let vault_key = key(200);
    let mut vault = vault_with_multisig(vec![key(10), key(11)], 2);
    let (signer, signer_bump) = multisig_signer_address(&vault_key, 3, &program_id).unwrap();
    create_multisig_tx::handler(
        &mut vault,
        vault_key,
        key(10),
        key(60),
        vec![account(70, false, true), TransactionAccount { pubkey: signer, is_signer: false, is_writable: false }, account(200, false, true), account(71, true, false)],
        vec![9, 8],
        5,
    )
    .unwrap();
    assert_eq!(
        execute_multisig_tx::handler(&mut vault, program_id, vault_key, signer, key(10), 0, 6),
        Err(VaultError::NotEnoughSigners)
    );
    approve_multisig_tx::handler(&mut vault, vault_key, key(11), 0, 6).unwrap();
    assert_eq!(
        execute_multisig_tx::handler(&mut vault, program_id, vault_key, key(5), key(10), 0, 7),
        Err(VaultError::InvalidAccountData)
    );
    let plan = execute_multisig_tx::handler(&mut vault, program_id, vault_key, signer, key(10), 0, 7).unwrap();
    assert_eq!(plan.signer_bump, signer_bump);
    assert_eq!(plan.instruction.program_id, key(60));
    assert_eq!(plan.instruction.data, vec![9, 8]);
    assert_eq!(
        plan.instruction.accounts,
        vec![
            AccountMeta { pubkey: key(70), is_signer: false, is_writable: true },
            AccountMeta { pubkey: signer, is_signer: true, is_writable: false },
            AccountMeta { pubkey: key(200), is_signer: true, is_writable: true },
            AccountMeta { pubkey: key(71), is_signer: true, is_writable: false },
        ]
    );
    assert_eq!(plan.event.transaction_id, 0);
    assert_eq!(plan.event.executor, key(10));
    assert_eq!(plan.event.target_program, key(60));
    assert!(vault.multi_sig_transactions[0].did_execute);
    assert_eq!(
        execute_multisig_tx::handler(&mut vault, program_id, vault_key, signer, key(10), 0, 8),
        Err(VaultError::TransactionAlreadyExecuted)
    );
    assert_eq!(
        approve_multisig_tx::handler(&mut vault, vault_key, key(11), 0, 8),
        Err(VaultError::TransactionAlreadyExecuted)
    );
}

#[test]
fn execute_refusals() {
    let mut plain = Vault::default();
    assert_eq!(
        execute_multisig_tx::handler(&mut plain, key(33), key(200), key(5), key(10), 0, 0),
        Err(VaultError::MultisigNotInitialized)
    );
    let mut vault = vault_with_multisig(vec![key(10)], 1);
    assert_eq!(
        execute_multisig_tx::handler(&mut vault, key(33), key(200), key(5), key(10), 0, 0),
        Err(VaultError::TransactionNotFound)
    );
}

#[test]
fn set_owners_lowers_threshold() {
    let mut vault = vault_with_multisig(vec![key(10), key(11), key(12)], 3);
    let event = set_multisig_owners::handler(&mut vault, key(200), key(1), vec![key(20), key(21)], 9).unwrap();
    assert_eq!(event.old_owners, vec![key(10), key(11), key(12)]);
    assert_eq!(event.new_owners, vec![key(20), key(21)]);
    let ms = vault.multi_sig.clone().unwrap();
    assert_eq!(ms.owners, vec![key(20), key(21)]);
    assert_eq!(ms.threshold, 2);
    assert_eq!(ms.nonce, 3);
    set_multisig_owners::handler(&mut vault, key(200), key(1), vec![key(20), key(21), key(22)], 9).unwrap();
    assert_eq!(vault.multi_sig.clone().unwrap().threshold, 2);
    set_multisig_owners::handler(&mut vault, key(200), key(1), vec![], 9).unwrap();
    assert_eq!(vault.multi_sig.clone().unwrap().threshold, 0);
}

#[test]
fn set_owners_refusals() {
    let mut plain = Vault::default();
    assert_eq!(
        set_multisig_owners::handler(&mut plain, key(200), key(1), vec![key(20)], 9),
        Err(VaultError::MultisigNotInitialized)
    );
    let mut vault = vault_with_multisig(vec![key(10)], 1);
    assert_eq!(
        set_multisig_owners::handler(&mut vault, key(200), key(1), vec![key(20), key(20)], 9),
        Err(VaultError::DuplicateOwners)
    );
    assert_eq!(vault.multi_sig.clone().unwrap().owners, vec![key(10)]);
}

#[test]
fn change_threshold_checks_bounds() {
    let mut vault = vault_with_multisig(vec![key(10), key(11)], 1);
    let event = change_multisig_threshold::handler(&mut vault, key(200), key(1), 2, 4).unwrap();
    assert_eq!(event.old_threshold, 1);
    assert_eq!(event.new_threshold, 2);
    assert_eq!(vault.multi_sig.clone().unwrap().threshold, 2);
    assert_eq!(
        change_multisig_threshold::handler(&mut vault, key(200), key(1), 3, 4),
        Err(VaultError::InvalidThreshold)
    );
    assert_eq!(
        change_multisig_threshold::handler(&mut vault, key(200), key(1), 0, 4),
        Err(VaultError::InvalidThreshold)
    );
    let mut plain = Vault::default();
    assert_eq!(
        change_multisig_threshold::handler(&mut plain, key(200), key(1), 1, 4),
        Err(VaultError::MultisigNotInitialized)
    );
}

#[test]
fn process_initialize_multi_sig_checks_accounts() {
    let program = key(33);
    let mut vault = Vault::default();
    vault.authority = key(1);
    let owners = vec![key(10), key(11)];
    assert_eq!(
        process_initialize_multi_sig(program, &mut vault, key(200), program, key(1), false, &owners, 2, 9),
        Err(AccountError::MissingRequiredSignature)
    );
    assert_eq!(
        process_initialize_multi_sig(program, &mut vault, key(200), key(34), key(1), true, &owners, 2, 9),
        Err(AccountError::IncorrectProgramId)
    );
    assert_eq!(
        process_initialize_multi_sig(program, &mut vault, key(200), program, key(2), true, &owners, 2, 9),
        Err(AccountError::InvalidAccountData)
    );
    assert!(vault.multi_sig.is_none());
    let event = process_initialize_multi_sig(program, &mut vault, key(200), program, key(1), true, &owners, 2, 9).unwrap();
    assert_eq!(event.vault, key(200));
    assert_eq!(event.authority, key(1));
    assert_eq!(event.owners, owners);
    assert_eq!(event.threshold, 2);
    assert_eq!(event.nonce, 0);
    assert_eq!(event.timestamp, 9);
    let ms = vault.multi_sig.unwrap();
    assert_eq!(ms.owners, owners);
    assert_eq!(ms.threshold, 2);
    assert_eq!(ms.nonce, 0);
}
