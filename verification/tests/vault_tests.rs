use capstone_project::error::VaultError;
use capstone_project::fees::compute_fee;
use capstone_project::instructions::{add_supported_token, deposit, initialize, transfer, withdraw, withdraw_sol};
use capstone_project::processors::basic::process_initialize;
use capstone_project::modules::utils::AccountError;
use capstone_project::pubkey::Pubkey;
use capstone_project::state::{FeeConfig, SupportedToken, TokenBalance, Vault};

fn key(n: u8) -> Pubkey {
    Pubkey([n; 32])
}

fn vault_with_token(mint: Pubkey) -> Vault {
    let mut vault = Vault::default();
    initialize::handler(&mut vault, key(200), key(1), key(2), 254, 10);
    add_supported_token::handler(&mut vault, key(200), key(1), mint, key(50), 11).unwrap();
    vault
}

#[test]
fn initialize_sets_authority_and_zero_fees() {
    let mut vault = Vault::default();
    vault.paused = true;
    vault.fee_config.deposit_fee_bps = 30;
    let event = initialize::handler(&mut vault, key(200), key(1), key(2), 254, 99);
    assert_eq!(vault.authority, key(1));
    assert_eq!(vault.emergency_admin, key(2));
    assert_eq!(vault.bump, 254);
    assert!(!vault.paused);
    assert_eq!(
        vault.fee_config,
        FeeConfig { deposit_fee_bps: 0, withdrawal_fee_bps: 0, fee_recipient: key(1) }
    );
    assert_eq!(event.vault, key(200));
    assert_eq!(event.authority, key(1));
    assert_eq!(event.emergency_admin, key(2));
    assert_eq!(event.bump, 254);
    assert_eq!(event.timestamp, 99);
}

#[test]
fn fee_is_rounded_down_basis_points() {
    assert_eq!(compute_fee(10_000, 30), 30);
    assert_eq!(compute_fee(999, 30), 2);
    assert_eq!(compute_fee(0, 10_000), 0);
    assert_eq!(compute_fee(12_345, 0), 0);
    assert_eq!(compute_fee(5, 10_000), 5);
    assert_eq!(compute_fee(1, 20_000), 2);
}

#[test]
fn fee_keeps_low_64_bits() {
    let amount = u64::MAX;
    let expected = ((amount as u128 * 65_535u128) / 10_000u128) as u64;
    assert_eq!(compute_fee(amount, 65_535), expected);
}

#[test]
fn deposit_credits_balance_totals_and_value_locked() {
    let mint = key(7);
    let mut vault = vault_with_token(mint);
    let event = deposit::handler(&mut vault, key(200), mint, key(9), 500, 20).unwrap();
    assert_eq!(event.amount, 500);
    assert_eq!(event.fee_amount, 0);
    assert_eq!(event.depositor, key(9));
    assert_eq!(event.token_mint, mint);
    assert_eq!(event.timestamp, 20);
    assert_eq!(vault.token_balances, vec![TokenBalance { mint, balance: 500, last_updated: 20 }]);
    assert_eq!(vault.supported_tokens[0].total_deposited, 500);
    assert_eq!(vault.total_value_locked, 500);

    deposit::handler(&mut vault, key(200), mint, key(9), 250, 30).unwrap();
    assert_eq!(vault.token_balances, vec![TokenBalance { mint, balance: 750, last_updated: 30 }]);
    assert_eq!(vault.supported_tokens[0].total_deposited, 750);
    assert_eq!(vault.total_value_locked, 750);
}

#[test]
fn deposit_splits_amount_between_value_and_fees() {
    let mint = key(7);
    let mut vault = vault_with_token(mint);
    vault.fee_config.deposit_fee_bps = 250;
    let event = deposit::handler(&mut vault, key(200), mint, key(9), 1_000, 20).unwrap();
    assert_eq!(event.fee_amount, 25);
    assert_eq!(event.amount, 975);
    assert_eq!(vault.total_value_locked + vault.total_fees_collected, 1_000);
    assert_eq!(vault.total_fees_collected, 25);
}

#[test]
fn deposit_refused_when_paused() {
    let mint = key(7);
    let mut vault = vault_with_token(mint);
    vault.paused = true;
    let before = vault.clone();
    assert_eq!(deposit::handler(&mut vault, key(200), mint, key(9), 5, 1), Err(VaultError::VaultPaused));
    assert_eq!(vault, before);
}

#[test]
fn deposit_refused_for_unknown_or_inactive_token() {
    let mint = key(7);
    let mut vault = vault_with_token(mint);
    let before = vault.clone();
    assert_eq!(
        deposit::handler(&mut vault, key(200), key(8), key(9), 5, 1),
        Err(VaultError::TokenNotSupported)
    );
    assert_eq!(vault, before);
    vault.supported_tokens[0].is_active = false;
    assert_eq!(
        deposit::handler(&mut vault, key(200), mint, key(9), 5, 1),
        Err(VaultError::TokenNotSupported)
    );
}

#[test]
fn deposit_limits_detect_overflow() {
    let mint = key(7);
    let mut vault = vault_with_token(mint);
    assert!(deposit::deposit_within_limits(&vault, &mint, u64::MAX));
    vault.total_value_locked = 1;
    assert!(!deposit::deposit_within_limits(&vault, &mint, u64::MAX));
    vault.total_value_locked = 0;
    vault.fee_config.deposit_fee_bps = 20_000;
    assert!(!deposit::deposit_within_limits(&vault, &mint, 100));
    vault.paused = true;
    assert!(deposit::deposit_within_limits(&vault, &mint, 100));
}

#[test]
fn withdraw_after_deposit_restores_balance() {
    let mint = key(7);
    let mut vault = vault_with_token(mint);
    deposit::handler(&mut vault, key(200), mint, key(9), 400, 20).unwrap();
    let event = withdraw::handler(&mut vault, key(200), mint, key(9), 400, 21).unwrap();
    assert_eq!(event.amount, 400);
    assert_eq!(event.recipient, key(9));
    assert_eq!(vault.token_balances[0].balance, 0);
    assert_eq!(vault.token_balances[0].last_updated, 21);
    assert_eq!(vault.supported_tokens[0].total_withdrawn, 400);
    assert_eq!(vault.total_value_locked, 0);
}

#[test]
fn withdraw_keeps_fee_in_balance() {
    let mint = key(7);
    let mut vault = vault_with_token(mint);
    deposit::handler(&mut vault, key(200), mint, key(9), 1_000, 20).unwrap();
    vault.fee_config.withdrawal_fee_bps = 100;
    let event = withdraw::handler(&mut vault, key(200), mint, key(9), 1_000, 21).unwrap();
    assert_eq!(event.fee_amount, 10);
    assert_eq!(event.amount, 990);
    assert_eq!(vault.token_balances[0].balance, 10);
    assert_eq!(vault.total_value_locked, 10);
    assert_eq!(vault.total_fees_collected, 10);
}

#[test]
fn withdraw_refused_beyond_balance() {
    let mint = key(7);
    let mut vault = vault_with_token(mint);
    deposit::handler(&mut vault, key(200), mint, key(9), 100, 20).unwrap();
    let before = vault.clone();
    assert_eq!(
        withdraw::handler(&mut vault, key(200), mint, key(9), 101, 21),
        Err(VaultError::InvalidAmount)
    );
    assert_eq!(vault, before);
    assert_eq!(withdraw::recorded_balance(&vault, &mint), 100);
    assert_eq!(withdraw::recorded_balance(&vault, &key(8)), 0);
}

#[test]
fn withdraw_refusals() {
    let mint = key(7);
    let mut vault = vault_with_token(mint);
    assert_eq!(
        withdraw::handler(&mut vault, key(200), key(8), key(9), 0, 21),
        Err(VaultError::TokenNotSupported)
    );
    vault.paused = true;
    assert_eq!(withdraw::handler(&mut vault, key(200), mint, key(9), 0, 21), Err(VaultError::VaultPaused));
}

#[test]
fn withdraw_limits_detect_underflow() {
    let mint = key(7);
    let mut vault = vault_with_token(mint);
    vault.token_balances.push(TokenBalance { mint, balance: 50, last_updated: 0 });
    assert!(!withdraw::withdraw_within_limits(&vault, &mint, 50));
    vault.total_value_locked = 50;
    assert!(withdraw::withdraw_within_limits(&vault, &mint, 50));
    assert!(withdraw::withdraw_within_limits(&vault, &mint, 51));
}

#[test]
fn withdraw_zero_without_balance_entry() {
    let mint = key(7);
    let mut vault = vault_with_token(mint);
    let event = withdraw::handler(&mut vault, key(200), mint, key(9), 0, 21).unwrap();
    assert_eq!(event.amount, 0);
    assert!(vault.token_balances.is_empty());
}

#[test]
fn lamport_withdrawal_saturates_value_locked() {
    let mut vault = vault_with_token(key(7));
    vault.total_value_locked = 30;
    vault.fee_config.withdrawal_fee_bps = 1_000;
    let event = withdraw_sol::handler(&mut vault, key(200), 1_000, key(4), 100, 5).unwrap();
    assert_eq!(event.amount, 90);
    assert_eq!(event.fee_amount, 10);
    assert_eq!(event.recipient, key(4));
    assert_eq!(vault.total_value_locked, 0);
    assert_eq!(vault.total_fees_collected, 10);
}

#[test]
fn lamport_withdrawal_refusals() {
    let mut vault = vault_with_token(key(7));
    let before = vault.clone();
    assert_eq!(
        withdraw_sol::handler(&mut vault, key(200), 99, key(4), 100, 5),
        Err(VaultError::InvalidAmount)
    );
    assert_eq!(vault, before);
    vault.paused = true;
    assert_eq!(
        transfer::handler(&mut vault, key(200), 1_000, key(1), key(4), 100, 5),
        Err(VaultError::VaultPaused)
    );
    assert!(withdraw_sol::lamport_withdrawal_within_limits(&vault, 1_000, 100));
}

#[test]
fn transfer_reports_authority() {
    let mut vault = vault_with_token(key(7));
    vault.total_value_locked = 500;
    let event = transfer::handler(&mut vault, key(200), 1_000, key(1), key(4), 100, 5).unwrap();
    assert_eq!(event.authority, key(1));
    assert_eq!(event.amount, 100);
    assert_eq!(event.fee_amount, 0);
    assert_eq!(vault.total_value_locked, 400);
}

#[test]
fn add_supported_token_refuses_duplicates() {
    let mint = key(7);
    let mut vault = vault_with_token(mint);
    assert_eq!(
        vault.supported_tokens,
        vec![SupportedToken { mint, bump: 0, total_deposited: 0, total_withdrawn: 0, is_active: true }]
    );
    let before = vault.clone();
    assert_eq!(
        add_supported_token::handler(&mut vault, key(200), key(1), mint, key(50), 12),
        Err(VaultError::TokenAlreadySupported)
    );
    assert_eq!(vault, before);
    let event = add_supported_token::handler(&mut vault, key(200), key(1), key(8), key(51), 13).unwrap();
    assert_eq!(event.token_mint, key(8));
    assert_eq!(event.vault_token_account, key(51));
    assert_eq!(vault.supported_tokens.len(), 2);
}

#[test]
fn added_token_accepts_deposit() {
    let mut vault = vault_with_token(key(7));
    add_supported_token::handler(&mut vault, key(200), key(1), key(8), key(51), 13).unwrap();
    assert!(deposit::handler(&mut vault, key(200), key(8), key(9), 10, 14).is_ok());
}

#[test]
fn process_initialize_builds_vault() {
    let vault = process_initialize(key(1), true, key(7), 250).unwrap();
    assert_eq!(vault.authority, key(1));
    assert_eq!(vault.emergency_admin, key(1));
    assert_eq!(vault.bump, 250);
    assert_eq!(vault.legacy_mint, Some(key(7)));
    assert_eq!(vault.supported_tokens.len(), 1);
    assert_eq!(vault.supported_tokens[0].mint, key(7));
    assert!(vault.supported_tokens[0].is_active);
    assert_eq!(vault.fee_config.fee_recipient, key(1));
    assert!(vault.multi_sig.is_none());
    assert_eq!(process_initialize(key(1), false, key(7), 250), Err(AccountError::MissingRequiredSignature));
}

#[test]
fn error_codes_and_messages() {
    assert_eq!(VaultError::InvalidOwner.code(), 6000);
    assert_eq!(VaultError::DuplicateOwners.code(), 6018);
    assert_eq!(VaultError::VaultPaused.code(), 6015);
    assert_eq!(VaultError::VaultPaused.message(), "Vault is paused");
    assert_eq!(
        VaultError::InvalidThreshold.message(),
        "Threshold must be less than or equal to the number of owners"
    );
}

#[test]
fn lamport_limits_detect_overflow() {
    let mut vault = vault_with_token(key(7));
    vault.fee_config.withdrawal_fee_bps = 100;
    vault.total_fees_collected = u64::MAX;
    assert!(!withdraw_sol::lamport_withdrawal_within_limits(&vault, 1_000, 1_000));
    vault.total_fees_collected = 0;
    assert!(withdraw_sol::lamport_withdrawal_within_limits(&vault, 1_000, 1_000));
    vault.fee_config.withdrawal_fee_bps = 30_000;
    assert!(!withdraw_sol::lamport_withdrawal_within_limits(&vault, 1_000, 1_000));
}

#[test]
fn value_locked_tracks_token_balances() {
    let mut vault = vault_with_token(key(7));
    add_supported_token::handler(&mut vault, key(200), key(1), key(8), key(51), 12).unwrap();
    vault.fee_config.deposit_fee_bps = 100;
    vault.fee_config.withdrawal_fee_bps = 50;
    deposit::handler(&mut vault, key(200), key(7), key(9), 1_000, 20).unwrap();
    deposit::handler(&mut vault, key(200), key(8), key(9), 3_000, 21).unwrap();
    withdraw::handler(&mut vault, key(200), key(7), key(9), 400, 22).unwrap();
    let sum: u64 = vault.token_balances.iter().map(|b| b.balance).sum();
    assert_eq!(vault.total_value_locked, sum);
    assert_eq!(sum, 990 + 2_970 - 398);
}
