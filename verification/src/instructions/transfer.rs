//! The authority sending lamports held by the vault account.
use vstd::prelude::*;

use crate::error::VaultError;
use crate::events::SolTransferredEvent;
use crate::fees::compute_fee;
use crate::instructions::withdraw_sol::{lamport_fee, lamport_withdrawal_fits, lamport_withdrawal_outcome};
use crate::pubkey::Pubkey;
use crate::state::{Vault, VaultView};

use crate::machine::{after_step, step, VaultOperation};
verus! {

/// Sends `amount` lamports from the vault account at `vault_key`, which
/// holds `vault_lamports`, to `recipient` for `authority` at time `now`.
/// A transfer is accounted as a lamport withdrawal is: on success the vault
/// has changed as `lamport_withdrawal_outcome` says and the returned record
/// tells the amount after the fee, which is what the caller moves from the
/// vault account to the recipient. On refusal the vault is unchanged.
pub fn handler(
    vault: &mut Vault,
    vault_key: Pubkey,
    vault_lamports: u64,
    authority: Pubkey,
    recipient: Pubkey,
    amount: u64,
    now: i64,
) -> (result: Result<SolTransferredEvent, VaultError>)
    requires
        lamport_withdrawal_fits(old(vault)@, vault_lamports, amount),
    ensures
        final(vault)@ == after_step(old(vault)@, (VaultOperation::TransferSol { vault_lamports, amount })),
        result is Ok <==> step(old(vault)@, (VaultOperation::TransferSol { vault_lamports, amount })) is Ok,
        match result {
            Ok(event) => {
                &&& lamport_withdrawal_outcome(old(vault)@, vault_lamports, amount) == Ok::<VaultView, VaultError>(final(vault)@)
                &&& event == (SolTransferredEvent {
                    vault: vault_key,
                    authority,
                    amount: (amount - lamport_fee(old(vault)@, amount)) as u64,
                    fee_amount: lamport_fee(old(vault)@, amount),
                    recipient,
                    timestamp: now,
                })
            },
            Err(e) => {
                &&& lamport_withdrawal_outcome(old(vault)@, vault_lamports, amount) == Err::<VaultView, VaultError>(e)
                &&& *final(vault) == *old(vault)
            },
        },
{
    if vault.paused {
        return Err(VaultError::VaultPaused);
    }
    if vault_lamports < amount {
        return Err(VaultError::InvalidAmount);
    }
    let transfer_fee = compute_fee(amount, vault.fee_config.withdrawal_fee_bps);
    let net_transfer_amount = amount - transfer_fee;

    vault.total_value_locked = vault.total_value_locked.saturating_sub(net_transfer_amount);
    vault.total_fees_collected = vault.total_fees_collected + transfer_fee;

    Ok(
        SolTransferredEvent {
            vault: vault_key,
            authority,
            amount: net_transfer_amount,
            fee_amount: transfer_fee,
            recipient,
            timestamp: now,
        },
    )
}

} // verus!
