//! Withdrawing lamports held by the vault account.
use vstd::prelude::*;

use crate::error::VaultError;
use crate::events::SolWithdrawnEvent;
use crate::fees::{compute_fee, fee_for};
use crate::pubkey::Pubkey;
use crate::state::{Vault, VaultView};

use crate::machine::{after_step, step, VaultOperation};
verus! {

/// The fee that a lamport withdrawal of `amount` pays.
pub open spec fn lamport_fee(v: VaultView, amount: u64) -> u64 {
    fee_for(amount, v.fee_config.withdrawal_fee_bps)
}

/// `a - b`, or zero where `b` is larger.
pub open spec fn saturating_difference(a: u64, b: u64) -> u64 {
    if a >= b {
        (a - b) as u64
    } else {
        0
    }
}

/// Whether a lamport withdrawal that passes its checks keeps its arithmetic
/// within the integer types: the fee is no more than the amount and the
/// fees collected do not pass the largest `u64`.
pub open spec fn lamport_withdrawal_fits(v: VaultView, vault_lamports: u64, amount: u64) -> bool {
    let fee = lamport_fee(v, amount);
    (!v.paused && vault_lamports >= amount) ==> {
        &&& fee <= amount
        &&& v.total_fees_collected + fee <= u64::MAX
    }
}

/// The vault after `amount` lamports are withdrawn from an account holding
/// `vault_lamports`, or why the withdrawal is refused. The account must
/// hold the whole amount; the amount less the fee leaves the account and is
/// taken off the value locked (down to zero at most), and the fee is added
/// to the fees collected.
pub open spec fn lamport_withdrawal_outcome(v: VaultView, vault_lamports: u64, amount: u64) -> Result<
    VaultView,
    VaultError,
> {
    if v.paused {
        Err(VaultError::VaultPaused)
    } else if vault_lamports < amount {
        Err(VaultError::InvalidAmount)
    } else {
        let fee = lamport_fee(v, amount);
        let net = (amount - fee) as u64;
        Ok(
            VaultView {
                total_value_locked: saturating_difference(v.total_value_locked, net),
                total_fees_collected: (v.total_fees_collected + fee) as u64,
                ..v
            },
        )
    }
}

/// Whether a lamport withdrawal of `amount` keeps its arithmetic within the
/// integer types; where it would not, the withdrawal must not be made.
pub fn lamport_withdrawal_within_limits(vault: &Vault, vault_lamports: u64, amount: u64) -> (fits:
    bool)
    ensures
        fits == lamport_withdrawal_fits(vault@, vault_lamports, amount),
{
    if vault.paused || vault_lamports < amount {
        return true;
    }
    let fee = compute_fee(amount, vault.fee_config.withdrawal_fee_bps);
    fee <= amount && vault.total_fees_collected <= u64::MAX - fee
}

/// Withdraws `amount` lamports from the vault account at `vault_key`, which
/// holds `vault_lamports`, to `recipient` at time `now`. On success the
/// vault has changed as `lamport_withdrawal_outcome` says and the returned
/// record tells the amount after the fee, which is what the caller moves
/// from the vault account to the recipient. On refusal the vault is
/// unchanged.
pub fn handler(
    vault: &mut Vault,
    vault_key: Pubkey,
    vault_lamports: u64,
    recipient: Pubkey,
    amount: u64,
    now: i64,
) -> (result: Result<SolWithdrawnEvent, VaultError>)
    requires
        lamport_withdrawal_fits(old(vault)@, vault_lamports, amount),
    ensures
        final(vault)@ == after_step(old(vault)@, (VaultOperation::WithdrawSol { vault_lamports, amount })),
        result is Ok <==> step(old(vault)@, (VaultOperation::WithdrawSol { vault_lamports, amount })) is Ok,
        match result {
            Ok(event) => {
                &&& lamport_withdrawal_outcome(old(vault)@, vault_lamports, amount) == Ok::<VaultView, VaultError>(final(vault)@)
                &&& event == (SolWithdrawnEvent {
                    vault: vault_key,
                    amount: (amount - lamport_fee(old(vault)@, amount)) as u64,
                    fee_amount: lamport_fee(old(vault)@, amount),
                    recipient,
                    timestamp: now,
                })
            },
            Err(e) => {
                &&& lamport_withdrawal_outcome(old(vault)@, vault_lamports, amount) == Err::<VaultView, VaultError>(e)
                &&& *final(vault) == *old(vault)
            },
        },
{
    if vault.paused {
        return Err(VaultError::VaultPaused);
    }
    if vault_lamports < amount {
        return Err(VaultError::InvalidAmount);
    }
    let withdrawal_fee = compute_fee(amount, vault.fee_config.withdrawal_fee_bps);
    let net_withdrawal_amount = amount - withdrawal_fee;

    vault.total_value_locked = vault.total_value_locked.saturating_sub(net_withdrawal_amount);
    vault.total_fees_collected = vault.total_fees_collected + withdrawal_fee;

    Ok(
        SolWithdrawnEvent {
            vault: vault_key,
            amount: net_withdrawal_amount,
            fee_amount: withdrawal_fee,
            recipient,
            timestamp: now,
        },
    )
}

} // verus!
