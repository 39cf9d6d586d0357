//! Withdrawing a supported token from the vault.
use vstd::prelude::*;

use crate::error::VaultError;
use crate::events::TokenWithdrawnEvent;
use crate::fees::{compute_fee, fee_for};
use crate::pubkey::Pubkey;
use crate::search::{
    balance_mints, first_index_of, has_active_token, is_active_token, position_of_balance,
    position_of_token, token_mints,
};
use crate::state::{SupportedToken, TokenBalance, Vault, VaultView};

use crate::machine::{after_step, step, VaultOperation};
verus! {

/// The vault's recorded balance of `mint`: that of the first balance with
/// the mint, or zero where there is none.
pub open spec fn balance_of(balances: Seq<TokenBalance>, mint: Pubkey) -> u64 {
    match first_index_of(balance_mints(balances), mint) {
        Some(i) => balances[i].balance,
        None => 0,
    }
}

/// The supported tokens after `net` of `mint` went out: the first entry
/// with the mint counts it in its withdrawn total.
pub open spec fn count_withdrawal(tokens: Seq<SupportedToken>, mint: Pubkey, net: u64) -> Seq<
    SupportedToken,
> {
    match first_index_of(token_mints(tokens), mint) {
        Some(i) => tokens.update(
            i,
            SupportedToken { total_withdrawn: (tokens[i].total_withdrawn + net) as u64, ..tokens[i] },
        ),
        None => tokens,
    }
}

/// The balances after `net` of `mint` went out at `now`: the first balance
/// of the mint shrinks; without one, nothing changes.
pub open spec fn debit_balance(
    balances: Seq<TokenBalance>,
    mint: Pubkey,
    net: u64,
    now: i64,
) -> Seq<TokenBalance> {
    match first_index_of(balance_mints(balances), mint) {
        Some(i) => balances.update(
            i,
            TokenBalance { balance: (balances[i].balance - net) as u64, last_updated: now, ..balances[i] },
        ),
        None => balances,
    }
}

/// The fee that a withdrawal of `amount` pays.
pub open spec fn withdrawal_fee(v: VaultView, amount: u64) -> u64 {
    fee_for(amount, v.fee_config.withdrawal_fee_bps)
}

/// Whether a withdrawal that passes its checks keeps its arithmetic within
/// the integer types: the fee is no more than the amount, the withdrawn
/// total and the fees collected do not pass the largest `u64`, and the
/// value locked covers what goes out.
pub open spec fn withdraw_fits(v: VaultView, mint: Pubkey, amount: u64) -> bool {
    let fee = withdrawal_fee(v, amount);
    let net = amount - fee;
    (!v.paused && is_active_token(v.supported_tokens, mint) && balance_of(v.token_balances, mint)
        >= amount) ==> {
        &&& fee <= amount
        &&& (first_index_of(token_mints(v.supported_tokens), mint) matches Some(i) ==> v.supported_tokens[i].total_withdrawn + net <= u64::MAX)
        &&& v.total_value_locked >= net
        &&& v.total_fees_collected + fee <= u64::MAX
    }
}

/// The vault after `amount` of `mint` is withdrawn at `now`, or why the
/// withdrawal is refused. The recorded balance must cover the whole amount;
/// the recipient receives the amount less the fee, which leaves the
/// token's balance and the value locked, while the fee is added to the
/// fees collected.
pub open spec fn withdraw_outcome(v: VaultView, mint: Pubkey, amount: u64, now: i64) -> Result<
    VaultView,
    VaultError,
> {
    if v.paused {
        Err(VaultError::VaultPaused)
    } else if !is_active_token(v.supported_tokens, mint) {
        Err(VaultError::TokenNotSupported)
    } else if balance_of(v.token_balances, mint) < amount {
        Err(VaultError::InvalidAmount)
    } else {
        let fee = withdrawal_fee(v, amount);
        let net = (amount - fee) as u64;
        Ok(
            VaultView {
                supported_tokens: count_withdrawal(v.supported_tokens, mint, net),
                token_balances: debit_balance(v.token_balances, mint, net, now),
                total_value_locked: (v.total_value_locked - net) as u64,
                total_fees_collected: (v.total_fees_collected + fee) as u64,
                ..v
            },
        )
    }
}

/// The vault's recorded balance of `mint`.
pub fn recorded_balance(vault: &Vault, token_mint: &Pubkey) -> (balance: u64)
    ensures
        balance == balance_of(vault@.token_balances, *token_mint),
{
    match position_of_balance(&vault.token_balances, token_mint) {
        Some(i) => vault.token_balances[i].balance,
        None => 0,
    }
}

/// Whether a withdrawal of `amount` of `mint` keeps its arithmetic within
/// the integer types; where it would not, the withdrawal must not be made.
pub fn withdraw_within_limits(vault: &Vault, token_mint: &Pubkey, amount: u64) -> (fits: bool)
    ensures
        fits == withdraw_fits(vault@, *token_mint, amount),
{
    if vault.paused || !has_active_token(&vault.supported_tokens, token_mint) || recorded_balance(
        vault,
        token_mint,
    ) < amount {
        return true;
    }
    let fee = compute_fee(amount, vault.fee_config.withdrawal_fee_bps);
    if fee > amount {
        return false;
    }
    let net = amount - fee;
    match position_of_token(&vault.supported_tokens, token_mint) {
        Some(i) => {
            if vault.supported_tokens[i].total_withdrawn > u64::MAX - net {
                return false;
            }
        },
        None => {},
    }
    vault.total_value_locked >= net && vault.total_fees_collected <= u64::MAX - fee
}

/// Withdraws `amount` of `token_mint` from the vault whose address is
/// `vault_key` for `user_authority`, at time `now`. On success the vault
/// has changed as `withdraw_outcome` says and the returned record tells the
/// amount after the fee, which is what the caller moves to the recipient's
/// token account. On refusal the vault is unchanged.
pub fn handler(
    vault: &mut Vault,
    vault_key: Pubkey,
    token_mint: Pubkey,
    user_authority: Pubkey,
    amount: u64,
    now: i64,
) -> (result: Result<TokenWithdrawnEvent, VaultError>)
    requires
        withdraw_fits(old(vault)@, token_mint, amount),
    ensures
        final(vault)@ == after_step(old(vault)@, (VaultOperation::Withdraw { mint: token_mint, amount, now })),
        result is Ok <==> step(old(vault)@, (VaultOperation::Withdraw { mint: token_mint, amount, now })) is Ok,
        match result {
            Ok(event) => {
                &&& withdraw_outcome(old(vault)@, token_mint, amount, now) == Ok::<VaultView, VaultError>(final(vault)@)
                &&& event == (TokenWithdrawnEvent {
                    vault: vault_key,
                    token_mint,
                    amount: (amount - withdrawal_fee(old(vault)@, amount)) as u64,
                    fee_amount: withdrawal_fee(old(vault)@, amount),
                    recipient: user_authority,
                    timestamp: now,
                })
            },
            Err(e) => {
                &&& withdraw_outcome(old(vault)@, token_mint, amount, now) == Err::<VaultView, VaultError>(e)
                &&& *final(vault) == *old(vault)
            },
        },
{
    if vault.paused {
        return Err(VaultError::VaultPaused);
    }
    if !has_active_token(&vault.supported_tokens, &token_mint) {
        return Err(VaultError::TokenNotSupported);
    }
    let vault_balance = recorded_balance(vault, &token_mint);
    if vault_balance < amount {
        return Err(VaultError::InvalidAmount);
    }
    let withdrawal_fee = compute_fee(amount, vault.fee_config.withdrawal_fee_bps);
    let net_withdrawal_amount = amount - withdrawal_fee;

    match position_of_token(&vault.supported_tokens, &token_mint) {
        Some(i) => {
            let mut token = vault.supported_tokens[i];
            token.total_withdrawn = token.total_withdrawn + net_withdrawal_amount;
            vault.supported_tokens[i] = token;
        },
        None => {},
    }

    match position_of_balance(&vault.token_balances, &token_mint) {
        Some(i) => {
            let mut entry = vault.token_balances[i];
            entry.balance = entry.balance - net_withdrawal_amount;
            entry.last_updated = now;
            vault.token_balances[i] = entry;
        },
        None => {},
    }

    vault.total_value_locked = vault.total_value_locked - net_withdrawal_amount;
    vault.total_fees_collected = vault.total_fees_collected + withdrawal_fee;

    Ok(
        TokenWithdrawnEvent {
            vault: vault_key,
            token_mint,
            amount: net_withdrawal_amount,
            fee_amount: withdrawal_fee,
            recipient: user_authority,
            timestamp: now,
        },
    )
}

} // verus!
