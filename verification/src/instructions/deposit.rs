//! Depositing a supported token into the vault.
use vstd::prelude::*;

use crate::error::VaultError;
use crate::events::TokenDepositedEvent;
use crate::fees::{compute_fee, fee_for};
use crate::pubkey::Pubkey;
use crate::search::{
    balance_mints, first_index_of, has_active_token, is_active_token, position_of_balance,
    position_of_token, token_mints,
};
use crate::state::{SupportedToken, TokenBalance, Vault, VaultView};

use crate::machine::{after_step, step, VaultOperation};
verus! {

/// The supported tokens after `net` more of `mint` came in: the first entry
/// with the mint counts it in its deposited total.
pub open spec fn count_deposit(tokens: Seq<SupportedToken>, mint: Pubkey, net: u64) -> Seq<
    SupportedToken,
> {
    match first_index_of(token_mints(tokens), mint) {
        Some(i) => tokens.update(
            i,
            SupportedToken { total_deposited: (tokens[i].total_deposited + net) as u64, ..tokens[i] },
        ),
        None => tokens,
    }
}

/// The balances after `net` more of `mint` came in at `now`: the first
/// balance of the mint grows, or a new balance is added at the end.
pub open spec fn credit_balance(
    balances: Seq<TokenBalance>,
    mint: Pubkey,
    net: u64,
    now: i64,
) -> Seq<TokenBalance> {
    match first_index_of(balance_mints(balances), mint) {
        Some(i) => balances.update(
            i,
            TokenBalance { balance: (balances[i].balance + net) as u64, last_updated: now, ..balances[i] },
        ),
        None => balances.push(TokenBalance { mint, balance: net, last_updated: now }),
    }
}

/// The fee that a deposit of `amount` pays.
pub open spec fn deposit_fee(v: VaultView, amount: u64) -> u64 {
    fee_for(amount, v.fee_config.deposit_fee_bps)
}

/// Whether a deposit that passes its checks keeps its arithmetic within
/// the integer types: the fee is no more than the amount and no total
/// passes the largest `u64`.
pub open spec fn deposit_fits(v: VaultView, mint: Pubkey, amount: u64) -> bool {
    let fee = deposit_fee(v, amount);
    let net = amount - fee;
    (!v.paused && is_active_token(v.supported_tokens, mint)) ==> {
        &&& fee <= amount
        &&& (first_index_of(token_mints(v.supported_tokens), mint) matches Some(i) ==> v.supported_tokens[i].total_deposited + net <= u64::MAX)
        &&& (first_index_of(balance_mints(v.token_balances), mint) matches Some(i) ==> v.token_balances[i].balance + net <= u64::MAX)
        &&& v.total_value_locked + net <= u64::MAX
        &&& v.total_fees_collected + fee <= u64::MAX
    }
}

/// The vault after `amount` of `mint` is deposited at `now`, or why the
/// deposit is refused. The depositor pays the fee out of the amount; what
/// is left is credited to the token's totals, its balance and the value
/// locked, and the fee to the fees collected.
pub open spec fn deposit_outcome(v: VaultView, mint: Pubkey, amount: u64, now: i64) -> Result<
    VaultView,
    VaultError,
> {
    if v.paused {
        Err(VaultError::VaultPaused)
    } else if !is_active_token(v.supported_tokens, mint) {
        Err(VaultError::TokenNotSupported)
    } else {
        let fee = deposit_fee(v, amount);
        let net = (amount - fee) as u64;
        Ok(
            VaultView {
                supported_tokens: count_deposit(v.supported_tokens, mint, net),
                token_balances: credit_balance(v.token_balances, mint, net, now),
                total_value_locked: (v.total_value_locked + net) as u64,
                total_fees_collected: (v.total_fees_collected + fee) as u64,
                ..v
            },
        )
    }
}

/// Whether a deposit of `amount` of `mint` keeps its arithmetic within the
/// integer types; where it would not, the deposit must not be made.
pub fn deposit_within_limits(vault: &Vault, token_mint: &Pubkey, amount: u64) -> (fits: bool)
    ensures
        fits == deposit_fits(vault@, *token_mint, amount),
{
    if vault.paused || !has_active_token(&vault.supported_tokens, token_mint) {
        return true;
    }
    let fee = compute_fee(amount, vault.fee_config.deposit_fee_bps);
    if fee > amount {
        return false;
    }
    let net = amount - fee;
    match position_of_token(&vault.supported_tokens, token_mint) {
        Some(i) => {
            if vault.supported_tokens[i].total_deposited > u64::MAX - net {
                return false;
            }
        },
        None => {},
    }
    match position_of_balance(&vault.token_balances, token_mint) {
        Some(i) => {
            if vault.token_balances[i].balance > u64::MAX - net {
                return false;
            }
        },
        None => {},
    }
    vault.total_value_locked <= u64::MAX - net && vault.total_fees_collected <= u64::MAX - fee
}

/// Deposits `amount` of `token_mint` from `user_authority` into the vault
/// whose address is `vault_key`, at time `now`. On success the vault has
/// changed as `deposit_outcome` says and the returned record tells the
/// amount that reaches the vault after the fee, which is what the caller
/// moves from the depositor's token account. On refusal the vault is
/// unchanged.
pub fn handler(
    vault: &mut Vault,
    vault_key: Pubkey,
    token_mint: Pubkey,
    user_authority: Pubkey,
    amount: u64,
    now: i64,
) -> (result: Result<TokenDepositedEvent, VaultError>)
    requires
        deposit_fits(old(vault)@, token_mint, amount),
    ensures
        final(vault)@ == after_step(old(vault)@, (VaultOperation::Deposit { mint: token_mint, amount, now })),
        result is Ok <==> step(old(vault)@, (VaultOperation::Deposit { mint: token_mint, amount, now })) is Ok,
        match result {
            Ok(event) => {
                &&& deposit_outcome(old(vault)@, token_mint, amount, now) == Ok::<VaultView, VaultError>(final(vault)@)
                &&& event == (TokenDepositedEvent {
                    vault: vault_key,
                    token_mint,
                    amount: (amount - deposit_fee(old(vault)@, amount)) as u64,
                    fee_amount: deposit_fee(old(vault)@, amount),
                    depositor: user_authority,
                    timestamp: now,
                })
            },
            Err(e) => {
                &&& deposit_outcome(old(vault)@, token_mint, amount, now) == Err::<VaultView, VaultError>(e)
                &&& *final(vault) == *old(vault)
            },
        },
{
    if vault.paused {
        return Err(VaultError::VaultPaused);
    }
    if !has_active_token(&vault.supported_tokens, &token_mint) {
        return Err(VaultError::TokenNotSupported);
    }
    let deposit_fee = compute_fee(amount, vault.fee_config.deposit_fee_bps);
    let net_deposit_amount = amount - deposit_fee;

    match position_of_token(&vault.supported_tokens, &token_mint) {
        Some(i) => {
            let mut token = vault.supported_tokens[i];
            token.total_deposited = token.total_deposited + net_deposit_amount;
            vault.supported_tokens[i] = token;
        },
        None => {},
    }

    match position_of_balance(&vault.token_balances, &token_mint) {
        Some(i) => {
            let mut entry = vault.token_balances[i];
            entry.balance = entry.balance + net_deposit_amount;
            entry.last_updated = now;
            vault.token_balances[i] = entry;
        },
        None => {
            vault.token_balances.push(
                TokenBalance { mint: token_mint, balance: net_deposit_amount, last_updated: now },
            );
        },
    }

    vault.total_value_locked = vault.total_value_locked + net_deposit_amount;
    vault.total_fees_collected = vault.total_fees_collected + deposit_fee;

    Ok(
        TokenDepositedEvent {
            vault: vault_key,
            token_mint,
            amount: net_deposit_amount,
            fee_amount: deposit_fee,
            depositor: user_authority,
            timestamp: now,
        },
    )
}

} // verus!
