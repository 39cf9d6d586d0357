//! Setting up a new vault.
use vstd::prelude::*;

use crate::events::VaultInitializedEvent;
use crate::pubkey::Pubkey;
use crate::state::{FeeConfig, Vault, VaultView};

use crate::machine::{after_step, VaultOperation};
verus! {

/// The vault after it is set up for `authority`: the authority and the
/// emergency admin are recorded with the address's bump, the vault is not
/// paused, and no fees are charged, with the authority receiving them.
pub open spec fn initialize_outcome(
    v: VaultView,
    authority: Pubkey,
    emergency_admin: Pubkey,
    bump: u8,
) -> VaultView {
    VaultView {
        authority,
        bump,
        emergency_admin,
        paused: false,
        fee_config: FeeConfig { deposit_fee_bps: 0, withdrawal_fee_bps: 0, fee_recipient: authority },
        ..v
    }
}

/// Sets up the vault at `vault_key`, whose address was derived with `bump`,
/// for `authority`, with `emergency_admin`, at time `now`. The vault
/// changes as `initialize_outcome` says, and the returned record repeats
/// what was set.
pub fn handler(
    vault: &mut Vault,
    vault_key: Pubkey,
    authority: Pubkey,
    emergency_admin: Pubkey,
    bump: u8,
    now: i64,
) -> (event: VaultInitializedEvent)
    ensures
        final(vault)@ == after_step(old(vault)@, (VaultOperation::Initialize { authority, emergency_admin, bump })),
        final(vault)@ == initialize_outcome(old(vault)@, authority, emergency_admin, bump),
        event == (VaultInitializedEvent { vault: vault_key, authority, emergency_admin, bump, timestamp: now }),
{
    vault.authority = authority;
    vault.bump = bump;
    vault.emergency_admin = emergency_admin;
    vault.paused = false;
    vault.fee_config = FeeConfig { deposit_fee_bps: 0, withdrawal_fee_bps: 0, fee_recipient: authority };
    VaultInitializedEvent {
        vault: vault_key,
        authority,
        emergency_admin,
        bump: vault.bump,
        timestamp: now,
    }
}

} // verus!
