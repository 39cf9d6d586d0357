//! The vault's instructions, each a step from the vault's state and the
//! instruction's arguments to the next state and the record it announces.
pub mod deposit;
pub mod withdraw;
pub mod withdraw_sol;
pub mod transfer;
pub mod initialize_multisig;
pub mod set_multisig_owners;
pub mod change_multisig_threshold;
pub mod initialize;
pub mod add_supported_token;
pub mod create_multisig_tx;
pub mod approve_multisig_tx;
pub mod execute_multisig_tx;
