//! Entry points that read the vault's accounts directly rather than
//! through a framework.
pub mod basic;
pub mod multisig;
