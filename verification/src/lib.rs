//! A token vault with fee accounting, a supported-token registry and a
//! multi-signature transaction queue, together with a number-guessing game.
pub mod error;
pub mod events;
pub mod fees;
pub mod guessing;
pub mod instructions;
pub mod laws;
pub mod machine;
pub mod modules;
pub mod pda;
pub mod processors;
pub mod pubkey;
pub mod search;
pub mod state;
