//! Helpers shared by the account-level entry points.
pub mod utils;
