//! Checks on the accounts that an instruction is given.
use vstd::prelude::*;

use crate::pubkey::Pubkey;

verus! {

/// The runtime's account-level errors that the checks answer with.
#[derive(Clone, Copy, Debug, PartialEq, Eq, Structural)]
pub enum AccountError {
    MissingRequiredSignature,
    IncorrectProgramId,
    InvalidAccountData,
    InvalidAccountOwner,
}

/// Accepts an account owned by `expected_owner`, and refuses any other
/// with `InvalidAccountOwner`.
pub fn validate_account_ownership(owner: &Pubkey, expected_owner: &Pubkey) -> (result: Result<(), AccountError>)
    ensures
        result == if *owner == *expected_owner {
            Ok::<(), AccountError>(())
        } else {
            Err(AccountError::InvalidAccountOwner)
        },
{
    if !owner.same_as(expected_owner) {
        return Err(AccountError::InvalidAccountOwner);
    }
    Ok(())
}

} // verus!
