//! The errors that the vault's instructions answer with.
use vstd::prelude::*;

verus! {

/// Why an instruction was refused.
#[derive(Clone, Copy, Debug, PartialEq, Eq, Structural)]
pub enum VaultError {
    InvalidOwner,
    NotEnoughSigners,
    TransactionAlreadyExecuted,
    TransactionAlreadySigned,
    InvalidThreshold,
    MultisigNotInitialized,
    TransactionNotFound,
    InsufficientAuthority,
    InvalidTransactionData,
    UnauthorizedAccess,
    InvalidAccountData,
    AccountNotRentExempt,
    InvalidAccountOwner,
    ArithmeticOverflow,
    InvalidAmount,
    VaultPaused,
    TokenNotSupported,
    TokenAlreadySupported,
    DuplicateOwners,
}

/// The position of an error in the list of errors, counted from zero.
pub open spec fn error_index(e: VaultError) -> u32 {
    match e {
        VaultError::InvalidOwner => 0,
        VaultError::NotEnoughSigners => 1,
        VaultError::TransactionAlreadyExecuted => 2,
        VaultError::TransactionAlreadySigned => 3,
        VaultError::InvalidThreshold => 4,
        VaultError::MultisigNotInitialized => 5,
        VaultError::TransactionNotFound => 6,
        VaultError::InsufficientAuthority => 7,
        VaultError::InvalidTransactionData => 8,
        VaultError::UnauthorizedAccess => 9,
        VaultError::InvalidAccountData => 10,
        VaultError::AccountNotRentExempt => 11,
        VaultError::InvalidAccountOwner => 12,
        VaultError::ArithmeticOverflow => 13,
        VaultError::InvalidAmount => 14,
        VaultError::VaultPaused => 15,
        VaultError::TokenNotSupported => 16,
        VaultError::TokenAlreadySupported => 17,
        VaultError::DuplicateOwners => 18,
    }
}

/// The number that custom program errors start from.
pub const ERROR_CODE_OFFSET: u32 = 6000;

/// The text that explains an error.
pub open spec fn error_text(e: VaultError) -> Seq<char> {
    match e {
        VaultError::InvalidOwner => "The given owner is not part of this multisig"@,
        VaultError::NotEnoughSigners => "Not enough owners signed this transaction"@,
        VaultError::TransactionAlreadyExecuted => "The given transaction has already been executed"@,
        VaultError::TransactionAlreadySigned => "The owner has already signed this transaction"@,
        VaultError::InvalidThreshold => "Threshold must be less than or equal to the number of owners"@,
        VaultError::MultisigNotInitialized => "Multisig has not been initialized for this vault"@,
        VaultError::TransactionNotFound => "Transaction with the given ID was not found"@,
        VaultError::InsufficientAuthority => "Insufficient authority to perform this operation"@,
        VaultError::InvalidTransactionData => "Invalid transaction data provided"@,
        VaultError::UnauthorizedAccess => "Unauthorized access to this operation"@,
        VaultError::InvalidAccountData => "Invalid account data"@,
        VaultError::AccountNotRentExempt => "Account is not rent exempt"@,
        VaultError::InvalidAccountOwner => "Invalid account owner"@,
        VaultError::ArithmeticOverflow => "Arithmetic operation overflow"@,
        VaultError::InvalidAmount => "Invalid amount specified"@,
        VaultError::VaultPaused => "Vault is paused"@,
        VaultError::TokenNotSupported => "Token is not supported"@,
        VaultError::TokenAlreadySupported => "Token is already supported"@,
        VaultError::DuplicateOwners => "Duplicate owners detected"@,
    }
}

impl VaultError {
    /// The error's number: its position in the list, after the offset that
    /// custom program errors start from.
    pub fn code(&self) -> (code: u32)
        ensures
            code == ERROR_CODE_OFFSET + error_index(*self),
    {
        let index: u32 = match self {
            VaultError::InvalidOwner => 0,
            VaultError::NotEnoughSigners => 1,
            VaultError::TransactionAlreadyExecuted => 2,
            VaultError::TransactionAlreadySigned => 3,
            VaultError::InvalidThreshold => 4,
            VaultError::MultisigNotInitialized => 5,
            VaultError::TransactionNotFound => 6,
            VaultError::InsufficientAuthority => 7,
            VaultError::InvalidTransactionData => 8,
            VaultError::UnauthorizedAccess => 9,
            VaultError::InvalidAccountData => 10,
            VaultError::AccountNotRentExempt => 11,
            VaultError::InvalidAccountOwner => 12,
            VaultError::ArithmeticOverflow => 13,
            VaultError::InvalidAmount => 14,
            VaultError::VaultPaused => 15,
            VaultError::TokenNotSupported => 16,
            VaultError::TokenAlreadySupported => 17,
            VaultError::DuplicateOwners => 18,
        };
        ERROR_CODE_OFFSET + index
    }

    /// The text that explains the error.
    pub fn message(&self) -> (text: &'static str)
        ensures
            text@ == error_text(*self),
    {
        match self {
            VaultError::InvalidOwner => "The given owner is not part of this multisig",
            VaultError::NotEnoughSigners => "Not enough owners signed this transaction",
            VaultError::TransactionAlreadyExecuted => "The given transaction has already been executed",
            VaultError::TransactionAlreadySigned => "The owner has already signed this transaction",
            VaultError::InvalidThreshold => "Threshold must be less than or equal to the number of owners",
            VaultError::MultisigNotInitialized => "Multisig has not been initialized for this vault",
            VaultError::TransactionNotFound => "Transaction with the given ID was not found",
            VaultError::InsufficientAuthority => "Insufficient authority to perform this operation",
            VaultError::InvalidTransactionData => "Invalid transaction data provided",
            VaultError::UnauthorizedAccess => "Unauthorized access to this operation",
            VaultError::InvalidAccountData => "Invalid account data",
            VaultError::AccountNotRentExempt => "Account is not rent exempt",
            VaultError::InvalidAccountOwner => "Invalid account owner",
            VaultError::ArithmeticOverflow => "Arithmetic operation overflow",
            VaultError::InvalidAmount => "Invalid amount specified",
            VaultError::VaultPaused => "Vault is paused",
            VaultError::TokenNotSupported => "Token is not supported",
            VaultError::TokenAlreadySupported => "Token is already supported",
            VaultError::DuplicateOwners => "Duplicate owners detected",
        }
    }
}

} // verus!
