//! The ways in which a request to the vault program can be refused.
use vstd::prelude::*;

verus! {

/// The vault's own reasons for refusing a request.
#[derive(Clone, Copy, Debug, PartialEq, Eq, Structural)]
pub enum VaultError {
    Unauthorized,
    InvalidInput,
    InvalidToken,
    InvalidRouter,
    TooManyTokens,
    TokenNotAllowed,
    TokenAlreadyAllowed,
    BadAccount,
    Slippage,
    Math,
    InsufficientBalance,
    TokenAccountNotEmpty,
    VaultNotReadyToClose,
}

/// The number that is reported for the first of the vault's own reasons; the
/// others follow it in the order in which they are declared.
pub const FIRST_VAULT_ERROR: u32 = 6000;

impl VaultError {
    /// The place of the reason among the vault's own reasons.
    pub open spec fn index(self) -> u32 {
        match self {
            VaultError::Unauthorized => 0,
            VaultError::InvalidInput => 1,
            VaultError::InvalidToken => 2,
            VaultError::InvalidRouter => 3,
            VaultError::TooManyTokens => 4,
            VaultError::TokenNotAllowed => 5,
            VaultError::TokenAlreadyAllowed => 6,
            VaultError::BadAccount => 7,
            VaultError::Slippage => 8,
            VaultError::Math => 9,
            VaultError::InsufficientBalance => 10,
            VaultError::TokenAccountNotEmpty => 11,
            VaultError::VaultNotReadyToClose => 12,
        }
    }

    /// What a client is shown for the reason.
    pub open spec fn text(self) -> Seq<char> {
        match self {
            VaultError::Unauthorized => "Unauthorized"@,
            VaultError::InvalidInput => "Invalid input"@,
            VaultError::InvalidToken => "Invalid token"@,
            VaultError::InvalidRouter => "Invalid router"@,
            VaultError::TooManyTokens => "Too many tokens"@,
            VaultError::TokenNotAllowed => "Token not allowed"@,
            VaultError::TokenAlreadyAllowed => "Token already allowed"@,
            VaultError::BadAccount => "Bad account"@,
            VaultError::Slippage => "Slippage"@,
            VaultError::Math => "Math"@,
            VaultError::InsufficientBalance => "Insufficient balance"@,
            VaultError::TokenAccountNotEmpty => "Token account is not empty"@,
            VaultError::VaultNotReadyToClose => "Vault is not ready to close"@,
        }
    }

    /// The number that is reported for the reason.
    pub fn code(&self) -> (code: u32)
        ensures
            code == FIRST_VAULT_ERROR + self.index(),
    {
        let index: u32 = match self {
            VaultError::Unauthorized => 0,
            VaultError::InvalidInput => 1,
            VaultError::InvalidToken => 2,
            VaultError::InvalidRouter => 3,
            VaultError::TooManyTokens => 4,
            VaultError::TokenNotAllowed => 5,
            VaultError::TokenAlreadyAllowed => 6,
            VaultError::BadAccount => 7,
            VaultError::Slippage => 8,
            VaultError::Math => 9,
            VaultError::InsufficientBalance => 10,
            VaultError::TokenAccountNotEmpty => 11,
            VaultError::VaultNotReadyToClose => 12,
        };
        FIRST_VAULT_ERROR + index
    }

    /// The text that is shown for the reason.
    pub fn message(&self) -> (message: &'static str)
        ensures
            message@ == self.text(),
    {
        match self {
            VaultError::Unauthorized => "Unauthorized",
            VaultError::InvalidInput => "Invalid input",
            VaultError::InvalidToken => "Invalid token",
            VaultError::InvalidRouter => "Invalid router",
            VaultError::TooManyTokens => "Too many tokens",
            VaultError::TokenNotAllowed => "Token not allowed",
            VaultError::TokenAlreadyAllowed => "Token already allowed",
            VaultError::BadAccount => "Bad account",
            VaultError::Slippage => "Slippage",
            VaultError::Math => "Math",
            VaultError::InsufficientBalance => "Insufficient balance",
            VaultError::TokenAccountNotEmpty => "Token account is not empty",
            VaultError::VaultNotReadyToClose => "Vault is not ready to close",
        }
    }
}

/// What the accounts of a request must satisfy before the request is looked at.
#[derive(Clone, Copy, Debug, PartialEq, Eq, Structural)]
pub enum ConstraintError {
    /// The bytes of the account were read, but it belongs to another program.
    AccountOwnedByWrongProgram,
    /// The account is not the program that the request needs.
    InvalidProgramId,
    /// The program that the request needs cannot be called.
    InvalidProgramExecutable,
    /// The account has to sign the request.
    AccountNotSigner,
    /// The account has to be writable.
    ConstraintMut,
    /// The vault names another owner.
    ConstraintHasOne,
    /// The account is not at the address derived for it.
    ConstraintSeeds,
    /// The account would be closed into itself.
    ConstraintClose,
}

/// Why a request was not carried out.
#[derive(Clone, Copy, Debug, PartialEq, Eq, Structural)]
pub enum Failure {
    /// The vault refuses the request.
    Vault(VaultError),
    /// The accounts of the request do not fit together.
    Constraint(ConstraintError),
    /// The bytes of an account could not be read; the number is the program
    /// error that the reader reports.
    Program(u64),
    /// No bump yields an address for some seeds; the request is abandoned.
    NoAddress,
}

}
