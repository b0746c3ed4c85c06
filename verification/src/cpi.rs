//! What the vault program asks of other programs.
use vstd::prelude::*;

use crate::account::AccountMeta;
use crate::pubkey::Pubkey;

verus! {

/// The request to a token program to close a token account; its lamports go to
/// `destination`.
#[derive(Clone, Debug, PartialEq, Eq)]
pub struct CloseTokenAccount {
    pub token_program: Pubkey,
    pub account: Pubkey,
    pub destination: Pubkey,
    pub authority: Pubkey,
    /// The seeds with which the vault program signs for the authority.
    pub signer_seeds: Vec<Vec<u8>>,
}

/// The request to a token program to move tokens.
#[derive(Clone, Debug, PartialEq, Eq)]
pub struct TransferTokens {
    pub token_program: Pubkey,
    pub from: Pubkey,
    pub mint: Pubkey,
    pub to: Pubkey,
    pub authority: Pubkey,
    pub amount: u64,
    pub decimals: u8,
    /// The seeds with which the vault program signs for the authority.
    pub signer_seeds: Vec<Vec<u8>>,
}

/// A request to any program.
#[derive(Clone, Debug, PartialEq, Eq)]
pub struct Instruction {
    pub program_id: Pubkey,
    pub accounts: Vec<AccountMeta>,
    pub data: Vec<u8>,
}

}
