//! What the vault program announces about the requests that it carries out.
use vstd::prelude::*;

use crate::pubkey::Pubkey;

verus! {

/// A token was put on, or taken off, the list of tokens that the vault trades.
#[derive(Clone, Copy, Debug, PartialEq, Eq)]
pub struct TokenStatusUpdated {
    pub mint: Pubkey,
    pub allowed: bool,
}

/// Another bot may act for the owner.
#[derive(Clone, Copy, Debug, PartialEq, Eq)]
pub struct BotAddressUpdated {
    pub old_bot: Pubkey,
    pub new_bot: Pubkey,
}

/// Trades go through another router.
#[derive(Clone, Copy, Debug, PartialEq, Eq)]
pub struct RouterUpdated {
    pub jupiter_router: Pubkey,
}

/// A trade was settled.
#[derive(Clone, Copy, Debug, PartialEq, Eq)]
pub struct TradeExecuted {
    pub token_in: Pubkey,
    pub token_out: Pubkey,
    pub router: Pubkey,
    pub amount_in: u64,
    pub amount_spent: u64,
    pub amount_out: u64,
}

/// Tokens, or lamports under the all-zero mint, left the vault.
#[derive(Clone, Copy, Debug, PartialEq, Eq)]
pub struct FundsWithdrawn {
    pub mint: Pubkey,
    pub to: Pubkey,
    pub amount: u64,
}

/// A token account of the vault was closed.
#[derive(Clone, Copy, Debug, PartialEq, Eq)]
pub struct TokenAccountClosed {
    pub token_account: Pubkey,
    pub mint: Pubkey,
    pub to: Pubkey,
}

}
