//! The rules of a vault that holds tokens for automated trading on Solana.
//!
//! A vault belongs to an owner, who decides which tokens it trades and through which
//! router, and may take everything out. A bot may trade for the owner, and may have
//! everything paid out to the owner, and nothing else. The tokens lie in token
//! accounts of an address, the vault's authority, for which only the vault program
//! signs.
//!
//! Each request comes with the accounts that it names ([`context`]) and those that
//! it passes on ([`account::AccountInfo`]). The functions here decide on requests:
//! they return what is to be asked of other programs and what is to be announced, or
//! why the request is refused. Where a decision rests on an address that has to be
//! derived or on account data that has to be read, one function takes what was found
//! (`decide_...`), and another finds it out and asks the first.
//!
//! Exactly when a request is granted, and what it is answered, is stated in
//! [`admission`], for its accounts, and [`answers`]. What holds of the program as a
//! whole is stated in [`laws`].
use vstd::prelude::*;

pub mod account;
pub mod admission;
pub mod answers;
pub mod associated;
pub mod closing;
pub mod context;
pub mod cpi;
pub mod error;
pub mod event;
pub mod laws;
pub mod management;
pub mod pubkey;
pub mod trading;
pub mod vault;
pub mod withdrawal;

verus! {

pub use crate::closing::close_empty_token_accounts;
pub use crate::context::{
    AddToken, CloseEmptyTokenAccounts, CloseVaultAccount, InitializeVault, OwnerOnly, ReadVault,
    RemoveToken, Trade, WithdrawAll, WithdrawNative, WithdrawToken,
};
pub use crate::error::{Failure, VaultError};
pub use crate::event::{
    BotAddressUpdated, FundsWithdrawn, RouterUpdated, TokenAccountClosed, TokenStatusUpdated,
    TradeExecuted,
};
pub use crate::management::{
    add_token, allowed_tokens_length, close_vault_account, get_allowed_tokens, initialize_vault,
    is_allowed_token, remove_token, set_bot_address, update_routers,
};
pub use crate::pubkey::Pubkey;
pub use crate::trading::{trade, MAX_JUPITER_IX_DATA_BYTES};
pub use crate::vault::{Vault, MAX_ALLOWED_MINTS};
pub use crate::withdrawal::{withdraw_all, withdraw_native, withdraw_token};

}
