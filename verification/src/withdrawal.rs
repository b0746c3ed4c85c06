//! Paying tokens and lamports out of a vault.
use vstd::prelude::*;

use crate::account::{
    load_mint, load_token_account, mint_in, token_account_in, AccountInfo, Mint, TokenAccount,
};
use crate::associated::{ata_failure, decide_vault_ata, vault_ata, vault_ata_address};
use crate::context::{
    authority_of, derive_authority, WithdrawAll, WithdrawNative, WithdrawToken,
};
use crate::cpi::TransferTokens;
use crate::error::{Failure, VaultError};
use crate::event::FundsWithdrawn;
use crate::pubkey::{no_key, seed_bytes, Pubkey};
use crate::vault::{contains, require_bot_or_owner, signer_seed_bytes, signer_seeds};

verus! {

/// Tokens that are paid out: what is asked of the token program, and what is
/// announced.
#[derive(Clone, Debug, PartialEq, Eq)]
pub struct Payout {
    pub transfer: TransferTokens,
    pub event: FundsWithdrawn,
}

/// Lamports that change hands.
#[derive(Clone, Copy, Debug, PartialEq, Eq)]
pub struct LamportMove {
    pub from: Pubkey,
    pub to: Pubkey,
    pub amount: u64,
}

impl LamportMove {
    /// The two balances can hold what the move makes of them.
    pub open spec fn applies(self, from_lamports: u64, to_lamports: u64) -> bool {
        &&& self.amount <= from_lamports
        &&& self.from == self.to ==> from_lamports == to_lamports
        &&& self.from != self.to ==> to_lamports + self.amount <= u64::MAX
    }

    /// The balances of the two accounts after the move. A move from an account to
    /// itself changes nothing.
    pub open spec fn balances(self, from_lamports: int, to_lamports: int) -> (int, int) {
        if self.from == self.to {
            (from_lamports, to_lamports)
        } else {
            (from_lamports - self.amount, to_lamports + self.amount)
        }
    }

    /// The balances of the two accounts after the move.
    pub fn apply(&self, from_lamports: u64, to_lamports: u64) -> (after: (u64, u64))
        requires
            self.applies(from_lamports, to_lamports),
        ensures
            (after.0 as int, after.1 as int) == self.balances(
                from_lamports as int,
                to_lamports as int,
            ),
    {
        if self.from == self.to {
            (from_lamports, to_lamports)
        } else {
            (from_lamports - self.amount, to_lamports + self.amount)
        }
    }
}

/// Lamports that are paid out, and what is announced.
#[derive(Clone, Copy, Debug, PartialEq, Eq)]
pub struct NativePayout {
    pub lamports: LamportMove,
    pub event: FundsWithdrawn,
}

/// What is paid, and what is announced, when `amount` lamports leave the vault.
pub open spec fn native_payout(vault: Pubkey, recipient: Pubkey, amount: u64) -> NativePayout {
    NativePayout {
        lamports: LamportMove { from: vault, to: recipient, amount },
        event: FundsWithdrawn { mint: no_key(), to: recipient, amount },
    }
}

/// Why nothing is paid out, where `authority` was derived for the vault's tokens
/// and the request passes on `count` accounts.
pub open spec fn withdraw_all_failure(
    ctx: WithdrawAll,
    count: nat,
    authority: Option<Pubkey>,
) -> Option<Failure> {
    if ctx.constraint_failure(authority) is Some {
        ctx.constraint_failure(authority)
    } else if !ctx.vault.data@.may_act(ctx.caller.pubkey) {
        Some(Failure::Vault(VaultError::Unauthorized))
    } else if ctx.owner.pubkey != ctx.vault.data.owner {
        Some(Failure::Vault(VaultError::Unauthorized))
    } else if count % 3 != 0 {
        Some(Failure::Vault(VaultError::BadAccount))
    } else {
        None
    }
}

/// The decision whether everything may be paid out.
pub open spec fn withdraw_all_decision(
    decision: Result<(), Failure>,
    ctx: WithdrawAll,
    count: nat,
    authority: Option<Pubkey>,
) -> bool {
    match decision {
        Err(reason) => withdraw_all_failure(ctx, count, authority) == Some(reason),
        Ok(_) => withdraw_all_failure(ctx, count, authority) is None,
    }
}

/// The outcome of a request to pay everything out: the decision on it, given the
/// address that is derived for the vault's tokens.
pub open spec fn withdraw_all_outcome(
    decision: Result<(), Failure>,
    ctx: WithdrawAll,
    count: nat,
) -> bool {
    withdraw_all_decision(
        decision,
        ctx,
        count,
        authority_of(ctx.vault.key, ctx.vault.data.authority_bump),
    )
}

/// Decides whether everything may be paid out, given the address derived for the
/// vault's tokens.
pub fn decide_withdraw_all(
    ctx: &WithdrawAll,
    accounts: &[AccountInfo],
    authority: Option<Pubkey>,
) -> (decision: Result<(), Failure>)
    ensures
        withdraw_all_decision(decision, *ctx, accounts@.len(), authority),
{
    match ctx.constraints(authority) {
        Ok(_) => {},
        Err(failure) => {
            return Err(failure);
        },
    }
    match require_bot_or_owner(&ctx.vault.data, &ctx.caller.pubkey) {
        Ok(_) => {},
        Err(failure) => {
            return Err(failure);
        },
    }
    if ctx.owner.pubkey != ctx.vault.data.owner {
        return Err(Failure::Vault(VaultError::Unauthorized));
    }
    if accounts.len() % 3 != 0 {
        return Err(Failure::Vault(VaultError::BadAccount));
    }
    Ok(())
}

/// Decides whether everything may be paid out to the owner: the owner or the bot
/// signs. The tokens then leave one [`withdraw_all_step`] after the other, and the
/// lamports last, by [`withdraw_vault_lamports`].
pub fn withdraw_all(ctx: &WithdrawAll, accounts: &[AccountInfo]) -> (decision: Result<(), Failure>)
    ensures
        withdraw_all_outcome(decision, *ctx, accounts@.len()),
{
    decide_withdraw_all(
        ctx,
        accounts,
        derive_authority(&ctx.vault.key, ctx.vault.data.authority_bump),
    )
}

/// What was read of the three accounts that a step looks at.
#[derive(Clone, Copy, Debug, PartialEq, Eq)]
pub struct WithdrawFacts {
    pub vault_token: Result<TokenAccount, Failure>,
    pub owner_token: Result<TokenAccount, Failure>,
    pub mint: Result<Mint, Failure>,
}

/// One step of paying everything out: three accounts were looked at.
#[derive(Clone, Debug, PartialEq, Eq)]
pub struct WithdrawStep {
    /// Where the next step goes on.
    pub next: usize,
    /// What is paid out of these accounts, if anything.
    pub payout: Option<Payout>,
}

/// The three accounts from `cursor` on, read as the given token accounts, let the
/// vault pay the owner: a token that it trades lies in an account of its authority,
/// and the owner has an account for it.
pub open spec fn is_withdrawable(
    ctx: WithdrawAll,
    accounts: Seq<AccountInfo>,
    cursor: int,
    vault_token: TokenAccount,
    owner_token: TokenAccount,
) -> bool {
    &&& ctx.vault.data.allowed_mints@.contains(vault_token.mint)
    &&& vault_token.owner == ctx.vault_authority
    &&& owner_token.owner == ctx.vault.data.owner
    &&& owner_token.mint == vault_token.mint
    &&& accounts[cursor + 2].key == vault_token.mint
    &&& accounts[cursor].owner == ctx.token_program.key
    &&& accounts[cursor + 1].owner == ctx.token_program.key
    &&& accounts[cursor + 2].owner == ctx.token_program.key
    &&& vault_token.amount > 0
}

/// The payout moves all of the vault's tokens in the first of the three accounts to
/// the owner's account, the second.
pub open spec fn pays_owner(
    payout: Payout,
    ctx: WithdrawAll,
    accounts: Seq<AccountInfo>,
    cursor: int,
    vault_token: TokenAccount,
    mint: Mint,
) -> bool {
    &&& payout.transfer.token_program == ctx.token_program.key
    &&& payout.transfer.from == accounts[cursor].key
    &&& payout.transfer.mint == accounts[cursor + 2].key
    &&& payout.transfer.to == accounts[cursor + 1].key
    &&& payout.transfer.authority == ctx.vault_authority
    &&& payout.transfer.amount == vault_token.amount
    &&& payout.transfer.decimals == mint.decimals
    &&& seed_bytes(payout.transfer.signer_seeds@) == signer_seed_bytes(
        ctx.vault.key,
        ctx.vault.data.authority_bump,
    )
    &&& payout.event == FundsWithdrawn {
        mint: vault_token.mint,
        to: ctx.vault.data.owner,
        amount: vault_token.amount,
    }
}

/// The decision on the three accounts from `cursor` on, by what was read of them.
pub open spec fn withdraw_step_decision(
    decision: Result<Option<WithdrawStep>, Failure>,
    ctx: WithdrawAll,
    accounts: Seq<AccountInfo>,
    cursor: int,
    facts: WithdrawFacts,
) -> bool {
    if cursor + 3 > accounts.len() {
        decision == Ok::<Option<WithdrawStep>, Failure>(None)
    } else {
        match (facts.vault_token, facts.owner_token, facts.mint) {
            (Err(failure), _, _) => decision == Err::<Option<WithdrawStep>, Failure>(failure),
            (_, Err(failure), _) => decision == Err::<Option<WithdrawStep>, Failure>(failure),
            (_, _, Err(failure)) => decision == Err::<Option<WithdrawStep>, Failure>(failure),
            (Ok(vault_token), Ok(owner_token), Ok(mint)) => {
                &&& decision matches Ok(Some(step))
                &&& step.next == cursor + 3
                &&& match step.payout {
                    Some(payout) => {
                        &&& is_withdrawable(ctx, accounts, cursor, vault_token, owner_token)
                        &&& pays_owner(payout, ctx, accounts, cursor, vault_token, mint)
                    },
                    None => !is_withdrawable(ctx, accounts, cursor, vault_token, owner_token),
                }
            },
        }
    }
}

/// Decides on the three accounts from `cursor` on, given what was read of them.
pub fn decide_withdraw_step(
    ctx: &WithdrawAll,
    accounts: &[AccountInfo],
    cursor: usize,
    facts: &WithdrawFacts,
) -> (decision: Result<Option<WithdrawStep>, Failure>)
    ensures
        withdraw_step_decision(decision, *ctx, accounts@, cursor as int, *facts),
{
    let count: usize = accounts.len();
    if cursor > count || count - cursor < 3 {
        return Ok(None);
    }
    let vault_token: TokenAccount = match facts.vault_token {
        Ok(token) => token,
        Err(failure) => {
            return Err(failure);
        },
    };
    let owner_token: TokenAccount = match facts.owner_token {
        Ok(token) => token,
        Err(failure) => {
            return Err(failure);
        },
    };
    let mint: Mint = match facts.mint {
        Ok(mint) => mint,
        Err(failure) => {
            return Err(failure);
        },
    };
    let vault = &ctx.vault.data;
    let vault_token_info = &accounts[cursor];
    let owner_token_info = &accounts[cursor + 1];
    let mint_info = &accounts[cursor + 2];
    if contains(&vault.allowed_mints, &vault_token.mint) && vault_token.owner
        == ctx.vault_authority && owner_token.owner == vault.owner && owner_token.mint
        == vault_token.mint && mint_info.key == vault_token.mint && vault_token_info.owner
        == ctx.token_program.key && owner_token_info.owner == ctx.token_program.key && mint_info.owner
        == ctx.token_program.key && vault_token.amount > 0 {
        let transfer = TransferTokens {
            token_program: ctx.token_program.key,
            from: vault_token_info.key,
            mint: mint_info.key,
            to: owner_token_info.key,
            authority: ctx.vault_authority,
            amount: vault_token.amount,
            decimals: mint.decimals,
            signer_seeds: signer_seeds(&ctx.vault.key, vault.authority_bump),
        };
        let event = FundsWithdrawn {
            mint: vault_token.mint,
            to: vault.owner,
            amount: vault_token.amount,
        };
        Ok(Some(WithdrawStep { next: cursor + 3, payout: Some(Payout { transfer, event }) }))
    } else {
        Ok(Some(WithdrawStep { next: cursor + 3, payout: None }))
    }
}

/// What is read of the three accounts from `cursor` on.
pub open spec fn withdraw_facts(accounts: Seq<AccountInfo>, cursor: int) -> WithdrawFacts {
    WithdrawFacts {
        vault_token: token_account_in(accounts[cursor]),
        owner_token: token_account_in(accounts[cursor + 1]),
        mint: mint_in(accounts[cursor + 2]),
    }
}

/// The outcome of a step of paying everything out: the decision on the three accounts
/// from `cursor` on, by what is read of them.
pub open spec fn withdraw_step_outcome(
    decision: Result<Option<WithdrawStep>, Failure>,
    ctx: WithdrawAll,
    accounts: Seq<AccountInfo>,
    cursor: int,
) -> bool {
    withdraw_step_decision(decision, ctx, accounts, cursor, withdraw_facts(accounts, cursor))
}

/// The next step of paying everything out: the three accounts from `cursor` on, a
/// token account of the vault, one of the owner and the mint; none when no three
/// accounts are left. The accounts are those of the request as they are now, after
/// the transfers of the steps before.
pub fn withdraw_all_step(ctx: &WithdrawAll, accounts: &[AccountInfo], cursor: usize) -> (decision:
    Result<Option<WithdrawStep>, Failure>)
    ensures
        withdraw_step_outcome(decision, *ctx, accounts@, cursor as int),
{
    let count: usize = accounts.len();
    if cursor > count || count - cursor < 3 {
        return Ok(None);
    }
    let facts = WithdrawFacts {
        vault_token: load_token_account(&accounts[cursor]),
        owner_token: load_token_account(&accounts[cursor + 1]),
        mint: load_mint(&accounts[cursor + 2]),
    };
    decide_withdraw_step(ctx, accounts, cursor, &facts)
}

/// What is paid to the recipient when the vault, of whose lamports `rent_min` keep
/// its account alive, pays out the others.
pub open spec fn lamport_payout(
    vault: Pubkey,
    recipient: Pubkey,
    vault_lamports: u64,
    rent_min: u64,
) -> Option<NativePayout> {
    if vault_lamports > rent_min {
        Some(native_payout(vault, recipient, (vault_lamports - rent_min) as u64))
    } else {
        None
    }
}

/// Pays out the lamports of the vault beyond those that keep its account alive.
pub fn withdraw_vault_lamports(
    vault: &Pubkey,
    recipient: &Pubkey,
    vault_lamports: u64,
    rent_min: u64,
) -> (payout: Option<NativePayout>)
    ensures
        payout == lamport_payout(*vault, *recipient, vault_lamports, rent_min),
{
    if vault_lamports > rent_min {
        let amount: u64 = vault_lamports - rent_min;
        Some(
            NativePayout {
                lamports: LamportMove { from: *vault, to: *recipient, amount },
                event: FundsWithdrawn { mint: Pubkey::default(), to: *recipient, amount },
            },
        )
    } else {
        None
    }
}

/// Why the tokens are not paid out, where `authority` was derived for the vault's
/// tokens and `expected` for the token account.
pub open spec fn withdraw_token_failure(
    ctx: WithdrawToken,
    amount: u64,
    authority: Option<Pubkey>,
    expected: Option<Pubkey>,
) -> Option<Failure> {
    let source = ctx.vault_token_account;
    let target = ctx.recipient_token_account;
    if ctx.constraint_failure(authority) is Some {
        ctx.constraint_failure(authority)
    } else if amount == 0 {
        Some(Failure::Vault(VaultError::InvalidInput))
    } else if source.data.owner != ctx.vault_authority || source.data.mint != ctx.mint.key
        || target.data.mint != ctx.mint.key || target.data.owner != ctx.recipient_wallet
        || source.program != ctx.token_program.key || target.program != ctx.token_program.key
        || ctx.mint.program != ctx.token_program.key {
        Some(Failure::Vault(VaultError::BadAccount))
    } else {
        ata_failure(expected, source.key)
    }
}

/// The decision on a request to pay out some of one token.
pub open spec fn withdraw_token_decision(
    decision: Result<Payout, Failure>,
    ctx: WithdrawToken,
    amount: u64,
    authority: Option<Pubkey>,
    expected: Option<Pubkey>,
) -> bool {
    match decision {
        Err(reason) => withdraw_token_failure(ctx, amount, authority, expected) == Some(reason),
        Ok(payout) => {
            &&& withdraw_token_failure(ctx, amount, authority, expected) is None
            &&& payout.transfer.token_program == ctx.token_program.key
            &&& payout.transfer.from == ctx.vault_token_account.key
            &&& payout.transfer.mint == ctx.mint.key
            &&& payout.transfer.to == ctx.recipient_token_account.key
            &&& payout.transfer.authority == ctx.vault_authority
            &&& payout.transfer.amount == amount
            &&& payout.transfer.decimals == ctx.mint.data.decimals
            &&& seed_bytes(payout.transfer.signer_seeds@) == signer_seed_bytes(
                ctx.vault.key,
                ctx.vault.data.authority_bump,
            )
            &&& payout.event == FundsWithdrawn {
                mint: ctx.mint.key,
                to: ctx.recipient_wallet,
                amount,
            }
        },
    }
}

/// Decides on a request to pay out some of one token, given the addresses derived
/// for the vault's tokens and for the token account.
pub fn decide_withdraw_token(
    ctx: &WithdrawToken,
    amount: u64,
    authority: Option<Pubkey>,
    expected: Option<Pubkey>,
) -> (decision: Result<Payout, Failure>)
    ensures
        withdraw_token_decision(decision, *ctx, amount, authority, expected),
{
    match ctx.constraints(authority) {
        Ok(_) => {},
        Err(failure) => {
            return Err(failure);
        },
    }
    if amount == 0 {
        return Err(Failure::Vault(VaultError::InvalidInput));
    }
    if ctx.vault_token_account.data.owner != ctx.vault_authority {
        return Err(Failure::Vault(VaultError::BadAccount));
    }
    if ctx.vault_token_account.data.mint != ctx.mint.key {
        return Err(Failure::Vault(VaultError::BadAccount));
    }
    if ctx.recipient_token_account.data.mint != ctx.mint.key {
        return Err(Failure::Vault(VaultError::BadAccount));
    }
    if ctx.recipient_token_account.data.owner != ctx.recipient_wallet {
        return Err(Failure::Vault(VaultError::BadAccount));
    }
    if ctx.vault_token_account.program != ctx.token_program.key {
        return Err(Failure::Vault(VaultError::BadAccount));
    }
    if ctx.recipient_token_account.program != ctx.token_program.key {
        return Err(Failure::Vault(VaultError::BadAccount));
    }
    if ctx.mint.program != ctx.token_program.key {
        return Err(Failure::Vault(VaultError::BadAccount));
    }
    match decide_vault_ata(expected, &ctx.vault_token_account.key) {
        Ok(_) => {},
        Err(failure) => {
            return Err(failure);
        },
    }
    let transfer = TransferTokens {
        token_program: ctx.token_program.key,
        from: ctx.vault_token_account.key,
        mint: ctx.mint.key,
        to: ctx.recipient_token_account.key,
        authority: ctx.vault_authority,
        amount,
        decimals: ctx.mint.data.decimals,
        signer_seeds: signer_seeds(&ctx.vault.key, ctx.vault.data.authority_bump),
    };
    let event = FundsWithdrawn { mint: ctx.mint.key, to: ctx.recipient_wallet, amount };
    Ok(Payout { transfer, event })
}

/// The outcome of a request to pay out some of one token: the decision on it, given
/// the addresses that are derived for the vault's tokens and for the token account.
pub open spec fn withdraw_token_outcome(
    decision: Result<Payout, Failure>,
    ctx: WithdrawToken,
    amount: u64,
) -> bool {
    withdraw_token_decision(
        decision,
        ctx,
        amount,
        authority_of(ctx.vault.key, ctx.vault.data.authority_bump),
        vault_ata(ctx.vault_authority, ctx.mint.key, ctx.token_program.key),
    )
}

/// Pays some of one token to whom the owner, who signs, names.
pub fn withdraw_token(ctx: &WithdrawToken, amount: u64) -> (decision: Result<Payout, Failure>)
    ensures
        withdraw_token_outcome(decision, *ctx, amount),
{
    let authority = derive_authority(&ctx.vault.key, ctx.vault.data.authority_bump);
    let expected = vault_ata_address(&ctx.vault_authority, &ctx.mint.key, &ctx.token_program.key);
    decide_withdraw_token(ctx, amount, authority, expected)
}

/// Why the lamports are not paid out.
pub open spec fn withdraw_native_failure(
    ctx: WithdrawNative,
    vault_lamports: u64,
    rent_min: u64,
    amount: u64,
) -> Option<Failure> {
    if ctx.constraint_failure() is Some {
        ctx.constraint_failure()
    } else if amount == 0 {
        Some(Failure::Vault(VaultError::InvalidInput))
    } else if vault_lamports < rent_min + amount {
        Some(Failure::Vault(VaultError::InsufficientBalance))
    } else {
        None
    }
}

/// The decision on a request to pay out some of the lamports.
pub open spec fn withdraw_native_decision(
    decision: Result<NativePayout, Failure>,
    ctx: WithdrawNative,
    vault_lamports: u64,
    rent_min: u64,
    amount: u64,
) -> bool {
    match decision {
        Err(reason) => withdraw_native_failure(ctx, vault_lamports, rent_min, amount) == Some(
            reason,
        ),
        Ok(payout) => {
            &&& withdraw_native_failure(ctx, vault_lamports, rent_min, amount) is None
            &&& payout == native_payout(ctx.vault.key, ctx.recipient.pubkey, amount)
        },
    }
}

/// Pays lamports to whom the owner, who signs, names. The vault holds
/// `vault_lamports`, of which `rent_min` keep its account alive.
pub fn withdraw_native(
    ctx: &WithdrawNative,
    vault_lamports: u64,
    rent_min: u64,
    amount: u64,
) -> (decision: Result<NativePayout, Failure>)
    requires
        ctx.constraint_failure() is None ==> rent_min + amount <= u64::MAX,
    ensures
        withdraw_native_decision(decision, *ctx, vault_lamports, rent_min, amount),
{
    match ctx.constraints() {
        Ok(_) => {},
        Err(failure) => {
            return Err(failure);
        },
    }
    if amount == 0 {
        return Err(Failure::Vault(VaultError::InvalidInput));
    }
    if vault_lamports < rent_min + amount {
        return Err(Failure::Vault(VaultError::InsufficientBalance));
    }
    Ok(
        NativePayout {
            lamports: LamportMove { from: ctx.vault.key, to: ctx.recipient.pubkey, amount },
            event: FundsWithdrawn { mint: Pubkey::default(), to: ctx.recipient.pubkey, amount },
        },
    )
}

}
