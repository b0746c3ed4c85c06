//! Closing the empty token accounts of a vault.
use vstd::prelude::*;

use crate::account::{
    load_mint, load_token_account, mint_in, token_account_in, Account, AccountInfo, Mint,
    TokenAccount,
};
use crate::associated::{ata_failure, decide_vault_ata, vault_ata, vault_ata_address};
use crate::context::{authority_of, derive_authority, CloseEmptyTokenAccounts};
use crate::cpi::CloseTokenAccount;
use crate::error::{Failure, VaultError};
use crate::event::{TokenAccountClosed, TokenStatusUpdated};
use crate::laws::law_without_token_is_wf;
use crate::pubkey::{seed_bytes, Pubkey};
use crate::vault::{position, signer_seed_bytes, signer_seeds, VaultView};

verus! {

/// Why no account is closed, where `authority` was derived for the vault's tokens
/// and the request passes on `count` accounts.
pub open spec fn close_accounts_failure(
    ctx: CloseEmptyTokenAccounts,
    count: nat,
    authority: Option<Pubkey>,
) -> Option<Failure> {
    if ctx.constraint_failure(authority) is Some {
        ctx.constraint_failure(authority)
    } else if ctx.owner.pubkey != ctx.vault.data.owner {
        Some(Failure::Vault(VaultError::Unauthorized))
    } else if count % 2 != 0 {
        Some(Failure::Vault(VaultError::BadAccount))
    } else {
        None
    }
}

/// The decision whether token accounts may be closed.
pub open spec fn close_accounts_decision(
    decision: Result<(), Failure>,
    ctx: CloseEmptyTokenAccounts,
    count: nat,
    authority: Option<Pubkey>,
) -> bool {
    match decision {
        Err(reason) => close_accounts_failure(ctx, count, authority) == Some(reason),
        Ok(_) => close_accounts_failure(ctx, count, authority) is None,
    }
}

/// The outcome of a request to close token accounts: the decision on it, given the
/// address that is derived for the vault's tokens.
pub open spec fn close_accounts_outcome(
    decision: Result<(), Failure>,
    ctx: CloseEmptyTokenAccounts,
    count: nat,
) -> bool {
    close_accounts_decision(
        decision,
        ctx,
        count,
        authority_of(ctx.vault.key, ctx.vault.data.authority_bump),
    )
}

/// Decides whether token accounts may be closed, given the address derived for the
/// vault's tokens.
pub fn decide_close_accounts(
    ctx: &CloseEmptyTokenAccounts,
    accounts: &[AccountInfo],
    authority: Option<Pubkey>,
) -> (decision: Result<(), Failure>)
    ensures
        close_accounts_decision(decision, *ctx, accounts@.len(), authority),
{
    match ctx.constraints(authority) {
        Ok(_) => {},
        Err(failure) => {
            return Err(failure);
        },
    }
    if ctx.owner.pubkey != ctx.vault.data.owner {
        return Err(Failure::Vault(VaultError::Unauthorized));
    }
    if accounts.len() % 2 != 0 {
        return Err(Failure::Vault(VaultError::BadAccount));
    }
    Ok(())
}

/// Decides whether token accounts of the vault may be closed: the owner signs. They
/// are then closed one [`close_accounts_step`] after the other.
pub fn close_empty_token_accounts(
    ctx: &CloseEmptyTokenAccounts,
    accounts: &[AccountInfo],
) -> (decision: Result<(), Failure>)
    ensures
        close_accounts_outcome(decision, *ctx, accounts@.len()),
{
    decide_close_accounts(
        ctx,
        accounts,
        derive_authority(&ctx.vault.key, ctx.vault.data.authority_bump),
    )
}

/// What was found out about the two accounts that a step looks at.
#[derive(Clone, Copy, Debug, PartialEq, Eq)]
pub struct CloseFacts {
    pub vault_token: Result<TokenAccount, Failure>,
    pub mint: Result<Mint, Failure>,
    /// The address derived for the token account.
    pub ata: Option<Pubkey>,
}

/// One step of closing token accounts: what is asked of the token program, and
/// what is announced.
#[derive(Clone, Debug, PartialEq, Eq)]
pub struct CloseStep {
    /// Where the next step goes on.
    pub next: usize,
    pub close: CloseTokenAccount,
    pub closed: TokenAccountClosed,
    /// The token was on the vault's list and is taken off.
    pub status: Option<TokenStatusUpdated>,
}

/// Why the token account at `cursor` is not closed, by what was found out about it
/// and the mint after it.
pub open spec fn close_step_failure(
    ctx: CloseEmptyTokenAccounts,
    accounts: Seq<AccountInfo>,
    cursor: int,
    facts: CloseFacts,
) -> Option<Failure> {
    let token_info = accounts[cursor];
    let mint_info = accounts[cursor + 1];
    match (facts.vault_token, facts.mint) {
        (Err(failure), _) => Some(failure),
        (_, Err(failure)) => Some(failure),
        (Ok(token), Ok(_)) => if token.owner != ctx.vault_authority || token.mint != mint_info.key {
            Some(Failure::Vault(VaultError::BadAccount))
        } else if token.amount != 0 {
            Some(Failure::Vault(VaultError::TokenAccountNotEmpty))
        } else if token_info.owner != ctx.token_program.key || mint_info.owner != ctx.token_program.key {
            Some(Failure::Vault(VaultError::BadAccount))
        } else {
            ata_failure(facts.ata, token_info.key)
        },
    }
}

/// The vault after the token account for `mint` was closed: the token leaves the
/// list if it was on it.
pub open spec fn after_closing(vault: VaultView, mint: Pubkey) -> VaultView {
    if vault.allowed_mints.contains(mint) {
        vault.without_token(mint)
    } else {
        vault
    }
}

/// The decision on the two accounts from `cursor` on, by what was found out about
/// them, and what it makes of the accounts of the request.
pub open spec fn close_step_decision(
    decision: Result<Option<CloseStep>, Failure>,
    before: CloseEmptyTokenAccounts,
    after: CloseEmptyTokenAccounts,
    accounts: Seq<AccountInfo>,
    cursor: int,
    facts: CloseFacts,
) -> bool {
    if cursor + 2 > accounts.len() {
        &&& decision == Ok::<Option<CloseStep>, Failure>(None)
        &&& after == before
    } else {
        let failure = close_step_failure(before, accounts, cursor, facts);
        let mint = accounts[cursor + 1].key;
        match decision {
            Err(reason) => failure == Some(reason) && after == before,
            Ok(None) => false,
            Ok(Some(step)) => {
                &&& failure is None
                &&& after.vault.data@ == after_closing(before.vault.data@, mint)
                &&& after == (CloseEmptyTokenAccounts {
                    vault: (Account { data: after.vault.data, ..before.vault }),
                    ..before
                })
                &&& step.next == cursor + 2
                &&& step.close.token_program == before.token_program.key
                &&& step.close.account == accounts[cursor].key
                &&& step.close.destination == before.owner.pubkey
                &&& step.close.authority == before.vault_authority
                &&& seed_bytes(step.close.signer_seeds@) == signer_seed_bytes(
                    before.vault.key,
                    before.vault.data.authority_bump,
                )
                &&& step.closed == TokenAccountClosed {
                    token_account: accounts[cursor].key,
                    mint,
                    to: before.vault.data.owner,
                }
                &&& step.status == if before.vault.data.allowed_mints@.contains(mint) {
                    Some(TokenStatusUpdated { mint, allowed: false })
                } else {
                    None
                }
            },
        }
    }
}

/// Decides on the two accounts from `cursor` on, given what was found out about
/// them.
pub fn decide_close_step(
    ctx: &mut CloseEmptyTokenAccounts,
    accounts: &[AccountInfo],
    cursor: usize,
    facts: &CloseFacts,
) -> (decision: Result<Option<CloseStep>, Failure>)
    ensures
        close_step_decision(
            decision,
            *old(ctx),
            *final(ctx),
            accounts@,
            cursor as int,
            *facts,
        ),
        old(ctx).vault.data@.wf() ==> final(ctx).vault.data@.wf(),
{
    let count: usize = accounts.len();
    if cursor > count || count - cursor < 2 {
        return Ok(None);
    }
    let token: TokenAccount = match facts.vault_token {
        Ok(token) => token,
        Err(failure) => {
            return Err(failure);
        },
    };
    match facts.mint {
        Ok(_) => {},
        Err(failure) => {
            return Err(failure);
        },
    }
    let token_info = &accounts[cursor];
    let mint_info = &accounts[cursor + 1];
    if token.owner != ctx.vault_authority {
        return Err(Failure::Vault(VaultError::BadAccount));
    }
    if token.mint != mint_info.key {
        return Err(Failure::Vault(VaultError::BadAccount));
    }
    if token.amount != 0 {
        return Err(Failure::Vault(VaultError::TokenAccountNotEmpty));
    }
    if token_info.owner != ctx.token_program.key {
        return Err(Failure::Vault(VaultError::BadAccount));
    }
    if mint_info.owner != ctx.token_program.key {
        return Err(Failure::Vault(VaultError::BadAccount));
    }
    match decide_vault_ata(facts.ata, &token_info.key) {
        Ok(_) => {},
        Err(failure) => {
            return Err(failure);
        },
    }
    let mint = mint_info.key;
    let close = CloseTokenAccount {
        token_program: ctx.token_program.key,
        account: token_info.key,
        destination: ctx.owner.pubkey,
        authority: ctx.vault_authority,
        signer_seeds: signer_seeds(&ctx.vault.key, ctx.vault.data.authority_bump),
    };
    let closed = TokenAccountClosed { token_account: token_info.key, mint, to: ctx.vault.data.owner };
    let status: Option<TokenStatusUpdated> = match position(
        &ctx.vault.data.allowed_mints,
        &mint,
    ) {
        Some(place) => {
            proof {
                if ctx.vault.data@.wf() {
                    law_without_token_is_wf(ctx.vault.data@, mint);
                }
            }
            ctx.vault.data.allowed_mints.swap_remove(place);
            assert(ctx.vault.data@ =~= old(ctx).vault.data@.without_token(mint));
            Some(TokenStatusUpdated { mint, allowed: false })
        },
        None => None,
    };
    Ok(Some(CloseStep { next: cursor + 2, close, closed, status }))
}

/// What is found out about the two accounts from `cursor` on.
pub open spec fn close_facts(
    ctx: CloseEmptyTokenAccounts,
    accounts: Seq<AccountInfo>,
    cursor: int,
) -> CloseFacts {
    CloseFacts {
        vault_token: token_account_in(accounts[cursor]),
        mint: mint_in(accounts[cursor + 1]),
        ata: vault_ata(ctx.vault_authority, accounts[cursor + 1].key, ctx.token_program.key),
    }
}

/// The outcome of a step of closing token accounts: the decision on the two accounts
/// from `cursor` on, by what is found out about them.
pub open spec fn close_step_outcome(
    decision: Result<Option<CloseStep>, Failure>,
    before: CloseEmptyTokenAccounts,
    after: CloseEmptyTokenAccounts,
    accounts: Seq<AccountInfo>,
    cursor: int,
) -> bool {
    close_step_decision(
        decision,
        before,
        after,
        accounts,
        cursor,
        close_facts(before, accounts, cursor),
    )
}

/// The next step of closing token accounts: the two accounts from `cursor` on, a
/// token account of the vault and the mint; none when no two accounts are left. The
/// token is taken off the vault's list. The accounts are those of the request as
/// they are now, after the closings of the steps before.
pub fn close_accounts_step(
    ctx: &mut CloseEmptyTokenAccounts,
    accounts: &[AccountInfo],
    cursor: usize,
) -> (decision: Result<Option<CloseStep>, Failure>)
    ensures
        close_step_outcome(decision, *old(ctx), *final(ctx), accounts@, cursor as int),
        old(ctx).vault.data@.wf() ==> final(ctx).vault.data@.wf(),
{
    let count: usize = accounts.len();
    if cursor > count || count - cursor < 2 {
        return Ok(None);
    }
    let facts = CloseFacts {
        vault_token: load_token_account(&accounts[cursor]),
        mint: load_mint(&accounts[cursor + 1]),
        ata: vault_ata_address(&ctx.vault_authority, &accounts[cursor + 1].key, &ctx.token_program.key),
    };
    decide_close_step(ctx, accounts, cursor, &facts)
}

}
