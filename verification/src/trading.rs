//! Trading one token of a vault for another.
use vstd::prelude::*;

use crate::account::{
    decoded_token_account, load_token_account, reload_token_account, token_account_in,
    token_account_of, AccountInfo, AccountMeta, TokenAccount,
};
use crate::associated::{
    ata_failure, decide_vault_ata, is_supported_token_account_owner, is_token_program, vault_ata,
    vault_ata_address,
};
use crate::context::{authority_of, derive_authority, Trade};
use crate::cpi::Instruction;
use crate::error::{Failure, VaultError};
use crate::event::TradeExecuted;
use crate::pubkey::{no_key, seed_bytes, Pubkey};
use crate::vault::{
    require_allowed, require_bot_or_owner, signer_seed_bytes, signer_seeds,
};

verus! {

/// The most bytes that a trade hands to the router.
pub const MAX_JUPITER_IX_DATA_BYTES: usize = 128;

/// What is to be traded.
#[derive(Clone, Copy, Debug, PartialEq, Eq)]
pub struct TradeOrder {
    pub token_in_mint: Pubkey,
    pub token_out_mint: Pubkey,
    /// The most that may be spent.
    pub amount_in: u64,
    /// The least that has to be received.
    pub min_amount_out: u64,
    /// How many of the bytes are handed to the router.
    pub jupiter_ix_data_len: u16,
    pub jupiter_ix_data: [u8; MAX_JUPITER_IX_DATA_BYTES],
}

/// What was found out about the accounts of a trade.
#[derive(Clone, Debug, PartialEq, Eq)]
pub struct TradeFacts {
    /// The address derived for the vault's tokens.
    pub authority: Option<Pubkey>,
    /// The address derived for the vault's account of the token that is spent.
    pub ata_in: Option<Pubkey>,
    /// The address derived for the vault's account of the token that is received.
    pub ata_out: Option<Pubkey>,
    /// The token accounts among those that the router is handed, as far as they
    /// matter.
    pub tokens: Vec<Option<TokenAccount>>,
}

/// A trade that may go ahead: what is asked of the router, and what is needed to
/// settle the trade afterwards.
#[derive(Clone, Debug, PartialEq, Eq)]
pub struct TradePlan {
    pub instruction: Instruction,
    /// The seeds with which the vault program signs for the vault's authority.
    pub signer_seeds: Vec<Vec<u8>>,
    pub token_in: Pubkey,
    pub token_out: Pubkey,
    pub amount_in: u64,
    pub min_amount_out: u64,
    pub token_in_before: u64,
    pub token_out_before: u64,
}

/// Some account has the address.
pub open spec fn has_key(accounts: Seq<AccountInfo>, address: Pubkey) -> bool {
    exists|i: int| 0 <= i < accounts.len() && (#[trigger] accounts[i]).key == address
}

/// Some account has the address and is writable.
pub open spec fn has_writable(accounts: Seq<AccountInfo>, address: Pubkey) -> bool {
    exists|i: int|
        0 <= i < accounts.len() && (#[trigger] accounts[i]).key == address
            && accounts[i].is_writable
}

/// The router could change the account, and the account could hold tokens other
/// than those that are traded.
pub open spec fn is_exposed(account: AccountInfo, token_in: Pubkey, token_out: Pubkey) -> bool {
    &&& account.is_writable
    &&& is_token_program(account.owner)
    &&& account.key != token_in
    &&& account.key != token_out
}

/// The token account that an exposed account is.
pub open spec fn exposed_token(account: AccountInfo, token_in: Pubkey, token_out: Pubkey) -> Option<
    TokenAccount,
> {
    if is_exposed(account, token_in, token_out) {
        match token_account_in(account) {
            Ok(token) => Some(token),
            Err(_) => None,
        }
    } else {
        None
    }
}

/// The token accounts that the exposed accounts are.
pub open spec fn exposed_tokens(
    accounts: Seq<AccountInfo>,
    token_in: Pubkey,
    token_out: Pubkey,
) -> Seq<Option<TokenAccount>> {
    accounts.map_values(|account: AccountInfo| exposed_token(account, token_in, token_out))
}

/// The account at `i` is exposed and, as `tokens` has it, holds tokens of the
/// vault.
pub open spec fn exposes_vault(
    accounts: Seq<AccountInfo>,
    tokens: Seq<Option<TokenAccount>>,
    vault_authority: Pubkey,
    token_in: Pubkey,
    token_out: Pubkey,
    i: int,
) -> bool {
    &&& is_exposed(accounts[i], token_in, token_out)
    &&& i < tokens.len()
    &&& tokens[i] matches Some(token)
    &&& token.owner == vault_authority
}

/// The router gets what it needs, and none of the vault's other tokens.
pub open spec fn trade_accounts_fit(
    accounts: Seq<AccountInfo>,
    tokens: Seq<Option<TokenAccount>>,
    vault_authority: Pubkey,
    vault_token_in: Pubkey,
    vault_token_out: Pubkey,
    token_program_in: Pubkey,
    token_program_out: Pubkey,
) -> bool {
    &&& has_key(accounts, vault_authority)
    &&& has_writable(accounts, vault_token_in)
    &&& has_writable(accounts, vault_token_out)
    &&& has_key(accounts, token_program_in)
    &&& has_key(accounts, token_program_out)
    &&& forall|i: int|
        0 <= i < accounts.len() ==> !#[trigger] exposes_vault(
            accounts,
            tokens,
            vault_authority,
            vault_token_in,
            vault_token_out,
            i,
        )
}

/// Reads the exposed accounts.
pub fn load_exposed_tokens(accounts: &[AccountInfo], token_in: &Pubkey, token_out: &Pubkey) -> (tokens:
    Vec<Option<TokenAccount>>)
    ensures
        tokens@ == exposed_tokens(accounts@, *token_in, *token_out),
{
    let mut tokens: Vec<Option<TokenAccount>> = Vec::new();
    let mut i: usize = 0;
    while i < accounts.len()
        invariant
            i <= accounts@.len(),
            tokens@ == exposed_tokens(accounts@.take(i as int), *token_in, *token_out),
        decreases accounts@.len() - i,
    {
        let account = &accounts[i];
        let token: Option<TokenAccount> = if account.is_writable
            && is_supported_token_account_owner(&account.owner) && account.key != *token_in
            && account.key != *token_out {
            match load_token_account(account) {
                Ok(token) => Some(token),
                Err(_) => None,
            }
        } else {
            None
        };
        tokens.push(token);
        i = i + 1;
        assert(accounts@.take(i as int).drop_last() =~= accounts@.take(i - 1));
    }
    assert(accounts@.take(i as int) =~= accounts@);
    tokens
}

/// Decides whether the router may be handed the accounts, given the token accounts
/// among the exposed ones.
pub fn decide_trade_accounts(
    accounts: &[AccountInfo],
    tokens: &Vec<Option<TokenAccount>>,
    vault_authority: &Pubkey,
    vault_token_in: &Pubkey,
    vault_token_out: &Pubkey,
    token_program_in: &Pubkey,
    token_program_out: &Pubkey,
) -> (verdict: Result<(), Failure>)
    ensures
        verdict == if trade_accounts_fit(
            accounts@,
            tokens@,
            *vault_authority,
            *vault_token_in,
            *vault_token_out,
            *token_program_in,
            *token_program_out,
        ) {
            Ok::<(), Failure>(())
        } else {
            Err(Failure::Vault(VaultError::BadAccount))
        },
{
    let mut has_authority: bool = false;
    let mut has_token_in: bool = false;
    let mut has_token_out: bool = false;
    let mut has_token_program_in: bool = false;
    let mut has_token_program_out: bool = false;
    let mut i: usize = 0;
    while i < accounts.len()
        invariant
            i <= accounts@.len(),
            has_authority == exists|j: int|
                0 <= j < i && (#[trigger] accounts@[j]).key == *vault_authority,
            has_token_in == exists|j: int|
                0 <= j < i && (#[trigger] accounts@[j]).key == *vault_token_in
                    && accounts@[j].is_writable,
            has_token_out == exists|j: int|
                0 <= j < i && (#[trigger] accounts@[j]).key == *vault_token_out
                    && accounts@[j].is_writable,
            has_token_program_in == exists|j: int|
                0 <= j < i && (#[trigger] accounts@[j]).key == *token_program_in,
            has_token_program_out == exists|j: int|
                0 <= j < i && (#[trigger] accounts@[j]).key == *token_program_out,
            forall|j: int|
                0 <= j < i ==> !#[trigger] exposes_vault(
                    accounts@,
                    tokens@,
                    *vault_authority,
                    *vault_token_in,
                    *vault_token_out,
                    j,
                ),
        decreases accounts@.len() - i,
    {
        let account = &accounts[i];
        if account.key == *vault_authority {
            has_authority = true;
        }
        if account.key == *vault_token_in && account.is_writable {
            has_token_in = true;
        }
        if account.key == *vault_token_out && account.is_writable {
            has_token_out = true;
        }
        if account.key == *token_program_in {
            has_token_program_in = true;
        }
        if account.key == *token_program_out {
            has_token_program_out = true;
        }
        if account.is_writable && is_supported_token_account_owner(&account.owner) && account.key
            != *vault_token_in && account.key != *vault_token_out && i < tokens.len() {
            if let Some(token) = tokens[i] {
                if token.owner == *vault_authority {
                    assert(exposes_vault(
                        accounts@,
                        tokens@,
                        *vault_authority,
                        *vault_token_in,
                        *vault_token_out,
                        i as int,
                    ));
                    return Err(Failure::Vault(VaultError::BadAccount));
                }
            }
        }
        i = i + 1;
    }
    if has_authority && has_token_in && has_token_out && has_token_program_in
        && has_token_program_out {
        Ok(())
    } else {
        Err(Failure::Vault(VaultError::BadAccount))
    }
}

/// The verdict on the accounts that the router is to be handed.
pub open spec fn trade_accounts_verdict(
    accounts: Seq<AccountInfo>,
    vault_authority: Pubkey,
    vault_token_in: Pubkey,
    vault_token_out: Pubkey,
    token_program_in: Pubkey,
    token_program_out: Pubkey,
) -> Result<(), Failure> {
    if trade_accounts_fit(
        accounts,
        exposed_tokens(accounts, vault_token_in, vault_token_out),
        vault_authority,
        vault_token_in,
        vault_token_out,
        token_program_in,
        token_program_out,
    ) {
        Ok(())
    } else {
        Err(Failure::Vault(VaultError::BadAccount))
    }
}

/// Lets accounts through that the router may be handed: the vault's authority, the
/// two token accounts that are traded and their token programs are among them, and
/// no other token account of the vault is writable.
pub fn validate_trade_remaining_accounts(
    remaining_accounts: &[AccountInfo],
    vault_authority: &Pubkey,
    vault_token_in: &Pubkey,
    vault_token_out: &Pubkey,
    token_program_in: &Pubkey,
    token_program_out: &Pubkey,
) -> (verdict: Result<(), Failure>)
    ensures
        verdict == trade_accounts_verdict(
            remaining_accounts@,
            *vault_authority,
            *vault_token_in,
            *vault_token_out,
            *token_program_in,
            *token_program_out,
        ),
{
    let tokens = load_exposed_tokens(remaining_accounts, vault_token_in, vault_token_out);
    decide_trade_accounts(
        remaining_accounts,
        &tokens,
        vault_authority,
        vault_token_in,
        vault_token_out,
        token_program_in,
        token_program_out,
    )
}

/// The accounts as the router is handed them: the vault's authority signs, nobody
/// else does.
pub open spec fn trade_metas(accounts: Seq<AccountInfo>, vault_authority: Pubkey) -> Seq<
    AccountMeta,
> {
    accounts.map_values(
        |account: AccountInfo|
            AccountMeta {
                pubkey: account.key,
                is_signer: account.key == vault_authority,
                is_writable: account.is_writable,
            },
    )
}

/// Names the accounts for the router.
pub fn trade_account_metas(accounts: &[AccountInfo], vault_authority: &Pubkey) -> (metas: Vec<
    AccountMeta,
>)
    ensures
        metas@ == trade_metas(accounts@, *vault_authority),
{
    let mut metas: Vec<AccountMeta> = Vec::with_capacity(accounts.len());
    let mut i: usize = 0;
    while i < accounts.len()
        invariant
            i <= accounts@.len(),
            metas@ == trade_metas(accounts@.take(i as int), *vault_authority),
        decreases accounts@.len() - i,
    {
        let account = &accounts[i];
        let is_signer: bool = account.key == *vault_authority;
        if account.is_writable {
            metas.push(AccountMeta::new(account.key, is_signer));
        } else {
            metas.push(AccountMeta::new_readonly(account.key, is_signer));
        }
        i = i + 1;
        assert(accounts@.take(i as int).drop_last() =~= accounts@.take(i - 1));
    }
    assert(accounts@.take(i as int) =~= accounts@);
    metas
}

/// Why the trade does not go ahead, given what was found out about its accounts.
pub open spec fn trade_failure(
    ctx: Trade,
    remaining: Seq<AccountInfo>,
    order: TradeOrder,
    authority: Option<Pubkey>,
    ata_in: Option<Pubkey>,
    ata_out: Option<Pubkey>,
    tokens: Seq<Option<TokenAccount>>,
) -> Option<Failure> {
    let vault = ctx.vault.data;
    let spent = ctx.vault_token_in;
    let received = ctx.vault_token_out;
    if ctx.constraint_failure(authority) is Some {
        ctx.constraint_failure(authority)
    } else if order.jupiter_ix_data_len > MAX_JUPITER_IX_DATA_BYTES {
        Some(Failure::Vault(VaultError::InvalidInput))
    } else if !vault@.may_act(ctx.caller.pubkey) {
        Some(Failure::Vault(VaultError::Unauthorized))
    } else if order.amount_in == 0 || order.min_amount_out == 0 {
        Some(Failure::Vault(VaultError::InvalidInput))
    } else if order.token_in_mint == no_key() || order.token_out_mint == no_key()
        || order.token_in_mint == order.token_out_mint {
        Some(Failure::Vault(VaultError::InvalidToken))
    } else if !vault.allowed_mints@.contains(order.token_in_mint)
        || !vault.allowed_mints@.contains(order.token_out_mint) {
        Some(Failure::Vault(VaultError::TokenNotAllowed))
    } else if ctx.jupiter_program != vault.jupiter_router {
        Some(Failure::Vault(VaultError::InvalidRouter))
    } else if spent.data.owner != ctx.vault_authority || received.data.owner != ctx.vault_authority
        || spent.data.mint != order.token_in_mint || received.data.mint != order.token_out_mint
        || spent.program != ctx.token_program_in.key || received.program != ctx.token_program_out.key {
        Some(Failure::Vault(VaultError::BadAccount))
    } else if ata_failure(ata_in, spent.key) is Some {
        ata_failure(ata_in, spent.key)
    } else if ata_failure(ata_out, received.key) is Some {
        ata_failure(ata_out, received.key)
    } else if spent.data.amount < order.amount_in {
        Some(Failure::Vault(VaultError::InsufficientBalance))
    } else if remaining.len() == 0 {
        Some(Failure::Vault(VaultError::BadAccount))
    } else if remaining.last().key != ctx.jupiter_program {
        Some(Failure::Vault(VaultError::InvalidRouter))
    } else if !trade_accounts_fit(
        remaining.drop_last(),
        tokens,
        ctx.vault_authority,
        spent.key,
        received.key,
        ctx.token_program_in.key,
        ctx.token_program_out.key,
    ) {
        Some(Failure::Vault(VaultError::BadAccount))
    } else {
        None
    }
}

/// The decision on a trade, given what was found out about its accounts.
pub open spec fn trade_decision(
    decision: Result<TradePlan, Failure>,
    ctx: Trade,
    remaining: Seq<AccountInfo>,
    order: TradeOrder,
    authority: Option<Pubkey>,
    ata_in: Option<Pubkey>,
    ata_out: Option<Pubkey>,
    tokens: Seq<Option<TokenAccount>>,
) -> bool {
    let failure = trade_failure(ctx, remaining, order, authority, ata_in, ata_out, tokens);
    match decision {
        Err(reason) => failure == Some(reason),
        Ok(plan) => {
            &&& failure is None
            &&& plan.instruction.program_id == ctx.jupiter_program
            &&& plan.instruction.accounts@ == trade_metas(
                remaining.drop_last(),
                ctx.vault_authority,
            )
            &&& plan.instruction.data@ == order.jupiter_ix_data@.take(
                order.jupiter_ix_data_len as int,
            )
            &&& seed_bytes(plan.signer_seeds@) == signer_seed_bytes(
                ctx.vault.key,
                ctx.vault.data.authority_bump,
            )
            &&& plan.token_in == order.token_in_mint
            &&& plan.token_out == order.token_out_mint
            &&& plan.amount_in == order.amount_in
            &&& plan.min_amount_out == order.min_amount_out
            &&& plan.token_in_before == ctx.vault_token_in.data.amount
            &&& plan.token_out_before == ctx.vault_token_out.data.amount
        },
    }
}

/// Decides on a trade, given what was found out about its accounts.
pub fn decide_trade(
    ctx: &Trade,
    remaining: &[AccountInfo],
    order: &TradeOrder,
    facts: &TradeFacts,
) -> (decision: Result<TradePlan, Failure>)
    ensures
        trade_decision(
            decision,
            *ctx,
            remaining@,
            *order,
            facts.authority,
            facts.ata_in,
            facts.ata_out,
            facts.tokens@,
        ),
{
    match ctx.constraints(facts.authority) {
        Ok(_) => {},
        Err(failure) => {
            return Err(failure);
        },
    }
    let data_len: usize = order.jupiter_ix_data_len as usize;
    if data_len > MAX_JUPITER_IX_DATA_BYTES {
        return Err(Failure::Vault(VaultError::InvalidInput));
    }
    let vault = &ctx.vault.data;
    match require_bot_or_owner(vault, &ctx.caller.pubkey) {
        Ok(_) => {},
        Err(failure) => {
            return Err(failure);
        },
    }
    if order.amount_in == 0 || order.min_amount_out == 0 {
        return Err(Failure::Vault(VaultError::InvalidInput));
    }
    let none = Pubkey::default();
    if order.token_in_mint == none {
        return Err(Failure::Vault(VaultError::InvalidToken));
    }
    if order.token_out_mint == none {
        return Err(Failure::Vault(VaultError::InvalidToken));
    }
    if order.token_in_mint == order.token_out_mint {
        return Err(Failure::Vault(VaultError::InvalidToken));
    }
    match require_allowed(vault, &order.token_in_mint) {
        Ok(_) => {},
        Err(failure) => {
            return Err(failure);
        },
    }
    match require_allowed(vault, &order.token_out_mint) {
        Ok(_) => {},
        Err(failure) => {
            return Err(failure);
        },
    }
    if ctx.jupiter_program != vault.jupiter_router {
        return Err(Failure::Vault(VaultError::InvalidRouter));
    }
    if ctx.vault_token_in.data.owner != ctx.vault_authority {
        return Err(Failure::Vault(VaultError::BadAccount));
    }
    if ctx.vault_token_out.data.owner != ctx.vault_authority {
        return Err(Failure::Vault(VaultError::BadAccount));
    }
    if ctx.vault_token_in.data.mint != order.token_in_mint {
        return Err(Failure::Vault(VaultError::BadAccount));
    }
    if ctx.vault_token_out.data.mint != order.token_out_mint {
        return Err(Failure::Vault(VaultError::BadAccount));
    }
    if ctx.vault_token_in.program != ctx.token_program_in.key {
        return Err(Failure::Vault(VaultError::BadAccount));
    }
    if ctx.vault_token_out.program != ctx.token_program_out.key {
        return Err(Failure::Vault(VaultError::BadAccount));
    }
    match decide_vault_ata(facts.ata_in, &ctx.vault_token_in.key) {
        Ok(_) => {},
        Err(failure) => {
            return Err(failure);
        },
    }
    match decide_vault_ata(facts.ata_out, &ctx.vault_token_out.key) {
        Ok(_) => {},
        Err(failure) => {
            return Err(failure);
        },
    }
    let token_in_before: u64 = ctx.vault_token_in.data.amount;
    if token_in_before < order.amount_in {
        return Err(Failure::Vault(VaultError::InsufficientBalance));
    }
    let token_out_before: u64 = ctx.vault_token_out.data.amount;
    let count: usize = remaining.len();
    if count == 0 {
        return Err(Failure::Vault(VaultError::BadAccount));
    }
    if remaining[count - 1].key != ctx.jupiter_program {
        return Err(Failure::Vault(VaultError::InvalidRouter));
    }
    let handed = vstd::slice::slice_subrange(remaining, 0, count - 1);
    assert(handed@ =~= remaining@.drop_last());
    match decide_trade_accounts(
        handed,
        &facts.tokens,
        &ctx.vault_authority,
        &ctx.vault_token_in.key,
        &ctx.vault_token_out.key,
        &ctx.token_program_in.key,
        &ctx.token_program_out.key,
    ) {
        Ok(_) => {},
        Err(failure) => {
            return Err(failure);
        },
    }
    let accounts = trade_account_metas(handed, &ctx.vault_authority);
    let data = vstd::slice::slice_to_vec(
        vstd::slice::slice_subrange(order.jupiter_ix_data.as_slice(), 0, data_len),
    );
    Ok(
        TradePlan {
            instruction: Instruction { program_id: ctx.jupiter_program, accounts, data },
            signer_seeds: signer_seeds(&ctx.vault.key, vault.authority_bump),
            token_in: order.token_in_mint,
            token_out: order.token_out_mint,
            amount_in: order.amount_in,
            min_amount_out: order.min_amount_out,
            token_in_before,
            token_out_before,
        },
    )
}

/// The outcome of a request to trade: the decision on it, given the addresses that are
/// derived for the vault's tokens and for the two token accounts, and the token
/// accounts that are exposed to the router.
pub open spec fn trade_outcome(
    decision: Result<TradePlan, Failure>,
    ctx: Trade,
    remaining: Seq<AccountInfo>,
    order: TradeOrder,
) -> bool {
    trade_decision(
        decision,
        ctx,
        remaining,
        order,
        authority_of(ctx.vault.key, ctx.vault.data.authority_bump),
        vault_ata(ctx.vault_authority, order.token_in_mint, ctx.token_program_in.key),
        vault_ata(ctx.vault_authority, order.token_out_mint, ctx.token_program_out.key),
        exposed_tokens(remaining.drop_last(), ctx.vault_token_in.key, ctx.vault_token_out.key),
    )
}

/// Decides on a trade, for the owner or the bot, who signs. The last of the
/// remaining accounts is the router; the others are handed to it.
pub fn trade(
    ctx: &Trade,
    remaining: &[AccountInfo],
    token_in_mint: Pubkey,
    token_out_mint: Pubkey,
    amount_in: u64,
    min_amount_out: u64,
    jupiter_ix_data_len: u16,
    jupiter_ix_data: [u8; MAX_JUPITER_IX_DATA_BYTES],
) -> (decision: Result<TradePlan, Failure>)
    ensures
        trade_outcome(
            decision,
            *ctx,
            remaining@,
            TradeOrder {
                token_in_mint,
                token_out_mint,
                amount_in,
                min_amount_out,
                jupiter_ix_data_len,
                jupiter_ix_data,
            },
        ),
{
    let order = TradeOrder {
        token_in_mint,
        token_out_mint,
        amount_in,
        min_amount_out,
        jupiter_ix_data_len,
        jupiter_ix_data,
    };
    let count: usize = remaining.len();
    let tokens: Vec<Option<TokenAccount>> = if count == 0 {
        Vec::new()
    } else {
        let handed = vstd::slice::slice_subrange(remaining, 0, count - 1);
        assert(handed@ =~= remaining@.drop_last());
        load_exposed_tokens(handed, &ctx.vault_token_in.key, &ctx.vault_token_out.key)
    };
    let facts = TradeFacts {
        authority: derive_authority(&ctx.vault.key, ctx.vault.data.authority_bump),
        ata_in: vault_ata_address(&ctx.vault_authority, &token_in_mint, &ctx.token_program_in.key),
        ata_out: vault_ata_address(&ctx.vault_authority, &token_out_mint, &ctx.token_program_out.key),
        tokens,
    };
    decide_trade(ctx, remaining, &order, &facts)
}

/// What comes of a trade after which the vault holds `token_in_after` and
/// `token_out_after`.
pub open spec fn settlement(plan: TradePlan, token_in_after: u64, token_out_after: u64) -> Result<
    TradeExecuted,
    Failure,
> {
    let spent = plan.token_in_before - token_in_after;
    let received = token_out_after - plan.token_out_before;
    if spent < 0 {
        Err(Failure::Vault(VaultError::Math))
    } else if received < 0 {
        Err(Failure::Vault(VaultError::Slippage))
    } else if spent > plan.amount_in {
        Err(Failure::Vault(VaultError::InsufficientBalance))
    } else if received < plan.min_amount_out {
        Err(Failure::Vault(VaultError::Slippage))
    } else {
        Ok(
            TradeExecuted {
                token_in: plan.token_in,
                token_out: plan.token_out,
                router: plan.instruction.program_id,
                amount_in: plan.amount_in,
                amount_spent: spent as u64,
                amount_out: received as u64,
            },
        )
    }
}

/// Settles a trade by what the vault holds afterwards: no more was spent than
/// ordered, and no less received.
pub fn settle_trade(plan: &TradePlan, token_in_after: u64, token_out_after: u64) -> (settled: Result<
    TradeExecuted,
    Failure,
>)
    ensures
        settled == settlement(*plan, token_in_after, token_out_after),
{
    let spent: u64 = match plan.token_in_before.checked_sub(token_in_after) {
        Some(spent) => spent,
        None => {
            return Err(Failure::Vault(VaultError::Math));
        },
    };
    let received: u64 = match token_out_after.checked_sub(plan.token_out_before) {
        Some(received) => received,
        None => {
            return Err(Failure::Vault(VaultError::Slippage));
        },
    };
    if spent > plan.amount_in {
        return Err(Failure::Vault(VaultError::InsufficientBalance));
    }
    if received < plan.min_amount_out {
        return Err(Failure::Vault(VaultError::Slippage));
    }
    Ok(
        TradeExecuted {
            token_in: plan.token_in,
            token_out: plan.token_out,
            router: plan.instruction.program_id,
            amount_in: plan.amount_in,
            amount_spent: spent,
            amount_out: received,
        },
    )
}

/// What comes of a trade, by what was read of the vault's two token accounts
/// afterwards.
pub open spec fn finished(
    plan: TradePlan,
    token_in: Result<TokenAccount, Failure>,
    token_out: Result<TokenAccount, Failure>,
) -> Result<TradeExecuted, Failure> {
    match token_in {
        Err(failure) => Err(failure),
        Ok(spent) => match token_out {
            Err(failure) => Err(failure),
            Ok(received) => settlement(plan, spent.amount, received.amount),
        },
    }
}

/// What comes of a trade, by the data of the vault's two token accounts afterwards.
pub open spec fn trade_result(
    plan: TradePlan,
    token_in_data: Seq<u8>,
    token_out_data: Seq<u8>,
) -> Result<TradeExecuted, Failure> {
    finished(
        plan,
        token_account_of(decoded_token_account(token_in_data)),
        token_account_of(decoded_token_account(token_out_data)),
    )
}

/// Settles a trade by the data of the vault's two token accounts after the router
/// has done its part.
pub fn finish_trade(plan: &TradePlan, token_in_data: &[u8], token_out_data: &[u8]) -> (settled: Result<
    TradeExecuted,
    Failure,
>)
    ensures
        settled == trade_result(*plan, token_in_data@, token_out_data@),
{
    match reload_token_account(token_in_data) {
        Err(failure) => Err(failure),
        Ok(spent) => match reload_token_account(token_out_data) {
            Err(failure) => Err(failure),
            Ok(received) => settle_trade(plan, spent.amount, received.amount),
        },
    }
}

}
