//! Creating, configuring and closing a vault.
use vstd::prelude::*;

use crate::account::{Account, AccountInfo};
use crate::associated::{
    associated_token_address_with_program, ata_failure, decide_vault_ata,
    decide_vault_ata_creation, vault_ata, vault_ata_address, AtaPlan, AtaPlanView, CreateAta,
};
use crate::context::{
    authority_of, derive_authority, derive_vault, derived, find_authority, AddToken,
    CloseVaultAccount, InitializeVault, OwnerOnly, ReadVault, RemoveToken,
};
use crate::cpi::CloseTokenAccount;
use crate::error::{Failure, VaultError};
use crate::event::{BotAddressUpdated, RouterUpdated, TokenAccountClosed, TokenStatusUpdated};
use crate::laws::{law_normalized_is_distinct, law_with_token_is_wf, law_without_token_is_wf};
use crate::pubkey::{no_key, seed_bytes, Pubkey};
use crate::vault::{
    authority_seed_bytes, contains, normalize, normalized, position, signer_seed_bytes,
    signer_seeds, vault_seed_bytes, Vault, VaultView, MAX_ALLOWED_MINTS,
};

verus! {

/// A vault that was just created, with what is announced and what is still to be
/// done.
#[derive(Clone, Debug, PartialEq, Eq)]
pub struct Initialized {
    pub vault: Vault,
    pub statuses: Vec<TokenStatusUpdated>,
    pub bot: BotAddressUpdated,
    pub router: RouterUpdated,
    /// The token accounts that have to exist.
    pub atas: AtaPlan,
}

/// Why no vault is created, where `home` was found for the vault, `authority` for
/// its tokens, and the request passes on `count` accounts.
pub open spec fn initialize_failure(
    ctx: InitializeVault,
    count: nat,
    bot_address: Pubkey,
    jupiter_router: Pubkey,
    initial_mints: Seq<Pubkey>,
    home: Option<(Pubkey, u8)>,
    authority: Option<(Pubkey, u8)>,
) -> Option<Failure> {
    if ctx.constraint_failure(home, authority) is Some {
        ctx.constraint_failure(home, authority)
    } else if bot_address == no_key() {
        Some(Failure::Vault(VaultError::InvalidInput))
    } else if jupiter_router == no_key() {
        Some(Failure::Vault(VaultError::InvalidRouter))
    } else if initial_mints.len() > MAX_ALLOWED_MINTS {
        Some(Failure::Vault(VaultError::TooManyTokens))
    } else if count != normalized(initial_mints).len() * 3 {
        Some(Failure::Vault(VaultError::BadAccount))
    } else {
        None
    }
}

/// The decision on the creation of a vault: what the vault is, what is announced
/// and what is still to be done, or why there is none.
pub open spec fn initialize_decision(
    decision: Result<Initialized, Failure>,
    ctx: InitializeVault,
    count: nat,
    bot_address: Pubkey,
    jupiter_router: Pubkey,
    initial_mints: Seq<Pubkey>,
    home: Option<(Pubkey, u8)>,
    authority: Option<(Pubkey, u8)>,
) -> bool {
    let failure = initialize_failure(
        ctx,
        count,
        bot_address,
        jupiter_router,
        initial_mints,
        home,
        authority,
    );
    let mints = normalized(initial_mints);
    match decision {
        Err(reason) => failure == Some(reason),
        Ok(done) => {
            &&& failure is None
            &&& done.vault@ == VaultView {
                owner: ctx.owner.pubkey,
                bot_address,
                jupiter_router,
                authority_bump: authority.unwrap().1,
                allowed_mints: mints,
            }
            &&& done.statuses@ == mints.map_values(
                |mint: Pubkey| TokenStatusUpdated { mint, allowed: true },
            )
            &&& done.bot == BotAddressUpdated { old_bot: no_key(), new_bot: bot_address }
            &&& done.router == RouterUpdated { jupiter_router }
            &&& done.atas@ == AtaPlanView {
                payer: ctx.owner.pubkey,
                vault_authority: ctx.vault_authority,
                system_program: ctx.system_program.key,
                associated_token_program: ctx.associated_token_program.key,
                mints,
            }
        },
    }
}

/// Decides on the creation of a vault, given the addresses found for the vault and
/// for its tokens.
pub fn decide_initialize_vault(
    ctx: &InitializeVault,
    accounts: &[AccountInfo],
    bot_address: Pubkey,
    jupiter_router: Pubkey,
    initial_mints: &Vec<Pubkey>,
    home: Option<(Pubkey, u8)>,
    authority: Option<(Pubkey, u8)>,
) -> (decision: Result<Initialized, Failure>)
    ensures
        initialize_decision(
            decision,
            *ctx,
            accounts@.len(),
            bot_address,
            jupiter_router,
            initial_mints@,
            home,
            authority,
        ),
        decision matches Ok(done) ==> done.vault@.wf(),
{
    let bump: u8 = match ctx.constraints(home, authority) {
        Ok(bump) => bump,
        Err(failure) => {
            return Err(failure);
        },
    };
    let none = Pubkey::default();
    if bot_address == none {
        return Err(Failure::Vault(VaultError::InvalidInput));
    }
    if jupiter_router == none {
        return Err(Failure::Vault(VaultError::InvalidRouter));
    }
    if initial_mints.len() > MAX_ALLOWED_MINTS {
        return Err(Failure::Vault(VaultError::TooManyTokens));
    }
    let mints = normalize(initial_mints);
    let atas = AtaPlan {
        payer: ctx.owner.pubkey,
        vault_authority: ctx.vault_authority,
        system_program: ctx.system_program.key,
        associated_token_program: ctx.associated_token_program.key,
        mints: vstd::slice::slice_to_vec(mints.as_slice()),
    };
    if !atas.check_fit(accounts) {
        return Err(Failure::Vault(VaultError::BadAccount));
    }
    let mut statuses: Vec<TokenStatusUpdated> = Vec::new();
    let mut i: usize = 0;
    while i < mints.len()
        invariant
            i <= mints.len(),
            statuses@ == mints@.take(i as int).map_values(
                |mint: Pubkey| TokenStatusUpdated { mint, allowed: true },
            ),
        decreases mints.len() - i,
    {
        statuses.push(TokenStatusUpdated { mint: mints[i], allowed: true });
        i = i + 1;
    }
    assert(mints@.take(i as int) =~= mints@);
    proof {
        law_normalized_is_distinct(initial_mints@);
    }
    let vault = Vault {
        owner: ctx.owner.pubkey,
        bot_address,
        jupiter_router,
        authority_bump: bump,
        allowed_mints: mints,
    };
    Ok(
        Initialized {
            vault,
            statuses,
            bot: BotAddressUpdated { old_bot: none, new_bot: bot_address },
            router: RouterUpdated { jupiter_router },
            atas,
        },
    )
}

/// The outcome of a request to create a vault: the decision on it, given the addresses
/// that are found for the vault of the owner and for its tokens.
pub open spec fn initialize_outcome(
    decision: Result<Initialized, Failure>,
    ctx: InitializeVault,
    count: nat,
    bot_address: Pubkey,
    jupiter_router: Pubkey,
    initial_mints: Seq<Pubkey>,
) -> bool {
    initialize_decision(
        decision,
        ctx,
        count,
        bot_address,
        jupiter_router,
        initial_mints,
        derived(vault_seed_bytes(ctx.owner.pubkey)),
        derived(authority_seed_bytes(ctx.vault.pubkey)),
    )
}

/// Creates a vault for the owner, who signs. Repeated tokens and the all-zero
/// address are left out of the list.
pub fn initialize_vault(
    ctx: &InitializeVault,
    accounts: &[AccountInfo],
    bot_address: Pubkey,
    jupiter_router: Pubkey,
    initial_mints: &Vec<Pubkey>,
) -> (decision: Result<Initialized, Failure>)
    ensures
        initialize_outcome(
            decision,
            *ctx,
            accounts@.len(),
            bot_address,
            jupiter_router,
            initial_mints@,
        ),
        decision matches Ok(done) ==> done.vault@.wf(),
        decision matches Ok(done) ==> authority_of(ctx.vault.pubkey, done.vault.authority_bump)
            == Some(ctx.vault_authority),
{
    decide_initialize_vault(
        ctx,
        accounts,
        bot_address,
        jupiter_router,
        initial_mints,
        derive_vault(&ctx.owner.pubkey),
        find_authority(&ctx.vault.pubkey),
    )
}

/// The answer to the question for the tokens that the vault trades.
pub open spec fn allowed_tokens_outcome(
    tokens: Result<Vec<Pubkey>, Failure>,
    ctx: ReadVault,
) -> bool {
    match tokens {
        Err(reason) => ctx.constraint_failure() == Some(reason),
        Ok(list) => ctx.constraint_failure() is None && list@ == ctx.vault.data.allowed_mints@,
    }
}

/// The tokens that the vault trades.
pub fn get_allowed_tokens(ctx: &ReadVault) -> (tokens: Result<Vec<Pubkey>, Failure>)
    ensures
        allowed_tokens_outcome(tokens, *ctx),
{
    match ctx.constraints() {
        Ok(_) => Ok(vstd::slice::slice_to_vec(ctx.vault.data.allowed_mints.as_slice())),
        Err(failure) => Err(failure),
    }
}

/// The answer to the question whether the vault trades the token.
pub open spec fn is_allowed_outcome(
    allowed: Result<bool, Failure>,
    ctx: ReadVault,
    mint: Pubkey,
) -> bool {
    match allowed {
        Err(reason) => ctx.constraint_failure() == Some(reason),
        Ok(held) => {
            &&& ctx.constraint_failure() is None
            &&& held == ctx.vault.data.allowed_mints@.contains(mint)
        },
    }
}

/// Whether the vault trades the token.
pub fn is_allowed_token(ctx: &ReadVault, mint: Pubkey) -> (allowed: Result<bool, Failure>)
    ensures
        is_allowed_outcome(allowed, *ctx, mint),
{
    match ctx.constraints() {
        Ok(_) => Ok(contains(&ctx.vault.data.allowed_mints, &mint)),
        Err(failure) => Err(failure),
    }
}

/// The answer to the question how many tokens the vault trades.
pub open spec fn length_outcome(length: Result<u32, Failure>, ctx: ReadVault) -> bool {
    match length {
        Err(reason) => ctx.constraint_failure() == Some(reason),
        Ok(count) => {
            &&& ctx.constraint_failure() is None
            &&& count == ctx.vault.data.allowed_mints@.len() as u32
        },
    }
}

/// How many tokens the vault trades.
pub fn allowed_tokens_length(ctx: &ReadVault) -> (length: Result<u32, Failure>)
    ensures
        length_outcome(length, *ctx),
{
    match ctx.constraints() {
        Ok(_) => Ok(
            #[verifier::truncate]
            (ctx.vault.data.allowed_mints.len() as u32),
        ),
        Err(failure) => Err(failure),
    }
}

/// What is announced and what is asked of the associated token program when a
/// token is put on the list.
#[derive(Clone, Copy, Debug, PartialEq, Eq)]
pub struct TokenAdded {
    pub status: TokenStatusUpdated,
    pub create: CreateAta,
}

/// The token account that has to exist for the vault to trade the token.
pub open spec fn add_plan(ctx: AddToken, mint: Pubkey) -> AtaPlanView {
    AtaPlanView {
        payer: ctx.owner.pubkey,
        vault_authority: ctx.vault_authority,
        system_program: ctx.system_program.key,
        associated_token_program: ctx.associated_token_program.key,
        mints: seq![mint],
    }
}

/// Why the token is not put on the list, where `authority` was derived for the
/// vault's tokens and `expected` for the token account.
pub open spec fn add_failure(
    ctx: AddToken,
    accounts: Seq<AccountInfo>,
    mint: Pubkey,
    authority: Option<Pubkey>,
    expected: Option<Pubkey>,
) -> Option<Failure> {
    if ctx.constraint_failure(authority) is Some {
        ctx.constraint_failure(authority)
    } else if mint == no_key() {
        Some(Failure::Vault(VaultError::InvalidToken))
    } else if ctx.vault.data.allowed_mints@.contains(mint) {
        Some(Failure::Vault(VaultError::TokenAlreadyAllowed))
    } else if ctx.vault.data.allowed_mints@.len() >= MAX_ALLOWED_MINTS {
        Some(Failure::Vault(VaultError::TooManyTokens))
    } else {
        match add_plan(ctx, mint).step(accounts, 0, expected) {
            Err(failure) => Some(failure),
            Ok(_) => None,
        }
    }
}

/// The decision on a request to trade another token, and what it makes of the
/// accounts of the request.
pub open spec fn add_decision(
    decision: Result<TokenAdded, Failure>,
    before: AddToken,
    after: AddToken,
    accounts: Seq<AccountInfo>,
    mint: Pubkey,
    authority: Option<Pubkey>,
    expected: Option<Pubkey>,
) -> bool {
    match decision {
        Err(reason) => {
            &&& add_failure(before, accounts, mint, authority, expected) == Some(reason)
            &&& after == before
        },
        Ok(done) => {
            &&& add_failure(before, accounts, mint, authority, expected) is None
            &&& after.vault.data@ == before.vault.data@.with_token(mint)
            &&& after == (AddToken {
                vault: (Account { data: after.vault.data, ..before.vault }),
                ..before
            })
            &&& done.status == TokenStatusUpdated { mint, allowed: true }
            &&& add_plan(before, mint).step(accounts, 0, expected)
                == Ok::<Option<CreateAta>, Failure>(Some(done.create))
        },
    }
}

/// Decides on a request to trade another token, given the addresses derived for the
/// vault's tokens and for the token account.
pub fn decide_add_token(
    ctx: &mut AddToken,
    accounts: &[AccountInfo],
    mint: Pubkey,
    authority: Option<Pubkey>,
    expected: Option<Pubkey>,
) -> (decision: Result<TokenAdded, Failure>)
    ensures
        add_decision(decision, *old(ctx), *final(ctx), accounts@, mint, authority, expected),
        old(ctx).vault.data@.wf() ==> final(ctx).vault.data@.wf(),
{
    match ctx.constraints(authority) {
        Ok(_) => {},
        Err(failure) => {
            return Err(failure);
        },
    }
    if mint == Pubkey::default() {
        return Err(Failure::Vault(VaultError::InvalidToken));
    }
    if contains(&ctx.vault.data.allowed_mints, &mint) {
        return Err(Failure::Vault(VaultError::TokenAlreadyAllowed));
    }
    if ctx.vault.data.allowed_mints.len() >= MAX_ALLOWED_MINTS {
        return Err(Failure::Vault(VaultError::TooManyTokens));
    }
    let mut mints: Vec<Pubkey> = Vec::new();
    mints.push(mint);
    let plan = AtaPlan {
        payer: ctx.owner.pubkey,
        vault_authority: ctx.vault_authority,
        system_program: ctx.system_program.key,
        associated_token_program: ctx.associated_token_program.key,
        mints,
    };
    assert(plan@ =~= add_plan(*old(ctx), mint));
    match decide_vault_ata_creation(&plan, accounts, 0, expected) {
        Ok(Some(create)) => {
            proof {
                if ctx.vault.data@.wf() {
                    law_with_token_is_wf(ctx.vault.data@, mint);
                }
            }
            ctx.vault.data.allowed_mints.push(mint);
            assert(ctx.vault.data@ =~= old(ctx).vault.data@.with_token(mint));
            Ok(TokenAdded { status: TokenStatusUpdated { mint, allowed: true }, create })
        },
        Ok(None) => {
            // The plan holds one token, so its first step asks for an account.
            assert(false);
            Err(Failure::Vault(VaultError::BadAccount))
        },
        Err(failure) => Err(failure),
    }
}

/// The outcome of a request to trade another token: the decision on it, given the
/// addresses that are derived for the vault's tokens and for the token account.
pub open spec fn add_outcome(
    decision: Result<TokenAdded, Failure>,
    before: AddToken,
    after: AddToken,
    accounts: Seq<AccountInfo>,
    mint: Pubkey,
) -> bool {
    add_decision(
        decision,
        before,
        after,
        accounts,
        mint,
        authority_of(before.vault.key, before.vault.data.authority_bump),
        add_plan(before, mint).expected(accounts, 0),
    )
}

/// Puts a token on the list, for the owner, who signs, and asks for the vault's
/// token account to be created.
pub fn add_token(ctx: &mut AddToken, accounts: &[AccountInfo], mint: Pubkey) -> (decision: Result<
    TokenAdded,
    Failure,
>)
    ensures
        add_outcome(decision, *old(ctx), *final(ctx), accounts@, mint),
        old(ctx).vault.data@.wf() ==> final(ctx).vault.data@.wf(),
{
    let authority = derive_authority(&ctx.vault.key, ctx.vault.data.authority_bump);
    let expected: Option<Pubkey> = if accounts.len() >= 3 {
        associated_token_address_with_program(
            &ctx.vault_authority,
            &mint,
            &accounts[2].key,
            &ctx.associated_token_program.key,
        )
    } else {
        None
    };
    decide_add_token(ctx, accounts, mint, authority, expected)
}

/// What is asked of the token program and what is announced when a token is taken
/// off the list.
#[derive(Clone, Debug, PartialEq, Eq)]
pub struct TokenRemoved {
    pub close: CloseTokenAccount,
    pub closed: TokenAccountClosed,
    pub status: TokenStatusUpdated,
}

/// Why the token is not taken off the list, where `authority` was derived for the
/// vault's tokens and `expected` for the token account.
pub open spec fn remove_failure(
    ctx: RemoveToken,
    mint: Pubkey,
    authority: Option<Pubkey>,
    expected: Option<Pubkey>,
) -> Option<Failure> {
    let token = ctx.vault_token_account;
    if ctx.constraint_failure(authority) is Some {
        ctx.constraint_failure(authority)
    } else if mint == no_key() {
        Some(Failure::Vault(VaultError::InvalidToken))
    } else if !ctx.vault.data.allowed_mints@.contains(mint) {
        Some(Failure::Vault(VaultError::TokenNotAllowed))
    } else if ctx.mint.key != mint || token.data.owner != ctx.vault_authority || token.data.mint
        != mint {
        Some(Failure::Vault(VaultError::BadAccount))
    } else if token.data.amount != 0 {
        Some(Failure::Vault(VaultError::TokenAccountNotEmpty))
    } else if token.program != ctx.token_program.key || ctx.mint.program != ctx.token_program.key {
        Some(Failure::Vault(VaultError::BadAccount))
    } else {
        ata_failure(expected, token.key)
    }
}

/// The decision on a request to stop trading a token, and what it makes of the
/// accounts of the request.
pub open spec fn remove_decision(
    decision: Result<TokenRemoved, Failure>,
    before: RemoveToken,
    after: RemoveToken,
    mint: Pubkey,
    authority: Option<Pubkey>,
    expected: Option<Pubkey>,
) -> bool {
    match decision {
        Err(reason) => {
            &&& remove_failure(before, mint, authority, expected) == Some(reason)
            &&& after == before
        },
        Ok(done) => {
            &&& remove_failure(before, mint, authority, expected) is None
            &&& after.vault.data@ == before.vault.data@.without_token(mint)
            &&& after == (RemoveToken {
                vault: (Account { data: after.vault.data, ..before.vault }),
                ..before
            })
            &&& done.close.token_program == before.token_program.key
            &&& done.close.account == before.vault_token_account.key
            &&& done.close.destination == before.owner.pubkey
            &&& done.close.authority == before.vault_authority
            &&& seed_bytes(done.close.signer_seeds@) == signer_seed_bytes(
                before.vault.key,
                before.vault.data.authority_bump,
            )
            &&& done.closed == TokenAccountClosed {
                token_account: before.vault_token_account.key,
                mint,
                to: before.vault.data.owner,
            }
            &&& done.status == TokenStatusUpdated { mint, allowed: false }
        },
    }
}

/// Decides on a request to stop trading a token, given the addresses derived for
/// the vault's tokens and for the token account.
pub fn decide_remove_token(
    ctx: &mut RemoveToken,
    mint: Pubkey,
    authority: Option<Pubkey>,
    expected: Option<Pubkey>,
) -> (decision: Result<TokenRemoved, Failure>)
    ensures
        remove_decision(decision, *old(ctx), *final(ctx), mint, authority, expected),
        old(ctx).vault.data@.wf() ==> final(ctx).vault.data@.wf(),
{
    match ctx.constraints(authority) {
        Ok(_) => {},
        Err(failure) => {
            return Err(failure);
        },
    }
    if mint == Pubkey::default() {
        return Err(Failure::Vault(VaultError::InvalidToken));
    }
    let place: usize = match position(&ctx.vault.data.allowed_mints, &mint) {
        Some(place) => place,
        None => {
            return Err(Failure::Vault(VaultError::TokenNotAllowed));
        },
    };
    if ctx.mint.key != mint {
        return Err(Failure::Vault(VaultError::BadAccount));
    }
    if ctx.vault_token_account.data.owner != ctx.vault_authority {
        return Err(Failure::Vault(VaultError::BadAccount));
    }
    if ctx.vault_token_account.data.mint != mint {
        return Err(Failure::Vault(VaultError::BadAccount));
    }
    if ctx.vault_token_account.data.amount != 0 {
        return Err(Failure::Vault(VaultError::TokenAccountNotEmpty));
    }
    if ctx.vault_token_account.program != ctx.token_program.key {
        return Err(Failure::Vault(VaultError::BadAccount));
    }
    if ctx.mint.program != ctx.token_program.key {
        return Err(Failure::Vault(VaultError::BadAccount));
    }
    match decide_vault_ata(expected, &ctx.vault_token_account.key) {
        Ok(_) => {},
        Err(failure) => {
            return Err(failure);
        },
    }
    let close = CloseTokenAccount {
        token_program: ctx.token_program.key,
        account: ctx.vault_token_account.key,
        destination: ctx.owner.pubkey,
        authority: ctx.vault_authority,
        signer_seeds: signer_seeds(&ctx.vault.key, ctx.vault.data.authority_bump),
    };
    let closed = TokenAccountClosed {
        token_account: ctx.vault_token_account.key,
        mint,
        to: ctx.vault.data.owner,
    };
    proof {
        if ctx.vault.data@.wf() {
            law_without_token_is_wf(ctx.vault.data@, mint);
        }
    }
    ctx.vault.data.allowed_mints.swap_remove(place);
    assert(ctx.vault.data@ =~= old(ctx).vault.data@.without_token(mint));
    Ok(TokenRemoved { close, closed, status: TokenStatusUpdated { mint, allowed: false } })
}

/// The outcome of a request to stop trading a token: the decision on it, given the
/// addresses that are derived for the vault's tokens and for the token account.
pub open spec fn remove_outcome(
    decision: Result<TokenRemoved, Failure>,
    before: RemoveToken,
    after: RemoveToken,
    mint: Pubkey,
) -> bool {
    remove_decision(
        decision,
        before,
        after,
        mint,
        authority_of(before.vault.key, before.vault.data.authority_bump),
        vault_ata(before.vault_authority, mint, before.token_program.key),
    )
}

/// Takes a token off the list, for the owner, who signs, and asks for the vault's
/// empty token account to be closed.
pub fn remove_token(ctx: &mut RemoveToken, mint: Pubkey) -> (decision: Result<
    TokenRemoved,
    Failure,
>)
    ensures
        remove_outcome(decision, *old(ctx), *final(ctx), mint),
        old(ctx).vault.data@.wf() ==> final(ctx).vault.data@.wf(),
{
    let authority = derive_authority(&ctx.vault.key, ctx.vault.data.authority_bump);
    let expected = vault_ata_address(&ctx.vault_authority, &mint, &ctx.token_program.key);
    decide_remove_token(ctx, mint, authority, expected)
}

/// Why no other bot is named.
pub open spec fn set_bot_failure(ctx: OwnerOnly, new_bot: Pubkey) -> Option<Failure> {
    if ctx.constraint_failure() is Some {
        ctx.constraint_failure()
    } else if new_bot == no_key() {
        Some(Failure::Vault(VaultError::InvalidInput))
    } else {
        None
    }
}

/// The decision on a request to name another bot, and what it makes of the
/// accounts of the request.
pub open spec fn set_bot_decision(
    decision: Result<BotAddressUpdated, Failure>,
    before: OwnerOnly,
    after: OwnerOnly,
    new_bot: Pubkey,
) -> bool {
    match decision {
        Err(reason) => set_bot_failure(before, new_bot) == Some(reason) && after == before,
        Ok(event) => {
            &&& set_bot_failure(before, new_bot) is None
            &&& after.vault.data@ == before.vault.data@.with_bot(new_bot)
            &&& after == (OwnerOnly {
                vault: (Account { data: after.vault.data, ..before.vault }),
                ..before
            })
            &&& event == BotAddressUpdated { old_bot: before.vault.data.bot_address, new_bot }
        },
    }
}

/// Names another bot, for the owner, who signs.
pub fn set_bot_address(ctx: &mut OwnerOnly, new_bot: Pubkey) -> (decision: Result<
    BotAddressUpdated,
    Failure,
>)
    ensures
        set_bot_decision(decision, *old(ctx), *final(ctx), new_bot),
        old(ctx).vault.data@.wf() ==> final(ctx).vault.data@.wf(),
{
    match ctx.constraints() {
        Ok(_) => {},
        Err(failure) => {
            return Err(failure);
        },
    }
    if new_bot == Pubkey::default() {
        return Err(Failure::Vault(VaultError::InvalidInput));
    }
    let old_bot = ctx.vault.data.bot_address;
    ctx.vault.data.bot_address = new_bot;
    Ok(BotAddressUpdated { old_bot, new_bot })
}

/// Why no other router is named.
pub open spec fn set_router_failure(ctx: OwnerOnly, new_jupiter_router: Pubkey) -> Option<Failure> {
    if ctx.constraint_failure() is Some {
        ctx.constraint_failure()
    } else if new_jupiter_router == no_key() {
        Some(Failure::Vault(VaultError::InvalidRouter))
    } else {
        None
    }
}

/// The decision on a request to name another router, and what it makes of the
/// accounts of the request.
pub open spec fn set_router_decision(
    decision: Result<RouterUpdated, Failure>,
    before: OwnerOnly,
    after: OwnerOnly,
    new_jupiter_router: Pubkey,
) -> bool {
    match decision {
        Err(reason) => set_router_failure(before, new_jupiter_router) == Some(reason) && after == before,
        Ok(event) => {
            &&& set_router_failure(before, new_jupiter_router) is None
            &&& after.vault.data@ == before.vault.data@.with_router(new_jupiter_router)
            &&& after == (OwnerOnly {
                vault: (Account { data: after.vault.data, ..before.vault }),
                ..before
            })
            &&& event == RouterUpdated { jupiter_router: new_jupiter_router }
        },
    }
}

/// Names another router, for the owner, who signs.
pub fn update_routers(ctx: &mut OwnerOnly, new_jupiter_router: Pubkey) -> (decision: Result<
    RouterUpdated,
    Failure,
>)
    ensures
        set_router_decision(decision, *old(ctx), *final(ctx), new_jupiter_router),
        old(ctx).vault.data@.wf() ==> final(ctx).vault.data@.wf(),
{
    match ctx.constraints() {
        Ok(_) => {},
        Err(failure) => {
            return Err(failure);
        },
    }
    if new_jupiter_router == Pubkey::default() {
        return Err(Failure::Vault(VaultError::InvalidRouter));
    }
    ctx.vault.data.jupiter_router = new_jupiter_router;
    Ok(RouterUpdated { jupiter_router: new_jupiter_router })
}

/// The closing of a vault: all its lamports go to `destination`, and its account
/// is given back to the system program, empty.
#[derive(Clone, Copy, Debug, PartialEq, Eq)]
pub struct VaultClosed {
    pub vault: Pubkey,
    pub destination: Pubkey,
}

/// Why the vault is not closed.
pub open spec fn close_vault_failure(ctx: CloseVaultAccount) -> Option<Failure> {
    if ctx.constraint_failure() is Some {
        ctx.constraint_failure()
    } else if ctx.owner.pubkey != ctx.vault.data.owner {
        Some(Failure::Vault(VaultError::Unauthorized))
    } else if ctx.vault.data.allowed_mints@.len() != 0 {
        Some(Failure::Vault(VaultError::VaultNotReadyToClose))
    } else {
        None
    }
}

/// The decision on a request to close a vault.
pub open spec fn close_vault_decision(
    decision: Result<VaultClosed, Failure>,
    ctx: CloseVaultAccount,
) -> bool {
    match decision {
        Err(reason) => close_vault_failure(ctx) == Some(reason),
        Ok(closed) => {
            &&& close_vault_failure(ctx) is None
            &&& closed == VaultClosed { vault: ctx.vault.key, destination: ctx.owner.pubkey }
        },
    }
}

/// Closes a vault that trades no token, for the owner, who signs.
pub fn close_vault_account(ctx: &CloseVaultAccount) -> (decision: Result<VaultClosed, Failure>)
    ensures
        close_vault_decision(decision, *ctx),
{
    match ctx.constraints() {
        Ok(_) => {},
        Err(failure) => {
            return Err(failure);
        },
    }
    if ctx.owner.pubkey != ctx.vault.data.owner {
        return Err(Failure::Vault(VaultError::Unauthorized));
    }
    if ctx.vault.data.allowed_mints.len() != 0 {
        return Err(Failure::Vault(VaultError::VaultNotReadyToClose));
    }
    Ok(VaultClosed { vault: ctx.vault.key, destination: ctx.owner.pubkey })
}

}
