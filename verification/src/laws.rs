//! What holds of the vault program as a whole.
use vstd::prelude::*;

use crate::account::{
    decoded_token_account, mint_in, owner_refusal, token_account_in, token_account_of, Account,
    AccountInfo, Mint, TokenAccount, ACCOUNT_NOT_INITIALIZED, ACCOUNT_OWNED_BY_WRONG_PROGRAM,
};
use crate::associated::{
    associated_address, is_token_program, vault_ata, AtaPlanView, CreateAta,
};
use crate::closing::{
    after_closing, close_accounts_failure, close_facts, close_step_decision, CloseFacts, CloseStep,
};
use crate::context::{
    authority_of, AddToken, CloseEmptyTokenAccounts, CloseVaultAccount, InitializeVault, OwnerOnly,
    RemoveToken, Trade, WithdrawAll, WithdrawNative, WithdrawToken,
};
use crate::cpi::TransferTokens;
use crate::error::{ConstraintError, Failure, VaultError};
use crate::event::{BotAddressUpdated, RouterUpdated};
use crate::management::{
    add_decision, add_failure, add_plan, close_vault_failure, initialize_decision, remove_decision,
    remove_failure, set_bot_decision, set_bot_failure, set_router_decision, set_router_failure,
    Initialized, TokenAdded, TokenRemoved,
};
use crate::pubkey::{
    created_address, key, no_key, seed_bytes, Pubkey, PROGRAM_ID, TOKEN_2022_PROGRAM,
    TOKEN_PROGRAM, ZEROS,
};
use crate::trading::{
    exposed_token, exposed_tokens, exposes_vault, settlement, trade_decision, trade_failure,
    trade_metas, TradeOrder, TradePlan,
};
use crate::vault::{
    first_at, is_first_at, normalized, without, Vault, VaultView, MAX_ALLOWED_MINTS,
};
use crate::withdrawal::{
    is_withdrawable, lamport_payout, native_payout, withdraw_all_failure, withdraw_facts,
    withdraw_native_failure, withdraw_step_decision, withdraw_token_decision,
    withdraw_token_failure, Payout, WithdrawFacts, WithdrawStep,
};

verus! {

// The list of tokens.

/// Normalizing keeps exactly the proposed tokens, less the all-zero address.
pub proof fn law_normalized_keeps_tokens(proposed: Seq<Pubkey>, mint: Pubkey)
    ensures
        normalized(proposed).contains(mint) <==> proposed.contains(mint) && mint != no_key(),
    decreases proposed.len(),
{
    if proposed.len() > 0 {
        let rest = proposed.drop_last();
        let before = normalized(rest);
        law_normalized_keeps_tokens(rest, mint);
        assert(proposed.contains(mint) <==> rest.contains(mint) || mint == proposed.last()) by {
            if proposed.contains(mint) {
                let i = choose|i: int| 0 <= i < proposed.len() && proposed[i] == mint;
                if i < rest.len() {
                    assert(rest[i] == mint);
                }
            }
            if rest.contains(mint) {
                let i = choose|i: int| 0 <= i < rest.len() && rest[i] == mint;
                assert(proposed[i] == mint);
            }
            assert(proposed[proposed.len() - 1] == proposed.last());
        }
        let pushed = before.push(proposed.last());
        assert(pushed.contains(mint) <==> before.contains(mint) || mint == proposed.last()) by {
            if before.contains(mint) {
                let i = choose|i: int| 0 <= i < before.len() && before[i] == mint;
                assert(pushed[i] == mint);
            }
            assert(pushed[before.len() as int] == proposed.last());
        }
    }
}

/// A normalized list holds no token twice, and is no longer than the proposal.
pub proof fn law_normalized_is_distinct(proposed: Seq<Pubkey>)
    ensures
        normalized(proposed).no_duplicates(),
        !normalized(proposed).contains(no_key()),
        normalized(proposed).len() <= proposed.len(),
    decreases proposed.len(),
{
    law_normalized_keeps_tokens(proposed, no_key());
    if proposed.len() > 0 {
        law_normalized_is_distinct(proposed.drop_last());
    }
}

/// A list that holds no token twice, nor the all-zero address, is left as it is.
pub proof fn law_normalized_fixes_lists(list: Seq<Pubkey>)
    requires
        list.no_duplicates(),
        !list.contains(no_key()),
    ensures
        normalized(list) == list,
    decreases list.len(),
{
    if list.len() > 0 {
        let rest = list.drop_last();
        assert forall|m: Pubkey| rest.contains(m) implies list.contains(m) by {
            let i = choose|i: int| 0 <= i < rest.len() && rest[i] == m;
            assert(list[i] == m);
        }
        assert(rest.no_duplicates());
        law_normalized_fixes_lists(rest);
        assert(list[list.len() - 1] == list.last());
        assert(list.contains(list.last()));
        assert(!rest.contains(list.last()));
        assert(rest.push(list.last()) =~= list);
    } else {
        assert(normalized(list) =~= list);
    }
}

/// Normalizing twice is normalizing once.
pub proof fn law_normalized_is_idempotent(proposed: Seq<Pubkey>)
    ensures
        normalized(normalized(proposed)) == normalized(proposed),
{
    law_normalized_is_distinct(proposed);
    law_normalized_fixes_lists(normalized(proposed));
}

/// Tokens stand in a normalized list in the order in which they were first
/// proposed.
pub proof fn law_normalized_keeps_order(proposed: Seq<Pubkey>, i: int, j: int)
    requires
        0 <= i < j < normalized(proposed).len(),
    ensures
        first_at(proposed, normalized(proposed)[i]) < first_at(proposed, normalized(proposed)[j]),
    decreases proposed.len(),
{
    let list = normalized(proposed);
    let rest = proposed.drop_last();
    let before = normalized(rest);
    let last = proposed.last();
    assert(list[i] == before[i]);
    assert(before.contains(before[i]));
    law_normalized_keeps_tokens(rest, before[i]);
    lemma_first_in_prefix(proposed, before[i]);
    if j < before.len() {
        assert(list[j] == before[j]);
        law_normalized_keeps_order(rest, i, j);
        assert(before.contains(before[j]));
        law_normalized_keeps_tokens(rest, before[j]);
        lemma_first_in_prefix(proposed, before[j]);
    } else {
        assert(list[j] == last);
        law_normalized_keeps_tokens(rest, last);
        assert(proposed[proposed.len() - 1] == last);
        let place = lemma_first_exists(proposed, last);
        if place < rest.len() {
            assert(rest[place] == last);
        }
    }
}

/// A token on a list has a first place there.
proof fn lemma_first_exists(mints: Seq<Pubkey>, mint: Pubkey) -> (place: int)
    requires
        mints.contains(mint),
    ensures
        is_first_at(mints, mint, place),
        place == first_at(mints, mint),
    decreases mints.len(),
{
    let rest = mints.drop_last();
    if rest.contains(mint) {
        let place = lemma_first_exists(rest, mint);
        assert forall|k: int| 0 <= k < place implies mints[k] != mint by {
            assert(rest[k] != mint);
        }
        assert(mints[place] == rest[place]);
        assert(is_first_at(mints, mint, place));
    } else {
        assert forall|k: int| 0 <= k < mints.len() - 1 implies mints[k] != mint by {
            assert(rest[k] == mints[k]);
        }
        assert(is_first_at(mints, mint, mints.len() - 1));
    }
    first_at(mints, mint)
}

/// A token that stands before the last place of a list has its first place there.
proof fn lemma_first_in_prefix(mints: Seq<Pubkey>, mint: Pubkey)
    requires
        mints.len() > 0,
        mints.drop_last().contains(mint),
    ensures
        first_at(mints, mint) == first_at(mints.drop_last(), mint),
        first_at(mints, mint) < mints.len() - 1,
{
    let rest = mints.drop_last();
    let place = lemma_first_exists(rest, mint);
    assert(mints[place] == rest[place]);
    assert(mints.contains(mint));
    let other = lemma_first_exists(mints, mint);
    if other < place {
        assert(rest[other] == mints[other]);
    }
}

/// Taking a token off a list that holds no token twice leaves the other tokens, and
/// only those.
pub proof fn law_removal_removes_one(mints: Seq<Pubkey>, mint: Pubkey)
    requires
        mints.no_duplicates(),
        mints.contains(mint),
    ensures
        without(mints, mint).no_duplicates(),
        without(mints, mint).len() == mints.len() - 1,
        forall|other: Pubkey| #[trigger]
            without(mints, mint).contains(other) <==> mints.contains(other) && other != mint,
{
    let place = lemma_first_exists(mints, mint);
    let left = without(mints, mint);
    let last = mints.len() - 1;
    assert forall|i: int| 0 <= i < left.len() implies left[i] == mints[if i == place {
        last
    } else {
        i
    }] by {}
    assert forall|other: Pubkey| #[trigger] left.contains(other) implies mints.contains(other)
        && other != mint by {
        let i = choose|i: int| 0 <= i < left.len() && left[i] == other;
        let at: int = if i == place {
            last
        } else {
            i
        };
        assert(mints[at] == other);
        assert(mints[at] != mints[place]);
    }
    assert forall|other: Pubkey| mints.contains(other) && other != mint implies #[trigger] left.contains(
        other,
    ) by {
        let i = choose|i: int| 0 <= i < mints.len() && mints[i] == other;
        if i == last {
            assert(left[place] == other);
        } else {
            assert(left[i] == other);
        }
    }
}

/// A token that is put on the list and then taken off leaves the vault as it was.
pub proof fn law_add_then_remove(vault: VaultView, mint: Pubkey)
    requires
        !vault.allowed_mints.contains(mint),
    ensures
        vault.with_token(mint).without_token(mint) == vault,
{
    let list = vault.allowed_mints.push(mint);
    let last = vault.allowed_mints.len() as int;
    assert(list[last] == mint);
    let place = lemma_first_exists(list, mint);
    if place < last {
        assert(vault.allowed_mints[place] == mint);
    }
    assert(without(list, mint) =~= vault.allowed_mints);
    assert(vault.with_token(mint).without_token(mint) =~= vault);
}

/// A token that is taken off the list and put back leaves the vault trading the
/// same tokens.
pub proof fn law_remove_then_add(vault: VaultView, mint: Pubkey, other: Pubkey)
    requires
        vault.wf(),
        vault.allowed_mints.contains(mint),
    ensures
        vault.without_token(mint).with_token(mint).allowed_mints.contains(other)
            <==> vault.allowed_mints.contains(other),
{
    law_removal_removes_one(vault.allowed_mints, mint);
    lemma_push_contains(vault.without_token(mint).allowed_mints, mint, other);
}

/// What a list holds after a token was put at its end.
proof fn lemma_push_contains(mints: Seq<Pubkey>, mint: Pubkey, other: Pubkey)
    ensures
        mints.push(mint).contains(other) <==> mints.contains(other) || other == mint,
{
    let longer = mints.push(mint);
    if mints.contains(other) {
        let i = choose|i: int| 0 <= i < mints.len() && mints[i] == other;
        assert(longer[i] == other);
    }
    assert(longer[mints.len() as int] == mint);
}

// What holds of every vault.

/// A vault stays well-formed when a token is put on its list that is new, not
/// all-zero, and finds room.
pub proof fn law_with_token_is_wf(vault: VaultView, mint: Pubkey)
    requires
        vault.wf(),
        mint != no_key(),
        !vault.allowed_mints.contains(mint),
        vault.allowed_mints.len() < MAX_ALLOWED_MINTS,
    ensures
        vault.with_token(mint).wf(),
        vault.with_token(mint).allowed_mints.contains(mint),
{
    lemma_push_contains(vault.allowed_mints, mint, no_key());
    lemma_push_contains(vault.allowed_mints, mint, mint);
}

/// A vault stays well-formed when a token is taken off its list, and then no longer
/// trades it.
pub proof fn law_without_token_is_wf(vault: VaultView, mint: Pubkey)
    requires
        vault.wf(),
        vault.allowed_mints.contains(mint),
    ensures
        vault.without_token(mint).wf(),
        !vault.without_token(mint).allowed_mints.contains(mint),
{
    law_removal_removes_one(vault.allowed_mints, mint);
}

/// A vault is well-formed from its creation on.
pub proof fn law_created_vault_is_wf(
    done: Initialized,
    ctx: InitializeVault,
    count: nat,
    bot_address: Pubkey,
    jupiter_router: Pubkey,
    initial_mints: Seq<Pubkey>,
    home: Option<(Pubkey, u8)>,
    authority: Option<(Pubkey, u8)>,
)
    requires
        initialize_decision(
            Ok(done),
            ctx,
            count,
            bot_address,
            jupiter_router,
            initial_mints,
            home,
            authority,
        ),
    ensures
        done.vault@.wf(),
{
    law_normalized_is_distinct(initial_mints);
}

/// What a request can change about a vault.
pub enum Change {
    AddToken(Pubkey),
    RemoveToken(Pubkey),
    SetBot(Pubkey),
    SetRouter(Pubkey),
    CloseAccount(Pubkey),
}

impl Change {
    /// The request is not refused on account of the vault's state.
    pub open spec fn permitted(self, vault: VaultView) -> bool {
        match self {
            Change::AddToken(mint) => {
                &&& mint != no_key()
                &&& !vault.allowed_mints.contains(mint)
                &&& vault.allowed_mints.len() < MAX_ALLOWED_MINTS
            },
            Change::RemoveToken(mint) => mint != no_key() && vault.allowed_mints.contains(mint),
            Change::SetBot(bot) => bot != no_key(),
            Change::SetRouter(router) => router != no_key(),
            Change::CloseAccount(_) => true,
        }
    }

    /// The vault after the request.
    pub open spec fn applied(self, vault: VaultView) -> VaultView {
        match self {
            Change::AddToken(mint) => vault.with_token(mint),
            Change::RemoveToken(mint) => vault.without_token(mint),
            Change::SetBot(bot) => vault.with_bot(bot),
            Change::SetRouter(router) => vault.with_router(router),
            Change::CloseAccount(mint) => after_closing(vault, mint),
        }
    }
}

/// The vault after a history of requests, each of which was carried out.
pub open spec fn after_history(vault: VaultView, history: Seq<Change>) -> VaultView
    decreases history.len(),
{
    if history.len() == 0 {
        vault
    } else {
        history.last().applied(after_history(vault, history.drop_last()))
    }
}

/// Each request of the history could be carried out when it came.
pub open spec fn is_history(vault: VaultView, history: Seq<Change>) -> bool
    decreases history.len(),
{
    history.len() == 0 || {
        &&& is_history(vault, history.drop_last())
        &&& history.last().permitted(after_history(vault, history.drop_last()))
    }
}

/// Whatever requests are carried out, the vault stays well-formed, belongs to its
/// creator, and keeps its tokens at one address.
pub proof fn law_every_vault_is_wf(vault: VaultView, history: Seq<Change>)
    requires
        vault.wf(),
        is_history(vault, history),
    ensures
        after_history(vault, history).wf(),
        after_history(vault, history).owner == vault.owner,
        after_history(vault, history).authority_bump == vault.authority_bump,
    decreases history.len(),
{
    if history.len() > 0 {
        let before = after_history(vault, history.drop_last());
        law_every_vault_is_wf(vault, history.drop_last());
        match history.last() {
            Change::AddToken(mint) => {
                law_with_token_is_wf(before, mint);
            },
            Change::RemoveToken(mint) => {
                law_without_token_is_wf(before, mint);
            },
            Change::SetBot(_) => {},
            Change::SetRouter(_) => {},
            Change::CloseAccount(mint) => {
                law_closing_unlists_the_token(before, mint, mint);
            },
        }
    }
}

/// A request to trade another token that is carried out is a permitted change.
pub proof fn law_adding_is_a_change(
    done: TokenAdded,
    before: AddToken,
    after: AddToken,
    accounts: Seq<AccountInfo>,
    mint: Pubkey,
    authority: Option<Pubkey>,
    expected: Option<Pubkey>,
)
    requires
        add_decision(Ok(done), before, after, accounts, mint, authority, expected),
    ensures
        Change::AddToken(mint).permitted(before.vault.data@),
        after.vault.data@ == Change::AddToken(mint).applied(before.vault.data@),
{
}

/// A request to stop trading a token that is carried out is a permitted change.
pub proof fn law_removing_is_a_change(
    done: TokenRemoved,
    before: RemoveToken,
    after: RemoveToken,
    mint: Pubkey,
    authority: Option<Pubkey>,
    expected: Option<Pubkey>,
)
    requires
        remove_decision(Ok(done), before, after, mint, authority, expected),
    ensures
        Change::RemoveToken(mint).permitted(before.vault.data@),
        after.vault.data@ == Change::RemoveToken(mint).applied(before.vault.data@),
{
}

/// A request to name another bot that is carried out is a permitted change.
pub proof fn law_naming_a_bot_is_a_change(
    event: BotAddressUpdated,
    before: OwnerOnly,
    after: OwnerOnly,
    new_bot: Pubkey,
)
    requires
        set_bot_decision(Ok(event), before, after, new_bot),
    ensures
        Change::SetBot(new_bot).permitted(before.vault.data@),
        after.vault.data@ == Change::SetBot(new_bot).applied(before.vault.data@),
{
}

/// A request to name another router that is carried out is a permitted change.
pub proof fn law_naming_a_router_is_a_change(
    event: RouterUpdated,
    before: OwnerOnly,
    after: OwnerOnly,
    new_jupiter_router: Pubkey,
)
    requires
        set_router_decision(Ok(event), before, after, new_jupiter_router),
    ensures
        Change::SetRouter(new_jupiter_router).permitted(before.vault.data@),
        after.vault.data@ == Change::SetRouter(new_jupiter_router).applied(before.vault.data@),
{
}

/// A step of closing token accounts that is carried out is a permitted change.
pub proof fn law_closing_is_a_change(
    step: CloseStep,
    before: CloseEmptyTokenAccounts,
    after: CloseEmptyTokenAccounts,
    accounts: Seq<AccountInfo>,
    cursor: int,
    facts: CloseFacts,
)
    requires
        close_step_decision(Ok(Some(step)), before, after, accounts, cursor, facts),
    ensures
        Change::CloseAccount(step.closed.mint).permitted(before.vault.data@),
        after.vault.data@ == Change::CloseAccount(step.closed.mint).applied(before.vault.data@),
{
}

/// The number of bytes that a vault takes up: a tag, three addresses, the bump, and
/// the list behind its length.
pub open spec fn stored_size(vault: VaultView) -> nat {
    8 + 3 * 32 + 1 + 4 + 32 * vault.allowed_mints.len()
}

/// Every vault fits into its account.
pub proof fn law_vault_fits_its_account(vault: VaultView)
    requires
        vault.wf(),
    ensures
        stored_size(vault) <= Vault::SPACE,
{
}

/// The number of tokens that a vault trades is reported as it is.
pub proof fn law_length_is_exact(vault: VaultView)
    requires
        vault.wf(),
    ensures
        vault.allowed_mints.len() as u32 == vault.allowed_mints.len(),
{
}

// Who may do what.

/// Only the owner, who signs, puts tokens on the list.
pub proof fn law_only_owner_adds(
    ctx: AddToken,
    accounts: Seq<AccountInfo>,
    mint: Pubkey,
    authority: Option<Pubkey>,
    expected: Option<Pubkey>,
)
    requires
        add_failure(ctx, accounts, mint, authority, expected) is None,
    ensures
        ctx.owner.is_signer,
        ctx.owner.pubkey == ctx.vault.data.owner,
{
}

/// Only the owner, who signs, takes tokens off the list.
pub proof fn law_only_owner_removes(
    ctx: RemoveToken,
    mint: Pubkey,
    authority: Option<Pubkey>,
    expected: Option<Pubkey>,
)
    requires
        remove_failure(ctx, mint, authority, expected) is None,
    ensures
        ctx.owner.is_signer,
        ctx.owner.pubkey == ctx.vault.data.owner,
{
}

/// Only the owner, who signs, names the bot and the router.
pub proof fn law_only_owner_configures(ctx: OwnerOnly, named: Pubkey)
    requires
        set_bot_failure(ctx, named) is None || set_router_failure(ctx, named) is None,
    ensures
        ctx.owner.is_signer,
        ctx.owner.pubkey == ctx.vault.data.owner,
{
}

/// Only the owner, who signs, pays tokens to others.
pub proof fn law_only_owner_withdraws_tokens(
    ctx: WithdrawToken,
    amount: u64,
    authority: Option<Pubkey>,
    expected: Option<Pubkey>,
)
    requires
        withdraw_token_failure(ctx, amount, authority, expected) is None,
    ensures
        ctx.owner.is_signer,
        ctx.owner.pubkey == ctx.vault.data.owner,
{
}

/// Only the owner, who signs, pays lamports to others.
pub proof fn law_only_owner_withdraws_lamports(
    ctx: WithdrawNative,
    vault_lamports: u64,
    rent_min: u64,
    amount: u64,
)
    requires
        withdraw_native_failure(ctx, vault_lamports, rent_min, amount) is None,
    ensures
        ctx.owner.is_signer,
        ctx.owner.pubkey == ctx.vault.data.owner,
{
}

/// Only the owner, who signs, closes token accounts.
pub proof fn law_only_owner_closes_accounts(
    ctx: CloseEmptyTokenAccounts,
    count: nat,
    authority: Option<Pubkey>,
)
    requires
        close_accounts_failure(ctx, count, authority) is None,
    ensures
        ctx.owner.is_signer,
        ctx.owner.pubkey == ctx.vault.data.owner,
{
}

/// Only the owner, who signs, closes the vault, and only when it trades no token.
pub proof fn law_only_owner_closes_empty_vault(ctx: CloseVaultAccount)
    requires
        close_vault_failure(ctx) is None,
    ensures
        ctx.owner.is_signer,
        ctx.owner.pubkey == ctx.vault.data.owner,
        ctx.vault.data.allowed_mints@.len() == 0,
{
}

/// Only the owner and the bot, one of whom signs, trade.
pub proof fn law_only_owner_and_bot_trade(
    ctx: Trade,
    remaining: Seq<AccountInfo>,
    order: TradeOrder,
    authority: Option<Pubkey>,
    ata_in: Option<Pubkey>,
    ata_out: Option<Pubkey>,
    tokens: Seq<Option<TokenAccount>>,
)
    requires
        trade_failure(ctx, remaining, order, authority, ata_in, ata_out, tokens) is None,
    ensures
        ctx.caller.is_signer,
        ctx.caller.pubkey == ctx.vault.data.owner || ctx.caller.pubkey
            == ctx.vault.data.bot_address,
{
}

/// Only the owner and the bot, one of whom signs, have everything paid out, and the
/// lamports go to the owner.
pub proof fn law_only_owner_and_bot_withdraw_all(
    ctx: WithdrawAll,
    count: nat,
    authority: Option<Pubkey>,
)
    requires
        withdraw_all_failure(ctx, count, authority) is None,
    ensures
        ctx.caller.is_signer,
        ctx.caller.pubkey == ctx.vault.data.owner || ctx.caller.pubkey
            == ctx.vault.data.bot_address,
        ctx.owner.pubkey == ctx.vault.data.owner,
{
}

// The address that holds the tokens.

/// The request comes with the vault's address, the bump that was stored at its
/// creation, and the address that was found for its tokens.
pub open spec fn comes_from_creation(
    vault: Pubkey,
    bump: u8,
    created: Pubkey,
    later: Account<Vault>,
    vault_authority: Pubkey,
) -> bool {
    &&& later.key == vault
    &&& later.data.authority_bump == bump
    &&& vault_authority == created
}

/// The address that was found for a vault's tokens at its creation is the one that
/// every later request is held to: a request that comes with it is never refused for
/// the address of the tokens.
pub proof fn law_created_authority_is_accepted(
    vault: Pubkey,
    bump: u8,
    created: Pubkey,
    add: AddToken,
    remove: RemoveToken,
    trade: Trade,
    withdraw_all: WithdrawAll,
    withdraw_token: WithdrawToken,
    close: CloseEmptyTokenAccounts,
)
    requires
        authority_of(vault, bump) == Some(created),
    ensures
        comes_from_creation(vault, bump, created, add.vault, add.vault_authority)
            ==> add.constraint_failure(authority_of(vault, bump)) != Some(
            Failure::Constraint(ConstraintError::ConstraintSeeds),
        ),
        comes_from_creation(vault, bump, created, remove.vault, remove.vault_authority)
            ==> remove.constraint_failure(authority_of(vault, bump)) != Some(
            Failure::Constraint(ConstraintError::ConstraintSeeds),
        ),
        comes_from_creation(vault, bump, created, trade.vault, trade.vault_authority)
            ==> trade.constraint_failure(authority_of(vault, bump)) != Some(
            Failure::Constraint(ConstraintError::ConstraintSeeds),
        ),
        comes_from_creation(
            vault,
            bump,
            created,
            withdraw_all.vault,
            withdraw_all.vault_authority,
        ) ==> withdraw_all.constraint_failure(authority_of(vault, bump)) != Some(
            Failure::Constraint(ConstraintError::ConstraintSeeds),
        ),
        comes_from_creation(
            vault,
            bump,
            created,
            withdraw_token.vault,
            withdraw_token.vault_authority,
        ) ==> withdraw_token.constraint_failure(authority_of(vault, bump)) != Some(
            Failure::Constraint(ConstraintError::ConstraintSeeds),
        ),
        comes_from_creation(vault, bump, created, close.vault, close.vault_authority)
            ==> close.constraint_failure(authority_of(vault, bump)) != Some(
            Failure::Constraint(ConstraintError::ConstraintSeeds),
        ),
{
}

/// The address for which the vault program signs with the seeds is `authority`.
pub open spec fn signs_for(seeds: Seq<Seq<u8>>, authority: Pubkey) -> bool {
    match created_address(seeds, PROGRAM_ID@) {
        Some(address) => key(address) == authority,
        None => false,
    }
}

/// In a trade the vault program signs for the address that holds the vault's tokens.
pub proof fn law_trade_signs_for_authority(
    plan: TradePlan,
    ctx: Trade,
    remaining: Seq<AccountInfo>,
    order: TradeOrder,
    ata_in: Option<Pubkey>,
    ata_out: Option<Pubkey>,
    tokens: Seq<Option<TokenAccount>>,
)
    requires
        trade_decision(
            Ok(plan),
            ctx,
            remaining,
            order,
            authority_of(ctx.vault.key, ctx.vault.data.authority_bump),
            ata_in,
            ata_out,
            tokens,
        ),
    ensures
        signs_for(seed_bytes(plan.signer_seeds@), ctx.vault_authority),
{
}

/// When a token is taken off the list, the vault program signs for the address that
/// holds the vault's tokens.
pub proof fn law_removal_signs_for_authority(
    done: TokenRemoved,
    before: RemoveToken,
    after: RemoveToken,
    mint: Pubkey,
    expected: Option<Pubkey>,
)
    requires
        remove_decision(
            Ok(done),
            before,
            after,
            mint,
            authority_of(before.vault.key, before.vault.data.authority_bump),
            expected,
        ),
    ensures
        signs_for(seed_bytes(done.close.signer_seeds@), done.close.authority),
{
}

/// When one token is paid out, the vault program signs for the address that holds
/// the vault's tokens.
pub proof fn law_withdrawal_signs_for_authority(
    payout: Payout,
    ctx: WithdrawToken,
    amount: u64,
    expected: Option<Pubkey>,
)
    requires
        withdraw_token_decision(
            Ok(payout),
            ctx,
            amount,
            authority_of(ctx.vault.key, ctx.vault.data.authority_bump),
            expected,
        ),
    ensures
        signs_for(seed_bytes(payout.transfer.signer_seeds@), payout.transfer.authority),
{
}

/// While everything is paid out, the vault program signs for the address that holds
/// the vault's tokens.
pub proof fn law_withdraw_all_signs_for_authority(
    step: WithdrawStep,
    payout: Payout,
    ctx: WithdrawAll,
    count: nat,
    accounts: Seq<AccountInfo>,
    cursor: int,
    facts: WithdrawFacts,
)
    requires
        withdraw_all_failure(
            ctx,
            count,
            authority_of(ctx.vault.key, ctx.vault.data.authority_bump),
        ) is None,
        withdraw_step_decision(Ok(Some(step)), ctx, accounts, cursor, facts),
        step.payout == Some(payout),
    ensures
        signs_for(seed_bytes(payout.transfer.signer_seeds@), payout.transfer.authority),
{
}

/// When token accounts are closed, the vault program signs for the address that
/// holds the vault's tokens.
pub proof fn law_closing_signs_for_authority(
    step: CloseStep,
    before: CloseEmptyTokenAccounts,
    after: CloseEmptyTokenAccounts,
    count: nat,
    accounts: Seq<AccountInfo>,
    cursor: int,
    facts: CloseFacts,
)
    requires
        close_accounts_failure(
            before,
            count,
            authority_of(before.vault.key, before.vault.data.authority_bump),
        ) is None,
        close_step_decision(Ok(Some(step)), before, after, accounts, cursor, facts),
    ensures
        signs_for(seed_bytes(step.close.signer_seeds@), step.close.authority),
{
}

/// The token accounts that are created for a new vault are those that trades,
/// withdrawals and closings of its tokens are held to.
pub proof fn law_created_accounts_are_the_vaults(
    done: Initialized,
    ctx: InitializeVault,
    bot_address: Pubkey,
    jupiter_router: Pubkey,
    initial_mints: Seq<Pubkey>,
    home: Option<(Pubkey, u8)>,
    authority: Option<(Pubkey, u8)>,
    accounts: Seq<AccountInfo>,
    index: nat,
    create: CreateAta,
)
    requires
        initialize_decision(
            Ok(done),
            ctx,
            accounts.len(),
            bot_address,
            jupiter_router,
            initial_mints,
            home,
            authority,
        ),
        done.atas@.step(accounts, index as int, done.atas@.expected(accounts, index as int)) == Ok::<
            Option<CreateAta>,
            Failure,
        >(Some(create)),
    ensures
        index < done.vault.allowed_mints@.len(),
        create.mint == done.vault.allowed_mints@[index as int],
        create.authority == ctx.vault_authority,
        is_token_program(create.token_program),
        vault_ata(ctx.vault_authority, create.mint, create.token_program) == Some(
            create.associated_token,
        ),
{
}

/// When a token is put on the list, the token account that is created is the one
/// that trades, withdrawals and closings of that token are held to.
pub proof fn law_added_account_is_the_vaults(
    done: TokenAdded,
    before: AddToken,
    after: AddToken,
    accounts: Seq<AccountInfo>,
    mint: Pubkey,
    authority: Option<Pubkey>,
)
    requires
        add_decision(
            Ok(done),
            before,
            after,
            accounts,
            mint,
            authority,
            add_plan(before, mint).expected(accounts, 0),
        ),
    ensures
        done.create.mint == mint,
        done.create.authority == before.vault_authority,
        is_token_program(done.create.token_program),
        vault_ata(before.vault_authority, mint, done.create.token_program) == Some(
            done.create.associated_token,
        ),
{
}

/// A plan of token accounts is worked off token by token: each step that does not
/// fail asks for the account of the token at its place, and the plan is done after
/// the last.
pub proof fn law_plan_covers_its_tokens(plan: AtaPlanView, accounts: Seq<AccountInfo>, index: nat)
    requires
        plan.fits(accounts),
        plan.mints.len() <= usize::MAX,
    ensures
        index >= plan.mints.len() ==> plan.step(
            accounts,
            index as int,
            plan.expected(accounts, index as int),
        ) == Ok::<Option<CreateAta>, Failure>(None),
        index < plan.mints.len() ==> match plan.step(
            accounts,
            index as int,
            plan.expected(accounts, index as int),
        ) {
            Err(_) => true,
            Ok(step) => {
                &&& step matches Some(create)
                &&& create.index == index
                &&& create.mint == plan.mints[index as int]
                &&& Some(create.associated_token) == associated_address(
                    plan.vault_authority,
                    create.mint,
                    create.token_program,
                    plan.associated_token_program,
                )
            },
        },
{
}

// Reading accounts.

/// What is read as a token account or as a mint belongs to a token program; an
/// account of any other program is refused, whatever it holds.
pub proof fn law_only_token_programs_are_read(info: AccountInfo)
    ensures
        token_account_in(info) is Ok || mint_in(info) is Ok ==> is_token_program(info.owner),
        !is_token_program(info.owner) ==> {
            let code = if info.owner == no_key() && info.lamports == 0 {
                ACCOUNT_NOT_INITIALIZED
            } else {
                ACCOUNT_OWNED_BY_WRONG_PROGRAM
            };
            &&& token_account_in(info) == Err::<TokenAccount, Failure>(Failure::Program(code))
            &&& mint_in(info) == Err::<Mint, Failure>(Failure::Program(code))
        },
{
    assert(TOKEN_PROGRAM[0] == 6 && TOKEN_2022_PROGRAM[0] == 6 && ZEROS[0] == 0);
}

/// A token account that is read again after another program has run is read as it
/// would be for the first time.
pub proof fn law_reading_again_agrees(info: AccountInfo)
    requires
        is_token_program(info.owner),
    ensures
        token_account_in(info) == token_account_of(decoded_token_account(info.data@)),
{
    assert(TOKEN_PROGRAM[0] == 6 && TOKEN_2022_PROGRAM[0] == 6 && ZEROS[0] == 0);
}

/// While everything is paid out, a step at an account that belongs to another program
/// than the token programs fails, and so does the request.
pub proof fn law_withdraw_all_refuses_foreign_accounts(
    decision: Result<Option<WithdrawStep>, Failure>,
    ctx: WithdrawAll,
    accounts: Seq<AccountInfo>,
    cursor: nat,
    i: int,
)
    requires
        withdraw_step_decision(
            decision,
            ctx,
            accounts,
            cursor as int,
            withdraw_facts(accounts, cursor as int),
        ),
        cursor <= i < cursor + 3 <= accounts.len(),
        !is_token_program(accounts[i].owner),
    ensures
        decision is Err,
        i == cursor ==> decision == Err::<Option<WithdrawStep>, Failure>(
            Failure::Program(owner_refusal(accounts[i].owner, accounts[i].lamports).unwrap()),
        ),
{
}

/// When token accounts are closed, a step at an account that belongs to another
/// program than the token programs fails, and so does the request.
pub proof fn law_closing_refuses_foreign_accounts(
    decision: Result<Option<CloseStep>, Failure>,
    before: CloseEmptyTokenAccounts,
    after: CloseEmptyTokenAccounts,
    accounts: Seq<AccountInfo>,
    cursor: nat,
    i: int,
)
    requires
        close_step_decision(
            decision,
            before,
            after,
            accounts,
            cursor as int,
            close_facts(before, accounts, cursor as int),
        ),
        cursor <= i < cursor + 2 <= accounts.len(),
        !is_token_program(accounts[i].owner),
    ensures
        decision is Err,
        after == before,
        i == cursor ==> decision == Err::<Option<CloseStep>, Failure>(
            Failure::Program(owner_refusal(accounts[i].owner, accounts[i].lamports).unwrap()),
        ),
{
}

// Trading.

/// The router is handed no signature but that of the vault's authority, and may
/// write to no account that the request does not let it write to.
pub proof fn law_router_gains_nothing(
    accounts: Seq<AccountInfo>,
    vault_authority: Pubkey,
    i: int,
)
    requires
        0 <= i < accounts.len(),
    ensures
        trade_metas(accounts, vault_authority).len() == accounts.len(),
        trade_metas(accounts, vault_authority)[i].pubkey == accounts[i].key,
        trade_metas(accounts, vault_authority)[i].is_writable == accounts[i].is_writable,
        trade_metas(accounts, vault_authority)[i].is_signer ==> accounts[i].key == vault_authority,
{
}

/// No token account of the vault is exposed to the router but the two that are
/// traded.
pub proof fn law_trade_protects_other_tokens(
    ctx: Trade,
    remaining: Seq<AccountInfo>,
    order: TradeOrder,
    authority: Option<Pubkey>,
    ata_in: Option<Pubkey>,
    ata_out: Option<Pubkey>,
    i: int,
)
    requires
        trade_failure(
            ctx,
            remaining,
            order,
            authority,
            ata_in,
            ata_out,
            exposed_tokens(
                remaining.drop_last(),
                ctx.vault_token_in.key,
                ctx.vault_token_out.key,
            ),
        ) is None,
        0 <= i < remaining.len() - 1,
        remaining[i].is_writable,
        token_account_in(remaining[i]) matches Ok(token) && token.owner == ctx.vault_authority,
    ensures
        remaining[i].key == ctx.vault_token_in.key || remaining[i].key == ctx.vault_token_out.key,
{
    let handed = remaining.drop_last();
    let tokens = exposed_tokens(handed, ctx.vault_token_in.key, ctx.vault_token_out.key);
    assert(handed[i] == remaining[i]);
    assert(tokens[i] == exposed_token(
        handed[i],
        ctx.vault_token_in.key,
        ctx.vault_token_out.key,
    ));
    assert(!exposes_vault(
        handed,
        tokens,
        ctx.vault_authority,
        ctx.vault_token_in.key,
        ctx.vault_token_out.key,
        i,
    ));
}

/// What a trade takes and what it yields stays in the vault: both token accounts are
/// where the vault's authority holds those tokens, both tokens are on the list, and
/// they are two.
pub proof fn law_trade_stays_in_the_vault(
    ctx: Trade,
    remaining: Seq<AccountInfo>,
    order: TradeOrder,
    authority: Option<Pubkey>,
    tokens: Seq<Option<TokenAccount>>,
)
    requires
        trade_failure(
            ctx,
            remaining,
            order,
            authority,
            vault_ata(ctx.vault_authority, order.token_in_mint, ctx.token_program_in.key),
            vault_ata(ctx.vault_authority, order.token_out_mint, ctx.token_program_out.key),
            tokens,
        ) is None,
    ensures
        vault_ata(ctx.vault_authority, order.token_in_mint, ctx.token_program_in.key) == Some(
            ctx.vault_token_in.key,
        ),
        vault_ata(ctx.vault_authority, order.token_out_mint, ctx.token_program_out.key) == Some(
            ctx.vault_token_out.key,
        ),
        ctx.vault_token_in.data.owner == ctx.vault_authority,
        ctx.vault_token_out.data.owner == ctx.vault_authority,
        ctx.vault.data.allowed_mints@.contains(order.token_in_mint),
        ctx.vault.data.allowed_mints@.contains(order.token_out_mint),
        order.token_in_mint != order.token_out_mint,
{
}

/// A trade that goes ahead is carried out by the vault's router.
pub proof fn law_trade_goes_through_the_router(
    plan: TradePlan,
    ctx: Trade,
    remaining: Seq<AccountInfo>,
    order: TradeOrder,
    authority: Option<Pubkey>,
    ata_in: Option<Pubkey>,
    ata_out: Option<Pubkey>,
    tokens: Seq<Option<TokenAccount>>,
)
    requires
        trade_decision(
            Ok(plan),
            ctx,
            remaining,
            order,
            authority,
            ata_in,
            ata_out,
            tokens,
        ),
    ensures
        plan.instruction.program_id == ctx.vault.data.jupiter_router,
        plan.instruction.data@.len() == order.jupiter_ix_data_len,
        plan.instruction.accounts@.len() == remaining.len() - 1,
{
}

/// A trade that is settled has cost the vault no more than ordered and brought in no
/// less than ordered, and that is something.
pub proof fn law_settled_trade_is_within_the_order(
    plan: TradePlan,
    ctx: Trade,
    remaining: Seq<AccountInfo>,
    order: TradeOrder,
    authority: Option<Pubkey>,
    ata_in: Option<Pubkey>,
    ata_out: Option<Pubkey>,
    tokens: Seq<Option<TokenAccount>>,
    token_in_after: u64,
    token_out_after: u64,
)
    requires
        trade_decision(
            Ok(plan),
            ctx,
            remaining,
            order,
            authority,
            ata_in,
            ata_out,
            tokens,
        ),
        settlement(plan, token_in_after, token_out_after) is Ok,
    ensures
        ctx.vault_token_in.data.amount - order.amount_in <= token_in_after
            <= ctx.vault_token_in.data.amount,
        token_out_after >= ctx.vault_token_out.data.amount + order.min_amount_out,
        token_out_after > ctx.vault_token_out.data.amount,
        settlement(plan, token_in_after, token_out_after) matches Ok(event) ==> {
            &&& event.amount_spent == ctx.vault_token_in.data.amount - token_in_after
            &&& event.amount_out == token_out_after - ctx.vault_token_out.data.amount
            &&& event.amount_spent <= event.amount_in == order.amount_in
            &&& event.amount_out >= order.min_amount_out
            &&& event.router == ctx.vault.data.jupiter_router
        },
{
}

/// A trade is settled exactly when the vault's balances moved within the order.
pub proof fn law_settlement_is_exact(plan: TradePlan, token_in_after: u64, token_out_after: u64)
    ensures
        settlement(plan, token_in_after, token_out_after) is Ok <==> {
            &&& token_in_after <= plan.token_in_before
            &&& plan.token_in_before - token_in_after <= plan.amount_in
            &&& token_out_after >= plan.token_out_before + plan.min_amount_out
        },
{
}

// Paying out.

/// Whatever is paid out while everything is paid out goes to the owner, is all that
/// the account holds, and is a token that the vault trades; so a bot that asks for
/// it gains nothing.
pub proof fn law_withdraw_all_pays_only_the_owner(
    step: WithdrawStep,
    payout: Payout,
    ctx: WithdrawAll,
    accounts: Seq<AccountInfo>,
    cursor: int,
    vault_token: TokenAccount,
    owner_token: TokenAccount,
    mint: Mint,
)
    requires
        0 <= cursor,
        withdraw_step_decision(
            Ok(Some(step)),
            ctx,
            accounts,
            cursor,
            WithdrawFacts { vault_token: Ok(vault_token), owner_token: Ok(owner_token), mint: Ok(mint) },
        ),
        step.payout == Some(payout),
    ensures
        payout.transfer.to == accounts[cursor + 1].key,
        owner_token.owner == ctx.vault.data.owner,
        owner_token.mint == vault_token.mint,
        payout.transfer.mint == vault_token.mint,
        payout.transfer.amount == vault_token.amount,
        payout.transfer.amount > 0,
        ctx.vault.data.allowed_mints@.contains(payout.transfer.mint),
        payout.event.to == ctx.vault.data.owner,
        payout.event.amount == payout.transfer.amount,
{
}

/// Paying everything out looks at all the accounts, three by three, and then ends:
/// the step at the `n`-th three leads to the next three, and there is no step after
/// the last.
pub proof fn law_withdraw_all_looks_at_every_account(
    decision: Result<Option<WithdrawStep>, Failure>,
    ctx: WithdrawAll,
    accounts: Seq<AccountInfo>,
    authority: Option<Pubkey>,
    n: nat,
    facts: WithdrawFacts,
)
    requires
        withdraw_all_failure(ctx, accounts.len(), authority) is None,
        withdraw_step_decision(decision, ctx, accounts, (n * 3) as int, facts),
    ensures
        n * 3 < accounts.len() ==> match decision {
            Err(_) => true,
            Ok(step) => step matches Some(step) && step.next == (n + 1) * 3,
        },
        n * 3 >= accounts.len() ==> decision == Ok::<Option<WithdrawStep>, Failure>(None),
{
}

/// Each account, however often a request passes it on, has one owner, one balance and
/// one content.
pub open spec fn is_snapshot(accounts: Seq<AccountInfo>) -> bool {
    forall|i: int, j: int|
        #![trigger accounts[i], accounts[j]]
        0 <= i < accounts.len() && 0 <= j < accounts.len() && accounts[i].key == accounts[j].key ==> {
            &&& accounts[i].owner == accounts[j].owner
            &&& accounts[i].lamports == accounts[j].lamports
            &&& accounts[i].data@ == accounts[j].data@
        }
}

/// What the transfer leaves of an account: the account that is paid from holds less
/// by the amount, that which is paid to holds some amount, and nothing else changes.
pub open spec fn is_after_transfer(
    transfer: TransferTokens,
    before: AccountInfo,
    after: AccountInfo,
) -> bool {
    &&& after.key == before.key
    &&& after.owner == before.owner
    &&& mint_in(after) == mint_in(before)
    &&& if before.key == transfer.from || before.key == transfer.to {
        &&& token_account_in(before) matches Ok(held)
        &&& token_account_in(after) matches Ok(left)
        &&& left.mint == held.mint
        &&& left.owner == held.owner
        &&& before.key == transfer.from && before.key != transfer.to ==> left.amount == held.amount
            - transfer.amount
    } else {
        token_account_in(after) == token_account_in(before)
    }
}

/// What a step of paying everything out leaves of the accounts.
pub open spec fn is_after_step(
    step: WithdrawStep,
    before: Seq<AccountInfo>,
    after: Seq<AccountInfo>,
) -> bool {
    match step.payout {
        None => after == before,
        Some(payout) => {
            &&& after.len() == before.len()
            &&& forall|i: int|
                #![trigger before[i]]
                #![trigger after[i]]
                0 <= i < before.len() ==> is_after_transfer(payout.transfer, before[i], after[i])
        },
    }
}

/// The first steps of paying everything out, one at each three accounts; `states` are
/// the accounts before each step and after the last.
pub open spec fn is_withdrawal_run(
    ctx: WithdrawAll,
    states: Seq<Seq<AccountInfo>>,
    steps: Seq<WithdrawStep>,
) -> bool {
    &&& states.len() == steps.len() + 1
    &&& forall|n: int| 0 <= n < states.len() ==> is_snapshot(#[trigger] states[n])
    &&& forall|n: int|
        #![trigger steps[n]]
        0 <= n < steps.len() ==> {
            &&& withdraw_step_decision(
                Ok(Some(steps[n])),
                ctx,
                states[n],
                n * 3,
                withdraw_facts(states[n], n * 3),
            )
            &&& is_after_step(steps[n], states[n], states[n + 1])
        }
}

/// The three accounts at `cursor` can be read, and nothing is left in them to pay.
pub open spec fn is_paid_out(ctx: WithdrawAll, accounts: Seq<AccountInfo>, cursor: int) -> bool {
    &&& token_account_in(accounts[cursor]) matches Ok(vault_token)
    &&& token_account_in(accounts[cursor + 1]) matches Ok(owner_token)
    &&& mint_in(accounts[cursor + 2]) is Ok
    &&& !is_withdrawable(ctx, accounts, cursor, vault_token, owner_token)
}

/// A step of paying everything out leaves nothing to pay in its three accounts, and
/// nothing in others that had nothing.
proof fn lemma_step_pays_out(
    ctx: WithdrawAll,
    before: Seq<AccountInfo>,
    after: Seq<AccountInfo>,
    cursor: int,
    step: WithdrawStep,
    other: int,
)
    requires
        ctx.vault.data.owner != ctx.vault_authority,
        is_snapshot(before),
        0 <= cursor,
        withdraw_step_decision(
            Ok(Some(step)),
            ctx,
            before,
            cursor,
            withdraw_facts(before, cursor),
        ),
        is_after_step(step, before, after),
        0 <= other <= before.len() - 3,
        other == cursor || is_paid_out(ctx, before, other),
    ensures
        after.len() == before.len(),
        is_paid_out(ctx, after, other),
{
    if let Some(payout) = step.payout {
        let transfer = payout.transfer;
        assert(is_after_transfer(transfer, before[cursor], after[cursor]));
        assert(is_after_transfer(transfer, before[cursor + 1], after[cursor + 1]));
        assert(is_after_transfer(transfer, before[other], after[other]));
        assert(is_after_transfer(transfer, before[other + 1], after[other + 1]));
        assert(is_after_transfer(transfer, before[other + 2], after[other + 2]));
        // The owner's account and the vault's are two, so no account gains that the
        // vault could pay from.
        assert(before[cursor].key != before[cursor + 1].key);
        if before[other].key == transfer.to {
            assert(token_account_in(before[other]) == token_account_in(before[cursor + 1]));
        }
        if before[other].key == transfer.from {
            assert(token_account_in(before[other]) == token_account_in(before[cursor]));
        }
    }
}

/// After the first steps of paying everything out, nothing is left to pay in the
/// accounts that they looked at.
proof fn lemma_run_pays_out(
    ctx: WithdrawAll,
    states: Seq<Seq<AccountInfo>>,
    steps: Seq<WithdrawStep>,
    n: int,
)
    requires
        ctx.vault.data.owner != ctx.vault_authority,
        is_withdrawal_run(ctx, states, steps),
        0 <= n < steps.len(),
    ensures
        states.last().len() == states[0].len(),
        is_paid_out(ctx, states.last(), n * 3),
    decreases steps.len(),
{
    let last = steps.len() - 1;
    let step = steps[last];
    assert(is_snapshot(states[last]));
    if last > 0 {
        let earlier = steps.drop_last();
        let seen = states.drop_last();
        assert forall|k: int| 0 <= k < seen.len() implies is_snapshot(#[trigger] seen[k]) by {
            assert(seen[k] == states[k]);
        }
        assert forall|k: int|
            #![trigger earlier[k]]
            0 <= k < earlier.len() implies withdraw_step_decision(
            Ok(Some(earlier[k])),
            ctx,
            seen[k],
            k * 3,
            withdraw_facts(seen[k], k * 3),
        ) && is_after_step(earlier[k], seen[k], seen[k + 1]) by {
            assert(earlier[k] == steps[k]);
        }
        lemma_run_pays_out(
            ctx,
            seen,
            earlier,
            if n < last {
                n
            } else {
                0
            },
        );
    }
    lemma_step_pays_out(ctx, states[last], states[last + 1], last * 3, step, n * 3);
}

/// Paying everything out a second time does nothing. A first run went through all
/// the accounts, and each of its transfers took the amount from the account that it
/// paid from; then the owner was paid the lamports. A second run with the same
/// accounts is let through, passes over all the accounts without a payout, ends, and
/// pays no lamports. The vault itself is the same throughout.
pub proof fn law_withdrawing_twice_pays_once(
    ctx: WithdrawAll,
    authority: Option<Pubkey>,
    states: Seq<Seq<AccountInfo>>,
    steps: Seq<WithdrawStep>,
    n: nat,
    decision: Result<Option<WithdrawStep>, Failure>,
    vault_lamports: u64,
    owner_lamports: u64,
    left_lamports: u64,
    rent_min: u64,
)
    requires
        ctx.vault.data.owner != ctx.vault_authority,
        ctx.vault.key != ctx.owner.pubkey,
        is_withdrawal_run(ctx, states, steps),
        steps.len() * 3 == states[0].len(),
        withdraw_all_failure(ctx, states[0].len(), authority) is None,
        withdraw_step_decision(
            decision,
            ctx,
            states.last(),
            (n * 3) as int,
            withdraw_facts(states.last(), (n * 3) as int),
        ),
        left_lamports == match lamport_payout(
            ctx.vault.key,
            ctx.owner.pubkey,
            vault_lamports,
            rent_min,
        ) {
            Some(payout) => payout.lamports.balances(
                vault_lamports as int,
                owner_lamports as int,
            ).0,
            None => vault_lamports as int,
        },
    ensures
        withdraw_all_failure(ctx, states.last().len(), authority) is None,
        match decision {
            Err(_) => false,
            Ok(None) => n >= steps.len(),
            Ok(Some(step)) => {
                &&& n < steps.len()
                &&& step.payout is None
                &&& step.next == (n + 1) * 3
            },
        },
        lamport_payout(ctx.vault.key, ctx.owner.pubkey, left_lamports, rent_min) is None,
{
    if steps.len() > 0 {
        lemma_run_pays_out(
            ctx,
            states,
            steps,
            if n < steps.len() {
                n as int
            } else {
                0
            },
        );
    }
}

/// A payout that the owner asks for takes from the vault's own token account and
/// announces what it moves.
pub proof fn law_withdrawn_tokens_come_from_the_vault(
    payout: Payout,
    ctx: WithdrawToken,
    amount: u64,
    authority: Option<Pubkey>,
)
    requires
        withdraw_token_decision(
            Ok(payout),
            ctx,
            amount,
            authority,
            vault_ata(ctx.vault_authority, ctx.mint.key, ctx.token_program.key),
        ),
    ensures
        vault_ata(ctx.vault_authority, payout.transfer.mint, ctx.token_program.key) == Some(
            payout.transfer.from,
        ),
        ctx.recipient_token_account.data.owner == payout.event.to,
        payout.transfer.amount == payout.event.amount,
        payout.transfer.amount > 0,
{
}

/// Lamports that the owner pays out never eat into what keeps the vault's account
/// alive, and none are lost or made.
pub proof fn law_native_withdrawal_keeps_the_rent(
    ctx: WithdrawNative,
    vault_lamports: u64,
    recipient_lamports: u64,
    rent_min: u64,
    amount: u64,
)
    requires
        withdraw_native_failure(ctx, vault_lamports, rent_min, amount) is None,
    ensures
        ({
            let moved = native_payout(ctx.vault.key, ctx.recipient.pubkey, amount).lamports;
            let after = moved.balances(vault_lamports as int, recipient_lamports as int);
            &&& after.0 >= rent_min
            &&& moved.amount == amount
            &&& moved.from != moved.to ==> after.0 + after.1 == vault_lamports + recipient_lamports
        }),
{
}

/// When everything is paid out, the vault is left with what keeps its account
/// alive, if it had as much, and the rest goes to the owner.
pub proof fn law_all_lamports_but_the_rent_are_paid(
    vault: Pubkey,
    recipient: Pubkey,
    vault_lamports: u64,
    recipient_lamports: u64,
    rent_min: u64,
)
    requires
        vault != recipient,
        vault_lamports > rent_min,
    ensures
        native_payout(vault, recipient, (vault_lamports - rent_min) as u64).lamports.balances(
            vault_lamports as int,
            recipient_lamports as int,
        ) == (rent_min as int, recipient_lamports + vault_lamports - rent_min),
{
}

// Closing.

/// Closing a token account takes the token off the list, and no other.
pub proof fn law_closing_unlists_the_token(vault: VaultView, mint: Pubkey, other: Pubkey)
    requires
        vault.wf(),
    ensures
        after_closing(vault, mint).wf(),
        after_closing(vault, mint).allowed_mints.contains(other) <==> vault.allowed_mints.contains(
            other,
        ) && other != mint,
{
    if vault.allowed_mints.contains(mint) {
        law_without_token_is_wf(vault, mint);
        law_removal_removes_one(vault.allowed_mints, mint);
    }
}

/// The vault after the token accounts for some tokens were closed, one after the
/// other.
pub open spec fn after_closings(vault: VaultView, mints: Seq<Pubkey>) -> VaultView
    decreases mints.len(),
{
    if mints.len() == 0 {
        vault
    } else {
        after_closing(after_closings(vault, mints.drop_last()), mints.last())
    }
}

/// After any closings the vault trades exactly the tokens whose accounts were not
/// closed.
pub proof fn law_closings_unlist_their_tokens(vault: VaultView, mints: Seq<Pubkey>, other: Pubkey)
    requires
        vault.wf(),
    ensures
        after_closings(vault, mints).wf(),
        after_closings(vault, mints).owner == vault.owner,
        after_closings(vault, mints).allowed_mints.contains(other)
            <==> vault.allowed_mints.contains(other) && !mints.contains(other),
    decreases mints.len(),
{
    if mints.len() > 0 {
        let rest = mints.drop_last();
        law_closings_unlist_their_tokens(vault, rest, other);
        law_closing_unlists_the_token(after_closings(vault, rest), mints.last(), other);
        assert(mints =~= rest.push(mints.last()));
        lemma_push_contains(rest, mints.last(), other);
    }
}

/// The mints among the first `count` pairs of a token account and its mint.
pub open spec fn paired_mints(accounts: Seq<AccountInfo>, count: nat) -> Seq<Pubkey> {
    Seq::new(count, |n: int| accounts[n * 2 + 1].key)
}

/// The accounts have the same addresses.
pub open spec fn same_keys(some: Seq<AccountInfo>, others: Seq<AccountInfo>) -> bool {
    &&& some.len() == others.len()
    &&& forall|i: int|
        #![trigger some[i]]
        #![trigger others[i]]
        0 <= i < some.len() ==> some[i].key == others[i].key
}

/// The first steps of closing token accounts, one at each pair of `accounts`;
/// `states` are the request before each step and after the last, `seen` the accounts
/// and `facts` what was found out about them at each step.
pub open spec fn is_closing_run(
    accounts: Seq<AccountInfo>,
    states: Seq<CloseEmptyTokenAccounts>,
    steps: Seq<CloseStep>,
    seen: Seq<Seq<AccountInfo>>,
    facts: Seq<CloseFacts>,
) -> bool {
    &&& states.len() == steps.len() + 1
    &&& seen.len() == steps.len()
    &&& facts.len() == steps.len()
    &&& forall|n: int|
        #![trigger steps[n]]
        #![trigger seen[n]]
        0 <= n < steps.len() ==> {
            &&& same_keys(seen[n], accounts)
            &&& close_step_decision(
                Ok(Some(steps[n])),
                states[n],
                states[n + 1],
                seen[n],
                n * 2,
                facts[n],
            )
        }
}

/// A run of closings takes the mints of its pairs off the vault's list, one after the
/// other, and changes nothing else of the request.
pub proof fn law_a_run_of_closings_unlists_its_mints(
    accounts: Seq<AccountInfo>,
    states: Seq<CloseEmptyTokenAccounts>,
    steps: Seq<CloseStep>,
    seen: Seq<Seq<AccountInfo>>,
    facts: Seq<CloseFacts>,
)
    requires
        is_closing_run(accounts, states, steps, seen, facts),
    ensures
        states.last().vault.data@ == after_closings(
            states[0].vault.data@,
            paired_mints(accounts, steps.len()),
        ),
        states.last() == (CloseEmptyTokenAccounts {
            vault: (Account { data: states.last().vault.data, ..states[0].vault }),
            ..states[0]
        }),
        steps.len() * 2 <= accounts.len(),
    decreases steps.len(),
{
    let mints = paired_mints(accounts, steps.len());
    if steps.len() > 0 {
        let last = steps.len() - 1;
        let earlier = steps.drop_last();
        let before = states.drop_last();
        let seen_before = seen.drop_last();
        let known = facts.drop_last();
        assert forall|n: int|
            #![trigger earlier[n]]
            #![trigger seen_before[n]]
            0 <= n < earlier.len() implies same_keys(seen_before[n], accounts)
            && close_step_decision(
            Ok(Some(earlier[n])),
            before[n],
            before[n + 1],
            seen_before[n],
            n * 2,
            known[n],
        ) by {
            assert(earlier[n] == steps[n]);
        }
        law_a_run_of_closings_unlists_its_mints(accounts, before, earlier, seen_before, known);
        assert(same_keys(seen[last], accounts));
        assert(seen[last][last * 2 + 1].key == accounts[last * 2 + 1].key);
        assert(mints.drop_last() =~= paired_mints(accounts, earlier.len()));
        assert(mints.last() == accounts[last * 2 + 1].key);
        assert(before.last() == states[last]);
    } else {
        assert(mints =~= Seq::empty());
    }
}

/// A vault whose token accounts were all closed can be closed.
pub proof fn law_closed_out_vault_can_be_closed(
    vault: VaultView,
    mints: Seq<Pubkey>,
    ctx: CloseVaultAccount,
)
    requires
        vault.wf(),
        forall|mint: Pubkey| #[trigger] vault.allowed_mints.contains(mint) ==> mints.contains(mint),
        ctx.vault.data@ == after_closings(vault, mints),
        ctx.constraint_failure() is None,
    ensures
        close_vault_failure(ctx) is None,
{
    let left = after_closings(vault, mints).allowed_mints;
    if left.len() > 0 {
        assert(left.contains(left[0]));
        law_closings_unlist_their_tokens(vault, mints, left[0]);
    }
}

/// No token account is closed that still holds tokens, or that is not the vault's.
pub proof fn law_only_empty_accounts_are_closed(
    step: CloseStep,
    before: CloseEmptyTokenAccounts,
    after: CloseEmptyTokenAccounts,
    accounts: Seq<AccountInfo>,
    cursor: int,
    facts: CloseFacts,
)
    requires
        close_step_decision(Ok(Some(step)), before, after, accounts, cursor, facts),
    ensures
        facts.vault_token matches Ok(token) && token.amount == 0 && token.owner
            == before.vault_authority && token.mint == step.closed.mint,
        facts.ata == Some(step.close.account),
        step.close.destination == before.owner.pubkey,
{
}

/// No token is taken off the list while the vault's account for it holds tokens.
pub proof fn law_only_empty_accounts_are_removed(
    ctx: RemoveToken,
    mint: Pubkey,
    authority: Option<Pubkey>,
    expected: Option<Pubkey>,
)
    requires
        remove_failure(ctx, mint, authority, expected) is None,
    ensures
        ctx.vault_token_account.data.amount == 0,
        ctx.vault_token_account.data.mint == mint,
        ctx.vault_token_account.data.owner == ctx.vault_authority,
        expected == Some(ctx.vault_token_account.key),
{
}

/// Closing token accounts looks at all the accounts, two by two, and then ends.
pub proof fn law_closing_looks_at_every_account(
    decision: Result<Option<CloseStep>, Failure>,
    before: CloseEmptyTokenAccounts,
    after: CloseEmptyTokenAccounts,
    accounts: Seq<AccountInfo>,
    authority: Option<Pubkey>,
    n: nat,
    facts: CloseFacts,
)
    requires
        close_accounts_failure(before, accounts.len(), authority) is None,
        close_step_decision(decision, before, after, accounts, (n * 2) as int, facts),
    ensures
        n * 2 < accounts.len() ==> match decision {
            Err(_) => true,
            Ok(step) => step matches Some(step) && step.next == (n + 1) * 2,
        },
        n * 2 >= accounts.len() ==> decision == Ok::<Option<CloseStep>, Failure>(None),
{
}

// Refusals.

/// Each of the vault's own reasons has a number of its own.
pub proof fn law_error_codes_are_distinct(a: VaultError, b: VaultError)
    requires
        a.index() == b.index(),
    ensures
        a == b,
{
}

}
