//! What each request is answered: exactly when it is granted, what is then done, and
//! for which fault it is refused otherwise.
use vstd::prelude::*;

use crate::account::{
    decoded_mint, decoded_token_account, mint_in, owner_refusal, token_account_in, token_account_of,
    Account, AccountInfo, AccountMeta, Mint, TokenAccount,
};
use crate::admission::{fault_from, first_fault};
use crate::associated::{
    associated_address, ata_failure, is_token_program, vault_ata, vault_ata_outcome, AtaPlanView,
    CreateAta,
};
use crate::closing::{
    after_closing, close_accounts_decision, close_accounts_outcome, close_step_decision,
    close_step_outcome, CloseFacts, CloseStep,
};
use crate::context::{
    authority_of, derived, AddToken, CloseEmptyTokenAccounts, CloseVaultAccount, InitializeVault,
    OwnerOnly, ReadVault, RemoveToken, Trade, WithdrawAll, WithdrawNative, WithdrawToken,
};
use crate::error::{Failure, VaultError};
use crate::event::{BotAddressUpdated, RouterUpdated, TradeExecuted};
use crate::laws::Change;
use crate::management::{
    add_decision, add_outcome, add_plan, allowed_tokens_outcome, close_vault_decision,
    initialize_decision, initialize_outcome, is_allowed_outcome, length_outcome, remove_decision,
    remove_outcome, set_bot_decision, set_router_decision, Initialized, TokenAdded, TokenRemoved,
    VaultClosed,
};
use crate::pubkey::{
    created_address, found_address, key, no_key, seed_bytes, Pubkey, ASSOCIATED_TOKEN_PROGRAM,
    AUTHORITY_LABEL, PROGRAM_ID, TOKEN_2022_PROGRAM, TOKEN_PROGRAM, VAULT_LABEL, ZEROS,
};
use crate::trading::{
    exposed_token, exposed_tokens, exposes_vault, is_exposed, settlement, trade_accounts_fit,
    trade_accounts_verdict, trade_decision, trade_metas, trade_outcome, trade_result, TradeOrder,
    TradePlan,
};
use crate::vault::{
    authority_seed_bytes, first_at, is_first_at, normalized, signer_seed_bytes, vault_seed_bytes,
    without, Vault, VaultView,
};
use crate::withdrawal::{
    lamport_payout, withdraw_all_decision, withdraw_all_outcome, withdraw_native_decision,
    withdraw_step_decision, withdraw_step_outcome, withdraw_token_decision, withdraw_token_outcome,
    LamportMove, NativePayout, Payout, WithdrawFacts, WithdrawStep,
};

verus! {

/// A refusal by the vault itself.
pub open spec fn refused(error: VaultError) -> Failure {
    Failure::Vault(error)
}

// Addresses.

/// The address that stands for no account is all zeros.
pub proof fn law_no_key_is_zero(k: Pubkey)
    ensures
        k == no_key() <==> forall|i: int| 0 <= i < 32 ==> k.bytes[i] == 0,
{
    assert(forall|i: int| 0 <= i < 32 ==> ZEROS[i] == 0);
    if forall|i: int| 0 <= i < 32 ==> k.bytes[i] == 0 {
        assert(k.bytes =~= ZEROS);
    }
}

/// Seeds are handed on byte by byte, in order.
pub proof fn law_seeds_keep_their_bytes(seeds: Seq<Vec<u8>>, i: int)
    requires
        0 <= i < seeds.len(),
    ensures
        seed_bytes(seeds).len() == seeds.len(),
        seed_bytes(seeds)[i] == seeds[i]@,
{
}

/// The accounts of two programs, and no others, may hold tokens.
pub proof fn law_token_programs_are_two(program: Pubkey)
    ensures
        is_token_program(program) <==> program.bytes == TOKEN_PROGRAM || program.bytes
            == TOKEN_2022_PROGRAM,
{
}

/// Where a vault lives follows from its owner, where its tokens lie follows from where
/// it lives, and the bump that was found there is all that is needed to sign for them.
pub proof fn law_addresses_of_a_vault(owner: Pubkey, vault: Pubkey, bump: u8)
    ensures
        derived(vault_seed_bytes(owner)) == match found_address(
            seq![VAULT_LABEL@, owner@],
            PROGRAM_ID@,
        ) {
            Some((address, bump)) => Some((key(address), bump)),
            None => None,
        },
        derived(authority_seed_bytes(vault)) == match found_address(
            seq![AUTHORITY_LABEL@, vault@],
            PROGRAM_ID@,
        ) {
            Some((address, bump)) => Some((key(address), bump)),
            None => None,
        },
        signer_seed_bytes(vault, bump) == seq![AUTHORITY_LABEL@, vault@, seq![bump]],
        authority_of(vault, bump) == match created_address(
            seq![AUTHORITY_LABEL@, vault@, seq![bump]],
            PROGRAM_ID@,
        ) {
            Some(address) => Some(key(address)),
            None => None,
        },
{
    assert(signer_seed_bytes(vault, bump) =~= seq![AUTHORITY_LABEL@, vault@, seq![bump]]);
}

/// Where an owner holds a token follows from the owner, the token program and the mint,
/// in this order.
pub proof fn law_addresses_of_token_accounts(
    owner: Pubkey,
    mint: Pubkey,
    token_program: Pubkey,
    program: Pubkey,
)
    ensures
        associated_address(owner, mint, token_program, program) == match found_address(
            seq![owner@, token_program@, mint@],
            program@,
        ) {
            Some((address, _)) => Some(key(address)),
            None => None,
        },
        vault_ata(owner, mint, token_program) == associated_address(
            owner,
            mint,
            token_program,
            Pubkey { bytes: ASSOCIATED_TOKEN_PROGRAM },
        ),
{
}

/// A token account passes exactly where it lives at the address derived for it.
pub proof fn law_token_accounts_are_compared(expected: Option<Pubkey>, token_account: Pubkey)
    ensures
        ata_failure(expected, token_account) == first_fault(
            seq![
                (expected is Some, Failure::NoAddress),
                (expected == Some(token_account), refused(VaultError::BadAccount)),
            ],
        ),
        ata_failure(expected, token_account) is None <==> expected == Some(token_account),
{
    reveal_with_fuel(fault_from, 4);
}

/// A token account passes as the vault's exactly where the vault's authority holds that
/// token.
pub proof fn law_vault_accounts_are_recognized(
    verdict: Result<(), Failure>,
    vault_authority: Pubkey,
    mint: Pubkey,
    token_program: Pubkey,
    token_account: Pubkey,
)
    requires
        vault_ata_outcome(verdict, vault_authority, mint, token_program, token_account),
    ensures
        verdict is Ok <==> vault_ata(vault_authority, mint, token_program) == Some(token_account),
        verdict matches Err(failure) ==> failure == if vault_ata(
            vault_authority,
            mint,
            token_program,
        ) is None {
            Failure::NoAddress
        } else {
            refused(VaultError::BadAccount)
        },
{
}

// Reading accounts.

/// What is read of the data of a token account is handed on as it was read.
pub proof fn law_token_accounts_are_read_as_they_are(
    info: AccountInfo,
    mint: Pubkey,
    owner: Pubkey,
    amount: u64,
    code: u64,
)
    requires
        info.owner.bytes == TOKEN_PROGRAM || info.owner.bytes == TOKEN_2022_PROGRAM,
    ensures
        decoded_token_account(info.data@) == Ok::<(Seq<u8>, Seq<u8>, u64), u64>(
            (mint@, owner@, amount),
        ) ==> token_account_in(info) == Ok::<TokenAccount, Failure>(
            TokenAccount { mint, owner, amount },
        ),
        decoded_token_account(info.data@) == Err::<(Seq<u8>, Seq<u8>, u64), u64>(code)
            ==> token_account_in(info) == Err::<TokenAccount, Failure>(Failure::Program(code)),
{
    broadcast use crate::pubkey::lemma_key_of_view;

    assert(TOKEN_PROGRAM[0] == 6 && TOKEN_2022_PROGRAM[0] == 6 && ZEROS[0] == 0);
}

/// What is read of the data of a mint is handed on as it was read.
pub proof fn law_mints_are_read_as_they_are(info: AccountInfo, decimals: u8, code: u64)
    requires
        info.owner.bytes == TOKEN_PROGRAM || info.owner.bytes == TOKEN_2022_PROGRAM,
    ensures
        decoded_mint(info.data@) == Ok::<u8, u64>(decimals) ==> mint_in(info) == Ok::<
            Mint,
            Failure,
        >(Mint { decimals }),
        decoded_mint(info.data@) == Err::<u8, u64>(code) ==> mint_in(info) == Err::<Mint, Failure>(
            Failure::Program(code),
        ),
{
    assert(TOKEN_PROGRAM[0] == 6 && TOKEN_2022_PROGRAM[0] == 6 && ZEROS[0] == 0);
}

/// An account is refused for its owner exactly where that is no token program; with its
/// own number where the account does not exist.
pub proof fn law_owners_are_refused_by_number(owner: Pubkey, lamports: u64)
    ensures
        owner_refusal(owner, lamports) is None <==> owner.bytes == TOKEN_PROGRAM || owner.bytes
            == TOKEN_2022_PROGRAM,
        owner_refusal(owner, lamports) == Some(3012u64) <==> owner.bytes == ZEROS && lamports == 0,
        owner_refusal(owner, lamports) matches Some(code) ==> code == 3012 || code == 3007,
{
    assert(TOKEN_PROGRAM[0] == 6 && TOKEN_2022_PROGRAM[0] == 6 && ZEROS[0] == 0);
}

// The state of a vault.

/// A vault is well-formed exactly when it names a bot and a router, and lists at most
/// sixty-four tokens, each once, and none of them the zero address.
pub proof fn law_well_formed_vaults(vault: VaultView)
    ensures
        vault.wf() <==> {
            &&& vault.bot_address != no_key()
            &&& vault.jupiter_router != no_key()
            &&& vault.allowed_mints.len() <= 64
            &&& forall|i: int, j: int|
                0 <= i < j < vault.allowed_mints.len() ==> vault.allowed_mints[i]
                    != vault.allowed_mints[j]
            &&& forall|i: int|
                0 <= i < vault.allowed_mints.len() ==> vault.allowed_mints[i] != no_key()
        },
{
}

/// The owner and the bot, and nobody else, may act.
pub proof fn law_owner_and_bot_may_act(vault: VaultView, signer: Pubkey)
    ensures
        vault.may_act(signer) <==> signer == vault.owner || signer == vault.bot_address,
{
}

/// Each change of a vault changes one thing.
pub proof fn law_changes_change_one_thing(vault: VaultView, k: Pubkey)
    ensures
        vault.with_token(k).allowed_mints == vault.allowed_mints.push(k),
        vault.with_token(k) == (VaultView {
            allowed_mints: vault.with_token(k).allowed_mints,
            ..vault
        }),
        vault.without_token(k).allowed_mints == without(vault.allowed_mints, k),
        vault.without_token(k) == (VaultView {
            allowed_mints: vault.without_token(k).allowed_mints,
            ..vault
        }),
        vault.with_bot(k) == (VaultView { bot_address: k, ..vault }),
        vault.with_router(k) == (VaultView { jupiter_router: k, ..vault }),
        after_closing(vault, k) == if vault.allowed_mints.contains(k) {
            vault.without_token(k)
        } else {
            vault
        },
{
}

/// A token that is taken off a list leaves its first place to the last token; all other
/// tokens stay where they are.
pub proof fn law_removal_keeps_the_other_places(mints: Seq<Pubkey>, mint: Pubkey, place: int, k: int)
    requires
        0 <= place < mints.len(),
        mints[place] == mint,
        forall|j: int| 0 <= j < place ==> mints[j] != mint,
        0 <= k < mints.len() - 1,
    ensures
        without(mints, mint).len() == mints.len() - 1,
        without(mints, mint)[k] == if k == place {
            mints[mints.len() - 1]
        } else {
            mints[k]
        },
{
    assert(is_first_at(mints, mint, place));
    let other = first_at(mints, mint);
    assert(is_first_at(mints, mint, other));
    if other < place {
        assert(mints[other] != mint);
    }
    if place < other {
        assert(mints[place] != mint);
    }
}

// Creating a vault.

/// A vault is created exactly when a bot and a router are named, no more than
/// sixty-four tokens are proposed, and there are three accounts for each token that is
/// listed. It then is what the request says, and everything is announced.
pub proof fn law_creation_is_answered(
    decision: Result<Initialized, Failure>,
    ctx: InitializeVault,
    count: nat,
    bot_address: Pubkey,
    jupiter_router: Pubkey,
    initial_mints: Seq<Pubkey>,
    home: Option<(Pubkey, u8)>,
    authority: Option<(Pubkey, u8)>,
)
    requires
        initialize_decision(
            decision,
            ctx,
            count,
            bot_address,
            jupiter_router,
            initial_mints,
            home,
            authority,
        ),
    ensures
        ctx.constraint_failure(home, authority) matches Some(failure) ==> decision == Err::<
            Initialized,
            Failure,
        >(failure),
        ctx.constraint_failure(home, authority) is None ==> {
            &&& decision is Ok <==> {
                &&& bot_address != no_key()
                &&& jupiter_router != no_key()
                &&& initial_mints.len() <= 64
                &&& count == 3 * normalized(initial_mints).len()
            }
            &&& decision matches Err(failure) ==> first_fault(
                seq![
                    (bot_address != no_key(), refused(VaultError::InvalidInput)),
                    (jupiter_router != no_key(), refused(VaultError::InvalidRouter)),
                    (initial_mints.len() <= 64, refused(VaultError::TooManyTokens)),
                    (
                        count == 3 * normalized(initial_mints).len(),
                        refused(VaultError::BadAccount),
                    ),
                ],
            ) == Some(failure)
        },
        decision matches Ok(done) ==> {
            &&& done.vault.owner == ctx.owner.pubkey
            &&& done.vault.bot_address == bot_address
            &&& done.vault.jupiter_router == jupiter_router
            &&& authority == Some((ctx.vault_authority, done.vault.authority_bump))
            &&& done.vault.allowed_mints@ == normalized(initial_mints)
            &&& done.statuses@.len() == normalized(initial_mints).len()
            &&& forall|i: int|
                0 <= i < done.statuses@.len() ==> {
                    &&& (#[trigger] done.statuses@[i]).mint == normalized(initial_mints)[i]
                    &&& done.statuses@[i].allowed
                }
            &&& done.bot.old_bot == no_key()
            &&& done.bot.new_bot == bot_address
            &&& done.router.jupiter_router == jupiter_router
            &&& done.atas.payer == ctx.owner.pubkey
            &&& done.atas.vault_authority == ctx.vault_authority
            &&& done.atas.system_program == ctx.system_program.key
            &&& done.atas.associated_token_program == ctx.associated_token_program.key
            &&& done.atas.mints@ == normalized(initial_mints)
        },
{
    reveal_with_fuel(fault_from, 6);
    if decision is Ok {
        let done = decision->Ok_0;
        assert(done.vault@.owner == ctx.owner.pubkey);
        assert(done.vault@.bot_address == bot_address);
        assert(done.vault@.jupiter_router == jupiter_router);
        assert(done.vault@.authority_bump == authority.unwrap().1);
        assert(done.vault@.allowed_mints == normalized(initial_mints));
        assert(done.atas@.payer == ctx.owner.pubkey);
        assert(done.atas@.vault_authority == ctx.vault_authority);
        assert(done.atas@.mints == normalized(initial_mints));
    }
}

/// A vault is created at the address found for its owner, with the authority found for
/// that address.
pub proof fn law_creation_finds_its_addresses(
    decision: Result<Initialized, Failure>,
    ctx: InitializeVault,
    count: nat,
    bot_address: Pubkey,
    jupiter_router: Pubkey,
    initial_mints: Seq<Pubkey>,
)
    requires
        initialize_outcome(decision, ctx, count, bot_address, jupiter_router, initial_mints),
    ensures
        initialize_decision(
            decision,
            ctx,
            count,
            bot_address,
            jupiter_router,
            initial_mints,
            derived(seq![VAULT_LABEL@, ctx.owner.pubkey@]),
            derived(seq![AUTHORITY_LABEL@, ctx.vault.pubkey@]),
        ),
{
}

/// The token accounts of a plan are created one by one, each exactly when the three
/// accounts for it are the mint, the account derived for it, and the token program that
/// owns the mint; there is nothing to create after the last.
pub proof fn law_token_account_creation_is_answered(
    plan: AtaPlanView,
    accounts: Seq<AccountInfo>,
    index: int,
    expected: Option<Pubkey>,
)
    requires
        0 <= index,
        plan.mints.len() <= usize::MAX,
    ensures
        ({
            let decision = plan.step(accounts, index, expected);
            let mint = accounts[index * 3];
            let ata = accounts[index * 3 + 1];
            let token_program = accounts[index * 3 + 2];
            &&& accounts.len() != plan.mints.len() * 3 ==> decision == Err::<
                Option<CreateAta>,
                Failure,
            >(refused(VaultError::BadAccount))
            &&& accounts.len() == plan.mints.len() * 3 && index >= plan.mints.len() ==> decision
                == Ok::<Option<CreateAta>, Failure>(None)
            &&& accounts.len() == plan.mints.len() * 3 && index < plan.mints.len() ==> {
                &&& decision is Ok <==> {
                    &&& mint.key == plan.mints[index]
                    &&& mint.owner == token_program.key
                    &&& is_token_program(token_program.key)
                    &&& expected == Some(ata.key)
                }
                &&& decision matches Ok(create) ==> create == Some(
                    CreateAta {
                        index: index as usize,
                        payer: plan.payer,
                        associated_token: ata.key,
                        authority: plan.vault_authority,
                        mint: plan.mints[index],
                        system_program: plan.system_program,
                        token_program: token_program.key,
                        associated_token_program: plan.associated_token_program,
                    },
                )
                &&& decision matches Err(failure) ==> first_fault(
                    seq![
                        (mint.key == plan.mints[index], refused(VaultError::BadAccount)),
                        (mint.owner == token_program.key, refused(VaultError::BadAccount)),
                        (is_token_program(token_program.key), refused(VaultError::BadAccount)),
                        (expected is Some, Failure::NoAddress),
                        (expected == Some(ata.key), refused(VaultError::BadAccount)),
                    ],
                ) == Some(failure)
            }
        }),
{
    reveal_with_fuel(fault_from, 7);
}

/// Each token account of a plan is looked for where the plan's authority holds that
/// token under the token program that comes with it.
pub proof fn law_token_account_creation_derives_its_address(
    plan: AtaPlanView,
    accounts: Seq<AccountInfo>,
    index: int,
)
    ensures
        plan.outcome(accounts, index) == plan.step(
            accounts,
            index,
            associated_address(
                plan.vault_authority,
                plan.mints[index],
                accounts[index * 3 + 2].key,
                plan.associated_token_program,
            ),
        ),
{
}

// Reading a vault.

/// Every vault of this program tells which tokens it trades, how many, and whether a
/// given one is among them.
pub proof fn law_questions_are_answered(
    ctx: ReadVault,
    tokens: Result<Vec<Pubkey>, Failure>,
    allowed: Result<bool, Failure>,
    length: Result<u32, Failure>,
    mint: Pubkey,
)
    requires
        ctx.vault.data@.wf(),
        allowed_tokens_outcome(tokens, ctx),
        is_allowed_outcome(allowed, ctx, mint),
        length_outcome(length, ctx),
    ensures
        tokens is Ok <==> ctx.vault.program.bytes == PROGRAM_ID,
        allowed is Ok <==> ctx.vault.program.bytes == PROGRAM_ID,
        length is Ok <==> ctx.vault.program.bytes == PROGRAM_ID,
        tokens matches Ok(list) ==> {
            &&& list@ == ctx.vault.data.allowed_mints@
            &&& allowed == Ok::<bool, Failure>(
                exists|i: int| 0 <= i < list@.len() && list@[i] == mint,
            )
            &&& length matches Ok(count) && count == list@.len()
        },
        tokens matches Err(failure) ==> {
            &&& ctx.constraint_failure() == Some(failure)
            &&& allowed == Err::<bool, Failure>(failure)
            &&& length == Err::<u32, Failure>(failure)
        },
{
}

// Putting tokens on the list.

/// A token is put on the list exactly when it is not the zero address, is not listed,
/// finds fewer than sixty-four listed, and comes with its mint, the token account
/// derived for it and the token program that owns the mint. The list then ends in it,
/// and nothing else of the vault changes; a refusal changes nothing.
pub proof fn law_adding_is_answered(
    decision: Result<TokenAdded, Failure>,
    before: AddToken,
    after: AddToken,
    accounts: Seq<AccountInfo>,
    mint: Pubkey,
    authority: Option<Pubkey>,
    expected: Option<Pubkey>,
)
    requires
        add_decision(decision, before, after, accounts, mint, authority, expected),
    ensures
        before.constraint_failure(authority) matches Some(failure) ==> decision == Err::<
            TokenAdded,
            Failure,
        >(failure),
        before.constraint_failure(authority) is None ==> {
            &&& decision is Ok <==> {
                &&& mint != no_key()
                &&& !before.vault.data.allowed_mints@.contains(mint)
                &&& before.vault.data.allowed_mints@.len() < 64
                &&& accounts.len() == 3
                &&& accounts[0].key == mint
                &&& accounts[0].owner == accounts[2].key
                &&& is_token_program(accounts[2].key)
                &&& expected == Some(accounts[1].key)
            }
            &&& decision matches Err(failure) ==> first_fault(
                seq![
                    (mint != no_key(), refused(VaultError::InvalidToken)),
                    (
                        !before.vault.data.allowed_mints@.contains(mint),
                        refused(VaultError::TokenAlreadyAllowed),
                    ),
                    (
                        before.vault.data.allowed_mints@.len() < 64,
                        refused(VaultError::TooManyTokens),
                    ),
                    (accounts.len() == 3, refused(VaultError::BadAccount)),
                    (accounts[0].key == mint, refused(VaultError::BadAccount)),
                    (accounts[0].owner == accounts[2].key, refused(VaultError::BadAccount)),
                    (is_token_program(accounts[2].key), refused(VaultError::BadAccount)),
                    (expected is Some, Failure::NoAddress),
                    (expected == Some(accounts[1].key), refused(VaultError::BadAccount)),
                ],
            ) == Some(failure)
        },
        decision is Err ==> after == before,
        decision matches Ok(done) ==> {
            &&& after.vault.data.allowed_mints@ == before.vault.data.allowed_mints@.push(mint)
            &&& after.vault.data.owner == before.vault.data.owner
            &&& after.vault.data.bot_address == before.vault.data.bot_address
            &&& after.vault.data.jupiter_router == before.vault.data.jupiter_router
            &&& after.vault.data.authority_bump == before.vault.data.authority_bump
            &&& after == (AddToken {
                vault: (Account { data: after.vault.data, ..before.vault }),
                ..before
            })
            &&& done.status.mint == mint
            &&& done.status.allowed
            &&& done.create.index == 0
            &&& done.create.payer == before.owner.pubkey
            &&& done.create.associated_token == accounts[1].key
            &&& done.create.authority == before.vault_authority
            &&& done.create.mint == mint
            &&& done.create.system_program == before.system_program.key
            &&& done.create.token_program == accounts[2].key
            &&& done.create.associated_token_program == before.associated_token_program.key
        },
{
    reveal_with_fuel(fault_from, 11);
    let plan = add_plan(before, mint);
    assert(plan.mints.len() == 1 && plan.mints[0] == mint);
    if decision is Ok {
        assert(after.vault.data@.allowed_mints == before.vault.data@.allowed_mints.push(mint));
        assert(after.vault.data@.owner == before.vault.data@.owner);
        assert(after.vault.data@.bot_address == before.vault.data@.bot_address);
        assert(after.vault.data@.jupiter_router == before.vault.data@.jupiter_router);
        assert(after.vault.data@.authority_bump == before.vault.data@.authority_bump);
    }
}

/// A token that the vault's state permits is put on the list when the accounts fit: the
/// mint, the account where the vault's authority holds it, and the token program that
/// owns it. Any room on the list will do.
pub proof fn law_permitted_tokens_are_added(
    decision: Result<TokenAdded, Failure>,
    before: AddToken,
    after: AddToken,
    accounts: Seq<AccountInfo>,
    mint: Pubkey,
)
    requires
        add_outcome(decision, before, after, accounts, mint),
        before.constraint_failure(
            authority_of(before.vault.key, before.vault.data.authority_bump),
        ) is None,
    ensures
        decision is Ok <==> {
            &&& Change::AddToken(mint).permitted(before.vault.data@)
            &&& accounts.len() == 3
            &&& accounts[0].key == mint
            &&& accounts[0].owner == accounts[2].key
            &&& is_token_program(accounts[2].key)
            &&& vault_ata(before.vault_authority, mint, accounts[2].key) == Some(accounts[1].key)
        },
        decision is Ok ==> after.vault.data@ == Change::AddToken(mint).applied(before.vault.data@),
{
    let plan = add_plan(before, mint);
    assert(plan.mints.len() == 1 && plan.mints[0] == mint);
}

/// A request to add a token is decided by the addresses that are derived for the vault's
/// tokens and for the account of that token.
pub proof fn law_adding_derives_its_addresses(
    decision: Result<TokenAdded, Failure>,
    before: AddToken,
    after: AddToken,
    accounts: Seq<AccountInfo>,
    mint: Pubkey,
)
    requires
        add_outcome(decision, before, after, accounts, mint),
    ensures
        add_decision(
            decision,
            before,
            after,
            accounts,
            mint,
            authority_of(before.vault.key, before.vault.data.authority_bump),
            associated_address(
                before.vault_authority,
                mint,
                accounts[2].key,
                before.associated_token_program.key,
            ),
        ),
{
    assert(add_plan(before, mint).mints[0] == mint);
}

// Taking tokens off the list.

/// A token is taken off the list exactly when it is listed and its mint and the vault's
/// empty account for it come along. The account is then closed to the owner; a refusal
/// changes nothing.
pub proof fn law_removing_is_answered(
    decision: Result<TokenRemoved, Failure>,
    before: RemoveToken,
    after: RemoveToken,
    mint: Pubkey,
    authority: Option<Pubkey>,
    expected: Option<Pubkey>,
)
    requires
        remove_decision(decision, before, after, mint, authority, expected),
    ensures
        before.constraint_failure(authority) matches Some(failure) ==> decision == Err::<
            TokenRemoved,
            Failure,
        >(failure),
        before.constraint_failure(authority) is None ==> {
            let token = before.vault_token_account;
            &&& decision is Ok <==> {
                &&& mint != no_key()
                &&& before.vault.data.allowed_mints@.contains(mint)
                &&& before.mint.key == mint
                &&& token.data.owner == before.vault_authority
                &&& token.data.mint == mint
                &&& token.data.amount == 0
                &&& token.program == before.token_program.key
                &&& before.mint.program == before.token_program.key
                &&& expected == Some(token.key)
            }
            &&& decision matches Err(failure) ==> first_fault(
                seq![
                    (mint != no_key(), refused(VaultError::InvalidToken)),
                    (
                        before.vault.data.allowed_mints@.contains(mint),
                        refused(VaultError::TokenNotAllowed),
                    ),
                    (before.mint.key == mint, refused(VaultError::BadAccount)),
                    (token.data.owner == before.vault_authority, refused(VaultError::BadAccount)),
                    (token.data.mint == mint, refused(VaultError::BadAccount)),
                    (token.data.amount == 0, refused(VaultError::TokenAccountNotEmpty)),
                    (token.program == before.token_program.key, refused(VaultError::BadAccount)),
                    (
                        before.mint.program == before.token_program.key,
                        refused(VaultError::BadAccount),
                    ),
                    (expected is Some, Failure::NoAddress),
                    (expected == Some(token.key), refused(VaultError::BadAccount)),
                ],
            ) == Some(failure)
        },
        decision is Err ==> after == before,
        decision matches Ok(done) ==> {
            &&& after.vault.data.allowed_mints@ == without(before.vault.data.allowed_mints@, mint)
            &&& after.vault.data.owner == before.vault.data.owner
            &&& after.vault.data.bot_address == before.vault.data.bot_address
            &&& after.vault.data.jupiter_router == before.vault.data.jupiter_router
            &&& after.vault.data.authority_bump == before.vault.data.authority_bump
            &&& after == (RemoveToken {
                vault: (Account { data: after.vault.data, ..before.vault }),
                ..before
            })
            &&& done.close.token_program == before.token_program.key
            &&& done.close.account == before.vault_token_account.key
            &&& done.close.destination == before.owner.pubkey
            &&& done.close.authority == before.vault_authority
            &&& seed_bytes(done.close.signer_seeds@) == seq![
                AUTHORITY_LABEL@,
                before.vault.key@,
                seq![before.vault.data.authority_bump],
            ]
            &&& done.closed.token_account == before.vault_token_account.key
            &&& done.closed.mint == mint
            &&& done.closed.to == before.vault.data.owner
            &&& done.status.mint == mint
            &&& !done.status.allowed
        },
{
    reveal_with_fuel(fault_from, 12);
    law_addresses_of_a_vault(
        before.vault.data.owner,
        before.vault.key,
        before.vault.data.authority_bump,
    );
    if decision is Ok {
        assert(after.vault.data@.allowed_mints == without(before.vault.data@.allowed_mints, mint));
        assert(after.vault.data@.owner == before.vault.data@.owner);
        assert(after.vault.data@.bot_address == before.vault.data@.bot_address);
        assert(after.vault.data@.jupiter_router == before.vault.data@.jupiter_router);
        assert(after.vault.data@.authority_bump == before.vault.data@.authority_bump);
    }
}

/// A request to remove a token is decided by the addresses that are derived for the
/// vault's tokens and for its account of that token.
pub proof fn law_removing_derives_its_addresses(
    decision: Result<TokenRemoved, Failure>,
    before: RemoveToken,
    after: RemoveToken,
    mint: Pubkey,
)
    requires
        remove_outcome(decision, before, after, mint),
    ensures
        remove_decision(
            decision,
            before,
            after,
            mint,
            authority_of(before.vault.key, before.vault.data.authority_bump),
            vault_ata(before.vault_authority, mint, before.token_program.key),
        ),
{
}

// Naming a bot or a router.

/// Another bot is named exactly when it is not the zero address; only the bot changes.
pub proof fn law_naming_a_bot_is_answered(
    decision: Result<BotAddressUpdated, Failure>,
    before: OwnerOnly,
    after: OwnerOnly,
    new_bot: Pubkey,
)
    requires
        set_bot_decision(decision, before, after, new_bot),
    ensures
        before.constraint_failure() matches Some(failure) ==> decision == Err::<
            BotAddressUpdated,
            Failure,
        >(failure),
        before.constraint_failure() is None ==> {
            &&& decision is Ok <==> new_bot != no_key()
            &&& decision matches Err(failure) ==> failure == refused(VaultError::InvalidInput)
        },
        decision is Err ==> after == before,
        decision matches Ok(event) ==> {
            &&& after.vault.data.bot_address == new_bot
            &&& after.vault.data.owner == before.vault.data.owner
            &&& after.vault.data.jupiter_router == before.vault.data.jupiter_router
            &&& after.vault.data.authority_bump == before.vault.data.authority_bump
            &&& after.vault.data.allowed_mints@ == before.vault.data.allowed_mints@
            &&& after == (OwnerOnly {
                vault: (Account { data: after.vault.data, ..before.vault }),
                ..before
            })
            &&& event.old_bot == before.vault.data.bot_address
            &&& event.new_bot == new_bot
        },
{
    if decision is Ok {
        assert(after.vault.data@.bot_address == new_bot);
        assert(after.vault.data@.owner == before.vault.data@.owner);
        assert(after.vault.data@.jupiter_router == before.vault.data@.jupiter_router);
        assert(after.vault.data@.authority_bump == before.vault.data@.authority_bump);
        assert(after.vault.data@.allowed_mints == before.vault.data@.allowed_mints);
    }
}

/// Another router is named exactly when it is not the zero address; only the router
/// changes.
pub proof fn law_naming_a_router_is_answered(
    decision: Result<RouterUpdated, Failure>,
    before: OwnerOnly,
    after: OwnerOnly,
    new_jupiter_router: Pubkey,
)
    requires
        set_router_decision(decision, before, after, new_jupiter_router),
    ensures
        before.constraint_failure() matches Some(failure) ==> decision == Err::<
            RouterUpdated,
            Failure,
        >(failure),
        before.constraint_failure() is None ==> {
            &&& decision is Ok <==> new_jupiter_router != no_key()
            &&& decision matches Err(failure) ==> failure == refused(VaultError::InvalidRouter)
        },
        decision is Err ==> after == before,
        decision matches Ok(event) ==> {
            &&& after.vault.data.jupiter_router == new_jupiter_router
            &&& after.vault.data.owner == before.vault.data.owner
            &&& after.vault.data.bot_address == before.vault.data.bot_address
            &&& after.vault.data.authority_bump == before.vault.data.authority_bump
            &&& after.vault.data.allowed_mints@ == before.vault.data.allowed_mints@
            &&& after == (OwnerOnly {
                vault: (Account { data: after.vault.data, ..before.vault }),
                ..before
            })
            &&& event.jupiter_router == new_jupiter_router
        },
{
    if decision is Ok {
        assert(after.vault.data@.jupiter_router == new_jupiter_router);
        assert(after.vault.data@.owner == before.vault.data@.owner);
        assert(after.vault.data@.bot_address == before.vault.data@.bot_address);
        assert(after.vault.data@.authority_bump == before.vault.data@.authority_bump);
        assert(after.vault.data@.allowed_mints == before.vault.data@.allowed_mints);
    }
}

// Closing a vault.

/// A vault is closed, to its owner, exactly when it trades no token.
pub proof fn law_closing_the_vault_is_answered(
    decision: Result<VaultClosed, Failure>,
    ctx: CloseVaultAccount,
)
    requires
        close_vault_decision(decision, ctx),
    ensures
        ctx.constraint_failure() matches Some(failure) ==> decision == Err::<VaultClosed, Failure>(
            failure,
        ),
        ctx.constraint_failure() is None ==> {
            &&& decision is Ok <==> ctx.vault.data.allowed_mints@ == Seq::<Pubkey>::empty()
            &&& decision matches Err(failure) ==> failure == refused(
                VaultError::VaultNotReadyToClose,
            )
        },
        decision matches Ok(closed) ==> {
            &&& closed.vault == ctx.vault.key
            &&& closed.destination == ctx.owner.pubkey
        },
{
    assert(ctx.vault.data.allowed_mints@.len() == 0 ==> ctx.vault.data.allowed_mints@
        =~= Seq::<Pubkey>::empty());
}

// Trading.

/// An account matters to the router's accounts exactly when the router could write to
/// it, a token program owns it, and it is neither of the two that are traded.
pub proof fn law_exposed_accounts(account: AccountInfo, token_in: Pubkey, token_out: Pubkey)
    ensures
        is_exposed(account, token_in, token_out) <==> {
            &&& account.is_writable
            &&& is_token_program(account.owner)
            &&& account.key != token_in
            &&& account.key != token_out
        },
        exposed_token(account, token_in, token_out) == if is_exposed(account, token_in, token_out)
            && token_account_in(account) is Ok {
            Some(token_account_in(account)->Ok_0)
        } else {
            None
        },
{
}

/// The exposed token accounts are read each at its place.
pub proof fn law_exposed_accounts_are_read_in_place(
    accounts: Seq<AccountInfo>,
    token_in: Pubkey,
    token_out: Pubkey,
    i: int,
)
    requires
        0 <= i < accounts.len(),
    ensures
        exposed_tokens(accounts, token_in, token_out).len() == accounts.len(),
        exposed_tokens(accounts, token_in, token_out)[i] == exposed_token(
            accounts[i],
            token_in,
            token_out,
        ),
{
}

/// The router may be handed accounts exactly when the vault's authority, the two token
/// accounts, writable, and their token programs are among them, and no other writable
/// token account is known to be the vault's.
pub proof fn law_router_accounts_are_judged(
    accounts: Seq<AccountInfo>,
    tokens: Seq<Option<TokenAccount>>,
    vault_authority: Pubkey,
    token_in: Pubkey,
    token_out: Pubkey,
    program_in: Pubkey,
    program_out: Pubkey,
)
    ensures
        trade_accounts_fit(
            accounts,
            tokens,
            vault_authority,
            token_in,
            token_out,
            program_in,
            program_out,
        ) <==> {
            &&& exists|i: int|
                0 <= i < accounts.len() && (#[trigger] accounts[i]).key == vault_authority
            &&& exists|i: int|
                0 <= i < accounts.len() && (#[trigger] accounts[i]).key == token_in
                    && accounts[i].is_writable
            &&& exists|i: int|
                0 <= i < accounts.len() && (#[trigger] accounts[i]).key == token_out
                    && accounts[i].is_writable
            &&& exists|i: int| 0 <= i < accounts.len() && (#[trigger] accounts[i]).key == program_in
            &&& exists|i: int|
                0 <= i < accounts.len() && (#[trigger] accounts[i]).key == program_out
            &&& forall|i: int|
                0 <= i < accounts.len() && (#[trigger] accounts[i]).is_writable && is_token_program(
                    accounts[i].owner,
                ) && i < tokens.len() && tokens[i] is Some && tokens[i].unwrap().owner == vault_authority
                    ==> accounts[i].key == token_in || accounts[i].key == token_out
        },
{
    if trade_accounts_fit(
        accounts,
        tokens,
        vault_authority,
        token_in,
        token_out,
        program_in,
        program_out,
    ) {
        assert forall|i: int|
            0 <= i < accounts.len() && (#[trigger] accounts[i]).is_writable && is_token_program(
                accounts[i].owner,
            ) && i < tokens.len() && tokens[i] is Some && tokens[i].unwrap().owner == vault_authority implies
            accounts[i].key == token_in || accounts[i].key == token_out by {
            assert(!exposes_vault(accounts, tokens, vault_authority, token_in, token_out, i));
        }
    }
}

/// The accounts for the router pass exactly when they hold what it needs, and no writable
/// account that reads as a token account of the vault but the two that are traded.
/// Otherwise they are bad accounts.
pub proof fn law_router_accounts_pass(
    accounts: Seq<AccountInfo>,
    vault_authority: Pubkey,
    token_in: Pubkey,
    token_out: Pubkey,
    program_in: Pubkey,
    program_out: Pubkey,
)
    ensures
        ({
            let verdict = trade_accounts_verdict(
                accounts,
                vault_authority,
                token_in,
                token_out,
                program_in,
                program_out,
            );
            &&& verdict is Ok <==> {
                &&& exists|i: int|
                    0 <= i < accounts.len() && (#[trigger] accounts[i]).key == vault_authority
                &&& exists|i: int|
                    0 <= i < accounts.len() && (#[trigger] accounts[i]).key == token_in
                        && accounts[i].is_writable
                &&& exists|i: int|
                    0 <= i < accounts.len() && (#[trigger] accounts[i]).key == token_out
                        && accounts[i].is_writable
                &&& exists|i: int|
                    0 <= i < accounts.len() && (#[trigger] accounts[i]).key == program_in
                &&& exists|i: int|
                    0 <= i < accounts.len() && (#[trigger] accounts[i]).key == program_out
                &&& forall|i: int|
                    0 <= i < accounts.len() && (#[trigger] accounts[i]).is_writable
                        && token_account_in(accounts[i]) is Ok && token_account_in(
                        accounts[i],
                    )->Ok_0.owner == vault_authority ==> accounts[i].key == token_in
                        || accounts[i].key == token_out
            }
            &&& verdict matches Err(failure) ==> failure == refused(VaultError::BadAccount)
        }),
{
    let tokens = exposed_tokens(accounts, token_in, token_out);
    law_router_accounts_are_judged(
        accounts,
        tokens,
        vault_authority,
        token_in,
        token_out,
        program_in,
        program_out,
    );
    assert forall|i: int| 0 <= i < accounts.len() implies #[trigger] tokens[i] == exposed_token(
        accounts[i],
        token_in,
        token_out,
    ) by {}
    assert forall|i: int| 0 <= i < accounts.len() && token_account_in(#[trigger] accounts[i]) is Ok
        implies is_token_program(accounts[i].owner) by {}
    if forall|i: int|
        0 <= i < accounts.len() && (#[trigger] accounts[i]).is_writable && is_token_program(
            accounts[i].owner,
        ) && i < tokens.len() && tokens[i] is Some && tokens[i].unwrap().owner == vault_authority ==> accounts[i].key
            == token_in || accounts[i].key == token_out {
        assert forall|i: int|
            0 <= i < accounts.len() && (#[trigger] accounts[i]).is_writable && token_account_in(
                accounts[i],
            ) is Ok && token_account_in(accounts[i])->Ok_0.owner == vault_authority implies
            accounts[i].key == token_in || accounts[i].key == token_out by {
            assert(tokens[i] == exposed_token(accounts[i], token_in, token_out));
        }
    }
}

/// The router is handed each account as the request has it, except that the vault's
/// authority signs, wherever it stands, and nobody else does.
pub proof fn law_router_accounts_are_handed_on(
    accounts: Seq<AccountInfo>,
    vault_authority: Pubkey,
    i: int,
)
    requires
        0 <= i < accounts.len(),
    ensures
        trade_metas(accounts, vault_authority).len() == accounts.len(),
        trade_metas(accounts, vault_authority)[i] == (AccountMeta {
            pubkey: accounts[i].key,
            is_signer: accounts[i].key == vault_authority,
            is_writable: accounts[i].is_writable,
        }),
{
}

/// A trade goes ahead exactly when its order and its accounts are in order; nothing is
/// asked of the two amounts but that both are positive and the vault has what may be
/// spent. The router then gets the data and the accounts of the request, and the vault
/// program signs.
pub proof fn law_trading_is_answered(
    decision: Result<TradePlan, Failure>,
    ctx: Trade,
    remaining: Seq<AccountInfo>,
    order: TradeOrder,
    authority: Option<Pubkey>,
    ata_in: Option<Pubkey>,
    ata_out: Option<Pubkey>,
    tokens: Seq<Option<TokenAccount>>,
)
    requires
        trade_decision(decision, ctx, remaining, order, authority, ata_in, ata_out, tokens),
    ensures
        ctx.constraint_failure(authority) matches Some(failure) ==> decision == Err::<
            TradePlan,
            Failure,
        >(failure),
        ctx.constraint_failure(authority) is None ==> {
            &&& decision is Ok <==> {
                &&& order.jupiter_ix_data_len <= 128
                &&& ctx.caller.pubkey == ctx.vault.data.owner || ctx.caller.pubkey
                    == ctx.vault.data.bot_address
                &&& order.amount_in > 0
                &&& order.min_amount_out > 0
                &&& order.token_in_mint != no_key()
                &&& order.token_out_mint != no_key()
                &&& order.token_in_mint != order.token_out_mint
                &&& ctx.vault.data.allowed_mints@.contains(order.token_in_mint)
                &&& ctx.vault.data.allowed_mints@.contains(order.token_out_mint)
                &&& ctx.jupiter_program == ctx.vault.data.jupiter_router
                &&& ctx.vault_token_in.data.owner == ctx.vault_authority
                &&& ctx.vault_token_out.data.owner == ctx.vault_authority
                &&& ctx.vault_token_in.data.mint == order.token_in_mint
                &&& ctx.vault_token_out.data.mint == order.token_out_mint
                &&& ctx.vault_token_in.program == ctx.token_program_in.key
                &&& ctx.vault_token_out.program == ctx.token_program_out.key
                &&& ata_in == Some(ctx.vault_token_in.key)
                &&& ata_out == Some(ctx.vault_token_out.key)
                &&& ctx.vault_token_in.data.amount >= order.amount_in
                &&& remaining.len() > 0
                &&& remaining[remaining.len() - 1].key == ctx.jupiter_program
                &&& trade_accounts_fit(
                    remaining.drop_last(),
                    tokens,
                    ctx.vault_authority,
                    ctx.vault_token_in.key,
                    ctx.vault_token_out.key,
                    ctx.token_program_in.key,
                    ctx.token_program_out.key,
                )
            }
        },
        decision matches Ok(plan) ==> {
            &&& plan.instruction.program_id == ctx.vault.data.jupiter_router
            &&& plan.instruction.accounts@ == trade_metas(
                remaining.drop_last(),
                ctx.vault_authority,
            )
            &&& plan.instruction.data@.len() == order.jupiter_ix_data_len
            &&& forall|i: int|
                0 <= i < plan.instruction.data@.len() ==> #[trigger] plan.instruction.data@[i]
                    == order.jupiter_ix_data[i]
            &&& seed_bytes(plan.signer_seeds@) == seq![
                AUTHORITY_LABEL@,
                ctx.vault.key@,
                seq![ctx.vault.data.authority_bump],
            ]
            &&& plan.token_in == order.token_in_mint
            &&& plan.token_out == order.token_out_mint
            &&& plan.amount_in == order.amount_in
            &&& plan.min_amount_out == order.min_amount_out
            &&& plan.token_in_before == ctx.vault_token_in.data.amount
            &&& plan.token_out_before == ctx.vault_token_out.data.amount
        },
{
    law_addresses_of_a_vault(ctx.vault.data.owner, ctx.vault.key, ctx.vault.data.authority_bump);
}

/// A trade whose order is not in order is refused for the first fault of the order.
pub proof fn law_orders_are_refused_for_their_first_fault(
    decision: Result<TradePlan, Failure>,
    ctx: Trade,
    remaining: Seq<AccountInfo>,
    order: TradeOrder,
    authority: Option<Pubkey>,
    ata_in: Option<Pubkey>,
    ata_out: Option<Pubkey>,
    tokens: Seq<Option<TokenAccount>>,
)
    requires
        trade_decision(decision, ctx, remaining, order, authority, ata_in, ata_out, tokens),
        ctx.constraint_failure(authority) is None,
    ensures
        first_fault(
            seq![
                (order.jupiter_ix_data_len <= 128, refused(VaultError::InvalidInput)),
                (
                    ctx.caller.pubkey == ctx.vault.data.owner || ctx.caller.pubkey
                        == ctx.vault.data.bot_address,
                    refused(VaultError::Unauthorized),
                ),
                (order.amount_in > 0, refused(VaultError::InvalidInput)),
                (order.min_amount_out > 0, refused(VaultError::InvalidInput)),
                (order.token_in_mint != no_key(), refused(VaultError::InvalidToken)),
                (order.token_out_mint != no_key(), refused(VaultError::InvalidToken)),
                (
                    order.token_in_mint != order.token_out_mint,
                    refused(VaultError::InvalidToken),
                ),
                (
                    ctx.vault.data.allowed_mints@.contains(order.token_in_mint),
                    refused(VaultError::TokenNotAllowed),
                ),
                (
                    ctx.vault.data.allowed_mints@.contains(order.token_out_mint),
                    refused(VaultError::TokenNotAllowed),
                ),
                (
                    ctx.jupiter_program == ctx.vault.data.jupiter_router,
                    refused(VaultError::InvalidRouter),
                ),
            ],
        ) matches Some(fault) ==> decision == Err::<TradePlan, Failure>(fault),
{
    reveal_with_fuel(fault_from, 12);
}

/// A trade whose order is in order is refused for the first fault of its accounts; where
/// there is none among these, the accounts are not fit to be handed to the router.
pub proof fn law_trade_accounts_are_refused_for_their_first_fault(
    decision: Result<TradePlan, Failure>,
    ctx: Trade,
    remaining: Seq<AccountInfo>,
    order: TradeOrder,
    authority: Option<Pubkey>,
    ata_in: Option<Pubkey>,
    ata_out: Option<Pubkey>,
    tokens: Seq<Option<TokenAccount>>,
)
    requires
        trade_decision(decision, ctx, remaining, order, authority, ata_in, ata_out, tokens),
        ctx.constraint_failure(authority) is None,
        order.jupiter_ix_data_len <= 128,
        ctx.caller.pubkey == ctx.vault.data.owner || ctx.caller.pubkey
            == ctx.vault.data.bot_address,
        order.amount_in > 0,
        order.min_amount_out > 0,
        order.token_in_mint != no_key(),
        order.token_out_mint != no_key(),
        order.token_in_mint != order.token_out_mint,
        ctx.vault.data.allowed_mints@.contains(order.token_in_mint),
        ctx.vault.data.allowed_mints@.contains(order.token_out_mint),
        ctx.jupiter_program == ctx.vault.data.jupiter_router,
    ensures
        decision matches Err(failure) ==> failure == match first_fault(
            seq![
                (
                    ctx.vault_token_in.data.owner == ctx.vault_authority
                        && ctx.vault_token_out.data.owner == ctx.vault_authority
                        && ctx.vault_token_in.data.mint == order.token_in_mint
                        && ctx.vault_token_out.data.mint == order.token_out_mint
                        && ctx.vault_token_in.program == ctx.token_program_in.key
                        && ctx.vault_token_out.program == ctx.token_program_out.key,
                    refused(VaultError::BadAccount),
                ),
                (ata_in is Some, Failure::NoAddress),
                (ata_in == Some(ctx.vault_token_in.key), refused(VaultError::BadAccount)),
                (ata_out is Some, Failure::NoAddress),
                (ata_out == Some(ctx.vault_token_out.key), refused(VaultError::BadAccount)),
                (
                    ctx.vault_token_in.data.amount >= order.amount_in,
                    refused(VaultError::InsufficientBalance),
                ),
                (remaining.len() > 0, refused(VaultError::BadAccount)),
                (
                    remaining[remaining.len() - 1].key == ctx.jupiter_program,
                    refused(VaultError::InvalidRouter),
                ),
            ],
        ) {
            Some(fault) => fault,
            None => refused(VaultError::BadAccount),
        },
{
    reveal_with_fuel(fault_from, 10);
}

/// The owner and the bot trade any two listed tokens, for any positive amounts that the
/// vault can pay, whenever the accounts are those of the vault and the router's are fit
/// to be handed on.
pub proof fn law_trades_in_order_go_ahead(
    decision: Result<TradePlan, Failure>,
    ctx: Trade,
    remaining: Seq<AccountInfo>,
    order: TradeOrder,
)
    requires
        trade_outcome(decision, ctx, remaining, order),
        ctx.constraint_failure(
            authority_of(ctx.vault.key, ctx.vault.data.authority_bump),
        ) is None,
    ensures
        decision is Ok <==> {
            let handed = remaining.drop_last();
            &&& order.jupiter_ix_data_len <= 128
            &&& ctx.caller.pubkey == ctx.vault.data.owner || ctx.caller.pubkey
                == ctx.vault.data.bot_address
            &&& order.amount_in > 0
            &&& order.min_amount_out > 0
            &&& order.token_in_mint != no_key()
            &&& order.token_out_mint != no_key()
            &&& order.token_in_mint != order.token_out_mint
            &&& ctx.vault.data.allowed_mints@.contains(order.token_in_mint)
            &&& ctx.vault.data.allowed_mints@.contains(order.token_out_mint)
            &&& ctx.jupiter_program == ctx.vault.data.jupiter_router
            &&& ctx.vault_token_in.data.owner == ctx.vault_authority
            &&& ctx.vault_token_out.data.owner == ctx.vault_authority
            &&& ctx.vault_token_in.data.mint == order.token_in_mint
            &&& ctx.vault_token_out.data.mint == order.token_out_mint
            &&& ctx.vault_token_in.program == ctx.token_program_in.key
            &&& ctx.vault_token_out.program == ctx.token_program_out.key
            &&& vault_ata(ctx.vault_authority, order.token_in_mint, ctx.token_program_in.key)
                == Some(ctx.vault_token_in.key)
            &&& vault_ata(ctx.vault_authority, order.token_out_mint, ctx.token_program_out.key)
                == Some(ctx.vault_token_out.key)
            &&& ctx.vault_token_in.data.amount >= order.amount_in
            &&& remaining.len() > 0
            &&& remaining[remaining.len() - 1].key == ctx.jupiter_program
            &&& exists|i: int|
                0 <= i < handed.len() && (#[trigger] handed[i]).key == ctx.vault_authority
            &&& exists|i: int|
                0 <= i < handed.len() && (#[trigger] handed[i]).key == ctx.vault_token_in.key
                    && handed[i].is_writable
            &&& exists|i: int|
                0 <= i < handed.len() && (#[trigger] handed[i]).key == ctx.vault_token_out.key
                    && handed[i].is_writable
            &&& exists|i: int|
                0 <= i < handed.len() && (#[trigger] handed[i]).key == ctx.token_program_in.key
            &&& exists|i: int|
                0 <= i < handed.len() && (#[trigger] handed[i]).key == ctx.token_program_out.key
            &&& forall|i: int|
                0 <= i < handed.len() && (#[trigger] handed[i]).is_writable && token_account_in(
                    handed[i],
                ) is Ok && token_account_in(handed[i])->Ok_0.owner == ctx.vault_authority
                    ==> handed[i].key == ctx.vault_token_in.key || handed[i].key
                    == ctx.vault_token_out.key
        },
{
    law_router_accounts_pass(
        remaining.drop_last(),
        ctx.vault_authority,
        ctx.vault_token_in.key,
        ctx.vault_token_out.key,
        ctx.token_program_in.key,
        ctx.token_program_out.key,
    );
}

/// A request to trade is decided by the addresses that are derived for the vault's tokens
/// and for the two token accounts, and by the accounts for the router.
pub proof fn law_trading_derives_its_addresses(
    decision: Result<TradePlan, Failure>,
    ctx: Trade,
    remaining: Seq<AccountInfo>,
    order: TradeOrder,
)
    requires
        trade_outcome(decision, ctx, remaining, order),
    ensures
        trade_decision(
            decision,
            ctx,
            remaining,
            order,
            authority_of(ctx.vault.key, ctx.vault.data.authority_bump),
            vault_ata(ctx.vault_authority, order.token_in_mint, ctx.token_program_in.key),
            vault_ata(ctx.vault_authority, order.token_out_mint, ctx.token_program_out.key),
            exposed_tokens(remaining.drop_last(), ctx.vault_token_in.key, ctx.vault_token_out.key),
        ),
{
}

/// A trade is settled exactly when no more was spent than ordered and no less received;
/// what is announced is what the balances show. A vault that holds more of what it spent
/// is a matter of arithmetic, one that spent too much of balance, and any other shortfall
/// of slippage.
pub proof fn law_settling_is_answered(plan: TradePlan, token_in_after: u64, token_out_after: u64)
    ensures
        ({
            let settled = settlement(plan, token_in_after, token_out_after);
            let spent = plan.token_in_before - token_in_after;
            let received = token_out_after - plan.token_out_before;
            &&& settled is Ok <==> 0 <= spent <= plan.amount_in && received >= 0 && received
                >= plan.min_amount_out
            &&& settled matches Ok(event) ==> {
                &&& event.token_in == plan.token_in
                &&& event.token_out == plan.token_out
                &&& event.router == plan.instruction.program_id
                &&& event.amount_in == plan.amount_in
                &&& event.amount_spent == spent
                &&& event.amount_out == received
            }
            &&& settled matches Err(failure) ==> first_fault(
                seq![
                    (spent >= 0, refused(VaultError::Math)),
                    (received >= 0, refused(VaultError::Slippage)),
                    (spent <= plan.amount_in, refused(VaultError::InsufficientBalance)),
                    (received >= plan.min_amount_out, refused(VaultError::Slippage)),
                ],
            ) == Some(failure)
        }),
{
    reveal_with_fuel(fault_from, 6);
}

/// A trade is settled by the amounts in the vault's two token accounts, the one that is
/// spent first.
pub proof fn law_trades_are_settled_by_what_is_read(
    plan: TradePlan,
    token_in_data: Seq<u8>,
    token_out_data: Seq<u8>,
)
    ensures
        match (
            token_account_of(decoded_token_account(token_in_data)),
            token_account_of(decoded_token_account(token_out_data)),
        ) {
            (Ok(spent), Ok(received)) => trade_result(plan, token_in_data, token_out_data)
                == settlement(plan, spent.amount, received.amount),
            (Err(failure), _) => trade_result(plan, token_in_data, token_out_data) == Err::<
                TradeExecuted,
                Failure,
            >(failure),
            (_, Err(failure)) => trade_result(plan, token_in_data, token_out_data) == Err::<
                TradeExecuted,
                Failure,
            >(failure),
        },
{
}

// Paying everything out.

/// Everything may be paid out exactly when the owner or the bot asks, the owner of the
/// vault is named to be paid, and the accounts come in threes; however many there are.
pub proof fn law_paying_everything_out_is_answered(
    decision: Result<(), Failure>,
    ctx: WithdrawAll,
    count: nat,
    authority: Option<Pubkey>,
)
    requires
        withdraw_all_decision(decision, ctx, count, authority),
    ensures
        ctx.constraint_failure(authority) matches Some(failure) ==> decision == Err::<(), Failure>(
            failure,
        ),
        ctx.constraint_failure(authority) is None ==> {
            &&& decision is Ok <==> {
                &&& ctx.caller.pubkey == ctx.vault.data.owner || ctx.caller.pubkey
                    == ctx.vault.data.bot_address
                &&& ctx.owner.pubkey == ctx.vault.data.owner
                &&& exists|n: nat| count == #[trigger] (n * 3)
            }
            &&& decision matches Err(failure) ==> first_fault(
                seq![
                    (
                        ctx.caller.pubkey == ctx.vault.data.owner || ctx.caller.pubkey
                            == ctx.vault.data.bot_address,
                        refused(VaultError::Unauthorized),
                    ),
                    (
                        ctx.owner.pubkey == ctx.vault.data.owner,
                        refused(VaultError::Unauthorized),
                    ),
                    (count % 3 == 0, refused(VaultError::BadAccount)),
                ],
            ) == Some(failure)
        },
{
    reveal_with_fuel(fault_from, 5);
    if count % 3 == 0 {
        let n: nat = count / 3;
        assert(count == n * 3);
    }
}

/// Whether everything may be paid out is decided by the address that is derived for the
/// vault's tokens.
pub proof fn law_paying_everything_out_derives_its_address(
    decision: Result<(), Failure>,
    ctx: WithdrawAll,
    count: nat,
)
    requires
        withdraw_all_outcome(decision, ctx, count),
    ensures
        withdraw_all_decision(
            decision,
            ctx,
            count,
            authority_of(ctx.vault.key, ctx.vault.data.authority_bump),
        ),
{
}

/// A step pays whenever it can, whoever asked: three accounts that can be read are paid
/// from exactly when the first is the authority's, with some of a listed token, the second
/// the owner's for that token, the third its mint, and all three belong to the named token
/// program. All of the tokens move to the owner's account. A step fails only for an account
/// that cannot be read.
pub proof fn law_steps_pay_what_they_can(
    decision: Result<Option<WithdrawStep>, Failure>,
    ctx: WithdrawAll,
    accounts: Seq<AccountInfo>,
    cursor: int,
    facts: WithdrawFacts,
)
    requires
        0 <= cursor,
        withdraw_step_decision(decision, ctx, accounts, cursor, facts),
    ensures
        cursor + 3 > accounts.len() ==> decision == Ok::<Option<WithdrawStep>, Failure>(None),
        cursor + 3 <= accounts.len() ==> {
            &&& decision is Ok <==> facts.vault_token is Ok && facts.owner_token is Ok
                && facts.mint is Ok
            &&& facts.vault_token matches Err(failure) ==> decision == Err::<
                Option<WithdrawStep>,
                Failure,
            >(failure)
            &&& facts.vault_token is Ok ==> (facts.owner_token matches Err(failure) ==> decision
                == Err::<Option<WithdrawStep>, Failure>(failure))
            &&& facts.vault_token is Ok && facts.owner_token is Ok ==> (
            facts.mint matches Err(failure) ==> decision == Err::<Option<WithdrawStep>, Failure>(
                failure,
            ))
            &&& decision matches Ok(taken) ==> {
                let held = facts.vault_token->Ok_0;
                let owned = facts.owner_token->Ok_0;
                &&& taken matches Some(step)
                &&& step.next == cursor + 3
                &&& step.payout is Some <==> {
                    &&& held.owner == ctx.vault_authority
                    &&& held.amount > 0
                    &&& ctx.vault.data.allowed_mints@.contains(held.mint)
                    &&& owned.owner == ctx.vault.data.owner
                    &&& owned.mint == held.mint
                    &&& accounts[cursor + 2].key == held.mint
                    &&& accounts[cursor].owner == ctx.token_program.key
                    &&& accounts[cursor + 1].owner == ctx.token_program.key
                    &&& accounts[cursor + 2].owner == ctx.token_program.key
                }
                &&& step.payout matches Some(payout) ==> {
                    &&& payout.transfer.token_program == ctx.token_program.key
                    &&& payout.transfer.from == accounts[cursor].key
                    &&& payout.transfer.to == accounts[cursor + 1].key
                    &&& payout.transfer.mint == held.mint
                    &&& payout.transfer.authority == ctx.vault_authority
                    &&& payout.transfer.amount == held.amount
                    &&& payout.transfer.decimals == facts.mint->Ok_0.decimals
                    &&& seed_bytes(payout.transfer.signer_seeds@) == seq![
                        AUTHORITY_LABEL@,
                        ctx.vault.key@,
                        seq![ctx.vault.data.authority_bump],
                    ]
                    &&& payout.event.mint == held.mint
                    &&& payout.event.to == ctx.vault.data.owner
                    &&& payout.event.amount == held.amount
                }
            }
        },
{
    law_addresses_of_a_vault(ctx.vault.data.owner, ctx.vault.key, ctx.vault.data.authority_bump);
}

/// The three accounts of a step are read as a token account, a token account and a mint.
pub proof fn law_steps_read_their_accounts(
    decision: Result<Option<WithdrawStep>, Failure>,
    ctx: WithdrawAll,
    accounts: Seq<AccountInfo>,
    cursor: int,
)
    requires
        withdraw_step_outcome(decision, ctx, accounts, cursor),
    ensures
        withdraw_step_decision(
            decision,
            ctx,
            accounts,
            cursor,
            WithdrawFacts {
                vault_token: token_account_in(accounts[cursor]),
                owner_token: token_account_in(accounts[cursor + 1]),
                mint: mint_in(accounts[cursor + 2]),
            },
        ),
{
}

/// Who asks makes no difference to what a step pays.
pub proof fn law_steps_pay_alike_for_owner_and_bot(
    some: Result<Option<WithdrawStep>, Failure>,
    other: Result<Option<WithdrawStep>, Failure>,
    ctx: WithdrawAll,
    caller: AccountMeta,
    accounts: Seq<AccountInfo>,
    cursor: int,
)
    requires
        0 <= cursor,
        withdraw_step_outcome(some, ctx, accounts, cursor),
        withdraw_step_outcome(other, WithdrawAll { caller, ..ctx }, accounts, cursor),
    ensures
        some is Ok <==> other is Ok,
        some matches Ok(Some(step)) ==> {
            &&& other matches Ok(Some(same))
            &&& same.next == step.next
            &&& same.payout is Some <==> step.payout is Some
            &&& step.payout matches Some(payout) ==> {
                let paid = same.payout.unwrap();
                &&& paid.event == payout.event
                &&& paid.transfer.from == payout.transfer.from
                &&& paid.transfer.to == payout.transfer.to
                &&& paid.transfer.amount == payout.transfer.amount
            }
        },
{
}

/// The lamports beyond the rent, and only those, are paid to the owner, and announced as
/// no token.
pub proof fn law_lamports_beyond_the_rent_are_paid(
    vault: Pubkey,
    recipient: Pubkey,
    vault_lamports: u64,
    rent_min: u64,
)
    ensures
        lamport_payout(vault, recipient, vault_lamports, rent_min) is Some <==> vault_lamports
            > rent_min,
        lamport_payout(vault, recipient, vault_lamports, rent_min) matches Some(payout) ==> {
            &&& payout.lamports.from == vault
            &&& payout.lamports.to == recipient
            &&& payout.lamports.amount == vault_lamports - rent_min
            &&& payout.event.mint == no_key()
            &&& payout.event.to == recipient
            &&& payout.event.amount == vault_lamports - rent_min
        },
{
}

/// A move of lamports takes from one account what it gives to the other; it can be made
/// exactly when the one has enough and the other has room. A move from an account to
/// itself changes nothing.
pub proof fn law_lamports_move(moved: LamportMove, from_lamports: u64, to_lamports: u64)
    ensures
        moved.from != moved.to ==> {
            &&& moved.applies(from_lamports, to_lamports) <==> {
                &&& moved.amount <= from_lamports
                &&& to_lamports + moved.amount <= u64::MAX
            }
            &&& moved.balances(from_lamports as int, to_lamports as int) == (
                from_lamports - moved.amount,
                to_lamports + moved.amount,
            )
        },
        moved.from == moved.to ==> {
            &&& moved.applies(from_lamports, to_lamports) <==> {
                &&& moved.amount <= from_lamports
                &&& from_lamports == to_lamports
            }
            &&& moved.balances(from_lamports as int, to_lamports as int) == (
                from_lamports as int,
                to_lamports as int,
            )
        },
{
}

// Paying out one token, or lamports.

/// Tokens are paid out exactly when some are asked for, and they lie where the vault's
/// authority holds them, and go to an account of the named recipient, under one token
/// program. Whether there are enough is for the token program to say.
pub proof fn law_paying_out_a_token_is_answered(
    decision: Result<Payout, Failure>,
    ctx: WithdrawToken,
    amount: u64,
    authority: Option<Pubkey>,
    expected: Option<Pubkey>,
)
    requires
        withdraw_token_decision(decision, ctx, amount, authority, expected),
    ensures
        ctx.constraint_failure(authority) matches Some(failure) ==> decision == Err::<
            Payout,
            Failure,
        >(failure),
        ctx.constraint_failure(authority) is None ==> {
            let source = ctx.vault_token_account;
            let target = ctx.recipient_token_account;
            &&& decision is Ok <==> {
                &&& amount > 0
                &&& source.data.owner == ctx.vault_authority
                &&& source.data.mint == ctx.mint.key
                &&& target.data.mint == ctx.mint.key
                &&& target.data.owner == ctx.recipient_wallet
                &&& source.program == ctx.token_program.key
                &&& target.program == ctx.token_program.key
                &&& ctx.mint.program == ctx.token_program.key
                &&& expected == Some(source.key)
            }
            &&& decision matches Err(failure) ==> first_fault(
                seq![
                    (amount > 0, refused(VaultError::InvalidInput)),
                    (
                        source.data.owner == ctx.vault_authority && source.data.mint
                            == ctx.mint.key && target.data.mint == ctx.mint.key
                            && target.data.owner == ctx.recipient_wallet && source.program
                            == ctx.token_program.key && target.program == ctx.token_program.key
                            && ctx.mint.program == ctx.token_program.key,
                        refused(VaultError::BadAccount),
                    ),
                    (expected is Some, Failure::NoAddress),
                    (expected == Some(source.key), refused(VaultError::BadAccount)),
                ],
            ) == Some(failure)
        },
        decision matches Ok(payout) ==> {
            &&& payout.transfer.token_program == ctx.token_program.key
            &&& payout.transfer.from == ctx.vault_token_account.key
            &&& payout.transfer.mint == ctx.mint.key
            &&& payout.transfer.to == ctx.recipient_token_account.key
            &&& payout.transfer.authority == ctx.vault_authority
            &&& payout.transfer.amount == amount
            &&& payout.transfer.decimals == ctx.mint.data.decimals
            &&& seed_bytes(payout.transfer.signer_seeds@) == seq![
                AUTHORITY_LABEL@,
                ctx.vault.key@,
                seq![ctx.vault.data.authority_bump],
            ]
            &&& payout.event.mint == ctx.mint.key
            &&& payout.event.to == ctx.recipient_wallet
            &&& payout.event.amount == amount
        },
{
    reveal_with_fuel(fault_from, 6);
    law_addresses_of_a_vault(ctx.vault.data.owner, ctx.vault.key, ctx.vault.data.authority_bump);
}

/// A request to pay out a token is decided by the addresses that are derived for the
/// vault's tokens and for its account of that token.
pub proof fn law_paying_out_a_token_derives_its_addresses(
    decision: Result<Payout, Failure>,
    ctx: WithdrawToken,
    amount: u64,
)
    requires
        withdraw_token_outcome(decision, ctx, amount),
    ensures
        withdraw_token_decision(
            decision,
            ctx,
            amount,
            authority_of(ctx.vault.key, ctx.vault.data.authority_bump),
            vault_ata(ctx.vault_authority, ctx.mint.key, ctx.token_program.key),
        ),
{
}

/// Lamports are paid out exactly when some are asked for and the vault keeps its rent
/// without them, however many they are. That amount then moves to the recipient.
pub proof fn law_paying_out_lamports_is_answered(
    decision: Result<NativePayout, Failure>,
    ctx: WithdrawNative,
    vault_lamports: u64,
    rent_min: u64,
    amount: u64,
)
    requires
        withdraw_native_decision(decision, ctx, vault_lamports, rent_min, amount),
    ensures
        ctx.constraint_failure() matches Some(failure) ==> decision == Err::<NativePayout, Failure>(
            failure,
        ),
        ctx.constraint_failure() is None ==> {
            &&& decision is Ok <==> amount > 0 && vault_lamports >= rent_min + amount
            &&& decision matches Err(failure) ==> failure == if amount == 0 {
                refused(VaultError::InvalidInput)
            } else {
                refused(VaultError::InsufficientBalance)
            }
        },
        decision matches Ok(payout) ==> {
            &&& payout.lamports.from == ctx.vault.key
            &&& payout.lamports.to == ctx.recipient.pubkey
            &&& payout.lamports.amount == amount
            &&& payout.event.mint == no_key()
            &&& payout.event.to == ctx.recipient.pubkey
            &&& payout.event.amount == amount
        },
{
}

// Closing token accounts.

/// Token accounts may be closed exactly when the owner of the vault asks and the accounts
/// come in pairs; however many there are.
pub proof fn law_closing_accounts_is_answered(
    decision: Result<(), Failure>,
    ctx: CloseEmptyTokenAccounts,
    count: nat,
    authority: Option<Pubkey>,
)
    requires
        close_accounts_decision(decision, ctx, count, authority),
    ensures
        ctx.constraint_failure(authority) matches Some(failure) ==> decision == Err::<(), Failure>(
            failure,
        ),
        ctx.constraint_failure(authority) is None ==> {
            &&& decision is Ok <==> {
                &&& ctx.owner.pubkey == ctx.vault.data.owner
                &&& exists|n: nat| count == #[trigger] (n * 2)
            }
            &&& decision matches Err(failure) ==> failure == if ctx.owner.pubkey
                != ctx.vault.data.owner {
                refused(VaultError::Unauthorized)
            } else {
                refused(VaultError::BadAccount)
            }
        },
{
    if count % 2 == 0 {
        let n: nat = count / 2;
        assert(count == n * 2);
    }
}

/// Whether token accounts may be closed is decided by the address that is derived for the
/// vault's tokens.
pub proof fn law_closing_accounts_derives_its_address(
    decision: Result<(), Failure>,
    ctx: CloseEmptyTokenAccounts,
    count: nat,
)
    requires
        close_accounts_outcome(decision, ctx, count),
    ensures
        close_accounts_decision(
            decision,
            ctx,
            count,
            authority_of(ctx.vault.key, ctx.vault.data.authority_bump),
        ),
{
}

/// A pair of accounts is closed exactly when both can be read, the first is the
/// authority's empty account for the second, at the address derived for it, and both
/// belong to the named token program. The token then leaves the list, if it was on it, and
/// nothing else changes; a refusal changes nothing.
pub proof fn law_closing_a_pair_is_answered(
    decision: Result<Option<CloseStep>, Failure>,
    before: CloseEmptyTokenAccounts,
    after: CloseEmptyTokenAccounts,
    accounts: Seq<AccountInfo>,
    cursor: int,
    facts: CloseFacts,
)
    requires
        0 <= cursor,
        close_step_decision(decision, before, after, accounts, cursor, facts),
    ensures
        cursor + 2 > accounts.len() ==> decision == Ok::<Option<CloseStep>, Failure>(None),
        decision is Err || decision->Ok_0 is None ==> after == before,
        cursor + 2 <= accounts.len() ==> {
            let held = facts.vault_token->Ok_0;
            let mint = accounts[cursor + 1].key;
            let listed = before.vault.data.allowed_mints@.contains(mint);
            &&& decision is Ok <==> {
                &&& facts.vault_token is Ok
                &&& facts.mint is Ok
                &&& held.owner == before.vault_authority
                &&& held.mint == mint
                &&& held.amount == 0
                &&& accounts[cursor].owner == before.token_program.key
                &&& accounts[cursor + 1].owner == before.token_program.key
                &&& facts.ata == Some(accounts[cursor].key)
            }
            &&& facts.vault_token matches Err(failure) ==> decision == Err::<
                Option<CloseStep>,
                Failure,
            >(failure)
            &&& facts.vault_token is Ok ==> (facts.mint matches Err(failure) ==> decision == Err::<
                Option<CloseStep>,
                Failure,
            >(failure))
            &&& facts.vault_token is Ok && facts.mint is Ok ==> (
            decision matches Err(failure) ==> first_fault(
                seq![
                    (held.owner == before.vault_authority, refused(VaultError::BadAccount)),
                    (held.mint == mint, refused(VaultError::BadAccount)),
                    (held.amount == 0, refused(VaultError::TokenAccountNotEmpty)),
                    (
                        accounts[cursor].owner == before.token_program.key,
                        refused(VaultError::BadAccount),
                    ),
                    (
                        accounts[cursor + 1].owner == before.token_program.key,
                        refused(VaultError::BadAccount),
                    ),
                    (facts.ata is Some, Failure::NoAddress),
                    (facts.ata == Some(accounts[cursor].key), refused(VaultError::BadAccount)),
                ],
            ) == Some(failure))
            &&& decision matches Ok(taken) ==> {
                &&& taken matches Some(step)
                &&& step.next == cursor + 2
                &&& step.close.token_program == before.token_program.key
                &&& step.close.account == accounts[cursor].key
                &&& step.close.destination == before.owner.pubkey
                &&& step.close.authority == before.vault_authority
                &&& seed_bytes(step.close.signer_seeds@) == seq![
                    AUTHORITY_LABEL@,
                    before.vault.key@,
                    seq![before.vault.data.authority_bump],
                ]
                &&& step.closed.token_account == accounts[cursor].key
                &&& step.closed.mint == mint
                &&& step.closed.to == before.vault.data.owner
                &&& step.status is Some <==> listed
                &&& step.status matches Some(status) ==> status.mint == mint && !status.allowed
                &&& after.vault.data.allowed_mints@ == if listed {
                    without(before.vault.data.allowed_mints@, mint)
                } else {
                    before.vault.data.allowed_mints@
                }
                &&& after.vault.data.owner == before.vault.data.owner
                &&& after.vault.data.bot_address == before.vault.data.bot_address
                &&& after.vault.data.jupiter_router == before.vault.data.jupiter_router
                &&& after.vault.data.authority_bump == before.vault.data.authority_bump
                &&& after == (CloseEmptyTokenAccounts {
                    vault: (Account { data: after.vault.data, ..before.vault }),
                    ..before
                })
            }
        },
{
    reveal_with_fuel(fault_from, 9);
    law_addresses_of_a_vault(
        before.vault.data.owner,
        before.vault.key,
        before.vault.data.authority_bump,
    );
    if decision is Ok && decision->Ok_0 is Some {
        let mint = accounts[cursor + 1].key;
        assert(after.vault.data@ == after_closing(before.vault.data@, mint));
        assert(after.vault.data@.allowed_mints == after.vault.data.allowed_mints@);
        assert(after.vault.data@.owner == before.vault.data@.owner);
        assert(after.vault.data@.bot_address == before.vault.data@.bot_address);
        assert(after.vault.data@.jupiter_router == before.vault.data@.jupiter_router);
        assert(after.vault.data@.authority_bump == before.vault.data@.authority_bump);
    }
}

/// The two accounts of a step are read as a token account and a mint, and the first is
/// looked for where the vault's authority holds that mint.
pub proof fn law_closing_a_pair_reads_its_accounts(
    decision: Result<Option<CloseStep>, Failure>,
    before: CloseEmptyTokenAccounts,
    after: CloseEmptyTokenAccounts,
    accounts: Seq<AccountInfo>,
    cursor: int,
)
    requires
        close_step_outcome(decision, before, after, accounts, cursor),
    ensures
        close_step_decision(
            decision,
            before,
            after,
            accounts,
            cursor,
            CloseFacts {
                vault_token: token_account_in(accounts[cursor]),
                mint: mint_in(accounts[cursor + 1]),
                ata: vault_ata(
                    before.vault_authority,
                    accounts[cursor + 1].key,
                    before.token_program.key,
                ),
            },
        ),
{
}

}
