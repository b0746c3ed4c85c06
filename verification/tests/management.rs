use trading_vault::account::{Account, AccountInfo, AccountMeta, Mint, Program, TokenAccount};
use trading_vault::associated::{ensure_vault_atas, vault_ata_address};
use trading_vault::context::{derive_authority, derive_vault, find_authority};
use trading_vault::error::ConstraintError;
use trading_vault::management::{decide_add_token, decide_initialize_vault, decide_remove_token};
use trading_vault::pubkey::{ASSOCIATED_TOKEN_PROGRAM, TOKEN_2022_PROGRAM, TOKEN_PROGRAM};
use trading_vault::vault::{contains, normalize, position, signer_seeds};
use trading_vault::{
    add_token, allowed_tokens_length, close_vault_account, get_allowed_tokens, initialize_vault,
    is_allowed_token, remove_token, set_bot_address, update_routers, AddToken, CloseVaultAccount,
    Failure, InitializeVault, OwnerOnly, Pubkey, ReadVault, RemoveToken, Vault, VaultError,
    MAX_ALLOWED_MINTS,
};

const OWNER: u8 = 1;
const BOT: u8 = 2;
const ROUTER: u8 = 3;

fn key(n: u8) -> Pubkey {
    Pubkey { bytes: [n; 32] }
}

fn token_program() -> Pubkey {
    Pubkey { bytes: TOKEN_PROGRAM }
}

fn callable(key: Pubkey) -> Program {
    Program { key, executable: true }
}

fn refused(error: VaultError) -> Failure {
    Failure::Vault(error)
}

fn signer(n: u8) -> AccountMeta {
    AccountMeta { pubkey: key(n), is_signer: true, is_writable: true }
}

fn home() -> Pubkey {
    derive_vault(&key(OWNER)).unwrap().0
}

fn authority() -> (Pubkey, u8) {
    find_authority(&home()).unwrap()
}

fn vault(mints: &[u8]) -> Account<Vault> {
    Account {
        key: home(),
        is_writable: true,
        program: trading_vault::pubkey::id(),
        data: Vault {
            owner: key(OWNER),
            bot_address: key(BOT),
            jupiter_router: key(ROUTER),
            authority_bump: authority().1,
            allowed_mints: mints.iter().map(|n| key(*n)).collect(),
        },
    }
}

fn initialize() -> InitializeVault {
    InitializeVault {
        vault: AccountMeta { pubkey: home(), is_signer: false, is_writable: true },
        vault_authority: authority().0,
        owner: signer(OWNER),
        system_program: callable(key(0)),
        associated_token_program: callable(Pubkey { bytes: ASSOCIATED_TOKEN_PROGRAM }),
    }
}

fn bare(key: Pubkey, owner: Pubkey) -> AccountInfo<'static> {
    AccountInfo { key, is_signer: false, is_writable: false, owner, lamports: 1, data: &[] }
}

fn triple(mint: u8) -> Vec<AccountInfo<'static>> {
    let ata = vault_ata_address(&authority().0, &key(mint), &token_program()).unwrap();
    vec![
        bare(key(mint), token_program()),
        bare(ata, key(0)),
        bare(token_program(), key(8)),
    ]
}

fn triples(mints: &[u8]) -> Vec<AccountInfo<'static>> {
    mints.iter().flat_map(|mint| triple(*mint)).collect()
}

fn adding(mints: &[u8]) -> AddToken {
    AddToken {
        vault: vault(mints),
        vault_authority: authority().0,
        owner: signer(OWNER),
        system_program: callable(key(0)),
        associated_token_program: callable(Pubkey { bytes: ASSOCIATED_TOKEN_PROGRAM }),
    }
}

fn removing(mints: &[u8], mint: u8) -> RemoveToken {
    RemoveToken {
        vault: vault(mints),
        vault_authority: authority().0,
        owner: signer(OWNER),
        mint: Account {
            key: key(mint),
            is_writable: false,
            program: token_program(),
            data: Mint { decimals: 6 },
        },
        vault_token_account: Account {
            key: vault_ata_address(&authority().0, &key(mint), &token_program()).unwrap(),
            is_writable: true,
            program: token_program(),
            data: TokenAccount { mint: key(mint), owner: authority().0, amount: 0 },
        },
        token_program: callable(token_program()),
    }
}

fn keys(ns: &[u8]) -> Vec<Pubkey> {
    ns.iter().map(|n| key(*n)).collect()
}

#[test]
fn normalizing_drops_repetitions_and_zero() {
    assert_eq!(normalize(&keys(&[5, 0, 4, 5, 4, 6, 0])), keys(&[5, 4, 6]));
    assert_eq!(normalize(&keys(&[])), keys(&[]));
    assert_eq!(normalize(&keys(&[0, 0])), keys(&[]));
}

#[test]
fn normalizing_twice_changes_nothing() {
    let once = normalize(&keys(&[9, 9, 0, 7, 9, 8]));
    assert_eq!(once, keys(&[9, 7, 8]));
    assert_eq!(normalize(&once), once);
}

#[test]
fn the_first_place_is_found() {
    assert_eq!(position(&keys(&[4, 5, 4]), &key(4)), Some(0));
    assert_eq!(position(&keys(&[4, 5, 4]), &key(5)), Some(1));
    assert_eq!(position(&keys(&[4, 5, 4]), &key(6)), None);
    assert!(contains(&keys(&[4, 5]), &key(5)));
    assert!(!contains(&keys(&[]), &key(5)));
}

#[test]
fn the_space_of_a_vault_is_fixed() {
    assert_eq!(Vault::SPACE, 2157);
}

#[test]
fn a_vault_is_created() {
    let accounts = triples(&[11, 10]);
    let done =
        initialize_vault(&initialize(), &accounts, key(BOT), key(ROUTER), &keys(&[11, 0, 10, 11]))
            .unwrap();
    assert_eq!(done.vault, vault(&[11, 10]).data);
    assert_eq!(done.statuses.len(), 2);
    assert_eq!((done.statuses[0].mint, done.statuses[0].allowed), (key(11), true));
    assert_eq!((done.statuses[1].mint, done.statuses[1].allowed), (key(10), true));
    assert_eq!((done.bot.old_bot, done.bot.new_bot), (key(0), key(BOT)));
    assert_eq!(done.router.jupiter_router, key(ROUTER));
    assert_eq!(done.atas.mints, keys(&[11, 10]));

    let first = ensure_vault_atas(&done.atas, &accounts, 0).unwrap().unwrap();
    assert_eq!((first.index, first.mint, first.associated_token), (0, key(11), accounts[1].key));
    assert_eq!((first.payer, first.authority), (key(OWNER), authority().0));
    assert_eq!(first.token_program, token_program());
    let second = ensure_vault_atas(&done.atas, &accounts, 1).unwrap().unwrap();
    assert_eq!((second.index, second.mint, second.associated_token), (1, key(10), accounts[4].key));
    assert_eq!(ensure_vault_atas(&done.atas, &accounts, 2), Ok(None));
}

#[test]
fn the_created_authority_is_accepted_later() {
    let done =
        initialize_vault(&initialize(), &[], key(BOT), key(ROUTER), &vec![]).unwrap();
    assert_eq!(
        derive_authority(&home(), done.vault.authority_bump),
        Some(initialize().vault_authority)
    );
}

#[test]
fn creation_checks_its_input() {
    let ctx = initialize();
    let run = |bot, router, mints: &[u8]| {
        initialize_vault(&ctx, &[], key(bot), key(router), &keys(mints)).unwrap_err()
    };
    assert_eq!(run(0, 0, &[]), refused(VaultError::InvalidInput));
    assert_eq!(run(BOT, 0, &[]), refused(VaultError::InvalidRouter));
    let many: Vec<u8> = vec![7; MAX_ALLOWED_MINTS + 1];
    assert_eq!(run(BOT, ROUTER, &many), refused(VaultError::TooManyTokens));
    assert_eq!(run(BOT, ROUTER, &[7]), refused(VaultError::BadAccount));
}

#[test]
fn a_full_list_is_accepted() {
    let mints: Vec<u8> = (20..20 + MAX_ALLOWED_MINTS as u8).collect();
    let accounts = triples(&mints);
    let done =
        initialize_vault(&initialize(), &accounts, key(BOT), key(ROUTER), &keys(&mints)).unwrap();
    assert_eq!(done.vault.allowed_mints.len(), MAX_ALLOWED_MINTS);
    let mut ctx = adding(&mints);
    assert_eq!(
        add_token(&mut ctx, &triple(200), key(200)).unwrap_err(),
        refused(VaultError::TooManyTokens)
    );
}

#[test]
fn creation_checks_its_accounts() {
    let run = |ctx: &InitializeVault| {
        initialize_vault(ctx, &[], key(BOT), key(ROUTER), &vec![]).unwrap_err()
    };
    let mut ctx = initialize();
    ctx.owner.is_signer = false;
    assert_eq!(run(&ctx), Failure::Constraint(ConstraintError::AccountNotSigner));
    let mut ctx = initialize();
    ctx.vault.pubkey = key(77);
    assert_eq!(run(&ctx), Failure::Constraint(ConstraintError::ConstraintSeeds));
    let mut ctx = initialize();
    ctx.vault.is_writable = false;
    assert_eq!(run(&ctx), Failure::Constraint(ConstraintError::ConstraintMut));
    let mut ctx = initialize();
    ctx.vault_authority = key(77);
    assert_eq!(run(&ctx), Failure::Constraint(ConstraintError::ConstraintSeeds));
    let mut ctx = initialize();
    ctx.owner.is_writable = false;
    assert_eq!(run(&ctx), Failure::Constraint(ConstraintError::ConstraintMut));
}

#[test]
fn creation_without_an_address_is_abandoned() {
    let ctx = initialize();
    let found = Some(authority());
    let home = derive_vault(&key(OWNER));
    let run = |home, found| {
        decide_initialize_vault(&ctx, &[], key(BOT), key(ROUTER), &vec![], home, found)
    };
    assert_eq!(run(None, found).unwrap_err(), Failure::NoAddress);
    assert_eq!(run(home, None).unwrap_err(), Failure::NoAddress);
    assert!(run(home, found).is_ok());
}

#[test]
fn token_account_plans_are_checked() {
    let mut accounts = triples(&[11]);
    let done =
        initialize_vault(&initialize(), &accounts, key(BOT), key(ROUTER), &keys(&[11])).unwrap();
    let bad = Err(refused(VaultError::BadAccount));
    assert_eq!(ensure_vault_atas(&done.atas, &accounts[..2], 0), bad);
    accounts[0].key = key(12);
    assert_eq!(ensure_vault_atas(&done.atas, &accounts, 0), bad);
    accounts = triples(&[11]);
    accounts[0].owner = key(9);
    assert_eq!(ensure_vault_atas(&done.atas, &accounts, 0), bad);
    accounts[2].key = key(9);
    assert_eq!(ensure_vault_atas(&done.atas, &accounts, 0), bad);
    accounts = triples(&[11]);
    accounts[1].key = key(9);
    assert_eq!(ensure_vault_atas(&done.atas, &accounts, 0), bad);
}

#[test]
fn the_list_can_be_read() {
    let ctx = ReadVault { vault: vault(&[11, 10]) };
    assert_eq!(get_allowed_tokens(&ctx), Ok(keys(&[11, 10])));
    assert_eq!(is_allowed_token(&ctx, key(10)), Ok(true));
    assert_eq!(is_allowed_token(&ctx, key(12)), Ok(false));
    assert_eq!(allowed_tokens_length(&ctx), Ok(2));
}

#[test]
fn a_token_is_added() {
    let mut ctx = adding(&[11]);
    let accounts = triple(10);
    let done = add_token(&mut ctx, &accounts, key(10)).unwrap();
    assert_eq!(ctx, adding(&[11, 10]));
    assert_eq!((done.status.mint, done.status.allowed), (key(10), true));
    assert_eq!(done.create.associated_token, accounts[1].key);
    assert_eq!(done.create.mint, key(10));
}

#[test]
fn adding_checks_the_token() {
    let mut ctx = adding(&[11]);
    assert_eq!(
        add_token(&mut ctx, &triple(0), key(0)).unwrap_err(),
        refused(VaultError::InvalidToken)
    );
    assert_eq!(
        add_token(&mut ctx, &triple(11), key(11)).unwrap_err(),
        refused(VaultError::TokenAlreadyAllowed)
    );
    assert_eq!(
        add_token(&mut ctx, &[], key(10)).unwrap_err(),
        refused(VaultError::BadAccount)
    );
    assert_eq!(
        add_token(&mut ctx, &triple(12), key(10)).unwrap_err(),
        refused(VaultError::BadAccount)
    );
    assert_eq!(ctx, adding(&[11]));
}

#[test]
fn only_the_owner_adds() {
    let mut ctx = adding(&[]);
    ctx.owner.is_signer = false;
    assert_eq!(
        add_token(&mut ctx, &triple(10), key(10)).unwrap_err(),
        Failure::Constraint(ConstraintError::AccountNotSigner)
    );
    let mut ctx = adding(&[]);
    ctx.owner.pubkey = key(BOT);
    assert_eq!(
        add_token(&mut ctx, &triple(10), key(10)).unwrap_err(),
        Failure::Constraint(ConstraintError::ConstraintHasOne)
    );
    let mut ctx = adding(&[]);
    ctx.vault.data.authority_bump = 0;
    assert_eq!(
        add_token(&mut ctx, &triple(10), key(10)).unwrap_err(),
        Failure::Constraint(ConstraintError::ConstraintSeeds)
    );
}

#[test]
fn adding_with_given_addresses() {
    let mut ctx = adding(&[]);
    let accounts = triple(10);
    let given = Some(authority().0);
    assert_eq!(
        decide_add_token(&mut ctx, &accounts, key(10), None, Some(accounts[1].key)).unwrap_err(),
        Failure::Constraint(ConstraintError::ConstraintSeeds)
    );
    assert_eq!(
        decide_add_token(&mut ctx, &accounts, key(10), given, None).unwrap_err(),
        Failure::NoAddress
    );
    assert!(decide_add_token(&mut ctx, &accounts, key(10), given, Some(accounts[1].key)).is_ok());
}

#[test]
fn a_token_is_removed() {
    let mut ctx = removing(&[11, 12, 13], 11);
    let done = remove_token(&mut ctx, key(11)).unwrap();
    assert_eq!(ctx.vault.data.allowed_mints, keys(&[13, 12]));
    assert_eq!(done.close.account, ctx.vault_token_account.key);
    assert_eq!(done.close.destination, key(OWNER));
    assert_eq!(done.close.authority, authority().0);
    assert_eq!(done.close.token_program, token_program());
    assert_eq!(done.close.signer_seeds, signer_seeds(&home(), authority().1));
    assert_eq!(done.closed.token_account, ctx.vault_token_account.key);
    assert_eq!((done.closed.mint, done.closed.to), (key(11), key(OWNER)));
    assert_eq!((done.status.mint, done.status.allowed), (key(11), false));
}

#[test]
fn adding_and_removing_restores_the_list() {
    let mut add = adding(&[11, 12]);
    add_token(&mut add, &triple(13), key(13)).unwrap();
    let mut remove = removing(&[], 13);
    remove.vault = add.vault;
    remove_token(&mut remove, key(13)).unwrap();
    assert_eq!(remove.vault, vault(&[11, 12]));
}

#[test]
fn removing_and_adding_keeps_the_tokens() {
    let mut remove = removing(&[11, 12, 13], 11);
    remove_token(&mut remove, key(11)).unwrap();
    let mut add = adding(&[]);
    add.vault = remove.vault;
    add_token(&mut add, &triple(11), key(11)).unwrap();
    assert_eq!(add.vault.data.allowed_mints, keys(&[13, 12, 11]));
}

#[test]
fn removing_checks_the_token_account() {
    let run = |ctx: RemoveToken, mint: u8| {
        let mut after = ctx.clone();
        let failure = remove_token(&mut after, key(mint)).unwrap_err();
        assert_eq!(after, ctx);
        failure
    };
    assert_eq!(run(removing(&[11], 11), 0), refused(VaultError::InvalidToken));
    assert_eq!(run(removing(&[11], 12), 12), refused(VaultError::TokenNotAllowed));
    assert_eq!(run(removing(&[11, 12], 12), 11), refused(VaultError::BadAccount));
    let mut ctx = removing(&[11], 11);
    ctx.vault_token_account.data.owner = key(OWNER);
    assert_eq!(run(ctx, 11), refused(VaultError::BadAccount));
    let mut ctx = removing(&[11], 11);
    ctx.vault_token_account.data.mint = key(12);
    assert_eq!(run(ctx, 11), refused(VaultError::BadAccount));
    let mut ctx = removing(&[11], 11);
    ctx.vault_token_account.data.amount = 1;
    assert_eq!(run(ctx.clone(), 11), refused(VaultError::TokenAccountNotEmpty));
    ctx.vault_token_account.program = Pubkey { bytes: TOKEN_2022_PROGRAM };
    assert_eq!(run(ctx, 11), refused(VaultError::TokenAccountNotEmpty));
    let mut ctx = removing(&[11], 11);
    ctx.vault_token_account.program = Pubkey { bytes: TOKEN_2022_PROGRAM };
    assert_eq!(run(ctx, 11), refused(VaultError::BadAccount));
    let mut ctx = removing(&[11], 11);
    ctx.mint.program = Pubkey { bytes: TOKEN_2022_PROGRAM };
    assert_eq!(run(ctx, 11), refused(VaultError::BadAccount));
    let mut ctx = removing(&[11], 11);
    ctx.vault_token_account.key = key(9);
    assert_eq!(run(ctx, 11), refused(VaultError::BadAccount));
    let mut ctx = removing(&[11], 11);
    ctx.vault_token_account.is_writable = false;
    assert_eq!(run(ctx, 11), Failure::Constraint(ConstraintError::ConstraintMut));
    let mut ctx = removing(&[11], 11);
    assert_eq!(
        decide_remove_token(&mut ctx, key(11), Some(authority().0), None).unwrap_err(),
        Failure::NoAddress
    );
}

#[test]
fn the_owner_names_bot_and_router() {
    let mut ctx = OwnerOnly { vault: vault(&[11]), owner: signer(OWNER) };
    let event = set_bot_address(&mut ctx, key(42)).unwrap();
    assert_eq!((event.old_bot, event.new_bot), (key(BOT), key(42)));
    assert_eq!(ctx.vault.data.bot_address, key(42));
    let event = update_routers(&mut ctx, key(43)).unwrap();
    assert_eq!(event.jupiter_router, key(43));
    assert_eq!(ctx.vault.data.jupiter_router, key(43));
    assert_eq!(ctx.vault.data.allowed_mints, keys(&[11]));

    let before = ctx.clone();
    assert_eq!(set_bot_address(&mut ctx, key(0)).unwrap_err(), refused(VaultError::InvalidInput));
    assert_eq!(update_routers(&mut ctx, key(0)).unwrap_err(), refused(VaultError::InvalidRouter));
    assert_eq!(ctx, before);
}

#[test]
fn nobody_else_names_bot_and_router() {
    let mut ctx = OwnerOnly { vault: vault(&[]), owner: signer(BOT) };
    let has_one = Failure::Constraint(ConstraintError::ConstraintHasOne);
    assert_eq!(set_bot_address(&mut ctx, key(42)).unwrap_err(), has_one);
    assert_eq!(update_routers(&mut ctx, key(42)).unwrap_err(), has_one);
    let mut ctx = OwnerOnly { vault: vault(&[]), owner: signer(OWNER) };
    ctx.vault.is_writable = false;
    let read_only = Failure::Constraint(ConstraintError::ConstraintMut);
    assert_eq!(set_bot_address(&mut ctx, key(42)).unwrap_err(), read_only);
}

#[test]
fn an_empty_vault_is_closed() {
    let ctx = CloseVaultAccount { vault: vault(&[]), owner: signer(OWNER) };
    let closed = close_vault_account(&ctx).unwrap();
    assert_eq!((closed.vault, closed.destination), (home(), key(OWNER)));

    let ctx = CloseVaultAccount { vault: vault(&[11]), owner: signer(OWNER) };
    assert_eq!(
        close_vault_account(&ctx).unwrap_err(),
        refused(VaultError::VaultNotReadyToClose)
    );
    let ctx = CloseVaultAccount { vault: vault(&[]), owner: signer(BOT) };
    assert_eq!(
        close_vault_account(&ctx).unwrap_err(),
        Failure::Constraint(ConstraintError::ConstraintHasOne)
    );
    let mut ctx = CloseVaultAccount { vault: vault(&[]), owner: signer(OWNER) };
    ctx.vault.key = key(OWNER);
    assert_eq!(
        close_vault_account(&ctx).unwrap_err(),
        Failure::Constraint(ConstraintError::ConstraintClose)
    );
}

#[test]
fn only_the_owner_removes() {
    let mut ctx = removing(&[11], 11);
    ctx.owner.pubkey = key(BOT);
    assert_eq!(
        remove_token(&mut ctx, key(11)).unwrap_err(),
        Failure::Constraint(ConstraintError::ConstraintHasOne)
    );
    ctx.owner.is_signer = false;
    assert_eq!(
        remove_token(&mut ctx, key(11)).unwrap_err(),
        Failure::Constraint(ConstraintError::AccountNotSigner)
    );
}

#[test]
fn a_vault_keeps_its_owner_and_authority() {
    let mut add = adding(&[11]);
    add_token(&mut add, &triple(12), key(12)).unwrap();
    let mut configure = OwnerOnly { vault: add.vault, owner: signer(OWNER) };
    set_bot_address(&mut configure, key(42)).unwrap();
    update_routers(&mut configure, key(43)).unwrap();
    let mut remove = removing(&[], 11);
    remove.vault = configure.vault;
    remove_token(&mut remove, key(11)).unwrap();
    assert_eq!(
        remove.vault.data,
        Vault {
            owner: key(OWNER),
            bot_address: key(42),
            jupiter_router: key(43),
            authority_bump: authority().1,
            allowed_mints: keys(&[12]),
        }
    );
}

#[test]
fn a_vault_of_another_program_is_none() {
    let foreign = Failure::Constraint(ConstraintError::AccountOwnedByWrongProgram);
    let mut read = ReadVault { vault: vault(&[11]) };
    read.vault.program = key(9);
    assert_eq!(get_allowed_tokens(&read), Err(foreign));
    assert_eq!(is_allowed_token(&read, key(11)), Err(foreign));
    assert_eq!(allowed_tokens_length(&read), Err(foreign));
    let mut ctx = OwnerOnly { vault: read.vault, owner: signer(OWNER) };
    assert_eq!(set_bot_address(&mut ctx, key(42)), Err(foreign));
    assert_eq!(update_routers(&mut ctx, key(42)), Err(foreign));
    ctx.owner.is_signer = false;
    assert_eq!(set_bot_address(&mut ctx, key(42)), Err(foreign));
    let close = CloseVaultAccount { vault: ctx.vault, owner: signer(OWNER) };
    assert_eq!(close_vault_account(&close), Err(foreign));
}

#[test]
fn the_programs_of_a_request_are_checked() {
    let wrong = Failure::Constraint(ConstraintError::InvalidProgramId);
    let idle = Failure::Constraint(ConstraintError::InvalidProgramExecutable);
    let unsigned = Failure::Constraint(ConstraintError::AccountNotSigner);

    let create = |ctx: &InitializeVault| {
        initialize_vault(ctx, &[], key(BOT), key(ROUTER), &vec![]).unwrap_err()
    };
    let mut ctx = initialize();
    ctx.system_program.executable = false;
    assert_eq!(create(&ctx), idle);
    ctx.system_program.key = key(9);
    assert_eq!(create(&ctx), wrong);
    ctx.owner.is_signer = false;
    assert_eq!(create(&ctx), unsigned);
    let mut ctx = initialize();
    ctx.associated_token_program.executable = false;
    assert_eq!(create(&ctx), idle);
    ctx.associated_token_program.key = key(9);
    ctx.vault.pubkey = key(77);
    assert_eq!(create(&ctx), wrong);

    let add = |mut ctx: AddToken| add_token(&mut ctx, &triple(10), key(10)).unwrap_err();
    let mut ctx = adding(&[]);
    ctx.system_program.key = key(9);
    assert_eq!(add(ctx), wrong);
    let mut ctx = adding(&[]);
    ctx.associated_token_program.key = token_program();
    assert_eq!(add(ctx), wrong);
    let mut ctx = adding(&[]);
    ctx.associated_token_program.executable = false;
    assert_eq!(add(ctx), idle);

    let remove = |mut ctx: RemoveToken| remove_token(&mut ctx, key(11)).unwrap_err();
    let mut ctx = removing(&[11], 11);
    ctx.token_program.executable = false;
    assert_eq!(remove(ctx.clone()), idle);
    ctx.token_program.key = key(0);
    assert_eq!(remove(ctx.clone()), wrong);
    ctx.vault_token_account.program = key(9);
    let foreign = Failure::Constraint(ConstraintError::AccountOwnedByWrongProgram);
    assert_eq!(remove(ctx), foreign);
    let mut ctx = removing(&[11], 11);
    ctx.mint.program = key(9);
    assert_eq!(remove(ctx), foreign);
}
