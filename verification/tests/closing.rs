use trading_vault::account::{Account, AccountInfo, AccountMeta, Mint, Program, TokenAccount};
use trading_vault::associated::vault_ata_address;
use trading_vault::closing::{
    close_accounts_step, decide_close_accounts, decide_close_step, CloseFacts,
};
use trading_vault::context::{derive_vault, find_authority};
use trading_vault::error::ConstraintError;
use trading_vault::pubkey::TOKEN_PROGRAM;
use trading_vault::vault::signer_seeds;
use trading_vault::{
    close_empty_token_accounts, close_vault_account, CloseEmptyTokenAccounts, CloseVaultAccount,
    Failure, Pubkey, Vault, VaultError,
};

const OWNER: u8 = 1;

fn key(n: u8) -> Pubkey {
    Pubkey { bytes: [n; 32] }
}

fn callable(key: Pubkey) -> Program {
    Program { key, executable: true }
}

fn refused(error: VaultError) -> Failure {
    Failure::Vault(error)
}

fn program() -> Pubkey {
    Pubkey { bytes: TOKEN_PROGRAM }
}

fn home() -> Pubkey {
    derive_vault(&key(OWNER)).unwrap().0
}

fn authority() -> (Pubkey, u8) {
    find_authority(&home()).unwrap()
}

fn context(mints: &[u8]) -> CloseEmptyTokenAccounts {
    CloseEmptyTokenAccounts {
        vault: Account {
            key: home(),
            is_writable: true,
            program: trading_vault::pubkey::id(),
            data: Vault {
                owner: key(OWNER),
                bot_address: key(2),
                jupiter_router: key(3),
                authority_bump: authority().1,
                allowed_mints: mints.iter().map(|n| key(*n)).collect(),
            },
        },
        vault_authority: authority().0,
        owner: AccountMeta { pubkey: key(OWNER), is_signer: true, is_writable: true },
        token_program: callable(program()),
    }
}

fn ata(mint: u8) -> Pubkey {
    vault_ata_address(&authority().0, &key(mint), &program()).unwrap()
}

fn token_data(mint: Pubkey, owner: Pubkey, amount: u64) -> Vec<u8> {
    let mut data = vec![0u8; 165];
    data[0..32].copy_from_slice(&mint.bytes);
    data[32..64].copy_from_slice(&owner.bytes);
    data[64..72].copy_from_slice(&amount.to_le_bytes());
    data[108] = 1;
    data
}

fn mint_data() -> Vec<u8> {
    let mut data = vec![0u8; 82];
    data[45] = 1;
    data
}

fn info(key: Pubkey, data: &[u8]) -> AccountInfo<'_> {
    AccountInfo { key, is_signer: false, is_writable: true, owner: program(), lamports: 1, data }
}

#[test]
fn empty_accounts_are_closed_and_unlisted() {
    let mut ctx = context(&[11, 12, 13]);
    let first = token_data(key(11), authority().0, 0);
    let second = token_data(key(40), authority().0, 0);
    let mint = mint_data();
    let accounts = vec![
        info(ata(11), &first),
        info(key(11), &mint),
        info(ata(40), &second),
        info(key(40), &mint),
    ];
    assert_eq!(close_empty_token_accounts(&ctx, &accounts), Ok(()));

    let step = close_accounts_step(&mut ctx, &accounts, 0).unwrap().unwrap();
    assert_eq!(step.next, 2);
    assert_eq!((step.close.account, step.close.destination), (ata(11), key(OWNER)));
    assert_eq!((step.close.authority, step.close.token_program), (authority().0, program()));
    assert_eq!(step.close.signer_seeds, signer_seeds(&home(), authority().1));
    assert_eq!((step.closed.token_account, step.closed.mint), (ata(11), key(11)));
    assert_eq!(step.closed.to, key(OWNER));
    let status = step.status.unwrap();
    assert_eq!((status.mint, status.allowed), (key(11), false));
    assert_eq!(ctx, context(&[13, 12]));

    // A token that was not on the list.
    let step = close_accounts_step(&mut ctx, &accounts, 2).unwrap().unwrap();
    assert_eq!((step.next, step.status), (4, None));
    assert_eq!(step.closed.mint, key(40));
    assert_eq!(ctx, context(&[13, 12]));
    assert_eq!(close_accounts_step(&mut ctx, &accounts, 4), Ok(None));
}

#[test]
fn a_closed_out_vault_can_be_closed() {
    let mut ctx = context(&[11, 12]);
    let first = token_data(key(11), authority().0, 0);
    let second = token_data(key(12), authority().0, 0);
    let mint = mint_data();
    let accounts = vec![
        info(ata(12), &second),
        info(key(12), &mint),
        info(ata(11), &first),
        info(key(11), &mint),
    ];
    let mut cursor = 0;
    while let Some(step) = close_accounts_step(&mut ctx, &accounts, cursor).unwrap() {
        cursor = step.next;
    }
    assert_eq!(cursor, 4);
    assert!(ctx.vault.data.allowed_mints.is_empty());
    let close = CloseVaultAccount { vault: ctx.vault, owner: ctx.owner };
    assert!(close_vault_account(&close).is_ok());
}

#[test]
fn only_the_owner_closes_accounts() {
    let mut ctx = context(&[]);
    ctx.owner.pubkey = key(2);
    assert_eq!(
        close_empty_token_accounts(&ctx, &[]),
        Err(refused(VaultError::Unauthorized))
    );
    ctx.owner.is_signer = false;
    assert_eq!(
        close_empty_token_accounts(&ctx, &[]),
        Err(Failure::Constraint(ConstraintError::AccountNotSigner))
    );
    let mut ctx = context(&[]);
    ctx.token_program.key = key(9);
    assert_eq!(
        close_empty_token_accounts(&ctx, &[]),
        Err(Failure::Constraint(ConstraintError::InvalidProgramId))
    );
    let ctx = context(&[]);
    assert_eq!(
        close_empty_token_accounts(&ctx, &[info(key(20), &[])]),
        Err(refused(VaultError::BadAccount))
    );
    assert_eq!(
        decide_close_accounts(&ctx, &[], None),
        Err(Failure::Constraint(ConstraintError::ConstraintSeeds))
    );
}

#[test]
fn accounts_that_do_not_fit_stop_the_closing() {
    let good = CloseFacts {
        vault_token: Ok(TokenAccount { mint: key(11), owner: authority().0, amount: 0 }),
        mint: Ok(Mint { decimals: 6 }),
        ata: Some(ata(11)),
    };
    let accounts = vec![info(ata(11), &[]), info(key(11), &[])];
    let run = |accounts: &[AccountInfo], facts: &CloseFacts| {
        let mut ctx = context(&[11]);
        let result = decide_close_step(&mut ctx, accounts, 0, facts);
        if result.is_err() {
            assert_eq!(ctx, context(&[11]));
        }
        result.map(|_| ())
    };
    assert_eq!(run(&accounts, &good), Ok(()));
    let token = |mint, owner, amount| Ok(TokenAccount { mint: key(mint), owner, amount });
    let bad = Err(refused(VaultError::BadAccount));

    let mut facts = good;
    facts.vault_token = token(11, key(OWNER), 0);
    assert_eq!(run(&accounts, &facts), bad);
    facts.vault_token = token(12, authority().0, 0);
    assert_eq!(run(&accounts, &facts), bad);
    facts.vault_token = token(11, authority().0, 1);
    assert_eq!(run(&accounts, &facts), Err(refused(VaultError::TokenAccountNotEmpty)));
    facts.mint = Err(Failure::Program(2));
    assert_eq!(run(&accounts, &facts), Err(Failure::Program(2)));
    facts.vault_token = Err(Failure::Program(1));
    assert_eq!(run(&accounts, &facts), Err(Failure::Program(1)));
    let mut facts = good;
    facts.ata = None;
    assert_eq!(run(&accounts, &facts), Err(Failure::NoAddress));
    facts.ata = Some(key(9));
    assert_eq!(run(&accounts, &facts), bad);
    for wrong in 0..2 {
        let mut moved = accounts.clone();
        moved[wrong].owner = key(9);
        assert_eq!(run(&moved, &good), bad);
    }
    assert_eq!(run(&accounts[..1], &good), Ok(()));
}

#[test]
fn unreadable_accounts_stop_the_closing() {
    let mut ctx = context(&[11]);
    let accounts = vec![info(ata(11), &[]), info(key(11), &[])];
    assert_eq!(close_accounts_step(&mut ctx, &accounts, 0), Err(Failure::Program(4 << 32)));
}

#[test]
fn accounts_of_other_programs_stop_the_closing() {
    let held = token_data(key(11), authority().0, 0);
    let mint = mint_data();
    let good = vec![info(ata(11), &held), info(key(11), &mint)];
    for foreign in 0..2 {
        let mut ctx = context(&[11]);
        let mut accounts = good.clone();
        accounts[foreign].owner = key(9);
        assert_eq!(close_accounts_step(&mut ctx, &accounts, 0), Err(Failure::Program(3007)));
        accounts[foreign].owner = key(0);
        accounts[foreign].lamports = 0;
        assert_eq!(close_accounts_step(&mut ctx, &accounts, 0), Err(Failure::Program(3012)));
        assert_eq!(ctx, context(&[11]));
    }
    assert!(close_accounts_step(&mut context(&[11]), &good, 0).unwrap().is_some());
}
