use trading_vault::account::{Account, AccountInfo, AccountMeta, Mint, Program, TokenAccount};
use trading_vault::associated::vault_ata_address;
use trading_vault::context::{derive_vault, find_authority};
use trading_vault::error::ConstraintError;
use trading_vault::pubkey::{TOKEN_2022_PROGRAM, TOKEN_PROGRAM};
use trading_vault::vault::signer_seeds;
use trading_vault::withdrawal::{
    decide_withdraw_all, decide_withdraw_step, decide_withdraw_token, withdraw_all_step,
    withdraw_vault_lamports, LamportMove, WithdrawFacts,
};
use trading_vault::{
    withdraw_all, withdraw_native, withdraw_token, Failure, Pubkey, Vault, VaultError, WithdrawAll,
    WithdrawNative, WithdrawToken,
};

const OWNER: u8 = 1;
const BOT: u8 = 2;
const TOKEN: u8 = 11;

fn key(n: u8) -> Pubkey {
    Pubkey { bytes: [n; 32] }
}

fn callable(key: Pubkey) -> Program {
    Program { key, executable: true }
}

fn refused(error: VaultError) -> Failure {
    Failure::Vault(error)
}

fn program() -> Pubkey {
    Pubkey { bytes: TOKEN_PROGRAM }
}

fn home() -> Pubkey {
    derive_vault(&key(OWNER)).unwrap().0
}

fn authority() -> (Pubkey, u8) {
    find_authority(&home()).unwrap()
}

fn vault() -> Account<Vault> {
    Account {
        key: home(),
        is_writable: true,
        program: trading_vault::pubkey::id(),
        data: Vault {
            owner: key(OWNER),
            bot_address: key(BOT),
            jupiter_router: key(3),
            authority_bump: authority().1,
            allowed_mints: vec![key(TOKEN)],
        },
    }
}

fn meta(n: u8, is_signer: bool) -> AccountMeta {
    AccountMeta { pubkey: key(n), is_signer, is_writable: true }
}

fn context() -> WithdrawAll {
    WithdrawAll {
        vault: vault(),
        vault_authority: authority().0,
        caller: meta(BOT, true),
        owner: meta(OWNER, false),
        token_program: callable(program()),
    }
}

fn token_data(mint: Pubkey, owner: Pubkey, amount: u64) -> Vec<u8> {
    let mut data = vec![0u8; 165];
    data[0..32].copy_from_slice(&mint.bytes);
    data[32..64].copy_from_slice(&owner.bytes);
    data[64..72].copy_from_slice(&amount.to_le_bytes());
    data[108] = 1;
    data
}

fn mint_data(decimals: u8) -> Vec<u8> {
    let mut data = vec![0u8; 82];
    data[44] = decimals;
    data[45] = 1;
    data
}

fn info(key: Pubkey, data: &[u8]) -> AccountInfo<'_> {
    AccountInfo { key, is_signer: false, is_writable: true, owner: program(), lamports: 1, data }
}

#[test]
fn everything_is_paid_to_the_owner() {
    let ctx = context();
    let held = token_data(key(TOKEN), authority().0, 500);
    let owners = token_data(key(TOKEN), key(OWNER), 1);
    let empty = token_data(key(TOKEN), authority().0, 0);
    let mint = mint_data(6);
    let accounts = vec![
        info(key(20), &empty),
        info(key(21), &owners),
        info(key(TOKEN), &mint),
        info(key(22), &held),
        info(key(23), &owners),
        info(key(TOKEN), &mint),
    ];
    assert_eq!(withdraw_all(&ctx, &accounts), Ok(()));
    let step = withdraw_all_step(&ctx, &accounts, 0).unwrap().unwrap();
    assert_eq!((step.next, step.payout), (3, None));
    let step = withdraw_all_step(&ctx, &accounts, 3).unwrap().unwrap();
    assert_eq!(step.next, 6);
    let payout = step.payout.unwrap();
    assert_eq!((payout.transfer.from, payout.transfer.to), (key(22), key(23)));
    assert_eq!((payout.transfer.mint, payout.transfer.amount), (key(TOKEN), 500));
    assert_eq!(payout.transfer.decimals, 6);
    assert_eq!(payout.transfer.authority, authority().0);
    assert_eq!(payout.transfer.signer_seeds, signer_seeds(&home(), authority().1));
    assert_eq!((payout.event.mint, payout.event.to), (key(TOKEN), key(OWNER)));
    assert_eq!(payout.event.amount, 500);
    assert_eq!(withdraw_all_step(&ctx, &accounts, 6), Ok(None));
    assert_eq!(withdraw_all_step(&ctx, &accounts, usize::MAX), Ok(None));
}

#[test]
fn steps_visit_three_accounts_each() {
    let ctx = context();
    let held = token_data(key(TOKEN), authority().0, 0);
    let owners = token_data(key(TOKEN), key(OWNER), 1);
    let mint = mint_data(6);
    let mut accounts = Vec::new();
    for _ in 0..5 {
        accounts.push(info(key(20), &held));
        accounts.push(info(key(21), &owners));
        accounts.push(info(key(TOKEN), &mint));
    }
    let mut cursor = 0;
    let mut steps = 0;
    while let Some(step) = withdraw_all_step(&ctx, &accounts, cursor).unwrap() {
        cursor = step.next;
        steps += 1;
        assert_eq!(cursor, steps * 3);
    }
    assert_eq!((cursor, steps), (15, 5));
}

#[test]
fn accounts_that_do_not_fit_are_passed_over() {
    let ctx = context();
    let facts = WithdrawFacts {
        vault_token: Ok(TokenAccount { mint: key(TOKEN), owner: authority().0, amount: 5 }),
        owner_token: Ok(TokenAccount { mint: key(TOKEN), owner: key(OWNER), amount: 0 }),
        mint: Ok(Mint { decimals: 6 }),
    };
    let accounts = vec![info(key(20), &[]), info(key(21), &[]), info(key(TOKEN), &[])];
    let paid = |ctx: &WithdrawAll, accounts: &[AccountInfo], facts: &WithdrawFacts| {
        decide_withdraw_step(ctx, accounts, 0, facts).unwrap().unwrap().payout.is_some()
    };
    assert!(paid(&ctx, &accounts, &facts));

    let mut other = ctx.clone();
    other.vault.data.allowed_mints.clear();
    assert!(!paid(&other, &accounts, &facts));
    let mut other = ctx.clone();
    other.token_program = callable(Pubkey { bytes: TOKEN_2022_PROGRAM });
    assert!(!paid(&other, &accounts, &facts));
    for wrong in 0..3 {
        let mut moved = accounts.clone();
        moved[wrong].owner = key(9);
        assert!(!paid(&ctx, &moved, &facts));
    }
    let mut moved = accounts.clone();
    moved[2].key = key(9);
    assert!(!paid(&ctx, &moved, &facts));

    let token = |mint, owner, amount| Ok(TokenAccount { mint: key(mint), owner, amount });
    let mut f = facts;
    f.vault_token = token(TOKEN, authority().0, 0);
    assert!(!paid(&ctx, &accounts, &f));
    f.vault_token = token(TOKEN, key(OWNER), 5);
    assert!(!paid(&ctx, &accounts, &f));
    f = facts;
    f.owner_token = token(TOKEN, key(BOT), 0);
    assert!(!paid(&ctx, &accounts, &f));
    f.owner_token = token(12, key(OWNER), 0);
    assert!(!paid(&ctx, &accounts, &f));
}

#[test]
fn unreadable_accounts_stop_the_payout() {
    let ctx = context();
    let accounts = vec![info(key(20), &[]), info(key(21), &[]), info(key(TOKEN), &[])];
    assert_eq!(withdraw_all_step(&ctx, &accounts, 0), Err(Failure::Program(4 << 32)));
    let facts = WithdrawFacts {
        vault_token: Ok(TokenAccount { mint: key(TOKEN), owner: authority().0, amount: 5 }),
        owner_token: Err(Failure::Program(1)),
        mint: Err(Failure::Program(2)),
    };
    assert_eq!(decide_withdraw_step(&ctx, &accounts, 0, &facts), Err(Failure::Program(1)));
    let facts = WithdrawFacts { owner_token: facts.vault_token, ..facts };
    assert_eq!(decide_withdraw_step(&ctx, &accounts, 0, &facts), Err(Failure::Program(2)));
    let facts = WithdrawFacts { vault_token: Err(Failure::Program(3)), ..facts };
    assert_eq!(decide_withdraw_step(&ctx, &accounts, 0, &facts), Err(Failure::Program(3)));
    assert_eq!(decide_withdraw_step(&ctx, &accounts, 1, &facts), Ok(None));
}

#[test]
fn only_owner_and_bot_have_everything_paid() {
    let mut ctx = context();
    ctx.caller = meta(OWNER, true);
    assert_eq!(withdraw_all(&ctx, &[]), Ok(()));
    ctx.caller = meta(9, true);
    assert_eq!(withdraw_all(&ctx, &[]), Err(refused(VaultError::Unauthorized)));
    ctx.caller = meta(OWNER, false);
    assert_eq!(
        withdraw_all(&ctx, &[]),
        Err(Failure::Constraint(ConstraintError::AccountNotSigner))
    );
    let mut ctx = context();
    ctx.owner = meta(BOT, true);
    assert_eq!(withdraw_all(&ctx, &[]), Err(refused(VaultError::Unauthorized)));
    let ctx = context();
    assert_eq!(
        withdraw_all(&ctx, &[info(key(20), &[])]),
        Err(refused(VaultError::BadAccount))
    );
    assert_eq!(
        decide_withdraw_all(&ctx, &[], None),
        Err(Failure::Constraint(ConstraintError::ConstraintSeeds))
    );
}

#[test]
fn lamports_beyond_the_rent_are_paid() {
    let payout = withdraw_vault_lamports(&home(), &key(OWNER), 150, 100).unwrap();
    assert_eq!(payout.lamports, LamportMove { from: home(), to: key(OWNER), amount: 50 });
    assert_eq!((payout.event.mint, payout.event.to), (key(0), key(OWNER)));
    assert_eq!(payout.event.amount, 50);
    assert_eq!(payout.lamports.apply(150, 7), (100, 57));
    assert_eq!(withdraw_vault_lamports(&home(), &key(OWNER), 100, 100), None);
    assert_eq!(withdraw_vault_lamports(&home(), &key(OWNER), 99, 100), None);
}

#[test]
fn a_move_to_itself_changes_nothing() {
    let moved = LamportMove { from: key(1), to: key(1), amount: 5 };
    assert_eq!(moved.apply(u64::MAX, u64::MAX), (u64::MAX, u64::MAX));
    let moved = LamportMove { from: key(1), to: key(2), amount: 5 };
    assert_eq!(moved.apply(5, u64::MAX - 5), (0, u64::MAX));
}

fn native() -> WithdrawNative {
    WithdrawNative { vault: vault(), owner: meta(OWNER, true), recipient: meta(30, false) }
}

#[test]
fn the_owner_pays_lamports() {
    let payout = withdraw_native(&native(), 150, 100, 50).unwrap();
    assert_eq!(payout.lamports, LamportMove { from: home(), to: key(30), amount: 50 });
    assert_eq!((payout.event.mint, payout.event.to), (key(0), key(30)));
    assert_eq!(payout.event.amount, 50);
    assert_eq!(payout.lamports.apply(150, 0), (100, 50));

    assert_eq!(
        withdraw_native(&native(), 150, 100, 51),
        Err(refused(VaultError::InsufficientBalance))
    );
    assert_eq!(withdraw_native(&native(), 150, 100, 0), Err(refused(VaultError::InvalidInput)));
    let mut ctx = native();
    ctx.owner = meta(BOT, true);
    assert_eq!(
        withdraw_native(&ctx, 150, 100, 50),
        Err(Failure::Constraint(ConstraintError::ConstraintHasOne))
    );
    let mut ctx = native();
    ctx.recipient.is_writable = false;
    assert_eq!(
        withdraw_native(&ctx, 150, 100, u64::MAX),
        Err(Failure::Constraint(ConstraintError::ConstraintMut))
    );
}

fn single() -> WithdrawToken {
    WithdrawToken {
        vault: vault(),
        vault_authority: authority().0,
        owner: meta(OWNER, true),
        mint: Account {
            key: key(TOKEN),
            is_writable: false,
            program: program(),
            data: Mint { decimals: 9 },
        },
        vault_token_account: Account {
            key: vault_ata_address(&authority().0, &key(TOKEN), &program()).unwrap(),
            is_writable: true,
            program: program(),
            data: TokenAccount { mint: key(TOKEN), owner: authority().0, amount: 500 },
        },
        recipient_wallet: key(30),
        recipient_token_account: Account {
            key: key(31),
            is_writable: true,
            program: program(),
            data: TokenAccount { mint: key(TOKEN), owner: key(30), amount: 0 },
        },
        token_program: callable(program()),
    }
}

#[test]
fn the_owner_pays_tokens() {
    let payout = withdraw_token(&single(), 200).unwrap();
    assert_eq!(payout.transfer.from, single().vault_token_account.key);
    assert_eq!((payout.transfer.to, payout.transfer.mint), (key(31), key(TOKEN)));
    assert_eq!((payout.transfer.amount, payout.transfer.decimals), (200, 9));
    assert_eq!(payout.transfer.authority, authority().0);
    assert_eq!(payout.transfer.token_program, program());
    assert_eq!(payout.transfer.signer_seeds, signer_seeds(&home(), authority().1));
    assert_eq!((payout.event.mint, payout.event.to), (key(TOKEN), key(30)));
    assert_eq!(payout.event.amount, 200);
}

#[test]
fn token_payouts_are_checked() {
    assert_eq!(withdraw_token(&single(), 0), Err(refused(VaultError::InvalidInput)));
    let bad = Err(refused(VaultError::BadAccount));
    let mut ctx = single();
    ctx.vault_token_account.data.owner = key(30);
    assert_eq!(withdraw_token(&ctx, 1), bad);
    let mut ctx = single();
    ctx.vault_token_account.data.mint = key(12);
    assert_eq!(withdraw_token(&ctx, 1), bad);
    let mut ctx = single();
    ctx.recipient_token_account.data.mint = key(12);
    assert_eq!(withdraw_token(&ctx, 1), bad);
    let mut ctx = single();
    ctx.recipient_wallet = key(32);
    assert_eq!(withdraw_token(&ctx, 1), bad);
    let mut ctx = single();
    ctx.vault_token_account.program = Pubkey { bytes: TOKEN_2022_PROGRAM };
    assert_eq!(withdraw_token(&ctx, 1), bad);
    let mut ctx = single();
    ctx.recipient_token_account.program = Pubkey { bytes: TOKEN_2022_PROGRAM };
    assert_eq!(withdraw_token(&ctx, 1), bad);
    let mut ctx = single();
    ctx.mint.program = Pubkey { bytes: TOKEN_2022_PROGRAM };
    assert_eq!(withdraw_token(&ctx, 1), bad);
    let mut ctx = single();
    ctx.vault_token_account.key = key(33);
    assert_eq!(withdraw_token(&ctx, 1), bad);
    let mut ctx = single();
    ctx.owner = meta(BOT, true);
    assert_eq!(
        withdraw_token(&ctx, 1),
        Err(Failure::Constraint(ConstraintError::ConstraintHasOne))
    );
    assert_eq!(
        decide_withdraw_token(&single(), 1, Some(authority().0), None),
        Err(Failure::NoAddress)
    );
}

#[test]
fn payouts_need_a_token_program() {
    let wrong = Err(Failure::Constraint(ConstraintError::InvalidProgramId));
    let mut ctx = context();
    ctx.token_program.key = key(0);
    assert_eq!(withdraw_all(&ctx, &[]), wrong);
    ctx.token_program = callable(program());
    ctx.token_program.executable = false;
    assert_eq!(
        withdraw_all(&ctx, &[]),
        Err(Failure::Constraint(ConstraintError::InvalidProgramExecutable))
    );
    let mut ctx = single();
    ctx.token_program.key = key(9);
    assert_eq!(withdraw_token(&ctx, 1).unwrap_err(), wrong.unwrap_err());
    ctx.recipient_token_account.program = key(9);
    assert_eq!(
        withdraw_token(&ctx, 1),
        Err(Failure::Constraint(ConstraintError::AccountOwnedByWrongProgram))
    );
    let mut ctx = native();
    ctx.vault.program = key(9);
    assert_eq!(
        withdraw_native(&ctx, 150, 100, 50),
        Err(Failure::Constraint(ConstraintError::AccountOwnedByWrongProgram))
    );
}

#[test]
fn paying_everything_out_twice_pays_once() {
    let ctx = context();
    let mint = mint_data(6);
    let mut held = [
        token_data(key(TOKEN), authority().0, 500),
        token_data(key(TOKEN), authority().0, 7),
    ];
    let mut paid = token_data(key(TOKEN), key(OWNER), 1);
    let run = |held: &mut [Vec<u8>; 2], paid: &mut Vec<u8>| {
        let mut payouts = Vec::new();
        let mut cursor = 0;
        loop {
            let step = {
                let accounts = vec![
                    info(key(20), &held[0]),
                    info(key(21), paid),
                    info(key(TOKEN), &mint),
                    info(key(22), &held[1]),
                    info(key(21), paid),
                    info(key(TOKEN), &mint),
                ];
                withdraw_all(&ctx, &accounts).unwrap();
                withdraw_all_step(&ctx, &accounts, cursor).unwrap()
            };
            let step = match step {
                Some(step) => step,
                None => return payouts,
            };
            if let Some(payout) = step.payout {
                let amount = payout.transfer.amount;
                let source = if payout.transfer.from == key(20) { 0 } else { 1 };
                held[source] = token_data(key(TOKEN), authority().0, 0);
                let before = trading_vault::account::reload_token_account(paid).unwrap().amount;
                *paid = token_data(key(TOKEN), key(OWNER), before + amount);
                payouts.push(amount);
            }
            cursor = step.next;
        }
    };
    assert_eq!(run(&mut held, &mut paid), vec![500, 7]);
    assert_eq!(run(&mut held, &mut paid), Vec::<u64>::new());
    assert_eq!(trading_vault::account::reload_token_account(&paid).unwrap().amount, 508);

    let payout = withdraw_vault_lamports(&home(), &key(OWNER), 150, 100).unwrap();
    let (left, _) = payout.lamports.apply(150, 0);
    assert_eq!(withdraw_vault_lamports(&home(), &key(OWNER), left, 100), None);
}

#[test]
fn accounts_of_other_programs_stop_the_payout() {
    let ctx = context();
    let held = token_data(key(TOKEN), authority().0, 500);
    let owners = token_data(key(TOKEN), key(OWNER), 1);
    let mint = mint_data(6);
    let good = vec![info(key(20), &held), info(key(21), &owners), info(key(TOKEN), &mint)];
    assert!(withdraw_all_step(&ctx, &good, 0).unwrap().unwrap().payout.is_some());
    for foreign in 0..3 {
        let mut accounts = good.clone();
        accounts[foreign].owner = key(9);
        assert_eq!(withdraw_all_step(&ctx, &accounts, 0), Err(Failure::Program(3007)));
        accounts[foreign].owner = key(0);
        assert_eq!(withdraw_all_step(&ctx, &accounts, 0), Err(Failure::Program(3007)));
        accounts[foreign].lamports = 0;
        assert_eq!(withdraw_all_step(&ctx, &accounts, 0), Err(Failure::Program(3012)));
    }
}
