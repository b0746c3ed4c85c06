use trading_vault::account::{Account, AccountInfo, AccountMeta, Program, TokenAccount};
use trading_vault::associated::vault_ata_address;
use trading_vault::context::{derive_vault, find_authority};
use trading_vault::error::ConstraintError;
use trading_vault::pubkey::{TOKEN_2022_PROGRAM, TOKEN_PROGRAM};
use trading_vault::trading::{
    decide_trade, finish_trade, settle_trade, validate_trade_remaining_accounts, TradeFacts,
    TradeOrder, TradePlan,
};
use trading_vault::vault::{require_allowed, require_bot_or_owner, signer_seeds};
use trading_vault::{trade, Failure, Pubkey, Trade, Vault, VaultError, MAX_JUPITER_IX_DATA_BYTES};

const OWNER: u8 = 1;
const BOT: u8 = 2;
const ROUTER: u8 = 3;
const IN: u8 = 11;
const OUT: u8 = 12;
const OTHER: u8 = 13;

fn key(n: u8) -> Pubkey {
    Pubkey { bytes: [n; 32] }
}

fn callable(key: Pubkey) -> Program {
    Program { key, executable: true }
}

fn refused(error: VaultError) -> Failure {
    Failure::Vault(error)
}

fn program_in() -> Pubkey {
    Pubkey { bytes: TOKEN_PROGRAM }
}

fn program_out() -> Pubkey {
    Pubkey { bytes: TOKEN_2022_PROGRAM }
}

fn home() -> Pubkey {
    derive_vault(&key(OWNER)).unwrap().0
}

fn authority() -> (Pubkey, u8) {
    find_authority(&home()).unwrap()
}

fn vault() -> Vault {
    Vault {
        owner: key(OWNER),
        bot_address: key(BOT),
        jupiter_router: key(ROUTER),
        authority_bump: authority().1,
        allowed_mints: vec![key(IN), key(OUT), key(OTHER)],
    }
}

fn ata(mint: u8, program: Pubkey) -> Pubkey {
    vault_ata_address(&authority().0, &key(mint), &program).unwrap()
}

fn holding(mint: u8, program: Pubkey, amount: u64) -> Account<TokenAccount> {
    Account {
        key: ata(mint, program),
        is_writable: true,
        program,
        data: TokenAccount { mint: key(mint), owner: authority().0, amount },
    }
}

fn context() -> Trade {
    Trade {
        vault: Account {
            key: home(),
            is_writable: true,
            program: trading_vault::pubkey::id(),
            data: vault(),
        },
        vault_authority: authority().0,
        caller: AccountMeta { pubkey: key(BOT), is_signer: true, is_writable: true },
        vault_token_in: holding(IN, program_in(), 1000),
        vault_token_out: holding(OUT, program_out(), 5),
        jupiter_program: key(ROUTER),
        token_program_in: callable(program_in()),
        token_program_out: callable(program_out()),
    }
}

fn token_data(mint: Pubkey, owner: Pubkey, amount: u64) -> Vec<u8> {
    let mut data = vec![0u8; 165];
    data[0..32].copy_from_slice(&mint.bytes);
    data[32..64].copy_from_slice(&owner.bytes);
    data[64..72].copy_from_slice(&amount.to_le_bytes());
    data[108] = 1;
    data
}

fn info(key: Pubkey, owner: Pubkey, is_writable: bool, data: &[u8]) -> AccountInfo<'_> {
    AccountInfo { key, is_signer: false, is_writable, owner, lamports: 1, data }
}

fn remaining() -> Vec<AccountInfo<'static>> {
    vec![
        info(authority().0, key(0), false, &[]),
        info(ata(IN, program_in()), program_in(), true, &[]),
        info(ata(OUT, program_out()), program_out(), true, &[]),
        info(program_in(), key(9), false, &[]),
        info(program_out(), key(9), false, &[]),
        info(key(50), key(51), true, &[]),
        info(key(ROUTER), key(9), false, &[]),
    ]
}

fn data() -> [u8; MAX_JUPITER_IX_DATA_BYTES] {
    let mut data = [0u8; MAX_JUPITER_IX_DATA_BYTES];
    data[0] = 7;
    data[1] = 8;
    data[2] = 9;
    data
}

fn run(ctx: &Trade, remaining: &[AccountInfo]) -> Result<TradePlan, Failure> {
    trade(ctx, remaining, key(IN), key(OUT), 100, 10, 2, data())
}

#[test]
fn a_trade_goes_ahead() {
    let plan = run(&context(), &remaining()).unwrap();
    assert_eq!(plan.instruction.program_id, key(ROUTER));
    assert_eq!(plan.instruction.data, vec![7, 8]);
    assert_eq!(plan.signer_seeds, signer_seeds(&home(), authority().1));
    assert_eq!((plan.token_in, plan.token_out), (key(IN), key(OUT)));
    assert_eq!((plan.amount_in, plan.min_amount_out), (100, 10));
    assert_eq!((plan.token_in_before, plan.token_out_before), (1000, 5));

    let accounts = remaining();
    assert_eq!(plan.instruction.accounts.len(), accounts.len() - 1);
    for (meta, account) in plan.instruction.accounts.iter().zip(&accounts) {
        assert_eq!(meta.pubkey, account.key);
        assert_eq!(meta.is_writable, account.is_writable);
        assert_eq!(meta.is_signer, account.key == authority().0);
    }
}

#[test]
fn the_owner_trades_too() {
    let mut ctx = context();
    ctx.caller.pubkey = key(OWNER);
    assert!(run(&ctx, &remaining()).is_ok());
    ctx.caller.pubkey = key(99);
    assert_eq!(run(&ctx, &remaining()).unwrap_err(), refused(VaultError::Unauthorized));
    ctx.caller.is_signer = false;
    assert_eq!(
        run(&ctx, &remaining()).unwrap_err(),
        Failure::Constraint(ConstraintError::AccountNotSigner)
    );
}

#[test]
fn callers_and_tokens_are_checked_alone() {
    assert_eq!(require_bot_or_owner(&vault(), &key(OWNER)), Ok(()));
    assert_eq!(require_bot_or_owner(&vault(), &key(BOT)), Ok(()));
    assert_eq!(
        require_bot_or_owner(&vault(), &key(ROUTER)),
        Err(refused(VaultError::Unauthorized))
    );
    assert_eq!(require_allowed(&vault(), &key(OTHER)), Ok(()));
    assert_eq!(require_allowed(&vault(), &key(99)), Err(refused(VaultError::TokenNotAllowed)));
}

#[test]
fn the_order_is_checked() {
    let ctx = context();
    let accounts = remaining();
    let order = |token_in, token_out, amount_in, min_out, len| {
        trade(&ctx, &accounts, key(token_in), key(token_out), amount_in, min_out, len, data())
            .map(|_| ())
    };
    assert_eq!(order(IN, OUT, 100, 10, 128), Ok(()));
    assert_eq!(order(IN, OUT, 100, 10, 0), Ok(()));
    assert_eq!(order(IN, OUT, 100, 10, 129), Err(refused(VaultError::InvalidInput)));
    assert_eq!(order(IN, OUT, 0, 10, 2), Err(refused(VaultError::InvalidInput)));
    assert_eq!(order(IN, OUT, 100, 0, 2), Err(refused(VaultError::InvalidInput)));
    assert_eq!(order(0, OUT, 100, 10, 2), Err(refused(VaultError::InvalidToken)));
    assert_eq!(order(IN, 0, 100, 10, 2), Err(refused(VaultError::InvalidToken)));
    assert_eq!(order(IN, IN, 100, 10, 2), Err(refused(VaultError::InvalidToken)));
    assert_eq!(order(99, OUT, 100, 10, 2), Err(refused(VaultError::TokenNotAllowed)));
    assert_eq!(order(IN, 99, 100, 10, 2), Err(refused(VaultError::TokenNotAllowed)));
    assert_eq!(order(OTHER, OUT, 100, 10, 2), Err(refused(VaultError::BadAccount)));
    assert_eq!(order(IN, OUT, 1000, 10, 2), Ok(()));
    assert_eq!(order(IN, OUT, 1001, 10, 2), Err(refused(VaultError::InsufficientBalance)));
}

#[test]
fn the_accounts_of_a_trade_are_checked() {
    let accounts = remaining();
    let mut ctx = context();
    ctx.jupiter_program = key(99);
    assert_eq!(run(&ctx, &accounts).unwrap_err(), refused(VaultError::InvalidRouter));
    let mut ctx = context();
    ctx.vault_token_in.data.owner = key(99);
    assert_eq!(run(&ctx, &accounts).unwrap_err(), refused(VaultError::BadAccount));
    let mut ctx = context();
    ctx.vault_token_out.data.owner = key(99);
    assert_eq!(run(&ctx, &accounts).unwrap_err(), refused(VaultError::BadAccount));
    let mut ctx = context();
    ctx.vault_token_in.program = program_out();
    assert_eq!(run(&ctx, &accounts).unwrap_err(), refused(VaultError::BadAccount));
    let mut ctx = context();
    ctx.vault_token_out.key = key(99);
    assert_eq!(run(&ctx, &accounts).unwrap_err(), refused(VaultError::BadAccount));
    let wrong = Failure::Constraint(ConstraintError::InvalidProgramId);
    let mut ctx = context();
    ctx.token_program_in.key = key(99);
    assert_eq!(run(&ctx, &accounts).unwrap_err(), wrong);
    let mut ctx = context();
    ctx.token_program_out.key = key(0);
    assert_eq!(run(&ctx, &accounts).unwrap_err(), wrong);
    let mut ctx = context();
    ctx.token_program_out.executable = false;
    assert_eq!(
        run(&ctx, &accounts).unwrap_err(),
        Failure::Constraint(ConstraintError::InvalidProgramExecutable)
    );
    let mut ctx = context();
    ctx.vault_token_out.program = key(99);
    assert_eq!(
        run(&ctx, &accounts).unwrap_err(),
        Failure::Constraint(ConstraintError::AccountOwnedByWrongProgram)
    );
    let mut ctx = context();
    ctx.vault.data.authority_bump = 0;
    assert_eq!(
        run(&ctx, &accounts).unwrap_err(),
        Failure::Constraint(ConstraintError::ConstraintSeeds)
    );
    let mut ctx = context();
    ctx.vault_token_out.is_writable = false;
    assert_eq!(
        run(&ctx, &accounts).unwrap_err(),
        Failure::Constraint(ConstraintError::ConstraintMut)
    );
}

#[test]
fn the_router_comes_last() {
    let ctx = context();
    assert_eq!(run(&ctx, &[]).unwrap_err(), refused(VaultError::BadAccount));
    let mut accounts = remaining();
    accounts.pop();
    assert_eq!(run(&ctx, &accounts).unwrap_err(), refused(VaultError::InvalidRouter));
}

#[test]
fn the_router_needs_its_accounts() {
    for missing in 0..5 {
        let mut accounts = remaining();
        accounts[missing].key = key(99);
        assert_eq!(run(&context(), &accounts).unwrap_err(), refused(VaultError::BadAccount));
    }
    for read_only in 1..3 {
        let mut accounts = remaining();
        accounts[read_only].is_writable = false;
        assert_eq!(run(&context(), &accounts).unwrap_err(), refused(VaultError::BadAccount));
    }
}

#[test]
fn other_tokens_of_the_vault_are_protected() {
    let foreign = token_data(key(OTHER), key(99), 1);
    let own = token_data(key(OTHER), authority().0, 1);
    let junk = vec![1u8; 10];
    let ctx = context();

    let mut accounts = remaining();
    accounts[5] = info(key(50), program_in(), true, &foreign);
    assert!(run(&ctx, &accounts).is_ok());
    accounts[5] = info(key(50), program_in(), true, &own);
    assert_eq!(run(&ctx, &accounts).unwrap_err(), refused(VaultError::BadAccount));
    // Harmless: read-only, not of a token program, no token account.
    accounts[5] = info(key(50), program_in(), false, &own);
    assert!(run(&ctx, &accounts).is_ok());
    accounts[5] = info(key(50), key(51), true, &own);
    assert!(run(&ctx, &accounts).is_ok());
    accounts[5] = info(key(50), program_out(), true, &junk);
    assert!(run(&ctx, &accounts).is_ok());
    // The traded accounts themselves.
    accounts[5] = info(ata(IN, program_in()), program_in(), true, &own);
    assert!(run(&ctx, &accounts).is_ok());
}

#[test]
fn remaining_accounts_are_validated_alone() {
    let accounts = remaining();
    let validate = |accounts: &[AccountInfo]| {
        validate_trade_remaining_accounts(
            accounts,
            &authority().0,
            &ata(IN, program_in()),
            &ata(OUT, program_out()),
            &program_in(),
            &program_out(),
        )
    };
    assert_eq!(validate(&accounts), Ok(()));
    assert_eq!(validate(&accounts[..4]), Err(refused(VaultError::BadAccount)));
    assert_eq!(validate(&[]), Err(refused(VaultError::BadAccount)));
}

#[test]
fn a_trade_with_given_facts() {
    let ctx = context();
    let accounts = remaining();
    let order = TradeOrder {
        token_in_mint: key(IN),
        token_out_mint: key(OUT),
        amount_in: 100,
        min_amount_out: 10,
        jupiter_ix_data_len: 2,
        jupiter_ix_data: data(),
    };
    let facts = TradeFacts {
        authority: Some(ctx.vault_authority),
        ata_in: Some(ctx.vault_token_in.key),
        ata_out: Some(ctx.vault_token_out.key),
        tokens: vec![],
    };
    assert!(decide_trade(&ctx, &accounts, &order, &facts).is_ok());
    let mut other = facts.clone();
    other.ata_in = None;
    assert_eq!(decide_trade(&ctx, &accounts, &order, &other).unwrap_err(), Failure::NoAddress);
    let mut other = facts.clone();
    other.ata_out = Some(key(99));
    assert_eq!(
        decide_trade(&ctx, &accounts, &order, &other).unwrap_err(),
        refused(VaultError::BadAccount)
    );
    let mut other = facts.clone();
    other.authority = None;
    assert_eq!(
        decide_trade(&ctx, &accounts, &order, &other).unwrap_err(),
        Failure::Constraint(ConstraintError::ConstraintSeeds)
    );
}

#[test]
fn settlements() {
    let plan = run(&context(), &remaining()).unwrap();
    let event = settle_trade(&plan, 900, 15).unwrap();
    assert_eq!((event.amount_in, event.amount_spent, event.amount_out), (100, 100, 10));
    assert_eq!((event.token_in, event.token_out, event.router), (key(IN), key(OUT), key(ROUTER)));
    let event = settle_trade(&plan, 1000, 99).unwrap();
    assert_eq!((event.amount_spent, event.amount_out), (0, 94));

    assert_eq!(settle_trade(&plan, 1001, 15), Err(refused(VaultError::Math)));
    assert_eq!(settle_trade(&plan, 900, 4), Err(refused(VaultError::Slippage)));
    assert_eq!(settle_trade(&plan, 899, 4), Err(refused(VaultError::Slippage)));
    assert_eq!(settle_trade(&plan, 899, 14), Err(refused(VaultError::InsufficientBalance)));
    assert_eq!(settle_trade(&plan, 900, 14), Err(refused(VaultError::Slippage)));
}

#[test]
fn a_trade_is_settled_by_account_data() {
    let plan = run(&context(), &remaining()).unwrap();
    let token_in = token_data(key(IN), authority().0, 950);
    let token_out = token_data(key(OUT), authority().0, 25);
    let event = finish_trade(&plan, &token_in, &token_out).unwrap();
    assert_eq!((event.amount_spent, event.amount_out), (50, 20));
    let invalid = Err(Failure::Program(4 << 32));
    assert_eq!(finish_trade(&plan, &token_in[..1], &token_out), invalid);
    assert_eq!(finish_trade(&plan, &token_in, &token_out[..1]), invalid);
}
