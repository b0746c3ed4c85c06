use anchor_lang::prelude::Pubkey as Address;
use trading_vault::account::{load_mint, load_token_account, reload_token_account, AccountInfo};
use trading_vault::associated::{
    associated_token_address_with_program, decide_vault_ata, is_supported_token_account_owner,
    require_vault_ata, vault_ata_address,
};
use trading_vault::context::{derive_authority, derive_vault, find_authority};
use trading_vault::pubkey::{
    id, ASSOCIATED_TOKEN_PROGRAM, PROGRAM_ID, TOKEN_2022_PROGRAM, TOKEN_PROGRAM,
};
use trading_vault::vault::{authority_seeds, signer_seeds, vault_seeds};
use trading_vault::{Failure, Pubkey, VaultError};

fn key(n: u8) -> Pubkey {
    Pubkey { bytes: [n; 32] }
}

fn of(address: Address) -> Pubkey {
    Pubkey { bytes: address.to_bytes() }
}

fn to(key: Pubkey) -> Address {
    Address::new_from_array(key.bytes)
}

fn token_data(mint: Pubkey, owner: Pubkey, amount: u64) -> Vec<u8> {
    let mut data = vec![0u8; 165];
    data[0..32].copy_from_slice(&mint.bytes);
    data[32..64].copy_from_slice(&owner.bytes);
    data[64..72].copy_from_slice(&amount.to_le_bytes());
    data[108] = 1;
    data
}

fn mint_data(decimals: u8) -> Vec<u8> {
    let mut data = vec![0u8; 82];
    data[44] = decimals;
    data[45] = 1;
    data
}

fn info(owner: Pubkey, lamports: u64, data: &[u8]) -> AccountInfo<'_> {
    AccountInfo { key: key(9), is_signer: false, is_writable: true, owner, lamports, data }
}

#[test]
fn keys_are_equal_by_their_bytes() {
    assert!(key(1) == key(1));
    assert!(key(1) != key(2));
    let mut almost = key(1);
    almost.bytes[31] = 0;
    assert!(almost != key(1));
    assert_eq!(Pubkey::default(), key(0));
}

#[test]
fn known_programs_have_their_published_addresses() {
    assert_eq!(Address::new_from_array(TOKEN_PROGRAM), anchor_spl::token::ID);
    assert_eq!(Address::new_from_array(TOKEN_2022_PROGRAM), anchor_spl::token_2022::ID);
    assert_eq!(Address::new_from_array(ASSOCIATED_TOKEN_PROGRAM), anchor_spl::associated_token::ID);
    assert_eq!(
        Address::new_from_array(PROGRAM_ID).to_string(),
        "EjKyCEqT3GkDP6PJajYqjrsWQNosfYFWZE2US2rWp7bR"
    );
    assert_eq!(id().bytes, PROGRAM_ID);
}

#[test]
fn only_token_programs_hold_tokens() {
    assert!(is_supported_token_account_owner(&Pubkey { bytes: TOKEN_PROGRAM }));
    assert!(is_supported_token_account_owner(&Pubkey { bytes: TOKEN_2022_PROGRAM }));
    assert!(!is_supported_token_account_owner(&Pubkey { bytes: ASSOCIATED_TOKEN_PROGRAM }));
    assert!(!is_supported_token_account_owner(&key(0)));
}

#[test]
fn seeds_are_spelled_out() {
    assert_eq!(vault_seeds(&key(3)), vec![b"vault".to_vec(), vec![3; 32]]);
    assert_eq!(authority_seeds(&key(4)), vec![b"vault_authority".to_vec(), vec![4; 32]]);
    assert_eq!(
        signer_seeds(&key(4), 251),
        vec![b"vault_authority".to_vec(), vec![4; 32], vec![251]]
    );
}

#[test]
fn vault_addresses_are_derived() {
    let owner = key(3);
    let program = Address::new_from_array(PROGRAM_ID);
    let (home, bump) = Address::find_program_address(&[b"vault", &owner.bytes], &program);
    assert_eq!(derive_vault(&owner), Some((of(home), bump)));

    let (authority, bump) =
        Address::find_program_address(&[b"vault_authority", home.as_ref()], &program);
    assert_eq!(find_authority(&of(home)), Some((of(authority), bump)));
}

#[test]
fn found_authority_is_the_one_signed_for() {
    for n in 0..8u8 {
        let (authority, bump) = find_authority(&key(n)).unwrap();
        assert_eq!(derive_authority(&key(n), bump), Some(authority));
        let seeds = signer_seeds(&key(n), bump);
        let parts: Vec<&[u8]> = seeds.iter().map(|seed| &seed[..]).collect();
        assert_eq!(
            Address::create_program_address(&parts, &Address::new_from_array(PROGRAM_ID)).unwrap(),
            to(authority)
        );
    }
}

#[test]
fn bumps_above_the_found_one_give_no_address() {
    let mut seen = false;
    for n in 0..16u8 {
        let (_, bump) = find_authority(&key(n)).unwrap();
        if bump < 255 {
            assert_eq!(derive_authority(&key(n), 255), None);
            seen = true;
        }
    }
    assert!(seen);
}

#[test]
fn associated_addresses_match_the_token_library() {
    let (owner, mint) = (key(5), key(6));
    for program in [TOKEN_PROGRAM, TOKEN_2022_PROGRAM] {
        let expected =
            anchor_spl::associated_token::get_associated_token_address_with_program_id(
                &to(owner),
                &to(mint),
                &Address::new_from_array(program),
            );
        let program = Pubkey { bytes: program };
        assert_eq!(vault_ata_address(&owner, &mint, &program), Some(of(expected)));
        assert_eq!(
            associated_token_address_with_program(
                &owner,
                &mint,
                &program,
                &Pubkey { bytes: ASSOCIATED_TOKEN_PROGRAM }
            ),
            Some(of(expected))
        );
        assert_eq!(require_vault_ata(&owner, &mint, &program, &of(expected)), Ok(()));
        assert_eq!(
            require_vault_ata(&owner, &mint, &program, &mint),
            Err(Failure::Vault(VaultError::BadAccount))
        );
    }
}

#[test]
fn a_missing_address_is_reported() {
    assert_eq!(decide_vault_ata(None, &key(1)), Err(Failure::NoAddress));
    assert_eq!(decide_vault_ata(Some(key(1)), &key(1)), Ok(()));
    assert_eq!(
        decide_vault_ata(Some(key(2)), &key(1)),
        Err(Failure::Vault(VaultError::BadAccount))
    );
}

#[test]
fn token_accounts_are_read() {
    let data = token_data(key(1), key(2), 77);
    for program in [TOKEN_PROGRAM, TOKEN_2022_PROGRAM] {
        let token = load_token_account(&info(Pubkey { bytes: program }, 1, &data)).unwrap();
        assert_eq!((token.mint, token.owner, token.amount), (key(1), key(2), 77));
    }
    let token = reload_token_account(&data).unwrap();
    assert_eq!((token.mint, token.owner, token.amount), (key(1), key(2), 77));
}

#[test]
fn mints_are_read() {
    let data = mint_data(6);
    let mint = load_mint(&info(Pubkey { bytes: TOKEN_PROGRAM }, 1, &data)).unwrap();
    assert_eq!(mint.decimals, 6);
}

#[test]
fn unreadable_accounts_are_reported_by_number() {
    let data = token_data(key(1), key(2), 77);
    // A system account without lamports does not exist.
    let absent = info(Pubkey::default(), 0, &[]);
    assert_eq!(load_token_account(&absent), Err(Failure::Program(3012)));
    assert_eq!(load_mint(&absent), Err(Failure::Program(3012)));
    // A system account, and one of any other program, is of the wrong program.
    assert_eq!(
        load_token_account(&info(Pubkey::default(), 1, &data)),
        Err(Failure::Program(3007))
    );
    assert_eq!(load_token_account(&info(key(7), 1, &data)), Err(Failure::Program(3007)));
    // Too short: invalid account data.
    let invalid = Failure::Program(4 << 32);
    let program = Pubkey { bytes: TOKEN_PROGRAM };
    assert_eq!(load_token_account(&info(program, 1, &data[..164])), Err(invalid));
    assert_eq!(reload_token_account(&data[..164]), Err(invalid));
    // Never initialized.
    let blank = vec![0u8; 165];
    assert_eq!(reload_token_account(&blank), Err(Failure::Program(10 << 32)));
}

#[test]
fn a_token_account_is_no_mint() {
    let program = Pubkey { bytes: TOKEN_PROGRAM };
    let data = token_data(key(1), key(2), 77);
    assert!(load_mint(&info(program, 1, &data)).is_err());
    assert!(load_token_account(&info(program, 1, &mint_data(6))).is_err());
}

#[test]
fn reading_again_agrees_with_reading() {
    let data = token_data(key(1), key(2), 77);
    for program in [TOKEN_PROGRAM, TOKEN_2022_PROGRAM] {
        for lamports in [0, 1] {
            let program = Pubkey { bytes: program };
            for length in [0, 82, 164, 165] {
                let part = &data[..length];
                assert_eq!(
                    load_token_account(&info(program, lamports, part)),
                    reload_token_account(part)
                );
            }
        }
    }
    assert_eq!(load_mint(&info(key(7), 1, &mint_data(6))), Err(Failure::Program(3007)));
}
