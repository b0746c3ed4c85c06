//! Accounts as a request presents them, and the token data that they hold.
use vstd::prelude::*;

use crate::associated::is_token_program;
use crate::error::Failure;
use crate::pubkey::{key, lemma_key_of_view, no_key, Pubkey};

verus! {

/// An account as an instruction names it.
#[derive(Clone, Copy, Debug, PartialEq, Eq)]
pub struct AccountMeta {
    pub pubkey: Pubkey,
    pub is_signer: bool,
    pub is_writable: bool,
}

impl AccountMeta {
    /// Names an account that the instruction may write to.
    pub fn new(pubkey: Pubkey, is_signer: bool) -> (meta: Self)
        ensures
            meta == (AccountMeta { pubkey, is_signer, is_writable: true }),
    {
        AccountMeta { pubkey, is_signer, is_writable: true }
    }

    /// Names an account that the instruction only reads.
    pub fn new_readonly(pubkey: Pubkey, is_signer: bool) -> (meta: Self)
        ensures
            meta == (AccountMeta { pubkey, is_signer, is_writable: false }),
    {
        AccountMeta { pubkey, is_signer, is_writable: false }
    }
}

/// An account that a request passes on without saying what it holds.
#[derive(Clone, Debug, PartialEq, Eq)]
pub struct AccountInfo<'a> {
    pub key: Pubkey,
    pub is_signer: bool,
    pub is_writable: bool,
    /// The program that owns the account.
    pub owner: Pubkey,
    pub lamports: u64,
    pub data: &'a [u8],
}

/// An account whose bytes have been read as a `T`.
#[derive(Clone, Debug, PartialEq, Eq)]
pub struct Account<T> {
    pub key: Pubkey,
    pub is_writable: bool,
    /// The program that owns the account.
    pub program: Pubkey,
    pub data: T,
}

/// A program that a request names.
#[derive(Clone, Copy, Debug, PartialEq, Eq)]
pub struct Program {
    pub key: Pubkey,
    /// The account holds a program that can be called.
    pub executable: bool,
}

/// What a token account holds, as far as the vault looks at it.
#[derive(Clone, Copy, Debug, PartialEq, Eq)]
pub struct TokenAccount {
    pub mint: Pubkey,
    /// Who may move the tokens.
    pub owner: Pubkey,
    pub amount: u64,
}

/// What the account of a mint holds, as far as the vault looks at it.
#[derive(Clone, Copy, Debug, PartialEq, Eq)]
pub struct Mint {
    pub decimals: u8,
}

/// The number of the error for an account that does not exist.
pub const ACCOUNT_NOT_INITIALIZED: u64 = 3012;

/// The number of the error for an account that belongs to another program.
pub const ACCOUNT_OWNED_BY_WRONG_PROGRAM: u64 = 3007;

/// The number of the error with which an account is refused, before its data is
/// looked at, because it does not belong to a token program. An account of the
/// system program without lamports does not exist.
pub open spec fn owner_refusal(owner: Pubkey, lamports: u64) -> Option<u64> {
    if owner == no_key() && lamports == 0 {
        Some(ACCOUNT_NOT_INITIALIZED)
    } else if !is_token_program(owner) {
        Some(ACCOUNT_OWNED_BY_WRONG_PROGRAM)
    } else {
        None
    }
}

/// What `TokenAccount::try_deserialize` of `anchor_spl` reads from the data: the
/// mint, the owner and the amount, or the number of the program error.
pub uninterp spec fn decoded_token_account(data: Seq<u8>) -> Result<(Seq<u8>, Seq<u8>, u64), u64>;

/// What `Mint::try_deserialize` of `anchor_spl` reads from the data: the decimals, or
/// the number of the program error.
pub uninterp spec fn decoded_mint(data: Seq<u8>) -> Result<u8, u64>;

/// A token account by what was read of it.
pub open spec fn token_account_of(read: Result<(Seq<u8>, Seq<u8>, u64), u64>) -> Result<
    TokenAccount,
    Failure,
> {
    match read {
        Ok((mint, owner, amount)) => Ok(TokenAccount { mint: key(mint), owner: key(owner), amount }),
        Err(code) => Err(Failure::Program(code)),
    }
}

/// The token account that the account is, or why it is none: the account belongs to a
/// token program, and its data is that of a token account.
pub open spec fn token_account_in(info: AccountInfo) -> Result<TokenAccount, Failure> {
    match owner_refusal(info.owner, info.lamports) {
        Some(code) => Err(Failure::Program(code)),
        None => token_account_of(decoded_token_account(info.data@)),
    }
}

/// The mint that the account is, or why it is none: the account belongs to a token
/// program, and its data is that of a mint.
pub open spec fn mint_in(info: AccountInfo) -> Result<Mint, Failure> {
    match owner_refusal(info.owner, info.lamports) {
        Some(code) => Err(Failure::Program(code)),
        None => match decoded_mint(info.data@) {
            Ok(decimals) => Ok(Mint { decimals }),
            Err(code) => Err(Failure::Program(code)),
        },
    }
}

/// Calls `InterfaceAccount::<TokenAccount>::try_from`. It refuses an account of the
/// system program without lamports, and any other that belongs to neither token
/// program, each with the number of the error; of the others it reads the data as
/// `TokenAccount::try_deserialize` does, whose result is named
/// `decoded_token_account`.
#[verifier::external_body]
fn try_from_token_account(info: &AccountInfo) -> (read: Result<TokenAccount, u64>)
    ensures
        match owner_refusal(info.owner, info.lamports) {
            Some(code) => read == Err::<TokenAccount, u64>(code),
            None => decoded_token_account(info.data@) == match read {
                Ok(token) => Ok((token.mint@, token.owner@, token.amount)),
                Err(code) => Err(code),
            },
        },
{
    let address = anchor_lang::prelude::Pubkey::new_from_array(info.key.bytes);
    let owner = anchor_lang::prelude::Pubkey::new_from_array(info.owner.bytes);
    let (mut lamports, mut data) = (info.lamports, info.data.to_vec());
    let account = anchor_lang::prelude::AccountInfo::new(
        &address, info.is_signer, info.is_writable, &mut lamports, &mut data, &owner, false, 0);
    anchor_lang::prelude::InterfaceAccount::<anchor_spl::token_interface::TokenAccount>::try_from(&account)
        .map(|token| TokenAccount {
            mint: Pubkey { bytes: token.mint.to_bytes() },
            owner: Pubkey { bytes: token.owner.to_bytes() },
            amount: token.amount,
        })
        .map_err(|error| u64::from(anchor_lang::prelude::ProgramError::from(error)))
}

/// Calls `InterfaceAccount::<Mint>::try_from`. It refuses an account of the system
/// program without lamports, and any other that belongs to neither token program,
/// each with the number of the error; of the others it reads the data as
/// `Mint::try_deserialize` does, whose result is named `decoded_mint`.
#[verifier::external_body]
fn try_from_mint(info: &AccountInfo) -> (read: Result<Mint, u64>)
    ensures
        match owner_refusal(info.owner, info.lamports) {
            Some(code) => read == Err::<Mint, u64>(code),
            None => decoded_mint(info.data@) == match read {
                Ok(mint) => Ok(mint.decimals),
                Err(code) => Err(code),
            },
        },
{
    let address = anchor_lang::prelude::Pubkey::new_from_array(info.key.bytes);
    let owner = anchor_lang::prelude::Pubkey::new_from_array(info.owner.bytes);
    let (mut lamports, mut data) = (info.lamports, info.data.to_vec());
    let account = anchor_lang::prelude::AccountInfo::new(
        &address, info.is_signer, info.is_writable, &mut lamports, &mut data, &owner, false, 0);
    anchor_lang::prelude::InterfaceAccount::<anchor_spl::token_interface::Mint>::try_from(&account)
        .map(|mint| Mint { decimals: mint.decimals })
        .map_err(|error| u64::from(anchor_lang::prelude::ProgramError::from(error)))
}

/// Calls `TokenAccount::try_deserialize`, which unpacks the data of a token
/// account without asking which program owns it. Its result is a function of
/// the data, named `decoded_token_account`.
#[verifier::external_body]
fn try_deserialize_token_account(data: &[u8]) -> (read: Result<TokenAccount, u64>)
    ensures
        decoded_token_account(data@) == match read {
            Ok(token) => Ok((token.mint@, token.owner@, token.amount)),
            Err(code) => Err(code),
        },
{
    <anchor_spl::token_interface::TokenAccount as anchor_lang::AccountDeserialize>::try_deserialize(&mut &data[..])
        .map(|token| TokenAccount {
            mint: Pubkey { bytes: token.mint.to_bytes() },
            owner: Pubkey { bytes: token.owner.to_bytes() },
            amount: token.amount,
        })
        .map_err(|error| u64::from(anchor_lang::prelude::ProgramError::from(error)))
}

/// Reads the account as a token account of one of the token programs.
pub fn load_token_account(info: &AccountInfo) -> (loaded: Result<TokenAccount, Failure>)
    ensures
        loaded == token_account_in(*info),
{
    broadcast use lemma_key_of_view;

    match try_from_token_account(info) {
        Ok(token) => Ok(token),
        Err(code) => Err(Failure::Program(code)),
    }
}

/// Reads the account as a mint of one of the token programs.
pub fn load_mint(info: &AccountInfo) -> (loaded: Result<Mint, Failure>)
    ensures
        loaded == mint_in(*info),
{
    match try_from_mint(info) {
        Ok(mint) => Ok(mint),
        Err(code) => Err(Failure::Program(code)),
    }
}

/// Reads the data as that of a token account.
pub fn reload_token_account(data: &[u8]) -> (loaded: Result<TokenAccount, Failure>)
    ensures
        loaded == token_account_of(decoded_token_account(data@)),
{
    broadcast use lemma_key_of_view;

    match try_deserialize_token_account(data) {
        Ok(token) => Ok(token),
        Err(code) => Err(Failure::Program(code)),
    }
}

}
