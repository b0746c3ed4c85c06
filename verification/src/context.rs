//! The accounts that each request names, and what must hold of them before the
//! request is looked at. What an account is, who signs and which programs are named
//! is checked first, account by account; then what the accounts must be to each
//! other, again account by account.
use vstd::prelude::*;

use crate::account::{Account, AccountMeta, Mint, Program, TokenAccount};
use crate::associated::{is_supported_token_account_owner, is_token_program};
use crate::error::{ConstraintError, Failure};
use crate::pubkey::{
    associated_token_program, create_address, created_address, find_address, found_address, id,
    key, lemma_key_of_view, no_key, Pubkey, ASSOCIATED_TOKEN_PROGRAM, PROGRAM_ID,
};
use crate::vault::{
    authority_seed_bytes, authority_seeds, signer_seed_bytes, signer_seeds, vault_seed_bytes,
    vault_seeds, Vault,
};

verus! {

/// The address that the vault program derives from the seeds, with its bump.
pub open spec fn derived(seeds: Seq<Seq<u8>>) -> Option<(Pubkey, u8)> {
    match found_address(seeds, PROGRAM_ID@) {
        Some((address, bump)) => Some((key(address), bump)),
        None => None,
    }
}

/// The address for which the vault program signs, with this bump, when it acts for
/// the vault at `vault`.
pub open spec fn authority_of(vault: Pubkey, bump: u8) -> Option<Pubkey> {
    match created_address(signer_seed_bytes(vault, bump), PROGRAM_ID@) {
        Some(address) => Some(key(address)),
        None => None,
    }
}

/// The address at which the owner's vault lives, with its bump.
pub fn derive_vault(owner: &Pubkey) -> (found: Option<(Pubkey, u8)>)
    ensures
        found == derived(vault_seed_bytes(*owner)),
{
    broadcast use lemma_key_of_view;

    find_address(&vault_seeds(owner), &id())
}

/// The address that is to hold the tokens of the vault, with its bump. The bump
/// makes the vault program sign for that address.
pub fn find_authority(vault: &Pubkey) -> (found: Option<(Pubkey, u8)>)
    ensures
        found == derived(authority_seed_bytes(*vault)),
        found matches Some((address, bump)) ==> authority_of(*vault, bump) == Some(address),
{
    broadcast use lemma_key_of_view;

    find_address(&authority_seeds(vault), &id())
}

/// The address for which the vault program signs, with this bump, when it acts for
/// the vault.
pub fn derive_authority(vault: &Pubkey, bump: u8) -> (authority: Option<Pubkey>)
    ensures
        authority == authority_of(*vault, bump),
{
    broadcast use lemma_key_of_view;

    create_address(&signer_seeds(vault, bump), &id())
}

/// Whether an address was derived and is the given one.
pub fn is_at(derived: Option<Pubkey>, address: &Pubkey) -> (same: bool)
    ensures
        same == (derived == Some(*address)),
{
    match derived {
        Some(found) => found == *address,
        None => false,
    }
}

/// The accounts of a request to create a vault.
#[derive(Clone, Debug, PartialEq, Eq)]
pub struct InitializeVault {
    /// Where the vault is to live.
    pub vault: AccountMeta,
    /// The address that is to hold the vault's tokens.
    pub vault_authority: Pubkey,
    pub owner: AccountMeta,
    pub system_program: Program,
    pub associated_token_program: Program,
}

impl InitializeVault {
    /// The first constraint that the accounts break, where `home` was found for
    /// the vault and `authority` for its tokens.
    pub open spec fn constraint_failure(
        self,
        home: Option<(Pubkey, u8)>,
        authority: Option<(Pubkey, u8)>,
    ) -> Option<Failure> {
        if !self.owner.is_signer {
            Some(Failure::Constraint(ConstraintError::AccountNotSigner))
        } else if self.system_program.key != no_key() {
            Some(Failure::Constraint(ConstraintError::InvalidProgramId))
        } else if !self.system_program.executable {
            Some(Failure::Constraint(ConstraintError::InvalidProgramExecutable))
        } else if self.associated_token_program.key != (Pubkey { bytes: ASSOCIATED_TOKEN_PROGRAM }) {
            Some(Failure::Constraint(ConstraintError::InvalidProgramId))
        } else if !self.associated_token_program.executable {
            Some(Failure::Constraint(ConstraintError::InvalidProgramExecutable))
        } else if home is None {
            Some(Failure::NoAddress)
        } else if home.unwrap().0 != self.vault.pubkey {
            Some(Failure::Constraint(ConstraintError::ConstraintSeeds))
        } else if !self.vault.is_writable {
            Some(Failure::Constraint(ConstraintError::ConstraintMut))
        } else if authority is None {
            Some(Failure::NoAddress)
        } else if authority.unwrap().0 != self.vault_authority {
            Some(Failure::Constraint(ConstraintError::ConstraintSeeds))
        } else if !self.owner.is_writable {
            Some(Failure::Constraint(ConstraintError::ConstraintMut))
        } else {
            None
        }
    }

    /// Checks the accounts against the addresses found for the vault and for its
    /// tokens, and returns the bump of the latter.
    pub fn constraints(
        &self,
        home: Option<(Pubkey, u8)>,
        authority: Option<(Pubkey, u8)>,
    ) -> (checked: Result<u8, Failure>)
        ensures
            match checked {
                Ok(bump) => {
                    &&& self.constraint_failure(home, authority) is None
                    &&& authority == Some((self.vault_authority, bump))
                },
                Err(failure) => self.constraint_failure(home, authority) == Some(failure),
            },
    {
        if !self.owner.is_signer {
            return Err(Failure::Constraint(ConstraintError::AccountNotSigner));
        }
        if self.system_program.key != Pubkey::default() {
            return Err(Failure::Constraint(ConstraintError::InvalidProgramId));
        }
        if !self.system_program.executable {
            return Err(Failure::Constraint(ConstraintError::InvalidProgramExecutable));
        }
        if self.associated_token_program.key != associated_token_program() {
            return Err(Failure::Constraint(ConstraintError::InvalidProgramId));
        }
        if !self.associated_token_program.executable {
            return Err(Failure::Constraint(ConstraintError::InvalidProgramExecutable));
        }
        match home {
            None => {
                return Err(Failure::NoAddress);
            },
            Some((address, _)) => {
                if address != self.vault.pubkey {
                    return Err(Failure::Constraint(ConstraintError::ConstraintSeeds));
                }
            },
        }
        if !self.vault.is_writable {
            return Err(Failure::Constraint(ConstraintError::ConstraintMut));
        }
        match authority {
            None => Err(Failure::NoAddress),
            Some((address, bump)) => {
                if address != self.vault_authority {
                    Err(Failure::Constraint(ConstraintError::ConstraintSeeds))
                } else if !self.owner.is_writable {
                    Err(Failure::Constraint(ConstraintError::ConstraintMut))
                } else {
                    Ok(bump)
                }
            },
        }
    }
}

/// The accounts of a request that only reads the vault.
#[derive(Clone, Debug, PartialEq, Eq)]
pub struct ReadVault {
    pub vault: Account<Vault>,
}

impl ReadVault {
    /// The constraint that the accounts break, if any.
    pub open spec fn constraint_failure(self) -> Option<Failure> {
        if self.vault.program != (Pubkey { bytes: PROGRAM_ID }) {
            Some(Failure::Constraint(ConstraintError::AccountOwnedByWrongProgram))
        } else {
            None
        }
    }

    /// Checks the accounts.
    pub fn constraints(&self) -> (checked: Result<(), Failure>)
        ensures
            match checked {
                Ok(_) => self.constraint_failure() is None,
                Err(failure) => self.constraint_failure() == Some(failure),
            },
    {
        if self.vault.program != id() {
            Err(Failure::Constraint(ConstraintError::AccountOwnedByWrongProgram))
        } else {
            Ok(())
        }
    }
}

/// The accounts of a request that only the owner makes.
#[derive(Clone, Debug, PartialEq, Eq)]
pub struct OwnerOnly {
    pub vault: Account<Vault>,
    pub owner: AccountMeta,
}

impl OwnerOnly {
    /// The first constraint that the accounts break.
    pub open spec fn constraint_failure(self) -> Option<Failure> {
        if self.vault.program != (Pubkey { bytes: PROGRAM_ID }) {
            Some(Failure::Constraint(ConstraintError::AccountOwnedByWrongProgram))
        } else if !self.owner.is_signer {
            Some(Failure::Constraint(ConstraintError::AccountNotSigner))
        } else if !self.vault.is_writable {
            Some(Failure::Constraint(ConstraintError::ConstraintMut))
        } else if self.vault.data.owner != self.owner.pubkey {
            Some(Failure::Constraint(ConstraintError::ConstraintHasOne))
        } else {
            None
        }
    }

    /// Checks the accounts.
    pub fn constraints(&self) -> (checked: Result<(), Failure>)
        ensures
            match checked {
                Ok(_) => self.constraint_failure() is None,
                Err(failure) => self.constraint_failure() == Some(failure),
            },
    {
        if self.vault.program != id() {
            Err(Failure::Constraint(ConstraintError::AccountOwnedByWrongProgram))
        } else if !self.owner.is_signer {
            Err(Failure::Constraint(ConstraintError::AccountNotSigner))
        } else if !self.vault.is_writable {
            Err(Failure::Constraint(ConstraintError::ConstraintMut))
        } else if self.vault.data.owner != self.owner.pubkey {
            Err(Failure::Constraint(ConstraintError::ConstraintHasOne))
        } else {
            Ok(())
        }
    }
}

/// The accounts of a request to stop trading a token.
#[derive(Clone, Debug, PartialEq, Eq)]
pub struct RemoveToken {
    pub vault: Account<Vault>,
    /// The address that holds the vault's tokens.
    pub vault_authority: Pubkey,
    pub owner: AccountMeta,
    pub mint: Account<Mint>,
    pub vault_token_account: Account<TokenAccount>,
    pub token_program: Program,
}

impl RemoveToken {
    /// The first constraint that the accounts break, where `authority` was derived for
    /// the vault's tokens.
    pub open spec fn constraint_failure(self, authority: Option<Pubkey>) -> Option<Failure> {
        if self.vault.program != (Pubkey { bytes: PROGRAM_ID }) {
            Some(Failure::Constraint(ConstraintError::AccountOwnedByWrongProgram))
        } else if !self.owner.is_signer {
            Some(Failure::Constraint(ConstraintError::AccountNotSigner))
        } else if !is_token_program(self.mint.program) {
            Some(Failure::Constraint(ConstraintError::AccountOwnedByWrongProgram))
        } else if !is_token_program(self.vault_token_account.program) {
            Some(Failure::Constraint(ConstraintError::AccountOwnedByWrongProgram))
        } else if !is_token_program(self.token_program.key) {
            Some(Failure::Constraint(ConstraintError::InvalidProgramId))
        } else if !self.token_program.executable {
            Some(Failure::Constraint(ConstraintError::InvalidProgramExecutable))
        } else if !self.vault.is_writable {
            Some(Failure::Constraint(ConstraintError::ConstraintMut))
        } else if self.vault.data.owner != self.owner.pubkey {
            Some(Failure::Constraint(ConstraintError::ConstraintHasOne))
        } else if authority != Some(self.vault_authority) {
            Some(Failure::Constraint(ConstraintError::ConstraintSeeds))
        } else if !self.owner.is_writable {
            Some(Failure::Constraint(ConstraintError::ConstraintMut))
        } else if !self.vault_token_account.is_writable {
            Some(Failure::Constraint(ConstraintError::ConstraintMut))
        } else {
            None
        }
    }

    /// Checks the accounts against the address derived for the vault's tokens.
    pub fn constraints(&self, authority: Option<Pubkey>) -> (checked: Result<(), Failure>)
        ensures
            match checked {
                Ok(_) => self.constraint_failure(authority) is None,
                Err(failure) => self.constraint_failure(authority) == Some(failure),
            },
    {
        if self.vault.program != id() {
            Err(Failure::Constraint(ConstraintError::AccountOwnedByWrongProgram))
        } else if !self.owner.is_signer {
            Err(Failure::Constraint(ConstraintError::AccountNotSigner))
        } else if !is_supported_token_account_owner(&self.mint.program) {
            Err(Failure::Constraint(ConstraintError::AccountOwnedByWrongProgram))
        } else if !is_supported_token_account_owner(&self.vault_token_account.program) {
            Err(Failure::Constraint(ConstraintError::AccountOwnedByWrongProgram))
        } else if !is_supported_token_account_owner(&self.token_program.key) {
            Err(Failure::Constraint(ConstraintError::InvalidProgramId))
        } else if !self.token_program.executable {
            Err(Failure::Constraint(ConstraintError::InvalidProgramExecutable))
        } else if !self.vault.is_writable {
            Err(Failure::Constraint(ConstraintError::ConstraintMut))
        } else if self.vault.data.owner != self.owner.pubkey {
            Err(Failure::Constraint(ConstraintError::ConstraintHasOne))
        } else if !is_at(authority, &self.vault_authority) {
            Err(Failure::Constraint(ConstraintError::ConstraintSeeds))
        } else if !self.owner.is_writable {
            Err(Failure::Constraint(ConstraintError::ConstraintMut))
        } else if !self.vault_token_account.is_writable {
            Err(Failure::Constraint(ConstraintError::ConstraintMut))
        } else {
            Ok(())
        }
    }
}

/// The accounts of a request to trade another token.
#[derive(Clone, Debug, PartialEq, Eq)]
pub struct AddToken {
    pub vault: Account<Vault>,
    /// The address that holds the vault's tokens.
    pub vault_authority: Pubkey,
    pub owner: AccountMeta,
    pub system_program: Program,
    pub associated_token_program: Program,
}

impl AddToken {
    /// The first constraint that the accounts break, where `authority` was derived for
    /// the vault's tokens.
    pub open spec fn constraint_failure(self, authority: Option<Pubkey>) -> Option<Failure> {
        if self.vault.program != (Pubkey { bytes: PROGRAM_ID }) {
            Some(Failure::Constraint(ConstraintError::AccountOwnedByWrongProgram))
        } else if !self.owner.is_signer {
            Some(Failure::Constraint(ConstraintError::AccountNotSigner))
        } else if self.system_program.key != no_key() {
            Some(Failure::Constraint(ConstraintError::InvalidProgramId))
        } else if !self.system_program.executable {
            Some(Failure::Constraint(ConstraintError::InvalidProgramExecutable))
        } else if self.associated_token_program.key != (Pubkey { bytes: ASSOCIATED_TOKEN_PROGRAM }) {
            Some(Failure::Constraint(ConstraintError::InvalidProgramId))
        } else if !self.associated_token_program.executable {
            Some(Failure::Constraint(ConstraintError::InvalidProgramExecutable))
        } else if !self.vault.is_writable {
            Some(Failure::Constraint(ConstraintError::ConstraintMut))
        } else if self.vault.data.owner != self.owner.pubkey {
            Some(Failure::Constraint(ConstraintError::ConstraintHasOne))
        } else if authority != Some(self.vault_authority) {
            Some(Failure::Constraint(ConstraintError::ConstraintSeeds))
        } else if !self.owner.is_writable {
            Some(Failure::Constraint(ConstraintError::ConstraintMut))
        } else {
            None
        }
    }

    /// Checks the accounts against the address derived for the vault's tokens.
    pub fn constraints(&self, authority: Option<Pubkey>) -> (checked: Result<(), Failure>)
        ensures
            match checked {
                Ok(_) => self.constraint_failure(authority) is None,
                Err(failure) => self.constraint_failure(authority) == Some(failure),
            },
    {
        if self.vault.program != id() {
            Err(Failure::Constraint(ConstraintError::AccountOwnedByWrongProgram))
        } else if !self.owner.is_signer {
            Err(Failure::Constraint(ConstraintError::AccountNotSigner))
        } else if self.system_program.key != Pubkey::default() {
            Err(Failure::Constraint(ConstraintError::InvalidProgramId))
        } else if !self.system_program.executable {
            Err(Failure::Constraint(ConstraintError::InvalidProgramExecutable))
        } else if self.associated_token_program.key != associated_token_program() {
            Err(Failure::Constraint(ConstraintError::InvalidProgramId))
        } else if !self.associated_token_program.executable {
            Err(Failure::Constraint(ConstraintError::InvalidProgramExecutable))
        } else if !self.vault.is_writable {
            Err(Failure::Constraint(ConstraintError::ConstraintMut))
        } else if self.vault.data.owner != self.owner.pubkey {
            Err(Failure::Constraint(ConstraintError::ConstraintHasOne))
        } else if !is_at(authority, &self.vault_authority) {
            Err(Failure::Constraint(ConstraintError::ConstraintSeeds))
        } else if !self.owner.is_writable {
            Err(Failure::Constraint(ConstraintError::ConstraintMut))
        } else {
            Ok(())
        }
    }
}

/// The accounts of a request to trade.
#[derive(Clone, Debug, PartialEq, Eq)]
pub struct Trade {
    pub vault: Account<Vault>,
    /// The address that holds the vault's tokens.
    pub vault_authority: Pubkey,
    pub caller: AccountMeta,
    pub vault_token_in: Account<TokenAccount>,
    pub vault_token_out: Account<TokenAccount>,
    /// The program that carries out the trade.
    pub jupiter_program: Pubkey,
    pub token_program_in: Program,
    pub token_program_out: Program,
}

impl Trade {
    /// The first constraint that the accounts break, where `authority` was derived for
    /// the vault's tokens.
    pub open spec fn constraint_failure(self, authority: Option<Pubkey>) -> Option<Failure> {
        if self.vault.program != (Pubkey { bytes: PROGRAM_ID }) {
            Some(Failure::Constraint(ConstraintError::AccountOwnedByWrongProgram))
        } else if !self.caller.is_signer {
            Some(Failure::Constraint(ConstraintError::AccountNotSigner))
        } else if !is_token_program(self.vault_token_in.program) {
            Some(Failure::Constraint(ConstraintError::AccountOwnedByWrongProgram))
        } else if !is_token_program(self.vault_token_out.program) {
            Some(Failure::Constraint(ConstraintError::AccountOwnedByWrongProgram))
        } else if !is_token_program(self.token_program_in.key) {
            Some(Failure::Constraint(ConstraintError::InvalidProgramId))
        } else if !self.token_program_in.executable {
            Some(Failure::Constraint(ConstraintError::InvalidProgramExecutable))
        } else if !is_token_program(self.token_program_out.key) {
            Some(Failure::Constraint(ConstraintError::InvalidProgramId))
        } else if !self.token_program_out.executable {
            Some(Failure::Constraint(ConstraintError::InvalidProgramExecutable))
        } else if !self.vault.is_writable {
            Some(Failure::Constraint(ConstraintError::ConstraintMut))
        } else if authority != Some(self.vault_authority) {
            Some(Failure::Constraint(ConstraintError::ConstraintSeeds))
        } else if !self.caller.is_writable {
            Some(Failure::Constraint(ConstraintError::ConstraintMut))
        } else if !self.vault_token_in.is_writable {
            Some(Failure::Constraint(ConstraintError::ConstraintMut))
        } else if !self.vault_token_out.is_writable {
            Some(Failure::Constraint(ConstraintError::ConstraintMut))
        } else {
            None
        }
    }

    /// Checks the accounts against the address derived for the vault's tokens.
    pub fn constraints(&self, authority: Option<Pubkey>) -> (checked: Result<(), Failure>)
        ensures
            match checked {
                Ok(_) => self.constraint_failure(authority) is None,
                Err(failure) => self.constraint_failure(authority) == Some(failure),
            },
    {
        if self.vault.program != id() {
            Err(Failure::Constraint(ConstraintError::AccountOwnedByWrongProgram))
        } else if !self.caller.is_signer {
            Err(Failure::Constraint(ConstraintError::AccountNotSigner))
        } else if !is_supported_token_account_owner(&self.vault_token_in.program) {
            Err(Failure::Constraint(ConstraintError::AccountOwnedByWrongProgram))
        } else if !is_supported_token_account_owner(&self.vault_token_out.program) {
            Err(Failure::Constraint(ConstraintError::AccountOwnedByWrongProgram))
        } else if !is_supported_token_account_owner(&self.token_program_in.key) {
            Err(Failure::Constraint(ConstraintError::InvalidProgramId))
        } else if !self.token_program_in.executable {
            Err(Failure::Constraint(ConstraintError::InvalidProgramExecutable))
        } else if !is_supported_token_account_owner(&self.token_program_out.key) {
            Err(Failure::Constraint(ConstraintError::InvalidProgramId))
        } else if !self.token_program_out.executable {
            Err(Failure::Constraint(ConstraintError::InvalidProgramExecutable))
        } else if !self.vault.is_writable {
            Err(Failure::Constraint(ConstraintError::ConstraintMut))
        } else if !is_at(authority, &self.vault_authority) {
            Err(Failure::Constraint(ConstraintError::ConstraintSeeds))
        } else if !self.caller.is_writable {
            Err(Failure::Constraint(ConstraintError::ConstraintMut))
        } else if !self.vault_token_in.is_writable {
            Err(Failure::Constraint(ConstraintError::ConstraintMut))
        } else if !self.vault_token_out.is_writable {
            Err(Failure::Constraint(ConstraintError::ConstraintMut))
        } else {
            Ok(())
        }
    }
}

/// The accounts of a request to pay everything out to the owner.
#[derive(Clone, Debug, PartialEq, Eq)]
pub struct WithdrawAll {
    pub vault: Account<Vault>,
    /// The address that holds the vault's tokens.
    pub vault_authority: Pubkey,
    pub caller: AccountMeta,
    /// Who receives the lamports.
    pub owner: AccountMeta,
    pub token_program: Program,
}

impl WithdrawAll {
    /// The first constraint that the accounts break, where `authority` was derived for
    /// the vault's tokens.
    pub open spec fn constraint_failure(self, authority: Option<Pubkey>) -> Option<Failure> {
        if self.vault.program != (Pubkey { bytes: PROGRAM_ID }) {
            Some(Failure::Constraint(ConstraintError::AccountOwnedByWrongProgram))
        } else if !self.caller.is_signer {
            Some(Failure::Constraint(ConstraintError::AccountNotSigner))
        } else if !is_token_program(self.token_program.key) {
            Some(Failure::Constraint(ConstraintError::InvalidProgramId))
        } else if !self.token_program.executable {
            Some(Failure::Constraint(ConstraintError::InvalidProgramExecutable))
        } else if !self.vault.is_writable {
            Some(Failure::Constraint(ConstraintError::ConstraintMut))
        } else if authority != Some(self.vault_authority) {
            Some(Failure::Constraint(ConstraintError::ConstraintSeeds))
        } else if !self.caller.is_writable {
            Some(Failure::Constraint(ConstraintError::ConstraintMut))
        } else if !self.owner.is_writable {
            Some(Failure::Constraint(ConstraintError::ConstraintMut))
        } else {
            None
        }
    }

    /// Checks the accounts against the address derived for the vault's tokens.
    pub fn constraints(&self, authority: Option<Pubkey>) -> (checked: Result<(), Failure>)
        ensures
            match checked {
                Ok(_) => self.constraint_failure(authority) is None,
                Err(failure) => self.constraint_failure(authority) == Some(failure),
            },
    {
        if self.vault.program != id() {
            Err(Failure::Constraint(ConstraintError::AccountOwnedByWrongProgram))
        } else if !self.caller.is_signer {
            Err(Failure::Constraint(ConstraintError::AccountNotSigner))
        } else if !is_supported_token_account_owner(&self.token_program.key) {
            Err(Failure::Constraint(ConstraintError::InvalidProgramId))
        } else if !self.token_program.executable {
            Err(Failure::Constraint(ConstraintError::InvalidProgramExecutable))
        } else if !self.vault.is_writable {
            Err(Failure::Constraint(ConstraintError::ConstraintMut))
        } else if !is_at(authority, &self.vault_authority) {
            Err(Failure::Constraint(ConstraintError::ConstraintSeeds))
        } else if !self.caller.is_writable {
            Err(Failure::Constraint(ConstraintError::ConstraintMut))
        } else if !self.owner.is_writable {
            Err(Failure::Constraint(ConstraintError::ConstraintMut))
        } else {
            Ok(())
        }
    }
}

/// The accounts of a request to pay out some of one token.
#[derive(Clone, Debug, PartialEq, Eq)]
pub struct WithdrawToken {
    pub vault: Account<Vault>,
    /// The address that holds the vault's tokens.
    pub vault_authority: Pubkey,
    pub owner: AccountMeta,
    pub mint: Account<Mint>,
    pub vault_token_account: Account<TokenAccount>,
    /// Whom the owner pays.
    pub recipient_wallet: Pubkey,
    pub recipient_token_account: Account<TokenAccount>,
    pub token_program: Program,
}

impl WithdrawToken {
    /// The first constraint that the accounts break, where `authority` was derived for
    /// the vault's tokens.
    pub open spec fn constraint_failure(self, authority: Option<Pubkey>) -> Option<Failure> {
        if self.vault.program != (Pubkey { bytes: PROGRAM_ID }) {
            Some(Failure::Constraint(ConstraintError::AccountOwnedByWrongProgram))
        } else if !self.owner.is_signer {
            Some(Failure::Constraint(ConstraintError::AccountNotSigner))
        } else if !is_token_program(self.mint.program) {
            Some(Failure::Constraint(ConstraintError::AccountOwnedByWrongProgram))
        } else if !is_token_program(self.vault_token_account.program) {
            Some(Failure::Constraint(ConstraintError::AccountOwnedByWrongProgram))
        } else if !is_token_program(self.recipient_token_account.program) {
            Some(Failure::Constraint(ConstraintError::AccountOwnedByWrongProgram))
        } else if !is_token_program(self.token_program.key) {
            Some(Failure::Constraint(ConstraintError::InvalidProgramId))
        } else if !self.token_program.executable {
            Some(Failure::Constraint(ConstraintError::InvalidProgramExecutable))
        } else if !self.vault.is_writable {
            Some(Failure::Constraint(ConstraintError::ConstraintMut))
        } else if self.vault.data.owner != self.owner.pubkey {
            Some(Failure::Constraint(ConstraintError::ConstraintHasOne))
        } else if authority != Some(self.vault_authority) {
            Some(Failure::Constraint(ConstraintError::ConstraintSeeds))
        } else if !self.vault_token_account.is_writable {
            Some(Failure::Constraint(ConstraintError::ConstraintMut))
        } else if !self.recipient_token_account.is_writable {
            Some(Failure::Constraint(ConstraintError::ConstraintMut))
        } else {
            None
        }
    }

    /// Checks the accounts against the address derived for the vault's tokens.
    pub fn constraints(&self, authority: Option<Pubkey>) -> (checked: Result<(), Failure>)
        ensures
            match checked {
                Ok(_) => self.constraint_failure(authority) is None,
                Err(failure) => self.constraint_failure(authority) == Some(failure),
            },
    {
        if self.vault.program != id() {
            Err(Failure::Constraint(ConstraintError::AccountOwnedByWrongProgram))
        } else if !self.owner.is_signer {
            Err(Failure::Constraint(ConstraintError::AccountNotSigner))
        } else if !is_supported_token_account_owner(&self.mint.program) {
            Err(Failure::Constraint(ConstraintError::AccountOwnedByWrongProgram))
        } else if !is_supported_token_account_owner(&self.vault_token_account.program) {
            Err(Failure::Constraint(ConstraintError::AccountOwnedByWrongProgram))
        } else if !is_supported_token_account_owner(&self.recipient_token_account.program) {
            Err(Failure::Constraint(ConstraintError::AccountOwnedByWrongProgram))
        } else if !is_supported_token_account_owner(&self.token_program.key) {
            Err(Failure::Constraint(ConstraintError::InvalidProgramId))
        } else if !self.token_program.executable {
            Err(Failure::Constraint(ConstraintError::InvalidProgramExecutable))
        } else if !self.vault.is_writable {
            Err(Failure::Constraint(ConstraintError::ConstraintMut))
        } else if self.vault.data.owner != self.owner.pubkey {
            Err(Failure::Constraint(ConstraintError::ConstraintHasOne))
        } else if !is_at(authority, &self.vault_authority) {
            Err(Failure::Constraint(ConstraintError::ConstraintSeeds))
        } else if !self.vault_token_account.is_writable {
            Err(Failure::Constraint(ConstraintError::ConstraintMut))
        } else if !self.recipient_token_account.is_writable {
            Err(Failure::Constraint(ConstraintError::ConstraintMut))
        } else {
            Ok(())
        }
    }
}

/// The accounts of a request to pay out some of the lamports.
#[derive(Clone, Debug, PartialEq, Eq)]
pub struct WithdrawNative {
    pub vault: Account<Vault>,
    pub owner: AccountMeta,
    /// Whom the owner pays.
    pub recipient: AccountMeta,
}

impl WithdrawNative {
    /// The first constraint that the accounts break.
    pub open spec fn constraint_failure(self) -> Option<Failure> {
        if self.vault.program != (Pubkey { bytes: PROGRAM_ID }) {
            Some(Failure::Constraint(ConstraintError::AccountOwnedByWrongProgram))
        } else if !self.owner.is_signer {
            Some(Failure::Constraint(ConstraintError::AccountNotSigner))
        } else if !self.vault.is_writable {
            Some(Failure::Constraint(ConstraintError::ConstraintMut))
        } else if self.vault.data.owner != self.owner.pubkey {
            Some(Failure::Constraint(ConstraintError::ConstraintHasOne))
        } else if !self.recipient.is_writable {
            Some(Failure::Constraint(ConstraintError::ConstraintMut))
        } else {
            None
        }
    }

    /// Checks the accounts.
    pub fn constraints(&self) -> (checked: Result<(), Failure>)
        ensures
            match checked {
                Ok(_) => self.constraint_failure() is None,
                Err(failure) => self.constraint_failure() == Some(failure),
            },
    {
        if self.vault.program != id() {
            Err(Failure::Constraint(ConstraintError::AccountOwnedByWrongProgram))
        } else if !self.owner.is_signer {
            Err(Failure::Constraint(ConstraintError::AccountNotSigner))
        } else if !self.vault.is_writable {
            Err(Failure::Constraint(ConstraintError::ConstraintMut))
        } else if self.vault.data.owner != self.owner.pubkey {
            Err(Failure::Constraint(ConstraintError::ConstraintHasOne))
        } else if !self.recipient.is_writable {
            Err(Failure::Constraint(ConstraintError::ConstraintMut))
        } else {
            Ok(())
        }
    }
}

/// The accounts of a request to close token accounts of the vault.
#[derive(Clone, Debug, PartialEq, Eq)]
pub struct CloseEmptyTokenAccounts {
    pub vault: Account<Vault>,
    /// The address that holds the vault's tokens.
    pub vault_authority: Pubkey,
    pub owner: AccountMeta,
    pub token_program: Program,
}

impl CloseEmptyTokenAccounts {
    /// The first constraint that the accounts break, where `authority` was derived for
    /// the vault's tokens.
    pub open spec fn constraint_failure(self, authority: Option<Pubkey>) -> Option<Failure> {
        if self.vault.program != (Pubkey { bytes: PROGRAM_ID }) {
            Some(Failure::Constraint(ConstraintError::AccountOwnedByWrongProgram))
        } else if !self.owner.is_signer {
            Some(Failure::Constraint(ConstraintError::AccountNotSigner))
        } else if !is_token_program(self.token_program.key) {
            Some(Failure::Constraint(ConstraintError::InvalidProgramId))
        } else if !self.token_program.executable {
            Some(Failure::Constraint(ConstraintError::InvalidProgramExecutable))
        } else if !self.vault.is_writable {
            Some(Failure::Constraint(ConstraintError::ConstraintMut))
        } else if authority != Some(self.vault_authority) {
            Some(Failure::Constraint(ConstraintError::ConstraintSeeds))
        } else if !self.owner.is_writable {
            Some(Failure::Constraint(ConstraintError::ConstraintMut))
        } else {
            None
        }
    }

    /// Checks the accounts against the address derived for the vault's tokens.
    pub fn constraints(&self, authority: Option<Pubkey>) -> (checked: Result<(), Failure>)
        ensures
            match checked {
                Ok(_) => self.constraint_failure(authority) is None,
                Err(failure) => self.constraint_failure(authority) == Some(failure),
            },
    {
        if self.vault.program != id() {
            Err(Failure::Constraint(ConstraintError::AccountOwnedByWrongProgram))
        } else if !self.owner.is_signer {
            Err(Failure::Constraint(ConstraintError::AccountNotSigner))
        } else if !is_supported_token_account_owner(&self.token_program.key) {
            Err(Failure::Constraint(ConstraintError::InvalidProgramId))
        } else if !self.token_program.executable {
            Err(Failure::Constraint(ConstraintError::InvalidProgramExecutable))
        } else if !self.vault.is_writable {
            Err(Failure::Constraint(ConstraintError::ConstraintMut))
        } else if !is_at(authority, &self.vault_authority) {
            Err(Failure::Constraint(ConstraintError::ConstraintSeeds))
        } else if !self.owner.is_writable {
            Err(Failure::Constraint(ConstraintError::ConstraintMut))
        } else {
            Ok(())
        }
    }
}

/// The accounts of a request to close the vault.
#[derive(Clone, Debug, PartialEq, Eq)]
pub struct CloseVaultAccount {
    pub vault: Account<Vault>,
    pub owner: AccountMeta,
}

impl CloseVaultAccount {
    /// The first constraint that the accounts break.
    pub open spec fn constraint_failure(self) -> Option<Failure> {
        if self.vault.program != (Pubkey { bytes: PROGRAM_ID }) {
            Some(Failure::Constraint(ConstraintError::AccountOwnedByWrongProgram))
        } else if !self.owner.is_signer {
            Some(Failure::Constraint(ConstraintError::AccountNotSigner))
        } else if !self.vault.is_writable {
            Some(Failure::Constraint(ConstraintError::ConstraintMut))
        } else if self.vault.data.owner != self.owner.pubkey {
            Some(Failure::Constraint(ConstraintError::ConstraintHasOne))
        } else if self.vault.key == self.owner.pubkey {
            Some(Failure::Constraint(ConstraintError::ConstraintClose))
        } else if !self.owner.is_writable {
            Some(Failure::Constraint(ConstraintError::ConstraintMut))
        } else {
            None
        }
    }

    /// Checks the accounts.
    pub fn constraints(&self) -> (checked: Result<(), Failure>)
        ensures
            match checked {
                Ok(_) => self.constraint_failure() is None,
                Err(failure) => self.constraint_failure() == Some(failure),
            },
    {
        if self.vault.program != id() {
            Err(Failure::Constraint(ConstraintError::AccountOwnedByWrongProgram))
        } else if !self.owner.is_signer {
            Err(Failure::Constraint(ConstraintError::AccountNotSigner))
        } else if !self.vault.is_writable {
            Err(Failure::Constraint(ConstraintError::ConstraintMut))
        } else if self.vault.data.owner != self.owner.pubkey {
            Err(Failure::Constraint(ConstraintError::ConstraintHasOne))
        } else if self.vault.key == self.owner.pubkey {
            Err(Failure::Constraint(ConstraintError::ConstraintClose))
        } else if !self.owner.is_writable {
            Err(Failure::Constraint(ConstraintError::ConstraintMut))
        } else {
            Ok(())
        }
    }
}

}
