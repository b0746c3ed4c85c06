//! The token accounts that belong to a vault: where they live, and their creation.
use vstd::prelude::*;

use crate::account::AccountInfo;
use crate::error::{Failure, VaultError};
use crate::pubkey::{
    associated_token_program, find_address, found_address, key, lemma_key_of_view, seed_bytes,
    token_programs, Pubkey, ASSOCIATED_TOKEN_PROGRAM, TOKEN_2022_PROGRAM, TOKEN_PROGRAM,
};

verus! {

/// The seeds of the address at which `owner` holds the tokens of `mint`.
pub open spec fn associated_seed_bytes(owner: Pubkey, mint: Pubkey, token_program: Pubkey) -> Seq<
    Seq<u8>,
> {
    seq![owner@, token_program@, mint@]
}

/// The address at which `owner` holds the tokens of `mint`, as `program` derives
/// it.
pub open spec fn associated_address(
    owner: Pubkey,
    mint: Pubkey,
    token_program: Pubkey,
    program: Pubkey,
) -> Option<Pubkey> {
    match found_address(associated_seed_bytes(owner, mint, token_program), program@) {
        Some((address, _)) => Some(key(address)),
        None => None,
    }
}

/// The address at which the vault's authority holds the tokens of `mint`.
pub open spec fn vault_ata(authority: Pubkey, mint: Pubkey, token_program: Pubkey) -> Option<
    Pubkey,
> {
    associated_address(
        authority,
        mint,
        token_program,
        Pubkey { bytes: ASSOCIATED_TOKEN_PROGRAM },
    )
}

/// The program is one of the two token programs.
pub open spec fn is_token_program(program: Pubkey) -> bool {
    program == (Pubkey { bytes: TOKEN_PROGRAM }) || program == (Pubkey { bytes: TOKEN_2022_PROGRAM })
}

/// What is wrong with a token account that should live at `expected`.
pub open spec fn ata_failure(expected: Option<Pubkey>, token_account: Pubkey) -> Option<Failure> {
    match expected {
        None => Some(Failure::NoAddress),
        Some(address) => if token_account != address {
            Some(Failure::Vault(VaultError::BadAccount))
        } else {
            None
        },
    }
}

/// Whether accounts of the program may hold tokens.
pub fn is_supported_token_account_owner(owner: &Pubkey) -> (supported: bool)
    ensures
        supported == is_token_program(*owner),
{
    let programs = token_programs();
    let mut i: usize = 0;
    while i < programs.len()
        invariant
            i <= programs.len(),
            programs@ == seq![
                Pubkey { bytes: TOKEN_PROGRAM },
                Pubkey { bytes: TOKEN_2022_PROGRAM },
            ],
            forall|j: int| 0 <= j < i ==> programs[j] != *owner,
        decreases programs.len() - i,
    {
        if programs[i] == *owner {
            return true;
        }
        i = i + 1;
    }
    assert(programs[0] == (Pubkey { bytes: TOKEN_PROGRAM }));
    assert(programs[1] == (Pubkey { bytes: TOKEN_2022_PROGRAM }));
    false
}

/// The address at which `owner` holds the tokens of `mint`, as the given
/// associated token program derives it; `None` where no bump yields one.
pub fn associated_token_address_with_program(
    owner: &Pubkey,
    mint: &Pubkey,
    token_program: &Pubkey,
    associated_token_program: &Pubkey,
) -> (address: Option<Pubkey>)
    ensures
        address == associated_address(*owner, *mint, *token_program, *associated_token_program),
{
    broadcast use lemma_key_of_view;

    let mut seeds: Vec<Vec<u8>> = Vec::new();
    seeds.push(vstd::slice::slice_to_vec(owner.bytes.as_slice()));
    seeds.push(vstd::slice::slice_to_vec(token_program.bytes.as_slice()));
    seeds.push(vstd::slice::slice_to_vec(mint.bytes.as_slice()));
    assert(seed_bytes(seeds@) =~= associated_seed_bytes(*owner, *mint, *token_program));
    match find_address(&seeds, associated_token_program) {
        Some((address, _)) => Some(address),
        None => None,
    }
}

/// The address at which the vault's authority holds the tokens of `mint`.
pub fn vault_ata_address(
    vault_authority: &Pubkey,
    mint: &Pubkey,
    token_program: &Pubkey,
) -> (address: Option<Pubkey>)
    ensures
        address == vault_ata(*vault_authority, *mint, *token_program),
{
    associated_token_address_with_program(
        vault_authority,
        mint,
        token_program,
        &associated_token_program(),
    )
}

/// Compares a token account with the address derived for it.
pub fn decide_vault_ata(expected: Option<Pubkey>, token_account: &Pubkey) -> (verdict: Result<
    (),
    Failure,
>)
    ensures
        match verdict {
            Ok(_) => ata_failure(expected, *token_account) is None,
            Err(failure) => ata_failure(expected, *token_account) == Some(failure),
        },
{
    match expected {
        None => Err(Failure::NoAddress),
        Some(address) => if *token_account != address {
            Err(Failure::Vault(VaultError::BadAccount))
        } else {
            Ok(())
        },
    }
}

/// The verdict on a token account that should live where the vault's authority holds
/// the tokens of `mint`.
pub open spec fn vault_ata_outcome(
    verdict: Result<(), Failure>,
    vault_authority: Pubkey,
    mint: Pubkey,
    token_program: Pubkey,
    token_account: Pubkey,
) -> bool {
    let failure = ata_failure(vault_ata(vault_authority, mint, token_program), token_account);
    match verdict {
        Ok(_) => failure is None,
        Err(reason) => failure == Some(reason),
    }
}

/// Lets a token account through that lives where the vault's authority holds the
/// tokens of `mint`.
pub fn require_vault_ata(
    vault_authority: &Pubkey,
    mint: &Pubkey,
    token_program: &Pubkey,
    token_account: &Pubkey,
) -> (verdict: Result<(), Failure>)
    ensures
        vault_ata_outcome(verdict, *vault_authority, *mint, *token_program, *token_account),
{
    decide_vault_ata(vault_ata_address(vault_authority, mint, token_program), token_account)
}

/// The token accounts that have to exist for a vault to trade some tokens.
#[derive(Clone, Debug, PartialEq, Eq)]
pub struct AtaPlan {
    /// Who pays for the accounts.
    pub payer: Pubkey,
    /// Who is to hold the tokens.
    pub vault_authority: Pubkey,
    pub system_program: Pubkey,
    pub associated_token_program: Pubkey,
    /// The tokens, one account for each.
    pub mints: Vec<Pubkey>,
}

/// The request to the associated token program to create one of the accounts,
/// unless it exists.
#[derive(Clone, Copy, Debug, PartialEq, Eq)]
pub struct CreateAta {
    /// The place of the token in the plan.
    pub index: usize,
    pub payer: Pubkey,
    pub associated_token: Pubkey,
    pub authority: Pubkey,
    pub mint: Pubkey,
    pub system_program: Pubkey,
    pub token_program: Pubkey,
    pub associated_token_program: Pubkey,
}

/// The mathematical value of an [`AtaPlan`].
#[verifier::ext_equal]
pub struct AtaPlanView {
    pub payer: Pubkey,
    pub vault_authority: Pubkey,
    pub system_program: Pubkey,
    pub associated_token_program: Pubkey,
    pub mints: Seq<Pubkey>,
}

impl View for AtaPlan {
    type V = AtaPlanView;

    open spec fn view(&self) -> AtaPlanView {
        AtaPlanView {
            payer: self.payer,
            vault_authority: self.vault_authority,
            system_program: self.system_program,
            associated_token_program: self.associated_token_program,
            mints: self.mints@,
        }
    }
}

impl AtaPlanView {
    /// The accounts are three for each token of the plan: the mint, the token
    /// account and the token program.
    pub open spec fn fits(self, accounts: Seq<AccountInfo>) -> bool {
        accounts.len() == self.mints.len() * 3
    }

    /// The address that the token account for the token at `index` should have.
    pub open spec fn expected(self, accounts: Seq<AccountInfo>, index: int) -> Option<Pubkey> {
        associated_address(
            self.vault_authority,
            self.mints[index],
            accounts[index * 3 + 2].key,
            self.associated_token_program,
        )
    }

    /// What to do about the token at `index`.
    pub open spec fn outcome(self, accounts: Seq<AccountInfo>, index: int) -> Result<
        Option<CreateAta>,
        Failure,
    > {
        self.step(accounts, index, self.expected(accounts, index))
    }

    /// What to do about the token at `index`, whose token account should live at
    /// `expected`.
    pub open spec fn step(
        self,
        accounts: Seq<AccountInfo>,
        index: int,
        expected: Option<Pubkey>,
    ) -> Result<Option<CreateAta>, Failure> {
        let mint = accounts[index * 3];
        let ata = accounts[index * 3 + 1];
        let token_program = accounts[index * 3 + 2];
        if !self.fits(accounts) {
            Err(Failure::Vault(VaultError::BadAccount))
        } else if index >= self.mints.len() {
            Ok(None)
        } else if mint.key != self.mints[index] {
            Err(Failure::Vault(VaultError::BadAccount))
        } else if mint.owner != token_program.key {
            Err(Failure::Vault(VaultError::BadAccount))
        } else if !is_token_program(token_program.key) {
            Err(Failure::Vault(VaultError::BadAccount))
        } else {
            match ata_failure(expected, ata.key) {
                Some(failure) => Err(failure),
                None => Ok(
                    Some(
                        CreateAta {
                            index: index as usize,
                            payer: self.payer,
                            associated_token: ata.key,
                            authority: self.vault_authority,
                            mint: mint.key,
                            system_program: self.system_program,
                            token_program: token_program.key,
                            associated_token_program: self.associated_token_program,
                        },
                    ),
                ),
            }
        }
    }
}

impl AtaPlan {
    /// Whether there are three accounts for each token of the plan.
    pub fn check_fit(&self, accounts: &[AccountInfo]) -> (fit: bool)
        ensures
            fit == self@.fits(accounts@),
    {
        accounts.len() % 3 == 0 && accounts.len() / 3 == self.mints.len()
    }
}

/// Decides what to do about the token at `index` of the plan, given the address
/// derived for its token account.
pub fn decide_vault_ata_creation(
    plan: &AtaPlan,
    accounts: &[AccountInfo],
    index: usize,
    expected: Option<Pubkey>,
) -> (decision: Result<Option<CreateAta>, Failure>)
    ensures
        decision == plan@.step(accounts@, index as int, expected),
{
    if !plan.check_fit(accounts) {
        return Err(Failure::Vault(VaultError::BadAccount));
    }
    if index >= plan.mints.len() {
        return Ok(None);
    }
    let count: usize = accounts.len();
    assert(index * 3 + 2 < count);
    let base: usize = index * 3;
    let mint = &accounts[base];
    let ata = &accounts[base + 1];
    let token_program = &accounts[base + 2];
    if mint.key != plan.mints[index] {
        return Err(Failure::Vault(VaultError::BadAccount));
    }
    if mint.owner != token_program.key {
        return Err(Failure::Vault(VaultError::BadAccount));
    }
    if !is_supported_token_account_owner(&token_program.key) {
        return Err(Failure::Vault(VaultError::BadAccount));
    }
    match decide_vault_ata(expected, &ata.key) {
        Err(failure) => Err(failure),
        Ok(_) => Ok(
            Some(
                CreateAta {
                    index,
                    payer: plan.payer,
                    associated_token: ata.key,
                    authority: plan.vault_authority,
                    mint: mint.key,
                    system_program: plan.system_program,
                    token_program: token_program.key,
                    associated_token_program: plan.associated_token_program,
                },
            ),
        ),
    }
}

/// The next account of the plan to create: the one for the token at `index`, or
/// none when the plan is done. The accounts are those of the request as they are
/// now, after the creation of the ones before.
pub fn ensure_vault_atas(plan: &AtaPlan, accounts: &[AccountInfo], index: usize) -> (decision:
    Result<Option<CreateAta>, Failure>)
    ensures
        decision == plan@.outcome(accounts@, index as int),
{
    let count: usize = accounts.len();
    let expected: Option<Pubkey> = if plan.check_fit(accounts) && index < plan.mints.len() {
        assert(index * 3 + 2 < count);
        associated_token_address_with_program(
            &plan.vault_authority,
            &plan.mints[index],
            &accounts[index * 3 + 2].key,
            &plan.associated_token_program,
        )
    } else {
        None
    };
    decide_vault_ata_creation(plan, accounts, index, expected)
}

}
