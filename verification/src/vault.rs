//! The state of a vault and what can happen to it.
use vstd::prelude::*;

use crate::error::{Failure, VaultError};
use crate::pubkey::{no_key, seed_bytes, Pubkey, AUTHORITY_LABEL, VAULT_LABEL};

verus! {

/// The most tokens that a vault trades.
pub const MAX_ALLOWED_MINTS: usize = 64;

/// A vault: who it belongs to, who may trade for the owner, through which router,
/// and which tokens.
#[derive(Clone, Debug, PartialEq, Eq)]
pub struct Vault {
    pub owner: Pubkey,
    pub bot_address: Pubkey,
    pub jupiter_router: Pubkey,
    /// The bump of the address that holds the vault's tokens.
    pub authority_bump: u8,
    pub allowed_mints: Vec<Pubkey>,
}

/// The mathematical value of a [`Vault`].
#[verifier::ext_equal]
pub struct VaultView {
    pub owner: Pubkey,
    pub bot_address: Pubkey,
    pub jupiter_router: Pubkey,
    pub authority_bump: u8,
    pub allowed_mints: Seq<Pubkey>,
}

impl View for Vault {
    type V = VaultView;

    open spec fn view(&self) -> VaultView {
        VaultView {
            owner: self.owner,
            bot_address: self.bot_address,
            jupiter_router: self.jupiter_router,
            authority_bump: self.authority_bump,
            allowed_mints: self.allowed_mints@,
        }
    }
}

impl Vault {
    /// The size of the account that holds a vault: the tag, three addresses, the
    /// bump, the length of the list and a full list.
    pub const SPACE: usize = 8 + 32 + 32 + 32 + 1 + 4 + (32 * MAX_ALLOWED_MINTS);
}

impl VaultView {
    /// What holds of every vault from its creation on.
    pub open spec fn wf(self) -> bool {
        &&& self.bot_address != no_key()
        &&& self.jupiter_router != no_key()
        &&& self.allowed_mints.len() <= MAX_ALLOWED_MINTS
        &&& self.allowed_mints.no_duplicates()
        &&& !self.allowed_mints.contains(no_key())
    }

    /// The address may trade for the owner, or is the owner.
    pub open spec fn may_act(self, signer: Pubkey) -> bool {
        signer == self.owner || signer == self.bot_address
    }

    /// The vault after a token was put on its list.
    pub open spec fn with_token(self, mint: Pubkey) -> VaultView {
        VaultView { allowed_mints: self.allowed_mints.push(mint), ..self }
    }

    /// The vault after a token of its list was taken off: the last token of the
    /// list takes its place.
    pub open spec fn without_token(self, mint: Pubkey) -> VaultView {
        VaultView { allowed_mints: without(self.allowed_mints, mint), ..self }
    }

    /// The vault after another bot was named.
    pub open spec fn with_bot(self, bot: Pubkey) -> VaultView {
        VaultView { bot_address: bot, ..self }
    }

    /// The vault after another router was named.
    pub open spec fn with_router(self, router: Pubkey) -> VaultView {
        VaultView { jupiter_router: router, ..self }
    }
}

/// The first place at which the list holds the token is `i`.
pub open spec fn is_first_at(mints: Seq<Pubkey>, mint: Pubkey, i: int) -> bool {
    &&& 0 <= i < mints.len()
    &&& mints[i] == mint
    &&& forall|j: int| 0 <= j < i ==> mints[j] != mint
}

/// The first place at which the list holds the token.
pub open spec fn first_at(mints: Seq<Pubkey>, mint: Pubkey) -> int {
    choose|i: int| is_first_at(mints, mint, i)
}

/// The list with the first occurrence of the token replaced by the last token of
/// the list, and the last place dropped.
pub open spec fn without(mints: Seq<Pubkey>, mint: Pubkey) -> Seq<Pubkey> {
    mints.update(first_at(mints, mint), mints.last()).drop_last()
}

/// The proposed tokens, each at its first occurrence, without the all-zero
/// address.
pub open spec fn normalized(proposed: Seq<Pubkey>) -> Seq<Pubkey>
    decreases proposed.len(),
{
    if proposed.len() == 0 {
        Seq::empty()
    } else {
        let before = normalized(proposed.drop_last());
        if proposed.last() == no_key() || before.contains(proposed.last()) {
            before
        } else {
            before.push(proposed.last())
        }
    }
}

/// The seeds of the address at which the owner's vault lives.
pub open spec fn vault_seed_bytes(owner: Pubkey) -> Seq<Seq<u8>> {
    seq![VAULT_LABEL@, owner@]
}

/// The seeds of the address that holds the tokens of the vault at `vault`.
pub open spec fn authority_seed_bytes(vault: Pubkey) -> Seq<Seq<u8>> {
    seq![AUTHORITY_LABEL@, vault@]
}

/// The seeds with which the vault program signs for the address that holds the
/// tokens of the vault at `vault`.
pub open spec fn signer_seed_bytes(vault: Pubkey, bump: u8) -> Seq<Seq<u8>> {
    authority_seed_bytes(vault).push(seq![bump])
}

/// The seeds of the address at which the owner's vault lives.
pub fn vault_seeds(owner: &Pubkey) -> (seeds: Vec<Vec<u8>>)
    ensures
        seed_bytes(seeds@) == vault_seed_bytes(*owner),
{
    let mut seeds: Vec<Vec<u8>> = Vec::new();
    seeds.push(vstd::slice::slice_to_vec(VAULT_LABEL.as_slice()));
    seeds.push(vstd::slice::slice_to_vec(owner.bytes.as_slice()));
    assert(seed_bytes(seeds@) =~= vault_seed_bytes(*owner));
    seeds
}

/// The seeds of the address that holds the tokens of the vault.
pub fn authority_seeds(vault: &Pubkey) -> (seeds: Vec<Vec<u8>>)
    ensures
        seed_bytes(seeds@) == authority_seed_bytes(*vault),
{
    let mut seeds: Vec<Vec<u8>> = Vec::new();
    seeds.push(vstd::slice::slice_to_vec(AUTHORITY_LABEL.as_slice()));
    seeds.push(vstd::slice::slice_to_vec(vault.bytes.as_slice()));
    assert(seed_bytes(seeds@) =~= authority_seed_bytes(*vault));
    seeds
}

/// The seeds with which the vault program signs for the address that holds the
/// tokens of the vault.
pub fn signer_seeds(vault: &Pubkey, bump: u8) -> (seeds: Vec<Vec<u8>>)
    ensures
        seed_bytes(seeds@) == signer_seed_bytes(*vault, bump),
{
    let mut seeds = authority_seeds(vault);
    let ghost before = seeds@;
    let mut last: Vec<u8> = Vec::new();
    last.push(bump);
    assert(last@ =~= seq![bump]);
    seeds.push(last);
    assert(seed_bytes(seeds@) =~= seed_bytes(before).push(seq![bump]));
    seeds
}

/// The first place at which the list holds the token.
pub fn position(mints: &Vec<Pubkey>, mint: &Pubkey) -> (place: Option<usize>)
    ensures
        match place {
            Some(i) => mints@.contains(*mint) && i == first_at(mints@, *mint) && is_first_at(
                mints@,
                *mint,
                i as int,
            ),
            None => !mints@.contains(*mint),
        },
{
    let mut i: usize = 0;
    while i < mints.len()
        invariant
            i <= mints.len(),
            forall|j: int| 0 <= j < i ==> mints[j] != *mint,
        decreases mints.len() - i,
    {
        if mints[i] == *mint {
            assert(is_first_at(mints@, *mint, i as int));
            return Some(i);
        }
        i = i + 1;
    }
    None
}

/// Whether the list holds the token.
pub fn contains(mints: &Vec<Pubkey>, mint: &Pubkey) -> (held: bool)
    ensures
        held == mints@.contains(*mint),
{
    position(mints, mint).is_some()
}

/// Drops the all-zero address and every repetition from the proposed tokens.
pub fn normalize(proposed: &Vec<Pubkey>) -> (mints: Vec<Pubkey>)
    ensures
        mints@ == normalized(proposed@),
{
    let mut mints: Vec<Pubkey> = Vec::new();
    let none = Pubkey::default();
    let mut i: usize = 0;
    while i < proposed.len()
        invariant
            i <= proposed.len(),
            none == no_key(),
            mints@ == normalized(proposed@.take(i as int)),
        decreases proposed.len() - i,
    {
        assert(proposed@.take(i + 1).drop_last() =~= proposed@.take(i as int));
        let mint = proposed[i];
        if mint != none && !contains(&mints, &mint) {
            mints.push(mint);
        }
        i = i + 1;
    }
    assert(proposed@.take(i as int) =~= proposed@);
    mints
}

/// Lets the owner and the bot through.
pub fn require_bot_or_owner(vault: &Vault, signer: &Pubkey) -> (verdict: Result<(), Failure>)
    ensures
        verdict == if vault@.may_act(*signer) {
            Ok::<(), Failure>(())
        } else {
            Err(Failure::Vault(VaultError::Unauthorized))
        },
{
    if *signer == vault.owner || *signer == vault.bot_address {
        Ok(())
    } else {
        Err(Failure::Vault(VaultError::Unauthorized))
    }
}

/// Lets the tokens on the vault's list through.
pub fn require_allowed(vault: &Vault, mint: &Pubkey) -> (verdict: Result<(), Failure>)
    ensures
        verdict == if vault.allowed_mints@.contains(*mint) {
            Ok::<(), Failure>(())
        } else {
            Err(Failure::Vault(VaultError::TokenNotAllowed))
        },
{
    if contains(&vault.allowed_mints, mint) {
        Ok(())
    } else {
        Err(Failure::Vault(VaultError::TokenNotAllowed))
    }
}

}
