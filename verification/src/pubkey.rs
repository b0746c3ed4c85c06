//! Account addresses and the derivation of program addresses.
use vstd::prelude::*;

verus! {

/// The address of an account: thirty-two bytes, of which the all-zero value
/// stands for "no account".
#[derive(Clone, Copy, Debug, Eq)]
pub struct Pubkey {
    pub bytes: [u8; 32],
}

impl View for Pubkey {
    type V = Seq<u8>;

    open spec fn view(&self) -> Seq<u8> {
        self.bytes@
    }
}

impl PartialEq for Pubkey {
    fn eq(&self, other: &Self) -> (same: bool) {
        let mut i: usize = 0;
        while i < 32
            invariant
                i <= 32,
                forall|j: int| 0 <= j < i ==> self.bytes[j] == other.bytes[j],
            decreases 32 - i,
        {
            if self.bytes[i] != other.bytes[i] {
                return false;
            }
            i = i + 1;
        }
        assert(self.bytes =~= other.bytes);
        true
    }
}

impl vstd::std_specs::cmp::PartialEqSpecImpl for Pubkey {
    open spec fn obeys_eq_spec() -> bool {
        true
    }

    open spec fn eq_spec(&self, other: &Self) -> bool {
        *self == *other
    }
}

/// Thirty-two zero bytes.
pub const ZEROS: [u8; 32] = [
    0, 0, 0, 0, 0, 0, 0, 0, 0, 0, 0, 0, 0, 0, 0, 0, 0, 0, 0, 0, 0, 0, 0, 0, 0, 0, 0, 0, 0, 0, 0, 0,
];

/// The address whose bytes are all zero.
pub open spec fn no_key() -> Pubkey {
    Pubkey { bytes: ZEROS }
}

impl Default for Pubkey {
    fn default() -> (key: Self)
        ensures
            key == no_key(),
    {
        Pubkey { bytes: ZEROS }
    }
}

/// The address with the given bytes.
pub open spec fn key(bytes: Seq<u8>) -> Pubkey {
    choose|k: Pubkey| k@ == bytes
}

/// An address is determined by its bytes.
pub broadcast proof fn lemma_key_of_view(k: Pubkey)
    ensures
        #[trigger] key(k@) == k,
{
    let other = key(k@);
    assert(other@ == k@);
    assert forall|i: int| 0 <= i < 32 implies other.bytes[i] == k.bytes[i] by {
        assert(other@[i] == k@[i]);
    }
    assert(other.bytes =~= k.bytes);
}

/// The bytes of the address under which the vault program is deployed.
pub const PROGRAM_ID: [u8; 32] = [
    203, 255, 197, 173, 149, 112, 50, 54, 238, 165, 170, 64, 188, 36, 86, 217, 201, 235, 95, 48,
    151, 17, 121, 59, 44, 145, 94, 99, 241, 114, 8, 44,
];

/// The bytes of the address of the first token program.
pub const TOKEN_PROGRAM: [u8; 32] = [
    6, 221, 246, 225, 215, 101, 161, 147, 217, 203, 225, 70, 206, 235, 121, 172, 28, 180, 133, 237,
    95, 91, 55, 145, 58, 140, 245, 133, 126, 255, 0, 169,
];

/// The bytes of the address of the token program with extensions.
pub const TOKEN_2022_PROGRAM: [u8; 32] = [
    6, 221, 246, 225, 238, 117, 143, 222, 24, 66, 93, 188, 228, 108, 205, 218, 182, 26, 252, 77,
    131, 185, 13, 39, 254, 189, 249, 40, 216, 161, 139, 252,
];

/// The bytes of the address of the associated token program.
pub const ASSOCIATED_TOKEN_PROGRAM: [u8; 32] = [
    140, 151, 37, 143, 78, 36, 137, 241, 187, 61, 16, 41, 20, 142, 13, 131, 11, 90, 19, 153, 218,
    255, 16, 132, 4, 142, 123, 216, 219, 233, 248, 89,
];

/// The label under which a vault's own address is derived: `vault`.
pub const VAULT_LABEL: [u8; 5] = [118, 97, 117, 108, 116];

/// The label under which a vault's authority is derived: `vault_authority`.
pub const AUTHORITY_LABEL: [u8; 15] = [
    118, 97, 117, 108, 116, 95, 97, 117, 116, 104, 111, 114, 105, 116, 121,
];

/// The address under which the vault program is deployed.
pub fn id() -> (id: Pubkey)
    ensures
        id == (Pubkey { bytes: PROGRAM_ID }),
{
    Pubkey { bytes: PROGRAM_ID }
}

/// The seeds of an address derivation, each by its bytes.
pub open spec fn seed_bytes(seeds: Seq<Vec<u8>>) -> Seq<Seq<u8>> {
    seeds.map_values(|seed: Vec<u8>| seed@)
}

/// What `Pubkey::try_find_program_address` of `anchor_lang` returns for the
/// seeds and the program: the address that it finds and the bump it found it
/// with.
pub uninterp spec fn found_address(seeds: Seq<Seq<u8>>, program: Seq<u8>) -> Option<(Seq<u8>, u8)>;

/// What `Pubkey::create_program_address` of `anchor_lang` returns for the seeds
/// and the program, where it succeeds.
pub uninterp spec fn created_address(seeds: Seq<Seq<u8>>, program: Seq<u8>) -> Option<Seq<u8>>;

/// Calls `Pubkey::try_find_program_address`. Its result is a function of the
/// seeds and the program, named `found_address`. An address that it finds is the
/// one that `Pubkey::create_program_address` makes of the same seeds followed by
/// the bump as a seed of one byte.
#[verifier::external_body]
pub(crate) fn find_address(seeds: &Vec<Vec<u8>>, program: &Pubkey) -> (found: Option<(Pubkey, u8)>)
    ensures
        match found {
            Some((address, bump)) => {
                &&& found_address(seed_bytes(seeds@), program@) == Some((address@, bump))
                &&& created_address(seed_bytes(seeds@).push(seq![bump]), program@) == Some(address@)
            },
            None => found_address(seed_bytes(seeds@), program@) is None,
        },
{
    let parts: Vec<&[u8]> = seeds.iter().map(|seed| seed.as_slice()).collect();
    let program = anchor_lang::prelude::Pubkey::new_from_array(program.bytes);
    anchor_lang::prelude::Pubkey::try_find_program_address(&parts, &program)
        .map(|(address, bump)| (Pubkey { bytes: address.to_bytes() }, bump))
}

/// Calls `Pubkey::create_program_address`. Whether it succeeds, and with which
/// address, is a function of the seeds and the program, named
/// `created_address`. Which error it fails with is dropped here and not stated.
#[verifier::external_body]
pub(crate) fn create_address(seeds: &Vec<Vec<u8>>, program: &Pubkey) -> (created: Option<Pubkey>)
    ensures
        match created {
            Some(address) => created_address(seed_bytes(seeds@), program@) == Some(address@),
            None => created_address(seed_bytes(seeds@), program@) is None,
        },
{
    let parts: Vec<&[u8]> = seeds.iter().map(|seed| seed.as_slice()).collect();
    let program = anchor_lang::prelude::Pubkey::new_from_array(program.bytes);
    anchor_lang::prelude::Pubkey::create_program_address(&parts, &program)
        .map(|address| Pubkey { bytes: address.to_bytes() })
        .ok()
}

/// Calls `TokenAccount::owners` of `anchor_spl`: the programs whose accounts may
/// hold tokens are the two token programs, in this order.
#[verifier::external_body]
pub(crate) fn token_programs() -> (programs: Vec<Pubkey>)
    ensures
        programs@ == seq![Pubkey { bytes: TOKEN_PROGRAM }, Pubkey { bytes: TOKEN_2022_PROGRAM }],
{
    <anchor_spl::token_interface::TokenAccount as anchor_lang::Owners>::owners()
        .iter()
        .map(|program| Pubkey { bytes: program.to_bytes() })
        .collect()
}

/// Reads `associated_token::ID` of `anchor_spl`: the address of the associated
/// token program.
#[verifier::external_body]
pub(crate) fn associated_token_program() -> (program: Pubkey)
    ensures
        program == (Pubkey { bytes: ASSOCIATED_TOKEN_PROGRAM }),
{
    Pubkey { bytes: anchor_spl::associated_token::ID.to_bytes() }
}

}
