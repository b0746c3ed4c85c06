//! Which accounts a request may come with: exactly when they are accepted, and for
//! which fault they are refused.
use vstd::prelude::*;

use crate::associated::is_token_program;
use crate::context::{
    AddToken, CloseEmptyTokenAccounts, CloseVaultAccount, InitializeVault, OwnerOnly, ReadVault,
    RemoveToken, Trade, WithdrawAll, WithdrawNative, WithdrawToken,
};
use crate::error::{ConstraintError, Failure};
use crate::pubkey::{no_key, Pubkey, ASSOCIATED_TOKEN_PROGRAM, PROGRAM_ID};

verus! {

/// The refusal of accounts that break a constraint.
pub open spec fn broken(constraint: ConstraintError) -> Failure {
    Failure::Constraint(constraint)
}

/// The failure of the first rule, from the one at `i` on, that does not hold.
pub open spec fn fault_from(rules: Seq<(bool, Failure)>, i: int) -> Option<Failure>
    decreases rules.len() - i,
{
    if i >= rules.len() {
        None
    } else if !rules[i].0 {
        Some(rules[i].1)
    } else {
        fault_from(rules, i + 1)
    }
}

/// The failure of the first rule that does not hold.
pub open spec fn first_fault(rules: Seq<(bool, Failure)>) -> Option<Failure> {
    fault_from(rules, 0)
}

/// The rules from the one at `from` on up to `at` hold, and that one does not.
proof fn lemma_fault_at(rules: Seq<(bool, Failure)>, from: int, at: int)
    requires
        0 <= from <= at < rules.len(),
        !rules[at].0,
        forall|j: int| from <= j < at ==> (#[trigger] rules[j]).0,
    ensures
        fault_from(rules, from) == Some(rules[at].1),
    decreases at - from,
{
    if from < at {
        lemma_fault_at(rules, from + 1, at);
    }
}

/// There is no fault where the rules from the one at `from` on hold.
proof fn lemma_no_fault(rules: Seq<(bool, Failure)>, from: int)
    requires
        0 <= from,
        forall|j: int| from <= j < rules.len() ==> (#[trigger] rules[j]).0,
    ensures
        fault_from(rules, from) is None,
    decreases rules.len() - from,
{
    if from < rules.len() {
        lemma_no_fault(rules, from + 1);
    }
}

/// The first fault is that of the rule that does not hold while all before it do; there
/// is none exactly where all rules hold.
pub proof fn law_first_fault_is_the_first(rules: Seq<(bool, Failure)>, at: int)
    requires
        0 <= at <= rules.len(),
        forall|j: int| 0 <= j < at ==> (#[trigger] rules[j]).0,
        at < rules.len() ==> !rules[at].0,
    ensures
        first_fault(rules) == if at < rules.len() {
            Some(rules[at].1)
        } else {
            None
        },
{
    if at < rules.len() {
        lemma_fault_at(rules, 0, at);
    } else {
        lemma_no_fault(rules, 0);
    }
}

/// The accounts of a request to create a vault are accepted when the owner signs, the
/// programs are the known ones, the vault and the authority are at the addresses found
/// for them, and what changes is writable. Others are refused for their first fault.
pub proof fn law_accounts_for_creation(ctx: InitializeVault, home: Option<(Pubkey, u8)>, authority: Option<(Pubkey, u8)>)
    ensures
        ctx.constraint_failure(home, authority) is None <==> {
            &&& ctx.owner.is_signer
            &&& ctx.system_program.key == no_key()
            &&& ctx.system_program.executable
            &&& ctx.associated_token_program.key == (Pubkey { bytes: ASSOCIATED_TOKEN_PROGRAM })
            &&& ctx.associated_token_program.executable
            &&& home is Some
            &&& home.unwrap().0 == ctx.vault.pubkey
            &&& ctx.vault.is_writable
            &&& authority is Some
            &&& authority.unwrap().0 == ctx.vault_authority
            &&& ctx.owner.is_writable
        },
        ctx.constraint_failure(home, authority) == first_fault(
            seq![
                (ctx.owner.is_signer, broken(ConstraintError::AccountNotSigner)),
                (ctx.system_program.key == no_key(), broken(ConstraintError::InvalidProgramId)),
                (ctx.system_program.executable, broken(ConstraintError::InvalidProgramExecutable)),
                (ctx.associated_token_program.key == (Pubkey { bytes: ASSOCIATED_TOKEN_PROGRAM }), broken(ConstraintError::InvalidProgramId)),
                (ctx.associated_token_program.executable, broken(ConstraintError::InvalidProgramExecutable)),
                (home is Some, Failure::NoAddress),
                (home.unwrap().0 == ctx.vault.pubkey, broken(ConstraintError::ConstraintSeeds)),
                (ctx.vault.is_writable, broken(ConstraintError::ConstraintMut)),
                (authority is Some, Failure::NoAddress),
                (authority.unwrap().0 == ctx.vault_authority, broken(ConstraintError::ConstraintSeeds)),
                (ctx.owner.is_writable, broken(ConstraintError::ConstraintMut)),
            ],
        ),
{
    reveal_with_fuel(fault_from, 13);
}

/// The accounts of a question are accepted when the vault is one of this program.
/// Others are refused for their first fault.
pub proof fn law_accounts_for_reading(ctx: ReadVault)
    ensures
        ctx.constraint_failure() is None <==> {
            &&& ctx.vault.program == (Pubkey { bytes: PROGRAM_ID })
        },
        ctx.constraint_failure() == first_fault(
            seq![
                (ctx.vault.program == (Pubkey { bytes: PROGRAM_ID }), broken(ConstraintError::AccountOwnedByWrongProgram)),
            ],
        ),
{
    reveal_with_fuel(fault_from, 3);
}

/// The accounts of a request to name a bot or a router are accepted when the vault is
/// one of this program and writable, and its owner signs. Others are refused for their
/// first fault.
pub proof fn law_accounts_for_owner_only(ctx: OwnerOnly)
    ensures
        ctx.constraint_failure() is None <==> {
            &&& ctx.vault.program == (Pubkey { bytes: PROGRAM_ID })
            &&& ctx.owner.is_signer
            &&& ctx.vault.is_writable
            &&& ctx.vault.data.owner == ctx.owner.pubkey
        },
        ctx.constraint_failure() == first_fault(
            seq![
                (ctx.vault.program == (Pubkey { bytes: PROGRAM_ID }), broken(ConstraintError::AccountOwnedByWrongProgram)),
                (ctx.owner.is_signer, broken(ConstraintError::AccountNotSigner)),
                (ctx.vault.is_writable, broken(ConstraintError::ConstraintMut)),
                (ctx.vault.data.owner == ctx.owner.pubkey, broken(ConstraintError::ConstraintHasOne)),
            ],
        ),
{
    reveal_with_fuel(fault_from, 6);
}

/// The accounts of a request to stop trading a token are accepted when each belongs to
/// the program that it should, the owner of the vault signs, the authority is the
/// derived one, and what changes is writable. Others are refused for their first fault.
pub proof fn law_accounts_for_removing(ctx: RemoveToken, authority: Option<Pubkey>)
    ensures
        ctx.constraint_failure(authority) is None <==> {
            &&& ctx.vault.program == (Pubkey { bytes: PROGRAM_ID })
            &&& ctx.owner.is_signer
            &&& is_token_program(ctx.mint.program)
            &&& is_token_program(ctx.vault_token_account.program)
            &&& is_token_program(ctx.token_program.key)
            &&& ctx.token_program.executable
            &&& ctx.vault.is_writable
            &&& ctx.vault.data.owner == ctx.owner.pubkey
            &&& authority == Some(ctx.vault_authority)
            &&& ctx.owner.is_writable
            &&& ctx.vault_token_account.is_writable
        },
        ctx.constraint_failure(authority) == first_fault(
            seq![
                (ctx.vault.program == (Pubkey { bytes: PROGRAM_ID }), broken(ConstraintError::AccountOwnedByWrongProgram)),
                (ctx.owner.is_signer, broken(ConstraintError::AccountNotSigner)),
                (is_token_program(ctx.mint.program), broken(ConstraintError::AccountOwnedByWrongProgram)),
                (is_token_program(ctx.vault_token_account.program), broken(ConstraintError::AccountOwnedByWrongProgram)),
                (is_token_program(ctx.token_program.key), broken(ConstraintError::InvalidProgramId)),
                (ctx.token_program.executable, broken(ConstraintError::InvalidProgramExecutable)),
                (ctx.vault.is_writable, broken(ConstraintError::ConstraintMut)),
                (ctx.vault.data.owner == ctx.owner.pubkey, broken(ConstraintError::ConstraintHasOne)),
                (authority == Some(ctx.vault_authority), broken(ConstraintError::ConstraintSeeds)),
                (ctx.owner.is_writable, broken(ConstraintError::ConstraintMut)),
                (ctx.vault_token_account.is_writable, broken(ConstraintError::ConstraintMut)),
            ],
        ),
{
    reveal_with_fuel(fault_from, 13);
}

/// The accounts of a request to trade another token are accepted when the owner of the
/// vault signs, the programs are the known ones, the authority is the derived one, and
/// what changes is writable. Others are refused for their first fault.
pub proof fn law_accounts_for_adding(ctx: AddToken, authority: Option<Pubkey>)
    ensures
        ctx.constraint_failure(authority) is None <==> {
            &&& ctx.vault.program == (Pubkey { bytes: PROGRAM_ID })
            &&& ctx.owner.is_signer
            &&& ctx.system_program.key == no_key()
            &&& ctx.system_program.executable
            &&& ctx.associated_token_program.key == (Pubkey { bytes: ASSOCIATED_TOKEN_PROGRAM })
            &&& ctx.associated_token_program.executable
            &&& ctx.vault.is_writable
            &&& ctx.vault.data.owner == ctx.owner.pubkey
            &&& authority == Some(ctx.vault_authority)
            &&& ctx.owner.is_writable
        },
        ctx.constraint_failure(authority) == first_fault(
            seq![
                (ctx.vault.program == (Pubkey { bytes: PROGRAM_ID }), broken(ConstraintError::AccountOwnedByWrongProgram)),
                (ctx.owner.is_signer, broken(ConstraintError::AccountNotSigner)),
                (ctx.system_program.key == no_key(), broken(ConstraintError::InvalidProgramId)),
                (ctx.system_program.executable, broken(ConstraintError::InvalidProgramExecutable)),
                (ctx.associated_token_program.key == (Pubkey { bytes: ASSOCIATED_TOKEN_PROGRAM }), broken(ConstraintError::InvalidProgramId)),
                (ctx.associated_token_program.executable, broken(ConstraintError::InvalidProgramExecutable)),
                (ctx.vault.is_writable, broken(ConstraintError::ConstraintMut)),
                (ctx.vault.data.owner == ctx.owner.pubkey, broken(ConstraintError::ConstraintHasOne)),
                (authority == Some(ctx.vault_authority), broken(ConstraintError::ConstraintSeeds)),
                (ctx.owner.is_writable, broken(ConstraintError::ConstraintMut)),
            ],
        ),
{
    reveal_with_fuel(fault_from, 12);
}

/// The accounts of a trade are accepted when each belongs to the program that it
/// should, the caller signs, the authority is the derived one, and what changes is
/// writable. Others are refused for their first fault.
pub proof fn law_accounts_for_trading(ctx: Trade, authority: Option<Pubkey>)
    ensures
        ctx.constraint_failure(authority) is None <==> {
            &&& ctx.vault.program == (Pubkey { bytes: PROGRAM_ID })
            &&& ctx.caller.is_signer
            &&& is_token_program(ctx.vault_token_in.program)
            &&& is_token_program(ctx.vault_token_out.program)
            &&& is_token_program(ctx.token_program_in.key)
            &&& ctx.token_program_in.executable
            &&& is_token_program(ctx.token_program_out.key)
            &&& ctx.token_program_out.executable
            &&& ctx.vault.is_writable
            &&& authority == Some(ctx.vault_authority)
            &&& ctx.caller.is_writable
            &&& ctx.vault_token_in.is_writable
            &&& ctx.vault_token_out.is_writable
        },
        ctx.constraint_failure(authority) == first_fault(
            seq![
                (ctx.vault.program == (Pubkey { bytes: PROGRAM_ID }), broken(ConstraintError::AccountOwnedByWrongProgram)),
                (ctx.caller.is_signer, broken(ConstraintError::AccountNotSigner)),
                (is_token_program(ctx.vault_token_in.program), broken(ConstraintError::AccountOwnedByWrongProgram)),
                (is_token_program(ctx.vault_token_out.program), broken(ConstraintError::AccountOwnedByWrongProgram)),
                (is_token_program(ctx.token_program_in.key), broken(ConstraintError::InvalidProgramId)),
                (ctx.token_program_in.executable, broken(ConstraintError::InvalidProgramExecutable)),
                (is_token_program(ctx.token_program_out.key), broken(ConstraintError::InvalidProgramId)),
                (ctx.token_program_out.executable, broken(ConstraintError::InvalidProgramExecutable)),
                (ctx.vault.is_writable, broken(ConstraintError::ConstraintMut)),
                (authority == Some(ctx.vault_authority), broken(ConstraintError::ConstraintSeeds)),
                (ctx.caller.is_writable, broken(ConstraintError::ConstraintMut)),
                (ctx.vault_token_in.is_writable, broken(ConstraintError::ConstraintMut)),
                (ctx.vault_token_out.is_writable, broken(ConstraintError::ConstraintMut)),
            ],
        ),
{
    reveal_with_fuel(fault_from, 15);
}

/// The accounts of a request to pay everything out are accepted when the caller signs,
/// the token program is one, the authority is the derived one, and what changes is
/// writable. Others are refused for their first fault.
pub proof fn law_accounts_for_paying_everything_out(ctx: WithdrawAll, authority: Option<Pubkey>)
    ensures
        ctx.constraint_failure(authority) is None <==> {
            &&& ctx.vault.program == (Pubkey { bytes: PROGRAM_ID })
            &&& ctx.caller.is_signer
            &&& is_token_program(ctx.token_program.key)
            &&& ctx.token_program.executable
            &&& ctx.vault.is_writable
            &&& authority == Some(ctx.vault_authority)
            &&& ctx.caller.is_writable
            &&& ctx.owner.is_writable
        },
        ctx.constraint_failure(authority) == first_fault(
            seq![
                (ctx.vault.program == (Pubkey { bytes: PROGRAM_ID }), broken(ConstraintError::AccountOwnedByWrongProgram)),
                (ctx.caller.is_signer, broken(ConstraintError::AccountNotSigner)),
                (is_token_program(ctx.token_program.key), broken(ConstraintError::InvalidProgramId)),
                (ctx.token_program.executable, broken(ConstraintError::InvalidProgramExecutable)),
                (ctx.vault.is_writable, broken(ConstraintError::ConstraintMut)),
                (authority == Some(ctx.vault_authority), broken(ConstraintError::ConstraintSeeds)),
                (ctx.caller.is_writable, broken(ConstraintError::ConstraintMut)),
                (ctx.owner.is_writable, broken(ConstraintError::ConstraintMut)),
            ],
        ),
{
    reveal_with_fuel(fault_from, 10);
}

/// The accounts of a request to pay out a token are accepted when each belongs to the
/// program that it should, the owner of the vault signs, the authority is the derived
/// one, and what changes is writable. Others are refused for their first fault.
pub proof fn law_accounts_for_paying_out_a_token(ctx: WithdrawToken, authority: Option<Pubkey>)
    ensures
        ctx.constraint_failure(authority) is None <==> {
            &&& ctx.vault.program == (Pubkey { bytes: PROGRAM_ID })
            &&& ctx.owner.is_signer
            &&& is_token_program(ctx.mint.program)
            &&& is_token_program(ctx.vault_token_account.program)
            &&& is_token_program(ctx.recipient_token_account.program)
            &&& is_token_program(ctx.token_program.key)
            &&& ctx.token_program.executable
            &&& ctx.vault.is_writable
            &&& ctx.vault.data.owner == ctx.owner.pubkey
            &&& authority == Some(ctx.vault_authority)
            &&& ctx.vault_token_account.is_writable
            &&& ctx.recipient_token_account.is_writable
        },
        ctx.constraint_failure(authority) == first_fault(
            seq![
                (ctx.vault.program == (Pubkey { bytes: PROGRAM_ID }), broken(ConstraintError::AccountOwnedByWrongProgram)),
                (ctx.owner.is_signer, broken(ConstraintError::AccountNotSigner)),
                (is_token_program(ctx.mint.program), broken(ConstraintError::AccountOwnedByWrongProgram)),
                (is_token_program(ctx.vault_token_account.program), broken(ConstraintError::AccountOwnedByWrongProgram)),
                (is_token_program(ctx.recipient_token_account.program), broken(ConstraintError::AccountOwnedByWrongProgram)),
                (is_token_program(ctx.token_program.key), broken(ConstraintError::InvalidProgramId)),
                (ctx.token_program.executable, broken(ConstraintError::InvalidProgramExecutable)),
                (ctx.vault.is_writable, broken(ConstraintError::ConstraintMut)),
                (ctx.vault.data.owner == ctx.owner.pubkey, broken(ConstraintError::ConstraintHasOne)),
                (authority == Some(ctx.vault_authority), broken(ConstraintError::ConstraintSeeds)),
                (ctx.vault_token_account.is_writable, broken(ConstraintError::ConstraintMut)),
                (ctx.recipient_token_account.is_writable, broken(ConstraintError::ConstraintMut)),
            ],
        ),
{
    reveal_with_fuel(fault_from, 14);
}

/// The accounts of a request to pay out lamports are accepted when the owner of the
/// vault signs, and what changes is writable. Others are refused for their first fault.
pub proof fn law_accounts_for_paying_out_lamports(ctx: WithdrawNative)
    ensures
        ctx.constraint_failure() is None <==> {
            &&& ctx.vault.program == (Pubkey { bytes: PROGRAM_ID })
            &&& ctx.owner.is_signer
            &&& ctx.vault.is_writable
            &&& ctx.vault.data.owner == ctx.owner.pubkey
            &&& ctx.recipient.is_writable
        },
        ctx.constraint_failure() == first_fault(
            seq![
                (ctx.vault.program == (Pubkey { bytes: PROGRAM_ID }), broken(ConstraintError::AccountOwnedByWrongProgram)),
                (ctx.owner.is_signer, broken(ConstraintError::AccountNotSigner)),
                (ctx.vault.is_writable, broken(ConstraintError::ConstraintMut)),
                (ctx.vault.data.owner == ctx.owner.pubkey, broken(ConstraintError::ConstraintHasOne)),
                (ctx.recipient.is_writable, broken(ConstraintError::ConstraintMut)),
            ],
        ),
{
    reveal_with_fuel(fault_from, 7);
}

/// The accounts of a request to close token accounts are accepted when somebody signs
/// as the owner, the token program is one, the authority is the derived one, and what
/// changes is writable. Others are refused for their first fault.
pub proof fn law_accounts_for_closing_accounts(ctx: CloseEmptyTokenAccounts, authority: Option<Pubkey>)
    ensures
        ctx.constraint_failure(authority) is None <==> {
            &&& ctx.vault.program == (Pubkey { bytes: PROGRAM_ID })
            &&& ctx.owner.is_signer
            &&& is_token_program(ctx.token_program.key)
            &&& ctx.token_program.executable
            &&& ctx.vault.is_writable
            &&& authority == Some(ctx.vault_authority)
            &&& ctx.owner.is_writable
        },
        ctx.constraint_failure(authority) == first_fault(
            seq![
                (ctx.vault.program == (Pubkey { bytes: PROGRAM_ID }), broken(ConstraintError::AccountOwnedByWrongProgram)),
                (ctx.owner.is_signer, broken(ConstraintError::AccountNotSigner)),
                (is_token_program(ctx.token_program.key), broken(ConstraintError::InvalidProgramId)),
                (ctx.token_program.executable, broken(ConstraintError::InvalidProgramExecutable)),
                (ctx.vault.is_writable, broken(ConstraintError::ConstraintMut)),
                (authority == Some(ctx.vault_authority), broken(ConstraintError::ConstraintSeeds)),
                (ctx.owner.is_writable, broken(ConstraintError::ConstraintMut)),
            ],
        ),
{
    reveal_with_fuel(fault_from, 9);
}

/// The accounts of a request to close a vault are accepted when its owner signs, is not
/// the vault itself, and both are writable. Others are refused for their first fault.
pub proof fn law_accounts_for_closing_the_vault(ctx: CloseVaultAccount)
    ensures
        ctx.constraint_failure() is None <==> {
            &&& ctx.vault.program == (Pubkey { bytes: PROGRAM_ID })
            &&& ctx.owner.is_signer
            &&& ctx.vault.is_writable
            &&& ctx.vault.data.owner == ctx.owner.pubkey
            &&& ctx.vault.key != ctx.owner.pubkey
            &&& ctx.owner.is_writable
        },
        ctx.constraint_failure() == first_fault(
            seq![
                (ctx.vault.program == (Pubkey { bytes: PROGRAM_ID }), broken(ConstraintError::AccountOwnedByWrongProgram)),
                (ctx.owner.is_signer, broken(ConstraintError::AccountNotSigner)),
                (ctx.vault.is_writable, broken(ConstraintError::ConstraintMut)),
                (ctx.vault.data.owner == ctx.owner.pubkey, broken(ConstraintError::ConstraintHasOne)),
                (ctx.vault.key != ctx.owner.pubkey, broken(ConstraintError::ConstraintClose)),
                (ctx.owner.is_writable, broken(ConstraintError::ConstraintMut)),
            ],
        ),
{
    reveal_with_fuel(fault_from, 8);
}

}
