//! A minimal on-chain program: a fixed program identifier and a single
//! instruction, `initialize`, whose account context declares no accounts and
//! whose body succeeds unconditionally.
//!
//! The host runtime validates the accounts a caller supplies against the
//! context an instruction declares before the instruction body runs. That
//! validation is written out here as an explicit function,
//! [`Initialize::try_accounts`], so that both halves of an invocation — the
//! validation and the body — carry proved contracts.

use vstd::prelude::*;

verus! {

/// An account supplied by the caller of an instruction, identified by the
/// address under which the host runtime hands it over.
pub struct AccountHandle {
    /// The account's address.
    pub address: Vec<u8>,
}

/// Why a supplied account list failed validation against a context's
/// declaration.
#[derive(Clone, Copy, Debug, PartialEq, Eq)]
pub enum ValidationError {
    /// The caller supplied more accounts than the context declares.
    UnexpectedAccount,
}

/// The identifier under which the program is deployed: a build-time constant.
pub open spec fn spec_program_id() -> Seq<char> {
    "HSniT6AQXSahCPwQGM85A6Jjk4rGQRg7bVcovboB4Gav"@
}

/// The program's identifier. It is fixed at build time, so every
/// introspection returns the same value.
pub fn program_id() -> (r: &'static str)
    ensures
        r@ == spec_program_id(),
{
    "HSniT6AQXSahCPwQGM85A6Jjk4rGQRg7bVcovboB4Gav"
}

/// The program identifier is constant across repeated introspection: any two
/// values that meet the identifier's specification are equal.
pub proof fn lemma_program_id_constant(first: Seq<char>, second: Seq<char>)
    requires
        first == spec_program_id(),
        second == spec_program_id(),
    ensures
        first == second,
{
}

/// The account context of the `initialize` instruction. It declares no
/// accounts and carries no state; a value of it attests that validation
/// accepted the caller's account list.
pub struct Initialize {}

impl Initialize {
    /// How many accounts the context declares.
    pub open spec fn declared_accounts() -> nat {
        0
    }

    /// Validates a supplied account list against the declaration: the list is
    /// accepted exactly when it holds as many accounts as the context
    /// declares, that is, none.
    pub fn try_accounts(accounts: &Vec<AccountHandle>) -> (r: Result<Initialize, ValidationError>)
        ensures
            r is Ok <==> accounts@.len() == Self::declared_accounts(),
            r is Err <==> accounts@.len() > 0,
            r is Err ==> r == Err::<Initialize, ValidationError>(ValidationError::UnexpectedAccount),
    {
        if accounts.len() == 0 {
            Ok(Initialize {})
        } else {
            Err(ValidationError::UnexpectedAccount)
        }
    }
}

/// What `initialize` returns for a given context: success, carrying no
/// payload, whatever the context holds.
pub open spec fn initialize_spec(ctx: Initialize) -> Result<(), ValidationError> {
    Ok(())
}

/// The program's single instruction. It reads no account, writes no state,
/// and succeeds unconditionally.
pub fn initialize(ctx: Initialize) -> (r: Result<(), ValidationError>)
    ensures
        r == initialize_spec(ctx),
        r is Ok,
{
    Ok(())
}

/// Invoking `initialize` twice yields success both times, with no observable
/// interaction between the calls: the outcome of each is fixed by its own
/// context alone, and both outcomes are success.
pub proof fn lemma_initialize_idempotent(first: Initialize, second: Initialize)
    ensures
        initialize_spec(first) is Ok,
        initialize_spec(second) is Ok,
        initialize_spec(first) == initialize_spec(second),
{
}

/// The full invocation path: validate the supplied accounts, then run the
/// instruction body. A non-empty account list is rejected by validation
/// before the body runs; the empty list reaches the body and succeeds.
pub fn invoke_initialize(accounts: &Vec<AccountHandle>) -> (r: Result<(), ValidationError>)
    ensures
        r is Ok <==> accounts@.len() == 0,
        accounts@.len() > 0 ==> r == Err::<(), ValidationError>(ValidationError::UnexpectedAccount),
{
    match Initialize::try_accounts(accounts) {
        Ok(ctx) => initialize(ctx),
        Err(e) => Err(e),
    }
}

} // verus!
