//! Trusted boundary to the ledger substrate's token primitive.
//!
//! The engine never moves funds itself: it only builds the instructions
//! that the substrate executes atomically with the record's state change.
//! Everything in this module is believed, not proved; each item's doc
//! comment names the outside function it relies on.

use anchor_lang::prelude::Pubkey;
use anchor_lang::solana_program::instruction::Instruction;
use vstd::prelude::*;

verus! {

#[verifier::external_type_specification]
#[verifier::external_body]
pub struct ExPubkey(Pubkey);

#[verifier::external_type_specification]
#[verifier::external_body]
pub struct ExInstruction(Instruction);

/// Relies on `Pubkey`'s derived `PartialEq`: two public keys are equal
/// exactly when their 32 key bytes are equal.
#[verifier::external_body]
pub(crate) fn pubkey_eq(a: &Pubkey, b: &Pubkey) -> (r: bool)
    ensures
        r <==> a == b,
{
    a == b
}

/// The token program's approve instruction for these arguments: a function
/// of them alone, named so that contracts can pin which instruction a
/// caller built without restating the token program's wire format.
pub uninterp spec fn approve_ix_of(
    source: Pubkey,
    delegate: Pubkey,
    owner: Pubkey,
    amount: u64,
) -> Instruction;

/// The token program's transfer instruction for these arguments: a
/// function of them alone.
pub uninterp spec fn transfer_ix_of(
    source: Pubkey,
    destination: Pubkey,
    delegate: Pubkey,
    amount: u64,
) -> Instruction;

/// The token program's revoke instruction for these arguments: a function
/// of them alone.
pub uninterp spec fn revoke_ix_of(source: Pubkey, owner: Pubkey) -> Instruction;

/// Relies on `spl_token::instruction::approve`: builds the instruction that
/// grants `delegate` an allowance of `amount` over `source`, to be signed by
/// `owner`; the result depends on the arguments alone. Passing the
/// canonical token program id makes the only failure case (a wrong program
/// id) impossible.
#[verifier::external_body]
pub(crate) fn build_approve_instruction(
    source: &Pubkey,
    delegate: &Pubkey,
    owner: &Pubkey,
    amount: u64,
) -> (r: Instruction)
    ensures
        r == approve_ix_of(*source, *delegate, *owner, amount),
{
    spl_token::instruction::approve(&spl_token::id(), source, delegate, owner, &[], amount)
        .unwrap()
}

/// Relies on `spl_token::instruction::transfer`: builds the instruction that
/// moves `amount` from `source` to `destination`, authorized by `delegate`
/// through its standing allowance; the result depends on the arguments
/// alone. Passing the canonical token program id makes the only failure
/// case (a wrong program id) impossible.
#[verifier::external_body]
pub(crate) fn build_transfer_instruction(
    source: &Pubkey,
    destination: &Pubkey,
    delegate: &Pubkey,
    amount: u64,
) -> (r: Instruction)
    ensures
        r == transfer_ix_of(*source, *destination, *delegate, amount),
{
    spl_token::instruction::transfer(&spl_token::id(), source, destination, delegate, &[], amount)
        .unwrap()
}

/// Relies on `spl_token::instruction::revoke`: builds the instruction that
/// withdraws every allowance on `source`, to be signed by `owner`; the
/// result depends on the arguments alone. Passing the canonical token
/// program id makes the only failure case (a wrong program id) impossible.
#[verifier::external_body]
pub(crate) fn build_revoke_instruction(source: &Pubkey, owner: &Pubkey) -> (r: Instruction)
    ensures
        r == revoke_ix_of(*source, *owner),
{
    spl_token::instruction::revoke(&spl_token::id(), source, owner, &[]).unwrap()
}

} // verus!
