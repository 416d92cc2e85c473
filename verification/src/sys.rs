//! Trusted bindings to the execution environment: address derivation,
//! the three system instructions, cross-program invocation, and rent.
//!
//! Every function here is `external_body`: its contract is assumed, not
//! proved. Each doc comment names the outside function relied on.

use vstd::prelude::*;

use crate::address::Address;
use crate::error::UtilError;
use anchor_lang::solana_program::account_info::AccountInfo;
use anchor_lang::solana_program::instruction::Instruction;
use anchor_lang::solana_program::program::invoke;
use anchor_lang::solana_program::program::invoke_signed;
use anchor_lang::solana_program::program_error::ProgramError;
use anchor_lang::solana_program::pubkey::Pubkey;
use anchor_lang::solana_program::rent::Rent;
use anchor_lang::solana_program::system_instruction;
use anchor_lang::solana_program::sysvar::Sysvar;

verus! {

#[verifier::external_type_specification]
#[verifier::external_body]
pub struct ExAccountInfo<'a>(AccountInfo<'a>);

#[verifier::external_type_specification]
#[verifier::external_body]
pub struct ExInstruction(Instruction);

#[verifier::external_type_specification]
#[verifier::external_body]
pub struct ExProgramError(ProgramError);

#[verifier::external_type_specification]
#[verifier::external_body]
pub struct ExRent(Rent);

/// The `(address, bump)` pair that the environment's derivation function
/// returns for a seed list and a program identity, or `None` where no
/// canonical bump exists. The derivation is a pure function of the seed
/// bytes and the program identity alone.
pub uninterp spec fn derive_spec(seeds: Seq<Seq<u8>>, program_id: Seq<u8>) -> Option<(Seq<u8>, u8)>;

/// Relies on `Pubkey::try_find_program_address`: the result depends only on
/// the seed bytes and the program identity, and is `None` exactly when no
/// bump in the legal range yields an off-curve address.
#[verifier::external_body]
pub(crate) fn try_derive(seeds: &Vec<Vec<u8>>, program_id: &Address) -> (r: Option<(Address, u8)>)
    ensures
        match r {
            Some(p) => derive_spec(seeds.deep_view(), program_id@) == Some((p.0@, p.1)),
            None => derive_spec(seeds.deep_view(), program_id@) is None,
        },
{
    let seed_slices: Vec<&[u8]> = seeds.iter().map(|s| s.as_slice()).collect();
    let pid = Pubkey::new_from_array(program_id.bytes);
    Pubkey::try_find_program_address(&seed_slices, &pid)
        .map(|(key, bump)| (Address { bytes: key.to_bytes() }, bump))
}

/// Relies on `AccountInfo::clone`: the clone is a handle to the same
/// account record.
#[verifier::external_body]
pub(crate) fn clone_account<'a>(a: &AccountInfo<'a>) -> (r: AccountInfo<'a>)
    ensures
        r == *a,
{
    a.clone()
}

/// Relies on `Rent::from_account_info`: reads the rent schedule from the
/// rent sysvar account, failing on any account that is not that sysvar.
#[verifier::external_body]
pub(crate) fn read_rent(rent_sysvar_info: &AccountInfo<'_>) -> (r: Result<Rent, UtilError>)
    ensures
        r matches Err(e) ==> e is Program,
{
    match Rent::from_account_info(rent_sysvar_info) {
        Ok(rent) => Ok(rent),
        Err(e) => Err(UtilError::Program(e)),
    }
}

/// Relies on `Rent::minimum_balance`: the rent-exempt minimum balance for
/// an account of `size` bytes under the given rent schedule.
#[verifier::external_body]
pub(crate) fn rent_minimum_balance(rent: &Rent, size: usize) -> u64 {
    rent.minimum_balance(size)
}

/// Relies on `AccountInfo::try_borrow_lamports`: the account's current
/// balance, or an error if the balance cell is already mutably borrowed.
#[verifier::external_body]
pub(crate) fn read_lamports(a: &AccountInfo<'_>) -> (r: Result<u64, UtilError>)
    ensures
        r matches Err(e) ==> e is Program,
{
    match a.try_borrow_lamports() {
        Ok(lamports) => Ok(**lamports),
        Err(e) => Err(UtilError::Program(e)),
    }
}

/// Relies on `system_instruction::transfer`: the funding instruction that
/// moves `lamports` from `payer`'s address to `to`'s address.
#[verifier::external_body]
pub(crate) fn make_transfer_ix(payer: &AccountInfo<'_>, to: &AccountInfo<'_>, lamports: u64) -> Instruction {
    system_instruction::transfer(payer.key, to.key, lamports)
}

/// Relies on `system_instruction::allocate`: the instruction that sizes
/// `target`'s address to `space` bytes of storage.
#[verifier::external_body]
pub(crate) fn make_allocate_ix(target: &AccountInfo<'_>, space: u64) -> Instruction {
    system_instruction::allocate(target.key, space)
}

/// Relies on `system_instruction::assign`: the instruction that hands
/// `target`'s address to the owning program `owner`.
#[verifier::external_body]
pub(crate) fn make_assign_ix(target: &AccountInfo<'_>, owner: &Address) -> Instruction {
    system_instruction::assign(target.key, &Pubkey::new_from_array(owner.bytes))
}

/// Relies on `program::invoke`: submits `ix` to the environment with the
/// accounts exactly as listed, under the callers' ordinary signatures.
/// The outcome is the environment's.
#[verifier::external_body]
pub(crate) fn invoke_ix(ix: &Instruction, accounts: &Vec<AccountInfo<'_>>) -> (r: Result<(), UtilError>)
    ensures
        r matches Err(e) ==> e is Program,
{
    match invoke(ix, accounts.as_slice()) {
        Ok(()) => Ok(()),
        Err(e) => Err(UtilError::Program(e)),
    }
}

/// Relies on `program::invoke_signed`: submits `ix` to the environment with
/// the accounts exactly as listed, signed with the derivation proof
/// `signer_seeds`. The outcome is the environment's.
#[verifier::external_body]
pub(crate) fn invoke_signed_ix(
    ix: &Instruction,
    accounts: &Vec<AccountInfo<'_>>,
    signer_seeds: &Vec<Vec<u8>>,
) -> (r: Result<(), UtilError>)
    ensures
        r matches Err(e) ==> e is Program,
{
    let seed_slices: Vec<&[u8]> = signer_seeds.iter().map(|s| s.as_slice()).collect();
    match invoke_signed(ix, accounts.as_slice(), &[&seed_slices]) {
        Ok(()) => Ok(()),
        Err(e) => Err(UtilError::Program(e)),
    }
}

} // verus!
