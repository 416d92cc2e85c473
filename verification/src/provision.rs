//! Idempotent account provisioning: bring a target account to a
//! fully-funded, correctly-sized, correctly-owned state, authorizing the
//! allocation and assignment steps with a derivation proof.

use vstd::prelude::*;

use crate::address::Address;
use crate::error::UtilError;
use crate::sys::clone_account;
use crate::sys::invoke_ix;
use crate::sys::invoke_signed_ix;
use crate::sys::make_allocate_ix;
use crate::sys::make_assign_ix;
use crate::sys::make_transfer_ix;
use crate::sys::read_lamports;
use crate::sys::read_rent;
use crate::sys::rent_minimum_balance;
use anchor_lang::solana_program::account_info::AccountInfo;

verus! {

/// The top-up a target account needs: the rent-exempt minimum for its
/// size, floored at one lamport, less what it already holds; zero once the
/// account holds at least that much.
pub open spec fn spec_required_topup(minimum_balance: u64, current_balance: u64) -> u64 {
    let floor = if minimum_balance >= 1 {
        minimum_balance
    } else {
        1u64
    };
    if current_balance >= floor {
        0u64
    } else {
        (floor - current_balance) as u64
    }
}

/// Computes the top-up amount for an account.
pub fn required_topup(minimum_balance: u64, current_balance: u64) -> (r: u64)
    ensures
        r == spec_required_topup(minimum_balance, current_balance),
{
    let floor: u64 = if minimum_balance >= 1 {
        minimum_balance
    } else {
        1
    };
    if current_balance >= floor {
        0
    } else {
        floor - current_balance
    }
}

/// An account already holding the floored rent-exempt minimum needs no
/// further funding, and only such an account needs none: re-running the
/// provisioner on a conforming account transfers nothing.
pub proof fn lemma_topup_zero_iff_funded(minimum_balance: u64, current_balance: u64)
    ensures
        spec_required_topup(minimum_balance, current_balance) == 0 <==> current_balance >= (
        if minimum_balance >= 1 {
            minimum_balance
        } else {
            1u64
        }),
{
}

/// An underfunded account is topped up by exactly the shortfall
/// `minimum_balance - current_balance`, never more.
pub proof fn lemma_topup_exact_shortfall(minimum_balance: u64, current_balance: u64)
    requires
        minimum_balance >= 1,
        current_balance < minimum_balance,
    ensures
        spec_required_topup(minimum_balance, current_balance) == minimum_balance - current_balance,
{
}

/// The accounts handed to the funding instruction: payer, target, system
/// program, in that order.
pub fn transfer_account_list<'a>(
    payer_info: &AccountInfo<'a>,
    new_account_info: &AccountInfo<'a>,
    system_program_info: &AccountInfo<'a>,
) -> (v: Vec<AccountInfo<'a>>)
    ensures
        v@.len() == 3,
        v@[0] == *payer_info,
        v@[1] == *new_account_info,
        v@[2] == *system_program_info,
{
    let mut v: Vec<AccountInfo<'a>> = Vec::new();
    v.push(clone_account(payer_info));
    v.push(clone_account(new_account_info));
    v.push(clone_account(system_program_info));
    v
}

/// The accounts handed to the allocation and assignment instructions:
/// target, system program, in that order.
pub fn sized_account_list<'a>(
    new_account_info: &AccountInfo<'a>,
    system_program_info: &AccountInfo<'a>,
) -> (v: Vec<AccountInfo<'a>>)
    ensures
        v@.len() == 2,
        v@[0] == *new_account_info,
        v@[1] == *system_program_info,
{
    let mut v: Vec<AccountInfo<'a>> = Vec::new();
    v.push(clone_account(new_account_info));
    v.push(clone_account(system_program_info));
    v
}

/// Create an account almost from scratch, idempotently: top up the target
/// to the rent-exempt minimum for `size` (skipped when already funded),
/// allocate `size` bytes, and assign ownership to `program_id`, the last
/// two authorized by the derivation proof `signer_seeds` rather than a
/// private key. Failures of the underlying instructions are propagated
/// unmodified; a derivation mismatch is never reported from here.
pub fn create_or_allocate_account_raw<'a>(
    program_id: &Address,
    new_account_info: &AccountInfo<'a>,
    rent_sysvar_info: &AccountInfo<'a>,
    system_program_info: &AccountInfo<'a>,
    payer_info: &AccountInfo<'a>,
    size: usize,
    signer_seeds: &Vec<Vec<u8>>,
) -> (r: Result<(), UtilError>)
    ensures
        r matches Err(e) ==> e is Program,
{
    let rent = read_rent(rent_sysvar_info)?;
    let minimum_balance = rent_minimum_balance(&rent, size);
    let current_balance = read_lamports(new_account_info)?;
    let topup = required_topup(minimum_balance, current_balance);

    if topup > 0 {
        let transfer_ix = make_transfer_ix(payer_info, new_account_info, topup);
        let transfer_accounts = transfer_account_list(
            payer_info,
            new_account_info,
            system_program_info,
        );
        invoke_ix(&transfer_ix, &transfer_accounts)?;
    }

    let signed_accounts = sized_account_list(new_account_info, system_program_info);

    let allocate_ix = make_allocate_ix(new_account_info, size as u64);
    invoke_signed_ix(&allocate_ix, &signed_accounts, signer_seeds)?;

    let assign_ix = make_assign_ix(new_account_info, program_id);
    invoke_signed_ix(&assign_ix, &signed_accounts, signer_seeds)?;

    Ok(())
}

} // verus!
